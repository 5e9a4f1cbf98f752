use rmc_server::includes::{get_html_includes, include_fits, put_include, HtmlIncludeComment};

fn found(page: &[u8]) -> Vec<(usize, usize, String)> {
    get_html_includes(page)
        .unwrap()
        .into_iter()
        .map(|comment| (comment.start_index, comment.length, comment.include_file))
        .collect()
}

#[test]
fn a_page_without_comments_has_no_includes() {
    assert!(found(b"").is_empty());
    assert!(found(b"<p>hello</p>").is_empty());
    assert!(found(b"<!--#include ").is_empty());
}

#[test]
fn a_comment_is_found_with_its_place_and_file() {
    let page = b"<p><!--#include \"/nav.html\"--></p>";
    assert_eq!(found(page), vec![(3, 27, "/nav.html".to_string())]);
    assert_eq!(&page[3..30], b"<!--#include \"/nav.html\"-->");
}

#[test]
fn comments_come_from_the_last_to_the_first() {
    let page = b"<!--#include \"/a\"--> and <!--#include \"/bc\"-->";
    assert_eq!(found(page), vec![(25, 21, "/bc".to_string()), (0, 20, "/a".to_string())]);
}

#[test]
fn an_empty_path_is_a_path() {
    assert_eq!(found(b"<!--#include \"\"-->"), vec![(0, 18, String::new())]);
}

#[test]
fn a_path_may_hold_any_text() {
    let page = "<!--#include \"/é.html\"-->".as_bytes();
    assert_eq!(found(page), vec![(0, 26, "/é.html".to_string())]);
}

#[test]
fn the_length_counts_the_closing_though_it_is_not_there() {
    assert_eq!(found(b"<!--#include \"a\""), vec![(0, 19, "a".to_string())]);
}

#[test]
fn a_comment_can_open_in_the_path_of_another() {
    let page = b"<!--#include \"<!--#include \"x\"-->";
    assert_eq!(
        found(page),
        vec![(14, 19, "x".to_string()), (0, 31, "<!--#include ".to_string())]
    );
}

#[test]
fn a_path_without_an_end_is_refused() {
    let response = get_html_includes(b"<!--#include \"/nav.html-->").unwrap_err();
    assert_eq!(response.status, 500);
    assert_eq!(
        &response.body[..],
        b"Somebody didn't format the HTML include comment correctly"
    );
}

#[test]
fn a_path_that_is_no_text_is_refused() {
    let response = get_html_includes(b"<!--#include \"/\xff\"-->").unwrap_err();
    assert_eq!(response.status, 500);
    assert_eq!(&response.body[..], b"Invalid utf-8 in HTML include comment");
}

#[test]
fn a_missing_end_comes_before_a_path_that_is_no_text() {
    let response = get_html_includes(b"<!--#include \"/\xff\"--><!--#include \"x").unwrap_err();
    assert_eq!(
        &response.body[..],
        b"Somebody didn't format the HTML include comment correctly"
    );
}

fn comment(start_index: usize, length: usize) -> HtmlIncludeComment {
    HtmlIncludeComment { start_index, length, include_file: String::new() }
}

#[test]
fn a_file_takes_the_place_of_its_comment() {
    assert_eq!(put_include(b"abcdef", &comment(2, 3), b"XY"), b"abXYf");
    assert_eq!(put_include(b"abcdef", &comment(0, 6), b""), b"");
    assert_eq!(put_include(b"abc", &comment(3, 0), b"long tail"), b"abclong tail");
}

#[test]
fn what_stands_in_front_stays_where_it_was() {
    let after = put_include(b"0123456789", &comment(6, 2), b"anything at all");
    assert_eq!(&after[..6], b"012345");
    assert_eq!(&after[after.len() - 2..], b"89");
}

#[test]
fn a_place_behind_the_end_does_not_fit() {
    assert!(include_fits(b"abcdef", &comment(2, 4)));
    assert!(!include_fits(b"abcdef", &comment(2, 5)));
    assert!(!include_fits(b"abcdef", &comment(7, 0)));
    assert!(!include_fits(b"abcdef", &comment(usize::MAX, usize::MAX)));
}
