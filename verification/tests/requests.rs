use rmc_server::auth::authorize;
use rmc_server::requests::{
    answer_request, fetch_content, get_login, handle_request, page_response, Purpose, Request, Step,
};
use rmc_server::response::{gen_response, FileOutcome, Response};
use std::collections::HashMap;

const ROOT: &str = "/srv";

fn request(method: &str, path: &str, uri: &str) -> Request {
    Request { method: method.to_string(), path: path.to_string(), uri: uri.to_string() }
}

fn get(path: &str) -> Request {
    request("GET", path, path)
}

fn files(pages: &[(&str, &[u8])]) -> HashMap<String, Vec<u8>> {
    pages.iter().map(|(path, page)| (path.to_string(), page.to_vec())).collect()
}

/// Follows a request to its response, and tells which files were asked for.
fn follow(mut step: Step, files: &HashMap<String, Vec<u8>>) -> (Response, Vec<String>) {
    let mut asked = Vec::new();
    loop {
        match step {
            Step::Respond(response) => return (response, asked),
            Step::Read(pending) => {
                asked.push(pending.path.clone());
                let outcome = match files.get(&pending.path) {
                    Some(content) => FileOutcome::Contents(content.clone()),
                    None => FileOutcome::NotOpened,
                };
                assert!(pending.can_resume(&outcome));
                step = pending.resume(ROOT, outcome);
            }
        }
    }
}

fn answer(request: &Request, pages: &[(&str, &[u8])]) -> (u16, Vec<u8>) {
    let (response, _) = follow(handle_request(request, ROOT, true), &files(pages));
    (response.status, response.body.to_vec())
}

#[test]
fn the_login_page_is_served_as_it_is() {
    let page: &[u8] = b"<form><!--#include \"/x\"--></form>";
    assert_eq!(answer(&get("/login"), &[("/srv/login.html", page)]), (200, page.to_vec()));
    let step = handle_request(&get("/login"), ROOT, false);
    let (response, asked) = follow(step, &files(&[("/srv/login.html", page)]));
    assert_eq!((response.status, &response.body[..]), (200, page));
    assert_eq!(asked, vec!["/srv/login.html"]);
}

#[test]
fn a_missing_login_page_is_named() {
    assert_eq!(
        answer(&get("/login"), &[]),
        (404, b"login.html could not be found".to_vec())
    );
}

#[test]
fn a_login_page_that_cannot_be_read_tells_why() {
    let step = get_login(ROOT).resume(ROOT, FileOutcome::NotRead("disk on fire".to_string()));
    let (response, _) = follow(step, &files(&[]));
    assert_eq!(response.status, 500);
    assert_eq!(&response.body[..], b"Could not read file. Reason: disk on fire");
}

#[test]
fn a_page_that_cannot_be_read_is_an_error() {
    let pending = fetch_content(&get("/"), ROOT);
    let step = pending.resume(ROOT, FileOutcome::NotRead("disk on fire".to_string()));
    let (response, _) = follow(step, &files(&[]));
    assert_eq!((response.status, &response.body[..]), (500, &b"COul"[..]));
}

#[test]
fn an_include_that_cannot_be_read_is_an_error() {
    let page = b"<!--#include \"/nav\"-->".to_vec();
    let step = fetch_content(&get("/"), ROOT).resume(ROOT, FileOutcome::Contents(page));
    let pending = match step {
        Step::Read(pending) => pending,
        Step::Respond(_) => panic!("the include is wanted first"),
    };
    assert_eq!(pending.path, "/srv/nav");
    let step = pending.resume(ROOT, FileOutcome::NotRead("disk on fire".to_string()));
    let (response, _) = follow(step, &files(&[]));
    assert_eq!(response.status, 500);
    assert_eq!(&response.body[..], b"Error when reading contents of external file.");
}

#[test]
fn only_a_full_server_has_pages() {
    let step = handle_request(&get("/"), ROOT, false);
    let (response, asked) = follow(step, &files(&[("/srv/index.html", b"hello")]));
    assert_eq!(response.status, 404);
    assert_eq!(&response.body[..], b"404\nThis URL was not found on this server");
    assert!(asked.is_empty());
}

#[test]
fn only_get_is_served() {
    for method in ["POST", "HEAD", "get", ""] {
        let (status, _) = answer(&request(method, "/login", "/login"), &[("/srv/login.html", b"x")]);
        assert_eq!(status, 404);
    }
}

#[test]
fn a_refused_request_reads_nothing() {
    for path in ["/login", "/", "/belgrade/documents"] {
        let step = answer_request(&get(path), Err(()), ROOT, true);
        let (response, asked) = follow(step, &files(&[]));
        assert_eq!((response.status, &response.body[..]), (403, &b"Not authorized"[..]));
        assert!(asked.is_empty());
    }
}

#[test]
fn the_file_of_a_path() {
    let cases = [
        ("/", "/", "/srv/index.html"),
        ("/", "/?a=b", "/srv/index.html"),
        ("/style.css", "/style.css", "/srv/style.css"),
        ("/style.css", "/style.css?v=2", "/srv/style.css?v=2"),
        ("/about/", "/about/", "/srv/about/index.html"),
        ("/about", "/about", "/srv/about/index.html"),
        ("/about", "/about?x", "/srv/about?x/index.html"),
        ("/v1.2/", "/v1.2/", "/srv/v1.2/"),
    ];
    for (path, uri, file) in cases {
        let pending = fetch_content(&request("GET", path, uri), ROOT);
        assert_eq!(pending.path, file);
        assert!(matches!(pending.purpose, Purpose::Page));
    }
}

#[test]
fn a_plain_page_is_served_as_it_is() {
    assert_eq!(
        answer(&get("/about"), &[("/srv/about/index.html", b"<p>us</p>")]),
        (200, b"<p>us</p>".to_vec())
    );
}

#[test]
fn each_comment_is_replaced_by_its_file() {
    let pages: &[(&str, &[u8])] = &[
        ("/srv/index.html", b"<!--#include \"/head\"-->body<!--#include \"/foot\"-->."),
        ("/srv/head", b"a much longer head than its comment was, by far"),
        ("/srv/foot", b""),
    ];
    let (response, asked) = follow(handle_request(&get("/"), ROOT, true), &files(pages));
    assert_eq!(response.status, 200);
    assert_eq!(&response.body[..], b"a much longer head than its comment was, by farbody.");
    assert_eq!(asked, vec!["/srv/index.html", "/srv/foot", "/srv/head"]);
}

#[test]
fn what_a_file_includes_is_not_looked_at() {
    let pages: &[(&str, &[u8])] = &[
        ("/srv/index.html", b"[<!--#include \"/a\"-->]"),
        ("/srv/a", b"<!--#include \"/b\"-->"),
    ];
    assert_eq!(answer(&get("/"), pages), (200, b"[<!--#include \"/b\"-->]".to_vec()));
}

#[test]
fn the_last_missing_include_is_named() {
    let pages: &[(&str, &[u8])] =
        &[("/srv/index.html", b"<!--#include \"/p/a\"--> <!--#include \"/p/b\"-->")];
    assert_eq!(answer(&get("/"), pages), (404, b"b could not be found".to_vec()));
}

#[test]
fn a_page_with_a_faulty_comment_is_an_error() {
    let pages: &[(&str, &[u8])] = &[("/srv/index.html", b"<!--#include \"oops")];
    assert_eq!(
        answer(&get("/"), pages),
        (500, b"Somebody didn't format the HTML include comment correctly".to_vec())
    );
}

#[test]
fn a_comment_that_runs_over_the_end_has_no_place() {
    let page = b"<!--#include \"a\"".to_vec();
    let step = fetch_content(&get("/"), ROOT).resume(ROOT, FileOutcome::Contents(page));
    match step {
        Step::Read(pending) => {
            assert!(!pending.can_resume(&FileOutcome::Contents(b"x".to_vec())));
            assert!(pending.can_resume(&FileOutcome::NotOpened));
        }
        Step::Respond(_) => panic!("the include is wanted first"),
    }
}

#[test]
fn a_generated_page_or_why_there_is_none() {
    let page = page_response(Ok(gen_response(200, bytes::Bytes::from("page"))));
    assert_eq!((page.status, &page.body[..]), (200, &b"page"[..]));
    let fault = page_response(Err("invalid status code".to_string()));
    assert_eq!(fault.status, 500);
    assert_eq!(
        &fault.body[..],
        b"Could not generate response. Reason: invalid status code"
    );
}

#[test]
fn a_failed_check_refuses_only_documents() {
    let pages: &[(&str, &[u8])] = &[
        ("/srv/belgrade/index.html", b"town"),
        ("/srv/belgrade/documents/index.html", b"papers"),
    ];
    let status = |path: &str| {
        let step = answer_request(&get(path), authorize(path, Err(())), ROOT, true);
        follow(step, &files(pages)).0.status
    };
    assert_eq!(status("/belgrade/documents"), 403);
    assert_eq!(status("/belgrade"), 200);
    assert_eq!(status("/missing"), 404);
    assert_eq!(answer(&get("/belgrade/documents"), pages), (200, b"papers".to_vec()));
}

#[test]
fn comments_side_by_side_are_all_replaced() {
    let pages: &[(&str, &[u8])] = &[
        (
            "/srv/index.html",
            b"<!--#include \"/a\"--><!--#include \"/b\"--><!--#include \"/a\"-->",
        ),
        ("/srv/a", b"one "),
        ("/srv/b", b"<two> "),
    ];
    assert_eq!(answer(&get("/"), pages), (200, b"one <two> one ".to_vec()));
}

#[test]
fn a_path_may_hold_an_angle_bracket() {
    let pages: &[(&str, &[u8])] = &[
        ("/srv/index.html", b"<!--#include \"/<a\"-->.<!--#include \"/<!--b\"-->"),
        ("/srv/<a", b"one"),
        ("/srv/<!--b", b"two"),
    ];
    assert_eq!(answer(&get("/"), pages), (200, b"one.two".to_vec()));
}
