use rmc_server::text::{
    after_last, chars_of, join, contains_char, ends_with, equals, starts_with,
};

#[test]
fn characters_are_not_bytes() {
    assert_eq!(chars_of("aé✓"), vec!['a', 'é', '✓']);
}

#[test]
fn compares_texts() {
    assert!(equals("GET", "GET"));
    assert!(!equals("GET", "get"));
    assert!(!equals("GET", "GETS"));
    assert!(starts_with("/belgrade/documents/1", "/belgrade/documents"));
    assert!(!starts_with("/belgrade", "/belgrade/documents"));
    assert!(ends_with("/about/", "/"));
    assert!(!ends_with("/about", "/"));
    assert!(!ends_with("", "/"));
    assert!(contains_char("/style.css", '.'));
    assert!(!contains_char("/about", '.'));
}

#[test]
fn the_last_part_of_a_path() {
    assert_eq!(after_last("/srv/www/login.html", '/'), "login.html");
    assert_eq!(after_last("login.html", '/'), "login.html");
    assert_eq!(after_last("/srv/", '/'), "");
    assert_eq!(after_last("", '/'), "");
    assert_eq!(after_last("/srv/é✓.html", '/'), "é✓.html");
}

#[test]
fn the_last_part_agrees_with_splitting() {
    for path in ["a/b/c", "/", "//", "x", "", "a/", "/é/ü"] {
        assert_eq!(after_last(path, '/'), path.split('/').last().unwrap());
    }
}

#[test]
fn joins_texts() {
    assert_eq!(join("/srv", "/login.html"), "/srv/login.html");
    assert_eq!(join("", ""), "");
}
