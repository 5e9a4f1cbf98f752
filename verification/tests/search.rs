use rmc_server::search::{matches_at, u8_index_of, u8_index_of_multi};

#[test]
fn finds_the_first_byte_in_the_range() {
    assert_eq!(u8_index_of(b"a/b/c", b'/', 0, 5), Some(1));
    assert_eq!(u8_index_of(b"a/b/c", b'/', 2, 5), Some(3));
    assert_eq!(u8_index_of(b"a/b/c", b'/', 4, 5), None);
    assert_eq!(u8_index_of(b"a/b/c", b'/', 2, 3), None);
    assert_eq!(u8_index_of(b"", b'/', 0, 0), None);
}

#[test]
fn finds_the_first_run_in_the_range() {
    assert_eq!(u8_index_of_multi(b"xx)Tj)Tj", b")Tj", 0, 8), Some(2));
    assert_eq!(u8_index_of_multi(b"xx)Tj)Tj", b")Tj", 3, 8), Some(5));
    assert_eq!(u8_index_of_multi(b"xx)Tj)Tj", b")Tj", 3, 7), None);
    assert_eq!(u8_index_of_multi(b"ab", b"abc", 0, 2), None);
    assert_eq!(u8_index_of_multi(b"aaab", b"aab", 0, 4), Some(1));
}

#[test]
fn matches_only_where_the_run_stands() {
    assert!(matches_at(b"abcabc", b"abc", 3));
    assert!(!matches_at(b"abcabc", b"abc", 2));
    assert!(matches_at(b"abc", b"", 3));
}

#[test]
fn a_run_of_one_byte_is_found_where_the_byte_is() {
    let array = b"a/b/c";
    for start in 0..=5 {
        assert_eq!(
            u8_index_of_multi(array, b"/", start, 5),
            u8_index_of(array, b'/', start, 5)
        );
    }
}
