use rmc_server::auth::{authorize, check_authorization, required_flags, AuthFlags};
use rmc_server::requests::Request;

#[test]
fn flags_have_their_bits() {
    assert_eq!(u64::from(AuthFlags::ViewBelgradeDocuments), 1);
    assert_eq!(u64::from(AuthFlags::EditUsers), 2);
    assert_eq!(AuthFlags::ViewBelgradeDocuments | AuthFlags::EditUsers, 3);
    assert_eq!(AuthFlags::EditUsers | AuthFlags::EditUsers, 2);
}

#[test]
fn documents_need_flags() {
    assert_eq!(required_flags("/belgrade/documents"), Some(2));
    assert_eq!(required_flags("/belgrade/documents/search"), Some(2));
    assert_eq!(required_flags("/belgrade/documentsX"), Some(2));
    assert_eq!(required_flags("/belgrade"), None);
    assert_eq!(required_flags("/x/belgrade/documents"), None);
}

#[test]
fn everybody_is_allowed_for_now() {
    let request = Request {
        method: "GET".to_string(),
        path: "/belgrade/documents".to_string(),
        uri: "/belgrade/documents".to_string(),
    };
    assert_eq!(check_authorization(&request, 2), Ok(()));
    assert_eq!(check_authorization(&request, u64::MAX), Ok(()));
}

#[test]
fn only_a_path_that_needs_flags_can_be_refused() {
    for checked in [Ok(()), Err(())] {
        assert_eq!(authorize("/belgrade/documents", checked), checked);
        assert_eq!(authorize("/belgrade/documents/search", checked), checked);
        assert_eq!(authorize("/login", checked), Ok(()));
        assert_eq!(authorize("/belgrade", checked), Ok(()));
    }
}
