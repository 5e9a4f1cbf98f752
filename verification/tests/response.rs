use bytes::Bytes;
use hyper::StatusCode;
use rmc_server::response::{
    file_open, gen_response, FORBIDDEN, INTERNAL_SERVER_ERROR, NOT_FOUND, OK,
};

#[test]
fn statuses_have_their_numbers() {
    assert_eq!(StatusCode::OK.as_u16(), OK);
    assert_eq!(StatusCode::FORBIDDEN.as_u16(), FORBIDDEN);
    assert_eq!(StatusCode::NOT_FOUND.as_u16(), NOT_FOUND);
    assert_eq!(StatusCode::INTERNAL_SERVER_ERROR.as_u16(), INTERNAL_SERVER_ERROR);
}

#[test]
fn a_simple_response_has_status_and_message() {
    let response = gen_response(NOT_FOUND, Bytes::from("no such page"));
    assert_eq!(response.status, 404);
    assert_eq!(response.body, Bytes::from("no such page"));
    assert_eq!(gen_response(201, Bytes::new()).status, 201);
}

#[test]
fn a_file_that_cannot_be_opened_is_named() {
    let response = file_open::<u8>("/srv/www/about/index.html", None).unwrap_err();
    assert_eq!(response.status, 404);
    assert_eq!(&response.body[..], b"index.html could not be found");
}

#[test]
fn an_opened_file_is_handed_on() {
    assert_eq!(file_open("/srv/www/index.html", Some(7u8)).unwrap(), 7);
}
