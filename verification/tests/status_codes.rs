use event_relay::status::StatusCode;

#[test]
fn status_numbers() {
    assert_eq!(StatusCode::OK.as_u16(), 200);
    assert_eq!(StatusCode::ACCEPTED.as_u16(), 202);
    assert_eq!(StatusCode::BAD_REQUEST.as_u16(), 400);
    assert_eq!(StatusCode::INTERNAL_SERVER_ERROR.as_u16(), 500);
}

#[test]
fn success_is_the_two_hundreds() {
    assert!(StatusCode::OK.is_success());
    assert!(StatusCode::ACCEPTED.is_success());
    assert!(!StatusCode::BAD_REQUEST.is_success());
    assert!(!StatusCode::INTERNAL_SERVER_ERROR.is_success());
}
