use cashwises::errors::auth_errors::ErrorMessage;
use cashwises::errors::http_error::HttpError;

#[test]
fn constructors_set_statuses() {
    let e = HttpError::new("teapot".to_string(), 418);
    assert_eq!((e.message.as_str(), e.status), ("teapot", 418));
    assert_eq!(HttpError::server_error("x".to_string()).status, 500);
    assert_eq!(HttpError::bad_request("x".to_string()).status, 400);
    assert_eq!(HttpError::unique_constraint_voilation("x".to_string()).status, 409);
    assert_eq!(HttpError::unauthorized("x".to_string()).status, 401);
    assert_eq!(HttpError::unauthorized("kept".to_string()).message, "kept");
}

#[test]
fn known_statuses_are_answered_with_themselves() {
    for (status, word) in [(400u16, "fail"), (401, "fail"), (409, "fail"), (500, "error")] {
        let r = HttpError::new("boom".to_string(), status).into_http_response();
        assert_eq!(r.http_status, status);
        assert_eq!(r.body.status, word);
        assert_eq!(r.body.message, "boom");
    }
}

#[test]
fn other_statuses_become_server_errors() {
    for status in [0u16, 200, 404, 418, 503, u16::MAX] {
        let r = HttpError::new("hidden".to_string(), status).into_http_response();
        assert_eq!(r.http_status, 500);
        assert_eq!(r.body.status, "error");
        assert_eq!(r.body.message, "Server Error. Please try again later");
    }
}

#[test]
fn display_text_names_message_and_status() {
    let e = HttpError::new("boom".to_string(), 404);
    assert_eq!(e.to_string(), "HttpError: message: boom, status: 404");
    assert_eq!(HttpError::new(String::new(), 0).to_string(), "HttpError: message: , status: 0");
}

#[test]
fn error_messages_have_their_texts() {
    assert_eq!(ErrorMessage::ServerError.to_str(), "Server Error. Please try again later");
    assert_eq!(ErrorMessage::WrongCredentials.to_str(), "Email or password is wrong");
    assert_eq!(ErrorMessage::EmailExist.to_str(), "A user with this email already exists");
}
