use vstd::prelude::*;
use vstd::string::*;

use crate::errors::auth_errors::ErrorMessage;
use crate::errors::http_error::HttpError;

verus! {

/// The answer to a verification request, from what setting the code gave: `Ok(true)` where
/// a user was marked verified, `Ok(false)` where none was, `Err(text)` where the database
/// failed. A marked user is answered 200; no user is a 400 `Failed Verification`; a
/// database failure is a 500 with its text.
pub fn verification_outcome(result: Result<bool, String>) -> (r: Result<(), HttpError>)
    ensures
        result == Ok::<bool, String>(true) ==> r is Ok,
        result == Ok::<bool, String>(false) ==> (r matches Err(e) && e.status == 400
            && e.message@ == "Failed Verification"@),
        result matches Err(text) ==> (r matches Err(e) && e.status == 500 && e.message@
            == text@),
{
    match result {
        Ok(true) => Ok(()),
        Ok(false) => Err(HttpError::bad_request(String::from_str("Failed Verification"))),
        Err(text) => Err(HttpError::server_error(text)),
    }
}

/// The error of a registration that the database refused: a broken unique constraint means
/// the email is taken (409); anything else is a 500 with the database's text.
pub fn registration_failure(unique_violation: bool, error_text: String) -> (e: HttpError)
    ensures
        unique_violation ==> e.status == 409 && e.message@ == ErrorMessage::EmailExist.text(),
        !unique_violation ==> e.status == 500 && e.message@ == error_text@,
{
    if unique_violation {
        HttpError::unique_constraint_voilation(ErrorMessage::EmailExist.to_str())
    } else {
        HttpError::server_error(error_text)
    }
}

/// The verdict on a login: `password_check` is `None` where no user has the email, else
/// what comparing the password with the stored hash gave (`Err` where the hash could not be
/// read). Only a matching password lets the login on; every other case is the same 401
/// `WrongCredentials`, so that the answer does not tell which part was wrong.
pub fn login_verdict(password_check: Option<Result<bool, ()>>) -> (r: Result<(), HttpError>)
    ensures
        r is Ok <==> password_check == Some(Ok::<bool, ()>(true)),
        r matches Err(e) ==> e.status == 401 && e.message@ == ErrorMessage::WrongCredentials.text(),
{
    match password_check {
        Some(Ok(true)) => Ok(()),
        _ => Err(HttpError::unauthorized(ErrorMessage::WrongCredentials.to_str())),
    }
}

/// The lifetime of the login cookie in seconds: the token lifetime (minutes) times 60. A
/// product past the `i64` range overflows in the handler and is left out.
pub fn token_cookie_max_age(jwt_maxage: i64) -> (r: i64)
    requires
        i64::MIN <= 60 * jwt_maxage <= i64::MAX,
    ensures
        r == 60 * jwt_maxage,
{
    60 * jwt_maxage
}

} // verus!
