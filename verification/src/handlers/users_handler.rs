use vstd::prelude::*;
use vstd::string::*;

use crate::errors::http_error::HttpError;

verus! {

/// The error of `GET /users/me` when the request carries no user: a 500 `User not found`.
pub fn missing_user_error() -> (e: HttpError)
    ensures
        e.status == 500,
        e.message@ == "User not found"@,
{
    HttpError::server_error(String::from_str("User not found"))
}

} // verus!
