use vstd::prelude::*;
use vstd::string::*;

verus! {

/// The fixed messages that the API answers with.
#[derive(Clone, Copy, Debug, PartialEq, Eq, Structural)]
pub enum ErrorMessage {
    ServerError,
    WrongCredentials,
    EmailExist,
}

impl ErrorMessage {
    /// The text of each message.
    pub open spec fn text(self) -> Seq<char> {
        match self {
            ErrorMessage::ServerError => "Server Error. Please try again later"@,
            ErrorMessage::WrongCredentials => "Email or password is wrong"@,
            ErrorMessage::EmailExist => "A user with this email already exists"@,
        }
    }

    /// The message as a `String`.
    pub fn to_str(&self) -> (s: String)
        ensures
            s@ == self.text(),
    {
        match self {
            ErrorMessage::ServerError => String::from_str("Server Error. Please try again later"),
            ErrorMessage::WrongCredentials => String::from_str("Email or password is wrong"),
            ErrorMessage::EmailExist => String::from_str("A user with this email already exists"),
        }
    }
}

} // verus!
