use vstd::prelude::*;
use vstd::string::*;

verus! {

/// What a user sends to log in.
#[derive(Debug)]
pub struct LoginData {
    pub username: String,
    pub password: String,
}

/// Why a log-in was refused.
#[derive(Clone, Copy, Debug, PartialEq, Eq, Structural)]
pub enum LoginError {
    UnknownUser,
    WrongPassword,
}

impl LoginError {
    /// The message of the error as a mathematical value.
    pub open spec fn message_text(self) -> Seq<char> {
        match self {
            LoginError::UnknownUser => "Unknown user"@,
            LoginError::WrongPassword => "Wrong password"@,
        }
    }

    /// The message shown to the client.
    pub fn message(&self) -> (text: String)
        ensures
            text@ == self.message_text(),
    {
        match self {
            LoginError::UnknownUser => String::from_str("Unknown user"),
            LoginError::WrongPassword => String::from_str("Wrong password"),
        }
    }
}

} // verus!
