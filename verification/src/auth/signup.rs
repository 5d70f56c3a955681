use vstd::prelude::*;
use vstd::string::*;

verus! {

/// What a user sends to sign up.
#[derive(Debug)]
pub struct SignupData {
    pub username: String,
    pub password: String,
}

/// Why a sign-up was refused.
#[derive(Clone, Copy, Debug, PartialEq, Eq, Structural)]
pub enum SignupError {
    InvalidUsername,
    InvalidPassword,
    AlreadyExists,
}

impl SignupError {
    /// The message of the error as a mathematical value.
    pub open spec fn message_text(self) -> Seq<char> {
        match self {
            SignupError::InvalidUsername => "Unknown user"@,
            SignupError::InvalidPassword => "Wrong password"@,
            SignupError::AlreadyExists => "User already exists"@,
        }
    }

    /// The message shown to the client.
    pub fn message(&self) -> (text: String)
        ensures
            text@ == self.message_text(),
    {
        match self {
            SignupError::InvalidUsername => String::from_str("Unknown user"),
            SignupError::InvalidPassword => String::from_str("Wrong password"),
            SignupError::AlreadyExists => String::from_str("User already exists"),
        }
    }
}

/// A character that a user name may hold: an ASCII letter, an ASCII digit or
/// an underscore.
pub open spec fn is_name_char(c: char) -> bool {
    ('a' <= c <= 'z') || ('A' <= c <= 'Z') || ('0' <= c <= '9') || c == '_'
}

/// A user name is acceptable when each of its characters is; the empty name
/// is.
pub open spec fn is_valid_username(name: Seq<char>) -> bool {
    forall|i: int| 0 <= i < name.len() ==> is_name_char(#[trigger] name[i])
}

/// Whether `c` may stand in a user name.
pub fn name_char(c: char) -> (allowed: bool)
    ensures
        allowed == is_name_char(c),
{
    ('a' <= c && c <= 'z') || ('A' <= c && c <= 'Z') || ('0' <= c && c <= '9') || c == '_'
}

/// Whether `username` holds only letters, digits and underscores.
pub fn valid_username(username: &str) -> (valid: bool)
    ensures
        valid == is_valid_username(username@),
{
    let len = username.unicode_len();
    let mut i: usize = 0;
    while i < len
        invariant
            i <= len,
            len == username@.len(),
            forall|k: int| 0 <= k < i ==> is_name_char(#[trigger] username@[k]),
        decreases len - i,
    {
        if !name_char(username.get_char(i)) {
            return false;
        }
        i += 1;
    }
    true
}

/// The first check of a sign-up: the user name must be acceptable.
pub fn check_signup(data: &SignupData) -> (result: Result<(), SignupError>)
    ensures
        result is Ok <==> is_valid_username(data.username@),
        result matches Err(error) ==> error == SignupError::InvalidUsername,
{
    if !valid_username(data.username.as_str()) {
        return Err(SignupError::InvalidUsername);
    }
    Ok(())
}

} // verus!
