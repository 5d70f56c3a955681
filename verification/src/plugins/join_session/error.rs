use crate::models::ident::{id_to_string, uuid_text};
use vstd::prelude::*;
use vstd::string::*;

verus! {

/// Why a player could not join.
#[derive(Debug, PartialEq, Eq)]
pub enum JoinSessionError {
    /// No session has this id.
    SessionNotFound(u128),
    /// The session is at capacity.
    SessionIsFull,
}

impl JoinSessionError {
    /// The message of the error as a mathematical value.
    pub open spec fn message_text(self) -> Seq<char> {
        match self {
            JoinSessionError::SessionNotFound(id) => "Session not found: "@ + uuid_text(id),
            JoinSessionError::SessionIsFull => "Session is full"@,
        }
    }

    /// The message shown to the client.
    pub fn message(&self) -> (text: String)
        ensures
            text@ == self.message_text(),
    {
        match self {
            JoinSessionError::SessionNotFound(id) => {
                let mut text = String::from_str("Session not found: ");
                let id_text = id_to_string(*id);
                text.append(id_text.as_str());
                text
            },
            JoinSessionError::SessionIsFull => String::from_str("Session is full"),
        }
    }
}

} // verus!
