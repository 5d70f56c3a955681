use crate::models::ident::{id_to_string, uuid_text};
use vstd::prelude::*;
use vstd::string::*;

verus! {

/// Why a player could not be taken out of a session.
#[derive(Debug, PartialEq, Eq)]
pub enum RemovePlayerFromSessionError {
    /// No session has this id.
    SessionNotFound(u128),
}

impl RemovePlayerFromSessionError {
    /// The message of the error as a mathematical value.
    pub open spec fn message_text(self) -> Seq<char> {
        match self {
            RemovePlayerFromSessionError::SessionNotFound(id) => "Session not found: "@
                + uuid_text(id),
        }
    }

    /// The message shown to the client.
    pub fn message(&self) -> (text: String)
        ensures
            text@ == self.message_text(),
    {
        match self {
            RemovePlayerFromSessionError::SessionNotFound(id) => {
                let mut text = String::from_str("Session not found: ");
                let id_text = id_to_string(*id);
                text.append(id_text.as_str());
                text
            },
        }
    }
}

} // verus!
