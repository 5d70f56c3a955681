//! What can go wrong in the session service.

use crate::models::ident::{id_to_string, uuid_text};
use vstd::prelude::*;
use vstd::string::*;

verus! {

/// Why a change to a session's players was refused.
#[derive(Debug, PartialEq, Eq)]
pub enum UpdateSessionError {
    /// No session has this id.
    SessionNotFound(u128),
    /// The session is at capacity.
    SessionIsFull,
}

impl UpdateSessionError {
    /// The message of the error as a mathematical value.
    pub open spec fn message_text(self) -> Seq<char> {
        match self {
            UpdateSessionError::SessionNotFound(id) => "Session not found: "@ + uuid_text(id),
            UpdateSessionError::SessionIsFull => "Session is full"@,
        }
    }

    /// The message shown to the client.
    pub fn message(&self) -> (text: String)
        ensures
            text@ == self.message_text(),
    {
        match self {
            UpdateSessionError::SessionNotFound(id) => {
                let mut text = String::from_str("Session not found: ");
                let id_text = id_to_string(*id);
                text.append(id_text.as_str());
                text
            },
            UpdateSessionError::SessionIsFull => String::from_str("Session is full"),
        }
    }
}

/// The worker could not be started; `reason` is what the operating system
/// said.
#[derive(Debug, PartialEq, Eq)]
pub struct SpawnFailed {
    pub reason: String,
}

} // verus!
