use vstd::prelude::*;
use vstd::string::*;

verus! {

/// Why a session could not be created.
#[derive(Debug, PartialEq, Eq)]
pub enum CreateSessionError {
    /// The worker could not be started.
    StartServer(String),
}

impl CreateSessionError {
    /// The message of the error as a mathematical value.
    pub open spec fn message_text(self) -> Seq<char> {
        match self {
            CreateSessionError::StartServer(reason) => "Start server error: "@ + reason@,
        }
    }

    /// The message shown to the client.
    pub fn message(&self) -> (text: String)
        ensures
            text@ == self.message_text(),
    {
        match self {
            CreateSessionError::StartServer(reason) => {
                let mut text = String::from_str("Start server error: ");
                text.append(reason.as_str());
                text
            },
        }
    }
}

} // verus!
