use crate::models::session::{Id, SessionConfig};
use vstd::prelude::*;

verus! {

/// A request to create a session.
#[derive(Debug)]
pub struct CreateSessionRequest {
    pub creator_id: Id,
    pub config: SessionConfig,
}

/// The answer to a creation that went well.
#[derive(Debug)]
pub struct CreateSessionResponse {
    pub connection: String,
}

} // verus!
