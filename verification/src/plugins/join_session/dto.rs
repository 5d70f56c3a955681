use crate::models::session::Id;
use vstd::prelude::*;

verus! {

/// A request to join a session.
#[derive(Debug)]
pub struct JoinSessionRequest {
    pub server_id: u128,
    pub player_id: Id,
}

/// The answer to a join that went well.
#[derive(Debug)]
pub struct JoinSessionResponse {
    pub connection: String,
}

} // verus!
