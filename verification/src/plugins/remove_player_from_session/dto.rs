use crate::models::session::Id;
use vstd::prelude::*;

verus! {

/// A request to take a player out of a session.
#[derive(Debug)]
pub struct RemovePlayerFromSessionRequest {
    pub server_id: u128,
    pub player_id: Id,
}

} // verus!
