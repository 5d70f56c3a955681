use crate::shared::utils::SessionPresent;
use vstd::prelude::*;

verus! {

/// The parameters of a listing: with a join code, the session that has it;
/// without one, all sessions.
#[derive(Debug)]
pub struct FilterParams {
    pub code: Option<String>,
}

/// The answer to a listing.
#[derive(Debug)]
pub struct FilterSessionsResponse {
    pub servers: Vec<SessionPresent>,
}

} // verus!
