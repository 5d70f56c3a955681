use crate::models::session::{Session, SessionView};
use crate::shared::context::Context;
use crate::shared::services::sesser::{is_code_match, is_snapshot, Sesser};
use vstd::prelude::*;

verus! {

/// `found` answers a listing: the match of the join code where one is
/// given, else a snapshot of all active sessions.
pub open spec fn is_listing(
    found: Seq<SessionView>,
    sessions: Map<u128, SessionView>,
    code: Option<String>,
) -> bool {
    match code {
        Some(code) => is_code_match(found, sessions, code@),
        None => is_snapshot(found, sessions),
    }
}

/// The sessions that a listing shows.
pub fn filter_sessions<S: Sesser>(context: &Context<S>, code: Option<String>) -> (found: Vec<
    Session,
>)
    requires
        context.sesser_spec().inv(),
    ensures
        is_listing(found@.map_values(|s: Session| s@), context.sesser_spec().sessions(), code),
        code is Some ==> found@.len() <= 1,
{
    if let Some(code) = code {
        context.sesser().filter_by_code(code)
    } else {
        context.sesser().get_all_sessions()
    }
}

} // verus!
