use crate::models::session::{Endpoint, Id, SessionView, UpdateSession, UpdateView};
use crate::plugins::join_session::error::JoinSessionError;
use crate::shared::services::sesser::error::UpdateSessionError;
use crate::shared::services::sesser::{update_result, updated_sessions, Sesser};
use vstd::prelude::*;

verus! {

/// What a join comes to: the endpoint of the session, or the reason for
/// which the player is turned away.
pub open spec fn join_result(sessions: Map<u128, SessionView>, id: u128, player: Seq<char>) -> Result<
    Endpoint,
    JoinSessionError,
> {
    match update_result(sessions, id, UpdateView::AddPlayer(player)) {
        Ok(session) => Ok(session.addr),
        Err(UpdateSessionError::SessionNotFound(missing)) => Err(
            JoinSessionError::SessionNotFound(missing),
        ),
        Err(UpdateSessionError::SessionIsFull) => Err(JoinSessionError::SessionIsFull),
    }
}

/// Lets `player_id` join session `id` and tells where the session listens.
pub fn join_session<S: Sesser>(sesser: &mut S, player_id: Id, id: u128) -> (result: Result<
    Endpoint,
    JoinSessionError,
>)
    requires
        old(sesser).inv(),
    ensures
        final(sesser).inv(),
        final(sesser).sessions() == updated_sessions(
            old(sesser).sessions(),
            id,
            UpdateView::AddPlayer(player_id@),
        ),
        result == join_result(old(sesser).sessions(), id, player_id@),
{
    match sesser.update_session(id, UpdateSession::AddPlayer(player_id)) {
        Ok(session) => Ok(session.addr),
        Err(err) => match err {
            UpdateSessionError::SessionNotFound(id) => Err(JoinSessionError::SessionNotFound(id)),
            UpdateSessionError::SessionIsFull => Err(JoinSessionError::SessionIsFull),
        },
    }
}

} // verus!
