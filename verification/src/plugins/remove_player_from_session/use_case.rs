use crate::models::session::{Id, SessionView, UpdateSession, UpdateView};
use crate::plugins::remove_player_from_session::error::RemovePlayerFromSessionError;
use crate::shared::services::sesser::error::UpdateSessionError;
use crate::shared::services::sesser::{updated_sessions, Sesser};
use vstd::prelude::*;

verus! {

/// What a removal comes to: nothing to report, or that no session has the
/// id.
pub open spec fn removal_result(sessions: Map<u128, SessionView>, id: u128) -> Result<
    (),
    RemovePlayerFromSessionError,
> {
    if sessions.contains_key(id) {
        Ok(())
    } else {
        Err(RemovePlayerFromSessionError::SessionNotFound(id))
    }
}

/// Takes `player_id` out of session `id`. A player who is not in the session
/// is no error.
pub fn remove_player_from_session<S: Sesser>(sesser: &mut S, player_id: Id, id: u128) -> (result:
    Result<(), RemovePlayerFromSessionError>)
    requires
        old(sesser).inv(),
    ensures
        final(sesser).inv(),
        final(sesser).sessions() == updated_sessions(
            old(sesser).sessions(),
            id,
            UpdateView::RemovePlayer(player_id@),
        ),
        result == removal_result(old(sesser).sessions(), id),
{
    match sesser.update_session(id, UpdateSession::RemovePlayer(player_id)) {
        Ok(_) => Ok(()),
        Err(err) => match err {
            UpdateSessionError::SessionNotFound(id) => Err(
                RemovePlayerFromSessionError::SessionNotFound(id),
            ),
            UpdateSessionError::SessionIsFull => {
                // A removal is never refused as full.
                assert(false);
                Ok(())
            },
        },
    }
}

} // verus!
