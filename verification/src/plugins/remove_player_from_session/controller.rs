use crate::models::session::UpdateView;
use crate::plugins::remove_player_from_session::dto::RemovePlayerFromSessionRequest;
use crate::plugins::remove_player_from_session::error::RemovePlayerFromSessionError;
use crate::plugins::remove_player_from_session::use_case;
use crate::plugins::remove_player_from_session::use_case::removal_result;
use crate::shared::services::sesser::{updated_sessions, Sesser};
use crate::shared::utils::{bad_request_json, just_ok, Body, BodyView, Reply, ReplyView, Status};
use vstd::prelude::*;

verus! {

/// The reply to a removal: an empty object, or the message of the error
/// with status 400.
pub open spec fn removal_reply(result: Result<(), RemovePlayerFromSessionError>) -> ReplyView {
    match result {
        Ok(_) => ReplyView { status: Status::Success, body: BodyView::Empty },
        Err(error) => ReplyView {
            status: Status::BadRequest,
            body: BodyView::Error(error.message_text()),
        },
    }
}

/// Handles a request to take a player out of a session.
pub fn remove_player_from_session<S: Sesser>(
    sesser: &mut S,
    request: RemovePlayerFromSessionRequest,
) -> (reply: Reply)
    requires
        old(sesser).inv(),
    ensures
        final(sesser).inv(),
        final(sesser).sessions() == updated_sessions(
            old(sesser).sessions(),
            request.server_id,
            UpdateView::RemovePlayer(request.player_id@),
        ),
        reply@ == removal_reply(removal_result(old(sesser).sessions(), request.server_id)),
{
    let session = use_case::remove_player_from_session(
        sesser,
        request.player_id,
        request.server_id,
    );
    match session {
        Ok(_) => just_ok(),
        Err(err) => bad_request_json(Body::Error(err.message())),
    }
}

} // verus!
