use crate::models::session::{endpoint_text, Endpoint, UpdateView};
use crate::plugins::join_session::dto::JoinSessionRequest;
use crate::plugins::join_session::error::JoinSessionError;
use crate::plugins::join_session::use_case;
use crate::plugins::join_session::use_case::join_result;
use crate::shared::services::sesser::{updated_sessions, Sesser};
use crate::shared::utils::{bad_request_json, ok_json, Body, BodyView, Reply, ReplyView, Status};
use vstd::prelude::*;

verus! {

/// The reply to a join: the endpoint of the session, or the message of the
/// error with status 400.
pub open spec fn join_reply(result: Result<Endpoint, JoinSessionError>) -> ReplyView {
    match result {
        Ok(addr) => ReplyView {
            status: Status::Success,
            body: BodyView::Connection(endpoint_text(addr)),
        },
        Err(error) => ReplyView {
            status: Status::BadRequest,
            body: BodyView::Error(error.message_text()),
        },
    }
}

/// Handles a request to join a session.
pub fn join_session<S: Sesser>(sesser: &mut S, request: JoinSessionRequest) -> (reply: Reply)
    requires
        old(sesser).inv(),
    ensures
        final(sesser).inv(),
        final(sesser).sessions() == updated_sessions(
            old(sesser).sessions(),
            request.server_id,
            UpdateView::AddPlayer(request.player_id@),
        ),
        reply@ == join_reply(
            join_result(old(sesser).sessions(), request.server_id, request.player_id@),
        ),
{
    let session = use_case::join_session(sesser, request.player_id, request.server_id);
    match session {
        Ok(addr) => ok_json(Body::Connection(addr.to_text())),
        Err(err) => bad_request_json(Body::Error(err.message())),
    }
}

} // verus!
