use crate::models::session::{endpoint_text, Endpoint, Session};
use crate::plugins::create_session::error::CreateSessionError;
use crate::plugins::create_session::use_case;
use crate::shared::services::sesser::creation::{launched_sessions, Provisioning};
use crate::shared::services::sesser::Sesser;
use crate::shared::utils::{bad_request_json, ok_json, Body, BodyView, Reply, ReplyView, Status};
use vstd::prelude::*;

verus! {

/// The reply to a creation: the endpoint of the new session, or the
/// message of the error with status 400.
pub open spec fn creation_reply(result: Result<Session, CreateSessionError>) -> ReplyView {
    match result {
        Ok(session) => ReplyView {
            status: Status::Success,
            body: BodyView::Connection(endpoint_text(session.addr)),
        },
        Err(error) => ReplyView {
            status: Status::BadRequest,
            body: BodyView::Error(error.message_text()),
        },
    }
}

/// The reply to a creation whose session listens at `addr` and whose worker
/// was started with the outcome `launched`.
pub open spec fn launch_reply(addr: Endpoint, launched: Result<(), String>) -> ReplyView {
    match launched {
        Ok(_) => ReplyView {
            status: Status::Success,
            body: BodyView::Connection(endpoint_text(addr)),
        },
        Err(reason) => ReplyView {
            status: Status::BadRequest,
            body: BodyView::Error("Start server error: "@ + reason@),
        },
    }
}

/// Turns the outcome of a creation into the reply to the client.
pub fn reply_to_creation(result: &Result<Session, CreateSessionError>) -> (reply: Reply)
    ensures
        reply@ == creation_reply(*result),
{
    match result {
        Ok(session) => ok_json(Body::Connection(session.addr.to_text())),
        Err(error) => bad_request_json(Body::Error(error.message())),
    }
}

/// Ends the creation of a session and answers the client.
pub fn create_session<S: Sesser>(
    sesser: &mut S,
    provisioning: Provisioning,
    launched: Result<(), String>,
) -> (reply: Reply)
    requires
        old(sesser).inv(),
    ensures
        final(sesser).inv(),
        final(sesser).pending() == old(sesser).pending().remove(provisioning.session().addr.port),
        final(sesser).next_code() == old(sesser).next_code(),
        final(sesser).host() == old(sesser).host(),
        final(sesser).sessions() == launched_sessions(
            old(sesser).sessions(),
            provisioning.session()@,
            launched,
        ),
        reply@ == launch_reply(provisioning.session().addr, launched),
{
    let result = use_case::create_session(sesser, provisioning, launched);
    reply_to_creation(&result)
}

} // verus!
