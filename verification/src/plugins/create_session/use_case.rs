use crate::models::session::{Session, SessionView};
use crate::plugins::create_session::error::CreateSessionError;
use crate::shared::services::sesser::creation::{launched_sessions, Provisioning};
use crate::shared::services::sesser::Sesser;
use vstd::prelude::*;
use vstd::string::*;

verus! {

/// `result` is the outcome of a creation whose session was `session` and
/// whose worker was started with the outcome `launched`.
pub open spec fn is_creation_outcome(
    result: Result<Session, CreateSessionError>,
    session: SessionView,
    launched: Result<(), String>,
) -> bool {
    match result {
        Ok(created) => launched is Ok && created@ == session,
        Err(CreateSessionError::StartServer(reason)) => launched is Err && reason@
            == launched->Err_0@,
    }
}

/// Ends the creation of a session once the attempt to start its worker has
/// been made: the session becomes active where the worker started, and the
/// reason is reported where it did not.
pub fn create_session<S: Sesser>(
    sesser: &mut S,
    provisioning: Provisioning,
    launched: Result<(), String>,
) -> (result: Result<Session, CreateSessionError>)
    requires
        old(sesser).inv(),
    ensures
        final(sesser).inv(),
        final(sesser).pending() == old(sesser).pending().remove(provisioning.session().addr.port),
        final(sesser).next_code() == old(sesser).next_code(),
        final(sesser).host() == old(sesser).host(),
        final(sesser).sessions() == launched_sessions(
            old(sesser).sessions(),
            provisioning.session()@,
            launched,
        ),
        is_creation_outcome(result, provisioning.session()@, launched),
{
    match sesser.complete_launch(provisioning, launched) {
        Ok(session) => Ok(session),
        Err(failure) => Err(CreateSessionError::StartServer(failure.reason)),
    }
}

/// The error of a creation that found no port to reserve.
pub fn no_port_available() -> (error: CreateSessionError)
    ensures
        error matches CreateSessionError::StartServer(reason) && reason@
            == "no free port could be reserved"@,
{
    CreateSessionError::StartServer(String::from_str("no free port could be reserved"))
}

} // verus!
