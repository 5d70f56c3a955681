//! The steps of a creation: a port is reserved, the session is provisioned,
//! and once the worker has been started the session becomes active.

use crate::models::session::{Endpoint, HostAddr, Session, SessionView};
use crate::text::{join_code, lemma_join_code_injective};
use vstd::prelude::*;

verus! {

/// How many candidate ports one creation tries before it gives up.
pub const MAX_PORT_ATTEMPTS: u32 = 64;

/// A port held for one creation in flight. It is handed out by a successful
/// reservation and used up when the session is provisioned.
#[derive(Debug)]
pub struct PortLease {
    port: u16,
}

impl PortLease {
    /// The port that is held.
    pub closed spec fn port_spec(&self) -> u16 {
        self.port
    }

    /// A lease on `port`.
    pub fn new(port: u16) -> (lease: Self)
        ensures
            lease.port() == port,
    {
        PortLease { port }
    }

    /// The port that is held.
    #[verifier::when_used_as_spec(port_spec)]
    pub fn port(&self) -> (port: u16)
        ensures
            port == self.port_spec(),
    {
        self.port
    }
}

/// What one attempt to reserve a port came to.
#[derive(Debug)]
pub enum Reservation {
    /// The candidate is now held for this creation.
    Reserved(PortLease),
    /// Another creation holds the candidate: ask for another one.
    Retry,
    /// Another creation holds the candidate, and this was the last attempt.
    Exhausted,
}

/// `outcome` answers an attempt to reserve `candidate` while the ports
/// `pending` were held, after `attempt` earlier attempts of the same
/// creation: a port that nobody holds is reserved; a port that is held is
/// not, and the attempts end with the last one allowed.
pub open spec fn is_reservation(
    outcome: Reservation,
    pending: Set<u16>,
    candidate: u16,
    attempt: u32,
) -> bool {
    match outcome {
        Reservation::Reserved(lease) => !pending.contains(candidate) && lease.port() == candidate,
        Reservation::Retry => pending.contains(candidate) && attempt + 1 < MAX_PORT_ATTEMPTS,
        Reservation::Exhausted => pending.contains(candidate) && attempt + 1 >= MAX_PORT_ATTEMPTS,
    }
}

/// A session that is being provisioned: it has its port, its id and its join
/// code, and its worker has not been confirmed yet. It is not active, and no
/// lookup finds it. Its creator is its only player.
#[derive(Debug)]
pub struct Provisioning {
    session: Session,
}

impl Provisioning {
    #[verifier::type_invariant]
    spec fn creator_only(&self) -> bool {
        self.session@.players.finite() && self.session@.players.len() == 1
    }

    /// The session as it will be stored.
    pub closed spec fn session_spec(&self) -> &Session {
        &self.session
    }

    /// Puts a session with one player into provisioning.
    pub fn new(session: Session) -> (provisioning: Self)
        requires
            session@.players.len() == 1,
        ensures
            provisioning.session() == session,
    {
        proof {
            session.players.lemma_finite();
        }
        Provisioning { session }
    }

    /// The session as it will be stored.
    #[verifier::when_used_as_spec(session_spec)]
    pub fn session(&self) -> (session: &Session)
        ensures
            session == self.session_spec(),
    {
        &self.session
    }

    /// The port on which the worker is to listen.
    pub fn port(&self) -> (port: u16)
        ensures
            port == self.session().addr.port,
    {
        self.session.addr.port
    }

    /// Ends the provisioning and hands the session out.
    pub fn into_session(self) -> (session: Session)
        ensures
            session == self.session(),
            session@.players.finite(),
            session@.players.len() == 1,
    {
        proof {
            use_type_invariant(&self);
        }
        self.session
    }
}

/// The session that a creation sets up: the creator is its only player.
pub open spec fn provisioned(
    id: u128,
    host: HostAddr,
    port: u16,
    code: u32,
    creator: Seq<char>,
    title: Seq<char>,
    max_players: u32,
) -> SessionView {
    SessionView {
        id,
        addr: Endpoint { host, port },
        title,
        code: join_code(code),
        max_players,
        players: Set::<Seq<char>>::empty().insert(creator),
    }
}

/// The counter value that follows `code`; after the largest value it starts
/// again at zero.
pub open spec fn next_code_after(code: u32) -> u32 {
    if code == u32::MAX {
        0
    } else {
        (code + 1) as u32
    }
}

/// The counter value reached from `code` after `steps` creations.
pub open spec fn code_after(code: u32, steps: nat) -> u32
    decreases steps,
{
    if steps == 0 {
        code
    } else {
        next_code_after(code_after(code, (steps - 1) as nat))
    }
}

/// The counter after `steps` creations is the sum taken modulo 2^32.
pub proof fn lemma_code_after(code: u32, steps: nat)
    ensures
        code_after(code, steps) == (code + steps) % 0x1_0000_0000,
    decreases steps,
{
    if steps > 0 {
        lemma_code_after(code, (steps - 1) as nat);
    }
}

/// Join codes do not repeat before the counter has gone all the way round:
/// a creation that comes fewer than 2^32 creations after another gets a
/// different join code.
pub proof fn lemma_join_codes_differ(code: u32, steps: nat)
    requires
        0 < steps < 0x1_0000_0000,
    ensures
        join_code(code_after(code, steps)) != join_code(code),
{
    lemma_code_after(code, steps);
    if join_code(code_after(code, steps)) == join_code(code) {
        lemma_join_code_injective(code_after(code, steps), code);
    }
}

/// What the end of a creation hands back: the session where the worker
/// started, the reason where it did not.
pub open spec fn is_launch_outcome(
    result: Result<Session, crate::shared::services::sesser::error::SpawnFailed>,
    session: SessionView,
    launched: Result<(), String>,
) -> bool {
    match result {
        Ok(created) => launched is Ok && created@ == session,
        Err(failure) => launched is Err && failure.reason@ == launched->Err_0@,
    }
}

/// The active sessions after the end of a creation: the new session is
/// among them exactly where the worker started.
pub open spec fn launched_sessions(
    sessions: Map<u128, SessionView>,
    session: SessionView,
    launched: Result<(), String>,
) -> Map<u128, SessionView> {
    if launched is Ok {
        sessions.insert(session.id, session)
    } else {
        sessions
    }
}

} // verus!
