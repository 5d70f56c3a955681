//! The session service: what every backend offers, and what its operations
//! mean.

pub mod creation;
pub mod error;
pub mod inmemory_sesser;
pub mod ports;
pub mod store;
pub mod worker;

use crate::models::ident::is_random_id;
use crate::models::session::{HostAddr, Id, Session, SessionConfig, SessionView, UpdateSession, UpdateView};
use crate::shared::services::sesser::creation::{
    is_launch_outcome, is_reservation, launched_sessions, next_code_after, provisioned,
    PortLease, Provisioning, Reservation,
};
use crate::shared::services::sesser::error::{SpawnFailed, UpdateSessionError};
use crate::shared::services::sesser::worker::WorkerExit;
use vstd::prelude::*;

verus! {

/// What holds of the active sessions at all times: there are finitely many,
/// each is stored under its own id, and each stays within its capacity.
pub open spec fn sessions_wf(sessions: Map<u128, SessionView>) -> bool {
    &&& sessions.dom().finite()
    &&& forall|id: u128|
        sessions.contains_key(id) ==> (#[trigger] sessions[id]).id == id
            && sessions[id].within_capacity()
}

/// `all` is a full snapshot of `sessions`: every active session exactly once,
/// in any order.
pub open spec fn is_snapshot(all: Seq<SessionView>, sessions: Map<u128, SessionView>) -> bool {
    &&& all.len() == sessions.dom().len()
    &&& forall|i: int|
        0 <= i < all.len() ==> sessions.contains_key((#[trigger] all[i]).id)
            && sessions[all[i].id] == all[i]
    &&& forall|i: int, j: int|
        0 <= i < j < all.len() ==> (#[trigger] all[i]).id != (#[trigger] all[j]).id
    &&& forall|id: u128|
        sessions.contains_key(id) ==> exists|i: int|
            0 <= i < all.len() && (#[trigger] all[i]).id == id
}

/// Some active session has the join code `code`.
pub open spec fn has_code(sessions: Map<u128, SessionView>, code: Seq<char>) -> bool {
    exists|id: u128| sessions.contains_key(id) && (#[trigger] sessions[id]).code == code
}

/// No two active sessions share a join code.
pub open spec fn codes_unique(sessions: Map<u128, SessionView>) -> bool {
    forall|a: u128, b: u128|
        sessions.contains_key(a) && sessions.contains_key(b) && (#[trigger] sessions[a]).code == (
        #[trigger] sessions[b]).code ==> a == b
}

/// `found` answers a lookup by join code: nothing where no active session
/// has the code, else one active session that has it.
pub open spec fn is_code_match(
    found: Seq<SessionView>,
    sessions: Map<u128, SessionView>,
    code: Seq<char>,
) -> bool {
    if has_code(sessions, code) {
        &&& found.len() == 1
        &&& sessions.contains_key(found[0].id)
        &&& sessions[found[0].id] == found[0]
        &&& found[0].code == code
    } else {
        found.len() == 0
    }
}

/// What a change to the players of session `id` gives: the session after the
/// change, or the reason for which the change is refused.
pub open spec fn update_result(
    sessions: Map<u128, SessionView>,
    id: u128,
    update: UpdateView,
) -> Result<SessionView, UpdateSessionError> {
    if !sessions.contains_key(id) {
        Err(UpdateSessionError::SessionNotFound(id))
    } else {
        match update {
            UpdateView::AddPlayer(player) => if sessions[id].is_full() {
                Err(UpdateSessionError::SessionIsFull)
            } else {
                Ok(sessions[id].with_player(player))
            },
            UpdateView::RemovePlayer(player) => Ok(sessions[id].without_player(player)),
        }
    }
}

/// The active sessions after a change to the players of session `id`: only
/// an accepted change touches them, and only that one session.
pub open spec fn updated_sessions(
    sessions: Map<u128, SessionView>,
    id: u128,
    update: UpdateView,
) -> Map<u128, SessionView> {
    match update_result(sessions, id, update) {
        Ok(session) => sessions.insert(id, session),
        Err(_) => sessions,
    }
}

/// `result` is what the service hands back for `expected`.
pub open spec fn is_update_outcome(
    result: Result<Session, UpdateSessionError>,
    expected: Result<SessionView, UpdateSessionError>,
) -> bool {
    match result {
        Ok(session) => expected == Ok::<SessionView, UpdateSessionError>(session@),
        Err(error) => expected == Err::<SessionView, UpdateSessionError>(error),
    }
}

/// A join never takes a session beyond its capacity: where the players fit
/// the capacity before, they fit it after, whether the join is accepted or
/// not.
pub proof fn lemma_join_keeps_capacity(sessions: Map<u128, SessionView>, id: u128, player: Seq<char>)
    requires
        sessions_wf(sessions),
        sessions.contains_key(id),
        sessions[id].players.len() <= sessions[id].max_players,
    ensures
        updated_sessions(sessions, id, UpdateView::AddPlayer(player)).contains_key(id),
        updated_sessions(sessions, id, UpdateView::AddPlayer(player))[id].players.len()
            <= sessions[id].max_players,
        updated_sessions(sessions, id, UpdateView::AddPlayer(player))[id].max_players
            == sessions[id].max_players,
{
}

/// A join to a session that holds as many players as its capacity allows is
/// refused as full, and the session stays as it is.
pub proof fn lemma_join_full_refused(sessions: Map<u128, SessionView>, id: u128, player: Seq<char>)
    requires
        sessions.contains_key(id),
        sessions[id].players.len() == sessions[id].max_players,
    ensures
        update_result(sessions, id, UpdateView::AddPlayer(player)) matches Err(
            UpdateSessionError::SessionIsFull,
        ),
        updated_sessions(sessions, id, UpdateView::AddPlayer(player)) == sessions,
{
}

/// A player who joins a session that is not full is in it afterwards, and
/// joining again changes nothing more.
pub proof fn lemma_join_idempotent(sessions: Map<u128, SessionView>, id: u128, player: Seq<char>)
    requires
        sessions_wf(sessions),
        sessions.contains_key(id),
        !sessions[id].is_full(),
    ensures
        updated_sessions(sessions, id, UpdateView::AddPlayer(player))[id].players.contains(
            player,
        ),
        sessions[id].players.contains(player) ==> updated_sessions(
            sessions,
            id,
            UpdateView::AddPlayer(player),
        ) == sessions,
{
    if sessions[id].players.contains(player) {
        assert(sessions[id].players.insert(player) =~= sessions[id].players);
    }
}

/// Taking out a player who is not in the session is no error: the answer is
/// the session as it was, and nothing changes.
pub proof fn lemma_remove_absent_is_noop(sessions: Map<u128, SessionView>, id: u128, player: Seq<char>)
    requires
        sessions.contains_key(id),
        !sessions[id].players.contains(player),
    ensures
        update_result(sessions, id, UpdateView::RemovePlayer(player)) matches Ok(session)
            && session == sessions[id],
        updated_sessions(sessions, id, UpdateView::RemovePlayer(player)) == sessions,
{
    assert(sessions[id].players.remove(player) =~= sessions[id].players);
}

/// A change to a session that does not exist fails with the id that was
/// asked for, whatever the change, and nothing changes.
pub proof fn lemma_unknown_id_not_found(sessions: Map<u128, SessionView>, id: u128, update: UpdateView)
    requires
        !sessions.contains_key(id),
    ensures
        update_result(sessions, id, update) matches Err(
            UpdateSessionError::SessionNotFound(missing),
        ) && missing == id,
        updated_sessions(sessions, id, update) == sessions,
{
}

/// A change to the players of one session leaves every other session, and
/// everything but the players of that one, as it was.
pub proof fn lemma_update_is_local(sessions: Map<u128, SessionView>, id: u128, update: UpdateView, other: u128)
    requires
        sessions_wf(sessions),
    ensures
        updated_sessions(sessions, id, update).dom() == sessions.dom(),
        other != id && sessions.contains_key(other) ==> updated_sessions(sessions, id, update)[other]
            == sessions[other],
        sessions.contains_key(id) ==> ({
            let after = updated_sessions(sessions, id, update)[id];
            &&& after.id == sessions[id].id
            &&& after.addr == sessions[id].addr
            &&& after.title == sessions[id].title
            &&& after.code == sessions[id].code
            &&& after.max_players == sessions[id].max_players
        }),
{
}

/// Where no two active sessions share a join code, the lookup by code finds
/// exactly the session that has the code.
pub proof fn lemma_code_match_is_exact(
    found: Seq<SessionView>,
    sessions: Map<u128, SessionView>,
    code: Seq<char>,
    id: u128,
)
    requires
        sessions_wf(sessions),
        codes_unique(sessions),
        is_code_match(found, sessions, code),
        sessions.contains_key(id),
        sessions[id].code == code,
    ensures
        found == seq![sessions[id]],
{
}

/// The session service: creation in steps, lookups, and changes to the
/// players. Each operation is one indivisible step on the state.
pub trait Sesser: Sized {
    /// The active sessions by id.
    spec fn sessions(&self) -> Map<u128, SessionView>;

    /// The ports held by creations in flight.
    spec fn pending(&self) -> Set<u16>;

    /// The counter value that the next join code is made from.
    spec fn next_code(&self) -> u32;

    /// The host reported in endpoints.
    spec fn host(&self) -> HostAddr;

    /// The backend's own invariant.
    spec fn inv(&self) -> bool;

    /// A backend that is in order holds sessions that are in order.
    proof fn lemma_inv_sessions(&self)
        requires
            self.inv(),
        ensures
            sessions_wf(self.sessions()),
    ;

    /// One attempt to reserve `candidate` for a creation; `attempt` counts the
    /// candidates that this creation has tried before. A port that no other
    /// creation holds is reserved. Otherwise nothing changes, and the answer
    /// says whether another candidate may be tried.
    fn reserve_port(&mut self, candidate: u16, attempt: u32) -> (outcome: Reservation)
        requires
            old(self).inv(),
        ensures
            final(self).inv(),
            final(self).sessions() == old(self).sessions(),
            final(self).next_code() == old(self).next_code(),
            final(self).host() == old(self).host(),
            final(self).pending() == old(self).pending().insert(candidate),
            is_reservation(outcome, old(self).pending(), candidate, attempt),
    ;

    /// Sets up the session of a creation whose id has been drawn: takes the
    /// next join code from the counter and makes the creator the only player.
    /// The session is not active yet.
    fn provision_with_id(
        &mut self,
        lease: PortLease,
        creator_id: Id,
        config: SessionConfig,
        id: u128,
    ) -> (provisioning: Provisioning)
        requires
            old(self).inv(),
        ensures
            final(self).inv(),
            final(self).sessions() == old(self).sessions(),
            final(self).pending() == old(self).pending(),
            final(self).host() == old(self).host(),
            final(self).next_code() == next_code_after(old(self).next_code()),
            provisioning.session()@ == provisioned(
                id,
                old(self).host(),
                lease.port(),
                old(self).next_code(),
                creator_id@,
                config.title@,
                config.max_players,
            ),
    ;

    /// Sets up the session of a creation under an id drawn at random.
    fn provision(&mut self, lease: PortLease, creator_id: Id, config: SessionConfig) -> (provisioning:
        Provisioning)
        requires
            old(self).inv(),
        ensures
            final(self).inv(),
            final(self).sessions() == old(self).sessions(),
            final(self).pending() == old(self).pending(),
            final(self).host() == old(self).host(),
            final(self).next_code() == next_code_after(old(self).next_code()),
            is_random_id(provisioning.session().id),
            provisioning.session()@ == provisioned(
                provisioning.session().id,
                old(self).host(),
                lease.port(),
                old(self).next_code(),
                creator_id@,
                config.title@,
                config.max_players,
            ),
    ;

    /// Ends a creation once the attempt to start the worker has been made.
    /// The port is given back either way. Where the worker started, the
    /// session becomes active; where it did not, no session is stored and the
    /// reason is handed on.
    fn complete_launch(&mut self, provisioning: Provisioning, launched: Result<(), String>) -> (result:
        Result<Session, SpawnFailed>)
        requires
            old(self).inv(),
        ensures
            final(self).inv(),
            final(self).pending() == old(self).pending().remove(provisioning.session().addr.port),
            final(self).next_code() == old(self).next_code(),
            final(self).host() == old(self).host(),
            final(self).sessions() == launched_sessions(
                old(self).sessions(),
                provisioning.session()@,
                launched,
            ),
            is_launch_outcome(result, provisioning.session()@, launched),
    ;

    /// Removes the session of a worker that has ended, however it ended.
    /// Returns whether the session was still active.
    fn worker_exited(&mut self, id: u128, exit: &WorkerExit) -> (held: bool)
        requires
            old(self).inv(),
        ensures
            final(self).inv(),
            final(self).sessions() == old(self).sessions().remove(id),
            !final(self).sessions().contains_key(id),
            final(self).pending() == old(self).pending(),
            final(self).next_code() == old(self).next_code(),
            final(self).host() == old(self).host(),
            held == old(self).sessions().contains_key(id),
    ;

    /// The session with this id, if it is active.
    fn get_by_id(&self, id: u128) -> (found: Option<Session>)
        requires
            self.inv(),
        ensures
            match found {
                Some(session) => self.sessions().contains_key(id) && session@
                    == self.sessions()[id],
                None => !self.sessions().contains_key(id),
            },
    ;

    /// All active sessions, in any order.
    fn get_all_sessions(&self) -> (all: Vec<Session>)
        requires
            self.inv(),
        ensures
            is_snapshot(all@.map_values(|s: Session| s@), self.sessions()),
    ;

    /// The active session with this join code: at most one.
    fn filter_by_code(&self, code: String) -> (found: Vec<Session>)
        requires
            self.inv(),
        ensures
            found@.len() <= 1,
            is_code_match(found@.map_values(|s: Session| s@), self.sessions(), code@),
    ;

    /// Lets a player join or leave session `id`. Nothing but the players of
    /// that session changes.
    fn update_session(&mut self, id: u128, update: UpdateSession) -> (result: Result<
        Session,
        UpdateSessionError,
    >)
        requires
            old(self).inv(),
        ensures
            final(self).inv(),
            final(self).sessions() == updated_sessions(old(self).sessions(), id, update@),
            final(self).pending() == old(self).pending(),
            final(self).next_code() == old(self).next_code(),
            final(self).host() == old(self).host(),
            is_update_outcome(result, update_result(old(self).sessions(), id, update@)),
    ;
}

} // verus!
