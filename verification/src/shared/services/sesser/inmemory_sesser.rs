//! The in-memory backend of the session service.

use crate::models::ident::random_id;
use crate::models::players::PlayerSet;
use crate::models::session::{
    Endpoint, HostAddr, Id, Session, SessionConfig, SessionView, UpdateSession,
};
use crate::shared::config::AppConfig;
use crate::shared::services::sesser::creation::{
    PortLease, Provisioning, Reservation, MAX_PORT_ATTEMPTS,
};
use crate::shared::services::sesser::error::{SpawnFailed, UpdateSessionError};
use crate::shared::services::sesser::ports::PendingPorts;
use crate::shared::services::sesser::store::{
    lists_entries, no_sessions, store_entries, store_get, store_insert, store_new, store_remove,
    stored_sessions,
};
use crate::shared::services::sesser::worker::{worker_args, WorkerCommand, WorkerExit};
use crate::shared::services::sesser::{has_code, is_snapshot, sessions_wf, Sesser};
use crate::text::join_code_text;
use dashmap::DashMap;
use vstd::prelude::*;

verus! {

/// Sessions kept in memory, with the ports of the creations in flight and
/// the counter from which join codes are taken. Every operation that changes
/// the service takes it exclusively, so each is one indivisible step.
pub struct InMemorySesser {
    sessions: DashMap<u128, Session>,
    pending_ports: PendingPorts,
    host: HostAddr,
    project_name: String,
    next_code: u32,
}

impl InMemorySesser {
    /// The name of the worker's project.
    pub closed spec fn project_name(&self) -> Seq<char> {
        self.project_name@
    }

    /// A service without sessions, whose first join code is `000000`.
    pub fn new(config: &AppConfig, host: HostAddr) -> (sesser: Self)
        ensures
            sesser.inv(),
            sesser.sessions() == no_sessions(),
            sesser.pending() == Set::<u16>::empty(),
            sesser.next_code() == 0,
            sesser.host() == host,
            sesser.project_name() == config.project_name@,
    {
        InMemorySesser {
            sessions: store_new(),
            pending_ports: PendingPorts::new(),
            host,
            project_name: config.project_name.clone(),
            next_code: 0,
        }
    }

    /// Whether a creation in flight holds `port`.
    pub fn is_port_pending(&self, port: u16) -> (held: bool)
        ensures
            held == self.pending().contains(port),
    {
        self.pending_ports.is_pending(port)
    }

    /// The host reported in endpoints.
    pub fn host_addr(&self) -> (host: HostAddr)
        ensures
            host == self.host(),
    {
        self.host
    }

    /// The command that starts the worker of a session being provisioned.
    pub fn worker_command(&self, provisioning: &Provisioning) -> (command: WorkerCommand)
        ensures
            command.program@ == "bash"@,
            command.args_text() == worker_args(
                self.project_name(),
                provisioning.session().addr.port,
                provisioning.session().id,
                provisioning.session().code@,
            ),
    {
        WorkerCommand::for_session(
            self.project_name.as_str(),
            provisioning.session(),
            provisioning.port(),
        )
    }
}

impl Sesser for InMemorySesser {
    closed spec fn sessions(&self) -> Map<u128, SessionView> {
        stored_sessions(self.sessions)
    }

    closed spec fn pending(&self) -> Set<u16> {
        self.pending_ports@
    }

    closed spec fn next_code(&self) -> u32 {
        self.next_code
    }

    closed spec fn host(&self) -> HostAddr {
        self.host
    }

    closed spec fn inv(&self) -> bool {
        sessions_wf(stored_sessions(self.sessions))
    }

    proof fn lemma_inv_sessions(&self) {
    }

    fn reserve_port(&mut self, candidate: u16, attempt: u32) -> (outcome: Reservation) {
        if self.pending_ports.reserve(candidate) {
            Reservation::Reserved(PortLease::new(candidate))
        } else {
            if attempt < MAX_PORT_ATTEMPTS - 1 {
                Reservation::Retry
            } else {
                Reservation::Exhausted
            }
        }
    }

    fn provision_with_id(
        &mut self,
        lease: PortLease,
        creator_id: Id,
        config: SessionConfig,
        id: u128,
    ) -> (provisioning: Provisioning) {
        let code = join_code_text(self.next_code);
        self.next_code = self.next_code.wrapping_add(1);
        let session = Session {
            id,
            addr: Endpoint { host: self.host, port: lease.port() },
            title: config.title,
            code,
            max_players: config.max_players,
            players: PlayerSet::singleton(creator_id),
        };
        Provisioning::new(session)
    }

    fn provision(&mut self, lease: PortLease, creator_id: Id, config: SessionConfig) -> (provisioning:
        Provisioning) {
        let id = random_id();
        self.provision_with_id(lease, creator_id, config, id)
    }

    fn complete_launch(&mut self, provisioning: Provisioning, launched: Result<(), String>) -> (result:
        Result<Session, SpawnFailed>) {
        self.pending_ports.release(provisioning.port());
        match launched {
            Ok(_) => {
                let session = provisioning.into_session();
                let stored = session.clone();
                store_insert(&mut self.sessions, session.id, stored);
                Ok(session)
            },
            Err(reason) => Err(SpawnFailed { reason }),
        }
    }

    fn worker_exited(&mut self, id: u128, exit: &WorkerExit) -> (held: bool) {
        store_remove(&mut self.sessions, id).is_some()
    }

    fn get_by_id(&self, id: u128) -> (found: Option<Session>) {
        store_get(&self.sessions, id)
    }

    fn get_all_sessions(&self) -> (all: Vec<Session>) {
        let mut entries = store_entries(&self.sessions);
        let ghost listed = entries@;
        let mut all: Vec<Session> = Vec::new();
        while entries.len() > 0
            invariant
                entries@ == listed.subrange(0, entries@.len() as int),
                entries@.len() <= listed.len(),
                all@.len() + entries@.len() == listed.len(),
                forall|k: int|
                    0 <= k < all@.len() ==> (#[trigger] all@[k])@ == listed[listed.len() - 1
                        - k].1@,
            decreases entries@.len(),
        {
            let ghost before = entries@;
            let entry = entries.pop().unwrap();
            assert(entry == listed[before.len() - 1]);
            all.push(entry.1);
        }
        proof {
            lemma_entries_snapshot(listed, self.sessions(), all@.map_values(|s: Session| s@));
        }
        all
    }

    fn filter_by_code(&self, code: String) -> (found: Vec<Session>) {
        let mut entries = store_entries(&self.sessions);
        let ghost listed = entries@;
        let mut i: usize = 0;
        while i < entries.len()
            invariant
                i <= entries@.len(),
                entries@ == listed,
                sessions_wf(self.sessions()),
                lists_entries(listed, self.sessions()),
                forall|k: int| 0 <= k < i ==> (#[trigger] listed[k]).1@.code != code@,
            decreases entries@.len() - i,
        {
            if entries[i].1.code == code {
                let entry = entries.swap_remove(i);
                let ghost session = entry.1@;
                let found = vec![entry.1];
                proof {
                    assert(entry == listed[i as int]);
                    assert(self.sessions().contains_key(listed[i as int].0));
                    assert(self.sessions()[listed[i as int].0] == session);
                    assert(session.id == listed[i as int].0);
                    assert(has_code(self.sessions(), code@));
                    assert(found@.map_values(|s: Session| s@)[0] == session);
                }
                return found;
            }
            i += 1;
        }
        let found: Vec<Session> = Vec::new();
        proof {
            if has_code(self.sessions(), code@) {
                let id = choose|id: u128|
                    self.sessions().contains_key(id) && (#[trigger] self.sessions()[id]).code
                        == code@;
                let k = choose|k: int| 0 <= k < listed.len() && (#[trigger] listed[k]).0 == id;
                assert(listed[k].1@.code != code@);
            }
        }
        found
    }

    fn update_session(&mut self, id: u128, update: UpdateSession) -> (result: Result<
        Session,
        UpdateSessionError,
    >) {
        match store_get(&self.sessions, id) {
            None => Err(UpdateSessionError::SessionNotFound(id)),
            Some(session) => {
                let mut session = session;
                match update {
                    UpdateSession::AddPlayer(player) => {
                        if session.add_player(player) {
                            let stored = session.clone();
                            store_insert(&mut self.sessions, id, stored);
                            Ok(session)
                        } else {
                            Err(UpdateSessionError::SessionIsFull)
                        }
                    },
                    UpdateSession::RemovePlayer(player) => {
                        session.remove_player(&player);
                        let stored = session.clone();
                        store_insert(&mut self.sessions, id, stored);
                        Ok(session)
                    },
                }
            },
        }
    }
}

/// The sessions of a full list of the store's entries, in any order, are a
/// snapshot of the store.
proof fn lemma_entries_snapshot(
    listed: Seq<(u128, Session)>,
    sessions: Map<u128, SessionView>,
    all: Seq<SessionView>,
)
    requires
        sessions_wf(sessions),
        lists_entries(listed, sessions),
        all.len() == listed.len(),
        forall|k: int| 0 <= k < all.len() ==> #[trigger] all[k] == listed[listed.len() - 1 - k].1@,
    ensures
        is_snapshot(all, sessions),
{
    let keys = listed.map_values(|entry: (u128, Session)| entry.0);
    assert(keys.no_duplicates());
    assert(keys.to_set() =~= sessions.dom()) by {
        assert forall|id: u128| keys.to_set().contains(id) <==> sessions.dom().contains(id) by {
            if keys.contains(id) {
                let k = choose|k: int| 0 <= k < keys.len() && keys[k] == id;
                assert(sessions.contains_key(listed[k].0));
            }
            if sessions.contains_key(id) {
                let k = choose|k: int| 0 <= k < listed.len() && (#[trigger] listed[k]).0 == id;
                assert(keys[k] == id);
            }
        }
    }
    keys.unique_seq_to_set();
    assert forall|i: int| 0 <= i < all.len() implies sessions.contains_key((#[trigger] all[i]).id)
        && sessions[all[i].id] == all[i] by {
        let k = listed.len() - 1 - i;
        assert(sessions.contains_key(listed[k].0));
    }
    assert forall|i: int, j: int| 0 <= i < j < all.len() implies (#[trigger] all[i]).id != (
    #[trigger] all[j]).id by {
        let a = listed.len() - 1 - i;
        let b = listed.len() - 1 - j;
        assert(sessions.contains_key(listed[a].0));
        assert(sessions.contains_key(listed[b].0));
        assert(listed[b].0 != listed[a].0);
    }
    assert forall|id: u128| sessions.contains_key(id) implies exists|i: int|
        0 <= i < all.len() && (#[trigger] all[i]).id == id by {
        let k = choose|k: int| 0 <= k < listed.len() && (#[trigger] listed[k]).0 == id;
        let i = listed.len() - 1 - k;
        assert(sessions.contains_key(listed[k].0));
        assert(all[i].id == id);
    }
}

} // verus!
