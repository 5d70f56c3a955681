//! The session store: a concurrent map from session id to session.

use crate::models::session::{Session, SessionView};
use dashmap::DashMap;
use vstd::prelude::*;

verus! {

/// `dashmap::DashMap`, a concurrent hash map, taken as it is.
#[verifier::external_type_specification]
#[verifier::external_body]
#[verifier::reject_recursive_types(K)]
#[verifier::reject_recursive_types(V)]
#[verifier::reject_recursive_types(S)]
pub struct ExDashMap<K, V, S>(DashMap<K, V, S>);

/// The entries of a `dashmap::DashMap<u128, Session>`: each key with the
/// session stored under it.
pub uninterp spec fn stored_sessions(store: DashMap<u128, Session>) -> Map<u128, SessionView>;

/// The map without sessions.
pub open spec fn no_sessions() -> Map<u128, SessionView> {
    Map::empty()
}

/// `entries` lists `sessions` entry by entry: every item is an entry of the
/// map, no key comes twice, and every key of the map comes.
pub open spec fn lists_entries(
    entries: Seq<(u128, Session)>,
    sessions: Map<u128, SessionView>,
) -> bool {
    &&& forall|i: int|
        0 <= i < entries.len() ==> sessions.contains_key((#[trigger] entries[i]).0)
            && sessions[entries[i].0] == entries[i].1@
    &&& forall|i: int, j: int|
        0 <= i < j < entries.len() ==> (#[trigger] entries[i]).0 != (#[trigger] entries[j]).0
    &&& forall|id: u128|
        sessions.contains_key(id) ==> exists|i: int|
            0 <= i < entries.len() && (#[trigger] entries[i]).0 == id
}

/// `dashmap::DashMap::new` makes a map without entries.
#[verifier::external_body]
pub(crate) fn store_new() -> (empty: DashMap<u128, Session>)
    ensures
        stored_sessions(empty) == no_sessions(),
{
    DashMap::new()
}

/// `dashmap::DashMap::insert` puts the value under the key and returns what
/// was stored under the key before, if anything was. The map is taken
/// exclusively, so nothing else changes it during the call.
#[verifier::external_body]
pub(crate) fn store_insert(store: &mut DashMap<u128, Session>, id: u128, session: Session) -> (replaced:
    Option<Session>)
    ensures
        stored_sessions(*final(store)) == stored_sessions(*old(store)).insert(id, session@),
        match replaced {
            Some(previous) => stored_sessions(*old(store)).contains_key(id) && previous@
                == stored_sessions(*old(store))[id],
            None => !stored_sessions(*old(store)).contains_key(id),
        },
{
    store.insert(id, session)
}

/// `dashmap::DashMap::remove` takes the entry of the key out and returns its
/// key and value, if there was one. The map is taken exclusively, so nothing
/// else changes it during the call.
#[verifier::external_body]
pub(crate) fn store_remove(store: &mut DashMap<u128, Session>, id: u128) -> (removed: Option<
    (u128, Session),
>)
    ensures
        stored_sessions(*final(store)) == stored_sessions(*old(store)).remove(id),
        match removed {
            Some(entry) => stored_sessions(*old(store)).contains_key(id) && entry.0 == id
                && entry.1@ == stored_sessions(*old(store))[id],
            None => !stored_sessions(*old(store)).contains_key(id),
        },
{
    store.remove(&id)
}

/// `dashmap::DashMap::get` finds the entry of the key; the wrapper hands out
/// a copy of the session, or `None` where the key has no entry.
#[verifier::external_body]
pub(crate) fn store_get(store: &DashMap<u128, Session>, id: u128) -> (found: Option<Session>)
    ensures
        match found {
            Some(session) => stored_sessions(*store).contains_key(id) && session@
                == stored_sessions(*store)[id],
            None => !stored_sessions(*store).contains_key(id),
        },
{
    store.get(&id).map(|entry| entry.value().clone())
}

/// `dashmap::DashMap::iter` visits every entry once, in no promised order;
/// the wrapper copies each key with its session.
#[verifier::external_body]
pub(crate) fn store_entries(store: &DashMap<u128, Session>) -> (entries: Vec<(u128, Session)>)
    ensures
        lists_entries(entries@, stored_sessions(*store)),
{
    store.iter().map(|entry| (*entry.key(), entry.value().clone())).collect()
}

} // verus!
