//! The pending-port set: ports reserved for creations that are still in
//! flight, so that two of them never settle on the same port.

use dashmap::DashSet;
use vstd::prelude::*;

verus! {

/// `dashmap::DashSet`, a concurrent hash set, taken as it is.
#[verifier::external_type_specification]
#[verifier::external_body]
#[verifier::reject_recursive_types(K)]
#[verifier::reject_recursive_types(S)]
pub struct ExDashSet<K, S>(DashSet<K, S>);

/// The ports that a `dashmap::DashSet<u16>` holds.
pub uninterp spec fn held_ports(ports: DashSet<u16>) -> Set<u16>;

/// `dashmap::DashSet::new` makes a set that holds nothing.
#[verifier::external_body]
fn ports_new() -> (ports: DashSet<u16>)
    ensures
        held_ports(ports) == Set::<u16>::empty(),
{
    DashSet::new()
}

/// `dashmap::DashSet::insert` adds the key and returns `true` exactly when the
/// key was not in the set before. The set is taken exclusively, so nothing
/// else changes it during the call.
#[verifier::external_body]
fn ports_insert(ports: &mut DashSet<u16>, port: u16) -> (fresh: bool)
    ensures
        held_ports(*final(ports)) == held_ports(*old(ports)).insert(port),
        fresh == !held_ports(*old(ports)).contains(port),
{
    ports.insert(port)
}

/// `dashmap::DashSet::remove` takes the key out and returns it if it was in
/// the set. The set is taken exclusively, so nothing else changes it during
/// the call.
#[verifier::external_body]
fn ports_remove(ports: &mut DashSet<u16>, port: u16) -> (removed: Option<u16>)
    ensures
        held_ports(*final(ports)) == held_ports(*old(ports)).remove(port),
        removed == if held_ports(*old(ports)).contains(port) {
            Some(port)
        } else {
            None
        },
{
    ports.remove(&port)
}

/// `dashmap::DashSet::contains` tells whether the key is in the set.
#[verifier::external_body]
fn ports_contains(ports: &DashSet<u16>, port: u16) -> (held: bool)
    ensures
        held == held_ports(*ports).contains(port),
{
    ports.contains(&port)
}

/// Two creations in flight never hold the same port: once `first` has been
/// reserved, and for as long as it has not been given back, a reservation
/// of the same port fails, so a second reservation that succeeds holds
/// another port.
pub proof fn lemma_reserved_ports_differ(before: Set<u16>, first: u16, later: Set<u16>, second: u16)
    requires
        !before.contains(first),
        before.insert(first).subset_of(later),
        !later.contains(second),
    ensures
        first != second,
        later.insert(second).contains(first),
{
}

/// Ports reserved by creations in flight.
pub struct PendingPorts {
    ports: DashSet<u16>,
}

impl View for PendingPorts {
    type V = Set<u16>;

    closed spec fn view(&self) -> Set<u16> {
        held_ports(self.ports)
    }
}

impl PendingPorts {
    /// A set with no reservation.
    pub fn new() -> (pending: Self)
        ensures
            pending@ == Set::<u16>::empty(),
    {
        PendingPorts { ports: ports_new() }
    }

    /// Tries to reserve `candidate`. The reservation succeeds exactly when no
    /// other creation holds the port; either way the port is pending afterwards.
    pub fn reserve(&mut self, candidate: u16) -> (reserved: bool)
        ensures
            reserved == !old(self)@.contains(candidate),
            final(self)@ == old(self)@.insert(candidate),
    {
        ports_insert(&mut self.ports, candidate)
    }

    /// Gives `port` back; returns whether it was pending.
    pub fn release(&mut self, port: u16) -> (held: bool)
        ensures
            held == old(self)@.contains(port),
            final(self)@ == old(self)@.remove(port),
    {
        ports_remove(&mut self.ports, port).is_some()
    }

    /// Whether `port` is reserved right now.
    pub fn is_pending(&self, port: u16) -> (held: bool)
        ensures
            held == self@.contains(port),
    {
        ports_contains(&self.ports, port)
    }
}

} // verus!
