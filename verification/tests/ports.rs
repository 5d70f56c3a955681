use orkestra::shared::services::sesser::creation::PortLease;
use orkestra::shared::services::sesser::ports::PendingPorts;

#[test]
fn new_pending_set_holds_no_port() {
    let pending = PendingPorts::new();
    assert!(!pending.is_pending(0));
    assert!(!pending.is_pending(4000));
    assert!(!pending.is_pending(65535));
}

#[test]
fn reserve_succeeds_once_per_port() {
    let mut pending = PendingPorts::new();
    assert!(pending.reserve(4000));
    assert!(pending.is_pending(4000));
    assert!(!pending.reserve(4000));
    assert!(pending.is_pending(4000));
    assert!(pending.reserve(4001));
    assert!(pending.is_pending(4001));
}

#[test]
fn release_frees_the_port_for_the_next_creation() {
    let mut pending = PendingPorts::new();
    assert!(pending.reserve(4000));
    assert!(pending.release(4000));
    assert!(!pending.is_pending(4000));
    assert!(pending.reserve(4000));
}

#[test]
fn release_of_a_port_that_is_not_held_changes_nothing() {
    let mut pending = PendingPorts::new();
    assert!(pending.reserve(4000));
    assert!(!pending.release(4001));
    assert!(pending.is_pending(4000));
    assert!(!pending.is_pending(4001));
}

#[test]
fn ports_at_the_bounds_can_be_held() {
    let mut pending = PendingPorts::new();
    assert!(pending.reserve(0));
    assert!(pending.reserve(65535));
    assert!(pending.is_pending(0));
    assert!(pending.is_pending(65535));
    assert!(pending.release(0));
    assert!(!pending.is_pending(0));
    assert!(pending.is_pending(65535));
}

#[test]
fn lease_names_its_port() {
    assert_eq!(PortLease::new(4000).port(), 4000);
    assert_eq!(PortLease::new(0).port(), 0);
}
