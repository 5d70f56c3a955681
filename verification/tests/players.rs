use orkestra::models::players::PlayerSet;
use orkestra::models::session::{Endpoint, HostAddr, Id, Session};

fn id(name: &str) -> Id {
    Id(name.to_string())
}

fn session(max_players: u32, players: &[&str]) -> Session {
    let mut set = PlayerSet::new();
    for name in players {
        set.insert(id(name));
    }
    Session {
        id: 7,
        addr: Endpoint { host: HostAddr { a: 10, b: 0, c: 0, d: 2 }, port: 4000 },
        title: "Arena".to_string(),
        code: "000000".to_string(),
        max_players,
        players: set,
    }
}

#[test]
fn new_player_set_is_empty() {
    let set = PlayerSet::new();
    assert_eq!(set.len(), 0);
    assert!(!set.contains(&id("p1")));
    assert!(set.to_vec().is_empty());
}

#[test]
fn singleton_holds_its_player_only() {
    let set = PlayerSet::singleton(id("p1"));
    assert_eq!(set.len(), 1);
    assert!(set.contains(&id("p1")));
    assert!(!set.contains(&id("p2")));
}

#[test]
fn insert_reports_new_players() {
    let mut set = PlayerSet::new();
    assert!(set.insert(id("p1")));
    assert!(set.insert(id("p2")));
    assert_eq!(set.len(), 2);
    assert!(set.contains(&id("p1")));
    assert!(set.contains(&id("p2")));
}

#[test]
fn insert_twice_keeps_one_entry() {
    let mut set = PlayerSet::singleton(id("p1"));
    assert!(!set.insert(id("p1")));
    assert_eq!(set.len(), 1);
    assert_eq!(set.to_vec(), vec![id("p1")]);
}

#[test]
fn remove_takes_the_player_out() {
    let mut set = PlayerSet::new();
    set.insert(id("p1"));
    set.insert(id("p2"));
    set.insert(id("p3"));
    assert!(set.remove(&id("p2")));
    assert_eq!(set.len(), 2);
    assert!(set.contains(&id("p1")));
    assert!(!set.contains(&id("p2")));
    assert!(set.contains(&id("p3")));
}

#[test]
fn remove_of_an_absent_player_changes_nothing() {
    let mut set = PlayerSet::singleton(id("p1"));
    assert!(!set.remove(&id("ghost")));
    assert_eq!(set.len(), 1);
    assert!(set.contains(&id("p1")));
}

#[test]
fn player_names_are_compared_exactly() {
    let mut set = PlayerSet::singleton(id("Player"));
    assert!(!set.contains(&id("player")));
    assert!(!set.contains(&id("Player ")));
    assert!(!set.contains(&id("")));
    assert!(set.insert(id("")));
    assert!(set.contains(&id("")));
    assert_eq!(set.len(), 2);
}

#[test]
fn clone_of_a_player_set_is_independent() {
    let mut set = PlayerSet::singleton(id("p1"));
    let copy = set.clone();
    set.insert(id("p2"));
    assert_eq!(copy.len(), 1);
    assert!(copy.contains(&id("p1")));
    assert!(!copy.contains(&id("p2")));
}

#[test]
fn to_vec_lists_every_player_once() {
    let mut set = PlayerSet::new();
    set.insert(id("a"));
    set.insert(id("b"));
    set.insert(id("a"));
    let mut names: Vec<String> = set.to_vec().into_iter().map(|p| p.0).collect();
    names.sort();
    assert_eq!(names, vec!["a".to_string(), "b".to_string()]);
}

#[test]
fn ids_are_the_same_when_their_text_is() {
    assert!(id("p1").same_as(&id("p1")));
    assert!(!id("p1").same_as(&id("p2")));
    assert_eq!(id("p1").clone(), id("p1"));
}

#[test]
fn session_accepts_players_up_to_its_capacity() {
    let mut s = session(3, &["p1"]);
    assert!(!s.is_full());
    assert!(s.add_player(id("p2")));
    assert!(s.add_player(id("p3")));
    assert!(s.is_full());
    assert!(!s.add_player(id("p4")));
    assert_eq!(s.players.len(), 3);
    assert!(!s.players.contains(&id("p4")));
}

#[test]
fn full_session_refuses_even_a_player_who_is_in_it() {
    let mut s = session(2, &["p1", "p2"]);
    assert!(!s.add_player(id("p1")));
    assert_eq!(s.players.len(), 2);
}

#[test]
fn joining_twice_counts_once() {
    let mut s = session(3, &["p1"]);
    assert!(s.add_player(id("p2")));
    assert!(s.add_player(id("p2")));
    assert_eq!(s.players.len(), 2);
}

#[test]
fn session_of_capacity_zero_is_always_full() {
    let mut s = session(0, &["p1"]);
    assert!(s.is_full());
    assert!(!s.add_player(id("p2")));
    assert_eq!(s.players.len(), 1);
    assert!(s.remove_player(&id("p1")));
    assert!(s.is_full());
    assert!(!s.add_player(id("p1")));
    assert_eq!(s.players.len(), 0);
}

#[test]
fn leaving_frees_a_place() {
    let mut s = session(2, &["p1", "p2"]);
    assert!(s.remove_player(&id("p1")));
    assert!(!s.is_full());
    assert!(s.add_player(id("p3")));
    assert!(s.players.contains(&id("p2")));
    assert!(s.players.contains(&id("p3")));
    assert!(!s.players.contains(&id("p1")));
}

#[test]
fn leaving_a_session_one_is_not_in_is_no_error() {
    let mut s = session(2, &["p1"]);
    assert!(!s.remove_player(&id("p9")));
    assert_eq!(s.players.len(), 1);
    assert_eq!(s.title, "Arena");
    assert_eq!(s.code, "000000");
    assert_eq!(s.max_players, 2);
}

#[test]
fn clone_of_a_session_keeps_every_field() {
    let s = session(4, &["p1", "p2"]);
    let copy = s.clone();
    assert_eq!(copy.id, 7);
    assert_eq!(copy.addr, s.addr);
    assert_eq!(copy.title, "Arena");
    assert_eq!(copy.code, "000000");
    assert_eq!(copy.max_players, 4);
    assert_eq!(copy.players.len(), 2);
    assert!(copy.players.contains(&id("p1")));
    assert!(copy.players.contains(&id("p2")));
}
