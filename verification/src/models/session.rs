//! A session: one running worker with its endpoint, its capacity and its
//! players.

use crate::models::players::PlayerSet;
use crate::text::{decimal, push_decimal};
use vstd::prelude::*;

verus! {

/// An opaque player identifier.
#[derive(Debug, PartialEq, Eq, Hash)]
pub struct Id(pub String);

impl View for Id {
    type V = Seq<char>;

    open spec fn view(&self) -> Seq<char> {
        self.0@
    }
}

impl Clone for Id {
    fn clone(&self) -> (copy: Self)
        ensures
            copy == *self,
    {
        Id(self.0.clone())
    }
}

impl Id {
    /// Whether two identifiers are the same text.
    pub fn same_as(&self, other: &Id) -> (same: bool)
        ensures
            same == (self@ == other@),
    {
        self.0 == other.0
    }
}

/// An IPv4 host address, one field for each of its four octets.
#[derive(Clone, Copy, Debug, PartialEq, Eq, Structural)]
pub struct HostAddr {
    pub a: u8,
    pub b: u8,
    pub c: u8,
    pub d: u8,
}

/// Where a worker listens: host and port.
#[derive(Clone, Copy, Debug, PartialEq, Eq, Structural)]
pub struct Endpoint {
    pub host: HostAddr,
    pub port: u16,
}

/// The text of an endpoint: the four octets in decimal with dots between
/// them, a colon, and the port in decimal.
pub open spec fn endpoint_text(addr: Endpoint) -> Seq<char> {
    decimal(addr.host.a as nat) + seq!['.'] + decimal(addr.host.b as nat) + seq!['.'] + decimal(
        addr.host.c as nat,
    ) + seq!['.'] + decimal(addr.host.d as nat) + seq![':'] + decimal(addr.port as nat)
}

impl Endpoint {
    /// The endpoint as clients are told it, such as `127.0.0.1:7777`.
    pub fn to_text(&self) -> (text: String)
        ensures
            text@ == endpoint_text(*self),
    {
        let mut text = String::new();
        push_decimal(&mut text, self.host.a as u64);
        text.push('.');
        push_decimal(&mut text, self.host.b as u64);
        text.push('.');
        push_decimal(&mut text, self.host.c as u64);
        text.push('.');
        push_decimal(&mut text, self.host.d as u64);
        text.push(':');
        push_decimal(&mut text, self.port as u64);
        text
    }
}

/// What a client asks for when it creates a session.
#[derive(Debug)]
pub struct SessionConfig {
    pub max_players: u32,
    pub game_map: String,
    pub title: String,
}

/// A change to the players of a session.
#[derive(Debug)]
pub enum UpdateSession {
    AddPlayer(Id),
    RemovePlayer(Id),
}

/// A change to the players of a session as a mathematical value.
pub enum UpdateView {
    AddPlayer(Seq<char>),
    RemovePlayer(Seq<char>),
}

impl View for UpdateSession {
    type V = UpdateView;

    open spec fn view(&self) -> UpdateView {
        match self {
            UpdateSession::AddPlayer(id) => UpdateView::AddPlayer(id@),
            UpdateSession::RemovePlayer(id) => UpdateView::RemovePlayer(id@),
        }
    }
}

impl Clone for UpdateSession {
    fn clone(&self) -> (copy: Self)
        ensures
            copy == *self,
    {
        match self {
            UpdateSession::AddPlayer(id) => UpdateSession::AddPlayer(id.clone()),
            UpdateSession::RemovePlayer(id) => UpdateSession::RemovePlayer(id.clone()),
        }
    }
}

/// A tracked worker. Everything but `players` stays as it was at creation.
#[derive(Debug)]
pub struct Session {
    pub id: u128,
    pub addr: Endpoint,
    pub title: String,
    pub code: String,
    pub max_players: u32,
    pub players: PlayerSet,
}

/// A session as a mathematical value.
pub struct SessionView {
    pub id: u128,
    pub addr: Endpoint,
    pub title: Seq<char>,
    pub code: Seq<char>,
    pub max_players: u32,
    pub players: Set<Seq<char>>,
}

impl SessionView {
    /// No more players may join.
    pub open spec fn is_full(self) -> bool {
        self.players.len() >= self.max_players
    }

    /// The players fit the capacity. A session created with capacity zero
    /// still holds its creator, so one player is always allowed.
    pub open spec fn within_capacity(self) -> bool {
        self.players.finite() && (self.players.len() <= self.max_players || self.players.len()
            <= 1)
    }

    /// The session after `player` joined.
    pub open spec fn with_player(self, player: Seq<char>) -> SessionView {
        SessionView { players: self.players.insert(player), ..self }
    }

    /// The session after `player` left.
    pub open spec fn without_player(self, player: Seq<char>) -> SessionView {
        SessionView { players: self.players.remove(player), ..self }
    }
}

impl View for Session {
    type V = SessionView;

    open spec fn view(&self) -> SessionView {
        SessionView {
            id: self.id,
            addr: self.addr,
            title: self.title@,
            code: self.code@,
            max_players: self.max_players,
            players: self.players@,
        }
    }
}

impl Clone for Session {
    fn clone(&self) -> (copy: Self)
        ensures
            copy@ == self@,
    {
        Session {
            id: self.id,
            addr: self.addr,
            title: self.title.clone(),
            code: self.code.clone(),
            max_players: self.max_players,
            players: self.players.clone(),
        }
    }
}

impl Session {
    /// Whether the session has reached its capacity.
    pub fn is_full(&self) -> (full: bool)
        ensures
            full == self@.is_full(),
            self@.players.finite(),
    {
        self.players.len() >= self.max_players as usize
    }

    /// Lets `player` join unless the session is full. A player who is already
    /// in a session that is not full stays in it. Returns whether the join
    /// was accepted.
    pub fn add_player(&mut self, player: Id) -> (accepted: bool)
        ensures
            accepted == !old(self)@.is_full(),
            accepted ==> final(self)@ == old(self)@.with_player(player@),
            !accepted ==> final(self)@ == old(self)@,
    {
        if self.is_full() {
            false
        } else {
            self.players.insert(player);
            true
        }
    }

    /// Takes `player` out of the session; a player who is not in it is no
    /// error. Returns whether the player was in it.
    pub fn remove_player(&mut self, player: &Id) -> (held: bool)
        ensures
            held == old(self)@.players.contains(player@),
            final(self)@ == old(self)@.without_player(player@),
    {
        self.players.remove(player)
    }
}

} // verus!
