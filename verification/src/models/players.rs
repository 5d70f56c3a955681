//! The set of players of one session.

use crate::models::session::Id;
use vstd::prelude::*;

verus! {

/// A set of player identifiers, kept as a list in which no identifier occurs
/// twice.
#[derive(Debug)]
pub struct PlayerSet {
    ids: Vec<Id>,
}

impl View for PlayerSet {
    type V = Set<Seq<char>>;

    closed spec fn view(&self) -> Set<Seq<char>> {
        self.names().to_set()
    }
}

impl PlayerSet {
    /// The identifiers in the order in which they are kept.
    pub closed spec fn names(&self) -> Seq<Seq<char>> {
        self.ids@.map_values(|id: Id| id@)
    }

    #[verifier::type_invariant]
    spec fn distinct(&self) -> bool {
        self.names().no_duplicates()
    }

    /// Whatever the list holds, the set it stands for is finite.
    pub proof fn lemma_finite(&self)
        ensures
            self@.finite(),
    {
        broadcast use vstd::seq_lib::seq_to_set_is_finite;

    }

    /// The empty set.
    pub fn new() -> (players: Self)
        ensures
            players@ == Set::<Seq<char>>::empty(),
    {
        let players = PlayerSet { ids: Vec::new() };
        assert(players.names() =~= Seq::<Seq<char>>::empty());
        assert(players@ =~= Set::<Seq<char>>::empty());
        players
    }

    /// The set that holds `id` alone.
    pub fn singleton(id: Id) -> (players: Self)
        ensures
            players@ == Set::<Seq<char>>::empty().insert(id@),
    {
        let mut ids: Vec<Id> = Vec::new();
        ids.push(id);
        assert(ids@.map_values(|id: Id| id@) =~= seq![id@]);
        let players = PlayerSet { ids };
        assert(players.names()[0] == id@);
        assert(players@ =~= Set::<Seq<char>>::empty().insert(id@));
        players
    }

    /// Moves the list out and leaves the empty set behind.
    fn take_ids(&mut self) -> (ids: Vec<Id>)
        ensures
            ids == old(self).ids,
    {
        let mut taken = PlayerSet::new();
        std::mem::swap(self, &mut taken);
        taken.ids
    }

    /// The place of `id` in the list, if it is there.
    fn position(&self, id: &Id) -> (place: Option<usize>)
        ensures
            match place {
                Some(i) => i < self.names().len() && self.names()[i as int] == id@,
                None => !self.names().contains(id@),
            },
    {
        let mut i: usize = 0;
        while i < self.ids.len()
            invariant
                i <= self.ids.len(),
                self.names().len() == self.ids.len(),
                forall|j: int| 0 <= j < i ==> self.names()[j] != id@,
            decreases self.ids.len() - i,
        {
            if self.ids[i].same_as(id) {
                return Some(i);
            }
            i += 1;
        }
        None
    }

    /// Whether `id` is in the set.
    pub fn contains(&self, id: &Id) -> (found: bool)
        ensures
            found == self@.contains(id@),
    {
        self.position(id).is_some()
    }

    /// How many players the set holds.
    pub fn len(&self) -> (count: usize)
        ensures
            count == self@.len(),
            self@.finite(),
    {
        proof {
            use_type_invariant(self);
            self.names().unique_seq_to_set();
            self.lemma_finite();
        }
        self.ids.len()
    }

    /// Adds `id`; returns whether it was new. Adding a player twice changes
    /// nothing.
    pub fn insert(&mut self, id: Id) -> (fresh: bool)
        ensures
            final(self)@ == old(self)@.insert(id@),
            fresh == !old(self)@.contains(id@),
    {
        proof {
            use_type_invariant(&*self);
        }
        match self.position(&id) {
            Some(_) => {
                assert(self@ =~= old(self)@.insert(id@));
                false
            },
            None => {
                let ghost before = self.names();
                let mut ids = self.take_ids();
                ids.push(id);
                assert(ids@.map_values(|id: Id| id@) =~= before.push(id@));
                *self = PlayerSet { ids };
                proof {
                    assert(self.names() =~= before.push(id@));
                    assert(self@ =~= old(self)@.insert(id@)) by {
                        assert forall|name: Seq<char>|
                            self@.contains(name) <==> old(self)@.insert(id@).contains(
                                name,
                            ) by {
                            if before.push(id@).contains(name) {
                                let k = choose|k: int|
                                    0 <= k < before.push(id@).len() && before.push(id@)[k]
                                        == name;
                                if k < before.len() {
                                    assert(before[k] == name);
                                }
                            }
                            if before.contains(name) {
                                let k = choose|k: int| 0 <= k < before.len() && before[k] == name;
                                assert(before.push(id@)[k] == name);
                            }
                            if name == id@ {
                                assert(before.push(id@)[before.len() as int] == name);
                            }
                        }
                    }
                }
                true
            },
        }
    }

    /// Takes `id` out; returns whether it was there. Removing an absent player
    /// changes nothing.
    pub fn remove(&mut self, id: &Id) -> (held: bool)
        ensures
            final(self)@ == old(self)@.remove(id@),
            held == old(self)@.contains(id@),
    {
        proof {
            use_type_invariant(&*self);
        }
        match self.position(id) {
            None => {
                assert(self@ =~= old(self)@.remove(id@));
                false
            },
            Some(i) => {
                let ghost before = self.names();
                let mut ids = self.take_ids();
                let _ = ids.remove(i);
                assert(ids@.map_values(|id: Id| id@) =~= before.remove(i as int));
                *self = PlayerSet { ids };
                proof {
                    assert(self.names() =~= before.remove(i as int));
                    assert forall|name: Seq<char>|
                        self@.contains(name) <==> old(self)@.remove(id@).contains(name) by {
                        let after = before.remove(i as int);
                        if after.contains(name) {
                            let k = choose|k: int| 0 <= k < after.len() && after[k] == name;
                            if k < i {
                                assert(before[k] == name);
                            } else {
                                assert(before[k + 1] == name);
                            }
                        }
                        if before.contains(name) && name != id@ {
                            let k = choose|k: int| 0 <= k < before.len() && before[k] == name;
                            if k < i {
                                assert(after[k] == name);
                            } else {
                                assert(after[k - 1] == name);
                            }
                        }
                    }
                    assert(self@ =~= old(self)@.remove(id@));
                }
                true
            },
        }
    }

    /// The players, one entry each.
    pub fn to_vec(&self) -> (list: Vec<Id>)
        ensures
            list@.map_values(|id: Id| id@).to_set() == self@,
            list@.map_values(|id: Id| id@).no_duplicates(),
    {
        proof {
            use_type_invariant(self);
        }
        let mut list: Vec<Id> = Vec::new();
        let mut i: usize = 0;
        while i < self.ids.len()
            invariant
                i <= self.ids.len(),
                list@ == self.ids@.subrange(0, i as int),
            decreases self.ids.len() - i,
        {
            list.push(self.ids[i].clone());
            assert(list@ =~= self.ids@.subrange(0, i + 1));
            i += 1;
        }
        assert(list@ =~= self.ids@);
        list
    }
}

impl Clone for PlayerSet {
    fn clone(&self) -> (copy: Self)
        ensures
            copy@ == self@,
    {
        proof {
            use_type_invariant(self);
        }
        let ids = self.to_vec();
        PlayerSet { ids }
    }
}

} // verus!
