//! Who is subscribed to what: for each target, the set of connections (by
//! their id) that receive its events.

use vstd::prelude::*;

use crate::common::net::request::{DbSubTarget, PlayerSubTarget};

verus! {

broadcast use vstd::seq_lib::group_seq_properties;

/// A set of connection ids.
pub struct ClientSet {
    ids: Vec<u64>,
}

impl View for ClientSet {
    type V = Set<u64>;

    closed spec fn view(&self) -> Set<u64> {
        self.ids@.to_set()
    }
}

impl ClientSet {
    #[verifier::type_invariant]
    closed spec fn inv(self) -> bool {
        self.ids@.no_duplicates()
    }

    /// No connection.
    pub fn new() -> (r: ClientSet)
        ensures
            r@ == Set::<u64>::empty(),
    {
        let r = ClientSet { ids: Vec::new() };
        assert(r@ =~= Set::<u64>::empty());
        r
    }

    fn position(&self, id: u64) -> (r: Option<usize>)
        ensures
            match r {
                Some(i) => i < self.ids@.len() && self.ids@[i as int] == id,
                None => !self.ids@.contains(id),
            },
    {
        let mut i: usize = 0;
        while i < self.ids.len()
            invariant
                i <= self.ids@.len(),
                forall|j: int| 0 <= j < i ==> self.ids@[j] != id,
            decreases self.ids.len() - i,
        {
            if self.ids[i] == id {
                return Some(i);
            }
            i = i + 1;
        }
        None
    }

    /// Whether the connection is in the set.
    pub fn contains(&self, id: u64) -> (r: bool)
        ensures
            r == self@.contains(id),
    {
        self.position(id).is_some()
    }

    /// Adds the connection (nothing changes when it is there).
    pub fn insert(&mut self, id: u64)
        ensures
            final(self)@ == old(self)@.insert(id),
    {
        proof {
            use_type_invariant(&*self);
        }
        if self.position(id).is_none() {
            let ghost before = self.ids@;
            let mut ids = Vec::new();
            std::mem::swap(&mut ids, &mut self.ids);
            ids.push(id);
            proof {
                assert(ids@ == before.push(id));
                assert(ids@.no_duplicates()) by {
                    assert forall|a: int, b: int| 0 <= a < b < ids@.len() implies ids@[a] != ids@[b] by {
                        if b == ids@.len() - 1 {
                            assert(before.contains(ids@[a]));
                        }
                    }
                }
                assert forall|x: u64| #[trigger] ids@.to_set().contains(x) == before.to_set().insert(id).contains(x) by {
                    if ids@.contains(x) && x != id {
                        let k = choose|k: int| 0 <= k < ids@.len() && ids@[k] == x;
                        assert(k < before.len());
                        assert(before[k] == x);
                    }
                    if before.contains(x) {
                        let k = choose|k: int| 0 <= k < before.len() && before[k] == x;
                        assert(ids@[k] == x);
                    }
                    if x == id {
                        assert(ids@[before.len() as int] == x);
                    }
                }
                assert(ids@.to_set() =~= before.to_set().insert(id));
            }
            self.ids = ids;
        } else {
            assert(self@.insert(id) =~= self@);
        }
    }

    /// Removes the connection.
    pub fn remove(&mut self, id: u64)
        ensures
            final(self)@ == old(self)@.remove(id),
    {
        proof {
            use_type_invariant(&*self);
        }
        match self.position(id) {
            Some(i) => {
                let ghost before = self.ids@;
                let mut ids = Vec::new();
                std::mem::swap(&mut ids, &mut self.ids);
                ids.remove(i);
                proof {
                    assert(ids@ == before.remove(i as int));
                    assert(ids@.no_duplicates()) by {
                        assert forall|a: int, b: int| 0 <= a < b < ids@.len() implies ids@[a] != ids@[b] by {
                            let a0 = if a < i { a } else { a + 1 };
                            let b0 = if b < i { b } else { b + 1 };
                            assert(ids@[a] == before[a0] && ids@[b] == before[b0]);
                        }
                    }
                    assert forall|x: u64| #[trigger] ids@.to_set().contains(x) == before.to_set().remove(id).contains(x) by {
                        if ids@.contains(x) {
                            let k = choose|k: int| 0 <= k < ids@.len() && ids@[k] == x;
                            let k0 = if k < i { k } else { k + 1 };
                            assert(before[k0] == x);
                            assert(k0 != i);
                        }
                        if before.contains(x) && x != id {
                            let k = choose|k: int| 0 <= k < before.len() && before[k] == x;
                            if k < i {
                                assert(ids@[k] == x);
                            } else {
                                assert(k != i);
                                assert(ids@[k - 1] == x);
                            }
                        }
                    }
                    assert(ids@.to_set() =~= before.to_set().remove(id));
                }
                self.ids = ids;
            },
            None => {
                assert(self@.remove(id) =~= self@);
            },
        }
    }

    /// The connections, each once.
    pub fn to_vec(&self) -> (r: Vec<u64>)
        ensures
            r@.to_set() == self@,
            r@.no_duplicates(),
    {
        proof {
            use_type_invariant(self);
        }
        self.ids.clone()
    }
}

/// The subscribers of the player, by target.
pub struct PlayerSubscribers {
    queue: ClientSet,
    sink: ClientSet,
}

impl PlayerSubscribers {
    /// The connections subscribed to `target`.
    pub closed spec fn of(&self, target: PlayerSubTarget) -> Set<u64> {
        match target {
            PlayerSubTarget::Queue => self.queue@,
            PlayerSubTarget::Sink => self.sink@,
        }
    }

    /// Nobody is subscribed.
    pub fn new() -> (r: PlayerSubscribers)
        ensures
            forall|t: PlayerSubTarget| r.of(t) == Set::<u64>::empty(),
    {
        PlayerSubscribers { queue: ClientSet::new(), sink: ClientSet::new() }
    }

    /// Subscribes the connection to `target`.
    pub fn add(&mut self, target: PlayerSubTarget, client: u64)
        ensures
            final(self).of(target) == old(self).of(target).insert(client),
            forall|t: PlayerSubTarget| t != target ==> final(self).of(t) == old(self).of(t),
    {
        match target {
            PlayerSubTarget::Queue => self.queue.insert(client),
            PlayerSubTarget::Sink => self.sink.insert(client),
        }
    }

    /// Unsubscribes the connection from `target`.
    pub fn remove(&mut self, target: PlayerSubTarget, client: u64)
        ensures
            final(self).of(target) == old(self).of(target).remove(client),
            forall|t: PlayerSubTarget| t != target ==> final(self).of(t) == old(self).of(t),
    {
        match target {
            PlayerSubTarget::Queue => self.queue.remove(client),
            PlayerSubTarget::Sink => self.sink.remove(client),
        }
    }

    /// The connections that receive the events of `target`, each once.
    pub fn recipients(&self, target: PlayerSubTarget) -> (r: Vec<u64>)
        ensures
            r@.to_set() == self.of(target),
            r@.no_duplicates(),
    {
        match target {
            PlayerSubTarget::Queue => self.queue.to_vec(),
            PlayerSubTarget::Sink => self.sink.to_vec(),
        }
    }
}

/// The subscribers of the database.
pub struct DbSubscribers {
    update: ClientSet,
}

impl DbSubscribers {
    /// The connections subscribed to `target`.
    pub closed spec fn of(&self, target: DbSubTarget) -> Set<u64> {
        match target {
            DbSubTarget::Update => self.update@,
        }
    }

    /// Nobody is subscribed.
    pub fn new() -> (r: DbSubscribers)
        ensures
            forall|t: DbSubTarget| r.of(t) == Set::<u64>::empty(),
    {
        DbSubscribers { update: ClientSet::new() }
    }

    /// Subscribes the connection to `target`.
    pub fn add(&mut self, target: DbSubTarget, client: u64)
        ensures
            final(self).of(target) == old(self).of(target).insert(client),
    {
        match target {
            DbSubTarget::Update => self.update.insert(client),
        }
    }

    /// Unsubscribes the connection from `target`.
    pub fn remove(&mut self, target: DbSubTarget, client: u64)
        ensures
            final(self).of(target) == old(self).of(target).remove(client),
    {
        match target {
            DbSubTarget::Update => self.update.remove(client),
        }
    }

    /// The connections that receive the events of `target`, each once.
    pub fn recipients(&self, target: DbSubTarget) -> (r: Vec<u64>)
        ensures
            r@.to_set() == self.of(target),
            r@.no_duplicates(),
    {
        match target {
            DbSubTarget::Update => self.update.to_vec(),
        }
    }
}

} // verus!
