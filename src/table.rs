//! The storage layer: records of one kind, each at its own address.
use vstd::prelude::*;
use crate::address::{same_address, Address};

verus! {

/// Records of one kind keyed by address; at most one record per address.
pub struct AccountTable<T> {
    entries: Vec<(Address, T)>,
    contents: Ghost<Map<Seq<u8>, T>>,
}

impl<T> View for AccountTable<T> {
    type V = Map<Seq<u8>, T>;

    closed spec fn view(&self) -> Map<Seq<u8>, T> {
        self.contents@
    }
}

impl<T> AccountTable<T> {
    /// The entries are exactly the map, with no address held twice.
    pub closed spec fn wf(&self) -> bool {
        &&& forall|i: int, j: int|
            0 <= i < j < self.entries@.len() ==> self.entries@[i].0@ != self.entries@[j].0@
        &&& forall|i: int|
            0 <= i < self.entries@.len() ==> #[trigger] self.contents@.contains_key(self.entries@[i].0@)
                && self.contents@[self.entries@[i].0@] == self.entries@[i].1
        &&& forall|a: Seq<u8>|
            #[trigger] self.contents@.contains_key(a) ==> exists|i: int|
                0 <= i < self.entries@.len() && #[trigger] self.entries@[i].0@ == a
    }

    /// An empty table.
    pub fn new() -> (r: Self)
        ensures
            r.wf(),
            r@ == Map::<Seq<u8>, T>::empty(),
    {
        AccountTable { entries: Vec::new(), contents: Ghost(Map::empty()) }
    }

    /// The position of the entry at `a`, if there is one.
    fn position(&self, a: &Address) -> (r: Option<usize>)
        requires
            self.wf(),
        ensures
            match r {
                Some(i) => i < self.entries@.len() && self.entries@[i as int].0@ == a@
                    && self@.contains_key(a@) && self@[a@] == self.entries@[i as int].1,
                None => !self@.contains_key(a@),
            },
    {
        let mut i: usize = 0;
        while i < self.entries.len()
            invariant
                self.wf(),
                0 <= i <= self.entries@.len(),
                forall|j: int| 0 <= j < i ==> self.entries@[j].0@ != a@,
            decreases self.entries@.len() - i,
        {
            if same_address(&self.entries[i].0, a) {
                assert(self.contents@.contains_key(self.entries@[i as int].0@));
                return Some(i);
            }
            i = i + 1;
        }
        None
    }

    /// Whether a record is stored at `a`.
    pub fn contains(&self, a: &Address) -> (r: bool)
        requires
            self.wf(),
        ensures
            r == self@.contains_key(a@),
    {
        self.position(a).is_some()
    }

    /// The record stored at `a`, if any.
    pub fn get(&self, a: &Address) -> (r: Option<&T>)
        requires
            self.wf(),
        ensures
            match r {
                Some(v) => self@.contains_key(a@) && *v == self@[a@],
                None => !self@.contains_key(a@),
            },
    {
        match self.position(a) {
            Some(i) => Some(&self.entries[i].1),
            None => None,
        }
    }

    /// Stores `v` at an address that holds no record yet.
    pub fn insert_new(&mut self, a: Address, v: T)
        requires
            old(self).wf(),
            !old(self)@.contains_key(a@),
        ensures
            final(self).wf(),
            final(self)@ == old(self)@.insert(a@, v),
    {
        let ghost old_entries = self.entries@;
        self.entries.push((a, v));
        self.contents = Ghost(self.contents@.insert(a@, v));
        assert forall|b: Seq<u8>| #[trigger] self.contents@.contains_key(b) implies exists|i: int|
            0 <= i < self.entries@.len() && #[trigger] self.entries@[i].0@ == b by {
            if b == a@ {
                assert(self.entries@[old_entries.len() as int].0@ == b);
            } else {
                assert(old(self).contents@.contains_key(b));
                let k = choose|k: int| 0 <= k < old_entries.len() && #[trigger] old_entries[k].0@ == b;
                assert(self.entries@[k].0@ == b);
            }
        }
    }

    /// Replaces the record stored at `a`.
    pub fn replace(&mut self, a: Address, v: T)
        requires
            old(self).wf(),
            old(self)@.contains_key(a@),
        ensures
            final(self).wf(),
            final(self)@ == old(self)@.insert(a@, v),
    {
        let i = self.position(&a).unwrap();
        let ghost old_entries = self.entries@;
        self.entries[i] = (a, v);
        self.contents = Ghost(self.contents@.insert(a@, v));
        assert forall|b: Seq<u8>| #[trigger] self.contents@.contains_key(b) implies exists|k: int|
            0 <= k < self.entries@.len() && #[trigger] self.entries@[k].0@ == b by {
            if b == a@ {
                assert(self.entries@[i as int].0@ == b);
            } else {
                assert(old(self).contents@.contains_key(b));
                let k = choose|k: int| 0 <= k < old_entries.len() && #[trigger] old_entries[k].0@ == b;
                assert(self.entries@[k].0@ == b);
            }
        }
    }
}

} // verus!
