use crate::errors::BlogError;
use crate::key::Pubkey;
use crate::state::Record;
use vstd::prelude::*;

verus! {

/// A record as stored: the bytes allocated for it at creation, and its
/// fields.
#[derive(Debug)]
pub struct Slot {
    pub space: usize,
    pub record: Record,
}

/// The host's record storage: at most one record per address. A record is
/// created only at a free address, and keeps the space it was allocated
/// with until it is closed.
pub struct Ledger {
    entries: Vec<(Pubkey, Option<Slot>)>,
    contents: Ghost<Map<Seq<u8>, Slot>>,
}

impl View for Ledger {
    type V = Map<Seq<u8>, Slot>;

    closed spec fn view(&self) -> Map<Seq<u8>, Slot> {
        self.contents@
    }
}

impl Ledger {
    /// Each address has one entry, and the entries agree with the view.
    pub closed spec fn wf(&self) -> bool {
        &&& forall|i: int, j: int|
            0 <= i < j < self.entries.len() ==> self.entries@[i].0@ != self.entries@[j].0@
        &&& forall|i: int|
            0 <= i < self.entries.len() ==> match #[trigger] self.entries@[i].1 {
                Some(s) => self.contents@.contains_key(self.entries@[i].0@)
                    && self.contents@[self.entries@[i].0@] == s,
                None => !self.contents@.contains_key(self.entries@[i].0@),
            }
        &&& forall|k: Seq<u8>|
            #[trigger] self.contents@.contains_key(k) ==> exists|i: int|
                0 <= i < self.entries.len() && self.entries@[i].0@ == k
    }

    /// A ledger with no records.
    pub fn new() -> (r: Ledger)
        ensures
            r.wf(),
            r@ == Map::<Seq<u8>, Slot>::empty(),
    {
        Ledger { entries: Vec::new(), contents: Ghost(Map::empty()) }
    }

    /// The entry for `key`, if the address was ever used.
    fn find_index(&self, key: &Pubkey) -> (r: Option<usize>)
        requires
            self.wf(),
        ensures
            match r {
                Some(i) => i < self.entries.len() && self.entries@[i as int].0@ == key@,
                None => forall|i: int| 0 <= i < self.entries.len() ==> self.entries@[i].0@ != key@,
            },
            r is None ==> !self@.contains_key(key@),
    {
        let mut i: usize = 0;
        while i < self.entries.len()
            invariant
                self.wf(),
                0 <= i <= self.entries.len(),
                forall|j: int| 0 <= j < i ==> self.entries@[j].0@ != key@,
            decreases self.entries.len() - i,
        {
            if self.entries[i].0 == *key {
                return Some(i);
            }
            i = i + 1;
        }
        None
    }

    /// Whether a record is stored at `key`.
    pub fn contains(&self, key: &Pubkey) -> (r: bool)
        requires
            self.wf(),
        ensures
            r == self@.contains_key(key@),
    {
        match self.find_index(key) {
            Some(i) => {
                self.entries[i].1.is_some()
            },
            None => false,
        }
    }

    /// The record stored at `key`, if any.
    pub fn get(&self, key: &Pubkey) -> (r: Option<&Slot>)
        requires
            self.wf(),
        ensures
            r is Some == self@.contains_key(key@),
            r matches Some(s) ==> *s == self@[key@],
    {
        match self.find_index(key) {
            Some(i) => {
                self.entries[i].1.as_ref()
            },
            None => None,
        }
    }

    /// Stores a new record at `key`; fails where one is stored there already.
    pub fn create(&mut self, key: &Pubkey, slot: Slot) -> (r: Result<(), BlogError>)
        requires
            old(self).wf(),
        ensures
            final(self).wf(),
            r is Err <==> old(self)@.contains_key(key@),
            r is Ok ==> final(self)@ == old(self)@.insert(key@, slot),
            r matches Err(e) ==> e == BlogError::AlreadyExists && final(self)@ == old(self)@,
    {
        let ghost s = slot;
        match self.find_index(key) {
            Some(i) => {
                if self.entries[i].1.is_some() {
                    return Err(BlogError::AlreadyExists);
                }
                self.entries.set(i, (*key, Some(slot)));
                self.contents = Ghost(self.contents@.insert(key@, s));
                assert forall|k: Seq<u8>| #[trigger] self.contents@.contains_key(k) implies exists|j: int|
                    0 <= j < self.entries.len() && self.entries@[j].0@ == k by {
                    if k != key@ {
                        assert(old(self).contents@.contains_key(k));
                        let j = choose|j: int| 0 <= j < old(self).entries.len() && old(self).entries@[j].0@ == k;
                        assert(self.entries@[j].0@ == k);
                    } else {
                        assert(self.entries@[i as int].0@ == k);
                    }
                }
            },
            None => {
                let ghost n = self.entries.len();
                self.entries.push((*key, Some(slot)));
                self.contents = Ghost(self.contents@.insert(key@, s));
                assert forall|k: Seq<u8>| #[trigger] self.contents@.contains_key(k) implies exists|j: int|
                    0 <= j < self.entries.len() && self.entries@[j].0@ == k by {
                    if k != key@ {
                        assert(old(self).contents@.contains_key(k));
                        let j = choose|j: int| 0 <= j < old(self).entries.len() && old(self).entries@[j].0@ == k;
                        assert(self.entries@[j].0@ == k);
                    } else {
                        assert(self.entries@[n as int].0@ == k);
                    }
                }
            },
        }
        Ok(())
    }

    /// Replaces the record stored at `key`, keeping its allocated space.
    pub fn write(&mut self, key: &Pubkey, record: Record)
        requires
            old(self).wf(),
            old(self)@.contains_key(key@),
        ensures
            final(self).wf(),
            final(self)@ == old(self)@.insert(key@, Slot { space: old(self)@[key@].space, record }),
    {
        let ghost r = record;
        match self.find_index(key) {
            Some(i) => {
                let space = match &self.entries[i].1 {
                    Some(s) => s.space,
                    None => 0,
                };
                self.entries.set(i, (*key, Some(Slot { space, record })));
                self.contents = Ghost(self.contents@.insert(key@, Slot { space, record: r }));
                assert forall|k: Seq<u8>| #[trigger] self.contents@.contains_key(k) implies exists|j: int|
                    0 <= j < self.entries.len() && self.entries@[j].0@ == k by {
                    if k != key@ {
                        assert(old(self).contents@.contains_key(k));
                        let j = choose|j: int| 0 <= j < old(self).entries.len() && old(self).entries@[j].0@ == k;
                        assert(self.entries@[j].0@ == k);
                    } else {
                        assert(self.entries@[i as int].0@ == k);
                    }
                }
            },
            None => {},
        }
    }

    /// Removes the record stored at `key`, freeing the address.
    pub fn close(&mut self, key: &Pubkey)
        requires
            old(self).wf(),
            old(self)@.contains_key(key@),
        ensures
            final(self).wf(),
            final(self)@ == old(self)@.remove(key@),
    {
        match self.find_index(key) {
            Some(i) => {
                self.entries.set(i, (*key, None));
                self.contents = Ghost(self.contents@.remove(key@));
                assert forall|k: Seq<u8>| #[trigger] self.contents@.contains_key(k) implies exists|j: int|
                    0 <= j < self.entries.len() && self.entries@[j].0@ == k by {
                    assert(old(self).contents@.contains_key(k));
                    let j = choose|j: int| 0 <= j < old(self).entries.len() && old(self).entries@[j].0@ == k;
                    assert(self.entries@[j].0@ == k);
                }
            },
            None => {},
        }
    }
}

} // verus!
