//! The carrier: a key/value surface with case-insensitive keys, onto which a
//! span context is written and from which it is read back. Header sets and
//! RPC metadata are both handed to the library in this one shape.

use crate::text::{lower, to_lower};
use vstd::prelude::*;

verus! {

/// A string-to-string mapping whose keys are compared without regard to
/// ASCII case.
///
/// Its view is a map from folded (lower-case) keys to values.
pub struct Carrier {
    entries: Vec<(String, String)>,
}

impl View for Carrier {
    type V = Map<Seq<char>, Seq<char>>;

    closed spec fn view(&self) -> Map<Seq<char>, Seq<char>> {
        Map::new(
            |k: Seq<char>| self.position(k) is Some,
            |k: Seq<char>| self.entries@[self.position(k).unwrap()].1@,
        )
    }
}

impl Carrier {
    /// The index at which the folded key `k` is stored, if it is.
    closed spec fn position(self, k: Seq<char>) -> Option<int> {
        if exists|i: int| 0 <= i < self.entries@.len() && (#[trigger] self.entries@[i]).0@ == k {
            Some(choose|i: int| 0 <= i < self.entries@.len() && (#[trigger] self.entries@[i]).0@ == k)
        } else {
            None
        }
    }

    /// Stored keys are folded, and no key is stored twice.
    #[verifier::type_invariant]
    closed spec fn well_formed(self) -> bool {
        &&& forall|i: int|
            0 <= i < self.entries@.len() ==> lower((#[trigger] self.entries@[i]).0@)
                == self.entries@[i].0@
        &&& forall|i: int, j: int|
            0 <= i < j < self.entries@.len() ==> (#[trigger] self.entries@[i]).0@ != (
            #[trigger] self.entries@[j]).0@
    }

    /// With distinct keys, the entry at `i` is the one its key is found at.
    proof fn lemma_position(self, i: int)
        requires
            self.well_formed(),
            0 <= i < self.entries@.len(),
        ensures
            self.position(self.entries@[i].0@) == Some(i),
            self@.contains_key(self.entries@[i].0@),
            self@[self.entries@[i].0@] == self.entries@[i].1@,
    {
        let k = self.entries@[i].0@;
        let j = choose|j: int| 0 <= j < self.entries@.len() && (#[trigger] self.entries@[j]).0@ == k;
        assert(j == i);
    }

    /// The empty carrier.
    pub fn new() -> (c: Carrier)
        ensures
            c@ == Map::<Seq<char>, Seq<char>>::empty(),
    {
        let c = Carrier { entries: Vec::new() };
        assert(c@ =~= Map::<Seq<char>, Seq<char>>::empty());
        c
    }

    /// Where the folded key `folded` is stored.
    fn find(&self, folded: &String) -> (r: Option<usize>)
        ensures
            match r {
                Some(i) => i < self.entries@.len() && self.entries@[i as int].0@ == folded@
                    && self.position(folded@) == Some(i as int),
                None => self.position(folded@) is None,
            },
    {
        proof {
            use_type_invariant(self);
        }
        let mut i: usize = 0;
        while i < self.entries.len()
            invariant
                i <= self.entries@.len(),
                self.well_formed(),
                forall|j: int| 0 <= j < i ==> (#[trigger] self.entries@[j]).0@ != folded@,
            decreases self.entries@.len() - i,
        {
            if self.entries[i].0 == *folded {
                proof {
                    self.lemma_position(i as int);
                }
                return Some(i);
            }
            i += 1;
        }
        None
    }

    /// The value stored under `key`, whatever the case of its letters.
    pub fn get(&self, key: &str) -> (r: Option<String>)
        ensures
            match r {
                Some(v) => self@.contains_key(lower(key@)) && v@ == self@[lower(key@)],
                None => !self@.contains_key(lower(key@)),
            },
    {
        let folded = to_lower(key);
        match self.find(&folded) {
            Some(i) => Some(self.entries[i].1.clone()),
            None => None,
        }
    }

    /// Stores `value` under `key`, replacing what was stored under any
    /// spelling of that key.
    pub fn set(&mut self, key: &str, value: &str)
        ensures
            final(self)@ == old(self)@.insert(lower(key@), value@),
    {
        proof {
            use_type_invariant(&*self);
        }
        let folded = to_lower(key);
        let found = self.find(&folded);
        let ghost before = *self;
        let ghost k = folded@;
        proof {
            crate::text::lemma_lower_idempotent(key@);
        }
        let mut taken = Carrier::new();
        std::mem::swap(self, &mut taken);
        let mut entries = taken.entries;
        match found {
            Some(i) => {
                entries.set(i, (folded, value.to_owned()));
                *self = Carrier { entries };
                assert(self.well_formed());
                assert forall|q: Seq<char>| self.position(q) is Some <==> before.position(
                    q,
                ) is Some by {
                    if before.position(q) is Some {
                        let j = before.position(q).unwrap();
                        assert(self.entries@[j].0@ == q);
                    }
                    if self.position(q) is Some {
                        let j = self.position(q).unwrap();
                        assert(before.entries@[j].0@ == q);
                    }
                }
                assert forall|q: Seq<char>| self.position(q) is Some implies self@[q]
                    == before@.insert(k, value@)[q] by {
                    let j = self.position(q).unwrap();
                    self.lemma_position(j);
                    if j != i as int {
                        before.lemma_position(j);
                    }
                }
                assert(self@ =~= before@.insert(k, value@));
            },
            None => {
                entries.push((folded, value.to_owned()));
                *self = Carrier { entries };
                let ghost n = before.entries@.len() as int;
                assert(self.well_formed());
                assert forall|q: Seq<char>| self.position(q) is Some <==> (before.position(
                    q,
                ) is Some || q == k) by {
                    if before.position(q) is Some {
                        let j = before.position(q).unwrap();
                        assert(self.entries@[j].0@ == q);
                    }
                    if q == k {
                        assert(self.entries@[n].0@ == q);
                    }
                    if self.position(q) is Some {
                        let j = self.position(q).unwrap();
                        if j < n {
                            assert(before.entries@[j].0@ == q);
                        }
                    }
                }
                assert forall|q: Seq<char>| self.position(q) is Some implies self@[q]
                    == before@.insert(k, value@)[q] by {
                    let j = self.position(q).unwrap();
                    self.lemma_position(j);
                    if j < n {
                        before.lemma_position(j);
                    }
                }
                assert(self@ =~= before@.insert(k, value@));
            },
        }
    }

    /// Whether nothing is stored.
    pub fn is_empty(&self) -> (r: bool)
        ensures
            r == (self@ == Map::<Seq<char>, Seq<char>>::empty()),
    {
        proof {
            use_type_invariant(self);
            if self.entries@.len() > 0 {
                self.lemma_position(0);
            } else {
                assert(self@ =~= Map::<Seq<char>, Seq<char>>::empty());
            }
        }
        self.entries.len() == 0
    }

    /// The stored pairs, each key once and in its folded form, for writing
    /// the carrier onto a transport.
    pub fn pairs(&self) -> (r: Vec<(String, String)>)
        ensures
            forall|i: int|
                0 <= i < r@.len() ==> self@.contains_key((#[trigger] r@[i]).0@) && self@[r@[i].0@]
                    == r@[i].1@,
            forall|k: Seq<char>|
                self@.contains_key(k) ==> exists|i: int|
                    0 <= i < r@.len() && (#[trigger] r@[i]).0@ == k,
            forall|i: int, j: int|
                0 <= i < j < r@.len() ==> (#[trigger] r@[i]).0@ != (#[trigger] r@[j]).0@,
    {
        proof {
            use_type_invariant(self);
        }
        let mut r: Vec<(String, String)> = Vec::new();
        let mut i: usize = 0;
        while i < self.entries.len()
            invariant
                i <= self.entries@.len(),
                self.well_formed(),
                r@.len() == i,
                forall|j: int|
                    0 <= j < i ==> (#[trigger] r@[j]).0@ == self.entries@[j].0@ && r@[j].1@
                        == self.entries@[j].1@,
            decreases self.entries@.len() - i,
        {
            r.push((self.entries[i].0.clone(), self.entries[i].1.clone()));
            i += 1;
        }
        proof {
            assert forall|j: int| 0 <= j < r@.len() implies self@.contains_key(
                (#[trigger] r@[j]).0@,
            ) && self@[r@[j].0@] == r@[j].1@ by {
                self.lemma_position(j);
            }
            assert forall|k: Seq<char>| self@.contains_key(k) implies exists|i: int|
                0 <= i < r@.len() && (#[trigger] r@[i]).0@ == k by {
                let j = self.position(k).unwrap();
                assert(r@[j].0@ == k);
            }
        }
        r
    }
}

} // verus!
