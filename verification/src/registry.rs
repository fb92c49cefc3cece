//! The session registry: an associative store from stream key to session
//! state. Its view is a map from the key's characters to the session's
//! lifecycle state, and every operation is specified against that map.
//!
//! The registry itself is a plain value; the caller that shares it between
//! tasks wraps it in a lock and holds that lock only for the duration of a
//! single operation here.

use vstd::prelude::*;
use vstd::map::*;
use crate::session::{SessionState, SessionStateView, project, to_response};
use crate::structures::RtspResponse;

verus! {

/// `snap` is a faithful listing of `m`: every listed key is registered with
/// exactly the projection of its state, every registered key is listed, and
/// no key is listed twice.
pub open spec fn is_snapshot_of(
    snap: Seq<(String, RtspResponse)>,
    m: Map<Seq<char>, SessionStateView>,
) -> bool {
    &&& forall|i: int|
        0 <= i < snap.len() ==> m.contains_key((#[trigger] snap[i]).0@) && snap[i].1@
            == project(m[snap[i].0@])
    &&& forall|k: Seq<char>|
        m.contains_key(k) ==> exists|i: int| 0 <= i < snap.len() && (#[trigger] snap[i]).0@ == k
    &&& forall|i: int, j: int|
        0 <= i < snap.len() && 0 <= j < snap.len() && i != j ==> snap[i].0@ != snap[j].0@
}

/// Maps each stream key to the state of the session registered under it.
pub struct Registry {
    entries: Vec<(String, SessionState)>,
}

impl Registry {
    /// No two entries share a key.
    pub closed spec fn wf(&self) -> bool {
        forall|i: int, j: int|
            0 <= i < self.entries@.len() && 0 <= j < self.entries@.len() && i != j
                ==> self.entries@[i].0@ != self.entries@[j].0@
    }

    closed spec fn dom_pred(&self, k: Seq<char>) -> bool {
        exists|i: int| 0 <= i < self.entries@.len() && self.entries@[i].0@ == k
    }

    closed spec fn idx_of(&self, k: Seq<char>) -> int {
        choose|i: int| 0 <= i < self.entries@.len() && self.entries@[i].0@ == k
    }

    proof fn lemma_entry(&self, i: int)
        requires
            self.wf(),
            0 <= i < self.entries@.len(),
        ensures
            self@.contains_key(self.entries@[i].0@),
            self.idx_of(self.entries@[i].0@) == i,
            self@[self.entries@[i].0@] == self.entries@[i].1@,
    {
        assert(self.dom_pred(self.entries@[i].0@));
        let j = self.idx_of(self.entries@[i].0@);
        assert(0 <= j < self.entries@.len() && self.entries@[j].0@ == self.entries@[i].0@);
        assert(j == i);
    }

    /// An empty registry.
    pub fn new() -> (r: Registry)
        ensures
            r.wf(),
            r@ == Map::<Seq<char>, SessionStateView>::empty(),
    {
        let r = Registry { entries: Vec::new() };
        proof {
            assert(r@ =~= Map::<Seq<char>, SessionStateView>::empty());
        }
        r
    }

    fn find_index(&self, key: &String) -> (r: Option<usize>)
        requires
            self.wf(),
        ensures
            match r {
                Some(i) => i < self.entries@.len() && self.entries@[i as int].0@ == key@,
                None => !self@.contains_key(key@),
            },
    {
        let mut i: usize = 0;
        while i < self.entries.len()
            invariant
                i <= self.entries@.len(),
                forall|j: int| 0 <= j < i ==> self.entries@[j].0@ != key@,
            decreases self.entries@.len() - i,
        {
            if self.entries[i].0 == *key {
                return Some(i);
            }
            i = i + 1;
        }
        None
    }

    /// True when a session is registered under the key.
    pub fn contains(&self, key: &String) -> (r: bool)
        requires
            self.wf(),
        ensures
            r == self@.contains_key(key@),
    {
        match self.find_index(key) {
            Some(i) => {
                proof {
                    self.lemma_entry(i as int);
                }
                true
            }
            None => false,
        }
    }

    /// The state registered under the key, if any.
    pub fn get(&self, key: &String) -> (r: Option<&SessionState>)
        requires
            self.wf(),
        ensures
            match r {
                Some(s) => self@.contains_key(key@) && s@ == self@[key@],
                None => !self@.contains_key(key@),
            },
    {
        match self.find_index(key) {
            Some(i) => {
                proof {
                    self.lemma_entry(i as int);
                }
                Some(&self.entries[i].1)
            }
            None => None,
        }
    }

    /// Registers `state` under `key`, replacing whatever was there:
    /// last writer wins, no merge.
    pub fn upsert(&mut self, key: String, state: SessionState)
        requires
            old(self).wf(),
        ensures
            final(self).wf(),
            final(self)@ == old(self)@.insert(key@, state@),
    {
        let ghost old_self = *self;
        match self.find_index(&key) {
            Some(i) => {
                let ghost k = key@;
                let ghost v = state@;
                self.entries[i] = (key, state);
                proof {
                    assert(forall|j: int|
                        0 <= j < self.entries@.len() ==> (#[trigger] self.entries@[j]).0@
                            == old_self.entries@[j].0@);
                    assert(self.wf());
                    assert_maps_equal!(self@, old_self@.insert(k, v), kk => {
                        if self@.contains_key(kk) || old_self@.insert(k, v).contains_key(kk) {
                            if kk == k {
                                self.lemma_entry(i as int);
                            } else {
                                if old_self.dom_pred(kk) {
                                    let j = old_self.idx_of(kk);
                                    old_self.lemma_entry(j);
                                    assert(self.entries@[j].0@ == kk);
                                    self.lemma_entry(j);
                                }
                                if self.dom_pred(kk) {
                                    let j = self.idx_of(kk);
                                    self.lemma_entry(j);
                                    assert(old_self.entries@[j].0@ == kk);
                                    old_self.lemma_entry(j);
                                }
                            }
                        }
                    });
                }
            }
            None => {
                let ghost k = key@;
                let ghost v = state@;
                let ghost n = self.entries@.len();
                self.entries.push((key, state));
                proof {
                    assert(forall|j: int| 0 <= j < n ==> (#[trigger] self.entries@[j])
                        == old_self.entries@[j]);
                    assert(forall|j: int| 0 <= j < n
                        ==> (#[trigger] old_self.entries@[j]).0@ != k) by {
                        assert(forall|j: int| (0 <= j < n && (#[trigger] old_self.entries@[j]).0@
                            == k) ==> old_self.dom_pred(k));
                    }
                    assert(self.wf());
                    assert_maps_equal!(self@, old_self@.insert(k, v), kk => {
                        if self@.contains_key(kk) || old_self@.insert(k, v).contains_key(kk) {
                            if kk == k {
                                assert(self.entries@[n as int].0@ == k);
                                self.lemma_entry(n as int);
                            } else {
                                if old_self.dom_pred(kk) {
                                    let j = old_self.idx_of(kk);
                                    old_self.lemma_entry(j);
                                    self.lemma_entry(j);
                                }
                                if self.dom_pred(kk) {
                                    let j = self.idx_of(kk);
                                    self.lemma_entry(j);
                                    assert(j != n);
                                    old_self.lemma_entry(j);
                                }
                            }
                        }
                    });
                }
            }
        }
    }

    /// Unregisters the key. Removing an absent key changes nothing and
    /// reports that nothing was found.
    pub fn remove(&mut self, key: &String) -> (found: bool)
        requires
            old(self).wf(),
        ensures
            final(self).wf(),
            found == old(self)@.contains_key(key@),
            final(self)@ == old(self)@.remove(key@),
    {
        let ghost old_self = *self;
        let ghost k = key@;
        match self.find_index(key) {
            Some(i) => {
                proof {
                    old_self.lemma_entry(i as int);
                }
                self.entries.remove(i);
                proof {
                    let n = self.entries@.len();
                    assert(forall|j: int| 0 <= j < i ==> (#[trigger] self.entries@[j])
                        == old_self.entries@[j]);
                    assert(forall|j: int| i <= j < n ==> (#[trigger] self.entries@[j])
                        == old_self.entries@[j + 1]);
                    assert(self.wf());
                    assert_maps_equal!(self@, old_self@.remove(k), kk => {
                        if kk == k {
                            assert(forall|j: int| 0 <= j < n
                                ==> (#[trigger] self.entries@[j]).0@ != k);
                            assert(!self.dom_pred(kk));
                        } else {
                            if old_self.dom_pred(kk) {
                                let j = old_self.idx_of(kk);
                                old_self.lemma_entry(j);
                                if j < i {
                                    self.lemma_entry(j);
                                } else {
                                    assert(j != i);
                                    assert(self.entries@[j - 1] == old_self.entries@[j]);
                                    self.lemma_entry(j - 1);
                                }
                            }
                            if self.dom_pred(kk) {
                                let j = self.idx_of(kk);
                                self.lemma_entry(j);
                                if j < i {
                                    old_self.lemma_entry(j);
                                } else {
                                    old_self.lemma_entry(j + 1);
                                }
                            }
                        }
                    });
                }
                true
            }
            None => {
                proof {
                    assert_maps_equal!(self@, old_self@.remove(k), kk => {});
                }
                false
            }
        }
    }

    /// A decoupled snapshot of the whole registry, projected to the record a
    /// listing request returns: every registered key appears exactly once,
    /// with the projection of its state at the time of the call.
    pub fn snapshot(&self) -> (r: Vec<(String, RtspResponse)>)
        requires
            self.wf(),
        ensures
            is_snapshot_of(r@, self@),
    {
        let mut r: Vec<(String, RtspResponse)> = Vec::new();
        let mut i: usize = 0;
        while i < self.entries.len()
            invariant
                self.wf(),
                i <= self.entries@.len(),
                r@.len() == i,
                forall|j: int|
                    0 <= j < i ==> (#[trigger] r@[j]).0@ == self.entries@[j].0@ && r@[j].1@
                        == project(self.entries@[j].1@),
            decreases self.entries@.len() - i,
        {
            let key = self.entries[i].0.clone();
            let resp = to_response(&self.entries[i].1);
            r.push((key, resp));
            i = i + 1;
        }
        proof {
            assert forall|j: int| 0 <= j < r@.len() implies self@.contains_key(
                (#[trigger] r@[j]).0@,
            ) && r@[j].1@ == project(self@[r@[j].0@]) by {
                self.lemma_entry(j);
            }
            assert forall|k: Seq<char>| self@.contains_key(k) implies exists|j: int|
                0 <= j < r@.len() && (#[trigger] r@[j]).0@ == k by {
                let j = self.idx_of(k);
                assert(0 <= j < self.entries@.len() && self.entries@[j].0@ == k);
                assert(r@[j].0@ == k);
            }
        }
        r
    }
}

impl View for Registry {
    type V = Map<Seq<char>, SessionStateView>;

    closed spec fn view(&self) -> Map<Seq<char>, SessionStateView> {
        Map::new(
            |k: Seq<char>| self.dom_pred(k),
            |k: Seq<char>| self.entries@[self.idx_of(k)].1@,
        )
    }
}

} // verus!
