//! The category -> instance-collection map.
//!
//! Backed by a vector of pairs with pairwise-distinct keys; entries are
//! created and destroyed together with their category.

use vstd::prelude::*;
use crate::info::Info;
use crate::key::Key;
use crate::list::ListWidget;
use crate::widget::DiscoveryWidget;

verus! {

/// Maps each tracked category name to the collection of its resolved
/// instances.
#[derive(Debug)]
pub struct InstanceMap {
    /// The entries, keyed by category name; keys are pairwise distinct.
    pub entries: Vec<(String, ListWidget<Info>)>,
}

impl InstanceMap {
    /// Whether some entry is keyed by `k`.
    pub open spec fn has_key(&self, k: Seq<char>) -> bool {
        exists|i: int| 0 <= i < self.entries@.len() && self.entries@[i].0@ == k
    }

    /// The index of the entry keyed by `k`.
    pub open spec fn index_of_spec(&self, k: Seq<char>) -> int {
        choose|i: int| 0 <= i < self.entries@.len() && self.entries@[i].0@ == k
    }

    /// The collection keyed by `k`.
    pub open spec fn at_key(&self, k: Seq<char>) -> ListWidget<Info> {
        self.entries@[self.index_of_spec(k)].1
    }

    /// Keys are pairwise distinct and every collection is well formed.
    pub open spec fn wf(&self) -> bool {
        &&& forall|i: int, j: int|
            0 <= i < j < self.entries@.len() ==> self.entries@[i].0@ != self.entries@[j].0@
        &&& forall|i: int| 0 <= i < self.entries@.len() ==> (#[trigger] self.entries@[i].1).wf()
    }

    /// With distinct keys, an entry keyed by `k` at index `i` is the entry
    /// `index_of_spec` picks.
    pub proof fn lemma_index_of(&self, k: Seq<char>, i: int)
        requires
            self.wf(),
            0 <= i < self.entries@.len(),
            self.entries@[i].0@ == k,
        ensures
            self.index_of_spec(k) == i,
            self.has_key(k),
            self.at_key(k) == self.entries@[i].1,
    {
        let j = self.index_of_spec(k);
        assert(0 <= j < self.entries@.len() && self.entries@[j].0@ == k);
    }

    /// An empty map.
    pub fn new() -> (r: Self)
        ensures
            r.entries@.len() == 0,
            r.wf(),
    {
        InstanceMap { entries: Vec::new() }
    }

    /// The index of the entry keyed by `key`, if any.
    fn index_of(&self, key: &String) -> (r: Option<usize>)
        ensures
            match r {
                Some(i) => i < self.entries@.len() && self.entries@[i as int].0@ == key@,
                None => !self.has_key(key@),
            },
    {
        let mut k: usize = 0;
        while k < self.entries.len()
            invariant
                k <= self.entries@.len(),
                forall|j: int| 0 <= j < k ==> (#[trigger] self.entries@[j].0)@ != key@,
            decreases self.entries@.len() - k,
        {
            if self.entries[k].0 == *key {
                return Some(k);
            }
            k += 1;
        }
        None
    }

    /// Whether `key` names a tracked category.
    pub fn contains_key(&self, key: &String) -> (r: bool)
        requires
            self.wf(),
        ensures
            r == self.has_key(key@),
    {
        let r = self.index_of(key);
        proof {
            if let Some(i) = r {
                self.lemma_index_of(key@, i as int);
            }
        }
        r.is_some()
    }

    /// Creates (or replaces) the entry keyed by `key`.
    pub fn insert(&mut self, key: String, widget: ListWidget<Info>)
        requires
            old(self).wf(),
            widget.wf(),
        ensures
            final(self).wf(),
            final(self).has_key(key@),
            final(self).at_key(key@) == widget,
            if old(self).has_key(key@) {
                exists|i: int|
                    0 <= i < old(self).entries@.len() && old(self).entries@[i].0@ == key@
                        && final(self).entries@ == old(self).entries@.update(i, (key, widget))
            } else {
                final(self).entries@ == old(self).entries@.push((key, widget))
            },
    {
        let ghost pre = *self;
        let found = self.index_of(&key);
        match found {
            Some(i) => {
                proof {
                    pre.lemma_index_of(key@, i as int);
                }
                let e = &mut self.entries[i];
                *e = (key, widget);
                proof {
                    assert(self.entries@ == pre.entries@.update(i as int, self.entries@[i as int]));
                    self.lemma_index_of(key@, i as int);
                }
            },
            None => {
                self.entries.push((key, widget));
                proof {
                    self.lemma_index_of(key@, self.entries@.len() - 1);
                }
            },
        }
    }

    /// Drops the entry keyed by `key`, if any.
    pub fn remove(&mut self, key: &String)
        requires
            old(self).wf(),
        ensures
            final(self).wf(),
            !final(self).has_key(key@),
            if old(self).has_key(key@) {
                final(self).entries@ == old(self).entries@.remove(old(self).index_of_spec(key@))
            } else {
                *final(self) == *old(self)
            },
    {
        let ghost pre = *self;
        let found = self.index_of(key);
        match found {
            Some(i) => {
                proof {
                    pre.lemma_index_of(key@, i as int);
                }
                self.entries.remove(i);
                proof {
                    assert forall|j: int|
                        0 <= j < self.entries@.len() implies (#[trigger] self.entries@[j].0)@
                        != key@ by {
                        if j < i {
                            assert(self.entries@[j] == pre.entries@[j]);
                        } else {
                            assert(self.entries@[j] == pre.entries@[j + 1]);
                        }
                    }
                }
            },
            None => {},
        }
    }

    /// The collection keyed by `key`, if any.
    pub fn get(&self, key: &String) -> (r: Option<&ListWidget<Info>>)
        requires
            self.wf(),
        ensures
            match r {
                Some(w) => self.has_key(key@) && *w == self.at_key(key@),
                None => !self.has_key(key@),
            },
    {
        let found = self.index_of(key);
        match found {
            Some(i) => {
                proof {
                    self.lemma_index_of(key@, i as int);
                }
                Some(&self.entries[i].1)
            },
            None => None,
        }
    }

    /// Inserts a resolved instance into the collection keyed by `key`;
    /// a miss is a no-op.
    pub fn push_instance(&mut self, key: &String, item: Info)
        requires
            old(self).wf(),
        ensures
            final(self).wf(),
            if old(self).has_key(key@) {
                final(self).entries@ == old(self).entries@.update(
                    old(self).index_of_spec(key@),
                    (
                        old(self).entries@[old(self).index_of_spec(key@)].0,
                        final(self).at_key(key@),
                    ),
                ) && ListWidget::push_step(old(self).at_key(key@), item, final(self).at_key(key@))
            } else {
                *final(self) == *old(self)
            },
    {
        let ghost pre = *self;
        let found = self.index_of(key);
        match found {
            Some(i) => {
                proof {
                    pre.lemma_index_of(key@, i as int);
                }
                let e = &mut self.entries[i];
                e.1.push(item);
                proof {
                    self.lemma_index_of(key@, i as int);
                }
            },
            None => {},
        }
    }

    /// Removes the instance whose identity is `id` from the collection
    /// keyed by `key`; a miss is a no-op.
    pub fn remove_instance(&mut self, key: &String, id: &String)
        requires
            old(self).wf(),
        ensures
            final(self).wf(),
            if old(self).has_key(key@) {
                final(self).entries@ == old(self).entries@.update(
                    old(self).index_of_spec(key@),
                    (
                        old(self).entries@[old(self).index_of_spec(key@)].0,
                        final(self).at_key(key@),
                    ),
                ) && ListWidget::remove_step(old(self).at_key(key@), id@, final(self).at_key(key@))
            } else {
                *final(self) == *old(self)
            },
    {
        let ghost pre = *self;
        let found = self.index_of(key);
        match found {
            Some(i) => {
                proof {
                    pre.lemma_index_of(key@, i as int);
                }
                let e = &mut self.entries[i];
                e.1.remove(id);
                proof {
                    self.lemma_index_of(key@, i as int);
                }
            },
            None => {},
        }
    }

    /// Routes one key press to the collection keyed by `key`; a miss is a
    /// no-op.
    pub fn process_key_at(&mut self, key: &String, key_event: &Key)
        requires
            old(self).wf(),
        ensures
            final(self).wf(),
            if old(self).has_key(key@) {
                final(self).entries@ == old(self).entries@.update(
                    old(self).index_of_spec(key@),
                    (
                        old(self).entries@[old(self).index_of_spec(key@)].0,
                        final(self).at_key(key@),
                    ),
                ) && ListWidget::key_step(
                    old(self).at_key(key@),
                    *key_event,
                    final(self).at_key(key@),
                )
            } else {
                *final(self) == *old(self)
            },
    {
        let ghost pre = *self;
        let found = self.index_of(key);
        match found {
            Some(i) => {
                proof {
                    pre.lemma_index_of(key@, i as int);
                }
                let e = &mut self.entries[i];
                e.1.process_key_event(key_event);
                proof {
                    self.lemma_index_of(key@, i as int);
                }
            },
            None => {},
        }
    }
}

} // verus!
