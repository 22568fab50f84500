//! The registry of outstanding interactive requests.
//!
//! A request is entered under its key before the question leaves the worker,
//! and is taken out when the answer arrives. What is entered is the slot
//! through which the answer reaches the task that waits for it.

use crate::ident::AgentTreeRequestKey;
use crate::ident::RequestKeyView;
use vstd::prelude::*;

verus! {

/// One outstanding request.
pub struct Pending<S> {
    pub key: AgentTreeRequestKey,
    pub slot: S,
}

/// The slots by key, the later of two entries with one key taking precedence.
pub open spec fn pending_view<S>(entries: Seq<Pending<S>>) -> Map<RequestKeyView, S>
    decreases entries.len(),
{
    if entries.len() == 0 {
        Map::empty()
    } else {
        pending_view(entries.drop_last()).insert(entries.last().key@, entries.last().slot)
    }
}

/// Whether no two entries bear the same key.
pub open spec fn distinct_keys<S>(entries: Seq<Pending<S>>) -> bool {
    forall|i: int, j: int|
        0 <= i < j < entries.len() ==> (#[trigger] entries[i]).key@ != (#[trigger] entries[j]).key@
}

/// A key that no entry bears is not in the map.
pub proof fn lemma_pending_absent<S>(entries: Seq<Pending<S>>, key: RequestKeyView)
    requires
        forall|j: int| 0 <= j < entries.len() ==> (#[trigger] entries[j]).key@ != key,
    ensures
        !pending_view(entries).contains_key(key),
    decreases entries.len(),
{
    if entries.len() > 0 {
        let earlier = entries.drop_last();
        assert forall|j: int| 0 <= j < earlier.len() implies (#[trigger] earlier[j]).key@
            != key by {
            assert(earlier[j] == entries[j]);
        }
        lemma_pending_absent(earlier, key);
        assert(entries.last() == entries[entries.len() - 1]);
    }
}

/// The map holds every entry's key.
pub proof fn lemma_pending_present<S>(entries: Seq<Pending<S>>, at: int)
    requires
        0 <= at < entries.len(),
    ensures
        pending_view(entries).contains_key(entries[at].key@),
    decreases entries.len(),
{
    if at < entries.len() - 1 {
        lemma_pending_present(entries.drop_last(), at);
    }
}

/// The number of keys is the number of entries where the keys are distinct.
pub proof fn lemma_pending_len<S>(entries: Seq<Pending<S>>)
    requires
        distinct_keys(entries),
    ensures
        pending_view(entries).dom().finite(),
        pending_view(entries).len() == entries.len(),
    decreases entries.len(),
{
    if entries.len() > 0 {
        let earlier = entries.drop_last();
        assert(distinct_keys(earlier)) by {
            assert forall|i: int, j: int| 0 <= i < j < earlier.len() implies (
            #[trigger] earlier[i]).key@ != (#[trigger] earlier[j]).key@ by {
                assert(earlier[i] == entries[i]);
                assert(earlier[j] == entries[j]);
            }
        }
        lemma_pending_len(earlier);
        assert forall|j: int| 0 <= j < earlier.len() implies (#[trigger] earlier[j]).key@
            != entries.last().key@ by {
            assert(earlier[j] == entries[j]);
            assert(entries.last() == entries[entries.len() - 1]);
        }
        lemma_pending_absent(earlier, entries.last().key@);
    }
}

/// Taking one entry out of entries with distinct keys takes its key out of the
/// map and leaves the rest of the map as it was.
pub proof fn lemma_pending_remove<S>(entries: Seq<Pending<S>>, at: int)
    requires
        0 <= at < entries.len(),
        distinct_keys(entries),
    ensures
        pending_view(entries).contains_key(entries[at].key@),
        pending_view(entries)[entries[at].key@] == entries[at].slot,
        pending_view(entries.remove(at)) == pending_view(entries).remove(entries[at].key@),
        distinct_keys(entries.remove(at)),
    decreases entries.len(),
{
    let key = entries[at].key@;
    let earlier = entries.drop_last();
    let last = entries.len() - 1;
    assert(entries.last() == entries[last]);
    assert(distinct_keys(entries.remove(at))) by {
        let after = entries.remove(at);
        assert forall|i: int, j: int| 0 <= i < j < after.len() implies (#[trigger] after[i]).key@
            != (#[trigger] after[j]).key@ by {
            let i0 = if i < at { i } else { i + 1 };
            let j0 = if j < at { j } else { j + 1 };
            assert(after[i] == entries[i0]);
            assert(after[j] == entries[j0]);
        }
    }
    if at == last {
        assert(entries.remove(at) =~= earlier);
        assert forall|j: int| 0 <= j < earlier.len() implies (#[trigger] earlier[j]).key@
            != key by {
            assert(earlier[j] == entries[j]);
        }
        lemma_pending_absent(earlier, key);
        assert(pending_view(earlier) =~= pending_view(entries).remove(key));
    } else {
        assert(distinct_keys(earlier)) by {
            assert forall|i: int, j: int| 0 <= i < j < earlier.len() implies (
            #[trigger] earlier[i]).key@ != (#[trigger] earlier[j]).key@ by {
                assert(earlier[i] == entries[i]);
                assert(earlier[j] == entries[j]);
            }
        }
        assert(earlier[at] == entries[at]);
        lemma_pending_remove(earlier, at);
        let after = entries.remove(at);
        assert(after.drop_last() =~= earlier.remove(at));
        assert(after.last() == entries.last());
        assert(entries[last].key@ != key);
        assert(pending_view(after) =~= pending_view(entries).remove(key));
    }
}

/// The outstanding requests of one kind, each with its slot.
pub struct PendingRegistry<S> {
    entries: Vec<Pending<S>>,
}

impl<S> View for PendingRegistry<S> {
    type V = Map<RequestKeyView, S>;

    closed spec fn view(&self) -> Map<RequestKeyView, S> {
        pending_view(self.entries@)
    }
}

impl<S> PendingRegistry<S> {
    /// Whether no key is entered twice. Every registry that `new` made and
    /// that only the methods below changed is well formed.
    pub closed spec fn well_formed(&self) -> bool {
        distinct_keys(self.entries@)
    }

    /// A registry without requests.
    pub fn new() -> (registry: Self)
        ensures
            registry.well_formed(),
            registry@ == Map::<RequestKeyView, S>::empty(),
    {
        PendingRegistry { entries: Vec::new() }
    }

    /// The number of outstanding requests.
    pub fn len(&self) -> (count: usize)
        requires
            self.well_formed(),
        ensures
            self@.dom().finite(),
            count == self@.len(),
    {
        proof {
            lemma_pending_len(self.entries@);
        }
        self.entries.len()
    }

    fn position(&self, key: &AgentTreeRequestKey) -> (at: Option<usize>)
        ensures
            match at {
                Some(i) => i < self.entries.len() && self.entries@[i as int].key@ == key@,
                None => forall|j: int|
                    0 <= j < self.entries.len() ==> (#[trigger] self.entries@[j]).key@ != key@,
            },
    {
        let mut i: usize = 0;
        while i < self.entries.len()
            invariant
                i <= self.entries.len(),
                forall|j: int| 0 <= j < i ==> (#[trigger] self.entries@[j]).key@ != key@,
            decreases self.entries.len() - i,
        {
            if self.entries[i].key.same(key) {
                return Some(i);
            }
            i = i + 1;
        }
        None
    }

    /// Whether a request is outstanding under `key`.
    pub fn contains(&self, key: &AgentTreeRequestKey) -> (present: bool)
        ensures
            present == self@.contains_key(key@),
    {
        match self.position(key) {
            Some(i) => {
                proof {
                    lemma_pending_present(self.entries@, i as int);
                }
                true
            },
            None => {
                proof {
                    lemma_pending_absent(self.entries@, key@);
                }
                false
            },
        }
    }

    /// Enters a request. To enter a key twice is an error of the caller.
    pub fn insert(&mut self, key: AgentTreeRequestKey, slot: S)
        requires
            old(self).well_formed(),
            !old(self)@.contains_key(key@),
        ensures
            final(self).well_formed(),
            final(self)@ == old(self)@.insert(key@, slot),
    {
        let ghost before = self.entries@;
        let entry = Pending { key, slot };
        proof {
            assert(before.push(entry).drop_last() =~= before);
            assert forall|i: int, j: int| 0 <= i < j < before.len() + 1 implies (
            #[trigger] before.push(entry)[i]).key@ != (#[trigger] before.push(entry)[j]).key@ by {
                if j == before.len() {
                    lemma_pending_present(before, i);
                }
            }
        }
        self.entries.push(entry);
    }

    /// Takes out every request. Their slots are dropped.
    pub fn clear(&mut self)
        requires
            old(self).well_formed(),
        ensures
            final(self).well_formed(),
            final(self)@ == Map::<RequestKeyView, S>::empty(),
    {
        self.entries = Vec::new();
    }

    /// Takes out the request under `key` and hands back its slot. Where none
    /// is outstanding under it, nothing changes.
    pub fn take(&mut self, key: &AgentTreeRequestKey) -> (slot: Option<S>)
        requires
            old(self).well_formed(),
        ensures
            final(self).well_formed(),
            final(self)@ == old(self)@.remove(key@),
            slot == if old(self)@.contains_key(key@) {
                Some(old(self)@[key@])
            } else {
                None
            },
    {
        match self.position(key) {
            Some(i) => {
                proof {
                    lemma_pending_remove(self.entries@, i as int);
                }
                let entry = self.entries.remove(i);
                Some(entry.slot)
            },
            None => {
                proof {
                    lemma_pending_absent(self.entries@, key@);
                    assert(self@.remove(key@) =~= self@);
                }
                None
            },
        }
    }
}

/// A request that was entered and is then taken out comes back with the slot
/// it was entered with, and the registry is as it was before.
pub proof fn lemma_insert_then_take<S>(
    before: Map<RequestKeyView, S>,
    key: RequestKeyView,
    slot: S,
)
    requires
        !before.contains_key(key),
    ensures
        before.insert(key, slot).contains_key(key),
        before.insert(key, slot)[key] == slot,
        before.insert(key, slot).remove(key) == before,
{
    assert(before.insert(key, slot).remove(key) =~= before);
}

/// Taking out a key that is not there changes nothing.
pub proof fn lemma_take_absent<S>(before: Map<RequestKeyView, S>, key: RequestKeyView)
    requires
        !before.contains_key(key),
    ensures
        before.remove(key) == before,
{
    assert(before.remove(key) =~= before);
}

/// Once a key was taken out it is gone: a second taking finds nothing and
/// changes nothing.
pub proof fn lemma_take_twice<S>(before: Map<RequestKeyView, S>, key: RequestKeyView)
    ensures
        !before.remove(key).contains_key(key),
        before.remove(key).remove(key) == before.remove(key),
{
    assert(before.remove(key).remove(key) =~= before.remove(key));
}

} // verus!
