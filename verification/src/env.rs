//! The environment: scoped configuration that every pass reads.

use vstd::prelude::*;

verus! {

/// What an environment entry holds.
#[derive(Clone, Copy, Debug, PartialEq, Eq, Structural)]
pub enum Value {
    Bool(bool),
    Int(i64),
    UnsignedInt(u64),
}

/// One entry of an environment.
#[derive(Clone, Copy, Debug)]
pub struct Entry {
    pub key: u64,
    pub value: Value,
}

/// A mapping from keys to values, kept in ascending order of the keys.
///
/// An environment has no identity beyond the mapping it holds. A pass hands
/// it down by shared reference; a node that wants its subtree to see other
/// values changes a copy.
pub struct Env {
    entries: Vec<Entry>,
}

/// Each key is smaller than every key after it.
pub open spec fn ascending(entries: Seq<Entry>) -> bool {
    forall|i: int, j: int| 0 <= i < j < entries.len() ==> entries[i].key < entries[j].key
}

/// Whether some entry of `entries` has the key `key`.
pub open spec fn has_key(entries: Seq<Entry>, key: u64) -> bool {
    exists|i: int| 0 <= i < entries.len() && #[trigger] entries[i].key == key
}

/// The position of an entry of `entries` with the key `key`.
pub open spec fn position_of(entries: Seq<Entry>, key: u64) -> int {
    choose|i: int| 0 <= i < entries.len() && #[trigger] entries[i].key == key
}

/// The mapping that a list of entries stands for.
pub open spec fn mapping_of(entries: Seq<Entry>) -> Map<u64, Value> {
    Map::new(|key: u64| has_key(entries, key), |key: u64| entries[position_of(entries, key)].value)
}

proof fn lemma_entry_found(entries: Seq<Entry>, i: int)
    requires
        ascending(entries),
        0 <= i < entries.len(),
    ensures
        has_key(entries, entries[i].key),
        position_of(entries, entries[i].key) == i,
        mapping_of(entries).contains_key(entries[i].key),
        mapping_of(entries)[entries[i].key] == entries[i].value,
{
    let key = entries[i].key;
    let p = position_of(entries, key);
    assert(0 <= p < entries.len() && entries[p].key == key);
    if p < i {
        assert(entries[p].key < entries[i].key);
    } else if i < p {
        assert(entries[i].key < entries[p].key);
    }
}

impl View for Env {
    type V = Map<u64, Value>;

    closed spec fn view(&self) -> Map<u64, Value> {
        mapping_of(self.entries@)
    }
}

impl Env {
    #[verifier::type_invariant]
    spec fn ordered(&self) -> bool {
        ascending(self.entries@)
    }

    /// An environment without entries.
    pub fn new() -> (env: Env)
        ensures
            env@ == Map::<u64, Value>::empty(),
    {
        let env = Env { entries: Vec::new() };
        proof {
            assert(env@ =~= Map::<u64, Value>::empty());
        }
        env
    }

    /// The number of entries.
    pub fn len(&self) -> (n: usize)
        ensures
            n == self@.dom().len(),
            self@.dom().finite(),
    {
        proof {
            use_type_invariant(self);
            lemma_domain_size(self.entries@);
        }
        self.entries.len()
    }

    /// The value under `key`, if the environment has one.
    pub fn get(&self, key: u64) -> (found: Option<Value>)
        ensures
            found == (if self@.contains_key(key) {
                Some(self@[key])
            } else {
                None
            }),
    {
        proof {
            use_type_invariant(self);
        }
        let mut i: usize = 0;
        while i < self.entries.len()
            invariant
                i <= self.entries.len(),
                ascending(self.entries@),
                forall|j: int| 0 <= j < i ==> self.entries[j].key < key,
            decreases self.entries.len() - i,
        {
            let entry = self.entries[i];
            if entry.key == key {
                proof {
                    lemma_entry_found(self.entries@, i as int);
                }
                return Some(entry.value);
            }
            if entry.key > key {
                proof {
                    if has_key(self.entries@, key) {
                        let p = position_of(self.entries@, key);
                        if p > i {
                            assert(self.entries[i as int].key < self.entries[p].key);
                        }
                    }
                }
                return None;
            }
            i += 1;
        }
        proof {
            if has_key(self.entries@, key) {
                let p = position_of(self.entries@, key);
                assert(self.entries[p].key < key);
            }
        }
        None
    }

    /// Puts `value` under `key`, in place of what was there.
    pub fn set(&mut self, key: u64, value: Value)
        ensures
            final(self)@ == old(self)@.insert(key, value),
    {
        proof {
            use_type_invariant(&*self);
        }
        let ghost before = self.entries@;
        let mut taken = Env { entries: Vec::new() };
        core::mem::swap(self, &mut taken);
        let mut entries = taken.entries;
        let mut i: usize = 0;
        while i < entries.len() && entries[i].key < key
            invariant
                i <= entries.len(),
                entries@ == before,
                forall|j: int| 0 <= j < i ==> entries[j].key < key,
            decreases entries.len() - i,
        {
            i += 1;
        }
        let entry = Entry { key, value };
        if i < entries.len() && entries[i].key == key {
            entries.set(i, entry);
            proof {
                lemma_replaced(before, i as int, entry);
            }
        } else {
            entries.insert(i, entry);
            proof {
                lemma_inserted(before, i as int, entry);
            }
        }
        *self = Env { entries };
    }
}

impl Clone for Env {
    /// A copy that holds the same mapping.
    fn clone(&self) -> (copy: Env)
        ensures
            copy@ == self@,
    {
        proof {
            use_type_invariant(self);
        }
        let mut entries: Vec<Entry> = Vec::new();
        let mut i: usize = 0;
        while i < self.entries.len()
            invariant
                i <= self.entries.len(),
                entries@ == self.entries@.take(i as int),
            decreases self.entries.len() - i,
        {
            entries.push(self.entries[i]);
            proof {
                assert(self.entries@.take(i as int).push(self.entries[i as int])
                    == self.entries@.take(i + 1));
            }
            i += 1;
        }
        proof {
            assert(self.entries@.take(self.entries.len() as int) == self.entries@);
        }
        Env { entries }
    }
}

proof fn lemma_replaced(before: Seq<Entry>, at: int, entry: Entry)
    requires
        ascending(before),
        0 <= at < before.len(),
        before[at].key == entry.key,
    ensures
        ascending(before.update(at, entry)),
        mapping_of(before.update(at, entry)) == mapping_of(before).insert(entry.key, entry.value),
{
    let after = before.update(at, entry);
    assert(ascending(after)) by {
        assert forall|i: int, j: int| 0 <= i < j < after.len() implies after[i].key < after[j].key by {
            assert(before[i].key < before[j].key);
        }
    }
    assert forall|key: u64| has_key(after, key) == (has_key(before, key) || key == entry.key) by {
        if has_key(after, key) {
            let p = position_of(after, key);
            assert(before[p].key == key);
        }
        if has_key(before, key) {
            let p = position_of(before, key);
            assert(after[p].key == key);
        }
        if key == entry.key {
            assert(after[at].key == key);
        }
    }
    assert forall|key: u64| has_key(after, key) implies #[trigger] mapping_of(after)[key] == mapping_of(
        before,
    ).insert(entry.key, entry.value)[key] by {
        let p = position_of(after, key);
        lemma_entry_found(after, p);
        if key != entry.key {
            assert(before[p].key == key);
            lemma_entry_found(before, p);
        }
    }
    assert(mapping_of(after) =~= mapping_of(before).insert(entry.key, entry.value));
}

proof fn lemma_inserted(before: Seq<Entry>, at: int, entry: Entry)
    requires
        ascending(before),
        0 <= at <= before.len(),
        forall|j: int| 0 <= j < at ==> before[j].key < entry.key,
        at < before.len() ==> entry.key < before[at].key,
    ensures
        ascending(before.insert(at, entry)),
        mapping_of(before.insert(at, entry)) == mapping_of(before).insert(entry.key, entry.value),
{
    let after = before.insert(at, entry);
    assert(ascending(after)) by {
        assert forall|i: int, j: int| 0 <= i < j < after.len() implies after[i].key < after[j].key by {
            let bi = if i < at { i } else { i - 1 };
            let bj = if j < at { j } else { j - 1 };
            if i == at {
                assert(after[j] == before[j - 1]);
                if at < j - 1 {
                    assert(before[at].key < before[j - 1].key);
                }
            } else if j == at {
                assert(after[i] == before[i]);
            } else {
                assert(after[i] == before[bi]);
                assert(after[j] == before[bj]);
                assert(before[bi].key < before[bj].key);
            }
        }
    }
    assert forall|key: u64| has_key(after, key) == (has_key(before, key) || key == entry.key) by {
        if has_key(after, key) {
            let p = position_of(after, key);
            if p < at {
                assert(before[p].key == key);
            } else if p > at {
                assert(before[p - 1].key == key);
            }
        }
        if has_key(before, key) {
            let p = position_of(before, key);
            if p < at {
                assert(after[p].key == key);
            } else {
                assert(after[p + 1].key == key);
            }
        }
        if key == entry.key {
            assert(after[at].key == key);
        }
    }
    assert forall|key: u64| has_key(after, key) implies #[trigger] mapping_of(after)[key] == mapping_of(
        before,
    ).insert(entry.key, entry.value)[key] by {
        let p = position_of(after, key);
        lemma_entry_found(after, p);
        if key != entry.key {
            if p < at {
                assert(before[p].key == key);
                lemma_entry_found(before, p);
            } else {
                assert(before[p - 1].key == key);
                lemma_entry_found(before, p - 1);
            }
        }
    }
    assert(mapping_of(after) =~= mapping_of(before).insert(entry.key, entry.value));
}

proof fn lemma_domain_size(entries: Seq<Entry>)
    requires
        ascending(entries),
    ensures
        mapping_of(entries).dom().finite(),
        mapping_of(entries).dom().len() == entries.len(),
    decreases entries.len(),
{
    if entries.len() == 0 {
        assert(mapping_of(entries).dom() =~= Set::<u64>::empty());
    } else {
        let front = entries.drop_last();
        let last = entries.last();
        assert(ascending(front));
        lemma_domain_size(front);
        assert(entries == front.insert(front.len() as int, last));
        assert forall|j: int| 0 <= j < front.len() implies front[j].key < last.key by {
            assert(entries[j].key < entries[entries.len() - 1].key);
        }
        lemma_inserted(front, front.len() as int, last);
        if has_key(front, last.key) {
            let p = position_of(front, last.key);
            assert(entries[p].key < entries[entries.len() - 1].key);
        }
        assert(!mapping_of(front).dom().contains(last.key));
        assert(mapping_of(entries).dom() =~= mapping_of(front).dom().insert(last.key));
    }
}

} // verus!
