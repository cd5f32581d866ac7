//! A store of values keyed by address: what the contracts keep per
//! participant. A key holds one value; storing under a key that is present
//! replaces the value and keeps the order of the entries.
use vstd::prelude::*;
use crate::chain::HumanAddr;

verus! {

/// One stored value and the address it is stored under.
#[derive(Clone, Debug, PartialEq, Eq)]
pub struct Entry<V> {
    pub key: HumanAddr,
    pub value: V,
}

/// Values keyed by address. Of several entries under one key only the first
/// is read and written.
#[derive(Clone, Debug, PartialEq, Eq)]
pub struct KeyedStore<V> {
    pub entries: Vec<Entry<V>>,
}

/// Position of the first entry under `key`, or the number of entries when
/// there is none.
pub open spec fn index_of<V>(entries: Seq<Entry<V>>, key: Seq<char>) -> int
    decreases entries.len(),
{
    if entries.len() == 0 {
        0
    } else if entries[0].key@ == key {
        0
    } else {
        1 + index_of(entries.drop_first(), key)
    }
}

/// Whether a value is stored under `key`.
pub open spec fn has_key<V>(entries: Seq<Entry<V>>, key: Seq<char>) -> bool {
    index_of(entries, key) < entries.len()
}

/// The value stored under `key`.
pub open spec fn value_at<V>(entries: Seq<Entry<V>>, key: Seq<char>) -> Option<V> {
    if has_key(entries, key) {
        Some(entries[index_of(entries, key)].value)
    } else {
        None
    }
}

/// The entries after `value` is stored under `key`.
pub open spec fn with_value<V>(entries: Seq<Entry<V>>, key: HumanAddr, value: V) -> Seq<Entry<V>> {
    if has_key(entries, key@) {
        entries.update(
            index_of(entries, key@),
            Entry { key: entries[index_of(entries, key@)].key, value },
        )
    } else {
        entries.push(Entry { key, value })
    }
}

/// `index_of` is the least position whose key is `key`.
pub proof fn lemma_index_of<V>(entries: Seq<Entry<V>>, key: Seq<char>)
    ensures
        0 <= index_of(entries, key) <= entries.len(),
        has_key(entries, key) ==> entries[index_of(entries, key)].key@ == key,
        forall|j: int| 0 <= j < index_of(entries, key) ==> (#[trigger] entries[j]).key@ != key,
    decreases entries.len(),
{
    if entries.len() > 0 && entries[0].key@ != key {
        let rest = entries.drop_first();
        lemma_index_of(rest, key);
        assert forall|j: int| 0 <= j < index_of(entries, key) implies (#[trigger] entries[j]).key@
            != key by {
            if j > 0 {
                assert(entries[j] == rest[j - 1]);
            }
        }
        if has_key(entries, key) {
            assert(entries[index_of(entries, key)] == rest[index_of(rest, key)]);
        }
    }
}

/// A position whose key is `key`, with no such key before it, is `index_of`.
pub proof fn lemma_first_match<V>(entries: Seq<Entry<V>>, key: Seq<char>, i: int)
    requires
        0 <= i <= entries.len(),
        i < entries.len() ==> entries[i].key@ == key,
        forall|j: int| 0 <= j < i ==> (#[trigger] entries[j]).key@ != key,
    ensures
        index_of(entries, key) == i,
{
    lemma_index_of(entries, key);
    let k = index_of(entries, key);
    if k < i {
        assert(entries[k].key@ != key);
    }
}

/// Reading back what was stored: the key that was written holds the new
/// value, and every other key holds what it held.
pub proof fn lemma_with_value_reads<V>(
    entries: Seq<Entry<V>>,
    key: HumanAddr,
    value: V,
    other: Seq<char>,
)
    ensures
        value_at(with_value(entries, key, value), key@) == Some(value),
        other != key@ ==> value_at(with_value(entries, key, value), other) == value_at(
            entries,
            other,
        ),
{
    let after = with_value(entries, key, value);
    let i = index_of(entries, key@);
    let o = index_of(entries, other);
    lemma_index_of(entries, key@);
    lemma_index_of(entries, other);
    assert forall|j: int| 0 <= j < i implies (#[trigger] after[j]).key@ != key@ by {
        assert(after[j] == entries[j]);
    }
    lemma_first_match(after, key@, i);
    if other != key@ {
        assert forall|j: int| 0 <= j < o implies (#[trigger] after[j]).key@ != other by {
            assert(after[j].key@ == entries[j].key@);
        }
        if o < entries.len() {
            assert(after[o].key@ == entries[o].key@);
            lemma_first_match(after, other, o);
            assert(after[o].value == entries[o].value);
        } else {
            assert(after.len() >= o);
            if after.len() > o {
                assert(after[o].key@ == key@);
            }
            assert forall|j: int| 0 <= j < after.len() implies (#[trigger] after[j]).key@
                != other by {
                if j < o {
                    assert(after[j].key@ == entries[j].key@);
                }
            }
            lemma_first_match(after, other, after.len() as int);
        }
    }
}

impl<V> KeyedStore<V> {
    /// A store with no entries.
    pub fn new() -> (res: Self)
        ensures
            res.entries@.len() == 0,
    {
        KeyedStore { entries: Vec::new() }
    }

    /// Position of the first entry under `key`, if there is one.
    pub fn position(&self, key: &HumanAddr) -> (res: Option<usize>)
        ensures
            match res {
                Some(i) => has_key(self.entries@, key@) && i as int == index_of(
                    self.entries@,
                    key@,
                ),
                None => !has_key(self.entries@, key@),
            },
    {
        let mut i: usize = 0;
        while i < self.entries.len()
            invariant
                i <= self.entries@.len(),
                forall|j: int| 0 <= j < i ==> (#[trigger] self.entries@[j]).key@ != key@,
            decreases self.entries@.len() - i,
        {
            if self.entries[i].key.same_as(key) {
                proof {
                    lemma_first_match(self.entries@, key@, i as int);
                }
                return Some(i);
            }
            i += 1;
        }
        proof {
            lemma_first_match(self.entries@, key@, i as int);
        }
        None
    }

    /// The value stored under `key`, if there is one.
    pub fn get(&self, key: &HumanAddr) -> (res: Option<&V>)
        ensures
            match res {
                Some(v) => value_at(self.entries@, key@) == Some(*v),
                None => value_at(self.entries@, key@) is None,
            },
    {
        match self.position(key) {
            Some(i) => Some(&self.entries[i].value),
            None => None,
        }
    }

    /// Stores `value` under `key`, in place of what was stored there.
    pub fn set(&mut self, key: HumanAddr, value: V)
        ensures
            final(self).entries@ == with_value(old(self).entries@, key, value),
    {
        match self.position(&key) {
            Some(i) => {
                self.entries[i].value = value;
                assert(self.entries@ =~= with_value(old(self).entries@, key, value));
            },
            None => {
                self.entries.push(Entry { key, value });
            },
        }
    }
}

} // verus!
