//! The account store: the key-value state that the registry reads and writes.
//!
//! An [`AccountStore`] holds, in memory, the entries that an operation works
//! on: all accounts, or those that a caller has brought in from a state of
//! its own (see [`crate::reads`]). Keys are byte strings. A value is either
//! an account, kept under the key of its id, or an id, kept under the key of
//! an address. The store offers `get` and `put` and nothing else: there is
//! no removal and no enumeration.

use crate::account::{Account, AccountView, Id};
use crate::framing::bytes_equal;
use vstd::prelude::*;

verus! {

/// A value kept in the store.
#[derive(Debug)]
pub enum StoredValue {
    /// An account, as the id index holds it.
    Account(Account),
    /// The id bound to an address, as the address index holds it.
    Id(Id),
}

/// The mathematical value of a [`StoredValue`].
pub enum Stored {
    Account(AccountView),
    Id(Seq<char>),
}

impl View for StoredValue {
    type V = Stored;

    open spec fn view(&self) -> Stored {
        match self {
            StoredValue::Account(account) => Stored::Account(account@),
            StoredValue::Id(id) => Stored::Id(id@),
        }
    }
}

/// The mathematical value of a store: a map from keys to values.
pub type StoreMap = Map<Seq<u8>, Stored>;

/// One entry of the store.
#[derive(Debug)]
struct Entry {
    key: Vec<u8>,
    value: StoredValue,
}

/// An in-memory key-value store with `get` and `put`.
#[derive(Debug)]
pub struct AccountStore {
    entries: Vec<Entry>,
}

/// The map that a sequence of entries stands for. A later entry for a key
/// hides the earlier ones.
spec fn entries_map(entries: Seq<Entry>) -> StoreMap
    decreases entries.len(),
{
    if entries.len() == 0 {
        Map::empty()
    } else {
        entries_map(entries.drop_last()).insert(entries.last().key@, entries.last().value@)
    }
}

/// True when `i` is the place of the last entry for `key`.
spec fn is_last_entry(entries: Seq<Entry>, key: Seq<u8>, i: int) -> bool {
    &&& 0 <= i < entries.len()
    &&& entries[i].key@ == key
    &&& forall|j: int| i < j < entries.len() ==> (#[trigger] entries[j]).key@ != key
}

/// A key that no entry has is not in the map.
proof fn lemma_entries_map_absent(entries: Seq<Entry>, key: Seq<u8>)
    requires
        forall|j: int| 0 <= j < entries.len() ==> (#[trigger] entries[j]).key@ != key,
    ensures
        !entries_map(entries).contains_key(key),
    decreases entries.len(),
{
    if entries.len() > 0 {
        let rest = entries.drop_last();
        lemma_entries_map_absent(rest, key);
    }
}

/// The map holds for a key the value of the last entry for it.
proof fn lemma_entries_map_last(entries: Seq<Entry>, key: Seq<u8>, i: int)
    requires
        is_last_entry(entries, key, i),
    ensures
        entries_map(entries).contains_key(key),
        entries_map(entries)[key] == entries[i].value@,
    decreases entries.len(),
{
    let n = entries.len() as int;
    if i < n - 1 {
        let rest = entries.drop_last();
        lemma_entries_map_last(rest, key, i);
    }
}

/// Replacing the last entry for a key by another for the same key writes
/// the new value under that key and changes nothing else.
proof fn lemma_entries_map_update(entries: Seq<Entry>, key: Seq<u8>, i: int, entry: Entry)
    requires
        is_last_entry(entries, key, i),
        entry.key@ == key,
    ensures
        entries_map(entries.update(i, entry)) == entries_map(entries).insert(key, entry.value@),
    decreases entries.len(),
{
    let n = entries.len() as int;
    let updated = entries.update(i, entry);
    if i == n - 1 {
        assert(updated.drop_last() =~= entries.drop_last());
    } else {
        let rest = entries.drop_last();
        lemma_entries_map_update(rest, key, i, entry);
        assert(updated.drop_last() =~= rest.update(i, entry));
    }
}

impl View for AccountStore {
    type V = StoreMap;

    closed spec fn view(&self) -> StoreMap {
        entries_map(self.entries@)
    }
}

impl AccountStore {
    /// Creates an empty store.
    pub fn new() -> (store: Self)
        ensures
            store@ == Map::<Seq<u8>, Stored>::empty(),
    {
        AccountStore { entries: Vec::new() }
    }

    /// Finds the place of the last entry for `key`.
    fn find(&self, key: &[u8]) -> (place: Option<usize>)
        ensures
            match place {
                Some(i) => is_last_entry(self.entries@, key@, i as int),
                None => forall|j: int|
                    0 <= j < self.entries@.len() ==> (#[trigger] self.entries@[j]).key@ != key@,
            },
    {
        let mut i: usize = self.entries.len();
        while i > 0
            invariant
                i <= self.entries@.len(),
                forall|j: int|
                    i <= j < self.entries@.len() ==> (#[trigger] self.entries@[j]).key@ != key@,
            decreases i,
        {
            i = i - 1;
            if bytes_equal(self.entries[i].key.as_slice(), key) {
                return Some(i);
            }
        }
        None
    }

    /// Reads the value kept under `key`, if there is one.
    pub fn get(&self, key: &[u8]) -> (value: Option<&StoredValue>)
        ensures
            match value {
                Some(v) => self@.contains_key(key@) && self@[key@] == v@,
                None => !self@.contains_key(key@),
            },
    {
        match self.find(key) {
            Some(i) => {
                proof {
                    lemma_entries_map_last(self.entries@, key@, i as int);
                }
                Some(&self.entries[i].value)
            },
            None => {
                proof {
                    lemma_entries_map_absent(self.entries@, key@);
                }
                None
            },
        }
    }

    /// Writes `value` under `key`, in place of what was kept there.
    pub fn put(&mut self, key: Vec<u8>, value: StoredValue)
        ensures
            final(self)@ == old(self)@.insert(key@, value@),
    {
        let place = self.find(key.as_slice());
        let entry = Entry { key, value };
        match place {
            Some(i) => {
                proof {
                    lemma_entries_map_update(self.entries@, entry.key@, i as int, entry);
                }
                self.entries.set(i, entry);
            },
            None => {
                proof {
                    assert(self.entries@.push(entry).drop_last() =~= self.entries@);
                }
                self.entries.push(entry);
            },
        }
    }
}

} // verus!
