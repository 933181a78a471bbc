//! What an operation reads from the persistent state, and what it writes.
//!
//! The registry works on an [`AccountStore`] in memory. A caller that keeps
//! the accounts in a state of its own brings the entries that an operation
//! works on into such a store, one read at a time: it asks which entry is
//! wanted next, reads that entry from its state and puts it, until nothing
//! more is wanted or the state does not hold the wanted entry. The store
//! then resolves the id or the address as the whole state does. After the
//! operation the caller writes the index entries of the account it answered
//! with to its state.

use crate::account::{Account, AccountView, Address, Id};
use crate::keys::{address_key, id_key, make_address_key, make_id_key};
use crate::registry::{
    account_of_address, account_of_id, bind, password_check, register_outcome,
    reset_address_outcome, reset_by_signature_outcome, reset_pass_outcome, shown,
};
use crate::signature::Recovery;
use crate::store::{AccountStore, StoreMap, Stored, StoredValue};
use vstd::prelude::*;

verus! {

/// The kind of value that an entry holds.
#[derive(Debug, Clone, Copy, PartialEq, Eq, Structural)]
pub enum ValueKind {
    /// An account, under the key of an id.
    Account,
    /// An id, under the key of an address.
    Id,
}

/// An entry to read from the persistent state.
#[derive(Debug)]
pub struct Read {
    /// The key of the entry.
    pub key: Vec<u8>,
    /// The kind of value kept under the key.
    pub kind: ValueKind,
}

/// An entry to write to the persistent state.
#[derive(Debug)]
pub struct Write {
    /// The key of the entry.
    pub key: Vec<u8>,
    /// The value to keep under the key.
    pub value: StoredValue,
}

/// The mathematical value of an optional read.
pub open spec fn wanted(read: Option<Read>) -> Option<(Seq<u8>, ValueKind)> {
    match read {
        Some(r) => Some((r.key@, r.kind)),
        None => None,
    }
}

/// The entry that resolving `id` wants next from a store: the entry under
/// the key of the id, then, where that is an account, the entry under the
/// key of the account's address.
pub open spec fn wanted_for_id(store: StoreMap, id: Seq<char>) -> Option<(Seq<u8>, ValueKind)> {
    if !store.contains_key(id_key(id)) {
        Some((id_key(id), ValueKind::Account))
    } else if store[id_key(id)] is Account && !store.contains_key(
        address_key(store[id_key(id)]->Account_0.current_address),
    ) {
        Some((address_key(store[id_key(id)]->Account_0.current_address), ValueKind::Id))
    } else {
        None
    }
}

/// The entry that resolving `address` wants next from a store: the entry
/// under the key of the address, then, where that is an id, what resolving
/// the id wants.
pub open spec fn wanted_for_address(store: StoreMap, address: Seq<u8>) -> Option<
    (Seq<u8>, ValueKind),
> {
    if !store.contains_key(address_key(address)) {
        Some((address_key(address), ValueKind::Id))
    } else if store[address_key(address)] is Id {
        wanted_for_id(store, store[address_key(address)]->Id_0)
    } else {
        None
    }
}

/// True when every entry of `snapshot` is an entry of `state`.
pub open spec fn is_snapshot(snapshot: StoreMap, state: StoreMap) -> bool {
    forall|key: Seq<u8>| #[trigger]
        snapshot.contains_key(key) ==> state.contains_key(key) && state[key] == snapshot[key]
}

/// True when a snapshot needs no further read: nothing is wanted, or the
/// state does not hold the wanted entry.
pub open spec fn is_settled(want: Option<(Seq<u8>, ValueKind)>, state: StoreMap) -> bool {
    match want {
        Some((key, _)) => !state.contains_key(key),
        None => true,
    }
}

/// A snapshot that needs no further read for an id resolves the id as the
/// state does.
pub proof fn lemma_snapshot_resolves_id(snapshot: StoreMap, state: StoreMap, id: Seq<char>)
    requires
        is_snapshot(snapshot, state),
        is_settled(wanted_for_id(snapshot, id), state),
    ensures
        account_of_id(snapshot, id) == account_of_id(state, id),
{
}

/// A snapshot that needs no further read for an address resolves the address
/// as the state does.
pub proof fn lemma_snapshot_resolves_address(
    snapshot: StoreMap,
    state: StoreMap,
    address: Seq<u8>,
)
    requires
        is_snapshot(snapshot, state),
        is_settled(wanted_for_address(snapshot, address), state),
    ensures
        account_of_address(snapshot, address) == account_of_address(state, address),
{
}

/// A snapshot that needs no further read for an id decides every operation
/// on that id as the state does.
pub proof fn lemma_snapshot_decides_id(
    snapshot: StoreMap,
    state: StoreMap,
    id: Seq<char>,
    pass: Seq<char>,
    new_pass: Seq<char>,
)
    requires
        is_snapshot(snapshot, state),
        is_settled(wanted_for_id(snapshot, id), state),
    ensures
        password_check(snapshot, id, pass) == password_check(state, id, pass),
        reset_pass_outcome(snapshot, id, pass, new_pass) == reset_pass_outcome(
            state,
            id,
            pass,
            new_pass,
        ),
        shown(snapshot, id, pass) == shown(state, id, pass),
{
}

/// A snapshot that needs no further read for an id and for an address
/// decides registration and rebinding of the two as the state does.
pub proof fn lemma_snapshot_decides_id_and_address(
    snapshot: StoreMap,
    state: StoreMap,
    id: Seq<char>,
    pass: Seq<char>,
    address: Seq<u8>,
)
    requires
        is_snapshot(snapshot, state),
        is_settled(wanted_for_id(snapshot, id), state),
        is_settled(wanted_for_address(snapshot, address), state),
    ensures
        register_outcome(snapshot, id, pass, address) == register_outcome(
            state,
            id,
            pass,
            address,
        ),
        reset_address_outcome(snapshot, id, pass, address) == reset_address_outcome(
            state,
            id,
            pass,
            address,
        ),
{
}

/// A snapshot that needs no further read for an address decides a reset by
/// signature on that address as the state does.
pub proof fn lemma_snapshot_decides_address(
    snapshot: StoreMap,
    state: StoreMap,
    address: Seq<u8>,
    new_id: Seq<char>,
    new_pass: Seq<char>,
    signature: Seq<u8>,
    recovery: Recovery,
)
    requires
        is_snapshot(snapshot, state),
        is_settled(wanted_for_address(snapshot, address), state),
    ensures
        reset_by_signature_outcome(snapshot, address, new_id, new_pass, signature, recovery)
            == reset_by_signature_outcome(state, address, new_id, new_pass, signature, recovery),
{
}

/// The store after the wanted entry, if any, has been put with `value`.
pub open spec fn after_read(
    store: StoreMap,
    want: Option<(Seq<u8>, ValueKind)>,
    value: Stored,
) -> StoreMap {
    match want {
        Some((key, _)) => store.insert(key, value),
        None => store,
    }
}

/// Resolving an id wants two reads at most, whatever they bring.
pub proof fn lemma_id_wants_two_reads(store: StoreMap, id: Seq<char>, first: Stored, second: Stored)
    ensures
        ({
            let one = after_read(store, wanted_for_id(store, id), first);
            let two = after_read(one, wanted_for_id(one, id), second);
            wanted_for_id(two, id) is None
        }),
{
}

/// Resolving an address wants three reads at most, whatever they bring.
pub proof fn lemma_address_wants_three_reads(
    store: StoreMap,
    address: Seq<u8>,
    first: Stored,
    second: Stored,
    third: Stored,
)
    ensures
        ({
            let one = after_read(store, wanted_for_address(store, address), first);
            let two = after_read(one, wanted_for_address(one, address), second);
            let three = after_read(two, wanted_for_address(two, address), third);
            wanted_for_address(three, address) is None
        }),
{
}

/// Putting an entry of the state into a snapshot leaves it a snapshot.
pub proof fn lemma_read_keeps_snapshot(snapshot: StoreMap, state: StoreMap, key: Seq<u8>)
    requires
        is_snapshot(snapshot, state),
        state.contains_key(key),
    ensures
        is_snapshot(snapshot.insert(key, state[key]), state),
{
}

/// Writing the same account to a snapshot and to the state leaves the one a
/// snapshot of the other.
pub proof fn lemma_write_keeps_snapshot(
    snapshot: StoreMap,
    state: StoreMap,
    account: AccountView,
)
    requires
        is_snapshot(snapshot, state),
    ensures
        is_snapshot(bind(snapshot, account), bind(state, account)),
{
}

/// Names the entry that resolving `id` wants next from `store`, if any. The
/// entry is one that the store does not hold yet.
pub fn next_read_for_id(store: &AccountStore, id: &Id) -> (read: Option<Read>)
    ensures
        wanted(read) == wanted_for_id(store@, id@),
        read matches Some(r) ==> !store@.contains_key(r.key@),
{
    let key = make_id_key(id);
    match store.get(key.as_slice()) {
        None => Some(Read { key, kind: ValueKind::Account }),
        Some(StoredValue::Account(account)) => {
            let bound = make_address_key(&account.current_address);
            match store.get(bound.as_slice()) {
                None => Some(Read { key: bound, kind: ValueKind::Id }),
                Some(_) => None,
            }
        },
        Some(StoredValue::Id(_)) => None,
    }
}

/// Names the entry that resolving `address` wants next from `store`, if
/// any. The entry is one that the store does not hold yet.
pub fn next_read_for_address(store: &AccountStore, address: &Address) -> (read: Option<Read>)
    ensures
        wanted(read) == wanted_for_address(store@, address@),
        read matches Some(r) ==> !store@.contains_key(r.key@),
{
    let key = make_address_key(address);
    match store.get(key.as_slice()) {
        None => Some(Read { key, kind: ValueKind::Id }),
        Some(StoredValue::Id(id)) => next_read_for_id(store, id),
        Some(StoredValue::Account(_)) => None,
    }
}

/// The two index entries of `account`: the account under the key of its
/// id, and its id under the key of its address.
pub fn index_entries(account: Account) -> (entries: (Write, Write))
    ensures
        entries.0.key@ == id_key(account@.id),
        entries.0.value@ == Stored::Account(account@),
        entries.1.key@ == address_key(account@.current_address),
        entries.1.value@ == Stored::Id(account@.id),
{
    let id = account.id.clone();
    let id_string = make_id_key(&account.id);
    let address_string = make_address_key(&account.current_address);
    (
        Write { key: id_string, value: StoredValue::Account(account) },
        Write { key: address_string, value: StoredValue::Id(id) },
    )
}

} // verus!
