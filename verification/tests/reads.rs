use secret_account::account::{Account, Address};
use secret_account::keys::{make_address_key, make_id_key};
use secret_account::reads::{
    index_entries, next_read_for_address, next_read_for_id, Read, ValueKind,
};
use secret_account::registry::Contract;
use secret_account::store::{AccountStore, StoredValue};

const HOME: Address = [0x11; 20];
const WORK: Address = [0x22; 20];

fn t(text: &str) -> String {
    text.to_string()
}

fn key_and_kind(read: Option<Read>) -> Option<(Vec<u8>, ValueKind)> {
    read.map(|r| (r.key, r.kind))
}

/// A state that holds carol at HOME and dave at WORK.
fn state() -> AccountStore {
    let mut state = AccountStore::new();
    Contract::register(&mut state, &t("carol"), &t("c"), &HOME).unwrap();
    Contract::register(&mut state, &t("dave"), &t("d"), &WORK).unwrap();
    state
}

fn copy(value: &StoredValue) -> StoredValue {
    match value {
        StoredValue::Account(account) => StoredValue::Account(account.clone()),
        StoredValue::Id(id) => StoredValue::Id(id.clone()),
    }
}

fn load_id(snapshot: &mut AccountStore, state: &AccountStore, id: &String) -> usize {
    let mut reads = 0;
    while let Some(read) = next_read_for_id(snapshot, id) {
        reads += 1;
        match state.get(&read.key) {
            Some(value) => snapshot.put(read.key, copy(value)),
            None => break,
        }
    }
    reads
}

fn load_address(snapshot: &mut AccountStore, state: &AccountStore, address: &Address) -> usize {
    let mut reads = 0;
    while let Some(read) = next_read_for_address(snapshot, address) {
        reads += 1;
        match state.get(&read.key) {
            Some(value) => snapshot.put(read.key, copy(value)),
            None => break,
        }
    }
    reads
}

#[test]
fn resolving_an_id_wants_its_entry_first() {
    let store = AccountStore::new();
    assert_eq!(
        key_and_kind(next_read_for_id(&store, &t("carol"))),
        Some((b"ID_carol".to_vec(), ValueKind::Account))
    );
}

#[test]
fn resolving_an_id_wants_the_binding_of_its_account_next() {
    let mut store = AccountStore::new();
    let carol = Account { id: t("carol"), pass: t("c"), current_address: HOME };
    store.put(make_id_key(&t("carol")), StoredValue::Account(carol));
    assert_eq!(
        key_and_kind(next_read_for_id(&store, &t("carol"))),
        Some((make_address_key(&HOME), ValueKind::Id))
    );
    store.put(make_address_key(&HOME), StoredValue::Id(t("carol")));
    assert_eq!(key_and_kind(next_read_for_id(&store, &t("carol"))), None);
}

#[test]
fn resolving_an_id_wants_nothing_after_an_entry_of_the_other_kind() {
    let mut store = AccountStore::new();
    store.put(make_id_key(&t("carol")), StoredValue::Id(t("carol")));
    assert_eq!(key_and_kind(next_read_for_id(&store, &t("carol"))), None);
}

#[test]
fn resolving_an_address_wants_its_binding_first() {
    let mut store = AccountStore::new();
    assert_eq!(
        key_and_kind(next_read_for_address(&store, &HOME)),
        Some((make_address_key(&HOME), ValueKind::Id))
    );
    store.put(make_address_key(&HOME), StoredValue::Id(t("carol")));
    assert_eq!(
        key_and_kind(next_read_for_address(&store, &HOME)),
        Some((b"ID_carol".to_vec(), ValueKind::Account))
    );
    let moved = Account { id: t("carol"), pass: t("c"), current_address: WORK };
    store.put(make_id_key(&t("carol")), StoredValue::Account(moved));
    assert_eq!(
        key_and_kind(next_read_for_address(&store, &HOME)),
        Some((make_address_key(&WORK), ValueKind::Id))
    );
    store.put(make_address_key(&WORK), StoredValue::Id(t("carol")));
    assert_eq!(key_and_kind(next_read_for_address(&store, &HOME)), None);
}

#[test]
fn index_entries_are_the_account_and_its_binding() {
    let carol = Account { id: t("carol"), pass: t("c"), current_address: HOME };
    let (kept, binding) = index_entries(carol.clone());
    assert_eq!(kept.key, b"ID_carol".to_vec());
    match kept.value {
        StoredValue::Account(account) => assert_eq!(account, carol),
        StoredValue::Id(_) => panic!("the id index holds the account"),
    }
    assert_eq!(binding.key, make_address_key(&HOME));
    match binding.value {
        StoredValue::Id(id) => assert_eq!(id, "carol"),
        StoredValue::Account(_) => panic!("the address index holds the id"),
    }
}

#[test]
fn a_loaded_store_resolves_as_the_state_does() {
    let state = state();
    for id in ["carol", "dave", "erin"] {
        let mut snapshot = AccountStore::new();
        let reads = load_id(&mut snapshot, &state, &t(id));
        assert!(reads <= 2);
        assert_eq!(Contract::get_by_id(&snapshot, &t(id)), Contract::get_by_id(&state, &t(id)));
    }
    for address in [HOME, WORK, [0x33; 20]] {
        let mut snapshot = AccountStore::new();
        let reads = load_address(&mut snapshot, &state, &address);
        assert!(reads <= 3);
        assert_eq!(
            Contract::get_by_address(&snapshot, &address),
            Contract::get_by_address(&state, &address)
        );
    }
}

#[test]
fn a_loaded_store_decides_as_the_state_does() {
    let mut state = state();
    for (id, address) in [("carol", WORK), ("erin", HOME), ("erin", [0x33; 20]), ("dave", WORK)] {
        let mut snapshot = AccountStore::new();
        load_id(&mut snapshot, &state, &t(id));
        load_address(&mut snapshot, &state, &address);
        let on_snapshot = Contract::register(&mut snapshot, &t(id), &t("e"), &address);
        let on_state = Contract::register(&mut state, &t(id), &t("e"), &address);
        assert_eq!(on_snapshot, on_state);
        assert_eq!(Contract::get_by_id(&snapshot, &t(id)), Contract::get_by_id(&state, &t(id)));
    }
    assert_eq!(Contract::get_by_address(&state, &[0x33; 20]).unwrap().id, "erin");
}
