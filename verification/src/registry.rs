//! The account registry: registration, authentication and credential
//! rotation over an [`AccountStore`].
//!
//! The store is kept through two indices. The id index holds each account
//! under the key of its id, the address index holds the id of an account
//! under the key of the account's address. An account is live when both
//! indices agree on it. An entry that a later write has left behind, the
//! binding of an address that an account has moved away from or the record
//! of an id that an account has given up, resolves to nothing.
//!
//! Every operation that changes an account rewrites both of its index
//! entries, so a reader never finds an account under its id that its address
//! does not lead back to.

use crate::account::{Account, AccountError, AccountInfo, AccountView, Address, Authorize, Id, Pass};
use crate::framing::bytes_equal;
use crate::keys::{
    address_key, id_key, lemma_key_namespaces_disjoint, make_address_key, make_id_key,
};
use crate::reads::index_entries;
use crate::signature::{signature_accepted, verify, Recovery};
use crate::store::{AccountStore, StoreMap, Stored, StoredValue};
use vstd::prelude::*;

verus! {

/// The action label that a signer signs to authenticate.
pub const AUTHENTICATION_LABEL: &'static str = "Authentication by you";

/// True when both indices of `store` agree on `account`.
pub open spec fn is_live(store: StoreMap, account: AccountView) -> bool {
    &&& store.contains_key(id_key(account.id))
    &&& store[id_key(account.id)] == Stored::Account(account)
    &&& store.contains_key(address_key(account.current_address))
    &&& store[address_key(account.current_address)] == Stored::Id(account.id)
}

/// The live account that `id` resolves to, if there is one.
pub open spec fn account_of_id(store: StoreMap, id: Seq<char>) -> Option<AccountView> {
    if store.contains_key(id_key(id)) && store[id_key(id)] is Account {
        let account = store[id_key(id)]->Account_0;
        if account.id == id && is_live(store, account) {
            Some(account)
        } else {
            None
        }
    } else {
        None
    }
}

/// The live account that `address` resolves to, if there is one.
pub open spec fn account_of_address(store: StoreMap, address: Seq<u8>) -> Option<AccountView> {
    if store.contains_key(address_key(address)) && store[address_key(address)] is Id {
        match account_of_id(store, store[address_key(address)]->Id_0) {
            Some(account) => if account.current_address == address {
                Some(account)
            } else {
                None
            },
            None => None,
        }
    } else {
        None
    }
}

/// True when `account` is found under its id and under its address alike.
pub open spec fn resolves_both_ways(store: StoreMap, account: AccountView) -> bool {
    &&& account_of_id(store, account.id) == Some(account)
    &&& account_of_address(store, account.current_address) == Some(account)
}

/// The store after both index entries of `account` have been written.
pub open spec fn bind(store: StoreMap, account: AccountView) -> StoreMap {
    store.insert(id_key(account.id), Stored::Account(account)).insert(
        address_key(account.current_address),
        Stored::Id(account.id),
    )
}

/// The store after an operation with the given outcome has been committed:
/// a successful outcome binds its account, a failure changes nothing.
pub open spec fn committed(
    store: StoreMap,
    outcome: Result<AccountView, AccountError>,
) -> StoreMap {
    match outcome {
        Ok(account) => bind(store, account),
        Err(_) => store,
    }
}

/// The mathematical value of an optional account.
pub open spec fn found(account: Option<Account>) -> Option<AccountView> {
    match account {
        Some(a) => Some(a@),
        None => None,
    }
}

/// The account that the shown id, password and address belong to.
pub open spec fn shown_account(info: AccountInfo) -> AccountView {
    AccountView { id: info.0@, pass: info.1@, current_address: info.2@ }
}

/// The mathematical value of the outcome of an operation.
pub open spec fn outcome(res: Result<Account, AccountError>) -> Result<AccountView, AccountError> {
    match res {
        Ok(a) => Ok(a@),
        Err(e) => Err(e),
    }
}

/// The outcome of registering `id` with `pass` and `address`: refused where
/// the id or the address already resolves to an account.
pub open spec fn register_outcome(
    store: StoreMap,
    id: Seq<char>,
    pass: Seq<char>,
    address: Seq<u8>,
) -> Result<AccountView, AccountError> {
    if account_of_id(store, id) is Some || account_of_address(store, address) is Some {
        Err(AccountError::AlreadyExists)
    } else {
        Ok(AccountView { id, pass, current_address: address })
    }
}

/// The outcome of password authentication: accepted where `id` resolves to
/// an account whose password is `pass`.
pub open spec fn password_check(store: StoreMap, id: Seq<char>, pass: Seq<char>) -> Authorize {
    match account_of_id(store, id) {
        Some(account) => if account.pass == pass {
            Authorize::ACCEPT
        } else {
            Authorize::DENY
        },
        None => Authorize::DENY,
    }
}

/// The outcome of signature authentication for `address`.
pub open spec fn address_check(
    address: Seq<u8>,
    signature: Seq<u8>,
    recovery: Recovery,
) -> Authorize {
    if signature_accepted(address, address, AUTHENTICATION_LABEL@, signature, recovery) {
        Authorize::ACCEPT
    } else {
        Authorize::DENY
    }
}

/// The outcome of replacing the password of `id`.
pub open spec fn reset_pass_outcome(
    store: StoreMap,
    id: Seq<char>,
    pass: Seq<char>,
    new_pass: Seq<char>,
) -> Result<AccountView, AccountError> {
    if password_check(store, id, pass) == Authorize::ACCEPT {
        Ok(
            AccountView {
                id,
                pass: new_pass,
                current_address: account_of_id(store, id)->0.current_address,
            },
        )
    } else {
        Err(AccountError::Unauthorized)
    }
}

/// The outcome of binding `id` to `new_address`: refused where the password
/// is wrong, or where the address resolves to another account.
pub open spec fn reset_address_outcome(
    store: StoreMap,
    id: Seq<char>,
    pass: Seq<char>,
    new_address: Seq<u8>,
) -> Result<AccountView, AccountError> {
    if password_check(store, id, pass) != Authorize::ACCEPT {
        Err(AccountError::Unauthorized)
    } else if account_of_address(store, new_address) is Some && account_of_address(
        store,
        new_address,
    )->0.id != id {
        Err(AccountError::AlreadyExists)
    } else {
        Ok(AccountView { id, pass, current_address: new_address })
    }
}

/// The outcome of replacing id and password of the account bound to
/// `address`, authorized by a signature.
pub open spec fn reset_by_signature_outcome(
    store: StoreMap,
    address: Seq<u8>,
    new_id: Seq<char>,
    new_pass: Seq<char>,
    signature: Seq<u8>,
    recovery: Recovery,
) -> Result<AccountView, AccountError> {
    if address_check(address, signature, recovery) != Authorize::ACCEPT {
        Err(AccountError::Unauthorized)
    } else if account_of_address(store, address) is None {
        Err(AccountError::NotFound)
    } else {
        Ok(AccountView { id: new_id, pass: new_pass, current_address: address })
    }
}

/// The registry's operations. The store they work on is handed to each of
/// them.
pub struct Contract;

impl Contract {
    /// Resolves `id` to its live account.
    pub fn get_by_id(store: &AccountStore, id: &Id) -> (res: Option<Account>)
        ensures
            found(res) == account_of_id(store@, id@),
    {
        let key = make_id_key(id);
        match store.get(key.as_slice()) {
            Some(StoredValue::Account(account)) => {
                if account.id != *id {
                    return None;
                }
                let bound = make_address_key(&account.current_address);
                match store.get(bound.as_slice()) {
                    Some(StoredValue::Id(owner)) => {
                        if *owner == account.id {
                            Some(account.clone())
                        } else {
                            None
                        }
                    },
                    _ => None,
                }
            },
            _ => None,
        }
    }

    /// Resolves `address` to its live account.
    pub fn get_by_address(store: &AccountStore, address: &Address) -> (res: Option<Account>)
        ensures
            found(res) == account_of_address(store@, address@),
    {
        let key = make_address_key(address);
        match store.get(key.as_slice()) {
            Some(StoredValue::Id(id)) => {
                match Self::get_by_id(store, id) {
                    Some(account) => {
                        if bytes_equal(account.current_address.as_slice(), address.as_slice()) {
                            Some(account)
                        } else {
                            None
                        }
                    },
                    None => None,
                }
            },
            _ => None,
        }
    }

    /// Tells whether `id` resolves to an account.
    pub fn is_exist(store: &AccountStore, id: &Id) -> (res: bool)
        ensures
            res == account_of_id(store@, id@) is Some,
    {
        match Self::get_by_id(store, id) {
            Some(_account) => true,
            None => false,
        }
    }

    /// Tells whether `address` resolves to an account.
    pub fn is_exist_address(store: &AccountStore, address: &Address) -> (res: bool)
        ensures
            res == account_of_address(store@, address@) is Some,
    {
        match Self::get_by_address(store, address) {
            Some(_account) => true,
            None => false,
        }
    }

    /// Registers a new account for `id` with `pass` and `address` and writes
    /// it, unless the id or the address already resolves to an account.
    pub fn register(
        store: &mut AccountStore,
        id: &Id,
        pass: &Pass,
        address: &Address,
    ) -> (res: Result<Account, AccountError>)
        ensures
            outcome(res) == register_outcome(old(store)@, id@, pass@, address@),
            final(store)@ == committed(old(store)@, outcome(res)),
            res matches Ok(account) ==> resolves_both_ways(final(store)@, account@),
    {
        if Self::is_exist(store, id) || Self::is_exist_address(store, address) {
            Err(AccountError::AlreadyExists)
        } else {
            let new_account = Account {
                id: id.clone(),
                pass: pass.clone(),
                current_address: *address,
            };
            Self::register_in_state(store, new_account.clone());
            Ok(new_account)
        }
    }

    /// Authenticates `id` by password. An id that resolves to no account is
    /// denied.
    pub fn authorize_by_pass(store: &AccountStore, id: &Id, pass: &Pass) -> (res: Authorize)
        ensures
            res == password_check(store@, id@, pass@),
    {
        match Self::get_by_id(store, id) {
            Some(account) => {
                if account.pass == *pass {
                    Authorize::ACCEPT
                } else {
                    Authorize::DENY
                }
            },
            None => Authorize::DENY,
        }
    }

    /// Authenticates the holder of `address` by a signature over the
    /// canonical message for `address` and [`AUTHENTICATION_LABEL`].
    pub fn authorize_by_address(
        address: Address,
        sig: Vec<u8>,
        recovery: &Recovery,
    ) -> (res: Authorize)
        ensures
            res == address_check(address@, sig@, *recovery),
    {
        if verify(&address, &address, AUTHENTICATION_LABEL, sig.as_slice(), recovery) {
            Authorize::ACCEPT
        } else {
            Authorize::DENY
        }
    }

    /// Replaces the password of the account of `id` by `new_pass` for a
    /// caller who knows the old one, and writes the account.
    pub fn reset_pass(
        store: &mut AccountStore,
        id: &Id,
        pass: &Pass,
        new_pass: &Pass,
    ) -> (res: Result<Account, AccountError>)
        ensures
            outcome(res) == reset_pass_outcome(old(store)@, id@, pass@, new_pass@),
            final(store)@ == committed(old(store)@, outcome(res)),
            res matches Ok(account) ==> resolves_both_ways(final(store)@, account@),
    {
        match Self::authorize_by_pass(store, id, pass) {
            Authorize::ACCEPT => {
                let mut account = Self::get_by_id(store, id).unwrap();
                account.id = id.clone();
                account.pass = new_pass.clone();
                Self::register_in_state(store, account.clone());
                Ok(account)
            },
            Authorize::DENY => Err(AccountError::Unauthorized),
        }
    }

    /// Binds the account of `id` to `new_address` for a caller who knows its
    /// password, and writes the account. The old address resolves to nothing
    /// afterwards. An address that resolves to another account is refused.
    pub fn reset_address(
        store: &mut AccountStore,
        id: &Id,
        pass: &Pass,
        new_address: &Address,
    ) -> (res: Result<Account, AccountError>)
        ensures
            outcome(res) == reset_address_outcome(old(store)@, id@, pass@, new_address@),
            final(store)@ == committed(old(store)@, outcome(res)),
            res matches Ok(account) ==> resolves_both_ways(final(store)@, account@),
            res is Ok && account_of_id(old(store)@, id@)->0.current_address != new_address@
                ==> account_of_address(
                final(store)@,
                account_of_id(old(store)@, id@)->0.current_address,
            ) is None,
    {
        match Self::authorize_by_pass(store, id, pass) {
            Authorize::ACCEPT => {
                match Self::get_by_address(store, new_address) {
                    Some(holder) => {
                        if holder.id != *id {
                            return Err(AccountError::AlreadyExists);
                        }
                    },
                    None => {},
                }
                let mut account = Self::get_by_id(store, id).unwrap();
                account.current_address = *new_address;
                Self::register_in_state(store, account.clone());
                Ok(account)
            },
            Authorize::DENY => Err(AccountError::Unauthorized),
        }
    }

    /// Gives the account bound to `address` the id `new_id` and the password
    /// `new_pass`, authorized by a signature of the holder of `address`, and
    /// writes the account. The id it gave up resolves to nothing afterwards.
    pub fn reset_pass_by_addr(
        store: &mut AccountStore,
        address: Address,
        new_id: Id,
        new_pass: Pass,
        sig: Vec<u8>,
        recovery: &Recovery,
    ) -> (res: Result<Account, AccountError>)
        ensures
            outcome(res) == reset_by_signature_outcome(
                old(store)@,
                address@,
                new_id@,
                new_pass@,
                sig@,
                *recovery,
            ),
            final(store)@ == committed(old(store)@, outcome(res)),
            res matches Ok(account) ==> resolves_both_ways(final(store)@, account@),
            res is Ok && account_of_address(old(store)@, address@)->0.id != new_id@
                ==> account_of_id(
                final(store)@,
                account_of_address(old(store)@, address@)->0.id,
            ) is None,
    {
        match Self::authorize_by_address(address, sig, recovery) {
            Authorize::ACCEPT => {
                match Self::get_by_address(store, &address) {
                    Some(mut account) => {
                        account.id = new_id;
                        account.pass = new_pass;
                        Self::register_in_state(store, account.clone());
                        Ok(account)
                    },
                    None => Err(AccountError::NotFound),
                }
            },
            Authorize::DENY => Err(AccountError::Unauthorized),
        }
    }

    /// Writes both index entries of `account`: the account under the key of
    /// its id, and its id under the key of its address.
    pub fn register_in_state(store: &mut AccountStore, account: Account)
        ensures
            final(store)@ == bind(old(store)@, account@),
            resolves_both_ways(final(store)@, account@),
    {
        proof {
            lemma_key_namespaces_disjoint(account@.id, account@.current_address);
        }
        let (kept, binding) = index_entries(account);
        store.put(kept.key, kept.value);
        store.put(binding.key, binding.value);
    }

    /// Shows id, password and bound address of the account of `id` to a
    /// caller who knows its password.
    pub fn show_data(
        store: &AccountStore,
        id: &Id,
        pass: &Pass,
    ) -> (res: Result<AccountInfo, AccountError>)
        ensures
            match res {
                Ok(info) => password_check(store@, id@, pass@) == Authorize::ACCEPT
                    && account_of_id(store@, id@) == Some(shown_account(info)),
                Err(e) => e == AccountError::Unauthorized && password_check(store@, id@, pass@)
                    == Authorize::DENY,
            },
    {
        match Self::get_by_id(store, id) {
            Some(account) => {
                if account.pass == *pass {
                    Ok((account.id, account.pass, account.current_address))
                } else {
                    Err(AccountError::Unauthorized)
                }
            },
            None => Err(AccountError::Unauthorized),
        }
    }
}

/// What is shown of `account` where a caller may see it, and of the empty
/// account where not.
pub open spec fn shown(store: StoreMap, id: Seq<char>, pass: Seq<char>) -> AccountView {
    if password_check(store, id, pass) == Authorize::ACCEPT {
        account_of_id(store, id)->0
    } else {
        AccountView {
            id: Seq::empty(),
            pass: Seq::empty(),
            current_address: Seq::new(20, |i: int| 0u8),
        }
    }
}

/// The registry as its callers see it: every operation answers with a plain
/// value, `false` or the empty account standing for every kind of refusal.
/// A refused operation leaves the store as it was.
pub trait ContractInterface {
    /// Registers a new account and writes it.
    fn pub_register(store: &mut AccountStore, id: Id, pass: Pass, address: Address) -> (ok: bool)
        ensures
            ok == register_outcome(old(store)@, id@, pass@, address@) is Ok,
            final(store)@ == committed(
                old(store)@,
                register_outcome(old(store)@, id@, pass@, address@),
            ),
    ;

    /// Authenticates `id` by password.
    fn pub_authorize_by_pass(store: &AccountStore, id: Id, pass: Pass) -> (ok: bool)
        ensures
            ok == (password_check(store@, id@, pass@) == Authorize::ACCEPT),
    ;

    /// Authenticates the holder of `address` by signature.
    fn pub_authorize_by_address(address: Address, sig: Vec<u8>, recovery: &Recovery) -> (ok: bool)
        ensures
            ok == (address_check(address@, sig@, *recovery) == Authorize::ACCEPT),
    ;

    /// Replaces the password of `id` and writes the account.
    fn pub_reset_pass(store: &mut AccountStore, id: Id, pass: Pass, new_pass: Pass) -> (ok: bool)
        ensures
            ok == reset_pass_outcome(old(store)@, id@, pass@, new_pass@) is Ok,
            final(store)@ == committed(
                old(store)@,
                reset_pass_outcome(old(store)@, id@, pass@, new_pass@),
            ),
    ;

    /// Binds `id` to `new_address` and writes the account.
    fn pub_reset_address(
        store: &mut AccountStore,
        id: Id,
        pass: Pass,
        new_address: Address,
    ) -> (ok: bool)
        ensures
            ok == reset_address_outcome(old(store)@, id@, pass@, new_address@) is Ok,
            final(store)@ == committed(
                old(store)@,
                reset_address_outcome(old(store)@, id@, pass@, new_address@),
            ),
    ;

    /// Replaces id and password of the account bound to `address`,
    /// authorized by signature, and writes the account.
    fn pub_reset_pass_by_addr(
        store: &mut AccountStore,
        address: Address,
        new_id: Id,
        new_pass: Pass,
        sig: Vec<u8>,
        recovery: &Recovery,
    ) -> (ok: bool)
        ensures
            ok == reset_by_signature_outcome(
                old(store)@,
                address@,
                new_id@,
                new_pass@,
                sig@,
                *recovery,
            ) is Ok,
            final(store)@ == committed(
                old(store)@,
                reset_by_signature_outcome(
                    old(store)@,
                    address@,
                    new_id@,
                    new_pass@,
                    sig@,
                    *recovery,
                ),
            ),
    ;

    /// Shows the account of `id` to a caller who knows its password, and the
    /// empty account to any other.
    fn pub_show_data(store: &AccountStore, id: Id, pass: Pass) -> (info: AccountInfo)
        ensures
            shown_account(info) == shown(store@, id@, pass@),
    ;
}

impl ContractInterface for Contract {
    fn pub_register(store: &mut AccountStore, id: Id, pass: Pass, address: Address) -> (ok: bool) {
        Self::register(store, &id, &pass, &address).is_ok()
    }

    fn pub_authorize_by_pass(store: &AccountStore, id: Id, pass: Pass) -> (ok: bool) {
        match Self::authorize_by_pass(store, &id, &pass) {
            Authorize::ACCEPT => true,
            Authorize::DENY => false,
        }
    }

    fn pub_authorize_by_address(address: Address, sig: Vec<u8>, recovery: &Recovery) -> (ok: bool) {
        match Self::authorize_by_address(address, sig, recovery) {
            Authorize::ACCEPT => true,
            Authorize::DENY => false,
        }
    }

    fn pub_reset_pass(store: &mut AccountStore, id: Id, pass: Pass, new_pass: Pass) -> (ok: bool) {
        Self::reset_pass(store, &id, &pass, &new_pass).is_ok()
    }

    fn pub_reset_address(
        store: &mut AccountStore,
        id: Id,
        pass: Pass,
        new_address: Address,
    ) -> (ok: bool) {
        Self::reset_address(store, &id, &pass, &new_address).is_ok()
    }

    fn pub_reset_pass_by_addr(
        store: &mut AccountStore,
        address: Address,
        new_id: Id,
        new_pass: Pass,
        sig: Vec<u8>,
        recovery: &Recovery,
    ) -> (ok: bool) {
        Self::reset_pass_by_addr(store, address, new_id, new_pass, sig, recovery).is_ok()
    }

    fn pub_show_data(store: &AccountStore, id: Id, pass: Pass) -> (info: AccountInfo) {
        match Self::show_data(store, &id, &pass) {
            Ok(info) => info,
            Err(_) => {
                let zero: Address = [0u8; 20];
                assert(zero@ =~= Seq::new(20, |i: int| 0u8));
                (String::new(), String::new(), zero)
            },
        }
    }
}

} // verus!
