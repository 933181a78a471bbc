//! What holds of the registry in every store and across operations.
//!
//! The statements are over the store's mathematical value and the outcome
//! functions that the operations' contracts are written in, so each of them
//! holds of the executable operations as well.

use crate::account::{AccountError, AccountView, Authorize};
use crate::keys::{
    address_key, id_key, lemma_address_key_injective, lemma_id_key_injective,
    lemma_key_namespaces_disjoint,
};
use crate::registry::{
    account_of_address, account_of_id, bind, committed, is_live, password_check, register_outcome,
    reset_address_outcome, reset_by_signature_outcome, reset_pass_outcome, resolves_both_ways,
};
use crate::signature::Recovery;
use crate::store::StoreMap;
use vstd::prelude::*;

verus! {

/// In every store, an account that its id resolves to is the account that
/// its address resolves to, and the other way round.
pub proof fn lemma_indices_agree(store: StoreMap, account: AccountView)
    ensures
        account_of_id(store, account.id) == Some(account) <==> account_of_address(
            store,
            account.current_address,
        ) == Some(account),
        account_of_id(store, account.id) == Some(account) <==> is_live(store, account),
{
}

/// In every store no two live accounts share an id, and no two share an
/// address.
pub proof fn lemma_live_accounts_unique(store: StoreMap, account: AccountView, other: AccountView)
    requires
        is_live(store, account),
        is_live(store, other),
        account.id == other.id || account.current_address == other.current_address,
    ensures
        account == other,
{
}

/// Once an account is written, its id and its address both resolve to it.
pub proof fn lemma_bound_account_resolves(store: StoreMap, account: AccountView)
    ensures
        is_live(bind(store, account), account),
        resolves_both_ways(bind(store, account), account),
{
    lemma_key_namespaces_disjoint(account.id, account.current_address);
}

/// After an operation has succeeded and its outcome is committed, the
/// account it answered with is found under its id and under its address
/// alike.
pub proof fn lemma_committed_account_resolves(
    store: StoreMap,
    outcome: Result<AccountView, AccountError>,
)
    requires
        outcome is Ok,
    ensures
        resolves_both_ways(committed(store, outcome), outcome->Ok_0),
{
    lemma_bound_account_resolves(store, outcome->Ok_0);
}

/// Writing an account leaves every live account with another id and another
/// address as it was.
pub proof fn lemma_bind_keeps_others(store: StoreMap, account: AccountView, other: AccountView)
    requires
        is_live(store, other),
        other.id != account.id,
        other.current_address != account.current_address,
    ensures
        is_live(bind(store, account), other),
{
    if id_key(other.id) == id_key(account.id) {
        lemma_id_key_injective(other.id, account.id);
    }
    if address_key(other.current_address) == address_key(account.current_address) {
        lemma_address_key_injective(other.current_address, account.current_address);
    }
    lemma_key_namespaces_disjoint(other.id, account.current_address);
    lemma_key_namespaces_disjoint(account.id, other.current_address);
}

/// Writing an account brings nothing back: an account that is live
/// afterwards is the one that was written, or was live before.
pub proof fn lemma_bind_revives_nothing(store: StoreMap, account: AccountView, other: AccountView)
    requires
        is_live(bind(store, account), other),
    ensures
        other == account || is_live(store, other),
{
}

/// After a successful registration, password authentication with the
/// registered id and password is accepted.
pub proof fn lemma_register_then_authorize(
    store: StoreMap,
    id: Seq<char>,
    pass: Seq<char>,
    address: Seq<u8>,
)
    requires
        register_outcome(store, id, pass, address) is Ok,
    ensures
        password_check(
            committed(store, register_outcome(store, id, pass, address)),
            id,
            pass,
        ) == Authorize::ACCEPT,
{
    lemma_committed_account_resolves(store, register_outcome(store, id, pass, address));
}

/// After a successful registration, registering the same id again is
/// refused, whatever password and address come with it.
pub proof fn lemma_register_same_id_twice(
    store: StoreMap,
    id: Seq<char>,
    pass: Seq<char>,
    address: Seq<u8>,
    second_pass: Seq<char>,
    second_address: Seq<u8>,
)
    requires
        register_outcome(store, id, pass, address) is Ok,
    ensures
        register_outcome(
            committed(store, register_outcome(store, id, pass, address)),
            id,
            second_pass,
            second_address,
        ) == Err::<AccountView, AccountError>(AccountError::AlreadyExists),
{
    lemma_committed_account_resolves(store, register_outcome(store, id, pass, address));
}

/// After a successful registration, registering any id with the same
/// address is refused.
pub proof fn lemma_register_same_address_twice(
    store: StoreMap,
    id: Seq<char>,
    pass: Seq<char>,
    address: Seq<u8>,
    second_id: Seq<char>,
    second_pass: Seq<char>,
)
    requires
        register_outcome(store, id, pass, address) is Ok,
    ensures
        register_outcome(
            committed(store, register_outcome(store, id, pass, address)),
            second_id,
            second_pass,
            address,
        ) == Err::<AccountView, AccountError>(AccountError::AlreadyExists),
{
    lemma_committed_account_resolves(store, register_outcome(store, id, pass, address));
}

/// After a successful registration every account that was live before is
/// live still.
pub proof fn lemma_register_keeps_accounts(
    store: StoreMap,
    id: Seq<char>,
    pass: Seq<char>,
    address: Seq<u8>,
    other: AccountView,
)
    requires
        register_outcome(store, id, pass, address) is Ok,
        is_live(store, other),
    ensures
        is_live(committed(store, register_outcome(store, id, pass, address)), other),
{
    lemma_bind_keeps_others(store, register_outcome(store, id, pass, address)->Ok_0, other);
}

/// After a successful password reset every other account that was live
/// before is live still.
pub proof fn lemma_reset_pass_keeps_accounts(
    store: StoreMap,
    id: Seq<char>,
    pass: Seq<char>,
    new_pass: Seq<char>,
    other: AccountView,
)
    requires
        reset_pass_outcome(store, id, pass, new_pass) is Ok,
        is_live(store, other),
        other.id != id,
    ensures
        is_live(committed(store, reset_pass_outcome(store, id, pass, new_pass)), other),
{
}

/// After an account has moved to a new address every other account that was
/// live before is live still.
pub proof fn lemma_reset_address_keeps_accounts(
    store: StoreMap,
    id: Seq<char>,
    pass: Seq<char>,
    new_address: Seq<u8>,
    other: AccountView,
)
    requires
        reset_address_outcome(store, id, pass, new_address) is Ok,
        is_live(store, other),
        other.id != id,
    ensures
        is_live(committed(store, reset_address_outcome(store, id, pass, new_address)), other),
{
    lemma_bind_keeps_others(
        store,
        reset_address_outcome(store, id, pass, new_address)->Ok_0,
        other,
    );
}

/// After a successful password reset the new password is accepted, and the
/// old one, where it differs, is denied.
pub proof fn lemma_reset_pass_replaces(
    store: StoreMap,
    id: Seq<char>,
    pass: Seq<char>,
    new_pass: Seq<char>,
)
    requires
        reset_pass_outcome(store, id, pass, new_pass) is Ok,
    ensures
        password_check(
            committed(store, reset_pass_outcome(store, id, pass, new_pass)),
            id,
            new_pass,
        ) == Authorize::ACCEPT,
        pass != new_pass ==> password_check(
            committed(store, reset_pass_outcome(store, id, pass, new_pass)),
            id,
            pass,
        ) == Authorize::DENY,
{
}

/// After an account has moved to a new address, the new address resolves to
/// it and its old address resolves to nothing.
pub proof fn lemma_reset_address_rebinds(
    store: StoreMap,
    id: Seq<char>,
    pass: Seq<char>,
    new_address: Seq<u8>,
)
    requires
        reset_address_outcome(store, id, pass, new_address) is Ok,
    ensures
        account_of_address(
            committed(store, reset_address_outcome(store, id, pass, new_address)),
            new_address,
        ) == Some(reset_address_outcome(store, id, pass, new_address)->Ok_0),
        account_of_id(store, id)->0.current_address != new_address ==> account_of_address(
            committed(store, reset_address_outcome(store, id, pass, new_address)),
            account_of_id(store, id)->0.current_address,
        ) is None,
{
    lemma_committed_account_resolves(store, reset_address_outcome(store, id, pass, new_address));
}

/// After the account bound to an address has taken a new id, the new id
/// resolves to it and the id it gave up resolves to nothing.
pub proof fn lemma_reset_by_signature_renames(
    store: StoreMap,
    address: Seq<u8>,
    new_id: Seq<char>,
    new_pass: Seq<char>,
    signature: Seq<u8>,
    recovery: Recovery,
)
    requires
        reset_by_signature_outcome(store, address, new_id, new_pass, signature, recovery) is Ok,
    ensures
        account_of_id(
            committed(
                store,
                reset_by_signature_outcome(store, address, new_id, new_pass, signature, recovery),
            ),
            new_id,
        ) == Some(
            reset_by_signature_outcome(
                store,
                address,
                new_id,
                new_pass,
                signature,
                recovery,
            )->Ok_0,
        ),
        account_of_address(store, address)->0.id != new_id ==> account_of_id(
            committed(
                store,
                reset_by_signature_outcome(store, address, new_id, new_pass, signature, recovery),
            ),
            account_of_address(store, address)->0.id,
        ) is None,
{
    lemma_committed_account_resolves(
        store,
        reset_by_signature_outcome(store, address, new_id, new_pass, signature, recovery),
    );
}

} // verus!
