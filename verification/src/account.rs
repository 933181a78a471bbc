//! The data of the registry: accounts, authorization outcomes and errors.

use vstd::prelude::*;

verus! {

/// An identity, unique within a store.
pub type Id = String;

/// A credential, compared byte for byte on authentication.
pub type Pass = String;

/// A 20-byte address derived from a public key.
pub type Address = [u8; 20];

/// What is shown of an account: its id, its password and its bound address.
pub type AccountInfo = (Id, Pass, Address);

/// A registered identity with its credential and its bound signing address.
#[derive(Debug, PartialEq, Eq)]
pub struct Account {
    pub id: Id,
    pub pass: Pass,
    pub current_address: Address,
}

/// The mathematical value of an [`Account`].
pub struct AccountView {
    pub id: Seq<char>,
    pub pass: Seq<char>,
    pub current_address: Seq<u8>,
}

impl View for Account {
    type V = AccountView;

    open spec fn view(&self) -> AccountView {
        AccountView { id: self.id@, pass: self.pass@, current_address: self.current_address@ }
    }
}

impl Clone for Account {
    fn clone(&self) -> (res: Self)
        ensures
            res@ == self@,
    {
        Account {
            id: self.id.clone(),
            pass: self.pass.clone(),
            current_address: self.current_address,
        }
    }
}

impl Default for Account {
    /// The empty account: empty id, empty password, the all-zero address.
    fn default() -> (res: Self)
        ensures
            res@.id == Seq::<char>::empty(),
            res@.pass == Seq::<char>::empty(),
            res@.current_address == Seq::new(20, |i: int| 0u8),
    {
        Account { id: String::new(), pass: String::new(), current_address: [0u8; 20] }
    }
}

/// Whether an authentication attempt passed.
#[derive(Debug, Clone, Copy, PartialEq, Eq, Structural)]
#[allow(non_camel_case_types)]
pub enum Authorize {
    ACCEPT,
    DENY,
}

/// Why an operation of the registry was refused.
#[derive(Debug, Clone, Copy, PartialEq, Eq, Structural)]
pub enum AccountError {
    /// The id or the address is already bound to an account.
    AlreadyExists,
    /// No account is bound to the address.
    NotFound,
    /// The password does not match, or the signature was not accepted.
    Unauthorized,
    /// The signature does not have 65 bytes, or no public key can be
    /// recovered from it.
    MalformedSignature,
}

} // verus!
