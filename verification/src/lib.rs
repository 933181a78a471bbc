//! Account registry for a confidential ledger.
//!
//! A caller registers an identity, an id with a password and a bound
//! address, authenticates by password or by signature, and rotates
//! credentials. The registry keeps its accounts in a key-value store through
//! two indices, by id and by address, which it never lets diverge.
//!
//! - [`keys`] derives the namespaced storage keys of the two indices.
//! - [`framing`] builds the length-prefixed message that a signer signs.
//! - [`signature`] decides whether a signature speaks for an address.
//! - [`store`] is the key-value state that the operations read and write.
//! - [`registry`] holds the operations, [`laws`] what is proved of them.
//! - [`reads`] tells a caller with a state of its own what to bring into a
//!   store before an operation and what to write back after it.

pub mod account;
pub mod framing;
pub mod keys;
pub mod laws;
pub mod reads;
pub mod registry;
pub mod signature;
pub mod store;

pub use crate::account::{Account, AccountError, AccountInfo, Address, Authorize, Id, Pass};
pub use crate::registry::{Contract, ContractInterface};
pub use crate::signature::Recovery;
pub use crate::store::{AccountStore, StoredValue};
