//! An upgradeable-logic proxy: an address-stable front end that keeps the
//! administrator and the implementation reference, and hands every other
//! request to replaceable implementation code that runs against the proxy's
//! own storage.
//!
//! The library holds the decisions and the storage discipline. The host
//! that names the caller, finds the code and runs it is not part of it:
//! callers hand in the caller's identity, and receive the delegation that
//! the host is to perform.

pub mod account;
pub mod codec;
pub mod dispatch;
pub mod laws;
pub mod layout;
pub mod logic;
pub mod proxy;
pub mod storage;

pub use crate::account::AccountId;
pub use crate::dispatch::{classify, Classification, Error, Operation};
pub use crate::layout::{LOGIC_ADMIN_KEY, LOGIC_VALUE_KEY, PROXY_ROOT_KEY};
pub use crate::logic::Logic;
pub use crate::proxy::{Delegation, Proxy, ProxyOrLogic};
pub use crate::storage::Storage;
