//! Access control: who is served by the proxy itself, who is handed on to
//! the implementation, and who is turned away.

use vstd::prelude::*;
use crate::account::AccountId;

verus! {

/// Why the proxy refused a request.
#[derive(Clone, Copy, Debug, PartialEq, Eq, Structural)]
pub enum Error {
    /// The administrator asked for something that only the implementation
    /// could answer. The administrator decides which code runs; it may not
    /// use that code through the proxy.
    AdminAttemptedToProxy,
    /// Someone other than the administrator asked for an upgrade.
    UnauthorizedCaller,
}

/// What a caller asks of the proxy.
#[derive(Clone, Copy, Debug, PartialEq, Eq, Structural)]
pub enum Operation {
    /// Read the administrator.
    ReadAdmin,
    /// Read the implementation reference.
    ReadImplementation,
    /// Replace the implementation reference.
    UpgradeTo,
    /// Read the value that the proxy keeps itself.
    ReadValue,
    /// Write the value that the proxy keeps itself.
    WriteValue,
    /// Anything that the proxy has no entry for.
    Other,
}

/// What becomes of a request.
#[derive(Clone, Copy, Debug, PartialEq, Eq, Structural)]
pub enum Classification {
    /// The proxy answers from its own state; nothing is delegated.
    ServedLocally,
    /// The request goes to the implementation, unchanged.
    Forwarded,
    /// The request is refused, and nothing changes.
    Rejected(Error),
}

impl Operation {
    /// The operations by which the proxy itself is managed.
    pub open spec fn is_management(self) -> bool {
        self is ReadAdmin || self is ReadImplementation || self is UpgradeTo
    }

    /// The operations on the value that the proxy keeps itself. The
    /// administrator reaches that value; everyone else is passed through.
    pub open spec fn is_passthrough(self) -> bool {
        self is ReadValue || self is WriteValue
    }
}

/// The rules of access, tried in this order: a management operation is served
/// locally; anything else from the administrator is served locally where
/// the proxy keeps a value of its own for it, and refused otherwise;
/// anything else from anyone else is forwarded.
pub open spec fn classification(admin: Seq<u8>, caller: Seq<u8>, operation: Operation)
    -> Classification {
    if operation.is_management() {
        Classification::ServedLocally
    } else if caller == admin {
        if operation.is_passthrough() {
            Classification::ServedLocally
        } else {
            Classification::Rejected(Error::AdminAttemptedToProxy)
        }
    } else {
        Classification::Forwarded
    }
}

/// Classifies one request by the identity of its caller and by what it asks.
pub fn classify(admin: &AccountId, caller: &AccountId, operation: Operation) -> (class:
    Classification)
    ensures
        class == classification(admin@, caller@, operation),
{
    match operation {
        Operation::ReadAdmin | Operation::ReadImplementation | Operation::UpgradeTo => {
            Classification::ServedLocally
        },
        Operation::ReadValue | Operation::WriteValue => {
            if *caller == *admin {
                Classification::ServedLocally
            } else {
                Classification::Forwarded
            }
        },
        Operation::Other => {
            if *caller == *admin {
                Classification::Rejected(Error::AdminAttemptedToProxy)
            } else {
                Classification::Forwarded
            }
        },
    }
}

} // verus!
