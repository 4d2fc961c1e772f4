//! The ways an operation on the record store can fail.

use vstd::prelude::*;

verus! {

/// Why an operation was rejected. A rejected operation changes nothing.
#[derive(Clone, Copy, Debug, PartialEq, Eq, Structural)]
pub enum RecordError {
    /// The address named for a new record is not the one derived from its
    /// owner.
    DerivationMismatch,
    /// The derived address already holds a record.
    AddressAlreadyInUse,
    /// The caller cannot pay for the record's storage.
    InsufficientFunds,
    /// No record exists at the address.
    RecordNotFound,
    /// The caller is not the owner of the record.
    Unauthorized,
    /// The message does not fit into the record's storage.
    MessageTooLong,
}

} // verus!
