//! The accounts that a transaction names for each operation, as the runtime
//! has resolved them.

use vstd::prelude::*;
use crate::pubkey::Pubkey;

verus! {

/// An identity that has proved its signing capability for the transaction,
/// with the funds that its account holds.
#[derive(Clone, Copy, Debug)]
pub struct Signer {
    /// The public identity of the caller.
    pub key: Pubkey,
    /// The lamports in the caller's account.
    pub lamports: u64,
}

/// The facility that allocates storage.
#[derive(Clone, Copy, Debug)]
pub struct System {
    /// The lamports that it charges for the storage of one record.
    pub allocation_cost: u64,
}

/// The accounts of `initialize`.
#[derive(Clone, Copy, Debug)]
pub struct Initialize {
    /// The address at which the new record is to be created.
    pub hello_world: Pubkey,
    /// The caller, who becomes the owner and pays for the storage.
    pub owner: Signer,
    /// The facility that allocates the storage.
    pub system_program: System,
}

/// The accounts of `update_message`.
#[derive(Clone, Copy, Debug)]
pub struct UpdateMessage {
    /// The address of the record to update.
    pub hello_world: Pubkey,
    /// The caller, who must be the owner that the record stores.
    pub owner: Signer,
}

/// The accounts of `get_message`.
#[derive(Clone, Copy, Debug)]
pub struct GetMessage {
    /// The address of the record to read.
    pub hello_world: Pubkey,
}

} // verus!
