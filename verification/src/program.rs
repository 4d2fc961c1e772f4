//! The entry points: `initialize`, `update_message` and `get_message`.
//!
//! Each one checks the accounts that the transaction names and then lets the
//! ledger do the work. A rejected call changes nothing.

use vstd::prelude::*;
use crate::accounts::{GetMessage, Initialize, Signer, UpdateMessage};
use crate::address::{
    derivation_gives, derivation_matches, derived_view, find_record_address, record_address,
};
use crate::error::RecordError;
use crate::ledger::Ledger;
use crate::pubkey::Pubkey;
use crate::record::{fits, lemma_greeting_fits, HelloWorld, HelloWorldView};

verus! {

/// The checks of `initialize`, in their order: the address must be the one
/// that the derivation found for the caller; it must be free; the caller must
/// hold the cost of the storage.
pub open spec fn initialize_check(
    derived: Option<(Seq<u8>, u8)>,
    in_use: bool,
    accounts: Initialize,
) -> Result<(), RecordError> {
    if !derivation_gives(derived, accounts.hello_world@) {
        Err(RecordError::DerivationMismatch)
    } else if in_use {
        Err(RecordError::AddressAlreadyInUse)
    } else if accounts.owner.lamports < accounts.system_program.allocation_cost {
        Err(RecordError::InsufficientFunds)
    } else {
        Ok(())
    }
}

/// What `initialize` returns: the address of the new record, or the first
/// check that fails.
pub open spec fn initialize_result(
    records: Map<Seq<u8>, HelloWorldView>,
    accounts: Initialize,
) -> Result<Pubkey, RecordError> {
    match initialize_check(
        record_address(accounts.owner.key@),
        records.contains_key(accounts.hello_world@),
        accounts,
    ) {
        Ok(()) => Ok(accounts.hello_world),
        Err(error) => Err(error),
    }
}

/// The records after `initialize`: one more, owned by the caller, where the
/// call succeeds.
pub open spec fn records_after_initialize(
    records: Map<Seq<u8>, HelloWorldView>,
    accounts: Initialize,
) -> Map<Seq<u8>, HelloWorldView> {
    if initialize_result(records, accounts) is Ok {
        records.insert(accounts.hello_world@, HelloWorldView::created(accounts.owner.key@))
    } else {
        records
    }
}

/// The accounts after `initialize`: the caller has paid for the storage
/// where the call succeeds.
pub open spec fn accounts_after_initialize(
    records: Map<Seq<u8>, HelloWorldView>,
    accounts: Initialize,
) -> Initialize {
    if initialize_result(records, accounts) is Ok {
        Initialize {
            hello_world: accounts.hello_world,
            owner: Signer {
                key: accounts.owner.key,
                lamports: (accounts.owner.lamports - accounts.system_program.allocation_cost) as u64,
            },
            system_program: accounts.system_program,
        }
    } else {
        accounts
    }
}

/// What `update_message` returns: success, or the first of these reasons
/// that applies. A record must exist at the address; the caller must be the
/// owner that it stores; the message must fit.
pub open spec fn update_message_result(
    records: Map<Seq<u8>, HelloWorldView>,
    accounts: UpdateMessage,
    new_message: Seq<char>,
) -> Result<(), RecordError> {
    if !records.contains_key(accounts.hello_world@) {
        Err(RecordError::RecordNotFound)
    } else if records[accounts.hello_world@].owner != accounts.owner.key@ {
        Err(RecordError::Unauthorized)
    } else if !fits(new_message) {
        Err(RecordError::MessageTooLong)
    } else {
        Ok(())
    }
}

/// The records after `update_message`: the record has the new message and
/// one more update where the call succeeds.
pub open spec fn records_after_update_message(
    records: Map<Seq<u8>, HelloWorldView>,
    accounts: UpdateMessage,
    new_message: Seq<char>,
) -> Map<Seq<u8>, HelloWorldView> {
    if update_message_result(records, accounts, new_message) is Ok {
        records.insert(accounts.hello_world@, records[accounts.hello_world@].updated(new_message))
    } else {
        records
    }
}

/// What `get_message` returns: the message of the record at the address, or
/// the reason that there is none.
pub open spec fn get_message_result(
    records: Map<Seq<u8>, HelloWorldView>,
    accounts: GetMessage,
) -> Result<Seq<char>, RecordError> {
    if records.contains_key(accounts.hello_world@) {
        Ok(records[accounts.hello_world@].message)
    } else {
        Err(RecordError::RecordNotFound)
    }
}

/// Decides whether a record may be created, given what the derivation found
/// for the caller and whether the named address is in use.
pub fn validate_initialize(derived: &Option<(Pubkey, u8)>, in_use: bool, accounts: &Initialize) -> (result:
    Result<(), RecordError>)
    ensures
        result == initialize_check(derived_view(*derived), in_use, *accounts),
{
    if !derivation_matches(derived, &accounts.hello_world) {
        Err(RecordError::DerivationMismatch)
    } else if in_use {
        Err(RecordError::AddressAlreadyInUse)
    } else if accounts.owner.lamports < accounts.system_program.allocation_cost {
        Err(RecordError::InsufficientFunds)
    } else {
        Ok(())
    }
}

/// Creates the caller's record at the address derived from the caller's key.
///
/// The caller becomes the owner and pays the cost of the storage; the record
/// starts with the greeting and no updates. Returns the address of the new
/// record.
pub fn initialize(ledger: &mut Ledger, accounts: &mut Initialize) -> (result: Result<Pubkey, RecordError>)
    requires
        old(ledger).wf(),
    ensures
        final(ledger).wf(),
        result == initialize_result(old(ledger)@, *old(accounts)),
        final(ledger)@ == records_after_initialize(old(ledger)@, *old(accounts)),
        *final(accounts) == accounts_after_initialize(old(ledger)@, *old(accounts)),
{
    let derived = find_record_address(&accounts.owner.key);
    let in_use = ledger.contains(&accounts.hello_world);
    match validate_initialize(&derived, in_use, accounts) {
        Err(error) => Err(error),
        Ok(()) => {
            let record = HelloWorld::create(accounts.owner.key);
            proof {
                lemma_greeting_fits();
            }
            ledger.allocate(accounts.hello_world, record);
            accounts.owner.lamports = accounts.owner.lamports
                - accounts.system_program.allocation_cost;
            Ok(accounts.hello_world)
        },
    }
}

/// Replaces the message of the caller's record and counts the update.
pub fn update_message(ledger: &mut Ledger, accounts: &UpdateMessage, new_message: String) -> (result: Result<
    (),
    RecordError,
>)
    requires
        old(ledger).wf(),
    ensures
        final(ledger).wf(),
        result == update_message_result(old(ledger)@, *accounts, new_message@),
        final(ledger)@ == records_after_update_message(old(ledger)@, *accounts, new_message@),
{
    match ledger.get(&accounts.hello_world) {
        None => {
            return Err(RecordError::RecordNotFound);
        },
        Some(record) => {
            if !record.is_owned_by(&accounts.owner.key) {
                return Err(RecordError::Unauthorized);
            }
        },
    }
    ledger.set_message(&accounts.hello_world, new_message)
}

/// Returns a copy of the message of the record at the address. Anyone may
/// read it.
pub fn get_message(ledger: &Ledger, accounts: &GetMessage) -> (result: Result<String, RecordError>)
    requires
        ledger.wf(),
    ensures
        match result {
            Ok(message) => get_message_result(ledger@, *accounts) == Ok::<Seq<char>, RecordError>(
                message@,
            ),
            Err(error) => get_message_result(ledger@, *accounts) == Err::<Seq<char>, RecordError>(
                error,
            ),
        },
{
    match ledger.get(&accounts.hello_world) {
        Some(record) => Ok(record.get_message()),
        None => Err(RecordError::RecordNotFound),
    }
}

} // verus!
