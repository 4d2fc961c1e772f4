//! What holds of the record store as a whole, proved from the contracts of
//! its operations.

use vstd::prelude::*;
use vstd::utf8::encode_utf8;
use crate::accounts::{GetMessage, Initialize, UpdateMessage};
use crate::address::{curve_point, is_record_address, record_address};
use crate::error::RecordError;
use crate::ledger::{consistent, Ledger};
use crate::program::{
    accounts_after_initialize, get_message_result, initialize_result, records_after_initialize,
    records_after_update_message, update_message_result,
};
use crate::pubkey::{Pubkey, PUBKEY_BYTES};
use crate::record::{
    fits, greeting, lemma_greeting_fits, next_count, HelloWorldView, MESSAGE_CAPACITY,
    RECORD_SPACE,
};

verus! {

/// Derivation is deterministic: owners with the same bytes have the same
/// record address and the same bump seed.
pub proof fn law_derivation_is_deterministic(first: Pubkey, second: Pubkey)
    requires
        first@ == second@,
    ensures
        record_address(first@) == record_address(second@),
{
}

/// Keys are equal exactly when their bytes are, and every key has 32 bytes.
pub proof fn law_keys_are_their_bytes(first: Pubkey, second: Pubkey)
    ensures
        first@.len() == PUBKEY_BYTES,
        (first@ == second@) <==> (first == second),
{
    if first@ == second@ {
        assert(first.bytes =~= second.bytes);
    }
}

/// The capacity is counted in bytes: a message fits into the storage of a
/// record exactly when its UTF-8 form has at most `MESSAGE_CAPACITY` bytes.
pub proof fn law_capacity_is_in_bytes(message: Seq<char>)
    ensures
        RECORD_SPACE == 152,
        fits(message) <==> encode_utf8(message).len() <= MESSAGE_CAPACITY,
{
}

/// An owner has at most one record: two records with the same owner are at
/// the same address.
pub proof fn law_one_record_per_owner(
    records: Map<Seq<u8>, HelloWorldView>,
    first: Seq<u8>,
    second: Seq<u8>,
)
    requires
        consistent(records),
        records.contains_key(first),
        records.contains_key(second),
        records[first].owner == records[second].owner,
    ensures
        first == second,
{
}

/// No record of a well-formed ledger sits at a point of the curve: the key of
/// a key pair is never the address of a record.
pub proof fn law_records_are_off_the_curve(ledger: Ledger, key: Pubkey)
    requires
        ledger.wf(),
        curve_point(key@),
    ensures
        !ledger@.contains_key(key@),
{
}

/// After a successful `initialize`, `get_message` at the new address returns
/// the greeting, and the record counts no updates and belongs to the caller.
pub proof fn law_initialize_then_get(records: Map<Seq<u8>, HelloWorldView>, accounts: Initialize)
    requires
        initialize_result(records, accounts) is Ok,
    ensures
        get_message_result(
            records_after_initialize(records, accounts),
            GetMessage { hello_world: accounts.hello_world },
        ) == Ok::<Seq<char>, RecordError>(greeting()),
        records_after_initialize(records, accounts)[accounts.hello_world@].count == 0,
        records_after_initialize(records, accounts)[accounts.hello_world@].owner
            == accounts.owner.key@,
{
}

/// After a successful `initialize`, every further `initialize` for the same
/// owner fails and changes nothing, whatever the caller's funds are: with
/// `AddressAlreadyInUse` at the same address, with `DerivationMismatch` at
/// any other.
pub proof fn law_initialize_twice(
    records: Map<Seq<u8>, HelloWorldView>,
    accounts: Initialize,
    again: Initialize,
)
    requires
        initialize_result(records, accounts) is Ok,
        again.owner.key@ == accounts.owner.key@,
    ensures
        ({
            let created = records_after_initialize(records, accounts);
            &&& again.hello_world@ == accounts.hello_world@ ==> initialize_result(created, again)
                == Err::<Pubkey, RecordError>(RecordError::AddressAlreadyInUse)
            &&& again.hello_world@ != accounts.hello_world@ ==> initialize_result(created, again)
                == Err::<Pubkey, RecordError>(RecordError::DerivationMismatch)
            &&& records_after_initialize(created, again) == created
            &&& accounts_after_initialize(created, again) == again
        }),
{
}

/// Calling `initialize` a second time with the accounts as the first call
/// left them fails with `AddressAlreadyInUse`.
pub proof fn law_initialize_is_not_idempotent(
    records: Map<Seq<u8>, HelloWorldView>,
    accounts: Initialize,
)
    requires
        initialize_result(records, accounts) is Ok,
    ensures
        initialize_result(
            records_after_initialize(records, accounts),
            accounts_after_initialize(records, accounts),
        ) == Err::<Pubkey, RecordError>(RecordError::AddressAlreadyInUse),
{
    law_initialize_twice(records, accounts, accounts_after_initialize(records, accounts));
}

/// `update_message` by the stored owner with a message that fits succeeds;
/// `get_message` then returns that message, and the counter has advanced by
/// one.
pub proof fn law_update_then_get(
    records: Map<Seq<u8>, HelloWorldView>,
    accounts: UpdateMessage,
    new_message: Seq<char>,
)
    requires
        records.contains_key(accounts.hello_world@),
        records[accounts.hello_world@].owner == accounts.owner.key@,
        fits(new_message),
    ensures
        update_message_result(records, accounts, new_message) == Ok::<(), RecordError>(()),
        get_message_result(
            records_after_update_message(records, accounts, new_message),
            GetMessage { hello_world: accounts.hello_world },
        ) == Ok::<Seq<char>, RecordError>(new_message),
        records_after_update_message(records, accounts, new_message)[accounts.hello_world@].count
            == next_count(records[accounts.hello_world@].count),
{
}

/// The first update of a new record brings its counter to 1, the second
/// to 2.
pub proof fn law_updates_are_counted(
    records: Map<Seq<u8>, HelloWorldView>,
    created: Initialize,
    accounts: UpdateMessage,
    first: Seq<char>,
    second: Seq<char>,
)
    requires
        initialize_result(records, created) is Ok,
        accounts.hello_world@ == created.hello_world@,
        accounts.owner.key@ == created.owner.key@,
        fits(first),
        fits(second),
    ensures
        ({
            let fresh = records_after_initialize(records, created);
            let once = records_after_update_message(fresh, accounts, first);
            let twice = records_after_update_message(once, accounts, second);
            &&& update_message_result(fresh, accounts, first) is Ok
            &&& once[accounts.hello_world@].count == 1
            &&& update_message_result(once, accounts, second) is Ok
            &&& twice[accounts.hello_world@].count == 2
            &&& twice[accounts.hello_world@].message == second
        }),
{
}

/// An update is accepted only at the address derived from the caller: the
/// comparison with the stored owner admits nobody that the derivation would
/// not.
pub proof fn law_update_is_at_the_derived_address(
    records: Map<Seq<u8>, HelloWorldView>,
    accounts: UpdateMessage,
    new_message: Seq<char>,
)
    requires
        consistent(records),
        update_message_result(records, accounts, new_message) is Ok,
    ensures
        is_record_address(accounts.hello_world@, accounts.owner.key@),
{
}

/// `update_message` by anyone but the stored owner fails with `Unauthorized`
/// and changes nothing, whatever the message is.
pub proof fn law_stranger_cannot_update(
    records: Map<Seq<u8>, HelloWorldView>,
    accounts: UpdateMessage,
    new_message: Seq<char>,
)
    requires
        records.contains_key(accounts.hello_world@),
        records[accounts.hello_world@].owner != accounts.owner.key@,
    ensures
        update_message_result(records, accounts, new_message) == Err::<(), RecordError>(
            RecordError::Unauthorized,
        ),
        records_after_update_message(records, accounts, new_message) == records,
{
}

/// `update_message` by the stored owner with a message of more than
/// `MESSAGE_CAPACITY` bytes fails with `MessageTooLong` and changes nothing.
pub proof fn law_long_message_is_rejected(
    records: Map<Seq<u8>, HelloWorldView>,
    accounts: UpdateMessage,
    new_message: Seq<char>,
)
    requires
        records.contains_key(accounts.hello_world@),
        records[accounts.hello_world@].owner == accounts.owner.key@,
        encode_utf8(new_message).len() > MESSAGE_CAPACITY,
    ensures
        update_message_result(records, accounts, new_message) == Err::<(), RecordError>(
            RecordError::MessageTooLong,
        ),
        records_after_update_message(records, accounts, new_message) == records,
{
}

/// `get_message` at an address without a record fails with `RecordNotFound`;
/// so does `update_message`, which then changes nothing.
pub proof fn law_missing_record(
    records: Map<Seq<u8>, HelloWorldView>,
    address: Pubkey,
    accounts: UpdateMessage,
    new_message: Seq<char>,
)
    requires
        !records.contains_key(address@),
        accounts.hello_world@ == address@,
    ensures
        get_message_result(records, GetMessage { hello_world: address }) == Err::<
            Seq<char>,
            RecordError,
        >(RecordError::RecordNotFound),
        update_message_result(records, accounts, new_message) == Err::<(), RecordError>(
            RecordError::RecordNotFound,
        ),
        records_after_update_message(records, accounts, new_message) == records,
{
}

/// An address holds a record only after an `initialize` that named it: the
/// call adds no record anywhere else, and `update_message` adds none at all.
pub proof fn law_records_come_from_initialize(
    records: Map<Seq<u8>, HelloWorldView>,
    created: Initialize,
    accounts: UpdateMessage,
    new_message: Seq<char>,
    address: Seq<u8>,
)
    requires
        !records.contains_key(address),
    ensures
        records_after_initialize(records, created).contains_key(address) ==> address
            == created.hello_world@ && initialize_result(records, created) is Ok,
        !records_after_update_message(records, accounts, new_message).contains_key(address),
{
}

/// No operation destroys a record or changes its owner, and `initialize`
/// leaves the message and the counter of every existing record as they were.
pub proof fn law_records_are_permanent(
    records: Map<Seq<u8>, HelloWorldView>,
    created: Initialize,
    accounts: UpdateMessage,
    new_message: Seq<char>,
    address: Seq<u8>,
)
    requires
        records.contains_key(address),
    ensures
        records_after_initialize(records, created).contains_key(address),
        records_after_initialize(records, created)[address] == records[address],
        records_after_update_message(records, accounts, new_message).contains_key(address),
        records_after_update_message(records, accounts, new_message)[address].owner
            == records[address].owner,
        address != accounts.hello_world@ ==> records_after_update_message(
            records,
            accounts,
            new_message,
        )[address] == records[address],
{
}

/// Updates of different records do not interfere: neither changes what the
/// other returns, and in either order they leave the same records.
pub proof fn law_updates_elsewhere_do_not_interfere(
    records: Map<Seq<u8>, HelloWorldView>,
    first: UpdateMessage,
    first_message: Seq<char>,
    second: UpdateMessage,
    second_message: Seq<char>,
)
    requires
        first.hello_world@ != second.hello_world@,
    ensures
        update_message_result(
            records_after_update_message(records, first, first_message),
            second,
            second_message,
        ) == update_message_result(records, second, second_message),
        records_after_update_message(
            records_after_update_message(records, first, first_message),
            second,
            second_message,
        ) == records_after_update_message(
            records_after_update_message(records, second, second_message),
            first,
            first_message,
        ),
{
    let one_way = records_after_update_message(
        records_after_update_message(records, first, first_message),
        second,
        second_message,
    );
    let other_way = records_after_update_message(
        records_after_update_message(records, second, second_message),
        first,
        first_message,
    );
    assert(one_way =~= other_way);
}

/// Creating one record and updating another do not interfere: neither
/// changes what the other returns, and in either order they leave the same
/// records.
pub proof fn law_initialize_elsewhere_does_not_interfere(
    records: Map<Seq<u8>, HelloWorldView>,
    created: Initialize,
    accounts: UpdateMessage,
    new_message: Seq<char>,
)
    requires
        created.hello_world@ != accounts.hello_world@,
    ensures
        update_message_result(records_after_initialize(records, created), accounts, new_message)
            == update_message_result(records, accounts, new_message),
        initialize_result(records_after_update_message(records, accounts, new_message), created)
            == initialize_result(records, created),
        records_after_update_message(
            records_after_initialize(records, created),
            accounts,
            new_message,
        ) == records_after_initialize(
            records_after_update_message(records, accounts, new_message),
            created,
        ),
{
    let one_way = records_after_update_message(
        records_after_initialize(records, created),
        accounts,
        new_message,
    );
    let other_way = records_after_initialize(
        records_after_update_message(records, accounts, new_message),
        created,
    );
    assert(one_way =~= other_way);
}

/// Creating the records of two owners at different addresses does not
/// interfere: neither changes what the other returns, and in either order
/// they leave the same records.
pub proof fn law_initializes_elsewhere_do_not_interfere(
    records: Map<Seq<u8>, HelloWorldView>,
    first: Initialize,
    second: Initialize,
)
    requires
        first.hello_world@ != second.hello_world@,
    ensures
        initialize_result(records_after_initialize(records, first), second) == initialize_result(
            records,
            second,
        ),
        records_after_initialize(records_after_initialize(records, first), second)
            == records_after_initialize(records_after_initialize(records, second), first),
{
    let one_way = records_after_initialize(records_after_initialize(records, first), second);
    let other_way = records_after_initialize(records_after_initialize(records, second), first);
    assert(one_way =~= other_way);
}

/// The counter of a record never decreases, except that it returns to zero
/// after the largest value.
pub proof fn law_count_is_monotonic(
    records: Map<Seq<u8>, HelloWorldView>,
    accounts: UpdateMessage,
    new_message: Seq<char>,
    address: Seq<u8>,
)
    requires
        records.contains_key(address),
        records[address].count < u64::MAX,
    ensures
        records_after_update_message(records, accounts, new_message)[address].count
            >= records[address].count,
        records_after_update_message(records, accounts, new_message)[address].count
            <= records[address].count + 1,
{
}

/// The operations keep the records consistent: every record stays at the
/// address derived from its owner, with a message that fits.
pub proof fn law_consistency_is_kept(
    records: Map<Seq<u8>, HelloWorldView>,
    created: Initialize,
    accounts: UpdateMessage,
    new_message: Seq<char>,
)
    requires
        consistent(records),
    ensures
        consistent(Map::<Seq<u8>, HelloWorldView>::empty()),
        consistent(records_after_initialize(records, created)),
        consistent(records_after_update_message(records, accounts, new_message)),
{
    lemma_greeting_fits();
}

} // verus!
