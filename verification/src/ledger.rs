//! The record store: every record that exists, by its address.

use vstd::prelude::*;
use crate::address::{curve_point, is_record_address};
use crate::error::RecordError;
use crate::pubkey::Pubkey;
use crate::record::{fits, HelloWorld, HelloWorldView};

verus! {

/// A record with the address that it is kept at.
struct Entry {
    address: Pubkey,
    record: HelloWorld,
}

/// All records that exist. Its view maps the bytes of an address to the
/// record kept there.
pub struct Ledger {
    entries: Vec<Entry>,
}

/// What holds of the records of a ledger at all times: each one sits at the
/// address derived from its owner, and each message fits into its storage.
pub open spec fn consistent(records: Map<Seq<u8>, HelloWorldView>) -> bool {
    forall|address: Seq<u8>| #[trigger]
        records.contains_key(address) ==> {
            &&& is_record_address(address, records[address].owner)
            &&& fits(records[address].message)
        }
}

/// No record sits at a point of the curve, so no key pair can sign for the
/// address of a record.
pub open spec fn off_curve(records: Map<Seq<u8>, HelloWorldView>) -> bool {
    forall|address: Seq<u8>| #[trigger] records.contains_key(address) ==> !curve_point(address)
}

/// Why a write of `message` to the record at `address` is rejected, if it is.
pub open spec fn write_result(
    records: Map<Seq<u8>, HelloWorldView>,
    address: Seq<u8>,
    message: Seq<char>,
) -> Result<(), RecordError> {
    if !records.contains_key(address) {
        Err(RecordError::RecordNotFound)
    } else if !fits(message) {
        Err(RecordError::MessageTooLong)
    } else {
        Ok(())
    }
}

/// The records after a write of `message` to the record at `address`: the
/// record is updated where the write is accepted, and nothing changes where
/// it is rejected.
pub open spec fn after_write(
    records: Map<Seq<u8>, HelloWorldView>,
    address: Seq<u8>,
    message: Seq<char>,
) -> Map<Seq<u8>, HelloWorldView> {
    if write_result(records, address, message) is Ok {
        records.insert(address, records[address].updated(message))
    } else {
        records
    }
}

impl View for Ledger {
    type V = Map<Seq<u8>, HelloWorldView>;

    closed spec fn view(&self) -> Map<Seq<u8>, HelloWorldView> {
        Map::new(
            |address: Seq<u8>| exists|i: int| self.holds(address, i),
            |address: Seq<u8>| self.entries@[self.slot(address)].record@,
        )
    }
}

impl Ledger {
    /// Entry `i` is the one kept at `address`.
    spec fn holds(&self, address: Seq<u8>, i: int) -> bool {
        0 <= i < self.entries@.len() && self.entries@[i].address@ == address
    }

    /// The index of the entry kept at `address`.
    spec fn slot(&self, address: Seq<u8>) -> int {
        choose|i: int| self.holds(address, i)
    }

    /// No address has two entries.
    pub closed spec fn distinct(&self) -> bool {
        forall|i: int, j: int|
            0 <= i < j < self.entries@.len() ==> self.entries@[i].address@
                != self.entries@[j].address@
    }

    /// The ledger is well formed: its entries have distinct addresses, its
    /// records are consistent and none of them sits at a point of the curve.
    pub open spec fn wf(&self) -> bool {
        self.distinct() && consistent(self@) && off_curve(self@)
    }

    /// In a ledger with distinct addresses, the entry at an index is what the
    /// view has at that entry's address.
    proof fn lemma_entry_is_viewed(&self, i: int)
        requires
            self.distinct(),
            0 <= i < self.entries@.len(),
        ensures
            self@.contains_key(self.entries@[i].address@),
            self@[self.entries@[i].address@] == self.entries@[i].record@,
            self.slot(self.entries@[i].address@) == i,
    {
        let address = self.entries@[i].address@;
        assert(self.holds(address, i));
        let k = self.slot(address);
        assert(self.holds(address, k));
        if k < i {
            assert(self.entries@[k].address@ != self.entries@[i].address@);
        } else if i < k {
            assert(self.entries@[i].address@ != self.entries@[k].address@);
        }
    }

    /// A ledger without records.
    pub fn new() -> (ledger: Ledger)
        ensures
            ledger.wf(),
            ledger@ == Map::<Seq<u8>, HelloWorldView>::empty(),
    {
        let ledger = Ledger { entries: Vec::new() };
        assert(ledger@ =~= Map::<Seq<u8>, HelloWorldView>::empty());
        ledger
    }

    /// The index of the entry kept at `address`, if there is one.
    fn position(&self, address: &Pubkey) -> (at: Option<usize>)
        ensures
            match at {
                Some(i) => self.holds(address@, i as int),
                None => forall|i: int| !self.holds(address@, i),
            },
    {
        let mut i: usize = 0;
        while i < self.entries.len()
            invariant
                i <= self.entries@.len(),
                forall|j: int| 0 <= j < i ==> !self.holds(address@, j),
            decreases self.entries@.len() - i,
        {
            if self.entries[i].address == *address {
                return Some(i);
            }
            i += 1;
        }
        None
    }

    /// Whether a record exists at `address`.
    pub fn contains(&self, address: &Pubkey) -> (found: bool)
        ensures
            found == self@.contains_key(address@),
    {
        self.position(address).is_some()
    }

    /// The record at `address`, if one exists.
    pub fn get(&self, address: &Pubkey) -> (found: Option<&HelloWorld>)
        requires
            self.wf(),
        ensures
            match found {
                Some(record) => self@.contains_key(address@) && self@[address@] == record@,
                None => !self@.contains_key(address@),
            },
    {
        match self.position(address) {
            Some(i) => {
                proof {
                    self.lemma_entry_is_viewed(i as int);
                }
                Some(&self.entries[i].record)
            },
            None => None,
        }
    }

    /// Creates a record at a free address.
    pub(crate) fn allocate(&mut self, address: Pubkey, record: HelloWorld)
        requires
            old(self).wf(),
            !old(self)@.contains_key(address@),
            is_record_address(address@, record@.owner),
            !curve_point(address@),
            fits(record@.message),
        ensures
            final(self).wf(),
            final(self)@ == old(self)@.insert(address@, record@),
    {
        let ghost before = *self;
        let ghost added = record@;
        self.entries.push(Entry { address, record });
        proof {
            let after = *self;
            let last = before.entries@.len() as int;
            assert forall|a: Seq<u8>, i: int| after.holds(a, i) <==> before.holds(a, i) || (i == last
                && a == address@) by {}
            assert forall|i: int, j: int| 0 <= i < j < after.entries@.len() implies after.entries@[i].address@
                != after.entries@[j].address@ by {
                if j == last {
                    assert(before.holds(after.entries@[i].address@, i));
                }
            }
            assert forall|a: Seq<u8>| #[trigger] after@.contains_key(a) implies after@[a] == before@.insert(
                address@,
                added,
            )[a] by {
                let i = after.slot(a);
                after.lemma_entry_is_viewed(i);
                if i < last {
                    before.lemma_entry_is_viewed(i);
                }
            }
            assert(after.holds(address@, last));
            assert(after@ =~= before@.insert(address@, added));
        }
    }

    /// Replaces the message of the record at `address` and counts the
    /// update. Nothing changes where no record exists there or the message
    /// does not fit.
    pub(crate) fn set_message(&mut self, address: &Pubkey, new_message: String) -> (result: Result<
        (),
        RecordError,
    >)
        requires
            old(self).wf(),
        ensures
            final(self).wf(),
            result == write_result(old(self)@, address@, new_message@),
            final(self)@ == after_write(old(self)@, address@, new_message@),
    {
        match self.position(address) {
            None => Err(RecordError::RecordNotFound),
            Some(i) => {
                let ghost before = *self;
                proof {
                    before.lemma_entry_is_viewed(i as int);
                }
                let result = self.entries[i].record.set_message(new_message);
                proof {
                    let after = *self;
                    assert forall|a: Seq<u8>, j: int| after.holds(a, j) <==> before.holds(a, j) by {}
                    assert forall|a: Seq<u8>| #[trigger] after@.contains_key(a) implies after@[a]
                        == after_write(before@, address@, new_message@)[a] by {
                        let j = after.slot(a);
                        after.lemma_entry_is_viewed(j);
                        before.lemma_entry_is_viewed(j);
                    }
                    assert(after@ =~= after_write(before@, address@, new_message@));
                }
                result
            },
        }
    }
}

} // verus!
