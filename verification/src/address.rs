//! Identity derivation: the storage address of an owner's record.
//!
//! A record lives at the program-derived address that Solana computes from
//! the namespace tag, the owner's key and the program's id. Such an address is
//! never a point of the ed25519 curve, so no key pair can sign for it.

use vstd::prelude::*;
use crate::pubkey::Pubkey;

verus! {

/// The namespace tag that every record address is derived under: the bytes of
/// the text `hello_world`.
pub const RECORD_SEED: [u8; 11] = [104, 101, 108, 108, 111, 95, 119, 111, 114, 108, 100];

/// The address and bump seed that `Pubkey::try_find_program_address` of
/// `anchor_lang` derives from a list of seeds and a program id, or `None`
/// where it finds no address.
pub uninterp spec fn program_address(seeds: Seq<Seq<u8>>, program_id: Seq<u8>) -> Option<(Seq<u8>, u8)>;

/// Whether 32 bytes are the compressed form of a point of the ed25519 curve,
/// as `Pubkey::is_on_curve` of `anchor_lang` decides it.
pub uninterp spec fn curve_point(bytes: Seq<u8>) -> bool;

/// What a derivation found, with the address as its bytes.
pub open spec fn derived_view(derived: Option<(Pubkey, u8)>) -> Option<(Seq<u8>, u8)> {
    match derived {
        Some((address, bump)) => Some((address@, bump)),
        None => None,
    }
}

/// Calls `Pubkey::try_find_program_address` with two seeds.
///
/// Trusted: the result is the named derivation of exactly these seeds and this
/// program id, and an address that comes out is off the curve, since the
/// derivation skips every candidate that is a curve point.
#[verifier::external_body]
fn try_find_program_address(first: &[u8], second: &[u8], program_id: &Pubkey) -> (found: Option<(Pubkey, u8)>)
    ensures
        derived_view(found) == program_address(seq![first@, second@], program_id@),
        found matches Some((address, _)) ==> !curve_point(address@),
{
    let program = anchor_lang::prelude::Pubkey::new_from_array(program_id.bytes);
    match anchor_lang::prelude::Pubkey::try_find_program_address(&[first, second], &program) {
        Some((address, bump)) => Some((Pubkey { bytes: address.to_bytes() }, bump)),
        None => None,
    }
}

/// Calls `Pubkey::is_on_curve`.
///
/// Trusted: the answer is the named curve test of the key's bytes.
#[verifier::external_body]
fn is_on_curve(key: &Pubkey) -> (on_curve: bool)
    ensures
        on_curve == curve_point(key@),
{
    anchor_lang::prelude::Pubkey::new_from_array(key.bytes).is_on_curve()
}

/// The id of the program that owns the records: the all-zero key.
pub open spec fn program_id_bytes() -> Seq<u8> {
    Seq::new(32, |i: int| 0u8)
}

/// The id of the program that owns the records.
pub fn program_id() -> (id: Pubkey)
    ensures
        id@ == program_id_bytes(),
{
    let id = Pubkey::new_from_array([0u8; 32]);
    assert(id@ =~= program_id_bytes());
    id
}

/// The address and bump seed of the record of `owner`, if the derivation
/// finds one.
pub open spec fn record_address(owner: Seq<u8>) -> Option<(Seq<u8>, u8)> {
    program_address(seq![RECORD_SEED@, owner], program_id_bytes())
}

/// Whether `candidate` is the address of the record of `owner`.
pub open spec fn is_record_address(candidate: Seq<u8>, owner: Seq<u8>) -> bool {
    derivation_gives(record_address(owner), candidate)
}

/// Whether a derivation found an address and it is `candidate`.
pub open spec fn derivation_gives(derived: Option<(Seq<u8>, u8)>, candidate: Seq<u8>) -> bool {
    derived matches Some((address, _)) && address == candidate
}

/// Derives the address of the record of `owner`, and the bump seed that makes
/// it reachable.
///
/// The result depends on the owner's bytes alone, and a derived address is
/// not a curve point.
pub fn find_record_address(owner: &Pubkey) -> (found: Option<(Pubkey, u8)>)
    ensures
        derived_view(found) == record_address(owner@),
        found matches Some((address, _)) ==> !curve_point(address@),
{
    let program = program_id();
    let seed = RECORD_SEED;
    try_find_program_address(seed.as_slice(), owner.bytes.as_slice(), &program)
}

/// Compares what a derivation found with the address that a caller supplied.
/// A derivation that found nothing matches no address.
pub fn derivation_matches(derived: &Option<(Pubkey, u8)>, candidate: &Pubkey) -> (matches: bool)
    ensures
        matches == derivation_gives(derived_view(*derived), candidate@),
{
    match derived {
        Some((address, _)) => *address == *candidate,
        None => false,
    }
}

impl Pubkey {
    /// Whether the key is a point of the ed25519 curve, as the key of a key
    /// pair is and a derived address is not.
    pub fn is_on_curve(&self) -> (on_curve: bool)
        ensures
            on_curve == curve_point(self@),
    {
        is_on_curve(self)
    }
}

} // verus!
