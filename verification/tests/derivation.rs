use std::collections::HashSet;

use hello_world::{derivation_matches, find_record_address, program_id, Pubkey};

fn owner(seed: u32) -> Pubkey {
    let mut bytes = [0u8; 32];
    bytes[..4].copy_from_slice(&seed.to_le_bytes());
    bytes[31] = 7;
    Pubkey::new_from_array(bytes)
}

fn outside(key: &Pubkey) -> anchor_lang::prelude::Pubkey {
    anchor_lang::prelude::Pubkey::new_from_array(key.to_bytes())
}

#[test]
fn program_id_is_the_all_zero_key() {
    assert_eq!(program_id().to_bytes(), [0u8; 32]);
}

#[test]
fn keys_compare_by_their_bytes() {
    let mut bytes = [9u8; 32];
    let first = Pubkey::new_from_array(bytes);
    assert_eq!(first, Pubkey::new_from_array(bytes));
    assert_eq!(first.to_bytes(), bytes);
    bytes[31] = 8;
    assert_ne!(first, Pubkey::new_from_array(bytes));
    bytes[31] = 9;
    bytes[0] = 8;
    assert_ne!(first, Pubkey::new_from_array(bytes));
}

#[test]
fn derivation_agrees_with_the_runtime_library() {
    for seed in 0..20 {
        let who = owner(seed);
        let (expected, expected_bump) = anchor_lang::prelude::Pubkey::find_program_address(
            &[b"hello_world", &who.to_bytes()],
            &outside(&program_id()),
        );
        let (address, bump) = find_record_address(&who).unwrap();
        assert_eq!(address.to_bytes(), expected.to_bytes());
        assert_eq!(bump, expected_bump);
        assert_ne!(address, who);
    }
}

#[test]
fn derivation_is_deterministic() {
    for seed in 0..50 {
        let first = find_record_address(&owner(seed));
        let second = find_record_address(&owner(seed));
        assert!(first.is_some());
        assert_eq!(first, second);
    }
}

#[test]
fn distinct_owners_get_distinct_addresses() {
    let mut seen = HashSet::new();
    for seed in 0..1000 {
        let (address, _) = find_record_address(&owner(seed)).unwrap();
        assert!(seen.insert(address.to_bytes()));
    }
    assert_eq!(seen.len(), 1000);
}

#[test]
fn derived_address_needs_its_bump_seed() {
    for seed in 0..20 {
        let who = owner(seed);
        let (address, bump) = find_record_address(&who).unwrap();
        assert!(!address.is_on_curve());
        assert!(!outside(&address).is_on_curve());
        let rebuilt = anchor_lang::prelude::Pubkey::create_program_address(
            &[b"hello_world", &who.to_bytes(), &[bump]],
            &outside(&program_id()),
        )
        .unwrap();
        assert_eq!(rebuilt.to_bytes(), address.to_bytes());
    }
}

#[test]
fn curve_test_agrees_with_the_runtime_library() {
    let mut base_point = [0x66u8; 32];
    base_point[0] = 0x58;
    assert!(Pubkey::new_from_array(base_point).is_on_curve());
    let mut on_curve = 0;
    let mut off_curve = 0;
    for seed in 0..200 {
        let key = owner(seed);
        assert_eq!(key.is_on_curve(), outside(&key).is_on_curve());
        if key.is_on_curve() {
            on_curve += 1;
        } else {
            off_curve += 1;
        }
    }
    assert!(on_curve > 0);
    assert!(off_curve > 0);
}

#[test]
fn derivation_matches_only_the_derived_address() {
    let who = owner(3);
    let derived = find_record_address(&who);
    let (address, _) = derived.unwrap();
    assert!(derivation_matches(&derived, &address));
    assert!(!derivation_matches(&derived, &who));
    assert!(!derivation_matches(&find_record_address(&owner(4)), &address));
    assert!(!derivation_matches(&None, &address));
}
