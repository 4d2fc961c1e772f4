use hello_world::{
    find_record_address, get_message, initialize, update_message, validate_initialize, GetMessage,
    Initialize, Ledger, Pubkey, RecordError, Signer, System, UpdateMessage,
};

const COST: u64 = 1_948_800;

fn owner(tag: u8) -> Pubkey {
    let mut bytes = [tag; 32];
    bytes[0] = 200;
    Pubkey::new_from_array(bytes)
}

fn address_of(who: &Pubkey) -> Pubkey {
    find_record_address(who).unwrap().0
}

fn creation(who: &Pubkey, lamports: u64) -> Initialize {
    Initialize {
        hello_world: address_of(who),
        owner: Signer { key: *who, lamports },
        system_program: System { allocation_cost: COST },
    }
}

fn update_by(address: &Pubkey, caller: &Pubkey) -> UpdateMessage {
    UpdateMessage { hello_world: *address, owner: Signer { key: *caller, lamports: 0 } }
}

fn read(ledger: &Ledger, address: &Pubkey) -> Result<String, RecordError> {
    get_message(ledger, &GetMessage { hello_world: *address })
}

fn ledger_with(who: &Pubkey) -> Ledger {
    let mut ledger = Ledger::new();
    let mut accounts = creation(who, COST);
    assert_eq!(initialize(&mut ledger, &mut accounts), Ok(address_of(who)));
    ledger
}

#[test]
fn initialize_creates_the_greeting_with_count_zero() {
    let who = owner(1);
    let mut ledger = Ledger::new();
    let mut accounts = creation(&who, 5_000_000);
    let address = address_of(&who);
    assert!(!ledger.contains(&address));
    assert_eq!(initialize(&mut ledger, &mut accounts), Ok(address));
    assert!(ledger.contains(&address));
    assert_eq!(read(&ledger, &address), Ok("Hello, Solana!".to_string()));
    let record = ledger.get(&address).unwrap();
    assert_eq!(record.count, 0);
    assert_eq!(record.owner, who);
    assert_eq!(record.message, "Hello, Solana!");
}

#[test]
fn initialize_charges_the_caller() {
    let who = owner(1);
    let mut ledger = Ledger::new();
    let mut accounts = creation(&who, 5_000_000);
    assert!(initialize(&mut ledger, &mut accounts).is_ok());
    assert_eq!(accounts.owner.lamports, 5_000_000 - COST);
    assert_eq!(accounts.owner.key, who);
    assert_eq!(accounts.hello_world, address_of(&who));
    assert_eq!(accounts.system_program.allocation_cost, COST);
}

#[test]
fn initialize_twice_fails_with_address_already_in_use() {
    let who = owner(1);
    let address = address_of(&who);
    let mut ledger = Ledger::new();
    let mut accounts = creation(&who, 5_000_000);
    assert_eq!(initialize(&mut ledger, &mut accounts), Ok(address));
    assert_eq!(initialize(&mut ledger, &mut accounts), Err(RecordError::AddressAlreadyInUse));
    assert_eq!(accounts.owner.lamports, 5_000_000 - COST);
    assert_eq!(read(&ledger, &address), Ok("Hello, Solana!".to_string()));
    assert_eq!(ledger.get(&address).unwrap().count, 0);
}

#[test]
fn second_initialize_does_not_reset_an_updated_record() {
    let who = owner(1);
    let address = address_of(&who);
    let mut ledger = ledger_with(&who);
    assert_eq!(update_message(&mut ledger, &update_by(&address, &who), "Hi".to_string()), Ok(()));
    let mut again = creation(&who, 5_000_000);
    assert_eq!(initialize(&mut ledger, &mut again), Err(RecordError::AddressAlreadyInUse));
    assert_eq!(again.owner.lamports, 5_000_000);
    assert_eq!(read(&ledger, &address), Ok("Hi".to_string()));
    assert_eq!(ledger.get(&address).unwrap().count, 1);
}

#[test]
fn initialize_at_another_address_is_a_derivation_mismatch() {
    let who = owner(1);
    let other = owner(2);
    let mut ledger = Ledger::new();
    let mut accounts = creation(&who, 5_000_000);
    accounts.hello_world = address_of(&other);
    assert_eq!(initialize(&mut ledger, &mut accounts), Err(RecordError::DerivationMismatch));
    assert_eq!(accounts.owner.lamports, 5_000_000);
    assert!(!ledger.contains(&address_of(&other)));
    assert!(!ledger.contains(&address_of(&who)));
    accounts.hello_world = who;
    assert_eq!(initialize(&mut ledger, &mut accounts), Err(RecordError::DerivationMismatch));
    assert!(!ledger.contains(&who));
}

#[test]
fn initialize_without_the_cost_is_insufficient_funds() {
    let who = owner(1);
    let address = address_of(&who);
    let mut ledger = Ledger::new();
    let mut poor = creation(&who, COST - 1);
    assert_eq!(initialize(&mut ledger, &mut poor), Err(RecordError::InsufficientFunds));
    assert_eq!(poor.owner.lamports, COST - 1);
    assert!(!ledger.contains(&address));
    assert_eq!(read(&ledger, &address), Err(RecordError::RecordNotFound));
    let mut exact = creation(&who, COST);
    assert_eq!(initialize(&mut ledger, &mut exact), Ok(address));
    assert_eq!(exact.owner.lamports, 0);
}

#[test]
fn initialize_reports_the_first_failing_check() {
    let who = owner(1);
    let other = owner(2);
    let mut ledger = ledger_with(&who);
    let mut wrong_and_poor = creation(&other, 0);
    wrong_and_poor.hello_world = address_of(&who);
    assert_eq!(initialize(&mut ledger, &mut wrong_and_poor), Err(RecordError::DerivationMismatch));
    let mut used_and_poor = creation(&who, 0);
    assert_eq!(initialize(&mut ledger, &mut used_and_poor), Err(RecordError::AddressAlreadyInUse));
}

#[test]
fn validate_initialize_decides_from_the_derivation() {
    let who = owner(1);
    let accounts = creation(&who, COST);
    let found = Some((accounts.hello_world, 255));
    assert_eq!(validate_initialize(&found, false, &accounts), Ok(()));
    assert_eq!(validate_initialize(&found, true, &accounts), Err(RecordError::AddressAlreadyInUse));
    assert_eq!(validate_initialize(&None, false, &accounts), Err(RecordError::DerivationMismatch));
    assert_eq!(validate_initialize(&None, true, &accounts), Err(RecordError::DerivationMismatch));
    let elsewhere = Some((who, 255));
    assert_eq!(
        validate_initialize(&elsewhere, false, &accounts),
        Err(RecordError::DerivationMismatch)
    );
    let poor = creation(&who, COST - 1);
    assert_eq!(validate_initialize(&found, false, &poor), Err(RecordError::InsufficientFunds));
    assert_eq!(validate_initialize(&found, true, &poor), Err(RecordError::AddressAlreadyInUse));
}

#[test]
fn update_message_by_the_owner_is_stored_and_counted() {
    let who = owner(1);
    let address = address_of(&who);
    let mut ledger = ledger_with(&who);
    assert_eq!(update_message(&mut ledger, &update_by(&address, &who), "Hi".to_string()), Ok(()));
    assert_eq!(read(&ledger, &address), Ok("Hi".to_string()));
    assert_eq!(ledger.get(&address).unwrap().count, 1);
    assert_eq!(update_message(&mut ledger, &update_by(&address, &who), "Hi".to_string()), Ok(()));
    assert_eq!(read(&ledger, &address), Ok("Hi".to_string()));
    assert_eq!(ledger.get(&address).unwrap().count, 2);
    assert_eq!(ledger.get(&address).unwrap().owner, who);
}

#[test]
fn update_message_by_a_stranger_is_unauthorized() {
    let who = owner(1);
    let stranger = owner(2);
    let address = address_of(&who);
    let mut ledger = ledger_with(&who);
    assert_eq!(
        update_message(&mut ledger, &update_by(&address, &stranger), "Hi".to_string()),
        Err(RecordError::Unauthorized)
    );
    assert_eq!(
        update_message(&mut ledger, &update_by(&address, &address), "Hi".to_string()),
        Err(RecordError::Unauthorized)
    );
    assert_eq!(read(&ledger, &address), Ok("Hello, Solana!".to_string()));
    assert_eq!(ledger.get(&address).unwrap().count, 0);
    assert_eq!(ledger.get(&address).unwrap().owner, who);
}

#[test]
fn update_message_over_the_capacity_is_message_too_long() {
    let who = owner(1);
    let address = address_of(&who);
    let mut ledger = ledger_with(&who);
    assert_eq!(update_message(&mut ledger, &update_by(&address, &who), "Hi".to_string()), Ok(()));
    assert_eq!(
        update_message(&mut ledger, &update_by(&address, &who), "x".repeat(101)),
        Err(RecordError::MessageTooLong)
    );
    assert_eq!(read(&ledger, &address), Ok("Hi".to_string()));
    assert_eq!(ledger.get(&address).unwrap().count, 1);
    assert_eq!(update_message(&mut ledger, &update_by(&address, &who), "x".repeat(100)), Ok(()));
    assert_eq!(read(&ledger, &address), Ok("x".repeat(100)));
    assert_eq!(ledger.get(&address).unwrap().count, 2);
}

#[test]
fn update_message_checks_the_owner_before_the_length() {
    let who = owner(1);
    let stranger = owner(2);
    let address = address_of(&who);
    let mut ledger = ledger_with(&who);
    assert_eq!(
        update_message(&mut ledger, &update_by(&address, &stranger), "x".repeat(101)),
        Err(RecordError::Unauthorized)
    );
    assert_eq!(
        update_message(&mut ledger, &update_by(&address_of(&stranger), &stranger), "x".repeat(101)),
        Err(RecordError::RecordNotFound)
    );
}

#[test]
fn get_message_without_a_record_is_record_not_found() {
    let who = owner(1);
    let empty = Ledger::new();
    assert_eq!(read(&empty, &address_of(&who)), Err(RecordError::RecordNotFound));
    assert_eq!(read(&empty, &who), Err(RecordError::RecordNotFound));
    assert!(empty.get(&who).is_none());
    let ledger = ledger_with(&who);
    assert_eq!(read(&ledger, &who), Err(RecordError::RecordNotFound));
    assert_eq!(read(&ledger, &address_of(&owner(2))), Err(RecordError::RecordNotFound));
}

#[test]
fn update_message_without_a_record_is_record_not_found() {
    let who = owner(1);
    let address = address_of(&who);
    let mut ledger = Ledger::new();
    assert_eq!(
        update_message(&mut ledger, &update_by(&address, &who), "Hi".to_string()),
        Err(RecordError::RecordNotFound)
    );
    assert!(!ledger.contains(&address));
}

#[test]
fn records_of_different_owners_are_independent() {
    let first = owner(1);
    let second = owner(2);
    let mut ledger = ledger_with(&first);
    let mut accounts = creation(&second, COST);
    assert_eq!(initialize(&mut ledger, &mut accounts), Ok(address_of(&second)));
    assert_ne!(address_of(&first), address_of(&second));
    assert_eq!(
        update_message(&mut ledger, &update_by(&address_of(&second), &second), "two".to_string()),
        Ok(())
    );
    assert_eq!(read(&ledger, &address_of(&first)), Ok("Hello, Solana!".to_string()));
    assert_eq!(ledger.get(&address_of(&first)).unwrap().count, 0);
    assert_eq!(read(&ledger, &address_of(&second)), Ok("two".to_string()));
    assert_eq!(ledger.get(&address_of(&second)).unwrap().count, 1);
    assert_eq!(
        update_message(&mut ledger, &update_by(&address_of(&first), &second), "no".to_string()),
        Err(RecordError::Unauthorized)
    );
}

#[test]
fn get_message_returns_a_copy() {
    let who = owner(1);
    let address = address_of(&who);
    let mut ledger = ledger_with(&who);
    let mut copy = read(&ledger, &address).unwrap();
    copy.push_str(" and more");
    assert_eq!(read(&ledger, &address), Ok("Hello, Solana!".to_string()));
    assert_eq!(update_message(&mut ledger, &update_by(&address, &who), copy), Ok(()));
    assert_eq!(read(&ledger, &address), Ok("Hello, Solana! and more".to_string()));
}
