use soroban_sdk::{Bytes, Env};
use will_registry::condition::{Condition, Verdict};
use will_registry::digest::derive_will_id;
use will_registry::error::WillError;
use will_registry::principal::{Principal, PrincipalKind};
use will_registry::registry::WillRegistry;
use will_registry::will::{Beneficiary, WillStatus};

fn account(seed: u8) -> Principal {
    Principal { kind: PrincipalKind::Account, key: [seed; 32] }
}

fn heir(seed: u8, share: u32) -> Beneficiary {
    Beneficiary { address: account(seed), share, conditions: Vec::new() }
}

#[test]
fn test_create_will() {
    let env = Env::default();
    let owner = account(1);

    let mut contract = WillRegistry::initialize(owner);

    let content_hash = env.crypto().sha256(&Bytes::from_array(&env, &[1, 2, 3])).to_array();

    let beneficiary = Beneficiary {
        address: account(2),
        share: 10000, // 100%
        conditions: Vec::new(),
    };

    let beneficiaries = vec![beneficiary];
    let execution_conditions: Vec<Condition> = Vec::new();

    let will_id = contract
        .create_will(
            &owner,
            owner,
            content_hash,
            beneficiaries,
            execution_conditions,
            0,
        )
        .unwrap();

    let stored_will = contract.get_will(&will_id).unwrap();
    assert_eq!(stored_will.owner, owner);
    assert_eq!(stored_will.content_hash, content_hash);
    assert_eq!(stored_will.status, WillStatus::Draft);
}

#[test]
fn test_will_lifecycle() {
    // Test addresses
    let admin = account(1);
    let owner = account(2);
    let beneficiary = account(3);

    // Initialize contract
    let mut client = WillRegistry::initialize(admin);

    // Create will
    let content_hash = [0; 32];
    let beneficiaries = vec![Beneficiary {
        address: beneficiary,
        share: 10000,
        conditions: Vec::new(),
    }];

    // Create will with owner authentication
    let will_id = client
        .create_will(&owner, owner, content_hash, beneficiaries, Vec::new(), 0)
        .unwrap();

    assert_eq!(client.owner(), admin);
    let stored = client.get_will(&will_id).unwrap();
    assert_eq!(stored.owner, owner);
    assert_eq!(stored.content_hash, [0; 32]);
    assert_eq!(stored.beneficiaries.len(), 1);
    assert_eq!(stored.beneficiaries[0].address, beneficiary);
}

#[test]
fn create_will_stores_what_was_given() {
    let owner = account(7);
    let mut registry = WillRegistry::initialize(owner);
    let will_id = registry
        .create_will(&owner, owner, [9; 32], vec![heir(1, 2500), heir(2, 7500)], Vec::new(), 42)
        .unwrap();

    assert_eq!(will_id, derive_will_id(&owner, 42));
    let will = registry.get_will(&will_id).unwrap();
    assert_eq!(will.owner, owner);
    assert_eq!(will.content_hash, [9; 32]);
    assert_eq!(will.status, WillStatus::Draft);
    assert_eq!(will.created_at, 42);
    assert_eq!(will.last_modified, 42);
    assert_eq!(will.beneficiaries.len(), 2);
    assert_eq!(will.beneficiaries[0].share, 2500);
    assert_eq!(will.beneficiaries[1].share, 7500);
    assert!(will.execution_conditions.is_empty());
}

#[test]
fn create_will_id_is_the_sha256_of_owner_and_time() {
    let owner = Principal {
        kind: PrincipalKind::Account,
        key: [
            1, 2, 3, 4, 5, 6, 7, 8, 9, 10, 11, 12, 13, 14, 15, 16, 17, 18, 19, 20, 21, 22, 23, 24,
            25, 26, 27, 28, 29, 30, 31, 32,
        ],
    };
    let mut registry = WillRegistry::initialize(owner);
    let will_id = registry
        .create_will(&owner, owner, [0; 32], vec![heir(1, 10000)], Vec::new(), 1_700_000_000)
        .unwrap();
    assert_eq!(
        will_id,
        [
            166, 108, 252, 233, 30, 155, 143, 15, 70, 103, 62, 218, 164, 91, 163, 140, 215, 208,
            154, 32, 194, 69, 184, 254, 61, 194, 28, 113, 137, 80, 85, 125
        ]
    );
}

#[test]
fn create_will_rejects_shares_off_by_one() {
    let owner = account(1);
    let mut registry = WillRegistry::initialize(owner);

    let short = registry.create_will(&owner, owner, [0; 32], vec![heir(2, 9999)], Vec::new(), 1);
    assert_eq!(short, Err(WillError::InvalidShares));
    let long = registry.create_will(&owner, owner, [0; 32], vec![heir(2, 10001)], Vec::new(), 1);
    assert_eq!(long, Err(WillError::InvalidShares));
    let none = registry.create_will(&owner, owner, [0; 32], Vec::new(), Vec::new(), 1);
    assert_eq!(none, Err(WillError::InvalidShares));

    assert!(registry.get_will_data(&derive_will_id(&owner, 1)).is_none());
}

#[test]
fn create_will_does_not_wrap_large_shares() {
    // 4294957296 + 20000 is 10000 modulo 2^32.
    let owner = account(1);
    let mut registry = WillRegistry::initialize(owner);
    let result = registry.create_will(
        &owner,
        owner,
        [0; 32],
        vec![heir(2, 4_294_957_296), heir(3, 20_000)],
        Vec::new(),
        1,
    );
    assert_eq!(result, Err(WillError::InvalidShares));
}

#[test]
fn create_will_needs_the_owner() {
    let owner = account(1);
    let stranger = account(2);
    let mut registry = WillRegistry::initialize(owner);
    let result =
        registry.create_will(&stranger, owner, [0; 32], vec![heir(3, 10000)], Vec::new(), 1);
    assert_eq!(result, Err(WillError::Unauthorized));
    assert!(registry.get_will_data(&derive_will_id(&owner, 1)).is_none());
}

#[test]
fn create_will_never_overwrites() {
    let owner = account(1);
    let mut registry = WillRegistry::initialize(owner);
    let will_id = registry
        .create_will(&owner, owner, [1; 32], vec![heir(2, 10000)], Vec::new(), 5)
        .unwrap();

    let again = registry.create_will(
        &owner,
        owner,
        [2; 32],
        vec![heir(3, 4000), heir(4, 6000)],
        Vec::new(),
        5,
    );
    assert_eq!(again, Err(WillError::AlreadyExists));

    let will = registry.get_will(&will_id).unwrap();
    assert_eq!(will.content_hash, [1; 32]);
    assert_eq!(will.beneficiaries.len(), 1);

    // Another moment gives another id.
    let later = registry
        .create_will(&owner, owner, [2; 32], vec![heir(3, 10000)], Vec::new(), 6)
        .unwrap();
    assert_ne!(later, will_id);
}

#[test]
fn create_will_with_id_reports_collision_after_shares() {
    let owner = account(1);
    let mut registry = WillRegistry::initialize(owner);
    let id = [5; 32];
    assert_eq!(
        registry.create_will_with_id(id, &owner, owner, [0; 32], vec![heir(2, 10000)], Vec::new(), 1),
        Ok(id)
    );
    assert_eq!(
        registry.create_will_with_id(id, &owner, owner, [0; 32], vec![heir(2, 1)], Vec::new(), 1),
        Err(WillError::InvalidShares)
    );
    assert_eq!(
        registry.create_will_with_id(id, &owner, owner, [0; 32], vec![heir(2, 10000)], Vec::new(), 1),
        Err(WillError::AlreadyExists)
    );
}

#[test]
fn get_will_on_unknown_id_is_not_found() {
    let registry = WillRegistry::initialize(account(1));
    assert!(matches!(registry.get_will(&[3; 32]), Err(WillError::NotFound)));
    assert!(registry.get_will_data(&[3; 32]).is_none());
    assert_eq!(
        registry.check_execution_conditions(&[3; 32], &Vec::new()),
        Err(WillError::NotFound)
    );
}

#[test]
fn operations_on_unknown_id_are_not_found() {
    let owner = account(1);
    let mut registry = WillRegistry::initialize(owner);
    let id = [3; 32];
    assert_eq!(registry.activate_will(&owner, &id, 1), Err(WillError::NotFound));
    assert_eq!(
        registry.update_will(&owner, &id, [0; 32], vec![heir(2, 10000)], Vec::new(), 1),
        Err(WillError::NotFound)
    );
    assert_eq!(registry.revoke_will(&owner, &id, 1), Err(WillError::NotFound));
    assert!(matches!(registry.execute_will(&id, &Vec::new(), 1), Err(WillError::NotFound)));
}

#[test]
fn end_to_end_create_activate_execute() {
    let owner = account(1);
    let addr1 = account(11);
    let addr2 = account(12);
    let mut registry = WillRegistry::initialize(owner);

    let will_id = registry
        .create_will(
            &owner,
            owner,
            [0; 32],
            vec![
                Beneficiary { address: addr1, share: 6000, conditions: Vec::new() },
                Beneficiary { address: addr2, share: 4000, conditions: Vec::new() },
            ],
            Vec::new(),
            100,
        )
        .unwrap();
    assert_eq!(registry.get_will(&will_id).unwrap().status, WillStatus::Draft);

    assert_eq!(registry.activate_will(&owner, &will_id, 101), Ok(()));
    assert_eq!(registry.get_will(&will_id).unwrap().status, WillStatus::Active);
    assert_eq!(registry.get_will(&will_id).unwrap().last_modified, 101);

    let verdicts: Vec<Verdict> = Vec::new();
    assert_eq!(registry.check_execution_conditions(&will_id, &verdicts), Ok(true));

    let signals = registry.execute_will(&will_id, &verdicts, 102).unwrap();
    assert_eq!(registry.get_will(&will_id).unwrap().status, WillStatus::Executed);
    assert_eq!(registry.get_will(&will_id).unwrap().last_modified, 102);
    assert_eq!(signals.len(), 2);
    assert_eq!(signals[0].beneficiary, addr1);
    assert_eq!(signals[0].share, 6000);
    assert_eq!(signals[0].will_id, will_id);
    assert_eq!(signals[1].beneficiary, addr2);
    assert_eq!(signals[1].share, 4000);
    assert_eq!(signals[1].will_id, will_id);

    let second = registry.execute_will(&will_id, &verdicts, 103);
    assert!(matches!(second, Err(WillError::InvalidTransition)));
    assert_eq!(registry.get_will(&will_id).unwrap().last_modified, 102);
}

#[test]
fn revoke_by_a_stranger_is_unauthorized() {
    let owner = account(1);
    let stranger = account(2);
    let mut registry = WillRegistry::initialize(owner);
    let will_id = registry
        .create_will(&owner, owner, [0; 32], vec![heir(3, 10000)], Vec::new(), 10)
        .unwrap();

    assert_eq!(registry.revoke_will(&stranger, &will_id, 11), Err(WillError::Unauthorized));

    let will = registry.get_will(&will_id).unwrap();
    assert_eq!(will.status, WillStatus::Draft);
    assert_eq!(will.last_modified, 10);
    assert_eq!(will.owner, owner);
}

#[test]
fn a_principal_of_another_kind_is_a_stranger() {
    let owner = account(1);
    let contract = Principal { kind: PrincipalKind::Contract, key: [1; 32] };
    let mut registry = WillRegistry::initialize(owner);
    let will_id = registry
        .create_will(&owner, owner, [0; 32], vec![heir(3, 10000)], Vec::new(), 10)
        .unwrap();
    assert_eq!(registry.activate_will(&contract, &will_id, 11), Err(WillError::Unauthorized));
    assert_eq!(registry.get_will(&will_id).unwrap().status, WillStatus::Draft);
}

#[test]
fn restore_puts_a_stored_record_back() {
    let owner = account(1);
    let mut first = WillRegistry::initialize(owner);
    let will_id = first
        .create_will(&owner, owner, [1; 32], vec![heir(2, 10000)], Vec::new(), 5)
        .unwrap();
    first.activate_will(&owner, &will_id, 6).unwrap();
    let stored = first.get_will(&will_id).unwrap().clone();

    let mut second = WillRegistry::initialize(owner);
    assert_eq!(second.restore(will_id, stored.clone()), Ok(()));
    let will = second.get_will(&will_id).unwrap();
    assert_eq!(will.status, WillStatus::Active);
    assert_eq!(will.owner, owner);
    assert_eq!(will.created_at, 5);
    assert_eq!(will.last_modified, 6);

    assert_eq!(second.restore(will_id, stored.clone()), Err(WillError::AlreadyExists));

    let mut broken = stored;
    broken.beneficiaries[0].share = 1;
    assert_eq!(second.restore([9; 32], broken), Err(WillError::InvalidShares));
    assert!(second.get_will_data(&[9; 32]).is_none());
}
