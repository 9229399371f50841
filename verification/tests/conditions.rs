use will_registry::condition::{
    all_conditions_met, Condition, ConditionType, Parameter, Verdict,
};
use will_registry::error::WillError;
use will_registry::principal::{bytes32_eq, Principal, PrincipalKind};
use will_registry::store::{Store, LIFETIME_EXTENSION};
use will_registry::will::FULL_SHARE;

fn signer(seed: u8) -> Principal {
    Principal { kind: PrincipalKind::Account, key: [seed; 32] }
}

fn plain(kind: ConditionType) -> Condition {
    Condition {
        condition_type: kind,
        parameters: Vec::new(),
        required_signers: Vec::new(),
        oracle_address: None,
        verification_data: None,
    }
}

#[test]
fn no_condition_is_met_vacuously() {
    assert!(all_conditions_met(&Vec::new(), &Vec::new()));
    assert!(all_conditions_met(&Vec::new(), &vec![Verdict::Unsatisfied]));
}

#[test]
fn every_condition_needs_its_own_satisfied_verdict() {
    let conditions = vec![plain(ConditionType::TimeAfter), plain(ConditionType::LegalApproval)];
    assert!(all_conditions_met(&conditions, &vec![Verdict::Satisfied, Verdict::Satisfied]));
    assert!(all_conditions_met(
        &conditions,
        &vec![Verdict::Satisfied, Verdict::Satisfied, Verdict::Unsatisfied]
    ));
    assert!(!all_conditions_met(&conditions, &vec![Verdict::Unsatisfied, Verdict::Satisfied]));
    assert!(!all_conditions_met(&conditions, &vec![Verdict::Satisfied, Verdict::Unavailable]));
    assert!(!all_conditions_met(&conditions, &vec![Verdict::Satisfied]));
    assert!(!all_conditions_met(&conditions, &Vec::new()));
}

#[test]
fn an_oracle_condition_names_its_oracle() {
    let mut condition = plain(ConditionType::ExternalOracle);
    assert!(!condition.is_well_formed());
    condition.oracle_address = Some(signer(1));
    assert!(condition.is_well_formed());
    assert!(plain(ConditionType::TimeBefore).is_well_formed());
}

#[test]
fn parameters_are_a_mapping() {
    let mut condition = plain(ConditionType::TokenBalance);
    condition.parameters = vec![
        Parameter { key: [1; 32], value: [10; 32] },
        Parameter { key: [2; 32], value: [10; 32] },
    ];
    assert!(condition.is_well_formed());
    condition.parameters.push(Parameter { key: [1; 32], value: [11; 32] });
    assert!(!condition.is_well_formed());
}

#[test]
fn signers_are_a_set() {
    let mut condition = plain(ConditionType::MultiSigRequired);
    condition.required_signers = vec![signer(1), signer(2), signer(3)];
    assert!(condition.is_well_formed());
    condition.required_signers.push(signer(2));
    assert!(!condition.is_well_formed());

    let mut mixed = plain(ConditionType::MajorityConsent);
    mixed.required_signers =
        vec![signer(1), Principal { kind: PrincipalKind::Contract, key: [1; 32] }];
    assert!(mixed.is_well_formed());
}

#[test]
fn principals_compare_by_kind_and_key() {
    assert_eq!(signer(1), signer(1));
    assert_ne!(signer(1), signer(2));
    assert_ne!(signer(1), Principal { kind: PrincipalKind::Contract, key: [1; 32] });
    let mut key = [1u8; 32];
    key[31] = 2;
    assert_ne!(signer(1), Principal { kind: PrincipalKind::Account, key });
    assert!(bytes32_eq(&[5; 32], &[5; 32]));
    assert!(!bytes32_eq(&[5; 32], &key));
}

#[test]
fn store_keeps_one_value_per_key() {
    let mut store: Store<u32> = Store::new();
    assert!(!store.has(&[1; 32]));
    assert!(store.get(&[1; 32]).is_none());
    assert!(store.take(&[1; 32]).is_none());

    store.set([1; 32], 10);
    store.set([2; 32], 20);
    assert!(store.has(&[1; 32]));
    assert_eq!(store.get(&[1; 32]), Some(&10));
    assert_eq!(store.get(&[2; 32]), Some(&20));

    store.set([1; 32], 11);
    assert_eq!(store.get(&[1; 32]), Some(&11));
    assert_eq!(store.get(&[2; 32]), Some(&20));

    assert_eq!(store.take(&[1; 32]), Some(11));
    assert!(!store.has(&[1; 32]));
    assert_eq!(store.take(&[1; 32]), None);
    assert_eq!(store.get(&[2; 32]), Some(&20));
}

#[test]
fn every_error_has_its_message() {
    assert_eq!(WillError::NotFound.message(), "Will not found");
    assert_eq!(WillError::Unauthorized.message(), "Caller is not authorized");
    assert_eq!(
        WillError::InvalidTransition.message(),
        "Status does not allow this transition"
    );
    assert_eq!(
        WillError::InvalidShares.message(),
        "Total beneficiary shares must equal 100%"
    );
    assert_eq!(WillError::AlreadyExists.message(), "Will already exists");
    assert_eq!(WillError::ConditionsNotMet.message(), "Execution conditions not met");
}

#[test]
fn the_whole_is_ten_thousand_and_a_week_is_a_week() {
    assert_eq!(FULL_SHARE, 10_000);
    assert_eq!(LIFETIME_EXTENSION, 604_800);
}
