use resolvers::auth::Capability;
use resolvers::fee::FeeCollectionResolver;
use resolvers::interface::{AttestationRecord, ResolverType};
use resolvers::token::TokenLedger;

const ATTESTATION_FEE: i128 = 5_0000000; // 5 tokens per attestation
const ADMIN: u64 = 1;
const FEE_RECIPIENT: u64 = 2;
const CONTRACT: u64 = 3;
const FEE_TOKEN: u64 = 4;

fn setup() -> (FeeCollectionResolver, TokenLedger) {
    let token = TokenLedger::new(7);
    let resolver =
        FeeCollectionResolver::deploy(CONTRACT, ADMIN, FEE_TOKEN, ATTESTATION_FEE, FEE_RECIPIENT)
            .unwrap();
    (resolver, token)
}

fn cap(address: u64) -> Capability {
    Capability { address }
}

fn build_attestation(attester: u64) -> AttestationRecord {
    AttestationRecord {
        uid: 900,
        schema_uid: 901,
        recipient: 77,
        attester,
        time: 1000,
        expiration_time: 0,
        revocation_time: 0,
        revocable: true,
        ref_uid: Vec::new(),
        data: Vec::new(),
        value: 0,
    }
}

#[test]
fn taxcollector_resolver_test_initialize() {
    let (resolver, _token) = setup();

    assert_eq!(resolver.get_total_collected(), 0);
    assert_eq!(resolver.get_collected_fees(FEE_RECIPIENT), 0);
}

#[test]
fn taxcollector_resolver_test_double_initialize_fails() {
    let (mut resolver, _token) = setup();

    let new_admin: u64 = 50;
    let new_recipient: u64 = 51;
    let result = resolver.initialize(
        &cap(new_admin),
        new_admin,
        FEE_TOKEN,
        ATTESTATION_FEE,
        new_recipient,
    );

    assert!(result.is_err());
}

#[test]
fn test_initialize_negative_fee_fails() {
    let result = FeeCollectionResolver::deploy(CONTRACT, ADMIN, FEE_TOKEN, -100, FEE_RECIPIENT);

    assert!(result.is_err());
}

#[test]
fn test_set_attestation_fee() {
    let (mut resolver, _token) = setup();

    let new_fee: i128 = 10_0000000;
    let result = resolver.set_attestation_fee(&cap(ADMIN), ADMIN, new_fee);

    assert!(result.is_ok());
}

#[test]
fn test_set_attestation_fee_non_admin_fails() {
    let (mut resolver, _token) = setup();

    let non_admin: u64 = 60;
    let result = resolver.set_attestation_fee(&cap(non_admin), non_admin, 10_0000000);

    assert!(result.is_err());
}

#[test]
fn test_set_negative_fee_fails() {
    let (mut resolver, _token) = setup();

    let result = resolver.set_attestation_fee(&cap(ADMIN), ADMIN, -100);
    assert!(result.is_err());
}

#[test]
fn test_set_fee_recipient() {
    let (mut resolver, _token) = setup();

    let new_recipient: u64 = 52;
    let result = resolver.set_fee_recipient(&cap(ADMIN), ADMIN, new_recipient);

    assert!(result.is_ok());
}

#[test]
fn test_set_fee_recipient_non_admin_fails() {
    let (mut resolver, _token) = setup();

    let non_admin: u64 = 61;
    let new_recipient: u64 = 53;
    let result = resolver.set_fee_recipient(&cap(non_admin), non_admin, new_recipient);

    assert!(result.is_err());
}

#[test]
fn test_onattest_collects_fee() {
    let (mut resolver, mut token) = setup();

    let attester: u64 = 70;
    token.mint(attester, ATTESTATION_FEE);

    let attestation = build_attestation(attester);

    let result = resolver
        .onattest(&mut token, &attestation, &cap(attester))
        .unwrap();
    assert!(result);

    assert_eq!(token.balance(attester), 0);
    assert_eq!(token.balance(CONTRACT), ATTESTATION_FEE);
    assert_eq!(resolver.get_total_collected(), ATTESTATION_FEE);
    assert_eq!(resolver.get_collected_fees(FEE_RECIPIENT), ATTESTATION_FEE);
}

#[test]
fn test_onattest_insufficient_funds_fails() {
    let (mut resolver, mut token) = setup();

    let attester: u64 = 71;
    let attestation = build_attestation(attester);

    let result = resolver.onattest(&mut token, &attestation, &cap(attester));
    assert!(result.is_err());
}

#[test]
fn test_onattest_zero_fee_no_transfer() {
    let (mut resolver, mut token) = setup();

    resolver.set_attestation_fee(&cap(ADMIN), ADMIN, 0).unwrap();

    let attester: u64 = 72;
    let attestation = build_attestation(attester);

    let result = resolver
        .onattest(&mut token, &attestation, &cap(attester))
        .unwrap();
    assert!(result);
    assert_eq!(resolver.get_total_collected(), 0);
}

#[test]
fn test_multiple_attestations_accumulate_fees() {
    let (mut resolver, mut token) = setup();

    let mut attester: u64 = 80;
    while attester < 83 {
        token.mint(attester, ATTESTATION_FEE);
        let attestation = build_attestation(attester);
        resolver
            .onattest(&mut token, &attestation, &cap(attester))
            .unwrap();
        attester += 1;
    }

    assert_eq!(resolver.get_total_collected(), ATTESTATION_FEE * 3);
    assert_eq!(
        resolver.get_collected_fees(FEE_RECIPIENT),
        ATTESTATION_FEE * 3
    );
}

#[test]
fn test_withdraw_fees() {
    let (mut resolver, mut token) = setup();

    let attester: u64 = 73;
    token.mint(attester, ATTESTATION_FEE);
    let attestation = build_attestation(attester);
    resolver
        .onattest(&mut token, &attestation, &cap(attester))
        .unwrap();

    resolver
        .withdraw_fees(&mut token, &cap(FEE_RECIPIENT), FEE_RECIPIENT)
        .unwrap();

    assert_eq!(token.balance(FEE_RECIPIENT), ATTESTATION_FEE);
    assert_eq!(token.balance(CONTRACT), 0);
    assert_eq!(resolver.get_collected_fees(FEE_RECIPIENT), 0);
}

#[test]
fn test_withdraw_fees_non_recipient_fails() {
    let (mut resolver, mut token) = setup();

    let attester: u64 = 74;
    token.mint(attester, ATTESTATION_FEE);
    let attestation = build_attestation(attester);
    resolver
        .onattest(&mut token, &attestation, &cap(attester))
        .unwrap();

    let non_recipient: u64 = 62;
    let result = resolver.withdraw_fees(&mut token, &cap(non_recipient), non_recipient);

    assert!(result.is_err());
}

#[test]
fn test_withdraw_fees_nothing_to_withdraw() {
    let (mut resolver, mut token) = setup();

    resolver
        .withdraw_fees(&mut token, &cap(FEE_RECIPIENT), FEE_RECIPIENT)
        .unwrap();

    assert_eq!(token.balance(FEE_RECIPIENT), 0);
}

#[test]
fn taxcollector_resolver_test_onrevoke_always_allows() {
    let (resolver, _token) = setup();

    let attester: u64 = 75;
    let attestation = build_attestation(attester);

    let result = resolver.onrevoke(&attestation).unwrap();
    assert!(result);
}

#[test]
fn test_onresolve_no_op() {
    let (resolver, _token) = setup();

    let attester: u64 = 76;
    let attestation_uid: u64 = 914;

    resolver.onresolve(attestation_uid, attester).unwrap();
}

#[test]
fn taxcollector_resolver_test_metadata() {
    let (resolver, _token) = setup();

    let metadata = resolver.metadata();
    assert_eq!(metadata.resolver_type, ResolverType::FeeCollection);
}

#[test]
fn test_change_recipient_mid_collection() {
    let (mut resolver, mut token) = setup();

    let attester1: u64 = 84;
    token.mint(attester1, ATTESTATION_FEE);
    resolver
        .onattest(&mut token, &build_attestation(attester1), &cap(attester1))
        .unwrap();

    let new_recipient: u64 = 54;
    resolver
        .set_fee_recipient(&cap(ADMIN), ADMIN, new_recipient)
        .unwrap();

    let attester2: u64 = 85;
    token.mint(attester2, ATTESTATION_FEE);
    resolver
        .onattest(&mut token, &build_attestation(attester2), &cap(attester2))
        .unwrap();

    assert_eq!(resolver.get_collected_fees(FEE_RECIPIENT), ATTESTATION_FEE);
    assert_eq!(resolver.get_collected_fees(new_recipient), ATTESTATION_FEE);
    assert_eq!(resolver.get_total_collected(), ATTESTATION_FEE * 2);
}
