use resolvers::auth::Capability;
use resolvers::interface::{AttestationRecord, ResolverType};
use resolvers::reward::TokenRewardResolver;
use resolvers::token::TokenLedger;

const REWARD_AMOUNT: i128 = 10_0000000; // 10 tokens per attestation
const ADMIN: u64 = 1;
const PROTOCOL: u64 = 2;
const CONTRACT: u64 = 3;
const REWARD_TOKEN: u64 = 4;

fn setup() -> (TokenRewardResolver, TokenLedger) {
    let token = TokenLedger::new(7);
    let resolver =
        TokenRewardResolver::deploy(CONTRACT, ADMIN, REWARD_TOKEN, REWARD_AMOUNT, PROTOCOL)
            .unwrap();
    (resolver, token)
}

fn cap(address: u64) -> Capability {
    Capability { address }
}

fn build_attestation(attester: u64) -> AttestationRecord {
    AttestationRecord {
        uid: 900,
        schema_uid: 901,
        recipient: 77,
        attester,
        time: 1000,
        expiration_time: 0,
        revocation_time: 0,
        revocable: true,
        ref_uid: Vec::new(),
        data: Vec::new(),
        value: 0,
    }
}

#[test]
fn airdrop_resolver_test_initialize() {
    let (resolver, token) = setup();

    assert_eq!(resolver.get_total_rewarded(), 0);
    assert_eq!(resolver.get_pool_balance(&token), 0);
}

#[test]
fn airdrop_resolver_test_double_initialize_fails() {
    let (mut resolver, _token) = setup();

    let new_admin: u64 = 50;
    let result = resolver.initialize(
        &cap(new_admin),
        new_admin,
        REWARD_TOKEN,
        REWARD_AMOUNT,
        PROTOCOL,
    );

    assert!(result.is_err());
}

#[test]
fn test_initialize_negative_reward_fails() {
    let result = TokenRewardResolver::deploy(CONTRACT, ADMIN, REWARD_TOKEN, -100, PROTOCOL);

    assert!(result.is_err());
}

#[test]
fn test_set_reward_amount() {
    let (mut resolver, _token) = setup();

    let new_amount: i128 = 20_0000000;
    let result = resolver.set_reward_amount(&cap(ADMIN), ADMIN, new_amount);

    assert!(result.is_ok());
}

#[test]
fn test_set_reward_amount_non_admin_fails() {
    let (mut resolver, _token) = setup();

    let non_admin: u64 = 60;
    let result = resolver.set_reward_amount(&cap(non_admin), non_admin, 20_0000000);

    assert!(result.is_err());
}

#[test]
fn test_set_negative_reward_amount_fails() {
    let (mut resolver, _token) = setup();

    let result = resolver.set_reward_amount(&cap(ADMIN), ADMIN, -100);
    assert!(result.is_err());
}

#[test]
fn test_fund_reward_pool() {
    let (resolver, mut token) = setup();

    let fund_amount: i128 = 1000_0000000;
    token.mint(ADMIN, fund_amount);

    resolver
        .fund_reward_pool(&mut token, &cap(ADMIN), ADMIN, fund_amount)
        .unwrap();

    assert_eq!(resolver.get_pool_balance(&token), fund_amount);
}

#[test]
fn test_fund_reward_pool_non_admin_fails() {
    let (resolver, mut token) = setup();

    let non_admin: u64 = 61;
    token.mint(non_admin, 1000_0000000);

    let result = resolver.fund_reward_pool(&mut token, &cap(non_admin), non_admin, 1000_0000000);
    assert!(result.is_err());
}

#[test]
fn test_get_user_rewards_uninitialized() {
    let (resolver, _token) = setup();

    let user: u64 = 70;
    assert_eq!(resolver.get_user_rewards(user), 0);
}

#[test]
fn test_get_pool_balance_empty() {
    let (resolver, token) = setup();

    assert_eq!(resolver.get_pool_balance(&token), 0);
}

#[test]
fn test_onattest_always_allows() {
    let (resolver, _token) = setup();

    let attester: u64 = 71;
    let attestation = build_attestation(attester);

    let result = resolver.onattest(&attestation).unwrap();
    assert!(result);
}

#[test]
fn airdrop_resolver_test_onrevoke_always_allows() {
    let (resolver, _token) = setup();

    let attester: u64 = 72;
    let attestation = build_attestation(attester);

    let result = resolver.onrevoke(&attestation).unwrap();
    assert!(result);
}

#[test]
fn test_onresolve_distributes_rewards() {
    let (mut resolver, mut token) = setup();

    let fund_amount: i128 = 1000_0000000;
    token.mint(ADMIN, fund_amount);
    resolver
        .fund_reward_pool(&mut token, &cap(ADMIN), ADMIN, fund_amount)
        .unwrap();

    let attester: u64 = 73;
    let attestation_uid: u64 = 910;

    resolver
        .onresolve(&mut token, attestation_uid, attester)
        .unwrap();

    assert_eq!(token.balance(attester), REWARD_AMOUNT);
    assert_eq!(resolver.get_user_rewards(attester), REWARD_AMOUNT);
    assert_eq!(resolver.get_total_rewarded(), REWARD_AMOUNT);
    assert_eq!(resolver.get_pool_balance(&token), fund_amount - REWARD_AMOUNT);
}

#[test]
fn test_onresolve_insufficient_funds() {
    let (mut resolver, mut token) = setup();

    let attester: u64 = 74;
    let attestation_uid: u64 = 911;

    let result = resolver.onresolve(&mut token, attestation_uid, attester);
    assert!(result.is_err());
}

#[test]
fn test_onresolve_replay_protection() {
    let (mut resolver, mut token) = setup();

    let fund_amount: i128 = 1000_0000000;
    token.mint(ADMIN, fund_amount);
    resolver
        .fund_reward_pool(&mut token, &cap(ADMIN), ADMIN, fund_amount)
        .unwrap();

    let attester: u64 = 75;
    let attestation_uid: u64 = 912;

    resolver
        .onresolve(&mut token, attestation_uid, attester)
        .unwrap();
    assert_eq!(resolver.get_user_rewards(attester), REWARD_AMOUNT);

    resolver
        .onresolve(&mut token, attestation_uid, attester)
        .unwrap();
    assert_eq!(resolver.get_user_rewards(attester), REWARD_AMOUNT);
    assert_eq!(resolver.get_total_rewarded(), REWARD_AMOUNT);
}

#[test]
fn test_onresolve_zero_reward_amount() {
    let (mut resolver, mut token) = setup();

    resolver.set_reward_amount(&cap(ADMIN), ADMIN, 0).unwrap();

    let attester: u64 = 76;
    let attestation_uid: u64 = 913;

    resolver
        .onresolve(&mut token, attestation_uid, attester)
        .unwrap();
    assert_eq!(resolver.get_user_rewards(attester), 0);
}

#[test]
fn airdrop_resolver_test_metadata() {
    let (resolver, _token) = setup();

    let metadata = resolver.metadata();
    assert_eq!(metadata.resolver_type, ResolverType::TokenReward);
}

#[test]
fn test_multiple_attestations_multiple_users() {
    let (mut resolver, mut token) = setup();

    let fund_amount: i128 = 1000_0000000;
    token.mint(ADMIN, fund_amount);
    resolver
        .fund_reward_pool(&mut token, &cap(ADMIN), ADMIN, fund_amount)
        .unwrap();

    let user1: u64 = 81;
    let user2: u64 = 82;
    let user3: u64 = 83;

    resolver.onresolve(&mut token, 921, user1).unwrap();
    resolver.onresolve(&mut token, 922, user2).unwrap();
    resolver.onresolve(&mut token, 923, user3).unwrap();

    assert_eq!(resolver.get_user_rewards(user1), REWARD_AMOUNT);
    assert_eq!(resolver.get_user_rewards(user2), REWARD_AMOUNT);
    assert_eq!(resolver.get_user_rewards(user3), REWARD_AMOUNT);
    assert_eq!(resolver.get_total_rewarded(), REWARD_AMOUNT * 3);
}
