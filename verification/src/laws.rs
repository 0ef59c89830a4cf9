//! Protocol-wide properties, stated over the per-operation transition
//! relations and proved once and for all: idempotent replay of settlement,
//! conservation between the pool and the reward total, and monotone,
//! per-entry fee accounting.

use crate::fee::FeeCollectionResolver;
use crate::interface::ResolverError;
use crate::reward::TokenRewardResolver;
use crate::token::TokenLedger;
use vstd::prelude::*;

verus! {

/// Idempotence of settlement: once `onresolve` has succeeded for a uid,
/// running it again for the same uid succeeds and changes nothing — the
/// resolver state, the token ledger, and in particular the attester's
/// reward and the running total all stay exactly as after the first call.
pub proof fn lemma_onresolve_idempotent(
    s0: TokenRewardResolver,
    t0: TokenLedger,
    s1: TokenRewardResolver,
    t1: TokenLedger,
    s2: TokenRewardResolver,
    t2: TokenLedger,
    uid: u64,
    attester: u64,
    r1: Result<(), ResolverError>,
    r2: Result<(), ResolverError>,
)
    requires
        TokenRewardResolver::resolve_post(s0, t0, s1, t1, uid, attester, r1),
        r1 is Ok,
        TokenRewardResolver::resolve_post(s1, t1, s2, t2, uid, attester, r2),
    ensures
        r2 is Ok,
        TokenRewardResolver::state_unchanged(s1, s2),
        TokenLedger::unchanged(t1, t2),
        s2.spec_user_rewards(attester) == s1.spec_user_rewards(attester),
        s2.spec_total_rewarded() == s1.spec_total_rewarded(),
{
    // Every branch of the first call that returns success leaves the uid
    // recorded, so the second call takes the replay branch.
    assert(s1.spec_processed(uid));
}

/// Conservation, ledger side: in any well-formed reward resolver state the
/// running total equals the sum of the per-user reward totals.
pub proof fn lemma_total_rewarded_is_user_sum(s: TokenRewardResolver)
    requires
        s.wf(),
    ensures
        s.spec_total_rewarded() == s.rewards.spec_total(),
{
}

/// Conservation, pool side: one settlement, whatever its outcome, moves
/// the pool balance and the running reward total by opposite amounts, so
/// their sum — initial funding minus nothing — is invariant. Not stated
/// for an attester equal to the pool address itself: paying the pool to
/// itself leaves its balance whole while the total still grows.
pub proof fn lemma_onresolve_conserves_pool(
    s0: TokenRewardResolver,
    t0: TokenLedger,
    s1: TokenRewardResolver,
    t1: TokenLedger,
    uid: u64,
    attester: u64,
    r: Result<(), ResolverError>,
)
    requires
        TokenRewardResolver::resolve_post(s0, t0, s1, t1, uid, attester, r),
        attester != s0.contract_address,
    ensures
        t1.spec_balance(s0.contract_address) + s1.spec_total_rewarded() == t0.spec_balance(
            s0.contract_address,
        ) + s0.spec_total_rewarded(),
{
}

/// Conservation, funding side: a successful `fund_reward_pool` grows the
/// pool by exactly the funded amount and any failed one leaves it whole;
/// the reward total never moves. Not stated for a funder equal to the pool
/// address itself.
pub proof fn lemma_fund_adds_to_pool(
    s: TokenRewardResolver,
    t0: TokenLedger,
    t1: TokenLedger,
    cap_address: u64,
    caller: u64,
    amount: i128,
    r: Result<(), ResolverError>,
)
    requires
        TokenRewardResolver::fund_post(s, t0, t1, cap_address, caller, amount, r),
        caller != s.contract_address,
    ensures
        r is Ok ==> t1.spec_balance(s.contract_address) == t0.spec_balance(s.contract_address)
            + amount,
        !(r is Ok) ==> t1.spec_balance(s.contract_address) == t0.spec_balance(s.contract_address),
{
}

/// One ledger-relevant operation in the life of a configured reward
/// resolver, together with the caller data it was given and the result it
/// returned. A run of the resolver is a sequence of these.
pub enum RewardOp {
    SetAmount { cap_address: u64, caller: u64, new_amount: i128, r: Result<(), ResolverError> },
    Fund { cap_address: u64, caller: u64, amount: i128, r: Result<(), ResolverError> },
    Resolve { uid: u64, attester: u64, r: Result<(), ResolverError> },
}

/// Whether `op` is one operation step taking resolver state `pre_r` with
/// token ledger `pre_t` to `post_r` with `post_t`, exactly as the
/// operations' own contracts state it.
pub open spec fn reward_step(
    pre_r: TokenRewardResolver,
    pre_t: TokenLedger,
    post_r: TokenRewardResolver,
    post_t: TokenLedger,
    op: RewardOp,
) -> bool {
    match op {
        RewardOp::SetAmount { cap_address, caller, new_amount, r } => {
            &&& TokenRewardResolver::set_amount_post(pre_r, post_r, cap_address, caller, new_amount, r)
            &&& TokenLedger::unchanged(pre_t, post_t)
        },
        RewardOp::Fund { cap_address, caller, amount, r } => {
            &&& TokenRewardResolver::state_unchanged(pre_r, post_r)
            &&& TokenRewardResolver::fund_post(pre_r, pre_t, post_t, cap_address, caller, amount, r)
        },
        RewardOp::Resolve { uid, attester, r } => TokenRewardResolver::resolve_post(
            pre_r,
            pre_t,
            post_r,
            post_t,
            uid,
            attester,
            r,
        ),
    }
}

/// What `op` paid into the pool: the amount of a successful funding,
/// nothing otherwise.
pub open spec fn funded_in(op: RewardOp) -> int {
    match op {
        RewardOp::Fund { amount, r, .. } => if r is Ok {
            amount as int
        } else {
            0
        },
        _ => 0,
    }
}

/// The sum of all amounts successfully funded along a run.
pub open spec fn funded_total(ops: Seq<RewardOp>) -> int
    decreases ops.len(),
{
    if ops.len() == 0 {
        0
    } else {
        funded_total(ops.drop_last()) + funded_in(ops.last())
    }
}

/// Whether `op` keeps the pool address itself out of the money flow: the
/// funder and the rewarded attester are other parties. A transfer whose
/// two ends are both the pool leaves its balance whole, so conservation is
/// stated away from that degenerate case.
pub open spec fn op_avoids_pool(op: RewardOp, pool_address: u64) -> bool {
    match op {
        RewardOp::SetAmount { .. } => true,
        RewardOp::Fund { caller, .. } => caller != pool_address,
        RewardOp::Resolve { attester, .. } => attester != pool_address,
    }
}

/// Conservation over a whole run: along any sequence of configuration
/// changes, fundings and settlements of one reward resolver, the pool
/// balance plus the running reward total grows by exactly the amounts
/// successfully funded. Read at a state with an empty starting pool and
/// total, this is: pool balance = initial funding − Σ rewards paid.
pub proof fn lemma_pool_accounts_for_all_funding(
    resolvers: Seq<TokenRewardResolver>,
    tokens: Seq<TokenLedger>,
    ops: Seq<RewardOp>,
)
    requires
        resolvers.len() == ops.len() + 1,
        tokens.len() == ops.len() + 1,
        forall|i: int|
            0 <= i < ops.len() ==> reward_step(
                resolvers[i],
                tokens[i],
                resolvers[i + 1],
                tokens[i + 1],
                #[trigger] ops[i],
            ),
        forall|i: int|
            0 <= i < ops.len() ==> op_avoids_pool(#[trigger] ops[i], resolvers[0].contract_address),
    ensures
        resolvers.last().contract_address == resolvers[0].contract_address,
        tokens.last().spec_balance(resolvers[0].contract_address)
            + resolvers.last().spec_total_rewarded() == tokens[0].spec_balance(
            resolvers[0].contract_address,
        ) + resolvers[0].spec_total_rewarded() + funded_total(ops),
    decreases ops.len(),
{
    if ops.len() > 0 {
        let n = ops.len() as int;
        let head_rs = resolvers.drop_last();
        let head_ts = tokens.drop_last();
        let head_ops = ops.drop_last();
        assert forall|i: int|
            0 <= i < head_ops.len() implies reward_step(
            head_rs[i],
            head_ts[i],
            head_rs[i + 1],
            head_ts[i + 1],
            #[trigger] head_ops[i],
        ) by {
            assert(head_ops[i] == ops[i]);
        }
        assert forall|i: int|
            0 <= i < head_ops.len() implies op_avoids_pool(
            #[trigger] head_ops[i],
            head_rs[0].contract_address,
        ) by {
            assert(head_ops[i] == ops[i]);
        }
        lemma_pool_accounts_for_all_funding(head_rs, head_ts, head_ops);
        let pool = resolvers[0].contract_address;
        let pre_r = resolvers[n - 1];
        let pre_t = tokens[n - 1];
        let post_r = resolvers[n];
        let post_t = tokens[n];
        assert(pre_r.contract_address == pool);
        assert(reward_step(pre_r, pre_t, post_r, post_t, ops[n - 1]));
        match ops[n - 1] {
            RewardOp::SetAmount { .. } => {},
            RewardOp::Fund { cap_address, caller, amount, r } => {
                lemma_fund_adds_to_pool(pre_r, pre_t, post_t, cap_address, caller, amount, r);
            },
            RewardOp::Resolve { uid, attester, r } => {
                lemma_onresolve_conserves_pool(pre_r, pre_t, post_r, post_t, uid, attester, r);
            },
        }
    }
}

/// Monotonicity, collection side: one `onattest`, whatever its outcome,
/// never decreases the running total nor any recipient's accrued amount.
pub proof fn lemma_onattest_monotonic(
    f0: FeeCollectionResolver,
    t0: TokenLedger,
    f1: FeeCollectionResolver,
    t1: TokenLedger,
    attester: u64,
    cap_address: u64,
    r: Result<bool, ResolverError>,
)
    requires
        f0.wf(),
        FeeCollectionResolver::collect_post(f0, t0, f1, t1, attester, cap_address, r),
    ensures
        f1.spec_total_collected() >= f0.spec_total_collected(),
        forall|rec: u64| #[trigger] f1.spec_collected(rec) >= f0.spec_collected(rec),
{
    assert forall|rec: u64| #[trigger] f1.spec_collected(rec) >= f0.spec_collected(rec) by {
        if f0.initialized && f0.attestation_fee != 0 && cap_address == attester && t0.spec_balance(
            attester,
        ) >= f0.attestation_fee && rec != f0.fee_recipient {
            assert(f1.spec_collected(rec) == f0.spec_collected(rec));
        }
    }
}

/// Monotonicity, withdrawal side: `withdraw_fees` never moves the running
/// total, zeroes at most the caller's own accrued entry, and leaves every
/// other recipient's entry untouched.
pub proof fn lemma_withdraw_touches_only_caller(
    f0: FeeCollectionResolver,
    t0: TokenLedger,
    f1: FeeCollectionResolver,
    t1: TokenLedger,
    recipient: u64,
    cap_address: u64,
    r: Result<(), ResolverError>,
)
    requires
        FeeCollectionResolver::withdraw_post(f0, t0, f1, t1, recipient, cap_address, r),
    ensures
        f1.spec_total_collected() == f0.spec_total_collected(),
        forall|rec: u64|
            rec != recipient ==> #[trigger] f1.spec_collected(rec) == f0.spec_collected(rec),
        r is Ok ==> f1.spec_collected(recipient) == 0,
{
}

} // verus!
