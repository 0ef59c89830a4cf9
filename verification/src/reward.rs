//! The reward resolver: funds a payout pool (its own token balance) and
//! pays a fixed reward per settled attestation, replay-protected per uid.
//! Creation and revocation hooks are deliberate no-ops.

use crate::auth::{admin_gate, check_admin, Capability};
use crate::interface::{AttestationRecord, ResolverError, ResolverMetadata, ResolverType};
use crate::ledger::{lemma_amount_le_total, AmountTable, UidList};
use crate::token::TokenLedger;
use vstd::prelude::*;
use vstd::string::StringExecFns;

verus! {

/// Persistent state of one reward resolver instance: its configuration
/// slots and its accounting ledger.
pub struct TokenRewardResolver {
    /// The resolver's own ledger address; its token balance is the pool.
    pub contract_address: u64,
    /// Set exactly once, by `deploy` or by `initialize`.
    pub initialized: bool,
    /// The privileged address for configuration and funding.
    pub admin: u64,
    /// Address of the token contract rewards are paid in.
    pub reward_token: u64,
    /// Reward paid per settled attestation; never negative.
    pub reward_amount: i128,
    /// The protocol address expected to call settlement hooks.
    pub protocol_caller: u64,
    /// Running sum of all rewards ever paid; monotone.
    pub total_rewarded: i128,
    /// Accumulated reward per user.
    pub rewards: AmountTable,
    /// Replay guard: uids whose settlement has already taken effect.
    pub processed: UidList,
}

impl TokenRewardResolver {
    /// Well-formed: the ledger is a sound amount table, the running total
    /// is exactly the sum of the per-user rewards, the configured reward is
    /// never negative, and an unconfigured instance holds no accounting.
    pub open spec fn wf(self) -> bool {
        &&& self.rewards.wf()
        &&& 0 <= self.total_rewarded
        &&& self.total_rewarded == self.rewards.spec_total()
        &&& self.initialized ==> 0 <= self.reward_amount
        &&& !self.initialized ==> self.reward_amount == 0 && self.total_rewarded == 0
            && self.rewards.entries@.len() == 0 && self.processed.entries@.len() == 0
    }

    /// The reward accumulated by `user`; zero before any payout.
    pub open spec fn spec_user_rewards(self, user: u64) -> int {
        self.rewards.spec_amount(user)
    }

    /// The running sum of all rewards ever paid.
    pub open spec fn spec_total_rewarded(self) -> int {
        self.total_rewarded as int
    }

    /// Whether `uid`'s settlement has already taken effect.
    pub open spec fn spec_processed(self, uid: u64) -> bool {
        self.processed.spec_contains(uid)
    }

    /// The pool: the resolver's own balance in `token`.
    pub open spec fn spec_pool_balance(self, token: TokenLedger) -> int {
        token.spec_balance(self.contract_address)
    }

    /// The configuration slots are identical in both states.
    pub open spec fn config_unchanged(pre: Self, post: Self) -> bool {
        &&& post.contract_address == pre.contract_address
        &&& post.initialized == pre.initialized
        &&& post.admin == pre.admin
        &&& post.reward_token == pre.reward_token
        &&& post.reward_amount == pre.reward_amount
        &&& post.protocol_caller == pre.protocol_caller
    }

    /// Configuration and accounting are identical in both states.
    pub open spec fn state_unchanged(pre: Self, post: Self) -> bool {
        &&& Self::config_unchanged(pre, post)
        &&& post.total_rewarded == pre.total_rewarded
        &&& post.rewards.entries@ == pre.rewards.entries@
        &&& post.processed.entries@ == pre.processed.entries@
    }

    /// A deployed but not yet configured resolver instance living at
    /// `contract_address`.
    pub fn fresh(contract_address: u64) -> (r: Self)
        ensures
            r.wf(),
            !r.initialized,
            r.contract_address == contract_address,
            r.spec_total_rewarded() == 0,
            forall|u: u64| #[trigger] r.spec_user_rewards(u) == 0,
            forall|uid: u64| !(#[trigger] r.spec_processed(uid)),
    {
        TokenRewardResolver {
            contract_address,
            initialized: false,
            admin: 0,
            reward_token: 0,
            reward_amount: 0,
            protocol_caller: 0,
            total_rewarded: 0,
            rewards: AmountTable::new(),
            processed: UidList::new(),
        }
    }

    /// Atomic constructor, run exactly once at deployment. A negative
    /// reward aborts the whole deployment with `ValidationFailed`, and no
    /// state is kept.
    pub fn deploy(
        contract_address: u64,
        admin: u64,
        reward_token: u64,
        reward_amount: i128,
        protocol_caller: u64,
    ) -> (r: Result<Self, ResolverError>)
        ensures
            reward_amount < 0 ==> r == Err::<Self, ResolverError>(ResolverError::ValidationFailed),
            reward_amount >= 0 ==> (r matches Ok(s) && s.wf() && s.initialized
                && s.contract_address == contract_address && s.admin == admin && s.reward_token
                == reward_token && s.reward_amount == reward_amount && s.protocol_caller
                == protocol_caller && s.spec_total_rewarded() == 0 && (forall|u: u64| #[trigger]
                s.spec_user_rewards(u) == 0) && (forall|uid: u64|
                !(#[trigger] s.spec_processed(uid)))),
    {
        if reward_amount < 0 {
            return Err(ResolverError::ValidationFailed);
        }
        Ok(
            TokenRewardResolver {
                contract_address,
                initialized: true,
                admin,
                reward_token,
                reward_amount,
                protocol_caller,
                total_rewarded: 0,
                rewards: AmountTable::new(),
                processed: UidList::new(),
            },
        )
    }

    /// What `initialize` did: refused on a configured instance, on a
    /// negative reward, or without the admin's identity proof; otherwise
    /// the configuration is written once and the accounting starts empty.
    pub open spec fn init_post(
        pre: Self,
        post: Self,
        cap_address: u64,
        admin: u64,
        reward_token: u64,
        reward_amount: i128,
        protocol_caller: u64,
        r: Result<(), ResolverError>,
    ) -> bool {
        if pre.initialized {
            Self::state_unchanged(pre, post) && r == Err::<(), ResolverError>(
                ResolverError::AlreadyInitialized,
            )
        } else if reward_amount < 0 {
            Self::state_unchanged(pre, post) && r == Err::<(), ResolverError>(
                ResolverError::ValidationFailed,
            )
        } else if cap_address != admin {
            Self::state_unchanged(pre, post) && r == Err::<(), ResolverError>(
                ResolverError::NotAuthorized,
            )
        } else {
            &&& post.contract_address == pre.contract_address
            &&& post.initialized
            &&& post.admin == admin
            &&& post.reward_token == reward_token
            &&& post.reward_amount == reward_amount
            &&& post.protocol_caller == protocol_caller
            &&& post.total_rewarded == 0
            &&& post.rewards.entries@ == pre.rewards.entries@
            &&& post.processed.entries@ == pre.processed.entries@
            &&& r == Ok::<(), ResolverError>(())
        }
    }

    /// One-time configuration entry point for an instance deployed without
    /// the constructor. Fails `AlreadyInitialized` when repeated and
    /// `ValidationFailed` on a negative reward; the named admin must prove
    /// its identity.
    pub fn initialize(
        &mut self,
        cap: &Capability,
        admin: u64,
        reward_token: u64,
        reward_amount: i128,
        protocol_caller: u64,
    ) -> (r: Result<(), ResolverError>)
        requires
            old(self).wf(),
        ensures
            final(self).wf(),
            Self::init_post(
                *old(self),
                *final(self),
                cap.address,
                admin,
                reward_token,
                reward_amount,
                protocol_caller,
                r,
            ),
    {
        if self.initialized {
            return Err(ResolverError::AlreadyInitialized);
        }
        if reward_amount < 0 {
            return Err(ResolverError::ValidationFailed);
        }
        if cap.address != admin {
            return Err(ResolverError::NotAuthorized);
        }
        self.admin = admin;
        self.reward_token = reward_token;
        self.reward_amount = reward_amount;
        self.protocol_caller = protocol_caller;
        self.total_rewarded = 0;
        self.initialized = true;
        Ok(())
    }

    /// What `set_reward_amount` did: the admin gate first, then the sign
    /// check, then only the reward slot changes.
    pub open spec fn set_amount_post(
        pre: Self,
        post: Self,
        cap_address: u64,
        caller: u64,
        new_amount: i128,
        r: Result<(), ResolverError>,
    ) -> bool {
        match admin_gate(pre.initialized, pre.admin, cap_address, caller) {
            Some(e) => Self::state_unchanged(pre, post) && r == Err::<(), ResolverError>(e),
            None => if new_amount < 0 {
                Self::state_unchanged(pre, post) && r == Err::<(), ResolverError>(
                    ResolverError::ValidationFailed,
                )
            } else {
                &&& post.contract_address == pre.contract_address
                &&& post.initialized == pre.initialized
                &&& post.admin == pre.admin
                &&& post.reward_token == pre.reward_token
                &&& post.reward_amount == new_amount
                &&& post.protocol_caller == pre.protocol_caller
                &&& post.total_rewarded == pre.total_rewarded
                &&& post.rewards.entries@ == pre.rewards.entries@
                &&& post.processed.entries@ == pre.processed.entries@
                &&& r == Ok::<(), ResolverError>(())
            },
        }
    }

    /// Update the reward paid per settlement. Admin only; a negative
    /// amount is refused with `ValidationFailed` and nothing changes.
    pub fn set_reward_amount(&mut self, cap: &Capability, caller: u64, new_amount: i128) -> (r:
        Result<(), ResolverError>)
        requires
            old(self).wf(),
        ensures
            final(self).wf(),
            Self::set_amount_post(*old(self), *final(self), cap.address, caller, new_amount, r),
    {
        match check_admin(self.initialized, self.admin, cap, caller) {
            Err(e) => {
                return Err(e);
            },
            Ok(()) => {},
        }
        if new_amount < 0 {
            return Err(ResolverError::ValidationFailed);
        }
        self.reward_amount = new_amount;
        Ok(())
    }

    /// What `fund_reward_pool` did: the admin gate first, then a plain
    /// token transfer from the caller into the pool; the resolver's own
    /// state never changes.
    pub open spec fn fund_post(
        pre: Self,
        pre_tok: TokenLedger,
        post_tok: TokenLedger,
        cap_address: u64,
        caller: u64,
        amount: i128,
        r: Result<(), ResolverError>,
    ) -> bool {
        match admin_gate(pre.initialized, pre.admin, cap_address, caller) {
            Some(e) => TokenLedger::unchanged(pre_tok, post_tok) && r == Err::<(), ResolverError>(
                e,
            ),
            None => TokenLedger::transfer_post(
                pre_tok,
                post_tok,
                caller,
                pre.contract_address,
                amount,
                r,
            ),
        }
    }

    /// Fund the payout pool: transfer `amount` from the admin caller into
    /// the resolver's held balance, or fail atomically when the transfer
    /// fails.
    pub fn fund_reward_pool(
        &self,
        token: &mut TokenLedger,
        cap: &Capability,
        caller: u64,
        amount: i128,
    ) -> (r: Result<(), ResolverError>)
        requires
            old(token).wf(),
        ensures
            final(token).wf(),
            Self::fund_post(*self, *old(token), *final(token), cap.address, caller, amount, r),
    {
        match check_admin(self.initialized, self.admin, cap, caller) {
            Err(e) => {
                return Err(e);
            },
            Ok(()) => {},
        }
        token.transfer(caller, self.contract_address, amount)
    }

    /// What `onresolve` did, case by case: an unconfigured instance is
    /// refused; a replayed uid is a success with no effect; at zero reward
    /// the uid is only recorded; a pool short of the reward fails the whole
    /// call and the uid stays unrecorded; otherwise the payout, the ledger
    /// credits and the replay mark commit together.
    pub open spec fn resolve_post(
        pre: Self,
        pre_tok: TokenLedger,
        post: Self,
        post_tok: TokenLedger,
        uid: u64,
        attester: u64,
        r: Result<(), ResolverError>,
    ) -> bool {
        if !pre.initialized {
            &&& Self::state_unchanged(pre, post)
            &&& TokenLedger::unchanged(pre_tok, post_tok)
            &&& r == Err::<(), ResolverError>(ResolverError::Uninitialized)
        } else if pre.spec_processed(uid) {
            &&& Self::state_unchanged(pre, post)
            &&& TokenLedger::unchanged(pre_tok, post_tok)
            &&& r == Ok::<(), ResolverError>(())
        } else if pre.reward_amount == 0 {
            &&& Self::config_unchanged(pre, post)
            &&& post.total_rewarded == pre.total_rewarded
            &&& post.rewards.entries@ == pre.rewards.entries@
            &&& post.processed.entries@ == pre.processed.entries@.push(uid)
            &&& post.spec_processed(uid)
            &&& TokenLedger::unchanged(pre_tok, post_tok)
            &&& r == Ok::<(), ResolverError>(())
        } else if pre_tok.spec_balance(pre.contract_address) < pre.reward_amount {
            &&& Self::state_unchanged(pre, post)
            &&& TokenLedger::unchanged(pre_tok, post_tok)
            &&& r == Err::<(), ResolverError>(ResolverError::InsufficientFunds)
        } else {
            &&& Self::config_unchanged(pre, post)
            &&& post.processed.entries@ == pre.processed.entries@.push(uid)
            &&& post.spec_processed(uid)
            &&& post.total_rewarded as int == pre.total_rewarded + pre.reward_amount
            &&& post.spec_user_rewards(attester) == pre.spec_user_rewards(attester)
                + pre.reward_amount
            &&& forall|u: u64|
                u != attester ==> #[trigger] post.spec_user_rewards(u) == pre.spec_user_rewards(u)
            &&& TokenLedger::transfer_post(
                pre_tok,
                post_tok,
                pre.contract_address,
                attester,
                pre.reward_amount,
                Ok::<(), ResolverError>(()),
            )
            &&& r == Ok::<(), ResolverError>(())
        }
    }

    /// Post-settlement hook: pay the configured reward to the attester,
    /// exactly once per uid. A failed payout aborts the whole call with the
    /// uid unrecorded, so a later retry after funding can succeed.
    ///
    /// The stored protocol caller is deliberately not enforced here: any
    /// caller may settle a uid for an attester, and only the replay guard
    /// limits payouts. Callers wanting a stricter gate must add their own
    /// check against `protocol_caller`.
    pub fn onresolve(&mut self, token: &mut TokenLedger, uid: u64, attester: u64) -> (r: Result<
        (),
        ResolverError,
    >)
        requires
            old(self).wf(),
            old(token).wf(),
            old(self).total_rewarded + old(self).reward_amount <= i128::MAX,
        ensures
            final(self).wf(),
            final(token).wf(),
            Self::resolve_post(*old(self), *old(token), *final(self), *final(token), uid, attester, r),
    {
        if !self.initialized {
            return Err(ResolverError::Uninitialized);
        }
        if self.processed.contains(uid) {
            return Ok(());
        }
        if self.reward_amount == 0 {
            self.processed.record(uid);
            return Ok(());
        }
        let amount: i128 = self.reward_amount;
        match token.transfer(self.contract_address, attester, amount) {
            Err(e) => {
                return Err(e);
            },
            Ok(()) => {},
        }
        proof {
            lemma_amount_le_total(self.rewards.entries@, attester);
        }
        self.rewards.credit(attester, amount);
        self.processed.record(uid);
        self.total_rewarded = self.total_rewarded + amount;
        Ok(())
    }

    /// The reward accumulated by `user`; zero for a user never rewarded.
    pub fn get_user_rewards(&self, user: u64) -> (r: i128)
        ensures
            r as int == self.spec_user_rewards(user),
    {
        self.rewards.lookup(user)
    }

    /// The running sum of all rewards ever paid.
    pub fn get_total_rewarded(&self) -> (r: i128)
        ensures
            r as int == self.spec_total_rewarded(),
    {
        self.total_rewarded
    }

    /// The pool: the resolver's own balance in `token`.
    pub fn get_pool_balance(&self, token: &TokenLedger) -> (r: i128)
        ensures
            r as int == self.spec_pool_balance(*token),
    {
        token.balance(self.contract_address)
    }

    /// Creation gate: the reward resolver imposes nothing at creation.
    /// Always succeeds with no state change.
    pub fn onattest(&self, _attestation: &AttestationRecord) -> (r: Result<bool, ResolverError>)
        ensures
            r == Ok::<bool, ResolverError>(true),
    {
        Ok(true)
    }

    /// Revocation gate: the reward resolver imposes nothing at revocation.
    /// Always succeeds with no state change.
    pub fn onrevoke(&self, _attestation: &AttestationRecord) -> (r: Result<bool, ResolverError>)
        ensures
            r == Ok::<bool, ResolverError>(true),
    {
        Ok(true)
    }

    /// Static descriptor of this resolver variant.
    pub fn metadata(&self) -> (m: ResolverMetadata)
        ensures
            m.resolver_type == ResolverType::TokenReward,
            m.name@ == "Token Reward Resolver"@,
            m.version@ == "1.0.0"@,
    {
        ResolverMetadata {
            name: String::from_str("Token Reward Resolver"),
            version: String::from_str("1.0.0"),
            description: String::from_str("Distributes token rewards for settled attestations"),
            resolver_type: ResolverType::TokenReward,
        }
    }
}

} // verus!
