//! The fee resolver: collects a fixed token fee per created attestation
//! into a per-recipient accrued ledger, withdrawable on demand by the
//! stored recipient. Revocation and settlement hooks are deliberate no-ops.

use crate::auth::{admin_gate, check_admin, Capability};
use crate::interface::{AttestationRecord, ResolverError, ResolverMetadata, ResolverType};
use crate::ledger::{lemma_amount_le_total, AmountTable};
use crate::token::TokenLedger;
use vstd::prelude::*;
use vstd::string::StringExecFns;

verus! {

/// The named slots one fee resolver instance persists: one per
/// configuration field, the running total, and the keyed accrued-fee
/// ledger.
#[derive(Clone, Copy, Debug, PartialEq, Eq, Structural)]
pub enum DataKey {
    Admin,
    Initialized,
    FeeToken,
    AttestationFee,
    FeeRecipient,
    TotalCollected,
    CollectedFees,
}

/// Persistent state of one fee resolver instance: its configuration slots
/// and its accounting ledger.
pub struct FeeCollectionResolver {
    /// The resolver's own ledger address; collected fees sit here until
    /// withdrawn.
    pub contract_address: u64,
    /// Set exactly once, by `deploy` or by `initialize`.
    pub initialized: bool,
    /// The privileged address for configuration changes.
    pub admin: u64,
    /// Address of the token contract fees are collected in.
    pub fee_token: u64,
    /// Fee charged per created attestation; never negative.
    pub attestation_fee: i128,
    /// The address fees currently accrue to.
    pub fee_recipient: u64,
    /// Running sum of all fees ever collected; monotone, not reduced by
    /// withdrawal.
    pub total_collected: i128,
    /// Accrued, not yet withdrawn fees per recipient.
    pub collected: AmountTable,
}

impl FeeCollectionResolver {
    /// Well-formed: the ledger is a sound amount table, what is still
    /// accrued never exceeds the running total (withdrawals drain entries
    /// but never the total), the configured fee is never negative, and an
    /// unconfigured instance holds no accounting.
    pub open spec fn wf(self) -> bool {
        &&& self.collected.wf()
        &&& 0 <= self.collected.spec_total() <= self.total_collected
        &&& self.initialized ==> 0 <= self.attestation_fee
        &&& !self.initialized ==> self.attestation_fee == 0 && self.total_collected == 0
            && self.collected.entries@.len() == 0
    }

    /// The fees accrued to `recipient` and not yet withdrawn.
    pub open spec fn spec_collected(self, recipient: u64) -> int {
        self.collected.spec_amount(recipient)
    }

    /// The running sum of all fees ever collected.
    pub open spec fn spec_total_collected(self) -> int {
        self.total_collected as int
    }

    /// The configuration slots are identical in both states.
    pub open spec fn config_unchanged(pre: Self, post: Self) -> bool {
        &&& post.contract_address == pre.contract_address
        &&& post.initialized == pre.initialized
        &&& post.admin == pre.admin
        &&& post.fee_token == pre.fee_token
        &&& post.attestation_fee == pre.attestation_fee
        &&& post.fee_recipient == pre.fee_recipient
    }

    /// Configuration and accounting are identical in both states.
    pub open spec fn state_unchanged(pre: Self, post: Self) -> bool {
        &&& Self::config_unchanged(pre, post)
        &&& post.total_collected == pre.total_collected
        &&& post.collected.entries@ == pre.collected.entries@
    }

    /// A deployed but not yet configured resolver instance living at
    /// `contract_address`.
    pub fn fresh(contract_address: u64) -> (r: Self)
        ensures
            r.wf(),
            !r.initialized,
            r.contract_address == contract_address,
            r.spec_total_collected() == 0,
            forall|rec: u64| #[trigger] r.spec_collected(rec) == 0,
    {
        FeeCollectionResolver {
            contract_address,
            initialized: false,
            admin: 0,
            fee_token: 0,
            attestation_fee: 0,
            fee_recipient: 0,
            total_collected: 0,
            collected: AmountTable::new(),
        }
    }

    /// Atomic constructor, run exactly once at deployment. A negative fee
    /// aborts the whole deployment with `ValidationFailed`, and no state is
    /// kept. A compliant token answers a decimals query, and this model's
    /// collaborator always does, so no separate token probe can fail here.
    pub fn deploy(
        contract_address: u64,
        admin: u64,
        fee_token: u64,
        attestation_fee: i128,
        fee_recipient: u64,
    ) -> (r: Result<Self, ResolverError>)
        ensures
            attestation_fee < 0 ==> r == Err::<Self, ResolverError>(
                ResolverError::ValidationFailed,
            ),
            attestation_fee >= 0 ==> (r matches Ok(s) && s.wf() && s.initialized
                && s.contract_address == contract_address && s.admin == admin && s.fee_token
                == fee_token && s.attestation_fee == attestation_fee && s.fee_recipient
                == fee_recipient && s.spec_total_collected() == 0 && (forall|rec: u64| #[trigger]
                s.spec_collected(rec) == 0)),
    {
        if attestation_fee < 0 {
            return Err(ResolverError::ValidationFailed);
        }
        Ok(
            FeeCollectionResolver {
                contract_address,
                initialized: true,
                admin,
                fee_token,
                attestation_fee,
                fee_recipient,
                total_collected: 0,
                collected: AmountTable::new(),
            },
        )
    }

    /// What `initialize` did: refused on a configured instance, on a
    /// negative fee, or without the admin's identity proof; otherwise the
    /// configuration is written once and the accounting starts empty.
    pub open spec fn init_post(
        pre: Self,
        post: Self,
        cap_address: u64,
        admin: u64,
        fee_token: u64,
        attestation_fee: i128,
        fee_recipient: u64,
        r: Result<(), ResolverError>,
    ) -> bool {
        if pre.initialized {
            Self::state_unchanged(pre, post) && r == Err::<(), ResolverError>(
                ResolverError::AlreadyInitialized,
            )
        } else if attestation_fee < 0 {
            Self::state_unchanged(pre, post) && r == Err::<(), ResolverError>(
                ResolverError::ValidationFailed,
            )
        } else if cap_address != admin {
            Self::state_unchanged(pre, post) && r == Err::<(), ResolverError>(
                ResolverError::NotAuthorized,
            )
        } else {
            &&& post.contract_address == pre.contract_address
            &&& post.initialized
            &&& post.admin == admin
            &&& post.fee_token == fee_token
            &&& post.attestation_fee == attestation_fee
            &&& post.fee_recipient == fee_recipient
            &&& post.total_collected == 0
            &&& post.collected.entries@ == pre.collected.entries@
            &&& r == Ok::<(), ResolverError>(())
        }
    }

    /// One-time configuration entry point for an instance deployed without
    /// the constructor. Fails `AlreadyInitialized` when repeated and
    /// `ValidationFailed` on a negative fee; the named admin must prove its
    /// identity. As at `deploy`, the token probe (a decimals query) cannot
    /// fail against this model's collaborator.
    pub fn initialize(
        &mut self,
        cap: &Capability,
        admin: u64,
        fee_token: u64,
        attestation_fee: i128,
        fee_recipient: u64,
    ) -> (r: Result<(), ResolverError>)
        requires
            old(self).wf(),
        ensures
            final(self).wf(),
            Self::init_post(
                *old(self),
                *final(self),
                cap.address,
                admin,
                fee_token,
                attestation_fee,
                fee_recipient,
                r,
            ),
    {
        if self.initialized {
            return Err(ResolverError::AlreadyInitialized);
        }
        if attestation_fee < 0 {
            return Err(ResolverError::ValidationFailed);
        }
        if cap.address != admin {
            return Err(ResolverError::NotAuthorized);
        }
        self.admin = admin;
        self.fee_token = fee_token;
        self.attestation_fee = attestation_fee;
        self.fee_recipient = fee_recipient;
        self.total_collected = 0;
        self.initialized = true;
        Ok(())
    }

    /// What `set_attestation_fee` did: the admin gate first, then the sign
    /// check, then only the fee slot changes.
    pub open spec fn set_fee_post(
        pre: Self,
        post: Self,
        cap_address: u64,
        caller: u64,
        new_fee: i128,
        r: Result<(), ResolverError>,
    ) -> bool {
        match admin_gate(pre.initialized, pre.admin, cap_address, caller) {
            Some(e) => Self::state_unchanged(pre, post) && r == Err::<(), ResolverError>(e),
            None => if new_fee < 0 {
                Self::state_unchanged(pre, post) && r == Err::<(), ResolverError>(
                    ResolverError::ValidationFailed,
                )
            } else {
                &&& post.contract_address == pre.contract_address
                &&& post.initialized == pre.initialized
                &&& post.admin == pre.admin
                &&& post.fee_token == pre.fee_token
                &&& post.attestation_fee == new_fee
                &&& post.fee_recipient == pre.fee_recipient
                &&& post.total_collected == pre.total_collected
                &&& post.collected.entries@ == pre.collected.entries@
                &&& r == Ok::<(), ResolverError>(())
            },
        }
    }

    /// Update the fee charged per attestation. Admin only; a negative fee
    /// is refused with `ValidationFailed` and nothing changes.
    pub fn set_attestation_fee(&mut self, cap: &Capability, caller: u64, new_fee: i128) -> (r:
        Result<(), ResolverError>)
        requires
            old(self).wf(),
        ensures
            final(self).wf(),
            Self::set_fee_post(*old(self), *final(self), cap.address, caller, new_fee, r),
    {
        match check_admin(self.initialized, self.admin, cap, caller) {
            Err(e) => {
                return Err(e);
            },
            Ok(()) => {},
        }
        if new_fee < 0 {
            return Err(ResolverError::ValidationFailed);
        }
        self.attestation_fee = new_fee;
        Ok(())
    }

    /// What `set_fee_recipient` did: the admin gate first, then only the
    /// recipient slot changes. Fees already accrued under the old
    /// recipient stay untouched and remain claimable by that recipient.
    pub open spec fn set_recipient_post(
        pre: Self,
        post: Self,
        cap_address: u64,
        caller: u64,
        new_recipient: u64,
        r: Result<(), ResolverError>,
    ) -> bool {
        match admin_gate(pre.initialized, pre.admin, cap_address, caller) {
            Some(e) => Self::state_unchanged(pre, post) && r == Err::<(), ResolverError>(e),
            None => {
                &&& post.contract_address == pre.contract_address
                &&& post.initialized == pre.initialized
                &&& post.admin == pre.admin
                &&& post.fee_token == pre.fee_token
                &&& post.attestation_fee == pre.attestation_fee
                &&& post.fee_recipient == new_recipient
                &&& post.total_collected == pre.total_collected
                &&& post.collected.entries@ == pre.collected.entries@
                &&& r == Ok::<(), ResolverError>(())
            },
        }
    }

    /// Redirect future collections to `new_recipient`. Admin only; prior
    /// accrued balances stay under the recipients they accrued to.
    pub fn set_fee_recipient(&mut self, cap: &Capability, caller: u64, new_recipient: u64) -> (r:
        Result<(), ResolverError>)
        requires
            old(self).wf(),
        ensures
            final(self).wf(),
            Self::set_recipient_post(*old(self), *final(self), cap.address, caller, new_recipient, r),
    {
        match check_admin(self.initialized, self.admin, cap, caller) {
            Err(e) => {
                return Err(e);
            },
            Ok(()) => {},
        }
        self.fee_recipient = new_recipient;
        Ok(())
    }

    /// What `onattest` did, case by case: an unconfigured instance is
    /// refused; at zero fee creation is free and nothing changes; the
    /// attester must prove its identity; an attester short of the fee
    /// fails the whole call; otherwise the fee moves into the contract and
    /// the accrual and the running total commit together, under the
    /// recipient stored at collection time.
    pub open spec fn collect_post(
        pre: Self,
        pre_tok: TokenLedger,
        post: Self,
        post_tok: TokenLedger,
        attester: u64,
        cap_address: u64,
        r: Result<bool, ResolverError>,
    ) -> bool {
        if !pre.initialized {
            &&& Self::state_unchanged(pre, post)
            &&& TokenLedger::unchanged(pre_tok, post_tok)
            &&& r == Err::<bool, ResolverError>(ResolverError::Uninitialized)
        } else if pre.attestation_fee == 0 {
            &&& Self::state_unchanged(pre, post)
            &&& TokenLedger::unchanged(pre_tok, post_tok)
            &&& r == Ok::<bool, ResolverError>(true)
        } else if cap_address != attester {
            &&& Self::state_unchanged(pre, post)
            &&& TokenLedger::unchanged(pre_tok, post_tok)
            &&& r == Err::<bool, ResolverError>(ResolverError::NotAuthorized)
        } else if pre_tok.spec_balance(attester) < pre.attestation_fee {
            &&& Self::state_unchanged(pre, post)
            &&& TokenLedger::unchanged(pre_tok, post_tok)
            &&& r == Err::<bool, ResolverError>(ResolverError::InsufficientFunds)
        } else {
            &&& Self::config_unchanged(pre, post)
            &&& post.total_collected as int == pre.total_collected + pre.attestation_fee
            &&& post.spec_collected(pre.fee_recipient) == pre.spec_collected(pre.fee_recipient)
                + pre.attestation_fee
            &&& forall|rec: u64|
                rec != pre.fee_recipient ==> #[trigger] post.spec_collected(rec)
                    == pre.spec_collected(rec)
            &&& TokenLedger::transfer_post(
                pre_tok,
                post_tok,
                attester,
                pre.contract_address,
                pre.attestation_fee,
                Ok::<(), ResolverError>(()),
            )
            &&& r == Ok::<bool, ResolverError>(true)
        }
    }

    /// Creation gate: collect the configured fee from the attester before
    /// the attestation is created. A failed transfer aborts the whole call
    /// with no ledger mutation.
    pub fn onattest(
        &mut self,
        token: &mut TokenLedger,
        attestation: &AttestationRecord,
        cap: &Capability,
    ) -> (r: Result<bool, ResolverError>)
        requires
            old(self).wf(),
            old(token).wf(),
            old(self).total_collected + old(self).attestation_fee <= i128::MAX,
        ensures
            final(self).wf(),
            final(token).wf(),
            Self::collect_post(
                *old(self),
                *old(token),
                *final(self),
                *final(token),
                attestation.attester,
                cap.address,
                r,
            ),
    {
        if !self.initialized {
            return Err(ResolverError::Uninitialized);
        }
        let fee: i128 = self.attestation_fee;
        if fee == 0 {
            return Ok(true);
        }
        if cap.address != attestation.attester {
            return Err(ResolverError::NotAuthorized);
        }
        match token.transfer(attestation.attester, self.contract_address, fee) {
            Err(e) => {
                return Err(e);
            },
            Ok(()) => {},
        }
        proof {
            lemma_amount_le_total(self.collected.entries@, self.fee_recipient);
        }
        self.collected.credit(self.fee_recipient, fee);
        self.total_collected = self.total_collected + fee;
        Ok(true)
    }

    /// What `withdraw_fees` did, case by case: the caller must prove its
    /// identity and be the stored recipient; with nothing accrued the call
    /// succeeds without effect; a contract balance short of the accrued
    /// amount fails the whole call without zeroing; otherwise the accrued
    /// amount moves to the recipient and exactly that entry is zeroed,
    /// with the running total untouched.
    pub open spec fn withdraw_post(
        pre: Self,
        pre_tok: TokenLedger,
        post: Self,
        post_tok: TokenLedger,
        recipient: u64,
        cap_address: u64,
        r: Result<(), ResolverError>,
    ) -> bool {
        let amt = pre.spec_collected(recipient);
        if cap_address != recipient {
            &&& Self::state_unchanged(pre, post)
            &&& TokenLedger::unchanged(pre_tok, post_tok)
            &&& r == Err::<(), ResolverError>(ResolverError::NotAuthorized)
        } else if !pre.initialized {
            &&& Self::state_unchanged(pre, post)
            &&& TokenLedger::unchanged(pre_tok, post_tok)
            &&& r == Err::<(), ResolverError>(ResolverError::Uninitialized)
        } else if recipient != pre.fee_recipient {
            &&& Self::state_unchanged(pre, post)
            &&& TokenLedger::unchanged(pre_tok, post_tok)
            &&& r == Err::<(), ResolverError>(ResolverError::NotAuthorized)
        } else if amt == 0 {
            &&& Self::state_unchanged(pre, post)
            &&& TokenLedger::unchanged(pre_tok, post_tok)
            &&& r == Ok::<(), ResolverError>(())
        } else if pre_tok.spec_balance(pre.contract_address) < amt {
            &&& Self::state_unchanged(pre, post)
            &&& TokenLedger::unchanged(pre_tok, post_tok)
            &&& r == Err::<(), ResolverError>(ResolverError::InsufficientFunds)
        } else {
            &&& Self::config_unchanged(pre, post)
            &&& post.total_collected == pre.total_collected
            &&& post.spec_collected(recipient) == 0
            &&& forall|rec: u64|
                rec != recipient ==> #[trigger] post.spec_collected(rec) == pre.spec_collected(rec)
            &&& if recipient == pre.contract_address {
                TokenLedger::unchanged(pre_tok, post_tok)
            } else {
                &&& post_tok.decimals == pre_tok.decimals
                &&& post_tok.spec_balance(pre.contract_address) == pre_tok.spec_balance(
                    pre.contract_address,
                ) - amt
                &&& post_tok.spec_balance(recipient) == pre_tok.spec_balance(recipient) + amt
                &&& forall|a: u64|
                    a != recipient && a != pre.contract_address ==> #[trigger] post_tok.spec_balance(
                        a,
                    ) == pre_tok.spec_balance(a)
                &&& post_tok.spec_supply() == pre_tok.spec_supply()
            }
            &&& r == Ok::<(), ResolverError>(())
        }
    }

    /// Withdraw the caller's accrued fees. The caller must prove its
    /// identity and be the stored fee recipient; withdrawing with nothing
    /// accrued is a success without effect.
    pub fn withdraw_fees(&mut self, token: &mut TokenLedger, cap: &Capability, recipient: u64) -> (r:
        Result<(), ResolverError>)
        requires
            old(self).wf(),
            old(token).wf(),
        ensures
            final(self).wf(),
            final(token).wf(),
            Self::withdraw_post(
                *old(self),
                *old(token),
                *final(self),
                *final(token),
                recipient,
                cap.address,
                r,
            ),
    {
        if cap.address != recipient {
            return Err(ResolverError::NotAuthorized);
        }
        if !self.initialized {
            return Err(ResolverError::Uninitialized);
        }
        if recipient != self.fee_recipient {
            return Err(ResolverError::NotAuthorized);
        }
        proof {
            lemma_amount_le_total(self.collected.entries@, recipient);
        }
        let amt: i128 = self.collected.lookup(recipient);
        if amt == 0 {
            return Ok(());
        }
        match token.transfer(self.contract_address, recipient, amt) {
            Err(e) => {
                return Err(e);
            },
            Ok(()) => {},
        }
        self.collected.clear(recipient);
        Ok(())
    }

    /// The running sum of all fees ever collected.
    pub fn get_total_collected(&self) -> (r: i128)
        ensures
            r as int == self.spec_total_collected(),
    {
        self.total_collected
    }

    /// The fees accrued to `recipient` and not yet withdrawn; zero for a
    /// recipient never credited.
    pub fn get_collected_fees(&self, recipient: u64) -> (r: i128)
        ensures
            r as int == self.spec_collected(recipient),
    {
        self.collected.lookup(recipient)
    }

    /// Revocation gate: the fee resolver imposes nothing at revocation.
    /// Always succeeds with no state change.
    pub fn onrevoke(&self, _attestation: &AttestationRecord) -> (r: Result<bool, ResolverError>)
        ensures
            r == Ok::<bool, ResolverError>(true),
    {
        Ok(true)
    }

    /// Settlement hook: the fee resolver imposes nothing at settlement.
    /// Always succeeds with no state change.
    pub fn onresolve(&self, _uid: u64, _attester: u64) -> (r: Result<(), ResolverError>)
        ensures
            r == Ok::<(), ResolverError>(()),
    {
        Ok(())
    }

    /// Static descriptor of this resolver variant.
    pub fn metadata(&self) -> (m: ResolverMetadata)
        ensures
            m.resolver_type == ResolverType::FeeCollection,
            m.name@ == "Fee Collection Resolver"@,
            m.version@ == "1.0.0"@,
    {
        ResolverMetadata {
            name: String::from_str("Fee Collection Resolver"),
            version: String::from_str("1.0.0"),
            description: String::from_str("Collects XLM fees for attestations"),
            resolver_type: ResolverType::FeeCollection,
        }
    }
}

} // verus!
