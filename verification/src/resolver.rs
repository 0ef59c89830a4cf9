//! The uniform resolver abstraction: a tagged variant chosen at
//! construction time, exposing the fixed four-operation interface
//! (`onattest`, `onrevoke`, `onresolve`, `metadata`) over both variants.
//! Hooks a variant does not use are successes with no state change.

use crate::auth::Capability;
use crate::fee::FeeCollectionResolver;
use crate::interface::{AttestationRecord, ResolverError, ResolverMetadata};
use crate::interface::ResolverType;
use crate::reward::TokenRewardResolver;
use crate::token::TokenLedger;
use vstd::prelude::*;

verus! {

/// One resolver instance of either variant.
pub enum Resolver {
    TokenReward(TokenRewardResolver),
    FeeCollection(FeeCollectionResolver),
}

impl Resolver {
    /// Well-formed: the held variant is.
    pub open spec fn wf(self) -> bool {
        match self {
            Resolver::TokenReward(r) => r.wf(),
            Resolver::FeeCollection(f) => f.wf(),
        }
    }

    /// Which variant this instance is.
    pub open spec fn spec_resolver_type(self) -> ResolverType {
        match self {
            Resolver::TokenReward(_) => ResolverType::TokenReward,
            Resolver::FeeCollection(_) => ResolverType::FeeCollection,
        }
    }

    /// Gate on attestation creation: the fee resolver collects its fee,
    /// the reward resolver always allows.
    pub fn onattest(
        &mut self,
        token: &mut TokenLedger,
        attestation: &AttestationRecord,
        cap: &Capability,
    ) -> (r: Result<bool, ResolverError>)
        requires
            old(self).wf(),
            old(token).wf(),
            (*old(self) matches Resolver::FeeCollection(f) ==> f.total_collected
                + f.attestation_fee <= i128::MAX),
        ensures
            final(self).wf(),
            final(token).wf(),
            match (*old(self), *final(self)) {
                (Resolver::TokenReward(pre), Resolver::TokenReward(post)) => {
                    &&& TokenRewardResolver::state_unchanged(pre, post)
                    &&& TokenLedger::unchanged(*old(token), *final(token))
                    &&& r == Ok::<bool, ResolverError>(true)
                },
                (Resolver::FeeCollection(pre), Resolver::FeeCollection(post)) => {
                    FeeCollectionResolver::collect_post(
                        pre,
                        *old(token),
                        post,
                        *final(token),
                        attestation.attester,
                        cap.address,
                        r,
                    )
                },
                _ => false,
            },
    {
        match self {
            Resolver::TokenReward(inner) => inner.onattest(attestation),
            Resolver::FeeCollection(inner) => inner.onattest(token, attestation, cap),
        }
    }

    /// Gate on revocation: both variants always allow, with no state
    /// change.
    pub fn onrevoke(&mut self, attestation: &AttestationRecord) -> (r: Result<bool, ResolverError>)
        requires
            old(self).wf(),
        ensures
            final(self).wf(),
            match (*old(self), *final(self)) {
                (Resolver::TokenReward(pre), Resolver::TokenReward(post)) =>
                    TokenRewardResolver::state_unchanged(pre, post),
                (Resolver::FeeCollection(pre), Resolver::FeeCollection(post)) =>
                    FeeCollectionResolver::state_unchanged(pre, post),
                _ => false,
            },
            r == Ok::<bool, ResolverError>(true),
    {
        match self {
            Resolver::TokenReward(inner) => inner.onrevoke(attestation),
            Resolver::FeeCollection(inner) => inner.onrevoke(attestation),
        }
    }

    /// Post-settlement side effects: the reward resolver pays its reward,
    /// idempotently per uid; the fee resolver does nothing.
    pub fn onresolve(&mut self, token: &mut TokenLedger, uid: u64, attester: u64) -> (r: Result<
        (),
        ResolverError,
    >)
        requires
            old(self).wf(),
            old(token).wf(),
            (*old(self) matches Resolver::TokenReward(s) ==> s.total_rewarded + s.reward_amount
                <= i128::MAX),
        ensures
            final(self).wf(),
            final(token).wf(),
            match (*old(self), *final(self)) {
                (Resolver::TokenReward(pre), Resolver::TokenReward(post)) => {
                    TokenRewardResolver::resolve_post(
                        pre,
                        *old(token),
                        post,
                        *final(token),
                        uid,
                        attester,
                        r,
                    )
                },
                (Resolver::FeeCollection(pre), Resolver::FeeCollection(post)) => {
                    &&& FeeCollectionResolver::state_unchanged(pre, post)
                    &&& TokenLedger::unchanged(*old(token), *final(token))
                    &&& r == Ok::<(), ResolverError>(())
                },
                _ => false,
            },
    {
        match self {
            Resolver::TokenReward(inner) => inner.onresolve(token, uid, attester),
            Resolver::FeeCollection(inner) => inner.onresolve(uid, attester),
        }
    }

    /// Static descriptor of the held variant.
    pub fn metadata(&self) -> (m: ResolverMetadata)
        ensures
            m.resolver_type == self.spec_resolver_type(),
    {
        match self {
            Resolver::TokenReward(inner) => inner.metadata(),
            Resolver::FeeCollection(inner) => inner.metadata(),
        }
    }
}

} // verus!
