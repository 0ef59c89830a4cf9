//! The token collaborator, modelled as explicit ledger state: balances per
//! address, issuance for setup and funding, and a `transfer` that fails —
//! aborting the caller's whole operation — when the source balance is short.

use crate::interface::ResolverError;
use crate::ledger::{lemma_amount_le_total, lemma_two_amounts_le_total, AmountTable};
use vstd::prelude::*;

verus! {

/// Ledger state of one token contract. The supply (sum of all balances)
/// fits an `i128`, so no compliant transfer can overflow a balance.
pub struct TokenLedger {
    /// Decimal places of the token; a compliant token always answers this.
    pub decimals: u32,
    /// Balance per address; addresses never seen hold zero.
    pub balances: AmountTable,
}

impl TokenLedger {
    /// Well-formed: balances are non-negative and the supply fits an `i128`.
    pub open spec fn wf(self) -> bool {
        self.balances.wf() && self.balances.spec_total() <= i128::MAX
    }

    /// The balance held by `a`.
    pub open spec fn spec_balance(self, a: u64) -> int {
        self.balances.spec_amount(a)
    }

    /// The total supply: the sum of all balances.
    pub open spec fn spec_supply(self) -> int {
        self.balances.spec_total()
    }

    /// Both ledgers hold the same balances and decimals.
    pub open spec fn unchanged(pre: TokenLedger, post: TokenLedger) -> bool {
        post.decimals == pre.decimals && post.balances.entries@ == pre.balances.entries@
    }

    /// What `transfer` did, case by case: a negative amount is refused, a
    /// short source balance is refused, a self-transfer of a covered amount
    /// moves nothing, and otherwise exactly `amount` moves from `from` to
    /// `to` with the supply and all other balances unchanged.
    pub open spec fn transfer_post(
        pre: TokenLedger,
        post: TokenLedger,
        from: u64,
        to: u64,
        amount: i128,
        r: Result<(), ResolverError>,
    ) -> bool {
        if amount < 0 {
            Self::unchanged(pre, post) && r == Err::<(), ResolverError>(
                ResolverError::TransferFailed,
            )
        } else if pre.spec_balance(from) < amount {
            Self::unchanged(pre, post) && r == Err::<(), ResolverError>(
                ResolverError::InsufficientFunds,
            )
        } else if from == to {
            Self::unchanged(pre, post) && r == Ok::<(), ResolverError>(())
        } else {
            &&& post.decimals == pre.decimals
            &&& post.spec_balance(from) == pre.spec_balance(from) - amount
            &&& post.spec_balance(to) == pre.spec_balance(to) + amount
            &&& forall|a: u64|
                a != from && a != to ==> #[trigger] post.spec_balance(a) == pre.spec_balance(a)
            &&& post.spec_supply() == pre.spec_supply()
            &&& r == Ok::<(), ResolverError>(())
        }
    }

    /// A token with no holders yet.
    pub fn new(decimals: u32) -> (t: TokenLedger)
        ensures
            t.wf(),
            t.decimals == decimals,
            t.spec_supply() == 0,
            forall|a: u64| #[trigger] t.spec_balance(a) == 0,
    {
        TokenLedger { decimals, balances: AmountTable::new() }
    }

    /// Decimal places of the token. Total: querying a compliant token
    /// cannot fail.
    pub fn decimals(&self) -> (r: u32)
        ensures
            r == self.decimals,
    {
        self.decimals
    }

    /// The balance held by `a`.
    pub fn balance(&self, a: u64) -> (r: i128)
        ensures
            r as int == self.spec_balance(a),
    {
        self.balances.lookup(a)
    }

    /// Issue `amount` new tokens to `to` (setup and pool funding); the
    /// grown supply must still fit an `i128`.
    pub fn mint(&mut self, to: u64, amount: i128)
        requires
            old(self).wf(),
            0 <= amount,
            old(self).spec_supply() + amount <= i128::MAX,
        ensures
            final(self).wf(),
            final(self).decimals == old(self).decimals,
            final(self).spec_balance(to) == old(self).spec_balance(to) + amount,
            forall|a: u64|
                a != to ==> #[trigger] final(self).spec_balance(a) == old(self).spec_balance(a),
            final(self).spec_supply() == old(self).spec_supply() + amount,
    {
        proof {
            lemma_amount_le_total(self.balances.entries@, to);
        }
        self.balances.credit(to, amount);
    }

    /// Move `amount` from `from` to `to`; fails without effect when the
    /// amount is negative or `from`'s balance is short.
    pub fn transfer(&mut self, from: u64, to: u64, amount: i128) -> (r: Result<(), ResolverError>)
        requires
            old(self).wf(),
        ensures
            final(self).wf(),
            Self::transfer_post(*old(self), *final(self), from, to, amount, r),
    {
        if amount < 0 {
            return Err(ResolverError::TransferFailed);
        }
        let bal: i128 = self.balances.lookup(from);
        if bal < amount {
            return Err(ResolverError::InsufficientFunds);
        }
        if from == to {
            return Ok(());
        }
        proof {
            lemma_two_amounts_le_total(self.balances.entries@, from, to);
        }
        self.balances.debit(from, amount);
        self.balances.credit(to, amount);
        Ok(())
    }
}

} // verus!
