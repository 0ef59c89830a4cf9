//! The two persisted ledger shapes both resolvers grow: a keyed table of
//! non-negative amounts (per-user rewards, per-recipient accrued fees, token
//! balances) and an append-only list of settled uids (the replay guard).
//!
//! An `AmountTable` is a list of key/amount entries with distinct keys. Its
//! mathematical reading is given by `entries_amount` (the amount recorded
//! under a key, zero when absent) and `entries_total` (the sum of all
//! recorded amounts), and every mutator states its exact effect on both.

use vstd::prelude::*;

verus! {

/// The amount recorded for key `k` in the entry list `s`: the value at the
/// first entry whose key is `k`, or zero when no entry carries `k`.
pub open spec fn entries_amount(s: Seq<(u64, i128)>, k: u64) -> int
    decreases s.len(),
{
    if s.len() == 0 {
        0
    } else if s[0].0 == k {
        s[0].1 as int
    } else {
        entries_amount(s.drop_first(), k)
    }
}

/// The sum of all amounts in the entry list `s`.
pub open spec fn entries_total(s: Seq<(u64, i128)>) -> int
    decreases s.len(),
{
    if s.len() == 0 {
        0
    } else {
        s[0].1 + entries_total(s.drop_first())
    }
}

/// No key occurs twice in `s`.
pub open spec fn distinct_keys(s: Seq<(u64, i128)>) -> bool {
    forall|i: int, j: int| 0 <= i < j < s.len() ==> (#[trigger] s[i]).0 != (#[trigger] s[j]).0
}

/// Every amount in `s` is non-negative.
pub open spec fn nonnegative_amounts(s: Seq<(u64, i128)>) -> bool {
    forall|i: int| 0 <= i < s.len() ==> (#[trigger] s[i]).1 >= 0
}

/// A total over non-negative amounts is non-negative.
pub proof fn lemma_total_nonneg(s: Seq<(u64, i128)>)
    requires
        nonnegative_amounts(s),
    ensures
        entries_total(s) >= 0,
    decreases s.len(),
{
    if s.len() > 0 {
        assert(s[0].1 >= 0);
        assert forall|i: int| 0 <= i < s.drop_first().len() implies (#[trigger] s.drop_first()[i]).1
            >= 0 by {
            assert(s.drop_first()[i] == s[i + 1]);
        }
        lemma_total_nonneg(s.drop_first());
    }
}

/// Each single amount lies between zero and the total, when no amount is
/// negative.
pub proof fn lemma_amount_le_total(s: Seq<(u64, i128)>, k: u64)
    requires
        nonnegative_amounts(s),
    ensures
        0 <= entries_amount(s, k) <= entries_total(s),
    decreases s.len(),
{
    if s.len() > 0 {
        assert(s[0].1 >= 0);
        assert forall|i: int| 0 <= i < s.drop_first().len() implies (#[trigger] s.drop_first()[i]).1
            >= 0 by {
            assert(s.drop_first()[i] == s[i + 1]);
        }
        lemma_amount_le_total(s.drop_first(), k);
        lemma_total_nonneg(s.drop_first());
    }
}

/// Two amounts under different keys are jointly bounded by the total, when
/// no amount is negative.
pub proof fn lemma_two_amounts_le_total(s: Seq<(u64, i128)>, k1: u64, k2: u64)
    requires
        nonnegative_amounts(s),
        k1 != k2,
    ensures
        entries_amount(s, k1) + entries_amount(s, k2) <= entries_total(s),
    decreases s.len(),
{
    if s.len() > 0 {
        assert(s[0].1 >= 0);
        assert forall|i: int| 0 <= i < s.drop_first().len() implies (#[trigger] s.drop_first()[i]).1
            >= 0 by {
            assert(s.drop_first()[i] == s[i + 1]);
        }
        if s[0].0 == k1 {
            lemma_amount_le_total(s.drop_first(), k2);
        } else if s[0].0 == k2 {
            lemma_amount_le_total(s.drop_first(), k1);
        } else {
            lemma_two_amounts_le_total(s.drop_first(), k1, k2);
        }
    }
}

/// A key that occurs nowhere in `s` records amount zero.
pub proof fn lemma_amount_absent(s: Seq<(u64, i128)>, k: u64)
    requires
        forall|m: int| 0 <= m < s.len() ==> (#[trigger] s[m]).0 != k,
    ensures
        entries_amount(s, k) == 0,
    decreases s.len(),
{
    if s.len() > 0 {
        assert forall|m: int| 0 <= m < s.drop_first().len() implies (#[trigger] s.drop_first()[m]).0
            != k by {
            assert(s.drop_first()[m] == s[m + 1]);
        }
        lemma_amount_absent(s.drop_first(), k);
    }
}

/// At the first entry carrying `k`, the recorded value is the amount of `k`.
pub proof fn lemma_amount_at_found(s: Seq<(u64, i128)>, i: int, k: u64)
    requires
        0 <= i < s.len(),
        s[i].0 == k,
        forall|m: int| 0 <= m < i ==> (#[trigger] s[m]).0 != k,
    ensures
        entries_amount(s, k) == s[i].1,
    decreases i,
{
    if i > 0 {
        assert(s[0].0 != k);
        assert(s.drop_first()[i - 1] == s[i]);
        assert forall|m: int| 0 <= m < i - 1 implies (#[trigger] s.drop_first()[m]).0 != k by {
            assert(s.drop_first()[m] == s[m + 1]);
        }
        lemma_amount_at_found(s.drop_first(), i - 1, k);
    }
}

/// Overwriting the first entry of `k` with `(k, v)` sets the amount of `k`
/// to `v`, leaves every other key's amount alone, and moves the total by the
/// difference.
pub proof fn lemma_update_entry(s: Seq<(u64, i128)>, i: int, v: i128, k: u64)
    requires
        0 <= i < s.len(),
        s[i].0 == k,
        forall|m: int| 0 <= m < i ==> (#[trigger] s[m]).0 != k,
    ensures
        entries_amount(s.update(i, (k, v)), k) == v,
        forall|k2: u64| k2 != k ==> #[trigger] entries_amount(s.update(i, (k, v)), k2)
            == entries_amount(s, k2),
        entries_total(s.update(i, (k, v))) == entries_total(s) - s[i].1 + v,
    decreases i,
{
    let t = s.update(i, (k, v));
    if i == 0 {
        assert(t.drop_first() =~= s.drop_first());
        assert(t[0] == (k, v));
    } else {
        assert(t.drop_first() =~= s.drop_first().update(i - 1, (k, v)));
        assert(s.drop_first()[i - 1] == s[i]);
        assert forall|m: int| 0 <= m < i - 1 implies (#[trigger] s.drop_first()[m]).0 != k by {
            assert(s.drop_first()[m] == s[m + 1]);
        }
        lemma_update_entry(s.drop_first(), i - 1, v, k);
        assert(t[0] == s[0]);
        assert(s[0].0 != k);
        assert forall|k2: u64| k2 != k implies #[trigger] entries_amount(t, k2) == entries_amount(
            s,
            k2,
        ) by {
            if s[0].0 == k2 {
                assert(entries_amount(t, k2) == t[0].1);
                assert(entries_amount(s, k2) == s[0].1);
            } else {
                assert(entries_amount(t, k2) == entries_amount(t.drop_first(), k2));
                assert(entries_amount(s, k2) == entries_amount(s.drop_first(), k2));
            }
        }
    }
}

/// Appending `(k, v)` for a key absent from `s` records `v` under `k`,
/// leaves every other key's amount alone, and adds `v` to the total.
pub proof fn lemma_push_entry(s: Seq<(u64, i128)>, k: u64, v: i128)
    requires
        forall|m: int| 0 <= m < s.len() ==> (#[trigger] s[m]).0 != k,
    ensures
        entries_amount(s.push((k, v)), k) == v,
        forall|k2: u64| k2 != k ==> #[trigger] entries_amount(s.push((k, v)), k2)
            == entries_amount(s, k2),
        entries_total(s.push((k, v))) == entries_total(s) + v,
    decreases s.len(),
{
    let t = s.push((k, v));
    if s.len() == 0 {
        assert(t.drop_first() =~= Seq::<(u64, i128)>::empty());
        assert(t[0] == (k, v));
        assert(entries_total(t.drop_first()) == 0);
        assert(entries_total(t) == v);
        assert forall|k2: u64| k2 != k implies #[trigger] entries_amount(t, k2) == entries_amount(
            s,
            k2,
        ) by {
            assert(entries_amount(t.drop_first(), k2) == 0);
        }
    } else {
        assert(t.drop_first() =~= s.drop_first().push((k, v)));
        assert forall|m: int| 0 <= m < s.drop_first().len() implies (#[trigger] s.drop_first()[m]).0
            != k by {
            assert(s.drop_first()[m] == s[m + 1]);
        }
        lemma_push_entry(s.drop_first(), k, v);
        assert(t[0] == s[0]);
        assert(s[0].0 != k);
        assert forall|k2: u64| k2 != k implies #[trigger] entries_amount(t, k2) == entries_amount(
            s,
            k2,
        ) by {
            if s[0].0 == k2 {
                assert(entries_amount(t, k2) == t[0].1);
            } else {
                assert(entries_amount(t, k2) == entries_amount(t.drop_first(), k2));
            }
        }
    }
}

/// A keyed ledger of non-negative amounts with distinct keys. Unseen keys
/// read as zero; entries are created on first credit and then mutated in
/// place, never removed.
pub struct AmountTable {
    pub entries: Vec<(u64, i128)>,
}

impl AmountTable {
    /// Well-formed: keys are distinct and no amount is negative.
    pub open spec fn wf(self) -> bool {
        distinct_keys(self.entries@) && nonnegative_amounts(self.entries@)
    }

    /// The amount recorded under `k`; zero for a key never credited.
    pub open spec fn spec_amount(self, k: u64) -> int {
        entries_amount(self.entries@, k)
    }

    /// The sum of all recorded amounts.
    pub open spec fn spec_total(self) -> int {
        entries_total(self.entries@)
    }

    /// An empty table.
    pub fn new() -> (t: AmountTable)
        ensures
            t.wf(),
            t.entries@.len() == 0,
            t.spec_total() == 0,
            forall|k: u64| #[trigger] t.spec_amount(k) == 0,
    {
        let t = AmountTable { entries: Vec::new() };
        proof {
            assert forall|k: u64| #[trigger] t.spec_amount(k) == 0 by {
                lemma_amount_absent(t.entries@, k);
            }
        }
        t
    }

    /// The index of the entry carrying `k`, when one exists.
    fn index_of(&self, k: u64) -> (r: Option<usize>)
        ensures
            match r {
                Some(i) => i < self.entries@.len() && self.entries@[i as int].0 == k && forall|
                    m: int,
                |
                    0 <= m < i ==> (#[trigger] self.entries@[m]).0 != k,
                None => forall|m: int|
                    0 <= m < self.entries@.len() ==> (#[trigger] self.entries@[m]).0 != k,
            },
    {
        let n: usize = self.entries.len();
        let mut i: usize = 0;
        while i < n
            invariant
                n == self.entries@.len(),
                i <= n,
                forall|m: int| 0 <= m < i ==> (#[trigger] self.entries@[m]).0 != k,
            decreases n - i,
        {
            if self.entries[i].0 == k {
                return Some(i);
            }
            i = i + 1;
        }
        None
    }

    /// Look up the amount recorded under `k`.
    pub fn lookup(&self, k: u64) -> (r: i128)
        ensures
            r as int == self.spec_amount(k),
    {
        match self.index_of(k) {
            Some(i) => {
                proof {
                    lemma_amount_at_found(self.entries@, i as int, k);
                }
                self.entries[i].1
            },
            None => {
                proof {
                    lemma_amount_absent(self.entries@, k);
                }
                0
            },
        }
    }

    /// Add `d` to the amount under `k`, creating the entry when absent.
    pub fn credit(&mut self, k: u64, d: i128)
        requires
            old(self).wf(),
            0 <= d,
            old(self).spec_amount(k) + d <= i128::MAX,
        ensures
            final(self).wf(),
            final(self).spec_amount(k) == old(self).spec_amount(k) + d,
            forall|k2: u64| k2 != k ==> #[trigger] final(self).spec_amount(k2) == old(
                self,
            ).spec_amount(k2),
            final(self).spec_total() == old(self).spec_total() + d,
    {
        match self.index_of(k) {
            Some(i) => {
                proof {
                    lemma_amount_at_found(self.entries@, i as int, k);
                }
                let v: i128 = self.entries[i].1;
                proof {
                    lemma_update_entry(self.entries@, i as int, (v + d) as i128, k);
                }
                self.entries.set(i, (k, v + d));
                proof {
                    assert forall|a: int, b: int|
                        0 <= a < b < self.entries@.len() implies (#[trigger] self.entries@[a]).0 != (
                    #[trigger] self.entries@[b]).0 by {
                        assert(old(self).entries@[a].0 != old(self).entries@[b].0);
                    }
                    assert forall|a: int|
                        0 <= a < self.entries@.len() implies (#[trigger] self.entries@[a]).1
                        >= 0 by {
                        assert(old(self).entries@[a].1 >= 0);
                    }
                }
            },
            None => {
                proof {
                    lemma_amount_absent(self.entries@, k);
                    lemma_push_entry(self.entries@, k, d);
                }
                self.entries.push((k, d));
                proof {
                    assert forall|a: int, b: int|
                        0 <= a < b < self.entries@.len() implies (#[trigger] self.entries@[a]).0 != (
                    #[trigger] self.entries@[b]).0 by {
                        if b < self.entries@.len() - 1 {
                            assert(old(self).entries@[a].0 != old(self).entries@[b].0);
                        } else {
                            assert(old(self).entries@[a].0 != k);
                        }
                    }
                    assert forall|a: int|
                        0 <= a < self.entries@.len() implies (#[trigger] self.entries@[a]).1
                        >= 0 by {
                        if a < self.entries@.len() - 1 {
                            assert(old(self).entries@[a].1 >= 0);
                        }
                    }
                }
            },
        }
    }

    /// Subtract `d` from the amount under `k`; the amount must cover `d`.
    pub fn debit(&mut self, k: u64, d: i128)
        requires
            old(self).wf(),
            0 <= d <= old(self).spec_amount(k),
        ensures
            final(self).wf(),
            final(self).spec_amount(k) == old(self).spec_amount(k) - d,
            forall|k2: u64| k2 != k ==> #[trigger] final(self).spec_amount(k2) == old(
                self,
            ).spec_amount(k2),
            final(self).spec_total() == old(self).spec_total() - d,
    {
        match self.index_of(k) {
            Some(i) => {
                proof {
                    lemma_amount_at_found(self.entries@, i as int, k);
                }
                let v: i128 = self.entries[i].1;
                proof {
                    lemma_update_entry(self.entries@, i as int, (v - d) as i128, k);
                }
                self.entries.set(i, (k, v - d));
                proof {
                    assert forall|a: int, b: int|
                        0 <= a < b < self.entries@.len() implies (#[trigger] self.entries@[a]).0 != (
                    #[trigger] self.entries@[b]).0 by {
                        assert(old(self).entries@[a].0 != old(self).entries@[b].0);
                    }
                    assert forall|a: int|
                        0 <= a < self.entries@.len() implies (#[trigger] self.entries@[a]).1
                        >= 0 by {
                        assert(old(self).entries@[a].1 >= 0);
                    }
                }
            },
            None => {
                proof {
                    lemma_amount_absent(self.entries@, k);
                }
            },
        }
    }

    /// Zero the amount under `k` in place; the entry itself stays.
    pub fn clear(&mut self, k: u64)
        requires
            old(self).wf(),
        ensures
            final(self).wf(),
            final(self).spec_amount(k) == 0,
            forall|k2: u64| k2 != k ==> #[trigger] final(self).spec_amount(k2) == old(
                self,
            ).spec_amount(k2),
            final(self).spec_total() == old(self).spec_total() - old(self).spec_amount(k),
    {
        proof {
            lemma_amount_le_total(self.entries@, k);
        }
        let v: i128 = self.lookup(k);
        self.debit(k, v);
    }
}

/// The replay guard: the uids of attestations whose settlement has already
/// taken effect. Append-only; a uid is recorded at most once.
pub struct UidList {
    pub entries: Vec<u64>,
}

impl UidList {
    /// Whether `uid` has been recorded.
    pub open spec fn spec_contains(self, uid: u64) -> bool {
        self.entries@.contains(uid)
    }

    /// An empty guard.
    pub fn new() -> (l: UidList)
        ensures
            l.entries@.len() == 0,
            forall|u: u64| !(#[trigger] l.spec_contains(u)),
    {
        UidList { entries: Vec::new() }
    }

    /// Whether `uid` has been recorded.
    pub fn contains(&self, uid: u64) -> (r: bool)
        ensures
            r == self.spec_contains(uid),
    {
        let n: usize = self.entries.len();
        let mut i: usize = 0;
        while i < n
            invariant
                n == self.entries@.len(),
                i <= n,
                forall|m: int| 0 <= m < i ==> self.entries@[m] != uid,
            decreases n - i,
        {
            if self.entries[i] == uid {
                proof {
                    assert(self.entries@[i as int] == uid);
                }
                return true;
            }
            i = i + 1;
        }
        false
    }

    /// Record `uid`.
    pub fn record(&mut self, uid: u64)
        ensures
            final(self).entries@ == old(self).entries@.push(uid),
            final(self).spec_contains(uid),
            forall|u: u64| u != uid ==> (#[trigger] final(self).spec_contains(u) == old(
                self,
            ).spec_contains(u)),
    {
        self.entries.push(uid);
        proof {
            assert(self.entries@[self.entries@.len() - 1] == uid);
            assert forall|u: u64|
                u != uid implies (#[trigger] self.spec_contains(u) == old(self).spec_contains(
                u,
            )) by {
                if old(self).spec_contains(u) {
                    let w = choose|m: int|
                        0 <= m < old(self).entries@.len() && old(self).entries@[m] == u;
                    assert(self.entries@[w] == u);
                }
                if self.spec_contains(u) {
                    let w = choose|m: int| 0 <= m < self.entries@.len() && self.entries@[m] == u;
                    assert(w < old(self).entries@.len());
                    assert(old(self).entries@[w] == u);
                }
            }
        }
    }
}

} // verus!
