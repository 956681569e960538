use vstd::prelude::*;

use crate::account::AccountId;

verus! {

/// Sum of the balance values of a sequence of (account, balance) entries.
pub open spec fn sum_of(s: Seq<(AccountId, u128)>) -> int
    decreases s.len(),
{
    if s.len() == 0 {
        0
    } else {
        s[0].1 + sum_of(s.drop_first())
    }
}

/// The balance the entries record for an account: the value of the first
/// entry with a matching key, or 0 when no entry matches (absent accounts
/// hold nothing).
pub open spec fn lookup(s: Seq<(AccountId, u128)>, a: AccountId) -> u128
    decreases s.len(),
{
    if s.len() == 0 {
        0u128
    } else if s[0].0 == a {
        s[0].1
    } else {
        lookup(s.drop_first(), a)
    }
}

proof fn lemma_sum_nonneg(s: Seq<(AccountId, u128)>)
    ensures
        sum_of(s) >= 0,
    decreases s.len(),
{
    if s.len() > 0 {
        lemma_sum_nonneg(s.drop_first());
    }
}

proof fn lemma_lookup_le_sum(s: Seq<(AccountId, u128)>, a: AccountId)
    ensures
        lookup(s, a) <= sum_of(s),
    decreases s.len(),
{
    if s.len() > 0 {
        if s[0].0 == a {
            lemma_sum_nonneg(s.drop_first());
        } else {
            lemma_lookup_le_sum(s.drop_first(), a);
        }
    }
}

proof fn lemma_sum_push(s: Seq<(AccountId, u128)>, p: (AccountId, u128))
    ensures
        sum_of(s.push(p)) == sum_of(s) + p.1,
    decreases s.len(),
{
    let t = s.push(p);
    assert(t.len() == s.len() + 1);
    assert(t[0] == if s.len() == 0 { p } else { s[0] });
    assert(sum_of(t) == t[0].1 + sum_of(t.drop_first()));
    if s.len() == 0 {
        assert(t.drop_first() =~= Seq::<(AccountId, u128)>::empty());
        assert(sum_of(t.drop_first()) == 0);
        assert(sum_of(s) == 0);
    } else {
        assert(t.drop_first() =~= s.drop_first().push(p));
        lemma_sum_push(s.drop_first(), p);
        assert(sum_of(t.drop_first()) == sum_of(s.drop_first()) + p.1);
        assert(sum_of(s) == s[0].1 + sum_of(s.drop_first()));
    }
}

proof fn lemma_sum_update(s: Seq<(AccountId, u128)>, i: int, p: (AccountId, u128))
    requires
        0 <= i < s.len(),
    ensures
        sum_of(s.update(i, p)) == sum_of(s) + p.1 - s[i].1,
    decreases s.len(),
{
    if i == 0 {
        assert(s.update(0, p).drop_first() =~= s.drop_first());
    } else {
        assert(s.update(i, p).drop_first() =~= s.drop_first().update(i - 1, p));
        lemma_sum_update(s.drop_first(), i - 1, p);
    }
}

proof fn lemma_lookup_first_match(s: Seq<(AccountId, u128)>, i: int, a: AccountId)
    requires
        0 <= i < s.len(),
        s[i].0 == a,
        forall|j: int| 0 <= j < i ==> s[j].0 != a,
    ensures
        lookup(s, a) == s[i].1,
    decreases i,
{
    if i > 0 {
        lemma_lookup_first_match(s.drop_first(), i - 1, a);
    }
}

proof fn lemma_lookup_absent(s: Seq<(AccountId, u128)>, a: AccountId)
    requires
        forall|j: int| 0 <= j < s.len() ==> s[j].0 != a,
    ensures
        lookup(s, a) == 0,
    decreases s.len(),
{
    if s.len() > 0 {
        lemma_lookup_absent(s.drop_first(), a);
    }
}

proof fn lemma_lookup_push(s: Seq<(AccountId, u128)>, p: (AccountId, u128), b: AccountId)
    ensures
        lookup(s.push(p), b) == if exists|j: int| 0 <= j < s.len() && s[j].0 == b {
            lookup(s, b)
        } else if p.0 == b {
            p.1
        } else {
            0u128
        },
    decreases s.len(),
{
    let t = s.push(p);
    assert(t.len() == s.len() + 1);
    assert(t[0] == if s.len() == 0 { p } else { s[0] });
    assert(lookup(t, b) == if t[0].0 == b {
        t[0].1
    } else {
        lookup(t.drop_first(), b)
    });
    if s.len() == 0 {
        assert(t.drop_first() =~= Seq::<(AccountId, u128)>::empty());
        assert(lookup(t.drop_first(), b) == 0);
    } else {
        assert(t.drop_first() =~= s.drop_first().push(p));
        lemma_lookup_push(s.drop_first(), p, b);
        assert(lookup(s, b) == if s[0].0 == b {
            s[0].1
        } else {
            lookup(s.drop_first(), b)
        });
        if s[0].0 == b {
            assert(exists|j: int| 0 <= j < s.len() && s[j].0 == b);
        } else {
            assert(forall|j: int| 0 <= j < s.drop_first().len() ==> s.drop_first()[j] == s[j + 1]);
            if exists|j: int| 0 <= j < s.len() && s[j].0 == b {
                let j = choose|j: int| 0 <= j < s.len() && s[j].0 == b;
                assert(s.drop_first()[j - 1].0 == b);
                assert(exists|j: int|
                    0 <= j < s.drop_first().len() && s.drop_first()[j].0 == b);
            } else {
                assert(!(exists|j: int|
                    0 <= j < s.drop_first().len() && s.drop_first()[j].0 == b));
            }
        }
    }
}

proof fn lemma_lookup_update(s: Seq<(AccountId, u128)>, i: int, p: (AccountId, u128), b: AccountId)
    requires
        0 <= i < s.len(),
        s[i].0 == p.0,
        forall|j: int| 0 <= j < i ==> s[j].0 != p.0,
    ensures
        lookup(s.update(i, p), b) == if p.0 == b {
            p.1
        } else {
            lookup(s, b)
        },
    decreases i,
{
    if i == 0 {
        assert(s.update(0, p).drop_first() =~= s.drop_first());
    } else {
        assert(s.update(i, p).drop_first() =~= s.drop_first().update(i - 1, p));
        lemma_lookup_update(s.drop_first(), i - 1, p, b);
    }
}

/// Maps each account to its balance. Accounts never written hold balance 0;
/// no entry is stored for them.
pub struct BalanceStore {
    entries: Vec<(AccountId, u128)>,
}

impl BalanceStore {
    /// Well-formed: each account has at most one entry.
    pub closed spec fn wf(self) -> bool {
        forall|i: int, j: int|
            0 <= i < j < self.entries@.len() ==> self.entries@[i].0 != self.entries@[j].0
    }

    /// The balance the store records for an account (0 when absent).
    pub closed spec fn spec_balance(self, a: AccountId) -> u128 {
        lookup(self.entries@, a)
    }

    /// The sum of all stored balances, absent accounts counting as 0.
    pub closed spec fn total(self) -> int {
        sum_of(self.entries@)
    }

    /// Every balance is at most the sum of all balances: balances are never
    /// negative, so no single account can exceed the total.
    pub proof fn lemma_balance_le_total(self, a: AccountId)
        ensures
            self.spec_balance(a) <= self.total(),
    {
        lemma_lookup_le_sum(self.entries@, a);
    }

    /// An empty store: every account holds 0.
    pub fn new() -> (r: BalanceStore)
        ensures
            r.wf(),
            r.total() == 0,
            forall|a: AccountId| r.spec_balance(a) == 0,
    {
        BalanceStore { entries: Vec::new() }
    }

    /// Reads an account's balance, 0 when the account was never written.
    pub fn get(&self, a: &AccountId) -> (r: u128)
        ensures
            r == self.spec_balance(*a),
    {
        let n = self.entries.len();
        let mut i: usize = 0;
        while i < n
            invariant
                n == self.entries@.len(),
                i <= n,
                forall|j: int| 0 <= j < i ==> self.entries@[j].0 != *a,
            decreases n - i,
        {
            if self.entries[i].0 == *a {
                proof {
                    lemma_lookup_first_match(self.entries@, i as int, *a);
                }
                return self.entries[i].1;
            }
            i = i + 1;
        }
        proof {
            lemma_lookup_absent(self.entries@, *a);
        }
        0
    }

    /// Writes an account's balance, overwriting any previous value. The sum
    /// of all balances changes by exactly the difference between the new and
    /// the old value.
    pub fn set(&mut self, a: &AccountId, v: u128)
        requires
            old(self).wf(),
        ensures
            final(self).wf(),
            final(self).spec_balance(*a) == v,
            forall|b: AccountId| b != *a ==> final(self).spec_balance(b) == old(
                self,
            ).spec_balance(b),
            final(self).total() == old(self).total() + v - old(self).spec_balance(*a),
    {
        let ghost s = self.entries@;
        let n = self.entries.len();
        let mut i: usize = 0;
        while i < n
            invariant
                old(self).wf(),
                self.entries@ == s,
                s == old(self).entries@,
                n == s.len(),
                i <= n,
                forall|j: int| 0 <= j < i ==> s[j].0 != *a,
            decreases n - i,
        {
            if self.entries[i].0 == *a {
                proof {
                    lemma_lookup_first_match(s, i as int, *a);
                    lemma_sum_update(s, i as int, (*a, v));
                }
                self.entries[i] = (*a, v);
                proof {
                    assert(self.entries@ == s.update(i as int, (*a, v)));
                    assert(forall|k: int| 0 <= k < s.len() ==> self.entries@[k].0 == s[k].0);
                    lemma_lookup_update(s, i as int, (*a, v), *a);
                    assert forall|b: AccountId| b != *a implies lookup(self.entries@, b) == lookup(
                        s,
                        b,
                    ) by {
                        lemma_lookup_update(s, i as int, (*a, v), b);
                    }
                }
                return ;
            }
            i = i + 1;
        }
        proof {
            lemma_lookup_absent(s, *a);
            lemma_sum_push(s, (*a, v));
        }
        self.entries.push((*a, v));
        proof {
            assert(self.entries@ == s.push((*a, v)));
            assert forall|x: int, y: int|
                0 <= x < y < self.entries@.len() implies self.entries@[x].0 != self.entries@[y].0 by {
                if y < s.len() {
                    assert(s[x].0 != s[y].0);
                } else {
                    assert(s[x].0 != *a);
                }
            }
            assert(lookup(self.entries@, *a) == v) by {
                lemma_lookup_push(s, (*a, v), *a);
                if exists|j: int| 0 <= j < s.len() && s[j].0 == *a {
                    let j = choose|j: int| 0 <= j < s.len() && s[j].0 == *a;
                    assert(false);
                }
            }
            assert forall|b: AccountId| b != *a implies lookup(self.entries@, b) == lookup(
                s,
                b,
            ) by {
                lemma_lookup_push(s, (*a, v), b);
                if !(exists|j: int| 0 <= j < s.len() && s[j].0 == b) {
                    lemma_lookup_absent(s, b);
                }
            }
        }
    }
}

} // verus!
