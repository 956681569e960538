use vstd::prelude::*;

use crate::account::AccountId;

verus! {

/// The amount the entries record for an (owner, spender) pair: the value of
/// the first entry with a matching pair, or 0 when no entry matches (a pair
/// never approved has no allowance).
pub open spec fn lookup_pair(
    s: Seq<(AccountId, AccountId, u128)>,
    owner: AccountId,
    spender: AccountId,
) -> u128
    decreases s.len(),
{
    if s.len() == 0 {
        0u128
    } else if s[0].0 == owner && s[0].1 == spender {
        s[0].2
    } else {
        lookup_pair(s.drop_first(), owner, spender)
    }
}

proof fn lemma_lookup_pair_first_match(
    s: Seq<(AccountId, AccountId, u128)>,
    i: int,
    owner: AccountId,
    spender: AccountId,
)
    requires
        0 <= i < s.len(),
        s[i].0 == owner && s[i].1 == spender,
        forall|j: int| 0 <= j < i ==> !(s[j].0 == owner && s[j].1 == spender),
    ensures
        lookup_pair(s, owner, spender) == s[i].2,
    decreases i,
{
    if i > 0 {
        lemma_lookup_pair_first_match(s.drop_first(), i - 1, owner, spender);
    }
}

proof fn lemma_lookup_pair_absent(
    s: Seq<(AccountId, AccountId, u128)>,
    owner: AccountId,
    spender: AccountId,
)
    requires
        forall|j: int| 0 <= j < s.len() ==> !(s[j].0 == owner && s[j].1 == spender),
    ensures
        lookup_pair(s, owner, spender) == 0,
    decreases s.len(),
{
    if s.len() > 0 {
        lemma_lookup_pair_absent(s.drop_first(), owner, spender);
    }
}

proof fn lemma_lookup_pair_push(
    s: Seq<(AccountId, AccountId, u128)>,
    p: (AccountId, AccountId, u128),
    owner: AccountId,
    spender: AccountId,
)
    requires
        forall|j: int| 0 <= j < s.len() ==> !(s[j].0 == p.0 && s[j].1 == p.1),
    ensures
        lookup_pair(s.push(p), owner, spender) == if p.0 == owner && p.1 == spender {
            p.2
        } else {
            lookup_pair(s, owner, spender)
        },
    decreases s.len(),
{
    let t = s.push(p);
    assert(t.len() == s.len() + 1);
    assert(t[0] == if s.len() == 0 { p } else { s[0] });
    assert(lookup_pair(t, owner, spender) == if t[0].0 == owner && t[0].1 == spender {
        t[0].2
    } else {
        lookup_pair(t.drop_first(), owner, spender)
    });
    if s.len() == 0 {
        assert(t.drop_first() =~= Seq::<(AccountId, AccountId, u128)>::empty());
        assert(lookup_pair(t.drop_first(), owner, spender) == 0);
        if !(p.0 == owner && p.1 == spender) {
            lemma_lookup_pair_absent(s, owner, spender);
        }
    } else {
        assert(t.drop_first() =~= s.drop_first().push(p));
        lemma_lookup_pair_push(s.drop_first(), p, owner, spender);
        assert(lookup_pair(s, owner, spender) == if s[0].0 == owner && s[0].1 == spender {
            s[0].2
        } else {
            lookup_pair(s.drop_first(), owner, spender)
        });
    }
}

proof fn lemma_lookup_pair_update(
    s: Seq<(AccountId, AccountId, u128)>,
    i: int,
    p: (AccountId, AccountId, u128),
    owner: AccountId,
    spender: AccountId,
)
    requires
        0 <= i < s.len(),
        s[i].0 == p.0 && s[i].1 == p.1,
        forall|j: int| 0 <= j < i ==> !(s[j].0 == p.0 && s[j].1 == p.1),
    ensures
        lookup_pair(s.update(i, p), owner, spender) == if p.0 == owner && p.1 == spender {
            p.2
        } else {
            lookup_pair(s, owner, spender)
        },
    decreases i,
{
    if i == 0 {
        assert(s.update(0, p).drop_first() =~= s.drop_first());
    } else {
        assert(s.update(i, p).drop_first() =~= s.drop_first().update(i - 1, p));
        lemma_lookup_pair_update(s.drop_first(), i - 1, p, owner, spender);
    }
}

/// Maps each (owner, spender) pair to the amount the spender may still move
/// out of the owner's balance. Pairs never approved hold 0; no entry is
/// stored for them.
pub struct AllowanceStore {
    entries: Vec<(AccountId, AccountId, u128)>,
}

impl AllowanceStore {
    /// Well-formed: each (owner, spender) pair has at most one entry.
    pub closed spec fn wf(self) -> bool {
        forall|i: int, j: int|
            0 <= i < j < self.entries@.len() ==> !(self.entries@[i].0 == self.entries@[j].0
                && self.entries@[i].1 == self.entries@[j].1)
    }

    /// The allowance the store records for a pair (0 when absent).
    pub closed spec fn spec_allowance(self, owner: AccountId, spender: AccountId) -> u128 {
        lookup_pair(self.entries@, owner, spender)
    }

    /// An empty store: no pair has an allowance.
    pub fn new() -> (r: AllowanceStore)
        ensures
            r.wf(),
            forall|o: AccountId, s: AccountId| r.spec_allowance(o, s) == 0,
    {
        AllowanceStore { entries: Vec::new() }
    }

    /// Reads a pair's allowance, 0 when the pair was never approved.
    pub fn get(&self, owner: &AccountId, spender: &AccountId) -> (r: u128)
        ensures
            r == self.spec_allowance(*owner, *spender),
    {
        let n = self.entries.len();
        let mut i: usize = 0;
        while i < n
            invariant
                n == self.entries@.len(),
                i <= n,
                forall|j: int|
                    0 <= j < i ==> !(self.entries@[j].0 == *owner && self.entries@[j].1
                        == *spender),
            decreases n - i,
        {
            if self.entries[i].0 == *owner && self.entries[i].1 == *spender {
                proof {
                    lemma_lookup_pair_first_match(self.entries@, i as int, *owner, *spender);
                }
                return self.entries[i].2;
            }
            i = i + 1;
        }
        proof {
            lemma_lookup_pair_absent(self.entries@, *owner, *spender);
        }
        0
    }

    /// Writes a pair's allowance, overwriting any previous value.
    pub fn set(&mut self, owner: &AccountId, spender: &AccountId, v: u128)
        requires
            old(self).wf(),
        ensures
            final(self).wf(),
            final(self).spec_allowance(*owner, *spender) == v,
            forall|o: AccountId, s: AccountId|
                !(o == *owner && s == *spender) ==> final(self).spec_allowance(o, s) == old(
                    self,
                ).spec_allowance(o, s),
    {
        let ghost s0 = self.entries@;
        let n = self.entries.len();
        let mut i: usize = 0;
        while i < n
            invariant
                old(self).wf(),
                self.entries@ == s0,
                s0 == old(self).entries@,
                n == s0.len(),
                i <= n,
                forall|j: int| 0 <= j < i ==> !(s0[j].0 == *owner && s0[j].1 == *spender),
            decreases n - i,
        {
            if self.entries[i].0 == *owner && self.entries[i].1 == *spender {
                self.entries[i] = (*owner, *spender, v);
                proof {
                    assert(self.entries@ == s0.update(i as int, (*owner, *spender, v)));
                    assert(forall|k: int|
                        0 <= k < s0.len() ==> self.entries@[k].0 == s0[k].0 && self.entries@[k].1
                            == s0[k].1);
                    lemma_lookup_pair_update(s0, i as int, (*owner, *spender, v), *owner, *spender);
                    assert forall|o: AccountId, sp: AccountId|
                        !(o == *owner && sp == *spender) implies lookup_pair(self.entries@, o, sp)
                        == lookup_pair(s0, o, sp) by {
                        lemma_lookup_pair_update(s0, i as int, (*owner, *spender, v), o, sp);
                    }
                }
                return ;
            }
            i = i + 1;
        }
        self.entries.push((*owner, *spender, v));
        proof {
            assert(self.entries@ == s0.push((*owner, *spender, v)));
            assert forall|x: int, y: int|
                0 <= x < y < self.entries@.len() implies !(self.entries@[x].0
                == self.entries@[y].0 && self.entries@[x].1 == self.entries@[y].1) by {
                if y < s0.len() {
                    assert(!(s0[x].0 == s0[y].0 && s0[x].1 == s0[y].1));
                } else {
                    assert(!(s0[x].0 == *owner && s0[x].1 == *spender));
                }
            }
            lemma_lookup_pair_push(s0, (*owner, *spender, v), *owner, *spender);
            assert forall|o: AccountId, sp: AccountId|
                !(o == *owner && sp == *spender) implies lookup_pair(self.entries@, o, sp)
                == lookup_pair(s0, o, sp) by {
                lemma_lookup_pair_push(s0, (*owner, *spender, v), o, sp);
            }
        }
    }
}

} // verus!
