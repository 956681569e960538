use vstd::prelude::*;

use crate::account::AccountId;
use crate::allowances::AllowanceStore;
use crate::balances::BalanceStore;
use crate::error::Error;
use crate::event::Approve;
use crate::event::Event;
use crate::event::Transfer;

verus! {

/// The fungible-token ledger: a fixed total supply of units, who holds them,
/// what spenders may move on an owner's behalf, and the events emitted so
/// far.
///
/// A ledger is created once by `new`, which mints the entire supply to the
/// constructing caller, and is mutated only through `transfer`, `approve` and
/// `transfer_from`. Each of those either completes in full or returns an
/// error and leaves the ledger untouched. Every reachable state is
/// well-formed (`wf`): the stored balances always sum to the total supply.
pub struct Erc20 {
    total_supply: u128,
    balances: BalanceStore,
    allowances: AllowanceStore,
    events: Vec<Event>,
}

/// What a direct transfer returns: it succeeds exactly when the source
/// balance covers the value, and fails with `InsufficientBalance` otherwise.
pub open spec fn transfer_result(pre: Erc20, from: AccountId, value: u128) -> Result<(), Error> {
    if value <= pre.spec_balance(from) {
        Ok(())
    } else {
        Err(Error::InsufficientBalance)
    }
}

/// What a delegated transfer returns: the spender's allowance is checked
/// first, then the owner's balance.
pub open spec fn transfer_from_result(
    pre: Erc20,
    caller: AccountId,
    from: AccountId,
    value: u128,
) -> Result<(), Error> {
    if pre.spec_allowance(from, caller) < value {
        Err(Error::InsufficientAllowance)
    } else if pre.spec_balance(from) < value {
        Err(Error::InsufficientBalance)
    } else {
        Ok(())
    }
}

/// How a successful transfer moves the balances: `value` leaves `from` and
/// reaches `to`, a self-transfer changes nothing, and no other account is
/// touched.
pub open spec fn balances_shifted(
    pre: Erc20,
    post: Erc20,
    from: AccountId,
    to: AccountId,
    value: u128,
) -> bool {
    &&& (from != to ==> post.spec_balance(from) == pre.spec_balance(from) - value)
    &&& (from != to ==> post.spec_balance(to) == pre.spec_balance(to) + value)
    &&& (from == to ==> post.spec_balance(from) == pre.spec_balance(from))
    &&& forall|a: AccountId|
        a != from && a != to ==> post.spec_balance(a) == pre.spec_balance(a)
}

/// The full effect of a direct transfer: the result is `transfer_result`; on
/// success the balances shift, everything else is kept, and one Transfer
/// event is appended; on failure the ledger is exactly the pre state.
pub open spec fn transfer_post(
    pre: Erc20,
    post: Erc20,
    from: AccountId,
    to: AccountId,
    value: u128,
    r: Result<(), Error>,
) -> bool {
    &&& r == transfer_result(pre, from, value)
    &&& (r is Ok ==> {
        &&& balances_shifted(pre, post, from, to, value)
        &&& forall|o: AccountId, s: AccountId|
            post.spec_allowance(o, s) == pre.spec_allowance(o, s)
        &&& post.spec_total_supply() == pre.spec_total_supply()
        &&& post.spec_events() == pre.spec_events().push(
            Event::Transfer(Transfer { from: Some(from), to: Some(to), value }),
        )
    })
    &&& (r is Err ==> post == pre)
}

/// The full effect of an approval: the pair's allowance becomes exactly
/// `value` (overwriting, never adding), nothing else changes, and one
/// Approve event is appended.
pub open spec fn approve_post(
    pre: Erc20,
    post: Erc20,
    owner: AccountId,
    spender: AccountId,
    value: u128,
) -> bool {
    &&& post.spec_allowance(owner, spender) == value
    &&& forall|o: AccountId, s: AccountId|
        !(o == owner && s == spender) ==> post.spec_allowance(o, s) == pre.spec_allowance(o, s)
    &&& forall|a: AccountId| post.spec_balance(a) == pre.spec_balance(a)
    &&& post.spec_total_supply() == pre.spec_total_supply()
    &&& post.spec_events() == pre.spec_events().push(
        Event::Approve(Approve { owner, spender, value }),
    )
}

/// The full effect of a delegated transfer: the result is
/// `transfer_from_result`; on success the balances shift, the spender's
/// allowance drops by exactly `value`, everything else is kept, and one
/// Transfer event is appended; on failure of either kind the ledger is
/// exactly the pre state.
pub open spec fn transfer_from_post(
    pre: Erc20,
    post: Erc20,
    caller: AccountId,
    from: AccountId,
    to: AccountId,
    value: u128,
    r: Result<(), Error>,
) -> bool {
    &&& r == transfer_from_result(pre, caller, from, value)
    &&& (r is Ok ==> {
        &&& balances_shifted(pre, post, from, to, value)
        &&& post.spec_allowance(from, caller) == pre.spec_allowance(from, caller) - value
        &&& forall|o: AccountId, s: AccountId|
            !(o == from && s == caller) ==> post.spec_allowance(o, s) == pre.spec_allowance(o, s)
        &&& post.spec_total_supply() == pre.spec_total_supply()
        &&& post.spec_events() == pre.spec_events().push(
            Event::Transfer(Transfer { from: Some(from), to: Some(to), value }),
        )
    })
    &&& (r is Err ==> post == pre)
}

impl Erc20 {
    /// The fixed total supply set at construction.
    pub closed spec fn spec_total_supply(self) -> u128 {
        self.total_supply
    }

    /// The balance of an account; 0 for an account never written.
    pub closed spec fn spec_balance(self, a: AccountId) -> u128 {
        self.balances.spec_balance(a)
    }

    /// The remaining allowance of a (owner, spender) pair; 0 for a pair
    /// never approved.
    pub closed spec fn spec_allowance(self, owner: AccountId, spender: AccountId) -> u128 {
        self.allowances.spec_allowance(owner, spender)
    }

    /// The events emitted so far, oldest first.
    pub closed spec fn spec_events(self) -> Seq<Event> {
        self.events@
    }

    /// The sum of all account balances, accounts never written counting 0.
    pub closed spec fn spec_balance_sum(self) -> int {
        self.balances.total()
    }

    /// Well-formed: the stores keep one entry per key, and the balances sum
    /// to the total supply. `new` establishes this and every operation
    /// preserves it, so it holds of every reachable ledger.
    pub closed spec fn wf(self) -> bool {
        &&& self.balances.wf()
        &&& self.allowances.wf()
        &&& self.balances.total() == self.total_supply
    }

    /// Conservation: in a well-formed ledger the balances sum exactly to the
    /// total supply, and no single balance can exceed it.
    pub proof fn lemma_conservation(self)
        requires
            self.wf(),
        ensures
            self.spec_balance_sum() == self.spec_total_supply(),
            forall|a: AccountId| #[trigger] self.spec_balance(a) <= self.spec_total_supply(),
    {
        assert forall|a: AccountId| #[trigger] self.spec_balance(a)
            <= self.spec_total_supply() by {
            self.balances.lemma_balance_le_total(a);
        }
    }

    /// Non-negativity: a balance is an unsigned count of units, so no
    /// operation can leave it below zero; every query returns at least 0.
    /// (The subtraction inside a transfer is proved in range before it is
    /// performed.)
    pub proof fn lemma_non_negative(self, a: AccountId)
        ensures
            self.spec_balance(a) >= 0,
    {
    }

    /// Idempotent approval overwrite: approving the same pair twice leaves
    /// the second value, not the sum of the two.
    pub proof fn lemma_approve_overwrites(
        l0: Erc20,
        l1: Erc20,
        l2: Erc20,
        owner: AccountId,
        spender: AccountId,
        v1: u128,
        v2: u128,
    )
        requires
            approve_post(l0, l1, owner, spender, v1),
            approve_post(l1, l2, owner, spender, v2),
        ensures
            l2.spec_allowance(owner, spender) == v2,
    {
    }

    /// Allowance decrement: a successful delegated transfer lowers the
    /// spender's allowance by exactly the value moved; a failed one, of
    /// either error kind, leaves it untouched.
    pub proof fn lemma_allowance_decrement(
        pre: Erc20,
        post: Erc20,
        caller: AccountId,
        from: AccountId,
        to: AccountId,
        value: u128,
        r: Result<(), Error>,
    )
        requires
            transfer_from_post(pre, post, caller, from, to, value, r),
        ensures
            r is Ok ==> post.spec_allowance(from, caller) == pre.spec_allowance(from, caller)
                - value,
            r is Err ==> post.spec_allowance(from, caller) == pre.spec_allowance(from, caller),
    {
    }

    /// Creates the ledger, minting the entire initial supply to the
    /// constructing caller and emitting the one Transfer event whose source
    /// is `None`. Construction cannot fail; a zero supply is legal.
    pub fn new(caller: AccountId, initial_supply: u128) -> (r: Erc20)
        ensures
            r.wf(),
            r.spec_total_supply() == initial_supply,
            r.spec_balance(caller) == initial_supply,
            forall|a: AccountId| a != caller ==> r.spec_balance(a) == 0,
            forall|o: AccountId, s: AccountId| r.spec_allowance(o, s) == 0,
            r.spec_events() == seq![
                Event::Transfer(Transfer { from: None, to: Some(caller), value: initial_supply }),
            ],
    {
        let mut balances = BalanceStore::new();
        balances.set(&caller, initial_supply);
        let mut events: Vec<Event> = Vec::new();
        events.push(
            Event::Transfer(Transfer { from: None, to: Some(caller), value: initial_supply }),
        );
        let r = Erc20 { total_supply: initial_supply, balances, allowances: AllowanceStore::new(), events };
        proof {
            assert(r.spec_events() =~= seq![
                Event::Transfer(Transfer { from: None, to: Some(caller), value: initial_supply }),
            ]);
        }
        r
    }

    /// Returns the fixed total supply.
    pub fn total_supply(&self) -> (r: u128)
        ensures
            r == self.spec_total_supply(),
    {
        self.total_supply
    }

    /// Returns the balance of `owner`, 0 when the account was never written.
    pub fn balance_of(&self, owner: AccountId) -> (r: u128)
        ensures
            r == self.spec_balance(owner),
    {
        self.balance_of_impl(&owner)
    }

    /// Returns the balance of `owner`, taken by reference.
    pub fn balance_of_impl(&self, owner: &AccountId) -> (r: u128)
        ensures
            r == self.spec_balance(*owner),
    {
        self.balances.get(owner)
    }

    /// Moves `value` units from the caller to `to`. Fails with
    /// `InsufficientBalance`, changing nothing, when the caller's balance is
    /// short.
    pub fn transfer(&mut self, caller: AccountId, to: AccountId, value: u128) -> (r: Result<
        (),
        Error,
    >)
        requires
            old(self).wf(),
        ensures
            final(self).wf(),
            transfer_post(*old(self), *final(self), caller, to, value, r),
    {
        self.transfer_from_to(&caller, &to, value)
    }

    /// The shared transfer step: validates the source balance, then debits
    /// and credits as one unit. The debit is written before the recipient is
    /// read, so a self-transfer is a no-op and the credited balance is
    /// bounded by the total supply, which rules out overflow.
    fn transfer_from_to(&mut self, from: &AccountId, to: &AccountId, value: u128) -> (r: Result<
        (),
        Error,
    >)
        requires
            old(self).wf(),
        ensures
            final(self).wf(),
            transfer_post(*old(self), *final(self), *from, *to, value, r),
    {
        let from_balance = self.balances.get(from);
        if from_balance < value {
            return Err(Error::InsufficientBalance);
        }
        proof {
            self.balances.lemma_balance_le_total(*from);
        }
        self.balances.set(from, from_balance - value);
        let to_balance = self.balances.get(to);
        proof {
            self.balances.lemma_balance_le_total(*to);
        }
        self.balances.set(to, to_balance + value);
        self.events.push(Event::Transfer(Transfer { from: Some(*from), to: Some(*to), value }));
        Ok(())
    }

    /// Sets the caller's allowance for `spender` to exactly `value`,
    /// overwriting any earlier value. Always succeeds: revoking with 0 and
    /// approving more than the caller holds are both legal.
    pub fn approve(&mut self, caller: AccountId, spender: AccountId, value: u128) -> (r: Result<
        (),
        Error,
    >)
        requires
            old(self).wf(),
        ensures
            final(self).wf(),
            r == Ok::<(), Error>(()),
            approve_post(*old(self), *final(self), caller, spender, value),
    {
        self.allowances.set(&caller, &spender, value);
        self.events.push(Event::Approve(Approve { owner: caller, spender, value }));
        Ok(())
    }

    /// Returns how much `spender` may still move out of `owner`'s balance,
    /// 0 when the pair was never approved.
    pub fn allowance(&self, owner: AccountId, spender: AccountId) -> (r: u128)
        ensures
            r == self.spec_allowance(owner, spender),
    {
        self.allowance_impl(&owner, &spender)
    }

    fn allowance_impl(&self, owner: &AccountId, spender: &AccountId) -> (r: u128)
        ensures
            r == self.spec_allowance(*owner, *spender),
    {
        self.allowances.get(owner, spender)
    }

    /// Moves `value` units from `from` to `to` on behalf of `from`, spending
    /// the caller's allowance. The allowance is checked first
    /// (`InsufficientAllowance`), the balance inside the shared step
    /// (`InsufficientBalance`); only a fully successful transfer lowers the
    /// allowance.
    pub fn transfer_from(
        &mut self,
        caller: AccountId,
        from: AccountId,
        to: AccountId,
        value: u128,
    ) -> (r: Result<(), Error>)
        requires
            old(self).wf(),
        ensures
            final(self).wf(),
            transfer_from_post(*old(self), *final(self), caller, from, to, value, r),
    {
        let allowance = self.allowances.get(&from, &caller);
        if allowance < value {
            return Err(Error::InsufficientAllowance);
        }
        match self.transfer_from_to(&from, &to, value) {
            Ok(()) => {},
            Err(e) => {
                return Err(e);
            },
        }
        self.allowances.set(&from, &caller, allowance - value);
        Ok(())
    }

    /// The events emitted so far, oldest first, for the host to forward to
    /// outside observers.
    pub fn events(&self) -> (r: &Vec<Event>)
        ensures
            r@ == self.spec_events(),
    {
        &self.events
    }
}

} // verus!
