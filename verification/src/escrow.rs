//! The proposal escrow: per-identity balances of the approved token that
//! have been pledged to the contract but not yet committed to the
//! treasury or returned.

use vstd::prelude::*;
use crate::error::Error;
use crate::kv::KvList;
use crate::types::AccountId;

verus! {

/// Per-identity escrowed balances.
#[derive(Debug)]
pub struct ProposalEscrow {
    /// The escrowed balance of each identity; an absent entry is a zero
    /// balance.
    pub user_balances: KvList<u128>,
}

impl ProposalEscrow {
    /// The escrowed balance of `key`; absent identities hold zero.
    pub open spec fn spec_balance(self, key: Seq<char>) -> u128 {
        match self.user_balances.spec_get(key) {
            Some(b) => b,
            None => 0,
        }
    }

    /// How a successful deposit of `amount` for `key` relates the escrow
    /// before and after the call.
    pub open spec fn spec_deposit_rel(pre: Self, post: Self, key: Seq<char>, amount: u128) -> bool {
        &&& post.spec_balance(key) == pre.spec_balance(key) + amount
        &&& forall|k: Seq<char>|
            k != key ==> #[trigger] post.spec_balance(k) == pre.spec_balance(k)
    }

    /// How a successful withdrawal of `amount` for `key` relates the
    /// escrow before and after the call.
    pub open spec fn spec_withdraw_rel(pre: Self, post: Self, key: Seq<char>, amount: u128) -> bool {
        &&& post.spec_balance(key) == pre.spec_balance(key) - amount
        &&& forall|k: Seq<char>|
            k != key ==> #[trigger] post.spec_balance(k) == pre.spec_balance(k)
    }

    /// An empty escrow: every balance is zero.
    pub fn new() -> (r: Self)
        ensures
            forall|k: Seq<char>| r.spec_balance(k) == 0,
    {
        ProposalEscrow { user_balances: KvList::new() }
    }

    /// Credits `amount` to the escrow of `account_id` and returns the new
    /// balance; a balance that would exceed the machine maximum is a
    /// fatal error and changes nothing.
    pub fn deposit(&mut self, account_id: AccountId, amount: u128) -> (r: Result<u128, Error>)
        ensures
            match r {
                Ok(b) => {
                    &&& old(self).spec_balance(account_id@) + amount <= u128::MAX
                    &&& Self::spec_deposit_rel(*old(self), *final(self), account_id@, amount)
                    &&& b == final(self).spec_balance(account_id@)
                },
                Err(e) => {
                    &&& e == Error::ArithmeticOverflow
                    &&& old(self).spec_balance(account_id@) + amount > u128::MAX
                    &&& *final(self) == *old(self)
                },
            },
    {
        let balance = match self.user_balances.get(&account_id) {
            Some(b) => *b,
            None => 0,
        };
        let updated = match balance.checked_add(amount) {
            Some(u) => u,
            None => {
                return Err(Error::ArithmeticOverflow);
            },
        };
        self.user_balances.set(&account_id, updated);
        Ok(updated)
    }

    /// Debits `amount` from the escrow of `account_id` and returns the new
    /// balance; a balance that is too small is an error and changes
    /// nothing.
    pub fn withdraw(&mut self, account_id: AccountId, amount: u128) -> (r: Result<u128, Error>)
        ensures
            match r {
                Ok(b) => {
                    &&& amount <= old(self).spec_balance(account_id@)
                    &&& Self::spec_withdraw_rel(*old(self), *final(self), account_id@, amount)
                    &&& b == final(self).spec_balance(account_id@)
                },
                Err(e) => {
                    &&& e == Error::InsufficientEscrowBalance
                    &&& amount > old(self).spec_balance(account_id@)
                    &&& *final(self) == *old(self)
                },
            },
    {
        let balance = match self.user_balances.get(&account_id) {
            Some(b) => *b,
            None => 0,
        };
        let updated = match balance.checked_sub(amount) {
            Some(u) => u,
            None => {
                return Err(Error::InsufficientEscrowBalance);
            },
        };
        self.user_balances.set(&account_id, updated);
        Ok(updated)
    }

    /// The escrowed balance of `account_id`.
    pub fn user_balance(&self, account_id: AccountId) -> (r: u128)
        ensures
            r == self.spec_balance(account_id@),
    {
        match self.user_balances.get(&account_id) {
            Some(b) => *b,
            None => 0,
        }
    }

    /// Law: depositing an amount and then withdrawing the same amount for
    /// the same identity returns every escrow balance to its value before
    /// the deposit.
    pub proof fn lemma_deposit_withdraw_round_trip(
        e0: Self,
        e1: Self,
        e2: Self,
        key: Seq<char>,
        amount: u128,
    )
        requires
            Self::spec_deposit_rel(e0, e1, key, amount),
            Self::spec_withdraw_rel(e1, e2, key, amount),
        ensures
            forall|k: Seq<char>| #[trigger] e2.spec_balance(k) == e0.spec_balance(k),
    {
    }
}

} // verus!
