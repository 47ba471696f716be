//! A model of the balance-transfer service that `buy` settles through: a
//! ledger of account balances whose one operation, `transfer`, has keep-alive
//! semantics — it refuses to bring the sender below a minimum existential
//! balance.

use std::collections::HashMap;

use vstd::prelude::*;

verus! {

broadcast use vstd::std_specs::hash::group_hash_axioms;

/// Why a balance transfer was refused. Surfaced verbatim by `buy`.
#[derive(Clone, Copy, PartialEq, Eq, Structural, Debug)]
pub enum BalanceError {
    /// The sender holds less than the amount to move.
    InsufficientBalance,
    /// Moving the amount would leave the sender below the minimum
    /// existential balance.
    KeepAlive,
    /// Crediting the amount would overflow the recipient's balance.
    Overflow,
}

/// A ledger of account balances. Accounts absent from the ledger hold zero.
pub struct Balances {
    accounts: HashMap<u64, u64>,
    minimum_balance: u64,
}

impl Balances {
    /// The balance an account holds; zero for accounts never funded.
    pub closed spec fn spec_balance_of(self, who: u64) -> u64 {
        if self.accounts@.contains_key(who) {
            self.accounts@[who]
        } else {
            0
        }
    }

    /// The minimum existential balance every sender must keep.
    pub closed spec fn spec_minimum_balance(self) -> u64 {
        self.minimum_balance
    }

    /// Whether a transfer of `amount` from `from` to `to` is admissible: the
    /// sender can spare it without dropping below the minimum, and the
    /// recipient's balance does not overflow.
    pub open spec fn can_transfer(self, from: u64, to: u64, amount: u64) -> bool {
        &&& amount <= self.spec_balance_of(from)
        &&& self.spec_balance_of(from) - amount >= self.spec_minimum_balance()
        &&& (from != to ==> self.spec_balance_of(to) + amount <= u64::MAX)
    }

    /// How a successful transfer between distinct accounts relates the ledger
    /// after (`post`) to the ledger before (`pre`): the sender is debited and
    /// the recipient credited by exactly `amount`, and no other account moves.
    pub open spec fn transfer_updates(
        pre: Balances,
        post: Balances,
        from: u64,
        to: u64,
        amount: u64,
    ) -> bool {
        &&& post.spec_minimum_balance() == pre.spec_minimum_balance()
        &&& post.spec_balance_of(from) == pre.spec_balance_of(from) - amount
        &&& post.spec_balance_of(to) == pre.spec_balance_of(to) + amount
        &&& forall|w: u64|
            w != from && w != to ==> post.spec_balance_of(w) == pre.spec_balance_of(w)
    }

    /// An empty ledger with the given minimum existential balance.
    pub fn new(minimum_balance: u64) -> (r: Balances)
        ensures
            r.spec_minimum_balance() == minimum_balance,
            forall|w: u64| r.spec_balance_of(w) == 0,
    {
        Balances { accounts: HashMap::new(), minimum_balance }
    }

    /// The balance `who` holds.
    pub fn balance_of(&self, who: u64) -> (r: u64)
        ensures
            r == self.spec_balance_of(who),
    {
        match self.accounts.get(&who) {
            Some(b) => *b,
            None => 0,
        }
    }

    /// Set `who`'s balance outright, as a host funding an account.
    pub fn set_balance(&mut self, who: u64, amount: u64)
        ensures
            final(self).spec_balance_of(who) == amount,
            final(self).spec_minimum_balance() == old(self).spec_minimum_balance(),
            forall|w: u64|
                w != who ==> final(self).spec_balance_of(w) == old(self).spec_balance_of(w),
    {
        self.accounts.insert(who, amount);
    }

    /// Move `amount` from `from` to `to`, keeping the sender alive: the
    /// transfer is refused if the sender holds too little, if it would leave
    /// the sender below the minimum existential balance, or if the recipient's
    /// balance would overflow. On refusal the ledger is unchanged.
    pub fn transfer(&mut self, from: u64, to: u64, amount: u64) -> (r: Result<(), BalanceError>)
        ensures
            r is Ok <==> old(self).can_transfer(from, to, amount),
            r is Err ==> *final(self) == *old(self),
            (match r {
                Ok(()) => {
                    if from == to {
                        *final(self) == *old(self)
                    } else {
                        Balances::transfer_updates(*old(self), *final(self), from, to, amount)
                    }
                },
                Err(e) => {
                    if amount > old(self).spec_balance_of(from) {
                        e == BalanceError::InsufficientBalance
                    } else if old(self).spec_balance_of(from) - amount
                        < old(self).spec_minimum_balance() {
                        e == BalanceError::KeepAlive
                    } else {
                        e == BalanceError::Overflow
                    }
                },
            }),
    {
        let from_balance = self.balance_of(from);
        if amount > from_balance {
            return Err(BalanceError::InsufficientBalance);
        }
        if from_balance - amount < self.minimum_balance {
            return Err(BalanceError::KeepAlive);
        }
        if from == to {
            return Ok(());
        }
        let to_balance = self.balance_of(to);
        if to_balance > u64::MAX - amount {
            return Err(BalanceError::Overflow);
        }
        self.accounts.insert(from, from_balance - amount);
        self.accounts.insert(to, to_balance + amount);
        Ok(())
    }
}

} // verus!
