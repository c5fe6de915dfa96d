//! A model of the host ledger's account balances, the one external service
//! whose answers the crowdfunding operations depend on.  Every account
//! exists; one never endowed holds zero.  Transfers follow the ledger's
//! keep-alive policy: the sender must retain at least the existential
//! minimum after sending.  A transfer either fully succeeds or changes
//! nothing.

use vstd::prelude::*;
use std::collections::HashMap;
use crate::types::{AccountId, Balance, TransferError};

verus! {

broadcast use vstd::std_specs::hash::group_hash_axioms;

/// Account balances, with the existential minimum the keep-alive policy
/// enforces on senders.
pub struct Balances {
    free: HashMap<AccountId, Balance>,
    existential_min: Balance,
}

impl View for Balances {
    type V = Map<AccountId, Balance>;

    /// Balance of every account; an account never written holds zero.
    closed spec fn view(&self) -> Map<AccountId, Balance> {
        Map::new(
            |a: AccountId| true,
            |a: AccountId|
                if self.free@.contains_key(a) {
                    self.free@[a]
                } else {
                    0
                },
        )
    }
}

/// The balances of a fresh ledger: every account holds zero.
pub open spec fn zero_balances() -> Map<AccountId, Balance> {
    Map::new(|a: AccountId| true, |a: AccountId| 0)
}

/// Balances after one successful transfer.  A self-transfer or a transfer
/// of zero moves nothing.
pub open spec fn xfer(
    m: Map<AccountId, Balance>,
    from: AccountId,
    to: AccountId,
    amount: Balance,
) -> Map<AccountId, Balance> {
    if from == to || amount == 0 {
        m
    } else {
        m.insert(from, (m[from] - amount) as Balance).insert(to, (m[to] + amount) as Balance)
    }
}

/// What the transfer service answers on the given balances for a keep-alive
/// transfer: `None` means the transfer goes through.
pub open spec fn transfer_check(
    m: Map<AccountId, Balance>,
    existential_min: Balance,
    from: AccountId,
    to: AccountId,
    amount: Balance,
) -> Option<TransferError> {
    if from == to || amount == 0 {
        None
    } else if m[from] < amount {
        Some(TransferError::InsufficientBalance)
    } else if m[from] - amount < existential_min {
        Some(TransferError::WouldKillSender)
    } else if m[to] + amount > u64::MAX {
        Some(TransferError::Overflow)
    } else {
        None
    }
}

/// Law: a transfer conserves value.  Sender and recipient together hold
/// afterwards exactly what they held before, and no other account's balance
/// moves.
pub proof fn lemma_xfer_conserves(
    m: Map<AccountId, Balance>,
    from: AccountId,
    to: AccountId,
    amount: Balance,
)
    requires
        from != to && amount != 0 ==> m[from] >= amount && m[to] + amount <= u64::MAX,
    ensures
        from != to ==> xfer(m, from, to, amount)[from] + xfer(m, from, to, amount)[to] == m[from]
            + m[to],
        forall|a: AccountId| a != from && a != to ==> xfer(m, from, to, amount)[a] == m[a],
{
}

impl Balances {
    /// The keep-alive threshold this ledger was created with.
    pub closed spec fn existential_minimum(self) -> Balance {
        self.existential_min
    }

    /// An empty ledger: every account holds zero.
    pub fn new(existential_min: Balance) -> (r: Balances)
        ensures
            r@ == zero_balances(),
            r.existential_minimum() == existential_min,
    {
        let r = Balances { free: HashMap::new(), existential_min };
        proof {
            assert(r@ =~= zero_balances());
        }
        r
    }

    /// Current balance of one account.
    pub fn balance_of(&self, who: AccountId) -> (r: Balance)
        ensures
            r == self@[who],
    {
        match self.free.get(&who) {
            Some(b) => *b,
            None => 0,
        }
    }

    /// Overwrite one account's balance (endowment for tests and callers
    /// outside the crowdfunding rules).
    pub fn set_balance(&mut self, who: AccountId, amount: Balance)
        ensures
            final(self)@ == old(self)@.insert(who, amount),
            final(self).existential_minimum() == old(self).existential_minimum(),
    {
        self.free.insert(who, amount);
        proof {
            assert(self@ =~= old(self)@.insert(who, amount));
        }
    }

    /// Would a keep-alive transfer go through on the current balances, and
    /// if not, with which error?
    pub fn try_transfer_check(&self, from: AccountId, to: AccountId, amount: Balance) -> (r:
        Option<TransferError>)
        ensures
            r == transfer_check(self@, self.existential_minimum(), from, to, amount),
    {
        let bf = self.balance_of(from);
        let bt = self.balance_of(to);
        if from == to || amount == 0 {
            None
        } else if bf < amount {
            Some(TransferError::InsufficientBalance)
        } else if bf - amount < self.existential_min {
            Some(TransferError::WouldKillSender)
        } else if amount > u64::MAX - bt {
            Some(TransferError::Overflow)
        } else {
            None
        }
    }

    /// Balance `who` would hold after one feasible transfer.
    pub fn balance_after(&self, from: AccountId, to: AccountId, amount: Balance, who: AccountId)
        -> (r: Balance)
        requires
            transfer_check(self@, self.existential_minimum(), from, to, amount) is None,
        ensures
            r == xfer(self@, from, to, amount)[who],
    {
        let b = self.balance_of(who);
        if from == to || amount == 0 {
            b
        } else if who == to {
            let bt = self.balance_of(to);
            bt + amount
        } else if who == from {
            let bf = self.balance_of(from);
            bf - amount
        } else {
            b
        }
    }

    /// Would a second keep-alive transfer go through once a first feasible
    /// one has been applied, and if not, with which error?  Nothing is
    /// moved: this only inspects the balances.
    pub fn try_transfer_check_after(
        &self,
        from1: AccountId,
        to1: AccountId,
        amount1: Balance,
        from2: AccountId,
        to2: AccountId,
        amount2: Balance,
    ) -> (r: Option<TransferError>)
        requires
            transfer_check(self@, self.existential_minimum(), from1, to1, amount1) is None,
        ensures
            r == transfer_check(
                xfer(self@, from1, to1, amount1),
                self.existential_minimum(),
                from2,
                to2,
                amount2,
            ),
    {
        let bf = self.balance_after(from1, to1, amount1, from2);
        let bt = self.balance_after(from1, to1, amount1, to2);
        if from2 == to2 || amount2 == 0 {
            None
        } else if bf < amount2 {
            Some(TransferError::InsufficientBalance)
        } else if bf - amount2 < self.existential_min {
            Some(TransferError::WouldKillSender)
        } else if amount2 > u64::MAX - bt {
            Some(TransferError::Overflow)
        } else {
            None
        }
    }

    /// One keep-alive transfer of the value-transfer service: on success the
    /// amount moves from `from` to `to`; on failure nothing changes and the
    /// service's error is returned.
    pub fn transfer(&mut self, from: AccountId, to: AccountId, amount: Balance) -> (r: Result<
        (),
        TransferError,
    >)
        ensures
            final(self).existential_minimum() == old(self).existential_minimum(),
            match r {
                Ok(()) => {
                    &&& transfer_check(
                        old(self)@,
                        old(self).existential_minimum(),
                        from,
                        to,
                        amount,
                    ) is None
                    &&& final(self)@ == xfer(old(self)@, from, to, amount)
                },
                Err(e) => {
                    &&& transfer_check(
                        old(self)@,
                        old(self).existential_minimum(),
                        from,
                        to,
                        amount,
                    ) == Some(e)
                    &&& *final(self) == *old(self)
                },
            },
    {
        let bf = self.balance_of(from);
        let bt = self.balance_of(to);
        if from == to || amount == 0 {
            return Ok(());
        }
        if bf < amount {
            return Err(TransferError::InsufficientBalance);
        }
        if bf - amount < self.existential_min {
            return Err(TransferError::WouldKillSender);
        }
        if amount > u64::MAX - bt {
            return Err(TransferError::Overflow);
        }
        self.free.insert(from, bf - amount);
        self.free.insert(to, bt + amount);
        proof {
            assert(self@ =~= xfer(old(self)@, from, to, amount));
        }
        Ok(())
    }
}

} // verus!
