use crate::amount::Amount;
use crate::errors::TransactionError;
use crate::record::TransactionId;
use crate::transfer::{held_sum, lemma_held_sum_empty, Transfer};
use std::collections::hash_map::Entry;
use std::collections::HashMap;
use vstd::prelude::*;

verus! {

broadcast use vstd::std_specs::hash::group_hash_axioms;

/// The mathematical state of an account.
pub struct AccountModel {
    pub total: nat,
    pub held: nat,
    pub locked: bool,
    pub transfers: Map<TransactionId, Transfer>,
}

impl AccountModel {
    /// The state of an account that was just opened.
    pub open spec fn fresh() -> AccountModel {
        AccountModel { total: 0, held: 0, locked: false, transfers: Map::empty() }
    }

    /// Held funds never exceed the total, and are exactly what the disputed
    /// transfers add up to.
    pub open spec fn wf(self) -> bool {
        &&& self.transfers.dom().finite()
        &&& self.held <= self.total
        &&& self.held == held_sum(self.transfers)
    }

    pub open spec fn available(self) -> int {
        self.total - self.held
    }
}

/// One client's balances and the deposits that may still be disputed.
#[derive(Debug)]
pub struct Account {
    pub amount_held: Amount,
    pub amount_total: Amount,
    pub locked: bool,
    pub transfers: HashMap<TransactionId, Transfer>,
}

impl View for Account {
    type V = AccountModel;

    open spec fn view(&self) -> AccountModel {
        AccountModel {
            total: self.amount_total.value(),
            held: self.amount_held.value(),
            locked: self.locked,
            transfers: self.transfer_map(),
        }
    }
}

impl Account {
    pub open spec fn transfer_map(&self) -> Map<TransactionId, Transfer> {
        self.transfers@
    }

    /// An empty, unlocked account.
    pub fn new() -> (r: Account)
        ensures
            r@ == AccountModel::fresh(),
            r@.wf(),
    {
        proof {
            lemma_held_sum_empty();
        }
        Account {
            amount_held: Amount::zero(),
            amount_total: Amount::zero(),
            locked: false,
            transfers: HashMap::new(),
        }
    }

    /// Inserts or overwrites the transfer under `transaction_id`.
    pub fn insert_transfer(&mut self, transaction_id: TransactionId, transfer: Transfer)
        ensures
            final(self)@ == (AccountModel {
                transfers: old(self)@.transfers.insert(transaction_id, transfer),
                ..old(self)@
            }),
    {
        self.transfers.insert(transaction_id, transfer);
    }

    /// Removes the transfer under `transaction_id`, if there is one.
    pub fn remove_transfer(&mut self, transaction_id: &TransactionId)
        ensures
            final(self)@ == (AccountModel {
                transfers: old(self)@.transfers.remove(*transaction_id),
                ..old(self)@
            }),
    {
        self.transfers.remove(transaction_id);
    }

    pub fn contains_transfer(&self, transaction_id: &TransactionId) -> (r: bool)
        ensures
            r == self@.transfers.contains_key(*transaction_id),
    {
        self.transfers.contains_key(transaction_id)
    }

    /// The transfer under `transaction_id`, to be changed in place.
    pub fn try_get_transfer_mut(&mut self, transaction_id: &TransactionId) -> (r: Result<
        &mut Transfer,
        TransactionError,
    >)
        ensures
            match r {
                Ok(t) => {
                    &&& old(self)@.transfers.contains_key(*transaction_id)
                    &&& *t == old(self)@.transfers[*transaction_id]
                    &&& final(self)@ == (AccountModel {
                        transfers: old(self)@.transfers.insert(*transaction_id, *final(t)),
                        ..old(self)@
                    })
                },
                Err(e) => {
                    &&& !old(self)@.transfers.contains_key(*transaction_id)
                    &&& e.is_rejected()
                    &&& e.cause() == "Corresponding transfer not found"@
                    &&& final(self)@ == old(self)@
                },
            },
    {
        match self.transfers.entry(*transaction_id) {
            Entry::Occupied(o) => Ok(o.into_mut()),
            Entry::Vacant(_) => {
                assert(old(self)@.transfers.remove(*transaction_id) =~= old(self)@.transfers);
                Err(TransactionError::reject("Corresponding transfer not found"))
            },
        }
    }

    /// Total minus held.
    pub fn amount_available(&self) -> (r: Amount)
        requires
            self@.held <= self@.total,
        ensures
            r.value() == self@.available(),
    {
        self.amount_total.sub(self.amount_held)
    }
}

} // verus!
