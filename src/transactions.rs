use crate::account::{Account, AccountModel};
use crate::amount::Amount;
use crate::errors::{denied_with, rejected_with, TransactionError};
use crate::record::TransactionId;
use crate::transfer::{held_sum, lemma_held_sum_insert, lemma_held_sum_remove, Transfer};
use vstd::prelude::*;

verus! {

/// Credits an amount and records it as a transfer that may later be disputed.
#[derive(Debug)]
pub struct Deposit {
    pub transaction_id: TransactionId,
    pub amount: Amount,
}

/// Debits an amount from the available funds.
#[derive(Debug)]
pub struct Withdrawal {
    pub transaction_id: TransactionId,
    pub amount: Amount,
}

/// Holds the funds of an earlier deposit.
#[derive(Debug)]
pub struct Dispute {
    pub transaction_id: TransactionId,
}

/// Releases the funds held by a dispute.
#[derive(Debug)]
pub struct Resolve {
    pub transaction_id: TransactionId,
}

/// Reverses a disputed deposit and freezes the account.
#[derive(Debug)]
pub struct Chargeback {
    pub transaction_id: TransactionId,
}

impl Deposit {
    pub fn new(transaction_id: TransactionId, amount: Amount) -> (r: Deposit)
        ensures
            r == (Deposit { transaction_id, amount }),
    {
        Deposit { transaction_id, amount }
    }

    /// Relates the account before and after, and the result.
    pub open spec fn executes(
        self,
        pre: AccountModel,
        post: AccountModel,
        r: Result<(), TransactionError>,
    ) -> bool {
        if pre.transfers.contains_key(self.transaction_id) {
            rejected_with(r, "Duplicated transaction ID"@) && post == pre
        } else if pre.total + self.amount.value() > u128::MAX {
            rejected_with(r, "Amount overflow"@) && post == pre
        } else {
            &&& r is Ok
            &&& post == AccountModel {
                total: pre.total + self.amount.value(),
                transfers: pre.transfers.insert(
                    self.transaction_id,
                    Transfer { amount: self.amount, disputed: false },
                ),
                ..pre
            }
        }
    }

    pub fn execute(&self, account: &mut Account) -> (r: Result<(), TransactionError>)
        requires
            old(account)@.wf(),
        ensures
            final(account)@.wf(),
            self.executes(old(account)@, final(account)@, r),
    {
        if account.contains_transfer(&self.transaction_id) {
            return Err(TransactionError::reject("Duplicated transaction ID"));
        }
        let total = match account.amount_total.checked_add(self.amount) {
            Some(t) => t,
            None => {
                return Err(TransactionError::reject("Amount overflow"));
            },
        };
        let transfer = Transfer::new(self.amount, false);
        proof {
            lemma_held_sum_insert(account@.transfers, self.transaction_id, transfer);
        }
        account.amount_total = total;
        account.insert_transfer(self.transaction_id, transfer);
        Ok(())
    }
}

impl Withdrawal {
    pub fn new(transaction_id: TransactionId, amount: Amount) -> (r: Withdrawal)
        ensures
            r == (Withdrawal { transaction_id, amount }),
    {
        Withdrawal { transaction_id, amount }
    }

    pub open spec fn executes(
        self,
        pre: AccountModel,
        post: AccountModel,
        r: Result<(), TransactionError>,
    ) -> bool {
        if pre.available() < self.amount.value() {
            denied_with(r, "Available funds are not sufficient"@) && post == pre
        } else {
            &&& r is Ok
            &&& post == AccountModel { total: (pre.total - self.amount.value()) as nat, ..pre }
        }
    }

    pub fn execute(&self, account: &mut Account) -> (r: Result<(), TransactionError>)
        requires
            old(account)@.wf(),
        ensures
            final(account)@.wf(),
            self.executes(old(account)@, final(account)@, r),
    {
        if account.amount_available().units < self.amount.units {
            return Err(TransactionError::deny("Available funds are not sufficient"));
        }
        account.amount_total = account.amount_total.sub(self.amount);
        Ok(())
    }
}

impl Dispute {
    pub fn new(transaction_id: TransactionId) -> (r: Dispute)
        ensures
            r == (Dispute { transaction_id }),
    {
        Dispute { transaction_id }
    }

    pub open spec fn executes(
        self,
        pre: AccountModel,
        post: AccountModel,
        r: Result<(), TransactionError>,
    ) -> bool {
        if !pre.transfers.contains_key(self.transaction_id) {
            rejected_with(r, "Corresponding transfer not found"@) && post == pre
        } else if pre.transfers[self.transaction_id].disputed {
            denied_with(r, "Corresponding transfer already disputed"@) && post == pre
        } else if pre.available() < pre.transfers[self.transaction_id].amount.value() {
            denied_with(r, "Available funds are not sufficient"@) && post == pre
        } else {
            &&& r is Ok
            &&& post == AccountModel {
                held: pre.held + pre.transfers[self.transaction_id].amount.value(),
                transfers: pre.transfers.insert(
                    self.transaction_id,
                    Transfer { disputed: true, ..pre.transfers[self.transaction_id] },
                ),
                ..pre
            }
        }
    }

    pub fn execute(&self, account: &mut Account) -> (r: Result<(), TransactionError>)
        requires
            old(account)@.wf(),
        ensures
            final(account)@.wf(),
            self.executes(old(account)@, final(account)@, r),
    {
        let available = account.amount_available();
        let transfer = match account.try_get_transfer_mut(&self.transaction_id) {
            Ok(t) => t,
            Err(e) => {
                return Err(e);
            },
        };
        proof {
            let m = old(account)@.transfers;
            assert(m.insert(self.transaction_id, *transfer) =~= m);
        }
        if transfer.disputed {
            return Err(TransactionError::deny("Corresponding transfer already disputed"));
        }
        if available.units < transfer.amount.units {
            return Err(TransactionError::deny("Available funds are not sufficient"));
        }
        proof {
            lemma_held_sum_insert(
                old(account)@.transfers,
                self.transaction_id,
                Transfer { disputed: true, ..*transfer },
            );
        }
        transfer.disputed = true;
        let amount = transfer.amount;
        account.amount_held = Amount::new(account.amount_held.units + amount.units);
        Ok(())
    }
}

impl Resolve {
    pub fn new(transaction_id: TransactionId) -> (r: Resolve)
        ensures
            r == (Resolve { transaction_id }),
    {
        Resolve { transaction_id }
    }

    pub open spec fn executes(
        self,
        pre: AccountModel,
        post: AccountModel,
        r: Result<(), TransactionError>,
    ) -> bool {
        if !pre.transfers.contains_key(self.transaction_id) {
            rejected_with(r, "Corresponding transfer not found"@) && post == pre
        } else if !pre.transfers[self.transaction_id].disputed {
            denied_with(r, "Corresponding transfer not disputed"@) && post == pre
        } else {
            &&& r is Ok
            &&& post == AccountModel {
                held: (pre.held - pre.transfers[self.transaction_id].amount.value()) as nat,
                transfers: pre.transfers.insert(
                    self.transaction_id,
                    Transfer { disputed: false, ..pre.transfers[self.transaction_id] },
                ),
                ..pre
            }
        }
    }

    pub fn execute(&self, account: &mut Account) -> (r: Result<(), TransactionError>)
        requires
            old(account)@.wf(),
        ensures
            final(account)@.wf(),
            self.executes(old(account)@, final(account)@, r),
    {
        let transfer = match account.try_get_transfer_mut(&self.transaction_id) {
            Ok(t) => t,
            Err(e) => {
                return Err(e);
            },
        };
        proof {
            let m = old(account)@.transfers;
            assert(m.insert(self.transaction_id, *transfer) =~= m);
        }
        if !transfer.disputed {
            return Err(TransactionError::deny("Corresponding transfer not disputed"));
        }
        proof {
            lemma_held_sum_remove(old(account)@.transfers, self.transaction_id);
            lemma_held_sum_insert(
                old(account)@.transfers,
                self.transaction_id,
                Transfer { disputed: false, ..*transfer },
            );
        }
        transfer.disputed = false;
        let amount = transfer.amount;
        account.amount_held = account.amount_held.sub(amount);
        Ok(())
    }
}

impl Chargeback {
    pub fn new(transaction_id: TransactionId) -> (r: Chargeback)
        ensures
            r == (Chargeback { transaction_id }),
    {
        Chargeback { transaction_id }
    }

    pub open spec fn executes(
        self,
        pre: AccountModel,
        post: AccountModel,
        r: Result<(), TransactionError>,
    ) -> bool {
        if !pre.transfers.contains_key(self.transaction_id) {
            rejected_with(r, "Corresponding transfer not found"@) && post == pre
        } else if !pre.transfers[self.transaction_id].disputed {
            denied_with(r, "Corresponding transfer not disputed"@) && post == pre
        } else {
            &&& r is Ok
            &&& post == AccountModel {
                total: (pre.total - pre.transfers[self.transaction_id].amount.value()) as nat,
                held: (pre.held - pre.transfers[self.transaction_id].amount.value()) as nat,
                locked: true,
                transfers: pre.transfers.remove(self.transaction_id),
            }
        }
    }

    pub fn execute(&self, account: &mut Account) -> (r: Result<(), TransactionError>)
        requires
            old(account)@.wf(),
        ensures
            final(account)@.wf(),
            self.executes(old(account)@, final(account)@, r),
    {
        let transfer = match account.try_get_transfer_mut(&self.transaction_id) {
            Ok(t) => t,
            Err(e) => {
                return Err(e);
            },
        };
        proof {
            let m = old(account)@.transfers;
            assert(m.insert(self.transaction_id, *transfer) =~= m);
        }
        if !transfer.disputed {
            return Err(TransactionError::deny("Corresponding transfer not disputed"));
        }
        proof {
            lemma_held_sum_remove(old(account)@.transfers, self.transaction_id);
        }
        let amount = transfer.amount;
        account.amount_held = account.amount_held.sub(amount);
        account.amount_total = account.amount_total.sub(amount);
        account.remove_transfer(&self.transaction_id);
        account.locked = true;
        proof {
            assert(account@.transfers =~= old(account)@.transfers.remove(self.transaction_id));
        }
        Ok(())
    }
}

/// One operation on one account: the closed set of what a record can ask for.
#[derive(Debug)]
pub enum Transaction {
    Deposit(Deposit),
    Withdrawal(Withdrawal),
    Dispute(Dispute),
    Resolve(Resolve),
    Chargeback(Chargeback),
}

impl Transaction {
    pub open spec fn executes(
        self,
        pre: AccountModel,
        post: AccountModel,
        r: Result<(), TransactionError>,
    ) -> bool {
        match self {
            Transaction::Deposit(t) => t.executes(pre, post, r),
            Transaction::Withdrawal(t) => t.executes(pre, post, r),
            Transaction::Dispute(t) => t.executes(pre, post, r),
            Transaction::Resolve(t) => t.executes(pre, post, r),
            Transaction::Chargeback(t) => t.executes(pre, post, r),
        }
    }

    pub fn execute(&self, account: &mut Account) -> (r: Result<(), TransactionError>)
        requires
            old(account)@.wf(),
        ensures
            final(account)@.wf(),
            self.executes(old(account)@, final(account)@, r),
    {
        match self {
            Transaction::Deposit(t) => t.execute(account),
            Transaction::Withdrawal(t) => t.execute(account),
            Transaction::Dispute(t) => t.execute(account),
            Transaction::Resolve(t) => t.execute(account),
            Transaction::Chargeback(t) => t.execute(account),
        }
    }

    /// Only a deposit may open an account that does not exist yet.
    pub fn allowes_account_creation(&self) -> (r: bool)
        ensures
            r == (self is Deposit),
    {
        match self {
            Transaction::Deposit(_) => true,
            _ => false,
        }
    }

    /// Only a deposit may be applied to a frozen account.
    pub fn allowed_on_frozen_account(&self) -> (r: bool)
        ensures
            r == (self is Deposit),
    {
        match self {
            Transaction::Deposit(_) => true,
            _ => false,
        }
    }
}

/// Every operation keeps an account well formed: held funds stay within the
/// total and equal the sum of the disputed transfers, whether it succeeds or fails.
pub proof fn lemma_execute_keeps_balances(
    t: Transaction,
    pre: AccountModel,
    post: AccountModel,
    r: Result<(), TransactionError>,
)
    requires
        pre.wf(),
        t.executes(pre, post, r),
    ensures
        post.wf(),
        post.held <= post.total,
        post.held == held_sum(post.transfers),
{
    match t {
        Transaction::Deposit(d) => {
            let t = Transfer { amount: d.amount, disputed: false };
            lemma_held_sum_insert(pre.transfers, d.transaction_id, t);
        },
        Transaction::Withdrawal(_) => {},
        Transaction::Dispute(d) => {
            if pre.transfers.contains_key(d.transaction_id) {
                let old_t = pre.transfers[d.transaction_id];
                let t = Transfer { disputed: true, ..old_t };
                lemma_held_sum_insert(pre.transfers, d.transaction_id, t);
            }
        },
        Transaction::Resolve(d) => {
            if pre.transfers.contains_key(d.transaction_id) {
                let old_t = pre.transfers[d.transaction_id];
                lemma_held_sum_remove(pre.transfers, d.transaction_id);
                let t = Transfer { disputed: false, ..old_t };
                lemma_held_sum_insert(pre.transfers, d.transaction_id, t);
            }
        },
        Transaction::Chargeback(d) => {
            if pre.transfers.contains_key(d.transaction_id) {
                lemma_held_sum_remove(pre.transfers, d.transaction_id);
            }
        },
    }
}

/// A frozen account stays frozen, whatever is applied to it; only a successful
/// chargeback freezes one.
pub proof fn lemma_lock_is_permanent(
    t: Transaction,
    pre: AccountModel,
    post: AccountModel,
    r: Result<(), TransactionError>,
)
    requires
        t.executes(pre, post, r),
    ensures
        pre.locked ==> post.locked,
        post.locked && !pre.locked ==> (t is Chargeback && r is Ok),
{
}

/// A chargeback that went through removed its transfer, so applying it again
/// is rejected and leaves the account as it was.
pub proof fn lemma_chargeback_twice_rejected(
    c: Chargeback,
    pre: AccountModel,
    mid: AccountModel,
    post: AccountModel,
    first: Result<(), TransactionError>,
    second: Result<(), TransactionError>,
)
    requires
        pre.wf(),
        c.executes(pre, mid, first),
        first is Ok,
        c.executes(mid, post, second),
    ensures
        rejected_with(second, "Corresponding transfer not found"@),
        post == mid,
{
}

/// Resolving or charging back a transfer that is not under dispute is denied
/// and changes nothing.
pub proof fn lemma_undisputed_cannot_be_settled(
    tx: TransactionId,
    pre: AccountModel,
    after_resolve: AccountModel,
    resolved: Result<(), TransactionError>,
    after_chargeback: AccountModel,
    charged_back: Result<(), TransactionError>,
)
    requires
        pre.wf(),
        pre.transfers.contains_key(tx),
        !pre.transfers[tx].disputed,
        (Resolve { transaction_id: tx }).executes(pre, after_resolve, resolved),
        (Chargeback { transaction_id: tx }).executes(pre, after_chargeback, charged_back),
    ensures
        denied_with(resolved, "Corresponding transfer not disputed"@),
        after_resolve == pre,
        denied_with(charged_back, "Corresponding transfer not disputed"@),
        after_chargeback == pre,
{
}

/// A deposit whose id is already among the account's transfers is rejected and
/// does not change the total.
pub proof fn lemma_duplicate_deposit_rejected(
    d: Deposit,
    pre: AccountModel,
    post: AccountModel,
    r: Result<(), TransactionError>,
)
    requires
        pre.wf(),
        pre.transfers.contains_key(d.transaction_id),
        d.executes(pre, post, r),
    ensures
        rejected_with(r, "Duplicated transaction ID"@),
        post.total == pre.total,
        post == pre,
{
}

} // verus!
