use crate::account::AccountModel;
use crate::amount::Amount;
use crate::errors::{denied_with, rejected_with, TransactionError};
use crate::memdb::MemDatabase;
use crate::record::{ClientId, Record};
use crate::transactions::{Chargeback, Deposit, Dispute, Resolve, Transaction, Withdrawal};
use vstd::prelude::*;

verus! {

broadcast use vstd::std_specs::hash::group_hash_axioms;

#[verifier::external_type_specification]
#[verifier::external_body]
pub struct ExCsvError(csv::Error);

/// Relies on the `Display` impl of `csv::Error` for the text of a row that
/// could not be read.
#[verifier::external_body]
fn read_failure_cause(err: &csv::Error) -> String {
    format!("{}", err)
}

/// Applying `t` to the account of `client`: `pre` and `post` are the ledger
/// before and after, `r` the outcome.
pub open spec fn processes(
    t: Transaction,
    client: ClientId,
    pre: Map<ClientId, AccountModel>,
    post: Map<ClientId, AccountModel>,
    r: Result<(), TransactionError>,
) -> bool {
    if !pre.contains_key(client) && !(t is Deposit) {
        rejected_with(r, "Account not found"@) && post == pre
    } else {
        let a = if pre.contains_key(client) {
            pre[client]
        } else {
            AccountModel::fresh()
        };
        if a.locked && !(t is Deposit) {
            denied_with(r, "Not allowed on a frozen account"@) && post == pre
        } else {
            &&& post.contains_key(client)
            &&& t.executes(a, post[client], r)
            &&& post == pre.insert(client, post[client])
        }
    }
}

/// The operation a well-formed record names, once its kind and amount are valid.
pub open spec fn requested(rec: Record, amount: Amount) -> Transaction {
    let kind = rec.transaction_type@;
    if kind == "deposit"@ {
        Transaction::Deposit(Deposit { transaction_id: rec.tx, amount })
    } else if kind == "withdrawal"@ {
        Transaction::Withdrawal(Withdrawal { transaction_id: rec.tx, amount })
    } else if kind == "dispute"@ {
        Transaction::Dispute(Dispute { transaction_id: rec.tx })
    } else if kind == "resolve"@ {
        Transaction::Resolve(Resolve { transaction_id: rec.tx })
    } else {
        Transaction::Chargeback(Chargeback { transaction_id: rec.tx })
    }
}

pub open spec fn needs_amount(kind: Seq<char>) -> bool {
    kind == "deposit"@ || kind == "withdrawal"@
}

pub open spec fn is_known_kind(kind: Seq<char>) -> bool {
    needs_amount(kind) || kind == "dispute"@ || kind == "resolve"@ || kind == "chargeback"@
}

/// Handling one record that was read: validation, then the operation it names.
pub open spec fn dispatches(
    rec: Record,
    pre: Map<ClientId, AccountModel>,
    post: Map<ClientId, AccountModel>,
    r: Result<(), TransactionError>,
) -> bool {
    let kind = rec.transaction_type@;
    if !is_known_kind(kind) {
        rejected_with(r, "Invalid transaction type"@) && post == pre
    } else if needs_amount(kind) {
        match rec.amount {
            None => rejected_with(r, "Amount missing"@) && post == pre,
            Some(d) => if d.truncated_units() <= 0 {
                rejected_with(r, "Amount must be positive"@) && post == pre
            } else {
                processes(
                    requested(rec, Amount { units: d.truncated_units() as u128 }),
                    rec.client,
                    pre,
                    post,
                    r,
                )
            },
        }
    } else {
        processes(requested(rec, Amount { units: 0 }), rec.client, pre, post, r)
    }
}

/// Only a deposit opens an account: any other record naming a client without
/// an account is rejected, and the ledger stays as it was.
pub proof fn lemma_no_account_opened_without_deposit(
    rec: Record,
    pre: Map<ClientId, AccountModel>,
    post: Map<ClientId, AccountModel>,
    r: Result<(), TransactionError>,
)
    requires
        rec.transaction_type@ != "deposit"@,
        !pre.contains_key(rec.client),
        dispatches(rec, pre, post, r),
    ensures
        r matches Err(e) && e.is_rejected(),
        post == pre,
        !post.contains_key(rec.client),
        post.len() == pre.len(),
{
}

/// Applies records, one at a time, to the ledger it owns.
pub struct Dispatcher {
    pub db: MemDatabase,
}

impl Dispatcher {
    pub fn new(db: MemDatabase) -> (r: Dispatcher)
        ensures
            r.db == db,
    {
        Dispatcher { db }
    }

    /// Handles one row; every row gets exactly one outcome, and a failure
    /// leaves the ledger as it was.
    pub fn dispatch(&mut self, row: &Result<Record, csv::Error>) -> (r: Result<
        (),
        TransactionError,
    >)
        requires
            old(self).db.wf(),
            row matches Ok(rec) ==> rec.wf(),
        ensures
            final(self).db.wf(),
            match row {
                Ok(rec) => dispatches(*rec, old(self).db.model(), final(self).db.model(), r),
                Err(_) => {
                    &&& r matches Err(e) && e.is_rejected()
                    &&& final(self).db.model() == old(self).db.model()
                },
            },
    {
        let rec = match row {
            Ok(record) => record,
            Err(err) => {
                return Err(TransactionError::Rejected(read_failure_cause(err)));
            },
        };
        let kind = &rec.transaction_type;
        if *kind == "deposit".to_owned() {
            let amount = match rec.amount() {
                Ok(a) => a,
                Err(e) => {
                    return Err(e);
                },
            };
            self.process(rec.client, Transaction::Deposit(Deposit::new(rec.tx, amount)))
        } else if *kind == "withdrawal".to_owned() {
            let amount = match rec.amount() {
                Ok(a) => a,
                Err(e) => {
                    return Err(e);
                },
            };
            self.process(rec.client, Transaction::Withdrawal(Withdrawal::new(rec.tx, amount)))
        } else if *kind == "dispute".to_owned() {
            self.process(rec.client, Transaction::Dispute(Dispute::new(rec.tx)))
        } else if *kind == "resolve".to_owned() {
            self.process(rec.client, Transaction::Resolve(Resolve::new(rec.tx)))
        } else if *kind == "chargeback".to_owned() {
            self.process(rec.client, Transaction::Chargeback(Chargeback::new(rec.tx)))
        } else {
            Err(TransactionError::reject("Invalid transaction type"))
        }
    }

    /// Resolves the account (opening it only for a deposit), refuses all but
    /// deposits on a frozen account, and runs the operation.
    fn process(&mut self, client_id: ClientId, transaction: Transaction) -> (r: Result<
        (),
        TransactionError,
    >)
        requires
            old(self).db.wf(),
        ensures
            final(self).db.wf(),
            processes(transaction, client_id, old(self).db.model(), final(self).db.model(), r),
    {
        let ghost pre = self.db.accounts@;
        let account = if transaction.allowes_account_creation() {
            self.db.get_account_or_create(client_id)
        } else {
            match self.db.get_account(client_id) {
                Ok(a) => a,
                Err(e) => {
                    return Err(e);
                },
            }
        };
        let ghost a0 = *account;
        if account.locked && !transaction.allowed_on_frozen_account() {
            proof {
                assert(pre.insert(client_id, a0) =~= pre);
            }
            return Err(TransactionError::deny("Not allowed on a frozen account"));
        }
        let r = transaction.execute(account);
        proof {
            assert(self.db.accounts@ == pre.insert(client_id, *account));
            assert(self.db.model() =~= old(self).db.model().insert(client_id, account@));
        }
        r
    }
}

} // verus!
