use crate::amount::{Amount, DecimalValue};
use crate::errors::TransactionError;
use vstd::prelude::*;

verus! {

pub type ClientId = u16;

pub type TransactionId = u32;

/// One input row: a transaction kind, the client and transaction ids, and an
/// amount where the kind needs one.
#[derive(Debug)]
pub struct Record {
    pub transaction_type: String,
    pub client: ClientId,
    pub tx: TransactionId,
    pub amount: Option<DecimalValue>,
}

impl Record {
    /// The amount, if present, lies in the range of a decimal.
    pub open spec fn wf(&self) -> bool {
        self.amount matches Some(d) ==> d.wf()
    }

    pub fn new(
        transaction_type: String,
        client: ClientId,
        tx: TransactionId,
        amount: Option<DecimalValue>,
    ) -> (r: Record)
        ensures
            r == (Record { transaction_type, client, tx, amount }),
    {
        Record { transaction_type, client, tx, amount }
    }

    /// The amount as a money value: present, cut to four fractional digits,
    /// and strictly positive once cut.
    pub fn amount(&self) -> (r: Result<Amount, TransactionError>)
        requires
            self.wf(),
        ensures
            match self.amount {
                None => r matches Err(e) && e.is_rejected() && e.cause() == "Amount missing"@,
                Some(d) => if d.truncated_units() > 0 {
                    r matches Ok(a) && a.value() == d.truncated_units()
                } else {
                    r matches Err(e) && e.is_rejected() && e.cause() == "Amount must be positive"@
                },
            },
            r matches Ok(a) ==> a.value() > 0,
    {
        match self.amount {
            Some(d) => {
                if d.mantissa <= 0 {
                    proof {
                        d.lemma_non_positive_truncates_non_positive();
                    }
                    return Err(TransactionError::reject("Amount must be positive"));
                }
                let a = d.truncate_to_amount();
                if a.units == 0 {
                    Err(TransactionError::reject("Amount must be positive"))
                } else {
                    Ok(a)
                }
            },
            None => Err(TransactionError::reject("Amount missing")),
        }
    }
}

} // verus!
