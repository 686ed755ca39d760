use vstd::prelude::*;

verus! {

/// Why a transaction was not applied.
///
/// `Denied`: the request is well formed, but policy forbids it right now.
/// `Rejected`: the request is invalid or refers to nothing that exists.
#[derive(Debug)]
pub enum TransactionError {
    Denied(String),
    Rejected(String),
}

impl TransactionError {
    pub open spec fn is_denied(&self) -> bool {
        self is Denied
    }

    pub open spec fn is_rejected(&self) -> bool {
        self is Rejected
    }

    /// The human-readable cause carried by either kind.
    pub open spec fn cause(&self) -> Seq<char> {
        match self {
            TransactionError::Denied(c) => c@,
            TransactionError::Rejected(c) => c@,
        }
    }

    pub fn deny(cause: &str) -> (r: Self)
        ensures
            r.is_denied(),
            r.cause() == cause@,
    {
        TransactionError::Denied(cause.to_owned())
    }

    pub fn reject(cause: &str) -> (r: Self)
        ensures
            r.is_rejected(),
            r.cause() == cause@,
    {
        TransactionError::Rejected(cause.to_owned())
    }
}

} // verus!

verus! {

/// `r` is a denial carrying `cause`.
pub open spec fn denied_with(r: Result<(), TransactionError>, cause: Seq<char>) -> bool {
    match r {
        Ok(_) => false,
        Err(e) => e.is_denied() && e.cause() == cause,
    }
}

/// `r` is a rejection carrying `cause`.
pub open spec fn rejected_with(r: Result<(), TransactionError>, cause: Seq<char>) -> bool {
    match r {
        Ok(_) => false,
        Err(e) => e.is_rejected() && e.cause() == cause,
    }
}

} // verus!
