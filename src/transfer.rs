use crate::amount::Amount;
use crate::record::TransactionId;
use vstd::prelude::*;

verus! {

/// The ledger's record of one deposit, which may later be disputed.
#[derive(Clone, Copy, Debug, PartialEq, Eq, Structural)]
pub struct Transfer {
    pub amount: Amount,
    pub disputed: bool,
}

impl Transfer {
    pub fn new(amount: Amount, disputed: bool) -> (r: Transfer)
        ensures
            r == (Transfer { amount, disputed }),
    {
        Transfer { amount, disputed }
    }
}

/// What one transfer contributes to its account's held funds.
pub open spec fn held_part(t: Transfer) -> nat {
    if t.disputed {
        t.amount.value()
    } else {
        0
    }
}

/// The sum of the amounts of the disputed transfers in `m`.
pub open spec fn held_sum(m: Map<TransactionId, Transfer>) -> nat
    decreases m.dom().len(),
{
    if m.dom().finite() && exists|k: TransactionId| m.dom().contains(k) {
        let k = choose|k: TransactionId| m.dom().contains(k);
        held_part(m[k]) + held_sum(m.remove(k))
    } else {
        0
    }
}

/// The sum may be split at any key.
pub proof fn lemma_held_sum_remove(m: Map<TransactionId, Transfer>, k: TransactionId)
    requires
        m.dom().finite(),
        m.dom().contains(k),
    ensures
        held_sum(m) == held_part(m[k]) + held_sum(m.remove(k)),
    decreases m.dom().len(),
{
    let j = choose|j: TransactionId| m.dom().contains(j);
    if j != k {
        lemma_held_sum_remove(m.remove(j), k);
        lemma_held_sum_remove(m.remove(k), j);
        assert(m.remove(j).remove(k) =~= m.remove(k).remove(j));
    }
}

pub proof fn lemma_held_sum_empty()
    ensures
        held_sum(Map::<TransactionId, Transfer>::empty()) == 0,
{
}

/// Setting a key to `t` replaces that key's contribution (none if it was absent) with `t`'s.
pub proof fn lemma_held_sum_insert(m: Map<TransactionId, Transfer>, k: TransactionId, t: Transfer)
    requires
        m.dom().finite(),
    ensures
        m.dom().contains(k) ==> held_sum(m.insert(k, t)) + held_part(m[k]) == held_sum(m)
            + held_part(t),
        !m.dom().contains(k) ==> held_sum(m.insert(k, t)) == held_sum(m) + held_part(t),
{
    lemma_held_sum_remove(m.insert(k, t), k);
    if m.dom().contains(k) {
        lemma_held_sum_remove(m, k);
        assert(m.insert(k, t).remove(k) =~= m.remove(k));
    } else {
        assert(m.insert(k, t).remove(k) =~= m);
    }
}

} // verus!
