use crate::account::{Account, AccountModel};
use crate::errors::TransactionError;
use crate::record::ClientId;
use std::collections::hash_map::Entry;
use std::collections::HashMap;
use vstd::prelude::*;

verus! {

broadcast use vstd::std_specs::hash::group_hash_axioms;

/// Every account the run has opened, by client.
#[derive(Debug)]
pub struct MemDatabase {
    pub accounts: HashMap<ClientId, Account>,
}

impl MemDatabase {
    /// Each account as its mathematical state.
    pub open spec fn model(&self) -> Map<ClientId, AccountModel> {
        self.accounts@.map_values(|a: Account| a@)
    }

    /// Every account is well formed.
    pub open spec fn wf(&self) -> bool {
        forall|c: ClientId| #[trigger] self.accounts@.contains_key(c) ==> self.accounts@[c]@.wf()
    }

    pub fn new() -> (r: MemDatabase)
        ensures
            r.accounts@ == Map::<ClientId, Account>::empty(),
            r.wf(),
    {
        MemDatabase { accounts: HashMap::new() }
    }

    pub fn accounts(&self) -> (r: &HashMap<ClientId, Account>)
        ensures
            r@ == self.accounts@,
    {
        &self.accounts
    }

    /// The existing account of `client_id`, to be changed in place.
    pub fn get_account(&mut self, client_id: ClientId) -> (r: Result<
        &mut Account,
        TransactionError,
    >)
        ensures
            match r {
                Ok(a) => {
                    &&& old(self).accounts@.contains_key(client_id)
                    &&& *a == old(self).accounts@[client_id]
                    &&& final(self).accounts@ == old(self).accounts@.insert(client_id, *final(a))
                },
                Err(e) => {
                    &&& !old(self).accounts@.contains_key(client_id)
                    &&& e.is_rejected()
                    &&& e.cause() == "Account not found"@
                    &&& final(self).accounts@ == old(self).accounts@
                },
            },
    {
        match self.accounts.entry(client_id) {
            Entry::Occupied(o) => Ok(o.into_mut()),
            Entry::Vacant(_) => {
                assert(old(self).accounts@.remove(client_id) =~= old(self).accounts@);
                Err(TransactionError::reject("Account not found"))
            },
        }
    }

    /// The account of `client_id`, opened empty and unlocked if it did not exist.
    pub fn get_account_or_create(&mut self, client_id: ClientId) -> (r: &mut Account)
        ensures
            old(self).accounts@.contains_key(client_id) ==> *r == old(self).accounts@[client_id],
            !old(self).accounts@.contains_key(client_id) ==> (*r)@ == AccountModel::fresh(),
            !old(self).accounts@.contains_key(client_id) ==> (*r)@.wf(),
            final(self).accounts@ == old(self).accounts@.insert(client_id, *final(r)),
    {
        match self.accounts.entry(client_id) {
            Entry::Occupied(o) => o.into_mut(),
            Entry::Vacant(v) => v.insert(Account::new()),
        }
    }
}

} // verus!
