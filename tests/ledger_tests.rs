use ledger::account::Account;
use ledger::amount::{Amount, DecimalValue};
use ledger::dispatcher::Dispatcher;
use ledger::errors::TransactionError;
use ledger::memdb::MemDatabase;
use ledger::record::{ClientId, Record, TransactionId};

// Test Framework

struct TestApp {
    dp: Dispatcher,
}

impl TestApp {
    fn new() -> Self {
        TestApp { dp: Dispatcher::new(MemDatabase::new()) }
    }

    fn dispatch<T: Into<String>, U: Into<Option<i32>>>(
        &mut self,
        transaction_type: T,
        client_id: ClientId,
        transaction_id: TransactionId,
        amount: U,
    ) {
        let _ = self.apply(transaction_type, client_id, transaction_id, amount);
    }

    fn apply<T: Into<String>, U: Into<Option<i32>>>(
        &mut self,
        transaction_type: T,
        client_id: ClientId,
        transaction_id: TransactionId,
        amount: U,
    ) -> Result<(), TransactionError> {
        let amount = amount.into().map(|x| DecimalValue::new(x as i128, 0));
        let row: Result<Record, csv::Error> = Ok(Record::new(
            transaction_type.into(),
            client_id,
            transaction_id,
            amount,
        ));
        self.dp.dispatch(&row)
    }

    fn first_account(&self) -> &Account {
        self.dp.db.accounts().values().next().unwrap()
    }

    fn assert_first_account_total(&self, amount: i32) {
        let first_total = self.first_account().amount_total;
        assert_eq!(first_total, whole(amount), "total amount should be {}", amount);
    }

    fn assert_first_account_held(&self, amount: i32) {
        let first_held = self.first_account().amount_held;
        assert_eq!(first_held, whole(amount), "held amount should be {}", amount);
    }
}

fn whole(amount: i32) -> Amount {
    Amount::new(amount as u128 * 10000)
}

// Invalid Record

#[test]
fn test_invalid_transaction_type_is_ignored() {
    let mut ta = TestApp::new();
    ta.dispatch("invalid_transaction_type", 10, 100, 10);
    assert_eq!(ta.dp.db.accounts().len(), 0);
}

#[test]
fn test_invalid_amount_is_ignored() {
    let mut ta = TestApp::new();
    let row: Result<Record, csv::Error> = Ok(Record::new(
        "deposit".to_string(),
        10,
        100,
        Some(DecimalValue::new(0, 0)),
    ));
    let _ = ta.dp.dispatch(&row);
    assert_eq!(ta.dp.db.accounts().len(), 0);
}

// Deposit

#[test]
fn test_account_is_created_when_deposit_to_nonexisting_account_occurs() {
    let mut ta = TestApp::new();
    ta.dispatch("deposit", 10, 100, 10);
    assert_eq!(ta.dp.db.accounts().len(), 1);
    assert_eq!(ta.dp.db.accounts().keys().next().unwrap(), &10);
}

#[test]
fn test_deposits_add_funds_to_the_account() {
    let mut ta = TestApp::new();
    ta.dispatch("deposit", 10, 100, 10);
    ta.dispatch("deposit", 10, 101, 20);
    ta.dispatch("deposit", 10, 102, 30);
    ta.assert_first_account_total(60);
    ta.assert_first_account_held(00);
}

#[test]
fn test_duplicated_deposits_are_rejected() {
    let mut ta = TestApp::new();
    ta.dispatch("deposit", 10, 100, 10);
    ta.dispatch("deposit", 10, 100, 20);
    ta.assert_first_account_total(10);
    ta.assert_first_account_held(00);
}

// Withdrawal

#[test]
fn test_account_is_not_created_when_withdrawal_from_nonexisting_account_occurs() {
    let mut ta = TestApp::new();
    ta.dispatch("withdrawal", 10, 200, 10);
    assert_eq!(ta.dp.db.accounts().len(), 0);
}

#[test]
fn test_withdrawals_deduct_funds_from_the_account() {
    let mut ta = TestApp::new();
    ta.dispatch("deposit", 10, 100, 200);
    ta.dispatch("withdrawal", 10, 200, 10);
    ta.dispatch("withdrawal", 10, 201, 20);
    ta.dispatch("withdrawal", 10, 202, 30);
    ta.assert_first_account_total(140);
    ta.assert_first_account_held(00);
}

#[test]
fn test_withdrawals_are_rejected_when_total_funds_are_insufficient() {
    let mut ta = TestApp::new();
    ta.dispatch("deposit", 10, 100, 200);
    ta.dispatch("withdrawal", 10, 200, 300);
    ta.assert_first_account_total(200);
    ta.assert_first_account_held(00);
}

#[test]
fn test_withdrawals_are_rejected_when_total_funds_are_sufficient_but_available_funds_are_not() {
    let mut ta = TestApp::new();
    ta.dispatch("deposit", 10, 100, 400);
    ta.dispatch("deposit", 10, 101, 200);
    ta.dispatch("dispute", 10, 100, None);
    ta.dispatch("withdrawal", 10, 200, 300);
    ta.assert_first_account_total(600);
    ta.assert_first_account_held(400);
}

// Dispute

#[test]
fn test_dispute_holds_corresponding_funds() {
    let mut ta = TestApp::new();
    ta.dispatch("deposit", 10, 100, 200);
    ta.dispatch("deposit", 10, 101, 100);
    ta.dispatch("dispute", 10, 101, None);
    ta.dispatch("dispute", 10, 100, None);
    ta.assert_first_account_total(300);
    ta.assert_first_account_held(300);
}

#[test]
fn test_dispute_is_declined_when_disputed_amount_is_greater_than_total() {
    let mut ta = TestApp::new();
    ta.dispatch("deposit", 10, 100, 200);
    ta.dispatch("withdrawal", 10, 200, 150);
    ta.dispatch("dispute", 10, 100, None);
    ta.assert_first_account_total(50);
    ta.assert_first_account_held(00);
}

#[test]
fn test_dispute_is_declined_when_disputed_amount_is_lower_than_total_but_greater_than_available(
) {
    let mut ta = TestApp::new();
    ta.dispatch("deposit", 10, 100, 400);
    ta.dispatch("deposit", 10, 101, 200);
    ta.dispatch("withdrawal", 10, 200, 100);
    ta.dispatch("dispute", 10, 100, None);
    ta.dispatch("dispute", 10, 101, None);
    ta.assert_first_account_total(500);
    ta.assert_first_account_held(400);
}

#[test]
fn test_dispute_of_nonexisting_transaction_is_denied() {
    let mut ta = TestApp::new();
    ta.dispatch("deposit", 10, 100, 200);
    ta.dispatch("deposit", 10, 101, 100);
    ta.dispatch("dispute", 10, 102, None);
    ta.assert_first_account_total(300);
    ta.assert_first_account_held(00);
}

#[test]
fn test_duplicated_dispute_is_rejected() {
    let mut ta = TestApp::new();
    ta.dispatch("deposit", 10, 100, 200);
    ta.dispatch("deposit", 10, 101, 100);
    ta.dispatch("dispute", 10, 101, None);
    ta.dispatch("dispute", 10, 101, None);
    ta.assert_first_account_total(300);
    ta.assert_first_account_held(100);
}

// Resolve

#[test]
fn test_resolve_subtracts_disputed_funds_from_held() {
    let mut ta = TestApp::new();
    ta.dispatch("deposit", 10, 100, 200);
    ta.dispatch("deposit", 10, 101, 100);
    ta.dispatch("dispute", 10, 100, None);
    ta.dispatch("resolve", 10, 100, None);
    ta.assert_first_account_total(300);
    ta.assert_first_account_held(00);
}

#[test]
fn test_transaction_that_is_not_disputed_cannot_be_resolved() {
    let mut ta = TestApp::new();
    ta.dispatch("deposit", 10, 100, 200);
    ta.dispatch("deposit", 10, 101, 100);
    ta.dispatch("resolve", 10, 100, None);
    ta.assert_first_account_total(300);
    ta.assert_first_account_held(00);
}

#[test]
fn test_resolved_transfer_can_be_disputed_again() {
    let mut ta = TestApp::new();
    ta.dispatch("deposit", 10, 100, 200);
    ta.dispatch("deposit", 10, 101, 100);
    ta.dispatch("dispute", 10, 100, None);
    ta.dispatch("resolve", 10, 100, None);
    ta.dispatch("dispute", 10, 100, None);
    ta.assert_first_account_total(300);
    ta.assert_first_account_held(200);
}

// Chargeback

#[test]
fn test_chargeback_subtracts_disputed_funds_from_held_and_total() {
    let mut ta = TestApp::new();
    ta.dispatch("deposit", 10, 100, 200);
    ta.dispatch("deposit", 10, 101, 100);
    ta.dispatch("dispute", 10, 100, None);
    ta.dispatch("chargeback", 10, 100, None);
    ta.assert_first_account_total(100);
    ta.assert_first_account_held(00);
    assert_eq!(ta.first_account().locked, true);
}

#[test]
fn test_transaction_that_is_not_disputed_cannot_be_chargedback() {
    let mut ta = TestApp::new();
    ta.dispatch("deposit", 10, 100, 200);
    ta.dispatch("deposit", 10, 101, 100);
    ta.dispatch("chargeback", 10, 100, None);
    ta.assert_first_account_total(300);
    ta.assert_first_account_held(00);
    assert_eq!(ta.first_account().locked, false);
}

#[test]
fn test_chargeback_twice_not_possible() {
    let mut ta = TestApp::new();
    ta.dispatch("deposit", 10, 100, 200);
    ta.dispatch("deposit", 10, 101, 100);
    ta.dispatch("dispute", 10, 100, None);
    ta.dispatch("chargeback", 10, 100, None);
    ta.dispatch("chargeback", 10, 100, None);
    ta.assert_first_account_total(100);
    ta.assert_first_account_held(00);
    assert_eq!(ta.first_account().locked, true);
}

// Mixed

#[test]
fn test_deposit_on_frozen_account_possible() {
    let mut ta = TestApp::new();
    ta.dispatch("deposit", 10, 100, 200);
    ta.dispatch("deposit", 10, 101, 100);
    ta.dispatch("dispute", 10, 100, None);
    ta.dispatch("chargeback", 10, 100, None);
    ta.dispatch("deposit", 10, 102, 300);
    ta.assert_first_account_total(400);
    ta.assert_first_account_held(00);
    assert_eq!(ta.first_account().locked, true);
}

#[test]
fn test_withdrawal_from_frozen_account_not_possible() {
    let mut ta = TestApp::new();
    ta.dispatch("deposit", 10, 100, 200);
    ta.dispatch("deposit", 10, 101, 100);
    ta.dispatch("dispute", 10, 100, None);
    ta.dispatch("chargeback", 10, 100, None);
    ta.dispatch("withdrawal", 10, 200, 50);
    ta.assert_first_account_total(100);
    ta.assert_first_account_held(00);
    assert_eq!(ta.first_account().locked, true);
}
