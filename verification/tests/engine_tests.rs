use payments_engine::account::{Account, Accounts};
use payments_engine::amount::Amount;
use payments_engine::engine::process_transactions;
use payments_engine::transaction::{Transaction, TxType};

fn deposit(client: u16, tx: u32, amount: Amount) -> Transaction {
    Transaction::new(TxType::Deposit, client, tx, Some(amount))
}

fn withdrawal(client: u16, tx: u32, amount: Amount) -> Transaction {
    Transaction::new(TxType::Withdrawal, client, tx, Some(amount))
}

fn dispute(client: u16, tx: u32) -> Transaction {
    Transaction::new(TxType::Dispute, client, tx, None)
}

fn resolve(client: u16, tx: u32) -> Transaction {
    Transaction::new(TxType::Resolve, client, tx, None)
}

fn chargeback(client: u16, tx: u32) -> Transaction {
    Transaction::new(TxType::Chargeback, client, tx, None)
}

/// `whole.tenths`, as a CSV amount such as `100.0` is written.
fn tenths(n: i64) -> Amount {
    Amount::new(n, 1)
}

fn run(txs: Vec<Transaction>) -> Accounts {
    process_transactions(txs).unwrap()
}

fn check(account: &Account, available: Amount, held: Amount, total: Amount, locked: bool) {
    assert_eq!(account.available(), available);
    assert_eq!(account.held(), held);
    assert_eq!(account.total(), total);
    assert_eq!(account.locked(), locked);
}

// Verifies that a deposit correctly increases the client's available balance and that held balance remains zero
#[test]
fn test_deposit_increases_available() {
    let accounts = run(vec![deposit(1, 1, tenths(1000))]);
    let account = accounts.get(&1).unwrap();
    assert_eq!(account.available(), Amount::new(100_0000, 4));
    assert_eq!(account.held(), Amount::zero());
    assert_eq!(account.total(), Amount::new(100_0000, 4));
    assert!(!account.locked());
}

// Verifies that a withdrawal correctly decreases the client's available balance
#[test]
fn test_withdrawal_decreases_available() {
    let accounts = run(vec![deposit(1, 1, tenths(1000)), withdrawal(1, 2, tenths(400))]);
    let account = accounts.get(&1).unwrap();
    assert_eq!(account.available(), Amount::new(60_0000, 4));
    assert_eq!(account.held(), Amount::zero());
    assert_eq!(account.total(), Amount::new(60_0000, 4));
    assert!(!account.locked());
}

// Verifies that a withdrawal exceeding available balance is rejected silently leaving the account unchanged
#[test]
fn test_withdrawal_fails_insufficient_funds() {
    let accounts = run(vec![deposit(1, 1, tenths(1000)), withdrawal(1, 2, tenths(2000))]);
    let account = accounts.get(&1).unwrap();
    assert_eq!(account.available(), Amount::new(100_0000, 4));
    assert_eq!(account.held(), Amount::zero());
    assert_eq!(account.total(), Amount::new(100_0000, 4));
    assert!(!account.locked());
}

// Verifies that a dispute moves funds from available to held keeping total unchanged
#[test]
fn test_dispute_moves_funds_to_held() {
    let accounts = run(vec![deposit(1, 1, tenths(1000)), dispute(1, 1)]);
    let account = accounts.get(&1).unwrap();
    assert_eq!(account.available(), Amount::zero());
    assert_eq!(account.held(), Amount::new(100_0000, 4));
    assert_eq!(account.total(), Amount::new(100_0000, 4));
    assert!(!account.locked());
}

// Verifies that resolving a dispute releases held funds back to available keeping total unchanged
#[test]
fn test_resolve_releases_held_funds() {
    let accounts = run(vec![deposit(1, 1, tenths(1000)), dispute(1, 1), resolve(1, 1)]);
    let account = accounts.get(&1).unwrap();
    assert_eq!(account.available(), Amount::new(100_0000, 4));
    assert_eq!(account.held(), Amount::zero());
    assert_eq!(account.total(), Amount::new(100_0000, 4));
    assert!(!account.locked());
}

// Verifies that a chargeback removes held funds entirely and locks the account
#[test]
fn test_chargeback_locks_account() {
    let accounts = run(vec![deposit(1, 1, tenths(1000)), dispute(1, 1), chargeback(1, 1)]);
    let account = accounts.get(&1).unwrap();
    assert_eq!(account.available(), Amount::zero());
    assert_eq!(account.held(), Amount::zero());
    assert_eq!(account.total(), Amount::zero());
    assert!(account.locked());
}

// Verifies that a locked account rejects all further transactions.
#[test]
fn test_locked_account_rejects_transactions() {
    let accounts = run(vec![
        deposit(1, 1, tenths(1000)),
        dispute(1, 1),
        chargeback(1, 1),
        deposit(1, 2, tenths(5000)),
        withdrawal(1, 3, tenths(500)),
    ]);
    let account = accounts.get(&1).unwrap();
    assert_eq!(account.available(), Amount::zero());
    assert_eq!(account.held(), Amount::zero());
    assert_eq!(account.total(), Amount::zero());
    assert!(account.locked());
}

// Verifies that a client cannot dispute a transaction belonging to another client
#[test]
fn test_dispute_wrong_client_ignored() {
    let accounts = run(vec![deposit(1, 1, tenths(1000)), deposit(2, 2, tenths(2000)), dispute(2, 1)]);

    let account1 = accounts.get(&1).unwrap();
    assert_eq!(account1.available(), Amount::new(100_0000, 4));
    assert_eq!(account1.held(), Amount::zero());
    assert_eq!(account1.total(), Amount::new(100_0000, 4));
    assert!(!account1.locked());

    let account2 = accounts.get(&2).unwrap();
    assert_eq!(account2.available(), Amount::new(200_0000, 4));
    assert_eq!(account2.held(), Amount::zero());
    assert_eq!(account2.total(), Amount::new(200_0000, 4));
    assert!(!account2.locked());
}

// Verifies that a resolve on a transaction that was never disputed is ignored
#[test]
fn test_resolve_without_dispute() {
    let accounts = run(vec![deposit(1, 1, tenths(1000)), resolve(1, 1)]);
    let account = accounts.get(&1).unwrap();
    assert_eq!(account.available(), Amount::new(100_0000, 4));
    assert_eq!(account.held(), Amount::zero());
    assert_eq!(account.total(), Amount::new(100_0000, 4));
    assert!(!account.locked());
}

// Verifies that a dispute is rejected if it would push available balance negative.
#[test]
fn test_prevent_overdraw_dispute() {
    let accounts = run(vec![deposit(1, 1, tenths(1000)), withdrawal(1, 2, tenths(900)), dispute(1, 1)]);
    let account = accounts.get(&1).unwrap();
    assert_eq!(account.available(), Amount::new(10_0000, 4));
    assert_eq!(account.held(), Amount::zero());
    assert_eq!(account.total(), Amount::new(10_0000, 4));
    assert!(!account.locked());
}

// Verifies that operations on one client account do not affect other clients
#[test]
fn test_multiple_clients_independent() {
    let accounts = run(vec![
        deposit(1, 1, tenths(1000)),
        deposit(2, 2, tenths(2000)),
        dispute(1, 1),
        chargeback(1, 1),
    ]);

    let account1 = accounts.get(&1).unwrap();
    assert_eq!(account1.available(), Amount::zero());
    assert_eq!(account1.held(), Amount::zero());
    assert_eq!(account1.total(), Amount::zero());
    assert!(account1.locked());

    let account2 = accounts.get(&2).unwrap();
    assert_eq!(account2.available(), Amount::new(200_0000, 4));
    assert_eq!(account2.held(), Amount::zero());
    assert_eq!(account2.total(), Amount::new(200_0000, 4));
    assert!(!account2.locked());
}

// Verifies that a withdrawal of exactly the available balance succeeds leaving the account at zero without locking it
#[test]
fn test_withdrawal_exact_balance() {
    let accounts = run(vec![deposit(1, 1, tenths(1000)), withdrawal(1, 2, tenths(1000))]);
    let account = accounts.get(&1).unwrap();
    assert_eq!(account.available(), Amount::zero());
    assert_eq!(account.held(), Amount::zero());
    assert_eq!(account.total(), Amount::zero());
    assert!(!account.locked());
}

// Verifies that a withdrawal cannot be disputed.
#[test]
fn test_withdrawal_cannot_be_disputed() {
    let accounts = run(vec![deposit(1, 1, tenths(1000)), withdrawal(1, 2, tenths(400)), dispute(1, 2)]);
    let account = accounts.get(&1).unwrap();
    assert_eq!(account.available(), Amount::new(60_0000, 4));
    assert_eq!(account.held(), Amount::zero());
    assert_eq!(account.total(), Amount::new(60_0000, 4));
    assert!(!account.locked());
}

#[test]
fn resolve_after_dispute_restores_balances_and_allows_a_new_dispute() {
    let accounts = run(vec![
        deposit(1, 1, Amount::new(1234, 2)),
        deposit(1, 2, Amount::new(5, 0)),
        dispute(1, 1),
        resolve(1, 1),
        dispute(1, 1),
    ]);
    let account = accounts.get(&1).unwrap();
    check(account, Amount::new(5, 0), Amount::new(1234, 2), Amount::new(1734, 2), false);
}

#[test]
fn chargeback_without_dispute_and_repeated_chargeback_are_ignored() {
    let accounts = run(vec![deposit(1, 1, tenths(30)), chargeback(1, 1)]);
    check(accounts.get(&1).unwrap(), tenths(30), Amount::zero(), tenths(30), false);

    let accounts = run(vec![
        deposit(1, 1, tenths(30)),
        deposit(1, 2, tenths(20)),
        dispute(1, 1),
        chargeback(1, 1),
        chargeback(1, 1),
    ]);
    check(accounts.get(&1).unwrap(), tenths(20), Amount::zero(), tenths(20), true);
}

#[test]
fn two_open_disputes_hold_both_amounts() {
    let accounts = run(vec![
        deposit(1, 1, tenths(10)),
        deposit(1, 2, tenths(25)),
        dispute(1, 1),
        dispute(1, 2),
        resolve(1, 2),
    ]);
    check(accounts.get(&1).unwrap(), tenths(25), tenths(10), tenths(35), false);
}

#[test]
fn unknown_transactions_still_open_an_account() {
    let accounts = run(vec![dispute(7, 99), resolve(8, 99), chargeback(9, 99)]);
    for client in [7u16, 8, 9] {
        check(accounts.get(&client).unwrap(), Amount::zero(), Amount::zero(), Amount::zero(), false);
    }
    assert_eq!(accounts.len(), 3);
}

#[test]
fn empty_input_gives_no_accounts() {
    assert!(run(vec![]).is_empty());
}

#[test]
fn amounts_at_different_scales_add_exactly() {
    let accounts = run(vec![
        deposit(4, 1, Amount::new(1, 4)),
        deposit(4, 2, Amount::new(2, 0)),
        withdrawal(4, 3, Amount::new(5, 1)),
    ]);
    check(accounts.get(&4).unwrap(), Amount::new(15001, 4), Amount::zero(), Amount::new(15001, 4), false);
}

#[test]
fn deposit_that_overflows_is_an_error() {
    let near_max = Amount::from_parts((1i128 << 96) - 1, 0, false).unwrap();
    let result = process_transactions(vec![deposit(1, 1, near_max), deposit(1, 2, near_max)]);
    assert!(result.is_err());
}

#[test]
fn withdrawal_below_zero_through_negative_balance_is_still_compared_by_value() {
    // 0.5 is less than 0.50001, so the withdrawal is refused.
    let accounts = run(vec![deposit(1, 1, Amount::new(5, 1)), withdrawal(1, 2, Amount::new(50001, 5))]);
    check(accounts.get(&1).unwrap(), Amount::new(5, 1), Amount::zero(), Amount::new(5, 1), false);
}
