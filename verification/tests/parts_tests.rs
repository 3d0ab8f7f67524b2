use payments_engine::account::{Account, AccountOutput, Accounts};
use payments_engine::amount::Amount;
use payments_engine::engine::{process_transaction, TxLedger};
use payments_engine::model::{Outcome, Rejection};
use payments_engine::transaction::{parse_tx_type, Transaction, TxRecord, TxStatus, TxType};
use std::collections::HashMap;
use std::str::FromStr;

fn apply_all(txs: &[Transaction]) -> (Accounts, TxLedger, Vec<Outcome>) {
    let mut accounts: Accounts = HashMap::new();
    let mut ledger: TxLedger = HashMap::new();
    let mut outcomes = Vec::new();
    for tx in txs {
        outcomes.push(process_transaction(*tx, &mut accounts, &mut ledger));
    }
    (accounts, ledger, outcomes)
}

fn tx(kind: TxType, client: u16, id: u32, amount: Option<Amount>) -> Transaction {
    Transaction::new(kind, client, id, amount)
}

#[test]
fn every_rejection_has_an_input() {
    let ten = Some(Amount::new(10, 0));
    let (_, _, outcomes) = apply_all(&[
        tx(TxType::Deposit, 1, 1, None),
        tx(TxType::Withdrawal, 1, 2, ten),
        tx(TxType::Dispute, 1, 3, None),
        tx(TxType::Deposit, 1, 4, ten),
        tx(TxType::Dispute, 2, 4, None),
        tx(TxType::Resolve, 1, 4, None),
        tx(TxType::Withdrawal, 1, 5, Some(Amount::new(3, 0))),
        tx(TxType::Dispute, 1, 5, None),
        tx(TxType::Dispute, 1, 4, None),
        tx(TxType::Chargeback, 1, 4, None),
        tx(TxType::Deposit, 1, 6, ten),
    ]);
    assert_eq!(
        outcomes,
        vec![
            Outcome::Rejected(Rejection::MissingAmount),
            Outcome::Rejected(Rejection::InsufficientFunds),
            Outcome::Rejected(Rejection::UnknownTransaction),
            Outcome::Applied,
            Outcome::Rejected(Rejection::WrongClient),
            Outcome::Rejected(Rejection::InvalidState),
            Outcome::Applied,
            Outcome::Rejected(Rejection::NotADeposit),
            Outcome::Rejected(Rejection::WouldOverdraw),
            Outcome::Rejected(Rejection::InvalidState),
            Outcome::Applied,
        ]
    );
}

#[test]
fn locked_account_rejects_and_keeps_state() {
    let (accounts, ledger, outcomes) = apply_all(&[
        tx(TxType::Deposit, 1, 1, Some(Amount::new(10, 0))),
        tx(TxType::Deposit, 1, 2, Some(Amount::new(4, 0))),
        tx(TxType::Dispute, 1, 1, None),
        tx(TxType::Chargeback, 1, 1, None),
        tx(TxType::Resolve, 1, 1, None),
        tx(TxType::Dispute, 1, 2, None),
        tx(TxType::Withdrawal, 1, 3, Some(Amount::new(1, 0))),
    ]);
    assert_eq!(outcomes[4..], [Outcome::Rejected(Rejection::AccountLocked); 3]);
    let account = accounts.get(&1).unwrap();
    assert_eq!(account.available(), Amount::new(4, 0));
    assert!(account.locked());
    assert_eq!(*ledger.get(&1).unwrap().status(), TxStatus::ChargedBack);
    assert_eq!(*ledger.get(&2).unwrap().status(), TxStatus::Normal);
    assert!(ledger.get(&3).is_none());
}

#[test]
fn ledger_records_deposits_and_withdrawals() {
    let (_, ledger, _) = apply_all(&[
        tx(TxType::Deposit, 5, 10, Some(Amount::new(125, 2))),
        tx(TxType::Deposit, 5, 12, Some(Amount::new(1, 0))),
        tx(TxType::Withdrawal, 5, 11, Some(Amount::new(25, 2))),
        tx(TxType::Dispute, 5, 10, None),
    ]);
    let d = ledger.get(&10).unwrap();
    assert_eq!(d.client(), 5);
    assert_eq!(d.amount(), Amount::new(125, 2));
    assert_eq!(*d.tx_type(), TxType::Deposit);
    assert_eq!(*d.status(), TxStatus::Disputed);
    let w = ledger.get(&11).unwrap();
    assert_eq!(*w.tx_type(), TxType::Withdrawal);
    assert_eq!(*w.status(), TxStatus::Normal);
    assert_eq!(ledger.len(), 3);
}

#[test]
fn tx_record_from_transaction() {
    let t = tx(TxType::Withdrawal, 3, 8, Some(Amount::new(7, 1)));
    let mut r = TxRecord::from(&t);
    assert_eq!(r.client(), 3);
    assert_eq!(r.amount(), Amount::new(70, 2));
    assert_eq!(*r.status(), TxStatus::Normal);
    assert_eq!(*r.tx_type(), TxType::Withdrawal);
    r.set_status(TxStatus::Disputed);
    assert_eq!(*r.status(), TxStatus::Disputed);
    let without = TxRecord::from(&tx(TxType::Deposit, 3, 9, None));
    assert_eq!(without.amount(), Amount::zero());
}

#[test]
fn transaction_getters() {
    let t = tx(TxType::Resolve, 12, 34, None);
    assert_eq!(*t.tx_type(), TxType::Resolve);
    assert_eq!(t.client(), 12);
    assert_eq!(t.tx_id(), 34);
    assert!(t.amount().is_none());
}

#[test]
fn account_operations() {
    let mut a = Account::new();
    a.credit(Amount::new(1050, 2));
    assert_eq!(a.available(), Amount::new(105, 1));
    a.debit(Amount::new(5, 1));
    assert_eq!(a.available(), Amount::new(10, 0));
    a.hold(Amount::new(3, 0));
    assert_eq!(a.held(), Amount::new(3, 0));
    assert_eq!(a.total(), Amount::new(13, 0));
    a.release(Amount::new(1, 0));
    assert_eq!(a.held(), Amount::new(2, 0));
    assert!(!a.locked());
    a.chargeback(Amount::new(2, 0));
    assert_eq!(a.held(), Amount::zero());
    assert_eq!(a.available(), Amount::new(10, 0));
    assert!(a.locked());
}

#[test]
fn statement_rounds_to_four_places_half_to_even() {
    let mut a = Account::new();
    a.credit(Amount::new(123455, 5));
    a.hold(Amount::new(123445, 5));
    let line = AccountOutput::new(9, &a);
    assert_eq!(line.client, 9);
    assert_eq!(line.available.mantissa(), 12346);
    assert_eq!(line.available.scale(), 4);
    assert_eq!(line.held.mantissa(), 12344);
    assert_eq!(line.total.mantissa(), 24690);
    assert!(!line.locked);
    let short = AccountOutput::try_new(1, &Account::new()).unwrap();
    assert_eq!(short.total.mantissa(), 0);
    assert_eq!(short.total.scale(), 0);
}

#[test]
fn statement_of_negative_balance_rounds_by_magnitude() {
    let mut a = Account::new();
    a.debit(Amount::new(25, 5));
    let line = AccountOutput::new(1, &a);
    assert_eq!(line.available, Amount::new(-2, 4));
    assert_eq!(line.available.mantissa(), -2);
}

#[test]
fn statement_of_unrepresentable_total_is_none() {
    let mut a = Account::new();
    let near_max = Amount::from_parts((1i128 << 96) - 1, 0, false).unwrap();
    a.credit(near_max);
    a.hold(near_max);
    assert!(AccountOutput::try_new(1, &a).is_none());
}

#[test]
fn parse_tx_type_ignores_case() {
    assert_eq!(TxType::from_str("deposit"), Ok(TxType::Deposit));
    assert_eq!(TxType::from_str("WITHDRAWAL"), Ok(TxType::Withdrawal));
    assert_eq!(TxType::from_str("Dispute"), Ok(TxType::Dispute));
    assert_eq!("reSolve".parse::<TxType>(), Ok(TxType::Resolve));
    assert_eq!(parse_tx_type("ChargeBack"), Ok(TxType::Chargeback));
}

#[test]
fn parse_tx_type_unknown_quotes_input() {
    assert_eq!(parse_tx_type("Refund"), Err("Unknown transaction type: Refund".to_string()));
    assert_eq!(parse_tx_type(""), Err("Unknown transaction type: ".to_string()));
    assert_eq!(parse_tx_type(" deposit"), Err("Unknown transaction type:  deposit".to_string()));
}

#[test]
fn amounts_compare_by_value() {
    assert_eq!(Amount::new(10, 1), Amount::new(100, 2));
    assert_ne!(Amount::new(10, 1), Amount::new(101, 2));
    assert!(Amount::from_parts(1i128 << 96, 0, false).is_none());
    assert!(Amount::from_parts(1, 29, false).is_none());
    assert!(Amount::from_parts(-7, 3, false).is_none());
    let a = Amount::from_parts(-7, 3, true).unwrap();
    assert!(a.is_sign_negative());
    let negative_zero = Amount::from_parts(0, 2, true).unwrap();
    assert!(negative_zero.is_sign_negative());
    assert_eq!(negative_zero, Amount::zero());
    assert_eq!(a.mantissa(), -7);
    assert_eq!(a.scale(), 3);
}

#[test]
fn overflow_is_reported_and_changes_nothing() {
    let near_max = Amount::from_parts((1i128 << 96) - 1, 0, false).unwrap();
    let (accounts, ledger, outcomes) = apply_all(&[
        tx(TxType::Deposit, 1, 1, Some(near_max)),
        tx(TxType::Deposit, 1, 2, Some(near_max)),
    ]);
    assert_eq!(outcomes, vec![Outcome::Applied, Outcome::Overflow]);
    assert_eq!(accounts.get(&1).unwrap().available(), near_max);
    assert!(ledger.get(&2).is_none());
}

#[test]
fn balances_stay_non_negative_through_a_busy_history() {
    let a = |n: i64| Some(Amount::new(n, 2));
    let (accounts, _, _) = apply_all(&[
        tx(TxType::Deposit, 1, 1, a(500)),
        tx(TxType::Deposit, 1, 2, a(300)),
        tx(TxType::Withdrawal, 1, 3, a(50)),
        tx(TxType::Dispute, 1, 2, None),
        tx(TxType::Resolve, 1, 2, None),
        tx(TxType::Dispute, 1, 2, None),
        tx(TxType::Dispute, 1, 1, None),
        tx(TxType::Chargeback, 1, 2, None),
        tx(TxType::Deposit, 2, 4, a(50)),
        tx(TxType::Withdrawal, 2, 5, a(51)),
        tx(TxType::Dispute, 2, 4, None),
        tx(TxType::Chargeback, 2, 4, None),
        tx(TxType::Deposit, 3, 1, a(10)),
        tx(TxType::Dispute, 3, 1, None),
        tx(TxType::Resolve, 3, 1, None),
    ]);
    for account in accounts.values() {
        assert!(account.available().mantissa() >= 0);
        assert!(account.held().mantissa() >= 0);
    }
    let one = accounts.get(&1).unwrap();
    assert_eq!(one.available(), Amount::new(45, 1));
    assert_eq!(one.held(), Amount::zero());
    assert!(one.locked());
    let three = accounts.get(&3).unwrap();
    assert_eq!(three.available(), Amount::new(10, 2));
    assert_eq!(three.held(), Amount::zero());
}

#[test]
fn negative_zero_keeps_its_sign() {
    // A deposit of -0.0 into a fresh account leaves -0.0 (zero plus x is x), and the
    // statement keeps it; -5.0 less -5.0 is a plain zero.
    let minus_zero = Amount::from_parts(0, 1, true).unwrap();
    let (accounts, _, outcomes) = apply_all(&[
        tx(TxType::Deposit, 1, 1, Some(minus_zero)),
        tx(TxType::Deposit, 2, 2, Some(Amount::new(-50, 1))),
        tx(TxType::Withdrawal, 2, 3, Some(Amount::new(-50, 1))),
    ]);
    assert_eq!(outcomes, vec![Outcome::Applied; 3]);
    let one = accounts.get(&1).unwrap();
    assert_eq!(one.available().mantissa(), 0);
    assert_eq!(one.available().scale(), 1);
    assert!(one.available().is_sign_negative());
    let line = AccountOutput::new(1, one);
    assert!(line.available.is_sign_negative());
    assert_eq!(line.available.scale(), 1);
    let two = accounts.get(&2).unwrap();
    assert_eq!(two.available().mantissa(), 0);
    assert!(!two.available().is_sign_negative());
}

#[test]
fn rounding_zero_and_rounding_to_zero() {
    let mut a = Account::new();
    a.debit(Amount::new(1, 5));
    let line = AccountOutput::new(1, &a);
    assert_eq!(line.available.mantissa(), 0);
    assert_eq!(line.available.scale(), 4);
    assert!(!line.available.is_sign_negative());
    let mut b = Account::new();
    b.credit(Amount::from_parts(0, 6, true).unwrap());
    let line = AccountOutput::new(2, &b);
    assert_eq!(line.available.scale(), 4);
    assert!(line.available.is_sign_negative());
}

#[test]
fn disputing_twice_holds_once() {
    let (accounts, _, outcomes) = apply_all(&[
        tx(TxType::Deposit, 1, 1, Some(Amount::new(10, 0))),
        tx(TxType::Dispute, 1, 1, None),
        tx(TxType::Dispute, 1, 1, None),
    ]);
    assert_eq!(outcomes[2], Outcome::Rejected(Rejection::InvalidState));
    let a = accounts.get(&1).unwrap();
    assert_eq!(a.available(), Amount::zero());
    assert_eq!(a.held(), Amount::new(10, 0));
}

#[test]
fn dispute_row_amount_is_ignored() {
    let (with_amount, _, _) = apply_all(&[
        tx(TxType::Deposit, 1, 1, Some(Amount::new(10, 0))),
        tx(TxType::Dispute, 1, 1, Some(Amount::new(999, 0))),
    ]);
    let (without, _, _) = apply_all(&[
        tx(TxType::Deposit, 1, 1, Some(Amount::new(10, 0))),
        tx(TxType::Dispute, 1, 1, None),
    ]);
    assert_eq!(with_amount.get(&1).unwrap().held(), without.get(&1).unwrap().held());
    assert_eq!(with_amount.get(&1).unwrap().held(), Amount::new(10, 0));
}

#[test]
fn books_balance_with_fresh_ids() {
    let a = |n: i64| Some(Amount::new(n, 1));
    let (accounts, ledger, _) = apply_all(&[
        tx(TxType::Deposit, 1, 1, a(100)),
        tx(TxType::Deposit, 1, 2, a(40)),
        tx(TxType::Deposit, 1, 3, a(25)),
        tx(TxType::Withdrawal, 1, 4, a(30)),
        tx(TxType::Dispute, 1, 2, None),
        tx(TxType::Dispute, 1, 3, None),
        tx(TxType::Chargeback, 1, 2, None),
    ]);
    let one = accounts.get(&1).unwrap();
    // deposits not charged back (10.0 + 2.5) less withdrawals (3.0)
    assert_eq!(one.total(), Amount::new(95, 1));
    // the one open dispute
    assert_eq!(one.held(), Amount::new(25, 1));
    assert_eq!(*ledger.get(&2).unwrap().status(), TxStatus::ChargedBack);
    assert_eq!(*ledger.get(&3).unwrap().status(), TxStatus::Disputed);
}

#[test]
fn a_client_alone_ends_as_among_others() {
    let a = |n: i64| Some(Amount::new(n, 0));
    let all = [
        tx(TxType::Deposit, 1, 1, a(10)),
        tx(TxType::Deposit, 2, 2, a(20)),
        tx(TxType::Dispute, 2, 1, None),
        tx(TxType::Dispute, 1, 2, None),
        tx(TxType::Withdrawal, 1, 3, a(4)),
        tx(TxType::Dispute, 2, 2, None),
        tx(TxType::Chargeback, 2, 2, None),
        tx(TxType::Dispute, 1, 1, None),
    ];
    let (together, _, _) = apply_all(&all);
    for client in [1u16, 2] {
        let own: Vec<Transaction> = all.iter().copied().filter(|t| t.client() == client).collect();
        let (alone, _, _) = apply_all(&own);
        let (x, y) = (together.get(&client).unwrap(), alone.get(&client).unwrap());
        assert_eq!(x.available(), y.available());
        assert_eq!(x.held(), y.held());
        assert_eq!(x.locked(), y.locked());
    }
}

#[test]
fn debit_undoes_credit_and_release_undoes_hold() {
    let mut a = Account::new();
    a.credit(Amount::new(7, 0));
    a.hold(Amount::new(2, 0));
    let before = a;
    a.credit(Amount::new(125, 2));
    a.debit(Amount::new(125, 2));
    a.hold(Amount::new(3, 1));
    a.release(Amount::new(3, 1));
    assert_eq!(a.available(), before.available());
    assert_eq!(a.held(), before.held());
    assert_eq!(a.locked(), before.locked());
}

#[test]
fn parsing_a_lowercased_name_gives_the_same_type() {
    for name in ["DEPOSIT", "Withdrawal", "dIsPuTe", "RESOLVE", "chargeBACK"] {
        assert_eq!(TxType::from_str(name), TxType::from_str(&name.to_lowercase()));
        assert!(TxType::from_str(name).is_ok());
    }
}
