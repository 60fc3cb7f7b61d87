use banking::{new_ledger, Account, DuplicateAccount, Ledger, LedgerError, Outcome, Transaction};

fn seeded() -> Ledger {
    new_ledger(vec![Account::new(1, 1000), Account::new(2, 500), Account::new(3, 200)]).unwrap()
}

fn balances(ledger: &Ledger) -> Vec<(u32, u64)> {
    let mut all = Vec::new();
    let mut i = 0;
    while let Some(account) = ledger.account_at(i) {
        all.push((account.id(), account.balance()));
        i += 1;
    }
    all
}

#[test]
fn new_ledger_keeps_accounts_in_order() {
    let ledger = seeded();
    assert_eq!(ledger.len(), 3);
    assert_eq!(balances(&ledger), vec![(1, 1000), (2, 500), (3, 200)]);
    assert_eq!(ledger.account_at(3), None);
}

#[test]
fn new_ledger_of_nothing_is_empty() {
    let ledger = new_ledger(Vec::new()).unwrap();
    assert_eq!(ledger.len(), 0);
    assert_eq!(ledger.balance(1), None);
}

#[test]
fn new_ledger_reports_first_repeated_id() {
    let accounts = vec![
        Account::new(7, 1),
        Account::new(8, 2),
        Account::new(9, 3),
        Account::new(8, 4),
        Account::new(7, 5),
    ];
    match new_ledger(accounts) {
        Err(duplicate) => assert_eq!(duplicate, DuplicateAccount { id: 8 }),
        Ok(_) => panic!("duplicate ids were accepted"),
    }
}

#[test]
fn balance_of_known_and_unknown_account() {
    let ledger = seeded();
    assert_eq!(ledger.balance(1), Some(1000));
    assert_eq!(ledger.balance(3), Some(200));
    assert_eq!(ledger.balance(4), None);
}

#[test]
fn deposit_adds_to_balance() {
    let mut ledger = seeded();
    assert_eq!(ledger.deposit(1, 200), Ok(()));
    assert_eq!(balances(&ledger), vec![(1, 1200), (2, 500), (3, 200)]);
}

#[test]
fn deposit_to_missing_account_fails() {
    let mut ledger = seeded();
    assert_eq!(ledger.deposit(9, 200), Err(LedgerError::AccountNotFound { id: 9 }));
    assert_eq!(balances(&ledger), vec![(1, 1000), (2, 500), (3, 200)]);
}

#[test]
fn deposit_of_zero_is_invalid() {
    let mut ledger = seeded();
    assert_eq!(ledger.deposit(1, 0), Err(LedgerError::InvalidTransaction));
    assert_eq!(ledger.deposit(9, 0), Err(LedgerError::AccountNotFound { id: 9 }));
    assert_eq!(balances(&ledger), vec![(1, 1000), (2, 500), (3, 200)]);
}

#[test]
fn deposit_past_the_limit_fails() {
    let mut ledger = new_ledger(vec![Account::new(1, u64::MAX - 5)]).unwrap();
    assert_eq!(ledger.deposit(1, 6), Err(LedgerError::BalanceOverflow { id: 1 }));
    assert_eq!(ledger.balance(1), Some(u64::MAX - 5));
    assert_eq!(ledger.deposit(1, 5), Ok(()));
    assert_eq!(ledger.balance(1), Some(u64::MAX));
}

#[test]
fn withdraw_subtracts_from_balance() {
    let mut ledger = seeded();
    assert_eq!(ledger.withdraw(2, 100), Ok(()));
    assert_eq!(balances(&ledger), vec![(1, 1000), (2, 400), (3, 200)]);
}

#[test]
fn withdraw_of_whole_balance_leaves_zero() {
    let mut ledger = seeded();
    assert_eq!(ledger.withdraw(3, 200), Ok(()));
    assert_eq!(ledger.balance(3), Some(0));
}

#[test]
fn withdraw_more_than_balance_fails() {
    let mut ledger = seeded();
    assert_eq!(
        ledger.withdraw(3, 201),
        Err(LedgerError::InsufficientFunds { id: 3, requested: 201, available: 200 })
    );
    assert_eq!(balances(&ledger), vec![(1, 1000), (2, 500), (3, 200)]);
}

#[test]
fn withdraw_from_missing_account_fails() {
    let mut ledger = seeded();
    assert_eq!(ledger.withdraw(0, 1), Err(LedgerError::AccountNotFound { id: 0 }));
    assert_eq!(ledger.withdraw(1, 0), Err(LedgerError::InvalidTransaction));
    assert_eq!(balances(&ledger), vec![(1, 1000), (2, 500), (3, 200)]);
}

#[test]
fn transfer_moves_amount_between_accounts() {
    let mut ledger = seeded();
    assert_eq!(ledger.transfer(1, 3, 300), Ok(()));
    assert_eq!(balances(&ledger), vec![(1, 700), (2, 500), (3, 500)]);
    assert_eq!(ledger.transfer(3, 1, 500), Ok(()));
    assert_eq!(balances(&ledger), vec![(1, 1200), (2, 500), (3, 0)]);
}

#[test]
fn transfer_with_missing_account_touches_neither() {
    let mut ledger = seeded();
    assert_eq!(ledger.transfer(1, 9, 10), Err(LedgerError::AccountNotFound { id: 9 }));
    assert_eq!(ledger.transfer(9, 1, 10), Err(LedgerError::AccountNotFound { id: 9 }));
    assert_eq!(ledger.transfer(8, 9, 10), Err(LedgerError::AccountNotFound { id: 8 }));
    assert_eq!(ledger.transfer(9, 9, 10), Err(LedgerError::AccountNotFound { id: 9 }));
    assert_eq!(balances(&ledger), vec![(1, 1000), (2, 500), (3, 200)]);
}

#[test]
fn transfer_to_self_is_invalid() {
    let mut ledger = seeded();
    assert_eq!(ledger.transfer(2, 2, 10), Err(LedgerError::InvalidTransaction));
    assert_eq!(ledger.transfer(1, 2, 0), Err(LedgerError::InvalidTransaction));
    assert_eq!(balances(&ledger), vec![(1, 1000), (2, 500), (3, 200)]);
}

#[test]
fn transfer_without_funds_touches_neither() {
    let mut ledger = seeded();
    assert_eq!(
        ledger.transfer(3, 1, 201),
        Err(LedgerError::InsufficientFunds { id: 3, requested: 201, available: 200 })
    );
    assert_eq!(balances(&ledger), vec![(1, 1000), (2, 500), (3, 200)]);
}

#[test]
fn transfer_past_the_limit_touches_neither() {
    let mut ledger = new_ledger(vec![Account::new(1, 100), Account::new(2, u64::MAX - 10)]).unwrap();
    assert_eq!(ledger.transfer(1, 2, 11), Err(LedgerError::BalanceOverflow { id: 2 }));
    assert_eq!(balances(&ledger), vec![(1, 100), (2, u64::MAX - 10)]);
    assert_eq!(ledger.transfer(1, 2, 10), Ok(()));
    assert_eq!(balances(&ledger), vec![(1, 90), (2, u64::MAX)]);
}

#[test]
fn transfer_keeps_the_sum_of_both_balances() {
    let mut ledger = seeded();
    let before = ledger.balance(1).unwrap() + ledger.balance(2).unwrap();
    assert_eq!(ledger.transfer(2, 1, 123), Ok(()));
    assert_eq!(ledger.balance(1).unwrap() + ledger.balance(2).unwrap(), before);
    assert_eq!(ledger.balance(3), Some(200));
}

#[test]
fn apply_reports_each_kind_of_outcome() {
    let mut ledger = new_ledger(vec![Account::new(1, 50), Account::new(2, u64::MAX)]).unwrap();
    assert_eq!(ledger.apply(Transaction::Deposit { account_id: 1, amount: 5 }), Outcome::Applied);
    assert_eq!(
        ledger.apply(Transaction::Withdraw { account_id: 3, amount: 5 }),
        Outcome::AccountNotFound { id: 3 }
    );
    assert_eq!(
        ledger.apply(Transaction::Withdraw { account_id: 1, amount: 56 }),
        Outcome::InsufficientFunds { id: 1, requested: 56, available: 55 }
    );
    assert_eq!(
        ledger.apply(Transaction::Transfer { from_id: 1, to_id: 1, amount: 5 }),
        Outcome::InvalidTransaction
    );
    assert_eq!(
        ledger.apply(Transaction::Transfer { from_id: 1, to_id: 2, amount: 5 }),
        Outcome::BalanceOverflow { id: 2 }
    );
    assert_eq!(balances(&ledger), vec![(1, 55), (2, u64::MAX)]);
}

#[test]
fn failed_transaction_does_not_disturb_later_ones() {
    let mut with_failure = seeded();
    let mut without = seeded();
    with_failure.apply(Transaction::Deposit { account_id: 1, amount: 10 });
    without.apply(Transaction::Deposit { account_id: 1, amount: 10 });
    let failed = with_failure.apply(Transaction::Withdraw { account_id: 2, amount: 501 });
    assert!(!failed.is_applied());
    with_failure.apply(Transaction::Transfer { from_id: 2, to_id: 3, amount: 500 });
    without.apply(Transaction::Transfer { from_id: 2, to_id: 3, amount: 500 });
    assert_eq!(balances(&with_failure), balances(&without));
    assert_eq!(balances(&with_failure), vec![(1, 1010), (2, 0), (3, 700)]);
}

#[test]
fn account_deposit_and_withdraw() {
    let mut account = Account::new(4, 10);
    assert_eq!(account.id(), 4);
    assert_eq!(account.deposit(5), Ok(()));
    assert_eq!(account.balance(), 15);
    assert_eq!(account.withdraw(15), Ok(()));
    assert_eq!(account.balance(), 0);
    assert_eq!(
        account.withdraw(1),
        Err(LedgerError::InsufficientFunds { id: 4, requested: 1, available: 0 })
    );
    assert_eq!(account.deposit(0), Err(LedgerError::InvalidTransaction));
    assert_eq!(account.withdraw(0), Err(LedgerError::InvalidTransaction));
    assert_eq!(account.deposit(u64::MAX), Ok(()));
    assert_eq!(account.deposit(1), Err(LedgerError::BalanceOverflow { id: 4 }));
    assert_eq!(account.balance(), u64::MAX);
}

#[test]
fn outcome_from_result_keeps_the_kind() {
    assert_eq!(Outcome::from_result(Ok(())), Outcome::Applied);
    assert_eq!(
        Outcome::from_result(Err(LedgerError::AccountNotFound { id: 2 })),
        Outcome::AccountNotFound { id: 2 }
    );
    assert_eq!(
        Outcome::from_result(Err(LedgerError::InsufficientFunds {
            id: 2,
            requested: 9,
            available: 8
        })),
        Outcome::InsufficientFunds { id: 2, requested: 9, available: 8 }
    );
    assert_eq!(
        Outcome::from_result(Err(LedgerError::InvalidTransaction)),
        Outcome::InvalidTransaction
    );
    assert_eq!(
        Outcome::from_result(Err(LedgerError::BalanceOverflow { id: 3 })),
        Outcome::BalanceOverflow { id: 3 }
    );
    assert!(Outcome::Applied.is_applied());
    assert!(!Outcome::InvalidTransaction.is_applied());
}

#[test]
fn transaction_well_formedness() {
    let deposit = Transaction::Deposit { account_id: 1, amount: 7 };
    let empty = Transaction::Withdraw { account_id: 1, amount: 0 };
    let to_self = Transaction::Transfer { from_id: 1, to_id: 1, amount: 7 };
    let transfer = Transaction::Transfer { from_id: 1, to_id: 2, amount: 9 };
    assert!(deposit.is_well_formed());
    assert!(transfer.is_well_formed());
    assert!(!empty.is_well_formed());
    assert!(!to_self.is_well_formed());
}
