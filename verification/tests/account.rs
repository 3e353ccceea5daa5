use conta_bancaria::{ContaBancaria, Event};

#[test]
fn single_credit_raises_the_balance() {
    let mut conta = ContaBancaria { saldo: 1000 };
    let event = conta.creditar(100);
    assert_eq!(event, Event::Credited { amount: 100, balance: 1100 });
    assert_eq!(conta.consultar_saldo(), 1100);
}

#[test]
fn single_debit_beyond_the_balance_is_rejected() {
    let mut conta = ContaBancaria { saldo: 1000 };
    let event = conta.debitar(1500);
    assert_eq!(event, Event::Rejected { amount: 1500, balance: 1000 });
    assert_eq!(conta.consultar_saldo(), 1000);
}

#[test]
fn covered_debit_lowers_the_balance() {
    let mut conta = ContaBancaria { saldo: 1000 };
    let event = conta.debitar(150);
    assert_eq!(event, Event::Debited { amount: 150, balance: 850 });
    assert_eq!(conta.consultar_saldo(), 850);
}

#[test]
fn debit_of_the_whole_balance_goes_through() {
    let mut conta = ContaBancaria { saldo: 75 };
    let event = conta.debitar(75);
    assert_eq!(event, Event::Debited { amount: 75, balance: 0 });
    assert_eq!(conta.consultar_saldo(), 0);
}

#[test]
fn debit_one_above_the_balance_is_rejected() {
    let mut conta = ContaBancaria { saldo: 75 };
    let event = conta.debitar(76);
    assert_eq!(event, Event::Rejected { amount: 76, balance: 75 });
    assert_eq!(conta.consultar_saldo(), 75);
}

#[test]
fn debit_of_zero_needs_a_balance_that_is_not_negative() {
    let mut conta = ContaBancaria { saldo: 0 };
    assert_eq!(conta.debitar(0), Event::Debited { amount: 0, balance: 0 });
    assert_eq!(conta.consultar_saldo(), 0);

    let mut overdrawn = ContaBancaria { saldo: -5 };
    assert_eq!(overdrawn.debitar(0), Event::Rejected { amount: 0, balance: -5 });
    assert_eq!(overdrawn.consultar_saldo(), -5);
}

#[test]
fn repeated_rejection_never_changes_the_balance() {
    let mut conta = ContaBancaria { saldo: 300 };
    for _ in 0..25 {
        let event = conta.debitar(301);
        assert_eq!(event, Event::Rejected { amount: 301, balance: 300 });
        assert_eq!(conta.consultar_saldo(), 300);
    }
}

#[test]
fn credit_may_reach_the_largest_balance() {
    let mut conta = ContaBancaria { saldo: i32::MAX - 1 };
    let event = conta.creditar(1);
    assert_eq!(event, Event::Credited { amount: 1, balance: i32::MAX });
    assert_eq!(conta.consultar_saldo(), i32::MAX);
}

#[test]
fn consultar_saldo_reads_without_changing() {
    let conta = ContaBancaria { saldo: -42 };
    assert_eq!(conta.consultar_saldo(), -42);
    assert_eq!(conta.consultar_saldo(), -42);
    assert_eq!(conta.saldo, -42);
}
