use conta_bancaria::{apply_transaction, decimal_string, final_line, ContaBancaria, Event};

#[test]
fn decimal_of_small_numbers() {
    assert_eq!(decimal_string(0), "0");
    assert_eq!(decimal_string(7), "7");
    assert_eq!(decimal_string(10), "10");
    assert_eq!(decimal_string(1250), "1250");
    assert_eq!(decimal_string(-1), "-1");
    assert_eq!(decimal_string(-90), "-90");
}

#[test]
fn decimal_of_the_extremes() {
    assert_eq!(decimal_string(i32::MAX), "2147483647");
    assert_eq!(decimal_string(i32::MIN), "-2147483648");
}

#[test]
fn decimal_agrees_with_the_standard_formatting() {
    let mut n: i32 = -1_000_003;
    while n < 1_000_000 {
        assert_eq!(decimal_string(n), format!("{}", n));
        n += 997;
    }
}

#[test]
fn line_of_a_credit() {
    let event = Event::Credited { amount: 100, balance: 1100 };
    assert_eq!(event.line(), "Creditado: 100 | Saldo atual: 1100");
}

#[test]
fn line_of_a_debit() {
    let event = Event::Debited { amount: 50, balance: 1050 };
    assert_eq!(event.line(), "Debitado: 50 | Saldo atual: 1050");
}

#[test]
fn line_of_a_rejection() {
    let mut conta = ContaBancaria { saldo: 1000 };
    let event = apply_transaction(&mut conta, -1500);
    assert_eq!(
        event.line(),
        "Saldo insuficiente para debitar: 1500 | Saldo atual: 1000"
    );
}

#[test]
fn line_with_a_negative_balance() {
    let event = Event::Rejected { amount: 0, balance: -5 };
    assert_eq!(event.line(), "Saldo insuficiente para debitar: 0 | Saldo atual: -5");
}

#[test]
fn line_of_the_final_balance() {
    assert_eq!(final_line(1250), "Saldo final da conta: 1250");
    assert_eq!(final_line(0), "Saldo final da conta: 0");
    assert_eq!(final_line(-17), "Saldo final da conta: -17");
}
