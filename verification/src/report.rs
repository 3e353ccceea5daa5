//! The text of the log: one line for each event and one for the final
//! balance, with every number in decimal.

use crate::account::{Event, EventView};
use vstd::prelude::*;
use vstd::string::StringExecFns;

verus! {

/// The character that stands for the decimal digit `d`, for `d` from 0 to 9.
pub open spec fn digit(d: int) -> char {
    if d == 0 {
        '0'
    } else if d == 1 {
        '1'
    } else if d == 2 {
        '2'
    } else if d == 3 {
        '3'
    } else if d == 4 {
        '4'
    } else if d == 5 {
        '5'
    } else if d == 6 {
        '6'
    } else if d == 7 {
        '7'
    } else if d == 8 {
        '8'
    } else {
        '9'
    }
}

/// The decimal digits of `n`, the most significant first and no zero in
/// front; zero is the single digit `0`.
pub open spec fn decimal_digits(n: nat) -> Seq<char>
    decreases n,
{
    if n < 10 {
        seq![digit(n as int)]
    } else {
        decimal_digits(n / 10).push(digit((n % 10) as int))
    }
}

/// The decimal text of `n`: its digits, after a minus sign if `n` is negative.
pub open spec fn decimal(n: int) -> Seq<char> {
    if n < 0 {
        seq!['-'] + decimal_digits((-n) as nat)
    } else {
        decimal_digits(n as nat)
    }
}

/// The log line of an event: what happened, the amount, and the balance that
/// the event carries.
pub open spec fn event_text(event: EventView) -> Seq<char> {
    match event {
        EventView::Credited { amount, balance } => "Creditado: "@ + decimal(amount)
            + " | Saldo atual: "@ + decimal(balance),
        EventView::Debited { amount, balance } => "Debitado: "@ + decimal(amount)
            + " | Saldo atual: "@ + decimal(balance),
        EventView::Rejected { amount, balance } => "Saldo insuficiente para debitar: "@ + decimal(
            amount,
        ) + " | Saldo atual: "@ + decimal(balance),
    }
}

/// The line that closes the log.
pub open spec fn final_text(balance: int) -> Seq<char> {
    "Saldo final da conta: "@ + decimal(balance)
}

/// The one-character text of a decimal digit.
fn digit_str(d: u32) -> (text: &'static str)
    requires
        d < 10,
    ensures
        text@ == seq![digit(d as int)],
{
    proof {
        reveal_strlit("0");
        reveal_strlit("1");
        reveal_strlit("2");
        reveal_strlit("3");
        reveal_strlit("4");
        reveal_strlit("5");
        reveal_strlit("6");
        reveal_strlit("7");
        reveal_strlit("8");
        reveal_strlit("9");
    }
    match d {
        0 => "0",
        1 => "1",
        2 => "2",
        3 => "3",
        4 => "4",
        5 => "5",
        6 => "6",
        7 => "7",
        8 => "8",
        _ => "9",
    }
}

/// Appends the decimal digits of `n` to `text`.
fn push_digits(text: &mut String, n: u32)
    ensures
        final(text)@ == old(text)@ + decimal_digits(n as nat),
    decreases n,
{
    if n >= 10 {
        push_digits(text, n / 10);
    }
    text.append(digit_str(n % 10));
}

/// Appends the decimal text of `n` to `text`.
fn push_decimal(text: &mut String, n: i32)
    ensures
        final(text)@ == old(text)@ + decimal(n as int),
{
    if n < 0 {
        proof {
            reveal_strlit("-");
        }
        text.append("-");
        let magnitude: i64 = -(n as i64);
        push_digits(text, magnitude as u32);
    } else {
        push_digits(text, n as u32);
    }
}

/// Writes `n` in decimal.
pub fn decimal_string(n: i32) -> (text: String)
    ensures
        text@ == decimal(n as int),
{
    let mut text = String::new();
    push_decimal(&mut text, n);
    text
}

impl Event {
    /// The log line of this event.
    pub fn line(&self) -> (text: String)
        ensures
            text@ == event_text(self@),
    {
        let (label, amount, balance): (&str, i32, i32) = match *self {
            Event::Credited { amount, balance } => ("Creditado: ", amount, balance),
            Event::Debited { amount, balance } => ("Debitado: ", amount, balance),
            Event::Rejected { amount, balance } => (
                "Saldo insuficiente para debitar: ",
                amount,
                balance,
            ),
        };
        let mut text = String::new();
        text.append(label);
        push_decimal(&mut text, amount);
        text.append(" | Saldo atual: ");
        push_decimal(&mut text, balance);
        text
    }
}

/// The line that reports the balance at the end of a run.
pub fn final_line(saldo: i32) -> (text: String)
    ensures
        text@ == final_text(saldo as int),
{
    let mut text = String::new();
    text.append("Saldo final da conta: ");
    push_decimal(&mut text, saldo);
    text
}

} // verus!
