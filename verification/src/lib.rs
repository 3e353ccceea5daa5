//! A bank account that is credited and debited by signed transactions.
//!
//! The account itself has no lock: every operation takes the account by
//! exclusive reference, and callers that share one account between threads
//! wrap it in a mutex of their own.

pub mod account;
pub mod driver;
pub mod history;
pub mod report;

pub use account::{ContaBancaria, Event, EventView};
pub use driver::{
    applicable, apply_transaction, balance_after, draw_delay, event_of, is_applicable,
    reference_transactions, INITIAL_BALANCE, MAX_DELAY,
};
pub use history::{all_applicable, apply_all, can_apply_all, events, none_rejected, rejected, run, sum};
pub use report::{decimal, decimal_digits, decimal_string, digit, event_text, final_line, final_text};
