//! What the simulation driver decides: the run's constants, how long a unit
//! of work waits before it touches the account, and which operation a signed
//! transaction becomes.

use crate::account::{ContaBancaria, Event, EventView};
use rand::Rng;
use vstd::prelude::*;

verus! {

/// The balance with which the reference run opens the account.
pub const INITIAL_BALANCE: i32 = 1000;

/// Every delay drawn for a unit of work is below this many seconds.
pub const MAX_DELAY: u64 = 10;

/// The transactions of the reference run, in the order in which they are
/// declared. A positive amount is a credit, any other a debit of its
/// absolute value.
pub fn reference_transactions() -> (list: Vec<i32>)
    ensures
        list@ == seq![100i32, -50i32, 200i32, -150i32, 300i32, -200i32, 150i32, -100i32, 50i32, -50i32],
{
    vec![100i32, -50i32, 200i32, -150i32, 300i32, -200i32, 150i32, -100i32, 50i32, -50i32]
}

/// `rand::thread_rng().gen_range(0..limit)`: a number drawn uniformly from
/// the half-open range `0..limit` by the calling thread's generator.
///
/// `gen_range` panics on an empty range, so `limit` must be positive. The
/// contract claims only that the number lies in the range; which number comes
/// is chance, and two calls may differ. `thread_rng` itself panics where the
/// operating system gives the generator no seed, which no argument decides.
#[verifier::external_body]
fn random_below(limit: u64) -> (drawn: u64)
    requires
        limit > 0,
    ensures
        drawn < limit,
{
    rand::thread_rng().gen_range(0..limit)
}

/// Draws the number of seconds that a unit of work waits before it asks for
/// the account.
pub fn draw_delay() -> (delay: u64)
    ensures
        delay < MAX_DELAY,
{
    random_below(MAX_DELAY)
}

/// Whether `transaction` can be applied at `balance` without leaving `i32`:
/// a credit must not carry the balance past `i32::MAX`, and a debit must have
/// an absolute value, which `i32::MIN` has not.
pub open spec fn applicable(balance: int, transaction: i32) -> bool {
    if transaction > 0 {
        balance + transaction <= i32::MAX
    } else {
        transaction > i32::MIN
    }
}

/// The balance that `transaction` leaves behind at `balance`: a credit is
/// always added, a debit is taken only if the balance covers it.
pub open spec fn balance_after(balance: int, transaction: i32) -> int {
    if transaction > 0 || balance >= -transaction {
        balance + transaction
    } else {
        balance
    }
}

/// The event that `transaction` produces at `balance`.
pub open spec fn event_of(balance: int, transaction: i32) -> EventView {
    if transaction > 0 {
        EventView::Credited { amount: transaction as int, balance: balance + transaction }
    } else if balance >= -transaction {
        EventView::Debited { amount: -transaction, balance: balance + transaction }
    } else {
        EventView::Rejected { amount: -transaction, balance: balance }
    }
}

/// Tests whether `transaction` can be applied to `conta` as it stands.
pub fn is_applicable(conta: &ContaBancaria, transaction: i32) -> (ok: bool)
    ensures
        ok == applicable(conta@, transaction),
{
    if transaction > 0 {
        conta.saldo <= i32::MAX - transaction
    } else {
        transaction > i32::MIN
    }
}

/// Applies one signed transaction: a positive amount is credited, zero or a
/// negative amount is debited by its absolute value.
pub fn apply_transaction(conta: &mut ContaBancaria, transaction: i32) -> (event: Event)
    requires
        applicable(old(conta)@, transaction),
    ensures
        final(conta)@ == balance_after(old(conta)@, transaction),
        event@ == event_of(old(conta)@, transaction),
{
    if transaction > 0 {
        conta.creditar(transaction)
    } else {
        conta.debitar(-transaction)
    }
}

} // verus!
