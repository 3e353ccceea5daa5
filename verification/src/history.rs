//! Whole lists of transactions: what an account holds and reports after a
//! list was applied in a given order, and how far the order matters.
//!
//! Under mutual exclusion a concurrent run applies its transactions one
//! after another in some order, so what is proved here of every order holds
//! of every such run.

use crate::account::{ContaBancaria, Event, EventView};
use crate::driver::{applicable, apply_transaction, balance_after, event_of, is_applicable};
use vstd::prelude::*;
use vstd::seq_lib::{group_to_multiset_ensures, to_multiset_len, to_multiset_remove};

verus! {

/// The balance after `transactions` were applied in order, starting from
/// `balance`.
pub open spec fn run(balance: int, transactions: Seq<i32>) -> int
    decreases transactions.len(),
{
    if transactions.len() == 0 {
        balance
    } else {
        balance_after(run(balance, transactions.drop_last()), transactions.last())
    }
}

/// The events of such a run: the `i`-th is what the `i`-th transaction
/// produces at the balance that the ones before it left behind.
pub open spec fn events(balance: int, transactions: Seq<i32>) -> Seq<EventView> {
    Seq::new(
        transactions.len(),
        |i: int| event_of(run(balance, transactions.take(i)), transactions[i]),
    )
}

/// Every transaction of the run can be applied where it stands.
pub open spec fn all_applicable(balance: int, transactions: Seq<i32>) -> bool {
    forall|i: int|
        #![trigger transactions.take(i)]
        0 <= i < transactions.len() ==> applicable(
            run(balance, transactions.take(i)),
            transactions[i],
        )
}

/// `transaction` is a debit that `balance` does not cover.
pub open spec fn rejected(balance: int, transaction: i32) -> bool {
    transaction <= 0 && balance < -transaction
}

/// No debit of the run is turned down.
pub open spec fn none_rejected(balance: int, transactions: Seq<i32>) -> bool {
    forall|i: int|
        #![trigger transactions.take(i)]
        0 <= i < transactions.len() ==> !rejected(
            run(balance, transactions.take(i)),
            transactions[i],
        )
}

/// The signed total of the transactions.
pub open spec fn sum(transactions: Seq<i32>) -> int
    decreases transactions.len(),
{
    if transactions.len() == 0 {
        0
    } else {
        sum(transactions.drop_last()) + transactions.last()
    }
}

/// Applies `transactions` to `conta` in the order listed and returns the
/// event of each, in that order.
pub fn apply_all(conta: &mut ContaBancaria, transactions: &[i32]) -> (log: Vec<Event>)
    requires
        all_applicable(old(conta)@, transactions@),
    ensures
        final(conta)@ == run(old(conta)@, transactions@),
        log@.map_values(|e: Event| e@) == events(old(conta)@, transactions@),
{
    let mut log: Vec<Event> = Vec::new();
    let mut done: usize = 0;
    while done < transactions.len()
        invariant
            done <= transactions.len(),
            all_applicable(old(conta)@, transactions@),
            conta@ == run(old(conta)@, transactions@.take(done as int)),
            log@.len() == done,
            forall|k: int|
                0 <= k < done ==> (#[trigger] log@[k])@ == events(old(conta)@, transactions@)[k],
        decreases transactions.len() - done,
    {
        proof {
            assert(transactions@.take(done + 1).drop_last() == transactions@.take(done as int));
        }
        let event = apply_transaction(conta, transactions[done]);
        log.push(event);
        done += 1;
    }
    proof {
        assert(transactions@.take(done as int) == transactions@);
    }
    log
}

/// Tests whether `transactions` can be applied to `conta` in the order
/// listed; the account is not touched.
pub fn can_apply_all(conta: &ContaBancaria, transactions: &[i32]) -> (ok: bool)
    ensures
        ok == all_applicable(conta@, transactions@),
{
    let mut trial = ContaBancaria { saldo: conta.saldo };
    let mut done: usize = 0;
    while done < transactions.len()
        invariant
            done <= transactions.len(),
            trial@ == run(conta@, transactions@.take(done as int)),
            forall|k: int|
                #![trigger transactions@.take(k)]
                0 <= k < done ==> applicable(
                    run(conta@, transactions@.take(k)),
                    transactions@[k],
                ),
        decreases transactions.len() - done,
    {
        if !is_applicable(&trial, transactions[done]) {
            return false;
        }
        proof {
            assert(transactions@.take(done + 1).drop_last() == transactions@.take(done as int));
        }
        apply_transaction(&mut trial, transactions[done]);
        done += 1;
    }
    true
}

/// Taking one transaction out of a list takes its amount out of the total.
proof fn lemma_sum_remove(transactions: Seq<i32>, i: int)
    requires
        0 <= i < transactions.len(),
    ensures
        sum(transactions) == sum(transactions.remove(i)) + transactions[i],
    decreases transactions.len(),
{
    if i < transactions.len() - 1 {
        lemma_sum_remove(transactions.drop_last(), i);
        assert(transactions.remove(i).drop_last() == transactions.drop_last().remove(i));
    }
}

/// The total of a list does not depend on the order of its transactions:
/// two lists that hold the same transactions, each as often as the other,
/// have the same total.
pub proof fn lemma_sum_ignores_order(first: Seq<i32>, second: Seq<i32>)
    requires
        first.to_multiset() == second.to_multiset(),
    ensures
        sum(first) == sum(second),
    decreases first.len(),
{
    broadcast use group_to_multiset_ensures;

    if first.len() == 0 {
        to_multiset_len(first);
        to_multiset_len(second);
    } else {
        let last = first.last();
        assert(first.to_multiset().count(last) > 0);
        let at = second.index_of(last);
        to_multiset_remove(first, first.len() - 1);
        to_multiset_remove(second, at);
        lemma_sum_ignores_order(first.drop_last(), second.remove(at));
        lemma_sum_remove(second, at);
    }
}

/// A run in which no debit is turned down ends at the starting balance plus
/// the total of its transactions.
pub proof fn lemma_run_without_rejection(balance: int, transactions: Seq<i32>)
    requires
        none_rejected(balance, transactions),
    ensures
        run(balance, transactions) == balance + sum(transactions),
    decreases transactions.len(),
{
    if transactions.len() > 0 {
        let before = transactions.drop_last();
        assert forall|i: int| 0 <= i < before.len() implies !rejected(
            run(balance, #[trigger] before.take(i)),
            before[i],
        ) by {
            assert(before.take(i) == transactions.take(i));
        }
        lemma_run_without_rejection(balance, before);
    }
}

/// Credits commute: whatever the order in which a list of credits is
/// applied, with no debit among them, the balance ends at the starting
/// balance plus the total of the credits.
pub proof fn lemma_credits_commute(balance: int, credits: Seq<i32>, reordered: Seq<i32>)
    requires
        forall|i: int| 0 <= i < credits.len() ==> credits[i] > 0,
        reordered.to_multiset() == credits.to_multiset(),
    ensures
        run(balance, credits) == balance + sum(credits),
        run(balance, reordered) == balance + sum(credits),
{
    broadcast use group_to_multiset_ensures;

    assert forall|i: int| 0 <= i < reordered.len() implies reordered[i] > 0 by {
        assert(credits.to_multiset().count(reordered[i]) > 0);
    }
    lemma_run_without_rejection(balance, credits);
    lemma_run_without_rejection(balance, reordered);
    lemma_sum_ignores_order(reordered, credits);
}

/// Two orders of the same transactions end at the same balance, the starting
/// balance plus their total, whenever neither order has a debit turned down.
pub proof fn lemma_order_is_immaterial_without_rejection(
    balance: int,
    first: Seq<i32>,
    second: Seq<i32>,
)
    requires
        first.to_multiset() == second.to_multiset(),
        none_rejected(balance, first),
        none_rejected(balance, second),
    ensures
        run(balance, first) == balance + sum(first),
        run(balance, second) == run(balance, first),
{
    lemma_run_without_rejection(balance, first);
    lemma_run_without_rejection(balance, second);
    lemma_sum_ignores_order(first, second);
}

/// Rejection changes nothing, however often it is repeated: a run made only
/// of debits that each exceed the starting balance leaves that balance as it
/// was, and every one of them is reported as rejected, with the amount asked
/// for and the unchanged balance.
pub proof fn lemma_rejection_is_idempotent(balance: int, debits: Seq<i32>)
    requires
        forall|i: int| 0 <= i < debits.len() ==> rejected(balance, #[trigger] debits[i]),
    ensures
        run(balance, debits) == balance,
        forall|i: int|
            0 <= i < debits.len() ==> #[trigger] events(balance, debits)[i] == (
            EventView::Rejected { amount: -debits[i], balance: balance }),
    decreases debits.len(),
{
    if debits.len() > 0 {
        let before = debits.drop_last();
        lemma_rejection_is_idempotent(balance, before);
        assert forall|i: int| 0 <= i < debits.len() implies #[trigger] events(balance, debits)[i]
            == (EventView::Rejected { amount: -debits[i], balance: balance }) by {
            if i < before.len() {
                assert(before.take(i) == debits.take(i));
                assert(events(balance, before)[i] == events(balance, debits)[i]);
            } else {
            }
        }
    }
}

} // verus!
