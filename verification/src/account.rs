//! The account: one balance, credited without condition and debited only
//! when the funds suffice.

use vstd::prelude::*;

verus! {

/// A bank account. Its whole state is the balance, which may be any `i32`:
/// a debit beyond the balance is turned down by `debitar`, not by the type.
#[derive(Debug)]
pub struct ContaBancaria {
    pub saldo: i32,
}

/// What one operation on an account reports back.
#[derive(Clone, Copy, Debug, PartialEq, Eq, Structural)]
pub enum Event {
    /// `amount` was added; `balance` is the balance after the credit.
    Credited { amount: i32, balance: i32 },
    /// `amount` was taken; `balance` is the balance after the debit.
    Debited { amount: i32, balance: i32 },
    /// `amount` exceeded the funds; `balance` is the balance, left as it was.
    Rejected { amount: i32, balance: i32 },
}

/// An event over the mathematical integers.
pub enum EventView {
    Credited { amount: int, balance: int },
    Debited { amount: int, balance: int },
    Rejected { amount: int, balance: int },
}

impl View for ContaBancaria {
    type V = int;

    /// An account is its balance.
    open spec fn view(&self) -> int {
        self.saldo as int
    }
}

impl View for Event {
    type V = EventView;

    open spec fn view(&self) -> EventView {
        match *self {
            Event::Credited { amount, balance } => EventView::Credited {
                amount: amount as int,
                balance: balance as int,
            },
            Event::Debited { amount, balance } => EventView::Debited {
                amount: amount as int,
                balance: balance as int,
            },
            Event::Rejected { amount, balance } => EventView::Rejected {
                amount: amount as int,
                balance: balance as int,
            },
        }
    }
}

impl ContaBancaria {
    /// Adds `valor` to the balance and reports the credit with the new balance.
    ///
    /// The sum has to fit in an `i32`; nothing else is asked of `valor`.
    pub fn creditar(&mut self, valor: i32) -> (event: Event)
        requires
            i32::MIN <= old(self)@ + valor <= i32::MAX,
        ensures
            final(self)@ == old(self)@ + valor,
            event@ == (EventView::Credited { amount: valor as int, balance: old(self)@ + valor }),
    {
        self.saldo = self.saldo + valor;
        Event::Credited { amount: valor, balance: self.saldo }
    }

    /// Takes `valor` from the balance if the balance covers it, and reports
    /// the debit with the new balance; otherwise leaves the balance alone and
    /// reports the rejection with the amount asked for and the balance as it is.
    ///
    /// Where the debit goes through, the difference has to fit in an `i32`,
    /// which it does for every `valor` that is not negative.
    pub fn debitar(&mut self, valor: i32) -> (event: Event)
        requires
            old(self)@ >= valor ==> old(self)@ - valor <= i32::MAX,
        ensures
            old(self)@ >= valor ==> {
                &&& final(self)@ == old(self)@ - valor
                &&& event@ == (EventView::Debited {
                    amount: valor as int,
                    balance: old(self)@ - valor,
                })
            },
            old(self)@ < valor ==> {
                &&& final(self)@ == old(self)@
                &&& event@ == (EventView::Rejected { amount: valor as int, balance: old(self)@ })
            },
    {
        if self.saldo >= valor {
            self.saldo = self.saldo - valor;
            Event::Debited { amount: valor, balance: self.saldo }
        } else {
            Event::Rejected { amount: valor, balance: self.saldo }
        }
    }

    /// The current balance.
    pub fn consultar_saldo(&self) -> (saldo: i32)
        ensures
            saldo == self@,
    {
        self.saldo
    }
}

} // verus!
