//! A balance-holding capability and fee deduction.

use vstd::prelude::*;

verus! {

/// Anything that can report a balance, in the smallest currency unit.
pub trait Wallet {
    /// The balance as a function of the wallet's state.
    spec fn spec_balance(&self) -> u64;

    /// Reports the balance. Observing it changes nothing, so two reads of the
    /// same wallet agree.
    fn balance(&self) -> (amount: u64)
        ensures
            amount == self.spec_balance(),
    ;
}

/// A wallet that holds one fixed, confirmed amount.
pub struct TestWallet {
    pub confirmed: u64,
}

impl Wallet for TestWallet {
    open spec fn spec_balance(&self) -> u64 {
        self.confirmed
    }

    fn balance(&self) -> (amount: u64) {
        self.confirmed
    }
}

/// The balance that is left once `fee` has been taken from `balance`: the
/// difference, or zero where the fee exceeds the balance.
pub open spec fn balance_after_fee(balance: u64, fee: u64) -> u64 {
    if fee > balance {
        0
    } else {
        (balance - fee) as u64
    }
}

/// Deducts `fee` from `balance` in place. The balance never goes below zero:
/// a fee larger than the balance leaves exactly zero.
pub fn apply_fee(balance: &mut u64, fee: u64)
    ensures
        *final(balance) == balance_after_fee(*old(balance), fee),
        fee > *old(balance) ==> *final(balance) == 0,
        fee <= *old(balance) ==> *final(balance) == *old(balance) - fee,
{
    *balance = balance.saturating_sub(fee);
}

} // verus!
