//! Experience-point purse.
//!
//! A signed counter with a guarded spend: spending succeeds exactly when
//! the purse holds at least the requested amount, and a refused spend
//! leaves the purse unchanged.

use vstd::prelude::*;

verus! {

pub struct XpInventory {
    amount: i32,
}

impl XpInventory {
    pub closed spec fn spec_amount(self) -> int {
        self.amount as int
    }

    pub fn new() -> (inv: XpInventory)
        ensures
            inv.spec_amount() == 0,
    {
        XpInventory { amount: 0 }
    }

    pub fn collect_xp(&mut self, amount: i32)
        requires
            i32::MIN <= old(self).spec_amount() + amount <= i32::MAX,
        ensures
            final(self).spec_amount() == old(self).spec_amount() + amount,
    {
        self.amount += amount;
    }

    /// Spend succeeds exactly when the purse covers the amount; a refusal
    /// is reported as `false` and changes nothing.
    pub fn spend(&mut self, amount: i32) -> (ok: bool)
        requires
            old(self).spec_amount() - amount <= i32::MAX,
        ensures
            ok == (old(self).spec_amount() >= amount),
            ok ==> final(self).spec_amount() == old(self).spec_amount() - amount,
            !ok ==> final(self).spec_amount() == old(self).spec_amount(),
    {
        if self.amount >= amount {
            self.amount -= amount;
            return true;
        }
        false
    }

    pub fn amount(&self) -> (r: i32)
        ensures
            r == self.spec_amount(),
    {
        self.amount
    }
}

} // verus!
