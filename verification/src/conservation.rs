//! Running totals of what the platform owes, checked against what was minted.

use vstd::prelude::*;

verus! {

/// Running totals of escrowed, staked, recurring and fee amounts.
#[derive(Clone, Copy, Debug, PartialEq, Eq, Structural)]
pub struct ConservationInvariants {
    pub total_escrow_amount: i128,
    pub total_staked: i128,
    pub total_recurring: i128,
    pub total_fees: i128,
}

/// `x` is representable as an `i128`.
pub open spec fn fits_i128(x: int) -> bool {
    i128::MIN <= x <= i128::MAX
}

impl ConservationInvariants {
    /// Everything the platform owes: the sum of the four totals.
    pub open spec fn obligations(self) -> int {
        self.total_escrow_amount + self.total_staked + self.total_recurring + self.total_fees
    }

    /// The running sums that `check_invariant` forms, left to right, all fit in an `i128`.
    pub open spec fn sums_fit(self) -> bool {
        &&& fits_i128(self.total_escrow_amount + self.total_staked)
        &&& fits_i128(self.total_escrow_amount + self.total_staked + self.total_recurring)
        &&& fits_i128(self.obligations())
    }

    /// The totals with `delta` added to the escrow total.
    pub open spec fn escrow_shifted(self, delta: int) -> ConservationInvariants {
        ConservationInvariants { total_escrow_amount: (self.total_escrow_amount + delta) as i128, ..self }
    }

    /// The totals with `delta` added to the staked total.
    pub open spec fn staked_shifted(self, delta: int) -> ConservationInvariants {
        ConservationInvariants { total_staked: (self.total_staked + delta) as i128, ..self }
    }

    /// The totals with `delta` added to the recurring total.
    pub open spec fn recurring_shifted(self, delta: int) -> ConservationInvariants {
        ConservationInvariants { total_recurring: (self.total_recurring + delta) as i128, ..self }
    }

    /// The totals with `delta` added to the fees total.
    pub open spec fn fees_shifted(self, delta: int) -> ConservationInvariants {
        ConservationInvariants { total_fees: (self.total_fees + delta) as i128, ..self }
    }

    /// All totals zero.
    pub fn new() -> (r: Self)
        ensures
            r == (ConservationInvariants {
                total_escrow_amount: 0,
                total_staked: 0,
                total_recurring: 0,
                total_fees: 0,
            }),
    {
        ConservationInvariants {
            total_escrow_amount: 0,
            total_staked: 0,
            total_recurring: 0,
            total_fees: 0,
        }
    }

    /// Count `amount` into the escrow total.
    pub fn add_escrow(&mut self, amount: i128)
        requires
            fits_i128(old(self).total_escrow_amount + amount),
        ensures
            *final(self) == old(self).escrow_shifted(amount as int),
    {
        self.total_escrow_amount = self.total_escrow_amount + amount;
    }

    /// Take `amount` out of the escrow total.
    pub fn remove_escrow(&mut self, amount: i128)
        requires
            fits_i128(old(self).total_escrow_amount - amount),
        ensures
            *final(self) == old(self).escrow_shifted(-(amount as int)),
    {
        self.total_escrow_amount = self.total_escrow_amount - amount;
    }

    /// Count `amount` into the staked total.
    pub fn add_staked(&mut self, amount: i128)
        requires
            fits_i128(old(self).total_staked + amount),
        ensures
            *final(self) == old(self).staked_shifted(amount as int),
    {
        self.total_staked = self.total_staked + amount;
    }

    /// Take `amount` out of the staked total.
    pub fn remove_staked(&mut self, amount: i128)
        requires
            fits_i128(old(self).total_staked - amount),
        ensures
            *final(self) == old(self).staked_shifted(-(amount as int)),
    {
        self.total_staked = self.total_staked - amount;
    }

    /// Count `amount` into the recurring total.
    pub fn add_recurring(&mut self, amount: i128)
        requires
            fits_i128(old(self).total_recurring + amount),
        ensures
            *final(self) == old(self).recurring_shifted(amount as int),
    {
        self.total_recurring = self.total_recurring + amount;
    }

    /// Take `amount` out of the recurring total.
    pub fn remove_recurring(&mut self, amount: i128)
        requires
            fits_i128(old(self).total_recurring - amount),
        ensures
            *final(self) == old(self).recurring_shifted(-(amount as int)),
    {
        self.total_recurring = self.total_recurring - amount;
    }

    /// Count `amount` into the fee total.
    pub fn add_fees(&mut self, amount: i128)
        requires
            fits_i128(old(self).total_fees + amount),
        ensures
            *final(self) == old(self).fees_shifted(amount as int),
    {
        self.total_fees = self.total_fees + amount;
    }

    /// Whether everything owed is covered by `total_minted`.
    pub fn check_invariant(&self, total_minted: i128) -> (r: bool)
        requires
            self.sums_fit(),
        ensures
            r == (self.obligations() <= total_minted),
    {
        let total_obligations: i128 = self.total_escrow_amount + self.total_staked + self.total_recurring
            + self.total_fees;
        total_obligations <= total_minted
    }
}

} // verus!
