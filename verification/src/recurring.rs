//! Recurring escrows: a total amount paid out in equal cycles.

use vstd::prelude::*;
use crate::address::Address;
use crate::text::{decimal, decimal_text, joined};
use crate::windows::spec_floor_sub;

verus! {

/// Quotient of `a` by `b > 0`, rounded toward zero (as `/` on `i128` rounds).
pub open spec fn trunc_div(a: int, b: int) -> int {
    if a >= 0 {
        a / b
    } else {
        -((-a) / b)
    }
}

/// Entry of a recurring escrow's action history.
#[derive(Clone, Copy, Debug, PartialEq, Eq, Structural)]
pub enum RecurringEscrowAction {
    Created,
    CycleReleased,
    Cancelled,
}

/// Overall status of a recurring escrow.
#[derive(Clone, Copy, Debug, PartialEq, Eq, Structural)]
pub enum RecurringEscrowStatus {
    Active,
    Cancelled,
    Completed,
}

/// Model of a recurring escrow.
#[derive(Clone, Debug)]
pub struct RecurringEscrowModel {
    pub id: u64,
    pub buyer: Address,
    pub artisan: Address,
    pub token: Address,
    pub total_amount: i128,
    pub frequency: u64,
    pub duration: u32,
    pub current_cycle: u64,
    pub released_amount: i128,
    pub last_release_time: u64,
    pub is_active: bool,
    pub action_history: Vec<RecurringEscrowAction>,
}

impl RecurringEscrowModel {
    /// `self` and `other` are the same agreement: parties, token, total, frequency and duration agree.
    pub open spec fn same_terms(self, other: RecurringEscrowModel) -> bool {
        &&& self.id == other.id
        &&& self.buyer == other.buyer
        &&& self.artisan == other.artisan
        &&& self.token == other.token
        &&& self.total_amount == other.total_amount
        &&& self.frequency == other.frequency
        &&& self.duration == other.duration
    }

    /// The amount paid out per cycle (`duration > 0`).
    pub open spec fn cycle_share(self) -> int {
        trunc_div(self.total_amount as int, self.duration as int)
    }

    /// Seconds since the last payout, as seen at `now` (zero if `now` is earlier).
    pub open spec fn time_since_last(self, now: u64) -> u64 {
        spec_floor_sub(now, self.last_release_time)
    }

    /// The next cycle is not yet due at `now`.
    pub open spec fn too_early(self, now: u64) -> bool {
        self.current_cycle > 0 && self.time_since_last(now) < self.frequency
    }

    /// `try_release_next_cycle(now)` pays out a cycle.
    pub open spec fn release_proceeds(self, now: u64) -> bool {
        &&& self.is_active
        &&& self.current_cycle < self.duration
        &&& !self.too_early(now)
    }

    /// The message with which `try_release_next_cycle(now)` fails.
    pub open spec fn release_rejection(self, now: u64) -> Seq<char> {
        if !self.is_active {
            "recurring escrow not active"@
        } else if self.current_cycle >= self.duration {
            "all cycles already released"@
        } else {
            "frequency not yet elapsed: "@ + decimal(self.time_since_last(now) as nat) + " < "@
                + decimal(self.frequency as nat) + " seconds needed"@
        }
    }

    /// `new` is `self` after `try_release_next_cycle(now)`: a due cycle is paid
    /// out; an escrow whose cycles are all paid is switched off; otherwise
    /// nothing changes.
    pub open spec fn after_release_attempt(self, new: RecurringEscrowModel, now: u64) -> bool {
        if self.release_proceeds(now) {
            &&& new.same_terms(self)
            &&& new.released_amount == self.released_amount + self.cycle_share()
            &&& new.current_cycle == self.current_cycle + 1
            &&& new.last_release_time == now
            &&& new.action_history@ == self.action_history@.push(
                RecurringEscrowAction::CycleReleased,
            )
            &&& new.is_active == (self.current_cycle + 1 < self.duration)
        } else if self.is_active && self.current_cycle >= self.duration {
            new == (RecurringEscrowModel { is_active: false, ..self })
        } else {
            new == self
        }
    }

    /// `new` is `self` after `try_cancel`: an active escrow is switched off and
    /// the cancellation recorded; an inactive one is left alone.
    pub open spec fn after_cancel(self, new: RecurringEscrowModel) -> bool {
        if self.is_active {
            &&& new.same_terms(self)
            &&& !new.is_active
            &&& new.current_cycle == self.current_cycle
            &&& new.released_amount == self.released_amount
            &&& new.last_release_time == self.last_release_time
            &&& new.action_history@ == self.action_history@.push(RecurringEscrowAction::Cancelled)
        } else {
            new == self
        }
    }

    /// `r` is a new, active schedule with these terms: nothing paid yet, a zero
    /// duration counted as one cycle, and only its creation on record.
    pub open spec fn is_new_schedule(
        r: RecurringEscrowModel,
        id: u64,
        buyer: Address,
        artisan: Address,
        token: Address,
        total_amount: i128,
        frequency: u64,
        duration: u32,
    ) -> bool {
        &&& r.id == id
        &&& r.buyer == buyer
        &&& r.artisan == artisan
        &&& r.token == token
        &&& r.total_amount == total_amount
        &&& r.frequency == frequency
        &&& r.duration == (if duration == 0 { 1 } else { duration })
        &&& r.current_cycle == 0
        &&& r.released_amount == 0
        &&& r.last_release_time == 0
        &&& r.is_active
        &&& r.action_history@ == seq![RecurringEscrowAction::Created]
    }

    /// A new, active recurring escrow; a zero duration counts as one cycle.
    pub fn new(
        id: u64,
        buyer: Address,
        artisan: Address,
        token: Address,
        total_amount: i128,
        frequency: u64,
        duration: u32,
    ) -> (r: Self)
        ensures
            r.id == id,
            r.buyer == buyer,
            r.artisan == artisan,
            r.token == token,
            r.total_amount == total_amount,
            r.frequency == frequency,
            r.duration == (if duration == 0 { 1 } else { duration }),
            r.current_cycle == 0,
            r.released_amount == 0,
            r.last_release_time == 0,
            r.is_active,
            r.action_history@ == seq![RecurringEscrowAction::Created],
            RecurringEscrowModel::is_new_schedule(
                r,
                id,
                buyer,
                artisan,
                token,
                total_amount,
                frequency,
                duration,
            ),
    {
        let r = RecurringEscrowModel {
            id,
            buyer,
            artisan,
            token,
            total_amount,
            frequency,
            duration: if duration < 1 { 1 } else { duration },
            current_cycle: 0,
            released_amount: 0,
            last_release_time: 0,
            is_active: true,
            action_history: vec![RecurringEscrowAction::Created],
        };
        proof {
            assert(r.action_history@ =~= seq![RecurringEscrowAction::Created]);
        }
        r
    }

    /// Pay out the next cycle's share, if one is due at `now`.
    pub fn try_release_next_cycle(&mut self, now: u64) -> (r: Result<i128, String>)
        requires
            old(self).release_proceeds(now) ==> i128::MIN <= old(self).released_amount + old(
                self,
            ).cycle_share() <= i128::MAX,
        ensures
            old(self).after_release_attempt(*final(self), now),
            old(self).release_proceeds(now) ==> r == Ok::<i128, String>(
                old(self).cycle_share() as i128,
            ),
            !old(self).release_proceeds(now) ==> (r matches Err(m) && m@ == old(
                self,
            ).release_rejection(now)),
    {
        if !self.is_active {
            return Err(String::from_str("recurring escrow not active"));
        }
        if self.current_cycle >= self.duration as u64 {
            self.is_active = false;
            return Err(String::from_str("all cycles already released"));
        }
        let time_since_last: u64 = now.saturating_sub(self.last_release_time);
        if self.current_cycle > 0 && time_since_last < self.frequency {
            let mut message = joined(
                "frequency not yet elapsed: ",
                decimal_text(time_since_last).as_str(),
            );
            message.append(" < ");
            message.append(decimal_text(self.frequency).as_str());
            message.append(" seconds needed");
            return Err(message);
        }
        let per_cycle_amount: i128 = self.total_amount / (self.duration as i128);
        let cycle_share: i128 = per_cycle_amount;

        self.released_amount = self.released_amount + cycle_share;
        self.current_cycle = self.current_cycle + 1;
        self.last_release_time = now;
        self.action_history.push(RecurringEscrowAction::CycleReleased);

        if self.current_cycle >= self.duration as u64 {
            self.is_active = false;
        }
        Ok(cycle_share)
    }

    /// Cancel the recurring escrow, returning the amount not yet paid out.
    pub fn try_cancel(&mut self) -> (r: i128)
        requires
            i128::MIN <= old(self).total_amount - old(self).released_amount <= i128::MAX,
        ensures
            r == old(self).total_amount - old(self).released_amount,
            old(self).after_cancel(*final(self)),
    {
        if !self.is_active {
            let remaining: i128 = self.total_amount - self.released_amount;
            return remaining;
        }
        self.is_active = false;
        let remaining: i128 = self.total_amount - self.released_amount;
        self.action_history.push(RecurringEscrowAction::Cancelled);
        remaining
    }

    /// The amount that should have been paid out after the cycles released so far:
    /// `current_cycle * total_amount / duration`, computed in `i128` and rounded toward zero.
    pub fn expected_released(&self) -> (r: i128)
        requires
            self.duration != 0 ==> i128::MIN <= self.current_cycle * self.total_amount
                <= i128::MAX,
        ensures
            self.duration == 0 ==> r == self.released_amount,
            self.duration != 0 ==> r == trunc_div(
                self.current_cycle * self.total_amount,
                self.duration as int,
            ),
    {
        if self.duration as i128 == 0 {
            return self.released_amount;
        }
        (self.current_cycle as i128 * self.total_amount) / self.duration as i128
    }
}

} // verus!
