//! Artisan stakes: deposits locked for a cooldown, then withdrawable.

use vstd::prelude::*;
use crate::address::Address;
use crate::time_policy::STAKE_COOLDOWN;
use crate::windows::{is_window_active, spec_deadline};

verus! {

/// Status of a stake.
#[derive(Clone, Copy, Debug, PartialEq, Eq, Structural)]
pub enum StakeStatus {
    Idle,
    Staked,
    Cooldown,
    Unstaked,
}

/// Model of one artisan's stake in one token.
#[derive(Clone, Debug)]
pub struct StakeModel {
    pub artisan: Address,
    pub token: Address,
    pub staked_amount: i128,
    pub status: StakeStatus,
    pub stake_time: u64,
    pub cooldown_end: u64,
    pub unstaked_amount: i128,
}

/// The moment at which a stake model is created.
pub const STAKE_EPOCH: u64 = 1_711_368_000;

impl StakeModel {
    /// The amount still staked.
    pub open spec fn remaining(self) -> int {
        self.staked_amount - self.unstaked_amount
    }

    /// `amount` may be withdrawn: it is positive and at most what remains staked.
    pub open spec fn valid_withdrawal(self, amount: i128) -> bool {
        0 < amount <= self.remaining()
    }

    /// The cooldown after the last stake is still running at `now`.
    pub open spec fn cooling_down(self, now: u64) -> bool {
        now < spec_deadline(self.stake_time, STAKE_COOLDOWN)
    }

    /// The stake after `amount` more was staked at `now`.
    pub open spec fn staked(self, amount: i128, now: u64) -> StakeModel {
        StakeModel {
            staked_amount: (self.staked_amount + amount) as i128,
            status: StakeStatus::Staked,
            stake_time: now,
            cooldown_end: spec_deadline(now, STAKE_COOLDOWN),
            ..self
        }
    }

    /// `try_unstake(now, amount)` succeeds.
    pub open spec fn can_unstake(self, now: u64, amount: i128) -> bool {
        self.valid_withdrawal(amount) && !self.cooling_down(now)
    }

    /// The stake after `amount` was withdrawn through `try_unstake`.
    pub open spec fn withdrawn(self, amount: i128) -> StakeModel {
        StakeModel {
            unstaked_amount: (self.unstaked_amount + amount) as i128,
            status: StakeStatus::Unstaked,
            ..self
        }
    }

    /// The stake after `amount` was withdrawn through `try_unstake_bypass`.
    pub open spec fn withdrawn_early(self, amount: i128) -> StakeModel {
        StakeModel {
            unstaked_amount: (self.unstaked_amount + amount) as i128,
            status: if self.remaining() == amount {
                StakeStatus::Unstaked
            } else {
                self.status
            },
            ..self
        }
    }

    /// The message with which `try_unstake(now, amount)` fails.
    pub open spec fn unstake_rejection(self, now: u64, amount: i128) -> Seq<char> {
        if !self.valid_withdrawal(amount) {
            "invalid unstake amount"@
        } else {
            "stake cooldown has not yet elapsed"@
        }
    }

    /// An idle stake of `artisan` in `token`, with nothing staked.
    pub open spec fn fresh(artisan: Address, token: Address) -> StakeModel {
        StakeModel {
            artisan,
            token,
            staked_amount: 0,
            status: StakeStatus::Idle,
            stake_time: STAKE_EPOCH,
            cooldown_end: STAKE_EPOCH,
            unstaked_amount: 0,
        }
    }

    /// An idle stake of `artisan` in `token`, with nothing staked.
    pub fn new(artisan: Address, token: Address) -> (r: Self)
        ensures
            r == StakeModel::fresh(artisan, token),
    {
        let now: u64 = STAKE_EPOCH;
        StakeModel {
            artisan,
            token,
            staked_amount: 0,
            status: StakeStatus::Idle,
            stake_time: now,
            cooldown_end: now,
            unstaked_amount: 0,
        }
    }

    /// Add `amount` to the stake at `now`, restarting the cooldown.
    pub fn try_stake(&mut self, amount: i128, now: u64) -> (r: Result<(), String>)
        requires
            amount > 0 ==> old(self).staked_amount + amount <= i128::MAX,
        ensures
            amount <= 0 ==> *final(self) == *old(self) && (r matches Err(m) && m@
                == "stake amount must be positive"@),
            amount > 0 ==> r is Ok && *final(self) == old(self).staked(amount, now),
            amount > 0 ==> final(self).staked_amount == old(self).staked_amount + amount
                && final(self).unstaked_amount == old(self).unstaked_amount,
    {
        if amount <= 0 {
            return Err(String::from_str("stake amount must be positive"));
        }
        self.staked_amount = self.staked_amount + amount;
        self.status = StakeStatus::Staked;
        self.stake_time = now;
        self.cooldown_end = now.saturating_add(STAKE_COOLDOWN);
        Ok(())
    }

    /// Withdraw `amount` at `now`, once the cooldown after the last stake has passed.
    /// A successful withdrawal leaves the stake in status `Unstaked`.
    pub fn try_unstake(&mut self, now: u64, amount: i128) -> (r: Result<i128, String>)
        requires
            amount > 0 ==> i128::MIN <= old(self).remaining() <= i128::MAX,
        ensures
            !old(self).valid_withdrawal(amount) ==> *final(self) == *old(self) && (r matches Err(m)
                && m@ == "invalid unstake amount"@),
            old(self).valid_withdrawal(amount) && old(self).cooling_down(now) ==> *final(self)
                == *old(self) && (r matches Err(m) && m@ == "stake cooldown has not yet elapsed"@),
            old(self).can_unstake(now, amount) ==> r == Ok::<i128, String>(amount) && *final(self)
                == old(self).withdrawn(amount),
            r matches Err(m) ==> m@ == old(self).unstake_rejection(now, amount),
    {
        if amount <= 0 || amount > self.staked_amount - self.unstaked_amount {
            return Err(String::from_str("invalid unstake amount"));
        }
        if is_window_active(now, self.stake_time, STAKE_COOLDOWN) {
            return Err(String::from_str("stake cooldown has not yet elapsed"));
        }
        self.unstaked_amount = self.unstaked_amount + amount;
        self.status = StakeStatus::Unstaked;
        Ok(amount)
    }

    /// Withdraw `amount` without waiting for the cooldown; the stake becomes
    /// `Unstaked` once nothing remains.
    pub fn try_unstake_bypass(&mut self, amount: i128) -> (r: Result<i128, String>)
        requires
            amount > 0 ==> i128::MIN <= old(self).remaining() <= i128::MAX,
        ensures
            !old(self).valid_withdrawal(amount) ==> *final(self) == *old(self) && (r matches Err(m)
                && m@ == "invalid unstake amount"@),
            old(self).valid_withdrawal(amount) ==> r == Ok::<i128, String>(amount) && *final(self)
                == old(self).withdrawn_early(amount),
    {
        if amount <= 0 || amount > self.staked_amount - self.unstaked_amount {
            return Err(String::from_str("invalid unstake amount"));
        }
        self.unstaked_amount = self.unstaked_amount + amount;
        let remaining: i128 = self.staked_amount - self.unstaked_amount;
        if remaining == 0 {
            self.status = StakeStatus::Unstaked;
        }
        Ok(amount)
    }
}

} // verus!
