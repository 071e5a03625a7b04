//! Transition operators over the aggregate state, one per lifecycle, as a
//! property-based test drives them.

use vstd::prelude::*;
use crate::address::{first_generated_contract, generated_address, Address};
use crate::conservation::{fits_i128, ConservationInvariants};
use crate::escrow::{EscrowModel, EscrowStatus};
use crate::seqs::first_where;
use crate::profile::{OnboardingProfileModel, ProfileStatusModel, UserRoleModel};
use crate::recurring::{RecurringEscrowAction, RecurringEscrowModel};
use crate::stake::StakeModel;
use crate::state::{escrow_with_id, profile_of, recurring_with_id, stake_of, ModelState};
use crate::text::joined;
use crate::time_policy::UNFUNDED_CANCEL_TIMEOUT;

verus! {

/// An operation on the escrows of a model state.
#[derive(Clone, Debug)]
pub enum EscrowOp {
    Create { id: u64, buyer: Address, seller: Address, amount: i128, window: u32 },
    Release { id: u64, now: u64 },
    Dispute { id: u64, reason: String, now: u64 },
    Resolve { id: u64, now: u64, release_to_seller: bool, admin: bool },
    Cancel { id: u64, now: u64 },
    ExtendWindow { id: u64, new_window: u32, now: u64 },
}

/// `e` is the escrow that `EscrowOp::Create` with these fields registers: funded,
/// active, created at time zero, in the token of a freshly generated contract address.
pub open spec fn is_created_escrow(
    e: EscrowModel,
    id: u64,
    buyer: Address,
    seller: Address,
    amount: i128,
    window: u32,
) -> bool {
    &&& e.id == id
    &&& e.buyer == buyer
    &&& e.seller == seller
    &&& e.token@ == first_generated_contract()
    &&& e.amount == amount
    &&& e.status == EscrowStatus::Active
    &&& e.release_window == window
    &&& e.created_at == 0
    &&& e.funded
    &&& e.funding_deadline == Some(UNFUNDED_CANCEL_TIMEOUT)
    &&& e.dispute_reason is None
    &&& e.dispute_initiated_at is None
}

/// `new` is `old` with escrow `i` replaced by `e`.
pub open spec fn escrow_replaced(old: ModelState, new: ModelState, i: int, e: EscrowModel) -> bool {
    &&& new.escrows@ == old.escrows@.update(i, e)
    &&& old.keeps_disputes(new)
    &&& old.keeps_recurring(new)
    &&& old.keeps_stakes(new)
    &&& old.keeps_profiles(new)
    &&& old.keeps_books(new)
}

/// Nothing changed and the operation failed with `message`.
pub open spec fn rejected(old: ModelState, new: ModelState, r: Result<(), String>, message: Seq<char>) -> bool {
    old.unchanged(new) && (r matches Err(m) && m@ == message)
}

/// The escrow total has room for the escrow that `op` would create.
pub open spec fn escrow_op_fits(state: ModelState, op: EscrowOp) -> bool {
    match op {
        EscrowOp::Create { amount, .. } => fits_i128(state.invariants.total_escrow_amount + amount),
        _ => true,
    }
}

/// What `execute_escrow_op(old, op)` does: `new` is the state afterwards and `r` the result.
/// Every operation but `Create` acts on the first escrow with the given id.
pub open spec fn escrow_op_outcome(old: ModelState, new: ModelState, op: EscrowOp, r: Result<(), String>) -> bool {
    match op {
        EscrowOp::Create { id, buyer, seller, amount, window } => {
            &&& r is Ok
            &&& new.escrows@.len() == old.escrows@.len() + 1
            &&& new.escrows@.drop_last() == old.escrows@
            &&& is_created_escrow(new.escrows@.last(), id, buyer, seller, amount, window)
            &&& new.invariants == (ConservationInvariants {
                total_escrow_amount: (old.invariants.total_escrow_amount + amount) as i128,
                ..old.invariants
            })
            &&& new.total_minted == old.total_minted
            &&& old.keeps_disputes(new)
            &&& old.keeps_recurring(new)
            &&& old.keeps_stakes(new)
            &&& old.keeps_profiles(new)
        },
        EscrowOp::Release { id, now } => match first_where(old.escrows@, escrow_with_id(id)) {
            None => rejected(old, new, r, "escrow not found"@),
            Some(i) => {
                let e = old.escrows@[i];
                if e.can_release(now) {
                    r is Ok && escrow_replaced(old, new, i, e.with_status(EscrowStatus::Released))
                } else {
                    rejected(old, new, r, "release failed: "@ + e.release_rejection(now))
                }
            },
        },
        EscrowOp::Dispute { id, reason, now } => match first_where(old.escrows@, escrow_with_id(id)) {
            None => rejected(old, new, r, "escrow not found"@),
            Some(i) => {
                let e = old.escrows@[i];
                if e.status == EscrowStatus::Active {
                    r is Ok && escrow_replaced(old, new, i, e.disputed(now, reason))
                } else {
                    rejected(old, new, r, "dispute initiation failed: "@ + e.dispute_rejection())
                }
            },
        },
        EscrowOp::Resolve { id, now, release_to_seller, admin } => match first_where(
            old.escrows@,
            escrow_with_id(id),
        ) {
            None => rejected(old, new, r, "escrow not found"@),
            Some(i) => {
                let e = old.escrows@[i];
                if e.can_resolve_dispute(now, admin) {
                    r is Ok && escrow_replaced(old, new, i, e.with_status(EscrowStatus::Resolved))
                } else {
                    rejected(
                        old,
                        new,
                        r,
                        "dispute resolution failed: "@ + e.resolve_rejection(now, admin),
                    )
                }
            },
        },
        EscrowOp::Cancel { id, now } => match first_where(old.escrows@, escrow_with_id(id)) {
            None => rejected(old, new, r, "escrow not found"@),
            Some(i) => {
                let e = old.escrows@[i];
                if e.can_cancel(now) {
                    r is Ok && escrow_replaced(old, new, i, e.cancelled())
                } else {
                    rejected(old, new, r, "cancel failed: "@ + e.cancel_rejection(now))
                }
            },
        },
        EscrowOp::ExtendWindow { id, new_window, now } => match first_where(
            old.escrows@,
            escrow_with_id(id),
        ) {
            None => rejected(old, new, r, "escrow not found"@),
            Some(i) => r is Ok && escrow_replaced(
                old,
                new,
                i,
                old.escrows@[i].window_extended(new_window, now),
            ),
        },
    }
}

/// Apply an escrow operation to the model state.
pub fn execute_escrow_op(state: &mut ModelState, op: EscrowOp) -> (r: Result<(), String>)
    requires
        escrow_op_fits(*old(state), op),
    ensures
        escrow_op_outcome(*old(state), *final(state), op, r),
        match op {
            EscrowOp::Create { id, buyer, seller, amount, window } => {
                let e = final(state).escrows@.last();
                &&& final(state).escrows@.len() == old(state).escrows@.len() + 1
                &&& e.id == id
                &&& e.buyer == buyer
                &&& e.seller == seller
                &&& e.amount == amount
                &&& e.release_window == window
                &&& final(state).invariants.total_escrow_amount == old(
                    state,
                ).invariants.total_escrow_amount + amount
            },
            _ => true,
        },
{
    match op {
        EscrowOp::Create { id, buyer, seller, amount, window } => {
            let escrow = EscrowModel::new(id, buyer, seller, generated_address(), amount, window, 0);
            state.add_escrow(escrow);
            proof {
                assert(state.escrows@.drop_last() =~= old(state).escrows@);
            }
            Ok(())
        },
        EscrowOp::Release { id, now } => {
            if let Some(i) = state.find_escrow(id) {
                match state.escrows[i].try_release(now) {
                    Ok(()) => {},
                    Err(e) => {
                        proof {
                            assert(state.escrows@ =~= old(state).escrows@);
                        }
                        return Err(joined("release failed: ", e.debug_string().as_str()));
                    },
                }
                Ok(())
            } else {
                Err(String::from_str("escrow not found"))
            }
        },
        EscrowOp::Dispute { id, reason, now } => {
            if let Some(i) = state.find_escrow(id) {
                match state.escrows[i].try_initiate_dispute(now, reason) {
                    Ok(()) => {},
                    Err(e) => {
                        proof {
                            assert(state.escrows@ =~= old(state).escrows@);
                        }
                        return Err(joined("dispute initiation failed: ", e.debug_string().as_str()));
                    },
                }
                Ok(())
            } else {
                Err(String::from_str("escrow not found"))
            }
        },
        EscrowOp::Resolve { id, now, release_to_seller, admin } => {
            if let Some(i) = state.find_escrow(id) {
                match state.escrows[i].try_resolve_dispute(now, admin, release_to_seller) {
                    Ok(()) => {},
                    Err(e) => {
                        proof {
                            assert(state.escrows@ =~= old(state).escrows@);
                        }
                        return Err(joined("dispute resolution failed: ", e.debug_string().as_str()));
                    },
                }
                Ok(())
            } else {
                Err(String::from_str("escrow not found"))
            }
        },
        EscrowOp::Cancel { id, now } => {
            if let Some(i) = state.find_escrow(id) {
                match state.escrows[i].try_cancel(now) {
                    Ok(()) => {},
                    Err(e) => {
                        proof {
                            assert(state.escrows@ =~= old(state).escrows@);
                        }
                        return Err(joined("cancel failed: ", e.debug_string().as_str()));
                    },
                }
                Ok(())
            } else {
                Err(String::from_str("escrow not found"))
            }
        },
        EscrowOp::ExtendWindow { id, new_window, now } => {
            if let Some(i) = state.find_escrow(id) {
                match state.escrows[i].try_extend_release_window(new_window, now) {
                    Ok(()) => {},
                    Err(e) => {
                        proof {
                            assert(state.escrows@ =~= old(state).escrows@);
                        }
                        return Err(joined("extend window failed: ", e.debug_string().as_str()));
                    },
                }
                Ok(())
            } else {
                Err(String::from_str("escrow not found"))
            }
        },
    }
}

/// An operation on the stakes of a model state.
#[derive(Clone, Debug)]
pub enum StakeOp {
    Stake { artisan: Address, token: Address, amount: i128, now: u64 },
    Unstake { artisan: Address, token: Address, amount: i128, now: u64 },
    AdvanceTime { now: u64, seconds: u64 },
    UnstakeEmpty,
}

/// `new` is `old` with stake `i` replaced by `s`.
pub open spec fn stake_replaced(old: ModelState, new: ModelState, i: int, s: StakeModel) -> bool {
    &&& new.stakes@ == old.stakes@.update(i, s)
    &&& old.keeps_escrows(new)
    &&& old.keeps_disputes(new)
    &&& old.keeps_recurring(new)
    &&& old.keeps_profiles(new)
    &&& old.keeps_books(new)
}

/// The amounts that `op` touches stay within `i128`.
pub open spec fn stake_op_fits(state: ModelState, op: StakeOp) -> bool {
    match op {
        StakeOp::Stake { artisan, token, amount, .. } => amount > 0 ==> match first_where(
            state.stakes@,
            stake_of(artisan@, token@),
        ) {
            Some(i) => state.stakes@[i].staked_amount + amount <= i128::MAX,
            None => fits_i128(state.invariants.total_staked + amount),
        },
        StakeOp::Unstake { artisan, token, amount, .. } => amount > 0 ==> match first_where(
            state.stakes@,
            stake_of(artisan@, token@),
        ) {
            Some(i) => fits_i128(state.stakes@[i].remaining()),
            None => true,
        },
        _ => true,
    }
}

/// What `execute_stake_op(old, op)` does: `new` is the state afterwards and `r` the result.
/// Operations act on the first stake of the given artisan in the given token.
pub open spec fn stake_op_outcome(old: ModelState, new: ModelState, op: StakeOp, r: Result<(), String>) -> bool {
    match op {
        StakeOp::Stake { artisan, token, amount, now } => match first_where(
            old.stakes@,
            stake_of(artisan@, token@),
        ) {
            Some(i) => if amount > 0 {
                r is Ok && stake_replaced(old, new, i, old.stakes@[i].staked(amount, now))
            } else {
                rejected(old, new, r, "stake failed: "@ + "stake amount must be positive"@)
            },
            None => if amount > 0 {
                &&& r is Ok
                &&& new.stakes@ == old.stakes@.push(
                    StakeModel::fresh(artisan, token).staked(amount, now),
                )
                &&& new.invariants == (ConservationInvariants {
                    total_staked: (old.invariants.total_staked + amount) as i128,
                    ..old.invariants
                })
                &&& new.total_minted == old.total_minted
                &&& old.keeps_escrows(new)
                &&& old.keeps_disputes(new)
                &&& old.keeps_recurring(new)
                &&& old.keeps_profiles(new)
            } else {
                rejected(old, new, r, "stake amount must be positive"@)
            },
        },
        StakeOp::Unstake { artisan, token, amount, now } => match first_where(
            old.stakes@,
            stake_of(artisan@, token@),
        ) {
            Some(i) => {
                let s = old.stakes@[i];
                if s.can_unstake(now, amount) {
                    r is Ok && stake_replaced(old, new, i, s.withdrawn(amount))
                } else {
                    rejected(old, new, r, "unstake failed: "@ + s.unstake_rejection(now, amount))
                }
            },
            None => rejected(old, new, r, "stake not found"@),
        },
        StakeOp::AdvanceTime { .. } => r is Ok && old.unchanged(new),
        StakeOp::UnstakeEmpty => r is Ok && old.unchanged(new),
    }
}

/// Apply a staking operation to the model state.
pub fn execute_stake_op(state: &mut ModelState, op: StakeOp) -> (r: Result<(), String>)
    requires
        stake_op_fits(*old(state), op),
    ensures
        stake_op_outcome(*old(state), *final(state), op, r),
{
    match op {
        StakeOp::Stake { artisan, token, amount, now } => {
            if let Some(i) = state.find_stake(&artisan, &token) {
                match state.stakes[i].try_stake(amount, now) {
                    Ok(()) => {},
                    Err(e) => {
                        proof {
                            assert(state.stakes@ =~= old(state).stakes@);
                        }
                        return Err(joined("stake failed: ", e.as_str()));
                    },
                }
                Ok(())
            } else {
                let mut new_stake = StakeModel::new(artisan, token);
                new_stake.try_stake(amount, now)?;
                state.add_stake(new_stake);
                Ok(())
            }
        },
        StakeOp::Unstake { artisan, token, amount, now } => {
            if let Some(i) = state.find_stake(&artisan, &token) {
                match state.stakes[i].try_unstake(now, amount) {
                    Ok(_) => {},
                    Err(e) => {
                        proof {
                            assert(state.stakes@ =~= old(state).stakes@);
                        }
                        return Err(joined("unstake failed: ", e.as_str()));
                    },
                }
                Ok(())
            } else {
                Err(String::from_str("stake not found"))
            }
        },
        StakeOp::AdvanceTime { .. } => Ok(()),
        StakeOp::UnstakeEmpty => Ok(()),
    }
}

/// An operation on the recurring escrows of a model state.
#[derive(Clone, Debug)]
pub enum RecurringOp {
    Create { id: u64, buyer: Address, artisan: Address, amount: i128, frequency: u64, duration: u32 },
    ReleaseCycle { id: u64, now: u64 },
    Cancel { id: u64 },
}

/// `r` is the recurring escrow that `RecurringOp::Create` with these fields
/// registers, in the token of a freshly generated contract address.
pub open spec fn is_created_recurring(
    r: RecurringEscrowModel,
    id: u64,
    buyer: Address,
    artisan: Address,
    amount: i128,
    frequency: u64,
    duration: u32,
) -> bool {
    &&& r.id == id
    &&& r.buyer == buyer
    &&& r.artisan == artisan
    &&& r.token@ == first_generated_contract()
    &&& r.total_amount == amount
    &&& r.frequency == frequency
    &&& r.duration == (if duration == 0 { 1 } else { duration })
    &&& r.current_cycle == 0
    &&& r.released_amount == 0
    &&& r.last_release_time == 0
    &&& r.is_active
    &&& r.action_history@ == seq![RecurringEscrowAction::Created]
}

/// `new` is `old` with only recurring escrow `i` (possibly) changed.
pub open spec fn recurring_touched(old: ModelState, new: ModelState, i: int) -> bool {
    &&& new.recurring@ == old.recurring@.update(i, new.recurring@[i])
    &&& old.keeps_escrows(new)
    &&& old.keeps_disputes(new)
    &&& old.keeps_stakes(new)
    &&& old.keeps_profiles(new)
    &&& old.keeps_books(new)
}

/// The amounts that `op` touches stay within `i128`.
pub open spec fn recurring_op_fits(state: ModelState, op: RecurringOp) -> bool {
    match op {
        RecurringOp::Create { amount, .. } => fits_i128(state.invariants.total_recurring + amount),
        RecurringOp::ReleaseCycle { id, now } => match first_where(
            state.recurring@,
            recurring_with_id(id),
        ) {
            Some(i) => state.recurring@[i].release_proceeds(now) ==> fits_i128(
                state.recurring@[i].released_amount + state.recurring@[i].cycle_share(),
            ),
            None => true,
        },
        RecurringOp::Cancel { id } => match first_where(state.recurring@, recurring_with_id(id)) {
            Some(i) => fits_i128(
                state.recurring@[i].total_amount - state.recurring@[i].released_amount,
            ),
            None => true,
        },
    }
}

/// What `execute_recurring_op(old, op)` does: `new` is the state afterwards and `r` the result.
/// Operations other than `Create` act on the first recurring escrow with the given id.
pub open spec fn recurring_op_outcome(
    old: ModelState,
    new: ModelState,
    op: RecurringOp,
    r: Result<(), String>,
) -> bool {
    match op {
        RecurringOp::Create { id, buyer, artisan, amount, frequency, duration } => {
            &&& r is Ok
            &&& new.recurring@.len() == old.recurring@.len() + 1
            &&& new.recurring@.drop_last() == old.recurring@
            &&& is_created_recurring(
                new.recurring@.last(),
                id,
                buyer,
                artisan,
                amount,
                frequency,
                duration,
            )
            &&& new.invariants == (ConservationInvariants {
                total_recurring: (old.invariants.total_recurring + amount) as i128,
                ..old.invariants
            })
            &&& new.total_minted == old.total_minted
            &&& old.keeps_escrows(new)
            &&& old.keeps_disputes(new)
            &&& old.keeps_stakes(new)
            &&& old.keeps_profiles(new)
        },
        RecurringOp::ReleaseCycle { id, now } => match first_where(
            old.recurring@,
            recurring_with_id(id),
        ) {
            None => rejected(old, new, r, "recurring escrow not found"@),
            Some(i) => {
                &&& recurring_touched(old, new, i)
                &&& old.recurring@[i].after_release_attempt(new.recurring@[i], now)
                &&& if old.recurring@[i].release_proceeds(now) {
                    r is Ok
                } else {
                    r matches Err(m) && m@ == "release cycle failed: "@ + old.recurring@[i].release_rejection(
                        now,
                    )
                }
            },
        },
        RecurringOp::Cancel { id } => match first_where(old.recurring@, recurring_with_id(id)) {
            None => rejected(old, new, r, "recurring escrow not found"@),
            Some(i) => {
                &&& r is Ok
                &&& recurring_touched(old, new, i)
                &&& old.recurring@[i].after_cancel(new.recurring@[i])
            },
        },
    }
}

/// Apply a recurring-escrow operation to the model state.
pub fn execute_recurring_op(state: &mut ModelState, op: RecurringOp) -> (r: Result<(), String>)
    requires
        recurring_op_fits(*old(state), op),
    ensures
        recurring_op_outcome(*old(state), *final(state), op, r),
{
    match op {
        RecurringOp::Create { id, buyer, artisan, amount, frequency, duration } => {
            let recurring = RecurringEscrowModel::new(
                id,
                buyer,
                artisan,
                generated_address(),
                amount,
                frequency,
                duration,
            );
            state.add_recurring(recurring);
            proof {
                assert(state.recurring@.drop_last() =~= old(state).recurring@);
            }
            Ok(())
        },
        RecurringOp::ReleaseCycle { id, now } => {
            if let Some(i) = state.find_recurring(id) {
                match state.recurring[i].try_release_next_cycle(now) {
                    Ok(_) => {},
                    Err(e) => return Err(joined("release cycle failed: ", e.as_str())),
                }
                Ok(())
            } else {
                Err(String::from_str("recurring escrow not found"))
            }
        },
        RecurringOp::Cancel { id } => {
            if let Some(i) = state.find_recurring(id) {
                let _ = state.recurring[i].try_cancel();
                Ok(())
            } else {
                Err(String::from_str("recurring escrow not found"))
            }
        },
    }
}

/// An operation on the onboarding profiles of a model state.
#[derive(Clone, Debug)]
pub enum OnboardingOp {
    Onboard { address: Address, username: String, role: UserRoleModel },
    UpdateRole { address: Address, new_role: UserRoleModel },
    Deactivate { address: Address },
    Reactivate { address: Address, username_taken: bool },
    SetVerified { address: Address, verified: bool },
}

/// `new` is `old` with profile `i` replaced by `p`.
pub open spec fn profile_replaced(old: ModelState, new: ModelState, i: int, p: OnboardingProfileModel) -> bool {
    &&& new.profiles@ == old.profiles@.update(i, p)
    &&& old.keeps_escrows(new)
    &&& old.keeps_disputes(new)
    &&& old.keeps_recurring(new)
    &&& old.keeps_stakes(new)
    &&& old.keeps_books(new)
}

/// `new` is `old` with profile `p` registered after the existing ones.
pub open spec fn profile_appended(old: ModelState, new: ModelState, p: OnboardingProfileModel) -> bool {
    &&& new.profiles@ == old.profiles@.push(p)
    &&& old.keeps_escrows(new)
    &&& old.keeps_disputes(new)
    &&& old.keeps_recurring(new)
    &&& old.keeps_stakes(new)
    &&& old.keeps_books(new)
}

/// The profile versions that `op` bumps stay below `u32::MAX`.
pub open spec fn onboarding_op_fits(state: ModelState, op: OnboardingOp) -> bool {
    match op {
        OnboardingOp::Onboard { .. } => true,
        OnboardingOp::UpdateRole { address, new_role } => match first_where(
            state.profiles@,
            profile_of(address@),
        ) {
            Some(i) => state.profiles@[i].can_update_role(new_role) ==> state.profiles@[i].state_version
                < u32::MAX,
            None => true,
        },
        OnboardingOp::Deactivate { address } => match first_where(
            state.profiles@,
            profile_of(address@),
        ) {
            Some(i) => state.profiles@[i].status != ProfileStatusModel::Deactivated
                ==> state.profiles@[i].state_version < u32::MAX,
            None => true,
        },
        OnboardingOp::Reactivate { address, username_taken } => match first_where(
            state.profiles@,
            profile_of(address@),
        ) {
            Some(i) => !username_taken ==> state.profiles@[i].state_version < u32::MAX,
            None => true,
        },
        OnboardingOp::SetVerified { address, .. } => match first_where(
            state.profiles@,
            profile_of(address@),
        ) {
            Some(i) => state.profiles@[i].state_version < u32::MAX,
            None => true,
        },
    }
}

/// What `execute_onboarding_op(old, op)` does: `new` is the state afterwards and `r` the result.
/// Operations other than `Onboard` act on the first profile of the given address.
pub open spec fn onboarding_op_outcome(
    old: ModelState,
    new: ModelState,
    op: OnboardingOp,
    r: Result<(), String>,
) -> bool {
    match op {
        OnboardingOp::Onboard { address, username, role } => r is Ok && profile_appended(
            old,
            new,
            OnboardingProfileModel::fresh(address, username).with_role(role),
        ),
        OnboardingOp::UpdateRole { address, new_role } => match first_where(
            old.profiles@,
            profile_of(address@),
        ) {
            Some(i) => if old.profiles@[i].can_update_role(new_role) {
                r is Ok && profile_replaced(old, new, i, old.profiles@[i].with_role(new_role))
            } else {
                rejected(old, new, r, "must onboard first"@)
            },
            None => if new_role == UserRoleModel::NoRole {
                let p = new.profiles@.last();
                &&& r is Ok
                &&& p.username@ == Seq::<char>::empty()
                &&& profile_appended(
                    old,
                    new,
                    OnboardingProfileModel::fresh(address, p.username).with_role(
                        UserRoleModel::NoRole,
                    ),
                )
            } else {
                rejected(old, new, r, "must onboard first"@)
            },
        },
        OnboardingOp::Deactivate { address } => match first_where(
            old.profiles@,
            profile_of(address@),
        ) {
            Some(i) => if old.profiles@[i].status != ProfileStatusModel::Deactivated {
                r is Ok && profile_replaced(
                    old,
                    new,
                    i,
                    old.profiles@[i].with_status(ProfileStatusModel::Deactivated),
                )
            } else {
                rejected(old, new, r, "profile already deactivated"@)
            },
            None => rejected(old, new, r, "profile not found"@),
        },
        OnboardingOp::Reactivate { address, username_taken } => match first_where(
            old.profiles@,
            profile_of(address@),
        ) {
            Some(i) => if !username_taken {
                r is Ok && profile_replaced(
                    old,
                    new,
                    i,
                    old.profiles@[i].with_status(ProfileStatusModel::Active),
                )
            } else {
                rejected(old, new, r, "username already taken"@)
            },
            None => rejected(old, new, r, "profile not found"@),
        },
        OnboardingOp::SetVerified { address, verified } => match first_where(
            old.profiles@,
            profile_of(address@),
        ) {
            Some(i) => r is Ok && profile_replaced(
                old,
                new,
                i,
                old.profiles@[i].with_verified(verified),
            ),
            None => rejected(old, new, r, "profile not found"@),
        },
    }
}

/// Apply an onboarding operation to the model state.
pub fn execute_onboarding_op(state: &mut ModelState, op: OnboardingOp) -> (r: Result<(), String>)
    requires
        onboarding_op_fits(*old(state), op),
    ensures
        onboarding_op_outcome(*old(state), *final(state), op, r),
{
    match op {
        OnboardingOp::Onboard { address, username, role } => {
            let mut profile = OnboardingProfileModel::new(address.clone(), username);
            profile.try_onboard(role)?;
            state.add_profile(profile);
            Ok(())
        },
        OnboardingOp::UpdateRole { address, new_role } => {
            if let Some(i) = state.find_profile(&address) {
                let res = state.profiles[i].try_update_role(new_role);
                if res.is_err() {
                    proof {
                        assert(state.profiles@ =~= old(state).profiles@);
                    }
                }
                res
            } else {
                let mut profile = OnboardingProfileModel::new(address.clone(), String::new());
                profile.try_update_role(new_role)?;
                state.add_profile(profile);
                Ok(())
            }
        },
        OnboardingOp::Deactivate { address } => {
            if let Some(i) = state.find_profile(&address) {
                let res = state.profiles[i].try_deactivate();
                if res.is_err() {
                    proof {
                        assert(state.profiles@ =~= old(state).profiles@);
                    }
                }
                res
            } else {
                Err(String::from_str("profile not found"))
            }
        },
        OnboardingOp::Reactivate { address, username_taken } => {
            if let Some(i) = state.find_profile(&address) {
                let res = state.profiles[i].try_reactivate(username_taken);
                if res.is_err() {
                    proof {
                        assert(state.profiles@ =~= old(state).profiles@);
                    }
                }
                res
            } else {
                Err(String::from_str("profile not found"))
            }
        },
        OnboardingOp::SetVerified { address, verified } => {
            if let Some(i) = state.find_profile(&address) {
                state.profiles[i].try_set_verified(verified);
                Ok(())
            } else {
                Err(String::from_str("profile not found"))
            }
        },
    }
}

} // verus!
