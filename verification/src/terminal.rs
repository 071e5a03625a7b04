//! Terminal states: once reached, the lifecycle's ordinary operations move no further.

use vstd::prelude::*;
use crate::escrow::EscrowStatus;
use crate::profile::ProfileStatusModel;
use crate::stake::StakeStatus;

verus! {

/// Escrow statuses in which the escrow is paid out, refunded, resolved or being settled.
pub open spec fn escrow_terminal(status: EscrowStatus) -> bool {
    ||| status == EscrowStatus::Released
    ||| status == EscrowStatus::Refunded
    ||| status == EscrowStatus::Resolved
    ||| status == EscrowStatus::SettlementPending
}

/// Whether an escrow in `status` is finished.
pub fn is_escrow_terminal(status: EscrowStatus) -> (r: bool)
    ensures
        r == escrow_terminal(status),
{
    match status {
        EscrowStatus::Released | EscrowStatus::Refunded | EscrowStatus::Resolved
        | EscrowStatus::SettlementPending => true,
        _ => false,
    }
}

/// Whether a stake in `status` is finished.
pub fn is_stake_terminal(status: StakeStatus) -> (r: bool)
    ensures
        r == (status == StakeStatus::Unstaked),
{
    match status {
        StakeStatus::Unstaked => true,
        _ => false,
    }
}

/// Recurring escrows are finished once inactive or once all cycles have been paid.
pub open spec fn recurring_terminal(is_active: bool, current_cycle: u64, duration: u32) -> bool {
    !is_active || current_cycle >= duration
}

/// Whether a recurring escrow with these fields is finished.
pub fn is_recurring_terminal(is_active: bool, current_cycle: u64, duration: u32) -> (r: bool)
    ensures
        r == recurring_terminal(is_active, current_cycle, duration),
{
    !is_active || current_cycle >= duration as u64
}

/// Whether a profile in `status` is finished.
pub fn is_profile_terminal(status: ProfileStatusModel) -> (r: bool)
    ensures
        r == (status == ProfileStatusModel::Deactivated),
{
    match status {
        ProfileStatusModel::Deactivated => true,
        _ => false,
    }
}

} // verus!
