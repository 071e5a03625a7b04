use craft_nexus_contract::address::Address;
use craft_nexus_contract::conservation::ConservationInvariants;
use craft_nexus_contract::dispute::{DisputeModel, DisputeStage};
use craft_nexus_contract::escrow::{EscrowModel, EscrowStatus, EscrowTransitionError};
use craft_nexus_contract::profile::{OnboardingProfileModel, ProfileStatusModel, UserRoleModel};
use craft_nexus_contract::recurring::{RecurringEscrowAction, RecurringEscrowModel};
use craft_nexus_contract::stake::{StakeModel, StakeStatus};
use craft_nexus_contract::terminal::{
    is_escrow_terminal, is_profile_terminal, is_recurring_terminal, is_stake_terminal,
};
use craft_nexus_contract::text::{decimal_text, joined};
use craft_nexus_contract::time_policy::{
    DISPUTE_ESCALATION_WINDOW, EVIDENCE_CHALLENGE_WINDOW, MAX_DISPUTE_DURATION, STAKE_COOLDOWN,
    UNFUNDED_CANCEL_TIMEOUT,
};
use craft_nexus_contract::token::DecimalTestToken;
use craft_nexus_contract::windows::{
    is_deadline_pending, is_deadline_reached, is_window_active, is_window_closed, is_window_open,
    window_deadline,
};

fn addr(key: &str) -> Address {
    Address::from_strkey(key.to_string())
}

fn escrow(release_window: u32, created_at: u32) -> EscrowModel {
    EscrowModel::new(1, addr("GBUYER"), addr("GSELLER"), addr("CTOKEN"), 1000, release_window, created_at)
}

// ── windows ─────────────────────────────────────────────────────────────────

#[test]
fn window_end_is_inclusive() {
    assert!(is_window_active(99, 0, 100));
    assert!(!is_window_closed(99, 0, 100));
    assert!(is_window_closed(100, 0, 100));
    assert!(!is_window_active(100, 0, 100));
    assert!(is_window_closed(101, 0, 100));
}

#[test]
fn window_deadline_saturates() {
    assert_eq!(window_deadline(10, 20), 30);
    assert_eq!(window_deadline(u64::MAX - 1, 5), u64::MAX);
    assert!(!is_window_closed(u64::MAX - 1, u64::MAX - 1, 5));
    assert!(is_window_closed(u64::MAX, u64::MAX - 1, 5));
}

#[test]
fn window_open_and_deadline_predicates() {
    assert!(is_window_open(5, 5));
    assert!(!is_window_open(4, 5));
    assert!(is_deadline_reached(7, 7));
    assert!(!is_deadline_pending(7, 7));
    assert!(is_deadline_pending(6, 7));
    assert!(is_window_closed(5, 5, 0));
}

#[test]
fn policy_durations() {
    assert_eq!(MAX_DISPUTE_DURATION, 30 * 24 * 60 * 60);
    assert_eq!(EVIDENCE_CHALLENGE_WINDOW, 2 * 24 * 60 * 60);
    assert_eq!(DISPUTE_ESCALATION_WINDOW, 3 * 24 * 60 * 60);
    assert_eq!(STAKE_COOLDOWN, 7 * 24 * 60 * 60);
    assert_eq!(UNFUNDED_CANCEL_TIMEOUT, 24 * 60 * 60);
}

// ── text ────────────────────────────────────────────────────────────────────

#[test]
fn decimal_text_matches_display() {
    for n in [0u64, 7, 10, 99, 100, 3600, 1_711_368_000, u64::MAX] {
        assert_eq!(decimal_text(n), n.to_string());
    }
}

#[test]
fn joined_concatenates() {
    assert_eq!(joined("release failed: ", "NotInDispute"), "release failed: NotInDispute");
}

#[test]
fn error_debug_text_matches_derived_debug() {
    let errors = [
        EscrowTransitionError::InvalidCurrentState("cannot release from RefundPending".to_string()),
        EscrowTransitionError::InvalidCurrentState("quote \" and backslash \\ and\nnewline".to_string()),
        EscrowTransitionError::ReleaseWindowNotElapsed { created_at: 0, release_window: 3600, now: 100 },
        EscrowTransitionError::NotInDispute,
        EscrowTransitionError::AlreadyResolved,
        EscrowTransitionError::InvalidTerminalState("done".to_string()),
        EscrowTransitionError::SettlementAlreadyFinalized,
        EscrowTransitionError::EscrowNotFound,
    ];
    for e in errors.iter() {
        assert_eq!(e.debug_string(), format!("{:?}", e));
    }
}

#[test]
fn status_names_match_derived_debug() {
    let all = [
        EscrowStatus::Active,
        EscrowStatus::Released,
        EscrowStatus::Refunded,
        EscrowStatus::Disputed,
        EscrowStatus::Resolved,
        EscrowStatus::ReleasePending,
        EscrowStatus::RefundPending,
        EscrowStatus::DisputePending,
        EscrowStatus::SettlementPending,
    ];
    for s in all.iter() {
        assert_eq!(s.name(), format!("{:?}", s));
    }
}

// ── escrows ─────────────────────────────────────────────────────────────────

#[test]
fn new_escrow_is_funded_and_active() {
    let e = escrow(3600, 50);
    assert_eq!(e.status, EscrowStatus::Active);
    assert!(e.funded);
    assert_eq!(e.funding_deadline, Some(50 + UNFUNDED_CANCEL_TIMEOUT));
    assert_eq!(e.dispute_reason, None);
    assert_eq!(e.dispute_initiated_at, None);
}

#[test]
fn release_before_window_reports_the_window() {
    let mut e = escrow(3600, 0);
    let r = e.try_release(100);
    assert_eq!(
        r,
        Err(EscrowTransitionError::ReleaseWindowNotElapsed { created_at: 0, release_window: 3600, now: 100 })
    );
    assert_eq!(e.status, EscrowStatus::Active);
}

#[test]
fn release_at_the_deadline_succeeds_once() {
    let mut e = escrow(3600, 0);
    assert_eq!(e.try_release(3600), Ok(()));
    assert_eq!(e.status, EscrowStatus::Released);
    assert_eq!(e.try_release(3600), Err(EscrowTransitionError::AlreadyResolved));
    assert_eq!(e.status, EscrowStatus::Released);
}

#[test]
fn release_pending_can_be_released() {
    let mut e = escrow(10, 0);
    e.status = EscrowStatus::ReleasePending;
    assert_eq!(e.try_release(10), Ok(()));
    assert_eq!(e.status, EscrowStatus::Released);
}

#[test]
fn release_of_disputed_and_pending_escrows_is_rejected() {
    let mut e = escrow(10, 0);
    e.status = EscrowStatus::Disputed;
    assert_eq!(e.try_release(10), Err(EscrowTransitionError::NotInDispute));
    e.status = EscrowStatus::SettlementPending;
    assert_eq!(
        e.try_release(10),
        Err(EscrowTransitionError::InvalidCurrentState("cannot release from SettlementPending".to_string()))
    );
    assert_eq!(e.status, EscrowStatus::SettlementPending);
}

#[test]
fn dispute_opens_only_on_active_escrows() {
    let mut e = escrow(10, 0);
    assert_eq!(e.try_initiate_dispute(42, "late".to_string()), Ok(()));
    assert_eq!(e.status, EscrowStatus::Disputed);
    assert_eq!(e.dispute_reason, Some("late".to_string()));
    assert_eq!(e.dispute_initiated_at, Some(42));
    assert_eq!(
        e.try_initiate_dispute(43, "again".to_string()),
        Err(EscrowTransitionError::InvalidCurrentState("cannot dispute from Disputed".to_string()))
    );
    assert_eq!(e.dispute_initiated_at, Some(42));
}

#[test]
fn resolution_waits_for_the_dispute_window_unless_admin() {
    let mut e = escrow(10, 0);
    e.try_initiate_dispute(1000, "late".to_string()).unwrap();
    assert_eq!(
        e.try_resolve_dispute(1000 + MAX_DISPUTE_DURATION - 1, false, true),
        Err(EscrowTransitionError::InvalidCurrentState("dispute window still active".to_string()))
    );
    assert_eq!(e.status, EscrowStatus::Disputed);
    assert_eq!(e.try_resolve_dispute(1000 + MAX_DISPUTE_DURATION, false, true), Ok(()));
    assert_eq!(e.status, EscrowStatus::Resolved);

    let mut f = escrow(10, 0);
    f.try_initiate_dispute(1000, "late".to_string()).unwrap();
    assert_eq!(f.try_resolve_dispute(1001, true, false), Ok(()));
    assert_eq!(
        f.try_resolve_dispute(1002, true, false),
        Err(EscrowTransitionError::InvalidCurrentState("cannot resolve from Resolved".to_string()))
    );
}

#[test]
fn cancel_needs_an_unfunded_escrow_past_its_deadline() {
    let mut e = escrow(10, 0);
    assert_eq!(
        e.try_cancel(UNFUNDED_CANCEL_TIMEOUT),
        Err(EscrowTransitionError::InvalidCurrentState("cannot cancel a funded escrow".to_string()))
    );
    e.funded = false;
    assert_eq!(
        e.try_cancel(UNFUNDED_CANCEL_TIMEOUT - 1),
        Err(EscrowTransitionError::InvalidCurrentState("funding deadline not yet elapsed".to_string()))
    );
    assert_eq!(e.try_cancel(UNFUNDED_CANCEL_TIMEOUT), Ok(()));
    assert_eq!(e.status, EscrowStatus::Refunded);
    assert_eq!(e.funding_deadline, None);
    // Cancelling again has the same effect as cancelling once.
    assert_eq!(e.try_cancel(UNFUNDED_CANCEL_TIMEOUT + 5), Ok(()));
    assert_eq!(e.status, EscrowStatus::Refunded);
}

#[test]
fn extending_the_window_moves_a_pending_funding_deadline() {
    let mut e = escrow(10, 0);
    assert_eq!(e.try_extend_release_window(500, 100), Ok(()));
    assert_eq!(e.release_window, 500);
    assert_eq!(e.funding_deadline, Some(100 + UNFUNDED_CANCEL_TIMEOUT));

    let mut late = escrow(10, 0);
    assert_eq!(late.try_extend_release_window(500, UNFUNDED_CANCEL_TIMEOUT), Ok(()));
    assert_eq!(late.funding_deadline, Some(UNFUNDED_CANCEL_TIMEOUT));

    let mut saturated = escrow(10, 0);
    saturated.funding_deadline = Some(u64::MAX);
    saturated.try_extend_release_window(500, u64::MAX - 100).unwrap();
    assert_eq!(saturated.funding_deadline, Some(u64::MAX));
}

// ── disputes ────────────────────────────────────────────────────────────────

#[test]
fn dispute_walks_through_its_windows() {
    let mut d = DisputeModel::new(7, 70);
    assert_eq!(d.stage, DisputeStage::Open);
    assert_eq!(d.initiated_at, 0);
    assert_eq!(
        d.try_enter_escalation_window(0),
        Err("dispute not in ChallengeWindowActive state".to_string())
    );
    assert_eq!(d.try_enter_challenge_window(EVIDENCE_CHALLENGE_WINDOW - 1), Ok(()));
    assert_eq!(d.stage, DisputeStage::ChallengeWindowActive);
    assert_eq!(d.try_enter_challenge_window(1), Err("dispute not in Open state".to_string()));
    assert_eq!(
        d.try_enter_escalation_window(DISPUTE_ESCALATION_WINDOW - 1),
        Err("escalation window not yet open (earliest: 259200)".to_string())
    );
    assert_eq!(d.try_enter_escalation_window(DISPUTE_ESCALATION_WINDOW), Ok(()));
    assert_eq!(d.stage, DisputeStage::EscalationWindowActive);
    assert_eq!(d.escalated_at, Some(DISPUTE_ESCALATION_WINDOW));
    assert_eq!(d.try_resolve(true), Ok(()));
    assert_eq!(d.stage, DisputeStage::Resolved);
    assert_eq!(d.resolved_at, Some(DISPUTE_ESCALATION_WINDOW));
    assert_eq!(d.release_to_seller, Some(true));
    assert_eq!(d.try_resolve(false), Err("dispute already resolved".to_string()));
    assert_eq!(d.try_force_resolve_if_expired(u64::MAX), Err("dispute already resolved".to_string()));
    assert_eq!(d.release_to_seller, Some(true));
}

#[test]
fn challenge_window_closes_inclusively() {
    let mut d = DisputeModel::new(1, 1);
    assert_eq!(
        d.try_enter_challenge_window(EVIDENCE_CHALLENGE_WINDOW),
        Err("challenge window already elapsed".to_string())
    );
    assert_eq!(d.stage, DisputeStage::Open);
}

#[test]
fn undecided_dispute_resolves_at_the_recorded_evidence_or_opening() {
    let mut d = DisputeModel::new(1, 1);
    d.initiated_at = 500;
    d.try_resolve(false).unwrap();
    assert_eq!(d.resolved_at, Some(500));

    let mut e = DisputeModel::new(2, 1);
    e.challenge_evidence_at = Some(900);
    e.try_resolve(false).unwrap();
    assert_eq!(e.resolved_at, Some(900));
}

#[test]
fn dispute_expires_at_its_maximum_duration() {
    let mut d = DisputeModel::new(1, 1);
    assert_eq!(
        d.try_force_resolve_if_expired(MAX_DISPUTE_DURATION - 1),
        Err("max dispute duration not yet exceeded".to_string())
    );
    assert_eq!(d.try_force_resolve_if_expired(MAX_DISPUTE_DURATION), Ok(()));
    assert_eq!(d.stage, DisputeStage::MaxDurationExceeded);
    assert_eq!(d.resolved_at, Some(MAX_DISPUTE_DURATION));
}

// ── recurring escrows ───────────────────────────────────────────────────────

fn recurring(total: i128, frequency: u64, duration: u32) -> RecurringEscrowModel {
    RecurringEscrowModel::new(9, addr("GBUYER"), addr("GARTISAN"), addr("CTOKEN"), total, frequency, duration)
}

#[test]
fn zero_duration_counts_as_one_cycle() {
    let r = recurring(1000, 10, 0);
    assert_eq!(r.duration, 1);
    assert_eq!(r.action_history, vec![RecurringEscrowAction::Created]);
}

#[test]
fn cycles_pay_equal_truncated_shares() {
    let mut r = recurring(1000, 3600, 3);
    assert_eq!(r.try_release_next_cycle(10), Ok(333));
    assert_eq!(r.last_release_time, 10);
    assert_eq!(
        r.try_release_next_cycle(3609),
        Err("frequency not yet elapsed: 3599 < 3600 seconds needed".to_string())
    );
    assert_eq!(r.try_release_next_cycle(3610), Ok(333));
    assert_eq!(r.try_release_next_cycle(7210), Ok(333));
    assert_eq!(r.released_amount, 999);
    assert!(!r.is_active);
    assert_eq!(r.try_release_next_cycle(99_999), Err("recurring escrow not active".to_string()));
    assert_eq!(
        r.action_history,
        vec![
            RecurringEscrowAction::Created,
            RecurringEscrowAction::CycleReleased,
            RecurringEscrowAction::CycleReleased,
            RecurringEscrowAction::CycleReleased,
        ]
    );
    assert_eq!(r.try_cancel(), 1);
}

#[test]
fn negative_totals_truncate_toward_zero() {
    let mut r = recurring(-7, 0, 2);
    assert_eq!(r.try_release_next_cycle(0), Ok(-3));
    assert_eq!(r.expected_released(), -3);
}

#[test]
fn exhausted_schedule_is_switched_off() {
    let mut r = recurring(100, 0, 1);
    r.current_cycle = 1;
    assert_eq!(r.try_release_next_cycle(5), Err("all cycles already released".to_string()));
    assert!(!r.is_active);
    assert_eq!(r.released_amount, 0);
}

#[test]
fn time_running_backwards_counts_as_no_time() {
    let mut r = recurring(100, 10, 4);
    r.try_release_next_cycle(50).unwrap();
    assert_eq!(
        r.try_release_next_cycle(40),
        Err("frequency not yet elapsed: 0 < 10 seconds needed".to_string())
    );
}

#[test]
fn cancel_hands_back_the_unreleased_rest() {
    let mut r = recurring(1000, 0, 4);
    r.try_release_next_cycle(0).unwrap();
    assert_eq!(r.try_cancel(), 750);
    assert!(!r.is_active);
    assert_eq!(r.action_history.last(), Some(&RecurringEscrowAction::Cancelled));
    let len = r.action_history.len();
    assert_eq!(r.try_cancel(), 750);
    assert_eq!(r.action_history.len(), len);
}

#[test]
fn expected_released_follows_the_cycle_count() {
    let mut r = recurring(1000, 0, 3);
    r.current_cycle = 2;
    assert_eq!(r.expected_released(), 666);
    r.duration = 0;
    r.released_amount = 42;
    assert_eq!(r.expected_released(), 42);
}

// ── stakes ──────────────────────────────────────────────────────────────────

#[test]
fn stake_requires_a_positive_amount() {
    let mut s = StakeModel::new(addr("GARTISAN"), addr("CTOKEN"));
    assert_eq!(s.status, StakeStatus::Idle);
    assert_eq!(s.try_stake(0, 5), Err("stake amount must be positive".to_string()));
    assert_eq!(s.staked_amount, 0);
    assert_eq!(s.try_stake(10, 5), Ok(()));
    assert_eq!(s.cooldown_end, 5 + STAKE_COOLDOWN);
    assert_eq!(s.stake_time, 5);
    s.try_stake(5, u64::MAX).unwrap();
    assert_eq!(s.staked_amount, 15);
    assert_eq!(s.cooldown_end, u64::MAX);
}

#[test]
fn unstake_waits_for_the_cooldown() {
    let mut s = StakeModel::new(addr("GARTISAN"), addr("CTOKEN"));
    s.try_stake(100, 1000).unwrap();
    assert_eq!(
        s.try_unstake(1000 + STAKE_COOLDOWN - 1, 10),
        Err("stake cooldown has not yet elapsed".to_string())
    );
    assert_eq!(s.try_unstake(1000 + STAKE_COOLDOWN, 0), Err("invalid unstake amount".to_string()));
    assert_eq!(s.try_unstake(1000 + STAKE_COOLDOWN, 101), Err("invalid unstake amount".to_string()));
    assert_eq!(s.try_unstake(1000 + STAKE_COOLDOWN, 40), Ok(40));
    assert_eq!(s.unstaked_amount, 40);
    assert_eq!(s.status, StakeStatus::Unstaked);
    assert_eq!(s.try_unstake(1000 + STAKE_COOLDOWN, 61), Err("invalid unstake amount".to_string()));
}

#[test]
fn bypass_unstake_ignores_the_cooldown() {
    let mut s = StakeModel::new(addr("GARTISAN"), addr("CTOKEN"));
    s.try_stake(100, 1000).unwrap();
    assert_eq!(s.try_unstake_bypass(60), Ok(60));
    assert_eq!(s.status, StakeStatus::Staked);
    assert_eq!(s.try_unstake_bypass(41), Err("invalid unstake amount".to_string()));
    assert_eq!(s.try_unstake_bypass(40), Ok(40));
    assert_eq!(s.status, StakeStatus::Unstaked);
    assert_eq!(s.unstaked_amount, 100);
}

// ── profiles ────────────────────────────────────────────────────────────────

#[test]
fn profile_changes_bump_the_version() {
    let mut p = OnboardingProfileModel::new(addr("GUSER"), "user".to_string());
    assert_eq!(p.state_version, 1);
    assert_eq!(p.role, UserRoleModel::NoRole);
    assert_eq!(p.try_update_role(UserRoleModel::Artisan), Err("must onboard first".to_string()));
    assert_eq!(p.try_onboard(UserRoleModel::Artisan), Ok(()));
    assert_eq!(p.state_version, 2);
    assert_eq!(p.try_onboard(UserRoleModel::Buyer), Err("user already onboarded".to_string()));
    assert_eq!(p.try_update_role(UserRoleModel::Moderator), Ok(()));
    assert_eq!(p.role, UserRoleModel::Moderator);
    assert_eq!(p.try_deactivate(), Ok(()));
    assert_eq!(p.try_deactivate(), Err("profile already deactivated".to_string()));
    assert_eq!(p.try_reactivate(true), Err("username already taken".to_string()));
    assert_eq!(p.status, ProfileStatusModel::Deactivated);
    assert_eq!(p.try_reactivate(false), Ok(()));
    p.try_set_verified(true);
    assert!(p.is_verified);
    assert_eq!(p.state_version, 6);
}

// ── conservation and terminal states ────────────────────────────────────────

#[test]
fn totals_add_and_remove() {
    let mut inv = ConservationInvariants::new();
    inv.add_escrow(500);
    inv.add_staked(200);
    inv.add_recurring(100);
    inv.add_fees(50);
    assert!(inv.check_invariant(850));
    assert!(!inv.check_invariant(849));
    inv.remove_escrow(500);
    inv.remove_staked(200);
    inv.remove_recurring(100);
    assert_eq!(inv, ConservationInvariants { total_escrow_amount: 0, total_staked: 0, total_recurring: 0, total_fees: 50 });
}

#[test]
fn terminal_predicates() {
    assert!(is_escrow_terminal(EscrowStatus::Released));
    assert!(is_escrow_terminal(EscrowStatus::Refunded));
    assert!(is_escrow_terminal(EscrowStatus::Resolved));
    assert!(is_escrow_terminal(EscrowStatus::SettlementPending));
    assert!(!is_escrow_terminal(EscrowStatus::Active));
    assert!(!is_escrow_terminal(EscrowStatus::Disputed));
    assert!(is_stake_terminal(StakeStatus::Unstaked));
    assert!(!is_stake_terminal(StakeStatus::Cooldown));
    assert!(is_recurring_terminal(false, 0, 5));
    assert!(is_recurring_terminal(true, 5, 5));
    assert!(!is_recurring_terminal(true, 4, 5));
    assert!(is_profile_terminal(ProfileStatusModel::Deactivated));
    assert!(!is_profile_terminal(ProfileStatusModel::Flagged));
}

#[test]
fn terminal_escrows_reject_every_transition() {
    for status in [EscrowStatus::Released, EscrowStatus::Refunded, EscrowStatus::Resolved, EscrowStatus::SettlementPending] {
        let mut e = escrow(0, 0);
        e.status = status;
        assert!(e.try_release(10).is_err());
        assert!(e.try_initiate_dispute(10, "x".to_string()).is_err());
        assert!(e.try_resolve_dispute(10, true, true).is_err());
        assert!(e.try_cancel(u64::MAX).is_err());
        assert_eq!(e.status, status);
    }
}

#[test]
fn test_token_reports_stored_or_default_decimals() {
    assert_eq!(DecimalTestToken::reported_decimals(None), 7);
    assert_eq!(DecimalTestToken::reported_decimals(Some(18)), 18);
    assert_eq!(DecimalTestToken::reported_decimals(Some(0)), 0);
}

#[test]
fn addresses_compare_by_strkey() {
    let a = addr("GAAA");
    assert!(a.same_as(&a.clone()));
    assert!(!a.same_as(&addr("GAAB")));
}

#[test]
fn dispute_deadlines_saturate_near_the_end_of_time() {
    let mut d = DisputeModel::new(1, 1);
    d.initiated_at = u64::MAX - 1;
    d.stage = DisputeStage::ChallengeWindowActive;
    assert_eq!(
        d.try_enter_escalation_window(u64::MAX - 1),
        Err(format!("escalation window not yet open (earliest: {})", u64::MAX))
    );
    assert_eq!(d.try_enter_escalation_window(u64::MAX), Ok(()));
    assert_eq!(d.try_force_resolve_if_expired(u64::MAX), Ok(()));
    assert_eq!(d.stage, DisputeStage::MaxDurationExceeded);
}
