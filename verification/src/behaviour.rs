//! What each operation does to its inputs, stated over their fields and plain
//! arithmetic: when a transition goes through, which fields it sets to what,
//! and which it leaves alone.

use vstd::prelude::*;
use crate::address::Address;
use crate::conservation::fits_i128;
use crate::escrow::{EscrowModel, EscrowStatus};
use crate::ops::{escrow_op_outcome, stake_op_outcome, EscrowOp, StakeOp};
use crate::profile::{OnboardingProfileModel, ProfileStatusModel, UserRoleModel};
use crate::recurring::{RecurringEscrowAction, RecurringEscrowModel};
use crate::seqs::lemma_first_where_found;
use crate::stake::StakeModel;
use crate::state::{escrow_with_id, stake_of, ModelState};
use crate::dispute::{DisputeModel, DisputeStage};
use crate::time_policy::{DISPUTE_ESCALATION_WINDOW, MAX_DISPUTE_DURATION, STAKE_COOLDOWN, UNFUNDED_CANCEL_TIMEOUT};
use crate::upgrade::{upgrade_op_outcome, UpgradeCommitmentOp, UpgradeStateCommitmentModel};

verus! {

// ── Escrows ────────────────────────────────────────────────────────────────

/// `a` and `b` agree on everything that fixes an escrow's terms: id, parties,
/// token, amount, window, creation time and funding.
pub open spec fn same_terms(a: EscrowModel, b: EscrowModel) -> bool {
    &&& a.id == b.id
    &&& a.buyer == b.buyer
    &&& a.seller == b.seller
    &&& a.token == b.token
    &&& a.amount == b.amount
    &&& a.release_window == b.release_window
    &&& a.created_at == b.created_at
    &&& a.funded == b.funded
}

/// Before `created_at + release_window` (and before the end of time) no escrow can be released.
pub proof fn release_waits_for_the_window_from_creation(e: EscrowModel, now: u64)
    requires
        now < e.created_at + e.release_window,
        now < u64::MAX,
    ensures
        !e.can_release(now),
{
}

/// From `created_at + release_window` on, an active or release-pending escrow can be released,
/// and releasing it changes its status to `Released` and nothing else.
pub proof fn release_opens_at_the_window_from_creation(e: EscrowModel, now: u64)
    requires
        now >= e.created_at + e.release_window,
        e.status == EscrowStatus::Active || e.status == EscrowStatus::ReleasePending,
    ensures
        e.can_release(now),
        e.with_status(EscrowStatus::Released).status == EscrowStatus::Released,
        same_terms(e.with_status(EscrowStatus::Released), e),
        e.with_status(EscrowStatus::Released).funding_deadline == e.funding_deadline,
        e.with_status(EscrowStatus::Released).dispute_reason == e.dispute_reason,
        e.with_status(EscrowStatus::Released).dispute_initiated_at == e.dispute_initiated_at,
{
}

/// Opening a dispute records its reason and time, marks the escrow disputed and
/// keeps its terms.
pub proof fn dispute_records_reason_and_time(e: EscrowModel, now: u64, reason: String)
    ensures
        e.disputed(now, reason).status == EscrowStatus::Disputed,
        e.disputed(now, reason).dispute_reason == Some(reason),
        e.disputed(now, reason).dispute_initiated_at == Some(now),
        e.disputed(now, reason).funding_deadline == e.funding_deadline,
        same_terms(e.disputed(now, reason), e),
{
}

/// A disputed escrow can be resolved by an admin at once, and by anyone else
/// once `MAX_DISPUTE_DURATION` has passed since the dispute opened (or when no
/// opening time is recorded); an escrow that is not disputed cannot be resolved.
pub proof fn resolution_rules(e: EscrowModel, now: u64, admin_authorized: bool)
    ensures
        e.can_resolve_dispute(now, admin_authorized) <==> (e.status == EscrowStatus::Disputed && (
        admin_authorized || e.dispute_initiated_at is None || now >= e.dispute_initiated_at->0
            + MAX_DISPUTE_DURATION || now == u64::MAX)),
        e.with_status(EscrowStatus::Resolved).status == EscrowStatus::Resolved,
        same_terms(e.with_status(EscrowStatus::Resolved), e),
{
}

/// Only an unfunded escrow can be cancelled, and only from
/// `created_at + UNFUNDED_CANCEL_TIMEOUT` on; cancelling refunds it and clears
/// its funding deadline.
pub proof fn cancel_rules(e: EscrowModel, now: u64)
    ensures
        e.can_cancel(now) <==> (!e.funded && now >= e.created_at + UNFUNDED_CANCEL_TIMEOUT),
        e.cancelled().status == EscrowStatus::Refunded,
        e.cancelled().funding_deadline is None,
        same_terms(e.cancelled(), e),
        e.cancelled().dispute_reason == e.dispute_reason,
        e.cancelled().dispute_initiated_at == e.dispute_initiated_at,
{
}

/// Extending sets the release window to the new value; a funding deadline still
/// ahead at `now` moves to `now + UNFUNDED_CANCEL_TIMEOUT` (when nothing saturates),
/// and one already passed, or none, stays as it was.
pub proof fn extension_sets_the_window(e: EscrowModel, new_window: u32, now: u64)
    ensures
        e.window_extended(new_window, now).release_window == new_window,
        e.window_extended(new_window, now).status == e.status,
        e.window_extended(new_window, now).id == e.id,
        e.window_extended(new_window, now).amount == e.amount,
        e.window_extended(new_window, now).created_at == e.created_at,
        e.funding_deadline is None ==> e.window_extended(new_window, now).funding_deadline is None,
        (e.funding_deadline matches Some(d) && now >= d) ==> e.window_extended(
            new_window,
            now,
        ).funding_deadline == e.funding_deadline,
        (e.funding_deadline matches Some(d) && now < d) && now + new_window <= u64::MAX && now
            + UNFUNDED_CANCEL_TIMEOUT <= u64::MAX ==> e.window_extended(new_window, now).funding_deadline
            == Some((now + UNFUNDED_CANCEL_TIMEOUT) as u64),
{
}

/// `Create` registers, after the existing escrows, an active, funded escrow
/// with exactly the given id, buyer, seller, amount and window, created at time
/// zero, and adds its amount to the escrow total.
pub proof fn create_registers_the_named_escrow(
    old: ModelState,
    new: ModelState,
    id: u64,
    buyer: Address,
    seller: Address,
    amount: i128,
    window: u32,
    r: Result<(), String>,
)
    requires
        escrow_op_outcome(old, new, EscrowOp::Create { id, buyer, seller, amount, window }, r),
        fits_i128(old.invariants.total_escrow_amount + amount),
    ensures
        r is Ok,
        new.escrows@.len() == old.escrows@.len() + 1,
        forall|j: int| 0 <= j < old.escrows@.len() ==> #[trigger] new.escrows@[j] == old.escrows@[j],
        new.escrows@.last().id == id,
        new.escrows@.last().buyer == buyer,
        new.escrows@.last().seller == seller,
        new.escrows@.last().amount == amount,
        new.escrows@.last().release_window == window,
        new.escrows@.last().created_at == 0,
        new.escrows@.last().status == EscrowStatus::Active,
        new.escrows@.last().funded,
        new.invariants.total_escrow_amount == old.invariants.total_escrow_amount + amount,
{
    assert forall|j: int| 0 <= j < old.escrows@.len() implies #[trigger] new.escrows@[j]
        == old.escrows@[j] by {
        assert(new.escrows@.drop_last()[j] == new.escrows@[j]);
    }
}

/// An escrow operation other than `Create` acts on the first escrow with its id:
/// every other escrow stays as it was, and so does the number of escrows.
pub proof fn escrow_ops_touch_only_the_first_match(
    old: ModelState,
    new: ModelState,
    op: EscrowOp,
    r: Result<(), String>,
    i: int,
)
    requires
        escrow_op_outcome(old, new, op, r),
        !(op is Create),
        0 <= i < old.escrows@.len(),
        old.escrows@[i].id == match op {
            EscrowOp::Release { id, .. } => id,
            EscrowOp::Dispute { id, .. } => id,
            EscrowOp::Resolve { id, .. } => id,
            EscrowOp::Cancel { id, .. } => id,
            EscrowOp::ExtendWindow { id, .. } => id,
            EscrowOp::Create { id, .. } => id,
        },
        forall|j: int|
            0 <= j < i ==> (#[trigger] old.escrows@[j]).id != old.escrows@[i].id,
    ensures
        new.escrows@.len() == old.escrows@.len(),
        forall|k: int|
            0 <= k < old.escrows@.len() && k != i ==> #[trigger] new.escrows@[k] == old.escrows@[k],
        new.escrows@[i].id == old.escrows@[i].id,
        new.escrows@[i].amount == old.escrows@[i].amount,
        new.escrows@[i].buyer == old.escrows@[i].buyer,
        new.escrows@[i].seller == old.escrows@[i].seller,
        new.invariants == old.invariants,
{
    let id = old.escrows@[i].id;
    lemma_first_where_found(old.escrows@, escrow_with_id(id), i);
}

/// An escrow operation on an id that no escrow carries fails and changes nothing.
pub proof fn escrow_ops_on_unknown_ids_fail(old: ModelState, new: ModelState, op: EscrowOp, r: Result<(), String>)
    requires
        escrow_op_outcome(old, new, op, r),
        !(op is Create),
        forall|j: int|
            0 <= j < old.escrows@.len() ==> (#[trigger] old.escrows@[j]).id != match op {
                EscrowOp::Release { id, .. } => id,
                EscrowOp::Dispute { id, .. } => id,
                EscrowOp::Resolve { id, .. } => id,
                EscrowOp::Cancel { id, .. } => id,
                EscrowOp::ExtendWindow { id, .. } => id,
                EscrowOp::Create { id, .. } => id,
            },
    ensures
        r is Err,
        new.escrows@ == old.escrows@,
        new.invariants == old.invariants,
{
    let id = match op {
        EscrowOp::Release { id, .. } => id,
        EscrowOp::Dispute { id, .. } => id,
        EscrowOp::Resolve { id, .. } => id,
        EscrowOp::Cancel { id, .. } => id,
        EscrowOp::ExtendWindow { id, .. } => id,
        EscrowOp::Create { id, .. } => id,
    };
    assert(forall|j: int| 0 <= j < old.escrows@.len() ==> !(escrow_with_id(id))(#[trigger] old.escrows@[j]));
}

/// A new escrow holds exactly the given id, parties, token, amount, window and
/// creation time; it is active and funded, with no dispute on record, and must
/// be funded within `UNFUNDED_CANCEL_TIMEOUT` of its creation.
pub proof fn new_escrow_holds_its_terms(
    id: u64,
    buyer: Address,
    seller: Address,
    token: Address,
    amount: i128,
    release_window: u32,
    created_at: u32,
)
    ensures
        ({
            let e = EscrowModel::opened(id, buyer, seller, token, amount, release_window, created_at);
            &&& e.id == id
            &&& e.buyer == buyer
            &&& e.seller == seller
            &&& e.token == token
            &&& e.amount == amount
            &&& e.release_window == release_window
            &&& e.created_at == created_at
            &&& e.status == EscrowStatus::Active
            &&& e.funded
            &&& e.funding_deadline == Some((created_at + UNFUNDED_CANCEL_TIMEOUT) as u64)
            &&& e.dispute_reason is None
            &&& e.dispute_initiated_at is None
        }),
{
}

// ── Disputes ───────────────────────────────────────────────────────────────

/// A new dispute is open, for the given dispute and escrow ids, opened at time
/// zero, with nothing else on record.
pub proof fn new_dispute_is_open(dispute_id: u32, escrow_id: u64)
    ensures
        ({
            let d = DisputeModel::opened(dispute_id, escrow_id);
            &&& d.dispute_id == dispute_id
            &&& d.escrow_id == escrow_id
            &&& d.stage == DisputeStage::Open
            &&& d.initiated_at == 0
            &&& d.challenge_evidence_at is None
            &&& d.escalated_at is None
            &&& d.resolved_at is None
            &&& d.release_to_seller is None
        }),
{
}

/// The dispute clock: escalation opens `DISPUTE_ESCALATION_WINDOW` and expiry
/// comes `MAX_DISPUTE_DURATION` after the dispute opened, both capped at
/// `u64::MAX`; a decided dispute counts as resolved at its escalation, else at
/// its challenged evidence, else at its opening.
pub proof fn dispute_clock(d: DisputeModel)
    ensures
        d.earliest_escalation() == if d.initiated_at + DISPUTE_ESCALATION_WINDOW <= u64::MAX {
            (d.initiated_at + DISPUTE_ESCALATION_WINDOW) as u64
        } else {
            u64::MAX
        },
        d.expiry() == if d.initiated_at + MAX_DISPUTE_DURATION <= u64::MAX {
            (d.initiated_at + MAX_DISPUTE_DURATION) as u64
        } else {
            u64::MAX
        },
        d.escalated_at matches Some(t) ==> d.decision_time() == t,
        d.escalated_at is None ==> (d.challenge_evidence_at matches Some(t) ==> d.decision_time() == t),
        (d.escalated_at is None && d.challenge_evidence_at is None) ==> d.decision_time()
            == d.initiated_at,
{
}

/// Each dispute transition sets its stage and only what it records: entering
/// the escalation window records when, a decision records its direction and
/// time, an expiry records `now`; the ids and opening time never change.
pub proof fn dispute_transitions_record_what_they_name(d: DisputeModel, now: u64, release_to_seller: bool)
    ensures
        d.challenged().stage == DisputeStage::ChallengeWindowActive,
        d.challenged().escalated_at == d.escalated_at,
        d.challenged().resolved_at == d.resolved_at,
        d.escalated(now).stage == DisputeStage::EscalationWindowActive,
        d.escalated(now).escalated_at == Some(now),
        d.escalated(now).resolved_at == d.resolved_at,
        d.decided(release_to_seller).stage == DisputeStage::Resolved,
        d.decided(release_to_seller).release_to_seller == Some(release_to_seller),
        d.decided(release_to_seller).resolved_at == Some(d.decision_time()),
        d.decided(release_to_seller).escalated_at == d.escalated_at,
        d.expired(now).stage == DisputeStage::MaxDurationExceeded,
        d.expired(now).resolved_at == Some(now),
        d.expired(now).release_to_seller == d.release_to_seller,
        d.challenged().dispute_id == d.dispute_id && d.challenged().escrow_id == d.escrow_id
            && d.challenged().initiated_at == d.initiated_at,
        d.escalated(now).dispute_id == d.dispute_id && d.escalated(now).escrow_id == d.escrow_id
            && d.escalated(now).initiated_at == d.initiated_at,
        d.decided(release_to_seller).dispute_id == d.dispute_id && d.decided(
            release_to_seller,
        ).escrow_id == d.escrow_id && d.decided(release_to_seller).initiated_at == d.initiated_at,
        d.expired(now).dispute_id == d.dispute_id && d.expired(now).escrow_id == d.escrow_id
            && d.expired(now).initiated_at == d.initiated_at,
{
}

// ── Stakes ─────────────────────────────────────────────────────────────────

/// Staking adds exactly the amount to what is staked and leaves what was
/// withdrawn untouched, so what remains grows by the amount; the cooldown
/// restarts at `now`.
pub proof fn staking_adds_exactly_the_amount(s: StakeModel, amount: i128, now: u64)
    requires
        amount > 0,
        s.staked_amount + amount <= i128::MAX,
    ensures
        s.staked(amount, now).staked_amount == s.staked_amount + amount,
        s.staked(amount, now).unstaked_amount == s.unstaked_amount,
        s.staked(amount, now).remaining() == s.remaining() + amount,
        s.staked(amount, now).stake_time == now,
        s.staked(amount, now).cooldown_end == (if now + STAKE_COOLDOWN <= u64::MAX {
            (now + STAKE_COOLDOWN) as u64
        } else {
            u64::MAX
        }),
        s.staked(amount, now).artisan == s.artisan,
        s.staked(amount, now).token == s.token,
{
}

/// A withdrawal goes through exactly when the amount is positive, at most what
/// remains staked, and the cooldown of `STAKE_COOLDOWN` after the last stake has passed.
pub proof fn unstake_rules(s: StakeModel, now: u64, amount: i128)
    ensures
        s.can_unstake(now, amount) <==> (0 < amount && amount <= s.staked_amount - s.unstaked_amount
            && (now >= s.stake_time + STAKE_COOLDOWN || now == u64::MAX)),
{
}

/// A withdrawal adds exactly the amount to what was withdrawn and leaves what
/// was staked alone, with or without the cooldown.
pub proof fn withdrawal_takes_exactly_the_amount(s: StakeModel, amount: i128)
    requires
        0 < amount <= s.staked_amount - s.unstaked_amount,
        s.unstaked_amount + amount <= i128::MAX,
    ensures
        s.withdrawn(amount).unstaked_amount == s.unstaked_amount + amount,
        s.withdrawn(amount).staked_amount == s.staked_amount,
        s.withdrawn(amount).remaining() == s.remaining() - amount,
        s.withdrawn_early(amount).unstaked_amount == s.unstaked_amount + amount,
        s.withdrawn_early(amount).staked_amount == s.staked_amount,
        s.withdrawn_early(amount).stake_time == s.stake_time,
{
}

/// Staking again after a withdrawal keeps the withdrawal on record: what remains
/// is what was there, less the withdrawal, plus the new stake.
pub proof fn stake_after_withdrawal_keeps_it(s: StakeModel, withdrawal: i128, amount: i128, now: u64)
    requires
        0 < withdrawal <= s.staked_amount - s.unstaked_amount,
        s.unstaked_amount + withdrawal <= i128::MAX,
        amount > 0,
        s.staked_amount + amount <= i128::MAX,
    ensures
        s.withdrawn(withdrawal).staked(amount, now).unstaked_amount == s.unstaked_amount + withdrawal,
        s.withdrawn(withdrawal).staked(amount, now).remaining() == s.remaining() - withdrawal
            + amount,
{
}

/// `Stake` for an artisan and token with no stake yet registers one that holds
/// exactly the amount, with nothing withdrawn, for that artisan and token, and
/// adds the amount to the staked total.
pub proof fn first_stake_registers_the_amount(
    old: ModelState,
    new: ModelState,
    artisan: Address,
    token: Address,
    amount: i128,
    now: u64,
    r: Result<(), String>,
)
    requires
        stake_op_outcome(old, new, StakeOp::Stake { artisan, token, amount, now }, r),
        forall|j: int|
            0 <= j < old.stakes@.len() ==> !((#[trigger] old.stakes@[j]).artisan@ == artisan@
                && old.stakes@[j].token@ == token@),
        amount > 0,
        fits_i128(old.invariants.total_staked + amount),
    ensures
        r is Ok,
        new.stakes@.len() == old.stakes@.len() + 1,
        new.stakes@.last().artisan == artisan,
        new.stakes@.last().token == token,
        new.stakes@.last().staked_amount == amount,
        new.stakes@.last().unstaked_amount == 0,
        new.invariants.total_staked == old.invariants.total_staked + amount,
{
    assert(forall|j: int|
        0 <= j < old.stakes@.len() ==> !(stake_of(artisan@, token@))(#[trigger] old.stakes@[j]));
}

/// A new stake belongs to the given artisan and token, is idle, and holds nothing.
pub proof fn new_stake_is_empty(artisan: Address, token: Address)
    ensures
        ({
            let s = StakeModel::fresh(artisan, token);
            &&& s.artisan == artisan
            &&& s.token == token
            &&& s.staked_amount == 0
            &&& s.unstaked_amount == 0
            &&& s.status == crate::stake::StakeStatus::Idle
        }),
{
}

// ── Profiles ───────────────────────────────────────────────────────────────

/// A new profile belongs to the given address and username, is active and
/// unverified, has no role, and starts at version 1.
pub proof fn new_profile_has_no_role(address: Address, username: String)
    ensures
        ({
            let p = OnboardingProfileModel::fresh(address, username);
            &&& p.address == address
            &&& p.username == username
            &&& p.role == UserRoleModel::NoRole
            &&& p.status == ProfileStatusModel::Active
            &&& !p.is_verified
            &&& p.state_version == 1
        }),
{
}

/// Setting the verification flag leaves it at exactly the requested value,
/// whatever it was before; the last of two settings wins.
pub proof fn verification_flag_follows_the_request(p: OnboardingProfileModel, verified: bool, again: bool)
    ensures
        p.with_verified(verified).is_verified == verified,
        p.with_verified(verified).with_verified(again).is_verified == again,
        p.with_verified(verified).role == p.role,
        p.with_verified(verified).status == p.status,
        p.with_verified(verified).address == p.address,
        p.with_verified(verified).username == p.username,
{
}

/// Role and status changes set exactly the requested role or status and keep
/// the rest of the profile; a role is refused only to a user without one who asks for one.
pub proof fn role_and_status_follow_the_request(
    p: OnboardingProfileModel,
    role: UserRoleModel,
    status: ProfileStatusModel,
)
    ensures
        p.with_role(role).role == role,
        p.with_role(role).status == p.status,
        p.with_role(role).is_verified == p.is_verified,
        p.with_status(status).status == status,
        p.with_status(status).role == p.role,
        p.with_status(status).is_verified == p.is_verified,
        p.can_update_role(role) <==> (p.role != UserRoleModel::NoRole || role == UserRoleModel::NoRole),
{
}

// ── Recurring escrows ──────────────────────────────────────────────────────

/// A new schedule holds exactly the given terms, with a zero duration counted
/// as one cycle, nothing paid yet, and is active.
pub proof fn new_schedule_holds_its_terms(
    r: RecurringEscrowModel,
    id: u64,
    buyer: Address,
    artisan: Address,
    token: Address,
    total_amount: i128,
    frequency: u64,
    duration: u32,
)
    requires
        RecurringEscrowModel::is_new_schedule(r, id, buyer, artisan, token, total_amount, frequency, duration),
    ensures
        r.buyer == buyer,
        r.artisan == artisan,
        r.token == token,
        r.total_amount == total_amount,
        r.frequency == frequency,
        duration > 0 ==> r.duration == duration,
        duration == 0 ==> r.duration == 1,
        r.current_cycle == 0,
        r.released_amount == 0,
        r.is_active,
{
}

/// A due cycle of an active schedule with a non-negative total pays out
/// `total_amount / duration`, counts the cycle, and records the payout time.
pub proof fn due_cycle_pays_one_share(r: RecurringEscrowModel, new: RecurringEscrowModel, now: u64)
    requires
        r.after_release_attempt(new, now),
        r.is_active,
        r.current_cycle < r.duration,
        r.current_cycle == 0 || (now >= r.last_release_time && now - r.last_release_time
            >= r.frequency),
        r.total_amount >= 0,
    ensures
        new.released_amount == r.released_amount + (r.total_amount as int) / (r.duration as int),
        new.current_cycle == r.current_cycle + 1,
        new.last_release_time == now,
        new.total_amount == r.total_amount,
        new.action_history@ == r.action_history@.push(RecurringEscrowAction::CycleReleased),
        new.is_active <==> r.current_cycle + 1 < r.duration,
{
}

/// A cycle asked for before `frequency` seconds have passed since the last
/// payout is not paid and changes nothing.
pub proof fn early_cycle_is_not_paid(r: RecurringEscrowModel, new: RecurringEscrowModel, now: u64)
    requires
        r.after_release_attempt(new, now),
        r.current_cycle > 0,
        r.current_cycle < r.duration,
        r.frequency > 0,
        now < r.last_release_time + r.frequency,
    ensures
        new == r,
{
}

/// Cancelling an active schedule stops it, records the cancellation and pays nothing.
pub proof fn cancel_stops_the_schedule(r: RecurringEscrowModel, new: RecurringEscrowModel)
    requires
        r.after_cancel(new),
        r.is_active,
    ensures
        !new.is_active,
        new.released_amount == r.released_amount,
        new.current_cycle == r.current_cycle,
        new.total_amount == r.total_amount,
        new.action_history@ == r.action_history@.push(RecurringEscrowAction::Cancelled),
{
}

// ── Upgrade commitments ────────────────────────────────────────────────────

/// A recorded commitment carries exactly the operation's versions, code hash,
/// state digest, migration-result digest and admin, is stamped with `now` both
/// as its time and its activation, and is immutable.
pub proof fn recorded_commitment_carries_the_request(
    old: Seq<UpgradeStateCommitmentModel>,
    new: Seq<UpgradeStateCommitmentModel>,
    from_version: u32,
    to_version: u32,
    wasm_hash: u32,
    state_digest: u32,
    migration_result_digest: u32,
    admin: Address,
    now: u64,
    r: Result<(), String>,
)
    requires
        upgrade_op_outcome(
            old,
            new,
            UpgradeCommitmentOp::Record {
                from_version,
                to_version,
                wasm_hash,
                state_digest,
                migration_result_digest,
                admin,
                now,
            },
            r,
        ),
        r is Ok,
    ensures
        new.len() == old.len() + 1,
        new.last().from_version == from_version,
        new.last().to_version == to_version,
        new.last().wasm_hash == wasm_hash,
        new.last().state_digest == state_digest,
        new.last().migration_result_digest == migration_result_digest,
        new.last().admin == admin,
        new.last().timestamp == now,
        new.last().activated_at == now,
        new.last().immutable,
{
}

/// A record is refused exactly when an immutable commitment for the same code
/// hash already exists.
pub proof fn record_refused_exactly_for_committed_hashes(
    old: Seq<UpgradeStateCommitmentModel>,
    new: Seq<UpgradeStateCommitmentModel>,
    op: UpgradeCommitmentOp,
    r: Result<(), String>,
)
    requires
        upgrade_op_outcome(old, new, op, r),
    ensures
        r is Err <==> exists|i: int|
            0 <= i < old.len() && (#[trigger] old[i]).wasm_hash == (match op {
                UpgradeCommitmentOp::Record { wasm_hash, .. } => wasm_hash,
            }) && old[i].immutable,
{
}

} // verus!
