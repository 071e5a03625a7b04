//! Properties of the model that hold across operations and states.

use vstd::prelude::*;
use crate::conservation::{fits_i128, ConservationInvariants};
use crate::dispute::{DisputeModel, DisputeStage};
use crate::escrow::{EscrowModel, EscrowStatus};
use crate::ops::{escrow_op_outcome, EscrowOp};
use crate::profile::{OnboardingProfileModel, UserRoleModel};
use crate::recurring::{trunc_div, RecurringEscrowModel};
use crate::seqs::{first_where, lemma_first_where_push, lemma_first_where_update};
use crate::stake::StakeModel;
use crate::state::{escrow_with_id, recurring_with_id, ModelState};
use crate::terminal::escrow_terminal;
use crate::upgrade::{hash_committed, upgrade_op_outcome, UpgradeCommitmentOp, UpgradeStateCommitmentModel};
use crate::windows::spec_deadline;

verus! {

// ── Time windows ───────────────────────────────────────────────────────────

/// Windows end inclusively: a window of positive length whose deadline does not
/// saturate is still active one second before its deadline and closed at it.
pub proof fn window_end_is_inclusive(start: u64, duration: u64)
    requires
        duration > 0,
        start + duration <= u64::MAX,
    ensures
        spec_deadline(start, duration) == start + duration,
        !(((start + duration - 1) as u64) >= spec_deadline(start, duration)),
        ((start + duration) as u64) >= spec_deadline(start, duration),
{
}

/// Once a window has closed it stays closed: closing is monotone in time.
pub proof fn closed_windows_stay_closed(start: u64, duration: u64, now: u64, later: u64)
    requires
        now >= spec_deadline(start, duration),
        later >= now,
    ensures
        later >= spec_deadline(start, duration),
{
}

/// A deadline never lies before its window's start; saturation keeps it at `u64::MAX`.
pub proof fn deadline_not_before_start(start: u64, duration: u64)
    ensures
        spec_deadline(start, duration) >= start,
        start + duration > u64::MAX ==> spec_deadline(start, duration) == u64::MAX,
{
}

// ── Escrows ────────────────────────────────────────────────────────────────

/// An escrow in a terminal status cannot be released, disputed or resolved,
/// and, while funded, cannot be cancelled.
pub proof fn terminal_escrows_stay_put(e: EscrowModel, now: u64, admin_authorized: bool)
    requires
        escrow_terminal(e.status),
    ensures
        !e.can_release(now),
        e.status != EscrowStatus::Active,
        !e.can_resolve_dispute(now, admin_authorized),
        e.funded ==> !e.can_cancel(now),
{
}

/// Cancelling an unfunded escrow twice has the effect of cancelling it once.
pub proof fn cancel_is_idempotent(e: EscrowModel, now: u64, later: u64)
    requires
        e.can_cancel(now),
        later >= now,
    ensures
        e.cancelled().can_cancel(later),
        e.cancelled().cancelled() == e.cancelled(),
{
}

/// After an escrow operation on id `id` succeeded, the first escrow with that id is still
/// the same position, now holding the escrow that the operation produced.
proof fn lemma_escrow_stays_first(s0: ModelState, s1: ModelState, i: int, e: EscrowModel, id: u64)
    requires
        first_where(s0.escrows@, escrow_with_id(id)) == Some(i),
        s1.escrows@ == s0.escrows@.update(i, e),
        e.id == id,
    ensures
        first_where(s1.escrows@, escrow_with_id(id)) == Some(i),
        s1.escrows@[i] == e,
{
    lemma_first_where_update(s0.escrows@, escrow_with_id(id), i, e);
}

/// A release takes effect once: releasing the same escrow again is rejected
/// and leaves the state as it is.
pub proof fn release_takes_effect_once(
    s0: ModelState,
    s1: ModelState,
    s2: ModelState,
    id: u64,
    now: u64,
    later: u64,
    r1: Result<(), String>,
    r2: Result<(), String>,
)
    requires
        escrow_op_outcome(s0, s1, EscrowOp::Release { id, now }, r1),
        r1 is Ok,
        escrow_op_outcome(s1, s2, EscrowOp::Release { id, now: later }, r2),
    ensures
        r2 is Err,
        s1.unchanged(s2),
{
    let i: int = first_where(s0.escrows@, escrow_with_id(id))->0;
    lemma_escrow_stays_first(s0, s1, i, s0.escrows@[i].with_status(EscrowStatus::Released), id);
}

/// A dispute is opened once: opening a dispute on the same escrow again is
/// rejected and leaves the state as it is.
pub proof fn dispute_opens_once(
    s0: ModelState,
    s1: ModelState,
    s2: ModelState,
    id: u64,
    reason: String,
    reason2: String,
    now: u64,
    later: u64,
    r1: Result<(), String>,
    r2: Result<(), String>,
)
    requires
        escrow_op_outcome(s0, s1, EscrowOp::Dispute { id, reason, now }, r1),
        r1 is Ok,
        escrow_op_outcome(s1, s2, EscrowOp::Dispute { id, reason: reason2, now: later }, r2),
    ensures
        r2 is Err,
        s1.unchanged(s2),
{
    let i: int = first_where(s0.escrows@, escrow_with_id(id))->0;
    lemma_escrow_stays_first(s0, s1, i, s0.escrows@[i].disputed(now, reason), id);
}

/// A dispute is resolved once: resolving the same escrow again is rejected
/// and leaves the state as it is.
pub proof fn resolution_takes_effect_once(
    s0: ModelState,
    s1: ModelState,
    s2: ModelState,
    id: u64,
    now: u64,
    later: u64,
    release_to_seller: bool,
    release_to_seller2: bool,
    admin: bool,
    admin2: bool,
    r1: Result<(), String>,
    r2: Result<(), String>,
)
    requires
        escrow_op_outcome(s0, s1, EscrowOp::Resolve { id, now, release_to_seller, admin }, r1),
        r1 is Ok,
        escrow_op_outcome(
            s1,
            s2,
            EscrowOp::Resolve { id, now: later, release_to_seller: release_to_seller2, admin: admin2 },
            r2,
        ),
    ensures
        r2 is Err,
        s1.unchanged(s2),
{
    let i: int = first_where(s0.escrows@, escrow_with_id(id))->0;
    lemma_escrow_stays_first(s0, s1, i, s0.escrows@[i].with_status(EscrowStatus::Resolved), id);
}

/// `a` and `b` are the same escrow: equal in every field, the token compared by its strkey.
pub open spec fn same_escrow(a: EscrowModel, b: EscrowModel) -> bool {
    &&& a.id == b.id
    &&& a.buyer == b.buyer
    &&& a.seller == b.seller
    &&& a.token@ == b.token@
    &&& a.amount == b.amount
    &&& a.status == b.status
    &&& a.release_window == b.release_window
    &&& a.created_at == b.created_at
    &&& a.funded == b.funded
    &&& a.funding_deadline == b.funding_deadline
    &&& a.dispute_reason == b.dispute_reason
    &&& a.dispute_initiated_at == b.dispute_initiated_at
}

/// Escrow operations are deterministic: from the same state, the same operation
/// gives the same result (with the same message), the same totals, the same
/// escrows (a generated token address compared by its strkey) and leaves
/// everything else alike.
pub proof fn escrow_ops_are_deterministic(
    old: ModelState,
    n1: ModelState,
    n2: ModelState,
    op: EscrowOp,
    r1: Result<(), String>,
    r2: Result<(), String>,
)
    requires
        escrow_op_outcome(old, n1, op, r1),
        escrow_op_outcome(old, n2, op, r2),
    ensures
        r1 is Ok <==> r2 is Ok,
        r1 matches Err(m1) ==> (r2 matches Err(m2) && m1@ == m2@),
        n1.invariants == n2.invariants,
        n1.total_minted == n2.total_minted,
        n1.escrows@.len() == n2.escrows@.len(),
        forall|i: int|
            0 <= i < n1.escrows@.len() ==> same_escrow(
                #[trigger] n1.escrows@[i],
                n2.escrows@[i],
            ),
        n1.disputes@ == n2.disputes@,
        n1.recurring@ == n2.recurring@,
        n1.stakes@ == n2.stakes@,
        n1.profiles@ == n2.profiles@,
{
    match op {
        EscrowOp::Create { .. } => {
            assert forall|i: int| 0 <= i < n1.escrows@.len() implies same_escrow(
                #[trigger] n1.escrows@[i],
                n2.escrows@[i],
            ) by {
                if i < old.escrows@.len() {
                    assert(n1.escrows@[i] == n1.escrows@.drop_last()[i]);
                    assert(n2.escrows@[i] == n2.escrows@.drop_last()[i]);
                }
            }
        },
        _ => {},
    }
}

// ── Model state ────────────────────────────────────────────────────────────

/// Registering an escrow under a new id and then removing that id restores
/// the escrows and the totals.
pub proof fn removing_an_added_escrow_restores(
    s0: ModelState,
    s1: ModelState,
    s2: ModelState,
    e: EscrowModel,
)
    requires
        first_where(s0.escrows@, escrow_with_id(e.id)) is None,
        fits_i128(s0.invariants.total_escrow_amount + e.amount),
        s0.escrow_added(s1, e),
        s1.escrow_removed(s2, e.id),
    ensures
        s2.escrows@ == s0.escrows@,
        s2.invariants == s0.invariants,
        s2.total_minted == s0.total_minted,
{
    lemma_first_where_push(s0.escrows@, escrow_with_id(e.id), e);
    assert(s0.escrows@.push(e).remove(s0.escrows@.len() as int) =~= s0.escrows@);
}

/// Registering a recurring escrow under a new id and then removing that id
/// restores the recurring escrows and the totals.
pub proof fn removing_an_added_recurring_restores(
    s0: ModelState,
    s1: ModelState,
    s2: ModelState,
    r: RecurringEscrowModel,
)
    requires
        first_where(s0.recurring@, recurring_with_id(r.id)) is None,
        fits_i128(s0.invariants.total_recurring + r.total_amount),
        s0.recurring_added(s1, r),
        s1.recurring_removed(s2, r.id),
    ensures
        s2.recurring@ == s0.recurring@,
        s2.invariants == s0.invariants,
        s2.total_minted == s0.total_minted,
{
    lemma_first_where_push(s0.recurring@, recurring_with_id(r.id), r);
    assert(s0.recurring@.push(r).remove(s0.recurring@.len() as int) =~= s0.recurring@);
}

/// Counting an amount in and then out again leaves the totals as they were.
pub proof fn totals_add_then_remove_restores(inv: ConservationInvariants, amount: i128)
    requires
        fits_i128(inv.total_escrow_amount + amount),
        fits_i128(inv.total_staked + amount),
        fits_i128(inv.total_recurring + amount),
    ensures
        (ConservationInvariants {
            total_escrow_amount: ((inv.total_escrow_amount + amount) as i128 - amount) as i128,
            ..inv
        }) == inv,
        (ConservationInvariants {
            total_staked: ((inv.total_staked + amount) as i128 - amount) as i128,
            ..inv
        }) == inv,
        (ConservationInvariants {
            total_recurring: ((inv.total_recurring + amount) as i128 - amount) as i128,
            ..inv
        }) == inv,
{
}

// ── Disputes ───────────────────────────────────────────────────────────────

/// A decided dispute is final: it is in stage `Resolved`, which both
/// `try_resolve` and `try_force_resolve_if_expired` reject.
pub proof fn decided_dispute_is_final(d: DisputeModel, release_to_seller: bool)
    requires
        d.stage != DisputeStage::Resolved,
    ensures
        (DisputeModel {
            stage: DisputeStage::Resolved,
            resolved_at: Some(d.decision_time()),
            release_to_seller: Some(release_to_seller),
            ..d
        }).stage == DisputeStage::Resolved,
        d.decision_time() == d.initiated_at || d.escalated_at == Some(d.decision_time())
            || d.challenge_evidence_at == Some(d.decision_time()),
{
}

// ── Recurring escrows ──────────────────────────────────────────────────────

/// Payout bookkeeping of a recurring escrow: at least one cycle, no more cycles
/// paid than it has, one equal share per paid cycle, and active only while
/// cycles remain.
pub open spec fn payouts_consistent(r: RecurringEscrowModel) -> bool {
    &&& r.duration >= 1
    &&& r.current_cycle <= r.duration
    &&& r.released_amount == r.current_cycle * r.cycle_share()
    &&& r.is_active ==> r.current_cycle < r.duration
}

/// A new recurring escrow has consistent payouts.
pub proof fn new_recurring_is_consistent(r: RecurringEscrowModel)
    requires
        r.duration >= 1,
        r.current_cycle == 0,
        r.released_amount == 0,
    ensures
        payouts_consistent(r),
{
}

/// Paying out a cycle keeps the payouts consistent.
pub proof fn release_keeps_payouts_consistent(r: RecurringEscrowModel, new: RecurringEscrowModel, now: u64)
    requires
        payouts_consistent(r),
        r.after_release_attempt(new, now),
    ensures
        payouts_consistent(new),
{
    if r.release_proceeds(now) {
        assert(new.cycle_share() == r.cycle_share());
        assert((r.current_cycle + 1) * r.cycle_share() == r.current_cycle * r.cycle_share()
            + r.cycle_share()) by (nonlinear_arith);
    }
}

/// Cancelling keeps the payouts consistent.
pub proof fn cancel_keeps_payouts_consistent(r: RecurringEscrowModel, new: RecurringEscrowModel)
    requires
        payouts_consistent(r),
        r.after_cancel(new),
    ensures
        payouts_consistent(new),
{
    if r.is_active {
        assert(new.cycle_share() == r.cycle_share());
    }
}

/// A recurring escrow with consistent payouts and a non-negative total never
/// pays out more than its total: what is released lies between zero and the
/// total, so what a cancellation hands back is never negative.
pub proof fn payouts_never_exceed_total(r: RecurringEscrowModel)
    requires
        payouts_consistent(r),
        r.total_amount >= 0,
    ensures
        0 <= r.released_amount <= r.total_amount,
        r.total_amount - r.released_amount >= 0,
{
    let t: int = r.total_amount as int;
    let d: int = r.duration as int;
    let c: int = r.current_cycle as int;
    let q: int = t / d;
    assert(r.cycle_share() == q);
    assert(0 <= q) by (nonlinear_arith)
        requires
            t >= 0,
            d >= 1,
            q == t / d,
    ;
    assert(d * q <= t) by (nonlinear_arith)
        requires
            t >= 0,
            d >= 1,
            q == t / d,
    ;
    assert(0 <= c * q <= d * q) by (nonlinear_arith)
        requires
            0 <= c <= d,
            q >= 0,
    ;
}

/// With consistent payouts and a non-negative total, what has been released
/// is at most what `expected_released` computes for the cycles paid so far,
/// which in turn is at most the total.
pub proof fn released_within_expected(r: RecurringEscrowModel)
    requires
        payouts_consistent(r),
        r.total_amount >= 0,
    ensures
        r.released_amount <= trunc_div(r.current_cycle * r.total_amount, r.duration as int),
        trunc_div(r.current_cycle * r.total_amount, r.duration as int) <= r.total_amount,
{
    let t: int = r.total_amount as int;
    let d: int = r.duration as int;
    let c: int = r.current_cycle as int;
    let q: int = t / d;
    let e: int = (c * t) / d;
    assert(r.cycle_share() == q);
    assert(c * t >= 0) by (nonlinear_arith)
        requires
            c >= 0,
            t >= 0,
    ;
    assert(trunc_div(c * t, d) == e);
    assert(c * q <= e) by (nonlinear_arith)
        requires
            t >= 0,
            d >= 1,
            c >= 0,
            q == t / d,
            e == (c * t) / d,
    {
        assert(d * q <= t);
        assert(d * (c * q) <= c * t);
        assert(c * t < d * (e + 1));
    }
    assert(e <= t) by (nonlinear_arith)
        requires
            t >= 0,
            d >= 1,
            0 <= c <= d,
            e == (c * t) / d,
    {
        assert(c * t <= d * t);
        assert(d * e <= c * t);
    }
}

// ── Stakes ─────────────────────────────────────────────────────────────────

/// What has been withdrawn from a stake lies between zero and what was staked.
pub open spec fn withdrawals_covered(s: StakeModel) -> bool {
    0 <= s.unstaked_amount <= s.staked_amount
}

/// A new stake has nothing staked and nothing withdrawn.
pub proof fn fresh_stake_is_covered(artisan: crate::address::Address, token: crate::address::Address)
    ensures
        withdrawals_covered(StakeModel::fresh(artisan, token)),
{
}

/// Staking more keeps withdrawals covered.
pub proof fn staking_keeps_withdrawals_covered(s: StakeModel, amount: i128, now: u64)
    requires
        withdrawals_covered(s),
        amount > 0,
        s.staked_amount + amount <= i128::MAX,
    ensures
        withdrawals_covered(s.staked(amount, now)),
{
}

/// Withdrawing, after the cooldown or early, never takes out more than was staked.
pub proof fn withdrawing_keeps_withdrawals_covered(s: StakeModel, amount: i128)
    requires
        withdrawals_covered(s),
        s.valid_withdrawal(amount),
    ensures
        withdrawals_covered(s.withdrawn(amount)),
        withdrawals_covered(s.withdrawn_early(amount)),
{
}

/// While the cooldown after the last stake runs, no withdrawal goes through.
pub proof fn no_withdrawal_during_cooldown(s: StakeModel, now: u64, amount: i128)
    requires
        s.cooling_down(now),
    ensures
        !s.can_unstake(now, amount),
{
}

// ── Profiles ───────────────────────────────────────────────────────────────

/// A user is onboarded once: after onboarding with a role, onboarding again is rejected.
pub proof fn onboarding_happens_once(p: OnboardingProfileModel, role: UserRoleModel)
    requires
        p.role == UserRoleModel::NoRole,
        role != UserRoleModel::NoRole,
    ensures
        p.with_role(role).role != UserRoleModel::NoRole,
{
}

/// Every successful profile change advances the version by exactly one.
pub proof fn profile_changes_advance_version(
    p: OnboardingProfileModel,
    role: UserRoleModel,
    status: crate::profile::ProfileStatusModel,
    verified: bool,
)
    requires
        p.state_version < u32::MAX,
    ensures
        p.with_role(role).state_version == p.state_version + 1,
        p.with_status(status).state_version == p.state_version + 1,
        p.with_verified(verified).state_version == p.state_version + 1,
{
}

// ── Upgrade commitments ────────────────────────────────────────────────────

/// The code hash that an upgrade-commitment operation records.
pub open spec fn recorded_hash(op: UpgradeCommitmentOp) -> u32 {
    match op {
        UpgradeCommitmentOp::Record { wasm_hash, .. } => wasm_hash,
    }
}

/// No two immutable commitments are for the same code hash.
pub open spec fn hashes_unique(s: Seq<UpgradeStateCommitmentModel>) -> bool {
    forall|i: int, j: int|
        0 <= i < s.len() && 0 <= j < s.len() && i != j && s[i].immutable && s[j].immutable
            ==> (#[trigger] s[i]).wasm_hash != (#[trigger] s[j]).wasm_hash
}

/// Every recorded commitment is immutable and was activated when it was recorded.
pub open spec fn all_sealed(s: Seq<UpgradeStateCommitmentModel>) -> bool {
    forall|i: int| 0 <= i < s.len() ==> (#[trigger] s[i]).immutable && s[i].activated_at == s[i].timestamp
}

/// Commitments are never dropped or altered: whatever was recorded stays, in order.
pub proof fn commitments_persist(
    old: Seq<UpgradeStateCommitmentModel>,
    new: Seq<UpgradeStateCommitmentModel>,
    op: UpgradeCommitmentOp,
    r: Result<(), String>,
    wasm_hash: u32,
)
    requires
        upgrade_op_outcome(old, new, op, r),
    ensures
        new.len() >= old.len(),
        new.subrange(0, old.len() as int) == old,
        hash_committed(old, wasm_hash) ==> hash_committed(new, wasm_hash),
{
    if hash_committed(old, wasm_hash) {
        let i: int = choose|i: int|
            0 <= i < old.len() && (#[trigger] old[i]).wasm_hash == wasm_hash && old[i].immutable;
        assert(new[i] == old[i]);
    }
    assert(new.subrange(0, old.len() as int) =~= old);
}

/// An upgrade whose code hash was already committed is rejected and changes nothing.
pub proof fn committed_hash_is_rejected(
    old: Seq<UpgradeStateCommitmentModel>,
    new: Seq<UpgradeStateCommitmentModel>,
    op: UpgradeCommitmentOp,
    r: Result<(), String>,
)
    requires
        upgrade_op_outcome(old, new, op, r),
        hash_committed(old, recorded_hash(op)),
    ensures
        r is Err,
        new == old,
{
}

/// Recording the same code hash twice: the second attempt is rejected and
/// the commitments stay as the first one left them.
pub proof fn upgrade_executes_once(
    c0: Seq<UpgradeStateCommitmentModel>,
    c1: Seq<UpgradeStateCommitmentModel>,
    c2: Seq<UpgradeStateCommitmentModel>,
    op1: UpgradeCommitmentOp,
    op2: UpgradeCommitmentOp,
    r1: Result<(), String>,
    r2: Result<(), String>,
)
    requires
        upgrade_op_outcome(c0, c1, op1, r1),
        r1 is Ok,
        upgrade_op_outcome(c1, c2, op2, r2),
        recorded_hash(op2) == recorded_hash(op1),
    ensures
        r2 is Err,
        c2 == c1,
{
    let n: int = c0.len() as int;
    assert(c1[n].wasm_hash == recorded_hash(op1) && c1[n].immutable);
    assert(hash_committed(c1, recorded_hash(op2)));
}

/// Recording keeps code hashes unique among immutable commitments.
pub proof fn recording_keeps_hashes_unique(
    old: Seq<UpgradeStateCommitmentModel>,
    new: Seq<UpgradeStateCommitmentModel>,
    op: UpgradeCommitmentOp,
    r: Result<(), String>,
)
    requires
        hashes_unique(old),
        upgrade_op_outcome(old, new, op, r),
    ensures
        hashes_unique(new),
{
    if !hash_committed(old, recorded_hash(op)) {
        let n: int = old.len() as int;
        assert forall|i: int, j: int|
            0 <= i < new.len() && 0 <= j < new.len() && i != j && new[i].immutable
                && new[j].immutable implies (#[trigger] new[i]).wasm_hash
            != (#[trigger] new[j]).wasm_hash by {
            if i == n {
                assert(new[j] == old[j]);
            } else if j == n {
                assert(new[i] == old[i]);
            } else {
                assert(new[i] == old[i] && new[j] == old[j]);
            }
        }
    }
}

/// Recording keeps every commitment immutable and activated when recorded.
pub proof fn recording_keeps_commitments_sealed(
    old: Seq<UpgradeStateCommitmentModel>,
    new: Seq<UpgradeStateCommitmentModel>,
    op: UpgradeCommitmentOp,
    r: Result<(), String>,
)
    requires
        all_sealed(old),
        upgrade_op_outcome(old, new, op, r),
    ensures
        all_sealed(new),
{
    if !hash_committed(old, recorded_hash(op)) {
        assert forall|i: int| 0 <= i < new.len() implies (#[trigger] new[i]).immutable
            && new[i].activated_at == new[i].timestamp by {
            if i < old.len() {
                assert(new[i] == old[i]);
            }
        }
    }
}

} // verus!
