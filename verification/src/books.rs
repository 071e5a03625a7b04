//! The running totals of a model state agree with the collections they count:
//! the escrow total is the sum of the escrows' amounts and the recurring total
//! the sum of the recurring escrows' totals. Every operation keeps this so.

use vstd::prelude::*;
use crate::conservation::fits_i128;
use crate::escrow::EscrowModel;
use crate::ops::{
    escrow_op_fits, escrow_op_outcome, onboarding_op_outcome, recurring_op_fits, recurring_op_outcome, stake_op_outcome, EscrowOp,
    OnboardingOp, RecurringOp, StakeOp,
};
use crate::recurring::RecurringEscrowModel;
use crate::seqs::first_where;
use crate::state::{escrow_with_id, recurring_with_id, ModelState};

verus! {

/// Sum of `f` over the elements of `s`.
pub open spec fn total_of<T>(s: Seq<T>, f: spec_fn(T) -> int) -> int
    decreases s.len(),
{
    if s.len() == 0 {
        0
    } else {
        total_of(s.drop_last(), f) + f(s.last())
    }
}

/// The amount of an escrow.
pub open spec fn escrow_amount() -> spec_fn(EscrowModel) -> int {
    |e: EscrowModel| e.amount as int
}

/// The total amount of a recurring escrow.
pub open spec fn recurring_amount() -> spec_fn(RecurringEscrowModel) -> int {
    |r: RecurringEscrowModel| r.total_amount as int
}

/// The escrow and recurring totals of `st` are the sums over its escrows and recurring escrows.
pub open spec fn books_balanced(st: ModelState) -> bool {
    &&& st.invariants.total_escrow_amount == total_of(st.escrows@, escrow_amount())
    &&& st.invariants.total_recurring == total_of(st.recurring@, recurring_amount())
}

proof fn lemma_total_push<T>(s: Seq<T>, x: T, f: spec_fn(T) -> int)
    ensures
        total_of(s.push(x), f) == total_of(s, f) + f(x),
{
    assert(s.push(x).drop_last() =~= s);
}

proof fn lemma_total_update<T>(s: Seq<T>, i: int, x: T, f: spec_fn(T) -> int)
    requires
        0 <= i < s.len(),
        f(x) == f(s[i]),
    ensures
        total_of(s.update(i, x), f) == total_of(s, f),
    decreases s.len(),
{
    if i == s.len() - 1 {
        assert(s.update(i, x).drop_last() =~= s.drop_last());
    } else {
        lemma_total_update(s.drop_last(), i, x, f);
        assert(s.update(i, x).drop_last() =~= s.drop_last().update(i, x));
    }
}

proof fn lemma_total_remove<T>(s: Seq<T>, i: int, f: spec_fn(T) -> int)
    requires
        0 <= i < s.len(),
    ensures
        total_of(s.remove(i), f) == total_of(s, f) - f(s[i]),
    decreases s.len(),
{
    if i == s.len() - 1 {
        assert(s.remove(i) =~= s.drop_last());
    } else {
        lemma_total_remove(s.drop_last(), i, f);
        assert(s.remove(i).drop_last() =~= s.drop_last().remove(i));
    }
}

/// An empty state (as `ModelState::new` makes) is balanced.
pub proof fn empty_state_is_balanced(st: ModelState)
    requires
        st.escrows@.len() == 0,
        st.recurring@.len() == 0,
        st.invariants.total_escrow_amount == 0,
        st.invariants.total_recurring == 0,
    ensures
        books_balanced(st),
{
}

/// Registering an escrow keeps the books balanced.
pub proof fn add_escrow_keeps_books(old: ModelState, new: ModelState, escrow: EscrowModel)
    requires
        books_balanced(old),
        fits_i128(old.invariants.total_escrow_amount + escrow.amount),
        old.escrow_added(new, escrow),
    ensures
        books_balanced(new),
{
    lemma_total_push(old.escrows@, escrow, escrow_amount());
}

/// Removing an escrow keeps the books balanced.
pub proof fn remove_escrow_keeps_books(old: ModelState, new: ModelState, id: u64)
    requires
        books_balanced(old),
        match first_where(old.escrows@, escrow_with_id(id)) {
            Some(i) => fits_i128(old.invariants.total_escrow_amount - old.escrows@[i].amount),
            None => true,
        },
        old.escrow_removed(new, id),
    ensures
        books_balanced(new),
{
    if let Some(i) = first_where(old.escrows@, escrow_with_id(id)) {
        lemma_total_remove(old.escrows@, i, escrow_amount());
    }
}

/// Registering a recurring escrow keeps the books balanced.
pub proof fn add_recurring_keeps_books(old: ModelState, new: ModelState, recurring: RecurringEscrowModel)
    requires
        books_balanced(old),
        fits_i128(old.invariants.total_recurring + recurring.total_amount),
        old.recurring_added(new, recurring),
    ensures
        books_balanced(new),
{
    lemma_total_push(old.recurring@, recurring, recurring_amount());
}

/// Removing a recurring escrow keeps the books balanced.
pub proof fn remove_recurring_keeps_books(old: ModelState, new: ModelState, id: u64)
    requires
        books_balanced(old),
        match first_where(old.recurring@, recurring_with_id(id)) {
            Some(i) => fits_i128(old.invariants.total_recurring - old.recurring@[i].total_amount),
            None => true,
        },
        old.recurring_removed(new, id),
    ensures
        books_balanced(new),
{
    if let Some(i) = first_where(old.recurring@, recurring_with_id(id)) {
        lemma_total_remove(old.recurring@, i, recurring_amount());
    }
}

/// Every escrow operation keeps the books balanced.
pub proof fn escrow_op_keeps_books(old: ModelState, new: ModelState, op: EscrowOp, r: Result<(), String>)
    requires
        books_balanced(old),
        escrow_op_fits(old, op),
        escrow_op_outcome(old, new, op, r),
    ensures
        books_balanced(new),
{
    match op {
        EscrowOp::Create { .. } => {
            assert(new.escrows@ =~= old.escrows@.push(new.escrows@.last()));
            lemma_total_push(old.escrows@, new.escrows@.last(), escrow_amount());
        },
        EscrowOp::Release { id, .. } | EscrowOp::Dispute { id, .. } | EscrowOp::Resolve { id, .. }
        | EscrowOp::Cancel { id, .. } | EscrowOp::ExtendWindow { id, .. } => {
            if let Some(i) = first_where(old.escrows@, escrow_with_id(id)) {
                if new.escrows@ != old.escrows@ {
                    lemma_total_update(old.escrows@, i, new.escrows@[i], escrow_amount());
                }
            }
        },
    }
}

/// Every recurring-escrow operation keeps the books balanced.
pub proof fn recurring_op_keeps_books(
    old: ModelState,
    new: ModelState,
    op: RecurringOp,
    r: Result<(), String>,
)
    requires
        books_balanced(old),
        recurring_op_fits(old, op),
        recurring_op_outcome(old, new, op, r),
    ensures
        books_balanced(new),
{
    match op {
        RecurringOp::Create { .. } => {
            assert(new.recurring@ =~= old.recurring@.push(new.recurring@.last()));
            lemma_total_push(old.recurring@, new.recurring@.last(), recurring_amount());
        },
        RecurringOp::ReleaseCycle { id, .. } | RecurringOp::Cancel { id } => {
            if let Some(i) = first_where(old.recurring@, recurring_with_id(id)) {
                lemma_total_update(old.recurring@, i, new.recurring@[i], recurring_amount());
            }
        },
    }
}

/// Staking operations leave escrows, recurring escrows and their totals alone.
pub proof fn stake_op_keeps_books(old: ModelState, new: ModelState, op: StakeOp, r: Result<(), String>)
    requires
        books_balanced(old),
        stake_op_outcome(old, new, op, r),
    ensures
        books_balanced(new),
{
}

/// Onboarding operations leave escrows, recurring escrows and their totals alone.
pub proof fn onboarding_op_keeps_books(
    old: ModelState,
    new: ModelState,
    op: OnboardingOp,
    r: Result<(), String>,
)
    requires
        books_balanced(old),
        onboarding_op_outcome(old, new, op, r),
    ensures
        books_balanced(new),
{
}

} // verus!
