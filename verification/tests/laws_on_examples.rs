use craft_nexus_contract::address::Address;
use craft_nexus_contract::dispute::DisputeModel;
use craft_nexus_contract::escrow::EscrowModel;
use craft_nexus_contract::ops::{execute_escrow_op, execute_recurring_op, EscrowOp, RecurringOp};
use craft_nexus_contract::recurring::RecurringEscrowModel;
use craft_nexus_contract::state::ModelState;
use craft_nexus_contract::upgrade::{execute_upgrade_commitment_op, UpgradeCommitmentOp};
use craft_nexus_contract::windows::is_window_closed;

fn addr(key: &str) -> Address {
    Address::from_strkey(key.to_string())
}

fn escrow_sum(state: &ModelState) -> i128 {
    state.escrows.iter().map(|e| e.amount).sum()
}

fn recurring_sum(state: &ModelState) -> i128 {
    state.recurring.iter().map(|r| r.total_amount).sum()
}

#[test]
fn books_stay_balanced_through_a_run_of_operations() {
    let mut state = ModelState::new(1_000_000);
    for id in 1..=4u64 {
        let op = EscrowOp::Create { id, buyer: addr("GB"), seller: addr("GS"), amount: 100 * id as i128, window: 10 };
        execute_escrow_op(&mut state, op).unwrap();
        let op = RecurringOp::Create { id, buyer: addr("GB"), artisan: addr("GA"), amount: 30 * id as i128, frequency: 0, duration: 3 };
        execute_recurring_op(&mut state, op).unwrap();
    }
    let _ = execute_escrow_op(&mut state, EscrowOp::Release { id: 2, now: 10 });
    let _ = execute_escrow_op(&mut state, EscrowOp::Dispute { id: 3, reason: "r".to_string(), now: 1 });
    let _ = execute_recurring_op(&mut state, RecurringOp::ReleaseCycle { id: 1, now: 0 });
    let _ = execute_recurring_op(&mut state, RecurringOp::Cancel { id: 2 });
    state.remove_escrow(1);
    state.remove_recurring(4);
    state.add_escrow(EscrowModel::new(9, addr("GB"), addr("GS"), addr("CT"), 77, 0, 0));
    assert_eq!(state.invariants.total_escrow_amount, escrow_sum(&state));
    assert_eq!(state.invariants.total_recurring, recurring_sum(&state));
}

#[test]
fn escrow_operations_are_deterministic() {
    let mut a = ModelState::new(0);
    let mut b = ModelState::new(0);
    for state in [&mut a, &mut b] {
        execute_escrow_op(state, EscrowOp::Create { id: 1, buyer: addr("GB"), seller: addr("GS"), amount: 5, window: 20 }).unwrap();
    }
    let ra = execute_escrow_op(&mut a, EscrowOp::Release { id: 1, now: 3 });
    let rb = execute_escrow_op(&mut b, EscrowOp::Release { id: 1, now: 3 });
    assert_eq!(ra, rb);
    assert_eq!(a.escrows[0].token, b.escrows[0].token);
    assert_eq!(a.escrows[0].status, b.escrows[0].status);
}

#[test]
fn a_dispute_opens_only_once() {
    let mut state = ModelState::new(0);
    execute_escrow_op(&mut state, EscrowOp::Create { id: 1, buyer: addr("GB"), seller: addr("GS"), amount: 5, window: 20 }).unwrap();
    execute_escrow_op(&mut state, EscrowOp::Dispute { id: 1, reason: "first".to_string(), now: 3 }).unwrap();
    let before = state.escrows[0].clone();
    assert!(execute_escrow_op(&mut state, EscrowOp::Dispute { id: 1, reason: "second".to_string(), now: 4 }).is_err());
    assert_eq!(state.escrows[0].dispute_reason, before.dispute_reason);
    assert_eq!(state.escrows[0].dispute_initiated_at, Some(3));
}

#[test]
fn removing_an_added_escrow_restores_the_state() {
    let mut state = ModelState::new(0);
    state.add_escrow(EscrowModel::new(1, addr("GB"), addr("GS"), addr("CT"), 40, 0, 0));
    let totals = state.invariants;
    state.add_escrow(EscrowModel::new(2, addr("GB"), addr("GS"), addr("CT"), 60, 0, 0));
    state.remove_escrow(2);
    assert_eq!(state.invariants, totals);
    assert_eq!(state.escrows.len(), 1);
    assert_eq!(state.escrows[0].id, 1);
}

#[test]
fn closed_windows_stay_closed() {
    for now in 100..200u64 {
        assert!(is_window_closed(now, 40, 60));
    }
    assert!(!is_window_closed(99, 40, 60));
}

#[test]
fn payouts_never_exceed_the_total() {
    for duration in 1..=7u32 {
        let mut r = RecurringEscrowModel::new(1, addr("GB"), addr("GA"), addr("CT"), 1000, 0, duration);
        while r.try_release_next_cycle(0).is_ok() {
            assert!(r.released_amount <= r.total_amount);
            assert!(r.released_amount <= r.expected_released());
            assert!(r.expected_released() <= r.total_amount);
            assert_eq!(r.released_amount, r.current_cycle as i128 * (1000 / duration as i128));
        }
        assert_eq!(r.current_cycle, duration as u64);
        assert!(r.try_cancel() >= 0);
    }
}

#[test]
fn a_resolved_dispute_stays_resolved() {
    let mut d = DisputeModel::new(1, 1);
    d.try_resolve(false).unwrap();
    assert!(d.try_resolve(true).is_err());
    assert!(d.try_force_resolve_if_expired(u64::MAX).is_err());
    assert_eq!(d.release_to_seller, Some(false));
}

#[test]
fn commitments_keep_unique_hashes_and_persist() {
    let mut commitments = Vec::new();
    for (i, hash) in [5u32, 6, 5, 7, 6, 5].iter().enumerate() {
        let op = UpgradeCommitmentOp::Record {
            from_version: i as u32,
            to_version: i as u32 + 1,
            wasm_hash: *hash,
            state_digest: 0,
            migration_result_digest: 0,
            admin: addr("GADMIN"),
            now: i as u64,
        };
        let _ = execute_upgrade_commitment_op(&mut commitments, op);
    }
    let hashes: Vec<u32> = commitments.iter().map(|c| c.wasm_hash).collect();
    assert_eq!(hashes, vec![5, 6, 7]);
    assert!(commitments.iter().all(|c| c.immutable && c.activated_at == c.timestamp));
}
