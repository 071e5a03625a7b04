use craft_nexus_contract::address::Address;
use craft_nexus_contract::escrow::EscrowStatus;
use craft_nexus_contract::ops::{
    execute_escrow_op, execute_onboarding_op, execute_recurring_op, execute_stake_op, EscrowOp,
    OnboardingOp, RecurringOp, StakeOp,
};
use craft_nexus_contract::profile::{ProfileStatusModel, UserRoleModel};
use craft_nexus_contract::stake::StakeStatus;
use craft_nexus_contract::state::ModelState;
use craft_nexus_contract::upgrade::{execute_upgrade_commitment_op, UpgradeCommitmentOp};
use soroban_sdk::testutils::{Address as _, EnvTestConfig};

/// An address as `Address::generate` hands it out on a fresh test ledger.
fn generated() -> Address {
    let env = soroban_sdk::Env::new_with_config(EnvTestConfig { capture_snapshot_at_drop: false });
    Address::from_strkey(soroban_sdk::Address::generate(&env).to_string().to_string())
}

#[test]
fn test_escrow_create_and_release() {
    let mut state = ModelState::new(10_000_000);
    let buyer = generated();
    let seller = generated();

    let op = EscrowOp::Create { id: 1, buyer: buyer.clone(), seller, amount: 1000, window: 3600 };
    execute_escrow_op(&mut state, op).unwrap();

    assert_eq!(state.escrows.len(), 1);
    assert_eq!(state.escrows[0].status, EscrowStatus::Active);

    // Try releasing before window elapsed (should fail)
    let release_op = EscrowOp::Release { id: 1, now: 100 };
    let result = execute_escrow_op(&mut state, release_op);
    assert!(result.is_err());

    assert!(matches!(state.escrows[0].status, EscrowStatus::Active));
}

#[test]
fn test_stake_cooldown_model() {
    let mut state = ModelState::new(10_000_000);
    let artisan = generated();
    let token = generated();

    let op = StakeOp::Stake {
        artisan: artisan.clone(),
        token: token.clone(),
        amount: 500,
        now: 1_711_368_000,
    };
    execute_stake_op(&mut state, op).unwrap();

    assert_eq!(state.stakes[0].staked_amount, 500);
    assert!(matches!(state.stakes[0].status, StakeStatus::Staked));

    // Try unstaking before cooldown (should fail)
    let unstake_op = StakeOp::Unstake {
        artisan: artisan.clone(),
        token: token.clone(),
        amount: 100,
        now: 1_711_368_001,
    };
    let result = execute_stake_op(&mut state, unstake_op);
    assert!(result.is_err());

    // Advance past cooldown (7 days = 604800 seconds)
    let advance_op = StakeOp::AdvanceTime { now: 1_711_368_000, seconds: 7 * 24 * 60 * 60 + 1 };
    execute_stake_op(&mut state, advance_op).unwrap();

    // Now unstake should succeed
    let unstake_op2 = StakeOp::Unstake {
        artisan,
        token,
        amount: 100,
        now: 1_711_368_000 + 7 * 24 * 60 * 60 + 1,
    };
    execute_stake_op(&mut state, unstake_op2).unwrap();

    assert_eq!(state.stakes[0].unstaked_amount, 100);
    assert!(matches!(state.stakes[0].status, StakeStatus::Unstaked));
}

#[test]
fn test_recurring_escrow_cycles() {
    let mut state = ModelState::new(10_000_000);
    let buyer = generated();
    let artisan = generated();

    let op = RecurringOp::Create {
        id: 1,
        buyer: buyer.clone(),
        artisan: artisan.clone(),
        amount: 1000,
        frequency: 3600,
        duration: 2,
    };
    execute_recurring_op(&mut state, op).unwrap();

    assert_eq!(state.recurring.len(), 1);
    assert!(state.recurring[0].is_active);
    assert_eq!(state.recurring[0].current_cycle, 0);

    let release_op = RecurringOp::ReleaseCycle { id: 1, now: 3601 };
    execute_recurring_op(&mut state, release_op).unwrap();

    assert_eq!(state.recurring[0].current_cycle, 1);
    assert!(state.recurring[0].is_active);

    let release_op2 = RecurringOp::ReleaseCycle { id: 1, now: 7202 };
    execute_recurring_op(&mut state, release_op2).unwrap();

    assert_eq!(state.recurring[0].current_cycle, 2);
    assert!(!state.recurring[0].is_active);
}

#[test]
fn test_onboarding_lifecycle() {
    let mut state = ModelState::new(10_000_000);
    let buyer = generated();

    let op = OnboardingOp::Onboard {
        address: buyer.clone(),
        username: "testuser".to_string(),
        role: UserRoleModel::Buyer,
    };
    execute_onboarding_op(&mut state, op).unwrap();

    assert_eq!(state.profiles.len(), 1);
    let profile = &state.profiles[0];
    assert_eq!(profile.role, UserRoleModel::Buyer);
    assert_eq!(profile.status, ProfileStatusModel::Active);

    let op = OnboardingOp::Deactivate { address: buyer.clone() };
    execute_onboarding_op(&mut state, op).unwrap();
    assert_eq!(state.profiles[0].status, ProfileStatusModel::Deactivated);

    let op = OnboardingOp::Reactivate { address: buyer, username_taken: false };
    execute_onboarding_op(&mut state, op).unwrap();
    assert_eq!(state.profiles[0].status, ProfileStatusModel::Active);
}

#[test]
fn test_conservation_invariant() {
    let mut state = ModelState::new(50_000_000);

    let buyer = generated();
    let seller = generated();
    let escrow_op = EscrowOp::Create {
        id: 1,
        buyer: buyer.clone(),
        seller: seller.clone(),
        amount: 5000,
        window: 3600,
    };
    execute_escrow_op(&mut state, escrow_op).unwrap();

    let artisan = generated();
    let token = generated();
    let stake_op = StakeOp::Stake {
        artisan: artisan.clone(),
        token: token.clone(),
        amount: 2000,
        now: 1_711_368_000,
    };
    execute_stake_op(&mut state, stake_op).unwrap();

    assert!(state.check_all_invariants());

    let escrow_op2 = EscrowOp::Create { id: 2, buyer, seller, amount: 30000, window: 3600 };
    execute_escrow_op(&mut state, escrow_op2).unwrap();

    assert!(state.check_all_invariants());
}

#[test]
fn test_upgrade_commitment_recorded_immutable() {
    let mut commitments = Vec::new();
    let admin = generated();

    execute_upgrade_commitment_op(
        &mut commitments,
        UpgradeCommitmentOp::Record {
            from_version: 1,
            to_version: 2,
            wasm_hash: 0xABCD,
            state_digest: 100,
            migration_result_digest: 200,
            admin: admin.clone(),
            now: 1_711_368_000,
        },
    )
    .unwrap();

    assert_eq!(commitments.len(), 1);
    let commitment = &commitments[0];
    assert_eq!(commitment.from_version, 1);
    assert_eq!(commitment.to_version, 2);
    assert_eq!(commitment.wasm_hash, 0xABCD);
    assert!(commitment.immutable, "commitment must be immutable after activation");
    assert_eq!(commitment.activated_at, commitment.timestamp);
}

#[test]
fn test_upgrade_commitment_rejects_reexecution_of_immutable_hash() {
    let mut commitments = Vec::new();
    let admin = generated();

    execute_upgrade_commitment_op(
        &mut commitments,
        UpgradeCommitmentOp::Record {
            from_version: 1,
            to_version: 2,
            wasm_hash: 0xAAAA,
            state_digest: 1,
            migration_result_digest: 2,
            admin: admin.clone(),
            now: 1_711_368_000,
        },
    )
    .unwrap();

    // A second record for the same hash must be rejected.
    let result = execute_upgrade_commitment_op(
        &mut commitments,
        UpgradeCommitmentOp::Record {
            from_version: 2,
            to_version: 3,
            wasm_hash: 0xAAAA,
            state_digest: 3,
            migration_result_digest: 4,
            admin,
            now: 1_711_376_000,
        },
    );
    assert_eq!(result.unwrap_err(), "UpgradeAlreadyExecuted");
    assert_eq!(commitments.len(), 1);
}

#[test]
fn test_upgrade_commitment_allows_distinct_hashes() {
    let mut commitments = Vec::new();
    let admin = generated();

    for (idx, hash) in [0xBEEF, 0xCAFE].iter().enumerate() {
        execute_upgrade_commitment_op(
            &mut commitments,
            UpgradeCommitmentOp::Record {
                from_version: idx as u32 + 1,
                to_version: idx as u32 + 2,
                wasm_hash: *hash,
                state_digest: idx as u32,
                migration_result_digest: idx as u32,
                admin: admin.clone(),
                now: 1_711_368_000 + idx as u64,
            },
        )
        .unwrap();
    }

    assert_eq!(commitments.len(), 2);
    assert!(commitments.iter().all(|c| c.immutable));
}
