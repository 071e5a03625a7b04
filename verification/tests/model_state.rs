use craft_nexus_contract::address::Address;
use craft_nexus_contract::dispute::DisputeModel;
use craft_nexus_contract::escrow::{EscrowModel, EscrowStatus};
use craft_nexus_contract::ops::{
    execute_escrow_op, execute_onboarding_op, execute_recurring_op, execute_stake_op, EscrowOp,
    OnboardingOp, RecurringOp, StakeOp,
};
use craft_nexus_contract::profile::{OnboardingProfileModel, ProfileStatusModel, UserRoleModel};
use craft_nexus_contract::recurring::RecurringEscrowModel;
use craft_nexus_contract::stake::{StakeModel, StakeStatus};
use craft_nexus_contract::state::ModelState;
use craft_nexus_contract::time_policy::{MAX_DISPUTE_DURATION, STAKE_COOLDOWN};
use craft_nexus_contract::upgrade::{execute_upgrade_commitment_op, UpgradeCommitmentOp};
use soroban_sdk::testutils::{Address as _, EnvTestConfig};

fn addr(key: &str) -> Address {
    Address::from_strkey(key.to_string())
}

fn create(state: &mut ModelState, id: u64, amount: i128, window: u32) {
    let op = EscrowOp::Create { id, buyer: addr("GBUYER"), seller: addr("GSELLER"), amount, window };
    execute_escrow_op(state, op).unwrap();
}

#[test]
fn created_escrows_use_a_generated_token_address() {
    let mut state = ModelState::new(0);
    create(&mut state, 1, 10, 5);
    let env = soroban_sdk::Env::new_with_config(EnvTestConfig { capture_snapshot_at_drop: false });
    let expected = soroban_sdk::Address::generate(&env).to_string().to_string();
    assert_eq!(state.escrows[0].token.strkey, expected);
    assert_eq!(state.escrows[0].token.strkey, "CAAAAAAAAAAAAAAAAAAAAAAAAAAAAAAAAAAAAAAAAAAAAAAAAAAAD2KM");
    assert_eq!(state.escrows[0].created_at, 0);
    assert_eq!(state.invariants.total_escrow_amount, 10);
}

#[test]
fn escrow_op_errors_carry_the_transition_error() {
    let mut state = ModelState::new(0);
    create(&mut state, 1, 10, 3600);
    assert_eq!(
        execute_escrow_op(&mut state, EscrowOp::Release { id: 1, now: 100 }),
        Err("release failed: ReleaseWindowNotElapsed { created_at: 0, release_window: 3600, now: 100 }".to_string())
    );
    assert_eq!(
        execute_escrow_op(&mut state, EscrowOp::Release { id: 2, now: 100 }),
        Err("escrow not found".to_string())
    );
    assert_eq!(
        execute_escrow_op(&mut state, EscrowOp::Resolve { id: 1, now: 0, release_to_seller: true, admin: true }),
        Err("dispute resolution failed: InvalidCurrentState(\"cannot resolve from Active\")".to_string())
    );
    assert_eq!(
        execute_escrow_op(&mut state, EscrowOp::Cancel { id: 1, now: 0 }),
        Err("cancel failed: InvalidCurrentState(\"cannot cancel a funded escrow\")".to_string())
    );
    assert_eq!(execute_escrow_op(&mut state, EscrowOp::Release { id: 1, now: 3600 }), Ok(()));
    assert_eq!(
        execute_escrow_op(&mut state, EscrowOp::Release { id: 1, now: 3600 }),
        Err("release failed: AlreadyResolved".to_string())
    );
    assert_eq!(
        execute_escrow_op(&mut state, EscrowOp::Dispute { id: 1, reason: "x".to_string(), now: 1 }),
        Err("dispute initiation failed: InvalidCurrentState(\"cannot dispute from Released\")".to_string())
    );
}

#[test]
fn escrow_ops_act_on_the_first_matching_escrow() {
    let mut state = ModelState::new(0);
    create(&mut state, 1, 10, 0);
    create(&mut state, 1, 20, 0);
    execute_escrow_op(&mut state, EscrowOp::Dispute { id: 1, reason: "late".to_string(), now: 9 }).unwrap();
    assert_eq!(state.escrows[0].status, EscrowStatus::Disputed);
    assert_eq!(state.escrows[1].status, EscrowStatus::Active);
    execute_escrow_op(&mut state, EscrowOp::Resolve { id: 1, now: 9 + MAX_DISPUTE_DURATION, release_to_seller: false, admin: false }).unwrap();
    assert_eq!(state.escrows[0].status, EscrowStatus::Resolved);
    execute_escrow_op(&mut state, EscrowOp::ExtendWindow { id: 1, new_window: 77, now: 0 }).unwrap();
    assert_eq!(state.escrows[0].release_window, 77);
    assert_eq!(state.escrows[1].release_window, 0);
    assert_eq!(state.invariants.total_escrow_amount, 30);
}

#[test]
fn remove_escrow_takes_out_the_first_match() {
    let mut state = ModelState::new(0);
    create(&mut state, 1, 10, 0);
    create(&mut state, 2, 20, 0);
    create(&mut state, 1, 40, 0);
    state.remove_escrow(1);
    assert_eq!(state.escrows.len(), 2);
    assert_eq!(state.escrows[0].amount, 20);
    assert_eq!(state.invariants.total_escrow_amount, 60);
    state.remove_escrow(99);
    assert_eq!(state.escrows.len(), 2);
    assert_eq!(state.invariants.total_escrow_amount, 60);
}

#[test]
fn stake_ops_track_new_and_existing_stakes() {
    let mut state = ModelState::new(0);
    let stake = |amount: i128, now: u64| StakeOp::Stake { artisan: addr("GART"), token: addr("CTOK"), amount, now };
    assert_eq!(execute_stake_op(&mut state, stake(0, 1)), Err("stake amount must be positive".to_string()));
    assert!(state.stakes.is_empty());
    execute_stake_op(&mut state, stake(100, 1)).unwrap();
    assert_eq!(state.invariants.total_staked, 100);
    assert_eq!(execute_stake_op(&mut state, stake(-1, 2)), Err("stake failed: stake amount must be positive".to_string()));
    execute_stake_op(&mut state, stake(50, 2)).unwrap();
    assert_eq!(state.stakes.len(), 1);
    assert_eq!(state.stakes[0].staked_amount, 150);
    // Topping up an existing stake does not touch the running staked total.
    assert_eq!(state.invariants.total_staked, 100);

    let unstake = |amount: i128, now: u64| StakeOp::Unstake { artisan: addr("GART"), token: addr("CTOK"), amount, now };
    assert_eq!(
        execute_stake_op(&mut state, unstake(10, 3)),
        Err("unstake failed: stake cooldown has not yet elapsed".to_string())
    );
    assert_eq!(
        execute_stake_op(&mut state, unstake(151, 2 + STAKE_COOLDOWN)),
        Err("unstake failed: invalid unstake amount".to_string())
    );
    execute_stake_op(&mut state, unstake(150, 2 + STAKE_COOLDOWN)).unwrap();
    assert_eq!(state.stakes[0].status, StakeStatus::Unstaked);
    assert_eq!(
        execute_stake_op(&mut state, StakeOp::Unstake { artisan: addr("GOTHER"), token: addr("CTOK"), amount: 1, now: 0 }),
        Err("stake not found".to_string())
    );
    assert_eq!(execute_stake_op(&mut state, StakeOp::UnstakeEmpty), Ok(()));
    assert!(state.has_terminal_stakes());
    state.remove_stake(&addr("GART"), &addr("CTOK"));
    assert!(state.stakes.is_empty());
    assert_eq!(state.invariants.total_staked, -50);
}

#[test]
fn recurring_ops_release_and_cancel() {
    let mut state = ModelState::new(0);
    let op = RecurringOp::Create { id: 3, buyer: addr("GB"), artisan: addr("GA"), amount: 90, frequency: 10, duration: 3 };
    execute_recurring_op(&mut state, op).unwrap();
    assert_eq!(state.invariants.total_recurring, 90);
    assert_eq!(state.recurring[0].token.strkey, "CAAAAAAAAAAAAAAAAAAAAAAAAAAAAAAAAAAAAAAAAAAAAAAAAAAAD2KM");
    execute_recurring_op(&mut state, RecurringOp::ReleaseCycle { id: 3, now: 0 }).unwrap();
    assert_eq!(
        execute_recurring_op(&mut state, RecurringOp::ReleaseCycle { id: 3, now: 5 }),
        Err("release cycle failed: frequency not yet elapsed: 5 < 10 seconds needed".to_string())
    );
    assert_eq!(
        execute_recurring_op(&mut state, RecurringOp::ReleaseCycle { id: 4, now: 5 }),
        Err("recurring escrow not found".to_string())
    );
    assert!(!state.has_terminal_recurring());
    execute_recurring_op(&mut state, RecurringOp::Cancel { id: 3 }).unwrap();
    assert!(state.has_terminal_recurring());
    assert_eq!(state.recurring[0].released_amount, 30);
    assert_eq!(
        execute_recurring_op(&mut state, RecurringOp::ReleaseCycle { id: 3, now: 99 }),
        Err("release cycle failed: recurring escrow not active".to_string())
    );
    assert_eq!(execute_recurring_op(&mut state, RecurringOp::Cancel { id: 8 }), Err("recurring escrow not found".to_string()));
    state.remove_recurring(3);
    assert_eq!(state.invariants.total_recurring, 0);
}

#[test]
fn onboarding_ops_follow_the_profile_rules() {
    let mut state = ModelState::new(0);
    assert_eq!(
        execute_onboarding_op(&mut state, OnboardingOp::UpdateRole { address: addr("GU"), new_role: UserRoleModel::Admin }),
        Err("must onboard first".to_string())
    );
    assert!(state.profiles.is_empty());
    execute_onboarding_op(&mut state, OnboardingOp::UpdateRole { address: addr("GU"), new_role: UserRoleModel::NoRole }).unwrap();
    assert_eq!(state.profiles.len(), 1);
    assert_eq!(state.profiles[0].username, "");
    assert_eq!(state.profiles[0].state_version, 2);
    assert_eq!(
        execute_onboarding_op(&mut state, OnboardingOp::UpdateRole { address: addr("GU"), new_role: UserRoleModel::Buyer }),
        Err("must onboard first".to_string())
    );
    assert_eq!(
        execute_onboarding_op(&mut state, OnboardingOp::Deactivate { address: addr("GX") }),
        Err("profile not found".to_string())
    );
    execute_onboarding_op(&mut state, OnboardingOp::Deactivate { address: addr("GU") }).unwrap();
    assert_eq!(
        execute_onboarding_op(&mut state, OnboardingOp::Deactivate { address: addr("GU") }),
        Err("profile already deactivated".to_string())
    );
    assert!(state.has_terminal_profiles());
    assert_eq!(
        execute_onboarding_op(&mut state, OnboardingOp::Reactivate { address: addr("GU"), username_taken: true }),
        Err("username already taken".to_string())
    );
    execute_onboarding_op(&mut state, OnboardingOp::SetVerified { address: addr("GU"), verified: true }).unwrap();
    assert!(state.profiles[0].is_verified);
    assert_eq!(
        execute_onboarding_op(&mut state, OnboardingOp::SetVerified { address: addr("GX"), verified: true }),
        Err("profile not found".to_string())
    );
    assert_eq!(state.profiles[0].status, ProfileStatusModel::Deactivated);
    state.remove_profile(&addr("GU"));
    assert!(state.profiles.is_empty());
}

#[test]
fn direct_registration_and_removal() {
    let mut state = ModelState::new(1_000);
    state.add_escrow(EscrowModel::new(5, addr("GB"), addr("GS"), addr("CT"), 300, 10, 10));
    state.add_recurring(RecurringEscrowModel::new(6, addr("GB"), addr("GA"), addr("CT"), 200, 1, 2));
    let mut stake = StakeModel::new(addr("GA"), addr("CT"));
    stake.try_stake(100, 0).unwrap();
    state.add_stake(stake);
    state.add_dispute(DisputeModel::new(1, 5));
    state.add_dispute(DisputeModel::new(2, 5));
    state.add_profile(OnboardingProfileModel::new(addr("GB"), "b".to_string()));
    assert!(state.check_all_invariants());
    state.invariants.add_fees(401);
    assert!(!state.check_all_invariants());
    assert!(!state.has_terminal_escrows());
    state.escrows[0].status = EscrowStatus::Refunded;
    assert!(state.has_terminal_escrows());
    state.remove_dispute(1);
    assert_eq!(state.disputes.len(), 1);
    assert_eq!(state.disputes[0].dispute_id, 2);
    state.remove_dispute(9);
    assert_eq!(state.disputes.len(), 1);
    state.remove_escrow(5);
    assert_eq!(state.invariants.total_escrow_amount, 0);
}

#[test]
fn upgrade_hash_is_executed_once_even_across_other_hashes() {
    let mut commitments = Vec::new();
    let record = |hash: u32, now: u64| UpgradeCommitmentOp::Record {
        from_version: 1,
        to_version: 2,
        wasm_hash: hash,
        state_digest: 0,
        migration_result_digest: 0,
        admin: addr("GADMIN"),
        now,
    };
    execute_upgrade_commitment_op(&mut commitments, record(1, 10)).unwrap();
    execute_upgrade_commitment_op(&mut commitments, record(2, 20)).unwrap();
    assert_eq!(
        execute_upgrade_commitment_op(&mut commitments, record(1, 30)),
        Err("UpgradeAlreadyExecuted".to_string())
    );
    assert_eq!(commitments.len(), 2);
    assert_eq!(commitments[1].timestamp, 20);
    assert_eq!(commitments[1].activated_at, 20);
    // A commitment that is not immutable does not block a new record.
    commitments[0].immutable = false;
    execute_upgrade_commitment_op(&mut commitments, record(1, 40)).unwrap();
    assert_eq!(commitments.len(), 3);
}
