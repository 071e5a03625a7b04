//! Upgrade state commitments: the record left behind by an executed upgrade.
//! A commitment is immutable from the moment it is recorded, and an upgrade
//! whose code hash already has an immutable commitment is never recorded again.
//! Code hashes and digests are opaque `u32` identifiers here.

use vstd::prelude::*;
use crate::address::Address;

verus! {

/// The immutable record of one executed upgrade.
#[derive(Clone, Debug, PartialEq, Eq)]
pub struct UpgradeStateCommitmentModel {
    pub from_version: u32,
    pub to_version: u32,
    pub wasm_hash: u32,
    pub state_digest: u32,
    pub migration_result_digest: u32,
    pub admin: Address,
    pub timestamp: u64,
    pub activated_at: u64,
    pub immutable: bool,
}

/// An operation on the recorded upgrade commitments.
#[derive(Clone, Debug)]
pub enum UpgradeCommitmentOp {
    /// Record a commitment for a successfully executed upgrade; rejected with
    /// `UpgradeAlreadyExecuted` if the hash already has an immutable commitment.
    Record {
        from_version: u32,
        to_version: u32,
        wasm_hash: u32,
        state_digest: u32,
        migration_result_digest: u32,
        admin: Address,
        now: u64,
    },
}

/// Some commitment in `commitments` is immutable and for code hash `wasm_hash`.
pub open spec fn hash_committed(commitments: Seq<UpgradeStateCommitmentModel>, wasm_hash: u32) -> bool {
    exists|i: int|
        0 <= i < commitments.len() && (#[trigger] commitments[i]).wasm_hash == wasm_hash
            && commitments[i].immutable
}

/// What `execute_upgrade_commitment_op(old, op)` does: `new` is the list afterwards and `r` the result.
pub open spec fn upgrade_op_outcome(
    old: Seq<UpgradeStateCommitmentModel>,
    new: Seq<UpgradeStateCommitmentModel>,
    op: UpgradeCommitmentOp,
    r: Result<(), String>,
) -> bool {
    match op {
        UpgradeCommitmentOp::Record {
            from_version,
            to_version,
            wasm_hash,
            state_digest,
            migration_result_digest,
            admin,
            now,
        } => if hash_committed(old, wasm_hash) {
            new == old && (r matches Err(m) && m@ == "UpgradeAlreadyExecuted"@)
        } else {
            &&& r is Ok
            &&& new == old.push(
                UpgradeStateCommitmentModel {
                    from_version,
                    to_version,
                    wasm_hash,
                    state_digest,
                    migration_result_digest,
                    admin,
                    timestamp: now,
                    activated_at: now,
                    immutable: true,
                },
            )
        },
    }
}

/// Whether some commitment in `commitments` is immutable and for code hash `wasm_hash`.
fn is_hash_committed(commitments: &Vec<UpgradeStateCommitmentModel>, wasm_hash: u32) -> (r: bool)
    ensures
        r == hash_committed(commitments@, wasm_hash),
{
    let mut i: usize = 0;
    while i < commitments.len()
        invariant
            i <= commitments.len(),
            forall|j: int|
                0 <= j < i ==> !((#[trigger] commitments@[j]).wasm_hash == wasm_hash
                    && commitments@[j].immutable),
        decreases commitments.len() - i,
    {
        if commitments[i].wasm_hash == wasm_hash && commitments[i].immutable {
            proof {
                assert(commitments@[i as int].wasm_hash == wasm_hash);
            }
            return true;
        }
        i += 1;
    }
    false
}

/// Apply an upgrade-commitment operation to the recorded commitments.
pub fn execute_upgrade_commitment_op(
    commitments: &mut Vec<UpgradeStateCommitmentModel>,
    op: UpgradeCommitmentOp,
) -> (r: Result<(), String>)
    ensures
        upgrade_op_outcome(old(commitments)@, final(commitments)@, op, r),
        match op {
            UpgradeCommitmentOp::Record {
                from_version,
                to_version,
                wasm_hash,
                state_digest,
                migration_result_digest,
                admin,
                now,
            } => r is Ok ==> {
                let c = final(commitments)@.last();
                &&& final(commitments)@.len() == old(commitments)@.len() + 1
                &&& c.from_version == from_version
                &&& c.to_version == to_version
                &&& c.wasm_hash == wasm_hash
                &&& c.state_digest == state_digest
                &&& c.migration_result_digest == migration_result_digest
                &&& c.admin == admin
                &&& c.timestamp == now
                &&& c.activated_at == now
                &&& c.immutable
            },
        },
{
    match op {
        UpgradeCommitmentOp::Record {
            from_version,
            to_version,
            wasm_hash,
            state_digest,
            migration_result_digest,
            admin,
            now,
        } => {
            if is_hash_committed(commitments, wasm_hash) {
                return Err(String::from_str("UpgradeAlreadyExecuted"));
            }
            commitments.push(
                UpgradeStateCommitmentModel {
                    from_version,
                    to_version,
                    wasm_hash,
                    state_digest,
                    migration_result_digest,
                    admin,
                    timestamp: now,
                    activated_at: now,
                    immutable: true,
                },
            );
            Ok(())
        },
    }
}

} // verus!
