//! Executable reference model of the marketplace escrow contract's lifecycles:
//! escrows, disputes, recurring escrows, stakes, onboarding profiles, upgrade
//! commitments and the conservation bookkeeping that ties them together.

pub mod time_policy;
pub mod windows;
pub mod text;
pub mod address;
pub mod escrow;
pub mod dispute;
pub mod recurring;
pub mod stake;
pub mod profile;
pub mod conservation;
pub mod terminal;
pub mod token;
pub mod seqs;
pub mod state;
pub mod ops;
pub mod upgrade;
pub mod books;
pub mod laws;
pub mod behaviour;
