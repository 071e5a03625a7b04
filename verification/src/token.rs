//! A test token whose decimal precision is configurable.

use vstd::prelude::*;

verus! {

/// A token contract that reports whatever decimal precision it was initialized with.
pub struct DecimalTestToken;

/// The precision a token reports before it has been initialized.
pub const DEFAULT_DECIMALS: u32 = 7;

impl DecimalTestToken {
    /// The precision reported by `decimals`, given the value `initialize` stored, if any.
    pub fn reported_decimals(stored: Option<u32>) -> (r: u32)
        ensures
            r == (match stored {
                Some(d) => d,
                None => DEFAULT_DECIMALS,
            }),
    {
        stored.unwrap_or(DEFAULT_DECIMALS)
    }
}

} // verus!
