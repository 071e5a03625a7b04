//! Ledger accounts and contracts, identified by their strkey text
//! (`G...` for accounts, `C...` for contracts).

use vstd::prelude::*;
use soroban_sdk::testutils::EnvTestConfig;

verus! {

/// An account or contract address, held as its strkey text.
#[derive(Debug, PartialEq, Eq, Hash)]
pub struct Address {
    pub strkey: String,
}

impl View for Address {
    type V = Seq<char>;

    open spec fn view(&self) -> Seq<char> {
        self.strkey@
    }
}

impl Clone for Address {
    fn clone(&self) -> (r: Self)
        ensures
            r == *self,
    {
        Address { strkey: self.strkey.clone() }
    }
}

impl Address {
    /// The address whose strkey text is `strkey`.
    pub fn from_strkey(strkey: String) -> (r: Address)
        ensures
            r.strkey == strkey,
    {
        Address { strkey }
    }

    /// Whether `self` and `other` name the same account or contract.
    pub fn same_as(&self, other: &Address) -> (r: bool)
        ensures
            r == (self@ == other@),
    {
        self.strkey == other.strkey
    }
}

/// Strkey of the contract address that a fresh test ledger hands out first.
pub open spec fn first_generated_contract() -> Seq<char> {
    "CAAAAAAAAAAAAAAAAAAAAAAAAAAAAAAAAAAAAAAAAAAAAAAAAAAAD2KM"@
}

/// An address made up by `soroban_sdk::testutils::Address::generate` on a
/// fresh test ledger (`Env`), converted to its strkey text. A fresh ledger's
/// address generator starts at zero and hands out the contract whose 32-byte
/// id is that counter after one increment (big-endian in the last 8 bytes),
/// so the result is always the same contract address.
#[verifier::external_body]
pub(crate) fn generated_address() -> (a: Address)
    ensures
        a@ == first_generated_contract(),
{
    let env = soroban_sdk::Env::new_with_config(EnvTestConfig { capture_snapshot_at_drop: false });
    let generated = <soroban_sdk::Address as soroban_sdk::testutils::Address>::generate(&env);
    Address { strkey: generated.to_string().to_string() }
}

} // verus!
