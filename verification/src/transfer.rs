//! The instruction that an approved withdrawal hands to the transfer
//! primitive.

use crate::address::Address;
use crate::derivation::{token_namespace_bytes, token_seeds};
use vstd::prelude::*;

verus! {

/// The accounts of a token transfer.
#[derive(Clone, Copy, Debug)]
pub struct Transfer {
    /// The account that is drained.
    pub from: Address,
    /// The account in whose name the transfer is signed.
    pub authority: Address,
    /// The account that receives the funds.
    pub to: Address,
}

/// A signing capability scoped to the token account derived from one vault.
#[derive(Clone, Copy, Debug)]
pub struct SignerSeeds {
    pub vault: Address,
    pub bump: u8,
}

/// A transfer, its amount and the capability that authorizes it.
#[derive(Clone, Copy, Debug)]
pub struct TransferInstruction {
    pub accounts: Transfer,
    pub amount: u64,
    pub signer: SignerSeeds,
}

/// The seed list of a capability: the seeds from which the vault's token
/// account is derived, followed by the bump seed.
pub open spec fn signer_seeds(vault: Seq<u8>, bump: u8) -> Seq<Seq<u8>> {
    token_seeds(vault).push(seq![bump])
}

fn copy_bytes<const N: usize>(bytes: &[u8; N]) -> (v: Vec<u8>)
    ensures
        v@ == bytes@,
{
    let mut v: Vec<u8> = Vec::new();
    let mut i: usize = 0;
    while i < N
        invariant
            i <= N,
            v@ == bytes@.subrange(0, i as int),
        decreases N - i,
    {
        v.push(bytes[i]);
        assert(v@ =~= bytes@.subrange(0, i + 1));
        i += 1;
    }
    assert(v@ =~= bytes@);
    v
}

impl SignerSeeds {
    /// The seeds in the order in which the transfer primitive takes them.
    pub fn seeds(&self) -> (list: Vec<Vec<u8>>)
        ensures
            list@.map_values(|seed: Vec<u8>| seed@) == signer_seeds(self.vault@, self.bump),
    {
        let tag = token_namespace_bytes();
        let bump: [u8; 1] = [self.bump];
        let mut list: Vec<Vec<u8>> = Vec::new();
        list.push(copy_bytes(&tag));
        list.push(copy_bytes(&self.vault.bytes));
        list.push(copy_bytes(&bump));
        assert(bump@ =~= seq![self.bump]);
        assert(list@.map_values(|seed: Vec<u8>| seed@) =~= signer_seeds(self.vault@, self.bump));
        list
    }
}

} // verus!
