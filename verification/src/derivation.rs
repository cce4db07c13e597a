//! Deterministic derivation of sub-account addresses.
//!
//! A custodial token account lives at an address derived from a namespace
//! tag and the address of the vault that owns it. The same derivation yields
//! the bump seed that completes the signing capability for that account.

use crate::address::Address;
use anchor_lang::prelude::Pubkey;
use vstd::prelude::*;

verus! {

/// What `Pubkey::try_find_program_address` returns for the given seeds and
/// program: the derived address with its bump seed, or `None` where no bump
/// seed yields an address off the curve.
pub uninterp spec fn program_address(seeds: Seq<Seq<u8>>, program_id: Seq<u8>) -> Option<
    (Seq<u8>, u8),
>;

/// The namespace tag of token accounts: the bytes of `token`.
pub open spec fn token_namespace() -> Seq<u8> {
    seq![116u8, 111u8, 107u8, 101u8, 110u8]
}

/// The seeds from which the token account of `vault` is derived.
pub open spec fn token_seeds(vault: Seq<u8>) -> Seq<Seq<u8>> {
    seq![token_namespace(), vault]
}

/// The address and bump seed of the token account bound to `vault` under
/// `program_id`.
pub open spec fn token_account_address(vault: Seq<u8>, program_id: Seq<u8>) -> Option<
    (Seq<u8>, u8),
> {
    program_address(token_seeds(vault), program_id)
}

/// A derivation result with its address taken as bytes.
pub open spec fn derived_view(derived: Option<(Address, u8)>) -> Option<(Seq<u8>, u8)> {
    match derived {
        Some((address, bump)) => Some((address@, bump)),
        None => None,
    }
}

/// Whether `derived` names the address `account`.
pub open spec fn derives_to(derived: Option<(Seq<u8>, u8)>, account: Seq<u8>) -> bool {
    derived matches Some(found) && found.0 == account
}

/// Calls `Pubkey::try_find_program_address` on the two seeds `namespace` and
/// the bytes of `parent`. The result is a function of the seeds and the
/// program id alone; the contract gives it the name `program_address` and
/// claims nothing else of it.
#[verifier::external_body]
fn try_find_program_address(namespace: &[u8], parent: &Address, program_id: &Address) -> (r: Option<
    (Address, u8),
>)
    ensures
        derived_view(r) == program_address(seq![namespace@, parent@], program_id@),
{
    let program = Pubkey::new_from_array(program_id.bytes);
    match Pubkey::try_find_program_address(&[namespace, &parent.bytes], &program) {
        Some((address, bump)) => Some((Address { bytes: address.to_bytes() }, bump)),
        None => None,
    }
}

/// The bytes of the namespace tag.
pub fn token_namespace_bytes() -> (tag: [u8; 5])
    ensures
        tag@ == token_namespace(),
{
    let tag: [u8; 5] = [116, 111, 107, 101, 110];
    assert(tag@ =~= token_namespace());
    tag
}

/// Derives the token account address bound to `vault`, with its bump seed.
pub fn derive_token_account(vault: &Address, program_id: &Address) -> (r: Option<(Address, u8)>)
    ensures
        derived_view(r) == token_account_address(vault@, program_id@),
{
    let tag = token_namespace_bytes();
    try_find_program_address(tag.as_slice(), vault, program_id)
}

} // verus!
