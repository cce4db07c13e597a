//! What a request carries: loaded accounts and the context around them.

use crate::address::Address;
use vstd::prelude::*;

verus! {

/// A record as it was loaded from the address `key`.
#[derive(Clone, Copy, Debug)]
pub struct Account<T> {
    pub key: Address,
    pub data: T,
}

/// The part of a custodial token account that withdrawals read.
#[derive(Clone, Copy, Debug)]
pub struct TokenAccount {
    /// The current balance.
    pub amount: u64,
}

/// The bump seed found while a request's accounts were validated.
#[derive(Clone, Copy, Debug)]
pub struct Bumps {
    /// Bump seed of the token account derived from the request's vault.
    pub token_account: u8,
}

/// A request as a handler receives it: the program it is addressed to, its
/// accounts, and what validation derived on the way.
#[derive(Clone, Copy, Debug)]
pub struct Context<T, B> {
    pub program_id: Address,
    pub accounts: T,
    pub bumps: B,
}

} // verus!
