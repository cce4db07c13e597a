//! A second vault program with the same record layout and no binding: its
//! vaults may name any token account that exists.

use crate::account::{Account, Context, TokenAccount};
use crate::address::Address;
use crate::error::VaultError;
use crate::store::Store;
use vstd::prelude::*;

verus! {

/// A vault record: a token account and the principal that may withdraw
/// from it.
#[derive(Clone, Copy, Debug)]
pub struct Vault {
    pub token_account: Address,
    pub authority: Address,
}

/// The accounts of an initialization.
#[derive(Clone, Copy, Debug)]
pub struct InitializeVault {
    /// Where the new vault record is to stand.
    pub vault: Address,
    /// The token account found at the presented address, if one exists
    /// there.
    pub token_account: Option<Account<TokenAccount>>,
    /// The principal that initializes the vault and will own it.
    pub authority: Address,
}

/// What an initialization returns, given the records so far.
pub open spec fn initialize_outcome(records: Map<Seq<u8>, Vault>, accounts: InitializeVault)
    -> Result<Address, VaultError> {
    if records.contains_key(accounts.vault@) {
        Err(VaultError::AlreadyInitialized)
    } else if accounts.token_account is None {
        Err(VaultError::InvalidAccount)
    } else {
        Ok(accounts.vault)
    }
}

/// The records after an initialization.
pub open spec fn initialize_records(records: Map<Seq<u8>, Vault>, accounts: InitializeVault)
    -> Map<Seq<u8>, Vault> {
    if initialize_outcome(records, accounts) is Ok {
        records.insert(
            accounts.vault@,
            Vault {
                token_account: accounts.token_account->Some_0.key,
                authority: accounts.authority,
            },
        )
    } else {
        records
    }
}

/// Creates the vault record of the request and returns the vault's address.
///
/// Fails with `AlreadyInitialized` where the vault exists already, else with
/// `InvalidAccount` where no token account was found; a failure leaves the
/// records as they were.
pub fn initialize_vault(registry: &mut Store<Vault>, ctx: &Context<InitializeVault, ()>) -> (r:
    Result<Address, VaultError>)
    requires
        old(registry).wf(),
    ensures
        final(registry).wf(),
        r == initialize_outcome(old(registry)@, ctx.accounts),
        final(registry)@ == initialize_records(old(registry)@, ctx.accounts),
{
    if registry.contains(&ctx.accounts.vault) {
        return Err(VaultError::AlreadyInitialized);
    }
    match ctx.accounts.token_account {
        Some(token_account) => {
            let vault = Vault {
                token_account: token_account.key,
                authority: ctx.accounts.authority,
            };
            let written = registry.insert_new(ctx.accounts.vault, vault);
            assert(written);
            Ok(ctx.accounts.vault)
        },
        None => Err(VaultError::InvalidAccount),
    }
}

/// A second initialization of the same vault fails with `AlreadyInitialized`
/// and leaves the records as the first left them, whenever the first did not
/// fail for its token account.
pub proof fn lemma_second_initialization_is_refused(
    records: Map<Seq<u8>, Vault>,
    first: InitializeVault,
    second: InitializeVault,
)
    requires
        first.vault@ == second.vault@,
        initialize_outcome(records, first) != Err::<Address, VaultError>(
            VaultError::InvalidAccount,
        ),
    ensures
        initialize_outcome(initialize_records(records, first), second) == Err::<
            Address,
            VaultError,
        >(VaultError::AlreadyInitialized),
        initialize_records(initialize_records(records, first), second) == initialize_records(
            records,
            first,
        ),
{
}

} // verus!
