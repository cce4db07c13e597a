//! The vault program: initialization that binds a token account to its
//! vault, and two withdrawal paths that differ in what they validate and
//! where.
//!
//! `insecure_withdraw` tests the caller against the authority of whatever
//! vault the caller presents, and nothing ties the drained token account to
//! that vault. `secure_withdraw` runs only on requests whose token account
//! and caller were matched against the vault record beforehand.

use crate::account::{Account, Bumps, Context, TokenAccount};
use crate::address::Address;
use crate::derivation::{derive_token_account, derived_view, derives_to, token_account_address};
use crate::error::VaultError;
use crate::store::Store;
use crate::transfer::{SignerSeeds, Transfer, TransferInstruction};
use vstd::prelude::*;

verus! {

/// A vault record: the token account it holds in custody and the principal
/// that may withdraw from it. Both are fixed when the record is written.
#[derive(Clone, Copy, Debug)]
pub struct Vault {
    pub token_account: Address,
    pub authority: Address,
}

/// The accounts of an initialization.
#[derive(Clone, Copy, Debug)]
pub struct InitializeVault {
    /// Where the new vault record is to stand.
    pub vault: Address,
    /// Where the vault's token account is to stand.
    pub token_account: Address,
    /// The principal that initializes the vault and will own it.
    pub authority: Address,
}

/// The accounts of a withdrawal on the unchecked path.
#[derive(Clone, Copy, Debug)]
pub struct InsecureWithdraw {
    /// The vault record that the caller presents.
    pub vault: Account<Vault>,
    /// The token account to drain.
    pub token_account: Account<TokenAccount>,
    /// The token account that receives the funds.
    pub withdraw_destination: Account<TokenAccount>,
    /// The caller, whose identity the environment has established.
    pub authority: Address,
}

/// The accounts of a withdrawal on the checked path.
#[derive(Clone, Copy, Debug)]
pub struct SecureWithdraw {
    /// The vault record that the caller presents.
    pub vault: Account<Vault>,
    /// The token account to drain.
    pub token_account: Account<TokenAccount>,
    /// The token account that receives the funds.
    pub withdraw_destination: Account<TokenAccount>,
    /// The caller, whose identity the environment has established.
    pub authority: Address,
}

/// Every record's token account is the one derived from the record's own
/// address under `program_id`.
pub open spec fn bound(records: Map<Seq<u8>, Vault>, program_id: Seq<u8>) -> bool {
    forall|id: Seq<u8>| #[trigger]
        records.contains_key(id) ==> derives_to(
            token_account_address(id, program_id),
            records[id].token_account@,
        )
}

/// What an initialization returns, given the records so far and the
/// derivation result for the new vault.
pub open spec fn initialize_outcome(
    records: Map<Seq<u8>, Vault>,
    accounts: InitializeVault,
    derived: Option<(Seq<u8>, u8)>,
) -> Result<Address, VaultError> {
    if records.contains_key(accounts.vault@) {
        Err(VaultError::AlreadyInitialized)
    } else if !derives_to(derived, accounts.token_account@) {
        Err(VaultError::InvalidAccount)
    } else {
        Ok(accounts.vault)
    }
}

/// The records after an initialization.
pub open spec fn initialize_records(
    records: Map<Seq<u8>, Vault>,
    accounts: InitializeVault,
    derived: Option<(Seq<u8>, u8)>,
) -> Map<Seq<u8>, Vault> {
    if initialize_outcome(records, accounts, derived) is Ok {
        records.insert(
            accounts.vault@,
            Vault { token_account: accounts.token_account, authority: accounts.authority },
        )
    } else {
        records
    }
}

/// Writes the vault record of `accounts`, given what the derivation for the
/// new vault returned. Fails with `AlreadyInitialized` where a record stands
/// under the vault's address, else with `InvalidAccount` where the token
/// account is not the derived one; a failure leaves the records as they were.
pub fn record_vault(
    registry: &mut Store<Vault>,
    accounts: &InitializeVault,
    derived: Option<(Address, u8)>,
) -> (r: Result<Address, VaultError>)
    requires
        old(registry).wf(),
    ensures
        final(registry).wf(),
        r == initialize_outcome(old(registry)@, *accounts, derived_view(derived)),
        final(registry)@ == initialize_records(old(registry)@, *accounts, derived_view(derived)),
{
    if registry.contains(&accounts.vault) {
        return Err(VaultError::AlreadyInitialized);
    }
    let matches_derived = match derived {
        Some((address, _)) => address.same(&accounts.token_account),
        None => false,
    };
    if !matches_derived {
        return Err(VaultError::InvalidAccount);
    }
    let vault = Vault { token_account: accounts.token_account, authority: accounts.authority };
    let written = registry.insert_new(accounts.vault, vault);
    assert(written);
    Ok(accounts.vault)
}

/// Creates the vault record of the request and returns the vault's address.
///
/// Fails with `AlreadyInitialized` where the vault exists already, else with
/// `InvalidAccount` where the presented token account is not the one derived
/// from the vault's address. Records that were bound stay bound.
pub fn initialize_vault(registry: &mut Store<Vault>, ctx: &Context<InitializeVault, ()>) -> (r:
    Result<Address, VaultError>)
    requires
        old(registry).wf(),
    ensures
        final(registry).wf(),
        r == initialize_outcome(
            old(registry)@,
            ctx.accounts,
            token_account_address(ctx.accounts.vault@, ctx.program_id@),
        ),
        final(registry)@ == initialize_records(
            old(registry)@,
            ctx.accounts,
            token_account_address(ctx.accounts.vault@, ctx.program_id@),
        ),
        bound(old(registry)@, ctx.program_id@) ==> bound(final(registry)@, ctx.program_id@),
{
    let derived = derive_token_account(&ctx.accounts.vault, &ctx.program_id);
    proof {
        lemma_initialization_keeps_binding(old(registry)@, ctx.accounts, ctx.program_id@);
    }
    record_vault(registry, &ctx.accounts, derived)
}

/// The vault record under `id` as a withdrawal presents it.
pub fn load_vault(registry: &Store<Vault>, id: &Address) -> (r: Option<Account<Vault>>)
    requires
        registry.wf(),
    ensures
        r.is_some() == registry@.contains_key(id@),
        r matches Some(account) ==> account.key == *id && account.data == registry@[id@],
{
    match registry.get(id) {
        Some(vault) => Some(Account { key: *id, data: *vault }),
        None => None,
    }
}

/// The instruction that drains `token_account` into `destination`, signed
/// in the token account's own name with the capability derived from `vault`.
pub open spec fn full_withdrawal(
    vault: Address,
    token_account: Account<TokenAccount>,
    destination: Address,
    bump: u8,
) -> TransferInstruction {
    TransferInstruction {
        accounts: Transfer {
            from: token_account.key,
            authority: token_account.key,
            to: destination,
        },
        amount: token_account.data.amount,
        signer: SignerSeeds { vault, bump },
    }
}

fn drain(
    vault: Address,
    token_account: &Account<TokenAccount>,
    destination: Address,
    bump: u8,
) -> (instruction: TransferInstruction)
    ensures
        instruction == full_withdrawal(vault, *token_account, destination, bump),
{
    TransferInstruction {
        accounts: Transfer {
            from: token_account.key,
            authority: token_account.key,
            to: destination,
        },
        amount: token_account.data.amount,
        signer: SignerSeeds { vault, bump },
    }
}

/// What the unchecked handler returns.
pub open spec fn insecure_outcome(ctx: Context<InsecureWithdraw, Bumps>) -> Result<
    TransferInstruction,
    VaultError,
> {
    if ctx.accounts.vault.data.authority@ == ctx.accounts.authority@ {
        Ok(
            full_withdrawal(
                ctx.accounts.vault.key,
                ctx.accounts.token_account,
                ctx.accounts.withdraw_destination.key,
                ctx.bumps.token_account,
            ),
        )
    } else {
        Err(VaultError::IllegalOwner)
    }
}

/// Withdraws on the word of the presented vault alone.
///
/// The only test is that the caller is the authority recorded in the vault
/// that the caller chose to present; where it fails the result is
/// `IllegalOwner`. The token account is not compared with the vault's own, so
/// any token account can be named beside a vault that the caller owns.
pub fn insecure_withdraw(ctx: &Context<InsecureWithdraw, Bumps>) -> (r: Result<
    TransferInstruction,
    VaultError,
>)
    ensures
        r == insecure_outcome(*ctx),
{
    if !ctx.accounts.vault.data.authority.same(&ctx.accounts.authority) {
        return Err(VaultError::IllegalOwner);
    }
    Ok(
        drain(
            ctx.accounts.vault.key,
            &ctx.accounts.token_account,
            ctx.accounts.withdraw_destination.key,
            ctx.bumps.token_account,
        ),
    )
}

/// Withdraws from a request that was validated against its vault record.
///
/// The handler makes no test of its own: that the token account and the
/// caller are those of the vault is the condition under which it runs.
pub fn secure_withdraw(ctx: &Context<SecureWithdraw, Bumps>) -> (r: Result<
    TransferInstruction,
    VaultError,
>)
    requires
        ctx.accounts.constraints_hold(),
    ensures
        r == Ok::<TransferInstruction, VaultError>(
            full_withdrawal(
                ctx.accounts.vault.key,
                ctx.accounts.token_account,
                ctx.accounts.withdraw_destination.key,
                ctx.bumps.token_account,
            ),
        ),
{
    Ok(
        drain(
            ctx.accounts.vault.key,
            &ctx.accounts.token_account,
            ctx.accounts.withdraw_destination.key,
            ctx.bumps.token_account,
        ),
    )
}

/// The context that validation hands to a handler, given the derivation
/// result for the presented vault; `ConstraintViolation` where the vault has
/// no derived token account.
pub open spec fn with_bump<T>(accounts: T, program_id: Address, derived: Option<(Seq<u8>, u8)>)
    -> Result<Context<T, Bumps>, VaultError> {
    match derived {
        Some(found) => Ok(Context { program_id, accounts, bumps: Bumps { token_account: found.1 } }),
        None => Err(VaultError::ConstraintViolation),
    }
}

impl InsecureWithdraw {
    /// Builds the handler's context from the derivation result for the
    /// presented vault. Nothing in the request is compared with the vault.
    pub fn validate(self, program_id: Address, derived: Option<(Address, u8)>) -> (r: Result<
        Context<InsecureWithdraw, Bumps>,
        VaultError,
    >)
        ensures
            r == with_bump(self, program_id, derived_view(derived)),
    {
        match derived {
            Some((_, bump)) => Ok(
                Context { program_id, accounts: self, bumps: Bumps { token_account: bump } },
            ),
            None => Err(VaultError::ConstraintViolation),
        }
    }

    /// Derives the bump seed for the presented vault and builds the
    /// handler's context.
    pub fn try_accounts(self, program_id: Address) -> (r: Result<
        Context<InsecureWithdraw, Bumps>,
        VaultError,
    >)
        ensures
            r == with_bump(self, program_id, token_account_address(self.vault.key@, program_id@)),
    {
        let derived = derive_token_account(&self.vault.key, &program_id);
        self.validate(program_id, derived)
    }
}

impl SecureWithdraw {
    /// The request names the vault's own token account and comes from the
    /// vault's own authority.
    pub open spec fn constraints_hold(&self) -> bool {
        &&& self.vault.data.token_account@ == self.token_account.key@
        &&& self.vault.data.authority@ == self.authority@
    }

    /// What validation returns, given the derivation result for the vault:
    /// the handler's context where the request matches the vault record and
    /// its token account is the one derived from the vault, and
    /// `ConstraintViolation` otherwise.
    pub open spec fn validated(self, program_id: Address, derived: Option<(Seq<u8>, u8)>) -> Result<
        Context<SecureWithdraw, Bumps>,
        VaultError,
    > {
        if self.constraints_hold() && derives_to(derived, self.token_account.key@) {
            with_bump(self, program_id, derived)
        } else {
            Err(VaultError::ConstraintViolation)
        }
    }

    /// Compares the request with the vault record and its token account with
    /// the address derived from the vault, then builds the handler's context.
    /// A request that does not match fails with `ConstraintViolation`.
    pub fn validate(self, program_id: Address, derived: Option<(Address, u8)>) -> (r: Result<
        Context<SecureWithdraw, Bumps>,
        VaultError,
    >)
        ensures
            r == self.validated(program_id, derived_view(derived)),
            r matches Ok(ctx) ==> ctx.accounts.constraints_hold(),
    {
        if !self.vault.data.token_account.same(&self.token_account.key) {
            return Err(VaultError::ConstraintViolation);
        }
        if !self.vault.data.authority.same(&self.authority) {
            return Err(VaultError::ConstraintViolation);
        }
        match derived {
            Some((address, bump)) => {
                if address.same(&self.token_account.key) {
                    Ok(Context { program_id, accounts: self, bumps: Bumps { token_account: bump } })
                } else {
                    Err(VaultError::ConstraintViolation)
                }
            },
            None => Err(VaultError::ConstraintViolation),
        }
    }

    /// Derives the token account of the presented vault and validates the
    /// request against the vault record and that derivation.
    pub fn try_accounts(self, program_id: Address) -> (r: Result<
        Context<SecureWithdraw, Bumps>,
        VaultError,
    >)
        ensures
            r == self.validated(program_id, token_account_address(self.vault.key@, program_id@)),
            r matches Ok(ctx) ==> ctx.accounts.constraints_hold(),
    {
        let derived = derive_token_account(&self.vault.key, &program_id);
        self.validate(program_id, derived)
    }
}

/// Runs validation and then the unchecked handler.
pub fn process_insecure_withdraw(program_id: Address, accounts: InsecureWithdraw) -> (r: Result<
    TransferInstruction,
    VaultError,
>)
    ensures
        r == match with_bump(
            accounts,
            program_id,
            token_account_address(accounts.vault.key@, program_id@),
        ) {
            Ok(ctx) => insecure_outcome(ctx),
            Err(e) => Err(e),
        },
{
    match accounts.try_accounts(program_id) {
        Ok(ctx) => insecure_withdraw(&ctx),
        Err(e) => Err(e),
    }
}

/// Runs validation and, where the request passed it, the checked handler.
pub fn process_secure_withdraw(program_id: Address, accounts: SecureWithdraw) -> (r: Result<
    TransferInstruction,
    VaultError,
>)
    ensures
        r == match accounts.validated(
            program_id,
            token_account_address(accounts.vault.key@, program_id@),
        ) {
            Ok(ctx) => Ok::<TransferInstruction, VaultError>(
                full_withdrawal(
                    ctx.accounts.vault.key,
                    ctx.accounts.token_account,
                    ctx.accounts.withdraw_destination.key,
                    ctx.bumps.token_account,
                ),
            ),
            Err(e) => Err(e),
        },
{
    match accounts.try_accounts(program_id) {
        Ok(ctx) => secure_withdraw(&ctx),
        Err(e) => Err(e),
    }
}

/// The binding is an invariant of initialization. It holds where there is
/// no record. Where every record's token account was the one derived from the
/// record's address, the same holds after an initialization, whether it
/// succeeded or not. And no earlier record has changed.
pub proof fn lemma_initialization_keeps_binding(
    records: Map<Seq<u8>, Vault>,
    accounts: InitializeVault,
    program_id: Seq<u8>,
)
    ensures
        bound(Map::<Seq<u8>, Vault>::empty(), program_id),
        bound(records, program_id) ==> bound(
            initialize_records(records, accounts, token_account_address(accounts.vault@, program_id)),
            program_id,
        ),
        forall|id: Seq<u8>| #[trigger]
            records.contains_key(id) ==> initialize_records(
                records,
                accounts,
                token_account_address(accounts.vault@, program_id),
            )[id] == records[id],
{
}

/// A second initialization of the same vault fails with `AlreadyInitialized`
/// and leaves the records as the first left them, whenever the first did not
/// fail for its token account.
pub proof fn lemma_second_initialization_is_refused(
    records: Map<Seq<u8>, Vault>,
    first: InitializeVault,
    second: InitializeVault,
    derived: Option<(Seq<u8>, u8)>,
)
    requires
        first.vault@ == second.vault@,
        initialize_outcome(records, first, derived) != Err::<Address, VaultError>(
            VaultError::InvalidAccount,
        ),
    ensures
        initialize_outcome(initialize_records(records, first, derived), second, derived) == Err::<
            Address,
            VaultError,
        >(VaultError::AlreadyInitialized),
        initialize_records(initialize_records(records, first, derived), second, derived)
            == initialize_records(records, first, derived),
{
}

/// The unchecked handler approves every request whose caller is the
/// authority of the presented vault, whatever token account stands beside
/// it: the instruction drains that token account of its whole balance, also
/// where it is not the vault's own.
pub proof fn lemma_insecure_path_drains_any_token_account(ctx: Context<InsecureWithdraw, Bumps>)
    requires
        ctx.accounts.vault.data.authority@ == ctx.accounts.authority@,
    ensures
        insecure_outcome(ctx) matches Ok(instruction) && instruction.accounts.from
            == ctx.accounts.token_account.key && instruction.accounts.to
            == ctx.accounts.withdraw_destination.key && instruction.amount
            == ctx.accounts.token_account.data.amount,
{
}

/// Validation on the checked path turns down, with `ConstraintViolation`,
/// every request whose token account is not the vault's own, whose caller is
/// not the vault's authority, or whose token account is not the one derived
/// from the vault, so that no instruction comes of it.
pub proof fn lemma_secure_path_rejects_mismatch(
    accounts: SecureWithdraw,
    program_id: Address,
    derived: Option<(Seq<u8>, u8)>,
)
    requires
        accounts.token_account.key@ != accounts.vault.data.token_account@ || accounts.authority@
            != accounts.vault.data.authority@ || !derives_to(derived, accounts.token_account.key@),
    ensures
        accounts.validated(program_id, derived) == Err::<Context<SecureWithdraw, Bumps>, VaultError>(
            VaultError::ConstraintViolation,
        ),
{
}

/// A request that passed validation drains the vault's own token account,
/// which is the one derived from the vault, on behalf of the vault's
/// authority, and under the capability of that very derivation.
pub proof fn lemma_secure_path_drains_own_account(
    accounts: SecureWithdraw,
    program_id: Address,
    derived: Option<(Seq<u8>, u8)>,
)
    requires
        accounts.validated(program_id, derived) is Ok,
    ensures
        accounts.token_account.key@ == accounts.vault.data.token_account@,
        accounts.authority@ == accounts.vault.data.authority@,
        derived == Some(
            (
                accounts.token_account.key@,
                accounts.validated(program_id, derived)->Ok_0.bumps.token_account,
            ),
        ),
        accounts.validated(program_id, derived)->Ok_0.accounts == accounts,
{
}

/// A request that matches a bound record passes validation: the token
/// account of such a record is the derived one already.
pub proof fn lemma_bound_record_passes_derivation(
    records: Map<Seq<u8>, Vault>,
    accounts: SecureWithdraw,
    program_id: Address,
)
    requires
        bound(records, program_id@),
        records.contains_key(accounts.vault.key@),
        records[accounts.vault.key@] == accounts.vault.data,
        accounts.constraints_hold(),
    ensures
        accounts.validated(program_id, token_account_address(accounts.vault.key@, program_id@))
            is Ok,
{
}

} // verus!
