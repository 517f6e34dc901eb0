//! Registration of a vault, deposits into it and withdrawals from it, and
//! withdrawal of collected fees.
use vstd::prelude::*;
use crate::address::{
    allowance_address, allowance_tag, derived, fee_vault_address, fee_vault_tag, is_derived,
    matching_bump, vault_address, vault_tag,
};
use crate::keys::{is_zero, is_zero_key, keys_eq, Pubkey};
use crate::state::{Allowance, Config, DepositEvent, FeeVault, TipError, TokenAccount, Transfer, Vault, WithdrawEvent};

verus! {

/// The accounts of a registration. Records not yet created read as all
/// zeros.
#[derive(Clone, Copy, Debug, PartialEq, Eq)]
pub struct Register {
    pub authority: Pubkey,
    pub config: Config,
    pub vault_key: Pubkey,
    pub vault: Vault,
    pub allowance_key: Pubkey,
    pub allowance: Allowance,
    pub token_mint: Pubkey,
}

/// Whether a record's authority is already held by someone other than
/// `caller`. The all-zero authority of a vault created by a tip is held by
/// nobody.
pub open spec fn claimed_by_other(authority: Seq<u8>, caller: Seq<u8>) -> bool {
    !is_zero(authority) && authority != caller
}

/// The error a registration of `hashed_id` draws, or `None`.
pub open spec fn register_error(c: Register, program_id: Seq<u8>, hashed_id: Seq<u8>) -> Option<TipError> {
    if is_zero(hashed_id) {
        Some(TipError::InvalidHashedDiscordId)
    } else if is_zero(c.config.token_mint@) || c.token_mint@ != c.config.token_mint@ {
        Some(TipError::InvalidTokenMint)
    } else if !is_derived(c.vault_key@, vault_tag(), hashed_id, program_id)
        || !is_derived(c.allowance_key@, allowance_tag(), hashed_id, program_id) {
        Some(TipError::AddressMismatch)
    } else if claimed_by_other(c.vault.authority@, c.authority@)
        || claimed_by_other(c.allowance.authority@, c.authority@) {
        Some(TipError::InvalidVaultAuthority)
    } else {
        None
    }
}

/// The accounts after a successful registration: vault and allowance
/// belong to the caller and carry the identity, the allowance is empty, and
/// nothing else changes.
pub open spec fn register_applied(c: Register, n: Register, hashed_id: Seq<u8>) -> bool {
    &&& n.vault.authority@ == c.authority@
    &&& n.vault.hashed_discord_id@ == hashed_id
    &&& n.vault.token_mint@ == c.config.token_mint@
    &&& n.allowance.authority@ == c.authority@
    &&& n.allowance.hashed_discord_id@ == hashed_id
    &&& n.allowance.cap == 0
    &&& n.allowance.remaining == 0
    &&& n == (Register { vault: n.vault, allowance: n.allowance, ..c })
}

/// Registers the caller as the authority of the vault and allowance of
/// `hashed_discord_id`. A vault created by a tip is claimed; one already
/// held by another authority is refused, never reassigned. The allowance
/// starts empty. On error nothing changes.
pub fn register(ctx: &mut Register, program_id: &Pubkey, hashed_discord_id: [u8; 32]) -> (r: Result<(), TipError>)
    ensures
        match r {
            Ok(()) => {
                &&& register_error(*old(ctx), program_id@, hashed_discord_id@) is None
                &&& register_applied(*old(ctx), *final(ctx), hashed_discord_id@)
                &&& final(ctx).allowance.wf()
            },
            Err(e) => {
                &&& register_error(*old(ctx), program_id@, hashed_discord_id@) == Some(e)
                &&& *final(ctx) == *old(ctx)
            },
        },
{
    if is_zero_key(&hashed_discord_id) {
        return Err(TipError::InvalidHashedDiscordId);
    }
    if is_zero_key(&ctx.config.token_mint) || !keys_eq(&ctx.token_mint, &ctx.config.token_mint) {
        return Err(TipError::InvalidTokenMint);
    }
    if matching_bump(vault_address(&hashed_discord_id, program_id), &ctx.vault_key).is_none()
        || matching_bump(allowance_address(&hashed_discord_id, program_id), &ctx.allowance_key).is_none() {
        return Err(TipError::AddressMismatch);
    }
    if (!is_zero_key(&ctx.vault.authority) && !keys_eq(&ctx.vault.authority, &ctx.authority))
        || (!is_zero_key(&ctx.allowance.authority) && !keys_eq(&ctx.allowance.authority, &ctx.authority)) {
        return Err(TipError::InvalidVaultAuthority);
    }
    ctx.vault.authority = ctx.authority;
    ctx.vault.hashed_discord_id = hashed_discord_id;
    ctx.vault.token_mint = ctx.config.token_mint;
    ctx.allowance.authority = ctx.authority;
    ctx.allowance.hashed_discord_id = hashed_discord_id;
    ctx.allowance.cap = 0;
    ctx.allowance.remaining = 0;
    Ok(())
}

/// The accounts of a deposit into the caller's vault. A vault that a tip
/// created and nobody has claimed has the all-zero authority, which no
/// caller holds. Token balances are as read, before the returned transfer.
#[derive(Clone, Copy, Debug, PartialEq, Eq)]
pub struct Deposit {
    pub config: Config,
    pub authority: Pubkey,
    pub vault_key: Pubkey,
    pub vault: Vault,
    pub authority_token_account: TokenAccount,
    pub vault_token_account: TokenAccount,
}

/// What a successful deposit hands to the runtime.
#[derive(Clone, Copy, Debug, PartialEq, Eq)]
pub struct DepositOutcome {
    pub event: DepositEvent,
    pub transfer: Transfer,
}

/// The error a deposit of `amount` draws, or `None`.
pub open spec fn deposit_error(c: Deposit, program_id: Seq<u8>, amount: u64) -> Option<TipError> {
    let mint = c.config.token_mint@;
    if !is_derived(c.vault_key@, vault_tag(), c.vault.hashed_discord_id@, program_id) {
        Some(TipError::AddressMismatch)
    } else if c.vault.authority@ != c.authority@ || is_zero(c.authority@) {
        Some(TipError::InvalidVaultAuthority)
    } else if c.authority_token_account.owner@ != c.authority@ {
        Some(TipError::InvalidAuthority)
    } else if c.authority_token_account.mint@ != mint {
        Some(TipError::InvalidTokenMint)
    } else if c.vault_token_account.error_for(c.vault_key@, mint) is Some {
        c.vault_token_account.error_for(c.vault_key@, mint)
    } else if amount == 0 {
        Some(TipError::InvalidDepositAmount)
    } else if c.vault.token_mint@ != mint {
        Some(TipError::InvalidTokenMint)
    } else {
        None
    }
}

/// Deposits `amount` from the caller's token account into the vault. The
/// returned transfer is signed by the caller; it fails on its own if the
/// caller's balance is short.
pub fn deposit(ctx: &Deposit, program_id: &Pubkey, amount: u64) -> (r: Result<DepositOutcome, TipError>)
    ensures
        match r {
            Ok(out) => {
                &&& deposit_error(*ctx, program_id@, amount) is None
                &&& out.transfer.from@ == ctx.authority_token_account.key@
                &&& out.transfer.to@ == ctx.vault_token_account.key@
                &&& out.transfer.authority@ == ctx.authority@
                &&& out.transfer.amount == amount
                &&& out.event.amount == amount
                &&& out.event.vault@ == ctx.vault_key@
                &&& out.event.authority@ == ctx.authority@
                &&& out.event.hashed_discord_id@ == ctx.vault.hashed_discord_id@
                &&& derived(vault_tag(), ctx.vault.hashed_discord_id@, program_id@) == Some((ctx.vault_key@, out.event.vault_bump))
            },
            Err(e) => deposit_error(*ctx, program_id@, amount) == Some(e),
        },
{
    let vault_bump = match matching_bump(vault_address(&ctx.vault.hashed_discord_id, program_id), &ctx.vault_key) {
        Some(b) => b,
        None => return Err(TipError::AddressMismatch),
    };
    if !keys_eq(&ctx.vault.authority, &ctx.authority) || is_zero_key(&ctx.authority) {
        return Err(TipError::InvalidVaultAuthority);
    }
    if !keys_eq(&ctx.authority_token_account.owner, &ctx.authority) {
        return Err(TipError::InvalidAuthority);
    }
    if !keys_eq(&ctx.authority_token_account.mint, &ctx.config.token_mint) {
        return Err(TipError::InvalidTokenMint);
    }
    ctx.vault_token_account.check(&ctx.vault_key, &ctx.config.token_mint)?;
    if amount == 0 {
        return Err(TipError::InvalidDepositAmount);
    }
    if !keys_eq(&ctx.vault.token_mint, &ctx.config.token_mint) {
        return Err(TipError::InvalidTokenMint);
    }
    let transfer = Transfer {
        from: ctx.authority_token_account.key,
        to: ctx.vault_token_account.key,
        authority: ctx.authority,
        amount,
    };
    let event = DepositEvent {
        authority: ctx.authority,
        vault: ctx.vault_key,
        vault_bump,
        hashed_discord_id: ctx.vault.hashed_discord_id,
        amount,
    };
    Ok(DepositOutcome { event, transfer })
}

/// The accounts of a withdrawal from the caller's vault, which the all-zero
/// authority of an unclaimed vault cannot make. After a successful
/// withdrawal `vault_token_account.amount` is the vault's balance once the
/// returned transfer has been carried out.
#[derive(Clone, Copy, Debug, PartialEq, Eq)]
pub struct Withdraw {
    pub config: Config,
    pub authority: Pubkey,
    pub vault_key: Pubkey,
    pub vault: Vault,
    pub vault_token_account: TokenAccount,
    pub destination_token_account: TokenAccount,
}

/// What a successful withdrawal hands to the runtime.
#[derive(Clone, Copy, Debug, PartialEq, Eq)]
pub struct WithdrawOutcome {
    pub event: WithdrawEvent,
    pub transfer: Transfer,
}

/// The error a withdrawal of `amount` draws, or `None`.
pub open spec fn withdraw_error(c: Withdraw, program_id: Seq<u8>, amount: u64) -> Option<TipError> {
    let mint = c.config.token_mint@;
    if !is_derived(c.vault_key@, vault_tag(), c.vault.hashed_discord_id@, program_id) {
        Some(TipError::AddressMismatch)
    } else if c.vault.authority@ != c.authority@ || is_zero(c.authority@) {
        Some(TipError::InvalidVaultAuthority)
    } else if c.vault_token_account.error_for(c.vault_key@, mint) is Some {
        c.vault_token_account.error_for(c.vault_key@, mint)
    } else if c.destination_token_account.mint@ != mint {
        Some(TipError::InvalidTokenMint)
    } else if c.destination_token_account.key@ == c.vault_token_account.key@ {
        Some(TipError::InvalidDestination)
    } else if amount == 0 {
        Some(TipError::InvalidWithdrawAmount)
    } else if c.vault.token_mint@ != mint {
        Some(TipError::InvalidTokenMint)
    } else if c.vault_token_account.amount < amount {
        Some(TipError::InsufficientVaultBalance)
    } else {
        None
    }
}

/// Withdraws `amount` from the caller's vault to another token account of
/// the caller's choosing, signed by the vault. It never takes more than the
/// vault holds, and on success the vault's balance drops by exactly
/// `amount`. On error nothing changes.
pub fn withdraw(ctx: &mut Withdraw, program_id: &Pubkey, amount: u64) -> (r: Result<WithdrawOutcome, TipError>)
    ensures
        match r {
            Ok(out) => {
                &&& withdraw_error(*old(ctx), program_id@, amount) is None
                &&& amount <= old(ctx).vault_token_account.amount
                &&& final(ctx).vault_token_account.amount == old(ctx).vault_token_account.amount - amount
                &&& *final(ctx) == (Withdraw {
                    vault_token_account: TokenAccount {
                        amount: final(ctx).vault_token_account.amount,
                        ..old(ctx).vault_token_account
                    },
                    ..*old(ctx)
                })
                &&& out.transfer.from@ == old(ctx).vault_token_account.key@
                &&& out.transfer.to@ == old(ctx).destination_token_account.key@
                &&& out.transfer.authority@ == old(ctx).vault_key@
                &&& out.transfer.amount == amount
                &&& out.event.amount == amount
                &&& out.event.authority@ == old(ctx).authority@
                &&& out.event.vault@ == old(ctx).vault_key@
                &&& out.event.hashed_discord_id@ == old(ctx).vault.hashed_discord_id@
                &&& out.event.destination@ == old(ctx).destination_token_account.owner@
                &&& out.event.destination_token_account@ == old(ctx).destination_token_account.key@
                &&& derived(vault_tag(), old(ctx).vault.hashed_discord_id@, program_id@)
                    == Some((old(ctx).vault_key@, out.event.vault_bump))
            },
            Err(e) => {
                &&& withdraw_error(*old(ctx), program_id@, amount) == Some(e)
                &&& *final(ctx) == *old(ctx)
            },
        },
{
    let vault_bump = match matching_bump(vault_address(&ctx.vault.hashed_discord_id, program_id), &ctx.vault_key) {
        Some(b) => b,
        None => return Err(TipError::AddressMismatch),
    };
    if !keys_eq(&ctx.vault.authority, &ctx.authority) || is_zero_key(&ctx.authority) {
        return Err(TipError::InvalidVaultAuthority);
    }
    ctx.vault_token_account.check(&ctx.vault_key, &ctx.config.token_mint)?;
    if !keys_eq(&ctx.destination_token_account.mint, &ctx.config.token_mint) {
        return Err(TipError::InvalidTokenMint);
    }
    if keys_eq(&ctx.destination_token_account.key, &ctx.vault_token_account.key) {
        return Err(TipError::InvalidDestination);
    }
    if amount == 0 {
        return Err(TipError::InvalidWithdrawAmount);
    }
    if !keys_eq(&ctx.vault.token_mint, &ctx.config.token_mint) {
        return Err(TipError::InvalidTokenMint);
    }
    if ctx.vault_token_account.amount < amount {
        return Err(TipError::InsufficientVaultBalance);
    }
    ctx.vault_token_account.amount = ctx.vault_token_account.amount - amount;
    let transfer = Transfer {
        from: ctx.vault_token_account.key,
        to: ctx.destination_token_account.key,
        authority: ctx.vault_key,
        amount,
    };
    let event = WithdrawEvent {
        authority: ctx.authority,
        vault: ctx.vault_key,
        vault_bump,
        hashed_discord_id: ctx.vault.hashed_discord_id,
        destination: ctx.destination_token_account.owner,
        destination_token_account: ctx.destination_token_account.key,
        amount,
    };
    Ok(WithdrawOutcome { event, transfer })
}

/// The accounts of a withdrawal of collected fees by the upgrade authority.
/// After a successful withdrawal `fee_vault_token_account.amount` is the
/// fee vault's balance once the returned transfer has been carried out.
#[derive(Clone, Copy, Debug, PartialEq, Eq)]
pub struct WithdrawFee {
    pub config_key: Pubkey,
    pub config: Config,
    pub upgrade_authority: Pubkey,
    pub fee_vault_key: Pubkey,
    pub fee_vault: FeeVault,
    pub fee_vault_token_account: TokenAccount,
    pub destination_token_account: TokenAccount,
}

/// The error a withdrawal of `amount` in fees draws, or `None`.
pub open spec fn withdraw_fee_error(c: WithdrawFee, program_id: Seq<u8>, amount: u64) -> Option<TipError> {
    let mint = c.config.token_mint@;
    if c.config.upgrade_authority@ != c.upgrade_authority@ {
        Some(TipError::InvalidAuthority)
    } else if derived(fee_vault_tag(), c.config_key@, program_id) != Some((c.fee_vault_key@, c.fee_vault.bump)) {
        Some(TipError::AddressMismatch)
    } else if c.fee_vault.config@ != c.config_key@ {
        Some(TipError::InvalidFeeVault)
    } else if c.fee_vault.token_mint@ != mint {
        Some(TipError::InvalidTokenMint)
    } else if c.fee_vault_token_account.error_for(c.fee_vault_key@, mint) is Some {
        c.fee_vault_token_account.error_for(c.fee_vault_key@, mint)
    } else if c.destination_token_account.mint@ != mint {
        Some(TipError::InvalidTokenMint)
    } else if c.destination_token_account.key@ == c.fee_vault_token_account.key@ {
        Some(TipError::InvalidDestination)
    } else if amount == 0 {
        Some(TipError::InvalidWithdrawAmount)
    } else if c.fee_vault_token_account.amount < amount {
        Some(TipError::InsufficientVaultBalance)
    } else {
        None
    }
}

/// Withdraws `amount` of collected fees to another token account of the
/// upgrade authority's choosing, signed by the fee vault. Only the upgrade
/// authority may; anyone else is refused whatever the amount. On error nothing changes.
pub fn withdraw_fee(ctx: &mut WithdrawFee, program_id: &Pubkey, amount: u64) -> (r: Result<Transfer, TipError>)
    ensures
        match r {
            Ok(t) => {
                &&& withdraw_fee_error(*old(ctx), program_id@, amount) is None
                &&& amount <= old(ctx).fee_vault_token_account.amount
                &&& final(ctx).fee_vault_token_account.amount == old(ctx).fee_vault_token_account.amount - amount
                &&& *final(ctx) == (WithdrawFee {
                    fee_vault_token_account: TokenAccount {
                        amount: final(ctx).fee_vault_token_account.amount,
                        ..old(ctx).fee_vault_token_account
                    },
                    ..*old(ctx)
                })
                &&& t.from@ == old(ctx).fee_vault_token_account.key@
                &&& t.to@ == old(ctx).destination_token_account.key@
                &&& t.authority@ == old(ctx).fee_vault_key@
                &&& t.amount == amount
            },
            Err(e) => {
                &&& withdraw_fee_error(*old(ctx), program_id@, amount) == Some(e)
                &&& *final(ctx) == *old(ctx)
            },
        },
{
    if !keys_eq(&ctx.config.upgrade_authority, &ctx.upgrade_authority) {
        return Err(TipError::InvalidAuthority);
    }
    match matching_bump(fee_vault_address(&ctx.config_key, program_id), &ctx.fee_vault_key) {
        Some(b) => {
            if b != ctx.fee_vault.bump {
                return Err(TipError::AddressMismatch);
            }
        },
        None => return Err(TipError::AddressMismatch),
    }
    if !keys_eq(&ctx.fee_vault.config, &ctx.config_key) {
        return Err(TipError::InvalidFeeVault);
    }
    if !keys_eq(&ctx.fee_vault.token_mint, &ctx.config.token_mint) {
        return Err(TipError::InvalidTokenMint);
    }
    ctx.fee_vault_token_account.check(&ctx.fee_vault_key, &ctx.config.token_mint)?;
    if !keys_eq(&ctx.destination_token_account.mint, &ctx.config.token_mint) {
        return Err(TipError::InvalidTokenMint);
    }
    if keys_eq(&ctx.destination_token_account.key, &ctx.fee_vault_token_account.key) {
        return Err(TipError::InvalidDestination);
    }
    if amount == 0 {
        return Err(TipError::InvalidWithdrawAmount);
    }
    if ctx.fee_vault_token_account.amount < amount {
        return Err(TipError::InsufficientVaultBalance);
    }
    ctx.fee_vault_token_account.amount = ctx.fee_vault_token_account.amount - amount;
    Ok(Transfer {
        from: ctx.fee_vault_token_account.key,
        to: ctx.destination_token_account.key,
        authority: ctx.fee_vault_key,
        amount,
    })
}

} // verus!
