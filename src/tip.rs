//! The tip: the relayer moves funds from a sender's vault to a recipient's
//! vault, charges the fee to the fee vault, and spends the sender's
//! allowance by both.
use vstd::prelude::*;
use crate::address::{
    allowance_address, allowance_tag, derived, derived_bump, fee_vault_address, fee_vault_tag,
    is_derived, matching_bump, vault_address, vault_tag,
};
use crate::fee::{calculate_fee, fee_fits, fee_of};
use crate::keys::{default_key, is_zero, is_zero_key, keys_eq, zero_key, Pubkey};
use crate::state::{Allowance, Config, FeeVault, TipError, TipEvent, TokenAccount, Transfer, Vault};

verus! {

/// The accounts a tip reads and writes, with the addresses they were loaded
/// from. A record not yet created reads as all zeros. Token balances are as
/// read, before the returned transfers; a tip does not change them here.
#[derive(Clone, Copy, Debug, PartialEq, Eq)]
pub struct Tip {
    pub config_key: Pubkey,
    pub config: Config,
    pub relayer: Pubkey,
    pub sender_vault_key: Pubkey,
    pub sender_vault: Vault,
    pub sender_allowance_key: Pubkey,
    pub sender_allowance: Allowance,
    pub recipient_vault_key: Pubkey,
    pub recipient_vault: Vault,
    pub fee_vault_key: Pubkey,
    pub fee_vault: FeeVault,
    pub sender_vault_token_account: TokenAccount,
    pub recipient_vault_token_account: TokenAccount,
    pub fee_vault_token_account: TokenAccount,
}

/// What a successful tip hands to the runtime: the event and the token
/// movements, all of which commit together or not at all.
#[derive(Clone, Debug, PartialEq, Eq)]
pub struct TipOutcome {
    pub event: TipEvent,
    pub transfers: Vec<Transfer>,
}

/// A recipient vault that no tip or registration has touched yet.
pub open spec fn vault_unset(v: Vault) -> bool {
    is_zero(v.hashed_discord_id@) && is_zero(v.token_mint@)
}

/// A fee vault that has not been bound to a configuration yet.
pub open spec fn fee_vault_unset(f: FeeVault) -> bool {
    is_zero(f.config@)
}

/// The fee, and principal plus fee, of a tip of `amount` under `c`.
pub open spec fn tip_fee(c: Tip, amount: u64) -> int {
    fee_of(amount as int, c.config.fee_bps as int)
}

pub open spec fn tip_total(c: Tip, amount: u64) -> int {
    amount + tip_fee(c, amount)
}

/// The error a tip draws, checked in this order, or `None` when it succeeds.
pub open spec fn tip_error(c: Tip, program_id: Seq<u8>, amount: u64, recipient: Seq<u8>) -> Option<TipError> {
    let mint = c.config.token_mint@;
    let sender_hash = c.sender_vault.hashed_discord_id@;
    if amount == 0 {
        Some(TipError::InvalidTipAmount)
    } else if c.relayer@ != c.config.relayer@ {
        Some(TipError::InvalidRelayer)
    } else if is_zero(recipient) {
        Some(TipError::InvalidHashedDiscordId)
    } else if c.sender_vault.token_mint@ != mint {
        Some(TipError::InvalidTokenMint)
    } else if c.sender_vault.authority@ != c.sender_allowance.authority@ {
        Some(TipError::InvalidAuthority)
    } else if sender_hash != c.sender_allowance.hashed_discord_id@ {
        Some(TipError::InvalidSenderPda)
    } else if !vault_unset(c.recipient_vault) && c.recipient_vault.hashed_discord_id@ != recipient {
        Some(TipError::InvalidRecipientPda)
    } else if !vault_unset(c.recipient_vault) && c.recipient_vault.token_mint@ != mint {
        Some(TipError::InvalidTokenMint)
    } else if !is_derived(c.sender_vault_key@, vault_tag(), sender_hash, program_id)
        || !is_derived(c.sender_allowance_key@, allowance_tag(), sender_hash, program_id) {
        Some(TipError::InvalidSenderPda)
    } else if !is_derived(c.recipient_vault_key@, vault_tag(), recipient, program_id) {
        Some(TipError::InvalidRecipientPda)
    } else if !is_derived(c.fee_vault_key@, fee_vault_tag(), c.config_key@, program_id) {
        Some(TipError::InvalidFeeVault)
    } else if !fee_vault_unset(c.fee_vault) && c.fee_vault.config@ != c.config_key@ {
        Some(TipError::InvalidFeeVault)
    } else if !fee_vault_unset(c.fee_vault) && c.fee_vault.token_mint@ != mint {
        Some(TipError::InvalidTokenMint)
    } else if c.sender_vault_token_account.error_for(c.sender_vault_key@, mint) is Some {
        c.sender_vault_token_account.error_for(c.sender_vault_key@, mint)
    } else if c.recipient_vault_token_account.error_for(c.recipient_vault_key@, mint) is Some {
        c.recipient_vault_token_account.error_for(c.recipient_vault_key@, mint)
    } else if c.fee_vault_token_account.error_for(c.fee_vault_key@, mint) is Some {
        c.fee_vault_token_account.error_for(c.fee_vault_key@, mint)
    } else if !fee_fits(amount as int, c.config.fee_bps as int) || tip_total(c, amount) > u64::MAX {
        Some(TipError::FeeCalculationOverflow)
    } else if c.sender_allowance.remaining < tip_total(c, amount) {
        Some(TipError::AllowanceExceeded)
    } else {
        None
    }
}

/// The accounts after a successful tip: the allowance is spent by principal
/// plus fee, an untouched recipient vault and fee vault are bound to their
/// identity, and nothing else changes.
pub open spec fn tip_applied(c: Tip, n: Tip, program_id: Seq<u8>, amount: u64, recipient: Seq<u8>) -> bool {
    &&& n.sender_allowance.remaining == c.sender_allowance.remaining - tip_total(c, amount)
    &&& n == (Tip {
        sender_allowance: Allowance { remaining: n.sender_allowance.remaining, ..c.sender_allowance },
        recipient_vault: n.recipient_vault,
        fee_vault: n.fee_vault,
        ..c
    })
    &&& if vault_unset(c.recipient_vault) {
        &&& n.recipient_vault.authority@ == zero_key()
        &&& n.recipient_vault.hashed_discord_id@ == recipient
        &&& n.recipient_vault.token_mint@ == c.config.token_mint@
    } else {
        n.recipient_vault == c.recipient_vault
    }
    &&& if fee_vault_unset(c.fee_vault) {
        &&& n.fee_vault.config@ == c.config_key@
        &&& n.fee_vault.token_mint@ == c.config.token_mint@
        &&& n.fee_vault.bump == derived_bump(fee_vault_tag(), c.config_key@, program_id)
    } else {
        n.fee_vault == c.fee_vault
    }
}

/// The token movements of a successful tip: the principal to the
/// recipient's vault and, when there is one, the fee to the fee vault, both
/// signed by the sender's vault.
pub open spec fn tip_transfers(c: Tip, t: Seq<Transfer>, amount: u64) -> bool {
    let fee = tip_fee(c, amount);
    &&& t.len() == if fee > 0 { 2int } else { 1int }
    &&& t[0].from@ == c.sender_vault_token_account.key@
    &&& t[0].to@ == c.recipient_vault_token_account.key@
    &&& t[0].authority@ == c.sender_vault_key@
    &&& t[0].amount == amount
    &&& fee > 0 ==> {
        &&& t[1].from@ == c.sender_vault_token_account.key@
        &&& t[1].to@ == c.fee_vault_token_account.key@
        &&& t[1].authority@ == c.sender_vault_key@
        &&& t[1].amount == fee
    }
}

/// Creates the recipient's vault on first use, or checks that it is the
/// vault of `recipient` holding `mint`. On error the vault is unchanged.
pub fn bind_recipient_vault(vault: &mut Vault, recipient: &[u8; 32], mint: &Pubkey) -> (r: Result<(), TipError>)
    ensures
        match r {
            Ok(()) => if vault_unset(*old(vault)) {
                &&& final(vault).authority@ == zero_key()
                &&& final(vault).hashed_discord_id@ == recipient@
                &&& final(vault).token_mint@ == mint@
            } else {
                &&& *final(vault) == *old(vault)
                &&& old(vault).hashed_discord_id@ == recipient@
                &&& old(vault).token_mint@ == mint@
            },
            Err(e) => {
                &&& *final(vault) == *old(vault)
                &&& !vault_unset(*old(vault))
                &&& if old(vault).hashed_discord_id@ != recipient@ {
                    e == TipError::InvalidRecipientPda
                } else {
                    old(vault).token_mint@ != mint@ && e == TipError::InvalidTokenMint
                }
            },
        },
{
    if is_zero_key(&vault.hashed_discord_id) && is_zero_key(&vault.token_mint) {
        vault.authority = default_key();
        vault.hashed_discord_id = *recipient;
        vault.token_mint = *mint;
        return Ok(());
    }
    if !keys_eq(&vault.hashed_discord_id, recipient) {
        return Err(TipError::InvalidRecipientPda);
    }
    if !keys_eq(&vault.token_mint, mint) {
        return Err(TipError::InvalidTokenMint);
    }
    Ok(())
}

/// Binds an unset fee vault to `config` and `mint`, or checks that it is
/// bound to them. On error the fee vault is unchanged.
pub fn bind_fee_vault(fee_vault: &mut FeeVault, config: &Pubkey, mint: &Pubkey, bump: u8) -> (r: Result<(), TipError>)
    ensures
        match r {
            Ok(()) => if fee_vault_unset(*old(fee_vault)) {
                &&& final(fee_vault).config@ == config@
                &&& final(fee_vault).token_mint@ == mint@
                &&& final(fee_vault).bump == bump
            } else {
                &&& *final(fee_vault) == *old(fee_vault)
                &&& old(fee_vault).config@ == config@
                &&& old(fee_vault).token_mint@ == mint@
            },
            Err(e) => {
                &&& *final(fee_vault) == *old(fee_vault)
                &&& !fee_vault_unset(*old(fee_vault))
                &&& if old(fee_vault).config@ != config@ {
                    e == TipError::InvalidFeeVault
                } else {
                    old(fee_vault).token_mint@ != mint@ && e == TipError::InvalidTokenMint
                }
            },
        },
{
    if is_zero_key(&fee_vault.config) {
        fee_vault.config = *config;
        fee_vault.token_mint = *mint;
        fee_vault.bump = bump;
        return Ok(());
    }
    if !keys_eq(&fee_vault.config, config) {
        return Err(TipError::InvalidFeeVault);
    }
    if !keys_eq(&fee_vault.token_mint, mint) {
        return Err(TipError::InvalidTokenMint);
    }
    Ok(())
}

/// Executes a tip of `amount` from the sender's vault to the vault of
/// `recipient_hashed_discord_id`, on behalf of the relayer. The memo is
/// accepted and not interpreted. On success the sender's allowance is spent
/// by principal plus fee and the returned transfers are to be carried out;
/// on error no account changes.
pub fn tip(
    ctx: &mut Tip,
    program_id: &Pubkey,
    amount: u64,
    tip_id: [u8; 32],
    memo: Option<String>,
    recipient_hashed_discord_id: [u8; 32],
) -> (r: Result<TipOutcome, TipError>)
    ensures
        match r {
            Ok(out) => {
                &&& tip_error(*old(ctx), program_id@, amount, recipient_hashed_discord_id@) is None
                &&& tip_applied(*old(ctx), *final(ctx), program_id@, amount, recipient_hashed_discord_id@)
                &&& tip_transfers(*old(ctx), out.transfers@, amount)
                &&& old(ctx).sender_allowance.wf() ==> final(ctx).sender_allowance.wf()
                &&& out.event.amount == amount
                &&& out.event.fee_amount == tip_fee(*old(ctx), amount)
                &&& out.event.total_amount == tip_total(*old(ctx), amount)
                &&& out.event.fee_bps == old(ctx).config.fee_bps
                &&& out.event.allowance_remaining == final(ctx).sender_allowance.remaining
                &&& out.event.tip_id@ == tip_id@
                &&& out.event.sender_hashed_discord_id@ == old(ctx).sender_vault.hashed_discord_id@
                &&& out.event.recipient_hashed_discord_id@ == recipient_hashed_discord_id@
                &&& out.event.sender_vault@ == old(ctx).sender_vault_key@
                &&& out.event.recipient_vault@ == old(ctx).recipient_vault_key@
                &&& out.event.fee_vault@ == old(ctx).fee_vault_key@
                &&& out.event.fee_vault_bump == final(ctx).fee_vault.bump
                &&& out.event.relayer@ == old(ctx).relayer@
                &&& derived(vault_tag(), old(ctx).sender_vault.hashed_discord_id@, program_id@)
                    == Some((old(ctx).sender_vault_key@, out.event.sender_vault_bump))
                &&& derived(vault_tag(), recipient_hashed_discord_id@, program_id@)
                    == Some((old(ctx).recipient_vault_key@, out.event.recipient_vault_bump))
            },
            Err(e) => {
                &&& tip_error(*old(ctx), program_id@, amount, recipient_hashed_discord_id@) == Some(e)
                &&& *final(ctx) == *old(ctx)
            },
        },
{
    let _ = memo;
    if amount == 0 {
        return Err(TipError::InvalidTipAmount);
    }
    if !keys_eq(&ctx.relayer, &ctx.config.relayer) {
        return Err(TipError::InvalidRelayer);
    }
    if is_zero_key(&recipient_hashed_discord_id) {
        return Err(TipError::InvalidHashedDiscordId);
    }
    let mint: Pubkey = ctx.config.token_mint;
    if !keys_eq(&ctx.sender_vault.token_mint, &mint) {
        return Err(TipError::InvalidTokenMint);
    }
    if !keys_eq(&ctx.sender_vault.authority, &ctx.sender_allowance.authority) {
        return Err(TipError::InvalidAuthority);
    }
    if !keys_eq(&ctx.sender_vault.hashed_discord_id, &ctx.sender_allowance.hashed_discord_id) {
        return Err(TipError::InvalidSenderPda);
    }
    let mut recipient_vault: Vault = ctx.recipient_vault;
    bind_recipient_vault(&mut recipient_vault, &recipient_hashed_discord_id, &mint)?;

    let sender_hash: [u8; 32] = ctx.sender_vault.hashed_discord_id;
    let sender_vault_bump = match matching_bump(vault_address(&sender_hash, program_id), &ctx.sender_vault_key) {
        Some(b) => b,
        None => return Err(TipError::InvalidSenderPda),
    };
    if matching_bump(allowance_address(&sender_hash, program_id), &ctx.sender_allowance_key).is_none() {
        return Err(TipError::InvalidSenderPda);
    }
    let recipient_vault_bump = match matching_bump(
        vault_address(&recipient_hashed_discord_id, program_id),
        &ctx.recipient_vault_key,
    ) {
        Some(b) => b,
        None => return Err(TipError::InvalidRecipientPda),
    };
    let fee_vault_bump = match matching_bump(fee_vault_address(&ctx.config_key, program_id), &ctx.fee_vault_key) {
        Some(b) => b,
        None => return Err(TipError::InvalidFeeVault),
    };
    let mut fee_vault: FeeVault = ctx.fee_vault;
    bind_fee_vault(&mut fee_vault, &ctx.config_key, &mint, fee_vault_bump)?;

    ctx.sender_vault_token_account.check(&ctx.sender_vault_key, &mint)?;
    ctx.recipient_vault_token_account.check(&ctx.recipient_vault_key, &mint)?;
    ctx.fee_vault_token_account.check(&ctx.fee_vault_key, &mint)?;

    let fee_bps: u16 = ctx.config.fee_bps;
    let fee_amount: u64 = calculate_fee(amount, fee_bps)?;
    let total_amount: u64 = match amount.checked_add(fee_amount) {
        Some(t) => t,
        None => return Err(TipError::FeeCalculationOverflow),
    };
    if ctx.sender_allowance.remaining < total_amount {
        return Err(TipError::AllowanceExceeded);
    }

    let mut transfers: Vec<Transfer> = Vec::new();
    transfers.push(Transfer {
        from: ctx.sender_vault_token_account.key,
        to: ctx.recipient_vault_token_account.key,
        authority: ctx.sender_vault_key,
        amount,
    });
    if fee_amount > 0 {
        transfers.push(Transfer {
            from: ctx.sender_vault_token_account.key,
            to: ctx.fee_vault_token_account.key,
            authority: ctx.sender_vault_key,
            amount: fee_amount,
        });
    }

    ctx.sender_allowance.remaining = ctx.sender_allowance.remaining - total_amount;
    ctx.recipient_vault = recipient_vault;
    ctx.fee_vault = fee_vault;

    let event = TipEvent {
        relayer: ctx.relayer,
        sender_vault: ctx.sender_vault_key,
        sender_vault_bump,
        recipient_vault: ctx.recipient_vault_key,
        recipient_vault_bump,
        sender_hashed_discord_id: sender_hash,
        recipient_hashed_discord_id: recipient_vault.hashed_discord_id,
        amount,
        allowance_remaining: ctx.sender_allowance.remaining,
        tip_id,
        fee_vault: ctx.fee_vault_key,
        fee_vault_bump: fee_vault.bump,
        fee_amount,
        fee_bps,
        total_amount,
    };
    Ok(TipOutcome { event, transfers })
}

} // verus!
