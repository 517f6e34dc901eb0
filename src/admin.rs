//! The configuration: created once, then changed only by its upgrade
//! authority.
use vstd::prelude::*;
use crate::fee::MAX_FEE_BPS;
use crate::keys::{is_zero, is_zero_key, keys_eq, Pubkey};
use crate::state::{Config, InitializeConfigArgs, TipError};

verus! {

/// The accounts of the one-time configuration: the signer, who becomes the
/// upgrade authority, and the configuration record, which reads as all
/// zeros until it has been configured.
#[derive(Clone, Copy, Debug, PartialEq, Eq)]
pub struct InitializeConfig {
    pub upgrade_authority: Pubkey,
    pub config: Config,
}

/// Whether the configuration record has already been filled.
pub open spec fn configured(c: Config) -> bool {
    !is_zero(c.upgrade_authority@) || !is_zero(c.token_mint@)
}

/// The error the configuration of `c` with `args` draws, or `None`.
pub open spec fn initialize_config_error(c: InitializeConfig, args: InitializeConfigArgs) -> Option<TipError> {
    if configured(c.config) {
        Some(TipError::AlreadyInitialized)
    } else if is_zero(args.relayer@) {
        Some(TipError::InvalidRelayer)
    } else if is_zero(args.token_mint@) {
        Some(TipError::InvalidTokenMint)
    } else if args.fee_bps > MAX_FEE_BPS {
        Some(TipError::InvalidFeeBps)
    } else {
        None
    }
}

/// Fills the configuration once: the signer becomes its upgrade authority.
/// A configuration already filled is refused, so its authority cannot be
/// taken over. On error nothing changes.
pub fn initialize_config(ctx: &mut InitializeConfig, args: InitializeConfigArgs) -> (r: Result<(), TipError>)
    ensures
        match r {
            Ok(()) => {
                &&& initialize_config_error(*old(ctx), args) is None
                &&& final(ctx).config.upgrade_authority@ == old(ctx).upgrade_authority@
                &&& final(ctx).config.relayer@ == args.relayer@
                &&& final(ctx).config.token_mint@ == args.token_mint@
                &&& final(ctx).config.fee_bps == args.fee_bps
                &&& final(ctx).upgrade_authority == old(ctx).upgrade_authority
                &&& final(ctx).config.wf()
            },
            Err(e) => {
                &&& initialize_config_error(*old(ctx), args) == Some(e)
                &&& *final(ctx) == *old(ctx)
            },
        },
{
    if !is_zero_key(&ctx.config.upgrade_authority) || !is_zero_key(&ctx.config.token_mint) {
        return Err(TipError::AlreadyInitialized);
    }
    if is_zero_key(&args.relayer) {
        return Err(TipError::InvalidRelayer);
    }
    if is_zero_key(&args.token_mint) {
        return Err(TipError::InvalidTokenMint);
    }
    if args.fee_bps > MAX_FEE_BPS {
        return Err(TipError::InvalidFeeBps);
    }
    ctx.config.upgrade_authority = ctx.upgrade_authority;
    ctx.config.relayer = args.relayer;
    ctx.config.token_mint = args.token_mint;
    ctx.config.fee_bps = args.fee_bps;
    Ok(())
}

/// The accounts of a relayer change, signed by the upgrade authority.
#[derive(Clone, Copy, Debug, PartialEq, Eq)]
pub struct SetRelayer {
    pub config: Config,
    pub upgrade_authority: Pubkey,
}

/// The accounts of a fee-rate change, signed by the upgrade authority.
#[derive(Clone, Copy, Debug, PartialEq, Eq)]
pub struct SetFeeRate {
    pub config: Config,
    pub upgrade_authority: Pubkey,
}

/// Replaces the relayer. Only the upgrade authority may; otherwise nothing
/// changes.
pub fn set_relayer(ctx: &mut SetRelayer, new_relayer: Pubkey) -> (r: Result<(), TipError>)
    ensures
        match r {
            Ok(()) => {
                &&& old(ctx).config.upgrade_authority@ == old(ctx).upgrade_authority@
                &&& old(ctx).config.wf() ==> final(ctx).config.wf()
                &&& *final(ctx) == (SetRelayer {
                    config: Config { relayer: new_relayer, ..old(ctx).config },
                    ..*old(ctx)
                })
            },
            Err(e) => {
                &&& old(ctx).config.upgrade_authority@ != old(ctx).upgrade_authority@
                &&& e == TipError::InvalidAuthority
                &&& *final(ctx) == *old(ctx)
            },
        },
{
    if !keys_eq(&ctx.config.upgrade_authority, &ctx.upgrade_authority) {
        return Err(TipError::InvalidAuthority);
    }
    ctx.config.relayer = new_relayer;
    Ok(())
}

/// Replaces the fee rate, which may not exceed the maximum. Only the upgrade
/// authority may; otherwise nothing changes.
pub fn set_fee_rate(ctx: &mut SetFeeRate, fee_bps: u16) -> (r: Result<(), TipError>)
    ensures
        match r {
            Ok(()) => {
                &&& old(ctx).config.upgrade_authority@ == old(ctx).upgrade_authority@
                &&& fee_bps <= MAX_FEE_BPS
                &&& old(ctx).config.wf() ==> final(ctx).config.wf()
                &&& *final(ctx) == (SetFeeRate { config: Config { fee_bps, ..old(ctx).config }, ..*old(ctx) })
            },
            Err(e) => {
                &&& if old(ctx).config.upgrade_authority@ != old(ctx).upgrade_authority@ {
                    e == TipError::InvalidAuthority
                } else {
                    fee_bps > MAX_FEE_BPS && e == TipError::InvalidFeeBps
                }
                &&& *final(ctx) == *old(ctx)
            },
        },
{
    if !keys_eq(&ctx.config.upgrade_authority, &ctx.upgrade_authority) {
        return Err(TipError::InvalidAuthority);
    }
    if fee_bps > MAX_FEE_BPS {
        return Err(TipError::InvalidFeeBps);
    }
    ctx.config.fee_bps = fee_bps;
    Ok(())
}

} // verus!
