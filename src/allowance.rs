//! Granting and revoking the spending rights a vault's authority delegates
//! to the relayer.
use vstd::prelude::*;
use crate::address::{allowance_address, allowance_tag, derived, is_derived, matching_bump, vault_address, vault_tag};
use crate::keys::{keys_eq, Pubkey};
use crate::state::{Allowance, AllowanceUpdated, TipError};

verus! {

/// The accounts of an allowance update, signed by its authority.
#[derive(Clone, Copy, Debug, PartialEq, Eq)]
pub struct ApproveAllowance {
    pub authority: Pubkey,
    pub allowance_key: Pubkey,
    pub allowance: Allowance,
}

/// The accounts of an allowance revocation, signed by its authority.
#[derive(Clone, Copy, Debug, PartialEq, Eq)]
pub struct RevokeAllowance {
    pub authority: Pubkey,
    pub allowance_key: Pubkey,
    pub allowance: Allowance,
}

/// The error an update of the allowance `a` at `key` by `signer` draws, or
/// `None`.
pub open spec fn allowance_update_error(signer: Seq<u8>, key: Seq<u8>, a: Allowance, program_id: Seq<u8>) -> Option<TipError> {
    if !is_derived(key, allowance_tag(), a.hashed_discord_id@, program_id) {
        Some(TipError::AddressMismatch)
    } else if a.authority@ != signer {
        Some(TipError::InvalidAuthority)
    } else if derived(vault_tag(), a.hashed_discord_id@, program_id) is None {
        Some(TipError::AddressMismatch)
    } else {
        None
    }
}

/// Whether `ev` reports `a`, paired with the vault of its identity.
pub open spec fn reports(ev: AllowanceUpdated, a: Allowance, program_id: Seq<u8>) -> bool {
    &&& ev.authority@ == a.authority@
    &&& ev.hashed_discord_id@ == a.hashed_discord_id@
    &&& ev.cap == a.cap
    &&& ev.remaining == a.remaining
    &&& derived(vault_tag(), a.hashed_discord_id@, program_id) == Some((ev.vault@, ev.vault_bump))
}

/// Sets cap and remaining both to `amount` after checking the signer and
/// the allowance's address; reports the result paired with the vault.
fn set_allowance(
    authority: &Pubkey,
    allowance_key: &Pubkey,
    allowance: &mut Allowance,
    program_id: &Pubkey,
    amount: u64,
) -> (r: Result<AllowanceUpdated, TipError>)
    ensures
        match r {
            Ok(ev) => {
                &&& allowance_update_error(authority@, allowance_key@, *old(allowance), program_id@) is None
                &&& *final(allowance) == (Allowance { cap: amount, remaining: amount, ..*old(allowance) })
                &&& reports(ev, *final(allowance), program_id@)
            },
            Err(e) => {
                &&& allowance_update_error(authority@, allowance_key@, *old(allowance), program_id@) == Some(e)
                &&& *final(allowance) == *old(allowance)
            },
        },
{
    if matching_bump(allowance_address(&allowance.hashed_discord_id, program_id), allowance_key).is_none() {
        return Err(TipError::AddressMismatch);
    }
    if !keys_eq(&allowance.authority, authority) {
        return Err(TipError::InvalidAuthority);
    }
    let (vault, vault_bump) = match vault_address(&allowance.hashed_discord_id, program_id) {
        Some(found) => found,
        None => return Err(TipError::AddressMismatch),
    };
    allowance.cap = amount;
    allowance.remaining = amount;
    Ok(AllowanceUpdated {
        authority: allowance.authority,
        vault,
        vault_bump,
        hashed_discord_id: allowance.hashed_discord_id,
        cap: allowance.cap,
        remaining: allowance.remaining,
    })
}

/// Resets the allowance to `amount`: cap and remaining both become
/// `amount`, whatever was left before. On error nothing changes.
pub fn approve_allowance(ctx: &mut ApproveAllowance, program_id: &Pubkey, amount: u64) -> (r: Result<AllowanceUpdated, TipError>)
    ensures
        match r {
            Ok(ev) => {
                &&& allowance_update_error(old(ctx).authority@, old(ctx).allowance_key@, old(ctx).allowance, program_id@) is None
                &&& final(ctx).allowance == (Allowance { cap: amount, remaining: amount, ..old(ctx).allowance })
                &&& *final(ctx) == (ApproveAllowance { allowance: final(ctx).allowance, ..*old(ctx) })
                &&& reports(ev, final(ctx).allowance, program_id@)
                &&& final(ctx).allowance.wf()
            },
            Err(e) => {
                &&& allowance_update_error(old(ctx).authority@, old(ctx).allowance_key@, old(ctx).allowance, program_id@) == Some(e)
                &&& *final(ctx) == *old(ctx)
            },
        },
{
    let mut allowance = ctx.allowance;
    let r = set_allowance(&ctx.authority, &ctx.allowance_key, &mut allowance, program_id, amount);
    ctx.allowance = allowance;
    r
}

/// Revokes the allowance: cap and remaining both become zero. On error
/// nothing changes.
pub fn revoke_allowance(ctx: &mut RevokeAllowance, program_id: &Pubkey) -> (r: Result<AllowanceUpdated, TipError>)
    ensures
        match r {
            Ok(ev) => {
                &&& allowance_update_error(old(ctx).authority@, old(ctx).allowance_key@, old(ctx).allowance, program_id@) is None
                &&& final(ctx).allowance == (Allowance { cap: 0, remaining: 0, ..old(ctx).allowance })
                &&& *final(ctx) == (RevokeAllowance { allowance: final(ctx).allowance, ..*old(ctx) })
                &&& reports(ev, final(ctx).allowance, program_id@)
                &&& final(ctx).allowance.wf()
            },
            Err(e) => {
                &&& allowance_update_error(old(ctx).authority@, old(ctx).allowance_key@, old(ctx).allowance, program_id@) == Some(e)
                &&& *final(ctx) == *old(ctx)
            },
        },
{
    let mut allowance = ctx.allowance;
    let r = set_allowance(&ctx.authority, &ctx.allowance_key, &mut allowance, program_id, 0);
    ctx.allowance = allowance;
    r
}

} // verus!
