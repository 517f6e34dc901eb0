//! The records the program keeps, the token accounts it reads, its errors and
//! the events it emits.
use vstd::prelude::*;
use crate::fee::MAX_FEE_BPS;
use crate::keys::{Pubkey, is_zero, keys_eq};

verus! {

/// The singleton configuration.
#[derive(Clone, Copy, Debug, PartialEq, Eq)]
pub struct Config {
    pub upgrade_authority: Pubkey,
    pub relayer: Pubkey,
    pub token_mint: Pubkey,
    pub fee_bps: u16,
}

impl Config {
    /// A configured record: an accepted fee rate and a token mint set.
    pub open spec fn wf(self) -> bool {
        self.fee_bps <= MAX_FEE_BPS && !is_zero(self.token_mint@)
    }
}

/// Custody record of one hashed identity.
#[derive(Clone, Copy, Debug, PartialEq, Eq)]
pub struct Vault {
    pub authority: Pubkey,
    pub hashed_discord_id: [u8; 32],
    pub token_mint: Pubkey,
}

/// Custody record for collected fees, one per configuration.
#[derive(Clone, Copy, Debug, PartialEq, Eq)]
pub struct FeeVault {
    pub config: Pubkey,
    pub token_mint: Pubkey,
    pub bump: u8,
}

/// Spending rights that a vault's authority delegates to the relayer.
#[derive(Clone, Copy, Debug, PartialEq, Eq)]
pub struct Allowance {
    pub authority: Pubkey,
    pub hashed_discord_id: [u8; 32],
    pub cap: u64,
    pub remaining: u64,
}

impl Allowance {
    /// What is left never exceeds the cap.
    pub open spec fn wf(self) -> bool {
        self.remaining <= self.cap
    }
}

/// A token account as the program sees it: its address, owner, mint and
/// balance.
#[derive(Clone, Copy, Debug, PartialEq, Eq)]
pub struct TokenAccount {
    pub key: Pubkey,
    pub owner: Pubkey,
    pub mint: Pubkey,
    pub amount: u64,
}

impl TokenAccount {
    /// The error a token account draws when it must belong to `owner` and
    /// hold tokens of `mint`.
    pub open spec fn error_for(self, owner: Seq<u8>, mint: Seq<u8>) -> Option<TipError> {
        if self.owner@ != owner {
            Some(TipError::InvalidVaultAuthority)
        } else if self.mint@ != mint {
            Some(TipError::InvalidTokenMint)
        } else {
            None
        }
    }

    /// Checks that the account belongs to `owner` and holds tokens of `mint`.
    pub fn check(&self, owner: &Pubkey, mint: &Pubkey) -> (r: Result<(), TipError>)
        ensures
            match r {
                Ok(()) => self.error_for(owner@, mint@) is None,
                Err(e) => self.error_for(owner@, mint@) == Some(e),
            },
    {
        if !keys_eq(&self.owner, owner) {
            return Err(TipError::InvalidVaultAuthority);
        }
        if !keys_eq(&self.mint, mint) {
            return Err(TipError::InvalidTokenMint);
        }
        Ok(())
    }
}

/// One movement of tokens for the token program to carry out, signed by
/// `authority`.
#[derive(Clone, Copy, Debug, PartialEq, Eq)]
pub struct Transfer {
    pub from: Pubkey,
    pub to: Pubkey,
    pub authority: Pubkey,
    pub amount: u64,
}

/// Why an operation was refused. Every error aborts the whole operation.
#[derive(Clone, Copy, Debug, PartialEq, Eq)]
pub enum TipError {
    InvalidRelayer,
    InvalidAuthority,
    InvalidVaultAuthority,
    InvalidTokenMint,
    InvalidFeeBps,
    InvalidFeeVault,
    InvalidDepositAmount,
    InvalidHashedDiscordId,
    InvalidTipAmount,
    AllowanceExceeded,
    InvalidSenderPda,
    InvalidRecipientPda,
    InvalidWithdrawAmount,
    InsufficientVaultBalance,
    FeeCalculationOverflow,
    AddressMismatch,
    InvalidDestination,
    AlreadyInitialized,
}

impl TipError {
    /// The message shown for the error.
    pub fn message(&self) -> (r: &'static str) {
        match self {
            TipError::InvalidRelayer => "Invalid relayer authority",
            TipError::InvalidAuthority => "Invalid upgrade authority",
            TipError::InvalidVaultAuthority => "Vault authority does not match signer",
            TipError::InvalidTokenMint => "Token mint mismatch",
            TipError::InvalidFeeBps => "Fee rate exceeds allowed maximum",
            TipError::InvalidFeeVault => "Fee vault mismatch",
            TipError::InvalidDepositAmount => "Deposit amount must be greater than zero",
            TipError::InvalidHashedDiscordId => "Invalid hashed Discord identifier",
            TipError::InvalidTipAmount => "Tip amount must be greater than zero",
            TipError::AllowanceExceeded => "Allowance remaining is insufficient for this tip",
            TipError::InvalidSenderPda => "Sender hashed Discord account mismatch",
            TipError::InvalidRecipientPda => "Recipient hashed Discord account mismatch",
            TipError::InvalidWithdrawAmount => "Withdraw amount must be greater than zero",
            TipError::InsufficientVaultBalance => "Vault balance is insufficient for withdrawal",
            TipError::FeeCalculationOverflow => "Fee calculation overflowed",
            TipError::AddressMismatch => "Account address does not match its derived address",
            TipError::InvalidDestination => "Withdrawal destination is the source account",
            TipError::AlreadyInitialized => "Configuration is already initialized",
        }
    }
}

/// Arguments of the one-time configuration.
#[derive(Clone, Copy, Debug, PartialEq, Eq)]
pub struct InitializeConfigArgs {
    pub relayer: Pubkey,
    pub token_mint: Pubkey,
    pub fee_bps: u16,
}

/// Emitted by a deposit.
#[derive(Clone, Copy, Debug, PartialEq, Eq)]
pub struct DepositEvent {
    pub authority: Pubkey,
    pub vault: Pubkey,
    pub vault_bump: u8,
    pub hashed_discord_id: [u8; 32],
    pub amount: u64,
}

/// Emitted when an allowance is approved or revoked.
#[derive(Clone, Copy, Debug, PartialEq, Eq)]
pub struct AllowanceUpdated {
    pub authority: Pubkey,
    pub vault: Pubkey,
    pub vault_bump: u8,
    pub hashed_discord_id: [u8; 32],
    pub cap: u64,
    pub remaining: u64,
}

/// Emitted by a tip.
#[derive(Clone, Copy, Debug, PartialEq, Eq)]
pub struct TipEvent {
    pub relayer: Pubkey,
    pub sender_vault: Pubkey,
    pub sender_vault_bump: u8,
    pub recipient_vault: Pubkey,
    pub recipient_vault_bump: u8,
    pub sender_hashed_discord_id: [u8; 32],
    pub recipient_hashed_discord_id: [u8; 32],
    pub amount: u64,
    pub allowance_remaining: u64,
    pub tip_id: [u8; 32],
    pub fee_vault: Pubkey,
    pub fee_vault_bump: u8,
    pub fee_amount: u64,
    pub fee_bps: u16,
    pub total_amount: u64,
}

/// Emitted by a withdrawal from a user vault.
#[derive(Clone, Copy, Debug, PartialEq, Eq)]
pub struct WithdrawEvent {
    pub authority: Pubkey,
    pub vault: Pubkey,
    pub vault_bump: u8,
    pub hashed_discord_id: [u8; 32],
    pub destination: Pubkey,
    pub destination_token_account: Pubkey,
    pub amount: u64,
}

} // verus!
