use tipcoin::address::{allowance_address, fee_vault_address, vault_address};
use tipcoin::admin::{
    initialize_config, set_fee_rate, set_relayer, InitializeConfig, SetFeeRate, SetRelayer,
};
use tipcoin::allowance::{approve_allowance, revoke_allowance, ApproveAllowance, RevokeAllowance};
use tipcoin::custody::{
    deposit, register, withdraw, withdraw_fee, Deposit, Register, Withdraw, WithdrawFee,
};
use tipcoin::fee::calculate_fee;
use tipcoin::keys::{default_key, is_zero_key, keys_eq};
use tipcoin::state::{
    Allowance, Config, FeeVault, InitializeConfigArgs, TipError, TokenAccount, Vault,
};
use tipcoin::tip::{tip, Tip};

const PROGRAM: [u8; 32] = [7u8; 32];
const ADMIN: [u8; 32] = [1u8; 32];
const RELAYER: [u8; 32] = [2u8; 32];
const MINT: [u8; 32] = [3u8; 32];
const ALICE: [u8; 32] = [4u8; 32];
const BOB: [u8; 32] = [5u8; 32];
const CONFIG_KEY: [u8; 32] = [6u8; 32];
const SENDER_ID: [u8; 32] = [0xa1u8; 32];
const RECIPIENT_ID: [u8; 32] = [0xb2u8; 32];

fn config(fee_bps: u16) -> Config {
    Config { upgrade_authority: ADMIN, relayer: RELAYER, token_mint: MINT, fee_bps }
}

fn vault_key(id: &[u8; 32]) -> [u8; 32] {
    vault_address(id, &PROGRAM).unwrap().0
}

fn token_account(key: u8, owner: [u8; 32], amount: u64) -> TokenAccount {
    TokenAccount { key: [key; 32], owner, mint: MINT, amount }
}

fn tip_ctx(fee_bps: u16, remaining: u64) -> Tip {
    let sender_vault_key = vault_key(&SENDER_ID);
    let recipient_vault_key = vault_key(&RECIPIENT_ID);
    let fee_vault_key = fee_vault_address(&CONFIG_KEY, &PROGRAM).unwrap().0;
    Tip {
        config_key: CONFIG_KEY,
        config: config(fee_bps),
        relayer: RELAYER,
        sender_vault_key,
        sender_vault: Vault { authority: ALICE, hashed_discord_id: SENDER_ID, token_mint: MINT },
        sender_allowance_key: allowance_address(&SENDER_ID, &PROGRAM).unwrap().0,
        sender_allowance: Allowance {
            authority: ALICE,
            hashed_discord_id: SENDER_ID,
            cap: remaining,
            remaining,
        },
        recipient_vault_key,
        recipient_vault: Vault { authority: [0u8; 32], hashed_discord_id: [0u8; 32], token_mint: [0u8; 32] },
        fee_vault_key,
        fee_vault: FeeVault { config: [0u8; 32], token_mint: [0u8; 32], bump: 0 },
        sender_vault_token_account: token_account(0x11, sender_vault_key, 1_000_000),
        recipient_vault_token_account: token_account(0x12, recipient_vault_key, 0),
        fee_vault_token_account: token_account(0x13, fee_vault_key, 0),
    }
}

fn register_ctx(authority: [u8; 32], id: &[u8; 32]) -> Register {
    Register {
        authority,
        config: config(50),
        vault_key: vault_key(id),
        vault: Vault { authority: [0u8; 32], hashed_discord_id: [0u8; 32], token_mint: [0u8; 32] },
        allowance_key: allowance_address(id, &PROGRAM).unwrap().0,
        allowance: Allowance { authority: [0u8; 32], hashed_discord_id: [0u8; 32], cap: 0, remaining: 0 },
        token_mint: MINT,
    }
}

fn withdraw_ctx(balance: u64) -> Withdraw {
    let key = vault_key(&SENDER_ID);
    Withdraw {
        config: config(50),
        authority: ALICE,
        vault_key: key,
        vault: Vault { authority: ALICE, hashed_discord_id: SENDER_ID, token_mint: MINT },
        vault_token_account: token_account(0x21, key, balance),
        destination_token_account: token_account(0x22, ALICE, 0),
    }
}

#[test]
fn fee_half_percent_of_thousand() {
    assert_eq!(calculate_fee(1000, 50), Ok(5));
    assert_eq!(1000 + calculate_fee(1000, 50).unwrap(), 1005);
}

#[test]
fn fee_rounds_up_small_amount() {
    assert_eq!(calculate_fee(1, 50), Ok(1));
    assert_eq!(1 + calculate_fee(1, 50).unwrap(), 2);
}

#[test]
fn fee_zero_rate_is_zero() {
    assert_eq!(calculate_fee(1000, 0), Ok(0));
    assert_eq!(calculate_fee(u64::MAX, 0), Ok(0));
}

#[test]
fn fee_bounds_on_concrete_values() {
    for &(amount, bps) in &[(1u64, 1u16), (90, 100), (9999, 1), (10000, 100), (123456789, 37)] {
        let f = calculate_fee(amount, bps).unwrap() as u128;
        let n = amount as u128 * bps as u128;
        assert!(n <= f * 10000 && f * 10000 < n + 10000);
        assert!(f > 0);
    }
}

#[test]
fn fee_exact_division_not_rounded() {
    assert_eq!(calculate_fee(20000, 100), Ok(200));
    assert_eq!(calculate_fee(20001, 100), Ok(201));
}

#[test]
fn fee_at_largest_amount() {
    assert_eq!(calculate_fee(u64::MAX, 100), Ok(u64::MAX / 100 + 1));
    assert_eq!(calculate_fee(u64::MAX, 10000), Ok(u64::MAX));
}

#[test]
fn fee_overflow_is_reported() {
    assert_eq!(calculate_fee(u64::MAX, 65535), Err(TipError::FeeCalculationOverflow));
}

#[test]
fn addresses_are_deterministic_and_separate() {
    let a = vault_address(&SENDER_ID, &PROGRAM).unwrap();
    assert_eq!(vault_address(&SENDER_ID, &PROGRAM).unwrap(), a);
    assert_ne!(a.0, SENDER_ID);
    assert_ne!(allowance_address(&SENDER_ID, &PROGRAM).unwrap().0, a.0);
    assert_ne!(vault_address(&RECIPIENT_ID, &PROGRAM).unwrap().0, a.0);
    assert_ne!(vault_address(&SENDER_ID, &[8u8; 32]).unwrap().0, a.0);
    assert_ne!(fee_vault_address(&CONFIG_KEY, &PROGRAM).unwrap().0, CONFIG_KEY);
}

#[test]
fn key_helpers() {
    assert!(is_zero_key(&default_key()));
    assert!(!is_zero_key(&ALICE));
    assert!(keys_eq(&ALICE, &[4u8; 32]));
    assert!(!keys_eq(&ALICE, &BOB));
}

#[test]
fn tip_spends_allowance_then_refuses_overdraft() {
    let mut ctx = tip_ctx(100, 100);
    let out = tip(&mut ctx, &PROGRAM, 90, [9u8; 32], None, RECIPIENT_ID).unwrap();
    assert_eq!(out.event.fee_amount, 1);
    assert_eq!(out.event.total_amount, 91);
    assert_eq!(out.event.allowance_remaining, 9);
    assert_eq!(ctx.sender_allowance.remaining, 9);
    assert_eq!(ctx.sender_allowance.cap, 100);
    assert_eq!(out.transfers.len(), 2);
    assert_eq!(out.transfers[0].amount, 90);
    assert_eq!(out.transfers[0].to, ctx.recipient_vault_token_account.key);
    assert_eq!(out.transfers[1].amount, 1);
    assert_eq!(out.transfers[1].to, ctx.fee_vault_token_account.key);
    assert_eq!(out.transfers[1].authority, ctx.sender_vault_key);

    let before = ctx;
    let second = tip(&mut ctx, &PROGRAM, 10, [10u8; 32], Some(String::from("thanks")), RECIPIENT_ID);
    assert_eq!(second.unwrap_err(), TipError::AllowanceExceeded);
    assert_eq!(ctx.sender_allowance.remaining, 9);
    assert_eq!(ctx, before);
}

#[test]
fn tip_creates_recipient_and_fee_vault() {
    let mut ctx = tip_ctx(50, 10_000);
    let out = tip(&mut ctx, &PROGRAM, 1000, [1u8; 32], None, RECIPIENT_ID).unwrap();
    assert_eq!(ctx.recipient_vault.hashed_discord_id, RECIPIENT_ID);
    assert_eq!(ctx.recipient_vault.authority, [0u8; 32]);
    assert_eq!(ctx.recipient_vault.token_mint, MINT);
    assert_eq!(ctx.fee_vault.config, CONFIG_KEY);
    assert_eq!(ctx.fee_vault.token_mint, MINT);
    assert_eq!(ctx.fee_vault.bump, fee_vault_address(&CONFIG_KEY, &PROGRAM).unwrap().1);
    assert_eq!(out.event.fee_amount, 5);
    assert_eq!(out.event.total_amount, 1005);
    assert_eq!(ctx.sender_allowance.remaining, 10_000 - 1005);
    assert_eq!(out.event.recipient_vault_bump, vault_address(&RECIPIENT_ID, &PROGRAM).unwrap().1);
    assert_eq!(out.event.sender_vault_bump, vault_address(&SENDER_ID, &PROGRAM).unwrap().1);
    assert_eq!(out.event.tip_id, [1u8; 32]);
}

#[test]
fn tip_without_fee_has_one_transfer() {
    let mut ctx = tip_ctx(0, 50);
    let out = tip(&mut ctx, &PROGRAM, 50, [1u8; 32], None, RECIPIENT_ID).unwrap();
    assert_eq!(out.transfers.len(), 1);
    assert_eq!(out.event.fee_amount, 0);
    assert_eq!(ctx.sender_allowance.remaining, 0);
}

#[test]
fn tip_to_vault_of_other_identity_is_refused() {
    let mut ctx = tip_ctx(50, 10_000);
    tip(&mut ctx, &PROGRAM, 100, [1u8; 32], None, RECIPIENT_ID).unwrap();
    let bound = ctx.recipient_vault;
    let before = ctx;
    let other = [0xc3u8; 32];
    let r = tip(&mut ctx, &PROGRAM, 100, [2u8; 32], None, other);
    assert_eq!(r.unwrap_err(), TipError::InvalidRecipientPda);
    assert_eq!(ctx.recipient_vault, bound);
    assert_eq!(ctx, before);
    tip(&mut ctx, &PROGRAM, 100, [3u8; 32], None, RECIPIENT_ID).unwrap();
    assert_eq!(ctx.recipient_vault, bound);
}

#[test]
fn tip_errors() {
    let mut ctx = tip_ctx(50, 10_000);
    assert_eq!(tip(&mut ctx, &PROGRAM, 0, [1u8; 32], None, RECIPIENT_ID).unwrap_err(), TipError::InvalidTipAmount);

    let mut c = tip_ctx(50, 10_000);
    c.relayer = BOB;
    assert_eq!(tip(&mut c, &PROGRAM, 5, [1u8; 32], None, RECIPIENT_ID).unwrap_err(), TipError::InvalidRelayer);

    let mut c = tip_ctx(50, 10_000);
    assert_eq!(tip(&mut c, &PROGRAM, 5, [1u8; 32], None, [0u8; 32]).unwrap_err(), TipError::InvalidHashedDiscordId);

    let mut c = tip_ctx(50, 10_000);
    c.sender_vault.token_mint = [9u8; 32];
    assert_eq!(tip(&mut c, &PROGRAM, 5, [1u8; 32], None, RECIPIENT_ID).unwrap_err(), TipError::InvalidTokenMint);

    let mut c = tip_ctx(50, 10_000);
    c.sender_allowance.authority = BOB;
    assert_eq!(tip(&mut c, &PROGRAM, 5, [1u8; 32], None, RECIPIENT_ID).unwrap_err(), TipError::InvalidAuthority);

    let mut c = tip_ctx(50, 10_000);
    c.sender_allowance.hashed_discord_id = RECIPIENT_ID;
    assert_eq!(tip(&mut c, &PROGRAM, 5, [1u8; 32], None, RECIPIENT_ID).unwrap_err(), TipError::InvalidSenderPda);

    let mut c = tip_ctx(50, 10_000);
    c.sender_vault_key = vault_key(&RECIPIENT_ID);
    assert_eq!(tip(&mut c, &PROGRAM, 5, [1u8; 32], None, RECIPIENT_ID).unwrap_err(), TipError::InvalidSenderPda);

    let mut c = tip_ctx(50, 10_000);
    c.recipient_vault_key = vault_key(&SENDER_ID);
    assert_eq!(tip(&mut c, &PROGRAM, 5, [1u8; 32], None, RECIPIENT_ID).unwrap_err(), TipError::InvalidRecipientPda);

    let mut c = tip_ctx(50, 10_000);
    c.fee_vault.config = [9u8; 32];
    assert_eq!(tip(&mut c, &PROGRAM, 5, [1u8; 32], None, RECIPIENT_ID).unwrap_err(), TipError::InvalidFeeVault);

    let mut c = tip_ctx(50, 10_000);
    c.recipient_vault_token_account.owner = BOB;
    assert_eq!(tip(&mut c, &PROGRAM, 5, [1u8; 32], None, RECIPIENT_ID).unwrap_err(), TipError::InvalidVaultAuthority);

    let mut c = tip_ctx(65535, u64::MAX);
    let before = c;
    assert_eq!(tip(&mut c, &PROGRAM, u64::MAX, [1u8; 32], None, RECIPIENT_ID).unwrap_err(), TipError::FeeCalculationOverflow);
    assert_eq!(c, before);
}

#[test]
fn withdraw_never_exceeds_balance() {
    let mut ctx = withdraw_ctx(50);
    let before = ctx;
    assert_eq!(withdraw(&mut ctx, &PROGRAM, 60).unwrap_err(), TipError::InsufficientVaultBalance);
    assert_eq!(ctx, before);
    let out = withdraw(&mut ctx, &PROGRAM, 30).unwrap();
    assert_eq!(ctx.vault_token_account.amount, 20);
    assert_eq!(out.transfer.amount, 30);
    assert_eq!(out.transfer.from, ctx.vault_token_account.key);
    assert_eq!(out.transfer.to, ctx.destination_token_account.key);
    assert_eq!(out.transfer.authority, ctx.vault_key);
    assert_eq!(out.event.destination, ALICE);
    withdraw(&mut ctx, &PROGRAM, 20).unwrap();
    assert_eq!(ctx.vault_token_account.amount, 0);
}

#[test]
fn withdraw_errors() {
    let mut ctx = withdraw_ctx(50);
    assert_eq!(withdraw(&mut ctx, &PROGRAM, 0).unwrap_err(), TipError::InvalidWithdrawAmount);
    let mut c = withdraw_ctx(50);
    c.authority = BOB;
    assert_eq!(withdraw(&mut c, &PROGRAM, 5).unwrap_err(), TipError::InvalidVaultAuthority);
    let mut c = withdraw_ctx(50);
    c.vault_key = [9u8; 32];
    assert_eq!(withdraw(&mut c, &PROGRAM, 5).unwrap_err(), TipError::AddressMismatch);
    let mut c = withdraw_ctx(50);
    c.destination_token_account.mint = [9u8; 32];
    assert_eq!(withdraw(&mut c, &PROGRAM, 5).unwrap_err(), TipError::InvalidTokenMint);
}

#[test]
fn withdraw_fee_by_upgrade_authority() {
    let fee_vault_key = fee_vault_address(&CONFIG_KEY, &PROGRAM).unwrap();
    let mut ctx = WithdrawFee {
        config_key: CONFIG_KEY,
        config: config(50),
        upgrade_authority: ADMIN,
        fee_vault_key: fee_vault_key.0,
        fee_vault: FeeVault { config: CONFIG_KEY, token_mint: MINT, bump: fee_vault_key.1 },
        fee_vault_token_account: token_account(0x31, fee_vault_key.0, 10),
        destination_token_account: token_account(0x32, ADMIN, 0),
    };
    assert_eq!(withdraw_fee(&mut ctx, &PROGRAM, 11).unwrap_err(), TipError::InsufficientVaultBalance);
    let t = withdraw_fee(&mut ctx, &PROGRAM, 4).unwrap();
    assert_eq!(t.amount, 4);
    assert_eq!(t.authority, fee_vault_key.0);
    assert_eq!(ctx.fee_vault_token_account.amount, 6);
    ctx.upgrade_authority = BOB;
    assert_eq!(withdraw_fee(&mut ctx, &PROGRAM, 1).unwrap_err(), TipError::InvalidAuthority);
}

#[test]
fn register_sets_owner_and_empty_allowance() {
    let mut ctx = register_ctx(ALICE, &SENDER_ID);
    register(&mut ctx, &PROGRAM, SENDER_ID).unwrap();
    assert_eq!(ctx.vault.authority, ALICE);
    assert_eq!(ctx.vault.hashed_discord_id, SENDER_ID);
    assert_eq!(ctx.vault.token_mint, MINT);
    assert_eq!(ctx.allowance.authority, ALICE);
    assert_eq!(ctx.allowance.cap, 0);
    assert_eq!(ctx.allowance.remaining, 0);
}

#[test]
fn reregistration_by_other_caller_is_refused() {
    let mut ctx = register_ctx(ALICE, &SENDER_ID);
    register(&mut ctx, &PROGRAM, SENDER_ID).unwrap();
    ctx.authority = BOB;
    let before = ctx;
    assert_eq!(register(&mut ctx, &PROGRAM, SENDER_ID).unwrap_err(), TipError::InvalidVaultAuthority);
    assert_eq!(ctx, before);
    assert_eq!(ctx.vault.authority, ALICE);
    ctx.authority = ALICE;
    register(&mut ctx, &PROGRAM, SENDER_ID).unwrap();
    assert_eq!(ctx.vault.authority, ALICE);
}

#[test]
fn register_claims_vault_created_by_tip() {
    let mut t = tip_ctx(50, 10_000);
    tip(&mut t, &PROGRAM, 100, [1u8; 32], None, RECIPIENT_ID).unwrap();
    let mut ctx = register_ctx(BOB, &RECIPIENT_ID);
    ctx.vault = t.recipient_vault;
    register(&mut ctx, &PROGRAM, RECIPIENT_ID).unwrap();
    assert_eq!(ctx.vault.authority, BOB);
}

#[test]
fn register_errors() {
    let mut ctx = register_ctx(ALICE, &SENDER_ID);
    assert_eq!(register(&mut ctx, &PROGRAM, [0u8; 32]).unwrap_err(), TipError::InvalidHashedDiscordId);
    assert_eq!(register(&mut ctx, &PROGRAM, RECIPIENT_ID).unwrap_err(), TipError::AddressMismatch);
    ctx.token_mint = [9u8; 32];
    assert_eq!(register(&mut ctx, &PROGRAM, SENDER_ID).unwrap_err(), TipError::InvalidTokenMint);
}

#[test]
fn deposit_moves_from_caller() {
    let key = vault_key(&SENDER_ID);
    let ctx = Deposit {
        config: config(50),
        authority: ALICE,
        vault_key: key,
        vault: Vault { authority: ALICE, hashed_discord_id: SENDER_ID, token_mint: MINT },
        authority_token_account: token_account(0x41, ALICE, 500),
        vault_token_account: token_account(0x42, key, 0),
    };
    assert_eq!(deposit(&ctx, &PROGRAM, 0).unwrap_err(), TipError::InvalidDepositAmount);
    let out = deposit(&ctx, &PROGRAM, 200).unwrap();
    assert_eq!(out.transfer.from, [0x41u8; 32]);
    assert_eq!(out.transfer.to, [0x42u8; 32]);
    assert_eq!(out.transfer.authority, ALICE);
    assert_eq!(out.transfer.amount, 200);
    assert_eq!(out.event.vault_bump, vault_address(&SENDER_ID, &PROGRAM).unwrap().1);
    let mut other = ctx;
    other.vault.token_mint = [9u8; 32];
    assert_eq!(deposit(&other, &PROGRAM, 1).unwrap_err(), TipError::InvalidTokenMint);
    let mut other = ctx;
    other.authority_token_account.owner = BOB;
    assert_eq!(deposit(&other, &PROGRAM, 1).unwrap_err(), TipError::InvalidAuthority);
}

#[test]
fn approve_resets_and_revoke_zeroes() {
    let key = allowance_address(&SENDER_ID, &PROGRAM).unwrap().0;
    let allowance = Allowance { authority: ALICE, hashed_discord_id: SENDER_ID, cap: 70, remaining: 3 };
    let mut ctx = ApproveAllowance { authority: ALICE, allowance_key: key, allowance };
    let ev = approve_allowance(&mut ctx, &PROGRAM, 40).unwrap();
    assert_eq!(ctx.allowance.cap, 40);
    assert_eq!(ctx.allowance.remaining, 40);
    assert_eq!(ev.vault, vault_key(&SENDER_ID));
    assert_eq!(ev.remaining, 40);

    let mut rctx = RevokeAllowance { authority: ALICE, allowance_key: key, allowance: ctx.allowance };
    let ev = revoke_allowance(&mut rctx, &PROGRAM).unwrap();
    assert_eq!(rctx.allowance.cap, 0);
    assert_eq!(rctx.allowance.remaining, 0);
    assert_eq!(ev.cap, 0);

    let mut bad = ApproveAllowance { authority: BOB, allowance_key: key, allowance };
    assert_eq!(approve_allowance(&mut bad, &PROGRAM, 1).unwrap_err(), TipError::InvalidAuthority);
    assert_eq!(bad.allowance, allowance);
}

#[test]
fn config_lifecycle() {
    let blank = Config { upgrade_authority: [0u8; 32], relayer: [0u8; 32], token_mint: [0u8; 32], fee_bps: 0 };
    let mut ctx = InitializeConfig { upgrade_authority: ADMIN, config: blank };
    let args = InitializeConfigArgs { relayer: RELAYER, token_mint: MINT, fee_bps: 101 };
    assert_eq!(initialize_config(&mut ctx, args).unwrap_err(), TipError::InvalidFeeBps);
    let args = InitializeConfigArgs { relayer: [0u8; 32], token_mint: MINT, fee_bps: 10 };
    assert_eq!(initialize_config(&mut ctx, args).unwrap_err(), TipError::InvalidRelayer);
    let args = InitializeConfigArgs { relayer: RELAYER, token_mint: [0u8; 32], fee_bps: 10 };
    assert_eq!(initialize_config(&mut ctx, args).unwrap_err(), TipError::InvalidTokenMint);
    assert_eq!(ctx.config, blank);
    let args = InitializeConfigArgs { relayer: RELAYER, token_mint: MINT, fee_bps: 100 };
    initialize_config(&mut ctx, args).unwrap();
    assert_eq!(ctx.config, config(100));

    let mut s = SetRelayer { config: ctx.config, upgrade_authority: ADMIN };
    set_relayer(&mut s, BOB).unwrap();
    assert_eq!(s.config.relayer, BOB);
    s.upgrade_authority = BOB;
    assert_eq!(set_relayer(&mut s, ALICE).unwrap_err(), TipError::InvalidAuthority);

    let mut f = SetFeeRate { config: ctx.config, upgrade_authority: ADMIN };
    assert_eq!(set_fee_rate(&mut f, 101).unwrap_err(), TipError::InvalidFeeBps);
    set_fee_rate(&mut f, 25).unwrap();
    assert_eq!(f.config.fee_bps, 25);
}

#[test]
fn error_messages() {
    assert_eq!(TipError::AllowanceExceeded.message(), "Allowance remaining is insufficient for this tip");
    assert_eq!(TipError::FeeCalculationOverflow.message(), "Fee calculation overflowed");
}

fn withdraw_fee_ctx(balance: u64) -> WithdrawFee {
    let fee_vault_key = fee_vault_address(&CONFIG_KEY, &PROGRAM).unwrap();
    WithdrawFee {
        config_key: CONFIG_KEY,
        config: config(50),
        upgrade_authority: ADMIN,
        fee_vault_key: fee_vault_key.0,
        fee_vault: FeeVault { config: CONFIG_KEY, token_mint: MINT, bump: fee_vault_key.1 },
        fee_vault_token_account: token_account(0x31, fee_vault_key.0, balance),
        destination_token_account: token_account(0x32, ADMIN, 0),
    }
}

#[test]
fn withdraw_fee_checks_caller_before_amount() {
    let mut ctx = withdraw_fee_ctx(10);
    ctx.upgrade_authority = BOB;
    let before = ctx;
    assert_eq!(withdraw_fee(&mut ctx, &PROGRAM, 0).unwrap_err(), TipError::InvalidAuthority);
    assert_eq!(withdraw_fee(&mut ctx, &PROGRAM, 5).unwrap_err(), TipError::InvalidAuthority);
    assert_eq!(ctx, before);
    let mut ctx = withdraw_fee_ctx(10);
    assert_eq!(withdraw_fee(&mut ctx, &PROGRAM, 0).unwrap_err(), TipError::InvalidWithdrawAmount);
}

#[test]
fn withdraw_to_source_account_is_refused() {
    let mut ctx = withdraw_ctx(50);
    ctx.destination_token_account = ctx.vault_token_account;
    let before = ctx;
    assert_eq!(withdraw(&mut ctx, &PROGRAM, 10).unwrap_err(), TipError::InvalidDestination);
    assert_eq!(ctx, before);

    let mut fctx = withdraw_fee_ctx(10);
    fctx.destination_token_account = fctx.fee_vault_token_account;
    let before = fctx;
    assert_eq!(withdraw_fee(&mut fctx, &PROGRAM, 5).unwrap_err(), TipError::InvalidDestination);
    assert_eq!(fctx, before);
}

#[test]
fn withdraw_checks_caller_before_amount() {
    let mut ctx = withdraw_ctx(50);
    ctx.authority = BOB;
    assert_eq!(withdraw(&mut ctx, &PROGRAM, 0).unwrap_err(), TipError::InvalidVaultAuthority);
}

#[test]
fn initialize_config_is_one_time() {
    let mut ctx = InitializeConfig { upgrade_authority: BOB, config: config(50) };
    let before = ctx;
    let args = InitializeConfigArgs { relayer: BOB, token_mint: MINT, fee_bps: 10 };
    assert_eq!(initialize_config(&mut ctx, args).unwrap_err(), TipError::AlreadyInitialized);
    assert_eq!(ctx, before);
    assert_eq!(ctx.config.upgrade_authority, ADMIN);
}

#[test]
fn unclaimed_vault_cannot_be_withdrawn_or_funded_by_zero_key() {
    let zero = [0u8; 32];
    let mut ctx = withdraw_ctx(50);
    ctx.authority = zero;
    ctx.vault.authority = zero;
    ctx.destination_token_account.owner = zero;
    let before = ctx;
    assert_eq!(withdraw(&mut ctx, &PROGRAM, 10).unwrap_err(), TipError::InvalidVaultAuthority);
    assert_eq!(ctx, before);

    let key = vault_key(&SENDER_ID);
    let d = Deposit {
        config: config(50),
        authority: zero,
        vault_key: key,
        vault: Vault { authority: zero, hashed_discord_id: SENDER_ID, token_mint: MINT },
        authority_token_account: token_account(0x41, zero, 500),
        vault_token_account: token_account(0x42, key, 0),
    };
    assert_eq!(deposit(&d, &PROGRAM, 10).unwrap_err(), TipError::InvalidVaultAuthority);
}
