//! Scenario tests for the instruction handlers: the escrow happy path,
//! cancel before and after fill, double initialization, authority gating,
//! zero-amount rejection, and all-or-nothing failure.

use pinocchio_vault::account::Account;
use pinocchio_vault::errors::{Ee, ProgramError};
use pinocchio_vault::instructions::close_config::CloseConfigPda;
use pinocchio_vault::instructions::config_resize::ConfigResize;
use pinocchio_vault::instructions::escrow_tok_cancel::EscrowTokCancel;
use pinocchio_vault::instructions::escrow_tok_make::EscrowTokMake;
use pinocchio_vault::instructions::escrow_tok_withdraw::EscrowTokWithdraw;
use pinocchio_vault::instructions::init_config::InitConfig;
use pinocchio_vault::instructions::tok22_init_tok_acct::Token2022InitTokAcct;
use pinocchio_vault::instructions::tok_lgc_deposit::TokLgcDeposit;
use pinocchio_vault::instructions::tok_lgc_withdraw::TokLgcWithdraw;
use pinocchio_vault::instructions::token2022::Token2022;
use pinocchio_vault::instructions::{dispatch, Deposit, Withdraw};
use pinocchio_vault::pda::{derive_pda1, find_escrow_pda};
use pinocchio_vault::rent::Rent;
use pinocchio_vault::state::{Config, Escrow, StatusEnum};
use pinocchio_vault::token::token_account_amount;
use pinocchio_vault::{
    Pubkey, ATOKEN_PROGRAM_ID, CONFIG_SEED, ESCROW_SEED, ID, SYSTEM_PROGRAM_ID,
    TOKEN_2022_PROGRAM_ID, TOKEN_PROGRAM_ID, VAULT_SEED,
};

fn key(n: u8) -> Pubkey {
    [n; 32]
}

fn custom(e: Ee) -> ProgramError {
    ProgramError::Custom(e.code())
}

fn fresh_account(k: Pubkey) -> Account {
    Account {
        key: k,
        lamports: 0,
        data: vec![],
        owner: SYSTEM_PROGRAM_ID,
        is_signer: false,
        is_writable: true,
        executable: false,
    }
}

fn signer_account(k: Pubkey, lamports: u64) -> Account {
    Account { lamports, is_signer: true, ..fresh_account(k) }
}

fn mint_account(k: Pubkey, decimals: u8) -> Account {
    let mut data = vec![0u8; 82];
    data[44] = decimals;
    Account { lamports: 2_000_000, data, owner: TOKEN_PROGRAM_ID, ..fresh_account(k) }
}

fn token_account(k: Pubkey, mint: Pubkey, wallet: Pubkey, amount: u64) -> Account {
    let mut data = vec![0u8; 165];
    data[0..32].copy_from_slice(&mint);
    data[32..64].copy_from_slice(&wallet);
    data[64..72].copy_from_slice(&amount.to_le_bytes());
    data[108] = 1;
    Account { lamports: 2_039_280, data, owner: TOKEN_PROGRAM_ID, ..fresh_account(k) }
}

fn program_account(k: Pubkey) -> Account {
    Account { executable: true, ..fresh_account(k) }
}

fn config_account(authority: Pubkey, bump: u8) -> Account {
    let record = Config {
        authority,
        str_u8array: [0; 32],
        fee: 5,
        sol_balance: 0,
        token_balance: 0,
        status: StatusEnum::Waiting,
        bump,
    };
    let mut acct = fresh_account(key(200));
    acct.lamports = 1_517_280;
    acct.owner = ID;
    acct.data = record.to_bytes();
    acct
}

fn ata_address(wallet: &Pubkey, mint: &Pubkey) -> Pubkey {
    solana_pubkey::Pubkey::find_program_address(
        &[wallet, &TOKEN_PROGRAM_ID, mint],
        &solana_pubkey::Pubkey::new_from_array(ATOKEN_PROGRAM_ID),
    )
    .0
    .to_bytes()
}

fn make_payload(decimal_x: u8, amount_x: u64, decimal_y: u8, amount_y: u64, id: u64) -> Vec<u8> {
    let mut data = vec![decimal_x];
    data.extend_from_slice(&amount_x.to_le_bytes());
    data.push(decimal_y);
    data.extend_from_slice(&amount_y.to_le_bytes());
    data.extend_from_slice(&id.to_le_bytes());
    data
}

/// Build the ten-account list for EscrowTokMake and run both phases.
fn run_make(maker_balance_x: u64) -> EscrowTokMake {
    let rent = Rent::default();
    let maker_key = key(1);
    let mint_x = mint_account(key(2), 9);
    let mint_y = mint_account(key(3), 6);
    let (escrow_key, _) = find_escrow_pda(&ESCROW_SEED, &maker_key, 1).unwrap();
    let escrow_ata_key = ata_address(&escrow_key, &mint_x.key);
    let user_x_ata_key = ata_address(&maker_key, &mint_x.key);
    let accounts = vec![
        signer_account(maker_key, 1_000_000_000),
        token_account(user_x_ata_key, mint_x.key, maker_key, maker_balance_x),
        fresh_account(escrow_ata_key),
        fresh_account(escrow_key),
        mint_x,
        mint_y,
        config_account(key(9), 255),
        program_account(TOKEN_PROGRAM_ID),
        program_account(SYSTEM_PROGRAM_ID),
        fresh_account(SYSTEM_PROGRAM_ID),
    ];
    let data = make_payload(9, 500_000_000, 6, 250_000, 1);
    let mut h = EscrowTokMake::try_from(&data, &accounts, &rent).unwrap();
    h.process(&rent).unwrap();
    h
}

#[test]
fn test_escrow_happy_path() {
    // A maker with 1_000_000_000 units of asset X offers 500_000_000 of it
    // for 250_000 of asset Y under offer id 1.
    let h = run_make(1_000_000_000);
    let (escrow_key, bump) = find_escrow_pda(&ESCROW_SEED, &key(1), 1).unwrap();
    assert_eq!(h.escrow.key, escrow_key);
    assert_eq!(h.escrow.owner, ID);
    assert_eq!(h.escrow.lamports, 1_691_280);
    let record = Escrow::load(&h.escrow).unwrap();
    assert_eq!(record.maker, key(1));
    assert_eq!(record.mint_x, key(2));
    assert_eq!(record.mint_y, key(3));
    assert_eq!(record.amount_y, 250_000);
    assert_eq!(record.decimal_x, 9);
    assert_eq!(record.decimal_y, 6);
    assert_eq!(record.id, 1);
    assert_eq!(record.bump, bump);
    // The escrow's asset-X holding now carries the offered amount.
    assert_eq!(token_account_amount(&h.escrow_ata), Ok(500_000_000));
    assert_eq!(token_account_amount(&h.user_x_ata), Ok(500_000_000));
    // The maker funded both new accounts.
    assert_eq!(h.maker_x.lamports, 1_000_000_000 - 1_691_280 - 2_039_280);
}

#[test]
fn test_make_zero_amount_rejected() {
    // Zero-amount rejection: amount_x == 0 must surface ZeroAsInput.
    let rent = Rent::default();
    let maker_key = key(1);
    let mint_x = mint_account(key(2), 9);
    let mint_y = mint_account(key(3), 6);
    let (escrow_key, _) = find_escrow_pda(&ESCROW_SEED, &maker_key, 1).unwrap();
    let accounts = vec![
        signer_account(maker_key, 1_000_000_000),
        token_account(key(4), mint_x.key, maker_key, 1_000_000_000),
        fresh_account(key(5)),
        fresh_account(escrow_key),
        mint_x,
        mint_y,
        config_account(key(9), 255),
        program_account(TOKEN_PROGRAM_ID),
        program_account(SYSTEM_PROGRAM_ID),
        fresh_account(SYSTEM_PROGRAM_ID),
    ];
    let data = make_payload(9, 0, 6, 250_000, 1);
    let r = EscrowTokMake::try_from(&data, &accounts, &rent);
    assert_eq!(r.err(), Some(custom(Ee::ZeroAsInput)));
    // A zero amount_y is rejected the same way.
    let data_y = make_payload(9, 500_000_000, 6, 0, 1);
    let r_y = EscrowTokMake::try_from(&data_y, &accounts, &rent);
    assert_eq!(r_y.err(), Some(custom(Ee::ZeroAsInput)));
    // And a short payload surfaces the under-minimum code.
    let short = make_payload(9, 500_000_000, 6, 250_000, 1)[..20].to_vec();
    let r_s = EscrowTokMake::try_from(&short, &accounts, &rent);
    assert_eq!(r_s.err(), Some(custom(Ee::InputDataUnderMin)));
}

#[test]
fn test_make_wrong_escrow_address() {
    // An escrow slot at anything but the derived address fails EscrowPDA
    // and nothing is created.
    let rent = Rent::default();
    let maker_key = key(1);
    let mint_x = mint_account(key(2), 9);
    let mint_y = mint_account(key(3), 6);
    let accounts = vec![
        signer_account(maker_key, 1_000_000_000),
        token_account(key(4), mint_x.key, maker_key, 1_000_000_000),
        fresh_account(key(5)),
        fresh_account(key(6)),
        mint_x,
        mint_y,
        config_account(key(9), 255),
        program_account(TOKEN_PROGRAM_ID),
        program_account(SYSTEM_PROGRAM_ID),
        fresh_account(SYSTEM_PROGRAM_ID),
    ];
    let data = make_payload(9, 500_000_000, 6, 250_000, 1);
    let mut h = EscrowTokMake::try_from(&data, &accounts, &rent).unwrap();
    assert_eq!(h.process(&rent), Err(custom(Ee::EscrowPDA)));
    assert_eq!(h.escrow.lamports, 0);
    assert!(h.escrow.data.is_empty());
}

#[test]
fn test_make_twice_fails_already_initialized() {
    // No double-init: a second make for the same derived address fails.
    let h = run_make(1_000_000_000);
    let rent = Rent::default();
    let accounts = vec![
        h.maker_x.clone(),
        h.user_x_ata.clone(),
        h.escrow_ata.clone(),
        h.escrow.clone(),
        h.mint_x.clone(),
        h.mint_y.clone(),
        config_account(key(9), 255),
        h.token_program.clone(),
        h.system_program.clone(),
        h.atoken_program.clone(),
    ];
    let data = make_payload(9, 500_000_000, 6, 250_000, 1);
    let mut again = EscrowTokMake::try_from(&data, &accounts, &rent).unwrap();
    assert_eq!(again.process(&rent), Err(ProgramError::AccountAlreadyInitialized));
    // The failed attempt changed nothing.
    assert_eq!(again.escrow.data, h.escrow.data);
    assert_eq!(again.escrow.lamports, h.escrow.lamports);
    assert_eq!(again.user_x_ata.data, h.user_x_ata.data);
}

/// Build the twelve-account list for EscrowTokCancel from a made offer.
fn cancel_accounts(h: &EscrowTokMake, escrow_ata_y_balance: u64) -> Vec<Account> {
    let maker_ata_y_key = ata_address(&h.maker_x.key, &h.mint_y.key);
    let escrow_ata_y_key = ata_address(&h.escrow.key, &h.mint_y.key);
    vec![
        h.maker_x.clone(),
        h.user_x_ata.clone(),
        token_account(maker_ata_y_key, h.mint_y.key, h.maker_x.key, 0),
        h.escrow_ata.clone(),
        token_account(escrow_ata_y_key, h.mint_y.key, h.escrow.key, escrow_ata_y_balance),
        h.mint_x.clone(),
        h.mint_y.clone(),
        h.escrow.clone(),
        config_account(key(9), 255),
        h.token_program.clone(),
        h.system_program.clone(),
        h.atoken_program.clone(),
    ]
}

#[test]
fn test_cancel_before_fill() {
    // Cancel before fill: the escrow's asset-Y holding is still empty, so
    // the maker gets asset X back and the record is emptied.
    let h = run_make(1_000_000_000);
    let rent = Rent::default();
    let accounts = cancel_accounts(&h, 0);
    let mut c = EscrowTokCancel::try_from(&[], &accounts, &rent).unwrap();
    c.process().unwrap();
    assert_eq!(token_account_amount(&c.maker_ata_x), Ok(1_000_000_000));
    assert_eq!(token_account_amount(&c.escrow_ata_x), Ok(0));
    assert_eq!(c.escrow_pda.lamports, 0);
    assert!(c.escrow_pda.data.is_empty());
    assert_eq!(c.maker.lamports, h.maker_x.lamports + 1_691_280);

    // Cancelling again on the closed, empty escrow fails EscrowDataEmpty.
    let mut second = accounts.clone();
    second[0] = c.maker.clone();
    second[1] = c.maker_ata_x.clone();
    second[3] = c.escrow_ata_x.clone();
    second[7] = c.escrow_pda.clone();
    let again = EscrowTokCancel::try_from(&[], &second, &rent);
    assert_eq!(again.err(), Some(custom(Ee::EscrowDataEmpty)));
}

#[test]
fn test_cancel_after_fill_attempt() {
    // Cancel after fill: with the asset-Y holding at or above the required
    // amount, cancel must fail and leave everything untouched.
    let h = run_make(1_000_000_000);
    let rent = Rent::default();
    let accounts = cancel_accounts(&h, 250_000);
    let mut c = EscrowTokCancel::try_from(&[], &accounts, &rent).unwrap();
    assert_eq!(c.process(), Err(custom(Ee::MakerToWithdrawTokenY)));
    // Atomicity: the failed cancel changed no balance and no record.
    assert_eq!(c.escrow_pda.data, h.escrow.data);
    assert_eq!(c.escrow_pda.lamports, h.escrow.lamports);
    assert_eq!(token_account_amount(&c.escrow_ata_x), Ok(500_000_000));
    assert_eq!(c.maker.lamports, h.maker_x.lamports);
}

#[test]
fn test_cancel_only_maker() {
    // Authority gating on cancel: a signer other than the recorded maker
    // fails with OnlyMaker.
    let h = run_make(1_000_000_000);
    let rent = Rent::default();
    let mut accounts = cancel_accounts(&h, 0);
    accounts[0] = signer_account(key(77), 1_000_000);
    let mut c = EscrowTokCancel::try_from(&[], &accounts, &rent).unwrap();
    assert_eq!(c.process(), Err(custom(Ee::OnlyMaker)));
    assert_eq!(c.escrow_pda.data, h.escrow.data);
}

#[test]
fn test_escrow_withdraw_claim() {
    // The fulfilled-path claim validates the record; a non-maker caller
    // fails with an authority error.
    let h = run_make(1_000_000_000);
    let rent = Rent::default();
    let maker_ata_y_key = ata_address(&h.maker_x.key, &h.mint_y.key);
    let escrow_ata_y_key = ata_address(&h.escrow.key, &h.mint_y.key);
    let mut accounts = vec![
        h.maker_x.clone(),
        h.user_x_ata.clone(),
        token_account(maker_ata_y_key, h.mint_y.key, h.maker_x.key, 0),
        h.escrow_ata.clone(),
        token_account(escrow_ata_y_key, h.mint_y.key, h.escrow.key, 250_000),
        h.mint_x.clone(),
        h.mint_y.clone(),
        h.escrow.clone(),
        config_account(key(9), 255),
        h.token_program.clone(),
        h.system_program.clone(),
        h.atoken_program.clone(),
    ];
    let data = 1u64.to_le_bytes();
    let mut w = EscrowTokWithdraw::try_from(&data, &accounts, &rent).unwrap();
    assert_eq!(w.process(), Ok(()));

    accounts[0] = signer_account(key(77), 1_000_000);
    accounts[2] = token_account(ata_address(&key(77), &h.mint_y.key), h.mint_y.key, key(77), 0);
    let mut other = EscrowTokWithdraw::try_from(&data, &accounts, &rent).unwrap();
    assert_eq!(other.process(), Err(ProgramError::IncorrectAuthority));

    // A record whose asset-Y amount is zero is rejected as a zero input.
    accounts[0] = h.maker_x.clone();
    accounts[2] = token_account(maker_ata_y_key, h.mint_y.key, h.maker_x.key, 0);
    let mut zeroed = Escrow::load(&h.escrow).unwrap();
    zeroed.amount_y = 0;
    let mut zero_escrow = h.escrow.clone();
    zero_escrow.data = zeroed.to_bytes();
    accounts[7] = zero_escrow;
    let mut z = EscrowTokWithdraw::try_from(&data, &accounts, &rent).unwrap();
    assert_eq!(z.process(), Err(custom(Ee::ZeroAsInput)));

    // A closed, empty escrow record is rejected while validating.
    let mut closed = h.escrow.clone();
    closed.data = vec![];
    accounts[7] = closed;
    let e = EscrowTokWithdraw::try_from(&data, &accounts, &rent);
    assert_eq!(e.err(), Some(custom(Ee::EscrowDataEmpty)));
}

fn init_config_accounts(owner_key: Pubkey) -> Vec<Account> {
    let (config_key, _) = derive_pda1(&owner_key, &CONFIG_SEED).unwrap();
    vec![
        signer_account(key(50), 1_000_000_000),
        fresh_account(config_key),
        fresh_account(owner_key),
        program_account(SYSTEM_PROGRAM_ID),
    ]
}

#[test]
fn test_init_config_and_close() {
    let rent = Rent::default();
    let owner_key = key(51);
    let accounts = init_config_accounts(owner_key);
    let data = 5u64.to_le_bytes();
    let mut h = InitConfig::try_from(&data, &accounts).unwrap();
    h.process(&rent).unwrap();
    assert_eq!(h.config_pda.owner, ID);
    assert_eq!(h.config_pda.lamports, 1_517_280);
    let record = Config::load(&h.config_pda).unwrap();
    assert_eq!(record.authority, owner_key);
    assert_eq!(record.fee, 5);
    assert_eq!(record.status, StatusEnum::Waiting);
    assert_eq!(h.authority.lamports, 1_000_000_000 - 1_517_280);

    // No double-init: running it again on the funded address fails.
    let again_accounts = vec![
        h.authority.clone(),
        h.config_pda.clone(),
        h.original_owner.clone(),
        h.system_program.clone(),
    ];
    let mut again = InitConfig::try_from(&data, &again_accounts).unwrap();
    assert_eq!(again.process(&rent), Err(ProgramError::AccountAlreadyInitialized));
    assert_eq!(again.config_pda.data, h.config_pda.data);

    // Authority gating on close: a wrong signer fails IncorrectAuthority
    // and the config account is untouched.
    let wrong = vec![
        signer_account(key(77), 1_000),
        h.config_pda.clone(),
        fresh_account(key(78)),
    ];
    let mut gated = CloseConfigPda::try_from(&[], &wrong).unwrap();
    assert_eq!(gated.process(), Err(ProgramError::IncorrectAuthority));
    assert_eq!(gated.config_pda.data, h.config_pda.data);
    assert_eq!(gated.config_pda.lamports, h.config_pda.lamports);
    assert_eq!(gated.dest.lamports, 0);

    // The recorded authority may close: tombstone, sweep, release.
    let close_accounts = vec![
        signer_account(owner_key, 1_000),
        h.config_pda.clone(),
        fresh_account(key(78)),
    ];
    let mut closed = CloseConfigPda::try_from(&[], &close_accounts).unwrap();
    closed.process().unwrap();
    assert_eq!(closed.config_pda.lamports, 0);
    assert_eq!(closed.config_pda.data, vec![255]);
    assert_eq!(closed.config_pda.owner, SYSTEM_PROGRAM_ID);
    assert_eq!(closed.dest.lamports, 1_517_280);
}

#[test]
fn test_config_resize() {
    let rent = Rent::default();
    let owner_key = key(52);
    let accounts = init_config_accounts(owner_key);
    let data = 5u64.to_le_bytes();
    let mut h = InitConfig::try_from(&data, &accounts).unwrap();
    h.process(&rent).unwrap();

    let resize_accounts = vec![
        signer_account(key(50), 1_000),
        h.config_pda.clone(),
        h.original_owner.clone(),
        h.system_program.clone(),
    ];
    let new_size = 120u64.to_le_bytes();
    let mut r = ConfigResize::try_from(&new_size, &resize_accounts).unwrap();
    r.process().unwrap();
    assert_eq!(r.config_pda.data.len(), 120);
    // The old record bytes survive as the prefix; growth is zero-filled.
    assert_eq!(&r.config_pda.data[..90], &h.config_pda.data[..]);
    assert!(r.config_pda.data[90..].iter().all(|b| *b == 0));

    // A zero size is rejected while validating.
    let zero = 0u64.to_le_bytes();
    let bad = ConfigResize::try_from(&zero, &resize_accounts);
    assert_eq!(bad.err(), Some(custom(Ee::ZeroAsInput)));
}

#[test]
fn test_vault_deposit_and_withdraw() {
    let rent = Rent::default();
    let owner_key = key(60);
    let (vault_key, _) = derive_pda1(&owner_key, &VAULT_SEED).unwrap();
    let accounts = vec![
        signer_account(owner_key, 1_000_000_000),
        fresh_account(vault_key),
        program_account(ID),
        program_account(SYSTEM_PROGRAM_ID),
    ];
    let data = 5_000_000u64.to_le_bytes();
    let mut d = Deposit::try_from(&data, &accounts).unwrap();
    d.process(&rent).unwrap();
    assert_eq!(d.vault.owner, ID);
    assert_eq!(d.vault.lamports, 1_002_240 + 5_000_000);
    assert_eq!(d.owner.lamports, 1_000_000_000 - 1_002_240 - 5_000_000);
    assert_eq!(d.vault.data.len(), 16);

    // A second deposit reuses the existing vault.
    let again_accounts = vec![d.owner.clone(), d.vault.clone(), d.program.clone(), d.system_program.clone()];
    let mut d2 = Deposit::try_from(&data, &again_accounts).unwrap();
    d2.process(&rent).unwrap();
    assert_eq!(d2.vault.lamports, 1_002_240 + 10_000_000);

    // Withdraw sweeps the whole vault balance back to the owner.
    let w_accounts = vec![d2.owner.clone(), d2.vault.clone(), d2.program.clone()];
    let mut w = Withdraw::try_from(&[], &w_accounts).unwrap();
    w.process().unwrap();
    assert_eq!(w.vault.lamports, 0);
    assert_eq!(w.owner.lamports, 1_000_000_000);
}

#[test]
fn test_vault_deposit_requires_signature() {
    // A non-signing owner fails with the signer kind and nothing is created.
    let rent = Rent::default();
    let owner_key = key(63);
    let (vault_key, _) = derive_pda1(&owner_key, &VAULT_SEED).unwrap();
    let accounts = vec![
        Account { lamports: 1_000_000_000, ..fresh_account(owner_key) },
        fresh_account(vault_key),
        program_account(ID),
        program_account(SYSTEM_PROGRAM_ID),
    ];
    let data = 1_000_000u64.to_le_bytes();
    let mut d = Deposit::try_from(&data, &accounts).unwrap();
    assert_eq!(d.process(&rent), Err(custom(Ee::NotSigner)));
    assert_eq!(d.vault.lamports, 0);
    assert!(d.vault.data.is_empty());
}

#[test]
fn test_vault_deposit_zero_rejected() {
    // Zero-amount rejection for the vault deposit.
    let accounts = vec![
        signer_account(key(60), 1_000_000_000),
        fresh_account(key(61)),
        program_account(ID),
        program_account(SYSTEM_PROGRAM_ID),
    ];
    let data = 0u64.to_le_bytes();
    let r = Deposit::try_from(&data, &accounts);
    assert_eq!(r.err(), Some(custom(Ee::ZeroAsInput)));
}

#[test]
fn test_deposit_atomicity_on_late_failure() {
    // All-or-nothing: a deposit whose transfer leg cannot be funded fails
    // without leaving a half-created vault behind.
    let rent = Rent::default();
    let owner_key = key(62);
    let (vault_key, _) = derive_pda1(&owner_key, &VAULT_SEED).unwrap();
    // Enough for the vault's rent, not for rent plus the amount.
    let accounts = vec![
        signer_account(owner_key, 1_500_000),
        fresh_account(vault_key),
        program_account(ID),
        program_account(SYSTEM_PROGRAM_ID),
    ];
    let data = 1_000_000u64.to_le_bytes();
    let mut d = Deposit::try_from(&data, &accounts).unwrap();
    assert_eq!(d.process(&rent), Err(ProgramError::InsufficientFunds));
    assert_eq!(d.owner.lamports, 1_500_000);
    assert_eq!(d.vault.lamports, 0);
    assert!(d.vault.data.is_empty());
}

#[test]
fn test_tok_lgc_deposit_and_withdraw() {
    let rent = Rent::default();
    let payer_key = key(70);
    let wallet_key = key(71);
    let mint = mint_account(key(72), 9);
    let from_key = ata_address(&payer_key, &mint.key);
    let to_key = ata_address(&wallet_key, &mint.key);
    let accounts = vec![
        signer_account(payer_key, 1_000_000_000),
        token_account(from_key, mint.key, payer_key, 800),
        fresh_account(to_key),
        fresh_account(wallet_key),
        mint.clone(),
        program_account(TOKEN_PROGRAM_ID),
        program_account(SYSTEM_PROGRAM_ID),
        fresh_account(SYSTEM_PROGRAM_ID),
    ];
    let mut data = vec![9u8];
    data.extend_from_slice(&300u64.to_le_bytes());
    let mut d = TokLgcDeposit::try_from(&data, &accounts).unwrap();
    d.process(&rent).unwrap();
    assert_eq!(token_account_amount(&d.from_ata), Ok(500));
    assert_eq!(token_account_amount(&d.to_ata), Ok(300));
    assert_eq!(d.to_ata.owner, TOKEN_PROGRAM_ID);

    // Withdraw from a vault-held token account back to a user.
    let user_key = key(73);
    let (vault_key, _) = derive_pda1(&user_key, &VAULT_SEED).unwrap();
    let vault_ata_key = ata_address(&vault_key, &mint.key);
    let user_ata_key = ata_address(&user_key, &mint.key);
    let w_accounts = vec![
        signer_account(user_key, 1_000_000_000),
        token_account(vault_ata_key, mint.key, vault_key, 900),
        fresh_account(user_ata_key),
        fresh_account(vault_key),
        mint.clone(),
        program_account(TOKEN_PROGRAM_ID),
        program_account(SYSTEM_PROGRAM_ID),
        fresh_account(SYSTEM_PROGRAM_ID),
    ];
    let mut w_data = vec![9u8];
    w_data.extend_from_slice(&400u64.to_le_bytes());
    let mut w = TokLgcWithdraw::try_from(&w_data, &w_accounts, &rent).unwrap();
    w.process(&rent).unwrap();
    assert_eq!(token_account_amount(&w.from_ata), Ok(500));
    assert_eq!(token_account_amount(&w.to_ata), Ok(400));

    // Zero-amount rejection for the token withdraw.
    let mut zero_data = vec![9u8];
    zero_data.extend_from_slice(&0u64.to_le_bytes());
    let z = TokLgcWithdraw::try_from(&zero_data, &w_accounts, &rent);
    assert_eq!(z.err(), Some(custom(Ee::ZeroAsInput)));

    // A vault account at anything but the user's derived vault address is
    // rejected with the vault-address code.
    let wrong_vault_key = key(74);
    let bad_accounts = vec![
        w_accounts[0].clone(),
        token_account(vault_ata_key, mint.key, wrong_vault_key, 900),
        w_accounts[2].clone(),
        fresh_account(wrong_vault_key),
        w_accounts[4].clone(),
        w_accounts[5].clone(),
        w_accounts[6].clone(),
        w_accounts[7].clone(),
    ];
    let b = TokLgcWithdraw::try_from(&w_data, &bad_accounts, &rent);
    assert_eq!(b.err(), Some(custom(Ee::VaultPDA)));
}

#[test]
fn test_token2022_handlers() {
    let rent = Rent::default();
    let owner = signer_account(key(80), 1_000);
    let h = Token2022::try_from(&[9], &vec![owner]).unwrap();
    assert_eq!(h.process(), Ok(()));
    let unsigned = Token2022::try_from(&[9], &vec![fresh_account(key(80))]).unwrap();
    assert_eq!(unsigned.process(), Err(custom(Ee::NotSigner)));
    assert_eq!(
        Token2022::try_from(&[19], &vec![signer_account(key(80), 0)]).err(),
        Some(ProgramError::InvalidInstructionData)
    );

    let mint = mint_account(key(81), 9);
    let accounts = vec![
        signer_account(key(82), 1_000_000_000),
        fresh_account(key(83)),
        mint,
        Account { is_signer: true, ..fresh_account(key(84)) },
        program_account(TOKEN_2022_PROGRAM_ID),
        fresh_account(SYSTEM_PROGRAM_ID),
    ];
    let mut t = Token2022InitTokAcct::try_from(&[1], &accounts).unwrap();
    t.process(&rent).unwrap();
    assert_eq!(t.token_account.lamports, 2_039_280);
    assert_eq!(t.token_account.data.len(), 165);
    assert_eq!(t.token_account.owner, TOKEN_2022_PROGRAM_ID);

    // init_if_needed leaves an already funded slot alone.
    let mut again = Token2022InitTokAcct {
        payer: t.payer.clone(),
        tok_acc_owner: t.tok_acc_owner.clone(),
        mint: t.mint.clone(),
        token_account: t.token_account.clone(),
        token_program: t.token_program.clone(),
    };
    assert_eq!(again.init_if_needed(&rent), Ok(()));
    assert_eq!(again.token_account.data, t.token_account.data);
}

#[test]
fn test_dispatch_routing() {
    let rent = Rent::default();
    let owner_key = key(90);
    let (vault_key, _) = derive_pda1(&owner_key, &VAULT_SEED).unwrap();
    let mut accounts = vec![
        signer_account(owner_key, 1_000_000_000),
        fresh_account(vault_key),
        program_account(ID),
        program_account(SYSTEM_PROGRAM_ID),
    ];
    let mut instruction = vec![0u8];
    instruction.extend_from_slice(&2_000_000u64.to_le_bytes());
    dispatch(&instruction, &mut accounts, &rent).unwrap();
    assert_eq!(accounts[1].lamports, 1_002_240 + 2_000_000);
    assert_eq!(accounts[0].lamports, 1_000_000_000 - 1_002_240 - 2_000_000);

    // An unassigned discriminator is rejected and changes nothing.
    let before: Vec<u64> = accounts.iter().map(|a| a.lamports).collect();
    assert_eq!(
        dispatch(&[99, 1, 2], &mut accounts, &rent).err(),
        Some(custom(Ee::InvalidDiscriminator))
    );
    assert_eq!(dispatch(&[], &mut accounts, &rent).err(), Some(custom(Ee::InvalidDiscriminator)));
    let after: Vec<u64> = accounts.iter().map(|a| a.lamports).collect();
    assert_eq!(before, after);
}
