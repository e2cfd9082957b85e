//! Unit tests for the error registry, the record codecs, the primitive
//! validators, and address derivation.

use pinocchio_vault::account::Account;
use pinocchio_vault::errors::{Ee, ProgramError};
use pinocchio_vault::pda::{check_ata_derivation, derive_pda1, seeds_owner, verify_pda};
use pinocchio_vault::rent::Rent;
use pinocchio_vault::state::{Config, Escrow, StatusEnum};
use pinocchio_vault::token::{
    mint_decimals, token_account_amount, token_account_mint, token_account_owner,
};
use pinocchio_vault::validate;
use pinocchio_vault::{
    key_eq, Pubkey, ATOKEN_PROGRAM_ID, CONFIG_SEED, ID, SYSTEM_PROGRAM_ID, TOKEN_2022_PROGRAM_ID,
    TOKEN_PROGRAM_ID, VAULT_SEED,
};

fn key(n: u8) -> Pubkey {
    [n; 32]
}

fn fresh_account(k: Pubkey) -> Account {
    Account {
        key: k,
        lamports: 0,
        data: vec![],
        owner: SYSTEM_PROGRAM_ID,
        is_signer: false,
        is_writable: false,
        executable: false,
    }
}

fn mint_account(k: Pubkey, decimals: u8, lamports: u64) -> Account {
    let mut data = vec![0u8; 82];
    data[44] = decimals;
    Account {
        key: k,
        lamports,
        data,
        owner: TOKEN_PROGRAM_ID,
        is_signer: false,
        is_writable: false,
        executable: false,
    }
}

fn token_account(k: Pubkey, mint: Pubkey, wallet: Pubkey, amount: u64) -> Account {
    let mut data = vec![0u8; 165];
    data[0..32].copy_from_slice(&mint);
    data[32..64].copy_from_slice(&wallet);
    data[64..72].copy_from_slice(&amount.to_le_bytes());
    data[108] = 1;
    Account {
        key: k,
        lamports: 2_039_280,
        data,
        owner: TOKEN_PROGRAM_ID,
        is_signer: false,
        is_writable: true,
        executable: false,
    }
}

fn custom(e: Ee) -> ProgramError {
    ProgramError::Custom(e.code())
}

#[test]
fn test_error_code_round_trip_all_codes() {
    for c in 0u32..=53 {
        let kind = Ee::try_from(c).expect("registry code must decode");
        assert_eq!(kind.code(), c);
    }
    assert_eq!(Ee::try_from(54), Err(ProgramError::Custom(54)));
    assert_eq!(Ee::try_from(1000), Err(ProgramError::Custom(54)));
}

#[test]
fn test_error_codes_and_names() {
    assert_eq!(Ee::InvalidDiscriminator.code(), 0);
    assert_eq!(Ee::NotSigner.code(), 1);
    assert_eq!(Ee::ZeroAsInput.code(), 4);
    assert_eq!(Ee::ForeignPDA.code(), 15);
    assert_eq!(Ee::ConfigPDA.code(), 35);
    assert_eq!(Ee::PdaAuthority.code(), 44);
    assert_eq!(Ee::OnlyOwner.code(), 53);
    assert_eq!(Ee::NotSigner.to_str(), "NotSigner");
    assert_eq!(Ee::ParseU64.to_str(), "ParseU64");
    assert_eq!(Ee::MakerToWithdrawTokenY.to_str(), "MakerToWithdrawTokenY");
    assert_eq!(Ee::ErrorValue.to_str(), "ErrorValue");
}

#[test]
fn test_status_mapping() {
    assert_eq!(validate::u8_to_status(0), Ok(StatusEnum::Waiting));
    assert_eq!(validate::u8_to_status(4), Ok(StatusEnum::Canceled));
    assert_eq!(validate::u8_to_status(5), Err(custom(Ee::InputU8InvalidForStatus)));
    assert_eq!(StatusEnum::from(3), StatusEnum::Paused);
    assert_eq!(StatusEnum::from(9), StatusEnum::Expired);
    assert_eq!(validate::u8_to_bool(0), Ok(false));
    assert_eq!(validate::u8_to_bool(1), Ok(true));
    assert_eq!(validate::u8_to_bool(2), Err(custom(Ee::InputU8InvalidForBool)));
}

#[test]
fn test_parse_functions() {
    assert_eq!(validate::parse_u64(&7u64.to_le_bytes()), Ok(7));
    assert_eq!(validate::parse_u64(&0u64.to_le_bytes()), Err(custom(Ee::ZeroAsInput)));
    assert_eq!(validate::parse_u64(&[1, 2, 3]), Err(custom(Ee::U64ByteSizeInvalid)));
    assert_eq!(validate::parse_u32(&9u32.to_le_bytes()), Ok(9));
    assert_eq!(validate::parse_u32(&0u32.to_le_bytes()), Err(custom(Ee::ZeroAsInput)));
    assert_eq!(validate::parse_u32(&[1, 2]), Err(custom(Ee::U32ByteSizeInvalid)));
    assert_eq!(validate::to32bytes(&[5; 32]), Ok([5; 32]));
    assert_eq!(validate::to32bytes(&[5; 31]), Err(custom(Ee::ByteSliceSize32)));
    assert_eq!(validate::to10bytes(&[6; 10]), Ok([6; 10]));
    assert_eq!(validate::to10bytes(&[6; 11]), Err(custom(Ee::ByteSliceSize10)));
    assert_eq!(validate::to6bytes(&[7; 6]), Ok([7; 6]));
    assert_eq!(validate::to6bytes(&[7; 5]), Err(custom(Ee::ByteSliceSize6)));
}

#[test]
fn test_length_validators() {
    assert_eq!(validate::min_data_len(&[1, 2], 3), Err(custom(Ee::InputDataUnderMin)));
    assert_eq!(validate::min_data_len(&[1, 2, 3], 3), Ok(()));
    assert_eq!(validate::max_data_len(&[1, 2, 3, 4], 3), Err(custom(Ee::InputDataOverMax)));
    assert_eq!(validate::max_data_len(&[1, 2, 3], 3), Ok(()));
    assert_eq!(validate::data_len(&[1, 2, 3], 3), Ok(()));
    assert_eq!(validate::none_zero_u64(0), Err(custom(Ee::ZeroAsInput)));
    assert_eq!(validate::none_zero_u64(1), Ok(()));
    assert_eq!(validate::check_decimals_max(10, 9), Err(custom(Ee::DecimalsValue)));
    assert_eq!(validate::check_decimals_max(9, 9), Ok(()));
    assert_eq!(validate::check_str_len("ab", 3, 20), Err(custom(Ee::StrOverMax)));
    assert_eq!(validate::check_str_len("abcdefghijklmnopqrstu", 3, 20), Err(custom(Ee::StrUnderMin)));
    assert_eq!(validate::check_str_len("abc", 3, 20), Ok(()));
}

#[test]
fn test_account_flag_validators() {
    let mut a = fresh_account(key(1));
    assert_eq!(validate::check_signer(&a), Err(custom(Ee::NotSigner)));
    a.is_signer = true;
    assert_eq!(validate::check_signer(&a), Ok(()));
    assert_eq!(validate::writable(&a), Err(custom(Ee::NotWritable)));
    a.is_writable = true;
    assert_eq!(validate::writable(&a), Ok(()));
    assert_eq!(validate::executable(&a), Err(custom(Ee::NotExecutable)));
    a.executable = true;
    assert_eq!(validate::executable(&a), Ok(()));
    assert_eq!(validate::empty_lamport(&a), Ok(()));
    a.lamports = 5;
    assert_eq!(validate::empty_lamport(&a), Err(ProgramError::AccountAlreadyInitialized));
    assert_eq!(validate::empty_data(&a), Ok(()));
    a.data = vec![1];
    assert_eq!(validate::empty_data(&a), Err(custom(Ee::EmptyData)));
}

#[test]
fn test_check_pda_and_programs() {
    let mut a = fresh_account(key(2));
    assert_eq!(validate::check_pda(&a), Err(custom(Ee::PdaNotInitialized)));
    a.lamports = 1;
    assert_eq!(validate::check_pda(&a), Err(custom(Ee::ForeignPDA)));
    a.owner = ID;
    assert_eq!(validate::check_pda(&a), Ok(()));

    let sys = Account { key: SYSTEM_PROGRAM_ID, ..fresh_account(key(0)) };
    assert_eq!(validate::check_sysprog(&sys), Ok(()));
    assert_eq!(validate::check_atoken_gpvbd(&sys), Ok(()));
    let not_sys = fresh_account(key(9));
    assert_eq!(validate::check_sysprog(&not_sys), Err(custom(Ee::SystemProgram)));
    assert_eq!(validate::check_atoken_gpvbd(&not_sys), Err(custom(Ee::AtokenGPvbd)));
}

#[test]
fn test_mint_validators() {
    let mint = mint_account(key(3), 9, 2_000_000);
    let tok_prog = Account { key: TOKEN_PROGRAM_ID, ..fresh_account(key(0)) };
    assert_eq!(validate::check_mint0a(&mint, &tok_prog), Ok(()));
    assert_eq!(mint_decimals(&mint), Ok(9));
    assert_eq!(validate::check_decimals(&mint, 9), Ok(()));
    assert_eq!(validate::check_decimals(&mint, 8), Err(custom(Ee::DecimalsValue)));

    let mut short = mint.clone();
    short.data = vec![0; 10];
    assert_eq!(validate::check_mint0a(&short, &tok_prog), Err(custom(Ee::MintDataLen)));
    let wrong_prog = fresh_account(key(9));
    assert_eq!(validate::check_mint0a(&mint, &wrong_prog), Err(custom(Ee::TokenProgram)));
    let mut foreign = mint.clone();
    foreign.owner = key(9);
    assert_eq!(validate::check_mint0a(&foreign, &tok_prog), Err(custom(Ee::MintOrTokenProgram)));

    // An extended-module mint is distinguished only by the owning module.
    let mut mint22 = mint.clone();
    mint22.owner = TOKEN_2022_PROGRAM_ID;
    let tok22_prog = Account { key: TOKEN_2022_PROGRAM_ID, ..fresh_account(key(0)) };
    assert_eq!(validate::check_mint22a(&mint22, &tok22_prog), Ok(()));
    assert_eq!(validate::check_mint22b(&mint22, &fresh_account(key(8)), &tok22_prog, 9), Ok(()));
    // A recorded mint authority must match the declared one.
    let mut with_auth = mint22.clone();
    with_auth.data[0] = 1;
    with_auth.data[4..36].copy_from_slice(&key(8));
    assert_eq!(
        validate::check_mint22b(&with_auth, &fresh_account(key(8)), &tok22_prog, 9),
        Ok(())
    );
    assert_eq!(
        validate::check_mint22b(&with_auth, &fresh_account(key(7)), &tok22_prog, 9),
        Err(custom(Ee::MintOrMintAuthority))
    );
    assert_eq!(
        validate::check_mint0b(&mint, &fresh_account(key(7)), &tok_prog, 8),
        Err(custom(Ee::DecimalsValue))
    );
}

#[test]
fn test_token_account_validators() {
    let wallet = fresh_account(key(4));
    let mint = mint_account(key(3), 9, 2_000_000);
    let ata = token_account(key(5), mint.key, wallet.key, 1234);
    assert_eq!(token_account_owner(&ata), Ok(wallet.key));
    assert_eq!(token_account_mint(&ata), Ok(mint.key));
    assert_eq!(token_account_amount(&ata), Ok(1234));
    assert_eq!(validate::check_ata(&ata, &wallet, &mint), Ok(()));
    assert_eq!(validate::check_ata22(&ata, &wallet, &mint), Ok(()));
    assert_eq!(validate::check_ata_escrow(&ata, &wallet, &mint), Ok(()));
    assert_eq!(validate::ata_balc(&ata, 1234), Ok(()));
    assert_eq!(validate::ata_balc(&ata, 1235), Err(custom(Ee::InsufficientFundNominal)));

    let other = fresh_account(key(6));
    assert_eq!(validate::check_ata(&ata, &other, &mint), Err(custom(Ee::AtaOrOwner)));
    let other_mint = mint_account(key(7), 9, 2_000_000);
    assert_eq!(validate::check_ata(&ata, &wallet, &other_mint), Err(custom(Ee::AtaOrMint)));
    let mut short = ata.clone();
    short.data = vec![0; 100];
    assert_eq!(validate::check_ata(&short, &wallet, &mint), Err(custom(Ee::TokAcctDataLen)));
}

#[test]
fn test_interface_validators() {
    let mint = mint_account(key(3), 9, 2_000_000);
    assert_eq!(validate::check_mint_interface(&mint), Ok(()));
    let mut foreign = mint.clone();
    foreign.owner = key(9);
    assert_eq!(validate::check_mint_interface(&foreign), Err(custom(Ee::MintOrTokenProgram)));
    let mut ext = mint.clone();
    ext.owner = TOKEN_2022_PROGRAM_ID;
    ext.data = vec![0; 200];
    ext.data[165] = 1;
    assert_eq!(validate::check_mint_interface(&ext), Ok(()));
    ext.data[165] = 3;
    assert_eq!(validate::check_mint_interface(&ext), Err(custom(Ee::Tok22AcctDiscOffset)));
    ext.data = vec![0; 100];
    assert_eq!(validate::check_mint_interface(&ext), Err(custom(Ee::Tok22AcctDataLen)));

    let ata = token_account(key(5), key(3), key(4), 0);
    assert_eq!(validate::check_tokacct_interface(&ata), Ok(()));
    let mut bad = ata.clone();
    bad.owner = key(9);
    assert_eq!(validate::check_tokacct_interface(&bad), Err(custom(Ee::AtaOwnerInvalid)));
    let mut ext_ata = ata.clone();
    ext_ata.owner = TOKEN_2022_PROGRAM_ID;
    ext_ata.data = vec![0; 200];
    ext_ata.data[165] = 2;
    assert_eq!(validate::check_tokacct_interface(&ext_ata), Ok(()));
}

#[test]
fn test_rent_minimums() {
    let rent = Rent::default();
    assert_eq!(rent.minimum_balance(0), Ok(890_880));
    assert_eq!(rent.minimum_balance(165), Ok(2_039_280));
    assert_eq!(rent.minimum_balance(82), Ok(1_461_600));
    let huge = Rent { lamports_per_byte_year: u64::MAX, exemption_threshold_years: 2 };
    assert_eq!(huge.minimum_balance(100), Err(custom(Ee::MathOverflow)));

    let mut mint = mint_account(key(3), 9, 1_461_600);
    assert_eq!(validate::rent_exempt(&mint, 0, &rent), Ok(()));
    mint.lamports = 1_461_599;
    assert_eq!(validate::rent_exempt(&mint, 0, &rent), Err(custom(Ee::NotRentExamptMint22)));
    let mut ata = token_account(key(5), key(3), key(4), 0);
    assert_eq!(validate::rent_exempt(&ata, 1, &rent), Ok(()));
    ata.lamports = 100;
    assert_eq!(validate::rent_exempt(&ata, 1, &rent), Err(custom(Ee::NotRentExamptTokAcct22)));
    assert_eq!(validate::rent_exempt(&ata, 2, &rent), Err(custom(Ee::AcctType)));
}

#[test]
fn test_config_codec_round_trip() {
    let config = Config {
        authority: key(11),
        str_u8array: key(12),
        fee: 777,
        sol_balance: 0,
        token_balance: 0,
        status: StatusEnum::Active,
        bump: 254,
    };
    let bytes = config.to_bytes();
    assert_eq!(bytes.len(), 90);
    let mut acct = fresh_account(key(13));
    acct.owner = ID;
    acct.data = bytes;
    let loaded = Config::load(&acct).unwrap();
    assert_eq!(loaded.fee(), 777);
    assert_eq!(loaded.sol_balance(), 0);
    assert_eq!(loaded.token_balance(), 0);
    assert_eq!(loaded.authority, key(11));
    assert_eq!(loaded.str_u8array, key(12));
    assert_eq!(loaded.fee, 777);
    assert_eq!(loaded.status, StatusEnum::Active);
    assert_eq!(loaded.bump, 254);
    // The re-serialized form is byte-identical.
    assert_eq!(loaded.to_bytes(), acct.data);

    let mut foreign = acct.clone();
    foreign.owner = key(9);
    assert_eq!(Config::load(&foreign).err(), Some(custom(Ee::ForeignPDA)));
    assert!(Config::load_unchecked(&foreign).is_ok());
    assert!(Config::read(&acct).is_ok());
    assert!(Config::check(&acct).is_ok());
    let mut short = acct.clone();
    short.data = vec![0; 10];
    assert_eq!(Config::load(&short).err(), Some(custom(Ee::ConfigDataLengh)));
    let mut bad_status = acct.clone();
    bad_status.data[88] = 9;
    assert_eq!(Config::load(&bad_status).err(), Some(custom(Ee::InputStatus)));
}

#[test]
fn test_escrow_codec_round_trip() {
    let escrow = Escrow {
        maker: key(21),
        mint_x: key(22),
        mint_y: key(23),
        amount_y: 250_000,
        decimal_x: 9,
        decimal_y: 6,
        id: 1,
        bump: 253,
    };
    let bytes = escrow.to_bytes();
    assert_eq!(bytes.len(), 115);
    let mut acct = fresh_account(key(24));
    acct.owner = ID;
    acct.data = bytes;
    let loaded = Escrow::load(&acct).unwrap();
    assert_eq!(loaded.maker, key(21));
    assert_eq!(loaded.mint_x, key(22));
    assert_eq!(loaded.mint_y, key(23));
    assert_eq!(loaded.amount_y, 250_000);
    assert_eq!(loaded.decimal_x, 9);
    assert_eq!(loaded.decimal_y, 6);
    assert_eq!(loaded.id, 1);
    assert_eq!(loaded.bump, 253);
    assert_eq!(loaded.to_bytes(), acct.data);

    let mut short = acct.clone();
    short.data = vec![0; 3];
    assert_eq!(Escrow::load(&short).err(), Some(custom(Ee::PdaDataLen)));
    assert!(Escrow::load_unchecked(&acct).is_ok());
}

#[test]
fn test_pda_derive_and_verify() {
    let owner = key(31);
    let (pda, bump) = derive_pda1(&owner, &VAULT_SEED).unwrap();
    // The derived address is not the owner's own key.
    assert!(!key_eq(&pda, &owner));
    // Verify form: the returned bump re-derives exactly the returned address.
    let seeds = seeds_owner(&VAULT_SEED, &owner);
    assert!(verify_pda(&seeds, bump, &pda));
    // A bump above the settled one derives nothing, so verification fails.
    if bump < 255 {
        assert!(!verify_pda(&seeds, bump + 1, &pda));
    }
    // A different expected address fails for the same bump.
    assert!(!verify_pda(&seeds, bump, &owner));
    // Determinism: deriving again gives the same pair.
    assert_eq!(derive_pda1(&owner, &VAULT_SEED).unwrap(), (pda, bump));
    // Different seed tags give a different address.
    let (pda2, _) = derive_pda1(&owner, &CONFIG_SEED).unwrap();
    assert!(!key_eq(&pda, &pda2));
}

#[test]
fn test_ata_derivation_matches_host_derivation() {
    let wallet = key(41);
    let mint = key(42);
    let expected = solana_pubkey::Pubkey::find_program_address(
        &[&wallet, &TOKEN_PROGRAM_ID, &mint],
        &solana_pubkey::Pubkey::new_from_array(ATOKEN_PROGRAM_ID),
    )
    .0
    .to_bytes();
    assert!(check_ata_derivation(&wallet, &TOKEN_PROGRAM_ID, &mint, &expected));
    // Any other address is refused.
    assert!(!check_ata_derivation(&wallet, &TOKEN_PROGRAM_ID, &mint, &wallet));
    let ok = validate::check_ata_x(
        &fresh_account(wallet),
        &Account { key: TOKEN_PROGRAM_ID, ..fresh_account(key(0)) },
        &fresh_account(mint),
        &fresh_account(expected),
    );
    assert_eq!(ok, Ok(()));
    let bad = validate::check_ata_x(
        &fresh_account(wallet),
        &Account { key: TOKEN_PROGRAM_ID, ..fresh_account(key(0)) },
        &fresh_account(mint),
        &fresh_account(key(43)),
    );
    assert_eq!(bad, Err(custom(Ee::AtaCheckFailed)));
}
