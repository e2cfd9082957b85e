//! The primitive validators: stateless predicates over a single account or
//! byte buffer, each returning success or one specific failure kind, with no
//! side effects. Handlers compose them in a strict order: identity and
//! authorization first, then structure, then semantics, then value movement.

use vstd::prelude::*;
use vstd::string::StringSliceAdditionalSpecFns;

use crate::account::Account;
use crate::errors::{err_of, Ee, ProgramError};
use crate::pda::ata_derived;
use crate::state::StatusEnum;
use crate::token::{
    mint_authority, mint_decimals, spec_mint_authority, spec_mint_decimals,
    spec_token_account_amount, spec_token_account_mint, spec_token_account_owner,
    token_account_amount, token_account_mint, token_account_owner, MINT_LEN, TOKEN_ACCOUNT_LEN,
};
use crate::{Pubkey, ID, SYSTEM_PROGRAM_ID, TOKEN_2022_PROGRAM_ID, TOKEN_PROGRAM_ID};

verus! {

broadcast use vstd::array::group_array_axioms;

/// The account the associated-account module check compares against; pinned
/// to the system program's id.
pub const ATOKENGPVBD: Pubkey = SYSTEM_PROGRAM_ID;

/// Offset of the account-type discriminator in an extended token record.
pub const TOKEN_2022_ACCOUNT_DISCRIMINATOR_OFFSET: usize = 165;

/// Discriminator value marking an extended record as a mint.
pub const TOKEN_2022_MINT_DISCRIMINATOR: u8 = 1;

/// Discriminator value marking an extended record as a token account.
pub const TOKEN_2022_TOKEN_ACCOUNT_DISCRIMINATOR: u8 = 2;

/// A transaction-level signature must prove control of the account.
pub fn check_signer(account: &Account) -> (r: Result<(), ProgramError>)
    ensures
        r == (if account.is_signer {
            Ok::<(), ProgramError>(())
        } else {
            Err::<(), ProgramError>(err_of(Ee::NotSigner))
        }),
{
    if !account.is_signer {
        return Ee::NotSigner.e();
    }
    Ok(())
}

/// The host must have marked the account mutable for this invocation.
pub fn writable(account: &Account) -> (r: Result<(), ProgramError>)
    ensures
        r == (if account.is_writable {
            Ok::<(), ProgramError>(())
        } else {
            Err::<(), ProgramError>(err_of(Ee::NotWritable))
        }),
{
    if !account.is_writable {
        return Ee::NotWritable.e();
    }
    Ok(())
}

/// The account must be a loaded program.
pub fn executable(account: &Account) -> (r: Result<(), ProgramError>)
    ensures
        r == (if account.executable {
            Ok::<(), ProgramError>(())
        } else {
            Err::<(), ProgramError>(err_of(Ee::NotExecutable))
        }),
{
    if !account.executable {
        return Ee::NotExecutable.e();
    }
    Ok(())
}

/// The account must not be funded yet.
pub fn empty_lamport(account: &Account) -> (r: Result<(), ProgramError>)
    ensures
        r == (if account.lamports == 0 {
            Ok::<(), ProgramError>(())
        } else {
            Err::<(), ProgramError>(ProgramError::AccountAlreadyInitialized)
        }),
{
    if account.lamports == 0 {
        return Ok(());
    }
    Err(ProgramError::AccountAlreadyInitialized)
}

/// The account must hold no data.
pub fn empty_data(account: &Account) -> (r: Result<(), ProgramError>)
    ensures
        r == (if account.data@.len() == 0 {
            Ok::<(), ProgramError>(())
        } else {
            Err::<(), ProgramError>(err_of(Ee::EmptyData))
        }),
{
    if account.data_is_empty() {
        return Ok(());
    }
    Ee::EmptyData.e()
}

/// The payload must be at least `min` bytes.
pub fn min_data_len(data: &[u8], min: usize) -> (r: Result<(), ProgramError>)
    ensures
        r == (if data@.len() < min {
            Err::<(), ProgramError>(err_of(Ee::InputDataUnderMin))
        } else {
            Ok::<(), ProgramError>(())
        }),
{
    if data.len() < min {
        return Ee::InputDataUnderMin.e();
    }
    Ok(())
}

/// The payload must be at most `max` bytes.
pub fn max_data_len(data: &[u8], max: usize) -> (r: Result<(), ProgramError>)
    ensures
        r == (if data@.len() > max {
            Err::<(), ProgramError>(err_of(Ee::InputDataOverMax))
        } else {
            Ok::<(), ProgramError>(())
        }),
{
    if data.len() > max {
        return Ee::InputDataOverMax.e();
    }
    Ok(())
}

/// The payload must be exactly `n` bytes.
pub fn data_len(data: &[u8], n: usize) -> (r: Result<(), ProgramError>)
    ensures
        r == (if data@.len() < n {
            Err::<(), ProgramError>(err_of(Ee::InputDataUnderMin))
        } else if data@.len() > n {
            Err::<(), ProgramError>(err_of(Ee::InputDataOverMax))
        } else {
            Ok::<(), ProgramError>(())
        }),
{
    min_data_len(data, n)?;
    max_data_len(data, n)?;
    Ok(())
}

/// An amount that moves value must not be zero.
pub fn none_zero_u64(v: u64) -> (r: Result<(), ProgramError>)
    ensures
        r == (if v == 0 {
            Err::<(), ProgramError>(err_of(Ee::ZeroAsInput))
        } else {
            Ok::<(), ProgramError>(())
        }),
{
    if v == 0 {
        return Ee::ZeroAsInput.e();
    }
    Ok(())
}

/// Declared decimals must not exceed `max`.
pub fn check_decimals_max(decimals: u8, max: u8) -> (r: Result<(), ProgramError>)
    ensures
        r == (if decimals > max {
            Err::<(), ProgramError>(err_of(Ee::DecimalsValue))
        } else {
            Ok::<(), ProgramError>(())
        }),
{
    if decimals > max {
        return Ee::DecimalsValue.e();
    }
    Ok(())
}

/// A string's byte length must lie within `[min_len, max_len]`.
pub fn check_str_len(s: &str, min_len: usize, max_len: usize) -> (r: Result<(), ProgramError>)
    ensures
        r == (if s.spec_bytes().len() < min_len {
            Err::<(), ProgramError>(err_of(Ee::StrOverMax))
        } else if s.spec_bytes().len() > max_len {
            Err::<(), ProgramError>(err_of(Ee::StrUnderMin))
        } else {
            Ok::<(), ProgramError>(())
        }),
{
    let n = s.as_bytes().len();
    if n < min_len {
        return Ee::StrOverMax.e();
    }
    if n > max_len {
        return Ee::StrUnderMin.e();
    }
    Ok(())
}

/// Parse a non-zero little-endian `u64` out of an exactly 8-byte buffer.
pub fn parse_u64(data: &[u8]) -> (r: Result<u64, ProgramError>)
    ensures
        data@.len() != 8 ==> r == Err::<u64, ProgramError>(err_of(Ee::U64ByteSizeInvalid)),
        data@.len() == 8 && vstd::bytes::spec_u64_from_le_bytes(data@) == 0 ==> r == Err::<
            u64,
            ProgramError,
        >(err_of(Ee::ZeroAsInput)),
        data@.len() == 8 && vstd::bytes::spec_u64_from_le_bytes(data@) != 0 ==> r == Ok::<
            u64,
            ProgramError,
        >(vstd::bytes::spec_u64_from_le_bytes(data@)),
{
    if data.len() != 8 {
        return Ee::U64ByteSizeInvalid.e();
    }
    let amt = vstd::bytes::u64_from_le_bytes(data);
    if amt == 0 {
        return Ee::ZeroAsInput.e();
    }
    Ok(amt)
}

/// Parse a non-zero little-endian `u32` out of an exactly 4-byte buffer.
pub fn parse_u32(data: &[u8]) -> (r: Result<u32, ProgramError>)
    ensures
        data@.len() != 4 ==> r == Err::<u32, ProgramError>(err_of(Ee::U32ByteSizeInvalid)),
        data@.len() == 4 && vstd::bytes::spec_u32_from_le_bytes(data@) == 0 ==> r == Err::<
            u32,
            ProgramError,
        >(err_of(Ee::ZeroAsInput)),
        data@.len() == 4 && vstd::bytes::spec_u32_from_le_bytes(data@) != 0 ==> r == Ok::<
            u32,
            ProgramError,
        >(vstd::bytes::spec_u32_from_le_bytes(data@)),
{
    if data.len() != 4 {
        return Ee::U32ByteSizeInvalid.e();
    }
    let amt = vstd::bytes::u32_from_le_bytes(data);
    if amt == 0 {
        return Ee::ZeroAsInput.e();
    }
    Ok(amt)
}

/// Copy an exactly 32-byte slice into an owned 32-byte array.
pub fn to32bytes(byte_slice: &[u8]) -> (r: Result<[u8; 32], ProgramError>)
    ensures
        byte_slice@.len() != 32 ==> r == Err::<[u8; 32], ProgramError>(
            err_of(Ee::ByteSliceSize32),
        ),
        byte_slice@.len() == 32 ==> r is Ok && r.unwrap()@ == byte_slice@,
{
    if byte_slice.len() != 32 {
        return Ee::ByteSliceSize32.e();
    }
    let out = crate::codec::read32(byte_slice, 0);
    proof {
        assert(out@ =~= byte_slice@);
    }
    Ok(out)
}

/// Copy an exactly 10-byte slice into an owned 10-byte array.
pub fn to10bytes(byte_slice: &[u8]) -> (r: Result<[u8; 10], ProgramError>)
    ensures
        byte_slice@.len() != 10 ==> r == Err::<[u8; 10], ProgramError>(
            err_of(Ee::ByteSliceSize10),
        ),
        byte_slice@.len() == 10 ==> r is Ok && r.unwrap()@ == byte_slice@,
{
    if byte_slice.len() != 10 {
        return Ee::ByteSliceSize10.e();
    }
    let mut out: [u8; 10] = [0; 10];
    let mut i: usize = 0;
    while i < 10
        invariant
            i <= 10,
            byte_slice@.len() == 10,
            forall|j: int| 0 <= j < i ==> out@[j] == byte_slice@[j],
        decreases 10 - i,
    {
        out[i] = byte_slice[i];
        i += 1;
    }
    proof {
        assert(out@ =~= byte_slice@);
    }
    Ok(out)
}

/// Copy an exactly 6-byte slice into an owned 6-byte array.
pub fn to6bytes(byte_slice: &[u8]) -> (r: Result<[u8; 6], ProgramError>)
    ensures
        byte_slice@.len() != 6 ==> r == Err::<[u8; 6], ProgramError>(err_of(Ee::ByteSliceSize6)),
        byte_slice@.len() == 6 ==> r is Ok && r.unwrap()@ == byte_slice@,
{
    if byte_slice.len() != 6 {
        return Ee::ByteSliceSize6.e();
    }
    let mut out: [u8; 6] = [0; 6];
    let mut i: usize = 0;
    while i < 6
        invariant
            i <= 6,
            byte_slice@.len() == 6,
            forall|j: int| 0 <= j < i ==> out@[j] == byte_slice@[j],
        decreases 6 - i,
    {
        out[i] = byte_slice[i];
        i += 1;
    }
    proof {
        assert(out@ =~= byte_slice@);
    }
    Ok(out)
}

/// Interpret a byte as a boolean: 0 or 1 only.
pub fn u8_to_bool(v: u8) -> (r: Result<bool, ProgramError>)
    ensures
        r == (if v == 0 {
            Ok::<bool, ProgramError>(false)
        } else if v == 1 {
            Ok::<bool, ProgramError>(true)
        } else {
            Err::<bool, ProgramError>(err_of(Ee::InputU8InvalidForBool))
        }),
{
    match v {
        0 => Ok(false),
        1 => Ok(true),
        _ => Ee::InputU8InvalidForBool.e(),
    }
}

/// Interpret a byte as a lifecycle status: the registry bytes only.
pub fn u8_to_status(v: u8) -> (r: Result<StatusEnum, ProgramError>)
    ensures
        r == (if v == 0 {
            Ok::<StatusEnum, ProgramError>(StatusEnum::Waiting)
        } else if v == 1 {
            Ok::<StatusEnum, ProgramError>(StatusEnum::Active)
        } else if v == 2 {
            Ok::<StatusEnum, ProgramError>(StatusEnum::Expired)
        } else if v == 3 {
            Ok::<StatusEnum, ProgramError>(StatusEnum::Paused)
        } else if v == 4 {
            Ok::<StatusEnum, ProgramError>(StatusEnum::Canceled)
        } else {
            Err::<StatusEnum, ProgramError>(err_of(Ee::InputU8InvalidForStatus))
        }),
{
    match v {
        0 => Ok(StatusEnum::Waiting),
        1 => Ok(StatusEnum::Active),
        2 => Ok(StatusEnum::Expired),
        3 => Ok(StatusEnum::Paused),
        4 => Ok(StatusEnum::Canceled),
        _ => Ee::InputU8InvalidForStatus.e(),
    }
}

/// A persistent account of this program must be funded and program-owned.
pub fn check_pda(account: &Account) -> (r: Result<(), ProgramError>)
    ensures
        r == (if account.lamports == 0 {
            Err::<(), ProgramError>(err_of(Ee::PdaNotInitialized))
        } else if account.owner@ != ID@ {
            Err::<(), ProgramError>(err_of(Ee::ForeignPDA))
        } else {
            Ok::<(), ProgramError>(())
        }),
{
    if account.lamports == 0 {
        return Ee::PdaNotInitialized.e();
    }
    if !account.is_owned_by(&ID) {
        return Ee::ForeignPDA.e();
    }
    Ok(())
}

/// The declared system-program account must be the system program.
pub fn check_sysprog(system_program: &Account) -> (r: Result<(), ProgramError>)
    ensures
        r == (if system_program.key@ != SYSTEM_PROGRAM_ID@ {
            Err::<(), ProgramError>(err_of(Ee::SystemProgram))
        } else {
            Ok::<(), ProgramError>(())
        }),
{
    if !crate::key_eq(&system_program.key, &SYSTEM_PROGRAM_ID) {
        return Ee::SystemProgram.e();
    }
    Ok(())
}

/// The declared associated-account module must match the pinned id.
pub fn check_atoken_gpvbd(atoken_program: &Account) -> (r: Result<(), ProgramError>)
    ensures
        r == (if atoken_program.key@ != ATOKENGPVBD@ {
            Err::<(), ProgramError>(err_of(Ee::AtokenGPvbd))
        } else {
            Ok::<(), ProgramError>(())
        }),
{
    if !crate::key_eq(&atoken_program.key, &ATOKENGPVBD) {
        return Ee::AtokenGPvbd.e();
    }
    Ok(())
}

/// A legacy mint account: exact record size, declared token module is the
/// legacy module, and the mint is owned by it.
pub fn check_mint0a(mint: &Account, token_program: &Account) -> (r: Result<(), ProgramError>)
    ensures
        r == (if mint.data@.len() != 82 {
            Err::<(), ProgramError>(err_of(Ee::MintDataLen))
        } else if token_program.key@ != TOKEN_PROGRAM_ID@ {
            Err::<(), ProgramError>(err_of(Ee::TokenProgram))
        } else if mint.owner@ != TOKEN_PROGRAM_ID@ {
            Err::<(), ProgramError>(err_of(Ee::MintOrTokenProgram))
        } else {
            Ok::<(), ProgramError>(())
        }),
{
    if mint.data_len() != MINT_LEN {
        return Ee::MintDataLen.e();
    }
    if !crate::key_eq(&token_program.key, &TOKEN_PROGRAM_ID) {
        return Ee::TokenProgram.e();
    }
    if !mint.is_owned_by(&TOKEN_PROGRAM_ID) {
        return Ee::MintOrTokenProgram.e();
    }
    Ok(())
}

/// A legacy mint account, plus its recorded mint authority and decimals.
pub fn check_mint0b(
    mint: &Account,
    mint_auth: &Account,
    token_program: &Account,
    decimals: u8,
) -> (r: Result<(), ProgramError>)
    ensures
        r == (if mint.data@.len() != 82 {
            Err::<(), ProgramError>(err_of(Ee::MintDataLen))
        } else if spec_mint_authority(mint.data@) is Some && spec_mint_authority(
            mint.data@,
        ).unwrap() != mint_auth.key@ {
            Err::<(), ProgramError>(err_of(Ee::MintOrMintAuthority))
        } else if decimals != spec_mint_decimals(mint.data@) {
            Err::<(), ProgramError>(err_of(Ee::DecimalsValue))
        } else if token_program.key@ != TOKEN_PROGRAM_ID@ {
            Err::<(), ProgramError>(err_of(Ee::TokenProgram))
        } else if mint.owner@ != TOKEN_PROGRAM_ID@ {
            Err::<(), ProgramError>(err_of(Ee::MintOrTokenProgram))
        } else {
            Ok::<(), ProgramError>(())
        }),
{
    let auth = mint_authority(mint)?;
    if let Some(a) = auth {
        if !crate::key_eq(&a, &mint_auth.key) {
            return Ee::MintOrMintAuthority.e();
        }
    }
    let d = mint_decimals(mint)?;
    if decimals != d {
        return Ee::DecimalsValue.e();
    }
    check_mint0a(mint, token_program)?;
    Ok(())
}

/// An extended-module mint account: base record size, declared token module
/// is the extended module, and the mint is owned by it.
pub fn check_mint22a(mint: &Account, token_program: &Account) -> (r: Result<(), ProgramError>)
    ensures
        r == (if mint.data@.len() != 82 {
            Err::<(), ProgramError>(err_of(Ee::MintDataLen))
        } else if token_program.key@ != TOKEN_2022_PROGRAM_ID@ {
            Err::<(), ProgramError>(err_of(Ee::TokenProgram))
        } else if mint.owner@ != TOKEN_2022_PROGRAM_ID@ {
            Err::<(), ProgramError>(err_of(Ee::MintOrTokenProgram))
        } else {
            Ok::<(), ProgramError>(())
        }),
{
    if mint.data_len() != MINT_LEN {
        return Ee::MintDataLen.e();
    }
    if !crate::key_eq(&token_program.key, &TOKEN_2022_PROGRAM_ID) {
        return Ee::TokenProgram.e();
    }
    if !mint.is_owned_by(&TOKEN_2022_PROGRAM_ID) {
        return Ee::MintOrTokenProgram.e();
    }
    Ok(())
}

/// An extended-module mint account, plus its recorded mint authority and
/// decimals.
pub fn check_mint22b(
    mint: &Account,
    mint_auth: &Account,
    token_program: &Account,
    decimals: u8,
) -> (r: Result<(), ProgramError>)
    ensures
        r == (if mint.data@.len() != 82 {
            Err::<(), ProgramError>(err_of(Ee::MintDataLen))
        } else if spec_mint_authority(mint.data@) is Some && spec_mint_authority(
            mint.data@,
        ).unwrap() != mint_auth.key@ {
            Err::<(), ProgramError>(err_of(Ee::MintOrMintAuthority))
        } else if decimals != spec_mint_decimals(mint.data@) {
            Err::<(), ProgramError>(err_of(Ee::DecimalsValue))
        } else if token_program.key@ != TOKEN_2022_PROGRAM_ID@ {
            Err::<(), ProgramError>(err_of(Ee::TokenProgram))
        } else if mint.owner@ != TOKEN_2022_PROGRAM_ID@ {
            Err::<(), ProgramError>(err_of(Ee::MintOrTokenProgram))
        } else {
            Ok::<(), ProgramError>(())
        }),
{
    let auth = mint_authority(mint)?;
    if let Some(a) = auth {
        if !crate::key_eq(&a, &mint_auth.key) {
            return Ee::MintOrMintAuthority.e();
        }
    }
    let d = mint_decimals(mint)?;
    if decimals != d {
        return Ee::DecimalsValue.e();
    }
    check_mint22a(mint, token_program)?;
    Ok(())
}

/// The mint's recorded decimals must equal the declared decimals.
pub fn check_decimals(mint: &Account, decimals: u8) -> (r: Result<(), ProgramError>)
    ensures
        r == (if mint.data@.len() != 82 {
            Err::<(), ProgramError>(err_of(Ee::MintDataLen))
        } else if decimals != spec_mint_decimals(mint.data@) {
            Err::<(), ProgramError>(err_of(Ee::DecimalsValue))
        } else {
            Ok::<(), ProgramError>(())
        }),
{
    let d = mint_decimals(mint)?;
    if decimals != d {
        return Ee::DecimalsValue.e();
    }
    Ok(())
}

/// A legacy token account holding for `owner` in asset `mint`: exact record
/// size, recorded wallet is `owner`, recorded mint is `mint`.
pub fn check_ata(ata: &Account, owner: &Account, mint: &Account) -> (r: Result<(), ProgramError>)
    ensures
        r == (if ata.data@.len() != 165 {
            Err::<(), ProgramError>(err_of(Ee::TokAcctDataLen))
        } else if spec_token_account_owner(ata.data@) != owner.key@ {
            Err::<(), ProgramError>(err_of(Ee::AtaOrOwner))
        } else if spec_token_account_mint(ata.data@) != mint.key@ {
            Err::<(), ProgramError>(err_of(Ee::AtaOrMint))
        } else {
            Ok::<(), ProgramError>(())
        }),
{
    if ata.data_len() != TOKEN_ACCOUNT_LEN {
        return Ee::TokAcctDataLen.e();
    }
    let rec_owner = token_account_owner(ata)?;
    if !crate::key_eq(&rec_owner, &owner.key) {
        return Ee::AtaOrOwner.e();
    }
    let rec_mint = token_account_mint(ata)?;
    if !crate::key_eq(&rec_mint, &mint.key) {
        return Ee::AtaOrMint.e();
    }
    Ok(())
}

/// An extended token account holding for `owner` in asset `mint`: at least
/// the base record size, recorded wallet is `owner`, recorded mint is
/// `mint`.
pub fn check_ata22(ata: &Account, owner: &Account, mint: &Account) -> (r: Result<(), ProgramError>)
    ensures
        r == (if ata.data@.len() < 165 {
            Err::<(), ProgramError>(err_of(Ee::TokAcctDataLen))
        } else if spec_token_account_owner(ata.data@) != owner.key@ {
            Err::<(), ProgramError>(err_of(Ee::AtaOrOwner))
        } else if spec_token_account_mint(ata.data@) != mint.key@ {
            Err::<(), ProgramError>(err_of(Ee::AtaOrMint))
        } else {
            Ok::<(), ProgramError>(())
        }),
{
    let rec_owner = token_account_owner(ata)?;
    if !crate::key_eq(&rec_owner, &owner.key) {
        return Ee::AtaOrOwner.e();
    }
    let rec_mint = token_account_mint(ata)?;
    if !crate::key_eq(&rec_mint, &mint.key) {
        return Ee::AtaOrMint.e();
    }
    Ok(())
}

/// A token account recorded as held by the escrow address in asset `mint`.
pub fn check_ata_escrow(ata: &Account, escrow: &Account, mint: &Account) -> (r: Result<
    (),
    ProgramError,
>)
    ensures
        r == (if ata.data@.len() != 165 {
            Err::<(), ProgramError>(err_of(Ee::TokAcctDataLen))
        } else if spec_token_account_owner(ata.data@) != escrow.key@ {
            Err::<(), ProgramError>(err_of(Ee::AtaOrOwner))
        } else if spec_token_account_mint(ata.data@) != mint.key@ {
            Err::<(), ProgramError>(err_of(Ee::AtaOrMint))
        } else {
            Ok::<(), ProgramError>(())
        }),
{
    check_ata(ata, escrow, mint)
}

/// The token account must hold at least `amount`.
pub fn ata_balc(ata: &Account, amount: u64) -> (r: Result<(), ProgramError>)
    ensures
        r == (if ata.data@.len() < 165 {
            Err::<(), ProgramError>(err_of(Ee::TokAcctDataLen))
        } else if spec_token_account_amount(ata.data@) < amount {
            Err::<(), ProgramError>(err_of(Ee::InsufficientFundNominal))
        } else {
            Ok::<(), ProgramError>(())
        }),
{
    let balance = token_account_amount(ata)?;
    if balance < amount {
        return Ee::InsufficientFundNominal.e();
    }
    Ok(())
}

/// `ata` must sit at the canonical associated-account address derived from
/// `(authority, token module, mint)`.
pub fn check_ata_x(
    authority: &Account,
    token_program: &Account,
    mint: &Account,
    ata: &Account,
) -> (r: Result<(), ProgramError>)
    ensures
        r == (if ata_derived(authority.key@, token_program.key@, mint.key@, ata.key@) {
            Ok::<(), ProgramError>(())
        } else {
            Err::<(), ProgramError>(err_of(Ee::AtaCheckFailed))
        }),
{
    if !crate::pda::check_ata_derivation(&authority.key, &token_program.key, &mint.key, &ata.key) {
        return Ee::AtaCheckFailed.e();
    }
    Ok(())
}

/// The account must hold the rent-exempt minimum for its record type:
/// 0 for a mint record, 1 for a token account record.
pub fn rent_exempt(account: &Account, acc_type: u8, rent: &crate::rent::Rent) -> (r: Result<
    (),
    ProgramError,
>)
    ensures
        acc_type > 1 ==> r == Err::<(), ProgramError>(err_of(Ee::AcctType)),
        acc_type == 0 ==> r == (if !crate::rent::rent_fits(*rent, 82) {
            Err::<(), ProgramError>(err_of(Ee::MathOverflow))
        } else if account.lamports < crate::rent::spec_minimum_balance(*rent, 82) {
            Err::<(), ProgramError>(err_of(Ee::NotRentExamptMint22))
        } else {
            Ok::<(), ProgramError>(())
        }),
        acc_type == 1 ==> r == (if !crate::rent::rent_fits(*rent, 165) {
            Err::<(), ProgramError>(err_of(Ee::MathOverflow))
        } else if account.lamports < crate::rent::spec_minimum_balance(*rent, 165) {
            Err::<(), ProgramError>(err_of(Ee::NotRentExamptTokAcct22))
        } else {
            Ok::<(), ProgramError>(())
        }),
{
    if acc_type == 0 {
        let min = rent.minimum_balance(MINT_LEN)?;
        if account.lamports < min {
            return Ee::NotRentExamptMint22.e();
        }
        return Ok(());
    }
    if acc_type == 1 {
        let min = rent.minimum_balance(TOKEN_ACCOUNT_LEN)?;
        if account.lamports < min {
            return Ee::NotRentExamptTokAcct22.e();
        }
        return Ok(());
    }
    Ee::AcctType.e()
}

/// The mint account must hold the rent-exempt minimum for a mint record.
pub fn rent_exempt_mint(account: &Account, rent: &crate::rent::Rent) -> (r: Result<
    (),
    ProgramError,
>)
    ensures
        r == (if !crate::rent::rent_fits(*rent, 82) {
            Err::<(), ProgramError>(err_of(Ee::MathOverflow))
        } else if account.lamports < crate::rent::spec_minimum_balance(*rent, 82) {
            Err::<(), ProgramError>(err_of(Ee::NotRentExamptMint22))
        } else {
            Ok::<(), ProgramError>(())
        }),
{
    rent_exempt(account, 0, rent)
}

/// The token account must hold the rent-exempt minimum for its record.
pub fn rent_exempt_tokacct(account: &Account, rent: &crate::rent::Rent) -> (r: Result<
    (),
    ProgramError,
>)
    ensures
        r == (if !crate::rent::rent_fits(*rent, 165) {
            Err::<(), ProgramError>(err_of(Ee::MathOverflow))
        } else if account.lamports < crate::rent::spec_minimum_balance(*rent, 165) {
            Err::<(), ProgramError>(err_of(Ee::NotRentExamptTokAcct22))
        } else {
            Ok::<(), ProgramError>(())
        }),
{
    rent_exempt(account, 1, rent)
}

/// A mint under either token module: the legacy module wants the exact base
/// record, the extended module wants either the base record or an extended
/// record whose discriminator byte marks a mint.
pub fn check_mint_interface(mint: &Account) -> (r: Result<(), ProgramError>)
    ensures
        r == (if mint.owner@ != TOKEN_2022_PROGRAM_ID@ {
            if mint.owner@ != TOKEN_PROGRAM_ID@ {
                Err::<(), ProgramError>(err_of(Ee::MintOrTokenProgram))
            } else if mint.data@.len() != 82 {
                Err::<(), ProgramError>(err_of(Ee::MintDataLen))
            } else {
                Ok::<(), ProgramError>(())
            }
        } else if mint.data@.len() != 82 {
            if mint.data@.len() <= 165 {
                Err::<(), ProgramError>(err_of(Ee::Tok22AcctDataLen))
            } else if mint.data@[165] != 1 {
                Err::<(), ProgramError>(err_of(Ee::Tok22AcctDiscOffset))
            } else {
                Ok::<(), ProgramError>(())
            }
        } else {
            Ok::<(), ProgramError>(())
        }),
{
    if !mint.is_owned_by(&TOKEN_2022_PROGRAM_ID) {
        if !mint.is_owned_by(&TOKEN_PROGRAM_ID) {
            return Ee::MintOrTokenProgram.e();
        }
        if mint.data_len() != MINT_LEN {
            return Ee::MintDataLen.e();
        }
        return Ok(());
    }
    if mint.data_len() != MINT_LEN {
        if mint.data_len() <= TOKEN_2022_ACCOUNT_DISCRIMINATOR_OFFSET {
            return Ee::Tok22AcctDataLen.e();
        }
        if mint.data.as_slice()[TOKEN_2022_ACCOUNT_DISCRIMINATOR_OFFSET]
            != TOKEN_2022_MINT_DISCRIMINATOR {
            return Ee::Tok22AcctDiscOffset.e();
        }
    }
    Ok(())
}

/// A token account under either token module: the legacy module wants the
/// exact base record, the extended module wants either the base record or an
/// extended record whose discriminator byte marks a token account.
pub fn check_tokacct_interface(ata: &Account) -> (r: Result<(), ProgramError>)
    ensures
        r == (if ata.owner@ != TOKEN_2022_PROGRAM_ID@ {
            if ata.owner@ != TOKEN_PROGRAM_ID@ {
                Err::<(), ProgramError>(err_of(Ee::AtaOwnerInvalid))
            } else if ata.data@.len() != 165 {
                Err::<(), ProgramError>(err_of(Ee::TokAcctDataLen))
            } else {
                Ok::<(), ProgramError>(())
            }
        } else if ata.data@.len() != 165 {
            if ata.data@.len() <= 165 {
                Err::<(), ProgramError>(err_of(Ee::Tok22AcctDataLen))
            } else if ata.data@[165] != 2 {
                Err::<(), ProgramError>(err_of(Ee::Tok22AcctDiscOffset))
            } else {
                Ok::<(), ProgramError>(())
            }
        } else {
            Ok::<(), ProgramError>(())
        }),
{
    if !ata.is_owned_by(&TOKEN_2022_PROGRAM_ID) {
        if !ata.is_owned_by(&TOKEN_PROGRAM_ID) {
            return Ee::AtaOwnerInvalid.e();
        }
        if ata.data_len() != TOKEN_ACCOUNT_LEN {
            return Ee::TokAcctDataLen.e();
        }
        return Ok(());
    }
    if ata.data_len() != TOKEN_ACCOUNT_LEN {
        if ata.data_len() <= TOKEN_2022_ACCOUNT_DISCRIMINATOR_OFFSET {
            return Ee::Tok22AcctDataLen.e();
        }
        if ata.data.as_slice()[TOKEN_2022_ACCOUNT_DISCRIMINATOR_OFFSET]
            != TOKEN_2022_TOKEN_ACCOUNT_DISCRIMINATOR {
            return Ee::Tok22AcctDiscOffset.e();
        }
    }
    Ok(())
}

} // verus!
