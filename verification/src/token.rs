//! Fixed-offset readers for the token-transfer module's account layouts: the
//! mint record and the token-holding ("associated") account record. Only the
//! fields this program's validation logic reads are modelled.

use vstd::prelude::*;

use crate::account::Account;
use crate::errors::{err_of, Ee, ProgramError};
use crate::Pubkey;

verus! {

broadcast use vstd::array::group_array_axioms;

/// Byte size of a mint record (base form, shared by both token modules).
pub const MINT_LEN: usize = 82;

/// Byte size of a token-holding account record (base form).
pub const TOKEN_ACCOUNT_LEN: usize = 165;

/// The mint record's decimals field.
pub open spec fn spec_mint_decimals(data: Seq<u8>) -> u8 {
    data[44]
}

/// The mint record's optional mint authority: a one-byte presence tag
/// followed by the authority address.
pub open spec fn spec_mint_authority(data: Seq<u8>) -> Option<Seq<u8>> {
    if data[0] == 1 {
        Some(data.subrange(4, 36))
    } else {
        None
    }
}

/// The token account record's mint address field.
pub open spec fn spec_token_account_mint(data: Seq<u8>) -> Seq<u8> {
    data.subrange(0, 32)
}

/// The token account record's owning-wallet field.
pub open spec fn spec_token_account_owner(data: Seq<u8>) -> Seq<u8> {
    data.subrange(32, 64)
}

/// The token account record's balance field.
pub open spec fn spec_token_account_amount(data: Seq<u8>) -> u64 {
    vstd::bytes::spec_u64_from_le_bytes(data.subrange(64, 72))
}

/// Read the decimals out of a mint account; rejects a record of the wrong
/// size.
pub fn mint_decimals(mint: &Account) -> (r: Result<u8, ProgramError>)
    ensures
        mint.data@.len() != 82 ==> r == Err::<u8, ProgramError>(err_of(Ee::MintDataLen)),
        mint.data@.len() == 82 ==> r == Ok::<u8, ProgramError>(spec_mint_decimals(mint.data@)),
{
    if mint.data_len() != MINT_LEN {
        return Ee::MintDataLen.e();
    }
    Ok(mint.data.as_slice()[44])
}

/// Read the optional mint authority out of a mint account; rejects a record
/// of the wrong size.
pub fn mint_authority(mint: &Account) -> (r: Result<Option<Pubkey>, ProgramError>)
    ensures
        mint.data@.len() != 82 ==> r == Err::<Option<Pubkey>, ProgramError>(
            err_of(Ee::MintDataLen),
        ),
        mint.data@.len() == 82 ==> r is Ok && (match (r.unwrap(), spec_mint_authority(
            mint.data@,
        )) {
            (Some(k), Some(s)) => k@ == s,
            (None, None) => true,
            _ => false,
        }),
{
    if mint.data_len() != MINT_LEN {
        return Ee::MintDataLen.e();
    }
    let data = mint.data.as_slice();
    if data[0] == 1 {
        Ok(Some(crate::codec::read32(data, 4)))
    } else {
        Ok(None)
    }
}

/// Read the owning wallet out of a token account record of at least the base
/// size (the extended module appends data past it).
pub fn token_account_owner(ata: &Account) -> (r: Result<Pubkey, ProgramError>)
    ensures
        ata.data@.len() < 165 ==> r == Err::<Pubkey, ProgramError>(err_of(Ee::TokAcctDataLen)),
        ata.data@.len() >= 165 ==> r is Ok && r.unwrap()@ == spec_token_account_owner(ata.data@),
{
    if ata.data_len() < TOKEN_ACCOUNT_LEN {
        return Ee::TokAcctDataLen.e();
    }
    Ok(crate::codec::read32(ata.data.as_slice(), 32))
}

/// Read the mint out of a token account record of at least the base size.
pub fn token_account_mint(ata: &Account) -> (r: Result<Pubkey, ProgramError>)
    ensures
        ata.data@.len() < 165 ==> r == Err::<Pubkey, ProgramError>(err_of(Ee::TokAcctDataLen)),
        ata.data@.len() >= 165 ==> r is Ok && r.unwrap()@ == spec_token_account_mint(ata.data@),
{
    if ata.data_len() < TOKEN_ACCOUNT_LEN {
        return Ee::TokAcctDataLen.e();
    }
    Ok(crate::codec::read32(ata.data.as_slice(), 0))
}

/// Read the balance out of a token account record of at least the base size.
pub fn token_account_amount(ata: &Account) -> (r: Result<u64, ProgramError>)
    ensures
        ata.data@.len() < 165 ==> r == Err::<u64, ProgramError>(err_of(Ee::TokAcctDataLen)),
        ata.data@.len() >= 165 ==> r == Ok::<u64, ProgramError>(
            spec_token_account_amount(ata.data@),
        ),
{
    if ata.data_len() < TOKEN_ACCOUNT_LEN {
        return Ee::TokAcctDataLen.e();
    }
    Ok(crate::codec::read_u64_le(ata.data.as_slice(), 64))
}

/// Overwrite the balance field of a token account record, leaving every
/// other byte as it was.
pub fn set_token_account_amount(ata: &mut Account, amount: u64)
    requires
        old(ata).data@.len() >= 165,
    ensures
        final(ata).data@.len() == old(ata).data@.len(),
        spec_token_account_amount(final(ata).data@) == amount,
        final(ata).data@.subrange(0, 64) == old(ata).data@.subrange(0, 64),
        final(ata).data@.subrange(72, old(ata).data@.len() as int) == old(ata).data@.subrange(
            72,
            old(ata).data@.len() as int,
        ),
        final(ata).key == old(ata).key,
        final(ata).lamports == old(ata).lamports,
        final(ata).owner == old(ata).owner,
        final(ata).is_signer == old(ata).is_signer,
        final(ata).is_writable == old(ata).is_writable,
        final(ata).executable == old(ata).executable,
{
    proof {
        vstd::bytes::lemma_auto_spec_u64_to_from_le_bytes();
    }
    let bytes = vstd::bytes::u64_to_le_bytes(amount);
    let mut i: usize = 0;
    while i < 8
        invariant
            i <= 8,
            bytes@.len() == 8,
            bytes@ == vstd::bytes::spec_u64_to_le_bytes(amount),
            ata.data@.len() == old(ata).data@.len() >= 165,
            forall|j: int| 0 <= j < i ==> ata.data@[64 + j] == bytes@[j],
            forall|j: int| 0 <= j < 64 ==> ata.data@[j] == old(ata).data@[j],
            forall|j: int| 72 <= j < ata.data@.len() ==> ata.data@[j] == old(ata).data@[j],
            ata.key@ == old(ata).key@,
            ata.lamports == old(ata).lamports,
            ata.owner@ == old(ata).owner@,
            ata.is_signer == old(ata).is_signer,
            ata.is_writable == old(ata).is_writable,
            ata.executable == old(ata).executable,
        decreases 8 - i,
    {
        let b = bytes[i];
        ata.data.set(64 + i, b);
        i += 1;
    }
    proof {
        assert(ata.data@.subrange(64, 72) =~= vstd::bytes::spec_u64_to_le_bytes(amount));
        assert(ata.data@.subrange(0, 64) =~= old(ata).data@.subrange(0, 64));
        assert(ata.data@.subrange(72, old(ata).data@.len() as int) =~= old(ata).data@.subrange(
            72,
            old(ata).data@.len() as int,
        ));
    }
}

/// The initialized form of a freshly created token-holding account for
/// `(wallet, mint)`: mint and wallet at their fixed offsets, a zero balance,
/// the initialized state byte, and every other byte zero.
pub open spec fn spec_token_account_init(mint: Seq<u8>, wallet: Seq<u8>) -> Seq<u8> {
    Seq::<u8>::new(
        165,
        |i: int|
            if 0 <= i < 32 {
                mint[i]
            } else if 32 <= i < 64 {
                wallet[i - 32]
            } else if i == 108 {
                1u8
            } else {
                0u8
            },
    )
}

/// What the field readers see in a freshly initialized token account.
pub proof fn lemma_token_account_init_fields(mint: Seq<u8>, wallet: Seq<u8>)
    requires
        mint.len() == 32,
        wallet.len() == 32,
    ensures
        spec_token_account_init(mint, wallet).len() == 165,
        spec_token_account_mint(spec_token_account_init(mint, wallet)) == mint,
        spec_token_account_owner(spec_token_account_init(mint, wallet)) == wallet,
        spec_token_account_amount(spec_token_account_init(mint, wallet)) == 0,
{
    let d = spec_token_account_init(mint, wallet);
    assert(d.subrange(0, 32) =~= mint);
    assert(d.subrange(32, 64) =~= wallet);
    vstd::bytes::lemma_auto_spec_u64_to_from_le_bytes();
    assert(vstd::bytes::spec_u64_to_le_bytes(0u64) =~= Seq::<u8>::new(8, |i: int| 0u8)) by {
        vstd::bytes::spec_u64_to_le_bytes_to_open(0u64);
        assert((0u64 & 0xff) == 0 && ((0u64 >> 8) & 0xff) == 0 && ((0u64 >> 16) & 0xff) == 0 && ((
        0u64 >> 24) & 0xff) == 0 && ((0u64 >> 32) & 0xff) == 0 && ((0u64 >> 40) & 0xff) == 0 && ((
        0u64 >> 48) & 0xff) == 0 && ((0u64 >> 56) & 0xff) == 0) by (bit_vector);
    }
    assert(d.subrange(64, 72) =~= vstd::bytes::spec_u64_to_le_bytes(0u64));
}

/// The form of a freshly created token-holding account for `(wallet,
/// mint)` right after `amount` was moved into it.
pub open spec fn spec_token_account_filled(mint: Seq<u8>, wallet: Seq<u8>, amount: u64) -> Seq<
    u8,
> {
    Seq::<u8>::new(
        165,
        |i: int|
            if 0 <= i < 32 {
                mint[i]
            } else if 32 <= i < 64 {
                wallet[i - 32]
            } else if 64 <= i < 72 {
                vstd::bytes::spec_u64_to_le_bytes(amount)[i - 64]
            } else if i == 108 {
                1u8
            } else {
                0u8
            },
    )
}

/// Filling the balance field of a freshly initialized token account yields
/// exactly its filled form.
pub proof fn lemma_token_account_fill(mint: Seq<u8>, wallet: Seq<u8>, amount: u64, data: Seq<u8>)
    requires
        data.len() == 165,
        spec_token_account_amount(data) == amount,
        data.subrange(0, 64) == spec_token_account_init(mint, wallet).subrange(0, 64),
        data.subrange(72, 165) == spec_token_account_init(mint, wallet).subrange(72, 165),
    ensures
        data == spec_token_account_filled(mint, wallet, amount),
{
    vstd::bytes::lemma_auto_spec_u64_to_from_le_bytes();
    assert(data.subrange(64, 72) =~= vstd::bytes::spec_u64_to_le_bytes(amount)) by {
        assert(spec_token_account_amount(data) == amount);
        assert(vstd::bytes::spec_u64_to_le_bytes(
            vstd::bytes::spec_u64_from_le_bytes(data.subrange(64, 72)),
        ) == data.subrange(64, 72));
    }
    assert forall|i: int| 0 <= i < 165 implies data[i] == spec_token_account_filled(
        mint,
        wallet,
        amount,
    )[i] by {
        if i < 64 {
            assert(data[i] == data.subrange(0, 64)[i]);
            assert(spec_token_account_init(mint, wallet).subrange(0, 64)[i]
                == spec_token_account_init(mint, wallet)[i]);
        } else if i < 72 {
            assert(data[i] == data.subrange(64, 72)[i - 64]);
        } else {
            assert(data[i] == data.subrange(72, 165)[i - 72]);
            assert(spec_token_account_init(mint, wallet).subrange(72, 165)[i - 72]
                == spec_token_account_init(mint, wallet)[i]);
        }
    }
    assert(data =~= spec_token_account_filled(mint, wallet, amount));
}

/// Build the initialized form of a freshly created token-holding account.
pub fn token_account_init_bytes(mint: &Pubkey, wallet: &Pubkey) -> (r: Vec<u8>)
    ensures
        r@ == spec_token_account_init(mint@, wallet@),
        r@.len() == 165,
        spec_token_account_mint(r@) == mint@,
        spec_token_account_owner(r@) == wallet@,
        spec_token_account_amount(r@) == 0,
{
    let mut v = crate::codec::zero_bytes(165);
    let mut i: usize = 0;
    while i < 32
        invariant
            i <= 32,
            v@.len() == 165,
            forall|j: int| 0 <= j < i ==> v@[j] == mint@[j],
            forall|j: int| i <= j < 165 ==> v@[j] == 0,
        decreases 32 - i,
    {
        let b = mint[i];
        v.set(i, b);
        i += 1;
    }
    let mut k: usize = 0;
    while k < 32
        invariant
            k <= 32,
            v@.len() == 165,
            forall|j: int| 0 <= j < 32 ==> v@[j] == mint@[j],
            forall|j: int| 32 <= j < 32 + k ==> v@[j] == wallet@[j - 32],
            forall|j: int| 32 + k <= j < 165 ==> v@[j] == 0,
        decreases 32 - k,
    {
        let b = wallet[k];
        v.set(32 + k, b);
        k += 1;
    }
    v.set(108, 1);
    proof {
        assert(v@ =~= spec_token_account_init(mint@, wallet@));
        assert(v@.subrange(0, 32) =~= mint@);
        assert(v@.subrange(32, 64) =~= wallet@);
        assert(v@.subrange(64, 72) =~= Seq::<u8>::new(8, |i: int| 0u8));
        vstd::bytes::lemma_auto_spec_u64_to_from_le_bytes();
        assert(vstd::bytes::spec_u64_to_le_bytes(0u64) =~= Seq::<u8>::new(8, |i: int| 0u8)) by {
            vstd::bytes::spec_u64_to_le_bytes_to_open(0u64);
            assert((0u64 & 0xff) == 0 && ((0u64 >> 8) & 0xff) == 0 && ((0u64 >> 16) & 0xff) == 0
                && ((0u64 >> 24) & 0xff) == 0 && ((0u64 >> 32) & 0xff) == 0 && ((0u64 >> 40)
                & 0xff) == 0 && ((0u64 >> 48) & 0xff) == 0 && ((0u64 >> 56) & 0xff) == 0) by (bit_vector);
        }
    }
    v
}

} // verus!
