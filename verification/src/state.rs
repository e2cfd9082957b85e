//! The persistent account schemas: the administrative `Config` record and the
//! per-offer `Escrow` record, each with an explicit fixed-offset byte codec.
//!
//! The persisted form is byte-stable: every field sits at a fixed offset,
//! multi-byte integers are little-endian, and the codec is an exact
//! serialize/deserialize pair (see `lemma_config_bytes_fields` and
//! `lemma_escrow_bytes_fields`).

use vstd::prelude::*;

use crate::account::Account;
use crate::codec::{push32, push_u64_le, read32, read_u64_le};
use crate::errors::{err_of, Ee, ProgramError};
use crate::{Pubkey, ID};

verus! {

broadcast use vstd::array::group_array_axioms;

/// The lifecycle status stored in a config record.
#[derive(Clone, Copy, Debug, PartialEq, Eq, Structural)]
pub enum StatusEnum {
    Waiting,
    Active,
    Expired,
    Paused,
    Canceled,
}

/// The byte a status is persisted as.
pub open spec fn status_code(s: StatusEnum) -> u8 {
    match s {
        StatusEnum::Waiting => 0,
        StatusEnum::Active => 1,
        StatusEnum::Expired => 2,
        StatusEnum::Paused => 3,
        StatusEnum::Canceled => 4,
    }
}

/// The status a byte maps to; out-of-range bytes fall back to `Expired`.
pub open spec fn spec_status_from_u8(v: u8) -> StatusEnum {
    if v == 0 {
        StatusEnum::Waiting
    } else if v == 1 {
        StatusEnum::Active
    } else if v == 2 {
        StatusEnum::Expired
    } else if v == 3 {
        StatusEnum::Paused
    } else if v == 4 {
        StatusEnum::Canceled
    } else {
        StatusEnum::Expired
    }
}

impl StatusEnum {
    /// The byte this status is persisted as.
    pub fn code(self) -> (r: u8)
        ensures
            r == status_code(self),
    {
        match self {
            StatusEnum::Waiting => 0,
            StatusEnum::Active => 1,
            StatusEnum::Expired => 2,
            StatusEnum::Paused => 3,
            StatusEnum::Canceled => 4,
        }
    }
}

impl From<u8> for StatusEnum {
    /// Bytes `0..=4` map to their status; anything else falls back to
    /// `Expired`.
    fn from(num: u8) -> (r: Self) {
        match num {
            0 => StatusEnum::Waiting,
            1 => StatusEnum::Active,
            2 => StatusEnum::Expired,
            3 => StatusEnum::Paused,
            4 => StatusEnum::Canceled,
            _ => StatusEnum::Expired,
        }
    }
}

impl vstd::std_specs::convert::FromSpecImpl<u8> for StatusEnum {
    open spec fn obeys_from_spec() -> bool {
        true
    }

    open spec fn from_spec(v: u8) -> Self {
        spec_status_from_u8(v)
    }
}

/// The administrative configuration record, one per controlling owner.
#[derive(Clone, Copy, Debug)]
pub struct Config {
    /// Set once at creation; gates all authority-restricted operations.
    pub authority: Pubkey,
    /// Free-form 32-byte metadata field.
    pub str_u8array: [u8; 32],
    /// The fee policy value.
    pub fee: u64,
    /// Cached, informational native balance.
    pub sol_balance: u64,
    /// Cached, informational token balance.
    pub token_balance: u64,
    /// Lifecycle status.
    pub status: StatusEnum,
    /// The disambiguating bump the record's address was derived with.
    pub bump: u8,
}

/// Byte size of a persisted config record.
pub const CONFIG_LEN: usize = 90;

/// The exact persisted form of a config record: fixed offsets, little-endian
/// integers.
pub open spec fn spec_config_bytes(c: Config) -> Seq<u8> {
    c.authority@ + c.str_u8array@ + vstd::bytes::spec_u64_to_le_bytes(c.fee)
        + vstd::bytes::spec_u64_to_le_bytes(c.sol_balance) + vstd::bytes::spec_u64_to_le_bytes(
        c.token_balance,
    ) + seq![status_code(c.status)] + seq![c.bump]
}

/// How each field of a config record sits inside its persisted form: the
/// serializer and the field-wise reader are exact inverses.
pub proof fn lemma_config_bytes_fields(c: Config)
    ensures
        spec_config_bytes(c).len() == 90,
        spec_config_bytes(c).subrange(0, 32) == c.authority@,
        spec_config_bytes(c).subrange(32, 64) == c.str_u8array@,
        vstd::bytes::spec_u64_from_le_bytes(spec_config_bytes(c).subrange(64, 72)) == c.fee,
        vstd::bytes::spec_u64_from_le_bytes(spec_config_bytes(c).subrange(72, 80)) == c.sol_balance,
        vstd::bytes::spec_u64_from_le_bytes(spec_config_bytes(c).subrange(80, 88))
            == c.token_balance,
        spec_config_bytes(c)[88] == status_code(c.status),
        spec_config_bytes(c)[89] == c.bump,
{
    vstd::bytes::lemma_auto_spec_u64_to_from_le_bytes();
    assert(spec_config_bytes(c).subrange(0, 32) =~= c.authority@);
    assert(spec_config_bytes(c).subrange(32, 64) =~= c.str_u8array@);
    assert(spec_config_bytes(c).subrange(64, 72) =~= vstd::bytes::spec_u64_to_le_bytes(c.fee));
    assert(spec_config_bytes(c).subrange(72, 80) =~= vstd::bytes::spec_u64_to_le_bytes(
        c.sol_balance,
    ));
    assert(spec_config_bytes(c).subrange(80, 88) =~= vstd::bytes::spec_u64_to_le_bytes(
        c.token_balance,
    ));
}

impl Config {
    /// The fee policy value.
    pub fn fee(&self) -> (r: u64)
        ensures
            r == self.fee,
    {
        self.fee
    }

    /// The cached, informational native balance.
    pub fn sol_balance(&self) -> (r: u64)
        ensures
            r == self.sol_balance,
    {
        self.sol_balance
    }

    /// The cached, informational token balance.
    pub fn token_balance(&self) -> (r: u64)
        ensures
            r == self.token_balance,
    {
        self.token_balance
    }

    /// Check that `pda` has the shape of a live config account: exact record
    /// size and owned by this program.
    pub fn check(pda: &Account) -> (r: Result<(), ProgramError>)
        ensures
            pda.data@.len() != 90 ==> r == Err::<(), ProgramError>(err_of(Ee::ConfigDataLengh)),
            pda.data@.len() == 90 && pda.owner@ != ID@ ==> r == Err::<(), ProgramError>(
                err_of(Ee::ForeignPDA),
            ),
            pda.data@.len() == 90 && pda.owner@ == ID@ ==> r == Ok::<(), ProgramError>(()),
    {
        if pda.data_len() != CONFIG_LEN {
            return Ee::ConfigDataLengh.e();
        }
        if !pda.is_owned_by(&ID) {
            return Ee::ForeignPDA.e();
        }
        Ok(())
    }

    /// Decode the record out of `pda`'s data after `check`; rejects a status
    /// byte outside the registry.
    pub fn load(pda: &Account) -> (r: Result<Config, ProgramError>)
        ensures
            pda.data@.len() != 90 ==> r == Err::<Config, ProgramError>(err_of(Ee::ConfigDataLengh)),
            pda.data@.len() == 90 && pda.owner@ != ID@ ==> r == Err::<Config, ProgramError>(
                err_of(Ee::ForeignPDA),
            ),
            pda.data@.len() == 90 && pda.owner@ == ID@ && pda.data@[88] > 4 ==> r == Err::<
                Config,
                ProgramError,
            >(err_of(Ee::InputStatus)),
            pda.data@.len() == 90 && pda.owner@ == ID@ && pda.data@[88] <= 4 ==> r is Ok
                && spec_config_bytes(r.unwrap()) == pda.data@,
    {
        let c = Self::check(pda);
        if let Err(e) = c {
            return Err(e);
        }
        Self::load_unchecked(pda)
    }

    /// Decode the record out of `pda`'s data, skipping the ownership check.
    pub fn load_unchecked(pda: &Account) -> (r: Result<Config, ProgramError>)
        ensures
            pda.data@.len() != 90 ==> r == Err::<Config, ProgramError>(err_of(Ee::ConfigDataLengh)),
            pda.data@.len() == 90 && pda.data@[88] > 4 ==> r == Err::<Config, ProgramError>(
                err_of(Ee::InputStatus),
            ),
            pda.data@.len() == 90 && pda.data@[88] <= 4 ==> r is Ok && spec_config_bytes(r.unwrap())
                == pda.data@,
    {
        if pda.data_len() != CONFIG_LEN {
            return Ee::ConfigDataLengh.e();
        }
        let data = pda.data.as_slice();
        let status_byte = data[88];
        if status_byte > 4 {
            return Ee::InputStatus.e();
        }
        let c = Config {
            authority: read32(data, 0),
            str_u8array: read32(data, 32),
            fee: read_u64_le(data, 64),
            sol_balance: read_u64_le(data, 72),
            token_balance: read_u64_le(data, 80),
            status: StatusEnum::from(status_byte),
            bump: data[89],
        };
        proof {
            lemma_config_bytes_fields(c);
            vstd::bytes::lemma_auto_spec_u64_to_from_le_bytes();
            assert(spec_config_bytes(c) =~= pda.data@);
        }
        Ok(c)
    }

    /// Same decoding as `load`, for read-only access.
    pub fn read(pda: &Account) -> (r: Result<Config, ProgramError>)
        ensures
            pda.data@.len() != 90 ==> r == Err::<Config, ProgramError>(err_of(Ee::ConfigDataLengh)),
            pda.data@.len() == 90 && pda.owner@ != ID@ ==> r == Err::<Config, ProgramError>(
                err_of(Ee::ForeignPDA),
            ),
            pda.data@.len() == 90 && pda.owner@ == ID@ && pda.data@[88] > 4 ==> r == Err::<
                Config,
                ProgramError,
            >(err_of(Ee::InputStatus)),
            pda.data@.len() == 90 && pda.owner@ == ID@ && pda.data@[88] <= 4 ==> r is Ok
                && spec_config_bytes(r.unwrap()) == pda.data@,
    {
        Self::load(pda)
    }

    /// Serialize this record into its exact persisted form.
    pub fn to_bytes(&self) -> (r: Vec<u8>)
        ensures
            r@ == spec_config_bytes(*self),
            r@.len() == 90,
    {
        let mut v: Vec<u8> = Vec::new();
        push32(&mut v, &self.authority);
        push32(&mut v, &self.str_u8array);
        push_u64_le(&mut v, self.fee);
        push_u64_le(&mut v, self.sol_balance);
        push_u64_le(&mut v, self.token_balance);
        v.push(self.status.code());
        v.push(self.bump);
        proof {
            lemma_config_bytes_fields(*self);
            assert(v@ =~= spec_config_bytes(*self));
        }
        v
    }

    /// Overwrite `pda`'s data with this record's persisted form.
    pub fn store(&self, pda: &mut Account)
        ensures
            final(pda).data@ == spec_config_bytes(*self),
            final(pda).key == old(pda).key,
            final(pda).lamports == old(pda).lamports,
            final(pda).owner == old(pda).owner,
            final(pda).is_signer == old(pda).is_signer,
            final(pda).is_writable == old(pda).is_writable,
            final(pda).executable == old(pda).executable,
    {
        pda.data = self.to_bytes();
    }
}

/// The per-offer escrow record, one per (maker, offer id) pair.
#[derive(Clone, Copy, Debug)]
pub struct Escrow {
    /// The offer maker; immutable after creation.
    pub maker: Pubkey,
    /// The escrowed asset's mint; immutable after creation.
    pub mint_x: Pubkey,
    /// The requested asset's mint; immutable after creation.
    pub mint_y: Pubkey,
    /// How much of asset Y fulfils the offer.
    pub amount_y: u64,
    /// Decimals declared for asset X.
    pub decimal_x: u8,
    /// Decimals declared for asset Y.
    pub decimal_y: u8,
    /// The maker-chosen offer id the address is derived with.
    pub id: u64,
    /// The disambiguating bump the record's address was derived with.
    pub bump: u8,
}

/// Byte size of a persisted escrow record.
pub const ESCROW_LEN: usize = 115;

/// The exact persisted form of an escrow record: fixed offsets, little-endian
/// integers.
pub open spec fn spec_escrow_bytes(e: Escrow) -> Seq<u8> {
    e.maker@ + e.mint_x@ + e.mint_y@ + vstd::bytes::spec_u64_to_le_bytes(e.amount_y) + seq![
        e.decimal_x,
        e.decimal_y,
    ] + vstd::bytes::spec_u64_to_le_bytes(e.id) + seq![e.bump]
}

/// The persisted escrow record's maker field.
pub open spec fn spec_escrow_maker(d: Seq<u8>) -> Seq<u8> {
    d.subrange(0, 32)
}

/// The persisted escrow record's asset-X mint field.
pub open spec fn spec_escrow_mint_x(d: Seq<u8>) -> Seq<u8> {
    d.subrange(32, 64)
}

/// The persisted escrow record's asset-Y mint field.
pub open spec fn spec_escrow_mint_y(d: Seq<u8>) -> Seq<u8> {
    d.subrange(64, 96)
}

/// The persisted escrow record's asset-Y amount field.
pub open spec fn spec_escrow_amount_y(d: Seq<u8>) -> u64 {
    vstd::bytes::spec_u64_from_le_bytes(d.subrange(96, 104))
}

/// The persisted escrow record's asset-X decimals field.
pub open spec fn spec_escrow_decimal_x(d: Seq<u8>) -> u8 {
    d[104]
}

/// The persisted escrow record's asset-Y decimals field.
pub open spec fn spec_escrow_decimal_y(d: Seq<u8>) -> u8 {
    d[105]
}

/// The persisted escrow record's offer id field.
pub open spec fn spec_escrow_id(d: Seq<u8>) -> u64 {
    vstd::bytes::spec_u64_from_le_bytes(d.subrange(106, 114))
}

/// The persisted escrow record's bump field.
pub open spec fn spec_escrow_bump(d: Seq<u8>) -> u8 {
    d[114]
}

/// A decoded escrow record reads back exactly the fields its persisted form
/// holds.
pub proof fn lemma_escrow_decode_fields(e: Escrow, d: Seq<u8>)
    requires
        spec_escrow_bytes(e) == d,
    ensures
        e.maker@ == spec_escrow_maker(d),
        e.mint_x@ == spec_escrow_mint_x(d),
        e.mint_y@ == spec_escrow_mint_y(d),
        e.amount_y == spec_escrow_amount_y(d),
        e.decimal_x == spec_escrow_decimal_x(d),
        e.decimal_y == spec_escrow_decimal_y(d),
        e.id == spec_escrow_id(d),
        e.bump == spec_escrow_bump(d),
{
    lemma_escrow_bytes_fields(e);
}

/// How each field of an escrow record sits inside its persisted form: the
/// serializer and the field-wise reader are exact inverses.
pub proof fn lemma_escrow_bytes_fields(e: Escrow)
    ensures
        spec_escrow_bytes(e).len() == 115,
        spec_escrow_bytes(e).subrange(0, 32) == e.maker@,
        spec_escrow_bytes(e).subrange(32, 64) == e.mint_x@,
        spec_escrow_bytes(e).subrange(64, 96) == e.mint_y@,
        vstd::bytes::spec_u64_from_le_bytes(spec_escrow_bytes(e).subrange(96, 104)) == e.amount_y,
        spec_escrow_bytes(e)[104] == e.decimal_x,
        spec_escrow_bytes(e)[105] == e.decimal_y,
        vstd::bytes::spec_u64_from_le_bytes(spec_escrow_bytes(e).subrange(106, 114)) == e.id,
        spec_escrow_bytes(e)[114] == e.bump,
{
    vstd::bytes::lemma_auto_spec_u64_to_from_le_bytes();
    assert(spec_escrow_bytes(e).subrange(0, 32) =~= e.maker@);
    assert(spec_escrow_bytes(e).subrange(32, 64) =~= e.mint_x@);
    assert(spec_escrow_bytes(e).subrange(64, 96) =~= e.mint_y@);
    assert(spec_escrow_bytes(e).subrange(96, 104) =~= vstd::bytes::spec_u64_to_le_bytes(
        e.amount_y,
    ));
    assert(spec_escrow_bytes(e).subrange(106, 114) =~= vstd::bytes::spec_u64_to_le_bytes(e.id));
}

impl Escrow {
    /// Decode the record out of `pda`'s data after checking size and program
    /// ownership.
    pub fn load(pda: &Account) -> (r: Result<Escrow, ProgramError>)
        ensures
            pda.data@.len() != 115 ==> r == Err::<Escrow, ProgramError>(err_of(Ee::PdaDataLen)),
            pda.data@.len() == 115 && pda.owner@ != ID@ ==> r == Err::<Escrow, ProgramError>(
                err_of(Ee::ForeignPDA),
            ),
            pda.data@.len() == 115 && pda.owner@ == ID@ ==> r is Ok && spec_escrow_bytes(r.unwrap())
                == pda.data@,
    {
        if pda.data_len() != ESCROW_LEN {
            return Ee::PdaDataLen.e();
        }
        if !pda.is_owned_by(&ID) {
            return Ee::ForeignPDA.e();
        }
        Self::load_unchecked(pda)
    }

    /// Decode the record out of `pda`'s data, skipping the ownership check.
    pub fn load_unchecked(pda: &Account) -> (r: Result<Escrow, ProgramError>)
        ensures
            pda.data@.len() != 115 ==> r == Err::<Escrow, ProgramError>(err_of(Ee::PdaDataLen)),
            pda.data@.len() == 115 ==> r is Ok && spec_escrow_bytes(r.unwrap()) == pda.data@,
    {
        if pda.data_len() != ESCROW_LEN {
            return Ee::PdaDataLen.e();
        }
        let data = pda.data.as_slice();
        let e = Escrow {
            maker: read32(data, 0),
            mint_x: read32(data, 32),
            mint_y: read32(data, 64),
            amount_y: read_u64_le(data, 96),
            decimal_x: data[104],
            decimal_y: data[105],
            id: read_u64_le(data, 106),
            bump: data[114],
        };
        proof {
            lemma_escrow_bytes_fields(e);
            vstd::bytes::lemma_auto_spec_u64_to_from_le_bytes();
            assert(spec_escrow_bytes(e) =~= pda.data@);
        }
        Ok(e)
    }

    /// Serialize this record into its exact persisted form.
    pub fn to_bytes(&self) -> (r: Vec<u8>)
        ensures
            r@ == spec_escrow_bytes(*self),
            r@.len() == 115,
    {
        let mut v: Vec<u8> = Vec::new();
        push32(&mut v, &self.maker);
        push32(&mut v, &self.mint_x);
        push32(&mut v, &self.mint_y);
        push_u64_le(&mut v, self.amount_y);
        v.push(self.decimal_x);
        v.push(self.decimal_y);
        push_u64_le(&mut v, self.id);
        v.push(self.bump);
        proof {
            lemma_escrow_bytes_fields(*self);
            assert(v@ =~= spec_escrow_bytes(*self));
        }
        v
    }

    /// Overwrite `pda`'s data with this record's persisted form.
    pub fn store(&self, pda: &mut Account)
        ensures
            final(pda).data@ == spec_escrow_bytes(*self),
            final(pda).key == old(pda).key,
            final(pda).lamports == old(pda).lamports,
            final(pda).owner == old(pda).owner,
            final(pda).is_signer == old(pda).is_signer,
            final(pda).is_writable == old(pda).is_writable,
            final(pda).executable == old(pda).executable,
    {
        pda.data = self.to_bytes();
    }
}

} // verus!
