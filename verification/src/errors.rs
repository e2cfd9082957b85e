//! The error taxonomy: a closed registry of failure kinds with a stable
//! numeric code for each, a bidirectional code <-> kind mapping, and a fixed
//! human-readable name per kind.
//!
//! Codes `0..=53` form the durable wire registry: clients decode those codes
//! independently of this crate's enum layout, so the mapping here is written
//! as an explicit table rather than relying on ordinal assignment. Kinds with
//! codes above 53 surface numerically but are not part of the decodable
//! registry window.

use vstd::prelude::*;

verus! {

/// Every failure kind this program can surface.
#[derive(Clone, Copy, Debug, PartialEq, Eq, Structural)]
pub enum Ee {
    InvalidDiscriminator,
    NotSigner,
    NotWritable,
    NotExecutable,
    ZeroAsInput,
    DecimalsValue,
    MintDataLen,
    TokAcctDataLen,
    Tok22AcctDataLen,
    TokenProgram,
    SystemProgram,
    AtaOrOwner,
    AtaOrMint,
    AtaCheckFailed,
    AtaOwnerInvalid,
    ForeignPDA,
    EmptyLamport,
    EmptyData,
    AcctType,
    StrOverMax,
    StrUnderMin,
    InputDataUnderMin,
    InputDataOverMax,
    PdaNotInitialized,
    ParseU64,
    Tok22AcctDiscOffset,
    InputU8InvalidForStatus,
    InputU8InvalidForBool,
    U64ByteSizeInvalid,
    U32ByteSizeInvalid,
    U16ByteSizeInvalid,
    U8ByteSizeInvalid,
    VaultPDA,
    ConfigDataLengh,
    FunctionSelector,
    ConfigPDA,
    InputStatus,
    MathOverflow,
    MathUnderflow,
    NotRentExamptMint22,
    NotRentExamptTokAcct22,
    NotRentExamptPDA,
    MintOrMintAuthority,
    MintOrTokenProgram,
    ErrorValue,
    PdaAuthority,
    InsufficientFundNominal,
    ToWallet,
    PdaDataLen,
    ByteSliceSize32,
    ByteSliceSize10,
    ByteSliceSize6,
    AtokenGPvbd,
    ClockGet,
    OnlyOwner,
    EscrowPDA,
    EscrowMintX,
    EscrowMintY,
    MakerToWithdrawTokenY,
    EscrowDataEmpty,
    OnlyMaker,
}

/// The host-level error a handler returns: either one of the host runtime's
/// own kinds or a numeric code from this program's registry.
#[derive(Clone, Copy, Debug, PartialEq, Eq, Structural)]
pub enum ProgramError {
    NotEnoughAccountKeys,
    AccountAlreadyInitialized,
    IncorrectAuthority,
    InvalidInstructionData,
    InvalidAccountOwner,
    AccountDataTooSmall,
    InvalidSeeds,
    InvalidAccountData,
    InsufficientFunds,
    ArithmeticOverflow,
    MissingRequiredSignature,
    Custom(u32),
}

/// The stable numeric code of a failure kind.
pub open spec fn ee_code(e: Ee) -> u32 {
    match e {
        Ee::InvalidDiscriminator => 0,
        Ee::NotSigner => 1,
        Ee::NotWritable => 2,
        Ee::NotExecutable => 3,
        Ee::ZeroAsInput => 4,
        Ee::DecimalsValue => 5,
        Ee::MintDataLen => 6,
        Ee::TokAcctDataLen => 7,
        Ee::Tok22AcctDataLen => 8,
        Ee::TokenProgram => 9,
        Ee::SystemProgram => 10,
        Ee::AtaOrOwner => 11,
        Ee::AtaOrMint => 12,
        Ee::AtaCheckFailed => 13,
        Ee::AtaOwnerInvalid => 14,
        Ee::ForeignPDA => 15,
        Ee::EmptyLamport => 16,
        Ee::EmptyData => 17,
        Ee::AcctType => 18,
        Ee::StrOverMax => 19,
        Ee::StrUnderMin => 20,
        Ee::InputDataUnderMin => 21,
        Ee::InputDataOverMax => 22,
        Ee::PdaNotInitialized => 23,
        Ee::ParseU64 => 24,
        Ee::Tok22AcctDiscOffset => 25,
        Ee::InputU8InvalidForStatus => 26,
        Ee::InputU8InvalidForBool => 27,
        Ee::U64ByteSizeInvalid => 28,
        Ee::U32ByteSizeInvalid => 29,
        Ee::U16ByteSizeInvalid => 30,
        Ee::U8ByteSizeInvalid => 31,
        Ee::VaultPDA => 32,
        Ee::ConfigDataLengh => 33,
        Ee::FunctionSelector => 34,
        Ee::ConfigPDA => 35,
        Ee::InputStatus => 36,
        Ee::MathOverflow => 37,
        Ee::MathUnderflow => 38,
        Ee::NotRentExamptMint22 => 39,
        Ee::NotRentExamptTokAcct22 => 40,
        Ee::NotRentExamptPDA => 41,
        Ee::MintOrMintAuthority => 42,
        Ee::MintOrTokenProgram => 43,
        Ee::ErrorValue => 54,
        Ee::PdaAuthority => 44,
        Ee::InsufficientFundNominal => 45,
        Ee::ToWallet => 46,
        Ee::PdaDataLen => 47,
        Ee::ByteSliceSize32 => 48,
        Ee::ByteSliceSize10 => 49,
        Ee::ByteSliceSize6 => 50,
        Ee::AtokenGPvbd => 51,
        Ee::ClockGet => 52,
        Ee::OnlyOwner => 53,
        Ee::EscrowPDA => 55,
        Ee::EscrowMintX => 56,
        Ee::EscrowMintY => 57,
        Ee::MakerToWithdrawTokenY => 58,
        Ee::EscrowDataEmpty => 59,
        Ee::OnlyMaker => 60,
    }
}

/// The registry table: which kind a numeric code decodes to.
pub open spec fn ee_from_code(c: u32) -> Option<Ee> {
    if c == 0 {
        Some(Ee::InvalidDiscriminator)
    } else if c == 1 {
        Some(Ee::NotSigner)
    } else if c == 2 {
        Some(Ee::NotWritable)
    } else if c == 3 {
        Some(Ee::NotExecutable)
    } else if c == 4 {
        Some(Ee::ZeroAsInput)
    } else if c == 5 {
        Some(Ee::DecimalsValue)
    } else if c == 6 {
        Some(Ee::MintDataLen)
    } else if c == 7 {
        Some(Ee::TokAcctDataLen)
    } else if c == 8 {
        Some(Ee::Tok22AcctDataLen)
    } else if c == 9 {
        Some(Ee::TokenProgram)
    } else if c == 10 {
        Some(Ee::SystemProgram)
    } else if c == 11 {
        Some(Ee::AtaOrOwner)
    } else if c == 12 {
        Some(Ee::AtaOrMint)
    } else if c == 13 {
        Some(Ee::AtaCheckFailed)
    } else if c == 14 {
        Some(Ee::AtaOwnerInvalid)
    } else if c == 15 {
        Some(Ee::ForeignPDA)
    } else if c == 16 {
        Some(Ee::EmptyLamport)
    } else if c == 17 {
        Some(Ee::EmptyData)
    } else if c == 18 {
        Some(Ee::AcctType)
    } else if c == 19 {
        Some(Ee::StrOverMax)
    } else if c == 20 {
        Some(Ee::StrUnderMin)
    } else if c == 21 {
        Some(Ee::InputDataUnderMin)
    } else if c == 22 {
        Some(Ee::InputDataOverMax)
    } else if c == 23 {
        Some(Ee::PdaNotInitialized)
    } else if c == 24 {
        Some(Ee::ParseU64)
    } else if c == 25 {
        Some(Ee::Tok22AcctDiscOffset)
    } else if c == 26 {
        Some(Ee::InputU8InvalidForStatus)
    } else if c == 27 {
        Some(Ee::InputU8InvalidForBool)
    } else if c == 28 {
        Some(Ee::U64ByteSizeInvalid)
    } else if c == 29 {
        Some(Ee::U32ByteSizeInvalid)
    } else if c == 30 {
        Some(Ee::U16ByteSizeInvalid)
    } else if c == 31 {
        Some(Ee::U8ByteSizeInvalid)
    } else if c == 32 {
        Some(Ee::VaultPDA)
    } else if c == 33 {
        Some(Ee::ConfigDataLengh)
    } else if c == 34 {
        Some(Ee::FunctionSelector)
    } else if c == 35 {
        Some(Ee::ConfigPDA)
    } else if c == 36 {
        Some(Ee::InputStatus)
    } else if c == 37 {
        Some(Ee::MathOverflow)
    } else if c == 38 {
        Some(Ee::MathUnderflow)
    } else if c == 39 {
        Some(Ee::NotRentExamptMint22)
    } else if c == 40 {
        Some(Ee::NotRentExamptTokAcct22)
    } else if c == 41 {
        Some(Ee::NotRentExamptPDA)
    } else if c == 42 {
        Some(Ee::MintOrMintAuthority)
    } else if c == 43 {
        Some(Ee::MintOrTokenProgram)
    } else if c == 44 {
        Some(Ee::PdaAuthority)
    } else if c == 45 {
        Some(Ee::InsufficientFundNominal)
    } else if c == 46 {
        Some(Ee::ToWallet)
    } else if c == 47 {
        Some(Ee::PdaDataLen)
    } else if c == 48 {
        Some(Ee::ByteSliceSize32)
    } else if c == 49 {
        Some(Ee::ByteSliceSize10)
    } else if c == 50 {
        Some(Ee::ByteSliceSize6)
    } else if c == 51 {
        Some(Ee::AtokenGPvbd)
    } else if c == 52 {
        Some(Ee::ClockGet)
    } else if c == 53 {
        Some(Ee::OnlyOwner)
    } else {
        None
    }
}

/// The program error a failure kind surfaces as.
pub open spec fn err_of(e: Ee) -> ProgramError {
    ProgramError::Custom(ee_code(e))
}

impl Ee {
    /// The stable numeric code of this kind.
    pub fn code(self) -> (r: u32)
        ensures
            r == ee_code(self),
    {
        match self {
            Ee::InvalidDiscriminator => 0,
            Ee::NotSigner => 1,
            Ee::NotWritable => 2,
            Ee::NotExecutable => 3,
            Ee::ZeroAsInput => 4,
            Ee::DecimalsValue => 5,
            Ee::MintDataLen => 6,
            Ee::TokAcctDataLen => 7,
            Ee::Tok22AcctDataLen => 8,
            Ee::TokenProgram => 9,
            Ee::SystemProgram => 10,
            Ee::AtaOrOwner => 11,
            Ee::AtaOrMint => 12,
            Ee::AtaCheckFailed => 13,
            Ee::AtaOwnerInvalid => 14,
            Ee::ForeignPDA => 15,
            Ee::EmptyLamport => 16,
            Ee::EmptyData => 17,
            Ee::AcctType => 18,
            Ee::StrOverMax => 19,
            Ee::StrUnderMin => 20,
            Ee::InputDataUnderMin => 21,
            Ee::InputDataOverMax => 22,
            Ee::PdaNotInitialized => 23,
            Ee::ParseU64 => 24,
            Ee::Tok22AcctDiscOffset => 25,
            Ee::InputU8InvalidForStatus => 26,
            Ee::InputU8InvalidForBool => 27,
            Ee::U64ByteSizeInvalid => 28,
            Ee::U32ByteSizeInvalid => 29,
            Ee::U16ByteSizeInvalid => 30,
            Ee::U8ByteSizeInvalid => 31,
            Ee::VaultPDA => 32,
            Ee::ConfigDataLengh => 33,
            Ee::FunctionSelector => 34,
            Ee::ConfigPDA => 35,
            Ee::InputStatus => 36,
            Ee::MathOverflow => 37,
            Ee::MathUnderflow => 38,
            Ee::NotRentExamptMint22 => 39,
            Ee::NotRentExamptTokAcct22 => 40,
            Ee::NotRentExamptPDA => 41,
            Ee::MintOrMintAuthority => 42,
            Ee::MintOrTokenProgram => 43,
            Ee::ErrorValue => 54,
            Ee::PdaAuthority => 44,
            Ee::InsufficientFundNominal => 45,
            Ee::ToWallet => 46,
            Ee::PdaDataLen => 47,
            Ee::ByteSliceSize32 => 48,
            Ee::ByteSliceSize10 => 49,
            Ee::ByteSliceSize6 => 50,
            Ee::AtokenGPvbd => 51,
            Ee::ClockGet => 52,
            Ee::OnlyOwner => 53,
            Ee::EscrowPDA => 55,
            Ee::EscrowMintX => 56,
            Ee::EscrowMintY => 57,
            Ee::MakerToWithdrawTokenY => 58,
            Ee::EscrowDataEmpty => 59,
            Ee::OnlyMaker => 60,
        }
    }

    /// Fail with this kind, surfaced as its numeric code.
    pub fn e<T>(self) -> (r: Result<T, ProgramError>)
        ensures
            r == Result::<T, ProgramError>::Err(err_of(self)),
    {
        Err(ProgramError::Custom(self.code()))
    }

    /// Decode a numeric code back into its kind. Exactly the codes `0..=53`
    /// decode; anything else is rejected as `ErrorValue`.
    pub fn try_from(error: u32) -> (r: Result<Ee, ProgramError>)
        ensures
            error <= 53 ==> ee_from_code(error) is Some && r == Ok::<Ee, ProgramError>(ee_from_code(error).unwrap()),
            error > 53 ==> r == Err::<Ee, ProgramError>(err_of(Ee::ErrorValue)),
    {
        match error {
            0 => Ok(Ee::InvalidDiscriminator),
            1 => Ok(Ee::NotSigner),
            2 => Ok(Ee::NotWritable),
            3 => Ok(Ee::NotExecutable),
            4 => Ok(Ee::ZeroAsInput),
            5 => Ok(Ee::DecimalsValue),
            6 => Ok(Ee::MintDataLen),
            7 => Ok(Ee::TokAcctDataLen),
            8 => Ok(Ee::Tok22AcctDataLen),
            9 => Ok(Ee::TokenProgram),
            10 => Ok(Ee::SystemProgram),
            11 => Ok(Ee::AtaOrOwner),
            12 => Ok(Ee::AtaOrMint),
            13 => Ok(Ee::AtaCheckFailed),
            14 => Ok(Ee::AtaOwnerInvalid),
            15 => Ok(Ee::ForeignPDA),
            16 => Ok(Ee::EmptyLamport),
            17 => Ok(Ee::EmptyData),
            18 => Ok(Ee::AcctType),
            19 => Ok(Ee::StrOverMax),
            20 => Ok(Ee::StrUnderMin),
            21 => Ok(Ee::InputDataUnderMin),
            22 => Ok(Ee::InputDataOverMax),
            23 => Ok(Ee::PdaNotInitialized),
            24 => Ok(Ee::ParseU64),
            25 => Ok(Ee::Tok22AcctDiscOffset),
            26 => Ok(Ee::InputU8InvalidForStatus),
            27 => Ok(Ee::InputU8InvalidForBool),
            28 => Ok(Ee::U64ByteSizeInvalid),
            29 => Ok(Ee::U32ByteSizeInvalid),
            30 => Ok(Ee::U16ByteSizeInvalid),
            31 => Ok(Ee::U8ByteSizeInvalid),
            32 => Ok(Ee::VaultPDA),
            33 => Ok(Ee::ConfigDataLengh),
            34 => Ok(Ee::FunctionSelector),
            35 => Ok(Ee::ConfigPDA),
            36 => Ok(Ee::InputStatus),
            37 => Ok(Ee::MathOverflow),
            38 => Ok(Ee::MathUnderflow),
            39 => Ok(Ee::NotRentExamptMint22),
            40 => Ok(Ee::NotRentExamptTokAcct22),
            41 => Ok(Ee::NotRentExamptPDA),
            42 => Ok(Ee::MintOrMintAuthority),
            43 => Ok(Ee::MintOrTokenProgram),
            44 => Ok(Ee::PdaAuthority),
            45 => Ok(Ee::InsufficientFundNominal),
            46 => Ok(Ee::ToWallet),
            47 => Ok(Ee::PdaDataLen),
            48 => Ok(Ee::ByteSliceSize32),
            49 => Ok(Ee::ByteSliceSize10),
            50 => Ok(Ee::ByteSliceSize6),
            51 => Ok(Ee::AtokenGPvbd),
            52 => Ok(Ee::ClockGet),
            53 => Ok(Ee::OnlyOwner),
            _ => Err(ProgramError::Custom(54)),
        }
    }

    /// The fixed human-readable name of this kind.
    pub fn to_str(self) -> (r: &'static str)
        ensures
            r@ == ee_name(self),
    {
        match self {
            Ee::InvalidDiscriminator => "InvalidDiscriminator",
            Ee::NotSigner => "NotSigner",
            Ee::NotWritable => "NotWritable",
            Ee::NotExecutable => "NotExecutable",
            Ee::ZeroAsInput => "ZeroAsInput",
            Ee::DecimalsValue => "DecimalsValue",
            Ee::MintDataLen => "MintDataLen",
            Ee::TokAcctDataLen => "TokAcctDataLen",
            Ee::Tok22AcctDataLen => "Tok22AcctDataLen",
            Ee::TokenProgram => "TokenProgram",
            Ee::SystemProgram => "SystemProgram",
            Ee::AtaOrOwner => "AtaOrOwner",
            Ee::AtaOrMint => "AtaOrMint",
            Ee::AtaCheckFailed => "AtaCheckFailed",
            Ee::AtaOwnerInvalid => "AtaOwnerInvalid",
            Ee::ForeignPDA => "ForeignPDA",
            Ee::EmptyLamport => "EmptyLamport",
            Ee::EmptyData => "EmptyData",
            Ee::AcctType => "AcctType",
            Ee::StrOverMax => "StrOverMax",
            Ee::StrUnderMin => "StrUnderMin",
            Ee::InputDataUnderMin => "InputDataUnderMin",
            Ee::InputDataOverMax => "InputDataOverMax",
            Ee::PdaNotInitialized => "PdaNotInitialized",
            Ee::ParseU64 => "ParseU64",
            Ee::Tok22AcctDiscOffset => "Tok22AcctDiscOffset",
            Ee::InputU8InvalidForStatus => "InputU8InvalidForStatus",
            Ee::InputU8InvalidForBool => "InputU8InvalidForBool",
            Ee::U64ByteSizeInvalid => "U64ByteSizeInvalid",
            Ee::U32ByteSizeInvalid => "U32ByteSizeInvalid",
            Ee::U16ByteSizeInvalid => "U16ByteSizeInvalid",
            Ee::U8ByteSizeInvalid => "U8ByteSizeInvalid",
            Ee::VaultPDA => "VaultPDA",
            Ee::ConfigDataLengh => "ConfigDataLengh",
            Ee::FunctionSelector => "FunctionSelector",
            Ee::ConfigPDA => "ConfigPDA",
            Ee::InputStatus => "InputStatus",
            Ee::MathOverflow => "MathOverflow",
            Ee::MathUnderflow => "MathUnderflow",
            Ee::NotRentExamptMint22 => "NotRentExamptMint22",
            Ee::NotRentExamptTokAcct22 => "NotRentExamptTokAcct22",
            Ee::NotRentExamptPDA => "NotRentExamptPDA",
            Ee::MintOrMintAuthority => "MintOrMintAuthority",
            Ee::MintOrTokenProgram => "MintOrTokenProgram",
            Ee::ErrorValue => "ErrorValue",
            Ee::PdaAuthority => "PdaAuthority",
            Ee::InsufficientFundNominal => "InsufficientFundNominal",
            Ee::ToWallet => "ToWallet",
            Ee::PdaDataLen => "PdaDataLen",
            Ee::ByteSliceSize32 => "ByteSliceSize32",
            Ee::ByteSliceSize10 => "ByteSliceSize10",
            Ee::ByteSliceSize6 => "ByteSliceSize6",
            Ee::AtokenGPvbd => "AtokenGPvbd",
            Ee::ClockGet => "ClockGet",
            Ee::OnlyOwner => "OnlyOwner",
            Ee::EscrowPDA => "EscrowPDA",
            Ee::EscrowMintX => "EscrowMintX",
            Ee::EscrowMintY => "EscrowMintY",
            Ee::MakerToWithdrawTokenY => "MakerToWithdrawTokenY",
            Ee::EscrowDataEmpty => "EscrowDataEmpty",
            Ee::OnlyMaker => "OnlyMaker",
        }
    }
}

/// The fixed human-readable name of a failure kind.
pub open spec fn ee_name(e: Ee) -> Seq<char> {
    match e {
        Ee::InvalidDiscriminator => "InvalidDiscriminator"@,
        Ee::NotSigner => "NotSigner"@,
        Ee::NotWritable => "NotWritable"@,
        Ee::NotExecutable => "NotExecutable"@,
        Ee::ZeroAsInput => "ZeroAsInput"@,
        Ee::DecimalsValue => "DecimalsValue"@,
        Ee::MintDataLen => "MintDataLen"@,
        Ee::TokAcctDataLen => "TokAcctDataLen"@,
        Ee::Tok22AcctDataLen => "Tok22AcctDataLen"@,
        Ee::TokenProgram => "TokenProgram"@,
        Ee::SystemProgram => "SystemProgram"@,
        Ee::AtaOrOwner => "AtaOrOwner"@,
        Ee::AtaOrMint => "AtaOrMint"@,
        Ee::AtaCheckFailed => "AtaCheckFailed"@,
        Ee::AtaOwnerInvalid => "AtaOwnerInvalid"@,
        Ee::ForeignPDA => "ForeignPDA"@,
        Ee::EmptyLamport => "EmptyLamport"@,
        Ee::EmptyData => "EmptyData"@,
        Ee::AcctType => "AcctType"@,
        Ee::StrOverMax => "StrOverMax"@,
        Ee::StrUnderMin => "StrUnderMin"@,
        Ee::InputDataUnderMin => "InputDataUnderMin"@,
        Ee::InputDataOverMax => "InputDataOverMax"@,
        Ee::PdaNotInitialized => "PdaNotInitialized"@,
        Ee::ParseU64 => "ParseU64"@,
        Ee::Tok22AcctDiscOffset => "Tok22AcctDiscOffset"@,
        Ee::InputU8InvalidForStatus => "InputU8InvalidForStatus"@,
        Ee::InputU8InvalidForBool => "InputU8InvalidForBool"@,
        Ee::U64ByteSizeInvalid => "U64ByteSizeInvalid"@,
        Ee::U32ByteSizeInvalid => "U32ByteSizeInvalid"@,
        Ee::U16ByteSizeInvalid => "U16ByteSizeInvalid"@,
        Ee::U8ByteSizeInvalid => "U8ByteSizeInvalid"@,
        Ee::VaultPDA => "VaultPDA"@,
        Ee::ConfigDataLengh => "ConfigDataLengh"@,
        Ee::FunctionSelector => "FunctionSelector"@,
        Ee::ConfigPDA => "ConfigPDA"@,
        Ee::InputStatus => "InputStatus"@,
        Ee::MathOverflow => "MathOverflow"@,
        Ee::MathUnderflow => "MathUnderflow"@,
        Ee::NotRentExamptMint22 => "NotRentExamptMint22"@,
        Ee::NotRentExamptTokAcct22 => "NotRentExamptTokAcct22"@,
        Ee::NotRentExamptPDA => "NotRentExamptPDA"@,
        Ee::MintOrMintAuthority => "MintOrMintAuthority"@,
        Ee::MintOrTokenProgram => "MintOrTokenProgram"@,
        Ee::ErrorValue => "ErrorValue"@,
        Ee::PdaAuthority => "PdaAuthority"@,
        Ee::InsufficientFundNominal => "InsufficientFundNominal"@,
        Ee::ToWallet => "ToWallet"@,
        Ee::PdaDataLen => "PdaDataLen"@,
        Ee::ByteSliceSize32 => "ByteSliceSize32"@,
        Ee::ByteSliceSize10 => "ByteSliceSize10"@,
        Ee::ByteSliceSize6 => "ByteSliceSize6"@,
        Ee::AtokenGPvbd => "AtokenGPvbd"@,
        Ee::ClockGet => "ClockGet"@,
        Ee::OnlyOwner => "OnlyOwner"@,
        Ee::EscrowPDA => "EscrowPDA"@,
        Ee::EscrowMintX => "EscrowMintX"@,
        Ee::EscrowMintY => "EscrowMintY"@,
        Ee::MakerToWithdrawTokenY => "MakerToWithdrawTokenY"@,
        Ee::EscrowDataEmpty => "EscrowDataEmpty"@,
        Ee::OnlyMaker => "OnlyMaker"@,
    }
}

impl From<Ee> for ProgramError {
    /// A kind surfaces as its stable numeric code.
    fn from(e: Ee) -> (r: Self) {
        ProgramError::Custom(e.code())
    }
}

impl vstd::std_specs::convert::FromSpecImpl<Ee> for ProgramError {
    open spec fn obeys_from_spec() -> bool {
        true
    }

    open spec fn from_spec(e: Ee) -> Self {
        err_of(e)
    }
}

/// The code <-> kind mapping is bidirectional over the registry window: every
/// code in `0..=53` decodes to a kind that encodes back to the same code, and
/// every kind whose code lies in that window survives an encode/decode round
/// trip unchanged.
pub proof fn lemma_error_code_round_trip()
    ensures
        forall|c: u32| c <= 53 ==> (#[trigger] ee_from_code(c)) is Some && ee_code(ee_from_code(c).unwrap()) == c,
        forall|e: Ee| ee_code(e) <= 53 ==> ee_from_code(ee_code(e)) == Some(e),
{
}

} // verus!
