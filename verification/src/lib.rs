//! Instruction validation and state-transition engine for a ledger-resident
//! vault / escrow / config program.
//!
//! The engine works on a plain-value model of ledger accounts: every handler
//! takes the instruction payload bytes plus the declared account list, checks
//! the full precondition chain, and computes the resulting account states.
//! Address derivation is delegated to the host's hash-based derivation
//! (see `pda`); everything else is verified here.

use vstd::prelude::*;

pub mod account;
pub mod codec;
pub mod cpi;
pub mod errors;
pub mod instructions;
pub mod pda;
pub mod rent;
pub mod state;
pub mod token;
pub mod validate;

verus! {

/// A 32-byte ledger address.
pub type Pubkey = [u8; 32];

/// This program's own id (the owner of every persistent account it manages).
pub const ID: Pubkey = [
    92, 143, 246, 202, 41, 241, 196, 219, 253, 241, 134, 236, 245, 31, 153, 51,
    42, 90, 97, 32, 7, 212, 84, 199, 229, 137, 118, 60, 30, 198, 176, 35,
];

/// The system program's id (all zeroes).
pub const SYSTEM_PROGRAM_ID: Pubkey = [
    0, 0, 0, 0, 0, 0, 0, 0, 0, 0, 0, 0, 0, 0, 0, 0,
    0, 0, 0, 0, 0, 0, 0, 0, 0, 0, 0, 0, 0, 0, 0, 0,
];

/// The token-transfer module's id.
pub const TOKEN_PROGRAM_ID: Pubkey = [
    6, 221, 246, 225, 215, 101, 161, 147, 217, 203, 225, 70, 206, 235, 121, 172,
    28, 180, 133, 237, 95, 91, 55, 145, 58, 140, 245, 133, 126, 255, 0, 169,
];

/// The extended token-transfer module's id.
pub const TOKEN_2022_PROGRAM_ID: Pubkey = [
    6, 221, 246, 225, 238, 117, 143, 222, 24, 66, 93, 188, 228, 108, 205, 218,
    182, 26, 252, 77, 131, 185, 13, 39, 254, 189, 249, 40, 216, 161, 139, 252,
];

/// The associated-account module's id.
pub const ATOKEN_PROGRAM_ID: Pubkey = [
    140, 151, 37, 143, 78, 36, 137, 241, 187, 61, 16, 41, 20, 142, 13, 131,
    11, 90, 19, 153, 218, 255, 16, 132, 4, 142, 123, 216, 219, 233, 248, 89,
];

/// Seed tag for config addresses ("config").
pub const CONFIG_SEED: [u8; 6] = [99, 111, 110, 102, 105, 103];

/// Seed tag for vault addresses ("vault").
pub const VAULT_SEED: [u8; 5] = [118, 97, 117, 108, 116];

/// Seed tag for escrow addresses ("escrow").
pub const ESCROW_SEED: [u8; 6] = [101, 115, 99, 114, 111, 119];

/// Compare two 32-byte addresses for equality.
pub fn key_eq(a: &Pubkey, b: &Pubkey) -> (r: bool)
    ensures
        r == (a@ == b@),
{
    let mut i: usize = 0;
    while i < 32
        invariant
            i <= 32,
            forall|j: int| 0 <= j < i ==> a@[j] == b@[j],
        decreases 32 - i,
    {
        if a[i] != b[i] {
            assert(a@ != b@);
            return false;
        }
        i += 1;
    }
    assert(a@ =~= b@);
    true
}

} // verus!
