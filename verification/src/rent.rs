//! The host ledger's rent parameters, handed in by the caller of each
//! handler: an account must hold at least the rent-exempt minimum for its
//! byte size to be retained indefinitely.

use vstd::prelude::*;

use crate::errors::{err_of, Ee, ProgramError};

verus! {

/// Rent parameters for one invocation.
#[derive(Clone, Copy, Debug, PartialEq, Eq, Structural)]
pub struct Rent {
    /// Cost in lamports to keep one byte alive for one year.
    pub lamports_per_byte_year: u64,
    /// How many years' worth of rent exempts an account permanently.
    pub exemption_threshold_years: u64,
}

/// The rent-exempt minimum for an account of `data_len` bytes: the per-byte
/// rate over the account's bytes plus the fixed storage overhead, for the
/// exemption period.
pub open spec fn spec_minimum_balance(rent: Rent, data_len: nat) -> int {
    (128 + data_len) * rent.lamports_per_byte_year * rent.exemption_threshold_years
}

/// The rent-exempt minimum for `data_len` bytes is computable without the
/// arithmetic leaving the machine range.
pub open spec fn rent_fits(rent: Rent, data_len: nat) -> bool {
    &&& 128 + data_len <= u64::MAX
    &&& (128 + data_len) * rent.lamports_per_byte_year <= u64::MAX
    &&& spec_minimum_balance(rent, data_len) <= u64::MAX
}

impl Rent {
    /// The rent-exempt minimum for an account of `data_len` bytes.
    pub fn minimum_balance(&self, data_len: usize) -> (r: Result<u64, ProgramError>)
        ensures
            r is Ok <==> rent_fits(*self, data_len as nat),
            r is Ok ==> r.unwrap() == spec_minimum_balance(*self, data_len as nat),
            r is Err ==> r == Err::<u64, ProgramError>(err_of(Ee::MathOverflow)),
    {
        let base = match (data_len as u64).checked_add(128) {
            Some(b) => b,
            None => {
                return Ee::MathOverflow.e();
            },
        };
        let yearly = match base.checked_mul(self.lamports_per_byte_year) {
            Some(y) => y,
            None => {
                return Ee::MathOverflow.e();
            },
        };
        match yearly.checked_mul(self.exemption_threshold_years) {
            Some(m) => Ok(m),
            None => Ee::MathOverflow.e(),
        }
    }
}

impl Default for Rent {
    /// The ledger's customary rent parameters.
    fn default() -> (r: Self)
        ensures
            r.lamports_per_byte_year == 3480,
            r.exemption_threshold_years == 2,
    {
        Rent { lamports_per_byte_year: 3480, exemption_threshold_years: 2 }
    }
}

} // verus!
