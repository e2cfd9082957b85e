//! Validate a request to set up an extended-module token: a signing owner,
//! bounded metadata strings and bounded decimals. This handler checks the
//! request; it moves no value.

use vstd::prelude::*;
use vstd::utf8::encode_utf8;

use crate::account::{acct_like, Account};
use crate::errors::{err_of, Ee, ProgramError};
use crate::validate::{check_signer, check_str_len};

verus! {

/// The typed, pre-checked request for an extended-module token.
pub struct Token2022 {
    /// The token's owner; must have signed.
    pub owner: Account,
    /// The token's display name.
    pub name: String,
    /// The token's ticker symbol.
    pub symbol: String,
    /// The token's metadata location.
    pub uri: String,
    /// The token's decimals, at most 18.
    pub decimals: u8,
}

impl Token2022 {
    /// The opcode this handler is routed under.
    pub const DISCRIMINATOR: u8 = 2;

    /// Validation and parse phase: at least one account, a non-empty
    /// payload whose first byte is the decimals, bounded by 18.
    pub fn try_from(data: &[u8], accounts: &Vec<Account>) -> (r: Result<Token2022, ProgramError>)
        ensures
            accounts@.len() < 1 ==> r == Err::<Token2022, ProgramError>(
                ProgramError::NotEnoughAccountKeys,
            ),
            accounts@.len() >= 1 && data@.len() == 0 ==> r == Err::<Token2022, ProgramError>(
                ProgramError::AccountDataTooSmall,
            ),
            accounts@.len() >= 1 && data@.len() > 0 && data@[0] > 18 ==> r == Err::<
                Token2022,
                ProgramError,
            >(ProgramError::InvalidInstructionData),
            accounts@.len() >= 1 && data@.len() > 0 && data@[0] <= 18 ==> r is Ok && {
                let s = r.unwrap();
                &&& acct_like(s.owner, accounts@[0])
                &&& s.decimals == data@[0]
                &&& s.name@ == "token_name"@
                &&& s.symbol@ == "token_symbol"@
                &&& s.uri@ == "token_uri"@
            },
    {
        if accounts.len() < 1 {
            return Err(ProgramError::NotEnoughAccountKeys);
        }
        let owner = accounts[0].clone();
        if data.len() == 0 {
            return Err(ProgramError::AccountDataTooSmall);
        }
        let decimals = data[0];
        if decimals > 18 {
            return Err(ProgramError::InvalidInstructionData);
        }
        Ok(Token2022 {
            owner,
            name: String::from_str("token_name"),
            symbol: String::from_str("token_symbol"),
            uri: String::from_str("token_uri"),
            decimals,
        })
    }

    /// Commit phase: the owner must have signed and each metadata string's
    /// byte length must lie within `[3, 20]`. No state moves.
    pub fn process(&self) -> (r: Result<(), ProgramError>)
        ensures
            !self.owner.is_signer ==> r == Err::<(), ProgramError>(err_of(Ee::NotSigner)),
            r is Ok <==> {
                &&& self.owner.is_signer
                &&& 3 <= encode_utf8(self.name@).len() <= 20
                &&& 3 <= encode_utf8(self.symbol@).len() <= 20
                &&& 3 <= encode_utf8(self.uri@).len() <= 20
            },
    {
        check_signer(&self.owner)?;
        check_str_len(self.name.as_str(), 3, 20)?;
        check_str_len(self.symbol.as_str(), 3, 20)?;
        check_str_len(self.uri.as_str(), 3, 20)?;
        Ok(())
    }
}

/// What routing this opcode must produce: success exactly when the request
/// parses and the fixed metadata passes the bounds under a signing owner;
/// nothing is ever mutated.
pub open spec fn token2022_routed(
    payload: Seq<u8>,
    pre: Seq<Account>,
    post: Seq<Account>,
    ok: bool,
) -> bool {
    &&& (ok <==> {
        &&& pre.len() >= 1
        &&& payload.len() > 0
        &&& payload[0] <= 18
        &&& pre[0].is_signer
        &&& 3 <= encode_utf8("token_name"@).len() <= 20
        &&& 3 <= encode_utf8("token_symbol"@).len() <= 20
        &&& 3 <= encode_utf8("token_uri"@).len() <= 20
    })
    &&& post == pre
}

} // verus!
