//! Create a token-holding account slot for the extended token module: the
//! payer funds a fresh account of the base record size, owned by the token
//! module, which is then left for the module to initialize.

use vstd::prelude::*;

use crate::account::{acct_like, Account};
use crate::cpi::{create_account, created_account, is_fresh, same_but_lamports};
use crate::errors::{err_of, Ee, ProgramError};
use crate::rent::{rent_fits, spec_minimum_balance, Rent};
use crate::token::TOKEN_ACCOUNT_LEN;
use crate::validate::{check_signer, empty_lamport, rent_exempt, writable};

verus! {

/// The typed, pre-checked request to create an extended token account.
pub struct Token2022InitTokAcct {
    /// The fee payer; must have signed.
    pub payer: Account,
    /// The wallet the new token account will hold for.
    pub tok_acc_owner: Account,
    /// The asset's mint.
    pub mint: Account,
    /// The slot the token account will live in; must also have signed.
    pub token_account: Account,
    /// The token module that will own the new account.
    pub token_program: Account,
}

impl Token2022InitTokAcct {
    /// The opcode this handler is routed under.
    pub const DISCRIMINATOR: u8 = 4;

    /// Validation and parse phase: exactly six accounts and a non-empty
    /// payload.
    pub fn try_from(data: &[u8], accounts: &Vec<Account>) -> (r: Result<
        Token2022InitTokAcct,
        ProgramError,
    >)
        ensures
            accounts@.len() != 6 ==> r == Err::<Token2022InitTokAcct, ProgramError>(
                ProgramError::NotEnoughAccountKeys,
            ),
            accounts@.len() == 6 && data@.len() < 1 ==> r == Err::<
                Token2022InitTokAcct,
                ProgramError,
            >(ProgramError::AccountDataTooSmall),
            accounts@.len() == 6 && data@.len() >= 1 ==> r is Ok && {
                let s = r.unwrap();
                &&& acct_like(s.payer, accounts@[0])
                &&& acct_like(s.tok_acc_owner, accounts@[1])
                &&& acct_like(s.mint, accounts@[2])
                &&& acct_like(s.token_account, accounts@[3])
                &&& acct_like(s.token_program, accounts@[4])
            },
    {
        if accounts.len() != 6 {
            return Err(ProgramError::NotEnoughAccountKeys);
        }
        if data.len() < 1 {
            return Err(ProgramError::AccountDataTooSmall);
        }
        Ok(Token2022InitTokAcct {
            payer: accounts[0].clone(),
            tok_acc_owner: accounts[1].clone(),
            mint: accounts[2].clone(),
            token_account: accounts[3].clone(),
            token_program: accounts[4].clone(),
        })
    }

    /// Commit phase: the payer funds a fresh, writable token-account slot
    /// of the base record size, owned by the declared token module.
    pub fn process(&mut self, rent: &Rent) -> (r: Result<(), ProgramError>)
        ensures
            r is Err ==> *final(self) == *old(self),
            !old(self).payer.is_signer ==> r == Err::<(), ProgramError>(err_of(Ee::NotSigner)),
            old(self).payer.is_signer && old(self).token_account.lamports != 0 ==> r == Err::<
                (),
                ProgramError,
            >(ProgramError::AccountAlreadyInitialized),
            r is Ok <==> {
                &&& old(self).payer.is_signer
                &&& old(self).token_account.lamports == 0
                &&& rent_fits(*rent, 82)
                &&& old(self).mint.lamports >= spec_minimum_balance(*rent, 82)
                &&& rent_fits(*rent, 165)
                &&& old(self).token_account.is_writable
                &&& old(self).token_account.is_signer
                &&& is_fresh(old(self).token_account)
                &&& old(self).payer.lamports >= spec_minimum_balance(*rent, 165)
            },
            r is Ok ==> {
                &&& same_but_lamports(
                    old(self).payer,
                    final(self).payer,
                    (old(self).payer.lamports - spec_minimum_balance(*rent, 165)) as u64,
                )
                &&& created_account(
                    old(self).token_account,
                    final(self).token_account,
                    spec_minimum_balance(*rent, 165) as u64,
                    165,
                    old(self).token_program.key@,
                )
                &&& acct_like(final(self).tok_acc_owner, old(self).tok_acc_owner)
                &&& acct_like(final(self).mint, old(self).mint)
                &&& acct_like(final(self).token_program, old(self).token_program)
            },
    {
        check_signer(&self.payer)?;
        empty_lamport(&self.token_account)?;
        rent_exempt(&self.mint, 0, rent)?;
        let lamports = rent.minimum_balance(TOKEN_ACCOUNT_LEN)?;
        writable(&self.token_account)?;
        let owner_key = self.token_program.key;
        create_account(
            &mut self.payer,
            &mut self.token_account,
            lamports,
            TOKEN_ACCOUNT_LEN,
            &owner_key,
        )?;
        Ok(())
    }

    /// Create the token account only when its slot is still unfunded; an
    /// already funded slot is left alone, so a second call after a
    /// successful one changes nothing.
    pub fn init_if_needed(&mut self, rent: &Rent) -> (r: Result<(), ProgramError>)
        ensures
            old(self).token_account.lamports != 0 ==> r is Ok && *final(self) == *old(self),
            r is Err ==> *final(self) == *old(self),
            old(self).token_account.lamports == 0 ==> (r is Ok <==> {
                &&& old(self).payer.is_signer
                &&& rent_fits(*rent, 82)
                &&& old(self).mint.lamports >= spec_minimum_balance(*rent, 82)
                &&& rent_fits(*rent, 165)
                &&& old(self).token_account.is_writable
                &&& old(self).token_account.is_signer
                &&& is_fresh(old(self).token_account)
                &&& old(self).payer.lamports >= spec_minimum_balance(*rent, 165)
            }),
            old(self).token_account.lamports == 0 && r is Ok ==> {
                &&& same_but_lamports(
                    old(self).payer,
                    final(self).payer,
                    (old(self).payer.lamports - spec_minimum_balance(*rent, 165)) as u64,
                )
                &&& created_account(
                    old(self).token_account,
                    final(self).token_account,
                    spec_minimum_balance(*rent, 165) as u64,
                    165,
                    old(self).token_program.key@,
                )
                &&& acct_like(final(self).tok_acc_owner, old(self).tok_acc_owner)
                &&& acct_like(final(self).mint, old(self).mint)
                &&& acct_like(final(self).token_program, old(self).token_program)
            },
    {
        let probe = empty_lamport(&self.token_account);
        match probe {
            Ok(_) => self.process(rent),
            Err(_) => Ok(()),
        }
    }
}

/// What routing this opcode must produce: success exactly when the payer
/// signs, the mint is rent-exempt, and the signing, writable slot is fresh
/// and fundable; on success the payer funds a base-size account owned by
/// the declared token module.
pub open spec fn tok22_init_routed(
    payload: Seq<u8>,
    pre: Seq<Account>,
    post: Seq<Account>,
    ok: bool,
    rent: Rent,
) -> bool {
    &&& (ok <==> {
        &&& pre.len() == 6
        &&& payload.len() >= 1
        &&& pre[0].is_signer
        &&& rent_fits(rent, 82)
        &&& pre[2].lamports >= spec_minimum_balance(rent, 82)
        &&& rent_fits(rent, 165)
        &&& pre[3].is_writable
        &&& pre[3].is_signer
        &&& is_fresh(pre[3])
        &&& pre[0].lamports >= spec_minimum_balance(rent, 165)
    })
    &&& (ok ==> {
        &&& post.len() == 6
        &&& crate::account::acct_like_but_lamports(
            pre[0],
            post[0],
            (pre[0].lamports - spec_minimum_balance(rent, 165)) as u64,
        )
        &&& created_account(
            pre[3],
            post[3],
            spec_minimum_balance(rent, 165) as u64,
            165,
            pre[4].key@,
        )
        &&& acct_like(post[1], pre[1])
        &&& acct_like(post[2], pre[2])
        &&& acct_like(post[4], pre[4])
        &&& post[5] == pre[5]
    })
}

} // verus!
