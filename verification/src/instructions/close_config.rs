//! Close the administrative config account: only the recorded authority may
//! do it. The record is tombstoned (first byte set, size collapsed to one
//! byte), the whole balance is swept to the destination, and the account is
//! released back to the system program.

use vstd::prelude::*;

use crate::account::{acct_like, Account};
use crate::cpi::same_but_lamports;
use crate::errors::{err_of, Ee, ProgramError};
use crate::state::{lemma_config_bytes_fields, Config};
use crate::validate::{check_signer, writable};
use crate::{ID, SYSTEM_PROGRAM_ID};

verus! {

broadcast use vstd::array::group_array_axioms;

/// The typed, pre-checked request to close the config account.
pub struct CloseConfigPda {
    /// Must have signed and match the record's stored authority.
    pub authority: Account,
    /// The config account being closed.
    pub config_pda: Account,
    /// Where the swept balance goes.
    pub dest: Account,
}

impl CloseConfigPda {
    /// The opcode this handler is routed under.
    pub const DISCRIMINATOR: u8 = 14;

    /// Validation and parse phase: exactly three accounts, no payload.
    pub fn try_from(_data: &[u8], accounts: &Vec<Account>) -> (r: Result<
        CloseConfigPda,
        ProgramError,
    >)
        ensures
            accounts@.len() != 3 ==> r == Err::<CloseConfigPda, ProgramError>(
                ProgramError::NotEnoughAccountKeys,
            ),
            accounts@.len() == 3 ==> r is Ok && {
                let s = r.unwrap();
                &&& acct_like(s.authority, accounts@[0])
                &&& acct_like(s.config_pda, accounts@[1])
                &&& acct_like(s.dest, accounts@[2])
            },
    {
        if accounts.len() != 3 {
            return Err(ProgramError::NotEnoughAccountKeys);
        }
        Ok(CloseConfigPda {
            authority: accounts[0].clone(),
            config_pda: accounts[1].clone(),
            dest: accounts[2].clone(),
        })
    }

    /// Commit phase: authority gating first, then tombstone, sweep and
    /// release. Any signer other than the recorded authority fails with an
    /// authority error and the config account is untouched.
    pub fn process(&mut self) -> (r: Result<(), ProgramError>)
        ensures
            r is Err ==> *final(self) == *old(self),
            !old(self).authority.is_signer ==> r == Err::<(), ProgramError>(err_of(Ee::NotSigner)),
            old(self).authority.is_signer && !old(self).config_pda.is_writable ==> r == Err::<
                (),
                ProgramError,
            >(err_of(Ee::NotWritable)),
            old(self).authority.is_signer && old(self).config_pda.is_writable && old(
                self,
            ).config_pda.data@.len() != 90 ==> r == Err::<(), ProgramError>(
                err_of(Ee::ConfigDataLengh),
            ),
            old(self).authority.is_signer && old(self).config_pda.is_writable && old(
                self,
            ).config_pda.data@.len() == 90 && old(self).config_pda.owner@ != ID@ ==> r == Err::<
                (),
                ProgramError,
            >(err_of(Ee::ForeignPDA)),
            old(self).authority.is_signer && old(self).config_pda.is_writable && old(
                self,
            ).config_pda.data@.len() == 90 && old(self).config_pda.owner@ == ID@ && old(
                self,
            ).config_pda.data@[88] <= 4 && old(self).config_pda.data@.subrange(0, 32) != old(
                self,
            ).authority.key@ ==> r == Err::<(), ProgramError>(ProgramError::IncorrectAuthority),
            r is Ok <==> {
                &&& old(self).authority.is_signer
                &&& old(self).config_pda.is_writable
                &&& old(self).config_pda.data@.len() == 90
                &&& old(self).config_pda.owner@ == ID@
                &&& old(self).config_pda.data@[88] <= 4
                &&& old(self).config_pda.data@.subrange(0, 32) == old(self).authority.key@
                &&& old(self).dest.lamports + old(self).config_pda.lamports <= u64::MAX
            },
            r is Ok ==> {
                &&& final(self).config_pda.key == old(self).config_pda.key
                &&& final(self).config_pda.lamports == 0
                &&& final(self).config_pda.data@ == seq![255u8]
                &&& final(self).config_pda.owner@ == SYSTEM_PROGRAM_ID@
                &&& same_but_lamports(
                    old(self).dest,
                    final(self).dest,
                    (old(self).dest.lamports + old(self).config_pda.lamports) as u64,
                )
                &&& acct_like(final(self).authority, old(self).authority)
            },
    {
        check_signer(&self.authority)?;
        writable(&self.config_pda)?;
        let config = Config::load(&self.config_pda)?;
        proof {
            lemma_config_bytes_fields(config);
        }
        if !crate::key_eq(&config.authority, &self.authority.key) {
            return Err(ProgramError::IncorrectAuthority);
        }
        let swept = match self.dest.lamports.checked_add(self.config_pda.lamports) {
            Some(v) => v,
            None => {
                return Err(ProgramError::ArithmeticOverflow);
            },
        };
        self.dest.lamports = swept;
        self.config_pda.lamports = 0;
        let mut tombstone: Vec<u8> = Vec::new();
        tombstone.push(255);
        self.config_pda.data = tombstone;
        self.config_pda.owner = SYSTEM_PROGRAM_ID;
        proof {
            assert(self.config_pda.data@ =~= seq![255u8]);
        }
        Ok(())
    }
}

/// What routing this opcode must produce: success exactly when the
/// recorded authority signs against a writable, decodable config record
/// with sweep headroom; on success the record is tombstoned and released
/// and the balance swept to the destination.
pub open spec fn close_config_routed(
    pre: Seq<Account>,
    post: Seq<Account>,
    ok: bool,
) -> bool {
    &&& (ok <==> {
        &&& pre.len() == 3
        &&& pre[0].is_signer
        &&& pre[1].is_writable
        &&& pre[1].data@.len() == 90
        &&& pre[1].owner@ == ID@
        &&& pre[1].data@[88] <= 4
        &&& pre[1].data@.subrange(0, 32) == pre[0].key@
        &&& pre[2].lamports + pre[1].lamports <= u64::MAX
    })
    &&& (ok ==> {
        &&& post.len() == 3
        &&& acct_like(post[0], pre[0])
        &&& post[1].key == pre[1].key
        &&& post[1].lamports == 0
        &&& post[1].data@ == seq![255u8]
        &&& post[1].owner@ == SYSTEM_PROGRAM_ID@
        &&& crate::account::acct_like_but_lamports(
            pre[2],
            post[2],
            (pre[2].lamports + pre[1].lamports) as u64,
        )
    })
}

} // verus!
