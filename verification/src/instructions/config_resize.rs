//! Reallocate the config account to a new non-zero size, signed by its own
//! derived address with the bump read from the persisted record. The
//! validation phase loads the record; the commit phase issues the signed
//! allocate.

use vstd::prelude::*;

use crate::account::{acct_like, Account};
use crate::cpi::{allocate_signed, resized_data};
use crate::errors::{err_of, Ee, ProgramError};
use crate::pda::{pda_of, with_bump};
use crate::state::{lemma_config_bytes_fields, Config};
use crate::validate::{check_pda, check_signer, data_len, none_zero_u64, parse_u64, writable};
use crate::{CONFIG_SEED, ID};

verus! {

broadcast use vstd::array::group_array_axioms;

/// The typed, pre-checked request to resize the config account.
pub struct ConfigResize {
    /// The caller; must have signed.
    pub authority: Account,
    /// The config account being resized.
    pub config_pda: Account,
    /// The identity the config address was derived from.
    pub first_prog_owner: Account,
    /// The system program.
    pub system_program: Account,
    /// The requested new size in bytes.
    pub new_size: u64,
    /// The bump read from the persisted record.
    pub bump: u8,
}

/// The whole validation phase in one predicate: an 8-byte non-zero size, a
/// signing caller, and a writable, funded, program-owned config account
/// whose record decodes.
pub open spec fn resize_valid(data: Seq<u8>, accounts: Seq<Account>) -> bool {
    &&& data.len() == 8
    &&& accounts.len() == 4
    &&& accounts[0].is_signer
    &&& accounts[1].is_writable
    &&& accounts[1].lamports > 0
    &&& accounts[1].owner@ == ID@
    &&& accounts[1].data@.len() == 90
    &&& accounts[1].data@[88] <= 4
    &&& vstd::bytes::spec_u64_from_le_bytes(data) != 0
}

impl ConfigResize {
    /// The opcode this handler is routed under.
    pub const DISCRIMINATOR: u8 = 19;

    /// Validation and parse phase: an 8-byte non-zero size, four accounts,
    /// a signing caller, a writable, funded, program-owned config account
    /// whose record decodes; the authoritative bump comes from the record.
    pub fn try_from(data: &[u8], accounts: &Vec<Account>) -> (r: Result<ConfigResize, ProgramError>)
        ensures
            data@.len() < 8 ==> r == Err::<ConfigResize, ProgramError>(
                err_of(Ee::InputDataUnderMin),
            ),
            data@.len() > 8 ==> r == Err::<ConfigResize, ProgramError>(
                err_of(Ee::InputDataOverMax),
            ),
            data@.len() == 8 && accounts@.len() != 4 ==> r == Err::<ConfigResize, ProgramError>(
                ProgramError::NotEnoughAccountKeys,
            ),
            data@.len() == 8 && accounts@.len() == 4 && !accounts@[0].is_signer ==> r == Err::<
                ConfigResize,
                ProgramError,
            >(err_of(Ee::NotSigner)),
            data@.len() == 8 && accounts@.len() == 4 && accounts@[0].is_signer
                && !accounts@[1].is_writable ==> r == Err::<ConfigResize, ProgramError>(
                err_of(Ee::NotWritable),
            ),
            data@.len() == 8 && accounts@.len() == 4 && accounts@[0].is_signer
                && accounts@[1].is_writable && accounts@[1].lamports == 0 ==> r == Err::<
                ConfigResize,
                ProgramError,
            >(err_of(Ee::PdaNotInitialized)),
            r is Ok <==> resize_valid(data@, accounts@),
            r is Ok ==> {
                let s = r.unwrap();
                &&& data@.len() == 8
                &&& accounts@.len() == 4
                &&& acct_like(s.authority, accounts@[0])
                &&& acct_like(s.config_pda, accounts@[1])
                &&& acct_like(s.first_prog_owner, accounts@[2])
                &&& acct_like(s.system_program, accounts@[3])
                &&& s.authority.is_signer
                &&& s.config_pda.is_writable
                &&& s.config_pda.lamports > 0
                &&& s.config_pda.owner@ == ID@
                &&& s.config_pda.data@.len() == 90
                &&& s.new_size == vstd::bytes::spec_u64_from_le_bytes(data@)
                &&& s.new_size != 0
                &&& s.bump == s.config_pda.data@[89]
            },
    {
        data_len(data, 8)?;
        if accounts.len() != 4 {
            return Err(ProgramError::NotEnoughAccountKeys);
        }
        let authority = accounts[0].clone();
        let config_pda = accounts[1].clone();
        let first_prog_owner = accounts[2].clone();
        let system_program = accounts[3].clone();
        check_signer(&authority)?;
        writable(&config_pda)?;
        check_pda(&config_pda)?;
        let config = Config::load(&config_pda)?;
        proof {
            lemma_config_bytes_fields(config);
        }
        let new_size = parse_u64(data)?;
        let bump = config.bump;
        none_zero_u64(new_size)?;
        Ok(ConfigResize { authority, config_pda, first_prog_owner, system_program, new_size, bump })
    }

    /// Commit phase: issue the allocate, signed with the persisted bump
    /// under the original owner's derivation seeds.
    pub fn process(&mut self) -> (r: Result<(), ProgramError>)
        ensures
            r is Err ==> *final(self) == *old(self),
            pda_of(
                with_bump(
                    crate::pda::seeds2(CONFIG_SEED@, old(self).first_prog_owner.key@),
                    old(self).bump,
                ),
                ID@,
            ) != Some(old(self).config_pda.key@) ==> r == Err::<(), ProgramError>(
                ProgramError::InvalidSeeds,
            ),
            r is Ok <==> pda_of(
                with_bump(
                    crate::pda::seeds2(CONFIG_SEED@, old(self).first_prog_owner.key@),
                    old(self).bump,
                ),
                ID@,
            ) == Some(old(self).config_pda.key@) && old(self).new_size <= usize::MAX,
            r is Ok ==> {
                &&& final(self).config_pda.data@ == resized_data(
                    old(self).config_pda.data@,
                    old(self).new_size as nat,
                )
                &&& final(self).config_pda.key == old(self).config_pda.key
                &&& final(self).config_pda.lamports == old(self).config_pda.lamports
                &&& final(self).config_pda.owner == old(self).config_pda.owner
                &&& acct_like(final(self).authority, old(self).authority)
                &&& acct_like(final(self).first_prog_owner, old(self).first_prog_owner)
                &&& acct_like(final(self).system_program, old(self).system_program)
                &&& final(self).new_size == old(self).new_size
                &&& final(self).bump == old(self).bump
            },
    {
        let seeds = crate::pda::seeds_owner(CONFIG_SEED.as_slice(), &self.first_prog_owner.key);
        allocate_signed(&mut self.config_pda, self.new_size, &seeds, self.bump)?;
        Ok(())
    }
}

/// What routing this opcode must produce: success exactly when validation
/// passes and the record's stored bump derives the config's own address; on
/// success the record's data is brought to the new size, prefix kept and
/// growth zero-filled.
pub open spec fn resize_routed(
    payload: Seq<u8>,
    pre: Seq<Account>,
    post: Seq<Account>,
    ok: bool,
) -> bool {
    &&& (ok <==> {
        &&& resize_valid(payload, pre)
        &&& pda_of(
            with_bump(crate::pda::seeds2(CONFIG_SEED@, pre[2].key@), pre[1].data@[89]),
            ID@,
        ) == Some(pre[1].key@)
        &&& vstd::bytes::spec_u64_from_le_bytes(payload) <= usize::MAX
    })
    &&& (ok ==> {
        &&& post.len() == 4
        &&& acct_like(post[0], pre[0])
        &&& post[1].data@ == resized_data(
            pre[1].data@,
            vstd::bytes::spec_u64_from_le_bytes(payload) as nat,
        )
        &&& post[1].key == pre[1].key
        &&& post[1].lamports == pre[1].lamports
        &&& post[1].owner == pre[1].owner
        &&& acct_like(post[2], pre[2])
        &&& acct_like(post[3], pre[3])
    })
}

} // verus!
