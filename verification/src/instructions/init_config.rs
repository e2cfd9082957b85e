//! Initialize the administrative config account: derive its address from the
//! owning identity, create it rent-funded at that address, and persist the
//! authority, fee and bump. Fails if the address is already funded.

use vstd::prelude::*;

use crate::account::{acct_like, Account};
use crate::cpi::{create_account_signed, same_but_lamports};
use crate::errors::{err_of, Ee, ProgramError};
use crate::instructions::{derive_fails, derives_key, derives_key_with_bump};
use crate::pda::seeds2;
use crate::rent::{rent_fits, spec_minimum_balance, Rent};
use crate::state::{lemma_config_bytes_fields, spec_config_bytes, Config, StatusEnum, CONFIG_LEN};
use crate::validate::{check_signer, empty_lamport};
use crate::{CONFIG_SEED, ID, SYSTEM_PROGRAM_ID};

verus! {

broadcast use vstd::array::group_array_axioms;

/// The typed, pre-checked request to initialize the config account.
pub struct InitConfig {
    /// The fee payer; must have signed.
    pub authority: Account,
    /// The slot the config record will live in.
    pub config_pda: Account,
    /// The identity the config address is derived from and whose key becomes
    /// the record's authority.
    pub original_owner: Account,
    /// The system program.
    pub system_program: Account,
    /// The fee policy value to persist.
    pub fee: u64,
}

/// The persisted form of a freshly initialized config record: the owning
/// identity as authority, the fee, the derivation bump, and everything else
/// zero.
pub open spec fn spec_init_config_bytes(owner_key: Seq<u8>, fee: u64, bump: u8) -> Seq<u8> {
    owner_key + Seq::<u8>::new(32, |i: int| 0u8) + vstd::bytes::spec_u64_to_le_bytes(fee)
        + vstd::bytes::spec_u64_to_le_bytes(0u64) + vstd::bytes::spec_u64_to_le_bytes(0u64) + seq![
        0u8,
    ] + seq![bump]
}

impl InitConfig {
    /// The opcode this handler is routed under.
    pub const DISCRIMINATOR: u8 = 12;

    /// Validation and parse phase: exactly four accounts and an 8-byte
    /// non-zero little-endian fee.
    pub fn try_from(data: &[u8], accounts: &Vec<Account>) -> (r: Result<InitConfig, ProgramError>)
        ensures
            accounts@.len() != 4 ==> r == Err::<InitConfig, ProgramError>(
                ProgramError::NotEnoughAccountKeys,
            ),
            accounts@.len() == 4 && data@.len() != 8 ==> r == Err::<InitConfig, ProgramError>(
                err_of(Ee::U64ByteSizeInvalid),
            ),
            accounts@.len() == 4 && data@.len() == 8 && vstd::bytes::spec_u64_from_le_bytes(data@)
                == 0 ==> r == Err::<InitConfig, ProgramError>(err_of(Ee::ZeroAsInput)),
            accounts@.len() == 4 && data@.len() == 8 && vstd::bytes::spec_u64_from_le_bytes(data@)
                != 0 ==> r is Ok && {
                let s = r.unwrap();
                &&& acct_like(s.authority, accounts@[0])
                &&& acct_like(s.config_pda, accounts@[1])
                &&& acct_like(s.original_owner, accounts@[2])
                &&& acct_like(s.system_program, accounts@[3])
                &&& s.fee == vstd::bytes::spec_u64_from_le_bytes(data@)
            },
    {
        if accounts.len() != 4 {
            return Err(ProgramError::NotEnoughAccountKeys);
        }
        let fee = crate::validate::parse_u64(data)?;
        Ok(InitConfig {
            authority: accounts[0].clone(),
            config_pda: accounts[1].clone(),
            original_owner: accounts[2].clone(),
            system_program: accounts[3].clone(),
            fee,
        })
    }

    /// Commit phase: verify the derived address, create the account
    /// rent-funded, and persist the record. All-or-nothing: any failure
    /// leaves the request untouched.
    pub fn process(&mut self, rent: &Rent) -> (r: Result<(), ProgramError>)
        ensures
            r is Err ==> *final(self) == *old(self),
            !old(self).authority.is_signer ==> r == Err::<(), ProgramError>(err_of(Ee::NotSigner)),
            old(self).authority.is_signer && old(self).config_pda.lamports != 0 ==> r == Err::<
                (),
                ProgramError,
            >(ProgramError::AccountAlreadyInitialized),
            old(self).authority.is_signer && old(self).config_pda.lamports == 0 && !rent_fits(
                *rent,
                90,
            ) ==> r == Err::<(), ProgramError>(err_of(Ee::MathOverflow)),
            old(self).authority.is_signer && old(self).config_pda.lamports == 0 && rent_fits(
                *rent,
                90,
            ) && derive_fails(seeds2(CONFIG_SEED@, old(self).original_owner.key@)) ==> r == Err::<
                (),
                ProgramError,
            >(ProgramError::InvalidSeeds),
            old(self).authority.is_signer && old(self).config_pda.lamports == 0 && rent_fits(
                *rent,
                90,
            ) && !derive_fails(seeds2(CONFIG_SEED@, old(self).original_owner.key@)) && !derives_key(
                seeds2(CONFIG_SEED@, old(self).original_owner.key@),
                old(self).config_pda.key@,
            ) ==> r == Err::<(), ProgramError>(err_of(Ee::ConfigPDA)),
            r is Ok <==> {
                &&& old(self).authority.is_signer
                &&& old(self).config_pda.lamports == 0
                &&& rent_fits(*rent, 90)
                &&& derives_key(
                    seeds2(CONFIG_SEED@, old(self).original_owner.key@),
                    old(self).config_pda.key@,
                )
                &&& old(self).config_pda.data@.len() == 0
                &&& old(self).config_pda.owner@ == SYSTEM_PROGRAM_ID@
                &&& old(self).authority.lamports >= spec_minimum_balance(*rent, 90)
            },
            r is Ok ==> {
                &&& exists|b: u8|
                    #[trigger] derives_key_with_bump(
                        seeds2(CONFIG_SEED@, old(self).original_owner.key@),
                        old(self).config_pda.key@,
                        b,
                    ) && final(self).config_pda.data@ == spec_init_config_bytes(
                        old(self).original_owner.key@,
                        old(self).fee,
                        b,
                    )
                &&& final(self).config_pda.key == old(self).config_pda.key
                &&& final(self).config_pda.owner@ == ID@
                &&& final(self).config_pda.lamports == spec_minimum_balance(*rent, 90)
                &&& same_but_lamports(
                    old(self).authority,
                    final(self).authority,
                    (old(self).authority.lamports - spec_minimum_balance(*rent, 90)) as u64,
                )
                &&& acct_like(final(self).original_owner, old(self).original_owner)
                &&& acct_like(final(self).system_program, old(self).system_program)
                &&& final(self).fee == old(self).fee
            },
    {
        check_signer(&self.authority)?;
        empty_lamport(&self.config_pda)?;
        let lamports = rent.minimum_balance(CONFIG_LEN)?;
        let ghost seeds = seeds2(CONFIG_SEED@, self.original_owner.key@);
        let derived = crate::pda::derive_pda1(&self.original_owner.key, CONFIG_SEED.as_slice())?;
        let (expected_config_pda, bump) = derived;
        proof {
            assert(derives_key_with_bump(seeds, expected_config_pda@, bump));
        }
        if !crate::key_eq(&expected_config_pda, &self.config_pda.key) {
            proof {
                assert forall|b0: u8| crate::pda::is_first_bump(seeds, ID@, b0) implies b0
                    == bump by {
                    crate::pda::lemma_first_bump_unique(seeds, ID@, b0, bump);
                }
                assert(!derives_key(seeds, self.config_pda.key@));
            }
            return Ee::ConfigPDA.e();
        }
        let seed_vec = crate::pda::seeds_owner(CONFIG_SEED.as_slice(), &self.original_owner.key);
        create_account_signed(
            &mut self.authority,
            &mut self.config_pda,
            lamports,
            CONFIG_LEN,
            &ID,
            &seed_vec,
            bump,
        )?;
        let record = Config {
            authority: self.original_owner.key,
            str_u8array: [0; 32],
            fee: self.fee,
            sol_balance: 0,
            token_balance: 0,
            status: StatusEnum::Waiting,
            bump,
        };
        record.store(&mut self.config_pda);
        proof {
            lemma_config_bytes_fields(record);
            assert(spec_config_bytes(record) =~= spec_init_config_bytes(
                old(self).original_owner.key@,
                old(self).fee,
                bump,
            ));
        }
        Ok(())
    }
}

/// What routing this opcode must produce: success exactly when the fee
/// parses non-zero and the signing payer can fund a fresh config slot at
/// the owner-derived address; on success the record is persisted there.
pub open spec fn init_config_routed(
    payload: Seq<u8>,
    pre: Seq<Account>,
    post: Seq<Account>,
    ok: bool,
    rent: Rent,
) -> bool {
    let fee = vstd::bytes::spec_u64_from_le_bytes(payload);
    &&& (ok <==> {
        &&& pre.len() == 4
        &&& payload.len() == 8
        &&& fee != 0
        &&& pre[0].is_signer
        &&& pre[1].lamports == 0
        &&& rent_fits(rent, 90)
        &&& derives_key(seeds2(CONFIG_SEED@, pre[2].key@), pre[1].key@)
        &&& pre[1].data@.len() == 0
        &&& pre[1].owner@ == SYSTEM_PROGRAM_ID@
        &&& pre[0].lamports >= spec_minimum_balance(rent, 90)
    })
    &&& (ok ==> {
        &&& post.len() == 4
        &&& exists|b: u8|
            #[trigger] derives_key_with_bump(seeds2(CONFIG_SEED@, pre[2].key@), pre[1].key@, b)
                && post[1].data@ == spec_init_config_bytes(pre[2].key@, fee, b)
        &&& post[1].key == pre[1].key
        &&& post[1].owner@ == ID@
        &&& post[1].lamports == spec_minimum_balance(rent, 90)
        &&& crate::account::acct_like_but_lamports(
            pre[0],
            post[0],
            (pre[0].lamports - spec_minimum_balance(rent, 90)) as u64,
        )
        &&& acct_like(post[2], pre[2])
        &&& acct_like(post[3], pre[3])
    })
}

} // verus!
