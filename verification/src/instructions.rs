//! The instruction handlers, one module per opcode, plus the vault logic and
//! the dispatcher. Each handler is a two-phase object: `try_from` consumes
//! the raw payload and the declared account list and produces a typed,
//! pre-checked request; `process` performs the state transition over the
//! account model. A failed `process` leaves the request — and therefore the
//! modelled ledger — exactly as it was.

use vstd::prelude::*;

pub mod close_config;
pub mod config_resize;
pub mod escrow_tok_cancel;
pub mod escrow_tok_make;
pub mod escrow_tok_withdraw;
pub mod init_config;
pub mod tok_lgc_deposit;
pub mod tok_lgc_withdraw;
pub mod tok22_init_tok_acct;
pub mod token2022;

use crate::account::Account;
use crate::errors::ProgramError;
use crate::pda::{is_first_bump, pda_of, with_bump};
use crate::ID;

verus! {

broadcast use vstd::array::group_array_axioms;

/// The wire description of the vault instructions: the opcode concept plus
/// the payload fields each carries. The dispatcher routes on the
/// discriminator byte; the account order is part of the wire contract.
pub enum ProgramIx {
    /// Deposit native balance into the owner's vault.
    Deposit { amount: u64 },
    /// Withdraw the vault's whole native balance back to the owner.
    Withdraw {},
}

/// No bump at all derives an address for `seeds` under this program's id.
pub open spec fn derive_fails(seeds: Seq<Seq<u8>>) -> bool {
    forall|b: u8| 1 <= b ==> (#[trigger] pda_of(with_bump(seeds, b), ID@)) is None
}

/// The bump the search form settles on for `seeds` derives exactly `key`.
pub open spec fn derives_key(seeds: Seq<Seq<u8>>, key: Seq<u8>) -> bool {
    exists|b: u8|
        #[trigger] is_first_bump(seeds, ID@, b) && pda_of(with_bump(seeds, b), ID@) == Some(key)
}

/// The bump the search form settles on for `seeds`, together with the fact
/// that it derives `key`.
pub open spec fn derives_key_with_bump(seeds: Seq<Seq<u8>>, key: Seq<u8>, b: u8) -> bool {
    is_first_bump(seeds, ID@, b) && pda_of(with_bump(seeds, b), ID@) == Some(key)
}

/// Parse a `u64` amount from instruction data: exactly 8 little-endian
/// bytes, non-zero.
pub fn parse_amount(data: &[u8]) -> (r: Result<u64, ProgramError>)
    ensures
        data@.len() != 8 ==> r == Err::<u64, ProgramError>(
            crate::errors::err_of(crate::errors::Ee::U64ByteSizeInvalid),
        ),
        data@.len() == 8 && vstd::bytes::spec_u64_from_le_bytes(data@) == 0 ==> r == Err::<
            u64,
            ProgramError,
        >(crate::errors::err_of(crate::errors::Ee::ZeroAsInput)),
        data@.len() == 8 && vstd::bytes::spec_u64_from_le_bytes(data@) != 0 ==> r == Ok::<
            u64,
            ProgramError,
        >(vstd::bytes::spec_u64_from_le_bytes(data@)),
{
    crate::validate::parse_u64(data)
}

/// Derive the vault address for an owner: search form over
/// `["vault", owner]`.
pub fn derive_vault(owner: &Account) -> (r: Result<(crate::Pubkey, u8), ProgramError>)
    ensures
        r is Ok ==> derives_key_with_bump(
            crate::pda::seeds2(crate::VAULT_SEED@, owner.key@),
            r.unwrap().0@,
            r.unwrap().1,
        ),
        r is Err ==> r == Err::<(crate::Pubkey, u8), ProgramError>(ProgramError::InvalidSeeds)
            && derive_fails(crate::pda::seeds2(crate::VAULT_SEED@, owner.key@)),
{
    crate::pda::derive_pda1(&owner.key, crate::VAULT_SEED.as_slice())
}

/// Byte size of a vault account: an 8-byte discriminator slot plus an
/// 8-byte counter.
pub const VAULT_SIZE: usize = 16;

/// Whether creating the owner's vault would go through: the vault address
/// derives from the owner, the slot is untouched, the rent arithmetic fits,
/// and the owner can fund the minimum.
pub open spec fn vault_creatable(owner: Account, vault: Account, rent: crate::rent::Rent) -> bool {
    &&& crate::rent::rent_fits(rent, 16)
    &&& derives_key(crate::pda::seeds2(crate::VAULT_SEED@, owner.key@), vault.key@)
    &&& vault.data@.len() == 0
    &&& vault.owner@ == crate::SYSTEM_PROGRAM_ID@
    &&& owner.lamports >= crate::rent::spec_minimum_balance(rent, 16)
}

/// Ensure the owner's vault exists: create it rent-funded at its derived
/// address when the slot is empty, otherwise verify it is program-owned.
pub fn ensure_vault_exists(owner: &mut Account, vault: &mut Account, rent: &crate::rent::Rent)
    -> (r: Result<(), ProgramError>)
    ensures
        r is Err ==> *final(owner) == *old(owner) && *final(vault) == *old(vault),
        !old(owner).is_signer ==> r == Err::<(), ProgramError>(
            crate::errors::err_of(crate::errors::Ee::NotSigner),
        ),
        old(owner).is_signer && old(vault).lamports != 0 && old(vault).owner@ != ID@ ==> r
            == Err::<(), ProgramError>(ProgramError::InvalidAccountOwner),
        r is Ok <==> old(owner).is_signer && (if old(vault).lamports != 0 {
            old(vault).owner@ == ID@
        } else {
            vault_creatable(*old(owner), *old(vault), *rent)
        }),
        r is Ok && old(vault).lamports != 0 ==> *final(owner) == *old(owner) && *final(vault)
            == *old(vault),
        r is Ok && old(vault).lamports == 0 ==> {
            &&& crate::cpi::same_but_lamports(
                *old(owner),
                *final(owner),
                (old(owner).lamports - crate::rent::spec_minimum_balance(*rent, 16)) as u64,
            )
            &&& crate::cpi::created_account(
                *old(vault),
                *final(vault),
                crate::rent::spec_minimum_balance(*rent, 16) as u64,
                16,
                ID@,
            )
        },
{
    if !owner.is_signer {
        return crate::errors::Ee::NotSigner.e();
    }
    if vault.lamports == 0 {
        let ghost seeds = crate::pda::seeds2(crate::VAULT_SEED@, owner.key@);
        let derived = derive_vault(owner)?;
        let (pda, bump) = derived;
        if !crate::key_eq(&pda, &vault.key) {
            proof {
                assert forall|b0: u8| crate::pda::is_first_bump(seeds, ID@, b0) implies b0
                    == bump by {
                    crate::pda::lemma_first_bump_unique(seeds, ID@, b0, bump);
                }
                assert(!derives_key(seeds, vault.key@));
            }
            return Err(ProgramError::InvalidSeeds);
        }
        let needed_lamports = rent.minimum_balance(VAULT_SIZE)?;
        let seed_vec = crate::pda::seeds_owner(crate::VAULT_SEED.as_slice(), &owner.key);
        crate::cpi::create_account_signed(
            owner,
            vault,
            needed_lamports,
            VAULT_SIZE,
            &ID,
            &seed_vec,
            bump,
        )?;
        Ok(())
    } else {
        if !vault.is_owned_by(&ID) {
            return Err(ProgramError::InvalidAccountOwner);
        }
        Ok(())
    }
}

/// The typed, pre-checked request to deposit native balance into the vault.
pub struct Deposit {
    /// Vault owner and payer; must have signed.
    pub owner: Account,
    /// The owner's vault slot.
    pub vault: Account,
    /// This program's own account.
    pub program: Account,
    /// The system program.
    pub system_program: Account,
    /// How much to deposit; non-zero.
    pub amount: u64,
}

impl Deposit {
    /// The opcode this handler is routed under.
    pub const DISCRIMINATOR: u8 = 0;

    /// Validation and parse phase: four accounts and an 8-byte non-zero
    /// little-endian amount.
    pub fn try_from(data: &[u8], accounts: &Vec<Account>) -> (r: Result<Deposit, ProgramError>)
        ensures
            accounts@.len() != 4 ==> r == Err::<Deposit, ProgramError>(
                ProgramError::NotEnoughAccountKeys,
            ),
            accounts@.len() == 4 && data@.len() != 8 ==> r == Err::<Deposit, ProgramError>(
                crate::errors::err_of(crate::errors::Ee::U64ByteSizeInvalid),
            ),
            accounts@.len() == 4 && data@.len() == 8 && vstd::bytes::spec_u64_from_le_bytes(data@)
                == 0 ==> r == Err::<Deposit, ProgramError>(
                crate::errors::err_of(crate::errors::Ee::ZeroAsInput),
            ),
            accounts@.len() == 4 && data@.len() == 8 && vstd::bytes::spec_u64_from_le_bytes(data@)
                != 0 ==> r is Ok && {
                let s = r.unwrap();
                &&& crate::account::acct_like(s.owner, accounts@[0])
                &&& crate::account::acct_like(s.vault, accounts@[1])
                &&& crate::account::acct_like(s.program, accounts@[2])
                &&& crate::account::acct_like(s.system_program, accounts@[3])
                &&& s.amount == vstd::bytes::spec_u64_from_le_bytes(data@)
                &&& s.amount != 0
            },
    {
        if accounts.len() != 4 {
            return Err(ProgramError::NotEnoughAccountKeys);
        }
        let amount = parse_amount(data)?;
        Ok(Deposit {
            owner: accounts[0].clone(),
            vault: accounts[1].clone(),
            program: accounts[2].clone(),
            system_program: accounts[3].clone(),
            amount,
        })
    }

    /// Commit phase: lazily create the vault, then move the amount from the
    /// owner into it. The whole chain is checked before any state moves, so
    /// a late failure cannot leave a half-done deposit behind.
    pub fn process(&mut self, rent: &crate::rent::Rent) -> (r: Result<(), ProgramError>)
        ensures
            r is Err ==> *final(self) == *old(self),
            !old(self).owner.is_signer ==> r == Err::<(), ProgramError>(
                crate::errors::err_of(crate::errors::Ee::NotSigner),
            ),
            r is Ok <==> old(self).owner.is_signer && (if old(self).vault.lamports != 0 {
                &&& old(self).vault.owner@ == ID@
                &&& old(self).owner.lamports >= old(self).amount
                &&& old(self).vault.lamports + old(self).amount <= u64::MAX
            } else {
                &&& vault_creatable(old(self).owner, old(self).vault, *rent)
                &&& old(self).owner.lamports - crate::rent::spec_minimum_balance(*rent, 16) >= old(
                    self,
                ).amount
                &&& crate::rent::spec_minimum_balance(*rent, 16) + old(self).amount <= u64::MAX
            }),
            r is Ok ==> {
                &&& final(self).vault.key == old(self).vault.key
                &&& final(self).vault.owner@ == ID@
                &&& final(self).owner.lamports == old(self).owner.lamports - old(self).amount - (
                if old(self).vault.lamports == 0 {
                    crate::rent::spec_minimum_balance(*rent, 16)
                } else {
                    0
                })
                &&& final(self).vault.lamports == old(self).vault.lamports + old(self).amount + (
                if old(self).vault.lamports == 0 {
                    crate::rent::spec_minimum_balance(*rent, 16)
                } else {
                    0
                })
                &&& final(self).owner.key == old(self).owner.key
                &&& crate::account::acct_like(final(self).program, old(self).program)
                &&& crate::account::acct_like(final(self).system_program, old(self).system_program)
                &&& final(self).amount == old(self).amount
            },
    {
        if !self.owner.is_signer {
            return crate::errors::Ee::NotSigner.e();
        }
        if self.vault.lamports == 0 {
            let ghost seeds = crate::pda::seeds2(crate::VAULT_SEED@, self.owner.key@);
            let derived = derive_vault(&self.owner)?;
            let (pda, bump) = derived;
            if !crate::key_eq(&pda, &self.vault.key) {
                proof {
                    assert forall|b0: u8| crate::pda::is_first_bump(seeds, ID@, b0) implies b0
                        == bump by {
                        crate::pda::lemma_first_bump_unique(seeds, ID@, b0, bump);
                    }
                    assert(!derives_key(seeds, self.vault.key@));
                }
                return Err(ProgramError::InvalidSeeds);
            }
            let min = rent.minimum_balance(VAULT_SIZE)?;
            if !(self.vault.data_is_empty() && self.vault.is_owned_by(&crate::SYSTEM_PROGRAM_ID)) {
                return Err(ProgramError::AccountAlreadyInitialized);
            }
            if self.owner.lamports < min || self.owner.lamports - min < self.amount {
                return Err(ProgramError::InsufficientFunds);
            }
            match min.checked_add(self.amount) {
                Some(_) => (),
                None => {
                    return Err(ProgramError::ArithmeticOverflow);
                },
            }
            ensure_vault_exists(&mut self.owner, &mut self.vault, rent)?;
            crate::cpi::system_transfer(&mut self.owner, &mut self.vault, self.amount)?;
            Ok(())
        } else {
            if !self.vault.is_owned_by(&ID) {
                return Err(ProgramError::InvalidAccountOwner);
            }
            crate::cpi::system_transfer(&mut self.owner, &mut self.vault, self.amount)?;
            Ok(())
        }
    }
}

/// The typed, pre-checked request to withdraw the vault's whole balance.
pub struct Withdraw {
    /// Vault owner and recipient; must have signed.
    pub owner: Account,
    /// The owner's vault.
    pub vault: Account,
    /// This program's own account.
    pub program: Account,
}

impl Withdraw {
    /// The opcode this handler is routed under.
    pub const DISCRIMINATOR: u8 = 1;

    /// Validation and parse phase: exactly three accounts, no payload.
    pub fn try_from(_data: &[u8], accounts: &Vec<Account>) -> (r: Result<Withdraw, ProgramError>)
        ensures
            accounts@.len() != 3 ==> r == Err::<Withdraw, ProgramError>(
                ProgramError::NotEnoughAccountKeys,
            ),
            accounts@.len() == 3 ==> r is Ok && {
                let s = r.unwrap();
                &&& crate::account::acct_like(s.owner, accounts@[0])
                &&& crate::account::acct_like(s.vault, accounts@[1])
                &&& crate::account::acct_like(s.program, accounts@[2])
            },
    {
        if accounts.len() != 3 {
            return Err(ProgramError::NotEnoughAccountKeys);
        }
        Ok(Withdraw {
            owner: accounts[0].clone(),
            vault: accounts[1].clone(),
            program: accounts[2].clone(),
        })
    }

    /// Commit phase: verify the vault's address against its derivation, then
    /// move its whole balance back to the owner, the vault's derived address
    /// signing on its own behalf.
    pub fn process(&mut self) -> (r: Result<(), ProgramError>)
        ensures
            r is Err ==> *final(self) == *old(self),
            !old(self).owner.is_signer ==> r == Err::<(), ProgramError>(
                crate::errors::err_of(crate::errors::Ee::NotSigner),
            ),
            old(self).owner.is_signer && old(self).vault.lamports == 0 ==> r == Err::<
                (),
                ProgramError,
            >(crate::errors::err_of(crate::errors::Ee::PdaNotInitialized)),
            old(self).owner.is_signer && old(self).vault.lamports != 0 && old(self).vault.owner@
                != ID@ ==> r == Err::<(), ProgramError>(
                crate::errors::err_of(crate::errors::Ee::ForeignPDA),
            ),
            r is Ok <==> {
                &&& old(self).owner.is_signer
                &&& old(self).vault.lamports != 0
                &&& old(self).vault.owner@ == ID@
                &&& derives_key(
                    crate::pda::seeds2(crate::VAULT_SEED@, old(self).owner.key@),
                    old(self).vault.key@,
                )
                &&& old(self).owner.lamports + old(self).vault.lamports <= u64::MAX
            },
            r is Ok ==> {
                &&& final(self).vault.lamports == 0
                &&& final(self).vault.key == old(self).vault.key
                &&& final(self).vault.data@ == old(self).vault.data@
                &&& final(self).vault.owner == old(self).vault.owner
                &&& crate::cpi::same_but_lamports(
                    old(self).owner,
                    final(self).owner,
                    (old(self).owner.lamports + old(self).vault.lamports) as u64,
                )
                &&& crate::account::acct_like(final(self).program, old(self).program)
            },
    {
        crate::validate::check_signer(&self.owner)?;
        crate::validate::check_pda(&self.vault)?;
        let ghost seeds = crate::pda::seeds2(crate::VAULT_SEED@, self.owner.key@);
        let derived = derive_vault(&self.owner)?;
        let (pda, bump) = derived;
        if !crate::key_eq(&pda, &self.vault.key) {
            proof {
                assert forall|b0: u8| crate::pda::is_first_bump(seeds, ID@, b0) implies b0
                    == bump by {
                    crate::pda::lemma_first_bump_unique(seeds, ID@, b0, bump);
                }
                assert(!derives_key(seeds, self.vault.key@));
            }
            return crate::errors::Ee::VaultPDA.e();
        }
        let seed_vec = crate::pda::seeds_owner(crate::VAULT_SEED.as_slice(), &self.owner.key);
        let all = self.vault.lamports;
        crate::cpi::system_transfer_signed(
            &mut self.vault,
            &mut self.owner,
            all,
            &seed_vec,
            bump,
        )?;
        Ok(())
    }
}

/// Address determinism: derivation is a pure function of the seeds, so once
/// the search form settles on a bump for a seed list, re-deriving with
/// exactly that bump yields exactly the address it returned, and every bump
/// above it derives no address at all.
pub proof fn lemma_derive_then_verify(seeds: Seq<Seq<u8>>, key: Seq<u8>, b: u8)
    requires
        derives_key_with_bump(seeds, key, b),
    ensures
        pda_of(with_bump(seeds, b), ID@) == Some(key),
        forall|b2: u8| b < b2 ==> (#[trigger] pda_of(with_bump(seeds, b2), ID@)) is None,
        forall|b2: u8| derives_key_with_bump(seeds, key, b2) ==> b2 == b,
{
    assert forall|b2: u8| derives_key_with_bump(seeds, key, b2) implies b2 == b by {
        crate::pda::lemma_first_bump_unique(seeds, ID@, b2, b);
    }
}

/// What routing the vault deposit must produce: success exactly when the
/// request parses and the lazy-create-then-transfer chain goes through; on
/// success the owner funds the vault's rent (when created) plus the amount.
pub open spec fn deposit_routed(
    payload: Seq<u8>,
    pre: Seq<Account>,
    post: Seq<Account>,
    ok: bool,
    rent: crate::rent::Rent,
) -> bool {
    let amount = vstd::bytes::spec_u64_from_le_bytes(payload);
    let fee = if pre[1].lamports == 0 {
        crate::rent::spec_minimum_balance(rent, 16)
    } else {
        0
    };
    &&& (ok <==> {
        &&& pre.len() == 4
        &&& payload.len() == 8
        &&& amount != 0
        &&& pre[0].is_signer
        &&& (if pre[1].lamports != 0 {
            &&& pre[1].owner@ == ID@
            &&& pre[0].lamports >= amount
            &&& pre[1].lamports + amount <= u64::MAX
        } else {
            &&& vault_creatable(pre[0], pre[1], rent)
            &&& pre[0].lamports - crate::rent::spec_minimum_balance(rent, 16) >= amount
            &&& crate::rent::spec_minimum_balance(rent, 16) + amount <= u64::MAX
        })
    })
    &&& (ok ==> {
        &&& post.len() == 4
        &&& post[0].key == pre[0].key
        &&& post[0].lamports == pre[0].lamports - amount - fee
        &&& post[1].key == pre[1].key
        &&& post[1].owner@ == ID@
        &&& post[1].lamports == pre[1].lamports + amount + fee
        &&& crate::account::acct_like(post[2], pre[2])
        &&& crate::account::acct_like(post[3], pre[3])
    })
}

/// What routing the vault withdraw must produce: success exactly when the
/// signing owner's derived vault exists program-owned with sweep headroom;
/// on success the whole vault balance returns to the owner.
pub open spec fn withdraw_routed(pre: Seq<Account>, post: Seq<Account>, ok: bool) -> bool {
    &&& (ok <==> {
        &&& pre.len() == 3
        &&& pre[0].is_signer
        &&& pre[1].lamports != 0
        &&& pre[1].owner@ == ID@
        &&& derives_key(crate::pda::seeds2(crate::VAULT_SEED@, pre[0].key@), pre[1].key@)
        &&& pre[0].lamports + pre[1].lamports <= u64::MAX
    })
    &&& (ok ==> {
        &&& post.len() == 3
        &&& post[1].lamports == 0
        &&& post[1].key == pre[1].key
        &&& post[1].data@ == pre[1].data@
        &&& post[1].owner == pre[1].owner
        &&& crate::account::acct_like_but_lamports(
            pre[0],
            post[0],
            (pre[0].lamports + pre[1].lamports) as u64,
        )
        &&& crate::account::acct_like(post[2], pre[2])
    })
}

/// The discriminator bytes the wire contract assigns to a handler.
pub open spec fn assigned_opcode(b: u8) -> bool {
    ||| b == 0
    ||| b == 1
    ||| b == 2
    ||| b == 4
    ||| b == 5
    ||| b == 6
    ||| b == 12
    ||| b == 14
    ||| b == 15
    ||| b == 17
    ||| b == 18
    ||| b == 19
}

/// Route one instruction: the leading payload byte picks the handler; the
/// rest of the payload and the declared account list go through the
/// handler's two phases, and the updated accounts are written back only on
/// success. The discriminator assignment is part of the wire contract; an
/// unassigned byte is rejected. Each assigned byte carries its routed
/// contract: the call succeeds exactly when the routed handler's two phases
/// would, and on success the account list is updated per that handler's
/// contract; a failed invocation leaves the account list untouched. The
/// entries of the account list model distinct accounts: the host guarantees
/// exclusive access to each account an invocation declares writable.
#[verifier::rlimit(100)]
#[verifier::spinoff_prover]
pub fn dispatch(instruction: &[u8], accounts: &mut Vec<Account>, rent: &crate::rent::Rent) -> (r:
    Result<(), ProgramError>)
    ensures
        r is Err ==> *final(accounts) == *old(accounts),
        instruction@.len() == 0 ==> r == Err::<(), ProgramError>(
            crate::errors::err_of(crate::errors::Ee::InvalidDiscriminator),
        ),
        instruction@.len() > 0 && !assigned_opcode(instruction@[0]) ==> r == Err::<
            (),
            ProgramError,
        >(crate::errors::err_of(crate::errors::Ee::InvalidDiscriminator)),
        r is Ok ==> final(accounts)@.len() == old(accounts)@.len(),
        instruction@.len() > 0 && instruction@[0] == 0 ==> deposit_routed(
            instruction@.subrange(1, instruction@.len() as int),
            old(accounts)@,
            final(accounts)@,
            r is Ok,
            *rent,
        ),
        instruction@.len() > 0 && instruction@[0] == 1 ==> withdraw_routed(
            old(accounts)@,
            final(accounts)@,
            r is Ok,
        ),
        instruction@.len() > 0 && instruction@[0] == 2
            ==> crate::instructions::token2022::token2022_routed(
            instruction@.subrange(1, instruction@.len() as int),
            old(accounts)@,
            final(accounts)@,
            r is Ok,
        ),
        instruction@.len() > 0 && instruction@[0] == 4
            ==> crate::instructions::tok22_init_tok_acct::tok22_init_routed(
            instruction@.subrange(1, instruction@.len() as int),
            old(accounts)@,
            final(accounts)@,
            r is Ok,
            *rent,
        ),
        instruction@.len() > 0 && instruction@[0] == 5
            ==> crate::instructions::tok_lgc_deposit::toklgc_deposit_routed(
            instruction@.subrange(1, instruction@.len() as int),
            old(accounts)@,
            final(accounts)@,
            r is Ok,
            *rent,
        ),
        instruction@.len() > 0 && instruction@[0] == 6
            ==> crate::instructions::tok_lgc_withdraw::toklgc_withdraw_routed(
            instruction@.subrange(1, instruction@.len() as int),
            old(accounts)@,
            final(accounts)@,
            r is Ok,
            *rent,
        ),
        instruction@.len() > 0 && instruction@[0] == 12
            ==> crate::instructions::init_config::init_config_routed(
            instruction@.subrange(1, instruction@.len() as int),
            old(accounts)@,
            final(accounts)@,
            r is Ok,
            *rent,
        ),
        instruction@.len() > 0 && instruction@[0] == 14
            ==> crate::instructions::close_config::close_config_routed(
            old(accounts)@,
            final(accounts)@,
            r is Ok,
        ),
        instruction@.len() > 0 && instruction@[0] == 15
            ==> crate::instructions::escrow_tok_make::make_routed(
            instruction@.subrange(1, instruction@.len() as int),
            old(accounts)@,
            final(accounts)@,
            r is Ok,
            *rent,
        ),
        instruction@.len() > 0 && instruction@[0] == 17
            ==> crate::instructions::escrow_tok_withdraw::ew_routed(
            instruction@.subrange(1, instruction@.len() as int),
            old(accounts)@,
            final(accounts)@,
            r is Ok,
            *rent,
        ),
        instruction@.len() > 0 && instruction@[0] == 18
            ==> crate::instructions::escrow_tok_cancel::cancel_routed(
            instruction@.subrange(1, instruction@.len() as int),
            old(accounts)@,
            final(accounts)@,
            r is Ok,
            *rent,
        ),
        instruction@.len() > 0 && instruction@[0] == 19
            ==> crate::instructions::config_resize::resize_routed(
            instruction@.subrange(1, instruction@.len() as int),
            old(accounts)@,
            final(accounts)@,
            r is Ok,
        ),
{
    if instruction.len() == 0 {
        return crate::errors::Ee::InvalidDiscriminator.e();
    }
    let discriminator = instruction[0];
    let data = vstd::slice::slice_subrange(instruction, 1, instruction.len());
    match discriminator {
        0 => {
            let mut h = Deposit::try_from(data, accounts)?;
            h.process(rent)?;
            let Deposit { owner, vault, program, system_program, amount: _ } = h;
            accounts.set(0, owner);
            accounts.set(1, vault);
            accounts.set(2, program);
            accounts.set(3, system_program);
            Ok(())
        },
        1 => {
            let mut h = Withdraw::try_from(data, accounts)?;
            h.process()?;
            let Withdraw { owner, vault, program } = h;
            accounts.set(0, owner);
            accounts.set(1, vault);
            accounts.set(2, program);
            Ok(())
        },
        2 => {
            let h = crate::instructions::token2022::Token2022::try_from(data, accounts)?;
            h.process()?;
            Ok(())
        },
        4 => {
            let mut h = crate::instructions::tok22_init_tok_acct::Token2022InitTokAcct::try_from(
                data,
                accounts,
            )?;
            h.process(rent)?;
            let crate::instructions::tok22_init_tok_acct::Token2022InitTokAcct {
                payer,
                tok_acc_owner,
                mint,
                token_account,
                token_program,
            } = h;
            accounts.set(0, payer);
            accounts.set(1, tok_acc_owner);
            accounts.set(2, mint);
            accounts.set(3, token_account);
            accounts.set(4, token_program);
            Ok(())
        },
        5 => {
            let mut h = crate::instructions::tok_lgc_deposit::TokLgcDeposit::try_from(
                data,
                accounts,
            )?;
            h.process(rent)?;
            let crate::instructions::tok_lgc_deposit::TokLgcDeposit {
                authority,
                from_ata,
                to_ata,
                to_wallet,
                mint,
                token_program,
                system_program,
                atoken_program,
                decimals: _,
                amount: _,
            } = h;
            accounts.set(0, authority);
            accounts.set(1, from_ata);
            accounts.set(2, to_ata);
            accounts.set(3, to_wallet);
            accounts.set(4, mint);
            accounts.set(5, token_program);
            accounts.set(6, system_program);
            accounts.set(7, atoken_program);
            Ok(())
        },
        6 => {
            let mut h = crate::instructions::tok_lgc_withdraw::TokLgcWithdraw::try_from(
                data,
                accounts,
                rent,
            )?;
            h.process(rent)?;
            let crate::instructions::tok_lgc_withdraw::TokLgcWithdraw {
                user,
                from_ata,
                to_ata,
                vault,
                mint,
                token_program,
                system_program,
                atoken_program,
                vault_bump: _,
                decimals: _,
                amount: _,
            } = h;
            accounts.set(0, user);
            accounts.set(1, from_ata);
            accounts.set(2, to_ata);
            accounts.set(3, vault);
            accounts.set(4, mint);
            accounts.set(5, token_program);
            accounts.set(6, system_program);
            accounts.set(7, atoken_program);
            Ok(())
        },
        12 => {
            let mut h = crate::instructions::init_config::InitConfig::try_from(data, accounts)?;
            h.process(rent)?;
            let crate::instructions::init_config::InitConfig {
                authority,
                config_pda,
                original_owner,
                system_program,
                fee: _,
            } = h;
            accounts.set(0, authority);
            accounts.set(1, config_pda);
            accounts.set(2, original_owner);
            accounts.set(3, system_program);
            Ok(())
        },
        14 => {
            let mut h = crate::instructions::close_config::CloseConfigPda::try_from(
                data,
                accounts,
            )?;
            h.process()?;
            let crate::instructions::close_config::CloseConfigPda { authority, config_pda, dest } =
                h;
            accounts.set(0, authority);
            accounts.set(1, config_pda);
            accounts.set(2, dest);
            Ok(())
        },
        15 => {
            let ghost pre = accounts@;
            let ghost s_spec = crate::instructions::escrow_tok_make::make_request(data@, pre);
            let mut h = crate::instructions::escrow_tok_make::EscrowTokMake::try_from(
                data,
                accounts,
                rent,
            )?;
            let ghost h0 = h;
            proof {
                assert(crate::instructions::escrow_tok_make::make_common_ok(h0, *rent)
                    <==> crate::instructions::escrow_tok_make::make_common_ok(s_spec, *rent));
                assert(crate::instructions::escrow_tok_make::make_create_ok(h0, *rent)
                    <==> crate::instructions::escrow_tok_make::make_create_ok(s_spec, *rent));
                assert(crate::instructions::escrow_tok_make::make_existing_ok(h0, *rent)
                    <==> crate::instructions::escrow_tok_make::make_existing_ok(s_spec, *rent));
            }
            h.process(rent)?;
            proof {
                let b = choose|b: u8|
                    #[trigger] derives_key_with_bump(
                        crate::pda::seeds3(crate::ESCROW_SEED@, h0.maker_x.key@, h0.id),
                        h0.escrow.key@,
                        b,
                    ) && h.escrow.data@ == crate::state::spec_escrow_bytes(
                        crate::instructions::escrow_tok_make::make_record(h0, b),
                    );
                assert(derives_key_with_bump(
                    crate::pda::seeds3(crate::ESCROW_SEED@, pre[0].key@, s_spec.id),
                    pre[3].key@,
                    b,
                ));
                assert(crate::instructions::escrow_tok_make::make_record(h0, b)
                    == crate::instructions::escrow_tok_make::make_record(s_spec, b));
                assert(h.escrow.data@ == crate::state::spec_escrow_bytes(
                    crate::instructions::escrow_tok_make::make_record(s_spec, b),
                ));
            }
            let crate::instructions::escrow_tok_make::EscrowTokMake {
                maker_x,
                user_x_ata,
                escrow_ata,
                escrow,
                mint_x,
                mint_y,
                token_program,
                system_program,
                atoken_program,
                ..
            } = h;
            accounts.set(0, maker_x);
            accounts.set(1, user_x_ata);
            accounts.set(2, escrow_ata);
            accounts.set(3, escrow);
            accounts.set(4, mint_x);
            accounts.set(5, mint_y);
            accounts.set(7, token_program);
            accounts.set(8, system_program);
            accounts.set(9, atoken_program);
            Ok(())
        },
        17 => {
            let mut h = crate::instructions::escrow_tok_withdraw::EscrowTokWithdraw::try_from(
                data,
                accounts,
                rent,
            )?;
            h.process()?;
            Ok(())
        },
        18 => {
            let ghost pre = accounts@;
            let mut h = crate::instructions::escrow_tok_cancel::EscrowTokCancel::try_from(
                data,
                accounts,
                rent,
            )?;
            let ghost h0 = h;
            proof {
                assert(crate::instructions::escrow_tok_cancel::cancel_ok(h0)
                    <==> crate::instructions::escrow_tok_cancel::cancel_ok(
                    crate::instructions::escrow_tok_cancel::cancel_request(pre),
                ));
            }
            h.process()?;
            let crate::instructions::escrow_tok_cancel::EscrowTokCancel {
                maker,
                maker_ata_x,
                maker_ata_y,
                escrow_ata_x,
                escrow_ata_y,
                mint_x,
                mint_y,
                escrow_pda,
                config_pda,
                token_program,
                system_program,
                atoken_program,
            } = h;
            accounts.set(0, maker);
            accounts.set(1, maker_ata_x);
            accounts.set(2, maker_ata_y);
            accounts.set(3, escrow_ata_x);
            accounts.set(4, escrow_ata_y);
            accounts.set(5, mint_x);
            accounts.set(6, mint_y);
            accounts.set(7, escrow_pda);
            accounts.set(8, config_pda);
            accounts.set(9, token_program);
            accounts.set(10, system_program);
            accounts.set(11, atoken_program);
            Ok(())
        },
        19 => {
            let mut h = crate::instructions::config_resize::ConfigResize::try_from(
                data,
                accounts,
            )?;
            h.process()?;
            let crate::instructions::config_resize::ConfigResize {
                authority,
                config_pda,
                first_prog_owner,
                system_program,
                new_size: _,
                bump: _,
            } = h;
            accounts.set(0, authority);
            accounts.set(1, config_pda);
            accounts.set(2, first_prog_owner);
            accounts.set(3, system_program);
            Ok(())
        },
        _ => crate::errors::Ee::InvalidDiscriminator.e(),
    }
}

} // verus!
