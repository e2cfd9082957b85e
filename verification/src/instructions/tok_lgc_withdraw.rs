//! Withdraw tokens from the vault's holding account back to the user under
//! the legacy token module. The validation phase re-derives the vault
//! address and checks the whole chain; the commit phase lazily creates the
//! user's holding account and issues the checked transfer with the vault's
//! derived address signing on its own behalf.

use vstd::prelude::*;

use crate::account::{acct_like, Account};
use crate::cpi::{
    ata_create, same_but_lamports, same_but_token_amount, token_transfer_checked_signed,
};
use crate::errors::{err_of, Ee, ProgramError};
use crate::instructions::{derive_fails, derives_key, derives_key_with_bump};
use crate::pda::{ata_derived, pda_of, seeds2, with_bump};
use crate::rent::{rent_fits, spec_minimum_balance, Rent};
use crate::token::{
    lemma_token_account_fill, lemma_token_account_init_fields, spec_mint_decimals,
    spec_token_account_amount, spec_token_account_filled, spec_token_account_mint,
    spec_token_account_owner, TOKEN_ACCOUNT_LEN,
};
use crate::validate::{
    ata_balc, check_ata, check_decimals, check_mint0a, check_signer, check_sysprog, data_len,
    executable, none_zero_u64, parse_u64, rent_exempt_mint, rent_exempt_tokacct, writable,
};
use crate::{ID, SYSTEM_PROGRAM_ID, TOKEN_PROGRAM_ID, VAULT_SEED};

verus! {

broadcast use vstd::array::group_array_axioms;

/// The typed, pre-checked request to withdraw tokens from the vault.
pub struct TokLgcWithdraw {
    /// The recipient; must have signed.
    pub user: Account,
    /// The vault's holding account for the asset.
    pub from_ata: Account,
    /// The user's holding account; lazily created.
    pub to_ata: Account,
    /// The vault account whose derived address authorizes the debit.
    pub vault: Account,
    /// The asset's mint.
    pub mint: Account,
    /// The legacy token module.
    pub token_program: Account,
    /// The system program.
    pub system_program: Account,
    /// The associated-account module.
    pub atoken_program: Account,
    /// The bump the vault address derives with.
    pub vault_bump: u8,
    /// Decimals declared for the asset.
    pub decimals: u8,
    /// How much to move; non-zero.
    pub amount: u64,
}

/// The validation prefix up to the vault derivation: account count, a
/// signing user, the declared modules, the vault's writable holding account
/// recorded for the vault in this asset, and a well-formed non-zero payload
/// the holding account can cover.
pub open spec fn withdraw_prefix_ok(data: Seq<u8>, accounts: Seq<Account>) -> bool {
    &&& accounts.len() == 8
    &&& accounts[0].is_signer
    &&& accounts[5].executable
    &&& accounts[6].key@ == SYSTEM_PROGRAM_ID@
    &&& accounts[1].is_writable
    &&& accounts[1].data@.len() == 165
    &&& spec_token_account_owner(accounts[1].data@) == accounts[3].key@
    &&& spec_token_account_mint(accounts[1].data@) == accounts[4].key@
    &&& data.len() == 9
    &&& vstd::bytes::spec_u64_from_le_bytes(data.subrange(1, 9)) != 0
    &&& spec_token_account_amount(accounts[1].data@) >= vstd::bytes::spec_u64_from_le_bytes(
        data.subrange(1, 9),
    )
}

/// What the commit phase needs regardless of the destination branch: the
/// stored bump derives the vault's address, the vault's holding account is
/// recorded for the vault in this asset and covers the amount, and the mint
/// matches the declared decimals.
pub open spec fn withdraw_common_ok(s: TokLgcWithdraw) -> bool {
    &&& pda_of(with_bump(seeds2(VAULT_SEED@, s.user.key@), s.vault_bump), ID@) == Some(
        s.vault.key@,
    )
    &&& s.from_ata.data@.len() == 165
    &&& spec_token_account_owner(s.from_ata.data@) == s.vault.key@
    &&& spec_token_account_mint(s.from_ata.data@) == s.mint.key@
    &&& s.mint.data@.len() == 82
    &&& s.decimals == spec_mint_decimals(s.mint.data@)
    &&& spec_token_account_amount(s.from_ata.data@) >= s.amount
}

/// What the lazy-create branch additionally needs.
pub open spec fn withdraw_create_ok(s: TokLgcWithdraw, rent: Rent) -> bool {
    &&& ata_derived(s.user.key@, TOKEN_PROGRAM_ID@, s.mint.key@, s.to_ata.key@)
    &&& s.to_ata.lamports == 0
    &&& s.to_ata.owner@ == SYSTEM_PROGRAM_ID@
    &&& s.to_ata.is_writable
    &&& rent_fits(rent, 165)
    &&& s.user.is_signer
    &&& s.user.lamports >= spec_minimum_balance(rent, 165)
}

/// What the existing-destination branch additionally needs.
pub open spec fn withdraw_existing_ok(s: TokLgcWithdraw, rent: Rent) -> bool {
    &&& s.to_ata.data@.len() == 165
    &&& spec_token_account_owner(s.to_ata.data@) == s.user.key@
    &&& spec_token_account_mint(s.to_ata.data@) == s.mint.key@
    &&& s.to_ata.is_writable
    &&& rent_fits(rent, 165)
    &&& s.to_ata.lamports >= spec_minimum_balance(rent, 165)
    &&& spec_token_account_amount(s.to_ata.data@) + s.amount <= u64::MAX
}

/// The whole validation phase in one predicate: the prefix, the re-derived
/// vault address, and a rent-exempt legacy mint matching the declared
/// decimals.
pub open spec fn withdraw_valid(data: Seq<u8>, accounts: Seq<Account>, rent: Rent) -> bool {
    &&& withdraw_prefix_ok(data, accounts)
    &&& crate::instructions::derives_key(
        seeds2(VAULT_SEED@, accounts[0].key@),
        accounts[3].key@,
    )
    &&& rent_fits(rent, 82)
    &&& accounts[4].lamports >= spec_minimum_balance(rent, 82)
    &&& accounts[4].data@.len() == 82
    &&& data[0] == spec_mint_decimals(accounts[4].data@)
    &&& accounts[5].key@ == TOKEN_PROGRAM_ID@
    &&& accounts[4].owner@ == TOKEN_PROGRAM_ID@
}

impl TokLgcWithdraw {
    /// The opcode this handler is routed under.
    pub const DISCRIMINATOR: u8 = 6;

    /// Validation and parse phase: eight accounts, a signing user, the
    /// declared modules, the vault's holding account with cover for the
    /// amount, the re-derived vault address, and a rent-exempt legacy mint
    /// with matching decimals.
    pub fn try_from(data: &[u8], accounts: &Vec<Account>, rent: &Rent) -> (r: Result<
        TokLgcWithdraw,
        ProgramError,
    >)
        ensures
            accounts@.len() != 8 ==> r == Err::<TokLgcWithdraw, ProgramError>(
                ProgramError::NotEnoughAccountKeys,
            ),
            accounts@.len() == 8 && !accounts@[0].is_signer ==> r == Err::<
                TokLgcWithdraw,
                ProgramError,
            >(err_of(Ee::NotSigner)),
            accounts@.len() == 8 && accounts@[0].is_signer && !accounts@[5].executable ==> r
                == Err::<TokLgcWithdraw, ProgramError>(err_of(Ee::NotExecutable)),
            accounts@.len() == 8 && accounts@[0].is_signer && accounts@[5].executable
                && accounts@[6].key@ != SYSTEM_PROGRAM_ID@ ==> r == Err::<
                TokLgcWithdraw,
                ProgramError,
            >(err_of(Ee::SystemProgram)),
            accounts@.len() == 8 && accounts@[0].is_signer && accounts@[5].executable
                && accounts@[6].key@ == SYSTEM_PROGRAM_ID@ && accounts@[1].is_writable
                && accounts@[1].data@.len() == 165 && spec_token_account_owner(accounts@[1].data@)
                == accounts@[3].key@ && spec_token_account_mint(accounts@[1].data@)
                == accounts@[4].key@ && data@.len() == 9 && vstd::bytes::spec_u64_from_le_bytes(
                data@.subrange(1, 9),
            ) == 0 ==> r == Err::<TokLgcWithdraw, ProgramError>(err_of(Ee::ZeroAsInput)),
            withdraw_prefix_ok(data@, accounts@) && derive_fails(
                seeds2(VAULT_SEED@, accounts@[0].key@),
            ) ==> r == Err::<TokLgcWithdraw, ProgramError>(ProgramError::InvalidSeeds),
            withdraw_prefix_ok(data@, accounts@) && !derive_fails(
                seeds2(VAULT_SEED@, accounts@[0].key@),
            ) && !derives_key(seeds2(VAULT_SEED@, accounts@[0].key@), accounts@[3].key@) ==> r
                == Err::<TokLgcWithdraw, ProgramError>(err_of(Ee::VaultPDA)),
            r is Ok <==> withdraw_valid(data@, accounts@, *rent),
            r is Ok ==> {
                let s = r.unwrap();
                &&& accounts@.len() == 8
                &&& data@.len() == 9
                &&& acct_like(s.user, accounts@[0])
                &&& acct_like(s.from_ata, accounts@[1])
                &&& acct_like(s.to_ata, accounts@[2])
                &&& acct_like(s.vault, accounts@[3])
                &&& acct_like(s.mint, accounts@[4])
                &&& acct_like(s.token_program, accounts@[5])
                &&& acct_like(s.system_program, accounts@[6])
                &&& acct_like(s.atoken_program, accounts@[7])
                &&& s.decimals == data@[0]
                &&& s.amount == vstd::bytes::spec_u64_from_le_bytes(data@.subrange(1, 9))
                &&& s.amount != 0
                &&& s.user.is_signer
                &&& s.from_ata.is_writable
                &&& withdraw_common_ok(s)
                &&& derives_key_with_bump(
                    seeds2(VAULT_SEED@, s.user.key@),
                    s.vault.key@,
                    s.vault_bump,
                )
                &&& rent_fits(*rent, 82)
                &&& s.mint.lamports >= spec_minimum_balance(*rent, 82)
                &&& s.token_program.key@ == TOKEN_PROGRAM_ID@
                &&& s.mint.owner@ == TOKEN_PROGRAM_ID@
            },
    {
        if accounts.len() != 8 {
            return Err(ProgramError::NotEnoughAccountKeys);
        }
        let user = accounts[0].clone();
        let from_ata = accounts[1].clone();
        let to_ata = accounts[2].clone();
        let vault = accounts[3].clone();
        let mint = accounts[4].clone();
        let token_program = accounts[5].clone();
        let system_program = accounts[6].clone();
        let atoken_program = accounts[7].clone();
        check_signer(&user)?;
        executable(&token_program)?;
        check_sysprog(&system_program)?;
        writable(&from_ata)?;
        check_ata(&from_ata, &vault, &mint)?;
        data_len(data, 9)?;
        let decimals = data[0];
        let rest = vstd::slice::slice_subrange(data, 1, data.len());
        let amount = parse_u64(rest)?;
        none_zero_u64(amount)?;
        ata_balc(&from_ata, amount)?;
        let ghost seeds = seeds2(VAULT_SEED@, user.key@);
        let derived = crate::pda::derive_pda1(&user.key, VAULT_SEED.as_slice())?;
        let (expected_vault, vault_bump) = derived;
        if !crate::key_eq(&vault.key, &expected_vault) {
            proof {
                assert forall|b0: u8| crate::pda::is_first_bump(seeds, ID@, b0) implies b0
                    == vault_bump by {
                    crate::pda::lemma_first_bump_unique(seeds, ID@, b0, vault_bump);
                }
                assert(!derives_key(seeds, vault.key@));
            }
            return Ee::VaultPDA.e();
        }
        proof {
            assert(derives_key_with_bump(seeds, vault.key@, vault_bump));
            assert(derives_key(seeds, vault.key@));
        }
        rent_exempt_mint(&mint, rent)?;
        check_decimals(&mint, decimals)?;
        check_mint0a(&mint, &token_program)?;
        Ok(TokLgcWithdraw {
            user,
            from_ata,
            to_ata,
            vault,
            mint,
            token_program,
            system_program,
            atoken_program,
            vault_bump,
            decimals,
            amount,
        })
    }

    /// Commit phase: the whole chain is re-checked before any state moves;
    /// then the user's holding account is created if needed and the checked
    /// transfer is issued under the vault's derived signature.
    pub fn process(&mut self, rent: &Rent) -> (r: Result<(), ProgramError>)
        ensures
            r is Err ==> *final(self) == *old(self),
            r is Ok <==> withdraw_common_ok(*old(self)) && (if old(self).to_ata.data@.len() == 0 {
                withdraw_create_ok(*old(self), *rent)
            } else {
                withdraw_existing_ok(*old(self), *rent)
            }),
            r is Ok ==> {
                &&& same_but_token_amount(
                    old(self).from_ata,
                    final(self).from_ata,
                    (spec_token_account_amount(old(self).from_ata.data@) - old(self).amount) as u64,
                )
                &&& acct_like(final(self).vault, old(self).vault)
                &&& acct_like(final(self).mint, old(self).mint)
                &&& acct_like(final(self).token_program, old(self).token_program)
                &&& acct_like(final(self).system_program, old(self).system_program)
                &&& acct_like(final(self).atoken_program, old(self).atoken_program)
                &&& final(self).vault_bump == old(self).vault_bump
                &&& final(self).decimals == old(self).decimals
                &&& final(self).amount == old(self).amount
            },
            r is Ok && old(self).to_ata.data@.len() == 0 ==> {
                &&& final(self).to_ata.key == old(self).to_ata.key
                &&& final(self).to_ata.owner@ == TOKEN_PROGRAM_ID@
                &&& final(self).to_ata.lamports == spec_minimum_balance(*rent, 165)
                &&& final(self).to_ata.data@ == spec_token_account_filled(
                    old(self).mint.key@,
                    old(self).user.key@,
                    old(self).amount,
                )
                &&& same_but_lamports(
                    old(self).user,
                    final(self).user,
                    (old(self).user.lamports - spec_minimum_balance(*rent, 165)) as u64,
                )
            },
            r is Ok && old(self).to_ata.data@.len() != 0 ==> {
                &&& same_but_token_amount(
                    old(self).to_ata,
                    final(self).to_ata,
                    (spec_token_account_amount(old(self).to_ata.data@) + old(self).amount) as u64,
                )
                &&& acct_like(final(self).user, old(self).user)
            },
    {
        let seed_vec = crate::pda::seeds_owner(VAULT_SEED.as_slice(), &self.user.key);
        if !crate::pda::verify_pda(&seed_vec, self.vault_bump, &self.vault.key) {
            return Err(ProgramError::InvalidSeeds);
        }
        check_ata(&self.from_ata, &self.vault, &self.mint)?;
        check_decimals(&self.mint, self.decimals)?;
        ata_balc(&self.from_ata, self.amount)?;
        if self.to_ata.data_is_empty() {
            writable(&self.to_ata)?;
            if !crate::pda::check_ata_derivation(
                &self.user.key,
                &TOKEN_PROGRAM_ID,
                &self.mint.key,
                &self.to_ata.key,
            ) {
                return Err(ProgramError::InvalidSeeds);
            }
            if !(self.to_ata.lamports == 0 && self.to_ata.is_owned_by(&SYSTEM_PROGRAM_ID)) {
                return Err(ProgramError::AccountAlreadyInitialized);
            }
            if !self.user.is_signer {
                return Err(ProgramError::MissingRequiredSignature);
            }
            let min = rent.minimum_balance(TOKEN_ACCOUNT_LEN)?;
            if self.user.lamports < min {
                return Err(ProgramError::InsufficientFunds);
            }
            let user_wallet = self.user.clone();
            ata_create(&mut self.user, &mut self.to_ata, &user_wallet, &self.mint, rent)?;
            proof {
                lemma_token_account_init_fields(self.mint.key@, old(self).user.key@);
            }
            token_transfer_checked_signed(
                &mut self.from_ata,
                &self.mint,
                &mut self.to_ata,
                &self.vault,
                self.amount,
                self.decimals,
                &seed_vec,
                self.vault_bump,
            )?;
            proof {
                lemma_token_account_fill(
                    old(self).mint.key@,
                    old(self).user.key@,
                    old(self).amount,
                    self.to_ata.data@,
                );
            }
            Ok(())
        } else {
            check_ata(&self.to_ata, &self.user, &self.mint)?;
            writable(&self.to_ata)?;
            rent_exempt_tokacct(&self.to_ata, rent)?;
            token_transfer_checked_signed(
                &mut self.from_ata,
                &self.mint,
                &mut self.to_ata,
                &self.vault,
                self.amount,
                self.decimals,
                &seed_vec,
                self.vault_bump,
            )?;
            Ok(())
        }
    }
}

/// The request as the validation phase types it, built straight from the
/// declared account list and payload (the bump field is immaterial to the
/// branch predicates and left zero).
pub open spec fn withdraw_request(data: Seq<u8>, accounts: Seq<Account>) -> TokLgcWithdraw {
    TokLgcWithdraw {
        user: accounts[0],
        from_ata: accounts[1],
        to_ata: accounts[2],
        vault: accounts[3],
        mint: accounts[4],
        token_program: accounts[5],
        system_program: accounts[6],
        atoken_program: accounts[7],
        vault_bump: 0,
        decimals: data[0],
        amount: vstd::bytes::spec_u64_from_le_bytes(data.subrange(1, 9)),
    }
}

/// What routing this opcode must produce: success exactly when validation
/// passes and the destination branch's chain goes through; on success the
/// amount moves from the vault's holding account to the user's (possibly
/// freshly created) one.
pub open spec fn toklgc_withdraw_routed(
    payload: Seq<u8>,
    pre: Seq<Account>,
    post: Seq<Account>,
    ok: bool,
    rent: Rent,
) -> bool {
    let s = withdraw_request(payload, pre);
    let amount = vstd::bytes::spec_u64_from_le_bytes(payload.subrange(1, 9));
    &&& (ok <==> {
        &&& withdraw_valid(payload, pre, rent)
        &&& (if pre[2].data@.len() == 0 {
            withdraw_create_ok(s, rent)
        } else {
            withdraw_existing_ok(s, rent)
        })
    })
    &&& (ok ==> {
        &&& post.len() == 8
        &&& same_but_token_amount(
            pre[1],
            post[1],
            (spec_token_account_amount(pre[1].data@) - amount) as u64,
        )
        &&& acct_like(post[3], pre[3])
        &&& acct_like(post[4], pre[4])
        &&& acct_like(post[5], pre[5])
        &&& acct_like(post[6], pre[6])
        &&& acct_like(post[7], pre[7])
    })
    &&& (ok && pre[2].data@.len() == 0 ==> {
        &&& post[2].key == pre[2].key
        &&& post[2].owner@ == TOKEN_PROGRAM_ID@
        &&& post[2].lamports == spec_minimum_balance(rent, 165)
        &&& post[2].data@ == spec_token_account_filled(pre[4].key@, pre[0].key@, amount)
        &&& crate::account::acct_like_but_lamports(
            pre[0],
            post[0],
            (pre[0].lamports - spec_minimum_balance(rent, 165)) as u64,
        )
    })
    &&& (ok && pre[2].data@.len() != 0 ==> {
        &&& same_but_token_amount(
            pre[2],
            post[2],
            (spec_token_account_amount(pre[2].data@) + amount) as u64,
        )
        &&& acct_like(post[0], pre[0])
    })
}

} // verus!
