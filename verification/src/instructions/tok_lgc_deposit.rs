//! Deposit tokens into a wallet's holding account under the legacy token
//! module: validate the payer's own holding account, lazily create the
//! destination holding account at its canonical derived address, then issue
//! the checked transfer.

use vstd::prelude::*;

use crate::account::{acct_like, Account};
use crate::cpi::{ata_create, same_but_lamports, same_but_token_amount, token_transfer_checked};
use crate::errors::{err_of, Ee, ProgramError};
use crate::pda::ata_derived;
use crate::rent::{rent_fits, spec_minimum_balance, Rent};
use crate::token::{
    lemma_token_account_fill, spec_mint_decimals, spec_token_account_amount,
    spec_token_account_filled, spec_token_account_mint, spec_token_account_owner,
    TOKEN_ACCOUNT_LEN,
};
use crate::validate::{
    check_ata, check_decimals, check_signer, check_sysprog, executable, parse_u64, rent_exempt,
    rent_exempt_tokacct, writable,
};
use crate::{SYSTEM_PROGRAM_ID, TOKEN_PROGRAM_ID};

verus! {

broadcast use vstd::array::group_array_axioms;

/// The typed, pre-checked request to deposit tokens.
pub struct TokLgcDeposit {
    /// The depositor; must have signed and own the source holding account.
    pub authority: Account,
    /// The depositor's holding account for the asset.
    pub from_ata: Account,
    /// The destination holding account; lazily created.
    pub to_ata: Account,
    /// The wallet the destination holding account belongs to.
    pub to_wallet: Account,
    /// The asset's mint.
    pub mint: Account,
    /// The legacy token module.
    pub token_program: Account,
    /// The system program.
    pub system_program: Account,
    /// The associated-account module.
    pub atoken_program: Account,
    /// Decimals declared for the asset.
    pub decimals: u8,
    /// How much to move; non-zero.
    pub amount: u64,
}

/// The checks shared by both destination branches: a signing depositor, a
/// loaded token module, a writable source holding account recorded for the
/// depositor in this asset, a rent-exempt mint with matching decimals, the
/// system program, and enough tokens at the source.
pub open spec fn deposit_common_ok(s: TokLgcDeposit, rent: Rent) -> bool {
    &&& s.authority.is_signer
    &&& s.token_program.executable
    &&& s.from_ata.is_writable
    &&& s.from_ata.data@.len() == 165
    &&& spec_token_account_owner(s.from_ata.data@) == s.authority.key@
    &&& spec_token_account_mint(s.from_ata.data@) == s.mint.key@
    &&& rent_fits(rent, 82)
    &&& s.mint.lamports >= spec_minimum_balance(rent, 82)
    &&& s.mint.data@.len() == 82
    &&& s.decimals == spec_mint_decimals(s.mint.data@)
    &&& s.system_program.key@ == SYSTEM_PROGRAM_ID@
    &&& spec_token_account_amount(s.from_ata.data@) >= s.amount
}

/// What the lazy-create branch additionally needs: the destination slot is
/// untouched and writable, sits at the canonical derived address, and the
/// depositor can fund its rent.
pub open spec fn deposit_create_ok(s: TokLgcDeposit, rent: Rent) -> bool {
    &&& ata_derived(s.to_wallet.key@, TOKEN_PROGRAM_ID@, s.mint.key@, s.to_ata.key@)
    &&& s.to_ata.lamports == 0
    &&& s.to_ata.owner@ == SYSTEM_PROGRAM_ID@
    &&& s.to_ata.is_writable
    &&& rent_fits(rent, 165)
    &&& s.authority.lamports >= spec_minimum_balance(rent, 165)
}

/// What the existing-destination branch additionally needs: a writable,
/// rent-exempt holding account recorded for the destination wallet in this
/// asset, with room for the amount.
pub open spec fn deposit_existing_ok(s: TokLgcDeposit, rent: Rent) -> bool {
    &&& s.to_ata.data@.len() == 165
    &&& spec_token_account_owner(s.to_ata.data@) == s.to_wallet.key@
    &&& spec_token_account_mint(s.to_ata.data@) == s.mint.key@
    &&& s.to_ata.is_writable
    &&& rent_fits(rent, 165)
    &&& s.to_ata.lamports >= spec_minimum_balance(rent, 165)
    &&& spec_token_account_amount(s.to_ata.data@) + s.amount <= u64::MAX
}

impl TokLgcDeposit {
    /// The opcode this handler is routed under.
    pub const DISCRIMINATOR: u8 = 5;

    /// Validation and parse phase: eight accounts and a 9-byte payload of
    /// decimals plus a non-zero little-endian amount.
    pub fn try_from(data: &[u8], accounts: &Vec<Account>) -> (r: Result<
        TokLgcDeposit,
        ProgramError,
    >)
        ensures
            accounts@.len() != 8 ==> r == Err::<TokLgcDeposit, ProgramError>(
                ProgramError::NotEnoughAccountKeys,
            ),
            accounts@.len() == 8 && data@.len() < 9 ==> r == Err::<TokLgcDeposit, ProgramError>(
                ProgramError::AccountDataTooSmall,
            ),
            accounts@.len() == 8 && data@.len() > 9 ==> r == Err::<TokLgcDeposit, ProgramError>(
                err_of(Ee::U64ByteSizeInvalid),
            ),
            accounts@.len() == 8 && data@.len() == 9 && vstd::bytes::spec_u64_from_le_bytes(
                data@.subrange(1, 9),
            ) == 0 ==> r == Err::<TokLgcDeposit, ProgramError>(err_of(Ee::ZeroAsInput)),
            accounts@.len() == 8 && data@.len() == 9 && vstd::bytes::spec_u64_from_le_bytes(
                data@.subrange(1, 9),
            ) != 0 ==> r is Ok && {
                let s = r.unwrap();
                &&& acct_like(s.authority, accounts@[0])
                &&& acct_like(s.from_ata, accounts@[1])
                &&& acct_like(s.to_ata, accounts@[2])
                &&& acct_like(s.to_wallet, accounts@[3])
                &&& acct_like(s.mint, accounts@[4])
                &&& acct_like(s.token_program, accounts@[5])
                &&& acct_like(s.system_program, accounts@[6])
                &&& acct_like(s.atoken_program, accounts@[7])
                &&& s.decimals == data@[0]
                &&& s.amount == vstd::bytes::spec_u64_from_le_bytes(data@.subrange(1, 9))
                &&& s.amount != 0
            },
    {
        if accounts.len() != 8 {
            return Err(ProgramError::NotEnoughAccountKeys);
        }
        if data.len() < 9 {
            return Err(ProgramError::AccountDataTooSmall);
        }
        let decimals = data[0];
        let rest = vstd::slice::slice_subrange(data, 1, data.len());
        let amount = parse_u64(rest)?;
        Ok(TokLgcDeposit {
            authority: accounts[0].clone(),
            from_ata: accounts[1].clone(),
            to_ata: accounts[2].clone(),
            to_wallet: accounts[3].clone(),
            mint: accounts[4].clone(),
            token_program: accounts[5].clone(),
            system_program: accounts[6].clone(),
            atoken_program: accounts[7].clone(),
            decimals,
            amount,
        })
    }

    /// Commit phase: the whole precondition chain is checked before any
    /// state moves; then the destination is created if needed and the
    /// checked transfer is issued.
    pub fn process(&mut self, rent: &Rent) -> (r: Result<(), ProgramError>)
        ensures
            r is Err ==> *final(self) == *old(self),
            !old(self).authority.is_signer ==> r == Err::<(), ProgramError>(err_of(Ee::NotSigner)),
            old(self).authority.is_signer && !old(self).token_program.executable ==> r == Err::<
                (),
                ProgramError,
            >(err_of(Ee::NotExecutable)),
            r is Ok <==> deposit_common_ok(*old(self), *rent) && (if old(self).to_ata.data@.len()
                == 0 {
                deposit_create_ok(*old(self), *rent)
            } else {
                deposit_existing_ok(*old(self), *rent)
            }),
            r is Ok ==> {
                &&& same_but_token_amount(
                    old(self).from_ata,
                    final(self).from_ata,
                    (spec_token_account_amount(old(self).from_ata.data@) - old(self).amount) as u64,
                )
                &&& acct_like(final(self).to_wallet, old(self).to_wallet)
                &&& acct_like(final(self).mint, old(self).mint)
                &&& acct_like(final(self).token_program, old(self).token_program)
                &&& acct_like(final(self).system_program, old(self).system_program)
                &&& acct_like(final(self).atoken_program, old(self).atoken_program)
                &&& final(self).decimals == old(self).decimals
                &&& final(self).amount == old(self).amount
            },
            r is Ok && old(self).to_ata.data@.len() == 0 ==> {
                &&& final(self).to_ata.key == old(self).to_ata.key
                &&& final(self).to_ata.owner@ == TOKEN_PROGRAM_ID@
                &&& final(self).to_ata.lamports == spec_minimum_balance(*rent, 165)
                &&& final(self).to_ata.data@ == spec_token_account_filled(
                    old(self).mint.key@,
                    old(self).to_wallet.key@,
                    old(self).amount,
                )
                &&& same_but_lamports(
                    old(self).authority,
                    final(self).authority,
                    (old(self).authority.lamports - spec_minimum_balance(*rent, 165)) as u64,
                )
            },
            r is Ok && old(self).to_ata.data@.len() != 0 ==> {
                &&& same_but_token_amount(
                    old(self).to_ata,
                    final(self).to_ata,
                    (spec_token_account_amount(old(self).to_ata.data@) + old(self).amount) as u64,
                )
                &&& acct_like(final(self).authority, old(self).authority)
            },
    {
        check_signer(&self.authority)?;
        executable(&self.token_program)?;
        writable(&self.from_ata)?;
        check_ata(&self.from_ata, &self.authority, &self.mint)?;
        rent_exempt(&self.mint, 0, rent)?;
        check_decimals(&self.mint, self.decimals)?;
        check_sysprog(&self.system_program)?;
        let from_amount = crate::token::token_account_amount(&self.from_ata)?;
        if from_amount < self.amount {
            return Ee::InsufficientFundNominal.e();
        }
        if self.to_ata.data_is_empty() {
            writable(&self.to_ata)?;
            if !crate::pda::check_ata_derivation(
                &self.to_wallet.key,
                &TOKEN_PROGRAM_ID,
                &self.mint.key,
                &self.to_ata.key,
            ) {
                return Err(ProgramError::InvalidSeeds);
            }
            if !(self.to_ata.lamports == 0 && self.to_ata.is_owned_by(&SYSTEM_PROGRAM_ID)) {
                return Err(ProgramError::AccountAlreadyInitialized);
            }
            let min = rent.minimum_balance(TOKEN_ACCOUNT_LEN)?;
            if self.authority.lamports < min {
                return Err(ProgramError::InsufficientFunds);
            }
            ata_create(&mut self.authority, &mut self.to_ata, &self.to_wallet, &self.mint, rent)?;
            proof {
                crate::token::lemma_token_account_init_fields(
                    self.mint.key@,
                    self.to_wallet.key@,
                );
            }
            token_transfer_checked(
                &mut self.from_ata,
                &self.mint,
                &mut self.to_ata,
                &self.authority,
                self.amount,
                self.decimals,
            )?;
            proof {
                lemma_token_account_fill(
                    old(self).mint.key@,
                    old(self).to_wallet.key@,
                    old(self).amount,
                    self.to_ata.data@,
                );
            }
            Ok(())
        } else {
            check_ata(&self.to_ata, &self.to_wallet, &self.mint)?;
            writable(&self.to_ata)?;
            rent_exempt_tokacct(&self.to_ata, rent)?;
            token_transfer_checked(
                &mut self.from_ata,
                &self.mint,
                &mut self.to_ata,
                &self.authority,
                self.amount,
                self.decimals,
            )?;
            Ok(())
        }
    }
}

/// The request as the validation phase types it, built straight from the
/// declared account list and payload.
pub open spec fn deposit_request(data: Seq<u8>, accounts: Seq<Account>) -> TokLgcDeposit {
    TokLgcDeposit {
        authority: accounts[0],
        from_ata: accounts[1],
        to_ata: accounts[2],
        to_wallet: accounts[3],
        mint: accounts[4],
        token_program: accounts[5],
        system_program: accounts[6],
        atoken_program: accounts[7],
        decimals: data[0],
        amount: vstd::bytes::spec_u64_from_le_bytes(data.subrange(1, 9)),
    }
}

/// What routing this opcode must produce: success exactly when the request
/// parses non-zero and both phases' chains go through; on success the
/// amount moves from the depositor's holding account into the (possibly
/// freshly created) destination.
pub open spec fn toklgc_deposit_routed(
    payload: Seq<u8>,
    pre: Seq<Account>,
    post: Seq<Account>,
    ok: bool,
    rent: Rent,
) -> bool {
    let s = deposit_request(payload, pre);
    let amount = vstd::bytes::spec_u64_from_le_bytes(payload.subrange(1, 9));
    &&& (ok <==> {
        &&& pre.len() == 8
        &&& payload.len() == 9
        &&& amount != 0
        &&& deposit_common_ok(s, rent)
        &&& (if pre[2].data@.len() == 0 {
            deposit_create_ok(s, rent)
        } else {
            deposit_existing_ok(s, rent)
        })
    })
    &&& (ok ==> {
        &&& post.len() == 8
        &&& same_but_token_amount(
            pre[1],
            post[1],
            (spec_token_account_amount(pre[1].data@) - amount) as u64,
        )
        &&& acct_like(post[3], pre[3])
        &&& acct_like(post[4], pre[4])
        &&& acct_like(post[5], pre[5])
        &&& acct_like(post[6], pre[6])
        &&& acct_like(post[7], pre[7])
    })
    &&& (ok && pre[2].data@.len() == 0 ==> {
        &&& post[2].key == pre[2].key
        &&& post[2].owner@ == TOKEN_PROGRAM_ID@
        &&& post[2].lamports == spec_minimum_balance(rent, 165)
        &&& post[2].data@ == spec_token_account_filled(pre[4].key@, pre[3].key@, amount)
        &&& crate::account::acct_like_but_lamports(
            pre[0],
            post[0],
            (pre[0].lamports - spec_minimum_balance(rent, 165)) as u64,
        )
    })
    &&& (ok && pre[2].data@.len() != 0 ==> {
        &&& same_but_token_amount(
            pre[2],
            post[2],
            (spec_token_account_amount(pre[2].data@) + amount) as u64,
        )
        &&& acct_like(post[0], pre[0])
    })
}

} // verus!
