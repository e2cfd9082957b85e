//! Cancel an unfulfilled escrow offer: only the recorded maker, with the
//! recorded mints, and only while the escrow's asset-Y holding is still
//! below the required amount. The escrowed asset X is released back to the
//! maker, the escrow's balance is swept to the maker, and the record is
//! emptied; a fulfilled offer must instead be settled through the withdraw
//! path.

use vstd::prelude::*;

use crate::account::{acct_like, Account};
use crate::cpi::{same_but_lamports, same_but_token_amount, token_transfer_checked_signed};
use crate::errors::{err_of, Ee, ProgramError};
use crate::pda::{pda_of, seeds3, with_bump};
use crate::rent::{rent_fits, spec_minimum_balance, Rent};
use crate::state::{
    lemma_escrow_decode_fields, spec_escrow_amount_y, spec_escrow_bump, spec_escrow_decimal_x,
    spec_escrow_decimal_y, spec_escrow_id, spec_escrow_maker, spec_escrow_mint_x,
    spec_escrow_mint_y, Config, Escrow,
};
use crate::token::{
    spec_mint_decimals, spec_token_account_amount, spec_token_account_mint,
    spec_token_account_owner,
};
use crate::validate::{
    check_ata, check_atoken_gpvbd, check_decimals, check_mint0a, check_signer, check_sysprog,
    data_len, executable, none_zero_u64, rent_exempt_mint, writable,
};
use crate::{ESCROW_SEED, ID, SYSTEM_PROGRAM_ID, TOKEN_PROGRAM_ID};

verus! {

broadcast use vstd::array::group_array_axioms;

/// The typed, pre-checked request to cancel an escrow offer.
pub struct EscrowTokCancel {
    /// The caller; must have signed and be the recorded maker.
    pub maker: Account,
    /// The maker's holding account for asset X; receives the refund.
    pub maker_ata_x: Account,
    /// The maker's holding account for asset Y.
    pub maker_ata_y: Account,
    /// The escrow's holding account for asset X.
    pub escrow_ata_x: Account,
    /// The escrow's holding account for asset Y.
    pub escrow_ata_y: Account,
    /// Asset X's mint.
    pub mint_x: Account,
    /// Asset Y's mint.
    pub mint_y: Account,
    /// The escrow record account.
    pub escrow_pda: Account,
    /// The administrative config account.
    pub config_pda: Account,
    /// The legacy token module.
    pub token_program: Account,
    /// The system program.
    pub system_program: Account,
    /// The associated-account module.
    pub atoken_program: Account,
}

/// Everything the commit phase demands before any value moves: decodable
/// config and escrow records, the caller as recorded maker, the recorded
/// mints, an unmet fill condition, the record-derived escrow address, and
/// room for the refund and the sweep.
pub open spec fn cancel_ok(s: EscrowTokCancel) -> bool {
    let d = s.escrow_pda.data@;
    &&& s.config_pda.data@.len() == 90
    &&& s.config_pda.owner@ == ID@
    &&& s.config_pda.data@[88] <= 4
    &&& d.len() == 115
    &&& s.escrow_pda.owner@ == ID@
    &&& spec_escrow_maker(d) == s.maker.key@
    &&& spec_escrow_mint_x(d) == s.mint_x.key@
    &&& spec_escrow_mint_y(d) == s.mint_y.key@
    &&& spec_escrow_amount_y(d) != 0
    &&& s.mint_x.data@.len() == 82
    &&& spec_escrow_decimal_x(d) == spec_mint_decimals(s.mint_x.data@)
    &&& s.mint_y.data@.len() == 82
    &&& spec_escrow_decimal_y(d) == spec_mint_decimals(s.mint_y.data@)
    &&& s.escrow_ata_y.data@.len() >= 165
    &&& spec_token_account_amount(s.escrow_ata_y.data@) < spec_escrow_amount_y(d)
    &&& pda_of(
        with_bump(seeds3(ESCROW_SEED@, spec_escrow_maker(d), spec_escrow_id(d)), spec_escrow_bump(d)),
        ID@,
    ) == Some(s.escrow_pda.key@)
    &&& s.escrow_ata_x.data@.len() == 165
    &&& spec_token_account_owner(s.escrow_ata_x.data@) == s.escrow_pda.key@
    &&& spec_token_account_mint(s.escrow_ata_x.data@) == s.mint_x.key@
    &&& s.maker_ata_x.data@.len() >= 165
    &&& spec_token_account_mint(s.maker_ata_x.data@) == s.mint_x.key@
    &&& spec_token_account_amount(s.maker_ata_x.data@) + spec_token_account_amount(
        s.escrow_ata_x.data@,
    ) <= u64::MAX
    &&& s.maker.lamports + s.escrow_pda.lamports <= u64::MAX
}

/// The whole validation phase in one predicate: an empty payload, the
/// declared modules, the escrow's writable holding accounts recorded for
/// the escrow, a writable non-empty record, and rent-exempt legacy mints.
pub open spec fn cancel_valid(data: Seq<u8>, accounts: Seq<Account>, rent: Rent) -> bool {
    &&& data.len() == 0
    &&& accounts.len() == 12
    &&& accounts[0].is_signer
    &&& accounts[9].executable
    &&& accounts[10].key@ == SYSTEM_PROGRAM_ID@
    &&& accounts[11].key@ == crate::validate::ATOKENGPVBD@
    &&& accounts[3].is_writable
    &&& accounts[3].data@.len() == 165
    &&& spec_token_account_owner(accounts[3].data@) == accounts[7].key@
    &&& spec_token_account_mint(accounts[3].data@) == accounts[5].key@
    &&& accounts[4].is_writable
    &&& accounts[4].data@.len() == 165
    &&& spec_token_account_owner(accounts[4].data@) == accounts[7].key@
    &&& spec_token_account_mint(accounts[4].data@) == accounts[6].key@
    &&& accounts[7].is_writable
    &&& accounts[8].is_writable
    &&& accounts[7].data@.len() > 0
    &&& rent_fits(rent, 82)
    &&& accounts[5].lamports >= spec_minimum_balance(rent, 82)
    &&& accounts[6].lamports >= spec_minimum_balance(rent, 82)
    &&& accounts[5].data@.len() == 82
    &&& accounts[9].key@ == TOKEN_PROGRAM_ID@
    &&& accounts[5].owner@ == TOKEN_PROGRAM_ID@
    &&& accounts[6].data@.len() == 82
    &&& accounts[6].owner@ == TOKEN_PROGRAM_ID@
}

impl EscrowTokCancel {
    /// The opcode this handler is routed under.
    pub const DISCRIMINATOR: u8 = 18;

    /// Validation and parse phase: an empty payload, twelve accounts, a
    /// signing caller, the declared modules, the escrow's writable holding
    /// accounts recorded for the escrow, a writable non-empty escrow record,
    /// and rent-exempt legacy mints.
    pub fn try_from(data: &[u8], accounts: &Vec<Account>, rent: &Rent) -> (r: Result<
        EscrowTokCancel,
        ProgramError,
    >)
        ensures
            data@.len() > 0 ==> r == Err::<EscrowTokCancel, ProgramError>(
                err_of(Ee::InputDataOverMax),
            ),
            data@.len() == 0 && accounts@.len() != 12 ==> r == Err::<EscrowTokCancel, ProgramError>(
                ProgramError::NotEnoughAccountKeys,
            ),
            data@.len() == 0 && accounts@.len() == 12 && !accounts@[0].is_signer ==> r == Err::<
                EscrowTokCancel,
                ProgramError,
            >(err_of(Ee::NotSigner)),
            data@.len() == 0 && accounts@.len() == 12 && accounts@[0].is_signer
                && accounts@[9].executable && accounts@[10].key@ == crate::SYSTEM_PROGRAM_ID@
                && accounts@[11].key@ == crate::validate::ATOKENGPVBD@ && accounts@[3].is_writable
                && accounts@[3].data@.len() == 165 && spec_token_account_owner(accounts@[3].data@)
                == accounts@[7].key@ && spec_token_account_mint(accounts@[3].data@)
                == accounts@[5].key@ && accounts@[4].is_writable && accounts@[4].data@.len() == 165
                && spec_token_account_owner(accounts@[4].data@) == accounts@[7].key@
                && spec_token_account_mint(accounts@[4].data@) == accounts@[6].key@
                && accounts@[7].is_writable && accounts@[8].is_writable && accounts@[7].data@.len()
                == 0 ==> r == Err::<EscrowTokCancel, ProgramError>(err_of(Ee::EscrowDataEmpty)),
            r is Ok <==> cancel_valid(data@, accounts@, *rent),
            r is Ok ==> {
                let s = r.unwrap();
                &&& data@.len() == 0
                &&& accounts@.len() == 12
                &&& acct_like(s.maker, accounts@[0])
                &&& acct_like(s.maker_ata_x, accounts@[1])
                &&& acct_like(s.maker_ata_y, accounts@[2])
                &&& acct_like(s.escrow_ata_x, accounts@[3])
                &&& acct_like(s.escrow_ata_y, accounts@[4])
                &&& acct_like(s.mint_x, accounts@[5])
                &&& acct_like(s.mint_y, accounts@[6])
                &&& acct_like(s.escrow_pda, accounts@[7])
                &&& acct_like(s.config_pda, accounts@[8])
                &&& acct_like(s.token_program, accounts@[9])
                &&& acct_like(s.system_program, accounts@[10])
                &&& acct_like(s.atoken_program, accounts@[11])
                &&& s.maker.is_signer
                &&& s.escrow_ata_x.is_writable
                &&& s.escrow_ata_y.is_writable
                &&& s.escrow_pda.is_writable
                &&& s.config_pda.is_writable
                &&& s.escrow_pda.data@.len() > 0
                &&& s.escrow_ata_x.data@.len() == 165
                &&& spec_token_account_owner(s.escrow_ata_x.data@) == s.escrow_pda.key@
                &&& spec_token_account_mint(s.escrow_ata_x.data@) == s.mint_x.key@
                &&& s.escrow_ata_y.data@.len() == 165
                &&& spec_token_account_owner(s.escrow_ata_y.data@) == s.escrow_pda.key@
                &&& spec_token_account_mint(s.escrow_ata_y.data@) == s.mint_y.key@
                &&& rent_fits(*rent, 82)
                &&& s.mint_x.lamports >= spec_minimum_balance(*rent, 82)
                &&& s.mint_y.lamports >= spec_minimum_balance(*rent, 82)
                &&& s.token_program.key@ == TOKEN_PROGRAM_ID@
                &&& s.mint_x.owner@ == TOKEN_PROGRAM_ID@
                &&& s.mint_y.owner@ == TOKEN_PROGRAM_ID@
            },
    {
        data_len(data, 0)?;
        if accounts.len() != 12 {
            return Err(ProgramError::NotEnoughAccountKeys);
        }
        let maker = accounts[0].clone();
        let maker_ata_x = accounts[1].clone();
        let maker_ata_y = accounts[2].clone();
        let escrow_ata_x = accounts[3].clone();
        let escrow_ata_y = accounts[4].clone();
        let mint_x = accounts[5].clone();
        let mint_y = accounts[6].clone();
        let escrow_pda = accounts[7].clone();
        let config_pda = accounts[8].clone();
        let token_program = accounts[9].clone();
        let system_program = accounts[10].clone();
        let atoken_program = accounts[11].clone();
        check_signer(&maker)?;
        executable(&token_program)?;
        check_sysprog(&system_program)?;
        check_atoken_gpvbd(&atoken_program)?;
        writable(&escrow_ata_x)?;
        check_ata(&escrow_ata_x, &escrow_pda, &mint_x)?;
        writable(&escrow_ata_y)?;
        check_ata(&escrow_ata_y, &escrow_pda, &mint_y)?;
        writable(&escrow_pda)?;
        writable(&config_pda)?;
        if escrow_pda.data_is_empty() {
            return Ee::EscrowDataEmpty.e();
        }
        rent_exempt_mint(&mint_x, rent)?;
        rent_exempt_mint(&mint_y, rent)?;
        check_mint0a(&mint_x, &token_program)?;
        check_mint0a(&mint_y, &token_program)?;
        Ok(EscrowTokCancel {
            maker,
            maker_ata_x,
            maker_ata_y,
            escrow_ata_x,
            escrow_ata_y,
            mint_x,
            mint_y,
            escrow_pda,
            config_pda,
            token_program,
            system_program,
            atoken_program,
        })
    }

    /// Commit phase: check the record against the caller and the declared
    /// mints, refuse a fulfilled offer, then release asset X back to the
    /// maker under the escrow's derived signature, sweep the escrow's
    /// balance to the maker, and empty the record. All-or-nothing.
    pub fn process(&mut self) -> (r: Result<(), ProgramError>)
        ensures
            r is Err ==> *final(self) == *old(self),
            old(self).config_pda.data@.len() == 90 && old(self).config_pda.owner@ == ID@ && old(
                self,
            ).config_pda.data@[88] <= 4 && old(self).escrow_pda.data@.len() == 115 && old(
                self,
            ).escrow_pda.owner@ == ID@ && spec_escrow_maker(old(self).escrow_pda.data@) != old(
                self,
            ).maker.key@ ==> r == Err::<(), ProgramError>(err_of(Ee::OnlyMaker)),
            old(self).config_pda.data@.len() == 90 && old(self).config_pda.owner@ == ID@ && old(
                self,
            ).config_pda.data@[88] <= 4 && old(self).escrow_pda.data@.len() == 115 && old(
                self,
            ).escrow_pda.owner@ == ID@ && spec_escrow_maker(old(self).escrow_pda.data@) == old(
                self,
            ).maker.key@ && spec_escrow_mint_x(old(self).escrow_pda.data@) != old(
                self,
            ).mint_x.key@ ==> r == Err::<(), ProgramError>(err_of(Ee::EscrowMintX)),
            old(self).config_pda.data@.len() == 90 && old(self).config_pda.owner@ == ID@ && old(
                self,
            ).config_pda.data@[88] <= 4 && old(self).escrow_pda.data@.len() == 115 && old(
                self,
            ).escrow_pda.owner@ == ID@ && spec_escrow_maker(old(self).escrow_pda.data@) == old(
                self,
            ).maker.key@ && spec_escrow_mint_x(old(self).escrow_pda.data@) == old(self).mint_x.key@
                && spec_escrow_mint_y(old(self).escrow_pda.data@) != old(self).mint_y.key@ ==> r
                == Err::<(), ProgramError>(err_of(Ee::EscrowMintY)),
            old(self).config_pda.data@.len() == 90 && old(self).config_pda.owner@ == ID@ && old(
                self,
            ).config_pda.data@[88] <= 4 && old(self).escrow_pda.data@.len() == 115 && old(
                self,
            ).escrow_pda.owner@ == ID@ && spec_escrow_maker(old(self).escrow_pda.data@) == old(
                self,
            ).maker.key@ && spec_escrow_mint_x(old(self).escrow_pda.data@) == old(self).mint_x.key@
                && spec_escrow_mint_y(old(self).escrow_pda.data@) == old(self).mint_y.key@
                && spec_escrow_amount_y(old(self).escrow_pda.data@) != 0 && old(
                self,
            ).mint_x.data@.len() == 82 && spec_escrow_decimal_x(old(self).escrow_pda.data@)
                == spec_mint_decimals(old(self).mint_x.data@) && old(self).mint_y.data@.len() == 82
                && spec_escrow_decimal_y(old(self).escrow_pda.data@) == spec_mint_decimals(
                old(self).mint_y.data@,
            ) && old(self).escrow_ata_y.data@.len() >= 165 && spec_token_account_amount(
                old(self).escrow_ata_y.data@,
            ) >= spec_escrow_amount_y(old(self).escrow_pda.data@) ==> r == Err::<
                (),
                ProgramError,
            >(err_of(Ee::MakerToWithdrawTokenY)),
            r is Ok <==> cancel_ok(*old(self)),
            r is Ok ==> {
                &&& same_but_token_amount(old(self).escrow_ata_x, final(self).escrow_ata_x, 0u64)
                &&& same_but_token_amount(
                    old(self).maker_ata_x,
                    final(self).maker_ata_x,
                    (spec_token_account_amount(old(self).maker_ata_x.data@)
                        + spec_token_account_amount(old(self).escrow_ata_x.data@)) as u64,
                )
                &&& final(self).escrow_pda.key == old(self).escrow_pda.key
                &&& final(self).escrow_pda.lamports == 0
                &&& final(self).escrow_pda.data@ == Seq::<u8>::empty()
                &&& final(self).escrow_pda.owner@ == SYSTEM_PROGRAM_ID@
                &&& same_but_lamports(
                    old(self).maker,
                    final(self).maker,
                    (old(self).maker.lamports + old(self).escrow_pda.lamports) as u64,
                )
                &&& acct_like(final(self).maker_ata_y, old(self).maker_ata_y)
                &&& acct_like(final(self).escrow_ata_y, old(self).escrow_ata_y)
                &&& acct_like(final(self).mint_x, old(self).mint_x)
                &&& acct_like(final(self).mint_y, old(self).mint_y)
                &&& acct_like(final(self).config_pda, old(self).config_pda)
                &&& acct_like(final(self).token_program, old(self).token_program)
                &&& acct_like(final(self).system_program, old(self).system_program)
                &&& acct_like(final(self).atoken_program, old(self).atoken_program)
            },
    {
        let _config = Config::load(&self.config_pda)?;
        let escrow = Escrow::load(&self.escrow_pda)?;
        proof {
            lemma_escrow_decode_fields(escrow, self.escrow_pda.data@);
        }
        let id = escrow.id;
        let bump = escrow.bump;
        if !crate::key_eq(&self.maker.key, &escrow.maker) {
            return Ee::OnlyMaker.e();
        }
        if !crate::key_eq(&escrow.mint_x, &self.mint_x.key) {
            return Ee::EscrowMintX.e();
        }
        if !crate::key_eq(&escrow.mint_y, &self.mint_y.key) {
            return Ee::EscrowMintY.e();
        }
        let decimal_x = escrow.decimal_x;
        let amount_y = escrow.amount_y;
        let decimal_y = escrow.decimal_y;
        none_zero_u64(amount_y)?;
        check_decimals(&self.mint_x, decimal_x)?;
        check_decimals(&self.mint_y, decimal_y)?;
        let escrow_ata_y_amount = crate::token::token_account_amount(&self.escrow_ata_y)?;
        if escrow_ata_y_amount >= amount_y {
            return Ee::MakerToWithdrawTokenY.e();
        }
        let seed_vec = crate::pda::seeds_owner_id(ESCROW_SEED.as_slice(), &escrow.maker, id);
        proof {
            vstd::bytes::lemma_auto_spec_u64_to_from_le_bytes();
        }
        if !crate::pda::verify_pda(&seed_vec, bump, &self.escrow_pda.key) {
            return Err(ProgramError::InvalidSeeds);
        }
        check_ata(&self.escrow_ata_x, &self.escrow_pda, &self.mint_x)?;
        let refund = crate::token::token_account_amount(&self.escrow_ata_x)?;
        let maker_x_mint = crate::token::token_account_mint(&self.maker_ata_x)?;
        if !crate::key_eq(&maker_x_mint, &self.mint_x.key) {
            return Err(ProgramError::InvalidAccountData);
        }
        let maker_x_amount = crate::token::token_account_amount(&self.maker_ata_x)?;
        match maker_x_amount.checked_add(refund) {
            Some(_) => (),
            None => {
                return Err(ProgramError::ArithmeticOverflow);
            },
        }
        let swept = match self.maker.lamports.checked_add(self.escrow_pda.lamports) {
            Some(v) => v,
            None => {
                return Err(ProgramError::ArithmeticOverflow);
            },
        };
        token_transfer_checked_signed(
            &mut self.escrow_ata_x,
            &self.mint_x,
            &mut self.maker_ata_x,
            &self.escrow_pda,
            refund,
            decimal_x,
            &seed_vec,
            bump,
        )?;
        self.maker.lamports = swept;
        self.escrow_pda.lamports = 0;
        self.escrow_pda.data = Vec::new();
        self.escrow_pda.owner = SYSTEM_PROGRAM_ID;
        proof {
            assert(self.escrow_pda.data@ =~= Seq::<u8>::empty());
        }
        Ok(())
    }
}

/// The request as the validation phase types it, built straight from the
/// declared account list.
pub open spec fn cancel_request(accounts: Seq<Account>) -> EscrowTokCancel {
    EscrowTokCancel {
        maker: accounts[0],
        maker_ata_x: accounts[1],
        maker_ata_y: accounts[2],
        escrow_ata_x: accounts[3],
        escrow_ata_y: accounts[4],
        mint_x: accounts[5],
        mint_y: accounts[6],
        escrow_pda: accounts[7],
        config_pda: accounts[8],
        token_program: accounts[9],
        system_program: accounts[10],
        atoken_program: accounts[11],
    }
}

/// What routing this opcode must produce: success exactly when both
/// phases' chains go through; on success the escrowed asset X returns to
/// the maker, the escrow's balance is swept to the maker, and the record is
/// emptied and released.
pub open spec fn cancel_routed(
    payload: Seq<u8>,
    pre: Seq<Account>,
    post: Seq<Account>,
    ok: bool,
    rent: Rent,
) -> bool {
    &&& (ok <==> cancel_valid(payload, pre, rent) && cancel_ok(cancel_request(pre)))
    &&& (ok ==> {
        &&& post.len() == 12
        &&& same_but_token_amount(pre[3], post[3], 0u64)
        &&& same_but_token_amount(
            pre[1],
            post[1],
            (spec_token_account_amount(pre[1].data@) + spec_token_account_amount(
                pre[3].data@,
            )) as u64,
        )
        &&& post[7].key == pre[7].key
        &&& post[7].lamports == 0
        &&& post[7].data@ == Seq::<u8>::empty()
        &&& post[7].owner@ == SYSTEM_PROGRAM_ID@
        &&& crate::account::acct_like_but_lamports(
            pre[0],
            post[0],
            (pre[0].lamports + pre[7].lamports) as u64,
        )
        &&& acct_like(post[2], pre[2])
        &&& acct_like(post[4], pre[4])
        &&& acct_like(post[5], pre[5])
        &&& acct_like(post[6], pre[6])
        &&& acct_like(post[8], pre[8])
        &&& acct_like(post[9], pre[9])
        &&& acct_like(post[10], pre[10])
        &&& acct_like(post[11], pre[11])
    })
}

} // verus!
