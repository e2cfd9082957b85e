//! The fulfilled-path claim on an escrow offer. As the wire contract
//! stands, the maker is the caller: the handler verifies the caller against
//! the recorded maker and the declared mints against the record, and it
//! moves no value itself — the settlement leg is not part of this opcode's
//! observable behavior.

use vstd::prelude::*;

use crate::account::{acct_like, Account};
use crate::errors::{err_of, Ee, ProgramError};
use crate::rent::{rent_fits, spec_minimum_balance, Rent};
use crate::state::{
    lemma_escrow_decode_fields, spec_escrow_amount_y, spec_escrow_decimal_x, spec_escrow_decimal_y,
    spec_escrow_maker, spec_escrow_mint_x, spec_escrow_mint_y, Config, Escrow,
};
use crate::token::{spec_mint_decimals, spec_token_account_mint, spec_token_account_owner};
use crate::validate::{
    check_ata, check_atoken_gpvbd, check_decimals, check_mint0a, check_signer, check_sysprog,
    data_len, executable, none_zero_u64, parse_u64, rent_exempt_mint, writable,
};
use crate::{ID, TOKEN_PROGRAM_ID};

verus! {

broadcast use vstd::array::group_array_axioms;

/// The typed, pre-checked request to settle a fulfilled escrow offer.
pub struct EscrowTokWithdraw {
    /// The caller; must have signed and be the recorded maker.
    pub maker: Account,
    /// The maker's holding account for asset X.
    pub maker_ata_x: Account,
    /// The maker's holding account for asset Y.
    pub maker_ata_y: Account,
    /// The escrow's holding account for asset X.
    pub escrow_ata_x: Account,
    /// The escrow's holding account for asset Y.
    pub escrow_ata_y: Account,
    /// Asset X's mint.
    pub mint_x: Account,
    /// Asset Y's mint.
    pub mint_y: Account,
    /// The escrow record account.
    pub escrow_pda: Account,
    /// The administrative config account.
    pub config_pda: Account,
    /// The legacy token module.
    pub token_program: Account,
    /// The system program.
    pub system_program: Account,
    /// The associated-account module.
    pub atoken_program: Account,
    /// The offer id claimed; non-zero.
    pub id: u64,
}

/// Everything the commit phase verifies of the claim: decodable config and
/// escrow records, the caller as recorded maker, the recorded mints, a
/// non-zero asset-Y amount, and recorded decimals that match both mints.
pub open spec fn withdraw_claim_ok(s: EscrowTokWithdraw) -> bool {
    let d = s.escrow_pda.data@;
    &&& s.config_pda.data@.len() == 90
    &&& s.config_pda.owner@ == ID@
    &&& s.config_pda.data@[88] <= 4
    &&& d.len() == 115
    &&& s.escrow_pda.owner@ == ID@
    &&& spec_escrow_maker(d) == s.maker.key@
    &&& spec_escrow_mint_x(d) == s.mint_x.key@
    &&& spec_escrow_mint_y(d) == s.mint_y.key@
    &&& spec_escrow_amount_y(d) != 0
    &&& s.mint_x.data@.len() == 82
    &&& spec_escrow_decimal_x(d) == spec_mint_decimals(s.mint_x.data@)
    &&& s.mint_y.data@.len() == 82
    &&& spec_escrow_decimal_y(d) == spec_mint_decimals(s.mint_y.data@)
}

/// The record gate the commit phase passes before the field checks:
/// decodable config and escrow records, the caller as recorded maker, and
/// both mints as recorded.
pub open spec fn withdraw_gate_ok(s: EscrowTokWithdraw) -> bool {
    let d = s.escrow_pda.data@;
    &&& s.config_pda.data@.len() == 90
    &&& s.config_pda.owner@ == ID@
    &&& s.config_pda.data@[88] <= 4
    &&& d.len() == 115
    &&& s.escrow_pda.owner@ == ID@
    &&& spec_escrow_maker(d) == s.maker.key@
    &&& spec_escrow_mint_x(d) == s.mint_x.key@
    &&& spec_escrow_mint_y(d) == s.mint_y.key@
}

/// The whole validation phase in one predicate: an 8-byte non-zero offer
/// id, the declared modules, the maker's and escrow's writable holding
/// accounts with their recorded pairs, a writable non-empty record, and
/// rent-exempt legacy mints.
pub open spec fn ew_valid(data: Seq<u8>, accounts: Seq<Account>, rent: Rent) -> bool {
    &&& accounts.len() == 12
    &&& accounts[0].is_signer
    &&& accounts[9].executable
    &&& accounts[10].key@ == crate::SYSTEM_PROGRAM_ID@
    &&& accounts[11].key@ == crate::validate::ATOKENGPVBD@
    &&& accounts[2].is_writable
    &&& accounts[2].data@.len() == 165
    &&& spec_token_account_owner(accounts[2].data@) == accounts[0].key@
    &&& spec_token_account_mint(accounts[2].data@) == accounts[6].key@
    &&& accounts[3].is_writable
    &&& accounts[3].data@.len() == 165
    &&& spec_token_account_owner(accounts[3].data@) == accounts[7].key@
    &&& spec_token_account_mint(accounts[3].data@) == accounts[5].key@
    &&& accounts[7].is_writable
    &&& accounts[8].is_writable
    &&& accounts[7].data@.len() > 0
    &&& data.len() == 8
    &&& vstd::bytes::spec_u64_from_le_bytes(data) != 0
    &&& rent_fits(rent, 82)
    &&& accounts[5].lamports >= spec_minimum_balance(rent, 82)
    &&& accounts[6].lamports >= spec_minimum_balance(rent, 82)
    &&& accounts[5].data@.len() == 82
    &&& accounts[9].key@ == TOKEN_PROGRAM_ID@
    &&& accounts[5].owner@ == TOKEN_PROGRAM_ID@
    &&& accounts[6].data@.len() == 82
    &&& accounts[6].owner@ == TOKEN_PROGRAM_ID@
}

impl EscrowTokWithdraw {
    /// The opcode this handler is routed under.
    pub const DISCRIMINATOR: u8 = 17;

    /// Validation and parse phase: an 8-byte non-zero offer id, twelve
    /// accounts, a signing caller, the declared modules, the maker's
    /// writable asset-Y holding account, the escrow's writable asset-X
    /// holding account, a writable non-empty escrow record, and rent-exempt
    /// legacy mints.
    pub fn try_from(data: &[u8], accounts: &Vec<Account>, rent: &Rent) -> (r: Result<
        EscrowTokWithdraw,
        ProgramError,
    >)
        ensures
            accounts@.len() != 12 ==> r == Err::<EscrowTokWithdraw, ProgramError>(
                ProgramError::NotEnoughAccountKeys,
            ),
            accounts@.len() == 12 && !accounts@[0].is_signer ==> r == Err::<
                EscrowTokWithdraw,
                ProgramError,
            >(err_of(Ee::NotSigner)),
            accounts@.len() == 12 && accounts@[0].is_signer && accounts@[9].executable
                && accounts@[10].key@ == crate::SYSTEM_PROGRAM_ID@ && accounts@[11].key@
                == crate::validate::ATOKENGPVBD@ && accounts@[2].is_writable
                && accounts@[2].data@.len() == 165 && spec_token_account_owner(accounts@[2].data@)
                == accounts@[0].key@ && spec_token_account_mint(accounts@[2].data@)
                == accounts@[6].key@ && accounts@[3].is_writable && accounts@[3].data@.len() == 165
                && spec_token_account_owner(accounts@[3].data@) == accounts@[7].key@
                && spec_token_account_mint(accounts@[3].data@) == accounts@[5].key@
                && accounts@[7].is_writable && accounts@[8].is_writable && accounts@[7].data@.len()
                == 0 ==> r == Err::<EscrowTokWithdraw, ProgramError>(err_of(Ee::EscrowDataEmpty)),
            r is Ok <==> ew_valid(data@, accounts@, *rent),
            r is Ok ==> {
                let s = r.unwrap();
                &&& accounts@.len() == 12
                &&& data@.len() == 8
                &&& acct_like(s.maker, accounts@[0])
                &&& acct_like(s.maker_ata_x, accounts@[1])
                &&& acct_like(s.maker_ata_y, accounts@[2])
                &&& acct_like(s.escrow_ata_x, accounts@[3])
                &&& acct_like(s.escrow_ata_y, accounts@[4])
                &&& acct_like(s.mint_x, accounts@[5])
                &&& acct_like(s.mint_y, accounts@[6])
                &&& acct_like(s.escrow_pda, accounts@[7])
                &&& acct_like(s.config_pda, accounts@[8])
                &&& acct_like(s.token_program, accounts@[9])
                &&& acct_like(s.system_program, accounts@[10])
                &&& acct_like(s.atoken_program, accounts@[11])
                &&& s.id == vstd::bytes::spec_u64_from_le_bytes(data@)
                &&& s.id != 0
                &&& s.maker.is_signer
                &&& s.maker_ata_y.is_writable
                &&& spec_token_account_owner(s.maker_ata_y.data@) == s.maker.key@
                &&& spec_token_account_mint(s.maker_ata_y.data@) == s.mint_y.key@
                &&& s.escrow_ata_x.is_writable
                &&& spec_token_account_owner(s.escrow_ata_x.data@) == s.escrow_pda.key@
                &&& spec_token_account_mint(s.escrow_ata_x.data@) == s.mint_x.key@
                &&& s.escrow_pda.is_writable
                &&& s.config_pda.is_writable
                &&& s.escrow_pda.data@.len() > 0
                &&& rent_fits(*rent, 82)
                &&& s.mint_x.lamports >= spec_minimum_balance(*rent, 82)
                &&& s.mint_y.lamports >= spec_minimum_balance(*rent, 82)
                &&& s.token_program.executable
                &&& s.token_program.key@ == TOKEN_PROGRAM_ID@
                &&& s.mint_x.owner@ == TOKEN_PROGRAM_ID@
                &&& s.mint_y.owner@ == TOKEN_PROGRAM_ID@
            },
    {
        if accounts.len() != 12 {
            return Err(ProgramError::NotEnoughAccountKeys);
        }
        let maker = accounts[0].clone();
        let maker_ata_x = accounts[1].clone();
        let maker_ata_y = accounts[2].clone();
        let escrow_ata_x = accounts[3].clone();
        let escrow_ata_y = accounts[4].clone();
        let mint_x = accounts[5].clone();
        let mint_y = accounts[6].clone();
        let escrow_pda = accounts[7].clone();
        let config_pda = accounts[8].clone();
        let token_program = accounts[9].clone();
        let system_program = accounts[10].clone();
        let atoken_program = accounts[11].clone();
        check_signer(&maker)?;
        executable(&token_program)?;
        check_sysprog(&system_program)?;
        check_atoken_gpvbd(&atoken_program)?;
        writable(&maker_ata_y)?;
        check_ata(&maker_ata_y, &maker, &mint_y)?;
        writable(&escrow_ata_x)?;
        check_ata(&escrow_ata_x, &escrow_pda, &mint_x)?;
        writable(&escrow_pda)?;
        writable(&config_pda)?;
        if escrow_pda.data_is_empty() {
            return Ee::EscrowDataEmpty.e();
        }
        data_len(data, 8)?;
        let id = parse_u64(data)?;
        rent_exempt_mint(&mint_x, rent)?;
        rent_exempt_mint(&mint_y, rent)?;
        check_mint0a(&mint_x, &token_program)?;
        check_mint0a(&mint_y, &token_program)?;
        Ok(EscrowTokWithdraw {
            maker,
            maker_ata_x,
            maker_ata_y,
            escrow_ata_x,
            escrow_ata_y,
            mint_x,
            mint_y,
            escrow_pda,
            config_pda,
            token_program,
            system_program,
            atoken_program,
            id,
        })
    }

    /// Commit phase: verify the claim against the record. A caller other
    /// than the recorded maker fails with an authority error; nothing is
    /// mutated either way.
    pub fn process(&mut self) -> (r: Result<(), ProgramError>)
        ensures
            *final(self) == *old(self),
            old(self).config_pda.data@.len() == 90 && old(self).config_pda.owner@ == ID@ && old(
                self,
            ).config_pda.data@[88] <= 4 && old(self).escrow_pda.data@.len() == 115 && old(
                self,
            ).escrow_pda.owner@ == ID@ && spec_escrow_maker(old(self).escrow_pda.data@) != old(
                self,
            ).maker.key@ ==> r == Err::<(), ProgramError>(ProgramError::IncorrectAuthority),
            old(self).config_pda.data@.len() == 90 && old(self).config_pda.owner@ == ID@ && old(
                self,
            ).config_pda.data@[88] <= 4 && old(self).escrow_pda.data@.len() == 115 && old(
                self,
            ).escrow_pda.owner@ == ID@ && spec_escrow_maker(old(self).escrow_pda.data@) == old(
                self,
            ).maker.key@ && spec_escrow_mint_x(old(self).escrow_pda.data@) != old(
                self,
            ).mint_x.key@ ==> r == Err::<(), ProgramError>(err_of(Ee::EscrowMintX)),
            old(self).config_pda.data@.len() == 90 && old(self).config_pda.owner@ == ID@ && old(
                self,
            ).config_pda.data@[88] <= 4 && old(self).escrow_pda.data@.len() == 115 && old(
                self,
            ).escrow_pda.owner@ == ID@ && spec_escrow_maker(old(self).escrow_pda.data@) == old(
                self,
            ).maker.key@ && spec_escrow_mint_x(old(self).escrow_pda.data@) == old(self).mint_x.key@
                && spec_escrow_mint_y(old(self).escrow_pda.data@) != old(self).mint_y.key@ ==> r
                == Err::<(), ProgramError>(err_of(Ee::EscrowMintY)),
            withdraw_gate_ok(*old(self)) && spec_escrow_amount_y(old(self).escrow_pda.data@) == 0
                ==> r == Err::<(), ProgramError>(err_of(Ee::ZeroAsInput)),
            withdraw_gate_ok(*old(self)) && spec_escrow_amount_y(old(self).escrow_pda.data@) != 0
                && old(self).mint_x.data@.len() == 82 && spec_escrow_decimal_x(
                old(self).escrow_pda.data@,
            ) != spec_mint_decimals(old(self).mint_x.data@) ==> r == Err::<(), ProgramError>(
                err_of(Ee::DecimalsValue),
            ),
            withdraw_gate_ok(*old(self)) && spec_escrow_amount_y(old(self).escrow_pda.data@) != 0
                && old(self).mint_x.data@.len() == 82 && spec_escrow_decimal_x(
                old(self).escrow_pda.data@,
            ) == spec_mint_decimals(old(self).mint_x.data@) && old(self).mint_y.data@.len() == 82
                && spec_escrow_decimal_y(old(self).escrow_pda.data@) != spec_mint_decimals(
                old(self).mint_y.data@,
            ) ==> r == Err::<(), ProgramError>(err_of(Ee::DecimalsValue)),
            r is Ok <==> withdraw_claim_ok(*old(self)),
    {
        let _config = Config::load(&self.config_pda)?;
        let escrow = Escrow::load(&self.escrow_pda)?;
        proof {
            lemma_escrow_decode_fields(escrow, self.escrow_pda.data@);
        }
        if !crate::key_eq(&self.maker.key, &escrow.maker) {
            return Err(ProgramError::IncorrectAuthority);
        }
        if !crate::key_eq(&escrow.mint_x, &self.mint_x.key) {
            return Ee::EscrowMintX.e();
        }
        if !crate::key_eq(&escrow.mint_y, &self.mint_y.key) {
            return Ee::EscrowMintY.e();
        }
        none_zero_u64(escrow.amount_y)?;
        check_decimals(&self.mint_x, escrow.decimal_x)?;
        check_decimals(&self.mint_y, escrow.decimal_y)?;
        Ok(())
    }
}

/// The request as the validation phase types it, built straight from the
/// declared account list and payload.
pub open spec fn ew_request(data: Seq<u8>, accounts: Seq<Account>) -> EscrowTokWithdraw {
    EscrowTokWithdraw {
        maker: accounts[0],
        maker_ata_x: accounts[1],
        maker_ata_y: accounts[2],
        escrow_ata_x: accounts[3],
        escrow_ata_y: accounts[4],
        mint_x: accounts[5],
        mint_y: accounts[6],
        escrow_pda: accounts[7],
        config_pda: accounts[8],
        token_program: accounts[9],
        system_program: accounts[10],
        atoken_program: accounts[11],
        id: vstd::bytes::spec_u64_from_le_bytes(data),
    }
}

/// What routing this opcode must produce: success exactly when validation
/// passes and the claim checks out against the record; nothing is ever
/// mutated.
pub open spec fn ew_routed(
    payload: Seq<u8>,
    pre: Seq<Account>,
    post: Seq<Account>,
    ok: bool,
    rent: Rent,
) -> bool {
    &&& (ok <==> ew_valid(payload, pre, rent) && withdraw_claim_ok(ew_request(payload, pre)))
    &&& post == pre
}

} // verus!
