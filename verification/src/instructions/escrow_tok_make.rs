//! Make a token escrow offer: derive the escrow address from the maker and
//! the offer id, create the escrow account there, create its holding
//! account for asset X if needed, move the offered amount of asset X into
//! escrow, and persist the offer's terms. Fails if the derived address is
//! already funded.

use vstd::prelude::*;

use crate::account::{acct_like, Account};
use crate::cpi::{
    ata_create, create_account_signed, same_but_token_amount, token_transfer_checked,
};
use crate::errors::{err_of, Ee, ProgramError};
use crate::instructions::{derive_fails, derives_key, derives_key_with_bump};
use crate::pda::{ata_derived, seeds3};
use crate::rent::{rent_fits, spec_minimum_balance, Rent};
use crate::state::{lemma_escrow_bytes_fields, spec_escrow_bytes, Escrow, ESCROW_LEN};
use crate::token::{
    lemma_token_account_fill, lemma_token_account_init_fields, spec_mint_decimals,
    spec_token_account_amount, spec_token_account_filled, spec_token_account_mint,
    spec_token_account_owner, TOKEN_ACCOUNT_LEN,
};
use crate::validate::{
    ata_balc, check_ata, check_ata_escrow, check_atoken_gpvbd, check_decimals, check_mint0a,
    check_signer, check_sysprog, data_len, executable, none_zero_u64, parse_u64, rent_exempt_mint,
    rent_exempt_tokacct, writable,
};
use crate::{ESCROW_SEED, ID, SYSTEM_PROGRAM_ID, TOKEN_PROGRAM_ID};

verus! {

broadcast use vstd::array::group_array_axioms;

/// The typed, pre-checked request to make an escrow offer.
pub struct EscrowTokMake {
    /// The offer maker; must have signed and pays for the accounts.
    pub maker_x: Account,
    /// The maker's holding account for asset X.
    pub user_x_ata: Account,
    /// The escrow's holding account for asset X; lazily created.
    pub escrow_ata: Account,
    /// The slot the escrow record will live in.
    pub escrow: Account,
    /// Asset X's mint.
    pub mint_x: Account,
    /// Asset Y's mint.
    pub mint_y: Account,
    /// The legacy token module.
    pub token_program: Account,
    /// The system program.
    pub system_program: Account,
    /// The associated-account module.
    pub atoken_program: Account,
    /// Decimals declared for asset X.
    pub decimal_x: u8,
    /// Decimals declared for asset Y.
    pub decimal_y: u8,
    /// How much of asset X goes into escrow; non-zero.
    pub amount_x: u64,
    /// How much of asset Y fulfils the offer; non-zero.
    pub amount_y: u64,
    /// The maker-chosen offer id; non-zero.
    pub id: u64,
}

/// The record this offer persists, given the bump its address derived with.
pub open spec fn make_record(s: EscrowTokMake, b: u8) -> Escrow {
    Escrow {
        maker: s.maker_x.key,
        mint_x: s.mint_x.key,
        mint_y: s.mint_y.key,
        amount_y: s.amount_y,
        decimal_x: s.decimal_x,
        decimal_y: s.decimal_y,
        id: s.id,
        bump: b,
    }
}

/// The validation prefix up to the payload parse: account count, a signing
/// maker, the declared modules, the maker's writable holding account
/// recorded for the maker in asset X, and a writable escrow slot.
pub open spec fn make_prefix_ok(accounts: Seq<Account>) -> bool {
    &&& accounts.len() == 10
    &&& accounts[0].is_signer
    &&& accounts[7].executable
    &&& accounts[8].key@ == crate::SYSTEM_PROGRAM_ID@
    &&& accounts[9].key@ == crate::validate::ATOKENGPVBD@
    &&& accounts[1].is_writable
    &&& accounts[1].data@.len() == 165
    &&& spec_token_account_owner(accounts[1].data@) == accounts[0].key@
    &&& spec_token_account_mint(accounts[1].data@) == accounts[4].key@
    &&& accounts[3].is_writable
}

/// The whole validation phase in one predicate: the prefix, a well-formed
/// 26-byte payload with non-zero amounts and id covered by the maker's
/// holding account, a decodable config record, rent-exempt legacy mints, and
/// asset X's mint matching the declared decimals.
pub open spec fn make_valid(data: Seq<u8>, accounts: Seq<Account>, rent: Rent) -> bool {
    &&& make_prefix_ok(accounts)
    &&& data.len() == 26
    &&& vstd::bytes::spec_u64_from_le_bytes(data.subrange(1, 9)) != 0
    &&& spec_token_account_amount(accounts[1].data@) >= vstd::bytes::spec_u64_from_le_bytes(
        data.subrange(1, 9),
    )
    &&& vstd::bytes::spec_u64_from_le_bytes(data.subrange(10, 18)) != 0
    &&& vstd::bytes::spec_u64_from_le_bytes(data.subrange(18, 26)) != 0
    &&& accounts[6].data@.len() == 90
    &&& accounts[6].owner@ == ID@
    &&& accounts[6].data@[88] <= 4
    &&& rent_fits(rent, 82)
    &&& accounts[4].lamports >= spec_minimum_balance(rent, 82)
    &&& accounts[5].lamports >= spec_minimum_balance(rent, 82)
    &&& accounts[4].data@.len() == 82
    &&& data[0] == spec_mint_decimals(accounts[4].data@)
    &&& accounts[7].key@ == TOKEN_PROGRAM_ID@
    &&& accounts[4].owner@ == TOKEN_PROGRAM_ID@
    &&& accounts[5].data@.len() == 82
    &&& accounts[5].owner@ == TOKEN_PROGRAM_ID@
}

/// What the commit phase needs regardless of the holding-account branch: a
/// signing maker, an untouched escrow slot at the derived address, fitting
/// rent arithmetic, the maker's holding account recorded for the maker in
/// asset X with cover for the amount, and asset X's mint matching the
/// declared decimals.
pub open spec fn make_common_ok(s: EscrowTokMake, rent: Rent) -> bool {
    &&& s.maker_x.is_signer
    &&& derives_key(seeds3(ESCROW_SEED@, s.maker_x.key@, s.id), s.escrow.key@)
    &&& s.escrow.lamports == 0
    &&& s.escrow.data@.len() == 0
    &&& s.escrow.owner@ == SYSTEM_PROGRAM_ID@
    &&& rent_fits(rent, 115)
    &&& s.user_x_ata.data@.len() == 165
    &&& spec_token_account_owner(s.user_x_ata.data@) == s.maker_x.key@
    &&& spec_token_account_mint(s.user_x_ata.data@) == s.mint_x.key@
    &&& s.mint_x.data@.len() == 82
    &&& s.decimal_x == spec_mint_decimals(s.mint_x.data@)
    &&& spec_token_account_amount(s.user_x_ata.data@) >= s.amount_x
}

/// What the lazy-create branch additionally needs for the escrow's holding
/// account.
pub open spec fn make_create_ok(s: EscrowTokMake, rent: Rent) -> bool {
    &&& ata_derived(s.escrow.key@, TOKEN_PROGRAM_ID@, s.mint_x.key@, s.escrow_ata.key@)
    &&& s.escrow_ata.lamports == 0
    &&& s.escrow_ata.owner@ == SYSTEM_PROGRAM_ID@
    &&& s.escrow_ata.is_writable
    &&& rent_fits(rent, 165)
    &&& spec_minimum_balance(rent, 115) + spec_minimum_balance(rent, 165) <= u64::MAX
    &&& s.maker_x.lamports >= spec_minimum_balance(rent, 115) + spec_minimum_balance(rent, 165)
}

/// What the existing-holding-account branch additionally needs.
pub open spec fn make_existing_ok(s: EscrowTokMake, rent: Rent) -> bool {
    &&& s.escrow_ata.data@.len() == 165
    &&& spec_token_account_owner(s.escrow_ata.data@) == s.escrow.key@
    &&& spec_token_account_mint(s.escrow_ata.data@) == s.mint_x.key@
    &&& s.escrow_ata.is_writable
    &&& rent_fits(rent, 165)
    &&& s.escrow_ata.lamports >= spec_minimum_balance(rent, 165)
    &&& spec_token_account_amount(s.escrow_ata.data@) + s.amount_x <= u64::MAX
    &&& s.maker_x.lamports >= spec_minimum_balance(rent, 115)
}

impl EscrowTokMake {
    /// The opcode this handler is routed under.
    pub const DISCRIMINATOR: u8 = 15;

    /// Validation and parse phase: ten accounts, a 26-byte payload of
    /// `decimal_x, amount_x, decimal_y, amount_y, id` with all three
    /// integers non-zero, the declared modules, the maker's signing and
    /// holding account, a decodable config record, and rent-exempt legacy
    /// mints.
    pub fn try_from(data: &[u8], accounts: &Vec<Account>, rent: &Rent) -> (r: Result<
        EscrowTokMake,
        ProgramError,
    >)
        ensures
            accounts@.len() != 10 ==> r == Err::<EscrowTokMake, ProgramError>(
                ProgramError::NotEnoughAccountKeys,
            ),
            accounts@.len() == 10 && !accounts@[0].is_signer ==> r == Err::<
                EscrowTokMake,
                ProgramError,
            >(err_of(Ee::NotSigner)),
            accounts@.len() == 10 && accounts@[0].is_signer && !accounts@[7].executable ==> r
                == Err::<EscrowTokMake, ProgramError>(err_of(Ee::NotExecutable)),
            accounts@.len() == 10 && accounts@[0].is_signer && accounts@[7].executable
                && accounts@[8].key@ != crate::SYSTEM_PROGRAM_ID@ ==> r == Err::<
                EscrowTokMake,
                ProgramError,
            >(err_of(Ee::SystemProgram)),
            accounts@.len() == 10 && accounts@[0].is_signer && accounts@[7].executable
                && accounts@[8].key@ == crate::SYSTEM_PROGRAM_ID@ && accounts@[9].key@
                != crate::validate::ATOKENGPVBD@ ==> r == Err::<EscrowTokMake, ProgramError>(
                err_of(Ee::AtokenGPvbd),
            ),
            make_prefix_ok(accounts@) && data@.len() < 26 ==> r == Err::<
                EscrowTokMake,
                ProgramError,
            >(err_of(Ee::InputDataUnderMin)),
            make_prefix_ok(accounts@) && data@.len() > 26 ==> r == Err::<
                EscrowTokMake,
                ProgramError,
            >(err_of(Ee::InputDataOverMax)),
            make_prefix_ok(accounts@) && data@.len() == 26 && vstd::bytes::spec_u64_from_le_bytes(
                data@.subrange(1, 9),
            ) == 0 ==> r == Err::<EscrowTokMake, ProgramError>(err_of(Ee::ZeroAsInput)),
            make_prefix_ok(accounts@) && data@.len() == 26 && vstd::bytes::spec_u64_from_le_bytes(
                data@.subrange(1, 9),
            ) != 0 && spec_token_account_amount(accounts@[1].data@)
                >= vstd::bytes::spec_u64_from_le_bytes(data@.subrange(1, 9))
                && vstd::bytes::spec_u64_from_le_bytes(data@.subrange(10, 18)) == 0 ==> r == Err::<
                EscrowTokMake,
                ProgramError,
            >(err_of(Ee::ZeroAsInput)),
            r is Ok <==> make_valid(data@, accounts@, *rent),
            r is Ok ==> {
                let s = r.unwrap();
                &&& accounts@.len() == 10
                &&& data@.len() == 26
                &&& acct_like(s.maker_x, accounts@[0])
                &&& acct_like(s.user_x_ata, accounts@[1])
                &&& acct_like(s.escrow_ata, accounts@[2])
                &&& acct_like(s.escrow, accounts@[3])
                &&& acct_like(s.mint_x, accounts@[4])
                &&& acct_like(s.mint_y, accounts@[5])
                &&& acct_like(s.token_program, accounts@[7])
                &&& acct_like(s.system_program, accounts@[8])
                &&& acct_like(s.atoken_program, accounts@[9])
                &&& s.decimal_x == data@[0]
                &&& s.amount_x == vstd::bytes::spec_u64_from_le_bytes(data@.subrange(1, 9))
                &&& s.decimal_y == data@[9]
                &&& s.amount_y == vstd::bytes::spec_u64_from_le_bytes(data@.subrange(10, 18))
                &&& s.id == vstd::bytes::spec_u64_from_le_bytes(data@.subrange(18, 26))
                &&& s.amount_x != 0
                &&& s.amount_y != 0
                &&& s.id != 0
                &&& s.maker_x.is_signer
                &&& s.escrow.is_writable
                &&& s.user_x_ata.is_writable
                &&& spec_token_account_owner(s.user_x_ata.data@) == s.maker_x.key@
                &&& spec_token_account_mint(s.user_x_ata.data@) == s.mint_x.key@
                &&& spec_token_account_amount(s.user_x_ata.data@) >= s.amount_x
                &&& s.mint_x.data@.len() == 82
                &&& s.decimal_x == spec_mint_decimals(s.mint_x.data@)
                &&& s.mint_x.owner@ == TOKEN_PROGRAM_ID@
                &&& s.mint_y.data@.len() == 82
                &&& s.mint_y.owner@ == TOKEN_PROGRAM_ID@
                &&& s.token_program.key@ == TOKEN_PROGRAM_ID@
            },
    {
        if accounts.len() != 10 {
            return Err(ProgramError::NotEnoughAccountKeys);
        }
        let maker_x = accounts[0].clone();
        let user_x_ata = accounts[1].clone();
        let escrow_ata = accounts[2].clone();
        let escrow = accounts[3].clone();
        let mint_x = accounts[4].clone();
        let mint_y = accounts[5].clone();
        let config_pda = accounts[6].clone();
        let token_program = accounts[7].clone();
        let system_program = accounts[8].clone();
        let atoken_program = accounts[9].clone();
        check_signer(&maker_x)?;
        executable(&token_program)?;
        check_sysprog(&system_program)?;
        check_atoken_gpvbd(&atoken_program)?;
        writable(&user_x_ata)?;
        check_ata(&user_x_ata, &maker_x, &mint_x)?;
        writable(&escrow)?;
        data_len(data, 26)?;
        let decimal_x = data[0];
        let amount_x = parse_u64(vstd::slice::slice_subrange(data, 1, 9))?;
        none_zero_u64(amount_x)?;
        ata_balc(&user_x_ata, amount_x)?;
        let decimal_y = data[9];
        let amount_y = parse_u64(vstd::slice::slice_subrange(data, 10, 18))?;
        none_zero_u64(amount_y)?;
        let id = parse_u64(vstd::slice::slice_subrange(data, 18, 26))?;
        let _config = crate::state::Config::load(&config_pda)?;
        rent_exempt_mint(&mint_x, rent)?;
        rent_exempt_mint(&mint_y, rent)?;
        check_decimals(&mint_x, decimal_x)?;
        check_mint0a(&mint_x, &token_program)?;
        check_mint0a(&mint_y, &token_program)?;
        Ok(EscrowTokMake {
            maker_x,
            user_x_ata,
            escrow_ata,
            escrow,
            mint_x,
            mint_y,
            token_program,
            system_program,
            atoken_program,
            decimal_x,
            decimal_y,
            amount_x,
            amount_y,
            id,
        })
    }

    /// Commit phase: verify the derived escrow address, refuse a funded
    /// slot, check the whole remaining chain, then create the escrow
    /// account, set up its holding account, move asset X into escrow, and
    /// persist the terms. All-or-nothing.
    pub fn process(&mut self, rent: &Rent) -> (r: Result<(), ProgramError>)
        ensures
            r is Err ==> *final(self) == *old(self),
            derive_fails(seeds3(ESCROW_SEED@, old(self).maker_x.key@, old(self).id)) ==> r
                == Err::<(), ProgramError>(ProgramError::InvalidSeeds),
            !derive_fails(seeds3(ESCROW_SEED@, old(self).maker_x.key@, old(self).id))
                && !derives_key(
                seeds3(ESCROW_SEED@, old(self).maker_x.key@, old(self).id),
                old(self).escrow.key@,
            ) ==> r == Err::<(), ProgramError>(err_of(Ee::EscrowPDA)),
            derives_key(
                seeds3(ESCROW_SEED@, old(self).maker_x.key@, old(self).id),
                old(self).escrow.key@,
            ) && old(self).escrow.lamports != 0 ==> r == Err::<(), ProgramError>(
                ProgramError::AccountAlreadyInitialized,
            ),
            derives_key(
                seeds3(ESCROW_SEED@, old(self).maker_x.key@, old(self).id),
                old(self).escrow.key@,
            ) && old(self).escrow.lamports == 0 && !old(self).maker_x.is_signer ==> r == Err::<
                (),
                ProgramError,
            >(err_of(Ee::NotSigner)),
            r is Ok <==> make_common_ok(*old(self), *rent) && (if old(self).escrow_ata.data@.len()
                == 0 {
                make_create_ok(*old(self), *rent)
            } else {
                make_existing_ok(*old(self), *rent)
            }),
            r is Ok ==> {
                &&& exists|b: u8|
                    #[trigger] derives_key_with_bump(
                        seeds3(ESCROW_SEED@, old(self).maker_x.key@, old(self).id),
                        old(self).escrow.key@,
                        b,
                    ) && final(self).escrow.data@ == spec_escrow_bytes(make_record(*old(self), b))
                &&& final(self).escrow.key == old(self).escrow.key
                &&& final(self).escrow.owner@ == ID@
                &&& final(self).escrow.lamports == spec_minimum_balance(*rent, 115)
                &&& same_but_token_amount(
                    old(self).user_x_ata,
                    final(self).user_x_ata,
                    (spec_token_account_amount(old(self).user_x_ata.data@) - old(
                        self,
                    ).amount_x) as u64,
                )
                &&& final(self).maker_x.key == old(self).maker_x.key
                &&& acct_like(final(self).mint_x, old(self).mint_x)
                &&& acct_like(final(self).mint_y, old(self).mint_y)
                &&& acct_like(final(self).token_program, old(self).token_program)
                &&& acct_like(final(self).system_program, old(self).system_program)
                &&& acct_like(final(self).atoken_program, old(self).atoken_program)
                &&& final(self).amount_x == old(self).amount_x
                &&& final(self).amount_y == old(self).amount_y
                &&& final(self).id == old(self).id
            },
            r is Ok && old(self).escrow_ata.data@.len() == 0 ==> {
                &&& final(self).escrow_ata.key == old(self).escrow_ata.key
                &&& final(self).escrow_ata.owner@ == TOKEN_PROGRAM_ID@
                &&& final(self).escrow_ata.lamports == spec_minimum_balance(*rent, 165)
                &&& final(self).escrow_ata.data@ == spec_token_account_filled(
                    old(self).mint_x.key@,
                    old(self).escrow.key@,
                    old(self).amount_x,
                )
                &&& final(self).maker_x.lamports == old(self).maker_x.lamports
                    - spec_minimum_balance(*rent, 115) - spec_minimum_balance(*rent, 165)
            },
            r is Ok && old(self).escrow_ata.data@.len() != 0 ==> {
                &&& same_but_token_amount(
                    old(self).escrow_ata,
                    final(self).escrow_ata,
                    (spec_token_account_amount(old(self).escrow_ata.data@) + old(
                        self,
                    ).amount_x) as u64,
                )
                &&& final(self).maker_x.lamports == old(self).maker_x.lamports
                    - spec_minimum_balance(*rent, 115)
            },
    {
        let ghost seeds = seeds3(ESCROW_SEED@, self.maker_x.key@, self.id);
        let derived = crate::pda::find_escrow_pda(ESCROW_SEED.as_slice(), &self.maker_x.key, self.id)?;
        let (expected_escrow, bump) = derived;
        proof {
            assert(derives_key_with_bump(seeds, expected_escrow@, bump));
        }
        if !crate::key_eq(&expected_escrow, &self.escrow.key) {
            proof {
                assert forall|b0: u8| crate::pda::is_first_bump(seeds, ID@, b0) implies b0
                    == bump by {
                    crate::pda::lemma_first_bump_unique(seeds, ID@, b0, bump);
                }
                assert(!derives_key(seeds, self.escrow.key@));
            }
            return Ee::EscrowPDA.e();
        }
        if self.escrow.lamports > 0 {
            return Err(ProgramError::AccountAlreadyInitialized);
        }
        if !self.maker_x.is_signer {
            return Ee::NotSigner.e();
        }
        let min_escrow = rent.minimum_balance(ESCROW_LEN)?;
        if !(self.escrow.data_is_empty() && self.escrow.is_owned_by(&SYSTEM_PROGRAM_ID)) {
            return Err(ProgramError::AccountAlreadyInitialized);
        }
        check_ata(&self.user_x_ata, &self.maker_x, &self.mint_x)?;
        check_decimals(&self.mint_x, self.decimal_x)?;
        ata_balc(&self.user_x_ata, self.amount_x)?;
        let creating = self.escrow_ata.data_is_empty();
        if creating {
            writable(&self.escrow_ata)?;
            if !crate::pda::check_ata_derivation(
                &self.escrow.key,
                &TOKEN_PROGRAM_ID,
                &self.mint_x.key,
                &self.escrow_ata.key,
            ) {
                return Err(ProgramError::InvalidSeeds);
            }
            if !(self.escrow_ata.lamports == 0 && self.escrow_ata.is_owned_by(
                &SYSTEM_PROGRAM_ID,
            )) {
                return Err(ProgramError::AccountAlreadyInitialized);
            }
            let min_ata = rent.minimum_balance(TOKEN_ACCOUNT_LEN)?;
            let total = match min_escrow.checked_add(min_ata) {
                Some(v) => v,
                None => {
                    return Err(ProgramError::ArithmeticOverflow);
                },
            };
            if self.maker_x.lamports < total {
                return Err(ProgramError::InsufficientFunds);
            }
        } else {
            check_ata_escrow(&self.escrow_ata, &self.escrow, &self.mint_x)?;
            writable(&self.escrow_ata)?;
            rent_exempt_tokacct(&self.escrow_ata, rent)?;
            let escrow_ata_amount = crate::token::token_account_amount(&self.escrow_ata)?;
            match escrow_ata_amount.checked_add(self.amount_x) {
                Some(_) => (),
                None => {
                    return Err(ProgramError::ArithmeticOverflow);
                },
            }
            if self.maker_x.lamports < min_escrow {
                return Err(ProgramError::InsufficientFunds);
            }
        }
        let seed_vec = crate::pda::seeds_owner_id(ESCROW_SEED.as_slice(), &self.maker_x.key, self.id);
        proof {
            vstd::bytes::lemma_auto_spec_u64_to_from_le_bytes();
            assert(seed_vec.deep_view().len() == 3);
            assert(seed_vec.deep_view()[0].len() <= 32);
            assert(seed_vec.deep_view()[1].len() <= 32);
            assert(seed_vec.deep_view()[2].len() <= 32);
        }
        create_account_signed(
            &mut self.maker_x,
            &mut self.escrow,
            min_escrow,
            ESCROW_LEN,
            &ID,
            &seed_vec,
            bump,
        )?;
        if creating {
            let escrow_wallet = self.escrow.clone();
            ata_create(
                &mut self.maker_x,
                &mut self.escrow_ata,
                &escrow_wallet,
                &self.mint_x,
                rent,
            )?;
            proof {
                lemma_token_account_init_fields(self.mint_x.key@, old(self).escrow.key@);
            }
        }
        token_transfer_checked(
            &mut self.user_x_ata,
            &self.mint_x,
            &mut self.escrow_ata,
            &self.maker_x,
            self.amount_x,
            self.decimal_x,
        )?;
        if creating {
            proof {
                lemma_token_account_fill(
                    old(self).mint_x.key@,
                    old(self).escrow.key@,
                    old(self).amount_x,
                    self.escrow_ata.data@,
                );
            }
        }
        let record = Escrow {
            maker: self.maker_x.key,
            mint_x: self.mint_x.key,
            mint_y: self.mint_y.key,
            amount_y: self.amount_y,
            decimal_x: self.decimal_x,
            decimal_y: self.decimal_y,
            id: self.id,
            bump,
        };
        record.store(&mut self.escrow);
        proof {
            lemma_escrow_bytes_fields(record);
            assert(record == make_record(*old(self), bump));
            assert(derives_key_with_bump(seeds, old(self).escrow.key@, bump));
            assert(self.escrow.data@ == spec_escrow_bytes(make_record(*old(self), bump)));
        }
        Ok(())
    }
}

/// The request as the validation phase types it, built straight from the
/// declared account list and payload.
pub open spec fn make_request(data: Seq<u8>, accounts: Seq<Account>) -> EscrowTokMake {
    EscrowTokMake {
        maker_x: accounts[0],
        user_x_ata: accounts[1],
        escrow_ata: accounts[2],
        escrow: accounts[3],
        mint_x: accounts[4],
        mint_y: accounts[5],
        token_program: accounts[7],
        system_program: accounts[8],
        atoken_program: accounts[9],
        decimal_x: data[0],
        decimal_y: data[9],
        amount_x: vstd::bytes::spec_u64_from_le_bytes(data.subrange(1, 9)),
        amount_y: vstd::bytes::spec_u64_from_le_bytes(data.subrange(10, 18)),
        id: vstd::bytes::spec_u64_from_le_bytes(data.subrange(18, 26)),
    }
}

/// What routing this opcode must produce: success exactly when both
/// phases' chains go through; on success the escrow account is created at
/// its derived address with the terms persisted, its holding account set up
/// and credited with asset X out of the maker's, the maker paying the
/// rents.
pub open spec fn make_routed(
    payload: Seq<u8>,
    pre: Seq<Account>,
    post: Seq<Account>,
    ok: bool,
    rent: Rent,
) -> bool {
    let s = make_request(payload, pre);
    &&& (ok <==> {
        &&& make_valid(payload, pre, rent)
        &&& make_common_ok(s, rent)
        &&& (if pre[2].data@.len() == 0 {
            make_create_ok(s, rent)
        } else {
            make_existing_ok(s, rent)
        })
    })
    &&& (ok ==> {
        &&& post.len() == 10
        &&& exists|b: u8|
            #[trigger] derives_key_with_bump(
                seeds3(ESCROW_SEED@, pre[0].key@, s.id),
                pre[3].key@,
                b,
            ) && post[3].data@ == spec_escrow_bytes(make_record(s, b))
        &&& post[3].key == pre[3].key
        &&& post[3].owner@ == ID@
        &&& post[3].lamports == spec_minimum_balance(rent, 115)
        &&& same_but_token_amount(
            pre[1],
            post[1],
            (spec_token_account_amount(pre[1].data@) - s.amount_x) as u64,
        )
        &&& post[0].key == pre[0].key
        &&& acct_like(post[4], pre[4])
        &&& acct_like(post[5], pre[5])
        &&& post[6] == pre[6]
        &&& acct_like(post[7], pre[7])
        &&& acct_like(post[8], pre[8])
        &&& acct_like(post[9], pre[9])
    })
    &&& (ok && pre[2].data@.len() == 0 ==> {
        &&& post[2].key == pre[2].key
        &&& post[2].owner@ == TOKEN_PROGRAM_ID@
        &&& post[2].lamports == spec_minimum_balance(rent, 165)
        &&& post[2].data@ == spec_token_account_filled(pre[4].key@, pre[3].key@, s.amount_x)
        &&& post[0].lamports == pre[0].lamports - spec_minimum_balance(rent, 115)
            - spec_minimum_balance(rent, 165)
    })
    &&& (ok && pre[2].data@.len() != 0 ==> {
        &&& same_but_token_amount(
            pre[2],
            post[2],
            (spec_token_account_amount(pre[2].data@) + s.amount_x) as u64,
        )
        &&& post[0].lamports == pre[0].lamports - spec_minimum_balance(rent, 115)
    })
}

} // verus!
