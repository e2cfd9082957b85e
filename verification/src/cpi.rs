//! The model of the delegated calls the commit phases issue: the system
//! program's account creation and native transfers, the token module's
//! checked transfer, and the associated-account module's creation. Each is a
//! verified state transition over the plain-value account model, stating
//! exactly when the host would let the call through and what it changes; a
//! failed call changes nothing.
//!
//! A call "signed" by a derived address goes through only when the given
//! seeds plus bump actually derive the signing account's address — that is
//! the host's rule that makes a derived address an authority.

use vstd::prelude::*;

use crate::account::Account;
use crate::errors::ProgramError;
use crate::pda::{pda_of, verify_pda, with_bump};
use crate::rent::{spec_minimum_balance, Rent};
use crate::token::{
    set_token_account_amount, spec_mint_decimals, spec_token_account_amount,
    spec_token_account_init, spec_token_account_mint, spec_token_account_owner,
    token_account_amount, token_account_init_bytes, MINT_LEN, TOKEN_ACCOUNT_LEN,
};
use crate::{Pubkey, SYSTEM_PROGRAM_ID, TOKEN_PROGRAM_ID};

verus! {

broadcast use vstd::array::group_array_axioms;

/// `b` is `a` with its native balance replaced by `lamports`.
pub open spec fn same_but_lamports(a: Account, b: Account, lamports: u64) -> bool {
    &&& b.key == a.key
    &&& b.lamports == lamports
    &&& b.data == a.data
    &&& b.owner == a.owner
    &&& b.is_signer == a.is_signer
    &&& b.is_writable == a.is_writable
    &&& b.executable == a.executable
}

/// Move `lamports` of native balance from a signing account to another.
pub fn system_transfer(from: &mut Account, to: &mut Account, lamports: u64) -> (r: Result<
    (),
    ProgramError,
>)
    ensures
        r is Err ==> *final(from) == *old(from) && *final(to) == *old(to),
        !old(from).is_signer ==> r == Err::<(), ProgramError>(
            ProgramError::MissingRequiredSignature,
        ),
        old(from).is_signer && old(from).lamports < lamports ==> r == Err::<(), ProgramError>(
            ProgramError::InsufficientFunds,
        ),
        old(from).is_signer && old(from).lamports >= lamports && old(to).lamports + lamports
            > u64::MAX ==> r == Err::<(), ProgramError>(ProgramError::ArithmeticOverflow),
        r is Ok <==> old(from).is_signer && old(from).lamports >= lamports && old(to).lamports
            + lamports <= u64::MAX,
        r is Ok ==> same_but_lamports(
            *old(from),
            *final(from),
            (old(from).lamports - lamports) as u64,
        ) && same_but_lamports(*old(to), *final(to), (old(to).lamports + lamports) as u64),
{
    if !from.is_signer {
        return Err(ProgramError::MissingRequiredSignature);
    }
    if from.lamports < lamports {
        return Err(ProgramError::InsufficientFunds);
    }
    let new_to = match to.lamports.checked_add(lamports) {
        Some(v) => v,
        None => {
            return Err(ProgramError::ArithmeticOverflow);
        },
    };
    from.lamports = from.lamports - lamports;
    to.lamports = new_to;
    Ok(())
}

/// Move `lamports` of native balance out of a derived address: the host
/// honors the signature only when `seeds` plus `bump` derive `from`'s own
/// address under this program's id.
pub fn system_transfer_signed(
    from: &mut Account,
    to: &mut Account,
    lamports: u64,
    seeds: &Vec<Vec<u8>>,
    bump: u8,
) -> (r: Result<(), ProgramError>)
    requires
        seeds.deep_view().len() < 16,
        forall|i: int| 0 <= i < seeds.deep_view().len() ==> seeds.deep_view()[i].len() <= 32,
    ensures
        r is Err ==> *final(from) == *old(from) && *final(to) == *old(to),
        pda_of(with_bump(seeds.deep_view(), bump), crate::ID@) != Some(old(from).key@) ==> r
            == Err::<(), ProgramError>(ProgramError::InvalidSeeds),
        r is Ok <==> pda_of(with_bump(seeds.deep_view(), bump), crate::ID@) == Some(
            old(from).key@,
        ) && old(from).lamports >= lamports && old(to).lamports + lamports <= u64::MAX,
        r is Ok ==> same_but_lamports(
            *old(from),
            *final(from),
            (old(from).lamports - lamports) as u64,
        ) && same_but_lamports(*old(to), *final(to), (old(to).lamports + lamports) as u64),
{
    if !verify_pda(seeds, bump, &from.key) {
        return Err(ProgramError::InvalidSeeds);
    }
    if from.lamports < lamports {
        return Err(ProgramError::InsufficientFunds);
    }
    let new_to = match to.lamports.checked_add(lamports) {
        Some(v) => v,
        None => {
            return Err(ProgramError::ArithmeticOverflow);
        },
    };
    from.lamports = from.lamports - lamports;
    to.lamports = new_to;
    Ok(())
}

/// `b` is a freshly created account in `a`'s slot: funded with `lamports`,
/// `space` zeroed data bytes, owned by `owner`.
pub open spec fn created_account(a: Account, b: Account, lamports: u64, space: nat, owner: Seq<u8>)
    -> bool {
    &&& b.key == a.key
    &&& b.lamports == lamports
    &&& b.data@ == Seq::<u8>::new(space, |i: int| 0u8)
    &&& b.owner@ == owner
    &&& b.is_signer == a.is_signer
    &&& b.is_writable == a.is_writable
    &&& b.executable == a.executable
}

/// Whether an account is still untouched: no funds, no data, owned by the
/// system program. Only such an account can be created.
pub open spec fn is_fresh(a: Account) -> bool {
    a.lamports == 0 && a.data@.len() == 0 && a.owner@ == SYSTEM_PROGRAM_ID@
}

/// Create `to` as a derived-address account: fund it with `lamports` from
/// the signing `from`, give it `space` zeroed bytes, and hand ownership to
/// `owner`. The host honors the derived address's own "signature" only when
/// `seeds` plus `bump` derive `to`'s address under this program's id.
pub fn create_account_signed(
    from: &mut Account,
    to: &mut Account,
    lamports: u64,
    space: usize,
    owner: &Pubkey,
    seeds: &Vec<Vec<u8>>,
    bump: u8,
) -> (r: Result<(), ProgramError>)
    requires
        seeds.deep_view().len() < 16,
        forall|i: int| 0 <= i < seeds.deep_view().len() ==> seeds.deep_view()[i].len() <= 32,
    ensures
        r is Err ==> *final(from) == *old(from) && *final(to) == *old(to),
        !old(from).is_signer ==> r == Err::<(), ProgramError>(
            ProgramError::MissingRequiredSignature,
        ),
        old(from).is_signer && pda_of(with_bump(seeds.deep_view(), bump), crate::ID@) != Some(
            old(to).key@,
        ) ==> r == Err::<(), ProgramError>(ProgramError::InvalidSeeds),
        old(from).is_signer && pda_of(with_bump(seeds.deep_view(), bump), crate::ID@) == Some(
            old(to).key@,
        ) && !is_fresh(*old(to)) ==> r == Err::<(), ProgramError>(
            ProgramError::AccountAlreadyInitialized,
        ),
        r is Ok <==> old(from).is_signer && pda_of(with_bump(seeds.deep_view(), bump), crate::ID@)
            == Some(old(to).key@) && is_fresh(*old(to)) && old(from).lamports >= lamports,
        r is Ok ==> same_but_lamports(
            *old(from),
            *final(from),
            (old(from).lamports - lamports) as u64,
        ) && created_account(*old(to), *final(to), lamports, space as nat, owner@),
{
    if !from.is_signer {
        return Err(ProgramError::MissingRequiredSignature);
    }
    if !verify_pda(seeds, bump, &to.key) {
        return Err(ProgramError::InvalidSeeds);
    }
    if !(to.lamports == 0 && to.data_is_empty() && to.is_owned_by(&SYSTEM_PROGRAM_ID)) {
        return Err(ProgramError::AccountAlreadyInitialized);
    }
    if from.lamports < lamports {
        return Err(ProgramError::InsufficientFunds);
    }
    from.lamports = from.lamports - lamports;
    to.lamports = lamports;
    to.data = crate::codec::zero_bytes(space);
    to.owner = *owner;
    Ok(())
}

/// Create `to` as an ordinary account that signed for its own creation.
pub fn create_account(
    from: &mut Account,
    to: &mut Account,
    lamports: u64,
    space: usize,
    owner: &Pubkey,
) -> (r: Result<(), ProgramError>)
    ensures
        r is Err ==> *final(from) == *old(from) && *final(to) == *old(to),
        !(old(from).is_signer && old(to).is_signer) ==> r == Err::<(), ProgramError>(
            ProgramError::MissingRequiredSignature,
        ),
        old(from).is_signer && old(to).is_signer && !is_fresh(*old(to)) ==> r == Err::<
            (),
            ProgramError,
        >(ProgramError::AccountAlreadyInitialized),
        r is Ok <==> old(from).is_signer && old(to).is_signer && is_fresh(*old(to)) && old(
            from,
        ).lamports >= lamports,
        r is Ok ==> same_but_lamports(
            *old(from),
            *final(from),
            (old(from).lamports - lamports) as u64,
        ) && created_account(*old(to), *final(to), lamports, space as nat, owner@),
{
    if !(from.is_signer && to.is_signer) {
        return Err(ProgramError::MissingRequiredSignature);
    }
    if !(to.lamports == 0 && to.data_is_empty() && to.is_owned_by(&SYSTEM_PROGRAM_ID)) {
        return Err(ProgramError::AccountAlreadyInitialized);
    }
    if from.lamports < lamports {
        return Err(ProgramError::InsufficientFunds);
    }
    from.lamports = from.lamports - lamports;
    to.lamports = lamports;
    to.data = crate::codec::zero_bytes(space);
    to.owner = *owner;
    Ok(())
}

/// `data` brought to length `n`: the common prefix kept, growth zero-filled.
pub open spec fn resized_data(data: Seq<u8>, n: nat) -> Seq<u8> {
    Seq::<u8>::new(
        n,
        |i: int|
            if i < data.len() {
                data[i]
            } else {
                0u8
            },
    )
}

/// The system program's allocate, signed by the derived address itself:
/// bring the account's data to `space` bytes, keeping the common prefix and
/// zero-filling growth. The host honors the signature only when `seeds`
/// plus `bump` derive the account's own address under this program's id.
pub fn allocate_signed(account: &mut Account, space: u64, seeds: &Vec<Vec<u8>>, bump: u8) -> (r:
    Result<(), ProgramError>)
    requires
        seeds.deep_view().len() < 16,
        forall|i: int| 0 <= i < seeds.deep_view().len() ==> seeds.deep_view()[i].len() <= 32,
    ensures
        r is Err ==> *final(account) == *old(account),
        pda_of(with_bump(seeds.deep_view(), bump), crate::ID@) != Some(old(account).key@) ==> r
            == Err::<(), ProgramError>(ProgramError::InvalidSeeds),
        r is Ok <==> pda_of(with_bump(seeds.deep_view(), bump), crate::ID@) == Some(
            old(account).key@,
        ) && space <= usize::MAX,
        r is Ok ==> {
            &&& final(account).data@ == resized_data(old(account).data@, space as nat)
            &&& final(account).key == old(account).key
            &&& final(account).lamports == old(account).lamports
            &&& final(account).owner == old(account).owner
            &&& final(account).is_signer == old(account).is_signer
            &&& final(account).is_writable == old(account).is_writable
            &&& final(account).executable == old(account).executable
        },
{
    if !verify_pda(seeds, bump, &account.key) {
        return Err(ProgramError::InvalidSeeds);
    }
    if space > (usize::MAX as u64) {
        return Err(ProgramError::InvalidAccountData);
    }
    let n = space as usize;
    let mut v: Vec<u8> = Vec::new();
    let mut i: usize = 0;
    while i < n
        invariant
            i <= n,
            v@ =~= resized_data(old(account).data@, n as nat).subrange(0, i as int),
            account.data@ == old(account).data@,
            *account == *old(account),
        decreases n - i,
    {
        if i < account.data.len() {
            let b = account.data[i];
            v.push(b);
        } else {
            v.push(0);
        }
        assert(v@ =~= resized_data(old(account).data@, n as nat).subrange(0, i + 1));
        i += 1;
    }
    proof {
        assert(v@ =~= resized_data(old(account).data@, n as nat));
    }
    account.data = v;
    Ok(())
}

/// What the token module demands of a checked transfer before it moves
/// anything, given the two token accounts' data, the mint, and the declared
/// decimals, with `authority_key` authorizing the debit.
pub open spec fn token_transfer_allowed(
    from_data: Seq<u8>,
    to_data: Seq<u8>,
    mint: Account,
    authority_key: Seq<u8>,
    amount: u64,
    decimals: u8,
) -> bool {
    &&& from_data.len() >= 165
    &&& to_data.len() >= 165
    &&& mint.data@.len() == 82
    &&& spec_token_account_mint(from_data) == mint.key@
    &&& spec_token_account_mint(to_data) == mint.key@
    &&& decimals == spec_mint_decimals(mint.data@)
    &&& spec_token_account_owner(from_data) == authority_key
    &&& spec_token_account_amount(from_data) >= amount
    &&& spec_token_account_amount(to_data) + amount <= u64::MAX
}

/// `b` is `a` with its token balance field replaced by `amount` and every
/// other byte, and every account field, as it was.
pub open spec fn same_but_token_amount(a: Account, b: Account, amount: u64) -> bool {
    &&& b.key == a.key
    &&& b.lamports == a.lamports
    &&& b.data@.len() == a.data@.len()
    &&& spec_token_account_amount(b.data@) == amount
    &&& b.data@.subrange(0, 64) == a.data@.subrange(0, 64)
    &&& b.data@.subrange(72, a.data@.len() as int) == a.data@.subrange(72, a.data@.len() as int)
    &&& b.owner == a.owner
    &&& b.is_signer == a.is_signer
    &&& b.is_writable == a.is_writable
    &&& b.executable == a.executable
}

/// The token module's checked transfer with an ordinary signing authority:
/// debit `from_ata`, credit `to_ata`, only if every one of the module's
/// checks passes.
pub fn token_transfer_checked(
    from_ata: &mut Account,
    mint: &Account,
    to_ata: &mut Account,
    authority: &Account,
    amount: u64,
    decimals: u8,
) -> (r: Result<(), ProgramError>)
    ensures
        r is Err ==> *final(from_ata) == *old(from_ata) && *final(to_ata) == *old(to_ata),
        !authority.is_signer ==> r == Err::<(), ProgramError>(
            ProgramError::MissingRequiredSignature,
        ),
        r is Ok <==> authority.is_signer && token_transfer_allowed(
            old(from_ata).data@,
            old(to_ata).data@,
            *mint,
            authority.key@,
            amount,
            decimals,
        ),
        r is Ok ==> same_but_token_amount(
            *old(from_ata),
            *final(from_ata),
            (spec_token_account_amount(old(from_ata).data@) - amount) as u64,
        ) && same_but_token_amount(
            *old(to_ata),
            *final(to_ata),
            (spec_token_account_amount(old(to_ata).data@) + amount) as u64,
        ),
{
    if !authority.is_signer {
        return Err(ProgramError::MissingRequiredSignature);
    }
    token_transfer_inner(from_ata, mint, to_ata, &authority.key, amount, decimals)
}

/// The token module's checked transfer authorized by a derived address: the
/// host honors the signature only when `seeds` plus `bump` derive the
/// authority's address under this program's id.
pub fn token_transfer_checked_signed(
    from_ata: &mut Account,
    mint: &Account,
    to_ata: &mut Account,
    authority: &Account,
    amount: u64,
    decimals: u8,
    seeds: &Vec<Vec<u8>>,
    bump: u8,
) -> (r: Result<(), ProgramError>)
    requires
        seeds.deep_view().len() < 16,
        forall|i: int| 0 <= i < seeds.deep_view().len() ==> seeds.deep_view()[i].len() <= 32,
    ensures
        r is Err ==> *final(from_ata) == *old(from_ata) && *final(to_ata) == *old(to_ata),
        pda_of(with_bump(seeds.deep_view(), bump), crate::ID@) != Some(authority.key@) ==> r
            == Err::<(), ProgramError>(ProgramError::InvalidSeeds),
        r is Ok <==> pda_of(with_bump(seeds.deep_view(), bump), crate::ID@) == Some(authority.key@)
            && token_transfer_allowed(
            old(from_ata).data@,
            old(to_ata).data@,
            *mint,
            authority.key@,
            amount,
            decimals,
        ),
        r is Ok ==> same_but_token_amount(
            *old(from_ata),
            *final(from_ata),
            (spec_token_account_amount(old(from_ata).data@) - amount) as u64,
        ) && same_but_token_amount(
            *old(to_ata),
            *final(to_ata),
            (spec_token_account_amount(old(to_ata).data@) + amount) as u64,
        ),
{
    if !verify_pda(seeds, bump, &authority.key) {
        return Err(ProgramError::InvalidSeeds);
    }
    token_transfer_inner(from_ata, mint, to_ata, &authority.key, amount, decimals)
}

/// The checks and the balance moves shared by both transfer forms.
fn token_transfer_inner(
    from_ata: &mut Account,
    mint: &Account,
    to_ata: &mut Account,
    authority_key: &Pubkey,
    amount: u64,
    decimals: u8,
) -> (r: Result<(), ProgramError>)
    ensures
        r is Err ==> *final(from_ata) == *old(from_ata) && *final(to_ata) == *old(to_ata),
        r is Ok <==> token_transfer_allowed(
            old(from_ata).data@,
            old(to_ata).data@,
            *mint,
            authority_key@,
            amount,
            decimals,
        ),
        r is Ok ==> same_but_token_amount(
            *old(from_ata),
            *final(from_ata),
            (spec_token_account_amount(old(from_ata).data@) - amount) as u64,
        ) && same_but_token_amount(
            *old(to_ata),
            *final(to_ata),
            (spec_token_account_amount(old(to_ata).data@) + amount) as u64,
        ),
{
    if from_ata.data_len() < TOKEN_ACCOUNT_LEN || to_ata.data_len() < TOKEN_ACCOUNT_LEN
        || mint.data_len() != MINT_LEN {
        return Err(ProgramError::InvalidAccountData);
    }
    let from_mint = crate::token::token_account_mint(from_ata)?;
    let to_mint = crate::token::token_account_mint(to_ata)?;
    if !crate::key_eq(&from_mint, &mint.key) || !crate::key_eq(&to_mint, &mint.key) {
        return Err(ProgramError::InvalidAccountData);
    }
    let d = crate::token::mint_decimals(mint)?;
    if decimals != d {
        return Err(ProgramError::InvalidAccountData);
    }
    let from_owner = crate::token::token_account_owner(from_ata)?;
    if !crate::key_eq(&from_owner, authority_key) {
        return Err(ProgramError::IncorrectAuthority);
    }
    let from_amount = token_account_amount(from_ata)?;
    if from_amount < amount {
        return Err(ProgramError::InsufficientFunds);
    }
    let to_amount = token_account_amount(to_ata)?;
    let new_to = match to_amount.checked_add(amount) {
        Some(v) => v,
        None => {
            return Err(ProgramError::ArithmeticOverflow);
        },
    };
    set_token_account_amount(from_ata, from_amount - amount);
    set_token_account_amount(to_ata, new_to);
    Ok(())
}

/// `b` is a freshly created token-holding account in `a`'s slot for
/// `(wallet, mint)`, funded to `lamports` and owned by the token module.
pub open spec fn created_token_account(
    a: Account,
    b: Account,
    lamports: u64,
    mint: Seq<u8>,
    wallet: Seq<u8>,
) -> bool {
    &&& b.key == a.key
    &&& b.lamports == lamports
    &&& b.data@ == spec_token_account_init(mint, wallet)
    &&& b.owner@ == TOKEN_PROGRAM_ID@
    &&& b.is_signer == a.is_signer
    &&& b.is_writable == a.is_writable
    &&& b.executable == a.executable
}

/// The associated-account module's create: fund `account` to the rent-exempt
/// minimum out of the signing `funding` account and initialize it as the
/// canonical token-holding account of `(wallet, mint)` under the legacy
/// token module. The module itself re-derives the address and refuses any
/// other.
pub fn ata_create(
    funding: &mut Account,
    account: &mut Account,
    wallet: &Account,
    mint: &Account,
    rent: &Rent,
) -> (r: Result<(), ProgramError>)
    ensures
        r is Err ==> *final(funding) == *old(funding) && *final(account) == *old(account),
        !old(funding).is_signer ==> r == Err::<(), ProgramError>(
            ProgramError::MissingRequiredSignature,
        ),
        old(funding).is_signer && !crate::pda::ata_derived(
            wallet.key@,
            TOKEN_PROGRAM_ID@,
            mint.key@,
            old(account).key@,
        ) ==> r == Err::<(), ProgramError>(ProgramError::InvalidSeeds),
        r is Ok ==> crate::pda::ata_derived(
            wallet.key@,
            TOKEN_PROGRAM_ID@,
            mint.key@,
            old(account).key@,
        ) && is_fresh(*old(account)) && spec_minimum_balance(*rent, 165) <= u64::MAX && old(
            funding,
        ).lamports >= spec_minimum_balance(*rent, 165),
        old(funding).is_signer && crate::pda::ata_derived(
            wallet.key@,
            TOKEN_PROGRAM_ID@,
            mint.key@,
            old(account).key@,
        ) && is_fresh(*old(account)) && spec_minimum_balance(*rent, 165) <= u64::MAX && 128 + 165
            <= u64::MAX && (128 + 165) * rent.lamports_per_byte_year <= u64::MAX && old(
            funding,
        ).lamports >= spec_minimum_balance(*rent, 165) ==> r is Ok,
        r is Ok ==> same_but_lamports(
            *old(funding),
            *final(funding),
            (old(funding).lamports - spec_minimum_balance(*rent, 165)) as u64,
        ) && created_token_account(
            *old(account),
            *final(account),
            spec_minimum_balance(*rent, 165) as u64,
            mint.key@,
            wallet.key@,
        ),
{
    if !funding.is_signer {
        return Err(ProgramError::MissingRequiredSignature);
    }
    if !crate::pda::check_ata_derivation(&wallet.key, &TOKEN_PROGRAM_ID, &mint.key, &account.key) {
        return Err(ProgramError::InvalidSeeds);
    }
    if !(account.lamports == 0 && account.data_is_empty() && account.is_owned_by(
        &SYSTEM_PROGRAM_ID,
    )) {
        return Err(ProgramError::AccountAlreadyInitialized);
    }
    let min = rent.minimum_balance(TOKEN_ACCOUNT_LEN)?;
    if funding.lamports < min {
        return Err(ProgramError::InsufficientFunds);
    }
    funding.lamports = funding.lamports - min;
    account.lamports = min;
    account.data = token_account_init_bytes(&mint.key, &wallet.key);
    account.owner = TOKEN_PROGRAM_ID;
    Ok(())
}

} // verus!
