//! Deterministic address derivation.
//!
//! A program-derived address is computed by the host's hash-based derivation
//! from a list of seed byte-strings plus a disambiguating bump byte; the
//! derivation fails exactly when the hash lands on the signature curve, which
//! is what guarantees no private key can ever sign for the address. The hash
//! itself is delegated to the `solana_pubkey` crate; its result is named by
//! the uninterpreted function `pda_of`, and everything downstream is verified
//! against that name.
//!
//! Creation paths use the search form (`derive_pda1`, `find_escrow_pda`):
//! they try bumps from 255 downward and return the first that derives. Paths
//! that already know an authoritative bump from persisted state use the
//! cheaper verify form (`verify_pda`): recompute for exactly that bump and
//! compare.

use vstd::prelude::*;

use crate::errors::ProgramError;
use crate::{Pubkey, ID};

verus! {

broadcast use vstd::array::group_array_axioms;

/// What the host's derivation returns for a seed list and program id:
/// `Some(address)` when the hash is off-curve, `None` when it is not.
pub uninterp spec fn pda_of(seeds: Seq<Seq<u8>>, program_id: Seq<u8>) -> Option<Seq<u8>>;

/// A seed list with the bump byte appended as its own one-byte seed.
pub open spec fn with_bump(seeds: Seq<Seq<u8>>, b: u8) -> Seq<Seq<u8>> {
    seeds.push(seq![b])
}

/// The two-seed shape `[tag, key]`.
pub open spec fn seeds2(tag: Seq<u8>, key: Seq<u8>) -> Seq<Seq<u8>> {
    seq![tag, key]
}

/// The three-seed shape `[tag, key, id-bytes]` with `id` little-endian.
pub open spec fn seeds3(tag: Seq<u8>, key: Seq<u8>, id: u64) -> Seq<Seq<u8>> {
    seq![tag, key, vstd::bytes::spec_u64_to_le_bytes(id)]
}

/// The seed shape of an associated account: `[wallet, token-module, mint]`.
pub open spec fn ata_seeds(wallet: Seq<u8>, token_prog: Seq<u8>, mint: Seq<u8>) -> Seq<Seq<u8>> {
    seq![wallet, token_prog, mint]
}

/// `b` is the bump the search form settles on for `seeds`: it derives an
/// address, and every bump above it derives none.
pub open spec fn is_first_bump(seeds: Seq<Seq<u8>>, program_id: Seq<u8>, b: u8) -> bool {
    &&& 1 <= b
    &&& pda_of(with_bump(seeds, b), program_id) is Some
    &&& forall|b2: u8| b < b2 ==> (#[trigger] pda_of(with_bump(seeds, b2), program_id)) is None
}

/// The search form settles on at most one bump for a given seed list.
pub proof fn lemma_first_bump_unique(seeds: Seq<Seq<u8>>, program_id: Seq<u8>, b1: u8, b2: u8)
    requires
        is_first_bump(seeds, program_id, b1),
        is_first_bump(seeds, program_id, b2),
    ensures
        b1 == b2,
{
    if b1 < b2 {
        assert(pda_of(with_bump(seeds, b2), program_id) is None);
    }
    if b2 < b1 {
        assert(pda_of(with_bump(seeds, b1), program_id) is None);
    }
}

/// `ata_key` is the canonical associated-account address for `(wallet,
/// token module, mint)`: the bump the search form settles on derives it.
pub open spec fn ata_derived(
    wallet: Seq<u8>,
    token_prog: Seq<u8>,
    mint: Seq<u8>,
    ata_key: Seq<u8>,
) -> bool {
    exists|b: u8|
        #[trigger] is_first_bump(ata_seeds(wallet, token_prog, mint), crate::ATOKEN_PROGRAM_ID@, b)
            && pda_of(
            with_bump(ata_seeds(wallet, token_prog, mint), b),
            crate::ATOKEN_PROGRAM_ID@,
        ) == Some(ata_key)
}

/// Build the associated-account seed list and decide whether `ata_key` is
/// the canonical associated-account address for `(wallet, token module,
/// mint)`.
pub fn check_ata_derivation(wallet: &Pubkey, token_prog: &Pubkey, mint: &Pubkey, ata_key: &Pubkey)
    -> (r: bool)
    ensures
        r == ata_derived(wallet@, token_prog@, mint@, ata_key@),
{
    let mut seeds: Vec<Vec<u8>> = Vec::new();
    seeds.push(vstd::slice::slice_to_vec(wallet.as_slice()));
    seeds.push(vstd::slice::slice_to_vec(token_prog.as_slice()));
    seeds.push(vstd::slice::slice_to_vec(mint.as_slice()));
    proof {
        assert(seeds.deep_view() =~~= ata_seeds(wallet@, token_prog@, mint@));
    }
    let ghost sv = ata_seeds(wallet@, token_prog@, mint@);
    let ghost pid = crate::ATOKEN_PROGRAM_ID@;
    match try_find_program_address(&seeds, &crate::ATOKEN_PROGRAM_ID) {
        Some(ab) => {
            proof {
                assert(is_first_bump(sv, pid, ab.1));
            }
            let hit = crate::key_eq(&ab.0, ata_key);
            proof {
                if hit {
                    assert(ata_derived(wallet@, token_prog@, mint@, ata_key@));
                } else {
                    assert forall|b0: u8| is_first_bump(sv, pid, b0) implies b0 == ab.1 by {
                        lemma_first_bump_unique(sv, pid, b0, ab.1);
                    }
                    assert(!ata_derived(wallet@, token_prog@, mint@, ata_key@));
                }
            }
            hit
        },
        None => {
            proof {
                assert forall|b0: u8| !is_first_bump(sv, pid, b0) by {
                    assert(1 <= b0 ==> pda_of(with_bump(sv, b0), pid) is None);
                }
                assert(!ata_derived(wallet@, token_prog@, mint@, ata_key@));
            }
            false
        },
    }
}

/// Relies on `solana_pubkey::Pubkey::create_program_address`: the derived
/// address is a function of the seeds and the program id alone, and the call
/// fails exactly when the hash is a curve point.
#[verifier::external_body]
fn create_program_address(seeds: &Vec<Vec<u8>>, program_id: &Pubkey) -> (r: Option<Pubkey>)
    requires
        seeds.deep_view().len() <= 16,
        forall|i: int| 0 <= i < seeds.deep_view().len() ==> seeds.deep_view()[i].len() <= 32,
    ensures
        r is Some <==> pda_of(seeds.deep_view(), program_id@) is Some,
        r is Some ==> pda_of(seeds.deep_view(), program_id@) == Some(r.unwrap()@),
{
    let refs: Vec<&[u8]> = seeds.iter().map(|s| s.as_slice()).collect();
    let pid = solana_pubkey::Pubkey::new_from_array(*program_id);
    match solana_pubkey::Pubkey::create_program_address(&refs, &pid) {
        Ok(a) => Some(a.to_bytes()),
        Err(_) => None,
    }
}

/// Relies on `solana_pubkey::Pubkey::try_find_program_address`: it appends
/// bump bytes 255 down to 1 and returns the first bump (and its address) for
/// which `create_program_address` succeeds, or `None` when no bump works.
#[verifier::external_body]
fn try_find_program_address(seeds: &Vec<Vec<u8>>, program_id: &Pubkey) -> (r: Option<(Pubkey, u8)>)
    requires
        seeds.deep_view().len() < 16,
        forall|i: int| 0 <= i < seeds.deep_view().len() ==> seeds.deep_view()[i].len() <= 32,
    ensures
        r is Some ==> {
            &&& 1 <= r.unwrap().1
            &&& pda_of(with_bump(seeds.deep_view(), r.unwrap().1), program_id@) == Some(
                r.unwrap().0@,
            )
            &&& forall|b: u8|
                r.unwrap().1 < b ==> (#[trigger] pda_of(
                    with_bump(seeds.deep_view(), b),
                    program_id@,
                )) is None
        },
        r is None ==> forall|b: u8|
            1 <= b ==> (#[trigger] pda_of(with_bump(seeds.deep_view(), b), program_id@)) is None,
{
    let refs: Vec<&[u8]> = seeds.iter().map(|s| s.as_slice()).collect();
    let pid = solana_pubkey::Pubkey::new_from_array(*program_id);
    solana_pubkey::Pubkey::try_find_program_address(&refs, &pid).map(|(a, b)| (a.to_bytes(), b))
}

/// Build the two-seed list `[tag, key]`.
pub fn seeds_owner(tag: &[u8], key: &Pubkey) -> (r: Vec<Vec<u8>>)
    ensures
        r.deep_view() == seeds2(tag@, key@),
{
    let mut v: Vec<Vec<u8>> = Vec::new();
    v.push(vstd::slice::slice_to_vec(tag));
    v.push(vstd::slice::slice_to_vec(key.as_slice()));
    proof {
        assert(v.deep_view() =~~= seeds2(tag@, key@));
    }
    v
}

/// Build the three-seed list `[tag, key, id-bytes]` with `id` little-endian.
pub fn seeds_owner_id(tag: &[u8], key: &Pubkey, id: u64) -> (r: Vec<Vec<u8>>)
    ensures
        r.deep_view() == seeds3(tag@, key@, id),
{
    let mut v: Vec<Vec<u8>> = Vec::new();
    v.push(vstd::slice::slice_to_vec(tag));
    v.push(vstd::slice::slice_to_vec(key.as_slice()));
    v.push(vstd::bytes::u64_to_le_bytes(id));
    proof {
        assert(v.deep_view() =~~= seeds3(tag@, key@, id));
    }
    v
}

/// Search form over the seed pair `[bstr, user_key]` under this program's id:
/// returns the first off-curve candidate walking bumps 255 down to 1, and its
/// bump. Fails with `InvalidSeeds` when no bump derives.
pub fn derive_pda1(user_key: &Pubkey, bstr: &[u8]) -> (r: Result<(Pubkey, u8), ProgramError>)
    requires
        bstr@.len() <= 32,
    ensures
        r is Ok ==> {
            &&& 1 <= r.unwrap().1
            &&& pda_of(with_bump(seeds2(bstr@, user_key@), r.unwrap().1), ID@) == Some(
                r.unwrap().0@,
            )
            &&& forall|b: u8|
                r.unwrap().1 < b ==> (#[trigger] pda_of(
                    with_bump(seeds2(bstr@, user_key@), b),
                    ID@,
                )) is None
        },
        r is Err ==> r == Err::<(Pubkey, u8), ProgramError>(ProgramError::InvalidSeeds) && forall|
            b: u8,
        |
            1 <= b ==> (#[trigger] pda_of(with_bump(seeds2(bstr@, user_key@), b), ID@)) is None,
{
    let seeds = seeds_owner(bstr, user_key);
    let found = try_find_program_address(&seeds, &ID);
    match found {
        Some(ab) => Ok(ab),
        None => Err(ProgramError::InvalidSeeds),
    }
}

/// Search form over the seed triple `[tag, maker, id-bytes]` under this
/// program's id, used for escrow addresses.
pub fn find_escrow_pda(tag: &[u8], maker: &Pubkey, id: u64) -> (r: Result<
    (Pubkey, u8),
    ProgramError,
>)
    requires
        tag@.len() <= 32,
    ensures
        r is Ok ==> {
            &&& 1 <= r.unwrap().1
            &&& pda_of(with_bump(seeds3(tag@, maker@, id), r.unwrap().1), ID@) == Some(
                r.unwrap().0@,
            )
            &&& forall|b: u8|
                r.unwrap().1 < b ==> (#[trigger] pda_of(
                    with_bump(seeds3(tag@, maker@, id), b),
                    ID@,
                )) is None
        },
        r is Err ==> r == Err::<(Pubkey, u8), ProgramError>(ProgramError::InvalidSeeds) && forall|
            b: u8,
        |
            1 <= b ==> (#[trigger] pda_of(with_bump(seeds3(tag@, maker@, id), b), ID@)) is None,
{
    proof {
        vstd::bytes::lemma_auto_spec_u64_to_from_le_bytes();
    }
    let seeds = seeds_owner_id(tag, maker, id);
    let found = try_find_program_address(&seeds, &ID);
    match found {
        Some(ab) => Ok(ab),
        None => Err(ProgramError::InvalidSeeds),
    }
}

/// Verify form: recompute the address for exactly the claimed bump appended
/// to `seeds`, under this program's id, and compare it to `expected`. True
/// exactly when the claimed bump derives the expected address.
pub fn verify_pda(seeds: &Vec<Vec<u8>>, bump: u8, expected: &Pubkey) -> (r: bool)
    requires
        seeds.deep_view().len() < 16,
        forall|i: int| 0 <= i < seeds.deep_view().len() ==> seeds.deep_view()[i].len() <= 32,
    ensures
        r == (pda_of(with_bump(seeds.deep_view(), bump), ID@) == Some(expected@)),
{
    let mut full_seeds: Vec<Vec<u8>> = Vec::new();
    let mut i: usize = 0;
    let n = seeds.len();
    while i < n
        invariant
            i <= n == seeds.deep_view().len(),
            forall|j: int| 0 <= j < seeds.deep_view().len() ==> seeds.deep_view()[j].len() <= 32,
            full_seeds.deep_view() =~~= seeds.deep_view().subrange(0, i as int),
        decreases n - i,
    {
        full_seeds.push(vstd::slice::slice_to_vec(seeds[i].as_slice()));
        assert(full_seeds.deep_view() =~~= seeds.deep_view().subrange(0, i + 1));
        i += 1;
    }
    proof {
        assert(full_seeds.deep_view() =~~= seeds.deep_view());
    }
    let mut bump_seed: Vec<u8> = Vec::new();
    bump_seed.push(bump);
    proof {
        assert(bump_seed.deep_view() =~~= seq![bump]);
    }
    full_seeds.push(bump_seed);
    proof {
        assert(full_seeds.deep_view() =~~= with_bump(seeds.deep_view(), bump));
    }
    match create_program_address(&full_seeds, &ID) {
        Some(a) => crate::key_eq(&a, expected),
        None => false,
    }
}

} // verus!
