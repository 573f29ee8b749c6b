use vstd::prelude::*;
use vstd::utf8::encode_utf8;

use anchor_lang::prelude::Pubkey;

use crate::error::CurveError;
use crate::state::{Address, Pool};

verus! {

/// The address that the runtime derives from `seeds` for `program_id`, or
/// `None` where the seeds are refused or the hash lies on the curve.
pub uninterp spec fn program_address(seeds: Seq<Seq<u8>>, program_id: Seq<u8>) -> Option<Seq<u8>>;

/// The byte views of a list of seeds.
pub open spec fn seed_views(seeds: Seq<Vec<u8>>) -> Seq<Seq<u8>> {
    seeds.map_values(|v: Vec<u8>| v@)
}

/// The runtime takes at most 16 seeds of at most 32 bytes each.
pub open spec fn seeds_within_limits(seeds: Seq<Seq<u8>>) -> bool {
    &&& seeds.len() <= 16
    &&& forall|i: int| 0 <= i < seeds.len() ==> #[trigger] seeds[i].len() <= 32
}

/// `seeds` with the one-byte bump seed `bump` appended.
pub open spec fn with_bump(seeds: Seq<Seq<u8>>, bump: u8) -> Seq<Seq<u8>> {
    seeds.push(seq![bump])
}

/// `address` with `bump` is the canonical derivation from `seeds`: the
/// largest bump from 255 down to 1 for which an address exists.
pub open spec fn is_canonical(seeds: Seq<Seq<u8>>, program_id: Seq<u8>, address: Seq<u8>, bump: u8) -> bool {
    &&& bump >= 1
    &&& program_address(with_bump(seeds, bump), program_id) == Some(address)
    &&& forall|b: u8| bump < b ==> #[trigger] program_address(with_bump(seeds, b), program_id) is None
}

/// No bump from 255 down to 1 derives an address from `seeds`.
pub open spec fn has_no_address(seeds: Seq<Seq<u8>>, program_id: Seq<u8>) -> bool {
    forall|b: u8| 1 <= b ==> #[trigger] program_address(with_bump(seeds, b), program_id) is None
}

/// What a canonical search over `seeds` returns.
pub open spec fn found(seeds: Seq<Seq<u8>>, program_id: Seq<u8>, r: Option<(Address, u8)>) -> bool {
    match r {
        Some((a, bump)) => is_canonical(seeds, program_id, a@, bump),
        None => has_no_address(seeds, program_id),
    }
}

/// Relies on `Pubkey::create_program_address`: the address derived from the
/// seeds, refused where there are more than 16 seeds or a seed is longer than
/// 32 bytes, or where the hash lies on the curve.
#[verifier::external_body]
fn create_address(seeds: &Vec<Vec<u8>>, program_id: &Address) -> (r: Option<Address>)
    ensures
        match r {
            Some(a) => program_address(seed_views(seeds@), program_id@) == Some(a@),
            None => program_address(seed_views(seeds@), program_id@) is None,
        },
        !seeds_within_limits(seed_views(seeds@)) ==> r is None,
{
    let refs: Vec<&[u8]> = seeds.iter().map(|s| s.as_slice()).collect();
    match Pubkey::create_program_address(&refs, &Pubkey::new_from_array(program_id.bytes)) {
        Ok(k) => Some(Address { bytes: k.to_bytes() }),
        Err(_) => None,
    }
}

/// Relies on `Pubkey::try_find_program_address`: it tries the bump seeds from
/// 255 down to 1 through `create_program_address` and returns the first
/// address found, with its bump.
#[verifier::external_body]
fn find_address(seeds: &Vec<Vec<u8>>, program_id: &Address) -> (r: Option<(Address, u8)>)
    ensures
        found(seed_views(seeds@), program_id@, r),
        !seeds_within_limits(with_bump(seed_views(seeds@), 255)) ==> r is None,
{
    let refs: Vec<&[u8]> = seeds.iter().map(|s| s.as_slice()).collect();
    match Pubkey::try_find_program_address(&refs, &Pubkey::new_from_array(program_id.bytes)) {
        Some((k, bump)) => Some((Address { bytes: k.to_bytes() }, bump)),
        None => None,
    }
}

/// The seed of the curve record: the ASCII bytes of `curve`.
pub open spec fn curve_seed() -> Seq<u8> {
    seq![99u8, 117, 114, 118, 101]
}

/// The seed of the shared mint authority: the ASCII bytes of `authority`.
pub open spec fn authority_seed() -> Seq<u8> {
    seq![97u8, 117, 116, 104, 111, 114, 105, 116, 121]
}

/// The tag of a pool's seeds, the ASCII bytes of `pool`; the mint's address
/// follows it.
pub open spec fn pool_seed() -> Seq<u8> {
    seq![112u8, 111, 111, 108]
}

/// The tag of a creator vault's seeds, the ASCII bytes of `creator_vault`;
/// the creator id's UTF-8 bytes follow it.
pub open spec fn creator_vault_seed() -> Seq<u8> {
    seq![99u8, 114, 101, 97, 116, 111, 114, 95, 118, 97, 117, 108, 116]
}

pub open spec fn curve_seeds() -> Seq<Seq<u8>> {
    seq![curve_seed()]
}

pub open spec fn authority_seeds() -> Seq<Seq<u8>> {
    seq![authority_seed()]
}

pub open spec fn pool_seeds(mint: Address) -> Seq<Seq<u8>> {
    seq![pool_seed(), mint@]
}

pub open spec fn creator_vault_seeds(creator_id: Seq<char>) -> Seq<Seq<u8>> {
    seq![creator_vault_seed(), encode_utf8(creator_id)]
}

fn curve_seed_list() -> (r: Vec<Vec<u8>>)
    ensures
        seed_views(r@) == curve_seeds(),
{
    let r = vec![vec![99u8, 117, 114, 118, 101]];
    assert(seed_views(r@) =~= curve_seeds());
    r
}

fn authority_seed_list() -> (r: Vec<Vec<u8>>)
    ensures
        seed_views(r@) == authority_seeds(),
{
    let r = vec![vec![97u8, 117, 116, 104, 111, 114, 105, 116, 121]];
    assert(seed_views(r@) =~= authority_seeds());
    r
}

fn pool_seed_list(mint: &Address) -> (r: Vec<Vec<u8>>)
    ensures
        seed_views(r@) == pool_seeds(*mint),
{
    let r = vec![vec![112u8, 111, 111, 108], vstd::slice::slice_to_vec(mint.bytes.as_slice())];
    assert(seed_views(r@) =~= pool_seeds(*mint));
    r
}

fn creator_vault_seed_list(creator_id: &String) -> (r: Vec<Vec<u8>>)
    ensures
        seed_views(r@) == creator_vault_seeds(creator_id@),
{
    let id = vstd::slice::slice_to_vec(creator_id.as_str().as_bytes());
    let r = vec![
        vec![99u8, 114, 101, 97, 116, 111, 114, 95, 118, 97, 117, 108, 116],
        id,
    ];
    assert(seed_views(r@) =~= creator_vault_seeds(creator_id@));
    r
}

/// `address` is derived from `seeds` with the bump seed `bump`.
pub open spec fn derives(seeds: Seq<Seq<u8>>, program_id: Address, address: Address, bump: u8) -> bool {
    program_address(with_bump(seeds, bump), program_id@) == Some(address@)
}

/// `address` is the canonical derivation from `seeds`, with whatever bump.
pub open spec fn is_canonical_address(seeds: Seq<Seq<u8>>, program_id: Address, address: Address) -> bool {
    exists|b: u8| is_canonical(seeds, program_id@, address@, b)
}

proof fn lemma_canonical_unique(seeds: Seq<Seq<u8>>, program_id: Seq<u8>, a1: Seq<u8>, b1: u8, a2: Seq<u8>, b2: u8)
    requires
        is_canonical(seeds, program_id, a1, b1),
        is_canonical(seeds, program_id, a2, b2),
    ensures
        a1 == a2,
        b1 == b2,
{
    if b1 < b2 {
        assert(program_address(with_bump(seeds, b2), program_id) is None);
    } else if b2 < b1 {
        assert(program_address(with_bump(seeds, b1), program_id) is None);
    }
}

fn derived_with(seeds: Vec<Vec<u8>>, bump: u8, program_id: &Address, address: &Address) -> (r: bool)
    ensures
        r == derives(seed_views(seeds@), *program_id, *address, bump),
{
    let mut seeds = seeds;
    let ghost before = seeds@;
    let b = vec![bump];
    assert(b@ =~= seq![bump]);
    seeds.push(b);
    assert(seed_views(seeds@) =~= with_bump(seed_views(before), bump));
    match create_address(&seeds, program_id) {
        Some(a) => a == *address,
        None => false,
    }
}

/// The canonical address of `seeds` is `address` exactly where a canonical
/// search returns `address`.
pub proof fn canonical_matches_found(
    seeds: Seq<Seq<u8>>,
    program_id: Address,
    address: Address,
    r: Option<(Address, u8)>,
)
    requires
        found(seeds, program_id@, r),
    ensures
        is_canonical_address(seeds, program_id, address) <==> (r matches Some((a, _)) && a@ == address@),
{
    match r {
        Some((a, bump)) => {
            if a@ == address@ {
                assert(is_canonical(seeds, program_id@, address@, bump));
            } else if is_canonical_address(seeds, program_id, address) {
                let b = choose|b: u8| is_canonical(seeds, program_id@, address@, b);
                lemma_canonical_unique(seeds, program_id@, a@, bump, address@, b);
            }
        },
        None => {
            if is_canonical_address(seeds, program_id, address) {
                let b = choose|b: u8| is_canonical(seeds, program_id@, address@, b);
                assert(program_address(with_bump(seeds, b), program_id@) is None);
            }
        },
    }
}

fn is_canonical_with(seeds: Vec<Vec<u8>>, program_id: &Address, address: &Address) -> (r: bool)
    ensures
        r == is_canonical_address(seed_views(seeds@), *program_id, *address),
        !seeds_within_limits(with_bump(seed_views(seeds@), 255)) ==> !r,
{
    let found = find_address(&seeds, program_id);
    proof {
        canonical_matches_found(seed_views(seeds@), *program_id, *address, found);
    }
    match found {
        Some((a, _)) => a == *address,
        None => false,
    }
}

/// The canonical address of the curve record, and its bump.
pub fn curve_address(program_id: &Address) -> (r: Option<(Address, u8)>)
    ensures
        found(curve_seeds(), program_id@, r),
{
    find_address(&curve_seed_list(), program_id)
}

/// The canonical address of the shared mint authority, and its bump.
pub fn authority_address(program_id: &Address) -> (r: Option<(Address, u8)>)
    ensures
        found(authority_seeds(), program_id@, r),
{
    find_address(&authority_seed_list(), program_id)
}

/// The canonical address of the pool of `mint`, and its bump.
pub fn pool_address(program_id: &Address, mint: &Address) -> (r: Option<(Address, u8)>)
    ensures
        found(pool_seeds(*mint), program_id@, r),
{
    find_address(&pool_seed_list(mint), program_id)
}

/// The canonical address of the vault of `creator_id`, and its bump.
pub fn creator_vault_address(program_id: &Address, creator_id: &String) -> (r: Option<(Address, u8)>)
    ensures
        found(creator_vault_seeds(creator_id@), program_id@, r),
{
    find_address(&creator_vault_seed_list(creator_id), program_id)
}

/// The checks that tie the accounts of a buy or a sale together.
pub open spec fn market_accounts_check(
    program_id: Address,
    pool: Pool,
    pool_key: Address,
    mint: Address,
    authority: Address,
    curve_key: Address,
    treasury: Address,
    creator_vault: Address,
) -> Result<(), CurveError> {
    if !(pool.mint@ == mint@ && pool.curve@ == curve_key@ && pool.treasury@ == treasury@) {
        Err(CurveError::AuthorityMismatch)
    } else if !derives(pool_seeds(mint), program_id, pool_key, pool.bump) {
        Err(CurveError::PdaMismatch)
    } else if !derives(authority_seeds(), program_id, authority, pool.authority_bump) {
        Err(CurveError::PdaMismatch)
    } else if !is_canonical_address(creator_vault_seeds(pool.creator_id@), program_id, creator_vault) {
        Err(CurveError::PdaMismatch)
    } else {
        Ok(())
    }
}

/// Checks the accounts of a buy or a sale: the pool names the mint, the curve
/// and the treasury it is given; the pool and the authority are derived with
/// the bumps that the pool stores; the creator vault is the canonical address
/// of the pool's creator id.
pub fn check_market_accounts(
    program_id: &Address,
    pool: &Pool,
    pool_key: &Address,
    mint: &Address,
    authority: &Address,
    curve_key: &Address,
    treasury: &Address,
    creator_vault: &Address,
) -> (r: Result<(), CurveError>)
    ensures
        r == market_accounts_check(*program_id, *pool, *pool_key, *mint, *authority, *curve_key, *treasury, *creator_vault),
{
    if !(pool.mint == *mint && pool.curve == *curve_key && pool.treasury == *treasury) {
        return Err(CurveError::AuthorityMismatch);
    }
    if !derived_with(pool_seed_list(mint), pool.bump, program_id, pool_key) {
        return Err(CurveError::PdaMismatch);
    }
    if !derived_with(authority_seed_list(), pool.authority_bump, program_id, authority) {
        return Err(CurveError::PdaMismatch);
    }
    if !is_canonical_with(creator_vault_seed_list(&pool.creator_id), program_id, creator_vault) {
        return Err(CurveError::PdaMismatch);
    }
    Ok(())
}

/// Whether `address` is the canonical address of the vault of `creator_id`.
pub fn is_creator_vault(program_id: &Address, creator_id: &String, address: &Address) -> (r: bool)
    ensures
        r == is_canonical_address(creator_vault_seeds(creator_id@), *program_id, *address),
        encode_utf8(creator_id@).len() > 32 ==> !r,
{
    proof {
        let sv = with_bump(creator_vault_seeds(creator_id@), 255);
        assert(sv[1] == encode_utf8(creator_id@));
    }
    is_canonical_with(creator_vault_seed_list(creator_id), program_id, address)
}

} // verus!
