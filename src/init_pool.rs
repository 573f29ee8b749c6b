use vstd::prelude::*;
use vstd::utf8::encode_utf8;

use crate::error::CurveError;
use crate::pda::{
    authority_address,
    authority_seeds,
    canonical_matches_found,
    creator_vault_seeds,
    is_canonical,
    is_canonical_address,
    is_creator_vault,
    pool_address,
    pool_seeds,
};
use crate::state::{Address, Pool};

verus! {

/// The accounts of a pool's creation: the admin who pays, the new mint, the
/// shared mint authority, the curve, the treasury, the address that will hold
/// the pool and the creator's vault.
#[derive(Clone, Copy, Debug)]
pub struct InitPool {
    pub program_id: Address,
    pub admin: Address,
    pub mint: Address,
    pub authority: Address,
    pub curve_key: Address,
    pub treasury: Address,
    pub pool_key: Address,
    pub creator_vault: Address,
}

impl InitPool {
    /// The authority, the pool and the creator vault are each at the
    /// canonical address of their seeds.
    pub open spec fn addresses_ok(self, creator_id: Seq<char>) -> bool {
        &&& is_canonical_address(authority_seeds(), self.program_id, self.authority)
        &&& is_canonical_address(pool_seeds(self.mint), self.program_id, self.pool_key)
        &&& is_canonical_address(creator_vault_seeds(creator_id), self.program_id, self.creator_vault)
    }

    /// The pool record to write at the pool's address: it is bound to these
    /// accounts and to `creator_id`, and stores the canonical bumps of the
    /// pool and of the authority. Refused with `PdaMismatch` where an address
    /// is not canonical, and with `InvalidFee` where the two fee rates reach
    /// 10 000 basis points together.
    pub fn init_pool(&self, creator_id: String, creator_fee: u16, banger_fee: u16) -> (r: Result<Pool, CurveError>)
        ensures
            !self.addresses_ok(creator_id@) <==> r == Err::<Pool, CurveError>(CurveError::PdaMismatch),
            self.addresses_ok(creator_id@) && creator_fee + banger_fee >= 10_000 <==> r == Err::<Pool, CurveError>(CurveError::InvalidFee),
            self.addresses_ok(creator_id@) && creator_fee + banger_fee < 10_000 ==> r is Ok,
            encode_utf8(creator_id@).len() > 32 ==> r == Err::<Pool, CurveError>(CurveError::PdaMismatch),
            r matches Ok(p) ==> {
                &&& p.wf()
                &&& p.admin == self.admin
                &&& p.mint == self.mint
                &&& p.curve == self.curve_key
                &&& p.treasury == self.treasury
                &&& p.creator_id@ == creator_id@
                &&& p.creator_fee == creator_fee
                &&& p.banger_fee == banger_fee
                &&& is_canonical(pool_seeds(self.mint), self.program_id@, self.pool_key@, p.bump)
                &&& is_canonical(authority_seeds(), self.program_id@, self.authority@, p.authority_bump)
            },
    {
        let found_authority = authority_address(&self.program_id);
        proof {
            canonical_matches_found(authority_seeds(), self.program_id, self.authority, found_authority);
        }
        let authority_bump = match found_authority {
            Some((a, bump)) => {
                if !(a == self.authority) {
                    return Err(CurveError::PdaMismatch);
                }
                bump
            },
            None => return Err(CurveError::PdaMismatch),
        };
        let found_pool = pool_address(&self.program_id, &self.mint);
        proof {
            canonical_matches_found(pool_seeds(self.mint), self.program_id, self.pool_key, found_pool);
        }
        let bump = match found_pool {
            Some((a, bump)) => {
                if !(a == self.pool_key) {
                    return Err(CurveError::PdaMismatch);
                }
                bump
            },
            None => return Err(CurveError::PdaMismatch),
        };
        if !is_creator_vault(&self.program_id, &creator_id, &self.creator_vault) {
            return Err(CurveError::PdaMismatch);
        }
        if creator_fee as u32 + banger_fee as u32 >= 10_000 {
            return Err(CurveError::InvalidFee);
        }
        Ok(
            Pool {
                admin: self.admin,
                mint: self.mint,
                curve: self.curve_key,
                treasury: self.treasury,
                creator_id,
                creator_fee,
                banger_fee,
                bump,
                authority_bump,
            },
        )
    }
}

} // verus!
