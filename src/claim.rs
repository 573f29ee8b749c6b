use vstd::prelude::*;

use crate::error::CurveError;
use crate::ledger::{move_lamports, LamportAccount};
use crate::pda::{creator_vault_seeds, is_canonical_address, is_creator_vault};
use crate::state::Address;

verus! {

/// The accounts of a claim: the creator who withdraws and the vault.
///
/// That the creator owns the creator id is settled before a claim, outside
/// this library.
#[derive(Clone, Copy, Debug)]
pub struct Claim {
    pub program_id: Address,
    pub creator: LamportAccount,
    pub creator_vault: LamportAccount,
}

impl Claim {
    /// How a claim for `creator_id` ends: the lamports moved, or the failure.
    pub open spec fn outcome(self, creator_id: Seq<char>) -> Result<u64, CurveError> {
        if !is_canonical_address(creator_vault_seeds(creator_id), self.program_id, self.creator_vault.key) {
            Err(CurveError::PdaMismatch)
        } else if self.creator.lamports + self.creator_vault.lamports > u64::MAX {
            Err(CurveError::Overflow)
        } else {
            Ok(self.creator_vault.lamports)
        }
    }

    /// Moves the whole balance of the vault of `creator_id` to the creator and
    /// returns the amount moved; on failure nothing changes.
    pub fn claim(&mut self, creator_id: String) -> (r: Result<u64, CurveError>)
        ensures
            r == old(self).outcome(creator_id@),
            final(self).program_id == old(self).program_id,
            final(self).creator.key == old(self).creator.key,
            final(self).creator_vault.key == old(self).creator_vault.key,
            r is Err ==> *final(self) == *old(self),
            r matches Ok(amount) ==> {
                &&& final(self).creator_vault.lamports == 0
                &&& final(self).creator.lamports == old(self).creator.lamports + amount
            },
    {
        if !is_creator_vault(&self.program_id, &creator_id, &self.creator_vault.key) {
            return Err(CurveError::PdaMismatch);
        }
        let amount = self.creator_vault.lamports;
        match move_lamports(&mut self.creator_vault, &mut self.creator, amount) {
            Ok(()) => Ok(amount),
            Err(e) => Err(e),
        }
    }
}

} // verus!
