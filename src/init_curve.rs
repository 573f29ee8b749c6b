use vstd::prelude::*;

use crate::error::CurveError;
use crate::pda::{canonical_matches_found, curve_address, curve_seeds, is_canonical_address};
use crate::state::{Address, Curve};

verus! {

/// The accounts of the curve's creation: the address that will hold it.
#[derive(Clone, Copy, Debug)]
pub struct InitCurve {
    pub program_id: Address,
    pub curve_key: Address,
}

impl InitCurve {
    /// How creating the curve `(pow, frac)` ends.
    pub open spec fn outcome(self, pow: u64, frac: u64) -> Result<Curve, CurveError> {
        if !is_canonical_address(curve_seeds(), self.program_id, self.curve_key) {
            Err(CurveError::PdaMismatch)
        } else if frac == 0 {
            Err(CurveError::InvalidCurve)
        } else {
            Ok(Curve { pow, frac })
        }
    }

    /// The curve record to write at the curve's address, refused where that
    /// address is not the canonical one or the divisor is zero.
    pub fn init_curve(&self, pow: u64, frac: u64) -> (r: Result<Curve, CurveError>)
        ensures
            r == self.outcome(pow, frac),
            r matches Ok(c) ==> c.wf(),
    {
        let found = curve_address(&self.program_id);
        proof {
            canonical_matches_found(curve_seeds(), self.program_id, self.curve_key, found);
        }
        let at_curve = match found {
            Some((a, _)) => a == self.curve_key,
            None => false,
        };
        if !at_curve {
            return Err(CurveError::PdaMismatch);
        }
        if frac == 0 {
            return Err(CurveError::InvalidCurve);
        }
        Ok(Curve { pow, frac })
    }
}

} // verus!
