use vstd::prelude::*;

use crate::error::CurveError;
use crate::state::Address;

verus! {

/// An account seen by its address and its lamport balance.
#[derive(Clone, Copy, Debug)]
pub struct LamportAccount {
    pub key: Address,
    pub lamports: u64,
}

/// A token mint seen by its address and the units it has issued.
#[derive(Clone, Copy, Debug)]
pub struct MintAccount {
    pub key: Address,
    pub supply: u64,
}

/// Whether `amount` lamports can move from a balance of `from` to one of `to`.
pub open spec fn transfer_check(from: u64, to: u64, amount: u64) -> Result<(), CurveError> {
    if from < amount {
        Err(CurveError::InsufficientFunds)
    } else if to + amount > u64::MAX {
        Err(CurveError::Overflow)
    } else {
        Ok(())
    }
}

/// Moves `amount` lamports from `from` to `to`. Nothing moves on failure.
pub fn move_lamports(from: &mut LamportAccount, to: &mut LamportAccount, amount: u64) -> (r: Result<(), CurveError>)
    ensures
        r == transfer_check(old(from).lamports, old(to).lamports, amount),
        final(from).key == old(from).key,
        final(to).key == old(to).key,
        r is Ok ==> final(from).lamports == old(from).lamports - amount,
        r is Ok ==> final(to).lamports == old(to).lamports + amount,
        r is Err ==> *final(from) == *old(from) && *final(to) == *old(to),
{
    if from.lamports < amount {
        return Err(CurveError::InsufficientFunds);
    }
    if to.lamports > u64::MAX - amount {
        return Err(CurveError::Overflow);
    }
    from.lamports = from.lamports - amount;
    to.lamports = to.lamports + amount;
    Ok(())
}

} // verus!
