use vstd::prelude::*;

use crate::error::CurveError;
use crate::ledger::{move_lamports, LamportAccount, MintAccount};
use crate::pda::{check_market_accounts, market_accounts_check};
use crate::pricing::{quote_sell, sell_quote, Quote};
use crate::state::{Address, Curve, Pool};

verus! {

/// The accounts of a sale, as the host hands them over, with the balance
/// below which the pool account may not fall.
#[derive(Clone, Debug)]
pub struct Sell {
    pub program_id: Address,
    pub seller: LamportAccount,
    pub seller_tokens: u64,
    pub mint: MintAccount,
    pub authority: Address,
    pub curve_key: Address,
    pub curve: Curve,
    pub treasury: LamportAccount,
    pub creator_vault: LamportAccount,
    pub pool_account: LamportAccount,
    pub pool: Pool,
    pub pool_rent_minimum: u64,
}

impl Sell {
    /// The account checks of a sale.
    pub open spec fn accounts_check(self) -> Result<(), CurveError> {
        market_accounts_check(
            self.program_id,
            self.pool,
            self.pool_account.key,
            self.mint.key,
            self.authority,
            self.curve_key,
            self.treasury.key,
            self.creator_vault.key,
        )
    }

    /// The quote for burning `n` units at the mint's current supply.
    pub open spec fn quote(self, n: u64) -> Result<Quote, CurveError> {
        sell_quote(self.curve, self.pool.creator_fee, self.pool.banger_fee, self.mint.supply, n)
    }

    /// How a sale of `n` units for at least `amount_out` lamports ends: the
    /// quote paid out, or the first check that fails.
    pub open spec fn outcome(self, n: u64, amount_out: u64) -> Result<Quote, CurveError> {
        match self.accounts_check() {
            Err(e) => Err(e),
            Ok(_) => match self.quote(n) {
                Err(e) => Err(e),
                Ok(q) => if amount_out > q.total_out() {
                    Err(CurveError::Slippage)
                } else if self.pool_account.lamports < q.scaled + self.pool_rent_minimum {
                    Err(CurveError::InsufficientFunds)
                } else if self.seller.lamports + q.total_out() > u64::MAX
                    || self.creator_vault.lamports + q.creator_fee > u64::MAX
                    || self.treasury.lamports + q.banger_fee > u64::MAX {
                    Err(CurveError::Overflow)
                } else if self.seller_tokens < n {
                    Err(CurveError::InsufficientFunds)
                } else {
                    Ok(q)
                },
            },
        }
    }

    /// The lamports of every account that a sale touches.
    pub open spec fn lamports_total(self) -> int {
        self.seller.lamports + self.pool_account.lamports + self.treasury.lamports
            + self.creator_vault.lamports
    }

    /// The records, addresses and rent bound, which a sale leaves as they are.
    pub open spec fn same_accounts(self, o: Sell) -> bool {
        &&& self.program_id == o.program_id
        &&& self.seller.key == o.seller.key
        &&& self.mint.key == o.mint.key
        &&& self.authority == o.authority
        &&& self.curve_key == o.curve_key
        &&& self.curve == o.curve
        &&& self.treasury.key == o.treasury.key
        &&& self.creator_vault.key == o.creator_vault.key
        &&& self.pool_account.key == o.pool_account.key
        &&& self.pool == o.pool
        &&& self.pool_rent_minimum == o.pool_rent_minimum
    }

    /// Sells `num_burn` units for at least `amount_out` lamports. The pool
    /// pays the scaled quote: the seller gets it less both fees, the creator
    /// vault the creator fee and the treasury the platform fee, and the units
    /// are burned from the seller. Returns the quote paid; on failure nothing
    /// changes.
    pub fn sell(&mut self, num_burn: u64, amount_out: u64) -> (r: Result<Quote, CurveError>)
        ensures
            r == old(self).outcome(num_burn, amount_out),
            final(self).same_accounts(*old(self)),
            r is Err ==> *final(self) == *old(self),
            r matches Ok(q) ==> {
                &&& final(self).seller.lamports == old(self).seller.lamports + q.total_out()
                &&& final(self).pool_account.lamports == old(self).pool_account.lamports - q.scaled
                &&& final(self).pool_account.lamports >= old(self).pool_rent_minimum
                &&& final(self).treasury.lamports == old(self).treasury.lamports + q.banger_fee
                &&& final(self).creator_vault.lamports == old(self).creator_vault.lamports
                    + q.creator_fee
                &&& final(self).mint.supply == old(self).mint.supply - num_burn
                &&& final(self).seller_tokens == old(self).seller_tokens - num_burn
                &&& final(self).lamports_total() == old(self).lamports_total()
            },
    {
        match check_market_accounts(
            &self.program_id,
            &self.pool,
            &self.pool_account.key,
            &self.mint.key,
            &self.authority,
            &self.curve_key,
            &self.treasury.key,
            &self.creator_vault.key,
        ) {
            Ok(()) => {},
            Err(e) => return Err(e),
        }
        let q = match quote_sell(
            self.curve,
            self.pool.creator_fee,
            self.pool.banger_fee,
            self.mint.supply,
            num_burn,
        ) {
            Ok(q) => q,
            Err(e) => return Err(e),
        };
        let total_out = q.scaled - q.banger_fee - q.creator_fee;
        if amount_out > total_out {
            return Err(CurveError::Slippage);
        }
        if self.pool_account.lamports < q.scaled || self.pool_account.lamports - q.scaled
            < self.pool_rent_minimum {
            return Err(CurveError::InsufficientFunds);
        }
        if self.seller.lamports > u64::MAX - total_out || self.creator_vault.lamports > u64::MAX
            - q.creator_fee || self.treasury.lamports > u64::MAX - q.banger_fee {
            return Err(CurveError::Overflow);
        }
        if self.seller_tokens < num_burn {
            return Err(CurveError::InsufficientFunds);
        }
        let moved = move_lamports(&mut self.pool_account, &mut self.seller, total_out);
        assert(moved is Ok);
        let moved = move_lamports(&mut self.pool_account, &mut self.creator_vault, q.creator_fee);
        assert(moved is Ok);
        let moved = move_lamports(&mut self.pool_account, &mut self.treasury, q.banger_fee);
        assert(moved is Ok);
        self.mint.supply = self.mint.supply - num_burn;
        self.seller_tokens = self.seller_tokens - num_burn;
        Ok(q)
    }
}

/// The quote of a sale reads the curve, the fee rates, the supply and the
/// quantity, and nothing else of the accounts.
pub proof fn sell_quote_reads_no_hidden_state(a: Sell, b: Sell, n: u64)
    requires
        a.curve.pow == b.curve.pow,
        a.curve.frac == b.curve.frac,
        a.pool.creator_fee == b.pool.creator_fee,
        a.pool.banger_fee == b.pool.banger_fee,
        a.mint.supply == b.mint.supply,
    ensures
        a.quote(n) == b.quote(n),
{
    assert(a.curve == b.curve);
}

/// A sale of zero units whose accounts check out succeeds where the pool
/// holds its rent minimum: it pays nothing and burns nothing.
pub proof fn zero_unit_sell_succeeds(s: Sell)
    requires
        s.curve.wf(),
        s.accounts_check() is Ok,
        s.pool_account.lamports >= s.pool_rent_minimum,
    ensures
        s.outcome(0, 0) == Ok::<Quote, CurveError>(Quote { scaled: 0, banger_fee: 0, creator_fee: 0 }),
{
    crate::pricing::zero_units_quote_nothing(s.curve, s.pool.creator_fee, s.pool.banger_fee, s.mint.supply);
}

/// A seller who asks for exactly the quoted total passes the price bound,
/// and where the accounts check out, the pool keeps its rent minimum, no
/// balance overflows and the seller holds the units, the sale succeeds with
/// that quote.
pub proof fn sell_bound_is_inclusive(s: Sell, n: u64)
    requires
        s.quote(n) is Ok,
    ensures
        s.outcome(n, s.quote(n)->Ok_0.total_out() as u64) != Err::<Quote, CurveError>(CurveError::Slippage),
        ({
            let q = s.quote(n)->Ok_0;
            s.accounts_check() is Ok && s.pool_account.lamports >= q.scaled + s.pool_rent_minimum
                && s.seller.lamports + q.total_out() <= u64::MAX && s.creator_vault.lamports
                + q.creator_fee <= u64::MAX && s.treasury.lamports + q.banger_fee <= u64::MAX
                && s.seller_tokens >= n ==> s.outcome(n, q.total_out() as u64) == Ok::<
                Quote,
                CurveError,
            >(q)
        }),
{
    assert(0 <= s.quote(n)->Ok_0.total_out() <= u64::MAX);
}

} // verus!
