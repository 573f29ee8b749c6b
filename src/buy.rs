use vstd::prelude::*;

use crate::error::CurveError;
use crate::ledger::{move_lamports, LamportAccount, MintAccount};
use crate::pda::{check_market_accounts, market_accounts_check};
use crate::pricing::{buy_quote, quote_buy, Quote};
use crate::state::{Address, Curve, Pool};

verus! {

/// The accounts of a purchase, as the host hands them over: balances, the
/// mint's supply, the buyer's token holding and the curve and pool records.
#[derive(Clone, Debug)]
pub struct Buy {
    pub program_id: Address,
    pub buyer: LamportAccount,
    pub buyer_tokens: u64,
    pub mint: MintAccount,
    pub authority: Address,
    pub curve_key: Address,
    pub curve: Curve,
    pub treasury: LamportAccount,
    pub creator_vault: LamportAccount,
    pub pool_account: LamportAccount,
    pub pool: Pool,
}

impl Buy {
    /// The account checks of a purchase.
    pub open spec fn accounts_check(self) -> Result<(), CurveError> {
        market_accounts_check(
            self.program_id,
            self.pool,
            self.pool_account.key,
            self.mint.key,
            self.authority,
            self.curve_key,
            self.treasury.key,
            self.creator_vault.key,
        )
    }

    /// The quote for minting `n` units at the mint's current supply.
    pub open spec fn quote(self, n: u64) -> Result<Quote, CurveError> {
        buy_quote(self.curve, self.pool.creator_fee, self.pool.banger_fee, self.mint.supply, n)
    }

    /// How a purchase of `n` units with at most `amount_in` lamports ends:
    /// the quote charged, or the first check that fails.
    pub open spec fn outcome(self, amount_in: u64, n: u64) -> Result<Quote, CurveError> {
        match self.accounts_check() {
            Err(e) => Err(e),
            Ok(_) => match self.quote(n) {
                Err(e) => Err(e),
                Ok(q) => if amount_in < q.total_in() {
                    Err(CurveError::Slippage)
                } else if self.buyer.lamports < q.total_in() {
                    Err(CurveError::InsufficientFunds)
                } else if self.pool_account.lamports + q.scaled > u64::MAX
                    || self.creator_vault.lamports + q.creator_fee > u64::MAX
                    || self.treasury.lamports + q.banger_fee > u64::MAX
                    || self.mint.supply + n > u64::MAX || self.buyer_tokens + n > u64::MAX {
                    Err(CurveError::Overflow)
                } else {
                    Ok(q)
                },
            },
        }
    }

    /// The lamports of every account that a purchase touches.
    pub open spec fn lamports_total(self) -> int {
        self.buyer.lamports + self.pool_account.lamports + self.treasury.lamports
            + self.creator_vault.lamports
    }

    /// The records and addresses, which a purchase leaves as they are.
    pub open spec fn same_accounts(self, o: Buy) -> bool {
        &&& self.program_id == o.program_id
        &&& self.buyer.key == o.buyer.key
        &&& self.mint.key == o.mint.key
        &&& self.authority == o.authority
        &&& self.curve_key == o.curve_key
        &&& self.curve == o.curve
        &&& self.treasury.key == o.treasury.key
        &&& self.creator_vault.key == o.creator_vault.key
        &&& self.pool_account.key == o.pool_account.key
        &&& self.pool == o.pool
    }

    /// Buys `num_mint` units for at most `amount_in` lamports. The buyer pays
    /// the scaled quote to the pool, the creator fee to the creator vault and
    /// the platform fee to the treasury, and the units are minted to the
    /// buyer. Returns the quote charged; on failure nothing changes.
    pub fn buy(&mut self, amount_in: u64, num_mint: u64) -> (r: Result<Quote, CurveError>)
        ensures
            r == old(self).outcome(amount_in, num_mint),
            final(self).same_accounts(*old(self)),
            r is Err ==> *final(self) == *old(self),
            r matches Ok(q) ==> {
                &&& final(self).buyer.lamports == old(self).buyer.lamports - q.total_in()
                &&& final(self).pool_account.lamports == old(self).pool_account.lamports + q.scaled
                &&& final(self).treasury.lamports == old(self).treasury.lamports + q.banger_fee
                &&& final(self).creator_vault.lamports == old(self).creator_vault.lamports
                    + q.creator_fee
                &&& final(self).mint.supply == old(self).mint.supply + num_mint
                &&& final(self).buyer_tokens == old(self).buyer_tokens + num_mint
                &&& final(self).lamports_total() == old(self).lamports_total()
            },
    {
        match check_market_accounts(
            &self.program_id,
            &self.pool,
            &self.pool_account.key,
            &self.mint.key,
            &self.authority,
            &self.curve_key,
            &self.treasury.key,
            &self.creator_vault.key,
        ) {
            Ok(()) => {},
            Err(e) => return Err(e),
        }
        let q = match quote_buy(
            self.curve,
            self.pool.creator_fee,
            self.pool.banger_fee,
            self.mint.supply,
            num_mint,
        ) {
            Ok(q) => q,
            Err(e) => return Err(e),
        };
        let total_in = q.scaled + q.banger_fee + q.creator_fee;
        if amount_in < total_in {
            return Err(CurveError::Slippage);
        }
        if self.buyer.lamports < total_in {
            return Err(CurveError::InsufficientFunds);
        }
        if self.pool_account.lamports > u64::MAX - q.scaled || self.creator_vault.lamports > u64::MAX
            - q.creator_fee || self.treasury.lamports > u64::MAX - q.banger_fee || self.mint.supply
            > u64::MAX - num_mint || self.buyer_tokens > u64::MAX - num_mint {
            return Err(CurveError::Overflow);
        }
        let moved = move_lamports(&mut self.buyer, &mut self.pool_account, q.scaled);
        assert(moved is Ok);
        let moved = move_lamports(&mut self.buyer, &mut self.creator_vault, q.creator_fee);
        assert(moved is Ok);
        let moved = move_lamports(&mut self.buyer, &mut self.treasury, q.banger_fee);
        assert(moved is Ok);
        self.mint.supply = self.mint.supply + num_mint;
        self.buyer_tokens = self.buyer_tokens + num_mint;
        Ok(q)
    }
}

/// The quote of a purchase reads the curve, the fee rates, the supply and
/// the quantity, and nothing else of the accounts.
pub proof fn buy_quote_reads_no_hidden_state(a: Buy, b: Buy, n: u64)
    requires
        a.curve.pow == b.curve.pow,
        a.curve.frac == b.curve.frac,
        a.pool.creator_fee == b.pool.creator_fee,
        a.pool.banger_fee == b.pool.banger_fee,
        a.mint.supply == b.mint.supply,
    ensures
        a.quote(n) == b.quote(n),
{
    assert(a.curve == b.curve);
}

/// A purchase of zero units whose accounts check out succeeds, charges
/// nothing and mints nothing.
pub proof fn zero_unit_buy_succeeds(b: Buy, amount_in: u64)
    requires
        b.curve.wf(),
        b.accounts_check() is Ok,
    ensures
        b.outcome(amount_in, 0) == Ok::<Quote, CurveError>(Quote { scaled: 0, banger_fee: 0, creator_fee: 0 }),
{
    crate::pricing::zero_units_quote_nothing(b.curve, b.pool.creator_fee, b.pool.banger_fee, b.mint.supply);
}

/// Two purchases of the same quantity that both succeed on the same supply,
/// curve and fee rates charge the same quote, so the balances and the supply
/// change by the same amounts in both.
pub proof fn buy_outcome_reads_no_hidden_state(a: Buy, b: Buy, amount_in: u64, n: u64)
    requires
        a.curve.pow == b.curve.pow,
        a.curve.frac == b.curve.frac,
        a.pool.creator_fee == b.pool.creator_fee,
        a.pool.banger_fee == b.pool.banger_fee,
        a.mint.supply == b.mint.supply,
        a.outcome(amount_in, n) is Ok,
        b.outcome(amount_in, n) is Ok,
    ensures
        a.outcome(amount_in, n) == b.outcome(amount_in, n),
{
    buy_quote_reads_no_hidden_state(a, b, n);
}

/// With a positive exponent, the first unit bought from an empty supply is
/// free: where the accounts check out, the purchase succeeds for any bound
/// and charges nothing.
pub proof fn first_unit_buy_is_free(b: Buy, amount_in: u64)
    requires
        b.curve.wf(),
        b.curve.pow > 0,
        b.mint.supply == 0,
        b.accounts_check() is Ok,
        b.buyer_tokens < u64::MAX,
    ensures
        b.outcome(amount_in, 1) == Ok::<Quote, CurveError>(Quote { scaled: 0, banger_fee: 0, creator_fee: 0 }),
{
    let c = b.curve;
    crate::pricing::lemma_power_zero_one(c.pow as nat);
    crate::pricing::price_is_positive_from_divisor(c, 0);
    assert(crate::pricing::buy_sum(c, 0, 1) == crate::pricing::buy_sum(c, 0, 0) + crate::pricing::price(c, 0));
    assert(crate::pricing::buy_levels_fit(c, 0, 1)) by {
        assert forall|k: nat| k < 1 implies 0 + k <= u64::MAX && #[trigger] crate::pricing::power(
            (0 + k) as nat,
            c.pow as nat,
        ) <= u64::MAX by {
            assert(k == 0);
        }
    }
    assert(crate::pricing::fee_at(0, b.pool.banger_fee as nat) == 0);
    assert(crate::pricing::fee_at(0, b.pool.creator_fee as nat) == 0);
}

/// A buyer who offers exactly the quoted total passes the price bound, and
/// where the accounts check out, the buyer can pay and no balance overflows,
/// the purchase succeeds with that quote.
pub proof fn buy_bound_is_inclusive(b: Buy, n: u64)
    requires
        b.quote(n) is Ok,
    ensures
        b.outcome(b.quote(n)->Ok_0.total_in() as u64, n) != Err::<Quote, CurveError>(CurveError::Slippage),
        ({
            let q = b.quote(n)->Ok_0;
            b.accounts_check() is Ok && b.buyer.lamports >= q.total_in() && b.pool_account.lamports
                + q.scaled <= u64::MAX && b.creator_vault.lamports + q.creator_fee <= u64::MAX
                && b.treasury.lamports + q.banger_fee <= u64::MAX && b.mint.supply + n <= u64::MAX
                && b.buyer_tokens + n <= u64::MAX ==> b.outcome(q.total_in() as u64, n) == Ok::<
                Quote,
                CurveError,
            >(q)
        }),
{
}

} // verus!
