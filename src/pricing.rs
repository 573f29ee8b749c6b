use vstd::prelude::*;

use crate::error::CurveError;
use crate::state::Curve;

verus! {

/// Lamports per unit of the raw curve sum.
pub const LAMPORTS_PER_UNIT: u64 = 1_000_000_000;

/// Fee rates are counted in basis points of this.
pub const BASIS_POINTS: u64 = 10_000;

/// `b` to the power `e`, on natural numbers.
pub open spec fn power(b: nat, e: nat) -> nat
    decreases e,
{
    if e == 0 {
        1
    } else {
        b * power(b, (e - 1) as nat)
    }
}

/// The price of one unit at supply level `level`.
pub open spec fn price(c: Curve, level: nat) -> nat {
    power(level, c.pow as nat) / (c.frac as nat)
}

/// The raw cost of buying `n` units from supply `s`: levels `s .. s + n`.
pub open spec fn buy_sum(c: Curve, s: nat, n: nat) -> nat
    decreases n,
{
    if n == 0 {
        0
    } else {
        buy_sum(c, s, (n - 1) as nat) + price(c, (s + n - 1) as nat)
    }
}

/// The raw refund for selling `n` units from supply `s`: levels
/// `s - 1` down to `s - n`.
pub open spec fn sell_sum(c: Curve, s: nat, n: nat) -> nat
    decreases n,
{
    if n == 0 {
        0
    } else {
        sell_sum(c, s, (n - 1) as nat) + price(c, (s - n) as nat)
    }
}

/// Every level that a buy of `n` units from `s` prices is a `u64`, and so is
/// its power.
pub open spec fn buy_levels_fit(c: Curve, s: nat, n: nat) -> bool {
    forall|k: nat|
        k < n ==> s + k <= u64::MAX && #[trigger] power((s + k) as nat, c.pow as nat) <= u64::MAX
}

/// A sale of `n` units from `s` stays within the supply, and every power it
/// takes is a `u64`.
pub open spec fn sell_levels_fit(c: Curve, s: nat, n: nat) -> bool {
    &&& n <= s
    &&& forall|k: nat|
        1 <= k <= n ==> #[trigger] power((s - k) as nat, c.pow as nat) <= u64::MAX
}

/// A quote: the scaled curve sum and the two fees taken on it.
#[derive(Clone, Copy, Debug, PartialEq, Eq, Structural)]
pub struct Quote {
    pub scaled: u64,
    pub banger_fee: u64,
    pub creator_fee: u64,
}

impl Quote {
    /// What a buyer pays.
    pub open spec fn total_in(self) -> int {
        self.scaled + self.banger_fee + self.creator_fee
    }

    /// What a seller receives.
    pub open spec fn total_out(self) -> int {
        self.scaled - self.banger_fee - self.creator_fee
    }
}

/// The fee at `rate` basis points of `amount`, rounded down.
pub open spec fn fee_at(amount: nat, rate: nat) -> nat {
    amount * rate / (BASIS_POINTS as nat)
}

/// The quote on a raw sum, before the check of the buyer's or seller's total.
pub open spec fn scale_raw(raw: nat, creator_rate: u16, banger_rate: u16) -> Result<Quote, CurveError> {
    let scaled = raw * (LAMPORTS_PER_UNIT as nat);
    if scaled > u64::MAX || scaled * banger_rate > u64::MAX || scaled * creator_rate > u64::MAX {
        Err(CurveError::Overflow)
    } else {
        Ok(
            Quote {
                scaled: scaled as u64,
                banger_fee: fee_at(scaled, banger_rate as nat) as u64,
                creator_fee: fee_at(scaled, creator_rate as nat) as u64,
            },
        )
    }
}

/// The quote for buying `n` units at supply `s`.
pub open spec fn buy_quote(c: Curve, creator_rate: u16, banger_rate: u16, s: u64, n: u64) -> Result<Quote, CurveError> {
    if c.frac == 0 {
        Err(CurveError::InvalidCurve)
    } else if !buy_levels_fit(c, s as nat, n as nat) {
        Err(CurveError::Overflow)
    } else {
        match scale_raw(buy_sum(c, s as nat, n as nat), creator_rate, banger_rate) {
            Ok(q) => if q.total_in() > u64::MAX {
                Err(CurveError::Overflow)
            } else {
                Ok(q)
            },
            Err(e) => Err(e),
        }
    }
}

/// The quote for selling `n` units at supply `s`.
pub open spec fn sell_quote(c: Curve, creator_rate: u16, banger_rate: u16, s: u64, n: u64) -> Result<Quote, CurveError> {
    if c.frac == 0 {
        Err(CurveError::InvalidCurve)
    } else if !sell_levels_fit(c, s as nat, n as nat) {
        Err(CurveError::Overflow)
    } else {
        match scale_raw(sell_sum(c, s as nat, n as nat), creator_rate, banger_rate) {
            Ok(q) => if q.total_out() < 0 {
                Err(CurveError::Overflow)
            } else {
                Ok(q)
            },
            Err(e) => Err(e),
        }
    }
}

pub(crate) proof fn lemma_power_zero_one(e: nat)
    ensures
        power(1, e) == 1,
        e > 0 ==> power(0, e) == 0,
    decreases e,
{
    if e > 0 {
        lemma_power_zero_one((e - 1) as nat);
    }
}

proof fn lemma_power_grows(b: nat, e1: nat, e2: nat)
    requires
        b >= 1,
        e1 <= e2,
    ensures
        1 <= power(b, e1) <= power(b, e2),
    decreases e2,
{
    if e2 > 0 {
        let e = (e2 - 1) as nat;
        if e1 == e2 {
            lemma_power_grows(b, e, e);
        } else {
            lemma_power_grows(b, e1, e);
        }
        let p = power(b, e);
        assert(b * p >= p) by (nonlinear_arith)
            requires
                b >= 1,
                p >= 1,
        ;
    }
}

/// `base ^ exp`, or `None` where it is no `u64`.
pub fn checked_power(base: u64, exp: u64) -> (r: Option<u64>)
    ensures
        r == (if power(base as nat, exp as nat) <= u64::MAX {
            Some(power(base as nat, exp as nat) as u64)
        } else {
            None::<u64>
        }),
{
    if base <= 1 {
        proof {
            lemma_power_zero_one(exp as nat);
        }
        if exp == 0 {
            return Some(1);
        }
        return Some(base);
    }
    let mut acc: u64 = 1;
    let mut i: u64 = 0;
    while i < exp
        invariant
            base >= 2,
            i <= exp,
            acc == power(base as nat, i as nat),
        decreases exp - i,
    {
        assert(power(base as nat, (i + 1) as nat) == acc * base) by (nonlinear_arith)
            requires
                acc == power(base as nat, i as nat),
                power(base as nat, (i + 1) as nat) == base * power(base as nat, i as nat),
        ;
        match acc.checked_mul(base) {
            Some(v) => {
                acc = v;
            },
            None => {
                proof {
                    lemma_power_grows(base as nat, (i + 1) as nat, exp as nat);
                }
                return None;
            },
        }
        i = i + 1;
    }
    Some(acc)
}

/// The price of one unit at supply `level`, or `Overflow` where the power is
/// no `u64`.
pub fn unit_price(curve: Curve, level: u64) -> (r: Result<u64, CurveError>)
    requires
        curve.wf(),
    ensures
        r == (if power(level as nat, curve.pow as nat) <= u64::MAX {
            Ok(price(curve, level as nat) as u64)
        } else {
            Err::<u64, CurveError>(CurveError::Overflow)
        }),
{
    match checked_power(level, curve.pow) {
        Some(p) => Ok(p / curve.frac),
        None => Err(CurveError::Overflow),
    }
}

proof fn lemma_buy_sum_grows(c: Curve, s: nat, m: nat, n: nat)
    requires
        m <= n,
    ensures
        buy_sum(c, s, m) <= buy_sum(c, s, n),
    decreases n,
{
    if m < n {
        lemma_buy_sum_grows(c, s, m, (n - 1) as nat);
    }
}

proof fn lemma_sell_sum_grows(c: Curve, s: nat, m: nat, n: nat)
    requires
        m <= n,
    ensures
        sell_sum(c, s, m) <= sell_sum(c, s, n),
    decreases n,
{
    if m < n {
        lemma_sell_sum_grows(c, s, m, (n - 1) as nat);
    }
}

/// Scales a raw curve sum to lamports and takes the two fees on it.
fn scale(raw: u64, creator_rate: u16, banger_rate: u16) -> (r: Result<Quote, CurveError>)
    ensures
        r == scale_raw(raw as nat, creator_rate, banger_rate),
{
    let scaled = match raw.checked_mul(LAMPORTS_PER_UNIT) {
        Some(v) => v,
        None => return Err(CurveError::Overflow),
    };
    let banger_fee = match scaled.checked_mul(banger_rate as u64) {
        Some(v) => v / BASIS_POINTS,
        None => return Err(CurveError::Overflow),
    };
    let creator_fee = match scaled.checked_mul(creator_rate as u64) {
        Some(v) => v / BASIS_POINTS,
        None => return Err(CurveError::Overflow),
    };
    Ok(Quote { scaled, banger_fee, creator_fee })
}

/// Quotes a buy of `n` units at supply `supply`: the sum of the prices of
/// levels `supply .. supply + n`, scaled to lamports, with a fee at each rate
/// (in basis points) on the scaled sum. Every step is checked; any overflow is
/// `Overflow`, and a zero divisor is `InvalidCurve`.
pub fn quote_buy(curve: Curve, creator_fee: u16, banger_fee: u16, supply: u64, n: u64) -> (r: Result<Quote, CurveError>)
    ensures
        r == buy_quote(curve, creator_fee, banger_fee, supply, n),
        r is Ok ==> r->Ok_0.scaled == buy_sum(curve, supply as nat, n as nat) * LAMPORTS_PER_UNIT,
        r is Ok ==> r->Ok_0.banger_fee == r->Ok_0.scaled * banger_fee / 10_000,
        r is Ok ==> r->Ok_0.creator_fee == r->Ok_0.scaled * creator_fee / 10_000,
{
    if curve.frac == 0 {
        return Err(CurveError::InvalidCurve);
    }
    let ghost c = curve;
    let ghost s = supply as nat;
    let mut raw: u64 = 0;
    let mut i: u64 = 0;
    while i < n
        invariant
            curve.wf(),
            c == curve,
            s == supply as nat,
            i <= n,
            raw == buy_sum(c, s, i as nat),
            buy_levels_fit(c, s, i as nat),
        decreases n - i,
    {
        let level = match supply.checked_add(i) {
            Some(v) => v,
            None => {
                assert(!buy_levels_fit(c, s, n as nat)) by {
                    let k = i as nat;
                    assert(k < n && !(s + k <= u64::MAX && power((s + k) as nat, c.pow as nat)
                        <= u64::MAX));
                }
                return Err(CurveError::Overflow);
            },
        };
        let p = match unit_price(curve, level) {
            Ok(v) => v,
            Err(e) => {
                assert(!(s + i <= u64::MAX && power((s + i) as nat, c.pow as nat) <= u64::MAX));
                return Err(e);
            },
        };
        assert(buy_levels_fit(c, s, (i + 1) as nat)) by {
            assert forall|k: nat| k < i + 1 implies s + k <= u64::MAX && #[trigger] power(
                (s + k) as nat,
                c.pow as nat,
            ) <= u64::MAX by {
                if k < i {
                    assert(s + k <= u64::MAX && power((s + k) as nat, c.pow as nat) <= u64::MAX);
                }
            }
        }
        raw = match raw.checked_add(p) {
            Some(v) => v,
            None => {
                proof {
                    lemma_buy_sum_grows(c, s, (i + 1) as nat, n as nat);
                    let t = buy_sum(c, s, n as nat);
                    assert(t * (LAMPORTS_PER_UNIT as nat) >= t) by (nonlinear_arith);
                }
                return Err(CurveError::Overflow);
            },
        };
        i = i + 1;
    }
    let q = match scale(raw, creator_fee, banger_fee) {
        Ok(q) => q,
        Err(e) => return Err(e),
    };
    let with_banger = match q.scaled.checked_add(q.banger_fee) {
        Some(v) => v,
        None => return Err(CurveError::Overflow),
    };
    match with_banger.checked_add(q.creator_fee) {
        Some(_) => Ok(q),
        None => Err(CurveError::Overflow),
    }
}

/// Quotes a sale of `n` units at supply `supply`: the sum of the prices of
/// levels `supply - 1` down to `supply - n`, scaled to lamports, with a fee at
/// each rate on the scaled sum. Selling more than the supply, and any other
/// overflow or underflow, is `Overflow`; a zero divisor is `InvalidCurve`.
pub fn quote_sell(curve: Curve, creator_fee: u16, banger_fee: u16, supply: u64, n: u64) -> (r: Result<Quote, CurveError>)
    ensures
        r == sell_quote(curve, creator_fee, banger_fee, supply, n),
        r is Ok ==> r->Ok_0.scaled == sell_sum(curve, supply as nat, n as nat) * LAMPORTS_PER_UNIT,
        r is Ok ==> r->Ok_0.banger_fee == r->Ok_0.scaled * banger_fee / 10_000,
        r is Ok ==> r->Ok_0.creator_fee == r->Ok_0.scaled * creator_fee / 10_000,
{
    if curve.frac == 0 {
        return Err(CurveError::InvalidCurve);
    }
    let ghost c = curve;
    let ghost s = supply as nat;
    let mut raw: u64 = 0;
    let mut i: u64 = 0;
    while i < n
        invariant
            curve.wf(),
            c == curve,
            s == supply as nat,
            i <= n,
            i <= s,
            raw == sell_sum(c, s, i as nat),
            forall|k: nat| 1 <= k <= i ==> #[trigger] power((s - k) as nat, c.pow as nat) <= u64::MAX,
        decreases n - i,
    {
        let level = match supply.checked_sub(i + 1) {
            Some(v) => v,
            None => return Err(CurveError::Overflow),
        };
        let p = match unit_price(curve, level) {
            Ok(v) => v,
            Err(e) => {
                assert(!(power((s - (i + 1)) as nat, c.pow as nat) <= u64::MAX));
                return Err(e);
            },
        };
        raw = match raw.checked_add(p) {
            Some(v) => v,
            None => {
                proof {
                    if sell_levels_fit(c, s, n as nat) {
                        lemma_sell_sum_grows(c, s, (i + 1) as nat, n as nat);
                        let t = sell_sum(c, s, n as nat);
                        assert(t * (LAMPORTS_PER_UNIT as nat) >= t) by (nonlinear_arith);
                    }
                }
                return Err(CurveError::Overflow);
            },
        };
        i = i + 1;
    }
    let q = match scale(raw, creator_fee, banger_fee) {
        Ok(q) => q,
        Err(e) => return Err(e),
    };
    let less_banger = match q.scaled.checked_sub(q.banger_fee) {
        Some(v) => v,
        None => return Err(CurveError::Overflow),
    };
    match less_banger.checked_sub(q.creator_fee) {
        Some(_) => Ok(q),
        None => Err(CurveError::Overflow),
    }
}

proof fn lemma_buy_sum_first(c: Curve, s: nat, n: nat)
    requires
        n > 0,
    ensures
        buy_sum(c, s, n) == price(c, s) + buy_sum(c, s + 1, (n - 1) as nat),
    decreases n,
{
    if n > 1 {
        lemma_buy_sum_first(c, s, (n - 1) as nat);
        assert(buy_sum(c, s + 1, (n - 1) as nat) == buy_sum(c, s + 1, (n - 2) as nat) + price(
            c,
            (s + n - 1) as nat,
        ));
    } else {
        assert(buy_sum(c, s, 1) == buy_sum(c, s, 0) + price(c, s));
    }
}

/// The refund for the top `n` levels below `t` is the cost of buying them.
pub proof fn sell_sum_is_buy_sum(c: Curve, t: nat, n: nat)
    requires
        n <= t,
    ensures
        sell_sum(c, t, n) == buy_sum(c, (t - n) as nat, n),
    decreases n,
{
    if n > 0 {
        sell_sum_is_buy_sum(c, t, (n - 1) as nat);
        lemma_buy_sum_first(c, (t - n) as nat, n);
    }
}

proof fn lemma_fees_within(scaled: nat, creator_rate: nat, banger_rate: nat)
    requires
        creator_rate + banger_rate <= 10_000,
    ensures
        fee_at(scaled, banger_rate) + fee_at(scaled, creator_rate) <= scaled,
{
    let a = scaled * banger_rate;
    let b = scaled * creator_rate;
    assert((a / 10_000) * 10_000 <= a) by (nonlinear_arith);
    assert((b / 10_000) * 10_000 <= b) by (nonlinear_arith);
    assert(a + b <= scaled * 10_000) by (nonlinear_arith)
        requires
            a == scaled * banger_rate,
            b == scaled * creator_rate,
            creator_rate + banger_rate <= 10_000,
    ;
}

/// Evaluating a quote twice on the same supply, quantity, curve and fee rates
/// gives the same result: a quote reads nothing else.
pub proof fn quote_is_deterministic(
    c1: Curve,
    c2: Curve,
    creator_rate: u16,
    banger_rate: u16,
    s: u64,
    n: u64,
)
    requires
        c1.pow == c2.pow,
        c1.frac == c2.frac,
    ensures
        buy_quote(c1, creator_rate, banger_rate, s, n) == buy_quote(c2, creator_rate, banger_rate, s, n),
        sell_quote(c1, creator_rate, banger_rate, s, n) == sell_quote(c2, creator_rate, banger_rate, s, n),
{
    assert(c1 == c2);
}

/// Quoting zero units succeeds with a zero quote, for a buy and for a sale.
pub proof fn zero_units_quote_nothing(c: Curve, creator_rate: u16, banger_rate: u16, s: u64)
    requires
        c.wf(),
    ensures
        buy_quote(c, creator_rate, banger_rate, s, 0) == Ok::<Quote, CurveError>(
            Quote { scaled: 0, banger_fee: 0, creator_fee: 0 },
        ),
        sell_quote(c, creator_rate, banger_rate, s, 0) == Ok::<Quote, CurveError>(
            Quote { scaled: 0, banger_fee: 0, creator_fee: 0 },
        ),
{
    assert(fee_at(0, banger_rate as nat) == 0);
    assert(fee_at(0, creator_rate as nat) == 0);
}

/// With a positive exponent the unit at supply zero costs nothing, and a
/// unit's price is positive exactly where `level ^ pow` reaches the divisor.
pub proof fn price_is_positive_from_divisor(c: Curve, level: nat)
    requires
        c.wf(),
    ensures
        c.pow > 0 ==> price(c, 0) == 0,
        price(c, level) > 0 <==> power(level, c.pow as nat) >= c.frac,
{
    lemma_power_zero_one(c.pow as nat);
    let p = power(level, c.pow as nat);
    let f = c.frac as nat;
    if p >= f {
        assert(p / f >= 1) by (nonlinear_arith)
            requires
                p >= f,
                f > 0,
        ;
    } else {
        assert(p / f == 0) by (nonlinear_arith)
            requires
                p < f,
                f > 0,
        ;
    }
}

/// Buying `n` units at supply `s` and then selling them back at `s + n`
/// prices the same levels: the sale succeeds with the same scaled sum and the
/// same fees, so without fees the round trip is exact, and with fees the
/// trader loses twice the fees.
pub proof fn buy_then_sell_round_trip(c: Curve, creator_rate: u16, banger_rate: u16, s: u64, n: u64)
    requires
        c.wf(),
        creator_rate + banger_rate <= 10_000,
        s + n <= u64::MAX,
        buy_quote(c, creator_rate, banger_rate, s, n) is Ok,
    ensures
        buy_sum(c, s as nat, n as nat) == sell_sum(c, (s + n) as nat, n as nat),
        sell_quote(c, creator_rate, banger_rate, (s + n) as u64, n) is Ok,
        ({
            let qb = buy_quote(c, creator_rate, banger_rate, s, n)->Ok_0;
            let qs = sell_quote(c, creator_rate, banger_rate, (s + n) as u64, n)->Ok_0;
            &&& qs == qb
            &&& qb.total_in() - qs.total_out() == 2 * (qb.banger_fee + qb.creator_fee)
        }),
{
    let t = (s + n) as nat;
    sell_sum_is_buy_sum(c, t, n as nat);
    assert(sell_levels_fit(c, t, n as nat)) by {
        assert forall|k: nat| 1 <= k <= n implies #[trigger] power((t - k) as nat, c.pow as nat)
            <= u64::MAX by {
            let j = (n - k) as nat;
            assert(j < n && s + j <= u64::MAX && power((s + j) as nat, c.pow as nat) <= u64::MAX);
        }
    }
    let raw = buy_sum(c, s as nat, n as nat);
    let scaled = raw * (LAMPORTS_PER_UNIT as nat);
    lemma_fees_within(scaled, creator_rate as nat, banger_rate as nat);
}

} // verus!
