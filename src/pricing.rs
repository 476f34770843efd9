use vstd::prelude::*;
use vstd::arithmetic::div_mod::{
    lemma_div_is_ordered, lemma_div_is_ordered_by_denominator, lemma_div_multiples_vanish,
    lemma_div_pos_is_pos, lemma_fundamental_div_mod,
};
use crate::error::SwapError;

verus! {

/// The constant-product trade for given reserves and input.
#[derive(Clone, Copy, Debug, PartialEq, Eq)]
pub struct SwapQuote {
    /// `reserve_in * reserve_out` before the trade.
    pub constant_product: u128,
    /// The input reserve after the trade.
    pub new_reserve_in: u128,
    /// The output reserve after the trade, rounded down.
    pub new_reserve_out: u128,
    /// What the trader receives: the drop of the output reserve.
    pub amount_out: u64,
}

/// The output reserve after `amount_in` is added: the product divided by the
/// new input reserve, rounded down.
pub open spec fn new_reserve_out_of(reserve_in: int, reserve_out: int, amount_in: int) -> int {
    (reserve_in * reserve_out) / (reserve_in + amount_in)
}

/// What a trade of `amount_in` pays out against the given reserves.
pub open spec fn amount_out_of(reserve_in: int, reserve_out: int, amount_in: int) -> int {
    reserve_out - new_reserve_out_of(reserve_in, reserve_out, amount_in)
}

/// The outcome of pricing a trade: an empty pool and a zero input are
/// refused, in that order; otherwise the constant-product quote.
pub open spec fn quote_result(reserve_in: u64, reserve_out: u64, amount_in: u64) -> Result<
    SwapQuote,
    SwapError,
> {
    if reserve_in == 0 || reserve_out == 0 {
        Err(SwapError::PoolIsEmpty)
    } else if amount_in == 0 {
        Err(SwapError::ZeroAmount)
    } else {
        Ok(
            SwapQuote {
                constant_product: (reserve_in * reserve_out) as u128,
                new_reserve_in: (reserve_in + amount_in) as u128,
                new_reserve_out: new_reserve_out_of(
                    reserve_in as int,
                    reserve_out as int,
                    amount_in as int,
                ) as u128,
                amount_out: amount_out_of(
                    reserve_in as int,
                    reserve_out as int,
                    amount_in as int,
                ) as u64,
            },
        )
    }
}

proof fn lemma_new_reserve_out_bounds(reserve_in: int, reserve_out: int, amount_in: int)
    requires
        reserve_in > 0,
        reserve_out > 0,
        amount_in >= 0,
    ensures
        0 <= new_reserve_out_of(reserve_in, reserve_out, amount_in) <= reserve_out,
{
    let n = reserve_in + amount_in;
    let k = reserve_in * reserve_out;
    assert(k >= 0) by (nonlinear_arith)
        requires
            reserve_in > 0,
            reserve_out > 0,
            k == reserve_in * reserve_out,
    ;
    assert(k <= n * reserve_out) by (nonlinear_arith)
        requires
            n >= reserve_in,
            reserve_out > 0,
            k == reserve_in * reserve_out,
    ;
    lemma_div_pos_is_pos(k, n);
    lemma_div_is_ordered(k, n * reserve_out, n);
    lemma_div_multiples_vanish(reserve_out, n);
}

/// Prices a trade of `amount_in` against the reserves `reserve_in` and
/// `reserve_out` with the constant-product rule, in 128-bit arithmetic.
pub fn quote_swap(reserve_in: u64, reserve_out: u64, amount_in: u64) -> (r: Result<
    SwapQuote,
    SwapError,
>)
    ensures
        r == quote_result(reserve_in, reserve_out, amount_in),
{
    if reserve_in == 0 || reserve_out == 0 {
        return Err(SwapError::PoolIsEmpty);
    }
    if amount_in == 0 {
        return Err(SwapError::ZeroAmount);
    }
    let reserve_in_wide = reserve_in as u128;
    let reserve_out_wide = reserve_out as u128;
    let amount_in_wide = amount_in as u128;
    proof {
        assert(reserve_in as int * reserve_out as int <= u64::MAX as int * u64::MAX as int)
            by (nonlinear_arith)
            requires
                reserve_in <= u64::MAX,
                reserve_out <= u64::MAX,
        ;
        lemma_new_reserve_out_bounds(reserve_in as int, reserve_out as int, amount_in as int);
    }
    let constant_product = match reserve_in_wide.checked_mul(reserve_out_wide) {
        Some(k) => k,
        None => return Err(SwapError::CalculationOverflow),
    };
    let new_reserve_in = match reserve_in_wide.checked_add(amount_in_wide) {
        Some(n) => n,
        None => return Err(SwapError::CalculationOverflow),
    };
    let new_reserve_out = match constant_product.checked_div(new_reserve_in) {
        Some(q) => q,
        None => return Err(SwapError::CalculationOverflow),
    };
    let amount_out_wide = match reserve_out_wide.checked_sub(new_reserve_out) {
        Some(d) => d,
        None => return Err(SwapError::CalculationOverflow),
    };
    Ok(
        SwapQuote {
            constant_product,
            new_reserve_in,
            new_reserve_out,
            amount_out: amount_out_wide as u64,
        },
    )
}

/// The product of the reserves never grows by a trade: the reserves after it
/// multiply to at most the constant product, and to exactly it only where the
/// division left no remainder.
pub proof fn lemma_product_never_grows(reserve_in: u64, reserve_out: u64, amount_in: u64)
    requires
        reserve_in > 0,
        reserve_out > 0,
        amount_in > 0,
    ensures
        quote_result(reserve_in, reserve_out, amount_in) is Ok,
        ({
            let q = quote_result(reserve_in, reserve_out, amount_in)->Ok_0;
            &&& q.new_reserve_in as int * q.new_reserve_out as int <= q.constant_product as int
            &&& (q.new_reserve_in as int * q.new_reserve_out as int == q.constant_product as int
                <==> (reserve_in as int * reserve_out as int) % (reserve_in as int
                + amount_in as int) == 0)
        }),
{
    let n = reserve_in as int + amount_in as int;
    let k = reserve_in as int * reserve_out as int;
    assert(0 <= k <= u64::MAX as int * u64::MAX as int) by (nonlinear_arith)
        requires
            0 < reserve_in <= u64::MAX,
            0 < reserve_out <= u64::MAX,
            k == reserve_in as int * reserve_out as int,
    ;
    lemma_new_reserve_out_bounds(reserve_in as int, reserve_out as int, amount_in as int);
    lemma_fundamental_div_mod(k, n);
    assert(0 <= k % n < n);
}

/// A larger input never pays out less, for fixed reserves.
pub proof fn lemma_amount_out_monotone(reserve_in: u64, reserve_out: u64, a1: u64, a2: u64)
    requires
        reserve_in > 0,
        reserve_out > 0,
        0 < a1 <= a2,
    ensures
        quote_result(reserve_in, reserve_out, a1) is Ok,
        quote_result(reserve_in, reserve_out, a2) is Ok,
        quote_result(reserve_in, reserve_out, a1)->Ok_0.amount_out <= quote_result(
            reserve_in,
            reserve_out,
            a2,
        )->Ok_0.amount_out,
{
    let k = reserve_in as int * reserve_out as int;
    assert(k >= 0) by (nonlinear_arith)
        requires
            reserve_in > 0,
            reserve_out > 0,
            k == reserve_in as int * reserve_out as int,
    ;
    lemma_new_reserve_out_bounds(reserve_in as int, reserve_out as int, a1 as int);
    lemma_new_reserve_out_bounds(reserve_in as int, reserve_out as int, a2 as int);
    lemma_div_is_ordered_by_denominator(k, reserve_in as int + a1 as int, reserve_in as int + a2 as int);
}

/// A larger input pays out strictly more, for fixed reserves, wherever the
/// exact (unrounded) outputs differ by at least one unit, that is where
/// `k * (a2 - a1) >= (reserve_in + a1) * (reserve_in + a2)`.
pub proof fn lemma_amount_out_strictly_increasing(
    reserve_in: u64,
    reserve_out: u64,
    a1: u64,
    a2: u64,
)
    requires
        reserve_in > 0,
        reserve_out > 0,
        0 < a1 < a2,
        (reserve_in as int * reserve_out as int) * (a2 - a1) >= (reserve_in as int + a1 as int) * (
        reserve_in as int + a2 as int),
    ensures
        quote_result(reserve_in, reserve_out, a1) is Ok,
        quote_result(reserve_in, reserve_out, a2) is Ok,
        quote_result(reserve_in, reserve_out, a1)->Ok_0.amount_out < quote_result(
            reserve_in,
            reserve_out,
            a2,
        )->Ok_0.amount_out,
{
    let k = reserve_in as int * reserve_out as int;
    let n1 = reserve_in as int + a1 as int;
    let n2 = reserve_in as int + a2 as int;
    lemma_new_reserve_out_bounds(reserve_in as int, reserve_out as int, a1 as int);
    lemma_new_reserve_out_bounds(reserve_in as int, reserve_out as int, a2 as int);
    lemma_fundamental_div_mod(k, n1);
    lemma_fundamental_div_mod(k, n2);
    let q1 = k / n1;
    let q2 = k / n2;
    let r1 = k % n1;
    let r2 = k % n2;
    assert(0 <= r1 < n1);
    assert(0 <= r2 < n2);
    assert(q1 > q2) by (nonlinear_arith)
        requires
            k == n1 * q1 + r1,
            k == n2 * q2 + r2,
            0 <= r1 < n1,
            0 <= r2 < n2,
            0 < n1 < n2,
            k * (n2 - n1) >= n1 * n2,
    ;
}

/// A trade never takes the whole output reserve while the product is at
/// least the new input reserve, so that the rounded new output reserve stays
/// positive.
pub proof fn lemma_pool_never_drained(reserve_in: u64, reserve_out: u64, amount_in: u64)
    requires
        reserve_in > 0,
        reserve_out > 0,
        amount_in > 0,
        reserve_in as int * reserve_out as int >= reserve_in as int + amount_in as int,
    ensures
        quote_result(reserve_in, reserve_out, amount_in) is Ok,
        quote_result(reserve_in, reserve_out, amount_in)->Ok_0.amount_out < reserve_out,
{
    let k = reserve_in as int * reserve_out as int;
    let n = reserve_in as int + amount_in as int;
    lemma_new_reserve_out_bounds(reserve_in as int, reserve_out as int, amount_in as int);
    lemma_div_is_ordered(n, k, n);
    lemma_div_multiples_vanish(1, n);
    assert(n * 1 == n);
}

} // verus!
