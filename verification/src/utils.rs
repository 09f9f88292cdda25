//! Decimal scaling and the constant-product pricing curve.
//!
//! Balances are 128-bit unsigned integers. Every exec function here computes
//! the exact mathematical value named in its contract; where that value may
//! not fit in 128 bits there is a `checked_` variant that reports it.

use vstd::arithmetic::div_mod::{
    lemma_basic_div,
    lemma_div_is_ordered,
    lemma_div_is_ordered_by_denominator,
    lemma_div_multiples_vanish,
    lemma_div_non_zero,
    lemma_div_pos_is_pos,
    lemma_fundamental_div_mod,
    lemma_mod_pos_bound,
};
use vstd::prelude::*;

verus! {

/// Ten raised to the power `n`.
pub open spec fn pow10(n: nat) -> nat
    decreases n,
{
    if n == 0 {
        1
    } else {
        10 * pow10((n - 1) as nat)
    }
}

/// `value` expressed with `decimals` more decimal places.
pub open spec fn scale_up(value: nat, decimals: nat) -> nat {
    value * pow10(decimals)
}

/// `value` expressed with `decimals` fewer decimal places, rounded down.
pub open spec fn scale_down(value: nat, decimals: nat) -> nat {
    value / pow10(decimals)
}

/// What the curve `x * y = k` pays out when `dx` is added to the reserve `x`:
/// the pool keeps `k / (x + dx)` of `y`, rounded down, and pays the rest.
pub open spec fn curve_output(x: nat, y: nat, dx: nat) -> nat
    recommends
        x + dx > 0,
{
    (y - (x * y) / (x + dx)) as nat
}

/// The ratio `a / b` with `decimals` decimal places, truncated.
pub open spec fn ratio_of(a: nat, b: nat, decimals: nat) -> nat
    recommends
        b > 0,
{
    (scale_up(a, decimals + 1) / b) / 10
}

/// Whether `calc_dy` can be evaluated on these inputs in 128-bit arithmetic.
pub open spec fn curve_defined(x: u128, y: u128, amount: u128) -> bool {
    &&& x + amount > 0
    &&& x + amount <= u128::MAX
    &&& x * y <= u128::MAX
}

/// The larger of the two decimal counts: the scale at which two assets are
/// compared.
pub open spec fn common_decimals(a: u8, b: u8) -> u8 {
    if a >= b {
        a
    } else {
        b
    }
}

/// What a trade pays, in units of the bought asset, for `amount` units of the
/// sold asset: the reserves `x` of the sold and `y` of the bought asset and
/// the amount are brought to the common scale, the curve gives the output at
/// that scale, and the output is brought back to the scale of the bought
/// asset, rounded down. `None` where a scaled value, the sold reserve after
/// the trade or the product of the reserves does not fit in 128 bits, or
/// where the sold reserve after the trade is empty.
pub open spec fn swap_output(
    x: u128,
    y: u128,
    sold_decimals: u8,
    bought_decimals: u8,
    amount: u128,
) -> Option<u128> {
    let common = common_decimals(sold_decimals, bought_decimals);
    let sold_extra = (common - sold_decimals) as nat;
    let bought_extra = (common - bought_decimals) as nat;
    let sx = scale_up(x as nat, sold_extra);
    let sy = scale_up(y as nat, bought_extra);
    let sdx = scale_up(amount as nat, sold_extra);
    if sx > u128::MAX || sy > u128::MAX || sdx > u128::MAX {
        None
    } else if !curve_defined(sx as u128, sy as u128, sdx as u128) {
        None
    } else {
        Some(scale_down(curve_output(sx, sy, sdx), bought_extra) as u128)
    }
}

pub proof fn lemma_pow10_positive(n: nat)
    ensures
        pow10(n) >= 1,
    decreases n,
{
    if n > 0 {
        lemma_pow10_positive((n - 1) as nat);
    }
}

pub proof fn lemma_pow10_monotonic(m: nat, n: nat)
    requires
        m <= n,
    ensures
        pow10(m) <= pow10(n),
    decreases n,
{
    if m < n {
        lemma_pow10_monotonic(m, (n - 1) as nat);
    }
}

/// Cutting decimal places off never makes a value larger.
pub proof fn lemma_scale_down_bounded(value: nat, decimals: nat)
    ensures
        scale_down(value, decimals) <= value,
{
    lemma_pow10_positive(decimals);
    lemma_div_is_ordered_by_denominator(value as int, 1, pow10(decimals) as int);
}

/// The quotient kept by the pool never exceeds the reserve it is taken from.
pub proof fn lemma_curve_quotient_bounded(x: nat, y: nat, dx: nat)
    requires
        x + dx > 0,
    ensures
        (x * y) / (x + dx) <= y,
{
    let d = (x + dx) as int;
    assert(x * y <= d * y) by (nonlinear_arith)
        requires
            x <= d,
            0 <= y,
    ;
    lemma_div_is_ordered((x * y) as int, d * y, d);
    lemma_div_multiples_vanish(y as int, d);
}

/// The output of the curve never exceeds the reserve it is paid from.
pub proof fn lemma_curve_output_bounded(x: nat, y: nat, dx: nat)
    requires
        x + dx > 0,
    ensures
        curve_output(x, y, dx) <= y,
        curve_output(x, y, dx) == y - (x * y) / (x + dx),
{
    lemma_curve_quotient_bounded(x, y, dx);
    assert(0 <= x * y) by (nonlinear_arith);
    lemma_div_pos_is_pos((x * y) as int, (x + dx) as int);
}

/// A trade never raises the product of the reserves, and it lowers it by
/// less than the sold reserve after the trade.
pub proof fn lemma_curve_product_kept(x: nat, y: nat, dx: nat)
    requires
        x + dx > 0,
    ensures
        (x + dx) * (y - curve_output(x, y, dx)) <= x * y,
        x * y < (x + dx) * (y - curve_output(x, y, dx)) + (x + dx),
{
    lemma_curve_output_bounded(x, y, dx);
    let k = (x * y) as int;
    let d = (x + dx) as int;
    lemma_fundamental_div_mod(k, d);
    lemma_mod_pos_bound(k, d);
}

/// Selling more never buys less.
pub proof fn lemma_curve_output_monotonic(x: nat, y: nat, dx1: nat, dx2: nat)
    requires
        x + dx1 > 0,
        dx1 <= dx2,
    ensures
        curve_output(x, y, dx1) <= curve_output(x, y, dx2),
{
    assert(0 <= x * y) by (nonlinear_arith);
    lemma_div_is_ordered_by_denominator((x * y) as int, (x + dx1) as int, (x + dx2) as int);
    lemma_curve_output_bounded(x, y, dx1);
    lemma_curve_output_bounded(x, y, dx2);
}

/// One trade leaves part of the reserve behind exactly when the product of
/// the reserves is at least the sell reserve after the trade; below that the
/// truncated quotient is zero and the whole reserve is paid out.
pub proof fn lemma_curve_output_below_reserve(x: nat, y: nat, dx: nat)
    requires
        x + dx > 0,
    ensures
        curve_output(x, y, dx) < y <==> x * y >= x + dx,
{
    lemma_curve_output_bounded(x, y, dx);
    let k = (x * y) as int;
    let d = (x + dx) as int;
    assert(0 <= k) by (nonlinear_arith)
        requires
            k == x * y,
    ;
    if k >= d {
        lemma_div_non_zero(k, d);
    } else {
        lemma_basic_div(k, d);
    }
}

/// Ten to the power `decimals`, or `None` when it does not fit in 128 bits.
pub fn checked_pow10(decimals: u8) -> (r: Option<u128>)
    ensures
        match r {
            Some(p) => p == pow10(decimals as nat),
            None => pow10(decimals as nat) > u128::MAX,
        },
{
    let mut power: u128 = 1;
    let mut done: u8 = 0;
    while done < decimals
        invariant
            done <= decimals,
            power == pow10(done as nat),
        decreases decimals - done,
    {
        match power.checked_mul(10) {
            Some(next) => {
                power = next;
            },
            None => {
                proof {
                    lemma_pow10_monotonic((done + 1) as nat, decimals as nat);
                }
                return None;
            },
        }
        done += 1;
    }
    Some(power)
}

/// `value` with `decimals` more decimal places, or `None` when the scaled
/// value does not fit in 128 bits.
pub fn checked_add_decimals(value: u128, decimals: u8) -> (r: Option<u128>)
    ensures
        match r {
            Some(v) => v == scale_up(value as nat, decimals as nat),
            None => scale_up(value as nat, decimals as nat) > u128::MAX,
        },
{
    if value == 0 {
        assert(0 * pow10(decimals as nat) == 0) by (nonlinear_arith);
        return Some(0);
    }
    match checked_pow10(decimals) {
        Some(power) => value.checked_mul(power),
        None => {
            assert(value * pow10(decimals as nat) > u128::MAX) by (nonlinear_arith)
                requires
                    value >= 1,
                    pow10(decimals as nat) > u128::MAX,
            ;
            None
        },
    }
}

/// `value` with `decimals` more decimal places.
pub fn add_decimals(value: u128, decimals: u8) -> (r: u128)
    requires
        scale_up(value as nat, decimals as nat) <= u128::MAX,
    ensures
        r == scale_up(value as nat, decimals as nat),
{
    match checked_add_decimals(value, decimals) {
        Some(scaled) => scaled,
        None => 0,
    }
}

/// `value` with its last `decimals` decimal places cut off.
pub fn remove_decimals(value: u128, decimals: u8) -> (r: u128)
    ensures
        r == scale_down(value as nat, decimals as nat),
{
    match checked_pow10(decimals) {
        Some(power) => {
            proof {
                lemma_pow10_positive(decimals as nat);
            }
            value / power
        },
        None => {
            proof {
                lemma_basic_div(value as int, pow10(decimals as nat) as int);
            }
            0
        },
    }
}

/// The output of the curve, or `None` where `calc_dy` is not defined.
pub fn checked_calc_dy(x: u128, y: u128, amount: u128) -> (r: Option<u128>)
    ensures
        r is Some <==> curve_defined(x, y, amount),
        r is Some ==> r->Some_0 == curve_output(x as nat, y as nat, amount as nat),
{
    let product = match x.checked_mul(y) {
        Some(product) => product,
        None => {
            return None;
        },
    };
    let reserve = match x.checked_add(amount) {
        Some(reserve) => reserve,
        None => {
            return None;
        },
    };
    if reserve == 0 {
        return None;
    }
    proof {
        lemma_curve_output_bounded(x as nat, y as nat, amount as nat);
    }
    Some(y - product / reserve)
}

/// The amount of the bought asset that the pool pays for `amount` of the sold
/// asset, given its reserves `x` of the sold and `y` of the bought asset.
pub fn calc_dy(x: u128, y: u128, amount: u128) -> (r: u128)
    requires
        curve_defined(x, y, amount),
    ensures
        r == curve_output(x as nat, y as nat, amount as nat),
        r <= y,
{
    proof {
        lemma_curve_output_bounded(x as nat, y as nat, amount as nat);
    }
    y - x * y / (x + amount)
}

/// What a trade pays for `amount` of the sold asset, or `None` where it
/// cannot be computed in 128 bits.
pub fn checked_swap_output(
    x: u128,
    y: u128,
    sold_decimals: u8,
    bought_decimals: u8,
    amount: u128,
) -> (r: Option<u128>)
    ensures
        r == swap_output(x, y, sold_decimals, bought_decimals, amount),
{
    let common: u8 = if sold_decimals >= bought_decimals {
        sold_decimals
    } else {
        bought_decimals
    };
    let sx = match checked_add_decimals(x, common - sold_decimals) {
        Some(sx) => sx,
        None => {
            return None;
        },
    };
    let sy = match checked_add_decimals(y, common - bought_decimals) {
        Some(sy) => sy,
        None => {
            return None;
        },
    };
    let sdx = match checked_add_decimals(amount, common - sold_decimals) {
        Some(sdx) => sdx,
        None => {
            return None;
        },
    };
    match checked_calc_dy(sx, sy, sdx) {
        Some(dy) => {
            proof {
                lemma_scale_down_bounded(dy as nat, (common - bought_decimals) as nat);
            }
            Some(remove_decimals(dy, common - bought_decimals))
        },
        None => None,
    }
}

/// The ratio `a / b` with `decimals` decimal places, truncated, or `None`
/// where `calc_raito` is not defined.
pub fn checked_calc_ratio(a: u128, b: u128, decimals: u8) -> (r: Option<u128>)
    ensures
        r is Some <==> b > 0 && decimals < 255 && scale_up(a as nat, (decimals + 1) as nat)
            <= u128::MAX,
        r is Some ==> r->Some_0 == ratio_of(a as nat, b as nat, decimals as nat),
{
    if b == 0 || decimals == 255 {
        return None;
    }
    match checked_add_decimals(a, decimals + 1) {
        Some(scaled) => {
            proof {
                reveal_with_fuel(pow10, 2);
            }
            Some(remove_decimals(scaled / b, 1))
        },
        None => None,
    }
}

/// The ratio `a / b` with `decimals` decimal places, truncated.
pub fn calc_raito(a: u128, b: u128, decimals: u8) -> (r: u128)
    requires
        b > 0,
        decimals < 255,
        scale_up(a as nat, (decimals + 1) as nat) <= u128::MAX,
    ensures
        r == ratio_of(a as nat, b as nat, decimals as nat),
{
    proof {
        reveal_with_fuel(pow10, 2);
    }
    remove_decimals(add_decimals(a, decimals + 1) / b, 1)
}

} // verus!
