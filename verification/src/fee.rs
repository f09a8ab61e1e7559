//! Gas buffering and fee computation in exact fixed-point arithmetic.

use vstd::prelude::*;
use vstd::string::StringSliceAdditionalSpecFns;
use crate::text::{decimal_value, digits_end, read_digits};

verus! {

/// Number of `Decimal` units in one whole.
pub const DECIMAL_UNIT: u64 = 1_000_000;

/// `DECIMAL_UNIT` squared: the scale of a product of two decimals.
pub const FEE_SCALE: u128 = 1_000_000_000_000;

/// Gas estimates below this value get the larger safety margin.
pub const BUFFER_THRESHOLD: u64 = 200_000;

/// Safety factor 1.3 applied to ordinary gas estimates.
pub const GAS_BUFFER: u64 = 1_300_000;

/// Safety factor 1.4 applied to gas estimates below `BUFFER_THRESHOLD`.
pub const SMALL_GAS_BUFFER: u64 = 1_400_000;

/// The amount 0.00001 that is added to the gas price before the fee is taken.
pub const FEE_EPSILON: u64 = 10;

/// A non-negative decimal number with six fractional digits.
#[derive(Clone, Copy, Debug, PartialEq, Eq, Structural)]
pub struct Decimal {
    /// The number, counted in millionths.
    pub micros: u64,
}

/// What a digit of the fraction counts in millionths, for a fraction of so
/// many digits.
pub open spec fn fraction_scale(digits: int) -> int {
    if digits == 1 {
        100_000
    } else if digits == 2 {
        10_000
    } else if digits == 3 {
        1_000
    } else if digits == 4 {
        100
    } else if digits == 5 {
        10
    } else {
        1
    }
}

/// The decimal that a text writes, in millionths: digits, and after a point
/// one to six digits more. `None` for any other text, a finer fraction
/// among them, and for a number beyond 64 bits of millionths. Nothing is
/// rounded.
pub open spec fn decimal_of(text: Seq<u8>) -> Option<u64> {
    let dot = digits_end(text, 0);
    if dot <= 0 || dot > text.len() {
        None
    } else {
        let whole = decimal_value(text.subrange(0, dot)) * 1_000_000;
        if dot == text.len() {
            if whole <= u64::MAX {
                Some(whole as u64)
            } else {
                None
            }
        } else if text[dot] != 46 {
            None
        } else {
            let end = digits_end(text, dot + 1);
            let digits = end - (dot + 1);
            let micros = whole + decimal_value(text.subrange(dot + 1, end)) * fraction_scale(
                digits,
            );
            if end == text.len() && 1 <= digits <= 6 && micros <= u64::MAX {
                Some(micros as u64)
            } else {
                None
            }
        }
    }
}

impl Decimal {
    /// The decimal that is `micros` millionths.
    pub fn from_micros(micros: u64) -> (d: Decimal)
        ensures
            d.micros == micros,
    {
        Decimal { micros }
    }

    /// Reads a decimal from its text, exactly: a text that writes a finer
    /// fraction than millionths is refused, not rounded.
    pub fn parse(text: &str) -> (d: Option<Decimal>)
        ensures
            match d {
                Some(d) => decimal_of(text.spec_bytes()) == Some(d.micros),
                None => decimal_of(text.spec_bytes()).is_none(),
            },
    {
        let bytes = text.as_bytes();
        let (dot, whole) = read_digits(bytes, 0);
        if dot == 0 {
            return None;
        }
        let whole: u128 = match whole {
            Some(whole) => whole,
            None => {
                return None;
            },
        };
        if whole > 18_446_744_073_709 {
            return None;
        }
        let scaled: u128 = whole * 1_000_000;
        if dot == bytes.len() {
            return Some(Decimal { micros: scaled as u64 });
        }
        if bytes[dot] != 46 {
            return None;
        }
        let (end, fraction) = read_digits(bytes, dot + 1);
        let digits: usize = end - (dot + 1);
        if end != bytes.len() || digits < 1 || digits > 6 {
            return None;
        }
        let scale: u128 = if digits == 1 {
            100_000
        } else if digits == 2 {
            10_000
        } else if digits == 3 {
            1_000
        } else if digits == 4 {
            100
        } else if digits == 5 {
            10
        } else {
            1
        };
        let fraction: u128 = match fraction {
            Some(fraction) => fraction,
            None => {
                assert(decimal_value(bytes@.subrange(dot + 1, end as int)) * fraction_scale(
                    digits as int,
                ) > u64::MAX) by (nonlinear_arith)
                    requires
                        decimal_value(bytes@.subrange(dot + 1, end as int)) > u128::MAX,
                        fraction_scale(digits as int) >= 1,
                ;
                return None;
            },
        };
        let part: u128 = match fraction.checked_mul(scale) {
            Some(part) => part,
            None => {
                return None;
            },
        };
        if part > u64::MAX as u128 {
            return None;
        }
        let micros: u128 = part + scaled;
        if micros > u64::MAX as u128 {
            return None;
        }
        Some(Decimal { micros: micros as u64 })
    }
}

/// The safety factor for a gas estimate, in millionths: the configured
/// factor if there is one, else 1.4 below the threshold and 1.3 from it on.
pub open spec fn buffer_factor(gas: u64, gas_buffer: Option<Decimal>) -> int {
    match gas_buffer {
        Some(d) => d.micros as int,
        None => if gas < BUFFER_THRESHOLD {
            SMALL_GAS_BUFFER as int
        } else {
            GAS_BUFFER as int
        },
    }
}

/// The buffered gas before truncation, in millionths of a gas unit: the
/// larger of the floor and the estimate times its safety factor.
pub open spec fn buffered_gas(gas: u64, gas_buffer: Option<Decimal>, min_gas: u64) -> int {
    let scaled = gas as int * buffer_factor(gas, gas_buffer);
    let floor = min_gas as int * DECIMAL_UNIT as int;
    if scaled >= floor {
        scaled
    } else {
        floor
    }
}

/// The gas limit: the buffered gas truncated to whole units, at most `u64::MAX`.
pub open spec fn gas_limit_of(gas: u64, gas_buffer: Option<Decimal>, min_gas: u64) -> int {
    let whole = buffered_gas(gas, gas_buffer, min_gas) / (DECIMAL_UNIT as int);
    if whole <= u64::MAX as int {
        whole
    } else {
        u64::MAX as int
    }
}

/// The untruncated product of buffered gas and (price + epsilon), scaled by
/// `FEE_SCALE`.
pub open spec fn fee_numerator(
    gas: u64,
    gas_buffer: Option<Decimal>,
    min_gas: u64,
    gas_price: Decimal,
) -> int {
    buffered_gas(gas, gas_buffer, min_gas) * (gas_price.micros as int + FEE_EPSILON as int)
}

/// The fee: buffered gas times (price + epsilon), truncated once at the end,
/// at most `u128::MAX`.
pub open spec fn fee_amount_of(
    gas: u64,
    gas_buffer: Option<Decimal>,
    min_gas: u64,
    gas_price: Decimal,
) -> int {
    let whole = fee_numerator(gas, gas_buffer, min_gas, gas_price) / (FEE_SCALE as int);
    if whole <= u128::MAX as int {
        whole
    } else {
        u128::MAX as int
    }
}

/// `n * q / m` where the quotient fits; `u128::MAX` where it does not.
pub open spec fn mul_div_capped(n: int, q: int, m: int) -> int {
    let whole = n * q / m;
    if whole <= u128::MAX as int {
        whole
    } else {
        u128::MAX as int
    }
}

proof fn lemma_split_quotient(n: int, q: int, m: int)
    requires
        0 <= n,
        0 <= q,
        0 < m,
    ensures
        n * q / m == (n / m) * q + ((n % m) * q) / m,
        0 <= (n / m) * q,
        0 <= ((n % m) * q) / m,
{
    let a = n / m;
    let r = n % m;
    let t = (r * q) / m;
    let s = (r * q) % m;
    vstd::arithmetic::div_mod::lemma_fundamental_div_mod(n, m);
    vstd::arithmetic::div_mod::lemma_fundamental_div_mod(r * q, m);
    vstd::arithmetic::div_mod::lemma_mod_bound(r * q, m);
    vstd::arithmetic::div_mod::lemma_mod_bound(n, m);
    vstd::arithmetic::div_mod::lemma_div_pos_is_pos(n, m);
    assert(0 <= r * q) by (nonlinear_arith)
        requires
            0 <= r,
            0 <= q,
    ;
    vstd::arithmetic::div_mod::lemma_div_pos_is_pos(r * q, m);
    assert(0 <= a * q) by (nonlinear_arith)
        requires
            0 <= a,
            0 <= q,
    ;
    assert(n * q == (a * q + t) * m + s) by (nonlinear_arith)
        requires
            n == m * a + r,
            r * q == m * t + s,
    ;
    vstd::arithmetic::div_mod::lemma_fundamental_div_mod_converse(n * q, m, a * q + t, s);
}

/// Computes `n * q / m` without an intermediate overflow, capped at `u128::MAX`.
fn mul_div(n: u128, q: u128, m: u128) -> (r: u128)
    requires
        0 < m <= 0x100_0000_0000,
        q <= 0x1_0000_0000_0000_0000_0000,
    ensures
        r == mul_div_capped(n as int, q as int, m as int),
{
    let a: u128 = n / m;
    let rem: u128 = n % m;
    proof {
        lemma_split_quotient(n as int, q as int, m as int);
        assert(rem * q <= 0x100_0000_0000 * 0x1_0000_0000_0000_0000_0000) by (nonlinear_arith)
            requires
                rem <= 0x100_0000_0000,
                q <= 0x1_0000_0000_0000_0000_0000,
        ;
    }
    let low: u128 = rem * q / m;
    match a.checked_mul(q) {
        Some(high) => match high.checked_add(low) {
            Some(total) => total,
            None => u128::MAX,
        },
        None => u128::MAX,
    }
}

/// The gas limit and the fee for a gas estimate: the estimate is multiplied
/// by its safety factor, raised to the floor `min_gas`, and priced at
/// `gas_price` plus `FEE_EPSILON`. Both results are truncated only at the end.
pub fn fee_from_gas(gas: u64, gas_buffer: Option<Decimal>, min_gas: u64, gas_price: Decimal) -> (r:
    (u64, u128))
    ensures
        r.0 == gas_limit_of(gas, gas_buffer, min_gas),
        r.1 == fee_amount_of(gas, gas_buffer, min_gas, gas_price),
{
    let factor: u64 = match gas_buffer {
        Some(d) => d.micros,
        None => if gas < BUFFER_THRESHOLD {
            SMALL_GAS_BUFFER
        } else {
            GAS_BUFFER
        },
    };
    assert(gas * factor <= 0xffff_ffff_ffff_ffff * 0xffff_ffff_ffff_ffff) by (nonlinear_arith)
        requires
            gas <= 0xffff_ffff_ffff_ffff,
            factor <= 0xffff_ffff_ffff_ffff,
    ;
    let scaled: u128 = (gas as u128) * (factor as u128);
    assert(min_gas * DECIMAL_UNIT <= 0xffff_ffff_ffff_ffff * 1_000_000) by (nonlinear_arith)
        requires
            min_gas <= 0xffff_ffff_ffff_ffff,
            DECIMAL_UNIT == 1_000_000,
    ;
    let floor: u128 = (min_gas as u128) * (DECIMAL_UNIT as u128);
    let buffered: u128 = if scaled >= floor {
        scaled
    } else {
        floor
    };
    let whole: u128 = buffered / (DECIMAL_UNIT as u128);
    let gas_limit: u64 = if whole <= u64::MAX as u128 {
        whole as u64
    } else {
        u64::MAX
    };
    let price: u128 = gas_price.micros as u128 + FEE_EPSILON as u128;
    let fee: u128 = mul_div(buffered, price, FEE_SCALE);
    (gas_limit, fee)
}

proof fn lemma_tenths(g: int, k: int)
    requires
        0 <= g,
        0 <= k,
    ensures
        g * (k * 100_000) / 1_000_000 == g * k / 10,
{
    let x = g * k;
    vstd::arithmetic::div_mod::lemma_fundamental_div_mod(x, 10);
    vstd::arithmetic::div_mod::lemma_mod_bound(x, 10);
    assert(g * (k * 100_000) == (x / 10) * 1_000_000 + (x % 10) * 100_000) by (nonlinear_arith)
        requires
            x == g * k,
            x == 10 * (x / 10) + x % 10,
    ;
    vstd::arithmetic::div_mod::lemma_fundamental_div_mod_converse(
        g * (k * 100_000),
        1_000_000,
        x / 10,
        (x % 10) * 100_000,
    );
}

/// Below the threshold and without a configured factor, the gas limit is the
/// larger of the floor and 1.4 times the estimate, rounded down.
pub proof fn lemma_small_estimate_gas_limit(gas: u64, min_gas: u64)
    requires
        gas < BUFFER_THRESHOLD,
    ensures
        gas_limit_of(gas, None, min_gas) == vstd::math::max(min_gas as int, gas as int * 14 / 10),
{
    lemma_tenths(gas as int, 14);
}

/// From the threshold on and without a configured factor, the gas limit is the
/// larger of the floor and 1.3 times the estimate, rounded down, as long as
/// that fits in 64 bits; beyond that it is `u64::MAX`.
pub proof fn lemma_large_estimate_gas_limit(gas: u64, min_gas: u64)
    requires
        gas >= BUFFER_THRESHOLD,
    ensures
        gas as int * 13 / 10 <= u64::MAX ==> gas_limit_of(gas, None, min_gas) == vstd::math::max(
            min_gas as int,
            gas as int * 13 / 10,
        ),
        gas as int * 13 / 10 > u64::MAX ==> gas_limit_of(gas, None, min_gas) == u64::MAX,
{
    lemma_tenths(gas as int, 13);
}

/// The gas limit is never below the configured floor.
pub proof fn lemma_gas_limit_at_least_floor(gas: u64, gas_buffer: Option<Decimal>, min_gas: u64)
    ensures
        gas_limit_of(gas, gas_buffer, min_gas) >= min_gas,
{
    assert(0 <= gas as int * buffer_factor(gas, gas_buffer)) by (nonlinear_arith)
        requires
            0 <= gas as int,
            0 <= buffer_factor(gas, gas_buffer),
    ;
}

proof fn lemma_priced_limit(b: int, limit: int, rate: int, q: int)
    requires
        0 <= limit <= 0xffff_ffff_ffff_ffff,
        limit * 1_000_000 <= b,
        0 <= rate <= q <= 0x1_0000_0000_0000_0009,
    ensures
        limit * rate / 1_000_000 <= b * q / 1_000_000_000_000,
        limit * rate / 1_000_000 <= u128::MAX,
{
    let unit = 1_000_000int;
    let x = limit * rate;
    let bound: int = 0xffff_ffff_ffff_ffffint * 0x1_0000_0000_0000_0009int;
    assert(0 <= x <= bound) by (nonlinear_arith)
        requires
            x == limit * rate,
            0 <= limit <= 0xffff_ffff_ffff_ffff,
            0 <= rate <= 0x1_0000_0000_0000_0009,
            bound == 0xffff_ffff_ffff_ffff * 0x1_0000_0000_0000_0009,
    ;
    vstd::arithmetic::div_mod::lemma_div_is_ordered(x, bound, unit);
    assert(x * unit <= b * rate) by (nonlinear_arith)
        requires
            x == limit * rate,
            limit * unit <= b,
            0 <= rate,
    ;
    assert(b * rate <= b * q) by (nonlinear_arith)
        requires
            0 <= limit * unit <= b,
            rate <= q,
    ;
    vstd::arithmetic::div_mod::lemma_div_is_ordered(x * unit, b * q, unit * unit);
    vstd::arithmetic::div_mod::lemma_fundamental_div_mod(x, unit);
    vstd::arithmetic::div_mod::lemma_mod_bound(x, unit);
    assert(x * unit == (x / unit) * (unit * unit) + (x % unit) * unit) by (nonlinear_arith)
        requires
            x == unit * (x / unit) + x % unit,
    ;
    vstd::arithmetic::div_mod::lemma_fundamental_div_mod_converse(
        x * unit,
        unit * unit,
        x / unit,
        (x % unit) * unit,
    );
}

/// The fee is taken from the gas before it is rounded down, at the price
/// plus epsilon. So it covers the gas limit at the price plus epsilon, the
/// gas limit at the plain price, and the unrounded gas at the plain price,
/// each rounded down.
pub proof fn lemma_fee_covers_gas_price(
    gas: u64,
    gas_buffer: Option<Decimal>,
    min_gas: u64,
    gas_price: Decimal,
)
    ensures
        fee_amount_of(gas, gas_buffer, min_gas, gas_price) >= gas_limit_of(gas, gas_buffer, min_gas)
            * (gas_price.micros + FEE_EPSILON) / (DECIMAL_UNIT as int),
        fee_amount_of(gas, gas_buffer, min_gas, gas_price) >= gas_limit_of(gas, gas_buffer, min_gas)
            * (gas_price.micros as int) / (DECIMAL_UNIT as int),
        fee_amount_of(gas, gas_buffer, min_gas, gas_price) >= mul_div_capped(
            buffered_gas(gas, gas_buffer, min_gas),
            gas_price.micros as int,
            FEE_SCALE as int,
        ),
{
    let b = buffered_gas(gas, gas_buffer, min_gas);
    let p = gas_price.micros as int;
    let q = p + FEE_EPSILON as int;
    let limit = gas_limit_of(gas, gas_buffer, min_gas);
    assert(0 <= gas as int * buffer_factor(gas, gas_buffer)) by (nonlinear_arith)
        requires
            0 <= gas as int,
            0 <= buffer_factor(gas, gas_buffer),
    ;
    assert(0 <= limit * 1_000_000 <= b);
    lemma_priced_limit(b, limit, q, q);
    lemma_priced_limit(b, limit, p, q);
    assert(b * p <= b * q) by (nonlinear_arith)
        requires
            0 <= b,
            p <= q,
    ;
    vstd::arithmetic::div_mod::lemma_div_is_ordered(b * p, b * q, 1_000_000_000_000);
}

} // verus!
