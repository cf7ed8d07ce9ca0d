//! Checked fixed-point arithmetic for the trade engine: powers of ten,
//! price normalization to the 6-decimal balance scale, and trade valuation.

use vstd::prelude::*;

use crate::competition::CompetitionError;
use crate::competition::PRICE_SCALE;

verus! {

/// Largest exponent for which 10^e fits in a `u128`.
pub const MAX_POW10_EXP: u32 = 38;

/// Mathematical power of ten.
pub open spec fn pow10(e: nat) -> nat
    decreases e,
{
    if e == 0 {
        1
    } else {
        10 * pow10((e - 1) as nat)
    }
}

/// Magnitude of a price exponent, as a mathematical integer.
pub open spec fn expo_abs(expo: i32) -> nat {
    if expo >= 0 {
        expo as nat
    } else {
        (-(expo as int)) as nat
    }
}

/// `price` rescaled to 6 decimals: `price * 10^6 / 10^|expo|`,
/// or nothing where either checked step overflows a `u128`.
pub open spec fn normalized_price(price: u128, expo: i32) -> Option<u128> {
    if price * PRICE_SCALE > u128::MAX {
        None
    } else if expo_abs(expo) > MAX_POW10_EXP {
        None
    } else {
        Some(((price * PRICE_SCALE) / pow10(expo_abs(expo)) as int) as u128)
    }
}

/// Value moved by a trade of `amount` at 6-decimal price `price_norm`:
/// `amount * price_norm / 10^6`, or nothing where the product overflows.
pub open spec fn spec_trade_value(amount: u64, price_norm: u128) -> Option<u128> {
    if amount * price_norm > u128::MAX {
        None
    } else {
        Some(((amount * price_norm) / PRICE_SCALE as int) as u128)
    }
}

pub proof fn lemma_pow10_positive(e: nat)
    ensures
        pow10(e) >= 1,
    decreases e,
{
    if e > 0 {
        lemma_pow10_positive((e - 1) as nat);
    }
}

pub proof fn lemma_pow10_increases(a: nat, b: nat)
    requires
        a <= b,
    ensures
        pow10(a) <= pow10(b),
    decreases b,
{
    if a < b {
        lemma_pow10_increases(a, (b - 1) as nat);
        lemma_pow10_positive((b - 1) as nat);
    }
}

pub proof fn lemma_pow10_max_fits()
    ensures
        pow10(MAX_POW10_EXP as nat) <= u128::MAX,
        pow10((MAX_POW10_EXP + 1) as nat) > u128::MAX,
{
    reveal_with_fuel(pow10, 40);
    assert(pow10(38) <= u128::MAX && pow10(39) > u128::MAX);
}

/// 10^e where it fits in a `u128`, mirroring a checked power: nothing
/// exactly on the exponents whose power of ten overflows.
pub fn pow10_checked(e: u32) -> (r: Option<u128>)
    ensures
        r == if e <= MAX_POW10_EXP {
            Some(pow10(e as nat) as u128)
        } else {
            None::<u128>
        },
        e <= MAX_POW10_EXP ==> pow10(e as nat) <= u128::MAX,
{
    if e > MAX_POW10_EXP {
        return None;
    }
    proof {
        lemma_pow10_max_fits();
    }
    let mut acc: u128 = 1;
    let mut i: u32 = 0;
    while i < e
        invariant
            i <= e <= MAX_POW10_EXP,
            acc == pow10(i as nat),
            pow10(MAX_POW10_EXP as nat) <= u128::MAX,
        decreases e - i,
    {
        proof {
            lemma_pow10_increases((i + 1) as nat, MAX_POW10_EXP as nat);
        }
        acc = acc * 10;
        i = i + 1;
    }
    proof {
        lemma_pow10_increases(e as nat, MAX_POW10_EXP as nat);
    }
    Some(acc)
}

/// Magnitude of a price exponent as a machine integer.
pub fn expo_magnitude(expo: i32) -> (r: u32)
    ensures
        r == expo_abs(expo),
{
    if expo >= 0 {
        expo as u32
    } else {
        (-(expo as i64)) as u32
    }
}

/// Rescale an oracle price to the 6-decimal balance scale with checked
/// multiply and divide; any overflow rejects the whole computation.
pub fn normalize_price(price: u128, expo: i32) -> (r: Result<u128, CompetitionError>)
    ensures
        r == match normalized_price(price, expo) {
            Some(v) => Ok::<u128, CompetitionError>(v),
            None => Err::<u128, CompetitionError>(CompetitionError::CalculationError),
        },
{
    let scaled = match price.checked_mul(PRICE_SCALE) {
        Some(s) => s,
        None => {
            return Err(CompetitionError::CalculationError);
        },
    };
    let divisor = match pow10_checked(expo_magnitude(expo)) {
        Some(d) => d,
        None => {
            return Err(CompetitionError::CalculationError);
        },
    };
    proof {
        lemma_pow10_positive(expo_abs(expo));
        lemma_pow10_increases(expo_abs(expo), MAX_POW10_EXP as nat);
        lemma_pow10_max_fits();
    }
    match scaled.checked_div(divisor) {
        Some(q) => Ok(q),
        None => Err(CompetitionError::CalculationError),
    }
}

/// Value moved by a trade, with checked multiply; the divide by the fixed
/// scale cannot fail.
pub fn trade_value(amount: u64, price_norm: u128) -> (r: Result<u128, CompetitionError>)
    ensures
        r == match spec_trade_value(amount, price_norm) {
            Some(v) => Ok::<u128, CompetitionError>(v),
            None => Err::<u128, CompetitionError>(CompetitionError::CalculationError),
        },
{
    let product = match (amount as u128).checked_mul(price_norm) {
        Some(p) => p,
        None => {
            return Err(CompetitionError::CalculationError);
        },
    };
    match product.checked_div(PRICE_SCALE) {
        Some(q) => Ok(q),
        None => Err(CompetitionError::CalculationError),
    }
}

} // verus!
