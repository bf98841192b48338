//! Ratings: doubles, held as their IEEE 754 bit patterns.

use crate::errors::{AppError, Failure};
use crate::value::{Json, Number, Value};
use vstd::arithmetic::power2::{
    lemma2_to64, lemma2_to64_rest, lemma_pow2_adds, lemma_pow2_pos, lemma_pow2_strictly_increases,
    pow2,
};
use vstd::prelude::*;

verus! {

/// The bit pattern of the double 1.
pub const ONE: u64 = 0x3ff0_0000_0000_0000;

/// The bit pattern of the double 5.
pub const FIVE: u64 = 0x4014_0000_0000_0000;

/// The eleven bits of the exponent.
pub open spec fn exponent(bits: u64) -> int {
    (bits / 0x10_0000_0000_0000) as int % 0x800
}

/// The fifty-two bits of the fraction.
pub open spec fn fraction(bits: u64) -> int {
    bits as int % 0x10_0000_0000_0000
}

/// The bit pattern is that of a number.
pub open spec fn is_finite(bits: u64) -> bool {
    exponent(bits) != 0x7ff
}

/// The JSON of a double: the number, and null for what is none.
pub open spec fn double_json(bits: u64) -> Json {
    if is_finite(bits) {
        Json::Number(Number::Float(bits))
    } else {
        Json::Null
    }
}

/// The JSON value of the double with a bit pattern: the number, and null for what is none.
pub fn double_value(bits: u64) -> (value: Value)
    ensures
        value@ == double_json(bits),
{
    if (bits / 0x10_0000_0000_0000) % 0x800 != 0x7ff {
        Value::Number(Number::Float(bits))
    } else {
        Value::Null
    }
}

/// The number that the bit pattern of a finite double stands for, times two to the power of
/// 1074, which makes it whole.
pub open spec fn scaled(bits: u64) -> int {
    let size = if exponent(bits) == 0 {
        fraction(bits)
    } else {
        (0x10_0000_0000_0000 + fraction(bits)) * pow2((exponent(bits) - 1) as nat)
    };
    if bits < 0x8000_0000_0000_0000 {
        size
    } else {
        -size
    }
}

/// The bit pattern is that of a number between two whole ones, these included.
pub open spec fn is_between(bits: u64, low: int, high: int) -> bool {
    &&& is_finite(bits)
    &&& low * pow2(1074) <= scaled(bits) <= high * pow2(1074)
}

/// A double is between 1 and 5 just when its bit pattern is between those of 1 and 5.
pub proof fn lemma_between_one_and_five(bits: u64)
    ensures
        is_between(bits, 1, 5) <==> ONE <= bits <= FIVE,
{
    let e = exponent(bits);
    let f = fraction(bits);
    let unit = pow2(1074);
    lemma2_to64();
    lemma2_to64_rest();
    lemma_pow2_pos(1074);
    assert(pow2(52) == 0x10_0000_0000_0000);
    assert(pow2(50) == 0x4_0000_0000_0000);
    assert(0 <= f < 0x10_0000_0000_0000);
    if e > 0 {
        let p = pow2((e - 1) as nat);
        lemma_pow2_pos((e - 1) as nat);
        assert((0x10_0000_0000_0000 + f) * p >= 0x10_0000_0000_0000 * p) by (nonlinear_arith)
            requires
                f >= 0,
                p > 0,
        ;
        assert((0x10_0000_0000_0000 + f) * p < 0x20_0000_0000_0000 * p) by (nonlinear_arith)
            requires
                f < 0x10_0000_0000_0000,
                p > 0,
        ;
    }
    if bits >= 0x8000_0000_0000_0000 {
        assert(scaled(bits) <= 0);
    } else {
        assert(bits == e * 0x10_0000_0000_0000 + f);
        if e == 0 {
            lemma_pow2_strictly_increases(52, 1074);
        } else if e < 1023 {
            lemma_pow2_adds(53, (e - 1) as nat);
            assert(pow2(53) == 0x20_0000_0000_0000);
            if e < 1022 {
                lemma_pow2_strictly_increases((e + 52) as nat, 1074);
            }
        } else if e == 1023 {
            lemma_pow2_adds(52, 1022);
            lemma_pow2_adds(53, 1022);
            lemma_pow2_adds(1, 1074);
        } else if e == 1024 {
            lemma_pow2_adds(52, 1023);
            lemma_pow2_adds(53, 1023);
            lemma_pow2_adds(1, 1074);
            lemma_pow2_adds(2, 1074);
        } else if e == 1025 {
            lemma_pow2_adds(50, 1024);
            let p = pow2(1024);
            assert(5 * unit == (5 * 0x4_0000_0000_0000) * p) by (nonlinear_arith)
                requires
                    unit == 0x4_0000_0000_0000 * p,
            ;
            if f <= 0x4_0000_0000_0000 {
                assert((0x10_0000_0000_0000 + f) * p <= (5 * 0x4_0000_0000_0000) * p)
                    by (nonlinear_arith)
                    requires
                        f <= 0x4_0000_0000_0000,
                        p > 0,
                ;
            } else {
                assert((0x10_0000_0000_0000 + f) * p > (5 * 0x4_0000_0000_0000) * p)
                    by (nonlinear_arith)
                    requires
                        f > 0x4_0000_0000_0000,
                        p > 0,
                ;
            }
            lemma_pow2_adds(52, 1024);
            lemma_pow2_adds(2, 1074);
        } else {
            lemma_pow2_adds(52, (e - 1) as nat);
            lemma_pow2_adds(3, 1074);
            if e > 1026 {
                lemma_pow2_strictly_increases(1077, (e + 51) as nat);
            }
        }
    }
}

/// Refuses a rating that is no number between 1 and 5.
pub fn validate_rating(rating: u64) -> (result: Result<(), AppError>)
    ensures
        match result {
            Ok(()) => is_between(rating, 1, 5),
            Err(error) => !is_between(rating, 1, 5) && error@ == Failure::BadRequest(
                "Rating must be between 1 and 5"@,
            ),
        },
{
    proof {
        lemma_between_one_and_five(rating);
    }
    if ONE <= rating && rating <= FIVE {
        Ok(())
    } else {
        Err(AppError::BadRequest("Rating must be between 1 and 5".to_owned()))
    }
}

} // verus!
