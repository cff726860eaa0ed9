//! Binary floating-point numbers of 64 bits, read from their bit patterns.
//!
//! A pattern holds, from the highest bit down, a sign, an exponent field of
//! eleven bits and a fraction field of fifty-two.

use vstd::prelude::*;
use vstd::arithmetic::power2::{
    lemma2_to64,
    lemma2_to64_rest,
    lemma_pow2_pos,
    lemma_pow2_strictly_increases,
    lemma_pow2_unfold,
    pow2,
};

verus! {

/// The lowest pattern whose sign bit is set.
pub const SIGN_BIT: u64 = 0x8000_0000_0000_0000;

/// The number of patterns that a fraction field can hold: two to the
/// fifty-second.
pub const FRACTION_SPAN: u64 = 0x10_0000_0000_0000;

/// Whether the sign bit of `bits` is set.
pub open spec fn is_negative(bits: u64) -> bool {
    bits >= SIGN_BIT
}

/// The exponent field of `bits`.
pub open spec fn exponent_field(bits: u64) -> int {
    (bits as int / FRACTION_SPAN as int) % 2048
}

/// The fraction field of `bits`.
pub open spec fn fraction_field(bits: u64) -> int {
    bits as int % FRACTION_SPAN as int
}

/// Whether `bits` is not a number.
pub open spec fn is_nan(bits: u64) -> bool {
    exponent_field(bits) == 2047 && fraction_field(bits) != 0
}

/// The significand of `bits` as a whole number: the magnitude of the number
/// is `significand(bits)` times two to the power `scale(bits)`.
pub open spec fn significand(bits: u64) -> int {
    if exponent_field(bits) == 0 {
        fraction_field(bits)
    } else {
        fraction_field(bits) + FRACTION_SPAN as int
    }
}

/// The power of two by which the significand is to be multiplied.
pub open spec fn scale(bits: u64) -> int {
    if exponent_field(bits) == 0 {
        -1074
    } else {
        exponent_field(bits) - 1075
    }
}

/// The whole part of the magnitude of `bits`. An infinity counts as two to
/// the power 1024, which is beyond every finite number.
pub open spec fn whole_magnitude(bits: u64) -> int {
    if scale(bits) >= 0 {
        significand(bits) * pow2(scale(bits) as nat)
    } else {
        significand(bits) / (pow2((-scale(bits)) as nat) as int)
    }
}

/// The integer that `bits` becomes: the number without its fractional part,
/// the nearest 64-bit integer where that is out of range, and zero where
/// `bits` is not a number.
pub open spec fn float_to_int(bits: u64) -> int {
    if is_nan(bits) {
        0
    } else if is_negative(bits) {
        if whole_magnitude(bits) >= 0x8000_0000_0000_0000 {
            i64::MIN as int
        } else {
            -whole_magnitude(bits)
        }
    } else {
        if whole_magnitude(bits) > i64::MAX {
            i64::MAX as int
        } else {
            whole_magnitude(bits)
        }
    }
}

/// Two to the power `n`.
fn power_of_two(n: u64) -> (p: u64)
    requires
        n <= 63,
    ensures
        p == pow2(n as nat),
{
    let mut p: u64 = 1;
    let mut k: u64 = 0;
    proof {
        lemma2_to64();
    }
    while k < n
        invariant
            k <= n <= 63,
            p == pow2(k as nat),
        decreases n - k,
    {
        proof {
            lemma_pow2_unfold((k + 1) as nat);
            lemma2_to64();
            lemma2_to64_rest();
            if k + 1 < 63 {
                lemma_pow2_strictly_increases((k + 1) as nat, 63);
            }
        }
        p = p * 2;
        k += 1;
    }
    p
}

/// The integer that the floating-point number `bits` becomes when its
/// fractional part is dropped.
pub fn truncate(bits: u64) -> (r: i64)
    ensures
        r == float_to_int(bits),
{
    let negative: bool = bits >= SIGN_BIT;
    let exponent: u64 = (bits / FRACTION_SPAN) % 2048;
    let fraction: u64 = bits % FRACTION_SPAN;
    if exponent == 2047 && fraction != 0 {
        return 0;
    }
    if exponent < 1023 {
        proof {
            let k = (-scale(bits)) as nat;
            lemma2_to64_rest();
            if k > 53 {
                lemma_pow2_strictly_increases(53, k);
            }
            let s = significand(bits);
            let d = pow2(k) as int;
            assert(0 <= s < d);
            assert(s / d == 0) by (nonlinear_arith)
                requires
                    0 <= s < d,
            ;
        }
        return 0;
    }
    if exponent >= 1086 {
        proof {
            let k = scale(bits) as nat;
            lemma2_to64();
            if k > 11 {
                lemma_pow2_strictly_increases(11, k);
            }
            let s = significand(bits);
            let m = pow2(k) as int;
            assert(s * m >= 0x8000_0000_0000_0000) by (nonlinear_arith)
                requires
                    s >= 0x10_0000_0000_0000,
                    m >= 0x800,
            ;
        }
        return if negative {
            i64::MIN
        } else {
            i64::MAX
        };
    }
    let significand: u64 = fraction + FRACTION_SPAN;
    let whole: u64 = if exponent >= 1075 {
        let p: u64 = power_of_two(exponent - 1075);
        proof {
            lemma2_to64();
            if exponent - 1075 < 10 {
                lemma_pow2_strictly_increases((exponent - 1075) as nat, 10);
            }
            assert(significand * p < 0x8000_0000_0000_0000) by (nonlinear_arith)
                requires
                    0 <= significand < 0x20_0000_0000_0000,
                    0 <= p <= 0x400,
            ;
        }
        significand * p
    } else {
        let p: u64 = power_of_two(1075 - exponent);
        proof {
            lemma_pow2_pos((1075 - exponent) as nat);
        }
        significand / p
    };
    if negative {
        -(whole as i64)
    } else {
        whole as i64
    }
}

} // verus!
