//! A verified single-precision square root on bit patterns.
//!
//! `rustc_apfloat` offers no square root, so the library computes one itself,
//! entirely in integer arithmetic, and proves it against the constructive
//! specification [`sqrt_bits`].  For a positive finite input the
//! specification scales the significand so that the integer square root of
//! the scaled value carries 24 significant bits, takes that root, and rounds
//! to nearest.  A tie (a real square root exactly halfway between two
//! representable values) cannot occur: it would make the square root of an
//! integer equal to an integer plus one half, whose square is not an
//! integer.  So round-to-nearest needs no ties-to-even case and the result
//! is the correctly rounded square root.  Zeros are returned unchanged, the
//! square root of a negative value or of a negative infinity is the
//! canonical negative quiet NaN, a NaN comes back with its quiet bit set,
//! and a positive infinity comes back unchanged.

use crate::fbits::{abs_bits, is_inf_bits, is_nan_bits, is_neg_bits};
use vstd::prelude::*;

verus! {

/// The integer square root, by the classical digit-by-digit recurrence:
/// the root of `n` is twice the root of `n / 4`, plus one when the square
/// of that candidate successor still fits below `n`.
pub open spec fn spec_isqrt(n: int) -> int
    decreases n,
{
    if n < 1 {
        0
    } else {
        let r = 2 * spec_isqrt(n / 4);
        if (r + 1) * (r + 1) <= n {
            r + 1
        } else {
            r
        }
    }
}

pub proof fn lemma_isqrt_bounds(n: int)
    requires
        n >= 0,
    ensures
        0 <= spec_isqrt(n),
        spec_isqrt(n) * spec_isqrt(n) <= n,
        n < (spec_isqrt(n) + 1) * (spec_isqrt(n) + 1),
    decreases n,
{
    if n >= 1 {
        lemma_isqrt_bounds(n / 4);
        let s = spec_isqrt(n / 4);
        let r = 2 * s;
        assert(4 * (n / 4) <= n && n <= 4 * (n / 4) + 3);
        assert(r * r <= n) by (nonlinear_arith)
            requires
                s * s <= n / 4,
                4 * (n / 4) <= n,
                r == 2 * s,
        ;
        assert(n < (r + 2) * (r + 2)) by (nonlinear_arith)
            requires
                n / 4 < (s + 1) * (s + 1),
                n <= 4 * (n / 4) + 3,
                r == 2 * s,
        ;
        if (r + 1) * (r + 1) <= n {
            assert(spec_isqrt(n) == r + 1);
        } else {
            assert(spec_isqrt(n) == r);
        }
    }
}

/// The significand of a subnormal value, doubled until it reaches the range
/// of a normal significand.
pub open spec fn norm_sig(m: int) -> int
    decreases 0x100_0000 - m,
{
    if m < 1 {
        0
    } else if m >= 0x80_0000 {
        m
    } else {
        norm_sig(2 * m)
    }
}

/// How many doublings [`norm_sig`] takes.
pub open spec fn norm_shift(m: int) -> int
    decreases 0x100_0000 - m,
{
    if m < 1 {
        0
    } else if m >= 0x80_0000 {
        0
    } else {
        1 + norm_shift(2 * m)
    }
}

/// Two to the power `e`, for the normalisation argument.
pub open spec fn spec_pow2(e: int) -> int
    decreases e,
{
    if e <= 0 {
        1
    } else {
        2 * spec_pow2(e - 1)
    }
}

proof fn lemma_pow2_pos(e: int)
    ensures
        spec_pow2(e) >= 1,
    decreases e,
{
    if e > 0 {
        lemma_pow2_pos(e - 1);
    }
}

proof fn lemma_pow2_at_least(e: int, b: int)
    requires
        0 <= b <= e,
    ensures
        spec_pow2(e) >= spec_pow2(b),
        spec_pow2(b) >= 1,
    decreases e,
{
    lemma_pow2_pos(b);
    if e > b {
        lemma_pow2_at_least(e - 1, b);
    }
}

proof fn lemma_norm_shift_nonneg(m: int)
    ensures
        norm_shift(m) >= 0,
    decreases 0x100_0000 - m,
{
    if 1 <= m < 0x80_0000 {
        lemma_norm_shift_nonneg(2 * m);
    }
}

/// `norm_sig(m) == m * 2^norm_shift(m)`: normalisation only shifts.
proof fn lemma_norm_scale(m: int)
    requires
        1 <= m,
    ensures
        norm_sig(m) == m * spec_pow2(norm_shift(m)),
    decreases 0x100_0000 - m,
{
    if m >= 0x80_0000 {
        assert(norm_sig(m) == m);
        assert(norm_shift(m) == 0);
        assert(spec_pow2(0) == 1);
        assert(m * 1 == m) by (nonlinear_arith);
    } else {
        lemma_norm_scale(2 * m);
        lemma_norm_shift_nonneg(2 * m);
        let z = norm_shift(2 * m);
        assert(norm_sig(m) == norm_sig(2 * m));
        assert(norm_shift(m) == 1 + z);
        assert(spec_pow2(z + 1) == 2 * spec_pow2(z));
        assert((2 * m) * spec_pow2(z) == m * (2 * spec_pow2(z))) by (nonlinear_arith);
    }
}

proof fn lemma_norm_props(m: int)
    requires
        1 <= m < 0x80_0000,
    ensures
        0x80_0000 <= norm_sig(m) < 0x100_0000,
        1 <= norm_shift(m) <= 23,
    decreases 0x100_0000 - m,
{
    if 2 * m >= 0x80_0000 {
        assert(norm_sig(m) == norm_sig(2 * m));
        assert(norm_sig(2 * m) == 2 * m);
        assert(norm_shift(m) == 1 + norm_shift(2 * m));
        assert(norm_shift(2 * m) == 0);
    } else {
        lemma_norm_props(2 * m);
        lemma_norm_scale(2 * m);
        let z = norm_shift(2 * m);
        let p = spec_pow2(z);
        assert(norm_sig(2 * m) == (2 * m) * p);
        if z >= 23 {
            lemma_pow2_at_least(z, 23);
            assert(spec_pow2(23) == 0x80_0000) by {
                reveal_with_fuel(spec_pow2, 25);
            }
            assert((2 * m) * p >= 2 * 0x80_0000) by (nonlinear_arith)
                requires
                    m >= 1,
                    p >= 0x80_0000,
            ;
            assert(false);
        }
        assert(norm_sig(m) == norm_sig(2 * m));
        assert(norm_shift(m) == 1 + z);
    }
}

/// A NaN with its quiet bit (bit 22) set.
pub open spec fn quiet_bits(a: u32) -> u32 {
    if (a / 0x40_0000) % 2 == 1 {
        a
    } else {
        (a + 0x40_0000) as u32
    }
}

/// The square root of the value `a` encodes, rounded to nearest.
pub open spec fn sqrt_bits(a: u32) -> u32 {
    if is_nan_bits(a) {
        quiet_bits(a)
    } else if is_neg_bits(a) && abs_bits(a) != 0 {
        0xFFC0_0000u32
    } else if abs_bits(a) == 0 {
        a
    } else if is_inf_bits(a) {
        a
    } else {
        let ebits = a / 0x80_0000;
        let frac = a % 0x80_0000;
        let m = if ebits == 0 {
            norm_sig(frac as int)
        } else {
            frac + 0x80_0000
        };
        // `gg` is the unbiased exponent of the input plus 300, kept positive
        // so that parity and halving stay in plain arithmetic.
        let gg = if ebits == 0 {
            151 - norm_shift(frac as int)
        } else {
            ebits + 150
        };
        // Scale the significand to 47 or 48 bits so that the scaled exponent
        // is even and the integer root has exactly 24 bits.
        let j = if gg % 2 == 0 {
            24int
        } else {
            23int
        };
        let n = m * (if j == 24 {
            0x100_0000int
        } else {
            0x80_0000int
        });
        let s0 = spec_isqrt(n);
        // Round to nearest; a tie is impossible, see the module comment.
        let q = if n > s0 * s0 + s0 {
            s0 + 1
        } else {
            s0
        };
        (((gg - j) / 2 - 1) * 0x80_0000 + q) as u32
    }
}

/// The integer square root of `n`, by binary recursion on the digits.
fn isqrt_u64(n: u64) -> (r: u64)
    requires
        n < 0x1_0000_0000_0000u64,
    ensures
        r == spec_isqrt(n as int),
        r < 0x100_0000u64,
    decreases n,
{
    if n < 1 {
        0
    } else {
        let s = isqrt_u64(n / 4);
        proof {
            lemma_isqrt_bounds(n as int / 4);
            assert(s < 0x80_0000) by (nonlinear_arith)
                requires
                    s as int * s as int <= n as int / 4,
                    n as int / 4 < 0x4000_0000_0000,
                    s as int >= 0,
            ;
        }
        let r = 2 * s;
        proof {
            assert((r as int + 1) * (r as int + 1) <= 0x1_0000_0000_0000) by (nonlinear_arith)
                requires
                    r as int <= 0xFF_FFFE,
                    r as int >= 0,
            ;
        }
        if (r + 1) * (r + 1) <= n {
            r + 1
        } else {
            r
        }
    }
}

/// Doubles a subnormal significand until it reaches normal range, returning
/// the normalised significand and the number of doublings.
fn normalize_frac(f: u32) -> (r: (u32, u32))
    requires
        1 <= f < 0x80_0000,
    ensures
        r.0 == norm_sig(f as int),
        r.1 == norm_shift(f as int),
        0x80_0000 <= r.0 < 0x100_0000,
        1 <= r.1 <= 23,
    decreases 0x100_0000 - f,
{
    proof {
        lemma_norm_props(f as int);
    }
    let d = 2 * f;
    if d >= 0x80_0000 {
        proof {
            assert(norm_sig(f as int) == norm_sig(d as int));
            assert(norm_sig(d as int) == d);
            assert(norm_shift(f as int) == 1 + norm_shift(d as int));
            assert(norm_shift(d as int) == 0);
        }
        (d, 1)
    } else {
        let (m, z) = normalize_frac(d);
        proof {
            assert(norm_sig(f as int) == norm_sig(d as int));
            assert(norm_shift(f as int) == 1 + norm_shift(d as int));
        }
        (m, z + 1)
    }
}

/// The square root of the single-precision value `a` encodes, on bit
/// patterns, rounded to nearest.
pub fn f32_sqrt(a: u32) -> (r: u32)
    ensures
        r == sqrt_bits(a),
{
    let mag = a % 0x8000_0000u32;
    if mag > 0x7F80_0000 {
        if (a / 0x40_0000) % 2 == 1 {
            a
        } else {
            proof {
                assert(a / 0x40_0000 < 1024);
                assert(a / 0x40_0000 <= 1022);
                assert(a == 0x40_0000 * (a / 0x40_0000) + a % 0x40_0000);
            }
            a + 0x40_0000
        }
    } else if a >= 0x8000_0000 && mag != 0 {
        0xFFC0_0000
    } else if mag == 0 {
        a
    } else if mag == 0x7F80_0000 {
        a
    } else {
        let ebits = a / 0x80_0000;
        let frac = a % 0x80_0000;
        let (m, z): (u32, u32) = if ebits == 0 {
            normalize_frac(frac)
        } else {
            (frac + 0x80_0000, 0)
        };
        let gg: u32 = if ebits == 0 {
            151 - z
        } else {
            ebits + 150
        };
        let j: u32 = if gg % 2 == 0 {
            24
        } else {
            23
        };
        let n: u64 = (m as u64) * (if j == 24 {
            0x100_0000u64
        } else {
            0x80_0000u64
        });
        proof {
            assert(n as int == m as int * (if j == 24 {
                0x100_0000int
            } else {
                0x80_0000int
            }) && n < 0x1_0000_0000_0000) by (nonlinear_arith)
                requires
                    n as int == m as int * (if j == 24 {
                        0x100_0000int
                    } else {
                        0x80_0000int
                    }),
                    m < 0x100_0000,
                    j == 24 || j == 23,
            ;
        }
        let s0 = isqrt_u64(n);
        proof {
            lemma_sqrt_digit_bounds(n as int, m as int, j as int);
            assert(s0 as int * s0 as int + s0 as int <= 0x1_0000_0000_0000) by (nonlinear_arith)
                requires
                    s0 as int >= 0,
                    s0 < 0x100_0000,
            ;
        }
        let q: u64 = if n > s0 * s0 + s0 {
            s0 + 1
        } else {
            s0
        };
        ((gg - j) / 2 - 1) * 0x80_0000 + (q as u32)
    }
}

/// Bounds that keep the rounded root inside a normal significand: the scaled
/// value has 47 or 48 bits, so the rounded root has exactly 24.
proof fn lemma_sqrt_digit_bounds(n: int, m: int, j: int)
    requires
        0x80_0000 <= m < 0x100_0000,
        j == 23 || j == 24,
        n == m * (if j == 24 {
            0x100_0000int
        } else {
            0x80_0000int
        }),
    ensures
        n >= 0x4000_0000_0000,
        n <= 0xFFFF_FF00_0000,
        ({
            let s0 = spec_isqrt(n);
            let q = if n > s0 * s0 + s0 {
                s0 + 1
            } else {
                s0
            };
            0x80_0000 <= q < 0x100_0000
        }),
{
    assert(n >= 0x80_0000 * 0x80_0000 && n <= (0x100_0000 - 1) * 0x100_0000) by (nonlinear_arith)
        requires
            0x80_0000 <= m < 0x100_0000,
            j == 23 || j == 24,
            n == m * (if j == 24 {
                0x100_0000int
            } else {
                0x80_0000int
            }),
    ;
    lemma_isqrt_bounds(n);
    let s0 = spec_isqrt(n);
    assert(s0 >= 0x80_0000) by (nonlinear_arith)
        requires
            n >= 0x4000_0000_0000,
            n < (s0 + 1) * (s0 + 1),
            s0 >= 0,
    ;
    assert(s0 < 0x100_0000) by (nonlinear_arith)
        requires
            s0 * s0 <= n,
            n <= 0xFFFF_FF00_0000,
            s0 >= 0,
    ;
    let q = if n > s0 * s0 + s0 {
        s0 + 1
    } else {
        s0
    };
    if q == 0x100_0000 {
        assert(s0 == 0xFF_FFFF);
        assert(false) by (nonlinear_arith)
            requires
                s0 == 0xFF_FFFF,
                n > s0 * s0 + s0,
                n <= 0xFFFF_FF00_0000,
        ;
    }
}

} // verus!
