//! Exact comparison of JSON numbers.
//!
//! Every number the model can hold is `(-1)^neg * mant * 2^exp` with
//! `mant < 2^64` and `-1074 <= exp <= 1024`; scaling by `2^1074` turns each
//! into a mathematical integer (`scaled_of`), and comparing two numbers is
//! comparing their scaled values.

use vstd::arithmetic::div_mod::{
    lemma_fundamental_div_mod, lemma_mod_multiples_basic, lemma_small_mod,
};
use vstd::arithmetic::mul::{
    lemma_mul_is_associative, lemma_mul_strict_inequality, lemma_mul_strictly_positive,
};
use vstd::arithmetic::power2::{
    lemma2_to64, lemma2_to64_rest, lemma_pow2_adds, lemma_pow2_pos, lemma_pow2_strictly_increases, pow2,
};
use vstd::prelude::*;

use crate::value::{scaled_of, Binary64, Value};

verus! {

/// Outcome of comparing two numbers.
pub enum Cmp {
    Less,
    Equal,
    Greater,
}

/// `2^e` for small exponents.
fn pow2_u64(e: u32) -> (r: u64)
    requires
        e <= 63,
    ensures
        r == pow2(e as nat),
{
    let mut r: u64 = 1;
    let mut i: u32 = 0;
    proof {
        lemma2_to64();
        lemma2_to64_rest();
    }
    while i < e
        invariant
            i <= e <= 63,
            r == pow2(i as nat),
        decreases e - i,
    {
        proof {
            lemma2_to64();
            lemma2_to64_rest();
            lemma_pow2_strictly_increases(i as nat, 63);
            lemma_pow2_adds(i as nat, 1);
        }
        r = r * 2;
        i = i + 1;
    }
    r
}

/// Compares the magnitudes `m1 * 2^(e1 + 1074)` and `m2 * 2^(e2 + 1074)` of
/// two non-zero numbers.
fn cmp_mag(m1: u64, e1: i32, m2: u64, e2: i32) -> (c: Cmp)
    requires
        m1 >= 1,
        m2 >= 1,
        -1074 <= e1 <= 1024,
        -1074 <= e2 <= 1024,
    ensures
        (c is Less) <==> m1 * pow2((e1 + 1074) as nat) < m2 * pow2((e2 + 1074) as nat),
        (c is Equal) <==> m1 * pow2((e1 + 1074) as nat) == m2 * pow2((e2 + 1074) as nat),
        (c is Greater) <==> m1 * pow2((e1 + 1074) as nat) > m2 * pow2((e2 + 1074) as nat),
{
    let ghost a1 = (e1 + 1074) as nat;
    let ghost a2 = (e2 + 1074) as nat;
    let d: i64 = e1 as i64 - e2 as i64;
    if d >= 64 {
        proof {
            lemma_mag_far_apart(m1, m2, a1, a2);
        }
        Cmp::Greater
    } else if d <= -64 {
        proof {
            lemma_mag_far_apart(m2, m1, a2, a1);
        }
        Cmp::Less
    } else if d >= 0 {
        let p = pow2_u64(d as u32);
        proof {
            lemma_mul_no_overflow(m1, (d as u32) as nat);
            lemma_mag_aligned(m1, m2, a1, a2);
        }
        let x: u128 = (m1 as u128) * (p as u128);
        let y: u128 = m2 as u128;
        if x < y {
            Cmp::Less
        } else if x == y {
            Cmp::Equal
        } else {
            Cmp::Greater
        }
    } else {
        let p = pow2_u64((-d) as u32);
        proof {
            lemma_mul_no_overflow(m2, ((-d) as u32) as nat);
            lemma_mag_aligned(m2, m1, a2, a1);
        }
        let x: u128 = m1 as u128;
        let y: u128 = (m2 as u128) * (p as u128);
        if x < y {
            Cmp::Less
        } else if x == y {
            Cmp::Equal
        } else {
            Cmp::Greater
        }
    }
}

/// `m1 * 2^d` stays below `2^127` while `m1 < 2^64` and `d <= 63`.
proof fn lemma_mul_no_overflow(m1: u64, d: nat)
    requires
        d <= 63,
    ensures
        m1 * pow2(d) < u128::MAX,
{
    lemma2_to64();
    lemma2_to64_rest();
    if d < 63 {
        lemma_pow2_strictly_increases(d, 63);
    }
    assert(m1 * pow2(d) <= 0xffffffffffffffff * 0x8000000000000000) by (nonlinear_arith)
        requires
            0 <= m1 <= 0xffffffffffffffff,
            0 <= pow2(d) <= 0x8000000000000000,
    ;
}

/// When the exponents differ by at least 64, the number with the larger
/// exponent has the larger magnitude, whatever the mantissas.
proof fn lemma_mag_far_apart(m1: u64, m2: u64, a1: nat, a2: nat)
    requires
        m1 >= 1,
        m2 >= 1,
        a1 >= a2 + 64,
    ensures
        m1 * pow2(a1) > m2 * pow2(a2),
{
    let d = (a1 - a2) as nat;
    lemma_pow2_adds(d, a2);
    lemma_pow2_pos(a2);
    lemma_pow2_pos(d);
    lemma2_to64();
    lemma2_to64_rest();
    if d > 64 {
        lemma_pow2_strictly_increases(64, d);
    }
    assert(m1 * pow2(a1) == m1 * (pow2(d) * pow2(a2)));
    assert(m1 * (pow2(d) * pow2(a2)) > m2 * pow2(a2)) by (nonlinear_arith)
        requires
            m1 >= 1,
            pow2(d) >= 0x10000000000000000,
            m2 < 0x10000000000000000,
            pow2(a2) >= 1,
    ;
}

/// When the exponents differ by `d`, multiplying the larger-exponent mantissa
/// by `2^d` aligns the two magnitudes on a common factor `2^a2`.
proof fn lemma_mag_aligned(m1: u64, m2: u64, a1: nat, a2: nat)
    requires
        a2 <= a1,
    ensures
        m1 * pow2(a1) < m2 * pow2(a2) <==> m1 * pow2((a1 - a2) as nat) < m2,
        m1 * pow2(a1) == m2 * pow2(a2) <==> m1 * pow2((a1 - a2) as nat) == m2,
{
    let d = (a1 - a2) as nat;
    let x = m1 * pow2(d);
    lemma_pow2_adds(d, a2);
    lemma_pow2_pos(a2);
    lemma_mul_is_associative(m1 as int, pow2(d) as int, pow2(a2) as int);
    assert(m1 * pow2(a1) == x * pow2(a2));
    if x < m2 {
        lemma_mul_strict_inequality(x as int, m2 as int, pow2(a2) as int);
    }
    if x > m2 {
        lemma_mul_strict_inequality(m2 as int, x as int, pow2(a2) as int);
    }
}

/// Compares two numbers given as sign, mantissa and exponent.
fn cmp_scaled(n1: bool, m1: u64, e1: i32, n2: bool, m2: u64, e2: i32) -> (c: Cmp)
    requires
        -1074 <= e1 <= 1024,
        -1074 <= e2 <= 1024,
    ensures
        (c is Less) <==> scaled_of(n1, m1, e1) < scaled_of(n2, m2, e2),
        (c is Equal) <==> scaled_of(n1, m1, e1) == scaled_of(n2, m2, e2),
        (c is Greater) <==> scaled_of(n1, m1, e1) > scaled_of(n2, m2, e2),
{
    proof {
        lemma_pow2_pos((e1 + 1074) as nat);
        lemma_pow2_pos((e2 + 1074) as nat);
        if m1 >= 1 {
            lemma_mul_strictly_positive(m1 as int, pow2((e1 + 1074) as nat) as int);
        }
        if m2 >= 1 {
            lemma_mul_strictly_positive(m2 as int, pow2((e2 + 1074) as nat) as int);
        }
    }
    if m1 == 0 && m2 == 0 {
        Cmp::Equal
    } else if m1 == 0 {
        if n2 {
            Cmp::Greater
        } else {
            Cmp::Less
        }
    } else if m2 == 0 {
        if n1 {
            Cmp::Less
        } else {
            Cmp::Greater
        }
    } else if n1 && !n2 {
        Cmp::Less
    } else if !n1 && n2 {
        Cmp::Greater
    } else if !n1 {
        cmp_mag(m1, e1, m2, e2)
    } else {
        match cmp_mag(m1, e1, m2, e2) {
            Cmp::Less => Cmp::Greater,
            Cmp::Equal => Cmp::Equal,
            Cmp::Greater => Cmp::Less,
        }
    }
}

/// Splits a 64-bit integer into sign and magnitude.
fn int_parts(i: i64) -> (p: (bool, u64))
    ensures
        p.0 == (i < 0),
        p.1 == if i < 0 {
            -(i as int)
        } else {
            i as int
        },
{
    if i >= 0 {
        (false, i as u64)
    } else {
        (true, (-(i as i128)) as u64)
    }
}

/// The sign, mantissa and exponent of a number, with its scaled value.
fn num_parts(v: &Value) -> (t: (bool, u64, i32))
    requires
        v@.is_number(),
        v@.wf(),
    ensures
        scaled_of(t.0, t.1, t.2) == v@.num(),
        -1074 <= t.2 <= 1024,
{
    match v {
        Value::Int(i) => {
            let (neg, mag) = int_parts(*i);
            proof {
                lemma_int_scaled(*i, neg, mag);
            }
            (neg, mag, 0)
        },
        Value::Float(b) => (b.neg, b.mant, b.exp),
        _ => {
            proof {
                assert(false);
            }
            (false, 0, 0)
        },
    }
}

/// A 64-bit integer's sign-magnitude split scales to `i * 2^1074`.
proof fn lemma_int_scaled(i: i64, neg: bool, mag: u64)
    requires
        neg == (i < 0),
        mag == if i < 0 {
            -(i as int)
        } else {
            i as int
        },
    ensures
        scaled_of(neg, mag, 0) == i * pow2(1074),
{
    lemma_pow2_pos(1074);
    if i < 0 {
        assert((-(i as int)) * pow2(1074) == -(i * pow2(1074))) by (nonlinear_arith);
    }
}

/// A number is a multiple of a positive `p` exactly when its negation is.
proof fn lemma_neg_divisible(x: int, p: int)
    requires
        p > 0,
    ensures
        (x % p == 0) <==> ((-x) % p == 0),
{
    if x % p == 0 {
        lemma_fundamental_div_mod(x, p);
        assert(-x == (-(x / p)) * p) by (nonlinear_arith)
            requires
                x == p * (x / p),
        ;
        lemma_mod_multiples_basic(-(x / p), p);
    }
    if (-x) % p == 0 {
        lemma_fundamental_div_mod(-x, p);
        assert(x == (-((-x) / p)) * p) by (nonlinear_arith)
            requires
                -x == p * ((-x) / p),
        ;
        lemma_mod_multiples_basic(-((-x) / p), p);
    }
}

/// For an exponent `s` below 1074, the magnitude `m * 2^(1074 - s)` is a
/// multiple of `2^1074` exactly when `m` is a multiple of `2^s`.
proof fn lemma_integral_shift(m: u64, s: nat)
    requires
        1 <= s <= 1074,
    ensures
        ((m * pow2((1074 - s) as nat)) % (pow2(1074) as int) == 0) <==> ((m as int) % (pow2(s)
            as int) == 0),
{
    let a = (1074 - s) as nat;
    let big = pow2(1074) as int;
    let q = pow2(s) as int;
    let al = pow2(a) as int;
    lemma_pow2_adds(s, a);
    lemma_pow2_pos(s);
    lemma_pow2_pos(a);
    lemma_pow2_pos(1074);
    if m as int % q == 0 {
        lemma_fundamental_div_mod(m as int, q);
        let k = m as int / q;
        assert(m * al == k * big) by (nonlinear_arith)
            requires
                m == q * k,
                big == q * al,
        ;
        lemma_mod_multiples_basic(k, big);
    }
    if (m * al) % big == 0 {
        let x = m as int * al;
        lemma_fundamental_div_mod(x, big);
        let k = x / big;
        assert(m as int == k * q) by (nonlinear_arith)
            requires
                x == big * k,
                x == m as int * al,
                big == q * al,
                al >= 1,
        ;
        lemma_mod_multiples_basic(k, q);
    }
}

/// Whether a float-tagged number has zero fractional part. This is the
/// draft 7 refinement of the `integer` type test.
pub fn float_is_integral(b: &Binary64) -> (r: bool)
    requires
        b.wf(),
    ensures
        r == b.is_integral(),
{
    let ghost big = pow2(1074) as int;
    proof {
        lemma_pow2_pos(1074);
    }
    if b.mant == 0 {
        proof {
            lemma_mod_multiples_basic(0, big);
        }
        true
    } else if b.exp >= 0 {
        proof {
            let e = b.exp as nat;
            lemma_pow2_adds(e, 1074);
            lemma_mul_is_associative(b.mant as int, pow2(e) as int, big);
            lemma_mod_multiples_basic(b.mant * pow2(e), big);
            lemma_neg_divisible((b.mant * pow2((b.exp + 1074) as nat)) as int, big);
        }
        true
    } else {
        let s: u32 = (-b.exp) as u32;
        proof {
            lemma_integral_shift(b.mant, s as nat);
            lemma_neg_divisible((b.mant * pow2((b.exp + 1074) as nat)) as int, big);
        }
        if s >= 53 {
            proof {
                if s > 53 {
                    lemma_pow2_strictly_increases(53, s as nat);
                }
                lemma2_to64();
                lemma2_to64_rest();
                lemma_small_mod(b.mant as nat, pow2(s as nat));
            }
            false
        } else {
            let p = pow2_u64(s);
            proof {
                lemma_pow2_pos(s as nat);
            }
            b.mant % p == 0
        }
    }
}

/// Compares two numbers by their mathematical values.
pub fn num_cmp(a: &Value, b: &Value) -> (c: Cmp)
    requires
        a@.is_number(),
        b@.is_number(),
        a@.wf(),
        b@.wf(),
    ensures
        (c is Less) <==> a@.num() < b@.num(),
        (c is Equal) <==> a@.num() == b@.num(),
        (c is Greater) <==> a@.num() > b@.num(),
{
    let (n1, m1, e1) = num_parts(a);
    let (n2, m2, e2) = num_parts(b);
    cmp_scaled(n1, m1, e1, n2, m2, e2)
}

} // verus!
