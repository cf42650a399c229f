//! Exact ordering of numbers drawn from integer and IEEE-754 binary encodings.
use vstd::arithmetic::power2::*;
use vstd::arithmetic::mul::*;
use vstd::prelude::*;
use std::cmp::Ordering;

verus! {

/// The mathematical value of a number: NaN, an infinity, or `mantissa * 2^exponent`.
pub enum Num {
    NaN,
    NegInf,
    PosInf,
    Finite(int, int),
}

/// `m * 2^(e - base)`, the value scaled so that it is an integer for `base <= e`.
pub open spec fn scaled(m: int, e: int, base: int) -> int {
    m * pow2((e - base) as nat) as int
}

pub open spec fn min_int(a: int, b: int) -> int {
    if a <= b { a } else { b }
}

/// Both values are finite and `m1 * 2^e1 < m2 * 2^e2`.
pub open spec fn finite_lt(m1: int, e1: int, m2: int, e2: int) -> bool {
    scaled(m1, e1, min_int(e1, e2)) < scaled(m2, e2, min_int(e1, e2))
}

pub open spec fn finite_eq(m1: int, e1: int, m2: int, e2: int) -> bool {
    scaled(m1, e1, min_int(e1, e2)) == scaled(m2, e2, min_int(e1, e2))
}

/// `a < b` for real numbers extended with infinities; NaN is ordered with nothing.
pub open spec fn num_lt(a: Num, b: Num) -> bool {
    match (a, b) {
        (Num::NaN, _) => false,
        (_, Num::NaN) => false,
        (Num::NegInf, Num::NegInf) => false,
        (Num::NegInf, _) => true,
        (_, Num::NegInf) => false,
        (Num::PosInf, _) => false,
        (_, Num::PosInf) => true,
        (Num::Finite(m1, e1), Num::Finite(m2, e2)) => finite_lt(m1, e1, m2, e2),
    }
}

/// `a == b` for real numbers extended with infinities; NaN equals nothing, not even itself.
pub open spec fn num_eq(a: Num, b: Num) -> bool {
    match (a, b) {
        (Num::NegInf, Num::NegInf) => true,
        (Num::PosInf, Num::PosInf) => true,
        (Num::Finite(m1, e1), Num::Finite(m2, e2)) => finite_eq(m1, e1, m2, e2),
        _ => false,
    }
}

pub open spec fn is_nan(a: Num) -> bool {
    a is NaN
}

/// The value encoded by the IEEE-754 binary64 bit pattern `bits`.
pub open spec fn f64_value(bits: u64) -> Num {
    let exp = (bits / 0x10_0000_0000_0000) % 0x800;
    let frac = bits % 0x10_0000_0000_0000;
    let neg = bits >= 0x8000_0000_0000_0000;
    if exp == 0x7ff {
        if frac != 0 {
            Num::NaN
        } else if neg {
            Num::NegInf
        } else {
            Num::PosInf
        }
    } else {
        let mag: int = if exp == 0 { frac as int } else { frac + 0x10_0000_0000_0000 };
        let e: int = if exp == 0 { -1074 } else { exp - 1075 };
        Num::Finite(if neg { -mag } else { mag }, e)
    }
}

/// The value encoded by the IEEE-754 binary32 bit pattern `bits`.
pub open spec fn f32_value(bits: u32) -> Num {
    let exp = (bits / 0x80_0000) % 0x100;
    let frac = bits % 0x80_0000;
    let neg = bits >= 0x8000_0000;
    if exp == 0xff {
        if frac != 0 {
            Num::NaN
        } else if neg {
            Num::NegInf
        } else {
            Num::PosInf
        }
    } else {
        let mag: int = if exp == 0 { frac as int } else { frac + 0x80_0000 };
        let e: int = if exp == 0 { -149 } else { exp - 150 };
        Num::Finite(if neg { -mag } else { mag }, e)
    }
}

/// A number in executable form: a finite value is `(-1)^neg * mag * 2^exp`.
pub enum Number {
    NaN,
    NegInf,
    PosInf,
    Finite { neg: bool, mag: u64, exp: i32 },
}

impl Number {
    pub open spec fn model(self) -> Num {
        match self {
            Number::NaN => Num::NaN,
            Number::NegInf => Num::NegInf,
            Number::PosInf => Num::PosInf,
            Number::Finite { neg, mag, exp } => Num::Finite(
                if neg { -(mag as int) } else { mag as int },
                exp as int,
            ),
        }
    }
}

pub fn number_from_int(v: i128) -> (r: Number)
    requires
        -0x8000_0000_0000_0000 <= v <= 0xffff_ffff_ffff_ffff,
    ensures
        r.model() == Num::Finite(v as int, 0),
{
    if v < 0 {
        Number::Finite { neg: true, mag: (-v) as u64, exp: 0 }
    } else {
        Number::Finite { neg: false, mag: v as u64, exp: 0 }
    }
}

pub fn number_from_f64_bits(bits: u64) -> (r: Number)
    ensures
        r.model() == f64_value(bits),
{
    let exp: u64 = (bits / 0x10_0000_0000_0000) % 0x800;
    let frac: u64 = bits % 0x10_0000_0000_0000;
    let neg = bits >= 0x8000_0000_0000_0000;
    if exp == 0x7ff {
        if frac != 0 {
            Number::NaN
        } else if neg {
            Number::NegInf
        } else {
            Number::PosInf
        }
    } else if exp == 0 {
        Number::Finite { neg, mag: frac, exp: -1074 }
    } else {
        Number::Finite { neg, mag: frac + 0x10_0000_0000_0000, exp: exp as i32 - 1075 }
    }
}

pub fn number_from_f32_bits(bits: u32) -> (r: Number)
    ensures
        r.model() == f32_value(bits),
{
    let exp: u32 = (bits / 0x80_0000) % 0x100;
    let frac: u32 = bits % 0x80_0000;
    let neg = bits >= 0x8000_0000;
    if exp == 0xff {
        if frac != 0 {
            Number::NaN
        } else if neg {
            Number::NegInf
        } else {
            Number::PosInf
        }
    } else if exp == 0 {
        Number::Finite { neg, mag: frac as u64, exp: -149 }
    } else {
        Number::Finite { neg, mag: (frac + 0x80_0000) as u64, exp: exp as i32 - 150 }
    }
}


/// Number of binary digits of `x` (zero has none).
pub open spec fn bit_len(x: nat) -> nat
    decreases x,
{
    if x == 0 {
        0
    } else {
        1 + bit_len(x / 2)
    }
}

proof fn lemma_bit_len_bounds(x: nat)
    requires
        x > 0,
    ensures
        bit_len(x) >= 1,
        pow2((bit_len(x) - 1) as nat) <= x,
        x < pow2(bit_len(x)),
    decreases x,
{
    lemma2_to64();
    reveal_with_fuel(bit_len, 2);
    if x > 1 {
        lemma_bit_len_bounds(x / 2);
        let k = bit_len(x / 2);
        assert(bit_len(x) == k + 1);
        lemma_pow2_unfold(k);
        lemma_pow2_unfold(k + 1);
        assert(pow2((k - 1) as nat) <= x / 2);
        assert(x / 2 < pow2(k));
    }
}

proof fn lemma_bit_len_at_most(x: nat, k: nat)
    requires
        x < pow2(k),
    ensures
        bit_len(x) <= k,
    decreases x,
{
    if x > 0 {
        lemma2_to64();
        if k == 0 {
            assert(false);
        } else {
            lemma_pow2_unfold(k);
            lemma_bit_len_at_most(x / 2, (k - 1) as nat);
        }
    }
}

fn bit_length(x: u64) -> (r: u32)
    ensures
        r as nat == bit_len(x as nat),
        r <= 64,
{
    proof {
        lemma2_to64();
        lemma_bit_len_at_most(x as nat, 64);
    }
    let mut y: u64 = x;
    let mut n: u32 = 0;
    while y > 0
        invariant
            n + bit_len(y as nat) == bit_len(x as nat),
            bit_len(x as nat) <= 64,
        decreases y,
    {
        y = y / 2;
        n = n + 1;
    }
    n
}

/// A number whose leading binary digit stands higher than another's is the larger.
proof fn lemma_leading_digit_decides(m1: nat, e1: int, m2: nat, e2: int)
    requires
        m1 > 0,
        m2 > 0,
        bit_len(m1) + e1 > bit_len(m2) + e2,
    ensures
        finite_lt(m2 as int, e2, m1 as int, e1),
{
    let base = min_int(e2, e1);
    let b1 = bit_len(m1);
    let b2 = bit_len(m2);
    lemma_bit_len_bounds(m1);
    lemma_bit_len_bounds(m2);
    let d1 = (e1 - base) as nat;
    let d2 = (e2 - base) as nat;
    lemma_pow2_pos(d2);
    lemma_mul_strict_inequality(m2 as int, pow2(b2) as int, pow2(d2) as int);
    lemma_mul_inequality(pow2((b1 - 1) as nat) as int, m1 as int, pow2(d1) as int);
    lemma_pow2_adds(b2, d2);
    lemma_pow2_adds((b1 - 1) as nat, d1);
    if b2 + d2 < (b1 - 1) + d1 {
        lemma_pow2_strictly_increases(b2 + d2, ((b1 - 1) + d1) as nat);
    }
}

/// `m * 2^d`, where the product fits in 64 bits.
fn scale_up(m: u64, d: u32) -> (r: u64)
    requires
        m > 0,
        bit_len(m as nat) + d <= 64,
    ensures
        r as int == m as int * pow2(d as nat) as int,
{
    proof {
        lemma2_to64();
        lemma_bit_len_bounds(m as nat);
    }
    let mut p: u64 = 1;
    let mut k: u32 = 0;
    while k < d
        invariant
            k <= d,
            d <= 63,
            p as int == pow2(k as nat),
        decreases d - k,
    {
        proof {
            lemma2_to64_rest();
            lemma_pow2_unfold((k + 1) as nat);
            if k + 1 < 63 {
                lemma_pow2_strictly_increases((k + 1) as nat, 63);
            }
            assert(p * 2 == pow2((k + 1) as nat));
            assert(p * 2 <= 0x8000_0000_0000_0000);
        }
        p = p * 2;
        k = k + 1;
    }
    proof {
        let b = bit_len(m as nat);
        lemma_pow2_pos(d as nat);
        lemma_mul_strict_inequality(m as int, pow2(b) as int, pow2(d as nat) as int);
        lemma_pow2_adds(b, d as nat);
        if b + d < 64 {
            lemma_pow2_strictly_increases(b + d as nat, 64);
        }
    }
    m * p
}

/// Orders `m1 * 2^e1` against `m2 * 2^e2` for positive mantissas.
fn cmp_magnitude(m1: u64, e1: i32, m2: u64, e2: i32) -> (r: Ordering)
    requires
        m1 > 0,
        m2 > 0,
    ensures
        (r == Ordering::Less) == finite_lt(m1 as int, e1 as int, m2 as int, e2 as int),
        (r == Ordering::Equal) == finite_eq(m1 as int, e1 as int, m2 as int, e2 as int),
        (r == Ordering::Greater) == finite_lt(m2 as int, e2 as int, m1 as int, e1 as int),
{
    let b1 = bit_length(m1);
    let b2 = bit_length(m2);
    let t1: i64 = b1 as i64 + e1 as i64;
    let t2: i64 = b2 as i64 + e2 as i64;
    if t1 > t2 {
        proof {
            lemma_leading_digit_decides(m1 as nat, e1 as int, m2 as nat, e2 as int);
        }
        Ordering::Greater
    } else if t1 < t2 {
        proof {
            lemma_leading_digit_decides(m2 as nat, e2 as int, m1 as nat, e1 as int);
        }
        Ordering::Less
    } else if e1 >= e2 {
        let d: u32 = (e1 as i64 - e2 as i64) as u32;
        let x = scale_up(m1, d);
        proof {
            lemma2_to64();
            assert((e2 as int - e2 as int) as nat == 0);
            assert(pow2(0) == 1);
            assert(scaled(m2 as int, e2 as int, e2 as int) == m2 as int);
        }
        if x < m2 {
            Ordering::Less
        } else if x == m2 {
            Ordering::Equal
        } else {
            Ordering::Greater
        }
    } else {
        let d: u32 = (e2 as i64 - e1 as i64) as u32;
        let y = scale_up(m2, d);
        proof {
            lemma2_to64();
            assert((e1 as int - e1 as int) as nat == 0);
            assert(pow2(0) == 1);
            assert(scaled(m1 as int, e1 as int, e1 as int) == m1 as int);
        }
        if m1 < y {
            Ordering::Less
        } else if m1 == y {
            Ordering::Equal
        } else {
            Ordering::Greater
        }
    }
}

proof fn lemma_scaled_sign(m: int, e: int, base: int)
    ensures
        m > 0 ==> scaled(m, e, base) > 0,
        m == 0 ==> scaled(m, e, base) == 0,
        m < 0 ==> scaled(m, e, base) < 0,
        scaled(-m, e, base) == -scaled(m, e, base),
{
    let p = pow2((e - base) as nat) as int;
    lemma_pow2_pos((e - base) as nat);
    assert(m > 0 ==> m * p > 0) by (nonlinear_arith)
        requires
            p > 0,
    ;
    assert(m < 0 ==> m * p < 0) by (nonlinear_arith)
        requires
            p > 0,
    ;
    assert((-m) * p == -(m * p)) by (nonlinear_arith);
}

/// Orders two numbers by value; `None` when either is NaN, which is ordered with nothing.
pub fn cmp_numbers(a: &Number, b: &Number) -> (r: Option<Ordering>)
    ensures
        (r is None) == (is_nan(a.model()) || is_nan(b.model())),
        (r == Some(Ordering::Less)) == num_lt(a.model(), b.model()),
        (r == Some(Ordering::Equal)) == num_eq(a.model(), b.model()),
        (r == Some(Ordering::Greater)) == num_lt(b.model(), a.model()),
{
    match (a, b) {
        (Number::NaN, _) => None,
        (_, Number::NaN) => None,
        (Number::NegInf, Number::NegInf) => Some(Ordering::Equal),
        (Number::NegInf, _) => Some(Ordering::Less),
        (_, Number::NegInf) => Some(Ordering::Greater),
        (Number::PosInf, Number::PosInf) => Some(Ordering::Equal),
        (Number::PosInf, _) => Some(Ordering::Greater),
        (_, Number::PosInf) => Some(Ordering::Less),
        (
            Number::Finite { neg: n1, mag: m1, exp: e1 },
            Number::Finite { neg: n2, mag: m2, exp: e2 },
        ) => {
            let s1: i8 = if *m1 == 0 { 0 } else if *n1 { -1 } else { 1 };
            let s2: i8 = if *m2 == 0 { 0 } else if *n2 { -1 } else { 1 };
            proof {
                let base = min_int(*e1 as int, *e2 as int);
                lemma_scaled_sign(*m1 as int, *e1 as int, base);
                lemma_scaled_sign(*m2 as int, *e2 as int, base);
                lemma_scaled_sign(-(*m1 as int), *e1 as int, base);
                lemma_scaled_sign(-(*m2 as int), *e2 as int, base);
            }
            if s1 < s2 {
                Some(Ordering::Less)
            } else if s1 > s2 {
                Some(Ordering::Greater)
            } else if s1 == 0 {
                Some(Ordering::Equal)
            } else if s1 > 0 {
                Some(cmp_magnitude(*m1, *e1, *m2, *e2))
            } else {
                let o = cmp_magnitude(*m1, *e1, *m2, *e2);
                match o {
                    Ordering::Less => Some(Ordering::Greater),
                    Ordering::Equal => Some(Ordering::Equal),
                    Ordering::Greater => Some(Ordering::Less),
                }
            }
        },
    }
}

} // verus!
