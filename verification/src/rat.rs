//! Exact rational numbers over `i64`, the scalar type of all geometry here.
//!
//! A `Rat` holds `num / den` with `den > 0`.  Arithmetic is exact: operands
//! are combined in `i128` (where no product of two `i64` values can
//! overflow), reduced by the greatest common divisor, and handed back as a
//! `Rat` when the reduced fraction fits in `i64`, or `None` when it does not.
//! Comparisons are exact cross-multiplications and never fail.

use vstd::prelude::*;

verus! {

/// A rational number `num / den`.  Well-formed values have `den > 0`.
#[derive(Clone, Copy, Debug, PartialEq, Eq, Structural)]
pub struct Rat {
    pub num: i64,
    pub den: i64,
}

impl Rat {
    /// Well-formedness: the denominator is strictly positive.
    pub open spec fn wf(self) -> bool {
        self.den > 0
    }
}

/// The absolute value of `n`, as a natural number.
pub open spec fn abs_n(n: int) -> nat {
    if n < 0 { (-n) as nat } else { n as nat }
}

/// Euclid's greatest common divisor.
pub open spec fn gcd(a: nat, b: nat) -> nat
    decreases b,
{
    if b == 0 {
        a
    } else {
        gcd(b, a % b)
    }
}

/// The reduced form of `n / d` (for `d > 0`): both parts are divided by
/// their greatest common divisor, and the result is `Some` exactly when the
/// reduced numerator and denominator fit in `i64`.
pub open spec fn mk(n: int, d: int) -> Option<Rat> {
    let g: int = gcd(d as nat, abs_n(n)) as int;
    let m: int = abs_n(n) as int / g;
    let rn: int = if n < 0 { -m } else { m };
    let rd: int = (d as nat) as int / g;
    if i64::MIN <= rn && rn <= i64::MAX && 0 < rd && rd <= i64::MAX {
        Some(Rat { num: rn as i64, den: rd as i64 })
    } else {
        None
    }
}

/// Exact equality of the fractions `a` and `b` (for well-formed values).
pub open spec fn eq_frac(a: Rat, b: Rat) -> bool {
    a.num * b.den == b.num * a.den
}

/// `a <= b` as fractions (for well-formed values).
pub open spec fn le_frac(a: Rat, b: Rat) -> bool {
    a.num * b.den <= b.num * a.den
}

/// `a < b` as fractions (for well-formed values).
pub open spec fn lt_frac(a: Rat, b: Rat) -> bool {
    a.num * b.den < b.num * a.den
}

/// The exact sum, reduced, or `None` when it leaves `i64`.
pub open spec fn add_spec(a: Rat, b: Rat) -> Option<Rat> {
    mk(a.num * b.den + b.num * a.den, a.den * b.den)
}

/// The exact difference, reduced, or `None` when it leaves `i64`.
pub open spec fn sub_spec(a: Rat, b: Rat) -> Option<Rat> {
    mk(a.num * b.den - b.num * a.den, a.den * b.den)
}

/// The exact product, reduced, or `None` when it leaves `i64`.
pub open spec fn mul_spec(a: Rat, b: Rat) -> Option<Rat> {
    mk(a.num * b.num, a.den * b.den)
}

/// The exact reciprocal, reduced, with the sign kept on the numerator;
/// `None` for zero or when the result leaves `i64`.
pub open spec fn inv_spec(a: Rat) -> Option<Rat> {
    if a.num > 0 {
        mk(a.den as int, a.num as int)
    } else if a.num < 0 {
        mk(-(a.den as int), -(a.num as int))
    } else {
        None
    }
}

/// The smaller of two fractions, `a` on ties.
pub open spec fn min_spec(a: Rat, b: Rat) -> Rat {
    if le_frac(a, b) { a } else { b }
}

/// The larger of two fractions, `a` on ties.
pub open spec fn max_spec(a: Rat, b: Rat) -> Rat {
    if le_frac(b, a) { a } else { b }
}

proof fn lemma_mul_bounds(a: int, b: int, abound: int, bbound: int)
    by (nonlinear_arith)
    requires
        -abound <= a <= abound,
        -bbound <= b <= bbound,
        0 <= abound,
        0 <= bbound,
    ensures
        -(abound * bbound) <= a * b <= abound * bbound,
{
}

proof fn lemma_pos_mul(a: int, b: int)
    by (nonlinear_arith)
    requires
        0 < a,
        0 < b,
    ensures
        0 < a * b,
{
}

proof fn lemma_gcd_divides(a: nat, b: nat)
    requires
        a > 0 || b > 0,
    ensures
        gcd(a, b) > 0,
        a % gcd(a, b) == 0,
        b % gcd(a, b) == 0,
    decreases b,
{
    if b == 0 {
        assert(1 * (a as int) == a as int);
        assert((1 * (a as int)) % (a as int) == 0) by {
            vstd::arithmetic::div_mod::lemma_mod_multiples_basic(1, a as int);
        }
        assert((0 * (a as int)) % (a as int) == 0) by {
            vstd::arithmetic::div_mod::lemma_mod_multiples_basic(0, a as int);
        }
    } else {
        lemma_gcd_divides(b, a % b);
        let g: int = gcd(b, a % b) as int;
        let ai: int = a as int;
        let bi: int = b as int;
        vstd::arithmetic::div_mod::lemma_fundamental_div_mod(ai, bi);
        vstd::arithmetic::div_mod::lemma_fundamental_div_mod(bi, g);
        vstd::arithmetic::div_mod::lemma_fundamental_div_mod(ai % bi, g);
        let kb: int = bi / g;
        let kr: int = (ai % bi) / g;
        assert(ai == ((ai / bi) * kb + kr) * g) by (nonlinear_arith)
            requires
                ai == bi * (ai / bi) + (ai % bi),
                bi == g * kb + 0,
                ai % bi == g * kr + 0,
        {
        }
        assert((((ai / bi) * kb + kr) * g) % g == 0) by {
            vstd::arithmetic::div_mod::lemma_mod_multiples_basic((ai / bi) * kb + kr, g);
        }
    }
}

/// Reduction by the greatest common divisor keeps the fraction's value:
/// when `mk(n, d)` yields a rational, that rational stands for exactly
/// `n / d`.
pub proof fn lemma_mk_keeps_value(n: int, d: int)
    requires
        d > 0,
        mk(n, d) is Some,
    ensures
        mk(n, d).unwrap().wf(),
        mk(n, d).unwrap().num * d == n * mk(n, d).unwrap().den,
{
    let g: int = gcd(d as nat, abs_n(n)) as int;
    lemma_gcd_divides(d as nat, abs_n(n));
    let m: int = abs_n(n) as int;
    vstd::arithmetic::div_mod::lemma_fundamental_div_mod(d, g);
    vstd::arithmetic::div_mod::lemma_fundamental_div_mod(m, g);
    let kd: int = d / g;
    let km: int = m / g;
    assert(km * (g * kd) == (g * km) * kd) by (nonlinear_arith);
    assert((-km) * (g * kd) == (-(g * km)) * kd) by (nonlinear_arith);
}

proof fn lemma_gcd_pos(a: nat, b: nat)
    requires
        a > 0 || b > 0,
    ensures
        gcd(a, b) > 0,
    decreases b,
{
    if b != 0 {
        lemma_gcd_pos(b, a % b);
    }
}

/// Euclid's algorithm on machine words; agrees with the spec-level `gcd`.
fn gcd_u128(a0: u128, b0: u128) -> (r: u128)
    ensures
        r as nat == gcd(a0 as nat, b0 as nat),
{
    let mut a: u128 = a0;
    let mut b: u128 = b0;
    while b != 0
        invariant
            gcd(a as nat, b as nat) == gcd(a0 as nat, b0 as nat),
        decreases b,
    {
        let t: u128 = a % b;
        a = b;
        b = t;
    }
    a
}

/// Reduces `n / d` and packs it into a `Rat` when it fits.
fn norm128(n: i128, d: i128) -> (r: Option<Rat>)
    requires
        0 < d,
        i128::MIN < n,
    ensures
        r == mk(n as int, d as int),
        r matches Some(q) ==> q.wf() && q.num * (d as int) == (n as int) * q.den,
{
    proof {
        if mk(n as int, d as int) is Some {
            lemma_mk_keeps_value(n as int, d as int);
        }
    }
    let m: u128 = if n < 0 { (-n) as u128 } else { n as u128 };
    let du: u128 = d as u128;
    let g: u128 = gcd_u128(du, m);
    proof {
        lemma_gcd_pos(du as nat, m as nat);
    }
    let q: u128 = m / g;
    let rdu: u128 = du / g;
    if rdu == 0 || rdu > i64::MAX as u128 {
        return None;
    }
    if n < 0 {
        if q > (i64::MAX as u128) + 1 {
            return None;
        }
        let num: i64 = if q == (i64::MAX as u128) + 1 {
            i64::MIN
        } else {
            -(q as i64)
        };
        Some(Rat { num, den: rdu as i64 })
    } else {
        if q > i64::MAX as u128 {
            return None;
        }
        Some(Rat { num: q as i64, den: rdu as i64 })
    }
}

impl Rat {
    /// Builds the reduced rational `num / den`.
    pub fn new(num: i64, den: i64) -> (r: Option<Rat>)
        requires
            den > 0,
        ensures
            r == mk(num as int, den as int),
            r matches Some(q) ==> q.wf() && q.num * den == num * q.den,
    {
        norm128(num as i128, den as i128)
    }

    /// The rational with value `v`.
    pub fn from_int(v: i64) -> (r: Rat)
        ensures
            r == (Rat { num: v, den: 1 }),
            r.wf(),
    {
        Rat { num: v, den: 1 }
    }

    /// Exact addition; `None` when the reduced result leaves `i64`.
    pub fn checked_add(self, other: Rat) -> (r: Option<Rat>)
        requires
            self.wf(),
            other.wf(),
        ensures
            r == add_spec(self, other),
            r matches Some(q) ==> q.wf() && q.num * (self.den * other.den) == (self.num
                * other.den + other.num * self.den) * q.den,
    {
        proof {
            lemma_mul_bounds(self.num as int, other.den as int, 0x8000_0000_0000_0000, 0x7fff_ffff_ffff_ffff);
            lemma_mul_bounds(other.num as int, self.den as int, 0x8000_0000_0000_0000, 0x7fff_ffff_ffff_ffff);
            lemma_pos_mul(self.den as int, other.den as int);
            lemma_mul_bounds(self.den as int, other.den as int, 0x8000_0000_0000_0000, 0x7fff_ffff_ffff_ffff);
        }
        let n: i128 = (self.num as i128) * (other.den as i128) + (other.num as i128) * (self.den as i128);
        let d: i128 = (self.den as i128) * (other.den as i128);
        norm128(n, d)
    }

    /// Exact subtraction; `None` when the reduced result leaves `i64`.
    pub fn checked_sub(self, other: Rat) -> (r: Option<Rat>)
        requires
            self.wf(),
            other.wf(),
        ensures
            r == sub_spec(self, other),
            r matches Some(q) ==> q.wf() && q.num * (self.den * other.den) == (self.num
                * other.den - other.num * self.den) * q.den,
    {
        proof {
            lemma_mul_bounds(self.num as int, other.den as int, 0x8000_0000_0000_0000, 0x7fff_ffff_ffff_ffff);
            lemma_mul_bounds(other.num as int, self.den as int, 0x8000_0000_0000_0000, 0x7fff_ffff_ffff_ffff);
            lemma_pos_mul(self.den as int, other.den as int);
            lemma_mul_bounds(self.den as int, other.den as int, 0x8000_0000_0000_0000, 0x7fff_ffff_ffff_ffff);
        }
        let n: i128 = (self.num as i128) * (other.den as i128) - (other.num as i128) * (self.den as i128);
        let d: i128 = (self.den as i128) * (other.den as i128);
        norm128(n, d)
    }

    /// Exact multiplication; `None` when the reduced result leaves `i64`.
    pub fn checked_mul(self, other: Rat) -> (r: Option<Rat>)
        requires
            self.wf(),
            other.wf(),
        ensures
            r == mul_spec(self, other),
            r matches Some(q) ==> q.wf() && q.num * (self.den * other.den) == (self.num
                * other.num) * q.den,
    {
        proof {
            lemma_mul_bounds(self.num as int, other.num as int, 0x8000_0000_0000_0000, 0x8000_0000_0000_0000);
            lemma_pos_mul(self.den as int, other.den as int);
            lemma_mul_bounds(self.den as int, other.den as int, 0x8000_0000_0000_0000, 0x7fff_ffff_ffff_ffff);
        }
        let n: i128 = (self.num as i128) * (other.num as i128);
        let d: i128 = (self.den as i128) * (other.den as i128);
        norm128(n, d)
    }

    /// Exact reciprocal; `None` for zero or when the result leaves `i64`.
    pub fn checked_inv(self) -> (r: Option<Rat>)
        requires
            self.wf(),
        ensures
            r == inv_spec(self),
            r matches Some(q) ==> q.wf() && q.num * self.num == self.den * q.den,
    {
        if self.num > 0 {
            norm128(self.den as i128, self.num as i128)
        } else if self.num < 0 {
            let r: Option<Rat> = norm128(-(self.den as i128), -(self.num as i128));
            proof {
                if r is Some {
                    let q = r.unwrap();
                    assert(q.num * self.num == self.den * q.den) by (nonlinear_arith)
                        requires
                            q.num * (-(self.num as int)) == (-(self.den as int)) * q.den,
                    {
                    }
                }
            }
            r
        } else {
            None
        }
    }

    /// `self <= other` as fractions.
    pub fn le(self, other: Rat) -> (r: bool)
        ensures
            r == le_frac(self, other),
    {
        proof {
            lemma_mul_bounds(self.num as int, other.den as int, 0x8000_0000_0000_0000, 0x8000_0000_0000_0000);
            lemma_mul_bounds(other.num as int, self.den as int, 0x8000_0000_0000_0000, 0x8000_0000_0000_0000);
        }
        (self.num as i128) * (other.den as i128) <= (other.num as i128) * (self.den as i128)
    }

    /// `self < other` as fractions.
    pub fn lt(self, other: Rat) -> (r: bool)
        ensures
            r == lt_frac(self, other),
    {
        proof {
            lemma_mul_bounds(self.num as int, other.den as int, 0x8000_0000_0000_0000, 0x8000_0000_0000_0000);
            lemma_mul_bounds(other.num as int, self.den as int, 0x8000_0000_0000_0000, 0x8000_0000_0000_0000);
        }
        (self.num as i128) * (other.den as i128) < (other.num as i128) * (self.den as i128)
    }

    /// Exact equality of the fractions.
    pub fn is_eq(self, other: Rat) -> (r: bool)
        ensures
            r == eq_frac(self, other),
    {
        proof {
            lemma_mul_bounds(self.num as int, other.den as int, 0x8000_0000_0000_0000, 0x8000_0000_0000_0000);
            lemma_mul_bounds(other.num as int, self.den as int, 0x8000_0000_0000_0000, 0x8000_0000_0000_0000);
        }
        (self.num as i128) * (other.den as i128) == (other.num as i128) * (self.den as i128)
    }

    /// The smaller fraction, `self` on ties.
    pub fn min_r(self, other: Rat) -> (r: Rat)
        ensures
            r == min_spec(self, other),
    {
        if self.le(other) { self } else { other }
    }

    /// The larger fraction, `self` on ties.
    pub fn max_r(self, other: Rat) -> (r: Rat)
        ensures
            r == max_spec(self, other),
    {
        if other.le(self) { self } else { other }
    }
}

} // verus!
