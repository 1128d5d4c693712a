//! Two-component vectors of exact rationals.

use vstd::prelude::*;

use crate::rat::Rat;
use crate::rat::add_spec;
use crate::rat::sub_spec;
use crate::rat::mul_spec;
use crate::rat::eq_frac;

verus! {

/// A 2D point or vector with exact rational components.
#[derive(Clone, Copy, Debug, PartialEq, Eq, Structural)]
pub struct Vec2 {
    pub x: Rat,
    pub y: Rat,
}

impl Vec2 {
    /// Both components are well-formed rationals.
    pub open spec fn wf(self) -> bool {
        self.x.wf() && self.y.wf()
    }
}

/// Componentwise sum; `None` when either component leaves `i64`.
pub open spec fn add2_spec(a: Vec2, b: Vec2) -> Option<Vec2> {
    match (add_spec(a.x, b.x), add_spec(a.y, b.y)) {
        (Some(x), Some(y)) => Some(Vec2 { x, y }),
        _ => None,
    }
}

/// Componentwise difference; `None` when either component leaves `i64`.
pub open spec fn sub2_spec(a: Vec2, b: Vec2) -> Option<Vec2> {
    match (sub_spec(a.x, b.x), sub_spec(a.y, b.y)) {
        (Some(x), Some(y)) => Some(Vec2 { x, y }),
        _ => None,
    }
}

/// Componentwise product; `None` when either component leaves `i64`.
pub open spec fn mul2_spec(a: Vec2, b: Vec2) -> Option<Vec2> {
    match (mul_spec(a.x, b.x), mul_spec(a.y, b.y)) {
        (Some(x), Some(y)) => Some(Vec2 { x, y }),
        _ => None,
    }
}

/// The vector scaled by `s`; `None` when either component leaves `i64`.
pub open spec fn scale_spec(a: Vec2, s: Rat) -> Option<Vec2> {
    match (mul_spec(a.x, s), mul_spec(a.y, s)) {
        (Some(x), Some(y)) => Some(Vec2 { x, y }),
        _ => None,
    }
}

/// Exact equality of both components as fractions.
pub open spec fn eq2_frac(a: Vec2, b: Vec2) -> bool {
    eq_frac(a.x, b.x) && eq_frac(a.y, b.y)
}

impl Vec2 {
    /// Builds a vector from its two components.
    pub fn new(x: Rat, y: Rat) -> (r: Vec2)
        ensures
            r == (Vec2 { x, y }),
    {
        Vec2 { x, y }
    }

    /// Componentwise addition.
    pub fn cw_add(self, other: Vec2) -> (r: Option<Vec2>)
        requires
            self.wf(),
            other.wf(),
        ensures
            r == add2_spec(self, other),
            r matches Some(v) ==> v.wf(),
    {
        match (self.x.checked_add(other.x), self.y.checked_add(other.y)) {
            (Some(x), Some(y)) => Some(Vec2 { x, y }),
            _ => None,
        }
    }

    /// Componentwise subtraction.
    pub fn cw_sub(self, other: Vec2) -> (r: Option<Vec2>)
        requires
            self.wf(),
            other.wf(),
        ensures
            r == sub2_spec(self, other),
            r matches Some(v) ==> v.wf(),
    {
        match (self.x.checked_sub(other.x), self.y.checked_sub(other.y)) {
            (Some(x), Some(y)) => Some(Vec2 { x, y }),
            _ => None,
        }
    }

    /// Componentwise multiplication.
    pub fn cw_mul(self, other: Vec2) -> (r: Option<Vec2>)
        requires
            self.wf(),
            other.wf(),
        ensures
            r == mul2_spec(self, other),
            r matches Some(v) ==> v.wf(),
    {
        match (self.x.checked_mul(other.x), self.y.checked_mul(other.y)) {
            (Some(x), Some(y)) => Some(Vec2 { x, y }),
            _ => None,
        }
    }

    /// Scaling by a rational scalar.
    pub fn scale(self, s: Rat) -> (r: Option<Vec2>)
        requires
            self.wf(),
            s.wf(),
        ensures
            r == scale_spec(self, s),
            r matches Some(v) ==> v.wf(),
    {
        match (self.x.checked_mul(s), self.y.checked_mul(s)) {
            (Some(x), Some(y)) => Some(Vec2 { x, y }),
            _ => None,
        }
    }

    /// Exact equality of both components as fractions.
    pub fn is_eq2(self, other: Vec2) -> (r: bool)
        ensures
            r == eq2_frac(self, other),
    {
        self.x.is_eq(other.x) && self.y.is_eq(other.y)
    }
}

} // verus!
