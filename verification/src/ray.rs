//! Rays: an origin, a direction clamped away from zero, and the cached
//! componentwise reciprocal of the direction.

use vstd::prelude::*;

use crate::rat::Rat;
use crate::rat::inv_spec;
use crate::rat::le_frac;
use crate::rat::lt_frac;
use crate::vec2::Vec2;

verus! {

/// A ray through 2D space.
///
/// The direction keeps the sign of each requested component but its
/// magnitude is clamped to at least `1/100`, so the componentwise
/// reciprocal is always defined.
#[derive(Clone, Copy, Debug)]
pub struct Ray {
    pub origin: Vec2,
    pub direction: Vec2,
    pub inverse_direction: Vec2,
}

/// The rational zero.
pub open spec fn zero_r() -> Rat {
    Rat { num: 0, den: 1 }
}

/// The clamping threshold `1/100` for direction components.
pub open spec fn eps_r() -> Rat {
    Rat { num: 1, den: 100 }
}

/// The negated clamping threshold `-1/100`.
pub open spec fn neg_eps_r() -> Rat {
    Rat { num: -1i64, den: 100 }
}

/// One direction component after clamping: the magnitude is raised to at
/// least `1/100`, the sign is kept (zero counts as positive).
pub open spec fn clamp_spec(v: Rat) -> Rat {
    if lt_frac(v, zero_r()) {
        if lt_frac(neg_eps_r(), v) { neg_eps_r() } else { v }
    } else {
        if lt_frac(v, eps_r()) { eps_r() } else { v }
    }
}

/// The ray built from an origin and a raw direction: the direction is
/// clamped componentwise, and the inverse direction is its componentwise
/// reciprocal.  `None` when a reciprocal does not fit in `i64`.
pub open spec fn make_spec(origin: Vec2, direction: Vec2) -> Option<Ray> {
    let d = Vec2 { x: clamp_spec(direction.x), y: clamp_spec(direction.y) };
    match (inv_spec(d.x), inv_spec(d.y)) {
        (Some(ix), Some(iy)) => Some(
            Ray { origin, direction: d, inverse_direction: Vec2 { x: ix, y: iy } },
        ),
        _ => None,
    }
}

proof fn lemma_clamp_away_from_zero(v: Rat)
    requires
        v.wf(),
    ensures
        clamp_spec(v).wf(),
        le_frac(eps_r(), clamp_spec(v)) || le_frac(clamp_spec(v), neg_eps_r()),
        clamp_spec(v).num != 0,
{
}

fn clamp(v: Rat) -> (r: Rat)
    requires
        v.wf(),
    ensures
        r == clamp_spec(v),
        r.wf(),
{
    let zero: Rat = Rat { num: 0, den: 1 };
    let eps: Rat = Rat { num: 1, den: 100 };
    let neg_eps: Rat = Rat { num: -1, den: 100 };
    if v.lt(zero) {
        if neg_eps.lt(v) { neg_eps } else { v }
    } else {
        if v.lt(eps) { eps } else { v }
    }
}

impl Ray {
    /// All three vectors are well-formed.
    pub open spec fn wf(self) -> bool {
        self.origin.wf() && self.direction.wf() && self.inverse_direction.wf()
    }

    /// Builds a ray.  The direction need not be normalized; each component
    /// is clamped so its magnitude is at least `1/100` with its sign kept,
    /// which makes the componentwise reciprocal finite.
    pub fn new(origin: Vec2, direction: Vec2) -> (r: Option<Ray>)
        requires
            origin.wf(),
            direction.wf(),
        ensures
            r == make_spec(origin, direction),
            r matches Some(ray) ==> {
                &&& ray.wf()
                &&& ray.origin == origin
                &&& le_frac(eps_r(), ray.direction.x) || le_frac(ray.direction.x, neg_eps_r())
                &&& le_frac(eps_r(), ray.direction.y) || le_frac(ray.direction.y, neg_eps_r())
                &&& ray.direction.x.num != 0
                &&& ray.direction.y.num != 0
            },
    {
        proof {
            lemma_clamp_away_from_zero(direction.x);
            lemma_clamp_away_from_zero(direction.y);
        }
        let d: Vec2 = Vec2::new(clamp(direction.x), clamp(direction.y));
        match (d.x.checked_inv(), d.y.checked_inv()) {
            (Some(ix), Some(iy)) => Some(
                Ray { origin, direction: d, inverse_direction: Vec2::new(ix, iy) },
            ),
            _ => None,
        }
    }

    /// The ray origin.
    pub fn get_origin(&self) -> (r: &Vec2)
        ensures
            *r == self.origin,
    {
        &self.origin
    }

    /// The clamped ray direction.
    pub fn get_direction(&self) -> (r: &Vec2)
        ensures
            *r == self.direction,
    {
        &self.direction
    }

    /// The componentwise reciprocal of the clamped direction.
    pub fn get_inverse_direction(&self) -> (r: &Vec2)
        ensures
            *r == self.inverse_direction,
    {
        &self.inverse_direction
    }
}

} // verus!
