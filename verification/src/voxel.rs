//! Square cells of the subdivision, with the ray/box intersection and the
//! quadrant-direction test.

use vstd::prelude::*;

use crate::rat::Rat;
use crate::rat::eq_frac;
use crate::rat::lt_frac;
use crate::rat::min_spec;
use crate::rat::max_spec;
use crate::vec2::Vec2;
use crate::vec2::add2_spec;
use crate::vec2::sub2_spec;
use crate::vec2::mul2_spec;
use crate::vec2::scale_spec;
use crate::ray::Ray;

verus! {

/// One axis-aligned square cell: its center, edge length, and the derived
/// minimum and maximum corners.
#[derive(Clone, Copy, Debug, PartialEq, Eq, Structural)]
pub struct Voxel {
    pub min: Vec2,
    pub max: Vec2,
    pub center: Vec2,
    pub size: Rat,
}

/// The rational one.
pub open spec fn one_r() -> Rat {
    Rat { num: 1, den: 1 }
}

/// The rational minus one.
pub open spec fn neg_one_r() -> Rat {
    Rat { num: -1i64, den: 1 }
}

/// The sign of a rational: `-1`, `0` or `1`.
pub open spec fn sign_spec(d: Rat) -> Rat {
    if d.num < 0 {
        neg_one_r()
    } else if d.num == 0 {
        Rat { num: 0, den: 1 }
    } else {
        one_r()
    }
}

/// The componentwise sign of a vector.
pub open spec fn sign2_spec(v: Vec2) -> Vec2 {
    Vec2 { x: sign_spec(v.x), y: sign_spec(v.y) }
}

/// The voxel with the given center and edge length: the corners lie half an
/// edge away from the center on both axes.  `None` when a corner coordinate
/// leaves `i64`.
#[verifier::opaque]
pub open spec fn make_spec(center: Vec2, size: Rat) -> Option<Voxel> {
    match scale_spec(Vec2 { x: size, y: size }, Rat { num: 1, den: 2 }) {
        Some(half) => match (sub2_spec(center, half), add2_spec(center, half)) {
            (Some(min), Some(max)) => Some(Voxel { min, max, center, size }),
            _ => None,
        },
        None => None,
    }
}

/// The entry and exit times of `ray` through `v`, packed as `(x, y)`.
///
/// The corners are first reflected through the center by the sign of the
/// ray direction, which orients the box so the same formula serves every
/// direction; the candidate crossing times are the oriented corners'
/// offsets from the origin times the inverse direction; the entry time is
/// the smaller of the two componentwise maxima and the exit time the larger
/// of the two componentwise minima.  `None` when a step leaves `i64`.
#[verifier::opaque]
pub open spec fn times_spec(v: Voxel, ray: Ray) -> Option<Vec2> {
    let s = sign2_spec(ray.direction);
    match (sub2_spec(v.min, v.center), sub2_spec(v.max, v.center)) {
        (Some(rel_min), Some(rel_max)) => match (mul2_spec(rel_min, s), mul2_spec(rel_max, s)) {
            (Some(omin), Some(omax)) => match (add2_spec(omin, v.center), add2_spec(omax, v.center)) {
                (Some(bmin), Some(bmax)) => match (
                    sub2_spec(bmin, ray.origin),
                    sub2_spec(bmax, ray.origin),
                ) {
                    (Some(fmin), Some(fmax)) => match (
                        mul2_spec(fmin, ray.inverse_direction),
                        mul2_spec(fmax, ray.inverse_direction),
                    ) {
                        (Some(cmin), Some(cmax)) => Some(
                            Vec2 {
                                x: min_spec(max_spec(cmin.x, cmin.y), max_spec(cmax.x, cmax.y)),
                                y: max_spec(min_spec(cmin.x, cmin.y), min_spec(cmax.x, cmax.y)),
                            },
                        ),
                        _ => None,
                    },
                    _ => None,
                },
                _ => None,
            },
            _ => None,
        },
        _ => None,
    }
}

/// The quadrant of `p` relative to the center of `v`: each component is
/// `-1` when the coordinate is strictly below the center's, else `+1`.
/// A coordinate equal to the center's resolves to `+1`.
pub open spec fn dir_of_spec(v: Voxel, p: Vec2) -> Vec2 {
    Vec2 {
        x: if lt_frac(p.x, v.center.x) { neg_one_r() } else { one_r() },
        y: if lt_frac(p.y, v.center.y) { neg_one_r() } else { one_r() },
    }
}

/// The quadrant of a voxel's own center is always `(+1, +1)`: the boundary
/// tie-break resolves equality upward on both axes.
pub proof fn lemma_dir_of_center(v: Voxel)
    ensures
        dir_of_spec(v, v.center) == (Vec2 { x: one_r(), y: one_r() }),
{
}

/// A point lying exactly on a cell's center line resolves to `+1` on that
/// axis: the boundary tie-break is deterministic, never alternating.
pub proof fn lemma_dir_of_on_boundary(v: Voxel, p: Vec2)
    ensures
        eq_frac(p.x, v.center.x) ==> dir_of_spec(v, p).x == one_r(),
        eq_frac(p.y, v.center.y) ==> dir_of_spec(v, p).y == one_r(),
{
}

fn sign_of(d: Rat) -> (r: Rat)
    ensures
        r == sign_spec(d),
        r.wf(),
{
    if d.num < 0 {
        Rat { num: -1, den: 1 }
    } else if d.num == 0 {
        Rat { num: 0, den: 1 }
    } else {
        Rat { num: 1, den: 1 }
    }
}

impl Voxel {
    /// All four fields are well-formed.
    pub open spec fn wf(self) -> bool {
        self.min.wf() && self.max.wf() && self.center.wf() && self.size.wf()
    }

    /// Builds the voxel with the given center and edge length (not the
    /// half-extent), deriving its corners.
    pub fn new(center: Vec2, size: Rat) -> (r: Option<Voxel>)
        requires
            center.wf(),
            size.wf(),
        ensures
            r == make_spec(center, size),
            r matches Some(v) ==> v.wf(),
    {
        proof {
            reveal(make_spec);
        }
        let half_scalar: Rat = Rat { num: 1, den: 2 };
        match Vec2::new(size, size).scale(half_scalar) {
            Some(half) => match (center.cw_sub(half), center.cw_add(half)) {
                (Some(min), Some(max)) => Some(Voxel { min, max, center, size }),
                _ => None,
            },
            None => None,
        }
    }

    /// The center of the voxel.
    pub fn get_center(&self) -> (r: &Vec2)
        ensures
            *r == self.center,
    {
        &self.center
    }

    /// The minimum corner of the voxel.
    pub fn get_min(&self) -> (r: &Vec2)
        ensures
            *r == self.min,
    {
        &self.min
    }

    /// The maximum corner of the voxel.
    pub fn get_max(&self) -> (r: &Vec2)
        ensures
            *r == self.max,
    {
        &self.max
    }

    /// The edge length of the voxel.
    pub fn get_size(&self) -> (r: Rat)
        ensures
            r == self.size,
    {
        self.size
    }

    /// The entry and exit times of `ray` through this voxel, as `(x, y)`.
    pub fn ray_traverse(&self, ray: &Ray) -> (r: Option<Vec2>)
        requires
            self.wf(),
            ray.wf(),
        ensures
            r == times_spec(*self, *ray),
            r matches Some(t) ==> t.wf(),
    {
        proof {
            reveal(times_spec);
        }
        let s: Vec2 = Vec2::new(sign_of(ray.direction.x), sign_of(ray.direction.y));
        let rel_min: Vec2 = match self.min.cw_sub(self.center) {
            Some(v) => v,
            None => { return None; },
        };
        let rel_max: Vec2 = match self.max.cw_sub(self.center) {
            Some(v) => v,
            None => { return None; },
        };
        let omin: Vec2 = match rel_min.cw_mul(s) {
            Some(v) => v,
            None => { return None; },
        };
        let omax: Vec2 = match rel_max.cw_mul(s) {
            Some(v) => v,
            None => { return None; },
        };
        let bmin: Vec2 = match omin.cw_add(self.center) {
            Some(v) => v,
            None => { return None; },
        };
        let bmax: Vec2 = match omax.cw_add(self.center) {
            Some(v) => v,
            None => { return None; },
        };
        let fmin: Vec2 = match bmin.cw_sub(*ray.get_origin()) {
            Some(v) => v,
            None => { return None; },
        };
        let fmax: Vec2 = match bmax.cw_sub(*ray.get_origin()) {
            Some(v) => v,
            None => { return None; },
        };
        let cmin: Vec2 = match fmin.cw_mul(*ray.get_inverse_direction()) {
            Some(v) => v,
            None => { return None; },
        };
        let cmax: Vec2 = match fmax.cw_mul(*ray.get_inverse_direction()) {
            Some(v) => v,
            None => { return None; },
        };
        let t_enter: Rat = cmin.x.max_r(cmin.y).min_r(cmax.x.max_r(cmax.y));
        let t_exit: Rat = cmin.x.min_r(cmin.y).max_r(cmax.x.min_r(cmax.y));
        Some(Vec2::new(t_enter, t_exit))
    }

    /// The quadrant of `point` relative to this voxel's center; components
    /// are `-1` strictly below the center and `+1` otherwise, so a point on
    /// a boundary line resolves to `+1` on that axis.
    pub fn dir_of(&self, point: &Vec2) -> (r: Vec2)
        ensures
            r == dir_of_spec(*self, *point),
            r.wf(),
    {
        let neg_one: Rat = Rat { num: -1, den: 1 };
        let one: Rat = Rat { num: 1, den: 1 };
        Vec2::new(
            if point.x.lt(self.center.x) { neg_one } else { one },
            if point.y.lt(self.center.y) { neg_one } else { one },
        )
    }
}

} // verus!
