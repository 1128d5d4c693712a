use quadtrace::rat::Rat;
use quadtrace::vec2::Vec2;
use quadtrace::ray::Ray;
use quadtrace::voxel::Voxel;

fn q(n: i64, d: i64) -> Rat {
    Rat::new(n, d).unwrap()
}

fn v2(x: Rat, y: Rat) -> Vec2 {
    Vec2::new(x, y)
}

fn origin_zero() -> Vec2 {
    v2(q(0, 1), q(0, 1))
}

#[test]
fn zero_direction_is_clamped_to_hundredths() {
    let ray: Ray = Ray::new(origin_zero(), origin_zero()).unwrap();
    assert_eq!(*ray.get_direction(), v2(q(1, 100), q(1, 100)));
    assert_eq!(*ray.get_inverse_direction(), v2(q(100, 1), q(100, 1)));
}

#[test]
fn clamp_keeps_sign_and_large_components() {
    let ray: Ray = Ray::new(origin_zero(), v2(q(-1, 200), q(5, 1))).unwrap();
    assert_eq!(*ray.get_direction(), v2(q(-1, 100), q(5, 1)));
    assert_eq!(*ray.get_inverse_direction(), v2(q(-100, 1), q(1, 5)));

    let steep: Ray = Ray::new(origin_zero(), v2(q(-3, 1), q(0, 1))).unwrap();
    assert_eq!(*steep.get_direction(), v2(q(-3, 1), q(1, 100)));
}

#[test]
fn voxel_corners_are_half_an_edge_out() {
    let v: Voxel = Voxel::new(origin_zero(), q(100, 1)).unwrap();
    assert_eq!(*v.get_min(), v2(q(-50, 1), q(-50, 1)));
    assert_eq!(*v.get_max(), v2(q(50, 1), q(50, 1)));
    assert_eq!(v.get_size(), q(100, 1));
    assert_eq!(*v.get_center(), origin_zero());
}

#[test]
fn ray_times_for_axis_aligned_ray() {
    let root: Voxel = Voxel::new(origin_zero(), q(100, 1)).unwrap();
    let ray: Ray = Ray::new(v2(q(-60, 1), q(0, 1)), v2(q(1, 1), q(0, 1))).unwrap();
    let t: Vec2 = root.ray_traverse(&ray).unwrap();
    assert_eq!(t, v2(q(10, 1), q(110, 1)));
}

#[test]
fn dir_of_center_ties_to_plus_one() {
    let v: Voxel = Voxel::new(origin_zero(), q(100, 1)).unwrap();
    let one: Rat = q(1, 1);
    assert_eq!(v.dir_of(v.get_center()), v2(one, one));
}

#[test]
fn dir_of_resolves_boundaries_upward() {
    let v: Voxel = Voxel::new(origin_zero(), q(100, 1)).unwrap();
    let one: Rat = q(1, 1);
    let neg_one: Rat = q(-1, 1);
    assert_eq!(v.dir_of(&v2(q(0, 1), q(-60, 1))), v2(one, neg_one));
    assert_eq!(v.dir_of(&v2(q(-1, 1), q(0, 1))), v2(neg_one, one));
    assert_eq!(v.dir_of(&v2(q(3, 1), q(7, 1))), v2(one, one));
    assert_eq!(v.dir_of(&v2(q(-3, 1), q(-7, 1))), v2(neg_one, neg_one));
}
