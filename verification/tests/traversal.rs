use quadtrace::rat::Rat;
use quadtrace::vec2::Vec2;
use quadtrace::ray::Ray;
use quadtrace::voxel::Voxel;
use quadtrace::engine::Stack;
use quadtrace::engine::StackElement;
use quadtrace::engine::Traversal;
use quadtrace::engine::TraverseFault;
use quadtrace::engine::VisitEvent;
use quadtrace::engine::VisitKind;
use quadtrace::engine::traverse;

fn q(n: i64, d: i64) -> Rat {
    Rat::new(n, d).unwrap()
}

fn v2(x: Rat, y: Rat) -> Vec2 {
    Vec2::new(x, y)
}

fn ev(cx: Rat, cy: Rat, size: Rat, kind: VisitKind) -> VisitEvent {
    VisitEvent { center: v2(cx, cy), size, kind }
}

/// Recomputes each leaf event's entry and exit times and checks that the
/// leaves tile the ray's chord through `root`: the first leaf enters where
/// the root does, each leaf exits where the next one enters, and the last
/// leaf exits where the root does.
fn assert_leaves_tile_chord(events: &[VisitEvent], ray: &Ray, root: &Voxel) {
    let root_t: Vec2 = root.ray_traverse(ray).unwrap();
    let leaves: Vec<&VisitEvent> = events.iter().filter(|e| e.kind == VisitKind::Leaf).collect();
    assert!(!leaves.is_empty());
    let mut expected_enter: Rat = root_t.x;
    for leaf in &leaves {
        let cell: Voxel = Voxel::new(leaf.center, leaf.size).unwrap();
        let t: Vec2 = cell.ray_traverse(ray).unwrap();
        assert!(t.x.is_eq(expected_enter), "a leaf does not start where the last one ended");
        assert!(t.x.lt(t.y));
        expected_enter = t.y;
    }
    assert!(expected_enter.is_eq(root_t.y), "the last leaf does not reach the root's exit");
}

#[test]
fn missed_root_gives_no_events() {
    let root: Voxel = Voxel::new(v2(q(0, 1), q(0, 1)), q(100, 1)).unwrap();
    let ray: Ray = Ray::new(v2(q(-60, 1), q(200, 1)), v2(q(1, 1), q(0, 1))).unwrap();
    let out: Traversal = traverse(&ray, root, q(25, 1), 1000);
    assert_eq!(out.fault, None);
    assert!(out.events.is_empty());
}

#[test]
fn root_at_min_size_gives_single_leaf() {
    let root: Voxel = Voxel::new(v2(q(0, 1), q(0, 1)), q(100, 1)).unwrap();
    let ray: Ray = Ray::new(v2(q(-60, 1), q(0, 1)), v2(q(1, 1), q(0, 1))).unwrap();
    let out: Traversal = traverse(&ray, root, q(100, 1), 1000);
    assert_eq!(out.fault, None);
    assert_eq!(out.events, vec![ev(q(0, 1), q(0, 1), q(100, 1), VisitKind::Leaf)]);
}

#[test]
fn axis_aligned_march_visits_cells_in_order() {
    let root: Voxel = Voxel::new(v2(q(0, 1), q(0, 1)), q(100, 1)).unwrap();
    let ray: Ray = Ray::new(v2(q(-60, 1), q(0, 1)), v2(q(1, 1), q(0, 1))).unwrap();
    let out: Traversal = traverse(&ray, root, q(25, 1), 1000);
    assert_eq!(out.fault, None);
    let expected: Vec<VisitEvent> = vec![
        ev(q(0, 1), q(0, 1), q(100, 1), VisitKind::Internal),
        ev(q(-25, 1), q(25, 1), q(50, 1), VisitKind::Internal),
        ev(q(-75, 2), q(25, 2), q(25, 1), VisitKind::Leaf),
        ev(q(-25, 2), q(25, 2), q(25, 1), VisitKind::Leaf),
        ev(q(25, 1), q(25, 1), q(50, 1), VisitKind::Internal),
        ev(q(25, 2), q(25, 2), q(25, 1), VisitKind::Leaf),
        ev(q(75, 2), q(25, 2), q(25, 1), VisitKind::Leaf),
    ];
    assert_eq!(out.events, expected);
    assert_leaves_tile_chord(&out.events, &ray, &root);
    let last: &VisitEvent = out.events.last().unwrap();
    let last_cell: Voxel = Voxel::new(last.center, last.size).unwrap();
    assert_eq!(last_cell.get_max().x, q(50, 1));
}

#[test]
fn diagonal_ray_leaves_tile_the_chord() {
    let root: Voxel = Voxel::new(v2(q(0, 1), q(0, 1)), q(64, 1)).unwrap();
    let ray: Ray = Ray::new(v2(q(-100, 1), q(-90, 1)), v2(q(1, 1), q(1, 1))).unwrap();
    let out: Traversal = traverse(&ray, root, q(16, 1), 10000);
    assert_eq!(out.fault, None);
    assert_leaves_tile_chord(&out.events, &ray, &root);
}

#[test]
fn zero_direction_terminates_within_budget() {
    let root: Voxel = Voxel::new(v2(q(0, 1), q(0, 1)), q(100, 1)).unwrap();
    let ray: Ray = Ray::new(v2(q(-60, 1), q(0, 1)), v2(q(0, 1), q(0, 1))).unwrap();
    assert_eq!(*ray.get_direction(), v2(q(1, 100), q(1, 100)));
    let out: Traversal = traverse(&ray, root, q(25, 1), 100);
    assert_eq!(out.fault, None);
    assert!(!out.events.is_empty());
}

#[test]
fn boundary_origin_is_reproducible() {
    let root: Voxel = Voxel::new(v2(q(0, 1), q(0, 1)), q(100, 1)).unwrap();
    let ray: Ray = Ray::new(v2(q(0, 1), q(-60, 1)), v2(q(0, 1), q(1, 1))).unwrap();
    assert_eq!(root.dir_of(&v2(q(0, 1), q(-60, 1))), v2(q(1, 1), q(-1, 1)));
    let first: Traversal = traverse(&ray, root, q(25, 1), 1000);
    let second: Traversal = traverse(&ray, root, q(25, 1), 1000);
    assert_eq!(first.fault, None);
    assert_eq!(first.events, second.events);
    assert!(!first.events.is_empty());
}

#[test]
fn exhausted_budget_reports_step_limit() {
    let root: Voxel = Voxel::new(v2(q(0, 1), q(0, 1)), q(100, 1)).unwrap();
    let ray: Ray = Ray::new(v2(q(-60, 1), q(0, 1)), v2(q(1, 1), q(0, 1))).unwrap();
    let out: Traversal = traverse(&ray, root, q(25, 1), 0);
    assert_eq!(out.fault, Some(TraverseFault::StepLimit));
    assert!(out.events.is_empty());
}

#[test]
fn out_of_range_arithmetic_reports_overflow() {
    let root: Voxel = Voxel::new(v2(q(0, 1), q(0, 1)), Rat::from_int(i64::MAX)).unwrap();
    let ray: Ray = Ray::new(v2(q(0, 1), q(0, 1)), v2(q(1, 1), q(0, 1))).unwrap();
    let out: Traversal = traverse(&ray, root, q(25, 1), 1000);
    assert_eq!(out.fault, Some(TraverseFault::Overflow));
    assert!(out.events.is_empty());
}

#[test]
fn stack_is_last_in_first_out() {
    let voxel: Voxel = Voxel::new(v2(q(0, 1), q(0, 1)), q(4, 1)).unwrap();
    let times_a: Vec2 = v2(q(1, 1), q(2, 1));
    let times_b: Vec2 = v2(q(2, 1), q(3, 1));
    let mut stack: Stack = Stack::new();
    assert_eq!(stack.len(), 0);
    assert!(stack.pop().is_none());
    stack.push(StackElement { voxel, t: times_a });
    stack.push(StackElement { voxel, t: times_b });
    assert_eq!(stack.len(), 2);
    assert_eq!(stack.top().t, times_b);
    let popped: StackElement = stack.pop().unwrap();
    assert_eq!(popped.t, times_b);
    assert_eq!(stack.len(), 1);
    assert_eq!(stack.top().t, times_a);
}
