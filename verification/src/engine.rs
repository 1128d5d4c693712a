//! The traversal engine: walks a ray through a root voxel subdivided on the
//! fly into quadrants, emitting one visit event per cell the ray crosses.
//!
//! The walk is depth-first with an explicit stack and no stored tree: every
//! child, sibling and backtrack target is recomputed from the previous
//! cell's center and size alone.  The whole run is mirrored by the
//! recursive specification `run_from`, and `traverse` returns exactly what
//! that specification says, including the step-budget and arithmetic-range
//! faults.

use vstd::prelude::*;

use crate::rat::Rat;
use crate::rat::add_spec;
use crate::rat::mul_spec;
use crate::rat::le_frac;
use crate::rat::lt_frac;
use crate::vec2::Vec2;
use crate::vec2::add2_spec;
use crate::vec2::scale_spec;
use crate::vec2::eq2_frac;
use crate::ray::Ray;
use crate::ray::eps_r;
use crate::voxel::Voxel;
use crate::voxel::make_spec;
use crate::voxel::times_spec;
use crate::voxel::dir_of_spec;

verus! {

/// One frame of the descent path: a voxel and its entry/exit times.
#[derive(Clone, Copy, Debug)]
pub struct StackElement {
    pub voxel: Voxel,
    pub t: Vec2,
}

/// The explicit stack of frames from the root down to the frame just above
/// the currently active voxel.
pub struct Stack {
    elements: Vec<StackElement>,
}

impl View for Stack {
    type V = Seq<StackElement>;

    closed spec fn view(&self) -> Seq<StackElement> {
        self.elements@
    }
}

impl Stack {
    /// An empty stack.
    pub fn new() -> (s: Stack)
        ensures
            s@ == Seq::<StackElement>::empty(),
    {
        Stack { elements: Vec::new() }
    }

    /// Pushes a frame on top.
    pub fn push(&mut self, element: StackElement)
        ensures
            final(self)@ == old(self)@.push(element),
    {
        self.elements.push(element);
    }

    /// Removes and returns the top frame, or `None` on an empty stack.
    pub fn pop(&mut self) -> (r: Option<StackElement>)
        ensures
            old(self)@.len() > 0 ==> r == Some(old(self)@.last()) && final(self)@ == old(
                self,
            )@.drop_last(),
            old(self)@.len() == 0 ==> r is None && final(self)@ == old(self)@,
    {
        self.elements.pop()
    }

    /// The number of frames.
    pub fn len(&self) -> (r: usize)
        ensures
            r == self@.len(),
    {
        self.elements.len()
    }

    /// A reference to the top frame.
    pub fn top(&self) -> (r: &StackElement)
        requires
            self@.len() > 0,
        ensures
            *r == self@.last(),
    {
        &self.elements[self.elements.len() - 1]
    }
}

/// Whether a visited cell was subdivided further or reported as a leaf.
#[derive(Clone, Copy, Debug, PartialEq, Eq, Structural)]
pub enum VisitKind {
    Internal,
    Leaf,
}

/// One visited cell, in visit order.
#[derive(Clone, Copy, Debug, PartialEq, Eq, Structural)]
pub struct VisitEvent {
    pub center: Vec2,
    pub size: Rat,
    pub kind: VisitKind,
}

/// Why a run stopped early.
#[derive(Clone, Copy, Debug, PartialEq, Eq, Structural)]
pub enum TraverseFault {
    /// The step budget ran out before the walk finished.
    StepLimit,
    /// An exact-arithmetic step left the range of `i64` fractions.
    Overflow,
}

/// The outcome of a run: the visit events emitted before it ended, and the
/// fault that ended it, if any.
pub ghost struct RunResult {
    pub events: Seq<VisitEvent>,
    pub fault: Option<TraverseFault>,
}

/// The `Internal` visit event for a voxel.
pub open spec fn internal_event(v: Voxel) -> VisitEvent {
    VisitEvent { center: v.center, size: v.size, kind: VisitKind::Internal }
}

/// The `Leaf` visit event for a voxel.
pub open spec fn leaf_event(v: Voxel) -> VisitEvent {
    VisitEvent { center: v.center, size: v.size, kind: VisitKind::Leaf }
}

/// A run that ended at once because an arithmetic step left `i64`.
pub open spec fn overflow_result() -> RunResult {
    RunResult { events: Seq::empty(), fault: Some(TraverseFault::Overflow) }
}

/// A run that ended at once because the step budget ran out.
pub open spec fn limit_result() -> RunResult {
    RunResult { events: Seq::empty(), fault: Some(TraverseFault::StepLimit) }
}

/// A completed run with the given events.
pub open spec fn done_result(events: Seq<VisitEvent>) -> RunResult {
    RunResult { events, fault: None }
}

/// `r` with `es` emitted before its events.
pub open spec fn prepend(es: Seq<VisitEvent>, r: RunResult) -> RunResult {
    RunResult { events: es + r.events, fault: r.fault }
}

/// The center of the child cell the ray enters: the entry point of the ray
/// into `cur` picks a quadrant, and the child center lies a quarter edge
/// from `cur`'s center toward that quadrant.  `None` when a step leaves
/// `i64`.
#[verifier::opaque]
pub open spec fn entry_target_spec(ray: Ray, cur: Voxel, t: Vec2) -> Option<Vec2> {
    match scale_spec(ray.direction, t.x) {
        Some(step) => match add2_spec(ray.origin, step) {
            Some(ray_in) => match scale_spec(dir_of_spec(cur, ray_in), cur.size) {
                Some(qs) => match scale_spec(qs, Rat { num: 1, den: 4 }) {
                    Some(offset) => add2_spec(cur.center, offset),
                    None => None,
                },
                None => None,
            },
            None => None,
        },
        None => None,
    }
}

/// The center of the next same-depth cell: the ray is stepped just past the
/// exit time `t_exit` (nudged by `1/100` so the exit boundary itself is
/// left behind), the point picks a quadrant of `base`, and the candidate
/// lies half of `step_size` from `base`'s center toward that quadrant.
/// `None` when a step leaves `i64`.
#[verifier::opaque]
pub open spec fn out_candidate_spec(ray: Ray, base: Voxel, t_exit: Rat, step_size: Rat) -> Option<
    Vec2,
> {
    match add_spec(t_exit, eps_r()) {
        Some(tn) => match scale_spec(ray.direction, tn) {
            Some(step) => match add2_spec(ray.origin, step) {
                Some(ray_out) => match scale_spec(dir_of_spec(base, ray_out), step_size) {
                    Some(qs) => match scale_spec(qs, Rat { num: 1, den: 2 }) {
                        Some(offset) => add2_spec(base.center, offset),
                        None => None,
                    },
                    None => None,
                },
                None => None,
            },
            None => None,
        },
        None => None,
    }
}

/// One state of the walk, carried from step to step: the active voxel with
/// its times, the flag that marks a node already reported before
/// backtracking, and the stack of ancestors.  The result is everything the
/// walk will still emit from this state on, with its fault if it ends in
/// one.
///
/// Each step first locates the child cell at the ray's entry point; then
/// either descends (cell still larger than `min_size` and not just
/// popped), reports a leaf and returns to the parent when the cell's exit
/// time has reached the parent's, or advances to the ray's next same-depth
/// neighbor.  Backtracking that lands on the just-popped cell suppresses
/// the duplicate report via the popped flag.  An empty stack at the exit
/// check or after a pop ends the walk.
#[verifier::opaque]
pub open spec fn run_from(
    ray: Ray,
    cur: Voxel,
    t: Vec2,
    popped: bool,
    stack: Seq<StackElement>,
    min_size: Rat,
    fuel: nat,
) -> RunResult
    decreases fuel,
{
    if fuel == 0 {
        limit_result()
    } else {
        match entry_target_spec(ray, cur, t) {
            None => overflow_result(),
            Some(subvoxel_pos) => {
                if lt_frac(min_size, cur.size) && !popped {
                    match mul_spec(cur.size, Rat { num: 1, den: 2 }) {
                        None => overflow_result(),
                        Some(sz) => match make_spec(subvoxel_pos, sz) {
                            None => overflow_result(),
                            Some(child) => match times_spec(child, ray) {
                                None => prepend(seq![internal_event(cur)], overflow_result()),
                                Some(ct) => prepend(
                                    seq![internal_event(cur)],
                                    run_from(
                                        ray,
                                        child,
                                        ct,
                                        false,
                                        stack.push(StackElement { voxel: cur, t }),
                                        min_size,
                                        (fuel - 1) as nat,
                                    ),
                                ),
                            },
                        },
                    }
                } else {
                    let emitted = if !popped {
                        seq![leaf_event(cur)]
                    } else {
                        Seq::empty()
                    };
                    if stack.len() == 0 {
                        done_result(emitted)
                    } else {
                        let parent = stack.last();
                        if le_frac(parent.t.y, t.y) {
                            let rest = stack.drop_last();
                            if rest.len() == 0 {
                                done_result(emitted)
                            } else {
                                match out_candidate_spec(
                                    ray,
                                    rest.last().voxel,
                                    parent.t.y,
                                    parent.voxel.size,
                                ) {
                                    None => prepend(emitted, overflow_result()),
                                    Some(cand) => match make_spec(cand, parent.voxel.size) {
                                        None => prepend(emitted, overflow_result()),
                                        Some(v2) => match times_spec(v2, ray) {
                                            None => prepend(emitted, overflow_result()),
                                            Some(t2) => prepend(
                                                emitted,
                                                run_from(
                                                    ray,
                                                    v2,
                                                    t2,
                                                    eq2_frac(cand, parent.voxel.center),
                                                    rest,
                                                    min_size,
                                                    (fuel - 1) as nat,
                                                ),
                                            ),
                                        },
                                    },
                                }
                            }
                        } else {
                            match out_candidate_spec(ray, parent.voxel, t.y, cur.size) {
                                None => prepend(emitted, overflow_result()),
                                Some(cand) => match make_spec(cand, cur.size) {
                                    None => prepend(emitted, overflow_result()),
                                    Some(v2) => match times_spec(v2, ray) {
                                        None => prepend(emitted, overflow_result()),
                                        Some(t2) => prepend(
                                            emitted,
                                            run_from(
                                                ray,
                                                v2,
                                                t2,
                                                popped,
                                                stack,
                                                min_size,
                                                (fuel - 1) as nat,
                                            ),
                                        ),
                                    },
                                },
                            }
                        }
                    }
                }
            },
        }
    }
}

/// The whole traversal: the root's times decide between an immediate empty
/// result (the ray misses the region when its entry time has reached its
/// exit time) and a walk started at the root with an empty stack.
pub open spec fn traverse_spec(ray: Ray, root: Voxel, min_size: Rat, fuel: nat) -> RunResult {
    match times_spec(root, ray) {
        None => overflow_result(),
        Some(t) => if le_frac(t.y, t.x) {
            done_result(Seq::empty())
        } else {
            run_from(ray, root, t, false, Seq::empty(), min_size, fuel)
        },
    }
}

/// A ray whose entry time has reached its exit time against the root
/// misses the whole region: the run completes with no events, whatever the
/// minimum size and budget.
pub proof fn lemma_miss_is_empty(ray: Ray, root: Voxel, min_size: Rat, fuel: nat)
    requires
        times_spec(root, ray) matches Some(t) && le_frac(t.y, t.x),
    ensures
        traverse_spec(ray, root, min_size, fuel) == done_result(Seq::<VisitEvent>::empty()),
{
}

/// A root already at the minimum size that the ray hits yields exactly one
/// `Leaf` event, for the root itself, provided the budget allows a step
/// and the entry-point arithmetic stays in range.
pub proof fn lemma_root_at_min_size_is_single_leaf(ray: Ray, root: Voxel, min_size: Rat, fuel: nat)
    requires
        fuel >= 1,
        times_spec(root, ray) matches Some(t) && lt_frac(t.x, t.y) && entry_target_spec(
            ray,
            root,
            t,
        ) is Some,
        !lt_frac(min_size, root.size),
    ensures
        traverse_spec(ray, root, min_size, fuel) == done_result(seq![leaf_event(root)]),
{
    let t = times_spec(root, ray).unwrap();
    assert(!le_frac(t.y, t.x));
    assert(run_from(ray, root, t, false, Seq::empty(), min_size, fuel) == done_result(
        seq![leaf_event(root)],
    )) by {
        reveal_with_fuel(run_from, 1);
    }
}

/// The outcome of `traverse`: the events emitted, and the fault that ended
/// the run early, if any.
#[derive(Debug)]
pub struct Traversal {
    pub events: Vec<VisitEvent>,
    pub fault: Option<TraverseFault>,
}

fn entry_target(ray: &Ray, cur: &Voxel, t: &Vec2) -> (r: Option<Vec2>)
    requires
        ray.wf(),
        cur.wf(),
        t.wf(),
    ensures
        r == entry_target_spec(*ray, *cur, *t),
        r matches Some(v) ==> v.wf(),
{
    proof {
        reveal(entry_target_spec);
    }
    let quarter: Rat = Rat { num: 1, den: 4 };
    let step: Vec2 = match ray.get_direction().scale(t.x) {
        Some(v) => v,
        None => { return None; },
    };
    let ray_in: Vec2 = match ray.get_origin().cw_add(step) {
        Some(v) => v,
        None => { return None; },
    };
    let qs: Vec2 = match cur.dir_of(&ray_in).scale(cur.get_size()) {
        Some(v) => v,
        None => { return None; },
    };
    let offset: Vec2 = match qs.scale(quarter) {
        Some(v) => v,
        None => { return None; },
    };
    cur.get_center().cw_add(offset)
}

fn out_candidate(ray: &Ray, base: &Voxel, t_exit: Rat, step_size: Rat) -> (r: Option<Vec2>)
    requires
        ray.wf(),
        base.wf(),
        t_exit.wf(),
        step_size.wf(),
    ensures
        r == out_candidate_spec(*ray, *base, t_exit, step_size),
        r matches Some(v) ==> v.wf(),
{
    proof {
        reveal(out_candidate_spec);
    }
    let nudge: Rat = Rat { num: 1, den: 100 };
    let half: Rat = Rat { num: 1, den: 2 };
    let tn: Rat = match t_exit.checked_add(nudge) {
        Some(v) => v,
        None => { return None; },
    };
    let step: Vec2 = match ray.get_direction().scale(tn) {
        Some(v) => v,
        None => { return None; },
    };
    let ray_out: Vec2 = match ray.get_origin().cw_add(step) {
        Some(v) => v,
        None => { return None; },
    };
    let qs: Vec2 = match base.dir_of(&ray_out).scale(step_size) {
        Some(v) => v,
        None => { return None; },
    };
    let offset: Vec2 = match qs.scale(half) {
        Some(v) => v,
        None => { return None; },
    };
    base.get_center().cw_add(offset)
}

/// Walks `ray` through `voxel`, subdividing down to `min_size`, and returns
/// the ordered visit events.  `max_steps` bounds the number of loop steps;
/// running out of budget or out of the range of exact `i64` fractions is
/// reported as a fault.  The result is exactly what the specification
/// `traverse_spec` prescribes for these inputs.
#[verifier::rlimit(100)]
pub fn traverse(ray: &Ray, voxel: Voxel, min_size: Rat, max_steps: u64) -> (r: Traversal)
    requires
        ray.wf(),
        voxel.wf(),
        min_size.wf(),
    ensures
        r.events@ == traverse_spec(*ray, voxel, min_size, max_steps as nat).events,
        r.fault == traverse_spec(*ray, voxel, min_size, max_steps as nat).fault,
{
    let ghost total: RunResult = traverse_spec(*ray, voxel, min_size, max_steps as nat);
    let mut t: Vec2 = match voxel.ray_traverse(ray) {
        Some(v) => v,
        None => {
            return Traversal { events: Vec::new(), fault: Some(TraverseFault::Overflow) };
        },
    };
    if t.y.le(t.x) {
        return Traversal { events: Vec::new(), fault: None };
    }
    let mut cur: Voxel = voxel;
    let mut popped: bool = false;
    let mut stack: Stack = Stack::new();
    let mut events: Vec<VisitEvent> = Vec::new();
    let mut steps_left: u64 = max_steps;
    proof {
        assert(Seq::<VisitEvent>::empty() + run_from(
            *ray,
            cur,
            t,
            popped,
            stack@,
            min_size,
            steps_left as nat,
        ).events =~= run_from(*ray, cur, t, popped, stack@, min_size, steps_left as nat).events);
    }
    loop
        invariant
            ray.wf(),
            min_size.wf(),
            cur.wf(),
            t.wf(),
            forall|i: int|
                0 <= i < stack@.len() ==> (#[trigger] stack@[i]).voxel.wf() && stack@[i].t.wf(),
            total.events == events@ + run_from(
                *ray,
                cur,
                t,
                popped,
                stack@,
                min_size,
                steps_left as nat,
            ).events,
            total.fault == run_from(
                *ray,
                cur,
                t,
                popped,
                stack@,
                min_size,
                steps_left as nat,
            ).fault,
            total == traverse_spec(*ray, voxel, min_size, max_steps as nat),
        decreases steps_left,
    {
        let ghost pre: RunResult = run_from(
            *ray,
            cur,
            t,
            popped,
            stack@,
            min_size,
            steps_left as nat,
        );
        if steps_left == 0 {
            proof {
                assert(pre == limit_result()) by {
                    reveal_with_fuel(run_from, 1);
                }
            }
            return Traversal { events, fault: Some(TraverseFault::StepLimit) };
        }
        let subvoxel_pos: Vec2 = match entry_target(ray, &cur, &t) {
            Some(v) => v,
            None => {
                proof {
                    assert(pre == overflow_result()) by {
                        reveal_with_fuel(run_from, 1);
                    }
                }
                return Traversal { events, fault: Some(TraverseFault::Overflow) };
            },
        };
        let half: Rat = Rat { num: 1, den: 2 };
        if min_size.lt(cur.get_size()) && !popped {
            let sz: Rat = match cur.get_size().checked_mul(half) {
                Some(v) => v,
                None => {
                    proof {
                        assert(pre == overflow_result()) by {
                            reveal_with_fuel(run_from, 1);
                        }
                    }
                    return Traversal { events, fault: Some(TraverseFault::Overflow) };
                },
            };
            let child: Voxel = match Voxel::new(subvoxel_pos, sz) {
                Some(v) => v,
                None => {
                    proof {
                        assert(pre == overflow_result()) by {
                            reveal_with_fuel(run_from, 1);
                        }
                    }
                    return Traversal { events, fault: Some(TraverseFault::Overflow) };
                },
            };
            let ghost events_before = events@;
            stack.push(StackElement { voxel: cur, t });
            events.push(
                VisitEvent {
                    center: *cur.get_center(),
                    size: cur.get_size(),
                    kind: VisitKind::Internal,
                },
            );
            let ct: Vec2 = match child.ray_traverse(ray) {
                Some(v) => v,
                None => {
                    proof {
                        assert(pre == prepend(seq![internal_event(cur)], overflow_result())) by {
                            reveal_with_fuel(run_from, 1);
                        }
                        assert(events@ =~= events_before + seq![internal_event(cur)]);
                        assert(events_before + (seq![internal_event(cur)]
                            + Seq::<VisitEvent>::empty()) =~= events@);
                    }
                    return Traversal { events, fault: Some(TraverseFault::Overflow) };
                },
            };
            proof {
                let rest = run_from(
                    *ray,
                    child,
                    ct,
                    false,
                    stack@,
                    min_size,
                    (steps_left - 1) as nat,
                );
                assert(pre == prepend(seq![internal_event(cur)], rest)) by {
                    reveal_with_fuel(run_from, 1);
                }
                assert(events@ =~= events_before + seq![internal_event(cur)]);
                assert(events_before + (seq![internal_event(cur)] + rest.events) =~= events@
                    + rest.events);
            }
            cur = child;
            t = ct;
            popped = false;
            steps_left = steps_left - 1;
        } else {
            let ghost events_before = events@;
            if !popped {
                events.push(
                    VisitEvent {
                        center: *cur.get_center(),
                        size: cur.get_size(),
                        kind: VisitKind::Leaf,
                    },
                );
            }
            let ghost emitted: Seq<VisitEvent> = if !popped {
                seq![leaf_event(cur)]
            } else {
                Seq::empty()
            };
            proof {
                assert(events@ =~= events_before + emitted);
            }
            if stack.len() == 0 {
                proof {
                    assert(pre == done_result(emitted)) by {
                        reveal_with_fuel(run_from, 1);
                    }
                }
                return Traversal { events, fault: None };
            }
            let parent_frame: StackElement = *stack.top();
            if parent_frame.t.y.le(t.y) {
                let popped_frame: StackElement = match stack.pop() {
                    Some(v) => v,
                    None => {
                        return Traversal { events, fault: Some(TraverseFault::Overflow) };
                    },
                };
                if stack.len() == 0 {
                    proof {
                        assert(pre == done_result(emitted)) by {
                            reveal_with_fuel(run_from, 1);
                        }
                    }
                    return Traversal { events, fault: None };
                }
                let newtop: StackElement = *stack.top();
                let cand: Vec2 = match out_candidate(
                    ray,
                    &newtop.voxel,
                    popped_frame.t.y,
                    popped_frame.voxel.get_size(),
                ) {
                    Some(v) => v,
                    None => {
                        proof {
                            assert(pre == prepend(emitted, overflow_result())) by {
                                reveal_with_fuel(run_from, 1);
                            }
                            assert(events_before + (emitted + Seq::<VisitEvent>::empty())
                                =~= events@);
                        }
                        return Traversal { events, fault: Some(TraverseFault::Overflow) };
                    },
                };
                let new_popped: bool = cand.is_eq2(*popped_frame.voxel.get_center());
                let v2: Voxel = match Voxel::new(cand, popped_frame.voxel.get_size()) {
                    Some(v) => v,
                    None => {
                        proof {
                            assert(pre == prepend(emitted, overflow_result())) by {
                                reveal_with_fuel(run_from, 1);
                            }
                            assert(events_before + (emitted + Seq::<VisitEvent>::empty())
                                =~= events@);
                        }
                        return Traversal { events, fault: Some(TraverseFault::Overflow) };
                    },
                };
                let t2: Vec2 = match v2.ray_traverse(ray) {
                    Some(v) => v,
                    None => {
                        proof {
                            assert(pre == prepend(emitted, overflow_result())) by {
                                reveal_with_fuel(run_from, 1);
                            }
                            assert(events_before + (emitted + Seq::<VisitEvent>::empty())
                                =~= events@);
                        }
                        return Traversal { events, fault: Some(TraverseFault::Overflow) };
                    },
                };
                proof {
                    let rest = run_from(
                        *ray,
                        v2,
                        t2,
                        new_popped,
                        stack@,
                        min_size,
                        (steps_left - 1) as nat,
                    );
                    assert(pre == prepend(emitted, rest)) by {
                        reveal_with_fuel(run_from, 1);
                    }
                    assert(events_before + (emitted + rest.events) =~= events@ + rest.events);
                }
                cur = v2;
                t = t2;
                popped = new_popped;
                steps_left = steps_left - 1;
            } else {
                let cand: Vec2 = match out_candidate(ray, &parent_frame.voxel, t.y, cur.get_size()) {
                    Some(v) => v,
                    None => {
                        proof {
                            assert(pre == prepend(emitted, overflow_result())) by {
                                reveal_with_fuel(run_from, 1);
                            }
                            assert(events_before + (emitted + Seq::<VisitEvent>::empty())
                                =~= events@);
                        }
                        return Traversal { events, fault: Some(TraverseFault::Overflow) };
                    },
                };
                let v2: Voxel = match Voxel::new(cand, cur.get_size()) {
                    Some(v) => v,
                    None => {
                        proof {
                            assert(pre == prepend(emitted, overflow_result())) by {
                                reveal_with_fuel(run_from, 1);
                            }
                            assert(events_before + (emitted + Seq::<VisitEvent>::empty())
                                =~= events@);
                        }
                        return Traversal { events, fault: Some(TraverseFault::Overflow) };
                    },
                };
                let t2: Vec2 = match v2.ray_traverse(ray) {
                    Some(v) => v,
                    None => {
                        proof {
                            assert(pre == prepend(emitted, overflow_result())) by {
                                reveal_with_fuel(run_from, 1);
                            }
                            assert(events_before + (emitted + Seq::<VisitEvent>::empty())
                                =~= events@);
                        }
                        return Traversal { events, fault: Some(TraverseFault::Overflow) };
                    },
                };
                proof {
                    let rest = run_from(
                        *ray,
                        v2,
                        t2,
                        popped,
                        stack@,
                        min_size,
                        (steps_left - 1) as nat,
                    );
                    assert(pre == prepend(emitted, rest)) by {
                        reveal_with_fuel(run_from, 1);
                    }
                    assert(events_before + (emitted + rest.events) =~= events@ + rest.events);
                }
                cur = v2;
                t = t2;
                steps_left = steps_left - 1;
            }
        }
    }
}

} // verus!
