//! A browsing session's input side: the last known cursor position, and
//! human-like mouse movements and clicks planned from it. A driver
//! dispatches each planned step in order, stops at the first failure, and
//! records every point it reached.

use vstd::prelude::*;
use crate::bezier::{clamp_i32, is_path, BezierPath, Point};
use crate::chance::random_range;

verus! {

/// The number of steps a mouse movement is sampled at.
pub const MOVE_STEPS: usize = 25;

/// One step of a mouse movement: move the pointer to `point`, then wait
/// `pause_ms` milliseconds.
#[derive(Debug, Clone, Copy, PartialEq, Eq, Structural)]
pub struct MouseStep {
    pub point: Point,
    pub pause_ms: u64,
}

/// `target` moved by a jitter of at most 2 pixels on each axis, held to
/// the range of `i32`.
pub open spec fn jittered(target: Point, jx: int, jy: int) -> Point {
    Point { x: clamp_i32(target.x + jx), y: clamp_i32(target.y + jy) }
}

/// Whether `steps` is a movement from `from` towards `target`: the points
/// form a path of `MOVE_STEPS` steps that begins at `from` and ends at the
/// target moved by at most 2 pixels on each axis, and each pause lasts 5 to
/// 14 ms.
pub open spec fn is_move_plan(steps: Seq<MouseStep>, from: Point, target: Point) -> bool {
    &&& steps.len() == MOVE_STEPS + 1
    &&& steps[0].point == from
    &&& exists|jx: int, jy: int| #![trigger jittered(target, jx, jy)] {
        &&& -2 <= jx <= 2
        &&& -2 <= jy <= 2
        &&& steps[MOVE_STEPS as int].point == jittered(target, jx, jy)
        &&& is_path(steps.map_values(|s: MouseStep| s.point), from, jittered(target, jx, jy), MOVE_STEPS as int)
    }
    &&& forall|i: int| 0 <= i < steps.len() ==> 5 <= #[trigger] steps[i].pause_ms < 15
}

/// Where the cursor is after the given steps were dispatched, starting
/// from `from`: at the last point dispatched.
pub open spec fn position_after(from: Point, steps: Seq<MouseStep>) -> Point {
    if steps.len() == 0 { from } else { steps.last().point }
}

/// The input side of one browsing session: the last known cursor position.
#[derive(Debug, Clone)]
pub struct GhostPage {
    mouse_pos: Point,
}

impl View for GhostPage {
    type V = Point;

    closed spec fn view(&self) -> Point {
        self.mouse_pos
    }
}

/// A coordinate moved by `d` and held to the range of `i32`.
fn shift(v: i32, d: i64) -> (r: i32)
    requires
        -2 <= d <= 2,
    ensures
        r == clamp_i32(v + d),
{
    let w = v as i64 + d;
    if w < i32::MIN as i64 {
        i32::MIN
    } else if w > i32::MAX as i64 {
        i32::MAX
    } else {
        w as i32
    }
}

impl GhostPage {
    /// A session whose cursor is at the origin.
    pub fn new() -> (r: Self)
        ensures
            r@ == (Point { x: 0, y: 0 }),
    {
        GhostPage { mouse_pos: Point { x: 0, y: 0 } }
    }

    /// The last known cursor position.
    pub fn mouse_position(&self) -> (r: Point)
        ensures
            r == self@,
    {
        self.mouse_pos
    }

    /// Records that the pointer was moved to `p`. A driver calls this after
    /// each dispatched step, so a movement that fails partway leaves the
    /// cursor at the last point that was really reached.
    pub fn record_mouse_position(&mut self, p: Point)
        ensures
            final(self)@ == p,
    {
        self.mouse_pos = p;
    }

    /// The movement from the cursor to `target` (moved by up to 2 pixels
    /// on each axis): `MOVE_STEPS + 1` points along a random Bezier curve,
    /// each followed by a pause of 5 to 14 ms.
    pub fn move_mouse_human(&self, target: Point) -> (r: Vec<MouseStep>)
        ensures
            r@.len() == MOVE_STEPS + 1,
            is_move_plan(r@, self@, target),
            r@[0].point == self@,
    {
        let jx = random_range(-2, 3) as i64;
        let jy = random_range(-2, 3) as i64;
        let end = Point { x: shift(target.x, jx), y: shift(target.y, jy) };
        let path = BezierPath::generate(self.mouse_pos, end, MOVE_STEPS);
        let mut steps: Vec<MouseStep> = Vec::new();
        let mut i: usize = 0;
        while i < path.len()
            invariant
                i <= path@.len(),
                steps@.len() == i,
                forall|j: int| 0 <= j < i ==> (#[trigger] steps@[j]).point == path@[j]
                    && 5 <= steps@[j].pause_ms < 15,
            decreases path@.len() - i,
        {
            let pause = random_range(5, 15) as u64;
            steps.push(MouseStep { point: path[i], pause_ms: pause });
            i = i + 1;
        }
        proof {
            assert(steps@.map_values(|s: MouseStep| s.point) =~= path@);
            assert(jittered(target, jx as int, jy as int) == end);
            assert(steps@[MOVE_STEPS as int].point == end);
        }
        steps
    }

    /// The point a click lands on: the last known cursor position.
    pub fn click(&self) -> (r: Point)
        ensures
            r == self@,
    {
        self.mouse_pos
    }

    /// The pauses around a human click: 50 to 149 ms between arriving and
    /// clicking, then 30 to 79 ms after the click.
    pub fn click_human(&self) -> (r: (u64, u64))
        ensures
            50 <= r.0 < 150,
            30 <= r.1 < 80,
    {
        (random_range(50, 150) as u64, random_range(30, 80) as u64)
    }
}

/// Two movements made one after the other chain up: once every step of the
/// first was dispatched and recorded, the second starts where the first
/// ended, which is within 2 pixels of the first target on each axis.
pub proof fn lemma_moves_chain(
    from: Point,
    first_target: Point,
    second_target: Point,
    first: Seq<MouseStep>,
    second: Seq<MouseStep>,
)
    requires
        is_move_plan(first, from, first_target),
        is_move_plan(second, position_after(from, first), second_target),
    ensures
        first.len() == MOVE_STEPS + 1,
        second[0].point == first[MOVE_STEPS as int].point,
        -2 <= position_after(from, first).x - first_target.x <= 2,
        -2 <= position_after(from, first).y - first_target.y <= 2,
{
    let (jx, jy) = choose|jx: int, jy: int| {
        &&& -2 <= jx <= 2
        &&& -2 <= jy <= 2
        &&& first[MOVE_STEPS as int].point == #[trigger] jittered(first_target, jx, jy)
        &&& is_path(first.map_values(|s: MouseStep| s.point), from, jittered(first_target, jx, jy), MOVE_STEPS as int)
    };
    assert(first.last().point == jittered(first_target, jx, jy));
}

} // verus!
