//! Scrolling: a distance split into eased wheel steps with jitter.

use vstd::prelude::*;
use crate::bezier::Point;
use crate::chance::random_range;
use crate::page::GhostPage;

verus! {

/// One step of a scroll: a wheel event at `at` that scrolls by `delta_y`
/// pixels, then a pause.
#[derive(Debug, Clone, Copy, PartialEq, Eq, Structural)]
pub struct ScrollStep {
    pub at: Point,
    pub delta_y: i32,
    pub pause_ms: u64,
}

/// The number of wheel steps a scroll of `delta_y` pixels is split into:
/// one for every 50 pixels, at least 3 and at most 15.
pub open spec fn scroll_steps_for(delta_y: int) -> int {
    let m = (if delta_y < 0 { -delta_y } else { delta_y }) / 50;
    if m < 3 { 3 } else if m > 15 { 15 } else { m }
}

/// `a / b` rounded towards zero, for a positive `b`.
pub open spec fn trunc_div(a: int, b: int) -> int {
    if a >= 0 { a / b } else { -((-a) / b) }
}

/// The share of step `i` of `n` under the easing: half in the first and
/// the last 30% of the scroll, whole in between.
pub open spec fn eased(share: int, i: int, n: int) -> int {
    if 10 * i < 3 * n || 10 * i > 7 * n { trunc_div(share, 2) } else { share }
}

/// `v` held to `[-200, 200]`.
pub open spec fn clamp_wheel(v: int) -> int {
    if v < -200 { -200 } else if v > 200 { 200 } else { v }
}

/// Step `i` of `n` with `remaining` pixels still to scroll: the eased fair
/// share of what remains, plus the jitter, held to 200 pixels either way.
pub open spec fn wheel_step(remaining: int, i: int, n: int, jitter: int) -> int {
    clamp_wheel(eased(trunc_div(remaining, n - i), i, n) + jitter)
}

/// The wheel deltas dispatched from step `i` of `n` on, with `remaining`
/// pixels still to scroll; a step of zero is skipped.
pub open spec fn wheel_deltas(remaining: int, i: int, n: int, jitters: Seq<i64>) -> Seq<int>
    decreases n - i,
{
    if i >= n {
        Seq::empty()
    } else {
        let s = wheel_step(remaining, i, n, jitters[i] as int);
        if s == 0 {
            wheel_deltas(remaining, i + 1, n, jitters)
        } else {
            seq![s] + wheel_deltas(remaining - s, i + 1, n, jitters)
        }
    }
}

/// What is still to scroll once steps `i` to `n` were dispatched.
pub open spec fn wheel_left(remaining: int, i: int, n: int, jitters: Seq<i64>) -> int
    decreases n - i,
{
    if i >= n {
        remaining
    } else {
        let s = wheel_step(remaining, i, n, jitters[i] as int);
        wheel_left(remaining - s, i + 1, n, jitters)
    }
}

/// The sum of a list of deltas.
pub open spec fn total(s: Seq<int>) -> int
    decreases s.len(),
{
    if s.len() == 0 { 0 } else { s[0] + total(s.drop_first()) }
}

/// Whether every jitter lies in `[-10, 10)`.
pub open spec fn jitters_ok(jitters: Seq<i64>) -> bool {
    forall|k: int| 0 <= k < jitters.len() ==> -10 <= #[trigger] jitters[k] < 10
}

/// The number of wheel steps for a scroll of `delta_y` pixels.
pub fn scroll_step_count(delta_y: i32) -> (r: usize)
    ensures
        r == scroll_steps_for(delta_y as int),
        3 <= r <= 15,
{
    let d = delta_y as i64;
    let m = (if d < 0 { -d } else { d }) / 50;
    if m < 3 {
        3
    } else if m > 15 {
        15
    } else {
        m as usize
    }
}

/// `a / b` rounded towards zero.
fn trunc_div_exec(a: i64, b: i64) -> (r: i64)
    requires
        b > 0,
        a > i64::MIN,
    ensures
        r == trunc_div(a as int, b as int),
{
    if a >= 0 {
        ((a as u64) / (b as u64)) as i64
    } else {
        -(((-a) as u64 / b as u64) as i64)
    }
}

/// The wheel deltas of a scroll of `delta_y` pixels with the given jitters,
/// one for each step.
pub fn scroll_deltas(delta_y: i32, jitters: &Vec<i64>) -> (r: Vec<i32>)
    requires
        jitters@.len() == scroll_steps_for(delta_y as int),
        jitters_ok(jitters@),
    ensures
        r@.map_values(|v: i32| v as int) == wheel_deltas(delta_y as int, 0, jitters@.len() as int, jitters@),
{
    let n = scroll_step_count(delta_y);
    let mut remaining: i64 = delta_y as i64;
    let mut out: Vec<i32> = Vec::new();
    let mut i: usize = 0;
    assert(out@.map_values(|v: i32| v as int) =~= Seq::<int>::empty());
    while i < n
        invariant
            n == jitters@.len(),
            3 <= n <= 15,
            i <= n,
            jitters_ok(jitters@),
            -0x8000_0000 - 200 * i <= remaining <= 0x8000_0000 + 200 * i,
            out@.map_values(|v: i32| v as int) + wheel_deltas(remaining as int, i as int, n as int, jitters@)
                == wheel_deltas(delta_y as int, 0, n as int, jitters@),
        decreases n - i,
    {
        let share = trunc_div_exec(remaining, (n - i) as i64);
        let eased_share = if 10 * i < 3 * n || 10 * i > 7 * n { trunc_div_exec(share, 2) } else { share };
        let j = jitters[i];
        let raw = eased_share + j;
        let step: i64 = if raw < -200 { -200 } else if raw > 200 { 200 } else { raw };
        assert(step == wheel_step(remaining as int, i as int, n as int, j as int));
        if step != 0 {
            let ghost before = out@.map_values(|v: i32| v as int);
            out.push(step as i32);
            remaining = remaining - step;
            assert(out@.map_values(|v: i32| v as int) =~= before.push(step as int));
            assert(before.push(step as int) + wheel_deltas(remaining as int, i + 1, n as int, jitters@)
                =~= before + (seq![step as int] + wheel_deltas(remaining as int, i + 1, n as int, jitters@)));
        }
        i = i + 1;
    }
    out
}

/// The deltas of a scroll and what is left of it make up the whole scroll.
pub proof fn lemma_wheel_total(remaining: int, i: int, n: int, jitters: Seq<i64>)
    ensures
        total(wheel_deltas(remaining, i, n, jitters)) == remaining - wheel_left(remaining, i, n, jitters),
    decreases n - i,
{
    if i < n {
        let s = wheel_step(remaining, i, n, jitters[i] as int);
        lemma_wheel_total(remaining - s, i + 1, n, jitters);
        if s != 0 {
            let rest = wheel_deltas(remaining - s, i + 1, n, jitters);
            assert((seq![s] + rest).drop_first() =~= rest);
        }
    }
}

/// Every dispatched delta is non-zero and at most 200 pixels either way,
/// and there are no more of them than steps.
pub proof fn lemma_wheel_deltas_bounded(remaining: int, i: int, n: int, jitters: Seq<i64>)
    requires
        i <= n,
    ensures
        wheel_deltas(remaining, i, n, jitters).len() <= n - i,
        forall|k: int| 0 <= k < wheel_deltas(remaining, i, n, jitters).len() ==> {
            let d = #[trigger] wheel_deltas(remaining, i, n, jitters)[k];
            d != 0 && -200 <= d <= 200
        },
    decreases n - i,
{
    if i < n {
        let s = wheel_step(remaining, i, n, jitters[i] as int);
        if s == 0 {
            lemma_wheel_deltas_bounded(remaining, i + 1, n, jitters);
        } else {
            lemma_wheel_deltas_bounded(remaining - s, i + 1, n, jitters);
            let rest = wheel_deltas(remaining - s, i + 1, n, jitters);
            assert forall|k: int| 0 <= k < (seq![s] + rest).len() implies {
                let d = #[trigger] (seq![s] + rest)[k];
                d != 0 && -200 <= d <= 200
            } by {
                if k > 0 {
                    assert((seq![s] + rest)[k] == rest[k - 1]);
                }
            }
        }
    }
}

/// A scroll of less than 200 pixels either way takes three steps, and the
/// deltas dispatched add up to the requested distance within the jitter of
/// one step, well inside 10 pixels for each step.
pub proof fn lemma_small_scroll_lands(delta_y: int, jitters: Seq<i64>)
    requires
        -200 < delta_y < 200,
        jitters.len() == 3,
        jitters_ok(jitters),
    ensures
        scroll_steps_for(delta_y) == 3,
        -10 <= delta_y - total(wheel_deltas(delta_y, 0, 3, jitters)) <= 10,
{
    lemma_wheel_total(delta_y, 0, 3, jitters);
    let j0 = jitters[0] as int;
    let j1 = jitters[1] as int;
    let j2 = jitters[2] as int;
    let s0 = wheel_step(delta_y, 0, 3, j0);
    let r1 = delta_y - s0;
    assert(-200 < s0 < 200 && s0 == trunc_div(trunc_div(delta_y, 3), 2) + j0);
    assert(-240 < r1 < 240);
    let s1 = wheel_step(r1, 1, 3, j1);
    assert(s1 == trunc_div(r1, 2) + j1);
    let r2 = r1 - s1;
    assert(-131 < r2 < 131);
    let s2 = wheel_step(r2, 2, 3, j2);
    assert(s2 == r2 + j2);
    assert(wheel_left(delta_y, 0, 3, jitters) == wheel_left(r1, 1, 3, jitters));
    assert(wheel_left(r1, 1, 3, jitters) == wheel_left(r2, 2, 3, jitters));
    assert(wheel_left(r2, 2, 3, jitters) == wheel_left(r2 - s2, 3, 3, jitters));
    assert(wheel_left(r2 - s2, 3, 3, jitters) == r2 - s2);
}

impl GhostPage {
    /// A human scroll by `delta_y` pixels (down when positive) at the cursor:
    /// split into 3 to 15 steps by [`scroll_step_count`], each the eased
    /// share of what remains plus a jitter in `[-10, 10)`, held to 200
    /// pixels either way; steps of zero are left out, and each step is
    /// followed by a pause of 16 to 49 ms.
    pub fn scroll_human(&self, delta_y: i32) -> (r: Vec<ScrollStep>)
        ensures
            exists|jitters: Seq<i64>| #![trigger wheel_deltas(delta_y as int, 0, jitters.len() as int, jitters)]
                jitters.len() == scroll_steps_for(delta_y as int) && jitters_ok(jitters)
                && r@.map_values(|s: ScrollStep| s.delta_y as int)
                    == wheel_deltas(delta_y as int, 0, jitters.len() as int, jitters),
            forall|k: int| 0 <= k < r@.len() ==> (#[trigger] r@[k]).at == self@
                && 16 <= r@[k].pause_ms < 50,
    {
        let n = scroll_step_count(delta_y);
        let mut jitters: Vec<i64> = Vec::new();
        let mut i: usize = 0;
        while i < n
            invariant
                i <= n,
                jitters@.len() == i,
                jitters_ok(jitters@),
            decreases n - i,
        {
            jitters.push(random_range(-10, 10) as i64);
            i = i + 1;
        }
        let deltas = scroll_deltas(delta_y, &jitters);
        let here = self.mouse_position();
        let mut steps: Vec<ScrollStep> = Vec::new();
        let mut k: usize = 0;
        while k < deltas.len()
            invariant
                k <= deltas@.len(),
                steps@.len() == k,
                here == self@,
                forall|m: int| 0 <= m < k ==> (#[trigger] steps@[m]).at == self@
                    && 16 <= steps@[m].pause_ms < 50 && steps@[m].delta_y == deltas@[m],
            decreases deltas@.len() - k,
        {
            let pause = random_range(16, 50) as u64;
            steps.push(ScrollStep { at: here, delta_y: deltas[k], pause_ms: pause });
            k = k + 1;
        }
        assert(steps@.map_values(|s: ScrollStep| s.delta_y as int) =~= deltas@.map_values(|v: i32| v as int));
        steps
    }

}

} // verus!
