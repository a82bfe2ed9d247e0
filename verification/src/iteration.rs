//! Iteration control of the shaders: escape-time counting for the
//! Mandelbrot and Julia sets, the bounded folding loops of the distance
//! estimators, the ray march, the animated recursion depths and the choice
//! of Julia constant.
//!
//! The arithmetic on points is the caller's (it is floating point); here
//! stand the loops and the integer decisions around it.

use vstd::prelude::*;

verus! {

/// The iteration limit of the Mandelbrot and Julia shaders.
pub const RECURSION_LIMIT: i32 = 500;

/// How many Julia constants the Julia shader cycles through.
pub const JULIA_CONSTANT_COUNT: usize = 6;

/// `orbit` is the path of an escape-time iteration from `z0` that stopped
/// with result `r` under the limit `max_iter`: each point is `step` of the
/// one before, no point after the start escaped except, when `r` is below
/// the limit, the last one, which did.
pub open spec fn is_escape_orbit<S, F: Fn(S) -> S, G: Fn(&S) -> bool>(
    step: F,
    escaped: G,
    z0: S,
    max_iter: int,
    r: int,
    orbit: Seq<S>,
) -> bool {
    let escaped_early = 0 <= r < max_iter;
    &&& orbit.len() == (if escaped_early { r + 2 } else if max_iter > 0 { max_iter + 1 } else { 1 })
    &&& orbit[0] == z0
    &&& forall|k: int| 0 <= k < orbit.len() - 1 ==> call_ensures(step, (orbit[k],), #[trigger] orbit[k + 1])
    &&& forall|k: int| 1 <= k < orbit.len() - (if escaped_early { 1int } else { 0 }) ==> call_ensures(escaped, (&orbit[k],), false)
    &&& escaped_early ==> call_ensures(escaped, (&orbit[r + 1],), true)
}

/// Escape-time iteration: applies `step` to `z0` up to `max_iter` times and
/// returns the index `i` of the first step after which the point has
/// `escaped`, or `max_iter` when it never does (or when `max_iter` is not
/// positive).
pub fn escape_time<S, F: Fn(S) -> S, G: Fn(&S) -> bool>(z0: S, max_iter: i32, step: F, escaped: G) -> (r: i32)
    requires
        forall|z: S| call_requires(step, (z,)),
        forall|z: &S| call_requires(escaped, (z,)),
    ensures
        max_iter <= 0 ==> r == max_iter,
        max_iter > 0 ==> 0 <= r <= max_iter,
        exists|orbit: Seq<S>| is_escape_orbit(step, escaped, z0, max_iter as int, r as int, orbit),
{
    let ghost mut orbit: Seq<S> = seq![z0];
    let mut z = z0;
    let mut i: i32 = 0;
    while i < max_iter
        invariant
            forall|z: S| call_requires(step, (z,)),
            forall|z: &S| call_requires(escaped, (z,)),
            0 <= i,
            max_iter > 0 ==> i <= max_iter,
            max_iter <= 0 ==> i == 0,
            orbit.len() == i + 1,
            orbit[0] == z0,
            orbit[i as int] == z,
            forall|k: int| 0 <= k < i ==> call_ensures(step, (orbit[k],), #[trigger] orbit[k + 1]),
            forall|k: int| 1 <= k <= i ==> call_ensures(escaped, (&orbit[k],), false),
        decreases max_iter - i,
    {
        z = step(z);
        proof {
            orbit = orbit.push(z);
        }
        let out = escaped(&z);
        if out {
            assert(is_escape_orbit(step, escaped, z0, max_iter as int, i as int, orbit));
            return i;
        }
        i = i + 1;
    }
    assert(is_escape_orbit(step, escaped, z0, max_iter as int, max_iter as int, orbit));
    max_iter
}

/// `orbit` is the path of a bounded iteration from `z0` that stopped after
/// `n` steps: each point is `step` of the one before, every point before the
/// last was fit to go on, and the iteration stopped because it reached
/// `max_iter` steps or because the last point was not fit to go on.
pub open spec fn is_bounded_orbit<S, F: Fn(S) -> S, G: Fn(&S) -> bool>(
    keep_going: G,
    step: F,
    z0: S,
    max_iter: int,
    n: int,
    orbit: Seq<S>,
) -> bool {
    &&& orbit.len() == n + 1
    &&& orbit[0] == z0
    &&& forall|k: int| 0 <= k < n ==> call_ensures(step, (orbit[k],), #[trigger] orbit[k + 1])
    &&& forall|k: int| 0 <= k < n ==> call_ensures(keep_going, (&orbit[k],), true)
    &&& n < max_iter ==> call_ensures(keep_going, (&orbit[n],), false)
}

/// Bounded iteration: applies `step` to `z0` while fewer than `max_iter`
/// steps were taken and the current point is fit to `keep_going`; returns
/// the last point and the number of steps taken.
pub fn iterate_while<S, F: Fn(S) -> S, G: Fn(&S) -> bool>(z0: S, max_iter: i32, keep_going: G, step: F) -> (r: (S, i32))
    requires
        forall|z: S| call_requires(step, (z,)),
        forall|z: &S| call_requires(keep_going, (z,)),
    ensures
        0 <= r.1,
        max_iter >= 0 ==> r.1 <= max_iter,
        max_iter < 0 ==> r.1 == 0,
        exists|orbit: Seq<S>|
            is_bounded_orbit(keep_going, step, z0, max_iter as int, r.1 as int, orbit) && orbit.last()
                == r.0,
{
    let ghost mut orbit: Seq<S> = seq![z0];
    let mut z = z0;
    let mut n: i32 = 0;
    loop
        invariant
            forall|z: S| call_requires(step, (z,)),
            forall|z: &S| call_requires(keep_going, (z,)),
            0 <= n,
            max_iter >= 0 ==> n <= max_iter,
            max_iter < 0 ==> n == 0,
            orbit.len() == n + 1,
            orbit[0] == z0,
            orbit[n as int] == z,
            forall|k: int| 0 <= k < n ==> call_ensures(step, (orbit[k],), #[trigger] orbit[k + 1]),
            forall|k: int| 0 <= k < n ==> call_ensures(keep_going, (&orbit[k],), true),
        ensures
            0 <= n,
            max_iter >= 0 ==> n <= max_iter,
            max_iter < 0 ==> n == 0,
            orbit.len() == n + 1,
            orbit[0] == z0,
            orbit[n as int] == z,
            forall|k: int| 0 <= k < n ==> call_ensures(step, (orbit[k],), #[trigger] orbit[k + 1]),
            forall|k: int| 0 <= k < n ==> call_ensures(keep_going, (&orbit[k],), true),
            n < max_iter ==> call_ensures(keep_going, (&orbit[n as int],), false),
        decreases max_iter - n,
    {
        if n >= max_iter {
            break;
        }
        let go = keep_going(&z);
        if !go {
            break;
        }
        z = step(z);
        proof {
            orbit = orbit.push(z);
        }
        n = n + 1;
    }
    assert(is_bounded_orbit(keep_going, step, z0, max_iter as int, n as int, orbit) && orbit.last()
        == z);
    (z, n)
}

/// What one step of a ray march found.
#[derive(Clone, Copy, Debug, PartialEq, Eq, Structural)]
pub enum MarchEvent {
    /// Nothing yet: march on.
    Continue,
    /// The ray reached the surface.
    Hit,
    /// The ray left the scene.
    Escaped,
}

/// Where a ray march ended: its last state, how many steps it took and what
/// the last step found.
pub struct MarchEnd<S> {
    pub state: S,
    pub steps: i32,
    pub event: MarchEvent,
}

/// `trace` holds the state and event of each step of a march from `init`
/// that ended with `end`: each step is `step` of the state before, every
/// step but the last found nothing, and the end is the last step's state and
/// event (or `init` and `Continue` when no step was taken).
pub open spec fn is_march_trace<S, F: Fn(S) -> (S, MarchEvent)>(
    step: F,
    init: S,
    trace: Seq<(S, MarchEvent)>,
    end: MarchEnd<S>,
) -> bool {
    &&& trace.len() == end.steps
    &&& trace.len() > 0 ==> call_ensures(step, (init,), trace[0])
    &&& forall|k: int| 1 <= k < trace.len() ==> call_ensures(step, (trace[k - 1].0,), #[trigger] trace[k])
    &&& forall|k: int| 0 <= k < trace.len() - 1 ==> (#[trigger] trace[k]).1 == MarchEvent::Continue
    &&& trace.len() == 0 ==> end.state == init && end.event == MarchEvent::Continue
    &&& trace.len() > 0 ==> end.state == trace.last().0 && end.event == trace.last().1
}

/// A ray march: applies `step` to the state at most `max_steps` times,
/// stopping after the first step that finds a hit or an escape.
pub fn march<S, F: Fn(S) -> (S, MarchEvent)>(init: S, max_steps: i32, step: F) -> (r: MarchEnd<S>)
    requires
        forall|s: S| call_requires(step, (s,)),
    ensures
        max_steps <= 0 ==> r.steps == 0,
        max_steps > 0 ==> 1 <= r.steps <= max_steps,
        r.event == MarchEvent::Continue && max_steps > 0 ==> r.steps == max_steps,
        exists|trace: Seq<(S, MarchEvent)>| is_march_trace(step, init, trace, r),
{
    let ghost mut trace: Seq<(S, MarchEvent)> = Seq::empty();
    let mut state = init;
    let mut event = MarchEvent::Continue;
    let mut steps: i32 = 0;
    while steps < max_steps
        invariant
            forall|s: S| call_requires(step, (s,)),
            0 <= steps,
            max_steps > 0 ==> steps <= max_steps,
            max_steps <= 0 ==> steps == 0,
            trace.len() == steps,
            trace.len() > 0 ==> call_ensures(step, (init,), trace[0]),
            forall|k: int| 1 <= k < trace.len() ==> call_ensures(step, (trace[k - 1].0,), #[trigger] trace[k]),
            forall|k: int| 0 <= k < trace.len() ==> (#[trigger] trace[k]).1 == MarchEvent::Continue,
            trace.len() == 0 ==> state == init,
            trace.len() > 0 ==> state == trace.last().0,
            event == MarchEvent::Continue,
        decreases max_steps - steps,
    {
        let (next, e) = step(state);
        proof {
            trace = trace.push((next, e));
        }
        state = next;
        event = e;
        steps = steps + 1;
        if e != MarchEvent::Continue {
            let r = MarchEnd { state, steps, event };
            assert(is_march_trace(step, init, trace, r));
            return r;
        }
    }
    let r = MarchEnd { state, steps, event };
    assert(is_march_trace(step, init, trace, r));
    r
}

/// What an escape-time result means: the result `r` counts the steps
/// after which the point had not escaped, and when it is below the limit
/// the step after those escaped.
pub proof fn lemma_escape_time_counts_steps_before_escape<S, F: Fn(S) -> S, G: Fn(&S) -> bool>(
    step: F,
    escaped: G,
    z0: S,
    max_iter: int,
    r: int,
    orbit: Seq<S>,
)
    requires
        is_escape_orbit(step, escaped, z0, max_iter, r, orbit),
        0 < max_iter,
        0 <= r <= max_iter,
    ensures
        orbit[0] == z0,
        forall|i: int|
            0 <= i < r ==> call_ensures(step, (orbit[i],), #[trigger] orbit[i + 1]) && call_ensures(
                escaped,
                (&orbit[i + 1],),
                false,
            ),
        r < max_iter ==> call_ensures(step, (orbit[r],), orbit[r + 1]) && call_ensures(
            escaped,
            (&orbit[r + 1],),
            true,
        ),
{
}

/// What a bounded iteration's result means: each of the `n` steps went
/// from a point fit to go on, and fewer than `max_iter` steps are taken only
/// when the last point is not fit to go on.
pub proof fn lemma_bounded_iteration_steps<S, F: Fn(S) -> S, G: Fn(&S) -> bool>(
    keep_going: G,
    step: F,
    z0: S,
    max_iter: int,
    n: int,
    orbit: Seq<S>,
)
    requires
        is_bounded_orbit(keep_going, step, z0, max_iter, n, orbit),
        0 <= n,
    ensures
        orbit[0] == z0,
        orbit.len() == n + 1,
        forall|i: int|
            0 <= i < n ==> call_ensures(keep_going, (&orbit[i],), true) && call_ensures(
                step,
                (orbit[i],),
                #[trigger] orbit[i + 1],
            ),
        n < max_iter ==> call_ensures(keep_going, (&orbit[n],), false),
{
}

/// What a march's end means: the first step goes from the start, each later
/// step from the state before it, every step but the last found nothing,
/// and the end is the last step's state and finding.
pub proof fn lemma_march_steps<S, F: Fn(S) -> (S, MarchEvent)>(
    step: F,
    init: S,
    trace: Seq<(S, MarchEvent)>,
    end: MarchEnd<S>,
)
    requires
        is_march_trace(step, init, trace, end),
        end.steps > 0,
    ensures
        call_ensures(step, (init,), trace[0]),
        forall|i: int|
            0 < i < end.steps ==> call_ensures(step, (trace[i - 1].0,), #[trigger] trace[i])
                && trace[i - 1].1 == MarchEvent::Continue,
        end.state == trace[end.steps - 1].0,
        end.event == trace[end.steps - 1].1,
{
}

/// The Mandelbrot shader's iteration limit: the zoom-dependent count, but at
/// most `RECURSION_LIMIT`.
pub fn mandelbrot_iteration_limit(zoom_iterations: i32) -> (r: i32)
    ensures
        r == if zoom_iterations < RECURSION_LIMIT { zoom_iterations } else { RECURSION_LIMIT },
{
    if zoom_iterations < RECURSION_LIMIT {
        zoom_iterations
    } else {
        RECURSION_LIMIT
    }
}

/// The Koch curve's recursion depth from the animation step (half-seconds
/// into the 14 s cycle): one less than the step, at most 6; a depth of -1
/// draws the plain line.
pub fn koch_iterations(step: i32) -> (r: i32)
    requires
        step > i32::MIN,
    ensures
        r == if step - 1 > 6 { 6 } else { step - 1 },
{
    let iteration = -1 + step;
    if iteration > 6 {
        6
    } else {
        iteration
    }
}

/// The Sierpinski carpet's recursion depth from the animation step: the
/// step, at most 6.
pub fn carpet_iterations(step: i32) -> (r: i32)
    ensures
        r == if step > 6 { 6 } else { step },
{
    if step > 6 {
        6
    } else {
        step
    }
}

/// The Sierpinski triangle's recursion depth from the animation step: the
/// step, at most 8.
pub fn triangle_iterations(step: i32) -> (r: i32)
    ensures
        r == if step > 8 { 8 } else { step },
{
    if step > 8 {
        8
    } else {
        step
    }
}

/// The remainder of `a` by a positive `m` as Rust's `%` computes it on
/// signed integers: it has the sign of `a`.
pub open spec fn remainder_toward_zero(a: int, m: int) -> int {
    if a >= 0 {
        a % m
    } else {
        -((-a) % m)
    }
}

/// The slot of the Julia constant for animation cycle `cycle`: the
/// remainder of `cycle` by the number of constants (with the sign of
/// `cycle`), converted to `usize`, so that a negative remainder wraps to a
/// slot past the table.
pub fn julia_constant_index(cycle: i32) -> (r: usize)
    ensures
        r == remainder_toward_zero(cycle as int, 6) as usize,
        r < JULIA_CONSTANT_COUNT <==> remainder_toward_zero(cycle as int, 6) >= 0,
        remainder_toward_zero(cycle as int, 6) >= 0 ==> r == remainder_toward_zero(cycle as int, 6),
{
    let rem = cycle % 6;
    proof {
        if rem < 0 {
            assert((rem as usize) >= 6) by (bit_vector)
                requires
                    rem < 0,
                    rem > -6,
            ;
        }
    }
    rem as usize
}

/// For non-negative cycles the Julia constants come round every six cycles,
/// and each slot is in the table.
pub proof fn lemma_julia_constants_cycle(cycle: int)
    requires
        cycle >= 0,
    ensures
        remainder_toward_zero(cycle + 6, 6) == remainder_toward_zero(cycle, 6),
        0 <= remainder_toward_zero(cycle, 6) < JULIA_CONSTANT_COUNT,
{
}

/// The Julia slot of a cycle is its remainder by six, as Rust's `%` gives
/// it: for a non-negative cycle the slot `r` is in 0..6 and `cycle - r` is a
/// multiple of six, so cycles 0 to 5 show the six constants in order; for a
/// negative cycle the remainder `r` is in -5..=0 and `cycle - r` is a
/// multiple of six.
pub proof fn lemma_julia_slot_is_remainder(cycle: int)
    ensures
        cycle >= 0 ==> 0 <= remainder_toward_zero(cycle, 6) < 6,
        cycle < 0 ==> -6 < remainder_toward_zero(cycle, 6) <= 0,
        (cycle - remainder_toward_zero(cycle, 6)) % 6 == 0,
        remainder_toward_zero(0, 6) == 0,
        remainder_toward_zero(1, 6) == 1,
        remainder_toward_zero(2, 6) == 2,
        remainder_toward_zero(3, 6) == 3,
        remainder_toward_zero(4, 6) == 4,
        remainder_toward_zero(5, 6) == 5,
{
    if cycle >= 0 {
        vstd::arithmetic::div_mod::lemma_fundamental_div_mod(cycle, 6);
        vstd::arithmetic::div_mod::lemma_mod_multiples_basic(cycle / 6, 6);
        assert(cycle - remainder_toward_zero(cycle, 6) == (cycle / 6) * 6);
    } else {
        vstd::arithmetic::div_mod::lemma_fundamental_div_mod(-cycle, 6);
        vstd::arithmetic::div_mod::lemma_mod_multiples_basic(-((-cycle) / 6), 6);
        assert(cycle - remainder_toward_zero(cycle, 6) == (-((-cycle) / 6)) * 6);
    }
}

} // verus!
