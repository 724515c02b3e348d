//! The values that a pointer position or a key press selects: always a whole
//! number of steps, counted in the 128-bit working domain and converted back.
use vstd::prelude::*;
use crate::geometry::Rectangle;
use crate::numeric::{int_of, narrowed, Numeric};
use crate::rounding::{
    lemma_round_half_up_near,
    lemma_round_ratio_exact,
    lemma_round_ratio_monotonic,
    lemma_round_ratio_near,
    lemma_round_ratio_signs,
    magnitude,
    round_div,
    round_half_up,
    round_ratio,
};
use vstd::arithmetic::div_mod::{
    lemma_fundamental_div_mod,
    lemma_mod_multiples_basic,
    lemma_mod_multiples_vanish,
};

verus! {

/// The step in force: the shift step while a shift key is held and a shift step
/// is set, otherwise the step.
pub open spec fn active_step(step: int, shift_step: Option<int>, shift: bool) -> int {
    if shift {
        match shift_step {
            Some(shift_step) => shift_step,
            None => step,
        }
    } else {
        step
    }
}

/// The number that a pointer at the horizontal position `x` selects on a rail
/// that begins at `left` and is `width` wide.
///
/// At or before the left edge it is `start`, at or past the right edge `end`.
/// In between, the pointer's share of the width is taken of the span from
/// `start` to `end`, counted in steps, rounded to a whole number of steps and
/// laid off from `start`. A step of zero selects nothing there.
pub open spec fn located(start: int, end: int, step: int, left: int, width: int, x: int) -> Option<
    int,
> {
    if x <= left {
        Some(start)
    } else if x >= left + width {
        Some(end)
    } else if step == 0 {
        None
    } else {
        Some(round_ratio((x - left) * (end - start), width * step) * step + start)
    }
}

/// The number one step above `value`: `value` is rounded to a whole number of
/// steps, one step is added, and what would pass `end` is held at `end`. A step
/// of zero gives nothing.
pub open spec fn incremented(value: int, end: int, step: int) -> Option<int> {
    if step == 0 {
        None
    } else {
        let next = step * (round_ratio(value, step) + 1);
        if next > end {
            Some(end)
        } else {
            Some(next)
        }
    }
}

/// The number one step below `value`: `value` is rounded to a whole number of
/// steps, one step is taken off, and what would pass `start` is held at
/// `start`. A step of zero gives nothing.
pub open spec fn decremented(value: int, start: int, step: int) -> Option<int> {
    if step == 0 {
        None
    } else {
        let next = step * (round_ratio(value, step) - 1);
        if next < start {
            Some(start)
        } else {
            Some(next)
        }
    }
}

/// Strictly inside the rail, the steps that are laid off from `start` never
/// reach farther than the span and one step.
pub proof fn lemma_located_reach(dx: int, width: int, span: int, step: int)
    requires
        0 < dx < width,
        step != 0,
    ensures
        magnitude(round_ratio(dx * span, width * step) * step) <= magnitude(span) + magnitude(step),
        magnitude(dx * span) <= width * magnitude(span),
        magnitude(width * step) == width * magnitude(step),
        width * step != 0,
{
    let n = dx * span;
    let d = width * step;
    let p = magnitude(span);
    let s = magnitude(step);
    assert(magnitude(n) == dx * p && magnitude(d) == width * s && d != 0 && dx * p <= width * p)
        by (nonlinear_arith)
        requires
            0 < dx < width,
            step != 0,
            n == dx * span,
            d == width * step,
            p == magnitude(span),
            s == magnitude(step),
    ;
    let q = round_ratio(n, d);
    let m = round_half_up(magnitude(n), magnitude(d));
    lemma_round_ratio_near(n, d);
    lemma_round_half_up_near(magnitude(n), magnitude(d));
    assert(magnitude(q * step) == m * s) by (nonlinear_arith)
        requires
            magnitude(q) == m,
            s == magnitude(step),
    ;
    assert(m * s <= p + s) by (nonlinear_arith)
        requires
            0 < dx < width,
            s >= 1,
            p >= 0,
            m >= 0,
            2 * (m * (width * s)) <= 2 * (dx * p) + width * s,
    {
        if m * s >= p + s + 1 {
            assert(m * (width * s) == (m * s) * width);
            assert((m * s) * width >= (p + s + 1) * width);
            assert((p + s + 1) * width == p * width + s * width + width);
            assert(dx * p <= width * p);
        }
    }
}

/// A number rounded to whole steps and moved by one step stays within two
/// steps of the number.
pub proof fn lemma_step_reach(value: int, step: int)
    requires
        step != 0,
    ensures
        magnitude(round_ratio(value, step)) <= magnitude(value) + 1,
        magnitude(step * (round_ratio(value, step) + 1)) <= magnitude(value) + 2 * magnitude(step),
        magnitude(step * (round_ratio(value, step) - 1)) <= magnitude(value) + 2 * magnitude(step),
{
    let q = round_ratio(value, step);
    let m = round_half_up(magnitude(value), magnitude(step));
    let s = magnitude(step);
    let v = magnitude(value);
    lemma_round_ratio_near(value, step);
    lemma_round_half_up_near(v, s);
    assert(m <= v + 1 && m * s <= v + s) by (nonlinear_arith)
        requires
            s >= 1,
            m >= 0,
            v >= 0,
            2 * (m * s) <= 2 * v + s,
    {
        assert(m * s >= m);
    }
    assert(magnitude(step * (q + 1)) <= m * s + s && magnitude(step * (q - 1)) <= m * s + s)
        by (nonlinear_arith)
        requires
            magnitude(q) == m,
            s == magnitude(step),
    {
        assert(step * (q + 1) == step * q + step);
        assert(step * (q - 1) == step * q - step);
        assert(magnitude(step * q) == m * s);
    }
}

/// At or before the left edge the pointer selects the start of the range; past
/// the left edge and at or past the right edge it selects the end.
pub proof fn lemma_located_at_edges(start: int, end: int, step: int, left: int, width: int, x: int)
    ensures
        x <= left ==> located(start, end, step, left, width, x) == Some(start),
        left < x && x >= left + width ==> located(start, end, step, left, width, x) == Some(end),
{
}

/// Strictly inside the rail, with a positive step and a range that is not
/// reversed, the pointer selects a number that is a whole number of steps away
/// from the start and not below it. Where the start is a multiple of the step,
/// so is the selected number; where the span of the range is a whole number of
/// steps, the selected number is not above the end.
pub proof fn lemma_located_inside(start: int, end: int, step: int, left: int, width: int, x: int)
    requires
        step > 0,
        start <= end,
        left < x < left + width,
    ensures
        located(start, end, step, left, width, x) is Some,
        ({
            let value = located(start, end, step, left, width, x).unwrap();
            &&& start <= value
            &&& (value - start) % step == 0
            &&& start % step == 0 ==> value % step == 0
            &&& (end - start) % step == 0 ==> value <= end
        }),
{
    let dx = x - left;
    let span = end - start;
    let n = dx * span;
    let d = width * step;
    let q = round_ratio(n, d);
    assert(n >= 0 && d > 0) by (nonlinear_arith)
        requires
            n == dx * span,
            d == width * step,
            0 < dx < width,
            span >= 0,
            step > 0,
    ;
    lemma_round_half_up_near(n, d);
    assert(q >= 0);
    assert(q * step >= 0) by (nonlinear_arith)
        requires
            q >= 0,
            step > 0,
    ;
    lemma_mod_multiples_basic(q, step);
    lemma_mod_multiples_vanish(q, start, step);
    assert(step * q == q * step) by (nonlinear_arith);
    if span % step == 0 {
        let m = span / step;
        lemma_fundamental_div_mod(span, step);
        assert(n <= m * d && m >= 0) by (nonlinear_arith)
            requires
                n == dx * span,
                d == width * step,
                span == step * m,
                0 < dx < width,
                span >= 0,
                step > 0,
        {
            assert(m * d == width * span);
        }
        lemma_round_ratio_monotonic(n, m * d, d);
        lemma_round_ratio_exact(m, d);
        assert(q * step <= span) by (nonlinear_arith)
            requires
                0 <= q <= m,
                step > 0,
                span == step * m,
        ;
    }
}

/// The sign of the step does not matter to the pointer: it selects with a step
/// and with its negative alike.
pub proof fn lemma_located_ignores_step_sign(
    start: int,
    end: int,
    step: int,
    left: int,
    width: int,
    x: int,
)
    ensures
        located(start, end, -step, left, width, x) == located(start, end, step, left, width, x),
{
    let n = (x - left) * (end - start);
    let d = width * step;
    lemma_round_ratio_signs(n, d);
    assert(width * (-step) == -d) by (nonlinear_arith)
        requires
            d == width * step,
    ;
    let q = round_ratio(n, d);
    assert((-q) * (-step) == q * step) by (nonlinear_arith);
}

/// With a positive step, one step up from below the end lands above the value
/// and not above the end; from the end or above it lands on the end.
pub proof fn lemma_incremented_climbs(value: int, end: int, step: int)
    requires
        step > 0,
    ensures
        incremented(value, end, step) is Some,
        ({
            let next = incremented(value, end, step).unwrap();
            if value >= end {
                next == end
            } else {
                value < next <= end
            }
        }),
{
    let q = round_ratio(value, step);
    lemma_round_ratio_near(value, step);
    assert(step * (q + 1) > value) by (nonlinear_arith)
        requires
            step > 0,
            2 * magnitude(value - q * step) <= step,
    {
        assert(step * (q + 1) == q * step + step);
    }
}

/// With a positive step, one step down from above the start lands below the
/// value and not below the start; from the start or below it lands on the
/// start.
pub proof fn lemma_decremented_descends(value: int, start: int, step: int)
    requires
        step > 0,
    ensures
        decremented(value, start, step) is Some,
        ({
            let next = decremented(value, start, step).unwrap();
            if value <= start {
                next == start
            } else {
                start <= next < value
            }
        }),
{
    let q = round_ratio(value, step);
    lemma_round_ratio_near(value, step);
    assert(step * (q - 1) < value) by (nonlinear_arith)
        requires
            step > 0,
            2 * magnitude(value - q * step) <= step,
    {
        assert(step * (q - 1) == q * step - step);
    }
}

/// The value after `times` steps up.
pub open spec fn climbed(value: int, end: int, step: int, times: nat) -> int
    decreases times,
{
    if times == 0 {
        value
    } else {
        match incremented(value, end, step) {
            Some(next) => climbed(next, end, step, (times - 1) as nat),
            None => value,
        }
    }
}

/// With a positive step, stepping up over and over reaches the end of the
/// range: after at least one step and at least as many as the distance to the
/// end, the value is the end, and it stays there.
pub proof fn lemma_climb_reaches_end(value: int, end: int, step: int, times: nat)
    requires
        step > 0,
        times >= end - value,
        times >= 1 || value == end,
    ensures
        climbed(value, end, step, times) == end,
        incremented(end, end, step) == Some(end),
    decreases times,
{
    lemma_incremented_climbs(end, end, step);
    if times > 0 {
        lemma_incremented_climbs(value, end, step);
        let next = incremented(value, end, step).unwrap();
        lemma_climb_reaches_end(next, end, step, (times - 1) as nat);
    }
}

/// The value after `times` steps down.
pub open spec fn descended(value: int, start: int, step: int, times: nat) -> int
    decreases times,
{
    if times == 0 {
        value
    } else {
        match decremented(value, start, step) {
            Some(next) => descended(next, start, step, (times - 1) as nat),
            None => value,
        }
    }
}

/// With a positive step, stepping down over and over reaches the start of the
/// range: after at least one step and at least as many as the distance to the
/// start, the value is the start, and it stays there.
pub proof fn lemma_descent_reaches_start(value: int, start: int, step: int, times: nat)
    requires
        step > 0,
        times >= value - start,
        times >= 1 || value == start,
    ensures
        descended(value, start, step, times) == start,
        decremented(start, start, step) == Some(start),
    decreases times,
{
    lemma_decremented_descends(start, start, step);
    if times > 0 {
        lemma_decremented_descends(value, start, step);
        let next = decremented(value, start, step).unwrap();
        lemma_descent_reaches_start(next, start, step, (times - 1) as nat);
    }
}

/// On a range that is not reversed and whose ends the value type `T` can
/// represent, with a positive step, stepping up or down from a number of the
/// range gives a number of the range, and one that `T` can represent.
pub proof fn lemma_steps_stay_in_range<T: Numeric>(value: int, start: int, end: int, step: int)
    requires
        T::representable(start),
        T::representable(end),
        step > 0,
        start <= value <= end,
    ensures
        narrowed::<T>(incremented(value, end, step)) matches Some(next) && start <= next <= end,
        narrowed::<T>(decremented(value, start, step)) matches Some(next) && start <= next <= end,
{
    lemma_incremented_climbs(value, end, step);
    lemma_decremented_descends(value, start, step);
    let up = incremented(value, end, step).unwrap();
    let down = decremented(value, start, step).unwrap();
    T::lemma_no_gaps(start, up, end);
    T::lemma_no_gaps(start, down, end);
}

/// On a range that is not reversed, whose ends the value type `T` can
/// represent and which spans a whole number of positive steps, the pointer
/// selects a number of the range wherever it is, one that `T` can represent and
/// that is a whole number of steps away from the start.
pub proof fn lemma_pointer_stays_in_range<T: Numeric>(
    start: int,
    end: int,
    step: int,
    left: int,
    width: int,
    x: int,
)
    requires
        T::representable(start),
        T::representable(end),
        step > 0,
        start <= end,
        (end - start) % step == 0,
    ensures
        narrowed::<T>(located(start, end, step, left, width, x)) matches Some(value) && start
            <= value <= end && (value - start) % step == 0,
{
    if left < x < left + width {
        lemma_located_inside(start, end, step, left, width, x);
        let value = located(start, end, step, left, width, x).unwrap();
        T::lemma_no_gaps(start, value, end);
    } else {
        lemma_mod_multiples_basic(0, step);
    }
}

/// The value that a pointer at `x` selects on a rail with the given bounds, in
/// steps of `step` from `start`; `None` where the step is zero or the selected
/// number cannot be represented.
pub fn locate<T: Numeric>(start: T, end: T, step: T, bounds: Rectangle, x: i32) -> (value: Option<T>)
    ensures
        int_of(value) == narrowed::<T>(
            located(
                start.as_int(),
                end.as_int(),
                step.as_int(),
                bounds.x as int,
                bounds.width as int,
                x as int,
            ),
        ),
        x <= bounds.x ==> value == Some(start),
        bounds.x < x && x >= bounds.right() ==> value == Some(end),
{
    proof {
        start.lemma_in_domain();
        end.lemma_in_domain();
        step.lemma_in_domain();
    }
    let left: i128 = bounds.x as i128;
    let width: i128 = bounds.width as i128;
    let at: i128 = x as i128;
    if at <= left {
        Some(start)
    } else if at >= left + width {
        Some(end)
    } else {
        let wide_step: i128 = step.widen();
        if wide_step == 0 {
            None
        } else {
            let span: i128 = end.widen() - start.widen();
            let dx: i128 = at - left;
            proof {
                lemma_located_reach(dx as int, width as int, span as int, wide_step as int);
                assert(width * magnitude(span as int) <= 0x1_0000_0000 * 0x2_0000_0000_0000_0000)
                    by (nonlinear_arith)
                    requires
                        0 < width < 0x1_0000_0000,
                        0 <= magnitude(span as int) < 0x2_0000_0000_0000_0000,
                ;
                assert(width * magnitude(wide_step as int) <= 0x1_0000_0000
                    * 0x1_0000_0000_0000_0000) by (nonlinear_arith)
                    requires
                        0 < width < 0x1_0000_0000,
                        0 <= magnitude(wide_step as int) < 0x1_0000_0000_0000_0000,
                ;
            }
            let steps: i128 = round_div(dx * span, width * wide_step);
            let target: i128 = steps * wide_step + start.widen();
            T::narrow(target)
        }
    }
}

/// The value one step of `step` above `value`, held at `end`; `None` where the
/// step is zero or the number cannot be represented.
pub fn increment<T: Numeric>(value: T, end: T, step: T) -> (next: Option<T>)
    ensures
        int_of(next) == narrowed::<T>(incremented(value.as_int(), end.as_int(), step.as_int())),
{
    proof {
        value.lemma_in_domain();
        end.lemma_in_domain();
        step.lemma_in_domain();
    }
    let wide_step: i128 = step.widen();
    if wide_step == 0 {
        None
    } else {
        let wide: i128 = value.widen();
        proof {
            lemma_step_reach(wide as int, wide_step as int);
        }
        let steps: i128 = round_div(wide, wide_step);
        let target: i128 = wide_step * (steps + 1);
        if target > end.widen() {
            Some(end)
        } else {
            T::narrow(target)
        }
    }
}

/// The value one step of `step` below `value`, held at `start`; `None` where
/// the step is zero or the number cannot be represented.
pub fn decrement<T: Numeric>(value: T, start: T, step: T) -> (next: Option<T>)
    ensures
        int_of(next) == narrowed::<T>(decremented(value.as_int(), start.as_int(), step.as_int())),
{
    proof {
        value.lemma_in_domain();
        start.lemma_in_domain();
        step.lemma_in_domain();
    }
    let wide_step: i128 = step.widen();
    if wide_step == 0 {
        None
    } else {
        let wide: i128 = value.widen();
        proof {
            lemma_step_reach(wide as int, wide_step as int);
        }
        let steps: i128 = round_div(wide, wide_step);
        let target: i128 = wide_step * (steps - 1);
        if target < start.widen() {
            Some(start)
        } else {
            T::narrow(target)
        }
    }
}

} // verus!
