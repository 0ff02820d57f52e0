//! Sub-tick interpolation: where to draw the head between two ticks.
//!
//! The simulation moves in whole cells, once per tick. For smooth drawing the
//! host wants the head somewhere between the cell it left and the cell it
//! reached. That place is kept exact here: progress through the tick is a
//! ratio of two integers, and an interpolated coordinate is an integer
//! numerator over the same denominator. Nothing of this ever flows back into
//! the simulation.

use crate::game_state::Position;
use vstd::prelude::*;

verus! {

/// Progress through the current tick: the ratio `num / den`, between 0 (the
/// tick has just happened) and 1 (the next tick is due).
#[derive(Debug, Clone, Copy, PartialEq, Eq, Structural)]
pub struct Fraction {
    pub num: u32,
    pub den: u32,
}

impl Fraction {
    /// The ratio is defined and lies between 0 and 1.
    pub open spec fn well_formed(&self) -> bool {
        0 < self.den && self.num <= self.den
    }

    /// The ratio is 0.
    pub open spec fn is_start(&self) -> bool {
        self.num == 0
    }

    /// The ratio is 1.
    pub open spec fn is_complete(&self) -> bool {
        self.num == self.den
    }

    /// `self <= other` as ratios, compared by cross-multiplication.
    pub open spec fn at_most(&self, other: Fraction) -> bool {
        self.num * other.den <= other.num * self.den
    }

    /// The ratio 0, as `0 / 1`.
    pub open spec fn spec_zero() -> Fraction {
        Fraction { num: 0, den: 1 }
    }

    /// The ratio 0, as `0 / 1`.
    #[verifier::when_used_as_spec(spec_zero)]
    pub fn zero() -> (f: Fraction)
        ensures
            f == Fraction::spec_zero(),
    {
        Fraction { num: 0, den: 1 }
    }
}

/// Progress through a tick of `speed_ms` milliseconds once `elapsed_ms` of them
/// have passed: `elapsed_ms / speed_ms`, clamped at 1. A tick of no length is
/// complete at once.
pub open spec fn spec_progress_after(elapsed_ms: u64, speed_ms: u32) -> Fraction {
    if speed_ms == 0 {
        Fraction { num: 1, den: 1 }
    } else if elapsed_ms >= speed_ms {
        Fraction { num: speed_ms, den: speed_ms }
    } else {
        Fraction { num: elapsed_ms as u32, den: speed_ms }
    }
}

/// Computes the progress through a tick of `speed_ms` milliseconds once
/// `elapsed_ms` of them have passed.
#[verifier::when_used_as_spec(spec_progress_after)]
pub fn progress_after(elapsed_ms: u64, speed_ms: u32) -> (progress: Fraction)
    ensures
        progress == spec_progress_after(elapsed_ms, speed_ms),
        progress.well_formed(),
{
    if speed_ms == 0 {
        Fraction { num: 1, den: 1 }
    } else if elapsed_ms >= speed_ms as u64 {
        Fraction { num: speed_ms, den: speed_ms }
    } else {
        Fraction { num: elapsed_ms as u32, den: speed_ms }
    }
}

/// Progress never runs backwards: more elapsed time within one tick gives at
/// least as much progress, and never more than the whole.
pub proof fn lemma_progress_monotonic(earlier_ms: u64, later_ms: u64, speed_ms: u32)
    requires
        earlier_ms <= later_ms,
    ensures
        progress_after(earlier_ms, speed_ms).at_most(progress_after(later_ms, speed_ms)),
        progress_after(later_ms, speed_ms).well_formed(),
        speed_ms > 0 ==> progress_after(0, speed_ms).is_start(),
        later_ms >= speed_ms ==> progress_after(later_ms, speed_ms).is_complete(),
{
    let a = progress_after(earlier_ms, speed_ms);
    let b = progress_after(later_ms, speed_ms);
    assert(a.num * b.den <= b.num * a.den) by (nonlinear_arith)
        requires
            a.den == b.den,
            a.num <= b.num,
    ;
}

/// The point `progress` of the way from `from` to `to`, times `progress.den`.
pub open spec fn lerp(from: int, to: int, progress: Fraction) -> int {
    from * (progress.den - progress.num) + to * progress.num
}

/// A place between cells: the point `(x / scale, y / scale)`, in cells.
#[derive(Debug, Clone, Copy, PartialEq, Eq, Structural)]
pub struct InterpolatedHead {
    pub x: i64,
    pub y: i64,
    pub scale: u32,
}

impl InterpolatedHead {
    /// The point is exactly the given cell.
    pub open spec fn is_at(&self, cell: Position) -> bool {
        self.x == cell.x * self.scale && self.y == cell.y * self.scale
    }
}

/// The point `progress` of the way from cell `from` to cell `to`.
pub open spec fn spec_interpolate(from: Position, to: Position, progress: Fraction)
    -> InterpolatedHead {
    InterpolatedHead {
        x: lerp(from.x as int, to.x as int, progress) as i64,
        y: lerp(from.y as int, to.y as int, progress) as i64,
        scale: progress.den,
    }
}

/// A coordinate interpolated between two `i32` coordinates fits 64 bits, and so
/// does each of its two terms.
proof fn lemma_lerp_bounds(from: i32, to: i32, progress: Fraction)
    requires
        progress.well_formed(),
    ensures
        i64::MIN <= from * (progress.den - progress.num) <= i64::MAX,
        i64::MIN <= to * progress.num <= i64::MAX,
        i64::MIN <= lerp(from as int, to as int, progress) <= i64::MAX,
{
    let rest: int = progress.den - progress.num;
    let done: int = progress.num as int;
    assert(-0x8000_0000 * rest <= from * rest <= 0x8000_0000 * rest) by (nonlinear_arith)
        requires
            0 <= rest,
            -0x8000_0000 <= from <= 0x8000_0000,
    ;
    assert(-0x8000_0000 * done <= to * done <= 0x8000_0000 * done) by (nonlinear_arith)
        requires
            0 <= done,
            -0x8000_0000 <= to <= 0x8000_0000,
    ;
}

/// Computes the point `progress` of the way from cell `from` to cell `to`.
#[verifier::when_used_as_spec(spec_interpolate)]
pub fn interpolate(from: Position, to: Position, progress: Fraction) -> (point: InterpolatedHead)
    requires
        progress.well_formed(),
    ensures
        point == spec_interpolate(from, to, progress),
        point.x == lerp(from.x as int, to.x as int, progress),
        point.y == lerp(from.y as int, to.y as int, progress),
{
    proof {
        lemma_lerp_bounds(from.x, to.x, progress);
        lemma_lerp_bounds(from.y, to.y, progress);
    }
    let rest: i64 = (progress.den - progress.num) as i64;
    let done: i64 = progress.num as i64;
    InterpolatedHead {
        x: (from.x as i64) * rest + (to.x as i64) * done,
        y: (from.y as i64) * rest + (to.y as i64) * done,
        scale: progress.den,
    }
}

/// At progress 0 the interpolated point is the cell that was left; at
/// progress 1 it is the cell that was reached.
pub proof fn lemma_interpolate_endpoints(from: Position, to: Position, progress: Fraction)
    requires
        progress.well_formed(),
    ensures
        progress.is_start() ==> interpolate(from, to, progress).is_at(from),
        progress.is_complete() ==> interpolate(from, to, progress).is_at(to),
{
    lemma_lerp_bounds(from.x, to.x, progress);
    lemma_lerp_bounds(from.y, to.y, progress);
    if progress.is_start() {
        assert(to.x * progress.num == 0 && to.y * progress.num == 0) by (nonlinear_arith)
            requires
                progress.num == 0,
        ;
    }
    if progress.is_complete() {
        assert(from.x * (progress.den - progress.num) == 0 && from.y * (progress.den
            - progress.num) == 0) by (nonlinear_arith)
            requires
                progress.den - progress.num == 0,
        ;
    }
}

/// Between two ticks the interpolated point only ever moves towards the cell
/// that was reached: with more progress through the same tick each of its
/// coordinates lies at least as far along the way from `from` to `to`, and
/// never outside the stretch between the two.
pub proof fn lemma_interpolate_monotonic(
    from: Position,
    to: Position,
    earlier: Fraction,
    later: Fraction,
)
    requires
        later.well_formed(),
        earlier.den == later.den,
        earlier.num <= later.num,
    ensures
        ({
            let a = interpolate(from, to, earlier);
            let b = interpolate(from, to, later);
            &&& a.scale == b.scale == later.den
            &&& from.x <= to.x ==> from.x * later.den <= a.x <= b.x <= to.x * later.den
            &&& from.x >= to.x ==> from.x * later.den >= a.x >= b.x >= to.x * later.den
            &&& from.y <= to.y ==> from.y * later.den <= a.y <= b.y <= to.y * later.den
            &&& from.y >= to.y ==> from.y * later.den >= a.y >= b.y >= to.y * later.den
        }),
{
    lemma_lerp_bounds(from.x, to.x, earlier);
    lemma_lerp_bounds(from.y, to.y, earlier);
    lemma_lerp_bounds(from.x, to.x, later);
    lemma_lerp_bounds(from.y, to.y, later);
    lemma_lerp_monotonic(from.x as int, to.x as int, earlier, later);
    lemma_lerp_monotonic(from.y as int, to.y as int, earlier, later);
}

/// Between the endpoints the interpolated coordinate moves one way only: with
/// more progress through the same tick it lies at least as far towards `to`,
/// and it never leaves the stretch between `from` and `to`.
pub proof fn lemma_lerp_monotonic(from: int, to: int, earlier: Fraction, later: Fraction)
    requires
        later.well_formed(),
        earlier.den == later.den,
        earlier.num <= later.num,
    ensures
        from <= to ==> from * later.den <= lerp(from, to, earlier) <= lerp(from, to, later) <= to
            * later.den,
        from >= to ==> from * later.den >= lerp(from, to, earlier) >= lerp(from, to, later) >= to
            * later.den,
{
    let den: int = later.den as int;
    let a: int = earlier.num as int;
    let b: int = later.num as int;
    assert(lerp(from, to, earlier) == from * den + (to - from) * a) by (nonlinear_arith)
        requires
            lerp(from, to, earlier) == from * (den - a) + to * a,
    ;
    assert(lerp(from, to, later) == from * den + (to - from) * b) by (nonlinear_arith)
        requires
            lerp(from, to, later) == from * (den - b) + to * b,
    ;
    assert(to * den == from * den + (to - from) * den) by (nonlinear_arith);
    if from <= to {
        assert(0 <= (to - from) * a <= (to - from) * b <= (to - from) * den) by (nonlinear_arith)
            requires
                0 <= a <= b <= den,
                0 <= to - from,
        ;
    }
    if from >= to {
        assert(0 >= (to - from) * a >= (to - from) * b >= (to - from) * den) by (nonlinear_arith)
            requires
                0 <= a <= b <= den,
                0 >= to - from,
        ;
    }
}

} // verus!
