//! Control points and their interpolation modes.

use crate::screen::ScreenPos;
use vstd::prelude::*;

verus! {

/// Offset, on both axes, of the handle that a control point gets when it
/// becomes a Bézier point: a tenth of a unit.
pub const HANDLE_OFFSET: i32 = 1_000;

/// Threshold that a control point gets when it becomes a step: half of the
/// way to the next point.
pub const STEP_THRESHOLD: i32 = 5_000;

/// How the curve runs from a control point to the next one.
#[derive(Clone, Copy, Debug, PartialEq, Eq, Structural)]
pub enum Interpolation {
    /// Hold the point until the fraction of the way to the next point reaches
    /// the threshold, counted in ten-thousandths; the next point's value
    /// afterwards.
    Step(i32),
    /// Straight line to the next point.
    Linear,
    /// Cosine ease to the next point.
    Cosine,
    /// Bézier curve to the next point, bent by the handle.
    Bezier(ScreenPos),
}

/// A control point of the curve.
#[derive(Clone, Copy, Debug, PartialEq, Eq, Structural)]
pub struct Key {
    /// Parameter at which the curve reaches the point.
    pub t: i32,
    /// Where the point is.
    pub value: ScreenPos,
    /// How the curve leaves the point.
    pub interpolation: Interpolation,
}

impl Interpolation {
    /// The mode that follows `self` in the cycle step, linear, cosine, Bézier,
    /// for a control point at `p`.
    pub open spec fn cycled(self, p: ScreenPos) -> Interpolation {
        match self {
            Interpolation::Step(_) => Interpolation::Linear,
            Interpolation::Linear => Interpolation::Cosine,
            Interpolation::Cosine => Interpolation::Bezier(
                p.shifted(HANDLE_OFFSET as int, HANDLE_OFFSET as int),
            ),
            Interpolation::Bezier(_) => Interpolation::Step(STEP_THRESHOLD),
        }
    }

    /// Whether two modes are of the same kind, whatever threshold or handle
    /// they carry.
    pub open spec fn same_kind(self, other: Interpolation) -> bool {
        match self {
            Interpolation::Step(_) => other is Step,
            Interpolation::Linear => other is Linear,
            Interpolation::Cosine => other is Cosine,
            Interpolation::Bezier(_) => other is Bezier,
        }
    }
}

impl Key {
    pub fn new(t: i32, value: ScreenPos, interpolation: Interpolation) -> (key: Key)
        ensures
            key == (Key { t, value, interpolation }),
    {
        Key { t, value, interpolation }
    }

    /// The control point that a point placed at `p` makes: the parameter is
    /// the horizontal coordinate.
    pub open spec fn at(p: ScreenPos, interpolation: Interpolation) -> Key {
        Key { t: p.x, value: p, interpolation }
    }
}

/// Switches an interpolation mode to the next one of the cycle.
pub fn cycle_interpolation(p: ScreenPos, i: Interpolation) -> (next: Interpolation)
    ensures
        next == i.cycled(p),
{
    match i {
        Interpolation::Step(_) => Interpolation::Linear,
        Interpolation::Linear => Interpolation::Cosine,
        Interpolation::Cosine => Interpolation::Bezier(p.shift(HANDLE_OFFSET, HANDLE_OFFSET)),
        Interpolation::Bezier(_) => Interpolation::Step(STEP_THRESHOLD),
    }
}

/// Four steps of the cycle lead back to the kind of mode they started from,
/// and to the very same mode where it carries nothing.
pub proof fn lemma_cycle_returns(p: ScreenPos, i: Interpolation)
    ensures
        i.cycled(p).cycled(p).cycled(p).cycled(p).same_kind(i),
        i is Linear || i is Cosine ==> i.cycled(p).cycled(p).cycled(p).cycled(p) == i,
        i is Step ==> i.cycled(p) is Linear,
        i is Linear ==> i.cycled(p) is Cosine,
        i is Cosine ==> i.cycled(p) is Bezier,
        i is Bezier ==> i.cycled(p) is Step,
{
}

} // verus!
