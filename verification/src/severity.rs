//! The alert classifier: severity colours and the two policies that assign
//! them.

use crate::projection::{Ratio, UNITS_PER_PERCENT};
use vstd::prelude::*;

verus! {

/// Severity of a bar, from `Gray` (nothing known) up to `RedBlink`.
#[derive(Clone, Copy, Debug, PartialEq, Eq, Structural)]
pub enum UsageColor {
    Gray,
    Green,
    Yellow,
    Red,
    RedBlink,
}

impl UsageColor {
    /// Place of the colour in the order `Gray < Green < Yellow < Red < RedBlink`.
    pub open spec fn spec_rank(self) -> int {
        match self {
            UsageColor::Gray => 0,
            UsageColor::Green => 1,
            UsageColor::Yellow => 2,
            UsageColor::Red => 3,
            UsageColor::RedBlink => 4,
        }
    }

    /// Place of the colour in the order `Gray < Green < Yellow < Red < RedBlink`.
    pub fn rank(self) -> (r: u8)
        ensures
            r == self.spec_rank(),
    {
        match self {
            UsageColor::Gray => 0,
            UsageColor::Green => 1,
            UsageColor::Yellow => 2,
            UsageColor::Red => 3,
            UsageColor::RedBlink => 4,
        }
    }
}

/// The policy of the short window: the most urgent colour only where the
/// window is nearly used up and projected to overrun, or where the projection
/// is beyond twice the limit.
pub open spec fn spec_session_color(utilization: u32, projected: Ratio) -> UsageColor {
    if (utilization > 90 * UNITS_PER_PERCENT && projected.spec_exceeds(100))
        || projected.spec_exceeds(200) {
        UsageColor::RedBlink
    } else if projected.spec_exceeds(100) {
        UsageColor::Red
    } else if projected.spec_exceeds(90) {
        UsageColor::Yellow
    } else {
        UsageColor::Green
    }
}

/// The policy of the long window, which goes by the projection alone.
pub open spec fn spec_weekly_color(projected: Ratio) -> UsageColor {
    if projected.spec_exceeds(100) {
        UsageColor::RedBlink
    } else if projected.spec_exceeds(95) {
        UsageColor::Red
    } else if projected.spec_exceeds(90) {
        UsageColor::Yellow
    } else {
        UsageColor::Green
    }
}

/// Colour of a short-window bar; see `spec_session_color`. Every threshold is
/// strict: a value that meets it exactly takes the lower colour.
pub fn compute_session_color(utilization: u32, projected: Ratio) -> (color: UsageColor)
    ensures
        color == spec_session_color(utilization, projected),
{
    let over = projected.exceeds(100);
    if (utilization > 90 * UNITS_PER_PERCENT && over) || projected.exceeds(200) {
        UsageColor::RedBlink
    } else if over {
        UsageColor::Red
    } else if projected.exceeds(90) {
        UsageColor::Yellow
    } else {
        UsageColor::Green
    }
}

/// Colour of a long-window bar; see `spec_weekly_color`. Every threshold is
/// strict: a value that meets it exactly takes the lower colour.
pub fn compute_weekly_color(projected: Ratio) -> (color: UsageColor)
    ensures
        color == spec_weekly_color(projected),
{
    if projected.exceeds(100) {
        UsageColor::RedBlink
    } else if projected.exceeds(95) {
        UsageColor::Red
    } else if projected.exceeds(90) {
        UsageColor::Yellow
    } else {
        UsageColor::Green
    }
}

/// A projection of at most 100 percent, and so one of exactly 100 percent, is
/// never red under the short-window policy and never blinks under the
/// long-window policy, which turns red above 95 percent.
pub proof fn lemma_within_limit_is_not_red(utilization: u32, projected: Ratio)
    requires
        projected.spec_at_most(100),
    ensures
        spec_session_color(utilization, projected).spec_rank() <= UsageColor::Yellow.spec_rank(),
        spec_weekly_color(projected).spec_rank() <= UsageColor::Red.spec_rank(),
        projected.spec_at_most(95) ==> spec_weekly_color(projected).spec_rank()
            <= UsageColor::Yellow.spec_rank(),
{
    assert(200 * UNITS_PER_PERCENT * projected.den >= 100 * UNITS_PER_PERCENT * projected.den)
        by (nonlinear_arith)
        requires
            projected.den >= 0,
    ;
}

/// Neither policy ever gives `Gray`.
pub proof fn lemma_classified_is_not_gray(utilization: u32, projected: Ratio)
    ensures
        spec_session_color(utilization, projected) != UsageColor::Gray,
        spec_weekly_color(projected) != UsageColor::Gray,
{
}

} // verus!
