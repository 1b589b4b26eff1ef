//! The burn-rate projector: utilization extrapolated to the end of the quota
//! window, as an exact fraction.

use vstd::prelude::*;

verus! {

/// Utilization is counted in thousandths of a percent.
pub const UNITS_PER_PERCENT: u32 = 1_000;

/// Below this many online seconds since the window began, the rate seen so
/// far says too little to extrapolate from.
pub const MIN_PROJECTION_ELAPSED_SECONDS: u64 = 600;

/// A utilization that is not rounded: `num / den` thousandths of a percent.
#[derive(Clone, Copy, Debug, PartialEq, Eq, Structural)]
pub struct Ratio {
    pub num: u128,
    pub den: u64,
}

impl Ratio {
    /// The denominator is not zero.
    pub open spec fn wf(self) -> bool {
        self.den > 0
    }

    /// The value lies strictly above `percent` percent.
    pub open spec fn spec_exceeds(self, percent: int) -> bool {
        self.num > percent * UNITS_PER_PERCENT * self.den
    }

    /// The value is at most `percent` percent.
    pub open spec fn spec_at_most(self, percent: int) -> bool {
        self.num <= percent * UNITS_PER_PERCENT * self.den
    }

    /// Whether the value lies strictly above `percent` percent.
    pub fn exceeds(self, percent: u32) -> (r: bool)
        ensures
            r == self.spec_exceeds(percent as int),
    {
        assert(percent * UNITS_PER_PERCENT <= 0xffff_ffff_ffff_u64) by (nonlinear_arith)
            requires
                percent <= u32::MAX,
                UNITS_PER_PERCENT <= u32::MAX,
        ;
        let units: u64 = percent as u64 * UNITS_PER_PERCENT as u64;
        assert(units * self.den <= u128::MAX) by (nonlinear_arith)
            requires
                units <= 0xffff_ffff_ffff_u64,
                self.den <= u64::MAX,
        ;
        assert(percent * UNITS_PER_PERCENT * self.den == units * self.den) by (nonlinear_arith)
            requires
                units == percent * UNITS_PER_PERCENT,
        ;
        self.num > units as u128 * self.den as u128
    }

    /// A utilization of whole thousandths of a percent, as a fraction.
    pub open spec fn spec_whole(utilization: u32) -> Ratio {
        Ratio { num: utilization as u128, den: 1 }
    }
}

/// Utilization at the end of the window, if the window holds `total_online`
/// online seconds and `utilization` was reached in the first `elapsed_online`
/// of them at an even rate: `utilization * total_online / elapsed_online`.
/// With less than `MIN_PROJECTION_ELAPSED_SECONDS` elapsed, or an empty
/// window, it is the utilization itself.
pub open spec fn spec_extrapolate(utilization: u32, elapsed_online: u64, total_online: u64) -> Ratio {
    if elapsed_online < MIN_PROJECTION_ELAPSED_SECONDS || total_online == 0 {
        Ratio::spec_whole(utilization)
    } else {
        Ratio { num: (utilization * total_online) as u128, den: elapsed_online }
    }
}

/// Extrapolates `utilization` to the end of the window; see
/// `spec_extrapolate`. The result is not rounded and has no upper limit.
pub fn extrapolate(utilization: u32, elapsed_online: u64, total_online: u64) -> (projected: Ratio)
    ensures
        projected == spec_extrapolate(utilization, elapsed_online, total_online),
        projected.wf(),
{
    if elapsed_online < MIN_PROJECTION_ELAPSED_SECONDS || total_online == 0 {
        Ratio { num: utilization as u128, den: 1 }
    } else {
        assert(utilization * total_online <= u128::MAX) by (nonlinear_arith)
            requires
                utilization <= u32::MAX,
                total_online <= u64::MAX,
        ;
        Ratio { num: utilization as u128 * total_online as u128, den: elapsed_online }
    }
}

/// With less than ten online minutes elapsed the projection is the
/// utilization itself, whatever the window holds.
pub proof fn lemma_early_sample_is_not_extrapolated(
    utilization: u32,
    elapsed_online: u64,
    total_online: u64,
)
    requires
        elapsed_online < MIN_PROJECTION_ELAPSED_SECONDS,
    ensures
        spec_extrapolate(utilization, elapsed_online, total_online) == Ratio::spec_whole(
            utilization,
        ),
{
}

} // verus!
