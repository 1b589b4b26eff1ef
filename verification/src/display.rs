//! The countdown to the reset and the estimate of the locked-out gap, as
//! texts.

use crate::calendar::{local_clock, WallClock};
use crate::clock::MAX_ONLINE_SECS;
use crate::instant::Instant;
use crate::projection::{Ratio, UNITS_PER_PERCENT};
use crate::text::{decimal, digit_text, push_decimal};
use vstd::prelude::*;

verus! {

/// Largest numerator of a projection for which the gap is computed: the
/// largest utilization over a window of twice `MAX_ONLINE_SECS`.
pub const MAX_PROJECTED_NUM: u128 = 7_002_701_134_324_184_376_000;

/// The countdown of less than a day: whole hours and whole minutes.
pub open spec fn spec_countdown_text(seconds_remaining: int) -> Seq<char> {
    "resets in "@ + decimal((seconds_remaining / 3600) as nat) + "h "@ + decimal(
        ((seconds_remaining % 3600) / 60) as nat,
    ) + "m"@
}

/// The abbreviated English name of a day of the week, counted from Monday.
pub open spec fn weekday_name(weekday: int) -> Seq<char> {
    if weekday == 0 {
        "Mon"@
    } else if weekday == 1 {
        "Tue"@
    } else if weekday == 2 {
        "Wed"@
    } else if weekday == 3 {
        "Thu"@
    } else if weekday == 4 {
        "Fri"@
    } else if weekday == 5 {
        "Sat"@
    } else {
        "Sun"@
    }
}

/// The hour of the twelve-hour clock, from 1 to 12.
pub open spec fn spec_hour12(hour: int) -> int {
    if hour % 12 == 0 {
        12
    } else {
        hour % 12
    }
}

/// A number below 100 in two digits.
pub open spec fn two_digits(n: int) -> Seq<char> {
    decimal((n / 10) as nat) + decimal((n % 10) as nat)
}

/// The reset as a clock on the wall will show it: abbreviated weekday, hour
/// of the twelve-hour clock without a leading zero, minute in two digits,
/// and `AM` or `PM`.
pub open spec fn spec_absolute_reset_text(shown: WallClock) -> Seq<char> {
    "resets "@ + weekday_name(shown.weekday as int) + " "@ + decimal(
        spec_hour12(shown.hour as int) as nat,
    ) + ":"@ + two_digits(shown.minute as int) + if shown.hour < 12 {
        " AM"@
    } else {
        " PM"@
    }
}

/// The abbreviated English name of a day of the week; see `weekday_name`.
fn weekday_text(weekday: u32) -> (name: &'static str)
    ensures
        name@ == weekday_name(weekday as int),
{
    if weekday == 0 {
        "Mon"
    } else if weekday == 1 {
        "Tue"
    } else if weekday == 2 {
        "Wed"
    } else if weekday == 3 {
        "Thu"
    } else if weekday == 4 {
        "Fri"
    } else if weekday == 5 {
        "Sat"
    } else {
        "Sun"
    }
}

/// Text of a reset a day or more ahead, for what the clock on the wall will
/// show then; see `spec_absolute_reset_text`.
pub fn absolute_reset_text(shown: WallClock) -> (r: String)
    requires
        shown.wf(),
    ensures
        r@ == spec_absolute_reset_text(shown),
{
    let mut text = String::from_str("resets ");
    text.append(weekday_text(shown.weekday));
    text.append(" ");
    let hour12 = if shown.hour % 12 == 0 {
        12
    } else {
        shown.hour % 12
    };
    push_decimal(&mut text, hour12 as u64);
    text.append(":");
    text.append(digit_text((shown.minute / 10) as u64));
    text.append(digit_text((shown.minute % 10) as u64));
    if shown.hour < 12 {
        text.append(" AM");
    } else {
        text.append(" PM");
    }
    assert(text@ =~= spec_absolute_reset_text(shown));
    text
}

/// `text` tells the time left until the reset: `resetting...` with nothing
/// left, the countdown with less than a day left, and from a day on the
/// reset as some clock on the wall shows it.
pub open spec fn is_reset_display(seconds_remaining: int, text: Seq<char>) -> bool {
    &&& seconds_remaining <= 0 ==> text == "resetting..."@
    &&& 0 < seconds_remaining < 86_400 ==> text == spec_countdown_text(seconds_remaining)
    &&& seconds_remaining >= 86_400 ==> exists|shown: WallClock|
        shown.wf() && text == #[trigger] spec_absolute_reset_text(shown)
}

/// Text of the time left until the window resets at `resets_at`.
///
/// With nothing left it is `resetting...`. With less than 24 hours left it is
/// `resets in {h}h {m}m`. From 24 hours on it is
/// `resets {weekday} {h}:{mm} {AM/PM}`, for what the clock of the machine's
/// time zone will show at the reset.
pub fn format_reset_time(seconds_remaining: u64, resets_at: Instant) -> (r: String)
    requires
        resets_at.on_calendar(),
    ensures
        is_reset_display(seconds_remaining as int, r@),
{
    if seconds_remaining == 0 {
        return String::from_str("resetting...");
    }
    let hours = seconds_remaining / 3600;
    let minutes = (seconds_remaining % 3600) / 60;
    if hours < 24 {
        let mut text = String::from_str("resets in ");
        push_decimal(&mut text, hours);
        text.append("h ");
        push_decimal(&mut text, minutes);
        text.append("m");
        text
    } else {
        absolute_reset_text(local_clock(resets_at))
    }
}

/// The gap as a fraction of seconds, numerator and denominator: all of the
/// remaining online time once the limit is reached, else the share of it
/// that lies behind the point where the projected line crosses 100 percent,
/// `remaining * (projected - 100) / (projected - utilization)`.
pub open spec fn spec_gap_fraction(utilization: u32, projected: Ratio, remaining: u64) -> (int, int) {
    if utilization >= 100 * UNITS_PER_PERCENT {
        (remaining as int, 1)
    } else {
        (
            remaining * (projected.num - 100 * UNITS_PER_PERCENT * projected.den),
            projected.num - utilization * projected.den,
        )
    }
}

/// Whole hours of a gap of `num / den` seconds.
pub open spec fn spec_gap_hours(num: int, den: int) -> int {
    num / (3600 * den)
}

/// Minutes of a gap of `num / den` seconds past its whole hours, rounded up.
pub open spec fn spec_gap_minutes(num: int, den: int) -> int {
    (num % (3600 * den) + 60 * den - 1) / (60 * den)
}

/// Text of a gap: `{h}h {m}m gap`, or without hours `{m}m gap` and then never
/// less than one minute.
pub open spec fn spec_gap_text(hours: int, minutes: int) -> Seq<char> {
    if hours > 0 {
        decimal(hours as nat) + "h "@ + decimal(minutes as nat) + "m gap"@
    } else if minutes > 1 {
        decimal(minutes as nat) + "m gap"@
    } else {
        decimal(1) + "m gap"@
    }
}

/// The estimate of the locked-out gap, present only where the projection
/// lies above 100 percent and online time remains.
pub open spec fn spec_gap_display(utilization: u32, projected: Ratio, remaining: u64) -> Option<
    Seq<char>,
> {
    if projected.spec_at_most(100) || remaining == 0 {
        None
    } else {
        let (num, den) = spec_gap_fraction(utilization, projected, remaining);
        Some(spec_gap_text(spec_gap_hours(num, den), spec_gap_minutes(num, den)))
    }
}

/// How long the caller will be locked out before the window resets, as a
/// text; see `spec_gap_display`.
pub fn compute_gap_display(utilization: u32, projected: Ratio, online_seconds_remaining: u64) -> (r:
    Option<String>)
    requires
        projected.wf(),
        projected.num <= MAX_PROJECTED_NUM,
        online_seconds_remaining <= MAX_ONLINE_SECS,
    ensures
        r is Some == spec_gap_display(utilization, projected, online_seconds_remaining) is Some,
        r matches Some(text) ==> Some(text@) == spec_gap_display(
            utilization,
            projected,
            online_seconds_remaining,
        ),
{
    if !projected.exceeds(100) || online_seconds_remaining == 0 {
        return None;
    }
    let remaining = online_seconds_remaining as u128;
    let limit: u128 = 100 * UNITS_PER_PERCENT as u128;
    assert(limit * projected.den <= u128::MAX && utilization * projected.den <= u128::MAX)
        by (nonlinear_arith)
        requires
            limit <= u32::MAX,
            utilization <= u32::MAX,
            projected.den <= u64::MAX,
    ;
    let full: u128 = limit * projected.den as u128;
    assert(full == 100 * UNITS_PER_PERCENT * projected.den);
    let (num, den): (u128, u128) = if utilization >= 100 * UNITS_PER_PERCENT {
        (remaining, 1)
    } else {
        let over: u128 = projected.num - full;
        let used: u128 = utilization as u128 * projected.den as u128;
        assert(used <= full) by (nonlinear_arith)
            requires
                used == utilization * projected.den,
                full == limit * projected.den,
                utilization < limit,
        ;
        assert(remaining * over <= MAX_ONLINE_SECS * MAX_PROJECTED_NUM && remaining * over
            <= remaining * (projected.num - used)) by (nonlinear_arith)
            requires
                remaining <= MAX_ONLINE_SECS,
                over <= MAX_PROJECTED_NUM,
                over <= projected.num - used,
        ;
        (remaining * over, projected.num - used)
    };
    assert((num as int, den as int) == spec_gap_fraction(
        utilization,
        projected,
        online_seconds_remaining,
    ));
    let hour: u128 = 3600 * den;
    let minute: u128 = 60 * den;
    let hours: u128 = num / hour;
    let minutes: u128 = (num % hour + minute - 1) / minute;
    assert(hours <= remaining) by (nonlinear_arith)
        requires
            hours == num / hour,
            hour == 3600 * den,
            den >= 1,
            num <= remaining * den,
    ;
    assert(minutes <= 60) by (nonlinear_arith)
        requires
            minutes == (num % hour + minute - 1) / (minute as int),
            hour == 60 * minute,
            minute >= 1,
            0 <= num % hour < hour,
    ;
    assert(hours == spec_gap_hours(num as int, den as int));
    assert(minutes == spec_gap_minutes(num as int, den as int));
    let mut text = String::new();
    if hours > 0 {
        push_decimal(&mut text, hours as u64);
        text.append("h ");
        push_decimal(&mut text, minutes as u64);
    } else if minutes > 1 {
        push_decimal(&mut text, minutes as u64);
    } else {
        push_decimal(&mut text, 1);
    }
    text.append("m gap");
    assert(text@ =~= spec_gap_text(hours as int, minutes as int));
    assert(spec_gap_display(utilization, projected, online_seconds_remaining) == Some(text@));
    Some(text)
}

/// Without a projection above 100 percent there is no gap to report.
pub proof fn lemma_no_gap_within_limit(utilization: u32, projected: Ratio, remaining: u64)
    requires
        projected.spec_at_most(100),
    ensures
        spec_gap_display(utilization, projected, remaining) is None,
{
}

} // verus!
