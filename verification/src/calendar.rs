//! The civil calendar of the machine's time zone, and the text forms of an
//! instant.
//!
//! Every function here that is marked `external_body` calls the `chrono`
//! crate; its contract is taken from that crate's source and is not proved.

use crate::instant::{Instant, SECS_PER_DAY, SECS_PER_HOUR};
use chrono::{DateTime, Datelike, Local, LocalResult, NaiveDate, NaiveTime, TimeZone, Timelike, Utc};
use vstd::prelude::*;

verus! {

/// Number of the first day of the supported range, counted from the epoch.
pub const MIN_DAY: i32 = -719_528;

/// Number of the last day of the supported range, counted from the epoch.
pub const MAX_DAY: i32 = 2_932_896;

/// What a wall-clock reading of the local time zone stands for.
#[derive(Clone, Copy, Debug, PartialEq, Eq, Structural)]
pub enum LocalReading {
    /// Exactly one instant shows the reading.
    Single(Instant),
    /// The clock was turned back over the reading: two instants show it.
    Ambiguous(Instant, Instant),
    /// The clock was turned forward over the reading: no instant shows it.
    Missing,
}

/// Seconds since the epoch at which a clock that runs on UTC shows `hour`
/// o'clock on day `day`.
pub open spec fn civil_secs(day: int, hour: int) -> int {
    day * (SECS_PER_DAY as int) + hour * (SECS_PER_HOUR as int)
}

/// The instant is a whole second less than a day away from `nominal`.
pub open spec fn within_a_day(t: Instant, nominal: int) -> bool {
    &&& t.nanos == 0
    &&& nominal - SECS_PER_DAY < t.secs < nominal + SECS_PER_DAY
}

impl LocalReading {
    /// Every instant of the reading is less than a day away from `nominal`.
    pub open spec fn near(self, nominal: int) -> bool {
        match self {
            LocalReading::Single(t) => within_a_day(t, nominal),
            LocalReading::Ambiguous(a, b) => within_a_day(a, nominal) && within_a_day(b, nominal),
            LocalReading::Missing => true,
        }
    }

    /// Every instant of the reading is well formed.
    pub open spec fn wf(self) -> bool {
        match self {
            LocalReading::Single(t) => t.wf(),
            LocalReading::Ambiguous(a, b) => a.wf() && b.wf(),
            LocalReading::Missing => true,
        }
    }

    /// The first instant that shows the reading, if any does.
    pub open spec fn spec_earliest(self) -> Option<Instant> {
        match self {
            LocalReading::Single(t) => Some(t),
            LocalReading::Ambiguous(a, b) => Some(a.spec_earlier(b)),
            LocalReading::Missing => None,
        }
    }

    /// The first instant that shows the reading: of two candidates the earlier
    /// one, and none where the reading does not exist.
    pub fn earliest(self) -> (r: Option<Instant>)
        requires
            self.wf(),
        ensures
            r == self.spec_earliest(),
    {
        match self {
            LocalReading::Single(t) => Some(t),
            LocalReading::Ambiguous(a, b) => Some(a.earlier(b)),
            LocalReading::Missing => None,
        }
    }
}

/// The day of the local calendar on which `t` falls, counted from the epoch.
///
/// Calls `DateTime::with_timezone` with `Local`, then `date_naive` and
/// `NaiveDate::to_epoch_days`. The local date is that of the UTC reading moved
/// by the zone's offset, which `chrono` keeps below 24 hours: so the day is
/// that of `t` in UTC or one next to it. Which of the three depends on the
/// machine's time zone.
#[verifier::external_body]
pub(crate) fn local_day(t: Instant) -> (day: i32)
    requires
        t.on_calendar(),
    ensures
        t.utc_day() - 1 <= day <= t.utc_day() + 1,
{
    let utc = DateTime::from_timestamp(t.secs, t.nanos).unwrap();
    utc.with_timezone(&Local).date_naive().to_epoch_days()
}

/// The instants at which the local clock shows `hour`:00:00 on day `day`.
///
/// Calls `TimeZone::from_local_datetime` on `Local`. Each instant it gives is
/// the local reading minus a zone offset of whole seconds below 24 hours, so
/// it is a whole second less than a day away from the same reading on UTC.
/// How many instants there are depends on the machine's time zone.
#[verifier::external_body]
pub(crate) fn local_reading(day: i32, hour: u32) -> (r: LocalReading)
    requires
        MIN_DAY - 1 <= day <= MAX_DAY + 1,
        hour < 24,
    ensures
        r.near(civil_secs(day as int, hour as int)),
{
    let date = NaiveDate::from_epoch_days(day).unwrap();
    let time = NaiveTime::from_hms_opt(hour, 0, 0).unwrap();
    let found = Local.from_local_datetime(&date.and_time(time));
    match found.map(|t| Instant { secs: t.timestamp(), nanos: t.timestamp_subsec_nanos() }) {
        LocalResult::Single(t) => LocalReading::Single(t),
        LocalResult::Ambiguous(a, b) => LocalReading::Ambiguous(a, b),
        LocalResult::None => LocalReading::Missing,
    }
}

/// The instant at which local time first shows `hour`:00:00 on day `day`:
/// where the clock is turned back over that reading, the earlier of the two
/// instants; where it is turned forward over it, none.
pub fn resolve_local_datetime(day: i32, hour: u32) -> (r: Option<Instant>)
    requires
        MIN_DAY - 1 <= day <= MAX_DAY + 1,
        hour < 24,
    ensures
        r matches Some(t) ==> within_a_day(t, civil_secs(day as int, hour as int)),
{
    let reading = local_reading(day, hour);
    reading.earliest()
}

/// The timestamp that a text names: seconds since the epoch and nanoseconds
/// past that second, or nothing where the text names none. It stands for
/// what `chrono` reads from the text as a `DateTime<Utc>`, which accepts
/// RFC 3339 with a space in place of the `T`.
pub uninterp spec fn parsed_timestamp(text: Seq<char>) -> Option<(i64, u32)>;

/// The RFC 3339 text of a timestamp in UTC, as `chrono` writes it.
pub uninterp spec fn rfc3339_text(secs: int, nanos: int) -> Seq<char>;

/// What a clock on the wall shows: the day of the week, counted from Monday
/// as 0, the hour of the day and the minute of the hour.
#[derive(Clone, Copy, Debug, PartialEq, Eq, Structural)]
pub struct WallClock {
    pub weekday: u32,
    pub hour: u32,
    pub minute: u32,
}

impl WallClock {
    /// There are seven days in a week, 24 hours in a day and 60 minutes in
    /// an hour.
    pub open spec fn wf(self) -> bool {
        self.weekday < 7 && self.hour < 24 && self.minute < 60
    }
}

/// Reads a timestamp from a text.
///
/// Calls `str::parse::<DateTime<Utc>>`, then `DateTime::timestamp` and
/// `DateTime::timestamp_subsec_nanos`. The result depends on the text alone.
/// For a leap second the nanoseconds are a second or more.
#[verifier::external_body]
pub(crate) fn parse_timestamp(text: &str) -> (r: Option<(i64, u32)>)
    ensures
        r == parsed_timestamp(text@),
{
    let t = text.parse::<DateTime<Utc>>().ok()?;
    Some((t.timestamp(), t.timestamp_subsec_nanos()))
}

/// Reads the system clock.
///
/// Calls `Utc::now`, then `DateTime::timestamp` and
/// `DateTime::timestamp_subsec_nanos`. Nothing is promised of the reading.
#[verifier::external_body]
pub(crate) fn utc_now() -> (r: (i64, u32)) {
    let t = Utc::now();
    (t.timestamp(), t.timestamp_subsec_nanos())
}

/// Writes an instant as RFC 3339 text in UTC.
///
/// Calls `DateTime::from_timestamp`, which accepts every instant of the
/// supported range, then `DateTime::to_rfc3339`. The text depends on the
/// instant alone.
#[verifier::external_body]
pub(crate) fn to_rfc3339(t: Instant) -> (r: String)
    requires
        t.on_calendar(),
    ensures
        r@ == rfc3339_text(t.secs as int, t.nanos as int),
{
    DateTime::from_timestamp(t.secs, t.nanos).unwrap().to_rfc3339()
}

/// What the local clock shows at the instant `t`.
///
/// Calls `DateTime::with_timezone` with `Local`, then `Datelike::weekday`
/// with `Weekday::num_days_from_monday`, `Timelike::hour` and
/// `Timelike::minute`, which stay below 7, 24 and 60. What they are depends
/// on the machine's time zone.
#[verifier::external_body]
pub(crate) fn local_clock(t: Instant) -> (shown: WallClock)
    requires
        t.on_calendar(),
    ensures
        shown.wf(),
{
    let local = DateTime::from_timestamp(t.secs, t.nanos).unwrap().with_timezone(&Local);
    WallClock {
        weekday: local.weekday().num_days_from_monday(),
        hour: local.hour(),
        minute: local.minute(),
    }
}

/// The instant that the system clock shows, held within the supported range.
pub fn now() -> (t: Instant)
    ensures
        t.on_calendar(),
{
    let reading = utc_now();
    Instant::from_timestamp(reading.0, reading.1)
}

} // verus!
