//! The online-hours clock: how much of an interval falls inside the daily
//! active window of local time.

use crate::calendar::{civil_secs, local_day, resolve_local_datetime, within_a_day, MAX_DAY, MIN_DAY};
use crate::instant::Instant;
use vstd::prelude::*;

verus! {

/// Local hour at which the daily active window opens.
pub const ONLINE_START_HOUR: u32 = 8;

/// Local hour at which the daily active window closes.
pub const ONLINE_END_HOUR: u32 = 22;

/// Upper bound of the online seconds of one day: the fourteen hours of the
/// window, and a day of zone offset at either end.
pub const MAX_DAY_ONLINE_SECS: u64 = 223_200;

/// Most days that an interval of the supported range touches.
pub const MAX_DAYS_WALKED: u64 = 3_652_427;

/// Upper bound of the online seconds of an interval of the supported range:
/// `MAX_DAY_ONLINE_SECS` for each of `MAX_DAYS_WALKED` days.
pub const MAX_ONLINE_SECS: u64 = 815_221_706_400;

/// The active window of one local day: the instants at which it opens and
/// closes, each absent where local time skips that reading.
#[derive(Clone, Copy, Debug, PartialEq, Eq, Structural)]
pub struct DayWindow {
    pub opens: Option<Instant>,
    pub closes: Option<Instant>,
}

impl DayWindow {
    /// Both ends, where present, are well formed.
    pub open spec fn wf(self) -> bool {
        &&& self.opens matches Some(t) ==> t.wf()
        &&& self.closes matches Some(t) ==> t.wf()
    }

    /// Both ends, where present, lie less than a day away from the readings
    /// of a UTC clock on day `day`.
    pub open spec fn fits(self, day: int) -> bool {
        &&& self.opens matches Some(t) ==> within_a_day(t, civil_secs(day, ONLINE_START_HOUR as int))
        &&& self.closes matches Some(t) ==> within_a_day(t, civil_secs(day, ONLINE_END_HOUR as int))
    }

    /// Whole seconds of the interval from `start` to `end` that fall into this
    /// window. On the interval's first day the count begins at the later of
    /// `start` and the opening, on its last day it stops at the earlier of
    /// `end` and the closing; on other days the whole window counts. A window
    /// that lacks an end counts nothing.
    pub open spec fn spec_online_seconds(
        self,
        start: Instant,
        end: Instant,
        first: bool,
        last: bool,
    ) -> int {
        match (self.opens, self.closes) {
            (Some(opens), Some(closes)) => {
                let from = if first {
                    start.spec_later(opens)
                } else {
                    opens
                };
                let to = if last {
                    end.spec_earlier(closes)
                } else {
                    closes
                };
                from.spec_whole_seconds_until(to)
            },
            _ => 0,
        }
    }

    /// Whole seconds of the interval from `start` to `end` that fall into this
    /// window; see `spec_online_seconds`.
    pub fn online_seconds(&self, start: Instant, end: Instant, first: bool, last: bool) -> (r: u64)
        requires
            self.wf(),
            start.wf(),
            end.wf(),
        ensures
            r == self.spec_online_seconds(start, end, first, last),
    {
        match (self.opens, self.closes) {
            (Some(opens), Some(closes)) => {
                let from = if first {
                    start.later(opens)
                } else {
                    opens
                };
                let to = if last {
                    end.earlier(closes)
                } else {
                    closes
                };
                from.whole_seconds_until(to)
            },
            _ => 0,
        }
    }
}

/// Number of days that a walk from `first_day` visits when it stops at the
/// first day that is not before `last_day`.
pub open spec fn days_walked(first_day: int, last_day: int) -> int {
    if first_day < last_day {
        last_day - first_day + 1
    } else {
        1
    }
}

/// Online seconds of the interval from `start` to `end` over the first `n` of
/// the given windows, where `windows[i]` is the window of day `first_day + i`
/// and `last_day` is the day on which the interval ends.
pub open spec fn spec_online_sum(
    start: Instant,
    end: Instant,
    first_day: int,
    last_day: int,
    windows: Seq<DayWindow>,
    n: int,
) -> int
    decreases n,
{
    if n <= 0 {
        0
    } else {
        spec_online_sum(start, end, first_day, last_day, windows, n - 1) + windows[n
            - 1].spec_online_seconds(start, end, n - 1 == 0, first_day + n - 1 == last_day)
    }
}

/// Every window is well formed.
pub open spec fn windows_wf(windows: Seq<DayWindow>) -> bool {
    forall|i: int| 0 <= i < windows.len() ==> (#[trigger] windows[i]).wf()
}

/// Window `i` fits day `first_day + i`, for every `i`.
pub open spec fn windows_fit(windows: Seq<DayWindow>, first_day: int) -> bool {
    forall|i: int| 0 <= i < windows.len() ==> (#[trigger] windows[i]).fits(first_day + i)
}

/// A window that fits a day holds at most `MAX_DAY_ONLINE_SECS` online
/// seconds of any interval.
pub proof fn lemma_day_bound(
    window: DayWindow,
    day: int,
    start: Instant,
    end: Instant,
    first: bool,
    last: bool,
)
    requires
        window.fits(day),
    ensures
        window.wf(),
        0 <= window.spec_online_seconds(start, end, first, last) <= MAX_DAY_ONLINE_SECS,
{
}

/// The online seconds over `n` windows are not negative and grow with `n`.
pub proof fn lemma_sum_grows(
    start: Instant,
    end: Instant,
    first_day: int,
    last_day: int,
    windows: Seq<DayWindow>,
    m: int,
    n: int,
)
    requires
        0 <= m <= n,
    ensures
        0 <= spec_online_sum(start, end, first_day, last_day, windows, m) <= spec_online_sum(
            start,
            end,
            first_day,
            last_day,
            windows,
            n,
        ),
    decreases n,
{
    if m < n {
        lemma_sum_grows(start, end, first_day, last_day, windows, m, n - 1);
    } else if 0 < n {
        lemma_sum_grows(start, end, first_day, last_day, windows, m - 1, n - 1);
    }
}

/// Windows that fit their days hold at most `MAX_DAY_ONLINE_SECS` online
/// seconds each.
pub proof fn lemma_sum_bound(
    start: Instant,
    end: Instant,
    first_day: int,
    last_day: int,
    windows: Seq<DayWindow>,
    n: int,
)
    requires
        0 <= n <= windows.len(),
        windows_fit(windows, first_day),
    ensures
        spec_online_sum(start, end, first_day, last_day, windows, n) <= n * MAX_DAY_ONLINE_SECS,
    decreases n,
{
    if 0 < n {
        lemma_sum_bound(start, end, first_day, last_day, windows, n - 1);
        lemma_day_bound(
            windows[n - 1],
            first_day + n - 1,
            start,
            end,
            n - 1 == 0,
            first_day + n - 1 == last_day,
        );
    }
}

/// A night between two active windows counts nothing: for an interval that
/// starts within the window of one day and ends within that of the next, the
/// online seconds are those from the start to the first closing and those
/// from the second opening to the end.
pub proof fn lemma_night_is_skipped(
    start: Instant,
    end: Instant,
    first_day: int,
    evening: DayWindow,
    morning: DayWindow,
)
    requires
        start.wf(),
        end.wf(),
        evening.wf(),
        morning.wf(),
        evening.opens is Some,
        evening.closes is Some,
        morning.opens is Some,
        morning.closes is Some,
        evening.opens->0.as_nanos() <= start.as_nanos() <= evening.closes->0.as_nanos(),
        morning.opens->0.as_nanos() <= end.as_nanos() <= morning.closes->0.as_nanos(),
    ensures
        spec_online_sum(start, end, first_day, first_day + 1, seq![evening, morning], 2)
            == start.spec_whole_seconds_until(evening.closes->0)
            + morning.opens->0.spec_whole_seconds_until(end),
{
    let windows = seq![evening, morning];
    assert(spec_online_sum(start, end, first_day, first_day + 1, windows, 0) == 0);
    assert(spec_online_sum(start, end, first_day, first_day + 1, windows, 1)
        == windows[0].spec_online_seconds(start, end, true, false));
    assert(spec_online_sum(start, end, first_day, first_day + 1, windows, 2) == spec_online_sum(
        start,
        end,
        first_day,
        first_day + 1,
        windows,
        1,
    ) + windows[1].spec_online_seconds(start, end, false, true));
}

/// Online seconds of the interval from `start` to `end`, given the active
/// windows of the local days from `first_day` on, one for each day in turn,
/// and the local day `last_day` on which the interval ends: the sum over the
/// windows of what `DayWindow::online_seconds` counts.
pub fn online_seconds_in(
    start: Instant,
    end: Instant,
    first_day: i32,
    last_day: i32,
    windows: &Vec<DayWindow>,
) -> (total: u64)
    requires
        start.wf(),
        end.wf(),
        windows_wf(windows@),
        spec_online_sum(start, end, first_day as int, last_day as int, windows@, windows@.len() as int)
            <= u64::MAX,
    ensures
        total == spec_online_sum(
            start,
            end,
            first_day as int,
            last_day as int,
            windows@,
            windows@.len() as int,
        ),
{
    let mut total: u64 = 0;
    let mut i: usize = 0;
    while i < windows.len()
        invariant
            0 <= i <= windows.len(),
            start.wf(),
            end.wf(),
            windows_wf(windows@),
            spec_online_sum(
                start,
                end,
                first_day as int,
                last_day as int,
                windows@,
                windows@.len() as int,
            ) <= u64::MAX,
            total == spec_online_sum(
                start,
                end,
                first_day as int,
                last_day as int,
                windows@,
                i as int,
            ),
        decreases windows.len() - i,
    {
        let last = i as i128 == last_day as i128 - first_day as i128;
        let seconds = windows[i].online_seconds(start, end, i == 0, last);
        proof {
            lemma_sum_grows(
                start,
                end,
                first_day as int,
                last_day as int,
                windows@,
                i + 1,
                windows@.len() as int,
            );
        }
        total = total + seconds;
        i = i + 1;
    }
    total
}

/// The active windows of the local days from `first_day` on, up to the first
/// day that is not before `last_day`.
pub fn local_day_windows(first_day: i32, last_day: i32) -> (windows: Vec<DayWindow>)
    requires
        MIN_DAY - 1 <= first_day <= MAX_DAY + 1,
        MIN_DAY - 1 <= last_day <= MAX_DAY + 1,
    ensures
        windows@.len() == days_walked(first_day as int, last_day as int),
        windows_fit(windows@, first_day as int),
{
    let mut windows: Vec<DayWindow> = Vec::new();
    let mut day: i32 = first_day;
    loop
        invariant_except_break
            first_day <= day,
            day <= last_day || day == first_day,
            windows@.len() == day - first_day,
        invariant
            MIN_DAY - 1 <= first_day <= MAX_DAY + 1,
            MIN_DAY - 1 <= last_day <= MAX_DAY + 1,
            windows_fit(windows@, first_day as int),
        ensures
            windows@.len() == days_walked(first_day as int, last_day as int),
        decreases last_day - day,
    {
        let opens = resolve_local_datetime(day, ONLINE_START_HOUR);
        let closes = resolve_local_datetime(day, ONLINE_END_HOUR);
        windows.push(DayWindow { opens, closes });
        if day >= last_day {
            break ;
        }
        day = day + 1;
    }
    windows
}

/// The walk over local days that gives `total`: it starts on a day next to
/// the UTC day of `start`, ends on one next to that of `end`, and finds
/// windows that fit their days.
pub open spec fn walk_gives(
    start: Instant,
    end: Instant,
    first_day: int,
    last_day: int,
    windows: Seq<DayWindow>,
    total: int,
) -> bool {
    &&& start.utc_day() - 1 <= first_day <= start.utc_day() + 1
    &&& end.utc_day() - 1 <= last_day <= end.utc_day() + 1
    &&& windows.len() == days_walked(first_day, last_day)
    &&& windows_fit(windows, first_day)
    &&& total == spec_online_sum(start, end, first_day, last_day, windows, windows.len() as int)
}

/// What holds of the online seconds of the interval from `start` to `end`,
/// whatever the machine's time zone: an interval that does not run forward
/// holds none, any other holds what a walk over its local days gives, and
/// never more than `MAX_ONLINE_SECS`.
pub open spec fn is_online_seconds(start: Instant, end: Instant, total: int) -> bool {
    &&& end.as_nanos() <= start.as_nanos() ==> total == 0
    &&& start.as_nanos() < end.as_nanos() ==> exists|
        first_day: int,
        last_day: int,
        windows: Seq<DayWindow>,
    | #[trigger] walk_gives(start, end, first_day, last_day, windows, total)
    &&& 0 <= total <= MAX_ONLINE_SECS
}

/// Seconds of the interval from `start` to `end` that fall inside the daily
/// active window of local time, from `ONLINE_START_HOUR` to `ONLINE_END_HOUR`.
///
/// An interval that does not run forward holds none. For any other, the
/// local days from that of `start` to that of `end` are walked and the
/// overlaps with each day's window added up. Which days and windows those
/// are is decided by the machine's time zone.
pub fn online_seconds_between(start: Instant, end: Instant) -> (total: u64)
    requires
        start.on_calendar(),
        end.on_calendar(),
    ensures
        is_online_seconds(start, end, total as int),
{
    if !start.is_before(end) {
        return 0;
    }
    let first_day = local_day(start);
    let last_day = local_day(end);
    let windows = local_day_windows(first_day, last_day);
    proof {
        lemma_sum_bound(
            start,
            end,
            first_day as int,
            last_day as int,
            windows@,
            windows@.len() as int,
        );
        assert forall|i: int| 0 <= i < windows@.len() implies (#[trigger] windows@[i]).wf() by {
            assert(windows@[i].fits(first_day + i));
        }
        assert(windows@.len() * MAX_DAY_ONLINE_SECS <= MAX_ONLINE_SECS) by (nonlinear_arith)
            requires
                windows@.len() <= MAX_DAYS_WALKED,
                MAX_DAYS_WALKED * MAX_DAY_ONLINE_SECS == MAX_ONLINE_SECS,
        ;
    }
    let total = online_seconds_in(start, end, first_day, last_day, &windows);
    proof {
        assert(walk_gives(
            start,
            end,
            first_day as int,
            last_day as int,
            windows@,
            total as int,
        ));
    }
    total
}

} // verus!
