//! Status bars and the state of one evaluation.

use crate::calendar::{now, parse_timestamp, parsed_timestamp, rfc3339_text, to_rfc3339};
use crate::clock::{is_online_seconds, online_seconds_between, MAX_ONLINE_SECS};
use crate::display::{compute_gap_display, format_reset_time, is_reset_display, spec_gap_display};
use crate::instant::Instant;
use crate::projection::{extrapolate, spec_extrapolate, Ratio, UNITS_PER_PERCENT};
use crate::severity::{
    compute_session_color, compute_weekly_color, spec_session_color, spec_weekly_color,
    UsageColor,
};
use crate::text::{decimal, push_decimal, same_text};
use vstd::prelude::*;

verus! {

/// Nominal length of the short window, in hours.
pub const SESSION_WINDOW_HOURS: u16 = 5;

/// Nominal length of the long window, in hours.
pub const WEEKLY_WINDOW_HOURS: u16 = 168;

/// Seconds by which the reset is taken to lie ahead where its timestamp
/// cannot be read.
pub const RESET_FALLBACK_SECS: i64 = 3_600;

/// One quota window as the service reports it: the utilization in
/// thousandths of a percent, which may lie above 100 percent, and the
/// timestamp of the reset as received.
#[derive(Clone, Debug)]
pub struct UsageBucket {
    pub utilization: u32,
    pub resets_at: String,
}

/// The quota windows of one poll, each absent where the service left it out.
#[derive(Clone, Debug)]
pub struct ApiUsageResponse {
    pub five_hour: Option<UsageBucket>,
    pub seven_day: Option<UsageBucket>,
    pub seven_day_sonnet: Option<UsageBucket>,
    pub seven_day_opus: Option<UsageBucket>,
    pub seven_day_oauth_apps: Option<UsageBucket>,
    pub seven_day_cowork: Option<UsageBucket>,
    pub iguana_necktie: Option<UsageBucket>,
}

/// The status of one quota window at one instant.
#[derive(Clone, Debug)]
pub struct UsageBar {
    pub label: String,
    pub utilization: u32,
    pub resets_at: String,
    pub seconds_remaining: u64,
    pub projected: Ratio,
    pub color: UsageColor,
    pub reset_display: String,
    pub gap_display: Option<String>,
}

/// The result of one evaluation: bars, or the reason why there are none.
#[derive(Clone, Debug)]
pub struct UsageState {
    pub session: Option<UsageBar>,
    pub weekly: Option<UsageBar>,
    pub last_updated: String,
    pub error: Option<String>,
}

/// A bar with its texts as sequences of characters.
pub struct UsageBarView {
    pub label: Seq<char>,
    pub utilization: u32,
    pub resets_at: Seq<char>,
    pub seconds_remaining: u64,
    pub projected: Ratio,
    pub color: UsageColor,
    pub reset_display: Seq<char>,
    pub gap_display: Option<Seq<char>>,
}

/// A state with its texts as sequences of characters.
pub struct UsageStateView {
    pub session: Option<UsageBarView>,
    pub weekly: Option<UsageBarView>,
    pub last_updated: Seq<char>,
    pub error: Option<Seq<char>>,
}

/// The characters of a text that may be absent.
pub open spec fn text_view(text: Option<String>) -> Option<Seq<char>> {
    match text {
        Some(t) => Some(t@),
        None => None,
    }
}

/// The view of a bar that may be absent.
pub open spec fn bar_view(bar: Option<UsageBar>) -> Option<UsageBarView> {
    match bar {
        Some(b) => Some(b@),
        None => None,
    }
}

impl View for UsageBar {
    type V = UsageBarView;

    open spec fn view(&self) -> UsageBarView {
        UsageBarView {
            label: self.label@,
            utilization: self.utilization,
            resets_at: self.resets_at@,
            seconds_remaining: self.seconds_remaining,
            projected: self.projected,
            color: self.color,
            reset_display: self.reset_display@,
            gap_display: text_view(self.gap_display),
        }
    }
}

impl View for UsageState {
    type V = UsageStateView;

    open spec fn view(&self) -> UsageStateView {
        UsageStateView {
            session: bar_view(self.session),
            weekly: bar_view(self.weekly),
            last_updated: self.last_updated@,
            error: text_view(self.error),
        }
    }
}

impl UsageStateView {
    /// A state holds an error and no bar, or no error.
    pub open spec fn wf(self) -> bool {
        self.error is Some ==> self.session is None && self.weekly is None
    }
}

/// The instant of the reset: the one that a reading of the timestamp names,
/// held within the supported range, or where there is no reading the instant
/// `RESET_FALLBACK_SECS` after `now`.
pub open spec fn spec_reset_instant_of(reading: Option<(i64, u32)>, now: Instant) -> Instant {
    match reading {
        Some(stamp) => Instant::spec_from_timestamp(stamp.0, stamp.1),
        None => now.spec_shifted(RESET_FALLBACK_SECS as int),
    }
}

/// The instant of the reset, from the reading of its timestamp; see
/// `spec_reset_instant_of`.
pub fn reset_instant_of(reading: Option<(i64, u32)>, now: Instant) -> (t: Instant)
    requires
        now.on_calendar(),
    ensures
        t == spec_reset_instant_of(reading, now),
        t.on_calendar(),
{
    match reading {
        Some(stamp) => Instant::from_timestamp(stamp.0, stamp.1),
        None => now.shifted(RESET_FALLBACK_SECS),
    }
}

/// The instant of the reset that the text `resets_at` names; an hour after
/// `now` where the text cannot be read as a timestamp.
pub fn reset_instant(resets_at: &str, now: Instant) -> (t: Instant)
    requires
        now.on_calendar(),
    ensures
        t == spec_reset_instant_of(parsed_timestamp(resets_at@), now),
        t.on_calendar(),
{
    reset_instant_of(parse_timestamp(resets_at), now)
}

/// The instant at which a window of `window_hours` hours began that resets
/// at `resets_at`.
pub open spec fn spec_window_start(resets_at: Instant, window_hours: u16) -> Instant {
    resets_at.spec_shifted(-(window_hours as int * 3_600))
}

/// The bar of a window, given the seconds left until its reset, the online
/// seconds that have elapsed of it and that remain of it, and the text of
/// the countdown. The projection extrapolates over the online seconds of the
/// whole window; the label `Session` selects the short-window policy and any
/// other label the long-window policy; the gap is estimated over the online
/// seconds that remain.
pub open spec fn spec_usage_bar(
    label: Seq<char>,
    utilization: u32,
    resets_at: Seq<char>,
    seconds_remaining: u64,
    elapsed_online: u64,
    remaining_online: u64,
    reset_display: Seq<char>,
) -> UsageBarView {
    let projected = spec_extrapolate(
        utilization,
        elapsed_online,
        (elapsed_online + remaining_online) as u64,
    );
    UsageBarView {
        label,
        utilization,
        resets_at,
        seconds_remaining,
        projected,
        color: if label == "Session"@ {
            spec_session_color(utilization, projected)
        } else {
            spec_weekly_color(projected)
        },
        reset_display,
        gap_display: spec_gap_display(utilization, projected, remaining_online),
    }
}

/// Builds the bar of a window from what the clock and the calendar gave; see
/// `spec_usage_bar`.
pub fn build_usage_bar(
    label: &str,
    bucket: &UsageBucket,
    seconds_remaining: u64,
    elapsed_online: u64,
    remaining_online: u64,
    reset_display: String,
) -> (bar: UsageBar)
    requires
        elapsed_online <= MAX_ONLINE_SECS,
        remaining_online <= MAX_ONLINE_SECS,
    ensures
        bar@ == spec_usage_bar(
            label@,
            bucket.utilization,
            bucket.resets_at@,
            seconds_remaining,
            elapsed_online,
            remaining_online,
            reset_display@,
        ),
{
    let total_online = elapsed_online + remaining_online;
    let projected = extrapolate(bucket.utilization, elapsed_online, total_online);
    assert(bucket.utilization * total_online <= u32::MAX * (2 * MAX_ONLINE_SECS))
        by (nonlinear_arith)
        requires
            bucket.utilization <= u32::MAX,
            total_online <= 2 * MAX_ONLINE_SECS,
    ;
    let color = if same_text(label, "Session") {
        compute_session_color(bucket.utilization, projected)
    } else {
        compute_weekly_color(projected)
    };
    let gap_display = compute_gap_display(bucket.utilization, projected, remaining_online);
    UsageBar {
        label: String::from_str(label),
        utilization: bucket.utilization,
        resets_at: bucket.resets_at.clone(),
        seconds_remaining,
        projected,
        color,
        reset_display,
        gap_display,
    }
}

/// `bar` is the bar of a window at `now`, for `elapsed_online` and
/// `remaining_online` online seconds that the clock may have counted before
/// and after `now`, and with a text that tells the time left until the
/// reset.
pub open spec fn bar_at(
    label: Seq<char>,
    utilization: u32,
    resets_at: Seq<char>,
    window_hours: u16,
    now: Instant,
    elapsed_online: u64,
    remaining_online: u64,
    bar: UsageBarView,
) -> bool {
    let reset = spec_reset_instant_of(parsed_timestamp(resets_at), now);
    let seconds_remaining = now.spec_whole_seconds_until(reset);
    &&& is_online_seconds(spec_window_start(reset, window_hours), now, elapsed_online as int)
    &&& is_online_seconds(now, reset, remaining_online as int)
    &&& bar == spec_usage_bar(
        label,
        utilization,
        resets_at,
        seconds_remaining as u64,
        elapsed_online,
        remaining_online,
        bar.reset_display,
    )
    &&& is_reset_display(seconds_remaining, bar.reset_display)
}

/// The bar of the window `bucket` at the instant `now`, for a window of
/// `window_hours` hours. The online seconds before and after `now` are
/// counted by the online-hours clock in the machine's time zone; the rest
/// follows from them as `build_usage_bar` says.
pub fn compute_usage_bar_at(label: &str, bucket: &UsageBucket, window_hours: u16, now: Instant) -> (bar:
    UsageBar)
    requires
        now.on_calendar(),
    ensures
        exists|elapsed_online: u64, remaining_online: u64| #[trigger]
            bar_at(
                label@,
                bucket.utilization,
                bucket.resets_at@,
                window_hours,
                now,
                elapsed_online,
                remaining_online,
                bar@,
            ),
        bar@.label == label@,
        bar@.utilization == bucket.utilization,
        bar@.resets_at == bucket.resets_at@,
        bar@.seconds_remaining == now.spec_whole_seconds_until(
            spec_reset_instant_of(parsed_timestamp(bucket.resets_at@), now),
        ),
        bar@.color != UsageColor::Gray,
{
    let reset = reset_instant(bucket.resets_at.as_str(), now);
    let seconds_remaining = now.whole_seconds_until(reset);
    let window_start = reset.shifted(-(window_hours as i64 * 3_600));
    let elapsed_online = online_seconds_between(window_start, now);
    let remaining_online = online_seconds_between(now, reset);
    let reset_display = format_reset_time(seconds_remaining, reset);
    let bar = build_usage_bar(
        label,
        bucket,
        seconds_remaining,
        elapsed_online,
        remaining_online,
        reset_display,
    );
    proof {
        assert(bar_at(
            label@,
            bucket.utilization,
            bucket.resets_at@,
            window_hours,
            now,
            elapsed_online,
            remaining_online,
            bar@,
        ));
    }
    bar
}

/// The bar of the window `bucket` at the instant that the system clock
/// shows.
pub fn compute_usage_bar(label: &str, bucket: &UsageBucket, window_hours: u16) -> (bar: UsageBar)
    ensures
        exists|at: Instant, elapsed_online: u64, remaining_online: u64|
            at.on_calendar() && #[trigger] bar_at(
                label@,
                bucket.utilization,
                bucket.resets_at@,
                window_hours,
                at,
                elapsed_online,
                remaining_online,
                bar@,
            ),
{
    compute_usage_bar_at(label, bucket, window_hours, now())
}

/// `bar` is absent with the bucket, and else the bar of the bucket at `now`.
pub open spec fn bar_of(
    label: Seq<char>,
    bucket: Option<UsageBucket>,
    window_hours: u16,
    now: Instant,
    bar: Option<UsageBarView>,
) -> bool {
    match bucket {
        Some(b) => bar is Some && exists|elapsed_online: u64, remaining_online: u64| #[trigger]
            bar_at(
                label,
                b.utilization,
                b.resets_at@,
                window_hours,
                now,
                elapsed_online,
                remaining_online,
                bar->0,
            ),
        None => bar is None,
    }
}

/// `state` is the state of an evaluation of `response` at `now`: a bar for
/// the short window and one for the long window, each absent with its
/// bucket, the RFC 3339 text of `now`, and no error.
pub open spec fn state_at(response: ApiUsageResponse, now: Instant, state: UsageStateView) -> bool {
    &&& bar_of("Session"@, response.five_hour, SESSION_WINDOW_HOURS, now, state.session)
    &&& bar_of("Weekly"@, response.seven_day, WEEKLY_WINDOW_HOURS, now, state.weekly)
    &&& state.last_updated == rfc3339_text(now.secs as int, now.nanos as int)
    &&& state.error is None
}

/// The bar of a bucket that may be absent.
fn compute_optional_bar(
    label: &str,
    bucket: &Option<UsageBucket>,
    window_hours: u16,
    now: Instant,
) -> (bar: Option<UsageBar>)
    requires
        now.on_calendar(),
    ensures
        bar_of(label@, *bucket, window_hours, now, bar_view(bar)),
{
    match bucket {
        Some(b) => {
            let bar = compute_usage_bar_at(label, b, window_hours, now);
            proof {
                let (elapsed_online, remaining_online) = choose|
                    elapsed_online: u64,
                    remaining_online: u64,
                | #[trigger]
                    bar_at(
                        label@,
                        b.utilization,
                        b.resets_at@,
                        window_hours,
                        now,
                        elapsed_online,
                        remaining_online,
                        bar@,
                    );
                assert(bar_at(
                    label@,
                    b.utilization,
                    b.resets_at@,
                    window_hours,
                    now,
                    elapsed_online,
                    remaining_online,
                    bar_view(Some(bar))->0,
                ));
            }
            Some(bar)
        },
        None => None,
    }
}

/// The state of an evaluation of `response` at the instant `now`. A bucket
/// that the response lacks gives no bar and no error.
pub fn compute_state_at(response: &ApiUsageResponse, now: Instant) -> (state: UsageState)
    requires
        now.on_calendar(),
    ensures
        state_at(*response, now, state@),
        state@.wf(),
{
    let session = compute_optional_bar("Session", &response.five_hour, SESSION_WINDOW_HOURS, now);
    let weekly = compute_optional_bar("Weekly", &response.seven_day, WEEKLY_WINDOW_HOURS, now);
    UsageState { session, weekly, last_updated: to_rfc3339(now), error: None }
}

/// The state of an evaluation of `response` at the instant that the system
/// clock shows.
pub fn compute_state(response: &ApiUsageResponse) -> (state: UsageState)
    ensures
        exists|at: Instant| at.on_calendar() && #[trigger] state_at(*response, at, state@),
        state@.wf(),
{
    compute_state_at(response, now())
}

/// The state of an evaluation that had no snapshot: no bars, the reason
/// `error`, and the RFC 3339 text of `now`.
pub fn error_state(error: String, now: Instant) -> (state: UsageState)
    requires
        now.on_calendar(),
    ensures
        state@ == (UsageStateView {
            session: None,
            weekly: None,
            last_updated: rfc3339_text(now.secs as int, now.nanos as int),
            error: Some(error@),
        }),
        state@.wf(),
{
    UsageState { session: None, weekly: None, last_updated: to_rfc3339(now), error: Some(error) }
}

/// What one poll comes to: the state to show, and whether the indicator is
/// to blink.
#[derive(Clone, Debug)]
pub struct PollResult {
    pub state: UsageState,
    pub blink: bool,
}

/// Turns the outcome of one poll at the instant `now` into the state to show
/// and the blink signal: for a snapshot its evaluation, with the signal
/// raised where the worst colour is `RedBlink`; for a failure the error
/// state with its reason, and no signal.
pub fn evaluate_poll(outcome: Result<&ApiUsageResponse, String>, now: Instant) -> (result: PollResult)
    requires
        now.on_calendar(),
    ensures
        result.state@.wf(),
        match outcome {
            Ok(response) => {
                &&& state_at(*response, now, result.state@)
                &&& result.blink == (spec_worst_color(
                    color_view(result.state@.session),
                    color_view(result.state@.weekly),
                ) == UsageColor::RedBlink)
            },
            Err(reason) => {
                &&& result.state@ == (UsageStateView {
                    session: None,
                    weekly: None,
                    last_updated: rfc3339_text(now.secs as int, now.nanos as int),
                    error: Some(reason@),
                })
                &&& !result.blink
            },
        },
{
    match outcome {
        Ok(response) => {
            let state = compute_state_at(response, now);
            let blink = worst_color(&state).rank() == UsageColor::RedBlink.rank();
            PollResult { state, blink }
        },
        Err(reason) => PollResult { state: error_state(reason, now), blink: false },
    }
}

/// The colour of a bar that may be absent.
pub open spec fn color_view(bar: Option<UsageBarView>) -> Option<UsageColor> {
    match bar {
        Some(b) => Some(b.color),
        None => None,
    }
}

/// The worst of up to two colours: `RedBlink` if one of them is, else `Red`
/// if one is, else `Yellow` if one is, else `Green` if there is a colour at
/// all, else `Gray`.
pub open spec fn spec_worst_color(first: Option<UsageColor>, second: Option<UsageColor>) -> UsageColor {
    if first == Some(UsageColor::RedBlink) || second == Some(UsageColor::RedBlink) {
        UsageColor::RedBlink
    } else if first == Some(UsageColor::Red) || second == Some(UsageColor::Red) {
        UsageColor::Red
    } else if first == Some(UsageColor::Yellow) || second == Some(UsageColor::Yellow) {
        UsageColor::Yellow
    } else if first is Some || second is Some {
        UsageColor::Green
    } else {
        UsageColor::Gray
    }
}

/// The colour of a bar that may be absent.
fn color_of(bar: &Option<UsageBar>) -> (color: Option<UsageColor>)
    ensures
        color == color_view(bar_view(*bar)),
{
    match bar {
        Some(b) => Some(b.color),
        None => None,
    }
}

/// Whether one of two colours that may be absent is `wanted`.
fn has_color(first: Option<UsageColor>, second: Option<UsageColor>, wanted: UsageColor) -> (r: bool)
    ensures
        r == (first == Some(wanted) || second == Some(wanted)),
{
    let in_first = match first {
        Some(c) => c == wanted,
        None => false,
    };
    let in_second = match second {
        Some(c) => c == wanted,
        None => false,
    };
    in_first || in_second
}

/// The single signal of a state: the worst colour among its bars, and
/// `Gray` where it has none; see `spec_worst_color`.
pub fn worst_color(state: &UsageState) -> (color: UsageColor)
    ensures
        color == spec_worst_color(color_view(state@.session), color_view(state@.weekly)),
{
    let first = color_of(&state.session);
    let second = color_of(&state.weekly);
    if has_color(first, second, UsageColor::RedBlink) {
        UsageColor::RedBlink
    } else if has_color(first, second, UsageColor::Red) {
        UsageColor::Red
    } else if has_color(first, second, UsageColor::Yellow) {
        UsageColor::Yellow
    } else if first.is_none() && second.is_none() {
        UsageColor::Gray
    } else {
        UsageColor::Green
    }
}

/// The worst colour is `Gray` exactly where there is no colour, it ranks at
/// least as high as each colour that is there, and where it is neither
/// `Gray` nor `Green` it is one of them.
pub proof fn lemma_worst_color_dominates(first: Option<UsageColor>, second: Option<UsageColor>)
    ensures
        spec_worst_color(first, second) == UsageColor::Gray <==> first is None && second is None,
        first matches Some(c) ==> c.spec_rank() <= spec_worst_color(first, second).spec_rank(),
        second matches Some(c) ==> c.spec_rank() <= spec_worst_color(first, second).spec_rank(),
        spec_worst_color(first, second).spec_rank() > UsageColor::Green.spec_rank() ==> first
            == Some(spec_worst_color(first, second)) || second == Some(
            spec_worst_color(first, second),
        ),
        spec_worst_color(first, second) == spec_worst_color(second, first),
{
}

/// Two bars of the same window at the same instant are the same, text for
/// text, where the clock counted the same online seconds for both and the
/// calendar showed the same reset.
pub proof fn lemma_same_inputs_same_bar(
    label: Seq<char>,
    utilization: u32,
    resets_at: Seq<char>,
    window_hours: u16,
    now: Instant,
    elapsed_online: u64,
    remaining_online: u64,
    one: UsageBarView,
    other: UsageBarView,
)
    requires
        bar_at(
            label,
            utilization,
            resets_at,
            window_hours,
            now,
            elapsed_online,
            remaining_online,
            one,
        ),
        bar_at(
            label,
            utilization,
            resets_at,
            window_hours,
            now,
            elapsed_online,
            remaining_online,
            other,
        ),
        one.reset_display == other.reset_display,
    ensures
        one == other,
{
}

/// A utilization in whole percent, rounded to the nearest and on a tie to
/// the even one.
pub open spec fn spec_rounded_percent(utilization: u32) -> int {
    let whole = utilization as int / (UNITS_PER_PERCENT as int);
    let rest = utilization as int % (UNITS_PER_PERCENT as int);
    if rest > 500 || (rest == 500 && whole % 2 == 1) {
        whole + 1
    } else {
        whole
    }
}

/// The text of one bar in the title: the tag and the rounded utilization, or
/// two dashes for a bar that is absent.
pub open spec fn spec_title_part(tag: Seq<char>, bar: Option<UsageBarView>) -> Seq<char> {
    match bar {
        Some(b) => tag + decimal(spec_rounded_percent(b.utilization) as nat),
        None => tag + "--"@,
    }
}

/// The title of a state: `S:` with the short window's utilization, a space,
/// and `W:` with the long window's.
pub open spec fn spec_tray_title(state: UsageStateView) -> Seq<char> {
    spec_title_part("S:"@, state.session) + " "@ + spec_title_part("W:"@, state.weekly)
}

/// Appends the text of one bar in the title to `text`.
fn push_title_part(text: &mut String, tag: &str, bar: &Option<UsageBar>)
    ensures
        final(text)@ == old(text)@ + spec_title_part(tag@, bar_view(*bar)),
{
    text.append(tag);
    match bar {
        Some(b) => {
            let whole = b.utilization / UNITS_PER_PERCENT;
            let rest = b.utilization % UNITS_PER_PERCENT;
            let rounded: u64 = if rest > 500 || (rest == 500 && whole % 2 == 1) {
                whole as u64 + 1
            } else {
                whole as u64
            };
            push_decimal(text, rounded);
        },
        None => {
            text.append("--");
        },
    }
    assert(text@ =~= old(text)@ + spec_title_part(tag@, bar_view(*bar)));
}

/// The short title of a state, such as `S:42 W:17` or `S:-- W:--`.
pub fn tray_title(state: &UsageState) -> (title: String)
    ensures
        title@ == spec_tray_title(state@),
{
    let mut title = String::new();
    push_title_part(&mut title, "S:", &state.session);
    title.append(" ");
    push_title_part(&mut title, "W:", &state.weekly);
    assert(title@ =~= spec_tray_title(state@));
    title
}

} // verus!
