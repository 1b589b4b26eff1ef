use chrono::{DateTime, Local, TimeZone, Utc};
use tokentorch::clock::MAX_ONLINE_SECS;
use tokentorch::calendar::WallClock;
use tokentorch::display::{
    absolute_reset_text, compute_gap_display, format_reset_time, MAX_PROJECTED_NUM,
};
use tokentorch::instant::Instant;
use tokentorch::projection::{extrapolate, Ratio};
use tokentorch::severity::{compute_session_color, compute_weekly_color, UsageColor};
use tokentorch::text::{digit_text, push_decimal, same_text};
use tokentorch::usage::{
    build_usage_bar, compute_state, compute_state_at, compute_usage_bar, compute_usage_bar_at,
    error_state, evaluate_poll, reset_instant, reset_instant_of, tray_title, worst_color,
    ApiUsageResponse, UsageBar, UsageBucket, UsageState,
};

fn whole(percent: u32) -> Ratio {
    Ratio { num: percent as u128 * 1000, den: 1 }
}

fn noon() -> Instant {
    let t = Utc.with_ymd_and_hms(2026, 1, 15, 12, 0, 0).unwrap();
    Instant::from_timestamp(t.timestamp(), 0)
}

fn stamp(t: Instant) -> String {
    DateTime::from_timestamp(t.secs, t.nanos).unwrap().to_rfc3339()
}

fn plain_bucket(utilization: u32, resets_at: &str) -> UsageBucket {
    UsageBucket { utilization, resets_at: resets_at.to_string() }
}

fn response(five_hour: Option<UsageBucket>, seven_day: Option<UsageBucket>) -> ApiUsageResponse {
    ApiUsageResponse {
        five_hour,
        seven_day,
        seven_day_sonnet: None,
        seven_day_opus: None,
        seven_day_oauth_apps: None,
        seven_day_cowork: None,
        iguana_necktie: None,
    }
}

fn bar_of_color(color: UsageColor) -> UsageBar {
    UsageBar {
        label: "Session".to_string(),
        utilization: 42_000,
        resets_at: String::new(),
        seconds_remaining: 0,
        projected: whole(42),
        color,
        reset_display: String::new(),
        gap_display: None,
    }
}

fn state_of(session: Option<UsageBar>, weekly: Option<UsageBar>) -> UsageState {
    UsageState { session, weekly, last_updated: String::new(), error: None }
}

#[test]
fn push_decimal_appends_the_digits() {
    let mut text = String::from("n=");
    push_decimal(&mut text, 0);
    assert_eq!(text, "n=0");
    push_decimal(&mut text, 7);
    push_decimal(&mut text, 10);
    push_decimal(&mut text, 1_205);
    assert_eq!(text, "n=07101205");
    let mut largest = String::new();
    push_decimal(&mut largest, u64::MAX);
    assert_eq!(largest, "18446744073709551615");
}

#[test]
fn digit_text_of_every_digit() {
    let digits: Vec<&str> = (0..10).map(digit_text).collect();
    assert_eq!(digits, vec!["0", "1", "2", "3", "4", "5", "6", "7", "8", "9"]);
}

#[test]
fn same_text_compares_characters() {
    assert!(same_text("Session", "Session"));
    assert!(!same_text("Session", "session"));
    assert!(!same_text("Session", "Sessions"));
    assert!(same_text("", ""));
}

#[test]
fn extrapolate_follows_the_burn_rate() {
    let projected = extrapolate(60_000, 12 * 3_600, 14 * 3_600);
    assert_eq!(projected, Ratio { num: 60_000 * 50_400, den: 43_200 });
    assert_eq!(projected.num / projected.den as u128, 70_000);
}

#[test]
fn extrapolate_has_no_upper_limit() {
    let projected = extrapolate(90_000, 600, 6_000);
    assert_eq!(projected, Ratio { num: 540_000_000, den: 600 });
    assert!(projected.exceeds(200));
    let largest = extrapolate(u32::MAX, 600, u64::MAX);
    assert_eq!(largest.num, u32::MAX as u128 * u64::MAX as u128);
}

#[test]
fn extrapolate_waits_for_ten_online_minutes() {
    assert_eq!(extrapolate(12_000, 599, 18_000), Ratio { num: 12_000, den: 1 });
    assert_eq!(extrapolate(12_000, 0, 18_000), Ratio { num: 12_000, den: 1 });
    assert_eq!(extrapolate(12_000, 600, 18_000), Ratio { num: 12_000 * 18_000, den: 600 });
}

#[test]
fn extrapolate_over_an_empty_window_is_the_utilization() {
    assert_eq!(extrapolate(12_000, 700, 0), Ratio { num: 12_000, den: 1 });
}

#[test]
fn ratio_exceeds_is_strict() {
    assert!(!whole(100).exceeds(100));
    assert!(whole(101).exceeds(100));
    assert!(Ratio { num: 300_001, den: 3 }.exceeds(100));
    assert!(!Ratio { num: 300_000, den: 3 }.exceeds(100));
    assert!(!Ratio { num: 299_999, den: 3 }.exceeds(100));
    assert!(Ratio { num: u128::MAX, den: u64::MAX }.exceeds(u32::MAX));
}

#[test]
fn colors_rank_from_gray_to_red_blink() {
    assert_eq!(UsageColor::Gray.rank(), 0);
    assert_eq!(UsageColor::Green.rank(), 1);
    assert_eq!(UsageColor::Yellow.rank(), 2);
    assert_eq!(UsageColor::Red.rank(), 3);
    assert_eq!(UsageColor::RedBlink.rank(), 4);
}

#[test]
fn session_color_by_projection() {
    assert_eq!(compute_session_color(10_000, whole(50)), UsageColor::Green);
    assert_eq!(compute_session_color(10_000, whole(91)), UsageColor::Yellow);
    assert_eq!(compute_session_color(10_000, whole(101)), UsageColor::Red);
    assert_eq!(compute_session_color(10_000, whole(201)), UsageColor::RedBlink);
    assert_eq!(compute_session_color(95_000, whole(101)), UsageColor::RedBlink);
}

#[test]
fn session_color_at_its_thresholds() {
    assert_eq!(compute_session_color(10_000, whole(90)), UsageColor::Green);
    assert_eq!(compute_session_color(10_000, whole(100)), UsageColor::Yellow);
    assert_eq!(compute_session_color(10_000, whole(200)), UsageColor::Red);
    assert_eq!(compute_session_color(90_000, whole(150)), UsageColor::Red);
    assert_eq!(compute_session_color(90_001, whole(150)), UsageColor::RedBlink);
    assert_eq!(compute_session_color(100_000, whole(100)), UsageColor::Yellow);
    assert_eq!(
        compute_session_color(10_000, Ratio { num: 200_001, den: 1 }),
        UsageColor::RedBlink
    );
}

#[test]
fn weekly_color_by_projection() {
    assert_eq!(compute_weekly_color(whole(50)), UsageColor::Green);
    assert_eq!(compute_weekly_color(whole(91)), UsageColor::Yellow);
    assert_eq!(compute_weekly_color(whole(96)), UsageColor::Red);
    assert_eq!(compute_weekly_color(whole(101)), UsageColor::RedBlink);
}

#[test]
fn weekly_color_at_its_thresholds() {
    assert_eq!(compute_weekly_color(whole(90)), UsageColor::Green);
    assert_eq!(compute_weekly_color(whole(95)), UsageColor::Yellow);
    assert_eq!(compute_weekly_color(whole(100)), UsageColor::Red);
    assert_eq!(compute_weekly_color(Ratio { num: 100_001, den: 1 }), UsageColor::RedBlink);
    assert_eq!(compute_weekly_color(Ratio { num: 95_001, den: 1 }), UsageColor::Red);
}

#[test]
fn gap_is_the_share_of_remaining_time_beyond_the_limit() {
    let projected = extrapolate(96_000, 12 * 3_600, 14 * 3_600);
    assert_eq!(
        compute_gap_display(96_000, projected, 2 * 3_600).as_deref(),
        Some("1h 30m gap")
    );
    assert_eq!(compute_gap_display(50_000, whole(150), 10_000).as_deref(), Some("1h 24m gap"));
}

#[test]
fn gap_is_absent_within_the_limit() {
    assert_eq!(compute_gap_display(60_000, whole(70), 7_200), None);
    assert_eq!(compute_gap_display(60_000, whole(100), 7_200), None);
    assert_eq!(compute_gap_display(100_000, whole(100), 7_200), None);
}

#[test]
fn gap_is_absent_without_remaining_online_time() {
    assert_eq!(compute_gap_display(96_000, whole(112), 0), None);
    assert_eq!(compute_gap_display(120_000, whole(120), 0), None);
}

#[test]
fn gap_is_all_remaining_time_at_the_limit() {
    assert_eq!(compute_gap_display(100_000, whole(120), 5_400).as_deref(), Some("1h 30m gap"));
    assert_eq!(compute_gap_display(150_000, whole(150), 7_200).as_deref(), Some("2h 0m gap"));
}

#[test]
fn gap_minutes_round_up() {
    assert_eq!(compute_gap_display(100_000, whole(120), 61).as_deref(), Some("2m gap"));
    assert_eq!(compute_gap_display(100_000, whole(120), 60).as_deref(), Some("1m gap"));
    assert_eq!(compute_gap_display(100_000, whole(120), 3_601).as_deref(), Some("1h 1m gap"));
    assert_eq!(compute_gap_display(100_000, whole(120), 3_599).as_deref(), Some("60m gap"));
    assert_eq!(compute_gap_display(0, Ratio { num: 300_000, den: 1 }, 100).as_deref(), Some("2m gap"));
}

#[test]
fn gap_is_never_below_a_minute() {
    assert_eq!(compute_gap_display(100_000, whole(120), 1).as_deref(), Some("1m gap"));
    assert_eq!(
        compute_gap_display(99_999, Ratio { num: 100_001, den: 1 }, 1).as_deref(),
        Some("1m gap")
    );
}

#[test]
fn gap_at_the_largest_values() {
    let projected = Ratio { num: MAX_PROJECTED_NUM, den: 600 };
    assert_eq!(
        compute_gap_display(u32::MAX, projected, MAX_ONLINE_SECS).as_deref(),
        Some("226450474h 0m gap")
    );
    assert!(compute_gap_display(0, projected, MAX_ONLINE_SECS).is_some());
}

#[test]
fn reset_time_with_nothing_left() {
    assert_eq!(format_reset_time(0, noon()), "resetting...");
}

#[test]
fn reset_time_below_a_day_counts_down() {
    assert_eq!(format_reset_time(1, noon()), "resets in 0h 0m");
    assert_eq!(format_reset_time(59, noon()), "resets in 0h 0m");
    assert_eq!(format_reset_time(60, noon()), "resets in 0h 1m");
    assert_eq!(format_reset_time(3_600, noon()), "resets in 1h 0m");
    assert_eq!(format_reset_time(43_200, noon()), "resets in 12h 0m");
    assert_eq!(format_reset_time(86_399, noon()), "resets in 23h 59m");
}

#[test]
fn reset_time_from_a_day_on_names_the_local_clock() {
    let reset = noon();
    let expected = Local
        .timestamp_opt(reset.secs, 0)
        .unwrap()
        .format("resets %a %-l:%M %p")
        .to_string();
    assert_eq!(format_reset_time(86_400, reset), expected);
    assert_eq!(format_reset_time(7 * 86_400, reset), expected);
    let evening = reset.shifted(9 * 3_600 + 5 * 60);
    let late = Local
        .timestamp_opt(evening.secs, 0)
        .unwrap()
        .format("resets %a %-l:%M %p")
        .to_string();
    assert_eq!(format_reset_time(100_000, evening), late);
}

#[test]
fn absolute_reset_text_follows_the_template() {
    let shown = |weekday: u32, hour: u32, minute: u32| {
        absolute_reset_text(WallClock { weekday, hour, minute })
    };
    assert_eq!(shown(4, 9, 5), "resets Fri 9:05 AM");
    assert_eq!(shown(0, 0, 0), "resets Mon 12:00 AM");
    assert_eq!(shown(1, 12, 30), "resets Tue 12:30 PM");
    assert_eq!(shown(2, 23, 59), "resets Wed 11:59 PM");
    assert_eq!(shown(3, 11, 10), "resets Thu 11:10 AM");
    assert_eq!(shown(5, 13, 7), "resets Sat 1:07 PM");
    assert_eq!(shown(6, 22, 40), "resets Sun 10:40 PM");
}

#[test]
fn reset_instant_reads_the_timestamp() {
    let now = noon();
    assert_eq!(
        reset_instant("2026-01-16T09:00:00+00:00", now),
        Instant { secs: 1_768_554_000, nanos: 0 }
    );
    assert_eq!(
        reset_instant("2026-01-16T11:00:00.250+02:00", now),
        Instant { secs: 1_768_554_000, nanos: 250_000_000 }
    );
    assert_eq!(
        reset_instant("2026-01-16 09:00:00Z", now),
        Instant { secs: 1_768_554_000, nanos: 0 }
    );
}

#[test]
fn reset_instant_falls_back_to_an_hour_from_now() {
    let now = noon();
    assert_eq!(reset_instant("soon", now), Instant { secs: now.secs + 3_600, nanos: 0 });
    assert_eq!(reset_instant("", now), Instant { secs: now.secs + 3_600, nanos: 0 });
    assert_eq!(reset_instant("2026-13-01T00:00:00Z", now).secs, now.secs + 3_600);
}

#[test]
fn reset_instant_of_a_reading() {
    let now = Instant { secs: 1_000, nanos: 7 };
    assert_eq!(reset_instant_of(None, now), Instant { secs: 4_600, nanos: 7 });
    assert_eq!(reset_instant_of(Some((50, 9)), now), Instant { secs: 50, nanos: 9 });
    assert_eq!(
        reset_instant_of(Some((50, 1_200_000_000)), now),
        Instant { secs: 50, nanos: 999_999_999 }
    );
}

#[test]
fn build_usage_bar_fills_every_field() {
    let bucket = plain_bucket(96_000, "2026-01-16T09:00:00+00:00");
    let bar = build_usage_bar("Weekly", &bucket, 43_200, 43_200, 7_200, "resets in 12h 0m".to_string());
    assert_eq!(bar.label, "Weekly");
    assert_eq!(bar.utilization, 96_000);
    assert_eq!(bar.resets_at, "2026-01-16T09:00:00+00:00");
    assert_eq!(bar.seconds_remaining, 43_200);
    assert_eq!(bar.projected, Ratio { num: 96_000 * 50_400, den: 43_200 });
    assert_eq!(bar.color, UsageColor::RedBlink);
    assert_eq!(bar.reset_display, "resets in 12h 0m");
    assert_eq!(bar.gap_display.as_deref(), Some("1h 30m gap"));
}

#[test]
fn build_usage_bar_selects_the_policy_by_label() {
    let bucket = plain_bucket(50_000, "");
    let session = build_usage_bar("Session", &bucket, 0, 6_000, 6_600, String::new());
    let weekly = build_usage_bar("Weekly", &bucket, 0, 6_000, 6_600, String::new());
    let other = build_usage_bar("session", &bucket, 0, 6_000, 6_600, String::new());
    assert_eq!(session.projected, Ratio { num: 50_000 * 12_600, den: 6_000 });
    assert_eq!(session.color, UsageColor::Red);
    assert_eq!(weekly.color, UsageColor::RedBlink);
    assert_eq!(other.color, UsageColor::RedBlink);
}

#[test]
fn build_usage_bar_below_the_limit_has_no_gap() {
    let bucket = plain_bucket(60_000, "");
    let bar = build_usage_bar("Weekly", &bucket, 43_200, 43_200, 7_200, String::new());
    assert_eq!(bar.projected.num / bar.projected.den as u128, 70_000);
    assert_eq!(bar.color, UsageColor::Green);
    assert_eq!(bar.gap_display, None);
}

#[test]
fn bar_of_an_unreadable_timestamp_resets_in_an_hour() {
    let bucket = plain_bucket(30_000, "not a timestamp");
    let bar = compute_usage_bar_at("Session", &bucket, 5, noon());
    assert_eq!(bar.seconds_remaining, 3_600);
    assert_eq!(bar.reset_display, "resets in 1h 0m");
    assert_eq!(bar.resets_at, "not a timestamp");
    assert_eq!(bar.utilization, 30_000);
    assert_eq!(bar.label, "Session");
}

#[test]
fn bar_of_a_past_reset_is_resetting() {
    let now = noon();
    let bucket = plain_bucket(30_000, &stamp(now.shifted(-60)));
    let bar = compute_usage_bar_at("Session", &bucket, 5, now);
    assert_eq!(bar.seconds_remaining, 0);
    assert_eq!(bar.reset_display, "resetting...");
    assert_eq!(bar.gap_display, None);
}

#[test]
fn bar_counts_whole_seconds_until_the_reset() {
    let now = Instant { secs: noon().secs, nanos: 600_000_000 };
    let bucket = plain_bucket(30_000, &stamp(Instant { secs: now.secs + 90, nanos: 500_000_000 }));
    let bar = compute_usage_bar_at("Session", &bucket, 5, now);
    assert_eq!(bar.seconds_remaining, 89);
    assert_eq!(bar.reset_display, "resets in 0h 1m");
}

#[test]
fn bar_is_the_same_for_the_same_inputs() {
    let now = noon();
    let bucket = plain_bucket(96_000, &stamp(now.shifted(40_000)));
    let one = compute_usage_bar_at("Weekly", &bucket, 168, now);
    let other = compute_usage_bar_at("Weekly", &bucket, 168, now);
    assert_eq!(format!("{:?}", one), format!("{:?}", other));
}

#[test]
fn bar_at_the_system_clock() {
    let bucket = plain_bucket(10_000, "unreadable");
    let bar = compute_usage_bar("Weekly", &bucket, 168);
    assert_eq!(bar.label, "Weekly");
    assert_eq!(bar.seconds_remaining, 3_600);
    assert_eq!(bar.reset_display, "resets in 1h 0m");
}

#[test]
fn state_has_a_bar_for_each_bucket_that_is_present() {
    let now = noon();
    let reset = stamp(now.shifted(7_200));
    let state = compute_state_at(&response(Some(plain_bucket(10_000, &reset)), None), now);
    assert_eq!(state.session.as_ref().map(|b| b.label.as_str()), Some("Session"));
    assert_eq!(state.session.as_ref().map(|b| b.seconds_remaining), Some(7_200));
    assert!(state.weekly.is_none());
    assert_eq!(state.error, None);
    let both = compute_state_at(
        &response(Some(plain_bucket(10_000, &reset)), Some(plain_bucket(20_000, &reset))),
        now,
    );
    assert_eq!(both.weekly.as_ref().map(|b| b.label.as_str()), Some("Weekly"));
    assert_eq!(both.weekly.as_ref().map(|b| b.utilization), Some(20_000));
}

#[test]
fn state_without_buckets_has_no_bars_and_no_error() {
    let state = compute_state_at(&response(None, None), noon());
    assert!(state.session.is_none());
    assert!(state.weekly.is_none());
    assert_eq!(state.error, None);
    assert_eq!(worst_color(&state), UsageColor::Gray);
}

#[test]
fn state_is_stamped_with_the_instant_of_evaluation() {
    let state = compute_state_at(&response(None, None), noon());
    assert_eq!(state.last_updated, "2026-01-15T12:00:00+00:00");
    let fine = Instant { secs: noon().secs, nanos: 250_000_000 };
    assert_eq!(compute_state_at(&response(None, None), fine).last_updated, "2026-01-15T12:00:00.250+00:00");
}

#[test]
fn state_at_the_system_clock() {
    let before = Utc::now();
    let state = compute_state(&response(None, Some(plain_bucket(10_000, "unreadable"))));
    let after = Utc::now();
    let stamped = state.last_updated.parse::<DateTime<Utc>>().unwrap();
    assert!(before <= stamped && stamped <= after);
    assert!(state.session.is_none());
    assert_eq!(state.weekly.as_ref().map(|b| b.seconds_remaining), Some(3_600));
}

#[test]
fn error_state_has_the_reason_and_no_bars() {
    let state = error_state("Network error: timed out".to_string(), noon());
    assert!(state.session.is_none());
    assert!(state.weekly.is_none());
    assert_eq!(state.error.as_deref(), Some("Network error: timed out"));
    assert_eq!(state.last_updated, "2026-01-15T12:00:00+00:00");
}

#[test]
fn poll_failure_shows_the_error_and_does_not_blink() {
    let result = evaluate_poll(Err("Session expired".to_string()), noon());
    assert!(!result.blink);
    assert_eq!(result.state.error.as_deref(), Some("Session expired"));
    assert!(result.state.session.is_none() && result.state.weekly.is_none());
}

#[test]
fn poll_snapshot_blinks_on_the_worst_color() {
    let now = noon();
    let past = stamp(now.shifted(-60));
    let calm = response(Some(plain_bucket(10_000, &past)), None);
    let result = evaluate_poll(Ok(&calm), now);
    assert!(!result.blink);
    assert_eq!(result.state.error, None);
    let over = response(None, Some(plain_bucket(120_000, &past)));
    let urgent = evaluate_poll(Ok(&over), now);
    assert!(urgent.blink);
    assert_eq!(worst_color(&urgent.state), UsageColor::RedBlink);
}

#[test]
fn worst_color_is_the_most_severe_of_the_bars() {
    let state = state_of(
        Some(bar_of_color(UsageColor::Green)),
        Some(bar_of_color(UsageColor::RedBlink)),
    );
    assert_eq!(worst_color(&state), UsageColor::RedBlink);
    let swapped = state_of(
        Some(bar_of_color(UsageColor::Red)),
        Some(bar_of_color(UsageColor::Yellow)),
    );
    assert_eq!(worst_color(&swapped), UsageColor::Red);
}

#[test]
fn worst_color_of_no_bars_is_gray() {
    assert_eq!(worst_color(&state_of(None, None)), UsageColor::Gray);
}

#[test]
fn worst_color_of_one_bar_is_its_color() {
    assert_eq!(
        worst_color(&state_of(None, Some(bar_of_color(UsageColor::Yellow)))),
        UsageColor::Yellow
    );
    assert_eq!(
        worst_color(&state_of(Some(bar_of_color(UsageColor::Green)), None)),
        UsageColor::Green
    );
}

#[test]
fn worst_color_of_a_gray_bar_is_green() {
    assert_eq!(
        worst_color(&state_of(Some(bar_of_color(UsageColor::Gray)), None)),
        UsageColor::Green
    );
}

#[test]
fn tray_title_shows_both_utilizations() {
    let mut session = bar_of_color(UsageColor::Green);
    session.utilization = 42_000;
    let mut weekly = bar_of_color(UsageColor::Green);
    weekly.utilization = 17_400;
    assert_eq!(tray_title(&state_of(Some(session), Some(weekly))), "S:42 W:17");
}

#[test]
fn tray_title_marks_absent_bars() {
    assert_eq!(tray_title(&state_of(None, None)), "S:-- W:--");
    let mut weekly = bar_of_color(UsageColor::Green);
    weekly.utilization = 0;
    assert_eq!(tray_title(&state_of(None, Some(weekly))), "S:-- W:0");
}

#[test]
fn tray_title_rounds_to_the_nearest_percent() {
    let title = |utilization: u32| {
        let mut bar = bar_of_color(UsageColor::Green);
        bar.utilization = utilization;
        tray_title(&state_of(Some(bar), None))
    };
    assert_eq!(title(12_499), "S:12 W:--");
    assert_eq!(title(12_500), "S:12 W:--");
    assert_eq!(title(12_501), "S:13 W:--");
    assert_eq!(title(13_500), "S:14 W:--");
    assert_eq!(title(99_999), "S:100 W:--");
    assert_eq!(title(u32::MAX), "S:4294967 W:--");
    assert_eq!(title(12_500), format!("S:{:.0} W:--", 12.5_f64));
    assert_eq!(title(13_500), format!("S:{:.0} W:--", 13.5_f64));
}
