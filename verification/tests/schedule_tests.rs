use chrono::Datelike;
use chrono::Timelike;

use cosmic_bing_wallpaper::dates::date_before;
use cosmic_bing_wallpaper::dates::day_number;
use cosmic_bing_wallpaper::dates::days_in_month;
use cosmic_bing_wallpaper::dates::format_date;
use cosmic_bing_wallpaper::dates::parse_date;
use cosmic_bing_wallpaper::dates::succ_date;
use cosmic_bing_wallpaper::dates::CivilDate;
use cosmic_bing_wallpaper::dates::LocalInstant;
use cosmic_bing_wallpaper::timer::calculate_next_run;
use cosmic_bing_wallpaper::timer::check_needs_catchup;
use cosmic_bing_wallpaper::timer::initial_phase;
use cosmic_bing_wallpaper::timer::instant_before;
use cosmic_bing_wallpaper::timer::needs_catchup;
use cosmic_bing_wallpaper::timer::next_run_string;
use cosmic_bing_wallpaper::timer::rand_delay;
use cosmic_bing_wallpaper::timer::timer_step;
use cosmic_bing_wallpaper::timer::CacheUpdate;
use cosmic_bing_wallpaper::timer::TimerPhase;
use cosmic_bing_wallpaper::timer::TimerState;

fn date(year: u32, month: u8, day: u8) -> CivilDate {
    CivilDate { year, month, day }
}

fn at(year: u32, month: u8, day: u8, secs: u32) -> LocalInstant {
    LocalInstant { date: date(year, month, day), secs }
}

#[test]
fn test_calculate_next_run() {
    let local = chrono::Local::now();
    let now = LocalInstant {
        date: CivilDate {
            year: local.year() as u32,
            month: local.month() as u8,
            day: local.day() as u8,
        },
        secs: local.time().num_seconds_from_midnight(),
    };
    let next = calculate_next_run(&now);

    // Next run should be in the future or at scheduled hour
    assert!(instant_before(&now, &next) || next.secs / 3600 == 8);
}

#[test]
fn test_timer_state_default() {
    let state = TimerState::default();
    assert!(!state.enabled);
    assert!(state.last_fetch.is_none());
}

#[test]
fn next_run_same_day_before_schedule() {
    let now = at(2026, 2, 5, 7 * 3600);
    let next = calculate_next_run(&now);
    assert_eq!(next.date, date(2026, 2, 5));
    assert_eq!(next.secs, 8 * 3600);
    assert!(instant_before(&now, &next));
}

#[test]
fn next_run_rolls_to_tomorrow_after_schedule() {
    let now = at(2026, 2, 5, 8 * 3600);
    let next = calculate_next_run(&now);
    assert_eq!(next.date, date(2026, 2, 6));
    assert_eq!(next.secs, 8 * 3600);
    assert!(instant_before(&now, &next));

    let eve = at(2026, 12, 31, 23 * 3600);
    let next = calculate_next_run(&eve);
    assert_eq!(next.date, date(2027, 1, 1));
}

#[test]
fn no_catchup_before_schedule_whatever_was_recorded() {
    let now = at(2026, 2, 5, 7 * 3600 + 3599);
    assert!(!needs_catchup(None, &now));
    assert!(!needs_catchup(Some(date(2020, 1, 1)), &now));
    assert!(!needs_catchup(Some(date(2026, 2, 5)), &now));
}

#[test]
fn catchup_after_schedule_iff_no_fetch_today_or_later() {
    let now = at(2026, 2, 5, 8 * 3600);
    assert!(needs_catchup(None, &now));
    assert!(needs_catchup(Some(date(2026, 2, 4)), &now));
    assert!(!needs_catchup(Some(date(2026, 2, 5)), &now));
    assert!(!needs_catchup(Some(date(2026, 2, 6)), &now));
}

#[test]
fn record_fetch_silences_catchup_same_day() {
    let now = at(2026, 2, 5, 9 * 3600);
    assert!(needs_catchup(None, &now));
    assert!(!needs_catchup(Some(now.date), &now));
}

#[test]
fn check_needs_catchup_reads_the_record() {
    let now = at(2026, 2, 5, 9 * 3600);
    let empty = TimerState { enabled: true, last_fetch: None };
    assert!(check_needs_catchup(&empty, &now));
    let early = at(2026, 2, 5, 6 * 3600);
    assert!(!check_needs_catchup(&empty, &early));
    let damaged = TimerState {
        enabled: true,
        last_fetch: Some(String::from("not a timestamp")),
    };
    assert!(check_needs_catchup(&damaged, &now));
}

#[test]
fn dates_parse_and_format_round_trip() {
    assert_eq!(parse_date("2026-02-05"), Some(date(2026, 2, 5)));
    assert_eq!(format_date(&date(2026, 2, 5)), "2026-02-05");
    assert_eq!(parse_date("2026-13-01"), None);
    assert_eq!(parse_date("2026-02-30"), None);
    assert_eq!(parse_date("2024-02-29"), Some(date(2024, 2, 29)));
    assert_eq!(parse_date("2023-02-29"), None);
    assert_eq!(parse_date("2026-2-5"), None);
    assert_eq!(parse_date(""), None);
    assert_eq!(days_in_month(2000, 2), 29);
    assert_eq!(days_in_month(1900, 2), 28);
}

#[test]
fn day_numbers_count_days() {
    let a = day_number(&date(2026, 2, 4));
    let b = day_number(&date(2026, 2, 5));
    assert_eq!(b - a, 1);
    let feb28 = day_number(&date(2026, 2, 28));
    let mar1 = day_number(&date(2026, 3, 1));
    assert_eq!(mar1 - feb28, 1);
    let dec31 = day_number(&date(2025, 12, 31));
    let jan1 = day_number(&date(2026, 1, 1));
    assert_eq!(jan1 - dec31, 1);
    let y2025 = day_number(&date(2025, 1, 1));
    assert_eq!(day_number(&date(2026, 1, 1)) - y2025, 365);
}

#[test]
fn succ_date_rolls_over() {
    assert_eq!(succ_date(&date(2026, 2, 5)), date(2026, 2, 6));
    assert_eq!(succ_date(&date(2026, 2, 28)), date(2026, 3, 1));
    assert_eq!(succ_date(&date(2024, 2, 28)), date(2024, 2, 29));
    assert_eq!(succ_date(&date(2026, 12, 31)), date(2027, 1, 1));
    assert!(date_before(&date(2026, 12, 31), &date(2027, 1, 1)));
}

#[test]
fn timer_machine_polls_while_disabled() {
    let now = at(2026, 2, 5, 12 * 3600);
    let step = timer_step(&TimerPhase::Recompute, false, &now, 0);
    assert!(matches!(step.phase, TimerPhase::Recompute));
    assert!(matches!(step.cache, CacheUpdate::Clear));
    assert!(!step.fire);
    assert_eq!(step.sleep_secs, 60);
}

#[test]
fn timer_machine_schedules_and_fires() {
    let now = at(2026, 2, 5, 7 * 3600);
    let step = timer_step(&TimerPhase::Recompute, true, &now, 0);
    let next = match step.cache {
        CacheUpdate::Store { at } => at,
        _ => panic!("expected a cached next run"),
    };
    assert_eq!(next.secs, 8 * 3600);
    assert!(matches!(step.phase, TimerPhase::Waiting { .. }));

    // A long wait sleeps in bounded increments.
    let waiting = TimerPhase::Waiting { next };
    let step = timer_step(&waiting, true, &now, 0);
    assert_eq!(step.sleep_secs, 60);
    assert!(!step.fire);

    // Close to the moment, the sleep is exact.
    let close = at(2026, 2, 5, 8 * 3600 - 30);
    let step = timer_step(&waiting, true, &close, 0);
    assert_eq!(step.sleep_secs, 30);

    // At the moment, the jitter delay runs, then the fire is emitted.
    let due = at(2026, 2, 5, 8 * 3600);
    let step = timer_step(&waiting, true, &due, 17);
    assert!(matches!(step.phase, TimerPhase::FireNow));
    assert_eq!(step.sleep_secs, 17);
    assert!(!step.fire);
    let step = timer_step(&TimerPhase::FireNow, true, &due, 0);
    assert!(step.fire);
    assert!(matches!(step.phase, TimerPhase::Cooldown));

    // Disabled before the fire: nothing is emitted.
    let step = timer_step(&TimerPhase::FireNow, false, &due, 0);
    assert!(!step.fire);
}

#[test]
fn timer_machine_catchup_path() {
    assert!(matches!(initial_phase(true, true), TimerPhase::BootSettle));
    assert!(matches!(initial_phase(true, false), TimerPhase::Recompute));
    assert!(matches!(initial_phase(false, true), TimerPhase::Recompute));

    let now = at(2026, 2, 5, 9 * 3600);
    let step = timer_step(&TimerPhase::BootSettle, true, &now, 0);
    assert_eq!(step.sleep_secs, 300);
    assert!(matches!(step.phase, TimerPhase::CatchupJitter));
    let step = timer_step(&TimerPhase::CatchupJitter, true, &now, 123);
    assert_eq!(step.sleep_secs, 123);
    let step = timer_step(&TimerPhase::CatchupFire, true, &now, 0);
    assert!(step.fire);
    assert!(matches!(step.phase, TimerPhase::Recompute));
}

#[test]
fn next_run_display() {
    assert_eq!(next_run_string(false, Some(at(2026, 2, 5, 8 * 3600))), "");
    assert_eq!(next_run_string(true, None), "Scheduled");
    assert_eq!(
        next_run_string(true, Some(at(2026, 2, 5, 8 * 3600))),
        "Thu Feb 05 08:00"
    );
    assert_eq!(
        next_run_string(true, Some(at(2026, 12, 31, 23 * 3600 + 59 * 60))),
        "Thu Dec 31 23:59"
    );
}

#[test]
fn next_run_display_matches_the_calendar() {
    // The weekday and month names come from the library's own day
    // ordinals; they must agree with the calendar for any date.
    let dates: [(u32, u32, u32); 4] = [(2026, 2, 5), (2024, 2, 29), (2000, 3, 1), (1999, 12, 31)];
    for (y, m, d) in dates {
        let shown = next_run_string(true, Some(at(y, m as u8, d as u8, 8 * 3600)));
        let expected = chrono::NaiveDate::from_ymd_opt(y as i32, m, d)
            .unwrap()
            .format("%a %b %d 08:00")
            .to_string();
        assert_eq!(shown, expected);
    }
}

#[test]
fn random_delay_is_bounded() {
    for _ in 0..10 {
        assert!(rand_delay() < 300);
    }
}
