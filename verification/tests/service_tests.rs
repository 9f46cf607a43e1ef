use cosmic_bing_wallpaper::bing::BingImage;
use cosmic_bing_wallpaper::config::Config;
use cosmic_bing_wallpaper::dates::CivilDate;
use cosmic_bing_wallpaper::lockfile::cleanup_stale_lockfiles;
use cosmic_bing_wallpaper::lockfile::gui_lockfile_path;
use cosmic_bing_wallpaper::lockfile::is_running;
use cosmic_bing_wallpaper::lockfile::should_remove_stale;
use cosmic_bing_wallpaper::lockfile::tray_lockfile_path;
use cosmic_bing_wallpaper::service::applied_title;
use cosmic_bing_wallpaper::service::basename;
use cosmic_bing_wallpaper::service::cleanup_old_wallpapers;
use cosmic_bing_wallpaper::service::extract_date_from_filename;
use cosmic_bing_wallpaper::service::is_image_filename;
use cosmic_bing_wallpaper::service::join_path;
use cosmic_bing_wallpaper::service::scan_history;
use cosmic_bing_wallpaper::service::HistoryItem;
use cosmic_bing_wallpaper::service::ServiceState;
use cosmic_bing_wallpaper::service::WallpaperInfo;
use cosmic_bing_wallpaper::timer::timer_status_from_query;
use cosmic_bing_wallpaper::timer::timer_status_from_state;
use cosmic_bing_wallpaper::timer::TimerState;
use cosmic_bing_wallpaper::timer::TimerStatus;

fn names(v: &[&str]) -> Vec<String> {
    v.iter().map(|s| String::from(*s)).collect()
}

#[test]
fn extract_date_falls_back_to_the_stem() {
    assert_eq!(
        extract_date_from_filename("bing-en-US-2026-02-05.jpg"),
        "2026-02-05"
    );
    assert_eq!(extract_date_from_filename("unknown.jpg"), "unknown");
    assert_eq!(extract_date_from_filename("photo-2026-02-05.jpeg"), "2026-02-05");
    assert_eq!(extract_date_from_filename("short.png"), "short");
    assert_eq!(extract_date_from_filename("noextension"), "noextension");
}

#[test]
fn retention_off_deletes_nothing() {
    // keep_days = 0 deletes nothing, even for arbitrarily old files.
    let today = CivilDate { year: 2026, month: 2, day: 5 };
    let listing = names(&[
        "bing-en-US-1900-01-01.jpg",
        "bing-en-US-2020-06-15.jpg",
        "bing-en-US-2026-02-05.jpg",
    ]);
    let doomed = cleanup_old_wallpapers(&listing, &today, 0);
    assert!(doomed.is_empty());
}

#[test]
fn retention_deletes_strictly_older_files_only() {
    // keep_days = 7 on 2026-02-05: strictly older than 2026-01-29 goes,
    // exactly seven days old stays.
    let today = CivilDate { year: 2026, month: 2, day: 5 };
    let listing = names(&[
        "bing-en-US-2026-01-28.jpg",
        "bing-en-US-2026-01-29.jpg",
        "bing-en-US-2026-02-05.jpg",
        "bing-en-US-2020-01-01.jpg",
        "unrelated-2020-01-01.jpg",
        "bing-en-US-2020-01-01.png",
        "bing-malformed.jpg",
    ]);
    let doomed = cleanup_old_wallpapers(&listing, &today, 7);
    assert_eq!(
        doomed,
        names(&["bing-en-US-2026-01-28.jpg", "bing-en-US-2020-01-01.jpg"])
    );
}

#[test]
fn lockfile_liveness_is_judged_by_age() {
    // Older than the 60s window: not running; touched 10s ago: running.
    assert!(!is_running(Some(70)));
    assert!(is_running(Some(10)));
    assert!(!is_running(Some(60)));
    assert!(is_running(Some(59)));
    assert!(!is_running(None));
}

#[test]
fn stale_lockfiles_are_swept() {
    assert!(should_remove_stale(true, Some(61)));
    assert!(should_remove_stale(true, None));
    assert!(!should_remove_stale(true, Some(5)));
    assert!(!should_remove_stale(false, None));

    let (gui, tray) = cleanup_stale_lockfiles(true, Some(600), true, Some(3));
    assert!(gui);
    assert!(!tray);
}

#[test]
fn lockfile_paths_live_under_the_config_dir() {
    assert_eq!(
        tray_lockfile_path("/home/u/.config/cosmic-bing-wallpaper"),
        "/home/u/.config/cosmic-bing-wallpaper/tray.lock"
    );
    assert_eq!(
        gui_lockfile_path("/home/u/.config/cosmic-bing-wallpaper"),
        "/home/u/.config/cosmic-bing-wallpaper/gui.lock"
    );
}

#[test]
fn history_is_filtered_and_newest_first() {
    let listing = names(&[
        "notes.txt",
        "bing-en-US-2026-01-03.jpg",
        "bing-en-US-2026-02-05.jpg",
        "odd-name.png",
        "bing-en-US-2025-12-31.jpeg",
    ]);
    let history = scan_history("/walls", &listing);
    let filenames: Vec<&str> = history.iter().map(|w| w.filename.as_str()).collect();
    assert_eq!(
        filenames,
        vec![
            "bing-en-US-2026-02-05.jpg",
            "bing-en-US-2026-01-03.jpg",
            "bing-en-US-2025-12-31.jpeg",
            "odd-name.png",
        ]
    );
    assert_eq!(history[0].path, "/walls/bing-en-US-2026-02-05.jpg");
    assert_eq!(history[0].date, "2026-02-05");
    assert_eq!(history[3].date, "odd-name");
}

#[test]
fn image_filenames_by_extension() {
    assert!(is_image_filename("a.jpg"));
    assert!(is_image_filename("a.jpeg"));
    assert!(is_image_filename("a.png"));
    assert!(!is_image_filename("a.txt"));
    assert!(!is_image_filename("jpg"));
}

#[test]
fn path_helpers() {
    assert_eq!(join_path("/walls", "a.jpg"), "/walls/a.jpg");
    assert_eq!(basename("/walls/a.jpg"), "a.jpg");
    assert_eq!(basename("a.jpg"), "a.jpg");
    assert_eq!(basename("/walls/"), "");
}

#[test]
fn service_state_tracks_the_current_artifact() {
    let mut state = ServiceState::new(Config::default());
    assert_eq!(state.current_wallpaper_path(), "");
    let img = BingImage {
        url: String::from("https://www.bing.com/x"),
        copyright: String::from("(c)"),
        title: String::from("T"),
        date: String::from("20260205"),
    };
    state.set_current(img, String::from("/walls/bing-en-US-2026-02-05.jpg"));
    assert_eq!(
        state.current_wallpaper_path(),
        "/walls/bing-en-US-2026-02-05.jpg"
    );
}

#[test]
fn timer_status_reflects_queries_and_fallback() {
    match timer_status_from_query(Ok(true), String::from("2026-02-06 08:00")) {
        TimerStatus::Installed { next_run } => assert_eq!(next_run, "2026-02-06 08:00"),
        _ => panic!("expected an installed status"),
    }
    match timer_status_from_query(Ok(true), String::new()) {
        TimerStatus::Installed { next_run } => assert_eq!(next_run, "Scheduled"),
        _ => panic!("expected an installed status"),
    }
    assert!(matches!(
        timer_status_from_query(Ok(false), String::new()),
        TimerStatus::NotInstalled
    ));
    match timer_status_from_query(Err(String::from("no bus")), String::new()) {
        TimerStatus::Error(msg) => assert_eq!(msg, "D-Bus error: no bus"),
        _ => panic!("expected an error status"),
    }

    let on = TimerState { enabled: true, last_fetch: None };
    match timer_status_from_state(&on) {
        TimerStatus::Installed { next_run } => assert_eq!(next_run, "Applet not running"),
        _ => panic!("expected an installed status"),
    }
    assert!(matches!(
        timer_status_from_state(&TimerState::default()),
        TimerStatus::NotInstalled
    ));
    assert!(matches!(TimerStatus::default(), TimerStatus::Checking));
}

#[test]
fn applied_titles_prefer_the_fetched_image() {
    let mut state = ServiceState::new(Config::default());
    assert_eq!(
        applied_title(&state, "/walls/bing-en-US-2026-02-05.jpg"),
        "bing-en-US-2026-02-05.jpg"
    );
    assert_eq!(applied_title(&state, "/walls/"), "Wallpaper");
    let img = BingImage {
        url: String::from("https://www.bing.com/x"),
        copyright: String::from("(c)"),
        title: String::from("Mountain Sunrise"),
        date: String::from("20260205"),
    };
    state.set_current(img, String::from("/walls/bing-en-US-2026-02-05.jpg"));
    assert_eq!(
        applied_title(&state, "/walls/bing-en-US-2026-02-05.jpg"),
        "Mountain Sunrise"
    );
    assert_eq!(applied_title(&state, "/walls/other.jpg"), "other.jpg");
}

#[test]
fn history_items_mirror_wallpaper_info() {
    let info = WallpaperInfo {
        path: String::from("/walls/a.jpg"),
        filename: String::from("a.jpg"),
        date: String::from("a"),
    };
    let item = HistoryItem::of_info(info);
    assert_eq!(item.path, "/walls/a.jpg");
    assert_eq!(item.filename, "a.jpg");
    assert_eq!(item.date, "a");
}
