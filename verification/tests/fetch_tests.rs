use cosmic_bing_wallpaper::bing::dashed_feature_date;
use cosmic_bing_wallpaper::bing::first_image;
use cosmic_bing_wallpaper::bing::wallpaper_filename;
use cosmic_bing_wallpaper::bing::BingApiResponse;
use cosmic_bing_wallpaper::bing::BingImage;
use cosmic_bing_wallpaper::bing::BingImageData;
use cosmic_bing_wallpaper::config::Config;
use cosmic_bing_wallpaper::dates::CivilDate;
use cosmic_bing_wallpaper::fetch::retry_delay_secs;
use cosmic_bing_wallpaper::fetch::FetchError;
use cosmic_bing_wallpaper::fetch::FetchJob;
use cosmic_bing_wallpaper::fetch::FetchPhase;
use cosmic_bing_wallpaper::fetch::RetrySession;
use cosmic_bing_wallpaper::service::extract_date_from_filename;

fn config() -> Config {
    Config {
        wallpaper_dir: String::from("/home/u/Pictures/BingWallpapers"),
        market: String::from("en-US"),
        auto_update: false,
        keep_days: 30,
        fetch_on_startup: true,
    }
}

fn image(date: &str) -> BingImage {
    BingImage {
        url: String::from("https://www.bing.com/th?id=x.jpg"),
        copyright: String::from("(c) someone"),
        title: String::from("A view"),
        date: String::from(date),
    }
}

#[test]
fn raw_entries_get_the_archive_domain() {
    let data = BingImageData {
        url: String::from("/th?id=x.jpg"),
        copyright: String::from("(c) someone"),
        title: String::from("A view"),
        start_date: String::from("20260205"),
    };
    let img = BingImage::from_data(data);
    assert_eq!(img.url, "https://www.bing.com/th?id=x.jpg");
    assert_eq!(img.title, "A view");
    assert_eq!(img.date, "20260205");
}

#[test]
fn empty_responses_are_the_documented_error() {
    let r = first_image(BingApiResponse { images: Vec::new() });
    assert_eq!(r.err().as_deref(), Some("No images in Bing response"));
}

#[test]
fn filename_uses_the_metadata_date() {
    // A metadata date of 20260205 names the file with 2026-02-05, and
    // the date extracted from that filename round-trips.
    let dashed = dashed_feature_date("20260205");
    assert_eq!(dashed, "2026-02-05");
    let name = wallpaper_filename("en-US", &dashed);
    assert_eq!(name, "bing-en-US-2026-02-05.jpg");
    assert_eq!(extract_date_from_filename(&name), "2026-02-05");

    // An unexpected metadata shape passes through untouched.
    assert_eq!(dashed_feature_date("2026020"), "2026020");
}

#[test]
fn repeated_fetch_skips_the_download() {
    // Two fetches for the same market and day compute the same target
    // file, and with the file already present the second asks for no
    // network request at all.
    let mut first = FetchJob::new(&config(), true);
    assert!(first.on_metadata(Ok(image("20260205"))).is_none());
    let mut second = FetchJob::new(&config(), true);
    assert!(second.on_metadata(Ok(image("20260205"))).is_none());

    assert_eq!(first.target_path(), second.target_path());
    assert_eq!(
        first.target_path(),
        "/home/u/Pictures/BingWallpapers/bing-en-US-2026-02-05.jpg"
    );
    assert!(second.download_action(true).is_none());
    assert_eq!(
        first.download_action(false).as_deref(),
        Some("https://www.bing.com/th?id=x.jpg")
    );
}

#[test]
fn pipeline_happy_path() {
    let mut job = FetchJob::new(&config(), true);
    assert!(matches!(job.phase, FetchPhase::FetchingMetadata));
    assert_eq!(job.phase_label(), "starting");

    assert!(job.on_metadata(Ok(image("20260205"))).is_none());
    assert_eq!(job.phase_label(), "downloading");

    let path = job.target_path();
    assert!(job.on_download(Ok(path.clone())).is_none());

    let today = CivilDate { year: 2026, month: 2, day: 5 };
    let listing = vec![String::from("bing-en-US-2020-01-01.jpg")];
    let doomed = job.cleanup_files(&listing, &today);
    assert_eq!(doomed.len(), 1);
    job.on_cleanup_done();
    assert_eq!(job.phase_label(), "applying");

    assert!(job.on_apply(Ok(())).is_none());
    job.on_recorded();
    assert!(job.recorded);
    assert_eq!(job.phase_label(), "complete");

    let summary = job.summary();
    assert_eq!(summary.path, path);
    assert_eq!(summary.filename, "bing-en-US-2026-02-05.jpg");
    assert_eq!(summary.date, "2026-02-05");
}

#[test]
fn pipeline_failures_name_their_phase() {
    let mut job = FetchJob::new(&config(), true);
    let err = job.on_metadata(Err(String::from("connection refused")));
    match err {
        Some(FetchError::FetchFailed(e)) => assert_eq!(e, "connection refused"),
        _ => panic!("expected a fetch-phase failure"),
    }
    assert!(matches!(job.phase, FetchPhase::Failed));
    assert!(!job.recorded);

    let mut job = FetchJob::new(&config(), true);
    job.on_metadata(Ok(image("20260205")));
    let err = job.on_download(Err(String::from("timed out")));
    assert!(matches!(err, Some(FetchError::DownloadFailed(_))));

    // A failed apply keeps the downloaded file: the download succeeded
    // and is not repeated.
    let mut job = FetchJob::new(&config(), true);
    job.on_metadata(Ok(image("20260205")));
    let path = job.target_path();
    job.on_download(Ok(path.clone()));
    job.on_cleanup_done();
    let err = job.on_apply(Err(String::from("desktop did not restart")));
    match err {
        Some(FetchError::ApplyFailed(e)) => {
            assert_eq!(e, "desktop did not restart");
        },
        _ => panic!("expected an apply-phase failure"),
    }
    assert_eq!(job.path.as_deref(), Some(path.as_str()));
    assert!(!job.recorded);
}

#[test]
fn error_messages_carry_the_phase() {
    let e = FetchError::FetchFailed(String::from("boom"));
    assert_eq!(e.display(), "Failed to fetch: boom");
    let e = FetchError::DownloadFailed(String::from("boom"));
    assert_eq!(e.display(), "Failed to download: boom");
    let e = FetchError::ApplyFailed(String::from("boom"));
    assert_eq!(e.display(), "Failed to apply: boom");
}

#[test]
fn backoff_doubles_from_ten_seconds() {
    assert_eq!(retry_delay_secs(1), 10);
    assert_eq!(retry_delay_secs(2), 20);
    assert_eq!(retry_delay_secs(3), 40);
}

#[test]
fn three_network_failures_exhaust_the_retries() {
    // Headless retry: three consecutive failures use up the attempts,
    // waiting 10s then 20s in between, and surface the last error; the
    // pipeline never reached its recording step.
    let mut session = RetrySession::new();
    let mut job = FetchJob::new(&config(), true);

    assert_eq!(
        session.on_failure(String::from("failure one")),
        Some(10)
    );
    assert!(!session.exhausted());
    assert_eq!(
        session.on_failure(String::from("failure two")),
        Some(20)
    );
    assert!(!session.exhausted());
    assert_eq!(session.on_failure(String::from("failure three")), None);
    assert!(session.exhausted());
    assert_eq!(session.last_error.as_deref(), Some("failure three"));

    let _ = job.on_metadata(Err(String::from("failure three")));
    assert!(!job.recorded);
}
