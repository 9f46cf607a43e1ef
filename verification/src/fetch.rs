//! The fetch pipeline and its retry policy.
//!
//! A fetch runs as a fixed sequence — request metadata, download, clean
//! up old files, apply, record — and each step can fail. The runtime
//! performs the outside work (network, filesystem, desktop) and reports
//! each outcome to a `FetchJob`, which decides what happens next; the
//! error that comes back always names the phase that failed. Headless
//! runs wrap the pipeline in a bounded exponential-backoff retry.

use vstd::prelude::*;

use crate::bing::spec_dashed_date;
use crate::bing::spec_wallpaper_filename;
use crate::bing::dashed_feature_date;
use crate::bing::wallpaper_filename;
use crate::bing::BingImage;
use crate::config::Config;
use crate::dates::CivilDate;
use crate::service::cleanup_old_wallpapers;
use crate::service::basename;
use crate::service::extract_date_from_filename;
use crate::service::join_path;
use crate::service::spec_basename;
use crate::service::spec_extract_date;
use crate::service::spec_join_path;
use crate::service::spec_should_delete;
use crate::service::WallpaperInfo;

verus! {

/// A fetch failure, tagged with the phase that failed.
pub enum FetchError {
    /// The metadata request failed.
    FetchFailed(String),
    /// The image download failed.
    DownloadFailed(String),
    /// The desktop did not pick up the new wallpaper.
    ApplyFailed(String),
}

impl FetchError {
    /// The failure's message, prefixed with its phase.
    pub fn display(&self) -> (r: String)
        ensures
            match self {
                FetchError::FetchFailed(e) => r@ == "Failed to fetch: "@ + e@,
                FetchError::DownloadFailed(e) => r@ == "Failed to download: "@ + e@,
                FetchError::ApplyFailed(e) => r@ == "Failed to apply: "@ + e@,
            },
    {
        match self {
            FetchError::FetchFailed(e) => {
                let mut out = String::from_str("Failed to fetch: ");
                out.append(e.as_str());
                out
            },
            FetchError::DownloadFailed(e) => {
                let mut out = String::from_str("Failed to download: ");
                out.append(e.as_str());
                out
            },
            FetchError::ApplyFailed(e) => {
                let mut out = String::from_str("Failed to apply: ");
                out.append(e.as_str());
                out
            },
        }
    }
}

/// Where a fetch stands.
#[derive(PartialEq, Eq, Structural)]
pub enum FetchPhase {
    /// Asking the remote archive for today's image.
    FetchingMetadata,
    /// Fetching the image file, unless it is already on disk.
    Downloading,
    /// Removing downloads past the retention window.
    CleaningUp,
    /// Handing the file to the desktop.
    Applying,
    /// Recording the successful fetch for catch-up accounting.
    Recording,
    /// Everything done.
    Complete,
    /// A step failed; the remaining steps were abandoned.
    Failed,
}

/// One fetch in progress: the configuration it copied out at the start,
/// the phase it stands in, and what earlier steps produced.
pub struct FetchJob {
    pub market: String,
    pub wallpaper_dir: String,
    pub keep_days: u32,
    /// Whether the fetched image is to be applied as wallpaper.
    pub apply: bool,
    pub phase: FetchPhase,
    /// Today's metadata, once fetched.
    pub image: Option<BingImage>,
    /// The downloaded file, once on disk.
    pub path: Option<String>,
    /// Whether the fetch was recorded in the timer state.
    pub recorded: bool,
}

impl FetchJob {
    /// Begin a fetch over a freshly reloaded configuration, copying out
    /// the values the pipeline needs so no lock is held across the slow
    /// steps.
    pub fn new(config: &Config, apply: bool) -> (r: FetchJob)
        ensures
            r.market == config.market,
            r.wallpaper_dir == config.wallpaper_dir,
            r.keep_days == config.keep_days,
            r.apply == apply,
            r.phase == FetchPhase::FetchingMetadata,
            r.image is None,
            r.path is None,
            !r.recorded,
    {
        FetchJob {
            market: config.market.clone(),
            wallpaper_dir: config.wallpaper_dir.clone(),
            keep_days: config.keep_days,
            apply,
            phase: FetchPhase::FetchingMetadata,
            image: None,
            path: None,
            recorded: false,
        }
    }

    /// The progress label remote callers see for the current phase.
    pub fn phase_label(&self) -> (r: &'static str)
        ensures
            self.phase == FetchPhase::FetchingMetadata ==> r@ == "starting"@,
            self.phase == FetchPhase::Downloading ==> r@ == "downloading"@,
            (self.phase == FetchPhase::CleaningUp || self.phase == FetchPhase::Applying) ==> r@
                == "applying"@,
            (self.phase == FetchPhase::Recording || self.phase == FetchPhase::Complete) ==> r@
                == "complete"@,
            self.phase == FetchPhase::Failed ==> r@ == "failed"@,
    {
        match self.phase {
            FetchPhase::FetchingMetadata => "starting",
            FetchPhase::Downloading => "downloading",
            FetchPhase::CleaningUp => "applying",
            FetchPhase::Applying => "applying",
            FetchPhase::Recording => "complete",
            FetchPhase::Complete => "complete",
            FetchPhase::Failed => "failed",
        }
    }

    /// Take the metadata request's outcome: on success the image is
    /// kept and the download begins; on failure the fetch ends as
    /// `FetchFailed`.
    pub fn on_metadata(&mut self, outcome: Result<BingImage, String>) -> (r: Option<FetchError>)
        requires
            old(self).phase == FetchPhase::FetchingMetadata,
        ensures
            final(self).market == old(self).market,
            final(self).wallpaper_dir == old(self).wallpaper_dir,
            final(self).keep_days == old(self).keep_days,
            final(self).apply == old(self).apply,
            final(self).path == old(self).path,
            final(self).recorded == old(self).recorded,
            match outcome {
                Ok(img) => final(self).image == Some(img) && final(self).phase
                    == FetchPhase::Downloading && r is None,
                Err(e) => final(self).phase == FetchPhase::Failed && r == Some(
                    FetchError::FetchFailed(e),
                ),
            },
    {
        match outcome {
            Ok(img) => {
                self.image = Some(img);
                self.phase = FetchPhase::Downloading;
                None
            },
            Err(e) => {
                self.phase = FetchPhase::Failed;
                Some(FetchError::FetchFailed(e))
            },
        }
    }

    /// The deterministic filename this fetch downloads to, built from
    /// the market and the image's feature date — never from the local
    /// clock, so the same market and day always name the same file.
    pub fn target_filename(&self) -> (r: String)
        requires
            self.image matches Some(img),
        ensures
            self.image matches Some(img) ==> r@ == spec_wallpaper_filename(
                self.market@,
                spec_dashed_date(img.date@),
            ),
    {
        let img = match &self.image {
            Some(img) => img,
            None => unreached(),
        };
        let date = dashed_feature_date(img.date.as_str());
        wallpaper_filename(self.market.as_str(), date.as_str())
    }

    /// The full path of the target file under the wallpaper directory.
    pub fn target_path(&self) -> (r: String)
        requires
            self.image matches Some(img),
        ensures
            self.image matches Some(img) ==> r@ == spec_join_path(
                self.wallpaper_dir@,
                spec_wallpaper_filename(self.market@, spec_dashed_date(img.date@)),
            ),
    {
        let name = self.target_filename();
        join_path(self.wallpaper_dir.as_str(), name.as_str())
    }

    /// What the download step does: nothing at all when the target file
    /// is already on disk — a repeated fetch for the same market and
    /// day never touches the network — otherwise fetch the image's URL.
    pub fn download_action(&self, already_present: bool) -> (r: Option<String>)
        requires
            self.phase == FetchPhase::Downloading,
            self.image matches Some(img),
        ensures
            already_present ==> r is None,
            !already_present ==> (self.image matches Some(img) && r == Some(img.url)),
    {
        if already_present {
            None
        } else {
            match &self.image {
                Some(img) => Some(img.url.clone()),
                None => unreached(),
            }
        }
    }

    /// Take the download's outcome: the path of the file now on disk,
    /// or the failure that ends the fetch as `DownloadFailed`.
    pub fn on_download(&mut self, outcome: Result<String, String>) -> (r: Option<FetchError>)
        requires
            old(self).phase == FetchPhase::Downloading,
        ensures
            final(self).market == old(self).market,
            final(self).wallpaper_dir == old(self).wallpaper_dir,
            final(self).keep_days == old(self).keep_days,
            final(self).apply == old(self).apply,
            final(self).image == old(self).image,
            final(self).recorded == old(self).recorded,
            match outcome {
                Ok(path) => final(self).path == Some(path) && final(self).phase
                    == FetchPhase::CleaningUp && r is None,
                Err(e) => final(self).path == old(self).path && final(self).phase
                    == FetchPhase::Failed && r == Some(FetchError::DownloadFailed(e)),
            },
    {
        match outcome {
            Ok(path) => {
                self.path = Some(path);
                self.phase = FetchPhase::CleaningUp;
                None
            },
            Err(e) => {
                self.phase = FetchPhase::Failed;
                Some(FetchError::DownloadFailed(e))
            },
        }
    }

    /// The retention pass for this fetch: which files of the wallpaper
    /// directory to delete. A failure to delete is not a fetch failure;
    /// the pipeline continues either way.
    pub fn cleanup_files(&self, listing: &Vec<String>, today: &CivilDate) -> (r: Vec<String>)
        requires
            self.phase == FetchPhase::CleaningUp,
            today.wf(),
        ensures
            r@ == listing@.filter(
                |name: String| spec_should_delete(name@, *today, self.keep_days),
            ),
            self.keep_days == 0 ==> r@.len() == 0,
    {
        cleanup_old_wallpapers(listing, today, self.keep_days)
    }

    /// Leave the retention pass behind: on to applying when that was
    /// asked for, else straight to recording.
    pub fn on_cleanup_done(&mut self)
        requires
            old(self).phase == FetchPhase::CleaningUp,
        ensures
            *final(self) == (FetchJob {
                phase: if old(self).apply {
                    FetchPhase::Applying
                } else {
                    FetchPhase::Recording
                },
                ..*old(self)
            }),
    {
        if self.apply {
            self.phase = FetchPhase::Applying;
        } else {
            self.phase = FetchPhase::Recording;
        }
    }

    /// Take the apply step's outcome. On failure the fetch ends as
    /// `ApplyFailed`, but the downloaded file stays recorded in the
    /// job: the download succeeded and is not to be repeated.
    pub fn on_apply(&mut self, outcome: Result<(), String>) -> (r: Option<FetchError>)
        requires
            old(self).phase == FetchPhase::Applying,
        ensures
            final(self).market == old(self).market,
            final(self).wallpaper_dir == old(self).wallpaper_dir,
            final(self).keep_days == old(self).keep_days,
            final(self).apply == old(self).apply,
            final(self).image == old(self).image,
            final(self).path == old(self).path,
            final(self).recorded == old(self).recorded,
            match outcome {
                Ok(_) => final(self).phase == FetchPhase::Recording && r is None,
                Err(e) => final(self).phase == FetchPhase::Failed && r == Some(
                    FetchError::ApplyFailed(e),
                ),
            },
    {
        match outcome {
            Ok(_) => {
                self.phase = FetchPhase::Recording;
                None
            },
            Err(e) => {
                self.phase = FetchPhase::Failed;
                Some(FetchError::ApplyFailed(e))
            },
        }
    }

    /// The fetch was recorded in the timer state; the pipeline is done.
    /// Only a fetch that came this far counts for catch-up accounting.
    pub fn on_recorded(&mut self)
        requires
            old(self).phase == FetchPhase::Recording,
        ensures
            *final(self) == (FetchJob { phase: FetchPhase::Complete, recorded: true, ..*old(self) }),
    {
        self.phase = FetchPhase::Complete;
        self.recorded = true;
    }

    /// The completed fetch as a history entry: the file's path, its
    /// name, and the date its name carries.
    pub fn summary(&self) -> (r: WallpaperInfo)
        requires
            self.phase == FetchPhase::Complete,
            self.path matches Some(p),
        ensures
            self.path matches Some(p) ==> r.path == p && r.filename@ == spec_basename(p@)
                && r.date@ == spec_extract_date(spec_basename(p@)),
    {
        let p = match &self.path {
            Some(p) => p,
            None => unreached(),
        };
        let filename = basename(p.as_str());
        let date = extract_date_from_filename(filename.as_str());
        WallpaperInfo { path: p.clone(), filename, date }
    }
}

/// Attempts a headless run makes before giving up.
pub const MAX_RETRIES: u32 = 3;

/// Backoff base: the delay before the second attempt, seconds.
pub const INITIAL_RETRY_DELAY_SECS: u64 = 10;

/// The backoff delay before attempt `attempt` (counting from zero):
/// the base delay, doubled for each further attempt — 10s, 20s, 40s...
/// The first attempt waits for nothing.
pub open spec fn spec_retry_delay(attempt: u32) -> u64 {
    (INITIAL_RETRY_DELAY_SECS * (1u64 << ((attempt - 1) as u64))) as u64
}

/// Backoff delay before the given attempt.
pub fn retry_delay_secs(attempt: u32) -> (r: u64)
    requires
        1 <= attempt <= 3,
    ensures
        r == spec_retry_delay(attempt),
{
    proof {
        assert(1u64 << 0u64 == 1) by (bit_vector);
        assert(1u64 << 1u64 == 2) by (bit_vector);
        assert(1u64 << 2u64 == 4) by (bit_vector);
    }
    if attempt == 1 {
        10
    } else if attempt == 2 {
        20
    } else {
        40
    }
}

/// A headless retry session: how many attempts failed, and the error
/// the last one left.
pub struct RetrySession {
    pub failures: u32,
    pub last_error: Option<String>,
}

impl RetrySession {
    /// A fresh session: no attempt made yet.
    pub fn new() -> (r: RetrySession)
        ensures
            r.failures == 0,
            r.last_error is None,
    {
        RetrySession { failures: 0, last_error: None }
    }

    /// Whether all attempts are used up. Once this holds, the last
    /// error is surfaced and nothing is recorded.
    pub fn exhausted(&self) -> (r: bool)
        ensures
            r == (self.failures >= MAX_RETRIES),
    {
        self.failures >= MAX_RETRIES
    }

    /// Take one attempt's failure. The session keeps the error; the
    /// returned value says how long to wait before the next attempt,
    /// or `None` when the attempts are exhausted.
    pub fn on_failure(&mut self, error: String) -> (r: Option<u64>)
        requires
            old(self).failures < MAX_RETRIES,
        ensures
            final(self).failures == old(self).failures + 1,
            final(self).last_error == Some(error),
            final(self).failures < MAX_RETRIES ==> r == Some(spec_retry_delay(
                final(self).failures,
            )),
            final(self).failures >= MAX_RETRIES ==> r is None,
    {
        self.failures = self.failures + 1;
        self.last_error = Some(error);
        if self.failures < MAX_RETRIES {
            Some(retry_delay_secs(self.failures))
        } else {
            None
        }
    }
}

} // verus!
