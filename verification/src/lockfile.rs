//! Single-instance coordination through lockfiles.
//!
//! One lockfile per process role lives under the configuration
//! directory; its owner refreshes the modification time while it runs.
//! Liveness is judged purely by that timestamp's age — a PID check is
//! unreliable across sandbox boundaries — so a file older than the
//! staleness window counts as abandoned whatever it contains. The
//! runtime stats and deletes files; whether a role counts as running,
//! and which lockfiles a startup sweep removes, is decided here.

use vstd::prelude::*;

use crate::service::join_path;
use crate::service::spec_join_path;

verus! {

/// Age (seconds since last modification) at which a lockfile counts as
/// abandoned.
pub const LOCKFILE_STALE_SECS: u64 = 60;

/// How often a running owner refreshes its lockfile, seconds.
pub const LOCKFILE_REFRESH_SECS: u64 = 30;

/// Path of the tray's lockfile under the configuration directory.
pub fn tray_lockfile_path(config_dir: &str) -> (r: String)
    ensures
        r@ == spec_join_path(config_dir@, "tray.lock"@),
{
    join_path(config_dir, "tray.lock")
}

/// Path of the settings window's lockfile.
pub fn gui_lockfile_path(config_dir: &str) -> (r: String)
    ensures
        r@ == spec_join_path(config_dir@, "gui.lock"@),
{
    join_path(config_dir, "gui.lock")
}

/// Whether a role counts as running, given its lockfile's age: only a
/// lockfile modified within the staleness window says so. `None` — no
/// lockfile, or a modification time that cannot be read — counts as not
/// running, so a stale or damaged file never blocks a new instance.
pub open spec fn spec_is_running(elapsed_secs: Option<u64>) -> bool {
    match elapsed_secs {
        Some(e) => e < LOCKFILE_STALE_SECS,
        None => false,
    }
}

/// The liveness decision for one role's lockfile.
pub fn is_running(elapsed_secs: Option<u64>) -> (r: bool)
    ensures
        r == spec_is_running(elapsed_secs),
{
    match elapsed_secs {
        Some(e) => e < LOCKFILE_STALE_SECS,
        None => false,
    }
}

/// Whether a startup sweep removes a lockfile: one that exists and is
/// past the staleness window, or whose modification time cannot be
/// read, is left over from a dead process.
pub open spec fn spec_should_remove_stale(exists: bool, elapsed_secs: Option<u64>) -> bool {
    exists && match elapsed_secs {
        Some(e) => e >= LOCKFILE_STALE_SECS,
        None => true,
    }
}

/// The removal decision for one lockfile.
pub fn should_remove_stale(exists: bool, elapsed_secs: Option<u64>) -> (r: bool)
    ensures
        r == spec_should_remove_stale(exists, elapsed_secs),
{
    exists && match elapsed_secs {
        Some(e) => e >= LOCKFILE_STALE_SECS,
        None => true,
    }
}

/// The startup sweep over both roles' lockfiles: which of the two to
/// remove, settings window first, tray second.
pub fn cleanup_stale_lockfiles(
    gui_exists: bool,
    gui_elapsed: Option<u64>,
    tray_exists: bool,
    tray_elapsed: Option<u64>,
) -> (r: (bool, bool))
    ensures
        r.0 == spec_should_remove_stale(gui_exists, gui_elapsed),
        r.1 == spec_should_remove_stale(tray_exists, tray_elapsed),
{
    (should_remove_stale(gui_exists, gui_elapsed), should_remove_stale(tray_exists, tray_elapsed))
}

/// An owner that refreshes on schedule is never judged dead: the
/// refresh period stays within half the staleness window, so even a
/// refresh that lands a full period late leaves the file fresh.
pub proof fn lemma_refresh_beats_staleness(elapsed_secs: u64)
    requires
        elapsed_secs <= 2 * LOCKFILE_REFRESH_SECS - 1,
    ensures
        spec_is_running(Some(elapsed_secs)),
{
}

/// A lockfile judged running is never removed by the sweep, and one the
/// sweep removes was not judged running.
pub proof fn lemma_running_not_swept(exists: bool, elapsed_secs: Option<u64>)
    ensures
        spec_is_running(elapsed_secs) ==> !spec_should_remove_stale(exists, elapsed_secs),
{
}

} // verus!
