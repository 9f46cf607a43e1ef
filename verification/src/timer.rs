//! The daily timer: persisted state, schedule arithmetic, and the
//! scheduling engine as a state machine.
//!
//! The runtime that owns the background task drives the machine in a
//! loop: it reads the clock, asks `timer_step` what to do, then performs
//! the returned effects (sleep, update the next-run cache, emit a fire
//! event). Every decision is made here, on plain values, so it is
//! verified for every clock reading.

use vstd::prelude::*;

use crate::clock::clock_subsec_nanos;
use crate::clock::parse_rfc3339_local;
use crate::dates::date_lt;
use crate::dates::instant_lt;
use crate::dates::spec_succ_date;
use crate::dates::succ_date;
use crate::dates::CivilDate;
use crate::dates::LocalInstant;

verus! {

/// Scheduled run time: 08:00 local.
pub const SCHEDULED_HOUR: u32 = 8;

pub const SCHEDULED_MINUTE: u32 = 0;

/// Scheduled run time as a second of the day.
pub const SCHEDULED_SECS: u32 = SCHEDULED_HOUR * 3600 + SCHEDULED_MINUTE * 60;

/// Delay after boot before a catch-up run, seconds.
pub const BOOT_DELAY_SECS: u64 = 300;

/// Upper bound (exclusive) of the random pre-fire delay, seconds.
pub const MAX_RANDOM_DELAY_SECS: u64 = 300;

/// Longest single sleep while waiting or disabled, seconds: disabling
/// the timer is honored within one such increment.
pub const SLEEP_INCREMENT_SECS: u64 = 60;

/// A character that may stand inside the persisted timestamp string:
/// anything but a quote, a backslash or a control character, so the
/// string embeds verbatim in the timer-state document.
pub open spec fn stamp_char_ok(c: char) -> bool {
    c != '"' && c != '\\' && c as u32 >= 0x20
}

pub open spec fn stamp_wf(s: Seq<char>) -> bool {
    forall|i: int| 0 <= i < s.len() ==> stamp_char_ok(#[trigger] s[i])
}

/// The persisted timer record: whether scheduled fetches are active, and
/// the last confirmed successful fetch as an ISO-8601 string.
pub struct TimerState {
    pub enabled: bool,
    pub last_fetch: Option<String>,
}

impl TimerState {
    pub open spec fn wf(self) -> bool {
        match self.last_fetch {
            Some(s) => stamp_wf(s@),
            None => true,
        }
    }

    /// Update the last fetch time.
    pub fn set_last_fetch(&mut self, stamp: String)
        requires
            stamp_wf(stamp@),
        ensures
            final(self).enabled == old(self).enabled,
            final(self).last_fetch == Some(stamp),
            final(self).wf(),
    {
        self.last_fetch = Some(stamp);
    }

    /// Flip the enabled flag, leaving the fetch history untouched.
    pub fn set_enabled(&mut self, enabled: bool)
        ensures
            final(self).enabled == enabled,
            final(self).last_fetch == old(self).last_fetch,
            old(self).wf() ==> final(self).wf(),
    {
        self.enabled = enabled;
    }

    /// The local calendar date of the last recorded fetch: `None` when
    /// nothing was recorded, or when the stored text does not name a
    /// moment the library can work with.
    pub fn last_fetch_date(&self) -> (r: Option<CivilDate>)
        ensures
            self.last_fetch is None ==> r is None,
            match r {
                Some(d) => d.wf(),
                None => true,
            },
    {
        match &self.last_fetch {
            None => None,
            Some(s) => match parse_rfc3339_local(s.as_str()) {
                None => None,
                Some(reading) => match reading.to_instant() {
                    None => None,
                    Some(i) => Some(i.date),
                },
            },
        }
    }
}

impl Default for TimerState {
    /// A fresh record: timer off, no fetch recorded.
    fn default() -> (r: Self)
        ensures
            r.enabled == false,
            r.last_fetch is None,
            r.wf(),
    {
        TimerState { enabled: false, last_fetch: None }
    }
}

/// Where the next scheduled run lies, relative to `now`: today's 08:00
/// when that is still ahead, otherwise tomorrow's.
pub open spec fn spec_next_run(now: LocalInstant) -> LocalInstant {
    if now.secs < SCHEDULED_SECS {
        LocalInstant { date: now.date, secs: SCHEDULED_SECS }
    } else {
        LocalInstant { date: spec_succ_date(now.date), secs: SCHEDULED_SECS }
    }
}

/// Next scheduled run time. It always lies strictly after `now`.
pub fn calculate_next_run(now: &LocalInstant) -> (r: LocalInstant)
    requires
        now.wf(),
        now.date.year < 9999,
    ensures
        r == spec_next_run(*now),
        r.wf(),
        instant_lt(*now, r),
{
    if now.secs < SCHEDULED_SECS {
        LocalInstant { date: now.date, secs: SCHEDULED_SECS }
    } else {
        LocalInstant { date: succ_date(&now.date), secs: SCHEDULED_SECS }
    }
}

/// Whether a catch-up run is owed: today's scheduled time has already
/// passed, and no fetch is recorded for today or later.
pub open spec fn spec_needs_catchup(last_fetch_date: Option<CivilDate>, now: LocalInstant) -> bool {
    now.secs >= SCHEDULED_SECS && match last_fetch_date {
        None => true,
        Some(d) => date_lt(d, now.date),
    }
}

/// Catch-up decision on plain values.
pub fn needs_catchup(last_fetch_date: Option<CivilDate>, now: &LocalInstant) -> (r: bool)
    ensures
        r == spec_needs_catchup(last_fetch_date, *now),
{
    if now.secs < SCHEDULED_SECS {
        false
    } else {
        match last_fetch_date {
            None => true,
            Some(d) => crate::dates::date_before(&d, &now.date),
        }
    }
}

/// Catch-up decision for a persisted record. A stored timestamp that
/// cannot be read back counts as no recorded fetch, as it does when the
/// record is loaded from a damaged file.
pub fn check_needs_catchup(state: &TimerState, now: &LocalInstant) -> (r: bool)
    ensures
        r ==> now.secs >= SCHEDULED_SECS,
        now.secs < SCHEDULED_SECS ==> !r,
        state.last_fetch is None ==> r == spec_needs_catchup(None, *now),
{
    let last = state.last_fetch_date();
    needs_catchup(last, now)
}

/// Before today's scheduled time, no catch-up is owed, whatever was
/// recorded.
pub proof fn lemma_no_catchup_before_schedule(last_fetch_date: Option<CivilDate>, now: LocalInstant)
    requires
        now.secs < SCHEDULED_SECS,
    ensures
        !spec_needs_catchup(last_fetch_date, now),
{
}

/// After today's scheduled time, catch-up is owed exactly when no fetch
/// is recorded, or the recorded one lies on an earlier calendar day.
pub proof fn lemma_catchup_after_schedule(last_fetch_date: Option<CivilDate>, now: LocalInstant)
    requires
        now.secs >= SCHEDULED_SECS,
    ensures
        spec_needs_catchup(last_fetch_date, now) == match last_fetch_date {
            None => true,
            Some(d) => date_lt(d, now.date),
        },
{
}

/// A fetch recorded now silences catch-up for the rest of the day.
pub proof fn lemma_record_fetch_silences_catchup(now: LocalInstant)
    ensures
        !spec_needs_catchup(Some(now.date), now),
{
}

/// Random pre-fire delay, spread over `0 .. MAX_RANDOM_DELAY_SECS`.
pub fn rand_delay() -> (r: u64)
    ensures
        r < MAX_RANDOM_DELAY_SECS,
{
    (clock_subsec_nanos() as u64) % MAX_RANDOM_DELAY_SECS
}

/// Where the scheduling engine stands.
pub enum TimerPhase {
    /// A catch-up is owed: waiting out the boot-settle delay.
    BootSettle,
    /// About to catch up: waiting out the random delay.
    CatchupJitter,
    /// Fire the catch-up run, if still enabled.
    CatchupFire,
    /// Top of the scheduling cycle: compute and cache the next run.
    Recompute,
    /// Sleeping in bounded increments until the cached next run.
    Waiting { next: LocalInstant },
    /// The scheduled moment has arrived; the random delay has passed.
    FireNow,
    /// Just fired: brief pause so the same wake cannot trigger twice.
    Cooldown,
}

/// What the runtime should do to the shared next-run cache.
pub enum CacheUpdate {
    Keep,
    Clear,
    Store { at: LocalInstant },
}

/// One decision of the scheduling engine: the phase to move to, the
/// cache effect, whether to emit a fire event, then how long to sleep.
pub struct TimerStep {
    pub phase: TimerPhase,
    pub cache: CacheUpdate,
    pub fire: bool,
    pub sleep_secs: u64,
}

pub open spec fn phase_wf(phase: TimerPhase) -> bool {
    match phase {
        TimerPhase::Waiting { next } => next.wf() && next.secs == SCHEDULED_SECS,
        _ => true,
    }
}

/// The transition relation of the scheduling engine.
pub open spec fn spec_timer_step(
    phase: TimerPhase,
    enabled: bool,
    now: LocalInstant,
    jitter: u64,
) -> TimerStep {
    match phase {
        TimerPhase::BootSettle => TimerStep {
            phase: TimerPhase::CatchupJitter,
            cache: CacheUpdate::Keep,
            fire: false,
            sleep_secs: BOOT_DELAY_SECS,
        },
        TimerPhase::CatchupJitter => TimerStep {
            phase: TimerPhase::CatchupFire,
            cache: CacheUpdate::Keep,
            fire: false,
            sleep_secs: jitter,
        },
        TimerPhase::CatchupFire => TimerStep {
            phase: TimerPhase::Recompute,
            cache: CacheUpdate::Keep,
            fire: enabled,
            sleep_secs: 0,
        },
        TimerPhase::Recompute => if !enabled {
            TimerStep {
                phase: TimerPhase::Recompute,
                cache: CacheUpdate::Clear,
                fire: false,
                sleep_secs: SLEEP_INCREMENT_SECS,
            }
        } else {
            TimerStep {
                phase: TimerPhase::Waiting { next: spec_next_run(now) },
                cache: CacheUpdate::Store { at: spec_next_run(now) },
                fire: false,
                sleep_secs: 0,
            }
        },
        TimerPhase::Waiting { next } => if !enabled {
            TimerStep {
                phase: TimerPhase::Recompute,
                cache: CacheUpdate::Clear,
                fire: false,
                sleep_secs: SLEEP_INCREMENT_SECS,
            }
        } else if !instant_lt(now, next) {
            TimerStep {
                phase: TimerPhase::FireNow,
                cache: CacheUpdate::Keep,
                fire: false,
                sleep_secs: jitter,
            }
        } else {
            TimerStep {
                phase: TimerPhase::Waiting { next },
                cache: CacheUpdate::Keep,
                fire: false,
                sleep_secs: if now.date == next.date && next.secs - now.secs
                    < SLEEP_INCREMENT_SECS {
                    (next.secs - now.secs) as u64
                } else {
                    SLEEP_INCREMENT_SECS
                },
            }
        },
        TimerPhase::FireNow => TimerStep {
            phase: TimerPhase::Cooldown,
            cache: CacheUpdate::Keep,
            fire: enabled,
            sleep_secs: 0,
        },
        TimerPhase::Cooldown => TimerStep {
            phase: TimerPhase::Recompute,
            cache: CacheUpdate::Keep,
            fire: false,
            sleep_secs: SLEEP_INCREMENT_SECS,
        },
    }
}

/// The phase the engine starts in: the catch-up path when one is owed
/// and the timer is on, otherwise straight into the scheduling cycle.
pub fn initial_phase(catchup_owed: bool, enabled: bool) -> (r: TimerPhase)
    ensures
        r == if catchup_owed && enabled {
            TimerPhase::BootSettle
        } else {
            TimerPhase::Recompute
        },
        phase_wf(r),
{
    if catchup_owed && enabled {
        TimerPhase::BootSettle
    } else {
        TimerPhase::Recompute
    }
}

/// Exec comparison of instants, mirroring `instant_lt`.
pub fn instant_before(a: &LocalInstant, b: &LocalInstant) -> (r: bool)
    ensures
        r == instant_lt(*a, *b),
{
    if a.date == b.date {
        a.secs < b.secs
    } else {
        crate::dates::date_before(&a.date, &b.date)
    }
}

/// One decision of the scheduling engine.
pub fn timer_step(phase: &TimerPhase, enabled: bool, now: &LocalInstant, jitter: u64) -> (r:
    TimerStep)
    requires
        phase_wf(*phase),
        now.wf(),
        now.date.year < 9999,
        jitter < MAX_RANDOM_DELAY_SECS,
    ensures
        r == spec_timer_step(*phase, enabled, *now, jitter),
        phase_wf(r.phase),
{
    match phase {
        TimerPhase::BootSettle => TimerStep {
            phase: TimerPhase::CatchupJitter,
            cache: CacheUpdate::Keep,
            fire: false,
            sleep_secs: BOOT_DELAY_SECS,
        },
        TimerPhase::CatchupJitter => TimerStep {
            phase: TimerPhase::CatchupFire,
            cache: CacheUpdate::Keep,
            fire: false,
            sleep_secs: jitter,
        },
        TimerPhase::CatchupFire => TimerStep {
            phase: TimerPhase::Recompute,
            cache: CacheUpdate::Keep,
            fire: enabled,
            sleep_secs: 0,
        },
        TimerPhase::Recompute => {
            if !enabled {
                TimerStep {
                    phase: TimerPhase::Recompute,
                    cache: CacheUpdate::Clear,
                    fire: false,
                    sleep_secs: SLEEP_INCREMENT_SECS,
                }
            } else {
                let next = calculate_next_run(now);
                TimerStep {
                    phase: TimerPhase::Waiting { next },
                    cache: CacheUpdate::Store { at: next },
                    fire: false,
                    sleep_secs: 0,
                }
            }
        },
        TimerPhase::Waiting { next } => {
            if !enabled {
                TimerStep {
                    phase: TimerPhase::Recompute,
                    cache: CacheUpdate::Clear,
                    fire: false,
                    sleep_secs: SLEEP_INCREMENT_SECS,
                }
            } else if !instant_before(now, next) {
                TimerStep {
                    phase: TimerPhase::FireNow,
                    cache: CacheUpdate::Keep,
                    fire: false,
                    sleep_secs: jitter,
                }
            } else {
                let sleep_secs: u64 = if now.date == next.date && next.secs - now.secs < 60 {
                    (next.secs - now.secs) as u64
                } else {
                    SLEEP_INCREMENT_SECS
                };
                TimerStep {
                    phase: TimerPhase::Waiting { next: *next },
                    cache: CacheUpdate::Keep,
                    fire: false,
                    sleep_secs,
                }
            }
        },
        TimerPhase::FireNow => TimerStep {
            phase: TimerPhase::Cooldown,
            cache: CacheUpdate::Keep,
            fire: enabled,
            sleep_secs: 0,
        },
        TimerPhase::Cooldown => TimerStep {
            phase: TimerPhase::Recompute,
            cache: CacheUpdate::Keep,
            fire: false,
            sleep_secs: SLEEP_INCREMENT_SECS,
        },
    }
}

/// The display form of an instant: abbreviated weekday and month, the
/// zero-padded day, and `HH:MM`, as in `Thu Feb 05 08:00`.
pub open spec fn spec_instant_display(i: LocalInstant) -> Seq<char> {
    crate::dates::weekday_abbrev(i.date.spec_day_number() % 7) + seq![' ']
        + crate::dates::month_abbrev(i.date.month as int) + seq![
        ' ',
        crate::text::digit_char(i.date.day as int / 10),
        crate::text::digit_char(i.date.day as int % 10),
        ' ',
        crate::text::digit_char((i.secs / 3600) as int / 10),
        crate::text::digit_char((i.secs / 3600) as int % 10),
        ':',
        crate::text::digit_char(((i.secs % 3600) / 60) as int / 10),
        crate::text::digit_char(((i.secs % 3600) / 60) as int % 10),
    ]
}

/// The next-run time for display: the empty string while the timer is
/// off, a plain placeholder while no next run is cached yet, else the
/// cached time.
pub fn next_run_string(enabled: bool, cached: Option<LocalInstant>) -> (r: String)
    requires
        cached matches Some(i) ==> i.wf(),
    ensures
        !enabled ==> r@ == Seq::<char>::empty(),
        enabled && cached is None ==> r@ == "Scheduled"@,
        enabled ==> (cached matches Some(i) ==> r@ == spec_instant_display(i)),
{
    if !enabled {
        return String::new();
    }
    match cached {
        None => String::from_str("Scheduled"),
        Some(i) => {
            let w: u8 = (crate::dates::day_number(&i.date) % 7) as u8;
            let mut out = String::from_str(crate::dates::weekday_abbrev_str(w));
            let h: u32 = i.secs / 3600;
            let mi: u32 = (i.secs % 3600) / 60;
            crate::text::push_char(&mut out, ' ');
            out.append(crate::dates::month_abbrev_str(i.date.month));
            crate::text::push_char(&mut out, ' ');
            crate::text::push_char(&mut out, crate::text::digit_to_char(i.date.day / 10));
            crate::text::push_char(&mut out, crate::text::digit_to_char(i.date.day % 10));
            crate::text::push_char(&mut out, ' ');
            crate::text::push_char(&mut out, crate::text::digit_to_char((h / 10) as u8));
            crate::text::push_char(&mut out, crate::text::digit_to_char((h % 10) as u8));
            crate::text::push_char(&mut out, ':');
            crate::text::push_char(&mut out, crate::text::digit_to_char((mi / 10) as u8));
            crate::text::push_char(&mut out, crate::text::digit_to_char((mi % 10) as u8));
            proof {
                assert(out@ =~= spec_instant_display(i));
            }
            out
        },
    }
}

/// The timer's state as the settings window shows it.
pub enum TimerStatus {
    /// Not yet asked.
    Checking,
    /// The timer is off.
    NotInstalled,
    /// The timer is on, with the next run for display.
    Installed { next_run: String },
    /// Asking failed.
    Error(String),
}

impl Default for TimerStatus {
    /// Before the first query the status is unknown.
    fn default() -> (r: TimerStatus)
        ensures
            r is Checking,
    {
        TimerStatus::Checking
    }
}

/// The displayed status from a live query of the owning process: an
/// enabled timer shows its next run (or a placeholder when none is
/// cached yet), a disabled one shows as not installed, and a failed
/// query carries the error.
pub fn timer_status_from_query(enabled: Result<bool, String>, next_run: String) -> (r: TimerStatus)
    ensures
        match enabled {
            Ok(on) => if on {
                r matches TimerStatus::Installed { next_run: nr } && (next_run@.len() > 0 ==> nr
                    == next_run) && (next_run@.len() == 0 ==> nr@ == "Scheduled"@)
            } else {
                r is NotInstalled
            },
            Err(e) => r matches TimerStatus::Error(msg) && msg@ == "D-Bus error: "@ + e@,
        },
{
    match enabled {
        Ok(on) => {
            if on {
                if next_run.as_str().is_empty() {
                    TimerStatus::Installed { next_run: String::from_str("Scheduled") }
                } else {
                    TimerStatus::Installed { next_run }
                }
            } else {
                TimerStatus::NotInstalled
            }
        },
        Err(e) => {
            let mut msg = String::from_str("D-Bus error: ");
            msg.append(e.as_str());
            TimerStatus::Error(msg)
        },
    }
}

/// The displayed status read straight from the persisted record, for
/// when no owning process answers: the setting is shown, and the next
/// run cannot be known.
pub fn timer_status_from_state(state: &TimerState) -> (r: TimerStatus)
    ensures
        state.enabled ==> (r matches TimerStatus::Installed { next_run } && next_run@
            == "Applet not running"@),
        !state.enabled ==> r is NotInstalled,
{
    if state.enabled {
        TimerStatus::Installed { next_run: String::from_str("Applet not running") }
    } else {
        TimerStatus::NotInstalled
    }
}

/// The engine never emits a fire event while the timer is disabled.
pub proof fn lemma_step_fires_only_enabled(
    phase: TimerPhase,
    enabled: bool,
    now: LocalInstant,
    jitter: u64,
)
    ensures
        spec_timer_step(phase, enabled, now, jitter).fire ==> enabled,
{
}

/// Every sleep the engine asks for is bounded, so a change of the
/// enabled flag is honored within one increment of the longer waits and
/// one boot-settle delay at worst.
pub proof fn lemma_step_sleep_bounded(
    phase: TimerPhase,
    enabled: bool,
    now: LocalInstant,
    jitter: u64,
)
    requires
        jitter < MAX_RANDOM_DELAY_SECS,
    ensures
        spec_timer_step(phase, enabled, now, jitter).sleep_secs <= BOOT_DELAY_SECS,
        (phase matches TimerPhase::Waiting { next } && instant_lt(now, next)) ==> spec_timer_step(
            phase,
            enabled,
            now,
            jitter,
        ).sleep_secs <= SLEEP_INCREMENT_SECS,
{
}

/// The engine leaves the waiting phase for the fire path only when the
/// timer is on and the scheduled moment is no longer ahead: no run
/// fires early.
pub proof fn lemma_no_early_fire(next: LocalInstant, enabled: bool, now: LocalInstant, jitter: u64)
    ensures
        (spec_timer_step(TimerPhase::Waiting { next }, enabled, now, jitter).phase
            matches TimerPhase::FireNow) ==> enabled && !instant_lt(now, next),
{
}

/// While disabled, the scheduling cycle clears the next-run cache and
/// keeps polling without ever firing.
pub proof fn lemma_step_disabled_polls(phase: TimerPhase, now: LocalInstant, jitter: u64)
    requires
        phase matches TimerPhase::Recompute || phase matches TimerPhase::Waiting { .. },
    ensures
        spec_timer_step(phase, false, now, jitter).cache == CacheUpdate::Clear,
        !spec_timer_step(phase, false, now, jitter).fire,
        spec_timer_step(phase, false, now, jitter).phase == TimerPhase::Recompute,
{
}

} // verus!
