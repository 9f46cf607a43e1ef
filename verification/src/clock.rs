//! The wall clock, behind a trusted boundary.
//!
//! Everything the library learns about the current time comes through the
//! wrappers here as plain values. The scheduling logic itself never reads
//! the clock: it takes a `LocalInstant` argument, so it is verified for
//! every possible reading.

use vstd::prelude::*;

use chrono::Datelike;
use chrono::Timelike;

use crate::dates::spec_days_in_month;
use crate::dates::CivilDate;
use crate::dates::LocalInstant;
use crate::dates::SECS_PER_DAY;

verus! {

/// One reading of the local wall clock, as plain values.
///
/// `year` is signed and unbounded because the source of a reading (the
/// clock, or a stored timestamp) may lie outside the range the library
/// works with; `to_instant` checks it.
pub struct ClockReading {
    pub year: i64,
    pub month: u8,
    pub day: u8,
    /// Seconds past local midnight, `0 .. 86400`.
    pub secs: u32,
    /// The same moment as an ISO-8601 / RFC 3339 string, for persisting.
    pub rfc3339: String,
}

impl ClockReading {
    /// The calendar fields name a real date with the day in range for
    /// its month; the year may still lie outside the library's range.
    /// The timestamp string is made of digits, separators and a sign,
    /// so it embeds verbatim in the persisted timer-state document.
    pub open spec fn fields_wf(self) -> bool {
        &&& 1 <= self.month <= 12
        &&& 1 <= self.day <= spec_days_in_month(self.year as int, self.month as int)
        &&& self.secs < SECS_PER_DAY
        &&& crate::timer::stamp_wf(self.rfc3339@)
    }

    /// The reading as a `LocalInstant`, or `None` when the year lies
    /// outside the range the library works with.
    pub fn to_instant(&self) -> (r: Option<LocalInstant>)
        requires
            self.fields_wf(),
        ensures
            match r {
                Some(i) => i.wf() && 1 <= self.year <= 9999 && i.date.year == self.year
                    && i.date.month == self.month && i.date.day == self.day && i.secs == self.secs,
                None => !(1 <= self.year <= 9999),
            },
    {
        if 1 <= self.year && self.year <= 9999 {
            Some(
                LocalInstant {
                    date: CivilDate { year: self.year as u32, month: self.month, day: self.day },
                    secs: self.secs,
                },
            )
        } else {
            None
        }
    }
}

/// Relies on `chrono::Local::now` for the current local time; the
/// remaining chrono calls only unpack that moment into plain fields.
/// chrono documents months as 1..=12, days as valid for their month,
/// seconds from midnight as 0..=86399, and `to_rfc3339` output as
/// digits, date and time separators and an offset sign. Nothing is
/// claimed about the values themselves: they depend on the clock.
#[verifier::external_body]
pub(crate) fn now_local() -> (r: ClockReading)
    ensures
        r.fields_wf(),
{
    let now = chrono::Local::now();
    ClockReading {
        year: now.year() as i64,
        month: now.month() as u8,
        day: now.day() as u8,
        secs: now.time().num_seconds_from_midnight(),
        rfc3339: now.to_rfc3339(),
    }
}

/// Relies on `chrono::DateTime::parse_from_rfc3339`, converting the
/// parsed moment to the machine's local time zone; the remaining chrono
/// calls only unpack it into plain fields. The local calendar date of a
/// stored timestamp depends on the time zone, so nothing is claimed
/// beyond the documented field ranges.
#[verifier::external_body]
pub(crate) fn parse_rfc3339_local(s: &str) -> (r: Option<ClockReading>)
    ensures
        match r {
            Some(c) => c.fields_wf(),
            None => true,
        },
{
    match chrono::DateTime::parse_from_rfc3339(s) {
        Ok(dt) => {
            let local = dt.with_timezone(&chrono::Local);
            Some(
                ClockReading {
                    year: local.year() as i64,
                    month: local.month() as u8,
                    day: local.day() as u8,
                    secs: local.time().num_seconds_from_midnight(),
                    rfc3339: local.to_rfc3339(),
                },
            )
        },
        Err(_) => None,
    }
}

/// The clock now, as an instant the library can schedule with: `None`
/// when the clock lies outside the supported year range.
pub fn current_instant() -> (r: Option<LocalInstant>)
    ensures
        r matches Some(i) ==> i.wf(),
{
    let reading = now_local();
    reading.to_instant()
}

/// The clock now as an ISO-8601 timestamp, fit for the persisted
/// timer-state document.
pub fn current_stamp() -> (r: String)
    ensures
        crate::timer::stamp_wf(r@),
{
    let reading = now_local();
    reading.rfc3339
}

/// Relies on `std::time::SystemTime::now`: the sub-second part of the
/// current moment, used only as a cheap source of spread. Sub-second
/// nanoseconds are below one billion by definition.
#[verifier::external_body]
pub(crate) fn clock_subsec_nanos() -> (r: u32)
    ensures
        r < 1_000_000_000,
{
    std::time::SystemTime::now()
        .duration_since(std::time::UNIX_EPOCH)
        .map(|d| d.subsec_nanos())
        .unwrap_or(0)
}

} // verus!
