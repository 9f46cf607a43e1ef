//! Calendar dates and day ordinals.
//!
//! The rest of the library speaks about wall-clock time through the plain
//! values defined here: a `CivilDate` (year, month, day in the proleptic
//! Gregorian calendar) and a `LocalInstant` (a date plus a second of that
//! day). Day ordinals, computed from the civil fields, give retention
//! cleanup its notion of "N days older".

use vstd::prelude::*;

use crate::text::char_to_digit;
use crate::text::digit_char;
use crate::text::digit_to_char;
use crate::text::digit_val;
use crate::text::is_digit;
use crate::text::lemma_digit_roundtrip;
use crate::text::push_char;

use vstd::arithmetic::div_mod::lemma_fundamental_div_mod;
use vstd::arithmetic::div_mod::lemma_fundamental_div_mod_converse;

verus! {

/// Seconds in a civil day.
pub const SECS_PER_DAY: u32 = 86400;

/// A calendar date in the proleptic Gregorian calendar.
///
/// Only dates accepted by `wf()` (years 1 through 9999, real month
/// lengths) are meaningful to the library.
#[derive(Clone, Copy, PartialEq, Eq, Structural, Debug)]
pub struct CivilDate {
    pub year: u32,
    pub month: u8,
    pub day: u8,
}

/// A moment of local wall-clock time: a date and a second of that day.
#[derive(Clone, Copy, PartialEq, Eq, Structural, Debug)]
pub struct LocalInstant {
    pub date: CivilDate,
    /// Seconds past midnight, `0 .. 86400`.
    pub secs: u32,
}

pub open spec fn is_leap_year(y: int) -> bool {
    (y % 4 == 0 && y % 100 != 0) || y % 400 == 0
}

pub open spec fn spec_days_in_month(y: int, m: int) -> int {
    if m == 2 {
        if is_leap_year(y) {
            29
        } else {
            28
        }
    } else if m == 4 || m == 6 || m == 9 || m == 11 {
        30
    } else {
        31
    }
}

/// Month length of a real calendar month.
pub fn days_in_month(year: u32, month: u8) -> (r: u8)
    requires
        1 <= month <= 12,
    ensures
        r == spec_days_in_month(year as int, month as int),
        28 <= r <= 31,
{
    if month == 2 {
        let leap: bool = (year % 4 == 0 && year % 100 != 0) || year % 400 == 0;
        if leap {
            29
        } else {
            28
        }
    } else if month == 4 || month == 6 || month == 9 || month == 11 {
        30
    } else {
        31
    }
}

impl CivilDate {
    /// A real date the library works with: year 1..=9999, valid month and
    /// day for that month.
    pub open spec fn wf(self) -> bool {
        &&& 1 <= self.year <= 9999
        &&& 1 <= self.month <= 12
        &&& 1 <= self.day <= spec_days_in_month(self.year as int, self.month as int)
    }

    /// Day ordinal of this date: consecutive dates map to consecutive
    /// ordinals, so differences count calendar days.
    pub open spec fn spec_day_number(self) -> int {
        let y: int = if self.month <= 2 {
            self.year - 1
        } else {
            self.year as int
        };
        let era: int = y / 400;
        let yoe: int = y - era * 400;
        let mp: int = if self.month > 2 {
            self.month - 3
        } else {
            self.month + 9
        };
        let doy: int = (153 * mp + 2) / 5 + self.day - 1;
        let doe: int = yoe * 365 + yoe / 4 - yoe / 100 + doy;
        era * 146097 + doe
    }
}

/// Strict ordering of dates: calendar order.
pub open spec fn date_lt(a: CivilDate, b: CivilDate) -> bool {
    ||| a.year < b.year
    ||| (a.year == b.year && a.month < b.month)
    ||| (a.year == b.year && a.month == b.month && a.day < b.day)
}

/// Strict ordering of instants: date order, then second of day.
pub open spec fn instant_lt(a: LocalInstant, b: LocalInstant) -> bool {
    ||| date_lt(a.date, b.date)
    ||| (a.date == b.date && a.secs < b.secs)
}

impl LocalInstant {
    pub open spec fn wf(self) -> bool {
        self.date.wf() && self.secs < SECS_PER_DAY
    }
}

/// Exec comparison of dates, mirroring `date_lt`.
pub fn date_before(a: &CivilDate, b: &CivilDate) -> (r: bool)
    ensures
        r == date_lt(*a, *b),
{
    if a.year != b.year {
        a.year < b.year
    } else if a.month != b.month {
        a.month < b.month
    } else {
        a.day < b.day
    }
}

/// Day ordinal of a date. Differences between ordinals count calendar
/// days, which is what retention cleanup compares.
pub fn day_number(d: &CivilDate) -> (n: u64)
    requires
        d.wf(),
    ensures
        n == d.spec_day_number(),
        n < 3_700_000,
{
    let y: u32 = if d.month <= 2 {
        d.year - 1
    } else {
        d.year
    };
    let era: u32 = y / 400;
    let yoe: u32 = y - era * 400;
    let mp: u32 = if d.month > 2 {
        (d.month - 3) as u32
    } else {
        (d.month + 9) as u32
    };
    let doy: u32 = (153 * mp + 2) / 5 + (d.day - 1) as u32;
    let doe: u32 = yoe * 365 + yoe / 4 - yoe / 100 + doy;
    (era as u64) * 146097 + (doe as u64)
}

/// The date one calendar day later.
pub fn succ_date(d: &CivilDate) -> (r: CivilDate)
    requires
        d.wf(),
        !(d.year == 9999 && d.month == 12 && d.day == 31),
    ensures
        r == spec_succ_date(*d),
        r.wf(),
        date_lt(*d, r),
{
    let dim: u8 = days_in_month(d.year, d.month);
    if d.day < dim {
        CivilDate { year: d.year, month: d.month, day: d.day + 1 }
    } else if d.month < 12 {
        CivilDate { year: d.year, month: d.month + 1, day: 1 }
    } else {
        CivilDate { year: d.year + 1, month: 1, day: 1 }
    }
}

/// The date one calendar day after `d`.
pub open spec fn spec_succ_date(d: CivilDate) -> CivilDate {
    if d.day < spec_days_in_month(d.year as int, d.month as int) {
        CivilDate { year: d.year, month: d.month, day: (d.day + 1) as u8 }
    } else if d.month < 12 {
        CivilDate { year: d.year, month: (d.month + 1) as u8, day: 1 }
    } else {
        CivilDate { year: (d.year + 1) as u32, month: 1, day: 1 }
    }
}

/// Day count of whole March-based years: full 400-year eras, plus the
/// years of the current era with their four-year and century leap
/// adjustments.
pub open spec fn year_base(v: int) -> int {
    (v / 400) * 146097 + (v % 400) * 365 + (v % 400) / 4 - (v % 400) / 100
}

/// Dividing one more by `k` steps the quotient exactly when the new
/// value is a multiple of `k`.
proof fn lemma_div_step(r: int, k: int)
    requires
        0 <= r,
        2 <= k,
    ensures
        (r + 1) / k == r / k + if (r + 1) % k == 0 {
            1int
        } else {
            0int
        },
{
    lemma_fundamental_div_mod(r, k);
    vstd::arithmetic::div_mod::lemma_mod_bound(r, k);
    let q = r / k;
    let s = r % k;
    assert(r + 1 == q * k + (s + 1)) by (nonlinear_arith)
        requires
            r == k * q + s,
    ;
    if s + 1 < k {
        lemma_fundamental_div_mod_converse(r + 1, k, q, s + 1);
    } else {
        assert(r + 1 == (q + 1) * k + 0) by (nonlinear_arith)
            requires
                r + 1 == q * k + (s + 1),
                s + 1 == k,
        ;
        lemma_fundamental_div_mod_converse(r + 1, k, q + 1, 0);
    }
}

/// One more March-based year adds 365 days, or 366 when the new year
/// is a leap year.
proof fn lemma_year_base_succ(v: int)
    requires
        0 <= v,
    ensures
        year_base(v + 1) == year_base(v) + 365 + if is_leap_year(v + 1) {
            1int
        } else {
            0int
        },
{
    let e = v / 400;
    let r = v % 400;
    lemma_fundamental_div_mod(v, 400);
    if r < 399 {
        lemma_fundamental_div_mod_converse(v + 1, 400, e, r + 1);
        lemma_div_step(r, 4);
        lemma_div_step(r, 100);
        lemma_fundamental_div_mod_converse(v + 1, 4, 100 * e + (r + 1) / 4, (r + 1) % 4);
        lemma_fundamental_div_mod_converse(v + 1, 100, 4 * e + (r + 1) / 100, (r + 1) % 100);
    } else {
        lemma_fundamental_div_mod_converse(v + 1, 400, e + 1, 0);
        lemma_fundamental_div_mod_converse(v + 1, 4, 100 * (e + 1), 0);
    }
}

/// A date's ordinal split into its year's base count and the day of
/// the March-based year.
proof fn lemma_day_number_base(d: CivilDate)
    requires
        d.wf(),
    ensures
        d.spec_day_number() == year_base(
            if d.month <= 2 {
                d.year - 1
            } else {
                d.year as int
            },
        ) + (153 * (if d.month > 2 {
            d.month - 3
        } else {
            d.month + 9
        }) + 2) / 5 + d.day - 1,
{
    let y: int = if d.month <= 2 {
        d.year - 1
    } else {
        d.year as int
    };
    lemma_fundamental_div_mod(y, 400);
}

/// Consecutive dates map to consecutive day ordinals: the ordinal
/// really counts calendar days.
pub proof fn lemma_day_number_succ(d: CivilDate)
    requires
        d.wf(),
        !(d.year == 9999 && d.month == 12 && d.day == 31),
    ensures
        spec_succ_date(d).spec_day_number() == d.spec_day_number() + 1,
{
    let s = spec_succ_date(d);
    let dim = spec_days_in_month(d.year as int, d.month as int);
    lemma_day_number_base(d);
    lemma_day_number_base(s);
    if d.day < dim {
    } else if d.month == 1 {
    } else if d.month == 2 {
        lemma_year_base_succ(d.year - 1);
    } else if d.month < 12 {
    } else {
    }
}

/// A quantity that grows along the calendar, driving the induction in
/// the ordering theorem below.
spec fn date_measure(d: CivilDate) -> int {
    d.year * 1000 + d.month * 40 + d.day
}

/// Calendar order implies measure order.
proof fn lemma_measure_orders(a: CivilDate, b: CivilDate)
    requires
        a.wf(),
        b.wf(),
        date_lt(a, b),
    ensures
        date_measure(a) < date_measure(b),
{
}

/// The successor of a date below the last supported one is again a
/// real date, strictly later.
proof fn lemma_succ_wf(a: CivilDate)
    requires
        a.wf(),
        !(a.year == 9999 && a.month == 12 && a.day == 31),
    ensures
        spec_succ_date(a).wf(),
        date_lt(a, spec_succ_date(a)),
{
}

/// No real date fits strictly between a date and its successor.
proof fn lemma_succ_is_next(a: CivilDate, b: CivilDate)
    requires
        a.wf(),
        b.wf(),
        date_lt(a, b),
        !(a.year == 9999 && a.month == 12 && a.day == 31),
    ensures
        spec_succ_date(a) == b || date_lt(spec_succ_date(a), b),
{
    let s = spec_succ_date(a);
    let dim = spec_days_in_month(a.year as int, a.month as int);
    if a.day < dim {
    } else if a.month < 12 {
        if b.year == a.year && b.month == a.month {
            assert(b.day <= dim);
            assert(false);
        }
    } else {
        if b.year == a.year {
            assert(b.month <= 12);
            if b.month == 12 {
                assert(b.day <= 31);
                assert(false);
            } else {
                assert(false);
            }
        }
    }
}

/// A strictly earlier date has a strictly smaller ordinal.
proof fn lemma_date_lt_day_number(a: CivilDate, b: CivilDate)
    requires
        a.wf(),
        b.wf(),
        date_lt(a, b),
    ensures
        a.spec_day_number() < b.spec_day_number(),
    decreases date_measure(b) - date_measure(a),
{
    if a.year == 9999 && a.month == 12 && a.day == 31 {
        assert(b.year <= 9999);
        assert(false);
    }
    lemma_day_number_succ(a);
    lemma_succ_wf(a);
    let s = spec_succ_date(a);
    if s == b {
    } else {
        lemma_succ_is_next(a, b);
        lemma_measure_orders(a, s);
        lemma_measure_orders(s, b);
        lemma_date_lt_day_number(s, b);
    }
}

/// Day ordinals order exactly as the calendar does: an earlier date
/// has a smaller ordinal, and only then. This is what lets "strictly
/// more than N days older" be compared on the ordinals.
pub proof fn lemma_day_number_orders_dates(a: CivilDate, b: CivilDate)
    requires
        a.wf(),
        b.wf(),
    ensures
        date_lt(a, b) <==> a.spec_day_number() < b.spec_day_number(),
{
    if date_lt(a, b) {
        lemma_date_lt_day_number(a, b);
    } else if a == b {
    } else {
        assert(date_lt(b, a));
        lemma_date_lt_day_number(b, a);
    }
}

/// Abbreviated weekday name by day ordinal modulo seven. Ordinal zero
/// falls on a Wednesday, and the 400-year cycle of 146097 days is a
/// multiple of seven, so the residue alone names the weekday.
pub open spec fn weekday_abbrev(w: int) -> Seq<char> {
    if w == 0 {
        "Wed"@
    } else if w == 1 {
        "Thu"@
    } else if w == 2 {
        "Fri"@
    } else if w == 3 {
        "Sat"@
    } else if w == 4 {
        "Sun"@
    } else if w == 5 {
        "Mon"@
    } else {
        "Tue"@
    }
}

/// Abbreviated weekday name for an ordinal residue.
pub fn weekday_abbrev_str(w: u8) -> (r: &'static str)
    requires
        w < 7,
    ensures
        r@ == weekday_abbrev(w as int),
{
    match w {
        0 => "Wed",
        1 => "Thu",
        2 => "Fri",
        3 => "Sat",
        4 => "Sun",
        5 => "Mon",
        _ => "Tue",
    }
}

/// Abbreviated month name, months counted from one.
pub open spec fn month_abbrev(m: int) -> Seq<char> {
    if m == 1 {
        "Jan"@
    } else if m == 2 {
        "Feb"@
    } else if m == 3 {
        "Mar"@
    } else if m == 4 {
        "Apr"@
    } else if m == 5 {
        "May"@
    } else if m == 6 {
        "Jun"@
    } else if m == 7 {
        "Jul"@
    } else if m == 8 {
        "Aug"@
    } else if m == 9 {
        "Sep"@
    } else if m == 10 {
        "Oct"@
    } else if m == 11 {
        "Nov"@
    } else {
        "Dec"@
    }
}

/// Abbreviated month name.
pub fn month_abbrev_str(m: u8) -> (r: &'static str)
    requires
        1 <= m <= 12,
    ensures
        r@ == month_abbrev(m as int),
{
    match m {
        1 => "Jan",
        2 => "Feb",
        3 => "Mar",
        4 => "Apr",
        5 => "May",
        6 => "Jun",
        7 => "Jul",
        8 => "Aug",
        9 => "Sep",
        10 => "Oct",
        11 => "Nov",
        _ => "Dec",
    }
}

/// The ten characters `YYYY-MM-DD` of a date.
pub open spec fn date_str(d: CivilDate) -> Seq<char> {
    seq![
        digit_char(d.year as int / 1000),
        digit_char((d.year as int / 100) % 10),
        digit_char((d.year as int / 10) % 10),
        digit_char(d.year as int % 10),
        '-',
        digit_char(d.month as int / 10),
        digit_char(d.month as int % 10),
        '-',
        digit_char(d.day as int / 10),
        digit_char(d.day as int % 10),
    ]
}

/// What `parse_date` accepts: exactly ten characters `YYYY-MM-DD`
/// naming a real date.
pub open spec fn spec_parse_date(s: Seq<char>) -> Option<CivilDate> {
    if s.len() == 10 && is_digit(s[0]) && is_digit(s[1]) && is_digit(s[2]) && is_digit(s[3])
        && s[4] == '-' && is_digit(s[5]) && is_digit(s[6]) && s[7] == '-' && is_digit(s[8])
        && is_digit(s[9]) {
        let y = digit_val(s[0]) * 1000 + digit_val(s[1]) * 100 + digit_val(s[2]) * 10 + digit_val(
            s[3],
        );
        let m = digit_val(s[5]) * 10 + digit_val(s[6]);
        let d = digit_val(s[8]) * 10 + digit_val(s[9]);
        let date = CivilDate { year: y as u32, month: m as u8, day: d as u8 };
        if date.wf() {
            Some(date)
        } else {
            None
        }
    } else {
        None
    }
}

/// Format a date as `YYYY-MM-DD`.
pub fn format_date(d: &CivilDate) -> (r: String)
    requires
        d.wf(),
    ensures
        r@ == date_str(*d),
{
    let mut s = String::new();
    push_char(&mut s, digit_to_char((d.year / 1000) as u8));
    push_char(&mut s, digit_to_char(((d.year / 100) % 10) as u8));
    push_char(&mut s, digit_to_char(((d.year / 10) % 10) as u8));
    push_char(&mut s, digit_to_char((d.year % 10) as u8));
    push_char(&mut s, '-');
    push_char(&mut s, digit_to_char(d.month / 10));
    push_char(&mut s, digit_to_char(d.month % 10));
    push_char(&mut s, '-');
    push_char(&mut s, digit_to_char(d.day / 10));
    push_char(&mut s, digit_to_char(d.day % 10));
    proof {
        assert(s@ =~= date_str(*d));
    }
    s
}

/// Parse a `YYYY-MM-DD` string into a real date.
pub fn parse_date(s: &str) -> (r: Option<CivilDate>)
    ensures
        r == spec_parse_date(s@),
{
    if s.unicode_len() != 10 {
        return None;
    }
    let c0 = s.get_char(0);
    let c1 = s.get_char(1);
    let c2 = s.get_char(2);
    let c3 = s.get_char(3);
    let c4 = s.get_char(4);
    let c5 = s.get_char(5);
    let c6 = s.get_char(6);
    let c7 = s.get_char(7);
    let c8 = s.get_char(8);
    let c9 = s.get_char(9);
    if c4 != '-' || c7 != '-' {
        return None;
    }
    let v0 = match char_to_digit(c0) {
        Some(v) => v,
        None => { return None; },
    };
    let v1 = match char_to_digit(c1) {
        Some(v) => v,
        None => { return None; },
    };
    let v2 = match char_to_digit(c2) {
        Some(v) => v,
        None => { return None; },
    };
    let v3 = match char_to_digit(c3) {
        Some(v) => v,
        None => { return None; },
    };
    let v5 = match char_to_digit(c5) {
        Some(v) => v,
        None => { return None; },
    };
    let v6 = match char_to_digit(c6) {
        Some(v) => v,
        None => { return None; },
    };
    let v8 = match char_to_digit(c8) {
        Some(v) => v,
        None => { return None; },
    };
    let v9 = match char_to_digit(c9) {
        Some(v) => v,
        None => { return None; },
    };
    let year: u32 = v0 as u32 * 1000 + v1 as u32 * 100 + v2 as u32 * 10 + v3 as u32;
    let month: u8 = v5 * 10 + v6;
    let day: u8 = v8 * 10 + v9;
    if year < 1 || month < 1 || month > 12 {
        return None;
    }
    if day < 1 || day > days_in_month(year, month) {
        return None;
    }
    Some(CivilDate { year, month, day })
}

/// Formatting a real date and parsing the text back yields the same date.
pub proof fn lemma_parse_date_str(d: CivilDate)
    requires
        d.wf(),
    ensures
        spec_parse_date(date_str(d)) == Some(d),
{
    let s = date_str(d);
    let y = d.year as int;
    let m = d.month as int;
    let dd = d.day as int;
    lemma_digit_roundtrip(y / 1000);
    lemma_digit_roundtrip((y / 100) % 10);
    lemma_digit_roundtrip((y / 10) % 10);
    lemma_digit_roundtrip(y % 10);
    lemma_digit_roundtrip(m / 10);
    lemma_digit_roundtrip(m % 10);
    lemma_digit_roundtrip(dd / 10);
    lemma_digit_roundtrip(dd % 10);
    assert((y / 1000) * 1000 + ((y / 100) % 10) * 100 + ((y / 10) % 10) * 10 + y % 10 == y)
        by (nonlinear_arith)
        requires
            1 <= y <= 9999,
    ;
    assert((m / 10) * 10 + m % 10 == m) by (nonlinear_arith)
        requires
            1 <= m <= 12,
    ;
    assert((dd / 10) * 10 + dd % 10 == dd) by (nonlinear_arith)
        requires
            1 <= dd <= 31,
    ;
}

} // verus!
