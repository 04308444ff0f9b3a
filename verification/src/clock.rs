//! Times on screen: countdowns, wall-clock stamps, ages.

use vstd::prelude::*;
use chrono::{DateTime, Datelike, Local, Timelike};

use crate::paint;
use crate::paint::{Role, Span, SpanView, Style};
use crate::text;

verus! {

/// How a reset is announced.
#[derive(Clone, Copy, Debug, PartialEq, Eq, Structural)]
pub enum ResetDisplay {
    /// As a countdown.
    Relative,
    /// As a wall-clock time.
    Clock,
    /// As both.
    Both,
}

/// How a wall-clock time is written.
#[derive(Clone, Copy, Debug, PartialEq, Eq, Structural)]
pub enum ClockFormat {
    H24,
    H12,
}

/// The chosen way to announce resets.
#[derive(Clone, Copy, Debug, PartialEq, Eq, Structural)]
pub struct ResetFmt {
    pub display: ResetDisplay,
    pub clock: ClockFormat,
}

/// Whether a stamp names the day it falls on.
#[derive(Clone, Copy, Debug, PartialEq, Eq, Structural)]
pub enum Day {
    Qualify,
    TimeOnly,
}

/// A local date and time.
#[derive(Clone, Copy, Debug, PartialEq, Eq, Structural)]
pub struct Stamp {
    /// Day number, counted from 1 January of year 1.
    pub number: i32,
    pub year: i32,
    /// From 1.
    pub month: u32,
    /// From 1.
    pub day: u32,
    /// From Monday, 0.
    pub weekday: u32,
    pub hour: u32,
    pub minute: u32,
}

/// Whether a year has a 29 February.
pub open spec fn is_leap(year: int) -> bool {
    year % 4 == 0 && (year % 100 != 0 || year % 400 == 0)
}

/// Days of a month.
pub open spec fn month_days(year: int, month: int) -> int {
    if month == 2 {
        if is_leap(year) {
            29
        } else {
            28
        }
    } else if month == 4 || month == 6 || month == 9 || month == 11 {
        30
    } else {
        31
    }
}

/// Days of a year before a month.
pub open spec fn days_before(year: int, month: int) -> int
    decreases month,
{
    if month <= 1 {
        0
    } else {
        days_before(year, month - 1) + month_days(year, month - 1)
    }
}

/// The number of a day of the Gregorian calendar; 1 January of year 1 is day 1.
pub open spec fn day_number(year: int, month: int, day: int) -> int {
    let y = year - 1;
    365 * y + y / 4 - y / 100 + y / 400 + days_before(year, month) + day
}

/// Whether a stamp is the date and time `local` seconds after midnight of 1 January 1970.
pub open spec fn stamp_at(st: Stamp, local: int) -> bool {
    &&& st.number == 719163 + local / 86400
    &&& st.hour == (local % 86400) / 3600
    &&& st.minute == (local % 3600) / 60
    &&& 1 <= st.month <= 12
    &&& 1 <= st.day <= month_days(st.year as int, st.month as int)
    &&& st.number == day_number(st.year as int, st.month as int, st.day as int)
    &&& st.weekday == (st.number + 6) % 7
}

/// Whether a stamp is that instant in some zone less than a day away from UTC.
pub open spec fn local_stamp(st: Stamp, epoch: int) -> bool {
    exists|offset: int|
        -86400 < offset < 86400 && #[trigger] stamp_at(st, epoch + offset)
}

/// The day number of an instant in UTC.
pub open spec fn utc_day(epoch: int) -> int {
    719163 + epoch / 86400
}

/// First day the calendar holds.
pub const FIRST_DAY: i64 = -95746129;

/// Last day the calendar holds.
pub const LAST_DAY: i64 = 95745399;

/// Whether the calendar holds an instant.
pub open spec fn on_calendar(epoch: int) -> bool {
    FIRST_DAY <= utc_day(epoch) <= LAST_DAY
}

/// Whether no zone moves an instant off the calendar.
pub open spec fn clear_of_edges(epoch: int) -> bool {
    utc_day(epoch) != FIRST_DAY && utc_day(epoch) != LAST_DAY
}

/// `chrono::DateTime::from_timestamp`, shown in `chrono::Local` and read field by field. An
/// instant off chrono's calendar gives none; the first and the last day are left out, because
/// `naive_local` panics where the zone moves them off the calendar. Which zone is in force is the
/// machine's business: stated is that the fields are those of one zone less than a day from UTC.
#[verifier::external_body]
pub(crate) fn local_naive(epoch: i64) -> (r: Option<Stamp>)
    requires
        clear_of_edges(epoch as int),
    ensures
        r is Some <==> on_calendar(epoch as int),
        r matches Some(st) ==> local_stamp(st, epoch as int),
{
    let at = DateTime::from_timestamp(epoch, 0)?.with_timezone(&Local).naive_local();
    Some(Stamp {
        number: at.num_days_from_ce(),
        year: at.year(),
        month: at.month(),
        day: at.day(),
        weekday: at.weekday().num_days_from_monday(),
        hour: at.hour(),
        minute: at.minute(),
    })
}

/// The short name of a weekday, Monday being 0.
pub open spec fn weekday_word(day: int) -> Seq<char> {
    if day == 0 {
        "mon"@
    } else if day == 1 {
        "tue"@
    } else if day == 2 {
        "wed"@
    } else if day == 3 {
        "thu"@
    } else if day == 4 {
        "fri"@
    } else if day == 5 {
        "sat"@
    } else {
        "sun"@
    }
}

/// The short name of a weekday, Monday being 0.
pub fn weekday_label(day: u32) -> (r: &'static str)
    ensures
        r@ == weekday_word(day as int),
{
    if day == 0 {
        "mon"
    } else if day == 1 {
        "tue"
    } else if day == 2 {
        "wed"
    } else if day == 3 {
        "thu"
    } else if day == 4 {
        "fri"
    } else if day == 5 {
        "sat"
    } else {
        "sun"
    }
}

/// The short name of a month from 1; the first one for a number that is no month.
pub open spec fn month_word(month: int) -> Seq<char> {
    if month == 2 {
        "feb"@
    } else if month == 3 {
        "mar"@
    } else if month == 4 {
        "apr"@
    } else if month == 5 {
        "may"@
    } else if month == 6 {
        "jun"@
    } else if month == 7 {
        "jul"@
    } else if month == 8 {
        "aug"@
    } else if month == 9 {
        "sep"@
    } else if month == 10 {
        "oct"@
    } else if month == 11 {
        "nov"@
    } else if month == 12 {
        "dec"@
    } else {
        "jan"@
    }
}

/// The short name of a month from 1; the first one for a number that is no month.
pub fn month_label(month: u32) -> (r: &'static str)
    ensures
        r@ == month_word(month as int),
{
    if month == 2 {
        "feb"
    } else if month == 3 {
        "mar"
    } else if month == 4 {
        "apr"
    } else if month == 5 {
        "may"
    } else if month == 6 {
        "jun"
    } else if month == 7 {
        "jul"
    } else if month == 8 {
        "aug"
    } else if month == 9 {
        "sep"
    } else if month == 10 {
        "oct"
    } else if month == 11 {
        "nov"
    } else if month == 12 {
        "dec"
    } else {
        "jan"
    }
}

/// An hour of the day on a twelve-hour clock.
pub open spec fn hour_of_twelve(hour: int) -> int {
    if hour % 12 == 0 {
        12
    } else {
        hour % 12
    }
}

/// The time of day of a stamp.
pub open spec fn time_text(st: Stamp, fmt: ClockFormat) -> Seq<char> {
    match fmt {
        ClockFormat::H24 => text::decimal2(st.hour as nat) + ":"@ + text::decimal2(
            st.minute as nat,
        ),
        ClockFormat::H12 => text::decimal(hour_of_twelve(st.hour as int) as nat) + ":"@
            + text::decimal2(st.minute as nat) + if st.hour >= 12 {
            "pm"@
        } else {
            "am"@
        },
    }
}

/// A stamp as shown: bare today, with its weekday over the next six days, else with its date.
pub open spec fn stamp_text(target: Stamp, now: Stamp, fmt: ClockFormat, day: Day) -> Seq<char> {
    let time = time_text(target, fmt);
    let ahead = target.number - now.number;
    if day == Day::TimeOnly || ahead == 0 {
        time
    } else if 1 <= ahead <= 6 {
        weekday_word(target.weekday as int) + " "@ + time
    } else {
        month_word(target.month as int) + " "@ + text::decimal(target.day as nat) + ", "@ + time
    }
}

fn time_of(st: &Stamp, fmt: ClockFormat) -> (r: String)
    requires
        st.hour < 24,
        st.minute < 60,
    ensures
        r@ == time_text(*st, fmt),
{
    let minute = text::decimal2_text(st.minute as u64);
    match fmt {
        ClockFormat::H24 => {
            let hour = text::decimal2_text(st.hour as u64);
            text::joined3(&hour, ":", &minute)
        },
        ClockFormat::H12 => {
            let h: u32 = st.hour % 12;
            let hour = text::decimal_text(
                if h == 0 {
                    12
                } else {
                    h as u64
                },
            );
            let base = text::joined3(&hour, ":", &minute);
            if st.hour >= 12 {
                text::joined(&base, "pm")
            } else {
                text::joined(&base, "am")
            }
        },
    }
}

/// A stamp as shown.
pub fn clock_text(target: &Stamp, now: &Stamp, fmt: ClockFormat, day: Day) -> (r: String)
    requires
        target.hour < 24,
        target.minute < 60,
    ensures
        r@ == stamp_text(*target, *now, fmt, day),
{
    let time = time_of(target, fmt);
    let ahead: i64 = target.number as i64 - now.number as i64;
    if day == Day::TimeOnly || ahead == 0 {
        time
    } else if 1 <= ahead && ahead <= 6 {
        text::joined3(weekday_label(target.weekday), " ", &time)
    } else {
        let date = text::joined3(
            month_label(target.month),
            " ",
            &text::decimal_text(target.day as u64),
        );
        text::joined3(&date, ", ", &time)
    }
}

impl ResetFmt {
    /// The choice the settings hold.
    pub fn from_state(display: ResetDisplay, clock: ClockFormat) -> (r: ResetFmt)
        ensures
            r == (ResetFmt { display, clock }),
    {
        ResetFmt { display, clock }
    }

    /// Whether a wall-clock time is part of the announcement.
    pub open spec fn with_clock(self) -> bool {
        self.display != ResetDisplay::Relative
    }

    /// Whether a wall-clock time is part of the announcement.
    pub fn shows_clock(self) -> (r: bool)
        ensures
            r == self.with_clock(),
    {
        self.display != ResetDisplay::Relative
    }
}

/// Whether `at` is the local clock `secs` from `now`, in the zone in force: none where either
/// instant is off the calendar.
pub open spec fn clock_in(
    at: Option<Seq<char>>,
    secs: int,
    now: int,
    fmt: ClockFormat,
    day: Day,
) -> bool {
    match at {
        None => now + secs < i64::MIN || now + secs > i64::MAX || !on_calendar(now + secs)
            || !on_calendar(now),
        Some(t) => on_calendar(now + secs) && on_calendar(now) && exists|a: Stamp, b: Stamp|
            #[trigger] local_stamp(a, now + secs) && #[trigger] local_stamp(b, now) && t
                == stamp_text(a, b, fmt, day),
    }
}

/// Whether `at` is the wall-clock half of a reset: none where the clock is not asked for or the
/// reset is overdue.
pub open spec fn clock_half_of(at: Option<Seq<char>>, secs: int, now: int, fmt: ResetFmt, day:
    Day) -> bool {
    if fmt.with_clock() && secs > 0 {
        clock_in(at, secs, now, fmt.clock, day)
    } else {
        at is None
    }
}

/// The local clock `secs` from `now`.
pub fn local_clock(secs: i64, now: i64, fmt: ClockFormat, day: Day) -> (r: Option<String>)
    requires
        clear_of_edges(now as int),
        clear_of_edges(now + secs),
    ensures
        clock_in(text::opt_view(r), secs as int, now as int, fmt, day),
{
    let target: i64 = match now.checked_add(secs) {
        Some(t) => t,
        None => return None,
    };
    let a = match local_naive(target) {
        Some(a) => a,
        None => return None,
    };
    let b = match local_naive(now) {
        Some(b) => b,
        None => return None,
    };
    let out = clock_text(&a, &b, fmt, day);
    assert(local_stamp(a, now + secs) && local_stamp(b, now as int));
    Some(out)
}

/// Whether a wall-clock half, where one is shown, stays clear of the calendar's edges.
pub open spec fn clock_ready(secs: int, now: int, fmt: ResetFmt) -> bool {
    fmt.with_clock() && secs > 0 ==> clear_of_edges(now) && clear_of_edges(now + secs)
}

fn near_an_edge(epoch: i128) -> (r: bool)
    ensures
        r == !clear_of_edges(epoch as int),
{
    let first: i128 = (FIRST_DAY as i128 - 719163) * 86400;
    let last: i128 = (LAST_DAY as i128 - 719163) * 86400;
    (first <= epoch && epoch < first + 86400) || (last <= epoch && epoch < last + 86400)
}

/// Whether a wall-clock half, where one is shown, stays clear of the calendar's edges.
pub fn can_show(secs: i64, now: i64, fmt: ResetFmt) -> (r: bool)
    ensures
        r == clock_ready(secs as int, now as int, fmt),
{
    if fmt.shows_clock() && secs > 0 {
        !near_an_edge(now as i128) && !near_an_edge(now as i128 + secs as i128)
    } else {
        true
    }
}

/// The wall-clock half of a reset.
pub fn clock_half(secs: i64, now: i64, fmt: ResetFmt, day: Day) -> (r: Option<String>)
    requires
        clock_ready(secs as int, now as int, fmt),
    ensures
        clock_half_of(text::opt_view(r), secs as int, now as int, fmt, day),
{
    if fmt.shows_clock() && secs > 0 {
        local_clock(secs, now, fmt.clock, day)
    } else {
        None
    }
}

/// A reset on the line of a usage bar.
pub open spec fn phrase(rel: Seq<char>, at: Option<Seq<char>>, display: ResetDisplay) -> Seq<char> {
    match at {
        None => "resets in "@ + rel,
        Some(t) => if display == ResetDisplay::Clock {
            "resets at "@ + t
        } else {
            "resets in "@ + rel + " ("@ + t + ")"@
        },
    }
}

/// A reset inside a status pill.
pub open spec fn pill(rel: Seq<char>, at: Option<Seq<char>>, display: ResetDisplay) -> Seq<char> {
    match at {
        None => rel,
        Some(t) => if display == ResetDisplay::Clock {
            "until "@ + t
        } else {
            rel + " ("@ + t + ")"@
        },
    }
}

/// When an exhausted chain resumes.
pub open spec fn resume(rel: Seq<char>, at: Option<Seq<char>>, display: ResetDisplay) -> Seq<char> {
    match at {
        None => "in ~"@ + rel,
        Some(t) => if display == ResetDisplay::Clock {
            "at "@ + t
        } else {
            "in ~"@ + rel + " ("@ + t + ")"@
        },
    }
}

/// A reset in the column of the accounts table.
pub open spec fn column(rel: Seq<char>, at: Option<Seq<char>>, display: ResetDisplay) -> Seq<char> {
    match at {
        None => rel,
        Some(t) => if display == ResetDisplay::Clock {
            t
        } else {
            rel + " · "@ + t
        },
    }
}

/// The view of an optional text.
pub open spec fn opt_str(at: Option<&str>) -> Option<Seq<char>> {
    match at {
        Some(t) => Some(t@),
        None => None,
    }
}

fn bracketed(head: &str, rel: &str, t: &str) -> (r: String)
    ensures
        r@ == head@ + rel@ + " ("@ + t@ + ")"@,
{
    let base = text::joined3(head, rel, " (");
    text::joined3(&base, t, ")")
}

/// A reset on the line of a usage bar.
pub fn phrase_text(rel: &str, at: Option<&str>, display: ResetDisplay) -> (r: String)
    ensures
        r@ == phrase(rel@, opt_str(at), display),
{
    match at {
        None => text::joined("resets in ", rel),
        Some(t) => if display == ResetDisplay::Clock {
            text::joined("resets at ", t)
        } else {
            bracketed("resets in ", rel, t)
        },
    }
}

/// A reset inside a status pill.
pub fn pill_text(rel: &str, at: Option<&str>, display: ResetDisplay) -> (r: String)
    ensures
        r@ == pill(rel@, opt_str(at), display),
{
    match at {
        None => rel.to_string(),
        Some(t) => if display == ResetDisplay::Clock {
            text::joined("until ", t)
        } else {
            let base = text::joined(rel, " (");
            text::joined3(&base, t, ")")
        },
    }
}

/// When an exhausted chain resumes.
pub fn resume_text(rel: &str, at: Option<&str>, display: ResetDisplay) -> (r: String)
    ensures
        r@ == resume(rel@, opt_str(at), display),
{
    match at {
        None => text::joined("in ~", rel),
        Some(t) => if display == ResetDisplay::Clock {
            text::joined("at ", t)
        } else {
            bracketed("in ~", rel, t)
        },
    }
}

/// A reset in the column of the accounts table.
pub fn column_text(rel: &str, at: Option<&str>, display: ResetDisplay) -> (r: String)
    ensures
        r@ == column(rel@, opt_str(at), display),
{
    match at {
        None => rel.to_string(),
        Some(t) => if display == ResetDisplay::Clock {
            t.to_string()
        } else {
            text::joined3(rel, " · ", t)
        },
    }
}

fn as_text(s: &Option<String>) -> (r: Option<&str>)
    ensures
        opt_str(r) == text::opt_view(*s),
{
    match s {
        Some(t) => Some(t.as_str()),
        None => None,
    }
}

/// A reset on the line of a usage bar; `rel` is the countdown in words.
pub fn reset_phrase(secs: i64, now: i64, rel: &str, fmt: ResetFmt) -> (r: String)
    requires
        clock_ready(secs as int, now as int, fmt),
    ensures
        exists|at: Option<Seq<char>>| #[trigger]
            clock_half_of(at, secs as int, now as int, fmt, Day::Qualify) && r@ == phrase(
                rel@,
                at,
                fmt.display,
            ),
{
    let at = clock_half(secs, now, fmt, Day::Qualify);
    let out = phrase_text(rel, as_text(&at), fmt.display);
    assert(clock_half_of(text::opt_view(at), secs as int, now as int, fmt, Day::Qualify));
    out
}

/// A reset inside a status pill; `rel` is the countdown in words.
pub fn reset_pill(secs: i64, now: i64, rel: &str, fmt: ResetFmt) -> (r: String)
    requires
        clock_ready(secs as int, now as int, fmt),
    ensures
        exists|at: Option<Seq<char>>| #[trigger]
            clock_half_of(at, secs as int, now as int, fmt, Day::Qualify) && r@ == pill(
                rel@,
                at,
                fmt.display,
            ),
{
    let at = clock_half(secs, now, fmt, Day::Qualify);
    let out = pill_text(rel, as_text(&at), fmt.display);
    assert(clock_half_of(text::opt_view(at), secs as int, now as int, fmt, Day::Qualify));
    out
}

/// When an exhausted chain resumes; `rel` is the countdown in words.
pub fn reset_resume(secs: i64, now: i64, rel: &str, fmt: ResetFmt) -> (r: String)
    requires
        clock_ready(secs as int, now as int, fmt),
    ensures
        exists|at: Option<Seq<char>>| #[trigger]
            clock_half_of(at, secs as int, now as int, fmt, Day::Qualify) && r@ == resume(
                rel@,
                at,
                fmt.display,
            ),
{
    let at = clock_half(secs, now, fmt, Day::Qualify);
    let out = resume_text(rel, as_text(&at), fmt.display);
    assert(clock_half_of(text::opt_view(at), secs as int, now as int, fmt, Day::Qualify));
    out
}

/// The day a stamp names in the accounts table: beside a countdown it names none.
pub open spec fn column_day(display: ResetDisplay) -> Day {
    if display == ResetDisplay::Clock {
        Day::Qualify
    } else {
        Day::TimeOnly
    }
}

/// A reset in the column of the accounts table; `rel` is the countdown in words.
pub fn reset_column(secs: i64, now: i64, rel: &str, fmt: ResetFmt) -> (r: String)
    requires
        clock_ready(secs as int, now as int, fmt),
    ensures
        exists|at: Option<Seq<char>>| #[trigger]
            clock_half_of(at, secs as int, now as int, fmt, column_day(fmt.display)) && r@
                == column(rel@, at, fmt.display),
{
    let day = if fmt.display == ResetDisplay::Clock {
        Day::Qualify
    } else {
        Day::TimeOnly
    };
    let at = clock_half(secs, now, fmt, day);
    let out = column_text(rel, as_text(&at), fmt.display);
    assert(clock_half_of(
        text::opt_view(at),
        secs as int,
        now as int,
        fmt,
        column_day(fmt.display),
    ));
    out
}

/// Cells of the widest bar block: `[`, ten cells, `]` and the percentage.
pub const BAR_BLOCK_COLS: usize = 17;

/// The suffix of a bar: the column text in brackets where it fits, else the bare countdown.
pub open spec fn suffix(rel: Seq<char>, column_text: Seq<char>, width: int) -> Seq<char> {
    let full = " ("@ + column_text + ")"@;
    if BAR_BLOCK_COLS + full.len() <= width {
        full
    } else {
        " ("@ + rel + ")"@
    }
}

/// The suffix of a bar in the accounts table; `rel` is the countdown in words.
pub fn reset_suffix(secs: i64, now: i64, rel: &str, fmt: ResetFmt, width: usize) -> (r: String)
    requires
        clock_ready(secs as int, now as int, fmt),
    ensures
        exists|at: Option<Seq<char>>| #[trigger]
            clock_half_of(at, secs as int, now as int, fmt, column_day(fmt.display)) && r@
                == suffix(rel@, column(rel@, at, fmt.display), width as int),
{
    let col = reset_column(secs, now, rel, fmt);
    let full = text::joined3(" (", &col, ")");
    let len: usize = full.as_str().unicode_len();
    let ghost at = choose|at: Option<Seq<char>>| #[trigger]
        clock_half_of(at, secs as int, now as int, fmt, column_day(fmt.display)) && col@ == column(
            rel@,
            at,
            fmt.display,
        );
    assert(clock_half_of(at, secs as int, now as int, fmt, column_day(fmt.display)));
    if width >= BAR_BLOCK_COLS && len <= width - BAR_BLOCK_COLS {
        full
    } else {
        text::joined3(" (", rel, ")")
    }
}

/// A bar's suffix as spans: the separator between countdown and stamp stays neutral.
pub open spec fn suffix_spans(v: Seq<SpanView>, s: Seq<char>, style: Style) -> Seq<SpanView> {
    match text::split_around(s, " · "@) {
        Some((pre, post)) => v.push(paint::span_of(pre, style)).push(paint::raw_of(" · "@)).push(
            paint::span_of(post, style),
        ),
        None => v.push(paint::span_of(s, style)),
    }
}

/// Appends a bar's suffix.
pub fn put_suffix(v: &mut Vec<Span>, s: &str, style: Style)
    ensures
        paint::spans_view(final(v)@) == suffix_spans(paint::spans_view(old(v)@), s@, style),
{
    match text::split_once_text(s, " · ") {
        Some((pre, post)) => {
            paint::put(v, pre, style);
            paint::put_raw(v, " · ");
            paint::put(v, post, style);
        },
        None => {
            paint::put(v, s, style);
        },
    }
}

/// Seconds until a window resets; negative where it is overdue. None where no reset is known.
pub fn reset_in_secs(target: Option<i64>, now: i64) -> (r: Option<i64>)
    requires
        target matches Some(t) ==> i64::MIN <= t - now <= i64::MAX,
    ensures
        r == match target {
            Some(t) => Some((t - now) as i64),
            None => None,
        },
{
    match target {
        Some(t) => Some(t - now),
        None => None,
    }
}

/// The age of a moment in its largest unit; from thirty days on, its date.
pub open spec fn age_text(then_ms: int, now_ms: int, iso: Seq<char>) -> Seq<char> {
    let secs = text::monus(now_ms, then_ms) / 1000;
    let hours = secs / 3600;
    let days = secs / 86400;
    if secs < 60 {
        "just now"@
    } else if hours < 1 {
        text::decimal((secs / 60) as nat) + "m ago"@
    } else if days < 1 {
        text::decimal(hours as nat) + "h ago"@
    } else if days < 7 {
        text::decimal(days as nat) + "d ago"@
    } else if days < 30 {
        text::decimal((days / 7) as nat) + "w ago"@
    } else {
        text::before_char(iso, 'T')
    }
}

/// The age of a moment; `iso` is the moment's date and time.
pub fn relative_age(epoch_ms: u64, now_ms: u64, iso: &str) -> (r: String)
    ensures
        r@ == age_text(epoch_ms as int, now_ms as int, iso@),
{
    let secs: u64 = now_ms.saturating_sub(epoch_ms) / 1000;
    let mins: u64 = secs / 60;
    let hours: u64 = mins / 60;
    let days: u64 = hours / 24;
    let weeks: u64 = days / 7;
    assert(hours == secs / 3600) by (nonlinear_arith)
        requires
            hours == (secs / 60) / 60,
    ;
    assert(days == secs / 86400) by (nonlinear_arith)
        requires
            days == ((secs / 60) / 60) / 24,
    ;
    if secs < 60 {
        "just now".to_string()
    } else if days < 1 {
        if hours < 1 {
            text::joined(&text::decimal_text(mins), "m ago")
        } else {
            text::joined(&text::decimal_text(hours), "h ago")
        }
    } else if days < 30 {
        if weeks < 1 {
            text::joined(&text::decimal_text(days), "d ago")
        } else {
            text::joined(&text::decimal_text(weeks), "w ago")
        }
    } else {
        text::before_char_text(iso, 'T')
    }
}

/// The value of a digit.
pub open spec fn digit_value(c: char) -> Option<int> {
    if '0' <= c <= '9' {
        Some(c as int - '0' as int)
    } else {
        None
    }
}

/// A number of two characters; a leading plus sign counts as none.
pub open spec fn two_digits(a: char, b: char) -> Option<int> {
    match (digit_value(a), digit_value(b)) {
        (Some(x), Some(y)) => Some(10 * x + y),
        (None, Some(y)) => if a == '+' {
            Some(y)
        } else {
            None
        },
        _ => None,
    }
}

fn digit(c: char) -> (r: Option<u32>)
    ensures
        match r {
            Some(d) => digit_value(c) == Some(d as int) && d <= 9,
            None => digit_value(c) is None,
        },
{
    if '0' <= c && c <= '9' {
        Some(c as u32 - '0' as u32)
    } else {
        None
    }
}

fn number_of_two(a: char, b: char) -> (r: Option<u32>)
    ensures
        match r {
            Some(n) => two_digits(a, b) == Some(n as int),
            None => two_digits(a, b) is None,
        },
{
    match (digit(a), digit(b)) {
        (Some(x), Some(y)) => Some(10 * x + y),
        (None, Some(y)) => if a == '+' {
            Some(y)
        } else {
            None
        },
        _ => None,
    }
}

/// Whether every character is ASCII.
pub open spec fn is_ascii(s: Seq<char>) -> bool {
    forall|i: int| 0 <= i < s.len() ==> #[trigger] s[i] <= '\u{7f}'
}

/// A moment as month, day and time, from its date and time; any other text as it is.
pub open spec fn moment_text(iso: Seq<char>, utc: bool) -> Seq<char> {
    if iso.len() < 16 || iso[10] != 'T' {
        iso
    } else {
        let month = match two_digits(iso[5], iso[6]) {
            Some(m) => m,
            None => 1,
        };
        let day = match two_digits(iso[8], iso[9]) {
            Some(d) => d,
            None => 0,
        };
        month_word(month) + " "@ + text::decimal(day as nat) + ", "@ + iso.subrange(11, 16) + if utc {
            " utc"@
        } else {
            ""@
        }
    }
}

/// A moment as month, day and time, from its date and time in ASCII.
pub fn clock_label(iso: &str, utc: bool) -> (r: String)
    requires
        is_ascii(iso@),
    ensures
        r@ == moment_text(iso@, utc),
{
    if iso.unicode_len() < 16 || iso.get_char(10) != 'T' {
        return iso.to_string();
    }
    let month: u32 = match number_of_two(iso.get_char(5), iso.get_char(6)) {
        Some(m) => m,
        None => 1,
    };
    let day: u32 = match number_of_two(iso.get_char(8), iso.get_char(9)) {
        Some(d) => d,
        None => 0,
    };
    let date = text::joined3(month_label(month), " ", &text::decimal_text(day as u64));
    let base = text::joined3(&date, ", ", iso.substring_char(11, 16));
    text::joined(
        &base,
        if utc {
            " utc"
        } else {
            ""
        },
    )
}

/// The frame of a spinner at a tick.
pub fn spinner_frame<'a>(tick: u64, frames: &'a Vec<String>) -> (r: &'a str)
    requires
        frames@.len() > 0,
    ensures
        r@ == frames@[tick as int % frames@.len() as int]@,
{
    let i: u64 = tick % (frames.len() as u64);
    frames[i as usize].as_str()
}

/// What an account's background work is doing.
#[derive(Clone, Copy, Debug, PartialEq, Eq, Structural)]
pub enum ProfileActivity {
    Idle,
    Queued,
    Fetching,
    Refreshing,
    Switching,
}

/// The hue of a spinner per activity.
#[verifier::allow_in_spec]
pub fn spinner_style(activity: ProfileActivity) -> (r: Style)
    returns
        paint::ink(
            match activity {
                ProfileActivity::Fetching => Role::Accent,
                ProfileActivity::Refreshing => Role::Info,
                ProfileActivity::Switching => Role::Info,
                ProfileActivity::Queued => Role::Faint,
                ProfileActivity::Idle => Role::Faint,
            },
        ),
{
    paint::ink(
        match activity {
            ProfileActivity::Fetching => Role::Accent,
            ProfileActivity::Refreshing => Role::Info,
            ProfileActivity::Switching => Role::Info,
            ProfileActivity::Queued => Role::Faint,
            ProfileActivity::Idle => Role::Faint,
        },
    )
}

/// An activity in a word.
pub open spec fn activity_word(activity: ProfileActivity) -> Seq<char> {
    match activity {
        ProfileActivity::Fetching => "fetching"@,
        ProfileActivity::Refreshing => "refreshing"@,
        ProfileActivity::Switching => "switching"@,
        ProfileActivity::Queued => "queued"@,
        ProfileActivity::Idle => "idle"@,
    }
}

/// An activity in a word.
pub fn activity_verb(activity: ProfileActivity) -> (r: &'static str)
    ensures
        r@ == activity_word(activity),
{
    match activity {
        ProfileActivity::Fetching => "fetching",
        ProfileActivity::Refreshing => "refreshing",
        ProfileActivity::Switching => "switching",
        ProfileActivity::Queued => "queued",
        ProfileActivity::Idle => "idle",
    }
}

/// Where no clock is asked for or the reset is overdue, every announcement is the countdown
/// alone, whatever the zone.
pub proof fn overdue_resets_show_no_clock(
    at: Option<Seq<char>>,
    secs: int,
    now: int,
    fmt: ResetFmt,
    day: Day,
    rel: Seq<char>,
)
    requires
        clock_half_of(at, secs, now, fmt, day),
        !fmt.with_clock() || secs <= 0,
    ensures
        phrase(rel, at, fmt.display) == "resets in "@ + rel,
        pill(rel, at, fmt.display) == rel,
        resume(rel, at, fmt.display) == "in ~"@ + rel,
        column(rel, at, fmt.display) == rel,
{
}

/// Outside the clock-only form the countdown is never lost from an announcement.
pub proof fn countdowns_are_kept(rel: Seq<char>, at: Option<Seq<char>>, display: ResetDisplay)
    requires
        display != ResetDisplay::Clock || at is None,
    ensures
        text::begins_with(phrase(rel, at, display), "resets in "@ + rel),
        text::begins_with(pill(rel, at, display), rel),
        text::begins_with(resume(rel, at, display), "in ~"@ + rel),
        text::begins_with(column(rel, at, display), rel),
{
    let head = "resets in "@ + rel;
    assert(phrase(rel, at, display).take(head.len() as int) =~= head);
    assert(pill(rel, at, display).take(rel.len() as int) =~= rel);
    let tail = "in ~"@ + rel;
    assert(resume(rel, at, display).take(tail.len() as int) =~= tail);
    assert(column(rel, at, display).take(rel.len() as int) =~= rel);
}

} // verus!
