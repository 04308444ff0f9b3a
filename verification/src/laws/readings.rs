//! What bars, clocks and the rotation's flow show.

use vstd::prelude::*;

use crate::clock;
use crate::clock::{ClockFormat, Day, Stamp};
use crate::figures;
use crate::figures::FigureView;
use crate::host::HostView;
use crate::model::FetchStatus;
use crate::overview_view;
use crate::overview_view::{ChainRowView, ProjectionView, UsageBarView};
use crate::paint;
use crate::paint::{Role, SpanView};
use crate::text;

verus! {

/// A bar is as long as asked, its filled cells first; more than it holds fills it.
pub proof fn bars_fill_from_the_left(filled: nat, cells: nat, i: int)
    requires
        0 <= i < cells,
    ensures
        figures::bar_text(filled, cells).len() == cells,
        figures::bar_text(filled, cells)[i] == (if i < filled {
            '█'
        } else {
            '░'
        }),
{
}

/// A reading that failed is a danger, and one that is old a warning; a fresh one, and one of an
/// account that is not read, has no hue of its own.
pub proof fn stale_readings_are_tinted(oauth: bool, status: Option<FetchStatus>)
    ensures
        ({
            let r = figures::cue_role(oauth, status);
            &&& r == Some(Role::Danger) <==> oauth && status == Some(FetchStatus::Failed)
            &&& r == Some(Role::Warning) <==> oauth && (status == Some(FetchStatus::Cached)
                || status == Some(FetchStatus::RateLimited))
            &&& !oauth || status is None || status == Some(FetchStatus::Fresh) ==> r is None
        }),
{
}

/// The type of an account: its plan without the house's name, or the way it is called.
pub proof fn kinds_name_the_plan(host: HostView, plan: Seq<char>)
    ensures
        figures::kind_label(host, true, true, plan) == "Codex"@,
        figures::kind_label(host, false, false, plan) == "API"@,
        figures::kind_label(host, false, true, host.brand + " "@ + plan) == plan,
{
    let brand = host.brand + " "@;
    let whole = brand + plan;
    assert(whole.take(brand.len() as int) =~= brand);
    assert(whole.skip(brand.len() as int) =~= plan);
}

/// A gauge shows its account's percentage, and a dash where nothing was read.
pub proof fn gauges_show_their_percentage(
    fit: figures::GaugeFit,
    name: Seq<char>,
    figure: Option<FigureView>,
    running: bool,
)
    ensures
        ({
            let v = figures::gauge_line(fit, name, figure, running);
            &&& figure is None ==> v.last().text == "—"@
            &&& figure is Some && fit.bar_cells == 0 ==> v.last().text == figure->0.percent + "%"@
            &&& figure is Some && fit.bar_cells > 0 ==> v.last().text == " "@ + figure->0.percent
                + "%"@
            &&& fit.name_w >= name.len() && fit.name_w > 0 ==> v[0].text == name
        }),
{
}

// ── windows ─────────────────────────────────────────────────────────────────

/// Without a usage of its own an account shows the bars of those labels: the first one labelled
/// for five hours and the first one labelled for the week.
pub proof fn bars_stand_in_by_label(bars: Seq<UsageBarView>, i: int)
    requires
        0 <= i < bars.len(),
        forall|j: int| 0 <= j < i ==> (#[trigger] bars[j]).label != bars[i].label,
    ensures
        bars[i].label == "5h"@ ==> overview_view::windows_of(None, Some(bars)).0 == Some(
            bars[i].window,
        ),
        bars[i].label == "7d"@ ==> overview_view::windows_of(None, Some(bars)).1 == Some(
            bars[i].window,
        ),
        overview_view::windows_of(None, None) == (
            None::<overview_view::UsageWindowView>,
            None::<overview_view::UsageWindowView>,
        ),
{
    lemma_labelled(bars, bars[i].label, bars.len(), i);
}

proof fn lemma_labelled(bars: Seq<UsageBarView>, label: Seq<char>, n: nat, i: int)
    requires
        0 <= i < bars.len(),
        n <= bars.len(),
        bars[i].label == label,
        forall|j: int| 0 <= j < i ==> (#[trigger] bars[j]).label != label,
    ensures
        overview_view::labelled(bars, label, n) == (if i < n {
            Some(bars[i].window)
        } else {
            None
        }),
    decreases n,
{
    if n > 0 {
        lemma_labelled(bars, label, (n - 1) as nat, i);
    }
}

// ── the rotation's flow ─────────────────────────────────────────────────────

/// The flow shows every member on its own line, in order: its number, its name and, where it was
/// read, its figure; a member that is no account is said to be missing.
pub proof fn flow_lines_show_their_member(row: ChainRowView, index: int, last: int, name_w: int)
    ensures
        ({
            let v = overview_view::chain_head(row, index, last, name_w);
            &&& v[1].text == text::decimal((index + 1) as nat) + " "@
            &&& v[2].text.take(row.name.len() as int) == row.name
            &&& !row.known ==> v.last().text == "missing"@
            &&& row.known ==> v.last().text == " / "@ + row.threshold + "%"@
            &&& row.known && row.figure is Some ==> v[v.len() - 2].text == "  "@
                + row.figure->0.percent
            &&& row.known && row.figure is None ==> v[v.len() - 2].text == "    —"@
        }),
{
    let named = flow_name(row, index, last, name_w);
    let cell = named[2].text;
    assert(cell.take(row.name.len() as int) =~= row.name);
    if row.known {
        match row.figure {
            Some(f) => {
                lemma_flow_gauge(named, f.filled as int, f.heat, overview_view::GAUGE_W as nat);
            },
            None => {
                lemma_flow_gauge(named, 0, Role::Faint, overview_view::GAUGE_W as nat);
            },
        }
    }
}

/// What stands before the figure of a member: its place in the rail, its number and its name.
spec fn flow_name(row: ChainRowView, index: int, last: int, name_w: int) -> Seq<SpanView> {
    let faint = paint::ink(Role::Faint);
    Seq::empty().push(paint::span_of(overview_view::rail(index, last), faint)).push(
        paint::span_of(text::decimal((index + 1) as nat) + " "@, faint),
    ).push(
        paint::span_of(
            row.name + text::fill(' ', text::monus(name_w, row.name.len() as int) as nat) + "  "@,
            paint::ink(
                if row.active {
                    Role::Accent2
                } else {
                    Role::Dim
                },
            ),
        ),
    )
}

proof fn lemma_flow_gauge(before: Seq<SpanView>, filled: int, heat: Role, n: nat)
    ensures
        ({
            let v = overview_view::chain_gauge(before, filled, heat, n);
            &&& v.len() == before.len() + n
            &&& forall|i: int| 0 <= i < before.len() ==> v[i] == before[i]
        }),
    decreases n,
{
    if n > 0 {
        lemma_flow_gauge(before, filled, heat, (n - 1) as nat);
    }
}

/// The time to a switch stands on the line of the account that it goes to, and on no other.
pub proof fn projections_stand_on_their_target(target: Seq<char>, eta: Seq<char>, name: Seq<char>)
    ensures
        overview_view::eta_for(Some(ProjectionView::To { target, eta }), name) == (if name
            == target {
            Some(eta)
        } else {
            None
        }),
        overview_view::eta_for(Some(ProjectionView::Off { eta }), name) is None,
        overview_view::eta_for(None, name) is None,
{
}

/// The caption says what happens once all are spent: stop, or stay.
pub proof fn captions_say_what_happens_when_spent()
    ensures
        overview_view::spent_caption(true).spans.last().text == " when all spent"@,
        overview_view::spent_caption(false).spans.last().text == " on last when all spent"@,
{
}

// ── clocks ──────────────────────────────────────────────────────────────────

/// An hour of the twelve-hour clock is between one and twelve, and the same hour.
pub proof fn twelve_hour_clocks_agree(hour: int)
    requires
        0 <= hour < 24,
    ensures
        1 <= clock::hour_of_twelve(hour) <= 12,
        clock::hour_of_twelve(hour) % 12 == hour % 12,
{
}

/// A time of today is given by the clock alone; one of the next six days names its weekday; any
/// other names its date.
pub proof fn days_are_named_when_needed(target: Stamp, now: Stamp, fmt: ClockFormat)
    ensures
        ({
            let t = clock::stamp_text(target, now, fmt, Day::Qualify);
            let time = clock::time_text(target, fmt);
            let ahead = target.number - now.number;
            &&& clock::stamp_text(target, now, fmt, Day::TimeOnly) == time
            &&& ahead == 0 ==> t == time
            &&& 1 <= ahead <= 6 ==> t == clock::weekday_word(target.weekday as int) + " "@ + time
            &&& ahead < 0 || ahead > 6 ==> t == clock::month_word(target.month as int) + " "@
                + text::decimal(target.day as nat) + ", "@ + time
        }),
{
}

/// The calendar counts on: the day after the last of a month is the first of the next, and the
/// day after the last of a year the first of the next.
pub proof fn days_follow_each_other(year: int, month: int)
    requires
        year >= 1,
        1 <= month <= 11,
    ensures
        clock::day_number(year, month + 1, 1) == clock::day_number(
            year,
            month,
            clock::month_days(year, month),
        ) + 1,
{
}

/// A year has 366 days where it is a leap year, and 365 otherwise.
pub proof fn years_have_their_length(year: int)
    ensures
        clock::days_before(year, 13) == (if year % 4 == 0 && (year % 100 != 0 || year % 400 == 0) {
            366
        } else {
            365int
        }),
{
    reveal_with_fuel(clock::days_before, 14);
}

/// An age is given in the largest unit that it reaches: minutes, hours, days or weeks.
pub proof fn ages_are_given_in_their_unit(then_ms: int, now_ms: int, iso: Seq<char>)
    requires
        0 <= then_ms <= now_ms,
    ensures
        ({
            let t = clock::age_text(then_ms, now_ms, iso);
            let secs = (now_ms - then_ms) / 1000;
            &&& secs < 60 ==> t == "just now"@
            &&& 60 <= secs < 3600 ==> t == text::decimal((secs / 60) as nat) + "m ago"@
            &&& 3600 <= secs < 86400 ==> t == text::decimal((secs / 3600) as nat) + "h ago"@
            &&& 86400 <= secs < 604800 ==> t == text::decimal((secs / 86400) as nat) + "d ago"@
            &&& 604800 <= secs < 2592000 ==> t == text::decimal((secs / 604800) as nat) + "w ago"@
        }),
{
    let secs = (now_ms - then_ms) / 1000;
    assert(secs / 86400 / 7 == secs / 604800);
}

} // verus!
