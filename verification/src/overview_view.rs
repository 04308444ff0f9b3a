//! The Overview tab on screen: the accounts table and the fallback chain below it.

use vstd::prelude::*;

use crate::chain_view;
use crate::chain_view::{Reason, ReasonView};
use crate::clock;
use crate::clock::ProfileActivity;
use crate::figures;
use crate::figures::{WindowCells, WindowCellsView};
use crate::layout;
use crate::paint;
use crate::paint::{Line, LineView, Role, Span, SpanView, Style};
use crate::text;

verus! {

/// Cells of the countdown before the first bar.
pub const TIMER_SLOT: usize = 5;

/// Rows the accounts table keeps.
pub const ACCOUNTS_MIN: u16 = 7;

/// Rows of the chain panel: its content and two borders, as far as the accounts table keeps its
/// rows, but never fewer than three.
pub open spec fn panel_rows(content: int, area: int) -> int {
    let desired = text::min_int(content + 2, u16::MAX as int);
    text::max_int(text::min_int(desired, text::monus(area, ACCOUNTS_MIN as int)), 3)
}

/// Rows of the chain panel.
pub fn chain_panel_height(content_rows: usize, area_height: u16) -> (r: u16)
    ensures
        r == panel_rows(content_rows as int, area_height as int),
{
    let desired: u16 = text::cells(content_rows).saturating_add(2);
    let most: u16 = area_height.saturating_sub(ACCOUNTS_MIN);
    text::max_u16(text::min_u16(desired, most), 3)
}

/// The accounts table keeps its rows wherever both panels have room.
pub proof fn accounts_keep_their_rows(content: int, area: int)
    requires
        0 <= content,
        area >= ACCOUNTS_MIN + 3,
    ensures
        area - panel_rows(content, area) >= ACCOUNTS_MIN,
        panel_rows(content, area) >= 3,
{
}

/// Column widths of the accounts table.
#[derive(Clone, Copy, Debug, PartialEq, Eq, Structural)]
pub struct OverviewWidths {
    pub name: usize,
    pub kind: usize,
    pub five_hour: usize,
    pub seven_day: usize,
    pub gap: usize,
}

/// Gaps of the standard width.
pub open spec fn standard_gaps(seven_day: int) -> int {
    if seven_day > 0 {
        2
    } else {
        1
    }
}

/// The gap before the countdown: four cells narrower, at least one.
pub open spec fn narrow_cells(gap: int) -> int {
    text::max_int(text::monus(gap, 4), 1)
}

/// Cells of a table row without the countdown.
pub open spec fn table_cells(name: int, kind: int, five: int, seven: int, gap: int) -> int {
    4 + name + kind + five + seven + standard_gaps(seven) * gap + narrow_cells(gap)
}

/// Cells of a table row without the countdown.
pub fn fixed_overview_width(name: usize, kind: usize, five_hour: usize, seven_day: usize, gap: usize)
    -> (r: usize)
    requires
        table_cells(
            name as int,
            kind as int,
            five_hour as int,
            seven_day as int,
            gap as int,
        ) <= usize::MAX,
    ensures
        r == table_cells(
            name as int,
            kind as int,
            five_hour as int,
            seven_day as int,
            gap as int,
        ),
{
    let narrow: usize = text::max_usize(gap.saturating_sub(4), 1);
    if seven_day > 0 {
        4 + name + kind + five_hour + seven_day + 2 * gap + narrow
    } else {
        4 + name + kind + five_hour + seven_day + gap + narrow
    }
}

/// The widths of a row too wide for the table, one step narrower: the weekly column goes first,
/// then the bar of the five-hour column, then the type, then the name.
pub open spec fn step_narrower(w: OverviewWidths) -> Option<OverviewWidths> {
    if w.seven_day >= 17 {
        Some(OverviewWidths { seven_day: 5, ..w })
    } else if w.seven_day > 0 {
        Some(OverviewWidths { seven_day: 0, ..w })
    } else if w.five_hour > 17 {
        Some(OverviewWidths { five_hour: 17, ..w })
    } else if w.five_hour > 12 {
        Some(OverviewWidths { five_hour: 12, ..w })
    } else if w.kind > 6 {
        Some(OverviewWidths { kind: 6, ..w })
    } else if w.name > 8 {
        Some(OverviewWidths { name: (w.name - 1) as usize, ..w })
    } else {
        None
    }
}

/// Cells of a row at the narrowest gap.
pub open spec fn narrowest_cells(w: OverviewWidths) -> int {
    table_cells(w.name as int, w.kind as int, w.five_hour as int, w.seven_day as int, 2)
}

/// The widths narrowed until the row fits or nothing is left to narrow.
pub open spec fn narrowed(w: OverviewWidths, total: int) -> OverviewWidths
    decreases w.name + w.kind + w.five_hour + w.seven_day,
{
    if narrowest_cells(w) <= total {
        w
    } else {
        match step_narrower(w) {
            Some(v) => narrowed(v, total),
            None => w,
        }
    }
}

/// The widths a table of the given width starts from.
pub open spec fn wanted_widths(longest: int, total: int) -> OverviewWidths {
    OverviewWidths {
        name: text::min_int(
            text::max_int(longest, 8),
            if total >= 86 {
                22
            } else {
                16
            },
        ) as usize,
        kind: if total >= 92 {
            16
        } else if total >= 66 {
            12
        } else {
            6
        },
        five_hour: if total >= 81 {
            26
        } else if total >= 64 {
            17
        } else {
            12
        },
        seven_day: if total >= 102 {
            26
        } else if total >= 93 {
            17
        } else if total >= 58 {
            5
        } else {
            0
        },
        gap: 2,
    }
}

/// The gap that spreads what is left of the row, between two and eight cells.
pub open spec fn spread_gap(w: OverviewWidths, total: int) -> int {
    let slots = standard_gaps(w.seven_day as int) + 1;
    let left = text::monus(total, narrowest_cells(w) + TIMER_SLOT);
    text::min_int(2 + left / slots, 8)
}

/// The column widths of a table.
pub open spec fn table_widths(longest: int, total: int) -> OverviewWidths {
    let w = narrowed(wanted_widths(longest, total), total);
    OverviewWidths { gap: spread_gap(w, total) as usize, ..w }
}

proof fn lemma_narrowed(w: OverviewWidths, total: int)
    requires
        8 <= w.name <= 22,
        6 <= w.kind <= 16,
        12 <= w.five_hour <= 26,
        w.seven_day <= 26,
    ensures
        ({
            let v = narrowed(w, total);
            &&& 8 <= v.name <= w.name
            &&& 6 <= v.kind <= w.kind
            &&& 12 <= v.five_hour <= w.five_hour
            &&& v.seven_day <= w.seven_day
            &&& v.gap == w.gap
            &&& narrowest_cells(v) <= total || (v.name == 8 && v.kind == 6 && v.five_hour == 12
                && v.seven_day == 0)
        }),
    decreases w.name + w.kind + w.five_hour + w.seven_day,
{
    if narrowest_cells(w) > total {
        if let Some(v) = step_narrower(w) {
            lemma_narrowed(v, total);
        }
    }
}

impl OverviewWidths {
    /// The column widths of a table `width` cells wide; `longest` is the length of the longest
    /// name.
    pub fn new(width: u16, longest: usize) -> (r: OverviewWidths)
        ensures
            r == table_widths(longest as int, width as int),
    {
        let total: usize = width as usize;
        let mut w = OverviewWidths {
            name: text::min_usize(
                text::max_usize(longest, 8),
                if total >= 86 {
                    22
                } else {
                    16
                },
            ),
            kind: if total >= 92 {
                16
            } else if total >= 66 {
                12
            } else {
                6
            },
            five_hour: if total >= 81 {
                26
            } else if total >= 64 {
                17
            } else {
                12
            },
            seven_day: if total >= 102 {
                26
            } else if total >= 93 {
                17
            } else if total >= 58 {
                5
            } else {
                0
            },
            gap: 2,
        };
        let ghost start = w;
        while fixed_overview_width(w.name, w.kind, w.five_hour, w.seven_day, 2) > total
            invariant
                w.name <= 22,
                w.kind <= 16,
                w.five_hour <= 26,
                w.seven_day <= 26,
                narrowed(w, total as int) == narrowed(start, total as int),
            ensures
                w.name <= 22,
                w.kind <= 16,
                w.five_hour <= 26,
                w.seven_day <= 26,
                w == narrowed(start, total as int),
            decreases w.name + w.kind + w.five_hour + w.seven_day,
        {
            if w.seven_day >= 17 {
                w.seven_day = 5;
            } else if w.seven_day > 0 {
                w.seven_day = 0;
            } else if w.five_hour > 17 {
                w.five_hour = 17;
            } else if w.five_hour > 12 {
                w.five_hour = 12;
            } else if w.kind > 6 {
                w.kind = 6;
            } else if w.name > 8 {
                w.name = w.name - 1;
            } else {
                break;
            }
        }
        let base: usize = fixed_overview_width(w.name, w.kind, w.five_hour, w.seven_day, 2);
        let left: usize = total.saturating_sub(base + TIMER_SLOT);
        let share: usize = if w.seven_day > 0 {
            left / 3
        } else {
            left / 2
        };
        OverviewWidths { gap: text::min_usize(2 + share, 8), ..w }
    }
}

/// A table row, countdown and all, never runs past the table where the narrowest form fits: what
/// is spread over the gaps is only what is left.
pub proof fn rows_do_not_overflow(longest: int, total: int)
    requires
        0 <= longest,
        0 <= total <= u16::MAX,
        narrowest_cells(table_widths(longest, total)) + TIMER_SLOT <= total,
    ensures
        ({
            let w = table_widths(longest, total);
            table_cells(
                w.name as int,
                w.kind as int,
                w.five_hour as int,
                w.seven_day as int,
                w.gap as int,
            ) + TIMER_SLOT <= total
        }),
{
    let w = narrowed(wanted_widths(longest, total), total);
    lemma_narrowed(wanted_widths(longest, total), total);
    let gap = spread_gap(w, total);
    let left = total - narrowest_cells(w) - TIMER_SLOT;
    if w.seven_day > 0 {
        assert(3 * (left / 3) <= left);
        assert(2 <= gap <= 2 + left / 3);
    } else {
        assert(2 * (left / 2) <= left);
        assert(2 <= gap <= 2 + left / 2);
    }
}

/// Whatever its width, a table keeps the account, the type and the five-hour figure; the weekly
/// column is the first to go.
pub proof fn tables_keep_their_columns(longest: int, total: int)
    requires
        0 <= longest,
        0 <= total <= u16::MAX,
    ensures
        ({
            let w = table_widths(longest, total);
            &&& w.name >= 8
            &&& w.kind >= 6
            &&& w.five_hour >= 12
            &&& 2 <= w.gap <= 8
            &&& narrowest_cells(w) > total ==> w.seven_day == 0
        }),
{
    let w = narrowed(wanted_widths(longest, total), total);
    lemma_narrowed(wanted_widths(longest, total), total);
    let slots = standard_gaps(w.seven_day as int) + 1;
    let left = text::monus(total, narrowest_cells(w) + TIMER_SLOT);
    assert(left / slots >= 0) by (nonlinear_arith)
        requires
            left >= 0,
            slots > 0,
    ;
}

/// The header of the accounts table.
pub open spec fn table_head(w: OverviewWidths) -> Seq<SpanView> {
    let label = paint::ink(Role::Label);
    let base = Seq::empty().push(paint::span_of("  "@, label)).push(paint::raw_of("  "@)).push(
        paint::span_of(figures::fixed_text("account"@, w.name as nat), label),
    ).push(paint::blanks_of(w.gap as nat)).push(
        paint::span_of(figures::fixed_text("type"@, w.kind as nat), label),
    ).push(paint::blanks_of(narrow_cells(w.gap as int) as nat)).push(
        paint::blanks_of(TIMER_SLOT as nat),
    ).push(paint::span_of(figures::fixed_text("5h"@, w.five_hour as nat), label));
    if w.seven_day > 0 {
        base.push(paint::blanks_of(w.gap as nat)).push(
            paint::span_of(figures::fixed_text("7d"@, w.seven_day as nat), label),
        )
    } else {
        base
    }
}

fn put_gap(v: &mut Vec<Span>, w: &OverviewWidths)
    ensures
        paint::spans_view(final(v)@) == paint::spans_view(old(v)@).push(
            paint::blanks_of(w.gap as nat),
        ),
{
    paint::put_blanks(v, w.gap);
}

fn put_narrow_gap(v: &mut Vec<Span>, w: &OverviewWidths)
    ensures
        paint::spans_view(final(v)@) == paint::spans_view(old(v)@).push(
            paint::blanks_of(narrow_cells(w.gap as int) as nat),
        ),
{
    paint::put_blanks(v, text::max_usize(w.gap.saturating_sub(4), 1));
}

/// The header of the accounts table.
pub fn overview_header(w: &OverviewWidths) -> (r: Line)
    ensures
        r@ == paint::line_of(table_head(*w)),
{
    let label = paint::ink(Role::Label);
    let mut v = paint::no_spans();
    paint::put(&mut v, "  ", label);
    paint::put_raw(&mut v, "  ");
    let a = figures::fixed("account", w.name);
    paint::put(&mut v, &a, label);
    put_gap(&mut v, w);
    let k = figures::fixed("type", w.kind);
    paint::put(&mut v, &k, label);
    put_narrow_gap(&mut v, w);
    paint::put_blanks(&mut v, TIMER_SLOT);
    let f = figures::fixed("5h", w.five_hour);
    paint::put(&mut v, &f, label);
    if w.seven_day > 0 {
        put_gap(&mut v, w);
        let s = figures::fixed("7d", w.seven_day);
        paint::put(&mut v, &s, label);
    }
    paint::line(v)
}

/// State of an account's row.
#[derive(Clone, Copy, Debug, PartialEq, Eq, Structural)]
pub struct RowFlags {
    pub active: bool,
    pub auth_broken: bool,
    /// Its bell has rung.
    pub bell: bool,
    /// Its plan is drawn with the wave.
    pub has_login: bool,
    /// The wave runs.
    pub wave: bool,
}

/// An account's row, ready to be drawn.
#[derive(Debug)]
pub struct AccountRow {
    pub name: String,
    pub flags: RowFlags,
    pub activity: ProfileActivity,
    /// The spinner's frame.
    pub frame: String,
    /// When the next reading is due, in milliseconds.
    pub next_ms: Option<u64>,
    pub now_ms: u64,
    pub cue: Option<Role>,
    pub kind: String,
    pub five: Option<WindowCells>,
    pub five_style: Option<Style>,
    pub seven: Option<WindowCells>,
    pub seven_style: Option<Style>,
}

/// What an [`AccountRow`] holds.
pub struct AccountRowView {
    pub name: Seq<char>,
    pub flags: RowFlags,
    pub activity: ProfileActivity,
    pub frame: Seq<char>,
    pub next_ms: Option<u64>,
    pub now_ms: u64,
    pub cue: Option<Role>,
    pub kind: Seq<char>,
    pub five: Option<WindowCellsView>,
    pub five_style: Option<Style>,
    pub seven: Option<WindowCellsView>,
    pub seven_style: Option<Style>,
}

/// The optional view of a window.
pub open spec fn window_view(w: Option<WindowCells>) -> Option<WindowCellsView> {
    match w {
        Some(x) => Some(x@),
        None => None,
    }
}

impl View for AccountRow {
    type V = AccountRowView;

    open spec fn view(&self) -> AccountRowView {
        AccountRowView {
            name: self.name@,
            flags: self.flags,
            activity: self.activity,
            frame: self.frame@,
            next_ms: self.next_ms,
            now_ms: self.now_ms,
            cue: self.cue,
            kind: self.kind@,
            five: window_view(self.five),
            five_style: self.five_style,
            seven: window_view(self.seven),
            seven_style: self.seven_style,
        }
    }
}

/// A text against the right edge of the countdown's cells, and one blank.
pub open spec fn timer_text(s: Seq<char>) -> Seq<char> {
    text::fill(' ', text::monus(TIMER_SLOT - 1, s.len() as int) as nat) + s + " "@
}

/// The countdown: a spinner while something is under way, else the seconds to the next reading.
pub open spec fn timer_span(row: AccountRowView) -> SpanView {
    if row.activity != ProfileActivity::Idle {
        paint::span_of(timer_text(row.frame), clock::spinner_style(row.activity))
    } else {
        match row.next_ms {
            Some(next) => paint::span_of(
                timer_text(
                    text::decimal(
                        (text::monus(next as int, row.now_ms as int) / 1000) as nat,
                    ) + "s"@,
                ),
                figures::cue_style(row.cue, paint::ink(Role::Faint)),
            ),
            None => paint::blanks_of(TIMER_SLOT as nat),
        }
    }
}

fn timer_of(row: &AccountRow) -> (r: Span)
    ensures
        r@ == timer_span(row@),
{
    let (label, style) = if row.activity != ProfileActivity::Idle {
        (row.frame.clone(), clock::spinner_style(row.activity))
    } else {
        match row.next_ms {
            Some(next) => {
                let secs: u64 = next.saturating_sub(row.now_ms) / 1000;
                (
                    text::joined(&text::decimal_text(secs), "s"),
                    figures::cue_style(row.cue, paint::ink(Role::Faint)),
                )
            },
            None => {
                let blank = text::fill_text(' ', TIMER_SLOT);
                return paint::span(&blank, paint::ink(Role::Plain));
            },
        }
    };
    let len: usize = label.as_str().unicode_len();
    let pad = text::fill_text(' ', 4usize.saturating_sub(len));
    let t = text::joined3(&pad, &label, " ");
    paint::span(&t, style)
}

/// The mark before the name: a broken login outranks a bell, a bell the active account.
pub open spec fn marked(v: Seq<SpanView>, f: RowFlags) -> Seq<SpanView> {
    if f.auth_broken {
        v.push(paint::span_of("×"@, paint::ink(Role::Danger))).push(paint::raw_of(" "@))
    } else if f.bell {
        v.push(paint::span_of("!"@, paint::ink(Role::Danger))).push(paint::raw_of(" "@))
    } else if f.active {
        v.push(paint::span_of("●"@, paint::ink(Role::Accent2))).push(paint::raw_of(" "@))
    } else {
        v.push(paint::raw_of("  "@))
    }
}

fn put_mark(v: &mut Vec<Span>, f: RowFlags)
    ensures
        paint::spans_view(final(v)@) == marked(paint::spans_view(old(v)@), f),
{
    if f.auth_broken {
        paint::put(v, "×", paint::ink(Role::Danger));
        paint::put_raw(v, " ");
    } else if f.bell {
        paint::put(v, "!", paint::ink(Role::Danger));
        paint::put_raw(v, " ");
    } else if f.active {
        paint::put(v, "●", paint::ink(Role::Accent2));
        paint::put_raw(v, " ");
    } else {
        paint::put_raw(v, "  ");
    }
}

/// The account's type: with the wave where it has a login.
pub open spec fn typed(v: Seq<SpanView>, row: AccountRowView, width: nat) -> Seq<SpanView> {
    if row.flags.has_login {
        v.push(
            paint::span_of(
                text::clipped(row.kind, width),
                figures::wave(paint::ink(Role::Dim), row.flags.wave),
            ),
        ).push(paint::raw_of(figures::padding(row.kind, width)))
    } else {
        v.push(paint::span_of(figures::fixed_text(row.kind, width), paint::ink(Role::Dim)))
    }
}

/// A window's summary in its column.
pub open spec fn columned(
    v: Seq<SpanView>,
    window: Option<WindowCellsView>,
    width: int,
    include_bar: bool,
    style: Option<Style>,
) -> Seq<SpanView> {
    let spans = figures::window_summary(window, width, include_bar, style);
    (v + spans).push(
        paint::blanks_of(text::monus(width, paint::chars_in(spans) as int) as nat),
    )
}

fn put_window(
    v: &mut Vec<Span>,
    window: &Option<WindowCells>,
    width: usize,
    include_bar: bool,
    style: Option<Style>,
)
    ensures
        paint::spans_view(final(v)@) == columned(
            paint::spans_view(old(v)@),
            window_view(*window),
            width as int,
            include_bar,
            style,
        ),
{
    let spans = figures::window_summary_spans_bracketed(window.as_ref(), width, include_bar, style);
    let len: usize = paint::chars_count(&spans);
    paint::put_spans(v, &spans);
    paint::put_blanks(v, width.saturating_sub(len));
}

/// A row of the accounts table.
pub open spec fn account_line(
    row: AccountRowView,
    w: OverviewWidths,
    selected: bool,
    focused: bool,
) -> Seq<SpanView> {
    let shown = selected && focused;
    let named = marked(Seq::empty().push(layout::caret_span(shown)), row.flags).push(
        paint::span_of(
            text::clipped(row.name, w.name as nat),
            paint::bold_when(layout::name_color(row.flags.active), shown),
        ),
    ).push(paint::raw_of(figures::padding(row.name, w.name as nat))).push(
        paint::blanks_of(w.gap as nat),
    );
    let timed = typed(named, row, w.kind as nat).push(
        paint::blanks_of(narrow_cells(w.gap as int) as nat),
    ).push(timer_span(row));
    let fived = columned(timed, row.five, w.five_hour as int, true, row.five_style);
    if w.seven_day > 0 {
        columned(
            fived.push(paint::blanks_of(w.gap as nat)),
            row.seven,
            w.seven_day as int,
            w.seven_day >= 18,
            row.seven_style,
        )
    } else {
        fived
    }
}

/// A row of the accounts table.
pub fn render_overview_row(
    row: &AccountRow,
    w: &OverviewWidths,
    selected: bool,
    focused: bool,
    width: u16,
) -> (r: Line)
    ensures
        r@ == layout::shown_row(
            paint::line_of(account_line(row@, *w, selected, focused)),
            selected,
            focused,
            width as int,
        ),
{
    let shown = selected && focused;
    let mut v = paint::no_spans();
    paint::put_span(&mut v, layout::caret(shown));
    put_mark(&mut v, row.flags);
    let (name, pad) = figures::fixed_split(&row.name, w.name);
    paint::put(&mut v, &name, paint::bold_when(layout::name_color(row.flags.active), shown));
    paint::put_raw(&mut v, &pad);
    put_gap(&mut v, w);
    if row.flags.has_login {
        let (kind, rest) = figures::fixed_split(&row.kind, w.kind);
        paint::put(&mut v, &kind, figures::wave(paint::ink(Role::Dim), row.flags.wave));
        paint::put_raw(&mut v, &rest);
    } else {
        let kind = figures::fixed(&row.kind, w.kind);
        paint::put(&mut v, &kind, paint::ink(Role::Dim));
    }
    put_narrow_gap(&mut v, w);
    paint::put_span(&mut v, timer_of(row));
    put_window(&mut v, &row.five, w.five_hour, true, row.five_style);
    if w.seven_day > 0 {
        put_gap(&mut v, w);
        put_window(&mut v, &row.seven, w.seven_day, w.seven_day >= 18, row.seven_style);
    }
    layout::select_line(paint::line(v), selected, focused, width)
}

/// A broken login is shown whatever else holds, and a rung bell outranks the active mark.
pub proof fn broken_logins_are_marked(f: RowFlags, v: Seq<SpanView>)
    ensures
        f.auth_broken ==> marked(v, f)[v.len() as int].text == "×"@,
        !f.auth_broken && f.bell ==> marked(v, f)[v.len() as int].text == "!"@,
        !f.auth_broken && !f.bell && f.active ==> marked(v, f)[v.len() as int].text == "●"@,
{
}

/// A usage window: the number of the reading that holds its figure, and its reset.
#[derive(Debug)]
pub struct UsageWindow {
    pub reading: usize,
    pub resets_at: Option<String>,
}

/// What a [`UsageWindow`] holds.
pub struct UsageWindowView {
    pub reading: usize,
    pub resets_at: Option<Seq<char>>,
}

impl View for UsageWindow {
    type V = UsageWindowView;

    open spec fn view(&self) -> UsageWindowView {
        UsageWindowView { reading: self.reading, resets_at: text::opt_view(self.resets_at) }
    }
}

/// A bar of a third party's reading.
#[derive(Debug)]
pub struct UsageBar {
    pub label: String,
    pub window: UsageWindow,
}

/// What a [`UsageBar`] holds.
pub struct UsageBarView {
    pub label: Seq<char>,
    pub window: UsageWindowView,
}

impl View for UsageBar {
    type V = UsageBarView;

    open spec fn view(&self) -> UsageBarView {
        UsageBarView { label: self.label@, window: self.window@ }
    }
}

/// The views of a list of bars.
pub open spec fn bar_views(v: Seq<UsageBar>) -> Seq<UsageBarView> {
    v.map_values(|b: UsageBar| b@)
}

/// The window of the first bar with a label, among the first `n`.
pub open spec fn labelled(bars: Seq<UsageBarView>, label: Seq<char>, n: nat) -> Option<
    UsageWindowView,
>
    decreases n,
{
    if n == 0 {
        None
    } else {
        match labelled(bars, label, (n - 1) as nat) {
            Some(w) => Some(w),
            None => if bars[n - 1].label == label {
                Some(bars[n - 1].window)
            } else {
                None
            },
        }
    }
}

/// The optional view of a usage window.
pub open spec fn opt_usage(w: Option<UsageWindow>) -> Option<UsageWindowView> {
    match w {
        Some(x) => Some(x@),
        None => None,
    }
}

/// The windows an account read of its own usage.
#[derive(Debug)]
pub struct OwnUsage {
    pub five_hour: Option<UsageWindow>,
    pub weekly: Option<UsageWindow>,
}

/// What an [`OwnUsage`] holds.
pub struct OwnUsageView {
    pub five_hour: Option<UsageWindowView>,
    pub weekly: Option<UsageWindowView>,
}

impl View for OwnUsage {
    type V = OwnUsageView;

    open spec fn view(&self) -> OwnUsageView {
        OwnUsageView { five_hour: opt_usage(self.five_hour), weekly: opt_usage(self.weekly) }
    }
}

/// The optional view of an account's own usage.
pub open spec fn opt_own(u: Option<OwnUsage>) -> Option<OwnUsageView> {
    match u {
        Some(x) => Some(x@),
        None => None,
    }
}

/// The optional views of a third party's bars.
pub open spec fn opt_bars(v: Option<Vec<UsageBar>>) -> Option<Seq<UsageBarView>> {
    match v {
        Some(x) => Some(bar_views(x@)),
        None => None,
    }
}

/// The five-hour and the weekly window of an account: its own usage where it has read one, even
/// where that lacks a window; else the third party's bars of the same labels.
pub open spec fn windows_of(own: Option<OwnUsageView>, bars: Option<Seq<UsageBarView>>) -> (
    Option<UsageWindowView>,
    Option<UsageWindowView>,
) {
    match (own, bars) {
        (Some(u), _) => (u.five_hour, u.weekly),
        (None, Some(v)) => (labelled(v, "5h"@, v.len()), labelled(v, "7d"@, v.len())),
        (None, None) => (None, None),
    }
}

/// An account's own usage wins: with one, no bar is ever shown.
pub proof fn own_usage_wins(own: OwnUsageView, a: Option<Seq<UsageBarView>>, b: Option<
    Seq<UsageBarView>,
>)
    ensures
        windows_of(Some(own), a) == windows_of(Some(own), b),
        windows_of(Some(own), a) == (own.five_hour, own.weekly),
{
}

fn copy_window(w: &UsageWindow) -> (r: UsageWindow)
    ensures
        r@ == w@,
{
    UsageWindow { reading: w.reading, resets_at: text::clone_opt(&w.resets_at) }
}

fn copy_opt_window(w: &Option<UsageWindow>) -> (r: Option<UsageWindow>)
    ensures
        opt_usage(r) == opt_usage(*w),
{
    match w {
        Some(x) => Some(copy_window(x)),
        None => None,
    }
}

fn find_bar(bars: &Vec<UsageBar>, label: &str) -> (r: Option<UsageWindow>)
    ensures
        opt_usage(r) == labelled(bar_views(bars@), label@, bars@.len()),
{
    let ghost all = bar_views(bars@);
    let mut i: usize = 0;
    while i < bars.len()
        invariant
            i <= bars@.len(),
            all == bar_views(bars@),
            labelled(all, label@, i as nat) is None,
        decreases bars@.len() - i,
    {
        assert(all[i as int] == bars@[i as int]@);
        if text::same_text(&bars[i].label, label) {
            proof {
                lemma_labelled_stays(all, label@, (i + 1) as nat, all.len());
            }
            return Some(copy_window(&bars[i].window));
        }
        i = i + 1;
    }
    None
}

proof fn lemma_labelled_stays(bars: Seq<UsageBarView>, label: Seq<char>, k: nat, n: nat)
    requires
        k <= n,
        labelled(bars, label, k) is Some,
    ensures
        labelled(bars, label, n) == labelled(bars, label, k),
    decreases n,
{
    if k < n {
        lemma_labelled_stays(bars, label, k, (n - 1) as nat);
    }
}

/// The five-hour and the weekly window of an account.
pub fn overview_windows(own: &Option<OwnUsage>, bars: &Option<Vec<UsageBar>>) -> (out: (
    Option<UsageWindow>,
    Option<UsageWindow>,
))
    ensures
        (opt_usage(out.0), opt_usage(out.1)) == windows_of(opt_own(*own), opt_bars(*bars)),
{
    match own {
        Some(u) => (copy_opt_window(&u.five_hour), copy_opt_window(&u.weekly)),
        None => match bars {
            Some(v) => {
                assert(bar_views(v@).len() == v@.len());
                (find_bar(v, "5h"), find_bar(v, "7d"))
            },
            None => (None, None),
        },
    }
}

/// The next switch the rotation will make.
#[derive(Debug)]
pub enum Projection {
    /// To an account, in the given time.
    To { target: String, eta: String },
    /// Everything off, in the given time.
    Off { eta: String },
}

/// What a [`Projection`] says.
pub enum ProjectionView {
    To { target: Seq<char>, eta: Seq<char> },
    Off { eta: Seq<char> },
}

impl View for Projection {
    type V = ProjectionView;

    open spec fn view(&self) -> ProjectionView {
        match self {
            Projection::To { target, eta } => ProjectionView::To { target: target@, eta: eta@ },
            Projection::Off { eta } => ProjectionView::Off { eta: eta@ },
        }
    }
}

/// The optional view of a projection.
pub open spec fn opt_projection(p: Option<Projection>) -> Option<ProjectionView> {
    match p {
        Some(x) => Some(x@),
        None => None,
    }
}

/// The seconds to the projected switch: none for a chain of one, none without a rate, and none
/// where the window resets first.
pub fn projected_switch(members: usize, eta: Option<i64>, reset: Option<i64>) -> (r: Option<i64>)
    ensures
        r == if members <= 1 {
            None
        } else {
            match eta {
                Some(e) => if reset matches Some(t) && e >= t {
                    None
                } else {
                    Some(e)
                },
                None => None,
            }
        },
{
    if members <= 1 {
        return None;
    }
    match (eta, reset) {
        (Some(e), Some(t)) => if e >= t {
            None
        } else {
            Some(e)
        },
        (Some(e), None) => Some(e),
        (None, _) => None,
    }
}

/// The hue of a reset: a window that runs dry first warns, any other shows its rate. None without
/// a rate.
pub fn drain_reset_style(heat: Option<Role>, eta: Option<i64>, reset: Option<i64>) -> (r: Option<
    Style,
>)
    ensures
        r == match heat {
            Some(h) => Some(
                if eta is Some && reset is Some && eta->0 < reset->0 {
                    paint::ink(Role::Warning)
                } else {
                    paint::ink(h)
                },
            ),
            None => None,
        },
{
    match heat {
        Some(h) => {
            let dry = match (eta, reset) {
                (Some(e), Some(t)) => e < t,
                _ => false,
            };
            if dry {
                Some(paint::ink(Role::Warning))
            } else {
                Some(paint::ink(h))
            }
        },
        None => None,
    }
}

/// Cells of a chain member's bar.
pub const GAUGE_W: usize = 12;

/// The first `n` cells of a chain member's bar.
pub open spec fn chain_gauge(before: Seq<SpanView>, filled: int, heat: Role, n: nat) -> Seq<SpanView>
    decreases n,
{
    if n == 0 {
        before
    } else {
        chain_gauge(before, filled, heat, (n - 1) as nat).push(
            if n - 1 < filled {
                paint::span_of("▰"@, paint::ink(heat))
            } else {
                paint::span_of("▱"@, paint::ink(Role::Faint))
            },
        )
    }
}

fn put_chain_gauge(v: &mut Vec<Span>, filled: usize, heat: Role)
    ensures
        paint::spans_view(final(v)@) == chain_gauge(
            paint::spans_view(old(v)@),
            filled as int,
            heat,
            GAUGE_W as nat,
        ),
{
    let ghost before = paint::spans_view(v@);
    let mut i: usize = 0;
    while i < GAUGE_W
        invariant
            i <= GAUGE_W,
            paint::spans_view(v@) == chain_gauge(before, filled as int, heat, i as nat),
        decreases GAUGE_W - i,
    {
        if i < filled {
            paint::put(v, "▰", paint::ink(heat));
        } else {
            paint::put(v, "▱", paint::ink(Role::Faint));
        }
        i = i + 1;
    }
}

/// The figure of a chain member.
#[derive(Debug)]
pub struct ChainFigure {
    /// Full cells of a bar of [`GAUGE_W`] cells.
    pub filled: usize,
    /// The percentage, right-aligned in three characters.
    pub percent: String,
    pub heat: Role,
}

/// What a [`ChainFigure`] holds.
pub struct ChainFigureView {
    pub filled: int,
    pub percent: Seq<char>,
    pub heat: Role,
}

impl View for ChainFigure {
    type V = ChainFigureView;

    open spec fn view(&self) -> ChainFigureView {
        ChainFigureView {
            filled: self.filled as int,
            percent: self.percent@,
            heat: self.heat,
        }
    }
}

/// A chain member, ready to be drawn.
#[derive(Debug)]
pub struct ChainRow {
    pub name: String,
    pub active: bool,
    /// The account still exists.
    pub known: bool,
    pub figure: Option<ChainFigure>,
    /// The rotation threshold, without the sign.
    pub threshold: String,
    pub reason: Option<Reason>,
}

/// What a [`ChainRow`] holds.
pub struct ChainRowView {
    pub name: Seq<char>,
    pub active: bool,
    pub known: bool,
    pub figure: Option<ChainFigureView>,
    pub threshold: Seq<char>,
    pub reason: Option<ReasonView>,
}

impl View for ChainRow {
    type V = ChainRowView;

    open spec fn view(&self) -> ChainRowView {
        ChainRowView {
            name: self.name@,
            active: self.active,
            known: self.known,
            figure: match self.figure {
                Some(f) => Some(f@),
                None => None,
            },
            threshold: self.threshold@,
            reason: chain_view::opt_reason(self.reason),
        }
    }
}

/// The views of a list of members.
pub open spec fn chain_row_views(v: Seq<ChainRow>) -> Seq<ChainRowView> {
    v.map_values(|r: ChainRow| r@)
}

/// The rail of a chain: open at its ends, a single member stands alone.
pub open spec fn rail(index: int, last: int) -> Seq<char> {
    if index == 0 && last == 0 {
        " ╶ "@
    } else if index == 0 {
        " ╭ "@
    } else if index == last {
        " ╰ "@
    } else {
        " │ "@
    }
}

fn rail_text(index: usize, last: usize) -> (r: &'static str)
    ensures
        r@ == rail(index as int, last as int),
{
    if index == 0 && last == 0 {
        " ╶ "
    } else if index == 0 {
        " ╭ "
    } else if index == last {
        " ╰ "
    } else {
        " │ "
    }
}

/// A chain member's row up to its trailer.
pub open spec fn chain_head(row: ChainRowView, index: int, last: int, name_w: int) -> Seq<SpanView> {
    let faint = paint::ink(Role::Faint);
    let named = Seq::empty().push(paint::span_of(rail(index, last), faint)).push(
        paint::span_of(text::decimal((index + 1) as nat) + " "@, faint),
    ).push(
        paint::span_of(
            row.name + text::fill(' ', text::monus(name_w, row.name.len() as int) as nat) + "  "@,
            paint::ink(
                if row.active {
                    Role::Accent2
                } else {
                    Role::Dim
                },
            ),
        ),
    );
    if !row.known {
        named.push(paint::span_of("missing"@, paint::ink(Role::Danger)))
    } else {
        let figured = match row.figure {
            Some(f) => chain_gauge(named, f.filled, f.heat, GAUGE_W as nat).push(
                paint::span_of("  "@ + f.percent, paint::ink(f.heat)),
            ),
            None => chain_gauge(named, 0, Role::Faint, GAUGE_W as nat).push(
                paint::span_of("    —"@, faint),
            ),
        };
        figured.push(paint::span_of(" / "@ + row.threshold + "%"@, faint))
    }
}

/// The trailer of a chain row as far as it fits: the projected switch, then the mark outermost;
/// the mark stays where only one of the two has room.
pub open spec fn trailer(used: int, hint: Option<SpanView>, mark: Option<SpanView>, width: int) ->
    Seq<SpanView> {
    match (hint, mark) {
        (Some(h), Some(m)) => if used + paint::text_columns(h.text) + 1 + paint::text_columns(
            m.text,
        ) < width {
            Seq::empty().push(h).push(paint::raw_of(" "@)).push(m)
        } else if used + paint::text_columns(m.text) < width {
            Seq::empty().push(m)
        } else {
            Seq::empty()
        },
        (Some(h), None) => if used + paint::text_columns(h.text) < width {
            Seq::empty().push(h)
        } else {
            Seq::empty()
        },
        (None, Some(m)) => if used + paint::text_columns(m.text) < width {
            Seq::empty().push(m)
        } else {
            Seq::empty()
        },
        (None, None) => Seq::empty(),
    }
}

/// A chain member's row.
pub open spec fn chain_line(
    row: ChainRowView,
    index: int,
    last: int,
    name_w: int,
    width: int,
    eta: Option<Seq<char>>,
) -> LineView {
    let head = chain_head(row, index, last, name_w);
    let used = paint::spans_columns(head);
    let hint = match eta {
        Some(t) => Some(paint::span_of("↩ ~"@ + t, paint::ink(Role::Faint))),
        None => None,
    };
    let mark = match row.reason {
        Some(r) => Some(chain_view::mark_of(r)),
        None => None,
    };
    let tail = trailer(used, hint, mark, width);
    paint::line_of(
        if tail.len() > 0 {
            head.push(
                paint::blanks_of(text::monus(width, used + paint::spans_columns(tail)) as nat),
            ) + tail
        } else {
            head
        },
    )
}

fn chain_head_spans(row: &ChainRow, index: usize, last: usize, name_w: usize) -> (r: Vec<Span>)
    requires
        index < usize::MAX,
    ensures
        paint::spans_view(r@) == chain_head(row@, index as int, last as int, name_w as int),
{
    let faint = paint::ink(Role::Faint);
    let mut v = paint::no_spans();
    paint::put(&mut v, rail_text(index, last), faint);
    let n = text::joined(&text::decimal_text((index + 1) as u64), " ");
    paint::put(&mut v, &n, faint);
    let pad = text::fill_text(' ', name_w.saturating_sub(row.name.as_str().unicode_len()));
    let t = text::joined3(&row.name, &pad, "  ");
    let role = if row.active {
        Role::Accent2
    } else {
        Role::Dim
    };
    paint::put(&mut v, &t, paint::ink(role));
    if !row.known {
        paint::put(&mut v, "missing", paint::ink(Role::Danger));
        return v;
    }
    match &row.figure {
        Some(f) => {
            put_chain_gauge(&mut v, f.filled, f.heat);
            let p = text::joined("  ", &f.percent);
            paint::put(&mut v, &p, paint::ink(f.heat));
        },
        None => {
            put_chain_gauge(&mut v, 0, Role::Faint);
            paint::put(&mut v, "    —", faint);
        },
    }
    let u = text::joined3(" / ", &row.threshold, "%");
    paint::put(&mut v, &u, faint);
    v
}

fn trailer_spans(used: usize, hint: Option<Span>, mark: Option<Span>, width: u16) -> (r: Vec<Span>)
    ensures
        paint::spans_view(r@) == trailer(
            used as int,
            match hint {
                Some(h) => Some(h@),
                None => None,
            },
            match mark {
                Some(m) => Some(m@),
                None => None,
            },
            width as int,
        ),
{
    let w: usize = width as usize;
    let mut v = paint::no_spans();
    match (hint, mark) {
        (Some(h), Some(m)) => {
            let hw: usize = paint::columns(&h.text);
            let mw: usize = paint::columns(&m.text);
            if used.saturating_add(hw).saturating_add(1).saturating_add(mw) < w {
                paint::put_span(&mut v, h);
                paint::put_raw(&mut v, " ");
                paint::put_span(&mut v, m);
            } else if used.saturating_add(mw) < w {
                paint::put_span(&mut v, m);
            }
        },
        (Some(h), None) => {
            if used.saturating_add(paint::columns(&h.text)) < w {
                paint::put_span(&mut v, h);
            }
        },
        (None, Some(m)) => {
            if used.saturating_add(paint::columns(&m.text)) < w {
                paint::put_span(&mut v, m);
            }
        },
        (None, None) => {},
    }
    v
}

/// A chain member's row.
pub fn chain_row(
    row: &ChainRow,
    index: usize,
    last: usize,
    name_w: usize,
    width: u16,
    eta: Option<&str>,
) -> (r: Line)
    requires
        index < usize::MAX,
    ensures
        r@ == chain_line(
            row@,
            index as int,
            last as int,
            name_w as int,
            width as int,
            clock::opt_str(eta),
        ),
{
    let mut v = chain_head_spans(row, index, last, name_w);
    let used: usize = paint::columns_of(&v);
    let hint = match eta {
        Some(t) => {
            let s = text::joined("↩ ~", t);
            Some(paint::span(&s, paint::ink(Role::Faint)))
        },
        None => None,
    };
    let mark = match &row.reason {
        Some(r) => Some(chain_view::reason_marker(r)),
        None => None,
    };
    let tail = trailer_spans(used, hint, mark, width);
    assert(paint::spans_view(tail@).len() == tail@.len());
    if tail.len() > 0 {
        let tw: usize = paint::columns_of(&tail);
        paint::put_blanks(&mut v, (width as usize).saturating_sub(used.saturating_add(tw)));
        paint::put_spans(&mut v, &tail);
    }
    paint::line(v)
}

/// The longest name of the first `n` members.
pub open spec fn longest_name(rows: Seq<ChainRowView>, n: nat) -> int
    decreases n,
{
    if n == 0 {
        0
    } else {
        text::max_int(longest_name(rows, (n - 1) as nat), rows[n - 1].name.len() as int)
    }
}

/// The time to the projected switch, on the row it goes to.
pub open spec fn eta_for(p: Option<ProjectionView>, name: Seq<char>) -> Option<Seq<char>> {
    match p {
        Some(ProjectionView::To { target, eta }) => if target == name {
            Some(eta)
        } else {
            None
        },
        _ => None,
    }
}

/// The rows of the first `n` members.
pub open spec fn flow_rows(
    rows: Seq<ChainRowView>,
    p: Option<ProjectionView>,
    name_w: int,
    width: int,
    n: nat,
) -> Seq<LineView>
    decreases n,
{
    if n == 0 {
        Seq::empty()
    } else {
        flow_rows(rows, p, name_w, width, (n - 1) as nat).push(
            chain_line(
                rows[n - 1],
                n - 1,
                rows.len() - 1,
                name_w,
                width,
                eta_for(p, rows[n - 1].name),
            ),
        )
    }
}

/// What happens once every member is spent.
pub open spec fn spent_caption(stop: bool) -> LineView {
    let head = Seq::empty().push(paint::raw_of("  "@));
    paint::line_of(
        if stop {
            layout::pill_spans(head, "stop"@, paint::ink(Role::Danger).strong()).push(
                paint::span_of(" when all spent"@, paint::ink(Role::Faint)),
            )
        } else {
            layout::pill_spans(head, "stay"@, paint::ink(Role::Dim).strong()).push(
                paint::span_of(" on last when all spent"@, paint::ink(Role::Faint)),
            )
        },
    )
}

/// A caption below the chain.
pub open spec fn chain_caption(s: Seq<char>) -> LineView {
    paint::line_of(
        Seq::empty().push(paint::raw_of("  "@)).push(
            paint::span_of(s, paint::ink(Role::Faint)),
        ),
    )
}

fn caption(s: &str) -> (r: Line)
    ensures
        r@ == chain_caption(s@),
{
    let mut v = paint::no_spans();
    paint::put_raw(&mut v, "  ");
    paint::put(&mut v, s, paint::ink(Role::Faint));
    paint::line(v)
}

fn spent_line(stop: bool) -> (r: Line)
    ensures
        r@ == spent_caption(stop),
{
    let mut v = paint::no_spans();
    paint::put_raw(&mut v, "  ");
    if stop {
        layout::put_pill(&mut v, "stop", paint::ink(Role::Danger).strong());
        paint::put(&mut v, " when all spent", paint::ink(Role::Faint));
    } else {
        layout::put_pill(&mut v, "stay", paint::ink(Role::Dim).strong());
        paint::put(&mut v, " on last when all spent", paint::ink(Role::Faint));
    }
    paint::line(v)
}

/// When the chain resumes: the account, and the time to it.
pub struct Resume {
    pub name: String,
    pub eta: String,
}

/// The caption of a chain that resumes.
pub open spec fn resume_caption(r: Resume) -> Seq<char> {
    "resumes: "@ + r.name@ + " in ~"@ + r.eta@
}

/// The fallback chain below the accounts: its members, what happens once all are spent, what is
/// projected, and when it resumes.
pub open spec fn chain_flow(
    rows: Seq<ChainRowView>,
    p: Option<ProjectionView>,
    stop: bool,
    resume: Option<Resume>,
    width: int,
) -> Seq<LineView> {
    if rows.len() == 0 {
        let dim = paint::ink(Role::Dim);
        Seq::empty().push(paint::single_of("no fallback chain yet"@, dim)) + chain_view::prose(
            "fallback tab adds accounts that rotate automatically when a 5h window crosses its threshold."@,
            width as nat,
            dim,
        )
    } else {
        let name_w = text::min_int(text::max_int(longest_name(rows, rows.len()), 6), 18);
        let listed = flow_rows(rows, p, name_w, width, rows.len()).push(spent_caption(stop));
        let projected = match p {
            Some(ProjectionView::Off { eta }) => listed.push(
                chain_caption("stops all in ~"@ + eta),
            ),
            _ => listed,
        };
        match resume {
            Some(r) => projected.push(chain_caption(resume_caption(r))),
            None => projected,
        }
    }
}

/// The fallback chain below the accounts.
pub fn fallback_flow_lines(
    rows: &Vec<ChainRow>,
    projection: &Option<Projection>,
    stop: bool,
    resume: &Option<Resume>,
    width: u16,
) -> (r: Vec<Line>)
    requires
        rows@.len() < usize::MAX,
    ensures
        paint::lines_view(r@) == chain_flow(
            chain_row_views(rows@),
            opt_projection(*projection),
            stop,
            *resume,
            width as int,
        ),
{
    let mut out = paint::no_lines();
    let ghost all = chain_row_views(rows@);
    let ghost p = opt_projection(*projection);
    assert(all.len() == rows@.len());
    if rows.len() == 0 {
        let dim = paint::ink(Role::Dim);
        paint::add_line(&mut out, paint::single("no fallback chain yet", dim));
        chain_view::put_prose(
            &mut out,
            "fallback tab adds accounts that rotate automatically when a 5h window crosses its threshold.",
            width as usize,
            dim,
        );
        return out;
    }
    let mut longest: usize = 0;
    let mut i: usize = 0;
    while i < rows.len()
        invariant
            i <= rows@.len(),
            all == chain_row_views(rows@),
            longest == longest_name(all, i as nat),
        decreases rows@.len() - i,
    {
        assert(all[i as int] == rows@[i as int]@);
        longest = text::max_usize(longest, rows[i].name.as_str().unicode_len());
        i = i + 1;
    }
    let name_w: usize = text::min_usize(text::max_usize(longest, 6), 18);
    let last: usize = rows.len() - 1;
    let mut k: usize = 0;
    while k < rows.len()
        invariant
            k <= rows@.len(),
            rows@.len() < usize::MAX,
            last == rows@.len() - 1,
            all == chain_row_views(rows@),
            all.len() == rows@.len(),
            p == opt_projection(*projection),
            paint::lines_view(out@) == flow_rows(
                all,
                p,
                name_w as int,
                width as int,
                k as nat,
            ),
        decreases rows@.len() - k,
    {
        assert(all[k as int] == rows@[k as int]@);
        let eta: Option<&str> = match projection {
            Some(Projection::To { target, eta }) => if text::same_text(target, &rows[k].name) {
                Some(eta.as_str())
            } else {
                None
            },
            _ => None,
        };
        paint::add_line(&mut out, chain_row(&rows[k], k, last, name_w, width, eta));
        k = k + 1;
    }
    paint::add_line(&mut out, spent_line(stop));
    if let Some(Projection::Off { eta }) = projection {
        let t = text::joined("stops all in ~", eta);
        paint::add_line(&mut out, caption(&t));
    }
    if let Some(r) = resume {
        let t = text::joined(&text::joined3("resumes: ", &r.name, " in ~"), &r.eta);
        paint::add_line(&mut out, caption(&t));
    }
    out
}

/// Where the row has room for one of the two, a blocked member keeps its mark and loses the
/// projected switch.
pub proof fn marks_outlast_hints(used: int, hint: SpanView, mark: SpanView, width: int)
    requires
        used + paint::text_columns(mark.text) < width,
    ensures
        trailer(used, Some(hint), Some(mark), width).last() == mark,
        trailer(used, None, Some(mark), width).last() == mark,
{
}

} // verus!
