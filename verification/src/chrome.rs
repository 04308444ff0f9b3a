//! The frame around every screen: tab strip, header, banner, toasts.

use vstd::prelude::*;

use crate::feed::Impact;
use crate::figures;
use crate::figures::{Figure, FigureView, GaugeFit};
use crate::forms::{Banner, BannerSeverity, BannerView, Toast, ToastKind, ToastView};
use crate::paint;
use crate::paint::{Fill, Line, LineView, Role, Span, SpanView, Style};
use crate::state::TabMarks;
use crate::tabs;
use crate::tabs::{TAB_COUNT, Tab};
use crate::text;
use crate::wrapping;

verus! {

broadcast use text::lemma_views_push;

/// Blanks between two tabs.
pub const SEP_WIDTH: usize = 3;

/// A tab as the strip names it.
pub open spec fn strip_name(tab: Tab) -> Seq<char> {
    match tab {
        Tab::Overview => "overview"@,
        Tab::Usage => "usage"@,
        Tab::Tokens => "tokens"@,
        Tab::Setup => "setup"@,
        Tab::Fallback => "fallback"@,
        Tab::Config => "config"@,
        Tab::Status => "status"@,
        Tab::Plugin => "plugin"@,
    }
}

/// A tab as the strip names it.
pub fn strip_label(tab: Tab) -> (r: &'static str)
    ensures
        r@ == strip_name(tab),
{
    match tab {
        Tab::Overview => "overview",
        Tab::Usage => "usage",
        Tab::Tokens => "tokens",
        Tab::Setup => "setup",
        Tab::Fallback => "fallback",
        Tab::Config => "config",
        Tab::Status => "status",
        Tab::Plugin => "plugin",
    }
}

/// The strip names the tabs by their titles in lower case.
pub proof fn strip_names_are_titles(tab: Tab)
    ensures
        strip_name(tab).len() == tab.name().len() <= 8,
        text::same_ignoring_case(strip_name(tab), tab.name()),
{
    reveal_strlit("overview");
    reveal_strlit("Overview");
    reveal_strlit("usage");
    reveal_strlit("Usage");
    reveal_strlit("tokens");
    reveal_strlit("Tokens");
    reveal_strlit("setup");
    reveal_strlit("Setup");
    reveal_strlit("fallback");
    reveal_strlit("Fallback");
    reveal_strlit("config");
    reveal_strlit("Config");
    reveal_strlit("status");
    reveal_strlit("Status");
    reveal_strlit("plugin");
    reveal_strlit("Plugin");
}

/// Cells of the first `n` tabs with the blanks between them.
pub open spec fn strip_cells(n: nat) -> int
    decreases n,
{
    if n == 0 {
        0
    } else {
        strip_cells((n - 1) as nat) + tabs::tab_at(n - 1).name().len() + if n > 1 {
            SEP_WIDTH as int
        } else {
            0
        }
    }
}

/// Cells of the whole strip.
pub fn full_strip_width() -> (r: usize)
    ensures
        r == strip_cells(TAB_COUNT as nat),
{
    let mut total: usize = 0;
    let mut i: usize = 0;
    while i < TAB_COUNT
        invariant
            i <= TAB_COUNT,
            total == strip_cells(i as nat),
            total <= 11 * i,
        decreases TAB_COUNT - i,
    {
        let tab = Tab::at(i);
        proof {
            strip_names_are_titles(tab);
        }
        let sep: usize = if i > 0 {
            SEP_WIDTH
        } else {
            0
        };
        total = total + (sep + tab.title().unicode_len());
        i = i + 1;
    }
    total
}

/// Whether every tab fits.
pub fn fits_normal(avail: usize) -> (r: bool)
    ensures
        r == (strip_cells(TAB_COUNT as nat) <= avail),
{
    full_strip_width() <= avail
}

/// The hue of a tab that is not shown: what last happened there.
pub open spec fn mark_role(mark: Option<ToastKind>) -> Role {
    match mark {
        None => Role::Dim,
        Some(ToastKind::Success) => Role::Success,
        Some(ToastKind::Danger) => Role::Danger,
        Some(ToastKind::Warning) => Role::Warning,
        Some(ToastKind::Info) => Role::Text,
    }
}

/// The hue of a tab that is not shown.
pub fn activity_color(mark: Option<ToastKind>) -> (r: Role)
    ensures
        r == mark_role(mark),
{
    match mark {
        None => Role::Dim,
        Some(ToastKind::Success) => Role::Success,
        Some(ToastKind::Danger) => Role::Danger,
        Some(ToastKind::Warning) => Role::Warning,
        Some(ToastKind::Info) => Role::Text,
    }
}

/// The style of the tab that is shown.
#[verifier::allow_in_spec]
pub fn shown_tab() -> (r: Style)
    returns
        paint::ink(Role::Accent).strong().ruled(),
{
    paint::ink(Role::Accent).strong().ruled()
}

/// The first `n` tabs of the strip.
pub open spec fn strip_spans(current: Tab, marks: TabMarks, n: nat) -> Seq<SpanView>
    decreases n,
{
    if n == 0 {
        Seq::empty()
    } else {
        let tab = tabs::tab_at(n - 1);
        let before = strip_spans(current, marks, (n - 1) as nat);
        let gapped = if n > 1 {
            before.push(paint::span_of("   "@, paint::ink(Role::Dim)))
        } else {
            before
        };
        gapped.push(
            paint::span_of(
                strip_name(tab),
                if tab == current {
                    shown_tab()
                } else {
                    paint::ink(mark_role(marks.at(tab)))
                },
            ),
        )
    }
}

/// The strip with every tab.
pub fn build_normal(current: Tab, marks: &TabMarks) -> (r: Vec<Span>)
    ensures
        paint::spans_view(r@) == strip_spans(current, *marks, TAB_COUNT as nat),
{
    let mut v = paint::no_spans();
    let mut i: usize = 0;
    while i < TAB_COUNT
        invariant
            i <= TAB_COUNT,
            paint::spans_view(v@) == strip_spans(current, *marks, i as nat),
        decreases TAB_COUNT - i,
    {
        let tab = Tab::at(i);
        if i > 0 {
            paint::put(&mut v, "   ", paint::ink(Role::Dim));
        }
        let style = if tab == current {
            shown_tab()
        } else {
            paint::ink(activity_color(marks.get(tab)))
        };
        paint::put(&mut v, strip_label(tab), style);
        i = i + 1;
    }
    v
}

/// The shown tab alone, with a mark on each side that has more tabs.
pub open spec fn overflow_spans(current: Tab) -> Seq<SpanView> {
    let faint = paint::ink(Role::Faint);
    let left = if current.place() > 0 {
        Seq::empty().push(paint::span_of("‹  "@, faint))
    } else {
        Seq::empty()
    };
    let named = left.push(paint::span_of(strip_name(current), shown_tab()));
    if current.place() < TAB_COUNT - 1 {
        named.push(paint::span_of("  ›"@, faint))
    } else {
        named
    }
}

/// The shown tab alone.
pub fn build_overflow(current: Tab) -> (r: Vec<Span>)
    ensures
        paint::spans_view(r@) == overflow_spans(current),
{
    let mut v = paint::no_spans();
    let at: usize = current.index();
    if at > 0 {
        paint::put(&mut v, "‹  ", paint::ink(Role::Faint));
    }
    paint::put(&mut v, strip_label(current), shown_tab());
    if at < TAB_COUNT - 1 {
        paint::put(&mut v, "  ›", paint::ink(Role::Faint));
    }
    v
}

/// The tab strip in `avail` cells.
pub fn tab_strip(avail: usize, current: Tab, marks: &TabMarks) -> (r: Line)
    ensures
        r@ == paint::line_of(
            if strip_cells(TAB_COUNT as nat) <= avail {
                strip_spans(current, *marks, TAB_COUNT as nat)
            } else {
                overflow_spans(current)
            },
        ),
{
    if fits_normal(avail) {
        paint::line(build_normal(current, marks))
    } else {
        paint::line(build_overflow(current))
    }
}

/// How the background helper is doing.
#[derive(Clone, Copy, Debug, PartialEq, Eq, Structural)]
pub enum DaemonHealth {
    Absent,
    Stale,
    Fresh,
}

/// The hue of the helper's dot; none hides it.
pub open spec fn daemon_role(health: DaemonHealth) -> Option<Role> {
    match health {
        DaemonHealth::Absent => None,
        DaemonHealth::Stale => Some(Role::Warning),
        DaemonHealth::Fresh => Some(Role::Success),
    }
}

/// The hue of the helper's dot.
pub fn daemon_dot_color(health: DaemonHealth) -> (r: Option<Role>)
    ensures
        r == daemon_role(health),
{
    match health {
        DaemonHealth::Absent => None,
        DaemonHealth::Stale => Some(Role::Warning),
        DaemonHealth::Fresh => Some(Role::Success),
    }
}

/// The hue of the service's dot.
pub open spec fn service_role(worst: Impact) -> Role {
    match worst {
        Impact::Critical => Role::Danger,
        Impact::Major => Role::Danger,
        Impact::Minor => Role::Warning,
        Impact::Maintenance => Role::Dim,
        Impact::Nothing => Role::Success,
        Impact::Other => Role::Success,
    }
}

/// The hue of the service's dot.
pub fn status_dot_color(worst: Impact) -> (r: Role)
    ensures
        r == service_role(worst),
{
    match worst {
        Impact::Critical => Role::Danger,
        Impact::Major => Role::Danger,
        Impact::Minor => Role::Warning,
        Impact::Maintenance => Role::Dim,
        Impact::Nothing => Role::Success,
        Impact::Other => Role::Success,
    }
}

/// The left part of the first header row.
pub open spec fn brand_head(health: DaemonHealth) -> Seq<SpanView> {
    let brand = Seq::empty().push(paint::span_of("clauth"@, paint::ink(Role::Text).strong()));
    match daemon_role(health) {
        Some(role) => brand.push(paint::raw_of("  "@)).push(
            paint::span_of("● "@, paint::ink(role)),
        ).push(paint::span_of("daemon"@, paint::ink(Role::Dim))),
        None => brand,
    }
}

/// The first header row: the brand, the helper's dot, and the version at the right edge.
pub fn brand_row(health: DaemonHealth, version: &str, width: u16) -> (r: Line)
    ensures
        r@ == paint::line_of(
            brand_head(health).push(
                paint::blanks_of(
                    text::monus(
                        width as int,
                        (paint::chars_in(brand_head(health)) + version@.len()) as int,
                    ) as nat,
                ),
            ).push(paint::span_of(version@, paint::ink(Role::Dim))),
        ),
{
    let mut v = paint::no_spans();
    paint::put(&mut v, "clauth", paint::ink(Role::Text).strong());
    if let Some(role) = daemon_dot_color(health) {
        paint::put_raw(&mut v, "  ");
        paint::put(&mut v, "● ", paint::ink(role));
        paint::put(&mut v, "daemon", paint::ink(Role::Dim));
    }
    let used: usize = paint::chars_count(&v).saturating_add(version.unicode_len());
    paint::put_blanks(&mut v, (width as usize).saturating_sub(used));
    paint::put(&mut v, version, paint::ink(Role::Dim));
    paint::line(v)
}

/// How many accounts there are, in words.
pub open spec fn count_text(n: nat) -> Seq<char> {
    text::decimal(n) + " account"@ + figures::plural_ending(n as int)
}

/// Cells of the service's name with its dot.
pub open spec fn feed_cells(feed: Seq<char>) -> int {
    2 + feed.len() as int
}

/// Cells left for the gauge on the second header row.
pub open spec fn gauge_room(n: nat, feed: Seq<char>, width: int) -> int {
    text::monus(width, count_text(n).len() + 3 + feed_cells(feed) + 1)
}

fn count_label(n: usize) -> (r: String)
    ensures
        r@ == count_text(n as nat),
{
    text::joined3(&text::decimal_text(n as u64), " account", figures::plural(n))
}

/// Cells left for the gauge on the second header row.
pub fn gauge_budget(n: usize, feed: &str, width: u16) -> (r: usize)
    ensures
        r == gauge_room(n as nat, feed@, width as int),
{
    let head: usize = count_label(n).as_str().unicode_len();
    let used: usize = head.saturating_add(6).saturating_add(feed.unicode_len());
    (width as usize).saturating_sub(used)
}

/// The left part of the second header row.
pub open spec fn accounts_head(
    n: nat,
    fit: GaugeFit,
    name: Seq<char>,
    figure: Option<FigureView>,
    running: bool,
) -> Seq<SpanView> {
    let counted = Seq::empty().push(paint::span_of(count_text(n), paint::ink(Role::Faint)));
    if fit.visible {
        counted.push(paint::span_of(" · "@, paint::ink(Role::Faint))) + figures::gauge_line(
            fit,
            name,
            figure,
            running,
        )
    } else {
        counted
    }
}

/// The second header row: the count, the fitted gauge, and the service's dot at the right edge
/// where there is room to set it off.
pub open spec fn accounts_line(head: Seq<SpanView>, feed: Seq<char>, worst: Impact, width: int) ->
    LineView {
    let left = paint::chars_in(head) as int;
    let gapped = if width >= left + feed_cells(feed) + 1 {
        head.push(paint::blanks_of((width - left - feed_cells(feed)) as nat))
    } else {
        head
    };
    paint::line_of(
        gapped.push(paint::span_of("● "@, paint::ink(service_role(worst)))).push(
            paint::span_of(feed, paint::ink(Role::Dim)),
        ),
    )
}

/// The second header row.
pub fn accounts_row(
    n: usize,
    fit: GaugeFit,
    name: &str,
    figure: &Option<Figure>,
    running: bool,
    feed: &str,
    worst: Impact,
    width: u16,
) -> (r: Line)
    ensures
        r@ == accounts_line(
            accounts_head(n as nat, fit, name@, figures::opt_figure(*figure), running),
            feed@,
            worst,
            width as int,
        ),
{
    let mut v = paint::no_spans();
    let count = count_label(n);
    paint::put(&mut v, &count, paint::ink(Role::Faint));
    if fit.visible {
        paint::put(&mut v, " · ", paint::ink(Role::Faint));
        let gauge = figures::gauge_spans(fit, name, figure, running);
        paint::put_spans(&mut v, &gauge);
    }
    let left: usize = paint::chars_count(&v);
    let status: usize = feed.unicode_len().saturating_add(2);
    let need: usize = left.saturating_add(status).saturating_add(1);
    if width as usize >= need {
        paint::put_blanks(&mut v, width as usize - left - status);
    }
    paint::put(&mut v, "● ", paint::ink(status_dot_color(worst)));
    paint::put(&mut v, feed, paint::ink(Role::Dim));
    paint::line(v)
}

/// The logo; its eyes close for a moment every six seconds.
pub open spec fn logo(elapsed_ms: int) -> Seq<LineView> {
    let style = paint::ink(Role::Accent2);
    Seq::empty().push(
        paint::single_of(
            if elapsed_ms % 6000 < 200 {
                " ▐█████▌ "@
            } else {
                " ▐▛███▜▌ "@
            },
            style,
        ),
    ).push(paint::single_of("▝▜█████▛▘"@, style)).push(paint::single_of("  ▘▘ ▝▝  "@, style))
}

/// The logo.
pub fn logo_lines(elapsed_ms: u64) -> (r: Vec<Line>)
    ensures
        paint::lines_view(r@) == logo(elapsed_ms as int),
{
    let style = paint::ink(Role::Accent2);
    let top = if elapsed_ms % 6000 < 200 {
        " ▐█████▌ "
    } else {
        " ▐▛███▜▌ "
    };
    let mut v = paint::no_lines();
    paint::add_line(&mut v, paint::single(top, style));
    paint::add_line(&mut v, paint::single("▝▜█████▛▘", style));
    paint::add_line(&mut v, paint::single("  ▘▘ ▝▝  ", style));
    v
}

/// The style of a banner.
pub open spec fn banner_style(severity: BannerSeverity) -> Style {
    match severity {
        BannerSeverity::Danger => paint::ink(Role::Danger).on(Fill::DangerTint),
        BannerSeverity::Warning => paint::ink(Role::Warning).on(Fill::WarningTint),
    }
}

/// The banner above the body.
pub open spec fn banner_text(b: BannerView) -> LineView {
    let style = banner_style(b.severity);
    paint::line_of(
        Seq::empty().push(paint::span_of(" ! "@, style)).push(paint::span_of(b.message, style)),
    )
}

/// The banner above the body.
pub fn banner_line(banner: &Banner) -> (r: Line)
    ensures
        r@ == banner_text(banner@),
{
    let style = match banner.severity {
        BannerSeverity::Danger => paint::ink(Role::Danger).on(Fill::DangerTint),
        BannerSeverity::Warning => paint::ink(Role::Warning).on(Fill::WarningTint),
    };
    let mut v = paint::no_spans();
    paint::put(&mut v, " ! ", style);
    paint::put(&mut v, &banner.message, style);
    paint::line(v)
}

/// A line without the carriage return before its line feed.
pub open spec fn without_return(s: Seq<char>) -> Seq<char> {
    if s.len() > 0 && s.last() == '\r' {
        s.drop_last()
    } else {
        s
    }
}

/// The lines of a text: cut at line feeds, a last empty line does not count.
pub open spec fn text_lines(s: Seq<char>) -> Seq<Seq<char>>
    decreases s.len(),
    via text_lines_decreases
{
    let head = text::before_char(s, '\n');
    if s.len() == 0 {
        Seq::empty()
    } else if head.len() == s.len() {
        seq![head]
    } else {
        seq![without_return(head)] + text_lines(s.skip(head.len() as int + 1))
    }
}

#[via_fn]
proof fn text_lines_decreases(s: Seq<char>) {
    lemma_before_char_len(s, '\n');
}

proof fn lemma_before_char_len(s: Seq<char>, c: char)
    ensures
        text::before_char(s, c).len() <= s.len(),
    decreases s.len(),
{
    if s.len() > 0 && s[0] != c {
        lemma_before_char_len(s.drop_first(), c);
    }
}

/// The lines of a text.
pub fn split_lines(s: &str) -> (r: Vec<String>)
    ensures
        text::views(r@) == text_lines(s@),
{
    let n: usize = s.unicode_len();
    let mut out: Vec<String> = Vec::new();
    let mut at: usize = 0;
    assert(text::views(out@) + text_lines(s@.skip(0)) =~= text_lines(s@)) by {
        assert(s@.skip(0) =~= s@);
    }
    while at < n
        invariant
            at <= n,
            n == s@.len(),
            text::views(out@) + text_lines(s@.skip(at as int)) == text_lines(s@),
        decreases n - at,
    {
        let rest = s.substring_char(at, n);
        let ghost before = text::views(out@);
        assert(rest@ =~= s@.skip(at as int));
        proof {
            lemma_before_char_len(rest@, '\n');
        }
        let head = text::before_char_text(rest, '\n');
        let len: usize = head.as_str().unicode_len();
        if len == n - at {
            out.push(head);
            assert(text::views(out@) =~= before + text_lines(rest@));
            return out;
        }
        let line = if len > 0 && head.as_str().get_char(len - 1) == '\r' {
            assert(head@.subrange(0, len - 1) =~= head@.drop_last());
            head.as_str().substring_char(0, len - 1).to_string()
        } else {
            head.as_str().to_string()
        };
        assert(line@ == without_return(head@));
        out.push(line);
        assert(rest@.skip(len + 1) =~= s@.skip(at + len + 1));
        assert(text::views(out@) + text_lines(s@.skip(at + len + 1)) =~= before + (seq![
            without_return(head@),
        ] + text_lines(s@.skip(at + len + 1))));
        at = at + len + 1;
    }
    proof {
        assert(s@.skip(n as int).len() == 0);
        assert(text_lines(s@.skip(n as int)) =~= Seq::empty());
        assert(text::views(out@) =~= text_lines(s@));
    }
    out
}

/// The widest of the first `n` lines.
pub open spec fn widest(lines: Seq<Seq<char>>, n: nat) -> int
    decreases n,
{
    if n == 0 {
        0
    } else {
        text::max_int(widest(lines, (n - 1) as nat), lines[n - 1].len() as int)
    }
}

/// The widest line of the first `n` toasts.
pub open spec fn widest_toast(toasts: Seq<ToastView>, n: nat) -> int
    decreases n,
{
    if n == 0 {
        0
    } else {
        let lines = text_lines(toasts[n - 1].body);
        text::max_int(widest_toast(toasts, (n - 1) as nat), widest(lines, lines.len()))
    }
}

/// Most cells a toast's text may take on a screen of the given width.
pub open spec fn toast_cap(screen: int) -> int {
    text::min_int(36, text::monus(screen, 5))
}

/// Cells of the toasts' text: the widest line, within the cap.
pub open spec fn toast_cells(toasts: Seq<ToastView>, screen: int) -> int {
    text::min_int(widest_toast(toasts, toasts.len()), toast_cap(screen))
}

fn widest_of(lines: &Vec<String>) -> (r: usize)
    ensures
        r == widest(text::views(lines@), lines@.len()),
{
    let mut best: usize = 0;
    let mut i: usize = 0;
    while i < lines.len()
        invariant
            i <= lines@.len(),
            best == widest(text::views(lines@), i as nat),
        decreases lines@.len() - i,
    {
        let len: usize = lines[i].as_str().unicode_len();
        assert(text::views(lines@)[i as int] == lines@[i as int]@);
        best = text::max_usize(best, len);
        i = i + 1;
    }
    best
}

/// Cells of the toasts' text.
pub fn toast_width(toasts: &Vec<Toast>, screen: u16) -> (r: u16)
    ensures
        r == toast_cells(crate::forms::toast_views(toasts@), screen as int),
{
    let cap: u16 = text::min_u16(36, screen.saturating_sub(5));
    let ghost views = crate::forms::toast_views(toasts@);
    let mut best: usize = 0;
    let mut i: usize = 0;
    while i < toasts.len()
        invariant
            i <= toasts@.len(),
            views == crate::forms::toast_views(toasts@),
            best == widest_toast(views, i as nat),
        decreases toasts@.len() - i,
    {
        let lines = split_lines(&toasts[i].body);
        assert(views[i as int] == toasts@[i as int]@);
        assert(text::views(lines@).len() == lines@.len());
        best = text::max_usize(best, widest_of(&lines));
        i = i + 1;
    }
    text::min_u16(text::cells(best), cap)
}

/// The hue of a toast.
pub open spec fn toast_role(kind: ToastKind) -> Role {
    match kind {
        ToastKind::Info => Role::Info,
        ToastKind::Success => Role::Success,
        ToastKind::Warning => Role::Warning,
        ToastKind::Danger => Role::Danger,
    }
}

/// A row of a toast.
pub open spec fn toast_row(kind: ToastKind, s: Seq<char>, style: Style) -> LineView {
    paint::line_of(
        Seq::empty().push(
            paint::span_of("┃ "@, paint::ink(toast_role(kind)).on(Fill::Sunken)),
        ).push(paint::span_of(s, style)),
    )
}

/// The rows of one line of a toast, wrapped.
pub open spec fn toast_rows(kind: ToastKind, line: Seq<char>, width: nat, style: Style) -> Seq<
    LineView,
> {
    let segs = wrapping::eagerly_wrapped(line, width);
    Seq::new(segs.len(), |i: int| toast_row(kind, segs[i], style))
}

/// The style of a toast's first line.
#[verifier::allow_in_spec]
pub fn toast_title() -> (r: Style)
    returns
        paint::ink(Role::Text).on(Fill::Sunken).strong(),
{
    paint::ink(Role::Text).on(Fill::Sunken).strong()
}

/// The style of a toast's further lines.
#[verifier::allow_in_spec]
pub fn toast_detail() -> (r: Style)
    returns
        paint::ink(Role::Dim).on(Fill::Sunken),
{
    paint::ink(Role::Dim).on(Fill::Sunken)
}

/// The first `n` lines of a toast; there is a first line even where the body has none.
pub open spec fn toast_body(kind: ToastKind, lines: Seq<Seq<char>>, width: nat, n: nat) -> Seq<
    LineView,
>
    decreases n,
{
    if n == 0 {
        Seq::empty()
    } else {
        toast_body(kind, lines, width, (n - 1) as nat) + toast_rows(
            kind,
            lines[n - 1],
            width,
            if n == 1 {
                toast_title()
            } else {
                toast_detail()
            },
        )
    }
}

/// The lines of a toast's body, at least one.
pub open spec fn body_lines(body: Seq<char>) -> Seq<Seq<char>> {
    let lines = text_lines(body);
    if lines.len() == 0 {
        seq![Seq::empty()]
    } else {
        lines
    }
}

fn put_toast_rows(out: &mut Vec<Line>, kind: ToastKind, line: &str, width: usize, style: Style)
    ensures
        paint::lines_view(final(out)@) == paint::lines_view(old(out)@) + toast_rows(
            kind,
            line@,
            width as nat,
            style,
        ),
{
    let role = match kind {
        ToastKind::Info => Role::Info,
        ToastKind::Success => Role::Success,
        ToastKind::Warning => Role::Warning,
        ToastKind::Danger => Role::Danger,
    };
    let segs = wrapping::word_wrap(line, width);
    let ghost all = text::views(segs@);
    let ghost start = paint::lines_view(out@);
    let ghost rows = toast_rows(kind, line@, width as nat, style);
    let mut i: usize = 0;
    assert(start + rows.take(0) =~= start);
    while i < segs.len()
        invariant
            i <= segs@.len(),
            all == text::views(segs@),
            role == toast_role(kind),
            rows == Seq::new(all.len(), |j: int| toast_row(kind, all[j], style)),
            paint::lines_view(out@) == start + rows.take(i as int),
        decreases segs@.len() - i,
    {
        let mut v = paint::no_spans();
        paint::put(&mut v, "┃ ", paint::ink(role).on(Fill::Sunken));
        paint::put(&mut v, &segs[i], style);
        assert(all[i as int] == segs@[i as int]@);
        paint::add_line(out, paint::line(v));
        i = i + 1;
        assert(paint::lines_view(out@) =~= start + rows.take(i as int));
    }
    assert(rows.take(i as int) =~= rows);
}

/// The rows of a toast: its first line stands out, every line wraps to the width.
pub fn toast_lines(toast: &Toast, width: u16) -> (r: Vec<Line>)
    ensures
        paint::lines_view(r@) == toast_body(
            toast.kind,
            body_lines(toast.body@),
            width as nat,
            body_lines(toast.body@).len(),
        ),
{
    let mut out = paint::no_lines();
    let mut lines = split_lines(&toast.body);
    if lines.len() == 0 {
        let e = String::new();
        assert(e@ =~= Seq::empty());
        lines.push(e);
        assert(text::views(lines@) =~= seq![Seq::empty()]);
    }
    let ghost all = body_lines(toast.body@);
    assert(text::views(lines@) == all);
    assert(all.len() == lines@.len());
    let mut i: usize = 0;
    while i < lines.len()
        invariant
            i <= lines@.len(),
            all == text::views(lines@),
            paint::lines_view(out@) == toast_body(toast.kind, all, width as nat, i as nat),
        decreases lines@.len() - i,
    {
        assert(all[i as int] == lines@[i as int]@);
        let style = if i == 0 {
            toast_title()
        } else {
            toast_detail()
        };
        put_toast_rows(&mut out, toast.kind, &lines[i], width as usize, style);
        i = i + 1;
    }
    out
}

/// A rectangle of cells.
#[derive(Clone, Copy, Debug, PartialEq, Eq, Structural)]
pub struct Area {
    pub x: u16,
    pub y: u16,
    pub width: u16,
    pub height: u16,
}

/// Whether one rectangle lies inside another.
pub open spec fn inside(outer: Area, inner: Area) -> bool {
    &&& inner.x >= outer.x
    &&& inner.y >= outer.y
    &&& inner.x + inner.width <= outer.x + outer.width
    &&& inner.y + inner.height <= outer.y + outer.height
}

/// Whether one rectangle lies inside another.
pub fn fits_in(outer: Area, inner: Area) -> (r: bool)
    ensures
        r == inside(outer, inner),
{
    inner.x >= outer.x && inner.y >= outer.y && inner.x as u32 + inner.width as u32
        <= outer.x as u32 + outer.width as u32 && inner.y as u32 + inner.height as u32
        <= outer.y as u32 + outer.height as u32
}

/// Where the toast that starts `above` rows below the first goes: against the right edge, inset
/// by two cells.
pub open spec fn toast_area(screen: Area, content: int, above: int, height: u16) -> Area {
    Area {
        x: text::min_int(
            screen.x + text::monus(screen.width as int, content + 5),
            u16::MAX as int,
        ) as u16,
        y: text::min_int(screen.y + 2 + above, u16::MAX as int) as u16,
        width: (content + 3) as u16,
        height,
    }
}

/// Where a toast goes; none where it does not fit on the screen.
pub fn place_toast(screen: Area, content: u16, above: u16, height: u16) -> (r: Option<Area>)
    requires
        content <= 36,
    ensures
        r == ({
            let area = toast_area(screen, content as int, above as int, height);
            if inside(screen, area) {
                Some(area)
            } else {
                None
            }
        }),
{
    let area = Area {
        x: screen.x.saturating_add(screen.width.saturating_sub(content + 5)),
        y: screen.y.saturating_add(2).saturating_add(above),
        width: content + 3,
        height,
    };
    if fits_in(screen, area) {
        Some(area)
    } else {
        None
    }
}

/// Toasts keep to the cap, whatever they say.
pub proof fn toasts_keep_to_their_column(toasts: Seq<ToastView>, screen: int)
    requires
        0 <= screen,
    ensures
        0 <= toast_cells(toasts, screen) <= 36,
        toast_cells(toasts, screen) <= text::monus(screen, 5),
{
    lemma_widest_toast(toasts, toasts.len());
}

proof fn lemma_widest_toast(toasts: Seq<ToastView>, n: nat)
    ensures
        widest_toast(toasts, n) >= 0,
    decreases n,
{
    if n > 0 {
        lemma_widest_toast(toasts, (n - 1) as nat);
    }
}

} // verus!
