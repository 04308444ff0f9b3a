//! The Status tab on screen: the incidents, and the timeline of the selected one.

use vstd::prelude::*;

use crate::clock;
use crate::feed;
use crate::feed::{
    Component, ComponentView, Impact, Incident, IncidentUpdate, IncidentUpdateView, IncidentView,
    StatusFocus, StatusState, StatusStateView, Transition, TransitionView, UpdatePhase,
};
use crate::layout;
use crate::layout::Chrome;
use crate::paint;
use crate::paint::{Line, LineView, Role, Span, SpanView, Style};
use crate::text;
use crate::wrapping;

verus! {

/// Width of the key column.
pub const KEY_W: usize = 11;

/// Blanks between the key column and the values.
pub const KEY_GUTTER: usize = 2;

/// Rows of an incident in the list.
pub const ITEM_H: usize = 2;

/// Width of the phase column of a timeline.
pub const PHASE_W: usize = 13;

/// Bounds of the time column of a timeline.
pub const TIME_W_MIN: usize = 12;

pub const TIME_W_MAX: usize = 18;

/// Least width of the text of a timeline.
pub const BODY_W_MIN: usize = 8;

/// The first item of a window that keeps the cursor near its middle.
pub open spec fn first_item(cursor: int, viewport: int, total: int) -> int {
    if total <= viewport {
        0
    } else {
        text::min_int(text::monus(cursor, viewport / 2), total - viewport)
    }
}

/// The first item of a window that keeps the cursor near its middle.
pub fn first_visible_item(cursor: usize, viewport_items: usize, total: usize) -> (r: usize)
    ensures
        r == first_item(cursor as int, viewport_items as int, total as int),
{
    if total <= viewport_items {
        return 0;
    }
    let half: usize = viewport_items / 2;
    if cursor < half {
        0
    } else {
        text::min_usize(cursor - half, total - viewport_items)
    }
}

/// The item under the cursor is always inside the window.
pub proof fn windows_hold_the_cursor(cursor: int, viewport: int, total: int)
    requires
        0 <= cursor < total,
        viewport > 0,
    ensures
        first_item(cursor, viewport, total) <= cursor < first_item(cursor, viewport, total)
            + viewport,
        0 <= first_item(cursor, viewport, total),
        total >= viewport ==> first_item(cursor, viewport, total) + viewport <= total,
{
}

/// The hue of a phase: settled, under watch, or open.
#[verifier::allow_in_spec]
pub fn phase_text_color(phase: UpdatePhase) -> (r: Role)
    returns
        (match phase {
            UpdatePhase::Resolved => Role::Success,
            UpdatePhase::Completed => Role::Success,
            UpdatePhase::Monitoring => Role::Info,
            UpdatePhase::InProgress => Role::Info,
            UpdatePhase::Verifying => Role::Info,
            UpdatePhase::Identified => Role::Warning,
            UpdatePhase::Investigating => Role::Warning,
            UpdatePhase::Update => Role::Dim,
            UpdatePhase::Scheduled => Role::Dim,
            UpdatePhase::Other => Role::Dim,
        }),
{
    match phase {
        UpdatePhase::Resolved | UpdatePhase::Completed => Role::Success,
        UpdatePhase::Monitoring | UpdatePhase::InProgress | UpdatePhase::Verifying => Role::Info,
        UpdatePhase::Identified | UpdatePhase::Investigating => Role::Warning,
        UpdatePhase::Update | UpdatePhase::Scheduled | UpdatePhase::Other => Role::Dim,
    }
}

/// The hue of a severity.
#[verifier::allow_in_spec]
pub fn impact_color(impact: Impact) -> (r: Role)
    returns
        (match impact {
            Impact::Minor => Role::Warning,
            Impact::Major => Role::Danger,
            Impact::Critical => Role::Danger,
            Impact::Nothing => Role::Dim,
            Impact::Maintenance => Role::Dim,
            Impact::Other => Role::Dim,
        }),
{
    match impact {
        Impact::Minor => Role::Warning,
        Impact::Major | Impact::Critical => Role::Danger,
        Impact::Nothing | Impact::Maintenance | Impact::Other => Role::Dim,
    }
}

/// The hue of a component's status, in either of its spellings.
pub open spec fn component_hue(status: Seq<char>) -> Role {
    let s = text::trim(status);
    if text::same_ignoring_case(s, "operational"@) {
        Role::Success
    } else if text::same_ignoring_case(s, "degraded"@) || text::same_ignoring_case(
        s,
        "degraded_performance"@,
    ) {
        Role::Warning
    } else if text::same_ignoring_case(s, "partial outage"@) || text::same_ignoring_case(
        s,
        "partial_outage"@,
    ) || text::same_ignoring_case(s, "major outage"@) || text::same_ignoring_case(
        s,
        "major_outage"@,
    ) {
        Role::Danger
    } else if text::same_ignoring_case(s, "maintenance"@) || text::same_ignoring_case(
        s,
        "under_maintenance"@,
    ) {
        Role::Dim
    } else {
        Role::Faint
    }
}

/// The hue of a component's status.
pub fn component_status_color(status: &str) -> (r: Role)
    ensures
        r == component_hue(status@),
{
    let s = text::trim_text(status);
    if text::eq_ignoring_case(s, "operational") {
        Role::Success
    } else if text::eq_ignoring_case(s, "degraded") || text::eq_ignoring_case(
        s,
        "degraded_performance",
    ) {
        Role::Warning
    } else if text::eq_ignoring_case(s, "partial outage") || text::eq_ignoring_case(
        s,
        "partial_outage",
    ) || text::eq_ignoring_case(s, "major outage") || text::eq_ignoring_case(s, "major_outage") {
        Role::Danger
    } else if text::eq_ignoring_case(s, "maintenance") || text::eq_ignoring_case(
        s,
        "under_maintenance",
    ) {
        Role::Dim
    } else {
        Role::Faint
    }
}

/// The title row of an incident.
pub open spec fn title_row(title: Seq<char>, selected: bool, focused: bool, width: int) -> LineView {
    let active = selected && focused;
    paint::line_of(
        layout::padded(
            Seq::empty().push(
                if active {
                    paint::span_of(
                        "❯ "@,
                        layout::tinted(paint::ink(Role::Accent).strong(), selected),
                    )
                } else {
                    paint::span_of("  "@, layout::tinted(paint::ink(Role::Plain), selected))
                },
            ).push(
                paint::span_of(
                    text::clipped(title, text::monus(width, 2) as nat),
                    layout::tinted(
                        if active {
                            paint::ink(Role::Text).strong()
                        } else {
                            paint::ink(Role::Body)
                        },
                        selected,
                    ),
                ),
            ),
            width,
            selected,
        ),
    )
}

fn title_line(title: &str, selected: bool, focused: bool, width: usize) -> (r: Line)
    ensures
        r@ == title_row(title@, selected, focused, width as int),
{
    let active = selected && focused;
    let mut v = paint::no_spans();
    if active {
        paint::put(&mut v, "❯ ", layout::tinted(paint::ink(Role::Accent).strong(), selected));
    } else {
        paint::put(&mut v, "  ", layout::tinted(paint::ink(Role::Plain), selected));
    }
    let style = if active {
        paint::ink(Role::Text).strong()
    } else {
        paint::ink(Role::Body)
    };
    let shown = text::truncate(title, width.saturating_sub(2));
    paint::put(&mut v, &shown, layout::tinted(style, selected));
    layout::pad_to(&mut v, width, selected);
    paint::line(v)
}

/// The gutter and the severity of an incident.
pub open spec fn severity_spans(impact: Impact, word: Seq<char>, selected: bool) -> Seq<SpanView> {
    let base = Seq::empty().push(
        paint::span_of("  "@, layout::tinted(paint::ink(Role::Plain), selected)),
    );
    if impact == Impact::Nothing {
        base
    } else {
        base.push(paint::span_of("[ "@, layout::tinted(paint::ink(Role::Dim), selected))).push(
            paint::span_of(
                word,
                layout::tinted(paint::ink(impact_color(impact)).strong(), selected),
            ),
        ).push(paint::span_of(" ]"@, layout::tinted(paint::ink(Role::Dim), selected)))
    }
}

/// The cells of the gutter and the severity.
pub open spec fn severity_cells(impact: Impact, word: Seq<char>) -> int {
    if impact == Impact::Nothing {
        2
    } else {
        word.len() as int + 6
    }
}

/// Spans with a mark near the right edge, where there is room for it.
pub open spec fn with_mark(
    v: Seq<SpanView>,
    used: int,
    mark: Seq<char>,
    style: Style,
    width: int,
    selected: bool,
) -> Seq<SpanView> {
    if used + 2 + mark.len() <= width {
        v.push(
            paint::span_of(
                text::fill(' ', (width - used - mark.len() - 1) as nat),
                layout::tinted(paint::ink(Role::Plain), selected),
            ),
        ).push(paint::span_of(mark, layout::tinted(style, selected)))
    } else {
        v
    }
}

fn put_mark(v: &mut Vec<Span>, used: usize, mark: &str, style: Style, width: usize, selected: bool)
    ensures
        paint::spans_view(final(v)@) == with_mark(
            paint::spans_view(old(v)@),
            used as int,
            mark@,
            style,
            width as int,
            selected,
        ),
{
    let n: usize = mark.unicode_len();
    if width >= 2 && width - 2 >= n && width - 2 - n >= used {
        let gap = text::fill_text(' ', width - used - n - 1);
        paint::put(v, &gap, layout::tinted(paint::ink(Role::Plain), selected));
        paint::put(v, mark, layout::tinted(style, selected));
    }
}

/// The second row of an incident: its severity, and its age or the mark of an open one.
pub open spec fn state_row(i: IncidentView, age: Seq<char>, selected: bool, width: int) -> LineView {
    let head = severity_spans(i.impact, i.impact_word, selected);
    let used = severity_cells(i.impact, i.impact_word);
    paint::line_of(
        layout::padded(
            if i.active() {
                with_mark(
                    head,
                    used,
                    "●"@,
                    paint::ink(phase_text_color(i.phase)).strong(),
                    width,
                    selected,
                )
            } else {
                with_mark(head, used, age, paint::ink(Role::Faint), width, selected)
            },
            width,
            selected,
        ),
    )
}

fn state_line(i: &Incident, age: &str, selected: bool, width: usize) -> (r: Line)
    ensures
        r@ == state_row(i@, age@, selected, width as int),
{
    let mut v = paint::no_spans();
    paint::put(&mut v, "  ", layout::tinted(paint::ink(Role::Plain), selected));
    let mut used: usize = 2;
    if i.impact != Impact::Nothing {
        paint::put(&mut v, "[ ", layout::tinted(paint::ink(Role::Dim), selected));
        paint::put(
            &mut v,
            &i.impact_word,
            layout::tinted(paint::ink(impact_color(i.impact)).strong(), selected),
        );
        paint::put(&mut v, " ]", layout::tinted(paint::ink(Role::Dim), selected));
        used = i.impact_word.as_str().unicode_len().saturating_add(6);
    }
    assert(paint::spans_view(v@) == severity_spans(i.impact, i.impact_word@, selected));
    let ghost before = paint::spans_view(v@);
    if i.is_active() {
        let style = paint::ink(phase_text_color(i.phase)).strong();
        put_mark(&mut v, used, "●", style, width, selected);
        assert(paint::spans_view(v@) == with_mark(
            before,
            severity_cells(i.impact, i.impact_word@),
            "●"@,
            style,
            width as int,
            selected,
        ));
    } else {
        put_mark(&mut v, used, age, paint::ink(Role::Faint), width, selected);
        assert(paint::spans_view(v@) == with_mark(
            before,
            severity_cells(i.impact, i.impact_word@),
            age@,
            paint::ink(Role::Faint),
            width as int,
            selected,
        ));
    }
    layout::pad_to(&mut v, width, selected);
    paint::line(v)
}

/// The two rows of an incident.
pub fn incident_rows(
    incident: &Incident,
    age: &str,
    selected: bool,
    pane_focused: bool,
    content_w: usize,
) -> (r: (Line, Line))
    ensures
        r.0@ == title_row(incident@.title, selected, pane_focused, content_w as int),
        r.1@ == state_row(incident@, age@, selected, content_w as int),
{
    (
        title_line(&incident.title, selected, pane_focused, content_w),
        state_line(incident, age, selected, content_w),
    )
}

/// How many incidents the list has room for.
pub open spec fn items_shown(height: int, total: int) -> int {
    text::min_int(text::max_int((height + 1) / 2, 1), total)
}

/// The rows of the incidents from `from` up to `to`.
pub open spec fn incident_lines(
    s: StatusStateView,
    ages: Seq<Seq<char>>,
    width: int,
    from: int,
    to: int,
) -> Seq<LineView>
    decreases to - from,
{
    if to <= from {
        Seq::empty()
    } else {
        let i = to - 1;
        let selected = i == s.cursor;
        incident_lines(s, ages, width, from, i).push(
            title_row(
                s.incidents[i].title,
                selected,
                s.focus == StatusFocus::List,
                width,
            ),
        ).push(state_row(s.incidents[i], ages[i], selected, width))
    }
}

/// The list: the incidents that fit, or what to do without any.
pub open spec fn incident_list(s: StatusStateView, ages: Seq<Seq<char>>, width: int, height: int) -> Seq<
    LineView,
> {
    let total = s.incidents.len() as int;
    if total == 0 {
        if s.error is Some {
            layout::empty_lines("fetch failed"@, "r"@, "to retry"@)
        } else {
            layout::empty_lines("no status data yet"@, "r"@, "to fetch"@)
        }
    } else {
        let n = items_shown(height, total);
        let from = first_item(s.cursor as int, n, total);
        incident_lines(s, ages, width, from, from + text::min_int(total - from, n))
    }
}

/// The list, and the first incident on it. `ages` holds the age of each incident.
pub fn list_lines(s: &StatusState, ages: &Vec<String>, width: usize, height: usize) -> (r: (
    Vec<Line>,
    usize,
))
    requires
        ages@.len() == s.incidents@.len(),
    ensures
        paint::lines_view(r.0@) == incident_list(
            s@,
            text::views(ages@),
            width as int,
            height as int,
        ),
        r.1 == (if s@.incidents.len() == 0 {
            0
        } else {
            first_item(
                s.cursor as int,
                items_shown(height as int, s@.incidents.len() as int),
                s@.incidents.len() as int,
            )
        }),
{
    let ghost all = s@.incidents;
    let ghost old_ages = text::views(ages@);
    let total: usize = s.incidents.len();
    assert(all.len() == total);
    if total == 0 {
        return if s.error.is_some() {
            (layout::empty_state("fetch failed", "r", "to retry"), 0)
        } else {
            (layout::empty_state("no status data yet", "r", "to fetch"), 0)
        };
    }
    let half: usize = height / 2 + height % 2;
    let n: usize = text::min_usize(text::max_usize(half, 1), total);
    let from: usize = first_visible_item(s.cursor, n, total);
    let shown: usize = text::min_usize(total - from, n);
    let focused = s.focus == StatusFocus::List;
    let mut out = paint::no_lines();
    let mut k: usize = 0;
    while k < shown
        invariant
            k <= shown,
            from + shown <= total,
            total == s.incidents@.len(),
            ages@.len() == total,
            all == feed::incident_views(s.incidents@),
            old_ages == text::views(ages@),
            all == s@.incidents,
            focused == (s.focus == StatusFocus::List),
            paint::lines_view(out@) == incident_lines(
                s@,
                old_ages,
                width as int,
                from as int,
                from + k,
            ),
        decreases shown - k,
    {
        let i: usize = from + k;
        assert(all[i as int] == s.incidents@[i as int]@);
        assert(old_ages[i as int] == ages@[i as int]@);
        let (a, b) = incident_rows(&s.incidents[i], &ages[i], i == s.cursor, focused, width);
        paint::add_line(&mut out, a);
        paint::add_line(&mut out, b);
        k = k + 1;
    }
    (out, from)
}

/// The title of the list, with the spinner while the feed is fetched.
pub open spec fn list_title(focused: bool, frame: Option<Seq<char>>) -> Seq<SpanView> {
    let base = Seq::empty().push(
        paint::span_of(" INCIDENTS "@, layout::title_style(focused, true)),
    );
    match frame {
        Some(f) => base.push(paint::span_of(f + " "@, paint::ink(Role::Accent))),
        None => base,
    }
}

/// The chrome of the list; `frame` is the spinner's while the feed is fetched.
pub fn list_chrome(focused: bool, frame: Option<&str>) -> (r: Chrome)
    ensures
        r.border == layout::border_role(focused),
        paint::spans_view(r.title@) == list_title(
            focused,
            match frame {
                Some(f) => Some(f@),
                None => None,
            },
        ),
{
    let mut title = paint::no_spans();
    paint::put(&mut title, " INCIDENTS ", layout::title_style(focused, true));
    if let Some(f) = frame {
        let spun = text::joined(f, " ");
        paint::put(&mut title, &spun, paint::ink(Role::Accent));
    }
    Chrome { border: layout::border_role(focused), title }
}

/// The number of decimal digits of a number.
pub fn count_digits(n: usize) -> (r: usize)
    ensures
        r == text::decimal(n as nat).len(),
        r >= 1,
{
    let mut rest: usize = n;
    let mut digits: usize = 1;
    while rest >= 10
        invariant
            digits >= 1,
            rest <= n,
            digits + rest <= n + 1,
            digits + text::decimal(rest as nat).len() == text::decimal(n as nat).len() + 1,
        decreases rest,
    {
        assert(text::decimal(rest as nat).len() == text::decimal((rest / 10) as nat).len() + 1);
        rest = rest / 10;
        digits = digits + 1;
    }
    assert(text::decimal(rest as nat).len() == 1);
    digits
}

/// A length of time in its largest unit, at least a minute.
pub open spec fn duration_words(secs: int) -> Seq<char> {
    if secs >= 86400 {
        text::decimal((secs / 86400) as nat) + "d"@
    } else if secs >= 3600 {
        text::decimal((secs / 3600) as nat) + "h"@
    } else {
        text::decimal(text::max_int(secs / 60, 1) as nat) + "m"@
    }
}

/// A length of time in its largest unit.
pub fn duration_label(secs: u64) -> (r: String)
    ensures
        r@ == duration_words(secs as int),
{
    let mins: u64 = secs / 60;
    let hours: u64 = mins / 60;
    let days: u64 = hours / 24;
    assert(hours == secs / 3600) by (nonlinear_arith)
        requires
            hours == (secs / 60) / 60,
    ;
    assert(days == secs / 86400) by (nonlinear_arith)
        requires
            days == ((secs / 60) / 60) / 24,
    ;
    if days >= 1 {
        text::joined(&text::decimal_text(days), "d")
    } else if hours >= 1 {
        text::joined(&text::decimal_text(hours), "h")
    } else {
        let shown: u64 = if mins >= 1 {
            mins
        } else {
            1
        };
        text::joined(&text::decimal_text(shown), "m")
    }
}

/// A text cut in its middle: both ends carry meaning.
pub open spec fn middle_clipped(s: Seq<char>, max: int) -> Seq<char> {
    if s.len() <= max || max < 3 {
        text::clipped(s, max as nat)
    } else {
        let head = max / 2;
        let tail = max - 1 - head;
        s.take(head).push('…') + s.skip(s.len() - tail)
    }
}

/// A text cut in its middle.
pub fn middle_truncate(s: &str, max: usize) -> (r: String)
    ensures
        r@ == middle_clipped(s@, max as int),
{
    let n: usize = s.unicode_len();
    if n <= max || max < 3 {
        return text::truncate(s, max);
    }
    let head: usize = max / 2;
    let tail: usize = max - 1 - head;
    let mut out = text::prefix_text(s, head);
    out.push('…');
    let back = s.substring_char(n - tail, n);
    assert(back@ =~= s@.skip(n - tail));
    text::joined(&out, back)
}

/// A text that is cut keeps both its ends and takes exactly the room it has.
pub proof fn cut_links_keep_both_ends(s: Seq<char>, max: int)
    requires
        3 <= max < s.len(),
    ensures
        middle_clipped(s, max).len() == max,
        middle_clipped(s, max).take(max / 2) == s.take(max / 2),
        middle_clipped(s, max).skip(max / 2 + 1) == s.skip(s.len() - (max - 1 - max / 2)),
{
    let head = max / 2;
    let cut = middle_clipped(s, max);
    assert(cut.take(head) =~= s.take(head));
    assert(cut.skip(head + 1) =~= s.skip(s.len() - (max - 1 - head)));
}

/// A text in a column: filled with blanks, or cut.
pub open spec fn column_text(s: Seq<char>, width: nat) -> Seq<char> {
    if s.len() > width {
        text::clipped(s, width)
    } else {
        s + text::fill(' ', (width - s.len()) as nat)
    }
}

/// A text in a column.
pub fn pad_right(s: &str, width: usize) -> (r: String)
    ensures
        r@ == column_text(s@, width as nat),
{
    let n: usize = s.unicode_len();
    if n > width {
        return text::truncate(s, width);
    }
    let pad = text::fill_text(' ', width - n);
    text::joined(s, &pad)
}

/// A column is always as wide as it should be.
pub proof fn columns_have_their_width(s: Seq<char>, width: nat)
    ensures
        column_text(s, width).len() == width,
{
}

/// The key of a row.
pub open spec fn key_of(key: Seq<char>) -> SpanView {
    paint::span_of(
        layout::key_text(key, KEY_W as nat, KEY_GUTTER as nat),
        paint::ink(Role::Label),
    )
}

fn key_span(key: &str) -> (r: Span)
    ensures
        r@ == key_of(key@),
{
    let cell = layout::key_cell(key, KEY_W, KEY_GUTTER);
    paint::span(&cell, paint::ink(Role::Label))
}

/// The cells of the component at `i`, with the gap before it.
pub open spec fn entry_cells(components: Seq<ComponentView>, i: int) -> int {
    layout::lower(components[i].name).len() + (if i == 0 {
        2int
    } else {
        4
    })
}

/// The cells kept for the count of those that follow the component at `i`.
pub open spec fn reserved_cells(total: int, i: int) -> int {
    if total - i - 1 > 0 {
        text::decimal((total - i - 1) as nat).len() as int + 3
    } else {
        0
    }
}

/// The spans of the components from `i` on that fit, and how many were shown: whole entries
/// only, and always the first.
pub open spec fn fitting(
    v: Seq<SpanView>,
    components: Seq<ComponentView>,
    i: int,
    used: int,
    avail: int,
) -> (Seq<SpanView>, int)
    decreases components.len() - i,
{
    if i < 0 || i >= components.len() {
        (v, i)
    } else {
        let cells = entry_cells(components, i);
        if used + cells + reserved_cells(components.len() as int, i) > avail && i > 0 {
            (v, i)
        } else {
            let gapped = if i > 0 {
                v.push(paint::raw_of("  "@))
            } else {
                v
            };
            fitting(
                gapped.push(
                    paint::span_of("●"@, paint::ink(component_hue(components[i].status))),
                ).push(
                    paint::span_of(
                        " "@ + layout::lower(components[i].name),
                        paint::ink(Role::Body),
                    ),
                ),
                components,
                i + 1,
                used + cells,
                avail,
            )
        }
    }
}

/// The row of the components: those that fit, and a count of the others.
pub open spec fn components_row(components: Seq<ComponentView>, width: int) -> LineView {
    let avail = text::monus(width, KEY_W + KEY_GUTTER);
    let key = Seq::empty().push(key_of("components"@));
    if avail == 0 {
        paint::line_of(key.push(paint::span_of("…"@, paint::ink(Role::Faint))))
    } else {
        let (spans, shown) = fitting(key, components, 0, 0, avail);
        paint::line_of(
            if components.len() > shown {
                spans.push(
                    paint::span_of(
                        "  +"@ + text::decimal((components.len() - shown) as nat),
                        paint::ink(Role::Faint),
                    ),
                )
            } else {
                spans
            },
        )
    }
}

/// The row of the components.
pub fn components_line(components: &Vec<Component>, inner_w: usize) -> (r: Line)
    ensures
        r@ == components_row(feed::component_views(components@), inner_w as int),
{
    let ghost all = feed::component_views(components@);
    let total: usize = components.len();
    assert(all.len() == total);
    let avail: usize = inner_w.saturating_sub(KEY_W + KEY_GUTTER);
    let mut v = paint::no_spans();
    paint::put_span(&mut v, key_span("components"));
    if avail == 0 {
        paint::put(&mut v, "…", paint::ink(Role::Faint));
        return paint::line(v);
    }
    let ghost start = paint::spans_view(v@);
    let ghost mut sum: int = 0;
    let mut used: usize = 0;
    let mut i: usize = 0;
    let mut full: bool = false;
    while i < total && !full
        invariant
            i <= total,
            total == components@.len(),
            all == feed::component_views(components@),
            all.len() == total,
            avail + 13 <= usize::MAX,
            used == text::min_int(sum, usize::MAX as int),
            sum >= 0,
            fitting(start, all, 0, 0, avail as int) == (if full {
                (paint::spans_view(v@), i as int)
            } else {
                fitting(paint::spans_view(v@), all, i as int, sum, avail as int)
            }),
        decreases total - i + (if full {
            0int
        } else {
            1int
        }),
    {
        assert(all[i as int] == components@[i as int]@);
        let label = layout::lowercase(&components[i].name);
        let gap: usize = if i == 0 {
            2
        } else {
            4
        };
        let cells: usize = label.as_str().unicode_len().saturating_add(gap);
        let after: usize = total - i - 1;
        let reserve: usize = if after > 0 {
            count_digits(after).saturating_add(3)
        } else {
            0
        };
        let needed: usize = used.saturating_add(cells).saturating_add(reserve);
        assert((needed > avail) == (sum + entry_cells(all, i as int) + reserved_cells(
            total as int,
            i as int,
        ) > avail));
        if needed > avail && i > 0 {
            full = true;
        } else {
            if i > 0 {
                paint::put_raw(&mut v, "  ");
            }
            paint::put(
                &mut v,
                "●",
                paint::ink(component_status_color(&components[i].status)),
            );
            let name = text::joined(" ", &label);
            paint::put(&mut v, &name, paint::ink(Role::Body));
            proof {
                sum = sum + entry_cells(all, i as int);
            }
            used = used.saturating_add(cells);
            i = i + 1;
        }
    }
    if total > i {
        let more = text::joined("  +", &text::decimal_text((total - i) as u64));
        paint::put(&mut v, &more, paint::ink(Role::Faint));
    }
    paint::line(v)
}

/// The longest name among the first `n` changes.
pub open spec fn widest_changed(ts: Seq<TransitionView>, n: nat) -> int
    decreases n,
{
    if n == 0 {
        0
    } else {
        text::max_int(
            widest_changed(ts, (n - 1) as nat),
            layout::lower(ts[n - 1].name).len() as int,
        )
    }
}

/// The longest new status among the first `n` changes, with the arrow before it.
pub open spec fn widest_status(ts: Seq<TransitionView>, n: nat) -> int
    decreases n,
{
    if n == 0 {
        0
    } else {
        text::max_int(widest_status(ts, (n - 1) as nat), ts[n - 1].to.len() as int + 2)
    }
}

/// The width of the names: the longest, shrunk so that the status still fits.
pub open spec fn name_column(ts: Seq<TransitionView>, body_w: int) -> int {
    text::max_int(
        text::min_int(
            widest_changed(ts, ts.len()),
            text::max_int(text::monus(body_w, 2 + widest_status(ts, ts.len())), 3),
        ),
        1,
    )
}

/// A changed component below its update; a line that is still too long is cut.
pub open spec fn change_line(t: TransitionView, name_col: nat, indent: nat, body_w: int) -> LineView {
    let name = column_text(text::clipped(layout::lower(t.name), name_col), name_col) + "  "@;
    if name_col + 4 + t.to.len() > body_w {
        paint::line_of(
            Seq::empty().push(paint::blanks_of(indent)).push(
                paint::span_of(
                    text::clipped(name + "→ "@ + t.to, body_w as nat),
                    paint::ink(Role::Faint),
                ),
            ),
        )
    } else {
        paint::line_of(
            Seq::empty().push(paint::blanks_of(indent)).push(
                paint::span_of(name, paint::ink(Role::Faint)),
            ).push(paint::span_of("→ "@, paint::ink(Role::Faint))).push(
                paint::span_of(t.to, paint::ink(component_hue(t.to))),
            ),
        )
    }
}

fn change_row(t: &Transition, name_col: usize, indent: usize, body_w: usize) -> (r: Line)
    ensures
        r@ == change_line(t@, name_col as nat, indent as nat, body_w as int),
{
    let low = layout::lowercase(&t.name);
    let short = text::truncate(&low, name_col);
    let name = text::joined(&pad_right(&short, name_col), "  ");
    let mut v = paint::no_spans();
    paint::put_blanks(&mut v, indent);
    let n: usize = t.to.as_str().unicode_len();
    let fits = body_w >= 4 && body_w - 4 >= n && body_w - 4 - n >= name_col;
    if !fits {
        let flat = text::joined3(&name, "→ ", &t.to);
        paint::put(&mut v, &text::truncate(&flat, body_w), paint::ink(Role::Faint));
    } else {
        paint::put(&mut v, &name, paint::ink(Role::Faint));
        paint::put(&mut v, "→ ", paint::ink(Role::Faint));
        paint::put(&mut v, &t.to, paint::ink(component_status_color(&t.to)));
    }
    paint::line(v)
}

/// The lines of the first `n` changes.
pub open spec fn change_lines(
    ts: Seq<TransitionView>,
    name_col: nat,
    indent: nat,
    body_w: int,
    n: nat,
) -> Seq<LineView>
    decreases n,
{
    if n == 0 {
        Seq::empty()
    } else {
        change_lines(ts, name_col, indent, body_w, (n - 1) as nat).push(
            change_line(ts[n - 1], name_col, indent, body_w),
        )
    }
}

/// The changed components of an update.
pub open spec fn changes_block(ts: Seq<TransitionView>, indent: nat, body_w: int) -> Seq<LineView> {
    change_lines(ts, name_column(ts, body_w) as nat, indent, body_w, ts.len())
}

/// The changed components of an update.
pub fn transition_lines(transitions: &Vec<Transition>, indent: usize, body_w: usize) -> (r: Vec<
    Line,
>)
    ensures
        paint::lines_view(r@) == changes_block(
            feed::transition_views(transitions@),
            indent as nat,
            body_w as int,
        ),
{
    let ghost all = feed::transition_views(transitions@);
    let total: usize = transitions.len();
    assert(all.len() == total);
    let mut names: usize = 0;
    let mut states: usize = 0;
    let ghost mut exact: int = 0;
    let mut i: usize = 0;
    while i < total
        invariant
            i <= total,
            total == transitions@.len(),
            all == feed::transition_views(transitions@),
            names == widest_changed(all, i as nat),
            exact == widest_status(all, i as nat),
            states == text::min_int(exact, usize::MAX as int),
        decreases total - i,
    {
        assert(all[i as int] == transitions@[i as int]@);
        let low = layout::lowercase(&transitions[i].name);
        names = text::max_usize(names, low.as_str().unicode_len());
        states = text::max_usize(
            states,
            transitions[i].to.as_str().unicode_len().saturating_add(2),
        );
        i = i + 1;
        proof {
            exact = widest_status(all, i as nat);
        }
    }
    let room: usize = body_w.saturating_sub(states).saturating_sub(2);
    assert(room == text::monus(body_w as int, 2 + exact));
    let name_col: usize = text::max_usize(text::min_usize(names, text::max_usize(room, 3)), 1);
    let mut out = paint::no_lines();
    let mut k: usize = 0;
    while k < total
        invariant
            k <= total,
            total == transitions@.len(),
            all == feed::transition_views(transitions@),
            paint::lines_view(out@) == change_lines(
                all,
                name_col as nat,
                indent as nat,
                body_w as int,
                k as nat,
            ),
        decreases total - k,
    {
        assert(all[k as int] == transitions@[k as int]@);
        paint::add_line(&mut out, change_row(&transitions[k], name_col, indent, body_w));
        k = k + 1;
    }
    out
}

/// The first `n` further lines of an update's text, under its text column.
pub open spec fn hanging(lines: Seq<Seq<char>>, indent: nat, n: nat) -> Seq<LineView>
    decreases n,
{
    if n <= 1 {
        Seq::empty()
    } else {
        hanging(lines, indent, (n - 1) as nat).push(
            paint::line_of(
                Seq::empty().push(paint::blanks_of(indent)).push(
                    paint::span_of(lines[n - 1], paint::ink(Role::Dim)),
                ),
            ),
        )
    }
}

/// The first line of an update: its time, its phase and the start of its text.
pub open spec fn update_head(
    u: IncidentUpdateView,
    at: Seq<char>,
    time_col: nat,
    body: Seq<char>,
) -> LineView {
    paint::line_of(
        Seq::empty().push(
            paint::span_of(column_text(at, time_col) + " "@, paint::ink(Role::Dim)),
        ).push(
            paint::span_of(
                column_text(u.phase_word, PHASE_W as nat) + " "@,
                paint::ink(phase_text_color(u.phase)),
            ),
        ).push(paint::span_of(body, paint::ink(Role::Dim))),
    )
}

/// The lines of an update: its text wrapped beside time and phase, then what changed.
pub open spec fn update_block(
    u: IncidentUpdateView,
    at: Seq<char>,
    time_col: nat,
    body_w: nat,
    indent: nat,
) -> Seq<LineView> {
    let lines = wrapping::wrapped(u.text, body_w);
    Seq::empty().push(
        update_head(
            u,
            at,
            time_col,
            if lines.len() > 0 {
                lines[0]
            } else {
                ""@
            },
        ),
    ) + hanging(lines, indent, lines.len()) + changes_block(u.transitions, indent, body_w as int)
}

/// The lines of an update; `at` is its time as it is shown.
pub fn update_lines(
    update: &IncidentUpdate,
    at: &str,
    time_col: usize,
    body_w: usize,
    indent: usize,
) -> (r: Vec<Line>)
    ensures
        paint::lines_view(r@) == update_block(
            update@,
            at@,
            time_col as nat,
            body_w as nat,
            indent as nat,
        ),
{
    let wrapped = wrapping::wrap_words(&update.text, body_w);
    let ghost all = wrapping::wrapped(update.text@, body_w as nat);
    assert(all == text::views(wrapped@));
    assert(all.len() == wrapped@.len());
    let mut out = paint::no_lines();
    let mut v = paint::no_spans();
    paint::put(&mut v, &text::joined(&pad_right(at, time_col), " "), paint::ink(Role::Dim));
    paint::put(
        &mut v,
        &text::joined(&pad_right(&update.phase_word, PHASE_W), " "),
        paint::ink(phase_text_color(update.phase)),
    );
    if wrapped.len() > 0 {
        assert(all[0] == wrapped@[0]@);
        paint::put(&mut v, &wrapped[0], paint::ink(Role::Dim));
    } else {
        paint::put(&mut v, "", paint::ink(Role::Dim));
    }
    paint::add_line(&mut out, paint::line(v));
    let ghost head = paint::lines_view(out@);
    assert(head + hanging(all, indent as nat, 0) =~= head);
    assert(head + hanging(all, indent as nat, 1) =~= head);
    let mut i: usize = 1;
    while i < wrapped.len()
        invariant
            1 <= i,
            i <= wrapped@.len() || (i == 1 && wrapped@.len() == 0),
            all == text::views(wrapped@),
            all.len() == wrapped@.len(),
            paint::lines_view(out@) == head + hanging(all, indent as nat, i as nat),
        decreases wrapped@.len() - i,
    {
        assert(all[i as int] == wrapped@[i as int]@);
        let mut w = paint::no_spans();
        paint::put_blanks(&mut w, indent);
        paint::put(&mut w, &wrapped[i], paint::ink(Role::Dim));
        paint::add_line(&mut out, paint::line(w));
        i = i + 1;
        assert(paint::lines_view(out@) =~= head + hanging(all, indent as nat, i as nat));
    }
    assert(paint::lines_view(out@) == head + hanging(all, indent as nat, all.len()));
    paint::add_lines(&mut out, &transition_lines(&update.transitions, indent, body_w));
    out
}

/// The moments of an incident, each as date and time.
#[derive(Debug)]
pub struct Moments {
    pub now_ms: u64,
    pub started: String,
    /// One for each update.
    pub updates: Vec<String>,
}

/// What [`Moments`] hold.
pub struct MomentsView {
    pub now_ms: int,
    pub started: Seq<char>,
    pub updates: Seq<Seq<char>>,
}

impl View for Moments {
    type V = MomentsView;

    open spec fn view(&self) -> MomentsView {
        MomentsView {
            now_ms: self.now_ms as int,
            started: self.started@,
            updates: text::views(self.updates@),
        }
    }
}

impl MomentsView {
    /// Every moment is plain ASCII.
    pub open spec fn plain(self) -> bool {
        &&& clock::is_ascii(self.started)
        &&& forall|i: int| 0 <= i < self.updates.len() ==> clock::is_ascii(#[trigger] self.updates[i])
    }
}

/// The longest time among the first `n` updates.
pub open spec fn widest_time(updates: Seq<Seq<char>>, n: nat) -> int
    decreases n,
{
    if n == 0 {
        0
    } else {
        text::max_int(
            widest_time(updates, (n - 1) as nat),
            clock::moment_text(updates[n - 1], false).len() as int,
        )
    }
}

/// The width of the time column.
pub open spec fn time_column(m: MomentsView) -> int {
    text::min_int(
        text::max_int(widest_time(m.updates, m.updates.len()), TIME_W_MIN as int),
        TIME_W_MAX as int,
    )
}

fn time_width(m: &Moments) -> (r: usize)
    requires
        m@.plain(),
    ensures
        r == time_column(m@),
{
    let ghost all = m@.updates;
    let mut widest: usize = 0;
    let mut i: usize = 0;
    while i < m.updates.len()
        invariant
            i <= m.updates@.len(),
            m@.plain(),
            all == text::views(m.updates@),
            all == m@.updates,
            widest == widest_time(all, i as nat),
        decreases m.updates@.len() - i,
    {
        assert(all[i as int] == m.updates@[i as int]@);
        let label = clock::clock_label(&m.updates[i], false);
        widest = text::max_usize(widest, label.as_str().unicode_len());
        i = i + 1;
    }
    assert(all.len() == m.updates@.len());
    text::min_usize(text::max_usize(widest, TIME_W_MIN), TIME_W_MAX)
}

/// How long an incident lasted.
pub open spec fn lasting(i: IncidentView) -> Seq<char> {
    match i.resolved_ms {
        Some(t) => if t >= i.started_ms {
            "lasted "@ + duration_words((t - i.started_ms) / 1000)
        } else {
            "ongoing"@
        },
        None => "ongoing"@,
    }
}

fn lasting_text(i: &Incident) -> (r: String)
    ensures
        r@ == lasting(i@),
{
    match i.resolved_ms {
        Some(t) => if t >= i.started_ms {
            text::joined("lasted ", &duration_label((t - i.started_ms) / 1000))
        } else {
            "ongoing".to_string()
        },
        None => "ongoing".to_string(),
    }
}

/// The pills and the age of an incident.
pub open spec fn pill_row(i: IncidentView, age: Seq<char>) -> Seq<SpanView> {
    let dim = paint::ink(Role::Dim);
    let phase = Seq::empty().push(paint::span_of("[ "@, dim)).push(
        paint::span_of(i.phase_word, paint::ink(phase_text_color(i.phase)).strong()),
    ).push(paint::span_of(" ]"@, dim));
    let both = if i.impact == Impact::Nothing {
        phase
    } else {
        phase.push(paint::span_of("  [ "@, dim)).push(
            paint::span_of(i.impact_word, paint::ink(impact_color(i.impact)).strong()),
        ).push(paint::span_of(" ]"@, dim))
    };
    both.push(paint::span_of("  "@ + age, paint::ink(Role::Faint)))
}

fn pill_spans(i: &Incident, age: &str) -> (r: Vec<Span>)
    ensures
        paint::spans_view(r@) == pill_row(i@, age@),
{
    let dim = paint::ink(Role::Dim);
    let mut v = paint::no_spans();
    paint::put(&mut v, "[ ", dim);
    paint::put(&mut v, &i.phase_word, paint::ink(phase_text_color(i.phase)).strong());
    paint::put(&mut v, " ]", dim);
    if i.impact != Impact::Nothing {
        paint::put(&mut v, "  [ ", dim);
        paint::put(&mut v, &i.impact_word, paint::ink(impact_color(i.impact)).strong());
        paint::put(&mut v, " ]", dim);
    }
    paint::put(&mut v, &text::joined("  ", age), paint::ink(Role::Faint));
    v
}

/// The first lines of the timeline: the pills and the age, and how long it lasted against the
/// right edge, or below where there is no room.
pub open spec fn head_lines(i: IncidentView, age: Seq<char>, width: int) -> Seq<LineView> {
    let left = pill_row(i, age);
    let used = paint::chars_in(left);
    let dur = lasting(i);
    if used + dur.len() < width {
        Seq::empty().push(
            paint::line_of(
                left.push(paint::blanks_of((width - used - dur.len()) as nat)).push(
                    paint::span_of(dur, paint::ink(Role::Faint)),
                ),
            ),
        )
    } else {
        Seq::empty().push(paint::line_of(left)).push(
            paint::single_of("  "@ + dur, paint::ink(Role::Faint)),
        )
    }
}

fn head_rows(i: &Incident, age: &str, width: usize) -> (r: Vec<Line>)
    ensures
        paint::lines_view(r@) == head_lines(i@, age@, width as int),
{
    let mut out = paint::no_lines();
    let mut v = pill_spans(i, age);
    let used: usize = paint::chars_count(&v);
    let dur = lasting_text(i);
    let n: usize = dur.as_str().unicode_len();
    if width > n && width - n > used {
        paint::put_blanks(&mut v, width - n - used);
        paint::put(&mut v, &dur, paint::ink(Role::Faint));
        paint::add_line(&mut out, paint::line(v));
    } else {
        paint::add_line(&mut out, paint::line(v));
        paint::add_line(
            &mut out,
            paint::single(&text::joined("  ", &dur), paint::ink(Role::Faint)),
        );
    }
    out
}

/// What is told of an incident before its timeline.
pub open spec fn facts_block(i: IncidentView, m: MomentsView, width: int) -> Seq<LineView> {
    let age = clock::age_text(i.started_ms as int, m.now_ms, m.started);
    let dated = head_lines(i, age, width).push(
        paint::line_of(
            Seq::empty().push(key_of("started"@)).push(
                paint::span_of(clock::moment_text(m.started, true), paint::ink(Role::Body)),
            ),
        ),
    );
    let parts = if i.components.len() > 0 {
        dated.push(components_row(i.components, width))
    } else {
        dated
    };
    let linked = if i.link.len() > 0 {
        parts.push(paint::single_of(middle_clipped(i.link, width), paint::ink(Role::Faint)))
    } else {
        parts
    };
    linked.push(paint::blank_of()).push(paint::single_of("TIMELINE"@, paint::ink(Role::Dim)))
}

fn facts_lines(i: &Incident, m: &Moments, width: usize) -> (r: Vec<Line>)
    requires
        m@.plain(),
    ensures
        paint::lines_view(r@) == facts_block(i@, m@, width as int),
{
    let age = clock::relative_age(i.started_ms, m.now_ms, &m.started);
    let mut out = head_rows(i, &age, width);
    let mut v = paint::no_spans();
    paint::put_span(&mut v, key_span("started"));
    paint::put(&mut v, &clock::clock_label(&m.started, true), paint::ink(Role::Body));
    paint::add_line(&mut out, paint::line(v));
    assert(i@.components.len() == i.components@.len());
    if i.components.len() > 0 {
        paint::add_line(&mut out, components_line(&i.components, width));
    }
    if i.link.as_str().unicode_len() > 0 {
        paint::add_line(
            &mut out,
            paint::single(&middle_truncate(&i.link, width), paint::ink(Role::Faint)),
        );
    }
    paint::add_line(&mut out, paint::blank());
    paint::add_line(&mut out, paint::single("TIMELINE", paint::ink(Role::Dim)));
    out
}

/// The lines of the first `n` updates.
pub open spec fn timeline(
    i: IncidentView,
    m: MomentsView,
    time_col: nat,
    body_w: nat,
    n: nat,
) -> Seq<LineView>
    decreases n,
{
    if n == 0 {
        Seq::empty()
    } else {
        timeline(i, m, time_col, body_w, (n - 1) as nat) + update_block(
            i.updates[n - 1],
            clock::moment_text(m.updates[n - 1], false),
            time_col,
            body_w,
            time_col + PHASE_W as nat + 2,
        )
    }
}

/// The whole account of an incident.
pub open spec fn incident_detail(i: IncidentView, m: MomentsView, width: int) -> Seq<LineView> {
    let time_col = time_column(m);
    let body_w = text::max_int(
        text::monus(width, time_col + PHASE_W + 2),
        BODY_W_MIN as int,
    );
    facts_block(i, m, width) + timeline(i, m, time_col as nat, body_w as nat, i.updates.len())
}

/// The whole account of an incident.
pub fn detail_lines(incident: &Incident, m: &Moments, inner_w: usize) -> (r: Vec<Line>)
    requires
        m@.plain(),
        m.updates@.len() == incident.updates@.len(),
    ensures
        paint::lines_view(r@) == incident_detail(incident@, m@, inner_w as int),
{
    let ghost us = incident@.updates;
    let ghost ats = m@.updates;
    assert(us.len() == incident.updates@.len());
    let time_col: usize = time_width(m);
    let indent: usize = time_col + PHASE_W + 2;
    let body_w: usize = text::max_usize(inner_w.saturating_sub(indent), BODY_W_MIN);
    let mut out = facts_lines(incident, m, inner_w);
    let ghost facts = paint::lines_view(out@);
    assert(facts + timeline(incident@, m@, time_col as nat, body_w as nat, 0) =~= facts);
    let mut k: usize = 0;
    while k < incident.updates.len()
        invariant
            k <= incident.updates@.len(),
            m@.plain(),
            m.updates@.len() == incident.updates@.len(),
            us == incident@.updates,
            ats == m@.updates,
            indent == time_col + PHASE_W + 2,
            paint::lines_view(out@) == facts + timeline(
                incident@,
                m@,
                time_col as nat,
                body_w as nat,
                k as nat,
            ),
        decreases incident.updates@.len() - k,
    {
        assert(us[k as int] == incident.updates@[k as int]@);
        assert(ats[k as int] == m.updates@[k as int]@);
        let at = clock::clock_label(&m.updates[k], false);
        let block = update_lines(&incident.updates[k], &at, time_col, body_w, indent);
        let ghost before = paint::lines_view(out@);
        paint::add_lines(&mut out, &block);
        k = k + 1;
        assert(paint::lines_view(out@) =~= facts + timeline(
            incident@,
            m@,
            time_col as nat,
            body_w as nat,
            k as nat,
        ));
    }
    out
}

/// The line shown without an incident.
pub fn no_incident() -> (r: Line)
    ensures
        r@ == paint::single_of("no incident selected"@, paint::ink(Role::Dim)),
{
    paint::single("no incident selected", paint::ink(Role::Dim))
}

} // verus!
