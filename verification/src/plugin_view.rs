//! The Plugin tab on screen: the checks, the readout of the selected one, and its options.

use vstd::prelude::*;

use crate::footer::HerdrOption;
use crate::layout;
use crate::layout::{Choice, ChoiceView, Chrome, FieldEdit, FieldEditView, Glyphs, GlyphsView};
use crate::paint;
use crate::paint::{Line, LineView, Role, Span, SpanView, Style};
use crate::plugin;
use crate::plugin::{CheckView, Health, PluginFocus, PluginState, PluginStateView};
use crate::setup_view::{Pane, PaneView};
use crate::text;
use crate::wrapping;

verus! {

/// Cap on the key column of a readout.
pub const KEY_W_MAX: usize = 18;

/// The first row of a window that keeps `focus` near its middle.
pub open spec fn window_top(focus: int, viewport: int, total: int) -> int {
    if total <= viewport || viewport == 0 {
        0
    } else {
        text::min_int(text::monus(focus, viewport / 2), total - viewport)
    }
}

/// The first row of a window that keeps `focus` near its middle.
pub fn window_start(focus: usize, viewport: usize, total: usize) -> (r: usize)
    ensures
        r == window_top(focus as int, viewport as int, total as int),
{
    if total <= viewport || viewport == 0 {
        return 0;
    }
    let half: usize = viewport / 2;
    if focus < half {
        0
    } else {
        text::min_usize(focus - half, total - viewport)
    }
}

/// The row in focus is always inside the window, and the window inside the list.
pub proof fn windows_hold_the_focus(focus: int, viewport: int, total: int)
    requires
        0 <= focus < total,
        viewport > 0,
    ensures
        window_top(focus, viewport, total) <= focus < window_top(focus, viewport, total) + viewport,
        0 <= window_top(focus, viewport, total),
        total >= viewport ==> window_top(focus, viewport, total) + viewport <= total,
{
}

/// The hue of a verdict.
#[verifier::allow_in_spec]
pub fn health_color(health: Health) -> (r: Role)
    returns
        (match health {
            Health::Good => Role::Success,
            Health::Warn => Role::Warning,
            Health::Danger => Role::Danger,
            Health::Idle => Role::Dim,
        }),
{
    match health {
        Health::Good => Role::Success,
        Health::Warn => Role::Warning,
        Health::Danger => Role::Danger,
        Health::Idle => Role::Dim,
    }
}

/// How a row of the list is drawn.
#[derive(Clone, Copy, Debug)]
pub struct SelectorRow {
    pub label_style: Style,
    /// Labels are padded to this width so that the values line up.
    pub label_pad: usize,
    pub selected: bool,
    pub focused: bool,
    pub content_w: usize,
    pub has_fix: bool,
}

/// The caret, the verdict and the label of a row.
pub open spec fn selector_head(health: Health, label: Seq<char>, row: SelectorRow) -> Seq<SpanView> {
    let active = row.selected && row.focused;
    let plain = layout::tinted(paint::ink(Role::Plain), row.selected);
    let base = Seq::empty().push(
        if active {
            paint::span_of("❯ "@, layout::tinted(paint::ink(Role::Accent).strong(), row.selected))
        } else {
            paint::span_of("  "@, plain)
        },
    ).push(
        paint::span_of("● "@, layout::tinted(paint::ink(health_color(health)), row.selected)),
    ).push(
        paint::span_of(
            label,
            layout::tinted(
                if active {
                    row.label_style.strong()
                } else {
                    row.label_style
                },
                row.selected,
            ),
        ),
    );
    let align = text::monus(row.label_pad as int, label.len() as int);
    if align > 0 {
        base.push(paint::span_of(text::fill(' ', align as nat), plain))
    } else {
        base
    }
}

/// The room for the value of a row: behind the label, before the mark of a fix.
pub open spec fn value_room(label: Seq<char>, row: SelectorRow) -> int {
    text::monus(
        row.content_w as int,
        text::max_int(label.len() as int, row.label_pad as int) + 6 + (if row.has_fix {
            4int
        } else {
            0
        }),
    )
}

/// A row of the list: verdict, label, value, and the mark of a fix at the right edge.
pub open spec fn selector_line(
    health: Health,
    label: Seq<char>,
    value: Seq<char>,
    row: SelectorRow,
) -> LineView {
    let told = selector_told(health, label, value, row);
    paint::line_of(
        if row.has_fix {
            layout::padded(told, text::monus(row.content_w as int, 3), row.selected).push(
                paint::span_of("[f]"@, layout::tinted(paint::ink(Role::Accent).strong(), row.selected)),
            )
        } else {
            layout::padded(told, row.content_w as int, row.selected)
        },
    )
}

fn put_head(v: &mut Vec<Span>, health: Health, label: &str, row: SelectorRow)
    requires
        paint::spans_view(old(v)@) == Seq::<SpanView>::empty(),
    ensures
        paint::spans_view(final(v)@) == selector_head(health, label@, row),
{
    let active = row.selected && row.focused;
    let plain = layout::tinted(paint::ink(Role::Plain), row.selected);
    if active {
        paint::put(v, "❯ ", layout::tinted(paint::ink(Role::Accent).strong(), row.selected));
    } else {
        paint::put(v, "  ", plain);
    }
    paint::put(v, "● ", layout::tinted(paint::ink(health_color(health)), row.selected));
    let style = if active {
        row.label_style.strong()
    } else {
        row.label_style
    };
    paint::put(v, label, layout::tinted(style, row.selected));
    let align: usize = row.label_pad.saturating_sub(label.unicode_len());
    if align > 0 {
        let blanks = text::fill_text(' ', align);
        paint::put(v, &blanks, plain);
    }
}

fn room_for_value(label: &str, row: SelectorRow) -> (r: usize)
    ensures
        r == value_room(label@, row),
{
    let reserve: usize = if row.has_fix {
        10
    } else {
        6
    };
    row.content_w.saturating_sub(
        text::max_usize(label.unicode_len(), row.label_pad),
    ).saturating_sub(reserve)
}

/// The spans of a row before its right edge.
pub open spec fn selector_told(
    health: Health,
    label: Seq<char>,
    value: Seq<char>,
    row: SelectorRow,
) -> Seq<SpanView> {
    let head = selector_head(health, label, row);
    let room = value_room(label, row);
    if room > 0 && value.len() > 0 {
        head.push(paint::span_of("  "@, layout::tinted(paint::ink(Role::Plain), row.selected))).push(
            paint::span_of(
                text::clipped(value, room as nat),
                layout::tinted(paint::ink(Role::Dim), row.selected),
            ),
        )
    } else {
        head
    }
}

/// A row of the list.
pub fn selector_row(health: Health, label: &str, value: &str, row: SelectorRow) -> (r: Line)
    ensures
        r@ == selector_line(health, label@, value@, row),
{
    let mut v = paint::no_spans();
    put_head(&mut v, health, label, row);
    let room: usize = room_for_value(label, row);
    if room > 0 && value.unicode_len() > 0 {
        paint::put(&mut v, "  ", layout::tinted(paint::ink(Role::Plain), row.selected));
        let shown = text::truncate(value, room);
        paint::put(&mut v, &shown, layout::tinted(paint::ink(Role::Dim), row.selected));
    }
    assert(paint::spans_view(v@) == selector_told(health, label@, value@, row));
    if row.has_fix {
        layout::pad_to(&mut v, row.content_w.saturating_sub(3), row.selected);
        paint::put(&mut v, "[f]", layout::tinted(paint::ink(Role::Accent).strong(), row.selected));
    } else {
        layout::pad_to(&mut v, row.content_w, row.selected);
    }
    paint::line(v)
}

/// How the row of a check is drawn.
pub open spec fn check_row(selected: bool, focused: bool, width: usize, has_fix: bool) -> SelectorRow {
    SelectorRow {
        label_style: paint::ink(Role::Body),
        label_pad: 0,
        selected,
        focused,
        content_w: width,
        has_fix,
    }
}

/// The rows of the first `n` checks.
pub open spec fn check_lines(
    checks: Seq<CheckView>,
    cursor: int,
    focused: bool,
    width: usize,
    n: nat,
) -> Seq<LineView>
    decreases n,
{
    if n == 0 {
        Seq::empty()
    } else {
        let c = checks[n - 1];
        check_lines(checks, cursor, focused, width, (n - 1) as nat).push(
            selector_line(
                c.health,
                c.label,
                ""@,
                check_row(n - 1 == cursor, focused, width, c.fix is Some),
            ),
        )
    }
}

/// The list of checks; without any, what to do about it.
pub open spec fn selector_list(state: PluginStateView, width: usize) -> Seq<LineView> {
    if state.checks.len() > 0 {
        check_lines(
            state.checks,
            state.cursor as int,
            state.focus == PluginFocus::List,
            width,
            state.checks.len(),
        )
    } else if state.error is Some {
        layout::empty_lines("check failed"@, "r"@, "to retry"@)
    } else {
        layout::empty_lines("no checks yet"@, "r"@, "to run"@)
    }
}

/// The list of checks.
pub fn selector_lines(state: &PluginState, width: usize) -> (r: Vec<Line>)
    ensures
        paint::lines_view(r@) == selector_list(state@, width),
{
    let ghost all = state@.checks;
    assert(all.len() == state.checks@.len());
    if state.checks.len() == 0 {
        return if state.error.is_some() {
            layout::empty_state("check failed", "r", "to retry")
        } else {
            layout::empty_state("no checks yet", "r", "to run")
        };
    }
    let focused = state.focus == PluginFocus::List;
    let mut out = paint::no_lines();
    let mut i: usize = 0;
    while i < state.checks.len()
        invariant
            i <= state.checks@.len(),
            all == plugin::check_views(state.checks@),
            paint::lines_view(out@) == check_lines(
                all,
                state.cursor as int,
                focused,
                width,
                i as nat,
            ),
        decreases state.checks@.len() - i,
    {
        let c = &state.checks[i];
        assert(all[i as int] == c@);
        let row = SelectorRow {
            label_style: paint::ink(Role::Body),
            label_pad: 0,
            selected: i == state.cursor,
            focused,
            content_w: width,
            has_fix: c.fix.is_some(),
        };
        paint::add_line(&mut out, selector_row(c.health, c.label, "", row));
        i = i + 1;
    }
    out
}

/// The row of the list that the window follows.
pub open spec fn followed_row(cursor: int, total: int) -> int {
    if cursor < total {
        cursor
    } else {
        0
    }
}

/// The part of a list that is on screen: its first row and the rows.
pub fn window_of(lines: &Vec<Line>, cursor: usize, viewport: usize) -> (r: (usize, Vec<Line>))
    ensures
        ({
            let all = paint::lines_view(lines@);
            let total = all.len() as int;
            let top = window_top(followed_row(cursor as int, total), viewport as int, total);
            let shown = text::min_int(
                text::monus(total, top),
                text::max_int(viewport as int, 1),
            );
            &&& r.0 == top
            &&& paint::lines_view(r.1@) == all.subrange(top, top + shown)
        }),
{
    let ghost all = paint::lines_view(lines@);
    let total: usize = lines.len();
    assert(all.len() == total);
    let followed: usize = if cursor < total {
        cursor
    } else {
        0
    };
    let top: usize = window_start(followed, viewport, total);
    assert(top <= total);
    let shown: usize = text::min_usize(total - top, text::max_usize(viewport, 1));
    let mut out = paint::no_lines();
    assert(all.subrange(top as int, top as int) =~= Seq::<LineView>::empty());
    let mut i: usize = 0;
    while i < shown
        invariant
            i <= shown,
            total == lines@.len(),
            top + shown <= total,
            all == paint::lines_view(lines@),
            paint::lines_view(out@) == all.subrange(top as int, top + i),
        decreases shown - i,
    {
        assert(all[top + i] == lines@[top + i]@);
        paint::add_line(&mut out, paint::copy_line(&lines[top + i]));
        i = i + 1;
        assert(paint::lines_view(out@) =~= all.subrange(top as int, top + i));
    }
    (top, out)
}

/// The title of the list, with the spinner while checks run.
pub open spec fn list_title(focused: bool, frame: Option<Seq<char>>) -> Seq<SpanView> {
    let base = Seq::empty().push(paint::span_of(" PLUGIN "@, layout::title_style(focused, true)));
    match frame {
        Some(f) => base.push(paint::span_of(f + " "@, paint::ink(Role::Accent))),
        None => base,
    }
}

/// The chrome of the list; `frame` is the spinner's while checks run.
pub fn list_chrome(focused: bool, frame: Option<&str>) -> (r: Chrome)
    ensures
        r.border == layout::border_role(focused),
        paint::spans_view(r.title@) == list_title(
            focused,
            match frame {
                Some(f) => Some(f@),
                None => None,
            },
        ),
{
    let mut title = paint::no_spans();
    paint::put(&mut title, " PLUGIN ", layout::title_style(focused, true));
    if let Some(f) = frame {
        let spun = text::joined(f, " ");
        paint::put(&mut title, &spun, paint::ink(Role::Accent));
    }
    Chrome { border: layout::border_role(focused), title }
}

/// The first word of a value, or the value where it has none.
pub open spec fn first_word(value: Seq<char>) -> Seq<char> {
    let w = wrapping::words(value);
    if w.len() > 0 {
        w[0]
    } else {
        value
    }
}

/// Whether a key and the first word of its value tell of something that works.
pub open spec fn tells_good(key: Seq<char>, head: Seq<char>) -> bool {
    ||| (key == "present"@ || key == "installed"@) && head == "yes"@
    ||| key == "server"@ && head == "boots"@
    ||| key == "link"@ && head == "linked"@
    ||| key == "plugin"@ && (head == "linked"@ || head == "installed"@)
    ||| key == "sidebar"@ && head == "templated"@
}

/// Whether a key and the first word of its value tell of something to look at.
pub open spec fn tells_warning(key: Seq<char>, head: Seq<char>) -> bool {
    ||| (key == "present"@ || key == "installed"@) && head == "no"@
    ||| key == "link"@ && head == "diverged"@
    ||| key == "plugin"@ && (head == "disabled"@ || head == "not"@)
    ||| key == "key"@ && head == "not"@
    ||| key == "sidebar"@ && head == "not"@
}

/// Whether a key and the first word of its value tell of something broken.
pub open spec fn tells_danger(key: Seq<char>, head: Seq<char>) -> bool {
    ||| key == "server"@ && head == "failed"@
    ||| key == "link"@ && head == "missing"@
}

/// The hue of a value: only those that bear on health are coloured.
pub open spec fn tone(key: Seq<char>, value: Seq<char>) -> Role {
    let head = first_word(value);
    if text::first_at(value, "rate-limited"@) is Some || text::first_at(value, "degraded"@) is Some {
        Role::Warning
    } else if tells_good(key, head) {
        Role::Success
    } else if tells_warning(key, head) {
        Role::Warning
    } else if tells_danger(key, head) {
        Role::Danger
    } else {
        Role::Body
    }
}

fn good(key: &str, head: &str) -> (r: bool)
    ensures
        r == tells_good(key@, head@),
{
    ((text::same_text(key, "present") || text::same_text(key, "installed")) && text::same_text(
        head,
        "yes",
    )) || (text::same_text(key, "server") && text::same_text(head, "boots")) || (text::same_text(
        key,
        "link",
    ) && text::same_text(head, "linked")) || (text::same_text(key, "plugin") && (text::same_text(
        head,
        "linked",
    ) || text::same_text(head, "installed"))) || (text::same_text(key, "sidebar")
        && text::same_text(head, "templated"))
}

fn warning(key: &str, head: &str) -> (r: bool)
    ensures
        r == tells_warning(key@, head@),
{
    ((text::same_text(key, "present") || text::same_text(key, "installed")) && text::same_text(
        head,
        "no",
    )) || (text::same_text(key, "link") && text::same_text(head, "diverged")) || (text::same_text(
        key,
        "plugin",
    ) && (text::same_text(head, "disabled") || text::same_text(head, "not"))) || (text::same_text(
        key,
        "key",
    ) && text::same_text(head, "not")) || (text::same_text(key, "sidebar") && text::same_text(
        head,
        "not",
    ))
}

fn danger(key: &str, head: &str) -> (r: bool)
    ensures
        r == tells_danger(key@, head@),
{
    (text::same_text(key, "server") && text::same_text(head, "failed")) || (text::same_text(
        key,
        "link",
    ) && text::same_text(head, "missing"))
}

/// The hue of a value.
pub fn value_tone(key: &str, value: &str) -> (r: Role)
    ensures
        r == tone(key@, value@),
{
    if text::find_text(value, "rate-limited").is_some() || text::find_text(
        value,
        "degraded",
    ).is_some() {
        return Role::Warning;
    }
    let all = wrapping::split_words(value);
    assert(text::views(all@).len() == all@.len());
    let head: &str = if all.len() > 0 {
        assert(text::views(all@)[0] == all@[0]@);
        all[0].as_str()
    } else {
        value
    };
    if good(key, head) {
        Role::Success
    } else if warning(key, head) {
        Role::Warning
    } else if danger(key, head) {
        Role::Danger
    } else {
        Role::Body
    }
}

/// A line of a readout: the offer of a fix, an indented line, a key with its value, or prose.
pub open spec fn readout_line(line: Seq<char>, key_w: int) -> LineView {
    if line.len() == 0 {
        paint::blank_of()
    } else if text::begins_with(line, "[f]"@) {
        paint::line_of(
            Seq::empty().push(paint::span_of("[f]"@, paint::ink(Role::Accent).strong())).push(
                paint::raw_of(" "@),
            ).push(paint::span_of(text::trim_start(line.skip(3)), paint::ink(Role::Dim))),
        )
    } else if text::begins_with(line, "  "@) {
        paint::single_of(line, paint::ink(Role::Dim))
    } else {
        match text::split_around(line, ": "@) {
            Some((key, value)) => paint::line_of(
                Seq::empty().push(
                    paint::span_of(
                        key + text::fill(
                            ' ',
                            (text::monus(key_w, key.len() as int) + 2) as nat,
                        ),
                        paint::ink(Role::Label),
                    ),
                ).push(paint::span_of(value, paint::ink(tone(key, value)))),
            ),
            None => paint::single_of(line, paint::ink(Role::Body)),
        }
    }
}

/// A line of a readout.
pub fn detail_line(line: &str, key_w: usize) -> (r: Line)
    requires
        key_w <= KEY_W_MAX,
    ensures
        r@ == readout_line(line@, key_w as int),
{
    let n: usize = line.unicode_len();
    if n == 0 {
        return paint::blank();
    }
    if text::starts_with_text(line, "[f]") {
        proof {
            reveal_strlit("[f]");
        }
        let rest = line.substring_char(3, n);
        assert(rest@ =~= line@.skip(3));
        let label = text::trim_start_text(rest);
        let mut v = paint::no_spans();
        paint::put(&mut v, "[f]", paint::ink(Role::Accent).strong());
        paint::put_raw(&mut v, " ");
        paint::put(&mut v, label, paint::ink(Role::Dim));
        return paint::line(v);
    }
    if text::starts_with_text(line, "  ") {
        return paint::single(line, paint::ink(Role::Dim));
    }
    match text::split_once_text(line, ": ") {
        Some((key, value)) => {
            let pad: usize = key_w.saturating_sub(key.unicode_len()) + 2;
            let mut v = paint::no_spans();
            let cell = text::joined(key, &text::fill_text(' ', pad));
            paint::put(&mut v, &cell, paint::ink(Role::Label));
            paint::put(&mut v, value, paint::ink(value_tone(key, value)));
            paint::line(v)
        },
        None => paint::single(line, paint::ink(Role::Body)),
    }
}

/// The length of the key of a line; lines without a key and indented lines have none.
pub open spec fn key_len(line: Seq<char>) -> int {
    if text::begins_with(line, "  "@) {
        0
    } else {
        match text::split_around(line, ": "@) {
            Some((key, _)) => key.len() as int,
            None => 0,
        }
    }
}

/// The longest key among the first `n` lines.
pub open spec fn widest_key(detail: Seq<Seq<char>>, n: nat) -> int
    decreases n,
{
    if n == 0 {
        0
    } else {
        text::max_int(widest_key(detail, (n - 1) as nat), key_len(detail[n - 1]))
    }
}

/// The width of the key column of a readout.
pub fn key_width(detail: &Vec<String>) -> (r: usize)
    ensures
        r == text::min_int(
            widest_key(text::views(detail@), detail@.len()),
            KEY_W_MAX as int,
        ),
{
    let ghost all = text::views(detail@);
    let mut widest: usize = 0;
    let mut i: usize = 0;
    while i < detail.len()
        invariant
            i <= detail@.len(),
            all == text::views(detail@),
            widest == widest_key(all, i as nat),
        decreases detail@.len() - i,
    {
        assert(all[i as int] == detail@[i as int]@);
        let line: &str = detail[i].as_str();
        let len: usize = if text::starts_with_text(line, "  ") {
            0
        } else {
            match text::split_once_text(line, ": ") {
                Some((key, _)) => key.unicode_len(),
                None => 0,
            }
        };
        widest = text::max_usize(widest, len);
        i = i + 1;
    }
    text::min_usize(widest, KEY_W_MAX)
}

/// The lines of a readout.
pub open spec fn readout(detail: Seq<Seq<char>>) -> Seq<LineView> {
    if detail.len() == 0 {
        Seq::empty().push(paint::single_of("no row selected"@, paint::ink(Role::Dim)))
    } else {
        let key_w = text::min_int(widest_key(detail, detail.len()), KEY_W_MAX as int);
        detail.map_values(|l: Seq<char>| readout_line(l, key_w))
    }
}

/// The lines of a readout; without one, a line that says so.
pub fn readout_lines(detail: &Vec<String>) -> (r: Vec<Line>)
    ensures
        paint::lines_view(r@) == readout(text::views(detail@)),
{
    let ghost all = text::views(detail@);
    assert(all.len() == detail@.len());
    let mut out = paint::no_lines();
    if detail.len() == 0 {
        paint::add_line(&mut out, paint::single("no row selected", paint::ink(Role::Dim)));
        return out;
    }
    let key_w: usize = key_width(detail);
    let ghost want = all.map_values(|l: Seq<char>| readout_line(l, key_w as int));
    assert(want.take(0) =~= Seq::<LineView>::empty());
    let mut i: usize = 0;
    while i < detail.len()
        invariant
            i <= detail@.len(),
            key_w <= KEY_W_MAX,
            all == text::views(detail@),
            want == all.map_values(|l: Seq<char>| readout_line(l, key_w as int)),
            paint::lines_view(out@) == want.take(i as int),
        decreases detail@.len() - i,
    {
        assert(all[i as int] == detail@[i as int]@);
        paint::add_line(&mut out, detail_line(&detail[i], key_w));
        i = i + 1;
        assert(paint::lines_view(out@) =~= want.take(i as int));
    }
    assert(want.take(i as int) =~= want);
    out
}

/// The furthest a readout can be scrolled, and the offset it is drawn at.
pub fn readout_scroll(total: usize, viewport: usize, scroll: u16) -> (r: (u16, u16))
    ensures
        r.0 == text::min_int(
            text::monus(total as int, viewport as int),
            u16::MAX as int,
        ),
        r.1 == text::min_int(scroll as int, r.0 as int),
{
    let furthest: u16 = text::cells(total.saturating_sub(viewport));
    (furthest, text::min_u16(scroll, furthest))
}

/// How wide the herdr popup opens.
#[derive(Clone, Copy, Debug, PartialEq, Eq, Structural)]
pub enum PopupWidth {
    Fit,
    Half,
    SplitRight,
    SplitTop,
}

/// The herdr options.
#[derive(Clone, Copy, Debug, PartialEq, Eq, Structural)]
pub struct HerdrSettings {
    pub popup_width: PopupWidth,
    pub pane_tag: bool,
    pub tag_watch_secs: u64,
    pub border_label: bool,
    pub delegate_dot: bool,
    pub delegate_row_text: bool,
}

/// A row of the herdr options.
#[derive(Debug)]
pub struct HerdrRow {
    pub option: HerdrOption,
    pub label: String,
}

/// What a [`HerdrRow`] holds.
pub struct HerdrRowView {
    pub option: HerdrOption,
    pub label: Seq<char>,
}

impl View for HerdrRow {
    type V = HerdrRowView;

    open spec fn view(&self) -> HerdrRowView {
        HerdrRowView { option: self.option, label: self.label@ }
    }
}

/// The views of a list of rows.
pub open spec fn herdr_row_views(v: Seq<HerdrRow>) -> Seq<HerdrRowView> {
    v.map_values(|r: HerdrRow| r@)
}

/// A switch: bright when on, faint when off or inert.
pub open spec fn switch_span(glyphs: GlyphsView, on: bool, inert: bool) -> SpanView {
    paint::span_of(
        if on {
            glyphs.on
        } else {
            glyphs.off
        },
        paint::ink(
            if inert || !on {
                Role::Faint
            } else {
                Role::Accent
            },
        ),
    )
}

/// A switch.
pub fn toggle_value(glyphs: &Glyphs, on: bool, inert: bool) -> (r: Span)
    ensures
        r@ == switch_span(glyphs@, on, inert),
{
    let role = if inert || !on {
        Role::Faint
    } else {
        Role::Accent
    };
    if on {
        paint::span(&glyphs.on, paint::ink(role))
    } else {
        paint::span(&glyphs.off, paint::ink(role))
    }
}

/// The widths the popup can open at.
pub open spec fn popup_choices(w: PopupWidth) -> Seq<ChoiceView> {
    Seq::empty().push(layout::choice_of("fit"@, w == PopupWidth::Fit)).push(
        layout::choice_of("half"@, w == PopupWidth::Half),
    ).push(layout::choice_of("split-right"@, w == PopupWidth::SplitRight)).push(
        layout::choice_of("split-top"@, w == PopupWidth::SplitTop),
    )
}

fn popup_options(w: PopupWidth) -> (r: Vec<Choice>)
    ensures
        layout::choice_views(r@) == popup_choices(w),
{
    let mut v = layout::no_choices();
    layout::offer_choice(&mut v, "fit", w == PopupWidth::Fit);
    layout::offer_choice(&mut v, "half", w == PopupWidth::Half);
    layout::offer_choice(&mut v, "split-right", w == PopupWidth::SplitRight);
    layout::offer_choice(&mut v, "split-top", w == PopupWidth::SplitTop);
    v
}

/// The gutter and the label of an option.
pub open spec fn option_head(
    glyphs: GlyphsView,
    label: Seq<char>,
    selected: bool,
    editing: bool,
    inert: bool,
) -> Seq<SpanView> {
    Seq::empty().push(
        if !editing && inert {
            layout::inert_caret(selected)
        } else {
            layout::gutter_span(glyphs, editing, selected)
        },
    ).push(
        paint::span_of(
            label + "  "@,
            if inert {
                paint::ink(Role::Faint)
            } else {
                layout::label_style(selected)
            },
        ),
    )
}

/// A row of the herdr options.
pub open spec fn option_spans(
    glyphs: GlyphsView,
    row: HerdrRowView,
    s: HerdrSettings,
    selected: bool,
    editing: Option<FieldEditView>,
    inert: bool,
) -> Seq<SpanView> {
    let head = option_head(glyphs, row.label, selected, editing is Some, inert);
    match row.option {
        HerdrOption::PopupWidth => layout::choices_spans(
            head,
            popup_choices(s.popup_width),
            selected,
            4,
        ),
        HerdrOption::PaneTag => head.push(switch_span(glyphs, s.pane_tag, inert)),
        HerdrOption::TagRefresh => match editing {
            Some(e) => head.push(layout::typed_span(e)).push(
                paint::span_of(" s"@, layout::unit_style(e.valid)),
            ),
            None => head.push(
                paint::span_of(
                    text::decimal(s.tag_watch_secs as nat) + "s"@,
                    paint::ink(Role::Accent),
                ),
            ),
        },
        HerdrOption::BorderLabel => head.push(switch_span(glyphs, s.border_label, inert)),
        HerdrOption::DelegateDot => head.push(switch_span(glyphs, s.delegate_dot, inert)),
        HerdrOption::DelegateRowText => head.push(
            switch_span(glyphs, s.delegate_row_text, inert),
        ),
    }
}

/// A row of the herdr options.
pub fn option_row(
    glyphs: &Glyphs,
    row: &HerdrRow,
    s: HerdrSettings,
    selected: bool,
    editing: Option<&FieldEdit>,
    inert: bool,
) -> (r: Line)
    ensures
        r@ == paint::line_of(
            option_spans(
                glyphs@,
                row@,
                s,
                selected,
                match editing {
                    Some(e) => Some(e@),
                    None => None,
                },
                inert,
            ),
        ),
{
    let mut v = paint::no_spans();
    if editing.is_none() && inert {
        paint::put_span(&mut v, layout::faint_caret(selected));
    } else {
        paint::put_span(&mut v, layout::gutter(glyphs, editing.is_some(), selected));
    }
    let label = text::joined(&row.label, "  ");
    if inert {
        paint::put(&mut v, &label, paint::ink(Role::Faint));
    } else {
        paint::put(&mut v, &label, layout::label_style(selected));
    }
    match row.option {
        HerdrOption::PopupWidth => {
            let options = popup_options(s.popup_width);
            assert(layout::choice_views(options@).len() == options@.len());
            layout::put_choices(&mut v, &options, selected);
        },
        HerdrOption::PaneTag => {
            paint::put_span(&mut v, toggle_value(glyphs, s.pane_tag, inert));
        },
        HerdrOption::TagRefresh => match editing {
            Some(e) => {
                layout::value_caret(&mut v, e);
                paint::put(&mut v, " s", layout::unit_style(e.valid));
            },
            None => {
                let secs = text::joined(&text::decimal_text(s.tag_watch_secs), "s");
                paint::put(&mut v, &secs, paint::ink(Role::Accent));
            },
        },
        HerdrOption::BorderLabel => {
            paint::put_span(&mut v, toggle_value(glyphs, s.border_label, inert));
        },
        HerdrOption::DelegateDot => {
            paint::put_span(&mut v, toggle_value(glyphs, s.delegate_dot, inert));
        },
        HerdrOption::DelegateRowText => {
            paint::put_span(&mut v, toggle_value(glyphs, s.delegate_row_text, inert));
        },
    }
    paint::line(v)
}

/// The herdr options as the pane shows them.
#[derive(Debug)]
pub struct HerdrScene {
    pub rows: Vec<HerdrRow>,
    pub settings: HerdrSettings,
    pub cursor: usize,
    /// The tag interval while it is typed, and the columns before its caret.
    pub editing: Option<(FieldEdit, usize)>,
    /// The program's own file can be rewritten.
    pub writable: bool,
    /// That file was read but does not parse.
    pub malformed: bool,
    pub focused: bool,
    pub width: usize,
}

/// What a [`HerdrScene`] holds.
pub struct HerdrSceneView {
    pub rows: Seq<HerdrRowView>,
    pub settings: HerdrSettings,
    pub cursor: int,
    pub editing: Option<(FieldEditView, int)>,
    pub writable: bool,
    pub malformed: bool,
    pub focused: bool,
    pub width: int,
}

impl View for HerdrScene {
    type V = HerdrSceneView;

    open spec fn view(&self) -> HerdrSceneView {
        HerdrSceneView {
            rows: herdr_row_views(self.rows@),
            settings: self.settings,
            cursor: self.cursor as int,
            editing: match self.editing {
                Some((e, head)) => Some((e@, head as int)),
                None => None,
            },
            writable: self.writable,
            malformed: self.malformed,
            focused: self.focused,
            width: self.width as int,
        }
    }
}

/// Why the row text cannot be changed.
pub open spec fn inert_reason(malformed: bool) -> Seq<char> {
    if malformed {
        "herdr's config doesn't parse, so clauth can't rewrite the row"@
    } else {
        "herdr's config can't be read, so clauth can't rewrite the row"@
    }
}

/// Why the row text cannot be changed.
pub fn herdr_row_text_tooltip(malformed: bool) -> (r: &'static str)
    ensures
        r@ == inert_reason(malformed),
{
    if malformed {
        "herdr's config doesn't parse, so clauth can't rewrite the row"
    } else {
        "herdr's config can't be read, so clauth can't rewrite the row"
    }
}

/// The readout and the heading of the options below it.
pub open spec fn herdr_head(prose: Seq<LineView>, focused: bool) -> Seq<LineView> {
    prose.push(paint::blank_of()).push(
        paint::single_of(
            "OPTIONS"@,
            if focused {
                paint::ink(Role::Label).ruled()
            } else {
                paint::ink(Role::Label)
            },
        ),
    )
}

/// The pane with one more option.
pub open spec fn with_option(
    before: PaneView,
    glyphs: GlyphsView,
    s: HerdrSceneView,
    i: int,
) -> PaneView {
    let row = s.rows[i];
    let selected = s.focused && i == s.cursor;
    let inert = row.option == HerdrOption::DelegateRowText && !s.writable;
    let y = before.lines.len() as int;
    let typed = if row.option == HerdrOption::TagRefresh {
        s.editing
    } else {
        None
    };
    let line = paint::line_of(
        option_spans(
            glyphs,
            row,
            s.settings,
            selected,
            match typed {
                Some((e, _)) => Some(e),
                None => None,
            },
            inert,
        ),
    );
    let lines = match typed {
        Some((e, _)) => before.lines.push(line) + layout::range_note(
            "min is 1 s"@,
            e.valid,
            s.width,
        ),
        None => before.lines.push(
            if selected {
                layout::barred(line, s.width, paint::ink(Role::Plain))
            } else {
                line
            },
        ) + (if selected && inert {
            layout::help_note(inert_reason(s.malformed), s.width)
        } else {
            Seq::empty()
        }),
    };
    PaneView {
        lines,
        from: if selected {
            y
        } else {
            before.from
        },
        to: if selected {
            lines.len() as int
        } else {
            before.to
        },
        caret: match typed {
            Some((_, head)) => Some(
                (y, text::min_int(row.label.len() + 4 + head, usize::MAX as int)),
            ),
            None => before.caret,
        },
    }
}

/// The pane with the first `n` options.
pub open spec fn herdr_rows(
    prose: Seq<LineView>,
    glyphs: GlyphsView,
    s: HerdrSceneView,
    n: nat,
) -> PaneView
    decreases n,
{
    if n == 0 {
        PaneView { lines: herdr_head(prose, s.focused), from: 0, to: 1, caret: None }
    } else {
        with_option(herdr_rows(prose, glyphs, s, (n - 1) as nat), glyphs, s, n - 1)
    }
}

/// The readout of herdr with its options below: the lines, the block that has the focus and the
/// text cursor.
pub fn herdr_pane(glyphs: &Glyphs, prose: Vec<Line>, s: &HerdrScene) -> (r: Pane)
    ensures
        r@ == herdr_rows(paint::lines_view(prose@), glyphs@, s@, s@.rows.len()),
{
    let ghost all = s@.rows;
    let ghost told = paint::lines_view(prose@);
    assert(all.len() == s.rows@.len());
    let mut lines = prose;
    paint::add_line(&mut lines, paint::blank());
    if s.focused {
        paint::add_line(&mut lines, paint::single("OPTIONS", paint::ink(Role::Label).ruled()));
    } else {
        paint::add_line(&mut lines, paint::single("OPTIONS", paint::ink(Role::Label)));
    }
    let mut pane = Pane { lines, from: 0, to: 1, caret: None };
    let mut i: usize = 0;
    while i < s.rows.len()
        invariant
            i <= s.rows@.len(),
            all == s@.rows,
            pane@ == herdr_rows(told, glyphs@, s@, i as nat),
        decreases s.rows@.len() - i,
    {
        let ghost before = pane@;
        assert(all[i as int] == s.rows@[i as int]@);
        pane = add_option(pane, glyphs, s, i);
        assert(pane@ == with_option(before, glyphs@, s@, i as int));
        i = i + 1;
    }
    pane
}

fn add_option(before: Pane, glyphs: &Glyphs, s: &HerdrScene, i: usize) -> (r: Pane)
    requires
        i < s.rows@.len(),
    ensures
        r@ == with_option(before@, glyphs@, s@, i as int),
{
    let row = &s.rows[i];
    assert(s@.rows[i as int] == row@);
    let selected = s.focused && i == s.cursor;
    let inert = row.option == HerdrOption::DelegateRowText && !s.writable;
    let mut lines = before.lines;
    assert(paint::lines_view(lines@).len() == lines@.len());
    let y: usize = lines.len();
    let mut caret = before.caret;
    let mut typed: bool = false;
    if row.option == HerdrOption::TagRefresh {
        if let Some((e, head)) = &s.editing {
            typed = true;
            let x: usize = row.label.as_str().unicode_len().saturating_add(4).saturating_add(*head);
            caret = Some((y, x));
            paint::add_line(
                &mut lines,
                option_row(glyphs, row, s.settings, selected, Some(e), inert),
            );
            paint::add_lines(&mut lines, &layout::range_tooltip("min is 1 s", e.valid, s.width));
        }
    }
    if !typed {
        let line = option_row(glyphs, row, s.settings, selected, None, inert);
        if selected {
            paint::add_line(&mut lines, layout::highlight_row(line, s.width));
        } else {
            paint::add_line(&mut lines, line);
        }
        let ghost shown = paint::lines_view(lines@);
        if selected && inert {
            paint::add_lines(
                &mut lines,
                &layout::help_tooltip_lines(herdr_row_text_tooltip(s.malformed), s.width),
            );
        } else {
            assert(shown + Seq::<LineView>::empty() =~= shown);
        }
    }
    assert(paint::lines_view(lines@).len() == lines@.len());
    let from: usize = if selected {
        y
    } else {
        before.from
    };
    let to: usize = if selected {
        lines.len()
    } else {
        before.to
    };
    Pane { lines, from, to, caret }
}

/// A row of the list is exactly as wide as the pane wherever its content fits.
pub proof fn rows_fill_the_list(health: Health, label: Seq<char>, row: SelectorRow)
    requires
        text::max_int(label.len() as int, row.label_pad as int) + 4 + (if row.has_fix {
            3int
        } else {
            0
        }) <= row.content_w,
    ensures
        paint::chars_in(selector_line(health, label, ""@, row).spans) == row.content_w,
{
    reveal_strlit("❯ ");
    reveal_strlit("  ");
    reveal_strlit("● ");
    reveal_strlit("[f]");
    reveal_strlit("");
    let head = selector_head(health, label, row);
    lemma_head_chars(health, label, row);
    let inner = if row.has_fix {
        row.content_w - 3
    } else {
        row.content_w as int
    };
    let filled = layout::padded(head, inner, row.selected);
    if inner - paint::chars_in(head) > 0 {
        assert(filled.drop_last() =~= head);
    }
    assert(paint::chars_in(filled) == inner);
    if row.has_fix {
        let spans = selector_line(health, label, ""@, row).spans;
        assert(spans.drop_last() =~= filled);
    }
}

proof fn lemma_head_chars(health: Health, label: Seq<char>, row: SelectorRow)
    ensures
        paint::chars_in(selector_head(health, label, row)) == text::max_int(
            label.len() as int,
            row.label_pad as int,
        ) + 4,
{
    reveal_strlit("❯ ");
    reveal_strlit("  ");
    reveal_strlit("● ");
    let head = selector_head(health, label, row);
    let three = head.take(3);
    let two = head.take(2);
    let one = head.take(1);
    assert(one.drop_last() =~= Seq::<SpanView>::empty());
    assert(two.drop_last() =~= one);
    assert(three.drop_last() =~= two);
    assert(paint::chars_in(Seq::<SpanView>::empty()) == 0);
    assert(paint::chars_in(one) == 2);
    assert(paint::chars_in(two) == 4);
    assert(paint::chars_in(three) == 4 + label.len());
    if head.len() == 4 {
        assert(head.drop_last() =~= three);
    } else {
        assert(head =~= three);
    }
}

} // verus!
