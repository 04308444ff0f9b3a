//! Shared pieces of the panes: columns, selection bars, tooltips, scrolling.

use vstd::prelude::*;

use crate::input::InputState;
use crate::paint;
use crate::paint::{Fill, Line, LineView, Role, Span, SpanView, Style};
use crate::text;
use crate::wrapping;

verus! {

/// Width of the picker beside a detail pane: three tenths of the body, between 20 and 40 cells.
pub open spec fn picker_cells(body_w: int) -> int {
    let third = text::min_int(body_w * 3, u16::MAX as int) / 10;
    text::min_int(text::max_int(third, 20), 40)
}

/// Width of the picker beside a detail pane.
pub fn selector_width(body_w: u16) -> (r: u16)
    ensures
        r == picker_cells(body_w as int),
        20 <= r <= 40,
{
    let share: u16 = if body_w <= 21845 {
        (body_w * 3) / 10
    } else {
        6553
    };
    text::min_u16(text::max_u16(share, 20), 40)
}

/// Columns taken by the text before the caret.
pub fn head_cols(input: &InputState) -> (r: usize)
    ensures
        r == input@.before().len(),
{
    let (head, _tail) = input.halves();
    head.unicode_len()
}

/// A key left-justified to `width` characters, then the gutter. A longer key keeps its length.
pub open spec fn key_text(key: Seq<char>, width: nat, gutter: nat) -> Seq<char> {
    key + text::fill(' ', text::monus(width as int, key.len() as int) as nat) + text::fill(
        ' ',
        gutter,
    )
}

/// A key left-justified to `width` characters, then the gutter.
pub fn key_cell(key: &str, width: usize, gutter: usize) -> (r: String)
    ensures
        r@ == key_text(key@, width as nat, gutter as nat),
{
    let len: usize = key.unicode_len();
    let pad = text::fill_text(' ', width.saturating_sub(len));
    let gap = text::fill_text(' ', gutter);
    text::joined3(key, &pad, &gap)
}

/// One choice of a cycle row: bracketed where it is the current one and the row has the cursor.
pub open spec fn choice_span(label: Seq<char>, active: bool, row_selected: bool) -> SpanView {
    paint::span_of(
        if active && row_selected {
            "["@ + label + "]"@
        } else {
            label
        },
        paint::ink(
            if active {
                Role::Accent
            } else {
                Role::Faint
            },
        ),
    )
}

/// One choice of a cycle row.
pub fn cycle_option(label: &str, active: bool, row_selected: bool) -> (r: Span)
    ensures
        r@ == choice_span(label@, active, row_selected),
{
    let role = if active {
        Role::Accent
    } else {
        Role::Faint
    };
    if active && row_selected {
        let t = text::joined3("[", label, "]");
        paint::span(&t, paint::ink(role))
    } else {
        paint::span(label, paint::ink(role))
    }
}

/// The ground of the row under the cursor.
#[verifier::allow_in_spec]
pub fn hovered() -> (r: Style)
    returns
        paint::ink(Role::Plain).on(Fill::Hover),
{
    paint::ink(Role::Plain).on(Fill::Hover)
}

/// A line as the selection bar, its filler in `style`.
pub open spec fn barred(l: LineView, width: int, style: Style) -> LineView {
    let pad = text::monus(width, paint::spans_columns(l.spans));
    LineView {
        selected: true,
        spans: if pad > 0 {
            l.spans.push(paint::span_of(text::fill(' ', pad as nat), style))
        } else {
            l.spans
        },
        ..l
    }
}

fn bar(l: Line, width: usize, style: Style) -> (r: Line)
    ensures
        r@ == barred(l@, width as int, style),
{
    let w: usize = paint::columns_of(&l.spans);
    let pad: usize = width.saturating_sub(w);
    let mut spans = l.spans;
    if pad > 0 {
        let filler = text::fill_text(' ', pad);
        paint::put(&mut spans, &filler, style);
    }
    Line { spans, selected: true, right: l.right }
}

/// The full-width selection bar.
pub fn highlight_row(line: Line, width: usize) -> (r: Line)
    ensures
        r@ == barred(line@, width as int, paint::ink(Role::Plain)),
{
    bar(line, width, paint::ink(Role::Plain))
}

/// A row as its pane shows it: a bar where it is selected, tinted to the edge where another pane
/// has the focus.
pub open spec fn shown_row(l: LineView, selected: bool, focused: bool, width: int) -> LineView {
    if !selected {
        l
    } else if focused {
        barred(l, width, paint::ink(Role::Plain))
    } else {
        barred(l, width, hovered())
    }
}

/// A row as its pane shows it.
pub fn select_line(line: Line, selected: bool, focused: bool, width: u16) -> (r: Line)
    ensures
        r@ == shown_row(line@, selected, focused, width as int),
{
    if !selected {
        line
    } else if focused {
        highlight_row(line, width as usize)
    } else {
        bar(line, width as usize, hovered())
    }
}

/// The colour of an account's name: the active one stands out.
#[verifier::allow_in_spec]
pub fn name_color(active: bool) -> (r: Style)
    returns
        paint::ink(
            if active {
                Role::Accent2
            } else {
                Role::Text
            },
        ),
{
    paint::ink(
        if active {
            Role::Accent2
        } else {
            Role::Text
        },
    )
}

/// The caret cell of a row.
pub open spec fn caret_span(shown: bool) -> SpanView {
    if shown {
        paint::span_of("❯ "@, paint::ink(Role::Accent).strong())
    } else {
        paint::raw_of("  "@)
    }
}

/// The caret cell of a row.
pub fn caret(shown: bool) -> (r: Span)
    ensures
        r@ == caret_span(shown),
{
    if shown {
        paint::span("❯ ", paint::ink(Role::Accent).strong())
    } else {
        paint::span("  ", paint::ink(Role::Plain))
    }
}

/// A row of the account picker.
pub open spec fn picked_row(
    selected: bool,
    focused: bool,
    name: Seq<char>,
    style: Style,
    width: int,
) -> LineView {
    shown_row(
        paint::line_of(
            Seq::empty().push(caret_span(selected && focused)).push(
                paint::span_of(name, paint::bold_when(style, selected && focused)),
            ),
        ),
        selected,
        focused,
        width,
    )
}

/// A row of the account picker: caret and bold only in the focused pane.
pub fn picker_row(selected: bool, focused: bool, name: &str, name_style: Style, width: u16) -> (r:
    Line)
    ensures
        r@ == picked_row(selected, focused, name@, name_style, width as int),
{
    let mut v = paint::no_spans();
    paint::put_span(&mut v, caret(selected && focused));
    paint::put(&mut v, name, paint::bold_when(name_style, selected && focused));
    select_line(paint::line(v), selected, focused, width)
}

/// The two lines of an empty list: what is missing, and the key that helps.
pub open spec fn empty_lines(hint: Seq<char>, hotkey: Seq<char>, action: Seq<char>) -> Seq<
    LineView,
> {
    Seq::empty().push(paint::single_of(hint, paint::ink(Role::Dim))).push(
        paint::line_of(
            Seq::empty().push(paint::span_of(hotkey, paint::ink(Role::Accent))).push(
                paint::span_of(" "@ + action, paint::ink(Role::Dim)),
            ),
        ),
    )
}

/// The two lines of an empty list.
pub fn empty_state(hint: &str, hotkey: &str, action: &str) -> (r: Vec<Line>)
    ensures
        paint::lines_view(r@) == empty_lines(hint@, hotkey@, action@),
{
    let mut out = paint::no_lines();
    paint::add_line(&mut out, paint::single(hint, paint::ink(Role::Dim)));
    let mut v = paint::no_spans();
    paint::put(&mut v, hotkey, paint::ink(Role::Accent));
    let t = text::joined(" ", action);
    paint::put(&mut v, &t, paint::ink(Role::Dim));
    paint::add_line(&mut out, paint::line(v));
    out
}

/// Cells of the scrollbar's thumb: the visible share of the content, at least one cell.
pub open spec fn thumb_len(total: int, viewport: int, height: int) -> int {
    text::min_int(text::max_int((height * viewport) / total, 1), height)
}

/// First cell of the thumb: the share of the way the content has scrolled.
pub open spec fn thumb_top(total: int, offset: int, viewport: int, height: int) -> int {
    ((height - thumb_len(total, viewport, height)) * offset) / (total - viewport)
}

/// The scrollbar's thumb as its first cell and its length; none where everything is on screen.
pub fn scroll_thumb(total: usize, offset: usize, viewport: usize, height: u16) -> (r: Option<
    (usize, usize),
>)
    requires
        height * viewport <= usize::MAX,
        height * offset <= usize::MAX,
    ensures
        r is Some <==> total > viewport && viewport > 0 && height > 0,
        r matches Some(t) ==> {
            &&& t.0 == thumb_top(total as int, offset as int, viewport as int, height as int)
            &&& t.1 == thumb_len(total as int, viewport as int, height as int)
        },
{
    if total <= viewport || viewport == 0 || height == 0 {
        return None;
    }
    let h: usize = height as usize;
    let share: usize = (h * viewport) / total;
    let len: usize = text::min_usize(text::max_usize(share, 1), h);
    assert((h - len) * offset <= h * offset) by (nonlinear_arith)
        requires
            0 <= len <= h,
            0 <= offset,
    ;
    assert(0 <= (h - len) * offset) by (nonlinear_arith)
        requires
            0 <= len <= h,
            0 <= offset,
    ;
    let top: usize = ((h - len) * offset) / (total - viewport);
    Some((top, len))
}

/// However far the content has scrolled, the thumb is at least one cell and stays on its track.
pub proof fn thumb_stays_on_track(total: int, offset: int, viewport: int, height: int)
    requires
        0 < viewport < total,
        0 <= offset <= total - viewport,
        0 < height,
    ensures
        1 <= thumb_len(total, viewport, height) <= height,
        0 <= thumb_top(total, offset, viewport, height),
        thumb_top(total, offset, viewport, height) + thumb_len(total, viewport, height) <= height,
        offset == 0 ==> thumb_top(total, offset, viewport, height) == 0,
{
    let room = height - thumb_len(total, viewport, height);
    let last = total - viewport;
    assert(0 <= (room * offset) / last <= room) by (nonlinear_arith)
        requires
            0 <= room,
            0 <= offset <= last,
            0 < last,
    ;
    if offset == 0 {
        assert((room * 0) / last == 0) by (nonlinear_arith)
            requires
                0 < last,
        ;
    }
}

/// Rows of context kept past the focused block.
pub const SCROLL_PAD: usize = 3;

/// The smallest offset that keeps the focused block and some context on screen.
pub open spec fn offset_for(total: int, viewport: int, from: int, to: int) -> int {
    if viewport == 0 || total <= viewport {
        0
    } else {
        let pad = text::min_int(SCROLL_PAD as int, (viewport - 1) / 2);
        text::min_int(text::min_int(text::monus(to + pad, viewport), from), total - viewport)
    }
}

/// The offset at which a form pane shows its focused block `focus.0 .. focus.1`.
pub fn scroll_offset(total: usize, viewport: usize, focus: (usize, usize)) -> (r: usize)
    ensures
        r == offset_for(total as int, viewport as int, focus.0 as int, focus.1 as int),
{
    if viewport == 0 || total <= viewport {
        return 0;
    }
    let pad: usize = text::min_usize(SCROLL_PAD, (viewport - 1) / 2);
    let reach: usize = focus.1.saturating_add(pad).saturating_sub(viewport);
    text::min_usize(text::min_usize(reach, focus.0), total - viewport)
}

/// The focused row is on screen, its whole block is where it fits, and no row past the content
/// is.
pub proof fn focus_stays_on_screen(total: int, viewport: int, from: int, to: int)
    requires
        0 < viewport,
        0 <= from < to <= total,
    ensures
        ({
            let at = offset_for(total, viewport, from, to);
            &&& 0 <= at <= from < at + viewport || total <= viewport && at == 0
            &&& at + viewport <= total || at == 0
            &&& to - from <= viewport ==> to <= at + viewport || total <= viewport
        }),
{
}

/// The leading cells of a tooltip's first and further lines.
pub open spec fn tooltip_line(
    segs: Seq<Seq<char>>,
    i: int,
    first: Seq<char>,
    rest: Seq<char>,
    leader: Style,
    style: Style,
) -> LineView {
    paint::line_of(
        Seq::empty().push(
            paint::span_of(
                if i == 0 {
                    first
                } else {
                    rest
                },
                leader,
            ),
        ).push(paint::span_of(segs[i], style)),
    )
}

/// A note hung under a row, wrapped to the pane.
pub open spec fn hung(
    note: Seq<char>,
    width: int,
    first: Seq<char>,
    rest: Seq<char>,
    leader: Style,
    style: Style,
) -> Seq<LineView> {
    let segs = wrapping::wrapped(note, text::max_int(text::monus(width, 3), 8) as nat);
    Seq::new(segs.len(), |i: int| tooltip_line(segs, i, first, rest, leader, style))
}

fn hang(note: &str, width: usize, first: &str, rest: &str, leader: Style, style: Style) -> (r: Vec<
    Line,
>)
    ensures
        paint::lines_view(r@) == hung(note@, width as int, first@, rest@, leader, style),
{
    let w: usize = text::max_usize(width.saturating_sub(3), 8);
    let segs = wrapping::wrap_words(note, w);
    let ghost all = text::views(segs@);
    let mut out = paint::no_lines();
    let mut i: usize = 0;
    assert(Seq::new(0, |j: int| tooltip_line(all, j, first@, rest@, leader, style)) =~= Seq::<
        LineView,
    >::empty());
    while i < segs.len()
        invariant
            i <= segs@.len(),
            all == text::views(segs@),
            paint::lines_view(out@) == Seq::new(
                i as nat,
                |j: int| tooltip_line(all, j, first@, rest@, leader, style),
            ),
        decreases segs@.len() - i,
    {
        let mut v = paint::no_spans();
        if i == 0 {
            paint::put(&mut v, first, leader);
        } else {
            paint::put(&mut v, rest, leader);
        }
        paint::put(&mut v, &segs[i], style);
        assert(all[i as int] == segs@[i as int]@);
        paint::add_line(&mut out, paint::line(v));
        i = i + 1;
        assert(paint::lines_view(out@) =~= Seq::new(
            i as nat,
            |j: int| tooltip_line(all, j, first@, rest@, leader, style),
        ));
    }
    out
}

/// A help note under a row.
pub open spec fn help_note(note: Seq<char>, width: int) -> Seq<LineView> {
    hung(note, width, " └ "@, "   "@, paint::ink(Role::Rule), paint::ink(Role::Faint))
}

/// A note under a field that holds no valid value.
pub open spec fn invalid_note(note: Seq<char>, width: int) -> Seq<LineView> {
    hung(note, width, " └ "@, "   "@, paint::ink(Role::Danger), paint::ink(Role::Danger))
}

/// A note that is one more branch of a rail: the rail stays open where another entry follows.
pub open spec fn rail_note(note: Seq<char>, width: int, open: bool) -> Seq<LineView> {
    if open {
        hung(note, width, "├ "@, "│ "@, paint::ink(Role::Rule), paint::ink(Role::Faint))
    } else {
        hung(note, width, "└ "@, "  "@, paint::ink(Role::Rule), paint::ink(Role::Faint))
    }
}

/// A help note under a row.
pub fn help_tooltip_lines(text: &str, width: usize) -> (r: Vec<Line>)
    ensures
        paint::lines_view(r@) == help_note(text@, width as int),
{
    hang(text, width, " └ ", "   ", paint::ink(Role::Rule), paint::ink(Role::Faint))
}

/// A note under a field that holds no valid value.
pub fn invalid_tooltip_lines(text: &str, width: usize) -> (r: Vec<Line>)
    ensures
        paint::lines_view(r@) == invalid_note(text@, width as int),
{
    hang(text, width, " └ ", "   ", paint::ink(Role::Danger), paint::ink(Role::Danger))
}

/// A note that is one more branch of a rail.
pub fn rail_hint_lines(text: &str, width: usize, open: bool) -> (r: Vec<Line>)
    ensures
        paint::lines_view(r@) == rail_note(text@, width as int, open),
{
    if open {
        hang(text, width, "├ ", "│ ", paint::ink(Role::Rule), paint::ink(Role::Faint))
    } else {
        hang(text, width, "└ ", "  ", paint::ink(Role::Rule), paint::ink(Role::Faint))
    }
}

/// The label of a form row.
#[verifier::allow_in_spec]
pub fn label_style(focused: bool) -> (r: Style)
    returns
        (if focused {
            paint::ink(Role::Text).strong()
        } else {
            paint::ink(Role::Dim)
        }),
{
    if focused {
        paint::ink(Role::Text).strong()
    } else {
        paint::ink(Role::Dim)
    }
}

/// A bracketed status word.
pub open spec fn pill_spans(v: Seq<SpanView>, label: Seq<char>, style: Style) -> Seq<SpanView> {
    v.push(paint::span_of("[ "@, paint::ink(Role::Dim))).push(paint::span_of(label, style)).push(
        paint::span_of(" ]"@, paint::ink(Role::Dim)),
    )
}

/// Appends a bracketed status word.
pub fn put_pill(v: &mut Vec<Span>, label: &str, style: Style)
    ensures
        paint::spans_view(final(v)@) == pill_spans(paint::spans_view(old(v)@), label@, style),
{
    paint::put(v, "[ ", paint::ink(Role::Dim));
    paint::put(v, label, style);
    paint::put(v, " ]", paint::ink(Role::Dim));
}

/// The border and the title of a pane.
#[derive(Debug)]
pub struct Chrome {
    pub border: Role,
    pub title: Vec<Span>,
}

/// The upper-case form of a text.
pub uninterp spec fn upper(text: Seq<char>) -> Seq<char>;

/// `str::to_uppercase`: the Unicode upper-case form, a function of the text alone.
#[verifier::external_body]
pub(crate) fn uppercase(text: &str) -> (r: String)
    ensures
        r@ == upper(text@),
{
    text.to_uppercase()
}

/// The lower-case form of a text.
pub uninterp spec fn lower(text: Seq<char>) -> Seq<char>;

/// `str::to_lowercase`: the Unicode lower-case form, a function of the text alone.
#[verifier::external_body]
pub(crate) fn lowercase(text: &str) -> (r: String)
    ensures
        r@ == lower(text@),
{
    text.to_lowercase()
}

/// The border of a pane: stronger in focus.
#[verifier::allow_in_spec]
pub fn border_role(focused: bool) -> (r: Role)
    returns
        (if focused {
            Role::RuleStrong
        } else {
            Role::Rule
        }),
{
    if focused {
        Role::RuleStrong
    } else {
        Role::Rule
    }
}

/// The title of a pane: always italic, bold in focus, warm on the first pane of a screen.
#[verifier::allow_in_spec]
pub fn title_style(focused: bool, first: bool) -> (r: Style)
    returns
        paint::bold_when(
            paint::ink(
                if first {
                    Role::Accent2
                } else {
                    Role::Dim
                },
            ).slanted(),
            focused,
        ),
{
    paint::bold_when(
        paint::ink(
            if first {
                Role::Accent2
            } else {
                Role::Dim
            },
        ).slanted(),
        focused,
    )
}

/// The title spans of a pane; a spinner frame sits inside the inset while data is loading.
pub open spec fn title_spans(label: Seq<char>, focused: bool, first: bool, loading: Option<
    Seq<char>,
>) -> Seq<SpanView> {
    let base = Seq::empty().push(
        paint::span_of(" "@ + label + " "@, title_style(focused, first)),
    );
    match loading {
        Some(frame) => base.push(paint::span_of(frame + " "@, paint::ink(Role::Accent))),
        None => base,
    }
}

fn chrome(label: &str, focused: bool, first: bool, loading: Option<&str>) -> (r: Chrome)
    ensures
        r.border == border_role(focused),
        paint::spans_view(r.title@) == title_spans(
            label@,
            focused,
            first,
            match loading {
                Some(f) => Some(f@),
                None => None,
            },
        ),
{
    let mut title = paint::no_spans();
    let t = text::joined3(" ", label, " ");
    paint::put(&mut title, &t, title_style(focused, first));
    if let Some(frame) = loading {
        let f = text::joined(frame, " ");
        paint::put(&mut title, &f, paint::ink(Role::Accent));
    }
    Chrome { border: border_role(focused), title }
}

/// The chrome of a pane with a structural title.
pub fn section_box(title: &str, focused: bool, first: bool) -> (r: Chrome)
    ensures
        r.border == border_role(focused),
        paint::spans_view(r.title@) == title_spans(upper(title@), focused, first, None),
{
    let label = uppercase(title);
    chrome(&label, focused, first, None)
}

/// The chrome of a pane whose title is a name and keeps its case.
pub fn section_box_verbatim(title: &str, focused: bool, first: bool) -> (r: Chrome)
    ensures
        r.border == border_role(focused),
        paint::spans_view(r.title@) == title_spans(title@, focused, first, None),
{
    chrome(title, focused, first, None)
}

/// The chrome of a pane whose data is still loading.
pub fn section_box_loading(title: &str, focused: bool, first: bool, frame: &str) -> (r: Chrome)
    ensures
        r.border == border_role(focused),
        paint::spans_view(r.title@) == title_spans(upper(title@), focused, first, Some(frame@)),
{
    let label = uppercase(title);
    chrome(&label, focused, first, Some(frame))
}

/// A key cell takes the column's width and the gutter, or the key's own length and the gutter.
pub proof fn key_cells_line_up(key: Seq<char>, width: nat, gutter: nat)
    ensures
        key_text(key, width, gutter).len() == text::max_int(width as int, key.len() as int)
            + gutter,
        key_text(key, width, gutter).take(key.len() as int) == key,
{
    assert(key_text(key, width, gutter).take(key.len() as int) =~= key);
}

/// The glyphs the theme picks per tier.
#[derive(Debug)]
pub struct Glyphs {
    /// Marks the row being edited.
    pub edit: String,
    /// A switch that is on.
    pub on: String,
    /// A switch that is off.
    pub off: String,
}

/// What [`Glyphs`] holds.
pub struct GlyphsView {
    pub edit: Seq<char>,
    pub on: Seq<char>,
    pub off: Seq<char>,
}

impl View for Glyphs {
    type V = GlyphsView;

    open spec fn view(&self) -> GlyphsView {
        GlyphsView { edit: self.edit@, on: self.on@, off: self.off@ }
    }
}

/// The leading cells of a form row.
pub open spec fn gutter_span(glyphs: GlyphsView, editing: bool, selected: bool) -> SpanView {
    if editing {
        paint::span_of(glyphs.edit + " "@, paint::ink(Role::Accent).strong())
    } else {
        caret_span(selected)
    }
}

/// The leading cells of a form row.
pub fn gutter(glyphs: &Glyphs, editing: bool, selected: bool) -> (r: Span)
    ensures
        r@ == gutter_span(glyphs@, editing, selected),
{
    if editing {
        let t = text::joined(&glyphs.edit, " ");
        paint::span(&t, paint::ink(Role::Accent).strong())
    } else {
        caret(selected)
    }
}

/// The caret of a row that cannot be acted on.
pub open spec fn inert_caret(selected: bool) -> SpanView {
    if selected {
        paint::span_of("❯ "@, paint::ink(Role::Faint))
    } else {
        paint::raw_of("  "@)
    }
}

/// The caret of a row that cannot be acted on.
pub fn faint_caret(selected: bool) -> (r: Span)
    ensures
        r@ == inert_caret(selected),
{
    if selected {
        paint::span("❯ ", paint::ink(Role::Faint))
    } else {
        paint::span("  ", paint::ink(Role::Plain))
    }
}

/// One choice of a setting.
#[derive(Debug)]
pub struct Choice {
    pub label: String,
    pub active: bool,
}

/// What a [`Choice`] holds.
pub struct ChoiceView {
    pub label: Seq<char>,
    pub active: bool,
}

impl View for Choice {
    type V = ChoiceView;

    open spec fn view(&self) -> ChoiceView {
        ChoiceView { label: self.label@, active: self.active }
    }
}

/// A choice of the given label.
pub open spec fn choice_of(label: Seq<char>, active: bool) -> ChoiceView {
    ChoiceView { label, active }
}

/// The views of a list of choices.
pub open spec fn choice_views(v: Seq<Choice>) -> Seq<ChoiceView> {
    v.map_values(|c: Choice| c@)
}

/// A list of choices with nothing in it.
pub fn no_choices() -> (r: Vec<Choice>)
    ensures
        choice_views(r@) == Seq::<ChoiceView>::empty(),
{
    let v: Vec<Choice> = Vec::new();
    assert(choice_views(v@) =~= Seq::<ChoiceView>::empty());
    v
}

/// Appends a choice.
pub fn offer_choice(v: &mut Vec<Choice>, label: &str, active: bool)
    ensures
        choice_views(final(v)@) == choice_views(old(v)@).push(choice_of(label@, active)),
{
    v.push(Choice { label: label.to_string(), active });
    assert(choice_views(v@) =~= choice_views(old(v)@).push(choice_of(label@, active)));
}

/// The spans of the first `n` choices, two blanks between two.
pub open spec fn choices_spans(
    before: Seq<SpanView>,
    v: Seq<ChoiceView>,
    row_selected: bool,
    n: nat,
) -> Seq<SpanView>
    decreases n,
{
    if n == 0 {
        before
    } else {
        let rest = choices_spans(before, v, row_selected, (n - 1) as nat);
        let gapped = if n > 1 {
            rest.push(paint::raw_of("  "@))
        } else {
            rest
        };
        gapped.push(choice_span(v[n - 1].label, v[n - 1].active, row_selected))
    }
}

/// Appends the choices of a cycle row.
pub fn put_choices(spans: &mut Vec<Span>, v: &Vec<Choice>, row_selected: bool)
    ensures
        paint::spans_view(final(spans)@) == choices_spans(
            paint::spans_view(old(spans)@),
            choice_views(v@),
            row_selected,
            v@.len(),
        ),
{
    let ghost before = paint::spans_view(spans@);
    let ghost all = choice_views(v@);
    let mut i: usize = 0;
    while i < v.len()
        invariant
            i <= v@.len(),
            all == choice_views(v@),
            paint::spans_view(spans@) == choices_spans(before, all, row_selected, i as nat),
        decreases v@.len() - i,
    {
        assert(all[i as int] == v@[i as int]@);
        if i > 0 {
            paint::put_raw(spans, "  ");
        }
        paint::put_span(spans, cycle_option(&v[i].label, v[i].active, row_selected));
        i = i + 1;
    }
}

/// A field being typed.
#[derive(Debug)]
pub struct FieldEdit {
    pub value: String,
    /// The value would be accepted.
    pub valid: bool,
}

/// What a [`FieldEdit`] holds.
pub struct FieldEditView {
    pub value: Seq<char>,
    pub valid: bool,
}

impl View for FieldEdit {
    type V = FieldEditView;

    open spec fn view(&self) -> FieldEditView {
        FieldEditView { value: self.value@, valid: self.valid }
    }
}

/// The optional view of a field being typed.
pub open spec fn opt_edit(e: Option<FieldEdit>) -> Option<FieldEditView> {
    match e {
        Some(x) => Some(x@),
        None => None,
    }
}

/// The typed value.
pub open spec fn typed_span(e: FieldEditView) -> SpanView {
    paint::span_of(
        e.value,
        paint::ink(
            if e.valid {
                Role::Body
            } else {
                Role::Danger
            },
        ).on(Fill::Sunken),
    )
}

/// Appends the typed value.
pub fn value_caret(v: &mut Vec<Span>, e: &FieldEdit)
    ensures
        paint::spans_view(final(v)@) == paint::spans_view(old(v)@).push(typed_span(e@)),
{
    let role = if e.valid {
        Role::Body
    } else {
        Role::Danger
    };
    paint::put(v, &e.value, paint::ink(role).on(Fill::Sunken));
}

/// The unit beside a typed value.
#[verifier::allow_in_spec]
pub fn unit_style(valid: bool) -> (r: Style)
    returns
        paint::ink(
            if valid {
                Role::Faint
            } else {
                Role::Danger
            },
        ),
{
    paint::ink(
        if valid {
            Role::Faint
        } else {
            Role::Danger
        },
    )
}

/// The accepted range under a typed value.
pub open spec fn range_note(range: Seq<char>, valid: bool, width: int) -> Seq<LineView> {
    if valid {
        help_note(range, width)
    } else {
        invalid_note(range, width)
    }
}

/// The accepted range under a typed value.
pub fn range_tooltip(range: &str, valid: bool, width: usize) -> (r: Vec<Line>)
    ensures
        paint::lines_view(r@) == range_note(range@, valid, width as int),
{
    if valid {
        help_tooltip_lines(range, width)
    } else {
        invalid_tooltip_lines(range, width)
    }
}

/// A style on the ground of the row under the cursor.
#[verifier::allow_in_spec]
pub fn tinted(style: Style, selected: bool) -> (r: Style)
    returns
        (if selected {
            style.on(Fill::Hover)
        } else {
            style
        }),
{
    if selected {
        style.on(Fill::Hover)
    } else {
        style
    }
}

/// Spans padded with blanks to a width.
pub open spec fn padded(v: Seq<SpanView>, content_w: int, selected: bool) -> Seq<SpanView> {
    let pad = text::monus(content_w, paint::chars_in(v) as int);
    if pad > 0 {
        v.push(
            paint::span_of(text::fill(' ', pad as nat), tinted(paint::ink(Role::Plain), selected)),
        )
    } else {
        v
    }
}

/// Pads spans with blanks to a width.
pub fn pad_to(v: &mut Vec<Span>, content_w: usize, selected: bool)
    ensures
        paint::spans_view(final(v)@) == padded(
            paint::spans_view(old(v)@),
            content_w as int,
            selected,
        ),
{
    let used: usize = paint::chars_count(v);
    let pad: usize = content_w.saturating_sub(used);
    if pad > 0 {
        let blanks = text::fill_text(' ', pad);
        paint::put(v, &blanks, tinted(paint::ink(Role::Plain), selected));
    }
}

} // verus!
