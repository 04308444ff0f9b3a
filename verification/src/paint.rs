//! What the screen shows, before any terminal sees it: styled spans, lines of spans.
//!
//! A colour is a role in the interface; the application picks the actual hue for each role.

use vstd::prelude::*;

use crate::text;

verus! {

/// What a foreground colour stands for.
#[derive(Clone, Copy, Debug, PartialEq, Eq, Structural)]
pub enum Role {
    /// The terminal's own foreground.
    Plain,
    /// Primary text.
    Text,
    /// Running text.
    Body,
    /// Secondary text.
    Dim,
    /// Text that steps back.
    Faint,
    /// A key or an eyebrow above a section.
    Label,
    /// The focused element.
    Accent,
    /// The active account and the first panel of a screen.
    Accent2,
    Info,
    Success,
    Warning,
    Danger,
    /// Chrome at rest.
    Rule,
    /// Chrome in focus, and the empty part of a gauge.
    RuleStrong,
    /// The screen's background, for text on an inverted ground.
    Ground,
    /// A colour computed by the application, such as the heat of a usage figure.
    Custom(u32),
}

/// What a background colour stands for.
#[derive(Clone, Copy, Debug, PartialEq, Eq, Structural)]
pub enum Fill {
    Plain,
    /// An open text field.
    Sunken,
    /// The row under the cursor.
    Hover,
    /// The ground of a focused button.
    Text,
    /// The ground of a focused destructive button.
    Danger,
    /// The tint of a banner that tells of danger.
    DangerTint,
    /// The tint of a banner that warns.
    WarningTint,
}

/// How a run of characters is drawn.
#[derive(Clone, Copy, Debug, PartialEq, Eq, Structural)]
pub struct Style {
    pub role: Role,
    pub fill: Fill,
    pub bold: bool,
    pub italic: bool,
    pub underlined: bool,
    /// A wave of the second accent runs over the text.
    pub pulsing: bool,
}

/// The style of a bare foreground role.
#[verifier::allow_in_spec]
pub fn ink(role: Role) -> (r: Style)
    returns
        (Style {
            role,
            fill: Fill::Plain,
            bold: false,
            italic: false,
            underlined: false,
            pulsing: false,
        }),
{
    Style {
        role,
        fill: Fill::Plain,
        bold: false,
        italic: false,
        underlined: false,
        pulsing: false,
    }
}

impl Style {
    /// The same style, bold.
    #[verifier::allow_in_spec]
    pub fn strong(self) -> (r: Style)
        returns
            (Style { bold: true, ..self }),
    {
        Style { bold: true, ..self }
    }

    /// The same style, underlined.
    #[verifier::allow_in_spec]
    pub fn ruled(self) -> (r: Style)
        returns
            (Style { underlined: true, ..self }),
    {
        Style { underlined: true, ..self }
    }

    /// The same style, italic.
    #[verifier::allow_in_spec]
    pub fn slanted(self) -> (r: Style)
        returns
            (Style { italic: true, ..self }),
    {
        Style { italic: true, ..self }
    }

    /// The same style with the wave running.
    #[verifier::allow_in_spec]
    pub fn pulsed(self) -> (r: Style)
        returns
            (Style { pulsing: true, ..self }),
    {
        Style { pulsing: true, ..self }
    }

    /// The same style on another ground.
    #[verifier::allow_in_spec]
    pub fn on(self, fill: Fill) -> (r: Style)
        returns
            (Style { fill, ..self }),
    {
        Style { fill, ..self }
    }
}

/// Bold where `cond` holds.
#[verifier::allow_in_spec]
pub fn bold_when(style: Style, cond: bool) -> (r: Style)
    returns
        (if cond {
            style.strong()
        } else {
            style
        }),
{
    if cond {
        style.strong()
    } else {
        style
    }
}

/// A run of characters in one style.
#[derive(Debug)]
pub struct Span {
    pub text: String,
    pub style: Style,
}

/// The content of a span.
pub struct SpanView {
    pub text: Seq<char>,
    pub style: Style,
}

impl View for Span {
    type V = SpanView;

    open spec fn view(&self) -> SpanView {
        SpanView { text: self.text@, style: self.style }
    }
}

/// A span of the given text and style.
pub open spec fn span_of(text: Seq<char>, style: Style) -> SpanView {
    SpanView { text, style }
}

/// A span of unstyled text.
pub open spec fn raw_of(text: Seq<char>) -> SpanView {
    span_of(text, ink(Role::Plain))
}

/// `n` unstyled blanks.
pub open spec fn blanks_of(n: nat) -> SpanView {
    raw_of(text::fill(' ', n))
}

/// The views of a list of spans.
pub open spec fn spans_view(v: Seq<Span>) -> Seq<SpanView> {
    v.map_values(|s: Span| s@)
}

/// A line of the screen.
#[derive(Debug)]
pub struct Line {
    pub spans: Vec<Span>,
    /// Drawn as the row under the cursor.
    pub selected: bool,
    /// Set against the right edge.
    pub right: bool,
}

/// The content of a line.
pub struct LineView {
    pub spans: Seq<SpanView>,
    pub selected: bool,
    pub right: bool,
}

impl View for Line {
    type V = LineView;

    open spec fn view(&self) -> LineView {
        LineView { spans: spans_view(self.spans@), selected: self.selected, right: self.right }
    }
}

/// A plain line of the given spans.
pub open spec fn line_of(spans: Seq<SpanView>) -> LineView {
    LineView { spans, selected: false, right: false }
}

/// A line of one span.
pub open spec fn single_of(text: Seq<char>, style: Style) -> LineView {
    line_of(Seq::empty().push(span_of(text, style)))
}

/// A line that shows nothing.
pub open spec fn blank_of() -> LineView {
    line_of(Seq::empty())
}

/// The views of a list of lines.
pub open spec fn lines_view(v: Seq<Line>) -> Seq<LineView> {
    v.map_values(|l: Line| l@)
}

/// A list of spans with nothing in it.
pub fn no_spans() -> (r: Vec<Span>)
    ensures
        spans_view(r@) == Seq::<SpanView>::empty(),
{
    let v: Vec<Span> = Vec::new();
    assert(spans_view(v@) =~= Seq::<SpanView>::empty());
    v
}

/// A list of lines with nothing in it.
pub fn no_lines() -> (r: Vec<Line>)
    ensures
        lines_view(r@) == Seq::<LineView>::empty(),
{
    let v: Vec<Line> = Vec::new();
    assert(lines_view(v@) =~= Seq::<LineView>::empty());
    v
}

/// A span of the given text and style.
pub fn span(text: &str, style: Style) -> (r: Span)
    ensures
        r@ == span_of(text@, style),
{
    Span { text: text.to_string(), style }
}

/// Appends a span.
pub fn put(v: &mut Vec<Span>, text: &str, style: Style)
    ensures
        spans_view(final(v)@) == spans_view(old(v)@).push(span_of(text@, style)),
{
    v.push(Span { text: text.to_string(), style });
    assert(spans_view(v@) =~= spans_view(old(v)@).push(span_of(text@, style)));
}

/// Appends unstyled text.
pub fn put_raw(v: &mut Vec<Span>, text: &str)
    ensures
        spans_view(final(v)@) == spans_view(old(v)@).push(raw_of(text@)),
{
    put(v, text, ink(Role::Plain));
}

/// Appends `n` unstyled blanks.
pub fn put_blanks(v: &mut Vec<Span>, n: usize)
    ensures
        spans_view(final(v)@) == spans_view(old(v)@).push(blanks_of(n as nat)),
{
    let pad = text::fill_text(' ', n);
    put_raw(v, &pad);
}

/// Appends a span that is already built.
pub fn put_span(v: &mut Vec<Span>, s: Span)
    ensures
        spans_view(final(v)@) == spans_view(old(v)@).push(s@),
{
    let ghost sv = s@;
    v.push(s);
    assert(spans_view(v@) =~= spans_view(old(v)@).push(sv));
}

/// A copy of a span.
pub fn copy_span(s: &Span) -> (r: Span)
    ensures
        r@ == s@,
{
    Span { text: s.text.clone(), style: s.style }
}

/// Appends copies of all of `more`.
pub fn put_spans(v: &mut Vec<Span>, more: &Vec<Span>)
    ensures
        spans_view(final(v)@) == spans_view(old(v)@) + spans_view(more@),
{
    let ghost start = spans_view(v@);
    let mut i: usize = 0;
    assert(start + spans_view(more@.take(0)) =~= start);
    while i < more.len()
        invariant
            i <= more@.len(),
            spans_view(v@) == start + spans_view(more@.take(i as int)),
        decreases more@.len() - i,
    {
        put_span(v, copy_span(&more[i]));
        assert(more@.take(i + 1) =~= more@.take(i as int).push(more@[i as int]));
        assert(spans_view(v@) =~= start + spans_view(more@.take(i + 1)));
        i = i + 1;
    }
    assert(more@.take(more@.len() as int) =~= more@);
}

/// A plain line of the given spans.
pub fn line(spans: Vec<Span>) -> (r: Line)
    ensures
        r@ == line_of(spans_view(spans@)),
{
    Line { spans, selected: false, right: false }
}

/// A line of one span.
pub fn single(text: &str, style: Style) -> (r: Line)
    ensures
        r@ == single_of(text@, style),
{
    let mut v = no_spans();
    put(&mut v, text, style);
    line(v)
}

/// A line that shows nothing.
pub fn blank() -> (r: Line)
    ensures
        r@ == blank_of(),
{
    line(no_spans())
}

/// Appends a line.
pub fn add_line(v: &mut Vec<Line>, l: Line)
    ensures
        lines_view(final(v)@) == lines_view(old(v)@).push(l@),
        final(v)@.len() == old(v)@.len() + 1,
{
    let ghost lv = l@;
    v.push(l);
    assert(lines_view(v@) =~= lines_view(old(v)@).push(lv));
}

/// A copy of a line.
pub fn copy_line(l: &Line) -> (r: Line)
    ensures
        r@ == l@,
{
    let mut spans = no_spans();
    put_spans(&mut spans, &l.spans);
    assert(Seq::<SpanView>::empty() + spans_view(l.spans@) =~= spans_view(l.spans@));
    Line { spans, selected: l.selected, right: l.right }
}

/// Appends copies of all of `more`.
pub fn add_lines(v: &mut Vec<Line>, more: &Vec<Line>)
    ensures
        lines_view(final(v)@) == lines_view(old(v)@) + lines_view(more@),
        final(v)@.len() == old(v)@.len() + more@.len(),
{
    let ghost start = lines_view(v@);
    let mut i: usize = 0;
    assert(start + lines_view(more@.take(0)) =~= start);
    while i < more.len()
        invariant
            i <= more@.len(),
            lines_view(v@) == start + lines_view(more@.take(i as int)),
            v@.len() == old(v)@.len() + i,
        decreases more@.len() - i,
    {
        add_line(v, copy_line(&more[i]));
        assert(more@.take(i + 1) =~= more@.take(i as int).push(more@[i as int]));
        assert(lines_view(v@) =~= start + lines_view(more@.take(i + 1)));
        i = i + 1;
    }
    assert(more@.take(more@.len() as int) =~= more@);
}

/// Number of characters of a list of spans.
pub open spec fn chars_in(v: Seq<SpanView>) -> nat
    decreases v.len(),
{
    if v.len() == 0 {
        0
    } else {
        chars_in(v.drop_last()) + v.last().text.len()
    }
}

/// The display columns of a text, as the terminal library counts them.
pub uninterp spec fn text_columns(text: Seq<char>) -> nat;

/// Characters that take one column each: printable ASCII.
pub open spec fn is_printable_ascii(s: Seq<char>) -> bool {
    forall|i: int| 0 <= i < s.len() ==> ' ' <= #[trigger] s[i] <= '~'
}

/// `ratatui::text::Span::width`: the display columns of a text, a function of the text alone.
/// Printable ASCII takes one column per character.
#[verifier::external_body]
pub(crate) fn columns(text: &str) -> (r: usize)
    ensures
        r == text_columns(text@),
        is_printable_ascii(text@) ==> r == text@.len(),
{
    ratatui::text::Span::raw(text).width()
}

/// The display columns of a list of spans, at most the largest size.
pub open spec fn spans_columns(v: Seq<SpanView>) -> int
    decreases v.len(),
{
    if v.len() == 0 {
        0
    } else {
        text::min_int(spans_columns(v.drop_last()) + text_columns(v.last().text), usize::MAX as int)
    }
}

/// The display columns of a list of spans.
pub fn columns_of(v: &Vec<Span>) -> (r: usize)
    ensures
        r == spans_columns(spans_view(v@)),
{
    let mut total: usize = 0;
    let mut i: usize = 0;
    assert(spans_view(v@).take(0) =~= Seq::<SpanView>::empty());
    while i < v.len()
        invariant
            i <= v@.len(),
            total == spans_columns(spans_view(v@).take(i as int)),
        decreases v@.len() - i,
    {
        let w: usize = columns(&v[i].text);
        total = total.saturating_add(w);
        proof {
            let s = spans_view(v@);
            assert(s.take(i + 1).drop_last() =~= s.take(i as int));
            assert(s.take(i + 1).last() == v@[i as int]@);
        }
        i = i + 1;
    }
    assert(spans_view(v@).take(v@.len() as int) =~= spans_view(v@));
    total
}

/// The number of characters of a list of spans, at most the largest size.
pub fn chars_count(v: &Vec<Span>) -> (r: usize)
    ensures
        r == text::min_int(chars_in(spans_view(v@)) as int, usize::MAX as int),
{
    let mut total: usize = 0;
    let mut i: usize = 0;
    assert(spans_view(v@).take(0) =~= Seq::<SpanView>::empty());
    while i < v.len()
        invariant
            i <= v@.len(),
            total == text::min_int(
                chars_in(spans_view(v@).take(i as int)) as int,
                usize::MAX as int,
            ),
        decreases v@.len() - i,
    {
        let w: usize = v[i].text.as_str().unicode_len();
        total = total.saturating_add(w);
        proof {
            let s = spans_view(v@);
            assert(s.take(i + 1).drop_last() =~= s.take(i as int));
            assert(s.take(i + 1).last() == v@[i as int]@);
        }
        i = i + 1;
    }
    assert(spans_view(v@).take(v@.len() as int) =~= spans_view(v@));
    total
}

} // verus!
