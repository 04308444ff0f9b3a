//! Where a dialog goes, and how its lines fold into it.

use vstd::prelude::*;

use crate::chrome;
use crate::chrome::Area;
use crate::paint;
use crate::paint::{Line, LineView, Span, SpanView, Style};
use crate::text;

verus! {

/// A rectangle of at most the given size in the middle of an area, two cells off each edge.
pub open spec fn middle(area: Area, width: int, height: int) -> Area {
    let w = text::min_int(width, text::monus(area.width as int, 4));
    let h = text::min_int(height, text::monus(area.height as int, 4));
    Area {
        x: text::min_int(area.x + (area.width - w) / 2, u16::MAX as int) as u16,
        y: text::min_int(area.y + (area.height - h) / 2, u16::MAX as int) as u16,
        width: w as u16,
        height: h as u16,
    }
}

/// A rectangle of at most the given size in the middle of an area.
pub fn centered(area: Area, width: u16, height: u16) -> (r: Area)
    ensures
        r == middle(area, width as int, height as int),
{
    let w: u16 = text::min_u16(width, area.width.saturating_sub(4));
    let h: u16 = text::min_u16(height, area.height.saturating_sub(4));
    Area {
        x: area.x.saturating_add((area.width - w) / 2),
        y: area.y.saturating_add((area.height - h) / 2),
        width: w,
        height: h,
    }
}

/// A dialog stays on its screen.
pub proof fn dialogs_stay_on_screen(area: Area, width: int, height: int)
    requires
        0 <= width,
        0 <= height,
        area.x + area.width <= u16::MAX,
        area.y + area.height <= u16::MAX,
    ensures
        chrome::inside(area, middle(area, width, height)),
        middle(area, width, height).width <= width,
        middle(area, width, height).height <= height,
{
}

/// Lines cut so far, and the one being filled.
pub struct Folding {
    pub rows: Seq<Seq<SpanView>>,
    pub cur: Seq<SpanView>,
    pub used: nat,
}

impl Folding {
    pub open spec fn empty() -> Folding {
        Folding { rows: Seq::empty(), cur: Seq::empty(), used: 0 }
    }

    /// A full row is closed.
    pub open spec fn room_made(self, w: nat) -> Folding {
        if self.used == w {
            Folding { rows: self.rows.push(self.cur), cur: Seq::empty(), used: 0 }
        } else {
            self
        }
    }

    /// Characters that still fit.
    pub open spec fn fitting(self, s: Seq<char>, w: nat) -> int {
        text::min_int(s.len() as int, w - self.room_made(w).used)
    }

    /// The part of a text that fits goes onto the row.
    pub open spec fn with_part(self, s: Seq<char>, style: Style, w: nat) -> Folding {
        let r = self.room_made(w);
        let k = self.fitting(s, w);
        Folding {
            cur: r.cur.push(paint::span_of(s.take(k), style)),
            used: (r.used + k) as nat,
            ..r
        }
    }

    /// A text in one style, folded on.
    pub open spec fn with_text(self, s: Seq<char>, style: Style, w: nat) -> Folding
        decreases s.len(),
    {
        if s.len() == 0 || w == 0 || self.used > w {
            self
        } else {
            self.with_part(s, style, w).with_text(s.skip(self.fitting(s, w)), style, w)
        }
    }

    /// All rows, the open one last.
    pub open spec fn all_rows(self) -> Seq<Seq<SpanView>> {
        if self.cur.len() == 0 {
            self.rows
        } else {
            self.rows.push(self.cur)
        }
    }
}

/// The first `n` spans of a line, folded to `w` characters.
pub open spec fn folded(spans: Seq<SpanView>, w: nat, n: nat) -> Folding
    decreases n,
{
    if n == 0 {
        Folding::empty()
    } else {
        folded(spans, w, (n - 1) as nat).with_text(spans[n - 1].text, spans[n - 1].style, w)
    }
}

/// A row of a folded line.
pub open spec fn row_of(l: LineView, spans: Seq<SpanView>) -> LineView {
    LineView { spans, ..l }
}

/// A line cut into rows of `w` characters; a line that fits, or no width at all, is left alone.
pub open spec fn chunks(l: LineView, w: nat) -> Seq<LineView> {
    if w == 0 || paint::spans_columns(l.spans) <= w {
        Seq::empty().push(l)
    } else {
        folded(l.spans, w, l.spans.len()).all_rows().map_values(
            |spans: Seq<SpanView>| row_of(l, spans),
        )
    }
}

/// The views of a list of rows.
pub open spec fn rows_view(v: Seq<Vec<Span>>) -> Seq<Seq<SpanView>> {
    v.map_values(|r: Vec<Span>| paint::spans_view(r@))
}

/// Folds a text onto the rows.
fn fold_text(
    rows: &mut Vec<Vec<Span>>,
    cur: Vec<Span>,
    used: usize,
    s: &str,
    style: Style,
    w: usize,
) -> (r: (Vec<Span>, usize))
    requires
        w > 0,
        used <= w,
    ensures
        r.1 <= w,
        (Folding {
            rows: rows_view(final(rows)@),
            cur: paint::spans_view(r.0@),
            used: r.1 as nat,
        }) == (Folding {
            rows: rows_view(old(rows)@),
            cur: paint::spans_view(cur@),
            used: used as nat,
        }).with_text(s@, style, w as nat),
{
    let n: usize = s.unicode_len();
    let mut cur = cur;
    let mut used: usize = used;
    let mut at: usize = 0;
    let ghost start = Folding {
        rows: rows_view(rows@),
        cur: paint::spans_view(cur@),
        used: used as nat,
    };
    assert(s@.skip(0) =~= s@);
    while at < n
        invariant
            at <= n,
            n == s@.len(),
            w > 0,
            used <= w,
            start.with_text(s@, style, w as nat) == (Folding {
                rows: rows_view(rows@),
                cur: paint::spans_view(cur@),
                used: used as nat,
            }).with_text(s@.skip(at as int), style, w as nat),
        decreases n - at,
    {
        let ghost st = Folding {
            rows: rows_view(rows@),
            cur: paint::spans_view(cur@),
            used: used as nat,
        };
        let ghost rest = s@.skip(at as int);
        if used == w {
            let ghost before = rows_view(rows@);
            let ghost closed = paint::spans_view(cur@);
            rows.push(cur);
            assert(rows_view(rows@) =~= before.push(closed));
            cur = paint::no_spans();
            used = 0;
        }
        assert(st.room_made(w as nat) == (Folding {
            rows: rows_view(rows@),
            cur: paint::spans_view(cur@),
            used: used as nat,
        }));
        let k: usize = text::min_usize(n - at, w - used);
        assert(k == st.fitting(rest, w as nat));
        let part = s.substring_char(at, at + k);
        assert(part@ =~= rest.take(k as int));
        paint::put(&mut cur, part, style);
        used = used + k;
        assert(rest.skip(k as int) =~= s@.skip(at + k));
        at = at + k;
    }
    assert(s@.skip(n as int).len() == 0);
    (cur, used)
}

/// A line cut into rows of `w` characters.
pub fn chunk_line(line: &Line, w: usize) -> (r: Vec<Line>)
    ensures
        paint::lines_view(r@) == chunks(line@, w as nat),
{
    let mut out = paint::no_lines();
    if w == 0 || paint::columns_of(&line.spans) <= w {
        paint::add_line(&mut out, paint::copy_line(line));
        return out;
    }
    let mut rows: Vec<Vec<Span>> = Vec::new();
    let mut cur = paint::no_spans();
    let mut used: usize = 0;
    let ghost all = line@.spans;
    assert(rows_view(rows@) =~= Seq::<Seq<SpanView>>::empty());
    let mut i: usize = 0;
    while i < line.spans.len()
        invariant
            i <= line.spans@.len(),
            all == paint::spans_view(line.spans@),
            w > 0,
            used <= w,
            folded(all, w as nat, i as nat) == (Folding {
                rows: rows_view(rows@),
                cur: paint::spans_view(cur@),
                used: used as nat,
            }),
        decreases line.spans@.len() - i,
    {
        assert(all[i as int] == line.spans@[i as int]@);
        let (c, u) = fold_text(
            &mut rows,
            cur,
            used,
            &line.spans[i].text,
            line.spans[i].style,
            w,
        );
        cur = c;
        used = u;
        i = i + 1;
    }
    assert(all.len() == line.spans@.len());
    let ghost f = folded(all, w as nat, all.len());
    assert(paint::spans_view(cur@).len() == cur@.len());
    if cur.len() > 0 {
        let ghost before = rows_view(rows@);
        let ghost last = paint::spans_view(cur@);
        rows.push(cur);
        assert(rows_view(rows@) =~= before.push(last));
    }
    assert(rows_view(rows@) == f.all_rows());
    let ghost want = f.all_rows().map_values(|spans: Seq<SpanView>| row_of(line@, spans));
    let mut k: usize = 0;
    assert(want.take(0) =~= Seq::<LineView>::empty());
    while k < rows.len()
        invariant
            k <= rows@.len(),
            rows_view(rows@) == f.all_rows(),
            want == f.all_rows().map_values(|spans: Seq<SpanView>| row_of(line@, spans)),
            paint::lines_view(out@) == want.take(k as int),
        decreases rows@.len() - k,
    {
        let mut spans = paint::no_spans();
        paint::put_spans(&mut spans, &rows[k]);
        assert(Seq::<SpanView>::empty() + paint::spans_view(rows@[k as int]@)
            =~= paint::spans_view(rows@[k as int]@));
        assert(rows_view(rows@)[k as int] == paint::spans_view(rows@[k as int]@));
        let row = Line { spans, selected: line.selected, right: line.right };
        assert(row@ == want[k as int]);
        paint::add_line(&mut out, row);
        k = k + 1;
        assert(paint::lines_view(out@) =~= want.take(k as int));
    }
    assert(rows_view(rows@).len() == rows@.len());
    assert(want.take(k as int) =~= want);
    out
}

/// The characters of a list of spans, one after the other.
pub open spec fn text_in(v: Seq<SpanView>) -> Seq<char>
    decreases v.len(),
{
    if v.len() == 0 {
        Seq::empty()
    } else {
        text_in(v.drop_last()) + v.last().text
    }
}

/// The characters of several rows, one after the other.
pub open spec fn text_of_rows(v: Seq<Seq<SpanView>>) -> Seq<char>
    decreases v.len(),
{
    if v.len() == 0 {
        Seq::empty()
    } else {
        text_of_rows(v.drop_last()) + text_in(v.last())
    }
}

impl Folding {
    spec fn content(self) -> Seq<char> {
        text_of_rows(self.rows) + text_in(self.cur)
    }

    spec fn narrow(self, w: nat) -> bool {
        &&& self.used == text_in(self.cur).len()
        &&& self.used <= w
        &&& forall|i: int|
            0 <= i < self.rows.len() ==> text_in(#[trigger] self.rows[i]).len() <= w
    }
}

proof fn lemma_with_part(f: Folding, s: Seq<char>, style: Style, w: nat)
    requires
        w > 0,
        f.narrow(w),
        s.len() > 0,
    ensures
        f.with_part(s, style, w).narrow(w),
        f.with_part(s, style, w).content() == f.content() + s.take(f.fitting(s, w)),
        f.fitting(s, w) > 0,
{
    let r = f.room_made(w);
    if f.used == w {
        assert(r.rows.drop_last() =~= f.rows);
        assert(r.content() =~= f.content());
        assert forall|i: int| 0 <= i < r.rows.len() implies text_in(#[trigger] r.rows[i]).len()
            <= w by {
            if i < f.rows.len() {
                assert(r.rows[i] == f.rows[i]);
            }
        }
    }
    let k = f.fitting(s, w);
    let next = f.with_part(s, style, w);
    assert(next.cur.drop_last() =~= r.cur);
    assert(text_in(next.cur) == text_in(r.cur) + s.take(k));
    assert(next.content() =~= r.content() + s.take(k));
}

proof fn lemma_with_text(f: Folding, s: Seq<char>, style: Style, w: nat)
    requires
        w > 0,
        f.narrow(w),
    ensures
        f.with_text(s, style, w).narrow(w),
        f.with_text(s, style, w).content() == f.content() + s,
    decreases s.len(),
{
    if s.len() == 0 {
        assert(f.content() + s =~= f.content());
    } else {
        let k = f.fitting(s, w);
        lemma_with_part(f, s, style, w);
        lemma_with_text(f.with_part(s, style, w), s.skip(k), style, w);
        assert(f.content() + s.take(k) + s.skip(k) =~= f.content() + s);
    }
}

proof fn lemma_folded(spans: Seq<SpanView>, w: nat, n: nat)
    requires
        w > 0,
        n <= spans.len(),
    ensures
        folded(spans, w, n).narrow(w),
        folded(spans, w, n).content() == text_in(spans.take(n as int)),
    decreases n,
{
    if n == 0 {
        assert(spans.take(0) =~= Seq::empty());
        assert(folded(spans, w, 0).content() =~= Seq::empty());
    } else {
        lemma_folded(spans, w, (n - 1) as nat);
        let before = folded(spans, w, (n - 1) as nat);
        lemma_with_text(before, spans[n - 1].text, spans[n - 1].style, w);
        assert(spans.take(n as int).drop_last() =~= spans.take(n - 1));
    }
}

/// Folding a line loses nothing: its rows hold its characters in order, each row within the
/// width.
pub proof fn folding_keeps_the_text(l: LineView, w: nat)
    requires
        w > 0,
        paint::spans_columns(l.spans) > w,
    ensures
        ({
            let rows = folded(l.spans, w, l.spans.len()).all_rows();
            &&& text_of_rows(rows) == text_in(l.spans)
            &&& forall|i: int| 0 <= i < rows.len() ==> text_in(#[trigger] rows[i]).len() <= w
            &&& chunks(l, w).len() == rows.len()
            &&& forall|i: int|
                0 <= i < rows.len() ==> (#[trigger] chunks(l, w)[i]).spans == rows[i]
        }),
{
    lemma_folded(l.spans, w, l.spans.len());
    assert(l.spans.take(l.spans.len() as int) =~= l.spans);
    let f = folded(l.spans, w, l.spans.len());
    let rows = f.all_rows();
    if f.cur.len() > 0 {
        assert(rows.drop_last() =~= f.rows);
        assert forall|i: int| 0 <= i < rows.len() implies text_in(#[trigger] rows[i]).len()
            <= w by {
            if i < f.rows.len() {
                assert(rows[i] == f.rows[i]);
            }
        }
    } else {
        assert(text_in(f.cur) =~= Seq::empty());
        assert(text_of_rows(rows) =~= f.content());
    }
}

/// The widest of the first `n` lines, in columns.
pub open spec fn widest_line(lines: Seq<LineView>, n: nat) -> int
    decreases n,
{
    if n == 0 {
        0
    } else {
        text::max_int(
            widest_line(lines, (n - 1) as nat),
            paint::spans_columns(lines[n - 1].spans),
        )
    }
}

/// Columns of a dialog: its widest line or its title with the chrome around them, within the
/// screen.
pub open spec fn dialog_columns(content: int, title: int, screen: int) -> int {
    text::min_int(
        text::max_int(
            text::min_int(content + 6, u16::MAX as int),
            text::min_int(title + 4, u16::MAX as int),
        ),
        text::monus(screen, 4),
    )
}

/// Columns inside a dialog's chrome, at least one.
pub open spec fn inner_columns(columns: int) -> int {
    text::max_int(text::monus(columns, 6), 1)
}

/// Columns of a dialog.
pub fn dialog_width(lines: &Vec<Line>, title: &str, screen: u16) -> (r: u16)
    ensures
        r == dialog_columns(
            widest_line(paint::lines_view(lines@), lines@.len()),
            title@.len() as int,
            screen as int,
        ),
{
    let ghost all = paint::lines_view(lines@);
    let mut widest: usize = 0;
    let mut i: usize = 0;
    while i < lines.len()
        invariant
            i <= lines@.len(),
            all == paint::lines_view(lines@),
            widest == widest_line(all, i as nat),
        decreases lines@.len() - i,
    {
        assert(all[i as int] == lines@[i as int]@);
        widest = text::max_usize(widest, paint::columns_of(&lines[i].spans));
        i = i + 1;
    }
    let content: u16 = text::cells(widest.saturating_add(6));
    let titled: u16 = text::cells(title.unicode_len().saturating_add(4));
    text::min_u16(text::max_u16(content, titled), screen.saturating_sub(4))
}

/// The rows of the first `n` lines folded to the dialog.
pub open spec fn dialog_rows(lines: Seq<LineView>, w: nat, n: nat) -> Seq<LineView>
    decreases n,
{
    if n == 0 {
        Seq::empty()
    } else {
        dialog_rows(lines, w, (n - 1) as nat) + chunks(lines[n - 1], w)
    }
}

/// A dialog ready to be drawn.
pub struct Dialog {
    pub area: Area,
    pub rows: Vec<Line>,
    /// The first row shown.
    pub scroll: usize,
    /// The furthest the rows can be scrolled.
    pub max_scroll: u16,
    /// Where the text cursor stands inside the chrome: column and row.
    pub caret: Option<(usize, usize)>,
}

/// The furthest `rows` rows can be scrolled in `viewport` rows.
pub open spec fn furthest(rows: int, viewport: int) -> int {
    if viewport == 0 {
        0
    } else {
        text::min_int(text::monus(rows, viewport), u16::MAX as int)
    }
}

/// Where the text cursor stands: a caret just past a full row stays on that row.
pub open spec fn folded_caret(first: int, cell: int, w: int, scroll: int, viewport: int) -> Option<
    (int, int),
> {
    let fold = text::monus(cell, 1) / w;
    let row = first + fold;
    if scroll <= row < scroll + viewport {
        Some((cell - fold * w, row - scroll))
    } else {
        None
    }
}

/// The rows of a dialog before the line at `n`.
pub open spec fn rows_before(lines: Seq<LineView>, w: nat, n: nat) -> int {
    dialog_rows(lines, w, n).len() as int
}

/// A dialog sized to its content, scrolled by `scroll` rows. `caret` names a line and a column
/// in it.
pub fn lay_out(
    area: Area,
    title: &str,
    lines: &Vec<Line>,
    scroll: u16,
    caret: Option<(usize, usize)>,
) -> (r: Dialog)
    ensures
        ({
            let all = paint::lines_view(lines@);
            let cols = dialog_columns(
                widest_line(all, all.len()),
                title@.len() as int,
                area.width as int,
            );
            let w = inner_columns(cols);
            let rows = dialog_rows(all, w as nat, all.len());
            let height = text::min_int(
                text::min_int(rows.len() as int + 4, u16::MAX as int),
                text::monus(area.height as int, 4),
            );
            let viewport = text::monus(height, 4);
            let top = text::min_int(scroll as int, furthest(rows.len() as int, viewport));
            &&& paint::lines_view(r.rows@) == rows
            &&& r.area == middle(area, cols, height)
            &&& r.max_scroll == furthest(rows.len() as int, viewport)
            &&& r.scroll == top
            &&& match caret {
                Some((y, cell)) => if y < all.len() {
                    match folded_caret(
                        rows_before(all, w as nat, y as nat),
                        cell as int,
                        w,
                        top,
                        viewport,
                    ) {
                        Some((cx, cy)) => r.caret == Some((cx as usize, cy as usize)),
                        None => r.caret is None,
                    }
                } else {
                    r.caret is None
                },
                None => r.caret is None,
            }
        }),
{
    let ghost all = paint::lines_view(lines@);
    assert(all.len() == lines@.len());
    let cols: u16 = dialog_width(lines, title, area.width);
    let w: usize = text::max_usize(cols.saturating_sub(6) as usize, 1);
    let mut rows = paint::no_lines();
    let mut first: Option<usize> = None;
    let mut i: usize = 0;
    while i < lines.len()
        invariant
            i <= lines@.len(),
            all == paint::lines_view(lines@),
            w > 0,
            paint::lines_view(rows@) == dialog_rows(all, w as nat, i as nat),
            match caret {
                Some((y, _)) => if y < i {
                    first == Some(rows_before(all, w as nat, y as nat) as usize) && rows_before(
                        all,
                        w as nat,
                        y as nat,
                    ) <= usize::MAX
                } else {
                    first is None
                },
                None => first is None,
            },
        decreases lines@.len() - i,
    {
        assert(all[i as int] == lines@[i as int]@);
        assert(paint::lines_view(rows@).len() == rows@.len());
        if let Some((y, _)) = caret {
            if y == i {
                first = Some(rows.len());
            }
        }
        let more = chunk_line(&lines[i], w);
        paint::add_lines(&mut rows, &more);
        i = i + 1;
    }
    assert(paint::lines_view(rows@).len() == rows@.len());
    let height: u16 = text::min_u16(
        text::cells(rows.len().saturating_add(4)),
        area.height.saturating_sub(4),
    );
    let viewport: usize = height.saturating_sub(4) as usize;
    let max_scroll: u16 = if viewport == 0 {
        0
    } else {
        text::cells(rows.len().saturating_sub(viewport))
    };
    let top: usize = text::min_u16(scroll, max_scroll) as usize;
    let mut at: Option<(usize, usize)> = None;
    if let Some((_, cell)) = caret {
        if let Some(f) = first {
            let fold: usize = cell.saturating_sub(1) / w;
            proof {
                let c = text::monus(cell as int, 1);
                assert(fold * w <= c) by (nonlinear_arith)
                    requires
                        fold == c / (w as int),
                        w > 0,
                        c >= 0,
                ;
                assert(fold * w <= cell);
            }
            let row: usize = f.saturating_add(fold);
            if top <= row && row - top < viewport {
                at = Some((cell - fold * w, row - top));
            }
        }
    }
    Dialog { area: centered(area, cols, height), rows, scroll: top, max_scroll, caret: at }
}

} // verus!
