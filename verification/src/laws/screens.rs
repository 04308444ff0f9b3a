//! What the tables and panes show, and where.

use vstd::prelude::*;

use crate::figures;
use crate::figures::WindowCellsView;
use crate::layout;
use crate::overview_view;
use crate::overview_view::{AccountRowView, OverviewWidths, RowFlags, TIMER_SLOT};
use crate::paint;
use crate::paint::{SpanView, Style};
use crate::text;

verus! {

proof fn lemma_chars_push(v: Seq<SpanView>, s: SpanView)
    ensures
        paint::chars_in(v.push(s)) == paint::chars_in(v) + s.text.len(),
{
    assert(v.push(s).drop_last() =~= v);
}

proof fn lemma_chars_joined(a: Seq<SpanView>, b: Seq<SpanView>)
    ensures
        paint::chars_in(a + b) == paint::chars_in(a) + paint::chars_in(b),
    decreases b.len(),
{
    if b.len() == 0 {
        assert(a + b =~= a);
    } else {
        lemma_chars_joined(a, b.drop_last());
        assert((a + b).drop_last() =~= a + b.drop_last());
    }
}

/// The summary of the five-hour window of a row, in its column.
pub open spec fn five_cells(row: AccountRowView, w: OverviewWidths) -> Seq<SpanView> {
    figures::window_summary(row.five, w.five_hour as int, true, row.five_style)
}

/// The summary of the weekly window of a row, in its column; only a wide column has a bar.
pub open spec fn seven_cells(row: AccountRowView, w: OverviewWidths) -> Seq<SpanView> {
    figures::window_summary(row.seven, w.seven_day as int, w.seven_day >= 18, row.seven_style)
}

/// What stands before the windows: caret, mark, name, type and countdown.
spec fn front(row: AccountRowView, w: OverviewWidths, shown: bool) -> Seq<SpanView> {
    overview_view::typed(named(row, w, shown), row, w.kind as nat).push(
        paint::blanks_of(overview_view::narrow_cells(w.gap as int) as nat),
    ).push(overview_view::timer_span(row))
}

/// What stands before the type: caret, mark and name.
spec fn named(row: AccountRowView, w: OverviewWidths, shown: bool) -> Seq<SpanView> {
    overview_view::marked(Seq::empty().push(layout::caret_span(shown)), row.flags).push(
        paint::span_of(
            text::clipped(row.name, w.name as nat),
            paint::bold_when(layout::name_color(row.flags.active), shown),
        ),
    ).push(paint::raw_of(figures::padding(row.name, w.name as nat))).push(
        paint::blanks_of(w.gap as nat),
    )
}

/// The blanks that fill a column up.
spec fn rest(width: usize, v: Seq<SpanView>) -> SpanView {
    paint::blanks_of(text::monus(width as int, paint::chars_in(v) as int) as nat)
}

proof fn lemma_parts(row: AccountRowView, w: OverviewWidths, selected: bool, focused: bool)
    requires
        w.seven_day > 0,
    ensures
        overview_view::account_line(row, w, selected, focused) == (front(
            row,
            w,
            selected && focused,
        ) + five_cells(row, w)).push(rest(w.five_hour, five_cells(row, w))).push(
            paint::blanks_of(w.gap as nat),
        ) + seven_cells(row, w).push(rest(w.seven_day, seven_cells(row, w))),
{
    let line = overview_view::account_line(row, w, selected, focused);
    let v = front(row, w, selected && focused);
    let fived = overview_view::columned(v, row.five, w.five_hour as int, true, row.five_style);
    assert(fived == (v + five_cells(row, w)).push(rest(w.five_hour, five_cells(row, w))));
    assert(line =~= fived.push(paint::blanks_of(w.gap as nat)) + seven_cells(row, w).push(
        rest(w.seven_day, seven_cells(row, w)),
    ));
}

proof fn lemma_marked_chars(f: RowFlags, shown: bool)
    ensures
        paint::chars_in(
            overview_view::marked(Seq::empty().push(layout::caret_span(shown)), f),
        ) == 4,
{
    reveal_strlit("❯ ");
    reveal_strlit("  ");
    reveal_strlit(" ");
    reveal_strlit("×");
    reveal_strlit("!");
    reveal_strlit("●");
    let none = Seq::<SpanView>::empty();
    let c = none.push(layout::caret_span(shown));
    let a = overview_view::marked(c, f);
    lemma_chars_push(none, layout::caret_span(shown));
    lemma_chars_push(c, a[1]);
    if f.auth_broken || f.bell || f.active {
        lemma_chars_push(c.push(a[1]), a[2]);
        assert(a =~= c.push(a[1]).push(a[2]));
    } else {
        assert(a =~= c.push(a[1]));
    }
}

proof fn lemma_named_chars(row: AccountRowView, w: OverviewWidths, shown: bool)
    ensures
        paint::chars_in(named(row, w, shown)) == 4 + w.name + w.gap,
{
    lemma_marked_chars(row.flags, shown);
    let a = overview_view::marked(Seq::empty().push(layout::caret_span(shown)), row.flags);
    let v = named(row, w, shown);
    let n = a.len() as int;
    lemma_chars_push(a, v[n]);
    lemma_chars_push(a.push(v[n]), v[n + 1]);
    lemma_chars_push(a.push(v[n]).push(v[n + 1]), v[n + 2]);
    assert(v =~= a.push(v[n]).push(v[n + 1]).push(v[n + 2]));
}

proof fn lemma_front_chars(row: AccountRowView, w: OverviewWidths, shown: bool)
    ensures
        paint::chars_in(front(row, w, shown)) == 4 + w.name + w.gap + w.kind
            + overview_view::narrow_cells(w.gap as int) + overview_view::timer_span(row).text.len(),
{
    lemma_named_chars(row, w, shown);
    let a = named(row, w, shown);
    let b = overview_view::typed(a, row, w.kind as nat);
    let n = a.len() as int;
    lemma_chars_push(a, b[n]);
    if row.flags.has_login {
        lemma_chars_push(a.push(b[n]), b[n + 1]);
        assert(b =~= a.push(b[n]).push(b[n + 1]));
    } else {
        assert(b =~= a.push(b[n]));
    }
    let narrow = paint::blanks_of(overview_view::narrow_cells(w.gap as int) as nat);
    lemma_chars_push(b, narrow);
    lemma_chars_push(b.push(narrow), overview_view::timer_span(row));
}

proof fn lemma_head(w: OverviewWidths)
    ensures
        ({
            let head = overview_view::table_head(w);
            let narrow = overview_view::narrow_cells(w.gap as int);
            &&& paint::chars_in(head.take(7)) == 4 + w.name + w.gap + w.kind + narrow + TIMER_SLOT
            &&& w.seven_day > 0 ==> paint::chars_in(head.take(9)) == 4 + w.name + w.gap + w.kind
                + narrow + TIMER_SLOT + w.five_hour + w.gap
        }),
{
    reveal_strlit("  ");
    let head = overview_view::table_head(w);
    assert(head.take(0) =~= Seq::empty());
    lemma_taken(head, 0);
    lemma_taken(head, 1);
    lemma_taken(head, 2);
    lemma_taken(head, 3);
    lemma_taken(head, 4);
    lemma_taken(head, 5);
    lemma_taken(head, 6);
    if w.seven_day > 0 {
        lemma_taken(head, 7);
        lemma_taken(head, 8);
    }
}

proof fn lemma_taken(v: Seq<SpanView>, k: int)
    requires
        0 <= k < v.len(),
    ensures
        paint::chars_in(v.take(k + 1)) == paint::chars_in(v.take(k)) + v[k].text.len(),
{
    assert(v.take(k + 1) =~= v.take(k).push(v[k]));
    lemma_chars_push(v.take(k), v[k]);
}

/// The figures under the heading `5h` are those of the five-hour window, and the ones under `7d`
/// those of the weekly window: each summary starts in the very cell in which its heading does,
/// where the countdown and the five-hour summary keep to their cells.
pub proof fn windows_stand_under_their_heading(
    row: AccountRowView,
    w: OverviewWidths,
    selected: bool,
    focused: bool,
)
    requires
        w.seven_day > 0,
    ensures
        ({
            let line = overview_view::account_line(row, w, selected, focused);
            let head = overview_view::table_head(w);
            let five = figures::window_summary(row.five, w.five_hour as int, true, row.five_style);
            let seven = figures::window_summary(
                row.seven,
                w.seven_day as int,
                w.seven_day >= 18,
                row.seven_style,
            );
            let q = line.len() - 1 - seven.len();
            let p = q - 2 - five.len();
            let fits = overview_view::timer_span(row).text.len() == TIMER_SLOT;
            &&& head[7].text == figures::fixed_text("5h"@, w.five_hour as nat)
            &&& head[9].text == figures::fixed_text("7d"@, w.seven_day as nat)
            &&& 0 <= p
            &&& line.subrange(p, p + five.len()) == five
            &&& line.subrange(q, q + seven.len()) == seven
            &&& fits ==> paint::chars_in(line.take(p)) == paint::chars_in(head.take(7))
            &&& fits && paint::chars_in(five) <= w.five_hour ==> paint::chars_in(line.take(q))
                == paint::chars_in(head.take(9))
        }),
{
    lemma_parts(row, w, selected, focused);
    lemma_front_chars(row, w, selected && focused);
    let v = front(row, w, selected && focused);
    let line = overview_view::account_line(row, w, selected, focused);
    let five = five_cells(row, w);
    let seven = seven_cells(row, w);
    let q = line.len() - 1 - seven.len();
    let p = q - 2 - five.len();
    assert(p == v.len());
    assert(line.subrange(p, p + five.len()) =~= five);
    assert(line.subrange(q, q + seven.len()) =~= seven);
    assert(line.take(p) =~= v);
    let blank = rest(w.five_hour, five);
    let gap = paint::blanks_of(w.gap as nat);
    assert(line.take(q) =~= (v + five).push(blank).push(gap));
    lemma_chars_joined(v, five);
    lemma_chars_push(v + five, blank);
    lemma_chars_push((v + five).push(blank), gap);
    lemma_head(w);
}

/// The five-hour figures do not depend on the weekly window, nor the weekly ones on the
/// five-hour window.
pub proof fn windows_are_shown_apart(
    row: AccountRowView,
    w: OverviewWidths,
    selected: bool,
    focused: bool,
    window: Option<WindowCellsView>,
    style: Option<Style>,
)
    requires
        w.seven_day > 0,
    ensures
        ({
            let line = overview_view::account_line(row, w, selected, focused);
            let seven = figures::window_summary(
                row.seven,
                w.seven_day as int,
                w.seven_day >= 18,
                row.seven_style,
            );
            let q = line.len() - 1 - seven.len();
            let other_week = overview_view::account_line(
                AccountRowView { seven: window, seven_style: style, ..row },
                w,
                selected,
                focused,
            );
            let other_hours = overview_view::account_line(
                AccountRowView { five: window, five_style: style, ..row },
                w,
                selected,
                focused,
            );
            &&& other_week.take(q) == line.take(q)
            &&& other_hours.skip(other_hours.len() - 1 - seven.len()) == line.skip(q)
        }),
{
    let line = overview_view::account_line(row, w, selected, focused);
    let a = AccountRowView { seven: window, seven_style: style, ..row };
    let b = AccountRowView { five: window, five_style: style, ..row };
    lemma_parts(row, w, selected, focused);
    lemma_parts(a, w, selected, focused);
    lemma_parts(b, w, selected, focused);
    let shown = selected && focused;
    assert(overview_view::timer_span(a) == overview_view::timer_span(row));
    assert(overview_view::timer_span(b) == overview_view::timer_span(row));
    assert(front(a, w, shown) == front(row, w, shown));
    assert(front(b, w, shown) == front(row, w, shown));
    let la = overview_view::account_line(a, w, selected, focused);
    let lb = overview_view::account_line(b, w, selected, focused);
    let seven = seven_cells(row, w);
    let q = line.len() - 1 - seven.len();
    assert(la.take(q) =~= line.take(q));
    assert(lb.skip(lb.len() - 1 - seven.len()) =~= line.skip(q));
}

/// The summary of a window shows that window's percentage.
pub proof fn summaries_show_their_percentage(
    w: WindowCellsView,
    width: int,
    include_bar: bool,
    style: Option<Style>,
)
    ensures
        ({
            let v = figures::window_summary(Some(w), width, include_bar, style);
            exists|k: int|
                0 <= k < v.len() && ((#[trigger] v[k]).text == w.percent + "%"@ || v[k].text == " "@
                    + w.percent + "%"@)
        }),
{
    let v = figures::window_summary(Some(w), width, include_bar, style);
    let cells = figures::summary_bar_cells(width, include_bar);
    if cells == 0 {
        assert(v[0].text == w.percent + "%"@);
    } else {
        assert(v[3].text == " "@ + w.percent + "%"@);
    }
}

/// The name of an account stands in its row whole where it fits, and the active account's mark
/// before it unless something is wrong.
pub proof fn rows_show_their_account(
    row: AccountRowView,
    w: OverviewWidths,
    selected: bool,
    focused: bool,
)
    requires
        row.name.len() <= w.name,
    ensures
        ({
            let line = overview_view::account_line(row, w, selected, focused);
            let marked = row.flags.auth_broken || row.flags.bell || row.flags.active;
            &&& line[if marked {
                3int
            } else {
                2int
            }].text == row.name
            &&& row.flags.active && !row.flags.auth_broken && !row.flags.bell ==> line[1].text
                == "●"@
            &&& line[0].text == (if selected && focused {
                "❯ "@
            } else {
                "  "@
            })
        }),
{
}

} // verus!
