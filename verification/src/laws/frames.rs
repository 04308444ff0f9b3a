//! What frames the screens: the header, the strip, toasts, dialogs, notes and the list of keys.

use vstd::prelude::*;

use crate::chain_view;
use crate::chain_view::ReasonView;
use crate::chrome;
use crate::chrome::Area;
use crate::feed::Impact;
use crate::footer;
use crate::forms::{BannerSeverity, BannerView, ToastKind};
use crate::help;
use crate::help::{KeyHelpView, LegendView};
use crate::layout;
use crate::layout::GlyphsView;
use crate::menu::ActionItemView;
use crate::modal_box;
use crate::modals_view;
use crate::modals_view::PresetEntryView;
use crate::paint;
use crate::paint::{LineView, Role, SpanView, Style};
use crate::tabs;
use crate::tabs::{Tab, TAB_COUNT};
use crate::state::TabMarks;
use crate::text;
use crate::wrapping;

verus! {

// ── the header ──────────────────────────────────────────────────────────────

/// A banner says its message, in a hue that tells a danger from a warning.
pub proof fn banners_show_their_message(b: BannerView)
    ensures
        chrome::banner_text(b).spans[1].text == b.message,
        chrome::banner_text(b).spans[1].style.role == Role::Danger <==> b.severity
            == BannerSeverity::Danger,
        chrome::banner_text(b).spans[1].style.role == Role::Warning <==> b.severity
            == BannerSeverity::Warning,
{
}

/// The second header row ends with the service's name behind a dot in its hue, and fills the row
/// where the name can be set off.
pub proof fn the_service_stands_at_the_edge(
    head: Seq<SpanView>,
    feed: Seq<char>,
    worst: Impact,
    width: int,
)
    ensures
        ({
            let v = chrome::accounts_line(head, feed, worst, width).spans;
            &&& v.last().text == feed
            &&& v[v.len() - 2].style.role == chrome::service_role(worst)
            &&& v.take(head.len() as int) == head
            &&& paint::chars_in(head) + feed.len() + 3 <= width ==> paint::chars_in(v) == width
            &&& paint::chars_in(head) + feed.len() + 3 > width ==> v.len() == head.len() + 2
        }),
{
    reveal_strlit("● ");
    let v = chrome::accounts_line(head, feed, worst, width).spans;
    assert(v.take(head.len() as int) =~= head);
    let short = v.drop_last();
    let gapped = short.drop_last();
    assert(paint::chars_in(v) == paint::chars_in(short) + feed.len());
    assert(short.last().text == "● "@);
    assert(paint::chars_in(short) == paint::chars_in(gapped) + 2);
    if paint::chars_in(head) + feed.len() + 3 <= width {
        assert(gapped.drop_last() =~= head);
        let pad = (width - paint::chars_in(head) - chrome::feed_cells(feed)) as nat;
        assert(gapped.last().text == text::fill(' ', pad));
        lemma_fill(' ', pad);
        assert(paint::chars_in(gapped) == paint::chars_in(head) + pad);
    }
}

proof fn lemma_fill(c: char, n: nat)
    ensures
        text::fill(c, n).len() == n,
{
}

/// A strip too narrow for every tab names the shown one, and points to each side where tabs
/// follow.
pub proof fn narrow_strips_point_to_the_rest(current: Tab)
    ensures
        ({
            let v = chrome::overflow_spans(current);
            let left: int = if current == Tab::Overview {
                0
            } else {
                1
            };
            let right: int = if current == Tab::Plugin {
                0
            } else {
                1
            };
            &&& v.len() == 1 + left + right
            &&& v[left].text == chrome::strip_name(current)
            &&& left == 1 ==> v[0].text == "‹  "@
            &&& right == 1 ==> v.last().text == "  ›"@
        }),
{
}

/// The strip is as wide as what it shows.
pub proof fn strips_have_their_width(current: Tab, marks: TabMarks, n: nat)
    requires
        n <= TAB_COUNT,
    ensures
        paint::chars_in(chrome::strip_spans(current, marks, n)) == chrome::strip_cells(n),
    decreases n,
{
    if n > 0 {
        strips_have_their_width(current, marks, (n - 1) as nat);
        reveal_strlit("   ");
        chrome::strip_names_are_titles(tabs::tab_at(n - 1));
        let v = chrome::strip_spans(current, marks, n);
        let before = chrome::strip_spans(current, marks, (n - 1) as nat);
        let gapped = v.drop_last();
        assert(paint::chars_in(v) == paint::chars_in(gapped) + v.last().text.len());
        if n > 1 {
            assert(gapped.drop_last() =~= before);
            assert(paint::chars_in(gapped) == paint::chars_in(before) + 3);
        } else {
            assert(gapped =~= before);
        }
    }
}

/// The logo looks the same a whole period later, and differs in its first line alone.
pub proof fn logos_blink(a: int, b: int)
    ensures
        chrome::logo(a + 6000) == chrome::logo(a),
        chrome::logo(a).len() == 3,
        chrome::logo(a)[1] == chrome::logo(b)[1] && chrome::logo(a)[2] == chrome::logo(b)[2],
        0 <= a < 200 && 200 <= b < 6000 ==> chrome::logo(a)[0].spans[0].text == " ▐█████▌ "@
            && chrome::logo(b)[0].spans[0].text == " ▐▛███▜▌ "@,
{
    assert((a + 6000) % 6000 == a % 6000);
}

// ── toasts ──────────────────────────────────────────────────────────────────

/// Every row of a toast stands behind a bar in the toast's hue and shows its part of the text.
pub proof fn toast_rows_show_their_text(
    kind: ToastKind,
    line: Seq<char>,
    width: nat,
    style: Style,
    i: int,
)
    requires
        0 <= i < wrapping::eagerly_wrapped(line, width).len(),
    ensures
        ({
            let v = chrome::toast_rows(kind, line, width, style);
            &&& v.len() == wrapping::wrapped(line, width).len()
            &&& v[i].spans.len() == 2
            &&& v[i].spans[0].text == "┃ "@
            &&& v[i].spans[0].style.role == chrome::toast_role(kind)
            &&& v[i].spans[1].text == wrapping::wrapped(line, width)[i]
            &&& v[i].spans[1].style == style
        }),
{
    wrapping::wrappings_agree(line, width);
}

/// A toast's hue tells how bad its news is.
pub proof fn toasts_have_their_hue(kind: ToastKind)
    ensures
        chrome::toast_role(kind) == Role::Danger <==> kind == ToastKind::Danger,
        chrome::toast_role(kind) == Role::Warning <==> kind == ToastKind::Warning,
        chrome::toast_role(kind) == Role::Success <==> kind == ToastKind::Success,
        chrome::toast_role(kind) == Role::Info <==> kind == ToastKind::Info,
{
}

/// A toast's first line is its title, and each further line stands below the ones before it.
pub proof fn toasts_start_with_their_title(kind: ToastKind, lines: Seq<Seq<char>>, width: nat)
    requires
        lines.len() > 0,
    ensures
        ({
            let title = chrome::toast_rows(kind, lines[0], width, chrome::toast_title());
            let v = chrome::toast_body(kind, lines, width, lines.len());
            &&& v.len() >= title.len()
            &&& v.take(title.len() as int) == title
            &&& lines.len() > 1 ==> {
                let foot = chrome::toast_rows(
                    kind,
                    lines.last(),
                    width,
                    chrome::toast_detail(),
                );
                v.skip(v.len() - foot.len()) == foot
            }
        }),
{
    let n = lines.len();
    lemma_title(kind, lines, width, n);
    if n > 1 {
        let v = chrome::toast_body(kind, lines, width, n);
        let before = chrome::toast_body(kind, lines, width, (n - 1) as nat);
        let foot = chrome::toast_rows(kind, lines.last(), width, chrome::toast_detail());
        assert(v == before + foot);
        assert((before + foot).skip(before.len() as int) =~= foot);
    }
}

proof fn lemma_title(kind: ToastKind, lines: Seq<Seq<char>>, width: nat, n: nat)
    requires
        0 < n <= lines.len(),
    ensures
        ({
            let title = chrome::toast_rows(kind, lines[0], width, chrome::toast_title());
            let v = chrome::toast_body(kind, lines, width, n);
            &&& v.len() >= title.len()
            &&& v.take(title.len() as int) == title
        }),
    decreases n,
{
    reveal_with_fuel(chrome::toast_body, 2);
    let title = chrome::toast_rows(kind, lines[0], width, chrome::toast_title());
    let v = chrome::toast_body(kind, lines, width, n);
    if n == 1 {
        assert(v =~= title);
        assert(v.take(title.len() as int) =~= title);
    } else {
        lemma_title(kind, lines, width, (n - 1) as nat);
        let before = chrome::toast_body(kind, lines, width, (n - 1) as nat);
        assert(v.take(title.len() as int) =~= before.take(title.len() as int));
    }
}

/// A toast that fits stands two cells from the right edge and two rows below the top, further
/// down by what stands above it.
pub proof fn toasts_stand_at_the_right_edge(screen: Area, content: int, above: int, height: u16)
    requires
        0 <= content <= 36,
        content + 5 <= screen.width,
        0 <= above,
        screen.x + screen.width <= u16::MAX,
        screen.y + 2 + above <= u16::MAX,
    ensures
        ({
            let a = chrome::toast_area(screen, content, above, height);
            &&& a.x + a.width + 2 == screen.x + screen.width
            &&& a.y == screen.y + 2 + above
            &&& a.width == content + 3
            &&& a.height == height
        }),
{
}

// ── dialogs ─────────────────────────────────────────────────────────────────

/// The widest line of a dialog is one of its lines, and no line is wider.
pub proof fn the_widest_line_is_found(lines: Seq<LineView>, n: nat, i: int)
    requires
        0 <= i < n <= lines.len(),
    ensures
        paint::spans_columns(lines[i].spans) <= modal_box::widest_line(lines, n),
        modal_box::widest_line(lines, n) == 0 || exists|j: int|
            0 <= j < n && modal_box::widest_line(lines, n) == paint::spans_columns(
                (#[trigger] lines[j]).spans,
            ),
    decreases n,
{
    reveal_with_fuel(modal_box::widest_line, 2);
    if n > 1 {
        let k = if i < n - 1 {
            i
        } else {
            0
        };
        the_widest_line_is_found(lines, (n - 1) as nat, k);
    }
    if modal_box::widest_line(lines, n) == paint::spans_columns(lines[n - 1].spans) {
        assert(exists|j: int|
            0 <= j < n && modal_box::widest_line(lines, n) == paint::spans_columns(
                (#[trigger] lines[j]).spans,
            ));
    }
}

/// A dialog is wide enough for its lines and its title where the screen is, and never wider than
/// the screen leaves it; its lines need not fold then.
pub proof fn dialogs_hold_their_lines(content: int, title: int, screen: int)
    requires
        0 <= content,
        0 <= title,
        0 <= screen <= u16::MAX,
    ensures
        ({
            let cols = modal_box::dialog_columns(content, title, screen);
            &&& cols <= text::monus(screen, 4)
            &&& content + 6 <= screen - 4 ==> cols >= content + 6
                && modal_box::inner_columns(cols) >= content
            &&& title + 4 <= screen - 4 ==> cols >= title + 4
            &&& content + 6 <= screen - 4 && title + 4 <= screen - 4 ==> cols == content + 6
                || cols == title + 4
            &&& modal_box::inner_columns(cols) >= 1
        }),
{
}

/// A dialog scrolls just so far that its last row is shown.
pub proof fn scrolling_ends_at_the_last_row(rows: int, viewport: int)
    requires
        0 <= rows <= u16::MAX,
        0 < viewport,
    ensures
        ({
            let far = modal_box::furthest(rows, viewport);
            &&& 0 <= far
            &&& rows <= far + viewport
            &&& far > 0 ==> far + viewport == rows
        }),
{
}

/// Whether a cell lies on the `y`-th row of a line folded to `w` cells.
pub open spec fn on_fold(cell: int, w: int, y: int) -> bool {
    0 <= y && y * w < cell <= y * w + w
}

/// The text cursor of a folded line keeps its cell: the rows above and the cells before it add up,
/// and it is shown just where its row is.
pub proof fn folded_carets_keep_their_cell(
    first: int,
    cell: int,
    w: int,
    scroll: int,
    viewport: int,
)
    requires
        0 <= first,
        0 <= cell,
        0 < w,
    ensures
        match modal_box::folded_caret(first, cell, w, scroll, viewport) {
            Some((x, y)) => 0 <= y < viewport && 0 <= x <= w && cell == (y + scroll - first) * w
                + x && (x == 0 ==> cell == 0),
            None => forall|y: int| #[trigger]
                on_fold(cell, w, y) ==> !(scroll <= first + y < scroll + viewport),
        },
{
    let fold = text::monus(cell, 1) / w;
    vstd::arithmetic::div_mod::lemma_fundamental_div_mod(text::monus(cell, 1), w);
    vstd::arithmetic::div_mod::lemma_mod_bound(text::monus(cell, 1), w);
    assert(w * fold == fold * w) by (nonlinear_arith);
    if cell == 0 {
        vstd::arithmetic::div_mod::lemma_basic_div(0, w);
        assert(fold == 0);
    }
    if modal_box::folded_caret(first, cell, w, scroll, viewport) is None {
        assert forall|y: int| #[trigger] on_fold(cell, w, y) implies !(scroll <= first + y < scroll
            + viewport) by {
            vstd::arithmetic::div_mod::lemma_fundamental_div_mod_converse(
                cell - 1,
                w,
                y,
                cell - 1 - y * w,
            );
        }
    }
}

/// The action menu has room for its longest entry and a row for each of its entries, where the
/// screen has.
pub proof fn menus_have_room_for_their_entries(
    items: Seq<ActionItemView>,
    scoped: int,
    context: Option<Seq<char>>,
    area: Area,
    i: int,
)
    requires
        0 <= i < items.len(),
    ensures
        ({
            let (w, h) = modals_view::menu_size(items, scoped, context, area);
            let split: int = if 0 < scoped < items.len() {
                1
            } else {
                0
            };
            &&& w <= text::monus(area.width as int, 4)
            &&& h <= text::monus(area.height as int, 4)
            &&& w == text::monus(area.width as int, 4) || w >= items[i].label.len() + 12
            &&& context is Some ==> w == text::monus(area.width as int, 4) || w >= (
            context->0).len() + 14
            &&& h == text::monus(area.height as int, 4) || h == items.len() + split + 4
        }),
{
    lemma_widest_label(items, items.len(), i);
}

proof fn lemma_widest_label(items: Seq<ActionItemView>, n: nat, i: int)
    requires
        0 <= i < n <= items.len(),
    ensures
        items[i].label.len() <= modals_view::widest_label(items, n),
    decreases n,
{
    if i < n - 1 {
        lemma_widest_label(items, (n - 1) as nat, i);
    }
}

/// The preset picker names the account it changes and lists every preset in order; built-in ones
/// are marked, and the caret stands before the one under the cursor.
pub proof fn presets_are_listed(
    target: Seq<char>,
    presets: Seq<PresetEntryView>,
    cursor: int,
    i: int,
)
    requires
        0 <= i < presets.len(),
        0 <= cursor < presets.len(),
    ensures
        ({
            let v = modals_view::preset_dialog(target, presets, cursor);
            let row = v[i + 2].spans;
            &&& v.len() == presets.len() + 4
            &&& v[0].spans[0].text == "sets the base url and models on '"@ + target + "'."@
            &&& row[1].text == presets[i].name
            &&& row[0].text == (if i == cursor {
                "❯ "@
            } else {
                "  "@
            })
            &&& row.len() == (if presets[i].builtin {
                3int
            } else {
                2
            })
        }),
{
    let head = Seq::empty().push(
        paint::single_of(
            "sets the base url and models on '"@ + target + "'."@,
            paint::ink(Role::Dim),
        ),
    ).push(paint::blank_of());
    lemma_presets(head, presets, cursor, presets.len(), i);
}

proof fn lemma_presets(
    before: Seq<LineView>,
    presets: Seq<PresetEntryView>,
    cursor: int,
    n: nat,
    i: int,
)
    requires
        before.len() == 2,
        n <= presets.len(),
    ensures
        ({
            let v = modals_view::preset_rows(before, presets, cursor, n);
            &&& v.len() == n + 2
            &&& v[0] == before[0]
            &&& 0 <= i < n ==> v[i + 2] == modals_view::preset_row(presets[i], i == cursor)
        }),
    decreases n,
{
    if n > 0 {
        lemma_presets(before, presets, cursor, (n - 1) as nat, i);
    }
}

/// A dialog that asks for a name shows what it is for and what was typed.
pub proof fn name_dialogs_show_what_is_typed(
    glyphs: GlyphsView,
    blurb: Seq<char>,
    name: Seq<char>,
)
    ensures
        modals_view::name_dialog(glyphs, blurb, name).len() == 3,
        modals_view::name_dialog(glyphs, blurb, name)[0].spans[0].text == blurb,
        modals_view::name_dialog(glyphs, blurb, name)[2].spans.last().text == name,
{
}

// ── notes and panes ─────────────────────────────────────────────────────────

/// A note hangs on its leader with its first line and is indented below; every line shows its
/// part of the note.
pub proof fn notes_hang_under_their_row(note: Seq<char>, width: int, i: int)
    requires
        11 <= width,
        0 <= i < wrapping::wrapped(note, (width - 3) as nat).len(),
    ensures
        ({
            let segs = wrapping::wrapped(note, (width - 3) as nat);
            let v = layout::help_note(note, width);
            let w = layout::invalid_note(note, width);
            &&& v.len() == segs.len() == w.len()
            &&& v[i].spans[1].text == segs[i] && w[i].spans[1].text == segs[i]
            &&& v[i].spans[0].text == (if i == 0 {
                " └ "@
            } else {
                "   "@
            })
            &&& v[i].spans[1].style.role == Role::Faint
            &&& w[i].spans[1].style.role == Role::Danger
            &&& layout::range_note(note, true, width) == v
            &&& layout::range_note(note, false, width) == w
        }),
{
}

/// A rail stays open where another entry follows and is closed by the last one.
pub proof fn rails_close_with_the_last_entry(note: Seq<char>, width: int, i: int)
    requires
        11 <= width,
        0 <= i < wrapping::wrapped(note, (width - 3) as nat).len(),
    ensures
        layout::rail_note(note, width, true)[i].spans[0].text == (if i == 0 {
            "├ "@
        } else {
            "│ "@
        }),
        layout::rail_note(note, width, false)[i].spans[0].text == (if i == 0 {
            "└ "@
        } else {
            "  "@
        }),
        layout::rail_note(note, width, true)[i].spans[1] == layout::rail_note(
            note,
            width,
            false,
        )[i].spans[1],
{
}

/// A picker takes three tenths of the body, within its bounds, and never shrinks with more room.
pub proof fn pickers_take_their_share(a: int, b: int)
    requires
        0 <= a <= b,
    ensures
        20 <= layout::picker_cells(a) <= layout::picker_cells(b) <= 40,
        67 <= a <= 133 ==> layout::picker_cells(a) == a * 3 / 10,
{
}

/// A pane's title shows its label, and the spinner behind it while the pane is loaded.
pub proof fn titles_show_their_label(
    label: Seq<char>,
    focused: bool,
    first: bool,
    frame: Seq<char>,
)
    ensures
        layout::title_spans(label, focused, first, None).len() == 1,
        layout::title_spans(label, focused, first, None)[0].text == " "@ + label + " "@,
        layout::title_spans(label, focused, first, Some(frame)).len() == 2,
        layout::title_spans(label, focused, first, Some(frame))[0] == layout::title_spans(
            label,
            focused,
            first,
            None,
        )[0],
        layout::title_spans(label, focused, first, Some(frame))[1].text == frame + " "@,
{
}

/// An empty list says why it is empty, and which key does what about it.
pub proof fn empty_lists_say_what_to_do(hint: Seq<char>, hotkey: Seq<char>, action: Seq<char>)
    ensures
        ({
            let v = layout::empty_lines(hint, hotkey, action);
            &&& v.len() == 2
            &&& v[0].spans[0].text == hint
            &&& v[1].spans[0].text == hotkey
            &&& v[1].spans[1].text == " "@ + action
        }),
{
}

/// An inset takes as much from the right as from the left, and nothing in height.
pub proof fn insets_are_even(area: Area, pad: int)
    requires
        0 <= pad,
        2 * pad <= area.width,
        area.x + area.width <= u16::MAX,
    ensures
        ({
            let r = footer::inset(area, pad);
            &&& r.x - area.x == pad
            &&& (area.x + area.width) - (r.x + r.width) == pad
            &&& r.y == area.y && r.height == area.height
        }),
{
}

// ── the list of keys ────────────────────────────────────────────────────────

/// Every key of a section is listed with its own description, in order, below its heading.
pub proof fn keys_are_listed_with_their_sense(
    title: Seq<char>,
    rows: Seq<KeyHelpView>,
    i: int,
)
    requires
        0 <= i < rows.len(),
    ensures
        ({
            let v = help::keys_section(title, rows);
            &&& v.len() == rows.len() + 3
            &&& v[0].spans[0].text == layout::upper(title)
            &&& v[i + 2].spans[1].text == rows[i].desc
            &&& v[i + 2].spans[0].text.subrange(2, rows[i].key.len() as int + 2) == rows[i].key
            &&& v.last() == paint::blank_of()
        }),
{
    lemma_keys(rows, rows.len(), i);
    reveal_strlit("  ");
    let line = help::help_line(rows[i]);
    assert(line.spans[0].text.subrange(2, rows[i].key.len() as int + 2) =~= rows[i].key);
}

proof fn lemma_keys(rows: Seq<KeyHelpView>, n: nat, i: int)
    requires
        n <= rows.len(),
    ensures
        help::help_lines(rows, n).len() == n,
        0 <= i < n ==> help::help_lines(rows, n)[i] == help::help_line(rows[i]),
    decreases n,
{
    if n > 0 {
        lemma_keys(rows, (n - 1) as nat, i);
    }
}

/// The list shows the keys of the tab it is opened on, between the ways to move and the keys that
/// work everywhere.
pub proof fn the_list_is_about_its_tab(tab: Tab, l: LegendView)
    ensures
        ({
            let v = help::help_dialog(tab, l);
            let at = help::nav_keys().len() as int + help::list_keys().len() as int + 6;
            let own = help::keys_section(help::tab_heading(tab), help::tab_keys(tab));
            &&& v.subrange(at, at + own.len()) == own
            &&& v.skip(v.len() - 12) == help::legend_lines(l)
        }),
{
    let nav = help::keys_section("tabs"@, help::nav_keys());
    let list = help::keys_section("this modal"@, help::list_keys());
    let own = help::keys_section(help::tab_heading(tab), help::tab_keys(tab));
    lemma_keys(help::nav_keys(), help::nav_keys().len(), 0);
    lemma_keys(help::list_keys(), help::list_keys().len(), 0);
    lemma_keys(help::tab_keys(tab), help::tab_keys(tab).len(), 0);
    let v = help::help_dialog(tab, l);
    let at = (nav.len() + list.len()) as int;
    assert(v.subrange(at, at + own.len()) =~= own);
    assert(help::legend_lines(l).len() == 12);
    assert(v.skip(v.len() - 12) =~= help::legend_lines(l));
}

/// The legend sets each mark beside the description of what it marks.
pub proof fn the_legend_explains_its_marks(l: LegendView)
    ensures
        ({
            let v = help::legend_lines(l);
            let says = |i: int, r: ReasonView, d: Seq<char>|
                v[i].spans[1] == chain_view::mark_of(r) && v[i].spans[3].text == d;
            &&& v.len() == 12
            &&& v[0].spans[1].text == "●"@ && v[0].spans[3].text == "the active account"@
            &&& says(2, ReasonView::Disabled, l.disabled)
            &&& says(3, ReasonView::Canceled, l.canceled)
            &&& says(4, ReasonView::AuthBroken, l.auth_broken)
            &&& says(5, ReasonView::WeeklySpent { reset: None }, l.weekly_spent)
            &&& says(6, ReasonView::KickRejected { lifts: ""@ }, l.kick)
            &&& says(7, ReasonView::BudgetSpent, l.budget_spent)
            &&& says(8, ReasonView::FiveHour { pct: ""@, reset: None }, "5h window spent"@)
            &&& says(9, ReasonView::ScopedSpent, "one model's week spent, other models ok"@)
            &&& says(10, ReasonView::WeeklySoft { pct: ""@ }, l.weekly_soft)
            &&& says(11, ReasonView::Stale, l.stale)
        }),
{
}

/// The heading over a tab's keys is the tab's own.
pub proof fn tabs_have_their_heading(tab: Tab)
    ensures
        tab != Tab::Overview && tab != Tab::Fallback ==> help::tab_heading(tab)
            == chrome::strip_name(tab),
        help::tab_heading(Tab::Overview) == "accounts"@,
        help::tab_heading(Tab::Fallback) == "fallback chain"@,
{
}

} // verus!
