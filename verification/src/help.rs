//! The list of keys: what each one does on the current tab and everywhere, and what the marks
//! on the account lists mean.

use vstd::prelude::*;

use crate::chain_view;
use crate::chain_view::{Reason, ReasonView};
use crate::layout;
use crate::paint;
use crate::paint::{Line, LineView, Role, Span, SpanView};
use crate::tabs::Tab;
use crate::text;

verus! {

/// Width of the key column.
pub const HELP_KEY_W: usize = 18;

/// Blanks between the key column and the descriptions.
pub const HELP_KEY_GUTTER: usize = 2;

/// A key and what it does.
#[derive(Clone, Copy, Debug)]
pub struct KeyHelp {
    pub key: &'static str,
    pub desc: &'static str,
}

/// What a [`KeyHelp`] says.
pub struct KeyHelpView {
    pub key: Seq<char>,
    pub desc: Seq<char>,
}

impl View for KeyHelp {
    type V = KeyHelpView;

    open spec fn view(&self) -> KeyHelpView {
        KeyHelpView { key: self.key@, desc: self.desc@ }
    }
}

/// A key and what it does.
pub open spec fn help_of(key: Seq<char>, desc: Seq<char>) -> KeyHelpView {
    KeyHelpView { key, desc }
}

/// The views of a list of keys.
pub open spec fn help_views(v: Seq<KeyHelp>) -> Seq<KeyHelpView> {
    v.map_values(|h: KeyHelp| h@)
}

fn note(v: &mut Vec<KeyHelp>, key: &'static str, desc: &'static str)
    ensures
        help_views(final(v)@) == help_views(old(v)@).push(help_of(key@, desc@)),
{
    v.push(KeyHelp { key, desc });
    assert(help_views(v@) =~= help_views(old(v)@).push(help_of(key@, desc@)));
}

fn no_keys() -> (r: Vec<KeyHelp>)
    ensures
        help_views(r@) == Seq::<KeyHelpView>::empty(),
{
    let v: Vec<KeyHelp> = Vec::new();
    assert(help_views(v@) =~= Seq::<KeyHelpView>::empty());
    v
}

/// The heading over the keys of a tab.
pub open spec fn tab_heading(tab: Tab) -> Seq<char> {
    match tab {
        Tab::Overview => "accounts"@,
        Tab::Usage => "usage"@,
        Tab::Tokens => "tokens"@,
        Tab::Setup => "setup"@,
        Tab::Fallback => "fallback chain"@,
        Tab::Config => "config"@,
        Tab::Status => "status"@,
        Tab::Plugin => "plugin"@,
    }
}

/// The keys of a tab.
pub open spec fn tab_keys(tab: Tab) -> Seq<KeyHelpView> {
    match tab {
        Tab::Overview => Seq::empty().push(
            help_of("↑↓"@, "move cursor"@),
        ).push(
            help_of("↵"@, "switch to selected account (confirm)"@),
        ).push(
            help_of("shift ↑↓"@, "reorder account up / down"@),
        ),
        Tab::Usage => Seq::empty().push(
            help_of("↑↓"@, "pick account to inspect"@),
        ).push(
            help_of("r"@, "refresh account"@),
        ).push(
            help_of("e"@, "toggle estimates"@),
        ).push(
            help_of("p"@, "toggle pace marker"@),
        ),
        Tab::Tokens => Seq::empty().push(
            help_of("↵"@, "open per-model breakdown"@),
        ).push(
            help_of("↑↓"@, "pick model (in breakdown)"@),
        ).push(
            help_of("c"@, "count cache in token figures"@),
        ).push(
            help_of("t"@, "cycle period · lifetime / daily / weekly / monthly"@),
        ).push(
            help_of("r"@, "reload on-disk stats"@),
        ).push(
            help_of("esc"@, "back to dashboard"@),
        ),
        Tab::Setup => Seq::empty().push(
            help_of("↑↓"@, "pick account / + new, then a row"@),
        ).push(
            help_of("↵"@, "open settings · edit field · flip toggle"@),
        ).push(
            help_of("↵ on a field"@, "edit inline; ↵ again saves"@),
        ).push(
            help_of("space"@, "cycle the model preset (model row)"@),
        ).push(
            help_of("env"@, "+ add env · ↵ edits a value"@),
        ).push(
            help_of("a"@, "duplicate the account · save it as a preset · apply one"@),
        ).push(
            help_of("disable / enable"@, "↵ arms disable, again confirms · enable is one press · inert while active or a live session is open"@),
        ).push(
            help_of("delete"@, "↵ once to arm, again to confirm"@),
        ).push(
            help_of("esc"@, "stop editing / back to account list"@),
        ),
        Tab::Fallback => Seq::empty().push(
            help_of("↑↓"@, "move cursor / detail row"@),
        ).push(
            help_of("shift ↑↓"@, "reorder to set priority"@),
        ).push(
            help_of("↵"@, "open · edit threshold · edit weekly at · edit max spend · toggle gates / last resort · remove · add"@),
        ).push(
            help_of("+ / -"@, "step rotate at / weekly at by 5"@),
        ).push(
            help_of("↵ on rotate at"@, "type a value, ↵ saves"@),
        ).push(
            help_of("↵ on weekly at"@, "type a %, empty clears"@),
        ).push(
            help_of("esc"@, "back / cancel edit"@),
        ),
        Tab::Config => Seq::empty().push(
            help_of("↑↓"@, "move between settings"@),
        ).push(
            help_of("space"@, "cycle the focused setting"@),
        ).push(
            help_of("↵"@, "same as space · type a value on refresh or weekly limit"@),
        ),
        Tab::Status => Seq::empty().push(
            help_of("↑↓"@, "pick incident / scroll detail"@),
        ).push(
            help_of("↵"@, "open incident timeline"@),
        ).push(
            help_of("r"@, "refresh the feed"@),
        ).push(
            help_of("esc"@, "back to the list"@),
        ),
        Tab::Plugin => Seq::empty().push(
            help_of("↑↓"@, "pick check · scroll detail · walk herdr options"@),
        ).push(
            help_of("↵"@, "open detail · activate an option"@),
        ).push(
            help_of("space"@, "activate the focused herdr option"@),
        ).push(
            help_of("+ / -"@, "step the tag refresh"@),
        ).push(
            help_of("f"@, "apply the selected row's fix"@),
        ).push(
            help_of("r"@, "re-run all checks"@),
        ).push(
            help_of("esc"@, "back to the list · close the editor"@),
        ),
    }
}

/// The keys of a tab, under their heading.
pub fn tab_specific_rows(tab: Tab) -> (r: (&'static str, Vec<KeyHelp>))
    ensures
        r.0@ == tab_heading(tab),
        help_views(r.1@) == tab_keys(tab),
{
    let mut v = no_keys();
    let heading = match tab {
        Tab::Overview => {
            note(&mut v, "↑↓", "move cursor");
            note(&mut v, "↵", "switch to selected account (confirm)");
            note(&mut v, "shift ↑↓", "reorder account up / down");
            "accounts"
        },
        Tab::Usage => {
            note(&mut v, "↑↓", "pick account to inspect");
            note(&mut v, "r", "refresh account");
            note(&mut v, "e", "toggle estimates");
            note(&mut v, "p", "toggle pace marker");
            "usage"
        },
        Tab::Tokens => {
            note(&mut v, "↵", "open per-model breakdown");
            note(&mut v, "↑↓", "pick model (in breakdown)");
            note(&mut v, "c", "count cache in token figures");
            note(&mut v, "t", "cycle period · lifetime / daily / weekly / monthly");
            note(&mut v, "r", "reload on-disk stats");
            note(&mut v, "esc", "back to dashboard");
            "tokens"
        },
        Tab::Setup => {
            note(&mut v, "↑↓", "pick account / + new, then a row");
            note(&mut v, "↵", "open settings · edit field · flip toggle");
            note(&mut v, "↵ on a field", "edit inline; ↵ again saves");
            note(&mut v, "space", "cycle the model preset (model row)");
            note(&mut v, "env", "+ add env · ↵ edits a value");
            note(&mut v, "a", "duplicate the account · save it as a preset · apply one");
            note(&mut v, "disable / enable", "↵ arms disable, again confirms · enable is one press · inert while active or a live session is open");
            note(&mut v, "delete", "↵ once to arm, again to confirm");
            note(&mut v, "esc", "stop editing / back to account list");
            "setup"
        },
        Tab::Fallback => {
            note(&mut v, "↑↓", "move cursor / detail row");
            note(&mut v, "shift ↑↓", "reorder to set priority");
            note(&mut v, "↵", "open · edit threshold · edit weekly at · edit max spend · toggle gates / last resort · remove · add");
            note(&mut v, "+ / -", "step rotate at / weekly at by 5");
            note(&mut v, "↵ on rotate at", "type a value, ↵ saves");
            note(&mut v, "↵ on weekly at", "type a %, empty clears");
            note(&mut v, "esc", "back / cancel edit");
            "fallback chain"
        },
        Tab::Config => {
            note(&mut v, "↑↓", "move between settings");
            note(&mut v, "space", "cycle the focused setting");
            note(&mut v, "↵", "same as space · type a value on refresh or weekly limit");
            "config"
        },
        Tab::Status => {
            note(&mut v, "↑↓", "pick incident / scroll detail");
            note(&mut v, "↵", "open incident timeline");
            note(&mut v, "r", "refresh the feed");
            note(&mut v, "esc", "back to the list");
            "status"
        },
        Tab::Plugin => {
            note(&mut v, "↑↓", "pick check · scroll detail · walk herdr options");
            note(&mut v, "↵", "open detail · activate an option");
            note(&mut v, "space", "activate the focused herdr option");
            note(&mut v, "+ / -", "step the tag refresh");
            note(&mut v, "f", "apply the selected row's fix");
            note(&mut v, "r", "re-run all checks");
            note(&mut v, "esc", "back to the list · close the editor");
            "plugin"
        },
    };
    (heading, v)
}

/// The keys that move between tabs.
pub open spec fn nav_keys() -> Seq<KeyHelpView> {
    Seq::empty().push(
        help_of("← → · tab"@, "previous / next tab (shift tab: previous)"@),
    )
}

/// The keys of the list itself.
pub open spec fn list_keys() -> Seq<KeyHelpView> {
    Seq::empty().push(
        help_of("↑↓"@, "scroll"@),
    ).push(
        help_of("esc · q · ?"@, "close"@),
    )
}

/// The keys that work on every tab.
pub open spec fn global_keys() -> Seq<KeyHelpView> {
    Seq::empty().push(
        help_of("n"@, "new account"@),
    ).push(
        help_of("r"@, "refresh usage now"@),
    ).push(
        help_of("t"@, "rotate all tokens"@),
    ).push(
        help_of("d"@, "resolve credential divergence (when flagged)"@),
    ).push(
        help_of("?"@, "toggle this help"@),
    ).push(
        help_of("a"@, "actions"@),
    ).push(
        help_of("x"@, "dismiss toast / alert"@),
    ).push(
        help_of("q"@, "back / quit"@),
    ).push(
        help_of("esc"@, "back within a sub-view (no-op at the top level)"@),
    ).push(
        help_of("⌃c"@, "quit from anywhere"@),
    )
}

fn nav_rows() -> (r: Vec<KeyHelp>)
    ensures
        help_views(r@) == nav_keys(),
{
    let mut v = no_keys();
    note(&mut v, "← → · tab", "previous / next tab (shift tab: previous)");
    v
}

fn list_rows() -> (r: Vec<KeyHelp>)
    ensures
        help_views(r@) == list_keys(),
{
    let mut v = no_keys();
    note(&mut v, "↑↓", "scroll");
    note(&mut v, "esc · q · ?", "close");
    v
}

fn global_rows() -> (r: Vec<KeyHelp>)
    ensures
        help_views(r@) == global_keys(),
{
    let mut v = no_keys();
    note(&mut v, "n", "new account");
    note(&mut v, "r", "refresh usage now");
    note(&mut v, "t", "rotate all tokens");
    note(&mut v, "d", "resolve credential divergence (when flagged)");
    note(&mut v, "?", "toggle this help");
    note(&mut v, "a", "actions");
    note(&mut v, "x", "dismiss toast / alert");
    note(&mut v, "q", "back / quit");
    note(&mut v, "esc", "back within a sub-view (no-op at the top level)");
    note(&mut v, "⌃c", "quit from anywhere");
    v
}

/// Whether a key is among the first `n` of a list.
pub open spec fn lists_key(rows: Seq<KeyHelpView>, key: Seq<char>, n: nat) -> bool
    decreases n,
{
    n > 0 && (lists_key(rows, key, (n - 1) as nat) || rows[n - 1].key == key)
}

/// The first `n` keys of a list that the tab does not use for something else.
pub open spec fn unshadowed(rows: Seq<KeyHelpView>, tab: Seq<KeyHelpView>, n: nat) -> Seq<
    KeyHelpView,
>
    decreases n,
{
    if n == 0 {
        Seq::empty()
    } else {
        let before = unshadowed(rows, tab, (n - 1) as nat);
        if lists_key(tab, rows[n - 1].key, tab.len()) {
            before
        } else {
            before.push(rows[n - 1])
        }
    }
}

fn has_key(rows: &Vec<KeyHelp>, key: &str) -> (r: bool)
    ensures
        r == lists_key(help_views(rows@), key@, rows@.len()),
{
    let ghost all = help_views(rows@);
    let mut found: bool = false;
    let mut i: usize = 0;
    while i < rows.len()
        invariant
            i <= rows@.len(),
            all == help_views(rows@),
            found == lists_key(all, key@, i as nat),
        decreases rows@.len() - i,
    {
        assert(all[i as int] == rows@[i as int]@);
        if text::same_text(rows[i].key, key) {
            found = true;
        }
        i = i + 1;
    }
    found
}

/// The keys that work everywhere and that the tab leaves alone.
pub fn kept_rows(rows: &Vec<KeyHelp>, tab: &Vec<KeyHelp>) -> (r: Vec<KeyHelp>)
    ensures
        help_views(r@) == unshadowed(help_views(rows@), help_views(tab@), rows@.len()),
{
    let ghost all = help_views(rows@);
    let ghost own = help_views(tab@);
    assert(own.len() == tab@.len());
    let mut out = no_keys();
    let mut i: usize = 0;
    while i < rows.len()
        invariant
            i <= rows@.len(),
            all == help_views(rows@),
            own == help_views(tab@),
            own.len() == tab@.len(),
            help_views(out@) == unshadowed(all, own, i as nat),
        decreases rows@.len() - i,
    {
        assert(all[i as int] == rows@[i as int]@);
        if !has_key(tab, rows[i].key) {
            note(&mut out, rows[i].key, rows[i].desc);
        }
        i = i + 1;
    }
    out
}

/// The heading of a section and the blank below it.
pub open spec fn heading_lines(title: Seq<char>) -> Seq<LineView> {
    Seq::empty().push(paint::single_of(layout::upper(title), paint::ink(Role::Dim))).push(
        paint::blank_of(),
    )
}

fn put_heading(out: &mut Vec<Line>, title: &str)
    ensures
        paint::lines_view(final(out)@) == paint::lines_view(old(out)@) + heading_lines(title@),
{
    let ghost start = paint::lines_view(out@);
    paint::add_line(out, paint::single(&layout::uppercase(title), paint::ink(Role::Dim)));
    paint::add_line(out, paint::blank());
    assert(paint::lines_view(out@) =~= start + heading_lines(title@));
}

/// A key and its description.
pub open spec fn help_line(h: KeyHelpView) -> LineView {
    paint::line_of(
        Seq::empty().push(
            paint::span_of(
                "  "@ + layout::key_text(h.key, HELP_KEY_W as nat, HELP_KEY_GUTTER as nat),
                paint::ink(Role::Accent).strong(),
            ),
        ).push(paint::span_of(h.desc, paint::ink(Role::Text))),
    )
}

/// A key and its description.
pub fn help_row(key: &str, desc: &str) -> (r: Line)
    ensures
        r@ == help_line(help_of(key@, desc@)),
{
    let cell = layout::key_cell(key, HELP_KEY_W, HELP_KEY_GUTTER);
    let mut v = paint::no_spans();
    paint::put(&mut v, &text::joined("  ", &cell), paint::ink(Role::Accent).strong());
    paint::put(&mut v, desc, paint::ink(Role::Text));
    paint::line(v)
}

/// The first `n` keys of a list as lines.
pub open spec fn help_lines(rows: Seq<KeyHelpView>, n: nat) -> Seq<LineView>
    decreases n,
{
    if n == 0 {
        Seq::empty()
    } else {
        help_lines(rows, (n - 1) as nat).push(help_line(rows[n - 1]))
    }
}

/// A section of keys, with a blank at its end.
pub open spec fn keys_section(title: Seq<char>, rows: Seq<KeyHelpView>) -> Seq<LineView> {
    (heading_lines(title) + help_lines(rows, rows.len())).push(paint::blank_of())
}

/// Appends a section of keys.
pub fn key_section(out: &mut Vec<Line>, title: &str, rows: &Vec<KeyHelp>)
    ensures
        paint::lines_view(final(out)@) == paint::lines_view(old(out)@) + keys_section(
            title@,
            help_views(rows@),
        ),
{
    let ghost start = paint::lines_view(out@);
    let ghost all = help_views(rows@);
    assert(all.len() == rows@.len());
    put_heading(out, title);
    let ghost head = start + heading_lines(title@);
    assert(head + help_lines(all, 0) =~= head);
    let mut i: usize = 0;
    while i < rows.len()
        invariant
            i <= rows@.len(),
            all == help_views(rows@),
            paint::lines_view(out@) == head + help_lines(all, i as nat),
        decreases rows@.len() - i,
    {
        assert(all[i as int] == rows@[i as int]@);
        paint::add_line(out, help_row(rows[i].key, rows[i].desc));
        i = i + 1;
        assert(paint::lines_view(out@) =~= head + help_lines(all, i as nat));
    }
    paint::add_line(out, paint::blank());
    assert(paint::lines_view(out@) =~= start + keys_section(title@, all));
}

/// What the marks on the account lists mean, in the words the lists use.
#[derive(Debug)]
pub struct Legend {
    pub disabled: String,
    pub canceled: String,
    pub auth_broken: String,
    pub weekly_spent: String,
    pub kick: String,
    pub budget_spent: String,
    pub weekly_soft: String,
    pub stale: String,
}

/// What a [`Legend`] says.
pub struct LegendView {
    pub disabled: Seq<char>,
    pub canceled: Seq<char>,
    pub auth_broken: Seq<char>,
    pub weekly_spent: Seq<char>,
    pub kick: Seq<char>,
    pub budget_spent: Seq<char>,
    pub weekly_soft: Seq<char>,
    pub stale: Seq<char>,
}

impl View for Legend {
    type V = LegendView;

    open spec fn view(&self) -> LegendView {
        LegendView {
            disabled: self.disabled@,
            canceled: self.canceled@,
            auth_broken: self.auth_broken@,
            weekly_spent: self.weekly_spent@,
            kick: self.kick@,
            budget_spent: self.budget_spent@,
            weekly_soft: self.weekly_soft@,
            stale: self.stale@,
        }
    }
}

/// A mark and its description, in the same columns as the keys.
pub open spec fn mark_line(mark: SpanView, desc: Seq<char>) -> LineView {
    paint::line_of(
        Seq::empty().push(paint::raw_of("  "@)).push(mark).push(
            paint::raw_of(
                layout::key_text(""@, (HELP_KEY_W - 1) as nat, HELP_KEY_GUTTER as nat),
            ),
        ).push(paint::span_of(desc, paint::ink(Role::Text))),
    )
}

/// A mark and its description.
pub fn glyph_row(mark: Span, desc: &str) -> (r: Line)
    ensures
        r@ == mark_line(mark@, desc@),
{
    let mut v = paint::no_spans();
    paint::put_raw(&mut v, "  ");
    paint::put_span(&mut v, mark);
    paint::put_raw(&mut v, &layout::key_cell("", HELP_KEY_W - 1, HELP_KEY_GUTTER));
    paint::put(&mut v, desc, paint::ink(Role::Text));
    paint::line(v)
}

/// The lines of the legend. The marks of the reasons are those of the chain.
pub open spec fn legend_lines(l: LegendView) -> Seq<LineView> {
    Seq::empty().push(
        mark_line(
            paint::span_of("●"@, paint::ink(Role::Accent2)),
            "the active account"@,
        ),
    ).push(
        mark_line(
            paint::span_of("⇄"@, paint::ink(Role::Dim)),
            "a live session here follows the fallback chain"@,
        ),
    ).push(mark_line(chain_view::mark_of(ReasonView::Disabled), l.disabled)).push(
        mark_line(chain_view::mark_of(ReasonView::Canceled), l.canceled),
    ).push(mark_line(chain_view::mark_of(ReasonView::AuthBroken), l.auth_broken)).push(
        mark_line(
            chain_view::mark_of(ReasonView::WeeklySpent { reset: None }),
            l.weekly_spent,
        ),
    ).push(
        mark_line(chain_view::mark_of(ReasonView::KickRejected { lifts: ""@ }), l.kick),
    ).push(mark_line(chain_view::mark_of(ReasonView::BudgetSpent), l.budget_spent)).push(
        mark_line(
            chain_view::mark_of(ReasonView::FiveHour { pct: ""@, reset: None }),
            "5h window spent"@,
        ),
    ).push(
        mark_line(
            chain_view::mark_of(ReasonView::ScopedSpent),
            "one model's week spent, other models ok"@,
        ),
    ).push(
        mark_line(chain_view::mark_of(ReasonView::WeeklySoft { pct: ""@ }), l.weekly_soft),
    ).push(mark_line(chain_view::mark_of(ReasonView::Stale), l.stale))
}

/// The lines of the legend.
pub fn glyph_rows(l: &Legend) -> (r: Vec<Line>)
    ensures
        paint::lines_view(r@) == legend_lines(l@),
{
    let mut out = paint::no_lines();
    let none = "".to_string();
    paint::add_line(
        &mut out,
        glyph_row(paint::span("●", paint::ink(Role::Accent2)), "the active account"),
    );
    paint::add_line(
        &mut out,
        glyph_row(
            paint::span("⇄", paint::ink(Role::Dim)),
            "a live session here follows the fallback chain",
        ),
    );
    paint::add_line(
        &mut out,
        glyph_row(chain_view::reason_marker(&Reason::Disabled), &l.disabled),
    );
    paint::add_line(
        &mut out,
        glyph_row(chain_view::reason_marker(&Reason::Canceled), &l.canceled),
    );
    paint::add_line(
        &mut out,
        glyph_row(chain_view::reason_marker(&Reason::AuthBroken), &l.auth_broken),
    );
    paint::add_line(
        &mut out,
        glyph_row(
            chain_view::reason_marker(&Reason::WeeklySpent { reset: None }),
            &l.weekly_spent,
        ),
    );
    paint::add_line(
        &mut out,
        glyph_row(
            chain_view::reason_marker(&Reason::KickRejected { lifts: none.clone() }),
            &l.kick,
        ),
    );
    paint::add_line(
        &mut out,
        glyph_row(chain_view::reason_marker(&Reason::BudgetSpent), &l.budget_spent),
    );
    paint::add_line(
        &mut out,
        glyph_row(
            chain_view::reason_marker(&Reason::FiveHour { pct: none.clone(), reset: None }),
            "5h window spent",
        ),
    );
    paint::add_line(
        &mut out,
        glyph_row(
            chain_view::reason_marker(&Reason::ScopedSpent),
            "one model's week spent, other models ok",
        ),
    );
    paint::add_line(
        &mut out,
        glyph_row(chain_view::reason_marker(&Reason::WeeklySoft { pct: none }), &l.weekly_soft),
    );
    paint::add_line(
        &mut out,
        glyph_row(chain_view::reason_marker(&Reason::Stale), &l.stale),
    );
    out
}

/// The whole list: tabs, the list itself, the tab, what works everywhere, and the legend last.
pub open spec fn help_dialog(tab: Tab, l: LegendView) -> Seq<LineView> {
    keys_section("tabs"@, nav_keys()) + keys_section("this modal"@, list_keys()) + keys_section(
        tab_heading(tab),
        tab_keys(tab),
    ) + keys_section(
        "global"@,
        unshadowed(global_keys(), tab_keys(tab), global_keys().len()),
    ) + heading_lines("glyphs"@) + legend_lines(l)
}

/// The whole list.
pub fn help_screen(tab: Tab, l: &Legend) -> (r: Vec<Line>)
    ensures
        paint::lines_view(r@) == help_dialog(tab, l@),
{
    let (heading, own) = tab_specific_rows(tab);
    let everywhere = global_rows();
    assert(help_views(everywhere@).len() == everywhere@.len());
    let kept = kept_rows(&everywhere, &own);
    let mut out = paint::no_lines();
    key_section(&mut out, "tabs", &nav_rows());
    assert(paint::lines_view(out@) =~= keys_section("tabs"@, nav_keys()));
    key_section(&mut out, "this modal", &list_rows());
    key_section(&mut out, heading, &own);
    key_section(&mut out, "global", &kept);
    put_heading(&mut out, "glyphs");
    paint::add_lines(&mut out, &glyph_rows(l));
    out
}

/// Whether a tab has a view inside it that the escape key leaves.
pub open spec fn has_sub_view(tab: Tab) -> bool {
    match tab {
        Tab::Setup => true,
        Tab::Fallback => true,
        Tab::Status => true,
        Tab::Plugin => true,
        Tab::Tokens => true,
        _ => false,
    }
}

/// Every tab with a view inside it tells how to leave that view.
pub proof fn sub_views_tell_the_way_out(tab: Tab)
    requires
        has_sub_view(tab),
    ensures
        tab_keys(tab).len() > 0,
        tab_keys(tab)[tab_keys(tab).len() - 1].key == "esc"@,
{
}

proof fn lemma_unshadowed(rows: Seq<KeyHelpView>, tab: Seq<KeyHelpView>, n: nat, i: int)
    requires
        n <= rows.len(),
        0 <= i < unshadowed(rows, tab, n).len(),
    ensures
        !lists_key(tab, unshadowed(rows, tab, n)[i].key, tab.len()),
    decreases n,
{
    if n > 0 {
        let before = unshadowed(rows, tab, (n - 1) as nat);
        if i < before.len() {
            lemma_unshadowed(rows, tab, (n - 1) as nat, i);
        }
    }
}

/// A key that the tab uses for something of its own is not listed a second time with its
/// general sense.
pub proof fn keys_have_one_sense(tab: Tab, i: int)
    requires
        0 <= i < unshadowed(global_keys(), tab_keys(tab), global_keys().len()).len(),
    ensures
        !lists_key(
            tab_keys(tab),
            unshadowed(global_keys(), tab_keys(tab), global_keys().len())[i].key,
            tab_keys(tab).len(),
        ),
{
    lemma_unshadowed(global_keys(), tab_keys(tab), global_keys().len(), i);
}

} // verus!
