//! What the card of a chain member says: why it is passed over, how much it has used, and what
//! its rows do.

use vstd::prelude::*;

use crate::chain_view;
use crate::chain_view::{MemberCardView, ReasonView, SpendRoomView};
use crate::forms::FallbackRow;
use crate::host::HostView;
use crate::laws::panes;
use crate::layout;
use crate::layout::GlyphsView;
use crate::paint;
use crate::paint::{LineView, Role};

verus! {

// ── reasons ─────────────────────────────────────────────────────────────────

/// A reason that only its owner can mend is in the hue of danger, one that passes by itself is a
/// warning, and one that says nothing of the account is dim.
pub proof fn reasons_have_their_hue(r: ReasonView)
    ensures
        chain_view::reason_role(r) == Role::Danger <==> r is Canceled || r is AuthBroken
            || r is WeeklySpent,
        chain_view::reason_role(r) == Role::Dim <==> r is Disabled || r is Stale,
        chain_view::reason_role(r) == Role::Danger || chain_view::reason_role(r) == Role::Dim
            || chain_view::reason_role(r) == Role::Warning,
{
}

/// A reason carries its figures: when a window resets, when a block lifts, and how much is used.
pub proof fn reasons_give_their_figures(host: HostView, a: Seq<char>, t: Seq<char>)
    ensures
        chain_view::reason_label(host, ReasonView::FiveHour { pct: a, reset: Some(t) }) == "5h "@
            + a + "% · "@ + t,
        chain_view::reason_label(host, ReasonView::FiveHour { pct: a, reset: None }) == "5h "@ + a
            + "%"@,
        chain_view::reason_label(host, ReasonView::WeeklySpent { reset: Some(t) })
            == "weekly spent · "@ + t,
        chain_view::reason_label(host, ReasonView::WeeklySoft { pct: a }) == "weekly "@ + a
            + "% · still serving"@,
        chain_view::reason_label(host, ReasonView::KickRejected { lifts: t }) == layout::lower(
            host.product,
        ) + " blocked · "@ + t,
        chain_view::reason_label(host, ReasonView::Disabled) == "disabled"@,
        chain_view::reason_label(host, ReasonView::Canceled) == "subscription canceled"@,
        chain_view::reason_label(host, ReasonView::AuthBroken) == "auth broken"@,
        chain_view::reason_label(host, ReasonView::BudgetSpent) == "extra usage spent"@,
        chain_view::reason_label(host, ReasonView::ScopedSpent) == "one model's week spent"@,
        chain_view::reason_label(host, ReasonView::Stale) == "stale data"@,
{
}

/// A broken login is mended by logging in to that very account.
pub proof fn broken_logins_name_the_account(host: HostView, name: Seq<char>)
    ensures
        chain_view::fix_of(host, ReasonView::AuthBroken, name) == "re-login with clauth login "@
            + name,
        chain_view::fix_of(host, ReasonView::Disabled, name)
            == "excluded from the walk, enable it on the setup tab"@,
        chain_view::fix_of(host, ReasonView::BudgetSpent, name) == "raise max spend below"@,
{
}

/// A card with nothing against its member says nothing; otherwise the reason comes first. A
/// disabled member says too what else is against it, and any other says its one reason.
pub proof fn disabled_members_keep_their_health(
    host: HostView,
    reason: Option<ReasonView>,
    health: Option<ReasonView>,
    name: Seq<char>,
    width: int,
)
    ensures
        ({
            let v = chain_view::stacked(host, reason, health, name, width);
            &&& reason is None ==> v.len() == 0
            &&& reason is Some ==> {
                let open = reason->0 is Disabled && health is Some;
                let fix = layout::rail_note(
                    chain_view::fix_of(host, reason->0, name),
                    width,
                    open,
                );
                &&& v[0].spans[2].text == chain_view::reason_label(host, reason->0)
                &&& v[0].spans[2].style.role == chain_view::reason_role(reason->0)
                &&& v.last() == paint::blank_of()
                &&& open ==> v[fix.len() as int + 1].spans[2].text == chain_view::reason_label(
                    host,
                    health->0,
                )
                &&& !open ==> v.len() == fix.len() + 2
            }
        }),
{
    if reason is Some {
        let r = reason->0;
        let open = r is Disabled && health is Some;
        let first = chain_view::pill_entry(host, r, name, width, true, open);
        let fix = layout::rail_note(chain_view::fix_of(host, r, name), width, open);
        assert(first.len() == 1 + fix.len());
        assert(first[0].spans[2].text == chain_view::reason_label(host, r));
        if open {
            let second = chain_view::pill_entry(host, health->0, name, width, false, false);
            let v = chain_view::stacked(host, reason, health, name, width);
            assert(v[first.len() as int] == second[0]);
            assert(v[0] == first[0]);
        } else {
            assert(chain_view::stacked(host, reason, health, name, width)[0] == first[0]);
        }
    }
}

// ── usage and rows ──────────────────────────────────────────────────────────

/// A card says how much of the window is used, and how much is left until the chain moves on.
pub proof fn cards_show_their_usage(card: MemberCardView)
    ensures
        ({
            let v = chain_view::usage_block(card);
            &&& v.len() == 3
            &&& card.figure is Some ==> v[0].spans.last().text == "  "@ + (card.figure->0).percent
                + "% used"@ && v[1].spans[1].text == (card.figure->0).until + "% until rotate"@
            &&& card.figure is None ==> v[0].spans.last().text == "  no data yet"@
                && v[1].spans[1].text == ""@
        }),
{
}

/// A row is explained while it is selected, and its range while it is typed; unlimited spending is
/// warned of at all times.
pub proof fn rows_are_explained_when_selected(card: MemberCardView, row: FallbackRow)
    ensures
        ({
            let note = |selected: bool| chain_view::card_note(card, row, selected);
            &&& row is Remove ==> note(true).len() == 0 && note(false).len() == 0
            &&& row is Threshold && card.threshold_edit is None ==> note(false).len() == 0
                && note(true) == layout::help_note(
                "switches to the next account once 5h usage hits "@ + card.threshold + "%"@,
                card.width,
            )
            &&& row is Threshold && card.threshold_edit is Some ==> note(true) == note(false)
                && note(true) == layout::range_note(
                "0-100 %"@,
                (card.threshold_edit->0).valid,
                card.width,
            )
            &&& row is LastResort ==> note(false).len() == 0 && note(true) == layout::help_note(
                card.last_resort_hint,
                card.width,
            )
            &&& row is MaxSpend && card.spend_edit is None && card.flags.uncapped ==> note(true)
                == note(false) && note(true) == layout::invalid_note(
                "nothing stops the spending: "@ + card.uncapped_fix,
                card.width,
            )
            &&& row is MaxSpend && card.spend_edit is None && !card.flags.uncapped ==> note(
                false,
            ).len() == 0 && note(true) == layout::help_note(card.max_spend_hint, card.width)
        }),
{
}

/// A card holds each of its rows, in order; the one under the cursor alone is selected, and none
/// while the card is not focused.
pub proof fn cards_hold_their_rows(
    head: Seq<LineView>,
    glyphs: GlyphsView,
    card: MemberCardView,
    n: nat,
    i: int,
)
    requires
        0 <= i < n <= card.rows.len(),
        0 <= card.cursor < card.rows.len(),
    ensures
        ({
            let v = chain_view::card_rows(head, glyphs, card, n);
            let at = chain_view::card_rows(head, glyphs, card, i as nat).len() as int;
            let here = card.flags.focused && i == card.cursor;
            let row = chain_view::card_line(glyphs, card, card.rows[i], here);
            &&& head.len() <= at < v.len()
            &&& v.take(head.len() as int) == head
            &&& v[at].selected <==> here
            &&& v[at].spans.take(row.spans.len() as int) == row.spans
        }),
    decreases n,
{
    lemma_head(head, glyphs, card, n);
    lemma_head(head, glyphs, card, (n - 1) as nat);
    lemma_head(head, glyphs, card, i as nat);
    let v = chain_view::card_rows(head, glyphs, card, n);
    let before = chain_view::card_rows(head, glyphs, card, (n - 1) as nat);
    let at = chain_view::card_rows(head, glyphs, card, i as nat).len() as int;
    if i < n - 1 {
        cards_hold_their_rows(head, glyphs, card, (n - 1) as nat, i);
        assert(v[at] == before[at]);
    } else {
        let here = card.flags.focused && i == card.cursor;
        let row = chain_view::card_line(glyphs, card, card.rows[i], here);
        assert(!row.selected);
        assert(v[at].spans.take(row.spans.len() as int) =~= row.spans);
    }
}

proof fn lemma_head(head: Seq<LineView>, glyphs: GlyphsView, card: MemberCardView, n: nat)
    ensures
        ({
            let v = chain_view::card_rows(head, glyphs, card, n);
            &&& v.len() >= head.len()
            &&& v.take(head.len() as int) == head
        }),
    decreases n,
{
    if n > 0 {
        lemma_head(head, glyphs, card, (n - 1) as nat);
        let before = chain_view::card_rows(head, glyphs, card, (n - 1) as nat);
        let v = chain_view::card_rows(head, glyphs, card, n);
        assert(v.take(head.len() as int) =~= before.take(head.len() as int));
    } else {
        assert(head.take(head.len() as int) =~= head);
    }
}

/// A card ends by saying when the chain resumes, where it has stopped.
pub proof fn cards_say_when_the_chain_resumes(
    host: HostView,
    glyphs: GlyphsView,
    card: MemberCardView,
    reason: Option<ReasonView>,
    health: Option<ReasonView>,
)
    ensures
        ({
            let v = chain_view::card_lines(host, glyphs, card, reason, health);
            let rows = chain_view::card_rows(
                chain_view::card_head(host, card, reason, health),
                glyphs,
                card,
                card.rows.len(),
            );
            &&& card.resume is Some ==> v.last().spans[0].text == "resumes: "@ + card.resume->0
                && v.len() == rows.len() + 2
            &&& card.resume is None ==> v.len() == rows.len()
        }),
{
}

/// The place of a row in a card is its first one, and none where the card lacks it.
pub proof fn rows_are_found(rows: Seq<FallbackRow>, row: FallbackRow, n: nat)
    requires
        n <= rows.len(),
    ensures
        match chain_view::place_of(rows, row, n) {
            Some(k) => 0 <= k < n && rows[k] == row && forall|j: int|
                0 <= j < k ==> (#[trigger] rows[j]) != row,
            None => forall|j: int| 0 <= j < n ==> (#[trigger] rows[j]) != row,
        },
    decreases n,
{
    if n > 0 {
        rows_are_found(rows, row, (n - 1) as nat);
    }
}

/// Nothing is spent while paid usage is off or no ceiling is set; otherwise what is left is said.
pub proof fn ceilings_say_what_is_left(budget_on: bool, cap: Option<Seq<char>>, room: SpendRoomView)
    ensures
        ({
            let s = chain_view::spend_hint(budget_on, cap, room);
            &&& !budget_on ==> s == "turn on allow extra usage in config before this does anything"@
            &&& budget_on && cap is None ==> s == "never spends here; type a ceiling to allow it"@
            &&& budget_on && cap is Some && room is Left ==> s == "$"@ + room->Left_0
                + " left to spend here before it stops"@
            &&& budget_on && cap is Some && room is Unknown ==> s == "spends at most $"@ + cap->0
                + " here once every account is spent"@
            &&& budget_on && cap is Some && room is NotSetUp ==> s
                == "this account isn't set up for paid usage"@
        }),
{
}

/// The pane that adds to the chain lists every candidate while it is focused, and says so where
/// there is none.
pub proof fn candidates_are_listed_or_missed(
    host: HostView,
    names: Seq<Seq<char>>,
    cursor: int,
    width: int,
    i: int,
)
    requires
        0 <= i < names.len() ==> 0 <= cursor < names.len(),
    ensures
        ({
            let v = chain_view::add_pane(host, names, cursor, true, width);
            let bare = chain_view::add_pane(host, names, cursor, false, width);
            &&& names.len() == 0 ==> v == bare && v.last().spans[0].text
                == "every account is already in the chain"@
            &&& 0 <= i < names.len() ==> v.len() == bare.len() + names.len() && v[bare.len()
                + i].spans[1].text == names[i] && (v[bare.len() + i].selected <==> i == cursor)
        }),
{
    if 0 <= i < names.len() {
        panes::candidate_rows_show_their_name(
            chain_view::add_pane(host, names, cursor, false, width),
            names,
            cursor,
            width,
            names.len(),
            i,
        );
    }
}

} // verus!
