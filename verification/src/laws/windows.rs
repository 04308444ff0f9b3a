//! What dialogs, lists and the header show.

use vstd::prelude::*;

use crate::chrome;
use crate::chrome::DaemonHealth;
use crate::feed::{Impact, IncidentView, StatusFocus, StatusStateView};
use crate::forms;
use crate::forms::{
    ConfirmActionView, ConfirmStateView, DivergenceActionView, DivergenceFormView,
    DivergenceTargetFormView, EnvCollisionFormView, LoginStage, ToastKind,
};
use crate::layout;
use crate::modals_view;
use crate::modals_view::{AskingView, LoginSceneView};
use crate::model::{AppConfigView, DivergenceChoice};
use crate::paint;
use crate::paint::{LineView, Role};
use crate::picker;
use crate::state::TabMarks;
use crate::status_view;
use crate::tabs;
use crate::tabs::Tab;
use crate::text;

verus! {

// ── dialogs ─────────────────────────────────────────────────────────────────

/// A yes/no dialog says its message first and its detail next, and ends with its buttons.
pub proof fn confirm_dialogs_say_their_message(a: AskingView, s: ConfirmStateView)
    ensures
        ({
            let v = modals_view::confirm_dialog(a, s);
            &&& v[0].spans[0].text == s.message
            &&& s.detail is Some ==> v.len() == 4 && v[1].spans[0].text == s.detail->0
            &&& s.detail is None ==> v.len() == 3
            &&& v.last().right
            &&& v.last().spans == modals_view::confirm_buttons(a, s.choice).spans
        }),
{
}

/// The button that enter would press is the one that stands out: cancel on no, the other on yes.
pub proof fn the_pressed_button_stands_out(a: AskingView, choice: bool)
    requires
        !(a is Notice),
    ensures
        ({
            let v = modals_view::confirm_buttons(a, choice).spans;
            &&& v.len() == 3
            &&& v[0].text == " cancel "@
            &&& v[0].style.role == Role::Ground <==> !choice
            &&& v[2].style.role == Role::Ground <==> choice
        }),
{
}

/// What loses a login, a token or a session is marked as a loss; what only adds or repairs is not.
pub proof fn losses_are_told_from_repairs(name: Seq<char>, slot: u64, flag: bool)
    ensures
        modals_view::is_destructive(ConfirmActionView::Switch(name)),
        modals_view::is_destructive(ConfirmActionView::RotateAll),
        modals_view::is_destructive(ConfirmActionView::RotateOne(name)),
        modals_view::is_destructive(ConfirmActionView::CaptureOverwrite(slot, name, flag)),
        modals_view::is_destructive(ConfirmActionView::AdoptDivergence(slot, name)),
        modals_view::is_destructive(ConfirmActionView::BlankCredentials(name)),
        modals_view::is_destructive(ConfirmActionView::DeleteLiveSession(name)),
        !modals_view::is_destructive(ConfirmActionView::WireMcpServers),
        !modals_view::is_destructive(ConfirmActionView::RelinkCredentials(name)),
        !modals_view::is_destructive(ConfirmActionView::CaptureConflict(slot, flag)),
        !modals_view::is_destructive(ConfirmActionView::RestartLogin(name, flag)),
{
}

/// A row of a prompt, under its own text; the caret stands before the one under the cursor alone.
pub open spec fn is_option(l: LineView, selected: bool, label: Seq<char>) -> bool {
    &&& l.spans.len() == 2
    &&& l.spans[1].text == label
    &&& l.spans[0].text == (if selected {
        "❯ "@
    } else {
        "  "@
    })
}

/// The prompt about a live login names the account, and lists what can be done with it in order,
/// the caret on the row under the cursor.
pub proof fn divergence_prompts_list_their_actions(f: DivergenceFormView, k: int)
    requires
        0 <= k < forms::divergence_actions(f.sibling).len(),
        f.cursor < forms::divergence_actions(f.sibling).len(),
    ensures
        ({
            let v = modals_view::divergence_dialog(f);
            let head = if f.sibling is Some {
                3int
            } else {
                2int
            };
            let a = forms::divergence_actions(f.sibling)[k];
            &&& v.len() == head + forms::divergence_actions(f.sibling).len()
            &&& v[0].spans[1].text == "'"@ + f.active + "'"@
            &&& f.sibling is Some ==> v[1].spans[1].text == "'"@ + f.sibling->0 + "'"@
            &&& is_option(
                v[head + k],
                k == f.cursor,
                match a {
                    DivergenceActionView::SwitchToOwner(owner) => "switch to '"@ + owner
                        + "' (this login is its account)"@,
                    DivergenceActionView::Choice(DivergenceChoice::Overwrite) => "overwrite '"@
                        + f.active + "' with this login"@,
                    DivergenceActionView::Choice(DivergenceChoice::NewProfile) =>
                        "save this login to another account…"@,
                    DivergenceActionView::Choice(DivergenceChoice::Discard) =>
                        "discard this login and restore '"@ + f.active + "'"@,
                },
            )
        }),
{
    let actions = forms::divergence_actions(f.sibling);
    lemma_divergence_rows(
        modals_view::divergence_head(f),
        actions,
        f.active,
        f.cursor as int,
        actions.len(),
    );
    assert(text::min_int(f.cursor as int, actions.len() - 1) == f.cursor);
}

proof fn lemma_divergence_rows(
    before: Seq<LineView>,
    actions: Seq<DivergenceActionView>,
    active: Seq<char>,
    cursor: int,
    n: nat,
)
    requires
        n <= actions.len(),
    ensures
        ({
            let v = modals_view::divergence_rows(before, actions, active, cursor, n);
            &&& v.len() == before.len() + n
            &&& forall|i: int| 0 <= i < before.len() ==> v[i] == before[i]
            &&& forall|k: int|
                0 <= k < n ==> v[before.len() + k] == modals_view::option_row(
                    k == cursor,
                    modals_view::divergence_caption(#[trigger] actions[k], active),
                )
        }),
    decreases n,
{
    if n > 0 {
        lemma_divergence_rows(before, actions, active, cursor, (n - 1) as nat);
        let u = modals_view::divergence_rows(before, actions, active, cursor, (n - 1) as nat);
        let v = modals_view::divergence_rows(before, actions, active, cursor, n);
        assert forall|k: int| 0 <= k < n implies v[before.len() + k] == modals_view::option_row(
            k == cursor,
            modals_view::divergence_caption(#[trigger] actions[k], active),
        ) by {
            if k < n - 1 {
                assert(v[before.len() + k] == u[before.len() + k]);
            }
        }
    }
}

/// The picker lists a new account first and the accounts after it in order, the caret on the row
/// under the cursor.
pub proof fn target_pickers_list_their_accounts(f: DivergenceTargetFormView, k: int)
    requires
        0 <= k < f.targets.len(),
        f.cursor <= f.targets.len(),
    ensures
        ({
            let v = modals_view::target_dialog(f);
            &&& v.len() == 3 + f.targets.len()
            &&& is_option(v[2], f.cursor == 0, "+ new account"@)
            &&& is_option(v[3 + k], f.cursor == k + 1, "overwrite '"@ + f.targets[k] + "'"@)
        }),
{
    let head = Seq::<LineView>::empty().push(
        paint::single_of("where to save the login?"@, paint::ink(Role::Dim)),
    ).push(paint::blank_of()).push(modals_view::option_row(f.cursor == 0, "+ new account"@));
    lemma_target_rows(head, f.targets, f.cursor as int, f.targets.len());
}

proof fn lemma_target_rows(
    before: Seq<LineView>,
    targets: Seq<Seq<char>>,
    cursor: int,
    n: nat,
)
    requires
        n <= targets.len(),
    ensures
        ({
            let v = modals_view::target_rows(before, targets, cursor, n);
            &&& v.len() == before.len() + n
            &&& forall|i: int| 0 <= i < before.len() ==> v[i] == before[i]
            &&& forall|k: int|
                0 <= k < n ==> v[before.len() + k] == modals_view::option_row(
                    cursor == k + 1,
                    "overwrite '"@ + #[trigger] targets[k] + "'"@,
                )
        }),
    decreases n,
{
    if n > 0 {
        lemma_target_rows(before, targets, cursor, (n - 1) as nat);
        let u = modals_view::target_rows(before, targets, cursor, (n - 1) as nat);
        let v = modals_view::target_rows(before, targets, cursor, n);
        assert forall|k: int| 0 <= k < n implies v[before.len() + k] == modals_view::option_row(
            cursor == k + 1,
            "overwrite '"@ + #[trigger] targets[k] + "'"@,
        ) by {
            if k < n - 1 {
                assert(v[before.len() + k] == u[before.len() + k]);
            }
        }
    }
}

/// The prompt for a key that stands elsewhere names the key and where it stands, and lists adding
/// it, keeping what is there and calling it off, in this order.
pub proof fn collision_prompts_list_their_choices(f: EnvCollisionFormView)
    requires
        f.cursor <= 2,
    ensures
        ({
            let v = modals_view::collision_dialog(f);
            &&& v.len() == 8
            &&& v[0].spans[0].text == "'"@ + f.key + "'"@
            &&& v[0].spans[2].text == f.reason
            &&& is_option(v[2], f.cursor == 0, "add the custom field anyway"@)
            &&& is_option(v[4], f.cursor == 1, "keep the existing value"@)
            &&& is_option(v[6], f.cursor == 2, "cancel"@)
        }),
{
    reveal_with_fuel(modals_view::collision_rows, 4);
}

/// The login dialog names its account, and offers the page again while the browser is waited for
/// and there is a page.
pub proof fn login_dialogs_name_their_account(
    glyphs: crate::layout::GlyphsView,
    s: LoginSceneView,
)
    ensures
        ({
            let v = modals_view::login_dialog(glyphs, s);
            &&& v[0].spans[0].text == "logging in '"@ + s.name + "'"@
            &&& !s.door_open && s.stage == LoginStage::WaitingBrowser && s.has_url
                ==> v.last().spans[0].text == "r"@
            &&& !s.door_open && s.stage == LoginStage::WaitingBrowser && !s.has_url
                ==> v.last().spans[0].text == "opening your browser…"@
            &&& !s.door_open && s.stage != LoginStage::WaitingBrowser ==> v.len() == 3
        }),
{
}

// ── lists ───────────────────────────────────────────────────────────────────

/// The account lists show every account on its own row, in order, under its name; the one under
/// the cursor is the selected one.
pub proof fn account_lists_show_every_account(
    cfg: AppConfigView,
    disabled: Seq<bool>,
    sel: int,
    focused: bool,
    width: int,
    n: nat,
    i: int,
)
    requires
        0 <= i < n <= cfg.profiles.len(),
    ensures
        ({
            let v = picker::picker_lines(cfg, disabled, sel, focused, width, n);
            &&& v.len() == n
            &&& v[i] == layout::picked_row(
                i == sel,
                focused,
                cfg.profiles[i].name,
                if i < disabled.len() && disabled[i] {
                    paint::ink(Role::Dim)
                } else if cfg.state.active_profile == Some(cfg.profiles[i].name) {
                    paint::ink(Role::Accent2)
                } else {
                    layout::name_color(false)
                },
                width,
            )
        }),
    decreases n,
{
    lemma_picker_len(cfg, disabled, sel, focused, width, (n - 1) as nat);
    if i < n - 1 {
        account_lists_show_every_account(
            cfg,
            disabled,
            sel,
            focused,
            width,
            (n - 1) as nat,
            i,
        );
    }
}

proof fn lemma_picker_len(
    cfg: AppConfigView,
    disabled: Seq<bool>,
    sel: int,
    focused: bool,
    width: int,
    n: nat,
)
    ensures
        picker::picker_lines(cfg, disabled, sel, focused, width, n).len() == n,
    decreases n,
{
    if n > 0 {
        lemma_picker_len(cfg, disabled, sel, focused, width, (n - 1) as nat);
    }
}

/// The incident list gives every incident it shows two rows: its title, and how it stands. The one
/// under the cursor is the selected one.
pub proof fn incident_lists_show_their_incidents(
    s: StatusStateView,
    ages: Seq<Seq<char>>,
    width: int,
    from: int,
    to: int,
    i: int,
)
    requires
        0 <= from <= i < to <= s.incidents.len(),
    ensures
        ({
            let v = status_view::incident_lines(s, ages, width, from, to);
            &&& v.len() == 2 * (to - from)
            &&& v[2 * (i - from)] == status_view::title_row(
                s.incidents[i].title,
                i == s.cursor,
                s.focus == StatusFocus::List,
                width,
            )
            &&& v[2 * (i - from) + 1] == status_view::state_row(
                s.incidents[i],
                ages[i],
                i == s.cursor,
                width,
            )
        }),
    decreases to - from,
{
    lemma_incident_lines(s, ages, width, from, to - 1);
    if i < to - 1 {
        incident_lists_show_their_incidents(s, ages, width, from, to - 1, i);
    }
}

proof fn lemma_incident_lines(
    s: StatusStateView,
    ages: Seq<Seq<char>>,
    width: int,
    from: int,
    to: int,
)
    requires
        from <= to,
    ensures
        status_view::incident_lines(s, ages, width, from, to).len() == 2 * (to - from),
    decreases to - from,
{
    if from < to {
        lemma_incident_lines(s, ages, width, from, to - 1);
    }
}

/// An incident that was resolved lasted from its start to its end; any other is going on.
pub proof fn resolved_incidents_have_lasted(i: IncidentView)
    ensures
        i.resolved_ms is None ==> status_view::lasting(i) == "ongoing"@,
        i.resolved_ms is Some && i.resolved_ms->0 >= i.started_ms ==> status_view::lasting(i)
            == "lasted "@ + status_view::duration_words(
            (i.resolved_ms->0 - i.started_ms) / 1000,
        ),
{
}

/// A length of time is given in days, hours or minutes, and is never less than a minute.
pub proof fn durations_are_given_in_their_unit(secs: int)
    requires
        secs >= 0,
    ensures
        secs < 60 ==> status_view::duration_words(secs) == text::decimal(1) + "m"@,
        60 <= secs < 3600 ==> status_view::duration_words(secs) == text::decimal(
            (secs / 60) as nat,
        ) + "m"@,
        3600 <= secs < 86400 ==> status_view::duration_words(secs) == text::decimal(
            (secs / 3600) as nat,
        ) + "h"@,
        secs >= 86400 ==> status_view::duration_words(secs) == text::decimal(
            (secs / 86400) as nat,
        ) + "d"@,
{
}

// ── the header ──────────────────────────────────────────────────────────────

/// The strip shows every tab under its name, in order; the shown one stands out, and any other has
/// the hue of its mark.
pub proof fn strips_show_every_tab(current: Tab, marks: TabMarks, n: nat, tab: Tab)
    requires
        tab.place() < n <= 8,
    ensures
        ({
            let v = chrome::strip_spans(current, marks, n);
            let at = 2 * tab.place();
            &&& v.len() == 2 * n - 1
            &&& v[at].text == chrome::strip_name(tab)
            &&& tab == current ==> v[at].style == chrome::shown_tab()
            &&& tab != current ==> v[at].style == paint::ink(chrome::mark_role(marks.at(tab)))
        }),
    decreases n,
{
    lemma_strip_len(current, marks, (n - 1) as nat);
    tabs::tab_positions_are_distinct(tab, tab);
    if tab.place() < n - 1 {
        strips_show_every_tab(current, marks, (n - 1) as nat, tab);
    }
}

proof fn lemma_strip_len(current: Tab, marks: TabMarks, n: nat)
    ensures
        chrome::strip_spans(current, marks, n).len() == (if n == 0 {
            0
        } else {
            2 * n - 1
        }),
    decreases n,
{
    if n > 0 {
        lemma_strip_len(current, marks, (n - 1) as nat);
    }
}

/// Hues say how bad it is: errors are a danger, warnings a warning, and a healthy service and a
/// fresh daemon a success.
pub proof fn hues_say_how_bad_it_is()
    ensures
        chrome::toast_role(ToastKind::Danger) == Role::Danger,
        chrome::toast_role(ToastKind::Warning) == Role::Warning,
        chrome::toast_role(ToastKind::Success) == Role::Success,
        chrome::toast_role(ToastKind::Info) == Role::Info,
        chrome::mark_role(Some(ToastKind::Danger)) == Role::Danger,
        chrome::mark_role(Some(ToastKind::Warning)) == Role::Warning,
        chrome::mark_role(None) == Role::Dim,
        chrome::service_role(Impact::Critical) == Role::Danger,
        chrome::service_role(Impact::Major) == Role::Danger,
        chrome::service_role(Impact::Minor) == Role::Warning,
        chrome::service_role(Impact::Nothing) == Role::Success,
        chrome::daemon_role(DaemonHealth::Fresh) == Some(Role::Success),
        chrome::daemon_role(DaemonHealth::Stale) == Some(Role::Warning),
        chrome::daemon_role(DaemonHealth::Absent) is None,
{
}

/// The header counts the accounts, one in the singular and any other number in the plural.
pub proof fn accounts_are_counted(n: nat)
    ensures
        chrome::count_text(1) == text::decimal(1) + " account"@ + ""@,
        n != 1 ==> chrome::count_text(n) == text::decimal(n) + " account"@ + "s"@,
{
}

} // verus!
