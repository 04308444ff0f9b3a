//! What the interface and its tabs open with, and what follows when news come in a row.

use vstd::prelude::*;

use crate::dialogs;
use crate::events::OpResultView;
use crate::feed;
use crate::feed::{Impact, IncidentView, StatusStateView};
use crate::forms::{ConfigDraftView, ConfigRow, ConfirmStateView, ModalView, ToastKind};
use crate::host::HostView;
use crate::input::InputView;
use crate::key::KeyCode;
use crate::laws;
use crate::menu::{ActionItemView, ActionMenuStateView};
use crate::model::{AppConfigView, ModelSettings, ProfileView, Tier};
use crate::nav;
use crate::plugin::{PluginFocus, PluginStateView};
use crate::requests::{Reply, Request, RequestView};
use crate::session;
use crate::setup;
use crate::state::AppView;
use crate::tabs::{Tab, TokenFilter, TokenPeriod, TokenView};
use crate::usage::BellReadingView;

verus! {

// ── the start ───────────────────────────────────────────────────────────────

/// The interface starts from nothing: no field is typed into, nothing is pending or armed, nothing
/// was counted or read, and the clocks of what is repeated start now.
pub proof fn interfaces_start_from_nothing(
    host: HostView,
    config: AppConfigView,
    tier: Tier,
    now_ms: u64,
)
    ensures
        ({
            let s = AppView::initial(host, config, tier, now_ms);
            &&& s.fallback_threshold_draft is None
            &&& s.refresh_interval_draft is None
            &&& s.weekly_threshold_draft is None
            &&& s.footer_alert is None
            &&& s.banner is None
            &&& s.divergence_pending is None
            &&& s.bell_fired.len() == 0
            &&& !s.ui.fallback_armed_remove
            &&& !s.ui.compact
            &&& !s.ui.exit.shutting_down
            &&& !s.ui.startup.bootstrap_active
            &&& !s.ui.tokens.loaded && !s.ui.tokens.failed && !s.ui.tokens.topping_up
            &&& s.ui.tokens.progress is None
            &&& s.ui.tokens.filter == TokenFilter::All
            &&& s.ui.tokens.period == TokenPeriod::Lifetime
            &&& s.ui.tokens.view == TokenView::Dashboard
            &&& s.ui.login_generation == 0
            &&& s.ui.tick_count == 0
            &&& s.ui.profile_cursor == 0 && s.ui.chain_cursor == 0
            &&& s.ui.global_config_cursor == 0 && s.ui.config_action_cursor == 0
            &&& s.ui.last_divergence_check == now_ms
            &&& s.ui.last_plugin_refresh == now_ms
            &&& s.token_models.lifetime.len() == 0 && s.token_models.daily.len() == 0
            &&& s.token_models.weekly.len() == 0 && s.token_models.monthly.len() == 0
            &&& forall|tab: Tab| #[trigger] s.ui.marks.at(tab) is None
        }),
{
}

/// Nothing is known of the feed or of the integration before they are first looked at, and neither
/// is being looked at.
pub proof fn nothing_is_known_before_the_first_look()
    ensures
        ({
            let f = StatusStateView::initial();
            let p = PluginStateView::initial();
            &&& f.incidents.len() == 0
            &&& f.fetched_at_ms is None && !f.cached && f.error is None && !f.fetching
            &&& f.seen_latest is None && f.selected() is None
            &&& p.checks.len() == 0
            &&& p.error is None && !p.fetching && p.cc_version is None && p.mcp_boot is None
            &&& p.selected() is None
        }),
{
}

// ── opening a tab ───────────────────────────────────────────────────────────

/// A tab opens at its top with no field typed into; opening the integration has it checked, in
/// passing, and opening any other asks for nothing.
pub proof fn tabs_open_at_their_top(s: AppView, tab: Tab)
    ensures
        ({
            let t = s.tab_switched(tab);
            &&& tab == Tab::Plugin ==> t.plugin.cursor == 0 && t.plugin.detail_scroll == 0
                && t.plugin.focus == PluginFocus::List && t.requests.len() == s.requests.len() + 1
                && t.requests.last() == (RequestView::ProbePlugin {
                forced: false,
                version: s.plugin.wants_version(false),
            })
            &&& tab != Tab::Plugin ==> t.requests == s.requests && t.plugin == s.plugin
            &&& tab == Tab::Setup ==> t.ui.config_action_cursor == 0
            &&& tab == Tab::Tokens ==> t.ui.tokens.view == TokenView::Dashboard
                && t.ui.tokens.model_cursor == 0 && t.ui.tokens.period == s.ui.tokens.period
                && t.ui.tokens.filter == s.ui.tokens.filter
            &&& tab == Tab::Fallback ==> t.ui.fallback_detail_cursor == 0
                && !t.ui.fallback_armed_remove && t.fallback_threshold_draft is None
            &&& tab == Tab::Config ==> t.ui.global_config_cursor == 0 && t.refresh_interval_draft
                is None && t.weekly_threshold_draft is None
            &&& t.config == s.config && t.toasts == s.toasts && t.modals == s.modals
        }),
{
    reveal(AppView::tab_switched);
    reveal(AppView::on);
    reveal(AppView::drafting);
    reveal(AppView::profile_clamped);
    reveal(AppView::fallback_tab_shown);
    reveal(AppView::config_tab_shown);
    reveal(AppView::plugin_tab_shown);
    reveal(AppView::with_plugin);
    reveal(AppView::with_status);
    reveal(AppView::plugin_probe_wanted);
    reveal(AppView::asked);
    reveal(AppView::profile_synced);
}

/// The key that quits is a plain `q`.
pub proof fn quitting_is_a_plain_key()
    ensures
        nav::q_pressed() == laws::pressed(KeyCode::Char('q')),
{
}

// ── fields ──────────────────────────────────────────────────────────────────

/// A row that takes text has a field, whatever else is open; the other fields are those that open
/// another way.
pub proof fn text_rows_have_a_field(d: ConfigDraftView, row: ConfigRow)
    ensures
        row.captures_text() ==> d.field(row) is Some,
        d.field(row) is Some && !row.captures_text() ==> row is Model || row is EnvEntry
            || row is EnvAdd,
        row is Model || row is EnvEntry || row is EnvAdd ==> !row.captures_text(),
{
}

/// A model choice that could not be stored leaves the form as it is and says so.
pub proof fn failed_model_edits_are_told(
    s: AppView,
    name: String,
    models: ModelSettings,
    field: Option<ConfigRow>,
    e: String,
)
    ensures
        laws::only_told(
            s,
            s.settled(Request::EditModel { name, models, field }, Reply::Failed(e)),
            ToastKind::Danger,
        ),
{
    laws::lemma_edited(s, Request::EditModel { name, models, field }, e);
    reveal(AppView::edited);
    reveal(AppView::model_edited);
    reveal(AppView::toasted);
}

// ── news in a row ───────────────────────────────────────────────────────────

/// Readings are heard one after the other: what the last one sets off comes after all the others.
pub proof fn bells_are_heard_in_order(s: AppView, rs: Seq<BellReadingView>, r: BellReadingView)
    ensures
        s.bells_heard(rs, 0) == s,
        s.bells_heard(rs.push(r), rs.len() + 1) == s.bells_heard(rs, rs.len()).bell_heard(r),
{
    lemma_bells(s, rs, r, rs.len());
}

proof fn lemma_bells(s: AppView, rs: Seq<BellReadingView>, r: BellReadingView, n: nat)
    requires
        n <= rs.len(),
    ensures
        s.bells_heard(rs.push(r), n) == s.bells_heard(rs, n),
    decreases n,
{
    if n > 0 {
        lemma_bells(s, rs, r, (n - 1) as nat);
    }
}

/// Ends of operations are taken one after the other.
pub proof fn ends_are_taken_in_order(s: AppView, rs: Seq<OpResultView>, r: OpResultView)
    ensures
        s.ops_ended(rs, 0) == s,
        s.ops_ended(rs.push(r), rs.len() + 1) == s.ops_ended(rs, rs.len()).op_ended(r),
{
    lemma_ends(s, rs, r, rs.len());
}

proof fn lemma_ends(s: AppView, rs: Seq<OpResultView>, r: OpResultView, n: nat)
    requires
        n <= rs.len(),
    ensures
        s.ops_ended(rs.push(r), n) == s.ops_ended(rs, n),
    decreases n,
{
    if n > 0 {
        lemma_ends(s, rs, r, (n - 1) as nat);
    }
}

/// The worst impact is that of an incident that is still going on, and none where nothing is.
pub proof fn the_worst_impact_is_someones(s: StatusStateView)
    ensures
        (exists|i: int| 0 <= i < s.incidents.len() && (#[trigger] s.incidents[i]).active()
            && s.incidents[i].impact == s.worst()) || (s.worst() == Impact::Nothing && forall|
            i: int,
        |
            0 <= i < s.incidents.len() ==> !(#[trigger] s.incidents[i]).active()),
{
    lemma_worst(s.incidents, s.incidents.len());
}

proof fn lemma_worst(v: Seq<IncidentView>, n: nat)
    requires
        n <= v.len(),
    ensures
        match feed::worst_of(v, n) {
            Some(w) => exists|i: int|
                0 <= i < n && (#[trigger] v[i]).active() && v[i].impact == w,
            None => forall|i: int| 0 <= i < n ==> !(#[trigger] v[i]).active(),
        },
    decreases n,
{
    if n > 0 {
        lemma_worst(v, (n - 1) as nat);
        if v[n - 1].active() && feed::worst_of(v, n) == Some(v[n - 1].impact) {
            assert(v[n - 1].active() && v[n - 1].impact == feed::worst_of(v, n)->0);
        }
    }
}

// ── dialogs ─────────────────────────────────────────────────────────────────

/// The answer of a confirmation is set by its letter or turned by the arrows, and only then given:
/// until enter or space nothing runs. Escape and `q` close the dialog.
pub proof fn answers_are_set_before_they_are_given(s: AppView, st: ConfirmStateView, c: char)
    requires
        s.modals.len() > 0,
        s.modals.last() == ModalView::Confirm(st),
        c != 'y',
        c != 'n',
        c != 'q',
        c != ' ',
    ensures
        ({
            let below = s.modals.drop_last();
            let with = |yes: bool|
                AppView {
                    modals: below.push(
                        ModalView::Confirm(ConfirmStateView { choice: yes, ..st }),
                    ),
                    ..s
                };
            let closed = AppView { modals: below, ..s };
            &&& s.keyed(laws::pressed(KeyCode::Char('y'))) == with(true)
            &&& s.keyed(laws::pressed(KeyCode::Char('n'))) == with(false)
            &&& s.keyed(laws::pressed(KeyCode::Left)) == with(!st.choice)
            &&& s.keyed(laws::pressed(KeyCode::Right)) == with(!st.choice)
            &&& s.keyed(laws::pressed(KeyCode::Tab)) == with(!st.choice)
            &&& s.keyed(laws::pressed(KeyCode::Char(c))) == with(st.choice)
            &&& s.keyed(laws::pressed(KeyCode::Esc)) == closed
            &&& s.keyed(laws::pressed(KeyCode::Char('q'))) == closed
            &&& s.keyed(laws::pressed(KeyCode::Enter)) == (if st.choice {
                closed.confirm_run(st.on_confirm)
            } else {
                closed
            })
            &&& s.keyed(laws::pressed(KeyCode::Char(' '))) == s.keyed(
                laws::pressed(KeyCode::Enter),
            )
        }),
{
    reveal(AppView::keyed);
    reveal(AppView::modal_keyed);
    reveal(AppView::without_modal);
    reveal(AppView::with_modal);
    reveal(AppView::confirm_keyed);
    reveal(AppView::confirm_answered);
}

/// A letter that no entry has leaves the menu as it is, but for `q`, which closes it.
pub proof fn other_letters_leave_the_menu(s: AppView, st: ActionMenuStateView, c: char)
    requires
        s.modals.len() > 0,
        s.modals.last() == ModalView::ActionMenu(st),
        dialogs::entry_with_key(st.items, dialogs::hotkey_letter(c), 0) is None,
    ensures
        s.keyed(laws::pressed(KeyCode::Char(c))) == (if c == 'q' {
            AppView { modals: s.modals.drop_last(), ..s }
        } else {
            AppView { modals: s.modals.drop_last().push(s.modals.last()), ..s }
        }),
{
    reveal(AppView::keyed);
    reveal(AppView::modal_keyed);
    reveal(AppView::without_modal);
    reveal(AppView::with_modal);
    reveal(AppView::menu_form_keyed);
    reveal(AppView::menu_letter_keyed);
}

/// A letter finds the first entry that has it, and none where no entry has.
pub proof fn letters_find_their_entry(items: Seq<ActionItemView>, c: char, k: nat)
    requires
        k <= items.len(),
    ensures
        match dialogs::entry_with_key(items, c, k) {
            Some(a) => exists|i: int|
                k <= i < items.len() && (#[trigger] items[i]).hotkey == Some(c) && items[i].action
                    == a,
            None => forall|i: int|
                k <= i < items.len() ==> (#[trigger] items[i]).hotkey != Some(c),
        },
    decreases items.len() - k,
{
    if k < items.len() && items[k as int].hotkey != Some(c) {
        letters_find_their_entry(items, c, k + 1);
    }
}

// ── the rows of an account ──────────────────────────────────────────────────

/// A model's own choice has a row where it is set, or where all of them are unfolded; the row that
/// unfolds them is there as long as one is missing. What was typed wins over what is stored, and a
/// login can be dropped where there is one.
pub proof fn choices_have_rows_where_set(d: Option<ConfigDraftView>, p: ProfileView)
    ensures
        ({
            let v = setup::account_rows(d, p);
            let unfolded = d is Some && (d->0).overrides_expanded;
            let set = |typed: Seq<char>, stored: Option<Seq<char>>|
                unfolded || (if d is Some {
                    setup::has_text(typed)
                } else {
                    stored is Some && setup::has_text(stored->0)
                });
            let opus = set((d->0).opus_model.text, p.models.opus);
            let sonnet = set((d->0).sonnet_model.text, p.models.sonnet);
            let haiku = set((d->0).haiku_model.text, p.models.haiku);
            let subagent = set((d->0).subagent_model.text, p.models.subagent);
            &&& v.contains(ConfigRow::OpusModel) <==> opus
            &&& v.contains(ConfigRow::SonnetModel) <==> sonnet
            &&& v.contains(ConfigRow::HaikuModel) <==> haiku
            &&& v.contains(ConfigRow::SubagentModel) <==> subagent
            &&& v.contains(ConfigRow::ModelOverrideAdd) <==> !(opus && sonnet && haiku && subagent)
            &&& v.contains(ConfigRow::DeleteCreds) <==> setup::has_login(p)
            &&& v.contains(ConfigRow::Model) && v.contains(ConfigRow::BaseUrl)
            &&& v.contains(ConfigRow::EnvAdd) && v.contains(ConfigRow::Login)
        }),
{
    reveal(setup::override_set);
    let api = setup::shows_api(d, p);
    let expanded = d matches Some(x) && x.overrides_expanded;
    let opus = expanded || setup::override_set(d, p.models, ConfigRow::OpusModel);
    let sonnet = expanded || setup::override_set(d, p.models, ConfigRow::SonnetModel);
    let haiku = expanded || setup::override_set(d, p.models, ConfigRow::HaikuModel);
    let subagent = expanded || setup::override_set(d, p.models, ConfigRow::SubagentModel);
    let add = !(opus && sonnet && haiku && subagent);
    let r0 = Seq::<ConfigRow>::empty().push(ConfigRow::Name);
    let r1 = setup::override_row(r0, !api, ConfigRow::AutoStart);
    let r2 = r1.push(ConfigRow::BaseUrl);
    let r3 = setup::override_row(r2, api, ConfigRow::ApiKey);
    let r4 = r3.push(ConfigRow::Model);
    let r5 = setup::override_row(r4, opus, ConfigRow::OpusModel);
    let r6 = setup::override_row(r5, sonnet, ConfigRow::SonnetModel);
    let r7 = setup::override_row(r6, haiku, ConfigRow::HaikuModel);
    let r8 = setup::override_row(r7, subagent, ConfigRow::SubagentModel);
    let r9 = setup::override_row(r8, add, ConfigRow::ModelOverrideAdd);
    let r10 = setup::env_rows(r9, p.env.len());
    let r11 = r10.push(ConfigRow::EnvAdd);
    let r12 = r11.push(ConfigRow::Login);
    let r13 = setup::override_row(r12, setup::has_login(p), ConfigRow::DeleteCreds);
    let v = setup::account_rows(d, p);
    assert(v == r13.push(ConfigRow::Delete));
    assert forall|x: ConfigRow| !(x is EnvEntry) implies #[trigger] v.contains(x) == (x
        == ConfigRow::Name || (!api && x == ConfigRow::AutoStart) || x == ConfigRow::BaseUrl || (api
        && x == ConfigRow::ApiKey) || x == ConfigRow::Model || (opus && x == ConfigRow::OpusModel)
        || (sonnet && x == ConfigRow::SonnetModel) || (haiku && x == ConfigRow::HaikuModel) || (
    subagent && x == ConfigRow::SubagentModel) || (add && x == ConfigRow::ModelOverrideAdd) || x
        == ConfigRow::EnvAdd || x == ConfigRow::Login || (setup::has_login(p) && x
        == ConfigRow::DeleteCreds) || x == ConfigRow::Delete) by {
        lemma_pushed(Seq::<ConfigRow>::empty(), ConfigRow::Name, x);
        lemma_pushed(r0, ConfigRow::AutoStart, x);
        lemma_pushed(r1, ConfigRow::BaseUrl, x);
        lemma_pushed(r2, ConfigRow::ApiKey, x);
        lemma_pushed(r3, ConfigRow::Model, x);
        lemma_pushed(r4, ConfigRow::OpusModel, x);
        lemma_pushed(r5, ConfigRow::SonnetModel, x);
        lemma_pushed(r6, ConfigRow::HaikuModel, x);
        lemma_pushed(r7, ConfigRow::SubagentModel, x);
        lemma_pushed(r8, ConfigRow::ModelOverrideAdd, x);
        lemma_env_pushed(r9, p.env.len(), x);
        lemma_pushed(r10, ConfigRow::EnvAdd, x);
        lemma_pushed(r11, ConfigRow::Login, x);
        lemma_pushed(r12, ConfigRow::DeleteCreds, x);
        lemma_pushed(r13, ConfigRow::Delete, x);
    }
}

proof fn lemma_pushed(rows: Seq<ConfigRow>, row: ConfigRow, x: ConfigRow)
    ensures
        rows.push(row).contains(x) <==> rows.contains(x) || row == x,
{
    let v = rows.push(row);
    if rows.contains(x) {
        let k = rows.index_of(x);
        assert(v[k] == x);
    }
    if row == x {
        assert(v[rows.len() as int] == x);
    }
    if v.contains(x) {
        let k = v.index_of(x);
        if k < rows.len() {
            assert(rows[k] == x);
        }
    }
}

proof fn lemma_env_pushed(rows: Seq<ConfigRow>, n: nat, x: ConfigRow)
    requires
        !(x is EnvEntry),
    ensures
        setup::env_rows(rows, n).contains(x) <==> rows.contains(x),
    decreases n,
{
    if n > 0 {
        lemma_env_pushed(rows, (n - 1) as nat, x);
        lemma_pushed(
            setup::env_rows(rows, (n - 1) as nat),
            ConfigRow::EnvEntry((n - 1) as usize),
            x,
        );
    }
}

// ── logins saved elsewhere ──────────────────────────────────────────────────

/// A live login can be saved into every account but the active one, and into nothing else.
pub proof fn targets_are_the_other_accounts(c: AppConfigView, i: int)
    requires
        0 <= i < c.profiles.len(),
    ensures
        c.divergence_targets().contains(c.profiles[i].name) <==> c.state.active_profile != Some(
            c.profiles[i].name,
        ),
        c.divergence_targets().len() <= c.profiles.len(),
        forall|n: Seq<char>| #[trigger]
            c.divergence_targets().contains(n) ==> exists|j: int|
                0 <= j < c.profiles.len() && (#[trigger] c.profiles[j]).name == n,
{
    lemma_targets(c, c.profiles.len());
}

proof fn lemma_targets(c: AppConfigView, n: nat)
    requires
        n <= c.profiles.len(),
    ensures
        session::inactive_names(c, n).len() <= n,
        forall|m: Seq<char>| #[trigger]
            session::inactive_names(c, n).contains(m) <==> c.state.active_profile != Some(m)
                && exists|j: int| 0 <= j < n && (#[trigger] c.profiles[j]).name == m,
    decreases n,
{
    let v = session::inactive_names(c, n);
    if n > 0 {
        lemma_targets(c, (n - 1) as nat);
        let rest = session::inactive_names(c, (n - 1) as nat);
        let last = c.profiles[n - 1].name;
        assert forall|m: Seq<char>| #[trigger] v.contains(m) <==> c.state.active_profile != Some(m)
            && exists|j: int| 0 <= j < n && (#[trigger] c.profiles[j]).name == m by {
            if v.contains(m) {
                let k = v.index_of(m);
                if k < rest.len() {
                    assert(rest[k] == m);
                    assert(rest.contains(m));
                    let j = choose|j: int| 0 <= j < n - 1 && (#[trigger] c.profiles[j]).name == m;
                    assert(c.profiles[j].name == m);
                } else {
                    assert(c.profiles[n - 1].name == m);
                }
            }
            if c.state.active_profile != Some(m) && exists|j: int|
                0 <= j < n && (#[trigger] c.profiles[j]).name == m {
                let j = choose|j: int| 0 <= j < n && (#[trigger] c.profiles[j]).name == m;
                if j < n - 1 {
                    assert(rest.contains(m));
                    let k = rest.index_of(m);
                    assert(v[k] == m);
                } else {
                    assert(v[rest.len() as int] == last);
                }
            }
        }
    }
}

/// An adoption that fails on its way says so and asks for nothing further.
pub proof fn failed_adoptions_are_told(s: AppView, name: String, slot: u64, e: String)
    ensures
        laws::only_told(
            s,
            s.settled(Request::AdoptInto { name, slot }, Reply::Failed(e)),
            ToastKind::Danger,
        ),
        laws::only_told(
            s,
            s.settled(Request::SaveAdopted(name), Reply::Failed(e)),
            ToastKind::Danger,
        ),
{
    reveal(AppView::settled);
    reveal(AppView::concluded);
    reveal(AppView::stored);
    reveal(AppView::adoption_stored);
    reveal(AppView::adoption_saved);
    reveal(AppView::toasted);
}

/// What is put into a field is what the field holds; every other field keeps what it held.
pub proof fn fields_hold_what_is_put_in(
    d: ConfigDraftView,
    row: ConfigRow,
    other: ConfigRow,
    f: InputView,
)
    ensures
        d.field(row) is Some ==> d.with_field(row, f).field(row) == Some(f),
        d.field(row) is None ==> d.with_field(row, f) == d,
        other != row ==> d.with_field(row, f).field(other) == d.field(other),
        d.with_field(row, f).active == d.active,
        d.with_field(row, f).editing_name == d.editing_name,
{
}

} // verus!
