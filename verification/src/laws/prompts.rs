//! What forms, prompts, toasts and hints promise.

use vstd::prelude::*;

use crate::chain;
use crate::footer;
use crate::footer::{HerdrPane, HintSet};
use crate::forms;
use crate::forms::{
    CaptureNameFormView, ConfigDraftView, ConfigFocus, ConfigRow, EnvCollisionFormView,
    EnvKeyCollisionView, FallbackFocus, ModalView, ToastKind, ToastView,
};
use crate::host::HostView;
use crate::key::KeyCode;
use crate::laws;
use crate::laws::members;
use crate::model;
use crate::model::{AppConfigView, ProfileView, Tier};
use crate::plugin::PluginFocus;
use crate::requests::{Reply, Request, RequestView};
use crate::settings;
use crate::setup;
use crate::state;
use crate::state::{AppView, TabMarks};
use crate::tabs::{Tab, TokenView};
use crate::text;

verus! {

// ── the start ───────────────────────────────────────────────────────────────

/// The interface opens on the overview with nothing asked for, nothing said and no dialog; the
/// accounts and settings are the ones it was given, and the interval is theirs.
pub proof fn interfaces_open_on_the_overview(
    host: HostView,
    config: AppConfigView,
    tier: Tier,
    now_ms: u64,
)
    ensures
        ({
            let s = AppView::initial(host, config, tier, now_ms);
            &&& s.ui.tab == Tab::Overview
            &&& s.config == config
            &&& s.host == host
            &&& s.ui.tier == tier
            &&& s.ui.now_ms == now_ms
            &&& s.ui.refresh_interval == config.state.refresh_interval_ms
            &&& s.requests.len() == 0
            &&& s.modals.len() == 0
            &&& s.toasts.len() == 0
            &&& s.login is None
            &&& s.config_draft is None
            &&& !s.ui.exit.quit && !s.ui.exit.armed
            &&& !s.ui.startup.bootstrap_started && !s.ui.startup.reconcile_done
            &&& !s.sub_focus()
        }),
{
}

// ── rows of the form ────────────────────────────────────────────────────────

/// The form of a new account asks for a key only beside an endpoint and offers a login only
/// without one; it ends with the row that creates the account.
pub proof fn new_forms_ask_for_what_is_needed(api: bool)
    ensures
        ({
            let v = setup::new_form_rows(api);
            &&& v[0] == ConfigRow::Name
            &&& v[1] == ConfigRow::BaseUrl
            &&& v.last() == ConfigRow::Create
            &&& v.contains(ConfigRow::ApiKey) <==> api
            &&& v.contains(ConfigRow::Login) <==> !api
            &&& v.contains(ConfigRow::Model)
            &&& !v.contains(ConfigRow::Delete)
        }),
{
    let v = setup::new_form_rows(api);
    if api {
        assert(v[2] == ConfigRow::ApiKey);
        assert(v[3] == ConfigRow::Model);
    } else {
        assert(v[2] == ConfigRow::Model);
        assert(v[3] == ConfigRow::Login);
    }
}

/// An account whose login is stored can be logged out, and no other: the rows end with logging in,
/// then logging out where there is a login, then deleting.
pub proof fn stored_logins_can_be_dropped(d: Option<ConfigDraftView>, p: ProfileView)
    ensures
        ({
            let v = setup::account_rows(d, p);
            let n = v.len() as int;
            let stored = if p.facts.login_is_oauth {
                p.facts.has_credentials
            } else {
                p.api_key is Some && text::trim(p.api_key->0).len() > 0
            };
            &&& n >= 4
            &&& v[n - 1] == ConfigRow::Delete
            &&& stored ==> v[n - 2] == ConfigRow::DeleteCreds && v[n - 3] == ConfigRow::Login
                && v[n - 4] == ConfigRow::EnvAdd
            &&& !stored ==> v[n - 2] == ConfigRow::Login && v[n - 3] == ConfigRow::EnvAdd
        }),
{
}

/// In the form enter runs the row under the cursor; space does too, but takes the next alias on
/// the model row. Up and down move by one row and disarm the deletion.
pub proof fn form_keys_run_the_row_under_the_cursor(s: AppView, d: ConfigDraftView)
    requires
        s.modals.len() == 0,
        s.ui.tab == Tab::Setup,
        s.ui.config_focus == ConfigFocus::Actions,
        s.config_draft == Some(d),
        d.active is None,
        s.ui.profile_cursor <= s.config.profiles.len() <= usize::MAX,
        s.ui.config_action_cursor < s.config_rows().len() <= usize::MAX,
    ensures
        ({
            let c = members::calmed(s);
            let rows = s.config_rows();
            let cur = s.ui.config_action_cursor as int;
            let row = rows[cur];
            let up = s.keyed(laws::pressed(KeyCode::Up));
            let down = s.keyed(laws::pressed(KeyCode::Down));
            &&& s.keyed(laws::pressed(KeyCode::Enter)) == c.config_row_run(row)
            &&& row != ConfigRow::Model ==> s.keyed(laws::pressed(KeyCode::Char(' ')))
                == c.config_row_run(row)
            &&& row == ConfigRow::Model ==> s.keyed(laws::pressed(KeyCode::Char(' ')))
                == c.model_cycled()
            &&& up.ui.config_action_cursor == (if cur == 0 {
                rows.len() - 1
            } else {
                cur - 1
            })
            &&& down.ui.config_action_cursor == (if cur + 1 == rows.len() {
                0
            } else {
                cur + 1
            })
            &&& up.config_draft is Some && !up.config_draft->0.armed_delete
            &&& down.config_draft is Some && !down.config_draft->0.armed_delete
            &&& up.requests == s.requests && down.requests == s.requests
        }),
{
    let c = members::calmed(s);
    assert(s.keyed(laws::pressed(KeyCode::Enter)) == c.config_keyed(laws::pressed(KeyCode::Enter)))
        by {
        lemma_form_key(s, KeyCode::Enter);
    }
    assert(s.keyed(laws::pressed(KeyCode::Up)) == c.config_keyed(laws::pressed(KeyCode::Up))) by {
        lemma_form_key(s, KeyCode::Up);
    }
    assert(s.keyed(laws::pressed(KeyCode::Down)) == c.config_keyed(laws::pressed(KeyCode::Down)))
        by {
        lemma_form_key(s, KeyCode::Down);
    }
    assert(s.keyed(laws::pressed(KeyCode::Char(' '))) == c.config_keyed(
        laws::pressed(KeyCode::Char(' ')),
    )) by {
        lemma_form_key(s, KeyCode::Char(' '));
    }
    assert(c.config_rows() == s.config_rows()) by {
        reveal(AppView::config_rows);
    }
    reveal(AppView::config_keyed);
    reveal(AppView::setup_rows_keyed);
    reveal(AppView::current_row_run);
    reveal(AppView::current_row_spaced);
    reveal(AppView::current_row);
    reveal(AppView::delete_armed);
    reveal(AppView::drafting);
    reveal(AppView::on);
    reveal(settings::row_clamped);
    reveal(settings::step_up);
    reveal(settings::step_down);
}

proof fn lemma_form_key(s: AppView, code: KeyCode)
    requires
        s.modals.len() == 0,
        s.ui.tab == Tab::Setup,
        s.ui.config_focus == ConfigFocus::Actions,
        s.config_draft is Some,
        s.config_draft->0.active is None,
        code == KeyCode::Enter || code == KeyCode::Up || code == KeyCode::Down || code
            == KeyCode::Char(' '),
    ensures
        s.keyed(laws::pressed(code)) == members::calmed(s).config_keyed(laws::pressed(code)),
{
    reveal(AppView::keyed);
    reveal(AppView::global_keyed);
    reveal(AppView::char_keyed);
    reveal(AppView::disarmed);
    reveal(AppView::tab_keyed);
}

/// Opening a text row makes it the one that takes the keys, its text kept and the caret behind it;
/// nothing is stored.
pub proof fn text_rows_open_as_they_are(s: AppView, d: ConfigDraftView, row: ConfigRow)
    requires
        s.config_draft == Some(d),
        row == ConfigRow::Name || row == ConfigRow::BaseUrl || row == ConfigRow::ApiKey || row
            == ConfigRow::Model || row == ConfigRow::OpusModel || row == ConfigRow::SonnetModel
            || row == ConfigRow::HaikuModel || row == ConfigRow::SubagentModel,
    ensures
        ({
            let t = s.config_row_run(row);
            let f = t.config_draft->0.field(row)->0;
            &&& t == AppView { config_draft: t.config_draft, ..s }
            &&& t.config_draft is Some
            &&& t.config_draft->0.active == Some(row)
            &&& f.text == d.field(row)->0.text
            &&& f.caret == f.text.len()
        }),
{
    reveal(AppView::config_row_run);
    reveal(AppView::editor_opened);
    reveal(AppView::drafting);
}

// ── prompts ─────────────────────────────────────────────────────────────────

/// The prompt for an environment key that stands elsewhere opens on calling it off.
pub proof fn collisions_open_on_calling_it_off(
    name: Seq<char>,
    key: Seq<char>,
    c: EnvKeyCollisionView,
    host: HostView,
)
    ensures
        ({
            let f = forms::collision_form(name, key, c, host);
            &&& f.profile == name
            &&& f.key == key
            &&& f.cursor == 2
            &&& f.existing_idx == (if c is ProfileField {
                Some(c->ProfileField_0)
            } else {
                None
            })
        }),
{
}

/// Of its rows the first adds the key all the same, the second goes to the entry that has it, and
/// the third does nothing; only the first stores anything.
pub proof fn collisions_store_on_overwrite_only(s: AppView, f: EnvCollisionFormView, i: int)
    requires
        s.modals.len() > 0,
        s.modals.last() == ModalView::EnvCollision(f),
        laws::first_named(s.config, f.profile, i),
        forall|j: int|
            0 <= j < s.config.profiles[i].env.len() ==> (#[trigger] s.config.profiles[i].env[j]).key
                != f.key,
    ensures
        ({
            let u = AppView { modals: s.modals.drop_last(), ..s };
            let t = s.keyed(laws::pressed(KeyCode::Enter));
            &&& s.keyed(laws::pressed(KeyCode::Char(' '))) == t
            &&& t.config == s.config
            &&& t.modals == u.modals
            &&& f.cursor == 0 ==> t == AppView {
                requests: s.requests.push(
                    RequestView::EnvAddKey {
                        name: f.profile,
                        env: model::env_put(s.config.profiles[i].env, f.key, ""@),
                        key: f.key,
                    },
                ),
                ..u
            }
            &&& f.cursor == 1 ==> t.requests == s.requests
            &&& f.cursor >= 2 ==> t == u
        }),
{
    laws::lemma_found(s.config, f.profile, i);
    let env = s.config.profiles[i].env;
    let keys = model::env_keys(env);
    text::lemma_position(keys, f.key);
    if text::position(keys, f.key) is Some {
        let j = text::position(keys, f.key)->0;
        assert(keys[j] == env[j].key);
    }
    reveal(AppView::keyed);
    reveal(AppView::modal_keyed);
    reveal(AppView::without_modal);
    reveal(AppView::collision_form_keyed);
    reveal(AppView::collision_picked);
    reveal(AppView::collision_resolved);
    reveal(AppView::env_key_added);
    reveal(AppView::cursor_on);
    reveal(AppView::asked);
    reveal(AppView::on);
    reveal(settings::row_clamped);
}

/// The prompt for a captured login's name stays open while the name is looked at, and keeps what is
/// typed; escape drops the login and stores nothing.
pub proof fn capture_prompts_look_the_name_up(s: AppView, f: CaptureNameFormView, c: char)
    requires
        s.modals.len() > 0,
        s.modals.last() == ModalView::CaptureName(f),
        c != 'q',
    ensures
        ({
            let u = AppView { modals: s.modals.drop_last(), ..s };
            let enter = s.keyed(laws::pressed(KeyCode::Enter));
            let typed = s.keyed(laws::pressed(KeyCode::Char(c)));
            &&& enter == AppView {
                requests: s.requests.push(RequestView::CheckCaptureName(f.input.trimmed())),
                ..s
            }
            &&& s.keyed(laws::pressed(KeyCode::Esc)) == u
            &&& typed == AppView { modals: typed.modals, ..s }
            &&& typed.modals.drop_last() == u.modals
            &&& typed.modals.last() == ModalView::CaptureName(
                CaptureNameFormView { input: f.input.inserted(c), ..f },
            )
        }),
{
    reveal(AppView::keyed);
    reveal(AppView::modal_keyed);
    reveal(AppView::without_modal);
    reveal(AppView::with_modal);
    reveal(AppView::capture_form_keyed);
    reveal(AppView::asked);
    let enter = s.keyed(laws::pressed(KeyCode::Enter));
    assert(enter.modals =~= s.modals);
    let typed = s.keyed(laws::pressed(KeyCode::Char(c)));
    assert(typed.modals.drop_last() =~= s.modals.drop_last());
}

/// The login dialog can be closed without ending the login; `r` opens its page again where there is
/// one, and keeps the dialog.
pub proof fn login_dialogs_can_be_closed(s: AppView)
    requires
        s.modals.len() > 0,
        s.modals.last() is Login,
    ensures
        ({
            let u = AppView { modals: s.modals.drop_last(), ..s };
            let again = s.keyed(laws::pressed(KeyCode::Char('r')));
            let url = if s.login is Some {
                s.login->0.url
            } else {
                None
            };
            &&& s.keyed(laws::pressed(KeyCode::Esc)) == u
            &&& s.keyed(laws::pressed(KeyCode::Enter)) == u
            &&& again.modals == s.modals
            &&& again.login == s.login
            &&& url is Some ==> again.requests == s.requests.push(RequestView::OpenLogin(url->0))
            &&& url is None ==> again.requests == s.requests
        }),
{
    reveal(AppView::keyed);
    reveal(AppView::modal_keyed);
    reveal(AppView::without_modal);
    reveal(AppView::with_modal);
    reveal(AppView::login_form_keyed);
    reveal(AppView::asked);
    let again = s.keyed(laws::pressed(KeyCode::Char('r')));
    assert(again.modals =~= s.modals);
}

/// An answer that was not given sets off nothing.
pub proof fn missing_answers_set_off_nothing(s: AppView, r: Request)
    ensures
        s.settled(r, Reply::Invalid) == s,
{
    reveal(AppView::settled);
}

// ── toasts and marks ────────────────────────────────────────────────────────

/// A toast is shown for three seconds and an error for six; at its time it is gone.
pub proof fn errors_stay_longer(t: ToastView, now: u64)
    requires
        t.born <= now,
    ensures
        t.kind == ToastKind::Danger ==> (state::toast_expired(t, now) <==> now - t.born >= 6000),
        t.kind != ToastKind::Danger ==> (state::toast_expired(t, now) <==> now - t.born >= 3000),
{
}

/// A new toast comes last and the others keep their order; with three shown the oldest gives way.
pub proof fn toasts_give_way_in_order(q: Seq<ToastView>, t: ToastView)
    ensures
        q.len() < 3 ==> state::toast_added(q, t) == q.push(t),
        q.len() >= 3 ==> state::toast_added(q, t) == q.skip(1).push(t),
{
    if q.len() > 0 {
        assert(q.drop_first() =~= q.skip(1));
    }
}

/// A mark is the one of its own tab.
pub proof fn marks_belong_to_their_tab(m: TabMarks, tab: Tab, kind: Option<ToastKind>, other: Tab)
    ensures
        m.with(tab, kind).at(tab) == kind,
        other != tab ==> m.with(tab, kind).at(other) == m.at(other),
        TabMarks::clear().at(tab) is None,
{
}

// ── hints ───────────────────────────────────────────────────────────────────

/// The footer hints a fix exactly where the check under the cursor has one.
pub proof fn fixes_are_hinted_in_the_list(s: AppView, pane: HerdrPane)
    requires
        s.ui.tab == Tab::Plugin,
        s.plugin.focus == PluginFocus::List,
        s.plugin.cursor < s.plugin.checks.len(),
    ensures
        ({
            let set = s.hint_set(pane);
            let v = set.listed();
            let fix = s.plugin.checks[s.plugin.cursor as int].fix;
            &&& set == (if fix is Some {
                HintSet::PluginListFix
            } else {
                HintSet::PluginList
            })
            &&& fix is Some ==> v[3] == footer::hint("f"@, "fix"@)
            &&& fix is None ==> v.len() == 4
        }),
{
}

/// The footer follows the focus: lists hint at opening, panes at what they do, and an open field at
/// saving and at calling it off.
pub proof fn hints_follow_the_focus(s: AppView, pane: HerdrPane)
    ensures
        ({
            let v = s.hint_set(pane).listed();
            let typed = s.refresh_interval_draft is Some || s.weekly_threshold_draft is Some;
            &&& s.ui.tab == Tab::Config && typed ==> v[0] == footer::hint("↵"@, "save"@) && v[2]
                == footer::hint("esc"@, "cancel"@)
            &&& s.ui.tab == Tab::Config && !typed && (s.ui.global_config_cursor == 2
                || s.ui.global_config_cursor == 4) ==> v[2] == footer::hint("↵"@, "custom"@)
            &&& s.ui.tab == Tab::Config && !typed && s.ui.global_config_cursor < 7
                && s.ui.global_config_cursor != 2 && s.ui.global_config_cursor != 4 ==> v[1]
                == footer::hint("space/↵"@, "cycle / toggle"@)
            &&& s.ui.tab == Tab::Tokens && s.ui.tokens.view == TokenView::Dashboard ==> v[0]
                == footer::hint("↵"@, "models"@)
            &&& s.ui.tab == Tab::Tokens && s.ui.tokens.view == TokenView::Models ==> v[0]
                == footer::hint("↑↓"@, "model"@)
            &&& s.ui.tab == Tab::Setup && s.ui.config_focus == ConfigFocus::Profiles ==> v[1]
                == footer::hint("↵"@, "configure"@)
        }),
{
}

/// On the Fallback tab the footer hints at what enter does to the row under the cursor, and an
/// armed removal at confirming it.
pub proof fn chain_hints_say_what_enter_does(s: AppView, pane: HerdrPane)
    requires
        s.ui.tab == Tab::Fallback,
        s.config.chain_rows() > 0,
    ensures
        ({
            let v = s.hint_set(pane).listed();
            let member = s.ui.chain_cursor < s.config.state.fallback_chain.len();
            let list = s.ui.fallback_focus == FallbackFocus::Chain;
            let row = s.ui.fallback_detail_cursor;
            let idle = !list && member && s.fallback_threshold_draft is None;
            &&& list && member ==> v[2] == footer::hint("↵"@, "open"@)
            &&& list && !member ==> v[1] == footer::hint("↵"@, "add"@)
            &&& !list && !member ==> v[0] == footer::hint("↑↓"@, "pick"@)
            &&& !list && member && s.fallback_threshold_draft is Some ==> v[0] == footer::hint(
                "↵"@,
                "save"@,
            )
            &&& idle && row == 0 ==> v[1] == footer::hint("+"@, "raise"@)
            &&& idle && row == 1 ==> v[1] == footer::hint("space/↵"@, "toggle"@)
            &&& idle && row == 2 && !s.ui.fallback_armed_remove ==> v[1] == footer::hint(
                "↵"@,
                "remove"@,
            )
            &&& idle && row == 2 && s.ui.fallback_armed_remove ==> v[0] == footer::hint(
                "↵"@,
                "confirm remove"@,
            )
        }),
{
    reveal(settings::row_clamped);
    reveal(chain::fallback_row_at);
}

} // verus!
