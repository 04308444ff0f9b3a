//! What environment entries, model choices, cursors and marks of last resort promise once they
//! are stored.

use vstd::prelude::*;

use crate::chain;
use crate::dialogs;
use crate::forms::{ConfigDraftView, ConfigFocus, ConfigRow, FallbackFocus, ModalView, ToastKind};
use crate::input::InputView;
use crate::key::KeyCode;
use crate::laws;
use crate::laws::keys;
use crate::laws::members;
use crate::menu;
use crate::menu::{ActionMenuAction, ActionMenuStateView};
use crate::model;
use crate::model::{EnvVar, ModelSettings, ProfileView};
use crate::requests::{AutoSwitchView, Reply, Request, RequestView};
use crate::settings;
use crate::state::AppView;
use crate::tabs::Tab;
use crate::text;

verus! {

/// Opening an environment entry opens its value as it is stored; opening the row that adds one
/// opens an empty key. Neither stores anything.
pub proof fn env_rows_open_their_value(s: AppView, d: ConfigDraftView, k: usize, i: int)
    requires
        s.config_draft == Some(d),
        d.editing_name is Some,
        laws::first_named(s.config, d.editing_name->0, i),
        k < s.config.profiles[i].env.len(),
    ensures
        s.config_row_run(ConfigRow::EnvEntry(k)) == (AppView {
            config_draft: Some(
                ConfigDraftView {
                    env_value: InputView::of(s.config.profiles[i].env[k as int].value),
                    active: Some(ConfigRow::EnvEntry(k)),
                    ..d
                },
            ),
            ..s
        }),
        s.config_row_run(ConfigRow::EnvAdd) == (AppView {
            config_draft: Some(
                ConfigDraftView {
                    env_new_key: InputView::of(""@),
                    active: Some(ConfigRow::EnvAdd),
                    ..d
                },
            ),
            ..s
        }),
{
    laws::lemma_found(s.config, d.editing_name->0, i);
    reveal(AppView::config_row_run);
    reveal(AppView::env_value_opened);
    reveal(AppView::env_add_opened);
    reveal(AppView::drafting);
}

/// A stored value closes its field and shows as it was stored; one that could not be stored keeps
/// the field open and is said.
pub proof fn stored_env_values_close_their_field(
    s: AppView,
    d: ConfigDraftView,
    name: String,
    env: Vec<EnvVar>,
    index: usize,
    i: int,
    e: String,
)
    requires
        s.config_draft == Some(d),
        laws::first_named(s.config, name@, i),
        index < s.config.profiles[i].env.len(),
    ensures
        ({
            let r = Request::EnvSetValue { name, env, index };
            &&& s.settled(r, Reply::Done) == AppView {
                config_draft: Some(
                    ConfigDraftView {
                        env_value: InputView::of(s.config.profiles[i].env[index as int].value),
                        active: None,
                        ..d
                    },
                ),
                ..s
            }
            &&& laws::only_told(s, s.settled(r, Reply::Failed(e)), ToastKind::Danger)
        }),
{
    laws::lemma_edited(s, Request::EnvSetValue { name, env, index }, e);
    laws::lemma_found(s.config, name@, i);
    reveal(AppView::edited);
    reveal(AppView::env_value_saved);
    reveal(AppView::drafting);
    reveal(AppView::toasted);
}

/// A key that was added has its value opened next; one that could not be added only says so.
pub proof fn added_env_keys_open_their_value(
    s: AppView,
    d: ConfigDraftView,
    env: Vec<EnvVar>,
    key: String,
    name: String,
    i: int,
    k: int,
    e: String,
)
    requires
        s.config_draft == Some(d),
        d.editing_name == Some(name@),
        laws::first_named(s.config, name@, i),
        0 <= k < s.config.profiles[i].env.len() <= usize::MAX,
        s.config.profiles[i].env[k].key == key@,
        forall|j: int|
            0 <= j < k ==> (#[trigger] s.config.profiles[i].env[j]).key != key@,
    ensures
        ({
            let r = Request::EnvAddKey { name, env, key };
            let t = s.settled(r, Reply::Done);
            &&& t.config_draft is Some
            &&& t.config_draft->0.active == Some(ConfigRow::EnvEntry(k as usize))
            &&& t.config_draft->0.env_value.text == s.config.profiles[i].env[k].value
            &&& t.requests == s.requests
            &&& t.config == s.config
            &&& laws::only_told(s, s.settled(r, Reply::Failed(e)), ToastKind::Danger)
        }),
{
    laws::lemma_edited(s, Request::EnvAddKey { name, env, key }, e);
    laws::lemma_found(s.config, name@, i);
    let stored = s.config.profiles[i].env;
    let keys = model::env_keys(stored);
    assert forall|j: int| 0 <= j < k implies keys[j] != key@ by {
        assert(keys[j] == stored[j].key);
    }
    assert(keys[k] == stored[k].key);
    text::lemma_position_is(keys, key@, k);
    reveal(AppView::edited);
    reveal(AppView::env_key_saved);
    reveal(AppView::env_focused);
    reveal(AppView::cursor_on);
    reveal(AppView::env_value_opened);
    reveal(AppView::drafting);
    reveal(AppView::on);
    reveal(AppView::toasted);
}

/// A removed entry closes the form's field and leaves the cursor on a row; one that could not be
/// removed only says so.
pub proof fn removed_env_entries_leave_the_cursor_on_a_row(
    s: AppView,
    name: String,
    env: Vec<EnvVar>,
    key: String,
    e: String,
)
    ensures
        ({
            let r = Request::EnvRemove { name, env, key };
            let t = s.settled(r, Reply::Done);
            let rows = s.draft_idle().config_rows().len();
            &&& 0 < rows <= usize::MAX ==> t.ui.config_action_cursor < rows
            &&& s.ui.config_action_cursor < rows <= usize::MAX ==> t.ui.config_action_cursor
                == s.ui.config_action_cursor
            &&& t.requests == s.requests
            &&& t.config == s.config
            &&& t.config_draft is Some ==> t.config_draft->0.active is None
            &&& laws::told(t, ToastKind::Success)
            &&& laws::only_told(s, s.settled(r, Reply::Failed(e)), ToastKind::Danger)
        }),
{
    laws::lemma_edited(s, Request::EnvRemove { name, env, key }, e);
    reveal(AppView::edited);
    reveal(AppView::env_removal_saved);
    reveal(AppView::on);
    reveal(AppView::toasted);
    reveal(settings::row_clamped);
    let u = s.draft_idle();
    assert(u == AppView { config_draft: u.config_draft, ..s } && (u.config_draft is Some
        ==> u.config_draft->0.active is None)) by {
        reveal(AppView::draft_idle);
        reveal(AppView::drafting);
    }
}

/// A stored model choice shows in its own field as it was stored, and the field closes; the other
/// fields keep what they hold. A choice that was cycled shows in the model field.
pub proof fn stored_models_show_in_their_field(
    s: AppView,
    d: ConfigDraftView,
    name: String,
    models: ModelSettings,
    i: int,
    e: String,
)
    requires
        s.config_draft == Some(d),
        laws::first_named(s.config, name@, i),
    ensures
        ({
            let done = |field: Option<ConfigRow>|
                s.settled(Request::EditModel { name, models, field }, Reply::Done).config_draft->0;
            let m = s.config.profiles[i].models;
            let opus = done(Some(ConfigRow::OpusModel));
            let haiku = done(Some(ConfigRow::HaikuModel));
            let cycled = done(None);
            &&& opus.active is None
            &&& m.opus is Some ==> opus.opus_model.text == m.opus->0
            &&& opus.sonnet_model == d.sonnet_model && opus.model == d.model
            &&& m.sonnet is Some ==> done(Some(ConfigRow::SonnetModel)).sonnet_model.text
                == m.sonnet->0
            &&& m.haiku is Some ==> haiku.haiku_model.text == m.haiku->0
            &&& haiku.opus_model == d.opus_model
            &&& m.subagent is Some ==> done(Some(ConfigRow::SubagentModel)).subagent_model.text
                == m.subagent->0
            &&& m.default is Some ==> done(Some(ConfigRow::Model)).model.text == m.default->0
            &&& m.default is Some ==> cycled.model.text == m.default->0
            &&& cycled.active == d.active && cycled.opus_model == d.opus_model
        }),
{
    laws::lemma_found(s.config, name@, i);
    laws::lemma_edited(
        s,
        Request::EditModel { name, models, field: Some(ConfigRow::OpusModel) },
        e,
    );
    laws::lemma_edited(
        s,
        Request::EditModel { name, models, field: Some(ConfigRow::SonnetModel) },
        e,
    );
    laws::lemma_edited(
        s,
        Request::EditModel { name, models, field: Some(ConfigRow::HaikuModel) },
        e,
    );
    laws::lemma_edited(
        s,
        Request::EditModel { name, models, field: Some(ConfigRow::SubagentModel) },
        e,
    );
    laws::lemma_edited(s, Request::EditModel { name, models, field: Some(ConfigRow::Model) }, e);
    laws::lemma_edited(s, Request::EditModel { name, models, field: None }, e);
    reveal(AppView::edited);
    reveal(AppView::model_edited);
    reveal(AppView::drafting);
}

/// The row that reveals the model overrides shows them all, and stores nothing.
pub proof fn overrides_can_be_revealed(s: AppView, d: ConfigDraftView)
    requires
        s.config_draft == Some(d),
    ensures
        s.config_row_run(ConfigRow::ModelOverrideAdd) == (AppView {
            config_draft: Some(ConfigDraftView { overrides_expanded: true, ..d }),
            ..s
        }),
{
    reveal(AppView::config_row_run);
    reveal(AppView::overrides_revealed);
    reveal(AppView::drafting);
}

/// Auto-start that was stored stands, and has the tokens read again; a failure takes it back for
/// that account alone.
pub proof fn auto_start_stands_once_stored(s: AppView, name: String, on: bool, i: int, e: String)
    requires
        laws::first_named(s.config, name@, i),
    ensures
        ({
            let r = Request::SaveAutoStart { name, on };
            let f = s.settled(r, Reply::Failed(e));
            &&& s.settled(r, Reply::Done) == AppView {
                requests: s.requests.push(RequestView::RefreshTokens),
                ..s
            }
            &&& f.config.profiles == s.config.profiles.update(
                i,
                ProfileView { auto_start: !on, ..s.config.profiles[i] },
            )
            &&& f.config.state == s.config.state
            &&& f.requests == s.requests
            &&& laws::told(f, ToastKind::Danger)
        }),
{
    laws::lemma_edited(s, Request::SaveAutoStart { name, on }, e);
    laws::lemma_found(s.config, name@, i);
    reveal(AppView::edited);
    reveal(AppView::auto_start_saved);
    reveal(AppView::asked);
    reveal(AppView::toasted);
}

/// In the account list of the Setup tab up and down move by one entry, the one for a new account
/// after the last, and wrap; enter opens the form of the entry under the cursor.
pub proof fn setup_list_keys_move_by_one(s: AppView)
    requires
        keys::at_large(s),
        s.ui.tab == Tab::Setup,
        s.ui.config_focus == ConfigFocus::Profiles,
        s.ui.profile_cursor <= s.config.profiles.len() < usize::MAX,
    ensures
        ({
            let cur = s.ui.profile_cursor as int;
            let n = s.config.profiles.len() as int;
            let up = s.keyed(laws::pressed(KeyCode::Up));
            let down = s.keyed(laws::pressed(KeyCode::Down));
            &&& up.ui.profile_cursor == (if cur == 0 {
                n
            } else {
                cur - 1
            })
            &&& down.ui.profile_cursor == (if cur == n {
                0
            } else {
                cur + 1
            })
            &&& up.config == s.config && down.config == s.config
            &&& up.requests == s.requests && down.requests == s.requests
            &&& s.keyed(laws::pressed(KeyCode::Enter)) == members::calmed(s).config_entered()
        }),
{
    reveal(AppView::keyed);
    reveal(AppView::global_keyed);
    reveal(AppView::disarmed);
    reveal(AppView::tab_keyed);
    reveal(AppView::config_keyed);
    reveal(AppView::setup_list_keyed);
    reveal(AppView::profile_stepped);
    reveal(AppView::on);
    reveal(settings::row_clamped);
    keys::lists_step_by_one(s.ui.profile_cursor, (s.config.profiles.len() + 1) as usize);
}

/// The Fallback tab opens on the member that is the account under the cursor, and on the first one
/// where that account is no member; its list takes the keys.
pub proof fn the_chain_opens_on_the_selected_account(s: AppView, k: int)
    requires
        s.ui.profile_cursor < s.config.profiles.len() <= usize::MAX,
        s.config.state.fallback_chain.len() <= usize::MAX,
    ensures
        ({
            let t = s.tab_switched(Tab::Fallback);
            let chain = s.config.state.fallback_chain;
            let name = s.config.profiles[s.ui.profile_cursor as int].name;
            let first = 0 <= k < chain.len() && chain[k] == name && forall|j: int|
                0 <= j < k ==> (#[trigger] chain[j]) != name;
            &&& t.ui.fallback_focus == FallbackFocus::Chain
            &&& !t.ui.fallback_armed_remove
            &&& t.fallback_threshold_draft is None
            &&& first ==> t.ui.chain_cursor == k
            &&& !chain.contains(name) ==> t.ui.chain_cursor == 0
        }),
{
    reveal(AppView::tab_switched);
    reveal(AppView::on);
    reveal(AppView::drafting);
    reveal(AppView::profile_clamped);
    reveal(AppView::fallback_tab_shown);
    reveal(AppView::chain_row_of_profile);
    reveal(AppView::profile_synced);
    let chain = s.config.state.fallback_chain;
    let name = s.config.profiles[s.ui.profile_cursor as int].name;
    text::lemma_position(chain, name);
    if 0 <= k < chain.len() && chain[k] == name && forall|j: int|
        0 <= j < k ==> (#[trigger] chain[j]) != name {
        text::lemma_position_is(chain, name, k);
    }
}

/// Once the other marks were taken, the accounts that could not be stored have theirs back, the
/// tokens are read again, and the move is said where one was taken.
pub proof fn taken_marks_are_told(s: AppView, names: Vec<String>, saved: Vec<bool>)
    requires
        saved@.len() == names@.len(),
    ensures
        ({
            let t = s.settled(Request::SaveCleared(names), Reply::Saved(saved));
            let any = exists|i: int| 0 <= i < saved@.len() && #[trigger] saved@[i];
            &&& t.requests == s.requests.push(RequestView::RefreshTokens)
            &&& t.config.state == s.config.state
            &&& any ==> laws::told(t, ToastKind::Info)
            &&& !any ==> t.toasts == s.toasts
        }),
{
    reveal(AppView::settled);
    reveal(AppView::others_cleared);
    reveal(AppView::asked);
    reveal(AppView::toasted);
    let v = text::views(names@);
    lemma_first_saved(v, saved@, v.len());
    lemma_remarked(s.config, v, saved@, v.len());
}

proof fn lemma_first_saved(names: Seq<Seq<char>>, saved: Seq<bool>, n: nat)
    requires
        n <= names.len(),
        saved.len() == names.len(),
    ensures
        chain::first_saved(names, saved, n) is Some <==> exists|i: int|
            0 <= i < n && #[trigger] saved[i],
    decreases n,
{
    if n > 0 {
        lemma_first_saved(names, saved, (n - 1) as nat);
        if exists|i: int| 0 <= i < n && #[trigger] saved[i] {
            let i = choose|i: int| 0 <= i < n && #[trigger] saved[i];
            if i < n - 1 {
                assert(saved[i]);
            }
        }
        if chain::first_saved(names, saved, n) is Some {
            if chain::first_saved(names, saved, (n - 1) as nat) is Some {
                let i = choose|i: int| 0 <= i < n - 1 && #[trigger] saved[i];
                assert(saved[i]);
            } else {
                assert(saved[n - 1]);
            }
        }
    }
}

proof fn lemma_remarked(
    c: model::AppConfigView,
    names: Seq<Seq<char>>,
    saved: Seq<bool>,
    n: nat,
)
    ensures
        c.remarked(names, saved, n).state == c.state,
    decreases n,
{
    if n > 0 {
        lemma_remarked(c, names, saved, (n - 1) as nat);
    }
}

/// The look at the live login waits a second after the last, and for dialogs to close; it reads the
/// link of the active account, and forgets an old note where none is active.
pub proof fn looks_wait_their_turn(s: AppView)
    requires
        s.ui.last_divergence_check <= s.ui.now_ms,
    ensures
        ({
            let t = s.divergence_polled();
            let due = s.ui.now_ms - s.ui.last_divergence_check >= 1000;
            &&& !due ==> t == s
            &&& due ==> t.ui.last_divergence_check == s.ui.now_ms
            &&& due && s.modals.len() > 0 ==> t.requests == s.requests
            &&& due && s.modals.len() == 0 && s.config.state.active_profile is Some ==> t.requests
                == s.requests.push(RequestView::ReadLink(s.config.state.active_profile->0))
            &&& due && s.modals.len() == 0 && s.config.state.active_profile is None ==> t.requests
                == s.requests && t.divergence_pending is None
        }),
{
    reveal(AppView::divergence_polled);
    reveal(AppView::noticing);
    reveal(AppView::asked);
    reveal(AppView::on);
}

/// A switch that the start made is warned of; where it switched everything off the tokens are read
/// again. None made, none said.
pub proof fn startup_switches_are_told(s: AppView, target: Seq<char>)
    ensures
        laws::only_told(
            s,
            s.startup_switched(Some(AutoSwitchView::To(target))),
            ToastKind::Warning,
        ),
        s.startup_switched(Some(AutoSwitchView::Off)).requests == s.requests.push(
            RequestView::RefreshTokens,
        ),
        laws::told(s.startup_switched(Some(AutoSwitchView::Off)), ToastKind::Warning),
        s.startup_switched(None) == s,
{
    reveal(AppView::startup_switched);
    reveal(AppView::asked);
    reveal(AppView::toasted);
}

/// In the menu a shown hotkey closes the menu and runs its own entry.
pub proof fn menu_letters_run_their_entry(
    s: AppView,
    actions: Seq<ActionMenuAction>,
    i: int,
)
    requires
        0 <= i < actions.len(),
        menu::menu_key(s.host, actions, i) is Some,
        s.modals.len() > 0,
        s.modals.last() == ModalView::ActionMenu(ActionMenuStateView::over(s.host, actions)),
        ({
            let c = menu::menu_key(s.host, actions, i)->0;
            dialogs::hotkey_letter(c) == c
        }),
    ensures
        s.keyed(laws::pressed(KeyCode::Char(menu::menu_key(s.host, actions, i)->0))) == (AppView {
            modals: s.modals.drop_last(),
            ..s
        }).action_run(actions[i]),
{
    dialogs::hotkeys_run_their_entry(s.host, actions, i);
    reveal(AppView::keyed);
    reveal(AppView::modal_keyed);
    reveal(AppView::without_modal);
    reveal(AppView::menu_form_keyed);
    reveal(AppView::menu_letter_keyed);
}

/// A field of the Config tab takes what is typed, and escape closes it unchanged.
pub proof fn setting_fields_take_what_is_typed(s: AppView, d: InputView, c: char)
    requires
        s.modals.len() == 0,
        s.ui.tab == Tab::Config,
    ensures
        s.refresh_interval_draft == Some(d) ==> s.keyed(laws::pressed(KeyCode::Char(c)))
            == (AppView { refresh_interval_draft: Some(d.inserted(c)), ..s }) && s.keyed(
            laws::pressed(KeyCode::Esc),
        ) == (AppView { refresh_interval_draft: None, ..s }),
        s.refresh_interval_draft is None && s.weekly_threshold_draft == Some(d) ==> s.keyed(
            laws::pressed(KeyCode::Char(c)),
        ) == (AppView { weekly_threshold_draft: Some(d.inserted(c)), ..s }) && s.keyed(
            laws::pressed(KeyCode::Esc),
        ) == (AppView { weekly_threshold_draft: None, ..s }),
{
    reveal(AppView::keyed);
}

} // verus!
