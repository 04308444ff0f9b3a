//! What the Setup tab promises: how an account is created, edited and deleted.

use vstd::prelude::*;

use crate::forms::{ConfigDraftView, ConfigFocus, ConfigRow, EnvKeyCollisionView, ToastKind};
use crate::input::InputView;
use crate::key::KeyCode;
use crate::laws;
use crate::model;
use crate::model::{EnvVarView, ModelSettingsView, ProfileView};
use crate::requests::{Reply, Request, RequestView};
use crate::state::AppView;
use crate::tabs::Tab;
use crate::text;

verus! {

/// A field of the form takes the keys.
pub open spec fn in_field(s: AppView, d: ConfigDraftView, row: ConfigRow) -> bool {
    &&& s.modals.len() == 0
    &&& s.ui.tab == Tab::Setup
    &&& s.ui.config_focus == ConfigFocus::Actions
    &&& s.config_draft == Some(d)
    &&& d.active == Some(row)
}

/// A field of the form of an account takes the keys.
pub open spec fn edits(s: AppView, d: ConfigDraftView, row: ConfigRow, i: int) -> bool {
    &&& in_field(s, d, row)
    &&& d.editing_name is Some
    &&& laws::first_named(s.config, d.editing_name->0, i)
}

proof fn lemma_field_keys(s: AppView, d: ConfigDraftView, row: ConfigRow)
    requires
        in_field(s, d, row),
    ensures
        s.keyed(laws::pressed(KeyCode::Enter)) == s.field_committed(row),
        s.keyed(laws::pressed(KeyCode::Esc)) == s.field_canceled(row),
{
    reveal(AppView::keyed);
    reveal(AppView::config_edit_keyed);
}

/// What is typed goes into the field that is open, and into no other.
pub proof fn typing_reaches_the_open_field(
    s: AppView,
    d: ConfigDraftView,
    row: ConfigRow,
    c: char,
    other: ConfigRow,
)
    requires
        in_field(s, d, row),
        d.field(row) is Some,
    ensures
        ({
            let t = s.keyed(laws::pressed(KeyCode::Char(c)));
            let f = d.field(row)->0;
            &&& t == AppView { config_draft: t.config_draft, ..s }
            &&& t.config_draft is Some
            &&& t.config_draft->0.field(row) == Some(f.inserted(c))
            &&& other != row ==> t.config_draft->0.field(other) == d.field(other)
            &&& t.config_draft->0.editing_name == d.editing_name
            &&& t.config_draft->0.active == d.active
        }),
{
    reveal(AppView::keyed);
    reveal(AppView::config_edit_keyed);
    reveal(AppView::drafting);
}

/// A name that was not changed renames nothing; any other is looked at first, and only one that
/// passes renames the account.
pub proof fn renames_are_checked_first(s: AppView, d: ConfigDraftView)
    requires
        in_field(s, d, ConfigRow::Name),
        d.editing_name is Some,
    ensures
        ({
            let t = s.keyed(laws::pressed(KeyCode::Enter));
            let same = d.name.trimmed() == d.editing_name->0;
            &&& same ==> {
                &&& t.requests == s.requests
                &&& t.config == s.config
                &&& t.config_draft is Some
                &&& t.config_draft->0.active is None
            }
            &&& !same ==> t == AppView {
                requests: s.requests.push(
                    RequestView::CheckRename {
                        old_name: d.editing_name->0,
                        new_name: d.name.trimmed(),
                    },
                ),
                ..s
            }
        }),
{
    lemma_field_keys(s, d, ConfigRow::Name);
    reveal(AppView::field_committed);
    reveal(AppView::rename_committed);
    reveal(AppView::draft_idle);
    reveal(AppView::drafting);
    reveal(AppView::asked);
}

/// A name that passed renames the account from the old one to the new one; one that was refused
/// only says why.
pub proof fn checked_names_rename(s: AppView, old_name: String, new_name: String, e: String)
    ensures
        ({
            let r = Request::CheckRename { old_name, new_name };
            &&& s.settled(r, Reply::Done) == AppView {
                requests: s.requests.push(
                    RequestView::RenameProfile { old_name: old_name@, new_name: new_name@ },
                ),
                ..s
            }
            &&& laws::only_told(s, s.settled(r, Reply::Failed(e)), ToastKind::Danger)
        }),
{
    laws::lemma_edited(s, Request::CheckRename { old_name, new_name }, e);
    reveal(AppView::edited);
    reveal(AppView::checked);
    reveal(AppView::refused);
    reveal(AppView::asked);
    reveal(AppView::toasted);
}

/// After a rename the form edits the account under its new name, its field closed; a rename that
/// failed leaves the form as it is.
pub proof fn renamed_accounts_stay_in_the_form(
    s: AppView,
    d: ConfigDraftView,
    old_name: String,
    new_name: String,
    e: String,
)
    requires
        s.config_draft == Some(d),
    ensures
        ({
            let r = Request::RenameProfile { old_name, new_name };
            let t = s.settled(r, Reply::Done);
            &&& t.config_draft is Some
            &&& t.config_draft->0.editing_name == Some(new_name@)
            &&& t.config_draft->0.name.text == new_name@
            &&& t.config_draft->0.active is None
            &&& t.config_draft->0.base_url == d.base_url
            &&& t.requests == s.requests.push(RequestView::RefreshTokens).push(
                RequestView::NoteStateTime,
            )
            &&& laws::told(t, ToastKind::Success)
            &&& laws::only_told(s, s.settled(r, Reply::Failed(e)), ToastKind::Danger)
        }),
{
    laws::lemma_edited(s, Request::RenameProfile { old_name, new_name }, e);
    reveal(AppView::edited);
    reveal(AppView::renamed);
    reveal(AppView::drafting);
    reveal(AppView::asked);
    reveal(AppView::toasted);
}

/// An endpoint is stored with the key typed beside it; without an endpoint no key is stored. An
/// empty field stores none.
pub proof fn keys_are_stored_beside_an_endpoint(s: AppView, d: ConfigDraftView, row: ConfigRow)
    requires
        row == ConfigRow::BaseUrl || row == ConfigRow::ApiKey,
        in_field(s, d, row),
        d.editing_name is Some,
    ensures
        ({
            let t = s.keyed(laws::pressed(KeyCode::Enter));
            let url = d.base_url.trimmed();
            let key = d.api_key.trimmed();
            &&& t == AppView { requests: t.requests, ..s }
            &&& t.requests == s.requests.push(
                RequestView::EditEndpoint {
                    name: d.editing_name->0,
                    base_url: if url.len() > 0 {
                        Some(url)
                    } else {
                        None
                    },
                    api_key: if url.len() > 0 && key.len() > 0 {
                        Some(key)
                    } else {
                        None
                    },
                    field: Some(row),
                },
            )
        }),
{
    lemma_field_keys(s, d, row);
    reveal(AppView::field_committed);
    reveal(AppView::endpoint_committed);
    reveal(AppView::asked);
}

/// A stored endpoint shows in the form as it was stored; a re-login goes on from the endpoint to
/// the key, and any other edit closes the field.
pub proof fn stored_endpoints_show_in_the_form(
    s: AppView,
    d: ConfigDraftView,
    name: String,
    i: int,
    base_url: Option<String>,
    api_key: Option<String>,
    field: Option<ConfigRow>,
    e: String,
)
    requires
        s.config_draft == Some(d),
        laws::first_named(s.config, name@, i),
    ensures
        ({
            let r = Request::EditEndpoint { name, base_url, api_key, field };
            let t = s.settled(r, Reply::Done);
            let p = s.config.profiles[i];
            let goes_on = d.relogin_chain && field == Some(ConfigRow::BaseUrl) && p.base_url is Some
                && p.base_url->0.len() > 0;
            &&& t == AppView { config_draft: t.config_draft, ..s }
            &&& t.config_draft is Some
            &&& p.base_url is Some ==> t.config_draft->0.base_url.text == p.base_url->0
            &&& p.api_key is Some ==> t.config_draft->0.api_key.text == p.api_key->0
            &&& goes_on ==> t.config_draft->0.active == Some(ConfigRow::ApiKey)
                && t.config_draft->0.relogin_chain
            &&& !goes_on ==> t.config_draft->0.active is None && !t.config_draft->0.relogin_chain
            &&& laws::only_told(s, s.settled(r, Reply::Failed(e)), ToastKind::Danger)
        }),
{
    laws::lemma_edited(s, Request::EditEndpoint { name, base_url, api_key, field }, e);
    laws::lemma_found(s.config, name@, i);
    reveal(AppView::edited);
    reveal(AppView::endpoint_saved);
    reveal(AppView::drafting);
    reveal(AppView::toasted);
    reveal_strlit("");
}

/// The text of a field, or none where it is empty.
pub open spec fn chosen(f: InputView) -> Option<Seq<char>> {
    if f.trimmed().len() == 0 {
        None
    } else {
        Some(f.trimmed())
    }
}

/// A model field stores that choice alone: the other choices are stored as they were, and an
/// empty field clears its choice.
pub proof fn model_fields_change_their_choice(
    s: AppView,
    d: ConfigDraftView,
    row: ConfigRow,
    i: int,
)
    requires
        edits(s, d, row, i),
        row == ConfigRow::Model || row == ConfigRow::OpusModel || row == ConfigRow::SonnetModel
            || row == ConfigRow::HaikuModel || row == ConfigRow::SubagentModel,
    ensures
        ({
            let t = s.keyed(laws::pressed(KeyCode::Enter));
            let m = s.config.profiles[i].models;
            let asked = t.requests.last();
            &&& t == AppView { requests: t.requests, ..s }
            &&& t.requests.len() == s.requests.len() + 1
            &&& t.requests.drop_last() == s.requests
            &&& asked is EditModel
            &&& asked->EditModel_name == d.editing_name->0
            &&& asked->EditModel_field == Some(row)
            &&& asked->EditModel_models == ModelSettingsView {
                default: if row == ConfigRow::Model {
                    chosen(d.model)
                } else {
                    m.default
                },
                opus: if row == ConfigRow::OpusModel {
                    chosen(d.opus_model)
                } else {
                    m.opus
                },
                sonnet: if row == ConfigRow::SonnetModel {
                    chosen(d.sonnet_model)
                } else {
                    m.sonnet
                },
                haiku: if row == ConfigRow::HaikuModel {
                    chosen(d.haiku_model)
                } else {
                    m.haiku
                },
                subagent: if row == ConfigRow::SubagentModel {
                    chosen(d.subagent_model)
                } else {
                    m.subagent
                },
            }
        }),
{
    lemma_field_keys(s, d, row);
    laws::lemma_found(s.config, d.editing_name->0, i);
    reveal(AppView::field_committed);
    reveal(AppView::model_field_committed);
    reveal(AppView::asked);
    let t = s.keyed(laws::pressed(KeyCode::Enter));
    assert(t.requests.drop_last() =~= s.requests);
}

/// Space on the model row takes the next alias: of the stored choice for an account, of the typed
/// one in the form of a new account, which stores nothing.
pub proof fn model_cycles_change_the_model_alone(s: AppView, d: ConfigDraftView, i: int)
    requires
        s.config_draft == Some(d),
    ensures
        ({
            let t = s.model_cycled();
            &&& d.editing_name is None ==> {
                &&& t == AppView {
                    config_draft: Some(ConfigDraftView { model: t.config_draft->0.model, ..d }),
                    ..s
                }
                &&& t.config_draft->0.model.text == (match model::preset_successor(
                    chosen(d.model),
                ) {
                    Some(m) => m,
                    None => ""@,
                })
            }
            &&& d.editing_name is Some && laws::first_named(s.config, d.editing_name->0, i) ==> t
                == AppView {
                requests: s.requests.push(
                    RequestView::EditModel {
                        name: d.editing_name->0,
                        models: ModelSettingsView {
                            default: model::preset_successor(s.config.profiles[i].models.default),
                            ..s.config.profiles[i].models
                        },
                        field: None,
                    },
                ),
                ..s
            }
        }),
{
    if d.editing_name is Some && laws::first_named(s.config, d.editing_name->0, i) {
        laws::lemma_found(s.config, d.editing_name->0, i);
    }
    reveal(AppView::model_cycled);
    reveal(AppView::drafting);
    reveal(AppView::asked);
}

/// A value typed for an environment entry is stored under that entry's key; every other entry is
/// stored as it was.
pub proof fn env_values_go_to_their_key(
    s: AppView,
    d: ConfigDraftView,
    k: usize,
    i: int,
    other: EnvVarView,
)
    requires
        edits(s, d, ConfigRow::EnvEntry(k), i),
        k < s.config.profiles[i].env.len(),
        model::env_sorted(s.config.profiles[i].env),
    ensures
        ({
            let t = s.keyed(laws::pressed(KeyCode::Enter));
            let old_env = s.config.profiles[i].env;
            let asked = t.requests.last();
            let key = old_env[k as int].key;
            &&& t == AppView { requests: t.requests, ..s }
            &&& t.requests.drop_last() == s.requests
            &&& asked is EnvSetValue
            &&& asked->EnvSetValue_name == d.editing_name->0
            &&& asked->EnvSetValue_index == k
            &&& asked->EnvSetValue_env.contains(
                EnvVarView { key, value: d.env_value.trimmed() },
            )
            &&& other.key != key ==> asked->EnvSetValue_env.contains(other) == old_env.contains(
                other,
            )
        }),
{
    lemma_field_keys(s, d, ConfigRow::EnvEntry(k));
    laws::lemma_found(s.config, d.editing_name->0, i);
    reveal(AppView::field_committed);
    reveal(AppView::env_value_committed);
    reveal(AppView::asked);
    let t = s.keyed(laws::pressed(KeyCode::Enter));
    let p = s.config.profiles[i];
    assert(t.requests.drop_last() =~= s.requests);
    model::env_put_is_map_insert(p.env, p.env[k as int].key, d.env_value.trimmed());
}

/// A new environment key is looked at first where it could be one; an empty one closes the field,
/// and one with a space or an equals sign is refused.
pub proof fn env_keys_are_checked_first(s: AppView, d: ConfigDraftView)
    requires
        in_field(s, d, ConfigRow::EnvAdd),
        d.editing_name is Some,
    ensures
        ({
            let t = s.keyed(laws::pressed(KeyCode::Enter));
            let key = d.env_new_key.trimmed();
            let bad = exists|j: int|
                0 <= j < key.len() && (text::is_space(#[trigger] key[j]) || key[j] == '=');
            &&& key.len() == 0 ==> t.requests == s.requests && t.config_draft is Some
                && t.config_draft->0.active is None
            &&& key.len() > 0 && bad ==> laws::only_told(s, t, ToastKind::Danger)
            &&& key.len() > 0 && !bad ==> t == AppView {
                requests: s.requests.push(
                    RequestView::ClassifyEnv { name: d.editing_name->0, key },
                ),
                ..s
            }
        }),
{
    lemma_field_keys(s, d, ConfigRow::EnvAdd);
    reveal(AppView::field_committed);
    reveal(AppView::env_key_committed);
    reveal(AppView::draft_idle);
    reveal(AppView::drafting);
    reveal(AppView::asked);
    reveal(AppView::toasted);
}

/// A key that is new everywhere enters the environment with an empty value, beside what was
/// there; one that stands elsewhere is asked about and stores nothing.
pub proof fn new_env_keys_are_added(
    s: AppView,
    name: Seq<char>,
    key: Seq<char>,
    i: int,
    c: Option<EnvKeyCollisionView>,
    other: EnvVarView,
)
    requires
        laws::first_named(s.config, name, i),
        model::env_sorted(s.config.profiles[i].env),
        forall|j: int|
            0 <= j < s.config.profiles[i].env.len() ==> (#[trigger] s.config.profiles[i].env[j]).key
                != key,
    ensures
        ({
            let t = s.env_key_classified(name, key, c);
            let asked = t.requests.last();
            &&& t.config == s.config
            &&& c is Some ==> {
                &&& t.requests == s.requests
                &&& t.modals.len() == s.modals.len() + 1
                &&& t.modals.last() is EnvCollision
                &&& t.modals.last()->EnvCollision_0.profile == name
                &&& t.modals.last()->EnvCollision_0.key == key
            }
            &&& c is None ==> {
                &&& t.requests.drop_last() == s.requests
                &&& asked is EnvAddKey
                &&& asked->EnvAddKey_name == name
                &&& asked->EnvAddKey_key == key
                &&& asked->EnvAddKey_env.contains(EnvVarView { key, value: ""@ })
                &&& other.key != key ==> asked->EnvAddKey_env.contains(other)
                    == s.config.profiles[i].env.contains(other)
            }
        }),
{
    reveal(AppView::env_key_classified);
    reveal(AppView::env_key_added);
    reveal(AppView::draft_idle);
    reveal(AppView::drafting);
    reveal(AppView::with_modal);
    reveal(AppView::asked);
    let u = s.draft_idle();
    assert(u.config == s.config);
    laws::lemma_found(s.config, name, i);
    let env = s.config.profiles[i].env;
    let keys = model::env_keys(env);
    text::lemma_position(keys, key);
    if text::position(keys, key) is Some {
        let j = text::position(keys, key)->0;
        assert(keys[j] == env[j].key);
    }
    model::env_put_is_map_insert(env, key, ""@);
    let t = s.env_key_classified(name, key, c);
    if c is None {
        assert(t.requests.drop_last() =~= s.requests);
    }
}

/// Removing the entry under the cursor removes that entry and no other.
pub proof fn env_removals_take_one_entry(s: AppView, d: ConfigDraftView, k: usize, i: int)
    requires
        s.config_draft == Some(d),
        d.editing_name is Some,
        laws::first_named(s.config, d.editing_name->0, i),
        s.current_row() == Some(ConfigRow::EnvEntry(k)),
        k < s.config.profiles[i].env.len(),
    ensures
        ({
            let t = s.env_field_removed();
            let env = s.config.profiles[i].env;
            let asked = t.requests.last();
            &&& t == AppView { requests: t.requests, ..s }
            &&& t.requests.drop_last() == s.requests
            &&& asked is EnvRemove
            &&& asked->EnvRemove_name == d.editing_name->0
            &&& asked->EnvRemove_key == env[k as int].key
            &&& asked->EnvRemove_env == env.take(k as int) + env.skip(k + 1)
        }),
{
    laws::lemma_found(s.config, d.editing_name->0, i);
    reveal(AppView::env_field_removed);
    reveal(AppView::asked);
    let t = s.env_field_removed();
    let env = s.config.profiles[i].env;
    assert(t.requests.drop_last() =~= s.requests);
    assert(env.remove(k as int) =~= env.take(k as int) + env.skip(k + 1));
}

/// Escape in a field of an account puts back what is stored, and stores nothing; in the form of a
/// new account it keeps what was typed.
pub proof fn escape_restores_stored_values(
    s: AppView,
    d: ConfigDraftView,
    row: ConfigRow,
    i: int,
)
    requires
        in_field(s, d, row),
    ensures
        ({
            let t = s.keyed(laws::pressed(KeyCode::Esc));
            let n = t.config_draft->0;
            let p = s.config.profiles[i];
            let known = d.editing_name is Some && laws::first_named(
                s.config,
                d.editing_name->0,
                i,
            );
            &&& t == AppView { config_draft: t.config_draft, ..s }
            &&& t.config_draft is Some
            &&& n.active is None
            &&& !n.relogin_chain
            &&& d.editing_name is None ==> n.name == d.name && n.base_url == d.base_url && n.api_key
                == d.api_key && n.model == d.model && n.captured_login == d.captured_login
            &&& d.editing_name is Some && row == ConfigRow::Name ==> n.name.text
                == d.editing_name->0
            &&& known && row == ConfigRow::BaseUrl && p.base_url is Some ==> n.base_url.text
                == p.base_url->0
            &&& known && row == ConfigRow::ApiKey && p.api_key is Some ==> n.api_key.text
                == p.api_key->0
            &&& known && row == ConfigRow::Model && p.models.default is Some ==> n.model.text
                == p.models.default->0
            &&& known && row == ConfigRow::OpusModel && p.models.opus is Some ==> n.opus_model.text
                == p.models.opus->0
            &&& known && row == ConfigRow::SonnetModel && p.models.sonnet is Some
                ==> n.sonnet_model.text == p.models.sonnet->0
            &&& known && row == ConfigRow::HaikuModel && p.models.haiku is Some
                ==> n.haiku_model.text == p.models.haiku->0
            &&& known && row == ConfigRow::SubagentModel && p.models.subagent is Some
                ==> n.subagent_model.text == p.models.subagent->0
        }),
{
    lemma_field_keys(s, d, row);
    if d.editing_name is Some && laws::first_named(s.config, d.editing_name->0, i) {
        laws::lemma_found(s.config, d.editing_name->0, i);
    }
    reveal(AppView::field_canceled);
    reveal(AppView::drafting);
}

/// Opening an account fills the form with what is stored of it, nothing armed and no field open;
/// the entry after the accounts opens an empty form.
pub proof fn forms_open_with_what_is_stored(s: AppView, k: int)
    ensures
        ({
            let t = s.config_entered();
            let d = t.config_draft->0;
            let c = s.ui.profile_cursor as int;
            &&& t.config_draft is Some
            &&& t.config == s.config
            &&& t.requests == s.requests
            &&& t.ui.config_focus == ConfigFocus::Actions
            &&& t.ui.config_action_cursor == 0
            &&& d.active is None
            &&& !d.armed_delete
            &&& d.captured_login is None
            &&& c >= s.config.profiles.len() ==> {
                &&& d.editing_name is None
                &&& d.name.text == ""@
                &&& d.base_url.text == ""@
                &&& d.api_key.text == ""@
                &&& d.model.text == ""@
            }
            &&& c < s.config.profiles.len() && laws::first_named(
                s.config,
                s.config.profiles[c].name,
                k,
            ) ==> {
                let p = s.config.profiles[k];
                &&& d.editing_name == Some(p.name)
                &&& d.name.text == p.name
                &&& p.base_url is Some ==> d.base_url.text == p.base_url->0
                &&& p.api_key is Some ==> d.api_key.text == p.api_key->0
                &&& p.models.default is Some ==> d.model.text == p.models.default->0
                &&& p.models.opus is Some ==> d.opus_model.text == p.models.opus->0
                &&& p.models.sonnet is Some ==> d.sonnet_model.text == p.models.sonnet->0
                &&& p.models.haiku is Some ==> d.haiku_model.text == p.models.haiku->0
                &&& p.models.subagent is Some ==> d.subagent_model.text == p.models.subagent->0
            }
        }),
{
    let c = s.ui.profile_cursor as int;
    if c < s.config.profiles.len() && laws::first_named(
        s.config,
        s.config.profiles[c].name,
        k,
    ) {
        laws::lemma_found(s.config, s.config.profiles[c].name, k);
    }
    reveal(AppView::config_entered);
    reveal(AppView::drafting);
    reveal(AppView::on);
}

/// Leaving the form drops it and stores nothing; a captured login that is lost with it is warned
/// of.
pub proof fn leaving_the_form_stores_nothing(s: AppView)
    ensures
        ({
            let t = s.config_left();
            let lost = s.config_draft is Some && s.config_draft->0.editing_name is None
                && s.config_draft->0.captured_login is Some;
            &&& t.config_draft is None
            &&& t.config == s.config
            &&& t.requests == s.requests
            &&& t.ui.config_focus == ConfigFocus::Profiles
            &&& lost ==> laws::told(t, ToastKind::Warning)
            &&& !lost ==> t.toasts == s.toasts
        }),
{
    reveal(AppView::config_left);
    reveal(AppView::drafting);
    reveal(AppView::on);
    reveal(AppView::toasted);
}

/// An account is deleted by two presses on its row: the first only arms, the second looks whether
/// a session runs. One that runs is asked about, standing on no, and only a yes deletes it all
/// the same.
pub proof fn deleting_takes_two_presses(s: AppView, d: ConfigDraftView, name: String)
    requires
        s.config_draft == Some(d),
        d.editing_name == Some(name@),
    ensures
        ({
            let t = s.config_row_run(ConfigRow::Delete);
            let calm = s.settled(Request::ProbeDelete(name), Reply::Flag(false));
            let live = s.settled(Request::ProbeDelete(name), Reply::Flag(true));
            &&& !d.armed_delete ==> t == AppView {
                config_draft: Some(ConfigDraftView { armed_delete: true, ..d }),
                ..s
            }
            &&& d.armed_delete ==> t == AppView {
                requests: s.requests.push(RequestView::ProbeDelete(name@)),
                ..s
            }
            &&& calm == AppView {
                requests: s.requests.push(
                    RequestView::DeleteProfile { name: name@, force: false },
                ),
                ..s
            }
            &&& live == AppView { modals: live.modals, ..s }
            &&& live.keyed(laws::pressed(KeyCode::Enter)) == s
            &&& live.keyed(laws::pressed(KeyCode::Char('y'))).keyed(laws::pressed(KeyCode::Enter))
                == AppView {
                requests: s.requests.push(RequestView::DeleteProfile { name: name@, force: true }),
                ..s
            }
        }),
{
    reveal(AppView::config_row_run);
    reveal(AppView::delete_row_run);
    reveal(AppView::delete_armed);
    reveal(AppView::drafting);
    reveal(AppView::settled);
    reveal(AppView::told_flag);
    reveal(AppView::delete_probed);
    reveal(AppView::asked);
    let live = s.settled(Request::ProbeDelete(name), Reply::Flag(true));
    laws::dialogs_take_the_answer(s, live);
    reveal(AppView::confirm_run);
    reveal(AppView::with_modal);
}

/// A deleted account's form closes and the cursor rests on an account; a failure leaves
/// everything as it is.
pub proof fn deleted_accounts_leave_the_form(s: AppView, name: String, force: bool, e: String)
    requires
        s.config.profiles.len() <= usize::MAX,
    ensures
        ({
            let r = Request::DeleteProfile { name, force };
            let t = s.settled(r, Reply::Done);
            &&& t.config_draft is None
            &&& t.ui.config_focus == ConfigFocus::Profiles
            &&& s.config.profiles.len() > 0 ==> t.ui.profile_cursor < s.config.profiles.len()
            &&& s.ui.profile_cursor < s.config.profiles.len() ==> t.ui.profile_cursor
                == s.ui.profile_cursor
            &&& t.requests == s.requests.push(RequestView::RefreshTokens).push(
                RequestView::NoteStateTime,
            )
            &&& laws::told(t, ToastKind::Success)
            &&& laws::only_told(s, s.settled(r, Reply::Failed(e)), ToastKind::Danger)
        }),
{
    reveal(AppView::settled);
    reveal(AppView::concluded);
    reveal(AppView::deleted);
    reveal(AppView::drafting);
    reveal(AppView::profile_clamped);
    reveal(AppView::on);
    reveal(AppView::asked);
    reveal(AppView::toasted);
}

/// A new account's name is looked at before anything is made of the form; a form that passes makes
/// an account of what was typed. It gets the captured login only where no endpoint was typed, and
/// the key only beside an endpoint.
pub proof fn forms_make_the_account_typed(s: AppView, d: ConfigDraftView, name: String, e: String)
    requires
        s.config_draft == Some(d),
    ensures
        ({
            let r = Request::CheckNewName(name);
            let t = s.settled(r, Reply::Done);
            let url = chosen(d.base_url);
            &&& s.config_row_run(ConfigRow::Create) == AppView {
                requests: s.requests.push(RequestView::CheckNewName(d.name.trimmed())),
                ..s
            }
            &&& t == AppView {
                requests: s.requests.push(
                    RequestView::CreateProfile {
                        name: name@,
                        base_url: url,
                        api_key: if url is Some {
                            chosen(d.api_key)
                        } else {
                            None
                        },
                        model: chosen(d.model),
                        login: if url is Some {
                            None
                        } else {
                            d.captured_login
                        },
                        discarded: url is Some && d.captured_login is Some,
                    },
                ),
                ..s
            }
            &&& laws::only_told(s, s.settled(r, Reply::Failed(e)), ToastKind::Danger)
        }),
{
    laws::lemma_edited(s, Request::CheckNewName(name), e);
    reveal(AppView::config_row_run);
    reveal(AppView::new_account_committed);
    reveal(AppView::edited);
    reveal(AppView::checked);
    reveal(AppView::new_account_checked);
    reveal(AppView::refused);
    reveal(AppView::asked);
    reveal(AppView::toasted);
}

/// A created account is the one under the cursor, and its form closes; one that could not be
/// created keeps the form.
pub proof fn created_accounts_are_selected(
    s: AppView,
    name: String,
    base_url: Option<String>,
    api_key: Option<String>,
    model: Option<String>,
    login: Option<u64>,
    discarded: bool,
    i: int,
    e: String,
)
    requires
        laws::first_named(s.config, name@, i),
        s.config.profiles.len() <= usize::MAX,
    ensures
        ({
            let r = Request::CreateProfile { name, base_url, api_key, model, login, discarded };
            let t = s.settled(r, Reply::Done);
            &&& t.config_draft is None
            &&& t.ui.config_focus == ConfigFocus::Profiles
            &&& t.ui.profile_cursor == i
            &&& t.requests == s.requests.push(RequestView::RefreshTokens).push(
                RequestView::NoteStateTime,
            )
            &&& laws::told(t, ToastKind::Success)
            &&& laws::only_told(s, s.settled(r, Reply::Failed(e)), ToastKind::Danger)
        }),
{
    laws::lemma_edited(
        s,
        Request::CreateProfile { name, base_url, api_key, model, login, discarded },
        e,
    );
    laws::lemma_found(s.config, name@, i);
    reveal(AppView::edited);
    reveal(AppView::account_created);
    reveal(AppView::drafting);
    reveal(AppView::on);
    reveal(AppView::asked);
    reveal(AppView::toasted);
}

/// Auto-start is flipped for the account of the form alone, and stored; an account with an
/// endpoint has none, which is said.
pub proof fn auto_start_is_flipped_for_logins_alone(s: AppView, d: ConfigDraftView, i: int)
    requires
        s.config_draft == Some(d),
        d.editing_name is Some,
        laws::first_named(s.config, d.editing_name->0, i),
    ensures
        ({
            let t = s.config_row_run(ConfigRow::AutoStart);
            let p = s.config.profiles[i];
            &&& !p.facts.is_oauth ==> laws::only_told(s, t, ToastKind::Warning)
            &&& p.facts.is_oauth ==> {
                &&& t.config.profiles == s.config.profiles.update(
                    i,
                    ProfileView { auto_start: !p.auto_start, ..p },
                )
                &&& t.config.state == s.config.state
                &&& t == AppView {
                    config: t.config,
                    requests: s.requests.push(
                        RequestView::SaveAutoStart { name: p.name, on: !p.auto_start },
                    ),
                    ..s
                }
            }
        }),
{
    laws::lemma_found(s.config, d.editing_name->0, i);
    reveal(AppView::config_row_run);
    reveal(AppView::auto_start_flipped);
    reveal(AppView::asked);
    reveal(AppView::toasted);
}

/// The login row logs in the way the account does: through the browser, or by typing endpoint and
/// key again. In the form of a new account the name is looked at first.
pub proof fn login_rows_follow_the_account(s: AppView, d: ConfigDraftView, i: int)
    requires
        s.config_draft == Some(d),
        s.login is None,
        d.captured_login is None,
    ensures
        ({
            let t = s.config_row_run(ConfigRow::Login);
            let p = s.config.profiles[i];
            let known = d.editing_name is Some && laws::first_named(
                s.config,
                d.editing_name->0,
                i,
            );
            &&& d.editing_name is None ==> t == AppView {
                requests: s.requests.push(RequestView::CheckLoginName(d.name.trimmed())),
                ..s
            }
            &&& known && p.facts.login_is_oauth ==> {
                &&& t.login is Some
                &&& t.login->0.name == p.name
                &&& !t.login->0.is_new
                &&& t.requests.len() == s.requests.len() + 1
                &&& t.requests.last() is StartLogin
                &&& t.requests.last()->StartLogin_name == p.name
            }
            &&& known && !p.facts.login_is_oauth ==> {
                &&& t == AppView { config_draft: t.config_draft, ..s }
                &&& t.config_draft is Some
                &&& t.config_draft->0.active == Some(ConfigRow::BaseUrl)
                &&& t.config_draft->0.relogin_chain
                &&& p.base_url is Some ==> t.config_draft->0.base_url.text == p.base_url->0
                &&& p.api_key is Some ==> t.config_draft->0.api_key.text == p.api_key->0
            }
        }),
{
    if d.editing_name is Some && laws::first_named(s.config, d.editing_name->0, i) {
        laws::lemma_found(s.config, d.editing_name->0, i);
    }
    reveal(AppView::config_row_run);
    reveal(AppView::login_row_run);
    reveal(AppView::login_wanted);
    reveal(AppView::login_started);
    reveal(AppView::login_modal_opened);
    reveal(AppView::logging_in);
    reveal(AppView::with_modal);
    reveal(AppView::api_relogin_started);
    reveal(AppView::drafting);
    reveal(AppView::asked);
    reveal(AppView::on);
}

/// A name that passed starts the login of a new account; where a login was captured already,
/// replacing it is asked about first, standing on no.
pub proof fn captured_logins_are_replaced_on_a_yes_only(
    s: AppView,
    d: ConfigDraftView,
    name: String,
    e: String,
)
    requires
        s.config_draft == Some(d),
    ensures
        ({
            let r = Request::CheckLoginName(name);
            let t = s.settled(r, Reply::Done);
            &&& d.captured_login is None ==> t == s.login_started(name@, true)
            &&& d.captured_login is Some ==> {
                &&& t == AppView { modals: t.modals, ..s }
                &&& t.keyed(laws::pressed(KeyCode::Enter)) == s
                &&& t.keyed(laws::pressed(KeyCode::Char('y'))).keyed(
                    laws::pressed(KeyCode::Enter),
                ) == s.login_started(name@, true)
            }
            &&& laws::only_told(s, s.settled(r, Reply::Failed(e)), ToastKind::Danger)
        }),
{
    laws::lemma_edited(s, Request::CheckLoginName(name), e);
    reveal(AppView::edited);
    reveal(AppView::checked);
    reveal(AppView::login_wanted);
    reveal(AppView::refused);
    reveal(AppView::toasted);
    let t = s.settled(Request::CheckLoginName(name), Reply::Done);
    if d.captured_login is Some {
        laws::dialogs_take_the_answer(s, t);
        reveal(AppView::confirm_run);
        reveal(AppView::with_modal);
    }
}

/// Moving an account asks for one place up or down, and only where there is such a place; once it
/// moved the cursor stays on it.
pub proof fn accounts_move_by_one_place(s: AppView, up: bool)
    requires
        s.ui.profile_cursor < s.config.profiles.len() <= usize::MAX,
    ensures
        ({
            let from = s.ui.profile_cursor;
            let t = s.reorder_wanted(up);
            let there = if up {
                from > 0
            } else {
                from + 1 < s.config.profiles.len()
            };
            let to = (if up {
                from - 1
            } else {
                from + 1
            }) as usize;
            &&& !there ==> t == s
            &&& there ==> t == AppView {
                requests: s.requests.push(RequestView::ReorderProfile { from, to }),
                ..s
            }
            &&& there ==> s.settled(
                Request::ReorderProfile { from, to },
                Reply::Done,
            ).ui.profile_cursor == to
        }),
{
    reveal(AppView::reorder_wanted);
    reveal(AppView::asked);
    reveal(AppView::settled);
    reveal(AppView::concluded);
    reveal(AppView::reordered);
    reveal(AppView::on);
}

} // verus!
