//! The Setup tab: the detail rows of an account and what they do.

use vstd::prelude::*;

use crate::forms;
use crate::forms::{
    ConfigDraft, ConfigDraftView, ConfigFocus, ConfigRow, ConfirmAction, ConfirmActionView,
    ConfirmState, ConfirmStateView, EnvCollisionChoice, EnvKeyCollision, EnvKeyCollisionView, Modal,
    ModalView, ToastKind,
};
use crate::input::{InputState, InputView};
use crate::key::{Key, KeyCode};
use crate::model;
use crate::model::{
    AppConfig, AppConfigView, ModelSettings, ModelSettingsView, Profile, ProfileView,
};
use crate::requests::{Request, RequestView};
use crate::session;
use crate::settings;
use crate::state::{App, AppView, Ui};
use crate::text;

verus! {

// ── rows ────────────────────────────────────────────────────────────────────

/// Whether a text holds anything but white space.
pub open spec fn has_text(s: Seq<char>) -> bool {
    text::trim(s).len() > 0
}

/// Whether an optional text holds anything but white space.
pub open spec fn opt_has_text(s: Option<Seq<char>>) -> bool {
    match s {
        Some(t) => has_text(t),
        None => false,
    }
}

/// Rows of the new-account form: the key field needs an endpoint, the browser login needs
/// there to be none.
pub open spec fn new_form_rows(api: bool) -> Seq<ConfigRow> {
    let rows = Seq::<ConfigRow>::empty().push(ConfigRow::Name).push(ConfigRow::BaseUrl);
    let rows = if api {
        rows.push(ConfigRow::ApiKey)
    } else {
        rows
    };
    let rows = rows.push(ConfigRow::Model);
    let rows = if api {
        rows
    } else {
        rows.push(ConfigRow::Login)
    };
    rows.push(ConfigRow::Create)
}

/// The stored override behind a row.
pub open spec fn stored_override(m: ModelSettingsView, row: ConfigRow) -> Option<Seq<char>> {
    match row {
        ConfigRow::OpusModel => m.opus,
        ConfigRow::SonnetModel => m.sonnet,
        ConfigRow::HaikuModel => m.haiku,
        ConfigRow::SubagentModel => m.subagent,
        _ => None,
    }
}

/// Whether an override is set; the draft wins over what is stored.
#[verifier::opaque]
pub open spec fn override_set(
    d: Option<ConfigDraftView>,
    m: ModelSettingsView,
    row: ConfigRow,
) -> bool {
    match d {
        Some(d) => match d.field(row) {
            Some(f) => has_text(f.text),
            None => false,
        },
        None => opt_has_text(stored_override(m, row)),
    }
}

/// `rows` with an override row added when it shows.
pub open spec fn override_row(rows: Seq<ConfigRow>, shown: bool, row: ConfigRow) -> Seq<ConfigRow> {
    if shown {
        rows.push(row)
    } else {
        rows
    }
}

/// `rows` with one row per environment entry added.
pub open spec fn env_rows(rows: Seq<ConfigRow>, n: nat) -> Seq<ConfigRow>
    decreases n,
{
    if n == 0 {
        rows
    } else {
        env_rows(rows, (n - 1) as nat).push(ConfigRow::EnvEntry((n - 1) as usize))
    }
}

/// Whether there is a stored credential to drop.
pub open spec fn has_login(p: ProfileView) -> bool {
    if p.facts.login_is_oauth {
        p.facts.has_credentials
    } else {
        opt_has_text(p.api_key)
    }
}

/// Whether the form shows an account with an endpoint; the draft wins over what is stored.
pub open spec fn shows_api(d: Option<ConfigDraftView>, p: ProfileView) -> bool {
    match d {
        Some(d) => has_text(d.base_url.text),
        None => !p.facts.is_oauth,
    }
}

/// Detail rows of an existing account.
pub open spec fn account_rows(d: Option<ConfigDraftView>, p: ProfileView) -> Seq<ConfigRow> {
    let api = shows_api(d, p);
    let expanded = d matches Some(x) && x.overrides_expanded;
    let opus = expanded || override_set(d, p.models, ConfigRow::OpusModel);
    let sonnet = expanded || override_set(d, p.models, ConfigRow::SonnetModel);
    let haiku = expanded || override_set(d, p.models, ConfigRow::HaikuModel);
    let subagent = expanded || override_set(d, p.models, ConfigRow::SubagentModel);
    let rows = Seq::<ConfigRow>::empty().push(ConfigRow::Name);
    let rows = override_row(rows, !api, ConfigRow::AutoStart);
    let rows = rows.push(ConfigRow::BaseUrl);
    let rows = override_row(rows, api, ConfigRow::ApiKey);
    let rows = rows.push(ConfigRow::Model);
    let rows = override_row(rows, opus, ConfigRow::OpusModel);
    let rows = override_row(rows, sonnet, ConfigRow::SonnetModel);
    let rows = override_row(rows, haiku, ConfigRow::HaikuModel);
    let rows = override_row(rows, subagent, ConfigRow::SubagentModel);
    let rows = override_row(
        rows,
        !(opus && sonnet && haiku && subagent),
        ConfigRow::ModelOverrideAdd,
    );
    let rows = env_rows(rows, p.env.len());
    let rows = rows.push(ConfigRow::EnvAdd).push(ConfigRow::Login);
    let rows = override_row(rows, has_login(p), ConfigRow::DeleteCreds);
    rows.push(ConfigRow::Delete)
}

impl AppView {
    /// The detail rows for the current selection.
    #[verifier::opaque]
    pub open spec fn config_rows(self) -> Seq<ConfigRow> {
        match self.focused() {
            None => new_form_rows(
                match self.config_draft {
                    Some(d) => has_text(d.base_url.text),
                    None => false,
                },
            ),
            Some(p) => account_rows(self.config_draft, p),
        }
    }

    /// The row under the cursor.
    #[verifier::opaque]
    pub open spec fn current_row(self) -> Option<ConfigRow> {
        if self.ui.config_action_cursor < self.config_rows().len() {
            Some(self.config_rows()[self.ui.config_action_cursor as int])
        } else {
            None
        }
    }
}

fn text_in(s: &str) -> (r: bool)
    ensures
        r == has_text(s@),
{
    text::trim_text(s).unicode_len() > 0
}

fn text_in_opt(s: &Option<String>) -> (r: bool)
    ensures
        r == opt_has_text(text::opt_view(*s)),
{
    match s {
        Some(t) => text_in(t.as_str()),
        None => false,
    }
}

fn is_override_set(d: &Option<ConfigDraft>, m: &ModelSettings, row: ConfigRow) -> (r: bool)
    ensures
        r == override_set(forms::opt_config_draft(*d), m@, row),
{
    reveal(override_set);
    match d {
        Some(d) => match d.field(row) {
            Some(f) => text_in(f.value()),
            None => false,
        },
        None => match row {
            ConfigRow::OpusModel => text_in_opt(&m.opus),
            ConfigRow::SonnetModel => text_in_opt(&m.sonnet),
            ConfigRow::HaikuModel => text_in_opt(&m.haiku),
            ConfigRow::SubagentModel => text_in_opt(&m.subagent),
            _ => false,
        },
    }
}

fn push_if(rows: &mut Vec<ConfigRow>, shown: bool, row: ConfigRow)
    ensures
        final(rows)@ == override_row(old(rows)@, shown, row),
{
    if shown {
        rows.push(row);
    }
}

fn build_account_rows(d: &Option<ConfigDraft>, p: &Profile) -> (r: Vec<ConfigRow>)
    ensures
        r@ == account_rows(forms::opt_config_draft(*d), p@),
{
    let api = match d {
        Some(d) => text_in(d.base_url.value()),
        None => !p.facts.is_oauth,
    };
    let expanded = match d {
        Some(d) => d.overrides_expanded,
        None => false,
    };
    let opus = expanded || is_override_set(d, &p.models, ConfigRow::OpusModel);
    let sonnet = expanded || is_override_set(d, &p.models, ConfigRow::SonnetModel);
    let haiku = expanded || is_override_set(d, &p.models, ConfigRow::HaikuModel);
    let subagent = expanded || is_override_set(d, &p.models, ConfigRow::SubagentModel);
    let logged_in = if p.facts.login_is_oauth {
        p.facts.has_credentials
    } else {
        text_in_opt(&p.api_key)
    };
    let mut rows: Vec<ConfigRow> = Vec::new();
    rows.push(ConfigRow::Name);
    push_if(&mut rows, !api, ConfigRow::AutoStart);
    rows.push(ConfigRow::BaseUrl);
    push_if(&mut rows, api, ConfigRow::ApiKey);
    rows.push(ConfigRow::Model);
    push_if(&mut rows, opus, ConfigRow::OpusModel);
    push_if(&mut rows, sonnet, ConfigRow::SonnetModel);
    push_if(&mut rows, haiku, ConfigRow::HaikuModel);
    push_if(&mut rows, subagent, ConfigRow::SubagentModel);
    push_if(&mut rows, !(opus && sonnet && haiku && subagent), ConfigRow::ModelOverrideAdd);
    let ghost base = rows@;
    let mut i: usize = 0;
    assert(p@.env.len() == p.env@.len());
    while i < p.env.len()
        invariant
            i <= p.env@.len(),
            rows@ == env_rows(base, i as nat),
        decreases p.env@.len() - i,
    {
        rows.push(ConfigRow::EnvEntry(i));
        i = i + 1;
    }
    rows.push(ConfigRow::EnvAdd);
    rows.push(ConfigRow::Login);
    push_if(&mut rows, logged_in, ConfigRow::DeleteCreds);
    rows.push(ConfigRow::Delete);
    rows
}

/// The detail rows for the current selection.
pub fn config_rows(app: &App) -> (r: Vec<ConfigRow>)
    ensures
        r@ == app@.config_rows(),
{
    reveal(AppView::config_rows);
    if app.ui.profile_cursor < app.config.profiles.len() {
        return build_account_rows(&app.config_draft, &app.config.profiles[app.ui.profile_cursor]);
    }
    let api = match &app.config_draft {
        Some(d) => text_in(d.base_url.value()),
        None => false,
    };
    let mut rows: Vec<ConfigRow> = Vec::new();
    rows.push(ConfigRow::Name);
    rows.push(ConfigRow::BaseUrl);
    if api {
        rows.push(ConfigRow::ApiKey);
    }
    rows.push(ConfigRow::Model);
    if !api {
        rows.push(ConfigRow::Login);
    }
    rows.push(ConfigRow::Create);
    rows
}

/// The row under the cursor.
pub fn current_row(app: &App) -> (r: Option<ConfigRow>)
    ensures
        r == app@.current_row(),
{
    reveal(AppView::current_row);
    let rows = config_rows(app);
    if app.ui.config_action_cursor < rows.len() {
        Some(rows[app.ui.config_action_cursor])
    } else {
        None
    }
}

/// Whether a row is not among the given ones.
pub open spec fn lacks(rows: Seq<ConfigRow>, row: ConfigRow) -> bool {
    forall|i: int| 0 <= i < rows.len() ==> rows[i] != row
}

proof fn lemma_env_rows(rows: Seq<ConfigRow>, n: nat)
    requires
        n <= usize::MAX,
    ensures
        env_rows(rows, n).len() == rows.len() + n,
        forall|i: int| 0 <= i < rows.len() ==> env_rows(rows, n)[i] == rows[i],
        forall|k: int|
            0 <= k < n ==> #[trigger] env_rows(rows, n)[rows.len() + k] == ConfigRow::EnvEntry(
                k as usize,
            ),
    decreases n,
{
    if n > 0 {
        lemma_env_rows(rows, (n - 1) as nat);
        let before = env_rows(rows, (n - 1) as nat);
        assert forall|k: int| 0 <= k < n implies #[trigger] env_rows(rows, n)[rows.len() + k]
            == ConfigRow::EnvEntry(k as usize) by {
            if k < n - 1 {
                assert(env_rows(rows, n)[rows.len() + k] == before[rows.len() + k]);
            }
        }
    }
}

proof fn lemma_env_rows_lack(rows: Seq<ConfigRow>, n: nat, row: ConfigRow)
    requires
        lacks(rows, row),
        forall|k: usize| row != ConfigRow::EnvEntry(k),
    ensures
        lacks(env_rows(rows, n), row),
    decreases n,
{
    if n > 0 {
        lemma_env_rows_lack(rows, (n - 1) as nat, row);
    }
}

/// Every environment entry of an account has its row; the rows begin with the name and end with
/// the one that deletes the account. An account shows either the auto-start row or the key row,
/// never both.
pub proof fn account_rows_are_complete(d: Option<ConfigDraftView>, p: ProfileView, k: int)
    requires
        p.env.len() <= usize::MAX,
    ensures
        0 <= k < p.env.len() ==> account_rows(d, p).contains(ConfigRow::EnvEntry(k as usize)),
        account_rows(d, p)[0] == ConfigRow::Name,
        account_rows(d, p).last() == ConfigRow::Delete,
        account_rows(d, p).contains(ConfigRow::ApiKey) == shows_api(d, p),
        account_rows(d, p).contains(ConfigRow::AutoStart) == !shows_api(d, p),
{
    let api = shows_api(d, p);
    let expanded = d matches Some(x) && x.overrides_expanded;
    let opus = expanded || override_set(d, p.models, ConfigRow::OpusModel);
    let sonnet = expanded || override_set(d, p.models, ConfigRow::SonnetModel);
    let haiku = expanded || override_set(d, p.models, ConfigRow::HaikuModel);
    let subagent = expanded || override_set(d, p.models, ConfigRow::SubagentModel);
    let r1 = override_row(
        Seq::<ConfigRow>::empty().push(ConfigRow::Name),
        !api,
        ConfigRow::AutoStart,
    ).push(ConfigRow::BaseUrl);
    let r2 = override_row(r1, api, ConfigRow::ApiKey).push(ConfigRow::Model);
    let r3 = override_row(r2, opus, ConfigRow::OpusModel);
    let r4 = override_row(r3, sonnet, ConfigRow::SonnetModel);
    let r5 = override_row(r4, haiku, ConfigRow::HaikuModel);
    let r6 = override_row(r5, subagent, ConfigRow::SubagentModel);
    let r7 = override_row(
        r6,
        !(opus && sonnet && haiku && subagent),
        ConfigRow::ModelOverrideAdd,
    );
    assert(r2[0] == ConfigRow::Name && r2.len() >= 3);
    assert(api ==> r2[2] == ConfigRow::ApiKey);
    assert(!api ==> r2[1] == ConfigRow::AutoStart);
    assert(r7.len() >= 3 && r7[0] == r2[0] && r7[1] == r2[1] && r7[2] == r2[2]);
    lemma_env_rows(r7, p.env.len());
    let r8 = env_rows(r7, p.env.len());
    let out = account_rows(d, p);
    if 0 <= k < p.env.len() {
        assert(r8[r7.len() + k] == ConfigRow::EnvEntry(k as usize));
        assert(out[r7.len() + k] == r8[r7.len() + k]);
    }
    assert(out[0] == r8[0] && out[1] == r8[1] && out[2] == r8[2]);
    let other = if api {
        ConfigRow::AutoStart
    } else {
        ConfigRow::ApiKey
    };
    assert(lacks(r2, other));
    assert(lacks(r3, other));
    assert(lacks(r4, other));
    assert(lacks(r5, other));
    assert(lacks(r6, other));
    assert(lacks(r7, other));
    lemma_env_rows_lack(r7, p.env.len(), other);
    assert(lacks(out, other));
}

// ── drafts ──────────────────────────────────────────────────────────────────

/// A text, or nothing.
pub open spec fn or_blank(s: Option<Seq<char>>) -> Seq<char> {
    match s {
        Some(t) => t,
        None => ""@,
    }
}

impl ModelSettingsView {
    /// No choices made.
    pub open spec fn unset() -> ModelSettingsView {
        ModelSettingsView { default: None, opus: None, sonnet: None, haiku: None, subagent: None }
    }
}

impl AppConfigView {
    pub open spec fn models_of(self, name: Seq<char>) -> ModelSettingsView {
        match self.find(name) {
            Some(p) => p.models,
            None => ModelSettingsView::unset(),
        }
    }

    pub open spec fn base_url_of(self, name: Seq<char>) -> Seq<char> {
        match self.find(name) {
            Some(p) => or_blank(p.base_url),
            None => ""@,
        }
    }

    pub open spec fn api_key_of(self, name: Seq<char>) -> Seq<char> {
        match self.find(name) {
            Some(p) => or_blank(p.api_key),
            None => ""@,
        }
    }

    pub open spec fn env_value_of(self, name: Seq<char>, i: usize) -> Seq<char> {
        match self.find(name) {
            Some(p) => if i < p.env.len() {
                p.env[i as int].value
            } else {
                ""@
            },
            None => ""@,
        }
    }

    /// A draft holding what is stored of an account.
    pub open spec fn draft_of(self, name: Seq<char>) -> ConfigDraftView {
        let m = self.models_of(name);
        ConfigDraftView {
            editing_name: Some(name),
            name: InputView::of(name),
            base_url: InputView::of(self.base_url_of(name)),
            api_key: InputView::of(self.api_key_of(name)),
            model: InputView::of(or_blank(m.default)),
            opus_model: InputView::of(or_blank(m.opus)),
            sonnet_model: InputView::of(or_blank(m.sonnet)),
            haiku_model: InputView::of(or_blank(m.haiku)),
            subagent_model: InputView::of(or_blank(m.subagent)),
            ..ConfigDraftView::blank()
        }
    }
}

/// The stored value behind a row, used to undo an edit and to reseed after a commit.
pub open spec fn committed_value(
    p: Option<ProfileView>,
    name: Seq<char>,
    row: ConfigRow,
) -> Seq<char> {
    match row {
        ConfigRow::Name => name,
        ConfigRow::BaseUrl => match p {
            Some(p) => or_blank(p.base_url),
            None => ""@,
        },
        ConfigRow::ApiKey => match p {
            Some(p) => or_blank(p.api_key),
            None => ""@,
        },
        ConfigRow::Model => match p {
            Some(p) => or_blank(p.models.default),
            None => ""@,
        },
        ConfigRow::OpusModel => match p {
            Some(p) => or_blank(p.models.opus),
            None => ""@,
        },
        ConfigRow::SonnetModel => match p {
            Some(p) => or_blank(p.models.sonnet),
            None => ""@,
        },
        ConfigRow::HaikuModel => match p {
            Some(p) => or_blank(p.models.haiku),
            None => ""@,
        },
        ConfigRow::SubagentModel => match p {
            Some(p) => or_blank(p.models.subagent),
            None => ""@,
        },
        ConfigRow::EnvEntry(i) => match p {
            Some(p) => if i < p.env.len() {
                p.env[i as int].value
            } else {
                ""@
            },
            None => ""@,
        },
        _ => ""@,
    }
}

fn value_or_blank(s: &Option<String>) -> (r: String)
    ensures
        r@ == or_blank(text::opt_view(*s)),
{
    match s {
        Some(t) => t.clone(),
        None => "".to_string(),
    }
}

/// The stored value behind a row.
pub fn row_committed_value(p: Option<&Profile>, name: &str, row: ConfigRow) -> (r: String)
    ensures
        r@ == committed_value(
            match p {
                Some(p) => Some(p@),
                None => None,
            },
            name@,
            row,
        ),
{
    if let ConfigRow::Name = row {
        return name.to_string();
    }
    match p {
        None => "".to_string(),
        Some(p) => match row {
            ConfigRow::BaseUrl => value_or_blank(&p.base_url),
            ConfigRow::ApiKey => value_or_blank(&p.api_key),
            ConfigRow::Model => value_or_blank(&p.models.default),
            ConfigRow::OpusModel => value_or_blank(&p.models.opus),
            ConfigRow::SonnetModel => value_or_blank(&p.models.sonnet),
            ConfigRow::HaikuModel => value_or_blank(&p.models.haiku),
            ConfigRow::SubagentModel => value_or_blank(&p.models.subagent),
            ConfigRow::EnvEntry(i) => {
                if i < p.env.len() {
                    p.env[i].value.clone()
                } else {
                    "".to_string()
                }
            },
            _ => "".to_string(),
        },
    }
}

fn models_of(cfg: &AppConfig, name: &str) -> (r: ModelSettings)
    ensures
        r@ == cfg@.models_of(name@),
{
    match cfg.find(name) {
        Some(p) => p.models.duplicate(),
        None => ModelSettings {
            default: None,
            opus: None,
            sonnet: None,
            haiku: None,
            subagent: None,
        },
    }
}

fn base_url_of(cfg: &AppConfig, name: &str) -> (r: String)
    ensures
        r@ == cfg@.base_url_of(name@),
{
    match cfg.find(name) {
        Some(p) => value_or_blank(&p.base_url),
        None => "".to_string(),
    }
}

fn api_key_of(cfg: &AppConfig, name: &str) -> (r: String)
    ensures
        r@ == cfg@.api_key_of(name@),
{
    match cfg.find(name) {
        Some(p) => value_or_blank(&p.api_key),
        None => "".to_string(),
    }
}

fn env_value_of(cfg: &AppConfig, name: &str, i: usize) -> (r: String)
    ensures
        r@ == cfg@.env_value_of(name@, i),
{
    match cfg.find(name) {
        Some(p) => {
            assert(p@.env.len() == p.env@.len());
            if i < p.env.len() {
                p.env[i].value.clone()
            } else {
                "".to_string()
            }
        },
        None => "".to_string(),
    }
}

/// A draft holding what is stored of an account.
pub fn build_draft_existing(cfg: &AppConfig, name: &str) -> (r: ConfigDraft)
    ensures
        r@ == cfg@.draft_of(name@),
{
    let m = models_of(cfg, name);
    ConfigDraft {
        editing_name: Some(name.to_string()),
        name: InputState::new(name),
        base_url: InputState::new(base_url_of(cfg, name).as_str()),
        api_key: InputState::new(api_key_of(cfg, name).as_str()),
        model: InputState::new(value_or_blank(&m.default).as_str()),
        opus_model: InputState::new(value_or_blank(&m.opus).as_str()),
        sonnet_model: InputState::new(value_or_blank(&m.sonnet).as_str()),
        haiku_model: InputState::new(value_or_blank(&m.haiku).as_str()),
        subagent_model: InputState::new(value_or_blank(&m.subagent).as_str()),
        env_value: InputState::new(""),
        env_new_key: InputState::new(""),
        active: None,
        armed_delete: false,
        relogin_chain: false,
        overrides_expanded: false,
        captured_login: None,
    }
}

impl ConfigDraftView {
    /// No row owns the keyboard.
    pub open spec fn idle(self) -> ConfigDraftView {
        ConfigDraftView { active: None, ..self }
    }

    /// A row's editor is open, its caret behind the text.
    pub open spec fn opened(self, row: ConfigRow) -> ConfigDraftView {
        let d = ConfigDraftView { active: Some(row), ..self };
        match d.field(row) {
            Some(f) => d.with_field(row, f.ended()),
            None => d,
        }
    }

    /// The buffer behind a row replaced by a text.
    pub open spec fn reseeded(self, row: ConfigRow, value: Seq<char>) -> ConfigDraftView {
        match self.field(row) {
            Some(_) => self.with_field(row, InputView::of(value)),
            None => self,
        }
    }

    /// The buffer behind a row after an editing key.
    pub open spec fn typed(self, row: ConfigRow, key: Key) -> ConfigDraftView {
        match self.field(row) {
            Some(f) => self.with_field(row, f.keyed(key)),
            None => self,
        }
    }
}

impl ConfigDraft {
    /// Opens a row's editor.
    pub fn open(&mut self, row: ConfigRow)
        ensures
            final(self)@ == old(self)@.opened(row),
    {
        self.active = Some(row);
        if let Some(f) = self.field_mut(row) {
            f.end();
        }
    }

    /// Replaces the buffer behind a row.
    pub fn reseed(&mut self, row: ConfigRow, value: &str)
        ensures
            final(self)@ == old(self)@.reseeded(row, value@),
    {
        if let Some(f) = self.field_mut(row) {
            *f = InputState::new(value);
        }
    }

    /// Applies an editing key to the buffer behind a row.
    pub fn type_key(&mut self, row: ConfigRow, key: Key)
        ensures
            final(self)@ == old(self)@.typed(row, key),
    {
        if let Some(f) = self.field_mut(row) {
            settings::apply_input_edit(f, key);
        }
    }
}

impl AppView {
    /// The draft replaced.
    #[verifier::opaque]
    pub open spec fn drafting(self, d: Option<ConfigDraftView>) -> AppView {
        AppView { config_draft: d, ..self }
    }

    /// The account being edited.
    pub open spec fn editing(self) -> Option<Seq<char>> {
        match self.config_draft {
            Some(d) => d.editing_name,
            None => None,
        }
    }

    /// No row of the draft owns the keyboard.
    #[verifier::opaque]
    pub open spec fn draft_idle(self) -> AppView {
        match self.config_draft {
            Some(d) => self.drafting(Some(d.idle())),
            None => self,
        }
    }

    #[verifier::opaque]
    pub open spec fn config_entered(self) -> AppView {
        let d = match self.focused() {
            Some(p) => self.config.draft_of(p.name),
            None => ConfigDraftView::blank(),
        };
        self.drafting(Some(d)).on(
            Ui { config_action_cursor: 0, config_focus: ConfigFocus::Actions, ..self.ui },
        )
    }

    /// Leaving the form drops the draft; a login captured for a new account is lost with it,
    /// which is said.
    #[verifier::opaque]
    pub open spec fn config_left(self) -> AppView {
        let dropped = self.config_draft matches Some(d) && d.editing_name is None
            && d.captured_login is Some;
        let s = self.drafting(None).on(Ui { config_focus: ConfigFocus::Profiles, ..self.ui });
        if dropped {
            s.toasted(ToastKind::Warning, "the captured login was dropped with the form"@)
        } else {
            s
        }
    }

    /// The delete row armed or disarmed.
    #[verifier::opaque]
    pub open spec fn delete_armed(self, armed: bool) -> AppView {
        match self.config_draft {
            Some(d) => self.drafting(Some(ConfigDraftView { armed_delete: armed, ..d })),
            None => self,
        }
    }
}

/// Replaces the draft.
pub fn set_draft(app: &mut App, d: Option<ConfigDraft>)
    ensures
        final(app)@ == old(app)@.drafting(forms::opt_config_draft(d)),
{
    reveal(AppView::drafting);
    app.config_draft = d;
}

fn editing_name(app: &App) -> (r: Option<String>)
    ensures
        text::opt_view(r) == app@.editing(),
{
    match &app.config_draft {
        Some(d) => text::clone_opt(&d.editing_name),
        None => None,
    }
}

fn close_editor(app: &mut App)
    ensures
        final(app)@ == old(app)@.draft_idle(),
{
    reveal(AppView::draft_idle);
    reveal(AppView::drafting);
    if let Some(d) = app.config_draft.as_mut() {
        d.active = None;
    }
}

/// Moves into the detail pane of the selection.
pub fn enter_config_detail(app: &mut App)
    ensures
        final(app)@ == old(app)@.config_entered(),
{
    reveal(AppView::config_entered);
    let d = if app.ui.profile_cursor < app.config.profiles.len() {
        let name = app.config.profiles[app.ui.profile_cursor].name.clone();
        build_draft_existing(&app.config, name.as_str())
    } else {
        forms::build_draft_new()
    };
    let ui = Ui { config_action_cursor: 0, config_focus: ConfigFocus::Actions, ..app.ui };
    set_draft(app, Some(d));
    app.set_ui(ui);
}

/// Moves back to the account list.
pub fn leave_config_detail(app: &mut App)
    ensures
        final(app)@ == old(app)@.config_left(),
{
    reveal(AppView::config_left);
    let dropped = match &app.config_draft {
        Some(d) => d.editing_name.is_none() && d.captured_login.is_some(),
        None => false,
    };
    let ui = Ui { config_focus: ConfigFocus::Profiles, ..app.ui };
    set_draft(app, None);
    app.set_ui(ui);
    if dropped {
        app.toast(ToastKind::Warning, "the captured login was dropped with the form");
    }
}

fn arm_delete(app: &mut App, armed: bool)
    ensures
        final(app)@ == old(app)@.delete_armed(armed),
{
    reveal(AppView::delete_armed);
    reveal(AppView::drafting);
    if let Some(d) = app.config_draft.as_mut() {
        d.armed_delete = armed;
    }
}

// ── model rows ──────────────────────────────────────────────────────────────

/// A trimmed text, or none when it is empty.
pub open spec fn non_empty(s: Seq<char>) -> Option<Seq<char>> {
    if s.len() == 0 {
        None
    } else {
        Some(s)
    }
}

impl ModelSettingsView {
    /// The choices with the one behind a row replaced; an empty text clears it.
    pub open spec fn with(self, field: ConfigRow, raw: Seq<char>) -> ModelSettingsView {
        match field {
            ConfigRow::Model => ModelSettingsView { default: non_empty(raw), ..self },
            ConfigRow::OpusModel => ModelSettingsView { opus: non_empty(raw), ..self },
            ConfigRow::SonnetModel => ModelSettingsView { sonnet: non_empty(raw), ..self },
            ConfigRow::HaikuModel => ModelSettingsView { haiku: non_empty(raw), ..self },
            ConfigRow::SubagentModel => ModelSettingsView { subagent: non_empty(raw), ..self },
            _ => self,
        }
    }
}

/// Replaces the model choice behind a row; an empty text clears it.
pub fn apply_model_field(models: &mut ModelSettings, field: ConfigRow, raw: &str)
    ensures
        final(models)@ == old(models)@.with(field, raw@),
{
    let scalar: Option<String> = if raw.unicode_len() == 0 {
        None
    } else {
        Some(raw.to_string())
    };
    match field {
        ConfigRow::Model => {
            models.default = scalar;
        },
        ConfigRow::OpusModel => {
            models.opus = scalar;
        },
        ConfigRow::SonnetModel => {
            models.sonnet = scalar;
        },
        ConfigRow::HaikuModel => {
            models.haiku = scalar;
        },
        ConfigRow::SubagentModel => {
            models.subagent = scalar;
        },
        _ => {},
    }
}

impl AppView {
    #[verifier::opaque]
    pub open spec fn model_field_committed(self, field: ConfigRow) -> AppView {
        match self.editing() {
            None => self,
            Some(name) => {
                let raw = match self.config_draft->0.field(field) {
                    Some(f) => f.trimmed(),
                    None => ""@,
                };
                self.asked(
                    RequestView::EditModel {
                        name,
                        models: self.config.models_of(name).with(field, raw),
                        field: Some(field),
                    },
                )
            },
        }
    }

    /// Space on the model row: the next alias, stored for an account, kept in the draft for
    /// one that does not exist yet.
    #[verifier::opaque]
    pub open spec fn model_cycled(self) -> AppView {
        match self.config_draft {
            None => self,
            Some(d) => match d.editing_name {
                None => self.drafting(
                    Some(
                        ConfigDraftView {
                            model: InputView::of(
                                or_blank(model::preset_successor(d.model.trimmed_some())),
                            ),
                            ..d
                        },
                    ),
                ),
                Some(name) => {
                    let m = self.config.models_of(name);
                    self.asked(
                        RequestView::EditModel {
                            name,
                            models: ModelSettingsView {
                                default: model::preset_successor(m.default),
                                ..m
                            },
                            field: None,
                        },
                    )
                },
            },
        }
    }

    /// Once a model choice was stored, its buffer shows what was stored.
    #[verifier::opaque]
    pub open spec fn model_edited(
        self,
        name: Seq<char>,
        field: Option<ConfigRow>,
        failure: Option<Seq<char>>,
    ) -> AppView {
        match failure {
            Some(e) => self.toasted(ToastKind::Danger, "model update failed: "@ + e),
            None => match self.config_draft {
                None => self,
                Some(d) => match field {
                    Some(row) => self.drafting(
                        Some(
                            d.reseeded(
                                row,
                                committed_value(self.config.find(name), name, row),
                            ).idle(),
                        ),
                    ),
                    None => self.drafting(
                        Some(
                            ConfigDraftView {
                                model: InputView::of(
                                    or_blank(self.config.models_of(name).default),
                                ),
                                ..d
                            },
                        ),
                    ),
                },
            },
        }
    }
}

/// Hands a typed model choice out to be stored.
pub fn commit_model_field(app: &mut App, field: ConfigRow)
    ensures
        final(app)@ == old(app)@.model_field_committed(field),
{
    reveal(AppView::model_field_committed);
    if let Some(name) = editing_name(app) {
        let raw: String = match &app.config_draft {
            Some(d) => match d.field(field) {
                Some(f) => f.trimmed().to_string(),
                None => "".to_string(),
            },
            None => "".to_string(),
        };
        let mut models = models_of(&app.config, name.as_str());
        apply_model_field(&mut models, field, raw.as_str());
        app.ask(Request::EditModel { name, models, field: Some(field) });
    }
}

/// Advances the model alias.
pub fn cycle_model(app: &mut App)
    ensures
        final(app)@ == old(app)@.model_cycled(),
{
    reveal(AppView::model_cycled);
    if app.config_draft.is_none() {
        return;
    }
    match editing_name(app) {
        Some(name) => {
            let mut models = models_of(&app.config, name.as_str());
            let next = match &models.default {
                Some(c) => model::next_model_preset(Some(c.as_str())),
                None => model::next_model_preset(None),
            };
            models.default = next;
            app.ask(Request::EditModel { name, models, field: None });
        },
        None => {
            reveal(AppView::drafting);
            if let Some(d) = app.config_draft.as_mut() {
                let current = d.model.trimmed_some();
                let next = match &current {
                    Some(c) => model::next_model_preset(Some(c.as_str())),
                    None => model::next_model_preset(None),
                };
                let value = value_or_blank(&next);
                d.model = InputState::new(value.as_str());
            }
        },
    }
}

/// Goes on after a model choice was stored or refused.
pub fn finish_model_edit(
    app: &mut App,
    name: &str,
    field: Option<ConfigRow>,
    failure: Option<String>,
)
    ensures
        final(app)@ == old(app)@.model_edited(name@, field, text::opt_view(failure)),
{
    reveal(AppView::model_edited);
    reveal(AppView::drafting);
    match failure {
        Some(e) => {
            let body = text::joined("model update failed: ", e.as_str());
            app.toast(ToastKind::Danger, body.as_str());
        },
        None => {
            match field {
                Some(row) => {
                    let value = row_committed_value(app.config.find(name), name, row);
                    if let Some(d) = app.config_draft.as_mut() {
                        d.reseed(row, value.as_str());
                        d.active = None;
                    }
                },
                None => {
                    let m = models_of(&app.config, name);
                    let value = value_or_blank(&m.default);
                    if let Some(d) = app.config_draft.as_mut() {
                        d.model = InputState::new(value.as_str());
                    }
                },
            }
        },
    }
}

// ── environment rows ────────────────────────────────────────────────────────

/// Whether a text holds white space or an equals sign.
pub open spec fn bad_env_key(s: Seq<char>) -> bool {
    exists|i: int| 0 <= i < s.len() && (text::is_space(#[trigger] s[i]) || s[i] == '=')
}

/// Whether a text holds white space or an equals sign.
pub fn is_bad_env_key(s: &str) -> (r: bool)
    ensures
        r == bad_env_key(s@),
{
    let n: usize = s.unicode_len();
    let mut i: usize = 0;
    while i < n
        invariant
            i <= n,
            n == s@.len(),
            forall|j: int| 0 <= j < i ==> !text::is_space(#[trigger] s@[j]) && s@[j] != '=',
        decreases n - i,
    {
        let c = s.get_char(i);
        if text::space(c) || c == '=' {
            assert(text::is_space(s@[i as int]) || s@[i as int] == '=');
            return true;
        }
        i = i + 1;
    }
    false
}

/// The first place of a row in a list of rows, from `k` on.
pub open spec fn row_place(rows: Seq<ConfigRow>, row: ConfigRow, k: nat) -> Option<usize>
    decreases rows.len() - k,
{
    if k >= rows.len() {
        None
    } else if rows[k as int] == row {
        Some(k as usize)
    } else {
        row_place(rows, row, k + 1)
    }
}

fn place_of(rows: &Vec<ConfigRow>, row: ConfigRow) -> (r: Option<usize>)
    ensures
        r == row_place(rows@, row, 0),
{
    let mut i: usize = 0;
    while i < rows.len()
        invariant
            i <= rows@.len(),
            row_place(rows@, row, 0) == row_place(rows@, row, i as nat),
        decreases rows@.len() - i,
    {
        if rows[i] == row {
            return Some(i);
        }
        i = i + 1;
    }
    None
}

impl AppView {
    /// The cursor on a row, when the row is shown.
    #[verifier::opaque]
    pub open spec fn cursor_on(self, row: ConfigRow) -> AppView {
        match row_place(self.config_rows(), row, 0) {
            Some(i) => self.on(Ui { config_action_cursor: i, ..self.ui }),
            None => self,
        }
    }

    #[verifier::opaque]
    pub open spec fn env_value_opened(self, i: usize) -> AppView {
        match self.editing() {
            None => self,
            Some(name) => self.drafting(
                Some(
                    ConfigDraftView {
                        env_value: InputView::of(self.config.env_value_of(name, i)),
                        active: Some(ConfigRow::EnvEntry(i)),
                        ..self.config_draft->0
                    },
                ),
            ),
        }
    }

    #[verifier::opaque]
    pub open spec fn env_add_opened(self) -> AppView {
        match self.config_draft {
            None => self,
            Some(d) => self.drafting(
                Some(
                    ConfigDraftView {
                        env_new_key: InputView::of(""@),
                        active: Some(ConfigRow::EnvAdd),
                        ..d
                    },
                ),
            ),
        }
    }

    #[verifier::opaque]
    pub open spec fn env_value_committed(self, i: usize) -> AppView {
        match self.editing() {
            None => self,
            Some(name) => match self.config.find(name) {
                None => self.draft_idle(),
                Some(p) => self.asked(
                    RequestView::EnvSetValue {
                        name,
                        env: if i < p.env.len() {
                            model::env_put(
                                p.env,
                                p.env[i as int].key,
                                self.config_draft->0.env_value.trimmed(),
                            )
                        } else {
                            p.env
                        },
                        index: i,
                    },
                ),
            },
        }
    }

    #[verifier::opaque]
    pub open spec fn env_value_saved(
        self,
        name: Seq<char>,
        i: usize,
        failure: Option<Seq<char>>,
    ) -> AppView {
        match failure {
            Some(e) => self.toasted(ToastKind::Danger, "env update failed: "@ + e),
            None => match self.config_draft {
                None => self,
                Some(d) => self.drafting(
                    Some(
                        ConfigDraftView {
                            env_value: InputView::of(self.config.env_value_of(name, i)),
                            active: None,
                            ..d
                        },
                    ),
                ),
            },
        }
    }

    #[verifier::opaque]
    pub open spec fn env_key_committed(self) -> AppView {
        match self.editing() {
            None => self,
            Some(name) => {
                let key = self.config_draft->0.env_new_key.trimmed();
                if key.len() == 0 {
                    self.draft_idle()
                } else if bad_env_key(key) {
                    self.toasted(ToastKind::Danger, "env key can't contain spaces or '='"@)
                } else {
                    self.asked(RequestView::ClassifyEnv { name, key })
                }
            },
        }
    }

    /// A key that exists elsewhere is asked about; a new one is added.
    #[verifier::opaque]
    pub open spec fn env_key_classified(
        self,
        name: Seq<char>,
        key: Seq<char>,
        collision: Option<EnvKeyCollisionView>,
    ) -> AppView {
        let s = self.draft_idle();
        match collision {
            Some(c) => s.with_modal(
                ModalView::EnvCollision(forms::collision_form(name, key, c, s.host)),
            ),
            None => s.env_key_added(name, key),
        }
    }

    /// A key enters with an empty value; one that is there is edited in place.
    #[verifier::opaque]
    pub open spec fn env_key_added(self, name: Seq<char>, key: Seq<char>) -> AppView {
        match self.config.find(name) {
            None => self,
            Some(p) => if text::position(model::env_keys(p.env), key) is Some {
                self.env_focused(name, key)
            } else {
                self.asked(
                    RequestView::EnvAddKey { name, env: model::env_put(p.env, key, ""@), key },
                )
            },
        }
    }

    #[verifier::opaque]
    pub open spec fn env_key_saved(
        self,
        name: Seq<char>,
        key: Seq<char>,
        failure: Option<Seq<char>>,
    ) -> AppView {
        match failure {
            Some(e) => self.toasted(ToastKind::Danger, "env update failed: "@ + e),
            None => self.env_focused(name, key),
        }
    }

    /// The cursor on an entry's row, its value editor open.
    #[verifier::opaque]
    pub open spec fn env_focused(self, name: Seq<char>, key: Seq<char>) -> AppView {
        match self.config.find(name) {
            None => self,
            Some(p) => match text::position(model::env_keys(p.env), key) {
                None => self,
                Some(i) => self.cursor_on(ConfigRow::EnvEntry(i as usize)).env_value_opened(
                    i as usize,
                ),
            },
        }
    }

    #[verifier::opaque]
    pub open spec fn env_field_removed(self) -> AppView {
        match (self.current_row(), self.editing()) {
            (Some(ConfigRow::EnvEntry(i)), Some(name)) => match self.config.find(name) {
                Some(p) => if i < p.env.len() {
                    self.asked(
                        RequestView::EnvRemove {
                            name,
                            env: p.env.remove(i as int),
                            key: p.env[i as int].key,
                        },
                    )
                } else {
                    self
                },
                None => self,
            },
            _ => self,
        }
    }

    #[verifier::opaque]
    pub open spec fn env_removal_saved(self, key: Seq<char>, failure: Option<Seq<char>>) -> AppView {
        match failure {
            Some(e) => self.toasted(ToastKind::Danger, "env remove failed: "@ + e),
            None => {
                let s = self.draft_idle();
                s.on(
                    Ui {
                        config_action_cursor: settings::row_clamped(
                            s.ui.config_action_cursor,
                            text::monus(s.config_rows().len() as int, 1) as usize,
                        ),
                        ..s.ui
                    },
                ).toasted(ToastKind::Success, "removed env '"@ + key + "'"@)
            },
        }
    }

    #[verifier::opaque]
    pub open spec fn collision_resolved(
        self,
        name: Seq<char>,
        key: Seq<char>,
        existing: Option<usize>,
        choice: EnvCollisionChoice,
    ) -> AppView {
        match choice {
            EnvCollisionChoice::Overwrite => self.env_key_added(name, key),
            EnvCollisionChoice::KeepExisting => match existing {
                Some(i) => self.cursor_on(ConfigRow::EnvEntry(i)),
                None => self,
            },
            EnvCollisionChoice::Cancel => self,
        }
    }
}

/// Puts the cursor on a row, when the row is shown.
pub fn put_cursor_on(app: &mut App, row: ConfigRow)
    ensures
        final(app)@ == old(app)@.cursor_on(row),
{
    reveal(AppView::cursor_on);
    let rows = config_rows(app);
    if let Some(i) = place_of(&rows, row) {
        let ui = Ui { config_action_cursor: i, ..app.ui };
        app.set_ui(ui);
    }
}

/// Opens the value editor of an environment entry.
pub fn enter_env_value_edit(app: &mut App, i: usize)
    ensures
        final(app)@ == old(app)@.env_value_opened(i),
{
    reveal(AppView::env_value_opened);
    reveal(AppView::drafting);
    if let Some(name) = editing_name(app) {
        let value = env_value_of(&app.config, name.as_str(), i);
        if let Some(d) = app.config_draft.as_mut() {
            d.env_value = InputState::new(value.as_str());
            d.active = Some(ConfigRow::EnvEntry(i));
        }
    }
}

/// Opens the key editor of a new environment entry.
pub fn enter_env_add_edit(app: &mut App)
    ensures
        final(app)@ == old(app)@.env_add_opened(),
{
    reveal(AppView::env_add_opened);
    reveal(AppView::drafting);
    if let Some(d) = app.config_draft.as_mut() {
        d.env_new_key = InputState::new("");
        d.active = Some(ConfigRow::EnvAdd);
    }
}

/// Hands a typed environment value out to be stored.
pub fn commit_env_value(app: &mut App, i: usize)
    ensures
        final(app)@ == old(app)@.env_value_committed(i),
{
    reveal(AppView::env_value_committed);
    if let Some(name) = editing_name(app) {
        let value: String = match &app.config_draft {
            Some(d) => d.env_value.trimmed().to_string(),
            None => "".to_string(),
        };
        let env = match app.config.find(name.as_str()) {
            Some(p) => {
                assert(p@.env.len() == p.env@.len());
                if i < p.env.len() {
                    assert(p@.env[i as int] == p.env@[i as int]@);
                    Some(model::env_with(&p.env, p.env[i].key.as_str(), value.as_str()))
                } else {
                    Some(model::clone_env_vars(&p.env))
                }
            },
            None => None,
        };
        match env {
            Some(env) => app.ask(Request::EnvSetValue { name, env, index: i }),
            None => close_editor(app),
        }
    }
}

/// Goes on after an environment value was stored or refused.
pub fn finish_env_value(app: &mut App, name: &str, i: usize, failure: Option<String>)
    ensures
        final(app)@ == old(app)@.env_value_saved(name@, i, text::opt_view(failure)),
{
    reveal(AppView::env_value_saved);
    reveal(AppView::drafting);
    match failure {
        Some(e) => {
            let body = text::joined("env update failed: ", e.as_str());
            app.toast(ToastKind::Danger, body.as_str());
        },
        None => {
            let value = env_value_of(&app.config, name, i);
            if let Some(d) = app.config_draft.as_mut() {
                d.env_value = InputState::new(value.as_str());
                d.active = None;
            }
        },
    }
}

/// Looks at a typed environment key.
pub fn commit_env_new_key(app: &mut App)
    ensures
        final(app)@ == old(app)@.env_key_committed(),
{
    reveal(AppView::env_key_committed);
    if let Some(name) = editing_name(app) {
        let key: String = match &app.config_draft {
            Some(d) => d.env_new_key.trimmed().to_string(),
            None => "".to_string(),
        };
        if key.as_str().unicode_len() == 0 {
            close_editor(app);
        } else if is_bad_env_key(key.as_str()) {
            app.toast(ToastKind::Danger, "env key can't contain spaces or '='");
        } else {
            app.ask(Request::ClassifyEnv { name, key });
        }
    }
}

/// Puts the cursor on an entry's row and opens its value editor.
pub fn focus_env(app: &mut App, name: &str, key: &str)
    ensures
        final(app)@ == old(app)@.env_focused(name@, key@),
{
    reveal(AppView::env_focused);
    let place: Option<usize> = match app.config.find(name) {
        Some(p) => model::env_position(&p.env, key),
        None => None,
    };
    if let Some(i) = place {
        put_cursor_on(app, ConfigRow::EnvEntry(i));
        enter_env_value_edit(app, i);
    }
}

/// Adds an environment key, or edits it in place when it is there.
pub fn env_add_commit(app: &mut App, name: &str, key: &str)
    ensures
        final(app)@ == old(app)@.env_key_added(name@, key@),
{
    reveal(AppView::env_key_added);
    let mut known = false;
    let env = match app.config.find(name) {
        Some(p) => {
            known = model::env_position(&p.env, key).is_some();
            if known {
                None
            } else {
                Some(model::env_with(&p.env, key, ""))
            }
        },
        None => None,
    };
    match env {
        Some(env) => app.ask(
            Request::EnvAddKey { name: name.to_string(), env, key: key.to_string() },
        ),
        None => {
            if known {
                focus_env(app, name, key);
            }
        },
    }
}

/// Goes on after a typed key was looked up.
pub fn finish_env_classify(
    app: &mut App,
    name: String,
    key: String,
    collision: Option<EnvKeyCollision>,
)
    ensures
        final(app)@ == old(app)@.env_key_classified(
            name@,
            key@,
            forms::opt_env_key_collision(collision),
        ),
{
    reveal(AppView::env_key_classified);
    close_editor(app);
    match collision {
        Some(c) => {
            let form = forms::env_collision_form(name, key, c, &app.host);
            app.push_modal(Modal::EnvCollision(form));
        },
        None => env_add_commit(app, name.as_str(), key.as_str()),
    }
}

/// Goes on after a new key was stored or refused.
pub fn finish_env_add(app: &mut App, name: &str, key: &str, failure: Option<String>)
    ensures
        final(app)@ == old(app)@.env_key_saved(name@, key@, text::opt_view(failure)),
{
    reveal(AppView::env_key_saved);
    match failure {
        Some(e) => {
            let body = text::joined("env update failed: ", e.as_str());
            app.toast(ToastKind::Danger, body.as_str());
        },
        None => focus_env(app, name, key),
    }
}

/// Hands the removal of the environment entry under the cursor out.
pub fn remove_env_field(app: &mut App)
    ensures
        final(app)@ == old(app)@.env_field_removed(),
{
    reveal(AppView::env_field_removed);
    if let Some(ConfigRow::EnvEntry(i)) = current_row(app) {
        if let Some(name) = editing_name(app) {
            let change = match app.config.find(name.as_str()) {
                Some(p) => {
                    assert(p@.env.len() == p.env@.len());
                    if i < p.env.len() {
                        assert(p@.env[i as int] == p.env@[i as int]@);
                        Some((model::env_without(&p.env, i), p.env[i].key.clone()))
                    } else {
                        None
                    }
                },
                None => None,
            };
            if let Some((env, key)) = change {
                app.ask(Request::EnvRemove { name, env, key });
            }
        }
    }
}

/// Goes on after an environment entry was removed or not.
pub fn finish_env_remove(app: &mut App, key: &str, failure: Option<String>)
    ensures
        final(app)@ == old(app)@.env_removal_saved(key@, text::opt_view(failure)),
{
    reveal(AppView::env_removal_saved);
    match failure {
        Some(e) => {
            let body = text::joined("env remove failed: ", e.as_str());
            app.toast(ToastKind::Danger, body.as_str());
        },
        None => {
            close_editor(app);
            let rows = config_rows(app);
            let last: usize = if rows.len() > 0 {
                rows.len() - 1
            } else {
                0
            };
            let row: usize = settings::clamp_row(app.ui.config_action_cursor, last);
            let ui = Ui { config_action_cursor: row, ..app.ui };
            app.set_ui(ui);
            let body = text::joined3("removed env '", key, "'");
            app.toast(ToastKind::Success, body.as_str());
        },
    }
}

/// Runs a choice of the key-collision prompt.
pub fn run_env_collision_choice(
    app: &mut App,
    name: &str,
    key: &str,
    existing: Option<usize>,
    choice: EnvCollisionChoice,
)
    ensures
        final(app)@ == old(app)@.collision_resolved(name@, key@, existing, choice),
{
    reveal(AppView::collision_resolved);
    match choice {
        EnvCollisionChoice::Overwrite => env_add_commit(app, name, key),
        EnvCollisionChoice::KeepExisting => {
            if let Some(i) = existing {
                put_cursor_on(app, ConfigRow::EnvEntry(i));
            }
        },
        EnvCollisionChoice::Cancel => {},
    }
}

// ── name, endpoint, creation, deletion ──────────────────────────────────────

impl AppConfigView {
    pub open spec fn with_auto_start(self, i: int, on: bool) -> AppConfigView {
        AppConfigView {
            profiles: self.profiles.update(i, ProfileView { auto_start: on, ..self.profiles[i] }),
            ..self
        }
    }
}

impl AppView {
    #[verifier::opaque]
    pub open spec fn rename_committed(self) -> AppView {
        match self.editing() {
            None => self,
            Some(old_name) => {
                let new_name = self.config_draft->0.name.trimmed();
                if new_name == old_name {
                    self.draft_idle()
                } else {
                    self.asked(RequestView::CheckRename { old_name, new_name })
                }
            },
        }
    }

    #[verifier::opaque]
    pub open spec fn renamed(
        self,
        old_name: Seq<char>,
        new_name: Seq<char>,
        failure: Option<Seq<char>>,
    ) -> AppView {
        match failure {
            Some(e) => self.toasted(ToastKind::Danger, "rename failed: "@ + e),
            None => {
                let s = self.asked(RequestView::RefreshTokens).asked(RequestView::NoteStateTime);
                let s = match s.config_draft {
                    Some(d) => s.drafting(
                        Some(
                            ConfigDraftView {
                                editing_name: Some(new_name),
                                name: InputView::of(new_name),
                                active: None,
                                ..d
                            },
                        ),
                    ),
                    None => s,
                };
                s.toasted(
                    ToastKind::Success,
                    "renamed '"@ + old_name + "' → '"@ + (new_name + "'"@),
                )
            },
        }
    }

    /// An endpoint commit: a key is kept only beside an endpoint.
    #[verifier::opaque]
    pub open spec fn endpoint_committed(self) -> AppView {
        match self.editing() {
            None => self,
            Some(name) => {
                let d = self.config_draft->0;
                let base_url = d.base_url.trimmed_some();
                self.asked(
                    RequestView::EditEndpoint {
                        name,
                        base_url,
                        api_key: if base_url is Some {
                            d.api_key.trimmed_some()
                        } else {
                            None
                        },
                        field: d.active,
                    },
                )
            },
        }
    }

    /// After an endpoint was stored the buffers show what was stored; a re-login goes on
    /// from the endpoint to the key.
    #[verifier::opaque]
    pub open spec fn endpoint_saved(
        self,
        name: Seq<char>,
        field: Option<ConfigRow>,
        failure: Option<Seq<char>>,
    ) -> AppView {
        match failure {
            Some(e) => self.toasted(ToastKind::Danger, "edit failed: "@ + e),
            None => match self.config_draft {
                None => self,
                Some(d) => {
                    let base = self.config.base_url_of(name);
                    let d = ConfigDraftView {
                        base_url: InputView::of(base),
                        api_key: InputView::of(self.config.api_key_of(name)),
                        ..d
                    };
                    self.drafting(
                        Some(
                            if d.relogin_chain && field == Some(ConfigRow::BaseUrl) && base.len()
                                > 0 {
                                ConfigDraftView { active: Some(ConfigRow::ApiKey), ..d }
                            } else {
                                ConfigDraftView { relogin_chain: false, active: None, ..d }
                            },
                        ),
                    )
                },
            },
        }
    }

    #[verifier::opaque]
    pub open spec fn new_account_committed(self) -> AppView {
        match self.config_draft {
            None => self,
            Some(d) => self.asked(RequestView::CheckNewName(d.name.trimmed())),
        }
    }

    /// A checked new account is created: from the captured login, unless an endpoint was
    /// typed after it, which discards the login.
    #[verifier::opaque]
    pub open spec fn new_account_checked(self, name: Seq<char>) -> AppView {
        match self.config_draft {
            None => self,
            Some(d) => {
                let base_url = d.base_url.trimmed_some();
                self.asked(
                    RequestView::CreateProfile {
                        name,
                        base_url,
                        api_key: if base_url is Some {
                            d.api_key.trimmed_some()
                        } else {
                            None
                        },
                        model: d.model.trimmed_some(),
                        login: if base_url is None {
                            d.captured_login
                        } else {
                            None
                        },
                        discarded: base_url is Some && d.captured_login is Some,
                    },
                )
            },
        }
    }

    #[verifier::opaque]
    pub open spec fn account_created(
        self,
        name: Seq<char>,
        discarded: bool,
        failure: Option<Seq<char>>,
    ) -> AppView {
        match failure {
            Some(e) => self.toasted(ToastKind::Danger, "create failed: "@ + e),
            None => {
                let s = if discarded {
                    self.toasted(
                        ToastKind::Info,
                        "base url set · the captured oauth login was discarded"@,
                    )
                } else {
                    self
                };
                let s = s.asked(RequestView::RefreshTokens).asked(RequestView::NoteStateTime);
                s.drafting(None).on(
                    Ui {
                        profile_cursor: match s.config.index_of(name) {
                            Some(i) => i as usize,
                            None => 0,
                        },
                        config_focus: ConfigFocus::Profiles,
                        ..s.ui
                    },
                ).toasted(ToastKind::Success, "created '"@ + name + "'"@)
            },
        }
    }

    /// A deletion that was asked for: a live session is worth a question.
    #[verifier::opaque]
    pub open spec fn delete_probed(self, name: Seq<char>, live: bool) -> AppView {
        if live {
            self.with_modal(
                ModalView::Confirm(
                    ConfirmStateView {
                        message: "Delete '"@ + name + "' anyway?"@,
                        detail: Some(
                            "This profile has a live `clauth start` session; deleting it may log that session out."@,
                        ),
                        choice: false,
                        on_confirm: ConfirmActionView::DeleteLiveSession(name),
                    },
                ),
            )
        } else {
            self.asked(RequestView::DeleteProfile { name, force: false })
        }
    }

    #[verifier::opaque]
    pub open spec fn deleted(self, name: Seq<char>, failure: Option<Seq<char>>) -> AppView {
        match failure {
            Some(e) => self.toasted(ToastKind::Danger, "delete failed: "@ + e),
            None => {
                let s = self.asked(RequestView::RefreshTokens).asked(RequestView::NoteStateTime);
                s.drafting(None).on(
                    Ui { config_focus: ConfigFocus::Profiles, ..s.ui },
                ).profile_clamped().toasted(ToastKind::Success, "deleted '"@ + name + "'"@)
            },
        }
    }

    #[verifier::opaque]
    pub open spec fn auto_start_flipped(self, name: Seq<char>) -> AppView {
        match self.config.index_of(name) {
            None => self,
            Some(i) => if !self.config.profiles[i].facts.is_oauth {
                self.toasted(
                    ToastKind::Warning,
                    "auto-start usage only applies to OAuth profiles"@,
                )
            } else {
                let on = !self.config.profiles[i].auto_start;
                AppView { config: self.config.with_auto_start(i, on), ..self }.asked(
                    RequestView::SaveAutoStart { name, on },
                )
            },
        }
    }

    #[verifier::opaque]
    pub open spec fn auto_start_saved(
        self,
        name: Seq<char>,
        on: bool,
        failure: Option<Seq<char>>,
    ) -> AppView {
        match failure {
            None => self.asked(RequestView::RefreshTokens),
            Some(e) => {
                let c = match self.config.index_of(name) {
                    Some(i) => self.config.with_auto_start(i, !on),
                    None => self.config,
                };
                AppView { config: c, ..self }.toasted(ToastKind::Danger, "save failed: "@ + e)
            },
        }
    }
}

/// Hands a typed name out to be looked at.
pub fn commit_rename(app: &mut App)
    ensures
        final(app)@ == old(app)@.rename_committed(),
{
    reveal(AppView::rename_committed);
    if let Some(old_name) = editing_name(app) {
        let new_name: String = match &app.config_draft {
            Some(d) => d.name.trimmed().to_string(),
            None => "".to_string(),
        };
        if text::same_text(new_name.as_str(), old_name.as_str()) {
            close_editor(app);
        } else {
            app.ask(Request::CheckRename { old_name, new_name });
        }
    }
}

/// Goes on after an account was renamed or not.
pub fn finish_rename(app: &mut App, old_name: &str, new_name: &str, failure: Option<String>)
    ensures
        final(app)@ == old(app)@.renamed(old_name@, new_name@, text::opt_view(failure)),
{
    reveal(AppView::renamed);
    match failure {
        Some(e) => {
            let body = text::joined("rename failed: ", e.as_str());
            app.toast(ToastKind::Danger, body.as_str());
        },
        None => {
            app.ask(Request::RefreshTokens);
            app.ask(Request::NoteStateTime);
            reveal(AppView::drafting);
            if let Some(d) = app.config_draft.as_mut() {
                d.editing_name = Some(new_name.to_string());
                d.name = InputState::new(new_name);
                d.active = None;
            }
            let head = text::joined3("renamed '", old_name, "' → '");
            let tail = text::joined(new_name, "'");
            let body = text::joined(head.as_str(), tail.as_str());
            app.toast(ToastKind::Success, body.as_str());
        },
    }
}

/// Hands a typed endpoint out to be stored.
pub fn commit_endpoint(app: &mut App)
    ensures
        final(app)@ == old(app)@.endpoint_committed(),
{
    reveal(AppView::endpoint_committed);
    if let Some(name) = editing_name(app) {
        let change = match &app.config_draft {
            Some(d) => {
                let base_url = d.base_url.trimmed_some();
                let api_key = if base_url.is_some() {
                    d.api_key.trimmed_some()
                } else {
                    None
                };
                Some((base_url, api_key, d.active))
            },
            None => None,
        };
        if let Some((base_url, api_key, field)) = change {
            app.ask(Request::EditEndpoint { name, base_url, api_key, field });
        }
    }
}

/// Goes on after an endpoint was stored or refused.
pub fn finish_endpoint(
    app: &mut App,
    name: &str,
    field: Option<ConfigRow>,
    failure: Option<String>,
)
    ensures
        final(app)@ == old(app)@.endpoint_saved(name@, field, text::opt_view(failure)),
{
    reveal(AppView::endpoint_saved);
    reveal(AppView::drafting);
    match failure {
        Some(e) => {
            let body = text::joined("edit failed: ", e.as_str());
            app.toast(ToastKind::Danger, body.as_str());
        },
        None => {
            let base = base_url_of(&app.config, name);
            let key = api_key_of(&app.config, name);
            if let Some(d) = app.config_draft.as_mut() {
                d.base_url = InputState::new(base.as_str());
                d.api_key = InputState::new(key.as_str());
                let from_base = match field {
                    Some(ConfigRow::BaseUrl) => true,
                    _ => false,
                };
                if d.relogin_chain && from_base && base.as_str().unicode_len() > 0 {
                    d.active = Some(ConfigRow::ApiKey);
                } else {
                    d.relogin_chain = false;
                    d.active = None;
                }
            }
        },
    }
}

/// Hands the name of a new account out to be looked at.
pub fn commit_new_account(app: &mut App)
    ensures
        final(app)@ == old(app)@.new_account_committed(),
{
    reveal(AppView::new_account_committed);
    let name: Option<String> = match &app.config_draft {
        Some(d) => Some(d.name.trimmed().to_string()),
        None => None,
    };
    if let Some(name) = name {
        app.ask(Request::CheckNewName(name));
    }
}

/// Hands a checked new account out to be created.
pub fn create_checked_account(app: &mut App, name: String)
    ensures
        final(app)@ == old(app)@.new_account_checked(name@),
{
    reveal(AppView::new_account_checked);
    let request = match &app.config_draft {
        Some(d) => {
            let base_url = d.base_url.trimmed_some();
            let api = base_url.is_some();
            let api_key = if api {
                d.api_key.trimmed_some()
            } else {
                None
            };
            let login: Option<u64> = if api {
                None
            } else {
                d.captured_login
            };
            let discarded = api && d.captured_login.is_some();
            let model = d.model.trimmed_some();
            Some(Request::CreateProfile { name, base_url, api_key, model, login, discarded })
        },
        None => None,
    };
    if let Some(r) = request {
        app.ask(r);
    }
}

/// Goes on after an account was created or not.
pub fn finish_create(app: &mut App, name: &str, discarded: bool, failure: Option<String>)
    ensures
        final(app)@ == old(app)@.account_created(name@, discarded, text::opt_view(failure)),
{
    reveal(AppView::account_created);
    match failure {
        Some(e) => {
            let body = text::joined("create failed: ", e.as_str());
            app.toast(ToastKind::Danger, body.as_str());
        },
        None => {
            if discarded {
                app.toast(
                    ToastKind::Info,
                    "base url set · the captured oauth login was discarded",
                );
            }
            app.ask(Request::RefreshTokens);
            app.ask(Request::NoteStateTime);
            let place: usize = match app.config.index_of(name) {
                Some(i) => i,
                None => 0,
            };
            let ui = Ui { profile_cursor: place, config_focus: ConfigFocus::Profiles, ..app.ui };
            set_draft(app, None);
            app.set_ui(ui);
            let body = text::joined3("created '", name, "'");
            app.toast(ToastKind::Success, body.as_str());
        },
    }
}

/// Asks whether an account about to be deleted has a live session.
pub fn perform_delete(app: &mut App, name: &str)
    ensures
        final(app)@ == old(app)@.asked(RequestView::ProbeDelete(name@)),
{
    app.ask(Request::ProbeDelete(name.to_string()));
}

/// Goes on with a deletion once it is known whether a session is live.
pub fn finish_delete_probe(app: &mut App, name: String, live: bool)
    ensures
        final(app)@ == old(app)@.delete_probed(name@, live),
{
    reveal(AppView::delete_probed);
    if live {
        let message = text::joined3("Delete '", name.as_str(), "' anyway?");
        app.push_modal(
            Modal::Confirm(
                ConfirmState {
                    message,
                    detail: Some(
                        "This profile has a live `clauth start` session; deleting it may log that session out.".to_string(),
                    ),
                    choice: false,
                    on_confirm: ConfirmAction::DeleteLiveSession(name),
                },
            ),
        );
    } else {
        app.ask(Request::DeleteProfile { name, force: false });
    }
}

/// Goes on after an account was deleted or not.
pub fn finish_delete(app: &mut App, name: &str, failure: Option<String>)
    ensures
        final(app)@ == old(app)@.deleted(name@, text::opt_view(failure)),
{
    reveal(AppView::deleted);
    match failure {
        Some(e) => {
            let body = text::joined("delete failed: ", e.as_str());
            app.toast(ToastKind::Danger, body.as_str());
        },
        None => {
            app.ask(Request::RefreshTokens);
            app.ask(Request::NoteStateTime);
            let ui = Ui { config_focus: ConfigFocus::Profiles, ..app.ui };
            set_draft(app, None);
            app.set_ui(ui);
            app.clamp_profile_cursor();
            let body = text::joined3("deleted '", name, "'");
            app.toast(ToastKind::Success, body.as_str());
        },
    }
}

fn set_auto_start(cfg: &mut AppConfig, i: usize, on: bool)
    requires
        i < old(cfg).profiles@.len(),
    ensures
        final(cfg)@ == old(cfg)@.with_auto_start(i as int, on),
{
    let ghost before = cfg.profiles@;
    cfg.profiles[i].auto_start = on;
    proof {
        assert(model::profile_views(cfg.profiles@) =~= model::profile_views(before).update(
            i as int,
            ProfileView { auto_start: on, ..model::profile_views(before)[i as int] },
        ));
    }
}

/// Flips the auto-start of an account.
pub fn toggle_auto_start(app: &mut App, name: &str)
    ensures
        final(app)@ == old(app)@.auto_start_flipped(name@),
{
    reveal(AppView::auto_start_flipped);
    if let Some(i) = app.config.index_of(name) {
        assert(app@.config.profiles[i as int] == app.config.profiles@[i as int]@);
        if !app.config.profiles[i].facts.is_oauth {
            app.toast(
                ToastKind::Warning,
                "auto-start usage only applies to OAuth profiles",
            );
        } else {
            let on = !app.config.profiles[i].auto_start;
            set_auto_start(&mut app.config, i, on);
            app.ask(Request::SaveAutoStart { name: name.to_string(), on });
        }
    }
}

/// Goes on after an auto-start flip was saved or not.
pub fn finish_auto_start(app: &mut App, name: &str, on: bool, failure: Option<String>)
    ensures
        final(app)@ == old(app)@.auto_start_saved(name@, on, text::opt_view(failure)),
{
    reveal(AppView::auto_start_saved);
    match failure {
        None => app.ask(Request::RefreshTokens),
        Some(e) => {
            if let Some(i) = app.config.index_of(name) {
                set_auto_start(&mut app.config, i, !on);
            }
            let body = text::joined("save failed: ", e.as_str());
            app.toast(ToastKind::Danger, body.as_str());
        },
    }
}

/// A flip that could not be saved leaves the settings as they were before it.
pub proof fn failed_auto_start_reverts(s: AppView, name: Seq<char>, e: Seq<char>)
    requires
        s.config.index_of(name) is Some,
        s.config.profiles[s.config.index_of(name)->0].facts.is_oauth,
    ensures
        ({
            let i = s.config.index_of(name)->0;
            let on = !s.config.profiles[i].auto_start;
            let t = s.auto_start_flipped(name);
            t.auto_start_saved(name, on, Some(e)).config == s.config
        }),
{
    reveal(AppView::auto_start_flipped);
    reveal(AppView::auto_start_saved);
    reveal(AppView::asked);
    reveal(AppView::toasted);
    let i = s.config.index_of(name)->0;
    let on = !s.config.profiles[i].auto_start;
    text::lemma_position(s.config.names(), name);
    let c = s.config.with_auto_start(i, on);
    assert(c.names() =~= s.config.names());
    assert(c.with_auto_start(i, !on).profiles =~= s.config.profiles);
}

// ── running a row ───────────────────────────────────────────────────────────

impl AppView {
    /// Re-entering endpoint and key of an account, one after the other.
    #[verifier::opaque]
    pub open spec fn api_relogin_started(self) -> AppView {
        match self.config_draft {
            None => self,
            Some(d) => self.drafting(
                Some(
                    ConfigDraftView {
                        base_url: InputView::of(
                            match d.editing_name {
                                Some(n) => self.config.base_url_of(n),
                                None => ""@,
                            },
                        ),
                        api_key: InputView::of(
                            match d.editing_name {
                                Some(n) => self.config.api_key_of(n),
                                None => ""@,
                            },
                        ),
                        relogin_chain: true,
                        active: Some(ConfigRow::BaseUrl),
                        ..d
                    },
                ),
            ),
        }
    }

    /// The login row: an account with an endpoint re-enters it, any other logs in through
    /// the browser; a new account's name is looked at first.
    #[verifier::opaque]
    pub open spec fn login_row_run(self) -> AppView {
        match self.editing() {
            Some(name) => match self.config.find(name) {
                Some(p) if !p.facts.login_is_oauth => self.api_relogin_started(),
                _ => self.login_wanted(name, false),
            },
            None => self.asked(
                RequestView::CheckLoginName(
                    match self.config_draft {
                        Some(d) => d.name.trimmed(),
                        None => ""@,
                    },
                ),
            ),
        }
    }

    /// A login that would replace a captured one is asked about.
    #[verifier::opaque]
    pub open spec fn login_wanted(self, name: Seq<char>, is_new: bool) -> AppView {
        if self.config_draft matches Some(d) && d.captured_login is Some {
            self.with_modal(
                ModalView::Confirm(
                    ConfirmStateView {
                        message: "Replace the captured login?"@,
                        detail: Some(
                            "A fresh browser login replaces the one already captured for this account. The stashed tokens are dropped."@,
                        ),
                        choice: false,
                        on_confirm: ConfirmActionView::RestartLogin(name, is_new),
                    },
                ),
            )
        } else {
            self.login_started(name, is_new)
        }
    }

    #[verifier::opaque]
    pub open spec fn logout_asked(self) -> AppView {
        match self.editing() {
            None => self,
            Some(name) => self.with_modal(
                ModalView::Confirm(
                    ConfirmStateView {
                        message: "Log out of '"@ + name + "'?"@,
                        detail: Some(
                            if self.config.find(name) matches Some(p) && !p.facts.login_is_oauth {
                                "Blanks the api key; keeps the base url, model, and env. Re-login any time."@
                            } else {
                                "Blanks the login; keeps the profile, model, env, and chain slot. Re-login any time."@
                            },
                        ),
                        choice: false,
                        on_confirm: ConfirmActionView::BlankCredentials(name),
                    },
                ),
            ),
        }
    }

    #[verifier::opaque]
    pub open spec fn delete_row_run(self) -> AppView {
        match self.config_draft {
            Some(d) => if d.armed_delete && d.editing_name is Some {
                self.asked(RequestView::ProbeDelete(d.editing_name->0))
            } else {
                self.delete_armed(true)
            },
            None => self,
        }
    }

    #[verifier::opaque]
    pub open spec fn overrides_revealed(self) -> AppView {
        match self.config_draft {
            Some(d) => self.drafting(Some(ConfigDraftView { overrides_expanded: true, ..d })),
            None => self,
        }
    }

    #[verifier::opaque]
    pub open spec fn editor_opened(self, row: ConfigRow) -> AppView {
        match self.config_draft {
            Some(d) => self.drafting(Some(d.opened(row))),
            None => self,
        }
    }

    /// What enter or space does on a detail row.
    #[verifier::opaque]
    pub open spec fn config_row_run(self, row: ConfigRow) -> AppView {
        match row {
            ConfigRow::EnvEntry(i) => self.env_value_opened(i),
            ConfigRow::EnvAdd => self.env_add_opened(),
            ConfigRow::ModelOverrideAdd => self.overrides_revealed(),
            ConfigRow::Name
            | ConfigRow::BaseUrl
            | ConfigRow::ApiKey
            | ConfigRow::Model
            | ConfigRow::OpusModel
            | ConfigRow::SonnetModel
            | ConfigRow::HaikuModel
            | ConfigRow::SubagentModel => self.editor_opened(row),
            ConfigRow::AutoStart => match self.editing() {
                Some(name) => self.auto_start_flipped(name),
                None => self,
            },
            ConfigRow::Delete => self.delete_row_run(),
            ConfigRow::Create => self.new_account_committed(),
            ConfigRow::Login => self.login_row_run(),
            ConfigRow::DeleteCreds => self.logout_asked(),
            _ => self,
        }
    }

    #[verifier::opaque]
    pub open spec fn field_committed(self, field: ConfigRow) -> AppView {
        match self.editing() {
            None => self.draft_idle(),
            Some(_) => match field {
                ConfigRow::Name => self.rename_committed(),
                ConfigRow::BaseUrl | ConfigRow::ApiKey => self.endpoint_committed(),
                ConfigRow::Model
                | ConfigRow::OpusModel
                | ConfigRow::SonnetModel
                | ConfigRow::HaikuModel
                | ConfigRow::SubagentModel => self.model_field_committed(field),
                ConfigRow::EnvEntry(i) => self.env_value_committed(i),
                ConfigRow::EnvAdd => self.env_key_committed(),
                _ => self.draft_idle(),
            },
        }
    }

    /// Escape in a field: an account's field goes back to what is stored, a new account's
    /// keeps what was typed.
    #[verifier::opaque]
    pub open spec fn field_canceled(self, field: ConfigRow) -> AppView {
        match self.config_draft {
            None => self,
            Some(d) => {
                let d = match d.editing_name {
                    Some(name) => d.reseeded(
                        field,
                        committed_value(self.config.find(name), name, field),
                    ),
                    None => d,
                };
                self.drafting(
                    Some(ConfigDraftView { relogin_chain: false, active: None, ..d }),
                )
            },
        }
    }

    /// A key while a text row owns the keyboard.
    #[verifier::opaque]
    pub open spec fn config_edit_keyed(self, key: Key) -> AppView {
        match self.config_draft {
            None => self,
            Some(d) => match d.active {
                None => self,
                Some(row) => match key.code {
                    KeyCode::Esc => self.field_canceled(row),
                    KeyCode::Enter => self.field_committed(row),
                    _ => self.drafting(Some(d.typed(row, key))),
                },
            },
        }
    }

    /// The row under the cursor, run.
    #[verifier::opaque]
    pub open spec fn current_row_run(self) -> AppView {
        match self.current_row() {
            Some(row) => self.config_row_run(row),
            None => self,
        }
    }

    /// Space on a row: the model row cycles its alias, every other one runs.
    #[verifier::opaque]
    pub open spec fn current_row_spaced(self) -> AppView {
        match self.current_row() {
            Some(ConfigRow::Model) => self.model_cycled(),
            Some(row) => self.config_row_run(row),
            None => self,
        }
    }
}

/// Lets the endpoint and the key of an account be entered again.
pub fn start_api_relogin(app: &mut App)
    ensures
        final(app)@ == old(app)@.api_relogin_started(),
{
    reveal(AppView::api_relogin_started);
    reveal(AppView::drafting);
    let (base, key) = match editing_name(app) {
        Some(n) => (base_url_of(&app.config, n.as_str()), api_key_of(&app.config, n.as_str())),
        None => ("".to_string(), "".to_string()),
    };
    if let Some(d) = app.config_draft.as_mut() {
        d.base_url = InputState::new(base.as_str());
        d.api_key = InputState::new(key.as_str());
        d.relogin_chain = true;
        d.active = Some(ConfigRow::BaseUrl);
    }
}

/// Starts a login, asking first when it would replace a captured one.
pub fn want_login(app: &mut App, name: String, is_new: bool)
    ensures
        final(app)@ == old(app)@.login_wanted(name@, is_new),
{
    reveal(AppView::login_wanted);
    let stashed = match &app.config_draft {
        Some(d) => d.captured_login.is_some(),
        None => false,
    };
    if stashed {
        app.push_modal(
            Modal::Confirm(
                ConfirmState {
                    message: "Replace the captured login?".to_string(),
                    detail: Some(
                        "A fresh browser login replaces the one already captured for this account. The stashed tokens are dropped.".to_string(),
                    ),
                    choice: false,
                    on_confirm: ConfirmAction::RestartLogin(name, is_new),
                },
            ),
        );
    } else {
        session::start_login(app, name, is_new);
    }
}

fn run_login_row(app: &mut App)
    ensures
        final(app)@ == old(app)@.login_row_run(),
{
    reveal(AppView::login_row_run);
    match editing_name(app) {
        Some(name) => {
            let api = match app.config.find(name.as_str()) {
                Some(p) => !p.facts.login_is_oauth,
                None => false,
            };
            if api {
                start_api_relogin(app);
            } else {
                want_login(app, name, false);
            }
        },
        None => {
            let typed: String = match &app.config_draft {
                Some(d) => d.name.trimmed().to_string(),
                None => "".to_string(),
            };
            app.ask(Request::CheckLoginName(typed));
        },
    }
}

fn ask_logout(app: &mut App)
    ensures
        final(app)@ == old(app)@.logout_asked(),
{
    reveal(AppView::logout_asked);
    if let Some(name) = editing_name(app) {
        let api = match app.config.find(name.as_str()) {
            Some(p) => !p.facts.login_is_oauth,
            None => false,
        };
        let detail = if api {
            "Blanks the api key; keeps the base url, model, and env. Re-login any time."
        } else {
            "Blanks the login; keeps the profile, model, env, and chain slot. Re-login any time."
        };
        let message = text::joined3("Log out of '", name.as_str(), "'?");
        app.push_modal(
            Modal::Confirm(
                ConfirmState {
                    message,
                    detail: Some(detail.to_string()),
                    choice: false,
                    on_confirm: ConfirmAction::BlankCredentials(name),
                },
            ),
        );
    }
}

fn run_delete_row(app: &mut App)
    ensures
        final(app)@ == old(app)@.delete_row_run(),
{
    reveal(AppView::delete_row_run);
    let armed = match &app.config_draft {
        Some(d) => d.armed_delete,
        None => {
            return;
        },
    };
    let name = editing_name(app);
    match name {
        Some(name) => {
            if armed {
                perform_delete(app, name.as_str());
            } else {
                arm_delete(app, true);
            }
        },
        None => arm_delete(app, true),
    }
}

fn reveal_overrides(app: &mut App)
    ensures
        final(app)@ == old(app)@.overrides_revealed(),
{
    reveal(AppView::overrides_revealed);
    reveal(AppView::drafting);
    if let Some(d) = app.config_draft.as_mut() {
        d.overrides_expanded = true;
    }
}

fn open_editor(app: &mut App, row: ConfigRow)
    ensures
        final(app)@ == old(app)@.editor_opened(row),
{
    reveal(AppView::editor_opened);
    reveal(AppView::drafting);
    if let Some(d) = app.config_draft.as_mut() {
        d.open(row);
    }
}

/// What enter or space does on a detail row.
pub fn run_config_row(app: &mut App, row: ConfigRow)
    ensures
        final(app)@ == old(app)@.config_row_run(row),
{
    reveal(AppView::config_row_run);
    match row {
        ConfigRow::EnvEntry(i) => enter_env_value_edit(app, i),
        ConfigRow::EnvAdd => enter_env_add_edit(app),
        ConfigRow::ModelOverrideAdd => reveal_overrides(app),
        ConfigRow::AutoStart => {
            if let Some(name) = editing_name(app) {
                toggle_auto_start(app, name.as_str());
            }
        },
        ConfigRow::Delete => run_delete_row(app),
        ConfigRow::Create => commit_new_account(app),
        ConfigRow::Login => run_login_row(app),
        ConfigRow::DeleteCreds => ask_logout(app),
        ConfigRow::FableModel
        | ConfigRow::Disabled
        | ConfigRow::CaptureLogin
        | ConfigRow::ClearSessionToken => {},
        ConfigRow::Name
        | ConfigRow::BaseUrl
        | ConfigRow::ApiKey
        | ConfigRow::Model
        | ConfigRow::OpusModel
        | ConfigRow::SonnetModel
        | ConfigRow::HaikuModel
        | ConfigRow::SubagentModel => open_editor(app, row),
    }
}

/// Enter in a field: a new account keeps the text, an existing one stores it.
pub fn commit_config_field(app: &mut App, field: ConfigRow)
    ensures
        final(app)@ == old(app)@.field_committed(field),
{
    reveal(AppView::field_committed);
    if editing_name(app).is_none() {
        close_editor(app);
        return;
    }
    match field {
        ConfigRow::Name => commit_rename(app),
        ConfigRow::BaseUrl | ConfigRow::ApiKey => commit_endpoint(app),
        ConfigRow::Model
        | ConfigRow::OpusModel
        | ConfigRow::SonnetModel
        | ConfigRow::HaikuModel
        | ConfigRow::SubagentModel => commit_model_field(app, field),
        ConfigRow::EnvEntry(i) => commit_env_value(app, i),
        ConfigRow::EnvAdd => commit_env_new_key(app),
        _ => close_editor(app),
    }
}

/// Escape in a field.
pub fn cancel_config_edit(app: &mut App, field: ConfigRow)
    ensures
        final(app)@ == old(app)@.field_canceled(field),
{
    reveal(AppView::field_canceled);
    reveal(AppView::drafting);
    let value: Option<String> = match editing_name(app) {
        Some(name) => Some(
            row_committed_value(app.config.find(name.as_str()), name.as_str(), field),
        ),
        None => None,
    };
    if let Some(d) = app.config_draft.as_mut() {
        if let Some(v) = value {
            d.reseed(field, v.as_str());
        }
        d.relogin_chain = false;
        d.active = None;
    }
}

/// A key while a text row owns the keyboard.
pub fn handle_config_edit_key(app: &mut App, key: Key)
    ensures
        final(app)@ == old(app)@.config_edit_keyed(key),
{
    reveal(AppView::config_edit_keyed);
    let active: Option<ConfigRow> = match &app.config_draft {
        Some(d) => d.active,
        None => None,
    };
    if let Some(row) = active {
        match key.code {
            KeyCode::Esc => cancel_config_edit(app, row),
            KeyCode::Enter => commit_config_field(app, row),
            _ => {
                reveal(AppView::drafting);
                if let Some(d) = app.config_draft.as_mut() {
                    d.type_key(row, key);
                }
            },
        }
    }
}

/// Runs the row under the cursor.
pub fn run_current_row(app: &mut App)
    ensures
        final(app)@ == old(app)@.current_row_run(),
{
    reveal(AppView::current_row_run);
    if let Some(row) = current_row(app) {
        run_config_row(app, row);
    }
}

fn space_current_row(app: &mut App)
    ensures
        final(app)@ == old(app)@.current_row_spaced(),
{
    reveal(AppView::current_row_spaced);
    if let Some(row) = current_row(app) {
        match row {
            ConfigRow::Model => cycle_model(app),
            _ => run_config_row(app, row),
        }
    }
}

// ── keys ────────────────────────────────────────────────────────────────────

/// One account further or back, wrapping; nothing moves in an empty list.
#[verifier::opaque]
pub open spec fn cycled(cursor: usize, up: bool, len: usize) -> usize {
    if len == 0 {
        cursor
    } else {
        let c = cursor as int % len as int;
        (if up {
            if c == 0 {
                len - 1
            } else {
                c - 1
            }
        } else if c + 1 == len {
            0
        } else {
            c + 1
        }) as usize
    }
}

/// One account further or back, wrapping.
pub fn cycle_cursor(cursor: usize, up: bool, len: usize) -> (r: usize)
    ensures
        r == cycled(cursor, up, len),
{
    reveal(cycled);
    if len == 0 {
        return cursor;
    }
    let c: usize = cursor % len;
    if up {
        if c == 0 {
            len - 1
        } else {
            c - 1
        }
    } else if c + 1 == len {
        0
    } else {
        c + 1
    }
}

/// Steps land on an entry of the list, and up and down are inverse.
pub proof fn cursor_cycles(cursor: usize, up: bool, len: usize)
    requires
        cursor < len,
    ensures
        cycled(cursor, up, len) < len,
        cycled(cycled(cursor, up, len), !up, len) == cursor,
{
    reveal(cycled);
    vstd::arithmetic::div_mod::lemma_small_mod(cursor as nat, len as nat);
    let c = cycled(cursor, up, len);
    vstd::arithmetic::div_mod::lemma_small_mod(c as nat, len as nat);
}

impl AppView {
    /// The account cursor moved within a list of `len` entries.
    #[verifier::opaque]
    pub open spec fn profile_stepped(self, up: bool, len: usize) -> AppView {
        self.on(Ui { profile_cursor: cycled(self.ui.profile_cursor, up, len), ..self.ui })
    }

    /// The account list of the Setup tab after a key.
    #[verifier::opaque]
    pub open spec fn setup_list_keyed(self, key: Key) -> AppView {
        let len = (self.config.profiles.len() + 1) as usize;
        match key.code {
            KeyCode::Up => self.profile_stepped(true, len),
            KeyCode::Down => self.profile_stepped(false, len),
            KeyCode::Enter => self.config_entered(),
            _ => self,
        }
    }

    /// The detail rows of the Setup tab after a key.
    #[verifier::opaque]
    pub open spec fn setup_rows_keyed(self, key: Key) -> AppView {
        let last = text::monus(self.config_rows().len() as int, 1) as usize;
        let cur = settings::row_clamped(self.ui.config_action_cursor, last);
        let s = self.on(Ui { config_action_cursor: cur, ..self.ui });
        match key.code {
            KeyCode::Up => {
                let t = s.delete_armed(false);
                t.on(Ui { config_action_cursor: settings::step_up(cur, last), ..t.ui })
            },
            KeyCode::Down => {
                let t = s.delete_armed(false);
                t.on(Ui { config_action_cursor: settings::step_down(cur, last), ..t.ui })
            },
            KeyCode::Enter => s.current_row_run(),
            KeyCode::Char(c) => if c == ' ' {
                s.current_row_spaced()
            } else {
                s
            },
            _ => s,
        }
    }

    #[verifier::opaque]
    pub open spec fn config_keyed(self, key: Key) -> AppView {
        let s = self.on(
            Ui {
                profile_cursor: settings::row_clamped(
                    self.ui.profile_cursor,
                    self.config.profiles.len() as usize,
                ),
                ..self.ui
            },
        );
        match s.ui.config_focus {
            ConfigFocus::Profiles => s.setup_list_keyed(key),
            ConfigFocus::Actions => s.setup_rows_keyed(key),
        }
    }
}

/// Moves the account cursor within a list of `len` entries.
pub fn step_profile_cursor(app: &mut App, up: bool, len: usize)
    ensures
        final(app)@ == old(app)@.profile_stepped(up, len),
{
    reveal(AppView::profile_stepped);
    let ui = Ui { profile_cursor: cycle_cursor(app.ui.profile_cursor, up, len), ..app.ui };
    app.set_ui(ui);
}

fn handle_setup_list_key(app: &mut App, key: Key)
    requires
        old(app)@.config.profiles.len() < usize::MAX,
    ensures
        final(app)@ == old(app)@.setup_list_keyed(key),
{
    reveal(AppView::setup_list_keyed);
    let len: usize = app.profile_count() + 1;
    match key.code {
        KeyCode::Up => step_profile_cursor(app, true, len),
        KeyCode::Down => step_profile_cursor(app, false, len),
        KeyCode::Enter => enter_config_detail(app),
        _ => {},
    }
}

fn handle_setup_rows_key(app: &mut App, key: Key)
    ensures
        final(app)@ == old(app)@.setup_rows_keyed(key),
{
    reveal(AppView::setup_rows_keyed);
    let rows = config_rows(app);
    let last: usize = if rows.len() > 0 {
        rows.len() - 1
    } else {
        0
    };
    let cur: usize = settings::clamp_row(app.ui.config_action_cursor, last);
    let ui = Ui { config_action_cursor: cur, ..app.ui };
    app.set_ui(ui);
    match key.code {
        KeyCode::Up => {
            arm_delete(app, false);
            let ui = Ui { config_action_cursor: settings::row_up(cur, last), ..app.ui };
            app.set_ui(ui);
        },
        KeyCode::Down => {
            arm_delete(app, false);
            let ui = Ui { config_action_cursor: settings::row_down(cur, last), ..app.ui };
            app.set_ui(ui);
        },
        KeyCode::Enter => run_current_row(app),
        KeyCode::Char(c) => {
            if c == ' ' {
                space_current_row(app);
            }
        },
        _ => {},
    }
}

/// A key on the Setup tab.
pub fn handle_config_key(app: &mut App, key: Key)
    requires
        old(app)@.config.profiles.len() < usize::MAX,
    ensures
        final(app)@ == old(app)@.config_keyed(key),
{
    reveal(AppView::config_keyed);
    reveal(AppView::on);
    let n: usize = app.profile_count();
    let row: usize = settings::clamp_row(app.ui.profile_cursor, n);
    let ui = Ui { profile_cursor: row, ..app.ui };
    app.set_ui(ui);
    match app.ui.config_focus {
        ConfigFocus::Profiles => handle_setup_list_key(app, key),
        ConfigFocus::Actions => handle_setup_rows_key(app, key),
    }
}

} // verus!
