//! Panes, rows and dialogs of the interface.

use vstd::prelude::*;

use crate::host::{Host, HostView};
use crate::input::{InputState, InputView};
use crate::menu::{ActionMenuState, ActionMenuStateView};
use crate::model::DivergenceChoice;
use crate::text;

verus! {

/// Which Setup pane owns the cursor.
#[derive(Debug, Clone, Copy, PartialEq, Eq, Structural)]
pub enum ConfigFocus {
    Profiles,
    Actions,
}

/// Which Fallback pane has focus.
#[derive(Debug, Clone, Copy, PartialEq, Eq, Structural)]
pub enum FallbackFocus {
    Chain,
    Detail,
}

/// One interactive line of a chain member.
#[derive(Debug, Clone, Copy, PartialEq, Eq, Structural)]
pub enum FallbackRow {
    /// A stepper.
    Threshold,
    /// A toggle.
    LastResort,
    /// A cap on spending.
    MaxSpend,
    /// Arms, then confirms.
    Remove,
}

/// One line of the Setup detail pane.
#[derive(Debug, Clone, Copy, PartialEq, Eq, Structural)]
pub enum ConfigRow {
    Name,
    BaseUrl,
    ApiKey,
    /// Space cycles the aliases, enter types a custom value.
    Model,
    OpusModel,
    SonnetModel,
    HaikuModel,
    FableModel,
    SubagentModel,
    /// Reveals the unset overrides.
    ModelOverrideAdd,
    /// A custom environment entry, by its place in the sorted list.
    EnvEntry(usize),
    /// Opens a key editor.
    EnvAdd,
    AutoStart,
    Disabled,
    /// Browser login.
    Login,
    /// Takes over the live login.
    CaptureLogin,
    /// Drops the stored credentials, keeping the account.
    DeleteCreds,
    ClearSessionToken,
    Delete,
    Create,
}

/// One row of the program-wide Config tab.
#[derive(Debug, Clone, Copy, PartialEq, Eq, Structural)]
pub enum GlobalConfigRow {
    /// Color depth.
    Theme,
    /// What to do when the live login changes.
    DivergenceDefault,
    RefreshInterval,
    /// What happens when the whole chain is spent.
    WrapOff,
    /// Weekly exhaustion line.
    WeeklyThreshold,
    BurnAware,
    BurnFloor,
    BurnHorizon,
    SpendBudget,
    SwitchOffWhenBudgetSpent,
    PreemptiveRotation,
    RefreshSpentAccounts,
    ContextNudge,
}

/// Inline editor of the Setup detail pane.
pub struct ConfigDraft {
    /// The account being edited; none while one is being created.
    pub editing_name: Option<String>,
    pub name: InputState,
    pub base_url: InputState,
    pub api_key: InputState,
    pub model: InputState,
    pub opus_model: InputState,
    pub sonnet_model: InputState,
    pub haiku_model: InputState,
    pub subagent_model: InputState,
    /// Value buffer of the environment entry being edited.
    pub env_value: InputState,
    /// Key buffer of a new environment entry.
    pub env_new_key: InputState,
    /// The row that owns the keyboard.
    pub active: Option<ConfigRow>,
    pub armed_delete: bool,
    /// Committing the base url goes on to the api key.
    pub relogin_chain: bool,
    pub overrides_expanded: bool,
    /// A browser login held until the account is created.
    pub captured_login: Option<u64>,
}

/// What a [`ConfigDraft`] holds.
pub struct ConfigDraftView {
    pub editing_name: Option<Seq<char>>,
    pub name: InputView,
    pub base_url: InputView,
    pub api_key: InputView,
    pub model: InputView,
    pub opus_model: InputView,
    pub sonnet_model: InputView,
    pub haiku_model: InputView,
    pub subagent_model: InputView,
    pub env_value: InputView,
    pub env_new_key: InputView,
    pub active: Option<ConfigRow>,
    pub armed_delete: bool,
    pub relogin_chain: bool,
    pub overrides_expanded: bool,
    pub captured_login: Option<u64>,
}

impl View for ConfigDraft {
    type V = ConfigDraftView;

    open spec fn view(&self) -> ConfigDraftView {
        ConfigDraftView {
            editing_name: text::opt_view(self.editing_name),
            name: self.name@,
            base_url: self.base_url@,
            api_key: self.api_key@,
            model: self.model@,
            opus_model: self.opus_model@,
            sonnet_model: self.sonnet_model@,
            haiku_model: self.haiku_model@,
            subagent_model: self.subagent_model@,
            env_value: self.env_value@,
            env_new_key: self.env_new_key@,
            active: self.active,
            armed_delete: self.armed_delete,
            relogin_chain: self.relogin_chain,
            overrides_expanded: self.overrides_expanded,
            captured_login: self.captured_login,
        }
    }
}

/// The view of an optional value.
pub open spec fn opt_config_draft(o: Option<ConfigDraft>) -> Option<ConfigDraftView> {
    match o {
        Some(x) => Some(x@),
        None => None,
    }
}

/// A choice of the key-collision prompt.
#[derive(Debug, Clone, Copy, PartialEq, Eq, Structural)]
pub enum EnvCollisionChoice {
    Overwrite,
    KeepExisting,
    Cancel,
}

/// Where a typed key already exists.
pub enum EnvKeyCollision {
    /// Set by a field of the account.
    Managed(String),
    /// Another custom entry, by its place.
    ProfileField(usize),
    BaseSettings,
}

/// What a [`EnvKeyCollision`] holds.
pub enum EnvKeyCollisionView {
    Managed(Seq<char>),
    ProfileField(usize),
    BaseSettings,
}

impl View for EnvKeyCollision {
    type V = EnvKeyCollisionView;

    open spec fn view(&self) -> EnvKeyCollisionView {
        match self {
            EnvKeyCollision::Managed(a) => EnvKeyCollisionView::Managed(a@),
            EnvKeyCollision::ProfileField(a) => EnvKeyCollisionView::ProfileField(*a),
            EnvKeyCollision::BaseSettings => EnvKeyCollisionView::BaseSettings,
        }
    }
}

/// The view of an optional value.
pub open spec fn opt_env_key_collision(o: Option<EnvKeyCollision>) -> Option<EnvKeyCollisionView> {
    match o {
        Some(x) => Some(x@),
        None => None,
    }
}

/// What a confirmation runs. Captured logins are held by slot.
pub enum ConfirmAction {
    CaptureConflict(u64, bool),
    CaptureOverwrite(u64, String, bool),
    AdoptDivergence(u64, String),
    Switch(String),
    DiscardDivergence(String),
    RotateAll,
    RotateOne(String),
    WireMcpServers,
    RelinkCredentials(String),
    BlankCredentials(String),
    RestartLogin(String, bool),
    DeleteLiveSession(String),
}

/// What a [`ConfirmAction`] holds.
pub enum ConfirmActionView {
    CaptureConflict(u64, bool),
    CaptureOverwrite(u64, Seq<char>, bool),
    AdoptDivergence(u64, Seq<char>),
    Switch(Seq<char>),
    DiscardDivergence(Seq<char>),
    RotateAll,
    RotateOne(Seq<char>),
    WireMcpServers,
    RelinkCredentials(Seq<char>),
    BlankCredentials(Seq<char>),
    RestartLogin(Seq<char>, bool),
    DeleteLiveSession(Seq<char>),
}

impl View for ConfirmAction {
    type V = ConfirmActionView;

    open spec fn view(&self) -> ConfirmActionView {
        match self {
            ConfirmAction::CaptureConflict(a, b) => ConfirmActionView::CaptureConflict(*a, *b),
            ConfirmAction::CaptureOverwrite(a, b, c) => ConfirmActionView::CaptureOverwrite(*a, b@, *c),
            ConfirmAction::AdoptDivergence(a, b) => ConfirmActionView::AdoptDivergence(*a, b@),
            ConfirmAction::Switch(a) => ConfirmActionView::Switch(a@),
            ConfirmAction::DiscardDivergence(a) => ConfirmActionView::DiscardDivergence(a@),
            ConfirmAction::RotateAll => ConfirmActionView::RotateAll,
            ConfirmAction::RotateOne(a) => ConfirmActionView::RotateOne(a@),
            ConfirmAction::WireMcpServers => ConfirmActionView::WireMcpServers,
            ConfirmAction::RelinkCredentials(a) => ConfirmActionView::RelinkCredentials(a@),
            ConfirmAction::BlankCredentials(a) => ConfirmActionView::BlankCredentials(a@),
            ConfirmAction::RestartLogin(a, b) => ConfirmActionView::RestartLogin(a@, *b),
            ConfirmAction::DeleteLiveSession(a) => ConfirmActionView::DeleteLiveSession(a@),
        }
    }
}

/// A yes/no dialog.
pub struct ConfirmState {
    pub message: String,
    pub detail: Option<String>,
    /// The highlighted choice: true is confirm.
    pub choice: bool,
    pub on_confirm: ConfirmAction,
}

/// What a [`ConfirmState`] holds.
pub struct ConfirmStateView {
    pub message: Seq<char>,
    pub detail: Option<Seq<char>>,
    pub choice: bool,
    pub on_confirm: ConfirmActionView,
}

impl View for ConfirmState {
    type V = ConfirmStateView;

    open spec fn view(&self) -> ConfirmStateView {
        ConfirmStateView {
            message: self.message@,
            detail: text::opt_view(self.detail),
            choice: self.choice,
            on_confirm: self.on_confirm@,
        }
    }
}

/// Asks for the name of a captured login.
pub struct CaptureNameForm {
    pub slot: u64,
    pub input: InputState,
    pub from_divergence: bool,
}

/// What a [`CaptureNameForm`] holds.
pub struct CaptureNameFormView {
    pub slot: u64,
    pub input: InputView,
    pub from_divergence: bool,
}

impl View for CaptureNameForm {
    type V = CaptureNameFormView;

    open spec fn view(&self) -> CaptureNameFormView {
        CaptureNameFormView {
            slot: self.slot,
            input: self.input@,
            from_divergence: self.from_divergence,
        }
    }
}

/// Asks what to do with a live login that does not match.
pub struct DivergenceForm {
    pub active: String,
    /// The other account that the live login belongs to.
    pub sibling: Option<String>,
    pub cursor: usize,
}

/// What a [`DivergenceForm`] holds.
pub struct DivergenceFormView {
    pub active: Seq<char>,
    pub sibling: Option<Seq<char>>,
    pub cursor: usize,
}

impl View for DivergenceForm {
    type V = DivergenceFormView;

    open spec fn view(&self) -> DivergenceFormView {
        DivergenceFormView {
            active: self.active@,
            sibling: text::opt_view(self.sibling),
            cursor: self.cursor,
        }
    }
}

/// A live login that does not match, not yet resolved.
pub struct DivergenceNotice {
    pub active: String,
    pub sibling: Option<String>,
    /// Which live login was looked at.
    pub fingerprint: Option<u64>,
}

/// What a [`DivergenceNotice`] holds.
pub struct DivergenceNoticeView {
    pub active: Seq<char>,
    pub sibling: Option<Seq<char>>,
    pub fingerprint: Option<u64>,
}

impl View for DivergenceNotice {
    type V = DivergenceNoticeView;

    open spec fn view(&self) -> DivergenceNoticeView {
        DivergenceNoticeView {
            active: self.active@,
            sibling: text::opt_view(self.sibling),
            fingerprint: self.fingerprint,
        }
    }
}

impl DivergenceNotice {
    /// A copy.
    pub fn duplicate(&self) -> (r: DivergenceNotice)
        ensures
            r@ == self@,
    {
        DivergenceNotice {
            active: self.active.clone(),
            sibling: text::clone_opt(&self.sibling),
            fingerprint: self.fingerprint,
        }
    }
}

/// The view of an optional value.
pub open spec fn opt_divergence_notice(o: Option<DivergenceNotice>) -> Option<DivergenceNoticeView> {
    match o {
        Some(x) => Some(x@),
        None => None,
    }
}

/// One row of the divergence prompt.
pub enum DivergenceAction {
    SwitchToOwner(String),
    Choice(DivergenceChoice),
}

/// What a [`DivergenceAction`] holds.
pub enum DivergenceActionView {
    SwitchToOwner(Seq<char>),
    Choice(DivergenceChoice),
}

impl View for DivergenceAction {
    type V = DivergenceActionView;

    open spec fn view(&self) -> DivergenceActionView {
        match self {
            DivergenceAction::SwitchToOwner(a) => DivergenceActionView::SwitchToOwner(a@),
            DivergenceAction::Choice(a) => DivergenceActionView::Choice(*a),
        }
    }
}

/// The views of a list.
pub open spec fn divergence_action_views(v: Seq<DivergenceAction>) -> Seq<DivergenceActionView> {
    v.map_values(|x: DivergenceAction| x@)
}

/// Extending a list extends its views.
pub broadcast proof fn lemma_divergence_action_views_push(v: Seq<DivergenceAction>, x: DivergenceAction)
    ensures
        #[trigger] divergence_action_views(v.push(x)) == divergence_action_views(v).push(x@),
{
    assert(divergence_action_views(v.push(x)) =~= divergence_action_views(v).push(x@));
}

/// Picks the account a live login is saved into.
pub struct DivergenceTargetForm {
    pub targets: Vec<String>,
    pub cursor: usize,
}

/// What a [`DivergenceTargetForm`] holds.
pub struct DivergenceTargetFormView {
    pub targets: Seq<Seq<char>>,
    pub cursor: usize,
}

impl View for DivergenceTargetForm {
    type V = DivergenceTargetFormView;

    open spec fn view(&self) -> DivergenceTargetFormView {
        DivergenceTargetFormView {
            targets: text::views(self.targets@),
            cursor: self.cursor,
        }
    }
}

/// Asks what to do with a key that already exists.
pub struct EnvCollisionForm {
    pub profile: String,
    pub key: String,
    pub reason: String,
    pub existing_idx: Option<usize>,
    pub cursor: usize,
}

/// What a [`EnvCollisionForm`] holds.
pub struct EnvCollisionFormView {
    pub profile: Seq<char>,
    pub key: Seq<char>,
    pub reason: Seq<char>,
    pub existing_idx: Option<usize>,
    pub cursor: usize,
}

impl View for EnvCollisionForm {
    type V = EnvCollisionFormView;

    open spec fn view(&self) -> EnvCollisionFormView {
        EnvCollisionFormView {
            profile: self.profile@,
            key: self.key@,
            reason: self.reason@,
            existing_idx: self.existing_idx,
            cursor: self.cursor,
        }
    }
}

/// An open dialog.
pub enum Modal {
    Confirm(ConfirmState),
    Divergence(DivergenceForm),
    CaptureName(CaptureNameForm),
    DivergenceTarget(DivergenceTargetForm),
    Help,
    ActionMenu(ActionMenuState),
    EnvCollision(EnvCollisionForm),
    Login,
}

/// What a [`Modal`] holds.
pub enum ModalView {
    Confirm(ConfirmStateView),
    Divergence(DivergenceFormView),
    CaptureName(CaptureNameFormView),
    DivergenceTarget(DivergenceTargetFormView),
    Help,
    ActionMenu(ActionMenuStateView),
    EnvCollision(EnvCollisionFormView),
    Login,
}

impl View for Modal {
    type V = ModalView;

    open spec fn view(&self) -> ModalView {
        match self {
            Modal::Confirm(a) => ModalView::Confirm(a@),
            Modal::Divergence(a) => ModalView::Divergence(a@),
            Modal::CaptureName(a) => ModalView::CaptureName(a@),
            Modal::DivergenceTarget(a) => ModalView::DivergenceTarget(a@),
            Modal::Help => ModalView::Help,
            Modal::ActionMenu(a) => ModalView::ActionMenu(a@),
            Modal::EnvCollision(a) => ModalView::EnvCollision(a@),
            Modal::Login => ModalView::Login,
        }
    }
}

/// The views of a list.
pub open spec fn modal_views(v: Seq<Modal>) -> Seq<ModalView> {
    v.map_values(|x: Modal| x@)
}

/// Extending a list extends its views.
pub broadcast proof fn lemma_modal_views_push(v: Seq<Modal>, x: Modal)
    ensures
        #[trigger] modal_views(v.push(x)) == modal_views(v).push(x@),
{
    assert(modal_views(v.push(x)) =~= modal_views(v).push(x@));
}

/// Severity of a toast.
#[derive(Debug, Clone, Copy, PartialEq, Eq, Structural)]
pub enum ToastKind {
    Info,
    Success,
    Warning,
    Danger,
}

/// A short-lived message.
pub struct Toast {
    pub kind: ToastKind,
    pub body: String,
    /// Clock reading at birth, in milliseconds.
    pub born: u64,
}

/// What a [`Toast`] holds.
pub struct ToastView {
    pub kind: ToastKind,
    pub body: Seq<char>,
    pub born: u64,
}

impl View for Toast {
    type V = ToastView;

    open spec fn view(&self) -> ToastView {
        ToastView {
            kind: self.kind,
            body: self.body@,
            born: self.born,
        }
    }
}

/// The views of a list.
pub open spec fn toast_views(v: Seq<Toast>) -> Seq<ToastView> {
    v.map_values(|x: Toast| x@)
}

/// Extending a list extends its views.
pub broadcast proof fn lemma_toast_views_push(v: Seq<Toast>, x: Toast)
    ensures
        #[trigger] toast_views(v.push(x)) == toast_views(v).push(x@),
{
    assert(toast_views(v.push(x)) =~= toast_views(v).push(x@));
}

/// Severity of the banner.
#[derive(Debug, Clone, Copy, PartialEq, Eq, Structural)]
pub enum BannerSeverity {
    Warning,
    Danger,
}

/// A sticky condition shown above the body.
pub struct Banner {
    pub severity: BannerSeverity,
    pub message: String,
}

/// What a [`Banner`] holds.
pub struct BannerView {
    pub severity: BannerSeverity,
    pub message: Seq<char>,
}

impl View for Banner {
    type V = BannerView;

    open spec fn view(&self) -> BannerView {
        BannerView {
            severity: self.severity,
            message: self.message@,
        }
    }
}

/// The view of an optional value.
pub open spec fn opt_banner(o: Option<Banner>) -> Option<BannerView> {
    match o {
        Some(x) => Some(x@),
        None => None,
    }
}

/// How far a browser login has come.
#[derive(Debug, Clone, Copy, PartialEq, Eq, Structural)]
pub enum LoginStage {
    WaitingBrowser,
    ExchangingCode,
    Verifying,
}

/// A browser login in flight.
pub struct LoginSession {
    pub name: String,
    /// The login goes into the new-account form.
    pub is_new: bool,
    pub generation: u64,
    pub url: Option<String>,
    pub stage: LoginStage,
}

/// What a [`LoginSession`] holds.
pub struct LoginSessionView {
    pub name: Seq<char>,
    pub is_new: bool,
    pub generation: u64,
    pub url: Option<Seq<char>>,
    pub stage: LoginStage,
}

impl View for LoginSession {
    type V = LoginSessionView;

    open spec fn view(&self) -> LoginSessionView {
        LoginSessionView {
            name: self.name@,
            is_new: self.is_new,
            generation: self.generation,
            url: text::opt_view(self.url),
            stage: self.stage,
        }
    }
}

/// The view of an optional value.
pub open spec fn opt_login_session(o: Option<LoginSession>) -> Option<LoginSessionView> {
    match o {
        Some(x) => Some(x@),
        None => None,
    }
}

impl ConfigRow {
    pub open spec fn captures_text(self) -> bool {
        match self {
            ConfigRow::Name
            | ConfigRow::BaseUrl
            | ConfigRow::ApiKey
            | ConfigRow::OpusModel
            | ConfigRow::SonnetModel
            | ConfigRow::HaikuModel
            | ConfigRow::SubagentModel => true,
            _ => false,
        }
    }

    /// Whether the row captures keystrokes and commits on enter.
    pub fn is_text(self) -> (r: bool)
        ensures
            r == self.captures_text(),
    {
        match self {
            ConfigRow::Name
            | ConfigRow::BaseUrl
            | ConfigRow::ApiKey
            | ConfigRow::OpusModel
            | ConfigRow::SonnetModel
            | ConfigRow::HaikuModel
            | ConfigRow::SubagentModel => true,
            _ => false,
        }
    }
}

impl ConfigDraftView {
    /// The edit buffer behind a row. The environment buffers stand behind their row only
    /// while it is the active one.
    pub open spec fn field(self, row: ConfigRow) -> Option<InputView> {
        match row {
            ConfigRow::Name => Some(self.name),
            ConfigRow::BaseUrl => Some(self.base_url),
            ConfigRow::ApiKey => Some(self.api_key),
            ConfigRow::Model => Some(self.model),
            ConfigRow::OpusModel => Some(self.opus_model),
            ConfigRow::SonnetModel => Some(self.sonnet_model),
            ConfigRow::HaikuModel => Some(self.haiku_model),
            ConfigRow::SubagentModel => Some(self.subagent_model),
            ConfigRow::EnvEntry(_) => if self.active == Some(row) {
                Some(self.env_value)
            } else {
                None
            },
            ConfigRow::EnvAdd => if self.active == Some(ConfigRow::EnvAdd) {
                Some(self.env_new_key)
            } else {
                None
            },
            _ => None,
        }
    }

    /// The draft with the buffer behind a row replaced.
    pub open spec fn with_field(self, row: ConfigRow, f: InputView) -> ConfigDraftView {
        match row {
            ConfigRow::Name => ConfigDraftView { name: f, ..self },
            ConfigRow::BaseUrl => ConfigDraftView { base_url: f, ..self },
            ConfigRow::ApiKey => ConfigDraftView { api_key: f, ..self },
            ConfigRow::Model => ConfigDraftView { model: f, ..self },
            ConfigRow::OpusModel => ConfigDraftView { opus_model: f, ..self },
            ConfigRow::SonnetModel => ConfigDraftView { sonnet_model: f, ..self },
            ConfigRow::HaikuModel => ConfigDraftView { haiku_model: f, ..self },
            ConfigRow::SubagentModel => ConfigDraftView { subagent_model: f, ..self },
            ConfigRow::EnvEntry(_) => if self.active == Some(row) {
                ConfigDraftView { env_value: f, ..self }
            } else {
                self
            },
            ConfigRow::EnvAdd => if self.active == Some(ConfigRow::EnvAdd) {
                ConfigDraftView { env_new_key: f, ..self }
            } else {
                self
            },
            _ => self,
        }
    }

    /// The draft of an account that does not exist yet.
    pub open spec fn blank() -> ConfigDraftView {
        let none = InputView::of(""@);
        ConfigDraftView {
            editing_name: None,
            name: none,
            base_url: none,
            api_key: none,
            model: none,
            opus_model: none,
            sonnet_model: none,
            haiku_model: none,
            subagent_model: none,
            env_value: none,
            env_new_key: none,
            active: None,
            armed_delete: false,
            relogin_chain: false,
            overrides_expanded: false,
            captured_login: None,
        }
    }
}

impl ConfigDraft {
    /// The edit buffer behind a row.
    pub fn field(&self, row: ConfigRow) -> (r: Option<&InputState>)
        ensures
            (match r {
                Some(f) => Some(f@),
                None => None,
            }) == self@.field(row),
    {
        match row {
            ConfigRow::Name => Some(&self.name),
            ConfigRow::BaseUrl => Some(&self.base_url),
            ConfigRow::ApiKey => Some(&self.api_key),
            ConfigRow::Model => Some(&self.model),
            ConfigRow::OpusModel => Some(&self.opus_model),
            ConfigRow::SonnetModel => Some(&self.sonnet_model),
            ConfigRow::HaikuModel => Some(&self.haiku_model),
            ConfigRow::SubagentModel => Some(&self.subagent_model),
            ConfigRow::EnvEntry(i) => match self.active {
                Some(ConfigRow::EnvEntry(k)) if k == i => Some(&self.env_value),
                _ => None,
            },
            ConfigRow::EnvAdd => match self.active {
                Some(ConfigRow::EnvAdd) => Some(&self.env_new_key),
                _ => None,
            },
            _ => None,
        }
    }

    /// The edit buffer behind a row, to be changed.
    pub fn field_mut(&mut self, row: ConfigRow) -> (r: Option<&mut InputState>)
        ensures
            match r {
                Some(f) => old(self)@.field(row) == Some(f@) && final(self)@
                    == old(self)@.with_field(row, final(f)@),
                None => old(self)@.field(row) is None && *final(self) == *old(self),
            },
    {
        let live = self.active == Some(row);
        match row {
            ConfigRow::Name => Some(&mut self.name),
            ConfigRow::BaseUrl => Some(&mut self.base_url),
            ConfigRow::ApiKey => Some(&mut self.api_key),
            ConfigRow::Model => Some(&mut self.model),
            ConfigRow::OpusModel => Some(&mut self.opus_model),
            ConfigRow::SonnetModel => Some(&mut self.sonnet_model),
            ConfigRow::HaikuModel => Some(&mut self.haiku_model),
            ConfigRow::SubagentModel => Some(&mut self.subagent_model),
            ConfigRow::EnvEntry(_) => if live {
                Some(&mut self.env_value)
            } else {
                None
            },
            ConfigRow::EnvAdd => if live {
                Some(&mut self.env_new_key)
            } else {
                None
            },
            _ => None,
        }
    }
}

/// A draft for an account that does not exist yet.
pub fn build_draft_new() -> (r: ConfigDraft)
    ensures
        r@ == ConfigDraftView::blank(),
{
    ConfigDraft {
        editing_name: None,
        name: InputState::new(""),
        base_url: InputState::new(""),
        api_key: InputState::new(""),
        model: InputState::new(""),
        opus_model: InputState::new(""),
        sonnet_model: InputState::new(""),
        haiku_model: InputState::new(""),
        subagent_model: InputState::new(""),
        env_value: InputState::new(""),
        env_new_key: InputState::new(""),
        active: None,
        armed_delete: false,
        relogin_chain: false,
        overrides_expanded: false,
        captured_login: None,
    }
}

impl DivergenceNoticeView {
    /// Banner text: names the owner of the live login when it is known.
    pub open spec fn message(self) -> Seq<char> {
        match self.sibling {
            Some(owner) => "live login is '"@ + owner + "' · not the active '"@ + (self.active
                + "' · press d to resolve"@),
            None => "live login no longer matches '"@ + self.active + "' · press d to resolve"@,
        }
    }
}

impl DivergenceNotice {
    /// Banner text.
    pub fn banner_message(&self) -> (r: String)
        ensures
            r@ == self@.message(),
    {
        match &self.sibling {
            Some(owner) => {
                let head = text::joined3(
                    "live login is '",
                    owner.as_str(),
                    "' · not the active '",
                );
                let tail = text::joined(self.active.as_str(), "' · press d to resolve");
                text::joined(head.as_str(), tail.as_str())
            },
            None => text::joined3(
                "live login no longer matches '",
                self.active.as_str(),
                "' · press d to resolve",
            ),
        }
    }
}

/// The rows of the divergence prompt: switching to the owner leads when there is one.
pub open spec fn divergence_actions(sibling: Option<Seq<char>>) -> Seq<DivergenceActionView> {
    let base = match sibling {
        Some(owner) => Seq::<DivergenceActionView>::empty().push(
            DivergenceActionView::SwitchToOwner(owner),
        ),
        None => Seq::<DivergenceActionView>::empty(),
    };
    base.push(DivergenceActionView::Choice(DivergenceChoice::Overwrite)).push(
        DivergenceActionView::Choice(DivergenceChoice::NewProfile),
    ).push(DivergenceActionView::Choice(DivergenceChoice::Discard))
}

impl DivergenceForm {
    /// The rows of the prompt.
    pub fn actions(&self) -> (r: Vec<DivergenceAction>)
        ensures
            divergence_action_views(r@) == divergence_actions(text::opt_view(self.sibling)),
    {
        broadcast use lemma_divergence_action_views_push;

        let mut v: Vec<DivergenceAction> = Vec::new();
        assert(divergence_action_views(v@) =~= Seq::<DivergenceActionView>::empty());
        if let Some(owner) = &self.sibling {
            v.push(DivergenceAction::SwitchToOwner(owner.clone()));
        }
        v.push(DivergenceAction::Choice(DivergenceChoice::Overwrite));
        v.push(DivergenceAction::Choice(DivergenceChoice::NewProfile));
        v.push(DivergenceAction::Choice(DivergenceChoice::Discard));
        v
    }
}

/// The choice at a row of the key-collision prompt.
pub open spec fn collision_choice(i: int) -> EnvCollisionChoice {
    if i == 0 {
        EnvCollisionChoice::Overwrite
    } else if i == 1 {
        EnvCollisionChoice::KeepExisting
    } else {
        EnvCollisionChoice::Cancel
    }
}

impl EnvCollisionForm {
    /// The choices of the prompt, in order.
    pub fn options() -> (r: [EnvCollisionChoice; 3])
        ensures
            forall|i: int| 0 <= i < 3 ==> #[trigger] r@[i] == collision_choice(i),
    {
        [EnvCollisionChoice::Overwrite, EnvCollisionChoice::KeepExisting, EnvCollisionChoice::Cancel]
    }
}

/// The prompt for a key that already exists; the safe choice is preselected.
pub open spec fn collision_form(
    profile: Seq<char>,
    key: Seq<char>,
    collision: EnvKeyCollisionView,
    host: HostView,
) -> EnvCollisionFormView {
    EnvCollisionFormView {
        profile,
        key,
        reason: match collision {
            EnvKeyCollisionView::Managed(label) => label,
            EnvKeyCollisionView::ProfileField(_) => "another custom field on this account"@,
            EnvKeyCollisionView::BaseSettings => "your "@ + host.settings_file(),
        },
        existing_idx: match collision {
            EnvKeyCollisionView::ProfileField(i) => Some(i),
            _ => None,
        },
        cursor: 2,
    }
}

/// The prompt for a key that already exists.
pub fn env_collision_form(
    profile: String,
    key: String,
    collision: EnvKeyCollision,
    host: &Host,
) -> (r: EnvCollisionForm)
    ensures
        r@ == collision_form(profile@, key@, collision@, host@),
        collision_choice(r.cursor as int) == EnvCollisionChoice::Cancel,
{
    let (reason, existing_idx): (String, Option<usize>) = match collision {
        EnvKeyCollision::Managed(label) => (label, None),
        EnvKeyCollision::ProfileField(i) => (
            "another custom field on this account".to_string(),
            Some(i),
        ),
        EnvKeyCollision::BaseSettings => (
            text::joined("your ", host.settings_file().as_str()),
            None,
        ),
    };
    EnvCollisionForm { profile, key, reason, existing_idx, cursor: 2 }
}

} // verus!
