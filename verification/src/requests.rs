//! What the interface asks of the world outside, and what it hears back.

use vstd::prelude::*;

use crate::forms::{ConfigRow, EnvKeyCollision};
use crate::model;
use crate::model::{EnvVar, EnvVarView, ModelSettings, ModelSettingsView, Tier};
use crate::plugin::{LinkState, PluginProbe};
use crate::text;

verus! {

/// A piece of outside work. Those marked "answered" are followed by a [`Reply`].
///
/// The work is done in the order it was asked for. What the answer to one piece asks for in
/// turn is done before the next piece.
pub enum Request {
    /// Persist the settings.
    SaveState,
    /// Remember the time of the settings file.
    NoteStateTime,
    /// Rebuild the token snapshot.
    RefreshTokens,
    /// Swap the palette.
    ApplyTier(Tier),
    /// Fetch the usage of every account.
    RefetchAll,
    /// Fetch the usage of one account.
    RefetchOne(String),
    /// Fetch the status feed.
    RefreshStatus,
    /// Read the token statistics again, and the prices.
    ReloadTokens,
    /// Open the page of an incident. Answered.
    OpenIncident(String),
    /// Open the page of a login. Answered.
    OpenLogin(String),
    /// Whose is the live login? Answered.
    FindOwner(String),
    /// Whose is the live login that was just noticed? Answered.
    NoteOwner { active: String, fingerprint: Option<u64> },
    /// What does the live login look like? Answered.
    ReadFingerprint(String),
    /// How does the live login stand to the active account? Answered.
    ReadLink(String),
    /// Is the outgoing account diverged? Answered.
    GuardSwitch { active: String, name: String },
    /// Is the account that is left diverged? Answered.
    GuardSwitchOff(String),
    /// Install an account. Answered.
    SwitchProfile(String),
    /// Leave every account. Answered.
    SwitchOff,
    /// Can a switch start now? Answered.
    ProbeSwitch(String),
    /// Can a switch decided elsewhere start now? Answered.
    ProbeAutoSwitch(String),
    /// Check off the interface thread that the account can be installed.
    RunGate(String),
    /// The account is idle again.
    ClearActivity(String),
    /// Is anything in flight? Answered.
    ProbeBusy,
    /// Rotate the tokens of every account.
    RotateAll,
    /// Does the account have a live session? Answered.
    ProbeRotate(String),
    /// Rotate the tokens of one account.
    RotateOne(String),
    /// Does the account have a live session? Answered.
    ProbeDelete(String),
    /// Remove an account. Answered.
    DeleteProfile { name: String, force: bool },
    /// Move an account in the list. Answered.
    ReorderProfile { from: usize, to: usize },
    /// Read the live login. Answered.
    CaptureBegin(bool),
    /// Read the live login for the account that owns it. Answered.
    CaptureForOwner(String),
    /// Read the live login for a chosen account. Answered.
    CaptureForTarget(String),
    /// Which account holds the live login? Answered.
    MatchLive,
    /// Store a captured login as a new account. Answered.
    CaptureInto { name: String, slot: u64 },
    /// Store a captured login over an account. Answered.
    OverwriteWith { name: String, slot: u64 },
    /// Store a finished login. Answered.
    LoginInto { name: String, slot: u64 },
    /// Store a captured login over the account that is to become active. Answered.
    AdoptInto { name: String, slot: u64 },
    /// Persist the settings after the account became active. Answered.
    SaveAdopted(String),
    /// Link the live login to the account that became active. Answered.
    LinkAdopted(String),
    /// Detach the live login from the active account.
    DetachLink,
    /// Keep what the active account stored. Answered.
    SnapshotActive(String),
    /// Link the live login after it replaced the stored one. Answered.
    LinkOverwritten(String),
    /// Restore the stored login over the live one. Answered.
    LinkDiscarded(String),
    /// Link the live login again. Answered.
    LinkRepaired(String),
    /// Add the server to the program's settings. Answered.
    WireMcp,
    /// Look at the integration. Answered.
    ProbePlugin { forced: bool, version: bool },
    /// Drop the login of an account. Answered.
    ClearCredentials(String),
    /// Drop the key of an account. Answered.
    ClearApiKey(String),
    /// Begin a login in the browser.
    StartLogin { generation: u64, name: String },
    /// Can a login take this name? Answered.
    CheckLoginName(String),
    /// Can a new account take this name? Answered.
    CheckNewName(String),
    /// Can the account take this name? Answered.
    CheckRename { old_name: String, new_name: String },
    /// Who holds this name? Answered.
    CheckCaptureName(String),
    /// Rename an account. Answered.
    RenameProfile { old_name: String, new_name: String },
    /// Store an endpoint and a key. Answered.
    EditEndpoint { name: String, base_url: Option<String>, api_key: Option<String>, field: Option<ConfigRow> },
    /// Store the models of an account. Answered.
    EditModel { name: String, models: ModelSettings, field: Option<ConfigRow> },
    /// Store the custom environment with a changed value. Answered.
    EnvSetValue { name: String, env: Vec<EnvVar>, index: usize },
    /// Store the custom environment with a new key. Answered.
    EnvAddKey { name: String, env: Vec<EnvVar>, key: String },
    /// Store the custom environment without a key. Answered.
    EnvRemove { name: String, env: Vec<EnvVar>, key: String },
    /// Where does this key already exist? Answered.
    ClassifyEnv { name: String, key: String },
    /// Create an account. Answered.
    CreateProfile { name: String, base_url: Option<String>, api_key: Option<String>, model: Option<String>, login: Option<u64>, discarded: bool },
    /// Store whether the account starts its window by itself. Answered.
    SaveAutoStart { name: String, on: bool },
    /// Store whether the account is the last resort. Answered.
    SaveLastResort { name: String, on: bool },
    /// Store that these accounts are not the last resort. Answered.
    SaveCleared(Vec<String>),
    /// Give the account the default threshold.
    SeedThreshold(String),
    /// Step the threshold of a member. Answered.
    StepThreshold { name: String, up: bool },
    /// Store a typed threshold. Answered.
    CommitThreshold { member: Option<String>, raw: String },
    /// Step the weekly line.
    StepWeekly,
    /// Store a typed weekly line. Answered.
    CommitWeekly(String),
    /// Store the first login of an account. Answered.
    AdoptFirstLogin(String),
    /// Start fetching on a schedule.
    StartScheduler,
    /// Take over the usage fetched so far.
    ApplyUsage,
    /// Switch away from a spent account at the start. Answered.
    StartupSwitch,
    /// Start the first fetch.
    SpawnBootstrap,
    /// Is another process deciding about switches? Answered.
    ProbeDaemon,
    /// Does the live login differ from what is stored? Answered.
    CompareLogin(String),
    /// Store the live login with the active account.
    KeepLogin,
    /// Queue a startup signal for the next tick.
    PostSignal(StartupSignal),
    /// The token rotation of an account is over: its mark goes, where it is that of a rotation.
    EndRefresh(String),
}

/// What a [`Request`] holds.
pub enum RequestView {
    SaveState,
    NoteStateTime,
    RefreshTokens,
    ApplyTier(Tier),
    RefetchAll,
    RefetchOne(Seq<char>),
    RefreshStatus,
    ReloadTokens,
    OpenIncident(Seq<char>),
    OpenLogin(Seq<char>),
    FindOwner(Seq<char>),
    NoteOwner { active: Seq<char>, fingerprint: Option<u64> },
    ReadFingerprint(Seq<char>),
    ReadLink(Seq<char>),
    GuardSwitch { active: Seq<char>, name: Seq<char> },
    GuardSwitchOff(Seq<char>),
    SwitchProfile(Seq<char>),
    SwitchOff,
    ProbeSwitch(Seq<char>),
    ProbeAutoSwitch(Seq<char>),
    RunGate(Seq<char>),
    ClearActivity(Seq<char>),
    ProbeBusy,
    RotateAll,
    ProbeRotate(Seq<char>),
    RotateOne(Seq<char>),
    ProbeDelete(Seq<char>),
    DeleteProfile { name: Seq<char>, force: bool },
    ReorderProfile { from: usize, to: usize },
    CaptureBegin(bool),
    CaptureForOwner(Seq<char>),
    CaptureForTarget(Seq<char>),
    MatchLive,
    CaptureInto { name: Seq<char>, slot: u64 },
    OverwriteWith { name: Seq<char>, slot: u64 },
    LoginInto { name: Seq<char>, slot: u64 },
    AdoptInto { name: Seq<char>, slot: u64 },
    SaveAdopted(Seq<char>),
    LinkAdopted(Seq<char>),
    DetachLink,
    SnapshotActive(Seq<char>),
    LinkOverwritten(Seq<char>),
    LinkDiscarded(Seq<char>),
    LinkRepaired(Seq<char>),
    WireMcp,
    ProbePlugin { forced: bool, version: bool },
    ClearCredentials(Seq<char>),
    ClearApiKey(Seq<char>),
    StartLogin { generation: u64, name: Seq<char> },
    CheckLoginName(Seq<char>),
    CheckNewName(Seq<char>),
    CheckRename { old_name: Seq<char>, new_name: Seq<char> },
    CheckCaptureName(Seq<char>),
    RenameProfile { old_name: Seq<char>, new_name: Seq<char> },
    EditEndpoint { name: Seq<char>, base_url: Option<Seq<char>>, api_key: Option<Seq<char>>, field: Option<ConfigRow> },
    EditModel { name: Seq<char>, models: ModelSettingsView, field: Option<ConfigRow> },
    EnvSetValue { name: Seq<char>, env: Seq<EnvVarView>, index: usize },
    EnvAddKey { name: Seq<char>, env: Seq<EnvVarView>, key: Seq<char> },
    EnvRemove { name: Seq<char>, env: Seq<EnvVarView>, key: Seq<char> },
    ClassifyEnv { name: Seq<char>, key: Seq<char> },
    CreateProfile { name: Seq<char>, base_url: Option<Seq<char>>, api_key: Option<Seq<char>>, model: Option<Seq<char>>, login: Option<u64>, discarded: bool },
    SaveAutoStart { name: Seq<char>, on: bool },
    SaveLastResort { name: Seq<char>, on: bool },
    SaveCleared(Seq<Seq<char>>),
    SeedThreshold(Seq<char>),
    StepThreshold { name: Seq<char>, up: bool },
    CommitThreshold { member: Option<Seq<char>>, raw: Seq<char> },
    StepWeekly,
    CommitWeekly(Seq<char>),
    AdoptFirstLogin(Seq<char>),
    StartScheduler,
    ApplyUsage,
    StartupSwitch,
    SpawnBootstrap,
    ProbeDaemon,
    CompareLogin(Seq<char>),
    KeepLogin,
    PostSignal(StartupSignalView),
    EndRefresh(Seq<char>),
}

impl View for Request {
    type V = RequestView;

    open spec fn view(&self) -> RequestView {
        match self {
            Request::SaveState => RequestView::SaveState,
            Request::NoteStateTime => RequestView::NoteStateTime,
            Request::RefreshTokens => RequestView::RefreshTokens,
            Request::ApplyTier(a) => RequestView::ApplyTier(*a),
            Request::RefetchAll => RequestView::RefetchAll,
            Request::RefetchOne(a) => RequestView::RefetchOne(a@),
            Request::RefreshStatus => RequestView::RefreshStatus,
            Request::ReloadTokens => RequestView::ReloadTokens,
            Request::OpenIncident(a) => RequestView::OpenIncident(a@),
            Request::OpenLogin(a) => RequestView::OpenLogin(a@),
            Request::FindOwner(a) => RequestView::FindOwner(a@),
            Request::NoteOwner { active, fingerprint } => RequestView::NoteOwner { active: active@, fingerprint: *fingerprint },
            Request::ReadFingerprint(a) => RequestView::ReadFingerprint(a@),
            Request::ReadLink(a) => RequestView::ReadLink(a@),
            Request::GuardSwitch { active, name } => RequestView::GuardSwitch { active: active@, name: name@ },
            Request::GuardSwitchOff(a) => RequestView::GuardSwitchOff(a@),
            Request::SwitchProfile(a) => RequestView::SwitchProfile(a@),
            Request::SwitchOff => RequestView::SwitchOff,
            Request::ProbeSwitch(a) => RequestView::ProbeSwitch(a@),
            Request::ProbeAutoSwitch(a) => RequestView::ProbeAutoSwitch(a@),
            Request::RunGate(a) => RequestView::RunGate(a@),
            Request::ClearActivity(a) => RequestView::ClearActivity(a@),
            Request::ProbeBusy => RequestView::ProbeBusy,
            Request::RotateAll => RequestView::RotateAll,
            Request::ProbeRotate(a) => RequestView::ProbeRotate(a@),
            Request::RotateOne(a) => RequestView::RotateOne(a@),
            Request::ProbeDelete(a) => RequestView::ProbeDelete(a@),
            Request::DeleteProfile { name, force } => RequestView::DeleteProfile { name: name@, force: *force },
            Request::ReorderProfile { from, to } => RequestView::ReorderProfile { from: *from, to: *to },
            Request::CaptureBegin(a) => RequestView::CaptureBegin(*a),
            Request::CaptureForOwner(a) => RequestView::CaptureForOwner(a@),
            Request::CaptureForTarget(a) => RequestView::CaptureForTarget(a@),
            Request::MatchLive => RequestView::MatchLive,
            Request::CaptureInto { name, slot } => RequestView::CaptureInto { name: name@, slot: *slot },
            Request::OverwriteWith { name, slot } => RequestView::OverwriteWith { name: name@, slot: *slot },
            Request::LoginInto { name, slot } => RequestView::LoginInto { name: name@, slot: *slot },
            Request::AdoptInto { name, slot } => RequestView::AdoptInto { name: name@, slot: *slot },
            Request::SaveAdopted(a) => RequestView::SaveAdopted(a@),
            Request::LinkAdopted(a) => RequestView::LinkAdopted(a@),
            Request::DetachLink => RequestView::DetachLink,
            Request::SnapshotActive(a) => RequestView::SnapshotActive(a@),
            Request::LinkOverwritten(a) => RequestView::LinkOverwritten(a@),
            Request::LinkDiscarded(a) => RequestView::LinkDiscarded(a@),
            Request::LinkRepaired(a) => RequestView::LinkRepaired(a@),
            Request::WireMcp => RequestView::WireMcp,
            Request::ProbePlugin { forced, version } => RequestView::ProbePlugin { forced: *forced, version: *version },
            Request::ClearCredentials(a) => RequestView::ClearCredentials(a@),
            Request::ClearApiKey(a) => RequestView::ClearApiKey(a@),
            Request::StartLogin { generation, name } => RequestView::StartLogin { generation: *generation, name: name@ },
            Request::CheckLoginName(a) => RequestView::CheckLoginName(a@),
            Request::CheckNewName(a) => RequestView::CheckNewName(a@),
            Request::CheckRename { old_name, new_name } => RequestView::CheckRename { old_name: old_name@, new_name: new_name@ },
            Request::CheckCaptureName(a) => RequestView::CheckCaptureName(a@),
            Request::RenameProfile { old_name, new_name } => RequestView::RenameProfile { old_name: old_name@, new_name: new_name@ },
            Request::EditEndpoint { name, base_url, api_key, field } => RequestView::EditEndpoint { name: name@, base_url: text::opt_view(*base_url), api_key: text::opt_view(*api_key), field: *field },
            Request::EditModel { name, models, field } => RequestView::EditModel { name: name@, models: models@, field: *field },
            Request::EnvSetValue { name, env, index } => RequestView::EnvSetValue { name: name@, env: model::env_var_views(env@), index: *index },
            Request::EnvAddKey { name, env, key } => RequestView::EnvAddKey { name: name@, env: model::env_var_views(env@), key: key@ },
            Request::EnvRemove { name, env, key } => RequestView::EnvRemove { name: name@, env: model::env_var_views(env@), key: key@ },
            Request::ClassifyEnv { name, key } => RequestView::ClassifyEnv { name: name@, key: key@ },
            Request::CreateProfile { name, base_url, api_key, model, login, discarded } => RequestView::CreateProfile { name: name@, base_url: text::opt_view(*base_url), api_key: text::opt_view(*api_key), model: text::opt_view(*model), login: *login, discarded: *discarded },
            Request::SaveAutoStart { name, on } => RequestView::SaveAutoStart { name: name@, on: *on },
            Request::SaveLastResort { name, on } => RequestView::SaveLastResort { name: name@, on: *on },
            Request::SaveCleared(a) => RequestView::SaveCleared(text::views(a@)),
            Request::SeedThreshold(a) => RequestView::SeedThreshold(a@),
            Request::StepThreshold { name, up } => RequestView::StepThreshold { name: name@, up: *up },
            Request::CommitThreshold { member, raw } => RequestView::CommitThreshold { member: text::opt_view(*member), raw: raw@ },
            Request::StepWeekly => RequestView::StepWeekly,
            Request::CommitWeekly(a) => RequestView::CommitWeekly(a@),
            Request::AdoptFirstLogin(a) => RequestView::AdoptFirstLogin(a@),
            Request::StartScheduler => RequestView::StartScheduler,
            Request::ApplyUsage => RequestView::ApplyUsage,
            Request::StartupSwitch => RequestView::StartupSwitch,
            Request::SpawnBootstrap => RequestView::SpawnBootstrap,
            Request::ProbeDaemon => RequestView::ProbeDaemon,
            Request::CompareLogin(a) => RequestView::CompareLogin(a@),
            Request::KeepLogin => RequestView::KeepLogin,
            Request::PostSignal(a) => RequestView::PostSignal(a@),
            Request::EndRefresh(a) => RequestView::EndRefresh(a@),
        }
    }
}

/// The views of a list.
pub open spec fn request_views(v: Seq<Request>) -> Seq<RequestView> {
    v.map_values(|x: Request| x@)
}

/// Extending a list extends its views.
pub broadcast proof fn lemma_request_views_push(v: Seq<Request>, x: Request)
    ensures
        #[trigger] request_views(v.push(x)) == request_views(v).push(x@),
{
    assert(request_views(v.push(x)) =~= request_views(v).push(x@));
}

/// How far the start of the program has come.
pub enum StartupSignal {
    ReconcileDone,
    /// The live login does not match the active account.
    ReconcileNeedsPrompt(String),
    BootstrapDone,
}

/// What a [`StartupSignal`] holds.
pub enum StartupSignalView {
    ReconcileDone,
    ReconcileNeedsPrompt(Seq<char>),
    BootstrapDone,
}

impl View for StartupSignal {
    type V = StartupSignalView;

    open spec fn view(&self) -> StartupSignalView {
        match self {
            StartupSignal::ReconcileDone => StartupSignalView::ReconcileDone,
            StartupSignal::ReconcileNeedsPrompt(a) => StartupSignalView::ReconcileNeedsPrompt(a@),
            StartupSignal::BootstrapDone => StartupSignalView::BootstrapDone,
        }
    }
}

/// What a captured login holds.
#[derive(Debug, Clone, Copy, PartialEq, Eq, Structural)]
pub struct CaptureFacts {
    pub oauth: bool,
    pub base_url: bool,
    pub api_key: bool,
}

/// What a startup switch did.
pub enum AutoSwitch {
    To(String),
    Off,
}

/// What a [`AutoSwitch`] holds.
pub enum AutoSwitchView {
    To(Seq<char>),
    Off,
}

impl View for AutoSwitch {
    type V = AutoSwitchView;

    open spec fn view(&self) -> AutoSwitchView {
        match self {
            AutoSwitch::To(a) => AutoSwitchView::To(a@),
            AutoSwitch::Off => AutoSwitchView::Off,
        }
    }
}

/// The view of an optional value.
pub open spec fn opt_auto_switch(o: Option<AutoSwitch>) -> Option<AutoSwitchView> {
    match o {
        Some(x) => Some(x@),
        None => None,
    }
}

/// The answer to a [`Request`].
pub enum Reply {
    Done,
    /// The operation failed, with its message.
    Failed(String),
    /// The typed value was not accepted.
    Invalid,
    Flag(bool),
    Name(Option<String>),
    Fingerprint(Option<u64>),
    /// State of the credential link; none when it could not be read.
    Link { state: Option<LinkState>, first_login: bool },
    /// Whether a switch is in flight, and whether the account is idle.
    Busy { gate: bool, idle: bool },
    /// A captured login: what it holds, and the account that already holds it.
    Captured { slot: u64, found: CaptureFacts, owner: Option<String> },
    Collision(Option<EnvKeyCollision>),
    /// Which of several saves succeeded.
    Saved(Vec<bool>),
    Switched(Option<AutoSwitch>),
    Probed(PluginProbe),
}

} // verus!
