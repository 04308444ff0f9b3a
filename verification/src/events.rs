//! Background news: status feed, token statistics, workers, startup, the tick.

use vstd::prelude::*;

use crate::clock::ProfileActivity;
use crate::feed;
use crate::feed::{IncidentView, StatusEvent, StatusEventView, StatusStateView};
use crate::forms;
use crate::forms::{Banner, BannerSeverity, BannerView, ToastKind};
use crate::model::{AppConfig, AppConfigView, FetchStatus};
use crate::nav;
use crate::requests::{
    AutoSwitch, AutoSwitchView, Request, RequestView, StartupSignal, StartupSignalView,
};
use crate::session;
use crate::state::{
    App, AppView, ExitFlags, StartupFlags, TokenModels, TokenModelsView, TokensUi, Ui,
};
use crate::tabs::Tab;
use crate::text;

verus! {

// ── status feed ─────────────────────────────────────────────────────────────

/// Longest incident title in a toast.
pub const TOAST_TITLE_MAX: usize = 40;

impl AppView {
    /// News of an incident: said while the tab is shown, marked on the tab otherwise.
    #[verifier::opaque]
    pub open spec fn incident_announced(self, title: Seq<char>, active: bool) -> AppView {
        let kind = if active {
            ToastKind::Warning
        } else {
            ToastKind::Info
        };
        if self.ui.tab == Tab::Status {
            self.toasted(
                kind,
                "new incident · "@ + text::clipped(title, TOAST_TITLE_MAX as nat),
            )
        } else {
            self.tab_marked(Tab::Status, kind)
        }
    }

    #[verifier::opaque]
    pub open spec fn status_loaded(
        self,
        incidents: Seq<IncidentView>,
        fetched_at_ms: u64,
        cached: bool,
    ) -> AppView {
        let s = self.with_status(self.status.loaded(incidents, fetched_at_ms, cached));
        match self.status.news(incidents) {
            Some(i) => s.incident_announced(i.title, i.active()),
            None => s,
        }
    }

    /// News from the feed: a failure is said only where the user asked, and kept only while
    /// there is nothing to show.
    #[verifier::opaque]
    pub open spec fn status_heard(self, ev: StatusEventView) -> AppView {
        match ev {
            StatusEventView::Fetched { incidents, fetched_at_ms } => self.status_loaded(
                incidents,
                fetched_at_ms,
                false,
            ),
            StatusEventView::Cached { incidents, fetched_at_ms } => {
                let s = self.status_loaded(incidents, fetched_at_ms, true);
                if self.status.fetching {
                    s.toasted(ToastKind::Danger, "status refresh failed; showing cached"@)
                } else {
                    s
                }
            },
            StatusEventView::Failed(msg) => {
                let s = self.with_status(
                    StatusStateView {
                        fetching: false,
                        error: if self.status.incidents.len() == 0 {
                            Some(msg)
                        } else {
                            self.status.error
                        },
                        ..self.status
                    },
                );
                if self.status.fetching {
                    s.toasted(ToastKind::Danger, "status refresh failed"@)
                } else {
                    s
                }
            },
        }
    }
}

fn announce_incident(app: &mut App, title: &str, active: bool)
    ensures
        final(app)@ == old(app)@.incident_announced(title@, active),
{
    reveal(AppView::incident_announced);
    let kind = if active {
        ToastKind::Warning
    } else {
        ToastKind::Info
    };
    if app.ui.tab == Tab::Status {
        let short = text::truncate(title, TOAST_TITLE_MAX);
        let body = text::joined("new incident · ", short.as_str());
        app.toast(kind, body.as_str());
    } else {
        app.set_tab_activity(Tab::Status, kind);
    }
}

/// Takes over a load of the feed.
pub fn apply_status_incidents(
    app: &mut App,
    incidents: Vec<feed::Incident>,
    fetched_at_ms: u64,
    cached: bool,
)
    ensures
        final(app)@ == old(app)@.status_loaded(
            feed::incident_views(incidents@),
            fetched_at_ms,
            cached,
        ),
{
    reveal(AppView::status_loaded);
    proof {
        reveal(AppView::with_status);
    }
    let news = app.status.load(incidents, fetched_at_ms, cached);
    if let Some((title, active)) = news {
        announce_incident(app, title.as_str(), active);
    }
}

/// Takes news from the feed.
pub fn on_status_event(app: &mut App, ev: StatusEvent)
    ensures
        final(app)@ == old(app)@.status_heard(ev@),
{
    reveal(AppView::status_heard);
    let manual = app.status.fetching;
    match ev {
        StatusEvent::Fetched { incidents, fetched_at_ms } => apply_status_incidents(
            app,
            incidents,
            fetched_at_ms,
            false,
        ),
        StatusEvent::Cached { incidents, fetched_at_ms } => {
            apply_status_incidents(app, incidents, fetched_at_ms, true);
            if manual {
                app.toast(ToastKind::Danger, "status refresh failed; showing cached");
            }
        },
        StatusEvent::Failed(msg) => {
            proof {
                reveal(AppView::with_status);
            }
            app.status.fetching = false;
            assert(app@.status.incidents.len() == app.status.incidents@.len());
            if app.status.incidents.len() == 0 {
                app.status.error = Some(msg);
            }
            if manual {
                app.toast(ToastKind::Danger, "status refresh failed");
            }
        },
    }
}

/// Every piece of news ends a refresh.
pub proof fn status_news_end_the_refresh(s: AppView, ev: StatusEventView)
    ensures
        !s.status_heard(ev).status.fetching,
{
    reveal(AppView::status_heard);
    reveal(AppView::status_loaded);
    reveal(AppView::with_status);
    reveal(AppView::incident_announced);
    reveal(AppView::toasted);
    reveal(AppView::tab_marked);
    reveal(AppView::on);
}

// ── token statistics ────────────────────────────────────────────────────────

/// News of the token statistics.
pub enum TokensEvent {
    /// What was stored, before the transcripts are read.
    Base(TokenModels),
    Progress { done: usize, total: usize },
    Loaded(TokenModels),
    Failed,
}

/// What a [`TokensEvent`] holds.
pub enum TokensEventView {
    Base(TokenModelsView),
    Progress { done: usize, total: usize },
    Loaded(TokenModelsView),
    Failed,
}

impl View for TokensEvent {
    type V = TokensEventView;

    open spec fn view(&self) -> TokensEventView {
        match self {
            TokensEvent::Base(m) => TokensEventView::Base(m@),
            TokensEvent::Progress { done, total } => TokensEventView::Progress {
                done: *done,
                total: *total,
            },
            TokensEvent::Loaded(m) => TokensEventView::Loaded(m@),
            TokensEvent::Failed => TokensEventView::Failed,
        }
    }
}

impl AppView {
    /// The statistics shown.
    #[verifier::opaque]
    pub open spec fn with_models(self, m: TokenModelsView) -> AppView {
        AppView { token_models: m, ..self }
    }

    #[verifier::opaque]
    pub open spec fn on_tokens(self, t: TokensUi) -> AppView {
        self.on(Ui { tokens: t, ..self.ui })
    }

    /// The cursor of the model list on its last row, where it stood beyond it.
    #[verifier::opaque]
    pub open spec fn model_cursor_pulled(self) -> AppView {
        let len = self.token_model_count() as usize;
        if len > 0 && self.ui.tokens.model_cursor >= len {
            self.on_tokens(TokensUi { model_cursor: (len - 1) as usize, ..self.ui.tokens })
        } else {
            self
        }
    }

    /// News of the statistics: a base shows only where nothing is shown, and a failure
    /// leaves what is shown.
    #[verifier::opaque]
    pub open spec fn tokens_heard(self, ev: TokensEventView) -> AppView {
        let t = self.ui.tokens;
        match ev {
            TokensEventView::Base(m) => if t.loaded {
                self.on_tokens(TokensUi { failed: false, ..t })
            } else {
                self.on_tokens(
                    TokensUi { failed: false, loaded: true, topping_up: true, ..t },
                ).with_models(m)
            },
            TokensEventView::Progress { done, total } => self.on_tokens(
                TokensUi { progress: Some((done, total)), ..t },
            ),
            TokensEventView::Loaded(m) => self.on_tokens(
                TokensUi { failed: false, topping_up: false, progress: None, loaded: true, ..t },
            ).with_models(m).model_cursor_pulled(),
            TokensEventView::Failed => self.on_tokens(
                TokensUi { topping_up: false, progress: None, failed: t.failed || !t.loaded, ..t },
            ),
        }
    }
}

fn set_tokens(app: &mut App, t: TokensUi)
    ensures
        final(app)@ == old(app)@.on_tokens(t),
{
    reveal(AppView::on_tokens);
    let ui = Ui { tokens: t, ..app.ui };
    app.set_ui(ui);
}

fn set_models(app: &mut App, m: TokenModels)
    ensures
        final(app)@ == old(app)@.with_models(m@),
{
    reveal(AppView::with_models);
    app.token_models = m;
}

fn pull_model_cursor(app: &mut App)
    ensures
        final(app)@ == old(app)@.model_cursor_pulled(),
{
    reveal(AppView::model_cursor_pulled);
    let len: usize = app.token_model_count();
    if len > 0 && app.ui.tokens.model_cursor >= len {
        set_tokens(app, TokensUi { model_cursor: len - 1, ..app.ui.tokens });
    }
}

/// Takes news of the token statistics.
pub fn on_tokens_event(app: &mut App, ev: TokensEvent)
    ensures
        final(app)@ == old(app)@.tokens_heard(ev@),
{
    reveal(AppView::tokens_heard);
    let t = app.ui.tokens;
    match ev {
        TokensEvent::Base(m) => {
            if t.loaded {
                set_tokens(app, TokensUi { failed: false, ..t });
            } else {
                set_tokens(app, TokensUi { failed: false, loaded: true, topping_up: true, ..t });
                set_models(app, m);
            }
        },
        TokensEvent::Progress { done, total } => {
            set_tokens(app, TokensUi { progress: Some((done, total)), ..t });
        },
        TokensEvent::Loaded(m) => {
            set_tokens(
                app,
                TokensUi { failed: false, topping_up: false, progress: None, loaded: true, ..t },
            );
            set_models(app, m);
            pull_model_cursor(app);
        },
        TokensEvent::Failed => {
            let failed = t.failed || !t.loaded;
            set_tokens(app, TokensUi { topping_up: false, progress: None, failed, ..t });
        },
    }
}

/// Statistics that were shown stay shown, whatever the news.
pub proof fn token_failures_keep_statistics(s: AppView, ev: TokensEventView)
    requires
        s.ui.tokens.loaded,
    ensures
        s.tokens_heard(ev).ui.tokens.loaded,
        ev is Failed || ev is Progress || ev is Base ==> s.tokens_heard(ev).token_models
            == s.token_models,
{
    reveal(AppView::tokens_heard);
    reveal(AppView::on_tokens);
    reveal(AppView::on);
    reveal(AppView::with_models);
    reveal(AppView::model_cursor_pulled);
}

// ── workers ─────────────────────────────────────────────────────────────────

/// News of the updater.
pub enum UpdateEvent {
    Installed(String),
    Available(String),
}

/// What an update says.
pub open spec fn update_message(installed: bool, version: Seq<char>) -> Seq<char> {
    if installed {
        "updated to v"@ + version + "; restart to apply"@
    } else {
        "update available: v"@ + version + "; run `cargo install clauth`"@
    }
}

/// Takes news of the updater.
pub fn on_update_event(app: &mut App, ev: UpdateEvent)
    ensures
        final(app)@ == (match ev {
            UpdateEvent::Installed(v) => old(app)@.toasted(
                ToastKind::Success,
                update_message(true, v@),
            ),
            UpdateEvent::Available(v) => old(app)@.toasted(
                ToastKind::Info,
                update_message(false, v@),
            ),
        }),
{
    match ev {
        UpdateEvent::Installed(v) => {
            let body = text::joined3("updated to v", v.as_str(), "; restart to apply");
            app.toast(ToastKind::Success, body.as_str());
        },
        UpdateEvent::Available(v) => {
            let body = text::joined3(
                "update available: v",
                v.as_str(),
                "; run `cargo install clauth`",
            );
            app.toast(ToastKind::Info, body.as_str());
        },
    }
}

/// Whether the end of a rotation clears the mark of its account: only a rotation's own mark, not
/// that of a switch or a fetch that took its place.
pub fn ends_refresh(a: ProfileActivity) -> (r: bool)
    ensures
        r == (a == ProfileActivity::Refreshing),
{
    a == ProfileActivity::Refreshing
}

/// Whether a wanted fetch marks its account as queued: only an idle one, so that work in flight
/// keeps its mark.
pub fn queues_refetch(a: ProfileActivity) -> (r: bool)
    ensures
        r == (a == ProfileActivity::Idle),
{
    a == ProfileActivity::Idle
}

/// How a token rotation ended.
pub struct OpResult {
    pub name: String,
    pub failure: Option<String>,
}

/// What an [`OpResult`] holds.
pub struct OpResultView {
    pub name: Seq<char>,
    pub failure: Option<Seq<char>>,
}

impl View for OpResult {
    type V = OpResultView;

    open spec fn view(&self) -> OpResultView {
        OpResultView { name: self.name@, failure: text::opt_view(self.failure) }
    }
}

/// The views of a list.
pub open spec fn op_views(v: Seq<OpResult>) -> Seq<OpResultView> {
    v.map_values(|x: OpResult| x@)
}

impl AppView {
    #[verifier::opaque]
    pub open spec fn op_ended(self, r: OpResultView) -> AppView {
        let s = self.asked(RequestView::EndRefresh(r.name));
        match r.failure {
            None => s.toasted(
                ToastKind::Info,
                "rotated token for '"@ + r.name + "'"@,
            ).tab_marked(Tab::Usage, ToastKind::Info),
            Some(e) => s.toasted(
                ToastKind::Danger,
                "refresh for '"@ + r.name + "' failed: "@ + e,
            ).tab_marked(Tab::Usage, ToastKind::Danger),
        }
    }

    /// The first `n` ended rotations taken.
    pub open spec fn ops_ended(self, rs: Seq<OpResultView>, n: nat) -> AppView
        decreases n,
    {
        if n == 0 {
            self
        } else {
            self.ops_ended(rs, (n - 1) as nat).op_ended(rs[n - 1])
        }
    }

    /// Ended rotations: the snapshot of the tokens is rebuilt once, when any went through.
    pub open spec fn ops_drained(self, rs: Seq<OpResultView>) -> AppView {
        let s = self.ops_ended(rs, rs.len());
        if exists|i: int| 0 <= i < rs.len() && (#[trigger] rs[i]).failure is None {
            s.asked(RequestView::RefreshTokens)
        } else {
            s
        }
    }
}

fn end_op(app: &mut App, r: &OpResult)
    ensures
        final(app)@ == old(app)@.op_ended(r@),
{
    reveal(AppView::op_ended);
    app.ask(Request::EndRefresh(r.name.clone()));
    match &r.failure {
        None => {
            let body = text::joined3("rotated token for '", r.name.as_str(), "'");
            app.toast(ToastKind::Info, body.as_str());
            app.set_tab_activity(Tab::Usage, ToastKind::Info);
        },
        Some(e) => {
            let head = text::joined3("refresh for '", r.name.as_str(), "' failed: ");
            let body = text::joined(head.as_str(), e.as_str());
            app.toast(ToastKind::Danger, body.as_str());
            app.set_tab_activity(Tab::Usage, ToastKind::Danger);
        },
    }
}

/// Takes ended token rotations.
pub fn drain_op_results(app: &mut App, results: Vec<OpResult>)
    ensures
        final(app)@ == old(app)@.ops_drained(op_views(results@)),
{
    let ghost all = app@;
    let ghost rs = op_views(results@);
    let mut rebuilt = false;
    let mut i: usize = 0;
    assert(rs.len() == results@.len());
    while i < results.len()
        invariant
            i <= results@.len(),
            rs == op_views(results@),
            rs.len() == results@.len(),
            app@ == all.ops_ended(rs, i as nat),
            rebuilt == (exists|j: int| 0 <= j < i && (#[trigger] rs[j]).failure is None),
        decreases results@.len() - i,
    {
        assert(rs[i as int] == results@[i as int]@);
        end_op(app, &results[i]);
        if results[i].failure.is_none() {
            rebuilt = true;
            assert(rs[i as int].failure is None);
        }
        i = i + 1;
    }
    if rebuilt {
        app.ask(Request::RefreshTokens);
    }
}

/// Dialogs are closed, so that a switch may go on and raise one.
pub fn accepts_switches(app: &App) -> (r: bool)
    ensures
        r == (app@.modals.len() == 0),
{
    assert(forms::modal_views(app.modals@).len() == app.modals@.len());
    app.modals.len() == 0
}

// ── startup ─────────────────────────────────────────────────────────────────

impl AppConfigView {
    /// The active account's usage was read just now.
    pub open spec fn active_is_fresh(self) -> bool {
        match self.state.active_profile {
            Some(n) => match self.find(n) {
                Some(p) => p.fetch_status == Some(FetchStatus::Fresh),
                None => false,
            },
            None => false,
        }
    }
}

impl AppView {
    #[verifier::opaque]
    pub open spec fn on_startup(self, f: StartupFlags) -> AppView {
        self.on(Ui { startup: f, ..self.ui })
    }

    /// The start compares the live login with what is stored.
    #[verifier::opaque]
    pub open spec fn reconcile_begun(self) -> AppView {
        match self.config.state.active_profile {
            None => self.asked(RequestView::PostSignal(StartupSignalView::ReconcileDone)),
            Some(active) => self.asked(RequestView::CompareLogin(active)),
        }
    }

    #[verifier::opaque]
    pub open spec fn login_compared(self, active: Seq<char>, diverged: bool) -> AppView {
        if diverged {
            self.asked(
                RequestView::PostSignal(StartupSignalView::ReconcileNeedsPrompt(active)),
            )
        } else {
            self.asked(RequestView::KeepLogin).asked(
                RequestView::PostSignal(StartupSignalView::ReconcileDone),
            )
        }
    }

    #[verifier::opaque]
    pub open spec fn startup_heard(self, signal: StartupSignalView) -> AppView {
        match signal {
            StartupSignalView::ReconcileDone => self.on_startup(
                StartupFlags { reconcile_done: true, ..self.ui.startup },
            ),
            StartupSignalView::ReconcileNeedsPrompt(active) => self.on_startup(
                StartupFlags { reconcile_done: true, ..self.ui.startup },
            ).asked(RequestView::ReadFingerprint(active)),
            StartupSignalView::BootstrapDone => self.bootstrap_finished(),
        }
    }

    #[verifier::opaque]
    pub open spec fn bootstrap_finished(self) -> AppView {
        self.on_startup(StartupFlags { bootstrap_active: false, ..self.ui.startup }).asked(
            RequestView::RefreshTokens,
        ).asked(RequestView::StartScheduler).asked(RequestView::ApplyUsage).asked(
            RequestView::ProbeDaemon,
        )
    }

    /// A switch at the start needs a reading of now, and nobody else deciding.
    #[verifier::opaque]
    pub open spec fn daemon_probed(self, live: bool) -> AppView {
        if !live && self.config.active_is_fresh() {
            self.asked(RequestView::StartupSwitch)
        } else {
            self
        }
    }

    #[verifier::opaque]
    pub open spec fn startup_switched(self, switch: Option<AutoSwitchView>) -> AppView {
        match switch {
            Some(AutoSwitchView::To(target)) => self.toasted(
                ToastKind::Warning,
                "auto-switched to '"@ + target + "'"@,
            ),
            Some(AutoSwitchView::Off) => self.asked(RequestView::RefreshTokens).toasted(
                ToastKind::Warning,
                "all accounts spent; switched off to halt usage"@,
            ),
            None => self,
        }
    }

    /// The bootstrap starts once, after the comparison and not under a dialog.
    #[verifier::opaque]
    pub open spec fn bootstrap_considered(self) -> AppView {
        if self.ui.startup.bootstrap_started || !self.ui.startup.reconcile_done
            || self.modals.len() > 0 {
            self
        } else {
            self.on_startup(
                StartupFlags {
                    bootstrap_started: true,
                    bootstrap_active: true,
                    ..self.ui.startup
                },
            ).asked(RequestView::SpawnBootstrap)
        }
    }
}

fn set_startup(app: &mut App, f: StartupFlags)
    ensures
        final(app)@ == old(app)@.on_startup(f),
{
    reveal(AppView::on_startup);
    let ui = Ui { startup: f, ..app.ui };
    app.set_ui(ui);
}

/// Compares the live login with what is stored.
pub fn reconcile_startup(app: &mut App)
    ensures
        final(app)@ == old(app)@.reconcile_begun(),
{
    reveal(AppView::reconcile_begun);
    let active = text::clone_opt(&app.config.state.active_profile);
    match active {
        None => app.ask(Request::PostSignal(StartupSignal::ReconcileDone)),
        Some(active) => app.ask(Request::CompareLogin(active)),
    }
}

/// Goes on once it is known whether the live login differs.
pub fn finish_compare(app: &mut App, active: String, diverged: bool)
    ensures
        final(app)@ == old(app)@.login_compared(active@, diverged),
{
    reveal(AppView::login_compared);
    if diverged {
        app.ask(Request::PostSignal(StartupSignal::ReconcileNeedsPrompt(active)));
    } else {
        app.ask(Request::KeepLogin);
        app.ask(Request::PostSignal(StartupSignal::ReconcileDone));
    }
}

/// Goes on once the bootstrap is over.
pub fn finish_bootstrap(app: &mut App)
    ensures
        final(app)@ == old(app)@.bootstrap_finished(),
{
    reveal(AppView::bootstrap_finished);
    set_startup(app, StartupFlags { bootstrap_active: false, ..app.ui.startup });
    app.ask(Request::RefreshTokens);
    app.ask(Request::StartScheduler);
    app.ask(Request::ApplyUsage);
    app.ask(Request::ProbeDaemon);
}

/// Takes a startup signal.
pub fn on_startup_signal(app: &mut App, signal: StartupSignal)
    ensures
        final(app)@ == old(app)@.startup_heard(signal@),
{
    reveal(AppView::startup_heard);
    match signal {
        StartupSignal::ReconcileDone => {
            set_startup(app, StartupFlags { reconcile_done: true, ..app.ui.startup });
        },
        StartupSignal::ReconcileNeedsPrompt(active) => {
            set_startup(app, StartupFlags { reconcile_done: true, ..app.ui.startup });
            session::resolve_or_note_divergence(app, active.as_str());
        },
        StartupSignal::BootstrapDone => finish_bootstrap(app),
    }
}

fn active_is_fresh(cfg: &AppConfig) -> (r: bool)
    ensures
        r == cfg@.active_is_fresh(),
{
    match &cfg.state.active_profile {
        Some(n) => match cfg.find(n.as_str()) {
            Some(p) => match p.fetch_status {
                Some(FetchStatus::Fresh) => true,
                _ => false,
            },
            None => false,
        },
        None => false,
    }
}

/// Goes on once it is known whether another process decides about switches.
pub fn finish_daemon_probe(app: &mut App, live: bool)
    ensures
        final(app)@ == old(app)@.daemon_probed(live),
{
    reveal(AppView::daemon_probed);
    if !live && active_is_fresh(&app.config) {
        app.ask(Request::StartupSwitch);
    }
}

/// Says what a switch at the start did.
pub fn finish_startup_switch(app: &mut App, switch: Option<AutoSwitch>)
    ensures
        final(app)@ == old(app)@.startup_switched(crate::requests::opt_auto_switch(switch)),
{
    reveal(AppView::startup_switched);
    match switch {
        Some(AutoSwitch::To(target)) => {
            let body = text::joined3("auto-switched to '", target.as_str(), "'");
            app.toast(ToastKind::Warning, body.as_str());
        },
        Some(AutoSwitch::Off) => {
            app.ask(Request::RefreshTokens);
            app.toast(ToastKind::Warning, "all accounts spent; switched off to halt usage");
        },
        None => {},
    }
}

/// Starts the bootstrap when its time has come.
pub fn maybe_spawn_bootstrap(app: &mut App)
    ensures
        final(app)@ == old(app)@.bootstrap_considered(),
{
    reveal(AppView::bootstrap_considered);
    if app.ui.startup.bootstrap_started || !app.ui.startup.reconcile_done || !accepts_switches(
        app,
    ) {
        return;
    }
    set_startup(
        app,
        StartupFlags { bootstrap_started: true, bootstrap_active: true, ..app.ui.startup },
    );
    app.ask(Request::SpawnBootstrap);
}

/// The bootstrap is asked for at most once.
pub proof fn bootstrap_starts_once(s: AppView)
    ensures
        s.bootstrap_considered().bootstrap_considered() == s.bootstrap_considered(),
{
    reveal(AppView::bootstrap_considered);
    reveal(AppView::on_startup);
    reveal(AppView::on);
    reveal(AppView::asked);
}

// ── banner and tick ─────────────────────────────────────────────────────────

impl AppConfigView {
    /// There are accounts, and none is active.
    pub open spec fn none_active(self) -> bool {
        self.profiles.len() > 0 && self.state.active_profile is None
    }

    pub open spec fn any_exhausted(self) -> bool {
        exists|i: int| 0 <= i < self.profiles.len() && (#[trigger] self.profiles[i]).facts.exhausted
    }
}

impl AppView {
    /// The banner: no active account first, then a live login that does not match, then a
    /// terminal that is too small.
    pub open spec fn due_banner(self) -> Option<BannerView> {
        if self.config.none_active() {
            Some(
                BannerView {
                    severity: BannerSeverity::Danger,
                    message: if self.config.any_exhausted() {
                        "all accounts spent · switch to a profile to resume"@
                    } else {
                        "no active profile · select one to resume"@
                    },
                },
            )
        } else if self.divergence_pending is Some {
            Some(
                BannerView {
                    severity: BannerSeverity::Warning,
                    message: self.divergence_pending->0.message(),
                },
            )
        } else if self.ui.compact {
            Some(
                BannerView {
                    severity: BannerSeverity::Warning,
                    message: "terminal too small · enlarge for full layout"@,
                },
            )
        } else {
            None
        }
    }

    #[verifier::opaque]
    pub open spec fn banner_updated(self) -> AppView {
        AppView { banner: self.due_banner(), ..self }
    }

    #[verifier::opaque]
    pub open spec fn plugin_polled(self) -> AppView {
        if self.ui.tab != Tab::Plugin || self.modals.len() > 0 || text::monus(
            self.ui.now_ms as int,
            self.ui.last_plugin_refresh as int,
        ) < session::POLL_INTERVAL {
            self
        } else {
            self.on(Ui { last_plugin_refresh: self.ui.now_ms, ..self.ui }).plugin_probe_wanted(
                false,
            )
        }
    }

    #[verifier::opaque]
    pub open spec fn ticked(self) -> AppView {
        self.on(Ui { tick_count: self.ui.tick_count.wrapping_add(1), ..self.ui })
    }

    #[verifier::opaque]
    pub open spec fn shutdown_begun(self) -> AppView {
        self.on(Ui { exit: ExitFlags { shutting_down: true, ..self.ui.exit }, ..self.ui })
    }

    #[verifier::opaque]
    pub open spec fn shutdown_finished(self) -> AppView {
        self.asked(RequestView::KeepLogin).asked(RequestView::SaveState).asked(
            RequestView::DetachLink,
        )
    }
}

fn any_exhausted(cfg: &AppConfig) -> (r: bool)
    ensures
        r == cfg@.any_exhausted(),
{
    let mut i: usize = 0;
    assert(cfg@.profiles.len() == cfg.profiles@.len());
    while i < cfg.profiles.len()
        invariant
            i <= cfg.profiles@.len(),
            cfg@.profiles.len() == cfg.profiles@.len(),
            forall|j: int| 0 <= j < i ==> !(#[trigger] cfg@.profiles[j]).facts.exhausted,
        decreases cfg.profiles@.len() - i,
    {
        assert(cfg@.profiles[i as int] == cfg.profiles@[i as int]@);
        if cfg.profiles[i].facts.exhausted {
            return true;
        }
        i = i + 1;
    }
    false
}

/// Recomputes the banner.
pub fn update_banner(app: &mut App)
    ensures
        final(app)@ == old(app)@.banner_updated(),
{
    reveal(AppView::banner_updated);
    assert(app@.config.profiles.len() == app.config.profiles@.len());
    if app.config.profiles.len() > 0 && app.config.state.active_profile.is_none() {
        let message = if any_exhausted(&app.config) {
            "all accounts spent · switch to a profile to resume"
        } else {
            "no active profile · select one to resume"
        };
        app.banner = Some(
            Banner { severity: BannerSeverity::Danger, message: message.to_string() },
        );
        return;
    }
    let message: Option<String> = match &app.divergence_pending {
        Some(n) => Some(n.banner_message()),
        None => None,
    };
    match message {
        Some(message) => {
            app.banner = Some(Banner { severity: BannerSeverity::Warning, message });
        },
        None => {
            if app.ui.compact {
                app.banner = Some(
                    Banner {
                        severity: BannerSeverity::Warning,
                        message: "terminal too small · enlarge for full layout".to_string(),
                    },
                );
            } else {
                app.banner = None;
            }
        },
    }
}

/// A danger outranks every warning: with no active account the banner says so, whatever
/// else holds, and nothing else is ever a danger.
pub proof fn danger_outranks_warnings(s: AppView)
    ensures
        s.config.none_active() <==> (s.due_banner() is Some && s.due_banner()->0.severity
            == BannerSeverity::Danger),
        s.due_banner() is None <==> !s.config.none_active() && s.divergence_pending is None
            && !s.ui.compact,
{
}

/// Probes the integration again while its tab is shown, at most once a second.
pub fn poll_plugin_refresh(app: &mut App)
    ensures
        final(app)@ == old(app)@.plugin_polled(),
{
    reveal(AppView::plugin_polled);
    let now: u64 = app.ui.now_ms;
    let elapsed: u64 = if now >= app.ui.last_plugin_refresh {
        now - app.ui.last_plugin_refresh
    } else {
        0
    };
    if app.ui.tab != Tab::Plugin || !accepts_switches(app) || elapsed < session::POLL_INTERVAL {
        return;
    }
    let ui = Ui { last_plugin_refresh: now, ..app.ui };
    app.set_ui(ui);
    nav::recompute_plugin_checks(app, false);
}

/// At one moment the integration is probed once, and only while its tab is shown and no dialog
/// is open.
pub proof fn probes_are_paced(s: AppView)
    ensures
        s.plugin_polled().plugin_polled() == s.plugin_polled(),
        s.ui.tab != Tab::Plugin || s.modals.len() > 0 ==> s.plugin_polled() == s,
{
    reveal(AppView::plugin_polled);
    reveal(AppView::plugin_probe_wanted);
    reveal(AppView::asked);
    reveal(AppView::on);
}

/// Counts a tick.
pub fn begin_tick(app: &mut App)
    ensures
        final(app)@ == old(app)@.ticked(),
{
    reveal(AppView::ticked);
    let ui = Ui { tick_count: app.ui.tick_count.wrapping_add(1), ..app.ui };
    app.set_ui(ui);
}

/// Marks the program as shutting down.
pub fn begin_shutdown(app: &mut App)
    ensures
        final(app)@ == old(app)@.shutdown_begun(),
{
    reveal(AppView::shutdown_begun);
    let ui = Ui { exit: ExitFlags { shutting_down: true, ..app.ui.exit }, ..app.ui };
    app.set_ui(ui);
}

/// Stores the live login and the settings and cuts the link, in this order.
pub fn finish_shutdown(app: &mut App)
    ensures
        final(app)@ == old(app)@.shutdown_finished(),
{
    reveal(AppView::shutdown_finished);
    app.ask(Request::KeepLogin);
    app.ask(Request::SaveState);
    app.ask(Request::DetachLink);
}

} // verus!
