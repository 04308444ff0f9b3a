//! The state of the interface.

use vstd::prelude::*;

use crate::feed::{StatusFocus, StatusState, StatusStateView};
use crate::forms;
use crate::forms::{
    Banner, BannerView, ConfigDraft, ConfigDraftView, ConfigFocus, DivergenceNotice,
    DivergenceNoticeView, FallbackFocus, LoginSession, LoginSessionView, Modal, ModalView, Toast,
    ToastKind, ToastView,
};
use crate::host::{Host, HostView};
use crate::input;
use crate::input::{InputState, InputView};
use crate::model::{AppConfig, AppConfigView, Tier};
use crate::plugin::{PluginFocus, PluginState, PluginStateView};
use crate::requests;
use crate::requests::{Request, RequestView};
use crate::tabs::{Tab, TokenFilter, TokenPeriod, TokenView};
use crate::text;

verus! {

/// Background-event marks of the tabs.
#[derive(Debug, Clone, Copy)]
pub struct TabMarks {
    pub overview: Option<ToastKind>,
    pub usage: Option<ToastKind>,
    pub tokens: Option<ToastKind>,
    pub setup: Option<ToastKind>,
    pub fallback: Option<ToastKind>,
    pub config: Option<ToastKind>,
    pub status: Option<ToastKind>,
    pub plugin: Option<ToastKind>,
}

/// State of the Tokens tab.
#[derive(Debug, Clone, Copy)]
pub struct TokensUi {
    pub view: TokenView,
    pub model_cursor: usize,
    pub filter: TokenFilter,
    pub period: TokenPeriod,
    /// Statistics have been loaded.
    pub loaded: bool,
    /// Loading failed and there is nothing to show.
    pub failed: bool,
    /// A sweep over the transcripts is under way.
    pub topping_up: bool,
    /// Done and total of the sweep.
    pub progress: Option<(usize, usize)>,
}

/// How far leaving the program has come.
#[derive(Debug, Clone, Copy, PartialEq, Eq, Structural)]
pub struct ExitFlags {
    pub quit: bool,
    /// A first quit key was pressed.
    pub armed: bool,
    pub shutting_down: bool,
}

/// How far the start of the program has come.
#[derive(Debug, Clone, Copy, PartialEq, Eq, Structural)]
pub struct StartupFlags {
    pub reconcile_done: bool,
    pub bootstrap_started: bool,
    pub bootstrap_active: bool,
}

/// Cursors, focus and flags.
#[derive(Debug, Clone, Copy)]
pub struct Ui {
    /// Clock reading of the current event, in milliseconds.
    pub now_ms: u64,
    pub tab: Tab,
    /// Selected account, shared by Overview, Usage and Setup; on Setup it may rest on
    /// the trailing new-account row.
    pub profile_cursor: usize,
    pub config_focus: ConfigFocus,
    pub config_action_cursor: usize,
    pub chain_cursor: usize,
    pub fallback_focus: FallbackFocus,
    pub fallback_detail_cursor: usize,
    pub fallback_armed_remove: bool,
    pub global_config_cursor: usize,
    /// The terminal is too short for the normal layout.
    pub compact: bool,
    pub login_generation: u64,
    pub tier: Tier,
    pub refresh_interval: u64,
    pub tokens: TokensUi,
    pub tick_count: u64,
    pub exit: ExitFlags,
    pub startup: StartupFlags,
    pub last_divergence_check: u64,
    pub last_plugin_refresh: u64,
    pub marks: TabMarks,
}

/// For each time window, whose model each listed row is: true for the house's own.
pub struct TokenModels {
    pub lifetime: Vec<bool>,
    pub daily: Vec<bool>,
    pub weekly: Vec<bool>,
    pub monthly: Vec<bool>,
}

/// What a [`TokenModels`] holds.
pub struct TokenModelsView {
    pub lifetime: Seq<bool>,
    pub daily: Seq<bool>,
    pub weekly: Seq<bool>,
    pub monthly: Seq<bool>,
}

impl View for TokenModels {
    type V = TokenModelsView;

    open spec fn view(&self) -> TokenModelsView {
        TokenModelsView {
            lifetime: self.lifetime@,
            daily: self.daily@,
            weekly: self.weekly@,
            monthly: self.monthly@,
        }
    }
}

/// The interface: everything that decides what a key does and what is shown.
pub struct App {
    pub host: Host,
    pub config: AppConfig,
    pub ui: Ui,
    /// Open while the Setup detail pane has focus.
    pub config_draft: Option<ConfigDraft>,
    pub fallback_threshold_draft: Option<InputState>,
    pub refresh_interval_draft: Option<InputState>,
    pub weekly_threshold_draft: Option<InputState>,
    pub modals: Vec<Modal>,
    pub toasts: Vec<Toast>,
    pub footer_alert: Option<String>,
    pub banner: Option<Banner>,
    pub divergence_pending: Option<DivergenceNotice>,
    pub login: Option<LoginSession>,
    pub status: StatusState,
    pub plugin: PluginState,
    pub token_models: TokenModels,
    /// Accounts whose bell has rung for the current crossing.
    pub bell_fired: Vec<String>,
    /// Outside work asked for and not yet handed out.
    pub requests: Vec<Request>,
}

/// What a [`App`] holds.
pub struct AppView {
    pub host: HostView,
    pub config: AppConfigView,
    pub ui: Ui,
    pub config_draft: Option<ConfigDraftView>,
    pub fallback_threshold_draft: Option<InputView>,
    pub refresh_interval_draft: Option<InputView>,
    pub weekly_threshold_draft: Option<InputView>,
    pub modals: Seq<ModalView>,
    pub toasts: Seq<ToastView>,
    pub footer_alert: Option<Seq<char>>,
    pub banner: Option<BannerView>,
    pub divergence_pending: Option<DivergenceNoticeView>,
    pub login: Option<LoginSessionView>,
    pub status: StatusStateView,
    pub plugin: PluginStateView,
    pub token_models: TokenModelsView,
    pub bell_fired: Seq<Seq<char>>,
    pub requests: Seq<RequestView>,
}

impl View for App {
    type V = AppView;

    open spec fn view(&self) -> AppView {
        AppView {
            host: self.host@,
            config: self.config@,
            ui: self.ui,
            config_draft: forms::opt_config_draft(self.config_draft),
            fallback_threshold_draft: input::opt_input_state(self.fallback_threshold_draft),
            refresh_interval_draft: input::opt_input_state(self.refresh_interval_draft),
            weekly_threshold_draft: input::opt_input_state(self.weekly_threshold_draft),
            modals: forms::modal_views(self.modals@),
            toasts: forms::toast_views(self.toasts@),
            footer_alert: text::opt_view(self.footer_alert),
            banner: forms::opt_banner(self.banner),
            divergence_pending: forms::opt_divergence_notice(self.divergence_pending),
            login: forms::opt_login_session(self.login),
            status: self.status@,
            plugin: self.plugin@,
            token_models: self.token_models@,
            bell_fired: text::views(self.bell_fired@),
            requests: requests::request_views(self.requests@),
        }
    }
}

/// Most toasts shown at a time.
pub const TOAST_CAPACITY: usize = 3;

/// Life of a toast, in milliseconds.
pub const TOAST_TTL_NORMAL: u64 = 3000;

/// Life of a danger toast, in milliseconds.
pub const TOAST_TTL_DANGER: u64 = 6000;

/// Terminal height below which the normal layout does not fit.
pub const COMPACT_HEIGHT: u16 = 14;

// ── marks ───────────────────────────────────────────────────────────────────

impl ToastKind {
    /// Rank among severities.
    pub open spec fn rank(self) -> int {
        match self {
            ToastKind::Danger => 3,
            ToastKind::Warning => 2,
            ToastKind::Success => 1,
            ToastKind::Info => 0,
        }
    }

    /// Rank among severities.
    pub fn severity(self) -> (r: u8)
        ensures
            r == self.rank(),
    {
        match self {
            ToastKind::Danger => 3,
            ToastKind::Warning => 2,
            ToastKind::Success => 1,
            ToastKind::Info => 0,
        }
    }
}

impl TabMarks {
    pub open spec fn clear() -> TabMarks {
        TabMarks {
            overview: None,
            usage: None,
            tokens: None,
            setup: None,
            fallback: None,
            config: None,
            status: None,
            plugin: None,
        }
    }

    pub open spec fn at(self, tab: Tab) -> Option<ToastKind> {
        match tab {
            Tab::Overview => self.overview,
            Tab::Usage => self.usage,
            Tab::Tokens => self.tokens,
            Tab::Setup => self.setup,
            Tab::Fallback => self.fallback,
            Tab::Config => self.config,
            Tab::Status => self.status,
            Tab::Plugin => self.plugin,
        }
    }

    pub open spec fn with(self, tab: Tab, kind: Option<ToastKind>) -> TabMarks {
        match tab {
            Tab::Overview => TabMarks { overview: kind, ..self },
            Tab::Usage => TabMarks { usage: kind, ..self },
            Tab::Tokens => TabMarks { tokens: kind, ..self },
            Tab::Setup => TabMarks { setup: kind, ..self },
            Tab::Fallback => TabMarks { fallback: kind, ..self },
            Tab::Config => TabMarks { config: kind, ..self },
            Tab::Status => TabMarks { status: kind, ..self },
            Tab::Plugin => TabMarks { plugin: kind, ..self },
        }
    }

    /// The mark of a tab.
    pub fn get(&self, tab: Tab) -> (r: Option<ToastKind>)
        ensures
            r == self.at(tab),
    {
        match tab {
            Tab::Overview => self.overview,
            Tab::Usage => self.usage,
            Tab::Tokens => self.tokens,
            Tab::Setup => self.setup,
            Tab::Fallback => self.fallback,
            Tab::Config => self.config,
            Tab::Status => self.status,
            Tab::Plugin => self.plugin,
        }
    }

    /// Replaces the mark of a tab.
    pub fn put(&mut self, tab: Tab, kind: Option<ToastKind>)
        ensures
            *final(self) == old(self).with(tab, kind),
    {
        match tab {
            Tab::Overview => {
                self.overview = kind;
            },
            Tab::Usage => {
                self.usage = kind;
            },
            Tab::Tokens => {
                self.tokens = kind;
            },
            Tab::Setup => {
                self.setup = kind;
            },
            Tab::Fallback => {
                self.fallback = kind;
            },
            Tab::Config => {
                self.config = kind;
            },
            Tab::Status => {
                self.status = kind;
            },
            Tab::Plugin => {
                self.plugin = kind;
            },
        }
    }
}

/// The marks after an event of severity `kind` on `tab` while `current` is shown: the
/// shown tab is not marked, and a mark only ever rises.
pub open spec fn marked(m: TabMarks, current: Tab, tab: Tab, kind: ToastKind) -> TabMarks {
    if tab == current {
        m
    } else {
        match m.at(tab) {
            Some(prev) if kind.rank() <= prev.rank() => m,
            _ => m.with(tab, Some(kind)),
        }
    }
}

/// An event never lowers the mark of a tab, never marks the shown tab, and leaves the
/// other tabs alone.
pub proof fn marks_only_rise(m: TabMarks, current: Tab, tab: Tab, kind: ToastKind, other: Tab)
    ensures
        ({
            let n = marked(m, current, tab, kind);
            &&& n.at(current) == m.at(current)
            &&& other != tab ==> n.at(other) == m.at(other)
            &&& tab != current ==> n.at(tab) is Some && n.at(tab)->0.rank() >= kind.rank()
            &&& m.at(tab) is Some ==> n.at(tab) is Some && n.at(tab)->0.rank() >= m.at(
                tab,
            )->0.rank()
        }),
{
}

// ── toasts ──────────────────────────────────────────────────────────────────

/// The toasts after one more: the oldest gives way when there are too many.
pub open spec fn toast_added(q: Seq<ToastView>, t: ToastView) -> Seq<ToastView> {
    (if q.len() >= TOAST_CAPACITY {
        q.drop_first()
    } else {
        q
    }).push(t)
}

/// Whether a toast has outlived its time.
pub open spec fn toast_expired(t: ToastView, now_ms: u64) -> bool {
    text::monus(now_ms as int, t.born as int) >= (if t.kind == ToastKind::Danger {
        TOAST_TTL_DANGER
    } else {
        TOAST_TTL_NORMAL
    })
}

/// The toasts without the expired ones at the front.
pub open spec fn toasts_pruned(q: Seq<ToastView>, now_ms: u64) -> Seq<ToastView>
    decreases q.len(),
{
    if q.len() > 0 && toast_expired(q[0], now_ms) {
        toasts_pruned(q.drop_first(), now_ms)
    } else {
        q
    }
}

/// A queue within capacity stays within it, and the newest toast is always shown.
pub proof fn toasts_stay_within_capacity(q: Seq<ToastView>, t: ToastView)
    requires
        q.len() <= TOAST_CAPACITY,
    ensures
        toast_added(q, t).len() <= TOAST_CAPACITY,
        toast_added(q, t).last() == t,
{
}

/// Pruning drops toasts from the front only, leaves an unexpired one at the front, and
/// pruning again at the same time changes nothing.
pub proof fn pruning_drops_expired_front(q: Seq<ToastView>, now_ms: u64)
    ensures
        ({
            let p = toasts_pruned(q, now_ms);
            &&& p.len() <= q.len()
            &&& p == q.skip(q.len() - p.len())
            &&& p.len() > 0 ==> !toast_expired(p[0], now_ms)
            &&& toasts_pruned(p, now_ms) == p
        }),
    decreases q.len(),
{
    if q.len() > 0 && toast_expired(q[0], now_ms) {
        pruning_drops_expired_front(q.drop_first(), now_ms);
        let p = toasts_pruned(q, now_ms);
        assert(q.drop_first().skip(q.len() - 1 - p.len()) =~= q.skip(q.len() - p.len()));
    } else {
        assert(q.skip(0) =~= q);
    }
}

// ── token models ────────────────────────────────────────────────────────────

/// How many of the first `n` listed models a filter keeps.
pub open spec fn admitted(flags: Seq<bool>, filter: TokenFilter, n: nat) -> nat
    decreases n,
{
    if n == 0 {
        0
    } else {
        admitted(flags, filter, (n - 1) as nat) + (if filter.admits(flags[n - 1]) {
            1nat
        } else {
            0nat
        })
    }
}

impl TokenModelsView {
    pub open spec fn rows(self, period: TokenPeriod) -> Seq<bool> {
        match period {
            TokenPeriod::Lifetime => self.lifetime,
            TokenPeriod::Daily => self.daily,
            TokenPeriod::Weekly => self.weekly,
            TokenPeriod::Monthly => self.monthly,
        }
    }

    pub open spec fn count(self, period: TokenPeriod, filter: TokenFilter) -> nat {
        admitted(self.rows(period), filter, self.rows(period).len())
    }
}

/// The two narrowing filters split the rows of every window between them.
pub proof fn filtered_counts_add_up(m: TokenModelsView, period: TokenPeriod)
    ensures
        m.count(period, TokenFilter::All) == m.rows(period).len(),
        m.count(period, TokenFilter::Claude) + m.count(period, TokenFilter::Others) == m.count(
            period,
            TokenFilter::All,
        ),
{
    lemma_admitted_split(m.rows(period), m.rows(period).len());
}

proof fn lemma_admitted_split(flags: Seq<bool>, n: nat)
    ensures
        admitted(flags, TokenFilter::All, n) == n,
        admitted(flags, TokenFilter::Claude, n) + admitted(flags, TokenFilter::Others, n) == n,
    decreases n,
{
    if n > 0 {
        lemma_admitted_split(flags, (n - 1) as nat);
    }
}

proof fn lemma_admitted_bound(flags: Seq<bool>, filter: TokenFilter, n: nat)
    ensures
        admitted(flags, filter, n) <= n,
    decreases n,
{
    if n > 0 {
        lemma_admitted_bound(flags, filter, (n - 1) as nat);
    }
}

fn count_admitted(flags: &Vec<bool>, filter: TokenFilter) -> (r: usize)
    ensures
        r == admitted(flags@, filter, flags@.len()),
{
    let mut n: usize = 0;
    let mut i: usize = 0;
    while i < flags.len()
        invariant
            i <= flags@.len(),
            n == admitted(flags@, filter, i as nat),
            n <= i,
        decreases flags@.len() - i,
    {
        if filter.matches(flags[i]) {
            n = n + 1;
        }
        i = i + 1;
    }
    n
}

// ── the whole ───────────────────────────────────────────────────────────────

impl AppView {
    /// The interface at launch.
    pub open spec fn initial(
        host: HostView,
        config: AppConfigView,
        tier: Tier,
        now_ms: u64,
    ) -> AppView {
        AppView {
            host,
            config,
            ui: Ui {
                now_ms,
                tab: Tab::Overview,
                profile_cursor: 0,
                config_focus: ConfigFocus::Profiles,
                config_action_cursor: 0,
                chain_cursor: 0,
                fallback_focus: FallbackFocus::Chain,
                fallback_detail_cursor: 0,
                fallback_armed_remove: false,
                global_config_cursor: 0,
                compact: false,
                login_generation: 0,
                tier,
                refresh_interval: config.state.refresh_interval_ms,
                tokens: TokensUi {
                    view: TokenView::Dashboard,
                    model_cursor: 0,
                    filter: TokenFilter::All,
                    period: TokenPeriod::Lifetime,
                    loaded: false,
                    failed: false,
                    topping_up: false,
                    progress: None,
                },
                tick_count: 0,
                exit: ExitFlags { quit: false, armed: false, shutting_down: false },
                startup: StartupFlags {
                    reconcile_done: false,
                    bootstrap_started: false,
                    bootstrap_active: false,
                },
                last_divergence_check: now_ms,
                last_plugin_refresh: now_ms,
                marks: TabMarks::clear(),
            },
            config_draft: None,
            fallback_threshold_draft: None,
            refresh_interval_draft: None,
            weekly_threshold_draft: None,
            modals: Seq::empty(),
            toasts: Seq::empty(),
            footer_alert: None,
            banner: None,
            divergence_pending: None,
            login: None,
            status: StatusStateView::initial(),
            plugin: PluginStateView::initial(),
            token_models: TokenModelsView {
                lifetime: Seq::empty(),
                daily: Seq::empty(),
                weekly: Seq::empty(),
                monthly: Seq::empty(),
            },
            bell_fired: Seq::empty(),
            requests: Seq::empty(),
        }
    }

    #[verifier::opaque]
    pub open spec fn toasted(self, kind: ToastKind, body: Seq<char>) -> AppView {
        AppView {
            toasts: toast_added(self.toasts, ToastView { kind, body, born: self.ui.now_ms }),
            ..self
        }
    }

    #[verifier::opaque]
    pub open spec fn asked(self, r: RequestView) -> AppView {
        AppView { requests: self.requests.push(r), ..self }
    }

    #[verifier::opaque]
    pub open spec fn with_modal(self, m: ModalView) -> AppView {
        AppView { modals: self.modals.push(m), ..self }
    }

    #[verifier::opaque]
    pub open spec fn without_modal(self) -> AppView {
        AppView {
            modals: if self.modals.len() > 0 {
                self.modals.drop_last()
            } else {
                self.modals
            },
            ..self
        }
    }

    #[verifier::opaque]
    pub open spec fn on(self, ui: Ui) -> AppView {
        AppView { ui, ..self }
    }

    #[verifier::opaque]
    pub open spec fn disarmed(self) -> AppView {
        AppView {
            ui: Ui { exit: ExitFlags { armed: false, ..self.ui.exit }, ..self.ui },
            footer_alert: None,
            ..self
        }
    }

    #[verifier::opaque]
    pub open spec fn tab_marked(self, tab: Tab, kind: ToastKind) -> AppView {
        self.on(Ui { marks: marked(self.ui.marks, self.ui.tab, tab, kind), ..self.ui })
    }

    /// The account cursor pulled back onto an account.
    #[verifier::opaque]
    pub open spec fn profile_clamped(self) -> AppView {
        self.on(
            Ui {
                profile_cursor: text::min_int(
                    self.ui.profile_cursor as int,
                    text::monus(self.config.profiles.len() as int, 1),
                ) as usize,
                ..self.ui
            },
        )
    }

    /// The account under the cursor.
    pub open spec fn focused(self) -> Option<crate::model::ProfileView> {
        if self.ui.profile_cursor < self.config.profiles.len() {
            Some(self.config.profiles[self.ui.profile_cursor as int])
        } else {
            None
        }
    }

    /// A detail pane has focus, so that leaving it comes before leaving the program.
    pub open spec fn sub_focus(self) -> bool {
        ||| self.ui.tab == Tab::Setup && self.ui.config_focus == ConfigFocus::Actions
        ||| self.ui.tab == Tab::Fallback && self.ui.fallback_focus == FallbackFocus::Detail
        ||| self.ui.tab == Tab::Status && self.status.focus == StatusFocus::Detail
        ||| self.ui.tab == Tab::Plugin && self.plugin.focus == PluginFocus::Detail
        ||| self.ui.tab == Tab::Tokens && self.ui.tokens.view == TokenView::Models
    }

    pub open spec fn token_model_count(self) -> nat {
        self.token_models.count(self.ui.tokens.period, self.ui.tokens.filter)
    }

    /// The settings with one field replaced, persisted.
    #[verifier::opaque]
    pub open spec fn state_saved(self, state: crate::model::AppStateView) -> AppView {
        AppView { config: AppConfigView { state, ..self.config }, ..self }.asked(
            RequestView::SaveState,
        ).asked(RequestView::NoteStateTime)
    }
}

/// What happens to one entry of the account list.
#[derive(Debug, Clone, Copy, PartialEq, Eq, Structural)]
pub enum MainItemKind {
    Profile(usize),
}

impl App {
    /// The interface at launch.
    pub fn new(host: Host, config: AppConfig, tier: Tier, now_ms: u64) -> (r: App)
        ensures
            r@ == AppView::initial(host@, config@, tier, now_ms),
    {
        let modals: Vec<Modal> = Vec::new();
        let toasts: Vec<Toast> = Vec::new();
        let requests: Vec<Request> = Vec::new();
        let bell_fired: Vec<String> = Vec::new();
        proof {
            assert(forms::modal_views(modals@) =~= Seq::<ModalView>::empty());
            assert(forms::toast_views(toasts@) =~= Seq::<ToastView>::empty());
            assert(requests::request_views(requests@) =~= Seq::<RequestView>::empty());
            assert(text::views(bell_fired@) =~= Seq::<Seq<char>>::empty());
        }
        let interval: u64 = config.state.refresh_interval_ms;
        App {
            host,
            config,
            ui: Ui {
                now_ms,
                tab: Tab::Overview,
                profile_cursor: 0,
                config_focus: ConfigFocus::Profiles,
                config_action_cursor: 0,
                chain_cursor: 0,
                fallback_focus: FallbackFocus::Chain,
                fallback_detail_cursor: 0,
                fallback_armed_remove: false,
                global_config_cursor: 0,
                compact: false,
                login_generation: 0,
                tier,
                refresh_interval: interval,
                tokens: TokensUi {
                    view: TokenView::Dashboard,
                    model_cursor: 0,
                    filter: TokenFilter::All,
                    period: TokenPeriod::Lifetime,
                    loaded: false,
                    failed: false,
                    topping_up: false,
                    progress: None,
                },
                tick_count: 0,
                exit: ExitFlags { quit: false, armed: false, shutting_down: false },
                startup: StartupFlags {
                    reconcile_done: false,
                    bootstrap_started: false,
                    bootstrap_active: false,
                },
                last_divergence_check: now_ms,
                last_plugin_refresh: now_ms,
                marks: TabMarks {
                    overview: None,
                    usage: None,
                    tokens: None,
                    setup: None,
                    fallback: None,
                    config: None,
                    status: None,
                    plugin: None,
                },
            },
            config_draft: None,
            fallback_threshold_draft: None,
            refresh_interval_draft: None,
            weekly_threshold_draft: None,
            modals,
            toasts,
            footer_alert: None,
            banner: None,
            divergence_pending: None,
            login: None,
            status: StatusState::default(),
            plugin: PluginState::default(),
            token_models: TokenModels {
                lifetime: Vec::new(),
                daily: Vec::new(),
                weekly: Vec::new(),
                monthly: Vec::new(),
            },
            bell_fired,
            requests,
        }
    }

    /// Replaces cursors, focus and flags.
    pub fn set_ui(&mut self, ui: Ui)
        ensures
            final(self)@ == old(self)@.on(ui),
            final(self).ui == ui,
    {
        reveal(AppView::on);
        self.ui = ui;
    }

    /// Shows a message.
    pub fn toast(&mut self, kind: ToastKind, body: &str)
        ensures
            final(self)@ == old(self)@.toasted(kind, body@),
    {
        reveal(AppView::toasted);
        broadcast use forms::lemma_toast_views_push;

        assert(forms::toast_views(self.toasts@).len() == self.toasts@.len());
        if self.toasts.len() >= TOAST_CAPACITY {
            let ghost before = self.toasts@;
            self.toasts.remove(0);
            assert(forms::toast_views(self.toasts@) =~= forms::toast_views(before).drop_first());
        }
        self.toasts.push(Toast { kind, body: body.to_string(), born: self.ui.now_ms });
    }

    /// Drops the expired messages at the front.
    pub fn prune_toasts(&mut self)
        ensures
            final(self)@ == (AppView {
                toasts: toasts_pruned(old(self)@.toasts, old(self)@.ui.now_ms),
                ..old(self)@
            }),
    {
        let ghost all = self@;
        let now: u64 = self.ui.now_ms;
        while self.toasts.len() > 0
            invariant_except_break
                now == self.ui.now_ms,
                self@ == (AppView { toasts: self@.toasts, ..all }),
                toasts_pruned(self@.toasts, now) == toasts_pruned(all.toasts, now),
            ensures
                self@ == (AppView { toasts: toasts_pruned(all.toasts, now), ..all }),
            decreases self.toasts@.len(),
        {
            assert(forms::toast_views(self.toasts@).len() == self.toasts@.len());
            assert(forms::toast_views(self.toasts@)[0] == self.toasts@[0]@);
            let ttl: u64 = if self.toasts[0].kind == ToastKind::Danger {
                TOAST_TTL_DANGER
            } else {
                TOAST_TTL_NORMAL
            };
            let age: u64 = if now >= self.toasts[0].born {
                now - self.toasts[0].born
            } else {
                0
            };
            if age < ttl {
                break;
            }
            let ghost before = self.toasts@;
            self.toasts.remove(0);
            assert(forms::toast_views(self.toasts@) =~= forms::toast_views(before).drop_first());
        }
    }

    /// Dismisses the oldest message.
    pub fn pop_toast(&mut self)
        ensures
            final(self)@ == (AppView {
                toasts: if old(self)@.toasts.len() > 0 {
                    old(self)@.toasts.drop_first()
                } else {
                    old(self)@.toasts
                },
                ..old(self)@
            }),
    {
        assert(forms::toast_views(self.toasts@).len() == self.toasts@.len());
        if self.toasts.len() > 0 {
            let ghost before = self.toasts@;
            self.toasts.remove(0);
            assert(forms::toast_views(self.toasts@) =~= forms::toast_views(before).drop_first());
        }
    }

    /// Asks for outside work.
    pub fn ask(&mut self, r: Request)
        ensures
            final(self)@ == old(self)@.asked(r@),
    {
        reveal(AppView::asked);
        broadcast use requests::lemma_request_views_push;

        self.requests.push(r);
    }

    /// Opens a dialog on top of those that are open.
    pub fn push_modal(&mut self, m: Modal)
        ensures
            final(self)@ == old(self)@.with_modal(m@),
    {
        reveal(AppView::with_modal);
        broadcast use forms::lemma_modal_views_push;

        self.modals.push(m);
    }

    /// Closes the top dialog and hands it out.
    pub fn pop_modal(&mut self) -> (r: Option<Modal>)
        ensures
            final(self)@ == old(self)@.without_modal(),
            match r {
                Some(m) => old(self)@.modals.len() > 0 && m@ == old(self)@.modals.last(),
                None => old(self)@.modals.len() == 0,
            },
    {
        reveal(AppView::without_modal);
        let ghost before = self.modals@;
        assert(forms::modal_views(before).len() == before.len());
        let m = self.modals.pop();
        proof {
            if before.len() > 0 {
                assert(forms::modal_views(before).last() == before.last()@);
                assert(forms::modal_views(self.modals@) =~= forms::modal_views(
                    before,
                ).drop_last());
            } else {
                assert(forms::modal_views(self.modals@) =~= forms::modal_views(before));
            }
        }
        m
    }

    /// Disarms the two-step quit and clears its alert.
    pub fn disarm_quit(&mut self)
        ensures
            final(self)@ == old(self)@.disarmed(),
    {
        reveal(AppView::disarmed);
        self.ui.exit.armed = false;
        self.footer_alert = None;
    }

    /// Tracks whether the terminal is too short for the normal layout.
    pub fn update_compact(&mut self, terminal_height: u16)
        ensures
            final(self)@ == old(self)@.on(
                Ui { compact: terminal_height < COMPACT_HEIGHT, ..old(self)@.ui },
            ),
    {
        reveal(AppView::on);
        self.ui.compact = terminal_height < COMPACT_HEIGHT;
    }

    /// Marks a tab that is not shown with an event.
    pub fn set_tab_activity(&mut self, tab: Tab, kind: ToastKind)
        ensures
            final(self)@ == old(self)@.tab_marked(tab, kind),
    {
        reveal(AppView::tab_marked);
        reveal(AppView::on);
        if tab == self.ui.tab {
            return;
        }
        let rises = match self.ui.marks.get(tab) {
            Some(prev) => kind.severity() > prev.severity(),
            None => true,
        };
        if rises {
            self.ui.marks.put(tab, Some(kind));
        }
    }

    /// The entries of the account list.
    pub fn main_items(&self) -> (r: Vec<MainItemKind>)
        ensures
            r@ == Seq::new(
                self@.config.profiles.len(),
                |i: int| MainItemKind::Profile(i as usize),
            ),
    {
        let mut out: Vec<MainItemKind> = Vec::new();
        let mut i: usize = 0;
        assert(self@.config.profiles.len() == self.config.profiles@.len());
        while i < self.config.profiles.len()
            invariant
                i <= self.config.profiles@.len(),
                out@ == Seq::new(i as nat, |k: int| MainItemKind::Profile(k as usize)),
            decreases self.config.profiles@.len() - i,
        {
            out.push(MainItemKind::Profile(i));
            i = i + 1;
            assert(out@ =~= Seq::new(i as nat, |k: int| MainItemKind::Profile(k as usize)));
        }
        out
    }

    /// Number of accounts.
    pub fn profile_count(&self) -> (r: usize)
        ensures
            r == self@.config.profiles.len(),
    {
        self.config.profiles.len()
    }

    /// Name of the account at a place.
    pub fn profile_name_at(&self, idx: usize) -> (r: Option<String>)
        ensures
            text::opt_view(r) == (if idx < self@.config.profiles.len() {
                Some(self@.config.profiles[idx as int].name)
            } else {
                None
            }),
    {
        if idx < self.config.profiles.len() {
            Some(self.config.profiles[idx].name.clone())
        } else {
            None
        }
    }

    /// Pulls the account cursor back onto an account.
    pub fn clamp_profile_cursor(&mut self)
        ensures
            final(self)@ == old(self)@.profile_clamped(),
    {
        reveal(AppView::profile_clamped);
        reveal(AppView::on);
        let n: usize = self.config.profiles.len();
        assert(self@.config.profiles.len() == n);
        let max: usize = if n > 0 {
            n - 1
        } else {
            0
        };
        if self.ui.profile_cursor > max {
            self.ui.profile_cursor = max;
        }
    }

    /// The entry of the account list under the cursor.
    pub fn current_main_item(&self) -> (r: Option<MainItemKind>)
        ensures
            r == (if self@.ui.profile_cursor < self@.config.profiles.len() {
                Some(MainItemKind::Profile(self@.ui.profile_cursor))
            } else {
                None
            }),
    {
        if self.ui.profile_cursor < self.config.profiles.len() {
            Some(MainItemKind::Profile(self.ui.profile_cursor))
        } else {
            None
        }
    }

    /// Whether a detail pane has focus.
    pub fn has_sub_focus(&self) -> (r: bool)
        ensures
            r == self@.sub_focus(),
    {
        (self.ui.tab == Tab::Setup && self.ui.config_focus == ConfigFocus::Actions) || (self.ui.tab
            == Tab::Fallback && self.ui.fallback_focus == FallbackFocus::Detail) || (self.ui.tab
            == Tab::Status && self.status.focus == StatusFocus::Detail) || (self.ui.tab
            == Tab::Plugin && self.plugin.focus == PluginFocus::Detail) || (self.ui.tab
            == Tab::Tokens && self.ui.tokens.view == TokenView::Models)
    }

    /// Number of rows of the Tokens model list under the current window and filter.
    pub fn token_model_count(&self) -> (r: usize)
        ensures
            r == self@.token_model_count(),
    {
        match self.ui.tokens.period {
            TokenPeriod::Lifetime => count_admitted(
                &self.token_models.lifetime,
                self.ui.tokens.filter,
            ),
            TokenPeriod::Daily => count_admitted(&self.token_models.daily, self.ui.tokens.filter),
            TokenPeriod::Weekly => count_admitted(
                &self.token_models.weekly,
                self.ui.tokens.filter,
            ),
            TokenPeriod::Monthly => count_admitted(
                &self.token_models.monthly,
                self.ui.tokens.filter,
            ),
        }
    }

    /// Persists the settings.
    pub fn save_state(&mut self)
        ensures
            final(self)@ == old(self)@.asked(RequestView::SaveState).asked(
                RequestView::NoteStateTime,
            ),
    {
        self.ask(Request::SaveState);
        self.ask(Request::NoteStateTime);
    }

    /// Hands out the outside work asked for so far, in order.
    pub fn take_requests(&mut self) -> (r: Vec<Request>)
        ensures
            requests::request_views(r@) == old(self)@.requests,
            final(self)@ == (AppView { requests: Seq::empty(), ..old(self)@ }),
    {
        let mut out: Vec<Request> = Vec::new();
        std::mem::swap(&mut out, &mut self.requests);
        assert(requests::request_views(self.requests@) =~= Seq::<RequestView>::empty());
        out
    }
}

} // verus!
