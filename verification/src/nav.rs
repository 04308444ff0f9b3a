//! Tabs and the keys that work on them.

use vstd::prelude::*;

use crate::chain;
use crate::dialogs;
use crate::feed::{StatusFocus, StatusStateView};
use crate::forms;
use crate::forms::{
    ConfigDraftView, ConfigFocus, ConfigRow, ConfirmAction, ConfirmActionView, ConfirmState,
    ConfirmStateView, FallbackFocus, FallbackRow, Modal, ModalView, ToastKind,
};
use crate::key::{Key, KeyCode};
use crate::menu::{ActionMenuAction, ActionMenuState, ActionMenuStateView};
use crate::plugin::{PluginFix, PluginFixView, PluginFocus, PluginStateView};
use crate::requests::{Request, RequestView};
use crate::session;
use crate::settings;
use crate::setup;
use crate::state::{App, AppView, ExitFlags, TokensUi, Ui};
use crate::tabs::{Tab, TokenFilter, TokenPeriod, TokenView};
use crate::text;

verus! {

// ── pieces ──────────────────────────────────────────────────────────────────

impl AppView {
    #[verifier::opaque]
    pub open spec fn with_status(self, status: StatusStateView) -> AppView {
        AppView { status, ..self }
    }

    #[verifier::opaque]
    pub open spec fn with_plugin(self, plugin: PluginStateView) -> AppView {
        AppView { plugin, ..self }
    }

    /// The program is left.
    #[verifier::opaque]
    pub open spec fn quitted(self) -> AppView {
        self.on(
            Ui {
                exit: ExitFlags { quit: true, shutting_down: true, ..self.ui.exit },
                ..self.ui
            },
        )
    }

    /// A new probe of the integration; the host version is read when it is wanted.
    #[verifier::opaque]
    pub open spec fn plugin_probe_wanted(self, forced: bool) -> AppView {
        self.asked(
            RequestView::ProbePlugin { forced, version: self.plugin.wants_version(forced) },
        )
    }

    #[verifier::opaque]
    pub open spec fn status_refresh_wanted(self) -> AppView {
        self.asked(RequestView::RefreshStatus).with_status(
            StatusStateView { fetching: true, ..self.status },
        ).toasted(ToastKind::Info, "refreshing status"@)
    }

    #[verifier::opaque]
    pub open spec fn token_reload_wanted(self) -> AppView {
        self.asked(RequestView::ReloadTokens).on(
            Ui {
                tokens: TokensUi { topping_up: true, progress: None, ..self.ui.tokens },
                ..self.ui
            },
        ).toasted(ToastKind::Info, "reloading token usage"@)
    }

    /// The cursor of the model list pulled back into the list.
    #[verifier::opaque]
    pub open spec fn model_cursor_clamped(self) -> AppView {
        let len = self.token_model_count() as usize;
        self.on(
            Ui {
                tokens: TokensUi {
                    model_cursor: if self.ui.tokens.model_cursor >= len {
                        text::monus(len as int, 1) as usize
                    } else {
                        self.ui.tokens.model_cursor
                    },
                    ..self.ui.tokens
                },
                ..self.ui
            },
        )
    }

    #[verifier::opaque]
    pub open spec fn filter_set(self, filter: TokenFilter) -> AppView {
        self.on(
            Ui { tokens: TokensUi { filter, ..self.ui.tokens }, ..self.ui },
        ).model_cursor_clamped()
    }

    #[verifier::opaque]
    pub open spec fn period_set(self, period: TokenPeriod) -> AppView {
        self.on(
            Ui { tokens: TokensUi { period, ..self.ui.tokens }, ..self.ui },
        ).model_cursor_clamped()
    }

    /// The account under the cursor fetched again, when there is anything to fetch.
    #[verifier::opaque]
    pub open spec fn focused_refreshed(self) -> AppView {
        match self.focused() {
            None => self,
            Some(p) => if p.facts.login_is_oauth || p.facts.is_third_party {
                self.asked(RequestView::RefetchOne(p.name)).toasted(
                    ToastKind::Info,
                    "refreshing '"@ + p.name + "'"@,
                )
            } else {
                self.toasted(
                    ToastKind::Info,
                    "'"@ + p.name + "' has no usage to refresh"@,
                )
            },
        }
    }

    /// Rotating the token of the account under the cursor is asked about.
    #[verifier::opaque]
    pub open spec fn focused_rotation_asked(self) -> AppView {
        match self.focused() {
            None => self,
            Some(p) => if p.facts.login_is_oauth {
                self.with_modal(
                    ModalView::Confirm(
                        ConfirmStateView {
                            message: "Rotate access token for '"@ + p.name + "'?"@,
                            detail: Some("a live session on this account might be logged out."@),
                            choice: false,
                            on_confirm: ConfirmActionView::RotateOne(p.name),
                        },
                    ),
                )
            } else {
                self.toasted(ToastKind::Info, "'"@ + p.name + "' has no tokens to rotate"@)
            },
        }
    }

    #[verifier::opaque]
    pub open spec fn rotation_asked(self) -> AppView {
        self.with_modal(
            ModalView::Confirm(
                ConfirmStateView {
                    message: "Rotate all access tokens?"@,
                    detail: Some("accounts with a live session might be logged out."@),
                    choice: false,
                    on_confirm: ConfirmActionView::RotateAll,
                },
            ),
        )
    }

    #[verifier::opaque]
    pub open spec fn incident_opened(self) -> AppView {
        match self.status.selected() {
            None => self,
            Some(i) => if i.link.len() == 0 {
                self.toasted(ToastKind::Info, "no link for this incident"@)
            } else {
                self.asked(RequestView::OpenIncident(i.link))
            },
        }
    }
}

fn quit_now(app: &mut App)
    ensures
        final(app)@ == old(app)@.quitted(),
{
    reveal(AppView::quitted);
    let ui = Ui {
        exit: ExitFlags { quit: true, shutting_down: true, ..app.ui.exit },
        ..app.ui
    };
    app.set_ui(ui);
}

/// Asks for a new probe of the integration.
pub fn recompute_plugin_checks(app: &mut App, forced: bool)
    ensures
        final(app)@ == old(app)@.plugin_probe_wanted(forced),
{
    reveal(AppView::plugin_probe_wanted);
    let version = app.plugin.wants_version(forced);
    app.ask(Request::ProbePlugin { forced, version });
}

/// Asks for the status feed again.
pub fn trigger_status_refresh(app: &mut App)
    ensures
        final(app)@ == old(app)@.status_refresh_wanted(),
{
    reveal(AppView::status_refresh_wanted);
    reveal(AppView::asked);
    reveal(AppView::with_status);
    app.ask(Request::RefreshStatus);
    app.status.fetching = true;
    app.toast(ToastKind::Info, "refreshing status");
}

/// Reads the token statistics again.
pub fn reload_token_stats(app: &mut App)
    ensures
        final(app)@ == old(app)@.token_reload_wanted(),
{
    reveal(AppView::token_reload_wanted);
    let ui = Ui {
        tokens: TokensUi { topping_up: true, progress: None, ..app.ui.tokens },
        ..app.ui
    };
    app.ask(Request::ReloadTokens);
    app.set_ui(ui);
    app.toast(ToastKind::Info, "reloading token usage");
}

fn clamp_model_cursor(app: &mut App)
    ensures
        final(app)@ == old(app)@.model_cursor_clamped(),
{
    reveal(AppView::model_cursor_clamped);
    let len: usize = app.token_model_count();
    let cur: usize = app.ui.tokens.model_cursor;
    let cursor: usize = if cur >= len {
        if len > 0 {
            len - 1
        } else {
            0
        }
    } else {
        cur
    };
    let ui = Ui { tokens: TokensUi { model_cursor: cursor, ..app.ui.tokens }, ..app.ui };
    app.set_ui(ui);
}

/// Narrows the model list.
pub fn set_token_filter(app: &mut App, filter: TokenFilter)
    ensures
        final(app)@ == old(app)@.filter_set(filter),
{
    reveal(AppView::filter_set);
    let ui = Ui { tokens: TokensUi { filter, ..app.ui.tokens }, ..app.ui };
    app.set_ui(ui);
    clamp_model_cursor(app);
}

/// Picks the time window of the model list.
pub fn set_token_period(app: &mut App, period: TokenPeriod)
    ensures
        final(app)@ == old(app)@.period_set(period),
{
    reveal(AppView::period_set);
    let ui = Ui { tokens: TokensUi { period, ..app.ui.tokens }, ..app.ui };
    app.set_ui(ui);
    clamp_model_cursor(app);
}

/// After a lens change the cursor rests on a row, when there is one.
pub proof fn lens_changes_keep_cursor_in_list(s: AppView, filter: TokenFilter, period: TokenPeriod)
    requires
        s.filter_set(filter).token_model_count() <= usize::MAX,
        s.period_set(period).token_model_count() <= usize::MAX,
    ensures
        ({
            let t = s.filter_set(filter);
            t.token_model_count() > 0 ==> t.ui.tokens.model_cursor < t.token_model_count()
        }),
        ({
            let t = s.period_set(period);
            t.token_model_count() > 0 ==> t.ui.tokens.model_cursor < t.token_model_count()
        }),
{
    reveal(AppView::filter_set);
    reveal(AppView::period_set);
    reveal(AppView::model_cursor_clamped);
    reveal(AppView::on);
}

/// Name of the account under the cursor, whether its login is a token pair, and whether it
/// is a third party's.
pub fn focused_account(app: &App) -> (r: Option<(String, bool, bool)>)
    ensures
        match (r, app@.focused()) {
            (Some(a), Some(p)) => a.0@ == p.name && a.1 == p.facts.login_is_oauth && a.2
                == p.facts.is_third_party,
            (None, None) => true,
            _ => false,
        },
{
    if app.ui.profile_cursor < app.config.profiles.len() {
        let p = &app.config.profiles[app.ui.profile_cursor];
        Some((p.name.clone(), p.facts.login_is_oauth, p.facts.is_third_party))
    } else {
        None
    }
}

/// Fetches the account under the cursor again.
pub fn refresh_focused(app: &mut App)
    ensures
        final(app)@ == old(app)@.focused_refreshed(),
{
    reveal(AppView::focused_refreshed);
    if let Some((name, oauth, third_party)) = focused_account(app) {
        if oauth || third_party {
            let body = text::joined3("refreshing '", name.as_str(), "'");
            app.ask(Request::RefetchOne(name));
            app.toast(ToastKind::Info, body.as_str());
        } else {
            let body = text::joined3("'", name.as_str(), "' has no usage to refresh");
            app.toast(ToastKind::Info, body.as_str());
        }
    }
}

/// Asks about rotating the token of the account under the cursor.
pub fn ask_focused_rotation(app: &mut App)
    ensures
        final(app)@ == old(app)@.focused_rotation_asked(),
{
    reveal(AppView::focused_rotation_asked);
    if let Some((name, oauth, _)) = focused_account(app) {
        if oauth {
            let message = text::joined3("Rotate access token for '", name.as_str(), "'?");
            app.push_modal(
                Modal::Confirm(
                    ConfirmState {
                        message,
                        detail: Some(
                            "a live session on this account might be logged out.".to_string(),
                        ),
                        choice: false,
                        on_confirm: ConfirmAction::RotateOne(name),
                    },
                ),
            );
        } else {
            let body = text::joined3("'", name.as_str(), "' has no tokens to rotate");
            app.toast(ToastKind::Info, body.as_str());
        }
    }
}

fn ask_rotation(app: &mut App)
    ensures
        final(app)@ == old(app)@.rotation_asked(),
{
    reveal(AppView::rotation_asked);
    app.push_modal(
        Modal::Confirm(
            ConfirmState {
                message: "Rotate all access tokens?".to_string(),
                detail: Some("accounts with a live session might be logged out.".to_string()),
                choice: false,
                on_confirm: ConfirmAction::RotateAll,
            },
        ),
    );
}

/// Opens the page of the selected incident.
pub fn open_incident_link(app: &mut App)
    ensures
        final(app)@ == old(app)@.incident_opened(),
{
    reveal(AppView::incident_opened);
    let link: Option<String> = match app.status.selected() {
        Some(i) => Some(i.link.clone()),
        None => None,
    };
    if let Some(link) = link {
        if link.as_str().unicode_len() == 0 {
            app.toast(ToastKind::Info, "no link for this incident");
        } else {
            app.ask(Request::OpenIncident(link));
        }
    }
}

/// Says whether the page of an incident was opened.
pub fn finish_open_incident(app: &mut App, failed: bool)
    ensures
        final(app)@ == (if failed {
            old(app)@.toasted(ToastKind::Danger, "failed to open browser"@)
        } else {
            old(app)@.toasted(ToastKind::Info, "opening in browser"@)
        }),
{
    if failed {
        app.toast(ToastKind::Danger, "failed to open browser");
    } else {
        app.toast(ToastKind::Info, "opening in browser");
    }
}

// ── switching tabs ──────────────────────────────────────────────────────────

impl AppView {
    /// The Fallback tab on entry: the selected account's own member is highlighted.
    #[verifier::opaque]
    pub open spec fn fallback_tab_shown(self) -> AppView {
        let s = self.on(
            Ui { chain_cursor: self.chain_row_of_profile(), ..self.ui },
        ).profile_synced();
        AppView {
            ui: Ui {
                fallback_focus: FallbackFocus::Chain,
                fallback_detail_cursor: 0,
                fallback_armed_remove: false,
                ..s.ui
            },
            fallback_threshold_draft: None,
            ..s
        }
    }

    #[verifier::opaque]
    pub open spec fn config_tab_shown(self) -> AppView {
        AppView {
            ui: Ui { global_config_cursor: 0, ..self.ui },
            refresh_interval_draft: None,
            weekly_threshold_draft: None,
            ..self
        }
    }

    #[verifier::opaque]
    pub open spec fn plugin_tab_shown(self) -> AppView {
        self.with_plugin(
            PluginStateView {
                focus: PluginFocus::List,
                cursor: 0,
                detail_scroll: 0,
                ..self.plugin
            },
        ).plugin_probe_wanted(false)
    }

    /// Another tab shown: its mark cleared, drafts dropped, the account cursor on an
    /// account, its own focus and cursor where they start.
    #[verifier::opaque]
    pub open spec fn tab_switched(self, tab: Tab) -> AppView {
        let s = self.on(
            Ui { tab, marks: self.ui.marks.with(tab, None), ..self.ui },
        ).drafting(None).profile_clamped();
        match tab {
            Tab::Overview | Tab::Usage => s,
            Tab::Tokens => s.on(
                Ui {
                    tokens: TokensUi {
                        view: TokenView::Dashboard,
                        model_cursor: 0,
                        ..s.ui.tokens
                    },
                    ..s.ui
                },
            ),
            Tab::Setup => s.on(
                Ui { config_focus: ConfigFocus::Profiles, config_action_cursor: 0, ..s.ui },
            ),
            Tab::Fallback => s.fallback_tab_shown(),
            Tab::Config => s.config_tab_shown(),
            Tab::Status => s.with_status(StatusStateView { focus: StatusFocus::List, ..s.status }),
            Tab::Plugin => s.plugin_tab_shown(),
        }
    }

    /// The form of a new account.
    #[verifier::opaque]
    pub open spec fn new_account_started(self) -> AppView {
        let s = self.tab_switched(Tab::Setup);
        s.drafting(Some(ConfigDraftView::blank())).on(
            Ui {
                profile_cursor: s.config.profiles.len() as usize,
                config_action_cursor: 0,
                config_focus: ConfigFocus::Actions,
                ..s.ui
            },
        )
    }
}

fn show_fallback_tab(app: &mut App)
    ensures
        final(app)@ == old(app)@.fallback_tab_shown(),
{
    reveal(AppView::fallback_tab_shown);
    let row: usize = chain::chain_cursor_for_profile(app);
    let ui = Ui { chain_cursor: row, ..app.ui };
    app.set_ui(ui);
    chain::sync_profile_from_chain(app);
    app.ui =
    Ui {
        fallback_focus: FallbackFocus::Chain,
        fallback_detail_cursor: 0,
        fallback_armed_remove: false,
        ..app.ui
    };
    app.fallback_threshold_draft = None;
}

fn show_config_tab(app: &mut App)
    ensures
        final(app)@ == old(app)@.config_tab_shown(),
{
    reveal(AppView::config_tab_shown);
    app.ui = Ui { global_config_cursor: 0, ..app.ui };
    app.refresh_interval_draft = None;
    app.weekly_threshold_draft = None;
}

fn show_plugin_tab(app: &mut App)
    ensures
        final(app)@ == old(app)@.plugin_tab_shown(),
{
    reveal(AppView::plugin_tab_shown);
    proof {
        reveal(AppView::with_plugin);
    }
    app.plugin.focus = PluginFocus::List;
    app.plugin.cursor = 0;
    app.plugin.detail_scroll = 0;
    recompute_plugin_checks(app, false);
}

fn focus_incident_list(app: &mut App)
    ensures
        final(app)@ == old(app)@.with_status(
            StatusStateView { focus: StatusFocus::List, ..old(app)@.status },
        ),
{
    reveal(AppView::with_status);
    app.status.focus = StatusFocus::List;
}

fn focus_check_list(app: &mut App)
    ensures
        final(app)@ == old(app)@.with_plugin(
            PluginStateView { focus: PluginFocus::List, ..old(app)@.plugin },
        ),
{
    reveal(AppView::with_plugin);
    app.plugin.focus = PluginFocus::List;
}

/// Shows another tab.
pub fn switch_tab(app: &mut App, tab: Tab)
    ensures
        final(app)@ == old(app)@.tab_switched(tab),
{
    reveal(AppView::tab_switched);
    let mut marks = app.ui.marks;
    marks.put(tab, None);
    let ui = Ui { tab, marks, ..app.ui };
    app.set_ui(ui);
    setup::set_draft(app, None);
    app.clamp_profile_cursor();
    match tab {
        Tab::Overview | Tab::Usage => {},
        Tab::Tokens => {
            let ui = Ui {
                tokens: TokensUi { view: TokenView::Dashboard, model_cursor: 0, ..app.ui.tokens },
                ..app.ui
            };
            app.set_ui(ui);
        },
        Tab::Setup => {
            let ui = Ui {
                config_focus: ConfigFocus::Profiles,
                config_action_cursor: 0,
                ..app.ui
            };
            app.set_ui(ui);
        },
        Tab::Fallback => show_fallback_tab(app),
        Tab::Config => show_config_tab(app),
        Tab::Status => focus_incident_list(app),
        Tab::Plugin => show_plugin_tab(app),
    }
}

/// Opens the form of a new account.
pub fn start_new_account(app: &mut App)
    ensures
        final(app)@ == old(app)@.new_account_started(),
{
    reveal(AppView::new_account_started);
    switch_tab(app, Tab::Setup);
    let n: usize = app.profile_count();
    let ui = Ui {
        profile_cursor: n,
        config_action_cursor: 0,
        config_focus: ConfigFocus::Actions,
        ..app.ui
    };
    setup::set_draft(app, Some(forms::build_draft_new()));
    app.set_ui(ui);
}

/// A shown tab is never marked, no draft survives a switch, and the account cursor rests on
/// an account when there is one.
pub proof fn switching_tabs_settles(s: AppView, tab: Tab)
    requires
        s.config.profiles.len() <= usize::MAX,
    ensures
        s.tab_switched(tab).ui.tab == tab,
        s.tab_switched(tab).ui.marks.at(tab) is None,
        s.tab_switched(tab).config_draft is None,
        !s.tab_switched(tab).sub_focus(),
        s.config.profiles.len() > 0 ==> s.tab_switched(tab).ui.profile_cursor
            < s.config.profiles.len(),
{
    reveal(AppView::tab_switched);
    reveal(AppView::on);
    reveal(AppView::drafting);
    reveal(AppView::profile_clamped);
    reveal(AppView::fallback_tab_shown);
    reveal(AppView::config_tab_shown);
    reveal(AppView::plugin_tab_shown);
    reveal(AppView::with_plugin);
    reveal(AppView::with_status);
    reveal(AppView::plugin_probe_wanted);
    reveal(AppView::asked);
    reveal(AppView::profile_synced);
    let s1 = s.on(Ui { tab, marks: s.ui.marks.with(tab, None), ..s.ui }).drafting(
        None,
    ).profile_clamped();
    if tab == Tab::Fallback {
        let s2 = s1.on(Ui { chain_cursor: s1.chain_row_of_profile(), ..s1.ui });
        if let Some(name) = s2.selected_member_name() {
            text::lemma_position(s2.config.names(), name);
        }
    }
}

// ── keys of the tabs ────────────────────────────────────────────────────────

impl AppView {
    #[verifier::opaque]
    pub open spec fn overview_keyed(self, key: Key) -> AppView {
        let n = self.config.profiles.len() as usize;
        match key.code {
            KeyCode::Up => if key.shift {
                self.reorder_wanted(true)
            } else {
                self.profile_stepped(true, n)
            },
            KeyCode::Down => if key.shift {
                self.reorder_wanted(false)
            } else {
                self.profile_stepped(false, n)
            },
            KeyCode::Enter => self.switch_requested(self.ui.profile_cursor),
            _ => self,
        }
    }

    #[verifier::opaque]
    pub open spec fn usage_keyed(self, key: Key) -> AppView {
        let n = self.config.profiles.len() as usize;
        match key.code {
            KeyCode::Up => self.profile_stepped(true, n),
            KeyCode::Down => self.profile_stepped(false, n),
            KeyCode::Char(c) => if c == 'e' {
                self.estimates_toggled()
            } else if c == 'p' {
                self.pace_toggled()
            } else {
                self
            },
            _ => self,
        }
    }

    #[verifier::opaque]
    pub open spec fn model_stepped(self, up: bool) -> AppView {
        let len = self.token_model_count() as usize;
        self.on(
            Ui {
                tokens: TokensUi {
                    model_cursor: setup::cycled(self.ui.tokens.model_cursor, up, len),
                    ..self.ui.tokens
                },
                ..self.ui
            },
        )
    }

    #[verifier::opaque]
    pub open spec fn models_entered(self) -> AppView {
        if self.token_model_count() > 0 {
            self.on(
                Ui {
                    tokens: TokensUi { view: TokenView::Models, model_cursor: 0, ..self.ui.tokens },
                    ..self.ui
                },
            )
        } else {
            self
        }
    }

    #[verifier::opaque]
    pub open spec fn tokens_keyed(self, key: Key) -> AppView {
        if key.code == KeyCode::Char('c') {
            self.count_cache_toggled()
        } else {
            match self.ui.tokens.view {
                TokenView::Dashboard => match key.code {
                    KeyCode::Enter => self.models_entered(),
                    _ => self,
                },
                TokenView::Models => match key.code {
                    KeyCode::Up => self.model_stepped(true),
                    KeyCode::Down => self.model_stepped(false),
                    _ => self,
                },
            }
        }
    }

    /// The list of incidents after a key: the timeline is rewound whenever another incident
    /// comes under the cursor.
    #[verifier::opaque]
    pub open spec fn status_list_keyed(self, key: Key) -> AppView {
        let len = self.status.incidents.len() as usize;
        if len == 0 {
            self
        } else {
            match key.code {
                KeyCode::Up => self.with_status(
                    StatusStateView {
                        cursor: setup::cycled(self.status.cursor, true, len),
                        detail_scroll: 0,
                        ..self.status
                    },
                ),
                KeyCode::Down => self.with_status(
                    StatusStateView {
                        cursor: setup::cycled(self.status.cursor, false, len),
                        detail_scroll: 0,
                        ..self.status
                    },
                ),
                KeyCode::Enter => self.with_status(
                    StatusStateView { focus: StatusFocus::Detail, detail_scroll: 0, ..self.status },
                ),
                _ => self,
            }
        }
    }

    #[verifier::opaque]
    pub open spec fn status_keyed(self, key: Key) -> AppView {
        match self.status.focus {
            StatusFocus::List => self.status_list_keyed(key),
            StatusFocus::Detail => match key.code {
                KeyCode::Up => self.with_status(
                    StatusStateView {
                        detail_scroll: scrolled_up(self.status.detail_scroll),
                        ..self.status
                    },
                ),
                KeyCode::Down => self.with_status(
                    StatusStateView {
                        detail_scroll: scrolled_down(
                            self.status.detail_scroll,
                            self.status.detail_max_scroll,
                        ),
                        ..self.status
                    },
                ),
                _ => self,
            },
        }
    }

    /// A fix is asked about; a live login that does not match is looked up first.
    #[verifier::opaque]
    pub open spec fn fix_applied(self) -> AppView {
        match self.plugin.offered_fix() {
            None => self,
            Some(PluginFixView::WireMcpServers) => self.disarmed().with_modal(
                ModalView::Confirm(
                    ConfirmStateView {
                        message: "Wire clauth into "@ + self.host.product + "'s mcpServers?"@,
                        detail: Some(
                            "Writes the clauth entry into "@ + self.host.config_file()
                                + "; other fields are preserved."@,
                        ),
                        choice: false,
                        on_confirm: ConfirmActionView::WireMcpServers,
                    },
                ),
            ),
            Some(PluginFixView::RepairDivergence(name)) => self.disarmed().asked(
                RequestView::FindOwner(name),
            ),
            Some(PluginFixView::RelinkCredentials(name)) => self.disarmed().with_modal(
                ModalView::Confirm(
                    ConfirmStateView {
                        message: "Relink "@ + self.host.home() + " credentials to '"@ + (name + "'?"@),
                        detail: Some(
                            "Re-points .credentials.json at the profile's own stored tokens; spends nothing."@,
                        ),
                        choice: false,
                        on_confirm: ConfirmActionView::RelinkCredentials(name),
                    },
                ),
            ),
        }
    }

    #[verifier::opaque]
    pub open spec fn plugin_list_keyed(self, key: Key) -> AppView {
        let len = self.plugin.checks.len() as usize;
        if len == 0 {
            self
        } else {
            match key.code {
                KeyCode::Up => self.with_plugin(
                    PluginStateView {
                        cursor: setup::cycled(self.plugin.cursor, true, len),
                        detail_scroll: 0,
                        ..self.plugin
                    },
                ),
                KeyCode::Down => self.with_plugin(
                    PluginStateView {
                        cursor: setup::cycled(self.plugin.cursor, false, len),
                        detail_scroll: 0,
                        ..self.plugin
                    },
                ),
                KeyCode::Enter => self.with_plugin(
                    PluginStateView { focus: PluginFocus::Detail, detail_scroll: 0, ..self.plugin },
                ),
                _ => self,
            }
        }
    }

    #[verifier::opaque]
    pub open spec fn plugin_keyed(self, key: Key) -> AppView {
        if key.code == KeyCode::Char('f') {
            self.fix_applied()
        } else {
            match self.plugin.focus {
                PluginFocus::List => self.plugin_list_keyed(key),
                PluginFocus::Detail => match key.code {
                    KeyCode::Up => self.with_plugin(
                        PluginStateView {
                            detail_scroll: scrolled_up(self.plugin.detail_scroll),
                            ..self.plugin
                        },
                    ),
                    KeyCode::Down => self.with_plugin(
                        PluginStateView {
                            detail_scroll: scrolled_down(
                                self.plugin.detail_scroll,
                                self.plugin.detail_max_scroll,
                            ),
                            ..self.plugin
                        },
                    ),
                    _ => self,
                },
            }
        }
    }

    #[verifier::opaque]
    pub open spec fn tab_keyed(self, key: Key) -> AppView {
        match self.ui.tab {
            Tab::Overview => self.overview_keyed(key),
            Tab::Usage => self.usage_keyed(key),
            Tab::Tokens => self.tokens_keyed(key),
            Tab::Setup => self.config_keyed(key),
            Tab::Fallback => self.fallback_keyed(key),
            Tab::Config => self.global_config_keyed(key),
            Tab::Status => self.status_keyed(key),
            Tab::Plugin => self.plugin_keyed(key),
        }
    }
}

/// One line up.
#[verifier::opaque]
pub open spec fn scrolled_up(scroll: u16) -> u16 {
    text::monus(scroll as int, 1) as u16
}

/// One line down, within the content of the last draw.
#[verifier::opaque]
pub open spec fn scrolled_down(scroll: u16, max: u16) -> u16 {
    text::min_int(text::min_int(scroll + 1, u16::MAX as int), max as int) as u16
}

/// One line up.
pub fn scroll_up(scroll: u16) -> (r: u16)
    ensures
        r == scrolled_up(scroll),
{
    reveal(scrolled_up);
    if scroll > 0 {
        scroll - 1
    } else {
        0
    }
}

/// One line down, within the content of the last draw.
pub fn scroll_down(scroll: u16, max: u16) -> (r: u16)
    ensures
        r == scrolled_down(scroll, max),
{
    reveal(scrolled_down);
    let next: u16 = if scroll < u16::MAX {
        scroll + 1
    } else {
        scroll
    };
    if next < max {
        next
    } else {
        max
    }
}

/// Scrolling never leaves the content, and a step up from within it is never lost.
pub proof fn scrolling_stays_in_content(scroll: u16, max: u16)
    ensures
        scrolled_down(scroll, max) <= max,
        scroll <= max ==> scrolled_up(scroll) <= max,
        0 < scroll <= max ==> scrolled_down(scrolled_up(scroll), max) == scroll,
{
    reveal(scrolled_up);
    reveal(scrolled_down);
}

/// A key on the Overview tab.
pub fn handle_overview_key(app: &mut App, key: Key)
    ensures
        final(app)@ == old(app)@.overview_keyed(key),
{
    reveal(AppView::overview_keyed);
    let n: usize = app.profile_count();
    match key.code {
        KeyCode::Up => {
            if key.shift {
                session::reorder_main_cursor(app, true);
            } else {
                setup::step_profile_cursor(app, true, n);
            }
        },
        KeyCode::Down => {
            if key.shift {
                session::reorder_main_cursor(app, false);
            } else {
                setup::step_profile_cursor(app, false, n);
            }
        },
        KeyCode::Enter => session::activate_main_item(app),
        _ => {},
    }
}

/// A key on the Usage tab.
pub fn handle_usage_key(app: &mut App, key: Key)
    ensures
        final(app)@ == old(app)@.usage_keyed(key),
{
    reveal(AppView::usage_keyed);
    let n: usize = app.profile_count();
    match key.code {
        KeyCode::Up => setup::step_profile_cursor(app, true, n),
        KeyCode::Down => setup::step_profile_cursor(app, false, n),
        KeyCode::Char(c) => {
            if c == 'e' {
                settings::toggle_show_estimates(app);
            } else if c == 'p' {
                settings::toggle_show_pace(app);
            }
        },
        _ => {},
    }
}

fn step_model(app: &mut App, up: bool)
    ensures
        final(app)@ == old(app)@.model_stepped(up),
{
    reveal(AppView::model_stepped);
    let len: usize = app.token_model_count();
    let cursor: usize = setup::cycle_cursor(app.ui.tokens.model_cursor, up, len);
    let ui = Ui { tokens: TokensUi { model_cursor: cursor, ..app.ui.tokens }, ..app.ui };
    app.set_ui(ui);
}

fn enter_models(app: &mut App)
    ensures
        final(app)@ == old(app)@.models_entered(),
{
    reveal(AppView::models_entered);
    if app.token_model_count() > 0 {
        let ui = Ui {
            tokens: TokensUi { view: TokenView::Models, model_cursor: 0, ..app.ui.tokens },
            ..app.ui
        };
        app.set_ui(ui);
    }
}

/// A key on the Tokens tab.
pub fn handle_tokens_key(app: &mut App, key: Key)
    ensures
        final(app)@ == old(app)@.tokens_keyed(key),
{
    reveal(AppView::tokens_keyed);
    if key.code == KeyCode::Char('c') {
        settings::toggle_count_cache(app);
        return;
    }
    match app.ui.tokens.view {
        TokenView::Dashboard => match key.code {
            KeyCode::Enter => enter_models(app),
            _ => {},
        },
        TokenView::Models => match key.code {
            KeyCode::Up => step_model(app, true),
            KeyCode::Down => step_model(app, false),
            _ => {},
        },
    }
}

fn handle_status_list_key(app: &mut App, key: Key)
    ensures
        final(app)@ == old(app)@.status_list_keyed(key),
{
    reveal(AppView::status_list_keyed);
    reveal(AppView::with_status);
    let len: usize = app.status.incidents.len();
    assert(app@.status.incidents.len() == len);
    if len == 0 {
        return;
    }
    match key.code {
        KeyCode::Up => {
            app.status.cursor = setup::cycle_cursor(app.status.cursor, true, len);
            app.status.detail_scroll = 0;
        },
        KeyCode::Down => {
            app.status.cursor = setup::cycle_cursor(app.status.cursor, false, len);
            app.status.detail_scroll = 0;
        },
        KeyCode::Enter => {
            app.status.focus = StatusFocus::Detail;
            app.status.detail_scroll = 0;
        },
        _ => {},
    }
}

/// A key on the Status tab.
pub fn handle_status_key(app: &mut App, key: Key)
    ensures
        final(app)@ == old(app)@.status_keyed(key),
{
    reveal(AppView::status_keyed);
    match app.status.focus {
        StatusFocus::List => handle_status_list_key(app, key),
        StatusFocus::Detail => {
            reveal(AppView::with_status);
            match key.code {
                KeyCode::Up => {
                    app.status.detail_scroll = scroll_up(app.status.detail_scroll);
                },
                KeyCode::Down => {
                    app.status.detail_scroll =
                    scroll_down(app.status.detail_scroll, app.status.detail_max_scroll);
                },
                _ => {},
            }
        },
    }
}

/// Applies the fix of the selected check.
pub fn apply_plugin_fix(app: &mut App)
    ensures
        final(app)@ == old(app)@.fix_applied(),
{
    reveal(AppView::fix_applied);
    reveal(AppView::disarmed);
    let fix: Option<PluginFix> = match app.plugin.selected_fix() {
        Some(f) => Some(f.duplicate()),
        None => None,
    };
    if let Some(fix) = fix {
        app.disarm_quit();
        match fix {
            PluginFix::WireMcpServers => {
                let message = text::joined3(
                    "Wire clauth into ",
                    app.host.product.as_str(),
                    "'s mcpServers?",
                );
                let file = app.host.config_file();
                let detail = text::joined3(
                    "Writes the clauth entry into ",
                    file.as_str(),
                    "; other fields are preserved.",
                );
                app.push_modal(
                    Modal::Confirm(
                        ConfirmState {
                            message,
                            detail: Some(detail),
                            choice: false,
                            on_confirm: ConfirmAction::WireMcpServers,
                        },
                    ),
                );
            },
            PluginFix::RepairDivergence(name) => app.ask(Request::FindOwner(name)),
            PluginFix::RelinkCredentials(name) => {
                let home = app.host.home();
                let head = text::joined3("Relink ", home.as_str(), " credentials to '");
                let tail = text::joined(name.as_str(), "'?");
                let message = text::joined(head.as_str(), tail.as_str());
                app.push_modal(
                    Modal::Confirm(
                        ConfirmState {
                            message,
                            detail: Some(
                                "Re-points .credentials.json at the profile's own stored tokens; spends nothing.".to_string(),
                            ),
                            choice: false,
                            on_confirm: ConfirmAction::RelinkCredentials(name),
                        },
                    ),
                );
            },
        }
    }
}

fn handle_plugin_list_key(app: &mut App, key: Key)
    ensures
        final(app)@ == old(app)@.plugin_list_keyed(key),
{
    reveal(AppView::plugin_list_keyed);
    reveal(AppView::with_plugin);
    let len: usize = app.plugin.row_count();
    if len == 0 {
        return;
    }
    match key.code {
        KeyCode::Up => {
            app.plugin.cursor = setup::cycle_cursor(app.plugin.cursor, true, len);
            app.plugin.detail_scroll = 0;
        },
        KeyCode::Down => {
            app.plugin.cursor = setup::cycle_cursor(app.plugin.cursor, false, len);
            app.plugin.detail_scroll = 0;
        },
        KeyCode::Enter => {
            app.plugin.focus = PluginFocus::Detail;
            app.plugin.detail_scroll = 0;
        },
        _ => {},
    }
}

/// A key on the Plugin tab.
pub fn handle_plugin_key(app: &mut App, key: Key)
    ensures
        final(app)@ == old(app)@.plugin_keyed(key),
{
    reveal(AppView::plugin_keyed);
    if key.code == KeyCode::Char('f') {
        apply_plugin_fix(app);
        return;
    }
    match app.plugin.focus {
        PluginFocus::List => handle_plugin_list_key(app, key),
        PluginFocus::Detail => {
            reveal(AppView::with_plugin);
            match key.code {
                KeyCode::Up => {
                    app.plugin.detail_scroll = scroll_up(app.plugin.detail_scroll);
                },
                KeyCode::Down => {
                    app.plugin.detail_scroll =
                    scroll_down(app.plugin.detail_scroll, app.plugin.detail_max_scroll);
                },
                _ => {},
            }
        },
    }
}

fn handle_tab_key(app: &mut App, key: Key)
    requires
        old(app)@.config.profiles.len() < usize::MAX,
    ensures
        final(app)@ == old(app)@.tab_keyed(key),
{
    reveal(AppView::tab_keyed);
    match app.ui.tab {
        Tab::Overview => handle_overview_key(app, key),
        Tab::Usage => handle_usage_key(app, key),
        Tab::Tokens => handle_tokens_key(app, key),
        Tab::Setup => setup::handle_config_key(app, key),
        Tab::Fallback => chain::handle_fallback_key(app, key),
        Tab::Config => settings::handle_global_config_key(app, key),
        Tab::Status => handle_status_key(app, key),
        Tab::Plugin => handle_plugin_key(app, key),
    }
}

// ── keys that work everywhere ───────────────────────────────────────────────

impl AppView {
    /// Back out of a detail pane; nothing at the top level.
    #[verifier::opaque]
    pub open spec fn ascended(self) -> AppView {
        if !self.sub_focus() {
            self
        } else {
            match self.ui.tab {
                Tab::Setup => self.config_left(),
                Tab::Fallback => self.fallback_left(),
                Tab::Tokens => self.on(
                    Ui {
                        tokens: TokensUi { view: TokenView::Dashboard, ..self.ui.tokens },
                        ..self.ui
                    },
                ),
                Tab::Plugin => self.with_plugin(
                    PluginStateView { focus: PluginFocus::List, ..self.plugin },
                ),
                _ => self.with_status(StatusStateView { focus: StatusFocus::List, ..self.status }),
            }
        }
    }

    #[verifier::opaque]
    pub open spec fn refresh_keyed(self) -> AppView {
        match self.ui.tab {
            Tab::Status => self.status_refresh_wanted(),
            Tab::Plugin => self.plugin_probe_wanted(true).toasted(
                ToastKind::Info,
                "re-running plugin checks"@,
            ),
            Tab::Tokens => self.token_reload_wanted(),
            Tab::Usage => self.focused_refreshed(),
            _ => self.asked(RequestView::RefetchAll).toasted(
                ToastKind::Info,
                "refreshing usage"@,
            ),
        }
    }

    /// `q`: out of a detail pane, else armed, else left.
    #[verifier::opaque]
    pub open spec fn quit_keyed(self) -> AppView {
        if self.sub_focus() {
            self.disarmed().ascended()
        } else if self.ui.exit.armed {
            self.quitted()
        } else {
            AppView {
                ui: Ui { exit: ExitFlags { armed: true, ..self.ui.exit }, ..self.ui },
                footer_alert: Some("press q again to quit"@),
                ..self
            }
        }
    }

    /// `x`: the oldest toast goes first, then the alert.
    #[verifier::opaque]
    pub open spec fn dismiss_keyed(self) -> AppView {
        if self.toasts.len() > 0 {
            AppView { toasts: self.toasts.drop_first(), ..self }
        } else if self.footer_alert is Some {
            self.disarmed()
        } else {
            self
        }
    }

    #[verifier::opaque]
    pub open spec fn divergence_keyed(self) -> AppView {
        match self.divergence_pending {
            Some(n) => self.disarmed().asked(RequestView::FindOwner(n.active)),
            None => self,
        }
    }

    #[verifier::opaque]
    pub open spec fn menu_keyed(self) -> AppView {
        let s = self.disarmed();
        if s.menu_actions().len() > 0 {
            s.with_modal(ModalView::ActionMenu(ActionMenuStateView::over(s.host, s.menu_actions())))
        } else {
            s
        }
    }

    #[verifier::opaque]
    pub open spec fn rotate_keyed(self) -> AppView {
        if self.ui.tab == Tab::Tokens {
            self.period_set(self.ui.tokens.period.successor())
        } else {
            self.rotation_asked()
        }
    }

    #[verifier::opaque]
    pub open spec fn char_keyed(self, c: char, key: Key) -> AppView {
        if c == '?' {
            self.disarmed().with_modal(ModalView::Help)
        } else if c == 'd' {
            self.divergence_keyed()
        } else if c == 'a' {
            self.menu_keyed()
        } else if c == 'r' {
            self.disarmed().refresh_keyed()
        } else if c == 't' {
            self.disarmed().rotate_keyed()
        } else if c == 'n' {
            self.disarmed().new_account_started()
        } else if c == 'q' {
            self.quit_keyed()
        } else if c == 'x' {
            self.dismiss_keyed()
        } else {
            self.disarmed().tab_keyed(key)
        }
    }

    /// A key that no dialog and no field takes.
    #[verifier::opaque]
    pub open spec fn global_keyed(self, key: Key) -> AppView {
        match key.code {
            KeyCode::Right | KeyCode::Tab => {
                let s = self.disarmed();
                s.tab_switched(s.ui.tab.successor())
            },
            KeyCode::Left | KeyCode::BackTab => {
                let s = self.disarmed();
                s.tab_switched(s.ui.tab.predecessor())
            },
            KeyCode::Esc => self.disarmed().ascended(),
            KeyCode::Char(c) => self.char_keyed(c, key),
            _ => self.disarmed().tab_keyed(key),
        }
    }

    /// A text field of the Setup tab owns the keyboard.
    pub open spec fn setup_field_open(self) -> bool {
        self.ui.tab == Tab::Setup && self.ui.config_focus == ConfigFocus::Actions
            && self.config_draft is Some && self.config_draft->0.active is Some
    }

    pub open spec fn threshold_field_open(self) -> bool {
        self.ui.tab == Tab::Fallback && self.ui.fallback_focus == FallbackFocus::Detail
            && self.fallback_threshold_draft is Some
    }

    #[verifier::opaque]
    pub open spec fn login_canceled(self) -> AppView {
        self.logging_in(None).toasted(ToastKind::Info, "login canceled"@)
    }

    /// A key press: leaving the program comes first, then the open dialog, then the open
    /// field, then a login in flight, then the keys that work everywhere.
    #[verifier::opaque]
    pub open spec fn keyed(self, key: Key) -> AppView {
        if !key.press {
            self
        } else if key.ctrl_c() {
            self.quitted()
        } else if self.modals.len() > 0 {
            self.modal_keyed(key)
        } else if self.setup_field_open() {
            self.config_edit_keyed(key)
        } else if self.threshold_field_open() {
            self.threshold_edit_keyed(key)
        } else if self.ui.tab == Tab::Config && self.refresh_interval_draft is Some {
            self.interval_edit_keyed(key)
        } else if self.ui.tab == Tab::Config && self.weekly_threshold_draft is Some {
            self.weekly_edit_keyed(key)
        } else if self.login is Some && (key.code == KeyCode::Esc || key.code == KeyCode::Char(
            'q',
        )) {
            self.login_canceled()
        } else {
            self.global_keyed(key)
        }
    }
}

fn ascend(app: &mut App)
    ensures
        final(app)@ == old(app)@.ascended(),
{
    reveal(AppView::ascended);
    if !app.has_sub_focus() {
        return;
    }
    match app.ui.tab {
        Tab::Setup => setup::leave_config_detail(app),
        Tab::Fallback => chain::leave_fallback_detail(app),
        Tab::Tokens => {
            let ui = Ui {
                tokens: TokensUi { view: TokenView::Dashboard, ..app.ui.tokens },
                ..app.ui
            };
            app.set_ui(ui);
        },
        Tab::Plugin => focus_check_list(app),
        _ => focus_incident_list(app),
    }
}

fn refresh_tab(app: &mut App)
    ensures
        final(app)@ == old(app)@.refresh_keyed(),
{
    reveal(AppView::refresh_keyed);
    match app.ui.tab {
        Tab::Status => trigger_status_refresh(app),
        Tab::Plugin => {
            recompute_plugin_checks(app, true);
            app.toast(ToastKind::Info, "re-running plugin checks");
        },
        Tab::Tokens => reload_token_stats(app),
        Tab::Usage => refresh_focused(app),
        _ => {
            app.ask(Request::RefetchAll);
            app.toast(ToastKind::Info, "refreshing usage");
        },
    }
}

fn handle_quit_key(app: &mut App)
    ensures
        final(app)@ == old(app)@.quit_keyed(),
{
    reveal(AppView::quit_keyed);
    if app.has_sub_focus() {
        app.disarm_quit();
        ascend(app);
    } else if app.ui.exit.armed {
        quit_now(app);
    } else {
        app.ui = Ui { exit: ExitFlags { armed: true, ..app.ui.exit }, ..app.ui };
        app.footer_alert = Some("press q again to quit".to_string());
    }
}

fn dismiss(app: &mut App)
    ensures
        final(app)@ == old(app)@.dismiss_keyed(),
{
    reveal(AppView::dismiss_keyed);
    assert(forms::toast_views(app.toasts@).len() == app.toasts@.len());
    if app.toasts.len() > 0 {
        app.pop_toast();
    } else if app.footer_alert.is_some() {
        app.disarm_quit();
    }
}

fn handle_char_key(app: &mut App, c: char, key: Key)
    requires
        old(app)@.config.profiles.len() < usize::MAX,
    ensures
        final(app)@ == old(app)@.char_keyed(c, key),
{
    reveal(AppView::char_keyed);
    if c == '?' {
        app.disarm_quit();
        app.push_modal(Modal::Help);
    } else if c == 'd' {
        reveal(AppView::divergence_keyed);
        let active: Option<String> = match &app.divergence_pending {
            Some(n) => Some(n.active.clone()),
            None => None,
        };
        if let Some(active) = active {
            app.disarm_quit();
            app.ask(Request::FindOwner(active));
        }
    } else if c == 'a' {
        open_action_menu(app);
    } else if c == 'r' {
        app.disarm_quit();
        refresh_tab(app);
    } else if c == 't' {
        app.disarm_quit();
        reveal(AppView::rotate_keyed);
        if app.ui.tab == Tab::Tokens {
            let next = app.ui.tokens.period.next();
            set_token_period(app, next);
        } else {
            ask_rotation(app);
        }
    } else if c == 'n' {
        app.disarm_quit();
        start_new_account(app);
    } else if c == 'q' {
        handle_quit_key(app);
    } else if c == 'x' {
        dismiss(app);
    } else {
        proof {
            reveal(AppView::disarmed);
        }
        app.disarm_quit();
        handle_tab_key(app, key);
    }
}

fn handle_global_key(app: &mut App, key: Key)
    requires
        old(app)@.config.profiles.len() < usize::MAX,
    ensures
        final(app)@ == old(app)@.global_keyed(key),
{
    reveal(AppView::global_keyed);
    match key.code {
        KeyCode::Right | KeyCode::Tab => {
            app.disarm_quit();
            let next = app.ui.tab.next();
            switch_tab(app, next);
        },
        KeyCode::Left | KeyCode::BackTab => {
            app.disarm_quit();
            let prev = app.ui.tab.prev();
            switch_tab(app, prev);
        },
        KeyCode::Esc => {
            app.disarm_quit();
            ascend(app);
        },
        KeyCode::Char(c) => handle_char_key(app, c, key),
        _ => {
            proof {
                reveal(AppView::disarmed);
            }
            app.disarm_quit();
            handle_tab_key(app, key);
        },
    }
}

/// Cancels the login in flight.
pub fn cancel_login(app: &mut App)
    ensures
        final(app)@ == old(app)@.login_canceled(),
{
    reveal(AppView::login_canceled);
    proof {
        reveal(AppView::logging_in);
    }
    app.login = None;
    app.toast(ToastKind::Info, "login canceled");
}

/// A key event.
pub fn handle_key(app: &mut App, key: Key)
    requires
        old(app)@.config.profiles.len() < usize::MAX,
    ensures
        final(app)@ == old(app)@.keyed(key),
{
    reveal(AppView::keyed);
    if !key.press {
        return;
    }
    if key.code == KeyCode::Char('c') && key.control {
        quit_now(app);
        return;
    }
    assert(forms::modal_views(app.modals@).len() == app.modals@.len());
    let field = match &app.config_draft {
        Some(d) => d.active.is_some(),
        None => false,
    };
    if app.modals.len() > 0 {
        dialogs::handle_modal_key(app, key);
    } else if app.ui.tab == Tab::Setup && app.ui.config_focus == ConfigFocus::Actions && field {
        setup::handle_config_edit_key(app, key);
    } else if app.ui.tab == Tab::Fallback && app.ui.fallback_focus == FallbackFocus::Detail
        && app.fallback_threshold_draft.is_some() {
        chain::handle_fallback_threshold_edit_key(app, key);
    } else if app.ui.tab == Tab::Config && app.refresh_interval_draft.is_some() {
        settings::handle_refresh_interval_edit_key(app, key);
    } else if app.ui.tab == Tab::Config && app.weekly_threshold_draft.is_some() {
        settings::handle_weekly_threshold_edit_key(app, key);
    } else if app.login.is_some() && (key.code == KeyCode::Esc || key.code == KeyCode::Char('q')) {
        cancel_login(app);
    } else {
        handle_global_key(app, key);
    }
}

/// Ctrl+C leaves the program from anywhere; a key that is not a press does nothing.
pub proof fn ctrl_c_always_quits(s: AppView, key: Key)
    ensures
        key.press && key.ctrl_c() ==> s.keyed(key).ui.exit.quit,
        !key.press ==> s.keyed(key) == s,
{
    reveal(AppView::keyed);
    reveal(AppView::quitted);
    reveal(AppView::on);
}

/// The key `q`, pressed.
pub open spec fn q_pressed() -> Key {
    Key { code: KeyCode::Char('q'), control: false, shift: false, press: true }
}

/// No dialog, no field and no login takes keys, and no detail pane has focus.
pub open spec fn at_top_level(s: AppView) -> bool {
    &&& s.modals.len() == 0
    &&& !s.setup_field_open()
    &&& !s.threshold_field_open()
    &&& !(s.ui.tab == Tab::Config && (s.refresh_interval_draft is Some
        || s.weekly_threshold_draft is Some))
    &&& s.login is None
    &&& !s.sub_focus()
}

/// At the top level the first `q` never quits, it only arms and says so; the second quits.
pub proof fn quitting_takes_two_presses(s: AppView)
    requires
        at_top_level(s),
        !s.ui.exit.armed,
        !s.ui.exit.quit,
    ensures
        !s.keyed(q_pressed()).ui.exit.quit,
        s.keyed(q_pressed()).footer_alert is Some,
        s.keyed(q_pressed()).keyed(q_pressed()).ui.exit.quit,
{
    reveal(AppView::keyed);
    reveal(AppView::global_keyed);
    reveal(AppView::char_keyed);
    reveal(AppView::quit_keyed);
    reveal(AppView::quitted);
    reveal(AppView::on);
    let t = s.keyed(q_pressed());
    assert(t == s.quit_keyed());
    assert(at_top_level(t));
    assert(t.keyed(q_pressed()) == t.quit_keyed());
}

/// Stepping through the tabs between the two presses disarms the quit.
pub proof fn other_keys_disarm_the_quit(s: AppView, key: Key)
    requires
        s.modals.len() == 0,
        !s.setup_field_open(),
        !s.threshold_field_open(),
        s.refresh_interval_draft is None,
        s.weekly_threshold_draft is None,
        s.login is None,
        key.press,
        key.code == KeyCode::Right || key.code == KeyCode::Left,
    ensures
        !s.keyed(key).ui.exit.armed,
        s.keyed(key).footer_alert is None,
{
    reveal(AppView::keyed);
    reveal(AppView::global_keyed);
    reveal(AppView::disarmed);
    reveal(AppView::tab_switched);
    reveal(AppView::on);
    reveal(AppView::drafting);
    reveal(AppView::profile_clamped);
    reveal(AppView::fallback_tab_shown);
    reveal(AppView::config_tab_shown);
    reveal(AppView::plugin_tab_shown);
    reveal(AppView::with_plugin);
    reveal(AppView::with_status);
    reveal(AppView::plugin_probe_wanted);
    reveal(AppView::asked);
    reveal(AppView::profile_synced);
}

// ── the context menu ────────────────────────────────────────────────────────

/// `actions` with one more where `offered`.
pub open spec fn offer(
    actions: Seq<ActionMenuAction>,
    offered: bool,
    a: ActionMenuAction,
) -> Seq<ActionMenuAction> {
    if offered {
        actions.push(a)
    } else {
        actions
    }
}

/// What the menu offers on a row of the Setup detail pane.
pub open spec fn row_actions(row: ConfigRow) -> Seq<ActionMenuAction> {
    let none = Seq::<ActionMenuAction>::empty();
    match row {
        ConfigRow::AutoStart => none.push(ActionMenuAction::ToggleAutoStart),
        ConfigRow::Login => none.push(ActionMenuAction::LoginAccount),
        ConfigRow::DeleteCreds => none.push(ActionMenuAction::ClearCredentials),
        ConfigRow::Delete => none.push(ActionMenuAction::DeleteProfile),
        ConfigRow::Create => none.push(ActionMenuAction::CreateProfile),
        ConfigRow::EnvEntry(_) => none.push(ActionMenuAction::EditField).push(
            ActionMenuAction::RemoveEnvField,
        ),
        ConfigRow::ModelOverrideAdd => none,
        _ => none.push(ActionMenuAction::EditField),
    }
}

/// What the menu offers on the Tokens tab: the lenses that are not on, and the page keys.
pub open spec fn token_actions(t: TokensUi) -> Seq<ActionMenuAction> {
    let a = Seq::<ActionMenuAction>::empty();
    let a = offer(a, t.period != TokenPeriod::Lifetime, ActionMenuAction::TokensPeriodLifetime);
    let a = offer(a, t.period != TokenPeriod::Daily, ActionMenuAction::TokensPeriodDaily);
    let a = offer(a, t.period != TokenPeriod::Weekly, ActionMenuAction::TokensPeriodWeekly);
    let a = offer(a, t.period != TokenPeriod::Monthly, ActionMenuAction::TokensPeriodMonthly);
    let a = offer(a, t.filter != TokenFilter::All, ActionMenuAction::TokensShowAll);
    let a = offer(a, t.filter != TokenFilter::Claude, ActionMenuAction::TokensShowClaude);
    let a = offer(a, t.filter != TokenFilter::Others, ActionMenuAction::TokensShowOthers);
    a.push(ActionMenuAction::ToggleCountCache).push(ActionMenuAction::ReloadTokenStats)
}

impl AppView {
    /// The account under the cursor can be switched to.
    pub open spec fn can_switch(self) -> bool {
        match self.focused() {
            Some(p) => !self.config.is_active(p.name),
            None => false,
        }
    }

    pub open spec fn setup_actions(self) -> Seq<ActionMenuAction> {
        match self.ui.config_focus {
            ConfigFocus::Profiles => offer(
                Seq::empty(),
                self.ui.profile_cursor < self.config.profiles.len(),
                ActionMenuAction::ConfigureSelected,
            ).push(ActionMenuAction::NewAccount),
            ConfigFocus::Actions => match self.current_row() {
                Some(row) => row_actions(row),
                None => Seq::empty(),
            },
        }
    }

    pub open spec fn fallback_actions(self) -> Seq<ActionMenuAction> {
        let none = Seq::<ActionMenuAction>::empty();
        match self.ui.fallback_focus {
            FallbackFocus::Chain => if self.selected_member() is Some {
                none.push(ActionMenuAction::OpenChainMember).push(
                    ActionMenuAction::ReorderUp,
                ).push(ActionMenuAction::ReorderDown)
            } else {
                none
            },
            FallbackFocus::Detail => if self.ui.fallback_detail_cursor
                < chain::FALLBACK_ROW_COUNT {
                match chain::fallback_row_at(self.ui.fallback_detail_cursor) {
                    FallbackRow::Threshold => none.push(ActionMenuAction::EditThreshold),
                    FallbackRow::LastResort => none.push(ActionMenuAction::ToggleLastResort),
                    FallbackRow::Remove => none.push(ActionMenuAction::RemoveMember),
                    FallbackRow::MaxSpend => none,
                }
            } else {
                none
            },
        }
    }

    /// What the menu offers here.
    #[verifier::opaque]
    pub open spec fn menu_actions(self) -> Seq<ActionMenuAction> {
        let none = Seq::<ActionMenuAction>::empty();
        match self.ui.tab {
            Tab::Overview => offer(
                none,
                self.can_switch(),
                ActionMenuAction::SwitchToSelected,
            ).push(ActionMenuAction::NewAccount).push(ActionMenuAction::RefreshUsage).push(
                ActionMenuAction::RotateTokens,
            ),
            Tab::Usage => none.push(ActionMenuAction::RefreshUsage).push(
                ActionMenuAction::ToggleEstimates,
            ).push(ActionMenuAction::TogglePace),
            Tab::Tokens => token_actions(self.ui.tokens),
            Tab::Setup => self.setup_actions(),
            Tab::Fallback => self.fallback_actions(),
            Tab::Config => none,
            Tab::Status => offer(
                none.push(ActionMenuAction::RefreshStatus),
                self.status.selected() is Some,
                ActionMenuAction::OpenIncidentLink,
            ),
            Tab::Plugin => none,
        }
    }
}

fn offer_if(actions: &mut Vec<ActionMenuAction>, offered: bool, a: ActionMenuAction)
    ensures
        final(actions)@ == offer(old(actions)@, offered, a),
{
    if offered {
        actions.push(a);
    }
}

fn list_row_actions(row: ConfigRow) -> (r: Vec<ActionMenuAction>)
    ensures
        r@ == row_actions(row),
{
    let mut v: Vec<ActionMenuAction> = Vec::new();
    match row {
        ConfigRow::AutoStart => v.push(ActionMenuAction::ToggleAutoStart),
        ConfigRow::Login => v.push(ActionMenuAction::LoginAccount),
        ConfigRow::DeleteCreds => v.push(ActionMenuAction::ClearCredentials),
        ConfigRow::Delete => v.push(ActionMenuAction::DeleteProfile),
        ConfigRow::Create => v.push(ActionMenuAction::CreateProfile),
        ConfigRow::EnvEntry(_) => {
            v.push(ActionMenuAction::EditField);
            v.push(ActionMenuAction::RemoveEnvField);
        },
        ConfigRow::ModelOverrideAdd => {},
        _ => v.push(ActionMenuAction::EditField),
    }
    v
}

fn list_token_actions(t: TokensUi) -> (r: Vec<ActionMenuAction>)
    ensures
        r@ == token_actions(t),
{
    let mut v: Vec<ActionMenuAction> = Vec::new();
    offer_if(
        &mut v,
        t.period != TokenPeriod::Lifetime,
        ActionMenuAction::TokensPeriodLifetime,
    );
    offer_if(&mut v, t.period != TokenPeriod::Daily, ActionMenuAction::TokensPeriodDaily);
    offer_if(&mut v, t.period != TokenPeriod::Weekly, ActionMenuAction::TokensPeriodWeekly);
    offer_if(&mut v, t.period != TokenPeriod::Monthly, ActionMenuAction::TokensPeriodMonthly);
    offer_if(&mut v, t.filter != TokenFilter::All, ActionMenuAction::TokensShowAll);
    offer_if(&mut v, t.filter != TokenFilter::Claude, ActionMenuAction::TokensShowClaude);
    offer_if(&mut v, t.filter != TokenFilter::Others, ActionMenuAction::TokensShowOthers);
    v.push(ActionMenuAction::ToggleCountCache);
    v.push(ActionMenuAction::ReloadTokenStats);
    v
}

fn list_setup_actions(app: &App) -> (r: Vec<ActionMenuAction>)
    ensures
        r@ == app@.setup_actions(),
{
    match app.ui.config_focus {
        ConfigFocus::Profiles => {
            let mut v: Vec<ActionMenuAction> = Vec::new();
            offer_if(
                &mut v,
                app.ui.profile_cursor < app.profile_count(),
                ActionMenuAction::ConfigureSelected,
            );
            v.push(ActionMenuAction::NewAccount);
            v
        },
        ConfigFocus::Actions => match setup::current_row(app) {
            Some(row) => list_row_actions(row),
            None => Vec::new(),
        },
    }
}

fn list_fallback_actions(app: &App) -> (r: Vec<ActionMenuAction>)
    ensures
        r@ == app@.fallback_actions(),
{
    let mut v: Vec<ActionMenuAction> = Vec::new();
    match app.ui.fallback_focus {
        FallbackFocus::Chain => {
            if chain::selected_chain_member(app).is_some() {
                v.push(ActionMenuAction::OpenChainMember);
                v.push(ActionMenuAction::ReorderUp);
                v.push(ActionMenuAction::ReorderDown);
            }
        },
        FallbackFocus::Detail => {
            if app.ui.fallback_detail_cursor < chain::FALLBACK_ROW_COUNT {
                match chain::fallback_row(app.ui.fallback_detail_cursor) {
                    FallbackRow::Threshold => v.push(ActionMenuAction::EditThreshold),
                    FallbackRow::LastResort => v.push(ActionMenuAction::ToggleLastResort),
                    FallbackRow::Remove => v.push(ActionMenuAction::RemoveMember),
                    FallbackRow::MaxSpend => {},
                }
            }
        },
    }
    v
}

fn list_actions(app: &App) -> (r: Vec<ActionMenuAction>)
    ensures
        r@ == app@.menu_actions(),
{
    reveal(AppView::menu_actions);
    let mut v: Vec<ActionMenuAction> = Vec::new();
    match app.ui.tab {
        Tab::Overview => {
            let can_switch = match focused_account(app) {
                Some((name, _, _)) => !app.config.is_active(name.as_str()),
                None => false,
            };
            offer_if(&mut v, can_switch, ActionMenuAction::SwitchToSelected);
            v.push(ActionMenuAction::NewAccount);
            v.push(ActionMenuAction::RefreshUsage);
            v.push(ActionMenuAction::RotateTokens);
        },
        Tab::Usage => {
            v.push(ActionMenuAction::RefreshUsage);
            v.push(ActionMenuAction::ToggleEstimates);
            v.push(ActionMenuAction::TogglePace);
        },
        Tab::Tokens => {
            return list_token_actions(app.ui.tokens);
        },
        Tab::Setup => {
            return list_setup_actions(app);
        },
        Tab::Fallback => {
            return list_fallback_actions(app);
        },
        Tab::Config | Tab::Plugin => {},
        Tab::Status => {
            v.push(ActionMenuAction::RefreshStatus);
            offer_if(
                &mut v,
                app.status.selected().is_some(),
                ActionMenuAction::OpenIncidentLink,
            );
        },
    }
    v
}

/// The context menu for what is shown.
pub fn build_action_menu(app: &App) -> (r: ActionMenuState)
    ensures
        r@ == ActionMenuStateView::over(app@.host, app@.menu_actions()),
{
    ActionMenuState::new(&app.host, list_actions(app))
}

/// Whether the context menu would have no entry.
pub fn menu_is_empty(app: &App) -> (r: bool)
    ensures
        r == (app@.menu_actions().len() == 0),
{
    list_actions(app).len() == 0
}

fn open_action_menu(app: &mut App)
    ensures
        final(app)@ == old(app)@.menu_keyed(),
{
    reveal(AppView::menu_keyed);
    app.disarm_quit();
    let state = build_action_menu(app);
    assert(state@.items.len() == state.items@.len());
    if state.items.len() > 0 {
        app.push_modal(Modal::ActionMenu(state));
    }
}

} // verus!
