//! Logins: starting them, taking them over, switching between them.

use vstd::prelude::*;
use std::hash::DefaultHasher;
use std::hash::Hasher;
use vstd::std_specs::hash::DefaultHasherAdditionalSpecFns;

use crate::forms;
use crate::forms::{
    CaptureNameForm, CaptureNameFormView, ConfigDraftView, ConfigRow, ConfirmAction,
    ConfirmActionView, ConfirmState, ConfirmStateView, DivergenceForm, DivergenceFormView,
    DivergenceNotice, DivergenceNoticeView, DivergenceTargetForm, DivergenceTargetFormView,
    LoginSession, LoginSessionView, LoginStage, Modal, ModalView, ToastKind,
};
use crate::input::{InputState, InputView};
use crate::model::{AppConfig, AppConfigView, AppStateView, DivergenceChoice};
use crate::plugin::LinkState;
use crate::requests::{CaptureFacts, Request, RequestView};
use crate::setup;
use crate::state::{App, AppView, Ui};
use crate::tabs::Tab;
use crate::text;

verus! {

// ── browser login ───────────────────────────────────────────────────────────

/// News from a browser login.
pub enum LoginEvent {
    Url(String),
    Stage(LoginStage),
}

/// What a [`LoginEvent`] holds.
pub enum LoginEventView {
    Url(Seq<char>),
    Stage(LoginStage),
}

impl View for LoginEvent {
    type V = LoginEventView;

    open spec fn view(&self) -> LoginEventView {
        match self {
            LoginEvent::Url(a) => LoginEventView::Url(a@),
            LoginEvent::Stage(a) => LoginEventView::Stage(*a),
        }
    }
}

/// What is not the login dialog.
pub open spec fn other_modal() -> spec_fn(ModalView) -> bool {
    |m: ModalView| !(m is Login)
}

impl AppView {
    /// The login dialog is open.
    pub open spec fn shows_login(self) -> bool {
        exists|i: int| 0 <= i < self.modals.len() && (#[trigger] self.modals[i]) is Login
    }

    #[verifier::opaque]
    pub open spec fn login_modal_opened(self) -> AppView {
        if self.shows_login() {
            self
        } else {
            self.with_modal(ModalView::Login)
        }
    }

    #[verifier::opaque]
    pub open spec fn login_modal_closed(self) -> AppView {
        AppView { modals: self.modals.filter(other_modal()), ..self }
    }

    #[verifier::opaque]
    pub open spec fn logging_in(self, login: Option<LoginSessionView>) -> AppView {
        AppView { login, ..self }
    }

    /// A login asked for: one that is in flight is shown again, never joined by a second.
    #[verifier::opaque]
    pub open spec fn login_started(self, name: Seq<char>, is_new: bool) -> AppView {
        match self.login {
            Some(session) => {
                let s = if session.name != name || session.is_new != is_new {
                    self.toasted(
                        ToastKind::Warning,
                        "a login for '"@ + session.name + "' is already in progress"@,
                    )
                } else {
                    self
                };
                s.login_modal_opened()
            },
            None => {
                let generation = self.ui.login_generation.wrapping_add(1);
                self.on(Ui { login_generation: generation, ..self.ui }).logging_in(
                    Some(
                        LoginSessionView {
                            name,
                            is_new,
                            generation,
                            url: None,
                            stage: LoginStage::WaitingBrowser,
                        },
                    ),
                ).asked(RequestView::StartLogin { generation, name }).login_modal_opened()
            },
        }
    }

    /// News of a login that is no longer the current one is dropped.
    #[verifier::opaque]
    pub open spec fn login_advanced(self, generation: u64, event: LoginEventView) -> AppView {
        match self.login {
            Some(session) if session.generation == generation => self.logging_in(
                Some(
                    match event {
                        LoginEventView::Url(url) => LoginSessionView { url: Some(url), ..session },
                        LoginEventView::Stage(stage) => LoginSessionView { stage, ..session },
                    },
                ),
            ),
            _ => self,
        }
    }

    /// A new-account login is kept in the form, when the form is still open.
    #[verifier::opaque]
    pub open spec fn login_stashed(self, slot: u64) -> AppView {
        match self.config_draft {
            Some(d) if d.editing_name is None => self.drafting(
                Some(ConfigDraftView { captured_login: Some(slot), ..d }),
            ).cursor_on(ConfigRow::Create).toasted(
                ToastKind::Success,
                "logged in · create account saves it"@,
            ),
            _ => self.toasted(
                ToastKind::Warning,
                "login finished but the new-account form is no longer open · log in again"@,
            ),
        }
    }

    /// A login of an existing account: stored at once where nothing is lost or losing is
    /// the configured choice, asked about otherwise.
    #[verifier::opaque]
    pub open spec fn relogin_landed(self, name: Seq<char>, slot: u64) -> AppView {
        match self.config.find(name) {
            None => self.toasted(
                ToastKind::Danger,
                "login failed: profile '"@ + name + "' no longer exists"@,
            ),
            Some(p) => if !p.facts.has_credentials || self.config.state.default_divergence == Some(
                DivergenceChoice::Overwrite,
            ) {
                self.asked(RequestView::LoginInto { name, slot })
            } else {
                self.with_modal(
                    ModalView::Confirm(
                        ConfirmStateView {
                            message: "Replace the stored credentials for '"@ + name + "'?"@,
                            detail: Some(
                                "A fresh browser login finished for this account. The old tokens are dropped; chain slot, env, and model settings stay."@,
                            ),
                            choice: false,
                            on_confirm: ConfirmActionView::CaptureOverwrite(slot, name, false),
                        },
                    ),
                )
            },
        }
    }

    #[verifier::opaque]
    pub open spec fn login_applied(self, session: LoginSessionView, slot: u64) -> AppView {
        if session.is_new {
            self.login_stashed(slot)
        } else {
            self.relogin_landed(session.name, slot)
        }
    }

    /// The end of a login: a superseded one is dropped, the current one is applied or its
    /// failure said; either way the dialog closes.
    #[verifier::opaque]
    pub open spec fn login_ended(self, generation: u64, outcome: Result<u64, Seq<char>>) -> AppView {
        match self.login {
            Some(session) if session.generation == generation => {
                let s = self.logging_in(None).login_modal_closed();
                match outcome {
                    Ok(slot) => s.login_applied(session, slot),
                    Err(e) => s.toasted(
                        ToastKind::Danger,
                        "login for '"@ + session.name + "' failed: "@ + e,
                    ),
                }
            },
            _ => self,
        }
    }
}

fn has_login_modal(modals: &Vec<Modal>) -> (r: bool)
    ensures
        r == (exists|i: int|
            0 <= i < forms::modal_views(modals@).len() && (#[trigger] forms::modal_views(
                modals@,
            )[i]) is Login),
{
    let mut i: usize = 0;
    assert(forms::modal_views(modals@).len() == modals@.len());
    while i < modals.len()
        invariant
            i <= modals@.len(),
            forms::modal_views(modals@).len() == modals@.len(),
            forall|j: int| 0 <= j < i ==> !((#[trigger] forms::modal_views(modals@)[j]) is Login),
        decreases modals@.len() - i,
    {
        assert(forms::modal_views(modals@)[i as int] == modals@[i as int]@);
        if let Modal::Login = &modals[i] {
            return true;
        }
        i = i + 1;
    }
    false
}

/// Shows the login dialog, once.
pub fn open_login_modal(app: &mut App)
    ensures
        final(app)@ == old(app)@.login_modal_opened(),
{
    reveal(AppView::login_modal_opened);
    if !has_login_modal(&app.modals) {
        app.push_modal(Modal::Login);
    }
}

/// Drops the login dialog.
pub fn close_login_modal(app: &mut App)
    ensures
        final(app)@ == old(app)@.login_modal_closed(),
{
    reveal(AppView::login_modal_closed);
    broadcast use forms::lemma_modal_views_push;

    let mut kept: Vec<Modal> = Vec::new();
    let mut rest: Vec<Modal> = Vec::new();
    std::mem::swap(&mut rest, &mut app.modals);
    let ghost all = forms::modal_views(rest@);
    let ghost mut done: nat = 0;
    proof {
        assert(forms::modal_views(kept@) =~= Seq::<ModalView>::empty());
        assert(all.take(0) =~= Seq::<ModalView>::empty());
        reveal(Seq::filter);
        assert(all.skip(0) =~= all);
    }
    while rest.len() > 0
        invariant
            done <= all.len(),
            forms::modal_views(rest@) == all.skip(done as int),
            forms::modal_views(kept@) == all.take(done as int).filter(other_modal()),
        decreases rest@.len(),
    {
        let ghost before = rest@;
        assert(forms::modal_views(before).len() == before.len());
        assert(forms::modal_views(before)[0] == before[0]@);
        let m = rest.remove(0);
        proof {
            assert(forms::modal_views(rest@) =~= forms::modal_views(before).drop_first());
            assert(all.skip(done as int).drop_first() =~= all.skip(done as int + 1));
            assert(m@ == all[done as int]);
            let t = all.take(done as int + 1);
            assert(t.drop_last() =~= all.take(done as int));
            assert(t.last() == m@);
            reveal(Seq::filter);
            done = done + 1;
        }
        let login = match &m {
            Modal::Login => true,
            _ => false,
        };
        if !login {
            kept.push(m);
        }
    }
    proof {
        assert(forms::modal_views(rest@).len() == 0);
        assert(all.take(done as int) =~= all);
    }
    app.modals = kept;
}

/// Starts a browser login, or shows the one in flight.
pub fn start_login(app: &mut App, name: String, is_new: bool)
    ensures
        final(app)@ == old(app)@.login_started(name@, is_new),
{
    reveal(AppView::login_started);
    let flying: Option<(String, bool)> = match &app.login {
        Some(s) => Some((s.name.clone(), s.is_new)),
        None => None,
    };
    match flying {
        Some((running, running_new)) => {
            if !text::same_text(running.as_str(), name.as_str()) || running_new != is_new {
                let body = text::joined3(
                    "a login for '",
                    running.as_str(),
                    "' is already in progress",
                );
                app.toast(ToastKind::Warning, body.as_str());
            }
            open_login_modal(app);
        },
        None => {
            let generation: u64 = app.ui.login_generation.wrapping_add(1);
            let ui = Ui { login_generation: generation, ..app.ui };
            app.set_ui(ui);
            set_login(
                app,
                Some(
                    LoginSession {
                        name: name.clone(),
                        is_new,
                        generation,
                        url: None,
                        stage: LoginStage::WaitingBrowser,
                    },
                ),
            );
            app.ask(Request::StartLogin { generation, name });
            open_login_modal(app);
        },
    }
}

fn set_login(app: &mut App, login: Option<LoginSession>)
    ensures
        final(app)@ == old(app)@.logging_in(forms::opt_login_session(login)),
{
    reveal(AppView::logging_in);
    app.login = login;
}

/// Takes news of a login.
pub fn on_login_event(app: &mut App, generation: u64, event: LoginEvent)
    ensures
        final(app)@ == old(app)@.login_advanced(generation, event@),
{
    reveal(AppView::login_advanced);
    reveal(AppView::logging_in);
    if let Some(session) = app.login.as_mut() {
        if session.generation == generation {
            match event {
                LoginEvent::Url(url) => {
                    session.url = Some(url);
                },
                LoginEvent::Stage(stage) => {
                    session.stage = stage;
                },
            }
        }
    }
}

fn stash_login(app: &mut App, slot: u64)
    ensures
        final(app)@ == old(app)@.login_stashed(slot),
{
    reveal(AppView::login_stashed);
    reveal(AppView::drafting);
    let mut open = false;
    if let Some(d) = app.config_draft.as_mut() {
        if d.editing_name.is_none() {
            d.captured_login = Some(slot);
            open = true;
        }
    }
    if open {
        setup::put_cursor_on(app, ConfigRow::Create);
        app.toast(ToastKind::Success, "logged in · create account saves it");
    } else {
        app.toast(
            ToastKind::Warning,
            "login finished but the new-account form is no longer open · log in again",
        );
    }
}

fn land_relogin(app: &mut App, name: String, slot: u64)
    ensures
        final(app)@ == old(app)@.relogin_landed(name@, slot),
{
    reveal(AppView::relogin_landed);
    let stored: Option<bool> = match app.config.find(name.as_str()) {
        Some(p) => Some(p.facts.has_credentials),
        None => None,
    };
    match stored {
        None => {
            let body = text::joined3(
                "login failed: profile '",
                name.as_str(),
                "' no longer exists",
            );
            app.toast(ToastKind::Danger, body.as_str());
        },
        Some(has_credentials) => {
            let silent = match app.config.state.default_divergence {
                Some(DivergenceChoice::Overwrite) => true,
                _ => false,
            };
            if !has_credentials || silent {
                app.ask(Request::LoginInto { name, slot });
            } else {
                let message = text::joined3(
                    "Replace the stored credentials for '",
                    name.as_str(),
                    "'?",
                );
                app.push_modal(
                    Modal::Confirm(
                        ConfirmState {
                            message,
                            detail: Some(
                                "A fresh browser login finished for this account. The old tokens are dropped; chain slot, env, and model settings stay.".to_string(),
                            ),
                            choice: false,
                            on_confirm: ConfirmAction::CaptureOverwrite(slot, name, false),
                        },
                    ),
                );
            }
        },
    }
}

/// Takes a finished login over.
pub fn apply_login(app: &mut App, session: LoginSession, slot: u64)
    ensures
        final(app)@ == old(app)@.login_applied(session@, slot),
{
    reveal(AppView::login_applied);
    if session.is_new {
        stash_login(app, slot);
    } else {
        land_relogin(app, session.name, slot);
    }
}

/// What a login came to, with its texts as sequences.
pub open spec fn outcome_view(o: Result<u64, String>) -> Result<u64, Seq<char>> {
    match o {
        Ok(slot) => Ok(slot),
        Err(e) => Err(e@),
    }
}

/// Takes the end of a login.
pub fn on_login_result(app: &mut App, generation: u64, outcome: Result<u64, String>)
    ensures
        final(app)@ == old(app)@.login_ended(generation, outcome_view(outcome)),
{
    reveal(AppView::login_ended);
    let current = match &app.login {
        Some(s) => s.generation == generation,
        None => false,
    };
    if !current {
        return;
    }
    let mut taken: Option<LoginSession> = None;
    std::mem::swap(&mut taken, &mut app.login);
    proof {
        reveal(AppView::logging_in);
    }
    close_login_modal(app);
    if let Some(session) = taken {
        match outcome {
            Ok(slot) => apply_login(app, session, slot),
            Err(e) => {
                let head = text::joined3("login for '", session.name.as_str(), "' failed: ");
                let body = text::joined(head.as_str(), e.as_str());
                app.toast(ToastKind::Danger, body.as_str());
            },
        }
    }
}

/// News and results of a login that was superseded change nothing.
pub proof fn stale_logins_are_dropped(
    s: AppView,
    generation: u64,
    event: LoginEventView,
    outcome: Result<u64, Seq<char>>,
)
    requires
        s.login is None || s.login->0.generation != generation,
    ensures
        s.login_advanced(generation, event) == s,
        s.login_ended(generation, outcome) == s,
{
    reveal(AppView::login_advanced);
    reveal(AppView::login_ended);
}

/// A login never replaces one that is in flight.
pub proof fn login_in_flight_is_kept(s: AppView, name: Seq<char>, is_new: bool)
    requires
        s.login is Some,
    ensures
        s.login_started(name, is_new).login == s.login,
        s.login_started(name, is_new).requests == s.requests,
        s.login_started(name, is_new).shows_login(),
{
    reveal(AppView::login_started);
    reveal(AppView::login_modal_opened);
    reveal(AppView::toasted);
    reveal(AppView::with_modal);
    let t = s.login_started(name, is_new);
    if !s.shows_login() {
        assert(t.modals.last() is Login);
        assert(t.modals[t.modals.len() - 1] is Login);
    } else {
        let i = choose|i: int| 0 <= i < s.modals.len() && (#[trigger] s.modals[i]) is Login;
        assert(t.modals[i] is Login);
    }
}

// ── switching ───────────────────────────────────────────────────────────────

/// Whether a live login differs from what is stored and would be lost.
pub open spec fn unsaved(state: Option<LinkState>, first_login: bool) -> bool {
    state == Some(LinkState::Diverged) && !first_login
}

/// Whether a live login differs from what is stored and would be lost.
pub fn active_diverged_unsaved(state: Option<LinkState>, first_login: bool) -> (r: bool)
    ensures
        r == unsaved(state, first_login),
{
    match state {
        Some(LinkState::Diverged) => !first_login,
        _ => false,
    }
}

/// Whether an account can be installed.
pub enum AuthGate {
    Ready,
    /// Its token was refreshed.
    Refreshed,
    /// Its login has expired.
    Broken,
    /// It could not be told, with the reason.
    Transient(String),
}

/// What an [`AuthGate`] holds.
pub enum AuthGateView {
    Ready,
    Refreshed,
    Broken,
    Transient(Seq<char>),
}

impl View for AuthGate {
    type V = AuthGateView;

    open spec fn view(&self) -> AuthGateView {
        match self {
            AuthGate::Ready => AuthGateView::Ready,
            AuthGate::Refreshed => AuthGateView::Refreshed,
            AuthGate::Broken => AuthGateView::Broken,
            AuthGate::Transient(a) => AuthGateView::Transient(a@),
        }
    }
}

/// Another account that a live login belongs to.
pub open spec fn sibling_of(owner: Option<Seq<char>>, active: Seq<char>) -> Option<Seq<char>> {
    match owner {
        Some(o) if o != active => Some(o),
        _ => None,
    }
}

fn sibling(owner: Option<String>, active: &str) -> (r: Option<String>)
    ensures
        text::opt_view(r) == sibling_of(text::opt_view(owner), active@),
{
    match owner {
        Some(o) => {
            if text::same_text(o.as_str(), active) {
                None
            } else {
                Some(o)
            }
        },
        None => None,
    }
}

impl AppView {
    /// Switching to an account is asked about; the active one is left alone.
    #[verifier::opaque]
    pub open spec fn switch_requested(self, idx: usize) -> AppView {
        if idx < self.config.profiles.len() && !self.config.is_active(
            self.config.profiles[idx as int].name,
        ) {
            let name = self.config.profiles[idx as int].name;
            self.with_modal(
                ModalView::Confirm(
                    ConfirmStateView {
                        message: "Switch to '"@ + name + "'?"@,
                        detail: None,
                        choice: true,
                        on_confirm: ConfirmActionView::Switch(name),
                    },
                ),
            )
        } else {
            self
        }
    }

    /// The account under the cursor one place up or down, when there is such a place.
    #[verifier::opaque]
    pub open spec fn reorder_wanted(self, up: bool) -> AppView {
        let idx = self.ui.profile_cursor;
        if idx >= self.config.profiles.len() {
            self
        } else if up && idx > 0 {
            self.asked(RequestView::ReorderProfile { from: idx, to: (idx - 1) as usize })
        } else if !up && idx + 1 < self.config.profiles.len() {
            self.asked(RequestView::ReorderProfile { from: idx, to: (idx + 1) as usize })
        } else {
            self
        }
    }

    /// The cursor follows the account it was on.
    #[verifier::opaque]
    pub open spec fn reordered(self, from: usize, to: usize, failure: Option<Seq<char>>) -> AppView {
        match failure {
            Some(e) => self.toasted(ToastKind::Danger, "reorder failed: "@ + e),
            None => if to < from {
                self.on(
                    Ui {
                        profile_cursor: text::monus(self.ui.profile_cursor as int, 1) as usize,
                        ..self.ui
                    },
                )
            } else if to > from && self.ui.profile_cursor < usize::MAX {
                self.on(Ui { profile_cursor: (self.ui.profile_cursor + 1) as usize, ..self.ui })
            } else {
                self
            },
        }
    }

    /// A switch: what is active already needs no check, anything else is checked off the
    /// interface thread first.
    #[verifier::opaque]
    pub open spec fn switch_begun(self, name: Seq<char>) -> AppView {
        if self.config.state.active_profile == Some(name) {
            self.switch_finalized(name)
        } else {
            self.asked(RequestView::RunGate(name))
        }
    }

    /// The end of a switch: an outgoing account is looked at first, so that an unsaved login
    /// is not lost.
    #[verifier::opaque]
    pub open spec fn switch_finalized(self, name: Seq<char>) -> AppView {
        match self.config.state.active_profile {
            Some(active) if active != name => self.asked(
                RequestView::GuardSwitch { active, name },
            ),
            _ => self.asked(RequestView::SwitchProfile(name)),
        }
    }

    #[verifier::opaque]
    pub open spec fn switch_guarded(
        self,
        active: Seq<char>,
        name: Seq<char>,
        state: Option<LinkState>,
        first_login: bool,
    ) -> AppView {
        if unsaved(state, first_login) {
            self.asked(RequestView::ClearActivity(name)).divergence_prompted(
                active,
                "switching"@,
            )
        } else {
            self.asked(RequestView::SwitchProfile(name))
        }
    }

    #[verifier::opaque]
    pub open spec fn switched(self, name: Seq<char>, failure: Option<Seq<char>>) -> AppView {
        let s = self.asked(RequestView::ClearActivity(name));
        match failure {
            None => s.asked(RequestView::RefreshTokens).asked(RequestView::NoteStateTime).toasted(
                ToastKind::Success,
                "switched to '"@ + name + "'"@,
            ),
            Some(e) => s.toasted(ToastKind::Danger, "switch failed: "@ + e),
        }
    }

    #[verifier::opaque]
    pub open spec fn switch_off_begun(self) -> AppView {
        match self.config.state.active_profile {
            None => self,
            Some(active) => self.asked(RequestView::GuardSwitchOff(active)),
        }
    }

    #[verifier::opaque]
    pub open spec fn switch_off_guarded(
        self,
        active: Seq<char>,
        state: Option<LinkState>,
        first_login: bool,
    ) -> AppView {
        if unsaved(state, first_login) {
            self.divergence_prompted(active, "switching off"@)
        } else {
            self.asked(RequestView::SwitchOff)
        }
    }

    #[verifier::opaque]
    pub open spec fn switched_off(self, failure: Option<Seq<char>>) -> AppView {
        match failure {
            None => self.asked(RequestView::RefreshTokens).asked(
                RequestView::NoteStateTime,
            ).toasted(
                ToastKind::Warning,
                "all accounts spent; switched off to halt usage"@,
            ),
            Some(e) => self.toasted(ToastKind::Danger, "switch-off failed: "@ + e),
        }
    }

    /// A switch that the user confirmed runs unless something is in flight.
    #[verifier::opaque]
    pub open spec fn switch_probed(self, name: Seq<char>, gate: bool, idle: bool) -> AppView {
        if gate {
            self.toasted(
                ToastKind::Warning,
                "another switch is still in flight; try again in a moment"@,
            )
        } else if !idle {
            self.toasted(
                ToastKind::Warning,
                "'"@ + name + "' is already busy; try again in a moment"@,
            )
        } else {
            self.switch_begun(name)
        }
    }

    /// A switch that the scheduler wants runs unless something is in flight.
    #[verifier::opaque]
    pub open spec fn auto_switch_probed(self, name: Seq<char>, gate: bool, idle: bool) -> AppView {
        if gate || !idle {
            self
        } else {
            self.toasted(ToastKind::Warning, "auto-switching to '"@ + name + "'"@).tab_marked(
                Tab::Overview,
                ToastKind::Warning,
            ).switch_begun(name)
        }
    }

    #[verifier::opaque]
    pub open spec fn gate_answered(self, name: Seq<char>, gate: AuthGateView) -> AppView {
        let s = self.asked(RequestView::ClearActivity(name));
        match gate {
            AuthGateView::Ready => s.switch_finalized(name),
            AuthGateView::Refreshed => s.asked(RequestView::RefreshTokens).switch_finalized(name),
            AuthGateView::Broken => s.toasted(
                ToastKind::Danger,
                "login for '"@ + name + "' has expired — run: clauth login "@ + name,
            ),
            AuthGateView::Transient(e) => s.toasted(
                ToastKind::Danger,
                "could not refresh '"@ + name + "' before switching ("@ + (e
                    + "); try again in a moment"@),
            ),
        }
    }

    #[verifier::opaque]
    pub open spec fn divergence_prompted(self, active: Seq<char>, verb: Seq<char>) -> AppView {
        self.toasted(
            ToastKind::Warning,
            "'"@ + active + "' has unsaved "@ + (self.host.product
                + " credentials; resolve before "@ + verb),
        ).asked(RequestView::FindOwner(active))
    }

    /// The prompt about a live login; an account other than the active one that holds the
    /// login is offered.
    #[verifier::opaque]
    pub open spec fn divergence_opened(self, active: Seq<char>, owner: Option<Seq<char>>) -> AppView {
        self.with_modal(
            ModalView::Divergence(
                DivergenceFormView { active, sibling: sibling_of(owner, active), cursor: 0 },
            ),
        )
    }
}

/// Asks about a switch to the account at a place.
pub fn request_switch_to(app: &mut App, idx: usize)
    ensures
        final(app)@ == old(app)@.switch_requested(idx),
{
    reveal(AppView::switch_requested);
    if let Some(name) = app.profile_name_at(idx) {
        if !app.config.is_active(name.as_str()) {
            let message = text::joined3("Switch to '", name.as_str(), "'?");
            app.push_modal(
                Modal::Confirm(
                    ConfirmState {
                        message,
                        detail: None,
                        choice: true,
                        on_confirm: ConfirmAction::Switch(name),
                    },
                ),
            );
        }
    }
}

/// Enter on an entry of the account list.
pub fn activate_main_item(app: &mut App)
    ensures
        final(app)@ == old(app)@.switch_requested(old(app)@.ui.profile_cursor),
{
    match app.current_main_item() {
        Some(crate::state::MainItemKind::Profile(idx)) => request_switch_to(app, idx),
        None => {
            reveal(AppView::switch_requested);
        },
    }
}

/// Moves the account under the cursor.
pub fn reorder_main_cursor(app: &mut App, up: bool)
    ensures
        final(app)@ == old(app)@.reorder_wanted(up),
{
    reveal(AppView::reorder_wanted);
    let idx: usize = app.ui.profile_cursor;
    let n: usize = app.profile_count();
    if idx >= n {
        return;
    }
    if up {
        if idx > 0 {
            app.ask(Request::ReorderProfile { from: idx, to: idx - 1 });
        }
    } else if idx < n - 1 {
        app.ask(Request::ReorderProfile { from: idx, to: idx + 1 });
    }
}

/// Goes on after an account was moved or not.
pub fn finish_reorder(app: &mut App, from: usize, to: usize, failure: Option<String>)
    ensures
        final(app)@ == old(app)@.reordered(from, to, text::opt_view(failure)),
{
    reveal(AppView::reordered);
    match failure {
        Some(e) => {
            let body = text::joined("reorder failed: ", e.as_str());
            app.toast(ToastKind::Danger, body.as_str());
        },
        None => {
            let cur: usize = app.ui.profile_cursor;
            if to < from {
                let up: usize = if cur > 0 {
                    cur - 1
                } else {
                    0
                };
                let ui = Ui { profile_cursor: up, ..app.ui };
                app.set_ui(ui);
            } else if to > from && cur < usize::MAX {
                let ui = Ui { profile_cursor: cur + 1, ..app.ui };
                app.set_ui(ui);
            }
        },
    }
}

/// Switches to an account.
pub fn perform_switch(app: &mut App, name: &str)
    ensures
        final(app)@ == old(app)@.switch_begun(name@),
{
    reveal(AppView::switch_begun);
    let active = match &app.config.state.active_profile {
        Some(a) => text::same_text(a.as_str(), name),
        None => false,
    };
    if active {
        finalize_switch(app, name);
    } else {
        app.ask(Request::RunGate(name.to_string()));
    }
}

/// Ends a switch, looking at the outgoing account first.
pub fn finalize_switch(app: &mut App, name: &str)
    ensures
        final(app)@ == old(app)@.switch_finalized(name@),
{
    reveal(AppView::switch_finalized);
    let outgoing = text::clone_opt(&app.config.state.active_profile);
    match outgoing {
        Some(active) => {
            if text::same_text(active.as_str(), name) {
                app.ask(Request::SwitchProfile(name.to_string()));
            } else {
                app.ask(Request::GuardSwitch { active, name: name.to_string() });
            }
        },
        None => app.ask(Request::SwitchProfile(name.to_string())),
    }
}

/// Goes on with a switch once the outgoing account was looked at.
pub fn finish_guard(
    app: &mut App,
    active: &str,
    name: &str,
    state: Option<LinkState>,
    first_login: bool,
)
    ensures
        final(app)@ == old(app)@.switch_guarded(active@, name@, state, first_login),
{
    reveal(AppView::switch_guarded);
    if active_diverged_unsaved(state, first_login) {
        app.ask(Request::ClearActivity(name.to_string()));
        prompt_divergence(app, active, "switching");
    } else {
        app.ask(Request::SwitchProfile(name.to_string()));
    }
}

/// Goes on after a switch was made or not.
pub fn finish_switch(app: &mut App, name: &str, failure: Option<String>)
    ensures
        final(app)@ == old(app)@.switched(name@, text::opt_view(failure)),
{
    reveal(AppView::switched);
    app.ask(Request::ClearActivity(name.to_string()));
    match failure {
        None => {
            app.ask(Request::RefreshTokens);
            app.ask(Request::NoteStateTime);
            let body = text::joined3("switched to '", name, "'");
            app.toast(ToastKind::Success, body.as_str());
        },
        Some(e) => {
            let body = text::joined("switch failed: ", e.as_str());
            app.toast(ToastKind::Danger, body.as_str());
        },
    }
}

/// Switches every account off.
pub fn perform_switch_off(app: &mut App)
    ensures
        final(app)@ == old(app)@.switch_off_begun(),
{
    reveal(AppView::switch_off_begun);
    let active = text::clone_opt(&app.config.state.active_profile);
    if let Some(active) = active {
        app.ask(Request::GuardSwitchOff(active));
    }
}

/// Goes on with switching off once the active account was looked at.
pub fn finish_guard_off(
    app: &mut App,
    active: &str,
    state: Option<LinkState>,
    first_login: bool,
)
    ensures
        final(app)@ == old(app)@.switch_off_guarded(active@, state, first_login),
{
    reveal(AppView::switch_off_guarded);
    if active_diverged_unsaved(state, first_login) {
        prompt_divergence(app, active, "switching off");
    } else {
        app.ask(Request::SwitchOff);
    }
}

/// Goes on after everything was switched off or not.
pub fn finish_switch_off(app: &mut App, failure: Option<String>)
    ensures
        final(app)@ == old(app)@.switched_off(text::opt_view(failure)),
{
    reveal(AppView::switched_off);
    match failure {
        None => {
            app.ask(Request::RefreshTokens);
            app.ask(Request::NoteStateTime);
            app.toast(ToastKind::Warning, "all accounts spent; switched off to halt usage");
        },
        Some(e) => {
            let body = text::joined("switch-off failed: ", e.as_str());
            app.toast(ToastKind::Danger, body.as_str());
        },
    }
}

/// Goes on with a confirmed switch once it is known what is in flight.
pub fn finish_switch_probe(app: &mut App, name: &str, gate: bool, idle: bool)
    ensures
        final(app)@ == old(app)@.switch_probed(name@, gate, idle),
{
    reveal(AppView::switch_probed);
    if gate {
        app.toast(
            ToastKind::Warning,
            "another switch is still in flight; try again in a moment",
        );
    } else if !idle {
        let body = text::joined3("'", name, "' is already busy; try again in a moment");
        app.toast(ToastKind::Warning, body.as_str());
    } else {
        perform_switch(app, name);
    }
}

/// Goes on with a scheduled switch once it is known what is in flight.
pub fn finish_auto_switch_probe(app: &mut App, name: &str, gate: bool, idle: bool)
    ensures
        final(app)@ == old(app)@.auto_switch_probed(name@, gate, idle),
{
    reveal(AppView::auto_switch_probed);
    if gate || !idle {
        return;
    }
    let body = text::joined3("auto-switching to '", name, "'");
    app.toast(ToastKind::Warning, body.as_str());
    app.set_tab_activity(Tab::Overview, ToastKind::Warning);
    perform_switch(app, name);
}

/// Goes on with a switch once the account was checked.
pub fn on_switch_gate(app: &mut App, name: &str, gate: AuthGate)
    ensures
        final(app)@ == old(app)@.gate_answered(name@, gate@),
{
    reveal(AppView::gate_answered);
    app.ask(Request::ClearActivity(name.to_string()));
    match gate {
        AuthGate::Ready => finalize_switch(app, name),
        AuthGate::Refreshed => {
            app.ask(Request::RefreshTokens);
            finalize_switch(app, name);
        },
        AuthGate::Broken => {
            let head = text::joined3("login for '", name, "' has expired — run: clauth login ");
            let body = text::joined(head.as_str(), name);
            app.toast(ToastKind::Danger, body.as_str());
        },
        AuthGate::Transient(e) => {
            let head = text::joined3("could not refresh '", name, "' before switching (");
            let tail = text::joined(e.as_str(), "); try again in a moment");
            let body = text::joined(head.as_str(), tail.as_str());
            app.toast(ToastKind::Danger, body.as_str());
        },
    }
}

/// Says that a live login is in the way and asks whose it is.
pub fn prompt_divergence(app: &mut App, active: &str, verb: &str)
    ensures
        final(app)@ == old(app)@.divergence_prompted(active@, verb@),
{
    reveal(AppView::divergence_prompted);
    let head = text::joined3("'", active, "' has unsaved ");
    let tail = text::joined3(
        app.host.product.as_str(),
        " credentials; resolve before ",
        verb,
    );
    let body = text::joined(head.as_str(), tail.as_str());
    app.toast(ToastKind::Warning, body.as_str());
    app.ask(Request::FindOwner(active.to_string()));
}

/// Opens the prompt about a live login.
pub fn open_divergence_modal(app: &mut App, active: &str, owner: Option<String>)
    ensures
        final(app)@ == old(app)@.divergence_opened(active@, text::opt_view(owner)),
{
    reveal(AppView::divergence_opened);
    let sibling = sibling(owner, active);
    app.push_modal(
        Modal::Divergence(DivergenceForm { active: active.to_string(), sibling, cursor: 0 }),
    );
}

/// A switch never drops an unsaved login: the account is not switched, and what to do with
/// the login is asked.
pub proof fn unsaved_logins_block_switches(s: AppView, active: Seq<char>, name: Seq<char>)
    ensures
        ({
            let t = s.switch_guarded(active, name, Some(LinkState::Diverged), false);
            &&& t.requests == s.requests.push(RequestView::ClearActivity(name)).push(
                RequestView::FindOwner(active),
            )
            &&& t.toasts.len() > 0
        }),
        ({
            let t = s.switch_off_guarded(active, Some(LinkState::Diverged), false);
            t.requests == s.requests.push(RequestView::FindOwner(active))
        }),
{
    reveal(AppView::switch_guarded);
    reveal(AppView::switch_off_guarded);
    reveal(AppView::divergence_prompted);
    reveal(AppView::asked);
    reveal(AppView::toasted);
}

// ── capturing the live login ────────────────────────────────────────────────

impl AppView {
    #[verifier::opaque]
    pub open spec fn capture_failed(self, e: Seq<char>) -> AppView {
        self.toasted(ToastKind::Danger, "capture failed: "@ + e)
    }

    #[verifier::opaque]
    pub open spec fn nothing_captured(self) -> AppView {
        self.toasted(
            ToastKind::Danger,
            "no live login found; nothing to capture (macOS keychain isn't supported yet)"@,
        )
    }

    /// A captured login asks for its name; one that an account already holds is asked about.
    #[verifier::opaque]
    pub open spec fn capture_read(
        self,
        from_divergence: bool,
        slot: u64,
        found: CaptureFacts,
        owner: Option<Seq<char>>,
    ) -> AppView {
        if !found.usable() {
            self.nothing_captured()
        } else {
            match owner {
                Some(existing) => self.with_modal(
                    ModalView::Confirm(
                        ConfirmStateView {
                            message: "These credentials already belong to '"@ + existing + "'."@,
                            detail: Some("Capture anyway?"@),
                            choice: false,
                            on_confirm: ConfirmActionView::CaptureConflict(slot, from_divergence),
                        },
                    ),
                ),
                None => self.capture_named(slot, from_divergence),
            }
        }
    }

    #[verifier::opaque]
    pub open spec fn capture_named(self, slot: u64, from_divergence: bool) -> AppView {
        self.with_modal(
            ModalView::CaptureName(
                CaptureNameFormView { slot, input: InputView::of(""@), from_divergence },
            ),
        )
    }

    #[verifier::opaque]
    pub open spec fn owner_capture_read(
        self,
        owner: Seq<char>,
        slot: u64,
        found: CaptureFacts,
    ) -> AppView {
        if !found.usable() {
            self.nothing_captured()
        } else {
            self.with_modal(
                ModalView::Confirm(
                    ConfirmStateView {
                        message: "Switch to '"@ + owner + "' — the live login is its account?"@,
                        detail: Some(
                            "The login is saved into '"@ + owner + "' and '"@ + (owner
                                + "' becomes the active account. The running "@ + (
                            self.host.command + " is untouched."@)),
                        ),
                        choice: false,
                        on_confirm: ConfirmActionView::AdoptDivergence(slot, owner),
                    },
                ),
            )
        }
    }

    #[verifier::opaque]
    pub open spec fn target_capture_read(
        self,
        target: Seq<char>,
        slot: u64,
        found: CaptureFacts,
    ) -> AppView {
        if !found.usable() {
            self.nothing_captured()
        } else {
            self.with_modal(
                ModalView::Confirm(
                    ConfirmStateView {
                        message: "Save the live login into '"@ + target + "'?"@,
                        detail: Some(
                            "'"@ + target
                                + "' becomes the active account; its old credentials are replaced. Usage history, env, and model settings are kept."@,
                        ),
                        choice: false,
                        on_confirm: ConfirmActionView::AdoptDivergence(slot, target),
                    },
                ),
            )
        }
    }

    /// The active account given up, its link cut: only once a capture is confirmed.
    #[verifier::opaque]
    pub open spec fn detached(self) -> AppView {
        let s = self.asked(RequestView::DetachLink);
        AppView {
            config: AppConfigView {
                state: AppStateView { active_profile: None, ..s.config.state },
                ..s.config
            },
            ..s
        }.asked(RequestView::SaveState)
    }

    /// A change to a stored login that went through, said in `body`.
    #[verifier::opaque]
    pub open spec fn login_saved(self, body: Seq<char>) -> AppView {
        self.asked(RequestView::RefreshTokens).asked(RequestView::NoteStateTime).toasted(
            ToastKind::Success,
            body,
        )
    }
}

impl CaptureFacts {
    /// There is something to capture.
    pub open spec fn usable(self) -> bool {
        self.oauth || self.base_url || self.api_key
    }

    /// There is something to capture.
    pub fn is_usable(&self) -> (r: bool)
        ensures
            r == self.usable(),
    {
        self.oauth || self.base_url || self.api_key
    }
}

/// Says that a capture failed.
pub fn fail_capture(app: &mut App, e: &str)
    ensures
        final(app)@ == old(app)@.capture_failed(e@),
{
    reveal(AppView::capture_failed);
    let body = text::joined("capture failed: ", e);
    app.toast(ToastKind::Danger, body.as_str());
}

fn say_nothing_captured(app: &mut App)
    ensures
        final(app)@ == old(app)@.nothing_captured(),
{
    reveal(AppView::nothing_captured);
    app.toast(
        ToastKind::Danger,
        "no live login found; nothing to capture (macOS keychain isn't supported yet)",
    );
}

/// Captures the live login for a new account.
pub fn begin_capture(app: &mut App, from_divergence: bool)
    ensures
        final(app)@ == old(app)@.asked(RequestView::CaptureBegin(from_divergence)),
{
    app.ask(Request::CaptureBegin(from_divergence));
}

/// Asks for the name of a captured login.
pub fn ask_capture_name(app: &mut App, slot: u64, from_divergence: bool)
    ensures
        final(app)@ == old(app)@.capture_named(slot, from_divergence),
{
    reveal(AppView::capture_named);
    app.push_modal(
        Modal::CaptureName(CaptureNameForm { slot, input: InputState::new(""), from_divergence }),
    );
}

/// Goes on with a captured login.
pub fn finish_capture(
    app: &mut App,
    from_divergence: bool,
    slot: u64,
    found: CaptureFacts,
    owner: Option<String>,
)
    ensures
        final(app)@ == old(app)@.capture_read(
            from_divergence,
            slot,
            found,
            text::opt_view(owner),
        ),
{
    reveal(AppView::capture_read);
    if !found.is_usable() {
        say_nothing_captured(app);
        return;
    }
    match owner {
        Some(existing) => {
            let message = text::joined3(
                "These credentials already belong to '",
                existing.as_str(),
                "'.",
            );
            app.push_modal(
                Modal::Confirm(
                    ConfirmState {
                        message,
                        detail: Some("Capture anyway?".to_string()),
                        choice: false,
                        on_confirm: ConfirmAction::CaptureConflict(slot, from_divergence),
                    },
                ),
            );
        },
        None => ask_capture_name(app, slot, from_divergence),
    }
}

/// Goes on with a login captured for the account that owns it.
pub fn finish_owner_capture(app: &mut App, owner: String, slot: u64, found: CaptureFacts)
    ensures
        final(app)@ == old(app)@.owner_capture_read(owner@, slot, found),
{
    reveal(AppView::owner_capture_read);
    if !found.is_usable() {
        say_nothing_captured(app);
        return;
    }
    let message = text::joined3(
        "Switch to '",
        owner.as_str(),
        "' — the live login is its account?",
    );
    let head = text::joined3("The login is saved into '", owner.as_str(), "' and '");
    let end = text::joined(app.host.command.as_str(), " is untouched.");
    let tail = text::joined3(
        owner.as_str(),
        "' becomes the active account. The running ",
        end.as_str(),
    );
    let detail = text::joined(head.as_str(), tail.as_str());
    app.push_modal(
        Modal::Confirm(
            ConfirmState {
                message,
                detail: Some(detail),
                choice: false,
                on_confirm: ConfirmAction::AdoptDivergence(slot, owner),
            },
        ),
    );
}

/// Goes on with a login captured for a chosen account.
pub fn finish_target_capture(app: &mut App, target: String, slot: u64, found: CaptureFacts)
    ensures
        final(app)@ == old(app)@.target_capture_read(target@, slot, found),
{
    reveal(AppView::target_capture_read);
    if !found.is_usable() {
        say_nothing_captured(app);
        return;
    }
    let message = text::joined3("Save the live login into '", target.as_str(), "'?");
    let detail = text::joined3(
        "'",
        target.as_str(),
        "' becomes the active account; its old credentials are replaced. Usage history, env, and model settings are kept.",
    );
    app.push_modal(
        Modal::Confirm(
            ConfirmState {
                message,
                detail: Some(detail),
                choice: false,
                on_confirm: ConfirmAction::AdoptDivergence(slot, target),
            },
        ),
    );
}

/// Gives the active account up.
pub fn detach_active(app: &mut App)
    ensures
        final(app)@ == old(app)@.detached(),
{
    reveal(AppView::detached);
    app.ask(Request::DetachLink);
    app.config.state.active_profile = None;
    app.ask(Request::SaveState);
}

/// Says that a change to a stored login went through.
pub fn say_login_saved(app: &mut App, body: &str)
    ensures
        final(app)@ == old(app)@.login_saved(body@),
{
    reveal(AppView::login_saved);
    app.ask(Request::RefreshTokens);
    app.ask(Request::NoteStateTime);
    app.toast(ToastKind::Success, body);
}

/// Goes on after a capture was stored or not.
pub fn finish_capture_into(app: &mut App, name: &str, failure: Option<String>)
    ensures
        final(app)@ == (match failure {
            None => old(app)@.login_saved("captured '"@ + name@ + "'"@),
            Some(e) => old(app)@.capture_failed(e@),
        }),
{
    match failure {
        None => {
            let body = text::joined3("captured '", name, "'");
            say_login_saved(app, body.as_str());
        },
        Some(e) => fail_capture(app, e.as_str()),
    }
}

/// Goes on after an account's login was overwritten or not.
pub fn finish_overwrite(app: &mut App, name: &str, failure: Option<String>)
    ensures
        final(app)@ == (match failure {
            None => old(app)@.login_saved("overwrote '"@ + name@ + "' with the captured login"@),
            Some(e) => old(app)@.toasted(ToastKind::Danger, "overwrite failed: "@ + e@),
        }),
{
    match failure {
        None => {
            let body = text::joined3("overwrote '", name, "' with the captured login");
            say_login_saved(app, body.as_str());
        },
        Some(e) => {
            let body = text::joined("overwrite failed: ", e.as_str());
            app.toast(ToastKind::Danger, body.as_str());
        },
    }
}

/// Goes on after a browser login was stored or not.
pub fn finish_login_into(app: &mut App, name: &str, failure: Option<String>)
    ensures
        final(app)@ == (match failure {
            None => old(app)@.login_saved("logged in '"@ + name@ + "'"@),
            Some(e) => old(app)@.toasted(ToastKind::Danger, "login failed: "@ + e@),
        }),
{
    match failure {
        None => {
            let body = text::joined3("logged in '", name, "'");
            say_login_saved(app, body.as_str());
        },
        Some(e) => {
            let body = text::joined("login failed: ", e.as_str());
            app.toast(ToastKind::Danger, body.as_str());
        },
    }
}

impl AppView {
    /// An account made the active one.
    #[verifier::opaque]
    pub open spec fn activated(self, name: Seq<char>) -> AppView {
        AppView {
            config: AppConfigView {
                state: AppStateView { active_profile: Some(name), ..self.config.state },
                ..self.config
            },
            ..self
        }
    }

    /// The first step of adopting the live login: once the account holds it, the account is the
    /// active one, and the settings are to be stored.
    #[verifier::opaque]
    pub open spec fn adoption_stored(self, name: Seq<char>, failure: Option<Seq<char>>) -> AppView {
        match failure {
            None => self.activated(name).asked(RequestView::SaveAdopted(name)),
            Some(e) => self.toasted(ToastKind::Danger, "save failed: "@ + e),
        }
    }

    /// The second step: once the settings are stored, the live login is to be linked.
    #[verifier::opaque]
    pub open spec fn adoption_saved(self, name: Seq<char>, failure: Option<Seq<char>>) -> AppView {
        match failure {
            None => self.asked(RequestView::LinkAdopted(name)),
            Some(e) => self.toasted(ToastKind::Danger, "save failed: "@ + e),
        }
    }

    /// The last step: the login is linked.
    #[verifier::opaque]
    pub open spec fn adoption_linked(self, name: Seq<char>, failure: Option<Seq<char>>) -> AppView {
        match failure {
            None => self.login_saved("saved the login into '"@ + name + "', now active"@),
            Some(e) => self.toasted(ToastKind::Danger, "save failed: "@ + e),
        }
    }
}

fn say_save_failed(app: &mut App, e: &str)
    ensures
        final(app)@ == old(app)@.toasted(ToastKind::Danger, "save failed: "@ + e@),
{
    let body = text::joined("save failed: ", e);
    app.toast(ToastKind::Danger, body.as_str());
}

/// Goes on after an account took the live login or not.
pub fn finish_adopt_store(app: &mut App, name: &str, failure: Option<String>)
    ensures
        final(app)@ == old(app)@.adoption_stored(name@, text::opt_view(failure)),
{
    reveal(AppView::adoption_stored);
    reveal(AppView::activated);
    match failure {
        None => {
            app.config.state.active_profile = Some(name.to_string());
            assert(app@ =~= old(app)@.activated(name@));
            app.ask(Request::SaveAdopted(name.to_string()));
        },
        Some(e) => say_save_failed(app, e.as_str()),
    }
}

/// Goes on after the settings of an adoption were stored or not.
pub fn finish_adopt_save(app: &mut App, name: &str, failure: Option<String>)
    ensures
        final(app)@ == old(app)@.adoption_saved(name@, text::opt_view(failure)),
{
    reveal(AppView::adoption_saved);
    match failure {
        None => app.ask(Request::LinkAdopted(name.to_string())),
        Some(e) => say_save_failed(app, e.as_str()),
    }
}

/// Goes on after an adopted login was linked or not.
pub fn finish_adopt_link(app: &mut App, name: &str, failure: Option<String>)
    ensures
        final(app)@ == old(app)@.adoption_linked(name@, text::opt_view(failure)),
{
    reveal(AppView::adoption_linked);
    match failure {
        None => {
            let body = text::joined3("saved the login into '", name, "', now active");
            say_login_saved(app, body.as_str());
        },
        Some(e) => say_save_failed(app, e.as_str()),
    }
}

/// An adoption goes step by step and stops at the first that fails: the account is active once it
/// holds the login and not before, and it stays active where storing the settings or linking
/// fails. A step that fails asks for nothing more.
pub proof fn adoptions_stop_at_the_first_failure(s: AppView, name: Seq<char>, e: Seq<char>)
    ensures
        s.adoption_stored(name, Some(e)).config == s.config,
        s.adoption_stored(name, Some(e)).requests == s.requests,
        s.adoption_stored(name, None).config.state.active_profile == Some(name),
        s.adoption_stored(name, None).requests == s.requests.push(RequestView::SaveAdopted(name)),
        s.adoption_saved(name, Some(e)).config == s.config,
        s.adoption_saved(name, Some(e)).requests == s.requests,
        s.adoption_saved(name, None).config == s.config,
        s.adoption_saved(name, None).requests == s.requests.push(RequestView::LinkAdopted(name)),
        s.adoption_linked(name, Some(e)).config == s.config,
        s.adoption_linked(name, Some(e)).requests == s.requests,
        s.adoption_linked(name, None).config == s.config,
{
    reveal(AppView::adoption_stored);
    reveal(AppView::adoption_saved);
    reveal(AppView::adoption_linked);
    reveal(AppView::activated);
    reveal(AppView::login_saved);
    reveal(AppView::asked);
    reveal(AppView::toasted);
}

// ── divergence ──────────────────────────────────────────────────────────────

/// The names of the accounts other than the active one, of the first `n`.
pub open spec fn inactive_names(c: AppConfigView, n: nat) -> Seq<Seq<char>>
    decreases n,
{
    if n == 0 {
        Seq::empty()
    } else {
        let rest = inactive_names(c, (n - 1) as nat);
        if c.is_active(c.profiles[n - 1].name) {
            rest
        } else {
            rest.push(c.profiles[n - 1].name)
        }
    }
}

impl AppConfigView {
    /// The accounts a live login may be saved into.
    pub open spec fn divergence_targets(self) -> Seq<Seq<char>> {
        inactive_names(self, self.profiles.len())
    }
}

impl AppView {
    #[verifier::opaque]
    pub open spec fn divergence_chosen(self, active: Seq<char>, choice: DivergenceChoice) -> AppView {
        match choice {
            DivergenceChoice::Overwrite => self.asked(RequestView::SnapshotActive(active)),
            DivergenceChoice::NewProfile => self.targets_wanted(),
            DivergenceChoice::Discard => self.with_modal(
                ModalView::Confirm(
                    ConfirmStateView {
                        message: "Discard the new login and restore '"@ + active + "'?"@,
                        detail: Some(
                            self.host.product
                                + "'s freshly written credentials will be overwritten with the profile's stored tokens."@,
                        ),
                        choice: false,
                        on_confirm: ConfirmActionView::DiscardDivergence(active),
                    },
                ),
            ),
        }
    }

    #[verifier::opaque]
    pub open spec fn active_snapshot(self, active: Seq<char>, failure: Option<Seq<char>>) -> AppView {
        match failure {
            Some(e) => self.toasted(ToastKind::Danger, "overwrite failed: "@ + e),
            None => self.asked(RequestView::LinkOverwritten(active)),
        }
    }

    #[verifier::opaque]
    pub open spec fn overwrite_linked(self, active: Seq<char>, failure: Option<Seq<char>>) -> AppView {
        match failure {
            Some(e) => self.toasted(ToastKind::Danger, "relink failed: "@ + e),
            None => self.asked(RequestView::RefreshTokens).toasted(
                ToastKind::Success,
                "saved live credentials into '"@ + active + "'"@,
            ),
        }
    }

    #[verifier::opaque]
    pub open spec fn discard_linked(self, active: Seq<char>, failure: Option<Seq<char>>) -> AppView {
        match failure {
            Some(e) => self.toasted(ToastKind::Danger, "discard failed: "@ + e),
            None => self.toasted(
                ToastKind::Warning,
                "discarded new login; restored '"@ + active + "'"@,
            ),
        }
    }

    /// Saving a live login elsewhere: with no other account it becomes a new one.
    #[verifier::opaque]
    pub open spec fn targets_wanted(self) -> AppView {
        if self.config.divergence_targets().len() == 0 {
            self.asked(RequestView::CaptureBegin(true))
        } else {
            self.asked(RequestView::MatchLive)
        }
    }

    /// The picker of accounts; the one that holds the login is preselected.
    #[verifier::opaque]
    pub open spec fn targets_listed(self, holder: Option<Seq<char>>) -> AppView {
        let targets = self.config.divergence_targets();
        self.with_modal(
            ModalView::DivergenceTarget(
                DivergenceTargetFormView {
                    targets,
                    cursor: match holder {
                        Some(h) => match text::position(targets, h) {
                            Some(i) => (i + 1) as usize,
                            None => 0,
                        },
                        None => 0,
                    },
                },
            ),
        )
    }

    #[verifier::opaque]
    pub open spec fn noticing(self, n: Option<DivergenceNoticeView>) -> AppView {
        AppView { divergence_pending: n, ..self }
    }

    /// A live login that does not match: one that was looked at before is not looked at
    /// again.
    #[verifier::opaque]
    pub open spec fn fingerprint_read(self, active: Seq<char>, fingerprint: Option<u64>) -> AppView {
        match self.divergence_pending {
            Some(n) if n.active == active && n.fingerprint == fingerprint => {
                self.divergence_settled(active, n.sibling)
            },
            _ => self.asked(RequestView::NoteOwner { active, fingerprint }),
        }
    }

    #[verifier::opaque]
    pub open spec fn owner_noted(
        self,
        active: Seq<char>,
        fingerprint: Option<u64>,
        owner: Option<Seq<char>>,
    ) -> AppView {
        let sibling = sibling_of(owner, active);
        self.noticing(Some(DivergenceNoticeView { active, sibling, fingerprint })).divergence_settled(
            active,
            sibling,
        )
    }

    /// The configured choice resolves a login that no other account owns; one that another
    /// owns is left to the banner.
    #[verifier::opaque]
    pub open spec fn divergence_settled(
        self,
        active: Seq<char>,
        sibling: Option<Seq<char>>,
    ) -> AppView {
        if sibling is Some {
            self
        } else {
            match self.config.state.default_divergence {
                Some(choice) => self.noticing(None).divergence_chosen(active, choice),
                None => self,
            }
        }
    }

    /// The look at the live login, at most once a second and not under a dialog.
    #[verifier::opaque]
    pub open spec fn divergence_polled(self) -> AppView {
        if text::monus(self.ui.now_ms as int, self.ui.last_divergence_check as int) < POLL_INTERVAL {
            self
        } else {
            let s = self.on(Ui { last_divergence_check: self.ui.now_ms, ..self.ui });
            if self.modals.len() > 0 {
                s
            } else {
                match self.config.state.active_profile {
                    None => s.noticing(None),
                    Some(active) => s.asked(RequestView::ReadLink(active)),
                }
            }
        }
    }

    #[verifier::opaque]
    pub open spec fn link_read(
        self,
        active: Seq<char>,
        state: Option<LinkState>,
        first_login: bool,
    ) -> AppView {
        if state != Some(LinkState::Diverged) {
            self.noticing(None)
        } else if first_login {
            self.asked(RequestView::AdoptFirstLogin(active))
        } else {
            self.asked(RequestView::ReadFingerprint(active))
        }
    }
}

/// Shortest time between two looks, in milliseconds.
pub const POLL_INTERVAL: u64 = 1000;

/// Runs a choice about a live login.
pub fn run_divergence_choice(app: &mut App, active: &str, choice: DivergenceChoice)
    ensures
        final(app)@ == old(app)@.divergence_chosen(active@, choice),
{
    reveal(AppView::divergence_chosen);
    match choice {
        DivergenceChoice::Overwrite => app.ask(Request::SnapshotActive(active.to_string())),
        DivergenceChoice::NewProfile => open_divergence_target_picker(app),
        DivergenceChoice::Discard => {
            let message = text::joined3("Discard the new login and restore '", active, "'?");
            let detail = text::joined(
                app.host.product.as_str(),
                "'s freshly written credentials will be overwritten with the profile's stored tokens.",
            );
            app.push_modal(
                Modal::Confirm(
                    ConfirmState {
                        message,
                        detail: Some(detail),
                        choice: false,
                        on_confirm: ConfirmAction::DiscardDivergence(active.to_string()),
                    },
                ),
            );
        },
    }
}

/// Goes on after the live login was stored with the active account or not.
pub fn finish_snapshot(app: &mut App, active: &str, failure: Option<String>)
    ensures
        final(app)@ == old(app)@.active_snapshot(active@, text::opt_view(failure)),
{
    reveal(AppView::active_snapshot);
    match failure {
        Some(e) => {
            let body = text::joined("overwrite failed: ", e.as_str());
            app.toast(ToastKind::Danger, body.as_str());
        },
        None => app.ask(Request::LinkOverwritten(active.to_string())),
    }
}

/// Goes on after the active account was linked again or not.
pub fn finish_overwrite_link(app: &mut App, active: &str, failure: Option<String>)
    ensures
        final(app)@ == old(app)@.overwrite_linked(active@, text::opt_view(failure)),
{
    reveal(AppView::overwrite_linked);
    match failure {
        Some(e) => {
            let body = text::joined("relink failed: ", e.as_str());
            app.toast(ToastKind::Danger, body.as_str());
        },
        None => {
            app.ask(Request::RefreshTokens);
            let body = text::joined3("saved live credentials into '", active, "'");
            app.toast(ToastKind::Success, body.as_str());
        },
    }
}

/// Drops the live login for what is stored.
pub fn run_discard_divergence(app: &mut App, active: &str)
    ensures
        final(app)@ == old(app)@.asked(RequestView::LinkDiscarded(active@)),
{
    app.ask(Request::LinkDiscarded(active.to_string()));
}

/// Goes on after the live login was dropped or not.
pub fn finish_discard(app: &mut App, active: &str, failure: Option<String>)
    ensures
        final(app)@ == old(app)@.discard_linked(active@, text::opt_view(failure)),
{
    reveal(AppView::discard_linked);
    match failure {
        Some(e) => {
            let body = text::joined("discard failed: ", e.as_str());
            app.toast(ToastKind::Danger, body.as_str());
        },
        None => {
            let body = text::joined3("discarded new login; restored '", active, "'");
            app.toast(ToastKind::Warning, body.as_str());
        },
    }
}

/// The accounts a live login may be saved into.
pub fn divergence_targets(cfg: &AppConfig) -> (r: Vec<String>)
    ensures
        text::views(r@) == cfg@.divergence_targets(),
{
    broadcast use text::lemma_views_push;

    let mut out: Vec<String> = Vec::new();
    let mut i: usize = 0;
    assert(text::views(out@) =~= Seq::<Seq<char>>::empty());
    assert(cfg@.profiles.len() == cfg.profiles@.len());
    while i < cfg.profiles.len()
        invariant
            i <= cfg.profiles@.len(),
            text::views(out@) == inactive_names(cfg@, i as nat),
        decreases cfg.profiles@.len() - i,
    {
        assert(cfg@.profiles[i as int] == cfg.profiles@[i as int]@);
        if !cfg.is_active(cfg.profiles[i].name.as_str()) {
            out.push(cfg.profiles[i].name.clone());
        }
        i = i + 1;
    }
    out
}

/// Opens the picker of accounts a live login may be saved into.
pub fn open_divergence_target_picker(app: &mut App)
    ensures
        final(app)@ == old(app)@.targets_wanted(),
{
    reveal(AppView::targets_wanted);
    let targets = divergence_targets(&app.config);
    assert(text::views(targets@).len() == targets@.len());
    if targets.len() == 0 {
        begin_capture(app, true);
    } else {
        app.ask(Request::MatchLive);
    }
}

/// Goes on once it is known which account holds the live login.
pub fn finish_target_picker(app: &mut App, holder: Option<String>)
    requires
        old(app)@.config.profiles.len() < usize::MAX,
    ensures
        final(app)@ == old(app)@.targets_listed(text::opt_view(holder)),
{
    reveal(AppView::targets_listed);
    let targets = divergence_targets(&app.config);
    proof {
        lemma_inactive_names_len(app@.config, app@.config.profiles.len());
        assert(text::views(targets@).len() == targets@.len());
    }
    let cursor: usize = match &holder {
        Some(h) => {
            proof {
                text::lemma_position(text::views(targets@), h@);
            }
            match text::position_of(&targets, h.as_str()) {
                Some(i) => i + 1,
                None => 0,
            }
        },
        None => 0,
    };
    app.push_modal(Modal::DivergenceTarget(DivergenceTargetForm { targets, cursor }));
}

proof fn lemma_inactive_names_len(c: AppConfigView, n: nat)
    ensures
        inactive_names(c, n).len() <= n,
    decreases n,
{
    if n > 0 {
        lemma_inactive_names_len(c, (n - 1) as nat);
    }
}

fn set_notice(app: &mut App, n: Option<DivergenceNotice>)
    ensures
        final(app)@ == old(app)@.noticing(forms::opt_divergence_notice(n)),
{
    reveal(AppView::noticing);
    app.divergence_pending = n;
}

/// Resolves a live login by the configured choice, or leaves it to the banner.
pub fn resolve_or_note_divergence(app: &mut App, active: &str)
    ensures
        final(app)@ == old(app)@.asked(RequestView::ReadFingerprint(active@)),
{
    app.ask(Request::ReadFingerprint(active.to_string()));
}

fn settle_divergence(app: &mut App, active: &str, sibling_owned: bool)
    ensures
        final(app)@ == old(app)@.divergence_settled(
            active@,
            if sibling_owned {
                Some(Seq::<char>::empty())
            } else {
                None
            },
        ),
{
    reveal(AppView::divergence_settled);
    if sibling_owned {
        return;
    }
    if let Some(choice) = app.config.state.default_divergence {
        set_notice(app, None);
        run_divergence_choice(app, active, choice);
    }
}

/// Goes on once the live login's fingerprint is known.
pub fn note_divergence(app: &mut App, active: &str, fingerprint: Option<u64>)
    ensures
        final(app)@ == old(app)@.fingerprint_read(active@, fingerprint),
{
    reveal(AppView::fingerprint_read);
    let known: Option<bool> = match &app.divergence_pending {
        Some(n) => {
            if text::same_text(n.active.as_str(), active) && n.fingerprint == fingerprint {
                Some(n.sibling.is_some())
            } else {
                None
            }
        },
        None => None,
    };
    match known {
        Some(owned) => {
            reveal(AppView::divergence_settled);
            settle_divergence(app, active, owned);
        },
        None => app.ask(Request::NoteOwner { active: active.to_string(), fingerprint }),
    }
}

/// Goes on once it is known whose the live login is.
pub fn finish_note_owner(
    app: &mut App,
    active: &str,
    fingerprint: Option<u64>,
    owner: Option<String>,
)
    ensures
        final(app)@ == old(app)@.owner_noted(active@, fingerprint, text::opt_view(owner)),
{
    reveal(AppView::owner_noted);
    reveal(AppView::divergence_settled);
    let sibling = sibling(owner, active);
    let owned = sibling.is_some();
    set_notice(app, Some(DivergenceNotice { active: active.to_string(), sibling, fingerprint }));
    settle_divergence(app, active, owned);
}

/// Looks at the live login, at most once a second.
pub fn poll_credentials_divergence(app: &mut App)
    ensures
        final(app)@ == old(app)@.divergence_polled(),
{
    reveal(AppView::divergence_polled);
    let now: u64 = app.ui.now_ms;
    let elapsed: u64 = if now >= app.ui.last_divergence_check {
        now - app.ui.last_divergence_check
    } else {
        0
    };
    if elapsed < POLL_INTERVAL {
        return;
    }
    assert(forms::modal_views(app.modals@).len() == app.modals@.len());
    let blocked = app.modals.len() > 0;
    let active = text::clone_opt(&app.config.state.active_profile);
    let ui = Ui { last_divergence_check: now, ..app.ui };
    app.set_ui(ui);
    if blocked {
        return;
    }
    match active {
        None => set_notice(app, None),
        Some(active) => app.ask(Request::ReadLink(active)),
    }
}

/// Goes on once the state of the credential link is known.
pub fn finish_link_read(
    app: &mut App,
    active: &str,
    state: Option<LinkState>,
    first_login: bool,
)
    ensures
        final(app)@ == old(app)@.link_read(active@, state, first_login),
{
    reveal(AppView::link_read);
    let diverged = match state {
        Some(LinkState::Diverged) => true,
        _ => false,
    };
    if !diverged {
        set_notice(app, None);
    } else if first_login {
        app.ask(Request::AdoptFirstLogin(active.to_string()));
    } else {
        resolve_or_note_divergence(app, active);
    }
}

/// Goes on after a first login was stored or not.
pub fn finish_first_login(app: &mut App, active: &str, failure: Option<String>)
    ensures
        final(app)@ == (match failure {
            None => old(app)@.login_saved("saved login into '"@ + active@ + "'"@),
            Some(e) => old(app)@.toasted(ToastKind::Danger, "adopt failed: "@ + e@),
        }),
{
    match failure {
        None => {
            let body = text::joined3("saved login into '", active, "'");
            say_login_saved(app, body.as_str());
        },
        Some(e) => {
            let body = text::joined("adopt failed: ", e.as_str());
            app.toast(ToastKind::Danger, body.as_str());
        },
    }
}

/// A login that another account owns is never resolved by the configured choice: it is only
/// noted.
pub proof fn sibling_logins_are_only_noted(
    s: AppView,
    active: Seq<char>,
    fingerprint: Option<u64>,
    owner: Seq<char>,
)
    requires
        owner != active,
    ensures
        s.owner_noted(active, fingerprint, Some(owner)) == (AppView {
            divergence_pending: Some(
                DivergenceNoticeView { active, sibling: Some(owner), fingerprint },
            ),
            ..s
        }),
{
    reveal(AppView::owner_noted);
    reveal(AppView::noticing);
    reveal(AppView::divergence_settled);
}

/// The looks at the live login open no dialog by themselves: where no choice is configured, the
/// dialogs stay as they are.
pub proof fn looks_open_no_dialog(
    s: AppView,
    active: Seq<char>,
    state: Option<LinkState>,
    first_login: bool,
    fingerprint: Option<u64>,
    owner: Option<Seq<char>>,
)
    requires
        s.config.state.default_divergence is None,
    ensures
        s.divergence_polled().modals == s.modals,
        s.link_read(active, state, first_login).modals == s.modals,
        s.fingerprint_read(active, fingerprint).modals == s.modals,
        s.owner_noted(active, fingerprint, owner).modals == s.modals,
{
    reveal(AppView::divergence_polled);
    reveal(AppView::link_read);
    reveal(AppView::fingerprint_read);
    reveal(AppView::owner_noted);
    reveal(AppView::divergence_settled);
    reveal(AppView::noticing);
    reveal(AppView::asked);
    reveal(AppView::on);
}

/// At one moment the live login is looked at once: a second look asks for nothing more.
pub proof fn looks_are_paced(s: AppView)
    ensures
        s.divergence_polled().divergence_polled() == s.divergence_polled(),
{
    reveal(AppView::divergence_polled);
    reveal(AppView::noticing);
    reveal(AppView::asked);
    reveal(AppView::on);
}

/// The fingerprint of an access token: none where there is no token.
pub open spec fn token_fingerprint(token: Option<Seq<char>>) -> Option<u64> {
    match token {
        Some(t) if t.len() > 0 => Some(
            DefaultHasher::spec_finish(
                seq![vstd::utf8::encode_utf8(t), seq![0xffu8]],
            ),
        ),
        _ => None,
    }
}

/// The fingerprint of the live access token.
pub fn live_creds_fingerprint(token: Option<&str>) -> (r: Option<u64>)
    ensures
        r == token_fingerprint(
            match token {
                Some(t) => Some(t@),
                None => None,
            },
        ),
{
    match token {
        Some(t) => {
            if t.unicode_len() == 0 {
                return None;
            }
            let mut hasher = DefaultHasher::new();
            hasher.write(t.as_bytes());
            let end: [u8; 1] = [0xff];
            hasher.write(end.as_slice());
            assert(end@ =~= seq![0xffu8]);
            assert(hasher@ =~= seq![vstd::utf8::encode_utf8(t@), seq![0xffu8]]);
            Some(hasher.finish())
        },
        None => None,
    }
}

} // verus!
