//! Dialogs: which key does what in them, and what their choices set off.

use vstd::prelude::*;

use crate::chain;
use crate::forms;
use crate::forms::{
    CaptureNameForm, CaptureNameFormView, ConfirmAction, ConfirmActionView, ConfirmState,
    ConfirmStateView, DivergenceAction, DivergenceActionView, DivergenceForm, DivergenceFormView,
    DivergenceTargetForm, DivergenceTargetFormView, EnvCollisionForm, EnvCollisionFormView,
    FallbackRow, Modal, ModalView, ToastKind,
};
use crate::host::HostView;
use crate::key::{Key, KeyCode};
use crate::menu;
use crate::menu::{ActionItemView, ActionMenuAction, ActionMenuState, ActionMenuStateView};
use crate::nav;
use crate::requests::{Request, RequestView};
use crate::session;
use crate::settings;
use crate::setup;
use crate::state::{App, AppView};
use crate::tabs::{TokenFilter, TokenPeriod};
use crate::text;

verus! {

// ── confirmations ───────────────────────────────────────────────────────────

impl AppView {
    /// Overwriting an account with a captured login; one that came out of a mismatch gives
    /// the active account up first.
    #[verifier::opaque]
    pub open spec fn overwrite_confirmed(
        self,
        slot: u64,
        name: Seq<char>,
        from_divergence: bool,
    ) -> AppView {
        let s = if from_divergence {
            self.detached()
        } else {
            self
        };
        s.asked(RequestView::OverwriteWith { name, slot })
    }

    /// Rotating every token, unless something is still in flight.
    #[verifier::opaque]
    pub open spec fn rotation_confirmed(self) -> AppView {
        if self.ui.startup.bootstrap_active {
            self.rotation_refused()
        } else {
            self.asked(RequestView::ProbeBusy)
        }
    }

    #[verifier::opaque]
    pub open spec fn rotation_refused(self) -> AppView {
        self.toasted(
            ToastKind::Warning,
            "rotate-all skipped; another op is still in flight"@,
        )
    }

    #[verifier::opaque]
    pub open spec fn rotation_probed(self, busy: bool) -> AppView {
        if busy {
            self.rotation_refused()
        } else {
            self.asked(RequestView::RotateAll).toasted(
                ToastKind::Info,
                "rotating all tokens"@,
            )
        }
    }

    /// Rotating one token, unless a running session manages it.
    #[verifier::opaque]
    pub open spec fn single_rotation_probed(self, name: Seq<char>, live: bool) -> AppView {
        if live {
            self.toasted(
                ToastKind::Warning,
                "'"@ + name + "' is in use by a running session; its tokens are managed there"@,
            )
        } else {
            self.asked(RequestView::RotateOne(name)).toasted(
                ToastKind::Info,
                "rotating '"@ + name + "'"@,
            )
        }
    }

    #[verifier::opaque]
    pub open spec fn mcp_wired(self, failure: Option<Seq<char>>) -> AppView {
        match failure {
            None => self.toasted(
                ToastKind::Success,
                "wired clauth into "@ + self.host.config_file(),
            ).plugin_probe_wanted(false),
            Some(e) => self.toasted(ToastKind::Danger, "wire failed: "@ + e),
        }
    }

    #[verifier::opaque]
    pub open spec fn relinked(self, name: Seq<char>, failure: Option<Seq<char>>) -> AppView {
        match failure {
            None => self.asked(RequestView::RefreshTokens).toasted(
                ToastKind::Success,
                "relinked credentials to '"@ + name + "'"@,
            ).plugin_probe_wanted(false),
            Some(e) => self.toasted(ToastKind::Danger, "relink failed: "@ + e),
        }
    }

    /// Logging out drops what the account logs in with: its token pair, or its key.
    #[verifier::opaque]
    pub open spec fn logout_confirmed(self, name: Seq<char>) -> AppView {
        match self.config.find(name) {
            Some(p) if !p.facts.login_is_oauth => self.asked(RequestView::ClearApiKey(name)),
            _ => self.asked(RequestView::ClearCredentials(name)),
        }
    }

    #[verifier::opaque]
    pub open spec fn logged_out(self, name: Seq<char>, failure: Option<Seq<char>>) -> AppView {
        match failure {
            None => self.login_saved("logged out of '"@ + name + "'"@),
            Some(e) => self.toasted(ToastKind::Danger, "log out failed: "@ + e),
        }
    }

    /// What a confirmed dialog sets off.
    #[verifier::opaque]
    pub open spec fn confirm_run(self, action: ConfirmActionView) -> AppView {
        match action {
            ConfirmActionView::CaptureConflict(slot, from_divergence) => self.capture_named(
                slot,
                from_divergence,
            ),
            ConfirmActionView::CaptureOverwrite(slot, name, from_divergence) => {
                self.overwrite_confirmed(slot, name, from_divergence)
            },
            ConfirmActionView::AdoptDivergence(slot, name) => self.asked(
                RequestView::AdoptInto { name, slot },
            ),
            ConfirmActionView::Switch(name) => self.asked(RequestView::ProbeSwitch(name)),
            ConfirmActionView::DiscardDivergence(name) => self.asked(
                RequestView::LinkDiscarded(name),
            ),
            ConfirmActionView::RotateAll => self.rotation_confirmed(),
            ConfirmActionView::RotateOne(name) => self.asked(RequestView::ProbeRotate(name)),
            ConfirmActionView::WireMcpServers => self.asked(RequestView::WireMcp),
            ConfirmActionView::RelinkCredentials(name) => self.asked(
                RequestView::LinkRepaired(name),
            ),
            ConfirmActionView::BlankCredentials(name) => self.logout_confirmed(name),
            ConfirmActionView::RestartLogin(name, is_new) => self.login_started(name, is_new),
            ConfirmActionView::DeleteLiveSession(name) => self.asked(
                RequestView::DeleteProfile { name, force: true },
            ),
        }
    }

    /// A key in a yes/no dialog that was on top.
    #[verifier::opaque]
    pub open spec fn confirm_keyed(self, st: ConfirmStateView, key: Key) -> AppView {
        match key.code {
            KeyCode::Left | KeyCode::Right | KeyCode::Tab => self.with_modal(
                ModalView::Confirm(ConfirmStateView { choice: !st.choice, ..st }),
            ),
            KeyCode::Esc => self,
            KeyCode::Enter => self.confirm_answered(st),
            KeyCode::Char(c) => if c == 'y' {
                self.with_modal(ModalView::Confirm(ConfirmStateView { choice: true, ..st }))
            } else if c == 'n' {
                self.with_modal(ModalView::Confirm(ConfirmStateView { choice: false, ..st }))
            } else if c == 'q' {
                self
            } else if c == ' ' {
                self.confirm_answered(st)
            } else {
                self.with_modal(ModalView::Confirm(st))
            },
            _ => self.with_modal(ModalView::Confirm(st)),
        }
    }

    #[verifier::opaque]
    pub open spec fn confirm_answered(self, st: ConfirmStateView) -> AppView {
        if st.choice {
            self.confirm_run(st.on_confirm)
        } else {
            self
        }
    }
}

fn confirm_overwrite(app: &mut App, slot: u64, name: String, from_divergence: bool)
    ensures
        final(app)@ == old(app)@.overwrite_confirmed(slot, name@, from_divergence),
{
    reveal(AppView::overwrite_confirmed);
    if from_divergence {
        session::detach_active(app);
    }
    app.ask(Request::OverwriteWith { name, slot });
}

fn refuse_rotation(app: &mut App)
    ensures
        final(app)@ == old(app)@.rotation_refused(),
{
    reveal(AppView::rotation_refused);
    app.toast(ToastKind::Warning, "rotate-all skipped; another op is still in flight");
}

fn confirm_rotation(app: &mut App)
    ensures
        final(app)@ == old(app)@.rotation_confirmed(),
{
    reveal(AppView::rotation_confirmed);
    if app.ui.startup.bootstrap_active {
        refuse_rotation(app);
    } else {
        app.ask(Request::ProbeBusy);
    }
}

/// Goes on with rotating every token once it is known whether anything is in flight.
pub fn finish_rotation_probe(app: &mut App, busy: bool)
    ensures
        final(app)@ == old(app)@.rotation_probed(busy),
{
    reveal(AppView::rotation_probed);
    if busy {
        refuse_rotation(app);
    } else {
        app.ask(Request::RotateAll);
        app.toast(ToastKind::Info, "rotating all tokens");
    }
}

/// Goes on with rotating one token once it is known whether a session is live.
pub fn finish_single_rotation_probe(app: &mut App, name: String, live: bool)
    ensures
        final(app)@ == old(app)@.single_rotation_probed(name@, live),
{
    reveal(AppView::single_rotation_probed);
    if live {
        let body = text::joined3(
            "'",
            name.as_str(),
            "' is in use by a running session; its tokens are managed there",
        );
        app.toast(ToastKind::Warning, body.as_str());
    } else {
        let body = text::joined3("rotating '", name.as_str(), "'");
        app.ask(Request::RotateOne(name));
        app.toast(ToastKind::Info, body.as_str());
    }
}

/// Goes on after the integration was wired or not.
pub fn finish_wire(app: &mut App, failure: Option<String>)
    ensures
        final(app)@ == old(app)@.mcp_wired(text::opt_view(failure)),
{
    reveal(AppView::mcp_wired);
    match failure {
        None => {
            let file = app.host.config_file();
            let body = text::joined("wired clauth into ", file.as_str());
            app.toast(ToastKind::Success, body.as_str());
            nav::recompute_plugin_checks(app, false);
        },
        Some(e) => {
            let body = text::joined("wire failed: ", e.as_str());
            app.toast(ToastKind::Danger, body.as_str());
        },
    }
}

/// Goes on after credentials were linked again or not.
pub fn finish_relink(app: &mut App, name: &str, failure: Option<String>)
    ensures
        final(app)@ == old(app)@.relinked(name@, text::opt_view(failure)),
{
    reveal(AppView::relinked);
    match failure {
        None => {
            app.ask(Request::RefreshTokens);
            let body = text::joined3("relinked credentials to '", name, "'");
            app.toast(ToastKind::Success, body.as_str());
            nav::recompute_plugin_checks(app, false);
        },
        Some(e) => {
            let body = text::joined("relink failed: ", e.as_str());
            app.toast(ToastKind::Danger, body.as_str());
        },
    }
}

fn confirm_logout(app: &mut App, name: String)
    ensures
        final(app)@ == old(app)@.logout_confirmed(name@),
{
    reveal(AppView::logout_confirmed);
    let api = match app.config.find(name.as_str()) {
        Some(p) => !p.facts.login_is_oauth,
        None => false,
    };
    if api {
        app.ask(Request::ClearApiKey(name));
    } else {
        app.ask(Request::ClearCredentials(name));
    }
}

/// Goes on after an account was logged out or not.
pub fn finish_logout(app: &mut App, name: &str, failure: Option<String>)
    ensures
        final(app)@ == old(app)@.logged_out(name@, text::opt_view(failure)),
{
    reveal(AppView::logged_out);
    match failure {
        None => {
            let body = text::joined3("logged out of '", name, "'");
            session::say_login_saved(app, body.as_str());
        },
        Some(e) => {
            let body = text::joined("log out failed: ", e.as_str());
            app.toast(ToastKind::Danger, body.as_str());
        },
    }
}

/// Whether a confirmed action is one piece of outside work and nothing more.
pub open spec fn is_request(action: ConfirmActionView) -> bool {
    match action {
        ConfirmActionView::AdoptDivergence(_, _) => true,
        ConfirmActionView::Switch(_) => true,
        ConfirmActionView::RotateOne(_) => true,
        ConfirmActionView::WireMcpServers => true,
        ConfirmActionView::RelinkCredentials(_) => true,
        ConfirmActionView::DeleteLiveSession(_) => true,
        _ => false,
    }
}

/// Runs what was confirmed, of the actions that are one piece of outside work.
#[verifier::spinoff_prover]
fn run_request_action(app: &mut App, action: ConfirmAction) -> (left: Option<ConfirmAction>)
    ensures
        match left {
            None => final(app)@ == old(app)@.confirm_run(action@),
            Some(a) => final(app)@ == old(app)@ && a == action && !is_request(action@),
        },
{
    reveal(AppView::confirm_run);
    let request = match action {
        ConfirmAction::AdoptDivergence(slot, name) => Request::AdoptInto { name, slot },
        ConfirmAction::Switch(name) => Request::ProbeSwitch(name),
        ConfirmAction::RotateOne(name) => Request::ProbeRotate(name),
        ConfirmAction::WireMcpServers => Request::WireMcp,
        ConfirmAction::RelinkCredentials(name) => Request::LinkRepaired(name),
        ConfirmAction::DeleteLiveSession(name) => Request::DeleteProfile { name, force: true },
        other => return Some(other),
    };
    app.ask(request);
    None
}

/// Runs what was confirmed.
#[verifier::spinoff_prover]
pub fn run_confirm_action(app: &mut App, action: ConfirmAction)
    ensures
        final(app)@ == old(app)@.confirm_run(action@),
{
    let action = match run_request_action(app, action) {
        Some(a) => a,
        None => return,
    };
    reveal(AppView::confirm_run);
    match action {
        ConfirmAction::CaptureConflict(slot, from_divergence) => session::ask_capture_name(
            app,
            slot,
            from_divergence,
        ),
        ConfirmAction::CaptureOverwrite(slot, name, from_divergence) => confirm_overwrite(
            app,
            slot,
            name,
            from_divergence,
        ),
        ConfirmAction::DiscardDivergence(name) => session::run_discard_divergence(
            app,
            name.as_str(),
        ),
        ConfirmAction::RotateAll => confirm_rotation(app),
        ConfirmAction::BlankCredentials(name) => confirm_logout(app, name),
        ConfirmAction::RestartLogin(name, is_new) => session::start_login(app, name, is_new),
        _ => {},
    }
}

fn answer_confirm(app: &mut App, st: ConfirmState)
    ensures
        final(app)@ == old(app)@.confirm_answered(st@),
{
    reveal(AppView::confirm_answered);
    if st.choice {
        run_confirm_action(app, st.on_confirm);
    }
}

/// A key in a yes/no dialog, which was taken off the top.
pub fn handle_confirm_key(app: &mut App, st: ConfirmState, key: Key)
    ensures
        final(app)@ == old(app)@.confirm_keyed(st@, key),
{
    reveal(AppView::confirm_keyed);
    match key.code {
        KeyCode::Left | KeyCode::Right | KeyCode::Tab => {
            let choice = !st.choice;
            app.push_modal(Modal::Confirm(ConfirmState { choice, ..st }));
        },
        KeyCode::Esc => {},
        KeyCode::Enter => answer_confirm(app, st),
        KeyCode::Char(c) => {
            if c == 'y' {
                app.push_modal(Modal::Confirm(ConfirmState { choice: true, ..st }));
            } else if c == 'n' {
                app.push_modal(Modal::Confirm(ConfirmState { choice: false, ..st }));
            } else if c == 'q' {
            } else if c == ' ' {
                answer_confirm(app, st);
            } else {
                app.push_modal(Modal::Confirm(st));
            }
        },
        _ => app.push_modal(Modal::Confirm(st)),
    }
}

/// A yes/no dialog runs its action only on enter or space with yes chosen; escape always
/// closes it and runs nothing.
pub proof fn confirmations_need_a_yes(s: AppView, st: ConfirmStateView, key: Key)
    ensures
        !st.choice ==> s.confirm_answered(st) == s,
        key.code == KeyCode::Esc ==> s.confirm_keyed(st, key) == s,
        key.code == KeyCode::Enter && st.choice ==> s.confirm_keyed(st, key) == s.confirm_run(
            st.on_confirm,
        ),
{
    reveal(AppView::confirm_answered);
    reveal(AppView::confirm_keyed);
}

// ── a live login that does not match ────────────────────────────────────────

impl AppView {
    #[verifier::opaque]
    pub open spec fn divergence_picked(self, f: DivergenceFormView) -> AppView {
        let actions = forms::divergence_actions(f.sibling);
        let last = (actions.len() - 1) as usize;
        match actions[settings::row_clamped(f.cursor, last) as int] {
            DivergenceActionView::SwitchToOwner(owner) => self.asked(
                RequestView::CaptureForOwner(owner),
            ),
            DivergenceActionView::Choice(choice) => self.divergence_chosen(f.active, choice),
        }
    }

    #[verifier::opaque]
    pub open spec fn divergence_form_keyed(self, f: DivergenceFormView, key: Key) -> AppView {
        let last = (forms::divergence_actions(f.sibling).len() - 1) as usize;
        match key.code {
            KeyCode::Up => self.with_modal(
                ModalView::Divergence(
                    DivergenceFormView { cursor: settings::step_up(f.cursor, last), ..f },
                ),
            ),
            KeyCode::Down => self.with_modal(
                ModalView::Divergence(
                    DivergenceFormView { cursor: settings::step_down(f.cursor, last), ..f },
                ),
            ),
            KeyCode::Esc => self,
            KeyCode::Enter => self.divergence_picked(f),
            KeyCode::Char(c) => if c == 'q' {
                self
            } else if c == ' ' {
                self.divergence_picked(f)
            } else {
                self.with_modal(ModalView::Divergence(f))
            },
            _ => self.with_modal(ModalView::Divergence(f)),
        }
    }

    /// The first row of the picker is a new account.
    #[verifier::opaque]
    pub open spec fn target_picked(self, f: DivergenceTargetFormView) -> AppView {
        if f.cursor == 0 {
            self.asked(RequestView::CaptureBegin(true))
        } else if f.cursor - 1 < f.targets.len() {
            self.asked(RequestView::CaptureForTarget(f.targets[f.cursor - 1]))
        } else {
            self
        }
    }

    #[verifier::opaque]
    pub open spec fn target_form_keyed(self, f: DivergenceTargetFormView, key: Key) -> AppView {
        let last = f.targets.len() as usize;
        match key.code {
            KeyCode::Up => self.with_modal(
                ModalView::DivergenceTarget(
                    DivergenceTargetFormView { cursor: settings::step_up(f.cursor, last), ..f },
                ),
            ),
            KeyCode::Down => self.with_modal(
                ModalView::DivergenceTarget(
                    DivergenceTargetFormView { cursor: settings::step_down(f.cursor, last), ..f },
                ),
            ),
            KeyCode::Esc => self,
            KeyCode::Enter => self.target_picked(f),
            KeyCode::Char(c) => if c == 'q' {
                self
            } else if c == ' ' {
                self.target_picked(f)
            } else {
                self.with_modal(ModalView::DivergenceTarget(f))
            },
            _ => self.with_modal(ModalView::DivergenceTarget(f)),
        }
    }

    /// Enter looks the typed name up before anything is done with it.
    #[verifier::opaque]
    pub open spec fn capture_form_keyed(self, f: CaptureNameFormView, key: Key) -> AppView {
        match key.code {
            KeyCode::Esc => self,
            KeyCode::Enter => self.with_modal(ModalView::CaptureName(f)).asked(
                RequestView::CheckCaptureName(f.input.trimmed()),
            ),
            _ => if key.code == KeyCode::Char('q') {
                self
            } else {
                self.with_modal(
                    ModalView::CaptureName(CaptureNameFormView { input: f.input.keyed(key), ..f }),
                )
            },
        }
    }

    /// A name that was looked up: an account that has it is asked about, a free one is
    /// captured into.
    #[verifier::opaque]
    pub open spec fn capture_name_taken(
        self,
        f: CaptureNameFormView,
        holder: Option<Seq<char>>,
    ) -> AppView {
        match holder {
            Some(existing) => self.with_modal(
                ModalView::Confirm(
                    ConfirmStateView {
                        message: "Profile '"@ + existing + "' already exists."@,
                        detail: Some(
                            "Overwrite its credentials with the captured login? Usage history, env, and model settings are kept."@,
                        ),
                        choice: false,
                        on_confirm: ConfirmActionView::CaptureOverwrite(
                            f.slot,
                            existing,
                            f.from_divergence,
                        ),
                    },
                ),
            ),
            None => {
                let s = if f.from_divergence {
                    self.detached()
                } else {
                    self
                };
                s.asked(RequestView::CaptureInto { name: f.input.trimmed(), slot: f.slot })
            },
        }
    }

    #[verifier::opaque]
    pub open spec fn capture_name_checked(self, holder: Option<Seq<char>>) -> AppView {
        if self.modals.len() > 0 && self.modals.last() is CaptureName {
            self.without_modal().capture_name_taken(self.modals.last()->CaptureName_0, holder)
        } else {
            self
        }
    }
}

fn pick_divergence(app: &mut App, f: DivergenceForm)
    ensures
        final(app)@ == old(app)@.divergence_picked(f@),
{
    reveal(AppView::divergence_picked);
    let actions = f.actions();
    let ghost av = forms::divergence_action_views(actions@);
    assert(av.len() == actions@.len());
    let last: usize = actions.len() - 1;
    let i: usize = settings::clamp_row(f.cursor, last);
    assert(av[i as int] == actions@[i as int]@);
    match &actions[i] {
        DivergenceAction::SwitchToOwner(owner) => app.ask(Request::CaptureForOwner(owner.clone())),
        DivergenceAction::Choice(choice) => session::run_divergence_choice(
            app,
            f.active.as_str(),
            *choice,
        ),
    }
}

/// A key in the prompt about a live login, which was taken off the top.
pub fn handle_divergence_key(app: &mut App, f: DivergenceForm, key: Key)
    ensures
        final(app)@ == old(app)@.divergence_form_keyed(f@, key),
{
    reveal(AppView::divergence_form_keyed);
    let actions = f.actions();
    assert(forms::divergence_action_views(actions@).len() == actions@.len());
    let last: usize = actions.len() - 1;
    match key.code {
        KeyCode::Up => {
            let cursor: usize = settings::row_up(f.cursor, last);
            app.push_modal(Modal::Divergence(DivergenceForm { cursor, ..f }));
        },
        KeyCode::Down => {
            let cursor: usize = settings::row_down(f.cursor, last);
            app.push_modal(Modal::Divergence(DivergenceForm { cursor, ..f }));
        },
        KeyCode::Esc => {},
        KeyCode::Enter => pick_divergence(app, f),
        KeyCode::Char(c) => {
            if c == 'q' {
            } else if c == ' ' {
                pick_divergence(app, f);
            } else {
                app.push_modal(Modal::Divergence(f));
            }
        },
        _ => app.push_modal(Modal::Divergence(f)),
    }
}

fn pick_target(app: &mut App, f: DivergenceTargetForm)
    ensures
        final(app)@ == old(app)@.target_picked(f@),
{
    reveal(AppView::target_picked);
    assert(text::views(f.targets@).len() == f.targets@.len());
    if f.cursor == 0 {
        session::begin_capture(app, true);
    } else if f.cursor - 1 < f.targets.len() {
        let target = f.targets[f.cursor - 1].clone();
        app.ask(Request::CaptureForTarget(target));
    }
}

/// A key in the picker of accounts, which was taken off the top.
pub fn handle_divergence_target_key(app: &mut App, f: DivergenceTargetForm, key: Key)
    ensures
        final(app)@ == old(app)@.target_form_keyed(f@, key),
{
    reveal(AppView::target_form_keyed);
    let last: usize = f.targets.len();
    assert(text::views(f.targets@).len() == f.targets@.len());
    match key.code {
        KeyCode::Up => {
            let cursor: usize = settings::row_up(f.cursor, last);
            app.push_modal(Modal::DivergenceTarget(DivergenceTargetForm { cursor, ..f }));
        },
        KeyCode::Down => {
            let cursor: usize = settings::row_down(f.cursor, last);
            app.push_modal(Modal::DivergenceTarget(DivergenceTargetForm { cursor, ..f }));
        },
        KeyCode::Esc => {},
        KeyCode::Enter => pick_target(app, f),
        KeyCode::Char(c) => {
            if c == 'q' {
            } else if c == ' ' {
                pick_target(app, f);
            } else {
                app.push_modal(Modal::DivergenceTarget(f));
            }
        },
        _ => app.push_modal(Modal::DivergenceTarget(f)),
    }
}

/// A key in the dialog that names a captured login, which was taken off the top.
pub fn handle_capture_name_key(app: &mut App, f: CaptureNameForm, key: Key)
    ensures
        final(app)@ == old(app)@.capture_form_keyed(f@, key),
{
    reveal(AppView::capture_form_keyed);
    match key.code {
        KeyCode::Esc => {},
        KeyCode::Enter => {
            let name = f.input.trimmed().to_string();
            app.push_modal(Modal::CaptureName(f));
            app.ask(Request::CheckCaptureName(name));
        },
        _ => {
            if key.code == KeyCode::Char('q') {
                return;
            }
            let mut form = f;
            settings::apply_input_edit(&mut form.input, key);
            app.push_modal(Modal::CaptureName(form));
        },
    }
}

fn take_capture_name(app: &mut App, f: CaptureNameForm, holder: Option<String>)
    ensures
        final(app)@ == old(app)@.capture_name_taken(f@, text::opt_view(holder)),
{
    reveal(AppView::capture_name_taken);
    match holder {
        Some(existing) => {
            let message = text::joined3("Profile '", existing.as_str(), "' already exists.");
            app.push_modal(
                Modal::Confirm(
                    ConfirmState {
                        message,
                        detail: Some(
                            "Overwrite its credentials with the captured login? Usage history, env, and model settings are kept.".to_string(),
                        ),
                        choice: false,
                        on_confirm: ConfirmAction::CaptureOverwrite(
                            f.slot,
                            existing,
                            f.from_divergence,
                        ),
                    },
                ),
            );
        },
        None => {
            if f.from_divergence {
                session::detach_active(app);
            }
            let name = f.input.trimmed().to_string();
            app.ask(Request::CaptureInto { name, slot: f.slot });
        },
    }
}

/// Goes on once a typed name was found acceptable; `holder` is the account that has it.
pub fn finish_capture_name(app: &mut App, holder: Option<String>)
    ensures
        final(app)@ == old(app)@.capture_name_checked(text::opt_view(holder)),
{
    reveal(AppView::capture_name_checked);
    let n: usize = app.modals.len();
    assert(forms::modal_views(app.modals@).len() == n);
    if n == 0 {
        return;
    }
    assert(forms::modal_views(app.modals@)[n - 1] == app.modals@[n - 1]@);
    let named = match &app.modals[n - 1] {
        Modal::CaptureName(_) => true,
        _ => false,
    };
    if named {
        if let Some(Modal::CaptureName(f)) = app.pop_modal() {
            take_capture_name(app, f, holder);
        }
    }
}

// ── a key that exists elsewhere ─────────────────────────────────────────────

impl AppView {
    #[verifier::opaque]
    pub open spec fn collision_picked(self, f: EnvCollisionFormView) -> AppView {
        self.collision_resolved(
            f.profile,
            f.key,
            f.existing_idx,
            forms::collision_choice(settings::row_clamped(f.cursor, 2) as int),
        )
    }

    #[verifier::opaque]
    pub open spec fn collision_form_keyed(self, f: EnvCollisionFormView, key: Key) -> AppView {
        match key.code {
            KeyCode::Up => self.with_modal(
                ModalView::EnvCollision(
                    EnvCollisionFormView { cursor: settings::step_up(f.cursor, 2), ..f },
                ),
            ),
            KeyCode::Down => self.with_modal(
                ModalView::EnvCollision(
                    EnvCollisionFormView { cursor: settings::step_down(f.cursor, 2), ..f },
                ),
            ),
            KeyCode::Esc => self,
            KeyCode::Enter => self.collision_picked(f),
            KeyCode::Char(c) => if c == 'q' {
                self
            } else if c == ' ' {
                self.collision_picked(f)
            } else {
                self.with_modal(ModalView::EnvCollision(f))
            },
            _ => self.with_modal(ModalView::EnvCollision(f)),
        }
    }
}

fn pick_collision(app: &mut App, f: EnvCollisionForm)
    ensures
        final(app)@ == old(app)@.collision_picked(f@),
{
    reveal(AppView::collision_picked);
    let options = EnvCollisionForm::options();
    let i: usize = settings::clamp_row(f.cursor, 2);
    setup::run_env_collision_choice(
        app,
        f.profile.as_str(),
        f.key.as_str(),
        f.existing_idx,
        options[i],
    );
}

/// A key in the key-collision prompt, which was taken off the top.
pub fn handle_env_collision_key(app: &mut App, f: EnvCollisionForm, key: Key)
    ensures
        final(app)@ == old(app)@.collision_form_keyed(f@, key),
{
    reveal(AppView::collision_form_keyed);
    match key.code {
        KeyCode::Up => {
            let cursor: usize = settings::row_up(f.cursor, 2);
            app.push_modal(Modal::EnvCollision(EnvCollisionForm { cursor, ..f }));
        },
        KeyCode::Down => {
            let cursor: usize = settings::row_down(f.cursor, 2);
            app.push_modal(Modal::EnvCollision(EnvCollisionForm { cursor, ..f }));
        },
        KeyCode::Esc => {},
        KeyCode::Enter => pick_collision(app, f),
        KeyCode::Char(c) => {
            if c == 'q' {
            } else if c == ' ' {
                pick_collision(app, f);
            } else {
                app.push_modal(Modal::EnvCollision(f));
            }
        },
        _ => app.push_modal(Modal::EnvCollision(f)),
    }
}

// ── the context menu ────────────────────────────────────────────────────────

/// The letter a hotkey is matched by. Hotkeys are ASCII letters, so of all characters only
/// the ASCII capitals and the two others whose lower case begins with an ASCII letter, the
/// Kelvin sign and the dotted capital I, are folded.
pub open spec fn hotkey_letter(c: char) -> char {
    if c == '\u{212A}' {
        'k'
    } else if c == '\u{130}' {
        'i'
    } else {
        text::ascii_lower(c)
    }
}

/// The letter a hotkey is matched by.
pub fn fold_hotkey(c: char) -> (r: char)
    ensures
        r == hotkey_letter(c),
{
    if c == '\u{212A}' {
        'k'
    } else if c == '\u{130}' {
        'i'
    } else {
        text::lower(c)
    }
}

/// The first entry, from `k` on, with a hotkey.
pub open spec fn entry_with_key(
    items: Seq<ActionItemView>,
    c: char,
    k: nat,
) -> Option<ActionMenuAction>
    decreases items.len() - k,
{
    if k >= items.len() {
        None
    } else if items[k as int].hotkey == Some(c) {
        Some(items[k as int].action)
    } else {
        entry_with_key(items, c, k + 1)
    }
}

fn find_entry(state: &ActionMenuState, c: char) -> (r: Option<ActionMenuAction>)
    ensures
        r == entry_with_key(state@.items, c, 0),
{
    let mut i: usize = 0;
    assert(state@.items.len() == state.items@.len());
    while i < state.items.len()
        invariant
            i <= state.items@.len(),
            state@.items.len() == state.items@.len(),
            entry_with_key(state@.items, c, 0) == entry_with_key(state@.items, c, i as nat),
        decreases state.items@.len() - i,
    {
        assert(state@.items[i as int] == state.items@[i as int]@);
        let hit = match state.items[i].hotkey {
            Some(k) => k == c,
            None => false,
        };
        if hit {
            return Some(state.items[i].action);
        }
        i = i + 1;
    }
    None
}

impl AppView {
    /// What a menu entry sets off.
    #[verifier::opaque]
    pub open spec fn action_run(self, action: ActionMenuAction) -> AppView {
        match action {
            ActionMenuAction::NewAccount => self.new_account_started(),
            ActionMenuAction::RefreshUsage => self.focused_refreshed(),
            ActionMenuAction::RotateTokens => self.focused_rotation_asked(),
            ActionMenuAction::SwitchToSelected => self.switch_requested(self.ui.profile_cursor),
            ActionMenuAction::ConfigureSelected => self.config_entered(),
            ActionMenuAction::OpenChainMember => self.fallback_entered(),
            ActionMenuAction::ReorderUp => self.member_moved(true),
            ActionMenuAction::ReorderDown => self.member_moved(false),
            ActionMenuAction::EditThreshold => self.fallback_row_run(FallbackRow::Threshold),
            ActionMenuAction::ToggleLastResort => self.fallback_row_run(FallbackRow::LastResort),
            ActionMenuAction::RemoveMember => self.fallback_row_run(FallbackRow::Remove),
            ActionMenuAction::ToggleAutoStart
            | ActionMenuAction::DeleteProfile
            | ActionMenuAction::CreateProfile
            | ActionMenuAction::LoginAccount
            | ActionMenuAction::ClearCredentials
            | ActionMenuAction::EditField => self.current_row_run(),
            ActionMenuAction::RemoveEnvField => self.env_field_removed(),
            ActionMenuAction::RefreshStatus => self.status_refresh_wanted(),
            ActionMenuAction::OpenIncidentLink => self.incident_opened(),
            ActionMenuAction::ToggleEstimates => self.estimates_toggled(),
            ActionMenuAction::TogglePace => self.pace_toggled(),
            ActionMenuAction::TokensPeriodLifetime => self.period_set(TokenPeriod::Lifetime),
            ActionMenuAction::TokensPeriodDaily => self.period_set(TokenPeriod::Daily),
            ActionMenuAction::TokensPeriodWeekly => self.period_set(TokenPeriod::Weekly),
            ActionMenuAction::TokensPeriodMonthly => self.period_set(TokenPeriod::Monthly),
            ActionMenuAction::TokensShowAll => self.filter_set(TokenFilter::All),
            ActionMenuAction::TokensShowClaude => self.filter_set(TokenFilter::Claude),
            ActionMenuAction::TokensShowOthers => self.filter_set(TokenFilter::Others),
            ActionMenuAction::ToggleCountCache => self.count_cache_toggled(),
            ActionMenuAction::ReloadTokenStats => self.token_reload_wanted(),
        }
    }

    #[verifier::opaque]
    pub open spec fn entry_chosen(self, st: ActionMenuStateView) -> AppView {
        if st.cursor < st.items.len() {
            self.action_run(st.items[st.cursor as int].action)
        } else {
            self
        }
    }

    /// A hotkey runs its entry; escape and `q` close the menu.
    #[verifier::opaque]
    pub open spec fn menu_letter_keyed(self, st: ActionMenuStateView, c: char) -> AppView {
        match entry_with_key(st.items, hotkey_letter(c), 0) {
            Some(action) => self.action_run(action),
            None => if c == 'q' {
                self
            } else {
                self.with_modal(ModalView::ActionMenu(st))
            },
        }
    }

    #[verifier::opaque]
    pub open spec fn menu_form_keyed(self, st: ActionMenuStateView, key: Key) -> AppView {
        let len = st.items.len() as usize;
        match key.code {
            KeyCode::Char(c) => self.menu_letter_keyed(st, c),
            KeyCode::Esc => self,
            KeyCode::Up => self.with_modal(
                ModalView::ActionMenu(
                    ActionMenuStateView { cursor: setup::cycled(st.cursor, true, len), ..st },
                ),
            ),
            KeyCode::Down => self.with_modal(
                ModalView::ActionMenu(
                    ActionMenuStateView { cursor: setup::cycled(st.cursor, false, len), ..st },
                ),
            ),
            KeyCode::Enter => self.entry_chosen(st),
            _ => self.with_modal(ModalView::ActionMenu(st)),
        }
    }

    /// A key while the login dialog was on top: the page can be opened again, and the dialog
    /// can be closed without ending the login.
    #[verifier::opaque]
    pub open spec fn login_form_keyed(self, key: Key) -> AppView {
        match key.code {
            KeyCode::Esc | KeyCode::Enter => self,
            KeyCode::Char(c) => if c == 'r' || c == 'R' {
                let s = self.with_modal(ModalView::Login);
                match self.login {
                    Some(session) => match session.url {
                        Some(url) => s.asked(RequestView::OpenLogin(url)),
                        None => s,
                    },
                    None => s,
                }
            } else if c == 'q' {
                self
            } else {
                self.with_modal(ModalView::Login)
            },
            _ => self.with_modal(ModalView::Login),
        }
    }

    #[verifier::opaque]
    pub open spec fn help_keyed(self, key: Key) -> AppView {
        match key.code {
            KeyCode::Esc | KeyCode::Enter => self,
            KeyCode::Char(c) => if c == '?' || c == 'q' {
                self
            } else {
                self.with_modal(ModalView::Help)
            },
            _ => self.with_modal(ModalView::Help),
        }
    }

    /// A key while dialogs are open: the top one takes it.
    #[verifier::opaque]
    pub open spec fn modal_keyed(self, key: Key) -> AppView {
        if self.modals.len() == 0 {
            self
        } else {
            let s = self.without_modal();
            match self.modals.last() {
                ModalView::Help => s.help_keyed(key),
                ModalView::Confirm(st) => s.confirm_keyed(st, key),
                ModalView::Divergence(f) => s.divergence_form_keyed(f, key),
                ModalView::CaptureName(f) => s.capture_form_keyed(f, key),
                ModalView::DivergenceTarget(f) => s.target_form_keyed(f, key),
                ModalView::ActionMenu(st) => s.menu_form_keyed(st, key),
                ModalView::EnvCollision(f) => s.collision_form_keyed(f, key),
                ModalView::Login => s.login_form_keyed(key),
            }
        }
    }
}

/// Runs a menu entry.
pub fn dispatch_action_menu_action(app: &mut App, action: ActionMenuAction)
    ensures
        final(app)@ == old(app)@.action_run(action),
{
    reveal(AppView::action_run);
    match action {
        ActionMenuAction::NewAccount => nav::start_new_account(app),
        ActionMenuAction::RefreshUsage => nav::refresh_focused(app),
        ActionMenuAction::RotateTokens => nav::ask_focused_rotation(app),
        ActionMenuAction::SwitchToSelected => session::activate_main_item(app),
        ActionMenuAction::ConfigureSelected => setup::enter_config_detail(app),
        ActionMenuAction::OpenChainMember => chain::enter_fallback_detail(app),
        ActionMenuAction::ReorderUp => chain::reorder_chain_member(app, true),
        ActionMenuAction::ReorderDown => chain::reorder_chain_member(app, false),
        ActionMenuAction::EditThreshold => chain::run_fallback_row(app, FallbackRow::Threshold),
        ActionMenuAction::ToggleLastResort => chain::run_fallback_row(
            app,
            FallbackRow::LastResort,
        ),
        ActionMenuAction::RemoveMember => chain::run_fallback_row(app, FallbackRow::Remove),
        ActionMenuAction::ToggleAutoStart
        | ActionMenuAction::DeleteProfile
        | ActionMenuAction::CreateProfile
        | ActionMenuAction::LoginAccount
        | ActionMenuAction::ClearCredentials
        | ActionMenuAction::EditField => setup::run_current_row(app),
        ActionMenuAction::RemoveEnvField => setup::remove_env_field(app),
        ActionMenuAction::RefreshStatus => nav::trigger_status_refresh(app),
        ActionMenuAction::OpenIncidentLink => nav::open_incident_link(app),
        ActionMenuAction::ToggleEstimates => settings::toggle_show_estimates(app),
        ActionMenuAction::TogglePace => settings::toggle_show_pace(app),
        ActionMenuAction::TokensPeriodLifetime => nav::set_token_period(
            app,
            TokenPeriod::Lifetime,
        ),
        ActionMenuAction::TokensPeriodDaily => nav::set_token_period(app, TokenPeriod::Daily),
        ActionMenuAction::TokensPeriodWeekly => nav::set_token_period(app, TokenPeriod::Weekly),
        ActionMenuAction::TokensPeriodMonthly => nav::set_token_period(app, TokenPeriod::Monthly),
        ActionMenuAction::TokensShowAll => nav::set_token_filter(app, TokenFilter::All),
        ActionMenuAction::TokensShowClaude => nav::set_token_filter(app, TokenFilter::Claude),
        ActionMenuAction::TokensShowOthers => nav::set_token_filter(app, TokenFilter::Others),
        ActionMenuAction::ToggleCountCache => settings::toggle_count_cache(app),
        ActionMenuAction::ReloadTokenStats => nav::reload_token_stats(app),
    }
}

/// A key in the context menu, which was taken off the top.
pub fn handle_action_menu_key(app: &mut App, st: ActionMenuState, key: Key)
    ensures
        final(app)@ == old(app)@.menu_form_keyed(st@, key),
{
    reveal(AppView::menu_form_keyed);
    let len: usize = st.items.len();
    assert(st@.items.len() == len);
    match key.code {
        KeyCode::Char(c) => {
            reveal(AppView::menu_letter_keyed);
            match find_entry(&st, fold_hotkey(c)) {
                Some(action) => dispatch_action_menu_action(app, action),
                None => {
                    if c != 'q' {
                        app.push_modal(Modal::ActionMenu(st));
                    }
                },
            }
        },
        KeyCode::Esc => {},
        KeyCode::Up => {
            let cursor: usize = setup::cycle_cursor(st.cursor, true, len);
            app.push_modal(Modal::ActionMenu(ActionMenuState { cursor, ..st }));
        },
        KeyCode::Down => {
            let cursor: usize = setup::cycle_cursor(st.cursor, false, len);
            app.push_modal(Modal::ActionMenu(ActionMenuState { cursor, ..st }));
        },
        KeyCode::Enter => {
            reveal(AppView::entry_chosen);
            if st.cursor < len {
                assert(st@.items[st.cursor as int] == st.items@[st.cursor as int]@);
                dispatch_action_menu_action(app, st.items[st.cursor].action);
            }
        },
        _ => app.push_modal(Modal::ActionMenu(st)),
    }
}

fn handle_login_key(app: &mut App, key: Key)
    ensures
        final(app)@ == old(app)@.login_form_keyed(key),
{
    reveal(AppView::login_form_keyed);
    match key.code {
        KeyCode::Esc | KeyCode::Enter => {},
        KeyCode::Char(c) => {
            if c == 'r' || c == 'R' {
                let url: Option<String> = match &app.login {
                    Some(s) => text::clone_opt(&s.url),
                    None => None,
                };
                app.push_modal(Modal::Login);
                if let Some(url) = url {
                    app.ask(Request::OpenLogin(url));
                }
            } else if c != 'q' {
                app.push_modal(Modal::Login);
            }
        },
        _ => app.push_modal(Modal::Login),
    }
}

fn handle_help_key(app: &mut App, key: Key)
    ensures
        final(app)@ == old(app)@.help_keyed(key),
{
    reveal(AppView::help_keyed);
    match key.code {
        KeyCode::Esc | KeyCode::Enter => {},
        KeyCode::Char(c) => {
            if c != '?' && c != 'q' {
                app.push_modal(Modal::Help);
            }
        },
        _ => app.push_modal(Modal::Help),
    }
}

/// Says whether the login page was opened.
pub fn finish_open_login(app: &mut App, failed: bool)
    ensures
        final(app)@ == (if failed {
            old(app)@.toasted(ToastKind::Danger, "couldn't open the browser"@)
        } else {
            old(app)@.toasted(ToastKind::Info, "opening your browser…"@)
        }),
{
    if failed {
        app.toast(ToastKind::Danger, "couldn't open the browser");
    } else {
        app.toast(ToastKind::Info, "opening your browser…");
    }
}

/// A key while dialogs are open.
pub fn handle_modal_key(app: &mut App, key: Key)
    ensures
        final(app)@ == old(app)@.modal_keyed(key),
{
    reveal(AppView::modal_keyed);
    match app.pop_modal() {
        None => {
            reveal(AppView::without_modal);
        },
        Some(m) => match m {
            Modal::Help => handle_help_key(app, key),
            Modal::Confirm(st) => handle_confirm_key(app, st, key),
            Modal::Divergence(f) => handle_divergence_key(app, f, key),
            Modal::CaptureName(f) => handle_capture_name_key(app, f, key),
            Modal::DivergenceTarget(f) => handle_divergence_target_key(app, f, key),
            Modal::ActionMenu(st) => handle_action_menu_key(app, st, key),
            Modal::EnvCollision(f) => handle_env_collision_key(app, f, key),
            Modal::Login => handle_login_key(app, key),
        },
    }
}

/// A dialog owns the keyboard: what a key press other than ctrl+c does is decided by the
/// dialogs alone, and escape always closes the top one without running anything.
pub proof fn dialogs_own_the_keyboard(s: AppView, key: Key)
    requires
        s.modals.len() > 0,
        key.press,
        !key.ctrl_c(),
    ensures
        s.keyed(key) == s.modal_keyed(key),
        key.code == KeyCode::Esc ==> s.keyed(key) == s.without_modal(),
{
    reveal(AppView::keyed);
    reveal(AppView::modal_keyed);
    reveal(AppView::help_keyed);
    reveal(AppView::confirm_keyed);
    reveal(AppView::divergence_form_keyed);
    reveal(AppView::capture_form_keyed);
    reveal(AppView::target_form_keyed);
    reveal(AppView::menu_form_keyed);
    reveal(AppView::collision_form_keyed);
    reveal(AppView::login_form_keyed);
}

proof fn lemma_entry_found(items: Seq<ActionItemView>, c: char, k: nat, i: int)
    requires
        k <= i < items.len(),
        items[i].hotkey == Some(c),
        forall|j: int| k <= j < i ==> (#[trigger] items[j]).hotkey != Some(c),
    ensures
        entry_with_key(items, c, k) == Some(items[i].action),
    decreases i - k,
{
    if k < i {
        lemma_entry_found(items, c, k + 1, i);
    }
}

/// Every hotkey that the menu shows runs its own entry.
pub proof fn hotkeys_run_their_entry(host: HostView, actions: Seq<ActionMenuAction>, i: int)
    requires
        0 <= i < actions.len(),
        menu::menu_key(host, actions, i) is Some,
    ensures
        entry_with_key(
            ActionMenuStateView::over(host, actions).items,
            menu::menu_key(host, actions, i)->0,
            0,
        ) == Some(actions[i]),
{
    let items = ActionMenuStateView::over(host, actions).items;
    let c = menu::menu_key(host, actions, i)->0;
    assert forall|j: int| 0 <= j < i implies (#[trigger] items[j]).hotkey != Some(c) by {
        if menu::menu_key(host, actions, j) is Some {
            menu::hotkeys_are_distinct(host, actions, j, i);
        }
    }
    lemma_entry_found(items, c, 0, i);
}

} // verus!
