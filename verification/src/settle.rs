//! What the answer to a request sets off.

use vstd::prelude::*;

use crate::chain;
use crate::dialogs;
use crate::events;
use crate::forms;
use crate::forms::ToastKind;
use crate::nav;
use crate::plugin;
use crate::plugin::{LinkState, PluginProbe};
use crate::requests;
use crate::requests::{CaptureFacts, Reply, Request, RequestView};
use crate::session;
use crate::settings;
use crate::setup;
use crate::state::{App, AppView};
use crate::text;

verus! {

impl AppView {
    #[verifier::opaque]
    pub open spec fn refused(self, e: Seq<char>) -> AppView {
        self.toasted(ToastKind::Danger, e)
    }

    /// What the success or failure of a request sets off.
    #[verifier::opaque]
    pub open spec fn concluded(self, request: Request, failure: Option<Seq<char>>) -> AppView {
        match request {
            Request::OpenIncident(_) => if failure is Some {
                self.toasted(ToastKind::Danger, "failed to open browser"@)
            } else {
                self.toasted(ToastKind::Info, "opening in browser"@)
            },
            Request::OpenLogin(_) => if failure is Some {
                self.toasted(ToastKind::Danger, "couldn't open the browser"@)
            } else {
                self.toasted(ToastKind::Info, "opening your browser…"@)
            },
            Request::SwitchProfile(name) => self.switched(name@, failure),
            Request::SwitchOff => self.switched_off(failure),
            Request::DeleteProfile { name, .. } => self.deleted(name@, failure),
            Request::ReorderProfile { from, to } => self.reordered(from, to, failure),
            Request::SnapshotActive(active) => self.active_snapshot(active@, failure),
            Request::LinkOverwritten(active) => self.overwrite_linked(active@, failure),
            Request::LinkDiscarded(active) => self.discard_linked(active@, failure),
            Request::LinkRepaired(name) => self.relinked(name@, failure),
            Request::WireMcp => self.mcp_wired(failure),
            Request::ClearCredentials(name) => self.logged_out(name@, failure),
            Request::ClearApiKey(name) => self.logged_out(name@, failure),
            _ => self.stored(request, failure),
        }
    }

    /// What the success or failure of storing a login or a threshold sets off.
    #[verifier::opaque]
    pub open spec fn stored(self, request: Request, failure: Option<Seq<char>>) -> AppView {
        match request {
            Request::CaptureInto { name, .. } => match failure {
                None => self.login_saved("captured '"@ + name@ + "'"@),
                Some(e) => self.capture_failed(e),
            },
            Request::OverwriteWith { name, .. } => match failure {
                None => self.login_saved("overwrote '"@ + name@ + "' with the captured login"@),
                Some(e) => self.toasted(ToastKind::Danger, "overwrite failed: "@ + e),
            },
            Request::LoginInto { name, .. } => match failure {
                None => self.login_saved("logged in '"@ + name@ + "'"@),
                Some(e) => self.toasted(ToastKind::Danger, "login failed: "@ + e),
            },
            Request::AdoptInto { name, .. } => self.adoption_stored(name@, failure),
            Request::SaveAdopted(name) => self.adoption_saved(name@, failure),
            Request::LinkAdopted(name) => self.adoption_linked(name@, failure),
            Request::AdoptFirstLogin(active) => match failure {
                None => self.login_saved("saved login into '"@ + active@ + "'"@),
                Some(e) => self.toasted(ToastKind::Danger, "adopt failed: "@ + e),
            },
            Request::StepThreshold { .. } => match failure {
                None => self,
                Some(e) => self.toasted(ToastKind::Danger, "save failed: "@ + e),
            },
            _ => self.edited(request, failure),
        }
    }

    /// What the success or failure of an edit sets off.
    #[verifier::opaque]
    pub open spec fn edited(self, request: Request, failure: Option<Seq<char>>) -> AppView {
        match request {
            Request::RenameProfile { old_name, new_name } => self.renamed(
                old_name@,
                new_name@,
                failure,
            ),
            Request::EditEndpoint { name, field, .. } => self.endpoint_saved(name@, field, failure),
            Request::EditModel { name, field, .. } => self.model_edited(name@, field, failure),
            Request::EnvSetValue { name, index, .. } => self.env_value_saved(
                name@,
                index,
                failure,
            ),
            Request::EnvAddKey { name, key, .. } => self.env_key_saved(name@, key@, failure),
            Request::EnvRemove { key, .. } => self.env_removal_saved(key@, failure),
            Request::CreateProfile { name, discarded, .. } => self.account_created(
                name@,
                discarded,
                failure,
            ),
            Request::SaveAutoStart { name, on } => self.auto_start_saved(name@, on, failure),
            Request::SaveLastResort { name, on } => match failure {
                None => self.last_resort_saved(name@, on),
                Some(e) => self.last_resort_failed(name@, on, e),
            },
            Request::CommitThreshold { .. } => self.threshold_committed(failure),
            Request::CommitWeekly(_) => self.weekly_committed(failure is None),
            _ => self.checked(request, failure),
        }
    }

    /// What the look at a typed name sets off: one that is refused is said.
    #[verifier::opaque]
    pub open spec fn checked(self, request: Request, failure: Option<Seq<char>>) -> AppView {
        match request {
            Request::CheckLoginName(name) => match failure {
                None => self.login_wanted(name@, true),
                Some(e) => self.refused(e),
            },
            Request::CheckNewName(name) => match failure {
                None => self.new_account_checked(name@),
                Some(e) => self.refused(e),
            },
            Request::CheckRename { old_name, new_name } => match failure {
                None => self.asked(
                    RequestView::RenameProfile { old_name: old_name@, new_name: new_name@ },
                ),
                Some(e) => self.refused(e),
            },
            Request::CheckCaptureName(_) => match failure {
                None => self,
                Some(e) => self.refused(e),
            },
            Request::CaptureBegin(_) | Request::CaptureForOwner(_) | Request::CaptureForTarget(
                _,
            ) => match failure {
                None => self,
                Some(e) => self.capture_failed(e),
            },
            _ => self,
        }
    }

    /// What the name of an account sets off.
    #[verifier::opaque]
    pub open spec fn told_name(self, request: Request, name: Option<Seq<char>>) -> AppView {
        match request {
            Request::FindOwner(active) => self.divergence_opened(active@, name),
            Request::NoteOwner { active, fingerprint } => self.owner_noted(
                active@,
                fingerprint,
                name,
            ),
            Request::MatchLive => self.targets_listed(name),
            Request::CheckCaptureName(_) => self.capture_name_checked(name),
            _ => self,
        }
    }

    /// What the state of the credential link sets off.
    #[verifier::opaque]
    pub open spec fn told_link(
        self,
        request: Request,
        state: Option<LinkState>,
        first_login: bool,
    ) -> AppView {
        match request {
            Request::ReadLink(active) => self.link_read(active@, state, first_login),
            Request::GuardSwitch { active, name } => self.switch_guarded(
                active@,
                name@,
                state,
                first_login,
            ),
            Request::GuardSwitchOff(active) => self.switch_off_guarded(active@, state, first_login),
            _ => self,
        }
    }

    /// What a yes or no sets off.
    #[verifier::opaque]
    pub open spec fn told_flag(self, request: Request, flag: bool) -> AppView {
        match request {
            Request::ProbeBusy => self.rotation_probed(flag),
            Request::ProbeRotate(name) => self.single_rotation_probed(name@, flag),
            Request::ProbeDelete(name) => self.delete_probed(name@, flag),
            Request::ProbeDaemon => self.daemon_probed(flag),
            Request::CompareLogin(active) => self.login_compared(active@, flag),
            _ => self,
        }
    }

    /// What is in flight, and what it sets off.
    #[verifier::opaque]
    pub open spec fn told_busy(self, request: Request, gate: bool, idle: bool) -> AppView {
        match request {
            Request::ProbeSwitch(name) => self.switch_probed(name@, gate, idle),
            Request::ProbeAutoSwitch(name) => self.auto_switch_probed(name@, gate, idle),
            _ => self,
        }
    }

    /// What a captured login sets off.
    #[verifier::opaque]
    pub open spec fn told_capture(
        self,
        request: Request,
        slot: u64,
        found: CaptureFacts,
        owner: Option<Seq<char>>,
    ) -> AppView {
        match request {
            Request::CaptureBegin(d) => self.capture_read(d, slot, found, owner),
            Request::CaptureForOwner(o) => self.owner_capture_read(o@, slot, found),
            Request::CaptureForTarget(t) => self.target_capture_read(t@, slot, found),
            _ => self,
        }
    }

    /// What the answer to a request sets off. An answer that does not fit its request sets
    /// off nothing.
    #[verifier::opaque]
    pub open spec fn settled(self, request: Request, reply: Reply) -> AppView {
        match reply {
            Reply::Done => self.concluded(request, None),
            Reply::Failed(e) => self.concluded(request, Some(e@)),
            Reply::Invalid => self,
            Reply::Flag(f) => self.told_flag(request, f),
            Reply::Name(n) => self.told_name(request, text::opt_view(n)),
            Reply::Fingerprint(f) => match request {
                Request::ReadFingerprint(active) => self.fingerprint_read(active@, f),
                _ => self,
            },
            Reply::Link { state, first_login } => self.told_link(request, state, first_login),
            Reply::Busy { gate, idle } => self.told_busy(request, gate, idle),
            Reply::Captured { slot, found, owner } => self.told_capture(
                request,
                slot,
                found,
                text::opt_view(owner),
            ),
            Reply::Collision(c) => match request {
                Request::ClassifyEnv { name, key } => self.env_key_classified(
                    name@,
                    key@,
                    forms::opt_env_key_collision(c),
                ),
                _ => self,
            },
            Reply::Saved(saved) => match request {
                Request::SaveCleared(names) => self.others_cleared(text::views(names@), saved@),
                _ => self,
            },
            Reply::Switched(switch) => match request {
                Request::StartupSwitch => self.startup_switched(requests::opt_auto_switch(switch)),
                _ => self,
            },
            Reply::Probed(p) => match request {
                Request::ProbePlugin { forced, .. } => self.with_plugin(
                    self.plugin.probed(self.host, p@, forced),
                ),
                _ => self,
            },
        }
    }
}

fn refuse(app: &mut App, e: &str)
    ensures
        final(app)@ == old(app)@.refused(e@),
{
    reveal(AppView::refused);
    app.toast(ToastKind::Danger, e);
}

fn check(app: &mut App, request: Request, failure: Option<String>)
    ensures
        final(app)@ == old(app)@.checked(request, text::opt_view(failure)),
{
    reveal(AppView::checked);
    match request {
        Request::CheckLoginName(name) => match failure {
            None => setup::want_login(app, name, true),
            Some(e) => refuse(app, e.as_str()),
        },
        Request::CheckNewName(name) => match failure {
            None => setup::create_checked_account(app, name),
            Some(e) => refuse(app, e.as_str()),
        },
        Request::CheckRename { old_name, new_name } => match failure {
            None => app.ask(Request::RenameProfile { old_name, new_name }),
            Some(e) => refuse(app, e.as_str()),
        },
        Request::CheckCaptureName(_) => {
            if let Some(e) = failure {
                refuse(app, e.as_str());
            }
        },
        Request::CaptureBegin(_) | Request::CaptureForOwner(_) | Request::CaptureForTarget(_) => {
            if let Some(e) = failure {
                session::fail_capture(app, e.as_str());
            }
        },
        _ => {},
    }
}

fn finish_edit(app: &mut App, request: Request, failure: Option<String>)
    ensures
        final(app)@ == old(app)@.edited(request, text::opt_view(failure)),
{
    reveal(AppView::edited);
    match request {
        Request::RenameProfile { old_name, new_name } => setup::finish_rename(
            app,
            old_name.as_str(),
            new_name.as_str(),
            failure,
        ),
        Request::EditEndpoint { name, field, .. } => setup::finish_endpoint(
            app,
            name.as_str(),
            field,
            failure,
        ),
        Request::EditModel { name, field, .. } => setup::finish_model_edit(
            app,
            name.as_str(),
            field,
            failure,
        ),
        Request::EnvSetValue { name, index, .. } => setup::finish_env_value(
            app,
            name.as_str(),
            index,
            failure,
        ),
        Request::EnvAddKey { name, key, .. } => setup::finish_env_add(
            app,
            name.as_str(),
            key.as_str(),
            failure,
        ),
        Request::EnvRemove { key, .. } => setup::finish_env_remove(app, key.as_str(), failure),
        Request::CreateProfile { name, discarded, .. } => setup::finish_create(
            app,
            name.as_str(),
            discarded,
            failure,
        ),
        Request::SaveAutoStart { name, on } => setup::finish_auto_start(
            app,
            name.as_str(),
            on,
            failure,
        ),
        Request::SaveLastResort { name, on } => chain::finish_last_resort(app, name, on, failure),
        Request::CommitThreshold { .. } => chain::finish_threshold_commit(app, failure),
        Request::CommitWeekly(_) => settings::finish_weekly_commit(app, failure.is_none()),
        _ => check(app, request, failure),
    }
}

fn finish_store(app: &mut App, request: Request, failure: Option<String>)
    ensures
        final(app)@ == old(app)@.stored(request, text::opt_view(failure)),
{
    reveal(AppView::stored);
    match request {
        Request::CaptureInto { name, .. } => session::finish_capture_into(
            app,
            name.as_str(),
            failure,
        ),
        Request::OverwriteWith { name, .. } => session::finish_overwrite(
            app,
            name.as_str(),
            failure,
        ),
        Request::LoginInto { name, .. } => session::finish_login_into(app, name.as_str(), failure),
        Request::AdoptInto { name, .. } => session::finish_adopt_store(
            app,
            name.as_str(),
            failure,
        ),
        Request::SaveAdopted(name) => session::finish_adopt_save(app, name.as_str(), failure),
        Request::LinkAdopted(name) => session::finish_adopt_link(app, name.as_str(), failure),
        Request::AdoptFirstLogin(active) => session::finish_first_login(
            app,
            active.as_str(),
            failure,
        ),
        Request::StepThreshold { .. } => chain::finish_threshold_step(app, failure),
        _ => finish_edit(app, request, failure),
    }
}

fn conclude(app: &mut App, request: Request, failure: Option<String>)
    ensures
        final(app)@ == old(app)@.concluded(request, text::opt_view(failure)),
{
    reveal(AppView::concluded);
    match request {
        Request::OpenIncident(_) => nav::finish_open_incident(app, failure.is_some()),
        Request::OpenLogin(_) => dialogs::finish_open_login(app, failure.is_some()),
        Request::SwitchProfile(name) => session::finish_switch(app, name.as_str(), failure),
        Request::SwitchOff => session::finish_switch_off(app, failure),
        Request::DeleteProfile { name, .. } => setup::finish_delete(app, name.as_str(), failure),
        Request::ReorderProfile { from, to } => session::finish_reorder(app, from, to, failure),
        Request::SnapshotActive(active) => session::finish_snapshot(
            app,
            active.as_str(),
            failure,
        ),
        Request::LinkOverwritten(active) => session::finish_overwrite_link(
            app,
            active.as_str(),
            failure,
        ),
        Request::LinkDiscarded(active) => session::finish_discard(app, active.as_str(), failure),
        Request::LinkRepaired(name) => dialogs::finish_relink(app, name.as_str(), failure),
        Request::WireMcp => dialogs::finish_wire(app, failure),
        Request::ClearCredentials(name) => dialogs::finish_logout(app, name.as_str(), failure),
        Request::ClearApiKey(name) => dialogs::finish_logout(app, name.as_str(), failure),
        _ => finish_store(app, request, failure),
    }
}

fn tell_name(app: &mut App, request: Request, name: Option<String>)
    requires
        old(app)@.config.profiles.len() < usize::MAX,
    ensures
        final(app)@ == old(app)@.told_name(request, text::opt_view(name)),
{
    reveal(AppView::told_name);
    match request {
        Request::FindOwner(active) => session::open_divergence_modal(app, active.as_str(), name),
        Request::NoteOwner { active, fingerprint } => session::finish_note_owner(
            app,
            active.as_str(),
            fingerprint,
            name,
        ),
        Request::MatchLive => session::finish_target_picker(app, name),
        Request::CheckCaptureName(_) => dialogs::finish_capture_name(app, name),
        _ => {},
    }
}

fn tell_link(app: &mut App, request: Request, state: Option<LinkState>, first_login: bool)
    ensures
        final(app)@ == old(app)@.told_link(request, state, first_login),
{
    reveal(AppView::told_link);
    match request {
        Request::ReadLink(active) => session::finish_link_read(
            app,
            active.as_str(),
            state,
            first_login,
        ),
        Request::GuardSwitch { active, name } => session::finish_guard(
            app,
            active.as_str(),
            name.as_str(),
            state,
            first_login,
        ),
        Request::GuardSwitchOff(active) => session::finish_guard_off(
            app,
            active.as_str(),
            state,
            first_login,
        ),
        _ => {},
    }
}

fn tell_flag(app: &mut App, request: Request, flag: bool)
    ensures
        final(app)@ == old(app)@.told_flag(request, flag),
{
    reveal(AppView::told_flag);
    match request {
        Request::ProbeBusy => dialogs::finish_rotation_probe(app, flag),
        Request::ProbeRotate(name) => dialogs::finish_single_rotation_probe(app, name, flag),
        Request::ProbeDelete(name) => setup::finish_delete_probe(app, name, flag),
        Request::ProbeDaemon => events::finish_daemon_probe(app, flag),
        Request::CompareLogin(active) => events::finish_compare(app, active, flag),
        _ => {},
    }
}

fn tell_busy(app: &mut App, request: Request, gate: bool, idle: bool)
    ensures
        final(app)@ == old(app)@.told_busy(request, gate, idle),
{
    reveal(AppView::told_busy);
    match request {
        Request::ProbeSwitch(name) => session::finish_switch_probe(app, name.as_str(), gate, idle),
        Request::ProbeAutoSwitch(name) => session::finish_auto_switch_probe(
            app,
            name.as_str(),
            gate,
            idle,
        ),
        _ => {},
    }
}

fn tell_capture(
    app: &mut App,
    request: Request,
    slot: u64,
    found: CaptureFacts,
    owner: Option<String>,
)
    ensures
        final(app)@ == old(app)@.told_capture(request, slot, found, text::opt_view(owner)),
{
    reveal(AppView::told_capture);
    match request {
        Request::CaptureBegin(d) => session::finish_capture(app, d, slot, found, owner),
        Request::CaptureForOwner(o) => session::finish_owner_capture(app, o, slot, found),
        Request::CaptureForTarget(t) => session::finish_target_capture(app, t, slot, found),
        _ => {},
    }
}

fn take_probe(app: &mut App, probe: PluginProbe, forced: bool)
    requires
        plugin::countable_sessions(probe@),
    ensures
        final(app)@ == old(app)@.with_plugin(
            old(app)@.plugin.probed(old(app)@.host, probe@, forced),
        ),
{
    reveal(AppView::with_plugin);
    app.plugin.recompute_plugin_checks(&app.host, probe, forced);
}

/// The sessions of a probe can be counted.
pub open spec fn countable(reply: Reply) -> bool {
    match reply {
        Reply::Probed(p) => plugin::countable_sessions(p@),
        _ => true,
    }
}

/// Takes the answer to a request.
pub fn settle(app: &mut App, request: Request, reply: Reply)
    requires
        old(app)@.config.profiles.len() < usize::MAX,
        countable(reply),
    ensures
        final(app)@ == old(app)@.settled(request, reply),
{
    reveal(AppView::settled);
    match reply {
        Reply::Done => conclude(app, request, None),
        Reply::Failed(e) => conclude(app, request, Some(e)),
        Reply::Invalid => {},
        Reply::Flag(f) => tell_flag(app, request, f),
        Reply::Name(n) => tell_name(app, request, n),
        Reply::Fingerprint(f) => match request {
            Request::ReadFingerprint(active) => session::note_divergence(app, active.as_str(), f),
            _ => {},
        },
        Reply::Link { state, first_login } => tell_link(app, request, state, first_login),
        Reply::Busy { gate, idle } => tell_busy(app, request, gate, idle),
        Reply::Captured { slot, found, owner } => tell_capture(app, request, slot, found, owner),
        Reply::Collision(c) => match request {
            Request::ClassifyEnv { name, key } => setup::finish_env_classify(app, name, key, c),
            _ => {},
        },
        Reply::Saved(saved) => match request {
            Request::SaveCleared(names) => chain::finish_clearing(app, names, saved),
            _ => {},
        },
        Reply::Switched(switch) => match request {
            Request::StartupSwitch => events::finish_startup_switch(app, switch),
            _ => {},
        },
        Reply::Probed(p) => match request {
            Request::ProbePlugin { forced, .. } => take_probe(app, p, forced),
            _ => {},
        },
    }
}

} // verus!
