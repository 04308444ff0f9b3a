//! What a switch of accounts, and a live login that does not match, promise.

use vstd::prelude::*;

use crate::forms::ToastKind;
use crate::key::KeyCode;
use crate::laws;
use crate::model::DivergenceChoice;
use crate::plugin::LinkState;
use crate::requests::{Reply, Request, RequestView};
use crate::session::AuthGateView;
use crate::state::AppView;

verus! {

/// A confirmed switch that finds nothing in flight goes on to the check of that account's login
/// and says nothing; one that finds another switch in flight, or the account at work, starts
/// nothing and warns.
pub proof fn switches_start_when_idle(s: AppView, name: String, gate: bool, idle: bool)
    requires
        s.config.state.active_profile != Some(name@),
    ensures
        ({
            let t = s.settled(Request::ProbeSwitch(name), Reply::Busy { gate, idle });
            &&& !gate && idle ==> t == AppView {
                requests: s.requests.push(RequestView::RunGate(name@)),
                ..s
            }
            &&& gate || !idle ==> laws::only_told(s, t, ToastKind::Warning)
        }),
{
    reveal(AppView::settled);
    reveal(AppView::told_busy);
    reveal(AppView::switch_probed);
    reveal(AppView::switch_begun);
    reveal(AppView::asked);
    reveal(AppView::toasted);
}

/// A switch that the scheduler wants is announced and checked only when nothing is in flight;
/// otherwise it leaves no trace.
pub proof fn automatic_switches_start_when_idle(s: AppView, name: String, gate: bool, idle: bool)
    requires
        s.config.state.active_profile != Some(name@),
    ensures
        ({
            let t = s.settled(Request::ProbeAutoSwitch(name), Reply::Busy { gate, idle });
            &&& gate || !idle ==> t == s
            &&& !gate && idle ==> {
                &&& t.requests == s.requests.push(RequestView::RunGate(name@))
                &&& t.config == s.config
                &&& t.modals == s.modals
                &&& laws::told(t, ToastKind::Warning)
            }
        }),
{
    reveal(AppView::settled);
    reveal(AppView::told_busy);
    reveal(AppView::auto_switch_probed);
    reveal(AppView::switch_begun);
    reveal(AppView::asked);
    reveal(AppView::toasted);
    reveal(AppView::tab_marked);
    reveal(AppView::on);
}

/// A switch to the account that is active already needs no check: it runs at once.
pub proof fn switching_to_the_active_account_needs_no_check(s: AppView, name: String)
    requires
        s.config.state.active_profile == Some(name@),
    ensures
        s.settled(Request::ProbeSwitch(name), Reply::Busy { gate: false, idle: true }) == (AppView {
            requests: s.requests.push(RequestView::SwitchProfile(name@)),
            ..s
        }),
{
    reveal(AppView::settled);
    reveal(AppView::told_busy);
    reveal(AppView::switch_probed);
    reveal(AppView::switch_begun);
    reveal(AppView::switch_finalized);
    reveal(AppView::asked);
}

/// The verdict on the login decides: a usable one lets the switch go on, one that was refreshed
/// has the tokens read again, and a broken or unreachable one stops the switch with an error.
/// Either way the account is no longer marked at work.
pub proof fn verdicts_decide_the_switch(
    s: AppView,
    active: Seq<char>,
    name: Seq<char>,
    gate: AuthGateView,
)
    requires
        s.config.state.active_profile == Some(active),
        active != name,
    ensures
        ({
            let t = s.gate_answered(name, gate);
            let cleared = s.requests.push(RequestView::ClearActivity(name));
            let guard = RequestView::GuardSwitch { active, name };
            &&& gate is Ready ==> t == AppView { requests: cleared.push(guard), ..s }
            &&& gate is Refreshed ==> t == AppView {
                requests: cleared.push(RequestView::RefreshTokens).push(guard),
                ..s
            }
            &&& gate is Broken || gate is Transient ==> {
                &&& t == AppView { requests: cleared, toasts: t.toasts, ..s }
                &&& laws::told(t, ToastKind::Danger)
            }
        }),
{
    reveal(AppView::gate_answered);
    reveal(AppView::switch_finalized);
    reveal(AppView::asked);
    reveal(AppView::toasted);
}

/// With no active account there is nothing to lose: a usable login switches at once.
pub proof fn first_switches_are_not_guarded(s: AppView, name: Seq<char>)
    requires
        s.config.state.active_profile is None,
    ensures
        s.gate_answered(name, AuthGateView::Ready).requests == s.requests.push(
            RequestView::ClearActivity(name),
        ).push(RequestView::SwitchProfile(name)),
{
    reveal(AppView::gate_answered);
    reveal(AppView::switch_finalized);
    reveal(AppView::asked);
}

/// The guard lets a switch through exactly when the outgoing account's login is saved: a live
/// login that differs, and is no first login, is warned of and looked up instead.
pub proof fn guards_protect_unsaved_logins(
    s: AppView,
    active: String,
    name: String,
    state: Option<LinkState>,
    first_login: bool,
)
    ensures
        ({
            let t = s.settled(
                Request::GuardSwitch { active, name },
                Reply::Link { state, first_login },
            );
            let off = s.settled(Request::GuardSwitchOff(active), Reply::Link { state, first_login });
            let differs = state == Some(LinkState::Diverged) && !first_login;
            &&& !differs ==> t == AppView {
                requests: s.requests.push(RequestView::SwitchProfile(name@)),
                ..s
            }
            &&& !differs ==> off == AppView { requests: s.requests.push(RequestView::SwitchOff), ..s }
            &&& differs ==> {
                &&& t == AppView {
                    requests: s.requests.push(RequestView::ClearActivity(name@)).push(
                        RequestView::FindOwner(active@),
                    ),
                    toasts: t.toasts,
                    ..s
                }
                &&& off == AppView {
                    requests: s.requests.push(RequestView::FindOwner(active@)),
                    toasts: off.toasts,
                    ..s
                }
                &&& laws::told(t, ToastKind::Warning)
                &&& laws::told(off, ToastKind::Warning)
            }
        }),
{
    reveal(AppView::settled);
    reveal(AppView::told_link);
    reveal(AppView::switch_guarded);
    reveal(AppView::switch_off_guarded);
    reveal(AppView::divergence_prompted);
    reveal(AppView::asked);
    reveal(AppView::toasted);
}

/// Switching off asks about the active account's login, and there is nothing to switch off
/// without one.
pub proof fn switching_off_looks_at_the_active_login(s: AppView)
    ensures
        match s.config.state.active_profile {
            None => s.switch_off_begun() == s,
            Some(active) => s.switch_off_begun() == (AppView {
                requests: s.requests.push(RequestView::GuardSwitchOff(active)),
                ..s
            }),
        },
{
    reveal(AppView::switch_off_begun);
    reveal(AppView::asked);
}

/// A switch that went through has the tokens read again and the settings' time noted; one that
/// failed only says so. The account is no longer marked at work either way.
pub proof fn finished_switches_reload_tokens(s: AppView, name: String, e: String)
    ensures
        ({
            let done = s.settled(Request::SwitchProfile(name), Reply::Done);
            let failed = s.settled(Request::SwitchProfile(name), Reply::Failed(e));
            let cleared = s.requests.push(RequestView::ClearActivity(name@));
            &&& done == AppView {
                requests: cleared.push(RequestView::RefreshTokens).push(RequestView::NoteStateTime),
                toasts: done.toasts,
                ..s
            }
            &&& laws::told(done, ToastKind::Success)
            &&& failed == AppView { requests: cleared, toasts: failed.toasts, ..s }
            &&& laws::told(failed, ToastKind::Danger)
        }),
{
    reveal(AppView::settled);
    reveal(AppView::concluded);
    reveal(AppView::switched);
    reveal(AppView::asked);
    reveal(AppView::toasted);
}

/// Switching off that went through has the tokens read again and warns; a failure only says so.
pub proof fn finished_switch_offs_reload_tokens(s: AppView, e: String)
    ensures
        ({
            let done = s.settled(Request::SwitchOff, Reply::Done);
            let failed = s.settled(Request::SwitchOff, Reply::Failed(e));
            &&& done == AppView {
                requests: s.requests.push(RequestView::RefreshTokens).push(
                    RequestView::NoteStateTime,
                ),
                toasts: done.toasts,
                ..s
            }
            &&& laws::told(done, ToastKind::Warning)
            &&& laws::only_told(s, failed, ToastKind::Danger)
        }),
{
    reveal(AppView::settled);
    reveal(AppView::concluded);
    reveal(AppView::switched_off);
    reveal(AppView::asked);
    reveal(AppView::toasted);
}

/// Choosing an account that is not the active one opens one dialog about it and starts nothing;
/// answering it with enter starts that account's switch, and answering no starts nothing.
pub proof fn switches_are_confirmed(s: AppView, idx: usize)
    requires
        idx < s.config.profiles.len(),
        s.config.state.active_profile != Some(s.config.profiles[idx as int].name),
    ensures
        ({
            let t = s.switch_requested(idx);
            let name = s.config.profiles[idx as int].name;
            &&& t.modals.len() == s.modals.len() + 1
            &&& t == AppView { modals: t.modals, ..s }
            &&& t.keyed(laws::pressed(KeyCode::Enter)) == AppView {
                requests: s.requests.push(RequestView::ProbeSwitch(name)),
                ..s
            }
            &&& t.keyed(laws::pressed(KeyCode::Char('n'))).keyed(laws::pressed(KeyCode::Enter)) == s
            &&& t.keyed(laws::pressed(KeyCode::Esc)) == s
        }),
{
    reveal(AppView::switch_requested);
    reveal(AppView::with_modal);
    reveal(AppView::asked);
    reveal(AppView::confirm_run);
    let t = s.switch_requested(idx);
    laws::dialogs_take_the_answer(s, t);
}

/// Choosing the active account, or none, does nothing.
pub proof fn the_active_account_is_left_alone(s: AppView, idx: usize)
    requires
        idx >= s.config.profiles.len() || s.config.state.active_profile == Some(
            s.config.profiles[idx as int].name,
        ),
    ensures
        s.switch_requested(idx) == s,
{
    reveal(AppView::switch_requested);
}

/// Keeping the live login first stores it in the active account, with no dialog; only once it is
/// stored is the link restored, and only then are the tokens read again.
pub proof fn kept_logins_are_stored_before_linking(s: AppView, active: String, e: String)
    ensures
        ({
            let t = s.divergence_chosen(active@, DivergenceChoice::Overwrite);
            &&& t == AppView {
                requests: s.requests.push(RequestView::SnapshotActive(active@)),
                ..s
            }
            &&& s.settled(Request::SnapshotActive(active), Reply::Done) == AppView {
                requests: s.requests.push(RequestView::LinkOverwritten(active@)),
                ..s
            }
            &&& laws::only_told(
                s,
                s.settled(Request::SnapshotActive(active), Reply::Failed(e)),
                ToastKind::Danger,
            )
            &&& s.settled(Request::LinkOverwritten(active), Reply::Done).requests
                == s.requests.push(RequestView::RefreshTokens)
            &&& laws::told(
                s.settled(Request::LinkOverwritten(active), Reply::Done),
                ToastKind::Success,
            )
            &&& laws::only_told(
                s,
                s.settled(Request::LinkOverwritten(active), Reply::Failed(e)),
                ToastKind::Danger,
            )
        }),
{
    reveal(AppView::divergence_chosen);
    reveal(AppView::settled);
    reveal(AppView::concluded);
    reveal(AppView::active_snapshot);
    reveal(AppView::overwrite_linked);
    reveal(AppView::asked);
    reveal(AppView::toasted);
}

/// No choice about a live login throws it away: discarding opens one dialog that stands on no,
/// and only a yes to it restores the stored login over the live one.
pub proof fn live_logins_are_discarded_on_a_yes_only(
    s: AppView,
    active: Seq<char>,
    choice: DivergenceChoice,
)
    ensures
        ({
            let t = s.divergence_chosen(active, choice);
            &&& forall|name: Seq<char>|
                t.requests.contains(RequestView::LinkDiscarded(name)) ==> s.requests.contains(
                    RequestView::LinkDiscarded(name),
                )
            &&& choice == DivergenceChoice::Discard ==> {
                &&& t.modals.len() == s.modals.len() + 1
                &&& t == AppView { modals: t.modals, ..s }
                &&& t.keyed(laws::pressed(KeyCode::Enter)) == s
                &&& t.keyed(laws::pressed(KeyCode::Char('y'))).keyed(laws::pressed(KeyCode::Enter))
                    == AppView { requests: s.requests.push(RequestView::LinkDiscarded(active)), ..s }
            }
        }),
{
    reveal(AppView::divergence_chosen);
    reveal(AppView::targets_wanted);
    reveal(AppView::with_modal);
    reveal(AppView::asked);
    let t = s.divergence_chosen(active, choice);
    if choice == DivergenceChoice::Discard {
        reveal(AppView::confirm_run);
        laws::dialogs_take_the_answer(s, t);
    } else {
        assert forall|name: Seq<char>|
            t.requests.contains(RequestView::LinkDiscarded(name)) implies s.requests.contains(
            RequestView::LinkDiscarded(name),
        ) by {
            let k = choose|k: int|
                0 <= k < t.requests.len() && t.requests[k] == RequestView::LinkDiscarded(name);
            assert(t.requests.last() !is LinkDiscarded);
            assert(s.requests[k] == t.requests[k]);
        }
    }
}

/// A discarded login is warned of; a failure is said.
pub proof fn discards_are_told(s: AppView, active: String, e: String)
    ensures
        laws::only_told(
            s,
            s.settled(Request::LinkDiscarded(active), Reply::Done),
            ToastKind::Warning,
        ),
        laws::only_told(
            s,
            s.settled(Request::LinkDiscarded(active), Reply::Failed(e)),
            ToastKind::Danger,
        ),
{
    reveal(AppView::settled);
    reveal(AppView::concluded);
    reveal(AppView::discard_linked);
    reveal(AppView::toasted);
}

} // verus!
