//! What logging in, capturing a live login and logging out promise.

use vstd::prelude::*;

use crate::forms;
use crate::forms::{
    CaptureNameFormView, ConfigRow, ConfirmActionView, DivergenceActionView, DivergenceFormView,
    DivergenceTargetFormView, LoginSessionView, ModalView, ToastKind,
};
use crate::key::KeyCode;
use crate::laws;
use crate::model::DivergenceChoice;
use crate::plugin::LinkState;
use crate::requests::{CaptureFacts, Reply, Request, RequestView};
use crate::session;
use crate::session::LoginEventView;
use crate::settings;
use crate::state::AppView;
use crate::text;

verus! {

/// Closing the login dialog closes it alone: every other dialog stays.
pub proof fn only_the_login_dialog_closes(s: AppView, m: ModalView)
    ensures
        s.login_modal_closed() == (AppView { modals: s.login_modal_closed().modals, ..s }),
        s.login_modal_closed().modals.contains(m) <==> s.modals.contains(m) && m !is Login,
{
    reveal(AppView::login_modal_closed);
    let keep = session::other_modal();
    let out = s.modals.filter(keep);
    if out.contains(m) {
        let i = choose|i: int| 0 <= i < out.len() && out[i] == m;
        s.modals.lemma_filter_pred(keep, i);
        s.modals.lemma_filter_contains_rev(keep, m);
    }
    if s.modals.contains(m) && m !is Login {
        let i = choose|i: int| 0 <= i < s.modals.len() && s.modals[i] == m;
        s.modals.lemma_filter_contains(keep, i);
    }
}

/// A login of an account that has a stored login replaces it only after a yes: unless replacing
/// is the configured choice, the end of the login starts nothing and puts one dialog on top,
/// which stands on no. An account without a stored login takes the new one at once.
pub proof fn relogins_ask_before_replacing(s: AppView, i: int, slot: u64)
    requires
        s.login is Some,
        !s.login->0.is_new,
        laws::first_named(s.config, s.login->0.name, i),
    ensures
        ({
            let name = s.login->0.name;
            let t = s.login_ended(s.login->0.generation, Ok(slot));
            let stored = s.config.profiles[i].facts.has_credentials;
            let closed = s.login_modal_closed().modals;
            let silent = s.config.state.default_divergence == Some(DivergenceChoice::Overwrite);
            &&& stored && !silent ==> {
                &&& t == AppView { login: None, modals: t.modals, ..s }
                &&& t.modals.drop_last() == closed
                &&& t.modals.last() is Confirm
                &&& t.modals.last()->Confirm_0.on_confirm == ConfirmActionView::CaptureOverwrite(
                    slot,
                    name,
                    false,
                )
                &&& t.keyed(laws::pressed(KeyCode::Enter)).requests == s.requests
                &&& t.keyed(laws::pressed(KeyCode::Char('y'))).keyed(
                    laws::pressed(KeyCode::Enter),
                ) == AppView {
                    login: None,
                    modals: closed,
                    requests: s.requests.push(RequestView::OverwriteWith { name, slot }),
                    ..s
                }
            }
            &&& !stored || silent ==> t == AppView {
                login: None,
                modals: closed,
                requests: s.requests.push(RequestView::LoginInto { name, slot }),
                ..s
            }
        }),
{
    reveal(AppView::login_ended);
    reveal(AppView::login_applied);
    reveal(AppView::relogin_landed);
    reveal(AppView::logging_in);
    reveal(AppView::asked);
    reveal(AppView::confirm_run);
    reveal(AppView::overwrite_confirmed);
    laws::lemma_found(s.config, s.login->0.name, i);
    let name = s.login->0.name;
    let t = s.login_ended(s.login->0.generation, Ok(slot));
    let u = s.logging_in(None).login_modal_closed();
    assert(u.modals == s.login_modal_closed().modals && u == AppView {
        login: None,
        modals: s.login_modal_closed().modals,
        ..s
    }) by {
        reveal(AppView::login_modal_closed);
    }
    if s.config.profiles[i].facts.has_credentials && s.config.state.default_divergence != Some(
        DivergenceChoice::Overwrite,
    ) {
        laws::dialogs_take_the_answer(u, t);
        assert(t.modals.drop_last() =~= u.modals) by {
            reveal(AppView::with_modal);
        }
        assert(t.modals.last()->Confirm_0.on_confirm == ConfirmActionView::CaptureOverwrite(
            slot,
            name,
            false,
        ) && !t.modals.last()->Confirm_0.choice) by {
            reveal(AppView::with_modal);
        }
    }
}

/// A login of an account that is gone stores nothing, and neither does one that failed; both are
/// said, and the dialog closes.
pub proof fn lost_logins_store_nothing(s: AppView, slot: u64, e: Seq<char>)
    requires
        s.login is Some,
    ensures
        ({
            let t = s.login_ended(s.login->0.generation, Ok(slot));
            let f = s.login_ended(s.login->0.generation, Err(e));
            let gone = forall|i: int|
                0 <= i < s.config.profiles.len() ==> (#[trigger] s.config.profiles[i]).name
                    != s.login->0.name;
            let closed = s.login_modal_closed().modals;
            &&& gone && !s.login->0.is_new ==> {
                &&& t == AppView { login: None, modals: closed, toasts: t.toasts, ..s }
                &&& laws::told(t, ToastKind::Danger)
            }
            &&& f == AppView { login: None, modals: closed, toasts: f.toasts, ..s }
            &&& laws::told(f, ToastKind::Danger)
        }),
{
    reveal(AppView::login_ended);
    reveal(AppView::login_applied);
    reveal(AppView::relogin_landed);
    reveal(AppView::logging_in);
    reveal(AppView::login_modal_closed);
    reveal(AppView::toasted);
    let name = s.login->0.name;
    text::lemma_position(s.config.names(), name);
    match s.config.index_of(name) {
        Some(i) => {
            assert(s.config.names()[i] == s.config.profiles[i].name);
        },
        None => {},
    }
}

/// The login of a new account is kept in its form while that form is open, and stores nothing
/// yet; without the form it is lost, which is said.
pub proof fn new_logins_wait_in_the_form(s: AppView, slot: u64)
    requires
        s.login is Some,
        s.login->0.is_new,
    ensures
        ({
            let t = s.login_ended(s.login->0.generation, Ok(slot));
            let open = s.config_draft is Some && s.config_draft->0.editing_name is None;
            &&& t.requests == s.requests
            &&& t.config == s.config
            &&& t.login is None
            &&& open ==> {
                &&& t.config_draft is Some
                &&& t.config_draft->0.captured_login == Some(slot)
                &&& t.config_draft->0.name == s.config_draft->0.name
                &&& t.config_draft->0.editing_name is None
                &&& laws::told(t, ToastKind::Success)
            }
            &&& !open ==> {
                &&& t.config_draft == s.config_draft
                &&& laws::told(t, ToastKind::Warning)
            }
        }),
{
    reveal(AppView::login_ended);
    reveal(AppView::login_applied);
    reveal(AppView::login_stashed);
    reveal(AppView::logging_in);
    reveal(AppView::login_modal_closed);
    reveal(AppView::drafting);
    reveal(AppView::cursor_on);
    reveal(AppView::on);
    reveal(AppView::toasted);
}

/// A login that is started where none is in flight is a new one: no news of an earlier login is
/// taken for its own, it is for the account asked for, and its dialog is shown.
pub proof fn started_logins_are_new(s: AppView, name: Seq<char>, is_new: bool)
    requires
        s.login is None,
    ensures
        ({
            let t = s.login_started(name, is_new);
            &&& t.login is Some
            &&& t.login->0.name == name
            &&& t.login->0.is_new == is_new
            &&& t.login->0.url is None
            &&& t.login->0.generation == t.ui.login_generation
            &&& t.login->0.generation != s.ui.login_generation
            &&& t.requests == s.requests.push(
                RequestView::StartLogin { generation: t.ui.login_generation, name },
            )
            &&& t.shows_login()
            &&& t.config == s.config
        }),
{
    reveal(AppView::login_started);
    reveal(AppView::login_modal_opened);
    reveal(AppView::logging_in);
    reveal(AppView::with_modal);
    reveal(AppView::asked);
    reveal(AppView::on);
    let t = s.login_started(name, is_new);
    if !s.shows_login() {
        assert(t.modals[t.modals.len() - 1] is Login);
    } else {
        let i = choose|i: int| 0 <= i < s.modals.len() && (#[trigger] s.modals[i]) is Login;
        assert(t.modals[i] is Login);
    }
}

/// News of the current login reach it: the page to open, or how far it is, and nothing else
/// changes.
pub proof fn current_logins_take_their_news(s: AppView, event: LoginEventView)
    requires
        s.login is Some,
    ensures
        ({
            let session = s.login->0;
            let t = s.login_advanced(session.generation, event);
            &&& t == AppView { login: t.login, ..s }
            &&& t.login is Some
            &&& match event {
                LoginEventView::Url(url) => t.login->0 == LoginSessionView {
                    url: Some(url),
                    ..session
                },
                LoginEventView::Stage(stage) => t.login->0 == LoginSessionView { stage, ..session },
            }
        }),
{
    reveal(AppView::login_advanced);
    reveal(AppView::logging_in);
}

/// A login stored in an account has the tokens read again and is said; one that could not be
/// stored only says so.
pub proof fn stored_logins_reload_tokens(s: AppView, name: String, slot: u64, e: String)
    ensures
        laws::login_outcome(s, Request::LoginInto { name, slot }, e),
        laws::login_outcome(s, Request::OverwriteWith { name, slot }, e),
{
    reveal(AppView::settled);
    reveal(AppView::concluded);
    reveal(AppView::stored);
    reveal(AppView::login_saved);
    reveal(AppView::asked);
    reveal(AppView::toasted);
}

/// A captured login, or a first one that was kept, has the tokens read again and is said; one that
/// could not be stored only says so.
pub proof fn captured_logins_reload_tokens(s: AppView, name: String, slot: u64, e: String)
    ensures
        laws::login_outcome(s, Request::CaptureInto { name, slot }, e),
        laws::login_outcome(s, Request::AdoptFirstLogin(name), e),
{
    reveal(AppView::settled);
    reveal(AppView::concluded);
    reveal(AppView::stored);
    reveal(AppView::capture_failed);
    reveal(AppView::login_saved);
    reveal(AppView::asked);
    reveal(AppView::toasted);
}

/// An adopted login has the tokens read again once it is linked and is said; a failure only says
/// so.
pub proof fn linked_logins_reload_tokens(s: AppView, name: String, e: String)
    ensures
        laws::login_outcome(s, Request::LinkAdopted(name), e),
{
    reveal(AppView::settled);
    reveal(AppView::concluded);
    reveal(AppView::stored);
    reveal(AppView::adoption_linked);
    reveal(AppView::login_saved);
    reveal(AppView::asked);
    reveal(AppView::toasted);
}

/// A login that was dropped has the tokens read again and is said; a failure only says so.
pub proof fn dropped_logins_reload_tokens(s: AppView, name: String, e: String)
    ensures
        laws::login_outcome(s, Request::ClearCredentials(name), e),
        laws::login_outcome(s, Request::ClearApiKey(name), e),
{
    reveal(AppView::settled);
    reveal(AppView::concluded);
    reveal(AppView::logged_out);
    reveal(AppView::login_saved);
    reveal(AppView::asked);
    reveal(AppView::toasted);
}

/// Adopting a live login makes its account the active one as soon as the login is stored, stores
/// the settings next and restores the link last; nothing else is touched on the way.
pub proof fn adoptions_activate_their_account(s: AppView, name: String, slot: u64)
    ensures
        ({
            let t = s.settled(Request::AdoptInto { name, slot }, Reply::Done);
            &&& t.config.state.active_profile == Some(name@)
            &&& t.config.profiles == s.config.profiles
            &&& t.config.state.fallback_chain == s.config.state.fallback_chain
            &&& t == AppView {
                config: t.config,
                requests: s.requests.push(RequestView::SaveAdopted(name@)),
                ..s
            }
            &&& s.settled(Request::SaveAdopted(name), Reply::Done) == AppView {
                requests: s.requests.push(RequestView::LinkAdopted(name@)),
                ..s
            }
        }),
{
    reveal(AppView::settled);
    reveal(AppView::concluded);
    reveal(AppView::stored);
    reveal(AppView::adoption_stored);
    reveal(AppView::adoption_saved);
    reveal(AppView::activated);
    reveal(AppView::asked);
}

/// A captured login that holds nothing is refused; one that an account holds is asked about, the
/// dialog standing on no; any other asks for a name. Nothing is stored before.
pub proof fn captures_store_nothing_unasked(
    s: AppView,
    d: bool,
    slot: u64,
    found: CaptureFacts,
    owner: Option<String>,
)
    ensures
        ({
            let t = s.settled(Request::CaptureBegin(d), Reply::Captured { slot, found, owner });
            let holds = found.oauth || found.base_url || found.api_key;
            &&& !holds ==> laws::only_told(s, t, ToastKind::Danger)
            &&& holds ==> {
                &&& t == AppView { modals: t.modals, ..s }
                &&& t.modals.len() == s.modals.len() + 1
                &&& t.modals.drop_last() == s.modals
            }
            &&& holds && owner is None ==> laws::asks_for_a_name(t.modals.last(), slot, d)
            &&& holds && owner is Some ==> {
                &&& t.keyed(laws::pressed(KeyCode::Enter)) == s
                &&& laws::asks_for_a_name(
                    t.keyed(laws::pressed(KeyCode::Char('y'))).keyed(
                        laws::pressed(KeyCode::Enter),
                    ).modals.last(),
                    slot,
                    d,
                )
            }
        }),
{
    reveal(AppView::settled);
    reveal(AppView::told_capture);
    reveal(AppView::capture_read);
    reveal(AppView::nothing_captured);
    reveal(AppView::capture_named);
    reveal(AppView::toasted);
    let t = s.settled(Request::CaptureBegin(d), Reply::Captured { slot, found, owner });
    if found.oauth || found.base_url || found.api_key {
        assert(t.modals.drop_last() =~= s.modals) by {
            reveal(AppView::with_modal);
        }
        if owner is Some {
            laws::dialogs_take_the_answer(s, t);
        }
        reveal(AppView::confirm_run);
        reveal(AppView::with_modal);
    }
}

/// A login captured for an account is handed to that account only after a yes; one that holds
/// nothing is refused.
pub proof fn captures_for_an_account_are_confirmed(
    s: AppView,
    name: String,
    slot: u64,
    found: CaptureFacts,
    owner: Option<String>,
)
    ensures
        ({
            let t = s.settled(
                Request::CaptureForOwner(name),
                Reply::Captured { slot, found, owner },
            );
            let u = s.settled(
                Request::CaptureForTarget(name),
                Reply::Captured { slot, found, owner },
            );
            let holds = found.oauth || found.base_url || found.api_key;
            let adopted = AppView {
                requests: s.requests.push(RequestView::AdoptInto { name: name@, slot }),
                ..s
            };
            &&& !holds ==> laws::only_told(s, t, ToastKind::Danger)
            &&& !holds ==> laws::only_told(s, u, ToastKind::Danger)
            &&& holds ==> {
                &&& t.requests == s.requests
                &&& u.requests == s.requests
                &&& t.keyed(laws::pressed(KeyCode::Enter)) == s
                &&& u.keyed(laws::pressed(KeyCode::Enter)) == s
                &&& t.keyed(laws::pressed(KeyCode::Char('y'))).keyed(
                    laws::pressed(KeyCode::Enter),
                ) == adopted
                &&& u.keyed(laws::pressed(KeyCode::Char('y'))).keyed(
                    laws::pressed(KeyCode::Enter),
                ) == adopted
            }
        }),
{
    reveal(AppView::settled);
    reveal(AppView::told_capture);
    reveal(AppView::owner_capture_read);
    reveal(AppView::target_capture_read);
    reveal(AppView::nothing_captured);
    reveal(AppView::toasted);
    reveal(AppView::asked);
    let t = s.settled(Request::CaptureForOwner(name), Reply::Captured { slot, found, owner });
    let u = s.settled(Request::CaptureForTarget(name), Reply::Captured { slot, found, owner });
    if found.oauth || found.base_url || found.api_key {
        laws::dialogs_take_the_answer(s, t);
        laws::dialogs_take_the_answer(s, u);
        reveal(AppView::confirm_run);
        reveal(AppView::with_modal);
    }
}

/// The typed name decides where a captured login goes: a free one gets the login, and an
/// account's own is asked about first. A login that came out of a mismatch gives the active
/// account up before it is stored, and only once it is to be stored.
pub proof fn captured_logins_go_where_named(
    s: AppView,
    f: CaptureNameFormView,
    typed: String,
    holder: Option<String>,
)
    requires
        s.modals.len() > 0,
        s.modals.last() == ModalView::CaptureName(f),
    ensures
        ({
            let t = s.settled(Request::CheckCaptureName(typed), Reply::Name(holder));
            let stays = s.config;
            let given = t.config;
            &&& given.profiles == stays.profiles
            &&& given.state.fallback_chain == stays.state.fallback_chain
            &&& holder is None && !f.from_divergence ==> t == AppView {
                modals: s.modals.drop_last(),
                requests: s.requests.push(
                    RequestView::CaptureInto { name: f.input.trimmed(), slot: f.slot },
                ),
                ..s
            }
            &&& holder is None && f.from_divergence ==> {
                &&& given.state.active_profile is None
                &&& t.requests == s.requests.push(RequestView::DetachLink).push(
                    RequestView::SaveState,
                ).push(RequestView::CaptureInto { name: f.input.trimmed(), slot: f.slot })
            }
            &&& holder is Some ==> {
                let yes = t.keyed(laws::pressed(KeyCode::Char('y'))).keyed(
                    laws::pressed(KeyCode::Enter),
                );
                let write = RequestView::OverwriteWith { name: holder->0@, slot: f.slot };
                &&& t.requests == s.requests
                &&& given == stays
                &&& t.keyed(laws::pressed(KeyCode::Enter)).requests == s.requests
                &&& t.keyed(laws::pressed(KeyCode::Enter)).config == stays
                &&& !f.from_divergence ==> yes.requests == s.requests.push(write) && yes.config
                    == stays
                &&& f.from_divergence ==> {
                    &&& yes.config.state.active_profile is None
                    &&& yes.requests == s.requests.push(RequestView::DetachLink).push(
                        RequestView::SaveState,
                    ).push(write)
                }
            }
        }),
{
    reveal(AppView::settled);
    reveal(AppView::told_name);
    reveal(AppView::capture_name_checked);
    reveal(AppView::capture_name_taken);
    reveal(AppView::without_modal);
    reveal(AppView::detached);
    reveal(AppView::asked);
    let t = s.settled(Request::CheckCaptureName(typed), Reply::Name(holder));
    if holder is Some {
        laws::dialogs_take_the_answer(s.without_modal(), t);
        reveal(AppView::confirm_run);
        reveal(AppView::overwrite_confirmed);
        reveal(AppView::with_modal);
    }
}

/// Logging out drops what the account logs in with, after a yes: the token pair of an account
/// that logs in through the browser, the key of any other.
pub proof fn logging_out_drops_the_login(s: AppView, i: int)
    requires
        s.config_draft is Some,
        s.config_draft->0.editing_name is Some,
        laws::first_named(s.config, s.config_draft->0.editing_name->0, i),
    ensures
        ({
            let name = s.config_draft->0.editing_name->0;
            let t = s.config_row_run(ConfigRow::DeleteCreds);
            &&& t.requests == s.requests
            &&& t.keyed(laws::pressed(KeyCode::Enter)) == s
            &&& t.keyed(laws::pressed(KeyCode::Char('y'))).keyed(laws::pressed(KeyCode::Enter))
                == AppView {
                requests: s.requests.push(
                    if s.config.profiles[i].facts.login_is_oauth {
                        RequestView::ClearCredentials(name)
                    } else {
                        RequestView::ClearApiKey(name)
                    },
                ),
                ..s
            }
        }),
{
    reveal(AppView::config_row_run);
    reveal(AppView::logout_asked);
    reveal(AppView::asked);
    let name = s.config_draft->0.editing_name->0;
    laws::lemma_found(s.config, name, i);
    let t = s.config_row_run(ConfigRow::DeleteCreds);
    laws::dialogs_take_the_answer(s, t);
    reveal(AppView::confirm_run);
    reveal(AppView::logout_confirmed);
    reveal(AppView::with_modal);
}

/// A first login is kept by the active account; any other live login that differs is
/// fingerprinted; one that does not differ is forgotten.
pub proof fn looks_follow_the_link(
    s: AppView,
    active: String,
    state: Option<LinkState>,
    first_login: bool,
)
    ensures
        ({
            let t = s.settled(Request::ReadLink(active), Reply::Link { state, first_login });
            let differs = state == Some(LinkState::Diverged);
            &&& !differs ==> t == AppView { divergence_pending: None, ..s }
            &&& differs && first_login ==> t == AppView {
                requests: s.requests.push(RequestView::AdoptFirstLogin(active@)),
                ..s
            }
            &&& differs && !first_login ==> t == AppView {
                requests: s.requests.push(RequestView::ReadFingerprint(active@)),
                ..s
            }
        }),
{
    reveal(AppView::settled);
    reveal(AppView::told_link);
    reveal(AppView::link_read);
    reveal(AppView::noticing);
    reveal(AppView::asked);
}

/// A live login that no other account owns is resolved by the configured choice, and stays noted
/// where none is configured.
pub proof fn configured_choices_resolve_own_logins(
    s: AppView,
    active: String,
    fingerprint: Option<u64>,
)
    ensures
        ({
            let t = s.settled(
                Request::NoteOwner { active, fingerprint },
                Reply::Name(None),
            );
            &&& s.config.state.default_divergence is None ==> {
                &&& t == AppView { divergence_pending: t.divergence_pending, ..s }
                &&& t.divergence_pending is Some
                &&& t.divergence_pending->0.active == active@
                &&& t.divergence_pending->0.sibling is None
                &&& t.divergence_pending->0.fingerprint == fingerprint
            }
            &&& s.config.state.default_divergence == Some(DivergenceChoice::Overwrite) ==> t
                == AppView {
                divergence_pending: None,
                requests: s.requests.push(RequestView::SnapshotActive(active@)),
                ..s
            }
            &&& s.config.state.default_divergence == Some(DivergenceChoice::Discard) ==> {
                &&& t.divergence_pending is None
                &&& t.requests == s.requests
                &&& t.modals.len() == s.modals.len() + 1
                &&& t.modals.last() is Confirm
                &&& t.modals.last()->Confirm_0.on_confirm == ConfirmActionView::DiscardDivergence(
                    active@,
                )
            }
        }),
{
    reveal(AppView::settled);
    reveal(AppView::told_name);
    reveal(AppView::owner_noted);
    reveal(AppView::divergence_settled);
    reveal(AppView::divergence_chosen);
    reveal(AppView::noticing);
    reveal(AppView::with_modal);
    reveal(AppView::asked);
}

/// A login that was looked at before is not looked up again: only one with another account or
/// another fingerprint is.
pub proof fn known_logins_are_not_looked_up(s: AppView, active: String, fingerprint: Option<u64>)
    ensures
        ({
            let t = s.settled(
                Request::ReadFingerprint(active),
                Reply::Fingerprint(fingerprint),
            );
            let known = s.divergence_pending is Some && s.divergence_pending->0.active == active@
                && s.divergence_pending->0.fingerprint == fingerprint;
            &&& !known ==> t == AppView {
                requests: s.requests.push(RequestView::NoteOwner { active: active@, fingerprint }),
                ..s
            }
            &&& known && (s.divergence_pending->0.sibling is Some
                || s.config.state.default_divergence is None) ==> t == s
        }),
{
    reveal(AppView::settled);
    reveal(AppView::fingerprint_read);
    reveal(AppView::divergence_settled);
    reveal(AppView::asked);
}

/// The prompt about a live login offers its owner first where another account owns it, then
/// keeping it, saving it elsewhere and discarding it; each row does what it says.
pub proof fn prompts_offer_every_way_out(s: AppView, active: String, owner: Option<String>)
    ensures
        ({
            let t = s.settled(Request::FindOwner(active), Reply::Name(owner));
            let other = owner is Some && owner->0@ != active@;
            &&& t == AppView { modals: t.modals, ..s }
            &&& t.modals.drop_last() == s.modals
            &&& t.modals.last() is Divergence
            &&& t.modals.last()->Divergence_0.active == active@
            &&& t.modals.last()->Divergence_0.cursor == 0
            &&& t.modals.last()->Divergence_0.sibling is Some <==> other
            &&& other ==> t.keyed(laws::pressed(KeyCode::Enter)) == AppView {
                requests: s.requests.push(RequestView::CaptureForOwner(owner->0@)),
                ..s
            }
            &&& !other ==> t.keyed(laws::pressed(KeyCode::Enter)) == AppView {
                requests: s.requests.push(RequestView::SnapshotActive(active@)),
                ..s
            }
            &&& t.keyed(laws::pressed(KeyCode::Esc)) == s
        }),
{
    reveal(AppView::settled);
    reveal(AppView::told_name);
    reveal(AppView::divergence_opened);
    reveal(AppView::with_modal);
    reveal(AppView::without_modal);
    reveal(AppView::keyed);
    reveal(AppView::modal_keyed);
    reveal(AppView::divergence_form_keyed);
    reveal(AppView::divergence_picked);
    reveal(AppView::divergence_chosen);
    reveal(AppView::asked);
    reveal(settings::row_clamped);
    let t = s.settled(Request::FindOwner(active), Reply::Name(owner));
    assert(t.modals.drop_last() =~= s.modals);
    assert(t.without_modal() == s);
    let f = t.modals.last()->Divergence_0;
    let actions = forms::divergence_actions(f.sibling);
    assert(f.sibling is None ==> actions[0] == DivergenceActionView::Choice(
        DivergenceChoice::Overwrite,
    ));
    assert(f.sibling is Some ==> actions[0] == DivergenceActionView::SwitchToOwner(f.sibling->0));
}

/// The rows of the prompt stand in order: keep, save elsewhere, discard, after the owner where
/// there is one.
pub proof fn prompt_rows_are_in_order(sibling: Option<Seq<char>>)
    ensures
        ({
            let v = forms::divergence_actions(sibling);
            let n = if sibling is Some {
                1int
            } else {
                0int
            };
            &&& v.len() == n + 3
            &&& sibling is Some ==> v[0] == DivergenceActionView::SwitchToOwner(sibling->0)
            &&& v[n] == DivergenceActionView::Choice(DivergenceChoice::Overwrite)
            &&& v[n + 1] == DivergenceActionView::Choice(DivergenceChoice::NewProfile)
            &&& v[n + 2] == DivergenceActionView::Choice(DivergenceChoice::Discard)
        }),
{
}

/// A row of the prompt under the cursor is the one that enter and space run.
pub proof fn prompts_run_the_row_under_the_cursor(s: AppView, f: DivergenceFormView)
    requires
        s.modals.len() > 0,
        s.modals.last() == ModalView::Divergence(f),
        f.cursor < forms::divergence_actions(f.sibling).len(),
    ensures
        ({
            let u = AppView { modals: s.modals.drop_last(), ..s };
            let t = s.keyed(laws::pressed(KeyCode::Enter));
            &&& s.keyed(laws::pressed(KeyCode::Char(' '))) == t
            &&& match forms::divergence_actions(f.sibling)[f.cursor as int] {
                DivergenceActionView::SwitchToOwner(owner) => t == AppView {
                    requests: s.requests.push(RequestView::CaptureForOwner(owner)),
                    ..u
                },
                DivergenceActionView::Choice(choice) => t == u.divergence_chosen(f.active, choice),
            }
        }),
{
    reveal(AppView::keyed);
    reveal(AppView::modal_keyed);
    reveal(AppView::without_modal);
    reveal(AppView::divergence_form_keyed);
    reveal(AppView::divergence_picked);
    reveal(AppView::asked);
    reveal(settings::row_clamped);
}

/// Saving a live login elsewhere lists the accounts to save into, with a new account before
/// them; where there is no other account it becomes a new one at once.
pub proof fn other_accounts_are_offered(s: AppView, active: Seq<char>)
    ensures
        s.divergence_chosen(active, DivergenceChoice::NewProfile) == (AppView {
            requests: s.requests.push(
                if s.config.divergence_targets().len() == 0 {
                    RequestView::CaptureBegin(true)
                } else {
                    RequestView::MatchLive
                },
            ),
            ..s
        }),
{
    reveal(AppView::divergence_chosen);
    reveal(AppView::targets_wanted);
    reveal(AppView::asked);
}

/// The picker hands the live login to the account under the cursor; its first row is a new
/// account.
pub proof fn pickers_take_the_account_under_the_cursor(s: AppView, f: DivergenceTargetFormView)
    requires
        s.modals.len() > 0,
        s.modals.last() == ModalView::DivergenceTarget(f),
        f.cursor <= f.targets.len(),
    ensures
        ({
            let t = s.keyed(laws::pressed(KeyCode::Enter));
            &&& s.keyed(laws::pressed(KeyCode::Char(' '))) == t
            &&& t == AppView {
                modals: s.modals.drop_last(),
                requests: s.requests.push(
                    if f.cursor == 0 {
                        RequestView::CaptureBegin(true)
                    } else {
                        RequestView::CaptureForTarget(f.targets[f.cursor - 1])
                    },
                ),
                ..s
            }
        }),
{
    reveal(AppView::keyed);
    reveal(AppView::modal_keyed);
    reveal(AppView::without_modal);
    reveal(AppView::target_form_keyed);
    reveal(AppView::target_picked);
    reveal(AppView::asked);
}

/// The picker opens on the account that holds the live login, and on a new account where none
/// does.
pub proof fn pickers_open_on_the_holder(s: AppView, holder: Option<String>)
    requires
        s.config.divergence_targets().len() < usize::MAX,
    ensures
        ({
            let t = s.settled(Request::MatchLive, Reply::Name(holder));
            let f = t.modals.last()->DivergenceTarget_0;
            &&& t == AppView { modals: t.modals, ..s }
            &&& t.modals.drop_last() == s.modals
            &&& t.modals.last() is DivergenceTarget
            &&& f.targets == s.config.divergence_targets()
            &&& holder is None || !f.targets.contains(holder->0@) ==> f.cursor == 0
            &&& holder is Some && f.targets.contains(holder->0@) ==> {
                &&& 0 < f.cursor <= f.targets.len()
                &&& f.targets[f.cursor - 1] == holder->0@
            }
        }),
{
    reveal(AppView::settled);
    reveal(AppView::told_name);
    reveal(AppView::targets_listed);
    reveal(AppView::with_modal);
    let t = s.settled(Request::MatchLive, Reply::Name(holder));
    assert(t.modals.drop_last() =~= s.modals);
    if holder is Some {
        text::lemma_position(s.config.divergence_targets(), holder->0@);
    }
}

} // verus!
