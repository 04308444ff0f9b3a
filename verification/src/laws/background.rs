//! What news from the workers, the feed and the start promise.

use vstd::prelude::*;

use crate::chain;
use crate::events::{OpResultView, TokensEventView};
use crate::feed;
use crate::feed::{IncidentView, StatusEventView};
use crate::forms::ToastKind;
use crate::laws;
use crate::model::FetchStatus;
use crate::requests::{Reply, Request, RequestView, StartupSignalView};
use crate::state::AppView;
use crate::tabs::Tab;
use crate::usage;
use crate::usage::BellReadingView;

verus! {

/// A rotation that ended is said, as an error where it failed, and its account is no longer
/// marked at work; no setting changes.
pub proof fn ended_rotations_are_told(s: AppView, r: OpResultView)
    ensures
        ({
            let t = s.op_ended(r);
            &&& t.requests == s.requests.push(RequestView::EndRefresh(r.name))
            &&& t.config == s.config
            &&& t.modals == s.modals
            &&& r.failure is None ==> laws::told(t, ToastKind::Info)
            &&& r.failure is Some ==> laws::told(t, ToastKind::Danger)
            &&& s.ui.tab != Tab::Usage && s.ui.marks.at(Tab::Usage) is None ==> t.ui.marks.at(
                Tab::Usage,
            ) == Some(
                if r.failure is None {
                    ToastKind::Info
                } else {
                    ToastKind::Danger
                },
            )
        }),
{
    reveal(AppView::op_ended);
    reveal(AppView::asked);
    reveal(AppView::toasted);
    reveal(AppView::tab_marked);
    reveal(AppView::on);
}

/// Ended rotations have the tokens read again once, and only where one went through.
pub proof fn rotations_reload_tokens_once(s: AppView, rs: Seq<OpResultView>)
    ensures
        ({
            let t = s.ops_drained(rs);
            let any = exists|i: int| 0 <= i < rs.len() && (#[trigger] rs[i]).failure is None;
            &&& t.requests.len() == s.requests.len() + rs.len() + (if any {
                1nat
            } else {
                0nat
            })
            &&& forall|i: int|
                0 <= i < rs.len() ==> #[trigger] t.requests[s.requests.len() + i]
                    == RequestView::EndRefresh(rs[i].name)
            &&& any ==> t.requests.last() == RequestView::RefreshTokens
        }),
{
    lemma_ended(s, rs, rs.len());
    reveal(AppView::asked);
}

proof fn lemma_ended(s: AppView, rs: Seq<OpResultView>, n: nat)
    requires
        n <= rs.len(),
    ensures
        ({
            let t = s.ops_ended(rs, n);
            &&& t.requests.len() == s.requests.len() + n
            &&& forall|i: int|
                0 <= i < n ==> #[trigger] t.requests[s.requests.len() + i]
                    == RequestView::EndRefresh(rs[i].name)
        }),
    decreases n,
{
    if n > 0 {
        lemma_ended(s, rs, (n - 1) as nat);
        let u = s.ops_ended(rs, (n - 1) as nat);
        ended_rotations_are_told(u, rs[n - 1]);
        let t = s.ops_ended(rs, n);
        assert(t.requests == u.requests.push(RequestView::EndRefresh(rs[n - 1].name)));
        assert forall|i: int| 0 <= i < n implies #[trigger] t.requests[s.requests.len() + i]
            == RequestView::EndRefresh(rs[i].name) by {
            if i < n - 1 {
                assert(t.requests[s.requests.len() + i] == u.requests[s.requests.len() + i]);
            }
        }
    }
}

// ── the start ───────────────────────────────────────────────────────────────

/// The start compares the live login with the active account's; without an active account there
/// is nothing to compare.
pub proof fn starts_compare_the_active_login(s: AppView, active: String)
    ensures
        ({
            let t = s.reconcile_begun();
            let differs = s.settled(Request::CompareLogin(active), Reply::Flag(true));
            let same = s.settled(Request::CompareLogin(active), Reply::Flag(false));
            &&& s.config.state.active_profile is Some ==> t == AppView {
                requests: s.requests.push(
                    RequestView::CompareLogin(s.config.state.active_profile->0),
                ),
                ..s
            }
            &&& s.config.state.active_profile is None ==> t == AppView {
                requests: s.requests.push(
                    RequestView::PostSignal(StartupSignalView::ReconcileDone),
                ),
                ..s
            }
            &&& differs == AppView {
                requests: s.requests.push(
                    RequestView::PostSignal(StartupSignalView::ReconcileNeedsPrompt(active@)),
                ),
                ..s
            }
            &&& same == AppView {
                requests: s.requests.push(RequestView::KeepLogin).push(
                    RequestView::PostSignal(StartupSignalView::ReconcileDone),
                ),
                ..s
            }
        }),
{
    reveal(AppView::reconcile_begun);
    reveal(AppView::settled);
    reveal(AppView::told_flag);
    reveal(AppView::login_compared);
    reveal(AppView::asked);
}

/// Either outcome of the comparison lets the start go on; a login that differs is looked at next.
pub proof fn comparisons_let_the_start_go_on(s: AppView, active: Seq<char>)
    ensures
        ({
            let done = s.startup_heard(StartupSignalView::ReconcileDone);
            let prompt = s.startup_heard(StartupSignalView::ReconcileNeedsPrompt(active));
            &&& done.ui.startup.reconcile_done
            &&& done.requests == s.requests
            &&& prompt.ui.startup.reconcile_done
            &&& prompt.requests == s.requests.push(RequestView::ReadFingerprint(active))
            &&& done.ui.startup.bootstrap_active == s.ui.startup.bootstrap_active
            &&& prompt.modals == s.modals
        }),
{
    reveal(AppView::startup_heard);
    reveal(AppView::on_startup);
    reveal(AppView::on);
    reveal(AppView::asked);
}

/// The bootstrap starts once the comparison is done, unless a dialog is open.
pub proof fn bootstraps_follow_the_comparison(s: AppView)
    ensures
        ({
            let t = s.bootstrap_considered();
            let due = !s.ui.startup.bootstrap_started && s.ui.startup.reconcile_done
                && s.modals.len() == 0;
            &&& !due ==> t == s
            &&& due ==> {
                &&& t.requests == s.requests.push(RequestView::SpawnBootstrap)
                &&& t.ui.startup.bootstrap_started
                &&& t.ui.startup.bootstrap_active
            }
        }),
{
    reveal(AppView::bootstrap_considered);
    reveal(AppView::on_startup);
    reveal(AppView::on);
    reveal(AppView::asked);
}

/// A finished bootstrap is no longer under way; it has the tokens read, the scheduler started, the
/// usage applied and the daemon looked for, in this order.
pub proof fn finished_bootstraps_start_the_scheduler(s: AppView)
    ensures
        ({
            let t = s.startup_heard(StartupSignalView::BootstrapDone);
            &&& !t.ui.startup.bootstrap_active
            &&& t.requests == s.requests.push(RequestView::RefreshTokens).push(
                RequestView::StartScheduler,
            ).push(RequestView::ApplyUsage).push(RequestView::ProbeDaemon)
        }),
{
    reveal(AppView::startup_heard);
    reveal(AppView::bootstrap_finished);
    reveal(AppView::on_startup);
    reveal(AppView::on);
    reveal(AppView::asked);
}

/// The start switches by itself only where no daemon decides and the active account was read
/// anew.
pub proof fn daemons_decide_alone(s: AppView, live: bool, i: int)
    requires
        s.config.state.active_profile is Some,
        laws::first_named(s.config, s.config.state.active_profile->0, i),
    ensures
        ({
            let t = s.settled(Request::ProbeDaemon, Reply::Flag(live));
            let fresh = s.config.profiles[i].fetch_status == Some(FetchStatus::Fresh);
            &&& !live && fresh ==> t == AppView {
                requests: s.requests.push(RequestView::StartupSwitch),
                ..s
            }
            &&& live || !fresh ==> t == s
        }),
{
    laws::lemma_found(s.config, s.config.state.active_profile->0, i);
    reveal(AppView::settled);
    reveal(AppView::told_flag);
    reveal(AppView::daemon_probed);
    reveal(AppView::asked);
}

// ── the feed ────────────────────────────────────────────────────────────────

/// An incident that is news is said on its own tab and marks that tab from any other; one that is
/// still active is a warning.
pub proof fn news_are_said_or_marked(s: AppView, title: Seq<char>, active: bool)
    ensures
        ({
            let t = s.incident_announced(title, active);
            let kind = if active {
                ToastKind::Warning
            } else {
                ToastKind::Info
            };
            &&& s.ui.tab == Tab::Status ==> laws::only_told(s, t, kind)
            &&& s.ui.tab != Tab::Status ==> {
                &&& t.toasts == s.toasts
                &&& t.ui.marks.at(Tab::Status) is Some
                &&& t.requests == s.requests
            }
        }),
{
    reveal(AppView::incident_announced);
    reveal(AppView::toasted);
    reveal(AppView::tab_marked);
    reveal(AppView::on);
}

/// A failed fetch keeps the incidents that are shown; it is said only where the user asked, and
/// the reason is kept only where there is nothing to show.
pub proof fn failed_fetches_keep_the_incidents(s: AppView, msg: Seq<char>)
    ensures
        ({
            let t = s.status_heard(StatusEventView::Failed(msg));
            &&& t.status.incidents == s.status.incidents
            &&& !t.status.fetching
            &&& s.status.incidents.len() == 0 ==> t.status.error == Some(msg)
            &&& s.status.incidents.len() > 0 ==> t.status.error == s.status.error
            &&& s.status.fetching ==> laws::told(t, ToastKind::Danger)
            &&& !s.status.fetching ==> t.toasts == s.toasts
        }),
{
    reveal(AppView::status_heard);
    reveal(AppView::with_status);
    reveal(AppView::toasted);
}

/// A fetch shows exactly the incidents that were fetched and clears the error; stored ones are
/// marked as such, and are said to be so only where the user asked.
pub proof fn fetches_show_what_was_fetched(s: AppView, incidents: Seq<IncidentView>, at: u64)
    ensures
        ({
            let t = s.status_heard(StatusEventView::Fetched { incidents, fetched_at_ms: at });
            let c = s.status_heard(StatusEventView::Cached { incidents, fetched_at_ms: at });
            &&& t.status.incidents.to_multiset() == incidents.to_multiset()
            &&& c.status.incidents.to_multiset() == incidents.to_multiset()
            &&& t.status.fetched_at_ms == Some(at)
            &&& t.status.error is None
            &&& !t.status.cached
            &&& c.status.cached
            &&& s.status.fetching ==> laws::told(c, ToastKind::Danger)
        }),
{
    feed::listing_sorts(incidents);
    reveal(AppView::status_heard);
    reveal(AppView::status_loaded);
    reveal(AppView::with_status);
    reveal(AppView::incident_announced);
    reveal(AppView::toasted);
    reveal(AppView::tab_marked);
    reveal(AppView::on);
}

// ── token statistics ────────────────────────────────────────────────────────

/// Statistics that were read are shown and end the reading; stored ones show only where nothing is
/// shown; a failure is marked only where nothing is shown.
pub proof fn statistics_replace_older_ones(s: AppView, ev: TokensEventView)
    ensures
        ({
            let t = s.tokens_heard(ev);
            &&& t.config == s.config
            &&& t.requests == s.requests
            &&& match ev {
                TokensEventView::Loaded(m) => {
                    &&& t.token_models == m
                    &&& t.ui.tokens.loaded
                    &&& !t.ui.tokens.failed
                    &&& !t.ui.tokens.topping_up
                    &&& t.ui.tokens.progress is None
                },
                TokensEventView::Base(m) => {
                    &&& t.ui.tokens.loaded
                    &&& !t.ui.tokens.failed
                    &&& s.ui.tokens.loaded ==> t.token_models == s.token_models
                    &&& !s.ui.tokens.loaded ==> t.token_models == m && t.ui.tokens.topping_up
                },
                TokensEventView::Progress { done, total } => {
                    &&& t.ui.tokens.progress == Some((done, total))
                    &&& t.token_models == s.token_models
                },
                TokensEventView::Failed => {
                    &&& t.token_models == s.token_models
                    &&& !t.ui.tokens.topping_up
                    &&& !s.ui.tokens.loaded ==> t.ui.tokens.failed
                    &&& s.ui.tokens.loaded ==> t.ui.tokens.failed == s.ui.tokens.failed
                },
            }
        }),
{
    reveal(AppView::tokens_heard);
    reveal(AppView::on_tokens);
    reveal(AppView::on);
    reveal(AppView::with_models);
    reveal(AppView::model_cursor_pulled);
}

// ── the banner ──────────────────────────────────────────────────────────────

/// The banner asks for a switch where no account is active, and says that all are spent only where
/// one is; it says that the terminal is too small only where nothing else is to be said.
pub proof fn banners_say_what_is_wrong(s: AppView)
    ensures
        ({
            let b = s.banner_updated().banner;
            let idle = s.config.profiles.len() > 0 && s.config.state.active_profile is None;
            let spent = exists|i: int|
                0 <= i < s.config.profiles.len() && (
                #[trigger] s.config.profiles[i]).facts.exhausted;
            &&& s.banner_updated() == AppView { banner: b, ..s }
            &&& idle ==> b is Some && b->0.message == (if spent {
                "all accounts spent · switch to a profile to resume"@
            } else {
                "no active profile · select one to resume"@
            })
            &&& !idle && s.divergence_pending is Some ==> b is Some && b->0.message
                == s.divergence_pending->0.message()
            &&& !idle && s.divergence_pending is None ==> (b is Some <==> s.ui.compact)
        }),
{
    reveal(AppView::banner_updated);
}

// ── usage ───────────────────────────────────────────────────────────────────

/// A bell rings when its account goes over the line, and for that account alone; it is silent for
/// a reading that is not of now and for a bell that is not set.
pub proof fn bells_ring_for_their_account(s: AppView, r: BellReadingView, other: Seq<char>)
    ensures
        ({
            let t = s.bell_heard(r);
            let counts = r.status == Some(FetchStatus::Fresh) && r.armed;
            let rings = counts && r.over && !s.bell_fired.contains(r.name);
            &&& !counts ==> t == s
            &&& rings ==> laws::told(t, ToastKind::Warning) && t.bell_fired == s.bell_fired.push(
                r.name,
            )
            &&& !rings ==> t.toasts == s.toasts
            &&& t.requests == s.requests
            &&& other != r.name ==> t.bell_fired.contains(other) == s.bell_fired.contains(other)
        }),
{
    reveal(AppView::bell_heard);
    reveal(AppView::with_bells);
    reveal(AppView::toasted);
    reveal(AppView::tab_marked);
    reveal(AppView::on);
    let keep = chain::other_than(r.name);
    let v = s.bell_fired;
    let out = v.filter(keep);
    if other != r.name {
        if out.contains(other) {
            v.lemma_filter_contains_rev(keep, other);
        }
        if v.contains(other) {
            let i = choose|i: int| 0 <= i < v.len() && v[i] == other;
            v.lemma_filter_contains(keep, i);
            assert(v.push(r.name)[i] == other);
        }
        if v.push(r.name).contains(other) {
            let i = choose|i: int| 0 <= i < v.push(r.name).len() && v.push(r.name)[i] == other;
            assert(v[i] == other);
        }
    }
}

/// An account is due for a reading when none was taken, or the interval has passed since the last.
pub proof fn readings_are_due_after_the_interval(last: u64, interval: u64, now: u64)
    requires
        last + interval <= u64::MAX,
    ensures
        usage::awaits_fetch(None, interval, now),
        usage::awaits_fetch(Some(last), interval, now) <==> last + interval <= now,
{
}

/// What one store says wins over the other, and a store that cannot be read changes nothing that
/// the other does not.
pub proof fn stores_agree_on_a_status(a: FetchStatus, known: Option<FetchStatus>)
    ensures
        forall|other: usage::StatusReading|
            usage::merged_status(usage::StatusReading::Found(a), other, known) == Some(a),
        usage::merged_status(
            usage::StatusReading::Missing,
            usage::StatusReading::Found(a),
            known,
        ) == Some(a),
        usage::merged_status(
            usage::StatusReading::Missing,
            usage::StatusReading::Missing,
            known,
        ) is None,
        usage::merged_status(
            usage::StatusReading::Missing,
            usage::StatusReading::Unreadable,
            known,
        ) == known,
{
}

/// The end of the program keeps the live login and the settings before it cuts the link.
pub proof fn shutdowns_keep_the_login_first(s: AppView)
    ensures
        s.shutdown_finished() == (AppView {
            requests: s.requests.push(RequestView::KeepLogin).push(RequestView::SaveState).push(
                RequestView::DetachLink,
            ),
            ..s
        }),
{
    reveal(AppView::shutdown_finished);
    reveal(AppView::asked);
}

} // verus!
