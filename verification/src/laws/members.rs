//! What the Fallback tab promises: who joins the chain, who leaves it, and in what order.

use vstd::prelude::*;

use crate::chain;
use crate::forms::{FallbackFocus, FallbackRow, ToastKind};
use crate::input::InputView;
use crate::key::{Key, KeyCode};
use crate::laws;
use crate::model::{AppConfigView, ProfileView};
use crate::requests::{Reply, Request, RequestView};
use crate::settings;
use crate::state::{AppView, ExitFlags, Ui};
use crate::tabs::Tab;
use crate::text;

verus! {

/// A name is a candidate exactly when an account has it and the chain does not.
pub proof fn candidates_are_the_accounts_outside(c: AppConfigView, name: Seq<char>)
    ensures
        c.candidates().contains(name) <==> {
            &&& exists|i: int| 0 <= i < c.profiles.len() && (#[trigger] c.profiles[i]).name == name
            &&& !c.state.fallback_chain.contains(name)
        },
{
    lemma_outside(c.profiles, c.state.fallback_chain, c.profiles.len(), name);
}

proof fn lemma_outside(ps: Seq<ProfileView>, chain: Seq<Seq<char>>, n: nat, name: Seq<char>)
    requires
        n <= ps.len(),
    ensures
        chain::unchained(ps, chain, n).contains(name) <==> {
            &&& exists|i: int| 0 <= i < n && (#[trigger] ps[i]).name == name
            &&& !chain.contains(name)
        },
    decreases n,
{
    let out = chain::unchained(ps, chain, n);
    if n > 0 {
        lemma_outside(ps, chain, (n - 1) as nat, name);
        let before = chain::unchained(ps, chain, (n - 1) as nat);
        let last = ps[n - 1].name;
        if out.contains(name) {
            let k = choose|k: int| 0 <= k < out.len() && out[k] == name;
            if k < before.len() {
                assert(before[k] == name);
                assert(before.contains(name));
            } else {
                assert(ps[n - 1].name == name);
            }
        }
        if !chain.contains(name) && exists|i: int| 0 <= i < n && (#[trigger] ps[i]).name == name {
            let i = choose|i: int| 0 <= i < n && (#[trigger] ps[i]).name == name;
            if i == n - 1 {
                assert(out[out.len() - 1] == name);
            } else {
                assert(ps[i].name == name);
                let k = choose|k: int| 0 <= k < before.len() && before[k] == name;
                assert(out[k] == name);
            }
        }
    }
}

/// Candidates are listed in the order of the accounts.
pub proof fn candidates_keep_the_accounts_order(c: AppConfigView)
    ensures
        c.candidates() == c.names().filter(|n: Seq<char>| !c.state.fallback_chain.contains(n)),
{
    let outside = |n: Seq<char>| !c.state.fallback_chain.contains(n);
    lemma_listed(c, c.profiles.len(), outside);
    assert(c.names().take(c.profiles.len() as int) =~= c.names());
}

proof fn lemma_listed(c: AppConfigView, n: nat, outside: spec_fn(Seq<char>) -> bool)
    requires
        n <= c.profiles.len(),
        outside == (|n: Seq<char>| !c.state.fallback_chain.contains(n)),
    ensures
        chain::unchained(c.profiles, c.state.fallback_chain, n) == c.names().take(
            n as int,
        ).filter(outside),
    decreases n,
{
    reveal(Seq::filter);
    if n > 0 {
        lemma_listed(c, (n - 1) as nat, outside);
        let v = c.names().take(n as int);
        assert(v.drop_last() =~= c.names().take(n - 1));
        assert(v.last() == c.profiles[n - 1].name);
    }
}

/// The Fallback tab is shown, and its detail pane takes the keys.
pub open spec fn in_detail(s: AppView) -> bool {
    &&& s.modals.len() == 0
    &&& s.ui.tab == Tab::Fallback
    &&& s.ui.fallback_focus == FallbackFocus::Detail
    &&& s.fallback_threshold_draft is None
}

/// The Fallback tab is shown, and its chain list takes the keys.
pub open spec fn in_chain_list(s: AppView) -> bool {
    &&& s.modals.len() == 0
    &&& s.ui.tab == Tab::Fallback
    &&& s.ui.fallback_focus == FallbackFocus::Chain
}

/// The state once the quit is no longer armed.
pub open spec fn calmed(s: AppView) -> AppView {
    AppView {
        ui: Ui { exit: ExitFlags { armed: false, ..s.ui.exit }, ..s.ui },
        footer_alert: None,
        ..s
    }
}

proof fn lemma_keys_reach_the_tab(s: AppView, key: Key)
    requires
        in_detail(s) || in_chain_list(s),
        key.press,
        key.code == KeyCode::Enter || key.code == KeyCode::Up || key.code == KeyCode::Down
            || key.code == KeyCode::Char(' ') || key.code == KeyCode::Char('+') || key.code
            == KeyCode::Char('-'),
    ensures
        s.keyed(key) == calmed(s).fallback_keyed(key),
{
    reveal(AppView::keyed);
    reveal(AppView::global_keyed);
    reveal(AppView::char_keyed);
    reveal(AppView::disarmed);
    reveal(AppView::tab_keyed);
}

/// On the entry to add, enter and space both add the candidate under the cursor, and no other: it
/// joins the end of the chain, every other candidate stays one, and the chain is stored. An
/// account without a threshold gets one.
pub proof fn picked_candidates_join_the_chain(s: AppView, key: Key, other: Seq<char>)
    requires
        in_detail(s),
        s.ui.chain_cursor >= s.config.state.fallback_chain.len(),
        s.ui.fallback_detail_cursor < s.config.candidates().len() <= usize::MAX,
        key == laws::pressed(KeyCode::Enter) || key == laws::pressed(KeyCode::Char(' ')),
    ensures
        ({
            let name = s.config.candidates()[s.ui.fallback_detail_cursor as int];
            let t = s.keyed(key);
            &&& t.config.state.fallback_chain == s.config.state.fallback_chain.push(name)
            &&& t.config.profiles == s.config.profiles
            &&& t.config.state.active_profile == s.config.state.active_profile
            &&& !t.config.candidates().contains(name)
            &&& other != name ==> t.config.candidates().contains(other)
                == s.config.candidates().contains(other)
            &&& laws::told(t, ToastKind::Success)
            &&& forall|i: int|
                laws::first_named(s.config, name, i) ==> t.requests == (if s.config.profiles[i].facts.has_threshold {
                    s.requests
                } else {
                    s.requests.push(RequestView::SeedThreshold(name))
                }).push(RequestView::SaveState)
        }),
{
    lemma_keys_reach_the_tab(s, key);
    reveal(AppView::fallback_keyed);
    reveal(AppView::detail_keyed);
    reveal(AppView::add_keyed);
    reveal(AppView::candidate_chosen);
    reveal(AppView::candidate_added);
    reveal(AppView::fallback_left);
    reveal(AppView::toasted);
    reveal(AppView::asked);
    reveal(AppView::on);
    reveal(settings::row_clamped);
    let name = s.config.candidates()[s.ui.fallback_detail_cursor as int];
    let t = s.keyed(key);
    let chain = s.config.state.fallback_chain;
    assert(t.config.state.fallback_chain == chain.push(name));
    assert(t.config.profiles == s.config.profiles);
    candidates_are_the_accounts_outside(t.config, name);
    candidates_are_the_accounts_outside(t.config, other);
    candidates_are_the_accounts_outside(s.config, other);
    assert(chain.push(name)[chain.len() as int] == name);
    if other != name {
        if chain.contains(other) {
            let k = choose|k: int| 0 <= k < chain.len() && chain[k] == other;
            assert(chain.push(name)[k] == other);
        }
        if chain.push(name).contains(other) {
            let k = choose|k: int| 0 <= k < chain.push(name).len() && chain.push(name)[k] == other;
            assert(chain[k] == other);
        }
    }
    assert forall|i: int| laws::first_named(s.config, name, i) implies t.requests == (
    if s.config.profiles[i].facts.has_threshold {
        s.requests
    } else {
        s.requests.push(RequestView::SeedThreshold(name))
    }).push(RequestView::SaveState) by {
        laws::lemma_found(s.config, name, i);
    }
}

/// In the list of candidates up and down move the cursor by one row and wrap, and change nothing
/// else.
pub proof fn candidate_steps_move_by_one(s: AppView)
    requires
        in_detail(s),
        s.ui.chain_cursor >= s.config.state.fallback_chain.len(),
        s.ui.fallback_detail_cursor < s.config.candidates().len() <= usize::MAX,
    ensures
        ({
            let cur = s.ui.fallback_detail_cursor as int;
            let last = s.config.candidates().len() - 1;
            let up = s.keyed(laws::pressed(KeyCode::Up));
            let down = s.keyed(laws::pressed(KeyCode::Down));
            &&& up.ui.fallback_detail_cursor == (if cur == 0 {
                last
            } else {
                cur - 1
            })
            &&& down.ui.fallback_detail_cursor == (if cur == last {
                0
            } else {
                cur + 1
            })
            &&& up.config == s.config && down.config == s.config
            &&& up.requests == s.requests && down.requests == s.requests
        }),
{
    lemma_keys_reach_the_tab(s, laws::pressed(KeyCode::Up));
    lemma_keys_reach_the_tab(s, laws::pressed(KeyCode::Down));
    reveal(AppView::fallback_keyed);
    reveal(AppView::detail_keyed);
    reveal(AppView::add_keyed);
    reveal(AppView::on);
    reveal(settings::row_clamped);
    reveal(settings::step_up);
    reveal(settings::step_down);
}

/// A member's rows stand in order: its threshold, its last-resort mark, its removal.
pub proof fn member_rows_are_in_order()
    ensures
        chain::fallback_row_at(0) == FallbackRow::Threshold,
        chain::fallback_row_at(1) == FallbackRow::LastResort,
        chain::fallback_row_at(2) == FallbackRow::Remove,
{
    reveal(chain::fallback_row_at);
}

/// Enter on a member's threshold opens its field with the threshold as it is; on its mark flips
/// that account's mark alone and stores it.
pub proof fn member_rows_edit_their_member(s: AppView, key: Key, i: int)
    requires
        in_detail(s),
        s.ui.chain_cursor < s.config.state.fallback_chain.len(),
        laws::first_named(
            s.config,
            s.config.state.fallback_chain[s.ui.chain_cursor as int],
            i,
        ),
        key == laws::pressed(KeyCode::Enter) || key == laws::pressed(KeyCode::Char(' ')),
    ensures
        ({
            let t = s.keyed(key);
            let p = s.config.profiles[i];
            &&& s.ui.fallback_detail_cursor == 0 ==> t == AppView {
                fallback_threshold_draft: Some(InputView::of(p.threshold_text)),
                ..calmed(s)
            }
            &&& s.ui.fallback_detail_cursor == 1 ==> {
                &&& t.config.profiles.len() == s.config.profiles.len()
                &&& t.config.profiles[i] == ProfileView { last_resort: !p.last_resort, ..p }
                &&& forall|j: int|
                    0 <= j < s.config.profiles.len() && j != i ==> (#[trigger] t.config.profiles[j])
                        == s.config.profiles[j]
                &&& t.config.state == s.config.state
                &&& t == AppView {
                    config: t.config,
                    requests: s.requests.push(
                        RequestView::SaveLastResort { name: p.name, on: !p.last_resort },
                    ),
                    ..calmed(s)
                }
            }
        }),
{
    lemma_keys_reach_the_tab(s, key);
    laws::lemma_found(s.config, s.config.state.fallback_chain[s.ui.chain_cursor as int], i);
    reveal(AppView::fallback_keyed);
    reveal(AppView::detail_keyed);
    reveal(AppView::fallback_row_run);
    reveal(AppView::fallback_row_typed);
    reveal(AppView::last_resort_flipped);
    reveal(AppView::asked);
    reveal(AppView::on);
    reveal(settings::row_clamped);
    reveal(chain::fallback_row_at);
}

/// A member is removed by two presses on its row, the first of which only arms; moving away in
/// between disarms. Removing takes that member alone, stores the chain and goes back to the list.
pub proof fn removal_takes_two_presses(s: AppView, key: Key)
    requires
        in_detail(s),
        s.ui.chain_cursor < s.config.state.fallback_chain.len(),
        s.ui.fallback_detail_cursor == 2,
        key == laws::pressed(KeyCode::Enter) || key == laws::pressed(KeyCode::Char(' ')),
    ensures
        ({
            let name = s.config.state.fallback_chain[s.ui.chain_cursor as int];
            let t = s.keyed(key);
            &&& !s.ui.fallback_armed_remove ==> {
                &&& t.config == s.config
                &&& t.requests == s.requests
                &&& t.ui.fallback_armed_remove
            }
            &&& s.ui.fallback_armed_remove ==> {
                &&& t.config.profiles == s.config.profiles
                &&& t.config.state.fallback_chain == s.config.state.fallback_chain.filter(
                    |n: Seq<char>| n != name,
                )
                &&& t.requests == s.requests.push(RequestView::SaveState)
                &&& t.ui.fallback_focus == FallbackFocus::Chain
                &&& !t.ui.fallback_armed_remove
                &&& laws::told(t, ToastKind::Info)
            }
            &&& !s.keyed(laws::pressed(KeyCode::Up)).ui.fallback_armed_remove
            &&& !s.keyed(laws::pressed(KeyCode::Down)).ui.fallback_armed_remove
            &&& s.keyed(laws::pressed(KeyCode::Up)).ui.fallback_detail_cursor == 1
            &&& s.keyed(laws::pressed(KeyCode::Down)).ui.fallback_detail_cursor == 0
            &&& s.keyed(laws::pressed(KeyCode::Up)).config == s.config
            &&& s.keyed(laws::pressed(KeyCode::Down)).config == s.config
        }),
{
    lemma_keys_reach_the_tab(s, key);
    lemma_keys_reach_the_tab(s, laws::pressed(KeyCode::Up));
    lemma_keys_reach_the_tab(s, laws::pressed(KeyCode::Down));
    reveal(AppView::fallback_keyed);
    reveal(AppView::detail_keyed);
    reveal(AppView::fallback_row_run);
    reveal(AppView::fallback_row_typed);
    reveal(AppView::member_removed);
    reveal(AppView::fallback_left);
    reveal(AppView::toasted);
    reveal(AppView::asked);
    reveal(AppView::on);
    reveal(settings::row_clamped);
    reveal(settings::step_up);
    reveal(settings::step_down);
    reveal(chain::fallback_row_at);
    let name = s.config.state.fallback_chain[s.ui.chain_cursor as int];
    assert(chain::other_than(name) =~= (|n: Seq<char>| n != name));
}

/// On a member's threshold `+` steps it up and `-` down, for that member, and nothing else.
pub proof fn thresholds_step_by_sign(s: AppView, i: int)
    requires
        in_detail(s),
        s.ui.chain_cursor < s.config.state.fallback_chain.len(),
        s.ui.fallback_detail_cursor == 0,
        laws::first_named(
            s.config,
            s.config.state.fallback_chain[s.ui.chain_cursor as int],
            i,
        ),
    ensures
        ({
            let name = s.config.state.fallback_chain[s.ui.chain_cursor as int];
            &&& s.keyed(laws::pressed(KeyCode::Char('+'))) == AppView {
                requests: s.requests.push(RequestView::StepThreshold { name, up: true }),
                ..calmed(s)
            }
            &&& s.keyed(laws::pressed(KeyCode::Char('-'))) == AppView {
                requests: s.requests.push(RequestView::StepThreshold { name, up: false }),
                ..calmed(s)
            }
        }),
{
    lemma_keys_reach_the_tab(s, laws::pressed(KeyCode::Char('+')));
    lemma_keys_reach_the_tab(s, laws::pressed(KeyCode::Char('-')));
    laws::lemma_found(s.config, s.config.state.fallback_chain[s.ui.chain_cursor as int], i);
    reveal(AppView::fallback_keyed);
    reveal(AppView::detail_keyed);
    reveal(AppView::fallback_row_typed);
    reveal(AppView::threshold_stepped);
    reveal(AppView::asked);
    reveal(AppView::on);
    reveal(settings::row_clamped);
    reveal(chain::fallback_row_at);
}

/// A typed threshold is handed over for the member under the cursor, and escape drops it.
pub proof fn typed_thresholds_go_to_their_member(s: AppView, d: InputView)
    requires
        s.modals.len() == 0,
        s.ui.tab == Tab::Fallback,
        s.ui.fallback_focus == FallbackFocus::Detail,
        s.fallback_threshold_draft == Some(d),
        s.ui.chain_cursor < s.config.state.fallback_chain.len(),
    ensures
        s.keyed(laws::pressed(KeyCode::Enter)) == (AppView {
            requests: s.requests.push(
                RequestView::CommitThreshold {
                    member: Some(s.config.state.fallback_chain[s.ui.chain_cursor as int]),
                    raw: d.trimmed(),
                },
            ),
            ..s
        }),
        s.keyed(laws::pressed(KeyCode::Esc)) == (AppView { fallback_threshold_draft: None, ..s }),
{
    reveal(AppView::keyed);
    reveal(AppView::threshold_edit_keyed);
    reveal(AppView::asked);
}

/// Once a typed threshold was looked at its field closes; one that could not be stored is said.
pub proof fn committed_thresholds_close_their_field(
    s: AppView,
    member: Option<String>,
    raw: String,
    e: String,
)
    ensures
        ({
            let r = Request::CommitThreshold { member, raw };
            let closed = AppView { fallback_threshold_draft: None, ..s };
            &&& s.settled(r, Reply::Done) == closed
            &&& laws::only_told(closed, s.settled(r, Reply::Failed(e)), ToastKind::Danger)
        }),
{
    laws::lemma_edited(s, Request::CommitThreshold { member, raw }, e);
    reveal(AppView::edited);
    reveal(AppView::threshold_committed);
    reveal(AppView::toasted);
}

/// With shift, up puts the member under the cursor one place earlier and down one place later;
/// its neighbour takes its place, the cursor follows it, and the chain is stored. At an end
/// nothing moves.
pub proof fn members_move_towards_the_arrow(s: AppView, up: bool)
    requires
        in_chain_list(s),
        s.config.state.fallback_chain.len() <= usize::MAX,
    ensures
        ({
            let chain = s.config.state.fallback_chain;
            let pos = s.ui.chain_cursor as int;
            let to = if up {
                pos - 1
            } else {
                pos + 1
            };
            let code = if up {
                KeyCode::Up
            } else {
                KeyCode::Down
            };
            let t = s.keyed(Key { code, control: false, shift: true, press: true });
            let out = t.config.state.fallback_chain;
            &&& pos < chain.len() && 0 <= to < chain.len() ==> {
                &&& out.len() == chain.len()
                &&& out[to] == chain[pos]
                &&& out[pos] == chain[to]
                &&& forall|k: int|
                    0 <= k < chain.len() && k != pos && k != to ==> (#[trigger] out[k]) == chain[k]
                &&& t.ui.chain_cursor == to
                &&& t.requests == s.requests.push(RequestView::SaveState)
            }
            &&& !(pos < chain.len() && 0 <= to < chain.len()) ==> t == calmed(s)
        }),
{
    let code = if up {
        KeyCode::Up
    } else {
        KeyCode::Down
    };
    lemma_keys_reach_the_tab(s, Key { code, control: false, shift: true, press: true });
    reveal(AppView::fallback_keyed);
    reveal(AppView::chain_keyed);
    reveal(AppView::member_moved);
    reveal(AppView::asked);
}

/// In the chain list up and down move the cursor by one row and wrap, the account cursor follows
/// the member, and nothing is stored; enter opens the row's detail pane on its first row.
pub proof fn chain_steps_move_by_one(s: AppView)
    requires
        in_chain_list(s),
        s.ui.chain_cursor < s.config.chain_rows() <= usize::MAX,
        s.config.profiles.len() <= usize::MAX,
    ensures
        ({
            let cur = s.ui.chain_cursor as int;
            let last = s.config.chain_rows() - 1;
            let up = s.keyed(laws::pressed(KeyCode::Up));
            let down = s.keyed(laws::pressed(KeyCode::Down));
            let enter = s.keyed(laws::pressed(KeyCode::Enter));
            &&& up.ui.chain_cursor == (if cur == 0 {
                last
            } else {
                cur - 1
            })
            &&& down.ui.chain_cursor == (if cur == last {
                0
            } else {
                cur + 1
            })
            &&& up.config == s.config && down.config == s.config
            &&& up.requests == s.requests && down.requests == s.requests
            &&& follows_the_chain(up) && follows_the_chain(down)
            &&& enter.ui.fallback_focus == FallbackFocus::Detail
            &&& enter.ui.fallback_detail_cursor == 0
            &&& !enter.ui.fallback_armed_remove
            &&& enter.ui.chain_cursor == s.ui.chain_cursor
            &&& enter.config == s.config
            &&& enter.requests == s.requests
        }),
{
    lemma_keys_reach_the_tab(s, laws::pressed(KeyCode::Up));
    lemma_keys_reach_the_tab(s, laws::pressed(KeyCode::Down));
    lemma_keys_reach_the_tab(s, laws::pressed(KeyCode::Enter));
    reveal(AppView::fallback_keyed);
    reveal(AppView::chain_keyed);
    reveal(AppView::fallback_entered);
    reveal(AppView::on);
    reveal(settings::step_up);
    reveal(settings::step_down);
    reveal(chain::last_chain_row);
    let last = chain::last_chain_row(s.config);
    let c = calmed(s);
    let u = c.on(Ui { chain_cursor: settings::step_up(c.ui.chain_cursor, last), ..c.ui });
    let d = c.on(Ui { chain_cursor: settings::step_down(c.ui.chain_cursor, last), ..c.ui });
    lemma_synced(u);
    lemma_synced(d);
}

/// The account under the account cursor is the member under the chain cursor, where that member
/// is an account.
pub open spec fn follows_the_chain(t: AppView) -> bool {
    let chain = t.config.state.fallback_chain;
    t.ui.chain_cursor < chain.len() && (exists|i: int|
        0 <= i < t.config.profiles.len() && (#[trigger] t.config.profiles[i]).name
            == chain[t.ui.chain_cursor as int]) ==> {
        &&& t.ui.profile_cursor < t.config.profiles.len()
        &&& t.config.profiles[t.ui.profile_cursor as int].name == chain[t.ui.chain_cursor as int]
    }
}

proof fn lemma_synced(s: AppView)
    requires
        s.config.profiles.len() <= usize::MAX,
    ensures
        ({
            let t = s.profile_synced();
            &&& t == AppView { ui: Ui { profile_cursor: t.ui.profile_cursor, ..s.ui }, ..s }
            &&& follows_the_chain(t)
        }),
{
    reveal(AppView::profile_synced);
    reveal(AppView::on);
    let chain = s.config.state.fallback_chain;
    if s.ui.chain_cursor < chain.len() {
        let name = chain[s.ui.chain_cursor as int];
        text::lemma_position(s.config.names(), name);
        if exists|i: int|
            0 <= i < s.config.profiles.len() && (#[trigger] s.config.profiles[i]).name == name {
            let i = choose|i: int|
                0 <= i < s.config.profiles.len() && (#[trigger] s.config.profiles[i]).name == name;
            assert(s.config.names()[i] == name);
        }
        match s.config.index_of(name) {
            Some(i) => {
                assert(s.config.names()[i] == s.config.profiles[i].name);
            },
            None => {},
        }
    }
}

/// A mark that was stored has every other account unmarked and stored in turn; where no other is
/// marked, or the mark was taken, only the tokens are read again. A mark that could not be stored
/// goes back to what it was, on that account alone.
pub proof fn marks_are_stored_or_taken_back(s: AppView, name: String, on: bool, i: int, e: String)
    requires
        laws::first_named(s.config, name@, i),
    ensures
        ({
            let t = s.settled(Request::SaveLastResort { name, on }, Reply::Done);
            let f = s.settled(Request::SaveLastResort { name, on }, Reply::Failed(e));
            let others = exists|j: int|
                0 <= j < s.config.profiles.len() && (#[trigger] s.config.profiles[j]).name != name@
                    && s.config.profiles[j].last_resort;
            &&& !on || !others ==> t == AppView {
                requests: s.requests.push(RequestView::RefreshTokens),
                ..s
            }
            &&& on && others ==> {
                &&& t.config.profiles.len() == s.config.profiles.len()
                &&& forall|j: int|
                    0 <= j < s.config.profiles.len() ==> (#[trigger] t.config.profiles[j])
                        == (ProfileView {
                        last_resort: s.config.profiles[j].name == name@
                            && s.config.profiles[j].last_resort,
                        ..s.config.profiles[j]
                    })
                &&& t.requests.len() == s.requests.len() + 1
                &&& t.requests.last() is SaveCleared
                &&& forall|n: Seq<char>|
                    t.requests.last()->SaveCleared_0.contains(n) <==> n != name@ && exists|j: int|
                        0 <= j < s.config.profiles.len() && (#[trigger] s.config.profiles[j]).name
                            == n && s.config.profiles[j].last_resort
            }
            &&& f.config.profiles == s.config.profiles.update(
                i,
                ProfileView { last_resort: !on, ..s.config.profiles[i] },
            )
            &&& f.config.state == s.config.state
            &&& f.requests == s.requests
            &&& laws::told(f, ToastKind::Danger)
        }),
{
    laws::lemma_edited(s, Request::SaveLastResort { name, on }, e);
    reveal(AppView::edited);
    reveal(AppView::last_resort_saved);
    reveal(AppView::last_resort_failed);
    reveal(AppView::asked);
    reveal(AppView::toasted);
    laws::lemma_found(s.config, name@, i);
    let n = s.config.profiles.len();
    let v = s.config.other_marked(name@, n);
    assert forall|m: Seq<char>| v.contains(m) <==> m != name@ && exists|j: int|
        0 <= j < n && (#[trigger] s.config.profiles[j]).name == m
            && s.config.profiles[j].last_resort by {
        lemma_marked(s.config, name@, n, m);
    }
    if v.len() > 0 {
        assert(v.contains(v[0]));
    }
    if exists|j: int|
        0 <= j < n && (#[trigger] s.config.profiles[j]).name != name@
            && s.config.profiles[j].last_resort {
        let j = choose|j: int|
            0 <= j < n && (#[trigger] s.config.profiles[j]).name != name@
                && s.config.profiles[j].last_resort;
        assert(v.contains(s.config.profiles[j].name));
    }
}

proof fn lemma_marked(c: AppConfigView, keep: Seq<char>, n: nat, m: Seq<char>)
    requires
        n <= c.profiles.len(),
    ensures
        c.other_marked(keep, n).contains(m) <==> m != keep && exists|j: int|
            0 <= j < n && (#[trigger] c.profiles[j]).name == m && c.profiles[j].last_resort,
    decreases n,
{
    let out = c.other_marked(keep, n);
    if n > 0 {
        lemma_marked(c, keep, (n - 1) as nat, m);
        let before = c.other_marked(keep, (n - 1) as nat);
        if out.contains(m) {
            let k = choose|k: int| 0 <= k < out.len() && out[k] == m;
            if k < before.len() {
                assert(before[k] == m);
                assert(before.contains(m));
            } else {
                assert(c.profiles[n - 1].name == m);
            }
        }
        if m != keep && exists|j: int|
            0 <= j < n && (#[trigger] c.profiles[j]).name == m && c.profiles[j].last_resort {
            let j = choose|j: int|
                0 <= j < n && (#[trigger] c.profiles[j]).name == m && c.profiles[j].last_resort;
            if j == n - 1 {
                assert(out[out.len() - 1] == m);
            } else {
                assert(c.profiles[j].name == m);
                let k = choose|k: int| 0 <= k < before.len() && before[k] == m;
                assert(out[k] == m);
            }
        }
    }
}

} // verus!
