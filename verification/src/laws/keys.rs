//! What the keys that work everywhere, the menu and the settings promise.

use vstd::prelude::*;

use crate::chain;
use crate::feed::StatusFocus;
use crate::forms::{
    ConfigFocus, ConfirmActionView, ConfirmStateView, FallbackFocus, GlobalConfigRow, ModalView,
    ToastKind,
};
use crate::input::InputView;
use crate::key::{Key, KeyCode};
use crate::laws;
use crate::laws::members;
use crate::menu::{ActionMenuAction, ActionMenuStateView};
use crate::model;
use crate::model::{AppConfigView, AppStateView, Toggles};
use crate::nav;
use crate::plugin::{PluginFixView, PluginFocus};
use crate::requests::{Reply, Request, RequestView};
use crate::settings;
use crate::setup;
use crate::state::{AppView, Ui};
use crate::tabs::{Tab, TokenFilter, TokenPeriod, TokenView};
use crate::text;

verus! {

/// No dialog, no field and no login takes keys.
pub open spec fn at_large(s: AppView) -> bool {
    &&& s.modals.len() == 0
    &&& !s.setup_field_open()
    &&& !s.threshold_field_open()
    &&& s.refresh_interval_draft is None
    &&& s.weekly_threshold_draft is None
    &&& s.login is None
}

proof fn lemma_global(s: AppView, code: KeyCode)
    requires
        at_large(s),
    ensures
        s.keyed(laws::pressed(code)) == s.global_keyed(laws::pressed(code)),
{
    reveal(AppView::keyed);
}

proof fn lemma_letter(s: AppView, c: char)
    requires
        at_large(s),
    ensures
        s.keyed(laws::pressed(KeyCode::Char(c))) == s.char_keyed(
            c,
            laws::pressed(KeyCode::Char(c)),
        ),
{
    lemma_global(s, KeyCode::Char(c));
    reveal(AppView::global_keyed);
}

proof fn lemma_disarmed(s: AppView)
    ensures
        s.disarmed() == members::calmed(s),
{
    reveal(AppView::disarmed);
}

/// Right and tab show the next tab, left and back-tab the one before, wrapping at the ends; no
/// account and no setting changes on the way.
pub proof fn arrows_step_through_the_tabs(s: AppView)
    requires
        at_large(s),
    ensures
        ({
            let right = s.keyed(laws::pressed(KeyCode::Right));
            let left = s.keyed(laws::pressed(KeyCode::Left));
            &&& right.ui.tab.place() == (s.ui.tab.place() + 1) % 8
            &&& left.ui.tab.place() == (s.ui.tab.place() + 7) % 8
            &&& s.keyed(laws::pressed(KeyCode::Tab)) == right
            &&& s.keyed(laws::pressed(KeyCode::BackTab)) == left
            &&& right.config == s.config && left.config == s.config
            &&& right.toasts == s.toasts && left.toasts == s.toasts
        }),
{
    lemma_global(s, KeyCode::Right);
    lemma_global(s, KeyCode::Left);
    lemma_global(s, KeyCode::Tab);
    lemma_global(s, KeyCode::BackTab);
    lemma_disarmed(s);
    reveal(AppView::global_keyed);
    let c = members::calmed(s);
    lemma_shown(c, s.ui.tab.successor());
    lemma_shown(c, s.ui.tab.predecessor());
}

proof fn lemma_shown(s: AppView, tab: Tab)
    ensures
        ({
            let t = s.tab_switched(tab);
            &&& t.ui.tab == tab
            &&& t.config == s.config
            &&& t.toasts == s.toasts
            &&& t.modals == s.modals
            &&& tab != Tab::Plugin ==> t.requests == s.requests
            &&& t.config_draft is None
            &&& tab == Tab::Fallback ==> t.ui.fallback_focus == FallbackFocus::Chain
        }),
{
    reveal(AppView::tab_switched);
    reveal(AppView::on);
    reveal(AppView::drafting);
    reveal(AppView::profile_clamped);
    reveal(AppView::fallback_tab_shown);
    reveal(AppView::config_tab_shown);
    reveal(AppView::plugin_tab_shown);
    reveal(AppView::with_plugin);
    reveal(AppView::with_status);
    reveal(AppView::plugin_probe_wanted);
    reveal(AppView::asked);
    reveal(AppView::profile_synced);
}

/// `r` has read again what the tab shows: incidents, the integration's checks, the token
/// statistics, one account's usage, or everyone's usage; it opens no dialog and changes no
/// setting.
pub proof fn refreshing_reads_what_is_shown(s: AppView)
    requires
        at_large(s),
    ensures
        ({
            let t = s.keyed(laws::pressed(KeyCode::Char('r')));
            let tab = s.ui.tab;
            &&& t.config == s.config && t.modals == s.modals
            &&& tab == Tab::Status ==> t.requests == s.requests.push(RequestView::RefreshStatus)
                && t.status.fetching
            &&& tab == Tab::Tokens ==> t.requests == s.requests.push(RequestView::ReloadTokens)
                && t.ui.tokens.topping_up
            &&& tab == Tab::Plugin ==> t.requests == s.requests.push(
                RequestView::ProbePlugin { forced: true, version: true },
            )
            &&& tab == Tab::Overview || tab == Tab::Setup || tab == Tab::Fallback || tab
                == Tab::Config ==> t.requests == s.requests.push(RequestView::RefetchAll)
            &&& tab == Tab::Usage && s.ui.profile_cursor >= s.config.profiles.len() ==> t.requests
                == s.requests
            &&& tab == Tab::Usage && s.ui.profile_cursor < s.config.profiles.len() ==> {
                let p = s.config.profiles[s.ui.profile_cursor as int];
                t.requests == (if p.facts.login_is_oauth || p.facts.is_third_party {
                    s.requests.push(RequestView::RefetchOne(p.name))
                } else {
                    s.requests
                })
            }
        }),
{
    lemma_letter(s, 'r');
    lemma_disarmed(s);
    reveal(AppView::char_keyed);
    reveal(AppView::refresh_keyed);
    reveal(AppView::status_refresh_wanted);
    reveal(AppView::token_reload_wanted);
    reveal(AppView::plugin_probe_wanted);
    reveal(AppView::focused_refreshed);
    reveal(AppView::with_status);
    reveal(AppView::asked);
    reveal(AppView::toasted);
    reveal(AppView::on);
}

/// `t` asks before it rotates every token, standing on no, and only a yes goes on; on the Tokens
/// tab it shows the next period instead.
pub proof fn rotating_is_confirmed(s: AppView)
    requires
        at_large(s),
    ensures
        ({
            let t = s.keyed(laws::pressed(KeyCode::Char('t')));
            let c = members::calmed(s);
            &&& s.ui.tab == Tab::Tokens ==> {
                &&& t.ui.tokens.period == s.ui.tokens.period.successor()
                &&& t.ui.tokens.filter == s.ui.tokens.filter
                &&& t.requests == s.requests
                &&& t.modals == s.modals
            }
            &&& s.ui.tab != Tab::Tokens ==> {
                &&& t == AppView { modals: t.modals, ..c }
                &&& t.keyed(laws::pressed(KeyCode::Enter)) == c
                &&& s.ui.startup.bootstrap_active ==> laws::only_told(
                    c,
                    t.keyed(laws::pressed(KeyCode::Char('y'))).keyed(
                        laws::pressed(KeyCode::Enter),
                    ),
                    ToastKind::Warning,
                )
                &&& !s.ui.startup.bootstrap_active ==> t.keyed(
                    laws::pressed(KeyCode::Char('y')),
                ).keyed(laws::pressed(KeyCode::Enter)) == AppView {
                    requests: s.requests.push(RequestView::ProbeBusy),
                    ..c
                }
            }
        }),
{
    lemma_letter(s, 't');
    lemma_disarmed(s);
    reveal(AppView::char_keyed);
    reveal(AppView::rotate_keyed);
    reveal(AppView::rotation_asked);
    reveal(AppView::period_set);
    reveal(AppView::model_cursor_clamped);
    reveal(AppView::on);
    reveal(AppView::toasted);
    reveal(AppView::asked);
    let t = s.keyed(laws::pressed(KeyCode::Char('t')));
    if s.ui.tab != Tab::Tokens {
        laws::dialogs_take_the_answer(members::calmed(s), t);
        reveal(AppView::confirm_run);
        reveal(AppView::rotation_confirmed);
        reveal(AppView::rotation_refused);
        reveal(AppView::with_modal);
    }
}

/// Every token is rotated only while nothing else is in flight, and one token only while no
/// session manages it; otherwise a warning says so and nothing is rotated.
pub proof fn rotations_wait_for_others(s: AppView, name: String)
    ensures
        ({
            let all = s.settled(Request::ProbeBusy, Reply::Flag(false));
            let one = s.settled(Request::ProbeRotate(name), Reply::Flag(false));
            &&& all == AppView {
                requests: s.requests.push(RequestView::RotateAll),
                toasts: all.toasts,
                ..s
            }
            &&& laws::told(all, ToastKind::Info)
            &&& one == AppView {
                requests: s.requests.push(RequestView::RotateOne(name@)),
                toasts: one.toasts,
                ..s
            }
            &&& laws::told(one, ToastKind::Info)
            &&& laws::only_told(
                s,
                s.settled(Request::ProbeBusy, Reply::Flag(true)),
                ToastKind::Warning,
            )
            &&& laws::only_told(
                s,
                s.settled(Request::ProbeRotate(name), Reply::Flag(true)),
                ToastKind::Warning,
            )
        }),
{
    reveal(AppView::settled);
    reveal(AppView::told_flag);
    reveal(AppView::rotation_probed);
    reveal(AppView::rotation_refused);
    reveal(AppView::single_rotation_probed);
    reveal(AppView::asked);
    reveal(AppView::toasted);
}

/// Rotating the token of the account under the cursor is asked about, standing on no; an account
/// without tokens is only told so.
pub proof fn single_rotations_are_confirmed(s: AppView)
    requires
        s.ui.profile_cursor < s.config.profiles.len(),
    ensures
        ({
            let p = s.config.profiles[s.ui.profile_cursor as int];
            let t = s.action_run(ActionMenuAction::RotateTokens);
            &&& !p.facts.login_is_oauth ==> laws::only_told(s, t, ToastKind::Info)
            &&& p.facts.login_is_oauth ==> {
                &&& t == AppView { modals: t.modals, ..s }
                &&& t.keyed(laws::pressed(KeyCode::Enter)) == s
                &&& t.keyed(laws::pressed(KeyCode::Char('y'))).keyed(
                    laws::pressed(KeyCode::Enter),
                ) == AppView { requests: s.requests.push(RequestView::ProbeRotate(p.name)), ..s }
            }
        }),
{
    reveal(AppView::action_run);
    reveal(AppView::focused_rotation_asked);
    reveal(AppView::toasted);
    reveal(AppView::asked);
    let t = s.action_run(ActionMenuAction::RotateTokens);
    if s.config.profiles[s.ui.profile_cursor as int].facts.login_is_oauth {
        laws::dialogs_take_the_answer(s, t);
        reveal(AppView::confirm_run);
        reveal(AppView::with_modal);
    }
}

/// `n` opens an empty form for a new account on the Setup tab, and stores nothing.
pub proof fn new_accounts_start_empty(s: AppView)
    requires
        at_large(s),
        s.config.profiles.len() <= usize::MAX,
    ensures
        ({
            let t = s.keyed(laws::pressed(KeyCode::Char('n')));
            &&& t.ui.tab == Tab::Setup
            &&& t.ui.config_focus == ConfigFocus::Actions
            &&& t.ui.config_action_cursor == 0
            &&& t.ui.profile_cursor == s.config.profiles.len()
            &&& t.config_draft is Some
            &&& t.config_draft->0.editing_name is None
            &&& t.config_draft->0.name.text == ""@
            &&& t.config_draft->0.base_url.text == ""@
            &&& t.config == s.config
            &&& t.requests == s.requests
        }),
{
    lemma_letter(s, 'n');
    lemma_disarmed(s);
    reveal(AppView::char_keyed);
    reveal(AppView::new_account_started);
    reveal(AppView::drafting);
    reveal(AppView::on);
    lemma_shown(members::calmed(s), Tab::Setup);
}

/// `x` takes the oldest toast away, one at a time; with none left it takes the footer's alert.
pub proof fn dismissing_takes_the_oldest(s: AppView)
    requires
        at_large(s),
    ensures
        ({
            let t = s.keyed(laws::pressed(KeyCode::Char('x')));
            &&& s.toasts.len() > 0 ==> t == AppView { toasts: s.toasts.skip(1), ..s }
            &&& s.toasts.len() == 0 && s.footer_alert is Some ==> t == members::calmed(s)
            &&& s.toasts.len() == 0 && s.footer_alert is None ==> t == s
        }),
{
    lemma_letter(s, 'x');
    lemma_disarmed(s);
    reveal(AppView::char_keyed);
    reveal(AppView::dismiss_keyed);
    assert(s.toasts.len() > 0 ==> s.toasts.drop_first() =~= s.toasts.skip(1));
}

/// `d` looks up the owner of a live login that was noted, and does nothing without one; `?` opens
/// the help, and escape closes it again.
pub proof fn notes_and_help_have_their_keys(s: AppView)
    requires
        at_large(s),
    ensures
        ({
            let d = s.keyed(laws::pressed(KeyCode::Char('d')));
            let h = s.keyed(laws::pressed(KeyCode::Char('?')));
            let c = members::calmed(s);
            &&& s.divergence_pending is None ==> d == s
            &&& s.divergence_pending is Some ==> d == AppView {
                requests: s.requests.push(RequestView::FindOwner(s.divergence_pending->0.active)),
                ..c
            }
            &&& h.modals == s.modals.push(ModalView::Help)
            &&& h == AppView { modals: h.modals, ..c }
            &&& h.keyed(laws::pressed(KeyCode::Esc)) == c
            &&& h.keyed(laws::pressed(KeyCode::Char('?'))) == c
        }),
{
    lemma_letter(s, 'd');
    lemma_letter(s, '?');
    lemma_disarmed(s);
    reveal(AppView::char_keyed);
    reveal(AppView::divergence_keyed);
    reveal(AppView::with_modal);
    reveal(AppView::without_modal);
    reveal(AppView::asked);
    reveal(AppView::keyed);
    reveal(AppView::modal_keyed);
    reveal(AppView::help_keyed);
    let h = s.keyed(laws::pressed(KeyCode::Char('?')));
    assert(h.modals.drop_last() =~= s.modals);
}

/// Escape leaves the detail pane of the tab and changes nothing stored; `q` does the same while a
/// pane has focus.
pub proof fn escape_leaves_the_pane(s: AppView)
    requires
        at_large(s),
    ensures
        ({
            let t = s.keyed(laws::pressed(KeyCode::Esc));
            &&& !t.sub_focus()
            &&& t.ui.tab == s.ui.tab
            &&& t.config == s.config
            &&& t.requests == s.requests
            &&& !t.ui.exit.armed
            &&& !s.sub_focus() ==> t == members::calmed(s)
            &&& s.sub_focus() ==> s.keyed(laws::pressed(KeyCode::Char('q'))) == t
        }),
{
    lemma_global(s, KeyCode::Esc);
    lemma_letter(s, 'q');
    lemma_disarmed(s);
    reveal(AppView::global_keyed);
    reveal(AppView::char_keyed);
    reveal(AppView::quit_keyed);
    reveal(AppView::ascended);
    reveal(AppView::config_left);
    reveal(AppView::fallback_left);
    reveal(AppView::with_plugin);
    reveal(AppView::with_status);
    reveal(AppView::drafting);
    reveal(AppView::toasted);
    reveal(AppView::on);
}

/// Escape and `q` cancel a login in flight before anything else: nothing else changes.
pub proof fn escape_cancels_a_login(s: AppView, key: Key)
    requires
        s.modals.len() == 0,
        !s.setup_field_open(),
        !s.threshold_field_open(),
        s.refresh_interval_draft is None,
        s.weekly_threshold_draft is None,
        s.login is Some,
        key == laws::pressed(KeyCode::Esc) || key == laws::pressed(KeyCode::Char('q')),
    ensures
        laws::only_told(AppView { login: None, ..s }, s.keyed(key), ToastKind::Info),
{
    reveal(AppView::keyed);
    reveal(AppView::login_canceled);
    reveal(AppView::logging_in);
    reveal(AppView::toasted);
}

// ── the menu ────────────────────────────────────────────────────────────────

/// A menu entry does what the key for the same thing does.
pub proof fn menu_entries_match_their_keys(s: AppView)
    requires
        at_large(s),
    ensures
        ({
            let c = members::calmed(s);
            &&& c.action_run(ActionMenuAction::NewAccount) == s.keyed(
                laws::pressed(KeyCode::Char('n')),
            )
            &&& s.ui.tab == Tab::Usage ==> {
                &&& c.action_run(ActionMenuAction::RefreshUsage) == s.keyed(
                    laws::pressed(KeyCode::Char('r')),
                )
                &&& c.action_run(ActionMenuAction::ToggleEstimates) == s.keyed(
                    laws::pressed(KeyCode::Char('e')),
                )
                &&& c.action_run(ActionMenuAction::TogglePace) == s.keyed(
                    laws::pressed(KeyCode::Char('p')),
                )
            }
            &&& s.ui.tab == Tab::Overview ==> c.action_run(ActionMenuAction::SwitchToSelected)
                == s.keyed(laws::pressed(KeyCode::Enter))
            &&& s.ui.tab == Tab::Status ==> c.action_run(ActionMenuAction::RefreshStatus)
                == s.keyed(laws::pressed(KeyCode::Char('r')))
            &&& s.ui.tab == Tab::Tokens ==> {
                &&& c.action_run(ActionMenuAction::ReloadTokenStats) == s.keyed(
                    laws::pressed(KeyCode::Char('r')),
                )
                &&& c.action_run(ActionMenuAction::ToggleCountCache) == s.keyed(
                    laws::pressed(KeyCode::Char('c')),
                )
            }
        }),
{
    lemma_letter(s, 'n');
    lemma_letter(s, 'r');
    lemma_letter(s, 'e');
    lemma_letter(s, 'p');
    lemma_letter(s, 'c');
    lemma_global(s, KeyCode::Enter);
    lemma_disarmed(s);
    reveal(AppView::action_run);
    reveal(AppView::global_keyed);
    reveal(AppView::char_keyed);
    reveal(AppView::refresh_keyed);
    reveal(AppView::tab_keyed);
    reveal(AppView::usage_keyed);
    reveal(AppView::overview_keyed);
    reveal(AppView::tokens_keyed);
}

/// The menu's entries for a chain member do what its keys do.
pub proof fn member_entries_match_their_keys(s: AppView)
    requires
        at_large(s),
        s.ui.tab == Tab::Fallback,
    ensures
        ({
            let c = members::calmed(s);
            let up = Key { code: KeyCode::Up, control: false, shift: true, press: true };
            let down = Key { code: KeyCode::Down, control: false, shift: true, press: true };
            let enter = laws::pressed(KeyCode::Enter);
            let on_member = s.ui.chain_cursor < s.config.state.fallback_chain.len();
            &&& s.ui.fallback_focus == FallbackFocus::Chain ==> {
                &&& c.action_run(ActionMenuAction::ReorderUp) == s.keyed(up)
                &&& c.action_run(ActionMenuAction::ReorderDown) == s.keyed(down)
                &&& c.action_run(ActionMenuAction::OpenChainMember) == s.keyed(enter)
            }
            &&& s.ui.fallback_focus == FallbackFocus::Detail && on_member ==> {
                &&& s.ui.fallback_detail_cursor == 0 ==> c.action_run(
                    ActionMenuAction::EditThreshold,
                ) == s.keyed(enter)
                &&& s.ui.fallback_detail_cursor == 1 ==> c.action_run(
                    ActionMenuAction::ToggleLastResort,
                ) == s.keyed(enter)
                &&& s.ui.fallback_detail_cursor == 2 ==> c.action_run(
                    ActionMenuAction::RemoveMember,
                ) == s.keyed(enter)
            }
        }),
{
    lemma_disarmed(s);
    reveal(AppView::keyed);
    reveal(AppView::global_keyed);
    reveal(AppView::tab_keyed);
    reveal(AppView::action_run);
    reveal(AppView::fallback_keyed);
    reveal(AppView::chain_keyed);
    reveal(AppView::detail_keyed);
    reveal(AppView::on);
    reveal(settings::row_clamped);
    reveal(chain::fallback_row_at);
}

/// The menu's lenses show the period and the models they name, and leave the other lens alone.
pub proof fn lens_entries_set_their_lens(s: AppView)
    ensures
        ({
            let p = |a: ActionMenuAction| s.action_run(a).ui.tokens.period;
            let f = |a: ActionMenuAction| s.action_run(a).ui.tokens.filter;
            &&& p(ActionMenuAction::TokensPeriodLifetime) == TokenPeriod::Lifetime
            &&& p(ActionMenuAction::TokensPeriodDaily) == TokenPeriod::Daily
            &&& p(ActionMenuAction::TokensPeriodWeekly) == TokenPeriod::Weekly
            &&& p(ActionMenuAction::TokensPeriodMonthly) == TokenPeriod::Monthly
            &&& f(ActionMenuAction::TokensShowAll) == TokenFilter::All
            &&& f(ActionMenuAction::TokensShowClaude) == TokenFilter::Claude
            &&& f(ActionMenuAction::TokensShowOthers) == TokenFilter::Others
            &&& f(ActionMenuAction::TokensPeriodDaily) == s.ui.tokens.filter
            &&& p(ActionMenuAction::TokensShowAll) == s.ui.tokens.period
        }),
{
    reveal(AppView::action_run);
    reveal(AppView::period_set);
    reveal(AppView::filter_set);
    reveal(AppView::model_cursor_clamped);
    reveal(AppView::on);
}

/// Enter in the menu closes it and runs the entry under the cursor; escape only closes it.
pub proof fn menus_run_the_entry_under_the_cursor(s: AppView, st: ActionMenuStateView)
    requires
        s.modals.len() > 0,
        s.modals.last() == ModalView::ActionMenu(st),
        st.cursor < st.items.len(),
    ensures
        ({
            let u = AppView { modals: s.modals.drop_last(), ..s };
            &&& s.keyed(laws::pressed(KeyCode::Enter)) == u.action_run(
                st.items[st.cursor as int].action,
            )
            &&& s.keyed(laws::pressed(KeyCode::Esc)) == u
        }),
{
    reveal(AppView::keyed);
    reveal(AppView::modal_keyed);
    reveal(AppView::without_modal);
    reveal(AppView::menu_form_keyed);
    reveal(AppView::entry_chosen);
}

/// In the menu up and down move the cursor by one entry and wrap.
pub proof fn menu_steps_move_by_one(s: AppView, st: ActionMenuStateView)
    requires
        s.modals.len() > 0,
        s.modals.last() == ModalView::ActionMenu(st),
        st.cursor < st.items.len() <= usize::MAX,
    ensures
        ({
            let up = s.keyed(laws::pressed(KeyCode::Up)).modals.last();
            let down = s.keyed(laws::pressed(KeyCode::Down)).modals.last();
            let cur = st.cursor as int;
            let n = st.items.len() as int;
            &&& up is ActionMenu && down is ActionMenu
            &&& up->ActionMenu_0.cursor == (if cur == 0 {
                n - 1
            } else {
                cur - 1
            })
            &&& down->ActionMenu_0.cursor == (if cur + 1 == n {
                0
            } else {
                cur + 1
            })
            &&& up->ActionMenu_0.items == st.items && down->ActionMenu_0.items == st.items
        }),
{
    reveal(AppView::keyed);
    reveal(AppView::modal_keyed);
    reveal(AppView::without_modal);
    reveal(AppView::with_modal);
    reveal(AppView::menu_form_keyed);
    lists_step_by_one(st.cursor, st.items.len() as usize);
}

/// In a list one step up is one entry earlier and one step down one later, wrapping at the ends.
pub proof fn lists_step_by_one(cursor: usize, len: usize)
    requires
        cursor < len,
    ensures
        setup::cycled(cursor, true, len) == (if cursor == 0 {
            len - 1
        } else {
            cursor - 1
        }),
        setup::cycled(cursor, false, len) == (if cursor + 1 == len {
            0
        } else {
            cursor + 1
        }),
{
    reveal(setup::cycled);
    vstd::arithmetic::div_mod::lemma_small_mod(cursor as nat, len as nat);
}

/// In a pane one step up is one row earlier and one step down one later, wrapping at the ends; a
/// cursor beyond the last row is pulled back onto it.
pub proof fn rows_step_by_one(cursor: usize, last: usize)
    ensures
        cursor > 0 ==> settings::step_up(cursor, last) == cursor - 1,
        settings::step_up(0, last) == last,
        cursor < last ==> settings::step_down(cursor, last) == cursor + 1,
        settings::step_down(last, last) == 0,
        cursor > last ==> settings::row_clamped(cursor, last) == last,
        cursor <= last ==> settings::row_clamped(cursor, last) == cursor,
{
    reveal(settings::step_up);
    reveal(settings::step_down);
    reveal(settings::row_clamped);
}

/// On Overview and Usage up and down move the account cursor by one account and wrap, and change
/// nothing else.
pub proof fn account_steps_move_by_one(s: AppView)
    requires
        at_large(s),
        s.ui.tab == Tab::Overview || s.ui.tab == Tab::Usage,
        s.ui.profile_cursor < s.config.profiles.len() <= usize::MAX,
    ensures
        ({
            let c = members::calmed(s);
            let cur = s.ui.profile_cursor as int;
            let n = s.config.profiles.len() as int;
            let up = (if cur == 0 {
                n - 1
            } else {
                cur - 1
            }) as usize;
            let down = (if cur + 1 == n {
                0
            } else {
                cur + 1
            }) as usize;
            &&& s.keyed(laws::pressed(KeyCode::Up)) == AppView {
                ui: Ui { profile_cursor: up, ..c.ui },
                ..c
            }
            &&& s.keyed(laws::pressed(KeyCode::Down)) == AppView {
                ui: Ui { profile_cursor: down, ..c.ui },
                ..c
            }
        }),
{
    lemma_global(s, KeyCode::Up);
    lemma_global(s, KeyCode::Down);
    lemma_disarmed(s);
    reveal(AppView::global_keyed);
    reveal(AppView::tab_keyed);
    reveal(AppView::overview_keyed);
    reveal(AppView::usage_keyed);
    reveal(AppView::profile_stepped);
    reveal(AppView::on);
    lists_step_by_one(s.ui.profile_cursor, s.config.profiles.len() as usize);
}

// ── the settings ────────────────────────────────────────────────────────────

/// The rows of the Config tab stand in order.
pub proof fn setting_rows_are_in_order()
    ensures
        settings::global_row_at(0) == GlobalConfigRow::Theme,
        settings::global_row_at(1) == GlobalConfigRow::DivergenceDefault,
        settings::global_row_at(2) == GlobalConfigRow::RefreshInterval,
        settings::global_row_at(3) == GlobalConfigRow::WrapOff,
        settings::global_row_at(4) == GlobalConfigRow::WeeklyThreshold,
        settings::global_row_at(5) == GlobalConfigRow::BurnAware,
        settings::global_row_at(6) == GlobalConfigRow::PreemptiveRotation,
{
}

/// Settings were stored, and nothing but the settings changed.
pub open spec fn only_stored(s: AppView, t: AppView, state: AppStateView) -> bool {
    t == AppView {
        config: AppConfigView { state, ..s.config },
        requests: s.requests.push(RequestView::SaveState).push(RequestView::NoteStateTime),
        ..s
    }
}

/// A switch of the settings flips its own setting and no other, and has the settings stored.
pub proof fn toggles_flip_their_setting(s: AppView)
    ensures
        ({
            let st = s.config.state;
            let g = st.toggles;
            &&& only_stored(
                s,
                s.global_row_run(GlobalConfigRow::WrapOff),
                AppStateView { toggles: Toggles { wrap_off: !g.wrap_off, ..g }, ..st },
            )
            &&& only_stored(
                s,
                s.global_row_run(GlobalConfigRow::BurnAware),
                AppStateView {
                    toggles: Toggles { burn_aware_switching: !g.burn_aware_switching, ..g },
                    ..st
                },
            )
            &&& only_stored(
                s,
                s.global_row_run(GlobalConfigRow::PreemptiveRotation),
                AppStateView {
                    toggles: Toggles { preemptive_rotation: !g.preemptive_rotation, ..g },
                    ..st
                },
            )
            &&& only_stored(
                s,
                s.estimates_toggled(),
                AppStateView { toggles: Toggles { show_estimates: !g.show_estimates, ..g }, ..st },
            )
            &&& only_stored(
                s,
                s.count_cache_toggled(),
                AppStateView { toggles: Toggles { count_cache: !g.count_cache, ..g }, ..st },
            )
            &&& only_stored(
                s,
                s.pace_toggled(),
                AppStateView { toggles: Toggles { show_pace: !g.show_pace, ..g }, ..st },
            )
        }),
{
    reveal(AppView::global_row_run);
    reveal(AppView::wrap_off_toggled);
    reveal(AppView::burn_aware_toggled);
    reveal(AppView::preemptive_toggled);
    reveal(AppView::estimates_toggled);
    reveal(AppView::count_cache_toggled);
    reveal(AppView::pace_toggled);
    reveal(AppView::state_saved);
    reveal(AppView::asked);
}

/// The other rows change their own setting: the theme to the other color depth, which is shown at
/// once, the default to the next choice, the interval to the next one, which applies at once; the
/// weekly line is stepped where it is kept.
pub proof fn setting_rows_change_their_setting(s: AppView)
    ensures
        ({
            let st = s.config.state;
            let theme = s.global_row_run(GlobalConfigRow::Theme);
            let every = s.global_row_run(GlobalConfigRow::RefreshInterval);
            &&& theme.ui.tier != s.ui.tier
            &&& theme.config.state == AppStateView { theme: Some(theme.ui.tier), ..st }
            &&& theme.requests.last() == RequestView::ApplyTier(theme.ui.tier)
            &&& theme.requests.contains(RequestView::SaveState)
            &&& only_stored(
                s,
                s.global_row_run(GlobalConfigRow::DivergenceDefault),
                AppStateView {
                    default_divergence: model::divergence_successor(st.default_divergence),
                    ..st
                },
            )
            &&& every.ui.refresh_interval == settings::next_interval(s.ui.refresh_interval as int)
            &&& every.config.state == AppStateView {
                refresh_interval_ms: every.ui.refresh_interval,
                ..st
            }
            &&& every.requests == s.requests.push(RequestView::SaveState).push(
                RequestView::NoteStateTime,
            )
            &&& s.global_row_run(GlobalConfigRow::WeeklyThreshold) == AppView {
                requests: s.requests.push(RequestView::StepWeekly),
                ..s
            }
        }),
{
    reveal(AppView::global_row_run);
    reveal(AppView::theme_cycled);
    reveal(AppView::divergence_default_cycled);
    reveal(AppView::interval_stepped);
    reveal(AppView::interval_set);
    reveal(AppView::state_saved);
    reveal(AppView::asked);
    reveal(AppView::on);
    let theme = s.global_row_run(GlobalConfigRow::Theme);
    assert(theme.requests[s.requests.len() as int] == RequestView::SaveState);
}

/// On the Config tab space runs the row under the cursor; enter does too, but opens a field with
/// the present value on the two rows that can be typed.
pub proof fn setting_keys_run_the_row_under_the_cursor(s: AppView)
    requires
        at_large(s),
        s.ui.tab == Tab::Config,
        s.ui.global_config_cursor < 7,
    ensures
        ({
            let c = members::calmed(s);
            let k = s.ui.global_config_cursor as int;
            let space = s.keyed(laws::pressed(KeyCode::Char(' ')));
            let enter = s.keyed(laws::pressed(KeyCode::Enter));
            &&& space == c.global_row_run(settings::global_row_at(k))
            &&& k != 2 && k != 4 ==> enter == space
            &&& k == 2 ==> enter == AppView {
                refresh_interval_draft: Some(
                    InputView::of(text::decimal(s.ui.refresh_interval as nat / 1000)),
                ),
                ..c
            }
            &&& k == 4 ==> enter == AppView {
                weekly_threshold_draft: Some(InputView::of(s.config.state.weekly_text)),
                ..c
            }
        }),
{
    lemma_letter(s, ' ');
    lemma_global(s, KeyCode::Enter);
    lemma_disarmed(s);
    reveal(AppView::global_keyed);
    reveal(AppView::char_keyed);
    reveal(AppView::tab_keyed);
    reveal(AppView::interval_edit_begun);
    reveal(AppView::weekly_edit_begun);
    reveal(AppView::on);
    reveal(settings::row_clamped);
}

/// A typed interval that is accepted applies at once, is stored, and closes the field.
pub proof fn accepted_intervals_apply(s: AppView, d: InputView)
    requires
        s.refresh_interval_draft == Some(d),
        settings::typed_interval(d.trimmed()) is Some,
        s.ui.tab == Tab::Config,
        s.modals.len() == 0,
    ensures
        ({
            let ms = settings::typed_interval(d.trimmed())->0 as u64;
            let t = s.keyed(laws::pressed(KeyCode::Enter));
            &&& t.refresh_interval_draft is None
            &&& t.ui.refresh_interval == ms
            &&& t.config.state == AppStateView { refresh_interval_ms: ms, ..s.config.state }
            &&& t.requests == s.requests.push(RequestView::SaveState).push(
                RequestView::NoteStateTime,
            )
        }),
{
    reveal(AppView::keyed);
    reveal(AppView::interval_committed);
    reveal(AppView::interval_set);
    reveal(AppView::state_saved);
    reveal(AppView::asked);
}

/// A typed weekly line is handed over as typed; its field closes once it was stored and stays
/// open where it was refused.
pub proof fn weekly_lines_close_once_stored(s: AppView, d: InputView, raw: String, e: String)
    requires
        s.weekly_threshold_draft == Some(d),
        s.refresh_interval_draft is None,
        s.ui.tab == Tab::Config,
        s.modals.len() == 0,
    ensures
        s.keyed(laws::pressed(KeyCode::Enter)) == (AppView {
            requests: s.requests.push(RequestView::CommitWeekly(d.trimmed())),
            ..s
        }),
        s.settled(Request::CommitWeekly(raw), Reply::Done) == (AppView {
            weekly_threshold_draft: None,
            ..s
        }),
        s.settled(Request::CommitWeekly(raw), Reply::Failed(e)) == s,
{
    laws::lemma_edited(s, Request::CommitWeekly(raw), e);
    reveal(AppView::keyed);
    reveal(AppView::edited);
    reveal(AppView::asked);
}

// ── the tabs ────────────────────────────────────────────────────────────────

/// On the Status tab up and down move the cursor by one incident and rewind its timeline; enter
/// opens the timeline; in it the arrows scroll by one line, within the content.
pub proof fn incident_keys_move_by_one(s: AppView)
    requires
        at_large(s),
        s.ui.tab == Tab::Status,
        s.status.cursor < s.status.incidents.len() <= usize::MAX,
    ensures
        ({
            let cur = s.status.cursor as int;
            let n = s.status.incidents.len() as int;
            let up = s.keyed(laws::pressed(KeyCode::Up)).status;
            let down = s.keyed(laws::pressed(KeyCode::Down)).status;
            let enter = s.keyed(laws::pressed(KeyCode::Enter)).status;
            let list = s.status.focus == StatusFocus::List;
            &&& up.incidents == s.status.incidents && down.incidents == s.status.incidents
            &&& list ==> {
                &&& up.cursor == (if cur == 0 {
                    n - 1
                } else {
                    cur - 1
                })
                &&& down.cursor == (if cur + 1 == n {
                    0
                } else {
                    cur + 1
                })
                &&& up.detail_scroll == 0 && down.detail_scroll == 0
                &&& enter.focus == StatusFocus::Detail
                &&& enter.cursor == cur
            }
            &&& !list ==> {
                &&& up.cursor == cur && down.cursor == cur
                &&& s.status.detail_scroll > 0 ==> up.detail_scroll == s.status.detail_scroll - 1
                &&& s.status.detail_scroll == 0 ==> up.detail_scroll == 0
                &&& s.status.detail_scroll < s.status.detail_max_scroll ==> down.detail_scroll
                    == s.status.detail_scroll + 1
                &&& down.detail_scroll <= s.status.detail_max_scroll
            }
        }),
{
    lemma_global(s, KeyCode::Up);
    lemma_global(s, KeyCode::Down);
    lemma_global(s, KeyCode::Enter);
    lemma_disarmed(s);
    reveal(AppView::global_keyed);
    reveal(AppView::tab_keyed);
    reveal(AppView::status_keyed);
    reveal(AppView::status_list_keyed);
    reveal(AppView::with_status);
    reveal(nav::scrolled_up);
    reveal(nav::scrolled_down);
    lists_step_by_one(s.status.cursor, s.status.incidents.len() as usize);
}

/// Opening an incident opens the page of the one under the cursor; one without a page is only
/// told so.
pub proof fn incidents_open_their_page(s: AppView, link: String, e: String)
    ensures
        ({
            let t = s.action_run(ActionMenuAction::OpenIncidentLink);
            let on = s.status.cursor < s.status.incidents.len();
            let i = s.status.incidents[s.status.cursor as int];
            &&& !on ==> t == s
            &&& on && i.link.len() == 0 ==> laws::only_told(s, t, ToastKind::Info)
            &&& on && i.link.len() > 0 ==> t == AppView {
                requests: s.requests.push(RequestView::OpenIncident(i.link)),
                ..s
            }
            &&& laws::only_told(
                s,
                s.settled(Request::OpenIncident(link), Reply::Done),
                ToastKind::Info,
            )
            &&& laws::only_told(
                s,
                s.settled(Request::OpenIncident(link), Reply::Failed(e)),
                ToastKind::Danger,
            )
        }),
{
    reveal(AppView::action_run);
    reveal(AppView::incident_opened);
    reveal(AppView::asked);
    reveal(AppView::toasted);
    reveal(AppView::settled);
    reveal(AppView::concluded);
}

/// On the Plugin tab up and down move the cursor by one check, and enter opens its detail pane.
pub proof fn check_keys_move_by_one(s: AppView)
    requires
        at_large(s),
        s.ui.tab == Tab::Plugin,
        s.plugin.focus == PluginFocus::List,
        s.plugin.cursor < s.plugin.checks.len() <= usize::MAX,
    ensures
        ({
            let cur = s.plugin.cursor as int;
            let n = s.plugin.checks.len() as int;
            let up = s.keyed(laws::pressed(KeyCode::Up)).plugin;
            let down = s.keyed(laws::pressed(KeyCode::Down)).plugin;
            let enter = s.keyed(laws::pressed(KeyCode::Enter)).plugin;
            &&& up.cursor == (if cur == 0 {
                n - 1
            } else {
                cur - 1
            })
            &&& down.cursor == (if cur + 1 == n {
                0
            } else {
                cur + 1
            })
            &&& up.checks == s.plugin.checks && down.checks == s.plugin.checks
            &&& enter.focus == PluginFocus::Detail
            &&& enter.cursor == cur
        }),
{
    lemma_global(s, KeyCode::Up);
    lemma_global(s, KeyCode::Down);
    lemma_global(s, KeyCode::Enter);
    lemma_disarmed(s);
    reveal(AppView::global_keyed);
    reveal(AppView::tab_keyed);
    reveal(AppView::plugin_keyed);
    reveal(AppView::plugin_list_keyed);
    reveal(AppView::with_plugin);
    lists_step_by_one(s.plugin.cursor, s.plugin.checks.len() as usize);
}

/// `f` offers the fix of the check under the cursor: wiring and relinking are asked about,
/// standing on no, and a live login that differs is looked up. Without a fix nothing happens.
pub proof fn fixes_are_those_of_the_check(s: AppView)
    requires
        at_large(s),
        s.ui.tab == Tab::Plugin,
        s.plugin.cursor < s.plugin.checks.len(),
    ensures
        ({
            let c = members::calmed(s);
            let t = s.keyed(laws::pressed(KeyCode::Char('f')));
            let yes = t.keyed(laws::pressed(KeyCode::Char('y'))).keyed(
                laws::pressed(KeyCode::Enter),
            );
            match s.plugin.checks[s.plugin.cursor as int].fix {
                None => t == c,
                Some(PluginFixView::RepairDivergence(name)) => t == AppView {
                    requests: s.requests.push(RequestView::FindOwner(name)),
                    ..c
                },
                Some(PluginFixView::WireMcpServers) => {
                    &&& t.requests == s.requests
                    &&& t.keyed(laws::pressed(KeyCode::Enter)) == c
                    &&& yes == AppView { requests: s.requests.push(RequestView::WireMcp), ..c }
                },
                Some(PluginFixView::RelinkCredentials(name)) => {
                    &&& t.requests == s.requests
                    &&& t.keyed(laws::pressed(KeyCode::Enter)) == c
                    &&& yes == AppView {
                        requests: s.requests.push(RequestView::LinkRepaired(name)),
                        ..c
                    }
                },
            }
        }),
{
    let c = members::calmed(s);
    let t = s.keyed(laws::pressed(KeyCode::Char('f')));
    assert(t == c.fix_applied()) by {
        lemma_letter(s, 'f');
        lemma_disarmed(s);
        reveal(AppView::char_keyed);
        reveal(AppView::tab_keyed);
        reveal(AppView::plugin_keyed);
    }
    assert(c.disarmed() == c) by {
        reveal(AppView::disarmed);
    }
    match s.plugin.checks[s.plugin.cursor as int].fix {
        None => {
            reveal(AppView::fix_applied);
        },
        Some(PluginFixView::RepairDivergence(_)) => {
            reveal(AppView::fix_applied);
            reveal(AppView::asked);
        },
        Some(PluginFixView::WireMcpServers) => {
            let st = choose|st: ConfirmStateView|
                t == #[trigger] c.with_modal(ModalView::Confirm(st)) && st.on_confirm
                    == ConfirmActionView::WireMcpServers && !st.choice;
            assert(t == c.with_modal(ModalView::Confirm(st)) && st.on_confirm
                == ConfirmActionView::WireMcpServers && !st.choice) by {
                reveal(AppView::fix_applied);
            }
            lemma_asked(c, t, st);
        },
        Some(PluginFixView::RelinkCredentials(name)) => {
            let st = choose|st: ConfirmStateView|
                t == #[trigger] c.with_modal(ModalView::Confirm(st)) && st.on_confirm
                    == ConfirmActionView::RelinkCredentials(name) && !st.choice;
            assert(t == c.with_modal(ModalView::Confirm(st)) && st.on_confirm
                == ConfirmActionView::RelinkCredentials(name) && !st.choice) by {
                reveal(AppView::fix_applied);
            }
            lemma_asked(c, t, st);
        },
    }
}

proof fn lemma_asked(c: AppView, t: AppView, st: ConfirmStateView)
    requires
        t == c.with_modal(ModalView::Confirm(st)),
        !st.choice,
    ensures
        t.requests == c.requests,
        t.keyed(laws::pressed(KeyCode::Enter)) == c,
        ({
            let yes = t.keyed(laws::pressed(KeyCode::Char('y'))).keyed(
                laws::pressed(KeyCode::Enter),
            );
            &&& st.on_confirm == ConfirmActionView::WireMcpServers ==> yes == AppView {
                requests: c.requests.push(RequestView::WireMcp),
                ..c
            }
            &&& st.on_confirm matches ConfirmActionView::RelinkCredentials(name) ==> yes
                == AppView { requests: c.requests.push(RequestView::LinkRepaired(name)), ..c }
        }),
{
    laws::dialogs_take_the_answer(c, t);
    reveal(AppView::with_modal);
    reveal(AppView::confirm_run);
    reveal(AppView::asked);
}

/// A fix that went through is said and has the checks run again, which keeps what is known of the
/// host; one that failed only says so.
pub proof fn applied_fixes_are_checked_again(s: AppView, name: String, e: String)
    ensures
        ({
            let wired = s.settled(Request::WireMcp, Reply::Done);
            let linked = s.settled(Request::LinkRepaired(name), Reply::Done);
            let probe = RequestView::ProbePlugin {
                forced: false,
                version: s.plugin.cc_version is None,
            };
            &&& wired == AppView { requests: s.requests.push(probe), toasts: wired.toasts, ..s }
            &&& linked == AppView {
                requests: s.requests.push(RequestView::RefreshTokens).push(probe),
                toasts: linked.toasts,
                ..s
            }
            &&& laws::told(wired, ToastKind::Success)
            &&& laws::told(linked, ToastKind::Success)
            &&& laws::only_told(
                s,
                s.settled(Request::WireMcp, Reply::Failed(e)),
                ToastKind::Danger,
            )
            &&& laws::only_told(
                s,
                s.settled(Request::LinkRepaired(name), Reply::Failed(e)),
                ToastKind::Danger,
            )
        }),
{
    reveal(AppView::settled);
    reveal(AppView::concluded);
    reveal(AppView::mcp_wired);
    reveal(AppView::relinked);
    reveal(AppView::plugin_probe_wanted);
    reveal(AppView::asked);
    reveal(AppView::toasted);
}

/// On the Tokens tab enter opens the list of models where there is one, on its first row; in it
/// the arrows move by one model and wrap.
pub proof fn model_keys_move_by_one(s: AppView)
    requires
        at_large(s),
        s.ui.tab == Tab::Tokens,
        s.token_model_count() <= usize::MAX,
    ensures
        ({
            let n = s.token_model_count() as int;
            let cur = s.ui.tokens.model_cursor as int;
            let up = s.keyed(laws::pressed(KeyCode::Up)).ui.tokens;
            let down = s.keyed(laws::pressed(KeyCode::Down)).ui.tokens;
            let enter = s.keyed(laws::pressed(KeyCode::Enter)).ui.tokens;
            let list = s.ui.tokens.view == TokenView::Models;
            &&& !list && n > 0 ==> enter.view == TokenView::Models && enter.model_cursor == 0
            &&& !list && n == 0 ==> enter == s.ui.tokens
            &&& !list ==> up == s.ui.tokens && down == s.ui.tokens
            &&& list && cur < n ==> {
                &&& up.model_cursor == (if cur == 0 {
                    n - 1
                } else {
                    cur - 1
                })
                &&& down.model_cursor == (if cur + 1 == n {
                    0
                } else {
                    cur + 1
                })
            }
        }),
{
    lemma_global(s, KeyCode::Up);
    lemma_global(s, KeyCode::Down);
    lemma_global(s, KeyCode::Enter);
    lemma_disarmed(s);
    reveal(AppView::global_keyed);
    reveal(AppView::tab_keyed);
    reveal(AppView::tokens_keyed);
    reveal(AppView::models_entered);
    reveal(AppView::model_stepped);
    reveal(AppView::on);
    if s.ui.tokens.model_cursor < s.token_model_count() {
        lists_step_by_one(s.ui.tokens.model_cursor, s.token_model_count() as usize);
    }
}

/// The menu of a tab offers what can be done there: switching only to an account that is not the
/// active one, a page only where an incident is under the cursor.
pub proof fn menus_offer_what_can_be_done(s: AppView)
    ensures
        ({
            let v = s.menu_actions();
            let on = s.ui.profile_cursor < s.config.profiles.len();
            let name = s.config.profiles[s.ui.profile_cursor as int].name;
            &&& s.ui.tab == Tab::Overview ==> {
                &&& v.contains(ActionMenuAction::SwitchToSelected) <==> on
                    && s.config.state.active_profile != Some(name)
                &&& v.contains(ActionMenuAction::NewAccount)
                &&& v.contains(ActionMenuAction::RefreshUsage)
                &&& v.contains(ActionMenuAction::RotateTokens)
            }
            &&& s.ui.tab == Tab::Status ==> {
                &&& v.contains(ActionMenuAction::RefreshStatus)
                &&& v.contains(ActionMenuAction::OpenIncidentLink) <==> s.status.cursor
                    < s.status.incidents.len()
            }
            &&& s.ui.tab == Tab::Usage ==> {
                &&& v.contains(ActionMenuAction::RefreshUsage)
                &&& v.contains(ActionMenuAction::ToggleEstimates)
                &&& v.contains(ActionMenuAction::TogglePace)
            }
            &&& s.ui.tab == Tab::Config || s.ui.tab == Tab::Plugin ==> v.len() == 0
        }),
{
    reveal(AppView::menu_actions);
    let v = s.menu_actions();
    if s.ui.tab == Tab::Overview {
        let k = if s.can_switch() {
            1int
        } else {
            0int
        };
        assert(v[k] == ActionMenuAction::NewAccount);
        assert(v[k + 1] == ActionMenuAction::RefreshUsage);
        assert(v[k + 2] == ActionMenuAction::RotateTokens);
        if s.can_switch() {
            assert(v[0] == ActionMenuAction::SwitchToSelected);
        }
    } else if s.ui.tab == Tab::Status {
        assert(v[0] == ActionMenuAction::RefreshStatus);
        if s.status.selected() is Some {
            assert(v[1] == ActionMenuAction::OpenIncidentLink);
        }
    } else if s.ui.tab == Tab::Usage {
        assert(v[0] == ActionMenuAction::RefreshUsage);
        assert(v[1] == ActionMenuAction::ToggleEstimates);
        assert(v[2] == ActionMenuAction::TogglePace);
    }
}

/// `a` opens the menu of what can be done here, on its first entry, and nothing where there is
/// nothing to do.
pub proof fn menus_open_on_what_is_offered(s: AppView)
    requires
        at_large(s),
    ensures
        ({
            let c = members::calmed(s);
            let t = s.keyed(laws::pressed(KeyCode::Char('a')));
            let v = c.menu_actions();
            &&& v.len() == 0 ==> t == c
            &&& v.len() > 0 ==> {
                &&& t == AppView { modals: t.modals, ..c }
                &&& t.modals.last() is ActionMenu
                &&& t.modals.last()->ActionMenu_0.cursor == 0
                &&& t.modals.last()->ActionMenu_0.items.len() == v.len()
                &&& forall|i: int|
                    0 <= i < v.len() ==> (#[trigger] t.modals.last()->ActionMenu_0.items[i]).action
                        == v[i]
            }
        }),
{
    lemma_letter(s, 'a');
    lemma_disarmed(s);
    reveal(AppView::char_keyed);
    reveal(AppView::menu_keyed);
    reveal(AppView::with_modal);
}

} // verus!
