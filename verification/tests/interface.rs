//! The interface as a whole: what keys, answers and news do.

use clauth_tui::chain;
use clauth_tui::clock::ProfileActivity;
use clauth_tui::events;
use clauth_tui::events::{OpResult, TokensEvent, UpdateEvent};
use clauth_tui::feed::StatusEvent;
use clauth_tui::forms::{
    Banner, BannerSeverity, ConfigFocus, ConfigRow, ConfirmAction, ConfirmState, FallbackFocus,
    LoginSession, LoginStage, Modal, ToastKind,
};
use clauth_tui::host::Host;
use clauth_tui::key::{Key, KeyCode};
use clauth_tui::model::{
    AppConfig, AppState, DivergenceChoice, FetchStatus, ModelSettings, Profile, ProfileFacts, Tier,
    Toggles,
};
use clauth_tui::nav;
use clauth_tui::plugin::LinkState;
use clauth_tui::requests::{AutoSwitch, CaptureFacts, Reply, Request, StartupSignal};
use clauth_tui::session;
use clauth_tui::session::{AuthGate, LoginEvent};
use clauth_tui::settings;
use clauth_tui::settle;
use clauth_tui::setup;
use clauth_tui::state::{App, MainItemKind, TokenModels};
use clauth_tui::tabs::{Tab, TokenFilter, TokenPeriod, TokenView};
use clauth_tui::usage;
use clauth_tui::usage::{BellReading, StatusReading};

fn host() -> Host {
    Host {
        product: "Agent Code".to_string(),
        command: "agent".to_string(),
        family: "agent".to_string(),
        brand: "Agent".to_string(),
        site: "agent.example".to_string(),
    }
}

fn profile(name: &str) -> Profile {
    Profile {
        name: name.to_string(),
        base_url: None,
        api_key: None,
        models: ModelSettings { default: None, opus: None, sonnet: None, haiku: None, subagent: None },
        env: Vec::new(),
        auto_start: false,
        last_resort: false,
        facts: ProfileFacts {
            is_oauth: true,
            login_is_oauth: true,
            is_third_party: false,
            has_credentials: true,
            has_threshold: true,
            exhausted: false,
        },
        threshold_text: "95".to_string(),
        fetch_status: Some(FetchStatus::Fresh),
    }
}

fn config(names: &[&str], active: Option<&str>, chain: &[&str]) -> AppConfig {
    AppConfig {
        profiles: names.iter().map(|n| profile(n)).collect(),
        state: AppState {
            active_profile: active.map(|a| a.to_string()),
            fallback_chain: chain.iter().map(|c| c.to_string()).collect(),
            theme: None,
            default_divergence: None,
            toggles: Toggles {
                wrap_off: false,
                burn_aware_switching: false,
                preemptive_rotation: false,
                show_estimates: false,
                count_cache: false,
                show_pace: false,
            },
            refresh_interval_ms: 90_000,
            weekly_text: "98".to_string(),
        },
    }
}

fn app() -> App {
    App::new(
        host(),
        config(&["work", "home", "spare"], Some("work"), &["work", "home"]),
        Tier::Full,
        1_000_000,
    )
}

fn key(code: KeyCode) -> Key {
    Key { code, control: false, shift: false, press: true }
}

fn press(app: &mut App, code: KeyCode) {
    nav::handle_key(app, key(code));
}

fn bodies(app: &App) -> Vec<&str> {
    app.toasts.iter().map(|t| t.body.as_str()).collect()
}

// ── messages, marks, cursors ────────────────────────────────────────────────

#[test]
fn at_most_three_messages_show_and_the_newest_always() {
    let mut a = app();
    for body in ["one", "two", "three", "four"] {
        a.toast(ToastKind::Info, body);
    }
    assert_eq!(bodies(&a), vec!["two", "three", "four"]);
    a.pop_toast();
    assert_eq!(bodies(&a), vec!["three", "four"]);
}

#[test]
fn messages_expire_and_dangers_last_longer() {
    let mut a = app();
    a.toast(ToastKind::Danger, "danger");
    a.toast(ToastKind::Info, "info");
    a.ui.now_ms += 3000;
    a.prune_toasts();
    assert_eq!(bodies(&a), vec!["danger", "info"]);
    a.ui.now_ms += 3000;
    a.prune_toasts();
    assert!(a.toasts.is_empty());
}

#[test]
fn marks_only_rise_and_never_on_the_shown_tab() {
    let mut a = app();
    a.set_tab_activity(Tab::Overview, ToastKind::Danger);
    assert_eq!(a.ui.marks.get(Tab::Overview), None);
    a.set_tab_activity(Tab::Status, ToastKind::Warning);
    a.set_tab_activity(Tab::Status, ToastKind::Info);
    assert_eq!(a.ui.marks.get(Tab::Status), Some(ToastKind::Warning));
    a.set_tab_activity(Tab::Status, ToastKind::Danger);
    assert_eq!(a.ui.marks.get(Tab::Status), Some(ToastKind::Danger));
    nav::switch_tab(&mut a, Tab::Status);
    assert_eq!(a.ui.marks.get(Tab::Status), None);
}

#[test]
fn filtered_models_add_up() {
    let mut a = app();
    a.token_models = TokenModels {
        lifetime: vec![true, false, true],
        daily: vec![false],
        weekly: Vec::new(),
        monthly: vec![true],
    };
    assert_eq!(a.token_model_count(), 3);
    a.ui.tokens.model_cursor = 2;
    nav::set_token_filter(&mut a, TokenFilter::Claude);
    assert_eq!(a.token_model_count(), 2);
    assert_eq!(a.ui.tokens.model_cursor, 1);
    nav::set_token_filter(&mut a, TokenFilter::Others);
    assert_eq!(a.token_model_count(), 1);
    assert_eq!(a.ui.tokens.model_cursor, 0);
    nav::set_token_period(&mut a, TokenPeriod::Weekly);
    assert_eq!(a.token_model_count(), 0);
}

#[test]
fn the_account_list_is_one_entry_per_account() {
    let mut a = app();
    assert_eq!(
        a.main_items(),
        vec![MainItemKind::Profile(0), MainItemKind::Profile(1), MainItemKind::Profile(2)],
    );
    assert_eq!(a.profile_name_at(1), Some("home".to_string()));
    assert_eq!(a.profile_name_at(3), None);
    a.ui.profile_cursor = 9;
    assert_eq!(a.current_main_item(), None);
    a.clamp_profile_cursor();
    assert_eq!(a.current_main_item(), Some(MainItemKind::Profile(2)));
}

// ── tabs and keys ───────────────────────────────────────────────────────────

#[test]
fn quitting_takes_two_presses() {
    let mut a = app();
    press(&mut a, KeyCode::Char('q'));
    assert!(!a.ui.exit.quit);
    assert!(a.footer_alert.is_some());
    press(&mut a, KeyCode::Right);
    assert!(!a.ui.exit.armed);
    assert_eq!(a.footer_alert, None);
    press(&mut a, KeyCode::Char('q'));
    press(&mut a, KeyCode::Char('q'));
    assert!(a.ui.exit.quit);
}

#[test]
fn control_c_quits_under_a_dialog_and_releases_do_nothing() {
    let mut a = app();
    a.push_modal(Modal::Help);
    nav::handle_key(
        &mut a,
        Key { code: KeyCode::Char('c'), control: true, shift: false, press: false },
    );
    assert!(!a.ui.exit.quit);
    nav::handle_key(
        &mut a,
        Key { code: KeyCode::Char('c'), control: true, shift: false, press: true },
    );
    assert!(a.ui.exit.quit);
}

#[test]
fn switching_tabs_leaves_no_draft_behind() {
    let mut a = app();
    nav::switch_tab(&mut a, Tab::Setup);
    press(&mut a, KeyCode::Enter);
    assert_eq!(a.ui.config_focus, ConfigFocus::Actions);
    assert!(a.config_draft.is_some());
    assert!(a.has_sub_focus());
    a.ui.profile_cursor = 3;
    nav::switch_tab(&mut a, Tab::Usage);
    assert_eq!(a.ui.tab, Tab::Usage);
    assert!(a.config_draft.is_none());
    assert!(!a.has_sub_focus());
    assert_eq!(a.ui.profile_cursor, 2);
}

#[test]
fn scrolling_stays_within_the_content() {
    assert_eq!(nav::scroll_up(0), 0);
    assert_eq!(nav::scroll_down(3, 3), 3);
    assert_eq!(nav::scroll_down(2, 3), 3);
    assert_eq!(nav::scroll_down(nav::scroll_up(2), 3), 2);
}

#[test]
fn the_tokens_tab_opens_and_leaves_its_list() {
    let mut a = app();
    a.token_models.lifetime = vec![true, false];
    a.ui.tokens.loaded = true;
    nav::switch_tab(&mut a, Tab::Tokens);
    press(&mut a, KeyCode::Enter);
    assert_eq!(a.ui.tokens.view, TokenView::Models);
    press(&mut a, KeyCode::Down);
    assert_eq!(a.ui.tokens.model_cursor, 1);
    press(&mut a, KeyCode::Esc);
    assert_eq!(a.ui.tokens.view, TokenView::Dashboard);
}

#[test]
fn the_menu_is_opened_by_its_key_and_runs_entries() {
    let mut a = app();
    press(&mut a, KeyCode::Char('a'));
    let menu = match a.modals.last() {
        Some(Modal::ActionMenu(m)) => m,
        _ => panic!("the menu is not open"),
    };
    let at = menu.items.iter().position(|i| i.label == "new account").unwrap();
    let hotkey = menu.items[at].hotkey.unwrap();
    press(&mut a, KeyCode::Char(hotkey));
    assert!(a.modals.is_empty());
    assert_eq!(a.ui.tab, Tab::Setup);
    assert_eq!(a.ui.profile_cursor, 3);
}

// ── dialogs ─────────────────────────────────────────────────────────────────

#[test]
fn escape_closes_a_dialog_and_runs_nothing() {
    let mut a = app();
    a.ui.profile_cursor = 1;
    press(&mut a, KeyCode::Enter);
    assert!(matches!(a.modals.last(), Some(Modal::Confirm(_))));
    press(&mut a, KeyCode::Esc);
    assert!(a.modals.is_empty());
    assert!(a.requests.is_empty());
}

#[test]
fn a_switch_is_asked_about_and_then_probed() {
    let mut a = app();
    a.ui.profile_cursor = 1;
    press(&mut a, KeyCode::Enter);
    match a.modals.last() {
        Some(Modal::Confirm(c)) => {
            assert_eq!(c.message, "Switch to 'home'?");
            assert!(c.choice);
        },
        _ => panic!("nothing is asked"),
    }
    press(&mut a, KeyCode::Enter);
    let asked = a.take_requests();
    assert_eq!(asked.len(), 1);
    assert!(matches!(&asked[0], Request::ProbeSwitch(n) if n == "home"));
}

#[test]
fn a_no_runs_nothing() {
    let mut a = app();
    a.push_modal(
        Modal::Confirm(
            ConfirmState {
                message: "rotate?".to_string(),
                detail: None,
                choice: false,
                on_confirm: ConfirmAction::RotateAll,
            },
        ),
    );
    press(&mut a, KeyCode::Enter);
    assert!(a.modals.is_empty());
    assert!(a.requests.is_empty());
}

#[test]
fn the_active_account_is_not_switched_to() {
    let mut a = app();
    session::request_switch_to(&mut a, 0);
    assert!(a.modals.is_empty());
    session::request_switch_to(&mut a, 7);
    assert!(a.modals.is_empty());
}

// ── settings ────────────────────────────────────────────────────────────────

#[test]
fn rows_wrap_at_both_ends() {
    assert_eq!(settings::row_up(0, 6), 6);
    assert_eq!(settings::row_down(6, 6), 0);
    assert_eq!(settings::row_down(settings::row_up(3, 6), 6), 3);
    assert_eq!(settings::clamp_row(9, 6), 6);
    assert_eq!(setup::cycle_cursor(0, true, 3), 2);
    assert_eq!(setup::cycle_cursor(2, false, 3), 0);
}

#[test]
fn intervals_are_read_in_seconds_within_bounds() {
    assert_eq!(settings::parse_refresh_secs("90"), Some(90_000));
    assert_eq!(settings::parse_refresh_secs("+10"), Some(10_000));
    assert_eq!(settings::parse_refresh_secs("9"), None);
    assert_eq!(settings::parse_refresh_secs("3600"), Some(3_600_000));
    assert_eq!(settings::parse_refresh_secs("3601"), None);
    assert_eq!(settings::parse_refresh_secs("ten"), None);
    assert_eq!(settings::parse_refresh_secs(""), None);
    assert_eq!(settings::parse_number("18446744073709551615"), Some(u64::MAX));
    assert_eq!(settings::parse_number("18446744073709551616"), None);
}

#[test]
fn interval_steps_climb_through_the_presets() {
    let mut a = app();
    settings::step_refresh_interval(&mut a);
    assert_eq!(a.ui.refresh_interval, 120_000);
    settings::step_refresh_interval(&mut a);
    assert_eq!(a.ui.refresh_interval, 300_000);
    settings::step_refresh_interval(&mut a);
    assert_eq!(a.ui.refresh_interval, 15_000);
}

#[test]
fn a_refused_interval_keeps_the_field_open() {
    let mut a = app();
    nav::switch_tab(&mut a, Tab::Config);
    press(&mut a, KeyCode::Down);
    press(&mut a, KeyCode::Down);
    press(&mut a, KeyCode::Enter);
    assert_eq!(a.refresh_interval_draft.as_ref().unwrap().value(), "90");
    press(&mut a, KeyCode::Backspace);
    press(&mut a, KeyCode::Backspace);
    press(&mut a, KeyCode::Char('5'));
    press(&mut a, KeyCode::Enter);
    assert_eq!(a.refresh_interval_draft.as_ref().unwrap().value(), "5");
    assert_eq!(a.ui.refresh_interval, 90_000);
    press(&mut a, KeyCode::Char('0'));
    press(&mut a, KeyCode::Enter);
    assert!(a.refresh_interval_draft.is_none());
    assert_eq!(a.ui.refresh_interval, 50_000);
}

#[test]
fn a_typed_weekly_line_is_looked_at_outside() {
    let mut a = app();
    settings::begin_weekly_threshold_edit(&mut a);
    settings::commit_weekly_threshold_edit(&mut a);
    let asked = a.take_requests();
    assert!(matches!(&asked[0], Request::CommitWeekly(raw) if raw == "98"));
    settle::settle(&mut a, Request::CommitWeekly("x".to_string()), Reply::Invalid);
    assert!(a.weekly_threshold_draft.is_some());
    settle::settle(&mut a, Request::CommitWeekly("98".to_string()), Reply::Done);
    assert!(a.weekly_threshold_draft.is_none());
}

#[test]
fn flipping_a_setting_twice_restores_it() {
    let mut a = app();
    settings::toggle_wrap_off(&mut a);
    assert!(a.config.state.toggles.wrap_off);
    settings::toggle_wrap_off(&mut a);
    assert!(!a.config.state.toggles.wrap_off);
    settings::cycle_theme(&mut a);
    assert_eq!(a.ui.tier, Tier::Compatible);
    settings::cycle_theme(&mut a);
    assert_eq!(a.ui.tier, Tier::Full);
}

#[test]
fn divergence_defaults_form_one_cycle() {
    let mut a = app();
    let mut seen = Vec::new();
    for _ in 0..4 {
        settings::cycle_divergence_default(&mut a);
        seen.push(a.config.state.default_divergence);
    }
    assert_eq!(seen[3], None);
    assert!(seen.contains(&Some(DivergenceChoice::Overwrite)));
    assert!(seen.contains(&Some(DivergenceChoice::NewProfile)));
    assert!(seen.contains(&Some(DivergenceChoice::Discard)));
}

// ── switching and logins ────────────────────────────────────────────────────

#[test]
fn an_unsaved_login_blocks_a_switch() {
    let mut a = app();
    settle::settle(
        &mut a,
        Request::GuardSwitch { active: "work".to_string(), name: "home".to_string() },
        Reply::Link { state: Some(LinkState::Diverged), first_login: false },
    );
    let asked = a.take_requests();
    assert_eq!(asked.len(), 2);
    assert!(matches!(&asked[0], Request::ClearActivity(n) if n == "home"));
    assert!(matches!(&asked[1], Request::FindOwner(n) if n == "work"));
    assert_eq!(a.toasts.len(), 1);
}

#[test]
fn a_saved_login_lets_the_switch_go_on() {
    let mut a = app();
    settle::settle(
        &mut a,
        Request::GuardSwitch { active: "work".to_string(), name: "home".to_string() },
        Reply::Link { state: Some(LinkState::LinkedTo), first_login: false },
    );
    let asked = a.take_requests();
    assert!(matches!(&asked[0], Request::SwitchProfile(n) if n == "home"));
    settle::settle(&mut a, Request::SwitchProfile("home".to_string()), Reply::Done);
    assert_eq!(bodies(&a), vec!["switched to 'home'"]);
    settle::settle(
        &mut a,
        Request::SwitchProfile("home".to_string()),
        Reply::Failed("disk full".to_string()),
    );
    assert_eq!(bodies(&a), vec!["switched to 'home'", "switch failed: disk full"]);
}

#[test]
fn the_gate_decides_about_a_switch() {
    let mut a = app();
    session::on_switch_gate(&mut a, "home", AuthGate::Ready);
    let asked = a.take_requests();
    assert!(asked.iter().any(|r| matches!(r, Request::GuardSwitch { name, .. } if name == "home")));
    session::on_switch_gate(&mut a, "home", AuthGate::Broken);
    let asked = a.take_requests();
    assert!(!asked.iter().any(|r| matches!(r, Request::GuardSwitch { .. })));
    assert_eq!(a.toasts.last().unwrap().kind, ToastKind::Danger);
}

#[test]
fn news_of_a_superseded_login_is_dropped() {
    let mut a = app();
    session::start_login(&mut a, "work".to_string(), false);
    let generation = a.login.as_ref().unwrap().generation;
    a.take_requests();
    session::on_login_event(
        &mut a,
        generation + 1,
        LoginEvent::Url("https://example.invalid".to_string()),
    );
    assert_eq!(a.login.as_ref().unwrap().url, None);
    session::on_login_result(&mut a, generation + 1, Err("late".to_string()));
    assert!(a.login.is_some());
    session::on_login_event(&mut a, generation, LoginEvent::Stage(LoginStage::Verifying));
    assert_eq!(a.login.as_ref().unwrap().stage, LoginStage::Verifying);
    session::on_login_result(&mut a, generation, Err("refused".to_string()));
    assert!(a.login.is_none());
    assert_eq!(a.toasts.last().unwrap().kind, ToastKind::Danger);
}

#[test]
fn a_login_in_flight_is_kept() {
    let mut a = app();
    a.login = Some(
        LoginSession {
            name: "work".to_string(),
            is_new: false,
            generation: 4,
            url: None,
            stage: LoginStage::ExchangingCode,
        },
    );
    session::start_login(&mut a, "home".to_string(), false);
    let s = a.login.as_ref().unwrap();
    assert_eq!(s.name, "work");
    assert_eq!(s.generation, 4);
    assert!(a.requests.is_empty());
    assert!(matches!(a.modals.last(), Some(Modal::Login)));
}

#[test]
fn a_login_of_another_account_is_only_noted() {
    let mut a = app();
    a.config.state.default_divergence = Some(DivergenceChoice::Discard);
    settle::settle(
        &mut a,
        Request::NoteOwner { active: "work".to_string(), fingerprint: Some(7) },
        Reply::Name(Some("home".to_string())),
    );
    let n = a.divergence_pending.as_ref().unwrap();
    assert_eq!(n.active, "work");
    assert_eq!(n.sibling, Some("home".to_string()));
    assert_eq!(n.fingerprint, Some(7));
    assert!(a.requests.is_empty());
}

#[test]
fn fingerprints_tell_tokens_apart() {
    assert_eq!(session::live_creds_fingerprint(None), None);
    assert_eq!(session::live_creds_fingerprint(Some("")), None);
    let a = session::live_creds_fingerprint(Some("token-a"));
    assert!(a.is_some());
    assert_eq!(a, session::live_creds_fingerprint(Some("token-a")));
    assert_ne!(a, session::live_creds_fingerprint(Some("token-b")));
}

#[test]
fn a_captured_login_asks_for_a_name() {
    let mut a = app();
    settle::settle(
        &mut a,
        Request::CaptureBegin(false),
        Reply::Captured {
            slot: 3,
            found: CaptureFacts { oauth: true, base_url: false, api_key: false },
            owner: None,
        },
    );
    match a.modals.last() {
        Some(Modal::CaptureName(f)) => assert_eq!(f.slot, 3),
        _ => panic!("no name is asked for"),
    }
}

#[test]
fn an_answer_that_does_not_fit_changes_nothing() {
    let mut a = app();
    settle::settle(&mut a, Request::SaveState, Reply::Flag(true));
    settle::settle(&mut a, Request::ProbeBusy, Reply::Fingerprint(Some(1)));
    assert!(a.requests.is_empty());
    assert!(a.toasts.is_empty());
    assert!(a.modals.is_empty());
}

// ── the chain ───────────────────────────────────────────────────────────────

#[test]
fn moving_a_member_there_and_back_restores_the_chain() {
    let mut a = app();
    nav::switch_tab(&mut a, Tab::Fallback);
    a.ui.chain_cursor = 1;
    clauth_tui::chain::reorder_chain_member(&mut a, true);
    assert_eq!(a.config.state.fallback_chain, vec!["home".to_string(), "work".to_string()]);
    assert_eq!(a.ui.chain_cursor, 0);
    clauth_tui::chain::reorder_chain_member(&mut a, false);
    assert_eq!(a.config.state.fallback_chain, vec!["work".to_string(), "home".to_string()]);
    assert_eq!(a.ui.chain_cursor, 1);
}

#[test]
fn members_and_candidates_are_all_accounts() {
    let a = app();
    assert_eq!(clauth_tui::chain::chain_candidates(&a.config), vec!["spare".to_string()]);
    assert_eq!(clauth_tui::chain::chain_items(&a.config).len(), 3);
}

#[test]
fn removing_a_member_leaves_the_others() {
    let mut a = app();
    nav::switch_tab(&mut a, Tab::Fallback);
    a.ui.chain_cursor = 0;
    a.ui.fallback_focus = FallbackFocus::Detail;
    clauth_tui::chain::remove_chain_member(&mut a);
    assert_eq!(a.config.state.fallback_chain, vec!["home".to_string()]);
}

#[test]
fn the_last_resort_is_exclusive() {
    let mut a = app();
    a.config.profiles[2].last_resort = true;
    a.config.profiles[0].last_resort = true;
    settle::settle(
        &mut a,
        Request::SaveLastResort { name: "work".to_string(), on: true },
        Reply::Done,
    );
    let asked = a.take_requests();
    let names = asked.iter().find_map(
        |r| match r {
            Request::SaveCleared(n) => Some(n.clone()),
            _ => None,
        },
    ).unwrap();
    assert_eq!(names, vec!["spare".to_string()]);
    settle::settle(&mut a, Request::SaveCleared(names), Reply::Saved(vec![true]));
    assert!(a.config.profiles[0].last_resort);
    assert!(!a.config.profiles[2].last_resort);
}

// ── accounts ────────────────────────────────────────────────────────────────

#[test]
fn a_failed_flip_of_auto_start_is_taken_back() {
    let mut a = app();
    setup::toggle_auto_start(&mut a, "work");
    assert!(a.config.profiles[0].auto_start);
    settle::settle(
        &mut a,
        Request::SaveAutoStart { name: "work".to_string(), on: true },
        Reply::Failed("disk full".to_string()),
    );
    assert!(!a.config.profiles[0].auto_start);
}

#[test]
fn the_rows_of_an_account_follow_its_kind() {
    let mut a = app();
    nav::switch_tab(&mut a, Tab::Setup);
    let rows = setup::config_rows(&a);
    assert_eq!(rows[0], ConfigRow::Name);
    assert_eq!(*rows.last().unwrap(), ConfigRow::Delete);
    assert!(rows.contains(&ConfigRow::AutoStart));
    assert!(!rows.contains(&ConfigRow::ApiKey));
    a.config.profiles[0].facts.is_oauth = false;
    let rows = setup::config_rows(&a);
    assert!(!rows.contains(&ConfigRow::AutoStart));
    assert!(rows.contains(&ConfigRow::ApiKey));
}

#[test]
fn a_new_name_is_checked_before_an_account_is_made() {
    let mut a = app();
    nav::start_new_account(&mut a);
    assert_eq!(a.ui.profile_cursor, 3);
    a.config_draft.as_mut().unwrap().name = clauth_tui::input::InputState::new(" fresh ");
    setup::commit_new_account(&mut a);
    let asked = a.take_requests();
    assert!(matches!(&asked[0], Request::CheckNewName(n) if n == "fresh"));
    settle::settle(
        &mut a,
        Request::CheckNewName("fresh".to_string()),
        Reply::Failed("name taken".to_string()),
    );
    assert_eq!(bodies(&a), vec!["name taken"]);
    settle::settle(&mut a, Request::CheckNewName("fresh".to_string()), Reply::Done);
    let asked = a.take_requests();
    assert!(asked.iter().any(|r| matches!(r, Request::CreateProfile { name, .. } if name == "fresh")));
}

#[test]
fn environment_keys_are_ruled_out_by_their_shape() {
    assert!(setup::is_bad_env_key("A=B"));
    assert!(setup::is_bad_env_key("A B"));
    assert!(!setup::is_bad_env_key("HTTP_PROXY"));
}

// ── news ────────────────────────────────────────────────────────────────────

#[test]
fn status_news_end_the_refresh() {
    let mut a = app();
    nav::trigger_status_refresh(&mut a);
    assert!(a.status.fetching);
    events::on_status_event(&mut a, StatusEvent::Failed("offline".to_string()));
    assert!(!a.status.fetching);
    assert!(a.status.error.is_some());
}

#[test]
fn failed_statistics_keep_those_that_were_shown() {
    let mut a = app();
    events::on_tokens_event(
        &mut a,
        TokensEvent::Loaded(
            TokenModels {
                lifetime: vec![true],
                daily: Vec::new(),
                weekly: Vec::new(),
                monthly: Vec::new(),
            },
        ),
    );
    assert!(a.ui.tokens.loaded);
    events::on_tokens_event(&mut a, TokensEvent::Failed);
    assert!(a.ui.tokens.loaded);
    assert_eq!(a.token_models.lifetime, vec![true]);
}

#[test]
fn updates_are_announced() {
    let mut a = app();
    events::on_update_event(&mut a, UpdateEvent::Available("2.0".to_string()));
    assert_eq!(a.toasts[0].kind, ToastKind::Info);
    assert!(a.toasts[0].body.contains("2.0"));
}

#[test]
fn ended_rotations_rebuild_the_snapshot_once() {
    let mut a = app();
    events::drain_op_results(
        &mut a,
        vec![
            OpResult { name: "work".to_string(), failure: None },
            OpResult { name: "home".to_string(), failure: Some("expired".to_string()) },
            OpResult { name: "spare".to_string(), failure: None },
        ],
    );
    assert_eq!(
        bodies(&a),
        vec![
            "rotated token for 'work'",
            "refresh for 'home' failed: expired",
            "rotated token for 'spare'",
        ],
    );
    let asked = a.take_requests();
    assert_eq!(asked.iter().filter(|r| matches!(r, Request::RefreshTokens)).count(), 1);
    assert_eq!(a.ui.marks.get(Tab::Usage), Some(ToastKind::Danger));
}

#[test]
fn the_first_fetch_starts_once_and_not_under_a_dialog() {
    let mut a = app();
    events::maybe_spawn_bootstrap(&mut a);
    assert!(a.requests.is_empty());
    events::on_startup_signal(&mut a, StartupSignal::ReconcileDone);
    a.push_modal(Modal::Help);
    events::maybe_spawn_bootstrap(&mut a);
    assert!(a.requests.is_empty());
    a.pop_modal();
    events::maybe_spawn_bootstrap(&mut a);
    events::maybe_spawn_bootstrap(&mut a);
    let asked = a.take_requests();
    assert_eq!(asked.len(), 1);
    assert!(matches!(asked[0], Request::SpawnBootstrap));
    assert!(a.ui.startup.bootstrap_active);
}

#[test]
fn the_start_switches_only_on_a_reading_of_now() {
    let mut a = app();
    events::reconcile_startup(&mut a);
    assert!(matches!(&a.take_requests()[0], Request::CompareLogin(n) if n == "work"));
    events::on_startup_signal(&mut a, StartupSignal::BootstrapDone);
    let asked = a.take_requests();
    assert!(matches!(asked.last(), Some(Request::ProbeDaemon)));
    settle::settle(&mut a, Request::ProbeDaemon, Reply::Flag(true));
    assert!(a.requests.is_empty());
    settle::settle(&mut a, Request::ProbeDaemon, Reply::Flag(false));
    assert!(matches!(&a.take_requests()[0], Request::StartupSwitch));
    a.config.profiles[0].fetch_status = Some(FetchStatus::Cached);
    settle::settle(&mut a, Request::ProbeDaemon, Reply::Flag(false));
    assert!(a.requests.is_empty());
    settle::settle(
        &mut a,
        Request::StartupSwitch,
        Reply::Switched(Some(AutoSwitch::To("home".to_string()))),
    );
    assert_eq!(bodies(&a), vec!["auto-switched to 'home'"]);
}

#[test]
fn a_missing_active_account_outranks_every_warning() {
    let mut a = app();
    a.ui.compact = true;
    events::update_banner(&mut a);
    let Banner { severity, message } = a.banner.take().unwrap();
    assert_eq!(severity, BannerSeverity::Warning);
    assert_eq!(message, "terminal too small · enlarge for full layout");
    a.config.state.active_profile = None;
    events::update_banner(&mut a);
    assert_eq!(a.banner.as_ref().unwrap().severity, BannerSeverity::Danger);
    assert_eq!(
        a.banner.as_ref().unwrap().message,
        "no active profile · select one to resume",
    );
    a.config.profiles[1].facts.exhausted = true;
    events::update_banner(&mut a);
    assert_eq!(
        a.banner.as_ref().unwrap().message,
        "all accounts spent · switch to a profile to resume",
    );
    a.config.state.active_profile = Some("work".to_string());
    a.update_compact(20);
    events::update_banner(&mut a);
    assert!(a.banner.is_none());
}

#[test]
fn leaving_stores_the_login_and_the_settings() {
    let mut a = app();
    events::begin_shutdown(&mut a);
    assert!(a.ui.exit.shutting_down);
    events::finish_shutdown(&mut a);
    let asked = a.take_requests();
    assert!(matches!(asked[0], Request::KeepLogin));
    assert!(matches!(asked[1], Request::SaveState));
    assert!(matches!(asked[2], Request::DetachLink));
    assert_eq!(asked.len(), 3);
}

#[test]
fn ticks_are_counted() {
    let mut a = app();
    events::begin_tick(&mut a);
    events::begin_tick(&mut a);
    assert_eq!(a.ui.tick_count, 2);
}

// ── usage ───────────────────────────────────────────────────────────────────

#[test]
fn an_unreadable_store_changes_nothing() {
    let known = Some(FetchStatus::Cached);
    assert_eq!(
        usage::merge_status(StatusReading::Unreadable, StatusReading::Unreadable, known),
        known,
    );
    assert_eq!(
        usage::merge_status(
            StatusReading::Found(FetchStatus::Fresh),
            StatusReading::Unreadable,
            known,
        ),
        Some(FetchStatus::Fresh),
    );
    assert_eq!(
        usage::merge_status(
            StatusReading::Unreadable,
            StatusReading::Found(FetchStatus::Failed),
            known,
        ),
        Some(FetchStatus::Failed),
    );
    assert_eq!(
        usage::merge_status(StatusReading::Missing, StatusReading::Missing, known),
        None,
    );
    assert!(usage::replaces(true, false, false));
    assert!(!usage::replaces(true, false, true));
    assert!(!usage::replaces(false, true, false));
}

fn reading(over: bool) -> BellReading {
    BellReading {
        name: "work".to_string(),
        status: Some(FetchStatus::Fresh),
        armed: true,
        over,
        percent: "81".to_string(),
    }
}

#[test]
fn a_bell_rings_once_per_crossing() {
    let mut a = app();
    usage::ring_bells(&mut a, &vec![reading(true), reading(true)]);
    assert_eq!(bodies(&a), vec!["bell · work at 81%"]);
    usage::ring_bells(&mut a, &vec![BellReading { status: Some(FetchStatus::Cached), ..reading(false) }]);
    usage::ring_bells(&mut a, &vec![reading(true)]);
    assert_eq!(a.toasts.len(), 1);
    usage::ring_bells(&mut a, &vec![reading(false), reading(true)]);
    assert_eq!(a.toasts.len(), 2);
}

#[test]
fn the_history_records_changes_only() {
    let now = Some("{\"five\":1}".to_string());
    assert!(usage::history_lines(Some(FetchStatus::Fresh), 20, "work", &Some(now.clone()), &now).is_empty());
    assert_eq!(
        usage::history_lines(Some(FetchStatus::Fresh), 20, "work", &None, &now),
        vec!["{\"ts\":20,\"name\":\"work\",\"usage\":{\"five\":1}}".to_string()],
    );
    assert_eq!(
        usage::history_lines(Some(FetchStatus::Fresh), 20, "work", &Some(Some("{}".to_string())), &now),
        vec![
            "{\"ts\":19,\"name\":\"work\",\"usage\":{}}".to_string(),
            "{\"ts\":20,\"name\":\"work\",\"usage\":{\"five\":1}}".to_string(),
        ],
    );
}

#[test]
fn only_live_readings_are_recorded() {
    let now = Some("{}".to_string());
    assert!(usage::records(Some(FetchStatus::Fresh)));
    let stale = [
        None,
        Some(FetchStatus::Cached),
        Some(FetchStatus::RateLimited),
        Some(FetchStatus::Failed),
    ];
    for status in stale {
        assert!(!usage::records(status));
        assert!(usage::history_lines(status, 20, "work", &None, &now).is_empty());
    }
}

#[test]
fn marks_of_other_work_are_left_alone() {
    assert!(events::ends_refresh(ProfileActivity::Refreshing));
    assert!(!events::ends_refresh(ProfileActivity::Switching));
    assert!(!events::ends_refresh(ProfileActivity::Idle));
    assert!(events::queues_refetch(ProfileActivity::Idle));
    assert!(!events::queues_refetch(ProfileActivity::Switching));
}

#[test]
fn names_are_escaped_in_the_history() {
    let none = Some("{}".to_string());
    assert_eq!(
        usage::history_lines(Some(FetchStatus::Fresh), 0, "a\"b\\c\n\u{1}é", &None, &none),
        vec!["{\"ts\":0,\"name\":\"a\\\"b\\\\c\\n\\u0001é\",\"usage\":{}}".to_string()],
    );
}

#[test]
fn accounts_wait_for_a_fetch_after_an_interval() {
    let names: Vec<String> = ["a", "b", "c", "d"].iter().map(|n| n.to_string()).collect();
    let last = vec![None, Some(1_000), Some(1_001), Some(u64::MAX)];
    assert_eq!(usage::due_accounts(&names, &last, 500, 1_500), vec!["a", "b"]);
}

#[test]
fn looks_and_probes_come_at_most_once_a_second() {
    let mut a = app();
    a.ui.now_ms += 1_000;
    session::poll_credentials_divergence(&mut a);
    assert_eq!(a.take_requests().len(), 1);
    session::poll_credentials_divergence(&mut a);
    assert!(a.take_requests().is_empty());
    events::poll_plugin_refresh(&mut a);
    assert!(a.take_requests().is_empty());
    a.ui.tab = Tab::Plugin;
    events::poll_plugin_refresh(&mut a);
    assert!(matches!(
        a.take_requests().as_slice(),
        [Request::ProbePlugin { forced: false, version: true }]
    ));
    events::poll_plugin_refresh(&mut a);
    assert!(a.take_requests().is_empty());
}

#[test]
fn an_account_joins_the_chain_once() {
    let mut a = app();
    for name in chain::chain_candidates(&a.config) {
        chain::add_chain_candidate(&mut a, &name);
    }
    assert_eq!(a.config.state.fallback_chain, vec!["work", "home", "spare"]);
    assert!(chain::chain_candidates(&a.config).is_empty());
}

#[test]
fn an_adopted_login_is_stored_then_saved_then_linked() {
    let mut a = app();
    let store = || Request::AdoptInto { name: "home".to_string(), slot: 7 };
    settle::settle(&mut a, store(), Reply::Failed("disk full".to_string()));
    assert_eq!(bodies(&a), vec!["save failed: disk full"]);
    assert_eq!(a.config.state.active_profile.as_deref(), Some("work"));
    assert!(a.take_requests().is_empty());
    settle::settle(&mut a, store(), Reply::Done);
    assert_eq!(a.config.state.active_profile.as_deref(), Some("home"));
    let asked = a.take_requests();
    assert!(matches!(asked.as_slice(), [Request::SaveAdopted(n)] if n == "home"));
    settle::settle(&mut a, Request::SaveAdopted("home".to_string()), Reply::Done);
    let asked = a.take_requests();
    assert!(matches!(asked.as_slice(), [Request::LinkAdopted(n)] if n == "home"));
    let link = || Request::LinkAdopted("home".to_string());
    settle::settle(&mut a, link(), Reply::Failed("no such file".to_string()));
    assert_eq!(a.config.state.active_profile.as_deref(), Some("home"));
    assert!(a.take_requests().is_empty());
    settle::settle(&mut a, link(), Reply::Done);
    let asked = a.take_requests();
    assert!(matches!(asked.as_slice(), [Request::RefreshTokens, Request::NoteStateTime]));
    assert_eq!(bodies(&a).last(), Some(&"saved the login into 'home', now active"));
}
