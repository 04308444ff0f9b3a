//! What the panes, dialogs and tables show.

use clauth_tui::chain_view;
use clauth_tui::chain_view::{Reason, SpendRoom};
use clauth_tui::chrome::Area;
use clauth_tui::clock::ProfileActivity;
use clauth_tui::delegates;
use clauth_tui::delegates::{Elapsed, JobPhase, RunningLiveness, StoredJob};
use clauth_tui::detail_view;
use clauth_tui::detail_view::{Stat, UsageFigures};
use clauth_tui::feed;
use clauth_tui::feed::{
    Component, Impact, Incident, IncidentUpdate, StatusFocus, StatusState, Transition, UpdatePhase,
};
use clauth_tui::figures::WindowCells;
use clauth_tui::footer;
use clauth_tui::footer::{HerdrOption, HerdrPane, HintSet};
use clauth_tui::forms::{
    ConfigRow, ConfirmAction, ConfirmState, DivergenceForm, DivergenceTargetForm,
    EnvCollisionForm, FallbackRow, GlobalConfigRow, LoginStage,
};
use clauth_tui::help;
use clauth_tui::help::Legend;
use clauth_tui::host::Host;
use clauth_tui::input::InputState;
use clauth_tui::layout;
use clauth_tui::layout::{FieldEdit, Glyphs};
use clauth_tui::menu::{ActionMenuAction, ActionMenuState};
use clauth_tui::modals_view;
use clauth_tui::modals_view::{Asking, LoginScene, PresetEntry};
use clauth_tui::model::{
    AppConfig, AppState, EnvVar, FetchStatus, ModelSettings, Profile, ProfileFacts, Tier, Toggles,
};
use clauth_tui::overview_view;
use clauth_tui::overview_view::{
    AccountRow, ChainFigure, ChainRow, OverviewWidths, OwnUsage, Projection, RowFlags, UsageBar,
    UsageWindow,
};
use clauth_tui::paint;
use clauth_tui::paint::{Fill, Line, Role};
use clauth_tui::picker;
use clauth_tui::plugin::{Check, Health, PluginFix, PluginFocus, PluginState};
use clauth_tui::plugin_view;
use clauth_tui::plugin_view::{HerdrRow, HerdrScene, HerdrSettings, PopupWidth, SelectorRow};
use clauth_tui::settings_view;
use clauth_tui::settings_view::{Presets, SettingsEdits, SettingsScene, ToggleState};
use clauth_tui::setup_view;
use clauth_tui::setup_view::{SessionTokenStatus, Snap};
use clauth_tui::state::App;
use clauth_tui::status_view;
use clauth_tui::status_view::Moments;
use clauth_tui::tabs::{Tab, TokenPeriod};

fn words(l: &Line) -> String {
    l.spans.iter().map(|s| s.text.as_str()).collect()
}

fn all(v: &Vec<Line>) -> Vec<String> {
    v.iter().map(words).collect()
}

fn host() -> Host {
    Host {
        product: "Agent Code".to_string(),
        command: "agent".to_string(),
        family: "agent".to_string(),
        brand: "Agent".to_string(),
        site: "agent.example".to_string(),
    }
}

fn glyphs() -> Glyphs {
    Glyphs { edit: "✎".to_string(), on: "◉ on".to_string(), off: "○ off".to_string() }
}

fn profile(name: &str) -> Profile {
    Profile {
        name: name.to_string(),
        base_url: None,
        api_key: None,
        models: ModelSettings { default: None, opus: None, sonnet: None, haiku: None, subagent: None },
        env: Vec::new(),
        auto_start: false,
        last_resort: false,
        facts: ProfileFacts {
            is_oauth: true,
            login_is_oauth: true,
            is_third_party: false,
            has_credentials: true,
            has_threshold: true,
            exhausted: false,
        },
        threshold_text: "95".to_string(),
        fetch_status: Some(FetchStatus::Fresh),
    }
}

fn config(names: &[&str], active: Option<&str>, chain: &[&str]) -> AppConfig {
    AppConfig {
        profiles: names.iter().map(|n| profile(n)).collect(),
        state: AppState {
            active_profile: active.map(|a| a.to_string()),
            fallback_chain: chain.iter().map(|c| c.to_string()).collect(),
            theme: None,
            default_divergence: None,
            toggles: Toggles {
                wrap_off: false,
                burn_aware_switching: false,
                preemptive_rotation: false,
                show_estimates: false,
                count_cache: false,
                show_pace: false,
            },
            refresh_interval_ms: 90_000,
            weekly_text: "98".to_string(),
        },
    }
}

// ── the footer ──────────────────────────────────────────────────────────────

#[test]
fn hints_leave_from_the_right_and_help_stays() {
    let full = footer::hint_line(&HintSet::StatusList.hints());
    let wide = footer::fit_hints(HintSet::StatusList.hints(), 200);
    assert_eq!(words(&footer::hint_line(&wide)), words(&full));
    let narrow = footer::fit_hints(HintSet::StatusList.hints(), 1);
    let keys: Vec<&str> = narrow.iter().map(|h| h.key).collect();
    assert!(keys.contains(&"?"));
    assert!(keys.len() < 5);
    for width in 0..80u16 {
        let fitted = footer::fit_hints(HintSet::StatusList.hints(), width);
        assert!(fitted.len() >= narrow.len());
    }
}

#[test]
fn the_footer_follows_the_tab() {
    let mut app = App::new(host(), config(&["work"], Some("work"), &[]), Tier::Full, 0);
    let pane = HerdrPane { shown: false, row: None, editing: false, writable: false };
    assert!(words(&footer::footer_line(&app, pane, false, "⠋", 200)).contains("reorder"));
    app.ui.tab = Tab::Status;
    assert!(words(&footer::footer_line(&app, pane, false, "⠋", 200)).contains("incident"));
    assert_eq!(
        footer::inset_x(Area { x: 2, y: 1, width: 10, height: 3 }, 1),
        Area { x: 3, y: 1, width: 8, height: 3 },
    );
}

#[test]
fn the_fix_key_is_hinted_where_there_is_a_fix() {
    let rows = [
        None,
        Some(HerdrOption::TagRefresh),
        Some(HerdrOption::DelegateRowText),
        Some(HerdrOption::PaneTag),
    ];
    for shown in [false, true] {
        for row in rows {
            for writable in [false, true] {
                let pane = HerdrPane { shown, row, editing: false, writable };
                for fix in [false, true] {
                    let hints = footer::plugin_detail_hints(pane, fix).hints();
                    assert_eq!(hints.iter().any(|h| h.key == "f"), fix);
                }
            }
        }
    }
}

// ── the account form ────────────────────────────────────────────────────────

#[test]
fn keys_that_name_secrets_are_known_in_any_case() {
    assert!(setup_view::env_key_is_secret("MY_API_KEY"));
    assert!(setup_view::env_key_is_secret("some_token_here"));
    assert!(setup_view::env_key_is_secret("AuThority"));
    assert!(!setup_view::env_key_is_secret("HTTP_PROXY"));
    assert!(!setup_view::env_key_is_secret("KE"));
}

#[test]
fn secrets_are_dots_until_they_are_edited() {
    let snap = Snap::blank("work");
    let value = InputState::new("sk-123");
    let row = |editing: bool| {
        setup_view::detail_row(&glyphs(), ConfigRow::ApiKey, true, editing, None, &snap, &value)
    };
    assert!(words(&row(false)).ends_with("••••••••"));
    assert!(words(&row(true)).ends_with("sk-123"));
    let mut snap = Snap::blank("work");
    snap.env = vec![EnvVar { key: "AUTH".to_string(), value: "x".to_string() }];
    let line = setup_view::detail_row(
        &glyphs(),
        ConfigRow::EnvEntry(0),
        false,
        false,
        None,
        &snap,
        &InputState::new("x"),
    );
    assert_eq!(words(&line), "  AUTH         ••••••••");
}

#[test]
fn the_last_login_cannot_be_cleared() {
    let mut snap = Snap::blank("work");
    assert!(!snap.clear_gated());
    snap.flags.has_static_backup = true;
    assert!(snap.clear_gated());
    snap.flags.has_other_login = true;
    assert!(!snap.clear_gated());
    snap.flags.has_other_login = false;
    snap.flags.has_static_backup = false;
    snap.flags.rolling_armed = true;
    assert!(!snap.clear_gated());
    snap.session_token = Some(SessionTokenStatus::LongLived(None));
    assert!(snap.clear_gated());
    let line = setup_view::detail_row(
        &glyphs(),
        ConfigRow::ClearSessionToken,
        false,
        false,
        Some(ConfigRow::ClearSessionToken),
        &snap,
        &InputState::new(""),
    );
    assert_eq!(words(&line), "  clear long-lived token");
    assert_eq!(
        setup_view::row_hint(&host(), ConfigRow::ClearSessionToken, &snap).as_deref(),
        Some("cannot clear with no other login stored"),
    );
}

#[test]
fn a_token_tells_how_long_it_lasts() {
    let lines = |status: SessionTokenStatus, rolling: bool| {
        all(
            &setup_view::session_token_lines(
                &host(),
                status,
                rolling,
                "work",
                1_000_000_000,
                3_600_000,
                60,
            ),
        )
    };
    let at = |ms: i64| SessionTokenStatus::LongLived(Some(1_000_000_000 + ms));
    assert!(lines(at(-1), true)[0].contains("rolling token stalled"));
    assert!(lines(at(5 * 3_600_000), true)[0].contains("rolling · re-stamps in ~4h"));
    assert!(lines(at(3_600_000), true)[0].contains("rolling · re-stamp due"));
    assert!(lines(SessionTokenStatus::NotLongLived, false)[0].starts_with("token"));
}

#[test]
fn the_model_row_lists_the_presets() {
    let line = setup_view::model_cycle_line(layout::caret(false), "sonnet", false);
    let shown = words(&line);
    for m in ["default", "opus", "sonnet", "haiku", "opusplan"] {
        assert!(shown.contains(m));
    }
    let line = setup_view::model_cycle_line(layout::caret(false), "mine", false);
    assert!(words(&line).ends_with("   mine"));
}

// ── the chain ───────────────────────────────────────────────────────────────

#[test]
fn marks_tell_the_reasons_apart() {
    let reasons = vec![
        Reason::Disabled,
        Reason::Canceled,
        Reason::AuthBroken,
        Reason::WeeklySpent { reset: None },
        Reason::KickRejected { lifts: "2h".to_string() },
        Reason::BudgetSpent,
        Reason::FiveHour { pct: "99".to_string(), reset: None },
        Reason::ScopedSpent,
        Reason::WeeklySoft { pct: "98".to_string() },
        Reason::Stale,
    ];
    for (i, a) in reasons.iter().enumerate() {
        for b in &reasons[i + 1..] {
            let (x, y) = (chain_view::reason_marker(a), chain_view::reason_marker(b));
            assert!(x.text != y.text || x.style.role != y.style.role);
        }
    }
}

#[test]
fn a_refusal_names_the_product_in_small_letters() {
    let r = Some(Reason::KickRejected { lifts: "in 2h".to_string() });
    let lines = all(&chain_view::pill_block(&host(), &r, &None, "work", 60));
    assert!(lines[0].contains("agent code blocked · in 2h"));
    assert!(lines[1].contains("agent code is refusing to start it"));
}

#[test]
fn a_member_shows_its_place_and_its_mark() {
    let line = chain_view::member_row(
        0,
        "work",
        true,
        false,
        &Some(Reason::Stale),
        false,
        false,
        20,
    );
    assert_eq!(words(&line), "   #1 work         ⋯");
    let line = chain_view::member_row(9, "home", false, true, &None, true, true, 20);
    assert!(words(&line).starts_with("❯ #10 home"));
    assert_eq!(line.spans[1].style.role, Role::Dim);
}

#[test]
fn the_chain_ends_with_a_place_to_add() {
    let cfg = config(&["work", "home", "spare"], Some("work"), &["work", "home"]);
    let rows = chain_view::chain_rows(
        &cfg,
        &vec![false, false],
        &vec![None, None],
        2,
        true,
        30,
    );
    assert_eq!(rows.len(), 3);
    assert!(words(&rows[2]).contains("+ add"));
    assert!(rows[2].selected);
}

#[test]
fn spending_is_hinted_at() {
    let cap = Some("5".to_string());
    assert_eq!(
        chain_view::max_spend_hint(true, &cap, &SpendRoom::Left("3.20".to_string())),
        "$3.20 left to spend here before it stops",
    );
    assert_eq!(
        chain_view::max_spend_hint(true, &None, &SpendRoom::Unknown),
        "never spends here; type a ceiling to allow it",
    );
    let mut cfg = config(&["a", "b"], None, &[]);
    cfg.profiles[1].last_resort = true;
    assert_eq!(
        chain_view::last_resort_hint(&cfg, "a", false),
        "make this the fallback of last resort instead of 'b'",
    );
}

#[test]
fn the_caret_of_a_card_sits_on_its_row() {
    let rows = vec![FallbackRow::Threshold, FallbackRow::Remove];
    assert_eq!(chain_view::card_caret(&rows, 4, None, None, 20), None);
    let at = chain_view::card_caret(&rows, 4, Some(2), None, 20).unwrap();
    assert_eq!(at.0, 4);
    assert_eq!(chain_view::card_caret(&rows, 4, Some(2), None, 4), None);
}

// ── the overview ────────────────────────────────────────────────────────────

#[test]
fn the_table_fits_its_pane() {
    for width in 40..200u16 {
        for longest in [0usize, 5, 12, 30] {
            let w = OverviewWidths::new(width, longest);
            let cells = overview_view::fixed_overview_width(
                w.name,
                w.kind,
                w.five_hour,
                w.seven_day,
                w.gap,
            );
            assert!(cells <= width as usize || w.gap == 2);
        }
    }
    let w = OverviewWidths::new(120, 10);
    assert_eq!(w.name, 10);
    assert_eq!(w.kind, 16);
    assert_eq!(w.five_hour, 26);
    assert_eq!(w.seven_day, 26);
}

#[test]
fn accounts_keep_their_rows_above_the_chain() {
    assert_eq!(overview_view::chain_panel_height(3, 40), 5);
    assert_eq!(overview_view::chain_panel_height(30, 20), 13);
    assert_eq!(overview_view::chain_panel_height(30, 5), 3);
    assert_eq!(overview_view::chain_panel_height(65_536, 40), 33);
    assert_eq!(overview_view::chain_panel_height(usize::MAX, u16::MAX), 65_528);
}

fn account(flags: RowFlags) -> AccountRow {
    AccountRow {
        name: "work".to_string(),
        flags,
        activity: ProfileActivity::Idle,
        frame: "⠋".to_string(),
        next_ms: Some(12_999),
        now_ms: 1_000,
        cue: None,
        kind: "Max".to_string(),
        five: Some(
            WindowCells {
                filled: 1,
                percent: "  9".to_string(),
                heat: Role::Success,
                suffix: None,
            },
        ),
        five_style: None,
        seven: None,
        seven_style: None,
    }
}

#[test]
fn a_broken_login_hides_the_other_marks() {
    let flags = RowFlags { active: true, auth_broken: true, bell: true, has_login: true, wave: false };
    let w = OverviewWidths::new(100, 4);
    let line = overview_view::render_overview_row(&account(flags), &w, false, false, 100);
    let shown = words(&line);
    assert!(shown.starts_with("  × work"));
    assert!(shown.contains("11s "));
    let line = overview_view::render_overview_row(
        &account(RowFlags { auth_broken: false, ..flags }),
        &w,
        false,
        false,
        100,
    );
    assert!(words(&line).starts_with("  ! work"));
    let line = overview_view::render_overview_row(
        &account(RowFlags { auth_broken: false, bell: false, ..flags }),
        &w,
        false,
        false,
        100,
    );
    assert!(words(&line).starts_with("  ● work"));
    assert!(words(&overview_view::overview_header(&w)).contains("account"));
}

#[test]
fn windows_are_found_by_their_label_and_an_own_reading_wins() {
    let window = |n: usize| UsageWindow { reading: n, resets_at: None };
    let bar = |label: &str, n: usize| UsageBar { label: label.to_string(), window: window(n) };
    let bars = Some(vec![bar("7d", 3), bar("5h", 1), bar("5h", 2)]);
    let (five, week) = overview_view::overview_windows(&None, &bars);
    assert_eq!(five.unwrap().reading, 1);
    assert_eq!(week.unwrap().reading, 3);
    let own = Some(OwnUsage { five_hour: Some(window(9)), weekly: None });
    let (five, week) = overview_view::overview_windows(&own, &bars);
    assert_eq!(five.unwrap().reading, 9);
    assert!(week.is_none());
    let (five, week) = overview_view::overview_windows(&None, &None);
    assert!(five.is_none() && week.is_none());
}

#[test]
fn a_switch_is_projected_before_the_reset() {
    assert_eq!(overview_view::projected_switch(2, Some(60), Some(600)), Some(60));
    assert_eq!(overview_view::projected_switch(2, Some(900), Some(600)), None);
    assert_eq!(overview_view::projected_switch(0, Some(60), Some(600)), None);
}

#[test]
fn a_mark_outlasts_a_hint() {
    let row = ChainRow {
        name: "work".to_string(),
        active: true,
        known: true,
        figure: Some(ChainFigure { filled: 2, percent: " 17%".to_string(), heat: Role::Success }),
        threshold: "95".to_string(),
        reason: Some(Reason::Stale),
    };
    let wide = words(&overview_view::chain_row(&row, 0, 0, 4, 60, Some("2h")));
    assert!(wide.ends_with("↩ ~2h ⋯"));
    let close = words(&overview_view::chain_row(&row, 0, 0, 4, 37, Some("2h")));
    assert!(close.ends_with("⋯"));
    assert!(!close.contains("↩"));
    let lines = overview_view::fallback_flow_lines(
        &vec![row],
        &Some(Projection::Off { eta: "1h".to_string() }),
        true,
        &None,
        60,
    );
    assert!(words(&lines[0]).starts_with(" ╶ 1 work"));
    assert!(all(&lines).iter().any(|l| l.contains("stop") && l.contains("when all spent")));
}

// ── dialogs ─────────────────────────────────────────────────────────────────

#[test]
fn losses_are_marked_on_their_button() {
    let state = ConfirmState {
        message: "switch?".to_string(),
        detail: Some("more".to_string()),
        choice: true,
        on_confirm: ConfirmAction::Switch("work".to_string()),
    };
    let a = modals_view::asking(&state.on_confirm);
    assert!(matches!(a, Asking::Loss));
    let lines = modals_view::confirm_lines(&a, &state);
    assert_eq!(all(&lines), vec!["switch?", "more", "", " cancel     confirm "]);
    assert!(lines[3].right);
    assert_eq!(lines[3].spans[2].style.fill, Fill::Danger);
    assert!(matches!(modals_view::asking(&ConfirmAction::WireMcpServers), Asking::Step));
    let lines = modals_view::confirm_lines(&Asking::Addition("home".to_string()), &state);
    assert!(words(&lines[3]).contains("add 'home'"));
    assert_eq!(modals_view::confirm_title(&Asking::Notice), "IN USE");
    assert_eq!(modals_view::confirm_title(&Asking::Step), "CONFIRM");
}

#[test]
fn a_changed_login_can_be_kept_moved_or_dropped() {
    let form = DivergenceForm {
        active: "work".to_string(),
        sibling: Some("home".to_string()),
        cursor: 1,
    };
    let lines = all(&modals_view::divergence_lines(&form));
    assert_eq!(
        lines,
        vec![
            "the live login no longer matches 'work'.",
            "it is 'home''s login.",
            "",
            "  switch to 'home' (this login is its account)",
            "❯ overwrite 'work' with this login",
            "  save this login to another account…",
            "  discard this login and restore 'work'",
        ],
    );
    let form = DivergenceTargetForm { targets: vec!["home".to_string()], cursor: 9 };
    let lines = all(&modals_view::target_lines(&form));
    assert_eq!(
        lines,
        vec!["where to save the login?", "", "  + new account", "❯ overwrite 'home'"],
    );
}

#[test]
fn a_taken_key_offers_three_ways() {
    let form = EnvCollisionForm {
        profile: "work".to_string(),
        key: "PATH".to_string(),
        reason: "the base settings".to_string(),
        existing_idx: None,
        cursor: 0,
    };
    let lines = all(&modals_view::collision_lines(&form));
    assert_eq!(lines[0], "'PATH' is already used by the base settings.");
    assert_eq!(lines[2], "❯ add the custom field anyway");
    assert_eq!(lines[3], "    this account's value overrides the base settings");
    assert_eq!(lines[6], "  cancel");
}

#[test]
fn presets_are_offered_by_name() {
    let presets = vec![
        PresetEntry { name: "fast".to_string(), builtin: true },
        PresetEntry { name: "mine".to_string(), builtin: false },
    ];
    let lines = all(&modals_view::preset_lines("work", &presets, 5));
    assert_eq!(lines[0], "sets the base url and models on 'work'.");
    assert_eq!(lines[2], "  fast  built-in");
    assert_eq!(lines[3], "❯ mine");
}

#[test]
fn names_are_typed_under_a_note() {
    let input = InputState::new("wörk");
    let lines = modals_view::capture_lines(&host(), &glyphs(), &input);
    assert!(words(&lines[0]).starts_with("stores the live "));
    assert_eq!(words(&lines[2]), "✎ name wörk");
    let area = Area { x: 0, y: 0, width: 100, height: 30 };
    let (x, y) = modals_view::place_name_cursor(area, "CAPTURE", &lines, &input);
    let again = modals_view::place_name_cursor(area, "CAPTURE", &lines, &InputState::new(""));
    assert_eq!(x, again.0 + 4);
    assert_eq!(y, again.1);
}

#[test]
fn a_login_tells_what_it_waits_for() {
    let scene = |stage: LoginStage, by_hand: bool, paste: Option<InputState>, door: bool| LoginScene {
        name: "work".to_string(),
        stage,
        by_hand,
        paste,
        door_open: door,
        has_url: true,
        frame: "⠋".to_string(),
    };
    let (lines, caret) = modals_view::login_lines(
        &glyphs(),
        &scene(LoginStage::WaitingBrowser, false, None, true),
    );
    let shown = all(&lines);
    assert_eq!(shown[0], "logging in 'work'");
    assert_eq!(shown[2], "⠋ continue in your browser");
    assert_eq!(shown[6], "p  paste code");
    assert_eq!(caret, None);
    let (lines, caret) = modals_view::login_lines(
        &glyphs(),
        &scene(LoginStage::WaitingBrowser, false, Some(InputState::new("ab")), true),
    );
    assert_eq!(words(&lines[6]), "✎ code ab");
    assert_eq!(caret.map(|c| c.0), Some(6));
    let (lines, _) = modals_view::login_lines(
        &glyphs(),
        &scene(LoginStage::Verifying, true, None, false),
    );
    assert_eq!(all(&lines)[2], "⠋ logging in with the code");
    assert_eq!(lines.len(), 3);
}

#[test]
fn every_menu_entry_has_a_row() {
    let menu = ActionMenuState::new(
        &host(),
        vec![
            ActionMenuAction::SwitchToSelected,
            ActionMenuAction::ConfigureSelected,
            ActionMenuAction::NewAccount,
        ],
    );
    let rows = modals_view::menu_rows(&menu, 2, 30, 20);
    assert_eq!(rows.len(), 4);
    assert_eq!(words(&rows[2]), "─".repeat(30));
    assert!(rows[0].selected);
    assert!(words(&rows[0]).starts_with("❯ "));
    let rows = modals_view::menu_rows(&menu, 0, 30, 20);
    assert_eq!(rows.len(), 3);
    let area = modals_view::menu_area(
        &menu,
        2,
        &None,
        Area { x: 0, y: 0, width: 80, height: 24 },
    );
    assert_eq!(area.height, 8);
}

fn legend() -> Legend {
    let s = |t: &str| t.to_string();
    Legend {
        disabled: s("off"),
        canceled: s("gone"),
        auth_broken: s("login"),
        weekly_spent: s("week"),
        kick: s("kick"),
        budget_spent: s("budget"),
        weekly_soft: s("soft"),
        stale: s("stale"),
    }
}

#[test]
fn help_gives_each_key_one_sense() {
    let lines = all(&help::help_screen(Tab::Tokens, &legend()));
    assert_eq!(lines[0], "TABS");
    assert!(lines.contains(&"TOKENS".to_string()));
    assert!(lines.contains(&"GLYPHS".to_string()));
    assert_eq!(lines.iter().filter(|l| l.starts_with("  t ")).count(), 1);
    assert!(lines.iter().any(|l| l.contains("cycle period")));
    assert!(!lines.iter().any(|l| l.contains("rotate all tokens")));
    let lines = all(&help::help_screen(Tab::Overview, &legend()));
    assert!(lines.iter().any(|l| l.contains("rotate all tokens")));
}

#[test]
fn sub_views_tell_how_to_leave() {
    for tab in [Tab::Setup, Tab::Fallback, Tab::Status, Tab::Plugin, Tab::Tokens] {
        let (_, rows) = help::tab_specific_rows(tab);
        assert!(rows.iter().any(|r| r.key == "esc"));
    }
}

// ── the plugin tab ──────────────────────────────────────────────────────────

#[test]
fn a_window_holds_its_focus() {
    assert_eq!(plugin_view::window_start(0, 5, 20), 0);
    assert_eq!(plugin_view::window_start(10, 5, 20), 8);
    assert_eq!(plugin_view::window_start(19, 5, 20), 15);
    assert_eq!(plugin_view::window_start(3, 5, 4), 0);
}

#[test]
fn a_row_fills_the_list_and_shows_its_fix() {
    let row = SelectorRow {
        label_style: paint::ink(Role::Body),
        label_pad: 0,
        selected: true,
        focused: true,
        content_w: 30,
        has_fix: true,
    };
    let line = plugin_view::selector_row(Health::Warn, "mcp servers", "", row);
    assert_eq!(words(&line).chars().count(), 30);
    assert!(words(&line).starts_with("❯ ● mcp servers"));
    assert!(words(&line).ends_with("[f]"));
    assert_eq!(plugin_view::health_color(Health::Danger), Role::Danger);
}

#[test]
fn checks_are_listed_with_their_state() {
    let mut s = PluginState {
        focus: PluginFocus::List,
        cursor: 0,
        detail_scroll: 0,
        detail_max_scroll: 0,
        fetching: false,
        error: None,
        checks: Vec::new(),
        cc_version: None,
        mcp_boot: None,
    };
    let lines = plugin_view::selector_lines(&s, 30);
    assert!(all(&lines).concat().contains("no checks yet"));
    s.checks = vec![
        Check { label: "about", health: Health::Good, detail: Vec::new(), fix: None },
        Check {
            label: "mcp servers",
            health: Health::Warn,
            detail: Vec::new(),
            fix: Some(PluginFix::WireMcpServers),
        },
    ];
    let lines = plugin_view::selector_lines(&s, 30);
    assert_eq!(lines.len(), 2);
    assert!(words(&lines[1]).ends_with("[f]"));
}

#[test]
fn a_readout_lines_up_its_keys() {
    let detail = vec![
        "present: no".to_string(),
        "source: none".to_string(),
        "".to_string(),
        "[f] wire it".to_string(),
        "  agent plugin".to_string(),
    ];
    let lines = plugin_view::readout_lines(&detail);
    assert_eq!(
        all(&lines),
        vec!["present  no", "source   none", "", "[f] wire it", "  agent plugin"],
    );
    assert_eq!(lines[0].spans[1].style.role, Role::Warning);
    assert_eq!(plugin_view::value_tone("server", "failed (x)"), Role::Danger);
    assert_eq!(plugin_view::value_tone("link", "linked · 5h"), Role::Success);
    assert_eq!(plugin_view::value_tone("delegate", "rate-limited (a)"), Role::Warning);
    assert_eq!(plugin_view::value_tone("path", "/usr/bin"), Role::Body);
    assert_eq!(plugin_view::readout_scroll(30, 10, 99), (20, 20));
    assert_eq!(plugin_view::readout_scroll(5, 10, 3), (0, 0));
}

#[test]
fn options_show_what_is_set() {
    let settings = HerdrSettings {
        popup_width: PopupWidth::Half,
        pane_tag: true,
        tag_watch_secs: 30,
        border_label: false,
        delegate_dot: false,
        delegate_row_text: false,
    };
    let row = |option: HerdrOption, label: &str| HerdrRow { option, label: label.to_string() };
    let shown = |r: &HerdrRow| {
        words(&plugin_view::option_row(&glyphs(), r, settings, false, None, false))
    };
    assert_eq!(shown(&row(HerdrOption::PaneTag, "tag")), "  tag  ◉ on");
    assert_eq!(shown(&row(HerdrOption::TagRefresh, "refresh")), "  refresh  30s");
    let scene = HerdrScene {
        rows: vec![row(HerdrOption::PaneTag, "tag"), row(HerdrOption::TagRefresh, "refresh")],
        settings,
        cursor: 1,
        editing: Some((FieldEdit { value: "12".to_string(), valid: true }, 1)),
        writable: true,
        malformed: false,
        focused: true,
        width: 40,
    };
    let pane = plugin_view::herdr_pane(&glyphs(), Vec::new(), &scene);
    assert!(all(&pane.lines).iter().any(|l| l.contains("12 s")));
    assert!(pane.caret.is_some());
}

// ── runs ────────────────────────────────────────────────────────────────────

fn span_of_time(secs: u64, text: &str) -> Elapsed {
    Elapsed { secs, text: text.to_string() }
}

fn job(profile: &str, phase: JobPhase) -> StoredJob {
    StoredJob {
        phase,
        word: "running".to_string(),
        profile: profile.to_string(),
        tail: "the last words".to_string(),
        since: span_of_time(0, "0s"),
        live: RunningLiveness {
            elapsed: span_of_time(90, "1m"),
            last_output_ago: None,
            idle_kill_in: Some(span_of_time(50, "50s")),
            wall_kill_in: Some(span_of_time(40, "40s")),
        },
    }
}

#[test]
fn the_nearer_kill_is_named() {
    let cells = delegates::delegate_row(&job("work", JobPhase::Running));
    assert_eq!(cells.facts, vec!["elapsed 1m", "no output yet", "wall-kill in 40s"]);
    assert_eq!(cells.tail, "the last words");
    let cells = delegates::delegate_row(&job("work", JobPhase::Done));
    assert_eq!(cells.facts, vec!["finished just now"]);
    assert_eq!(cells.tail, "");
    assert_eq!(delegates::state_mark(JobPhase::Orphaned), "○");
}

#[test]
fn runs_that_do_not_fit_are_counted() {
    let jobs: Vec<StoredJob> = (0..5).map(|i| job(&format!("p{i}"), JobPhase::Running)).collect();
    let cells = delegates::delegate_cells(&jobs);
    let lines = delegates::delegate_lines(&cells, 3, 100);
    assert_eq!(lines.len(), 3);
    assert_eq!(words(&lines[2]), "+3 more");
    assert!(words(&lines[0]).starts_with("● running   p0  elapsed 1m"));
    assert!(words(&lines[0]).ends_with("\"the last words\""));
    assert_eq!(delegates::delegate_lines(&cells, 5, 100).len(), 5);
    assert!(delegates::delegate_lines(&cells, 0, 100).is_empty());
    assert_eq!(delegates::delegates_height(0, 13), 0);
    assert_eq!(delegates::delegates_height(2, 40), 5);
    assert_eq!(delegates::delegates_height(20, 40), 9);
}

// ── the status tab ──────────────────────────────────────────────────────────

fn incident(id: &str, phase: UpdatePhase) -> Incident {
    Incident {
        id: id.to_string(),
        title: format!("trouble with {id}"),
        link: format!("https://status.example/{id}"),
        phase,
        phase_word: "identified".to_string(),
        impact: Impact::Major,
        impact_word: "major".to_string(),
        started_ms: 0,
        resolved_ms: None,
        components: vec![
            Component { name: "API".to_string(), status: "Operational".to_string() },
            Component { name: "Console".to_string(), status: "major_outage".to_string() },
        ],
        updates: vec![
            IncidentUpdate {
                at_ms: 60_000,
                phase,
                phase_word: "identified".to_string(),
                text: "we found it".to_string(),
                transitions: vec![
                    Transition { name: "API".to_string(), to: "degraded".to_string() },
                ],
            },
        ],
    }
}

#[test]
fn components_are_named_in_small_letters() {
    let i = incident("a", UpdatePhase::Identified);
    let line = status_view::components_line(&i.components, 80);
    assert_eq!(words(&line), "components   ● api  ● console");
    assert_eq!(line.spans[1].style.role, Role::Success);
    assert_eq!(line.spans[4].style.role, Role::Danger);
    let line = status_view::components_line(&i.components, 22);
    assert!(words(&line).ends_with("  +1"));
    let lines = status_view::transition_lines(&i.updates[0].transitions, 2, 40);
    assert_eq!(words(&lines[0]), "  api  → degraded");
}

#[test]
fn links_are_cut_in_the_middle() {
    assert_eq!(status_view::middle_truncate("abcdefghij", 7), "abc…hij");
    assert_eq!(status_view::middle_truncate("abc", 7), "abc");
    assert_eq!(status_view::pad_right("ab", 4), "ab  ");
    assert_eq!(status_view::duration_label(59), "1m");
    assert_eq!(status_view::duration_label(7_300), "2h");
    assert_eq!(status_view::duration_label(90_000), "1d");
    assert_eq!(status_view::count_digits(120), 3);
}

#[test]
fn the_list_follows_the_cursor() {
    let mut s = StatusState {
        incidents: (0..6).map(|i| incident(&format!("{i}"), UpdatePhase::Identified)).collect(),
        fetched_at_ms: None,
        cached: false,
        error: None,
        fetching: false,
        cursor: 5,
        focus: StatusFocus::List,
        detail_scroll: 0,
        detail_max_scroll: 0,
        seen_latest: None,
    };
    let ages: Vec<String> = (0..6).map(|_| "1h ago".to_string()).collect();
    let (lines, first) = status_view::list_lines(&s, &ages, 40, 6);
    assert_eq!(first, 3);
    assert_eq!(lines.len(), 6);
    assert!(words(&lines[4]).starts_with("❯ trouble with 5"));
    assert!(words(&lines[5]).starts_with("  [ major ]"));
    assert!(words(&lines[5]).contains("●"));
    s.incidents.clear();
    let (lines, _) = status_view::list_lines(&s, &Vec::new(), 40, 6);
    assert!(all(&lines).concat().contains("no status data yet"));
    assert_eq!(status_view::first_visible_item(0, 3, 6), 0);
}

#[test]
fn an_incident_is_told_from_its_start() {
    let i = incident("a", UpdatePhase::Identified);
    let m = Moments {
        now_ms: 7_300_000,
        started: "2026-06-06T10:14:00Z".to_string(),
        updates: vec!["2026-06-06T10:15:00Z".to_string()],
    };
    let lines = all(&status_view::detail_lines(&i, &m, 80));
    assert!(lines.iter().any(|l| l.contains("jun 6, 10:14")));
    assert!(lines.iter().any(|l| l.starts_with("jun 6, 10:15")));
    assert!(lines.iter().any(|l| l.contains("we found it")));
    assert!(lines.iter().any(|l| l.contains("→ degraded")));
    assert!(lines.iter().any(|l| l.contains("https://status.example/a")));
}

// ── accounts ────────────────────────────────────────────────────────────────

#[test]
fn a_figure_fills_its_line() {
    let stat = Stat {
        pct: "42%".to_string(),
        heat: Role::Success,
        trailing: "  resets in 2h".to_string(),
        filled: 5,
    };
    let lines = detail_view::stat_block("5h", &stat, 40);
    assert_eq!(words(&lines[0]).chars().count(), 40);
    assert!(words(&lines[0]).starts_with("  5H"));
    assert!(words(&lines[0]).ends_with("42%"));
    assert_eq!(words(&lines[1]).chars().count(), 40);
    assert!(words(&lines[1]).starts_with("  █████░"));
    assert_eq!(detail_view::money_trailing(&Some("EUR".to_string()), "1", "5"), "  EUR1 / EUR5");
    assert_eq!(detail_view::money_trailing(&None, "1", "5"), "  $1 / $5");
    let lines = detail_view::build_usage_lines(
        &Some(
            UsageFigures {
                five_hour: Some(stat),
                seven_day: None,
                seven_day_sonnet: None,
                seven_day_opus: None,
                extra: None,
            },
        ),
        40,
    );
    assert_eq!(lines.len(), 4);
    assert_eq!(words(&detail_view::build_usage_lines(&None, 40)[2]), "  loading…");
    assert!(words(&detail_view::build_config_lines(false, true)[2]).ends_with("n/a"));
    let chain = vec!["a".to_string(), "b".to_string()];
    assert!(
        words(&detail_view::build_fallback_lines(&chain, "b", "95%")[2]).ends_with("2 of 2 in chain"),
    );
}

#[test]
fn one_row_of_the_picker_is_selected() {
    let cfg = config(&["work", "home"], Some("work"), &[]);
    for cursor in 0..5 {
        let (lines, sel) = picker::setup_selector(&cfg, &vec![false, true], cursor, true, 24);
        assert_eq!(lines.len(), 3);
        assert_eq!(lines.iter().filter(|l| l.selected).count(), 1);
        assert!(lines[sel].selected);
    }
    let (lines, sel) = picker::setup_selector(&cfg, &vec![false, true], 9, true, 24);
    assert_eq!(sel, 2);
    assert!(words(&lines[2]).contains("+ new"));
    let (lines, _) = picker::usage_selector(&config(&[], None, &[]), 0, true, 24);
    assert!(all(&lines).concat().contains("no accounts yet"));
}

// ── settings and small parts ────────────────────────────────────────────────

fn board(refresh_ms: u64) -> SettingsScene {
    let none = || Presets { choices: Vec::new(), custom: None };
    SettingsScene {
        toggles: ToggleState {
            switch_off_when_spent: true,
            burn_aware: false,
            spend_budget: false,
            switch_off_when_budget_spent: false,
            preemptive: false,
            refresh_spent: false,
        },
        tier: Tier::Full,
        divergence: None,
        refresh_ms,
        weekly: none(),
        burn_floor: none(),
        burn_horizon: none(),
        nudge: none(),
        cursor: 0,
        width: 60,
    }
}

#[test]
fn a_custom_interval_is_named_beside_the_presets() {
    let row = |ms: u64| {
        words(
            &settings_view::detail_row(
                &glyphs(),
                &board(ms),
                GlobalConfigRow::RefreshInterval,
                false,
                &None,
            ),
        )
    };
    for label in ["15s", "30s", "60s", "90s", "120s", "300s"] {
        assert!(row(90_000).contains(label));
    }
    assert!(!row(90_000).ends_with("  90s"));
    assert!(row(45_000).ends_with("  45s"));
}

#[test]
fn a_horizon_is_marked_to_the_millisecond() {
    let ladder = |ms: u64| settings_view::horizon_presets(ms, &vec![30_000, 60_000, 120_000]);
    let exact = ladder(60_000);
    let labels: Vec<&str> = exact.choices.iter().map(|c| c.label.as_str()).collect();
    assert_eq!(labels, vec!["30s", "60s", "120s"]);
    let marks: Vec<bool> = exact.choices.iter().map(|c| c.active).collect();
    assert_eq!(marks, vec![false, true, false]);
    assert_eq!(exact.custom, None);
    let near = ladder(60_500);
    assert!(near.choices.iter().all(|c| !c.active));
    assert_eq!(near.custom.as_deref(), Some("60s"));
}

#[test]
fn settings_explain_themselves() {
    let hint = |row: GlobalConfigRow| {
        settings_view::row_hint(&host(), row, None, board(90_000).toggles)
    };
    assert_eq!(
        hint(GlobalConfigRow::DivergenceDefault).as_deref(),
        Some("ask what to do when agent code signs in over the active account"),
    );
    assert_eq!(
        hint(GlobalConfigRow::WrapOff).as_deref(),
        Some("once every account is spent, switch everything off until one recovers"),
    );
    assert_eq!(hint(GlobalConfigRow::Theme), None);
    let edits = SettingsEdits {
        refresh: Some(InputState::new("45")),
        weekly: None,
        weekly_valid: false,
    };
    let mut scene = board(90_000);
    scene.cursor = 2;
    let pane = settings_view::settings_lines(&host(), &glyphs(), &scene, &edits);
    assert!(all(&pane.lines).iter().any(|l| l.contains("45")));
    assert!(pane.caret.is_some());
}

#[test]
fn the_small_parts_read_as_they_should() {
    let l = modals_view::modal_meta("3 of 5");
    assert_eq!(words(&l), " 3 of 5 ");
    assert!(l.right);
    assert_eq!(words(&detail_view::detail_separator(4)), "────");
    assert_eq!(detail_view::reset_trailing(&Some("2h".to_string())), "  resets in 2h");
    assert_eq!(detail_view::reset_trailing(&None), "");
    assert!(feed::incident_is_active(&incident("a", UpdatePhase::Monitoring)));
    assert!(!feed::incident_is_active(&incident("a", UpdatePhase::Resolved)));
    assert!(ConfigRow::BaseUrl.is_text());
    assert!(!ConfigRow::Delete.is_text());
    assert_eq!(TokenPeriod::Lifetime.lens_badge(), "lifetime");
}
