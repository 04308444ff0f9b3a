//! The status feed, the plugin checks, the stored configuration and the token tables.

use clauth_tui::feed::{Component, Impact, Incident, StatusFocus, StatusState, UpdatePhase};
use clauth_tui::host::Host;
use clauth_tui::model;
use clauth_tui::model::{DivergenceChoice, EnvVar};
use clauth_tui::plugin;
use clauth_tui::plugin::{
    Health, LinkState, McpProbe, McpWiring, PluginFix, PluginFocus, PluginProbe, PluginRecord,
    PluginState, RuntimeSnap,
};
use clauth_tui::tabs::{TokenFilter, TokenPeriod};
use clauth_tui::tokens;
use clauth_tui::tokens::{ModelRow, TokenSource};

// ── the status feed ─────────────────────────────────────────────────────────

fn incident(id: &str, phase: UpdatePhase, impact: Impact, started_ms: u64) -> Incident {
    Incident {
        id: id.to_string(),
        title: format!("about {id}"),
        link: format!("https://status.example/{id}"),
        phase,
        phase_word: "word".to_string(),
        impact,
        impact_word: "impact".to_string(),
        started_ms,
        resolved_ms: None,
        components: vec![
            Component { name: "api".to_string(), status: "operational".to_string() },
        ],
        updates: Vec::new(),
    }
}

fn feed() -> StatusState {
    StatusState {
        incidents: Vec::new(),
        fetched_at_ms: None,
        cached: false,
        error: Some("down".to_string()),
        fetching: true,
        cursor: 0,
        focus: StatusFocus::List,
        detail_scroll: 4,
        detail_max_scroll: 9,
        seen_latest: None,
    }
}

fn ids(s: &StatusState) -> Vec<String> {
    s.incidents.iter().map(|i| i.id.clone()).collect()
}

#[test]
fn open_incidents_come_first_and_then_the_newest() {
    let mut s = feed();
    let news = s.load(
        vec![
            incident("a", UpdatePhase::Resolved, Impact::Major, 90),
            incident("b", UpdatePhase::Identified, Impact::Minor, 10),
            incident("c", UpdatePhase::Monitoring, Impact::Critical, 20),
            incident("d", UpdatePhase::Completed, Impact::Maintenance, 95),
        ],
        1000,
        false,
    );
    assert_eq!(ids(&s), vec!["c", "b", "d", "a"]);
    assert!(news.is_none());
    assert_eq!(s.error, None);
    assert!(!s.fetching);
    assert_eq!(s.fetched_at_ms, Some(1000));
    assert_eq!(s.detail_scroll, 0);
}

#[test]
fn incidents_of_one_moment_keep_their_order() {
    let mut s = feed();
    s.load(
        vec![
            incident("x", UpdatePhase::Update, Impact::Minor, 5),
            incident("y", UpdatePhase::Update, Impact::Minor, 5),
        ],
        1,
        true,
    );
    assert_eq!(ids(&s), vec!["x", "y"]);
    assert!(s.cached);
    assert_eq!(s.error.as_deref(), Some("down"));
}

#[test]
fn news_is_told_once() {
    let mut s = feed();
    let one = || vec![incident("a", UpdatePhase::Identified, Impact::Minor, 1)];
    let two = || {
        vec![
            incident("b", UpdatePhase::Investigating, Impact::Major, 2),
            incident("a", UpdatePhase::Identified, Impact::Minor, 1),
        ]
    };
    assert!(s.load(one(), 1, false).is_none());
    let told = s.load(two(), 2, false).unwrap();
    assert!(told.0.contains("about b"));
    assert!(told.1);
    assert!(s.load(two(), 3, false).is_none());
    assert_eq!(s.seen_latest.as_deref(), Some("b"));
}

#[test]
fn the_cursor_stays_in_the_list() {
    let mut s = feed();
    let all: Vec<Incident> = (0..5)
        .map(|i| incident(&format!("{i}"), UpdatePhase::Identified, Impact::Minor, i))
        .collect();
    s.load(all, 1, false);
    s.cursor = 4;
    s.detail_scroll = 3;
    s.load(vec![incident("9", UpdatePhase::Identified, Impact::Minor, 1)], 2, false);
    assert_eq!(s.cursor, 0);
    assert_eq!(s.detail_scroll, 0);
    assert_eq!(s.selected().unwrap().id, "9");
    s.load(Vec::new(), 3, false);
    assert_eq!(s.cursor, 0);
    assert!(s.selected().is_none());
    assert_eq!(s.seen_latest.as_deref(), Some("9"));
}

#[test]
fn the_worst_open_incident_colours_the_feed() {
    let mut s = feed();
    assert_eq!(s.worst_active_impact(), Impact::Nothing);
    s.load(
        vec![
            incident("a", UpdatePhase::Identified, Impact::Minor, 1),
            incident("b", UpdatePhase::Monitoring, Impact::Major, 2),
            incident("c", UpdatePhase::Resolved, Impact::Critical, 3),
        ],
        1,
        false,
    );
    assert_eq!(s.worst_active_impact(), Impact::Major);
    assert_eq!(Impact::Critical.severity(), 4);
    assert_eq!(Impact::Maintenance.severity(), 1);
    assert_eq!(Impact::Other.severity(), 0);
}

// ── the plugin checks ───────────────────────────────────────────────────────

fn host() -> Host {
    Host {
        product: "Agent Code".to_string(),
        command: "agent".to_string(),
        family: "agent".to_string(),
        brand: "Agent".to_string(),
        site: "agent.example".to_string(),
    }
}

fn checks() -> PluginState {
    PluginState {
        focus: PluginFocus::List,
        cursor: 0,
        detail_scroll: 0,
        detail_max_scroll: 0,
        fetching: true,
        error: None,
        checks: Vec::new(),
        cc_version: None,
        mcp_boot: None,
    }
}

fn probe() -> PluginProbe {
    PluginProbe {
        data_dir: Some("/home/u/.clauth".to_string()),
        clauth_path: Some("/usr/bin/clauth".to_string()),
        cc_version: Some("2.0.1".to_string()),
        mcp_boot: Some(McpProbe::Boots),
        records: Vec::new(),
        wiring: McpWiring::GlobalConfig,
        entry_drifted: Some(false),
        marketplace_known: true,
        marketplace_repo: None,
        runtime: Vec::new(),
        now_ms: 1_000_000,
    }
}

fn snap(name: &str, active: bool, sessions: usize, link: Option<LinkState>) -> RuntimeSnap {
    RuntimeSnap {
        name: name.to_string(),
        active,
        sessions,
        rate_limited: false,
        link,
        stored_creds: true,
        expires_at: None,
        remaining: "5h".to_string(),
    }
}

#[test]
fn a_probe_leaves_four_checks() {
    let mut s = checks();
    assert!(s.wants_version(false));
    s.recompute_plugin_checks(&host(), probe(), false);
    let labels: Vec<&str> = s.checks.iter().map(|c| c.label).collect();
    assert_eq!(labels, vec!["about", "mcp servers", "plugin", "runtime"]);
    assert_eq!(s.row_count(), 4);
    assert_eq!(s.checks[0].health, Health::Good);
    assert_eq!(
        s.checks[0].detail,
        vec!["data: /home/u/.clauth", "path: /usr/bin/clauth", "agent: 2.0.1"],
    );
    assert_eq!(s.checks[1].health, Health::Good);
    assert_eq!(s.checks[3].health, Health::Idle);
    assert!(!s.fetching);
}

#[test]
fn a_missing_binary_is_worse_than_a_missing_version() {
    let mut s = checks();
    let mut p = probe();
    p.cc_version = None;
    s.recompute_plugin_checks(&host(), p, true);
    assert_eq!(s.checks[0].health, Health::Warn);
    assert_eq!(s.checks[0].detail[2], "agent: not found");
    let mut p = probe();
    p.clauth_path = None;
    s.recompute_plugin_checks(&host(), p, true);
    assert_eq!(s.checks[0].health, Health::Danger);
    assert_eq!(s.checks[0].detail[1], "path: not on PATH");
}

#[test]
fn results_are_kept_until_they_are_asked_for_again() {
    let mut s = checks();
    s.recompute_plugin_checks(&host(), probe(), true);
    assert!(!s.wants_version(false));
    assert!(s.wants_version(true));
    let mut p = probe();
    p.cc_version = Some("9.9.9".to_string());
    p.mcp_boot = None;
    s.recompute_plugin_checks(&host(), p, false);
    assert_eq!(s.cc_version, Some(Some("2.0.1".to_string())));
    assert_eq!(s.checks[0].detail[2], "agent: 2.0.1");
    assert!(s.checks[1].detail.contains(&"server: boots".to_string()));
}

#[test]
fn wiring_is_offered_where_it_is_not_global() {
    let mut s = checks();
    let mut p = probe();
    p.wiring = McpWiring::Absent;
    s.recompute_plugin_checks(&host(), p, true);
    assert_eq!(s.checks[1].health, Health::Warn);
    assert_eq!(s.checks[1].detail[0], "present: no");
    assert_eq!(s.checks[1].detail[1], "source: none");
    assert!(matches!(s.checks[1].fix, Some(PluginFix::WireMcpServers)));
    s.cursor = 1;
    assert!(matches!(s.selected_fix(), Some(PluginFix::WireMcpServers)));
    let mut p = probe();
    p.entry_drifted = Some(true);
    s.recompute_plugin_checks(&host(), p, true);
    assert!(s.checks[1].fix.is_some());
    let mut p = probe();
    p.mcp_boot = Some(McpProbe::Failed("no such file".to_string()));
    s.recompute_plugin_checks(&host(), p, true);
    assert_eq!(s.checks[1].health, Health::Danger);
    assert!(s.checks[1].fix.is_none());
}

#[test]
fn an_install_of_one_project_asks_to_be_made_global() {
    let mut s = checks();
    let mut p = probe();
    p.records = vec![
        PluginRecord {
            scope: Some("project".to_string()),
            version: Some("1.2.3".to_string()),
            git_commit_sha: Some("0123456789".to_string()),
            installed_at: Some("2026-06-06T10:14:00Z".to_string()),
            project_path: None,
        },
    ];
    s.recompute_plugin_checks(&host(), p, true);
    let c = &s.checks[2];
    assert_eq!(c.health, Health::Warn);
    assert_eq!(
        c.detail,
        vec![
            "installed: yes (project)",
            "version: 1.2.3",
            "commit: 0123456",
            "installed at: 2026-06-06",
            "",
            "installed for this project only, not global",
            "make it global (run in shell):",
            "  agent plugin uninstall clauth@clauth --scope project",
            "  agent plugin install clauth@clauth --scope user",
        ],
    );
}

#[test]
fn a_broken_link_is_repaired_or_made_again() {
    let mut s = checks();
    let mut p = probe();
    p.runtime = vec![
        snap("work", true, 2, Some(LinkState::Diverged)),
        snap("home", false, 1, None),
    ];
    s.recompute_plugin_checks(&host(), p, true);
    let c = &s.checks[3];
    assert_eq!(c.health, Health::Warn);
    assert_eq!(
        c.detail,
        vec![
            "profiles: 2",
            "sessions: 3 live across 2",
            "  work (2)",
            "  home",
            "active: work",
            "link: diverged",
            "",
            "[f] repair credentials",
        ],
    );
    assert!(matches!(&c.fix, Some(PluginFix::RepairDivergence(n)) if n == "work"));
    let mut p = probe();
    p.runtime = vec![snap("work", true, 0, Some(LinkState::Missing))];
    s.recompute_plugin_checks(&host(), p, true);
    assert!(matches!(&s.checks[3].fix, Some(PluginFix::RelinkCredentials(n)) if n == "work"));
    let mut p = probe();
    let mut linked = snap("work", true, 0, Some(LinkState::LinkedTo));
    linked.expires_at = Some(999_999);
    p.runtime = vec![linked];
    s.recompute_plugin_checks(&host(), p, true);
    assert_eq!(s.checks[3].health, Health::Good);
    assert_eq!(s.checks[3].detail[3], "link: linked · expired");
    assert!(s.checks[3].fix.is_none());
}

#[test]
fn seconds_are_cut_towards_zero() {
    assert_eq!(plugin::seconds_left(10_999, 1_000), 9);
    assert_eq!(plugin::seconds_left(-1_500, 2_000), -3);
}

// ── the stored configuration ────────────────────────────────────────────────

fn var(key: &str, value: &str) -> EnvVar {
    EnvVar { key: key.to_string(), value: value.to_string() }
}

#[test]
fn variables_are_kept_in_the_order_of_their_keys() {
    let env = model::env_with(&vec![var("B", "1")], "C", "2");
    let env = model::env_with(&env, "A", "3");
    let shown: Vec<String> = env.iter().map(|v| format!("{}={}", v.key, v.value)).collect();
    assert_eq!(shown, vec!["A=3", "B=1", "C=2"]);
    let env = model::env_with(&env, "B", "9");
    assert_eq!(env.len(), 3);
    assert_eq!(env[1].value, "9");
    assert_eq!(model::env_position(&env, "C"), Some(2));
    assert_eq!(model::env_position(&env, "D"), None);
    let env = model::env_without(&env, 0);
    assert_eq!(env[0].key, "B");
    assert_eq!(env.len(), 2);
}

#[test]
fn texts_are_ordered_as_their_characters_are() {
    assert!(model::comes_before("a", "b"));
    assert!(model::comes_before("a", "ab"));
    assert!(!model::comes_before("a", "a"));
    assert!(model::comes_before("Z", "a"));
    assert!(model::comes_before("z", "é"));
}

#[test]
fn the_default_for_a_changed_login_goes_round() {
    let a = model::next_divergence_default(None);
    let b = model::next_divergence_default(a);
    let c = model::next_divergence_default(b);
    assert_eq!(a, Some(DivergenceChoice::Overwrite));
    assert_eq!(b, Some(DivergenceChoice::NewProfile));
    assert_eq!(c, Some(DivergenceChoice::Discard));
    assert_eq!(model::next_divergence_default(c), None);
}

#[test]
fn the_model_presets_go_round() {
    let next = |m: Option<&str>| model::next_model_preset(m);
    assert_eq!(next(None).as_deref(), Some("opus"));
    assert_eq!(next(Some("opus")).as_deref(), Some("sonnet"));
    assert_eq!(next(Some("sonnet")).as_deref(), Some("haiku"));
    assert_eq!(next(Some("haiku")).as_deref(), Some("opusplan"));
    assert_eq!(next(Some("opusplan")), None);
    assert_eq!(next(Some("a model of one's own")), None);
}

// ── the token tables ────────────────────────────────────────────────────────

#[test]
fn a_period_has_one_source() {
    assert_eq!(tokens::token_source(TokenPeriod::Lifetime), TokenSource::Lifetime);
    assert_eq!(tokens::token_source(TokenPeriod::Daily), TokenSource::Today);
    assert!(matches!(tokens::token_source(TokenPeriod::Weekly), TokenSource::Current(_)));
}

#[test]
fn models_are_ranked_by_their_use() {
    let rows = vec![
        ModelRow { own: true, metric: 5 },
        ModelRow { own: false, metric: 9 },
        ModelRow { own: true, metric: 7 },
        ModelRow { own: true, metric: 5 },
    ];
    assert_eq!(tokens::rank_models(&rows, TokenFilter::All), vec![1, 2, 0, 3]);
    assert_eq!(tokens::rank_models(&rows, TokenFilter::Claude), vec![2, 0, 3]);
}
