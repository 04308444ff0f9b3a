//! Integration health: the checks of the Plugin tab and what they read.

use vstd::prelude::*;

use crate::host::{Host, HostView};
use crate::text;

verus! {

broadcast use text::lemma_views_push;

/// Which Plugin pane has focus.
#[derive(Debug, Clone, Copy, PartialEq, Eq, Structural)]
pub enum PluginFocus {
    List,
    Detail,
}

/// Health bucket of a check.
#[derive(Debug, Clone, Copy, PartialEq, Eq, Structural)]
pub enum Health {
    Good,
    Warn,
    Danger,
    /// Neither linked nor running a live session.
    Idle,
}

/// State of the live credential link.
#[derive(Debug, Clone, Copy, PartialEq, Eq, Structural)]
pub enum LinkState {
    LinkedTo,
    Diverged,
    Missing,
}

/// Where a manual server entry was found.
#[derive(Debug, Clone, Copy, PartialEq, Eq, Structural)]
pub enum McpWiring {
    Absent,
    GlobalConfig,
    ProjectFile,
}

/// A one-key fix offered by a check.
pub enum PluginFix {
    WireMcpServers,
    RepairDivergence(String),
    RelinkCredentials(String),
}

/// What a [`PluginFix`] holds.
pub enum PluginFixView {
    WireMcpServers,
    RepairDivergence(Seq<char>),
    RelinkCredentials(Seq<char>),
}

impl View for PluginFix {
    type V = PluginFixView;

    open spec fn view(&self) -> PluginFixView {
        match self {
            PluginFix::WireMcpServers => PluginFixView::WireMcpServers,
            PluginFix::RepairDivergence(a) => PluginFixView::RepairDivergence(a@),
            PluginFix::RelinkCredentials(a) => PluginFixView::RelinkCredentials(a@),
        }
    }
}

impl PluginFix {
    /// A copy.
    pub fn duplicate(&self) -> (r: PluginFix)
        ensures
            r@ == self@,
    {
        match self {
            PluginFix::WireMcpServers => PluginFix::WireMcpServers,
            PluginFix::RepairDivergence(a) => PluginFix::RepairDivergence(a.clone()),
            PluginFix::RelinkCredentials(a) => PluginFix::RelinkCredentials(a.clone()),
        }
    }
}

/// The view of an optional value.
pub open spec fn opt_plugin_fix(o: Option<PluginFix>) -> Option<PluginFixView> {
    match o {
        Some(x) => Some(x@),
        None => None,
    }
}

/// Outcome of booting the server once.
pub enum McpProbe {
    Boots,
    Failed(String),
}

/// What a [`McpProbe`] holds.
pub enum McpProbeView {
    Boots,
    Failed(Seq<char>),
}

impl View for McpProbe {
    type V = McpProbeView;

    open spec fn view(&self) -> McpProbeView {
        match self {
            McpProbe::Boots => McpProbeView::Boots,
            McpProbe::Failed(a) => McpProbeView::Failed(a@),
        }
    }
}

impl McpProbe {
    /// A copy.
    pub fn duplicate(&self) -> (r: McpProbe)
        ensures
            r@ == self@,
    {
        match self {
            McpProbe::Boots => McpProbe::Boots,
            McpProbe::Failed(a) => McpProbe::Failed(a.clone()),
        }
    }
}

/// The view of an optional value.
pub open spec fn opt_mcp_probe(o: Option<McpProbe>) -> Option<McpProbeView> {
    match o {
        Some(x) => Some(x@),
        None => None,
    }
}

/// One integration check.
pub struct Check {
    pub label: &'static str,
    pub health: Health,
    /// Full readout, one entry per line.
    pub detail: Vec<String>,
    pub fix: Option<PluginFix>,
}

/// What a [`Check`] holds.
pub struct CheckView {
    pub label: Seq<char>,
    pub health: Health,
    pub detail: Seq<Seq<char>>,
    pub fix: Option<PluginFixView>,
}

impl View for Check {
    type V = CheckView;

    open spec fn view(&self) -> CheckView {
        CheckView {
            label: self.label@,
            health: self.health,
            detail: text::views(self.detail@),
            fix: opt_plugin_fix(self.fix),
        }
    }
}

impl Check {
    /// A copy.
    pub fn duplicate(&self) -> (r: Check)
        ensures
            r@ == self@,
    {
        Check {
            label: self.label,
            health: self.health,
            detail: text::clone_texts(&self.detail),
            fix: match &self.fix { Some(x) => Some(x.duplicate()), None => None },
        }
    }
}

/// The views of a list.
pub open spec fn check_views(v: Seq<Check>) -> Seq<CheckView> {
    v.map_values(|x: Check| x@)
}

/// Extending a list extends its views.
pub broadcast proof fn lemma_check_views_push(v: Seq<Check>, x: Check)
    ensures
        #[trigger] check_views(v.push(x)) == check_views(v).push(x@),
{
    assert(check_views(v.push(x)) =~= check_views(v).push(x@));
}

/// An installed-plugin record.
pub struct PluginRecord {
    pub scope: Option<String>,
    pub version: Option<String>,
    pub git_commit_sha: Option<String>,
    pub installed_at: Option<String>,
    pub project_path: Option<String>,
}

/// What a [`PluginRecord`] holds.
pub struct PluginRecordView {
    pub scope: Option<Seq<char>>,
    pub version: Option<Seq<char>>,
    pub git_commit_sha: Option<Seq<char>>,
    pub installed_at: Option<Seq<char>>,
    pub project_path: Option<Seq<char>>,
}

impl View for PluginRecord {
    type V = PluginRecordView;

    open spec fn view(&self) -> PluginRecordView {
        PluginRecordView {
            scope: text::opt_view(self.scope),
            version: text::opt_view(self.version),
            git_commit_sha: text::opt_view(self.git_commit_sha),
            installed_at: text::opt_view(self.installed_at),
            project_path: text::opt_view(self.project_path),
        }
    }
}

/// The views of a list.
pub open spec fn plugin_record_views(v: Seq<PluginRecord>) -> Seq<PluginRecordView> {
    v.map_values(|x: PluginRecord| x@)
}

/// What was read of one account at run time.
pub struct RuntimeSnap {
    pub name: String,
    pub active: bool,
    /// Live sessions.
    pub sessions: usize,
    /// A delegate of this account was rate-limited recently.
    pub rate_limited: bool,
    /// Link of its credentials; none when it could not be read.
    pub link: Option<LinkState>,
    pub stored_creds: bool,
    /// Expiry of the access token, in epoch milliseconds.
    pub expires_at: Option<i64>,
    /// The time left, in words.
    pub remaining: String,
}

/// What a [`RuntimeSnap`] holds.
pub struct RuntimeSnapView {
    pub name: Seq<char>,
    pub active: bool,
    pub sessions: usize,
    pub rate_limited: bool,
    pub link: Option<LinkState>,
    pub stored_creds: bool,
    pub expires_at: Option<i64>,
    pub remaining: Seq<char>,
}

impl View for RuntimeSnap {
    type V = RuntimeSnapView;

    open spec fn view(&self) -> RuntimeSnapView {
        RuntimeSnapView {
            name: self.name@,
            active: self.active,
            sessions: self.sessions,
            rate_limited: self.rate_limited,
            link: self.link,
            stored_creds: self.stored_creds,
            expires_at: self.expires_at,
            remaining: self.remaining@,
        }
    }
}

/// The views of a list.
pub open spec fn runtime_snap_views(v: Seq<RuntimeSnap>) -> Seq<RuntimeSnapView> {
    v.map_values(|x: RuntimeSnap| x@)
}

/// Everything the checks read.
pub struct PluginProbe {
    pub data_dir: Option<String>,
    pub clauth_path: Option<String>,
    pub cc_version: Option<String>,
    pub mcp_boot: Option<McpProbe>,
    pub records: Vec<PluginRecord>,
    pub wiring: McpWiring,
    /// Whether the global entry differs from the current launch line.
    pub entry_drifted: Option<bool>,
    pub marketplace_known: bool,
    pub marketplace_repo: Option<String>,
    pub runtime: Vec<RuntimeSnap>,
    pub now_ms: u64,
}

/// What a [`PluginProbe`] holds.
pub struct PluginProbeView {
    pub data_dir: Option<Seq<char>>,
    pub clauth_path: Option<Seq<char>>,
    pub cc_version: Option<Seq<char>>,
    pub mcp_boot: Option<McpProbeView>,
    pub records: Seq<PluginRecordView>,
    pub wiring: McpWiring,
    pub entry_drifted: Option<bool>,
    pub marketplace_known: bool,
    pub marketplace_repo: Option<Seq<char>>,
    pub runtime: Seq<RuntimeSnapView>,
    pub now_ms: u64,
}

impl View for PluginProbe {
    type V = PluginProbeView;

    open spec fn view(&self) -> PluginProbeView {
        PluginProbeView {
            data_dir: text::opt_view(self.data_dir),
            clauth_path: text::opt_view(self.clauth_path),
            cc_version: text::opt_view(self.cc_version),
            mcp_boot: opt_mcp_probe(self.mcp_boot),
            records: plugin_record_views(self.records@),
            wiring: self.wiring,
            entry_drifted: self.entry_drifted,
            marketplace_known: self.marketplace_known,
            marketplace_repo: text::opt_view(self.marketplace_repo),
            runtime: runtime_snap_views(self.runtime@),
            now_ms: self.now_ms,
        }
    }
}

/// State of the Plugin tab.
pub struct PluginState {
    pub focus: PluginFocus,
    pub cursor: usize,
    pub detail_scroll: u16,
    /// Largest valid scroll offset of the last draw.
    pub detail_max_scroll: u16,
    pub fetching: bool,
    pub error: Option<String>,
    pub checks: Vec<Check>,
    /// Cached version probe: none before the first one.
    pub cc_version: Option<Option<String>>,
    /// Cached boot probe: none before the first one.
    pub mcp_boot: Option<McpProbe>,
}

/// What a [`PluginState`] holds.
pub struct PluginStateView {
    pub focus: PluginFocus,
    pub cursor: usize,
    pub detail_scroll: u16,
    pub detail_max_scroll: u16,
    pub fetching: bool,
    pub error: Option<Seq<char>>,
    pub checks: Seq<CheckView>,
    pub cc_version: Option<Option<Seq<char>>>,
    pub mcp_boot: Option<McpProbeView>,
}

impl View for PluginState {
    type V = PluginStateView;

    open spec fn view(&self) -> PluginStateView {
        PluginStateView {
            focus: self.focus,
            cursor: self.cursor,
            detail_scroll: self.detail_scroll,
            detail_max_scroll: self.detail_max_scroll,
            fetching: self.fetching,
            error: text::opt_view(self.error),
            checks: check_views(self.checks@),
            cc_version: (match self.cc_version { Some(x) => Some(text::opt_view(x)), None => None }),
            mcp_boot: opt_mcp_probe(self.mcp_boot),
        }
    }
}

/// Identifier under which the plugin is installed.
pub open spec fn plugin_id() -> Seq<char> {
    "clauth@clauth"@
}

// ── about ───────────────────────────────────────────────────────────────────

/// Readout of the `about` check: data directory, own path, host version.
pub open spec fn about_detail(
    host: HostView,
    data_dir: Option<Seq<char>>,
    path: Option<Seq<char>>,
    version: Option<Seq<char>>,
) -> Seq<Seq<char>> {
    let d = Seq::<Seq<char>>::empty().push(
        "data: "@ + (match data_dir {
            Some(p) => p,
            None => "—"@,
        }),
    );
    let d = match path {
        Some(p) => d.push("path: "@ + p),
        None => d.push("path: not on PATH"@).push(
            host.product + " spawns `clauth mcp` by name, so the server won't start"@,
        ).push("install clauth so its bin directory is on PATH"@),
    };
    match version {
        Some(v) => d.push(host.command + ": "@ + v),
        None => d.push(host.command + ": not found"@).push(
            "`"@ + host.command + " --version` failed or "@ + (host.command
                + " is not on PATH"@),
        ).push(
            "install "@ + host.product + " so the `"@ + (host.command + "` binary resolves"@),
        ),
    }
}

/// The `about` check: without the own binary the server cannot start; without the
/// host there is nothing to integrate with.
pub open spec fn about_check(
    host: HostView,
    data_dir: Option<Seq<char>>,
    path: Option<Seq<char>>,
    version: Option<Seq<char>>,
) -> CheckView {
    CheckView {
        label: "about"@,
        health: if path is None {
            Health::Danger
        } else if version is None {
            Health::Warn
        } else {
            Health::Good
        },
        detail: about_detail(host, data_dir, path, version),
        fix: None,
    }
}

fn build_about_check(
    host: &Host,
    data_dir: &Option<String>,
    path: &Option<String>,
    version: &Option<String>,
) -> (r: Check)
    ensures
        r@ == about_check(
            host@,
            text::opt_view(*data_dir),
            text::opt_view(*path),
            text::opt_view(*version),
        ),
{
    let mut detail: Vec<String> = Vec::new();
    assert(text::views(detail@) =~= Seq::<Seq<char>>::empty());
    match data_dir {
        Some(p) => text::push_line2(&mut detail, "data: ", p.as_str()),
        None => text::push_line2(&mut detail, "data: ", "—"),
    }
    match path {
        Some(p) => text::push_line2(&mut detail, "path: ", p.as_str()),
        None => {
            text::push_line(&mut detail, "path: not on PATH");
            text::push_line2(
                &mut detail,
                host.product.as_str(),
                " spawns `clauth mcp` by name, so the server won't start",
            );
            text::push_line(&mut detail, "install clauth so its bin directory is on PATH");
        },
    }
    match version {
        Some(v) => text::push_line3(&mut detail, host.command.as_str(), ": ", v.as_str()),
        None => {
            text::push_line2(&mut detail, host.command.as_str(), ": not found");
            let head = text::joined3("`", host.command.as_str(), " --version` failed or ");
            let tail = text::joined(host.command.as_str(), " is not on PATH");
            text::push_line2(&mut detail, head.as_str(), tail.as_str());
            let head = text::joined3("install ", host.product.as_str(), " so the `");
            let tail = text::joined(host.command.as_str(), "` binary resolves");
            text::push_line2(&mut detail, head.as_str(), tail.as_str());
        },
    }
    let health = if path.is_none() {
        Health::Danger
    } else if version.is_none() {
        Health::Warn
    } else {
        Health::Good
    };
    Check { label: "about", health, detail, fix: None }
}

// ── mcp servers ─────────────────────────────────────────────────────────────

/// How the server is wired into the host.
#[derive(Debug, Clone, Copy, PartialEq, Eq, Structural)]
pub struct Wiring {
    /// A plugin install is recorded, in any scope.
    pub installed: bool,
    /// A plugin install is recorded in the `user` scope.
    pub plugin_global: bool,
    pub manual: McpWiring,
    /// The global entry is known to differ from the current launch line.
    pub entry_drifted: bool,
}

impl Wiring {
    pub open spec fn wired(self) -> bool {
        self.installed || self.manual != McpWiring::Absent
    }

    pub open spec fn manual_global(self) -> bool {
        self.manual == McpWiring::GlobalConfig
    }

    /// The operative manual entry no longer starts the current server; a `user` plugin
    /// install supersedes it.
    pub open spec fn drifted(self) -> bool {
        self.manual_global() && !self.plugin_global && self.entry_drifted
    }

    pub open spec fn globally_wired(self) -> bool {
        self.plugin_global || (self.manual_global() && !self.drifted())
    }

    pub open spec fn project_only(self) -> bool {
        self.wired() && !self.globally_wired() && !self.drifted()
    }

    pub open spec fn needs_wire(self) -> bool {
        !self.globally_wired() || self.drifted()
    }

    pub open spec fn source(self, host: HostView) -> Seq<char> {
        if self.plugin_global {
            "source: plugin install (user)"@
        } else if self.manual_global() {
            "source: "@ + host.config_file() + " (manual)"@
        } else if self.installed {
            "source: plugin install (project)"@
        } else if self.manual == McpWiring::ProjectFile {
            "source: ./.mcp.json (manual)"@
        } else {
            "source: none"@
        }
    }
}

/// Readout of the `mcp servers` check.
pub open spec fn mcp_detail(
    host: HostView,
    w: Wiring,
    boot: Option<McpProbeView>,
) -> Seq<Seq<char>> {
    let d = Seq::<Seq<char>>::empty().push(
        "present: "@ + (if w.wired() {
            "yes"@
        } else {
            "no"@
        }),
    ).push(w.source(host));
    let d = match boot {
        Some(McpProbeView::Boots) => d.push("server: boots"@),
        Some(McpProbeView::Failed(reason)) => d.push("server: failed ("@ + reason + ")"@),
        None => d,
    };
    if w.needs_wire() {
        let d = d.push(""@);
        let d = if w.drifted() {
            d.push("entry doesn't match the current launch line"@)
        } else if w.project_only() {
            d.push("wired for this project only, not global"@)
        } else {
            d
        };
        d.push("[f] wire mcpServers into "@ + host.config_file())
    } else {
        d
    }
}

/// The `mcp servers` check: a server that does not boot is worse than one that is not
/// wired everywhere, and only the latter has a one-key fix.
pub open spec fn mcp_check(
    host: HostView,
    w: Wiring,
    boot: Option<McpProbeView>,
) -> CheckView {
    CheckView {
        label: "mcp servers"@,
        health: if boot matches Some(McpProbeView::Failed(_)) {
            Health::Danger
        } else if w.needs_wire() {
            Health::Warn
        } else {
            Health::Good
        },
        detail: mcp_detail(host, w, boot),
        fix: if w.needs_wire() {
            Some(PluginFixView::WireMcpServers)
        } else {
            None
        },
    }
}

/// The view of an optional probe result.
pub open spec fn boot_view(boot: Option<McpProbe>) -> Option<McpProbeView> {
    match boot {
        Some(b) => Some(b@),
        None => None,
    }
}

fn build_mcp_check(host: &Host, w: Wiring, boot: &Option<McpProbe>) -> (r: Check)
    ensures
        r@ == mcp_check(host@, w, boot_view(*boot)),
{
    let file = host.config_file();
    let wired = w.installed || w.manual != McpWiring::Absent;
    let manual_global = w.manual == McpWiring::GlobalConfig;
    let drifted = manual_global && !w.plugin_global && w.entry_drifted;
    let globally_wired = w.plugin_global || (manual_global && !drifted);
    let project_only = wired && !globally_wired && !drifted;
    let needs_wire = !globally_wired || drifted;
    let source: String = if w.plugin_global {
        "source: plugin install (user)".to_string()
    } else if manual_global {
        text::joined3("source: ", file.as_str(), " (manual)")
    } else if w.installed {
        "source: plugin install (project)".to_string()
    } else if w.manual == McpWiring::ProjectFile {
        "source: ./.mcp.json (manual)".to_string()
    } else {
        "source: none".to_string()
    };
    let mut detail: Vec<String> = Vec::new();
    assert(text::views(detail@) =~= Seq::<Seq<char>>::empty());
    if wired {
        text::push_line2(&mut detail, "present: ", "yes");
    } else {
        text::push_line2(&mut detail, "present: ", "no");
    }
    text::push_line(&mut detail, source.as_str());
    let mut failed = false;
    match boot {
        Some(McpProbe::Boots) => text::push_line(&mut detail, "server: boots"),
        Some(McpProbe::Failed(reason)) => {
            failed = true;
            text::push_line3(&mut detail, "server: failed (", reason.as_str(), ")");
        },
        None => {},
    }
    if needs_wire {
        text::push_line(&mut detail, "");
        if drifted {
            text::push_line(&mut detail, "entry doesn't match the current launch line");
        } else if project_only {
            text::push_line(&mut detail, "wired for this project only, not global");
        }
        text::push_line2(&mut detail, "[f] wire mcpServers into ", file.as_str());
    }
    let health = if failed {
        Health::Danger
    } else if needs_wire {
        Health::Warn
    } else {
        Health::Good
    };
    let fix = if needs_wire {
        Some(PluginFix::WireMcpServers)
    } else {
        None
    };
    Check { label: "mcp servers", health, detail, fix }
}

// ── plugin ──────────────────────────────────────────────────────────────────

/// Whether some record is of the `user` scope.
pub open spec fn any_user_scope(records: Seq<PluginRecordView>) -> bool {
    exists|i: int| 0 <= i < records.len() && #[trigger] records[i].scope == Some("user"@)
}

/// Readout lines of the first install record, up to its scope advice.
pub open spec fn record_detail(
    r: PluginRecordView,
    repo: Option<Seq<char>>,
) -> Seq<Seq<char>> {
    let d = Seq::<Seq<char>>::empty().push(
        "installed: yes ("@ + (match r.scope {
            Some(s) => s,
            None => "?"@,
        }) + ")"@,
    );
    let d = match r.version {
        Some(v) => d.push("version: "@ + v),
        None => d,
    };
    let d = match r.git_commit_sha {
        Some(sha) => d.push("commit: "@ + sha.take(text::min_int(7, sha.len() as int))),
        None => d,
    };
    let d = match r.installed_at {
        Some(at) => d.push("installed at: "@ + text::before_char(at, 'T')),
        None => d,
    };
    let d = match r.project_path {
        Some(p) => d.push("project: "@ + p),
        None => d,
    };
    match repo {
        Some(m) => d.push("marketplace: "@ + m),
        None => d,
    }
}

/// The advice under an install that is not global.
pub open spec fn scope_advice(
    host: HostView,
    d: Seq<Seq<char>>,
    scope: Option<Seq<char>>,
) -> Seq<Seq<char>> {
    let run = "  "@ + host.command + " plugin "@;
    let d = d.push(""@).push("installed for this project only, not global"@).push(
        "make it global (run in shell):"@,
    );
    let d = match scope {
        Some(s) => d.push(run + "uninstall "@ + (plugin_id() + " --scope "@ + s)),
        None => d,
    };
    d.push(run + "install "@ + (plugin_id() + " --scope user"@))
}

/// Readout when nothing is installed.
pub open spec fn not_installed_detail(
    host: HostView,
    known: bool,
    repo: Option<Seq<char>>,
) -> Seq<Seq<char>> {
    let d = Seq::<Seq<char>>::empty().push(
        "installed: no ("@ + (if known {
            "marketplace known"@
        } else {
            "marketplace unknown"@
        }) + ")"@,
    );
    let d = match repo {
        Some(m) => d.push("marketplace: "@ + m),
        None => d,
    };
    d.push(""@).push("install (run in "@ + host.product + "):"@).push(
        "  /plugin marketplace add uwuclxdy/clauth"@,
    ).push("  /plugin install clauth@clauth"@)
}

/// The `plugin` check.
pub open spec fn plugin_check(
    host: HostView,
    records: Seq<PluginRecordView>,
    known: bool,
    repo: Option<Seq<char>>,
) -> CheckView {
    if records.len() > 0 {
        let d = record_detail(records[0], repo);
        if any_user_scope(records) {
            CheckView { label: "plugin"@, health: Health::Good, detail: d, fix: None }
        } else {
            CheckView {
                label: "plugin"@,
                health: Health::Warn,
                detail: scope_advice(host, d, records[0].scope),
                fix: None,
            }
        }
    } else {
        CheckView {
            label: "plugin"@,
            health: Health::Warn,
            detail: not_installed_detail(host, known, repo),
            fix: None,
        }
    }
}

fn has_user_scope(records: &Vec<PluginRecord>) -> (r: bool)
    ensures
        r == any_user_scope(plugin_record_views(records@)),
{
    let mut i: usize = 0;
    while i < records.len()
        invariant
            i <= records@.len(),
            forall|j: int|
                0 <= j < i ==> (#[trigger] plugin_record_views(records@)[j]).scope != Some("user"@),
        decreases records@.len() - i,
    {
        assert(plugin_record_views(records@)[i as int] == records@[i as int]@);
        if let Some(s) = &records[i].scope {
            if text::same_text(s.as_str(), "user") {
                assert(plugin_record_views(records@)[i as int].scope == Some("user"@));
                return true;
            }
        }
        i = i + 1;
    }
    false
}

fn build_plugin_check(
    host: &Host,
    records: &Vec<PluginRecord>,
    global: bool,
    known: bool,
    repo: &Option<String>,
) -> (r: Check)
    requires
        global == any_user_scope(plugin_record_views(records@)),
    ensures
        r@ == plugin_check(host@, plugin_record_views(records@), known, text::opt_view(*repo)),
{
    let mut detail: Vec<String> = Vec::new();
    assert(text::views(detail@) =~= Seq::<Seq<char>>::empty());
    if records.len() == 0 {
        if known {
            text::push_line3(&mut detail, "installed: no (", "marketplace known", ")");
        } else {
            text::push_line3(&mut detail, "installed: no (", "marketplace unknown", ")");
        }
        if let Some(m) = repo {
            text::push_line2(&mut detail, "marketplace: ", m.as_str());
        }
        text::push_line(&mut detail, "");
        text::push_line3(&mut detail, "install (run in ", host.product.as_str(), "):");
        text::push_line(&mut detail, "  /plugin marketplace add uwuclxdy/clauth");
        text::push_line(&mut detail, "  /plugin install clauth@clauth");
        return Check { label: "plugin", health: Health::Warn, detail, fix: None };
    }
    let record = &records[0];
    assert(plugin_record_views(records@)[0] == record@);
    match &record.scope {
        Some(s) => text::push_line3(&mut detail, "installed: yes (", s.as_str(), ")"),
        None => text::push_line3(&mut detail, "installed: yes (", "?", ")"),
    }
    if let Some(v) = &record.version {
        text::push_line2(&mut detail, "version: ", v.as_str());
    }
    if let Some(sha) = &record.git_commit_sha {
        let short = text::prefix_text(sha.as_str(), 7);
        text::push_line2(&mut detail, "commit: ", short.as_str());
    }
    if let Some(at) = &record.installed_at {
        let day = text::before_char_text(at.as_str(), 'T');
        text::push_line2(&mut detail, "installed at: ", day.as_str());
    }
    if let Some(p) = &record.project_path {
        text::push_line2(&mut detail, "project: ", p.as_str());
    }
    if let Some(m) = repo {
        text::push_line2(&mut detail, "marketplace: ", m.as_str());
    }
    if global {
        return Check { label: "plugin", health: Health::Good, detail, fix: None };
    }
    text::push_line(&mut detail, "");
    text::push_line(&mut detail, "installed for this project only, not global");
    text::push_line(&mut detail, "make it global (run in shell):");
    let run = text::joined3("  ", host.command.as_str(), " plugin ");
    if let Some(s) = &record.scope {
        let tail = text::joined3("clauth@clauth", " --scope ", s.as_str());
        text::push_line3(&mut detail, run.as_str(), "uninstall ", tail.as_str());
    }
    let tail = text::joined("clauth@clauth", " --scope user");
    text::push_line3(&mut detail, run.as_str(), "install ", tail.as_str());
    Check { label: "plugin", health: Health::Warn, detail, fix: None }
}

// ── runtime ─────────────────────────────────────────────────────────────────

/// Live sessions over the first `n` accounts.
pub open spec fn session_total(snaps: Seq<RuntimeSnapView>, n: nat) -> nat
    decreases n,
{
    if n == 0 {
        0
    } else {
        session_total(snaps, (n - 1) as nat) + snaps[n - 1].sessions as nat
    }
}

/// How an account with live sessions is listed.
pub open spec fn live_entry(s: RuntimeSnapView) -> Seq<char> {
    if s.sessions > 1 {
        s.name + " ("@ + text::decimal(s.sessions as nat) + ")"@
    } else {
        s.name
    }
}

/// The accounts with live sessions among the first `n`, as listed.
pub open spec fn live_entries(snaps: Seq<RuntimeSnapView>, n: nat) -> Seq<Seq<char>>
    decreases n,
{
    if n == 0 {
        Seq::empty()
    } else {
        let before = live_entries(snaps, (n - 1) as nat);
        if snaps[n - 1].sessions > 0 {
            before.push(live_entry(snaps[n - 1]))
        } else {
            before
        }
    }
}

/// The recently rate-limited accounts among the first `n`.
pub open spec fn limited_names(snaps: Seq<RuntimeSnapView>, n: nat) -> Seq<Seq<char>>
    decreases n,
{
    if n == 0 {
        Seq::empty()
    } else {
        let before = limited_names(snaps, (n - 1) as nat);
        if snaps[n - 1].rate_limited {
            before.push(snaps[n - 1].name)
        } else {
            before
        }
    }
}

/// The active account among the first `n`.
pub open spec fn active_snap(snaps: Seq<RuntimeSnapView>, n: nat) -> Option<RuntimeSnapView>
    decreases n,
{
    if n == 0 {
        None
    } else if snaps[n - 1].active {
        Some(snaps[n - 1])
    } else {
        active_snap(snaps, (n - 1) as nat)
    }
}

/// Milliseconds to whole seconds, rounding toward zero.
pub open spec fn whole_secs(ms: int) -> int {
    if ms >= 0 {
        ms / 1000
    } else {
        -((-ms) / 1000)
    }
}

/// Word for the credential link.
pub open spec fn link_word(link: Option<LinkState>) -> Seq<char> {
    match link {
        None => "unknown"@,
        Some(LinkState::LinkedTo) => "linked"@,
        Some(LinkState::Diverged) => "diverged"@,
        Some(LinkState::Missing) => "missing"@,
    }
}

/// Freshness of an access token; none when no expiry is known.
pub open spec fn token_freshness(s: RuntimeSnapView, now_ms: u64) -> Option<Seq<char>> {
    match s.expires_at {
        Some(ms) => Some(
            if whole_secs(ms as int) - now_ms as int / 1000 <= 0 {
                "expired"@
            } else {
                s.remaining
            },
        ),
        None => None,
    }
}

/// The `link:` line for the active account.
pub open spec fn link_line(active: Option<RuntimeSnapView>, now_ms: u64) -> Seq<char> {
    match active {
        None => "—"@,
        Some(s) => match token_freshness(s, now_ms) {
            Some(f) if f != "—"@ => link_word(s.link) + " · "@ + f,
            _ => link_word(s.link),
        },
    }
}

/// A link that is diverged, missing or unreadable.
pub open spec fn bad_link(active: Option<RuntimeSnapView>) -> bool {
    match active {
        None => false,
        Some(s) => s.link != Some(LinkState::LinkedTo),
    }
}

/// The repair on offer for the active account's link. A missing link can be restored
/// only while credentials to link to are stored.
pub open spec fn runtime_fix(active: Option<RuntimeSnapView>) -> Option<PluginFixView> {
    match active {
        None => None,
        Some(s) => match s.link {
            Some(LinkState::Diverged) => Some(PluginFixView::RepairDivergence(s.name)),
            Some(LinkState::Missing) if s.stored_creds => Some(
                PluginFixView::RelinkCredentials(s.name),
            ),
            _ => None,
        },
    }
}

/// `d` with every entry of `names` added as an indented line.
pub open spec fn indented(d: Seq<Seq<char>>, names: Seq<Seq<char>>, n: nat) -> Seq<Seq<char>>
    decreases n,
{
    if n == 0 {
        d
    } else {
        indented(d, names, (n - 1) as nat).push("  "@ + names[n - 1])
    }
}

/// The `sessions:` line.
pub open spec fn sessions_line(total: nat, accounts: nat) -> Seq<char> {
    "sessions: "@ + (if total == 0 {
        "0"@
    } else {
        text::decimal(total) + " live across "@ + text::decimal(accounts)
    })
}

/// Readout of the `runtime` check.
pub open spec fn runtime_detail(snaps: Seq<RuntimeSnapView>, now_ms: u64) -> Seq<Seq<char>> {
    let n = snaps.len();
    let live = live_entries(snaps, n);
    let limited = limited_names(snaps, n);
    let active = active_snap(snaps, n);
    let d = Seq::<Seq<char>>::empty().push("profiles: "@ + text::decimal(n)).push(
        sessions_line(session_total(snaps, n), live.len()),
    );
    let d = indented(d, live, live.len());
    let d = d.push(
        "active: "@ + (match active {
            Some(s) => s.name,
            None => "—"@,
        }),
    );
    let d = d.push("link: "@ + link_line(active, now_ms));
    let d = if limited.len() > 0 {
        d.push("delegate: rate-limited ("@ + text::join(limited, ", "@) + ")"@)
    } else {
        d
    };
    match runtime_fix(active) {
        Some(PluginFixView::RepairDivergence(_)) => d.push(""@).push("[f] repair credentials"@),
        Some(PluginFixView::RelinkCredentials(_)) => d.push(""@).push("[f] relink credentials"@),
        _ => d,
    }
}

/// The `runtime` check: a bad link of the active account or a rate-limited delegate is
/// worth a warning; a healthy link or a live session is fine; else nothing is running.
pub open spec fn runtime_check(snaps: Seq<RuntimeSnapView>, now_ms: u64) -> CheckView {
    let n = snaps.len();
    let active = active_snap(snaps, n);
    CheckView {
        label: "runtime"@,
        health: if bad_link(active) || limited_names(snaps, n).len() > 0 {
            Health::Warn
        } else if active is Some || session_total(snaps, n) > 0 {
            Health::Good
        } else {
            Health::Idle
        },
        detail: runtime_detail(snaps, now_ms),
        fix: runtime_fix(active),
    }
}

proof fn lemma_session_total_monotone(snaps: Seq<RuntimeSnapView>, m: nat, n: nat)
    requires
        m <= n,
    ensures
        session_total(snaps, m) <= session_total(snaps, n),
    decreases n,
{
    if m < n {
        lemma_session_total_monotone(snaps, m, (n - 1) as nat);
    }
}

fn link_text(link: Option<LinkState>) -> (r: &'static str)
    ensures
        r@ == link_word(link),
{
    match link {
        None => "unknown",
        Some(LinkState::LinkedTo) => "linked",
        Some(LinkState::Diverged) => "diverged",
        Some(LinkState::Missing) => "missing",
    }
}

/// Whole seconds from now until an instant, both in epoch milliseconds.
pub fn seconds_left(ms: i64, now_ms: u64) -> (r: i64)
    ensures
        r == whole_secs(ms as int) - now_ms as int / 1000,
{
    let now: i64 = (now_ms / 1000) as i64;
    let at: i64 = if ms >= 0 {
        ms / 1000
    } else if ms == i64::MIN {
        -9223372036854775i64
    } else {
        -((-ms) / 1000)
    };
    at - now
}

fn link_line_text(active: Option<&RuntimeSnap>, now_ms: u64) -> (r: String)
    ensures
        r@ == link_line(
            match active {
                Some(s) => Some(s@),
                None => None,
            },
            now_ms,
        ),
{
    match active {
        None => "—".to_string(),
        Some(s) => {
            let word = link_text(s.link);
            match s.expires_at {
                None => word.to_string(),
                Some(ms) => {
                    let fresh: &str = if seconds_left(ms, now_ms) <= 0 {
                        "expired"
                    } else {
                        s.remaining.as_str()
                    };
                    if text::same_text(fresh, "—") {
                        word.to_string()
                    } else {
                        text::joined3(word, " · ", fresh)
                    }
                },
            }
        },
    }
}

fn build_runtime_check(snaps: &Vec<RuntimeSnap>, now_ms: u64) -> (r: Check)
    requires
        session_total(runtime_snap_views(snaps@), snaps@.len()) <= usize::MAX,
    ensures
        r@ == runtime_check(runtime_snap_views(snaps@), now_ms),
{
    let ghost sv = runtime_snap_views(snaps@);
    let mut total: usize = 0;
    let mut live: Vec<String> = Vec::new();
    let mut limited: Vec<String> = Vec::new();
    let mut active: Option<&RuntimeSnap> = None;
    let mut i: usize = 0;
    assert(text::views(live@) =~= Seq::<Seq<char>>::empty());
    assert(text::views(limited@) =~= Seq::<Seq<char>>::empty());
    while i < snaps.len()
        invariant
            i <= snaps@.len(),
            sv == runtime_snap_views(snaps@),
            session_total(sv, snaps@.len()) <= usize::MAX,
            total == session_total(sv, i as nat),
            text::views(live@) == live_entries(sv, i as nat),
            text::views(limited@) == limited_names(sv, i as nat),
            active_snap(sv, i as nat) == (match active {
                Some(s) => Some(s@),
                None => None,
            }),
        decreases snaps@.len() - i,
    {
        let snap = &snaps[i];
        proof {
            assert(sv[i as int] == snap@);
            lemma_session_total_monotone(sv, (i + 1) as nat, snaps@.len());
        }
        total = total + snap.sessions;
        if snap.sessions > 1 {
            let head = text::joined3(
                snap.name.as_str(),
                " (",
                text::decimal_text(snap.sessions as u64).as_str(),
            );
            text::push_line2(&mut live, head.as_str(), ")");
        } else if snap.sessions > 0 {
            text::push_line(&mut live, snap.name.as_str());
        }
        if snap.rate_limited {
            text::push_line(&mut limited, snap.name.as_str());
        }
        if snap.active {
            active = Some(snap);
        }
        i = i + 1;
    }
    let ghost act = active_snap(sv, snaps@.len());
    let mut detail: Vec<String> = Vec::new();
    assert(text::views(detail@) =~= Seq::<Seq<char>>::empty());
    let count = text::decimal_text(snaps.len() as u64);
    text::push_line2(&mut detail, "profiles: ", count.as_str());
    proof {
        assert(text::views(live@).len() == live@.len());
        assert(text::views(limited@).len() == limited@.len());
    }
    if total == 0 {
        text::push_line2(&mut detail, "sessions: ", "0");
    } else {
        let tally = text::joined3(
            text::decimal_text(total as u64).as_str(),
            " live across ",
            text::decimal_text(live.len() as u64).as_str(),
        );
        text::push_line2(&mut detail, "sessions: ", tally.as_str());
    }
    let ghost base = text::views(detail@);
    let ghost live_v = text::views(live@);
    let mut k: usize = 0;
    while k < live.len()
        invariant
            k <= live@.len(),
            live_v == text::views(live@),
            text::views(detail@) == indented(base, live_v, k as nat),
        decreases live@.len() - k,
    {
        assert(live_v[k as int] == live@[k as int]@);
        text::push_line2(&mut detail, "  ", live[k].as_str());
        k = k + 1;
    }
    match active {
        Some(s) => text::push_line2(&mut detail, "active: ", s.name.as_str()),
        None => text::push_line2(&mut detail, "active: ", "—"),
    }
    let link = link_line_text(active, now_ms);
    text::push_line2(&mut detail, "link: ", link.as_str());
    if limited.len() > 0 {
        let names = text::join_texts(&limited, ", ");
        text::push_line3(&mut detail, "delegate: rate-limited (", names.as_str(), ")");
    }
    let mut fix: Option<PluginFix> = None;
    let mut bad = false;
    if let Some(s) = active {
        match s.link {
            Some(LinkState::LinkedTo) => {},
            Some(LinkState::Diverged) => {
                bad = true;
                fix = Some(PluginFix::RepairDivergence(s.name.clone()));
                text::push_line(&mut detail, "");
                text::push_line(&mut detail, "[f] repair credentials");
            },
            Some(LinkState::Missing) => {
                bad = true;
                if s.stored_creds {
                    fix = Some(PluginFix::RelinkCredentials(s.name.clone()));
                    text::push_line(&mut detail, "");
                    text::push_line(&mut detail, "[f] relink credentials");
                }
            },
            None => {
                bad = true;
            },
        }
    }
    let health = if bad || limited.len() > 0 {
        Health::Warn
    } else if active.is_some() || total > 0 {
        Health::Good
    } else {
        Health::Idle
    };
    Check { label: "runtime", health, detail, fix }
}

// ── all checks ──────────────────────────────────────────────────────────────

/// The wiring that a probe found.
pub open spec fn probed_wiring(p: PluginProbeView) -> Wiring {
    Wiring {
        installed: p.records.len() > 0,
        plugin_global: any_user_scope(p.records),
        manual: p.wiring,
        entry_drifted: p.entry_drifted == Some(true),
    }
}

/// The four checks over a probe, the host version and the boot result being those cached.
pub open spec fn all_checks(
    host: HostView,
    p: PluginProbeView,
    version: Option<Seq<char>>,
    boot: Option<McpProbeView>,
) -> Seq<CheckView> {
    Seq::<CheckView>::empty().push(about_check(host, p.data_dir, p.clauth_path, version)).push(
        mcp_check(host, probed_wiring(p), boot),
    ).push(plugin_check(host, p.records, p.marketplace_known, p.marketplace_repo)).push(
        runtime_check(p.runtime, p.now_ms),
    )
}

/// The number of live sessions a probe reports fits a machine word.
pub open spec fn countable_sessions(p: PluginProbeView) -> bool {
    session_total(p.runtime, p.runtime.len()) <= usize::MAX
}

fn build_checks(
    host: &Host,
    p: &PluginProbe,
    version: &Option<String>,
    boot: &Option<McpProbe>,
) -> (r: Vec<Check>)
    requires
        countable_sessions(p@),
    ensures
        check_views(r@) == all_checks(host@, p@, text::opt_view(*version), boot_view(*boot)),
{
    broadcast use lemma_check_views_push;

    let global = has_user_scope(&p.records);
    let drifted = match p.entry_drifted {
        Some(d) => d,
        None => false,
    };
    let w = Wiring {
        installed: p.records.len() > 0,
        plugin_global: global,
        manual: p.wiring,
        entry_drifted: drifted,
    };
    assert(plugin_record_views(p.records@).len() == p.records@.len());
    assert(w == probed_wiring(p@));
    let mut checks: Vec<Check> = Vec::new();
    assert(check_views(checks@) =~= Seq::<CheckView>::empty());
    checks.push(build_about_check(host, &p.data_dir, &p.clauth_path, version));
    checks.push(build_mcp_check(host, w, boot));
    checks.push(
        build_plugin_check(host, &p.records, global, p.marketplace_known, &p.marketplace_repo),
    );
    assert(runtime_snap_views(p.runtime@).len() == p.runtime@.len());
    checks.push(build_runtime_check(&p.runtime, p.now_ms));
    checks
}

impl PluginStateView {
    /// The state before the first probe.
    pub open spec fn initial() -> PluginStateView {
        PluginStateView {
            focus: PluginFocus::List,
            cursor: 0,
            detail_scroll: 0,
            detail_max_scroll: 0,
            fetching: false,
            error: None,
            checks: Seq::empty(),
            cc_version: None,
            mcp_boot: None,
        }
    }

    /// A forced probe, or the first one, reads the host version anew; the server is
    /// booted by a forced probe alone.
    pub open spec fn wants_version(self, forced: bool) -> bool {
        forced || self.cc_version is None
    }

    /// The host version after a probe.
    pub open spec fn version_after(
        self,
        p: PluginProbeView,
        forced: bool,
    ) -> Option<Option<Seq<char>>> {
        if self.wants_version(forced) {
            Some(p.cc_version)
        } else {
            self.cc_version
        }
    }

    /// The boot result after a probe: a forced one replaces it, and clears it when the
    /// own binary does not resolve.
    pub open spec fn boot_after(self, p: PluginProbeView, forced: bool) -> Option<McpProbeView> {
        if forced {
            if p.clauth_path is Some {
                p.mcp_boot
            } else {
                None
            }
        } else {
            self.mcp_boot
        }
    }

    /// The state after a probe: fresh checks, the cursor kept within them.
    pub open spec fn probed(
        self,
        host: HostView,
        p: PluginProbeView,
        forced: bool,
    ) -> PluginStateView {
        let version = self.version_after(p, forced);
        let boot = self.boot_after(p, forced);
        let checks = all_checks(
            host,
            p,
            match version {
                Some(v) => v,
                None => None,
            },
            boot,
        );
        PluginStateView {
            error: None,
            fetching: if forced || self.cc_version is None {
                false
            } else {
                self.fetching
            },
            cc_version: version,
            mcp_boot: boot,
            checks,
            cursor: if self.cursor > checks.len() - 1 {
                (checks.len() - 1) as usize
            } else {
                self.cursor
            },
            ..self
        }
    }

    pub open spec fn selected(self) -> Option<CheckView> {
        if self.cursor < self.checks.len() {
            Some(self.checks[self.cursor as int])
        } else {
            None
        }
    }

    pub open spec fn offered_fix(self) -> Option<PluginFixView> {
        match self.selected() {
            Some(c) => c.fix,
            None => None,
        }
    }
}

impl Default for PluginState {
    /// The state before the first probe.
    fn default() -> (r: PluginState)
        ensures
            r@ == PluginStateView::initial(),
    {
        let checks: Vec<Check> = Vec::new();
        assert(check_views(checks@) =~= Seq::<CheckView>::empty());
        PluginState {
            focus: PluginFocus::List,
            cursor: 0,
            detail_scroll: 0,
            detail_max_scroll: 0,
            fetching: false,
            error: None,
            checks,
            cc_version: None,
            mcp_boot: None,
        }
    }
}

impl PluginState {
    /// Number of selectable rows.
    pub fn row_count(&self) -> (r: usize)
        ensures
            r == self@.checks.len(),
    {
        self.checks.len()
    }

    /// The check under the cursor.
    pub fn selected_check(&self) -> (r: Option<&Check>)
        ensures
            (match r {
                Some(c) => Some(c@),
                None => None,
            }) == self@.selected(),
    {
        if self.cursor < self.checks.len() {
            Some(&self.checks[self.cursor])
        } else {
            None
        }
    }

    /// The fix on offer for the check under the cursor.
    pub fn selected_fix(&self) -> (r: Option<&PluginFix>)
        ensures
            (match r {
                Some(f) => Some(f@),
                None => None,
            }) == self@.offered_fix(),
    {
        match self.selected_check() {
            Some(c) => match &c.fix {
                Some(f) => Some(f),
                None => None,
            },
            None => None,
        }
    }

    /// Whether the next probe has to read the host version.
    pub fn wants_version(&self, forced: bool) -> (r: bool)
        ensures
            r == self@.wants_version(forced),
    {
        forced || self.cc_version.is_none()
    }

    /// Recomputes the checks from a probe. `forced` marks a probe the user asked for.
    pub fn recompute_plugin_checks(&mut self, host: &Host, probe: PluginProbe, forced: bool)
        requires
            countable_sessions(probe@),
        ensures
            final(self)@ == old(self)@.probed(host@, probe@, forced),
    {
        self.error = None;
        if forced || self.cc_version.is_none() {
            self.fetching = false;
            self.cc_version = Some(text::clone_opt(&probe.cc_version));
        }
        if forced {
            self.mcp_boot =
            if probe.clauth_path.is_some() {
                match &probe.mcp_boot {
                    Some(b) => Some(b.duplicate()),
                    None => None,
                }
            } else {
                None
            };
        }
        let version: Option<String> = match &self.cc_version {
            Some(v) => text::clone_opt(v),
            None => None,
        };
        self.checks = build_checks(host, &probe, &version, &self.mcp_boot);
        assert(check_views(self.checks@).len() == self.checks@.len());
        let max: usize = self.checks.len() - 1;
        if self.cursor > max {
            self.cursor = max;
        }
    }
}

/// A probe always leaves exactly four checks, with the cursor on one of them.
pub proof fn probe_leaves_four_checks(
    host: HostView,
    s: PluginStateView,
    p: PluginProbeView,
    forced: bool,
)
    ensures
        s.probed(host, p, forced).checks.len() == 4,
        s.probed(host, p, forced).cursor < 4,
        s.probed(host, p, forced).selected() is Some,
{
}

/// A probe the user did not ask for never replaces a version or boot result already read.
pub proof fn unforced_probe_keeps_cached_results(
    host: HostView,
    s: PluginStateView,
    p: PluginProbeView,
)
    requires
        s.cc_version is Some,
    ensures
        s.probed(host, p, false).cc_version == s.cc_version,
        s.probed(host, p, false).mcp_boot == s.mcp_boot,
{
}

/// Global wiring excludes the wiring fix, and anything less offers it.
pub proof fn wiring_fix_iff_not_global(host: HostView, w: Wiring, boot: Option<McpProbeView>)
    ensures
        mcp_check(host, w, boot).fix is Some <==> !w.globally_wired(),
        w.drifted() ==> !w.globally_wired(),
{
}

/// A check with a fix is never shown as healthy.
pub proof fn fixable_checks_are_not_ok(
    host: HostView,
    p: PluginProbeView,
    version: Option<Seq<char>>,
    boot: Option<McpProbeView>,
    i: int,
)
    requires
        0 <= i < 4,
    ensures
        all_checks(host, p, version, boot)[i].fix is Some ==> all_checks(host, p, version, boot)[i].health
            != Health::Good,
{
}

} // verus!
