//! What the checks of the integration say in full.

use vstd::prelude::*;

use crate::host::HostView;
use crate::laws::checks;
use crate::plugin;
use crate::plugin::{
    LinkState, McpProbeView, McpWiring, PluginRecordView, RuntimeSnapView, Wiring,
};
use crate::tabs::TokenFilter;
use crate::text;

verus! {

// ── about ───────────────────────────────────────────────────────────────────

/// Where the data lies and where the binaries are is said; what is missing is said to be missing
/// and how to mend it.
pub proof fn places_are_named_or_missed(
    host: HostView,
    dir: Option<Seq<char>>,
    path: Option<Seq<char>>,
    version: Option<Seq<char>>,
)
    ensures
        ({
            let v = plugin::about_detail(host, dir, path, version);
            let at: int = if path is Some {
                2
            } else {
                4
            };
            &&& v[0] == "data: "@ + (if dir is Some {
                dir->0
            } else {
                "—"@
            })
            &&& path is Some ==> v[1] == "path: "@ + path->0
            &&& path is None ==> v[1] == "path: not on PATH"@
            &&& version is Some ==> v.len() == at + 1 && v[at] == host.command + ": "@ + version->0
            &&& version is None ==> v.len() == at + 3 && v[at] == host.command + ": not found"@
        }),
{
}

// ── servers ─────────────────────────────────────────────────────────────────

/// The server is said to be present where anything starts it, with what starts it: an install for
/// the user before a hand-written entry, and that before what holds for one project.
pub proof fn servers_are_traced_to_their_source(
    host: HostView,
    w: Wiring,
    boot: Option<McpProbeView>,
)
    ensures
        ({
            let v = plugin::mcp_detail(host, w, boot);
            &&& v[0] == "present: "@ + (if w.installed || w.manual != McpWiring::Absent {
                "yes"@
            } else {
                "no"@
            })
            &&& w.plugin_global ==> v[1] == "source: plugin install (user)"@
            &&& !w.plugin_global && w.manual == McpWiring::GlobalConfig ==> v[1] == "source: "@
                + host.config_file() + " (manual)"@
            &&& !w.plugin_global && w.manual != McpWiring::GlobalConfig && w.installed ==> v[1]
                == "source: plugin install (project)"@
            &&& !w.plugin_global && !w.installed && w.manual == McpWiring::ProjectFile ==> v[1]
                == "source: ./.mcp.json (manual)"@
            &&& !w.plugin_global && !w.installed && w.manual == McpWiring::Absent ==> v[1]
                == "source: none"@
        }),
{
}

/// A server that was tried is said to boot or to fail, with the reason; the offer to wire it comes
/// last, where it is not wired for every project as it should be.
pub proof fn servers_say_how_they_boot(host: HostView, w: Wiring, reason: Seq<char>)
    ensures
        ({
            let boots = plugin::mcp_detail(host, w, Some(McpProbeView::Boots));
            let fails = plugin::mcp_detail(host, w, Some(McpProbeView::Failed(reason)));
            let untried = plugin::mcp_detail(host, w, None);
            let everywhere = w.plugin_global || (w.manual == McpWiring::GlobalConfig
                && !w.entry_drifted);
            let offer = "[f] wire mcpServers into "@ + host.config_file();
            &&& boots[2] == "server: boots"@
            &&& fails[2] == "server: failed ("@ + reason + ")"@
            &&& boots.len() == untried.len() + 1 && fails.len() == boots.len()
            &&& everywhere ==> untried.len() == 2
            &&& !everywhere ==> untried.last() == offer && boots.last() == offer && fails.last()
                == offer
            &&& !everywhere && w.manual == McpWiring::GlobalConfig ==> untried[3]
                == "entry doesn't match the current launch line"@
            &&& !everywhere && w.manual != McpWiring::GlobalConfig && (w.installed || w.manual
                != McpWiring::Absent) ==> untried[3] == "wired for this project only, not global"@
        }),
{
}

// ── the plugin ──────────────────────────────────────────────────────────────

/// An install says its scope first, and then what is known of it: its version, a short commit, its
/// day, its project and where it came from.
pub proof fn installs_are_described(r: PluginRecordView, repo: Seq<char>)
    requires
        r.scope is Some,
        r.version is Some,
        r.git_commit_sha is Some,
        (r.git_commit_sha->0).len() >= 7,
        r.installed_at is Some,
        r.project_path is Some,
    ensures
        ({
            let v = plugin::record_detail(r, Some(repo));
            &&& v.len() == 6
            &&& v[0] == "installed: yes ("@ + r.scope->0 + ")"@
            &&& v[1] == "version: "@ + r.version->0
            &&& v[2] == "commit: "@ + (r.git_commit_sha->0).take(7)
            &&& v[3] == "installed at: "@ + text::before_char(r.installed_at->0, 'T')
            &&& v[4] == "project: "@ + r.project_path->0
            &&& v[5] == "marketplace: "@ + repo
            &&& plugin::record_detail(r, None) == v.take(5)
        }),
{
    assert(plugin::record_detail(r, None) =~= plugin::record_detail(r, Some(repo)).take(5));
}

/// What is not known of an install is left out.
pub proof fn unknown_facts_are_left_out(scope: Option<Seq<char>>)
    ensures
        ({
            let r = PluginRecordView {
                scope,
                version: None,
                git_commit_sha: None,
                installed_at: None,
                project_path: None,
            };
            let v = plugin::record_detail(r, None);
            &&& v.len() == 1
            &&& v[0] == "installed: yes ("@ + (if scope is Some {
                scope->0
            } else {
                "?"@
            }) + ")"@
        }),
{
}

/// An install for a project is advised to be made the user's: it is taken out of its scope, where
/// that is known, and installed for the user last.
pub proof fn project_installs_are_advised_on(
    host: HostView,
    d: Seq<Seq<char>>,
    scope: Option<Seq<char>>,
)
    ensures
        ({
            let v = plugin::scope_advice(host, d, scope);
            let run = "  "@ + host.command + " plugin "@;
            &&& v.take(d.len() as int) == d
            &&& v.last() == run + "install "@ + (plugin::plugin_id() + " --scope user"@)
            &&& scope is Some ==> v.len() == d.len() + 5 && v[v.len() - 2] == run + "uninstall "@
                + (plugin::plugin_id() + " --scope "@ + scope->0)
            &&& scope is None ==> v.len() == d.len() + 4
        }),
{
    assert(plugin::scope_advice(host, d, scope).take(d.len() as int) =~= d);
}

/// A plugin that is not installed says so and how to install it, from the marketplace first.
pub proof fn missing_plugins_say_how_to_install(host: HostView, known: bool, repo: Seq<char>)
    ensures
        ({
            let v = plugin::not_installed_detail(host, known, Some(repo));
            let w = plugin::not_installed_detail(host, known, None);
            &&& v[0] == "installed: no ("@ + (if known {
                "marketplace known"@
            } else {
                "marketplace unknown"@
            }) + ")"@
            &&& v[1] == "marketplace: "@ + repo
            &&& v[0] == w[0] && v.skip(2) == w.skip(1)
            &&& v[v.len() - 2] == "  /plugin marketplace add uwuclxdy/clauth"@
            &&& v.last() == "  /plugin install clauth@clauth"@
        }),
{
    let v = plugin::not_installed_detail(host, known, Some(repo));
    let w = plugin::not_installed_detail(host, known, None);
    assert(v.skip(2) =~= w.skip(1));
}

// ── the runtime ─────────────────────────────────────────────────────────────

/// A link is named by its own word.
pub proof fn links_are_named()
    ensures
        plugin::link_word(Some(LinkState::LinkedTo)) == "linked"@,
        plugin::link_word(Some(LinkState::Diverged)) == "diverged"@,
        plugin::link_word(Some(LinkState::Missing)) == "missing"@,
        plugin::link_word(None) == "unknown"@,
{
}

/// A token whose second has passed is expired; any other shows the time it has left, and an
/// account without an end shows none.
pub proof fn tokens_expire_at_their_end(s: RuntimeSnapView, now_ms: u64)
    ensures
        s.expires_at is None ==> plugin::token_freshness(s, now_ms) is None,
        s.expires_at is Some && s.expires_at->0 <= now_ms ==> plugin::token_freshness(s, now_ms)
            == Some("expired"@),
        s.expires_at is Some && s.expires_at->0 >= now_ms + 1000 ==> plugin::token_freshness(
            s,
            now_ms,
        ) == Some(s.remaining),
{
}

/// The sessions are counted over all accounts, and the accounts that have any are counted beside.
pub proof fn sessions_are_counted(snaps: Seq<RuntimeSnapView>, more: RuntimeSnapView)
    ensures
        plugin::session_total(Seq::empty(), 0) == 0,
        plugin::session_total(snaps.push(more), snaps.len() + 1) == plugin::session_total(
            snaps,
            snaps.len(),
        ) + more.sessions,
        plugin::live_entries(snaps.push(more), snaps.len() + 1).len() == plugin::live_entries(
            snaps,
            snaps.len(),
        ).len() + (if more.sessions > 0 {
            1int
        } else {
            0
        }),
        plugin::sessions_line(0, 0) == "sessions: "@ + "0"@,
{
    lemma_counts(snaps, more, snaps.len());
}

proof fn lemma_counts(snaps: Seq<RuntimeSnapView>, more: RuntimeSnapView, n: nat)
    requires
        n <= snaps.len(),
    ensures
        plugin::session_total(snaps.push(more), n) == plugin::session_total(snaps, n),
        plugin::live_entries(snaps.push(more), n) == plugin::live_entries(snaps, n),
    decreases n,
{
    if n > 0 {
        lemma_counts(snaps, more, (n - 1) as nat);
    }
}

/// An account with several sessions is listed with their number.
pub proof fn several_sessions_are_numbered(s: RuntimeSnapView)
    ensures
        s.sessions > 1 ==> plugin::live_entry(s) == s.name + " ("@ + text::decimal(
            s.sessions as nat,
        ) + ")"@,
        s.sessions <= 1 ==> plugin::live_entry(s) == s.name,
{
}

/// The runtime counts its accounts first, then its sessions with those that have any below, and
/// then names the active account and its link.
pub proof fn runtimes_name_the_active_account(
    snaps: Seq<RuntimeSnapView>,
    now_ms: u64,
    i: int,
)
    requires
        checks::sole_active(snaps, i),
    ensures
        ({
            let v = plugin::runtime_detail(snaps, now_ms);
            let live = plugin::live_entries(snaps, snaps.len());
            let at = live.len() as int + 2;
            &&& v[0] == "profiles: "@ + text::decimal(snaps.len())
            &&& v[1] == plugin::sessions_line(
                plugin::session_total(snaps, snaps.len()),
                live.len(),
            )
            &&& forall|k: int| 0 <= k < live.len() ==> #[trigger] v[k + 2] == "  "@ + live[k]
            &&& v[at] == "active: "@ + snaps[i].name
            &&& v[at + 1] == "link: "@ + plugin::link_line(Some(snaps[i]), now_ms)
        }),
{
    checks::lemma_active(snaps, snaps.len(), i);
    let live = plugin::live_entries(snaps, snaps.len());
    let head = Seq::<Seq<char>>::empty().push("profiles: "@ + text::decimal(snaps.len())).push(
        plugin::sessions_line(plugin::session_total(snaps, snaps.len()), live.len()),
    );
    lemma_indented(head, live, live.len());
}

proof fn lemma_indented(d: Seq<Seq<char>>, names: Seq<Seq<char>>, n: nat)
    requires
        d.len() == 2,
        n <= names.len(),
    ensures
        ({
            let v = plugin::indented(d, names, n);
            &&& v.len() == n + 2
            &&& v[0] == d[0] && v[1] == d[1]
            &&& forall|k: int| 0 <= k < n ==> #[trigger] v[k + 2] == "  "@ + names[k]
        }),
    decreases n,
{
    if n > 0 {
        lemma_indented(d, names, (n - 1) as nat);
        let before = plugin::indented(d, names, (n - 1) as nat);
        let v = plugin::indented(d, names, n);
        assert forall|k: int| 0 <= k < n implies #[trigger] v[k + 2] == "  "@ + names[k] by {
            if k < n - 1 {
                assert(v[k + 2] == before[k + 2]);
            }
        }
    }
}

/// The link of an account stands with how fresh its token is, where that is known.
pub proof fn links_say_how_fresh_they_are(s: RuntimeSnapView, now_ms: u64)
    ensures
        ({
            let f = plugin::token_freshness(s, now_ms);
            let line = plugin::link_line(Some(s), now_ms);
            &&& f is Some && f->0 != "—"@ ==> line == plugin::link_word(s.link) + " · "@ + f->0
            &&& f is None || f->0 == "—"@ ==> line == plugin::link_word(s.link)
            &&& plugin::link_line(None, now_ms) == "—"@
        }),
{
}

// ── filters ─────────────────────────────────────────────────────────────────

/// A filter admits the models it is named for.
pub proof fn filters_admit_their_models(own: bool)
    ensures
        TokenFilter::All.admits(own),
        TokenFilter::Claude.admits(own) <==> own,
        TokenFilter::Others.admits(own) <==> !own,
{
}

} // verus!
