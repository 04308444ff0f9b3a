//! What the checks of the integration promise.

use vstd::prelude::*;

use crate::host::HostView;
use crate::plugin;
use crate::plugin::{
    Health, LinkState, McpProbeView, McpWiring, PluginFixView, PluginProbeView, PluginRecordView,
    PluginStateView, RuntimeSnapView, Wiring,
};

verus! {

/// The checks after a probe, in their order: about, servers, plugin, runtime.
pub proof fn checks_are_in_order(
    host: HostView,
    s: PluginStateView,
    p: PluginProbeView,
    forced: bool,
)
    ensures
        ({
            let v = s.probed(host, p, forced).checks;
            &&& v.len() == 4
            &&& v[0].label == "about"@
            &&& v[1].label == "mcp servers"@
            &&& v[2].label == "plugin"@
            &&& v[3].label == "runtime"@
        }),
{
}

/// Without the program's own binary the integration cannot start, which is a danger; without the
/// host it is a warning; with both it is fine. It has no fix.
pub proof fn missing_binaries_are_told_apart(
    host: HostView,
    dir: Option<Seq<char>>,
    path: Option<Seq<char>>,
    version: Option<Seq<char>>,
)
    ensures
        ({
            let c = plugin::about_check(host, dir, path, version);
            &&& c.health == Health::Danger <==> path is None
            &&& c.health == Health::Warn <==> path is Some && version is None
            &&& c.health == Health::Good <==> path is Some && version is Some
            &&& c.fix is None
        }),
{
}

/// A server that does not boot is a danger, however it is wired; one that boots, or was not tried,
/// is fine where it is wired for every project and a warning otherwise, and then the wiring is
/// offered.
pub proof fn servers_must_boot_and_be_wired(
    host: HostView,
    w: Wiring,
    boot: Option<McpProbeView>,
)
    ensures
        ({
            let c = plugin::mcp_check(host, w, boot);
            let fails = boot is Some && boot->0 is Failed;
            let everywhere = w.plugin_global || (w.manual == McpWiring::GlobalConfig
                && !w.entry_drifted);
            &&& c.health == Health::Danger <==> fails
            &&& c.health == Health::Good <==> !fails && everywhere
            &&& c.health == Health::Warn <==> !fails && !everywhere
            &&& c.fix == (if everywhere {
                None
            } else {
                Some(PluginFixView::WireMcpServers)
            })
        }),
{
}

/// A plugin installed for the user is fine; one installed for a project only, or not at all, is a
/// warning.
pub proof fn plugins_must_be_installed_for_the_user(
    host: HostView,
    records: Seq<PluginRecordView>,
    known: bool,
    repo: Option<Seq<char>>,
)
    ensures
        ({
            let c = plugin::plugin_check(host, records, known, repo);
            let user = exists|i: int|
                0 <= i < records.len() && (#[trigger] records[i]).scope == Some("user"@);
            &&& user ==> c.health == Health::Good
            &&& !user ==> c.health == Health::Warn
            &&& c.fix is None
        }),
{
}

/// The wiring of a probe is what the probe found: installed where there is a record, for every
/// project where one is the user's, and drifted only where that is known.
pub proof fn wirings_are_what_was_found(p: PluginProbeView)
    ensures
        ({
            let w = plugin::probed_wiring(p);
            &&& w.installed <==> p.records.len() > 0
            &&& w.plugin_global <==> exists|i: int|
                0 <= i < p.records.len() && (#[trigger] p.records[i]).scope == Some("user"@)
            &&& w.manual == p.wiring
            &&& w.entry_drifted <==> p.entry_drifted == Some(true)
        }),
{
}

/// The account that is active: the only one, or none.
pub open spec fn sole_active(snaps: Seq<RuntimeSnapView>, i: int) -> bool {
    &&& 0 <= i < snaps.len()
    &&& snaps[i].active
    &&& forall|j: int| 0 <= j < snaps.len() && (#[trigger] snaps[j]).active ==> j == i
}

pub proof fn lemma_active(snaps: Seq<RuntimeSnapView>, n: nat, i: int)
    requires
        sole_active(snaps, i),
        n <= snaps.len(),
    ensures
        plugin::active_snap(snaps, n) == (if i < n {
            Some(snaps[i])
        } else {
            None
        }),
    decreases n,
{
    if n > 0 {
        lemma_active(snaps, (n - 1) as nat, i);
    }
}

proof fn lemma_inactive(snaps: Seq<RuntimeSnapView>, n: nat)
    requires
        n <= snaps.len(),
        forall|j: int| 0 <= j < snaps.len() ==> !(#[trigger] snaps[j]).active,
    ensures
        plugin::active_snap(snaps, n) is None,
    decreases n,
{
    if n > 0 {
        lemma_inactive(snaps, (n - 1) as nat);
    }
}

proof fn lemma_limited(snaps: Seq<RuntimeSnapView>, n: nat)
    requires
        n <= snaps.len(),
    ensures
        plugin::limited_names(snaps, n).len() > 0 <==> exists|j: int|
            0 <= j < n && (#[trigger] snaps[j]).rate_limited,
    decreases n,
{
    if n > 0 {
        lemma_limited(snaps, (n - 1) as nat);
        if exists|j: int| 0 <= j < n && (#[trigger] snaps[j]).rate_limited {
            let j = choose|j: int| 0 <= j < n && (#[trigger] snaps[j]).rate_limited;
            if j < n - 1 {
                assert(snaps[j].rate_limited);
            }
        }
        if plugin::limited_names(snaps, n).len() > 0 {
            if snaps[n - 1].rate_limited {
            } else {
                let j = choose|j: int| 0 <= j < n - 1 && (#[trigger] snaps[j]).rate_limited;
                assert(snaps[j].rate_limited);
            }
        }
    }
}

proof fn lemma_running(snaps: Seq<RuntimeSnapView>, n: nat)
    requires
        n <= snaps.len(),
    ensures
        plugin::session_total(snaps, n) > 0 <==> exists|j: int|
            0 <= j < n && (#[trigger] snaps[j]).sessions > 0,
    decreases n,
{
    if n > 0 {
        lemma_running(snaps, (n - 1) as nat);
        if exists|j: int| 0 <= j < n && (#[trigger] snaps[j]).sessions > 0 {
            let j = choose|j: int| 0 <= j < n && (#[trigger] snaps[j]).sessions > 0;
            if j < n - 1 {
                assert(snaps[j].sessions > 0);
            }
        }
        if plugin::session_total(snaps, n) > 0 {
            if snaps[n - 1].sessions > 0 {
            } else {
                let j = choose|j: int| 0 <= j < n - 1 && (#[trigger] snaps[j]).sessions > 0;
                assert(snaps[j].sessions > 0);
            }
        }
    }
}

/// The active account's link decides: one that is not linked is a warning, and so is a delegate
/// that was rate-limited; otherwise it is fine. A login that differs is offered for repair, and a
/// missing link for relinking where there is a stored login to link to, both for that account.
pub proof fn active_links_decide_the_runtime(snaps: Seq<RuntimeSnapView>, now_ms: u64, i: int)
    requires
        sole_active(snaps, i),
    ensures
        ({
            let c = plugin::runtime_check(snaps, now_ms);
            let a = snaps[i];
            let limited = exists|j: int|
                0 <= j < snaps.len() && (#[trigger] snaps[j]).rate_limited;
            let linked = a.link == Some(LinkState::LinkedTo);
            &&& c.health == (if linked && !limited {
                Health::Good
            } else {
                Health::Warn
            })
            &&& c.fix == (if a.link == Some(LinkState::Diverged) {
                Some(PluginFixView::RepairDivergence(a.name))
            } else if a.link == Some(LinkState::Missing) && a.stored_creds {
                Some(PluginFixView::RelinkCredentials(a.name))
            } else {
                None
            })
        }),
{
    lemma_active(snaps, snaps.len(), i);
    lemma_limited(snaps, snaps.len());
}

/// Without an active account there is nothing to fix: a running session is fine, and with none
/// nothing runs; a rate-limited delegate is a warning all the same.
pub proof fn runtimes_without_an_active_account(snaps: Seq<RuntimeSnapView>, now_ms: u64)
    requires
        forall|j: int| 0 <= j < snaps.len() ==> !(#[trigger] snaps[j]).active,
    ensures
        ({
            let c = plugin::runtime_check(snaps, now_ms);
            let limited = exists|j: int|
                0 <= j < snaps.len() && (#[trigger] snaps[j]).rate_limited;
            let running = exists|j: int|
                0 <= j < snaps.len() && (#[trigger] snaps[j]).sessions > 0;
            &&& c.fix is None
            &&& c.health == (if limited {
                Health::Warn
            } else if running {
                Health::Good
            } else {
                Health::Idle
            })
        }),
{
    lemma_inactive(snaps, snaps.len());
    lemma_limited(snaps, snaps.len());
    lemma_running(snaps, snaps.len());
}

/// The accounts with live sessions are listed, each with its number where there is more than one,
/// and no others are.
pub proof fn live_accounts_are_listed(snaps: Seq<RuntimeSnapView>, i: int)
    requires
        0 <= i < snaps.len(),
        snaps[i].sessions == 1,
    ensures
        plugin::live_entries(snaps, snaps.len()).contains(snaps[i].name),
        plugin::live_entries(snaps, snaps.len()).len() <= snaps.len(),
{
    lemma_listed(snaps, snaps.len(), i);
}

proof fn lemma_listed(snaps: Seq<RuntimeSnapView>, n: nat, i: int)
    requires
        0 <= i < snaps.len(),
        snaps[i].sessions == 1,
        n <= snaps.len(),
    ensures
        i < n ==> plugin::live_entries(snaps, n).contains(snaps[i].name),
        plugin::live_entries(snaps, n).len() <= n,
    decreases n,
{
    if n > 0 {
        lemma_listed(snaps, (n - 1) as nat, i);
        let before = plugin::live_entries(snaps, (n - 1) as nat);
        let out = plugin::live_entries(snaps, n);
        if i == n - 1 {
            assert(out[out.len() - 1] == snaps[i].name);
        } else if i < n {
            let k = choose|k: int| 0 <= k < before.len() && before[k] == snaps[i].name;
            assert(out[k] == snaps[i].name);
        }
    }
}

/// A probe that was asked for replaces what was known of the host and of the server; where the own
/// binary is gone nothing is known of the server. One that was not asked for only fills in a
/// version that was never read.
pub proof fn forced_probes_replace_what_is_known(
    host: HostView,
    s: PluginStateView,
    p: PluginProbeView,
)
    ensures
        ({
            let f = s.probed(host, p, true);
            let q = s.probed(host, p, false);
            &&& f.cc_version == Some(p.cc_version)
            &&& f.mcp_boot == (if p.clauth_path is Some {
                p.mcp_boot
            } else {
                None
            })
            &&& !f.fetching
            &&& s.cc_version is None ==> q.cc_version == Some(p.cc_version)
            &&& q.mcp_boot == s.mcp_boot
        }),
{
}

} // verus!
