//! What the panes report: the flow of the chain, an account's state, settings, incidents and the
//! accounts that wait for a reading.

use vstd::prelude::*;

use crate::chain_view;
use crate::clock;
use crate::clock::ProfileActivity;
use crate::detail_view;
use crate::detail_view::UsageFiguresView;
use crate::events;
use crate::feed::{ComponentView, Impact, IncidentView, StatusStateView};
use crate::footer::HerdrOption;
use crate::forms::{ConfigDraftView, GlobalConfigRow};
use crate::host::HostView;
use crate::layout;
use crate::layout::GlyphsView;
use crate::model::DivergenceChoice;
use crate::overview_view;
use crate::overview_view::{ChainRowView, ProjectionView, Resume};
use crate::paint;
use crate::paint::{LineView, Role, SpanView};
use crate::plugin_view;
use crate::plugin_view::HerdrSceneView;
use crate::settings;
use crate::settings_view;
use crate::settings_view::{SettingsEditsView, SettingsSceneView, ToggleState};
use crate::setup_view;
use crate::setup_view::{SessionTokenStatus, SetupSceneView, SnapView};
use crate::status_view;
use crate::status_view::MomentsView;
use crate::text;
use crate::usage;

verus! {

// ── the accounts that wait ──────────────────────────────────────────────────

/// An account waits for a fetch just when it was never fetched or a whole interval has passed
/// since.
pub proof fn fetches_are_due_after_the_interval(last: u64, interval: u64, now: u64)
    requires
        last + interval <= u64::MAX,
    ensures
        usage::awaits_fetch(None, interval, now),
        usage::awaits_fetch(Some(last), interval, now) <==> now - last >= interval,
{
}

/// Those that wait are listed, in their order, and no others: a list holds one more name just
/// where one more account waits, and it holds that name last.
pub proof fn those_that_wait_are_listed(
    names: Seq<Seq<char>>,
    last_ms: Seq<Option<u64>>,
    interval: u64,
    now: u64,
    n: nat,
    i: int,
)
    requires
        0 <= i < n <= names.len(),
        names.len() == last_ms.len(),
        names.no_duplicates(),
    ensures
        usage::awaiting(names, last_ms, interval, now, n).contains(names[i])
            <==> usage::awaits_fetch(last_ms[i], interval, now),
    decreases n,
{
    let before = usage::awaiting(names, last_ms, interval, now, (n - 1) as nat);
    let v = usage::awaiting(names, last_ms, interval, now, n);
    if i < n - 1 {
        those_that_wait_are_listed(names, last_ms, interval, now, (n - 1) as nat, i);
        if v.contains(names[i]) {
            let k = v.index_of(names[i]);
            assert(v[k] == names[i]);
            if k < before.len() {
                assert(before[k] == names[i]);
            }
        }
        if before.contains(names[i]) {
            let k = before.index_of(names[i]);
            assert(v[k] == names[i]);
        }
    } else {
        lemma_listed(names, last_ms, interval, now, (n - 1) as nat);
        if usage::awaits_fetch(last_ms[i], interval, now) {
            assert(v[before.len() as int] == names[i]);
        } else if v.contains(names[i]) {
            let k = before.index_of(names[i]);
            assert(before[k] == names[i]);
        }
    }
}

proof fn lemma_listed(
    names: Seq<Seq<char>>,
    last_ms: Seq<Option<u64>>,
    interval: u64,
    now: u64,
    n: nat,
)
    requires
        n <= names.len(),
    ensures
        forall|k: int|
            0 <= k < usage::awaiting(names, last_ms, interval, now, n).len() ==> exists|j: int|
                0 <= j < n && names[j] == #[trigger] usage::awaiting(
                    names,
                    last_ms,
                    interval,
                    now,
                    n,
                )[k],
    decreases n,
{
    if n > 0 {
        lemma_listed(names, last_ms, interval, now, (n - 1) as nat);
        let before = usage::awaiting(names, last_ms, interval, now, (n - 1) as nat);
        let v = usage::awaiting(names, last_ms, interval, now, n);
        assert forall|k: int| 0 <= k < v.len() implies exists|j: int|
            0 <= j < n && names[j] == #[trigger] v[k] by {
            if k < before.len() {
                assert(v[k] == before[k]);
            } else {
                assert(names[n - 1] == v[k]);
            }
        }
    }
}

// ── the flow of the chain ───────────────────────────────────────────────────

/// The flow lists every member in order, then says what happens once all are spent, when it is
/// projected to stop, and when it resumes.
pub proof fn flows_list_their_members(
    rows: Seq<ChainRowView>,
    p: Option<ProjectionView>,
    stop: bool,
    resume: Option<Resume>,
    width: int,
    i: int,
)
    requires
        0 <= i < rows.len(),
    ensures
        ({
            let v = overview_view::chain_flow(rows, p, stop, resume, width);
            let name_w = text::min_int(
                text::max_int(overview_view::longest_name(rows, rows.len()), 6),
                18,
            );
            let head = overview_view::chain_head(rows[i], i, rows.len() - 1, name_w);
            let stops = p is Some && p->0 is Off;
            let n = rows.len() as int;
            &&& v.len() == n + 1 + (if stops {
                1int
            } else {
                0
            }) + (if resume is Some {
                1int
            } else {
                0
            })
            &&& v[i].spans.take(head.len() as int) == head
            &&& v[n] == overview_view::spent_caption(stop)
            &&& stops ==> v[n + 1].spans[1].text == "stops all in ~"@ + (p->0)->Off_eta
            &&& resume is Some ==> v.last().spans[1].text == "resumes: "@ + (resume->0).name@
                + " in ~"@ + (resume->0).eta@
        }),
{
    let name_w = text::min_int(
        text::max_int(overview_view::longest_name(rows, rows.len()), 6),
        18,
    );
    lemma_flow(rows, p, name_w, width, rows.len(), i);
}

proof fn lemma_flow(
    rows: Seq<ChainRowView>,
    p: Option<ProjectionView>,
    name_w: int,
    width: int,
    n: nat,
    i: int,
)
    requires
        n <= rows.len(),
    ensures
        ({
            let v = overview_view::flow_rows(rows, p, name_w, width, n);
            let head = overview_view::chain_head(rows[i], i, rows.len() - 1, name_w);
            &&& v.len() == n
            &&& 0 <= i < n ==> v[i].spans.take(head.len() as int) == head
        }),
    decreases n,
{
    if n > 0 {
        lemma_flow(rows, p, name_w, width, (n - 1) as nat, i);
        if i == n - 1 {
            let v = overview_view::flow_rows(rows, p, name_w, width, n);
            let head = overview_view::chain_head(rows[i], i, rows.len() - 1, name_w);
            assert(v[i].spans.take(head.len() as int) =~= head);
        }
    }
}

/// The names of a flow are set as wide as the longest one needs.
pub proof fn the_longest_name_is_found(rows: Seq<ChainRowView>, n: nat, i: int)
    requires
        0 <= i < n <= rows.len(),
    ensures
        rows[i].name.len() <= overview_view::longest_name(rows, n),
    decreases n,
{
    if i < n - 1 {
        the_longest_name_is_found(rows, (n - 1) as nat, i);
    }
}

/// A flow without members says that there is no chain.
pub proof fn empty_chains_are_said_to_be_missing(
    p: Option<ProjectionView>,
    stop: bool,
    resume: Option<Resume>,
    width: int,
)
    ensures
        overview_view::chain_flow(Seq::empty(), p, stop, resume, width)[0].spans[0].text
            == "no fallback chain yet"@,
        chain_view::empty_pane()[0].spans[0].text == "chain is empty"@,
{
}

// ── an account's form ───────────────────────────────────────────────────────

/// The block above an account's rows says that it is disabled where it is, and of which type it
/// is: with an endpoint its provider, without one the account that is logged in.
pub proof fn heads_say_what_the_account_is(
    host: HostView,
    snap: SnapView,
    is_api: bool,
    now_ms: int,
    horizon_ms: int,
    width: int,
)
    requires
        snap.session_token is None,
    ensures
        ({
            let v = setup_view::head_block(host, snap, is_api, now_ms, horizon_ms, width);
            let at: int = if snap.flags.disabled {
                1
            } else {
                0
            };
            let named = if is_api {
                snap.provider
            } else {
                snap.account_email
            };
            &&& snap.flags.disabled ==> v[0].spans[2].text == "disabled"@
            &&& v[at].spans[1].text == (if is_api {
                "api"@
            } else {
                "oauth"@
            })
            &&& named is Some ==> v.len() == at + 3 && v[at + 1].spans[1].text == named->0
            &&& named is None ==> v.len() == at + 2
            &&& v.last() == paint::blank_of()
        }),
{
}

/// A token that has ended is charged; one that ends within thirty days warns of it, and one that
/// has longer says how long.
pub proof fn tokens_warn_before_they_end(
    host: HostView,
    end: i64,
    name: Seq<char>,
    now_ms: int,
    horizon_ms: int,
    width: int,
)
    ensures
        ({
            let v = setup_view::token_lines(
                host,
                SessionTokenStatus::LongLived(Some(end)),
                false,
                name,
                now_ms,
                horizon_ms,
                width,
            );
            let left = end - now_ms;
            let days = text::decimal((left / 86400000) as nat);
            &&& left <= 0 ==> v[0].spans[2].text == "expired"@ && v[0].spans[2].style.role
                == Role::Danger
            &&& 0 < left < 31 * 86400000 ==> v[0].spans[2].text == "expires in ~"@ + days + "d"@
                && v[0].spans[2].style.role == Role::Warning
            &&& 31 * 86400000 <= left ==> v[0].spans[1].text == "long-lived · ~"@ + days
                + "d left"@ && v[0].spans[1].style.role == Role::Accent
        }),
{
}

/// A token that is stamped anew says when; once it has ended, that it stalled.
pub proof fn rolling_tokens_say_when_they_are_stamped(
    host: HostView,
    end: i64,
    name: Seq<char>,
    now_ms: int,
    horizon_ms: int,
    width: int,
)
    ensures
        ({
            let v = setup_view::token_lines(
                host,
                SessionTokenStatus::LongLived(Some(end)),
                true,
                name,
                now_ms,
                horizon_ms,
                width,
            );
            let until = end - horizon_ms - now_ms;
            &&& now_ms >= end ==> v[0].spans[2].text == "rolling token stalled"@
            &&& now_ms < end && until < 3600000 ==> v[0].spans[1].text
                == "rolling · re-stamp due"@
            &&& now_ms < end && until >= 3600000 ==> v[0].spans[1].text
                == "rolling · re-stamps in ~"@ + text::decimal((until / 3600000) as nat) + "h"@
        }),
{
}

/// A sidecar that holds a rotating pair is said to be filled in wrongly.
pub proof fn rotating_pairs_are_no_tokens(
    host: HostView,
    rolling: bool,
    name: Seq<char>,
    now_ms: int,
    horizon_ms: int,
    width: int,
)
    ensures
        ({
            let v = setup_view::token_lines(
                host,
                SessionTokenStatus::NotLongLived,
                rolling,
                name,
                now_ms,
                horizon_ms,
                width,
            );
            v[0].spans[2].text == "mis-filled"@ && v[0].spans[2].style.role == Role::Danger
        }),
{
}

/// Whether the row at `j` of a form has the focus or is being edited.
pub open spec fn hot(scene: SetupSceneView, draft: Option<ConfigDraftView>, j: int) -> bool {
    (scene.focused && j == scene.cursor) || (draft is Some && (draft->0).active == Some(
        scene.rows[j],
    ))
}

/// A form holds each of its rows, in order, with what is typed into it; the row under the cursor
/// alone is selected. The last row with the focus is kept in view, and the text cursor stands
/// behind what is typed before it.
pub proof fn forms_hold_their_rows(
    host: HostView,
    glyphs: GlyphsView,
    scene: SetupSceneView,
    draft: Option<ConfigDraftView>,
    snap: SnapView,
    n: nat,
    i: int,
)
    requires
        0 <= i < n <= scene.rows.len(),
    ensures
        ({
            let v = setup_view::setup_pane(host, glyphs, scene, draft, snap, n);
            let above = setup_view::setup_pane(host, glyphs, scene, draft, snap, i as nat);
            let with = setup_view::setup_pane(host, glyphs, scene, draft, snap, (i + 1) as nat);
            let at = above.lines.len() as int;
            let row = scene.rows[i];
            let here = scene.focused && i == scene.cursor;
            let editing = draft is Some && (draft->0).active == Some(row);
            let value = setup_view::buffer_of(draft, snap, row);
            let shown = setup_view::config_line(
                glyphs,
                row,
                here,
                editing,
                scene.armed,
                snap,
                value,
            ).spans;
            &&& at < v.lines.len()
            &&& v.lines[at].spans.take(shown.len() as int) == shown
            &&& here ==> v.lines[at].selected
            &&& hot(scene, draft, i) && (forall|j: int| i < j < n ==> !hot(scene, draft, j))
                ==> v.from == at && v.to == with.lines.len()
            &&& editing && (forall|j: int| i < j < n ==> !hot(scene, draft, j)) ==> v.caret == Some(
                (
                    at,
                    text::min_int(
                        2 + setup_view::label_cells(row, snap) + value.before().len(),
                        usize::MAX as int,
                    ),
                ),
            )
        }),
    decreases n,
{
    let v = setup_view::setup_pane(host, glyphs, scene, draft, snap, n);
    let before = setup_view::setup_pane(host, glyphs, scene, draft, snap, (n - 1) as nat);
    let above = setup_view::setup_pane(host, glyphs, scene, draft, snap, i as nat);
    let at = above.lines.len() as int;
    if i < n - 1 {
        forms_hold_their_rows(host, glyphs, scene, draft, snap, (n - 1) as nat, i);
        assert(v.lines[at] == before.lines[at]);
        if forall|j: int| i < j < n ==> !hot(scene, draft, j) {
            assert(!hot(scene, draft, n - 1));
        }
    } else {
        let row = scene.rows[i];
        let here = scene.focused && i == scene.cursor;
        let editing = draft is Some && (draft->0).active == Some(row);
        let value = setup_view::buffer_of(draft, snap, row);
        let shown = setup_view::config_line(
            glyphs,
            row,
            here,
            editing,
            scene.armed,
            snap,
            value,
        ).spans;
        assert(v.lines[at].spans.take(shown.len() as int) =~= shown);
    }
}

// ── settings ────────────────────────────────────────────────────────────────

/// The settings are listed in their order, each as it stands or is typed; the text cursor stands
/// in the last one that is typed.
pub proof fn settings_hold_their_rows(
    host: HostView,
    glyphs: GlyphsView,
    scene: SettingsSceneView,
    edits: SettingsEditsView,
    n: nat,
    i: int,
)
    requires
        0 <= i < n <= settings::GLOBAL_ROW_COUNT,
        0 <= scene.cursor < settings::GLOBAL_ROW_COUNT,
    ensures
        ({
            let v = settings_view::settings_pane(host, glyphs, scene, edits, n);
            let above = settings_view::settings_pane(host, glyphs, scene, edits, i as nat);
            let at = above.lines.len() as int;
            let row = settings::global_row_at(i);
            let shown = settings_view::setting_line(
                glyphs,
                scene,
                row,
                i == scene.cursor,
                edits.field(row),
            );
            &&& at < v.lines.len()
            &&& v.lines[at].spans.take(shown.len() as int) == shown
            &&& edits.buffer(row) is None ==> (v.lines[at].selected <==> i == scene.cursor)
            &&& edits.buffer(row) is Some && (forall|j: int|
                i < j < n ==> edits.buffer(#[trigger] settings::global_row_at(j)) is None)
                ==> v.caret == Some(
                (
                    at,
                    text::min_int(
                        (edits.buffer(row)->0).before().len() as int + 21,
                        usize::MAX as int,
                    ),
                ),
            )
        }),
    decreases n,
{
    let v = settings_view::settings_pane(host, glyphs, scene, edits, n);
    let before = settings_view::settings_pane(host, glyphs, scene, edits, (n - 1) as nat);
    let above = settings_view::settings_pane(host, glyphs, scene, edits, i as nat);
    let at = above.lines.len() as int;
    if i < n - 1 {
        settings_hold_their_rows(host, glyphs, scene, edits, (n - 1) as nat, i);
        assert(v.lines[at] == before.lines[at]);
        if forall|j: int|
            i < j < n ==> edits.buffer(#[trigger] settings::global_row_at(j)) is None {
            assert(edits.buffer(settings::global_row_at(n - 1)) is None);
        }
    } else {
        let row = settings::global_row_at(i);
        let shown = settings_view::setting_line(
            glyphs,
            scene,
            row,
            i == scene.cursor,
            edits.field(row),
        );
        assert(v.lines[at].spans.take(shown.len() as int) =~= shown);
    }
}

/// A switch is explained as it stands, and one that does nothing yet says what it waits for.
pub proof fn switches_are_explained_as_they_stand(
    host: HostView,
    d: Option<DivergenceChoice>,
    t: ToggleState,
)
    ensures
        ({
            let says = |row: GlobalConfigRow| settings_view::setting_hint(host, row, d, t);
            &&& says(GlobalConfigRow::WrapOff) == Some(
                if t.switch_off_when_spent {
                    "once every account is spent, switch everything off until one recovers"@
                } else {
                    "once every account is spent, stay on the last one until one recovers"@
                },
            )
            &&& says(GlobalConfigRow::SpendBudget) == Some(
                if t.spend_budget {
                    "spent accounts may fall back to pay-as-you-go, up to each max auto-spend"@
                } else {
                    "never allow extra usage automatically; a spent chain parks or switches off"@
                },
            )
            &&& says(GlobalConfigRow::PreemptiveRotation) == Some(
                if t.preemptive {
                    "rotate the active account's login ahead of expiry (macos keychain)"@
                } else {
                    "rotate the active account's login only when a request rejects it"@
                },
            )
            &&& says(GlobalConfigRow::RefreshSpentAccounts) == Some(
                if t.refresh_spent {
                    "keep refreshing usage for spent (100%) accounts every interval"@
                } else {
                    "skip refreshing a spent account until its window resets"@
                },
            )
            &&& t.spend_budget ==> says(GlobalConfigRow::SwitchOffWhenBudgetSpent) == Some(
                if t.switch_off_when_budget_spent {
                    "once an account's extra usage runs out, switch everything off"@
                } else {
                    "once an account's extra usage runs out, stay on it and keep billing"@
                },
            )
            &&& !t.spend_budget ==> says(GlobalConfigRow::SwitchOffWhenBudgetSpent) == Some(
                "inert until extra usage is allowed; decides the halt once an account's extra usage runs out"@,
            )
            &&& !t.burn_aware ==> says(GlobalConfigRow::BurnFloor) == Some(
                "inert until rotate mode is burn-aware: the lowest usage % a projected switch may fire at"@,
            )
            &&& d == Some(DivergenceChoice::Discard) ==> says(GlobalConfigRow::DivergenceDefault)
                == Some("restore the previous credentials and drop the new login"@)
            &&& d == Some(DivergenceChoice::Overwrite) ==> says(GlobalConfigRow::DivergenceDefault)
                == Some("fold a new login into the active account, replacing its credentials"@)
            &&& d == Some(DivergenceChoice::NewProfile) ==> says(GlobalConfigRow::DivergenceDefault)
                == Some("pick which account to save a new login into, keeping the current one"@)
        }),
{
}

/// The options of the multiplexer are listed in order; the one under the cursor is kept in view,
/// and the text cursor stands in the one that is typed.
pub proof fn options_hold_their_rows(
    prose: Seq<LineView>,
    glyphs: GlyphsView,
    s: HerdrSceneView,
    n: nat,
    i: int,
)
    requires
        0 <= i < n <= s.rows.len(),
    ensures
        ({
            let v = plugin_view::herdr_rows(prose, glyphs, s, n);
            let at = plugin_view::herdr_rows(prose, glyphs, s, i as nat).lines.len() as int;
            let to = plugin_view::herdr_rows(
                prose,
                glyphs,
                s,
                (i + 1) as nat,
            ).lines.len() as int;
            let row = s.rows[i];
            let here = s.focused && i == s.cursor;
            let typed = row.option == HerdrOption::TagRefresh && s.editing is Some;
            let shown = plugin_view::option_spans(
                glyphs,
                row,
                s.settings,
                here,
                if typed {
                    Some((s.editing->0).0)
                } else {
                    None
                },
                row.option == HerdrOption::DelegateRowText && !s.writable,
            );
            &&& at < v.lines.len()
            &&& v.lines[at].spans.take(shown.len() as int) == shown
            &&& here ==> v.from == at && v.to == to
            &&& !typed ==> (v.lines[at].selected <==> here)
            &&& typed && (forall|j: int|
                i < j < n ==> (#[trigger] s.rows[j]).option != HerdrOption::TagRefresh)
                ==> v.caret == Some(
                (at, text::min_int(row.label.len() + 4 + (s.editing->0).1, usize::MAX as int)),
            )
        }),
    decreases n,
{
    let v = plugin_view::herdr_rows(prose, glyphs, s, n);
    let before = plugin_view::herdr_rows(prose, glyphs, s, (n - 1) as nat);
    let at = plugin_view::herdr_rows(prose, glyphs, s, i as nat).lines.len() as int;
    if i < n - 1 {
        options_hold_their_rows(prose, glyphs, s, (n - 1) as nat, i);
        assert(v.lines[at] == before.lines[at]);
        if forall|j: int| i < j < n ==> (#[trigger] s.rows[j]).option != HerdrOption::TagRefresh {
            assert(s.rows[n - 1].option != HerdrOption::TagRefresh);
        }
    } else {
        let row = s.rows[i];
        let here = s.focused && i == s.cursor;
        let typed = row.option == HerdrOption::TagRefresh && s.editing is Some;
        let shown = plugin_view::option_spans(
            glyphs,
            row,
            s.settings,
            here,
            if typed {
                Some((s.editing->0).0)
            } else {
                None
            },
            row.option == HerdrOption::DelegateRowText && !s.writable,
        );
        assert(v.lines[at].spans.take(shown.len() as int) =~= shown);
    }
}

// ── incidents ───────────────────────────────────────────────────────────────

/// An incident's head says its phase, its impact where it has one, its age, and how long it has
/// lasted: at the right edge where there is room, and below otherwise.
pub proof fn incidents_say_where_they_stand(i: IncidentView, age: Seq<char>, width: int)
    ensures
        ({
            let row = status_view::pill_row(i, age);
            let v = status_view::head_lines(i, age, width);
            let dur = status_view::lasting(i);
            &&& row[1].text == i.phase_word
            &&& row.last().text == "  "@ + age
            &&& i.impact != Impact::Nothing ==> row.len() == 7 && row[4].text == i.impact_word
            &&& i.impact == Impact::Nothing ==> row.len() == 4
            &&& v[0].spans.take(row.len() as int) == row
            &&& paint::chars_in(row) + dur.len() < width ==> v.len() == 1
                && v[0].spans.last().text == dur && paint::chars_in(v[0].spans) == width
            &&& paint::chars_in(row) + dur.len() >= width ==> v.len() == 2
                && v[1].spans[0].text == "  "@ + dur
        }),
{
    let row = status_view::pill_row(i, age);
    let v = status_view::head_lines(i, age, width);
    let dur = status_view::lasting(i);
    assert(v[0].spans.take(row.len() as int) =~= row);
    if paint::chars_in(row) + dur.len() < width {
        let all = v[0].spans;
        let gapped = all.drop_last();
        assert(gapped.drop_last() =~= row);
        assert(paint::chars_in(all) == paint::chars_in(gapped) + dur.len());
        assert(gapped.last().text.len() == width - paint::chars_in(row) - dur.len());
        assert(paint::chars_in(gapped) == paint::chars_in(row) + gapped.last().text.len());
    }
}

/// An incident's facts end with the heading of its updates; its components and its link are shown
/// where it has any.
pub proof fn incidents_give_their_facts(i: IncidentView, m: MomentsView, width: int)
    ensures
        ({
            let v = status_view::facts_block(i, m, width);
            let age = clock::age_text(i.started_ms as int, m.now_ms, m.started);
            let head = status_view::head_lines(i, age, width);
            let n = head.len() as int;
            let parts: int = if i.components.len() > 0 {
                1
            } else {
                0
            };
            let link: int = if i.link.len() > 0 {
                1
            } else {
                0
            };
            &&& v.len() == n + 3 + parts + link
            &&& v.take(n) == head
            &&& v[n].spans[1].text == clock::moment_text(m.started, true)
            &&& parts == 1 ==> v[n + 1] == status_view::components_row(i.components, width)
            &&& link == 1 ==> v[n + 1 + parts].spans[0].text == status_view::middle_clipped(
                i.link,
                width,
            )
            &&& v.last().spans[0].text == "TIMELINE"@
        }),
{
    let age = clock::age_text(i.started_ms as int, m.now_ms, m.started);
    let head = status_view::head_lines(i, age, width);
    let v = status_view::facts_block(i, m, width);
    assert(v.take(head.len() as int) =~= head);
}

/// The components that do not fit are counted: those shown and those counted are all of them, and
/// the first is always shown.
pub proof fn components_are_shown_or_counted(components: Seq<ComponentView>, width: int)
    requires
        components.len() > 0,
        13 < width,
    ensures
        ({
            let key = Seq::empty().push(status_view::key_of("components"@));
            let shown = status_view::fitting(key, components, 0, 0, width - 13).1;
            let v = status_view::components_row(components, width).spans;
            &&& 1 <= shown <= components.len()
            &&& v[2].text == " "@ + layout::lower(components[0].name)
            &&& shown < components.len() ==> v.last().text == "  +"@ + text::decimal(
                (components.len() - shown) as nat,
            )
            &&& shown == components.len() ==> v.len() == 3 * components.len()
        }),
{
    let key = Seq::empty().push(status_view::key_of("components"@));
    lemma_first_fits(key, components, width - 13);
}

proof fn lemma_fitting(
    v: Seq<SpanView>,
    components: Seq<ComponentView>,
    i: int,
    used: int,
    avail: int,
)
    requires
        0 <= i <= components.len(),
    ensures
        ({
            let (w, k) = status_view::fitting(v, components, i, used, avail);
            &&& i <= k <= components.len()
            &&& w.len() == v.len() + 3 * (k - i) - (if i == 0 && k > 0 {
                1int
            } else {
                0
            })
            &&& w.take(v.len() as int) == v
        }),
    decreases components.len() - i,
{
    let (w, k) = status_view::fitting(v, components, i, used, avail);
    if i < components.len() {
        let cells = status_view::entry_cells(components, i);
        if used + cells + status_view::reserved_cells(components.len() as int, i) > avail && i > 0 {
            assert(w.take(v.len() as int) =~= v);
        } else {
            let gapped = if i > 0 {
                v.push(paint::raw_of("  "@))
            } else {
                v
            };
            let next = gapped.push(
                paint::span_of(
                    "●"@,
                    paint::ink(status_view::component_hue(components[i].status)),
                ),
            ).push(
                paint::span_of(
                    " "@ + layout::lower(components[i].name),
                    paint::ink(Role::Body),
                ),
            );
            lemma_fitting(next, components, i + 1, used + cells, avail);
            assert(w.take(v.len() as int) =~= w.take(next.len() as int).take(v.len() as int));
            assert(next.take(v.len() as int) =~= v);
        }
    } else {
        assert(w.take(v.len() as int) =~= v);
    }
}

proof fn lemma_first_fits(v: Seq<SpanView>, components: Seq<ComponentView>, avail: int)
    requires
        components.len() > 0,
        v.len() == 1,
    ensures
        ({
            let (w, k) = status_view::fitting(v, components, 0, 0, avail);
            &&& 1 <= k <= components.len()
            &&& w.len() == 3 * k
            &&& w[2].text == " "@ + layout::lower(components[0].name)
        }),
{
    lemma_fitting(v, components, 0, 0, avail);
    let next = v.push(
        paint::span_of("●"@, paint::ink(status_view::component_hue(components[0].status))),
    ).push(
        paint::span_of(" "@ + layout::lower(components[0].name), paint::ink(Role::Body)),
    );
    let cells = status_view::entry_cells(components, 0);
    lemma_fitting(next, components, 1, cells, avail);
    let w = status_view::fitting(v, components, 0, 0, avail).0;
    assert(w == status_view::fitting(next, components, 1, cells, avail).0);
    assert(w[2] == w.take(3)[2]);
}

/// The column of the times is as wide as the widest needs, within its bounds.
pub proof fn time_columns_hold_their_times(m: MomentsView, i: int)
    requires
        0 <= i < m.updates.len(),
    ensures
        12 <= status_view::time_column(m) <= 18,
        status_view::time_column(m) == 18 || status_view::time_column(m) >= clock::moment_text(
            m.updates[i],
            false,
        ).len(),
{
    lemma_widest_time(m.updates, m.updates.len(), i);
}

proof fn lemma_widest_time(updates: Seq<Seq<char>>, n: nat, i: int)
    requires
        0 <= i < n <= updates.len(),
    ensures
        clock::moment_text(updates[i], false).len() <= status_view::widest_time(updates, n),
    decreases n,
{
    if i < n - 1 {
        lemma_widest_time(updates, (n - 1) as nat, i);
    }
}

/// A feed without incidents says whether fetching failed or nothing was fetched yet; otherwise at
/// least one incident is shown, and no more than there are.
pub proof fn empty_feeds_say_why(s: StatusStateView, ages: Seq<Seq<char>>, width: int, height: int)
    requires
        0 <= height,
    ensures
        s.incidents.len() == 0 ==> status_view::incident_list(
            s,
            ages,
            width,
            height,
        )[0].spans[0].text == (if s.error is Some {
            "fetch failed"@
        } else {
            "no status data yet"@
        }),
        s.incidents.len() > 0 ==> 1 <= status_view::items_shown(height, s.incidents.len() as int)
            <= s.incidents.len(),
        2 <= height ==> 2 * status_view::items_shown(height, s.incidents.len() as int) <= height
            + 1,
{
}

// ── usage ───────────────────────────────────────────────────────────────────

/// Usage that was not read is said to be loading.
pub proof fn unread_usage_is_loading(u: UsageFiguresView, width: int)
    ensures
        detail_view::usage_section(None, width).last().spans[0].text == "  loading…"@,
        detail_view::figure_lines(u, width).len() > 0 ==> detail_view::usage_section(
            Some(u),
            width,
        ).skip(2) == detail_view::figure_lines(u, width),
{
    if detail_view::figure_lines(u, width).len() > 0 {
        assert(detail_view::usage_section(Some(u), width).skip(2) =~= detail_view::figure_lines(
            u,
            width,
        ));
    }
}

/// What is spent stands before the limit, both in the account's currency.
pub proof fn money_is_given_in_its_currency(used: Seq<char>, limit: Seq<char>, c: Seq<char>)
    ensures
        detail_view::money_note(None, used, limit) == "  "@ + "$"@ + used + " / "@ + "$"@ + limit,
        detail_view::money_note(Some("USD"@), used, limit) == detail_view::money_note(
            None,
            used,
            limit,
        ),
        c != "USD"@ ==> detail_view::money_note(Some(c), used, limit) == "  "@ + c + used + " / "@
            + c + limit,
        detail_view::reset_note(Some(used)) == "  resets in "@ + used,
        detail_view::reset_note(None) == ""@,
{
}

// ── words ───────────────────────────────────────────────────────────────────

/// News of the updater tells an update that was installed from one that can be.
pub proof fn updates_are_told(version: Seq<char>)
    ensures
        events::update_message(true, version) == "updated to v"@ + version + "; restart to apply"@,
        events::update_message(false, version) == "update available: v"@ + version
            + "; run `cargo install clauth`"@,
{
}

/// An activity is named by its own word.
pub proof fn activities_are_named()
    ensures
        clock::activity_word(ProfileActivity::Fetching) == "fetching"@,
        clock::activity_word(ProfileActivity::Refreshing) == "refreshing"@,
        clock::activity_word(ProfileActivity::Switching) == "switching"@,
        clock::activity_word(ProfileActivity::Queued) == "queued"@,
        clock::activity_word(ProfileActivity::Idle) == "idle"@,
{
}

} // verus!
