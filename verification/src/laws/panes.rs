//! What the panes of the Setup, Config and Fallback tabs show.

use vstd::prelude::*;

use crate::chain_view;
use crate::chain_view::{MemberCardView, ReasonView};
use crate::forms::{ConfigDraftView, ConfigRow, FallbackRow, GlobalConfigRow};
use crate::input::InputView;
use crate::layout;
use crate::layout::{ChoiceView, GlyphsView};
use crate::model::{AppConfigView, DivergenceChoice, Tier};
use crate::paint::{LineView, Role, SpanView};
use crate::settings_view;
use crate::settings_view::SettingsSceneView;
use crate::setup_view;
use crate::setup_view::{OutsideFactsView, SnapView};
use crate::state::AppView;
use crate::text;

verus! {

// ── settings ────────────────────────────────────────────────────────────────

/// The choices of a row stand after its gutter and its key, each under its own name; the ones
/// that are current are drawn as such and the others are not.
proof fn lemma_choices(before: Seq<SpanView>, v: Seq<ChoiceView>, row_selected: bool, n: nat)
    requires
        n <= v.len(),
    ensures
        ({
            let out = layout::choices_spans(before, v, row_selected, n);
            &&& out.len() == before.len() + (if n == 0 {
                0
            } else {
                2 * n - 1
            })
            &&& forall|i: int| 0 <= i < before.len() ==> out[i] == before[i]
            &&& forall|k: int|
                0 <= k < n ==> out[before.len() + 2 * k] == layout::choice_span(
                    (#[trigger] v[k]).label,
                    v[k].active,
                    row_selected,
                )
        }),
    decreases n,
{
    if n > 0 {
        lemma_choices(before, v, row_selected, (n - 1) as nat);
        let rest = layout::choices_spans(before, v, row_selected, (n - 1) as nat);
        let out = layout::choices_spans(before, v, row_selected, n);
        assert forall|k: int| 0 <= k < n implies out[before.len() + 2 * k] == layout::choice_span(
            (#[trigger] v[k]).label,
            v[k].active,
            row_selected,
        ) by {
            if k < n - 1 {
                assert(rest[before.len() + 2 * k] == out[before.len() + 2 * k]);
            }
        }
    }
}

/// A row of two choices: the first marked where `second` does not hold, the second where it does.
pub open spec fn offers(
    v: Seq<SpanView>,
    first: Seq<char>,
    other: Seq<char>,
    second: bool,
    selected: bool,
) -> bool {
    &&& v.len() == 5
    &&& shows_choice(v[2], first, !second, selected)
    &&& shows_choice(v[4], other, second, selected)
}

/// A choice under its name: in force it stands out, and in brackets while its row has the cursor.
pub open spec fn shows_choice(v: SpanView, label: Seq<char>, current: bool, selected: bool) -> bool {
    &&& v.text == (if current && selected {
        "["@ + label + "]"@
    } else {
        label
    })
    &&& v.style.role == (if current {
        Role::Accent
    } else {
        Role::Faint
    })
}

proof fn lemma_pair(arrow: SpanView, key: Seq<char>, a: Seq<char>, b: Seq<char>, second: bool, selected: bool)
    ensures
        offers(
            settings_view::cycle_line(arrow, key, settings_view::pair(a, b, second), selected),
            a,
            b,
            second,
            selected,
        ),
{
    let v = settings_view::pair(a, b, second);
    let head = settings_view::setting_head(arrow, key, selected);
    lemma_choices(head, v, selected, v.len());
    let out = settings_view::cycle_line(arrow, key, v, selected);
    assert(v[0].label == a && v[1].label == b);
    let n = head.len() as int;
    assert(out[n] == layout::choice_span(v[0].label, v[0].active, selected));
    assert(out[n + 2] == layout::choice_span(v[1].label, v[1].active, selected));
}

/// A settings row marks the choice that is in force, by its own setting and no other.
pub proof fn setting_rows_mark_what_is_in_force(
    glyphs: GlyphsView,
    scene: SettingsSceneView,
    selected: bool,
)
    ensures
        ({
            let line = |row: GlobalConfigRow|
                settings_view::setting_line(glyphs, scene, row, selected, None);
            let t = scene.toggles;
            &&& offers(
                line(GlobalConfigRow::Theme),
                "full"@,
                "compatible"@,
                scene.tier == Tier::Compatible,
                selected,
            )
            &&& offers(
                line(GlobalConfigRow::WrapOff),
                "stay on last"@,
                "switch off all"@,
                t.switch_off_when_spent,
                selected,
            )
            &&& offers(
                line(GlobalConfigRow::BurnAware),
                "static"@,
                "burn-aware"@,
                t.burn_aware,
                selected,
            )
            &&& offers(
                line(GlobalConfigRow::SpendBudget),
                "off"@,
                "pay-as-you-go"@,
                t.spend_budget,
                selected,
            )
            &&& offers(
                line(GlobalConfigRow::PreemptiveRotation),
                "lazy"@,
                "preemptive"@,
                t.preemptive,
                selected,
            )
            &&& t.spend_budget ==> offers(
                line(GlobalConfigRow::SwitchOffWhenBudgetSpent),
                "stay on last"@,
                "switch off all"@,
                t.switch_off_when_budget_spent,
                selected,
            )
            &&& line(GlobalConfigRow::RefreshSpentAccounts)[2].text == (if t.refresh_spent {
                glyphs.on
            } else {
                glyphs.off
            })
        }),
{
    let arrow = settings_view::setting_gutter(glyphs, false, selected);
    let t = scene.toggles;
    lemma_pair(
        arrow,
        "theme"@,
        "full"@,
        "compatible"@,
        scene.tier == Tier::Compatible,
        selected,
    );
    lemma_pair(
        arrow,
        "quota spent"@,
        "stay on last"@,
        "switch off all"@,
        t.switch_off_when_spent,
        selected,
    );
    lemma_pair(arrow, "rotate mode"@, "static"@, "burn-aware"@, t.burn_aware, selected);
    lemma_pair(
        arrow,
        "allow extra usage"@,
        "off"@,
        "pay-as-you-go"@,
        t.spend_budget,
        selected,
    );
    lemma_pair(arrow, "rotation"@, "lazy"@, "preemptive"@, t.preemptive, selected);
    lemma_pair(
        arrow,
        "extra usage spent"@,
        "stay on last"@,
        "switch off all"@,
        t.switch_off_when_budget_spent,
        selected,
    );
}

/// Of the choices for a login that does not match exactly the configured one is current, and
/// asking is where none is configured.
pub proof fn one_mismatch_choice_is_current(d: Option<DivergenceChoice>)
    ensures
        ({
            let v = settings_view::divergence_choices(d);
            &&& v.len() == 4
            &&& v[0].label == "ask"@ && (v[0].active <==> d is None)
            &&& v[1].label == "overwrite"@ && (v[1].active <==> d == Some(
                DivergenceChoice::Overwrite,
            ))
            &&& v[2].label == "new"@ && (v[2].active <==> d == Some(DivergenceChoice::NewProfile))
            &&& v[3].label == "discard"@ && (v[3].active <==> d == Some(DivergenceChoice::Discard))
        }),
{
}

// ── accounts ────────────────────────────────────────────────────────────────

/// The Setup pane shows the account under the cursor: each row the text of its own field.
pub proof fn setup_rows_show_their_field(s: AppView, facts: OutsideFactsView, k: usize)
    requires
        s.ui.profile_cursor < s.config.profiles.len(),
    ensures
        ({
            let p = s.config.profiles[s.ui.profile_cursor as int];
            let v = s.snap(facts, true);
            &&& v.title == p.name
            &&& v.value(ConfigRow::Name) == p.name
            &&& p.base_url is Some ==> v.value(ConfigRow::BaseUrl) == p.base_url->0
            &&& p.api_key is Some ==> v.value(ConfigRow::ApiKey) == p.api_key->0
            &&& p.models.default is Some ==> v.value(ConfigRow::Model) == p.models.default->0
            &&& p.models.opus is Some ==> v.value(ConfigRow::OpusModel) == p.models.opus->0
            &&& p.models.sonnet is Some ==> v.value(ConfigRow::SonnetModel) == p.models.sonnet->0
            &&& p.models.haiku is Some ==> v.value(ConfigRow::HaikuModel) == p.models.haiku->0
            &&& p.models.subagent is Some ==> v.value(ConfigRow::SubagentModel)
                == p.models.subagent->0
            &&& k < p.env.len() ==> v.value(ConfigRow::EnvEntry(k)) == p.env[k as int].value
                && v.env_key(k) == p.env[k as int].key
            &&& v.flags.auto_start == p.auto_start
            &&& v.flags.is_active == (s.config.state.active_profile == Some(p.name))
        }),
{
}

/// An account is shown as logged in by what it logs in with: the console session, the stored pair,
/// or a key that is not blank.
pub proof fn logged_in_means_a_stored_login(s: AppView, facts: OutsideFactsView)
    requires
        s.ui.profile_cursor < s.config.profiles.len(),
    ensures
        ({
            let p = s.config.profiles[s.ui.profile_cursor as int];
            let f = s.snap(facts, true).flags;
            &&& facts.flags.console_login ==> f.logged_in == facts.flags.console_stored
            &&& !facts.flags.console_login && p.facts.login_is_oauth ==> f.logged_in
                == p.facts.has_credentials
            &&& !facts.flags.console_login && !p.facts.login_is_oauth ==> (f.logged_in
                <==> p.api_key is Some && text::trim(p.api_key->0).len() > 0)
        }),
{
}

/// While a field is typed its buffer is shown, and the stored text otherwise.
pub proof fn drafts_are_shown_over_stored_values(
    d: ConfigDraftView,
    snap: SnapView,
    row: ConfigRow,
)
    ensures
        d.field(row) is Some ==> setup_view::buffer_of(Some(d), snap, row) == d.field(row)->0,
        d.field(row) is None ==> setup_view::buffer_of(Some(d), snap, row).text == snap.value(row),
        setup_view::buffer_of(None, snap, row).text == snap.value(row),
{
}

/// The rows of a stored login say which way it stands: done where a login was captured, again
/// where there is one, and first where there is none.
pub proof fn login_rows_say_where_it_stands(
    glyphs: GlyphsView,
    selected: bool,
    armed: Option<ConfigRow>,
    snap: SnapView,
    value: InputView,
)
    ensures
        ({
            let line = |row: ConfigRow|
                setup_view::config_line(glyphs, row, selected, false, armed, snap, value).spans;
            &&& line(ConfigRow::Login)[1].text == (if snap.flags.captured {
                "✓ logged in"@
            } else if snap.flags.logged_in {
                "re-login"@
            } else {
                "+ login"@
            })
            &&& line(ConfigRow::Delete)[1].text == (if armed == Some(ConfigRow::Delete) {
                "press again to delete"@
            } else {
                "delete account"@
            })
            &&& line(ConfigRow::AutoStart)[2].text == (if snap.flags.auto_start {
                glyphs.on
            } else {
                glyphs.off
            })
        }),
{
}

/// A field that may be shown shows its text, and a dash where it is empty.
pub proof fn open_fields_show_their_text(
    glyphs: GlyphsView,
    row: ConfigRow,
    selected: bool,
    editing: bool,
    armed: Option<ConfigRow>,
    snap: SnapView,
    value: InputView,
)
    requires
        row == ConfigRow::Name || row == ConfigRow::BaseUrl || row == ConfigRow::OpusModel || row
            == ConfigRow::SonnetModel || row == ConfigRow::HaikuModel || row
            == ConfigRow::SubagentModel,
    ensures
        ({
            let v = setup_view::config_line(
                glyphs,
                row,
                selected,
                editing,
                armed,
                snap,
                value,
            ).spans;
            &&& v.len() == 3
            &&& editing || value.text.len() > 0 ==> v[2].text == value.text
            &&& !editing && value.text.len() == 0 ==> v[2].text == "—"@
        }),
{
}

// ── the chain ───────────────────────────────────────────────────────────────

/// The chain list shows every member on its own row, in order, under its number, and what keeps
/// it from serving at the end of its row.
pub proof fn chain_rows_show_their_member(
    cfg: AppConfigView,
    disabled: Seq<bool>,
    reasons: Seq<Option<ReasonView>>,
    sel: int,
    focused: bool,
    width: int,
    n: nat,
    i: int,
)
    requires
        0 <= i < n <= cfg.chain_items().len(),
        i < cfg.state.fallback_chain.len(),
        i != sel,
    ensures
        ({
            let v = chain_view::chain_list(cfg, disabled, reasons, sel, focused, width, n);
            &&& v.len() == n
            &&& v[i].spans[0].text == "  "@ + chain_view::ordinal(i) + " "@
            &&& v[i].spans[1].text == cfg.state.fallback_chain[i]
            &&& reasons[i] is Some ==> v[i].spans.last() == chain_view::mark_of(reasons[i]->0)
            &&& reasons[i] is None ==> v[i].spans.len() == 2
        }),
    decreases n,
{
    if n > 1 && i < n - 1 {
        chain_rows_show_their_member(
            cfg,
            disabled,
            reasons,
            sel,
            focused,
            width,
            (n - 1) as nat,
            i,
        );
    } else {
        lemma_chain_list_len(cfg, disabled, reasons, sel, focused, width, (n - 1) as nat);
        assert(cfg.chain_items()[i] is Member);
    }
}

proof fn lemma_chain_list_len(
    cfg: AppConfigView,
    disabled: Seq<bool>,
    reasons: Seq<Option<ReasonView>>,
    sel: int,
    focused: bool,
    width: int,
    n: nat,
)
    ensures
        chain_view::chain_list(cfg, disabled, reasons, sel, focused, width, n).len() == n,
    decreases n,
{
    if n > 0 {
        lemma_chain_list_len(cfg, disabled, reasons, sel, focused, width, (n - 1) as nat);
    }
}

/// The list of candidates shows every name on its own row, in order; the caret stands before the
/// one under the cursor alone.
pub proof fn candidate_rows_show_their_name(
    before: Seq<LineView>,
    names: Seq<Seq<char>>,
    cursor: int,
    width: int,
    n: nat,
    i: int,
)
    requires
        0 <= i < n <= names.len(),
        0 <= cursor < names.len(),
    ensures
        ({
            let v = chain_view::candidate_rows(before, names, cursor, width, n);
            let row = v[before.len() + i];
            &&& v.len() == before.len() + n
            &&& row.spans[1].text == names[i]
            &&& row.spans[0] == layout::caret_span(i == cursor)
            &&& row.selected <==> i == cursor
        }),
    decreases n,
{
    lemma_candidate_rows(before, names, cursor, width, (n - 1) as nat);
    if i < n - 1 {
        candidate_rows_show_their_name(before, names, cursor, width, (n - 1) as nat, i);
    }
}

proof fn lemma_candidate_rows(
    before: Seq<LineView>,
    names: Seq<Seq<char>>,
    cursor: int,
    width: int,
    n: nat,
)
    ensures
        chain_view::candidate_rows(before, names, cursor, width, n).len() == before.len() + n,
    decreases n,
{
    if n > 0 {
        lemma_candidate_rows(before, names, cursor, width, (n - 1) as nat);
    }
}

/// A member's rows say what they are: its threshold, whether it is the last resort, and whether
/// its removal is armed.
pub proof fn member_cards_show_their_member(
    glyphs: GlyphsView,
    card: MemberCardView,
    selected: bool,
)
    ensures
        ({
            let line = |row: FallbackRow| chain_view::card_line(glyphs, card, row, selected).spans;
            &&& card.threshold_edit is None ==> line(FallbackRow::Threshold)[2].text
                == card.threshold + "%"@
            &&& card.threshold_edit is Some ==> line(FallbackRow::Threshold)[2]
                == layout::typed_span(card.threshold_edit->0)
            &&& line(FallbackRow::LastResort)[2].text == (if card.flags.last_resort {
                glyphs.on
            } else {
                glyphs.off
            })
            &&& line(FallbackRow::Remove)[2].text == (if card.flags.armed_remove {
                "press again to remove"@
            } else {
                "remove from chain"@
            })
        }),
{
}

/// The gauge of a member has its filled cells before its empty ones, and the tick in its place.
pub proof fn gauges_fill_from_the_left(
    before: Seq<SpanView>,
    filled: int,
    tick: int,
    heat: Role,
    n: nat,
    i: int,
)
    requires
        0 <= i < n,
    ensures
        ({
            let v = chain_view::gauge_row(before, filled, tick, heat, n);
            &&& v.len() == before.len() + n
            &&& v[before.len() + i].text == (if i == tick {
                "│"@
            } else if i < filled {
                "█"@
            } else {
                "░"@
            })
        }),
    decreases n,
{
    lemma_gauge_len(before, filled, tick, heat, (n - 1) as nat);
    if i < n - 1 {
        gauges_fill_from_the_left(before, filled, tick, heat, (n - 1) as nat, i);
    }
}

proof fn lemma_gauge_len(
    before: Seq<SpanView>,
    filled: int,
    tick: int,
    heat: Role,
    n: nat,
)
    ensures
        chain_view::gauge_row(before, filled, tick, heat, n).len() == before.len() + n,
    decreases n,
{
    if n > 0 {
        lemma_gauge_len(before, filled, tick, heat, (n - 1) as nat);
    }
}

/// The hint of a member that is not the last resort names the account that is, where there is
/// one.
pub proof fn resort_hints_name_the_other(cfg: AppConfigView, name: Seq<char>)
    ensures
        ({
            let other = chain_view::other_last_resort(cfg.profiles, name, cfg.profiles.len());
            match other {
                Some(m) => {
                    &&& m != name
                    &&& exists|i: int|
                        0 <= i < cfg.profiles.len() && (#[trigger] cfg.profiles[i]).name == m
                            && cfg.profiles[i].last_resort
                },
                None => forall|i: int|
                    0 <= i < cfg.profiles.len() && (#[trigger] cfg.profiles[i]).name != name
                        ==> !cfg.profiles[i].last_resort,
            }
        }),
{
    lemma_other(cfg, name, cfg.profiles.len());
}

proof fn lemma_other(cfg: AppConfigView, name: Seq<char>, n: nat)
    requires
        n <= cfg.profiles.len(),
    ensures
        match chain_view::other_last_resort(cfg.profiles, name, n) {
            Some(m) => {
                &&& m != name
                &&& exists|i: int|
                    0 <= i < n && (#[trigger] cfg.profiles[i]).name == m
                        && cfg.profiles[i].last_resort
            },
            None => forall|i: int|
                0 <= i < n && (#[trigger] cfg.profiles[i]).name != name
                    ==> !cfg.profiles[i].last_resort,
        },
    decreases n,
{
    if n > 0 {
        lemma_other(cfg, name, (n - 1) as nat);
        match chain_view::other_last_resort(cfg.profiles, name, (n - 1) as nat) {
            Some(m) => {
                let i = choose|i: int|
                    0 <= i < n - 1 && (#[trigger] cfg.profiles[i]).name == m
                        && cfg.profiles[i].last_resort;
                assert(cfg.profiles[i].name == m);
            },
            None => {
                if cfg.profiles[n - 1].last_resort && cfg.profiles[n - 1].name != name {
                    assert(cfg.profiles[n - 1].name == cfg.profiles[n - 1].name);
                }
            },
        }
    }
}

} // verus!
