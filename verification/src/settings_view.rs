//! The Config tab on screen: one row per program-wide setting.

use vstd::prelude::*;

use crate::forms::GlobalConfigRow;
use crate::host::{Host, HostView};
use crate::input::{InputState, InputView};
use crate::layout;
use crate::layout::{Choice, ChoiceView, FieldEdit, FieldEditView, Glyphs, GlyphsView};
use crate::model::{DivergenceChoice, Tier};
use crate::paint;
use crate::paint::{Line, Role, Span, SpanView};
use crate::settings;
use crate::setup_view::{Pane, PaneView};
use crate::text;

verus! {

/// Width of the key column.
pub const KEY_W: usize = 17;

/// Blanks between the key column and the values.
pub const KEY_GUTTER: usize = 2;

/// The settings that are on or off.
#[derive(Clone, Copy, Debug, PartialEq, Eq, Structural)]
pub struct ToggleState {
    pub switch_off_when_spent: bool,
    pub burn_aware: bool,
    pub spend_budget: bool,
    pub switch_off_when_budget_spent: bool,
    pub preemptive: bool,
    pub refresh_spent: bool,
}

/// A setting with presets; a value that is none of them is named after them.
#[derive(Debug)]
pub struct Presets {
    pub choices: Vec<Choice>,
    pub custom: Option<String>,
}

/// What [`Presets`] holds.
pub struct PresetsView {
    pub choices: Seq<ChoiceView>,
    pub custom: Option<Seq<char>>,
}

impl View for Presets {
    type V = PresetsView;

    open spec fn view(&self) -> PresetsView {
        PresetsView {
            choices: layout::choice_views(self.choices@),
            custom: text::opt_view(self.custom),
        }
    }
}

/// The values the Config tab shows.
#[derive(Debug)]
pub struct SettingsScene {
    pub toggles: ToggleState,
    pub tier: Tier,
    pub divergence: Option<DivergenceChoice>,
    pub refresh_ms: u64,
    pub weekly: Presets,
    pub burn_floor: Presets,
    pub burn_horizon: Presets,
    pub nudge: Presets,
    pub cursor: usize,
    pub width: usize,
}

/// What a [`SettingsScene`] holds.
pub struct SettingsSceneView {
    pub toggles: ToggleState,
    pub tier: Tier,
    pub divergence: Option<DivergenceChoice>,
    pub refresh_ms: u64,
    pub weekly: PresetsView,
    pub burn_floor: PresetsView,
    pub burn_horizon: PresetsView,
    pub nudge: PresetsView,
    pub cursor: int,
    pub width: int,
}

impl View for SettingsScene {
    type V = SettingsSceneView;

    open spec fn view(&self) -> SettingsSceneView {
        SettingsSceneView {
            toggles: self.toggles,
            tier: self.tier,
            divergence: self.divergence,
            refresh_ms: self.refresh_ms,
            weekly: self.weekly@,
            burn_floor: self.burn_floor@,
            burn_horizon: self.burn_horizon@,
            nudge: self.nudge@,
            cursor: self.cursor as int,
            width: self.width as int,
        }
    }
}

/// Help for the rows whose value does not explain itself, worded for that value.
pub open spec fn setting_hint(
    host: HostView,
    row: GlobalConfigRow,
    divergence: Option<DivergenceChoice>,
    t: ToggleState,
) -> Option<Seq<char>> {
    match row {
        GlobalConfigRow::Theme => None,
        GlobalConfigRow::ContextNudge => None,
        GlobalConfigRow::DivergenceDefault => Some(
            match divergence {
                None => "ask what to do when "@ + layout::lower(host.product)
                    + " signs in over the active account"@,
                Some(DivergenceChoice::Overwrite) =>
                    "fold a new login into the active account, replacing its credentials"@,
                Some(DivergenceChoice::NewProfile) =>
                    "pick which account to save a new login into, keeping the current one"@,
                Some(DivergenceChoice::Discard) =>
                    "restore the previous credentials and drop the new login"@,
            },
        ),
        GlobalConfigRow::RefreshInterval => Some(
            "how often usage is refreshed for every account (default 90s)"@,
        ),
        GlobalConfigRow::WeeklyThreshold => Some(
            "soft switch-early line on the 7d window (default 98%): a member past it is handed off but still serves; 100% = only at the hard cap"@,
        ),
        GlobalConfigRow::WrapOff => Some(
            if t.switch_off_when_spent {
                "once every account is spent, switch everything off until one recovers"@
            } else {
                "once every account is spent, stay on the last one until one recovers"@
            },
        ),
        GlobalConfigRow::BurnAware => Some(
            if t.burn_aware {
                "switch the active account away once its burn rate projects 100% before the next refresh"@
            } else {
                "switch the active account away once its usage crosses its threshold"@
            },
        ),
        GlobalConfigRow::BurnFloor => Some(
            if !t.burn_aware {
                "inert until rotate mode is burn-aware: the lowest usage % a projected switch may fire at"@
            } else {
                "burn-aware never switches below this %, so it can't waste more than 100 minus it (default 98)"@
            },
        ),
        GlobalConfigRow::BurnHorizon => Some(
            if !t.burn_aware {
                "inert until rotate mode is burn-aware: how far ahead the burn projection looks"@
            } else {
                "project burn at most this far ahead (also capped by refresh); shorter switches nearer 100 (default 60s)"@
            },
        ),
        GlobalConfigRow::SpendBudget => Some(
            if t.spend_budget {
                "spent accounts may fall back to pay-as-you-go, up to each max auto-spend"@
            } else {
                "never allow extra usage automatically; a spent chain parks or switches off"@
            },
        ),
        GlobalConfigRow::SwitchOffWhenBudgetSpent => Some(
            if !t.spend_budget {
                "inert until extra usage is allowed; decides the halt once an account's extra usage runs out"@
            } else if t.switch_off_when_budget_spent {
                "once an account's extra usage runs out, switch everything off"@
            } else {
                "once an account's extra usage runs out, stay on it and keep billing"@
            },
        ),
        GlobalConfigRow::PreemptiveRotation => Some(
            if t.preemptive {
                "rotate the active account's login ahead of expiry (macos keychain)"@
            } else {
                "rotate the active account's login only when a request rejects it"@
            },
        ),
        GlobalConfigRow::RefreshSpentAccounts => Some(
            if t.refresh_spent {
                "keep refreshing usage for spent (100%) accounts every interval"@
            } else {
                "skip refreshing a spent account until its window resets"@
            },
        ),
    }
}

/// Help for the rows whose value does not explain itself.
pub fn row_hint(
    host: &Host,
    row: GlobalConfigRow,
    divergence: Option<DivergenceChoice>,
    t: ToggleState,
) -> (r: Option<String>)
    ensures
        text::opt_view(r) == setting_hint(host@, row, divergence, t),
{
    let tip: &str = match row {
        GlobalConfigRow::Theme | GlobalConfigRow::ContextNudge => return None,
        GlobalConfigRow::DivergenceDefault => match divergence {
            None => return Some(
                text::joined3(
                    "ask what to do when ",
                    &layout::lowercase(&host.product),
                    " signs in over the active account",
                ),
            ),
            Some(DivergenceChoice::Overwrite) =>
                "fold a new login into the active account, replacing its credentials",
            Some(DivergenceChoice::NewProfile) =>
                "pick which account to save a new login into, keeping the current one",
            Some(DivergenceChoice::Discard) =>
                "restore the previous credentials and drop the new login",
        },
        GlobalConfigRow::RefreshInterval =>
            "how often usage is refreshed for every account (default 90s)",
        GlobalConfigRow::WeeklyThreshold =>
            "soft switch-early line on the 7d window (default 98%): a member past it is handed off but still serves; 100% = only at the hard cap",
        GlobalConfigRow::WrapOff => if t.switch_off_when_spent {
            "once every account is spent, switch everything off until one recovers"
        } else {
            "once every account is spent, stay on the last one until one recovers"
        },
        GlobalConfigRow::BurnAware => if t.burn_aware {
            "switch the active account away once its burn rate projects 100% before the next refresh"
        } else {
            "switch the active account away once its usage crosses its threshold"
        },
        GlobalConfigRow::BurnFloor => if !t.burn_aware {
            "inert until rotate mode is burn-aware: the lowest usage % a projected switch may fire at"
        } else {
            "burn-aware never switches below this %, so it can't waste more than 100 minus it (default 98)"
        },
        GlobalConfigRow::BurnHorizon => if !t.burn_aware {
            "inert until rotate mode is burn-aware: how far ahead the burn projection looks"
        } else {
            "project burn at most this far ahead (also capped by refresh); shorter switches nearer 100 (default 60s)"
        },
        GlobalConfigRow::SpendBudget => if t.spend_budget {
            "spent accounts may fall back to pay-as-you-go, up to each max auto-spend"
        } else {
            "never allow extra usage automatically; a spent chain parks or switches off"
        },
        GlobalConfigRow::SwitchOffWhenBudgetSpent => if !t.spend_budget {
            "inert until extra usage is allowed; decides the halt once an account's extra usage runs out"
        } else if t.switch_off_when_budget_spent {
            "once an account's extra usage runs out, switch everything off"
        } else {
            "once an account's extra usage runs out, stay on it and keep billing"
        },
        GlobalConfigRow::PreemptiveRotation => if t.preemptive {
            "rotate the active account's login ahead of expiry (macos keychain)"
        } else {
            "rotate the active account's login only when a request rejects it"
        },
        GlobalConfigRow::RefreshSpentAccounts => if t.refresh_spent {
            "keep refreshing usage for spent (100%) accounts every interval"
        } else {
            "skip refreshing a spent account until its window resets"
        },
    };
    Some(tip.to_string())
}

/// The leading cells of a settings row.
pub open spec fn setting_gutter(glyphs: GlyphsView, editing: bool, selected: bool) -> SpanView {
    if editing {
        paint::span_of(glyphs.edit + " "@, paint::ink(Role::Accent))
    } else if selected {
        paint::span_of("❯ "@, paint::ink(Role::Accent))
    } else {
        paint::raw_of("  "@)
    }
}

fn gutter(glyphs: &Glyphs, editing: bool, selected: bool) -> (r: Span)
    ensures
        r@ == setting_gutter(glyphs@, editing, selected),
{
    if editing {
        let t = text::joined(&glyphs.edit, " ");
        paint::span(&t, paint::ink(Role::Accent))
    } else if selected {
        paint::span("❯ ", paint::ink(Role::Accent))
    } else {
        paint::span("  ", paint::ink(Role::Plain))
    }
}

/// The head of a settings row.
pub open spec fn setting_head(arrow: SpanView, key: Seq<char>, selected: bool) -> Seq<SpanView> {
    Seq::empty().push(arrow).push(
        paint::span_of(
            layout::key_text(key, KEY_W as nat, KEY_GUTTER as nat),
            layout::label_style(selected),
        ),
    )
}

fn head(arrow: Span, key: &str, selected: bool) -> (r: Vec<Span>)
    ensures
        paint::spans_view(r@) == setting_head(arrow@, key@, selected),
{
    let mut v = paint::no_spans();
    paint::put_span(&mut v, arrow);
    let k = layout::key_cell(key, KEY_W, KEY_GUTTER);
    paint::put(&mut v, &k, layout::label_style(selected));
    v
}

/// A row of choices.
pub open spec fn cycle_line(
    arrow: SpanView,
    key: Seq<char>,
    options: Seq<ChoiceView>,
    selected: bool,
) -> Seq<SpanView> {
    layout::choices_spans(setting_head(arrow, key, selected), options, selected, options.len())
}

/// A row of choices.
pub fn cycle_row(arrow: Span, key: &str, options: &Vec<Choice>, selected: bool) -> (r: Vec<Span>)
    ensures
        paint::spans_view(r@) == cycle_line(
            arrow@,
            key@,
            layout::choice_views(options@),
            selected,
        ),
{
    let mut v = head(arrow, key, selected);
    assert(layout::choice_views(options@).len() == options@.len());
    layout::put_choices(&mut v, options, selected);
    v
}

/// The label of the first current choice among the first `n`.
pub open spec fn current_label(options: Seq<ChoiceView>, n: nat) -> Option<Seq<char>>
    decreases n,
{
    if n == 0 {
        None
    } else {
        match current_label(options, (n - 1) as nat) {
            Some(l) => Some(l),
            None => if options[n - 1].active {
                Some(options[n - 1].label)
            } else {
                None
            },
        }
    }
}

/// A row of choices that cannot be acted on: only the current one, faint.
pub open spec fn dimmed_line(key: Seq<char>, options: Seq<ChoiceView>, selected: bool) -> Seq<
    SpanView,
> {
    let faint = paint::ink(Role::Faint);
    Seq::empty().push(layout::inert_caret(selected)).push(
        paint::span_of(layout::key_text(key, KEY_W as nat, KEY_GUTTER as nat), faint),
    ).push(
        paint::span_of(
            match current_label(options, options.len()) {
                Some(l) => l,
                None => ""@,
            },
            faint,
        ),
    )
}

/// A row of choices that cannot be acted on.
pub fn dimmed_cycle_row(key: &str, options: &Vec<Choice>, selected: bool) -> (r: Vec<Span>)
    ensures
        paint::spans_view(r@) == dimmed_line(key@, layout::choice_views(options@), selected),
{
    let faint = paint::ink(Role::Faint);
    let ghost all = layout::choice_views(options@);
    let mut found: Option<usize> = None;
    let mut i: usize = 0;
    while i < options.len()
        invariant
            i <= options@.len(),
            all == layout::choice_views(options@),
            match found {
                Some(k) => k < i && current_label(all, i as nat) == Some(
                    options@[k as int].label@,
                ),
                None => current_label(all, i as nat) is None,
            },
        decreases options@.len() - i,
    {
        assert(all[i as int] == options@[i as int]@);
        if found.is_none() && options[i].active {
            found = Some(i);
        }
        i = i + 1;
    }
    assert(all.len() == options@.len());
    let mut v = paint::no_spans();
    paint::put_span(&mut v, layout::faint_caret(selected));
    let k = layout::key_cell(key, KEY_W, KEY_GUTTER);
    paint::put(&mut v, &k, faint);
    match found {
        Some(k) => {
            paint::put(&mut v, &options[k].label, faint);
        },
        None => {
            paint::put(&mut v, "", faint);
        },
    }
    v
}

/// A switch.
pub open spec fn toggle_line(
    glyphs: GlyphsView,
    arrow: SpanView,
    key: Seq<char>,
    on: bool,
    selected: bool,
) -> Seq<SpanView> {
    setting_head(arrow, key, selected).push(
        if on {
            paint::span_of(glyphs.on, paint::ink(Role::Accent))
        } else {
            paint::span_of(glyphs.off, paint::ink(Role::Faint))
        },
    )
}

/// A switch.
pub fn toggle_row(glyphs: &Glyphs, arrow: Span, key: &str, on: bool, selected: bool) -> (r: Vec<
    Span,
>)
    ensures
        paint::spans_view(r@) == toggle_line(glyphs@, arrow@, key@, on, selected),
{
    let mut v = head(arrow, key, selected);
    if on {
        paint::put(&mut v, &glyphs.on, paint::ink(Role::Accent));
    } else {
        paint::put(&mut v, &glyphs.off, paint::ink(Role::Faint));
    }
    v
}

/// A row of presets, with a custom value after them.
pub open spec fn preset_line(
    arrow: SpanView,
    key: Seq<char>,
    presets: PresetsView,
    selected: bool,
) -> Seq<SpanView> {
    let row = cycle_line(arrow, key, presets.choices, selected);
    match presets.custom {
        Some(c) => row.push(paint::span_of("  "@ + c, paint::ink(Role::Accent))),
        None => row,
    }
}

fn preset_row(arrow: Span, key: &str, presets: &Presets, selected: bool) -> (r: Vec<Span>)
    ensures
        paint::spans_view(r@) == preset_line(arrow@, key@, presets@, selected),
{
    let mut v = cycle_row(arrow, key, &presets.choices, selected);
    if let Some(c) = &presets.custom {
        let t = text::joined("  ", c);
        paint::put(&mut v, &t, paint::ink(Role::Accent));
    }
    v
}

/// A row of presets that follows the burn-aware mode.
pub open spec fn burn_line(
    arrow: SpanView,
    key: Seq<char>,
    presets: PresetsView,
    selected: bool,
    burn_aware: bool,
) -> Seq<SpanView> {
    if burn_aware {
        preset_line(arrow, key, presets, selected)
    } else {
        dimmed_line(key, presets.choices, selected)
    }
}

fn burn_row(arrow: Span, key: &str, presets: &Presets, selected: bool, burn_aware: bool) -> (r: Vec<
    Span,
>)
    ensures
        paint::spans_view(r@) == burn_line(arrow@, key@, presets@, selected, burn_aware),
{
    if burn_aware {
        preset_row(arrow, key, presets, selected)
    } else {
        dimmed_cycle_row(key, &presets.choices, selected)
    }
}

/// The presets of the refresh interval.
pub open spec fn refresh_presets(ms: u64) -> PresetsView {
    PresetsView {
        choices: Seq::empty().push(layout::choice_of("15s"@, ms == 15000)).push(
            layout::choice_of("30s"@, ms == 30000),
        ).push(layout::choice_of("60s"@, ms == 60000)).push(
            layout::choice_of("90s"@, ms == 90000),
        ).push(layout::choice_of("120s"@, ms == 120000)).push(
            layout::choice_of("300s"@, ms == 300000),
        ),
        custom: if ms == 15000 || ms == 30000 || ms == 60000 || ms == 90000 || ms == 120000 || ms
            == 300000 {
            None
        } else {
            Some(seconds_label(ms))
        },
    }
}

fn refresh_choices(ms: u64) -> (r: Presets)
    ensures
        r@ == refresh_presets(ms),
{
    let mut c = layout::no_choices();
    layout::offer_choice(&mut c, "15s", ms == 15000);
    layout::offer_choice(&mut c, "30s", ms == 30000);
    layout::offer_choice(&mut c, "60s", ms == 60000);
    layout::offer_choice(&mut c, "90s", ms == 90000);
    layout::offer_choice(&mut c, "120s", ms == 120000);
    layout::offer_choice(&mut c, "300s", ms == 300000);
    let listed = ms == 15000 || ms == 30000 || ms == 60000 || ms == 90000 || ms == 120000 || ms
        == 300000;
    let custom = if listed {
        None
    } else {
        Some(seconds_text(ms))
    };
    Presets { choices: c, custom }
}

/// A custom interval is named, and no preset is marked for it; a preset is marked alone.
pub proof fn intervals_are_named_once(ms: u64)
    ensures
        ({
            let p = refresh_presets(ms);
            &&& p.choices.len() == 6
            &&& p.custom is Some <==> forall|i: int|
                0 <= i < 6 ==> !(#[trigger] p.choices[i]).active
            &&& forall|i: int, j: int|
                0 <= i < j < 6 && (#[trigger] p.choices[i]).active ==> !(
                #[trigger] p.choices[j]).active
        }),
{
    let p = refresh_presets(ms);
    if p.custom is None {
        assert(p.choices[0].active || p.choices[1].active || p.choices[2].active
            || p.choices[3].active || p.choices[4].active || p.choices[5].active);
    }
}

/// A length of time in whole seconds.
pub open spec fn seconds_label(ms: u64) -> Seq<char> {
    text::decimal((ms / 1000) as nat) + "s"@
}

/// The ladder of the burn horizon: the presets by their seconds, marked where one is the horizon
/// to the millisecond; a horizon that is none of them is named.
pub open spec fn horizon_ladder(ms: u64, presets: Seq<u64>) -> PresetsView {
    PresetsView {
        choices: presets.map_values(|p: u64| layout::choice_of(seconds_label(p), p == ms)),
        custom: if presets.contains(ms) {
            None
        } else {
            Some(seconds_label(ms))
        },
    }
}

fn seconds_text(ms: u64) -> (r: String)
    ensures
        r@ == seconds_label(ms),
{
    text::joined(&text::decimal_text(ms / 1000), "s")
}

/// The ladder of the burn horizon.
pub fn horizon_presets(ms: u64, presets: &Vec<u64>) -> (r: Presets)
    ensures
        r@ == horizon_ladder(ms, presets@),
{
    let ghost ladder = horizon_ladder(ms, presets@).choices;
    let mut c = layout::no_choices();
    let mut listed = false;
    let mut i: usize = 0;
    assert(layout::choice_views(c@) =~= ladder.take(0));
    while i < presets.len()
        invariant
            i <= presets@.len(),
            ladder == horizon_ladder(ms, presets@).choices,
            layout::choice_views(c@) == ladder.take(i as int),
            listed <==> exists|k: int| 0 <= k < i && #[trigger] presets@[k] == ms,
        decreases presets@.len() - i,
    {
        let p: u64 = presets[i];
        let label = seconds_text(p);
        layout::offer_choice(&mut c, &label, p == ms);
        assert(ladder.take(i + 1) =~= ladder.take(i as int).push(ladder[i as int]));
        if p == ms {
            listed = true;
        }
        i = i + 1;
    }
    assert(ladder.take(presets@.len() as int) =~= ladder);
    let custom = if listed {
        None
    } else {
        Some(seconds_text(ms))
    };
    Presets { choices: c, custom }
}

/// A horizon between two presets is named, and no preset is marked for it, however close.
pub proof fn horizons_are_named_once(ms: u64, presets: Seq<u64>, i: int)
    requires
        0 <= i < presets.len(),
    ensures
        ({
            let p = horizon_ladder(ms, presets);
            &&& p.choices.len() == presets.len()
            &&& p.choices[i].active <==> presets[i] == ms
            &&& p.custom is Some ==> !p.choices[i].active
        }),
{
}

/// The choices for a login that does not match.
pub open spec fn divergence_choices(d: Option<DivergenceChoice>) -> Seq<ChoiceView> {
    Seq::empty().push(layout::choice_of("ask"@, d is None)).push(
        layout::choice_of("overwrite"@, d == Some(DivergenceChoice::Overwrite)),
    ).push(layout::choice_of("new"@, d == Some(DivergenceChoice::NewProfile))).push(
        layout::choice_of("discard"@, d == Some(DivergenceChoice::Discard)),
    )
}

/// Two choices, the second one current where `second` holds.
pub open spec fn pair(a: Seq<char>, b: Seq<char>, second: bool) -> Seq<ChoiceView> {
    Seq::empty().push(layout::choice_of(a, !second)).push(layout::choice_of(b, second))
}

fn two_choices(a: &str, b: &str, second: bool) -> (r: Vec<Choice>)
    ensures
        layout::choice_views(r@) == pair(a@, b@, second),
{
    let mut c = layout::no_choices();
    layout::offer_choice(&mut c, a, !second);
    layout::offer_choice(&mut c, b, second);
    c
}

/// A row being typed, with its unit.
pub open spec fn edit_line(arrow: SpanView, key: Seq<char>, e: FieldEditView, unit: Seq<char>) -> Seq<
    SpanView,
> {
    setting_head(arrow, key, true).push(layout::typed_span(e)).push(
        paint::span_of(unit, layout::unit_style(e.valid)),
    )
}

fn edit_row(arrow: Span, key: &str, e: &FieldEdit, unit: &str) -> (r: Vec<Span>)
    ensures
        paint::spans_view(r@) == edit_line(arrow@, key@, e@, unit@),
{
    let mut v = head(arrow, key, true);
    layout::value_caret(&mut v, e);
    paint::put(&mut v, unit, layout::unit_style(e.valid));
    v
}

/// A row of the Config tab.
pub open spec fn setting_line(
    glyphs: GlyphsView,
    scene: SettingsSceneView,
    row: GlobalConfigRow,
    selected: bool,
    edit: Option<FieldEditView>,
) -> Seq<SpanView> {
    let arrow = setting_gutter(glyphs, edit is Some, selected);
    let t = scene.toggles;
    match row {
        GlobalConfigRow::Theme => cycle_line(
            arrow,
            "theme"@,
            pair("full"@, "compatible"@, scene.tier == Tier::Compatible),
            selected,
        ),
        GlobalConfigRow::RefreshInterval => match edit {
            Some(e) => edit_line(arrow, "refresh"@, e, " s"@),
            None => preset_line(arrow, "refresh"@, refresh_presets(scene.refresh_ms), selected),
        },
        GlobalConfigRow::WeeklyThreshold => match edit {
            Some(e) => edit_line(arrow, "weekly limit"@, e, " %"@),
            None => preset_line(arrow, "weekly limit"@, scene.weekly, selected),
        },
        GlobalConfigRow::DivergenceDefault => cycle_line(
            arrow,
            "on mismatch"@,
            divergence_choices(scene.divergence),
            selected,
        ),
        GlobalConfigRow::WrapOff => cycle_line(
            arrow,
            "quota spent"@,
            pair("stay on last"@, "switch off all"@, t.switch_off_when_spent),
            selected,
        ),
        GlobalConfigRow::BurnAware => cycle_line(
            arrow,
            "rotate mode"@,
            pair("static"@, "burn-aware"@, t.burn_aware),
            selected,
        ),
        GlobalConfigRow::BurnFloor => burn_line(
            arrow,
            "burn floor"@,
            scene.burn_floor,
            selected,
            t.burn_aware,
        ),
        GlobalConfigRow::BurnHorizon => burn_line(
            arrow,
            "burn horizon"@,
            scene.burn_horizon,
            selected,
            t.burn_aware,
        ),
        GlobalConfigRow::SpendBudget => cycle_line(
            arrow,
            "allow extra usage"@,
            pair("off"@, "pay-as-you-go"@, t.spend_budget),
            selected,
        ),
        GlobalConfigRow::SwitchOffWhenBudgetSpent => {
            let options = pair("stay on last"@, "switch off all"@, t.switch_off_when_budget_spent);
            if t.spend_budget {
                cycle_line(arrow, "extra usage spent"@, options, selected)
            } else {
                dimmed_line("extra usage spent"@, options, selected)
            }
        },
        GlobalConfigRow::PreemptiveRotation => cycle_line(
            arrow,
            "rotation"@,
            pair("lazy"@, "preemptive"@, t.preemptive),
            selected,
        ),
        GlobalConfigRow::RefreshSpentAccounts => toggle_line(
            glyphs,
            arrow,
            "refresh spent"@,
            t.refresh_spent,
            selected,
        ),
        GlobalConfigRow::ContextNudge => match edit {
            Some(e) => edit_line(arrow, "context nudge"@, e, " %"@),
            None => preset_line(arrow, "context nudge"@, scene.nudge, selected),
        },
    }
}

/// A row of the Config tab.
pub fn detail_row(
    glyphs: &Glyphs,
    scene: &SettingsScene,
    row: GlobalConfigRow,
    selected: bool,
    edit: &Option<FieldEdit>,
) -> (r: Line)
    ensures
        r@ == paint::line_of(
            setting_line(glyphs@, scene@, row, selected, layout::opt_edit(*edit)),
        ),
{
    let arrow = gutter(glyphs, edit.is_some(), selected);
    let t = scene.toggles;
    let spans = match row {
        GlobalConfigRow::Theme => {
            let c = two_choices("full", "compatible", scene.tier == Tier::Compatible);
            cycle_row(arrow, "theme", &c, selected)
        },
        GlobalConfigRow::RefreshInterval => match edit {
            Some(e) => edit_row(arrow, "refresh", e, " s"),
            None => {
                let p = refresh_choices(scene.refresh_ms);
                preset_row(arrow, "refresh", &p, selected)
            },
        },
        GlobalConfigRow::WeeklyThreshold => match edit {
            Some(e) => edit_row(arrow, "weekly limit", e, " %"),
            None => preset_row(arrow, "weekly limit", &scene.weekly, selected),
        },
        GlobalConfigRow::DivergenceDefault => {
            let d = scene.divergence;
            let mut c = layout::no_choices();
            layout::offer_choice(&mut c, "ask", d.is_none());
            layout::offer_choice(&mut c, "overwrite", d == Some(DivergenceChoice::Overwrite));
            layout::offer_choice(&mut c, "new", d == Some(DivergenceChoice::NewProfile));
            layout::offer_choice(&mut c, "discard", d == Some(DivergenceChoice::Discard));
            cycle_row(arrow, "on mismatch", &c, selected)
        },
        GlobalConfigRow::WrapOff => {
            let c = two_choices("stay on last", "switch off all", t.switch_off_when_spent);
            cycle_row(arrow, "quota spent", &c, selected)
        },
        GlobalConfigRow::BurnAware => {
            let c = two_choices("static", "burn-aware", t.burn_aware);
            cycle_row(arrow, "rotate mode", &c, selected)
        },
        GlobalConfigRow::BurnFloor => burn_row(
            arrow,
            "burn floor",
            &scene.burn_floor,
            selected,
            t.burn_aware,
        ),
        GlobalConfigRow::BurnHorizon => burn_row(
            arrow,
            "burn horizon",
            &scene.burn_horizon,
            selected,
            t.burn_aware,
        ),
        GlobalConfigRow::SpendBudget => {
            let c = two_choices("off", "pay-as-you-go", t.spend_budget);
            cycle_row(arrow, "allow extra usage", &c, selected)
        },
        GlobalConfigRow::SwitchOffWhenBudgetSpent => {
            let c = two_choices("stay on last", "switch off all", t.switch_off_when_budget_spent);
            if t.spend_budget {
                cycle_row(arrow, "extra usage spent", &c, selected)
            } else {
                dimmed_cycle_row("extra usage spent", &c, selected)
            }
        },
        GlobalConfigRow::PreemptiveRotation => {
            let c = two_choices("lazy", "preemptive", t.preemptive);
            cycle_row(arrow, "rotation", &c, selected)
        },
        GlobalConfigRow::RefreshSpentAccounts => toggle_row(
            glyphs,
            arrow,
            "refresh spent",
            t.refresh_spent,
            selected,
        ),
        GlobalConfigRow::ContextNudge => match edit {
            Some(e) => edit_row(arrow, "context nudge", e, " %"),
            None => preset_row(arrow, "context nudge", &scene.nudge, selected),
        },
    };
    paint::line(spans)
}

/// The open editors of the Config tab: the typed text and the columns before its caret.
pub struct SettingsEdits {
    pub refresh: Option<InputState>,
    pub weekly: Option<InputState>,
    /// The typed weekly line would be accepted.
    pub weekly_valid: bool,
}

/// What [`SettingsEdits`] holds.
pub struct SettingsEditsView {
    pub refresh: Option<InputView>,
    pub weekly: Option<InputView>,
    pub weekly_valid: bool,
}

impl View for SettingsEdits {
    type V = SettingsEditsView;

    open spec fn view(&self) -> SettingsEditsView {
        SettingsEditsView {
            refresh: crate::input::opt_input_state(self.refresh),
            weekly: crate::input::opt_input_state(self.weekly),
            weekly_valid: self.weekly_valid,
        }
    }
}

impl SettingsEditsView {
    /// The buffer behind a row, while it is typed.
    pub open spec fn buffer(self, row: GlobalConfigRow) -> Option<InputView> {
        match row {
            GlobalConfigRow::RefreshInterval => self.refresh,
            GlobalConfigRow::WeeklyThreshold => self.weekly,
            _ => None,
        }
    }

    /// The field behind a row, while it is typed.
    pub open spec fn field(self, row: GlobalConfigRow) -> Option<FieldEditView> {
        match self.buffer(row) {
            Some(b) => Some(
                FieldEditView {
                    value: b.text,
                    valid: if row == GlobalConfigRow::RefreshInterval {
                        settings::typed_interval(b.trimmed()) is Some
                    } else {
                        self.weekly_valid
                    },
                },
            ),
            None => None,
        }
    }
}

/// The accepted values of a typed setting.
pub open spec fn setting_range(row: GlobalConfigRow) -> Seq<char> {
    if row == GlobalConfigRow::RefreshInterval {
        "10-3600 s"@
    } else {
        "50-100 %"@
    }
}

/// The first `n` rows of the Config tab, each with its help while it is selected or its range
/// while it is typed.
pub open spec fn settings_pane(
    host: HostView,
    glyphs: GlyphsView,
    scene: SettingsSceneView,
    edits: SettingsEditsView,
    n: nat,
) -> PaneView
    decreases n,
{
    if n == 0 {
        PaneView { lines: Seq::empty(), from: 0, to: 0, caret: None }
    } else {
        let before = settings_pane(host, glyphs, scene, edits, (n - 1) as nat);
        let row = settings::global_row_at(n - 1);
        let selected = n - 1 == text::min_int(scene.cursor, settings::GLOBAL_ROW_COUNT - 1);
        let edit = edits.field(row);
        let shown = paint::line_of(setting_line(glyphs, scene, row, selected, edit));
        match edits.buffer(row) {
            Some(b) => PaneView {
                lines: before.lines.push(shown) + layout::range_note(
                    setting_range(row),
                    edit->0.valid,
                    scene.width,
                ),
                caret: Some(
                    (
                        before.lines.len() as int,
                        text::min_int(
                            2 + KEY_W + KEY_GUTTER + b.before().len(),
                            usize::MAX as int,
                        ),
                    ),
                ),
                ..before
            },
            None => {
                let listed = before.lines.push(
                    if selected {
                        layout::barred(shown, scene.width, paint::ink(Role::Plain))
                    } else {
                        shown
                    },
                );
                PaneView {
                    lines: match setting_hint(host, row, scene.divergence, scene.toggles) {
                        Some(h) => if selected {
                            listed + layout::help_note(h, scene.width)
                        } else {
                            listed
                        },
                        None => listed,
                    },
                    ..before
                }
            },
        }
    }
}

fn field_of(edits: &SettingsEdits, row: GlobalConfigRow) -> (r: Option<FieldEdit>)
    ensures
        layout::opt_edit(r) == edits@.field(row),
{
    match row {
        GlobalConfigRow::RefreshInterval => match &edits.refresh {
            Some(b) => {
                let valid = settings::parse_refresh_secs(b.trimmed()).is_some();
                Some(FieldEdit { value: b.value().to_string(), valid })
            },
            None => None,
        },
        GlobalConfigRow::WeeklyThreshold => match &edits.weekly {
            Some(b) => Some(
                FieldEdit { value: b.value().to_string(), valid: edits.weekly_valid },
            ),
            None => None,
        },
        _ => None,
    }
}

fn head_of(edits: &SettingsEdits, row: GlobalConfigRow) -> (r: usize)
    ensures
        edits@.buffer(row) matches Some(b) ==> r == b.before().len(),
{
    match row {
        GlobalConfigRow::RefreshInterval => match &edits.refresh {
            Some(b) => layout::head_cols(b),
            None => 0,
        },
        GlobalConfigRow::WeeklyThreshold => match &edits.weekly {
            Some(b) => layout::head_cols(b),
            None => 0,
        },
        _ => 0,
    }
}

/// The Config tab: every line, and where the text cursor stands.
pub fn settings_lines(host: &Host, glyphs: &Glyphs, scene: &SettingsScene, edits: &SettingsEdits) ->
    (r: Pane)
    ensures
        r@ == settings_pane(host@, glyphs@, scene@, edits@, settings::GLOBAL_ROW_COUNT as nat),
{
    let mut pane = Pane { lines: paint::no_lines(), from: 0, to: 0, caret: None };
    let cursor: usize = text::min_usize(scene.cursor, settings::GLOBAL_ROW_COUNT - 1);
    let mut i: usize = 0;
    while i < settings::GLOBAL_ROW_COUNT
        invariant
            i <= settings::GLOBAL_ROW_COUNT,
            cursor == text::min_int(scene@.cursor, settings::GLOBAL_ROW_COUNT - 1),
            pane@ == settings_pane(host@, glyphs@, scene@, edits@, i as nat),
        decreases settings::GLOBAL_ROW_COUNT - i,
    {
        let row = settings::global_config_row(i);
        let selected = i == cursor;
        let edit = field_of(edits, row);
        let at: usize = pane.lines.len();
        assert(paint::lines_view(pane.lines@).len() == at);
        let shown = detail_row(glyphs, scene, row, selected, &edit);
        match &edit {
            Some(e) => {
                assert(edits@.buffer(row) is Some);
                let col: usize = head_of(edits, row).saturating_add(21);
                pane.caret = Some((at, col));
                paint::add_line(&mut pane.lines, shown);
                let range = if row == GlobalConfigRow::RefreshInterval {
                    "10-3600 s"
                } else {
                    "50-100 %"
                };
                let note = layout::range_tooltip(range, e.valid, scene.width);
                paint::add_lines(&mut pane.lines, &note);
            },
            None => {
                assert(edits@.buffer(row) is None);
                if selected {
                    paint::add_line(&mut pane.lines, layout::highlight_row(shown, scene.width));
                    if let Some(h) = row_hint(host, row, scene.divergence, scene.toggles) {
                        let note = layout::help_tooltip_lines(&h, scene.width);
                        paint::add_lines(&mut pane.lines, &note);
                    }
                } else {
                    paint::add_line(&mut pane.lines, shown);
                }
            },
        }
        i = i + 1;
    }
    pane
}

} // verus!
