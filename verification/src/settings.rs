//! The program-wide Config tab, and the editing keys of text fields.

use vstd::prelude::*;

use crate::forms::GlobalConfigRow;
use crate::input::{InputState, InputView};
use crate::key::{Key, KeyCode};
use crate::model;
use crate::model::{AppStateView, Tier, Toggles};
use crate::requests::{Request, RequestView};
use crate::state::{App, AppView, Ui};
use crate::text;

verus! {

// ── cursors ─────────────────────────────────────────────────────────────────

/// One row up, wrapping to the last.
#[verifier::opaque]
pub open spec fn step_up(cursor: usize, last: usize) -> usize {
    if cursor == 0 {
        last
    } else {
        (cursor - 1) as usize
    }
}

/// One row down, wrapping to the first.
#[verifier::opaque]
pub open spec fn step_down(cursor: usize, last: usize) -> usize {
    if cursor >= last {
        0
    } else {
        (cursor + 1) as usize
    }
}

/// The cursor pulled back to the last row.
#[verifier::opaque]
pub open spec fn row_clamped(cursor: usize, last: usize) -> usize {
    if cursor > last {
        last
    } else {
        cursor
    }
}

/// One row up, wrapping to the last.
pub fn row_up(cursor: usize, last: usize) -> (r: usize)
    ensures
        r == step_up(cursor, last),
{
    reveal(step_up);
    if cursor == 0 {
        last
    } else {
        cursor - 1
    }
}

/// One row down, wrapping to the first.
pub fn row_down(cursor: usize, last: usize) -> (r: usize)
    ensures
        r == step_down(cursor, last),
{
    reveal(step_down);
    if cursor >= last {
        0
    } else {
        cursor + 1
    }
}

/// The cursor pulled back to the last row.
pub fn clamp_row(cursor: usize, last: usize) -> (r: usize)
    ensures
        r == row_clamped(cursor, last),
        r <= last,
{
    reveal(row_clamped);
    if cursor > last {
        last
    } else {
        cursor
    }
}

/// Row steps stay within the rows, and up and down are inverse.
pub proof fn row_steps_wrap(cursor: usize, last: usize)
    requires
        cursor <= last,
    ensures
        step_up(cursor, last) <= last,
        step_down(cursor, last) <= last,
        step_down(step_up(cursor, last), last) == cursor,
        step_up(step_down(cursor, last), last) == cursor,
        row_clamped(cursor, last) == cursor,
{
    reveal(step_up);
    reveal(step_down);
    reveal(row_clamped);
}

/// Clamping always lands on a row.
pub proof fn clamping_lands_on_a_row(cursor: usize, last: usize)
    ensures
        row_clamped(cursor, last) <= last,
{
    reveal(row_clamped);
}

// ── text fields ─────────────────────────────────────────────────────────────

impl InputView {
    /// The field after an editing key.
    pub open spec fn keyed(self, key: Key) -> InputView {
        match key.code {
            KeyCode::Char(c) => if key.control {
                if c == 'w' {
                    self.word_deleted()
                } else {
                    self
                }
            } else {
                self.inserted(c)
            },
            KeyCode::Backspace => self.backspaced(),
            KeyCode::Delete => self.deleted(),
            KeyCode::Left => self.moved_left(),
            KeyCode::Right => self.moved_right(),
            KeyCode::Home => self.homed(),
            KeyCode::End => self.ended(),
            _ => self,
        }
    }
}

/// Applies an editing key to a field.
pub fn apply_input_edit(input: &mut InputState, key: Key)
    ensures
        final(input)@ == old(input)@.keyed(key),
{
    match key.code {
        KeyCode::Char(c) => {
            if key.control {
                if c == 'w' {
                    input.delete_word();
                }
            } else {
                input.insert(c);
            }
        },
        KeyCode::Backspace => input.backspace(),
        KeyCode::Delete => input.delete(),
        KeyCode::Left => input.left(),
        KeyCode::Right => input.right(),
        KeyCode::Home => input.home(),
        KeyCode::End => input.end(),
        _ => {},
    }
}

// ── refresh interval ────────────────────────────────────────────────────────

/// Shortest refresh interval, in milliseconds.
pub const MIN_REFRESH_INTERVAL_MS: u64 = 10_000;

/// Longest refresh interval, in milliseconds.
pub const MAX_REFRESH_INTERVAL_MS: u64 = 3_600_000;

/// Value of a decimal digit.
pub open spec fn digit_value(c: char) -> Option<nat> {
    if '0' <= c <= '9' {
        Some((c as u32 - '0' as u32) as nat)
    } else {
        None
    }
}

/// Value of a run of decimal digits; none when another character is among them.
pub open spec fn digits_value(s: Seq<char>) -> Option<nat>
    decreases s.len(),
{
    if s.len() == 0 {
        Some(0)
    } else {
        match (digits_value(s.drop_last()), digit_value(s.last())) {
            (Some(v), Some(d)) => Some(v * 10 + d),
            _ => None,
        }
    }
}

/// The digits of a number with an optional leading plus.
pub open spec fn unsigned(s: Seq<char>) -> Seq<char> {
    if s.len() > 0 && s[0] == '+' {
        s.drop_first()
    } else {
        s
    }
}

/// The 64-bit number a text denotes.
pub open spec fn number_in(s: Seq<char>) -> Option<nat> {
    let t = unsigned(s);
    if t.len() == 0 {
        None
    } else {
        match digits_value(t) {
            Some(v) if v <= u64::MAX => Some(v),
            _ => None,
        }
    }
}

/// The interval, in milliseconds, that a typed number of seconds stands for; none when it
/// is no whole number or out of range.
pub open spec fn typed_interval(s: Seq<char>) -> Option<nat> {
    match number_in(s) {
        Some(v) if MIN_REFRESH_INTERVAL_MS <= v * 1000 <= MAX_REFRESH_INTERVAL_MS => Some(v * 1000),
        _ => None,
    }
}

proof fn lemma_digits_prefix(s: Seq<char>, k: int)
    requires
        0 <= k <= s.len(),
        digits_value(s) is Some,
    ensures
        digits_value(s.take(k)) is Some,
        digits_value(s.take(k))->0 <= digits_value(s)->0,
    decreases s.len(),
{
    if k == s.len() {
        assert(s.take(k) =~= s);
    } else {
        lemma_digits_prefix(s.drop_last(), k);
        assert(s.drop_last().take(k) =~= s.take(k));
    }
}

/// The 64-bit number a text denotes.
pub fn parse_number(s: &str) -> (r: Option<u64>)
    ensures
        match r {
            Some(v) => number_in(s@) == Some(v as nat),
            None => number_in(s@) is None,
        },
{
    let n: usize = s.unicode_len();
    let from: usize = if n > 0 && s.get_char(0) == '+' {
        1
    } else {
        0
    };
    let ghost t = unsigned(s@);
    assert(t =~= s@.skip(from as int));
    if from >= n {
        return None;
    }
    let mut v: u64 = 0;
    let mut i: usize = from;
    assert(t.take(0) =~= Seq::<char>::empty());
    while i < n
        invariant
            from <= i <= n,
            from < n,
            n == s@.len(),
            t == s@.skip(from as int),
            t == unsigned(s@),
            digits_value(t.take(i - from)) == Some(v as nat),
        decreases n - i,
    {
        let c = s.get_char(i);
        let ghost p = t.take(i - from + 1);
        proof {
            assert(p.drop_last() =~= t.take(i - from));
            assert(p.last() == c);
            if digits_value(t) is Some {
                lemma_digits_prefix(t, i - from + 1);
            }
        }
        if !('0' <= c && c <= '9') {
            return None;
        }
        let d: u64 = (c as u32 - '0' as u32) as u64;
        if v > 1844674407370955161u64 || (v == 1844674407370955161u64 && d > 5) {
            assert(digits_value(p)->0 > u64::MAX);
            return None;
        }
        v = v * 10 + d;
        i = i + 1;
    }
    assert(t.take(n - from) =~= t);
    Some(v)
}

/// The interval, in milliseconds, that a typed number of seconds stands for.
pub fn parse_refresh_secs(raw: &str) -> (r: Option<u64>)
    ensures
        match r {
            Some(ms) => typed_interval(raw@) == Some(ms as nat),
            None => typed_interval(raw@) is None,
        },
{
    match parse_number(raw) {
        Some(v) => if v <= 3600 && v >= 10 {
            Some(v * 1000)
        } else {
            None
        },
        None => None,
    }
}

/// Every accepted interval lies between the shortest and the longest.
pub proof fn typed_intervals_are_in_range(s: Seq<char>)
    ensures
        typed_interval(s) is Some ==> MIN_REFRESH_INTERVAL_MS <= typed_interval(s)->0
            <= MAX_REFRESH_INTERVAL_MS,
{
}

/// The next preset above `current`, or the first one.
pub open spec fn next_interval(current: int) -> int {
    if current < 15_000 {
        15_000
    } else if current < 30_000 {
        30_000
    } else if current < 60_000 {
        60_000
    } else if current < 90_000 {
        90_000
    } else if current < 120_000 {
        120_000
    } else if current < 300_000 {
        300_000
    } else {
        15_000
    }
}

/// A step always lands on an interval in range: a longer one, or the shortest preset once
/// the longest is reached.
pub proof fn interval_steps_climb_and_wrap(current: int)
    ensures
        MIN_REFRESH_INTERVAL_MS <= next_interval(current) <= MAX_REFRESH_INTERVAL_MS,
        current < 300_000 ==> next_interval(current) > current,
        current >= 300_000 ==> next_interval(current) == 15_000,
{
}

// ── rows ────────────────────────────────────────────────────────────────────

/// Number of rows of the Config tab.
pub const GLOBAL_ROW_COUNT: usize = 7;

/// The row at a place of the Config tab.
pub open spec fn global_row_at(i: int) -> GlobalConfigRow {
    if i == 0 {
        GlobalConfigRow::Theme
    } else if i == 1 {
        GlobalConfigRow::DivergenceDefault
    } else if i == 2 {
        GlobalConfigRow::RefreshInterval
    } else if i == 3 {
        GlobalConfigRow::WrapOff
    } else if i == 4 {
        GlobalConfigRow::WeeklyThreshold
    } else if i == 5 {
        GlobalConfigRow::BurnAware
    } else {
        GlobalConfigRow::PreemptiveRotation
    }
}

/// The row at a place of the Config tab.
pub fn global_config_row(i: usize) -> (r: GlobalConfigRow)
    ensures
        r == global_row_at(i as int),
{
    if i == 0 {
        GlobalConfigRow::Theme
    } else if i == 1 {
        GlobalConfigRow::DivergenceDefault
    } else if i == 2 {
        GlobalConfigRow::RefreshInterval
    } else if i == 3 {
        GlobalConfigRow::WrapOff
    } else if i == 4 {
        GlobalConfigRow::WeeklyThreshold
    } else if i == 5 {
        GlobalConfigRow::BurnAware
    } else {
        GlobalConfigRow::PreemptiveRotation
    }
}

impl Tier {
    pub open spec fn flipped(self) -> Tier {
        match self {
            Tier::Full => Tier::Compatible,
            Tier::Compatible => Tier::Full,
        }
    }
}

impl AppView {
    #[verifier::opaque]
    pub open spec fn theme_cycled(self) -> AppView {
        let next = self.ui.tier.flipped();
        let s = self.state_saved(AppStateView { theme: Some(next), ..self.config.state });
        s.on(Ui { tier: next, ..s.ui }).asked(RequestView::ApplyTier(next))
    }

    #[verifier::opaque]
    pub open spec fn divergence_default_cycled(self) -> AppView {
        self.state_saved(
            AppStateView {
                default_divergence: model::divergence_successor(
                    self.config.state.default_divergence,
                ),
                ..self.config.state
            },
        )
    }

    #[verifier::opaque]
    pub open spec fn interval_set(self, ms: u64) -> AppView {
        AppView { ui: Ui { refresh_interval: ms, ..self.ui }, ..self }.state_saved(
            AppStateView { refresh_interval_ms: ms, ..self.config.state },
        )
    }

    #[verifier::opaque]
    pub open spec fn interval_stepped(self) -> AppView {
        self.interval_set(next_interval(self.ui.refresh_interval as int) as u64)
    }

    #[verifier::opaque]
    pub open spec fn wrap_off_toggled(self) -> AppView {
        self.state_saved(
            AppStateView {
                toggles: Toggles { wrap_off: !self.config.state.toggles.wrap_off, ..self.config.state.toggles },
                ..self.config.state
            },
        )
    }

    #[verifier::opaque]
    pub open spec fn burn_aware_toggled(self) -> AppView {
        self.state_saved(
            AppStateView {
                toggles: Toggles { burn_aware_switching: !self.config.state.toggles.burn_aware_switching, ..self.config.state.toggles },
                ..self.config.state
            },
        )
    }

    #[verifier::opaque]
    pub open spec fn preemptive_toggled(self) -> AppView {
        self.state_saved(
            AppStateView {
                toggles: Toggles { preemptive_rotation: !self.config.state.toggles.preemptive_rotation, ..self.config.state.toggles },
                ..self.config.state
            },
        )
    }

    #[verifier::opaque]
    pub open spec fn estimates_toggled(self) -> AppView {
        self.state_saved(
            AppStateView {
                toggles: Toggles { show_estimates: !self.config.state.toggles.show_estimates, ..self.config.state.toggles },
                ..self.config.state
            },
        )
    }

    #[verifier::opaque]
    pub open spec fn count_cache_toggled(self) -> AppView {
        self.state_saved(
            AppStateView {
                toggles: Toggles { count_cache: !self.config.state.toggles.count_cache, ..self.config.state.toggles },
                ..self.config.state
            },
        )
    }

    #[verifier::opaque]
    pub open spec fn pace_toggled(self) -> AppView {
        self.state_saved(
            AppStateView {
                toggles: Toggles { show_pace: !self.config.state.toggles.show_pace, ..self.config.state.toggles },
                ..self.config.state
            },
        )
    }

    /// What space does on a row of the Config tab.
    #[verifier::opaque]
    pub open spec fn global_row_run(self, row: GlobalConfigRow) -> AppView {
        match row {
            GlobalConfigRow::Theme => self.theme_cycled(),
            GlobalConfigRow::DivergenceDefault => self.divergence_default_cycled(),
            GlobalConfigRow::WrapOff => self.wrap_off_toggled(),
            GlobalConfigRow::WeeklyThreshold => self.asked(RequestView::StepWeekly),
            GlobalConfigRow::RefreshInterval => self.interval_stepped(),
            GlobalConfigRow::BurnAware => self.burn_aware_toggled(),
            GlobalConfigRow::PreemptiveRotation => self.preemptive_toggled(),
            _ => self,
        }
    }

    #[verifier::opaque]
    pub open spec fn interval_edit_begun(self) -> AppView {
        AppView {
            refresh_interval_draft: Some(
                InputView::of(text::decimal(self.ui.refresh_interval as nat / 1000)),
            ),
            ..self
        }
    }

    #[verifier::opaque]
    pub open spec fn weekly_edit_begun(self) -> AppView {
        AppView {
            weekly_threshold_draft: Some(InputView::of(self.config.state.weekly_text)),
            ..self
        }
    }

    /// The Config tab after a key.
    pub open spec fn global_config_keyed(self, key: Key) -> AppView {
        let last = (GLOBAL_ROW_COUNT - 1) as usize;
        let cur = row_clamped(self.ui.global_config_cursor, last);
        let s = self.on(Ui { global_config_cursor: cur, ..self.ui });
        let row = global_row_at(cur as int);
        match key.code {
            KeyCode::Up => s.on(
                Ui { global_config_cursor: step_up(cur, last), ..s.ui },
            ),
            KeyCode::Down => s.on(
                Ui { global_config_cursor: step_down(cur, last), ..s.ui },
            ),
            KeyCode::Char(c) => if c == ' ' {
                s.global_row_run(row)
            } else {
                s
            },
            KeyCode::Enter => if row == GlobalConfigRow::RefreshInterval {
                s.interval_edit_begun()
            } else if row == GlobalConfigRow::WeeklyThreshold {
                s.weekly_edit_begun()
            } else {
                s.global_row_run(row)
            },
            _ => s,
        }
    }

    /// A typed interval that is accepted takes effect and closes the field; any other
    /// leaves the field open.
    #[verifier::opaque]
    pub open spec fn interval_committed(self) -> AppView {
        match self.refresh_interval_draft {
            None => self,
            Some(d) => match typed_interval(d.trimmed()) {
                None => self,
                Some(ms) => AppView {
                    refresh_interval_draft: None,
                    ..self.interval_set(ms as u64)
                },
            },
        }
    }

    pub open spec fn interval_edit_keyed(self, key: Key) -> AppView {
        match key.code {
            KeyCode::Esc => AppView { refresh_interval_draft: None, ..self },
            KeyCode::Enter => self.interval_committed(),
            _ => match self.refresh_interval_draft {
                Some(d) => AppView { refresh_interval_draft: Some(d.keyed(key)), ..self },
                None => self,
            },
        }
    }

    pub open spec fn weekly_edit_keyed(self, key: Key) -> AppView {
        match key.code {
            KeyCode::Esc => AppView { weekly_threshold_draft: None, ..self },
            KeyCode::Enter => match self.weekly_threshold_draft {
                Some(d) => self.asked(RequestView::CommitWeekly(d.trimmed())),
                None => self,
            },
            _ => match self.weekly_threshold_draft {
                Some(d) => AppView { weekly_threshold_draft: Some(d.keyed(key)), ..self },
                None => self,
            },
        }
    }

    /// Once a typed weekly line was stored, its field closes.
    pub open spec fn weekly_committed(self, stored: bool) -> AppView {
        if stored {
            AppView { weekly_threshold_draft: None, ..self }
        } else {
            self
        }
    }
}

/// Swaps the color depth.
pub fn cycle_theme(app: &mut App)
    ensures
        final(app)@ == old(app)@.theme_cycled(),
{
    reveal(AppView::theme_cycled);
    reveal(AppView::state_saved);
    let next = match app.ui.tier {
        Tier::Full => Tier::Compatible,
        Tier::Compatible => Tier::Full,
    };
    app.config.state.theme = Some(next);
    app.save_state();
    let ui = Ui { tier: next, ..app.ui };
    app.set_ui(ui);
    app.ask(Request::ApplyTier(next));
}

/// Cycles what happens by default when the live login changes.
pub fn cycle_divergence_default(app: &mut App)
    ensures
        final(app)@ == old(app)@.divergence_default_cycled(),
{
    reveal(AppView::divergence_default_cycled);
    reveal(AppView::state_saved);
    let next = model::next_divergence_default(app.config.state.default_divergence);
    app.config.state.default_divergence = next;
    app.save_state();
}

/// Flips whether everything is switched off once the chain is spent.
pub fn toggle_wrap_off(app: &mut App)
    ensures
        final(app)@ == old(app)@.wrap_off_toggled(),
{
    reveal(AppView::wrap_off_toggled);
    reveal(AppView::state_saved);
    app.config.state.toggles.wrap_off = !app.config.state.toggles.wrap_off;
    app.save_state();
}

/// Flips switching ahead of the projected burn.
pub fn toggle_burn_aware_switching(app: &mut App)
    ensures
        final(app)@ == old(app)@.burn_aware_toggled(),
{
    reveal(AppView::burn_aware_toggled);
    reveal(AppView::state_saved);
    app.config.state.toggles.burn_aware_switching = !app.config.state.toggles.burn_aware_switching;
    app.save_state();
}

/// Flips rotating tokens ahead of their expiry.
pub fn toggle_preemptive_rotation(app: &mut App)
    ensures
        final(app)@ == old(app)@.preemptive_toggled(),
{
    reveal(AppView::preemptive_toggled);
    reveal(AppView::state_saved);
    app.config.state.toggles.preemptive_rotation = !app.config.state.toggles.preemptive_rotation;
    app.save_state();
}

/// Flips the usage estimates.
pub fn toggle_show_estimates(app: &mut App)
    ensures
        final(app)@ == old(app)@.estimates_toggled(),
{
    reveal(AppView::estimates_toggled);
    reveal(AppView::state_saved);
    app.config.state.toggles.show_estimates = !app.config.state.toggles.show_estimates;
    app.save_state();
}

/// Flips counting cache in token figures.
pub fn toggle_count_cache(app: &mut App)
    ensures
        final(app)@ == old(app)@.count_cache_toggled(),
{
    reveal(AppView::count_cache_toggled);
    reveal(AppView::state_saved);
    app.config.state.toggles.count_cache = !app.config.state.toggles.count_cache;
    app.save_state();
}

/// Flips the pace marker.
pub fn toggle_show_pace(app: &mut App)
    ensures
        final(app)@ == old(app)@.pace_toggled(),
{
    reveal(AppView::pace_toggled);
    reveal(AppView::state_saved);
    app.config.state.toggles.show_pace = !app.config.state.toggles.show_pace;
    app.save_state();
}

fn set_interval(app: &mut App, ms: u64)
    ensures
        final(app)@ == old(app)@.interval_set(ms),
{
    reveal(AppView::interval_set);
    reveal(AppView::state_saved);
    app.ui = Ui { refresh_interval: ms, ..app.ui };
    app.config.state.refresh_interval_ms = ms;
    app.save_state();
}

/// Steps the refresh interval to the next preset.
pub fn step_refresh_interval(app: &mut App)
    ensures
        final(app)@ == old(app)@.interval_stepped(),
{
    reveal(AppView::interval_stepped);
    let current: u64 = app.ui.refresh_interval;
    let next: u64 = if current < 15_000 {
        15_000
    } else if current < 30_000 {
        30_000
    } else if current < 60_000 {
        60_000
    } else if current < 90_000 {
        90_000
    } else if current < 120_000 {
        120_000
    } else if current < 300_000 {
        300_000
    } else {
        15_000
    };
    set_interval(app, next);
}

/// Steps the weekly line to the next preset.
pub fn step_weekly_threshold(app: &mut App)
    ensures
        final(app)@ == old(app)@.asked(RequestView::StepWeekly),
{
    app.ask(Request::StepWeekly);
}

/// What space does on a row of the Config tab.
pub fn run_global_config_row(app: &mut App, row: GlobalConfigRow)
    ensures
        final(app)@ == old(app)@.global_row_run(row),
{
    reveal(AppView::global_row_run);
    match row {
        GlobalConfigRow::Theme => cycle_theme(app),
        GlobalConfigRow::DivergenceDefault => cycle_divergence_default(app),
        GlobalConfigRow::WrapOff => toggle_wrap_off(app),
        GlobalConfigRow::WeeklyThreshold => step_weekly_threshold(app),
        GlobalConfigRow::RefreshInterval => step_refresh_interval(app),
        GlobalConfigRow::BurnAware => toggle_burn_aware_switching(app),
        GlobalConfigRow::PreemptiveRotation => toggle_preemptive_rotation(app),
        _ => {},
    }
}

/// Opens the refresh-interval field, holding the current value in seconds.
pub fn begin_refresh_interval_edit(app: &mut App)
    ensures
        final(app)@ == old(app)@.interval_edit_begun(),
{
    reveal(AppView::interval_edit_begun);
    let secs = text::decimal_text(app.ui.refresh_interval / 1000);
    app.refresh_interval_draft = Some(InputState::new(secs.as_str()));
}

/// Opens the weekly-line field, holding the current value.
pub fn begin_weekly_threshold_edit(app: &mut App)
    ensures
        final(app)@ == old(app)@.weekly_edit_begun(),
{
    reveal(AppView::weekly_edit_begun);
    app.weekly_threshold_draft = Some(InputState::new(app.config.state.weekly_text.as_str()));
}

/// A key on the Config tab.
pub fn handle_global_config_key(app: &mut App, key: Key)
    ensures
        final(app)@ == old(app)@.global_config_keyed(key),
{
    let last: usize = GLOBAL_ROW_COUNT - 1;
    let cur: usize = clamp_row(app.ui.global_config_cursor, last);
    let ui = Ui { global_config_cursor: cur, ..app.ui };
    app.set_ui(ui);
    match key.code {
        KeyCode::Up => {
            let ui = Ui { global_config_cursor: row_up(cur, last), ..app.ui };
            app.set_ui(ui);
        },
        KeyCode::Down => {
            let ui = Ui { global_config_cursor: row_down(cur, last), ..app.ui };
            app.set_ui(ui);
        },
        KeyCode::Char(c) => {
            if c == ' ' {
                run_global_config_row(app, global_config_row(cur));
            }
        },
        KeyCode::Enter => {
            let row = global_config_row(cur);
            if row == GlobalConfigRow::RefreshInterval {
                begin_refresh_interval_edit(app);
            } else if row == GlobalConfigRow::WeeklyThreshold {
                begin_weekly_threshold_edit(app);
            } else {
                run_global_config_row(app, row);
            }
        },
        _ => {},
    }
}

/// Takes over a typed interval.
pub fn commit_refresh_interval_edit(app: &mut App)
    ensures
        final(app)@ == old(app)@.interval_committed(),
{
    reveal(AppView::interval_committed);
    let parsed: Option<u64> = match &app.refresh_interval_draft {
        Some(d) => parse_refresh_secs(d.trimmed()),
        None => None,
    };
    if let Some(ms) = parsed {
        set_interval(app, ms);
        app.refresh_interval_draft = None;
    }
}

/// A key while the refresh-interval field is open.
pub fn handle_refresh_interval_edit_key(app: &mut App, key: Key)
    ensures
        final(app)@ == old(app)@.interval_edit_keyed(key),
{
    match key.code {
        KeyCode::Esc => {
            app.refresh_interval_draft = None;
        },
        KeyCode::Enter => commit_refresh_interval_edit(app),
        _ => {
            if let Some(input) = app.refresh_interval_draft.as_mut() {
                apply_input_edit(input, key);
            }
        },
    }
}

/// Hands a typed weekly line out to be stored.
pub fn commit_weekly_threshold_edit(app: &mut App)
    ensures
        final(app)@ == old(app)@.weekly_edit_keyed(
            Key { code: KeyCode::Enter, control: false, shift: false, press: true },
        ),
{
    let raw: Option<String> = match &app.weekly_threshold_draft {
        Some(d) => Some(d.trimmed().to_string()),
        None => None,
    };
    if let Some(raw) = raw {
        app.ask(Request::CommitWeekly(raw));
    }
}

/// A key while the weekly-line field is open.
pub fn handle_weekly_threshold_edit_key(app: &mut App, key: Key)
    ensures
        final(app)@ == old(app)@.weekly_edit_keyed(key),
{
    match key.code {
        KeyCode::Esc => {
            app.weekly_threshold_draft = None;
        },
        KeyCode::Enter => commit_weekly_threshold_edit(app),
        _ => {
            if let Some(input) = app.weekly_threshold_draft.as_mut() {
                apply_input_edit(input, key);
            }
        },
    }
}

/// Closes the weekly-line field once its value was stored.
pub fn finish_weekly_commit(app: &mut App, stored: bool)
    ensures
        final(app)@ == old(app)@.weekly_committed(stored),
{
    if stored {
        app.weekly_threshold_draft = None;
    }
}

/// Two flips of a setting restore it.
pub proof fn setting_flips_undo(s: AppView)
    ensures
        s.wrap_off_toggled().wrap_off_toggled().config == s.config,
        s.burn_aware_toggled().burn_aware_toggled().config == s.config,
        s.preemptive_toggled().preemptive_toggled().config == s.config,
        s.estimates_toggled().estimates_toggled().config == s.config,
        s.count_cache_toggled().count_cache_toggled().config == s.config,
        s.pace_toggled().pace_toggled().config == s.config,
        s.theme_cycled().theme_cycled().ui.tier == s.ui.tier,
{
    assert(s.wrap_off_toggled().wrap_off_toggled().config == s.config) by {
        reveal(AppView::wrap_off_toggled);
        reveal(AppView::state_saved);
        reveal(AppView::asked);
    }
    assert(s.burn_aware_toggled().burn_aware_toggled().config == s.config) by {
        reveal(AppView::burn_aware_toggled);
        reveal(AppView::state_saved);
        reveal(AppView::asked);
    }
    assert(s.preemptive_toggled().preemptive_toggled().config == s.config) by {
        reveal(AppView::preemptive_toggled);
        reveal(AppView::state_saved);
        reveal(AppView::asked);
    }
    assert(s.estimates_toggled().estimates_toggled().config == s.config) by {
        reveal(AppView::estimates_toggled);
        reveal(AppView::state_saved);
        reveal(AppView::asked);
    }
    assert(s.count_cache_toggled().count_cache_toggled().config == s.config) by {
        reveal(AppView::count_cache_toggled);
        reveal(AppView::state_saved);
        reveal(AppView::asked);
    }
    assert(s.pace_toggled().pace_toggled().config == s.config) by {
        reveal(AppView::pace_toggled);
        reveal(AppView::state_saved);
        reveal(AppView::asked);
    }
    assert(s.theme_cycled().theme_cycled().ui.tier == s.ui.tier) by {
        reveal(AppView::theme_cycled);
        reveal(AppView::state_saved);
        reveal(AppView::asked);
        reveal(AppView::on);
    }
}

/// An interval that is not accepted changes nothing: the field stays open as typed.
pub proof fn refused_interval_keeps_field(s: AppView)
    requires
        s.refresh_interval_draft is Some,
        typed_interval(s.refresh_interval_draft->0.trimmed()) is None,
    ensures
        s.interval_committed() == s,
{
    reveal(AppView::interval_committed);
}

} // verus!
