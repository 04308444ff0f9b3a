//! The Fallback tab: the chain of accounts and its members' settings.

use vstd::prelude::*;

use crate::forms::{FallbackFocus, FallbackRow, ToastKind};
use crate::input::{InputState, InputView};
use crate::key::{Key, KeyCode};
use crate::model;
use crate::model::{AppConfig, AppConfigView, AppStateView, ProfileView};
use crate::requests::{Request, RequestView};
use crate::settings;
use crate::state::{App, AppView, Ui};
use crate::text;

verus! {

/// One entry of the chain list.
#[derive(Debug, Clone, Copy, PartialEq, Eq, Structural)]
pub enum ChainItemKind {
    Member(usize),
    Add,
}

/// Number of rows of a member's detail pane.
pub const FALLBACK_ROW_COUNT: usize = 3;

/// The row at a place of a member's detail pane.
#[verifier::opaque]
pub open spec fn fallback_row_at(i: usize) -> FallbackRow {
    if i == 0 {
        FallbackRow::Threshold
    } else if i == 1 {
        FallbackRow::LastResort
    } else {
        FallbackRow::Remove
    }
}

/// The row at a place of a member's detail pane.
pub fn fallback_row(i: usize) -> (r: FallbackRow)
    ensures
        r == fallback_row_at(i),
{
    reveal(fallback_row_at);
    if i == 0 {
        FallbackRow::Threshold
    } else if i == 1 {
        FallbackRow::LastResort
    } else {
        FallbackRow::Remove
    }
}

/// The names of the first `n` accounts that are not in the chain.
pub open spec fn unchained(ps: Seq<ProfileView>, chain: Seq<Seq<char>>, n: nat) -> Seq<Seq<char>>
    decreases n,
{
    if n == 0 {
        Seq::empty()
    } else {
        let before = unchained(ps, chain, (n - 1) as nat);
        if chain.contains(ps[n - 1].name) {
            before
        } else {
            before.push(ps[n - 1].name)
        }
    }
}

impl AppConfigView {
    /// The accounts that could still join the chain.
    pub open spec fn candidates(self) -> Seq<Seq<char>> {
        unchained(self.profiles, self.state.fallback_chain, self.profiles.len())
    }

    /// The chain list: every member, then an entry to add one while there is anyone to add.
    pub open spec fn chain_items(self) -> Seq<ChainItemKind> {
        Seq::new(
            self.state.fallback_chain.len(),
            |i: int| ChainItemKind::Member(i as usize),
        ) + (if self.candidates().len() > 0 {
            seq![ChainItemKind::Add]
        } else {
            Seq::empty()
        })
    }

    /// Length of the chain list.
    pub open spec fn chain_rows(self) -> nat {
        self.state.fallback_chain.len() + (if self.candidates().len() > 0 {
            1nat
        } else {
            0nat
        })
    }
}

/// Members and candidates together are all accounts: every account is in the chain or a
/// candidate, and no candidate is in the chain.
pub proof fn candidates_complete_the_chain(c: AppConfigView, i: int)
    requires
        0 <= i < c.profiles.len(),
    ensures
        c.in_chain(c.profiles[i].name) || c.candidates().contains(c.profiles[i].name),
        forall|n: Seq<char>| c.candidates().contains(n) ==> !c.in_chain(n),
        c.candidates().len() == 0 ==> c.in_chain(c.profiles[i].name),
        c.chain_rows() == c.chain_items().len(),
{
    lemma_unchained(c.profiles, c.state.fallback_chain, c.profiles.len());
}

proof fn lemma_unchained(ps: Seq<ProfileView>, chain: Seq<Seq<char>>, n: nat)
    requires
        n <= ps.len(),
    ensures
        forall|i: int|
            0 <= i < n ==> chain.contains((#[trigger] ps[i]).name) || unchained(
                ps,
                chain,
                n,
            ).contains(ps[i].name),
        forall|x: Seq<char>| unchained(ps, chain, n).contains(x) ==> !chain.contains(x),
    decreases n,
{
    if n > 0 {
        lemma_unchained(ps, chain, (n - 1) as nat);
        let before = unchained(ps, chain, (n - 1) as nat);
        let out = unchained(ps, chain, n);
        assert forall|i: int| 0 <= i < n implies chain.contains((#[trigger] ps[i]).name)
            || out.contains(ps[i].name) by {
            if i < n - 1 {
                if before.contains(ps[i].name) {
                    let k = choose|k: int| 0 <= k < before.len() && before[k] == ps[i].name;
                    assert(out[k] == ps[i].name);
                }
            } else if !chain.contains(ps[i].name) {
                assert(out[before.len() as int] == ps[i].name);
            }
        }
        assert forall|x: Seq<char>| out.contains(x) implies !chain.contains(x) by {
            let k = choose|k: int| 0 <= k < out.len() && out[k] == x;
            if k < before.len() {
                assert(before[k] == x);
            }
        }
    }
}

/// The accounts that could still join the chain.
pub fn chain_candidates(cfg: &AppConfig) -> (r: Vec<String>)
    ensures
        text::views(r@) == cfg@.candidates(),
{
    broadcast use text::lemma_views_push;

    let mut out: Vec<String> = Vec::new();
    let mut i: usize = 0;
    assert(text::views(out@) =~= Seq::<Seq<char>>::empty());
    assert(cfg@.profiles.len() == cfg.profiles@.len());
    while i < cfg.profiles.len()
        invariant
            i <= cfg.profiles@.len(),
            text::views(out@) == unchained(cfg@.profiles, cfg@.state.fallback_chain, i as nat),
        decreases cfg.profiles@.len() - i,
    {
        assert(cfg@.profiles[i as int] == cfg.profiles@[i as int]@);
        if !cfg.in_chain(cfg.profiles[i].name.as_str()) {
            out.push(cfg.profiles[i].name.clone());
        }
        i = i + 1;
    }
    out
}

/// The chain list.
pub fn chain_items(cfg: &AppConfig) -> (r: Vec<ChainItemKind>)
    ensures
        r@ == cfg@.chain_items(),
{
    let mut out: Vec<ChainItemKind> = Vec::new();
    let n: usize = cfg.state.fallback_chain.len();
    assert(cfg@.state.fallback_chain.len() == n);
    let mut i: usize = 0;
    while i < n
        invariant
            i <= n,
            out@ == Seq::new(i as nat, |k: int| ChainItemKind::Member(k as usize)),
        decreases n - i,
    {
        out.push(ChainItemKind::Member(i));
        i = i + 1;
        assert(out@ =~= Seq::new(i as nat, |k: int| ChainItemKind::Member(k as usize)));
    }
    let rest = chain_candidates(cfg);
    assert(text::views(rest@).len() == rest@.len());
    if rest.len() > 0 {
        out.push(ChainItemKind::Add);
    }
    assert(out@ =~= cfg@.chain_items());
    out
}

/// Length of the chain list less one.
#[verifier::opaque]
pub open spec fn last_chain_row(c: AppConfigView) -> usize {
    text::monus(c.chain_rows() as int, 1) as usize
}

fn last_row(cfg: &AppConfig) -> (r: usize)
    ensures
        r == last_chain_row(cfg@),
{
    let items = chain_items(cfg);
    proof {
        reveal(last_chain_row);
        assert(cfg@.chain_rows() == cfg@.chain_items().len());
    }
    if items.len() > 0 {
        items.len() - 1
    } else {
        0
    }
}

// ── selection ───────────────────────────────────────────────────────────────

/// Footer hint of the Fallback tab.
#[derive(Debug, Clone, Copy, PartialEq, Eq, Structural)]
pub enum FallbackHint {
    Empty,
    ChainMember,
    ChainAdd,
    DetailThreshold,
    DetailThresholdEdit,
    DetailWeeklyAt,
    DetailWeeklyAtEdit,
    DetailCheckWeekly,
    DetailCheckScoped,
    DetailPreferred,
    DetailLastResort,
    DetailMaxSpend,
    DetailMaxSpendEdit,
    DetailRemove,
    DetailRemoveArmed,
    DetailAdd,
}

impl AppView {
    /// The chain member under the cursor.
    pub open spec fn selected_member(self) -> Option<usize> {
        if self.ui.chain_cursor < self.config.state.fallback_chain.len() {
            Some(self.ui.chain_cursor)
        } else {
            None
        }
    }

    /// Name of the chain member under the cursor.
    pub open spec fn selected_member_name(self) -> Option<Seq<char>> {
        if self.ui.chain_cursor < self.config.state.fallback_chain.len() {
            Some(self.config.state.fallback_chain[self.ui.chain_cursor as int])
        } else {
            None
        }
    }

    /// The footer hint for the current focus and edit state.
    pub open spec fn fallback_hint(self) -> FallbackHint {
        if self.config.chain_rows() == 0 {
            FallbackHint::Empty
        } else if self.ui.fallback_focus == FallbackFocus::Chain {
            if self.selected_member() is Some {
                FallbackHint::ChainMember
            } else {
                FallbackHint::ChainAdd
            }
        } else if self.selected_member() is None {
            FallbackHint::DetailAdd
        } else if self.fallback_threshold_draft is Some {
            FallbackHint::DetailThresholdEdit
        } else {
            match fallback_row_at(settings::row_clamped(self.ui.fallback_detail_cursor, 2)) {
                FallbackRow::Threshold => FallbackHint::DetailThreshold,
                FallbackRow::LastResort => FallbackHint::DetailLastResort,
                FallbackRow::MaxSpend => FallbackHint::DetailMaxSpend,
                FallbackRow::Remove => if self.ui.fallback_armed_remove {
                    FallbackHint::DetailRemoveArmed
                } else {
                    FallbackHint::DetailRemove
                },
            }
        }
    }

    /// The chain row to highlight on entering the tab: the selected account's own, if any.
    #[verifier::opaque]
    pub open spec fn chain_row_of_profile(self) -> usize {
        match self.focused() {
            Some(p) => match text::position(self.config.state.fallback_chain, p.name) {
                Some(i) => i as usize,
                None => 0,
            },
            None => 0,
        }
    }

    /// The account cursor follows the chain member under the chain cursor.
    #[verifier::opaque]
    pub open spec fn profile_synced(self) -> AppView {
        match self.selected_member_name() {
            Some(name) => match self.config.index_of(name) {
                Some(i) => self.on(Ui { profile_cursor: i as usize, ..self.ui }),
                None => self,
            },
            None => self,
        }
    }

    #[verifier::opaque]
    pub open spec fn fallback_entered(self) -> AppView {
        if self.ui.chain_cursor < self.config.chain_rows() {
            self.on(
                Ui {
                    fallback_detail_cursor: 0,
                    fallback_armed_remove: false,
                    fallback_focus: FallbackFocus::Detail,
                    ..self.ui
                },
            )
        } else {
            self
        }
    }

    #[verifier::opaque]
    pub open spec fn fallback_left(self) -> AppView {
        AppView {
            ui: Ui {
                fallback_focus: FallbackFocus::Chain,
                fallback_armed_remove: false,
                fallback_detail_cursor: 0,
                ..self.ui
            },
            fallback_threshold_draft: None,
            ..self
        }
    }

    /// The member under the cursor swaps places with its neighbour, and the cursor follows.
    #[verifier::opaque]
    pub open spec fn member_moved(self, up: bool) -> AppView {
        let pos = self.ui.chain_cursor as int;
        let chain = self.config.state.fallback_chain;
        let target = if up {
            pos - 1
        } else {
            pos + 1
        };
        if pos < chain.len() && 0 <= target < chain.len() {
            AppView {
                config: AppConfigView {
                    state: AppStateView {
                        fallback_chain: chain.update(pos, chain[target]).update(
                            target,
                            chain[pos],
                        ),
                        ..self.config.state
                    },
                    ..self.config
                },
                ui: Ui { chain_cursor: target as usize, ..self.ui },
                ..self
            }.asked(RequestView::SaveState)
        } else {
            self
        }
    }

    #[verifier::opaque]
    pub open spec fn chain_keyed(self, key: Key) -> AppView {
        let last = last_chain_row(self.config);
        match key.code {
            KeyCode::Up => if key.shift {
                self.member_moved(true)
            } else {
                self.on(
                    Ui { chain_cursor: settings::step_up(self.ui.chain_cursor, last), ..self.ui },
                ).profile_synced()
            },
            KeyCode::Down => if key.shift {
                self.member_moved(false)
            } else {
                self.on(
                    Ui { chain_cursor: settings::step_down(self.ui.chain_cursor, last), ..self.ui },
                ).profile_synced()
            },
            KeyCode::Enter => self.fallback_entered(),
            _ => self,
        }
    }
}

/// Two moves of a member, there and back, restore the chain and the cursor.
pub proof fn member_moves_undo(s: AppView, up: bool)
    requires
        s.member_moved(up) != s,
        s.config.state.fallback_chain.len() <= usize::MAX,
    ensures
        s.member_moved(up).member_moved(!up).config == s.config,
        s.member_moved(up).member_moved(!up).ui == s.ui,
{
    reveal(AppView::member_moved);
    reveal(AppView::asked);
    let t = s.member_moved(up);
    assert(t.member_moved(!up).config.state.fallback_chain =~= s.config.state.fallback_chain);
}

/// A move keeps every member of the chain: it only reorders.
pub proof fn member_moves_permute(s: AppView, up: bool)
    ensures
        s.member_moved(up).config.state.fallback_chain.to_multiset()
            == s.config.state.fallback_chain.to_multiset(),
        s.member_moved(up).config.profiles == s.config.profiles,
{
    reveal(AppView::member_moved);
    reveal(AppView::asked);
    let chain = s.config.state.fallback_chain;
    let pos = s.ui.chain_cursor as int;
    let target = if up {
        pos - 1
    } else {
        pos + 1
    };
    if pos < chain.len() && 0 <= target < chain.len() {
        let a = chain[pos];
        let b = chain[target];
        let mid = chain.update(pos, b);
        let out = mid.update(target, a);
        assert(mid =~= chain.remove(pos).insert(pos, b));
        assert(out =~= mid.remove(target).insert(target, a));
        vstd::seq_lib::to_multiset_remove(chain, pos);
        vstd::seq_lib::to_multiset_insert(chain.remove(pos), pos, b);
        vstd::seq_lib::to_multiset_remove(mid, target);
        vstd::seq_lib::to_multiset_insert(mid.remove(target), target, a);
        vstd::seq_lib::to_multiset_contains(chain, a);
        assert(out.to_multiset() =~= chain.to_multiset());
    }
}

/// The chain member under the cursor.
pub fn selected_chain_member(app: &App) -> (r: Option<usize>)
    ensures
        r == app@.selected_member(),
        r is Some ==> r->0 < app.config.state.fallback_chain@.len(),
{
    assert(app@.config.state.fallback_chain.len() == app.config.state.fallback_chain@.len());
    if app.ui.chain_cursor < app.config.state.fallback_chain.len() {
        Some(app.ui.chain_cursor)
    } else {
        None
    }
}

fn selected_name(app: &App) -> (r: Option<String>)
    ensures
        text::opt_view(r) == app@.selected_member_name(),
{
    assert(app@.config.state.fallback_chain.len() == app.config.state.fallback_chain@.len());
    if app.ui.chain_cursor < app.config.state.fallback_chain.len() {
        Some(app.config.state.fallback_chain[app.ui.chain_cursor].clone())
    } else {
        None
    }
}

/// The footer hint of the Fallback tab.
pub fn fallback_hint(app: &App) -> (r: FallbackHint)
    ensures
        r == app@.fallback_hint(),
{
    let items = chain_items(&app.config);
    assert(app@.config.chain_rows() == app@.config.chain_items().len());
    if items.len() == 0 {
        return FallbackHint::Empty;
    }
    let member = selected_chain_member(app).is_some();
    match app.ui.fallback_focus {
        FallbackFocus::Chain => if member {
            FallbackHint::ChainMember
        } else {
            FallbackHint::ChainAdd
        },
        FallbackFocus::Detail => {
            if !member {
                return FallbackHint::DetailAdd;
            }
            if app.fallback_threshold_draft.is_some() {
                return FallbackHint::DetailThresholdEdit;
            }
            match fallback_row(settings::clamp_row(app.ui.fallback_detail_cursor, 2)) {
                FallbackRow::Threshold => FallbackHint::DetailThreshold,
                FallbackRow::LastResort => FallbackHint::DetailLastResort,
                FallbackRow::MaxSpend => FallbackHint::DetailMaxSpend,
                FallbackRow::Remove => if app.ui.fallback_armed_remove {
                    FallbackHint::DetailRemoveArmed
                } else {
                    FallbackHint::DetailRemove
                },
            }
        },
    }
}

/// The chain row to highlight on entering the tab.
pub fn chain_cursor_for_profile(app: &App) -> (r: usize)
    ensures
        r == app@.chain_row_of_profile(),
{
    reveal(AppView::chain_row_of_profile);
    if app.ui.profile_cursor < app.config.profiles.len() {
        let name = app.config.profiles[app.ui.profile_cursor].name.as_str();
        match text::position_of(&app.config.state.fallback_chain, name) {
            Some(i) => i,
            None => 0,
        }
    } else {
        0
    }
}

/// Lets the account cursor follow the chain cursor.
pub fn sync_profile_from_chain(app: &mut App)
    ensures
        final(app)@ == old(app)@.profile_synced(),
{
    reveal(AppView::profile_synced);
    if let Some(name) = selected_name(app) {
        if let Some(i) = app.config.index_of(name.as_str()) {
            let ui = Ui { profile_cursor: i, ..app.ui };
            app.set_ui(ui);
        }
    }
}

/// Moves into the detail pane of the entry under the cursor.
pub fn enter_fallback_detail(app: &mut App)
    ensures
        final(app)@ == old(app)@.fallback_entered(),
{
    reveal(AppView::fallback_entered);
    let items = chain_items(&app.config);
    assert(app@.config.chain_rows() == app@.config.chain_items().len());
    if app.ui.chain_cursor < items.len() {
        let ui = Ui {
            fallback_detail_cursor: 0,
            fallback_armed_remove: false,
            fallback_focus: FallbackFocus::Detail,
            ..app.ui
        };
        app.set_ui(ui);
    }
}

/// Moves back to the chain list, dropping what was being edited.
pub fn leave_fallback_detail(app: &mut App)
    ensures
        final(app)@ == old(app)@.fallback_left(),
{
    reveal(AppView::fallback_left);
    app.ui =
    Ui {
        fallback_focus: FallbackFocus::Chain,
        fallback_armed_remove: false,
        fallback_detail_cursor: 0,
        ..app.ui
    };
    app.fallback_threshold_draft = None;
}

/// Moves the member under the cursor one place up or down.
pub fn reorder_chain_member(app: &mut App, up: bool)
    ensures
        final(app)@ == old(app)@.member_moved(up),
{
    reveal(AppView::member_moved);
    let pos: usize = app.ui.chain_cursor;
    let n: usize = app.config.state.fallback_chain.len();
    assert(app@.config.state.fallback_chain.len() == n);
    if pos >= n {
        return;
    }
    if up && pos == 0 {
        return;
    }
    if !up && pos + 1 >= n {
        return;
    }
    let target: usize = if up {
        pos - 1
    } else {
        pos + 1
    };
    let ghost before = app.config.state.fallback_chain@;
    let a = app.config.state.fallback_chain[pos].clone();
    let b = app.config.state.fallback_chain[target].clone();
    app.config.state.fallback_chain.set(pos, b);
    app.config.state.fallback_chain.set(target, a);
    proof {
        let chain = text::views(before);
        assert(text::views(app.config.state.fallback_chain@) =~= chain.update(
            pos as int,
            chain[target as int],
        ).update(target as int, chain[pos as int]));
    }
    app.ui = Ui { chain_cursor: target, ..app.ui };
    app.ask(Request::SaveState);
}

/// A key on the chain list.
pub fn handle_fallback_chain_key(app: &mut App, key: Key)
    ensures
        final(app)@ == old(app)@.chain_keyed(key),
{
    reveal(AppView::chain_keyed);
    match key.code {
        KeyCode::Up => {
            if key.shift {
                reorder_chain_member(app, true);
            } else {
                let last: usize = last_row(&app.config);
                let row: usize = settings::row_up(app.ui.chain_cursor, last);
                let ui = Ui { chain_cursor: row, ..app.ui };
                app.set_ui(ui);
                sync_profile_from_chain(app);
            }
        },
        KeyCode::Down => {
            if key.shift {
                reorder_chain_member(app, false);
            } else {
                let last: usize = last_row(&app.config);
                let row: usize = settings::row_down(app.ui.chain_cursor, last);
                let ui = Ui { chain_cursor: row, ..app.ui };
                app.set_ui(ui);
                sync_profile_from_chain(app);
            }
        },
        KeyCode::Enter => enter_fallback_detail(app),
        _ => {},
    }
}

// ── last resort ─────────────────────────────────────────────────────────────

impl AppConfigView {
    pub open spec fn with_last_resort(self, i: int, on: bool) -> AppConfigView {
        AppConfigView {
            profiles: self.profiles.update(
                i,
                ProfileView { last_resort: on, ..self.profiles[i] },
            ),
            ..self
        }
    }

    /// The accounts among the first `n` that hold the last-resort mark besides `keep`.
    pub open spec fn other_marked(self, keep: Seq<char>, n: nat) -> Seq<Seq<char>>
        decreases n,
    {
        if n == 0 {
            Seq::empty()
        } else {
            let before = self.other_marked(keep, (n - 1) as nat);
            if self.profiles[n - 1].last_resort && self.profiles[n - 1].name != keep {
                before.push(self.profiles[n - 1].name)
            } else {
                before
            }
        }
    }

    /// The last-resort mark taken from every account but `keep`.
    pub open spec fn others_unmarked(self, keep: Seq<char>) -> AppConfigView {
        AppConfigView {
            profiles: self.profiles.map_values(
                |p: ProfileView|
                    if p.name != keep {
                        ProfileView { last_resort: false, ..p }
                    } else {
                        p
                    },
            ),
            ..self
        }
    }

    /// The mark given back to those of `names` whose save failed.
    pub open spec fn remarked(self, names: Seq<Seq<char>>, saved: Seq<bool>, n: nat) -> AppConfigView
        decreases n,
    {
        if n == 0 {
            self
        } else {
            let c = self.remarked(names, saved, (n - 1) as nat);
            if n <= saved.len() && !saved[n - 1] {
                match c.index_of(names[n - 1]) {
                    Some(i) => c.with_last_resort(i, true),
                    None => c,
                }
            } else {
                c
            }
        }
    }
}

/// The first of `names` whose save succeeded.
pub open spec fn first_saved(names: Seq<Seq<char>>, saved: Seq<bool>, n: nat) -> Option<Seq<char>>
    decreases n,
{
    if n == 0 {
        None
    } else {
        match first_saved(names, saved, (n - 1) as nat) {
            Some(x) => Some(x),
            None => if n <= saved.len() && saved[n - 1] {
                Some(names[n - 1])
            } else {
                None
            },
        }
    }
}

impl AppView {
    /// Flipping the mark of the selected member, before it is saved.
    #[verifier::opaque]
    pub open spec fn last_resort_flipped(self) -> AppView {
        match self.selected_member_name() {
            None => self,
            Some(name) => match self.config.index_of(name) {
                None => self,
                Some(i) => {
                    let on = !self.config.profiles[i].last_resort;
                    AppView { config: self.config.with_last_resort(i, on), ..self }.asked(
                        RequestView::SaveLastResort { name, on },
                    )
                },
            },
        }
    }

    /// Once the mark was saved, it leaves every other account; when nobody else held it
    /// there is nothing more to save.
    #[verifier::opaque]
    pub open spec fn last_resort_saved(self, name: Seq<char>, on: bool) -> AppView {
        let others = self.config.other_marked(name, self.config.profiles.len());
        if on && others.len() > 0 {
            AppView { config: self.config.others_unmarked(name), ..self }.asked(
                RequestView::SaveCleared(others),
            )
        } else {
            self.asked(RequestView::RefreshTokens)
        }
    }

    /// A mark that could not be saved is taken back.
    #[verifier::opaque]
    pub open spec fn last_resort_failed(self, name: Seq<char>, on: bool, e: Seq<char>) -> AppView {
        let c = match self.config.index_of(name) {
            Some(i) => self.config.with_last_resort(i, !on),
            None => self.config,
        };
        AppView { config: c, ..self }.toasted(ToastKind::Danger, "save failed: "@ + e)
    }

    /// Once the others were saved: those that failed keep the mark, and the first one that
    /// lost it is named.
    #[verifier::opaque]
    pub open spec fn others_cleared(self, names: Seq<Seq<char>>, saved: Seq<bool>) -> AppView {
        let s = AppView { config: self.config.remarked(names, saved, names.len()), ..self };
        (match first_saved(names, saved, names.len()) {
            Some(prev) => s.toasted(
                ToastKind::Info,
                "last resort moved from '"@ + prev + "'"@,
            ),
            None => s,
        }).asked(RequestView::RefreshTokens)
    }
}

/// When every save succeeds, turning the mark on leaves it on the chosen account alone.
pub proof fn last_resort_is_exclusive(s: AppView, name: Seq<char>, saved: Seq<bool>, i: int)
    requires
        forall|k: int| 0 <= k < saved.len() ==> saved[k],
        0 <= i < s.config.profiles.len(),
        s.config.profiles[i].name != name,
    ensures
        ({
            let others = s.config.other_marked(name, s.config.profiles.len());
            let t = s.last_resort_saved(name, true);
            let done = if others.len() > 0 {
                t.others_cleared(others, saved)
            } else {
                t
            };
            !done.config.profiles[i].last_resort
        }),
{
    reveal(AppView::last_resort_saved);
    reveal(AppView::others_cleared);
    reveal(AppView::asked);
    reveal(AppView::toasted);
    let others = s.config.other_marked(name, s.config.profiles.len());
    if others.len() > 0 {
        lemma_remarked_none(s.config.others_unmarked(name), others, saved, others.len());
    } else {
        lemma_other_marked_empty(s.config, name, s.config.profiles.len(), i);
    }
}

proof fn lemma_remarked_none(
    c: AppConfigView,
    names: Seq<Seq<char>>,
    saved: Seq<bool>,
    n: nat,
)
    requires
        forall|k: int| 0 <= k < saved.len() ==> saved[k],
    ensures
        c.remarked(names, saved, n) == c,
    decreases n,
{
    if n > 0 {
        lemma_remarked_none(c, names, saved, (n - 1) as nat);
    }
}

proof fn lemma_other_marked_empty(c: AppConfigView, keep: Seq<char>, n: nat, i: int)
    requires
        0 <= i < n <= c.profiles.len(),
        c.other_marked(keep, n).len() == 0,
        c.profiles[i].name != keep,
    ensures
        !c.profiles[i].last_resort,
    decreases n,
{
    if i < n - 1 {
        lemma_other_marked_empty(c, keep, (n - 1) as nat, i);
    }
}

/// Sets or clears the last-resort mark of an account.
pub fn set_last_resort(cfg: &mut AppConfig, i: usize, on: bool)
    requires
        i < old(cfg).profiles@.len(),
    ensures
        final(cfg)@ == old(cfg)@.with_last_resort(i as int, on),
        final(cfg).profiles@.len() == old(cfg).profiles@.len(),
{
    let ghost before = cfg.profiles@;
    cfg.profiles[i].last_resort = on;
    proof {
        assert(model::profile_views(cfg.profiles@) =~= model::profile_views(before).update(
            i as int,
            ProfileView { last_resort: on, ..model::profile_views(before)[i as int] },
        ));
    }
}

/// Flips the last-resort mark of the selected member.
pub fn toggle_last_resort(app: &mut App)
    ensures
        final(app)@ == old(app)@.last_resort_flipped(),
{
    reveal(AppView::last_resort_flipped);
    if let Some(name) = selected_name(app) {
        if let Some(i) = app.config.index_of(name.as_str()) {
            assert(app@.config.profiles[i as int] == app.config.profiles@[i as int]@);
            let on = !app.config.profiles[i].last_resort;
            set_last_resort(&mut app.config, i, on);
            app.ask(Request::SaveLastResort { name, on });
        }
    }
}

fn other_marked(cfg: &AppConfig, keep: &str) -> (r: Vec<String>)
    ensures
        text::views(r@) == cfg@.other_marked(keep@, cfg@.profiles.len()),
{
    broadcast use text::lemma_views_push;

    let mut out: Vec<String> = Vec::new();
    let mut i: usize = 0;
    assert(text::views(out@) =~= Seq::<Seq<char>>::empty());
    assert(cfg@.profiles.len() == cfg.profiles@.len());
    while i < cfg.profiles.len()
        invariant
            i <= cfg.profiles@.len(),
            text::views(out@) == cfg@.other_marked(keep@, i as nat),
        decreases cfg.profiles@.len() - i,
    {
        assert(cfg@.profiles[i as int] == cfg.profiles@[i as int]@);
        if cfg.profiles[i].last_resort && !text::same_text(cfg.profiles[i].name.as_str(), keep) {
            out.push(cfg.profiles[i].name.clone());
        }
        i = i + 1;
    }
    out
}

fn unmark_others(cfg: &mut AppConfig, keep: &str)
    ensures
        final(cfg)@ == old(cfg)@.others_unmarked(keep@),
{
    let ghost start = cfg@;
    let n: usize = cfg.profiles.len();
    assert(cfg@.profiles.len() == n);
    let mut i: usize = 0;
    while i < n
        invariant
            i <= n,
            n == cfg.profiles@.len(),
            n == start.profiles.len(),
            cfg@.state == start.state,
            cfg@.profiles.len() == n,
            forall|k: int|
                0 <= k < n ==> cfg@.profiles[k] == (if k < i && start.profiles[k].name != keep@ {
                    ProfileView { last_resort: false, ..start.profiles[k] }
                } else {
                    start.profiles[k]
                }),
        decreases n - i,
    {
        assert(cfg@.profiles[i as int] == cfg.profiles@[i as int]@);
        if !text::same_text(cfg.profiles[i].name.as_str(), keep) {
            set_last_resort(cfg, i, false);
        }
        i = i + 1;
    }
    assert(cfg@.profiles =~= start.others_unmarked(keep@).profiles);
}

/// Goes on after the mark was saved.
pub fn finish_last_resort(app: &mut App, name: String, on: bool, failure: Option<String>)
    ensures
        final(app)@ == (match failure {
            None => old(app)@.last_resort_saved(name@, on),
            Some(e) => old(app)@.last_resort_failed(name@, on, e@),
        }),
{
    reveal(AppView::last_resort_saved);
    reveal(AppView::last_resort_failed);
    match failure {
        None => {
            let others = other_marked(&app.config, name.as_str());
            assert(text::views(others@).len() == others@.len());
            if on && others.len() > 0 {
                unmark_others(&mut app.config, name.as_str());
                app.ask(Request::SaveCleared(others));
            } else {
                app.ask(Request::RefreshTokens);
            }
        },
        Some(e) => {
            if let Some(i) = app.config.index_of(name.as_str()) {
                set_last_resort(&mut app.config, i, !on);
            }
            let body = text::joined("save failed: ", e.as_str());
            app.toast(ToastKind::Danger, body.as_str());
        },
    }
}

fn remark_failed(cfg: &mut AppConfig, names: &Vec<String>, saved: &Vec<bool>)
    ensures
        final(cfg)@ == old(cfg)@.remarked(text::views(names@), saved@, names@.len()),
{
    let ghost start = cfg@;
    let ghost nv = text::views(names@);
    let mut i: usize = 0;
    while i < names.len()
        invariant
            i <= names@.len(),
            nv == text::views(names@),
            cfg@ == start.remarked(nv, saved@, i as nat),
        decreases names@.len() - i,
    {
        assert(nv[i as int] == names@[i as int]@);
        if i < saved.len() && !saved[i] {
            if let Some(k) = cfg.index_of(names[i].as_str()) {
                set_last_resort(cfg, k, true);
            }
        }
        i = i + 1;
    }
}

fn find_first_saved(names: &Vec<String>, saved: &Vec<bool>) -> (r: Option<String>)
    ensures
        text::opt_view(r) == first_saved(text::views(names@), saved@, names@.len()),
{
    let ghost nv = text::views(names@);
    let mut found: Option<String> = None;
    let mut i: usize = 0;
    while i < names.len()
        invariant
            i <= names@.len(),
            nv == text::views(names@),
            text::opt_view(found) == first_saved(nv, saved@, i as nat),
        decreases names@.len() - i,
    {
        assert(nv[i as int] == names@[i as int]@);
        if found.is_none() && i < saved.len() && saved[i] {
            found = Some(names[i].clone());
        }
        i = i + 1;
    }
    found
}

/// Goes on after the other accounts were saved without the mark.
pub fn finish_clearing(app: &mut App, names: Vec<String>, saved: Vec<bool>)
    ensures
        final(app)@ == old(app)@.others_cleared(text::views(names@), saved@),
{
    reveal(AppView::others_cleared);
    assert(text::views(names@).len() == names@.len());
    remark_failed(&mut app.config, &names, &saved);
    if let Some(prev) = find_first_saved(&names, &saved) {
        let body = text::joined3("last resort moved from '", prev.as_str(), "'");
        app.toast(ToastKind::Info, body.as_str());
    }
    app.ask(Request::RefreshTokens);
}

// ── membership ──────────────────────────────────────────────────────────────

/// Being another text than `name`.
pub open spec fn other_than(name: Seq<char>) -> spec_fn(Seq<char>) -> bool {
    |n: Seq<char>| n != name
}

/// `chain` without `name`.
pub open spec fn chain_without(chain: Seq<Seq<char>>, name: Seq<char>) -> Seq<Seq<char>> {
    chain.filter(other_than(name))
}

impl AppView {
    /// An account joins the end of the chain, getting a threshold when it has none.
    #[verifier::opaque]
    pub open spec fn candidate_added(self, name: Seq<char>) -> AppView {
        let s = match self.config.find(name) {
            Some(p) if !p.facts.has_threshold => self.asked(RequestView::SeedThreshold(name)),
            _ => self,
        };
        AppView {
            config: AppConfigView {
                state: AppStateView {
                    fallback_chain: s.config.state.fallback_chain.push(name),
                    ..s.config.state
                },
                ..s.config
            },
            ..s
        }.asked(RequestView::SaveState)
    }

    /// The selected member leaves the chain, and focus returns to the list.
    #[verifier::opaque]
    pub open spec fn member_removed(self) -> AppView {
        match self.selected_member_name() {
            None => self,
            Some(name) => {
                let s = AppView {
                    config: AppConfigView {
                        state: AppStateView {
                            fallback_chain: chain_without(self.config.state.fallback_chain, name),
                            ..self.config.state
                        },
                        ..self.config
                    },
                    ..self
                }.asked(RequestView::SaveState).fallback_left();
                let s = s.on(
                    Ui {
                        chain_cursor: settings::row_clamped(
                            s.ui.chain_cursor,
                            last_chain_row(s.config),
                        ),
                        ..s.ui
                    },
                );
                s.toasted(ToastKind::Info, "removed '"@ + name + "' from chain"@)
            },
        }
    }

    /// What enter or space does on a row of the member's detail pane.
    #[verifier::opaque]
    pub open spec fn fallback_row_run(self, row: FallbackRow) -> AppView {
        match row {
            FallbackRow::Threshold => match self.selected_member_name() {
                Some(name) => match self.config.find(name) {
                    Some(p) => AppView {
                        fallback_threshold_draft: Some(InputView::of(p.threshold_text)),
                        ..self
                    },
                    None => self,
                },
                None => self,
            },
            FallbackRow::LastResort => self.last_resort_flipped(),
            FallbackRow::MaxSpend => self,
            FallbackRow::Remove => if self.ui.fallback_armed_remove {
                self.member_removed()
            } else {
                self.on(Ui { fallback_armed_remove: true, ..self.ui })
            },
        }
    }

    /// A step of the selected member's threshold.
    #[verifier::opaque]
    pub open spec fn threshold_stepped(self, up: bool) -> AppView {
        match self.selected_member_name() {
            Some(name) => match self.config.find(name) {
                Some(_) => self.asked(RequestView::StepThreshold { name, up }),
                None => self,
            },
            None => self,
        }
    }

    /// The picker of accounts to add.
    #[verifier::opaque]
    pub open spec fn add_keyed(self, key: Key) -> AppView {
        let names = self.config.candidates();
        if names.len() == 0 {
            self.fallback_left()
        } else {
            let last = (names.len() - 1) as usize;
            let cur = settings::row_clamped(self.ui.fallback_detail_cursor, last);
            let s = self.on(Ui { fallback_detail_cursor: cur, ..self.ui });
            if key.code == KeyCode::Up {
                s.on(Ui { fallback_detail_cursor: settings::step_up(cur, last), ..s.ui })
            } else if key.code == KeyCode::Down {
                s.on(Ui { fallback_detail_cursor: settings::step_down(cur, last), ..s.ui })
            } else if key.code == KeyCode::Enter || key.code == KeyCode::Char(' ') {
                s.candidate_chosen(names[cur as int])
            } else {
                s
            }
        }
    }

    /// A candidate was picked; when it was the last one, the list shows the new member.
    #[verifier::opaque]
    pub open spec fn candidate_chosen(self, name: Seq<char>) -> AppView {
        let s = self.candidate_added(name).toasted(
            ToastKind::Success,
            "added '"@ + name + "' to chain"@,
        );
        let rest = s.config.candidates().len();
        if rest == 0 {
            let t = s.fallback_left();
            t.on(Ui { chain_cursor: last_chain_row(t.config), ..t.ui })
        } else {
            s.on(
                Ui {
                    fallback_detail_cursor: settings::row_clamped(
                        s.ui.fallback_detail_cursor,
                        (rest - 1) as usize,
                    ),
                    ..s.ui
                },
            )
        }
    }

    /// What a typed character does on a row of the member's detail pane.
    #[verifier::opaque]
    pub open spec fn fallback_row_typed(self, row: FallbackRow, c: char) -> AppView {
        if c == ' ' {
            self.fallback_row_run(row)
        } else if row == FallbackRow::Threshold && (c == '+' || c == '=') {
            self.threshold_stepped(true)
        } else if row == FallbackRow::Threshold && (c == '-' || c == '_') {
            self.threshold_stepped(false)
        } else {
            self
        }
    }

    #[verifier::opaque]
    pub open spec fn detail_keyed(self, key: Key) -> AppView {
        if self.selected_member() is None {
            self.add_keyed(key)
        } else {
            let cur = settings::row_clamped(self.ui.fallback_detail_cursor, 2);
            let s = self.on(Ui { fallback_detail_cursor: cur, ..self.ui });
            let row = fallback_row_at(cur);
            match key.code {
                KeyCode::Up => s.on(
                    Ui {
                        fallback_armed_remove: false,
                        fallback_detail_cursor: settings::step_up(cur, 2),
                        ..s.ui
                    },
                ),
                KeyCode::Down => s.on(
                    Ui {
                        fallback_armed_remove: false,
                        fallback_detail_cursor: settings::step_down(cur, 2),
                        ..s.ui
                    },
                ),
                KeyCode::Enter => s.fallback_row_run(row),
                KeyCode::Char(c) => s.fallback_row_typed(row, c),
                _ => s,
            }
        }
    }

    #[verifier::opaque]
    pub open spec fn fallback_keyed(self, key: Key) -> AppView {
        match self.ui.fallback_focus {
            FallbackFocus::Chain => self.chain_keyed(key),
            FallbackFocus::Detail => self.detail_keyed(key),
        }
    }

    #[verifier::opaque]
    pub open spec fn threshold_edit_keyed(self, key: Key) -> AppView {
        match key.code {
            KeyCode::Esc => AppView { fallback_threshold_draft: None, ..self },
            KeyCode::Enter => match self.fallback_threshold_draft {
                Some(d) => self.asked(
                    RequestView::CommitThreshold {
                        member: self.selected_member_name(),
                        raw: d.trimmed(),
                    },
                ),
                None => self,
            },
            _ => match self.fallback_threshold_draft {
                Some(d) => AppView { fallback_threshold_draft: Some(d.keyed(key)), ..self },
                None => self,
            },
        }
    }

    /// After a typed threshold was looked at: accepted, it closes the field; a failed save
    /// is reported.
    #[verifier::opaque]
    pub open spec fn threshold_committed(self, failure: Option<Seq<char>>) -> AppView {
        let s = AppView { fallback_threshold_draft: None, ..self };
        match failure {
            Some(e) => s.toasted(ToastKind::Danger, "save failed: "@ + e),
            None => s,
        }
    }
}

/// Adds an account to the end of the chain.
pub fn add_chain_candidate(app: &mut App, name: &str)
    ensures
        final(app)@ == old(app)@.candidate_added(name@),
{
    broadcast use text::lemma_views_push;

    reveal(AppView::candidate_added);
    let seed = match app.config.find(name) {
        Some(p) => !p.facts.has_threshold,
        None => false,
    };
    if seed {
        app.ask(Request::SeedThreshold(name.to_string()));
    }
    app.config.state.fallback_chain.push(name.to_string());
    app.ask(Request::SaveState);
}

fn drop_from_chain(cfg: &mut AppConfig, name: &str)
    ensures
        final(cfg)@ == (AppConfigView {
            state: AppStateView {
                fallback_chain: chain_without(old(cfg)@.state.fallback_chain, name@),
                ..old(cfg)@.state
            },
            ..old(cfg)@
        }),
{
    broadcast use text::lemma_views_push;

    let ghost cv = text::views(cfg.state.fallback_chain@);
    let ghost keep = other_than(name@);
    let mut out: Vec<String> = Vec::new();
    let mut i: usize = 0;
    assert(cv.take(0) =~= Seq::<Seq<char>>::empty());
    proof {
        reveal(Seq::filter);
        assert(cv.take(0).filter(keep) =~= Seq::<Seq<char>>::empty());
        assert(text::views(out@) =~= Seq::<Seq<char>>::empty());
    }
    while i < cfg.state.fallback_chain.len()
        invariant
            i <= cfg.state.fallback_chain@.len(),
            cv == text::views(cfg.state.fallback_chain@),
            keep == other_than(name@),
            text::views(out@) == cv.take(i as int).filter(keep),
        decreases cfg.state.fallback_chain@.len() - i,
    {
        proof {
            let t = cv.take(i + 1);
            assert(t.drop_last() =~= cv.take(i as int));
            assert(t.last() == cfg.state.fallback_chain@[i as int]@);
            reveal(Seq::filter);
        }
        if !text::same_text(cfg.state.fallback_chain[i].as_str(), name) {
            out.push(cfg.state.fallback_chain[i].clone());
        }
        i = i + 1;
    }
    assert(cv.take(cv.len() as int) =~= cv);
    cfg.state.fallback_chain = out;
}

/// Removes the selected member from the chain.
pub fn remove_chain_member(app: &mut App)
    ensures
        final(app)@ == old(app)@.member_removed(),
{
    reveal(AppView::member_removed);
    if let Some(name) = selected_name(app) {
        drop_from_chain(&mut app.config, name.as_str());
        app.ask(Request::SaveState);
        leave_fallback_detail(app);
        let last: usize = last_row(&app.config);
        let row: usize = settings::clamp_row(app.ui.chain_cursor, last);
        let ui = Ui { chain_cursor: row, ..app.ui };
        app.set_ui(ui);
        let body = text::joined3("removed '", name.as_str(), "' from chain");
        app.toast(ToastKind::Info, body.as_str());
    }
}

/// What enter or space does on a row of the member's detail pane.
pub fn run_fallback_row(app: &mut App, row: FallbackRow)
    ensures
        final(app)@ == old(app)@.fallback_row_run(row),
{
    reveal(AppView::fallback_row_run);
    match row {
        FallbackRow::Threshold => {
            if let Some(name) = selected_name(app) {
                let seed: Option<String> = match app.config.find(name.as_str()) {
                    Some(p) => Some(p.threshold_text.clone()),
                    None => None,
                };
                if let Some(value) = seed {
                    app.fallback_threshold_draft = Some(InputState::new(value.as_str()));
                }
            }
        },
        FallbackRow::LastResort => toggle_last_resort(app),
        FallbackRow::MaxSpend => {},
        FallbackRow::Remove => {
            if app.ui.fallback_armed_remove {
                remove_chain_member(app);
            } else {
                let ui = Ui { fallback_armed_remove: true, ..app.ui };
                app.set_ui(ui);
            }
        },
    }
}

/// Steps the selected member's threshold up or down.
pub fn adjust_threshold(app: &mut App, up: bool)
    ensures
        final(app)@ == old(app)@.threshold_stepped(up),
{
    reveal(AppView::threshold_stepped);
    if let Some(name) = selected_name(app) {
        if app.config.find(name.as_str()).is_some() {
            app.ask(Request::StepThreshold { name, up });
        }
    }
}

fn choose_candidate(app: &mut App, name: &str)
    ensures
        final(app)@ == old(app)@.candidate_chosen(name@),
{
    reveal(AppView::candidate_chosen);
    add_chain_candidate(app, name);
    let body = text::joined3("added '", name, "' to chain");
    app.toast(ToastKind::Success, body.as_str());
    let rest = chain_candidates(&app.config);
    assert(text::views(rest@).len() == rest@.len());
    if rest.len() == 0 {
        leave_fallback_detail(app);
        let ui = Ui { chain_cursor: last_row(&app.config), ..app.ui };
        app.set_ui(ui);
    } else {
        let row: usize = settings::clamp_row(app.ui.fallback_detail_cursor, rest.len() - 1);
        let ui = Ui { fallback_detail_cursor: row, ..app.ui };
        app.set_ui(ui);
    }
}

/// A key on the picker of accounts to add.
pub fn handle_fallback_add_key(app: &mut App, key: Key)
    ensures
        final(app)@ == old(app)@.add_keyed(key),
{
    reveal(AppView::add_keyed);
    let names = chain_candidates(&app.config);
    assert(text::views(names@).len() == names@.len());
    if names.len() == 0 {
        leave_fallback_detail(app);
        return;
    }
    let last: usize = names.len() - 1;
    let cur: usize = settings::clamp_row(app.ui.fallback_detail_cursor, last);
    let ui = Ui { fallback_detail_cursor: cur, ..app.ui };
    app.set_ui(ui);
    match key.code {
        KeyCode::Up => {
            let ui = Ui { fallback_detail_cursor: settings::row_up(cur, last), ..app.ui };
            app.set_ui(ui);
        },
        KeyCode::Down => {
            let ui = Ui { fallback_detail_cursor: settings::row_down(cur, last), ..app.ui };
            app.set_ui(ui);
        },
        KeyCode::Enter => choose_candidate(app, names[cur].as_str()),
        KeyCode::Char(c) => {
            if c == ' ' {
                choose_candidate(app, names[cur].as_str());
            }
        },
        _ => {},
    }
}

fn type_on_fallback_row(app: &mut App, row: FallbackRow, c: char)
    ensures
        final(app)@ == old(app)@.fallback_row_typed(row, c),
{
    reveal(AppView::fallback_row_typed);
    if c == ' ' {
        run_fallback_row(app, row);
    } else if row == FallbackRow::Threshold && (c == '+' || c == '=') {
        adjust_threshold(app, true);
    } else if row == FallbackRow::Threshold && (c == '-' || c == '_') {
        adjust_threshold(app, false);
    }
}

/// A key on the detail pane.
pub fn handle_fallback_detail_key(app: &mut App, key: Key)
    ensures
        final(app)@ == old(app)@.detail_keyed(key),
{
    reveal(AppView::detail_keyed);
    if selected_chain_member(app).is_none() {
        handle_fallback_add_key(app, key);
        return;
    }
    let cur: usize = settings::clamp_row(app.ui.fallback_detail_cursor, 2);
    let ui = Ui { fallback_detail_cursor: cur, ..app.ui };
    app.set_ui(ui);
    let row = fallback_row(cur);
    match key.code {
        KeyCode::Up => {
            let ui = Ui {
                fallback_armed_remove: false,
                fallback_detail_cursor: settings::row_up(cur, 2),
                ..app.ui
            };
            app.set_ui(ui);
        },
        KeyCode::Down => {
            let ui = Ui {
                fallback_armed_remove: false,
                fallback_detail_cursor: settings::row_down(cur, 2),
                ..app.ui
            };
            app.set_ui(ui);
        },
        KeyCode::Enter => run_fallback_row(app, row),
        KeyCode::Char(c) => type_on_fallback_row(app, row, c),
        _ => {},
    }
}

/// A key on the Fallback tab.
pub fn handle_fallback_key(app: &mut App, key: Key)
    ensures
        final(app)@ == old(app)@.fallback_keyed(key),
{
    reveal(AppView::fallback_keyed);
    match app.ui.fallback_focus {
        FallbackFocus::Chain => handle_fallback_chain_key(app, key),
        FallbackFocus::Detail => handle_fallback_detail_key(app, key),
    }
}

/// A key while the threshold field is open.
pub fn handle_fallback_threshold_edit_key(app: &mut App, key: Key)
    ensures
        final(app)@ == old(app)@.threshold_edit_keyed(key),
{
    reveal(AppView::threshold_edit_keyed);
    match key.code {
        KeyCode::Esc => {
            app.fallback_threshold_draft = None;
        },
        KeyCode::Enter => {
            let raw: Option<String> = match &app.fallback_threshold_draft {
                Some(d) => Some(d.trimmed().to_string()),
                None => None,
            };
            if let Some(raw) = raw {
                let member = selected_name(app);
                app.ask(Request::CommitThreshold { member, raw });
            }
        },
        _ => {
            if let Some(input) = app.fallback_threshold_draft.as_mut() {
                settings::apply_input_edit(input, key);
            }
        },
    }
}

/// Closes the threshold field once its value was accepted.
pub fn finish_threshold_commit(app: &mut App, failure: Option<String>)
    ensures
        final(app)@ == old(app)@.threshold_committed(text::opt_view(failure)),
{
    reveal(AppView::threshold_committed);
    app.fallback_threshold_draft = None;
    if let Some(e) = failure {
        let body = text::joined("save failed: ", e.as_str());
        app.toast(ToastKind::Danger, body.as_str());
    }
}

/// Goes on after a stepped threshold was saved or not.
pub fn finish_threshold_step(app: &mut App, failure: Option<String>)
    ensures
        final(app)@ == (match failure {
            Some(e) => old(app)@.toasted(ToastKind::Danger, "save failed: "@ + e@),
            None => old(app)@,
        }),
{
    if let Some(e) = failure {
        let body = text::joined("save failed: ", e.as_str());
        app.toast(ToastKind::Danger, body.as_str());
    }
}

proof fn lemma_filter_distinct(chain: Seq<Seq<char>>, keep: spec_fn(Seq<char>) -> bool)
    requires
        chain.no_duplicates(),
    ensures
        chain.filter(keep).no_duplicates(),
    decreases chain.len(),
{
    reveal(Seq::filter);
    if chain.len() > 0 {
        let rest = chain.drop_last();
        assert(rest.no_duplicates());
        lemma_filter_distinct(rest, keep);
        let kept = rest.filter(keep);
        if kept.contains(chain.last()) {
            rest.lemma_filter_contains_rev(keep, chain.last());
            let k = choose|k: int| 0 <= k < rest.len() && rest[k] == chain.last();
            assert(chain[k] == chain[chain.len() - 1]);
        }
        assert(!kept.contains(chain.last()));
    }
}

/// An account stands in the chain once: moving a member, removing one and adding an account that
/// is not in it keep the members distinct.
pub proof fn members_stay_distinct(s: AppView, up: bool, name: Seq<char>)
    requires
        s.config.state.fallback_chain.no_duplicates(),
    ensures
        s.member_moved(up).config.state.fallback_chain.no_duplicates(),
        s.member_removed().config.state.fallback_chain.no_duplicates(),
        !s.config.in_chain(name) ==> s.candidate_added(
            name,
        ).config.state.fallback_chain.no_duplicates(),
{
    reveal(AppView::member_moved);
    reveal(AppView::member_removed);
    reveal(AppView::candidate_added);
    reveal(AppView::fallback_left);
    reveal(AppView::asked);
    reveal(AppView::toasted);
    reveal(AppView::on);
    let chain = s.config.state.fallback_chain;
    match s.selected_member_name() {
        Some(gone) => {
            lemma_filter_distinct(chain, other_than(gone));
            assert(s.member_removed().config.state.fallback_chain == chain_without(chain, gone));
        },
        None => {},
    }
    if !s.config.in_chain(name) {
        assert forall|k: int| 0 <= k < chain.len() implies chain[k] != name by {
            assert(chain.contains(chain[k]));
        }
        assert(s.candidate_added(name).config.state.fallback_chain == chain.push(name));
    }
}

/// A member that was removed is no longer in the chain, and every other one is.
pub proof fn removal_is_exact(s: AppView, other: Seq<char>)
    requires
        s.selected_member_name() is Some,
    ensures
        ({
            let name = s.selected_member_name()->0;
            let t = s.member_removed();
            &&& !t.config.in_chain(name)
            &&& other != name ==> t.config.in_chain(other) == s.config.in_chain(other)
        }),
{
    reveal(AppView::member_removed);
    reveal(AppView::fallback_left);
    reveal(AppView::asked);
    reveal(AppView::toasted);
    reveal(AppView::on);
    let name = s.selected_member_name()->0;
    let chain = s.config.state.fallback_chain;
    let keep = other_than(name);
    let out = chain.filter(keep);
    let t = s.member_removed();
    assert(t.config.state.fallback_chain == chain_without(chain, name));
    if out.contains(name) {
        let i = choose|i: int| 0 <= i < out.len() && out[i] == name;
        chain.lemma_filter_pred(keep, i);
    }
    if other != name {
        if out.contains(other) {
            chain.lemma_filter_contains_rev(keep, other);
        }
        if chain.contains(other) {
            let i = choose|i: int| 0 <= i < chain.len() && chain[i] == other;
            chain.lemma_filter_contains(keep, i);
        }
    }
}

} // verus!
