//! The bottom row: key hints for what is shown, fitted to the width.

use vstd::prelude::*;

use crate::chain;
use crate::chain::FallbackHint;
use crate::chrome::Area;
use crate::feed::StatusFocus;
use crate::forms::{ConfigFocus, ConfigRow, GlobalConfigRow, LoginSession, LoginSessionView, Modal};
use crate::nav;
use crate::paint;
use crate::paint::{Line, LineView, Role, SpanView};
use crate::plugin::PluginFocus;
use crate::settings;
use crate::setup;
use crate::state::{App, AppView};
use crate::tabs::{Tab, TokenView};
use crate::text;

verus! {

/// A key and what it does.
#[derive(Clone, Copy, Debug)]
pub struct Hint {
    pub key: &'static str,
    pub label: &'static str,
}

/// What a [`Hint`] says.
pub struct HintView {
    pub key: Seq<char>,
    pub label: Seq<char>,
}

impl View for Hint {
    type V = HintView;

    open spec fn view(&self) -> HintView {
        HintView { key: self.key@, label: self.label@ }
    }
}

/// A key and what it does.
pub open spec fn hint(key: Seq<char>, label: Seq<char>) -> HintView {
    HintView { key, label }
}

/// The views of a list of hints.
pub open spec fn hint_views(v: Seq<Hint>) -> Seq<HintView> {
    v.map_values(|h: Hint| h@)
}

fn put_hint(v: &mut Vec<Hint>, key: &'static str, label: &'static str)
    ensures
        hint_views(final(v)@) == hint_views(old(v)@).push(hint(key@, label@)),
{
    v.push(Hint { key, label });
    assert(hint_views(v@) =~= hint_views(old(v)@).push(hint(key@, label@)));
}

fn no_hints() -> (r: Vec<Hint>)
    ensures
        hint_views(r@) == Seq::<HintView>::empty(),
{
    let v: Vec<Hint> = Vec::new();
    assert(hint_views(v@) =~= Seq::<HintView>::empty());
    v
}

/// The rows of the terminal-multiplexer options.
#[derive(Clone, Copy, Debug, PartialEq, Eq, Structural)]
pub enum HerdrOption {
    PopupWidth,
    PaneTag,
    TagRefresh,
    BorderLabel,
    DelegateDot,
    DelegateRowText,
}

/// The options pane of the Plugin tab, held by the application.
#[derive(Clone, Copy, Debug, PartialEq, Eq, Structural)]
pub struct HerdrPane {
    /// The selected check is the one that has options.
    pub shown: bool,
    pub row: Option<HerdrOption>,
    /// The tag interval is being typed.
    pub editing: bool,
    /// The options file can be rewritten.
    pub writable: bool,
}

/// The hints of a context.
#[derive(Clone, Copy, Debug, PartialEq, Eq, Structural)]
pub enum HintSet {
    Overview,
    Usage,
    TokensDashboard,
    TokensModels,
    SetupAccounts,
    SetupModel,
    SetupEnvEntry,
    SetupEnvAdd,
    SetupOverrideAdd,
    SetupRow,
    Editing,
    ConfigCustom,
    ConfigCycle,
    StatusList,
    StatusDetail,
    HelpOnly,
    ChainMember,
    ChainAdd,
    ChainStepper,
    ChainToggle,
    ChainType,
    ChainRemove,
    ChainRemoveArmed,
    ChainPick,
    PluginList,
    PluginListFix,
    PluginScroll,
    PluginScrollFix,
    PluginStepper,
    PluginStepperFix,
    PluginRewrite,
    PluginRewriteFix,
    PluginInert,
    PluginInertFix,
    PluginToggle,
    PluginToggleFix,
}

impl HintSet {
    /// The hints of a context, left to right.
    pub open spec fn listed(self) -> Seq<HintView> {
        match self {
            HintSet::Overview => Seq::empty()
                .push(hint("⇧↑↓"@, "reorder"@))
                .push(hint("a"@, "actions"@))
                .push(hint("c"@, "harness"@))
                .push(hint("?"@, "help"@)),
            HintSet::Usage => Seq::empty()
                .push(hint("↑↓"@, "account"@))
                .push(hint("r"@, "refresh account"@))
                .push(hint("a"@, "actions"@))
                .push(hint("?"@, "help"@)),
            HintSet::TokensDashboard => Seq::empty()
                .push(hint("↵"@, "models"@))
                .push(hint("r"@, "reload"@))
                .push(hint("c"@, "count cache"@))
                .push(hint("t"@, "period"@))
                .push(hint("a"@, "actions"@))
                .push(hint("?"@, "help"@)),
            HintSet::TokensModels => Seq::empty()
                .push(hint("↑↓"@, "model"@))
                .push(hint("c"@, "count cache"@))
                .push(hint("t"@, "period"@))
                .push(hint("a"@, "actions"@))
                .push(hint("?"@, "help"@)),
            HintSet::SetupAccounts => Seq::empty()
                .push(hint("↑↓"@, "account"@))
                .push(hint("↵"@, "configure"@))
                .push(hint("n"@, "new"@))
                .push(hint("a"@, "actions"@))
                .push(hint("?"@, "help"@)),
            HintSet::SetupModel => Seq::empty()
                .push(hint("↑↓"@, "row"@))
                .push(hint("space"@, "cycle"@))
                .push(hint("↵"@, "custom"@))
                .push(hint("a"@, "actions"@))
                .push(hint("?"@, "help"@)),
            HintSet::SetupEnvEntry => Seq::empty()
                .push(hint("↑↓"@, "row"@))
                .push(hint("↵"@, "edit value"@))
                .push(hint("a"@, "actions"@))
                .push(hint("?"@, "help"@)),
            HintSet::SetupEnvAdd => Seq::empty()
                .push(hint("↑↓"@, "row"@))
                .push(hint("↵"@, "add env"@))
                .push(hint("a"@, "actions"@))
                .push(hint("?"@, "help"@)),
            HintSet::SetupOverrideAdd => Seq::empty()
                .push(hint("↑↓"@, "row"@))
                .push(hint("↵"@, "add override"@))
                .push(hint("?"@, "help"@)),
            HintSet::SetupRow => Seq::empty()
                .push(hint("↑↓"@, "row"@))
                .push(hint("↵"@, "edit / toggle"@))
                .push(hint("a"@, "actions"@))
                .push(hint("?"@, "help"@)),
            HintSet::Editing => Seq::empty()
                .push(hint("↵"@, "save"@))
                .push(hint("←→"@, "caret"@))
                .push(hint("esc"@, "cancel"@)),
            HintSet::ConfigCustom => Seq::empty()
                .push(hint("↑↓"@, "row"@))
                .push(hint("space"@, "cycle"@))
                .push(hint("↵"@, "custom"@))
                .push(hint("?"@, "help"@)),
            HintSet::ConfigCycle => Seq::empty()
                .push(hint("↑↓"@, "row"@))
                .push(hint("space/↵"@, "cycle / toggle"@))
                .push(hint("?"@, "help"@)),
            HintSet::StatusList => Seq::empty()
                .push(hint("↑↓"@, "incident"@))
                .push(hint("↵"@, "open"@))
                .push(hint("r"@, "refresh"@))
                .push(hint("a"@, "actions"@))
                .push(hint("?"@, "help"@)),
            HintSet::StatusDetail => Seq::empty()
                .push(hint("↑↓"@, "scroll"@))
                .push(hint("a"@, "actions"@))
                .push(hint("?"@, "help"@)),
            HintSet::HelpOnly => Seq::empty()
                .push(hint("?"@, "help"@)),
            HintSet::ChainMember => Seq::empty()
                .push(hint("↑↓"@, "move"@))
                .push(hint("⇧↑↓"@, "reorder"@))
                .push(hint("↵"@, "open"@))
                .push(hint("a"@, "actions"@))
                .push(hint("?"@, "help"@)),
            HintSet::ChainAdd => Seq::empty()
                .push(hint("↑↓"@, "move"@))
                .push(hint("↵"@, "add"@))
                .push(hint("?"@, "help"@)),
            HintSet::ChainStepper => Seq::empty()
                .push(hint("↑↓"@, "row"@))
                .push(hint("+"@, "raise"@))
                .push(hint("-"@, "lower"@))
                .push(hint("↵"@, "type"@))
                .push(hint("a"@, "actions"@))
                .push(hint("?"@, "help"@)),
            HintSet::ChainToggle => Seq::empty()
                .push(hint("↑↓"@, "row"@))
                .push(hint("space/↵"@, "toggle"@))
                .push(hint("a"@, "actions"@))
                .push(hint("?"@, "help"@)),
            HintSet::ChainType => Seq::empty()
                .push(hint("↑↓"@, "row"@))
                .push(hint("↵"@, "type"@))
                .push(hint("a"@, "actions"@))
                .push(hint("?"@, "help"@)),
            HintSet::ChainRemove => Seq::empty()
                .push(hint("↑↓"@, "row"@))
                .push(hint("↵"@, "remove"@))
                .push(hint("a"@, "actions"@))
                .push(hint("?"@, "help"@)),
            HintSet::ChainRemoveArmed => Seq::empty()
                .push(hint("↵"@, "confirm remove"@))
                .push(hint("esc"@, "cancel"@))
                .push(hint("?"@, "help"@)),
            HintSet::ChainPick => Seq::empty()
                .push(hint("↑↓"@, "pick"@))
                .push(hint("↵"@, "add"@))
                .push(hint("?"@, "help"@)),
            HintSet::PluginList => Seq::empty()
                .push(hint("↑↓"@, "row"@))
                .push(hint("↵"@, "detail"@))
                .push(hint("r"@, "refresh"@))
                .push(hint("?"@, "help"@)),
            HintSet::PluginListFix => Seq::empty()
                .push(hint("↑↓"@, "row"@))
                .push(hint("↵"@, "detail"@))
                .push(hint("r"@, "refresh"@))
                .push(hint("f"@, "fix"@))
                .push(hint("?"@, "help"@)),
            HintSet::PluginScroll => Seq::empty()
                .push(hint("↑↓"@, "scroll"@))
                .push(hint("r"@, "refresh"@))
                .push(hint("?"@, "help"@)),
            HintSet::PluginScrollFix => Seq::empty()
                .push(hint("↑↓"@, "scroll"@))
                .push(hint("r"@, "refresh"@))
                .push(hint("f"@, "fix"@))
                .push(hint("?"@, "help"@)),
            HintSet::PluginStepper => Seq::empty()
                .push(hint("↑↓"@, "row"@))
                .push(hint("+"@, "raise"@))
                .push(hint("-"@, "lower"@))
                .push(hint("↵"@, "type"@))
                .push(hint("r"@, "refresh"@))
                .push(hint("?"@, "help"@)),
            HintSet::PluginStepperFix => Seq::empty()
                .push(hint("↑↓"@, "row"@))
                .push(hint("+"@, "raise"@))
                .push(hint("-"@, "lower"@))
                .push(hint("↵"@, "type"@))
                .push(hint("r"@, "refresh"@))
                .push(hint("f"@, "fix"@))
                .push(hint("?"@, "help"@)),
            HintSet::PluginRewrite => Seq::empty()
                .push(hint("↑↓"@, "row"@))
                .push(hint("space/↵"@, "rewrite row"@))
                .push(hint("r"@, "refresh"@))
                .push(hint("?"@, "help"@)),
            HintSet::PluginRewriteFix => Seq::empty()
                .push(hint("↑↓"@, "row"@))
                .push(hint("space/↵"@, "rewrite row"@))
                .push(hint("r"@, "refresh"@))
                .push(hint("f"@, "fix"@))
                .push(hint("?"@, "help"@)),
            HintSet::PluginInert => Seq::empty()
                .push(hint("↑↓"@, "row"@))
                .push(hint("r"@, "refresh"@))
                .push(hint("?"@, "help"@)),
            HintSet::PluginInertFix => Seq::empty()
                .push(hint("↑↓"@, "row"@))
                .push(hint("r"@, "refresh"@))
                .push(hint("f"@, "fix"@))
                .push(hint("?"@, "help"@)),
            HintSet::PluginToggle => Seq::empty()
                .push(hint("↑↓"@, "row"@))
                .push(hint("space/↵"@, "cycle / toggle"@))
                .push(hint("r"@, "refresh"@))
                .push(hint("?"@, "help"@)),
            HintSet::PluginToggleFix => Seq::empty()
                .push(hint("↑↓"@, "row"@))
                .push(hint("space/↵"@, "cycle / toggle"@))
                .push(hint("r"@, "refresh"@))
                .push(hint("f"@, "fix"@))
                .push(hint("?"@, "help"@)),
        }
    }

    /// The hints of a context, left to right.
    pub fn hints(self) -> (r: Vec<Hint>)
        ensures
            hint_views(r@) == self.listed(),
    {
        let mut v = no_hints();
        match self {
            HintSet::Overview => {
                put_hint(&mut v, "⇧↑↓", "reorder");
                put_hint(&mut v, "a", "actions");
                put_hint(&mut v, "c", "harness");
                put_hint(&mut v, "?", "help");
            },
            HintSet::Usage => {
                put_hint(&mut v, "↑↓", "account");
                put_hint(&mut v, "r", "refresh account");
                put_hint(&mut v, "a", "actions");
                put_hint(&mut v, "?", "help");
            },
            HintSet::TokensDashboard => {
                put_hint(&mut v, "↵", "models");
                put_hint(&mut v, "r", "reload");
                put_hint(&mut v, "c", "count cache");
                put_hint(&mut v, "t", "period");
                put_hint(&mut v, "a", "actions");
                put_hint(&mut v, "?", "help");
            },
            HintSet::TokensModels => {
                put_hint(&mut v, "↑↓", "model");
                put_hint(&mut v, "c", "count cache");
                put_hint(&mut v, "t", "period");
                put_hint(&mut v, "a", "actions");
                put_hint(&mut v, "?", "help");
            },
            HintSet::SetupAccounts => {
                put_hint(&mut v, "↑↓", "account");
                put_hint(&mut v, "↵", "configure");
                put_hint(&mut v, "n", "new");
                put_hint(&mut v, "a", "actions");
                put_hint(&mut v, "?", "help");
            },
            HintSet::SetupModel => {
                put_hint(&mut v, "↑↓", "row");
                put_hint(&mut v, "space", "cycle");
                put_hint(&mut v, "↵", "custom");
                put_hint(&mut v, "a", "actions");
                put_hint(&mut v, "?", "help");
            },
            HintSet::SetupEnvEntry => {
                put_hint(&mut v, "↑↓", "row");
                put_hint(&mut v, "↵", "edit value");
                put_hint(&mut v, "a", "actions");
                put_hint(&mut v, "?", "help");
            },
            HintSet::SetupEnvAdd => {
                put_hint(&mut v, "↑↓", "row");
                put_hint(&mut v, "↵", "add env");
                put_hint(&mut v, "a", "actions");
                put_hint(&mut v, "?", "help");
            },
            HintSet::SetupOverrideAdd => {
                put_hint(&mut v, "↑↓", "row");
                put_hint(&mut v, "↵", "add override");
                put_hint(&mut v, "?", "help");
            },
            HintSet::SetupRow => {
                put_hint(&mut v, "↑↓", "row");
                put_hint(&mut v, "↵", "edit / toggle");
                put_hint(&mut v, "a", "actions");
                put_hint(&mut v, "?", "help");
            },
            HintSet::Editing => {
                put_hint(&mut v, "↵", "save");
                put_hint(&mut v, "←→", "caret");
                put_hint(&mut v, "esc", "cancel");
            },
            HintSet::ConfigCustom => {
                put_hint(&mut v, "↑↓", "row");
                put_hint(&mut v, "space", "cycle");
                put_hint(&mut v, "↵", "custom");
                put_hint(&mut v, "?", "help");
            },
            HintSet::ConfigCycle => {
                put_hint(&mut v, "↑↓", "row");
                put_hint(&mut v, "space/↵", "cycle / toggle");
                put_hint(&mut v, "?", "help");
            },
            HintSet::StatusList => {
                put_hint(&mut v, "↑↓", "incident");
                put_hint(&mut v, "↵", "open");
                put_hint(&mut v, "r", "refresh");
                put_hint(&mut v, "a", "actions");
                put_hint(&mut v, "?", "help");
            },
            HintSet::StatusDetail => {
                put_hint(&mut v, "↑↓", "scroll");
                put_hint(&mut v, "a", "actions");
                put_hint(&mut v, "?", "help");
            },
            HintSet::HelpOnly => {
                put_hint(&mut v, "?", "help");
            },
            HintSet::ChainMember => {
                put_hint(&mut v, "↑↓", "move");
                put_hint(&mut v, "⇧↑↓", "reorder");
                put_hint(&mut v, "↵", "open");
                put_hint(&mut v, "a", "actions");
                put_hint(&mut v, "?", "help");
            },
            HintSet::ChainAdd => {
                put_hint(&mut v, "↑↓", "move");
                put_hint(&mut v, "↵", "add");
                put_hint(&mut v, "?", "help");
            },
            HintSet::ChainStepper => {
                put_hint(&mut v, "↑↓", "row");
                put_hint(&mut v, "+", "raise");
                put_hint(&mut v, "-", "lower");
                put_hint(&mut v, "↵", "type");
                put_hint(&mut v, "a", "actions");
                put_hint(&mut v, "?", "help");
            },
            HintSet::ChainToggle => {
                put_hint(&mut v, "↑↓", "row");
                put_hint(&mut v, "space/↵", "toggle");
                put_hint(&mut v, "a", "actions");
                put_hint(&mut v, "?", "help");
            },
            HintSet::ChainType => {
                put_hint(&mut v, "↑↓", "row");
                put_hint(&mut v, "↵", "type");
                put_hint(&mut v, "a", "actions");
                put_hint(&mut v, "?", "help");
            },
            HintSet::ChainRemove => {
                put_hint(&mut v, "↑↓", "row");
                put_hint(&mut v, "↵", "remove");
                put_hint(&mut v, "a", "actions");
                put_hint(&mut v, "?", "help");
            },
            HintSet::ChainRemoveArmed => {
                put_hint(&mut v, "↵", "confirm remove");
                put_hint(&mut v, "esc", "cancel");
                put_hint(&mut v, "?", "help");
            },
            HintSet::ChainPick => {
                put_hint(&mut v, "↑↓", "pick");
                put_hint(&mut v, "↵", "add");
                put_hint(&mut v, "?", "help");
            },
            HintSet::PluginList => {
                put_hint(&mut v, "↑↓", "row");
                put_hint(&mut v, "↵", "detail");
                put_hint(&mut v, "r", "refresh");
                put_hint(&mut v, "?", "help");
            },
            HintSet::PluginListFix => {
                put_hint(&mut v, "↑↓", "row");
                put_hint(&mut v, "↵", "detail");
                put_hint(&mut v, "r", "refresh");
                put_hint(&mut v, "f", "fix");
                put_hint(&mut v, "?", "help");
            },
            HintSet::PluginScroll => {
                put_hint(&mut v, "↑↓", "scroll");
                put_hint(&mut v, "r", "refresh");
                put_hint(&mut v, "?", "help");
            },
            HintSet::PluginScrollFix => {
                put_hint(&mut v, "↑↓", "scroll");
                put_hint(&mut v, "r", "refresh");
                put_hint(&mut v, "f", "fix");
                put_hint(&mut v, "?", "help");
            },
            HintSet::PluginStepper => {
                put_hint(&mut v, "↑↓", "row");
                put_hint(&mut v, "+", "raise");
                put_hint(&mut v, "-", "lower");
                put_hint(&mut v, "↵", "type");
                put_hint(&mut v, "r", "refresh");
                put_hint(&mut v, "?", "help");
            },
            HintSet::PluginStepperFix => {
                put_hint(&mut v, "↑↓", "row");
                put_hint(&mut v, "+", "raise");
                put_hint(&mut v, "-", "lower");
                put_hint(&mut v, "↵", "type");
                put_hint(&mut v, "r", "refresh");
                put_hint(&mut v, "f", "fix");
                put_hint(&mut v, "?", "help");
            },
            HintSet::PluginRewrite => {
                put_hint(&mut v, "↑↓", "row");
                put_hint(&mut v, "space/↵", "rewrite row");
                put_hint(&mut v, "r", "refresh");
                put_hint(&mut v, "?", "help");
            },
            HintSet::PluginRewriteFix => {
                put_hint(&mut v, "↑↓", "row");
                put_hint(&mut v, "space/↵", "rewrite row");
                put_hint(&mut v, "r", "refresh");
                put_hint(&mut v, "f", "fix");
                put_hint(&mut v, "?", "help");
            },
            HintSet::PluginInert => {
                put_hint(&mut v, "↑↓", "row");
                put_hint(&mut v, "r", "refresh");
                put_hint(&mut v, "?", "help");
            },
            HintSet::PluginInertFix => {
                put_hint(&mut v, "↑↓", "row");
                put_hint(&mut v, "r", "refresh");
                put_hint(&mut v, "f", "fix");
                put_hint(&mut v, "?", "help");
            },
            HintSet::PluginToggle => {
                put_hint(&mut v, "↑↓", "row");
                put_hint(&mut v, "space/↵", "cycle / toggle");
                put_hint(&mut v, "r", "refresh");
                put_hint(&mut v, "?", "help");
            },
            HintSet::PluginToggleFix => {
                put_hint(&mut v, "↑↓", "row");
                put_hint(&mut v, "space/↵", "cycle / toggle");
                put_hint(&mut v, "r", "refresh");
                put_hint(&mut v, "f", "fix");
                put_hint(&mut v, "?", "help");
            },
        }
        v
    }
}

/// The hints of a pane with and without a fix on offer.
#[verifier::allow_in_spec]
fn with_fix(fix: bool, plain: HintSet, fixing: HintSet) -> (r: HintSet)
    returns
        (if fix {
            fixing
        } else {
            plain
        }),
{
    if fix {
        fixing
    } else {
        plain
    }
}

/// The hints of the Plugin detail pane: the tag editor owns the keyboard, an option row names its
/// own keys, and a row that cannot act names none.
pub open spec fn plugin_detail_set(pane: HerdrPane, fix: bool) -> HintSet {
    if pane.editing {
        HintSet::Editing
    } else if !pane.shown {
        if fix {
            HintSet::PluginScrollFix
        } else {
            HintSet::PluginScroll
        }
    } else if pane.row == Some(HerdrOption::TagRefresh) {
        if fix {
            HintSet::PluginStepperFix
        } else {
            HintSet::PluginStepper
        }
    } else if pane.row == Some(HerdrOption::DelegateRowText) && pane.writable {
        if fix {
            HintSet::PluginRewriteFix
        } else {
            HintSet::PluginRewrite
        }
    } else if pane.row == Some(HerdrOption::DelegateRowText) {
        if fix {
            HintSet::PluginInertFix
        } else {
            HintSet::PluginInert
        }
    } else if fix {
        HintSet::PluginToggleFix
    } else {
        HintSet::PluginToggle
    }
}

/// Whether a key is among the hints.
pub open spec fn hints_key(v: Seq<HintView>, key: Seq<char>) -> bool {
    exists|i: int| 0 <= i < v.len() && #[trigger] v[i].key == key
}

/// The key that fixes is hinted at where there is a fix, and nowhere else.
pub proof fn fixes_are_hinted_where_offered(pane: HerdrPane, fix: bool)
    requires
        !pane.editing,
    ensures
        hints_key(plugin_detail_set(pane, fix).listed(), "f"@) <==> fix,
{
    reveal_strlit("f");
    reveal_strlit("↑↓");
    reveal_strlit("+");
    reveal_strlit("-");
    reveal_strlit("↵");
    reveal_strlit("r");
    reveal_strlit("?");
    reveal_strlit("space/↵");
    let v = plugin_detail_set(pane, fix).listed();
    assert("f"@[0] == 'f' && "f"@.len() == 1);
    assert("+"@[0] == '+' && "-"@[0] == '-' && "↵"@[0] == '↵' && "r"@[0] == 'r' && "?"@[0] == '?');
    if fix {
        assert(v[v.len() - 2].key == "f"@);
    }
}

/// The hints of the Plugin detail pane.
pub fn plugin_detail_hints(pane: HerdrPane, fix: bool) -> (r: HintSet)
    ensures
        r == plugin_detail_set(pane, fix),
{
    if pane.editing {
        return HintSet::Editing;
    }
    if !pane.shown {
        return with_fix(fix, HintSet::PluginScroll, HintSet::PluginScrollFix);
    }
    match pane.row {
        Some(HerdrOption::TagRefresh) => with_fix(
            fix,
            HintSet::PluginStepper,
            HintSet::PluginStepperFix,
        ),
        Some(HerdrOption::DelegateRowText) => if pane.writable {
            with_fix(fix, HintSet::PluginRewrite, HintSet::PluginRewriteFix)
        } else {
            with_fix(fix, HintSet::PluginInert, HintSet::PluginInertFix)
        },
        _ => with_fix(fix, HintSet::PluginToggle, HintSet::PluginToggleFix),
    }
}

/// The hints of the Fallback tab.
pub open spec fn fallback_set(h: FallbackHint) -> HintSet {
    match h {
        FallbackHint::Empty => HintSet::HelpOnly,
        FallbackHint::ChainMember => HintSet::ChainMember,
        FallbackHint::ChainAdd => HintSet::ChainAdd,
        FallbackHint::DetailThreshold => HintSet::ChainStepper,
        FallbackHint::DetailWeeklyAt => HintSet::ChainStepper,
        FallbackHint::DetailThresholdEdit => HintSet::Editing,
        FallbackHint::DetailWeeklyAtEdit => HintSet::Editing,
        FallbackHint::DetailMaxSpendEdit => HintSet::Editing,
        FallbackHint::DetailCheckWeekly => HintSet::ChainToggle,
        FallbackHint::DetailCheckScoped => HintSet::ChainToggle,
        FallbackHint::DetailLastResort => HintSet::ChainToggle,
        FallbackHint::DetailPreferred => HintSet::ChainToggle,
        FallbackHint::DetailMaxSpend => HintSet::ChainType,
        FallbackHint::DetailRemove => HintSet::ChainRemove,
        FallbackHint::DetailRemoveArmed => HintSet::ChainRemoveArmed,
        FallbackHint::DetailAdd => HintSet::ChainPick,
    }
}

/// The hints of the Fallback tab.
pub fn fallback_hints(h: FallbackHint) -> (r: HintSet)
    ensures
        r == fallback_set(h),
{
    match h {
        FallbackHint::Empty => HintSet::HelpOnly,
        FallbackHint::ChainMember => HintSet::ChainMember,
        FallbackHint::ChainAdd => HintSet::ChainAdd,
        FallbackHint::DetailThreshold | FallbackHint::DetailWeeklyAt => HintSet::ChainStepper,
        FallbackHint::DetailThresholdEdit
        | FallbackHint::DetailWeeklyAtEdit
        | FallbackHint::DetailMaxSpendEdit => HintSet::Editing,
        FallbackHint::DetailCheckWeekly
        | FallbackHint::DetailCheckScoped
        | FallbackHint::DetailLastResort
        | FallbackHint::DetailPreferred => HintSet::ChainToggle,
        FallbackHint::DetailMaxSpend => HintSet::ChainType,
        FallbackHint::DetailRemove => HintSet::ChainRemove,
        FallbackHint::DetailRemoveArmed => HintSet::ChainRemoveArmed,
        FallbackHint::DetailAdd => HintSet::ChainPick,
    }
}

impl AppView {
    /// The hints of the Setup detail pane: they follow the row under the cursor.
    pub open spec fn setup_set(self) -> HintSet {
        let rows = self.config_rows();
        let at = self.ui.config_action_cursor as int;
        if at < rows.len() {
            match rows[at] {
                ConfigRow::Model => HintSet::SetupModel,
                ConfigRow::EnvEntry(_) => HintSet::SetupEnvEntry,
                ConfigRow::EnvAdd => HintSet::SetupEnvAdd,
                ConfigRow::ModelOverrideAdd => HintSet::SetupOverrideAdd,
                _ => HintSet::SetupRow,
            }
        } else {
            HintSet::SetupRow
        }
    }

    /// The hints of the Config tab.
    pub open spec fn config_set(self) -> HintSet {
        if self.refresh_interval_draft is Some || self.weekly_threshold_draft is Some {
            HintSet::Editing
        } else {
            let at = self.ui.global_config_cursor as int;
            if at < settings::GLOBAL_ROW_COUNT && (match settings::global_row_at(at) {
                GlobalConfigRow::RefreshInterval => true,
                GlobalConfigRow::ContextNudge => true,
                GlobalConfigRow::WeeklyThreshold => true,
                _ => false,
            }) {
                HintSet::ConfigCustom
            } else {
                HintSet::ConfigCycle
            }
        }
    }

    /// The hints of what is shown.
    pub open spec fn hint_set(self, pane: HerdrPane) -> HintSet {
        match self.ui.tab {
            Tab::Overview => HintSet::Overview,
            Tab::Usage => HintSet::Usage,
            Tab::Tokens => match self.ui.tokens.view {
                TokenView::Dashboard => HintSet::TokensDashboard,
                TokenView::Models => HintSet::TokensModels,
            },
            Tab::Setup => match self.ui.config_focus {
                ConfigFocus::Profiles => HintSet::SetupAccounts,
                ConfigFocus::Actions => self.setup_set(),
            },
            Tab::Config => self.config_set(),
            Tab::Status => match self.status.focus {
                StatusFocus::List => HintSet::StatusList,
                StatusFocus::Detail => HintSet::StatusDetail,
            },
            Tab::Plugin => match self.plugin.focus {
                PluginFocus::List => if self.plugin.offered_fix() is Some {
                    HintSet::PluginListFix
                } else {
                    HintSet::PluginList
                },
                PluginFocus::Detail => plugin_detail_set(
                    pane,
                    self.plugin.offered_fix() is Some,
                ),
            },
            Tab::Fallback => fallback_set(self.fallback_hint()),
        }
    }

    /// Whether `q` is listed: not while a value of the chain, the refresh interval or an option of
    /// the multiplexer is typed, and not while a removal is armed.
    pub open spec fn quit_key_listed(self, pane: HerdrPane) -> bool {
        &&& self.ui.tab == Tab::Fallback ==> {
            let h = self.fallback_hint();
            &&& h != FallbackHint::DetailThresholdEdit
            &&& h != FallbackHint::DetailWeeklyAtEdit
            &&& h != FallbackHint::DetailMaxSpendEdit
            &&& h != FallbackHint::DetailRemoveArmed
        }
        &&& self.ui.tab == Tab::Config ==> self.refresh_interval_draft is None
        &&& self.ui.tab == Tab::Plugin ==> !pane.editing
    }

    /// Every hint of what is shown, before the row is fitted.
    pub open spec fn all_hints(self, pane: HerdrPane) -> Seq<HintView> {
        let base = Seq::empty().push(hint("←→"@, "tabs"@)) + self.hint_set(pane).listed();
        let exit = if self.quit_key_listed(pane) {
            base.push(
                hint(
                    "q"@,
                    if self.sub_focus() {
                        "back"@
                    } else {
                        "quit"@
                    },
                ),
            )
        } else {
            base
        };
        if self.menu_actions().len() == 0 {
            without_key(exit, "a"@)
        } else {
            exit
        }
    }
}

/// The hints whose key is another one.
pub open spec fn without_key(v: Seq<HintView>, key: Seq<char>) -> Seq<HintView>
    decreases v.len(),
{
    if v.len() == 0 {
        Seq::empty()
    } else {
        let rest = without_key(v.drop_last(), key);
        if v.last().key == key {
            rest
        } else {
            rest.push(v.last())
        }
    }
}

fn setup_hints(app: &App) -> (r: HintSet)
    ensures
        r == app@.setup_set(),
{
    let rows = setup::config_rows(app);
    let at: usize = app.ui.config_action_cursor;
    if at < rows.len() {
        match rows[at] {
            ConfigRow::Model => HintSet::SetupModel,
            ConfigRow::EnvEntry(_) => HintSet::SetupEnvEntry,
            ConfigRow::EnvAdd => HintSet::SetupEnvAdd,
            ConfigRow::ModelOverrideAdd => HintSet::SetupOverrideAdd,
            _ => HintSet::SetupRow,
        }
    } else {
        HintSet::SetupRow
    }
}

fn config_hints(app: &App) -> (r: HintSet)
    ensures
        r == app@.config_set(),
{
    if app.refresh_interval_draft.is_some() || app.weekly_threshold_draft.is_some() {
        return HintSet::Editing;
    }
    let at: usize = app.ui.global_config_cursor;
    if at < settings::GLOBAL_ROW_COUNT {
        match settings::global_config_row(at) {
            GlobalConfigRow::RefreshInterval
            | GlobalConfigRow::ContextNudge
            | GlobalConfigRow::WeeklyThreshold => HintSet::ConfigCustom,
            _ => HintSet::ConfigCycle,
        }
    } else {
        HintSet::ConfigCycle
    }
}

/// The hints of the Plugin tab: a fix is named only where one is on offer.
pub fn plugin_hints(app: &App, pane: HerdrPane) -> (r: HintSet)
    ensures
        r == (match app@.plugin.focus {
            PluginFocus::List => if app@.plugin.offered_fix() is Some {
                HintSet::PluginListFix
            } else {
                HintSet::PluginList
            },
            PluginFocus::Detail => plugin_detail_set(pane, app@.plugin.offered_fix() is Some),
        }),
{
    let fix = app.plugin.selected_fix().is_some();
    match app.plugin.focus {
        PluginFocus::List => with_fix(fix, HintSet::PluginList, HintSet::PluginListFix),
        PluginFocus::Detail => plugin_detail_hints(pane, fix),
    }
}

/// The hints of what is shown.
pub fn hint_set(app: &App, pane: HerdrPane) -> (r: HintSet)
    ensures
        r == app@.hint_set(pane),
{
    match app.ui.tab {
        Tab::Overview => HintSet::Overview,
        Tab::Usage => HintSet::Usage,
        Tab::Tokens => match app.ui.tokens.view {
            TokenView::Dashboard => HintSet::TokensDashboard,
            TokenView::Models => HintSet::TokensModels,
        },
        Tab::Setup => match app.ui.config_focus {
            ConfigFocus::Profiles => HintSet::SetupAccounts,
            ConfigFocus::Actions => setup_hints(app),
        },
        Tab::Config => config_hints(app),
        Tab::Status => match app.status.focus {
            StatusFocus::List => HintSet::StatusList,
            StatusFocus::Detail => HintSet::StatusDetail,
        },
        Tab::Plugin => plugin_hints(app, pane),
        Tab::Fallback => fallback_hints(chain::fallback_hint(app)),
    }
}

fn quit_key_listed(app: &App, pane: HerdrPane) -> (r: bool)
    ensures
        r == app@.quit_key_listed(pane),
{
    match app.ui.tab {
        Tab::Fallback => match chain::fallback_hint(app) {
            FallbackHint::DetailThresholdEdit
            | FallbackHint::DetailWeeklyAtEdit
            | FallbackHint::DetailMaxSpendEdit
            | FallbackHint::DetailRemoveArmed => false,
            _ => true,
        },
        Tab::Config => app.refresh_interval_draft.is_none(),
        Tab::Plugin => !pane.editing,
        _ => true,
    }
}

fn drop_key(v: &Vec<Hint>, key: &str) -> (r: Vec<Hint>)
    ensures
        hint_views(r@) == without_key(hint_views(v@), key@),
{
    let mut out = no_hints();
    let mut i: usize = 0;
    let ghost all = hint_views(v@);
    assert(all.take(0) =~= Seq::empty());
    while i < v.len()
        invariant
            i <= v@.len(),
            all == hint_views(v@),
            hint_views(out@) == without_key(all.take(i as int), key@),
        decreases v@.len() - i,
    {
        let h = v[i];
        proof {
            assert(all.take(i + 1).drop_last() =~= all.take(i as int));
            assert(all.take(i + 1).last() == h@);
        }
        if !text::same_text(h.key, key) {
            put_hint(&mut out, h.key, h.label);
        }
        i = i + 1;
    }
    assert(all.take(i as int) =~= all);
    out
}

/// Every hint of what is shown, before the row is fitted.
pub fn all_hints(app: &App, pane: HerdrPane) -> (r: Vec<Hint>)
    ensures
        hint_views(r@) == app@.all_hints(pane),
{
    let mut v = no_hints();
    put_hint(&mut v, "←→", "tabs");
    let tail = hint_set(app, pane).hints();
    let ghost start = hint_views(v@);
    let ghost listed = hint_views(tail@);
    let mut i: usize = 0;
    assert(start + listed.take(0) =~= start);
    while i < tail.len()
        invariant
            i <= tail@.len(),
            listed == hint_views(tail@),
            hint_views(v@) == start + listed.take(i as int),
        decreases tail@.len() - i,
    {
        put_hint(&mut v, tail[i].key, tail[i].label);
        i = i + 1;
        assert(hint_views(v@) =~= start + listed.take(i as int));
    }
    assert(listed.take(i as int) =~= listed);
    if quit_key_listed(app, pane) {
        if app.has_sub_focus() {
            put_hint(&mut v, "q", "back");
        } else {
            put_hint(&mut v, "q", "quit");
        }
    }
    if nav::menu_is_empty(app) {
        drop_key(&v, "a")
    } else {
        v
    }
}

/// Cells of a hint.
pub open spec fn hint_cells(h: HintView) -> int {
    h.key.len() as int + 1 + h.label.len() as int
}

/// Cells of a row of hints, three blanks between two.
pub open spec fn row_cells(v: Seq<HintView>) -> int
    decreases v.len(),
{
    if v.len() == 0 {
        0
    } else {
        row_cells(v.drop_last()) + hint_cells(v.last()) + if v.len() > 1 {
            3int
        } else {
            0
        }
    }
}

/// Hints that are never dropped: moving between tabs, help, the ways out, and armed confirms.
pub open spec fn is_essential(h: HintView) -> bool {
    h.key == "←→"@ || h.key == "?"@ || h.key == "q"@ || h.key == "esc"@ || text::begins_with(
        h.label,
        "confirm"@,
    )
}

/// The rightmost of the first `n` hints that may be dropped.
pub open spec fn last_loose(v: Seq<HintView>, n: nat) -> Option<int>
    decreases n,
{
    if n == 0 {
        None
    } else if !is_essential(v[n - 1]) {
        Some(n - 1)
    } else {
        last_loose(v, (n - 1) as nat)
    }
}

proof fn lemma_last_loose(v: Seq<HintView>, n: nat)
    requires
        n <= v.len(),
    ensures
        match last_loose(v, n) {
            Some(i) => 0 <= i < n && !is_essential(v[i]),
            None => forall|i: int| 0 <= i < n ==> is_essential(#[trigger] v[i]),
        },
    decreases n,
{
    if n > 0 && is_essential(v[n - 1]) {
        lemma_last_loose(v, (n - 1) as nat);
    }
}

/// The hints that fit: while the row is too wide, the rightmost one that may be dropped goes.
pub open spec fn fitted(v: Seq<HintView>, width: int) -> Seq<HintView>
    decreases v.len(),
    via fitted_decreases
{
    if row_cells(v) <= width {
        v
    } else {
        match last_loose(v, v.len()) {
            Some(i) => fitted(v.remove(i), width),
            None => v,
        }
    }
}

#[via_fn]
proof fn fitted_decreases(v: Seq<HintView>, width: int) {
    lemma_last_loose(v, v.len());
}

fn essential(h: &Hint) -> (r: bool)
    ensures
        r == is_essential(h@),
{
    text::same_text(h.key, "←→") || text::same_text(h.key, "?") || text::same_text(h.key, "q")
        || text::same_text(h.key, "esc") || text::starts_with_text(h.label, "confirm")
}

/// Whether a row of hints is wider than `width`.
fn too_wide(v: &Vec<Hint>, width: u16) -> (r: bool)
    ensures
        r == (row_cells(hint_views(v@)) > width),
{
    let mut total: usize = 0;
    let mut i: usize = 0;
    let ghost all = hint_views(v@);
    assert(all.take(0) =~= Seq::empty());
    while i < v.len()
        invariant
            i <= v@.len(),
            all == hint_views(v@),
            total == text::min_int(row_cells(all.take(i as int)), usize::MAX as int),
        decreases v@.len() - i,
    {
        let h = v[i];
        proof {
            assert(all.take(i + 1).drop_last() =~= all.take(i as int));
            assert(all.take(i + 1).last() == h@);
        }
        let gap: usize = if i > 0 {
            4
        } else {
            1
        };
        total = total.saturating_add(h.key.unicode_len()).saturating_add(gap).saturating_add(
            h.label.unicode_len(),
        );
        i = i + 1;
    }
    assert(all.take(i as int) =~= all);
    total > width as usize
}

/// The hints that fit.
pub fn fit_hints(hints: Vec<Hint>, width: u16) -> (r: Vec<Hint>)
    ensures
        hint_views(r@) == fitted(hint_views(hints@), width as int),
{
    let mut v = hints;
    let ghost start = hint_views(v@);
    while too_wide(&v, width)
        invariant
            start == hint_views(hints@),
            fitted(hint_views(v@), width as int) == fitted(start, width as int),
        decreases v@.len(),
    {
        let ghost all = hint_views(v@);
        let mut n: usize = v.len();
        while n > 0 && essential(&v[n - 1])
            invariant
                n <= v@.len(),
                all == hint_views(v@),
                last_loose(all, n as nat) == last_loose(all, all.len()),
            decreases n,
        {
            assert(all[n - 1] == v@[n - 1]@);
            n = n - 1;
        }
        if n == 0 {
            return v;
        }
        assert(all[n - 1] == v@[n - 1]@);
        v.remove(n - 1);
        assert(hint_views(v@) =~= all.remove(n - 1));
    }
    v
}

/// The essential hints, in order.
pub open spec fn essentials(v: Seq<HintView>) -> Seq<HintView>
    decreases v.len(),
{
    if v.len() == 0 {
        Seq::empty()
    } else if is_essential(v.last()) {
        essentials(v.drop_last()).push(v.last())
    } else {
        essentials(v.drop_last())
    }
}

proof fn lemma_essentials_remove(v: Seq<HintView>, i: int)
    requires
        0 <= i < v.len(),
        !is_essential(v[i]),
    ensures
        essentials(v.remove(i)) == essentials(v),
    decreases v.len(),
{
    if i == v.len() - 1 {
        assert(v.remove(i) =~= v.drop_last());
    } else {
        lemma_essentials_remove(v.drop_last(), i);
        assert(v.remove(i).drop_last() =~= v.drop_last().remove(i));
        assert(v.remove(i).last() == v.last());
    }
}

/// Fitting the row keeps every essential hint in its place, and what is left is no wider than
/// the row unless essential hints are all that is left.
pub proof fn fitting_keeps_the_essentials(v: Seq<HintView>, width: int)
    ensures
        essentials(fitted(v, width)) == essentials(v),
        row_cells(fitted(v, width)) <= width || fitted(v, width) == essentials(v),
        row_cells(v) <= width ==> fitted(v, width) == v,
    decreases v.len(),
{
    if row_cells(v) > width {
        lemma_last_loose(v, v.len());
        match last_loose(v, v.len()) {
            Some(i) => {
                lemma_essentials_remove(v, i);
                fitting_keeps_the_essentials(v.remove(i), width);
            },
            None => {
                lemma_all_essential(v);
            },
        }
    }
}

proof fn lemma_all_essential(v: Seq<HintView>)
    requires
        forall|i: int| 0 <= i < v.len() ==> is_essential(#[trigger] v[i]),
    ensures
        essentials(v) == v,
    decreases v.len(),
{
    if v.len() > 0 {
        assert forall|i: int| 0 <= i < v.drop_last().len() implies is_essential(
            #[trigger] v.drop_last()[i],
        ) by {
            assert(v.drop_last()[i] == v[i]);
        }
        lemma_all_essential(v.drop_last());
        assert(v.drop_last().push(v.last()) =~= v);
    }
}

/// The spans of the first `n` hints.
pub open spec fn hint_spans(v: Seq<HintView>, n: nat) -> Seq<SpanView>
    decreases n,
{
    if n == 0 {
        Seq::empty()
    } else {
        let before = hint_spans(v, (n - 1) as nat);
        let gapped = if n > 1 {
            before.push(paint::span_of("   "@, paint::ink(Role::Faint)))
        } else {
            before
        };
        gapped.push(paint::span_of(v[n - 1].key, paint::ink(Role::Accent).strong())).push(
            paint::raw_of(" "@),
        ).push(paint::span_of(v[n - 1].label, paint::ink(Role::Dim)))
    }
}

/// A row of hints.
pub fn hint_line(v: &Vec<Hint>) -> (r: Line)
    ensures
        r@ == paint::line_of(hint_spans(hint_views(v@), v@.len())),
{
    let mut spans = paint::no_spans();
    let ghost all = hint_views(v@);
    let mut i: usize = 0;
    while i < v.len()
        invariant
            i <= v@.len(),
            all == hint_views(v@),
            paint::spans_view(spans@) == hint_spans(all, i as nat),
        decreases v@.len() - i,
    {
        let h = v[i];
        assert(all[i as int] == h@);
        if i > 0 {
            paint::put(&mut spans, "   ", paint::ink(Role::Faint));
        }
        paint::put(&mut spans, h.key, paint::ink(Role::Accent).strong());
        paint::put_raw(&mut spans, " ");
        paint::put(&mut spans, h.label, paint::ink(Role::Dim));
        i = i + 1;
    }
    paint::line(spans)
}

/// What the keys do while a login is in flight.
#[derive(Clone, Copy, Debug, PartialEq, Eq, Structural)]
pub enum LoginKeys {
    /// A dialog is open and `q` steps out of it.
    Back,
    /// The login dialog is collapsed and `esc` cancels the login.
    Cancel,
    /// The code field is open: enter submits, `esc` closes it.
    Paste,
}

/// The line of a login in flight.
pub open spec fn login_text(session: LoginSessionView, keys: LoginKeys, frame: Seq<char>) ->
    LineView {
    let strong = paint::ink(Role::Accent).strong();
    let dim = paint::ink(Role::Dim);
    let head = Seq::empty().push(paint::span_of(frame + " "@, paint::ink(Role::Accent))).push(
        paint::span_of("logging in '"@ + session.name + "'"@, dim),
    );
    paint::line_of(
        match keys {
            LoginKeys::Back => head.push(paint::span_of("   q "@, strong)).push(
                paint::span_of("back"@, dim),
            ),
            LoginKeys::Cancel => head.push(paint::span_of("   esc "@, strong)).push(
                paint::span_of("cancel"@, dim),
            ),
            LoginKeys::Paste => head.push(paint::span_of("   ↵ "@, strong)).push(
                paint::span_of("submit"@, dim),
            ).push(paint::span_of("   esc "@, strong)).push(paint::span_of("back"@, dim)),
        },
    )
}

/// The line of a login in flight.
pub fn login_line(session: &LoginSession, keys: LoginKeys, frame: &str) -> (r: Line)
    ensures
        r@ == login_text(session@, keys, frame@),
{
    let strong = paint::ink(Role::Accent).strong();
    let dim = paint::ink(Role::Dim);
    let mut v = paint::no_spans();
    let f = text::joined(frame, " ");
    paint::put(&mut v, &f, paint::ink(Role::Accent));
    let t = text::joined3("logging in '", &session.name, "'");
    paint::put(&mut v, &t, dim);
    match keys {
        LoginKeys::Back => {
            paint::put(&mut v, "   q ", strong);
            paint::put(&mut v, "back", dim);
        },
        LoginKeys::Cancel => {
            paint::put(&mut v, "   esc ", strong);
            paint::put(&mut v, "cancel", dim);
        },
        LoginKeys::Paste => {
            paint::put(&mut v, "   ↵ ", strong);
            paint::put(&mut v, "submit", dim);
            paint::put(&mut v, "   esc ", strong);
            paint::put(&mut v, "back", dim);
        },
    }
    paint::line(v)
}

/// An alert in place of the hints.
pub open spec fn alert_text(message: Seq<char>) -> LineView {
    paint::line_of(
        Seq::empty().push(paint::span_of("! "@, paint::ink(Role::Warning))).push(
            paint::span_of(message, paint::ink(Role::Dim)),
        ),
    )
}

/// An alert in place of the hints.
pub fn alert_line(message: &str) -> (r: Line)
    ensures
        r@ == alert_text(message@),
{
    let mut v = paint::no_spans();
    paint::put(&mut v, "! ", paint::ink(Role::Warning));
    paint::put(&mut v, message, paint::ink(Role::Dim));
    paint::line(v)
}

impl AppView {
    /// What the keys do while a login is in flight; `pasting` says that its code field is open.
    pub open spec fn login_keys(self, pasting: bool) -> LoginKeys {
        if self.modals.len() == 0 {
            LoginKeys::Cancel
        } else if self.modals.last() is Login && pasting {
            LoginKeys::Paste
        } else {
            LoginKeys::Back
        }
    }

    /// The bottom row: a login in flight comes first, then an alert, then the hints.
    pub open spec fn footer(self, pane: HerdrPane, pasting: bool, frame: Seq<char>, width: int) ->
        LineView {
        match self.login {
            Some(session) => login_text(session, self.login_keys(pasting), frame),
            None => match self.footer_alert {
                Some(message) => alert_text(message),
                None => {
                    let shown = fitted(self.all_hints(pane), width);
                    paint::line_of(hint_spans(shown, shown.len()))
                },
            },
        }
    }
}

/// The bottom row.
pub fn footer_line(app: &App, pane: HerdrPane, pasting: bool, frame: &str, width: u16) -> (r: Line)
    ensures
        r@ == app@.footer(pane, pasting, frame@, width as int),
{
    if let Some(session) = &app.login {
        let keys = if app.modals.len() == 0 {
            LoginKeys::Cancel
        } else {
            let top = &app.modals[app.modals.len() - 1];
            assert(app@.modals.last() == top@);
            match top {
                Modal::Login => if pasting {
                    LoginKeys::Paste
                } else {
                    LoginKeys::Back
                },
                _ => LoginKeys::Back,
            }
        };
        return login_line(session, keys, frame);
    }
    if let Some(message) = &app.footer_alert {
        return alert_line(message);
    }
    let shown = fit_hints(all_hints(app, pane), width);
    assert(hint_views(shown@).len() == shown@.len());
    hint_line(&shown)
}

/// A rectangle narrowed by `pad` cells on each side.
pub open spec fn inset(area: Area, pad: int) -> Area {
    Area {
        x: text::min_int(area.x + pad, u16::MAX as int) as u16,
        width: text::monus(area.width as int, text::min_int(2 * pad, u16::MAX as int)) as u16,
        ..area
    }
}

/// A rectangle narrowed by `pad` cells on each side.
pub fn inset_x(area: Area, pad: u16) -> (r: Area)
    ensures
        r == inset(area, pad as int),
{
    Area {
        x: area.x.saturating_add(pad),
        width: area.width.saturating_sub(pad.saturating_add(pad)),
        ..area
    }
}

} // verus!
