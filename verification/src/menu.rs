//! The context menu and its hotkeys.

use vstd::prelude::*;

use crate::host::{Host, HostView};
use crate::text;

verus! {

/// What a menu entry does.
#[derive(Debug, Clone, Copy, PartialEq, Eq, Structural)]
pub enum ActionMenuAction {
    NewAccount,
    RefreshUsage,
    RotateTokens,
    SwitchToSelected,
    ConfigureSelected,
    OpenChainMember,
    ReorderUp,
    ReorderDown,
    EditThreshold,
    ToggleLastResort,
    RemoveMember,
    ToggleAutoStart,
    DeleteProfile,
    CreateProfile,
    LoginAccount,
    ClearCredentials,
    EditField,
    RemoveEnvField,
    RefreshStatus,
    OpenIncidentLink,
    ToggleEstimates,
    TogglePace,
    TokensPeriodLifetime,
    TokensPeriodDaily,
    TokensPeriodWeekly,
    TokensPeriodMonthly,
    TokensShowAll,
    TokensShowClaude,
    TokensShowOthers,
    ToggleCountCache,
    ReloadTokenStats,
}

/// One entry of the menu.
#[derive(Debug)]
pub struct ActionItem {
    pub label: String,
    /// Single-letter shortcut; none when every candidate was taken.
    pub hotkey: Option<char>,
    pub action: ActionMenuAction,
}

/// The open menu.
#[derive(Debug)]
pub struct ActionMenuState {
    pub items: Vec<ActionItem>,
    pub cursor: usize,
}

/// What an [`ActionItem`] holds.
pub struct ActionItemView {
    pub label: Seq<char>,
    pub hotkey: Option<char>,
    pub action: ActionMenuAction,
}

impl View for ActionItem {
    type V = ActionItemView;

    open spec fn view(&self) -> ActionItemView {
        ActionItemView { label: self.label@, hotkey: self.hotkey, action: self.action }
    }
}

/// What an [`ActionMenuState`] holds.
#[verifier::ext_equal]
pub struct ActionMenuStateView {
    pub items: Seq<ActionItemView>,
    pub cursor: usize,
}

/// The views of a list of entries.
pub open spec fn item_views(v: Seq<ActionItem>) -> Seq<ActionItemView> {
    v.map_values(|x: ActionItem| x@)
}

impl View for ActionMenuState {
    type V = ActionMenuStateView;

    open spec fn view(&self) -> ActionMenuStateView {
        ActionMenuStateView { items: item_views(self.items@), cursor: self.cursor }
    }
}

/// Keys that no menu entry may take: they open, dismiss, explain and quit.
pub open spec fn is_reserved(c: char) -> bool {
    c == 'a' || c == 'x' || c == '?' || c == 'q'
}

/// Whether a key is neither reserved nor taken by an earlier entry.
pub open spec fn is_free(c: char, claimed: Seq<char>) -> bool {
    !is_reserved(c) && !claimed.contains(c)
}

/// The letters of a label, in lower case.
pub open spec fn letters(s: Seq<char>) -> Seq<char>
    decreases s.len(),
{
    if s.len() == 0 {
        Seq::empty()
    } else if text::is_ascii_letter(s.last()) {
        letters(s.drop_last()).push(text::ascii_lower(s.last()))
    } else {
        letters(s.drop_last())
    }
}

/// The first free key among the first `n` of `candidates`.
pub open spec fn first_free(candidates: Seq<char>, n: nat, claimed: Seq<char>) -> Option<char>
    decreases n,
{
    if n == 0 {
        None
    } else {
        match first_free(candidates, (n - 1) as nat, claimed) {
            Some(c) => Some(c),
            None => if n <= candidates.len() && is_free(candidates[n - 1], claimed) {
                Some(candidates[n - 1])
            } else {
                None
            },
        }
    }
}

impl ActionMenuAction {
    pub open spec fn pinned_key(self) -> Option<char> {
        match self {
            ActionMenuAction::RotateTokens => Some('t'),
            ActionMenuAction::ToggleEstimates => Some('e'),
            ActionMenuAction::TogglePace => Some('p'),
            ActionMenuAction::ToggleCountCache => Some('c'),
            ActionMenuAction::ReloadTokenStats => Some('r'),
            ActionMenuAction::TokensPeriodLifetime => Some('l'),
            ActionMenuAction::TokensPeriodDaily => Some('d'),
            ActionMenuAction::TokensPeriodWeekly => Some('w'),
            ActionMenuAction::TokensPeriodMonthly => Some('m'),
            _ => None,
        }
    }

    pub open spec fn caption(self, host: HostView) -> Seq<char> {
        match self {
            ActionMenuAction::NewAccount => "new account"@,
            ActionMenuAction::RefreshUsage => "refresh usage"@,
            ActionMenuAction::RotateTokens => "rotate access token"@,
            ActionMenuAction::SwitchToSelected => "switch to selected"@,
            ActionMenuAction::ConfigureSelected => "configure"@,
            ActionMenuAction::OpenChainMember => "open"@,
            ActionMenuAction::ReorderUp => "reorder up"@,
            ActionMenuAction::ReorderDown => "reorder down"@,
            ActionMenuAction::EditThreshold => "edit threshold"@,
            ActionMenuAction::ToggleLastResort => "toggle last resort"@,
            ActionMenuAction::RemoveMember => "remove member"@,
            ActionMenuAction::ToggleAutoStart => "toggle auto-start"@,
            ActionMenuAction::DeleteProfile => "delete profile"@,
            ActionMenuAction::CreateProfile => "create profile"@,
            ActionMenuAction::LoginAccount => "log in"@,
            ActionMenuAction::ClearCredentials => "log out"@,
            ActionMenuAction::EditField => "edit field"@,
            ActionMenuAction::RemoveEnvField => "remove field"@,
            ActionMenuAction::RefreshStatus => "refresh status"@,
            ActionMenuAction::OpenIncidentLink => "open in browser"@,
            ActionMenuAction::ToggleEstimates => "toggle estimates"@,
            ActionMenuAction::TogglePace => "toggle pace marker"@,
            ActionMenuAction::TokensPeriodLifetime => "period: lifetime"@,
            ActionMenuAction::TokensPeriodDaily => "period: daily"@,
            ActionMenuAction::TokensPeriodWeekly => "period: weekly"@,
            ActionMenuAction::TokensPeriodMonthly => "period: monthly"@,
            ActionMenuAction::TokensShowAll => "show all models"@,
            ActionMenuAction::TokensShowClaude => "show "@ + host.family + " models"@,
            ActionMenuAction::TokensShowOthers => "show other models"@,
            ActionMenuAction::ToggleCountCache => "toggle cache counting"@,
            ActionMenuAction::ReloadTokenStats => "reload stats"@,
        }
    }

    /// The hotkey of an entry when earlier entries hold the keys `claimed`: its pinned
    /// key when that is free, else the first free one of its label's first three letters.
    pub open spec fn pick(self, host: HostView, claimed: Seq<char>) -> Option<char> {
        match self.pinned_key() {
            Some(c) if is_free(c, claimed) => Some(c),
            _ => first_free(letters(self.caption(host)), 3, claimed),
        }
    }

    /// The key this action asks for ahead of its label's letters.
    pub fn preferred_hotkey(&self) -> (r: Option<char>)
        ensures
            r == self.pinned_key(),
    {
        match self {
            ActionMenuAction::RotateTokens => Some('t'),
            ActionMenuAction::ToggleEstimates => Some('e'),
            ActionMenuAction::TogglePace => Some('p'),
            ActionMenuAction::ToggleCountCache => Some('c'),
            ActionMenuAction::ReloadTokenStats => Some('r'),
            ActionMenuAction::TokensPeriodLifetime => Some('l'),
            ActionMenuAction::TokensPeriodDaily => Some('d'),
            ActionMenuAction::TokensPeriodWeekly => Some('w'),
            ActionMenuAction::TokensPeriodMonthly => Some('m'),
            _ => None,
        }
    }

    /// The text of the entry.
    pub fn label(&self, host: &Host) -> (r: String)
        ensures
            r@ == self.caption(host@),
    {
        let fixed = match self {
            ActionMenuAction::NewAccount => "new account",
            ActionMenuAction::RefreshUsage => "refresh usage",
            ActionMenuAction::RotateTokens => "rotate access token",
            ActionMenuAction::SwitchToSelected => "switch to selected",
            ActionMenuAction::ConfigureSelected => "configure",
            ActionMenuAction::OpenChainMember => "open",
            ActionMenuAction::ReorderUp => "reorder up",
            ActionMenuAction::ReorderDown => "reorder down",
            ActionMenuAction::EditThreshold => "edit threshold",
            ActionMenuAction::ToggleLastResort => "toggle last resort",
            ActionMenuAction::RemoveMember => "remove member",
            ActionMenuAction::ToggleAutoStart => "toggle auto-start",
            ActionMenuAction::DeleteProfile => "delete profile",
            ActionMenuAction::CreateProfile => "create profile",
            ActionMenuAction::LoginAccount => "log in",
            ActionMenuAction::ClearCredentials => "log out",
            ActionMenuAction::EditField => "edit field",
            ActionMenuAction::RemoveEnvField => "remove field",
            ActionMenuAction::RefreshStatus => "refresh status",
            ActionMenuAction::OpenIncidentLink => "open in browser",
            ActionMenuAction::ToggleEstimates => "toggle estimates",
            ActionMenuAction::TogglePace => "toggle pace marker",
            ActionMenuAction::TokensPeriodLifetime => "period: lifetime",
            ActionMenuAction::TokensPeriodDaily => "period: daily",
            ActionMenuAction::TokensPeriodWeekly => "period: weekly",
            ActionMenuAction::TokensPeriodMonthly => "period: monthly",
            ActionMenuAction::TokensShowAll => "show all models",
            ActionMenuAction::TokensShowClaude => {
                return text::joined3("show ", host.family.as_str(), " models");
            },
            ActionMenuAction::TokensShowOthers => "show other models",
            ActionMenuAction::ToggleCountCache => "toggle cache counting",
            ActionMenuAction::ReloadTokenStats => "reload stats",
        };
        fixed.to_string()
    }
}

/// The keys held by the first `n` entries of a menu over `actions`.
pub open spec fn claimed_keys(
    host: HostView,
    actions: Seq<ActionMenuAction>,
    n: nat,
) -> Seq<char>
    decreases n,
{
    if n == 0 {
        Seq::empty()
    } else {
        let before = claimed_keys(host, actions, (n - 1) as nat);
        match actions[n - 1].pick(host, before) {
            Some(c) => before.push(c),
            None => before,
        }
    }
}

/// The hotkey of entry `i` of a menu over `actions`.
pub open spec fn menu_key(
    host: HostView,
    actions: Seq<ActionMenuAction>,
    i: int,
) -> Option<char> {
    actions[i].pick(host, claimed_keys(host, actions, i as nat))
}

/// The entries of a menu over `actions`.
pub open spec fn menu_items(
    host: HostView,
    actions: Seq<ActionMenuAction>,
) -> Seq<ActionItemView> {
    Seq::new(
        actions.len(),
        |i: int|
            ActionItemView {
                label: actions[i].caption(host),
                hotkey: menu_key(host, actions, i),
                action: actions[i],
            },
    )
}

impl ActionMenuStateView {
    /// A fresh menu over `actions`: the cursor on the first entry.
    pub open spec fn over(host: HostView, actions: Seq<ActionMenuAction>) -> ActionMenuStateView {
        ActionMenuStateView { items: menu_items(host, actions), cursor: 0 }
    }
}

fn contains_key(v: &Vec<char>, c: char) -> (r: bool)
    ensures
        r == v@.contains(c),
{
    let mut i: usize = 0;
    while i < v.len()
        invariant
            i <= v@.len(),
            forall|j: int| 0 <= j < i ==> v@[j] != c,
        decreases v@.len() - i,
    {
        if v[i] == c {
            assert(v@[i as int] == c);
            return true;
        }
        i = i + 1;
    }
    false
}

fn key_is_free(c: char, claimed: &Vec<char>) -> (r: bool)
    ensures
        r == is_free(c, claimed@),
{
    !(c == 'a' || c == 'x' || c == '?' || c == 'q') && !contains_key(claimed, c)
}

fn letters_of(label: &str) -> (r: Vec<char>)
    ensures
        r@ == letters(label@),
{
    let n: usize = label.unicode_len();
    let mut out: Vec<char> = Vec::new();
    let mut i: usize = 0;
    assert(label@.take(0) =~= Seq::empty());
    while i < n
        invariant
            i <= n,
            n == label@.len(),
            out@ == letters(label@.take(i as int)),
        decreases n - i,
    {
        let c = label.get_char(i);
        proof {
            let t = label@.take(i + 1);
            assert(t.drop_last() =~= label@.take(i as int));
            assert(t.last() == c);
        }
        if text::ascii_letter(c) {
            out.push(text::lower(c));
        }
        i = i + 1;
    }
    assert(label@.take(n as int) =~= label@);
    out
}

fn pick_key(host: &Host, action: &ActionMenuAction, claimed: &Vec<char>) -> (r: Option<char>)
    ensures
        r == action.pick(host@, claimed@),
{
    if let Some(c) = action.preferred_hotkey() {
        if key_is_free(c, claimed) {
            return Some(c);
        }
    }
    let candidates = letters_of(action.label(host).as_str());
    let mut i: usize = 0;
    while i < 3
        invariant
            i <= 3,
            candidates@ == letters(action.caption(host@)),
            action.pick(host@, claimed@) == first_free(candidates@, 3, claimed@),
            first_free(candidates@, i as nat, claimed@) is None,
        decreases 3 - i,
    {
        if i < candidates.len() && key_is_free(candidates[i], claimed) {
            proof {
                assert(first_free(candidates@, (i + 1) as nat, claimed@) == Some(
                    candidates@[i as int],
                ));
                lemma_first_free_stable(candidates@, (i + 1) as nat, 3, claimed@);
            }
            return Some(candidates[i]);
        }
        i = i + 1;
    }
    None
}

proof fn lemma_first_free_stable(candidates: Seq<char>, m: nat, n: nat, claimed: Seq<char>)
    requires
        m <= n,
        first_free(candidates, m, claimed) is Some,
    ensures
        first_free(candidates, n, claimed) == first_free(candidates, m, claimed),
    decreases n,
{
    if m < n {
        lemma_first_free_stable(candidates, m, (n - 1) as nat, claimed);
    }
}

impl ActionMenuState {
    /// A menu over `actions`, hotkeys assigned in order, the cursor on the first entry.
    pub fn new(host: &Host, actions: Vec<ActionMenuAction>) -> (r: ActionMenuState)
        ensures
            r@ == ActionMenuStateView::over(host@, actions@),
    {
        let mut claimed: Vec<char> = Vec::new();
        let mut items: Vec<ActionItem> = Vec::new();
        let mut i: usize = 0;
        while i < actions.len()
            invariant
                i <= actions@.len(),
                items@.len() == i,
                claimed@ == claimed_keys(host@, actions@, i as nat),
                forall|j: int|
                    0 <= j < i ==> (#[trigger] items@[j])@ == menu_items(host@, actions@)[j],
            decreases actions@.len() - i,
        {
            let action = actions[i];
            let hotkey = pick_key(host, &action, &claimed);
            if let Some(c) = hotkey {
                claimed.push(c);
            }
            items.push(ActionItem { label: action.label(host), hotkey, action });
            i = i + 1;
        }
        assert(item_views(items@) =~= menu_items(host@, actions@));
        ActionMenuState { items, cursor: 0 }
    }
}

proof fn lemma_first_free_is_free(candidates: Seq<char>, n: nat, claimed: Seq<char>)
    ensures
        first_free(candidates, n, claimed) is Some ==> is_free(
            first_free(candidates, n, claimed)->0,
            claimed,
        ),
    decreases n,
{
    if n > 0 {
        lemma_first_free_is_free(candidates, (n - 1) as nat, claimed);
    }
}

proof fn lemma_claimed_holds(host: HostView, actions: Seq<ActionMenuAction>, i: int, n: nat)
    requires
        0 <= i < n <= actions.len(),
        menu_key(host, actions, i) is Some,
    ensures
        claimed_keys(host, actions, n).contains(menu_key(host, actions, i)->0),
    decreases n,
{
    let before = claimed_keys(host, actions, (n - 1) as nat);
    if i == n - 1 {
        let c = menu_key(host, actions, i)->0;
        assert(before.push(c)[before.len() as int] == c);
    } else {
        lemma_claimed_holds(host, actions, i, (n - 1) as nat);
        let c = menu_key(host, actions, i)->0;
        let k = choose|k: int| 0 <= k < before.len() && before[k] == c;
        match actions[n - 1].pick(host, before) {
            Some(d) => {
                assert(before.push(d)[k] == c);
            },
            None => {},
        }
    }
}

/// In every menu, no entry holds a reserved key.
pub proof fn hotkeys_avoid_reserved(host: HostView, actions: Seq<ActionMenuAction>, i: int)
    requires
        0 <= i < actions.len(),
    ensures
        menu_key(host, actions, i) is Some ==> !is_reserved(menu_key(host, actions, i)->0),
{
    let claimed = claimed_keys(host, actions, i as nat);
    lemma_first_free_is_free(letters(actions[i].caption(host)), 3, claimed);
}

/// In every menu, no two entries share a hotkey.
pub proof fn hotkeys_are_distinct(host: HostView, actions: Seq<ActionMenuAction>, i: int, j: int)
    requires
        0 <= i < j < actions.len(),
    ensures
        menu_key(host, actions, i) is Some && menu_key(host, actions, j) is Some ==> menu_key(host, actions, i)
            != menu_key(host, actions, j),
{
    if menu_key(host, actions, i) is Some {
        lemma_claimed_holds(host, actions, i, j as nat);
        lemma_first_free_is_free(
            letters(actions[j].caption(host)),
            3,
            claimed_keys(host, actions, j as nat),
        );
    }
}

} // verus!
