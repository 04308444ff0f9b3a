//! The eight top-level views, and the lenses over the Tokens view.

use vstd::prelude::*;

use crate::host::Host;
use crate::text;

verus! {

/// Number of tabs.
pub const TAB_COUNT: usize = 8;

/// Top-level views, in strip order.
#[derive(Debug, Clone, Copy, PartialEq, Eq, Structural)]
pub enum Tab {
    /// Accounts table and at-a-glance usage.
    Overview,
    /// Per-account usage breakdown.
    Usage,
    /// Token usage across past sessions.
    Tokens,
    /// Per-account settings.
    Setup,
    /// Fallback chain editor.
    Fallback,
    /// Program-wide settings.
    Config,
    /// Service status feed.
    Status,
    /// Integration health.
    Plugin,
}

/// The tab at position `i` of the strip.
pub open spec fn tab_at(i: int) -> Tab {
    if i == 0 {
        Tab::Overview
    } else if i == 1 {
        Tab::Usage
    } else if i == 2 {
        Tab::Tokens
    } else if i == 3 {
        Tab::Setup
    } else if i == 4 {
        Tab::Fallback
    } else if i == 5 {
        Tab::Config
    } else if i == 6 {
        Tab::Status
    } else {
        Tab::Plugin
    }
}

impl Tab {
    /// Position in the strip.
    pub open spec fn place(self) -> int {
        match self {
            Tab::Overview => 0,
            Tab::Usage => 1,
            Tab::Tokens => 2,
            Tab::Setup => 3,
            Tab::Fallback => 4,
            Tab::Config => 5,
            Tab::Status => 6,
            Tab::Plugin => 7,
        }
    }

    pub open spec fn successor(self) -> Tab {
        tab_at((self.place() + 1) % 8)
    }

    pub open spec fn predecessor(self) -> Tab {
        tab_at((self.place() + 7) % 8)
    }

    pub open spec fn name(self) -> Seq<char> {
        match self {
            Tab::Overview => "Overview"@,
            Tab::Usage => "Usage"@,
            Tab::Tokens => "Tokens"@,
            Tab::Setup => "Setup"@,
            Tab::Fallback => "Fallback"@,
            Tab::Config => "Config"@,
            Tab::Status => "Status"@,
            Tab::Plugin => "Plugin"@,
        }
    }

    /// The tab at position `i` of the strip.
    pub fn at(i: usize) -> (r: Tab)
        requires
            i < TAB_COUNT,
        ensures
            r == tab_at(i as int),
    {
        if i == 0 {
            Tab::Overview
        } else if i == 1 {
            Tab::Usage
        } else if i == 2 {
            Tab::Tokens
        } else if i == 3 {
            Tab::Setup
        } else if i == 4 {
            Tab::Fallback
        } else if i == 5 {
            Tab::Config
        } else if i == 6 {
            Tab::Status
        } else {
            Tab::Plugin
        }
    }

    /// The label in the strip.
    pub fn title(self) -> (r: &'static str)
        ensures
            r@ == self.name(),
    {
        match self {
            Tab::Overview => "Overview",
            Tab::Usage => "Usage",
            Tab::Tokens => "Tokens",
            Tab::Setup => "Setup",
            Tab::Fallback => "Fallback",
            Tab::Config => "Config",
            Tab::Status => "Status",
            Tab::Plugin => "Plugin",
        }
    }

    /// Position in the strip.
    pub fn index(self) -> (r: usize)
        ensures
            r == self.place(),
            r < TAB_COUNT,
            tab_at(r as int) == self,
    {
        match self {
            Tab::Overview => 0,
            Tab::Usage => 1,
            Tab::Tokens => 2,
            Tab::Setup => 3,
            Tab::Fallback => 4,
            Tab::Config => 5,
            Tab::Status => 6,
            Tab::Plugin => 7,
        }
    }

    /// The tab to the right, wrapping to the first.
    pub fn next(self) -> (r: Tab)
        ensures
            r == self.successor(),
    {
        Tab::at((self.index() + 1) % TAB_COUNT)
    }

    /// The tab to the left, wrapping to the last.
    pub fn prev(self) -> (r: Tab)
        ensures
            r == self.predecessor(),
    {
        Tab::at((self.index() + TAB_COUNT - 1) % TAB_COUNT)
    }
}

/// Moving one tab right and one tab left come back to the same tab.
pub proof fn tab_steps_are_inverse(t: Tab)
    ensures
        t.successor().predecessor() == t,
        t.predecessor().successor() == t,
{
}

/// Every tab has its own position in the strip.
pub proof fn tab_positions_are_distinct(a: Tab, b: Tab)
    ensures
        0 <= a.place() < 8,
        tab_at(a.place()) == a,
        a.place() == b.place() ==> a == b,
{
}

/// `n` steps to the right.
pub open spec fn tab_steps(t: Tab, n: nat) -> Tab
    decreases n,
{
    if n == 0 {
        t
    } else {
        tab_steps(t, (n - 1) as nat).successor()
    }
}

/// `n` steps to the right land `n` positions further, wrapping; so eight steps come
/// full circle, and every tab is reached.
pub proof fn tab_steps_wrap(t: Tab, n: nat)
    ensures
        tab_steps(t, n) == tab_at((t.place() + n) % 8),
        n % 8 == 0 ==> tab_steps(t, n) == t,
    decreases n,
{
    if n > 0 {
        tab_steps_wrap(t, (n - 1) as nat);
    }
}

/// Which view the Tokens tab shows.
#[derive(Debug, Clone, Copy, PartialEq, Eq, Structural)]
pub enum TokenView {
    Dashboard,
    Models,
}

/// Display filter over the grouped model list of the Tokens tab.
#[derive(Debug, Clone, Copy, PartialEq, Eq, Structural)]
pub enum TokenFilter {
    All,
    Claude,
    Others,
}

/// The text of an optional literal.
pub open spec fn opt_str(s: Option<&'static str>) -> Option<Seq<char>> {
    match s {
        Some(t) => Some(t@),
        None => None,
    }
}

impl TokenFilter {
    pub open spec fn admits(self, anthropic: bool) -> bool {
        match self {
            TokenFilter::All => true,
            TokenFilter::Claude => anthropic,
            TokenFilter::Others => !anthropic,
        }
    }

    /// Whether the filter keeps a model; `anthropic` says whose model it is.
    pub fn matches(self, anthropic: bool) -> (r: bool)
        ensures
            r == self.admits(anthropic),
    {
        match self {
            TokenFilter::All => true,
            TokenFilter::Claude => anthropic,
            TokenFilter::Others => !anthropic,
        }
    }

    /// Badge of a filtered list; none when nothing is filtered.
    pub fn badge(self, host: &Host) -> (r: Option<String>)
        ensures
            text::opt_view(r) == (match self {
                TokenFilter::All => None,
                TokenFilter::Claude => Some(host@.family + " only"@),
                TokenFilter::Others => Some("others only"@),
            }),
    {
        match self {
            TokenFilter::All => None,
            TokenFilter::Claude => Some(text::joined(host.family.as_str(), " only")),
            TokenFilter::Others => Some("others only".to_string()),
        }
    }
}

/// The two narrowing filters split the models between them.
pub proof fn token_filters_partition(anthropic: bool)
    ensures
        TokenFilter::All.admits(anthropic),
        TokenFilter::Claude.admits(anthropic) != TokenFilter::Others.admits(anthropic),
{
}

/// Calendar bucket of a trend card.
#[derive(Debug, Clone, Copy, PartialEq, Eq, Structural)]
pub enum Bucket {
    Week,
    Month,
}

/// Time window of the Tokens tab.
#[derive(Debug, Clone, Copy, PartialEq, Eq, Structural)]
pub enum TokenPeriod {
    Lifetime,
    Daily,
    Weekly,
    Monthly,
}

impl TokenPeriod {
    pub open spec fn successor(self) -> TokenPeriod {
        match self {
            TokenPeriod::Lifetime => TokenPeriod::Daily,
            TokenPeriod::Daily => TokenPeriod::Weekly,
            TokenPeriod::Weekly => TokenPeriod::Monthly,
            TokenPeriod::Monthly => TokenPeriod::Lifetime,
        }
    }

    /// Name of a narrowed window; none for the whole lifetime.
    pub open spec fn scope(self) -> Option<Seq<char>> {
        match self {
            TokenPeriod::Lifetime => None,
            TokenPeriod::Daily => Some("today"@),
            TokenPeriod::Weekly => Some("this week"@),
            TokenPeriod::Monthly => Some("this month"@),
        }
    }

    /// The next window in the cycle.
    pub fn next(self) -> (r: TokenPeriod)
        ensures
            r == self.successor(),
    {
        match self {
            TokenPeriod::Lifetime => TokenPeriod::Daily,
            TokenPeriod::Daily => TokenPeriod::Weekly,
            TokenPeriod::Weekly => TokenPeriod::Monthly,
            TokenPeriod::Monthly => TokenPeriod::Lifetime,
        }
    }

    /// Badge naming a narrowed window; none for the whole lifetime.
    pub fn badge(self) -> (r: Option<&'static str>)
        ensures
            opt_str(r) == self.scope(),
    {
        match self {
            TokenPeriod::Lifetime => None,
            TokenPeriod::Daily => Some("today"),
            TokenPeriod::Weekly => Some("this week"),
            TokenPeriod::Monthly => Some("this month"),
        }
    }

    /// Badge that always names the window.
    pub fn lens_badge(self) -> (r: &'static str)
        ensures
            r@ == (match self.scope() {
                Some(s) => s,
                None => "lifetime"@,
            }),
    {
        match self.badge() {
            Some(s) => s,
            None => "lifetime",
        }
    }

    /// Calendar bucket of the trend cards; none for per-day rows.
    pub fn bucket(self) -> (r: Option<Bucket>)
        ensures
            r == (match self {
                TokenPeriod::Weekly => Some(Bucket::Week),
                TokenPeriod::Monthly => Some(Bucket::Month),
                _ => None,
            }),
    {
        match self {
            TokenPeriod::Weekly => Some(Bucket::Week),
            TokenPeriod::Monthly => Some(Bucket::Month),
            TokenPeriod::Lifetime | TokenPeriod::Daily => None,
        }
    }
}

/// The windows form one cycle of four.
pub proof fn token_periods_cycle(p: TokenPeriod)
    ensures
        p.successor() != p,
        p.successor().successor() != p,
        p.successor().successor().successor() != p,
        p.successor().successor().successor().successor() == p,
{
}

} // verus!
