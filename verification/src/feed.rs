//! The service status feed.

use vstd::prelude::*;

use crate::text;

verus! {

/// Which Status pane has focus.
#[derive(Debug, Clone, Copy, PartialEq, Eq, Structural)]
pub enum StatusFocus {
    List,
    Detail,
}

/// Severity of an incident.
#[derive(Debug, Clone, Copy, PartialEq, Eq, Structural)]
pub enum Impact {
    Nothing,
    Minor,
    Major,
    Critical,
    Maintenance,
    Other,
}

/// Lifecycle phase of an incident.
#[derive(Debug, Clone, Copy, PartialEq, Eq, Structural)]
pub enum UpdatePhase {
    Resolved,
    Completed,
    Monitoring,
    InProgress,
    Verifying,
    Identified,
    Investigating,
    Update,
    Scheduled,
    Other,
}

/// A component and its first-reported status.
pub struct Component {
    pub name: String,
    pub status: String,
}

/// What a [`Component`] holds.
pub struct ComponentView {
    pub name: Seq<char>,
    pub status: Seq<char>,
}

impl View for Component {
    type V = ComponentView;

    open spec fn view(&self) -> ComponentView {
        ComponentView {
            name: self.name@,
            status: self.status@,
        }
    }
}

/// The views of a list.
pub open spec fn component_views(v: Seq<Component>) -> Seq<ComponentView> {
    v.map_values(|x: Component| x@)
}

/// A component that changed status.
pub struct Transition {
    pub name: String,
    /// The new status, shortened.
    pub to: String,
}

/// What a [`Transition`] holds.
pub struct TransitionView {
    pub name: Seq<char>,
    pub to: Seq<char>,
}

impl View for Transition {
    type V = TransitionView;

    open spec fn view(&self) -> TransitionView {
        TransitionView {
            name: self.name@,
            to: self.to@,
        }
    }
}

/// The views of a list.
pub open spec fn transition_views(v: Seq<Transition>) -> Seq<TransitionView> {
    v.map_values(|x: Transition| x@)
}

/// One entry of an incident timeline.
pub struct IncidentUpdate {
    pub at_ms: u64,
    pub phase: UpdatePhase,
    pub phase_word: String,
    pub text: String,
    pub transitions: Vec<Transition>,
}

/// What a [`IncidentUpdate`] holds.
pub struct IncidentUpdateView {
    pub at_ms: u64,
    pub phase: UpdatePhase,
    pub phase_word: Seq<char>,
    pub text: Seq<char>,
    pub transitions: Seq<TransitionView>,
}

impl View for IncidentUpdate {
    type V = IncidentUpdateView;

    open spec fn view(&self) -> IncidentUpdateView {
        IncidentUpdateView {
            at_ms: self.at_ms,
            phase: self.phase,
            phase_word: self.phase_word@,
            text: self.text@,
            transitions: transition_views(self.transitions@),
        }
    }
}

/// The views of a list.
pub open spec fn incident_update_views(v: Seq<IncidentUpdate>) -> Seq<IncidentUpdateView> {
    v.map_values(|x: IncidentUpdate| x@)
}

/// An incident.
pub struct Incident {
    pub id: String,
    pub title: String,
    pub link: String,
    pub phase: UpdatePhase,
    pub phase_word: String,
    pub impact: Impact,
    pub impact_word: String,
    pub started_ms: u64,
    pub resolved_ms: Option<u64>,
    pub components: Vec<Component>,
    /// Newest first.
    pub updates: Vec<IncidentUpdate>,
}

/// What a [`Incident`] holds.
pub struct IncidentView {
    pub id: Seq<char>,
    pub title: Seq<char>,
    pub link: Seq<char>,
    pub phase: UpdatePhase,
    pub phase_word: Seq<char>,
    pub impact: Impact,
    pub impact_word: Seq<char>,
    pub started_ms: u64,
    pub resolved_ms: Option<u64>,
    pub components: Seq<ComponentView>,
    pub updates: Seq<IncidentUpdateView>,
}

impl View for Incident {
    type V = IncidentView;

    open spec fn view(&self) -> IncidentView {
        IncidentView {
            id: self.id@,
            title: self.title@,
            link: self.link@,
            phase: self.phase,
            phase_word: self.phase_word@,
            impact: self.impact,
            impact_word: self.impact_word@,
            started_ms: self.started_ms,
            resolved_ms: self.resolved_ms,
            components: component_views(self.components@),
            updates: incident_update_views(self.updates@),
        }
    }
}

/// The views of a list.
pub open spec fn incident_views(v: Seq<Incident>) -> Seq<IncidentView> {
    v.map_values(|x: Incident| x@)
}

/// State of the Status tab.
pub struct StatusState {
    pub incidents: Vec<Incident>,
    pub fetched_at_ms: Option<u64>,
    pub cached: bool,
    pub error: Option<String>,
    pub fetching: bool,
    pub cursor: usize,
    pub focus: StatusFocus,
    pub detail_scroll: u16,
    pub detail_max_scroll: u16,
    pub seen_latest: Option<String>,
}

/// What a [`StatusState`] holds.
pub struct StatusStateView {
    pub incidents: Seq<IncidentView>,
    pub fetched_at_ms: Option<u64>,
    pub cached: bool,
    pub error: Option<Seq<char>>,
    pub fetching: bool,
    pub cursor: usize,
    pub focus: StatusFocus,
    pub detail_scroll: u16,
    pub detail_max_scroll: u16,
    pub seen_latest: Option<Seq<char>>,
}

impl View for StatusState {
    type V = StatusStateView;

    open spec fn view(&self) -> StatusStateView {
        StatusStateView {
            incidents: incident_views(self.incidents@),
            fetched_at_ms: self.fetched_at_ms,
            cached: self.cached,
            error: text::opt_view(self.error),
            fetching: self.fetching,
            cursor: self.cursor,
            focus: self.focus,
            detail_scroll: self.detail_scroll,
            detail_max_scroll: self.detail_max_scroll,
            seen_latest: text::opt_view(self.seen_latest),
        }
    }
}

/// News from the feed.
pub enum StatusEvent {
    Fetched { incidents: Vec<Incident>, fetched_at_ms: u64 },
    Cached { incidents: Vec<Incident>, fetched_at_ms: u64 },
    Failed(String),
}

/// What a [`StatusEvent`] holds.
pub enum StatusEventView {
    Fetched { incidents: Seq<IncidentView>, fetched_at_ms: u64 },
    Cached { incidents: Seq<IncidentView>, fetched_at_ms: u64 },
    Failed(Seq<char>),
}

impl View for StatusEvent {
    type V = StatusEventView;

    open spec fn view(&self) -> StatusEventView {
        match self {
            StatusEvent::Fetched { incidents, fetched_at_ms } => StatusEventView::Fetched { incidents: incident_views(incidents@), fetched_at_ms: *fetched_at_ms },
            StatusEvent::Cached { incidents, fetched_at_ms } => StatusEventView::Cached { incidents: incident_views(incidents@), fetched_at_ms: *fetched_at_ms },
            StatusEvent::Failed(a) => StatusEventView::Failed(a@),
        }
    }
}

impl IncidentView {
    /// Not yet resolved or completed.
    pub open spec fn active(self) -> bool {
        self.phase != UpdatePhase::Resolved && self.phase != UpdatePhase::Completed
    }
}

impl Incident {
    /// Not yet resolved or completed.
    pub fn is_active(&self) -> (r: bool)
        ensures
            r == self@.active(),
    {
        self.phase != UpdatePhase::Resolved && self.phase != UpdatePhase::Completed
    }
}

/// Whether an incident is not yet resolved or completed.
pub fn incident_is_active(incident: &Incident) -> (r: bool)
    ensures
        r == incident@.active(),
{
    incident.is_active()
}

impl Impact {
    /// Rank among impacts.
    pub open spec fn rank(self) -> int {
        match self {
            Impact::Critical => 4,
            Impact::Major => 3,
            Impact::Minor => 2,
            Impact::Maintenance => 1,
            Impact::Nothing | Impact::Other => 0,
        }
    }

    /// Rank among impacts.
    pub fn severity(self) -> (r: u8)
        ensures
            r == self.rank(),
    {
        match self {
            Impact::Critical => 4,
            Impact::Major => 3,
            Impact::Minor => 2,
            Impact::Maintenance => 1,
            Impact::Nothing | Impact::Other => 0,
        }
    }
}

/// The worst impact of the active incidents among the first `n`; the last one of those
/// that rank alike.
pub open spec fn worst_of(v: Seq<IncidentView>, n: nat) -> Option<Impact>
    decreases n,
{
    if n == 0 {
        None
    } else {
        let before = worst_of(v, (n - 1) as nat);
        let x = v[n - 1];
        if !x.active() {
            before
        } else {
            match before {
                Some(b) if x.impact.rank() < b.rank() => Some(b),
                _ => Some(x.impact),
            }
        }
    }
}

/// `x` is listed ahead of `y`: active ones first, newer ones first among alike.
pub open spec fn ahead(x: IncidentView, y: IncidentView) -> bool {
    (x.active() && !y.active()) || (x.active() == y.active() && x.started_ms > y.started_ms)
}

/// The first place of `v` from `k` on that `x` is listed ahead of.
pub open spec fn slot_of(v: Seq<IncidentView>, x: IncidentView, k: nat) -> nat
    decreases v.len() - k,
{
    if k >= v.len() || ahead(x, v[k as int]) {
        k
    } else {
        slot_of(v, x, k + 1)
    }
}

/// The incidents in list order; those that rank alike keep their order.
pub open spec fn listed(v: Seq<IncidentView>) -> Seq<IncidentView>
    decreases v.len(),
{
    if v.len() == 0 {
        Seq::empty()
    } else {
        let s = listed(v.drop_last());
        s.insert(slot_of(s, v.last(), 0) as int, v.last())
    }
}

/// In list order.
pub open spec fn in_list_order(v: Seq<IncidentView>) -> bool {
    forall|i: int, j: int| 0 <= i < j < v.len() ==> !ahead(#[trigger] v[j], #[trigger] v[i])
}

proof fn lemma_slot_of(v: Seq<IncidentView>, x: IncidentView, k: nat)
    requires
        k <= v.len(),
        forall|i: int| 0 <= i < k ==> !ahead(x, v[i]),
    ensures
        ({
            let s = slot_of(v, x, k);
            &&& k <= s <= v.len()
            &&& forall|i: int| 0 <= i < s ==> !ahead(x, v[i])
            &&& s < v.len() ==> ahead(x, v[s as int])
        }),
    decreases v.len() - k,
{
    if k < v.len() && !ahead(x, v[k as int]) {
        lemma_slot_of(v, x, k + 1);
    }
}

/// Listing keeps every incident, and puts them in list order: active ones first, newer
/// ones first among alike.
pub proof fn listing_sorts(v: Seq<IncidentView>)
    ensures
        in_list_order(listed(v)),
        listed(v).len() == v.len(),
        listed(v).to_multiset() == v.to_multiset(),
    decreases v.len(),
{
    if v.len() > 0 {
        let rest = v.drop_last();
        let x = v.last();
        listing_sorts(rest);
        let s = listed(rest);
        lemma_slot_of(s, x, 0);
        let k = slot_of(s, x, 0) as int;
        let out = s.insert(k, x);
        assert forall|i: int, j: int| 0 <= i < j < out.len() implies !ahead(
            #[trigger] out[j],
            #[trigger] out[i],
        ) by {
            let a = if i < k {
                i
            } else {
                i - 1
            };
            let b = if j < k {
                j
            } else {
                j - 1
            };
            if i != k {
                assert(out[i] == s[a]);
            }
            if j != k {
                assert(out[j] == s[b]);
            }
            if i == k && j > k {
                assert(ahead(x, s[k]));
                if b > k {
                    assert(!ahead(s[b], s[k]));
                }
            }
        }
        broadcast use vstd::seq_lib::group_to_multiset_ensures;

        assert(v =~= rest.push(x));
        assert(out.to_multiset() == s.to_multiset().insert(x)) by {
            assert(out =~= s.take(k) + seq![x] + s.skip(k));
            vstd::seq_lib::lemma_multiset_commutative(s.take(k), seq![x]);
            vstd::seq_lib::lemma_multiset_commutative(s.take(k) + seq![x], s.skip(k));
            vstd::seq_lib::lemma_multiset_commutative(s.take(k), s.skip(k));
            assert(s =~= s.take(k) + s.skip(k));
            assert(seq![x] =~= Seq::<IncidentView>::empty().push(x));
            assert(seq![x].to_multiset() =~= vstd::multiset::Multiset::empty().insert(x));
            assert(out.to_multiset() =~= s.to_multiset().insert(x));
        }
    } else {
        assert(listed(v) =~= v);
    }
}

fn is_ahead(x: &Incident, y: &Incident) -> (r: bool)
    ensures
        r == ahead(x@, y@),
{
    let a = x.is_active();
    let b = y.is_active();
    (a && !b) || (a == b && x.started_ms > y.started_ms)
}

fn list_incidents(mut incidents: Vec<Incident>) -> (r: Vec<Incident>)
    ensures
        incident_views(r@) == listed(incident_views(incidents@)),
{
    let ghost all = incident_views(incidents@);
    let mut out: Vec<Incident> = Vec::new();
    let ghost mut done: nat = 0;
    assert(all.take(0) =~= Seq::<IncidentView>::empty());
    assert(incident_views(out@) =~= Seq::<IncidentView>::empty());
    while incidents.len() > 0
        invariant
            done <= all.len(),
            incident_views(incidents@) == all.skip(done as int),
            incident_views(out@) == listed(all.take(done as int)),
        decreases incidents@.len(),
    {
        assert(incident_views(incidents@).len() == incidents@.len());
        let ghost before = incidents@;
        let x = incidents.remove(0);
        proof {
            assert(all[done as int] == incident_views(before)[0]);
            assert(all[done as int] == x@);
            assert(incident_views(incidents@) =~= incident_views(before).drop_first());
            assert(incident_views(incidents@) =~= all.skip(done as int + 1));
        }
        let ghost ov = incident_views(out@);
        assert(ov.len() == out@.len());
        let mut k: usize = 0;
        while k < out.len() && !is_ahead(&x, &out[k])
            invariant
                k <= out@.len(),
                ov == incident_views(out@),
                ov.len() == out@.len(),
                slot_of(ov, x@, 0) == slot_of(ov, x@, k as nat),
            decreases out@.len() - k,
        {
            assert(ov[k as int] == out@[k as int]@);
            k = k + 1;
        }
        proof {
            if k < out@.len() {
                assert(ov[k as int] == out@[k as int]@);
            }
            assert(slot_of(ov, x@, 0) == k);
            let t = all.take(done as int + 1);
            assert(t.drop_last() =~= all.take(done as int));
            assert(t.last() == x@);
        }
        let ghost mid = out@;
        out.insert(k, x);
        proof {
            assert(incident_views(out@) =~= incident_views(mid).insert(k as int, x@));
            done = done + 1;
        }
    }
    assert(incident_views(incidents@).len() == 0);
    assert(all.take(done as int) =~= all);
    out
}

impl StatusStateView {
    /// The state before any news.
    pub open spec fn initial() -> StatusStateView {
        StatusStateView {
            incidents: Seq::empty(),
            fetched_at_ms: None,
            cached: false,
            error: None,
            fetching: false,
            cursor: 0,
            focus: StatusFocus::List,
            detail_scroll: 0,
            detail_max_scroll: 0,
            seen_latest: None,
        }
    }

    pub open spec fn selected(self) -> Option<IncidentView> {
        if self.cursor < self.incidents.len() {
            Some(self.incidents[self.cursor as int])
        } else {
            None
        }
    }

    pub open spec fn selected_id(self) -> Option<Seq<char>> {
        match self.selected() {
            Some(i) => Some(i.id),
            None => None,
        }
    }

    /// The newest incident, when it was not seen before and is not part of a first load.
    pub open spec fn news(self, incidents: Seq<IncidentView>) -> Option<IncidentView> {
        if incidents.len() > 0 && self.seen_latest is Some && self.seen_latest != Some(
            incidents[0].id,
        ) {
            Some(incidents[0])
        } else {
            None
        }
    }

    /// The state after a load: the incidents in list order, the cursor within them, the
    /// timeline rewound when another incident came under the cursor.
    pub open spec fn loaded(
        self,
        incidents: Seq<IncidentView>,
        fetched_at_ms: u64,
        cached: bool,
    ) -> StatusStateView {
        let list = listed(incidents);
        let s = StatusStateView {
            fetching: false,
            cached,
            fetched_at_ms: Some(fetched_at_ms),
            error: if cached {
                self.error
            } else {
                None
            },
            seen_latest: if incidents.len() > 0 {
                Some(incidents[0].id)
            } else {
                self.seen_latest
            },
            incidents: list,
            cursor: if list.len() == 0 {
                0
            } else if self.cursor >= list.len() {
                (list.len() - 1) as usize
            } else {
                self.cursor
            },
            ..self
        };
        if s.selected_id() != self.selected_id() {
            StatusStateView { detail_scroll: 0, ..s }
        } else {
            s
        }
    }

    pub open spec fn worst(self) -> Impact {
        match worst_of(self.incidents, self.incidents.len()) {
            Some(i) => i,
            None => Impact::Nothing,
        }
    }
}

impl Default for StatusState {
    /// The state before any news.
    fn default() -> (r: StatusState)
        ensures
            r@ == StatusStateView::initial(),
    {
        let incidents: Vec<Incident> = Vec::new();
        assert(incident_views(incidents@) =~= Seq::<IncidentView>::empty());
        StatusState {
            incidents,
            fetched_at_ms: None,
            cached: false,
            error: None,
            fetching: false,
            cursor: 0,
            focus: StatusFocus::List,
            detail_scroll: 0,
            detail_max_scroll: 0,
            seen_latest: None,
        }
    }
}

/// Whether two optional texts are equal.
fn same_opt(a: &Option<String>, b: &Option<String>) -> (r: bool)
    ensures
        r == (text::opt_view(*a) == text::opt_view(*b)),
{
    match (a, b) {
        (Some(x), Some(y)) => text::same_text(x.as_str(), y.as_str()),
        (None, None) => true,
        _ => false,
    }
}

impl StatusState {
    /// The incident under the cursor.
    pub fn selected(&self) -> (r: Option<&Incident>)
        ensures
            (match r {
                Some(i) => Some(i@),
                None => None,
            }) == self@.selected(),
    {
        if self.cursor < self.incidents.len() {
            Some(&self.incidents[self.cursor])
        } else {
            None
        }
    }

    fn selected_id(&self) -> (r: Option<String>)
        ensures
            text::opt_view(r) == self@.selected_id(),
    {
        match self.selected() {
            Some(i) => Some(i.id.clone()),
            None => None,
        }
    }

    /// Worst impact of the active incidents; nothing when none is active.
    pub fn worst_active_impact(&self) -> (r: Impact)
        ensures
            r == self@.worst(),
    {
        let ghost v = incident_views(self.incidents@);
        assert(v.len() == self.incidents@.len());
        let mut worst: Option<Impact> = None;
        let mut i: usize = 0;
        while i < self.incidents.len()
            invariant
                i <= self.incidents@.len(),
                v == incident_views(self.incidents@),
                worst == worst_of(v, i as nat),
            decreases self.incidents@.len() - i,
        {
            let x = &self.incidents[i];
            assert(v[i as int] == x@);
            if x.is_active() {
                worst =
                match worst {
                    Some(b) if x.impact.severity() < b.severity() => Some(b),
                    _ => Some(x.impact),
                };
            }
            i = i + 1;
        }
        match worst {
            Some(w) => w,
            None => Impact::Nothing,
        }
    }

    /// Takes over a load. Returns the title and activity of an incident that is news.
    pub fn load(&mut self, incidents: Vec<Incident>, fetched_at_ms: u64, cached: bool) -> (r: Option<
        (String, bool),
    >)
        ensures
            final(self)@ == old(self)@.loaded(incident_views(incidents@), fetched_at_ms, cached),
            match (r, old(self)@.news(incident_views(incidents@))) {
                (Some(n), Some(i)) => n.0@ == i.title && n.1 == i.active(),
                (None, None) => true,
                _ => false,
            },
    {
        let ghost iv = incident_views(incidents@);
        assert(iv.len() == incidents@.len());
        let prev = self.selected_id();
        self.fetching = false;
        self.cached = cached;
        self.fetched_at_ms = Some(fetched_at_ms);
        if !cached {
            self.error = None;
        }
        let mut news: Option<(String, bool)> = None;
        if incidents.len() > 0 {
            let first = &incidents[0];
            assert(iv[0] == first@);
            let newest = Some(first.id.clone());
            if !same_opt(&self.seen_latest, &newest) {
                if self.seen_latest.is_some() {
                    news = Some((first.title.clone(), first.is_active()));
                }
                self.seen_latest = newest;
            }
        }
        self.incidents = list_incidents(incidents);
        proof {
            listing_sorts(iv);
            assert(incident_views(self.incidents@).len() == self.incidents@.len());
        }
        if self.incidents.len() == 0 {
            self.cursor = 0;
        } else if self.cursor >= self.incidents.len() {
            self.cursor = self.incidents.len() - 1;
        }
        let now = self.selected_id();
        if !same_opt(&now, &prev) {
            self.detail_scroll = 0;
        }
        news
    }
}

/// After any load the cursor rests on an incident, when there is one.
pub proof fn load_keeps_cursor_in_list(
    s: StatusStateView,
    incidents: Seq<IncidentView>,
    fetched_at_ms: u64,
    cached: bool,
)
    ensures
        ({
            let t = s.loaded(incidents, fetched_at_ms, cached);
            &&& t.incidents.len() == incidents.len()
            &&& in_list_order(t.incidents)
            &&& incidents.len() > 0 ==> t.cursor < t.incidents.len()
            &&& incidents.len() == 0 ==> t.cursor == 0
        }),
{
    listing_sorts(incidents);
}

/// Loading the same news twice announces it at most once, and a first load announces
/// nothing.
pub proof fn news_is_announced_once(
    s: StatusStateView,
    incidents: Seq<IncidentView>,
    fetched_at_ms: u64,
    cached: bool,
)
    ensures
        s.loaded(incidents, fetched_at_ms, cached).news(incidents) is None,
        s.seen_latest is None ==> s.news(incidents) is None,
{
}

/// No active incident is worse than the worst one reported.
pub proof fn worst_impact_bounds(s: StatusStateView, i: int)
    requires
        0 <= i < s.incidents.len(),
        s.incidents[i].active(),
    ensures
        s.incidents[i].impact.rank() <= s.worst().rank(),
{
    lemma_worst_bounds(s.incidents, s.incidents.len(), i);
}

proof fn lemma_worst_bounds(v: Seq<IncidentView>, n: nat, i: int)
    requires
        0 <= i < n <= v.len(),
        v[i].active(),
    ensures
        worst_of(v, n) is Some,
        v[i].impact.rank() <= worst_of(v, n)->0.rank(),
    decreases n,
{
    if i < n - 1 {
        lemma_worst_bounds(v, (n - 1) as nat, i);
    }
}

} // verus!
