//! Usage readings: merging them, ringing bells, keeping their history.

use vstd::prelude::*;

use crate::chain;
use crate::forms::ToastKind;
use crate::model::FetchStatus;
use crate::state::{App, AppView};
use crate::tabs::Tab;
use crate::text;

verus! {

// ── merging ─────────────────────────────────────────────────────────────────

/// What a shared store says of an account.
#[derive(Debug, Clone, Copy, PartialEq, Eq, Structural)]
pub enum StatusReading {
    /// The store could not be read.
    Unreadable,
    Missing,
    Found(FetchStatus),
}

/// The status of an account: the first store's word counts, then the second's; a store that
/// could not be read leaves what is known.
pub open spec fn merged_status(
    first: StatusReading,
    second: StatusReading,
    known: Option<FetchStatus>,
) -> Option<FetchStatus> {
    match (first, second) {
        (StatusReading::Found(s), _) => Some(s),
        (_, StatusReading::Found(s)) => Some(s),
        (_, StatusReading::Missing) => None,
        (_, StatusReading::Unreadable) => known,
    }
}

/// The status of an account out of the two stores.
pub fn merge_status(
    first: StatusReading,
    second: StatusReading,
    known: Option<FetchStatus>,
) -> (r: Option<FetchStatus>)
    ensures
        r == merged_status(first, second, known),
{
    match first {
        StatusReading::Found(s) => Some(s),
        _ => match second {
            StatusReading::Found(s) => Some(s),
            StatusReading::Missing => None,
            StatusReading::Unreadable => known,
        },
    }
}

/// Whether a reading replaces what is known: always where the store could be read, but for
/// a store that `keeps`, only where it holds one.
pub fn replaces(readable: bool, found: bool, keeps: bool) -> (r: bool)
    ensures
        r == (readable && (found || !keeps)),
{
    readable && (found || !keeps)
}

/// A status that was read just now is never lost to an unreadable store, and an unreadable
/// pair of stores changes nothing.
pub proof fn unreadable_stores_change_nothing(known: Option<FetchStatus>, s: FetchStatus)
    ensures
        merged_status(StatusReading::Unreadable, StatusReading::Unreadable, known) == known,
        merged_status(StatusReading::Found(s), StatusReading::Unreadable, known) == Some(s),
        merged_status(StatusReading::Unreadable, StatusReading::Found(s), known) == Some(s),
{
}

// ── live readings ───────────────────────────────────────────────────────────

/// Whether a reading was had just now: one that is cached, limited or failed is not.
pub open spec fn is_live(status: Option<FetchStatus>) -> bool {
    status == Some(FetchStatus::Fresh)
}

/// Whether a reading counts: for its bell, and for the history.
pub fn records(status: Option<FetchStatus>) -> (r: bool)
    ensures
        r == (status == Some(FetchStatus::Fresh)),
{
    match status {
        Some(s) => s == FetchStatus::Fresh,
        None => false,
    }
}

// ── bells ───────────────────────────────────────────────────────────────────

/// A reading against its bell.
pub struct BellReading {
    pub name: String,
    pub status: Option<FetchStatus>,
    /// There is a bell and a reading to hold against it.
    pub armed: bool,
    /// The reading is at or over the bell.
    pub over: bool,
    /// The reading in whole percent, in words.
    pub percent: String,
}

/// What a [`BellReading`] holds.
pub struct BellReadingView {
    pub name: Seq<char>,
    pub status: Option<FetchStatus>,
    pub armed: bool,
    pub over: bool,
    pub percent: Seq<char>,
}

impl View for BellReading {
    type V = BellReadingView;

    open spec fn view(&self) -> BellReadingView {
        BellReadingView {
            name: self.name@,
            status: self.status,
            armed: self.armed,
            over: self.over,
            percent: self.percent@,
        }
    }
}

/// The views of a list.
pub open spec fn bell_views(v: Seq<BellReading>) -> Seq<BellReadingView> {
    v.map_values(|x: BellReading| x@)
}

impl AppView {
    #[verifier::opaque]
    pub open spec fn with_bells(self, names: Seq<Seq<char>>) -> AppView {
        AppView { bell_fired: names, ..self }
    }

    /// One reading heard: a bell rings once per crossing, is armed again below its line, and
    /// is left alone by a reading that is not of now.
    #[verifier::opaque]
    pub open spec fn bell_heard(self, r: BellReadingView) -> AppView {
        if !is_live(r.status) || !r.armed {
            self
        } else if !r.over {
            self.with_bells(chain::chain_without(self.bell_fired, r.name))
        } else if self.bell_fired.contains(r.name) {
            self
        } else {
            self.toasted(
                ToastKind::Warning,
                "bell · "@ + r.name + " at "@ + (r.percent + "%"@),
            ).tab_marked(Tab::Overview, ToastKind::Warning).with_bells(
                self.bell_fired.push(r.name),
            )
        }
    }

    /// The first `n` readings heard.
    pub open spec fn bells_heard(self, rs: Seq<BellReadingView>, n: nat) -> AppView
        decreases n,
    {
        if n == 0 {
            self
        } else {
            self.bells_heard(rs, (n - 1) as nat).bell_heard(rs[n - 1])
        }
    }
}

fn fired(app: &App, name: &str) -> (r: bool)
    ensures
        r == app@.bell_fired.contains(name@),
{
    proof {
        text::lemma_position(text::views(app.bell_fired@), name@);
    }
    text::position_of(&app.bell_fired, name).is_some()
}

fn arm_again(app: &mut App, name: &str)
    ensures
        final(app)@ == old(app)@.with_bells(chain::chain_without(old(app)@.bell_fired, name@)),
{
    reveal(AppView::with_bells);
    broadcast use text::lemma_views_push;

    let mut kept: Vec<String> = Vec::new();
    let ghost all = text::views(app.bell_fired@);
    let mut i: usize = 0;
    proof {
        assert(text::views(kept@) =~= Seq::<Seq<char>>::empty());
        assert(all.take(0) =~= Seq::<Seq<char>>::empty());
        reveal(Seq::filter);
    }
    while i < app.bell_fired.len()
        invariant
            i <= app.bell_fired@.len(),
            all == text::views(app.bell_fired@),
            all.len() == app.bell_fired@.len(),
            text::views(kept@) == all.take(i as int).filter(chain::other_than(name@)),
        decreases app.bell_fired@.len() - i,
    {
        proof {
            let t = all.take(i as int + 1);
            assert(t.drop_last() =~= all.take(i as int));
            assert(t.last() == app.bell_fired@[i as int]@);
            reveal(Seq::filter);
        }
        if !text::same_text(app.bell_fired[i].as_str(), name) {
            kept.push(app.bell_fired[i].clone());
        }
        i = i + 1;
    }
    assert(all.take(i as int) =~= all);
    app.bell_fired = kept;
}

fn hear_bell(app: &mut App, r: &BellReading)
    ensures
        final(app)@ == old(app)@.bell_heard(r@),
{
    reveal(AppView::bell_heard);
    if !records(r.status) || !r.armed {
        return;
    }
    if !r.over {
        arm_again(app, r.name.as_str());
        return;
    }
    if fired(app, r.name.as_str()) {
        return;
    }
    let head = text::joined3("bell · ", r.name.as_str(), " at ");
    let tail = text::joined(r.percent.as_str(), "%");
    let body = text::joined(head.as_str(), tail.as_str());
    let ghost before = app@.bell_fired;
    app.toast(ToastKind::Warning, body.as_str());
    app.set_tab_activity(Tab::Overview, ToastKind::Warning);
    proof {
        reveal(AppView::toasted);
        reveal(AppView::tab_marked);
        reveal(AppView::on);
        reveal(AppView::with_bells);
        text::lemma_views_push(app.bell_fired@, r.name);
    }
    let name = r.name.clone();
    proof {
        text::lemma_views_push(app.bell_fired@, name);
    }
    app.bell_fired.push(name);
}

/// Holds the readings against their bells.
pub fn ring_bells(app: &mut App, readings: &Vec<BellReading>)
    ensures
        final(app)@ == old(app)@.bells_heard(bell_views(readings@), readings@.len()),
{
    let ghost all = app@;
    let ghost rs = bell_views(readings@);
    let mut i: usize = 0;
    while i < readings.len()
        invariant
            i <= readings@.len(),
            rs == bell_views(readings@),
            app@ == all.bells_heard(rs, i as nat),
        decreases readings@.len() - i,
    {
        assert(rs[i as int] == readings@[i as int]@);
        hear_bell(app, &readings[i]);
        i = i + 1;
    }
}

/// A bell that rang is silent until its reading falls below the line.
pub proof fn bells_ring_once_per_crossing(s: AppView, r: BellReadingView)
    requires
        is_live(r.status),
        r.armed,
        r.over,
    ensures
        s.bell_heard(r).bell_fired.contains(r.name),
        s.bell_heard(r).bell_heard(r) == s.bell_heard(r),
        !s.bell_heard(BellReadingView { over: false, ..r }).bell_fired.contains(r.name),
{
    reveal(AppView::bell_heard);
    reveal(AppView::with_bells);
    reveal(AppView::toasted);
    reveal(AppView::tab_marked);
    reveal(AppView::on);
    if !s.bell_fired.contains(r.name) {
        assert(s.bell_fired.push(r.name).last() == r.name);
        assert(s.bell_heard(r).bell_fired == s.bell_fired.push(r.name));
    }
    let kept = chain::chain_without(s.bell_fired, r.name);
    if kept.contains(r.name) {
        s.bell_fired.lemma_filter_pred(
            chain::other_than(r.name),
            choose|i: int| 0 <= i < kept.len() && kept[i] == r.name,
        );
    }
}

// ── schedules ───────────────────────────────────────────────────────────────

/// Whether an account waits for a fetch: it was never fetched, or a whole interval has passed.
pub open spec fn awaits_fetch(last_ms: Option<u64>, interval_ms: u64, now_ms: u64) -> bool {
    match last_ms {
        Some(t) => text::min_int(t + interval_ms, u64::MAX as int) <= now_ms,
        None => true,
    }
}

/// Those of the first `n` accounts that wait for a fetch.
pub open spec fn awaiting(
    names: Seq<Seq<char>>,
    last_ms: Seq<Option<u64>>,
    interval_ms: u64,
    now_ms: u64,
    n: nat,
) -> Seq<Seq<char>>
    decreases n,
{
    if n == 0 {
        Seq::empty()
    } else {
        let before = awaiting(names, last_ms, interval_ms, now_ms, (n - 1) as nat);
        if awaits_fetch(last_ms[n - 1], interval_ms, now_ms) {
            before.push(names[n - 1])
        } else {
            before
        }
    }
}

/// The accounts that wait for a fetch, in their order.
pub fn due_accounts(
    names: &Vec<String>,
    last_ms: &Vec<Option<u64>>,
    interval_ms: u64,
    now_ms: u64,
) -> (r: Vec<String>)
    requires
        names@.len() == last_ms@.len(),
    ensures
        text::views(r@) == awaiting(
            text::views(names@),
            last_ms@,
            interval_ms,
            now_ms,
            names@.len(),
        ),
{
    broadcast use text::lemma_views_push;

    let mut out: Vec<String> = Vec::new();
    assert(text::views(out@) =~= Seq::<Seq<char>>::empty());
    let mut i: usize = 0;
    while i < names.len()
        invariant
            i <= names@.len(),
            names@.len() == last_ms@.len(),
            text::views(out@) == awaiting(
                text::views(names@),
                last_ms@,
                interval_ms,
                now_ms,
                i as nat,
            ),
        decreases names@.len() - i,
    {
        let due = match last_ms[i] {
            Some(t) => t.saturating_add(interval_ms) <= now_ms,
            None => true,
        };
        if due {
            out.push(names[i].clone());
        }
        i = i + 1;
    }
    out
}

// ── history ─────────────────────────────────────────────────────────────────

/// A hexadecimal digit.
pub open spec fn hex_digit(d: nat) -> char {
    if d < 10 {
        (('0' as nat) + d) as char
    } else {
        (('a' as nat) + d - 10) as char
    }
}

/// A character inside a JSON string: quotes, backslashes and control characters are
/// escaped, everything else stands for itself.
pub open spec fn json_char(c: char) -> Seq<char> {
    if c == '"' || c == '\\' {
        seq!['\\', c]
    } else if c == '\u{8}' {
        seq!['\\', 'b']
    } else if c == '\t' {
        seq!['\\', 't']
    } else if c == '\n' {
        seq!['\\', 'n']
    } else if c == '\u{c}' {
        seq!['\\', 'f']
    } else if c == '\r' {
        seq!['\\', 'r']
    } else if (c as nat) <= 0x1f {
        seq!['\\', 'u', '0', '0', hex_digit(c as nat / 16), hex_digit(c as nat % 16)]
    } else {
        seq![c]
    }
}

/// The characters of a text inside a JSON string.
pub open spec fn json_chars(s: Seq<char>) -> Seq<char>
    decreases s.len(),
{
    if s.len() == 0 {
        Seq::empty()
    } else {
        json_chars(s.drop_last()) + json_char(s.last())
    }
}

/// A text as a JSON string.
pub open spec fn json_string(s: Seq<char>) -> Seq<char> {
    seq!['"'] + json_chars(s) + seq!['"']
}

/// A text as a JSON string, by `serde_json::to_string`: it never fails on a text, and
/// escapes quotes, backslashes and control characters and nothing else.
#[verifier::external_body]
fn json_quoted(s: &str) -> (r: Option<String>)
    ensures
        text::opt_view(r) == Some(json_string(s@)),
{
    serde_json::to_string(s).ok()
}

/// One record of the history.
pub open spec fn history_record(ts: nat, name: Seq<char>, usage: Seq<char>) -> Seq<char> {
    "{\"ts\":"@ + text::decimal(ts) + ",\"name\":"@ + (json_string(name) + ",\"usage\":"@ + (usage
        + "}"@))
}

/// A reading that serialised, or nothing.
pub open spec fn or_nothing(s: Option<Seq<char>>) -> Seq<char> {
    match s {
        Some(t) => t,
        None => ""@,
    }
}

/// The records a reading adds at `ts`: none when it is not live or equals the last one; else the
/// last one again, a moment before, and the new one.
pub open spec fn history_records(
    status: Option<FetchStatus>,
    ts: u64,
    name: Seq<char>,
    last: Option<Option<Seq<char>>>,
    usage: Option<Seq<char>>,
) -> Seq<Seq<char>> {
    let none = Seq::<Seq<char>>::empty();
    if !is_live(status) {
        none
    } else {
        match last {
            None => none.push(history_record(ts as nat, name, or_nothing(usage))),
            Some(l) => if l == usage {
                none
            } else {
                none.push(
                    history_record(text::monus(ts as int, 1) as nat, name, or_nothing(l)),
                ).push(history_record(ts as nat, name, or_nothing(usage)))
            },
        }
    }
}

fn record(ts: u64, name: &str, usage: &Option<String>) -> (r: String)
    ensures
        r@ == history_record(ts as nat, name@, or_nothing(text::opt_view(*usage))),
{
    let name_json = match json_quoted(name) {
        Some(q) => q,
        None => text::joined3("\"", name, "\""),
    };
    let usage_json: String = match usage {
        Some(u) => u.clone(),
        None => "".to_string(),
    };
    let stamp = text::decimal_text(ts);
    let head = text::joined3("{\"ts\":", stamp.as_str(), ",\"name\":");
    let end = text::joined(usage_json.as_str(), "}");
    let tail = text::joined3(name_json.as_str(), ",\"usage\":", end.as_str());
    text::joined(head.as_str(), tail.as_str())
}

fn same_reading(a: &Option<String>, b: &Option<String>) -> (r: bool)
    ensures
        r == (text::opt_view(*a) == text::opt_view(*b)),
{
    match (a, b) {
        (Some(x), Some(y)) => text::same_text(x.as_str(), y.as_str()),
        (None, None) => true,
        _ => false,
    }
}

/// The view of a last reading.
pub open spec fn last_view(l: Option<Option<String>>) -> Option<Option<Seq<char>>> {
    match l {
        Some(o) => Some(text::opt_view(o)),
        None => None,
    }
}

/// The records a reading adds to the history of an account. Readings come serialised; one
/// that could not be serialised is none.
pub fn history_lines(
    status: Option<FetchStatus>,
    ts: u64,
    name: &str,
    last: &Option<Option<String>>,
    usage: &Option<String>,
) -> (r: Vec<String>)
    ensures
        text::views(r@) == history_records(
            status,
            ts,
            name@,
            last_view(*last),
            text::opt_view(*usage),
        ),
{
    broadcast use text::lemma_views_push;

    let mut out: Vec<String> = Vec::new();
    assert(text::views(out@) =~= Seq::<Seq<char>>::empty());
    if !records(status) {
        return out;
    }
    match last {
        None => out.push(record(ts, name, usage)),
        Some(l) => {
            if !same_reading(l, usage) {
                let before: u64 = if ts > 0 {
                    ts - 1
                } else {
                    0
                };
                out.push(record(before, name, l));
                out.push(record(ts, name, usage));
            }
        },
    }
    out
}

/// A reading that did not change leaves no record.
pub proof fn unchanged_readings_leave_no_record(
    status: Option<FetchStatus>,
    ts: u64,
    name: Seq<char>,
    usage: Option<Seq<char>>,
)
    ensures
        history_records(status, ts, name, Some(usage), usage).len() == 0,
{
}

/// A reading that is not live leaves no record and moves no bell.
pub proof fn stale_readings_leave_no_trace(
    s: AppView,
    r: BellReadingView,
    ts: u64,
    last: Option<Option<Seq<char>>>,
    usage: Option<Seq<char>>,
)
    requires
        r.status != Some(FetchStatus::Fresh),
    ensures
        history_records(r.status, ts, r.name, last, usage).len() == 0,
        s.bell_heard(r) == s,
{
    reveal(AppView::bell_heard);
}

} // verus!
