//! The delegates pane: what each background run is doing.

use vstd::prelude::*;

use crate::layout;
use crate::paint;
use crate::paint::{Line, LineView, Role, SpanView};
use crate::text;

verus! {

/// Rows the panes above keep before this one may claim any.
pub const MASTER_MIN: u16 = 13;

/// Border rows plus the line under the list.
pub const PANE_CHROME: u16 = 3;

/// Rows that the empty list takes.
pub const EMPTY_STATE_H: usize = 4;

/// Most rows the pane grows to hold.
pub const DELEGATE_ROWS_MAX: usize = 6;

/// Width of the state column.
pub const STATE_W: usize = 8;

/// Cap on the account column.
pub const NAME_W_MAX: usize = 18;

/// A shorter tail is dropped.
pub const TAIL_MIN_W: usize = 8;

/// Blanks behind a column.
pub const COLUMN_GAP: usize = 2;

/// The line under the list.
pub open spec fn steer_line() -> LineView {
    paint::single_of(
        "manage delegates in clauth app on web or mobile (coming soon)"@,
        paint::ink(Role::Faint),
    )
}

/// The line under the list.
pub fn delegates_steer() -> (r: Line)
    ensures
        r@ == steer_line(),
{
    paint::single(
        "manage delegates in clauth app on web or mobile (coming soon)",
        paint::ink(Role::Faint),
    )
}

/// The rows the pane would like for its content.
pub open spec fn wanted_rows(rows: int) -> int {
    if rows == 0 {
        EMPTY_STATE_H + PANE_CHROME
    } else {
        text::min_int(rows, DELEGATE_ROWS_MAX as int) + PANE_CHROME
    }
}

/// The least rows with which the pane is still readable when it is cut.
pub open spec fn least_rows(rows: int) -> int {
    if rows == 0 {
        EMPTY_STATE_H + PANE_CHROME
    } else {
        PANE_CHROME + 2
    }
}

/// The rows the pane gets: its content, as far as the panes above leave room, and none at all
/// where that is too little to read.
pub open spec fn pane_rows(rows: int, height: int) -> int {
    let room = text::monus(height, MASTER_MIN as int);
    if room < text::min_int(least_rows(rows), wanted_rows(rows)) {
        0
    } else {
        text::min_int(wanted_rows(rows), room)
    }
}

/// The rows the pane gets.
pub fn delegates_height(rows: usize, area_height: u16) -> (r: u16)
    ensures
        r == pane_rows(rows as int, area_height as int),
{
    let content: u16 = if rows == 0 {
        4
    } else {
        text::cells(text::min_usize(rows, DELEGATE_ROWS_MAX))
    };
    let want: u16 = content + PANE_CHROME;
    let room: u16 = area_height.saturating_sub(MASTER_MIN);
    let floor: u16 = if rows == 0 {
        PANE_CHROME + 4
    } else {
        PANE_CHROME + 2
    };
    if room < text::min_u16(floor, want) {
        return 0;
    }
    text::min_u16(want, room)
}

/// The pane never takes rows that the panes above need, and is never too small to show
/// something: an empty list whole, a single delegate whole, and of several at least two rows.
pub proof fn panes_above_keep_their_rows(rows: int, height: int)
    requires
        rows >= 0,
        height >= 0,
    ensures
        pane_rows(rows, height) > 0 ==> height - pane_rows(rows, height) >= MASTER_MIN,
        pane_rows(rows, height) > 0 && rows <= 1 ==> pane_rows(rows, height) == wanted_rows(rows),
        pane_rows(rows, height) > 0 && rows >= 2 ==> pane_rows(rows, height) - PANE_CHROME >= 2,
        pane_rows(rows, height) <= PANE_CHROME + DELEGATE_ROWS_MAX,
{
}

/// What a stored run is doing.
#[derive(Clone, Copy, Debug, PartialEq, Eq, Structural)]
pub enum JobPhase {
    Running,
    /// Running, with its caller waiting for it.
    Blocking,
    Done,
    /// Its server is gone.
    Orphaned,
}

/// The mark of a phase: hollow once the server is gone.
pub open spec fn phase_mark(phase: JobPhase) -> Seq<char> {
    match phase {
        JobPhase::Orphaned => "○"@,
        _ => "●"@,
    }
}

/// The mark of a phase.
pub fn state_mark(phase: JobPhase) -> (r: &'static str)
    ensures
        r@ == phase_mark(phase),
{
    match phase {
        JobPhase::Running | JobPhase::Blocking | JobPhase::Done => "●",
        JobPhase::Orphaned => "○",
    }
}

/// The hue of a phase.
#[verifier::allow_in_spec]
pub fn state_color(phase: JobPhase) -> (r: Role)
    returns
        (match phase {
            JobPhase::Running => Role::Accent,
            JobPhase::Blocking => Role::Accent,
            JobPhase::Done => Role::Success,
            JobPhase::Orphaned => Role::Dim,
        }),
{
    match phase {
        JobPhase::Running | JobPhase::Blocking => Role::Accent,
        JobPhase::Done => Role::Success,
        JobPhase::Orphaned => Role::Dim,
    }
}

/// A length of time, in seconds and as it is read.
#[derive(Debug)]
pub struct Elapsed {
    pub secs: u64,
    pub text: String,
}

/// What an [`Elapsed`] says.
pub struct ElapsedView {
    pub secs: int,
    pub text: Seq<char>,
}

impl View for Elapsed {
    type V = ElapsedView;

    open spec fn view(&self) -> ElapsedView {
        ElapsedView { secs: self.secs as int, text: self.text@ }
    }
}

/// The view of an optional length of time.
pub open spec fn opt_elapsed(e: Option<Elapsed>) -> Option<ElapsedView> {
    match e {
        Some(x) => Some(x@),
        None => None,
    }
}

/// How long ago something was.
pub open spec fn age(e: ElapsedView) -> Seq<char> {
    if e.secs == 0 {
        "just now"@
    } else {
        e.text + " ago"@
    }
}

/// How long ago something was.
pub fn age_phrase(e: &Elapsed) -> (r: String)
    ensures
        r@ == age(e@),
{
    if e.secs == 0 {
        "just now".to_string()
    } else {
        text::joined(&e.text, " ago")
    }
}

/// The signs of life of a run.
#[derive(Debug)]
pub struct RunningLiveness {
    pub elapsed: Elapsed,
    pub last_output_ago: Option<Elapsed>,
    pub idle_kill_in: Option<Elapsed>,
    pub wall_kill_in: Option<Elapsed>,
}

/// What a [`RunningLiveness`] says.
pub struct RunningLivenessView {
    pub elapsed: ElapsedView,
    pub last_output_ago: Option<ElapsedView>,
    pub idle_kill_in: Option<ElapsedView>,
    pub wall_kill_in: Option<ElapsedView>,
}

impl View for RunningLiveness {
    type V = RunningLivenessView;

    open spec fn view(&self) -> RunningLivenessView {
        RunningLivenessView {
            elapsed: self.elapsed@,
            last_output_ago: opt_elapsed(self.last_output_ago),
            idle_kill_in: opt_elapsed(self.idle_kill_in),
            wall_kill_in: opt_elapsed(self.wall_kill_in),
        }
    }
}

/// The kill that comes first, and when; the wall comes first on a tie.
pub open spec fn first_kill(live: RunningLivenessView) -> Option<(Seq<char>, ElapsedView)> {
    match (live.idle_kill_in, live.wall_kill_in) {
        (Some(idle), Some(wall)) => if wall.secs <= idle.secs {
            Some(("wall-kill"@, wall))
        } else {
            Some(("idle-kill"@, idle))
        },
        (Some(idle), None) => Some(("idle-kill"@, idle)),
        (None, Some(wall)) => Some(("wall-kill"@, wall)),
        (None, None) => None,
    }
}

/// The kill that comes first, and when.
pub fn next_deadline(live: &RunningLiveness) -> (r: Option<(&'static str, &Elapsed)>)
    ensures
        match r {
            Some((label, e)) => first_kill(live@) == Some((label@, e@)),
            None => first_kill(live@) is None,
        },
{
    match &live.idle_kill_in {
        Some(idle) => match &live.wall_kill_in {
            Some(wall) => if wall.secs <= idle.secs {
                Some(("wall-kill", wall))
            } else {
                Some(("idle-kill", idle))
            },
            None => Some(("idle-kill", idle)),
        },
        None => match &live.wall_kill_in {
            Some(wall) => Some(("wall-kill", wall)),
            None => None,
        },
    }
}

/// A run as it is stored.
#[derive(Debug)]
pub struct StoredJob {
    pub phase: JobPhase,
    /// The word for the phase.
    pub word: String,
    pub profile: String,
    /// The last words of the run.
    pub tail: String,
    /// Since the record was last stamped.
    pub since: Elapsed,
    pub live: RunningLiveness,
}

/// What a [`StoredJob`] holds.
pub struct StoredJobView {
    pub phase: JobPhase,
    pub word: Seq<char>,
    pub profile: Seq<char>,
    pub tail: Seq<char>,
    pub since: ElapsedView,
    pub live: RunningLivenessView,
}

impl View for StoredJob {
    type V = StoredJobView;

    open spec fn view(&self) -> StoredJobView {
        StoredJobView {
            phase: self.phase,
            word: self.word@,
            profile: self.profile@,
            tail: self.tail@,
            since: self.since@,
            live: self.live@,
        }
    }
}

/// The cells of a row.
#[derive(Debug)]
pub struct DelegateCells {
    pub state: JobPhase,
    pub word: String,
    pub profile: String,
    pub facts: Vec<String>,
    pub tail: String,
}

/// What [`DelegateCells`] hold.
pub struct DelegateCellsView {
    pub state: JobPhase,
    pub word: Seq<char>,
    pub profile: Seq<char>,
    pub facts: Seq<Seq<char>>,
    pub tail: Seq<char>,
}

impl View for DelegateCells {
    type V = DelegateCellsView;

    open spec fn view(&self) -> DelegateCellsView {
        DelegateCellsView {
            state: self.state,
            word: self.word@,
            profile: self.profile@,
            facts: text::views(self.facts@),
            tail: self.tail@,
        }
    }
}

/// What is said of a run that goes on.
pub open spec fn live_facts(live: RunningLivenessView) -> Seq<Seq<char>> {
    let base = Seq::empty().push("elapsed "@ + live.elapsed.text).push(
        match live.last_output_ago {
            Some(e) => "last output "@ + age(e),
            None => "no output yet"@,
        },
    );
    match first_kill(live) {
        Some((label, e)) => base.push(
            if e.secs == 0 {
                label + " now"@
            } else {
                label + " in "@ + e.text
            },
        ),
        None => base,
    }
}

/// What is said of a run.
pub open spec fn job_facts(job: StoredJobView) -> Seq<Seq<char>> {
    match job.phase {
        JobPhase::Done => Seq::empty().push("finished "@ + age(job.since)),
        JobPhase::Orphaned => Seq::empty().push("last seen "@ + age(job.since)),
        _ => live_facts(job.live),
    }
}

/// The cells of a stored run; a finished one says nothing more of its own.
pub open spec fn cells_of(job: StoredJobView) -> DelegateCellsView {
    DelegateCellsView {
        state: job.phase,
        word: job.word,
        profile: job.profile,
        facts: job_facts(job),
        tail: if job.phase == JobPhase::Done {
            Seq::empty()
        } else {
            job.tail
        },
    }
}

broadcast use text::lemma_views_push;

/// The cells of a stored run.
pub fn delegate_row(job: &StoredJob) -> (r: DelegateCells)
    ensures
        r@ == cells_of(job@),
{
    let mut facts: Vec<String> = Vec::new();
    assert(text::views(facts@) =~= Seq::<Seq<char>>::empty());
    match job.phase {
        JobPhase::Done => {
            text::push_line2(&mut facts, "finished ", &age_phrase(&job.since));
        },
        JobPhase::Orphaned => {
            text::push_line2(&mut facts, "last seen ", &age_phrase(&job.since));
        },
        JobPhase::Running | JobPhase::Blocking => {
            text::push_line2(&mut facts, "elapsed ", &job.live.elapsed.text);
            match &job.live.last_output_ago {
                Some(e) => {
                    text::push_line2(&mut facts, "last output ", &age_phrase(e));
                },
                None => {
                    text::push_line(&mut facts, "no output yet");
                },
            }
            if let Some((label, e)) = next_deadline(&job.live) {
                if e.secs == 0 {
                    text::push_line2(&mut facts, label, " now");
                } else {
                    text::push_line3(&mut facts, label, " in ", &e.text);
                }
            }
        },
    }
    let tail = match job.phase {
        JobPhase::Done => {
            let none = String::new();
            assert(none@ =~= Seq::<char>::empty());
            none
        },
        _ => job.tail.clone(),
    };
    DelegateCells {
        state: job.phase,
        word: job.word.clone(),
        profile: job.profile.clone(),
        facts,
        tail,
    }
}

/// The views of a list of stored runs.
pub open spec fn job_views(v: Seq<StoredJob>) -> Seq<StoredJobView> {
    v.map_values(|j: StoredJob| j@)
}

/// The views of a list of rows.
pub open spec fn cells_views(v: Seq<DelegateCells>) -> Seq<DelegateCellsView> {
    v.map_values(|c: DelegateCells| c@)
}

/// One row per stored run, in the order they come.
pub fn delegate_cells(stored: &Vec<StoredJob>) -> (r: Vec<DelegateCells>)
    ensures
        cells_views(r@) == job_views(stored@).map_values(|j: StoredJobView| cells_of(j)),
{
    let mut out: Vec<DelegateCells> = Vec::new();
    let mut i: usize = 0;
    while i < stored.len()
        invariant
            i <= stored@.len(),
            out@.len() == i,
            forall|k: int| 0 <= k < i ==> (#[trigger] out@[k])@ == cells_of(stored@[k]@),
        decreases stored@.len() - i,
    {
        out.push(delegate_row(&stored[i]));
        i = i + 1;
    }
    assert(cells_views(out@) =~= job_views(stored@).map_values(|j: StoredJobView| cells_of(j)));
    out
}

/// The columns of a row before its tail.
pub open spec fn row_head(c: DelegateCellsView, name_w: nat) -> Seq<SpanView> {
    Seq::empty().push(
        paint::span_of(phase_mark(c.state) + " "@, paint::ink(state_color(c.state))),
    ).push(
        paint::span_of(
            layout::key_text(c.word, STATE_W as nat, COLUMN_GAP as nat),
            paint::ink(Role::Dim),
        ),
    ).push(
        paint::span_of(
            layout::key_text(text::clipped(c.profile, name_w), name_w, COLUMN_GAP as nat),
            paint::ink(Role::Body),
        ),
    ).push(paint::span_of(text::join(c.facts, " · "@), paint::ink(Role::Dim)))
}

/// A row: the columns, then the run's own words in quotes where there is room for them.
pub open spec fn delegate_line_of(c: DelegateCellsView, name_w: nat, width: int) -> LineView {
    let head = row_head(c, name_w);
    let room = text::monus(width, paint::spans_columns(head) + 4);
    paint::line_of(
        if c.tail.len() > 0 && room >= TAIL_MIN_W {
            head.push(
                paint::span_of(
                    "  \""@ + text::clipped(c.tail, room as nat) + "\""@,
                    paint::ink(Role::Faint),
                ),
            )
        } else {
            head
        },
    )
}

/// A row of the pane.
pub fn delegate_line(cells: &DelegateCells, name_w: usize, width: usize) -> (r: Line)
    ensures
        r@ == delegate_line_of(cells@, name_w as nat, width as int),
{
    let mut v = paint::no_spans();
    let mark = text::joined(state_mark(cells.state), " ");
    paint::put(&mut v, &mark, paint::ink(state_color(cells.state)));
    paint::put(
        &mut v,
        &layout::key_cell(&cells.word, STATE_W, COLUMN_GAP),
        paint::ink(Role::Dim),
    );
    let name = text::truncate(&cells.profile, name_w);
    paint::put(&mut v, &layout::key_cell(&name, name_w, COLUMN_GAP), paint::ink(Role::Body));
    paint::put(&mut v, &text::join_texts(&cells.facts, " · "), paint::ink(Role::Dim));
    let room: usize = width.saturating_sub(paint::columns_of(&v)).saturating_sub(4);
    if cells.tail.as_str().unicode_len() > 0 && room >= TAIL_MIN_W {
        let said = text::joined3("  \"", &text::truncate(&cells.tail, room), "\"");
        paint::put(&mut v, &said, paint::ink(Role::Faint));
    }
    paint::line(v)
}

/// The longest account name among the first `n` rows.
pub open spec fn widest_name(rows: Seq<DelegateCellsView>, n: nat) -> int
    decreases n,
{
    if n == 0 {
        0
    } else {
        text::max_int(widest_name(rows, (n - 1) as nat), rows[n - 1].profile.len() as int)
    }
}

/// The first `n` rows as lines.
pub open spec fn row_lines(rows: Seq<DelegateCellsView>, name_w: nat, width: int, n: nat) -> Seq<
    LineView,
>
    decreases n,
{
    if n == 0 {
        Seq::empty()
    } else {
        row_lines(rows, name_w, width, (n - 1) as nat).push(
            delegate_line_of(rows[n - 1], name_w, width),
        )
    }
}

/// How many rows are shown in full.
pub open spec fn rows_shown(total: int, viewport: int) -> int {
    if total > viewport {
        viewport - 1
    } else {
        total
    }
}

/// The rows that fit, and a count of those that do not.
pub open spec fn pane_lines(rows: Seq<DelegateCellsView>, viewport: int, width: int) -> Seq<
    LineView,
> {
    if viewport == 0 {
        Seq::empty()
    } else {
        let shown = rows_shown(rows.len() as int, viewport) as nat;
        let name_w = text::min_int(widest_name(rows, shown), NAME_W_MAX as int) as nat;
        let lines = row_lines(rows, name_w, width, shown);
        if rows.len() > viewport {
            lines.push(
                paint::single_of(
                    "+"@ + text::decimal((rows.len() - shown) as nat) + " more"@,
                    paint::ink(Role::Faint),
                ),
            )
        } else {
            lines
        }
    }
}

/// The rows that fit, and a count of those that do not.
pub fn delegate_lines(rows: &Vec<DelegateCells>, viewport: usize, width: usize) -> (r: Vec<Line>)
    ensures
        paint::lines_view(r@) == pane_lines(cells_views(rows@), viewport as int, width as int),
{
    let mut out = paint::no_lines();
    if viewport == 0 {
        return out;
    }
    let ghost all = cells_views(rows@);
    assert(all.len() == rows@.len());
    let shown: usize = if rows.len() > viewport {
        viewport - 1
    } else {
        rows.len()
    };
    let mut widest: usize = 0;
    let mut i: usize = 0;
    while i < shown
        invariant
            i <= shown <= rows@.len(),
            all == cells_views(rows@),
            widest == widest_name(all, i as nat),
        decreases shown - i,
    {
        assert(all[i as int] == rows@[i as int]@);
        widest = text::max_usize(widest, rows[i].profile.as_str().unicode_len());
        i = i + 1;
    }
    let name_w: usize = text::min_usize(widest, NAME_W_MAX);
    let mut k: usize = 0;
    while k < shown
        invariant
            k <= shown <= rows@.len(),
            all == cells_views(rows@),
            paint::lines_view(out@) == row_lines(all, name_w as nat, width as int, k as nat),
        decreases shown - k,
    {
        assert(all[k as int] == rows@[k as int]@);
        paint::add_line(&mut out, delegate_line(&rows[k], name_w, width));
        k = k + 1;
    }
    if rows.len() > viewport {
        let count = text::decimal_text((rows.len() - shown) as u64);
        let more = text::joined3("+", &count, " more");
        paint::add_line(&mut out, paint::single(&more, paint::ink(Role::Faint)));
    }
    out
}

proof fn lemma_row_lines(rows: Seq<DelegateCellsView>, name_w: nat, width: int, n: nat)
    ensures
        row_lines(rows, name_w, width, n).len() == n,
    decreases n,
{
    if n > 0 {
        lemma_row_lines(rows, name_w, width, (n - 1) as nat);
    }
}

/// The pane never draws more lines than it has, and every run is either shown or counted.
pub proof fn runs_are_shown_or_counted(rows: Seq<DelegateCellsView>, viewport: int, width: int)
    requires
        viewport > 0,
    ensures
        pane_lines(rows, viewport, width).len() <= viewport,
        rows.len() <= viewport ==> pane_lines(rows, viewport, width).len() == rows.len(),
        rows.len() > viewport ==> pane_lines(rows, viewport, width).last() == paint::single_of(
            "+"@ + text::decimal((rows.len() - (viewport - 1)) as nat) + " more"@,
            paint::ink(Role::Faint),
        ),
{
    let shown = rows_shown(rows.len() as int, viewport) as nat;
    let name_w = text::min_int(widest_name(rows, shown), NAME_W_MAX as int) as nat;
    lemma_row_lines(rows, name_w, width, shown);
}

/// The kill named on a row is the one that comes first.
pub proof fn the_first_kill_is_named(live: RunningLivenessView)
    ensures
        first_kill(live) matches Some((label, e)) ==> {
            &&& live.idle_kill_in matches Some(idle) ==> e.secs <= idle.secs
            &&& live.wall_kill_in matches Some(wall) ==> e.secs <= wall.secs
        },
        (first_kill(live) is None) == (live.idle_kill_in is None && live.wall_kill_in is None),
{
}

} // verus!
