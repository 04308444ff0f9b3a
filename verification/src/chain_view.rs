//! The Fallback tab on screen: the chain, a member's card, the candidates.

use vstd::prelude::*;

use crate::chain;
use crate::chain::ChainItemKind;
use crate::forms::FallbackRow;
use crate::host::{Host, HostView};
use crate::layout;
use crate::layout::{FieldEdit, FieldEditView, Glyphs, GlyphsView};
use crate::model;
use crate::model::{AppConfig, AppConfigView, ProfileView};
use crate::paint;
use crate::paint::{Line, LineView, Role, Span, SpanView, Style};
use crate::text;
use crate::wrapping;

verus! {

broadcast use text::lemma_views_push;

/// Cells of a member's usage bar.
pub const GAUGE_W: usize = 22;

/// Width of the key column.
pub const KEY_W: usize = 11;

/// Blanks between the key column and the values.
pub const KEY_GUTTER: usize = 2;

/// Why a member is passed over. Figures come ready to be shown, without their sign.
#[derive(Debug)]
pub enum Reason {
    Disabled,
    Canceled,
    AuthBroken,
    /// With the reset, where one is known.
    WeeklySpent { reset: Option<String> },
    /// With the time it lasts.
    KickRejected { lifts: String },
    BudgetSpent,
    FiveHour { pct: String, reset: Option<String> },
    ScopedSpent,
    WeeklySoft { pct: String },
    Stale,
}

/// What a [`Reason`] says.
pub enum ReasonView {
    Disabled,
    Canceled,
    AuthBroken,
    WeeklySpent { reset: Option<Seq<char>> },
    KickRejected { lifts: Seq<char> },
    BudgetSpent,
    FiveHour { pct: Seq<char>, reset: Option<Seq<char>> },
    ScopedSpent,
    WeeklySoft { pct: Seq<char> },
    Stale,
}

impl View for Reason {
    type V = ReasonView;

    open spec fn view(&self) -> ReasonView {
        match self {
            Reason::Disabled => ReasonView::Disabled,
            Reason::Canceled => ReasonView::Canceled,
            Reason::AuthBroken => ReasonView::AuthBroken,
            Reason::WeeklySpent { reset } => ReasonView::WeeklySpent {
                reset: text::opt_view(*reset),
            },
            Reason::KickRejected { lifts } => ReasonView::KickRejected { lifts: lifts@ },
            Reason::BudgetSpent => ReasonView::BudgetSpent,
            Reason::FiveHour { pct, reset } => ReasonView::FiveHour {
                pct: pct@,
                reset: text::opt_view(*reset),
            },
            Reason::ScopedSpent => ReasonView::ScopedSpent,
            Reason::WeeklySoft { pct } => ReasonView::WeeklySoft { pct: pct@ },
            Reason::Stale => ReasonView::Stale,
        }
    }
}

/// The optional view of a reason.
pub open spec fn opt_reason(r: Option<Reason>) -> Option<ReasonView> {
    match r {
        Some(x) => Some(x@),
        None => None,
    }
}

/// The mark of a reason: its shape names the reason, its hue the severity.
pub open spec fn mark_of(r: ReasonView) -> SpanView {
    match r {
        ReasonView::Disabled => paint::span_of("⊖"@, paint::ink(Role::Faint)),
        ReasonView::Canceled => paint::span_of("⊖"@, paint::ink(Role::Danger)),
        ReasonView::AuthBroken => paint::span_of("×"@, paint::ink(Role::Danger)),
        ReasonView::WeeklySpent { .. } => paint::span_of("⊘"@, paint::ink(Role::Danger)),
        ReasonView::KickRejected { .. } => paint::span_of("⧗"@, paint::ink(Role::Warning)),
        ReasonView::BudgetSpent => paint::span_of("$"@, paint::ink(Role::Warning)),
        ReasonView::FiveHour { .. } => paint::span_of("◔"@, paint::ink(Role::Warning)),
        ReasonView::ScopedSpent => paint::span_of("⊘"@, paint::ink(Role::Warning)),
        ReasonView::WeeklySoft { .. } => paint::span_of("~"@, paint::ink(Role::Warning)),
        ReasonView::Stale => paint::span_of("⋯"@, paint::ink(Role::Faint)),
    }
}

/// The mark of a reason.
pub fn reason_marker(reason: &Reason) -> (r: Span)
    ensures
        r@ == mark_of(reason@),
{
    match reason {
        Reason::Disabled => paint::span("⊖", paint::ink(Role::Faint)),
        Reason::Canceled => paint::span("⊖", paint::ink(Role::Danger)),
        Reason::AuthBroken => paint::span("×", paint::ink(Role::Danger)),
        Reason::WeeklySpent { .. } => paint::span("⊘", paint::ink(Role::Danger)),
        Reason::KickRejected { .. } => paint::span("⧗", paint::ink(Role::Warning)),
        Reason::BudgetSpent => paint::span("$", paint::ink(Role::Warning)),
        Reason::FiveHour { .. } => paint::span("◔", paint::ink(Role::Warning)),
        Reason::ScopedSpent => paint::span("⊘", paint::ink(Role::Warning)),
        Reason::WeeklySoft { .. } => paint::span("~", paint::ink(Role::Warning)),
        Reason::Stale => paint::span("⋯", paint::ink(Role::Faint)),
    }
}

/// A reason in a few words.
pub open spec fn reason_label(host: HostView, r: ReasonView) -> Seq<char> {
    match r {
        ReasonView::Disabled => "disabled"@,
        ReasonView::Canceled => "subscription canceled"@,
        ReasonView::AuthBroken => "auth broken"@,
        ReasonView::WeeklySpent { reset } => match reset {
            Some(t) => "weekly spent · "@ + t,
            None => "weekly spent"@,
        },
        ReasonView::KickRejected { lifts } => layout::lower(host.product) + " blocked · "@ + lifts,
        ReasonView::BudgetSpent => "extra usage spent"@,
        ReasonView::FiveHour { pct, reset } => match reset {
            Some(t) => "5h "@ + pct + "% · "@ + t,
            None => "5h "@ + pct + "%"@,
        },
        ReasonView::ScopedSpent => "one model's week spent"@,
        ReasonView::WeeklySoft { pct } => "weekly "@ + pct + "% · still serving"@,
        ReasonView::Stale => "stale data"@,
    }
}

/// The hue of a reason's pill.
pub open spec fn reason_role(r: ReasonView) -> Role {
    match r {
        ReasonView::Disabled => Role::Dim,
        ReasonView::Canceled => Role::Danger,
        ReasonView::AuthBroken => Role::Danger,
        ReasonView::WeeklySpent { .. } => Role::Danger,
        ReasonView::Stale => Role::Dim,
        _ => Role::Warning,
    }
}

/// Appends a reason's pill.
pub fn put_reason_pill(v: &mut Vec<Span>, host: &Host, reason: &Reason)
    ensures
        paint::spans_view(final(v)@) == layout::pill_spans(
            paint::spans_view(old(v)@),
            reason_label(host@, reason@),
            paint::ink(reason_role(reason@)).strong(),
        ),
{
    let (label, role) = match reason {
        Reason::Disabled => ("disabled".to_string(), Role::Dim),
        Reason::Canceled => ("subscription canceled".to_string(), Role::Danger),
        Reason::AuthBroken => ("auth broken".to_string(), Role::Danger),
        Reason::WeeklySpent { reset } => (
            match reset {
                Some(t) => text::joined("weekly spent · ", t),
                None => "weekly spent".to_string(),
            },
            Role::Danger,
        ),
        Reason::KickRejected { lifts } => (
            text::joined3(&layout::lowercase(&host.product), " blocked · ", lifts),
            Role::Warning,
        ),
        Reason::BudgetSpent => ("extra usage spent".to_string(), Role::Warning),
        Reason::FiveHour { pct, reset } => (
            match reset {
                Some(t) => text::joined(&text::joined3("5h ", pct, "% · "), t),
                None => text::joined3("5h ", pct, "%"),
            },
            Role::Warning,
        ),
        Reason::ScopedSpent => ("one model's week spent".to_string(), Role::Warning),
        Reason::WeeklySoft { pct } => (
            text::joined3("weekly ", pct, "% · still serving"),
            Role::Warning,
        ),
        Reason::Stale => ("stale data".to_string(), Role::Dim),
    };
    layout::put_pill(v, &label, paint::ink(role).strong());
}

/// What to do about a reason.
pub open spec fn fix_of(host: HostView, r: ReasonView, name: Seq<char>) -> Seq<char> {
    match r {
        ReasonView::Disabled => "excluded from the walk, enable it on the setup tab"@,
        ReasonView::Canceled => "this subscription has been canceled"@,
        ReasonView::AuthBroken => "re-login with clauth login "@ + name,
        ReasonView::WeeklySpent { .. } => "weekly limit is spent"@,
        ReasonView::KickRejected { .. } => layout::lower(host.product)
            + " is refusing to start it"@,
        ReasonView::BudgetSpent => "raise max spend below"@,
        ReasonView::FiveHour { .. } => "5h quota is spent, it resets on its own"@,
        ReasonView::ScopedSpent => "one model's week is spent, the others still serve"@,
        ReasonView::WeeklySoft { .. } => "past the weekly switch line, still serving"@,
        ReasonView::Stale => "last usage check failed"@,
    }
}

/// What to do about a reason.
pub fn reason_fix(host: &Host, reason: &Reason, name: &str) -> (r: String)
    ensures
        r@ == fix_of(host@, reason@, name@),
{
    match reason {
        Reason::Disabled => "excluded from the walk, enable it on the setup tab".to_string(),
        Reason::Canceled => "this subscription has been canceled".to_string(),
        Reason::AuthBroken => text::joined("re-login with clauth login ", name),
        Reason::WeeklySpent { .. } => "weekly limit is spent".to_string(),
        Reason::KickRejected { .. } => text::joined(
            &layout::lowercase(&host.product),
            " is refusing to start it",
        ),
        Reason::BudgetSpent => "raise max spend below".to_string(),
        Reason::FiveHour { .. } => "5h quota is spent, it resets on its own".to_string(),
        Reason::ScopedSpent => "one model's week is spent, the others still serve".to_string(),
        Reason::WeeklySoft { .. } => "past the weekly switch line, still serving".to_string(),
        Reason::Stale => "last usage check failed".to_string(),
    }
}

/// One stacked reason: its row and the branch below it.
pub open spec fn pill_entry(
    host: HostView,
    r: ReasonView,
    name: Seq<char>,
    width: int,
    first: bool,
    more: bool,
) -> Seq<LineView> {
    let lead = if first {
        paint::span_of(
            layout::key_text("status"@, KEY_W as nat, KEY_GUTTER as nat),
            paint::ink(Role::Label),
        )
    } else {
        paint::span_of("│"@ + text::fill(' ', 12), paint::ink(Role::Rule))
    };
    Seq::empty().push(
        paint::line_of(
            layout::pill_spans(
                Seq::empty().push(lead),
                reason_label(host, r),
                paint::ink(reason_role(r)).strong(),
            ),
        ),
    ) + layout::rail_note(fix_of(host, r, name), width, more)
}

/// The reasons of a member, worst first: a disabled one keeps the state of its health below.
pub open spec fn stacked(
    host: HostView,
    reason: Option<ReasonView>,
    health: Option<ReasonView>,
    name: Seq<char>,
    width: int,
) -> Seq<LineView> {
    match reason {
        None => Seq::empty(),
        Some(r) => if r is Disabled && health is Some {
            (pill_entry(host, r, name, width, true, true) + pill_entry(
                host,
                health->0,
                name,
                width,
                false,
                false,
            )).push(paint::blank_of())
        } else {
            pill_entry(host, r, name, width, true, false).push(paint::blank_of())
        },
    }
}

fn put_pill_entry(
    out: &mut Vec<Line>,
    host: &Host,
    reason: &Reason,
    name: &str,
    width: usize,
    first: bool,
    more: bool,
)
    ensures
        paint::lines_view(final(out)@) == paint::lines_view(old(out)@) + pill_entry(
            host@,
            reason@,
            name@,
            width as int,
            first,
            more,
        ),
{
    let ghost start = paint::lines_view(out@);
    let mut v = paint::no_spans();
    if first {
        let k = layout::key_cell("status", KEY_W, KEY_GUTTER);
        paint::put(&mut v, &k, paint::ink(Role::Label));
    } else {
        let k = text::joined("│", &text::fill_text(' ', 12));
        paint::put(&mut v, &k, paint::ink(Role::Rule));
    }
    put_reason_pill(&mut v, host, reason);
    paint::add_line(out, paint::line(v));
    let fix = reason_fix(host, reason, name);
    let note = layout::rail_hint_lines(&fix, width, more);
    paint::add_lines(out, &note);
    assert(paint::lines_view(out@) =~= start + pill_entry(
        host@,
        reason@,
        name@,
        width as int,
        first,
        more,
    ));
}

/// The reasons of a member, worst first.
pub fn pill_block(
    host: &Host,
    reason: &Option<Reason>,
    health: &Option<Reason>,
    name: &str,
    width: usize,
) -> (r: Vec<Line>)
    ensures
        paint::lines_view(r@) == stacked(
            host@,
            opt_reason(*reason),
            opt_reason(*health),
            name@,
            width as int,
        ),
{
    let mut out = paint::no_lines();
    let r = match reason {
        Some(r) => r,
        None => return out,
    };
    let disabled = match r {
        Reason::Disabled => true,
        _ => false,
    };
    match health {
        Some(h) if disabled => {
            put_pill_entry(&mut out, host, r, name, width, true, true);
            put_pill_entry(&mut out, host, h, name, width, false, false);
        },
        _ => {
            put_pill_entry(&mut out, host, r, name, width, true, false);
        },
    }
    paint::add_line(&mut out, paint::blank());
    assert(paint::lines_view(out@) =~= stacked(
        host@,
        opt_reason(*reason),
        opt_reason(*health),
        name@,
        width as int,
    ));
    out
}

/// A cell of a usage bar with a tick at the rotation threshold.
pub open spec fn gauge_cell(i: int, filled: int, tick: int, heat: Role) -> SpanView {
    if i == tick {
        paint::span_of(
            "│"@,
            paint::ink(
                if i < filled {
                    Role::Danger
                } else {
                    Role::Dim
                },
            ),
        )
    } else if i < filled {
        paint::span_of("█"@, paint::ink(heat))
    } else {
        paint::span_of("░"@, paint::ink(Role::RuleStrong))
    }
}

/// The first `n` cells of a usage bar.
pub open spec fn gauge_row(before: Seq<SpanView>, filled: int, tick: int, heat: Role, n: nat) -> Seq<
    SpanView,
>
    decreases n,
{
    if n == 0 {
        before
    } else {
        gauge_row(before, filled, tick, heat, (n - 1) as nat).push(
            gauge_cell(n - 1, filled, tick, heat),
        )
    }
}

/// Appends a usage bar with a tick at the rotation threshold.
pub fn gauge_with_tick(v: &mut Vec<Span>, filled: usize, tick: usize, heat: Role)
    ensures
        paint::spans_view(final(v)@) == gauge_row(
            paint::spans_view(old(v)@),
            filled as int,
            tick as int,
            heat,
            GAUGE_W as nat,
        ),
{
    let ghost before = paint::spans_view(v@);
    let mut i: usize = 0;
    while i < GAUGE_W
        invariant
            i <= GAUGE_W,
            paint::spans_view(v@) == gauge_row(
                before,
                filled as int,
                tick as int,
                heat,
                i as nat,
            ),
        decreases GAUGE_W - i,
    {
        if i == tick {
            let role = if i < filled {
                Role::Danger
            } else {
                Role::Dim
            };
            paint::put(v, "│", paint::ink(role));
        } else if i < filled {
            paint::put(v, "█", paint::ink(heat));
        } else {
            paint::put(v, "░", paint::ink(Role::RuleStrong));
        }
        i = i + 1;
    }
}

/// The five-hour figure of a member.
#[derive(Debug)]
pub struct MemberFigure {
    /// Full cells of a bar of [`GAUGE_W`] cells.
    pub filled: usize,
    /// The percentage, without the sign.
    pub percent: String,
    pub heat: Role,
    /// How far it is to the threshold, in per cent, without the sign.
    pub until: String,
}

/// What a [`MemberFigure`] holds.
pub struct MemberFigureView {
    pub filled: int,
    pub percent: Seq<char>,
    pub heat: Role,
    pub until: Seq<char>,
}

impl View for MemberFigure {
    type V = MemberFigureView;

    open spec fn view(&self) -> MemberFigureView {
        MemberFigureView {
            filled: self.filled as int,
            percent: self.percent@,
            heat: self.heat,
            until: self.until@,
        }
    }
}

/// The optional view of a member's figure.
pub open spec fn opt_member(f: Option<MemberFigure>) -> Option<MemberFigureView> {
    match f {
        Some(x) => Some(x@),
        None => None,
    }
}

/// The rows of a card that can be on or off, and what is armed.
#[derive(Clone, Copy, Debug, PartialEq, Eq, Structural)]
pub struct CardFlags {
    pub focused: bool,
    pub armed_remove: bool,
    pub last_resort: bool,
    /// Paid usage is allowed at all.
    pub spend_budget: bool,
    /// Nothing bounds what the account may spend.
    pub uncapped: bool,
}

/// A chain member's card.
#[derive(Debug)]
pub struct MemberCard {
    pub name: String,
    pub figure: Option<MemberFigure>,
    /// The cell of the rotation threshold.
    pub tick: usize,
    pub rows: Vec<FallbackRow>,
    pub cursor: usize,
    pub flags: CardFlags,
    /// The rotation threshold, without the sign.
    pub threshold: String,
    /// The default threshold, where the member's is another one.
    pub default_threshold: Option<String>,
    pub threshold_edit: Option<FieldEdit>,
    /// The spending cap, where there is one.
    pub max_spend: Option<String>,
    pub spend_edit: Option<FieldEdit>,
    pub last_resort_hint: String,
    pub max_spend_hint: String,
    /// What would bound the spending.
    pub uncapped_fix: String,
    /// When the chain resumes, once every member is spent.
    pub resume: Option<String>,
    pub width: usize,
}

/// What a [`MemberCard`] holds.
pub struct MemberCardView {
    pub name: Seq<char>,
    pub figure: Option<MemberFigureView>,
    pub tick: int,
    pub rows: Seq<FallbackRow>,
    pub cursor: int,
    pub flags: CardFlags,
    pub threshold: Seq<char>,
    pub default_threshold: Option<Seq<char>>,
    pub threshold_edit: Option<FieldEditView>,
    pub max_spend: Option<Seq<char>>,
    pub spend_edit: Option<FieldEditView>,
    pub last_resort_hint: Seq<char>,
    pub max_spend_hint: Seq<char>,
    pub uncapped_fix: Seq<char>,
    pub resume: Option<Seq<char>>,
    pub width: int,
}

impl View for MemberCard {
    type V = MemberCardView;

    open spec fn view(&self) -> MemberCardView {
        MemberCardView {
            name: self.name@,
            figure: opt_member(self.figure),
            tick: self.tick as int,
            rows: self.rows@,
            cursor: self.cursor as int,
            flags: self.flags,
            threshold: self.threshold@,
            default_threshold: text::opt_view(self.default_threshold),
            threshold_edit: layout::opt_edit(self.threshold_edit),
            max_spend: text::opt_view(self.max_spend),
            spend_edit: layout::opt_edit(self.spend_edit),
            last_resort_hint: self.last_resort_hint@,
            max_spend_hint: self.max_spend_hint@,
            uncapped_fix: self.uncapped_fix@,
            resume: text::opt_view(self.resume),
            width: self.width as int,
        }
    }
}

/// The key of a card row.
pub open spec fn card_key(key: Seq<char>, style: Style) -> SpanView {
    paint::span_of(layout::key_text(key, KEY_W as nat, KEY_GUTTER as nat), style)
}

fn put_card_key(v: &mut Vec<Span>, key: &str, style: Style)
    ensures
        paint::spans_view(final(v)@) == paint::spans_view(old(v)@).push(card_key(key@, style)),
{
    let k = layout::key_cell(key, KEY_W, KEY_GUTTER);
    paint::put(v, &k, style);
}

/// The leading cells of a card row; an open editor is not set in bold.
pub open spec fn card_gutter(glyphs: GlyphsView, editing: bool, selected: bool) -> SpanView {
    if editing {
        paint::span_of(glyphs.edit + " "@, paint::ink(Role::Accent))
    } else {
        layout::caret_span(selected)
    }
}

fn gutter_of(glyphs: &Glyphs, editing: bool, selected: bool) -> (r: Span)
    ensures
        r@ == card_gutter(glyphs@, editing, selected),
{
    if editing {
        let t = text::joined(&glyphs.edit, " ");
        paint::span(&t, paint::ink(Role::Accent))
    } else {
        layout::caret(selected)
    }
}

/// The threshold row.
pub open spec fn threshold_line(glyphs: GlyphsView, card: MemberCardView, selected: bool) -> LineView {
    let head = Seq::empty().push(
        card_gutter(glyphs, card.threshold_edit is Some, selected),
    ).push(card_key("rotate at"@, layout::label_style(selected)));
    paint::line_of(
        match card.threshold_edit {
            Some(e) => head.push(layout::typed_span(e)).push(
                paint::span_of(" %"@, layout::unit_style(e.valid)),
            ),
            None => {
                let valued = head.push(
                    paint::span_of(card.threshold + "%"@, paint::ink(Role::Accent)),
                );
                match card.default_threshold {
                    Some(d) => valued.push(
                        paint::span_of("   default: "@ + d + "%"@, paint::ink(Role::Faint)),
                    ),
                    None => valued,
                }
            },
        },
    )
}

/// The spending-cap row: faint while paid usage is not allowed.
pub open spec fn spend_line(glyphs: GlyphsView, card: MemberCardView, selected: bool) -> LineView {
    let dimmed = !card.flags.spend_budget && card.spend_edit is None;
    let head = Seq::empty().push(
        if dimmed {
            layout::inert_caret(selected)
        } else {
            card_gutter(glyphs, card.spend_edit is Some, selected)
        },
    ).push(
        card_key(
            "max spend"@,
            if dimmed {
                paint::ink(Role::Faint)
            } else {
                layout::label_style(selected)
            },
        ),
    );
    paint::line_of(
        match card.spend_edit {
            Some(e) => head.push(paint::span_of("$"@, layout::unit_style(e.valid))).push(
                layout::typed_span(e),
            ),
            None => match card.max_spend {
                Some(m) => head.push(
                    paint::span_of(
                        "$"@ + m,
                        paint::ink(
                            if dimmed {
                                Role::Faint
                            } else {
                                Role::Accent
                            },
                        ),
                    ),
                ),
                None => head.push(paint::span_of("off"@, paint::ink(Role::Faint))),
            },
        },
    )
}

/// A row of a member's card.
pub open spec fn card_line(
    glyphs: GlyphsView,
    card: MemberCardView,
    row: FallbackRow,
    selected: bool,
) -> LineView {
    match row {
        FallbackRow::Threshold => threshold_line(glyphs, card, selected),
        FallbackRow::LastResort => paint::line_of(
            Seq::empty().push(card_gutter(glyphs, false, selected)).push(
                card_key("last resort"@, layout::label_style(selected)),
            ).push(
                if card.flags.last_resort {
                    paint::span_of(glyphs.on, paint::ink(Role::Accent))
                } else {
                    paint::span_of(glyphs.off, paint::ink(Role::Faint))
                },
            ),
        ),
        FallbackRow::MaxSpend => spend_line(glyphs, card, selected),
        FallbackRow::Remove => paint::line_of(
            Seq::empty().push(card_gutter(glyphs, false, selected)).push(
                card_key("remove"@, layout::label_style(selected)),
            ).push(
                paint::span_of(
                    if card.flags.armed_remove {
                        "press again to remove"@
                    } else {
                        "remove from chain"@
                    },
                    paint::ink(Role::Danger),
                ),
            ),
        ),
    }
}

fn threshold_row(glyphs: &Glyphs, card: &MemberCard, selected: bool) -> (r: Line)
    ensures
        r@ == threshold_line(glyphs@, card@, selected),
{
    let mut v = paint::no_spans();
    paint::put_span(&mut v, gutter_of(glyphs, card.threshold_edit.is_some(), selected));
    put_card_key(&mut v, "rotate at", layout::label_style(selected));
    match &card.threshold_edit {
        Some(e) => {
            layout::value_caret(&mut v, e);
            paint::put(&mut v, " %", layout::unit_style(e.valid));
        },
        None => {
            let t = text::joined(&card.threshold, "%");
            paint::put(&mut v, &t, paint::ink(Role::Accent));
            if let Some(d) = &card.default_threshold {
                let u = text::joined3("   default: ", d, "%");
                paint::put(&mut v, &u, paint::ink(Role::Faint));
            }
        },
    }
    paint::line(v)
}

fn spend_row(glyphs: &Glyphs, card: &MemberCard, selected: bool) -> (r: Line)
    ensures
        r@ == spend_line(glyphs@, card@, selected),
{
    let dimmed = !card.flags.spend_budget && card.spend_edit.is_none();
    let mut v = paint::no_spans();
    if dimmed {
        paint::put_span(&mut v, layout::faint_caret(selected));
        put_card_key(&mut v, "max spend", paint::ink(Role::Faint));
    } else {
        paint::put_span(&mut v, gutter_of(glyphs, card.spend_edit.is_some(), selected));
        put_card_key(&mut v, "max spend", layout::label_style(selected));
    }
    match &card.spend_edit {
        Some(e) => {
            paint::put(&mut v, "$", layout::unit_style(e.valid));
            layout::value_caret(&mut v, e);
        },
        None => match &card.max_spend {
            Some(m) => {
                let t = text::joined("$", m);
                let role = if dimmed {
                    Role::Faint
                } else {
                    Role::Accent
                };
                paint::put(&mut v, &t, paint::ink(role));
            },
            None => {
                paint::put(&mut v, "off", paint::ink(Role::Faint));
            },
        },
    }
    paint::line(v)
}

/// A row of a member's card.
pub fn detail_row(glyphs: &Glyphs, card: &MemberCard, row: FallbackRow, selected: bool) -> (r: Line)
    ensures
        r@ == card_line(glyphs@, card@, row, selected),
{
    match row {
        FallbackRow::Threshold => threshold_row(glyphs, card, selected),
        FallbackRow::LastResort => {
            let mut v = paint::no_spans();
            paint::put_span(&mut v, gutter_of(glyphs, false, selected));
            put_card_key(&mut v, "last resort", layout::label_style(selected));
            if card.flags.last_resort {
                paint::put(&mut v, &glyphs.on, paint::ink(Role::Accent));
            } else {
                paint::put(&mut v, &glyphs.off, paint::ink(Role::Faint));
            }
            paint::line(v)
        },
        FallbackRow::MaxSpend => spend_row(glyphs, card, selected),
        FallbackRow::Remove => {
            let mut v = paint::no_spans();
            paint::put_span(&mut v, gutter_of(glyphs, false, selected));
            put_card_key(&mut v, "remove", layout::label_style(selected));
            let label = if card.flags.armed_remove {
                "press again to remove"
            } else {
                "remove from chain"
            };
            paint::put(&mut v, label, paint::ink(Role::Danger));
            paint::line(v)
        },
    }
}

/// What stands below a row of a card: the range while it is typed, its help while it is
/// selected, and the warning of an unbounded cap always.
pub open spec fn card_note(card: MemberCardView, row: FallbackRow, selected: bool) -> Seq<LineView> {
    match row {
        FallbackRow::Threshold => match card.threshold_edit {
            Some(e) => layout::range_note("0-100 %"@, e.valid, card.width),
            None => if selected {
                layout::help_note(
                    "switches to the next account once 5h usage hits "@ + card.threshold + "%"@,
                    card.width,
                )
            } else {
                Seq::empty()
            },
        },
        FallbackRow::LastResort => if selected {
            layout::help_note(card.last_resort_hint, card.width)
        } else {
            Seq::empty()
        },
        FallbackRow::MaxSpend => match card.spend_edit {
            Some(e) => layout::range_note("dollars · 0 turns it off"@, e.valid, card.width),
            None => if card.flags.uncapped {
                layout::invalid_note(
                    "nothing stops the spending: "@ + card.uncapped_fix,
                    card.width,
                )
            } else if selected {
                layout::help_note(card.max_spend_hint, card.width)
            } else {
                Seq::empty()
            },
        },
        FallbackRow::Remove => Seq::empty(),
    }
}

fn put_card_note(out: &mut Vec<Line>, card: &MemberCard, row: FallbackRow, selected: bool)
    ensures
        paint::lines_view(final(out)@) == paint::lines_view(old(out)@) + card_note(
            card@,
            row,
            selected,
        ),
{
    let w: usize = card.width;
    let ghost start = paint::lines_view(out@);
    assert(start + Seq::empty() =~= start);
    match row {
        FallbackRow::Threshold => match &card.threshold_edit {
            Some(e) => {
                let note = layout::range_tooltip("0-100 %", e.valid, w);
                paint::add_lines(out, &note);
            },
            None => {
                if selected {
                    let t = text::joined3(
                        "switches to the next account once 5h usage hits ",
                        &card.threshold,
                        "%",
                    );
                    let note = layout::help_tooltip_lines(&t, w);
                    paint::add_lines(out, &note);
                }
            },
        },
        FallbackRow::LastResort => {
            if selected {
                let note = layout::help_tooltip_lines(&card.last_resort_hint, w);
                paint::add_lines(out, &note);
            }
        },
        FallbackRow::MaxSpend => match &card.spend_edit {
            Some(e) => {
                let note = layout::range_tooltip("dollars · 0 turns it off", e.valid, w);
                paint::add_lines(out, &note);
            },
            None => {
                if card.flags.uncapped {
                    let t = text::joined("nothing stops the spending: ", &card.uncapped_fix);
                    let note = layout::invalid_tooltip_lines(&t, w);
                    paint::add_lines(out, &note);
                } else if selected {
                    let note = layout::help_tooltip_lines(&card.max_spend_hint, w);
                    paint::add_lines(out, &note);
                }
            },
        },
        FallbackRow::Remove => {},
    }
}

/// The usage block of a card: the bar with its tick, and how far it is to the threshold.
pub open spec fn usage_block(card: MemberCardView) -> Seq<LineView> {
    let keyed = Seq::empty().push(card_key("5h usage"@, paint::ink(Role::Label)));
    let (bar, figure) = match card.figure {
        Some(f) => (
            gauge_row(keyed, f.filled, card.tick, f.heat, GAUGE_W as nat).push(
                paint::span_of("  "@ + f.percent + "% used"@, paint::ink(f.heat)),
            ),
            f.until + "% until rotate"@,
        ),
        None => (
            gauge_row(keyed, 0, card.tick, Role::Faint, GAUGE_W as nat).push(
                paint::span_of("  no data yet"@, paint::ink(Role::Faint)),
            ),
            ""@,
        ),
    };
    Seq::empty().push(paint::line_of(bar)).push(
        paint::line_of(
            Seq::empty().push(paint::blanks_of(13)).push(
                paint::span_of(figure, paint::ink(Role::Faint)),
            ),
        ),
    ).push(paint::blank_of())
}

/// What stands above the rows of a card.
pub open spec fn card_head(
    host: HostView,
    card: MemberCardView,
    reason: Option<ReasonView>,
    health: Option<ReasonView>,
) -> Seq<LineView> {
    stacked(host, reason, health, card.name, card.width) + usage_block(card)
}

/// The row the cursor of a card rests on.
pub open spec fn card_cursor(card: MemberCardView) -> int {
    text::min_int(card.cursor, text::monus(card.rows.len() as int, 1))
}

/// The first `n` rows of a card, below its head.
pub open spec fn card_rows(
    head: Seq<LineView>,
    glyphs: GlyphsView,
    card: MemberCardView,
    n: nat,
) -> Seq<LineView>
    decreases n,
{
    if n == 0 {
        head
    } else {
        let before = card_rows(head, glyphs, card, (n - 1) as nat);
        let row = card.rows[n - 1];
        let selected = card.flags.focused && n - 1 == card_cursor(card);
        let shown = card_line(glyphs, card, row, selected);
        before.push(
            if selected {
                layout::barred(shown, card.width, paint::ink(Role::Plain))
            } else {
                shown
            },
        ) + card_note(card, row, selected)
    }
}

/// A member's card: reasons, usage, rows, and when the chain resumes.
pub open spec fn card_lines(
    host: HostView,
    glyphs: GlyphsView,
    card: MemberCardView,
    reason: Option<ReasonView>,
    health: Option<ReasonView>,
) -> Seq<LineView> {
    let rows = card_rows(card_head(host, card, reason, health), glyphs, card, card.rows.len());
    match card.resume {
        Some(t) => rows.push(paint::blank_of()).push(
            paint::single_of("resumes: "@ + t, paint::ink(Role::Faint)),
        ),
        None => rows,
    }
}

fn usage_lines(out: &mut Vec<Line>, card: &MemberCard)
    ensures
        paint::lines_view(final(out)@) == paint::lines_view(old(out)@) + usage_block(card@),
{
    let ghost start = paint::lines_view(out@);
    let mut v = paint::no_spans();
    put_card_key(&mut v, "5h usage", paint::ink(Role::Label));
    let figure = match &card.figure {
        Some(f) => {
            gauge_with_tick(&mut v, f.filled, card.tick, f.heat);
            let t = text::joined3("  ", &f.percent, "% used");
            paint::put(&mut v, &t, paint::ink(f.heat));
            text::joined(&f.until, "% until rotate")
        },
        None => {
            gauge_with_tick(&mut v, 0, card.tick, Role::Faint);
            paint::put(&mut v, "  no data yet", paint::ink(Role::Faint));
            "".to_string()
        },
    };
    paint::add_line(out, paint::line(v));
    let mut u = paint::no_spans();
    paint::put_blanks(&mut u, 13);
    paint::put(&mut u, &figure, paint::ink(Role::Faint));
    paint::add_line(out, paint::line(u));
    paint::add_line(out, paint::blank());
    assert(paint::lines_view(out@) =~= start + usage_block(card@));
}

/// A member's card, and the line its rows begin at.
pub fn member_detail(
    host: &Host,
    glyphs: &Glyphs,
    card: &MemberCard,
    reason: &Option<Reason>,
    health: &Option<Reason>,
) -> (r: (Vec<Line>, usize))
    ensures
        paint::lines_view(r.0@) == card_lines(
            host@,
            glyphs@,
            card@,
            opt_reason(*reason),
            opt_reason(*health),
        ),
        r.1 == card_head(host@, card@, opt_reason(*reason), opt_reason(*health)).len(),
{
    let mut out = pill_block(host, reason, health, &card.name, card.width);
    usage_lines(&mut out, card);
    let ghost head = card_head(host@, card@, opt_reason(*reason), opt_reason(*health));
    assert(paint::lines_view(out@) == head);
    let start: usize = out.len();
    assert(head.len() == start);
    let cursor: usize = text::min_usize(card.cursor, card.rows.len().saturating_sub(1));
    let mut i: usize = 0;
    while i < card.rows.len()
        invariant
            i <= card.rows@.len(),
            cursor == card_cursor(card@),
            paint::lines_view(out@) == card_rows(head, glyphs@, card@, i as nat),
        decreases card.rows@.len() - i,
    {
        let row = card.rows[i];
        let selected = card.flags.focused && i == cursor;
        let shown = detail_row(glyphs, card, row, selected);
        if selected {
            paint::add_line(&mut out, layout::highlight_row(shown, card.width));
        } else {
            paint::add_line(&mut out, shown);
        }
        put_card_note(&mut out, card, row, selected);
        i = i + 1;
    }
    if let Some(t) = &card.resume {
        paint::add_line(&mut out, paint::blank());
        let u = text::joined("resumes: ", t);
        paint::add_line(&mut out, paint::single(&u, paint::ink(Role::Faint)));
    }
    (out, start)
}

/// The card of a member whose account is gone.
pub open spec fn gone_card() -> Seq<LineView> {
    Seq::empty().push(
        paint::single_of(
            "account no longer exists · remove it from the chain"@,
            paint::ink(Role::Danger),
        ),
    )
}

/// The card of a member whose account is gone.
pub fn missing_member() -> (r: Vec<Line>)
    ensures
        paint::lines_view(r@) == gone_card(),
{
    let mut out = paint::no_lines();
    paint::add_line(
        &mut out,
        paint::single(
            "account no longer exists · remove it from the chain",
            paint::ink(Role::Danger),
        ),
    );
    out
}

/// The first of the first `n` accounts marked as last resort under another name.
pub open spec fn other_last_resort(ps: Seq<ProfileView>, name: Seq<char>, n: nat) -> Option<
    Seq<char>,
>
    decreases n,
{
    if n == 0 {
        None
    } else {
        match other_last_resort(ps, name, (n - 1) as nat) {
            Some(m) => Some(m),
            None => if ps[n - 1].last_resort && ps[n - 1].name != name {
                Some(ps[n - 1].name)
            } else {
                None
            },
        }
    }
}

/// What the last-resort switch does from here; only one account can be marked.
pub open spec fn resort_hint(cfg: AppConfigView, name: Seq<char>, on: bool) -> Seq<char> {
    if on {
        "this account keeps working once every other one is spent"@
    } else {
        match other_last_resort(cfg.profiles, name, cfg.profiles.len()) {
            Some(m) => "make this the fallback of last resort instead of '"@ + m + "'"@,
            None => "keep using this account once every other one is spent"@,
        }
    }
}

/// What the last-resort switch does from here.
pub fn last_resort_hint(cfg: &AppConfig, name: &str, on: bool) -> (r: String)
    ensures
        r@ == resort_hint(cfg@, name@, on),
{
    if on {
        return "this account keeps working once every other one is spent".to_string();
    }
    let mut marked: Option<usize> = None;
    let mut i: usize = 0;
    assert(cfg@.profiles.len() == cfg.profiles@.len());
    while i < cfg.profiles.len()
        invariant
            i <= cfg.profiles@.len(),
            cfg@.profiles.len() == cfg.profiles@.len(),
            match marked {
                Some(k) => k < i && other_last_resort(cfg@.profiles, name@, i as nat) == Some(
                    cfg.profiles@[k as int].name@,
                ),
                None => other_last_resort(cfg@.profiles, name@, i as nat) is None,
            },
        decreases cfg.profiles@.len() - i,
    {
        let p = &cfg.profiles[i];
        assert(cfg@.profiles[i as int] == p@);
        if marked.is_none() && p.last_resort && !text::same_text(&p.name, name) {
            marked = Some(i);
        }
        i = i + 1;
    }
    match marked {
        Some(k) => text::joined3(
            "make this the fallback of last resort instead of '",
            &cfg.profiles[k].name,
            "'",
        ),
        None => "keep using this account once every other one is spent".to_string(),
    }
}

/// What is known of an account's paid usage.
#[derive(Debug)]
pub enum SpendRoom {
    /// Nothing was read, or nothing is left below the cap.
    Unknown,
    /// The account is not set up for it.
    NotSetUp,
    /// What is left before it stops.
    Left(String),
}

/// What a [`SpendRoom`] says.
pub enum SpendRoomView {
    Unknown,
    NotSetUp,
    Left(Seq<char>),
}

impl View for SpendRoom {
    type V = SpendRoomView;

    open spec fn view(&self) -> SpendRoomView {
        match self {
            SpendRoom::Unknown => SpendRoomView::Unknown,
            SpendRoom::NotSetUp => SpendRoomView::NotSetUp,
            SpendRoom::Left(t) => SpendRoomView::Left(t@),
        }
    }
}

/// What the spending cap does from here: which half of the opt-in holds it back, or what is left.
pub open spec fn spend_hint(budget_on: bool, cap: Option<Seq<char>>, room: SpendRoomView) -> Seq<
    char,
> {
    if !budget_on {
        "turn on allow extra usage in config before this does anything"@
    } else {
        match cap {
            None => "never spends here; type a ceiling to allow it"@,
            Some(c) => match room {
                SpendRoomView::NotSetUp => "this account isn't set up for paid usage"@,
                SpendRoomView::Left(t) => "$"@ + t + " left to spend here before it stops"@,
                SpendRoomView::Unknown => "spends at most $"@ + c
                    + " here once every account is spent"@,
            },
        }
    }
}

/// What the spending cap does from here; the cap is none where it is zero.
pub fn max_spend_hint(budget_on: bool, cap: &Option<String>, room: &SpendRoom) -> (r: String)
    ensures
        r@ == spend_hint(budget_on, text::opt_view(*cap), room@),
{
    if !budget_on {
        return "turn on allow extra usage in config before this does anything".to_string();
    }
    match cap {
        None => "never spends here; type a ceiling to allow it".to_string(),
        Some(c) => match room {
            SpendRoom::NotSetUp => "this account isn't set up for paid usage".to_string(),
            SpendRoom::Left(t) => text::joined3("$", t, " left to spend here before it stops"),
            SpendRoom::Unknown => text::joined3(
                "spends at most $",
                c,
                " here once every account is spent",
            ),
        },
    }
}

/// The number of a chain member, right-aligned in three cells.
pub open spec fn ordinal(i: int) -> Seq<char> {
    let n = "#"@ + text::decimal((i + 1) as nat);
    text::fill(' ', text::monus(3, n.len() as int) as nat) + n
}

/// A member's row in the chain list: a blocked one carries its mark at the right edge.
pub open spec fn member_line(
    i: int,
    name: Seq<char>,
    active: bool,
    disabled: bool,
    reason: Option<ReasonView>,
    shown: bool,
    width: int,
) -> LineView {
    let rail = if shown {
        paint::span_of("❯ "@ + ordinal(i) + " "@, paint::ink(Role::Accent).strong())
    } else {
        paint::span_of("  "@ + ordinal(i) + " "@, paint::ink(Role::Faint))
    };
    let style = if disabled {
        paint::ink(Role::Dim)
    } else {
        layout::name_color(active)
    };
    let head = Seq::empty().push(rail).push(
        paint::span_of(name, paint::bold_when(style, shown)),
    );
    paint::line_of(
        match reason {
            Some(r) => {
                let pad = text::monus(width, paint::spans_columns(head) + 1);
                let padded = if pad > 0 {
                    head.push(paint::blanks_of(pad as nat))
                } else {
                    head
                };
                padded.push(mark_of(r))
            },
            None => head,
        },
    )
}

fn ordinal_text(i: usize) -> (r: String)
    requires
        i < usize::MAX,
    ensures
        r@ == ordinal(i as int),
{
    let n = text::joined("#", &text::decimal_text((i + 1) as u64));
    let len: usize = n.as_str().unicode_len();
    let pad = text::fill_text(' ', 3usize.saturating_sub(len));
    text::joined(&pad, &n)
}

/// A member's row in the chain list.
pub fn member_row(
    i: usize,
    name: &str,
    active: bool,
    disabled: bool,
    reason: &Option<Reason>,
    selected: bool,
    focused: bool,
    width: u16,
) -> (r: Line)
    requires
        i < usize::MAX,
    ensures
        r@ == layout::shown_row(
            member_line(
                i as int,
                name@,
                active,
                disabled,
                opt_reason(*reason),
                selected && focused,
                width as int,
            ),
            selected,
            focused,
            width as int,
        ),
{
    let shown = selected && focused;
    let mut v = paint::no_spans();
    let n = ordinal_text(i);
    if shown {
        let t = text::joined3("❯ ", &n, " ");
        paint::put(&mut v, &t, paint::ink(Role::Accent).strong());
    } else {
        let t = text::joined3("  ", &n, " ");
        paint::put(&mut v, &t, paint::ink(Role::Faint));
    }
    let style = if disabled {
        paint::ink(Role::Dim)
    } else {
        layout::name_color(active)
    };
    paint::put(&mut v, name, paint::bold_when(style, shown));
    if let Some(r) = reason {
        let used: usize = paint::columns_of(&v).saturating_add(1);
        let pad: usize = (width as usize).saturating_sub(used);
        if pad > 0 {
            paint::put_blanks(&mut v, pad);
        }
        paint::put_span(&mut v, reason_marker(r));
    }
    layout::select_line(paint::line(v), selected, focused, width)
}

/// The row that adds to the chain.
pub open spec fn add_line_of(selected: bool, focused: bool, width: int) -> LineView {
    layout::shown_row(
        paint::line_of(
            Seq::empty().push(layout::caret_span(selected && focused)).push(
                paint::span_of(
                    "    + add"@,
                    paint::bold_when(paint::ink(Role::Accent), selected && focused),
                ),
            ),
        ),
        selected,
        focused,
        width,
    )
}

/// The row that adds to the chain.
pub fn add_row(selected: bool, focused: bool, width: u16) -> (r: Line)
    ensures
        r@ == add_line_of(selected, focused, width as int),
{
    let mut v = paint::no_spans();
    paint::put_span(&mut v, layout::caret(selected && focused));
    paint::put(
        &mut v,
        "    + add",
        paint::bold_when(paint::ink(Role::Accent), selected && focused),
    );
    layout::select_line(paint::line(v), selected, focused, width)
}

/// The rows of the first `n` entries of the chain list.
pub open spec fn chain_list(
    cfg: AppConfigView,
    disabled: Seq<bool>,
    reasons: Seq<Option<ReasonView>>,
    sel: int,
    focused: bool,
    width: int,
    n: nat,
) -> Seq<LineView>
    decreases n,
{
    if n == 0 {
        Seq::empty()
    } else {
        let i = n - 1;
        chain_list(cfg, disabled, reasons, sel, focused, width, (n - 1) as nat).push(
            match cfg.chain_items()[i] {
                ChainItemKind::Member(_) => layout::shown_row(
                    member_line(
                        i,
                        cfg.state.fallback_chain[i],
                        cfg.is_active(cfg.state.fallback_chain[i]),
                        disabled[i],
                        reasons[i],
                        i == sel && focused,
                        width,
                    ),
                    i == sel,
                    focused,
                    width,
                ),
                ChainItemKind::Add => add_line_of(i == sel, focused, width),
            },
        )
    }
}

/// The views of the members' reasons.
pub open spec fn reason_views(v: Seq<Option<Reason>>) -> Seq<Option<ReasonView>> {
    v.map_values(|r: Option<Reason>| opt_reason(r))
}

/// The chain list: one entry per member, then the one that adds.
pub fn chain_rows(
    cfg: &AppConfig,
    disabled: &Vec<bool>,
    reasons: &Vec<Option<Reason>>,
    cursor: usize,
    focused: bool,
    width: u16,
) -> (r: Vec<Line>)
    requires
        disabled@.len() == cfg@.state.fallback_chain.len(),
        reasons@.len() == cfg@.state.fallback_chain.len(),
        cfg@.state.fallback_chain.len() < usize::MAX,
    ensures
        paint::lines_view(r@) == chain_list(
            cfg@,
            disabled@,
            reason_views(reasons@),
            text::min_int(cursor as int, text::monus(cfg@.chain_items().len() as int, 1)),
            focused,
            width as int,
            cfg@.chain_items().len(),
        ),
{
    let items = chain::chain_items(cfg);
    let sel: usize = text::min_usize(cursor, items.len().saturating_sub(1));
    let ghost marks = reason_views(reasons@);
    let mut out = paint::no_lines();
    let mut i: usize = 0;
    while i < items.len()
        invariant
            i <= items@.len(),
            items@ == cfg@.chain_items(),
            marks == reason_views(reasons@),
            disabled@.len() == cfg@.state.fallback_chain.len(),
            reasons@.len() == cfg@.state.fallback_chain.len(),
            cfg@.state.fallback_chain.len() < usize::MAX,
            paint::lines_view(out@) == chain_list(
                cfg@,
                disabled@,
                marks,
                sel as int,
                focused,
                width as int,
                i as nat,
            ),
        decreases items@.len() - i,
    {
        match items[i] {
            ChainItemKind::Member(k) => {
                assert(i < cfg@.state.fallback_chain.len() && k == i);
                assert(cfg@.state.fallback_chain[i as int]
                    == cfg.state.fallback_chain@[i as int]@);
                assert(marks[i as int] == opt_reason(reasons@[i as int]));
                let name = cfg.state.fallback_chain[i].as_str();
                let row = member_row(
                    i,
                    name,
                    cfg.is_active(name),
                    disabled[i],
                    &reasons[i],
                    i == sel,
                    focused,
                    width,
                );
                paint::add_line(&mut out, row);
            },
            ChainItemKind::Add => {
                paint::add_line(&mut out, add_row(i == sel, focused, width));
            },
        }
        i = i + 1;
    }
    out
}

/// What the detail pane beside the chain shows.
pub fn shown_item(cfg: &AppConfig, cursor: usize) -> (r: Option<ChainItemKind>)
    ensures
        r == ({
            let items = cfg@.chain_items();
            if items.len() == 0 {
                None
            } else {
                Some(items[text::min_int(cursor as int, items.len() - 1)])
            }
        }),
{
    let items = chain::chain_items(cfg);
    if items.len() == 0 {
        None
    } else {
        Some(items[text::min_usize(cursor, items.len() - 1)])
    }
}

/// The candidates, with the cursor on one of them.
pub open spec fn candidate_rows(before: Seq<LineView>, names: Seq<Seq<char>>, cursor: int, width:
    int, n: nat) -> Seq<LineView>
    decreases n,
{
    if n == 0 {
        before
    } else {
        let selected = n - 1 == text::min_int(cursor, text::monus(names.len() as int, 1));
        let row = paint::line_of(
            Seq::empty().push(layout::caret_span(selected)).push(
                paint::span_of(
                    names[n - 1],
                    paint::bold_when(paint::ink(Role::Body), selected),
                ),
            ),
        );
        candidate_rows(before, names, cursor, width, (n - 1) as nat).push(
            if selected {
                layout::barred(row, width, paint::ink(Role::Plain))
            } else {
                row
            },
        )
    }
}

/// The lines of a wrapped text in one style.
pub open spec fn prose(s: Seq<char>, width: nat, style: Style) -> Seq<LineView> {
    let segs = wrapping::wrapped(s, width);
    Seq::new(segs.len(), |i: int| paint::single_of(segs[i], style))
}

/// Appends the lines of a wrapped text in one style.
pub fn put_prose(out: &mut Vec<Line>, s: &str, width: usize, style: Style)
    ensures
        paint::lines_view(final(out)@) == paint::lines_view(old(out)@) + prose(
            s@,
            width as nat,
            style,
        ),
{
    let segs = wrapping::wrap_words(s, width);
    let ghost all = text::views(segs@);
    let ghost start = paint::lines_view(out@);
    let ghost rows = prose(s@, width as nat, style);
    let mut i: usize = 0;
    assert(start + rows.take(0) =~= start);
    while i < segs.len()
        invariant
            i <= segs@.len(),
            all == text::views(segs@),
            rows == Seq::new(all.len(), |j: int| paint::single_of(all[j], style)),
            paint::lines_view(out@) == start + rows.take(i as int),
        decreases segs@.len() - i,
    {
        assert(all[i as int] == segs@[i as int]@);
        paint::add_line(out, paint::single(&segs[i], style));
        i = i + 1;
        assert(paint::lines_view(out@) =~= start + rows.take(i as int));
    }
    assert(rows.take(i as int) =~= rows);
}

/// The pane that adds to the chain.
pub open spec fn add_pane(
    host: HostView,
    names: Seq<Seq<char>>,
    cursor: int,
    focused: bool,
    width: int,
) -> Seq<LineView> {
    let dim = paint::ink(Role::Dim);
    let head = (Seq::empty().push(paint::single_of("add an account to the rotation"@, dim)).push(
        paint::blank_of(),
    ) + prose(
        "when an account runs out, clauth points "@ + layout::lower(host.product)
            + " at the next one."@,
        width as nat,
        dim,
    )).push(paint::blank_of());
    if names.len() == 0 {
        head.push(
            paint::single_of("every account is already in the chain"@, paint::ink(Role::Faint)),
        )
    } else if !focused {
        head
    } else {
        candidate_rows(head, names, cursor, width, names.len())
    }
}

/// The pane that adds to the chain.
pub fn add_detail(host: &Host, cfg: &AppConfig, cursor: usize, focused: bool, width: usize) -> (r: Vec<
    Line,
>)
    ensures
        paint::lines_view(r@) == add_pane(
            host@,
            cfg@.candidates(),
            cursor as int,
            focused,
            width as int,
        ),
{
    let names = chain::chain_candidates(cfg);
    let ghost all = cfg@.candidates();
    assert(all.len() == names@.len());
    let dim = paint::ink(Role::Dim);
    let mut out = paint::no_lines();
    paint::add_line(&mut out, paint::single("add an account to the rotation", dim));
    paint::add_line(&mut out, paint::blank());
    let t = text::joined3(
        "when an account runs out, clauth points ",
        &layout::lowercase(&host.product),
        " at the next one.",
    );
    put_prose(&mut out, &t, width, dim);
    paint::add_line(&mut out, paint::blank());
    let ghost head = paint::lines_view(out@);
    if names.len() == 0 {
        paint::add_line(
            &mut out,
            paint::single("every account is already in the chain", paint::ink(Role::Faint)),
        );
        return out;
    }
    if !focused {
        return out;
    }
    let at: usize = text::min_usize(cursor, names.len() - 1);
    let mut i: usize = 0;
    while i < names.len()
        invariant
            i <= names@.len(),
            names@.len() > 0,
            all == text::views(names@),
            at == text::min_int(cursor as int, names@.len() - 1),
            paint::lines_view(out@) == candidate_rows(
                head,
                all,
                cursor as int,
                width as int,
                i as nat,
            ),
        decreases names@.len() - i,
    {
        let selected = i == at;
        assert(all[i as int] == names@[i as int]@);
        let mut v = paint::no_spans();
        paint::put_span(&mut v, layout::caret(selected));
        paint::put(&mut v, &names[i], paint::bold_when(paint::ink(Role::Body), selected));
        let row = paint::line(v);
        if selected {
            paint::add_line(&mut out, layout::highlight_row(row, width));
        } else {
            paint::add_line(&mut out, row);
        }
        i = i + 1;
    }
    out
}

/// The pane of an empty chain.
pub open spec fn empty_pane() -> Seq<LineView> {
    let dim = paint::ink(Role::Dim);
    Seq::empty().push(paint::single_of("chain is empty"@, dim)).push(paint::blank_of()).push(
        paint::single_of("create an account first, then add it to the chain."@, dim),
    )
}

/// The pane of an empty chain.
pub fn empty_detail() -> (r: Vec<Line>)
    ensures
        paint::lines_view(r@) == empty_pane(),
{
    let dim = paint::ink(Role::Dim);
    let mut out = paint::no_lines();
    paint::add_line(&mut out, paint::single("chain is empty", dim));
    paint::add_line(&mut out, paint::blank());
    paint::add_line(
        &mut out,
        paint::single("create an account first, then add it to the chain.", dim),
    );
    out
}

/// Where the text cursor of a card stands: on the row being typed, if that row is on the pane.
/// The cap has its sign before the typed value.
pub fn card_caret(
    rows: &Vec<FallbackRow>,
    rows_start: usize,
    threshold_head: Option<usize>,
    spend_head: Option<usize>,
    height: u16,
) -> (r: Option<(usize, usize)>)
    ensures
        r == ({
            let (row, col) = match threshold_head {
                Some(h) => (Some(FallbackRow::Threshold), 15 + h),
                None => match spend_head {
                    Some(h) => (Some(FallbackRow::MaxSpend), 16 + h),
                    None => (None, 0),
                },
            };
            match row {
                Some(w) => match place_of(rows@, w, rows@.len()) {
                    Some(i) => if rows_start + i < height {
                        Some(
                            (
                                (rows_start + i) as usize,
                                text::min_int(col, usize::MAX as int) as usize,
                            ),
                        )
                    } else {
                        None
                    },
                    None => None,
                },
                None => None,
            }
        }),
{
    let (row, lead, head): (FallbackRow, usize, usize) = match threshold_head {
        Some(h) => (FallbackRow::Threshold, 15, h),
        None => match spend_head {
            Some(h) => (FallbackRow::MaxSpend, 16, h),
            None => return None,
        },
    };
    let mut found: Option<usize> = None;
    let mut i: usize = 0;
    while i < rows.len()
        invariant
            i <= rows@.len(),
            match found {
                Some(k) => k < i && place_of(rows@, row, i as nat) == Some(k as int),
                None => place_of(rows@, row, i as nat) is None,
            },
        decreases rows@.len() - i,
    {
        if found.is_none() && rows[i] == row {
            found = Some(i);
        }
        i = i + 1;
    }
    match found {
        Some(k) => {
            let y: usize = rows_start.saturating_add(k);
            if y < height as usize {
                Some((y, lead.saturating_add(head)))
            } else {
                None
            }
        },
        None => None,
    }
}

/// The first place of a row among the first `n`.
pub open spec fn place_of(rows: Seq<FallbackRow>, row: FallbackRow, n: nat) -> Option<int>
    decreases n,
{
    if n == 0 {
        None
    } else {
        match place_of(rows, row, (n - 1) as nat) {
            Some(k) => Some(k),
            None => if rows[n - 1] == row {
                Some(n - 1)
            } else {
                None
            },
        }
    }
}

/// Every reason has its own mark: two reasons that share a shape differ in hue.
pub proof fn marks_tell_reasons_apart(a: ReasonView, b: ReasonView)
    requires
        mark_of(a) == mark_of(b),
    ensures
        a is Disabled == b is Disabled,
        a is Canceled == b is Canceled,
        a is AuthBroken == b is AuthBroken,
        a is WeeklySpent == b is WeeklySpent,
        a is KickRejected == b is KickRejected,
        a is BudgetSpent == b is BudgetSpent,
        a is FiveHour == b is FiveHour,
        a is ScopedSpent == b is ScopedSpent,
        a is WeeklySoft == b is WeeklySoft,
        a is Stale == b is Stale,
{
    reveal_strlit("⊖");
    reveal_strlit("×");
    reveal_strlit("⊘");
    reveal_strlit("⧗");
    reveal_strlit("$");
    reveal_strlit("◔");
    reveal_strlit("~");
    reveal_strlit("⋯");
    assert("⊖"@[0] == '⊖');
    assert("×"@[0] == '×');
    assert("⊘"@[0] == '⊘');
    assert("⧗"@[0] == '⧗');
    assert("$"@[0] == '$');
    assert("◔"@[0] == '◔');
    assert("~"@[0] == '~');
    assert("⋯"@[0] == '⋯');
    assert(mark_of(a).text[0] == mark_of(b).text[0]);
}

} // verus!
