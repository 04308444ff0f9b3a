//! Figures of an account: fixed-width cells, bars, the window summary, the header gauge.

use vstd::prelude::*;

use crate::clock;
use crate::host::{Host, HostView};
use crate::model::FetchStatus;
use crate::paint;
use crate::paint::{Role, Span, SpanView, Style};
use crate::text;

verus! {

/// The blanks that fill a clipped text up to `width`.
pub open spec fn padding(value: Seq<char>, width: nat) -> Seq<char> {
    text::fill(' ', (width - text::clipped(value, width).len()) as nat)
}

/// A text clipped to `width`, and the blanks that fill it up.
pub fn fixed_split(value: &str, width: usize) -> (r: (String, String))
    ensures
        r.0@ == text::clipped(value@, width as nat),
        r.1@ == padding(value@, width as nat),
        r.0@.len() + r.1@.len() == width,
{
    let content = text::truncate(value, width);
    let len: usize = content.as_str().unicode_len();
    let pad = text::fill_text(' ', width - len);
    (content, pad)
}

/// A text as a cell of exactly `width` characters.
pub open spec fn fixed_text(value: Seq<char>, width: nat) -> Seq<char> {
    text::clipped(value, width) + padding(value, width)
}

/// A text as a cell of exactly `width` characters.
pub fn fixed(value: &str, width: usize) -> (r: String)
    ensures
        r@ == fixed_text(value@, width as nat),
        r@.len() == width,
{
    let (content, pad) = fixed_split(value, width);
    text::joined(&content, &pad)
}

/// A cell is as wide as asked; a text that fits stands in it whole, one that does not ends in an
/// ellipsis.
pub proof fn cells_have_their_width(value: Seq<char>, width: nat)
    ensures
        fixed_text(value, width).len() == width,
        value.len() <= width ==> text::begins_with(fixed_text(value, width), value),
        value.len() > width > 0 ==> fixed_text(value, width).last() == '…' && fixed_text(
            value,
            width,
        ).take(width - 1) == value.take(width - 1),
{
    let cell = fixed_text(value, width);
    if value.len() <= width {
        assert(cell.take(value.len() as int) =~= value);
    } else if width > 0 {
        assert(padding(value, width) =~= Seq::empty());
        assert(cell =~= text::clipped(value, width));
        assert(cell.take(width - 1) =~= value.take(width - 1));
    }
}

/// The hue that tells stale or failed readings; only logins are read.
pub open spec fn cue_role(oauth: bool, status: Option<FetchStatus>) -> Option<Role> {
    if !oauth {
        None
    } else {
        match status {
            Some(FetchStatus::Cached) => Some(Role::Warning),
            Some(FetchStatus::RateLimited) => Some(Role::Warning),
            Some(FetchStatus::Failed) => Some(Role::Danger),
            _ => None,
        }
    }
}

/// The hue that tells stale or failed readings.
pub fn fetch_cue_color(oauth: bool, status: Option<FetchStatus>) -> (r: Option<Role>)
    ensures
        r == cue_role(oauth, status),
{
    if !oauth {
        return None;
    }
    match status {
        Some(FetchStatus::Cached) => Some(Role::Warning),
        Some(FetchStatus::RateLimited) => Some(Role::Warning),
        Some(FetchStatus::Failed) => Some(Role::Danger),
        _ => None,
    }
}

/// The cue where there is one, else the resting style.
#[verifier::allow_in_spec]
pub fn cue_style(cue: Option<Role>, resting: Style) -> (r: Style)
    returns
        (match cue {
            Some(role) => paint::ink(role),
            None => resting,
        }),
{
    match cue {
        Some(role) => paint::ink(role),
        None => resting,
    }
}

/// What kind of account a row shows: the other tool's, an endpoint, or the plan without its
/// brand.
pub open spec fn kind_label(host: HostView, other_tool: bool, oauth: bool, plan: Seq<char>) -> Seq<
    char,
> {
    let brand = host.brand + " "@;
    if other_tool {
        "Codex"@
    } else if !oauth {
        "API"@
    } else if text::begins_with(plan, brand) {
        plan.skip(brand.len() as int)
    } else {
        plan
    }
}

/// What kind of account a row shows.
pub fn account_type_label(host: &Host, other_tool: bool, oauth: bool, plan: &str) -> (r: String)
    ensures
        r@ == kind_label(host@, other_tool, oauth, plan@),
{
    if other_tool {
        return "Codex".to_string();
    }
    if !oauth {
        return "API".to_string();
    }
    let brand = text::joined(&host.brand, " ");
    if text::starts_with_text(plan, &brand) {
        let n: usize = plan.unicode_len();
        let k: usize = brand.as_str().unicode_len();
        assert(plan@.subrange(k as int, n as int) =~= plan@.skip(k as int));
        plan.substring_char(k, n).to_string()
    } else {
        plan.to_string()
    }
}

/// A bar of `cells` cells, `filled` of them full.
pub open spec fn bar_text(filled: nat, cells: nat) -> Seq<char> {
    let full = if filled <= cells {
        filled
    } else {
        cells
    };
    text::fill('█', full) + text::fill('░', (cells - full) as nat)
}

/// A bar of `cells` cells, `filled` of them full.
pub fn bar_string_with_cells(filled: usize, cells: usize) -> (r: String)
    ensures
        r@ == bar_text(filled as nat, cells as nat),
{
    let full: usize = text::min_usize(filled, cells);
    text::joined(&text::fill_text('█', full), &text::fill_text('░', cells - full))
}

/// Cells of the bar in a summary of the given width; none where there is no room for a bar.
pub open spec fn summary_bar_cells(width: int, include_bar: bool) -> int {
    if !include_bar || width < 12 {
        0
    } else if width >= 17 {
        10
    } else {
        text::min_int(text::max_int(width - 7, 3), 7)
    }
}

/// Cells of the bar in a summary of the given width.
pub fn summary_cells(width: usize, include_bar: bool) -> (r: usize)
    ensures
        r == summary_bar_cells(width as int, include_bar),
{
    if !include_bar || width < 12 {
        0
    } else if width >= 17 {
        10
    } else {
        text::min_usize(text::max_usize(width - 7, 3), 7)
    }
}

/// A usage window, ready to be drawn.
#[derive(Debug)]
pub struct WindowCells {
    /// Full cells of a bar of [`summary_cells`] cells.
    pub filled: usize,
    /// The percentage, right-aligned in three characters, without the sign.
    pub percent: String,
    /// The hue of the figure.
    pub heat: Role,
    /// The suffix that tells the reset.
    pub suffix: Option<String>,
}

/// The content of a window ready to be drawn.
pub struct WindowCellsView {
    pub filled: nat,
    pub percent: Seq<char>,
    pub heat: Role,
    pub suffix: Option<Seq<char>>,
}

impl View for WindowCells {
    type V = WindowCellsView;

    open spec fn view(&self) -> WindowCellsView {
        WindowCellsView {
            filled: self.filled as nat,
            percent: self.percent@,
            heat: self.heat,
            suffix: text::opt_view(self.suffix),
        }
    }
}

/// The summary of a window: bar and percentage as far as the width allows, the reset in the
/// widest form.
pub open spec fn window_summary(
    window: Option<WindowCellsView>,
    width: int,
    include_bar: bool,
    reset_style: Option<Style>,
) -> Seq<SpanView> {
    match window {
        None => Seq::empty().push(paint::span_of("—"@, paint::ink(Role::Faint))),
        Some(w) => {
            let style = paint::ink(w.heat);
            let cells = summary_bar_cells(width, include_bar);
            if cells == 0 {
                Seq::empty().push(paint::span_of(w.percent + "%"@, style))
            } else {
                let barred = Seq::empty().push(paint::span_of("["@, paint::ink(Role::Dim))).push(
                    paint::span_of(bar_text(w.filled, cells as nat), style),
                ).push(paint::span_of("]"@, paint::ink(Role::Dim))).push(
                    paint::span_of(" "@ + w.percent + "%"@, style),
                );
                match w.suffix {
                    Some(s) => if width >= 26 {
                        clock::suffix_spans(
                            barred,
                            s,
                            match reset_style {
                                Some(rs) => rs,
                                None => paint::ink(Role::Faint),
                            },
                        )
                    } else {
                        barred
                    },
                    None => barred,
                }
            }
        },
    }
}

/// The optional view of a window ready to be drawn.
pub open spec fn opt_window(w: Option<&WindowCells>) -> Option<WindowCellsView> {
    match w {
        Some(c) => Some(c@),
        None => None,
    }
}

/// The summary of a window in the accounts table.
pub fn window_summary_spans_bracketed(
    window: Option<&WindowCells>,
    width: usize,
    include_bar: bool,
    reset_style: Option<Style>,
) -> (r: Vec<Span>)
    ensures
        paint::spans_view(r@) == window_summary(
            opt_window(window),
            width as int,
            include_bar,
            reset_style,
        ),
{
    let mut v = paint::no_spans();
    let w = match window {
        Some(w) => w,
        None => {
            paint::put(&mut v, "—", paint::ink(Role::Faint));
            return v;
        },
    };
    let style = paint::ink(w.heat);
    let cells: usize = summary_cells(width, include_bar);
    if cells == 0 {
        let t = text::joined(&w.percent, "%");
        paint::put(&mut v, &t, style);
        return v;
    }
    paint::put(&mut v, "[", paint::ink(Role::Dim));
    let bar = bar_string_with_cells(w.filled, cells);
    paint::put(&mut v, &bar, style);
    paint::put(&mut v, "]", paint::ink(Role::Dim));
    let t = text::joined3(" ", &w.percent, "%");
    paint::put(&mut v, &t, style);
    if width >= 26 {
        if let Some(s) = &w.suffix {
            let rs = match reset_style {
                Some(rs) => rs,
                None => paint::ink(Role::Faint),
            };
            clock::put_suffix(&mut v, s, rs);
        }
    }
    v
}

/// Cells between the name and the bar of the header gauge.
pub const GAUGE_NAME_GAP: usize = 2;

/// Cells of the gauge's bar at full size.
pub const GAUGE_BAR_FULL: usize = 10;

/// Fewest cells of the gauge's bar.
pub const GAUGE_BAR_MIN: usize = 3;

/// Most characters of the gauge's name.
pub const GAUGE_NAME_MAX: usize = 16;

/// Fewest characters a name is cut to.
pub const GAUGE_NAME_MIN: usize = 3;

/// Cells of a percentage.
pub const GAUGE_PCT_W: usize = 4;

/// Cells of the dash that stands for no figure.
pub const GAUGE_DASH_W: usize = 1;

/// How much of the header gauge is shown.
#[derive(Clone, Copy, Debug, PartialEq, Eq, Structural)]
pub struct GaugeFit {
    pub name_w: usize,
    pub bar_cells: usize,
    pub visible: bool,
}

/// No gauge at all.
#[verifier::allow_in_spec]
pub fn hidden_gauge() -> (r: GaugeFit)
    returns
        (GaugeFit { name_w: 0, bar_cells: 0, visible: false }),
{
    GaugeFit { name_w: 0, bar_cells: 0, visible: false }
}

/// Cells of the figure at the end of the gauge.
pub open spec fn tail_cells(has_pct: bool) -> int {
    if has_pct {
        GAUGE_PCT_W as int
    } else {
        GAUGE_DASH_W as int
    }
}

/// Cells of the figure at the end of the gauge.
pub fn gauge_tail_w(has_pct: bool) -> (r: usize)
    ensures
        r == tail_cells(has_pct),
{
    if has_pct {
        GAUGE_PCT_W
    } else {
        GAUGE_DASH_W
    }
}

/// Cells of a gauge with a name and a bar of the given sizes.
pub open spec fn gauge_cells(name_w: int, bar_cells: int, has_pct: bool) -> int {
    tail_cells(has_pct) + (if bar_cells > 0 {
        bar_cells + 3
    } else {
        0
    }) + (if name_w > 0 {
        name_w + GAUGE_NAME_GAP
    } else {
        0
    })
}

/// Cells of a gauge with a name and a bar of the given sizes.
pub fn gauge_total_w(name_w: usize, bar_cells: usize, has_pct: bool) -> (r: usize)
    requires
        gauge_cells(name_w as int, bar_cells as int, has_pct) <= usize::MAX,
    ensures
        r == gauge_cells(name_w as int, bar_cells as int, has_pct),
{
    let mut w: usize = gauge_tail_w(has_pct);
    if bar_cells > 0 {
        w = w + (bar_cells + 3);
    }
    if name_w > 0 {
        w = w + (name_w + GAUGE_NAME_GAP);
    }
    w
}

/// The gauge that fits: the bar shrinks, then drops, then the name is cut, then it drops, then
/// the gauge hides.
pub open spec fn fitted_gauge(avail: int, name_len: int, has_pct: bool) -> GaugeFit {
    let name = text::min_int(name_len, GAUGE_NAME_MAX as int);
    let floor = text::min_int(GAUGE_NAME_MIN as int, name_len);
    let tail = tail_cells(has_pct);
    let named = if name > 0 {
        name + GAUGE_NAME_GAP
    } else {
        0
    };
    let bar_room = avail - tail - named - 3;
    if avail < tail {
        hidden_gauge()
    } else if has_pct && bar_room >= GAUGE_BAR_MIN {
        GaugeFit {
            name_w: name as usize,
            bar_cells: text::min_int(bar_room, GAUGE_BAR_FULL as int) as usize,
            visible: true,
        }
    } else if tail + named <= avail {
        GaugeFit { name_w: name as usize, bar_cells: 0, visible: true }
    } else if avail - tail - GAUGE_NAME_GAP >= floor {
        GaugeFit { name_w: (avail - tail - GAUGE_NAME_GAP) as usize, bar_cells: 0, visible: true }
    } else {
        GaugeFit { name_w: 0, bar_cells: 0, visible: true }
    }
}

/// The gauge that fits.
pub fn gauge_fit(avail: usize, name_len: usize, has_pct: bool) -> (r: GaugeFit)
    ensures
        r == fitted_gauge(avail as int, name_len as int, has_pct),
{
    if avail < gauge_tail_w(has_pct) {
        return hidden_gauge();
    }
    let mut name_w: usize = text::min_usize(name_len, GAUGE_NAME_MAX);
    let mut bar_cells: usize = if has_pct {
        GAUGE_BAR_FULL
    } else {
        0
    };
    let floor: usize = text::min_usize(GAUGE_NAME_MIN, name_len);
    while gauge_total_w(name_w, bar_cells, has_pct) > avail && bar_cells > GAUGE_BAR_MIN
        invariant
            name_w == text::min_int(name_len as int, GAUGE_NAME_MAX as int),
            has_pct ==> GAUGE_BAR_MIN <= bar_cells <= GAUGE_BAR_FULL,
            !has_pct ==> bar_cells == 0,
            has_pct && bar_cells < GAUGE_BAR_FULL ==> gauge_cells(
                name_w as int,
                bar_cells + 1,
                has_pct,
            ) > avail,
        decreases bar_cells,
    {
        bar_cells = bar_cells - 1;
    }
    if bar_cells > 0 && gauge_total_w(name_w, bar_cells, has_pct) > avail {
        bar_cells = 0;
    }
    let ghost full = name_w;
    while gauge_total_w(name_w, bar_cells, has_pct) > avail && name_w > floor
        invariant
            floor <= name_w <= full,
            full == text::min_int(name_len as int, GAUGE_NAME_MAX as int),
            floor == text::min_int(GAUGE_NAME_MIN as int, name_len as int),
            bar_cells <= GAUGE_BAR_FULL,
            name_w < full ==> gauge_cells(name_w + 1, bar_cells as int, has_pct) > avail,
        decreases name_w,
    {
        name_w = name_w - 1;
    }
    if name_w > 0 && gauge_total_w(name_w, bar_cells, has_pct) > avail {
        name_w = 0;
    }
    if gauge_total_w(name_w, bar_cells, has_pct) > avail {
        return hidden_gauge();
    }
    GaugeFit { name_w, bar_cells, visible: true }
}

/// A gauge never takes more cells than it was given, and hides only where not even its figure
/// fits. A bar never costs characters of the name.
pub proof fn gauges_fit(avail: int, name_len: int, has_pct: bool)
    requires
        0 <= avail <= usize::MAX,
        0 <= name_len <= usize::MAX,
    ensures
        ({
            let fit = fitted_gauge(avail, name_len, has_pct);
            &&& fit.visible ==> gauge_cells(fit.name_w as int, fit.bar_cells as int, has_pct)
                <= avail
            &&& fit.visible <==> tail_cells(has_pct) <= avail
            &&& fit.bar_cells > 0 ==> fit.name_w == text::min_int(
                name_len,
                GAUGE_NAME_MAX as int,
            )
        }),
{
}

/// A percentage ready to be drawn.
#[derive(Debug)]
pub struct Figure {
    /// Full cells of a bar of the fitted size.
    pub filled: usize,
    pub percent: String,
    pub heat: Role,
}

/// The content of a percentage ready to be drawn.
pub struct FigureView {
    pub filled: nat,
    pub percent: Seq<char>,
    pub heat: Role,
}

impl View for Figure {
    type V = FigureView;

    open spec fn view(&self) -> FigureView {
        FigureView { filled: self.filled as nat, percent: self.percent@, heat: self.heat }
    }
}

/// The optional view of a figure.
pub open spec fn opt_figure(f: Option<Figure>) -> Option<FigureView> {
    match f {
        Some(x) => Some(x@),
        None => None,
    }
}

/// A name drawn with the wave where it runs.
#[verifier::allow_in_spec]
pub fn wave(style: Style, running: bool) -> (r: Style)
    returns
        (if running {
            style.pulsed()
        } else {
            style
        }),
{
    if running {
        style.pulsed()
    } else {
        style
    }
}

/// The header gauge: name, bar and figure as fitted.
pub open spec fn gauge_line(
    fit: GaugeFit,
    name: Seq<char>,
    figure: Option<FigureView>,
    running: bool,
) -> Seq<SpanView> {
    let named = if fit.name_w > 0 {
        Seq::empty().push(
            paint::span_of(
                text::clipped(name, fit.name_w as nat),
                wave(paint::ink(Role::Text), running),
            ),
        ).push(paint::raw_of("  "@))
    } else {
        Seq::empty()
    };
    match figure {
        Some(f) => if fit.bar_cells > 0 {
            named.push(paint::span_of("["@, paint::ink(Role::Dim))).push(
                paint::span_of(bar_text(f.filled, fit.bar_cells as nat), paint::ink(f.heat)),
            ).push(paint::span_of("]"@, paint::ink(Role::Dim))).push(
                paint::span_of(" "@ + f.percent + "%"@, paint::ink(f.heat)),
            )
        } else {
            named.push(paint::span_of(f.percent + "%"@, paint::ink(f.heat)))
        },
        None => named.push(paint::span_of("—"@, paint::ink(Role::Faint))),
    }
}

/// The header gauge.
pub fn gauge_spans(fit: GaugeFit, name: &str, figure: &Option<Figure>, running: bool) -> (r: Vec<
    Span,
>)
    ensures
        paint::spans_view(r@) == gauge_line(fit, name@, opt_figure(*figure), running),
{
    let mut v = paint::no_spans();
    if fit.name_w > 0 {
        let (shown, _pad) = fixed_split(name, fit.name_w);
        paint::put(&mut v, &shown, wave(paint::ink(Role::Text), running));
        paint::put_raw(&mut v, "  ");
    }
    match figure {
        Some(f) => {
            let style = paint::ink(f.heat);
            if fit.bar_cells > 0 {
                paint::put(&mut v, "[", paint::ink(Role::Dim));
                let bar = bar_string_with_cells(f.filled, fit.bar_cells);
                paint::put(&mut v, &bar, style);
                paint::put(&mut v, "]", paint::ink(Role::Dim));
                let t = text::joined3(" ", &f.percent, "%");
                paint::put(&mut v, &t, style);
            } else {
                let t = text::joined(&f.percent, "%");
                paint::put(&mut v, &t, style);
            }
        },
        None => {
            paint::put(&mut v, "—", paint::ink(Role::Faint));
        },
    }
    v
}

/// Milliseconds of the wave's run.
pub const PULSE_SWEEP_MS: u64 = 900;

/// Milliseconds between two runs.
pub const PULSE_REST_MS: u64 = 1700;

/// How far into its run the wave is, if it runs; only the full tier has it.
pub fn pulse_phase(full: bool, elapsed_ms: u64) -> (r: Option<u64>)
    ensures
        r == if full && elapsed_ms % 2600 < PULSE_SWEEP_MS {
            Some((elapsed_ms % 2600) as u64)
        } else {
            None
        },
{
    if !full {
        return None;
    }
    let t: u64 = elapsed_ms % (PULSE_SWEEP_MS + PULSE_REST_MS);
    if t >= PULSE_SWEEP_MS {
        None
    } else {
        Some(t)
    }
}

/// The plural ending of a count.
pub open spec fn plural_ending(n: int) -> Seq<char> {
    if n == 1 {
        ""@
    } else {
        "s"@
    }
}

/// The plural ending of a count.
pub fn plural(n: usize) -> (r: &'static str)
    ensures
        r@ == plural_ending(n as int),
{
    if n == 1 {
        ""
    } else {
        "s"
    }
}

} // verus!
