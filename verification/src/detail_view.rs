//! The profile screen: the usage, the configuration and the fallback place of one account.

use vstd::prelude::*;

use crate::layout;
use crate::paint;
use crate::paint::{Line, LineView, Role, SpanView, Style};
use crate::text;

verus! {

/// Width of the key column.
pub const KEY_W: usize = 12;

/// Least width of a usage bar.
pub const BAR_W_MIN: usize = 10;

/// The heading of a section.
pub open spec fn section_head(label: Seq<char>) -> LineView {
    paint::single_of(label, paint::ink(Role::Label))
}

/// The heading of a section.
pub fn detail_section_header(label: &str) -> (r: Line)
    ensures
        r@ == section_head(label@),
{
    paint::single(label, paint::ink(Role::Label))
}

/// A key and its value.
pub open spec fn kv_line(key: Seq<char>, value: Seq<char>, style: Style) -> LineView {
    paint::line_of(
        Seq::empty().push(
            paint::span_of(
                "  "@ + layout::key_text(key, KEY_W as nat, 0),
                paint::ink(Role::Faint),
            ),
        ).push(paint::span_of(value, style)),
    )
}

/// A key and its value.
pub fn detail_kv(key: &str, value: &str, value_style: Style) -> (r: Line)
    ensures
        r@ == kv_line(key@, value@, value_style),
{
    let cell = text::joined("  ", &layout::key_cell(key, KEY_W, 0));
    let mut v = paint::no_spans();
    paint::put(&mut v, &cell, paint::ink(Role::Faint));
    paint::put(&mut v, value, value_style);
    paint::line(v)
}

/// A rule across the screen.
pub fn detail_separator(width: u16) -> (r: Line)
    ensures
        r@ == paint::single_of(text::fill('─', width as nat), paint::ink(Role::Rule)),
{
    let bar = text::fill_text('─', width as usize);
    paint::single(&bar, paint::ink(Role::Rule))
}

/// A usage figure, ready to be shown.
#[derive(Debug)]
pub struct Stat {
    /// The percentage with its sign.
    pub pct: String,
    /// The hue of the figure.
    pub heat: Role,
    /// What follows the bar.
    pub trailing: String,
    /// The filled cells of the bar.
    pub filled: usize,
}

/// What a [`Stat`] holds.
pub struct StatView {
    pub pct: Seq<char>,
    pub heat: Role,
    pub trailing: Seq<char>,
    pub filled: int,
}

impl View for Stat {
    type V = StatView;

    open spec fn view(&self) -> StatView {
        StatView {
            pct: self.pct@,
            heat: self.heat,
            trailing: self.trailing@,
            filled: self.filled as int,
        }
    }
}

/// The view of an optional figure.
pub open spec fn opt_stat(s: Option<Stat>) -> Option<StatView> {
    match s {
        Some(x) => Some(x@),
        None => None,
    }
}

/// The cells of a bar with the given text behind it.
pub open spec fn bar_cells(trailing: Seq<char>, width: int) -> int {
    text::max_int(
        text::monus(text::monus(width, 2), trailing.len() as int),
        BAR_W_MIN as int,
    )
}

/// The cells of a bar with the given text behind it.
pub fn bar_width(trailing: &str, inner_w: u16) -> (r: usize)
    ensures
        r == bar_cells(trailing@, inner_w as int),
{
    let room: usize = (inner_w.saturating_sub(2) as usize).saturating_sub(
        trailing.unicode_len(),
    );
    text::max_usize(room, BAR_W_MIN)
}

/// A figure: its name and percentage on one line, its bar on the next.
pub open spec fn stat_lines(label: Seq<char>, s: StatView, width: int) -> Seq<LineView> {
    let head = "  "@ + layout::upper(label);
    let cells = bar_cells(s.trailing, width);
    let filled = text::min_int(s.filled, cells);
    Seq::empty().push(
        paint::line_of(
            Seq::empty().push(paint::span_of(head, paint::ink(Role::Label))).push(
                paint::blanks_of(
                    text::monus(
                        text::monus(width, head.len() as int),
                        s.pct.len() as int,
                    ) as nat,
                ),
            ).push(paint::span_of(s.pct, paint::ink(s.heat).strong())),
        ),
    ).push(
        paint::line_of(
            Seq::empty().push(paint::raw_of("  "@)).push(
                paint::span_of(text::fill('█', filled as nat), paint::ink(s.heat)),
            ).push(
                paint::span_of(
                    text::fill('░', (cells - filled) as nat),
                    paint::ink(Role::RuleStrong),
                ),
            ).push(paint::span_of(s.trailing, paint::ink(Role::Faint))),
        ),
    )
}

/// A figure on two lines.
pub fn stat_block(label: &str, s: &Stat, inner_w: u16) -> (r: Vec<Line>)
    ensures
        paint::lines_view(r@) == stat_lines(label@, s@, inner_w as int),
{
    let head = text::joined("  ", &layout::uppercase(label));
    let pad: usize = (inner_w as usize).saturating_sub(
        head.as_str().unicode_len(),
    ).saturating_sub(s.pct.as_str().unicode_len());
    let mut top = paint::no_spans();
    paint::put(&mut top, &head, paint::ink(Role::Label));
    paint::put_blanks(&mut top, pad);
    paint::put(&mut top, &s.pct, paint::ink(s.heat).strong());
    let cells: usize = bar_width(&s.trailing, inner_w);
    let filled: usize = text::min_usize(s.filled, cells);
    let mut bar = paint::no_spans();
    paint::put_raw(&mut bar, "  ");
    paint::put(&mut bar, &text::fill_text('█', filled), paint::ink(s.heat));
    paint::put(&mut bar, &text::fill_text('░', cells - filled), paint::ink(Role::RuleStrong));
    paint::put(&mut bar, &s.trailing, paint::ink(Role::Faint));
    let mut out = paint::no_lines();
    paint::add_line(&mut out, paint::line(top));
    paint::add_line(&mut out, paint::line(bar));
    out
}

/// What follows the bar of a window.
pub open spec fn reset_note(reset: Option<Seq<char>>) -> Seq<char> {
    match reset {
        Some(r) => "  resets in "@ + r,
        None => ""@,
    }
}

/// What follows the bar of a window.
pub fn reset_trailing(reset: &Option<String>) -> (r: String)
    ensures
        r@ == reset_note(text::opt_view(*reset)),
{
    match reset {
        Some(t) => text::joined("  resets in ", t),
        None => "".to_string(),
    }
}

/// The sign of a currency; dollars when it is not known.
pub open spec fn currency_sign(currency: Option<Seq<char>>) -> Seq<char> {
    match currency {
        Some(c) => if c == "USD"@ {
            "$"@
        } else {
            c
        },
        None => "$"@,
    }
}

/// What follows the bar of the extra usage: what is spent, and the limit.
pub open spec fn money_note(currency: Option<Seq<char>>, used: Seq<char>, limit: Seq<char>) -> Seq<
    char,
> {
    let sign = currency_sign(currency);
    "  "@ + sign + used + " / "@ + sign + limit
}

/// What follows the bar of the extra usage; the amounts have two decimals.
pub fn money_trailing(currency: &Option<String>, used: &str, limit: &str) -> (r: String)
    ensures
        r@ == money_note(text::opt_view(*currency), used@, limit@),
{
    let sign: &str = match currency {
        Some(c) => if text::same_text(c.as_str(), "USD") {
            "$"
        } else {
            c.as_str()
        },
        None => "$",
    };
    let spent = text::joined3("  ", sign, used);
    let top = text::joined3(" / ", sign, limit);
    let out = text::joined(&spent, &top);
    assert(out@ =~= money_note(text::opt_view(*currency), used@, limit@));
    out
}

/// The usage figures of an account.
#[derive(Debug)]
pub struct UsageFigures {
    pub five_hour: Option<Stat>,
    pub seven_day: Option<Stat>,
    pub seven_day_sonnet: Option<Stat>,
    pub seven_day_opus: Option<Stat>,
    /// Only where extra usage is on.
    pub extra: Option<Stat>,
}

/// What [`UsageFigures`] hold.
pub struct UsageFiguresView {
    pub five_hour: Option<StatView>,
    pub seven_day: Option<StatView>,
    pub seven_day_sonnet: Option<StatView>,
    pub seven_day_opus: Option<StatView>,
    pub extra: Option<StatView>,
}

impl View for UsageFigures {
    type V = UsageFiguresView;

    open spec fn view(&self) -> UsageFiguresView {
        UsageFiguresView {
            five_hour: opt_stat(self.five_hour),
            seven_day: opt_stat(self.seven_day),
            seven_day_sonnet: opt_stat(self.seven_day_sonnet),
            seven_day_opus: opt_stat(self.seven_day_opus),
            extra: opt_stat(self.extra),
        }
    }
}

/// The figure blocks so far with one more, a blank between two.
pub open spec fn with_stat(
    before: Seq<LineView>,
    label: Seq<char>,
    s: Option<StatView>,
    width: int,
) -> Seq<LineView> {
    match s {
        Some(x) => (if before.len() > 0 {
            before.push(paint::blank_of())
        } else {
            before
        }) + stat_lines(label, x, width),
        None => before,
    }
}

fn add_stat(out: &mut Vec<Line>, label: &str, s: &Option<Stat>, width: u16)
    ensures
        paint::lines_view(final(out)@) == with_stat(
            paint::lines_view(old(out)@),
            label@,
            opt_stat(*s),
            width as int,
        ),
{
    assert(paint::lines_view(out@).len() == out@.len());
    if let Some(x) = s {
        if out.len() > 0 {
            paint::add_line(out, paint::blank());
        }
        paint::add_lines(out, &stat_block(label, x, width));
    }
}

/// The figures of an account, those that are known.
pub open spec fn figure_lines(u: UsageFiguresView, width: int) -> Seq<LineView> {
    let a = with_stat(Seq::empty(), "5h"@, u.five_hour, width);
    let b = with_stat(a, "7d all"@, u.seven_day, width);
    let c = with_stat(b, "7d sonnet"@, u.seven_day_sonnet, width);
    let d = with_stat(c, "7d opus"@, u.seven_day_opus, width);
    with_stat(d, "extra"@, u.extra, width)
}

/// The usage section; without a figure it is still loading.
pub open spec fn usage_section(u: Option<UsageFiguresView>, width: int) -> Seq<LineView> {
    let head = Seq::empty().push(section_head("USAGE"@)).push(paint::blank_of());
    let loading = head.push(paint::single_of("  loading…"@, paint::ink(Role::Faint)));
    match u {
        Some(f) => if figure_lines(f, width).len() > 0 {
            head + figure_lines(f, width)
        } else {
            loading
        },
        None => loading,
    }
}

/// The usage section.
pub fn build_usage_lines(usage: &Option<UsageFigures>, inner_w: u16) -> (r: Vec<Line>)
    ensures
        paint::lines_view(r@) == usage_section(
            match *usage {
                Some(u) => Some(u@),
                None => None,
            },
            inner_w as int,
        ),
{
    let mut out = paint::no_lines();
    paint::add_line(&mut out, detail_section_header("USAGE"));
    paint::add_line(&mut out, paint::blank());
    let mut figures = paint::no_lines();
    if let Some(u) = usage {
        add_stat(&mut figures, "5h", &u.five_hour, inner_w);
        add_stat(&mut figures, "7d all", &u.seven_day, inner_w);
        add_stat(&mut figures, "7d sonnet", &u.seven_day_sonnet, inner_w);
        add_stat(&mut figures, "7d opus", &u.seven_day_opus, inner_w);
        add_stat(&mut figures, "extra", &u.extra, inner_w);
    }
    assert(paint::lines_view(figures@).len() == figures@.len());
    if figures.len() > 0 {
        paint::add_lines(&mut out, &figures);
    } else {
        paint::add_line(&mut out, paint::single("  loading…", paint::ink(Role::Faint)));
    }
    out
}

/// The configuration section.
pub open spec fn config_section(oauth: bool, auto_start: bool) -> Seq<LineView> {
    let head = Seq::empty().push(section_head("CONFIG"@)).push(paint::blank_of());
    head.push(
        if !oauth {
            kv_line("auto-start usage"@, "n/a"@, paint::ink(Role::Faint))
        } else if auto_start {
            kv_line("auto-start usage"@, "on"@, paint::ink(Role::Accent))
        } else {
            kv_line("auto-start usage"@, "off"@, paint::ink(Role::Faint))
        },
    )
}

/// The configuration section.
pub fn build_config_lines(oauth: bool, auto_start: bool) -> (r: Vec<Line>)
    ensures
        paint::lines_view(r@) == config_section(oauth, auto_start),
{
    let mut out = paint::no_lines();
    paint::add_line(&mut out, detail_section_header("CONFIG"));
    paint::add_line(&mut out, paint::blank());
    if !oauth {
        paint::add_line(&mut out, detail_kv("auto-start usage", "n/a", paint::ink(Role::Faint)));
        return out;
    }
    if auto_start {
        paint::add_line(&mut out, detail_kv("auto-start usage", "on", paint::ink(Role::Accent)));
    } else {
        paint::add_line(&mut out, detail_kv("auto-start usage", "off", paint::ink(Role::Faint)));
    }
    out
}

/// The fallback section: the place in the chain, and the threshold of a member.
pub open spec fn fallback_section(
    chain: Seq<Seq<char>>,
    name: Seq<char>,
    threshold: Seq<char>,
) -> Seq<LineView> {
    let head = Seq::empty().push(section_head("FALLBACK"@)).push(paint::blank_of());
    match text::position(chain, name) {
        Some(p) => head.push(
            kv_line(
                "position"@,
                text::decimal((p + 1) as nat) + " of "@ + text::decimal(chain.len())
                    + " in chain"@,
                paint::ink(Role::Dim),
            ),
        ).push(kv_line("threshold"@, threshold, paint::ink(Role::Dim))),
        None => head.push(kv_line("position"@, "not in chain"@, paint::ink(Role::Faint))),
    }
}

/// The fallback section; `threshold` is the percentage with its sign.
pub fn build_fallback_lines(chain: &Vec<String>, name: &str, threshold: &str) -> (r: Vec<Line>)
    ensures
        paint::lines_view(r@) == fallback_section(text::views(chain@), name@, threshold@),
{
    let mut out = paint::no_lines();
    paint::add_line(&mut out, detail_section_header("FALLBACK"));
    paint::add_line(&mut out, paint::blank());
    assert(text::views(chain@).len() == chain@.len());
    match text::position_of(chain, name) {
        Some(p) => {
            let total = text::decimal_text(chain.len() as u64);
            let at = text::decimal_text((p + 1) as u64);
            let place = text::joined(&text::joined3(&at, " of ", &total), " in chain");
            paint::add_line(&mut out, detail_kv("position", &place, paint::ink(Role::Dim)));
            paint::add_line(&mut out, detail_kv("threshold", threshold, paint::ink(Role::Dim)));
        },
        None => {
            paint::add_line(
                &mut out,
                detail_kv("position", "not in chain", paint::ink(Role::Faint)),
            );
        },
    }
    out
}

/// A figure fills the line it stands on: its bar and what follows take the width the screen
/// has, as long as there is room for the shortest bar.
pub proof fn figures_fill_their_line(label: Seq<char>, s: StatView, width: int)
    requires
        0 <= s.filled,
        s.trailing.len() + BAR_W_MIN + 2 <= width,
    ensures
        paint::chars_in(stat_lines(label, s, width)[1].spans) == width,
{
    reveal_strlit("  ");
    let spans = stat_lines(label, s, width)[1].spans;
    let one = spans.take(1);
    let two = spans.take(2);
    let three = spans.take(3);
    assert(one.drop_last() =~= Seq::<SpanView>::empty());
    assert(two.drop_last() =~= one);
    assert(three.drop_last() =~= two);
    assert(spans.drop_last() =~= three);
    assert(paint::chars_in(Seq::<SpanView>::empty()) == 0);
    let cells = bar_cells(s.trailing, width);
    let filled = text::min_int(s.filled, cells);
    assert(paint::chars_in(one) == 2);
    assert(two.last().text.len() == filled);
    assert(paint::chars_in(two) == 2 + filled);
    assert(three.last().text.len() == cells - filled);
    assert(paint::chars_in(three) == 2 + cells);
    assert(spans.last().text == s.trailing);
}

} // verus!
