//! What the detail panes, the runs of delegates and the readouts show, and what texts promise.

use vstd::prelude::*;

use crate::delegates;
use crate::delegates::{JobPhase, RunningLivenessView, StoredJobView};
use crate::detail_view;
use crate::detail_view::{StatView, UsageFiguresView};
use crate::footer::HerdrOption;
use crate::layout;
use crate::layout::GlyphsView;
use crate::paint;
use crate::plugin::CheckView;
use crate::plugin_view;
use crate::plugin_view::{HerdrRowView, HerdrSettings, PopupWidth};
use crate::settings;
use crate::tabs::{Bucket, TokenPeriod};
use crate::text;
use crate::tokens;
use crate::tokens::TokenSource;

verus! {

// ── usage ───────────────────────────────────────────────────────────────────

/// A figure shows its own percentage beside its label, and its bar filled from the left.
pub open spec fn shows_figure(
    v: Seq<paint::LineView>,
    at: int,
    label: Seq<char>,
    s: StatView,
) -> bool {
    &&& v[at].spans[0].text == "  "@ + layout::upper(label)
    &&& v[at].spans[2].text == s.pct
    &&& v[at].spans[2].style.role == s.heat
    &&& v[at + 1].spans[3].text == s.trailing
}

/// The usage figures stand in order, each under its own label: five hours, the week, and the
/// week's share of two models, then what was paid beyond.
pub proof fn figures_stand_under_their_label(u: UsageFiguresView, width: int)
    requires
        u.five_hour is Some,
        u.seven_day is Some,
        u.seven_day_sonnet is Some,
        u.seven_day_opus is Some,
        u.extra is Some,
    ensures
        ({
            let v = detail_view::figure_lines(u, width);
            &&& v.len() == 14
            &&& shows_figure(v, 0, "5h"@, u.five_hour->0)
            &&& shows_figure(v, 3, "7d all"@, u.seven_day->0)
            &&& shows_figure(v, 6, "7d sonnet"@, u.seven_day_sonnet->0)
            &&& shows_figure(v, 9, "7d opus"@, u.seven_day_opus->0)
            &&& shows_figure(v, 12, "extra"@, u.extra->0)
        }),
{
}

/// A figure that was not read is left out, and the first one that was stands first.
pub proof fn unread_figures_are_left_out(u: UsageFiguresView, width: int)
    ensures
        ({
            let v = detail_view::figure_lines(u, width);
            &&& u.five_hour is None && u.seven_day is None && u.seven_day_sonnet is None
                && u.seven_day_opus is None && u.extra is None ==> v.len() == 0
            &&& u.five_hour is Some ==> shows_figure(v, 0, "5h"@, u.five_hour->0)
            &&& u.five_hour is None && u.seven_day is Some ==> shows_figure(
                v,
                0,
                "7d all"@,
                u.seven_day->0,
            )
        }),
{
}

/// The configuration says whether an account starts by itself; only one that logs in can.
pub proof fn auto_start_is_shown(oauth: bool, on: bool)
    ensures
        detail_view::config_section(oauth, on).last().spans[1].text == (if !oauth {
            "n/a"@
        } else if on {
            "on"@
        } else {
            "off"@
        }),
{
}

/// The place of an account in the chain is counted from one, and given with the chain's length.
pub proof fn places_are_counted_from_one(
    chain: Seq<Seq<char>>,
    name: Seq<char>,
    threshold: Seq<char>,
    k: int,
)
    ensures
        ({
            let v = detail_view::fallback_section(chain, name, threshold);
            let first = 0 <= k < chain.len() && chain[k] == name && forall|j: int|
                0 <= j < k ==> (#[trigger] chain[j]) != name;
            &&& first ==> v[2].spans[1].text == text::decimal((k + 1) as nat) + " of "@
                + text::decimal(chain.len()) + " in chain"@ && v[3].spans[1].text == threshold
            &&& !chain.contains(name) ==> v[2].spans[1].text == "not in chain"@ && v.len() == 3
        }),
{
    text::lemma_position(chain, name);
    if 0 <= k < chain.len() && chain[k] == name && forall|j: int|
        0 <= j < k ==> (#[trigger] chain[j]) != name {
        text::lemma_position_is(chain, name, k);
    }
}

// ── delegates ───────────────────────────────────────────────────────────────

/// A run says what it is doing: one that ended when it did, one that was lost when it was last
/// seen, and one that runs for how long and what it said last.
pub proof fn runs_say_how_they_stand(job: StoredJobView)
    ensures
        ({
            let c = delegates::cells_of(job);
            &&& c.profile == job.profile
            &&& c.state == job.phase
            &&& job.phase == JobPhase::Done ==> c.facts.len() == 1 && c.facts[0] == "finished "@
                + delegates::age(job.since) && c.tail.len() == 0
            &&& job.phase == JobPhase::Orphaned ==> c.facts.len() == 1 && c.facts[0]
                == "last seen "@ + delegates::age(job.since)
            &&& job.phase != JobPhase::Done && job.phase != JobPhase::Orphaned ==> c.facts[0]
                == "elapsed "@ + job.live.elapsed.text && c.tail == job.tail
        }),
{
}

/// The kill that is named is the one that comes first.
pub proof fn the_nearest_kill_is_named(live: RunningLivenessView)
    requires
        live.idle_kill_in is Some,
        live.wall_kill_in is Some,
    ensures
        ({
            let k = delegates::first_kill(live);
            &&& k is Some
            &&& (k->0).1.secs <= live.idle_kill_in->0.secs
            &&& (k->0).1.secs <= live.wall_kill_in->0.secs
            &&& (k->0).0 == "wall-kill"@ ==> (k->0).1 == live.wall_kill_in->0
            &&& (k->0).0 == "idle-kill"@ ==> (k->0).1 == live.idle_kill_in->0
            &&& (k->0).0 == "wall-kill"@ || (k->0).0 == "idle-kill"@
        }),
{
    reveal_strlit("wall-kill");
    reveal_strlit("idle-kill");
    assert("wall-kill"@[0] == 'w');
    assert("idle-kill"@[0] == 'i');
}

// ── the integration ─────────────────────────────────────────────────────────

/// The list of checks shows every check on its own row, in order, and its fix where it has one.
pub proof fn check_rows_show_their_check(
    checks: Seq<CheckView>,
    cursor: int,
    focused: bool,
    width: usize,
    n: nat,
    i: int,
)
    requires
        0 <= i < n <= checks.len(),
    ensures
        ({
            let v = plugin_view::check_lines(checks, cursor, focused, width, n);
            let row = v[i].spans;
            &&& v.len() == n
            &&& row[2].text == checks[i].label
            &&& row[0].text == (if i == cursor && focused {
                "❯ "@
            } else {
                "  "@
            })
            &&& checks[i].fix is Some ==> row.last().text == "[f]"@
        }),
    decreases n,
{
    lemma_check_lines(checks, cursor, focused, width, (n - 1) as nat);
    if i < n - 1 {
        check_rows_show_their_check(checks, cursor, focused, width, (n - 1) as nat, i);
    } else {
        let c = checks[i];
        let row = plugin_view::check_row(i == cursor, focused, width, c.fix is Some);
        let head = plugin_view::selector_head(c.health, c.label, row);
        assert(head.len() == 3);
        reveal_strlit("");
        assert(plugin_view::selector_told(c.health, c.label, ""@, row) == head);
    }
}

proof fn lemma_check_lines(
    checks: Seq<CheckView>,
    cursor: int,
    focused: bool,
    width: usize,
    n: nat,
)
    ensures
        plugin_view::check_lines(checks, cursor, focused, width, n).len() == n,
    decreases n,
{
    if n > 0 {
        lemma_check_lines(checks, cursor, focused, width, (n - 1) as nat);
    }
}

/// An option of the multiplexer shows its own setting.
pub proof fn options_show_their_setting(
    glyphs: GlyphsView,
    row: HerdrRowView,
    s: HerdrSettings,
    selected: bool,
    inert: bool,
)
    ensures
        ({
            let v = plugin_view::option_spans(glyphs, row, s, selected, None, inert);
            let on = |b: bool|
                if b {
                    glyphs.on
                } else {
                    glyphs.off
                };
            &&& row.option == HerdrOption::PaneTag ==> v[2].text == on(s.pane_tag)
            &&& row.option == HerdrOption::BorderLabel ==> v[2].text == on(s.border_label)
            &&& row.option == HerdrOption::DelegateDot ==> v[2].text == on(s.delegate_dot)
            &&& row.option == HerdrOption::DelegateRowText ==> v[2].text == on(
                s.delegate_row_text,
            )
            &&& row.option == HerdrOption::TagRefresh ==> v[2].text == text::decimal(
                s.tag_watch_secs as nat,
            ) + "s"@
        }),
{
}

/// Of the popup's widths exactly the chosen one is current.
pub proof fn one_popup_width_is_current(w: PopupWidth)
    ensures
        ({
            let v = plugin_view::popup_choices(w);
            &&& v.len() == 4
            &&& v[0].active <==> w == PopupWidth::Fit
            &&& v[1].active <==> w == PopupWidth::Half
            &&& v[2].active <==> w == PopupWidth::SplitRight
            &&& v[3].active <==> w == PopupWidth::SplitTop
        }),
{
}

// ── token statistics ────────────────────────────────────────────────────────

/// A period reads the statistics of its own span.
pub proof fn periods_read_their_span()
    ensures
        tokens::source_of(TokenPeriod::Lifetime) == TokenSource::Lifetime,
        tokens::source_of(TokenPeriod::Daily) == TokenSource::Today,
        tokens::source_of(TokenPeriod::Weekly) == TokenSource::Current(Bucket::Week),
        tokens::source_of(TokenPeriod::Monthly) == TokenSource::Current(Bucket::Month),
{
}

// ── texts ───────────────────────────────────────────────────────────────────

/// A number in decimals reads as that number.
pub proof fn decimals_read_back(n: nat)
    ensures
        settings::digits_value(text::decimal(n)) == Some(n),
        text::decimal(n).len() > 0,
    decreases n,
{
    reveal_with_fuel(settings::digits_value, 2);
    if n < 10 {
        assert(text::decimal(n).drop_last() =~= Seq::<char>::empty());
    } else {
        decimals_read_back(n / 10);
        assert(text::decimal(n).drop_last() =~= text::decimal(n / 10));
    }
}

/// A trimmed text is a part of the text, has no white space at its ends, and only white space was
/// cut off.
pub proof fn trimming_cuts_white_space_alone(s: Seq<char>)
    ensures
        ({
            let t = text::trim(s);
            &&& t.len() <= s.len()
            &&& t.len() > 0 ==> !text::is_space(t[0]) && !text::is_space(t.last())
            &&& exists|a: int, b: int|
                0 <= a <= b <= s.len() && #[trigger] s.subrange(a, b) == t && cut_space(s, a, b)
        }),
{
    let a = lemma_start(s);
    let u = text::trim_start(s);
    let k = lemma_end(u);
    let b = a + k;
    assert(s.subrange(a, b) =~= text::trim(s));
    assert(cut_space(s, a, b)) by {
        assert forall|i: int| b <= i < s.len() implies text::is_space(#[trigger] s[i]) by {
            assert(u[i - a] == s[i]);
        }
    }
    if text::trim(s).len() > 0 {
        assert(text::trim(s)[0] == u[0]);
    }
}

/// Everything outside of a part is white space.
pub open spec fn cut_space(s: Seq<char>, a: int, b: int) -> bool {
    &&& forall|i: int| 0 <= i < a ==> text::is_space(#[trigger] s[i])
    &&& forall|i: int| b <= i < s.len() ==> text::is_space(#[trigger] s[i])
}

proof fn lemma_start(s: Seq<char>) -> (a: int)
    ensures
        0 <= a <= s.len(),
        text::trim_start(s) == s.skip(a),
        forall|i: int| 0 <= i < a ==> text::is_space(#[trigger] s[i]),
        a < s.len() ==> !text::is_space(s[a]),
    decreases s.len(),
{
    if s.len() > 0 && text::is_space(s[0]) {
        let k = lemma_start(s.drop_first());
        assert(s.drop_first().skip(k) =~= s.skip(k + 1));
        assert forall|i: int| 0 <= i < k + 1 implies text::is_space(#[trigger] s[i]) by {
            if i > 0 {
                assert(s.drop_first()[i - 1] == s[i]);
            }
        }
        if k + 1 < s.len() {
            assert(s.drop_first()[k] == s[k + 1]);
        }
        k + 1
    } else {
        assert(s.skip(0) =~= s);
        0
    }
}

proof fn lemma_end(s: Seq<char>) -> (k: int)
    ensures
        0 <= k <= s.len(),
        text::trim_end(s) == s.take(k),
        forall|i: int| k <= i < s.len() ==> text::is_space(#[trigger] s[i]),
        k > 0 ==> !text::is_space(s[k - 1]),
    decreases s.len(),
{
    if s.len() > 0 && text::is_space(s.last()) {
        let k = lemma_end(s.drop_last());
        assert(s.drop_last().take(k) =~= s.take(k));
        assert forall|i: int| k <= i < s.len() implies text::is_space(#[trigger] s[i]) by {
            if i < s.len() - 1 {
                assert(s.drop_last()[i] == s[i]);
            }
        }
        k
    } else {
        assert(s.take(s.len() as int) =~= s);
        s.len() as int
    }
}

/// Comparing without case is an equivalence, and takes a letter for its capital.
pub proof fn case_is_ignored(a: Seq<char>, b: Seq<char>)
    ensures
        text::same_ignoring_case(a, a),
        text::same_ignoring_case(a, b) == text::same_ignoring_case(b, a),
        text::ascii_lower('A') == 'a',
        text::ascii_lower('Z') == 'z',
        text::ascii_lower('a') == 'a',
{
    if text::same_ignoring_case(a, b) {
        assert forall|i: int| 0 <= i < b.len() implies text::ascii_lower(#[trigger] b[i])
            == text::ascii_lower(a[i]) by {
            assert(text::ascii_lower(a[i]) == text::ascii_lower(b[i]));
        }
    }
    if text::same_ignoring_case(b, a) {
        assert forall|i: int| 0 <= i < a.len() implies text::ascii_lower(#[trigger] a[i])
            == text::ascii_lower(b[i]) by {
            assert(text::ascii_lower(b[i]) == text::ascii_lower(a[i]));
        }
    }
}

/// What stands before a character is the text up to its first occurrence, or the whole text.
pub proof fn texts_are_cut_at_the_first_occurrence(s: Seq<char>, c: char)
    ensures
        ({
            let t = text::before_char(s, c);
            &&& t.len() <= s.len()
            &&& t == s.take(t.len() as int)
            &&& forall|i: int| 0 <= i < t.len() ==> (#[trigger] t[i]) != c
            &&& t.len() < s.len() ==> s[t.len() as int] == c
        }),
    decreases s.len(),
{
    if s.len() > 0 && s[0] != c {
        texts_are_cut_at_the_first_occurrence(s.drop_first(), c);
        let u = text::before_char(s.drop_first(), c);
        let t = text::before_char(s, c);
        assert(t =~= s.take(t.len() as int)) by {
            assert forall|i: int| 0 <= i < t.len() implies t[i] == s[i] by {
                if i > 0 {
                    assert(t[i] == u[i - 1]);
                    assert(u[i - 1] == s.drop_first()[i - 1]);
                }
            }
        }
        assert forall|i: int| 0 <= i < t.len() implies (#[trigger] t[i]) != c by {
            if i > 0 {
                assert(t[i] == u[i - 1]);
            }
        }
    }
}

} // verus!
