//! The list of accounts beside the Usage and Setup tabs.

use vstd::prelude::*;

use crate::layout;
use crate::model;
use crate::model::{AppConfig, AppConfigView};
use crate::paint;
use crate::paint::{Line, LineView, Role, Style};
use crate::text;

verus! {

/// The style of an account's name; a disabled account steps back.
pub open spec fn account_style(cfg: AppConfigView, i: int, disabled: bool) -> Style {
    if disabled {
        paint::ink(Role::Dim)
    } else {
        layout::name_color(cfg.is_active(cfg.profiles[i].name))
    }
}

/// The rows of the first `n` accounts.
pub open spec fn picker_lines(
    cfg: AppConfigView,
    disabled: Seq<bool>,
    sel: int,
    focused: bool,
    width: int,
    n: nat,
) -> Seq<LineView>
    decreases n,
{
    if n == 0 {
        Seq::empty()
    } else {
        let i = n - 1;
        picker_lines(cfg, disabled, sel, focused, width, i as nat).push(
            layout::picked_row(
                i == sel,
                focused,
                cfg.profiles[i].name,
                account_style(cfg, i, i < disabled.len() && disabled[i]),
                width,
            ),
        )
    }
}

fn account_lines(cfg: &AppConfig, disabled: &Vec<bool>, sel: usize, focused: bool, width: u16) -> (r:
    Vec<Line>)
    ensures
        paint::lines_view(r@) == picker_lines(
            cfg@,
            disabled@,
            sel as int,
            focused,
            width as int,
            cfg@.profiles.len(),
        ),
{
    let ghost all = cfg@.profiles;
    assert(all.len() == cfg.profiles@.len());
    let mut out = paint::no_lines();
    let mut i: usize = 0;
    while i < cfg.profiles.len()
        invariant
            i <= cfg.profiles@.len(),
            all == cfg@.profiles,
            all == model::profile_views(cfg.profiles@),
            paint::lines_view(out@) == picker_lines(
                cfg@,
                disabled@,
                sel as int,
                focused,
                width as int,
                i as nat,
            ),
        decreases cfg.profiles@.len() - i,
    {
        assert(all[i as int] == cfg.profiles@[i as int]@);
        let name = &cfg.profiles[i].name;
        let style = if i < disabled.len() && disabled[i] {
            paint::ink(Role::Dim)
        } else {
            layout::name_color(cfg.is_active(name))
        };
        paint::add_line(&mut out, layout::picker_row(i == sel, focused, name, style, width));
        i = i + 1;
    }
    out
}

/// The accounts of the Setup tab with the row that adds one.
pub open spec fn setup_list(
    cfg: AppConfigView,
    disabled: Seq<bool>,
    cursor: int,
    focused: bool,
    width: int,
) -> Seq<LineView> {
    let count = cfg.profiles.len() as int;
    let sel = text::min_int(cursor, count);
    picker_lines(cfg, disabled, sel, focused, width, count as nat).push(
        layout::picked_row(count == sel, focused, "+ new"@, paint::ink(Role::Accent), width),
    )
}

/// The accounts of the Setup tab with the row that adds one, and the selected row.
pub fn setup_selector(
    cfg: &AppConfig,
    disabled: &Vec<bool>,
    cursor: usize,
    focused: bool,
    width: u16,
) -> (r: (Vec<Line>, usize))
    ensures
        paint::lines_view(r.0@) == setup_list(
            cfg@,
            disabled@,
            cursor as int,
            focused,
            width as int,
        ),
        r.1 == text::min_int(cursor as int, cfg@.profiles.len() as int),
{
    let count: usize = cfg.profiles.len();
    assert(cfg@.profiles.len() == count);
    let sel: usize = text::min_usize(cursor, count);
    let mut out = account_lines(cfg, disabled, sel, focused, width);
    paint::add_line(
        &mut out,
        layout::picker_row(count == sel, focused, "+ new", paint::ink(Role::Accent), width),
    );
    (out, sel)
}

/// The accounts of the Usage tab; without any, what to do about it.
pub open spec fn usage_list(cfg: AppConfigView, cursor: int, focused: bool, width: int) -> Seq<
    LineView,
> {
    let count = cfg.profiles.len() as int;
    if count == 0 {
        layout::empty_lines("no accounts yet"@, "n"@, "to create one"@)
    } else {
        picker_lines(
            cfg,
            Seq::empty(),
            text::min_int(cursor, count - 1),
            focused,
            width,
            count as nat,
        )
    }
}

/// The accounts of the Usage tab, and the selected row.
pub fn usage_selector(cfg: &AppConfig, cursor: usize, focused: bool, width: u16) -> (r: (
    Vec<Line>,
    usize,
))
    ensures
        paint::lines_view(r.0@) == usage_list(cfg@, cursor as int, focused, width as int),
        r.1 == text::min_int(cursor as int, text::monus(cfg@.profiles.len() as int, 1)),
{
    let count: usize = cfg.profiles.len();
    assert(cfg@.profiles.len() == count);
    let sel: usize = text::min_usize(cursor, count.saturating_sub(1));
    if count == 0 {
        return (layout::empty_state("no accounts yet", "n", "to create one"), sel);
    }
    let none: Vec<bool> = Vec::new();
    (account_lines(cfg, &none, sel, focused, width), sel)
}

proof fn lemma_picker_lines(
    cfg: AppConfigView,
    disabled: Seq<bool>,
    sel: int,
    focused: bool,
    width: int,
    n: nat,
)
    ensures
        picker_lines(cfg, disabled, sel, focused, width, n).len() == n,
        forall|i: int|
            0 <= i < n ==> (#[trigger] picker_lines(cfg, disabled, sel, focused, width, n)[i]).selected
                == (i == sel),
    decreases n,
{
    if n > 0 {
        lemma_picker_lines(cfg, disabled, sel, focused, width, (n - 1) as nat);
    }
}

/// Exactly one row of the Setup list is drawn as selected: the account under the cursor, or the
/// row that adds one.
pub proof fn one_row_is_selected(
    cfg: AppConfigView,
    disabled: Seq<bool>,
    cursor: int,
    focused: bool,
    width: int,
)
    requires
        cursor >= 0,
    ensures
        ({
            let rows = setup_list(cfg, disabled, cursor, focused, width);
            &&& rows.len() == cfg.profiles.len() + 1
            &&& forall|i: int|
                0 <= i < rows.len() ==> (#[trigger] rows[i]).selected == (i == text::min_int(
                    cursor,
                    cfg.profiles.len() as int,
                ))
        }),
{
    let count = cfg.profiles.len();
    lemma_picker_lines(
        cfg,
        disabled,
        text::min_int(cursor, count as int),
        focused,
        width,
        count,
    );
}

} // verus!
