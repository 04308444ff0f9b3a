//! The dialogs on screen: their lines, buttons and carets.

use vstd::prelude::*;

use crate::chrome::Area;
use crate::forms;
use crate::forms::{
    ConfirmAction, ConfirmActionView, ConfirmState, ConfirmStateView, DivergenceAction,
    DivergenceActionView, DivergenceForm, DivergenceFormView, DivergenceTargetForm,
    DivergenceTargetFormView, EnvCollisionChoice, EnvCollisionForm, EnvCollisionFormView,
    LoginStage,
};
use crate::host::{Host, HostView};
use crate::input;
use crate::input::{InputState, InputView};
use crate::layout;
use crate::layout::{Chrome, Glyphs, GlyphsView};
use crate::menu;
use crate::menu::{ActionItem, ActionItemView, ActionMenuState};
use crate::modal_box;
use crate::model::DivergenceChoice;
use crate::paint;
use crate::paint::{Fill, Line, LineView, Role, Span, SpanView};
use crate::text;

verus! {

/// The title of a dialog.
pub open spec fn dialog_title(title: Seq<char>) -> Seq<SpanView> {
    Seq::empty().push(paint::raw_of(" "@)).push(
        paint::span_of(layout::upper(title), paint::ink(Role::Dim).slanted()),
    ).push(paint::raw_of(" "@))
}

/// The border and the title of a dialog.
pub fn modal_chrome(title: &str) -> (r: Chrome)
    ensures
        r.border == Role::Accent2,
        paint::spans_view(r.title@) == dialog_title(title@),
{
    let mut spans = paint::no_spans();
    paint::put_raw(&mut spans, " ");
    paint::put(&mut spans, &layout::uppercase(title), paint::ink(Role::Dim).slanted());
    paint::put_raw(&mut spans, " ");
    Chrome { border: Role::Accent2, title: spans }
}

/// The name of what a dialog is about, set against the right end of its upper border.
pub open spec fn dialog_meta(meta: Seq<char>) -> LineView {
    LineView { right: true, ..paint::single_of(" "@ + meta + " "@, paint::ink(Role::Dim)) }
}

/// The name of what a dialog is about.
pub fn modal_meta(meta: &str) -> (r: Line)
    ensures
        r@ == dialog_meta(meta@),
{
    let label = text::joined3(" ", meta, " ");
    let l = paint::single(&label, paint::ink(Role::Dim));
    Line { right: true, ..l }
}

/// A button: inverted in focus.
pub open spec fn button(label: Seq<char>, focused: bool) -> SpanView {
    if focused {
        paint::span_of(label, paint::ink(Role::Ground).on(Fill::Text))
    } else {
        paint::span_of(label, paint::ink(Role::Dim))
    }
}

/// A button that destroys something.
pub open spec fn dire_button(label: Seq<char>, focused: bool) -> SpanView {
    if focused {
        paint::span_of(label, paint::ink(Role::Ground).on(Fill::Danger))
    } else {
        paint::span_of(label, paint::ink(Role::Danger))
    }
}

/// A button.
pub fn modal_button(label: &str, focused: bool) -> (r: Span)
    ensures
        r@ == button(label@, focused),
{
    if focused {
        paint::span(label, paint::ink(Role::Ground).on(Fill::Text))
    } else {
        paint::span(label, paint::ink(Role::Dim))
    }
}

/// A button that destroys something.
pub fn danger_button(label: &str, focused: bool) -> (r: Span)
    ensures
        r@ == dire_button(label@, focused),
{
    if focused {
        paint::span(label, paint::ink(Role::Ground).on(Fill::Danger))
    } else {
        paint::span(label, paint::ink(Role::Danger))
    }
}

/// The two buttons of a dialog; `choice` tells whether confirm has the focus.
pub open spec fn button_row(choice: bool, destructive: bool, label: Seq<char>) -> LineView {
    let shown = " "@ + label + " "@;
    paint::line_of(
        Seq::empty().push(button(" cancel "@, !choice)).push(paint::raw_of("   "@)).push(
            if destructive {
                dire_button(shown, choice)
            } else {
                button(shown, choice)
            },
        ),
    )
}

/// The two buttons of a dialog.
pub fn choice_buttons(choice: bool, destructive_confirm: bool, confirm_label: &str) -> (r: Line)
    ensures
        r@ == button_row(choice, destructive_confirm, confirm_label@),
{
    let label = text::joined3(" ", confirm_label, " ");
    let mut v = paint::no_spans();
    paint::put_span(&mut v, modal_button(" cancel ", !choice));
    paint::put_raw(&mut v, "   ");
    if destructive_confirm {
        paint::put_span(&mut v, danger_button(&label, choice));
    } else {
        paint::put_span(&mut v, modal_button(&label, choice));
    }
    paint::line(v)
}

/// How a dialog asks.
#[derive(Debug)]
pub enum Asking {
    /// Nothing can be done; the reader takes note.
    Notice,
    /// An account is added to the chain.
    Addition(String),
    /// An ordinary step.
    Step,
    /// Something is replaced or lost.
    Loss,
}

/// What an [`Asking`] says.
pub enum AskingView {
    Notice,
    Addition(Seq<char>),
    Step,
    Loss,
}

impl View for Asking {
    type V = AskingView;

    open spec fn view(&self) -> AskingView {
        match self {
            Asking::Notice => AskingView::Notice,
            Asking::Addition(name) => AskingView::Addition(name@),
            Asking::Step => AskingView::Step,
            Asking::Loss => AskingView::Loss,
        }
    }
}

/// Whether a confirmed action replaces or loses something.
pub open spec fn is_destructive(a: ConfirmActionView) -> bool {
    match a {
        ConfirmActionView::Switch(_) => true,
        ConfirmActionView::RotateAll => true,
        ConfirmActionView::RotateOne(_) => true,
        ConfirmActionView::CaptureOverwrite(_, _, _) => true,
        ConfirmActionView::AdoptDivergence(_, _) => true,
        ConfirmActionView::BlankCredentials(_) => true,
        ConfirmActionView::DeleteLiveSession(_) => true,
        _ => false,
    }
}

/// How a confirmed action is asked for.
pub fn asking(a: &ConfirmAction) -> (r: Asking)
    ensures
        r@ == (if is_destructive(a@) {
            AskingView::Loss
        } else {
            AskingView::Step
        }),
{
    match a {
        ConfirmAction::Switch(_)
        | ConfirmAction::RotateAll
        | ConfirmAction::RotateOne(_)
        | ConfirmAction::CaptureOverwrite(_, _, _)
        | ConfirmAction::AdoptDivergence(_, _)
        | ConfirmAction::BlankCredentials(_)
        | ConfirmAction::DeleteLiveSession(_) => Asking::Loss,
        _ => Asking::Step,
    }
}

/// The title of a confirmation.
pub open spec fn confirm_heading(a: AskingView) -> Seq<char> {
    match a {
        AskingView::Notice => "IN USE"@,
        _ => "CONFIRM"@,
    }
}

/// The title of a confirmation.
pub fn confirm_title(a: &Asking) -> (r: &'static str)
    ensures
        r@ == confirm_heading(a@),
{
    match a {
        Asking::Notice => "IN USE",
        _ => "CONFIRM",
    }
}

/// The buttons of a confirmation; a notice has nothing to cancel.
pub open spec fn confirm_buttons(a: AskingView, choice: bool) -> LineView {
    match a {
        AskingView::Notice => paint::line_of(Seq::empty().push(button(" ok "@, true))),
        AskingView::Addition(name) => button_row(choice, false, "add '"@ + name + "'"@),
        AskingView::Step => button_row(choice, false, "confirm"@),
        AskingView::Loss => button_row(choice, true, "confirm"@),
    }
}

/// The lines of a confirmation.
pub open spec fn confirm_dialog(a: AskingView, s: ConfirmStateView) -> Seq<LineView> {
    let head = Seq::empty().push(paint::single_of(s.message, paint::ink(Role::Body)));
    let told = match s.detail {
        Some(d) => head.push(paint::single_of(d, paint::ink(Role::Dim))),
        None => head,
    };
    told.push(paint::blank_of()).push(
        LineView { right: true, ..confirm_buttons(a, s.choice) },
    )
}

/// The lines of a confirmation.
pub fn confirm_lines(a: &Asking, state: &ConfirmState) -> (r: Vec<Line>)
    ensures
        paint::lines_view(r@) == confirm_dialog(a@, state@),
{
    let mut out = paint::no_lines();
    paint::add_line(&mut out, paint::single(&state.message, paint::ink(Role::Body)));
    if let Some(d) = &state.detail {
        paint::add_line(&mut out, paint::single(d, paint::ink(Role::Dim)));
    }
    paint::add_line(&mut out, paint::blank());
    let buttons = match a {
        Asking::Notice => {
            let mut v = paint::no_spans();
            paint::put_span(&mut v, modal_button(" ok ", true));
            paint::line(v)
        },
        Asking::Addition(name) => {
            let label = text::joined3("add '", name, "'");
            choice_buttons(state.choice, false, &label)
        },
        Asking::Step => choice_buttons(state.choice, false, "confirm"),
        Asking::Loss => choice_buttons(state.choice, true, "confirm"),
    };
    paint::add_line(&mut out, Line { right: true, ..buttons });
    out
}

/// A row of a list of options.
pub open spec fn option_row(selected: bool, label: Seq<char>) -> LineView {
    if selected {
        paint::line_of(
            Seq::empty().push(paint::span_of("❯ "@, paint::ink(Role::Accent))).push(
                paint::span_of(label, paint::ink(Role::Accent)),
            ),
        )
    } else {
        paint::line_of(
            Seq::empty().push(paint::raw_of("  "@)).push(
                paint::span_of(label, paint::ink(Role::Dim)),
            ),
        )
    }
}

/// A row of a list of options.
pub fn option_line(selected: bool, label: &str) -> (r: Line)
    ensures
        r@ == option_row(selected, label@),
{
    let mut v = paint::no_spans();
    if selected {
        paint::put(&mut v, "❯ ", paint::ink(Role::Accent));
        paint::put(&mut v, label, paint::ink(Role::Accent));
    } else {
        paint::put_raw(&mut v, "  ");
        paint::put(&mut v, label, paint::ink(Role::Dim));
    }
    paint::line(v)
}

/// What a row of the divergence prompt says.
pub open spec fn divergence_caption(a: DivergenceActionView, active: Seq<char>) -> Seq<char> {
    match a {
        DivergenceActionView::SwitchToOwner(owner) => "switch to '"@ + owner
            + "' (this login is its account)"@,
        DivergenceActionView::Choice(DivergenceChoice::Overwrite) => "overwrite '"@ + active
            + "' with this login"@,
        DivergenceActionView::Choice(DivergenceChoice::NewProfile) =>
            "save this login to another account…"@,
        DivergenceActionView::Choice(DivergenceChoice::Discard) =>
            "discard this login and restore '"@ + active + "'"@,
    }
}

/// What a row of the divergence prompt says.
pub fn divergence_action_text(action: &DivergenceAction, active: &str) -> (r: String)
    ensures
        r@ == divergence_caption(action@, active@),
{
    match action {
        DivergenceAction::SwitchToOwner(owner) => text::joined3(
            "switch to '",
            owner,
            "' (this login is its account)",
        ),
        DivergenceAction::Choice(DivergenceChoice::Overwrite) => text::joined3(
            "overwrite '",
            active,
            "' with this login",
        ),
        DivergenceAction::Choice(DivergenceChoice::NewProfile) =>
            "save this login to another account…".to_string(),
        DivergenceAction::Choice(DivergenceChoice::Discard) => text::joined3(
            "discard this login and restore '",
            active,
            "'",
        ),
    }
}

/// A sentence about a named account.
pub open spec fn about_account(before: Seq<char>, name: Seq<char>, after: Seq<char>) -> LineView {
    paint::line_of(
        Seq::empty().push(paint::span_of(before, paint::ink(Role::Dim))).push(
            paint::span_of("'"@ + name + "'"@, paint::ink(Role::Accent)),
        ).push(paint::span_of(after, paint::ink(Role::Dim))),
    )
}

fn account_sentence(before: &str, name: &str, after: &str) -> (r: Line)
    ensures
        r@ == about_account(before@, name@, after@),
{
    let quoted = text::joined3("'", name, "'");
    let mut v = paint::no_spans();
    paint::put(&mut v, before, paint::ink(Role::Dim));
    paint::put(&mut v, &quoted, paint::ink(Role::Accent));
    paint::put(&mut v, after, paint::ink(Role::Dim));
    paint::line(v)
}

/// What the divergence prompt tells before its rows.
pub open spec fn divergence_head(f: DivergenceFormView) -> Seq<LineView> {
    let first = Seq::empty().push(
        about_account("the live login no longer matches "@, f.active, "."@),
    );
    let told = match f.sibling {
        Some(owner) => first.push(about_account("it is "@, owner, "'s login."@)),
        None => first,
    };
    told.push(paint::blank_of())
}

/// The first `n` rows of the divergence prompt below `before`.
pub open spec fn divergence_rows(
    before: Seq<LineView>,
    actions: Seq<DivergenceActionView>,
    active: Seq<char>,
    cursor: int,
    n: nat,
) -> Seq<LineView>
    decreases n,
{
    if n == 0 {
        before
    } else {
        divergence_rows(before, actions, active, cursor, (n - 1) as nat).push(
            option_row(n - 1 == cursor, divergence_caption(actions[n - 1], active)),
        )
    }
}

/// The lines of the divergence prompt.
pub open spec fn divergence_dialog(f: DivergenceFormView) -> Seq<LineView> {
    let actions = forms::divergence_actions(f.sibling);
    divergence_rows(
        divergence_head(f),
        actions,
        f.active,
        text::min_int(f.cursor as int, actions.len() - 1),
        actions.len(),
    )
}

/// The lines of the divergence prompt.
pub fn divergence_lines(form: &DivergenceForm) -> (r: Vec<Line>)
    ensures
        paint::lines_view(r@) == divergence_dialog(form@),
{
    let actions = form.actions();
    let ghost all = forms::divergence_actions(form@.sibling);
    assert(all == forms::divergence_action_views(actions@));
    assert(all.len() == actions@.len());
    let cursor: usize = text::min_usize(form.cursor, actions.len() - 1);
    let mut out = paint::no_lines();
    paint::add_line(
        &mut out,
        account_sentence("the live login no longer matches ", &form.active, "."),
    );
    if let Some(owner) = &form.sibling {
        paint::add_line(&mut out, account_sentence("it is ", owner, "'s login."));
    }
    paint::add_line(&mut out, paint::blank());
    let ghost head = divergence_head(form@);
    assert(paint::lines_view(out@) == head);
    let mut i: usize = 0;
    while i < actions.len()
        invariant
            i <= actions@.len(),
            all == forms::divergence_action_views(actions@),
            paint::lines_view(out@) == divergence_rows(
                head,
                all,
                form.active@,
                cursor as int,
                i as nat,
            ),
        decreases actions@.len() - i,
    {
        assert(all[i as int] == actions@[i as int]@);
        let label = divergence_action_text(&actions[i], &form.active);
        paint::add_line(&mut out, option_line(i == cursor, &label));
        i = i + 1;
    }
    out
}

/// The first `n` accounts that can be overwritten, as rows below `before`.
pub open spec fn target_rows(
    before: Seq<LineView>,
    targets: Seq<Seq<char>>,
    cursor: int,
    n: nat,
) -> Seq<LineView>
    decreases n,
{
    if n == 0 {
        before
    } else {
        target_rows(before, targets, cursor, (n - 1) as nat).push(
            option_row(cursor == n, "overwrite '"@ + targets[n - 1] + "'"@),
        )
    }
}

/// The lines that ask where a login goes: a new account leads.
pub open spec fn target_dialog(f: DivergenceTargetFormView) -> Seq<LineView> {
    let cursor = text::min_int(f.cursor as int, f.targets.len() as int);
    target_rows(
        Seq::empty().push(
            paint::single_of("where to save the login?"@, paint::ink(Role::Dim)),
        ).push(paint::blank_of()).push(option_row(cursor == 0, "+ new account"@)),
        f.targets,
        cursor,
        f.targets.len(),
    )
}

/// The lines that ask where a login goes.
pub fn target_lines(form: &DivergenceTargetForm) -> (r: Vec<Line>)
    ensures
        paint::lines_view(r@) == target_dialog(form@),
{
    let cursor: usize = text::min_usize(form.cursor, form.targets.len());
    let ghost all = text::views(form.targets@);
    assert(all.len() == form.targets@.len());
    let mut out = paint::no_lines();
    paint::add_line(
        &mut out,
        paint::single("where to save the login?", paint::ink(Role::Dim)),
    );
    paint::add_line(&mut out, paint::blank());
    paint::add_line(&mut out, option_line(cursor == 0, "+ new account"));
    let ghost head = paint::lines_view(out@);
    let mut i: usize = 0;
    while i < form.targets.len()
        invariant
            i <= form.targets@.len(),
            all == text::views(form.targets@),
            paint::lines_view(out@) == target_rows(head, all, cursor as int, i as nat),
        decreases form.targets@.len() - i,
    {
        assert(all[i as int] == form.targets@[i as int]@);
        let label = text::joined3("overwrite '", &form.targets[i], "'");
        i = i + 1;
        paint::add_line(&mut out, option_line(cursor == i, &label));
    }
    out
}

/// What a choice of the key-collision prompt is called, and what it does.
pub open spec fn collision_caption(c: EnvCollisionChoice, f: EnvCollisionFormView) -> (
    Seq<char>,
    Seq<char>,
) {
    match c {
        EnvCollisionChoice::Overwrite => (
            "add the custom field anyway"@,
            "this account's value overrides "@ + f.reason,
        ),
        EnvCollisionChoice::KeepExisting => (
            "keep the existing value"@,
            if f.existing_idx is Some {
                "jump to the existing custom field"@
            } else {
                "leave it untouched; don't add the field"@
            },
        ),
        EnvCollisionChoice::Cancel => ("cancel"@, "back out, no change"@),
    }
}

/// What a choice of the key-collision prompt is called, and what it does.
pub fn env_collision_option_text(choice: EnvCollisionChoice, form: &EnvCollisionForm) -> (r: (
    String,
    String,
))
    ensures
        (r.0@, r.1@) == collision_caption(choice, form@),
{
    match choice {
        EnvCollisionChoice::Overwrite => (
            "add the custom field anyway".to_string(),
            text::joined("this account's value overrides ", &form.reason),
        ),
        EnvCollisionChoice::KeepExisting => (
            "keep the existing value".to_string(),
            if form.existing_idx.is_some() {
                "jump to the existing custom field".to_string()
            } else {
                "leave it untouched; don't add the field".to_string()
            },
        ),
        EnvCollisionChoice::Cancel => ("cancel".to_string(), "back out, no change".to_string()),
    }
}

/// The first `n` choices of the key-collision prompt below `before`, two lines each.
pub open spec fn collision_rows(
    before: Seq<LineView>,
    f: EnvCollisionFormView,
    cursor: int,
    n: nat,
) -> Seq<LineView>
    decreases n,
{
    if n == 0 {
        before
    } else {
        let (label, detail) = collision_caption(forms::collision_choice(n - 1), f);
        collision_rows(before, f, cursor, (n - 1) as nat).push(
            option_row(n - 1 == cursor, label),
        ).push(
            paint::line_of(
                Seq::empty().push(paint::raw_of("    "@)).push(
                    paint::span_of(detail, paint::ink(Role::Dim)),
                ),
            ),
        )
    }
}

/// The lines of the key-collision prompt.
pub open spec fn collision_dialog(f: EnvCollisionFormView) -> Seq<LineView> {
    let head = paint::line_of(
        Seq::empty().push(
            paint::span_of("'"@ + f.key + "'"@, paint::ink(Role::Accent)),
        ).push(paint::span_of(" is already used by "@, paint::ink(Role::Dim))).push(
            paint::span_of(f.reason, paint::ink(Role::Body)),
        ).push(paint::span_of("."@, paint::ink(Role::Dim))),
    );
    collision_rows(
        Seq::empty().push(head).push(paint::blank_of()),
        f,
        text::min_int(f.cursor as int, 2),
        3,
    )
}

/// The lines of the key-collision prompt.
pub fn collision_lines(form: &EnvCollisionForm) -> (r: Vec<Line>)
    ensures
        paint::lines_view(r@) == collision_dialog(form@),
{
    let options = EnvCollisionForm::options();
    let cursor: usize = text::min_usize(form.cursor, 2);
    let mut out = paint::no_lines();
    let quoted = text::joined3("'", &form.key, "'");
    let mut v = paint::no_spans();
    paint::put(&mut v, &quoted, paint::ink(Role::Accent));
    paint::put(&mut v, " is already used by ", paint::ink(Role::Dim));
    paint::put(&mut v, &form.reason, paint::ink(Role::Body));
    paint::put(&mut v, ".", paint::ink(Role::Dim));
    paint::add_line(&mut out, paint::line(v));
    paint::add_line(&mut out, paint::blank());
    let ghost head = paint::lines_view(out@);
    let mut i: usize = 0;
    while i < 3
        invariant
            i <= 3,
            forall|k: int| 0 <= k < 3 ==> #[trigger] options@[k] == forms::collision_choice(k),
            paint::lines_view(out@) == collision_rows(head, form@, cursor as int, i as nat),
        decreases 3 - i,
    {
        assert(options@[i as int] == forms::collision_choice(i as int));
        let (label, detail) = env_collision_option_text(options[i], form);
        paint::add_line(&mut out, option_line(i == cursor, &label));
        let mut d = paint::no_spans();
        paint::put_raw(&mut d, "    ");
        paint::put(&mut d, &detail, paint::ink(Role::Dim));
        paint::add_line(&mut out, paint::line(d));
        i = i + 1;
    }
    out
}

/// A form row of a dialog: the gutter, the label, one blank, then the value.
pub open spec fn form_row(
    glyphs: GlyphsView,
    label: Seq<char>,
    value: SpanView,
    focused: bool,
) -> LineView {
    paint::line_of(
        Seq::empty().push(
            if focused {
                paint::span_of(glyphs.edit + " "@, paint::ink(Role::Accent).strong())
            } else {
                paint::raw_of("  "@)
            },
        ).push(paint::span_of(label, paint::ink(Role::Label))).push(paint::raw_of(" "@)).push(
            value,
        ),
    )
}

/// A form row of a dialog.
pub fn labelled_line(glyphs: &Glyphs, label: &str, value: Span, focused: bool) -> (r: Line)
    ensures
        r@ == form_row(glyphs@, label@, value@, focused),
{
    let mut v = paint::no_spans();
    if focused {
        let g = text::joined(&glyphs.edit, " ");
        paint::put(&mut v, &g, paint::ink(Role::Accent).strong());
    } else {
        paint::put_raw(&mut v, "  ");
    }
    paint::put(&mut v, label, paint::ink(Role::Label));
    paint::put_raw(&mut v, " ");
    paint::put_span(&mut v, value);
    paint::line(v)
}

/// A text field of a dialog: sunken in focus.
pub open spec fn field_row(
    glyphs: GlyphsView,
    label: Seq<char>,
    value: Seq<char>,
    focused: bool,
) -> LineView {
    let style = if focused {
        paint::ink(Role::Text).on(Fill::Sunken)
    } else {
        paint::ink(Role::Text)
    };
    form_row(glyphs, label, paint::span_of(value, style), focused)
}

/// A text field of a dialog.
pub fn labelled_input(glyphs: &Glyphs, label: &str, input: &InputState, focused: bool) -> (r: Line)
    ensures
        r@ == field_row(glyphs@, label@, input@.text, focused),
{
    let style = if focused {
        paint::ink(Role::Text).on(Fill::Sunken)
    } else {
        paint::ink(Role::Text)
    };
    labelled_line(glyphs, label, paint::span(input.value(), style), focused)
}

/// The lines of a dialog that asks for a name.
pub open spec fn name_dialog(glyphs: GlyphsView, blurb: Seq<char>, name: Seq<char>) -> Seq<
    LineView,
> {
    Seq::empty().push(paint::single_of(blurb, paint::ink(Role::Dim))).push(
        paint::blank_of(),
    ).push(field_row(glyphs, "name"@, name, true))
}

/// The lines of a dialog that asks for a name.
pub fn name_lines(glyphs: &Glyphs, blurb: &str, input: &InputState) -> (r: Vec<Line>)
    ensures
        paint::lines_view(r@) == name_dialog(glyphs@, blurb@, input@.text),
{
    let mut out = paint::no_lines();
    paint::add_line(&mut out, paint::single(blurb, paint::ink(Role::Dim)));
    paint::add_line(&mut out, paint::blank());
    paint::add_line(&mut out, labelled_input(glyphs, "name", input, true));
    out
}

/// What capturing the live login does.
pub open spec fn capture_note(host: HostView) -> Seq<char> {
    "stores the live "@ + host.home() + "/.credentials.json under this account."@
}

/// The lines of the dialog that captures the live login.
pub fn capture_lines(host: &Host, glyphs: &Glyphs, input: &InputState) -> (r: Vec<Line>)
    ensures
        paint::lines_view(r@) == name_dialog(glyphs@, capture_note(host@), input@.text),
{
    let note = text::joined3(
        "stores the live ",
        &host.home(),
        "/.credentials.json under this account.",
    );
    name_lines(glyphs, &note, input)
}

/// Where the text cursor of a name dialog stands on the screen.
pub open spec fn name_cursor(area: Area, title: Seq<char>, lines: Seq<LineView>, head: int) -> (
    int,
    int,
) {
    let w = modal_box::dialog_columns(
        modal_box::widest_line(lines, lines.len()),
        title.len() as int,
        area.width as int,
    );
    let rect = modal_box::middle(area, w, lines.len() as int + 4);
    (
        text::min_int(rect.x + 10 + head, u16::MAX as int),
        text::min_int(rect.y + 4, u16::MAX as int),
    )
}

/// Where the text cursor of a name dialog stands on the screen: behind the gutter, the label
/// and the text before the caret.
pub fn place_name_cursor(area: Area, title: &str, lines: &Vec<Line>, input: &InputState) -> (r: (
    u16,
    u16,
))
    requires
        lines@.len() == 3,
    ensures
        (r.0 as int, r.1 as int) == name_cursor(
            area,
            title@,
            paint::lines_view(lines@),
            input@.before().len() as int,
        ),
{
    assert(paint::lines_view(lines@).len() == 3);
    let w: u16 = modal_box::dialog_width(lines, title, area.width);
    let rect = modal_box::centered(area, w, 7);
    let head: u16 = text::cells(layout::head_cols(input));
    let x: u16 = rect.x.saturating_add(10).saturating_add(head);
    let y: u16 = rect.y.saturating_add(4);
    (x, y)
}

/// A stored set of models and an endpoint, as the picker lists it.
#[derive(Debug)]
pub struct PresetEntry {
    pub name: String,
    pub builtin: bool,
}

/// What a [`PresetEntry`] says.
pub struct PresetEntryView {
    pub name: Seq<char>,
    pub builtin: bool,
}

impl View for PresetEntry {
    type V = PresetEntryView;

    open spec fn view(&self) -> PresetEntryView {
        PresetEntryView { name: self.name@, builtin: self.builtin }
    }
}

/// The views of a list of presets.
pub open spec fn preset_views(v: Seq<PresetEntry>) -> Seq<PresetEntryView> {
    v.map_values(|p: PresetEntry| p@)
}

/// A row of the preset picker.
pub open spec fn preset_row(p: PresetEntryView, selected: bool) -> LineView {
    let row = option_row(selected, p.name);
    if p.builtin {
        paint::line_of(row.spans.push(paint::span_of("  built-in"@, paint::ink(Role::Dim))))
    } else {
        row
    }
}

/// The first `n` rows of the preset picker below `before`.
pub open spec fn preset_rows(
    before: Seq<LineView>,
    presets: Seq<PresetEntryView>,
    cursor: int,
    n: nat,
) -> Seq<LineView>
    decreases n,
{
    if n == 0 {
        before
    } else {
        preset_rows(before, presets, cursor, (n - 1) as nat).push(
            preset_row(presets[n - 1], n - 1 == cursor),
        )
    }
}

/// The lines of the preset picker.
pub open spec fn preset_dialog(
    target: Seq<char>,
    presets: Seq<PresetEntryView>,
    cursor: int,
) -> Seq<LineView> {
    preset_rows(
        Seq::empty().push(
            paint::single_of(
                "sets the base url and models on '"@ + target + "'."@,
                paint::ink(Role::Dim),
            ),
        ).push(paint::blank_of()),
        presets,
        text::min_int(cursor, text::monus(presets.len() as int, 1)),
        presets.len(),
    ).push(paint::blank_of()).push(
        paint::single_of("d deletes a saved preset"@, paint::ink(Role::Dim)),
    )
}

/// The lines of the preset picker.
pub fn preset_lines(target: &str, presets: &Vec<PresetEntry>, cursor: usize) -> (r: Vec<Line>)
    ensures
        paint::lines_view(r@) == preset_dialog(target@, preset_views(presets@), cursor as int),
{
    let ghost all = preset_views(presets@);
    assert(all.len() == presets@.len());
    let at: usize = text::min_usize(cursor, presets.len().saturating_sub(1));
    let mut out = paint::no_lines();
    let note = text::joined3("sets the base url and models on '", target, "'.");
    paint::add_line(&mut out, paint::single(&note, paint::ink(Role::Dim)));
    paint::add_line(&mut out, paint::blank());
    let ghost head = paint::lines_view(out@);
    let mut i: usize = 0;
    while i < presets.len()
        invariant
            i <= presets@.len(),
            all == preset_views(presets@),
            paint::lines_view(out@) == preset_rows(head, all, at as int, i as nat),
        decreases presets@.len() - i,
    {
        assert(all[i as int] == presets@[i as int]@);
        let mut row = option_line(i == at, &presets[i].name);
        if presets[i].builtin {
            paint::put(&mut row.spans, "  built-in", paint::ink(Role::Dim));
        }
        paint::add_line(&mut out, row);
        i = i + 1;
    }
    paint::add_line(&mut out, paint::blank());
    paint::add_line(
        &mut out,
        paint::single("d deletes a saved preset", paint::ink(Role::Dim)),
    );
    out
}

/// A login in flight, as the dialog shows it.
pub struct LoginScene {
    pub name: String,
    pub stage: LoginStage,
    /// The code came by hand instead of from the browser.
    pub by_hand: bool,
    /// The field a code is pasted into, while it is open.
    pub paste: Option<InputState>,
    /// The login can still be finished in a browser or by a pasted code.
    pub door_open: bool,
    /// The address of the login is known.
    pub has_url: bool,
    /// The current frame of the spinner.
    pub frame: String,
}

/// What a [`LoginScene`] says.
pub struct LoginSceneView {
    pub name: Seq<char>,
    pub stage: LoginStage,
    pub by_hand: bool,
    pub paste: Option<InputView>,
    pub door_open: bool,
    pub has_url: bool,
    pub frame: Seq<char>,
}

impl View for LoginScene {
    type V = LoginSceneView;

    open spec fn view(&self) -> LoginSceneView {
        LoginSceneView {
            name: self.name@,
            stage: self.stage,
            by_hand: self.by_hand,
            paste: input::opt_input_state(self.paste),
            door_open: self.door_open,
            has_url: self.has_url,
            frame: self.frame@,
        }
    }
}

/// How far the login has come, in words.
pub open spec fn login_words(s: LoginSceneView) -> Seq<char> {
    match s.stage {
        LoginStage::WaitingBrowser => if s.paste is Some {
            "pasting the code"@
        } else {
            "continue in your browser"@
        },
        LoginStage::ExchangingCode => if s.by_hand {
            "logging in with the code"@
        } else {
            "exchanging the code for tokens"@
        },
        LoginStage::Verifying => if s.by_hand {
            "logging in with the code"@
        } else {
            "verifying the minted token"@
        },
    }
}

fn login_stage_text(s: &LoginScene) -> (r: &'static str)
    ensures
        r@ == login_words(s@),
{
    match s.stage {
        LoginStage::WaitingBrowser => if s.paste.is_some() {
            "pasting the code"
        } else {
            "continue in your browser"
        },
        LoginStage::ExchangingCode => if s.by_hand {
            "logging in with the code"
        } else {
            "exchanging the code for tokens"
        },
        LoginStage::Verifying => if s.by_hand {
            "logging in with the code"
        } else {
            "verifying the minted token"
        },
    }
}

/// A key and what it does.
pub open spec fn key_row_of(key: Seq<char>, what: Seq<char>) -> LineView {
    paint::line_of(
        Seq::empty().push(paint::span_of(key, paint::ink(Role::Accent).strong())).push(
            paint::span_of(what, paint::ink(Role::Dim)),
        ),
    )
}

fn key_row(key: &str, what: &str) -> (r: Line)
    ensures
        r@ == key_row_of(key@, what@),
{
    let mut v = paint::no_spans();
    paint::put(&mut v, key, paint::ink(Role::Accent).strong());
    paint::put(&mut v, what, paint::ink(Role::Dim));
    paint::line(v)
}

/// The code field of the login dialog, with a placeholder while it is empty.
pub open spec fn code_row(glyphs: GlyphsView, typed: Seq<char>) -> LineView {
    if typed.len() == 0 {
        form_row(
            glyphs,
            "code"@,
            paint::span_of("(paste it here)"@, paint::ink(Role::Faint)),
            true,
        )
    } else {
        field_row(glyphs, "code"@, typed, true)
    }
}

/// The code field of the login dialog.
pub fn code_field_row(glyphs: &Glyphs, field: &InputState) -> (r: Line)
    ensures
        r@ == code_row(glyphs@, field@.text),
{
    if field.value().unicode_len() == 0 {
        labelled_line(
            glyphs,
            "code",
            paint::span("(paste it here)", paint::ink(Role::Faint)),
            true,
        )
    } else {
        labelled_input(glyphs, "code", field, true)
    }
}

/// The head of the login dialog: who logs in, and how far it is.
pub open spec fn login_head(s: LoginSceneView) -> Seq<LineView> {
    Seq::empty().push(
        paint::single_of("logging in '"@ + s.name + "'"@, paint::ink(Role::Body)),
    ).push(paint::blank_of()).push(
        paint::line_of(
            Seq::empty().push(paint::span_of(s.frame + " "@, paint::ink(Role::Accent))).push(
                paint::span_of(login_words(s), paint::ink(Role::Dim)),
            ),
        ),
    )
}

/// The lines of the login dialog.
pub open spec fn login_dialog(glyphs: GlyphsView, s: LoginSceneView) -> Seq<LineView> {
    let head = login_head(s);
    if s.door_open {
        head.push(paint::blank_of()).push(
            key_row_of("r"@, "  open the browser again"@),
        ).push(key_row_of("c"@, "  copy link"@)).push(
            match s.paste {
                Some(f) => code_row(glyphs, f.text),
                None => key_row_of("p"@, "  paste code"@),
            },
        )
    } else if s.stage == LoginStage::WaitingBrowser {
        head.push(paint::blank_of()).push(
            if s.has_url {
                key_row_of("r"@, "  open the browser again"@)
            } else {
                paint::single_of("opening your browser…"@, paint::ink(Role::Dim))
            },
        )
    } else {
        head
    }
}

/// The lines of the login dialog, and where its caret stands: a line and a column in it.
pub fn login_lines(glyphs: &Glyphs, s: &LoginScene) -> (r: (Vec<Line>, Option<(usize, usize)>))
    ensures
        paint::lines_view(r.0@) == login_dialog(glyphs@, s@),
        match s@.paste {
            Some(f) => if s.door_open {
                r.1 == Some((6usize, text::min_int(f.before().len() as int + 7, usize::MAX as int) as usize))
            } else {
                r.1 is None
            },
            None => r.1 is None,
        },
{
    let mut out = paint::no_lines();
    let who = text::joined3("logging in '", &s.name, "'");
    paint::add_line(&mut out, paint::single(&who, paint::ink(Role::Body)));
    paint::add_line(&mut out, paint::blank());
    let mut v = paint::no_spans();
    let f = text::joined(&s.frame, " ");
    paint::put(&mut v, &f, paint::ink(Role::Accent));
    paint::put(&mut v, login_stage_text(s), paint::ink(Role::Dim));
    paint::add_line(&mut out, paint::line(v));
    let mut caret: Option<(usize, usize)> = None;
    if s.door_open {
        paint::add_line(&mut out, paint::blank());
        paint::add_line(&mut out, key_row("r", "  open the browser again"));
        paint::add_line(&mut out, key_row("c", "  copy link"));
        match &s.paste {
            Some(field) => {
                caret = Some((6usize, layout::head_cols(field).saturating_add(7)));
                paint::add_line(&mut out, code_field_row(glyphs, field));
            },
            None => {
                paint::add_line(&mut out, key_row("p", "  paste code"));
            },
        }
    } else if s.stage == LoginStage::WaitingBrowser {
        paint::add_line(&mut out, paint::blank());
        if s.has_url {
            paint::add_line(&mut out, key_row("r", "  open the browser again"));
        } else {
            paint::add_line(
                &mut out,
                paint::single("opening your browser…", paint::ink(Role::Dim)),
            );
        }
    }
    (out, caret)
}

/// The longest label among the first `n` entries of a menu.
pub open spec fn widest_label(items: Seq<ActionItemView>, n: nat) -> int
    decreases n,
{
    if n == 0 {
        0
    } else {
        text::max_int(widest_label(items, (n - 1) as nat), items[n - 1].label.len() as int)
    }
}

/// Where the rule of a menu stands: behind the entries about one account, when others follow.
pub open spec fn rule_row(scoped: int, total: int) -> Option<int> {
    if 0 < scoped < total {
        Some(scoped)
    } else {
        None
    }
}

/// The size of the action menu: room for the longest entry and both border titles, and a row
/// for each entry and the rule.
pub open spec fn menu_size(
    items: Seq<ActionItemView>,
    scoped: int,
    context: Option<Seq<char>>,
    area: Area,
) -> (int, int) {
    let titles = match context {
        Some(c) => c.len() as int + 14,
        None => 12,
    };
    (
        text::min_int(
            text::max_int(widest_label(items, items.len()) + 12, titles),
            text::monus(area.width as int, 4),
        ),
        text::min_int(
            items.len() + (if rule_row(scoped, items.len() as int) is Some {
                1int
            } else {
                0
            }) + 4,
            text::monus(area.height as int, 4),
        ),
    )
}

/// Where the action menu goes.
pub fn menu_area(state: &ActionMenuState, scoped: usize, context: &Option<String>, area: Area) -> (r:
    Area)
    ensures
        ({
            let (w, h) = menu_size(state@.items, scoped as int, text::opt_view(*context), area);
            r == modal_box::middle(area, w, h)
        }),
{
    let ghost all = state@.items;
    assert(all.len() == state.items@.len());
    let mut widest: usize = 0;
    let mut i: usize = 0;
    while i < state.items.len()
        invariant
            i <= state.items@.len(),
            all == menu::item_views(state.items@),
            widest == widest_label(all, i as nat),
        decreases state.items@.len() - i,
    {
        assert(all[i as int] == state.items@[i as int]@);
        widest = text::max_usize(widest, state.items[i].label.as_str().unicode_len());
        i = i + 1;
    }
    let titles: usize = match context {
        Some(c) => c.as_str().unicode_len().saturating_add(14),
        None => 12,
    };
    let w: u16 = text::min_u16(
        text::cells(text::max_usize(widest.saturating_add(12), titles)),
        area.width.saturating_sub(4),
    );
    let extra: usize = if 0 < scoped && scoped < state.items.len() {
        5
    } else {
        4
    };
    let h: u16 = text::min_u16(
        text::cells(state.items.len().saturating_add(extra)),
        area.height.saturating_sub(4),
    );
    modal_box::centered(area, w, h)
}

/// A row of the action menu, its shortcut against the right edge.
pub open spec fn menu_row(item: ActionItemView, focused: bool, width: int) -> LineView {
    let pad = text::monus(text::monus(text::monus(width, 2), item.label.len() as int), 1);
    let style = paint::bold_when(paint::ink(Role::Text), focused);
    let spans = Seq::empty().push(
        if focused {
            paint::span_of("❯ "@, paint::ink(Role::Accent).strong())
        } else {
            paint::raw_of("  "@)
        },
    ).push(paint::span_of(item.label, style)).push(paint::blanks_of(pad as nat)).push(
        paint::span_of(
            match item.hotkey {
                Some(c) => Seq::empty().push(c),
                None => " "@,
            },
            paint::ink(Role::Dim),
        ),
    );
    LineView { spans, selected: focused, right: false }
}

/// A row of the action menu.
pub fn menu_line(item: &ActionItem, focused: bool, width: u16) -> (r: Line)
    ensures
        r@ == menu_row(item@, focused, width as int),
{
    let mut v = paint::no_spans();
    paint::put_span(&mut v, layout::caret(focused));
    paint::put(&mut v, &item.label, paint::bold_when(paint::ink(Role::Text), focused));
    let pad: usize = (width.saturating_sub(2) as usize).saturating_sub(
        item.label.as_str().unicode_len(),
    ).saturating_sub(1);
    paint::put_blanks(&mut v, pad);
    match item.hotkey {
        Some(c) => {
            let key = text::fill_text(c, 1);
            assert(key@ =~= Seq::<char>::empty().push(c));
            paint::put(&mut v, &key, paint::ink(Role::Dim));
        },
        None => {
            paint::put(&mut v, " ", paint::ink(Role::Dim));
        },
    }
    Line { spans: v, selected: focused, right: false }
}

/// The first `n` entries of the action menu, with the rule in its place.
pub open spec fn menu_list(
    items: Seq<ActionItemView>,
    cursor: int,
    scoped: int,
    width: int,
    n: nat,
) -> Seq<LineView>
    decreases n,
{
    if n == 0 {
        Seq::empty()
    } else {
        let before = menu_list(items, cursor, scoped, width, (n - 1) as nat);
        let ruled = if rule_row(scoped, items.len() as int) == Some(n - 1) {
            before.push(
                paint::single_of(text::fill('─', width as nat), paint::ink(Role::Rule)),
            )
        } else {
            before
        };
        ruled.push(menu_row(items[n - 1], n - 1 == cursor, width))
    }
}

/// The rows of the action menu; what does not fit the height is left out.
pub fn menu_rows(state: &ActionMenuState, scoped: usize, width: u16, height: u16) -> (r: Vec<Line>)
    ensures
        ({
            let all = menu_list(
                state@.items,
                state@.cursor as int,
                scoped as int,
                width as int,
                state@.items.len(),
            );
            paint::lines_view(r@) == all.take(text::min_int(all.len() as int, height as int))
        }),
{
    let ghost all = state@.items;
    assert(all.len() == state.items@.len());
    let ruled: bool = 0 < scoped && scoped < state.items.len();
    let mut out = paint::no_lines();
    let mut i: usize = 0;
    while i < state.items.len()
        invariant
            i <= state.items@.len(),
            all == menu::item_views(state.items@),
            all.len() == state.items@.len(),
            ruled == (0 < scoped < all.len()),
            paint::lines_view(out@) == menu_list(
                all,
                state.cursor as int,
                scoped as int,
                width as int,
                i as nat,
            ),
        decreases state.items@.len() - i,
    {
        assert(all[i as int] == state.items@[i as int]@);
        if ruled && i == scoped {
            let rule = text::fill_text('─', width as usize);
            paint::add_line(&mut out, paint::single(&rule, paint::ink(Role::Rule)));
        }
        paint::add_line(&mut out, menu_line(&state.items[i], i == state.cursor, width));
        i = i + 1;
    }
    let ghost full = paint::lines_view(out@);
    assert(full.len() == out@.len());
    if out.len() > height as usize {
        out.truncate(height as usize);
    }
    assert(paint::lines_view(out@) =~= full.take(
        text::min_int(full.len() as int, height as int),
    ));
    out
}

/// The row of an entry of the action menu.
pub open spec fn menu_place(scoped: int, total: int, i: int) -> int {
    match rule_row(scoped, total) {
        Some(at) => if i >= at {
            i + 1
        } else {
            i
        },
        None => i,
    }
}

proof fn lemma_menu_list(
    items: Seq<ActionItemView>,
    cursor: int,
    scoped: int,
    width: int,
    n: nat,
    i: int,
)
    requires
        n <= items.len(),
        0 <= i < n,
    ensures
        ({
            let rows = menu_list(items, cursor, scoped, width, n);
            let at = menu_place(scoped, items.len() as int, i);
            &&& 0 <= at < rows.len()
            &&& rows[at] == menu_row(items[i], i == cursor, width)
            &&& rows.len() == menu_place(scoped, items.len() as int, n - 1) + 1
        }),
    decreases n,
{
    if n >= 2 {
        lemma_menu_list(
            items,
            cursor,
            scoped,
            width,
            (n - 1) as nat,
            if i == n - 1 {
                0
            } else {
                i
            },
        );
    } else {
        assert(menu_list(items, cursor, scoped, width, 0) =~= Seq::<LineView>::empty());
    }
}

/// Every entry of the action menu has its row, and only the entry under the cursor is drawn as
/// selected: the rule never is.
pub proof fn menu_entries_have_rows(
    items: Seq<ActionItemView>,
    cursor: int,
    scoped: int,
    width: int,
    i: int,
)
    requires
        0 <= i < items.len(),
    ensures
        ({
            let rows = menu_list(items, cursor, scoped, width, items.len());
            let at = menu_place(scoped, items.len() as int, i);
            &&& 0 <= at < rows.len()
            &&& rows[at] == menu_row(items[i], i == cursor, width)
            &&& rows[at].selected == (i == cursor)
            &&& rule_row(scoped, items.len() as int) != Some(at)
        }),
{
    lemma_menu_list(items, cursor, scoped, width, items.len(), i);
}

/// A step that loses something is always asked for with the destructive button, and no other
/// step is.
pub proof fn losses_are_marked(a: AskingView, choice: bool)
    ensures
        ({
            let buttons = confirm_buttons(a, choice).spans;
            let last = buttons[buttons.len() - 1].style;
            (last.role == Role::Danger || last.fill == Fill::Danger) == (a is Loss)
        }),
{
}

} // verus!
