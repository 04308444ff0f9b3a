//! What the operations of the interface promise, as laws over their results.

use vstd::prelude::*;

use crate::forms::{CaptureNameFormView, ConfirmStateView, ModalView, ToastKind};
use crate::input::InputView;
use crate::key::{Key, KeyCode};
use crate::model::AppConfigView;
use crate::requests::{Reply, Request, RequestView};
use crate::state::AppView;
use crate::text;

pub mod accounts;
pub mod background;
pub mod cards;
pub mod checks;
pub mod details;
pub mod entries;
pub mod findings;
pub mod frames;
pub mod keys;
pub mod logins;
pub mod members;
pub mod opening;
pub mod panes;
pub mod prompts;
pub mod readings;
pub mod reports;
pub mod screens;
pub mod switching;
pub mod windows;

verus! {

/// A key, pressed without a modifier.
pub open spec fn pressed(code: KeyCode) -> Key {
    Key { code, control: false, shift: false, press: true }
}

/// The newest toast is of a kind, and of now.
pub open spec fn told(t: AppView, kind: ToastKind) -> bool {
    &&& t.toasts.len() > 0
    &&& t.toasts.last().kind == kind
    &&& t.toasts.last().born == t.ui.now_ms
}

/// A toast of a kind was added, and nothing else changed.
pub open spec fn only_told(s: AppView, t: AppView, kind: ToastKind) -> bool {
    &&& t == AppView { toasts: t.toasts, ..s }
    &&& told(t, kind)
}

/// The first account called `name` is the one at `i`.
pub open spec fn first_named(c: AppConfigView, name: Seq<char>, i: int) -> bool {
    &&& 0 <= i < c.profiles.len()
    &&& c.profiles[i].name == name
    &&& forall|j: int| 0 <= j < i ==> (#[trigger] c.profiles[j]).name != name
}

pub proof fn lemma_found(c: AppConfigView, name: Seq<char>, i: int)
    requires
        first_named(c, name, i),
    ensures
        c.index_of(name) == Some(i),
        c.find(name) == Some(c.profiles[i]),
{
    assert forall|j: int| 0 <= j < i implies c.names()[j] != name by {
        assert(c.names()[j] == c.profiles[j].name);
    }
    text::lemma_position_is(c.names(), name, i);
}

/// An edit of an account, or the look at what was typed for one.
pub open spec fn is_edit(r: Request) -> bool {
    ||| r is RenameProfile
    ||| r is EditEndpoint
    ||| r is EditModel
    ||| r is EnvSetValue
    ||| r is EnvAddKey
    ||| r is EnvRemove
    ||| r is CreateProfile
    ||| r is SaveAutoStart
    ||| r is SaveLastResort
    ||| r is CommitThreshold
    ||| r is CommitWeekly
    ||| r is CheckLoginName
    ||| r is CheckNewName
    ||| r is CheckRename
}

pub proof fn lemma_edited(s: AppView, r: Request, e: String)
    requires
        is_edit(r),
    ensures
        s.settled(r, Reply::Done) == s.edited(r, None),
        s.settled(r, Reply::Failed(e)) == s.edited(r, Some(e@)),
{
    reveal(AppView::settled);
    reveal(AppView::concluded);
    reveal(AppView::stored);
}

/// A dialog that asks for the name of a captured login, still empty.
pub open spec fn asks_for_a_name(m: ModalView, slot: u64, from_divergence: bool) -> bool {
    m == ModalView::CaptureName(
        CaptureNameFormView { slot, input: InputView::of(""@), from_divergence },
    )
}

/// A change to a stored login that went through has the tokens read again, the settings' time
/// noted and a success said; one that failed only says so.
pub open spec fn login_outcome(s: AppView, r: Request, e: String) -> bool {
    let done = s.settled(r, Reply::Done);
    &&& done == AppView {
        requests: s.requests.push(RequestView::RefreshTokens).push(RequestView::NoteStateTime),
        toasts: done.toasts,
        ..s
    }
    &&& told(done, ToastKind::Success)
    &&& only_told(s, s.settled(r, Reply::Failed(e)), ToastKind::Danger)
}

/// A yes/no dialog put on top takes the keys: enter answers it as it stands, `y` and `n` move the
/// answer, and escape closes it.
pub proof fn dialogs_take_the_answer(s: AppView, t: AppView)
    requires
        exists|st: ConfirmStateView| t == #[trigger] s.with_modal(ModalView::Confirm(st)),
    ensures
        t == (AppView { modals: t.modals, ..s }),
        t.modals.len() == s.modals.len() + 1,
        t.modals.last() is Confirm,
        ({
            let st = t.modals.last()->Confirm_0;
            &&& t.keyed(pressed(KeyCode::Enter)) == (if st.choice {
                s.confirm_run(st.on_confirm)
            } else {
                s
            })
            &&& t.keyed(pressed(KeyCode::Esc)) == s
            &&& t.keyed(pressed(KeyCode::Char('y'))).keyed(pressed(KeyCode::Enter))
                == s.confirm_run(st.on_confirm)
            &&& t.keyed(pressed(KeyCode::Char('n'))).keyed(pressed(KeyCode::Enter)) == s
        }),
{
    reveal(AppView::with_modal);
    reveal(AppView::without_modal);
    reveal(AppView::keyed);
    reveal(AppView::modal_keyed);
    reveal(AppView::confirm_keyed);
    reveal(AppView::confirm_answered);
    let st = t.modals.last()->Confirm_0;
    assert(t.modals.drop_last() =~= s.modals);
    assert(t.without_modal() == s);
    let y = s.with_modal(ModalView::Confirm(ConfirmStateView { choice: true, ..st }));
    assert(t.keyed(pressed(KeyCode::Char('y'))) == y);
    assert(y.modals.drop_last() =~= s.modals);
    assert(y.without_modal() == s);
    let n = s.with_modal(ModalView::Confirm(ConfirmStateView { choice: false, ..st }));
    assert(t.keyed(pressed(KeyCode::Char('n'))) == n);
    assert(n.modals.drop_last() =~= s.modals);
    assert(n.without_modal() == s);
}

} // verus!
