//! Single-line text field with a caret.

use vstd::prelude::*;
use vstd::utf8::*;

use crate::text;

verus! {

/// What a text field shows: its characters, and how many of them stand left of the caret.
#[verifier::ext_equal]
pub struct InputView {
    pub text: Seq<char>,
    pub caret: nat,
}

/// `s` without the spaces at its end.
pub open spec fn strip_spaces_end(s: Seq<char>) -> Seq<char>
    decreases s.len(),
{
    if s.len() > 0 && s.last() == ' ' {
        strip_spaces_end(s.drop_last())
    } else {
        s
    }
}

/// Number of characters up to and with the last space of `s`; zero when it has none.
pub open spec fn after_last_space(s: Seq<char>) -> nat
    decreases s.len(),
{
    if s.len() == 0 {
        0
    } else if s.last() == ' ' {
        s.len()
    } else {
        after_last_space(s.drop_last())
    }
}

/// Where the word left of the end of `s` begins, counting the spaces behind it as part of it.
pub open spec fn word_start(s: Seq<char>) -> nat {
    after_last_space(strip_spaces_end(s))
}

impl InputView {
    /// The caret stands within the text.
    pub open spec fn wf(self) -> bool {
        self.caret <= self.text.len()
    }

    pub open spec fn of(text: Seq<char>) -> InputView {
        InputView { text, caret: text.len() }
    }

    pub open spec fn before(self) -> Seq<char> {
        self.text.take(self.caret as int)
    }

    pub open spec fn after(self) -> Seq<char> {
        self.text.skip(self.caret as int)
    }

    pub open spec fn inserted(self, ch: char) -> InputView {
        InputView { text: self.before().push(ch) + self.after(), caret: self.caret + 1 }
    }

    pub open spec fn backspaced(self) -> InputView {
        if self.caret == 0 {
            self
        } else {
            InputView {
                text: self.before().drop_last() + self.after(),
                caret: (self.caret - 1) as nat,
            }
        }
    }

    pub open spec fn deleted(self) -> InputView {
        if self.caret >= self.text.len() {
            self
        } else {
            InputView { text: self.before() + self.after().drop_first(), caret: self.caret }
        }
    }

    pub open spec fn moved_left(self) -> InputView {
        if self.caret == 0 {
            self
        } else {
            InputView { caret: (self.caret - 1) as nat, ..self }
        }
    }

    pub open spec fn moved_right(self) -> InputView {
        if self.caret >= self.text.len() {
            self
        } else {
            InputView { caret: self.caret + 1, ..self }
        }
    }

    pub open spec fn word_deleted(self) -> InputView {
        let start = word_start(self.before());
        InputView { text: self.text.take(start as int) + self.after(), caret: start }
    }

    pub open spec fn homed(self) -> InputView {
        InputView { caret: 0, ..self }
    }

    pub open spec fn ended(self) -> InputView {
        InputView { caret: self.text.len(), ..self }
    }

    pub open spec fn trimmed(self) -> Seq<char> {
        text::trim(self.text)
    }

    pub open spec fn trimmed_some(self) -> Option<Seq<char>> {
        if self.trimmed().len() == 0 {
            None
        } else {
            Some(self.trimmed())
        }
    }
}

/// An edited line of text.
///
/// The caret is kept as a byte offset into the UTF-8 text and always falls on a
/// character boundary.
pub struct InputState {
    value: String,
    cursor: usize,
    caret: Ghost<nat>,
}

impl View for InputState {
    type V = InputView;

    closed spec fn view(&self) -> InputView {
        InputView { text: self.value@, caret: self.caret@ }
    }
}

/// The view of an optional value.
pub open spec fn opt_input_state(o: Option<InputState>) -> Option<InputView> {
    match o {
        Some(x) => Some(x@),
        None => None,
    }
}

proof fn lemma_word_start_bound(s: Seq<char>)
    ensures
        word_start(s) <= s.len(),
{
    lemma_strip_bound(s);
    lemma_after_last_space_bound(strip_spaces_end(s));
}

proof fn lemma_strip_bound(s: Seq<char>)
    ensures
        strip_spaces_end(s).len() <= s.len(),
        strip_spaces_end(s) == s.take(strip_spaces_end(s).len() as int),
    decreases s.len(),
{
    if s.len() > 0 && s.last() == ' ' {
        lemma_strip_bound(s.drop_last());
        let k = strip_spaces_end(s).len() as int;
        assert(s.drop_last().take(k) =~= s.take(k));
    } else {
        assert(s.take(s.len() as int) =~= s);
    }
}

proof fn lemma_after_last_space_bound(s: Seq<char>)
    ensures
        after_last_space(s) <= s.len(),
    decreases s.len(),
{
    if s.len() > 0 && s.last() != ' ' {
        lemma_after_last_space_bound(s.drop_last());
    }
}

proof fn lemma_strip_at(s: Seq<char>, k: int)
    requires
        0 <= k <= s.len(),
        forall|i: int| k <= i < s.len() ==> s[i] == ' ',
        k > 0 ==> s[k - 1] != ' ',
    ensures
        strip_spaces_end(s) == s.take(k),
    decreases s.len(),
{
    if k == s.len() {
        assert(s.take(k) =~= s);
    } else {
        lemma_strip_at(s.drop_last(), k);
        assert(s.drop_last().take(k) =~= s.take(k));
    }
}

proof fn lemma_after_last_space_at(s: Seq<char>, k: int)
    requires
        0 <= k <= s.len(),
        forall|i: int| k <= i < s.len() ==> s[i] != ' ',
        k > 0 ==> s[k - 1] == ' ',
    ensures
        after_last_space(s) == k,
    decreases s.len(),
{
    if k < s.len() {
        lemma_after_last_space_at(s.drop_last(), k);
    }
}

impl InputState {
    #[verifier::type_invariant]
    spec fn inv(self) -> bool {
        &&& self.caret@ <= self.value@.len()
        &&& self.cursor == encode_utf8(self.value@.take(self.caret@ as int)).len()
    }

    /// A field holding `initial`, the caret behind it.
    pub fn new(initial: &str) -> (r: InputState)
        ensures
            r@ == InputView::of(initial@),
    {
        proof {
            assert(initial@.take(initial@.len() as int) =~= initial@);
        }
        InputState {
            value: initial.to_string(),
            cursor: initial.as_bytes().len(),
            caret: Ghost(initial@.len()),
        }
    }

    /// A copy of the field.
    pub fn duplicate(&self) -> (r: InputState)
        ensures
            r@ == self@,
    {
        proof {
            use_type_invariant(self);
        }
        InputState { value: self.value.clone(), cursor: self.cursor, caret: Ghost(self.caret@) }
    }

    /// The text.
    pub fn value(&self) -> (r: &str)
        ensures
            r@ == self@.text,
    {
        self.value.as_str()
    }

    /// The caret as a byte offset into the text.
    pub fn cursor(&self) -> (r: usize)
        ensures
            r == encode_utf8(self@.before()).len(),
    {
        proof {
            use_type_invariant(self);
        }
        self.cursor
    }

    /// The text left and right of the caret.
    pub fn halves(&self) -> (r: (&str, &str))
        ensures
            r.0@ == self@.before(),
            r.1@ == self@.after(),
            self@.wf(),
    {
        proof {
            use_type_invariant(self);
            text::lemma_encode_split(self.value@, self.caret@ as int);
        }
        let (head, tail) = self.value.as_str().split_at(self.cursor);
        proof {
            text::lemma_encode_injective(head@, self@.before());
            text::lemma_encode_injective(tail@, self@.after());
        }
        (head, tail)
    }

    fn rebuilt(head: &str, tail: &str) -> (r: InputState)
        ensures
            r@ == (InputView { text: head@ + tail@, caret: head@.len() }),
    {
        let value = text::joined(head, tail);
        proof {
            assert(value@.take(head@.len() as int) =~= head@);
        }
        InputState { value, cursor: head.as_bytes().len(), caret: Ghost(head@.len()) }
    }

    /// Puts `ch` at the caret and moves behind it.
    pub fn insert(&mut self, ch: char)
        ensures
            final(self)@ == old(self)@.inserted(ch),
    {
        let next = {
            let (head, tail) = self.halves();
            let mut grown = head.to_string();
            grown.push(ch);
            InputState::rebuilt(grown.as_str(), tail)
        };
        *self = next;
    }

    /// Deletes the character left of the caret.
    pub fn backspace(&mut self)
        ensures
            final(self)@ == old(self)@.backspaced(),
    {
        let next = {
            let (head, tail) = self.halves();
            let n: usize = head.unicode_len();
            if n == 0 {
                return;
            }
            let kept = head.substring_char(0, n - 1);
            assert(kept@ =~= self@.before().drop_last());
            InputState::rebuilt(kept, tail)
        };
        *self = next;
    }

    /// Deletes the character right of the caret.
    pub fn delete(&mut self)
        ensures
            final(self)@ == old(self)@.deleted(),
    {
        let next = {
            let (head, tail) = self.halves();
            let n: usize = tail.unicode_len();
            if n == 0 {
                return;
            }
            let kept = tail.substring_char(1, n);
            assert(kept@ =~= self@.after().drop_first());
            InputState::rebuilt(head, kept)
        };
        *self = next;
    }

    /// Moves the caret one character to the left.
    pub fn left(&mut self)
        ensures
            final(self)@ == old(self)@.moved_left(),
    {
        let next = {
            let (head, tail) = self.halves();
            let n: usize = head.unicode_len();
            if n == 0 {
                return;
            }
            let kept = head.substring_char(0, n - 1);
            let passed = text::joined(head.substring_char(n - 1, n), tail);
            assert(kept@ + passed@ =~= self@.text);
            InputState::rebuilt(kept, passed.as_str())
        };
        *self = next;
    }

    /// Moves the caret one character to the right.
    pub fn right(&mut self)
        ensures
            final(self)@ == old(self)@.moved_right(),
    {
        let next = {
            let (head, tail) = self.halves();
            let n: usize = tail.unicode_len();
            if n == 0 {
                return;
            }
            let passed = text::joined(head, tail.substring_char(0, 1));
            let kept = tail.substring_char(1, n);
            assert(passed@ + kept@ =~= self@.text);
            InputState::rebuilt(passed.as_str(), kept)
        };
        *self = next;
    }

    /// Deletes the word left of the caret, with the spaces between it and the caret.
    pub fn delete_word(&mut self)
        ensures
            final(self)@ == old(self)@.word_deleted(),
    {
        let next = {
            let (head, tail) = self.halves();
            let n: usize = head.unicode_len();
            let mut end: usize = n;
            while end > 0 && head.get_char(end - 1) == ' '
                invariant
                    end <= n,
                    n == head@.len(),
                    forall|i: int| end <= i < n ==> head@[i] == ' ',
                decreases end,
            {
                end = end - 1;
            }
            let mut start: usize = end;
            while start > 0 && head.get_char(start - 1) != ' '
                invariant
                    start <= end <= n,
                    n == head@.len(),
                    forall|i: int| start <= i < end ==> head@[i] != ' ',
                decreases start,
            {
                start = start - 1;
            }
            proof {
                lemma_strip_at(head@, end as int);
                lemma_after_last_space_at(head@.take(end as int), start as int);
            }
            let kept = head.substring_char(0, start);
            assert(kept@ =~= self@.text.take(start as int));
            InputState::rebuilt(kept, tail)
        };
        *self = next;
    }

    /// Moves the caret in front of the text.
    pub fn home(&mut self)
        ensures
            final(self)@ == old(self)@.homed(),
    {
        let next = {
            let all = self.value.as_str();
            let none = String::new();
            assert(none@ + all@ =~= all@);
            InputState::rebuilt(none.as_str(), all)
        };
        *self = next;
    }

    /// Moves the caret behind the text.
    pub fn end(&mut self)
        ensures
            final(self)@ == old(self)@.ended(),
    {
        let next = InputState::new(self.value.as_str());
        *self = next;
    }

    /// The text without leading and trailing white space.
    pub fn trimmed(&self) -> (r: &str)
        ensures
            r@ == self@.trimmed(),
    {
        text::trim_text(self.value.as_str())
    }

    /// The trimmed text, when there is any.
    pub fn trimmed_some(&self) -> (r: Option<String>)
        ensures
            text::opt_view(r) == self@.trimmed_some(),
    {
        let t = self.trimmed();
        if t.unicode_len() == 0 {
            None
        } else {
            Some(t.to_string())
        }
    }
}

/// Every edit keeps the caret within the text.
pub proof fn edits_keep_caret_in_text(f: InputView, ch: char)
    requires
        f.wf(),
    ensures
        f.inserted(ch).wf(),
        f.backspaced().wf(),
        f.deleted().wf(),
        f.moved_left().wf(),
        f.moved_right().wf(),
        f.word_deleted().wf(),
        f.homed().wf(),
        f.ended().wf(),
{
    lemma_word_start_bound(f.before());
}

/// Backspace undoes an insertion.
pub proof fn backspace_undoes_insert(f: InputView, ch: char)
    requires
        f.wf(),
    ensures
        f.inserted(ch).backspaced() == f,
{
    let g = f.inserted(ch);
    assert(g.before() =~= f.before().push(ch));
    assert(g.after() =~= f.after());
    assert(g.before().drop_last() =~= f.before());
    assert(f.before() + f.after() =~= f.text);
}

/// Stepping left and then right, or right and then left, comes back to the same place,
/// away from the ends of the text.
pub proof fn left_and_right_are_inverse(f: InputView)
    requires
        f.wf(),
    ensures
        f.caret > 0 ==> f.moved_left().moved_right() == f,
        f.caret < f.text.len() ==> f.moved_right().moved_left() == f,
{
}

/// Deleting forward removes what stepping right and pressing backspace would.
pub proof fn delete_is_right_then_backspace(f: InputView)
    requires
        f.wf(),
        f.caret < f.text.len(),
    ensures
        f.deleted() == f.moved_right().backspaced(),
{
    let g = f.moved_right();
    assert(g.before().drop_last() =~= f.before());
    assert(g.after() =~= f.after().drop_first());
}

/// Deleting a word leaves everything right of the caret in place, and removes
/// something whenever there is anything left of it.
pub proof fn delete_word_keeps_the_rest(f: InputView)
    requires
        f.wf(),
    ensures
        f.word_deleted().after() == f.after(),
        f.caret > 0 ==> f.word_deleted().text.len() < f.text.len(),
{
    lemma_word_start_bound(f.before());
    assert(f.word_deleted().after() =~= f.after());
    if f.caret > 0 {
        let s = f.before();
        lemma_strip_bound(s);
        if s.last() != ' ' {
            lemma_after_last_space_bound(s.drop_last());
        } else {
            lemma_strip_bound(s.drop_last());
            lemma_after_last_space_bound(strip_spaces_end(s));
        }
    }
}

} // verus!
