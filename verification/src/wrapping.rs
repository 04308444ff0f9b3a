//! Breaking prose into lines: words, hard splits, and the two wrapping rules.

use vstd::prelude::*;

use crate::text;

verus! {

broadcast use text::lemma_views_push;

/// Number of characters before the first white space.
pub open spec fn run_len(s: Seq<char>) -> nat
    decreases s.len(),
{
    if s.len() == 0 || text::is_space(s[0]) {
        0
    } else {
        1 + run_len(s.drop_first())
    }
}

/// The words of a text: its maximal runs without white space.
pub open spec fn words(s: Seq<char>) -> Seq<Seq<char>>
    decreases s.len(),
    via words_decreases
{
    let t = text::trim_start(s);
    if t.len() == 0 {
        Seq::empty()
    } else {
        seq![t.take(run_len(t) as int)] + words(t.skip(run_len(t) as int))
    }
}

#[via_fn]
proof fn words_decreases(s: Seq<char>) {
    lemma_trim_start_tail(s);
    lemma_run_len(text::trim_start(s));
}

proof fn lemma_trim_start_tail(s: Seq<char>)
    ensures
        text::trim_start(s).len() <= s.len(),
        text::trim_start(s).len() > 0 ==> !text::is_space(text::trim_start(s)[0]),
    decreases s.len(),
{
    if s.len() > 0 && text::is_space(s[0]) {
        lemma_trim_start_tail(s.drop_first());
    }
}

proof fn lemma_run_len(s: Seq<char>)
    ensures
        run_len(s) <= s.len(),
        s.len() > 0 && !text::is_space(s[0]) ==> run_len(s) > 0,
        forall|i: int| 0 <= i < run_len(s) ==> !text::is_space(#[trigger] s[i]),
    decreases s.len(),
{
    if s.len() > 0 && !text::is_space(s[0]) {
        lemma_run_len(s.drop_first());
        assert forall|i: int| 0 <= i < run_len(s) implies !text::is_space(#[trigger] s[i]) by {
            if i > 0 {
                assert(s[i] == s.drop_first()[i - 1]);
            }
        }
    }
}

proof fn lemma_run_len_at(s: Seq<char>, k: int)
    requires
        0 <= k <= s.len(),
        forall|i: int| 0 <= i < k ==> !text::is_space(#[trigger] s[i]),
        k < s.len() ==> text::is_space(s[k]),
    ensures
        run_len(s) == k,
    decreases k,
{
    if k > 0 {
        assert forall|i: int| 0 <= i < k - 1 implies !text::is_space(
            #[trigger] s.drop_first()[i],
        ) by {
            assert(s.drop_first()[i] == s[i + 1]);
        }
        lemma_run_len_at(s.drop_first(), k - 1);
    }
}

proof fn lemma_words_skip_space(s: Seq<char>)
    requires
        s.len() > 0,
        text::is_space(s[0]),
    ensures
        words(s) == words(s.drop_first()),
{
    assert(text::trim_start(s) == text::trim_start(s.drop_first()));
}

/// The words of a text.
pub fn split_words(s: &str) -> (r: Vec<String>)
    ensures
        text::views(r@) == words(s@),
{
    let n: usize = s.unicode_len();
    let mut out: Vec<String> = Vec::new();
    let mut i: usize = 0;
    assert(text::views(out@) + words(s@.skip(0)) =~= words(s@)) by {
        assert(s@.skip(0) =~= s@);
    }
    while i < n
        invariant
            i <= n,
            n == s@.len(),
            text::views(out@) + words(s@.skip(i as int)) == words(s@),
        decreases n - i,
    {
        if text::space(s.get_char(i)) {
            proof {
                lemma_words_skip_space(s@.skip(i as int));
                assert(s@.skip(i as int).drop_first() =~= s@.skip(i + 1));
            }
            i = i + 1;
        } else {
            let start: usize = i;
            let ghost rest = s@.skip(start as int);
            while i < n && !text::space(s.get_char(i))
                invariant
                    start <= i <= n,
                    n == s@.len(),
                    rest == s@.skip(start as int),
                    forall|j: int| 0 <= j < i - start ==> !text::is_space(#[trigger] rest[j]),
                    !text::is_space(s@[start as int]) && i == start ==> i < n,
                decreases n - i,
            {
                assert(rest[i - start] == s@[i as int]);
                i = i + 1;
            }
            let w = s.substring_char(start, i).to_string();
            let ghost before = text::views(out@);
            proof {
                if i < n {
                    assert(rest[i - start] == s@[i as int]);
                }
                lemma_run_len_at(rest, i - start);
                assert(rest[0] == s@[start as int]);
                lemma_run_len(rest);
                assert(text::trim_start(rest) == rest);
                assert(rest.take(i - start) =~= s@.subrange(start as int, i as int));
                assert(rest.skip(i - start) =~= s@.skip(i as int));
            }
            out.push(w);
            assert(text::views(out@) + words(s@.skip(i as int)) =~= before + (seq![
                s@.subrange(start as int, i as int),
            ] + words(s@.skip(i as int))));
        }
    }
    proof {
        assert(s@.skip(n as int).len() == 0);
        assert(words(s@.skip(n as int)) =~= Seq::empty());
        assert(text::views(out@) =~= words(s@));
    }
    out
}

/// A word cut into pieces of `width` characters, the last one holding what is left.
pub open spec fn hard_split(word: Seq<char>, width: nat) -> Seq<Seq<char>>
    decreases word.len(),
{
    if width == 0 || word.len() <= width {
        seq![word]
    } else {
        seq![word.take(width as int)] + hard_split(word.skip(width as int), width)
    }
}

/// A word cut into pieces of `width` characters.
pub fn split_word(word: &str, width: usize) -> (r: Vec<String>)
    requires
        width > 0,
    ensures
        text::views(r@) == hard_split(word@, width as nat),
        r@.len() > 0,
{
    let n: usize = word.unicode_len();
    let mut out: Vec<String> = Vec::new();
    let mut at: usize = 0;
    assert(text::views(out@) + hard_split(word@.skip(0), width as nat) =~= hard_split(
        word@,
        width as nat,
    )) by {
        assert(word@.skip(0) =~= word@);
    }
    while n - at > width
        invariant
            at <= n,
            n == word@.len(),
            width > 0,
            text::views(out@) + hard_split(word@.skip(at as int), width as nat) == hard_split(
                word@,
                width as nat,
            ),
        decreases n - at,
    {
        let w = word.substring_char(at, at + width).to_string();
        let ghost before = text::views(out@);
        proof {
            let rest = word@.skip(at as int);
            assert(rest.take(width as int) =~= word@.subrange(at as int, at + width));
            assert(rest.skip(width as int) =~= word@.skip(at + width));
        }
        out.push(w);
        assert(text::views(out@) + hard_split(word@.skip(at + width), width as nat) =~= before + (
        seq![word@.subrange(at as int, at + width)] + hard_split(
            word@.skip(at + width),
            width as nat,
        )));
        at = at + width;
    }
    let w = word.substring_char(at, n).to_string();
    proof {
        assert(word@.skip(at as int) =~= word@.subrange(at as int, n as int));
    }
    out.push(w);
    assert(text::views(out@) =~= hard_split(word@, width as nat));
    out
}

/// Lines already closed, and the one being filled.
pub struct Wrapping {
    pub done: Seq<Seq<char>>,
    pub line: Seq<char>,
}

impl Wrapping {
    pub open spec fn empty() -> Wrapping {
        Wrapping { done: Seq::empty(), line: Seq::empty() }
    }

    /// The open line closed, unless it is empty.
    pub open spec fn flushed(self) -> Seq<Seq<char>> {
        if self.line.len() == 0 {
            self.done
        } else {
            self.done.push(self.line)
        }
    }

    /// All lines; at least one.
    pub open spec fn lines(self) -> Seq<Seq<char>> {
        let all = self.flushed();
        if all.len() == 0 {
            seq![Seq::empty()]
        } else {
            all
        }
    }

    /// A word too long for a line, cut up: the open line closes, the last piece stays open.
    pub open spec fn cut(self, word: Seq<char>, width: nat) -> Wrapping {
        let pieces = hard_split(word, width);
        Wrapping { done: self.flushed() + pieces.drop_last(), line: pieces.last() }
    }

    /// A word on the open line, after a blank where it does not come first.
    pub open spec fn joined(self, word: Seq<char>) -> Wrapping {
        if self.line.len() == 0 {
            Wrapping { line: word, ..self }
        } else {
            Wrapping { line: self.line + seq![' '] + word, ..self }
        }
    }

    /// Whether the word fits on the open line.
    pub open spec fn fits(self, word: Seq<char>, width: nat) -> bool {
        if self.line.len() == 0 {
            word.len() <= width
        } else {
            self.line.len() + 1 + word.len() <= width
        }
    }

    /// One more word.
    pub open spec fn step(self, word: Seq<char>, width: nat) -> Wrapping {
        if word.len() > width {
            self.cut(word, width)
        } else if self.fits(word, width) {
            self.joined(word)
        } else {
            Wrapping { done: self.flushed(), line: word }
        }
    }

    /// One more word, closing a line as soon as a cut piece fills it.
    pub open spec fn eager_step(self, word: Seq<char>, width: nat) -> Wrapping {
        let next = self.step(word, width);
        if word.len() > width && next.line.len() == width {
            Wrapping { done: next.done.push(next.line), line: Seq::empty() }
        } else {
            next
        }
    }
}

/// The words placed one after the other.
pub open spec fn placed(ws: Seq<Seq<char>>, width: nat, eager: bool) -> Wrapping
    decreases ws.len(),
{
    if ws.len() == 0 {
        Wrapping::empty()
    } else {
        let before = placed(ws.drop_last(), width, eager);
        if eager {
            before.eager_step(ws.last(), width)
        } else {
            before.step(ws.last(), width)
        }
    }
}

/// A text wrapped greedily to `width` characters; a longer word is cut. Width zero wraps nothing.
pub open spec fn wrapped(s: Seq<char>, width: nat) -> Seq<Seq<char>> {
    if width == 0 {
        seq![s]
    } else {
        placed(words(s), width, false).lines()
    }
}

/// As `wrapped`, but a cut piece that fills a line closes it.
pub open spec fn eagerly_wrapped(s: Seq<char>, width: nat) -> Seq<Seq<char>> {
    if width == 0 {
        seq![s]
    } else {
        placed(words(s), width, true).lines()
    }
}

fn copy_all_but_last(pieces: &Vec<String>, lines: &mut Vec<String>)
    requires
        pieces@.len() > 0,
    ensures
        text::views(final(lines)@) == text::views(old(lines)@) + text::views(
            pieces@,
        ).drop_last(),
{
    let ghost start = text::views(lines@);
    let mut i: usize = 0;
    assert(start + text::views(pieces@).take(0) =~= start);
    while i < pieces.len() - 1
        invariant
            i < pieces@.len(),
            text::views(lines@) == start + text::views(pieces@).take(i as int),
        decreases pieces@.len() - i,
    {
        let piece = pieces[i].clone();
        assert(text::views(pieces@)[i as int] == piece@);
        lines.push(piece);
        i = i + 1;
        assert(text::views(lines@) =~= start + text::views(pieces@).take(i as int));
    }
    assert(text::views(pieces@).take(i as int) =~= text::views(pieces@).drop_last());
}

fn place_words(s: &str, width: usize, eager: bool) -> (r: Vec<String>)
    requires
        width > 0,
    ensures
        text::views(r@) == placed(words(s@), width as nat, eager).lines(),
{
    let ws = split_words(s);
    let ghost all = words(s@);
    let mut lines: Vec<String> = Vec::new();
    let mut open = String::new();
    let mut i: usize = 0;
    proof {
        assert(all.take(0) =~= Seq::empty());
        assert(text::views(lines@) =~= Seq::empty());
        assert(open@ =~= Seq::empty());
    }
    while i < ws.len()
        invariant
            i <= ws@.len(),
            width > 0,
            all == text::views(ws@),
            placed(all.take(i as int), width as nat, eager) == (Wrapping {
                done: text::views(lines@),
                line: open@,
            }),
        decreases ws@.len() - i,
    {
        let ghost before = Wrapping { done: text::views(lines@), line: open@ };
        let word = ws[i].as_str();
        let len: usize = word.unicode_len();
        let open_len: usize = open.as_str().unicode_len();
        proof {
            assert(all.take(i + 1).drop_last() =~= all.take(i as int));
            assert(all.take(i + 1).last() == word@);
        }
        if len > width {
            if open_len > 0 {
                lines.push(open);
            }
            assert(text::views(lines@) == before.flushed());
            let pieces = split_word(word, width);
            copy_all_but_last(&pieces, &mut lines);
            open = pieces[pieces.len() - 1].clone();
            let ghost cut = before.cut(word@, width as nat);
            assert(cut == (Wrapping { done: text::views(lines@), line: open@ }));
            if eager && open.as_str().unicode_len() == width {
                lines.push(open);
                open = String::new();
                assert(open@ =~= Seq::empty());
            }
        } else {
            let fits: bool = if open_len == 0 {
                true
            } else {
                open_len < width && len <= width - open_len - 1
            };
            if fits {
                if open_len > 0 {
                    open = text::joined3(&open, " ", word);
                    proof {
                        reveal_strlit(" ");
                        assert(" "@ =~= seq![' ']);
                    }
                } else {
                    open = word.to_string();
                }
            } else {
                lines.push(open);
                open = word.to_string();
            }
            assert(before.step(word@, width as nat) == (Wrapping {
                done: text::views(lines@),
                line: open@,
            }));
        }
        i = i + 1;
    }
    assert(all.take(i as int) =~= all);
    if open.as_str().unicode_len() > 0 {
        lines.push(open);
    }
    if lines.len() == 0 {
        let e = String::new();
        assert(e@ =~= Seq::empty());
        lines.push(e);
        assert(text::views(lines@) =~= seq![Seq::empty()]);
    }
    lines
}

/// A text wrapped greedily to `width` characters; a longer word is cut. There is always a line.
pub fn wrap_words(text: &str, width: usize) -> (r: Vec<String>)
    ensures
        text::views(r@) == wrapped(text@, width as nat),
{
    if width == 0 {
        let mut out: Vec<String> = Vec::new();
        out.push(text.to_string());
        assert(text::views(out@) =~= seq![text@]);
        return out;
    }
    place_words(text, width, false)
}

/// A text wrapped to `max_width` characters; a cut piece that fills a line closes it. There is
/// always a line.
pub fn word_wrap(text: &str, max_width: usize) -> (r: Vec<String>)
    ensures
        text::views(r@) == eagerly_wrapped(text@, max_width as nat),
{
    if max_width == 0 {
        let mut out: Vec<String> = Vec::new();
        out.push(text.to_string());
        assert(text::views(out@) =~= seq![text@]);
        return out;
    }
    place_words(text, max_width, true)
}

proof fn lemma_eager_or_not(ws: Seq<Seq<char>>, width: nat)
    requires
        width > 0,
    ensures
        ({
            let lazy = placed(ws, width, false);
            let eager = placed(ws, width, true);
            eager == lazy || (lazy.line.len() == width && eager.line.len() == 0 && eager.done
                == lazy.done.push(lazy.line))
        }),
    decreases ws.len(),
{
    if ws.len() > 0 {
        lemma_eager_or_not(ws.drop_last(), width);
        let lazy = placed(ws.drop_last(), width, false);
        let eager = placed(ws.drop_last(), width, true);
        let word = ws.last();
        assert(lazy.flushed() == eager.flushed());
        assert(lazy.step(word, width) == eager.step(word, width));
        let next = lazy.step(word, width);
        if word.len() > width && next.line.len() == width {
            assert(eager.eager_step(word, width).done == next.done.push(next.line));
        }
    }
}

/// Closing a full line at once or with the next word makes no difference: both ways of wrapping
/// give the same lines.
pub proof fn wrappings_agree(s: Seq<char>, width: nat)
    ensures
        eagerly_wrapped(s, width) == wrapped(s, width),
{
    if width > 0 {
        lemma_eager_or_not(words(s), width);
    }
}

/// The characters of a text that are not white space, in order.
pub open spec fn visible(s: Seq<char>) -> Seq<char>
    decreases s.len(),
{
    if s.len() == 0 {
        Seq::empty()
    } else if text::is_space(s.last()) {
        visible(s.drop_last())
    } else {
        visible(s.drop_last()).push(s.last())
    }
}

/// The visible characters of several texts, one after the other.
pub open spec fn all_visible(v: Seq<Seq<char>>) -> Seq<char>
    decreases v.len(),
{
    if v.len() == 0 {
        Seq::empty()
    } else {
        all_visible(v.drop_last()) + visible(v.last())
    }
}

proof fn lemma_visible_concat(a: Seq<char>, b: Seq<char>)
    ensures
        visible(a + b) == visible(a) + visible(b),
    decreases b.len(),
{
    if b.len() == 0 {
        assert(a + b =~= a);
        assert(visible(a) + visible(b) =~= visible(a));
    } else {
        lemma_visible_concat(a, b.drop_last());
        assert((a + b).drop_last() =~= a + b.drop_last());
        assert((a + b).last() == b.last());
        assert(visible(a + b) =~= visible(a) + visible(b));
    }
}

proof fn lemma_all_visible_concat(a: Seq<Seq<char>>, b: Seq<Seq<char>>)
    ensures
        all_visible(a + b) == all_visible(a) + all_visible(b),
    decreases b.len(),
{
    if b.len() == 0 {
        assert(a + b =~= a);
        assert(all_visible(a) + all_visible(b) =~= all_visible(a));
    } else {
        lemma_all_visible_concat(a, b.drop_last());
        assert((a + b).drop_last() =~= a + b.drop_last());
        assert((a + b).last() == b.last());
        assert(all_visible(a + b) =~= all_visible(a) + all_visible(b));
    }
}

proof fn lemma_all_visible_one(x: Seq<char>)
    ensures
        all_visible(seq![x]) == visible(x),
{
    assert(seq![x].drop_last() =~= Seq::empty());
    assert(all_visible(seq![x].drop_last()) =~= Seq::empty());
    assert(all_visible(seq![x]) =~= visible(x));
}

proof fn lemma_trim_start_visible(s: Seq<char>)
    ensures
        visible(text::trim_start(s)) == visible(s),
    decreases s.len(),
{
    if s.len() > 0 && text::is_space(s[0]) {
        lemma_trim_start_visible(s.drop_first());
        let head = seq![s[0]];
        lemma_visible_concat(head, s.drop_first());
        assert(head + s.drop_first() =~= s);
        assert(head.drop_last() =~= Seq::empty());
        assert(visible(head.drop_last()) =~= Seq::empty());
        assert(visible(head) =~= Seq::empty());
        assert(visible(s) =~= visible(s.drop_first()));
    }
}

proof fn lemma_words_visible(s: Seq<char>)
    ensures
        all_visible(words(s)) == visible(s),
    decreases s.len(),
{
    let t = text::trim_start(s);
    lemma_trim_start_visible(s);
    lemma_trim_start_tail(s);
    if t.len() == 0 {
        assert(visible(t) =~= Seq::empty());
    } else {
        let k = run_len(t) as int;
        lemma_run_len(t);
        lemma_words_visible(t.skip(k));
        lemma_all_visible_concat(seq![t.take(k)], words(t.skip(k)));
        lemma_all_visible_one(t.take(k));
        lemma_visible_concat(t.take(k), t.skip(k));
        assert(t.take(k) + t.skip(k) =~= t);
    }
}

proof fn lemma_hard_split(word: Seq<char>, width: nat)
    requires
        width > 0,
    ensures
        hard_split(word, width).len() > 0,
        all_visible(hard_split(word, width)) == visible(word),
        forall|i: int|
            0 <= i < hard_split(word, width).len() ==> (#[trigger] hard_split(
                word,
                width,
            )[i]).len() <= width,
    decreases word.len(),
{
    if word.len() <= width {
        lemma_all_visible_one(word);
    } else {
        let head = word.take(width as int);
        let rest = hard_split(word.skip(width as int), width);
        lemma_hard_split(word.skip(width as int), width);
        lemma_all_visible_concat(seq![head], rest);
        lemma_all_visible_one(head);
        lemma_visible_concat(head, word.skip(width as int));
        assert(head + word.skip(width as int) =~= word);
        assert forall|i: int| 0 <= i < hard_split(word, width).len() implies (#[trigger] hard_split(
            word,
            width,
        )[i]).len() <= width by {
            if i > 0 {
                assert(hard_split(word, width)[i] == rest[i - 1]);
            }
        }
    }
}

impl Wrapping {
    /// What has been placed so far.
    spec fn content(self) -> Seq<char> {
        all_visible(self.done) + visible(self.line)
    }

    /// Every line, closed or open, is within the width.
    spec fn narrow(self, width: nat) -> bool {
        &&& self.line.len() <= width
        &&& forall|i: int| 0 <= i < self.done.len() ==> (#[trigger] self.done[i]).len() <= width
    }
}

proof fn lemma_flushed(p: Wrapping, width: nat)
    requires
        p.narrow(width),
    ensures
        all_visible(p.flushed()) == p.content(),
        forall|i: int|
            0 <= i < p.flushed().len() ==> (#[trigger] p.flushed()[i]).len() <= width,
{
    if p.line.len() == 0 {
        assert(visible(p.line) =~= Seq::empty());
        assert(p.content() =~= all_visible(p.done));
    } else {
        assert(p.flushed().drop_last() =~= p.done);
    }
}

proof fn lemma_step(p: Wrapping, word: Seq<char>, width: nat)
    requires
        width > 0,
        p.narrow(width),
    ensures
        p.step(word, width).narrow(width),
        p.step(word, width).content() == p.content() + visible(word),
{
    let next = p.step(word, width);
    lemma_flushed(p, width);
    if word.len() > width {
        let pieces = hard_split(word, width);
        lemma_hard_split(word, width);
        lemma_all_visible_concat(p.flushed(), pieces.drop_last());
        assert(all_visible(pieces) == all_visible(pieces.drop_last()) + visible(pieces.last()));
        assert(next.content() =~= p.content() + visible(word));
        assert forall|i: int| 0 <= i < next.done.len() implies (#[trigger] next.done[i]).len()
            <= width by {
            if i >= p.flushed().len() {
                assert(next.done[i] == pieces[i - p.flushed().len()]);
            } else {
                assert(next.done[i] == p.flushed()[i]);
            }
        }
    } else if p.fits(word, width) {
        if p.line.len() == 0 {
            assert(visible(p.line) =~= Seq::empty());
            assert(next.content() =~= p.content() + visible(word));
        } else {
            let gap = seq![' '];
            lemma_visible_concat(p.line + gap, word);
            lemma_visible_concat(p.line, gap);
            assert(gap.drop_last() =~= Seq::empty());
            assert(visible(gap.drop_last()) =~= Seq::empty());
            assert(visible(gap) =~= Seq::empty());
            assert(next.content() =~= p.content() + visible(word));
        }
    } else {
        assert(next.content() =~= p.content() + visible(word));
    }
}

proof fn lemma_placed(ws: Seq<Seq<char>>, width: nat, eager: bool)
    requires
        width > 0,
    ensures
        placed(ws, width, eager).narrow(width),
        placed(ws, width, eager).content() == all_visible(ws),
    decreases ws.len(),
{
    if ws.len() == 0 {
        assert(placed(ws, width, eager).content() =~= Seq::empty());
    } else {
        let before = placed(ws.drop_last(), width, eager);
        let word = ws.last();
        lemma_placed(ws.drop_last(), width, eager);
        lemma_step(before, word, width);
        if eager {
            let next = before.step(word, width);
            let after = before.eager_step(word, width);
            if word.len() > width && next.line.len() == width {
                lemma_flushed(next, width);
                assert(after.done =~= next.flushed());
                assert(visible(after.line) =~= Seq::empty());
                assert(after.content() =~= next.content());
            }
        }
    }
}

proof fn lemma_lines(p: Wrapping, width: nat)
    requires
        p.narrow(width),
    ensures
        p.lines().len() > 0,
        all_visible(p.lines()) == p.content(),
        forall|i: int| 0 <= i < p.lines().len() ==> (#[trigger] p.lines()[i]).len() <= width,
{
    lemma_flushed(p, width);
    if p.flushed().len() == 0 {
        lemma_all_visible_one(Seq::empty());
        assert(all_visible(p.flushed()) =~= Seq::empty());
        assert(visible(Seq::empty()) =~= Seq::empty());
    }
}

/// Wrapping to a width leaves at least one line, and none of them is wider.
pub proof fn wrapped_lines_fit(s: Seq<char>, width: nat)
    requires
        width > 0,
    ensures
        wrapped(s, width).len() > 0,
        forall|i: int|
            0 <= i < wrapped(s, width).len() ==> (#[trigger] wrapped(s, width)[i]).len() <= width,
        eagerly_wrapped(s, width).len() > 0,
        forall|i: int|
            0 <= i < eagerly_wrapped(s, width).len() ==> (#[trigger] eagerly_wrapped(
                s,
                width,
            )[i]).len() <= width,
{
    lemma_placed(words(s), width, false);
    lemma_lines(placed(words(s), width, false), width);
    lemma_placed(words(s), width, true);
    lemma_lines(placed(words(s), width, true), width);
}

/// Wrapping drops and adds white space only: every visible character of the text stands in the
/// lines, in the same order.
pub proof fn wrapping_keeps_the_text(s: Seq<char>, width: nat)
    ensures
        all_visible(wrapped(s, width)) == visible(s),
        all_visible(eagerly_wrapped(s, width)) == visible(s),
{
    if width == 0 {
        lemma_all_visible_one(s);
    } else {
        lemma_words_visible(s);
        lemma_placed(words(s), width, false);
        lemma_lines(placed(words(s), width, false), width);
        lemma_placed(words(s), width, true);
        lemma_lines(placed(words(s), width, true), width);
    }
}

} // verus!
