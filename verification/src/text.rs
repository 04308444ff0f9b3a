//! Character-level text helpers: numbers, padding, trimming, clipping.
//!
//! A string is modelled by its sequence of characters; widths count characters.

use vstd::prelude::*;
use vstd::utf8::*;

verus! {

/// `String::push`: the text grows by exactly the given character.
pub assume_specification[ String::push ](s: &mut String, ch: char)
    ensures
        final(s)@ == old(s)@.push(ch),
;

/// `n` copies of `c`.
pub open spec fn fill(c: char, n: nat) -> Seq<char> {
    Seq::new(n, |i: int| c)
}

/// The smaller of two integers.
pub open spec fn min_int(a: int, b: int) -> int {
    if a <= b {
        a
    } else {
        b
    }
}

/// The larger of two integers.
pub open spec fn max_int(a: int, b: int) -> int {
    if a >= b {
        a
    } else {
        b
    }
}

/// `a - b`, floored at zero.
pub open spec fn monus(a: int, b: int) -> int {
    if a >= b {
        a - b
    } else {
        0
    }
}

/// The character of a single decimal digit.
pub open spec fn digit_char(d: nat) -> char {
    if d == 0 {
        '0'
    } else if d == 1 {
        '1'
    } else if d == 2 {
        '2'
    } else if d == 3 {
        '3'
    } else if d == 4 {
        '4'
    } else if d == 5 {
        '5'
    } else if d == 6 {
        '6'
    } else if d == 7 {
        '7'
    } else if d == 8 {
        '8'
    } else {
        '9'
    }
}

/// Decimal notation of `n`, without leading zeros.
pub open spec fn decimal(n: nat) -> Seq<char>
    decreases n,
{
    if n < 10 {
        seq![digit_char(n)]
    } else {
        decimal(n / 10).push(digit_char(n % 10))
    }
}

/// Two-digit decimal notation of `n`, zero-padded (`n < 100`).
pub open spec fn decimal2(n: nat) -> Seq<char> {
    seq![digit_char(n / 10), digit_char(n % 10)]
}

/// White space: the characters with the Unicode `White_Space` property.
pub open spec fn is_space(c: char) -> bool {
    ||| '\u{9}' <= c <= '\u{d}'
    ||| c == ' '
    ||| c == '\u{85}'
    ||| c == '\u{a0}'
    ||| c == '\u{1680}'
    ||| '\u{2000}' <= c <= '\u{200a}'
    ||| c == '\u{2028}'
    ||| c == '\u{2029}'
    ||| c == '\u{202f}'
    ||| c == '\u{205f}'
    ||| c == '\u{3000}'
}

/// `s` without its leading white space.
pub open spec fn trim_start(s: Seq<char>) -> Seq<char>
    decreases s.len(),
{
    if s.len() > 0 && is_space(s[0]) {
        trim_start(s.drop_first())
    } else {
        s
    }
}

/// `s` without its trailing white space.
pub open spec fn trim_end(s: Seq<char>) -> Seq<char>
    decreases s.len(),
{
    if s.len() > 0 && is_space(s.last()) {
        trim_end(s.drop_last())
    } else {
        s
    }
}

/// `s` without leading and trailing white space.
pub open spec fn trim(s: Seq<char>) -> Seq<char> {
    trim_end(trim_start(s))
}

/// `s` clipped to `max` characters, the last kept cell showing `…` when text was cut.
pub open spec fn clipped(s: Seq<char>, max: nat) -> Seq<char> {
    if s.len() <= max {
        s
    } else if max == 0 {
        Seq::empty()
    } else {
        s.take(max - 1).push('…')
    }
}

/// The lower-case form of an ASCII letter; any other character as it is.
pub open spec fn ascii_lower(c: char) -> char {
    if 'A' <= c <= 'Z' {
        ((c as u32) + 32) as char
    } else {
        c
    }
}

/// Whether `c` is an ASCII letter.
pub open spec fn is_ascii_letter(c: char) -> bool {
    ('a' <= c <= 'z') || ('A' <= c <= 'Z')
}

/// Equal up to the case of ASCII letters.
pub open spec fn same_ignoring_case(a: Seq<char>, b: Seq<char>) -> bool {
    &&& a.len() == b.len()
    &&& forall|i: int| 0 <= i < a.len() ==> ascii_lower(#[trigger] a[i]) == ascii_lower(b[i])
}

/// The views of a list of strings.
pub open spec fn views(v: Seq<String>) -> Seq<Seq<char>> {
    v.map_values(|s: String| s@)
}

/// The view of an optional string.
pub open spec fn opt_view(s: Option<String>) -> Option<Seq<char>> {
    match s {
        Some(t) => Some(t@),
        None => None,
    }
}

/// Extending a list of strings extends its views.
pub broadcast proof fn lemma_views_push(v: Seq<String>, s: String)
    ensures
        #[trigger] views(v.push(s)) == views(v).push(s@),
{
    assert(views(v.push(s)) =~= views(v).push(s@));
}

/// The smaller of two sizes.
pub fn min_usize(a: usize, b: usize) -> (r: usize)
    ensures
        r == min_int(a as int, b as int),
{
    if a <= b {
        a
    } else {
        b
    }
}

/// The larger of two sizes.
pub fn max_usize(a: usize, b: usize) -> (r: usize)
    ensures
        r == max_int(a as int, b as int),
{
    if a >= b {
        a
    } else {
        b
    }
}

/// The smaller of two cell counts.
pub fn min_u16(a: u16, b: u16) -> (r: u16)
    ensures
        r == min_int(a as int, b as int),
{
    if a <= b {
        a
    } else {
        b
    }
}

/// The larger of two cell counts.
pub fn max_u16(a: u16, b: u16) -> (r: u16)
    ensures
        r == max_int(a as int, b as int),
{
    if a >= b {
        a
    } else {
        b
    }
}

/// A size as a cell count, saturating at the largest one.
pub fn cells(n: usize) -> (r: u16)
    ensures
        r == min_int(n as int, u16::MAX as int),
{
    if n <= 65535 {
        n as u16
    } else {
        65535
    }
}

/// Whether two texts hold the same characters.
pub fn same_text(a: &str, b: &str) -> (r: bool)
    ensures
        r == (a@ == b@),
{
    let x: String = a.to_string();
    let y: String = b.to_string();
    x == y
}

/// `n` copies of `c`.
pub fn fill_text(c: char, n: usize) -> (r: String)
    ensures
        r@ == fill(c, n as nat),
{
    let mut out = String::new();
    let mut i: usize = 0;
    while i < n
        invariant
            i <= n,
            out@ == fill(c, i as nat),
        decreases n - i,
    {
        out.push(c);
        i = i + 1;
        assert(out@ =~= fill(c, i as nat));
    }
    out
}

/// The first `n` characters of `s`, or all of it when it is shorter.
pub fn prefix_text(s: &str, n: usize) -> (r: String)
    ensures
        r@ == s@.take(min_int(n as int, s@.len() as int)),
{
    let len: usize = s.unicode_len();
    let k: usize = min_usize(n, len);
    let out = s.substring_char(0, k).to_string();
    assert(s@.subrange(0, k as int) =~= s@.take(k as int));
    out
}

/// The character of a single decimal digit.
pub fn digit_of(d: u64) -> (c: char)
    requires
        d < 10,
    ensures
        c == digit_char(d as nat),
{
    if d == 0 {
        '0'
    } else if d == 1 {
        '1'
    } else if d == 2 {
        '2'
    } else if d == 3 {
        '3'
    } else if d == 4 {
        '4'
    } else if d == 5 {
        '5'
    } else if d == 6 {
        '6'
    } else if d == 7 {
        '7'
    } else if d == 8 {
        '8'
    } else {
        '9'
    }
}

/// Decimal notation of `n`.
pub fn decimal_text(n: u64) -> (r: String)
    ensures
        r@ == decimal(n as nat),
    decreases n,
{
    if n < 10 {
        let mut out = String::new();
        out.push(digit_of(n));
        assert(out@ =~= seq![digit_char(n as nat)]);
        out
    } else {
        let mut out = decimal_text(n / 10);
        out.push(digit_of(n % 10));
        out
    }
}

/// Two-digit decimal notation of `n`, zero-padded.
pub fn decimal2_text(n: u64) -> (r: String)
    requires
        n < 100,
    ensures
        r@ == decimal2(n as nat),
{
    let mut out = String::new();
    out.push(digit_of(n / 10));
    out.push(digit_of(n % 10));
    assert(out@ =~= decimal2(n as nat));
    out
}

/// Whether `c` is white space.
pub fn space(c: char) -> (r: bool)
    ensures
        r == is_space(c),
{
    ('\u{9}' <= c && c <= '\u{d}') || c == ' ' || c == '\u{85}' || c == '\u{a0}' || c == '\u{1680}'
        || ('\u{2000}' <= c && c <= '\u{200a}') || c == '\u{2028}' || c == '\u{2029}' || c
        == '\u{202f}' || c == '\u{205f}' || c == '\u{3000}'
}

proof fn lemma_trim_start_at(s: Seq<char>, k: int)
    requires
        0 <= k <= s.len(),
        forall|i: int| 0 <= i < k ==> is_space(s[i]),
        k < s.len() ==> !is_space(s[k]),
    ensures
        trim_start(s) == s.skip(k),
    decreases k,
{
    if k == 0 {
        assert(s.skip(0) =~= s);
    } else {
        lemma_trim_start_at(s.drop_first(), k - 1);
        assert(s.drop_first().skip(k - 1) =~= s.skip(k));
    }
}

proof fn lemma_trim_end_at(s: Seq<char>, k: int)
    requires
        0 <= k <= s.len(),
        forall|i: int| k <= i < s.len() ==> is_space(s[i]),
        k > 0 ==> !is_space(s[k - 1]),
    ensures
        trim_end(s) == s.take(k),
    decreases s.len(),
{
    if k == s.len() {
        assert(s.take(k) =~= s);
    } else {
        lemma_trim_end_at(s.drop_last(), k);
        assert(s.drop_last().take(k) =~= s.take(k));
    }
}

/// `s` without leading and trailing white space.
pub fn trim_text<'a>(s: &'a str) -> (r: &'a str)
    ensures
        r@ == trim(s@),
{
    let n: usize = s.unicode_len();
    let mut from: usize = 0;
    while from < n && space(s.get_char(from))
        invariant
            from <= n,
            n == s@.len(),
            forall|i: int| 0 <= i < from ==> is_space(s@[i]),
        decreases n - from,
    {
        from = from + 1;
    }
    let mut to: usize = n;
    while to > from && space(s.get_char(to - 1))
        invariant
            from <= to <= n,
            n == s@.len(),
            forall|i: int| to <= i < n ==> is_space(s@[i]),
        decreases to,
    {
        to = to - 1;
    }
    proof {
        lemma_trim_start_at(s@, from as int);
        let rest = s@.skip(from as int);
        assert forall|i: int| to - from <= i < rest.len() implies is_space(rest[i]) by {
            assert(rest[i] == s@[i + from]);
        }
        lemma_trim_end_at(rest, to - from);
        assert(rest.take(to - from) =~= s@.subrange(from as int, to as int));
    }
    s.substring_char(from, to)
}

/// `s` without leading white space.
pub fn trim_start_text<'a>(s: &'a str) -> (r: &'a str)
    ensures
        r@ == trim_start(s@),
{
    let n: usize = s.unicode_len();
    let mut from: usize = 0;
    while from < n && space(s.get_char(from))
        invariant
            from <= n,
            n == s@.len(),
            forall|i: int| 0 <= i < from ==> is_space(s@[i]),
        decreases n - from,
    {
        from = from + 1;
    }
    proof {
        lemma_trim_start_at(s@, from as int);
        assert(s@.skip(from as int) =~= s@.subrange(from as int, n as int));
    }
    s.substring_char(from, n)
}

proof fn lemma_trim_start_shape(s: Seq<char>)
    ensures
        trim_start(s).len() <= s.len(),
        trim_start(s).len() > 0 ==> !is_space(trim_start(s)[0]),
    decreases s.len(),
{
    if s.len() > 0 && is_space(s[0]) {
        lemma_trim_start_shape(s.drop_first());
    }
}

proof fn lemma_trim_end_shape(s: Seq<char>)
    ensures
        trim_end(s).len() <= s.len(),
        trim_end(s) == s.take(trim_end(s).len() as int),
        trim_end(s).len() > 0 ==> !is_space(trim_end(s).last()),
    decreases s.len(),
{
    if s.len() > 0 && is_space(s.last()) {
        lemma_trim_end_shape(s.drop_last());
        assert(s.drop_last().take(trim_end(s).len() as int) =~= s.take(trim_end(s).len() as int));
    } else {
        assert(s.take(s.len() as int) =~= s);
    }
}

/// `s` clipped to `max` characters with a trailing `…`.
pub fn truncate(s: &str, max: usize) -> (r: String)
    ensures
        r@ == clipped(s@, max as nat),
        r@.len() <= max,
{
    let n: usize = s.unicode_len();
    if n <= max {
        s.to_string()
    } else if max == 0 {
        let out = String::new();
        assert(out@ =~= Seq::<char>::empty());
        out
    } else {
        let mut out = prefix_text(s, max - 1);
        out.push('…');
        out
    }
}

/// The lower-case form of an ASCII letter; any other character as it is.
pub fn lower(c: char) -> (r: char)
    ensures
        r == ascii_lower(c),
{
    if 'A' <= c && c <= 'Z' {
        let b: u8 = c as u8;
        (b + 32) as char
    } else {
        c
    }
}

/// Whether `c` is an ASCII letter.
pub fn ascii_letter(c: char) -> (r: bool)
    ensures
        r == is_ascii_letter(c),
{
    ('a' <= c && c <= 'z') || ('A' <= c && c <= 'Z')
}

/// Whether two texts are equal up to the case of ASCII letters.
pub fn eq_ignoring_case(a: &str, b: &str) -> (r: bool)
    ensures
        r == same_ignoring_case(a@, b@),
{
    let n: usize = a.unicode_len();
    if n != b.unicode_len() {
        return false;
    }
    let mut i: usize = 0;
    while i < n
        invariant
            i <= n,
            n == a@.len() == b@.len(),
            forall|j: int| 0 <= j < i ==> ascii_lower(#[trigger] a@[j]) == ascii_lower(b@[j]),
        decreases n - i,
    {
        if lower(a.get_char(i)) != lower(b.get_char(i)) {
            return false;
        }
        i = i + 1;
    }
    true
}

/// A copy of an optional text.
pub fn clone_opt(s: &Option<String>) -> (r: Option<String>)
    ensures
        r == *s,
{
    match s {
        Some(t) => Some(t.clone()),
        None => None,
    }
}

/// A copy of a list of texts.
pub fn clone_texts(v: &Vec<String>) -> (r: Vec<String>)
    ensures
        r@ == v@,
{
    let mut out: Vec<String> = Vec::new();
    let mut i: usize = 0;
    while i < v.len()
        invariant
            i <= v@.len(),
            out@ == v@.take(i as int),
        decreases v@.len() - i,
    {
        out.push(v[i].clone());
        i = i + 1;
        assert(out@ =~= v@.take(i as int));
    }
    assert(v@.take(v@.len() as int) =~= v@);
    out
}

/// The two texts, one after the other.
pub fn joined(a: &str, b: &str) -> (r: String)
    ensures
        r@ == a@ + b@,
{
    let mut out = a.to_string();
    out.append(b);
    out
}

/// The three texts, one after the other.
pub fn joined3(a: &str, b: &str, c: &str) -> (r: String)
    ensures
        r@ == a@ + b@ + c@,
{
    let mut out = a.to_string();
    out.append(b);
    out.append(c);
    out
}

/// Adds a line to a list of lines.
pub fn push_line(v: &mut Vec<String>, a: &str)
    ensures
        views(final(v)@) == views(old(v)@).push(a@),
{
    broadcast use lemma_views_push;

    v.push(a.to_string());
}

/// Adds a line made of two parts.
pub fn push_line2(v: &mut Vec<String>, a: &str, b: &str)
    ensures
        views(final(v)@) == views(old(v)@).push(a@ + b@),
{
    broadcast use lemma_views_push;

    v.push(joined(a, b));
}

/// Adds a line made of three parts.
pub fn push_line3(v: &mut Vec<String>, a: &str, b: &str, c: &str)
    ensures
        views(final(v)@) == views(old(v)@).push(a@ + b@ + c@),
{
    broadcast use lemma_views_push;

    v.push(joined3(a, b, c));
}

/// The texts in a row, `sep` between each two.
pub open spec fn join(v: Seq<Seq<char>>, sep: Seq<char>) -> Seq<char>
    decreases v.len(),
{
    if v.len() == 0 {
        Seq::empty()
    } else if v.len() == 1 {
        v[0]
    } else {
        join(v.drop_last(), sep) + sep + v.last()
    }
}

/// The texts in a row, `sep` between each two.
pub fn join_texts(v: &Vec<String>, sep: &str) -> (r: String)
    ensures
        r@ == join(views(v@), sep@),
{
    let mut out = String::new();
    let mut i: usize = 0;
    proof {
        assert(views(v@).take(0) =~= Seq::<Seq<char>>::empty());
        assert(out@ =~= Seq::<char>::empty());
    }
    while i < v.len()
        invariant
            i <= v@.len(),
            out@ == join(views(v@).take(i as int), sep@),
        decreases v@.len() - i,
    {
        proof {
            let t = views(v@).take(i + 1);
            assert(t.drop_last() =~= views(v@).take(i as int));
            assert(t.last() == v@[i as int]@);
            if i == 0 {
                assert(out@ + v@[0]@ =~= v@[0]@);
            }
        }
        if i > 0 {
            out.append(sep);
        }
        out.append(v[i].as_str());
        i = i + 1;
    }
    assert(views(v@).take(v@.len() as int) =~= views(v@));
    out
}

/// `s` up to the first `c`, or all of it when there is none.
pub open spec fn before_char(s: Seq<char>, c: char) -> Seq<char>
    decreases s.len(),
{
    if s.len() == 0 || s[0] == c {
        Seq::empty()
    } else {
        seq![s[0]] + before_char(s.drop_first(), c)
    }
}

proof fn lemma_before_char_at(s: Seq<char>, c: char, k: int)
    requires
        0 <= k <= s.len(),
        forall|i: int| 0 <= i < k ==> s[i] != c,
        k < s.len() ==> s[k] == c,
    ensures
        before_char(s, c) == s.take(k),
    decreases k,
{
    if k == 0 {
        assert(s.take(0) =~= Seq::<char>::empty());
    } else {
        lemma_before_char_at(s.drop_first(), c, k - 1);
        assert(seq![s[0]] + s.drop_first().take(k - 1) =~= s.take(k));
    }
}

/// `s` up to the first `c`, or all of it when there is none.
pub fn before_char_text(s: &str, c: char) -> (r: String)
    ensures
        r@ == before_char(s@, c),
{
    let n: usize = s.unicode_len();
    let mut k: usize = 0;
    while k < n && s.get_char(k) != c
        invariant
            k <= n,
            n == s@.len(),
            forall|i: int| 0 <= i < k ==> s@[i] != c,
        decreases n - k,
    {
        k = k + 1;
    }
    proof {
        lemma_before_char_at(s@, c, k as int);
    }
    prefix_text(s, k)
}

/// Index of the first text equal to `s`.
pub open spec fn position(v: Seq<Seq<char>>, s: Seq<char>) -> Option<int>
    decreases v.len(),
{
    if v.len() == 0 {
        None
    } else if v[0] == s {
        Some(0)
    } else {
        match position(v.drop_first(), s) {
            Some(i) => Some(i + 1),
            None => None,
        }
    }
}

/// What `position` finds is the first occurrence; it finds one whenever there is one.
pub proof fn lemma_position(v: Seq<Seq<char>>, s: Seq<char>)
    ensures
        match position(v, s) {
            Some(i) => 0 <= i < v.len() && v[i] == s && forall|j: int| 0 <= j < i ==> v[j] != s,
            None => !v.contains(s),
        },
    decreases v.len(),
{
    if v.len() > 0 && v[0] != s {
        lemma_position(v.drop_first(), s);
        match position(v.drop_first(), s) {
            Some(i) => {
                assert forall|j: int| 0 <= j < i + 1 implies v[j] != s by {
                    if j > 0 {
                        assert(v[j] == v.drop_first()[j - 1]);
                    }
                }
            },
            None => {
                if v.contains(s) {
                    let k = choose|k: int| 0 <= k < v.len() && v[k] == s;
                    assert(v.drop_first()[k - 1] == s);
                }
            },
        }
    }
}

/// The first index `k` at which `v` holds `s`, when nothing before it does.
pub proof fn lemma_position_is(v: Seq<Seq<char>>, s: Seq<char>, k: int)
    requires
        0 <= k < v.len(),
        v[k] == s,
        forall|j: int| 0 <= j < k ==> v[j] != s,
    ensures
        position(v, s) == Some(k),
{
    lemma_position(v, s);
    assert(v.contains(s));
}

/// Index of the first text equal to `s`.
pub fn position_of(v: &Vec<String>, s: &str) -> (r: Option<usize>)
    ensures
        match r {
            Some(i) => position(views(v@), s@) == Some(i as int) && i < v@.len(),
            None => position(views(v@), s@) is None,
        },
{
    let mut i: usize = 0;
    while i < v.len()
        invariant
            i <= v@.len(),
            forall|j: int| 0 <= j < i ==> views(v@)[j] != s@,
        decreases v@.len() - i,
    {
        if same_text(v[i].as_str(), s) {
            proof {
                lemma_position_is(views(v@), s@, i as int);
            }
            return Some(i);
        }
        i = i + 1;
    }
    proof {
        lemma_position(views(v@), s@);
    }
    None
}

// ── UTF-8 ───────────────────────────────────────────────────────────────────

/// Encoding a concatenation concatenates the encodings.
pub proof fn lemma_encode_concat(a: Seq<char>, b: Seq<char>)
    ensures
        encode_utf8(a + b) == encode_utf8(a) + encode_utf8(b),
    decreases a.len(),
{
    if a.len() == 0 {
        assert(a + b =~= b);
        assert(encode_utf8(a) + encode_utf8(b) =~= encode_utf8(b));
    } else {
        lemma_encode_concat(a.drop_first(), b);
        assert((a + b).drop_first() =~= a.drop_first() + b);
        assert(encode_utf8(a + b) =~= encode_utf8(a) + encode_utf8(b));
    }
}

/// Splitting the encoding of `s` after its first `k` characters splits the text there.
pub proof fn lemma_encode_split(s: Seq<char>, k: int)
    requires
        0 <= k <= s.len(),
    ensures
        ({
            let bytes = encode_utf8(s);
            let mid = encode_utf8(s.take(k)).len();
            &&& valid_utf8(bytes)
            &&& is_char_boundary(bytes, mid as int)
            &&& mid <= bytes.len()
            &&& bytes.subrange(0, mid as int) == encode_utf8(s.take(k))
            &&& bytes.subrange(mid as int, bytes.len() as int) == encode_utf8(s.skip(k))
            &&& bytes.len() == mid + encode_utf8(s.skip(k)).len()
        }),
    decreases k,
{
    let bytes = encode_utf8(s);
    let mid = encode_utf8(s.take(k)).len();
    assert(s =~= s.take(k) + s.skip(k));
    lemma_encode_concat(s.take(k), s.skip(k));
    assert(bytes.subrange(0, mid as int) =~= encode_utf8(s.take(k)));
    assert(bytes.subrange(mid as int, bytes.len() as int) =~= encode_utf8(s.skip(k)));
    encode_utf8_valid_utf8(s);
    if k == 0 {
        assert(s.take(0) =~= Seq::<char>::empty());
    } else {
        let rest = s.drop_first();
        lemma_encode_split(rest, k - 1);
        encode_utf8_first_scalar(s);
        assert(s.take(k).drop_first() =~= rest.take(k - 1));
        assert(s.take(k)[0] == s[0]);
        encode_utf8_first_scalar(s.take(k));
        assert(pop_first_scalar(bytes) == encode_utf8(rest));
    }
}

/// Equal encodings come from equal texts.
pub proof fn lemma_encode_injective(a: Seq<char>, b: Seq<char>)
    requires
        encode_utf8(a) == encode_utf8(b),
    ensures
        a == b,
{
    encode_utf8_decode_utf8(a);
    encode_utf8_decode_utf8(b);
}

/// Where `sep` first stands in `s`.
pub open spec fn first_at(s: Seq<char>, sep: Seq<char>) -> Option<int>
    decreases s.len(),
{
    if s.len() < sep.len() || s.len() == 0 {
        None
    } else if s.take(sep.len() as int) == sep {
        Some(0)
    } else {
        match first_at(s.drop_first(), sep) {
            Some(k) => Some(k + 1),
            None => None,
        }
    }
}

/// Whether `s` begins with `head`.
pub open spec fn begins_with(s: Seq<char>, head: Seq<char>) -> bool {
    head.len() <= s.len() && s.take(head.len() as int) == head
}

/// What `first_at` finds lies inside the text.
pub proof fn lemma_first_at(s: Seq<char>, sep: Seq<char>)
    ensures
        first_at(s, sep) matches Some(k) ==> {
            &&& 0 <= k <= s.len() - sep.len()
            &&& s.subrange(k, k + sep.len()) == sep
        },
    decreases s.len(),
{
    if s.len() >= sep.len() && s.len() > 0 {
        if s.take(sep.len() as int) == sep {
            assert(s.subrange(0, sep.len() as int) =~= s.take(sep.len() as int));
        } else {
            lemma_first_at(s.drop_first(), sep);
            if let Some(k) = first_at(s.drop_first(), sep) {
                assert(s.drop_first().subrange(k, k + sep.len()) =~= s.subrange(
                    k + 1,
                    k + 1 + sep.len(),
                ));
            }
        }
    }
}

/// Where `sep` first stands in `s`.
pub fn find_text(s: &str, sep: &str) -> (r: Option<usize>)
    ensures
        match r {
            Some(k) => first_at(s@, sep@) == Some(k as int),
            None => first_at(s@, sep@) is None,
        },
{
    let n: usize = s.unicode_len();
    let m: usize = sep.unicode_len();
    if n < m || n == 0 {
        return None;
    }
    let mut i: usize = 0;
    assert(s@.skip(0) =~= s@);
    while i < n && n - i >= m
        invariant
            i <= n,
            n == s@.len(),
            m == sep@.len(),
            n >= m,
            match first_at(s@.skip(i as int), sep@) {
                Some(k) => first_at(s@, sep@) == Some(k + i),
                None => first_at(s@, sep@) is None,
            },
        decreases n - i,
    {
        let here = s.substring_char(i, i + m);
        let ghost rest = s@.skip(i as int);
        assert(rest.take(m as int) =~= here@);
        if same_text(here, sep) {
            return Some(i);
        }
        assert(rest.drop_first() =~= s@.skip(i + 1));
        i = i + 1;
    }
    assert(first_at(s@.skip(i as int), sep@) is None);
    None
}

/// Whether `s` begins with `head`.
pub fn starts_with_text(s: &str, head: &str) -> (r: bool)
    ensures
        r == begins_with(s@, head@),
{
    let n: usize = head.unicode_len();
    if n > s.unicode_len() {
        return false;
    }
    let start = s.substring_char(0, n);
    assert(s@.subrange(0, n as int) =~= s@.take(n as int));
    same_text(start, head)
}

/// `s` split around the first `sep`.
pub open spec fn split_around(s: Seq<char>, sep: Seq<char>) -> Option<(Seq<char>, Seq<char>)> {
    match first_at(s, sep) {
        Some(k) => Some((s.take(k), s.skip(k + sep.len()))),
        None => None,
    }
}

/// `s` split around the first `sep`.
pub fn split_once_text<'a>(s: &'a str, sep: &str) -> (r: Option<(&'a str, &'a str)>)
    ensures
        match r {
            Some(p) => split_around(s@, sep@) == Some((p.0@, p.1@)),
            None => split_around(s@, sep@) is None,
        },
{
    proof {
        lemma_first_at(s@, sep@);
    }
    match find_text(s, sep) {
        Some(k) => {
            let n: usize = s.unicode_len();
            let m: usize = sep.unicode_len();
            let a = s.substring_char(0, k);
            let b = s.substring_char(k + m, n);
            assert(s@.subrange(0, k as int) =~= s@.take(k as int));
            assert(s@.subrange(k + m, n as int) =~= s@.skip(k + m));
            Some((a, b))
        },
        None => None,
    }
}

} // verus!
