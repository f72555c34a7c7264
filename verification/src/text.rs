//! Characters, words and lines: the vocabulary in which the tool's plain-text
//! output and the caller's command fragments are described.

use vstd::prelude::*;

verus! {

/// Whether `c` separates words: the characters with the Unicode property
/// `White_Space`.
pub open spec fn is_space(c: char) -> bool {
    let n = c as u32;
    ||| 0x09 <= n <= 0x0D
    ||| n == 0x20
    ||| n == 0x85
    ||| n == 0xA0
    ||| n == 0x1680
    ||| 0x2000 <= n <= 0x200A
    ||| n == 0x2028
    ||| n == 0x2029
    ||| n == 0x202F
    ||| n == 0x205F
    ||| n == 0x3000
}

/// The characters that separate words.
pub open spec fn blank() -> spec_fn(char) -> bool {
    |c: char| is_space(c)
}

/// The characters that words are made of.
pub open spec fn solid() -> spec_fn(char) -> bool {
    |c: char| !is_space(c)
}

/// The characters that a line is made of: all but the newline.
pub open spec fn in_line() -> spec_fn(char) -> bool {
    |c: char| c != '\n'
}

/// Length of the longest prefix of `s` whose characters all satisfy `p`.
pub open spec fn span(s: Seq<char>, p: spec_fn(char) -> bool) -> nat
    decreases s.len(),
{
    if s.len() > 0 && p(s[0]) {
        1 + span(s.drop_first(), p)
    } else {
        0
    }
}

/// Whether `w` can be a word: it holds at least one character and no
/// separator.
pub open spec fn is_word(w: Seq<char>) -> bool {
    &&& w.len() > 0
    &&& forall|j: int| 0 <= j < w.len() ==> !is_space(#[trigger] w[j])
}

/// The first word of `s`: what stands between its leading separators and the
/// next separator, if anything does.
pub open spec fn first_word(s: Seq<char>) -> Option<Seq<char>> {
    let t = s.skip(span(s, blank()) as int);
    if t.len() == 0 {
        None
    } else {
        Some(t.take(span(t, solid()) as int))
    }
}

/// The words of `s`: its maximal runs of characters that are no separators,
/// from left to right.
pub open spec fn words(s: Seq<char>) -> Seq<Seq<char>>
    decreases s.len(),
{
    let t = s.skip(span(s, blank()) as int);
    if t.len() == 0 {
        Seq::empty()
    } else {
        let n = span(t, solid());
        proof {
            lemma_span(s, blank());
            lemma_span(t, solid());
        }
        seq![t.take(n as int)] + words(t.skip(n as int))
    }
}

/// The lines of `s`: the stretches between its newlines. A newline at the very
/// end closes the last line and opens no further one.
pub open spec fn lines(s: Seq<char>) -> Seq<Seq<char>>
    decreases s.len(),
{
    if s.len() == 0 {
        Seq::empty()
    } else {
        let n = span(s, in_line());
        if n >= s.len() {
            seq![s]
        } else {
            seq![s.take(n as int)] + lines(s.skip((n + 1) as int))
        }
    }
}

/// `span(s, p)` is the place where `p` first fails in `s`, or the end of `s`.
pub proof fn lemma_span(s: Seq<char>, p: spec_fn(char) -> bool)
    ensures
        span(s, p) <= s.len(),
        forall|i: int| 0 <= i < span(s, p) ==> p(#[trigger] s[i]),
        span(s, p) < s.len() ==> !p(s[span(s, p) as int]),
    decreases s.len(),
{
    if s.len() > 0 && p(s[0]) {
        let r = s.drop_first();
        lemma_span(r, p);
        assert forall|i: int| 0 <= i < span(s, p) implies p(#[trigger] s[i]) by {
            if i > 0 {
                assert(s[i] == r[i - 1]);
            }
        }
    }
}

/// A prefix on which `p` holds throughout, followed by the end of `s` or by a
/// character on which `p` fails, is the span.
pub proof fn lemma_span_is(s: Seq<char>, p: spec_fn(char) -> bool, n: int)
    requires
        0 <= n <= s.len(),
        forall|i: int| 0 <= i < n ==> p(#[trigger] s[i]),
        n < s.len() ==> !p(s[n]),
    ensures
        span(s, p) == n,
    decreases s.len(),
{
    if n > 0 {
        let r = s.drop_first();
        lemma_span_is(r, p, n - 1);
    }
}

/// Leading separators do not change the words of `s`.
pub proof fn lemma_words_skip_blank(s: Seq<char>)
    ensures
        span(s, blank()) <= s.len(),
        words(s.skip(span(s, blank()) as int)) == words(s),
{
    lemma_span(s, blank());
    let k = span(s, blank()) as int;
    let t = s.skip(k);
    assert(t.skip(0) =~= t);
}

/// Where `s` starts with a word, that word is the first of its words, and the
/// others are the words of what follows it.
pub proof fn lemma_words_at_word(s: Seq<char>)
    requires
        s.len() > 0,
        !is_space(s[0]),
    ensures
        0 < span(s, solid()) <= s.len(),
        words(s) == seq![s.take(span(s, solid()) as int)] + words(
            s.skip(span(s, solid()) as int),
        ),
{
    lemma_span(s, solid());
    assert(s.skip(0) =~= s);
}

/// Every word of `s` holds at least one character and no separator.
pub proof fn lemma_words_are_words(s: Seq<char>)
    ensures
        forall|i: int| 0 <= i < words(s).len() ==> is_word(#[trigger] words(s)[i]),
    decreases s.len(),
{
    lemma_span(s, blank());
    let t = s.skip(span(s, blank()) as int);
    if t.len() > 0 {
        lemma_span(t, solid());
        let n = span(t, solid()) as int;
        let rest = t.skip(n);
        lemma_words_are_words(rest);
        assert forall|i: int| 0 <= i < words(s).len() implies is_word(#[trigger] words(s)[i]) by {
            if i > 0 {
                assert(words(s)[i] == words(rest)[i - 1]);
            }
        }
    }
}

/// Filtering by `p` keeps a text whose characters all satisfy `p` as it is,
/// and leaves nothing of a text none of whose characters does.
proof fn lemma_filter_uniform(s: Seq<char>, p: spec_fn(char) -> bool)
    ensures
        (forall|i: int| 0 <= i < s.len() ==> p(#[trigger] s[i])) ==> s.filter(p) == s,
        (forall|i: int| 0 <= i < s.len() ==> !p(#[trigger] s[i])) ==> s.filter(p)
            == Seq::<char>::empty(),
    decreases s.len(),
{
    reveal(Seq::filter);
    if s.len() > 0 {
        let front = s.drop_last();
        lemma_filter_uniform(front, p);
    }
}

/// Splitting loses separators and nothing else: the words of `s`, put one
/// behind the other, are the characters of `s` that are no separators, in
/// their order.
pub proof fn lemma_words_keep_all_but_separators(s: Seq<char>)
    ensures
        words(s).flatten() == s.filter(solid()),
    decreases s.len(),
{
    lemma_span(s, blank());
    let k = span(s, blank()) as int;
    let gap = s.take(k);
    let t = s.skip(k);
    assert(s =~= gap + t);
    lemma_filter_uniform(gap, solid());
    if t.len() > 0 {
        lemma_span(t, solid());
        let n = span(t, solid()) as int;
        let word = t.take(n);
        let rest = t.skip(n);
        assert(t =~= word + rest);
        lemma_filter_uniform(word, solid());
        lemma_words_keep_all_but_separators(rest);
        let all = seq![word] + words(rest);
        assert(all.drop_first() =~= words(rest));
    }
}

/// The first word of `s`, where there is one, is the first of the words of
/// `s`, and so holds at least one character and no separator.
pub proof fn lemma_first_word_is_word(s: Seq<char>)
    ensures
        first_word(s) is Some <==> words(s).len() > 0,
        first_word(s) matches Some(w) ==> w == words(s)[0] && is_word(w),
{
    lemma_words_are_words(s);
}

/// A text has no first word exactly where it holds nothing but separators.
pub proof fn lemma_no_word_iff_blank(s: Seq<char>)
    ensures
        first_word(s) is None <==> forall|i: int| 0 <= i < s.len() ==> is_space(#[trigger] s[i]),
{
    lemma_span(s, blank());
}

/// The newline that closes a line is the end of that line: with a line
/// `first` that holds no newline, the lines of `first`, a newline and `rest`
/// are `first` and the lines of `rest`.
pub proof fn lemma_lines_after_first(first: Seq<char>, rest: Seq<char>)
    requires
        forall|i: int| 0 <= i < first.len() ==> first[i] != '\n',
    ensures
        lines(first + seq!['\n'] + rest) == seq![first] + lines(rest),
{
    let s = first + seq!['\n'] + rest;
    let n = first.len() as int;
    lemma_span_is(s, in_line(), n);
    assert(s.take(n) =~= first);
    assert(s.skip(n + 1) =~= rest);
}

/// A newline at the end of a text closes its last line. It adds a line, an
/// empty one, only where the text is empty or ends in a newline already.
pub proof fn lemma_lines_with_final_newline(s: Seq<char>)
    ensures
        lines(s.push('\n')) == (if s.len() == 0 || s.last() == '\n' {
            lines(s).push(Seq::<char>::empty())
        } else {
            lines(s)
        }),
    decreases s.len(),
{
    let t = s.push('\n');
    lemma_span(s, in_line());
    let n = span(s, in_line()) as int;
    lemma_span_is(t, in_line(), n);
    assert(t.take(n) =~= s.take(n));
    if n < s.len() {
        let r = s.skip(n + 1);
        assert(t.skip(n + 1) =~= r.push('\n'));
        lemma_lines_with_final_newline(r);
    } else {
        assert(lines(t.skip(n + 1)) =~= Seq::<Seq<char>>::empty());
        if s.len() == 0 {
            assert(t.take(n) =~= Seq::<char>::empty());
        } else {
            assert(s.take(n) =~= s);
        }
    }
}

/// A class of characters that a scan runs over.
#[derive(Debug, Clone, Copy, PartialEq, Eq)]
pub enum Class {
    /// Separators.
    Blank,
    /// Characters of words.
    Solid,
    /// Characters of a line: all but the newline.
    Line,
}

impl Class {
    /// The characters of the class.
    pub open spec fn members(self) -> spec_fn(char) -> bool {
        match self {
            Class::Blank => blank(),
            Class::Solid => solid(),
            Class::Line => in_line(),
        }
    }

    /// Whether `c` belongs to the class.
    pub fn holds(self, c: char) -> (b: bool)
        ensures
            b == (self.members())(c),
    {
        match self {
            Class::Blank => is_separator(c),
            Class::Solid => !is_separator(c),
            Class::Line => c != '\n',
        }
    }
}

/// Decides [`is_space`].
pub fn is_separator(c: char) -> (b: bool)
    ensures
        b == is_space(c),
{
    let n: u32 = c as u32;
    (0x09 <= n && n <= 0x0D) || n == 0x20 || n == 0x85 || n == 0xA0 || n == 0x1680 || (0x2000 <= n
        && n <= 0x200A) || n == 0x2028 || n == 0x2029 || n == 0x202F || n == 0x205F || n == 0x3000
}

/// The characters of `text`, in order.
pub fn chars_of(text: &str) -> (cs: Vec<char>)
    ensures
        cs@ == text@,
{
    let mut cs: Vec<char> = Vec::new();
    for c in it: text.chars()
        invariant
            it.seq() == text@,
            cs@ == it.seq().take(it.index() as int),
    {
        cs.push(c);
    }
    cs
}

/// Runs from `from` over the characters of `class`, and stops at `to` at the
/// latest: returns where the run ends.
pub fn scan(cs: &Vec<char>, from: usize, to: usize, class: Class) -> (end: usize)
    requires
        from <= to <= cs.len(),
    ensures
        from <= end <= to,
        end == from + span(cs@.subrange(from as int, to as int), class.members()),
{
    let mut i: usize = from;
    while i < to && class.holds(cs[i])
        invariant
            from <= i <= to <= cs.len(),
            forall|k: int| from <= k < i ==> (class.members())(#[trigger] cs@[k]),
        decreases to - i,
    {
        i += 1;
    }
    proof {
        lemma_span_is(cs@.subrange(from as int, to as int), class.members(), i - from);
    }
    i
}

/// Splits `text` into its words.
pub fn split_words(text: &str) -> (out: Vec<String>)
    ensures
        out.deep_view() == words(text@),
{
    let cs = chars_of(text);
    let n = cs.len();
    let mut out: Vec<String> = Vec::new();
    let mut i: usize = scan(&cs, 0, n, Class::Blank);
    proof {
        assert(cs@.subrange(0, n as int) =~= text@);
        lemma_words_skip_blank(text@);
        lemma_span(text@, blank());
    }
    while i < n
        invariant
            i <= n,
            n == cs.len(),
            cs@ == text@,
            i < n ==> !is_space(cs@[i as int]),
            words(text@) == out.deep_view() + words(text@.skip(i as int)),
        decreases n - i,
    {
        let end = scan(&cs, i, n, Class::Solid);
        let word = text.substring_char(i, end).to_owned();
        let next = scan(&cs, end, n, Class::Blank);
        proof {
            let rest = text@.skip(i as int);
            lemma_words_at_word(rest);
            assert(rest.take(end - i) =~= word@);
            let after = rest.skip(end - i);
            assert(after =~= text@.skip(end as int));
            lemma_words_skip_blank(after);
            lemma_span(after, blank());
            assert(after.skip(next - end) =~= text@.skip(next as int));
        }
        out.push(word);
        i = next;
    }
    out
}

} // verus!
