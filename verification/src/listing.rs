//! The output parsers: from the text of a namespace listing or a context
//! listing to the names it reports, in the order in which it reports them.

use crate::text::{
    chars_of,
    first_word,
    is_space,
    is_word,
    lemma_first_word_is_word,
    lemma_lines_after_first,
    lemma_lines_with_final_newline,
    lemma_no_word_iff_blank,
    lines,
    scan,
    Class,
};
use vstd::prelude::*;

verus! {

/// The names that `lines` report: the first word of each line that has one.
pub open spec fn listed(lines: Seq<Seq<char>>) -> Seq<Seq<char>> {
    lines.filter_map(|line: Seq<char>| first_word(line))
}

/// The names in a context listing: one per line, no header.
pub open spec fn context_names(text: Seq<char>) -> Seq<Seq<char>> {
    listed(lines(text))
}

/// The names in a namespace listing: its first line is a column header and
/// reports none.
pub open spec fn namespace_names(text: Seq<char>) -> Seq<Seq<char>> {
    let all = lines(text);
    if all.len() == 0 {
        Seq::empty()
    } else {
        listed(all.drop_first())
    }
}

/// One more line at the end adds its first word, if it has one.
pub proof fn lemma_listed_push(done: Seq<Seq<char>>, line: Seq<char>)
    ensures
        listed(done.push(line)) == listed(done) + (match first_word(line) {
            Some(w) => seq![w],
            None => Seq::empty(),
        }),
{
    assert(done.push(line).drop_last() =~= done);
}

/// The names that a run of lines reports are those of its first part, then
/// those of the rest.
pub proof fn lemma_listed_add(front: Seq<Seq<char>>, back: Seq<Seq<char>>)
    ensures
        listed(front + back) == listed(front) + listed(back),
    decreases back.len(),
{
    if back.len() > 0 {
        let line = back.last();
        let shorter = back.drop_last();
        assert(front + back =~= (front + shorter).push(line));
        lemma_listed_push(front + shorter, line);
        lemma_listed_add(front, shorter);
    }
}

/// No list of names holds an empty entry or one with a separator in it,
/// whatever the lines are.
pub proof fn lemma_listed_are_words(lines: Seq<Seq<char>>)
    ensures
        forall|i: int| 0 <= i < listed(lines).len() ==> is_word(#[trigger] listed(lines)[i]),
    decreases lines.len(),
{
    if lines.len() > 0 {
        let line = lines.last();
        let shorter = lines.drop_last();
        lemma_listed_are_words(shorter);
        lemma_first_word_is_word(line);
        assert forall|i: int| 0 <= i < listed(lines).len() implies is_word(
            #[trigger] listed(lines)[i],
        ) by {
            if i < listed(shorter).len() {
                assert(listed(lines)[i] == listed(shorter)[i]);
            }
        }
    }
}

/// No name of a context listing or of a namespace listing is empty, and
/// none is padded or broken by a separator.
pub proof fn lemma_names_are_words(text: Seq<char>)
    ensures
        forall|i: int|
            0 <= i < context_names(text).len() ==> is_word(#[trigger] context_names(text)[i]),
        forall|i: int|
            0 <= i < namespace_names(text).len() ==> is_word(#[trigger] namespace_names(text)[i]),
{
    lemma_listed_are_words(lines(text));
    if lines(text).len() > 0 {
        lemma_listed_are_words(lines(text).drop_first());
    }
}

/// A line without a word, be it empty or all separators, is passed over: the
/// names are those of the lines around it.
pub proof fn lemma_blank_line_is_skipped(
    before: Seq<Seq<char>>,
    line: Seq<char>,
    after: Seq<Seq<char>>,
)
    requires
        forall|i: int| 0 <= i < line.len() ==> is_space(#[trigger] line[i]),
    ensures
        listed(before + seq![line] + after) == listed(before + after),
{
    lemma_no_word_iff_blank(line);
    lemma_listed_add(before + seq![line], after);
    lemma_listed_add(before, after);
    assert(before + seq![line] =~= before.push(line));
    lemma_listed_push(before, line);
}

/// A namespace listing is a header line and a listing without header: its
/// names are those that a context listing of what follows the header would
/// give, whatever the header says.
pub proof fn lemma_header_reports_nothing(header: Seq<char>, rest: Seq<char>)
    requires
        forall|i: int| 0 <= i < header.len() ==> header[i] != '\n',
    ensures
        namespace_names(header + seq!['\n'] + rest) == context_names(rest),
{
    lemma_lines_after_first(header, rest);
    let all = lines(header + seq!['\n'] + rest);
    assert(all.drop_first() =~= lines(rest));
}

/// A newline more at the end of a listing, which closes its last line or
/// adds an empty one, changes none of its names.
pub proof fn lemma_final_newline_adds_no_name(text: Seq<char>)
    ensures
        context_names(text.push('\n')) == context_names(text),
        namespace_names(text.push('\n')) == namespace_names(text),
{
    lemma_lines_with_final_newline(text);
    let nothing = Seq::<char>::empty();
    let all = lines(text);
    if text.len() == 0 || text.last() == '\n' {
        lemma_listed_push(all, nothing);
        if all.len() > 0 {
            assert(all.push(nothing).drop_first() =~= all.drop_first().push(nothing));
            lemma_listed_push(all.drop_first(), nothing);
        }
    }
}

/// The first word of the line that `cs` holds from `from` up to `to`.
fn leading_word(text: &str, cs: &Vec<char>, from: usize, to: usize) -> (word: Option<String>)
    requires
        cs@ == text@,
        from <= to <= cs.len(),
    ensures
        word.deep_view() == first_word(text@.subrange(from as int, to as int)),
{
    let start = scan(cs, from, to, Class::Blank);
    if start == to {
        None
    } else {
        let end = scan(cs, start, to, Class::Solid);
        let word = text.substring_char(start, end).to_owned();
        proof {
            let line = text@.subrange(from as int, to as int);
            assert(line.skip(start - from) =~= cs@.subrange(start as int, to as int));
        }
        Some(word)
    }
}

/// The names that the lines of `text` report from `from` on.
fn names_from(text: &str, cs: &Vec<char>, from: usize) -> (out: Vec<String>)
    requires
        cs@ == text@,
        from <= cs.len(),
    ensures
        out.deep_view() == listed(lines(text@.skip(from as int))),
{
    let n = cs.len();
    let mut out: Vec<String> = Vec::new();
    let mut at: usize = from;
    let ghost mut done: Seq<Seq<char>> = Seq::empty();
    while at < n
        invariant
            from <= at <= n,
            n == cs.len(),
            cs@ == text@,
            lines(text@.skip(from as int)) == done + lines(text@.skip(at as int)),
            out.deep_view() == listed(done),
        decreases n - at,
    {
        let end = scan(cs, at, n, Class::Line);
        let word = leading_word(text, cs, at, end);
        let next = if end < n {
            end + 1
        } else {
            n
        };
        let ghost rest = text@.skip(at as int);
        let ghost line = text@.subrange(at as int, end as int);
        proof {
            assert(rest.take(end - at) =~= line);
            if end < n {
                assert(rest.skip(end - at + 1) =~= text@.skip(next as int));
            }
            lemma_listed_push(done, line);
            done = done.push(line);
        }
        if let Some(name) = word {
            out.push(name);
        }
        at = next;
    }
    out
}

/// Reads a context listing: for each line that holds a word, its first word.
/// Lines without one are passed over.
pub fn parse_contexts(text: &str) -> (names: Vec<String>)
    ensures
        names.deep_view() == context_names(text@),
{
    let cs = chars_of(text);
    proof {
        assert(text@.skip(0) =~= text@);
    }
    names_from(text, &cs, 0)
}

/// Reads a namespace listing: drops the header line, then for each further
/// line that holds a word, its first word. Lines without one are passed over.
pub fn parse_namespaces(text: &str) -> (names: Vec<String>)
    ensures
        names.deep_view() == namespace_names(text@),
{
    let cs = chars_of(text);
    let n = cs.len();
    let end = scan(&cs, 0, n, Class::Line);
    proof {
        assert(cs@.subrange(0, n as int) =~= text@);
    }
    if end < n {
        proof {
            assert(lines(text@).drop_first() =~= lines(text@.skip(end + 1)));
        }
        names_from(text, &cs, end + 1)
    } else {
        Vec::new()
    }
}

} // verus!
