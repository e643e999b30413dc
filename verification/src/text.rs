//! What a helper prints, reduced to the value it stands for: the blanks
//! around it go, and one pair of single quotes around what is left.

use vstd::prelude::*;
use vstd::string::*;

verus! {

/// A space, a tab, a line feed or a carriage return.
pub open spec fn is_blank(c: char) -> bool {
    c == ' ' || c == '\t' || c == '\n' || c == '\r'
}

/// The text without the blanks at its start.
pub open spec fn strip_start(text: Seq<char>) -> Seq<char>
    decreases text.len(),
{
    if text.len() > 0 && is_blank(text[0]) {
        strip_start(text.skip(1))
    } else {
        text
    }
}

/// The text without the blanks at its end.
pub open spec fn strip_end(text: Seq<char>) -> Seq<char>
    decreases text.len(),
{
    if text.len() > 0 && is_blank(text.last()) {
        strip_end(text.drop_last())
    } else {
        text
    }
}

/// The text without the blanks at its start and at its end.
pub open spec fn trimmed(text: Seq<char>) -> Seq<char> {
    strip_end(strip_start(text))
}

/// The text without the pair of single quotes around it, if it has one.
pub open spec fn unquoted(text: Seq<char>) -> Seq<char> {
    if text.len() >= 2 && text[0] == '\'' && text.last() == '\'' {
        text.subrange(1, text.len() - 1)
    } else {
        text
    }
}

/// The value that a helper's output stands for.
pub open spec fn extracted(output: Seq<char>) -> Seq<char> {
    unquoted(trimmed(output))
}

/// Whether the character is a blank.
pub fn blank(c: char) -> (answer: bool)
    ensures
        answer == is_blank(c),
{
    c == ' ' || c == '\t' || c == '\n' || c == '\r'
}

/// The text without the blanks at its start and at its end.
pub fn trim(text: &str) -> (kept: &str)
    ensures
        kept@ == trimmed(text@),
{
    let length = text.unicode_len();
    let mut start: usize = 0;
    assert(text@.skip(0) =~= text@);
    while start < length
        invariant
            length == text@.len(),
            start <= length,
            strip_start(text@) == strip_start(text@.skip(start as int)),
        ensures
            start <= length,
            strip_start(text@) == text@.skip(start as int),
        decreases length - start,
    {
        if !blank(text.get_char(start)) {
            break;
        }
        assert(text@.skip(start as int).skip(1) =~= text@.skip(start + 1));
        start = start + 1;
    }
    let ghost rest = text@.skip(start as int);
    let mut end: usize = length;
    assert(rest =~= text@.subrange(start as int, end as int));
    while end > start
        invariant
            length == text@.len(),
            start <= end <= length,
            strip_end(rest) == strip_end(text@.subrange(start as int, end as int)),
        ensures
            start <= end <= length,
            strip_end(rest) == text@.subrange(start as int, end as int),
        decreases end - start,
    {
        if !blank(text.get_char(end - 1)) {
            break;
        }
        assert(text@.subrange(start as int, end as int).drop_last() =~= text@.subrange(
            start as int,
            end - 1,
        ));
        end = end - 1;
    }
    text.substring_char(start, end)
}

/// The text without the pair of single quotes around it, if it has one.
pub fn unquote(text: &str) -> (inner: &str)
    ensures
        inner@ == unquoted(text@),
{
    let length = text.unicode_len();
    if length >= 2 && text.get_char(0) == '\'' && text.get_char(length - 1) == '\'' {
        text.substring_char(1, length - 1)
    } else {
        text
    }
}

/// The value that a helper's output stands for: the output without the
/// blanks around it and without the single quotes around what is left.
pub fn extract(output: &str) -> (value: &str)
    ensures
        value@ == extracted(output@),
{
    unquote(trim(output))
}

/// What goes from the start is blank, and what stays does not begin with a
/// blank.
proof fn strip_start_drops_blanks(text: Seq<char>) -> (dropped: int)
    ensures
        0 <= dropped <= text.len(),
        strip_start(text) == text.skip(dropped),
        forall|at: int| 0 <= at < dropped ==> is_blank(text[at]),
        dropped < text.len() ==> !is_blank(text[dropped]),
    decreases text.len(),
{
    if text.len() > 0 && is_blank(text[0]) {
        let rest = strip_start_drops_blanks(text.skip(1));
        assert(text.skip(1).skip(rest) =~= text.skip(rest + 1));
        assert forall|at: int| 0 <= at < rest + 1 implies is_blank(text[at]) by {
            if at > 0 {
                assert(text[at] == text.skip(1)[at - 1]);
            }
        }
        rest + 1
    } else {
        assert(text.skip(0) =~= text);
        0
    }
}

/// What goes from the end is blank, and what stays does not end with a
/// blank.
proof fn strip_end_drops_blanks(text: Seq<char>) -> (kept: int)
    ensures
        0 <= kept <= text.len(),
        strip_end(text) == text.take(kept),
        forall|at: int| kept <= at < text.len() ==> is_blank(text[at]),
        kept > 0 ==> !is_blank(text[kept - 1]),
    decreases text.len(),
{
    if text.len() > 0 && is_blank(text.last()) {
        let kept = strip_end_drops_blanks(text.drop_last());
        assert(text.drop_last().take(kept) =~= text.take(kept));
        assert forall|at: int| kept <= at < text.len() implies is_blank(text[at]) by {
            if at < text.len() - 1 {
                assert(text[at] == text.drop_last()[at]);
            }
        }
        kept
    } else {
        assert(text.take(text.len() as int) =~= text);
        text.len() as int
    }
}

/// To trim is to take away blanks and nothing else: the text is blanks,
/// then the trimmed text, then blanks, and the trimmed text neither begins
/// nor ends with a blank. The bounds of the trimmed text are returned.
pub proof fn trimmed_is_the_core(text: Seq<char>) -> (bounds: (int, int))
    ensures
        0 <= bounds.0 <= bounds.1 <= text.len(),
        trimmed(text) == text.subrange(bounds.0, bounds.1),
        forall|at: int| 0 <= at < bounds.0 ==> is_blank(text[at]),
        forall|at: int| bounds.1 <= at < text.len() ==> is_blank(text[at]),
        trimmed(text).len() > 0 ==> !is_blank(trimmed(text).first()) && !is_blank(
            trimmed(text).last(),
        ),
{
    let start = strip_start_drops_blanks(text);
    let rest = text.skip(start);
    let kept = strip_end_drops_blanks(rest);
    assert(rest.take(kept) =~= text.subrange(start, start + kept));
    assert forall|at: int| start + kept <= at < text.len() implies is_blank(text[at]) by {
        assert(text[at] == rest[at - start]);
    }
    if kept > 0 {
        assert(rest.take(kept).first() == text[start]);
        assert(rest.take(kept).last() == rest[kept - 1]);
    }
    (start, start + kept)
}

/// A text that neither begins nor ends with a blank is left as it is, so
/// to trim twice is to trim once.
pub proof fn trimming_leaves_the_core(text: Seq<char>)
    ensures
        text.len() == 0 || (!is_blank(text.first()) && !is_blank(text.last())) ==> trimmed(text)
            == text,
        trimmed(trimmed(text)) == trimmed(text),
{
    trimmed_is_the_core(text);
}

} // verus!
