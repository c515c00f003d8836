//! Small verified helpers on text: trimming, lines, abbreviation.

use vstd::prelude::*;

verus! {

/// The characters that count as white space: those of Unicode's `White_Space`.
pub open spec fn is_white_space(c: char) -> bool {
    ||| '\u{9}' <= c <= '\u{d}'
    ||| c == ' '
    ||| c == '\u{85}'
    ||| c == '\u{a0}'
    ||| c == '\u{1680}'
    ||| '\u{2000}' <= c <= '\u{200a}'
    ||| c == '\u{2028}'
    ||| c == '\u{2029}'
    ||| c == '\u{202f}'
    ||| c == '\u{205f}'
    ||| c == '\u{3000}'
}

/// The text without its leading white space.
pub open spec fn trim_start(text: Seq<char>) -> Seq<char>
    decreases text.len(),
{
    if text.len() > 0 && is_white_space(text[0]) {
        trim_start(text.drop_first())
    } else {
        text
    }
}

/// The text without its trailing white space.
pub open spec fn trim_end(text: Seq<char>) -> Seq<char>
    decreases text.len(),
{
    if text.len() > 0 && is_white_space(text.last()) {
        trim_end(text.drop_last())
    } else {
        text
    }
}

/// The text without leading and trailing white space.
pub open spec fn trimmed(text: Seq<char>) -> Seq<char> {
    trim_end(trim_start(text))
}

/// Whether the character occurs in the text.
pub fn contains_char(text: &str, wanted: char) -> (found: bool)
    ensures
        found == text@.contains(wanted),
{
    let mut found = false;
    for c in it: text.chars()
        invariant
            it.seq() == text@,
            found <==> exists|j: int| 0 <= j < it.index() && text@[j] == wanted,
    {
        if c == wanted {
            found = true;
        }
    }
    found
}

/// Whether the character counts as white space.
pub fn white_space(c: char) -> (b: bool)
    ensures
        b == is_white_space(c),
{
    ('\u{9}' <= c && c <= '\u{d}') || c == ' ' || c == '\u{85}' || c == '\u{a0}' || c == '\u{1680}'
        || ('\u{2000}' <= c && c <= '\u{200a}') || c == '\u{2028}' || c == '\u{2029}' || c
        == '\u{202f}' || c == '\u{205f}' || c == '\u{3000}'
}

/// Where the leading white space ends, there the text without it begins.
proof fn lemma_trim_start(text: Seq<char>, from: int)
    requires
        0 <= from <= text.len(),
        forall|j: int| 0 <= j < from ==> is_white_space(text[j]),
        from == text.len() || !is_white_space(text[from]),
    ensures
        trim_start(text) == text.skip(from),
    decreases from,
{
    if from > 0 {
        lemma_trim_start(text.drop_first(), from - 1);
    }
}

/// Where the trailing white space begins, there the text without it ends.
proof fn lemma_trim_end(text: Seq<char>, to: int)
    requires
        0 <= to <= text.len(),
        forall|j: int| to <= j < text.len() ==> is_white_space(text[j]),
        to == 0 || !is_white_space(text[to - 1]),
    ensures
        trim_end(text) == text.take(to),
    decreases text.len() - to,
{
    if to < text.len() {
        lemma_trim_end(text.drop_last(), to);
    }
}

/// The text without leading and trailing white space.
pub fn trim(text: &str) -> (out: &str)
    ensures
        out@ == trimmed(text@),
{
    let total: usize = text.unicode_len();
    let mut first: usize = 0;
    let mut end: usize = 0;
    let mut seen = false;
    let mut at: usize = 0;
    for c in it: text.chars()
        invariant
            it.seq() == text@,
            total == text@.len(),
            at == it.index(),
            !seen ==> first == at && end == at,
            seen ==> first < end <= at,
            forall|j: int| 0 <= j < first ==> is_white_space(text@[j]),
            seen ==> !is_white_space(text@[first as int]),
            seen ==> !is_white_space(text@[end - 1]),
            forall|j: int| end <= j < at ==> is_white_space(text@[j]),
    {
        if !white_space(c) {
            if !seen {
                first = at;
                seen = true;
            }
            end = at + 1;
        } else if !seen {
            first = at + 1;
            end = at + 1;
        }
        at = at + 1;
    }
    proof {
        let s = text@;
        lemma_trim_start(s, first as int);
        let rest = s.skip(first as int);
        assert(forall|j: int| end - first <= j < rest.len() ==> is_white_space(rest[j]));
        lemma_trim_end(rest, end - first);
    }
    text.substring_char(first, end)
}

/// The text of a string that may not be there.
pub open spec fn optional_text(text: Option<String>) -> Option<Seq<char>> {
    match text {
        Some(text) => Some(text@),
        None => None,
    }
}

/// The texts of a list of strings, in order.
pub open spec fn views(items: Seq<String>) -> Seq<Seq<char>> {
    items.map_values(|s: String| s@)
}

/// Where the first line feed stands, or the length of the text if it has none.
pub open spec fn first_line_feed(text: Seq<char>) -> int
    decreases text.len(),
{
    if text.len() == 0 || text[0] == '\n' {
        0
    } else {
        1 + first_line_feed(text.drop_first())
    }
}

/// A line without the carriage return that stood before its line feed.
pub open spec fn without_return(line: Seq<char>) -> Seq<char> {
    if line.len() > 0 && line.last() == '\r' {
        line.drop_last()
    } else {
        line
    }
}

/// The lines of a text. A line ends at a line feed, or at a carriage return
/// directly before one; the ending is not part of the line. After the last line
/// feed only a non-empty rest is a line, and it is kept as it stands.
pub open spec fn lines_of(text: Seq<char>) -> Seq<Seq<char>>
    decreases text.len(),
{
    let k = first_line_feed(text);
    if text.len() == 0 {
        seq![]
    } else if 0 <= k < text.len() {
        seq![without_return(text.take(k))] + lines_of(text.skip(k + 1))
    } else {
        seq![text]
    }
}

/// A line feed with none before it is the first.
proof fn lemma_first_line_feed(text: Seq<char>, k: int)
    requires
        0 <= k <= text.len(),
        forall|j: int| 0 <= j < k ==> text[j] != '\n',
        k == text.len() || text[k] == '\n',
    ensures
        first_line_feed(text) == k,
    decreases k,
{
    if k > 0 {
        let rest = text.drop_first();
        assert(forall|j: int| 0 <= j < k - 1 ==> rest[j] != '\n');
        lemma_first_line_feed(rest, k - 1);
    }
}

/// The lines of a text, each as a string of its own.
pub fn lines(text: &str) -> (out: Vec<String>)
    ensures
        views(out@) == lines_of(text@),
{
    let total: usize = text.unicode_len();
    let mut out: Vec<String> = Vec::new();
    let mut start: usize = 0;
    let mut after_return = false;
    let mut at: usize = 0;
    assert(text@.skip(0) =~= text@);
    for c in it: text.chars()
        invariant
            it.seq() == text@,
            total == text@.len(),
            at == it.index(),
            start <= at,
            forall|j: int| start <= j < at ==> text@[j] != '\n',
            after_return == (start < at && text@[at - 1] == '\r'),
            lines_of(text@) == views(out@) + lines_of(text@.skip(start as int)),
    {
        if c == '\n' {
            let end: usize = if after_return { at - 1 } else { at };
            let line = text.substring_char(start, end).to_owned();
            proof {
                let rest = text@.skip(start as int);
                let k = at - start;
                assert(forall|j: int| 0 <= j < k ==> rest[j] != '\n');
                lemma_first_line_feed(rest, k);
                assert(without_return(rest.take(k)) =~= line@);
                assert(rest.skip(k + 1) =~= text@.skip(at + 1));
            }
            out.push(line);
            start = at + 1;
            after_return = false;
        } else {
            after_return = c == '\r';
        }
        at = at + 1;
    }
    proof {
        let rest = text@.skip(start as int);
        assert(forall|j: int| 0 <= j < rest.len() ==> rest[j] != '\n');
        lemma_first_line_feed(rest, rest.len() as int);
    }
    if start < total {
        out.push(text.substring_char(start, total).to_owned());
    }
    out
}

/// Two texts, one after the other.
pub fn glue(first: &str, second: &str) -> (out: String)
    ensures
        out@ == first@ + second@,
{
    let mut out = first.to_owned();
    out.append(second);
    out
}

/// A copy of a list of strings.
pub fn copy_strings(items: &[String]) -> (out: Vec<String>)
    ensures
        views(out@) == views(items@),
{
    let mut out: Vec<String> = Vec::new();
    let mut i: usize = 0;
    while i < items.len()
        invariant
            i <= items@.len(),
            out@.len() == i,
            forall|j: int| 0 <= j < i ==> out@[j]@ == items@[j]@,
        decreases items@.len() - i,
    {
        out.push(items[i].clone());
        i += 1;
    }
    out
}

/// How many characters of a commit identifier a report shows.
pub const ABBREVIATION_LENGTH: usize = 7;

/// The first seven characters of an identifier, or all of a shorter one.
pub open spec fn abbreviated(id: Seq<char>) -> Seq<char> {
    if id.len() <= ABBREVIATION_LENGTH {
        id
    } else {
        id.take(ABBREVIATION_LENGTH as int)
    }
}

/// The first seven characters of an identifier, or all of a shorter one.
pub fn abbreviate(id: &str) -> (short: &str)
    ensures
        short@ == abbreviated(id@),
{
    if id.unicode_len() <= ABBREVIATION_LENGTH {
        id
    } else {
        id.substring_char(0, ABBREVIATION_LENGTH)
    }
}

} // verus!
