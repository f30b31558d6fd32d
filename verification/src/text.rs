use vstd::prelude::*;
use vstd::string::{StrSliceExecFns, StringExecFns};

verus! {

/// Whether `needle` stands somewhere in `hay`, as a run of characters one
/// after the other.
pub open spec fn occurs_in(hay: Seq<char>, needle: Seq<char>) -> bool {
    exists|i: int, j: int| 0 <= i <= j <= hay.len() && #[trigger] hay.subrange(i, j) == needle
}

/// Whether `text` starts with `prefix`.
pub open spec fn starts_with(text: Seq<char>, prefix: Seq<char>) -> bool {
    prefix.len() <= text.len() && text.subrange(0, prefix.len() as int) == prefix
}

/// A character that is white space: one that has the property White_Space
/// of Unicode.
pub open spec fn is_white_space(c: char) -> bool {
    let n = c as u32;
    ||| 0x9 <= n <= 0xd
    ||| n == 0x20
    ||| n == 0x85
    ||| n == 0xa0
    ||| n == 0x1680
    ||| 0x2000 <= n <= 0x200a
    ||| n == 0x2028
    ||| n == 0x2029
    ||| n == 0x202f
    ||| n == 0x205f
    ||| n == 0x3000
}

/// What is left of a text when the white space at its start is taken away.
pub open spec fn trimmed_start(s: Seq<char>) -> Seq<char>
    decreases s.len(),
{
    if s.len() > 0 && is_white_space(s[0]) {
        trimmed_start(s.drop_first())
    } else {
        s
    }
}

/// What is left of a text when the white space at its end is taken away.
pub open spec fn trimmed_end(s: Seq<char>) -> Seq<char>
    decreases s.len(),
{
    if s.len() > 0 && is_white_space(s.last()) {
        trimmed_end(s.drop_last())
    } else {
        s
    }
}

/// What is left of a text when the white space at its two ends is taken
/// away.
pub open spec fn trimmed(s: Seq<char>) -> Seq<char> {
    trimmed_end(trimmed_start(s))
}

/// The text in lower case.
pub uninterp spec fn lowercased(s: Seq<char>) -> Seq<char>;

/// The line without the carriage return at its end, if it has one.
pub open spec fn without_carriage_return(line: Seq<char>) -> Seq<char> {
    if line.len() > 0 && line.last() == '\r' {
        line.drop_last()
    } else {
        line
    }
}

/// The lines of the text `s` that follows the started line `line`. A line
/// ends at a line feed, and a carriage return just before the line feed goes
/// with it; the last line needs no line feed, and is no line if it is empty.
pub open spec fn lines_after(s: Seq<char>, line: Seq<char>) -> Seq<Seq<char>>
    decreases s.len(),
{
    if s.len() == 0 {
        if line.len() == 0 {
            Seq::empty()
        } else {
            seq![line]
        }
    } else if s[0] == '\n' {
        seq![without_carriage_return(line)] + lines_after(s.drop_first(), Seq::empty())
    } else {
        lines_after(s.drop_first(), line.push(s[0]))
    }
}

/// The lines of a text, without their line endings.
pub open spec fn lines_of(s: Seq<char>) -> Seq<Seq<char>> {
    lines_after(s, Seq::empty())
}

/// The parts into which the occurrences of `separator` cut the text `s`
/// that follows the started part `part`. The occurrences are taken from the
/// left, each after the end of the one before. A text without separators is
/// one part.
pub open spec fn parts_after(s: Seq<char>, separator: Seq<char>, part: Seq<char>) -> Seq<
    Seq<char>,
>
    decreases s.len(),
{
    if separator.len() == 0 || s.len() < separator.len() {
        seq![part + s]
    } else if s.take(separator.len() as int) == separator {
        seq![part] + parts_after(s.skip(separator.len() as int), separator, Seq::empty())
    } else {
        parts_after(s.drop_first(), separator, part.push(s[0]))
    }
}

/// The parts into which the occurrences of `separator` cut a text, where the
/// separator is not empty.
pub open spec fn split_on(s: Seq<char>, separator: Seq<char>) -> Seq<Seq<char>> {
    parts_after(s, separator, Seq::empty())
}

/// A text that holds nothing but white space.
pub open spec fn is_blank(s: Seq<char>) -> bool {
    forall|i: int| 0 <= i < s.len() ==> is_white_space(#[trigger] s[i])
}

/// Taking the white space at the start away leaves an end of the text, which
/// is empty if the text is blank and else starts with its first character
/// that is no white space.
pub proof fn lemma_trimmed_start(s: Seq<char>)
    ensures
        trimmed_start(s).len() <= s.len(),
        is_blank(s) <==> trimmed_start(s).len() == 0,
        !is_blank(s) ==> !is_white_space(trimmed_start(s)[0]),
    decreases s.len(),
{
    if s.len() > 0 && is_white_space(s[0]) {
        let rest = s.drop_first();
        lemma_trimmed_start(rest);
        if is_blank(rest) {
            assert forall|i: int| 0 <= i < s.len() implies is_white_space(#[trigger] s[i]) by {
                if i > 0 {
                    assert(s[i] == rest[i - 1]);
                }
            }
        } else {
            let i = choose|i: int| 0 <= i < rest.len() && !is_white_space(rest[i]);
            assert(s[i + 1] == rest[i]);
        }
    }
}

/// Taking the white space at the end away leaves a start of the text, which
/// is not empty if the text starts with a character that is no white space.
pub proof fn lemma_trimmed_end(s: Seq<char>)
    ensures
        trimmed_end(s).len() <= s.len(),
        s.len() > 0 && !is_white_space(s[0]) ==> trimmed_end(s).len() > 0,
    decreases s.len(),
{
    if s.len() > 0 && is_white_space(s.last()) {
        lemma_trimmed_end(s.drop_last());
    }
}

/// A text is blank exactly if nothing is left of it when the white space at
/// its two ends is taken away.
pub proof fn lemma_blank_trims_to_nothing(s: Seq<char>)
    ensures
        is_blank(s) <==> trimmed(s).len() == 0,
        trimmed(s).len() <= s.len(),
{
    lemma_trimmed_start(s);
    lemma_trimmed_end(trimmed_start(s));
}

/// The texts written one after the other, with `separator` between each two
/// neighbours.
pub open spec fn joined(parts: Seq<Seq<char>>, separator: Seq<char>) -> Seq<char>
    decreases parts.len(),
{
    if parts.len() == 0 {
        Seq::empty()
    } else if parts.len() == 1 {
        parts[0]
    } else {
        joined(parts.drop_last(), separator) + separator + parts.last()
    }
}

/// `str::contains` with a string as the pattern: whether the pattern matches
/// a part of the text, which for a string is to stand in it character by
/// character.
#[verifier::external_body]
pub(crate) fn str_contains(hay: &str, needle: &str) -> (b: bool)
    ensures
        b == occurs_in(hay@, needle@),
{
    hay.contains(needle)
}

/// `str::trim`: the text without its leading and trailing white space, which
/// is the characters with the property White_Space of Unicode.
#[verifier::external_body]
pub(crate) fn str_trim(s: &str) -> (r: &str)
    ensures
        r@ == trimmed(s@),
{
    s.trim()
}

/// `str::trim_start`: the text without its leading white space, which is
/// the characters with the property White_Space of Unicode.
#[verifier::external_body]
pub(crate) fn str_trim_start(s: &str) -> (r: &str)
    ensures
        r@ == trimmed_start(s@),
{
    s.trim_start()
}

/// `str::to_lowercase`: the lower-case equivalent of the text, named by
/// `lowercased`.
#[verifier::external_body]
pub(crate) fn str_to_lowercase(s: &str) -> (r: String)
    ensures
        r@ == lowercased(s@),
{
    s.to_lowercase()
}

/// `str::lines`: the lines of the text, each without its line ending. A
/// line ends at a line feed or at a carriage return with a line feed after
/// it; the last line needs no line ending.
#[verifier::external_body]
pub(crate) fn str_lines(s: &str) -> (r: Vec<String>)
    ensures
        r.deep_view() == lines_of(s@),
{
    s.lines().map(|line| line.to_string()).collect()
}

/// `str::split` with a string as the separator: the parts of the text
/// between the separator's occurrences, which are taken from the left and do
/// not overlap. Nothing is said of an empty separator.
#[verifier::external_body]
pub(crate) fn str_split(s: &str, separator: &str) -> (r: Vec<String>)
    ensures
        separator@.len() > 0 ==> r.deep_view() == split_on(s@, separator@),
{
    s.split(separator).map(|part| part.to_string()).collect()
}

/// Says whether a text holds nothing but white space.
pub fn blank(s: &str) -> (b: bool)
    ensures
        b == is_blank(s@),
{
    proof {
        lemma_blank_trims_to_nothing(s@);
    }
    str_trim(s).is_empty()
}

/// Says whether `text` starts with `prefix`.
pub fn begins_with(text: &str, prefix: &str) -> (b: bool)
    ensures
        b == starts_with(text@, prefix@),
{
    let length = prefix.unicode_len();
    if text.unicode_len() < length {
        false
    } else {
        same_text(text.substring_char(0, length), prefix)
    }
}

/// Says whether two texts are the same.
pub fn same_text(a: &str, b: &str) -> (same: bool)
    ensures
        same == (a@ == b@),
{
    a.to_string() == b.to_string()
}

/// Writes `name` between `before` and `after`.
pub fn framed(before: &str, name: &str, after: &str) -> (r: String)
    ensures
        r@ == before@ + name@ + after@,
{
    let mut text = before.to_string();
    text.append(name);
    text.append(after);
    text
}

/// Writes the texts one after the other, with `separator` between each two
/// neighbours.
pub fn join(parts: &Vec<String>, separator: &str) -> (r: String)
    ensures
        r@ == joined(parts.deep_view(), separator@),
{
    let ghost all = parts.deep_view();
    let mut text = String::new();
    let mut i: usize = 0;
    while i < parts.len()
        invariant
            i <= parts.len(),
            all == parts.deep_view(),
            text@ == joined(all.take(i as int), separator@),
        decreases parts.len() - i,
    {
        proof {
            assert(all.take(i + 1).drop_last() =~= all.take(i as int));
        }
        if i > 0 {
            text.append(separator);
        }
        text.append(parts[i].as_str());
        i += 1;
    }
    assert(all.take(all.len() as int) =~= all);
    text
}

} // verus!
