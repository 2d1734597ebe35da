//! Character-level text operations used to normalize URLs, headers and secret values.
use vstd::prelude::*;

verus! {

/// `text` with every trailing occurrence of `c` removed.
pub open spec fn trim_end_char(text: Seq<char>, c: char) -> Seq<char>
    decreases text.len(),
{
    if text.len() > 0 && text.last() == c {
        trim_end_char(text.drop_last(), c)
    } else {
        text
    }
}

/// `text` with every leading occurrence of `c` removed.
pub open spec fn trim_start_char(text: Seq<char>, c: char) -> Seq<char>
    decreases text.len(),
{
    if text.len() > 0 && text[0] == c {
        trim_start_char(text.drop_first(), c)
    } else {
        text
    }
}

/// Holds when `c` has the Unicode `White_Space` property, the whitespace that `str::trim`
/// removes.
pub open spec fn is_unicode_whitespace(c: char) -> bool {
    ||| '\u{9}' <= c && c <= '\u{d}'
    ||| c == ' '
    ||| c == '\u{85}'
    ||| c == '\u{a0}'
    ||| c == '\u{1680}'
    ||| '\u{2000}' <= c && c <= '\u{200a}'
    ||| c == '\u{2028}'
    ||| c == '\u{2029}'
    ||| c == '\u{202f}'
    ||| c == '\u{205f}'
    ||| c == '\u{3000}'
}

/// Holds when `text` is empty once surrounding Unicode whitespace is trimmed.
pub open spec fn is_blank_text(text: Seq<char>) -> bool {
    forall|i: int| 0 <= i < text.len() ==> is_unicode_whitespace(#[trigger] text[i])
}

/// Trimming trailing `c` leaves a prefix of the text that does not end with `c`.
pub proof fn lemma_trim_end_char_shape(text: Seq<char>, c: char)
    ensures
        trim_end_char(text, c).len() <= text.len(),
        trim_end_char(text, c) =~= text.take(trim_end_char(text, c).len() as int),
        trim_end_char(text, c).len() > 0 ==> trim_end_char(text, c).last() != c,
    decreases text.len(),
{
    if text.len() > 0 && text.last() == c {
        lemma_trim_end_char_shape(text.drop_last(), c);
        let t = trim_end_char(text.drop_last(), c);
        assert(text.drop_last().take(t.len() as int) =~= text.take(t.len() as int));
    }
}

/// Trimming trailing `c` a second time changes nothing.
pub proof fn lemma_trim_end_char_idempotent(text: Seq<char>, c: char)
    ensures
        trim_end_char(trim_end_char(text, c), c) == trim_end_char(text, c),
{
    lemma_trim_end_char_shape(text, c);
}

/// Trimming leading `c` leaves a suffix of the text that does not start with `c`.
pub proof fn lemma_trim_start_char_shape(text: Seq<char>, c: char)
    ensures
        trim_start_char(text, c).len() <= text.len(),
        trim_start_char(text, c) =~= text.skip(text.len() - trim_start_char(text, c).len()),
        trim_start_char(text, c).len() > 0 ==> trim_start_char(text, c)[0] != c,
    decreases text.len(),
{
    if text.len() > 0 && text[0] == c {
        lemma_trim_start_char_shape(text.drop_first(), c);
        let t = trim_start_char(text.drop_first(), c);
        assert(text.drop_first().skip(text.len() - 1 - t.len()) =~= text.skip(
            text.len() - t.len(),
        ));
    }
}

/// Trimming leading `c` removes only occurrences of `c`: every character before the kept
/// suffix is `c`.
pub proof fn lemma_trim_start_char_drops_slashes(text: Seq<char>, c: char)
    ensures
        forall|i: int|
            0 <= i < text.len() - trim_start_char(text, c).len() ==> #[trigger] text[i] == c,
    decreases text.len(),
{
    lemma_trim_start_char_shape(text, c);
    if text.len() > 0 && text[0] == c {
        let rest = text.drop_first();
        lemma_trim_start_char_drops_slashes(rest, c);
        assert forall|i: int| 0 <= i < text.len() - trim_start_char(text, c).len() implies #[trigger] text[i]
            == c by {
            if i > 0 {
                assert(text[i] == rest[i - 1]);
            }
        }
    }
}

/// Trimming leading `c` a second time changes nothing.
pub proof fn lemma_trim_start_char_idempotent(text: Seq<char>, c: char)
    ensures
        trim_start_char(trim_start_char(text, c), c) == trim_start_char(text, c),
{
    lemma_trim_start_char_shape(text, c);
}

/// Removes every trailing occurrence of `c` from `text`.
pub fn trim_end_matching(text: &str, c: char) -> (trimmed: String)
    ensures
        trimmed@ == trim_end_char(text@, c),
{
    let length = text.unicode_len();
    let mut end: usize = length;
    assert(text@.take(length as int) =~= text@);
    while end > 0 && text.get_char(end - 1) == c
        invariant
            length == text@.len(),
            end <= length,
            trim_end_char(text@.take(end as int), c) == trim_end_char(text@, c),
        decreases end,
    {
        assert(text@.take(end as int).drop_last() =~= text@.take(end - 1));
        end = end - 1;
    }
    if length == end {
        assert(text@.take(end as int) =~= text@);
    }
    String::from_str(text.substring_char(0, end))
}

/// Removes every leading occurrence of `c` from `text`.
pub fn trim_start_matching(text: &str, c: char) -> (trimmed: String)
    ensures
        trimmed@ == trim_start_char(text@, c),
{
    let length = text.unicode_len();
    let mut start: usize = 0;
    assert(text@.skip(0) =~= text@);
    while start < length && text.get_char(start) == c
        invariant
            length == text@.len(),
            start <= length,
            trim_start_char(text@.skip(start as int), c) == trim_start_char(text@, c),
        decreases length - start,
    {
        assert(text@.skip(start as int).drop_first() =~= text@.skip(start + 1));
        start = start + 1;
    }
    assert(text@.subrange(start as int, length as int) =~= text@.skip(start as int));
    String::from_str(text.substring_char(start, length))
}

/// Reports whether `c` has the Unicode `White_Space` property.
pub fn is_whitespace_char(c: char) -> (whitespace: bool)
    ensures
        whitespace == is_unicode_whitespace(c),
{
    ('\u{9}' <= c && c <= '\u{d}') || c == ' ' || c == '\u{85}' || c == '\u{a0}' || c
        == '\u{1680}' || ('\u{2000}' <= c && c <= '\u{200a}') || c == '\u{2028}' || c
        == '\u{2029}' || c == '\u{202f}' || c == '\u{205f}' || c == '\u{3000}'
}

/// Reports whether `text` consists of Unicode whitespace only (so trimming it leaves nothing).
pub fn is_blank(text: &str) -> (blank: bool)
    ensures
        blank == is_blank_text(text@),
{
    let length = text.unicode_len();
    let mut index: usize = 0;
    while index < length
        invariant
            length == text@.len(),
            index <= length,
            forall|j: int| 0 <= j < index ==> is_unicode_whitespace(#[trigger] text@[j]),
        decreases length - index,
    {
        if !is_whitespace_char(text.get_char(index)) {
            return false;
        }
        index = index + 1;
    }
    true
}

/// Joins two texts into one owned string.
pub fn join_text(first: &str, second: &str) -> (joined: String)
    ensures
        joined@ == first@ + second@,
{
    let mut joined = String::from_str(first);
    joined.append(second);
    joined
}

} // verus!
