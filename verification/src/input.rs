//! Editing the line of text that the user types.

use crate::text::push_all;
use vstd::prelude::*;

verus! {

/// Whether `c` is white space, as `char::is_whitespace` tells it.
pub uninterp spec fn is_white_space(c: char) -> bool;

/// `char::is_whitespace` says whether a character has the Unicode property
/// `White_Space`: its answer depends on the character alone.
pub assume_specification[ char::is_whitespace ](c: char) -> (r: bool)
    ensures
        r == is_white_space(c),
;

/// For each character of `text`, whether it is white space.
pub open spec fn blanks(text: Seq<char>) -> Seq<bool> {
    Seq::new(text.len(), |i: int| is_white_space(text[i]))
}

/// The length of a text without the white space at its end, where `blank`
/// says of each character whether it is white space.
pub open spec fn trimmed_len(blank: Seq<bool>) -> nat
    decreases blank.len(),
{
    if blank.len() == 0 {
        0
    } else if blank.last() {
        trimmed_len(blank.drop_last())
    } else {
        blank.len()
    }
}

/// Where the last word of a text starts: after its last white space, or at 0
/// where it has none.
pub open spec fn word_start(blank: Seq<bool>) -> nat
    decreases blank.len(),
{
    if blank.len() == 0 {
        0
    } else if blank.last() {
        blank.len()
    } else {
        word_start(blank.drop_last())
    }
}

/// How much of a text stays when its last word is deleted: what stands before
/// the word, with the white space there. A text of white space alone stays whole.
pub open spec fn kept_len(blank: Seq<bool>) -> nat {
    if trimmed_len(blank) == 0 {
        blank.len()
    } else {
        word_start(blank.take(trimmed_len(blank) as int))
    }
}

/// `text` without its last word and what follows it.
pub open spec fn without_last_word(text: Seq<char>) -> Seq<char> {
    text.take(kept_len(blanks(text)) as int)
}

/// How many characters of a text stay when its last word is deleted, where
/// `blank` says of each character whether it is white space.
pub fn keep_before_last_word(blank: &Vec<bool>) -> (kept: usize)
    ensures
        kept == kept_len(blank@),
        kept <= blank@.len(),
{
    let mut end: usize = blank.len();
    assert(blank@.take(end as int) =~= blank@);
    while end > 0 && blank[end - 1]
        invariant
            end <= blank@.len(),
            trimmed_len(blank@) == trimmed_len(blank@.take(end as int)),
        decreases end,
    {
        assert(blank@.take(end as int).drop_last() =~= blank@.take(end - 1));
        end = end - 1;
    }
    if end == 0 {
        return blank.len();
    }
    let mut start: usize = end;
    while start > 0 && !blank[start - 1]
        invariant
            start <= end <= blank@.len(),
            word_start(blank@.take(end as int)) == word_start(blank@.take(start as int)),
        decreases start,
    {
        assert(blank@.take(start as int).drop_last() =~= blank@.take(start - 1));
        start = start - 1;
    }
    start
}

/// Removes the last word of `buffer` and the white space after it. The white
/// space before the word stays.
pub fn delete_last_word(buffer: &mut String)
    ensures
        final(buffer)@ == without_last_word(old(buffer)@),
{
    let mut chars: Vec<char> = Vec::new();
    let mut blank: Vec<bool> = Vec::new();
    for c in it: buffer.as_str().chars()
        invariant
            it.seq() == buffer@,
            chars@ == buffer@.take(it.index() as int),
            blank@ == blanks(chars@),
    {
        chars.push(c);
        blank.push(c.is_whitespace());
    }
    assert(chars@ =~= buffer@);
    let kept: usize = keep_before_last_word(&blank);
    let mut left = String::new();
    push_all(&mut left, &chars, kept);
    *buffer = left;
}

} // verus!
