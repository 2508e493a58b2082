//! Text as it is shown: stored definitions, and the notice for a missing one.

use vstd::prelude::*;

verus! {

/// `String::push` appends one character to the end of the string.
pub assume_specification[ String::push ](text: &mut String, c: char)
    ensures
        final(text)@ == old(text)@.push(c),
;

/// A character of a stored definition as it is shown: a carriage return
/// becomes a line feed, every other character stays.
pub open spec fn shown_char(c: char) -> char {
    if c == '\r' {
        '\n'
    } else {
        c
    }
}

/// A stored definition as it is shown: every carriage return replaced by a line feed.
pub open spec fn normalized(text: Seq<char>) -> Seq<char> {
    Seq::new(text.len(), |i: int| shown_char(text[i]))
}

/// Replaces every carriage return in `text` by a line feed.
pub fn normalize_line_ends(text: &str) -> (shown: String)
    ensures
        shown@ == normalized(text@),
{
    let mut shown = String::new();
    for c in it: text.chars()
        invariant
            it.seq() == text@,
            shown@ == normalized(text@.take(it.index() as int)),
    {
        if c == '\r' {
            shown.push('\n');
        } else {
            shown.push(c);
        }
    }
    shown
}

/// What is shown in place of a definition that the store does not hold.
pub const NOT_FOUND: &'static str = "Not found!";

/// The text of a stored definition that may be missing.
pub open spec fn found_text(found: Option<&str>) -> Option<Seq<char>> {
    match found {
        Some(text) => Some(text@),
        None => None,
    }
}

/// The definition to show for what the store holds under an identity: the
/// stored text with its line ends normalized, or the notice that there is none.
pub open spec fn shown_definition(found: Option<Seq<char>>) -> Seq<char> {
    match found {
        Some(text) => normalized(text),
        None => NOT_FOUND@,
    }
}

/// The definition to show for what the store holds under an identity.
///
/// `found` is the stored definition, or `None` where the store has no record
/// of that identity.
pub fn show_definition(found: Option<&str>) -> (shown: String)
    ensures
        shown@ == shown_definition(found_text(found)),
{
    match found {
        Some(text) => normalize_line_ends(text),
        None => NOT_FOUND.to_owned(),
    }
}

/// Appends the first `count` characters of `chars` to `text`.
pub(crate) fn push_all(text: &mut String, chars: &Vec<char>, count: usize)
    requires
        count <= chars@.len(),
    ensures
        final(text)@ == old(text)@ + chars@.take(count as int),
{
    let mut i: usize = 0;
    while i < count
        invariant
            i <= count <= chars@.len(),
            text@ == old(text)@ + chars@.take(i as int),
        decreases count - i,
    {
        text.push(chars[i]);
        i = i + 1;
    }
}

} // verus!
