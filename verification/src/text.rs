//! Small string primitives that the rest of the crate builds on.

use vstd::prelude::*;

verus! {

/// Compares two string slices with `str`'s own `==`.
///
/// Not proved: the contract takes from the standard library that `==` on
/// `str` holds exactly when both slices are the same sequence of characters.
#[verifier::external_body]
pub(crate) fn same_text(left: &str, right: &str) -> (same: bool)
    ensures
        same == (left@ == right@),
{
    left == right
}

/// Appends one character with `String::push`.
///
/// Not proved: the contract takes from the standard library that `push`
/// adds the character at the end and leaves the rest as it was.
#[verifier::external_body]
pub(crate) fn push_char(text: &mut String, c: char)
    ensures
        final(text)@ == old(text)@.push(c),
{
    text.push(c)
}

/// A run of `count` spaces.
pub open spec fn spaces(count: nat) -> Seq<char> {
    Seq::new(count, |i: int| ' ')
}

/// `text` followed by as many spaces as it takes to reach `width` characters;
/// `text` itself when it is already that wide.
pub open spec fn padded(text: Seq<char>, width: nat) -> Seq<char> {
    if text.len() >= width {
        text
    } else {
        text + spaces((width - text.len()) as nat)
    }
}

/// Appends `count` spaces.
pub(crate) fn push_spaces(text: &mut String, count: usize)
    ensures
        final(text)@ == old(text)@ + spaces(count as nat),
{
    let mut done: usize = 0;
    while done < count
        invariant
            done <= count,
            text@ == old(text)@ + spaces(done as nat),
        decreases count - done,
    {
        push_char(text, ' ');
        done = done + 1;
    }
}

/// Appends `piece`, left-aligned in a column of `width` characters.
pub(crate) fn push_padded(text: &mut String, piece: &str, width: usize)
    ensures
        final(text)@ == old(text)@ + padded(piece@, width as nat),
{
    text.append(piece);
    let used = piece.unicode_len();
    if used < width {
        push_spaces(text, width - used);
    }
}

} // verus!
