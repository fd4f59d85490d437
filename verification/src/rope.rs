//! The contract under which this crate uses `ropey::Rope` as one line of text.
//!
//! Nothing here is proved: each item states what the rope does to the
//! characters it holds, and the rest of the crate is verified against that.

use ropey::Rope;
use vstd::prelude::*;

verus! {

#[verifier::external_type_specification]
#[verifier::external_body]
pub struct ExRope(Rope);

/// The characters that a rope holds, in order.
pub uninterp spec fn rope_chars(rope: Rope) -> Seq<char>;

/// `Rope::new` gives a rope without characters.
pub assume_specification[ Rope::new ]() -> (rope: Rope)
    ensures
        rope_chars(rope) == Seq::<char>::empty(),
;

/// `Rope::len_chars` counts the characters of the rope.
pub assume_specification[ Rope::len_chars ](rope: &Rope) -> (n: usize)
    ensures
        n == rope_chars(*rope).len(),
;

/// `Rope::insert_char` puts `ch` in front of the character at `char_idx`, or
/// at the end when `char_idx` is the length. It panics past the length.
pub assume_specification[ Rope::insert_char ](rope: &mut Rope, char_idx: usize, ch: char)
    requires
        char_idx <= rope_chars(*old(rope)).len(),
    ensures
        rope_chars(*final(rope)) == rope_chars(*old(rope)).insert(char_idx as int, ch),
;

/// `Rope::split_off` keeps the characters before `char_idx` in the rope and
/// returns those from `char_idx` on. It panics past the length.
pub assume_specification[ Rope::split_off ](rope: &mut Rope, char_idx: usize) -> (right: Rope)
    requires
        char_idx <= rope_chars(*old(rope)).len(),
    ensures
        rope_chars(*final(rope)) == rope_chars(*old(rope)).subrange(0, char_idx as int),
        rope_chars(right) == rope_chars(*old(rope)).subrange(
            char_idx as int,
            rope_chars(*old(rope)).len() as int,
        ),
;

/// `Rope::append` puts the characters of `other` behind those of the rope.
pub assume_specification[ Rope::append ](rope: &mut Rope, other: Rope)
    ensures
        rope_chars(*final(rope)) == rope_chars(*old(rope)) + rope_chars(other),
;

/// `Rope::remove` on the char range `start..end` takes those characters out
/// and keeps the others in order. It panics when `start > end` or when `end`
/// is past the length.
#[verifier::external_body]
pub(crate) fn rope_remove(rope: &mut Rope, start: usize, end: usize)
    requires
        start <= end <= rope_chars(*old(rope)).len(),
    ensures
        rope_chars(*final(rope)) == rope_chars(*old(rope)).subrange(0, start as int)
            + rope_chars(*old(rope)).subrange(end as int, rope_chars(*old(rope)).len() as int),
{
    rope.remove(start..end);
}

/// `String::from(&Rope)` collects the rope's chunks into one string, which
/// then holds the same characters.
#[verifier::external_body]
pub(crate) fn rope_to_string(rope: &Rope) -> (text: String)
    ensures
        text@ == rope_chars(*rope),
{
    String::from(rope)
}

} // verus!
