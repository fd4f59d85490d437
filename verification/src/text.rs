//! The contract under which this crate edits a `String` character by
//! character. Nothing here is proved.

use vstd::prelude::*;

verus! {

/// `String::push` appends the character to the end of the string.
pub assume_specification[ String::push ](text: &mut String, ch: char)
    ensures
        final(text)@ == old(text)@.push(ch),
;

/// `String::pop` takes the last character off the string and returns it;
/// on an empty string it returns `None` and changes nothing.
pub assume_specification[ String::pop ](text: &mut String) -> (ch: Option<char>)
    ensures
        old(text)@.len() == 0 ==> ch is None && final(text)@ == old(text)@,
        old(text)@.len() > 0 ==> ch == Some(old(text)@.last()) && final(text)@ == old(text)@.drop_last(),
;

/// `String::clear` leaves the string without characters.
pub assume_specification[ String::clear ](text: &mut String)
    ensures
        final(text)@ == Seq::<char>::empty(),
;

} // verus!
