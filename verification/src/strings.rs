//! What the engine takes on trust of the standard library's strings: the
//! methods of `String` and `str` that it calls and that come without a
//! verified contract.

use vstd::prelude::*;

verus! {

/// [`String::push`] appends the given character to the end of the string.
pub assume_specification[ String::push ](s: &mut String, ch: char)
    ensures
        final(s)@ == old(s)@.push(ch),
;

/// What [`str::to_lowercase`] returns for the text `s`.
pub uninterp spec fn lowercase(s: Seq<char>) -> Seq<char>;

/// [`str::to_lowercase`] returns the lowercase equivalent of the text as a
/// new string. The mapping follows Unicode and is named, not spelled out.
pub assume_specification[ str::to_lowercase ](s: &str) -> (r: String)
    ensures
        r@ == lowercase(s@),
;

/// [`String::clear`] truncates the string, removing all contents.
pub assume_specification[ String::clear ](s: &mut String)
    ensures
        final(s)@ == Seq::<char>::empty(),
;

/// [`String::pop`] removes the last character from the string and returns
/// it, or returns `None` if the string is empty.
pub assume_specification[ String::pop ](s: &mut String) -> (r: Option<char>)
    ensures
        old(s)@.len() == 0 ==> r is None && final(s)@ == old(s)@,
        old(s)@.len() > 0 ==> r == Some(old(s)@.last()) && final(s)@ == old(s)@.drop_last(),
;

} // verus!
