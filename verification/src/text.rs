//! Specifications of the `String` editing operations that the reducer and
//! the formatters use.

use vstd::prelude::*;

verus! {

/// Contract assumed of `String::push`: the character is appended at the end
/// and nothing else changes.
pub assume_specification[ String::push ](s: &mut String, ch: char)
    ensures
        final(s)@ == old(s)@.push(ch),
;

/// Contract assumed of `String::pop`: on an empty string it returns `None` and
/// leaves the string empty; otherwise it removes the last character and
/// returns it.
pub assume_specification[ String::pop ](s: &mut String) -> (popped: Option<char>)
    ensures
        old(s)@.len() == 0 ==> popped is None && final(s)@ == old(s)@,
        old(s)@.len() > 0 ==> popped == Some(old(s)@.last()) && final(s)@ == old(s)@.drop_last(),
;

} // verus!
