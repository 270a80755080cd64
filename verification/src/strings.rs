//! Small string helpers shared by the renderer and the style rules.

use vstd::prelude::*;
use crate::layout::text_width;

verus! {

/// `String::push` appends the given character to the end of the string.
pub assume_specification[ std::string::String::push ](s: &mut std::string::String, ch: char)
    ensures
        final(s)@ == old(s)@.push(ch),
;

/// The number of columns that `s` takes: its length in characters.
pub fn width_of(s: &str) -> (res: usize)
    ensures
        res == text_width(s@),
{
    s.unicode_len()
}

} // verus!
