use vstd::prelude::*;

verus! {

/// The code page 437 glyph that the terminal library assigns to a character
/// (0 where the character has no glyph).
pub uninterp spec fn cp437(c: char) -> u16;

/// Calls `rltk::to_cp437`. Claimed of it: the result is the library's code page 437
/// glyph for `c`, and every printable ASCII character (space through tilde) keeps its
/// own code, as the library's match table shows.
#[verifier::external_body]
pub(crate) fn to_cp437(c: char) -> (r: u16)
    ensures
        r == cp437(c),
        (' ' <= c <= '~') ==> r == c as u16,
{
    rltk::to_cp437(c)
}

} // verus!
