//! Comparing text with the fixed words of the language.

use vstd::prelude::*;

verus! {

/// Whether `s` reads exactly as `literal`.
pub fn is_text(s: &String, literal: &'static str) -> (r: bool)
    ensures
        r == (s@ == literal@),
{
    *s == String::from_str(literal)
}

} // verus!
