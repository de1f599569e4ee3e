use vstd::prelude::*;

pub mod escape;
pub mod glyph;
pub mod grid;

verus! {

} // verus!
