//! A structural, type-checked model of a low-level textual
//! intermediate-representation language: a tree of types, constants and named
//! values, together with the canonical rules that render each node into the
//! exact textual syntax the target assembler expects.

use vstd::prelude::*;

pub mod constant;
pub mod identifier;
pub mod reference;
pub mod text;
pub mod types;

verus! {

/// Anything with a canonical textual form.
pub trait IRElement {
    /// The canonical text, as a mathematical sequence of characters.
    spec fn spec_render(&self) -> Seq<char>;

    /// Renders the canonical text.
    fn render(&self) -> (s: String)
        ensures
            s@ == self.spec_render(),
    ;
}

} // verus!
