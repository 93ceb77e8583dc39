//! Synthesis of a union type from a batch of declared types: one variant for
//! each declared type, and a conversion from each declared type into the
//! union.
//!
//! The batch is given as source text and its expansion is returned as source
//! text. Reading the text is left to `syn`; what is made of it is verified.

use vstd::prelude::*;

pub mod annotation;
pub mod batch;
pub mod declared;
pub mod diagnostic;
pub mod laws;
pub mod parse;
pub mod syntax;
pub mod text;

pub use annotation::{Annotation, Form};
pub use batch::{Conversion, EnumItem, Enumify, Expansion};
pub use declared::{Enumifiable, Shape, Variant};
pub use diagnostic::Diagnostic;

use crate::batch::{expanded, expansion_text};
use crate::diagnostic::markers;
use crate::parse::parsed;

verus! {

/// The text that a batch written as `source` expands to: the expansion of the
/// batch that it holds, or, where it holds none, the markers of the error.
pub open spec fn enumified(source: Seq<char>) -> Seq<char> {
    match parsed(source) {
        Ok(batch) => expansion_text(expanded(batch)),
        Err(messages) => markers(messages),
    }
}

/// Expands the batch written as `source`. A text that is no batch yields
/// nothing but the markers of its error; errors of single declared types are
/// reported after everything that could be emitted.
pub fn enumify(source: &str) -> (text: String)
    ensures
        text@ == enumified(source@),
{
    match Enumify::parse(source) {
        Ok(batch) => batch.generate_tokens(),
        Err(diagnostic) => diagnostic.to_compile_error(),
    }
}

} // verus!
