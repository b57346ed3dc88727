//! What parsing produces.

use vstd::prelude::*;

verus! {

/// A node of a parsed template, which yields text when the template is rendered.
///
/// Parsers build nodes and hand them on. Nothing in this crate renders one.
pub trait Renderable: Send + Sync {
    /// The text that this node contributes to the output.
    fn render(&self) -> String;
}

} // verus!
