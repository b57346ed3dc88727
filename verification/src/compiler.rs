//! What a block parser is given: tokens, elements and the compiler's options.

use vstd::prelude::*;

pub mod block;

verus! {

/// One lexical unit of a tag, as it stands in the template.
#[derive(Clone, Debug, PartialEq, Eq)]
pub struct Token {
    pub text: String,
}

/// One piece of a block's body: a tag, a run of text, or a nested block.
#[derive(Clone, Debug, PartialEq, Eq)]
pub struct Element {
    pub text: String,
}

/// The configuration that every parser of one compiler session reads.
#[derive(Clone, Debug, PartialEq, Eq)]
pub struct LiquidOptions {
    /// Names of the registered block tags.
    pub blocks: Vec<String>,
    /// Names of the registered tags that have no body.
    pub tags: Vec<String>,
}

} // verus!
