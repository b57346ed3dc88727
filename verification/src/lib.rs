//! Block tags of a Liquid template compiler.
//!
//! A block tag (`{% if .. %} .. {% endif %}`) wraps a run of elements that the
//! lexer has already produced and is turned into one node that can be rendered.
//! This crate holds the layer through which a compiler admits such tags: the
//! interface of a block parser, the adapter that lets a plain function serve as
//! one, and the handle under which a registry keeps parsers of either kind.

pub mod compiler;
pub mod error;
pub mod interpreter;

pub use compiler::block::{
    BoxedBlockParser, FnBlockParser, FnParseBlock, ParseBlock, ParseBlockClone, Wrapped,
};
pub use compiler::{Element, LiquidOptions, Token};
pub use error::{Error, ErrorKind};
pub use interpreter::Renderable;
