//! Block parsers and the handle that a registry keeps them under.
//!
//! A block parser is a plain function or an object with state of its own.
//! [`BoxedBlockParser`] holds either and is a parser itself: it hands what it
//! is given to what it wraps and returns what comes back, unchanged. It is
//! generic in the type `F` of the functions and the type `P` of the boxed
//! objects; a registry fixes both, as a rule to [`FnParseBlock`] and to a
//! trait object.
//!
//! What a parser returns is stated as a relation, [`ParseBlock::parses`],
//! between inputs and results, in the way `call_ensures` states it for a
//! function. The contracts below say which relation a handle has, and the
//! proof functions at the end state what follows for handles and their
//! duplicates.

use crate::compiler::{Element, LiquidOptions, Token};
use crate::error::Error;
use crate::interpreter::Renderable;
use vstd::prelude::*;
use vstd::std_specs::convert::FromSpec;

verus! {

/// A parser of block tags.
///
/// A parser is shared between threads and is duplicated with the registry
/// that holds it, so it is `Send`, `Sync` and [`ParseBlockClone`].
pub trait ParseBlock: Send + Sync + ParseBlockClone {
    /// Whether `result` is what this parser may return for the block with the
    /// given tag name, argument tokens and body, under the given options.
    ///
    /// A parser that does not say promises nothing of its results.
    open spec fn parses(
        &self,
        tag_name: &str,
        arguments: &[Token],
        tokens: &[Element],
        options: &LiquidOptions,
        result: Result<Box<dyn Renderable>, Error>,
    ) -> bool {
        true
    }

    /// Parses one block: the tag of the given name, with the tokens that
    /// follow the name in the opening tag and the elements between the opening
    /// and the closing tag. The result is the node that stands for the block,
    /// or the reason why the block is refused.
    fn parse(
        &self,
        tag_name: &str,
        arguments: &[Token],
        tokens: &[Element],
        options: &LiquidOptions,
    ) -> (result: Result<Box<dyn Renderable>, Error>)
        ensures
            self.parses(tag_name, arguments, tokens, options, result),
    ;
}

/// Duplication of a parser behind a box.
///
/// A handle is cloned through this. Every parser that is `Clone` has it from
/// its `clone`; a parser type without a size of its own, such as a trait
/// object, brings its own.
pub trait ParseBlockClone {
    /// A duplicate of this parser, owned by the caller.
    fn clone_box(&self) -> Box<Self>;
}

impl<T> ParseBlockClone for T where T: 'static + ParseBlock + Clone {
    fn clone_box(&self) -> (copy: Box<T>)
        ensures
            cloned(*self, *copy),
    {
        Box::new(self.clone())
    }
}

/// Whether `copy` is what [`ParseBlockClone::clone_box`] may return for `parser`.
pub open spec fn boxed_clone<P: ParseBlockClone + ?Sized>(parser: &P, copy: Box<P>) -> bool {
    call_ensures(P::clone_box, (parser,), copy)
}

/// The functions that serve as block parsers. What such a function is given
/// is what [`ParseBlock::parse`] is given.
pub type FnParseBlock =
    fn(&str, &[Token], &[Element], &LiquidOptions) -> Result<Box<dyn Renderable>, Error>;

/// Adapts a function to [`ParseBlock`].
///
/// The function is one that may be called on every input: the adapter's
/// `parse` asks nothing of its caller.
pub struct FnBlockParser<F> where
    F: Fn(&str, &[Token], &[Element], &LiquidOptions) -> Result<Box<dyn Renderable>, Error>,
 {
    parser: F,
}

impl<F> FnBlockParser<F> where
    F: Fn(&str, &[Token], &[Element], &LiquidOptions) -> Result<Box<dyn Renderable>, Error>,
 {
    /// The function accepts every input.
    #[verifier::type_invariant]
    spec fn callable(&self) -> bool {
        forall|tag_name: &str, arguments: &[Token], tokens: &[Element], options: &LiquidOptions|
            call_requires(self.parser, (tag_name, arguments, tokens, options))
    }

    /// The wrapped function.
    pub closed spec fn view(&self) -> F {
        self.parser
    }

    /// The adapter around `parser`, a function without a precondition.
    pub fn new(parser: F) -> (adapter: Self)
        requires
            forall|tag_name: &str, arguments: &[Token], tokens: &[Element], options: &LiquidOptions|
                call_requires(parser, (tag_name, arguments, tokens, options)),
        ensures
            adapter@ == parser,
    {
        FnBlockParser { parser }
    }
}

impl<F> ParseBlock for FnBlockParser<F> where
    F: Fn(&str, &[Token], &[Element], &LiquidOptions) -> Result<Box<dyn Renderable>, Error>
        + Copy + Send + Sync + 'static,
 {
    open spec fn parses(
        &self,
        tag_name: &str,
        arguments: &[Token],
        tokens: &[Element],
        options: &LiquidOptions,
        result: Result<Box<dyn Renderable>, Error>,
    ) -> bool {
        call_ensures(self@, (tag_name, arguments, tokens, options), result)
    }

    fn parse(
        &self,
        tag_name: &str,
        arguments: &[Token],
        tokens: &[Element],
        options: &LiquidOptions,
    ) -> (result: Result<Box<dyn Renderable>, Error>)
        ensures
            call_ensures(self@, (tag_name, arguments, tokens, options), result),
    {
        proof {
            use_type_invariant(self);
        }
        (self.parser)(tag_name, arguments, tokens, options)
    }
}

impl<F> Clone for FnBlockParser<F> where
    F: Fn(&str, &[Token], &[Element], &LiquidOptions) -> Result<Box<dyn Renderable>, Error> + Copy,
 {
    fn clone(&self) -> (copy: Self)
        ensures
            copy@ == self@,
    {
        proof {
            use_type_invariant(self);
        }
        FnBlockParser { parser: self.parser }
    }
}

/// What a handle wraps: the model of a [`BoxedBlockParser`].
pub enum Wrapped<F, P: ?Sized> {
    /// A function.
    Function(F),
    /// An owned parser object.
    Object(Box<P>),
}

impl<F, P> Wrapped<F, P> where
    F: Fn(&str, &[Token], &[Element], &LiquidOptions) -> Result<Box<dyn Renderable>, Error>,
    P: ParseBlock + ?Sized,
 {
    /// Whether `result` is what the wrapped parser may return on these inputs.
    pub open spec fn parses(
        self,
        tag_name: &str,
        arguments: &[Token],
        tokens: &[Element],
        options: &LiquidOptions,
        result: Result<Box<dyn Renderable>, Error>,
    ) -> bool {
        match self {
            Wrapped::Function(f) => call_ensures(f, (tag_name, arguments, tokens, options), result),
            Wrapped::Object(p) => p.parses(tag_name, arguments, tokens, options, result),
        }
    }
}

enum BlockParserEnum<F, P: ?Sized> where
    F: Fn(&str, &[Token], &[Element], &LiquidOptions) -> Result<Box<dyn Renderable>, Error>,
 {
    Fun(FnBlockParser<F>),
    Heap(Box<P>),
}

/// A block parser of either kind, as a registry stores it.
///
/// It is made from a function, through [`FnBlockParser`], or from a boxed
/// object, and in no other way.
pub struct BoxedBlockParser<F, P: ?Sized> where
    F: Fn(&str, &[Token], &[Element], &LiquidOptions) -> Result<Box<dyn Renderable>, Error>,
 {
    parser: BlockParserEnum<F, P>,
}

impl<F, P: ?Sized> View for BoxedBlockParser<F, P> where
    F: Fn(&str, &[Token], &[Element], &LiquidOptions) -> Result<Box<dyn Renderable>, Error>,
 {
    type V = Wrapped<F, P>;

    closed spec fn view(&self) -> Wrapped<F, P> {
        match self.parser {
            BlockParserEnum::Fun(f) => Wrapped::Function(f@),
            BlockParserEnum::Heap(p) => Wrapped::Object(p),
        }
    }
}

impl<F, P> ParseBlock for BoxedBlockParser<F, P> where
    F: Fn(&str, &[Token], &[Element], &LiquidOptions) -> Result<Box<dyn Renderable>, Error>
        + Copy + Send + Sync + 'static,
    P: ParseBlock + ?Sized + 'static,
 {
    open spec fn parses(
        &self,
        tag_name: &str,
        arguments: &[Token],
        tokens: &[Element],
        options: &LiquidOptions,
        result: Result<Box<dyn Renderable>, Error>,
    ) -> bool {
        self@.parses(tag_name, arguments, tokens, options, result)
    }

    fn parse(
        &self,
        tag_name: &str,
        arguments: &[Token],
        tokens: &[Element],
        options: &LiquidOptions,
    ) -> (result: Result<Box<dyn Renderable>, Error>)
        ensures
            self@.parses(tag_name, arguments, tokens, options, result),
    {
        match &self.parser {
            BlockParserEnum::Fun(f) => f.parse(tag_name, arguments, tokens, options),
            BlockParserEnum::Heap(f) => f.parse(tag_name, arguments, tokens, options),
        }
    }
}

impl<F, P: ?Sized> BoxedBlockParser<F, P> where
    F: Fn(&str, &[Token], &[Element], &LiquidOptions) -> Result<Box<dyn Renderable>, Error>,
    P: ParseBlockClone,
 {
    /// Whether `copy` is a duplicate of this handle: a handle of the same kind,
    /// around the same function or around a duplicate of the object.
    pub open spec fn duplicated(&self, copy: &Self) -> bool {
        match (self@, copy@) {
            (Wrapped::Function(f), Wrapped::Function(g)) => f == g,
            (Wrapped::Object(p), Wrapped::Object(q)) => boxed_clone::<P>(&*p, q),
            _ => false,
        }
    }
}

impl<F, P: ?Sized> Clone for BoxedBlockParser<F, P> where
    F: Fn(&str, &[Token], &[Element], &LiquidOptions) -> Result<Box<dyn Renderable>, Error> + Copy,
    P: ParseBlockClone,
 {
    fn clone(&self) -> (copy: Self)
        ensures
            self.duplicated(&copy),
    {
        let parser = match &self.parser {
            BlockParserEnum::Fun(f) => BlockParserEnum::Fun(f.clone()),
            BlockParserEnum::Heap(p) => BlockParserEnum::Heap(p.clone_box()),
        };
        BoxedBlockParser { parser }
    }
}

impl<F, P: ?Sized> From<FnBlockParser<F>> for BoxedBlockParser<F, P> where
    F: Fn(&str, &[Token], &[Element], &LiquidOptions) -> Result<Box<dyn Renderable>, Error>,
 {
    /// The handle around a function.
    fn from(parser: FnBlockParser<F>) -> (handle: BoxedBlockParser<F, P>)
        ensures
            handle@ == Wrapped::<F, P>::Function(parser@),
    {
        let parser = BlockParserEnum::Fun(parser);
        Self { parser }
    }
}

impl<F, P: ?Sized> vstd::std_specs::convert::FromSpecImpl<FnBlockParser<F>> for BoxedBlockParser<F, P> where
    F: Fn(&str, &[Token], &[Element], &LiquidOptions) -> Result<Box<dyn Renderable>, Error>,
 {
    open spec fn obeys_from_spec() -> bool {
        true
    }

    closed spec fn from_spec(parser: FnBlockParser<F>) -> BoxedBlockParser<F, P> {
        BoxedBlockParser { parser: BlockParserEnum::Fun(parser) }
    }
}

impl<F, P: ?Sized> From<Box<P>> for BoxedBlockParser<F, P> where
    F: Fn(&str, &[Token], &[Element], &LiquidOptions) -> Result<Box<dyn Renderable>, Error>,
 {
    /// The handle around an owned parser object.
    fn from(parser: Box<P>) -> (handle: BoxedBlockParser<F, P>)
        ensures
            handle@ == Wrapped::<F, P>::Object(parser),
    {
        let parser = BlockParserEnum::Heap(parser);
        Self { parser }
    }
}

impl<F, P: ?Sized> vstd::std_specs::convert::FromSpecImpl<Box<P>> for BoxedBlockParser<F, P> where
    F: Fn(&str, &[Token], &[Element], &LiquidOptions) -> Result<Box<dyn Renderable>, Error>,
 {
    open spec fn obeys_from_spec() -> bool {
        true
    }

    closed spec fn from_spec(parser: Box<P>) -> BoxedBlockParser<F, P> {
        BoxedBlockParser { parser: BlockParserEnum::Heap(parser) }
    }
}

/// Whether two parsers may return the same results on all inputs.
pub open spec fn alike<A: ParseBlock + ?Sized, B: ParseBlock + ?Sized>(a: &A, b: &B) -> bool {
    forall|
        tag_name: &str,
        arguments: &[Token],
        tokens: &[Element],
        options: &LiquidOptions,
        result: Result<Box<dyn Renderable>, Error>,
    |
        #![trigger a.parses(tag_name, arguments, tokens, options, result)]
        #![trigger b.parses(tag_name, arguments, tokens, options, result)]
        a.parses(tag_name, arguments, tokens, options, result) == b.parses(
            tag_name,
            arguments,
            tokens,
            options,
            result,
        )
}

/// The handle made from a function may return, on any inputs, exactly what
/// the function may return on them.
pub proof fn lemma_function_pass_through<F, P: ?Sized>(
    parser: FnBlockParser<F>,
    tag_name: &str,
    arguments: &[Token],
    tokens: &[Element],
    options: &LiquidOptions,
    result: Result<Box<dyn Renderable>, Error>,
) where
    F: Fn(&str, &[Token], &[Element], &LiquidOptions) -> Result<Box<dyn Renderable>, Error>
        + Copy + Send + Sync + 'static,
    P: ParseBlock + 'static,

    ensures
        BoxedBlockParser::<F, P>::from_spec(parser)@ == Wrapped::<F, P>::Function(parser@),
        BoxedBlockParser::<F, P>::from_spec(parser).parses(
            tag_name,
            arguments,
            tokens,
            options,
            result,
        ) == call_ensures(parser@, (tag_name, arguments, tokens, options), result),
{
}

/// The handle made from a parser object may return, on any inputs, exactly
/// what the object may return on them.
pub proof fn lemma_object_pass_through<F, P: ?Sized>(
    parser: Box<P>,
    tag_name: &str,
    arguments: &[Token],
    tokens: &[Element],
    options: &LiquidOptions,
    result: Result<Box<dyn Renderable>, Error>,
) where
    F: Fn(&str, &[Token], &[Element], &LiquidOptions) -> Result<Box<dyn Renderable>, Error>
        + Copy + Send + Sync + 'static,
    P: ParseBlock + 'static,

    ensures
        BoxedBlockParser::<F, P>::from_spec(parser)@ == Wrapped::<F, P>::Object(parser),
        BoxedBlockParser::<F, P>::from_spec(parser).parses(
            tag_name,
            arguments,
            tokens,
            options,
            result,
        ) == parser.parses(tag_name, arguments, tokens, options, result),
{
}

/// A duplicate of a handle parses as the handle does: always where the handle
/// wraps a function, and where it wraps an object as far as the clone of that
/// object parses as the object does.
pub proof fn lemma_duplicate_parses_alike<F, P: ?Sized>(
    handle: BoxedBlockParser<F, P>,
    copy: BoxedBlockParser<F, P>,
) where
    F: Fn(&str, &[Token], &[Element], &LiquidOptions) -> Result<Box<dyn Renderable>, Error>
        + Copy + Send + Sync + 'static,
    P: ParseBlock + 'static,

    requires
        handle.duplicated(&copy),
        handle@ is Object ==> alike::<P, P>(&*handle@->Object_0, &*copy@->Object_0),
    ensures
        alike(&handle, &copy),
{
}

/// Where the wrapped parser can only fail with one message on some inputs,
/// whatever the handle returns on them is a failure with that message.
pub proof fn lemma_error_transparency<F, P: ?Sized>(
    handle: BoxedBlockParser<F, P>,
    tag_name: &str,
    arguments: &[Token],
    tokens: &[Element],
    options: &LiquidOptions,
    message: Seq<char>,
    result: Result<Box<dyn Renderable>, Error>,
) where
    F: Fn(&str, &[Token], &[Element], &LiquidOptions) -> Result<Box<dyn Renderable>, Error>
        + Copy + Send + Sync + 'static,
    P: ParseBlock + 'static,

    requires
        forall|wrapped: Result<Box<dyn Renderable>, Error>|
            #[trigger] handle@.parses(tag_name, arguments, tokens, options, wrapped) ==> (wrapped
                matches Err(error) && error.message@ == message),
        handle.parses(tag_name, arguments, tokens, options, result),
    ensures
        result matches Err(error) && error.message@ == message,
{
}

} // verus!
