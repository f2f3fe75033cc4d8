//! Grammar nodes: types that parse themselves from a token stream.
//!
//! Every node implements [`Grammar`]. A token is the smallest node; a product
//! node parses its fields in the order of their declaration; a sum type
//! ([`expressions::Expression`], [`types::Type`], [`statements::Statement`])
//! chooses its variant by the next token, which it looks at without consuming
//! it. No decision needs more than that one token, and none is taken back.

use crate::lex::{tokenize, Stream, Tokenizer};
use vstd::prelude::*;

mod error;
pub mod laws;
pub mod expressions;
pub mod leaf;
pub mod statements;
pub mod types;

pub use error::Error;
pub use vstd::view::DeepView;

verus! {

/// Parses `input` as a node of type `G`.
///
/// The result is what [`Grammar::parsed`] gives for `G` on the stream that
/// starts at the beginning of `input`. Tokens that follow the node are left
/// unread.
pub fn parse<'input, G>(input: &'input str) -> (r: Result<G, Error<'input>>) where
    G: Grammar<'input>,

    ensures
        models(G::parsed(Stream::start(input)).0, r),
{
    let mut tokens = tokenize(input);
    let mut context = Context::default();
    G::parse(&mut tokens, &mut context)
}

/// Whether `model` is the model of the result `r` of a parser: the model of
/// the node, where `r` is a node, and the same error, where `r` is an error.
pub open spec fn models<'input, G: DeepView>(
    model: Result<G::V, Error<'input>>,
    r: Result<G, Error<'input>>,
) -> bool {
    match r {
        Ok(node) => model == Ok::<G::V, Error<'input>>(node.deep_view()),
        Err(e) => model == Err::<G::V, Error<'input>>(e),
    }
}

/// A type that can be parsed from a token stream.
///
/// The model of a node is its [`DeepView`]: the node itself, with the
/// sequences in it as mathematical sequences.
pub trait Grammar<'input>: Sized + DeepView {
    /// What parsing gives on a stream in state `s`: the model of the node or
    /// the error, and the state in which the stream is left.
    spec fn parsed(s: Stream<'input>) -> (Result<Self::V, Error<'input>>, Stream<'input>);

    /// Parses a node from the front of `tokens`.
    fn parse(tokens: &mut Tokenizer<'input>, context: &mut Context) -> (r: Result<
        Self,
        Error<'input>,
    >)
        ensures
            final(tokens)@ == Self::parsed(old(tokens)@).1,
            models(Self::parsed(old(tokens)@).0, r),
    ;
}

/// A boxed node parses as the node in the box.
impl<'input, G: Grammar<'input>> Grammar<'input> for Box<G> {
    open spec fn parsed(s: Stream<'input>) -> (Result<G::V, Error<'input>>, Stream<'input>) {
        G::parsed(s)
    }

    fn parse(tokens: &mut Tokenizer<'input>, context: &mut Context) -> (r: Result<
        Self,
        Error<'input>,
    >) {
        match G::parse(tokens, context) {
            Ok(node) => Ok(Box::new(node)),
            Err(e) => Err(e),
        }
    }
}

/// The empty node: parses without consuming anything, and never fails.
impl<'input> Grammar<'input> for () {
    open spec fn parsed(s: Stream<'input>) -> (Result<(), Error<'input>>, Stream<'input>) {
        (Ok(()), s)
    }

    fn parse(_tokens: &mut Tokenizer<'input>, _context: &mut Context) -> (r: Result<
        Self,
        Error<'input>,
    >) {
        Ok(())
    }
}

/// What parsing a sequence of nodes of type `S` gives on a stream in state
/// `s`: the nodes that follow one another, up to the first that is absent.
/// The first error ends the sequence and is the result.
///
/// The sequence goes on behind a node only where the stream has moved; a
/// node that is present and has consumed nothing is the last of the
/// sequence.
pub open spec fn repeated<'input, S>(s: Stream<'input>) -> (
    Result<Seq<S::V>, Error<'input>>,
    Stream<'input>,
) where S: DeepView, Option<S>: Grammar<'input> + DeepView<V = Option<S::V>>
    decreases s.measure(),
{
    match Option::<S>::parsed(s) {
        (Err(e), rest) => (Err(e), rest),
        (Ok(None), rest) => (Ok(Seq::empty()), rest),
        (Ok(Some(first)), s1) => if s1.measure() < s.measure() {
            match repeated::<S>(s1) {
                (Ok(others), rest) => (Ok(seq![first] + others), rest),
                (Err(e), rest) => (Err(e), rest),
            }
        } else {
            (Ok(seq![first]), s1)
        },
    }
}

/// A sequence of nodes: as many as follow one another. The type of the
/// nodes says, by its optional parser, where the sequence ends.
impl<'input, S> Grammar<'input> for Vec<S> where
    S: DeepView,
    Option<S>: Grammar<'input> + DeepView<V = Option<S::V>>,
 {
    open spec fn parsed(s: Stream<'input>) -> (Result<Seq<S::V>, Error<'input>>, Stream<'input>) {
        repeated::<S>(s)
    }

    fn parse(tokens: &mut Tokenizer<'input>, context: &mut Context) -> (r: Result<
        Self,
        Error<'input>,
    >) {
        let mut out: Vec<S> = Vec::new();
        let ghost start = tokens@;
        loop
            invariant
                start == old(tokens)@,
                repeated::<S>(start).1 == repeated::<S>(tokens@).1,
                repeated::<S>(start).0 == (match repeated::<S>(tokens@).0 {
                    Ok(others) => Ok::<Seq<S::V>, Error<'input>>(out.deep_view() + others),
                    Err(e) => Err(e),
                }),
            decreases tokens@.measure(),
        {
            let ghost parsed = out.deep_view();
            let ended = tokens.is_ended();
            let left = tokens.left();
            match Option::<S>::parse(tokens, context) {
                Err(e) => {
                    return Err(e);
                },
                Ok(None) => {
                    proof {
                        assert(parsed + Seq::<S::V>::empty() =~= parsed);
                    }
                    return Ok(out);
                },
                Ok(Some(node)) => {
                    let ghost first = node.deep_view();
                    out.push(node);
                    proof {
                        assert(out.deep_view() =~= parsed.push(first));
                        assert(parsed + seq![first] =~= parsed.push(first));
                        if repeated::<S>(tokens@).0 is Ok {
                            let others = repeated::<S>(tokens@).0->Ok_0;
                            assert(parsed + (seq![first] + others) =~= parsed.push(first)
                                + others);
                        }
                    }
                    let moved = !ended && (tokens.is_ended() || tokens.left() < left);
                    if !moved {
                        return Ok(out);
                    }
                },
            }
        }
    }
}

/// State handed through every parse. It holds nothing yet, and no parser
/// reads it.
pub struct Context {}

impl Default for Context {
    fn default() -> (context: Self)
        ensures
            context == (Context {  }),
    {
        Context {  }
    }
}

} // verus!
