//! Lexical and syntactic front end of a small systems-level description
//! language: a tokenizer with one token of lookahead, and a family of grammar
//! nodes (expressions, types, statements) that parse themselves from it by
//! recursive descent.
//!
//! Every executable function is verified against a mathematical model of the
//! token stream ([`lex::Stream`]) and of the grammar ([`ast::Grammar::parsed`]).

use vstd::prelude::*;

pub mod ast;
pub mod lex;

pub use ast::parse;
pub use lex::tokenize;

verus! {

/// A range of source locations.
///
/// Positions are not tracked yet: every span produced by this crate is
/// [`Span::origin`].
#[derive(Debug, Clone, Copy, PartialEq, Eq, Hash)]
pub struct Span {
    /// Location of upper-left-most char `[line, column]`.
    pub min: [usize; 2],
    /// Location of bottom-right-most char `[line, column]`.
    pub max: [usize; 2],
}

impl Span {
    /// The span that starts and ends at line 0, column 0.
    pub open spec fn origin() -> Span {
        Span { min: [0, 0], max: [0, 0] }
    }
}

impl Default for Span {
    fn default() -> (span: Self)
        ensures
            span == Span::origin(),
    {
        Span { min: [0, 0], max: [0, 0] }
    }
}

/// Marks the types that carry a [`Span`]: every token and the token sum type.
pub trait Spanned {

}

} // verus!
