//! Expression nodes.

use super::{Context, Error, Grammar};
use crate::lex::laws::lemma_tail_measure;
use crate::lex::{tokens, Stream, Token, TokenKind, Tokenizer};
use vstd::prelude::*;

verus! {

/// Marks the nodes that may stand where an expression is expected.
pub trait ExpressionGrammar<'input>: Grammar<'input> {
}

impl<'input, E: ExpressionGrammar<'input>> ExpressionGrammar<'input> for Box<E> {
}

/// An expression.
///
/// Parsing chooses among the literals, the identifier and the parenthesis
/// by the next token. The other variants are not reached by parsing an
/// `Expression`: they are parsed as the node types of their own.
#[derive(Debug)]
pub enum Expression<'input> {
    Parenthesis(Parenthesis<'input, Box<Expression<'input>>>),
    Index(Index<'input, Box<Expression<'input>>, Box<Expression<'input>>>),
    Call(Call<'input, Box<Expression<'input>>>),
    Number(Number<'input>),
    Str(Str<'input>),
    Identifier(Identifier<'input>),
    Add(Add<'input, Box<Expression<'input>>, Box<Expression<'input>>>),
    Subtract(Subtract<'input, Box<Expression<'input>>, Box<Expression<'input>>>),
    Multiply(Multiply<'input, Box<Expression<'input>>, Box<Expression<'input>>>),
    Divide(Divide<'input, Box<Expression<'input>>, Box<Expression<'input>>>),
}

impl<'input> DeepView for Expression<'input> {
    type V = Self;

    open spec fn deep_view(&self) -> Self {
        *self
    }
}

impl<'input> ExpressionGrammar<'input> for Expression<'input> {
}

/// What parsing an [`Expression`] gives on a stream in state `s`.
///
/// The next token decides, and is consumed only by the variant it selects:
/// - a number literal, a string literal or an identifier is that node;
/// - an opening parenthesis starts a [`Parenthesis`] around an expression;
/// - at the end of the input, and on a stream that has ended, the error is
///   [`Error::TokenizerEmpty`], and nothing is consumed;
/// - any other token is consumed and is the error
///   [`Error::UnexpectedToken`];
/// - a lexical error is consumed and handed on.
pub open spec fn expression_parsed<'input>(s: Stream<'input>) -> (
    Result<Expression<'input>, Error<'input>>,
    Stream<'input>,
)
    decreases s.measure(), 1nat,
{
    match s.head() {
        None | Some(Ok(TokenKind::EOF)) => (Err(Error::TokenizerEmpty), s),
        Some(Err(e)) => (Err(Error::Lex(e)), s.tail()),
        Some(Ok(TokenKind::Number)) => match Number::parsed(s) {
            (Ok(node), rest) => (Ok(Expression::Number(node)), rest),
            (Err(e), rest) => (Err(e), rest),
        },
        Some(Ok(TokenKind::Str)) => match Str::parsed(s) {
            (Ok(node), rest) => (Ok(Expression::Str(node)), rest),
            (Err(e), rest) => (Err(e), rest),
        },
        Some(Ok(TokenKind::Identifier)) => match Identifier::parsed(s) {
            (Ok(node), rest) => (Ok(Expression::Identifier(node)), rest),
            (Err(e), rest) => (Err(e), rest),
        },
        Some(Ok(TokenKind::ParLeft)) => match parenthesis_parsed(s) {
            (Ok(node), rest) => (Ok(Expression::Parenthesis(node)), rest),
            (Err(e), rest) => (Err(e), rest),
        },
        Some(Ok(kind)) => (Err(Error::UnexpectedToken(Token::of(kind, s.source))), s.tail()),
    }
}

/// What parsing a [`Parenthesis`] around an [`Expression`] gives on a stream
/// in state `s`: its fields in their order, up to the first that fails.
pub open spec fn parenthesis_parsed<'input>(s: Stream<'input>) -> (
    Result<Parenthesis<'input, Box<Expression<'input>>>, Error<'input>>,
    Stream<'input>,
)
    decreases s.measure(), 0nat,
{
    match tokens::ParLeft::parsed(s) {
        (Err(e), s1) => (Err(e), s1),
        (Ok(par_left), s1) => match {
            proof {
                lemma_tail_measure(s);
            }
            expression_parsed(s1)
        } {
            (Err(e), s2) => (Err(e), s2),
            (Ok(inner), s2) => match tokens::ParRight::parsed(s2) {
                (Err(e), s3) => (Err(e), s3),
                (Ok(par_right), s3) => (
                    Ok(
                        Parenthesis {
                            par_left,
                            inner: Box::new(inner),
                            par_right,
                        },
                    ),
                    s3,
                ),
            },
        },
    }
}

/// Parses a [`Parenthesis`] around an [`Expression`] from the front of
/// `tokens`.
pub fn parse_parenthesis<'input>(
    tokens: &mut Tokenizer<'input>,
    context: &mut Context,
) -> (r: Result<Parenthesis<'input, Box<Expression<'input>>>, Error<'input>>)
    ensures
        final(tokens)@ == parenthesis_parsed(old(tokens)@).1,
        r == parenthesis_parsed(old(tokens)@).0,
    decreases old(tokens)@.measure(), 0nat,
{
    let par_left = tokens::ParLeft::parse(tokens, context)?;
    proof {
        lemma_tail_measure(old(tokens)@);
    }
    let inner = Box::new(parse_expression(tokens, context)?);
    let par_right = tokens::ParRight::parse(tokens, context)?;
    Ok(Parenthesis { par_left, inner, par_right })
}

/// Parses an [`Expression`] from the front of `tokens`.
pub fn parse_expression<'input>(tokens: &mut Tokenizer<'input>, context: &mut Context) -> (r:
    Result<Expression<'input>, Error<'input>>)
    ensures
        final(tokens)@ == expression_parsed(old(tokens)@).1,
        r == expression_parsed(old(tokens)@).0,
    decreases old(tokens)@.measure(), 1nat,
{
    match tokens.peek_kind() {
        None | Some(Ok(TokenKind::EOF)) => Err(Error::TokenizerEmpty),
        Some(Ok(TokenKind::Number)) => Ok(Expression::Number(Number::parse(tokens, context)?)),
        Some(Ok(TokenKind::Str)) => Ok(Expression::Str(Str::parse(tokens, context)?)),
        Some(Ok(TokenKind::Identifier)) => Ok(
            Expression::Identifier(Identifier::parse(tokens, context)?),
        ),
        Some(Ok(TokenKind::ParLeft)) => Ok(
            Expression::Parenthesis(parse_parenthesis(tokens, context)?),
        ),
        Some(Ok(_)) => match tokens.next() {
            Some(Ok(token)) => Err(Error::UnexpectedToken(token)),
            Some(Err(e)) => Err(Error::Lex(e)),
            None => Err(Error::TokenizerEmpty),
        },
        Some(Err(_)) => match tokens.next() {
            Some(Ok(token)) => Err(Error::UnexpectedToken(token)),
            Some(Err(e)) => Err(Error::Lex(e)),
            None => Err(Error::TokenizerEmpty),
        },
    }
}

impl<'input> Grammar<'input> for Expression<'input> {
    open spec fn parsed(s: Stream<'input>) -> (Result<Self, Error<'input>>, Stream<'input>) {
        expression_parsed(s)
    }

    fn parse(tokens: &mut Tokenizer<'input>, context: &mut Context) -> (r: Result<
        Self,
        Error<'input>,
    >) {
        parse_expression(tokens, context)
    }
}

/// `(inner)`: an expression between parentheses.
#[derive(Debug)]
pub struct Parenthesis<'input, E> {
    pub par_left: tokens::ParLeft<'input>,
    pub inner: E,
    pub par_right: tokens::ParRight<'input>,
}

impl<'input, E: DeepView> DeepView for Parenthesis<'input, E> {
    type V = Parenthesis<'input, E::V>;

    open spec fn deep_view(&self) -> Parenthesis<'input, E::V> {
        Parenthesis {
            par_left: self.par_left,
            inner: self.inner.deep_view(),
            par_right: self.par_right,
        }
    }
}

impl<'input, E> Grammar<'input> for Parenthesis<'input, E> where
    E: ExpressionGrammar<'input>,
 {
    open spec fn parsed(s: Stream<'input>) -> (
        Result<Parenthesis<'input, E::V>, Error<'input>>,
        Stream<'input>,
    ) {
        match tokens::ParLeft::parsed(s) {
            (Err(e), s1) => (Err(e), s1),
            (Ok(par_left), s1) => match E::parsed(s1) {
                (Err(e), s2) => (Err(e), s2),
                (Ok(inner), s2) => match tokens::ParRight::parsed(s2) {
                    (Err(e), s3) => (Err(e), s3),
                    (Ok(par_right), s3) => (Ok(Parenthesis { par_left, inner, par_right }), s3),
                },
            },
        }
    }

    fn parse(tokens: &mut Tokenizer<'input>, context: &mut Context) -> (r: Result<
        Self,
        Error<'input>,
    >) {
        let par_left = tokens::ParLeft::parse(tokens, context)?;
        let inner = E::parse(tokens, context)?;
        let par_right = tokens::ParRight::parse(tokens, context)?;
        Ok(Parenthesis { par_left, inner, par_right })
    }
}

impl<'input, E> ExpressionGrammar<'input> for Parenthesis<'input, E> where
    E: ExpressionGrammar<'input>,
 {
}

/// A number literal.
#[derive(Debug)]
pub struct Number<'input>(pub tokens::Number<'input>);

impl<'input> DeepView for Number<'input> {
    type V = Self;

    open spec fn deep_view(&self) -> Self {
        *self
    }
}

impl<'input> Grammar<'input> for Number<'input> {
    open spec fn parsed(s: Stream<'input>) -> (Result<Self, Error<'input>>, Stream<'input>) {
        match tokens::Number::parsed(s) {
            (Ok(token), rest) => (Ok(Number(token)), rest),
            (Err(e), rest) => (Err(e), rest),
        }
    }

    fn parse(tokens: &mut Tokenizer<'input>, context: &mut Context) -> (r: Result<
        Self,
        Error<'input>,
    >) {
        Ok(Number(tokens::Number::parse(tokens, context)?))
    }
}

impl<'input> ExpressionGrammar<'input> for Number<'input> {
}

/// A string literal.
#[derive(Debug)]
pub struct Str<'input>(pub tokens::Str<'input>);

impl<'input> DeepView for Str<'input> {
    type V = Self;

    open spec fn deep_view(&self) -> Self {
        *self
    }
}

impl<'input> Grammar<'input> for Str<'input> {
    open spec fn parsed(s: Stream<'input>) -> (Result<Self, Error<'input>>, Stream<'input>) {
        match tokens::Str::parsed(s) {
            (Ok(token), rest) => (Ok(Str(token)), rest),
            (Err(e), rest) => (Err(e), rest),
        }
    }

    fn parse(tokens: &mut Tokenizer<'input>, context: &mut Context) -> (r: Result<
        Self,
        Error<'input>,
    >) {
        Ok(Str(tokens::Str::parse(tokens, context)?))
    }
}

impl<'input> ExpressionGrammar<'input> for Str<'input> {
}

/// An identifier.
#[derive(Debug)]
pub struct Identifier<'input>(pub tokens::Identifier<'input>);

impl<'input> DeepView for Identifier<'input> {
    type V = Self;

    open spec fn deep_view(&self) -> Self {
        *self
    }
}

impl<'input> Grammar<'input> for Identifier<'input> {
    open spec fn parsed(s: Stream<'input>) -> (Result<Self, Error<'input>>, Stream<'input>) {
        match tokens::Identifier::parsed(s) {
            (Ok(token), rest) => (Ok(Identifier(token)), rest),
            (Err(e), rest) => (Err(e), rest),
        }
    }

    fn parse(tokens: &mut Tokenizer<'input>, context: &mut Context) -> (r: Result<
        Self,
        Error<'input>,
    >) {
        Ok(Identifier(tokens::Identifier::parse(tokens, context)?))
    }
}

impl<'input> ExpressionGrammar<'input> for Identifier<'input> {
}

/// `left + right`
#[derive(Debug)]
pub struct Add<'input, L, R> {
    pub left: L,
    pub plus: tokens::Plus<'input>,
    pub right: R,
}

impl<'input, L: DeepView, R: DeepView> DeepView for Add<'input, L, R> {
    type V = Add<'input, L::V, R::V>;

    open spec fn deep_view(&self) -> Add<'input, L::V, R::V> {
        Add {
            left: self.left.deep_view(),
            plus: self.plus,
            right: self.right.deep_view(),
        }
    }
}

impl<'input, L, R> Grammar<'input> for Add<'input, L, R> where
    L: ExpressionGrammar<'input>,
    R: ExpressionGrammar<'input>,
 {
    open spec fn parsed(s: Stream<'input>) -> (
        Result<Add<'input, L::V, R::V>, Error<'input>>,
        Stream<'input>,
    ) {
        match L::parsed(s) {
            (Err(e), s1) => (Err(e), s1),
            (Ok(left), s1) => match tokens::Plus::parsed(s1) {
                (Err(e), s2) => (Err(e), s2),
                (Ok(plus), s2) => match R::parsed(s2) {
                    (Err(e), s3) => (Err(e), s3),
                    (Ok(right), s3) => (Ok(Add { left, plus, right }), s3),
                },
            },
        }
    }

    fn parse(tokens: &mut Tokenizer<'input>, context: &mut Context) -> (r: Result<
        Self,
        Error<'input>,
    >) {
        let left = L::parse(tokens, context)?;
        let plus = tokens::Plus::parse(tokens, context)?;
        let right = R::parse(tokens, context)?;
        Ok(Add { left, plus, right })
    }
}

impl<'input, L, R> ExpressionGrammar<'input> for Add<'input, L, R> where
    L: ExpressionGrammar<'input>,
    R: ExpressionGrammar<'input>,
 {
}

/// `left - right`
#[derive(Debug)]
pub struct Subtract<'input, L, R> {
    pub left: L,
    pub minus: tokens::Minus<'input>,
    pub right: R,
}

impl<'input, L: DeepView, R: DeepView> DeepView for Subtract<'input, L, R> {
    type V = Subtract<'input, L::V, R::V>;

    open spec fn deep_view(&self) -> Subtract<'input, L::V, R::V> {
        Subtract {
            left: self.left.deep_view(),
            minus: self.minus,
            right: self.right.deep_view(),
        }
    }
}

impl<'input, L, R> Grammar<'input> for Subtract<'input, L, R> where
    L: ExpressionGrammar<'input>,
    R: ExpressionGrammar<'input>,
 {
    open spec fn parsed(s: Stream<'input>) -> (
        Result<Subtract<'input, L::V, R::V>, Error<'input>>,
        Stream<'input>,
    ) {
        match L::parsed(s) {
            (Err(e), s1) => (Err(e), s1),
            (Ok(left), s1) => match tokens::Minus::parsed(s1) {
                (Err(e), s2) => (Err(e), s2),
                (Ok(minus), s2) => match R::parsed(s2) {
                    (Err(e), s3) => (Err(e), s3),
                    (Ok(right), s3) => (Ok(Subtract { left, minus, right }), s3),
                },
            },
        }
    }

    fn parse(tokens: &mut Tokenizer<'input>, context: &mut Context) -> (r: Result<
        Self,
        Error<'input>,
    >) {
        let left = L::parse(tokens, context)?;
        let minus = tokens::Minus::parse(tokens, context)?;
        let right = R::parse(tokens, context)?;
        Ok(Subtract { left, minus, right })
    }
}

impl<'input, L, R> ExpressionGrammar<'input> for Subtract<'input, L, R> where
    L: ExpressionGrammar<'input>,
    R: ExpressionGrammar<'input>,
 {
}

/// `left * right`
#[derive(Debug)]
pub struct Multiply<'input, L, R> {
    pub left: L,
    pub star: tokens::Star<'input>,
    pub right: R,
}

impl<'input, L: DeepView, R: DeepView> DeepView for Multiply<'input, L, R> {
    type V = Multiply<'input, L::V, R::V>;

    open spec fn deep_view(&self) -> Multiply<'input, L::V, R::V> {
        Multiply {
            left: self.left.deep_view(),
            star: self.star,
            right: self.right.deep_view(),
        }
    }
}

impl<'input, L, R> Grammar<'input> for Multiply<'input, L, R> where
    L: ExpressionGrammar<'input>,
    R: ExpressionGrammar<'input>,
 {
    open spec fn parsed(s: Stream<'input>) -> (
        Result<Multiply<'input, L::V, R::V>, Error<'input>>,
        Stream<'input>,
    ) {
        match L::parsed(s) {
            (Err(e), s1) => (Err(e), s1),
            (Ok(left), s1) => match tokens::Star::parsed(s1) {
                (Err(e), s2) => (Err(e), s2),
                (Ok(star), s2) => match R::parsed(s2) {
                    (Err(e), s3) => (Err(e), s3),
                    (Ok(right), s3) => (Ok(Multiply { left, star, right }), s3),
                },
            },
        }
    }

    fn parse(tokens: &mut Tokenizer<'input>, context: &mut Context) -> (r: Result<
        Self,
        Error<'input>,
    >) {
        let left = L::parse(tokens, context)?;
        let star = tokens::Star::parse(tokens, context)?;
        let right = R::parse(tokens, context)?;
        Ok(Multiply { left, star, right })
    }
}

impl<'input, L, R> ExpressionGrammar<'input> for Multiply<'input, L, R> where
    L: ExpressionGrammar<'input>,
    R: ExpressionGrammar<'input>,
 {
}

/// `left / right`
#[derive(Debug)]
pub struct Divide<'input, L, R> {
    pub left: L,
    pub forward_slash: tokens::ForwardSlash<'input>,
    pub right: R,
}

impl<'input, L: DeepView, R: DeepView> DeepView for Divide<'input, L, R> {
    type V = Divide<'input, L::V, R::V>;

    open spec fn deep_view(&self) -> Divide<'input, L::V, R::V> {
        Divide {
            left: self.left.deep_view(),
            forward_slash: self.forward_slash,
            right: self.right.deep_view(),
        }
    }
}

impl<'input, L, R> Grammar<'input> for Divide<'input, L, R> where
    L: ExpressionGrammar<'input>,
    R: ExpressionGrammar<'input>,
 {
    open spec fn parsed(s: Stream<'input>) -> (
        Result<Divide<'input, L::V, R::V>, Error<'input>>,
        Stream<'input>,
    ) {
        match L::parsed(s) {
            (Err(e), s1) => (Err(e), s1),
            (Ok(left), s1) => match tokens::ForwardSlash::parsed(s1) {
                (Err(e), s2) => (Err(e), s2),
                (Ok(forward_slash), s2) => match R::parsed(s2) {
                    (Err(e), s3) => (Err(e), s3),
                    (Ok(right), s3) => (Ok(Divide { left, forward_slash, right }), s3),
                },
            },
        }
    }

    fn parse(tokens: &mut Tokenizer<'input>, context: &mut Context) -> (r: Result<
        Self,
        Error<'input>,
    >) {
        let left = L::parse(tokens, context)?;
        let forward_slash = tokens::ForwardSlash::parse(tokens, context)?;
        let right = R::parse(tokens, context)?;
        Ok(Divide { left, forward_slash, right })
    }
}

impl<'input, L, R> ExpressionGrammar<'input> for Divide<'input, L, R> where
    L: ExpressionGrammar<'input>,
    R: ExpressionGrammar<'input>,
 {
}

/// `indexable[index]`
#[derive(Debug)]
pub struct Index<'input, In, I> {
    pub indexable: In,
    pub square_left: tokens::SquareLeft<'input>,
    pub index: I,
    pub square_right: tokens::SquareRight<'input>,
}

impl<'input, In: DeepView, I: DeepView> DeepView for Index<'input, In, I> {
    type V = Index<'input, In::V, I::V>;

    open spec fn deep_view(&self) -> Index<'input, In::V, I::V> {
        Index {
            indexable: self.indexable.deep_view(),
            square_left: self.square_left,
            index: self.index.deep_view(),
            square_right: self.square_right,
        }
    }
}

impl<'input, In, I> Grammar<'input> for Index<'input, In, I> where
    In: ExpressionGrammar<'input>,
    I: ExpressionGrammar<'input>,
 {
    open spec fn parsed(s: Stream<'input>) -> (
        Result<Index<'input, In::V, I::V>, Error<'input>>,
        Stream<'input>,
    ) {
        match In::parsed(s) {
            (Err(e), s1) => (Err(e), s1),
            (Ok(indexable), s1) => match tokens::SquareLeft::parsed(s1) {
                (Err(e), s2) => (Err(e), s2),
                (Ok(square_left), s2) => match I::parsed(s2) {
                    (Err(e), s3) => (Err(e), s3),
                    (Ok(index), s3) => match tokens::SquareRight::parsed(s3) {
                        (Err(e), s4) => (Err(e), s4),
                        (Ok(square_right), s4) => (
                            Ok(
                                Index {
                                    indexable,
                                    square_left,
                                    index,
                                    square_right,
                                },
                            ),
                            s4,
                        ),
                    },
                },
            },
        }
    }

    fn parse(tokens: &mut Tokenizer<'input>, context: &mut Context) -> (r: Result<
        Self,
        Error<'input>,
    >) {
        let indexable = In::parse(tokens, context)?;
        let square_left = tokens::SquareLeft::parse(tokens, context)?;
        let index = I::parse(tokens, context)?;
        let square_right = tokens::SquareRight::parse(tokens, context)?;
        Ok(Index { indexable, square_left, index, square_right })
    }
}

impl<'input, In, I> ExpressionGrammar<'input> for Index<'input, In, I> where
    In: ExpressionGrammar<'input>,
    I: ExpressionGrammar<'input>,
 {
}

/// `callable()`
#[derive(Debug)]
pub struct Call<'input, C> {
    pub callable: C,
    pub par_left: tokens::ParLeft<'input>,
    pub par_right: tokens::ParRight<'input>,
}

impl<'input, C: DeepView> DeepView for Call<'input, C> {
    type V = Call<'input, C::V>;

    open spec fn deep_view(&self) -> Call<'input, C::V> {
        Call {
            callable: self.callable.deep_view(),
            par_left: self.par_left,
            par_right: self.par_right,
        }
    }
}

impl<'input, C> Grammar<'input> for Call<'input, C> where
    C: ExpressionGrammar<'input>,
 {
    open spec fn parsed(s: Stream<'input>) -> (
        Result<Call<'input, C::V>, Error<'input>>,
        Stream<'input>,
    ) {
        match C::parsed(s) {
            (Err(e), s1) => (Err(e), s1),
            (Ok(callable), s1) => match tokens::ParLeft::parsed(s1) {
                (Err(e), s2) => (Err(e), s2),
                (Ok(par_left), s2) => match tokens::ParRight::parsed(s2) {
                    (Err(e), s3) => (Err(e), s3),
                    (Ok(par_right), s3) => (Ok(Call { callable, par_left, par_right }), s3),
                },
            },
        }
    }

    fn parse(tokens: &mut Tokenizer<'input>, context: &mut Context) -> (r: Result<
        Self,
        Error<'input>,
    >) {
        let callable = C::parse(tokens, context)?;
        let par_left = tokens::ParLeft::parse(tokens, context)?;
        let par_right = tokens::ParRight::parse(tokens, context)?;
        Ok(Call { callable, par_left, par_right })
    }
}

impl<'input, C> ExpressionGrammar<'input> for Call<'input, C> where
    C: ExpressionGrammar<'input>,
 {
}

} // verus!
