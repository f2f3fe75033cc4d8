//! Statement nodes.

use super::expressions::{Expression, ExpressionGrammar};
use super::laws::{lemma_expression_measure, lemma_statement_measure};
use super::types::{Type, TypeGrammar};
use super::{models, Context, Error, Grammar};
use crate::lex::laws::lemma_tail_measure;
use crate::lex;
use crate::lex::{tokens, Stream, Token, TokenKind, Tokenizer};
use vstd::prelude::*;

verus! {

/// Marks the nodes that may stand where a statement is expected.
pub trait StatementGrammar<'input>: Grammar<'input> {
}

impl<'input, S: StatementGrammar<'input>> StatementGrammar<'input> for Box<S> {
}

impl<'input> StatementGrammar<'input> for () {
}

/// A statement.
///
/// The statements that hold a body hold a sequence of statements: as many as
/// follow one another in the source.
#[derive(Debug)]
pub enum Statement<'input> {
    Let(Let<'input, Type<'input>, Expression<'input>>),
    Const(Const<'input, Type<'input>>),
    Static(Static<'input, Type<'input>, Expression<'input>>),
    Scope(Scope<'input, Vec<Statement<'input>>>),
    If(If<'input, Expression<'input>, Vec<Statement<'input>>>),
    Loop(Loop<'input, Vec<Statement<'input>>>),
    While(While<'input, Expression<'input>, Vec<Statement<'input>>>),
    Continue(Continue<'input>),
    Break(Break<'input>),
}

/// The model of a [`Statement`]: the statement with its bodies as
/// mathematical sequences.
pub enum StatementModel<'input> {
    Let(Let<'input, Type<'input>, Expression<'input>>),
    Const(Const<'input, Type<'input>>),
    Static(Static<'input, Type<'input>, Expression<'input>>),
    Scope(Scope<'input, Seq<StatementModel<'input>>>),
    If(If<'input, Expression<'input>, Seq<StatementModel<'input>>>),
    Loop(Loop<'input, Seq<StatementModel<'input>>>),
    While(While<'input, Expression<'input>, Seq<StatementModel<'input>>>),
    Continue(Continue<'input>),
    Break(Break<'input>),
}

/// The model of `statement`.
pub open spec fn statement_model<'input>(statement: Statement<'input>) -> StatementModel<'input>
    decreases statement,
{
    match statement {
        Statement::Let(node) => StatementModel::Let(node.deep_view()),
        Statement::Const(node) => StatementModel::Const(node.deep_view()),
        Statement::Static(node) => StatementModel::Static(node.deep_view()),
        Statement::Scope(node) => StatementModel::Scope(
            Scope {
                curly_left: node.curly_left,
                inner: statements_model(node.inner@),
                curly_right: node.curly_right,
            },
        ),
        Statement::If(node) => StatementModel::If(
            If {
                if_: node.if_,
                expression: node.expression.deep_view(),
                inner: statements_model(node.inner@),
            },
        ),
        Statement::Loop(node) => StatementModel::Loop(
            Loop { loop_: node.loop_, inner: statements_model(node.inner@) },
        ),
        Statement::While(node) => StatementModel::While(
            While {
                while_: node.while_,
                expression: node.expression.deep_view(),
                inner: statements_model(node.inner@),
            },
        ),
        Statement::Continue(node) => StatementModel::Continue(node.deep_view()),
        Statement::Break(node) => StatementModel::Break(node.deep_view()),
    }
}

/// The models of `statements`, in their order.
pub open spec fn statements_model<'input>(statements: Seq<Statement<'input>>) -> Seq<
    StatementModel<'input>,
>
    decreases statements,
{
    Seq::new(
        statements.len(),
        |i: int|
            if 0 <= i < statements.len() {
                statement_model(statements[i])
            } else {
                arbitrary()
            },
    )
}

impl<'input> DeepView for Statement<'input> {
    type V = StatementModel<'input>;

    open spec fn deep_view(&self) -> StatementModel<'input> {
        statement_model(*self)
    }
}

/// The model of a vector of statements is the sequence of the models of its
/// statements.
pub proof fn lemma_statements_model<'input>(statements: Vec<Statement<'input>>)
    ensures
        statements.deep_view() == statements_model(statements@),
{
    assert(statements.deep_view() =~= statements_model(statements@));
}

impl<'input> StatementGrammar<'input> for Statement<'input> {
}

/// Whether a token of kind `kind` is the first of a statement.
pub open spec fn starts_statement(kind: TokenKind) -> bool {
    match kind {
        TokenKind::Let
        | TokenKind::Const
        | TokenKind::Static
        | TokenKind::CurlyLeft
        | TokenKind::If
        | TokenKind::Loop
        | TokenKind::While
        | TokenKind::Continue
        | TokenKind::Break => true,
        _ => false,
    }
}

/// What parsing a [`Statement`] gives on a stream in state `s`.
///
/// The next token decides, and is consumed only by the variant it selects:
/// - `let`, `const`, `static`, `continue` and `break` start the statement of
///   that name;
/// - an opening brace starts a [`Scope`], and `if`, `loop` and `while` the
///   statement of that name, each around a sequence of statements;
/// - at the end of the input, and on a stream that has ended, the error is
///   [`Error::TokenizerEmpty`], and nothing is consumed;
/// - any other token is consumed and is the error
///   [`Error::UnexpectedToken`];
/// - a lexical error is consumed and handed on.
pub open spec fn statement_parsed<'input>(s: Stream<'input>) -> (
    Result<StatementModel<'input>, Error<'input>>,
    Stream<'input>,
)
    decreases s.measure(), 2nat,
{
    match s.head() {
        None | Some(Ok(TokenKind::EOF)) => (Err(Error::TokenizerEmpty), s),
        Some(Err(e)) => (Err(Error::Lex(e)), s.tail()),
        Some(Ok(TokenKind::Let)) => match Let::<Type<'input>, Expression<'input>>::parsed(s) {
            (Ok(node), rest) => (Ok(StatementModel::Let(node)), rest),
            (Err(e), rest) => (Err(e), rest),
        },
        Some(Ok(TokenKind::Const)) => match Const::<Type<'input>>::parsed(s) {
            (Ok(node), rest) => (Ok(StatementModel::Const(node)), rest),
            (Err(e), rest) => (Err(e), rest),
        },
        Some(Ok(TokenKind::Static)) => match Static::<Type<'input>, Expression<'input>>::parsed(
            s,
        ) {
            (Ok(node), rest) => (Ok(StatementModel::Static(node)), rest),
            (Err(e), rest) => (Err(e), rest),
        },
        Some(Ok(TokenKind::CurlyLeft)) => match scope_parsed(s) {
            (Ok(node), rest) => (Ok(StatementModel::Scope(node)), rest),
            (Err(e), rest) => (Err(e), rest),
        },
        Some(Ok(TokenKind::If)) => match if_parsed(s) {
            (Ok(node), rest) => (Ok(StatementModel::If(node)), rest),
            (Err(e), rest) => (Err(e), rest),
        },
        Some(Ok(TokenKind::Loop)) => match loop_parsed(s) {
            (Ok(node), rest) => (Ok(StatementModel::Loop(node)), rest),
            (Err(e), rest) => (Err(e), rest),
        },
        Some(Ok(TokenKind::While)) => match while_parsed(s) {
            (Ok(node), rest) => (Ok(StatementModel::While(node)), rest),
            (Err(e), rest) => (Err(e), rest),
        },
        Some(Ok(TokenKind::Continue)) => match Continue::parsed(s) {
            (Ok(node), rest) => (Ok(StatementModel::Continue(node)), rest),
            (Err(e), rest) => (Err(e), rest),
        },
        Some(Ok(TokenKind::Break)) => match Break::parsed(s) {
            (Ok(node), rest) => (Ok(StatementModel::Break(node)), rest),
            (Err(e), rest) => (Err(e), rest),
        },
        Some(Ok(kind)) => (Err(Error::UnexpectedToken(Token::of(kind, s.source))), s.tail()),
    }
}

/// What parsing an optional [`Statement`] gives on a stream in state `s`.
///
/// Where the next token is the first of a statement, the statement is
/// parsed and is present. On any other token, on a lexical error and on a
/// stream that has ended, the statement is absent and nothing is consumed.
pub open spec fn optional_statement_parsed<'input>(s: Stream<'input>) -> (
    Result<Option<StatementModel<'input>>, Error<'input>>,
    Stream<'input>,
)
    decreases s.measure(), 3nat,
{
    match s.head() {
        Some(Ok(kind)) if starts_statement(kind) => match statement_parsed(s) {
            (Ok(node), rest) => (Ok(Some(node)), rest),
            (Err(e), rest) => (Err(e), rest),
        },
        _ => (Ok(None), s),
    }
}

/// What parsing a sequence of statements gives on a stream in state `s`:
/// the statements that follow one another, up to the first that is absent.
/// The first error ends the sequence and is the result.
///
/// The sequence goes on behind a statement only where the stream has moved.
/// It always has: a statement that is present has consumed its first token
/// at least ([`super::laws::lemma_statement_measure`]), so that this is the
/// rule of [`super::laws::law_statements_unfold`].
pub open spec fn statements_parsed<'input>(s: Stream<'input>) -> (
    Result<Seq<StatementModel<'input>>, Error<'input>>,
    Stream<'input>,
)
    decreases s.measure(), 4nat,
{
    match optional_statement_parsed(s) {
        (Err(e), rest) => (Err(e), rest),
        (Ok(None), rest) => (Ok(Seq::empty()), rest),
        (Ok(Some(first)), s1) => if s1.measure() < s.measure() {
            match statements_parsed(s1) {
                (Ok(others), rest) => (Ok(seq![first] + others), rest),
                (Err(e), rest) => (Err(e), rest),
            }
        } else {
            (Ok(seq![first]), s1)
        },
    }
}

/// What parsing a [`Scope`] around a sequence of statements gives on a
/// stream in state `s`: its fields in their order, up to the first that
/// fails.
pub open spec fn scope_parsed<'input>(s: Stream<'input>) -> (
    Result<Scope<'input, Seq<StatementModel<'input>>>, Error<'input>>,
    Stream<'input>,
)
    decreases s.measure(), 0nat,
{
    match tokens::CurlyLeft::parsed(s) {
        (Err(e), s1) => (Err(e), s1),
        (Ok(curly_left), s1) => match {
            proof {
                lemma_tail_measure(s);
            }
            statements_parsed(s1)
        } {
            (Err(e), s2) => (Err(e), s2),
            (Ok(inner), s2) => match tokens::CurlyRight::parsed(s2) {
                (Err(e), s3) => (Err(e), s3),
                (Ok(curly_right), s3) => (Ok(Scope { curly_left, inner, curly_right }), s3),
            },
        },
    }
}

/// Parses a [`Scope`] around a sequence of statements from the front of
/// `tokens`.
pub fn parse_scope<'input>(
    tokens: &mut Tokenizer<'input>,
    context: &mut Context,
) -> (r: Result<Scope<'input, Vec<Statement<'input>>>, Error<'input>>)
    ensures
        final(tokens)@ == scope_parsed(old(tokens)@).1,
        models(scope_parsed(old(tokens)@).0, r),
    decreases old(tokens)@.measure(), 0nat,
{
    let curly_left = tokens::CurlyLeft::parse(tokens, context)?;
    proof {
        lemma_tail_measure(old(tokens)@);
    }
    let inner = parse_statements(tokens, context)?;
    let curly_right = tokens::CurlyRight::parse(tokens, context)?;
    Ok(Scope { curly_left, inner, curly_right })
}

/// What parsing an [`If`] with an [`Expression`] and a sequence of
/// statements gives on a stream in state `s`: its fields in their order, up
/// to the first that fails.
pub open spec fn if_parsed<'input>(s: Stream<'input>) -> (
    Result<If<'input, Expression<'input>, Seq<StatementModel<'input>>>, Error<'input>>,
    Stream<'input>,
)
    decreases s.measure(), 0nat,
{
    match tokens::If::parsed(s) {
        (Err(e), s1) => (Err(e), s1),
        (Ok(if_), s1) => match Expression::parsed(s1) {
            (Err(e), s2) => (Err(e), s2),
            (Ok(expression), s2) => match {
                proof {
                    lemma_tail_measure(s);
                    lemma_expression_measure(s1);
                }
                statements_parsed(s2)
            } {
                (Err(e), s3) => (Err(e), s3),
                (Ok(inner), s3) => (Ok(If { if_, expression, inner }), s3),
            },
        },
    }
}

/// Parses an [`If`] with an [`Expression`] and a sequence of statements from
/// the front of `tokens`.
pub fn parse_if<'input>(
    tokens: &mut Tokenizer<'input>,
    context: &mut Context,
) -> (r: Result<If<'input, Expression<'input>, Vec<Statement<'input>>>, Error<'input>>)
    ensures
        final(tokens)@ == if_parsed(old(tokens)@).1,
        models(if_parsed(old(tokens)@).0, r),
    decreases old(tokens)@.measure(), 0nat,
{
    let if_ = tokens::If::parse(tokens, context)?;
    let expression = Expression::parse(tokens, context)?;
    proof {
        lemma_tail_measure(old(tokens)@);
        lemma_expression_measure(old(tokens)@.tail());
    }
    let inner = parse_statements(tokens, context)?;
    Ok(If { if_, expression, inner })
}

/// What parsing a [`Loop`] with a sequence of statements gives on a stream
/// in state `s`: its fields in their order, up to the first that fails.
pub open spec fn loop_parsed<'input>(s: Stream<'input>) -> (
    Result<Loop<'input, Seq<StatementModel<'input>>>, Error<'input>>,
    Stream<'input>,
)
    decreases s.measure(), 0nat,
{
    match tokens::Loop::parsed(s) {
        (Err(e), s1) => (Err(e), s1),
        (Ok(loop_), s1) => match {
            proof {
                lemma_tail_measure(s);
            }
            statements_parsed(s1)
        } {
            (Err(e), s2) => (Err(e), s2),
            (Ok(inner), s2) => (Ok(Loop { loop_, inner }), s2),
        },
    }
}

/// Parses a [`Loop`] with a sequence of statements from the front of
/// `tokens`.
pub fn parse_loop<'input>(
    tokens: &mut Tokenizer<'input>,
    context: &mut Context,
) -> (r: Result<Loop<'input, Vec<Statement<'input>>>, Error<'input>>)
    ensures
        final(tokens)@ == loop_parsed(old(tokens)@).1,
        models(loop_parsed(old(tokens)@).0, r),
    decreases old(tokens)@.measure(), 0nat,
{
    let loop_ = tokens::Loop::parse(tokens, context)?;
    proof {
        lemma_tail_measure(old(tokens)@);
    }
    let inner = parse_statements(tokens, context)?;
    Ok(Loop { loop_, inner })
}

/// What parsing a [`While`] with an [`Expression`] and a sequence of
/// statements gives on a stream in state `s`: its fields in their order, up
/// to the first that fails.
pub open spec fn while_parsed<'input>(s: Stream<'input>) -> (
    Result<While<'input, Expression<'input>, Seq<StatementModel<'input>>>, Error<'input>>,
    Stream<'input>,
)
    decreases s.measure(), 0nat,
{
    match tokens::While::parsed(s) {
        (Err(e), s1) => (Err(e), s1),
        (Ok(while_), s1) => match Expression::parsed(s1) {
            (Err(e), s2) => (Err(e), s2),
            (Ok(expression), s2) => match {
                proof {
                    lemma_tail_measure(s);
                    lemma_expression_measure(s1);
                }
                statements_parsed(s2)
            } {
                (Err(e), s3) => (Err(e), s3),
                (Ok(inner), s3) => (Ok(While { while_, expression, inner }), s3),
            },
        },
    }
}

/// Parses a [`While`] with an [`Expression`] and a sequence of statements
/// from the front of `tokens`.
pub fn parse_while<'input>(
    tokens: &mut Tokenizer<'input>,
    context: &mut Context,
) -> (r: Result<While<'input, Expression<'input>, Vec<Statement<'input>>>, Error<'input>>)
    ensures
        final(tokens)@ == while_parsed(old(tokens)@).1,
        models(while_parsed(old(tokens)@).0, r),
    decreases old(tokens)@.measure(), 0nat,
{
    let while_ = tokens::While::parse(tokens, context)?;
    let expression = Expression::parse(tokens, context)?;
    proof {
        lemma_tail_measure(old(tokens)@);
        lemma_expression_measure(old(tokens)@.tail());
    }
    let inner = parse_statements(tokens, context)?;
    Ok(While { while_, expression, inner })
}

/// Tests [`starts_statement`].
fn kind_starts_statement(kind: TokenKind) -> (b: bool)
    ensures
        b == starts_statement(kind),
{
    match kind {
        TokenKind::Let
        | TokenKind::Const
        | TokenKind::Static
        | TokenKind::CurlyLeft
        | TokenKind::If
        | TokenKind::Loop
        | TokenKind::While
        | TokenKind::Continue
        | TokenKind::Break => true,
        _ => false,
    }
}

/// Parses the statement that starts with a token of kind
/// [`TokenKind::Let`].
fn parse_let_statement<'input>(tokens: &mut Tokenizer<'input>, context: &mut Context) -> (r:
    Result<Statement<'input>, Error<'input>>)
    requires
        old(tokens)@.head() == Some(Ok::<TokenKind, lex::Error>(TokenKind::Let)),
    ensures
        final(tokens)@ == statement_parsed(old(tokens)@).1,
        models(statement_parsed(old(tokens)@).0, r),
    decreases old(tokens)@.measure(), 1nat,
{
    let node = Let::parse(tokens, context)?;
    Ok(Statement::Let(node))
}

/// Parses the statement that starts with a token of kind
/// [`TokenKind::Const`].
fn parse_const_statement<'input>(tokens: &mut Tokenizer<'input>, context: &mut Context) -> (r:
    Result<Statement<'input>, Error<'input>>)
    requires
        old(tokens)@.head() == Some(Ok::<TokenKind, lex::Error>(TokenKind::Const)),
    ensures
        final(tokens)@ == statement_parsed(old(tokens)@).1,
        models(statement_parsed(old(tokens)@).0, r),
    decreases old(tokens)@.measure(), 1nat,
{
    let node = Const::parse(tokens, context)?;
    Ok(Statement::Const(node))
}

/// Parses the statement that starts with a token of kind
/// [`TokenKind::Static`].
fn parse_static_statement<'input>(tokens: &mut Tokenizer<'input>, context: &mut Context) -> (r:
    Result<Statement<'input>, Error<'input>>)
    requires
        old(tokens)@.head() == Some(Ok::<TokenKind, lex::Error>(TokenKind::Static)),
    ensures
        final(tokens)@ == statement_parsed(old(tokens)@).1,
        models(statement_parsed(old(tokens)@).0, r),
    decreases old(tokens)@.measure(), 1nat,
{
    let node = Static::parse(tokens, context)?;
    Ok(Statement::Static(node))
}

/// Parses the statement that starts with a token of kind
/// [`TokenKind::CurlyLeft`].
fn parse_scope_statement<'input>(tokens: &mut Tokenizer<'input>, context: &mut Context) -> (r:
    Result<Statement<'input>, Error<'input>>)
    requires
        old(tokens)@.head() == Some(Ok::<TokenKind, lex::Error>(TokenKind::CurlyLeft)),
    ensures
        final(tokens)@ == statement_parsed(old(tokens)@).1,
        models(statement_parsed(old(tokens)@).0, r),
    decreases old(tokens)@.measure(), 1nat,
{
    let node = parse_scope(tokens, context)?;
    proof {
        lemma_statements_model(node.inner);
    }
    Ok(Statement::Scope(node))
}

/// Parses the statement that starts with a token of kind
/// [`TokenKind::If`].
fn parse_if_statement<'input>(tokens: &mut Tokenizer<'input>, context: &mut Context) -> (r:
    Result<Statement<'input>, Error<'input>>)
    requires
        old(tokens)@.head() == Some(Ok::<TokenKind, lex::Error>(TokenKind::If)),
    ensures
        final(tokens)@ == statement_parsed(old(tokens)@).1,
        models(statement_parsed(old(tokens)@).0, r),
    decreases old(tokens)@.measure(), 1nat,
{
    let node = parse_if(tokens, context)?;
    proof {
        lemma_statements_model(node.inner);
    }
    Ok(Statement::If(node))
}

/// Parses the statement that starts with a token of kind
/// [`TokenKind::Loop`].
fn parse_loop_statement<'input>(tokens: &mut Tokenizer<'input>, context: &mut Context) -> (r:
    Result<Statement<'input>, Error<'input>>)
    requires
        old(tokens)@.head() == Some(Ok::<TokenKind, lex::Error>(TokenKind::Loop)),
    ensures
        final(tokens)@ == statement_parsed(old(tokens)@).1,
        models(statement_parsed(old(tokens)@).0, r),
    decreases old(tokens)@.measure(), 1nat,
{
    let node = parse_loop(tokens, context)?;
    proof {
        lemma_statements_model(node.inner);
    }
    Ok(Statement::Loop(node))
}

/// Parses the statement that starts with a token of kind
/// [`TokenKind::While`].
fn parse_while_statement<'input>(tokens: &mut Tokenizer<'input>, context: &mut Context) -> (r:
    Result<Statement<'input>, Error<'input>>)
    requires
        old(tokens)@.head() == Some(Ok::<TokenKind, lex::Error>(TokenKind::While)),
    ensures
        final(tokens)@ == statement_parsed(old(tokens)@).1,
        models(statement_parsed(old(tokens)@).0, r),
    decreases old(tokens)@.measure(), 1nat,
{
    let node = parse_while(tokens, context)?;
    proof {
        lemma_statements_model(node.inner);
    }
    Ok(Statement::While(node))
}

/// Parses the statement that starts with a token of kind
/// [`TokenKind::Continue`].
fn parse_continue_statement<'input>(tokens: &mut Tokenizer<'input>, context: &mut Context) -> (r:
    Result<Statement<'input>, Error<'input>>)
    requires
        old(tokens)@.head() == Some(Ok::<TokenKind, lex::Error>(TokenKind::Continue)),
    ensures
        final(tokens)@ == statement_parsed(old(tokens)@).1,
        models(statement_parsed(old(tokens)@).0, r),
    decreases old(tokens)@.measure(), 1nat,
{
    let node = Continue::parse(tokens, context)?;
    Ok(Statement::Continue(node))
}

/// Parses the statement that starts with a token of kind
/// [`TokenKind::Break`].
fn parse_break_statement<'input>(tokens: &mut Tokenizer<'input>, context: &mut Context) -> (r:
    Result<Statement<'input>, Error<'input>>)
    requires
        old(tokens)@.head() == Some(Ok::<TokenKind, lex::Error>(TokenKind::Break)),
    ensures
        final(tokens)@ == statement_parsed(old(tokens)@).1,
        models(statement_parsed(old(tokens)@).0, r),
    decreases old(tokens)@.measure(), 1nat,
{
    let node = Break::parse(tokens, context)?;
    Ok(Statement::Break(node))
}

/// Parses a [`Statement`] from the front of `tokens`.
pub fn parse_statement<'input>(tokens: &mut Tokenizer<'input>, context: &mut Context) -> (r:
    Result<Statement<'input>, Error<'input>>)
    ensures
        final(tokens)@ == statement_parsed(old(tokens)@).1,
        models(statement_parsed(old(tokens)@).0, r),
    decreases old(tokens)@.measure(), 2nat,
{
    match tokens.peek_kind() {
        None | Some(Ok(TokenKind::EOF)) => Err(Error::TokenizerEmpty),
        Some(Ok(TokenKind::Let)) => parse_let_statement(tokens, context),
        Some(Ok(TokenKind::Const)) => parse_const_statement(tokens, context),
        Some(Ok(TokenKind::Static)) => parse_static_statement(tokens, context),
        Some(Ok(TokenKind::CurlyLeft)) => parse_scope_statement(tokens, context),
        Some(Ok(TokenKind::If)) => parse_if_statement(tokens, context),
        Some(Ok(TokenKind::Loop)) => parse_loop_statement(tokens, context),
        Some(Ok(TokenKind::While)) => parse_while_statement(tokens, context),
        Some(Ok(TokenKind::Continue)) => parse_continue_statement(tokens, context),
        Some(Ok(TokenKind::Break)) => parse_break_statement(tokens, context),
        Some(Ok(_)) => match tokens.next() {
            Some(Ok(token)) => Err(Error::UnexpectedToken(token)),
            Some(Err(e)) => Err(Error::Lex(e)),
            None => Err(Error::TokenizerEmpty),
        },
        Some(Err(_)) => match tokens.next() {
            Some(Ok(token)) => Err(Error::UnexpectedToken(token)),
            Some(Err(e)) => Err(Error::Lex(e)),
            None => Err(Error::TokenizerEmpty),
        },
    }
}

/// Parses a [`Statement`] from the front of `tokens` where one starts there.
pub fn parse_optional_statement<'input>(
    tokens: &mut Tokenizer<'input>,
    context: &mut Context,
) -> (r: Result<Option<Statement<'input>>, Error<'input>>)
    ensures
        final(tokens)@ == optional_statement_parsed(old(tokens)@).1,
        models(optional_statement_parsed(old(tokens)@).0, r),
    decreases old(tokens)@.measure(), 3nat,
{
    match tokens.peek_kind() {
        Some(Ok(kind)) => {
            if kind_starts_statement(kind) {
                match parse_statement(tokens, context) {
                    Ok(statement) => Ok(Some(statement)),
                    Err(e) => Err(e),
                }
            } else {
                Ok(None)
            }
        },
        _ => Ok(None),
    }
}

/// Parses the statements that follow one another at the front of `tokens`.
#[verifier::rlimit(30)]
pub fn parse_statements<'input>(tokens: &mut Tokenizer<'input>, context: &mut Context) -> (r:
    Result<Vec<Statement<'input>>, Error<'input>>)
    ensures
        final(tokens)@ == statements_parsed(old(tokens)@).1,
        models(statements_parsed(old(tokens)@).0, r),
    decreases old(tokens)@.measure(), 4nat,
{
    let mut out: Vec<Statement<'input>> = Vec::new();
    let ghost start = tokens@;
    loop
        invariant
            start == old(tokens)@,
            tokens@.measure() <= start.measure(),
            statements_parsed(start).1 == statements_parsed(tokens@).1,
            statements_parsed(start).0 == (match statements_parsed(tokens@).0 {
                Ok(others) => Ok::<Seq<StatementModel<'input>>, Error<'input>>(
                    out.deep_view() + others,
                ),
                Err(e) => Err(e),
            }),
        decreases tokens@.measure(),
    {
        let ghost before = tokens@;
        let ghost parsed = out.deep_view();
        proof {
            lemma_statement_measure(before);
        }
        match parse_optional_statement(tokens, context) {
            Err(e) => {
                return Err(e);
            },
            Ok(None) => {
                proof {
                    assert(parsed + Seq::<StatementModel<'input>>::empty() =~= parsed);
                }
                return Ok(out);
            },
            Ok(Some(statement)) => {
                out.push(statement);
                proof {
                    let first = statement.deep_view();
                    assert(out.deep_view() =~= parsed.push(first));
                    if statements_parsed(tokens@).0 is Ok {
                        let others = statements_parsed(tokens@).0->Ok_0;
                        assert(parsed + (seq![first] + others) =~= parsed.push(first) + others);
                    }
                }
            },
        }
    }
}

impl<'input> Grammar<'input> for Statement<'input> {
    open spec fn parsed(s: Stream<'input>) -> (
        Result<StatementModel<'input>, Error<'input>>,
        Stream<'input>,
    ) {
        statement_parsed(s)
    }

    fn parse(tokens: &mut Tokenizer<'input>, context: &mut Context) -> (r: Result<
        Self,
        Error<'input>,
    >) {
        parse_statement(tokens, context)
    }
}

impl<'input> Grammar<'input> for Option<Statement<'input>> {
    open spec fn parsed(s: Stream<'input>) -> (
        Result<Option<StatementModel<'input>>, Error<'input>>,
        Stream<'input>,
    ) {
        optional_statement_parsed(s)
    }

    fn parse(tokens: &mut Tokenizer<'input>, context: &mut Context) -> (r: Result<
        Self,
        Error<'input>,
    >) {
        parse_optional_statement(tokens, context)
    }
}

/// `let identifier::T = expression;`: a local binding.
#[derive(Debug)]
pub struct Let<'input, T, E> {
    pub let_: tokens::Let<'input>,
    pub identifier: tokens::Identifier<'input>,
    pub colon_colon: tokens::ColonColon<'input>,
    pub type_: T,
    pub equals: tokens::Equals<'input>,
    pub expression: E,
    pub semi_colon: tokens::SemiColon<'input>,
}

impl<'input, T: DeepView, E: DeepView> DeepView for Let<'input, T, E> {
    type V = Let<'input, T::V, E::V>;

    open spec fn deep_view(&self) -> Let<'input, T::V, E::V> {
        Let {
            let_: self.let_,
            identifier: self.identifier,
            colon_colon: self.colon_colon,
            type_: self.type_.deep_view(),
            equals: self.equals,
            expression: self.expression.deep_view(),
            semi_colon: self.semi_colon,
        }
    }
}

impl<'input, T, E> Grammar<'input> for Let<'input, T, E> where
    T: TypeGrammar<'input>,
    E: ExpressionGrammar<'input>,
 {
    open spec fn parsed(s: Stream<'input>) -> (
        Result<Let<'input, T::V, E::V>, Error<'input>>,
        Stream<'input>,
    ) {
        match tokens::Let::parsed(s) {
            (Err(e), s1) => (Err(e), s1),
            (Ok(let_), s1) => match tokens::Identifier::parsed(s1) {
                (Err(e), s2) => (Err(e), s2),
                (Ok(identifier), s2) => match tokens::ColonColon::parsed(s2) {
                    (Err(e), s3) => (Err(e), s3),
                    (Ok(colon_colon), s3) => match T::parsed(s3) {
                        (Err(e), s4) => (Err(e), s4),
                        (Ok(type_), s4) => match tokens::Equals::parsed(s4) {
                            (Err(e), s5) => (Err(e), s5),
                            (Ok(equals), s5) => match E::parsed(s5) {
                                (Err(e), s6) => (Err(e), s6),
                                (Ok(expression), s6) => match tokens::SemiColon::parsed(s6) {
                                    (Err(e), s7) => (Err(e), s7),
                                    (Ok(semi_colon), s7) => (
                                        Ok(
                                            Let {
                                                let_,
                                                identifier,
                                                colon_colon,
                                                type_,
                                                equals,
                                                expression,
                                                semi_colon,
                                            },
                                        ),
                                        s7,
                                    ),
                                },
                            },
                        },
                    },
                },
            },
        }
    }

    fn parse(tokens: &mut Tokenizer<'input>, context: &mut Context) -> (r: Result<
        Self,
        Error<'input>,
    >) {
        let let_ = tokens::Let::parse(tokens, context)?;
        let identifier = tokens::Identifier::parse(tokens, context)?;
        let colon_colon = tokens::ColonColon::parse(tokens, context)?;
        let type_ = T::parse(tokens, context)?;
        let equals = tokens::Equals::parse(tokens, context)?;
        let expression = E::parse(tokens, context)?;
        let semi_colon = tokens::SemiColon::parse(tokens, context)?;
        Ok(Let { let_, identifier, colon_colon, type_, equals, expression, semi_colon })
    }
}

impl<'input, T, E> StatementGrammar<'input> for Let<'input, T, E> where
    T: TypeGrammar<'input>,
    E: ExpressionGrammar<'input>,
 {
}

/// `const identifier::T;`: the declaration of a constant.
#[derive(Debug)]
pub struct Const<'input, T> {
    pub const_: tokens::Const<'input>,
    pub identifier: tokens::Identifier<'input>,
    pub colon_colon: tokens::ColonColon<'input>,
    pub type_: T,
    pub semi_colon: tokens::SemiColon<'input>,
}

impl<'input, T: DeepView> DeepView for Const<'input, T> {
    type V = Const<'input, T::V>;

    open spec fn deep_view(&self) -> Const<'input, T::V> {
        Const {
            const_: self.const_,
            identifier: self.identifier,
            colon_colon: self.colon_colon,
            type_: self.type_.deep_view(),
            semi_colon: self.semi_colon,
        }
    }
}

impl<'input, T> Grammar<'input> for Const<'input, T> where
    T: TypeGrammar<'input>,
 {
    open spec fn parsed(s: Stream<'input>) -> (
        Result<Const<'input, T::V>, Error<'input>>,
        Stream<'input>,
    ) {
        match tokens::Const::parsed(s) {
            (Err(e), s1) => (Err(e), s1),
            (Ok(const_), s1) => match tokens::Identifier::parsed(s1) {
                (Err(e), s2) => (Err(e), s2),
                (Ok(identifier), s2) => match tokens::ColonColon::parsed(s2) {
                    (Err(e), s3) => (Err(e), s3),
                    (Ok(colon_colon), s3) => match T::parsed(s3) {
                        (Err(e), s4) => (Err(e), s4),
                        (Ok(type_), s4) => match tokens::SemiColon::parsed(s4) {
                            (Err(e), s5) => (Err(e), s5),
                            (Ok(semi_colon), s5) => (
                                Ok(
                                    Const {
                                        const_,
                                        identifier,
                                        colon_colon,
                                        type_,
                                        semi_colon,
                                    },
                                ),
                                s5,
                            ),
                        },
                    },
                },
            },
        }
    }

    fn parse(tokens: &mut Tokenizer<'input>, context: &mut Context) -> (r: Result<
        Self,
        Error<'input>,
    >) {
        let const_ = tokens::Const::parse(tokens, context)?;
        let identifier = tokens::Identifier::parse(tokens, context)?;
        let colon_colon = tokens::ColonColon::parse(tokens, context)?;
        let type_ = T::parse(tokens, context)?;
        let semi_colon = tokens::SemiColon::parse(tokens, context)?;
        Ok(Const { const_, identifier, colon_colon, type_, semi_colon })
    }
}

impl<'input, T> StatementGrammar<'input> for Const<'input, T> where
    T: TypeGrammar<'input>,
 {
}

/// `static identifier::T = expression;`: a static binding.
#[derive(Debug)]
pub struct Static<'input, T, E> {
    pub static_: tokens::Static<'input>,
    pub identifier: tokens::Identifier<'input>,
    pub colon_colon: tokens::ColonColon<'input>,
    pub type_: T,
    pub equals: tokens::Equals<'input>,
    pub expression: E,
    pub semi_colon: tokens::SemiColon<'input>,
}

impl<'input, T: DeepView, E: DeepView> DeepView for Static<'input, T, E> {
    type V = Static<'input, T::V, E::V>;

    open spec fn deep_view(&self) -> Static<'input, T::V, E::V> {
        Static {
            static_: self.static_,
            identifier: self.identifier,
            colon_colon: self.colon_colon,
            type_: self.type_.deep_view(),
            equals: self.equals,
            expression: self.expression.deep_view(),
            semi_colon: self.semi_colon,
        }
    }
}

impl<'input, T, E> Grammar<'input> for Static<'input, T, E> where
    T: TypeGrammar<'input>,
    E: ExpressionGrammar<'input>,
 {
    open spec fn parsed(s: Stream<'input>) -> (
        Result<Static<'input, T::V, E::V>, Error<'input>>,
        Stream<'input>,
    ) {
        match tokens::Static::parsed(s) {
            (Err(e), s1) => (Err(e), s1),
            (Ok(static_), s1) => match tokens::Identifier::parsed(s1) {
                (Err(e), s2) => (Err(e), s2),
                (Ok(identifier), s2) => match tokens::ColonColon::parsed(s2) {
                    (Err(e), s3) => (Err(e), s3),
                    (Ok(colon_colon), s3) => match T::parsed(s3) {
                        (Err(e), s4) => (Err(e), s4),
                        (Ok(type_), s4) => match tokens::Equals::parsed(s4) {
                            (Err(e), s5) => (Err(e), s5),
                            (Ok(equals), s5) => match E::parsed(s5) {
                                (Err(e), s6) => (Err(e), s6),
                                (Ok(expression), s6) => match tokens::SemiColon::parsed(s6) {
                                    (Err(e), s7) => (Err(e), s7),
                                    (Ok(semi_colon), s7) => (
                                        Ok(
                                            Static {
                                                static_,
                                                identifier,
                                                colon_colon,
                                                type_,
                                                equals,
                                                expression,
                                                semi_colon,
                                            },
                                        ),
                                        s7,
                                    ),
                                },
                            },
                        },
                    },
                },
            },
        }
    }

    fn parse(tokens: &mut Tokenizer<'input>, context: &mut Context) -> (r: Result<
        Self,
        Error<'input>,
    >) {
        let static_ = tokens::Static::parse(tokens, context)?;
        let identifier = tokens::Identifier::parse(tokens, context)?;
        let colon_colon = tokens::ColonColon::parse(tokens, context)?;
        let type_ = T::parse(tokens, context)?;
        let equals = tokens::Equals::parse(tokens, context)?;
        let expression = E::parse(tokens, context)?;
        let semi_colon = tokens::SemiColon::parse(tokens, context)?;
        Ok(Static { static_, identifier, colon_colon, type_, equals, expression, semi_colon })
    }
}

impl<'input, T, E> StatementGrammar<'input> for Static<'input, T, E> where
    T: TypeGrammar<'input>,
    E: ExpressionGrammar<'input>,
 {
}

/// `{ inner }`: a block.
#[derive(Debug)]
pub struct Scope<'input, I> {
    pub curly_left: tokens::CurlyLeft<'input>,
    pub inner: I,
    pub curly_right: tokens::CurlyRight<'input>,
}

impl<'input, I: DeepView> DeepView for Scope<'input, I> {
    type V = Scope<'input, I::V>;

    open spec fn deep_view(&self) -> Scope<'input, I::V> {
        Scope {
            curly_left: self.curly_left,
            inner: self.inner.deep_view(),
            curly_right: self.curly_right,
        }
    }
}

impl<'input, I> Grammar<'input> for Scope<'input, I> where
    I: Grammar<'input>,
 {
    open spec fn parsed(s: Stream<'input>) -> (
        Result<Scope<'input, I::V>, Error<'input>>,
        Stream<'input>,
    ) {
        match tokens::CurlyLeft::parsed(s) {
            (Err(e), s1) => (Err(e), s1),
            (Ok(curly_left), s1) => match I::parsed(s1) {
                (Err(e), s2) => (Err(e), s2),
                (Ok(inner), s2) => match tokens::CurlyRight::parsed(s2) {
                    (Err(e), s3) => (Err(e), s3),
                    (Ok(curly_right), s3) => (Ok(Scope { curly_left, inner, curly_right }), s3),
                },
            },
        }
    }

    fn parse(tokens: &mut Tokenizer<'input>, context: &mut Context) -> (r: Result<
        Self,
        Error<'input>,
    >) {
        let curly_left = tokens::CurlyLeft::parse(tokens, context)?;
        let inner = I::parse(tokens, context)?;
        let curly_right = tokens::CurlyRight::parse(tokens, context)?;
        Ok(Scope { curly_left, inner, curly_right })
    }
}

impl<'input, I> StatementGrammar<'input> for Scope<'input, I> where
    I: Grammar<'input>,
 {
}

/// `if expression inner`: a conditional, without an `else`.
#[derive(Debug)]
pub struct If<'input, E, I> {
    pub if_: tokens::If<'input>,
    pub expression: E,
    pub inner: I,
}

impl<'input, E: DeepView, I: DeepView> DeepView for If<'input, E, I> {
    type V = If<'input, E::V, I::V>;

    open spec fn deep_view(&self) -> If<'input, E::V, I::V> {
        If {
            if_: self.if_,
            expression: self.expression.deep_view(),
            inner: self.inner.deep_view(),
        }
    }
}

impl<'input, E, I> Grammar<'input> for If<'input, E, I> where
    E: ExpressionGrammar<'input>,
    I: Grammar<'input>,
 {
    open spec fn parsed(s: Stream<'input>) -> (
        Result<If<'input, E::V, I::V>, Error<'input>>,
        Stream<'input>,
    ) {
        match tokens::If::parsed(s) {
            (Err(e), s1) => (Err(e), s1),
            (Ok(if_), s1) => match E::parsed(s1) {
                (Err(e), s2) => (Err(e), s2),
                (Ok(expression), s2) => match I::parsed(s2) {
                    (Err(e), s3) => (Err(e), s3),
                    (Ok(inner), s3) => (Ok(If { if_, expression, inner }), s3),
                },
            },
        }
    }

    fn parse(tokens: &mut Tokenizer<'input>, context: &mut Context) -> (r: Result<
        Self,
        Error<'input>,
    >) {
        let if_ = tokens::If::parse(tokens, context)?;
        let expression = E::parse(tokens, context)?;
        let inner = I::parse(tokens, context)?;
        Ok(If { if_, expression, inner })
    }
}

impl<'input, E, I> StatementGrammar<'input> for If<'input, E, I> where
    E: ExpressionGrammar<'input>,
    I: Grammar<'input>,
 {
}

/// `loop inner`: an unconditional loop.
#[derive(Debug)]
pub struct Loop<'input, I> {
    pub loop_: tokens::Loop<'input>,
    pub inner: I,
}

impl<'input, I: DeepView> DeepView for Loop<'input, I> {
    type V = Loop<'input, I::V>;

    open spec fn deep_view(&self) -> Loop<'input, I::V> {
        Loop {
            loop_: self.loop_,
            inner: self.inner.deep_view(),
        }
    }
}

impl<'input, I> Grammar<'input> for Loop<'input, I> where
    I: Grammar<'input>,
 {
    open spec fn parsed(s: Stream<'input>) -> (
        Result<Loop<'input, I::V>, Error<'input>>,
        Stream<'input>,
    ) {
        match tokens::Loop::parsed(s) {
            (Err(e), s1) => (Err(e), s1),
            (Ok(loop_), s1) => match I::parsed(s1) {
                (Err(e), s2) => (Err(e), s2),
                (Ok(inner), s2) => (Ok(Loop { loop_, inner }), s2),
            },
        }
    }

    fn parse(tokens: &mut Tokenizer<'input>, context: &mut Context) -> (r: Result<
        Self,
        Error<'input>,
    >) {
        let loop_ = tokens::Loop::parse(tokens, context)?;
        let inner = I::parse(tokens, context)?;
        Ok(Loop { loop_, inner })
    }
}

impl<'input, I> StatementGrammar<'input> for Loop<'input, I> where
    I: Grammar<'input>,
 {
}

/// `while expression inner`: a conditional loop.
#[derive(Debug)]
pub struct While<'input, E, I> {
    pub while_: tokens::While<'input>,
    pub expression: E,
    pub inner: I,
}

impl<'input, E: DeepView, I: DeepView> DeepView for While<'input, E, I> {
    type V = While<'input, E::V, I::V>;

    open spec fn deep_view(&self) -> While<'input, E::V, I::V> {
        While {
            while_: self.while_,
            expression: self.expression.deep_view(),
            inner: self.inner.deep_view(),
        }
    }
}

impl<'input, E, I> Grammar<'input> for While<'input, E, I> where
    E: ExpressionGrammar<'input>,
    I: Grammar<'input>,
 {
    open spec fn parsed(s: Stream<'input>) -> (
        Result<While<'input, E::V, I::V>, Error<'input>>,
        Stream<'input>,
    ) {
        match tokens::While::parsed(s) {
            (Err(e), s1) => (Err(e), s1),
            (Ok(while_), s1) => match E::parsed(s1) {
                (Err(e), s2) => (Err(e), s2),
                (Ok(expression), s2) => match I::parsed(s2) {
                    (Err(e), s3) => (Err(e), s3),
                    (Ok(inner), s3) => (Ok(While { while_, expression, inner }), s3),
                },
            },
        }
    }

    fn parse(tokens: &mut Tokenizer<'input>, context: &mut Context) -> (r: Result<
        Self,
        Error<'input>,
    >) {
        let while_ = tokens::While::parse(tokens, context)?;
        let expression = E::parse(tokens, context)?;
        let inner = I::parse(tokens, context)?;
        Ok(While { while_, expression, inner })
    }
}

impl<'input, E, I> StatementGrammar<'input> for While<'input, E, I> where
    E: ExpressionGrammar<'input>,
    I: Grammar<'input>,
 {
}

/// `continue;`
#[derive(Debug)]
pub struct Continue<'input> {
    pub continue_: tokens::Continue<'input>,
    pub semi_colon: tokens::SemiColon<'input>,
}

impl<'input> DeepView for Continue<'input> {
    type V = Continue<'input>;

    open spec fn deep_view(&self) -> Continue<'input> {
        Continue {
            continue_: self.continue_,
            semi_colon: self.semi_colon,
        }
    }
}

impl<'input> Grammar<'input> for Continue<'input> {
    open spec fn parsed(s: Stream<'input>) -> (
        Result<Continue<'input>, Error<'input>>,
        Stream<'input>,
    ) {
        match tokens::Continue::parsed(s) {
            (Err(e), s1) => (Err(e), s1),
            (Ok(continue_), s1) => match tokens::SemiColon::parsed(s1) {
                (Err(e), s2) => (Err(e), s2),
                (Ok(semi_colon), s2) => (Ok(Continue { continue_, semi_colon }), s2),
            },
        }
    }

    fn parse(tokens: &mut Tokenizer<'input>, context: &mut Context) -> (r: Result<
        Self,
        Error<'input>,
    >) {
        let continue_ = tokens::Continue::parse(tokens, context)?;
        let semi_colon = tokens::SemiColon::parse(tokens, context)?;
        Ok(Continue { continue_, semi_colon })
    }
}

impl<'input> StatementGrammar<'input> for Continue<'input> {
}

/// `break;`
#[derive(Debug)]
pub struct Break<'input> {
    pub break_: tokens::Break<'input>,
    pub semi_colon: tokens::SemiColon<'input>,
}

impl<'input> DeepView for Break<'input> {
    type V = Break<'input>;

    open spec fn deep_view(&self) -> Break<'input> {
        Break {
            break_: self.break_,
            semi_colon: self.semi_colon,
        }
    }
}

impl<'input> Grammar<'input> for Break<'input> {
    open spec fn parsed(s: Stream<'input>) -> (
        Result<Break<'input>, Error<'input>>,
        Stream<'input>,
    ) {
        match tokens::Break::parsed(s) {
            (Err(e), s1) => (Err(e), s1),
            (Ok(break_), s1) => match tokens::SemiColon::parsed(s1) {
                (Err(e), s2) => (Err(e), s2),
                (Ok(semi_colon), s2) => (Ok(Break { break_, semi_colon }), s2),
            },
        }
    }

    fn parse(tokens: &mut Tokenizer<'input>, context: &mut Context) -> (r: Result<
        Self,
        Error<'input>,
    >) {
        let break_ = tokens::Break::parse(tokens, context)?;
        let semi_colon = tokens::SemiColon::parse(tokens, context)?;
        Ok(Break { break_, semi_colon })
    }
}

impl<'input> StatementGrammar<'input> for Break<'input> {
}

} // verus!
