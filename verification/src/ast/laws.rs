//! Laws of the grammar.

use super::expressions::{expression_parsed, parenthesis_parsed, Expression, Parenthesis};
use super::statements::{
    if_parsed, loop_parsed, optional_statement_parsed, scope_parsed, starts_statement,
    statement_parsed, statements_parsed, while_parsed, Break, Const, Continue, If, Let, Loop,
    Scope, Statement, StatementModel, Static, While,
};
use super::types::{array_parsed, ptr_parsed, type_parsed, Array, Ptr, Type};
use super::{repeated, Error, Grammar};
use crate::lex;
use crate::lex::laws::lemma_tail_measure;
use crate::lex::{tokens, Stream, Token, TokenKind};
use crate::Span;
use vstd::prelude::*;

verus! {

/// Parsing an expression never moves the stream backwards.
pub proof fn lemma_expression_measure(s: Stream)
    ensures
        expression_parsed(s).1.measure() <= s.measure(),
    decreases s.measure(),
{
    lemma_tail_measure(s);
    if s.head() == Some(Ok::<TokenKind, lex::Error>(TokenKind::ParLeft)) {
        lemma_expression_measure(s.tail());
        lemma_tail_measure(expression_parsed(s.tail()).1);
    }
}

/// Parsing a type never moves the stream backwards, and a type that parses
/// has consumed a token.
pub proof fn lemma_type_measure(s: Stream)
    ensures
        type_parsed(s).1.measure() <= s.measure(),
        type_parsed(s).0 is Ok ==> type_parsed(s).1.measure() < s.measure(),
    decreases s.measure(), 1nat,
{
    lemma_tail_measure(s);
    match s.head() {
        Some(Ok(TokenKind::Array)) => {
            lemma_array_measure(s);
        },
        Some(Ok(TokenKind::Ptr)) => {
            lemma_ptr_measure(s);
        },
        Some(Ok(TokenKind::U8)) => {},
        Some(Ok(TokenKind::Struct)) => {
            lemma_tail_measure(s.tail());
            lemma_tail_measure(s.tail().tail());
        },
        _ => {},
    }
}

/// Parsing an array type never moves the stream backwards, and one that
/// parses has consumed a token.
pub proof fn lemma_array_measure(s: Stream)
    ensures
        array_parsed(s).1.measure() <= s.measure(),
        array_parsed(s).0 is Ok ==> array_parsed(s).1.measure() < s.measure(),
    decreases s.measure(), 0nat,
{
    lemma_tail_measure(s);
    let s1 = s.tail();
    lemma_tail_measure(s1);
    let s2 = s1.tail();
    if tokens::Array::parsed(s).0 is Ok {
        lemma_type_measure(s2);
        let s3 = type_parsed(s2).1;
        lemma_tail_measure(s3);
        let s4 = s3.tail();
        lemma_tail_measure(s4);
        let s5 = s4.tail();
        lemma_tail_measure(s5);
    }
}

/// Parsing a pointer type never moves the stream backwards, and one that
/// parses has consumed a token.
pub proof fn lemma_ptr_measure(s: Stream)
    ensures
        ptr_parsed(s).1.measure() <= s.measure(),
        ptr_parsed(s).0 is Ok ==> ptr_parsed(s).1.measure() < s.measure(),
    decreases s.measure(), 0nat,
{
    lemma_tail_measure(s);
    let s1 = s.tail();
    lemma_tail_measure(s1);
    let s2 = s1.tail();
    if tokens::Ptr::parsed(s).0 is Ok {
        lemma_type_measure(s2);
        let s3 = type_parsed(s2).1;
        lemma_tail_measure(s3);
    }
}

/// Parsing a `let` statement never moves the stream backwards, and one that
/// parses has consumed a token.
pub proof fn lemma_let_measure(s: Stream)
    ensures
        Let::<Type, Expression>::parsed(s).1.measure() <= s.measure(),
        Let::<Type, Expression>::parsed(s).0 is Ok ==> Let::<Type, Expression>::parsed(
            s,
        ).1.measure() < s.measure(),
{
    lemma_tail_measure(s);
    let s1 = s.tail();
    lemma_tail_measure(s1);
    let s2 = s1.tail();
    lemma_tail_measure(s2);
    let s3 = s2.tail();
    lemma_type_measure(s3);
    let s4 = type_parsed(s3).1;
    lemma_tail_measure(s4);
    let s5 = s4.tail();
    lemma_expression_measure(s5);
    let s6 = expression_parsed(s5).1;
    lemma_tail_measure(s6);
}

/// Parsing a `const` statement never moves the stream backwards, and one
/// that parses has consumed a token.
pub proof fn lemma_const_measure(s: Stream)
    ensures
        Const::<Type>::parsed(s).1.measure() <= s.measure(),
        Const::<Type>::parsed(s).0 is Ok ==> Const::<Type>::parsed(s).1.measure() < s.measure(),
{
    lemma_tail_measure(s);
    let s1 = s.tail();
    lemma_tail_measure(s1);
    let s2 = s1.tail();
    lemma_tail_measure(s2);
    let s3 = s2.tail();
    lemma_type_measure(s3);
    let s4 = type_parsed(s3).1;
    lemma_tail_measure(s4);
}

/// Parsing a `static` statement never moves the stream backwards, and one
/// that parses has consumed a token.
pub proof fn lemma_static_measure(s: Stream)
    ensures
        Static::<Type, Expression>::parsed(s).1.measure() <= s.measure(),
        Static::<Type, Expression>::parsed(s).0 is Ok ==> Static::<Type, Expression>::parsed(
            s,
        ).1.measure() < s.measure(),
{
    lemma_tail_measure(s);
    let s1 = s.tail();
    lemma_tail_measure(s1);
    let s2 = s1.tail();
    lemma_tail_measure(s2);
    let s3 = s2.tail();
    lemma_type_measure(s3);
    let s4 = type_parsed(s3).1;
    lemma_tail_measure(s4);
    let s5 = s4.tail();
    lemma_expression_measure(s5);
    let s6 = expression_parsed(s5).1;
    lemma_tail_measure(s6);
}

/// Parsing a `continue` or a `break` statement never moves the stream
/// backwards, and one that parses has consumed a token.
pub proof fn lemma_jump_measure(s: Stream)
    ensures
        Continue::parsed(s).1.measure() <= s.measure(),
        Continue::parsed(s).0 is Ok ==> Continue::parsed(s).1.measure() < s.measure(),
        Break::parsed(s).1.measure() <= s.measure(),
        Break::parsed(s).0 is Ok ==> Break::parsed(s).1.measure() < s.measure(),
{
    lemma_tail_measure(s);
    lemma_tail_measure(s.tail());
}

/// Parsing a statement never moves the stream backwards, and a statement that
/// parses has consumed a token. The same holds of an optional statement that
/// is present.
pub proof fn lemma_statement_measure(s: Stream)
    ensures
        statement_parsed(s).1.measure() <= s.measure(),
        statement_parsed(s).0 is Ok ==> statement_parsed(s).1.measure() < s.measure(),
        optional_statement_parsed(s).1.measure() <= s.measure(),
        optional_statement_parsed(s).0 matches Ok(Some(_)) ==> optional_statement_parsed(
            s,
        ).1.measure() < s.measure(),
    decreases s.measure(), 0nat,
{
    lemma_tail_measure(s);
    let s1 = s.tail();
    match s.head() {
        Some(Ok(TokenKind::Let)) => {
            lemma_let_measure(s);
        },
        Some(Ok(TokenKind::Const)) => {
            lemma_const_measure(s);
        },
        Some(Ok(TokenKind::Static)) => {
            lemma_static_measure(s);
        },
        Some(Ok(TokenKind::Continue)) | Some(Ok(TokenKind::Break)) => {
            lemma_jump_measure(s);
        },
        Some(Ok(TokenKind::CurlyLeft)) => {
            lemma_statements_measure(s1);
            lemma_tail_measure(statements_parsed(s1).1);
        },
        Some(Ok(TokenKind::Loop)) => {
            lemma_statements_measure(s1);
        },
        Some(Ok(TokenKind::If)) | Some(Ok(TokenKind::While)) => {
            lemma_expression_measure(s1);
            lemma_statements_measure(expression_parsed(s1).1);
        },
        _ => {},
    }
}

/// Parsing a sequence of statements never moves the stream backwards.
pub proof fn lemma_statements_measure(s: Stream)
    ensures
        statements_parsed(s).1.measure() <= s.measure(),
    decreases s.measure(), 2nat,
{
    lemma_statement_measure(s);
    let (first, s1) = optional_statement_parsed(s);
    if first matches Ok(Some(_)) {
        lemma_statements_measure(s1);
    }
}

/// The parenthesis that an [`Expression`] holds parses as the product node
/// [`Parenthesis`] around a boxed expression does.
pub proof fn law_parenthesis_is_product_node(s: Stream)
    ensures
        parenthesis_parsed(s).1 == Parenthesis::<Box<Expression>>::parsed(s).1,
        match parenthesis_parsed(s).0 {
            Ok(node) => Parenthesis::<Box<Expression>>::parsed(s).0 == Ok::<
                Parenthesis<Expression>,
                Error,
            >(node.deep_view()),
            Err(e) => Parenthesis::<Box<Expression>>::parsed(s).0 == Err::<
                Parenthesis<Expression>,
                Error,
            >(e),
        },
{
}

/// The array and the pointer that a [`Type`] holds parse as the product
/// nodes [`Array`] and [`Ptr`] around a boxed type do.
pub proof fn law_array_and_ptr_are_product_nodes(s: Stream)
    ensures
        array_parsed(s).1 == Array::<Box<Type>>::parsed(s).1,
        match array_parsed(s).0 {
            Ok(node) => Array::<Box<Type>>::parsed(s).0 == Ok::<Array<Type>, Error>(
                node.deep_view(),
            ),
            Err(e) => Array::<Box<Type>>::parsed(s).0 == Err::<Array<Type>, Error>(e),
        },
        ptr_parsed(s).1 == Ptr::<Box<Type>>::parsed(s).1,
        match ptr_parsed(s).0 {
            Ok(node) => Ptr::<Box<Type>>::parsed(s).0 == Ok::<Ptr<Type>, Error>(node.deep_view()),
            Err(e) => Ptr::<Box<Type>>::parsed(s).0 == Err::<Ptr<Type>, Error>(e),
        },
{
}

/// The sequence of statements that a [`Statement`] holds parses as a vector
/// of statements does.
pub proof fn law_statements_are_a_sequence(s: Stream)
    ensures
        statements_parsed(s) == Vec::<Statement>::parsed(s),
    decreases s.measure(),
{
    let (first, s1) = optional_statement_parsed(s);
    if first matches Ok(Some(_)) && s1.measure() < s.measure() {
        law_statements_are_a_sequence(s1);
    }
}

/// The scope and the unconditional loop that a [`Statement`] holds parse as
/// the product nodes [`Scope`] and [`Loop`] around a vector of statements do.
pub proof fn law_scope_and_loop_are_product_nodes(s: Stream)
    ensures
        scope_parsed(s) == Scope::<Vec<Statement>>::parsed(s),
        loop_parsed(s) == Loop::<Vec<Statement>>::parsed(s),
{
    law_statements_are_a_sequence(s.tail());
}

/// The conditional and the conditional loop that a [`Statement`] holds parse
/// as the product nodes [`If`] and [`While`] around an expression and a
/// vector of statements do.
pub proof fn law_if_and_while_are_product_nodes(s: Stream)
    ensures
        if_parsed(s) == If::<Expression, Vec<Statement>>::parsed(s),
        while_parsed(s) == While::<Expression, Vec<Statement>>::parsed(s),
{
    law_statements_are_a_sequence(expression_parsed(s.tail()).1);
}

/// A sequence of nodes whose optional parser consumes whenever a node is
/// present is all the nodes that follow one another: where a node is
/// present, it is the first of the sequence and the rest of the sequence is
/// parsed behind it; where none is present, the sequence is empty and
/// nothing is consumed; an error is the error of the sequence.
pub proof fn law_sequence_unfold<'input, S>(s: Stream<'input>) where
    S: DeepView,
    Option<S>: Grammar<'input> + DeepView<V = Option<S::V>>,

    requires
        Option::<S>::parsed(s).0 matches Ok(Some(_)) ==> Option::<S>::parsed(s).1.measure()
            < s.measure(),
    ensures
        repeated::<S>(s) == (match Option::<S>::parsed(s) {
            (Err(e), rest) => (Err::<Seq<S::V>, Error<'input>>(e), rest),
            (Ok(None), rest) => (Ok(Seq::empty()), rest),
            (Ok(Some(first)), s1) => match repeated::<S>(s1) {
                (Ok(others), rest) => (Ok(seq![first] + others), rest),
                (Err(e), rest) => (Err(e), rest),
            },
        }),
{
}

/// A sequence of statements is all the statements that follow one another:
/// where a statement is present, it is the first of the sequence and the
/// rest of the sequence is parsed behind it; where none is present, the
/// sequence is empty and nothing is consumed; an error is the error of the
/// sequence.
pub proof fn law_statements_unfold(s: Stream)
    ensures
        statements_parsed(s) == (match optional_statement_parsed(s) {
            (Err(e), rest) => (Err::<Seq<StatementModel>, Error>(e), rest),
            (Ok(None), rest) => (Ok(Seq::empty()), rest),
            (Ok(Some(first)), s1) => match statements_parsed(s1) {
                (Ok(others), rest) => (Ok(seq![first] + others), rest),
                (Err(e), rest) => (Err(e), rest),
            },
        }),
{
    lemma_statement_measure(s);
}

/// Where no statement starts, the optional statement is absent and the
/// sequence of statements is empty, and neither consumes anything. This is
/// so before a closing brace, at the end of the input, before a lexical
/// error and on a stream that has ended.
pub proof fn law_no_statement(s: Stream)
    requires
        !(s.head() matches Some(Ok(kind)) && starts_statement(kind)),
    ensures
        optional_statement_parsed(s) == (Ok::<Option<StatementModel>, Error>(None), s),
        statements_parsed(s) == (Ok::<Seq<StatementModel>, Error>(Seq::empty()), s),
{
    assert(optional_statement_parsed(s) == (Ok::<Option<StatementModel>, Error>(None), s));
}

/// A pair of braces parses as a scope around the empty node and as a scope
/// around no statements, and either consumes the two braces.
pub proof fn law_empty_scope(s: Stream)
    requires
        s.head() == Some(Ok::<TokenKind, lex::Error>(TokenKind::CurlyLeft)),
        s.tail().head() == Some(Ok::<TokenKind, lex::Error>(TokenKind::CurlyRight)),
    ensures
        Scope::<()>::parsed(s) == (
            Ok::<Scope<()>, Error>(
                Scope {
                    curly_left: tokens::CurlyLeft { inner: s.source, span: Span::origin() },
                    inner: (),
                    curly_right: tokens::CurlyRight { inner: s.source, span: Span::origin() },
                },
            ),
            s.tail().tail(),
        ),
        Scope::<Vec<Statement>>::parsed(s) == (
            Ok::<Scope<Seq<StatementModel>>, Error>(
                Scope {
                    curly_left: tokens::CurlyLeft { inner: s.source, span: Span::origin() },
                    inner: Seq::empty(),
                    curly_right: tokens::CurlyRight { inner: s.source, span: Span::origin() },
                },
            ),
            s.tail().tail(),
        ),
{
    law_no_statement(s.tail());
    law_scope_and_loop_are_product_nodes(s);
}

/// Whether a token of kind `kind` is the first of an expression.
pub open spec fn starts_expression(kind: TokenKind) -> bool {
    match kind {
        TokenKind::Number | TokenKind::Str | TokenKind::Identifier | TokenKind::ParLeft => true,
        _ => false,
    }
}

/// Whether a token of kind `kind` is the first of a type.
pub open spec fn starts_type(kind: TokenKind) -> bool {
    match kind {
        TokenKind::U8 | TokenKind::Array | TokenKind::Ptr | TokenKind::Struct => true,
        _ => false,
    }
}

/// A token with which no variant starts, other than the end of the input,
/// is consumed and is the error of the sum type, which carries it.
pub proof fn law_unexpected_token(s: Stream, kind: TokenKind)
    requires
        s.head() == Some(Ok::<TokenKind, lex::Error>(kind)),
        kind != TokenKind::EOF,
    ensures
        !starts_expression(kind) ==> expression_parsed(s) == (
            Err::<Expression, Error>(Error::UnexpectedToken(Token::of(kind, s.source))),
            s.tail(),
        ),
        !starts_type(kind) ==> type_parsed(s) == (
            Err::<Type, Error>(Error::UnexpectedToken(Token::of(kind, s.source))),
            s.tail(),
        ),
        !starts_statement(kind) ==> statement_parsed(s) == (
            Err::<StatementModel, Error>(Error::UnexpectedToken(Token::of(kind, s.source))),
            s.tail(),
        ),
{
}

/// A lexical error is consumed and is the error of the sum type, and the
/// stream has ended with it.
pub proof fn law_lexical_error(s: Stream, e: lex::Error)
    requires
        s.head() == Some(Err::<TokenKind, lex::Error>(e)),
    ensures
        expression_parsed(s) == (Err::<Expression, Error>(Error::Lex(e)), s.tail()),
        type_parsed(s) == (Err::<Type, Error>(Error::Lex(e)), s.tail()),
        statement_parsed(s) == (Err::<StatementModel, Error>(Error::Lex(e)), s.tail()),
        s.tail().ended,
{
}

/// Whether nothing is left of a stream but the end of the input: its next
/// item is the end-of-input token, or it has ended.
pub open spec fn at_end(s: Stream) -> bool {
    s.ended || s.head() == Some(Ok::<TokenKind, lex::Error>(TokenKind::EOF))
}

/// Whether an outcome of parsing has the error [`Error::TokenizerEmpty`] only
/// with a stream that is left at its end.
pub open spec fn empty_at_end<'input, T>(
    outcome: (Result<T, Error<'input>>, Stream<'input>),
) -> bool {
    outcome.0 == Err::<T, Error<'input>>(Error::TokenizerEmpty) ==> at_end(outcome.1)
}

/// An expression gives [`Error::TokenizerEmpty`] only at the end of the
/// stream.
pub proof fn lemma_expression_empty(s: Stream)
    ensures
        empty_at_end(expression_parsed(s)),
        empty_at_end(parenthesis_parsed(s)),
    decreases s.measure(),
{
    lemma_tail_measure(s);
    if s.head() == Some(Ok::<TokenKind, lex::Error>(TokenKind::ParLeft)) {
        lemma_expression_empty(s.tail());
    }
}

/// A type gives [`Error::TokenizerEmpty`] only at the end of the stream.
pub proof fn lemma_type_empty(s: Stream)
    ensures
        empty_at_end(type_parsed(s)),
    decreases s.measure(), 1nat,
{
    match s.head() {
        Some(Ok(TokenKind::Array)) => {
            lemma_array_empty(s);
        },
        Some(Ok(TokenKind::Ptr)) => {
            lemma_ptr_empty(s);
        },
        _ => {},
    }
}

/// An array type gives [`Error::TokenizerEmpty`] only at the end of the
/// stream.
pub proof fn lemma_array_empty(s: Stream)
    ensures
        empty_at_end(array_parsed(s)),
    decreases s.measure(), 0nat,
{
    lemma_tail_measure(s);
    let s1 = s.tail();
    lemma_tail_measure(s1);
    if tokens::Array::parsed(s).0 is Ok && tokens::LessThan::parsed(s1).0 is Ok {
        lemma_type_empty(s1.tail());
    }
}

/// A pointer type gives [`Error::TokenizerEmpty`] only at the end of the
/// stream.
pub proof fn lemma_ptr_empty(s: Stream)
    ensures
        empty_at_end(ptr_parsed(s)),
    decreases s.measure(), 0nat,
{
    lemma_tail_measure(s);
    let s1 = s.tail();
    lemma_tail_measure(s1);
    if tokens::Ptr::parsed(s).0 is Ok && tokens::LessThan::parsed(s1).0 is Ok {
        lemma_type_empty(s1.tail());
    }
}

/// A `let` statement gives [`Error::TokenizerEmpty`] only at the end of the
/// stream.
pub proof fn lemma_let_empty(s: Stream)
    ensures
        empty_at_end(Let::<Type, Expression>::parsed(s)),
{
    let s3 = s.tail().tail().tail();
    lemma_type_empty(s3);
    lemma_expression_empty(type_parsed(s3).1.tail());
}

/// A `const` statement gives [`Error::TokenizerEmpty`] only at the end of
/// the stream.
pub proof fn lemma_const_empty(s: Stream)
    ensures
        empty_at_end(Const::<Type>::parsed(s)),
{
    lemma_type_empty(s.tail().tail().tail());
}

/// A `static` statement gives [`Error::TokenizerEmpty`] only at the end of
/// the stream.
pub proof fn lemma_static_empty(s: Stream)
    ensures
        empty_at_end(Static::<Type, Expression>::parsed(s)),
{
    let s3 = s.tail().tail().tail();
    lemma_type_empty(s3);
    lemma_expression_empty(type_parsed(s3).1.tail());
}

/// A `continue` and a `break` statement give [`Error::TokenizerEmpty`] only
/// at the end of the stream.
pub proof fn lemma_jump_empty(s: Stream)
    ensures
        empty_at_end(Continue::parsed(s)),
        empty_at_end(Break::parsed(s)),
{
}

/// A statement, an optional statement and a sequence of statements give
/// [`Error::TokenizerEmpty`] only at the end of the stream.
pub proof fn lemma_statement_empty(s: Stream)
    ensures
        empty_at_end(statement_parsed(s)),
        empty_at_end(optional_statement_parsed(s)),
        empty_at_end(statements_parsed(s)),
    decreases s.measure(),
{
    lemma_tail_measure(s);
    lemma_statement_measure(s);
    let s1 = s.tail();
    match s.head() {
        Some(Ok(TokenKind::Let)) => {
            lemma_let_empty(s);
        },
        Some(Ok(TokenKind::Const)) => {
            lemma_const_empty(s);
        },
        Some(Ok(TokenKind::Static)) => {
            lemma_static_empty(s);
        },
        Some(Ok(TokenKind::Continue)) | Some(Ok(TokenKind::Break)) => {
            lemma_jump_empty(s);
        },
        Some(Ok(TokenKind::CurlyLeft)) | Some(Ok(TokenKind::Loop)) => {
            lemma_statement_empty(s1);
        },
        Some(Ok(TokenKind::If)) | Some(Ok(TokenKind::While)) => {
            lemma_expression_empty(s1);
            lemma_expression_measure(s1);
            lemma_statement_empty(expression_parsed(s1).1);
        },
        _ => {},
    }
    if optional_statement_parsed(s).0 matches Ok(Some(_)) {
        lemma_statement_empty(optional_statement_parsed(s).1);
    }
}

/// The error [`Error::TokenizerEmpty`] is the answer of a sum type to a
/// stream of which nothing is left but the end of the input: the empty
/// source, a source of whitespace, a stream that has ended. Nothing is
/// consumed then. Where the error comes from within a node, the stream is
/// left at its end as well: the error comes of nothing else.
pub proof fn law_tokenizer_empty(s: Stream)
    ensures
        at_end(s) ==> expression_parsed(s) == (
            Err::<Expression, Error>(Error::TokenizerEmpty),
            s,
        ),
        at_end(s) ==> type_parsed(s) == (Err::<Type, Error>(Error::TokenizerEmpty), s),
        at_end(s) ==> statement_parsed(s) == (
            Err::<StatementModel, Error>(Error::TokenizerEmpty),
            s,
        ),
        empty_at_end(expression_parsed(s)),
        empty_at_end(type_parsed(s)),
        empty_at_end(statement_parsed(s)),
{
    lemma_expression_empty(s);
    lemma_type_empty(s);
    lemma_statement_empty(s);
}

} // verus!
