//! Tokens as grammar nodes.
//!
//! Every token type parses in two ways. As a required node it takes the next
//! item off the stream, whatever it is, and fails unless the item is a token
//! of its kind. As an optional node it takes the next item only where it is
//! a token of its kind, and else reports its absence and leaves the stream
//! as it is.

use super::{Context, Error, Grammar};
use crate::lex;
use crate::lex::tokens::{
    Addr, And, AndEquals, Array, Asm, At, Break, Colon, ColonColon, Comma, Const, Continue,
    CurlyLeft, CurlyRight, Deref, EOF, Else, Equals, EqualsEquals, ForwardSlash,
    ForwardSlashEquals, GreaterEqualsThan, GreaterThan, Identifier, If, LessEqualsThan,
    LessThan, Let, Loop, Minus, MinusEquals, Not, NotEquals, Number, Or, OrEquals, ParLeft,
    ParRight, Plus, PlusEquals, Ptr, SemiColon, SquareLeft, SquareRight, Star, StarEquals,
    Static, Str, Struct, U8, Union, While, Xor, XorEquals,
};
use crate::lex::{Stream, Token, TokenKind, Tokenizer};
use crate::Span;
use vstd::prelude::*;

verus! {

/// The required match of a token of kind `kind`: the next item is consumed;
/// it is returned where it is a token of that kind, and is the error where
/// it is not. On a stream that has ended nothing is consumed.
pub open spec fn required<'input>(kind: TokenKind, s: Stream<'input>) -> (
    Result<Token<'input>, Error<'input>>,
    Stream<'input>,
) {
    match s.head() {
        None => (Err(Error::TokenizerEmpty), s),
        Some(Err(e)) => (Err(Error::Lex(e)), s.tail()),
        Some(Ok(found)) => if found == kind {
            (Ok(Token::of(kind, s.source)), s.tail())
        } else {
            (Err(Error::UnexpectedToken(Token::of(found, s.source))), s.tail())
        },
    }
}

/// The optional match of a token of kind `kind`: the next item is consumed
/// and returned where it is a token of that kind; else nothing is consumed.
pub open spec fn optional<'input>(kind: TokenKind, s: Stream<'input>) -> (
    Option<Token<'input>>,
    Stream<'input>,
) {
    if s.head() == Some(Ok::<TokenKind, lex::Error>(kind)) {
        (Some(Token::of(kind, s.source)), s.tail())
    } else {
        (None, s)
    }
}

impl<'input> Grammar<'input> for EOF<'input> {
    open spec fn parsed(s: Stream<'input>) -> (Result<Self, Error<'input>>, Stream<'input>) {
        match required(TokenKind::EOF, s) {
            (Ok(_), rest) => (Ok(EOF { inner: s.source, span: Span::origin() }), rest),
            (Err(e), rest) => (Err(e), rest),
        }
    }

    fn parse(tokens: &mut Tokenizer<'input>, _context: &mut Context) -> (r: Result<
        Self,
        Error<'input>,
    >) {
        match tokens.next() {
            Some(Ok(Token::EOF(token))) => Ok(token),
            Some(Ok(token)) => Err(Error::UnexpectedToken(token)),
            Some(Err(e)) => Err(Error::Lex(e)),
            None => Err(Error::TokenizerEmpty),
        }
    }
}

impl<'input> Grammar<'input> for Option<EOF<'input>> {
    open spec fn parsed(s: Stream<'input>) -> (
        Result<Option<EOF<'input>>, Error<'input>>,
        Stream<'input>,
    ) {
        match optional(TokenKind::EOF, s) {
            (Some(_), rest) => (Ok(Some(EOF { inner: s.source, span: Span::origin() })), rest),
            (None, rest) => (Ok(None), rest),
        }
    }

    fn parse(tokens: &mut Tokenizer<'input>, _context: &mut Context) -> (r: Result<
        Self,
        Error<'input>,
    >) {
        match tokens.peek() {
            Some(Ok(Token::EOF(token))) => {
                let _ = tokens.next();
                Ok(Some(token))
            },
            _ => Ok(None),
        }
    }
}

impl<'input> Grammar<'input> for Identifier<'input> {
    open spec fn parsed(s: Stream<'input>) -> (Result<Self, Error<'input>>, Stream<'input>) {
        match required(TokenKind::Identifier, s) {
            (Ok(_), rest) => (Ok(Identifier { inner: s.source, span: Span::origin() }), rest),
            (Err(e), rest) => (Err(e), rest),
        }
    }

    fn parse(tokens: &mut Tokenizer<'input>, _context: &mut Context) -> (r: Result<
        Self,
        Error<'input>,
    >) {
        match tokens.next() {
            Some(Ok(Token::Identifier(token))) => Ok(token),
            Some(Ok(token)) => Err(Error::UnexpectedToken(token)),
            Some(Err(e)) => Err(Error::Lex(e)),
            None => Err(Error::TokenizerEmpty),
        }
    }
}

impl<'input> Grammar<'input> for Option<Identifier<'input>> {
    open spec fn parsed(s: Stream<'input>) -> (
        Result<Option<Identifier<'input>>, Error<'input>>,
        Stream<'input>,
    ) {
        match optional(TokenKind::Identifier, s) {
            (Some(_), rest) => (
                Ok(Some(Identifier { inner: s.source, span: Span::origin() })),
                rest,
            ),
            (None, rest) => (Ok(None), rest),
        }
    }

    fn parse(tokens: &mut Tokenizer<'input>, _context: &mut Context) -> (r: Result<
        Self,
        Error<'input>,
    >) {
        match tokens.peek() {
            Some(Ok(Token::Identifier(token))) => {
                let _ = tokens.next();
                Ok(Some(token))
            },
            _ => Ok(None),
        }
    }
}

impl<'input> Grammar<'input> for Number<'input> {
    open spec fn parsed(s: Stream<'input>) -> (Result<Self, Error<'input>>, Stream<'input>) {
        match required(TokenKind::Number, s) {
            (Ok(_), rest) => (Ok(Number { inner: s.source, span: Span::origin() }), rest),
            (Err(e), rest) => (Err(e), rest),
        }
    }

    fn parse(tokens: &mut Tokenizer<'input>, _context: &mut Context) -> (r: Result<
        Self,
        Error<'input>,
    >) {
        match tokens.next() {
            Some(Ok(Token::Number(token))) => Ok(token),
            Some(Ok(token)) => Err(Error::UnexpectedToken(token)),
            Some(Err(e)) => Err(Error::Lex(e)),
            None => Err(Error::TokenizerEmpty),
        }
    }
}

impl<'input> Grammar<'input> for Option<Number<'input>> {
    open spec fn parsed(s: Stream<'input>) -> (
        Result<Option<Number<'input>>, Error<'input>>,
        Stream<'input>,
    ) {
        match optional(TokenKind::Number, s) {
            (Some(_), rest) => (Ok(Some(Number { inner: s.source, span: Span::origin() })), rest),
            (None, rest) => (Ok(None), rest),
        }
    }

    fn parse(tokens: &mut Tokenizer<'input>, _context: &mut Context) -> (r: Result<
        Self,
        Error<'input>,
    >) {
        match tokens.peek() {
            Some(Ok(Token::Number(token))) => {
                let _ = tokens.next();
                Ok(Some(token))
            },
            _ => Ok(None),
        }
    }
}

impl<'input> Grammar<'input> for Str<'input> {
    open spec fn parsed(s: Stream<'input>) -> (Result<Self, Error<'input>>, Stream<'input>) {
        match required(TokenKind::Str, s) {
            (Ok(_), rest) => (Ok(Str { inner: s.source, span: Span::origin() }), rest),
            (Err(e), rest) => (Err(e), rest),
        }
    }

    fn parse(tokens: &mut Tokenizer<'input>, _context: &mut Context) -> (r: Result<
        Self,
        Error<'input>,
    >) {
        match tokens.next() {
            Some(Ok(Token::Str(token))) => Ok(token),
            Some(Ok(token)) => Err(Error::UnexpectedToken(token)),
            Some(Err(e)) => Err(Error::Lex(e)),
            None => Err(Error::TokenizerEmpty),
        }
    }
}

impl<'input> Grammar<'input> for Option<Str<'input>> {
    open spec fn parsed(s: Stream<'input>) -> (
        Result<Option<Str<'input>>, Error<'input>>,
        Stream<'input>,
    ) {
        match optional(TokenKind::Str, s) {
            (Some(_), rest) => (Ok(Some(Str { inner: s.source, span: Span::origin() })), rest),
            (None, rest) => (Ok(None), rest),
        }
    }

    fn parse(tokens: &mut Tokenizer<'input>, _context: &mut Context) -> (r: Result<
        Self,
        Error<'input>,
    >) {
        match tokens.peek() {
            Some(Ok(Token::Str(token))) => {
                let _ = tokens.next();
                Ok(Some(token))
            },
            _ => Ok(None),
        }
    }
}

impl<'input> Grammar<'input> for Addr<'input> {
    open spec fn parsed(s: Stream<'input>) -> (Result<Self, Error<'input>>, Stream<'input>) {
        match required(TokenKind::Addr, s) {
            (Ok(_), rest) => (Ok(Addr { inner: s.source, span: Span::origin() }), rest),
            (Err(e), rest) => (Err(e), rest),
        }
    }

    fn parse(tokens: &mut Tokenizer<'input>, _context: &mut Context) -> (r: Result<
        Self,
        Error<'input>,
    >) {
        match tokens.next() {
            Some(Ok(Token::Addr(token))) => Ok(token),
            Some(Ok(token)) => Err(Error::UnexpectedToken(token)),
            Some(Err(e)) => Err(Error::Lex(e)),
            None => Err(Error::TokenizerEmpty),
        }
    }
}

impl<'input> Grammar<'input> for Option<Addr<'input>> {
    open spec fn parsed(s: Stream<'input>) -> (
        Result<Option<Addr<'input>>, Error<'input>>,
        Stream<'input>,
    ) {
        match optional(TokenKind::Addr, s) {
            (Some(_), rest) => (Ok(Some(Addr { inner: s.source, span: Span::origin() })), rest),
            (None, rest) => (Ok(None), rest),
        }
    }

    fn parse(tokens: &mut Tokenizer<'input>, _context: &mut Context) -> (r: Result<
        Self,
        Error<'input>,
    >) {
        match tokens.peek() {
            Some(Ok(Token::Addr(token))) => {
                let _ = tokens.next();
                Ok(Some(token))
            },
            _ => Ok(None),
        }
    }
}

impl<'input> Grammar<'input> for Array<'input> {
    open spec fn parsed(s: Stream<'input>) -> (Result<Self, Error<'input>>, Stream<'input>) {
        match required(TokenKind::Array, s) {
            (Ok(_), rest) => (Ok(Array { inner: s.source, span: Span::origin() }), rest),
            (Err(e), rest) => (Err(e), rest),
        }
    }

    fn parse(tokens: &mut Tokenizer<'input>, _context: &mut Context) -> (r: Result<
        Self,
        Error<'input>,
    >) {
        match tokens.next() {
            Some(Ok(Token::Array(token))) => Ok(token),
            Some(Ok(token)) => Err(Error::UnexpectedToken(token)),
            Some(Err(e)) => Err(Error::Lex(e)),
            None => Err(Error::TokenizerEmpty),
        }
    }
}

impl<'input> Grammar<'input> for Option<Array<'input>> {
    open spec fn parsed(s: Stream<'input>) -> (
        Result<Option<Array<'input>>, Error<'input>>,
        Stream<'input>,
    ) {
        match optional(TokenKind::Array, s) {
            (Some(_), rest) => (Ok(Some(Array { inner: s.source, span: Span::origin() })), rest),
            (None, rest) => (Ok(None), rest),
        }
    }

    fn parse(tokens: &mut Tokenizer<'input>, _context: &mut Context) -> (r: Result<
        Self,
        Error<'input>,
    >) {
        match tokens.peek() {
            Some(Ok(Token::Array(token))) => {
                let _ = tokens.next();
                Ok(Some(token))
            },
            _ => Ok(None),
        }
    }
}

impl<'input> Grammar<'input> for Asm<'input> {
    open spec fn parsed(s: Stream<'input>) -> (Result<Self, Error<'input>>, Stream<'input>) {
        match required(TokenKind::Asm, s) {
            (Ok(_), rest) => (Ok(Asm { inner: s.source, span: Span::origin() }), rest),
            (Err(e), rest) => (Err(e), rest),
        }
    }

    fn parse(tokens: &mut Tokenizer<'input>, _context: &mut Context) -> (r: Result<
        Self,
        Error<'input>,
    >) {
        match tokens.next() {
            Some(Ok(Token::Asm(token))) => Ok(token),
            Some(Ok(token)) => Err(Error::UnexpectedToken(token)),
            Some(Err(e)) => Err(Error::Lex(e)),
            None => Err(Error::TokenizerEmpty),
        }
    }
}

impl<'input> Grammar<'input> for Option<Asm<'input>> {
    open spec fn parsed(s: Stream<'input>) -> (
        Result<Option<Asm<'input>>, Error<'input>>,
        Stream<'input>,
    ) {
        match optional(TokenKind::Asm, s) {
            (Some(_), rest) => (Ok(Some(Asm { inner: s.source, span: Span::origin() })), rest),
            (None, rest) => (Ok(None), rest),
        }
    }

    fn parse(tokens: &mut Tokenizer<'input>, _context: &mut Context) -> (r: Result<
        Self,
        Error<'input>,
    >) {
        match tokens.peek() {
            Some(Ok(Token::Asm(token))) => {
                let _ = tokens.next();
                Ok(Some(token))
            },
            _ => Ok(None),
        }
    }
}

impl<'input> Grammar<'input> for Break<'input> {
    open spec fn parsed(s: Stream<'input>) -> (Result<Self, Error<'input>>, Stream<'input>) {
        match required(TokenKind::Break, s) {
            (Ok(_), rest) => (Ok(Break { inner: s.source, span: Span::origin() }), rest),
            (Err(e), rest) => (Err(e), rest),
        }
    }

    fn parse(tokens: &mut Tokenizer<'input>, _context: &mut Context) -> (r: Result<
        Self,
        Error<'input>,
    >) {
        match tokens.next() {
            Some(Ok(Token::Break(token))) => Ok(token),
            Some(Ok(token)) => Err(Error::UnexpectedToken(token)),
            Some(Err(e)) => Err(Error::Lex(e)),
            None => Err(Error::TokenizerEmpty),
        }
    }
}

impl<'input> Grammar<'input> for Option<Break<'input>> {
    open spec fn parsed(s: Stream<'input>) -> (
        Result<Option<Break<'input>>, Error<'input>>,
        Stream<'input>,
    ) {
        match optional(TokenKind::Break, s) {
            (Some(_), rest) => (Ok(Some(Break { inner: s.source, span: Span::origin() })), rest),
            (None, rest) => (Ok(None), rest),
        }
    }

    fn parse(tokens: &mut Tokenizer<'input>, _context: &mut Context) -> (r: Result<
        Self,
        Error<'input>,
    >) {
        match tokens.peek() {
            Some(Ok(Token::Break(token))) => {
                let _ = tokens.next();
                Ok(Some(token))
            },
            _ => Ok(None),
        }
    }
}

impl<'input> Grammar<'input> for Const<'input> {
    open spec fn parsed(s: Stream<'input>) -> (Result<Self, Error<'input>>, Stream<'input>) {
        match required(TokenKind::Const, s) {
            (Ok(_), rest) => (Ok(Const { inner: s.source, span: Span::origin() }), rest),
            (Err(e), rest) => (Err(e), rest),
        }
    }

    fn parse(tokens: &mut Tokenizer<'input>, _context: &mut Context) -> (r: Result<
        Self,
        Error<'input>,
    >) {
        match tokens.next() {
            Some(Ok(Token::Const(token))) => Ok(token),
            Some(Ok(token)) => Err(Error::UnexpectedToken(token)),
            Some(Err(e)) => Err(Error::Lex(e)),
            None => Err(Error::TokenizerEmpty),
        }
    }
}

impl<'input> Grammar<'input> for Option<Const<'input>> {
    open spec fn parsed(s: Stream<'input>) -> (
        Result<Option<Const<'input>>, Error<'input>>,
        Stream<'input>,
    ) {
        match optional(TokenKind::Const, s) {
            (Some(_), rest) => (Ok(Some(Const { inner: s.source, span: Span::origin() })), rest),
            (None, rest) => (Ok(None), rest),
        }
    }

    fn parse(tokens: &mut Tokenizer<'input>, _context: &mut Context) -> (r: Result<
        Self,
        Error<'input>,
    >) {
        match tokens.peek() {
            Some(Ok(Token::Const(token))) => {
                let _ = tokens.next();
                Ok(Some(token))
            },
            _ => Ok(None),
        }
    }
}

impl<'input> Grammar<'input> for Continue<'input> {
    open spec fn parsed(s: Stream<'input>) -> (Result<Self, Error<'input>>, Stream<'input>) {
        match required(TokenKind::Continue, s) {
            (Ok(_), rest) => (Ok(Continue { inner: s.source, span: Span::origin() }), rest),
            (Err(e), rest) => (Err(e), rest),
        }
    }

    fn parse(tokens: &mut Tokenizer<'input>, _context: &mut Context) -> (r: Result<
        Self,
        Error<'input>,
    >) {
        match tokens.next() {
            Some(Ok(Token::Continue(token))) => Ok(token),
            Some(Ok(token)) => Err(Error::UnexpectedToken(token)),
            Some(Err(e)) => Err(Error::Lex(e)),
            None => Err(Error::TokenizerEmpty),
        }
    }
}

impl<'input> Grammar<'input> for Option<Continue<'input>> {
    open spec fn parsed(s: Stream<'input>) -> (
        Result<Option<Continue<'input>>, Error<'input>>,
        Stream<'input>,
    ) {
        match optional(TokenKind::Continue, s) {
            (Some(_), rest) => (Ok(Some(Continue { inner: s.source, span: Span::origin() })), rest),
            (None, rest) => (Ok(None), rest),
        }
    }

    fn parse(tokens: &mut Tokenizer<'input>, _context: &mut Context) -> (r: Result<
        Self,
        Error<'input>,
    >) {
        match tokens.peek() {
            Some(Ok(Token::Continue(token))) => {
                let _ = tokens.next();
                Ok(Some(token))
            },
            _ => Ok(None),
        }
    }
}

impl<'input> Grammar<'input> for Deref<'input> {
    open spec fn parsed(s: Stream<'input>) -> (Result<Self, Error<'input>>, Stream<'input>) {
        match required(TokenKind::Deref, s) {
            (Ok(_), rest) => (Ok(Deref { inner: s.source, span: Span::origin() }), rest),
            (Err(e), rest) => (Err(e), rest),
        }
    }

    fn parse(tokens: &mut Tokenizer<'input>, _context: &mut Context) -> (r: Result<
        Self,
        Error<'input>,
    >) {
        match tokens.next() {
            Some(Ok(Token::Deref(token))) => Ok(token),
            Some(Ok(token)) => Err(Error::UnexpectedToken(token)),
            Some(Err(e)) => Err(Error::Lex(e)),
            None => Err(Error::TokenizerEmpty),
        }
    }
}

impl<'input> Grammar<'input> for Option<Deref<'input>> {
    open spec fn parsed(s: Stream<'input>) -> (
        Result<Option<Deref<'input>>, Error<'input>>,
        Stream<'input>,
    ) {
        match optional(TokenKind::Deref, s) {
            (Some(_), rest) => (Ok(Some(Deref { inner: s.source, span: Span::origin() })), rest),
            (None, rest) => (Ok(None), rest),
        }
    }

    fn parse(tokens: &mut Tokenizer<'input>, _context: &mut Context) -> (r: Result<
        Self,
        Error<'input>,
    >) {
        match tokens.peek() {
            Some(Ok(Token::Deref(token))) => {
                let _ = tokens.next();
                Ok(Some(token))
            },
            _ => Ok(None),
        }
    }
}

impl<'input> Grammar<'input> for Else<'input> {
    open spec fn parsed(s: Stream<'input>) -> (Result<Self, Error<'input>>, Stream<'input>) {
        match required(TokenKind::Else, s) {
            (Ok(_), rest) => (Ok(Else { inner: s.source, span: Span::origin() }), rest),
            (Err(e), rest) => (Err(e), rest),
        }
    }

    fn parse(tokens: &mut Tokenizer<'input>, _context: &mut Context) -> (r: Result<
        Self,
        Error<'input>,
    >) {
        match tokens.next() {
            Some(Ok(Token::Else(token))) => Ok(token),
            Some(Ok(token)) => Err(Error::UnexpectedToken(token)),
            Some(Err(e)) => Err(Error::Lex(e)),
            None => Err(Error::TokenizerEmpty),
        }
    }
}

impl<'input> Grammar<'input> for Option<Else<'input>> {
    open spec fn parsed(s: Stream<'input>) -> (
        Result<Option<Else<'input>>, Error<'input>>,
        Stream<'input>,
    ) {
        match optional(TokenKind::Else, s) {
            (Some(_), rest) => (Ok(Some(Else { inner: s.source, span: Span::origin() })), rest),
            (None, rest) => (Ok(None), rest),
        }
    }

    fn parse(tokens: &mut Tokenizer<'input>, _context: &mut Context) -> (r: Result<
        Self,
        Error<'input>,
    >) {
        match tokens.peek() {
            Some(Ok(Token::Else(token))) => {
                let _ = tokens.next();
                Ok(Some(token))
            },
            _ => Ok(None),
        }
    }
}

impl<'input> Grammar<'input> for If<'input> {
    open spec fn parsed(s: Stream<'input>) -> (Result<Self, Error<'input>>, Stream<'input>) {
        match required(TokenKind::If, s) {
            (Ok(_), rest) => (Ok(If { inner: s.source, span: Span::origin() }), rest),
            (Err(e), rest) => (Err(e), rest),
        }
    }

    fn parse(tokens: &mut Tokenizer<'input>, _context: &mut Context) -> (r: Result<
        Self,
        Error<'input>,
    >) {
        match tokens.next() {
            Some(Ok(Token::If(token))) => Ok(token),
            Some(Ok(token)) => Err(Error::UnexpectedToken(token)),
            Some(Err(e)) => Err(Error::Lex(e)),
            None => Err(Error::TokenizerEmpty),
        }
    }
}

impl<'input> Grammar<'input> for Option<If<'input>> {
    open spec fn parsed(s: Stream<'input>) -> (
        Result<Option<If<'input>>, Error<'input>>,
        Stream<'input>,
    ) {
        match optional(TokenKind::If, s) {
            (Some(_), rest) => (Ok(Some(If { inner: s.source, span: Span::origin() })), rest),
            (None, rest) => (Ok(None), rest),
        }
    }

    fn parse(tokens: &mut Tokenizer<'input>, _context: &mut Context) -> (r: Result<
        Self,
        Error<'input>,
    >) {
        match tokens.peek() {
            Some(Ok(Token::If(token))) => {
                let _ = tokens.next();
                Ok(Some(token))
            },
            _ => Ok(None),
        }
    }
}

impl<'input> Grammar<'input> for Let<'input> {
    open spec fn parsed(s: Stream<'input>) -> (Result<Self, Error<'input>>, Stream<'input>) {
        match required(TokenKind::Let, s) {
            (Ok(_), rest) => (Ok(Let { inner: s.source, span: Span::origin() }), rest),
            (Err(e), rest) => (Err(e), rest),
        }
    }

    fn parse(tokens: &mut Tokenizer<'input>, _context: &mut Context) -> (r: Result<
        Self,
        Error<'input>,
    >) {
        match tokens.next() {
            Some(Ok(Token::Let(token))) => Ok(token),
            Some(Ok(token)) => Err(Error::UnexpectedToken(token)),
            Some(Err(e)) => Err(Error::Lex(e)),
            None => Err(Error::TokenizerEmpty),
        }
    }
}

impl<'input> Grammar<'input> for Option<Let<'input>> {
    open spec fn parsed(s: Stream<'input>) -> (
        Result<Option<Let<'input>>, Error<'input>>,
        Stream<'input>,
    ) {
        match optional(TokenKind::Let, s) {
            (Some(_), rest) => (Ok(Some(Let { inner: s.source, span: Span::origin() })), rest),
            (None, rest) => (Ok(None), rest),
        }
    }

    fn parse(tokens: &mut Tokenizer<'input>, _context: &mut Context) -> (r: Result<
        Self,
        Error<'input>,
    >) {
        match tokens.peek() {
            Some(Ok(Token::Let(token))) => {
                let _ = tokens.next();
                Ok(Some(token))
            },
            _ => Ok(None),
        }
    }
}

impl<'input> Grammar<'input> for Loop<'input> {
    open spec fn parsed(s: Stream<'input>) -> (Result<Self, Error<'input>>, Stream<'input>) {
        match required(TokenKind::Loop, s) {
            (Ok(_), rest) => (Ok(Loop { inner: s.source, span: Span::origin() }), rest),
            (Err(e), rest) => (Err(e), rest),
        }
    }

    fn parse(tokens: &mut Tokenizer<'input>, _context: &mut Context) -> (r: Result<
        Self,
        Error<'input>,
    >) {
        match tokens.next() {
            Some(Ok(Token::Loop(token))) => Ok(token),
            Some(Ok(token)) => Err(Error::UnexpectedToken(token)),
            Some(Err(e)) => Err(Error::Lex(e)),
            None => Err(Error::TokenizerEmpty),
        }
    }
}

impl<'input> Grammar<'input> for Option<Loop<'input>> {
    open spec fn parsed(s: Stream<'input>) -> (
        Result<Option<Loop<'input>>, Error<'input>>,
        Stream<'input>,
    ) {
        match optional(TokenKind::Loop, s) {
            (Some(_), rest) => (Ok(Some(Loop { inner: s.source, span: Span::origin() })), rest),
            (None, rest) => (Ok(None), rest),
        }
    }

    fn parse(tokens: &mut Tokenizer<'input>, _context: &mut Context) -> (r: Result<
        Self,
        Error<'input>,
    >) {
        match tokens.peek() {
            Some(Ok(Token::Loop(token))) => {
                let _ = tokens.next();
                Ok(Some(token))
            },
            _ => Ok(None),
        }
    }
}

impl<'input> Grammar<'input> for Ptr<'input> {
    open spec fn parsed(s: Stream<'input>) -> (Result<Self, Error<'input>>, Stream<'input>) {
        match required(TokenKind::Ptr, s) {
            (Ok(_), rest) => (Ok(Ptr { inner: s.source, span: Span::origin() }), rest),
            (Err(e), rest) => (Err(e), rest),
        }
    }

    fn parse(tokens: &mut Tokenizer<'input>, _context: &mut Context) -> (r: Result<
        Self,
        Error<'input>,
    >) {
        match tokens.next() {
            Some(Ok(Token::Ptr(token))) => Ok(token),
            Some(Ok(token)) => Err(Error::UnexpectedToken(token)),
            Some(Err(e)) => Err(Error::Lex(e)),
            None => Err(Error::TokenizerEmpty),
        }
    }
}

impl<'input> Grammar<'input> for Option<Ptr<'input>> {
    open spec fn parsed(s: Stream<'input>) -> (
        Result<Option<Ptr<'input>>, Error<'input>>,
        Stream<'input>,
    ) {
        match optional(TokenKind::Ptr, s) {
            (Some(_), rest) => (Ok(Some(Ptr { inner: s.source, span: Span::origin() })), rest),
            (None, rest) => (Ok(None), rest),
        }
    }

    fn parse(tokens: &mut Tokenizer<'input>, _context: &mut Context) -> (r: Result<
        Self,
        Error<'input>,
    >) {
        match tokens.peek() {
            Some(Ok(Token::Ptr(token))) => {
                let _ = tokens.next();
                Ok(Some(token))
            },
            _ => Ok(None),
        }
    }
}

impl<'input> Grammar<'input> for Static<'input> {
    open spec fn parsed(s: Stream<'input>) -> (Result<Self, Error<'input>>, Stream<'input>) {
        match required(TokenKind::Static, s) {
            (Ok(_), rest) => (Ok(Static { inner: s.source, span: Span::origin() }), rest),
            (Err(e), rest) => (Err(e), rest),
        }
    }

    fn parse(tokens: &mut Tokenizer<'input>, _context: &mut Context) -> (r: Result<
        Self,
        Error<'input>,
    >) {
        match tokens.next() {
            Some(Ok(Token::Static(token))) => Ok(token),
            Some(Ok(token)) => Err(Error::UnexpectedToken(token)),
            Some(Err(e)) => Err(Error::Lex(e)),
            None => Err(Error::TokenizerEmpty),
        }
    }
}

impl<'input> Grammar<'input> for Option<Static<'input>> {
    open spec fn parsed(s: Stream<'input>) -> (
        Result<Option<Static<'input>>, Error<'input>>,
        Stream<'input>,
    ) {
        match optional(TokenKind::Static, s) {
            (Some(_), rest) => (Ok(Some(Static { inner: s.source, span: Span::origin() })), rest),
            (None, rest) => (Ok(None), rest),
        }
    }

    fn parse(tokens: &mut Tokenizer<'input>, _context: &mut Context) -> (r: Result<
        Self,
        Error<'input>,
    >) {
        match tokens.peek() {
            Some(Ok(Token::Static(token))) => {
                let _ = tokens.next();
                Ok(Some(token))
            },
            _ => Ok(None),
        }
    }
}

impl<'input> Grammar<'input> for Struct<'input> {
    open spec fn parsed(s: Stream<'input>) -> (Result<Self, Error<'input>>, Stream<'input>) {
        match required(TokenKind::Struct, s) {
            (Ok(_), rest) => (Ok(Struct { inner: s.source, span: Span::origin() }), rest),
            (Err(e), rest) => (Err(e), rest),
        }
    }

    fn parse(tokens: &mut Tokenizer<'input>, _context: &mut Context) -> (r: Result<
        Self,
        Error<'input>,
    >) {
        match tokens.next() {
            Some(Ok(Token::Struct(token))) => Ok(token),
            Some(Ok(token)) => Err(Error::UnexpectedToken(token)),
            Some(Err(e)) => Err(Error::Lex(e)),
            None => Err(Error::TokenizerEmpty),
        }
    }
}

impl<'input> Grammar<'input> for Option<Struct<'input>> {
    open spec fn parsed(s: Stream<'input>) -> (
        Result<Option<Struct<'input>>, Error<'input>>,
        Stream<'input>,
    ) {
        match optional(TokenKind::Struct, s) {
            (Some(_), rest) => (Ok(Some(Struct { inner: s.source, span: Span::origin() })), rest),
            (None, rest) => (Ok(None), rest),
        }
    }

    fn parse(tokens: &mut Tokenizer<'input>, _context: &mut Context) -> (r: Result<
        Self,
        Error<'input>,
    >) {
        match tokens.peek() {
            Some(Ok(Token::Struct(token))) => {
                let _ = tokens.next();
                Ok(Some(token))
            },
            _ => Ok(None),
        }
    }
}

impl<'input> Grammar<'input> for Union<'input> {
    open spec fn parsed(s: Stream<'input>) -> (Result<Self, Error<'input>>, Stream<'input>) {
        match required(TokenKind::Union, s) {
            (Ok(_), rest) => (Ok(Union { inner: s.source, span: Span::origin() }), rest),
            (Err(e), rest) => (Err(e), rest),
        }
    }

    fn parse(tokens: &mut Tokenizer<'input>, _context: &mut Context) -> (r: Result<
        Self,
        Error<'input>,
    >) {
        match tokens.next() {
            Some(Ok(Token::Union(token))) => Ok(token),
            Some(Ok(token)) => Err(Error::UnexpectedToken(token)),
            Some(Err(e)) => Err(Error::Lex(e)),
            None => Err(Error::TokenizerEmpty),
        }
    }
}

impl<'input> Grammar<'input> for Option<Union<'input>> {
    open spec fn parsed(s: Stream<'input>) -> (
        Result<Option<Union<'input>>, Error<'input>>,
        Stream<'input>,
    ) {
        match optional(TokenKind::Union, s) {
            (Some(_), rest) => (Ok(Some(Union { inner: s.source, span: Span::origin() })), rest),
            (None, rest) => (Ok(None), rest),
        }
    }

    fn parse(tokens: &mut Tokenizer<'input>, _context: &mut Context) -> (r: Result<
        Self,
        Error<'input>,
    >) {
        match tokens.peek() {
            Some(Ok(Token::Union(token))) => {
                let _ = tokens.next();
                Ok(Some(token))
            },
            _ => Ok(None),
        }
    }
}

impl<'input> Grammar<'input> for U8<'input> {
    open spec fn parsed(s: Stream<'input>) -> (Result<Self, Error<'input>>, Stream<'input>) {
        match required(TokenKind::U8, s) {
            (Ok(_), rest) => (Ok(U8 { inner: s.source, span: Span::origin() }), rest),
            (Err(e), rest) => (Err(e), rest),
        }
    }

    fn parse(tokens: &mut Tokenizer<'input>, _context: &mut Context) -> (r: Result<
        Self,
        Error<'input>,
    >) {
        match tokens.next() {
            Some(Ok(Token::U8(token))) => Ok(token),
            Some(Ok(token)) => Err(Error::UnexpectedToken(token)),
            Some(Err(e)) => Err(Error::Lex(e)),
            None => Err(Error::TokenizerEmpty),
        }
    }
}

impl<'input> Grammar<'input> for Option<U8<'input>> {
    open spec fn parsed(s: Stream<'input>) -> (
        Result<Option<U8<'input>>, Error<'input>>,
        Stream<'input>,
    ) {
        match optional(TokenKind::U8, s) {
            (Some(_), rest) => (Ok(Some(U8 { inner: s.source, span: Span::origin() })), rest),
            (None, rest) => (Ok(None), rest),
        }
    }

    fn parse(tokens: &mut Tokenizer<'input>, _context: &mut Context) -> (r: Result<
        Self,
        Error<'input>,
    >) {
        match tokens.peek() {
            Some(Ok(Token::U8(token))) => {
                let _ = tokens.next();
                Ok(Some(token))
            },
            _ => Ok(None),
        }
    }
}

impl<'input> Grammar<'input> for While<'input> {
    open spec fn parsed(s: Stream<'input>) -> (Result<Self, Error<'input>>, Stream<'input>) {
        match required(TokenKind::While, s) {
            (Ok(_), rest) => (Ok(While { inner: s.source, span: Span::origin() }), rest),
            (Err(e), rest) => (Err(e), rest),
        }
    }

    fn parse(tokens: &mut Tokenizer<'input>, _context: &mut Context) -> (r: Result<
        Self,
        Error<'input>,
    >) {
        match tokens.next() {
            Some(Ok(Token::While(token))) => Ok(token),
            Some(Ok(token)) => Err(Error::UnexpectedToken(token)),
            Some(Err(e)) => Err(Error::Lex(e)),
            None => Err(Error::TokenizerEmpty),
        }
    }
}

impl<'input> Grammar<'input> for Option<While<'input>> {
    open spec fn parsed(s: Stream<'input>) -> (
        Result<Option<While<'input>>, Error<'input>>,
        Stream<'input>,
    ) {
        match optional(TokenKind::While, s) {
            (Some(_), rest) => (Ok(Some(While { inner: s.source, span: Span::origin() })), rest),
            (None, rest) => (Ok(None), rest),
        }
    }

    fn parse(tokens: &mut Tokenizer<'input>, _context: &mut Context) -> (r: Result<
        Self,
        Error<'input>,
    >) {
        match tokens.peek() {
            Some(Ok(Token::While(token))) => {
                let _ = tokens.next();
                Ok(Some(token))
            },
            _ => Ok(None),
        }
    }
}

impl<'input> Grammar<'input> for AndEquals<'input> {
    open spec fn parsed(s: Stream<'input>) -> (Result<Self, Error<'input>>, Stream<'input>) {
        match required(TokenKind::AndEquals, s) {
            (Ok(_), rest) => (Ok(AndEquals { inner: s.source, span: Span::origin() }), rest),
            (Err(e), rest) => (Err(e), rest),
        }
    }

    fn parse(tokens: &mut Tokenizer<'input>, _context: &mut Context) -> (r: Result<
        Self,
        Error<'input>,
    >) {
        match tokens.next() {
            Some(Ok(Token::AndEquals(token))) => Ok(token),
            Some(Ok(token)) => Err(Error::UnexpectedToken(token)),
            Some(Err(e)) => Err(Error::Lex(e)),
            None => Err(Error::TokenizerEmpty),
        }
    }
}

impl<'input> Grammar<'input> for Option<AndEquals<'input>> {
    open spec fn parsed(s: Stream<'input>) -> (
        Result<Option<AndEquals<'input>>, Error<'input>>,
        Stream<'input>,
    ) {
        match optional(TokenKind::AndEquals, s) {
            (Some(_), rest) => (
                Ok(Some(AndEquals { inner: s.source, span: Span::origin() })),
                rest,
            ),
            (None, rest) => (Ok(None), rest),
        }
    }

    fn parse(tokens: &mut Tokenizer<'input>, _context: &mut Context) -> (r: Result<
        Self,
        Error<'input>,
    >) {
        match tokens.peek() {
            Some(Ok(Token::AndEquals(token))) => {
                let _ = tokens.next();
                Ok(Some(token))
            },
            _ => Ok(None),
        }
    }
}

impl<'input> Grammar<'input> for ColonColon<'input> {
    open spec fn parsed(s: Stream<'input>) -> (Result<Self, Error<'input>>, Stream<'input>) {
        match required(TokenKind::ColonColon, s) {
            (Ok(_), rest) => (Ok(ColonColon { inner: s.source, span: Span::origin() }), rest),
            (Err(e), rest) => (Err(e), rest),
        }
    }

    fn parse(tokens: &mut Tokenizer<'input>, _context: &mut Context) -> (r: Result<
        Self,
        Error<'input>,
    >) {
        match tokens.next() {
            Some(Ok(Token::ColonColon(token))) => Ok(token),
            Some(Ok(token)) => Err(Error::UnexpectedToken(token)),
            Some(Err(e)) => Err(Error::Lex(e)),
            None => Err(Error::TokenizerEmpty),
        }
    }
}

impl<'input> Grammar<'input> for Option<ColonColon<'input>> {
    open spec fn parsed(s: Stream<'input>) -> (
        Result<Option<ColonColon<'input>>, Error<'input>>,
        Stream<'input>,
    ) {
        match optional(TokenKind::ColonColon, s) {
            (Some(_), rest) => (
                Ok(Some(ColonColon { inner: s.source, span: Span::origin() })),
                rest,
            ),
            (None, rest) => (Ok(None), rest),
        }
    }

    fn parse(tokens: &mut Tokenizer<'input>, _context: &mut Context) -> (r: Result<
        Self,
        Error<'input>,
    >) {
        match tokens.peek() {
            Some(Ok(Token::ColonColon(token))) => {
                let _ = tokens.next();
                Ok(Some(token))
            },
            _ => Ok(None),
        }
    }
}

impl<'input> Grammar<'input> for EqualsEquals<'input> {
    open spec fn parsed(s: Stream<'input>) -> (Result<Self, Error<'input>>, Stream<'input>) {
        match required(TokenKind::EqualsEquals, s) {
            (Ok(_), rest) => (Ok(EqualsEquals { inner: s.source, span: Span::origin() }), rest),
            (Err(e), rest) => (Err(e), rest),
        }
    }

    fn parse(tokens: &mut Tokenizer<'input>, _context: &mut Context) -> (r: Result<
        Self,
        Error<'input>,
    >) {
        match tokens.next() {
            Some(Ok(Token::EqualsEquals(token))) => Ok(token),
            Some(Ok(token)) => Err(Error::UnexpectedToken(token)),
            Some(Err(e)) => Err(Error::Lex(e)),
            None => Err(Error::TokenizerEmpty),
        }
    }
}

impl<'input> Grammar<'input> for Option<EqualsEquals<'input>> {
    open spec fn parsed(s: Stream<'input>) -> (
        Result<Option<EqualsEquals<'input>>, Error<'input>>,
        Stream<'input>,
    ) {
        match optional(TokenKind::EqualsEquals, s) {
            (Some(_), rest) => (
                Ok(Some(EqualsEquals { inner: s.source, span: Span::origin() })),
                rest,
            ),
            (None, rest) => (Ok(None), rest),
        }
    }

    fn parse(tokens: &mut Tokenizer<'input>, _context: &mut Context) -> (r: Result<
        Self,
        Error<'input>,
    >) {
        match tokens.peek() {
            Some(Ok(Token::EqualsEquals(token))) => {
                let _ = tokens.next();
                Ok(Some(token))
            },
            _ => Ok(None),
        }
    }
}

impl<'input> Grammar<'input> for ForwardSlashEquals<'input> {
    open spec fn parsed(s: Stream<'input>) -> (Result<Self, Error<'input>>, Stream<'input>) {
        match required(TokenKind::ForwardSlashEquals, s) {
            (Ok(_), rest) => (
                Ok(ForwardSlashEquals { inner: s.source, span: Span::origin() }),
                rest,
            ),
            (Err(e), rest) => (Err(e), rest),
        }
    }

    fn parse(tokens: &mut Tokenizer<'input>, _context: &mut Context) -> (r: Result<
        Self,
        Error<'input>,
    >) {
        match tokens.next() {
            Some(Ok(Token::ForwardSlashEquals(token))) => Ok(token),
            Some(Ok(token)) => Err(Error::UnexpectedToken(token)),
            Some(Err(e)) => Err(Error::Lex(e)),
            None => Err(Error::TokenizerEmpty),
        }
    }
}

impl<'input> Grammar<'input> for Option<ForwardSlashEquals<'input>> {
    open spec fn parsed(s: Stream<'input>) -> (
        Result<Option<ForwardSlashEquals<'input>>, Error<'input>>,
        Stream<'input>,
    ) {
        match optional(TokenKind::ForwardSlashEquals, s) {
            (Some(_), rest) => (
                Ok(Some(ForwardSlashEquals { inner: s.source, span: Span::origin() })),
                rest,
            ),
            (None, rest) => (Ok(None), rest),
        }
    }

    fn parse(tokens: &mut Tokenizer<'input>, _context: &mut Context) -> (r: Result<
        Self,
        Error<'input>,
    >) {
        match tokens.peek() {
            Some(Ok(Token::ForwardSlashEquals(token))) => {
                let _ = tokens.next();
                Ok(Some(token))
            },
            _ => Ok(None),
        }
    }
}

impl<'input> Grammar<'input> for GreaterEqualsThan<'input> {
    open spec fn parsed(s: Stream<'input>) -> (Result<Self, Error<'input>>, Stream<'input>) {
        match required(TokenKind::GreaterEqualsThan, s) {
            (Ok(_), rest) => (
                Ok(GreaterEqualsThan { inner: s.source, span: Span::origin() }),
                rest,
            ),
            (Err(e), rest) => (Err(e), rest),
        }
    }

    fn parse(tokens: &mut Tokenizer<'input>, _context: &mut Context) -> (r: Result<
        Self,
        Error<'input>,
    >) {
        match tokens.next() {
            Some(Ok(Token::GreaterEqualsThan(token))) => Ok(token),
            Some(Ok(token)) => Err(Error::UnexpectedToken(token)),
            Some(Err(e)) => Err(Error::Lex(e)),
            None => Err(Error::TokenizerEmpty),
        }
    }
}

impl<'input> Grammar<'input> for Option<GreaterEqualsThan<'input>> {
    open spec fn parsed(s: Stream<'input>) -> (
        Result<Option<GreaterEqualsThan<'input>>, Error<'input>>,
        Stream<'input>,
    ) {
        match optional(TokenKind::GreaterEqualsThan, s) {
            (Some(_), rest) => (
                Ok(Some(GreaterEqualsThan { inner: s.source, span: Span::origin() })),
                rest,
            ),
            (None, rest) => (Ok(None), rest),
        }
    }

    fn parse(tokens: &mut Tokenizer<'input>, _context: &mut Context) -> (r: Result<
        Self,
        Error<'input>,
    >) {
        match tokens.peek() {
            Some(Ok(Token::GreaterEqualsThan(token))) => {
                let _ = tokens.next();
                Ok(Some(token))
            },
            _ => Ok(None),
        }
    }
}

impl<'input> Grammar<'input> for LessEqualsThan<'input> {
    open spec fn parsed(s: Stream<'input>) -> (Result<Self, Error<'input>>, Stream<'input>) {
        match required(TokenKind::LessEqualsThan, s) {
            (Ok(_), rest) => (Ok(LessEqualsThan { inner: s.source, span: Span::origin() }), rest),
            (Err(e), rest) => (Err(e), rest),
        }
    }

    fn parse(tokens: &mut Tokenizer<'input>, _context: &mut Context) -> (r: Result<
        Self,
        Error<'input>,
    >) {
        match tokens.next() {
            Some(Ok(Token::LessEqualsThan(token))) => Ok(token),
            Some(Ok(token)) => Err(Error::UnexpectedToken(token)),
            Some(Err(e)) => Err(Error::Lex(e)),
            None => Err(Error::TokenizerEmpty),
        }
    }
}

impl<'input> Grammar<'input> for Option<LessEqualsThan<'input>> {
    open spec fn parsed(s: Stream<'input>) -> (
        Result<Option<LessEqualsThan<'input>>, Error<'input>>,
        Stream<'input>,
    ) {
        match optional(TokenKind::LessEqualsThan, s) {
            (Some(_), rest) => (
                Ok(Some(LessEqualsThan { inner: s.source, span: Span::origin() })),
                rest,
            ),
            (None, rest) => (Ok(None), rest),
        }
    }

    fn parse(tokens: &mut Tokenizer<'input>, _context: &mut Context) -> (r: Result<
        Self,
        Error<'input>,
    >) {
        match tokens.peek() {
            Some(Ok(Token::LessEqualsThan(token))) => {
                let _ = tokens.next();
                Ok(Some(token))
            },
            _ => Ok(None),
        }
    }
}

impl<'input> Grammar<'input> for MinusEquals<'input> {
    open spec fn parsed(s: Stream<'input>) -> (Result<Self, Error<'input>>, Stream<'input>) {
        match required(TokenKind::MinusEquals, s) {
            (Ok(_), rest) => (Ok(MinusEquals { inner: s.source, span: Span::origin() }), rest),
            (Err(e), rest) => (Err(e), rest),
        }
    }

    fn parse(tokens: &mut Tokenizer<'input>, _context: &mut Context) -> (r: Result<
        Self,
        Error<'input>,
    >) {
        match tokens.next() {
            Some(Ok(Token::MinusEquals(token))) => Ok(token),
            Some(Ok(token)) => Err(Error::UnexpectedToken(token)),
            Some(Err(e)) => Err(Error::Lex(e)),
            None => Err(Error::TokenizerEmpty),
        }
    }
}

impl<'input> Grammar<'input> for Option<MinusEquals<'input>> {
    open spec fn parsed(s: Stream<'input>) -> (
        Result<Option<MinusEquals<'input>>, Error<'input>>,
        Stream<'input>,
    ) {
        match optional(TokenKind::MinusEquals, s) {
            (Some(_), rest) => (
                Ok(Some(MinusEquals { inner: s.source, span: Span::origin() })),
                rest,
            ),
            (None, rest) => (Ok(None), rest),
        }
    }

    fn parse(tokens: &mut Tokenizer<'input>, _context: &mut Context) -> (r: Result<
        Self,
        Error<'input>,
    >) {
        match tokens.peek() {
            Some(Ok(Token::MinusEquals(token))) => {
                let _ = tokens.next();
                Ok(Some(token))
            },
            _ => Ok(None),
        }
    }
}

impl<'input> Grammar<'input> for NotEquals<'input> {
    open spec fn parsed(s: Stream<'input>) -> (Result<Self, Error<'input>>, Stream<'input>) {
        match required(TokenKind::NotEquals, s) {
            (Ok(_), rest) => (Ok(NotEquals { inner: s.source, span: Span::origin() }), rest),
            (Err(e), rest) => (Err(e), rest),
        }
    }

    fn parse(tokens: &mut Tokenizer<'input>, _context: &mut Context) -> (r: Result<
        Self,
        Error<'input>,
    >) {
        match tokens.next() {
            Some(Ok(Token::NotEquals(token))) => Ok(token),
            Some(Ok(token)) => Err(Error::UnexpectedToken(token)),
            Some(Err(e)) => Err(Error::Lex(e)),
            None => Err(Error::TokenizerEmpty),
        }
    }
}

impl<'input> Grammar<'input> for Option<NotEquals<'input>> {
    open spec fn parsed(s: Stream<'input>) -> (
        Result<Option<NotEquals<'input>>, Error<'input>>,
        Stream<'input>,
    ) {
        match optional(TokenKind::NotEquals, s) {
            (Some(_), rest) => (
                Ok(Some(NotEquals { inner: s.source, span: Span::origin() })),
                rest,
            ),
            (None, rest) => (Ok(None), rest),
        }
    }

    fn parse(tokens: &mut Tokenizer<'input>, _context: &mut Context) -> (r: Result<
        Self,
        Error<'input>,
    >) {
        match tokens.peek() {
            Some(Ok(Token::NotEquals(token))) => {
                let _ = tokens.next();
                Ok(Some(token))
            },
            _ => Ok(None),
        }
    }
}

impl<'input> Grammar<'input> for OrEquals<'input> {
    open spec fn parsed(s: Stream<'input>) -> (Result<Self, Error<'input>>, Stream<'input>) {
        match required(TokenKind::OrEquals, s) {
            (Ok(_), rest) => (Ok(OrEquals { inner: s.source, span: Span::origin() }), rest),
            (Err(e), rest) => (Err(e), rest),
        }
    }

    fn parse(tokens: &mut Tokenizer<'input>, _context: &mut Context) -> (r: Result<
        Self,
        Error<'input>,
    >) {
        match tokens.next() {
            Some(Ok(Token::OrEquals(token))) => Ok(token),
            Some(Ok(token)) => Err(Error::UnexpectedToken(token)),
            Some(Err(e)) => Err(Error::Lex(e)),
            None => Err(Error::TokenizerEmpty),
        }
    }
}

impl<'input> Grammar<'input> for Option<OrEquals<'input>> {
    open spec fn parsed(s: Stream<'input>) -> (
        Result<Option<OrEquals<'input>>, Error<'input>>,
        Stream<'input>,
    ) {
        match optional(TokenKind::OrEquals, s) {
            (Some(_), rest) => (Ok(Some(OrEquals { inner: s.source, span: Span::origin() })), rest),
            (None, rest) => (Ok(None), rest),
        }
    }

    fn parse(tokens: &mut Tokenizer<'input>, _context: &mut Context) -> (r: Result<
        Self,
        Error<'input>,
    >) {
        match tokens.peek() {
            Some(Ok(Token::OrEquals(token))) => {
                let _ = tokens.next();
                Ok(Some(token))
            },
            _ => Ok(None),
        }
    }
}

impl<'input> Grammar<'input> for PlusEquals<'input> {
    open spec fn parsed(s: Stream<'input>) -> (Result<Self, Error<'input>>, Stream<'input>) {
        match required(TokenKind::PlusEquals, s) {
            (Ok(_), rest) => (Ok(PlusEquals { inner: s.source, span: Span::origin() }), rest),
            (Err(e), rest) => (Err(e), rest),
        }
    }

    fn parse(tokens: &mut Tokenizer<'input>, _context: &mut Context) -> (r: Result<
        Self,
        Error<'input>,
    >) {
        match tokens.next() {
            Some(Ok(Token::PlusEquals(token))) => Ok(token),
            Some(Ok(token)) => Err(Error::UnexpectedToken(token)),
            Some(Err(e)) => Err(Error::Lex(e)),
            None => Err(Error::TokenizerEmpty),
        }
    }
}

impl<'input> Grammar<'input> for Option<PlusEquals<'input>> {
    open spec fn parsed(s: Stream<'input>) -> (
        Result<Option<PlusEquals<'input>>, Error<'input>>,
        Stream<'input>,
    ) {
        match optional(TokenKind::PlusEquals, s) {
            (Some(_), rest) => (
                Ok(Some(PlusEquals { inner: s.source, span: Span::origin() })),
                rest,
            ),
            (None, rest) => (Ok(None), rest),
        }
    }

    fn parse(tokens: &mut Tokenizer<'input>, _context: &mut Context) -> (r: Result<
        Self,
        Error<'input>,
    >) {
        match tokens.peek() {
            Some(Ok(Token::PlusEquals(token))) => {
                let _ = tokens.next();
                Ok(Some(token))
            },
            _ => Ok(None),
        }
    }
}

impl<'input> Grammar<'input> for StarEquals<'input> {
    open spec fn parsed(s: Stream<'input>) -> (Result<Self, Error<'input>>, Stream<'input>) {
        match required(TokenKind::StarEquals, s) {
            (Ok(_), rest) => (Ok(StarEquals { inner: s.source, span: Span::origin() }), rest),
            (Err(e), rest) => (Err(e), rest),
        }
    }

    fn parse(tokens: &mut Tokenizer<'input>, _context: &mut Context) -> (r: Result<
        Self,
        Error<'input>,
    >) {
        match tokens.next() {
            Some(Ok(Token::StarEquals(token))) => Ok(token),
            Some(Ok(token)) => Err(Error::UnexpectedToken(token)),
            Some(Err(e)) => Err(Error::Lex(e)),
            None => Err(Error::TokenizerEmpty),
        }
    }
}

impl<'input> Grammar<'input> for Option<StarEquals<'input>> {
    open spec fn parsed(s: Stream<'input>) -> (
        Result<Option<StarEquals<'input>>, Error<'input>>,
        Stream<'input>,
    ) {
        match optional(TokenKind::StarEquals, s) {
            (Some(_), rest) => (
                Ok(Some(StarEquals { inner: s.source, span: Span::origin() })),
                rest,
            ),
            (None, rest) => (Ok(None), rest),
        }
    }

    fn parse(tokens: &mut Tokenizer<'input>, _context: &mut Context) -> (r: Result<
        Self,
        Error<'input>,
    >) {
        match tokens.peek() {
            Some(Ok(Token::StarEquals(token))) => {
                let _ = tokens.next();
                Ok(Some(token))
            },
            _ => Ok(None),
        }
    }
}

impl<'input> Grammar<'input> for XorEquals<'input> {
    open spec fn parsed(s: Stream<'input>) -> (Result<Self, Error<'input>>, Stream<'input>) {
        match required(TokenKind::XorEquals, s) {
            (Ok(_), rest) => (Ok(XorEquals { inner: s.source, span: Span::origin() }), rest),
            (Err(e), rest) => (Err(e), rest),
        }
    }

    fn parse(tokens: &mut Tokenizer<'input>, _context: &mut Context) -> (r: Result<
        Self,
        Error<'input>,
    >) {
        match tokens.next() {
            Some(Ok(Token::XorEquals(token))) => Ok(token),
            Some(Ok(token)) => Err(Error::UnexpectedToken(token)),
            Some(Err(e)) => Err(Error::Lex(e)),
            None => Err(Error::TokenizerEmpty),
        }
    }
}

impl<'input> Grammar<'input> for Option<XorEquals<'input>> {
    open spec fn parsed(s: Stream<'input>) -> (
        Result<Option<XorEquals<'input>>, Error<'input>>,
        Stream<'input>,
    ) {
        match optional(TokenKind::XorEquals, s) {
            (Some(_), rest) => (
                Ok(Some(XorEquals { inner: s.source, span: Span::origin() })),
                rest,
            ),
            (None, rest) => (Ok(None), rest),
        }
    }

    fn parse(tokens: &mut Tokenizer<'input>, _context: &mut Context) -> (r: Result<
        Self,
        Error<'input>,
    >) {
        match tokens.peek() {
            Some(Ok(Token::XorEquals(token))) => {
                let _ = tokens.next();
                Ok(Some(token))
            },
            _ => Ok(None),
        }
    }
}

impl<'input> Grammar<'input> for And<'input> {
    open spec fn parsed(s: Stream<'input>) -> (Result<Self, Error<'input>>, Stream<'input>) {
        match required(TokenKind::And, s) {
            (Ok(_), rest) => (Ok(And { inner: s.source, span: Span::origin() }), rest),
            (Err(e), rest) => (Err(e), rest),
        }
    }

    fn parse(tokens: &mut Tokenizer<'input>, _context: &mut Context) -> (r: Result<
        Self,
        Error<'input>,
    >) {
        match tokens.next() {
            Some(Ok(Token::And(token))) => Ok(token),
            Some(Ok(token)) => Err(Error::UnexpectedToken(token)),
            Some(Err(e)) => Err(Error::Lex(e)),
            None => Err(Error::TokenizerEmpty),
        }
    }
}

impl<'input> Grammar<'input> for Option<And<'input>> {
    open spec fn parsed(s: Stream<'input>) -> (
        Result<Option<And<'input>>, Error<'input>>,
        Stream<'input>,
    ) {
        match optional(TokenKind::And, s) {
            (Some(_), rest) => (Ok(Some(And { inner: s.source, span: Span::origin() })), rest),
            (None, rest) => (Ok(None), rest),
        }
    }

    fn parse(tokens: &mut Tokenizer<'input>, _context: &mut Context) -> (r: Result<
        Self,
        Error<'input>,
    >) {
        match tokens.peek() {
            Some(Ok(Token::And(token))) => {
                let _ = tokens.next();
                Ok(Some(token))
            },
            _ => Ok(None),
        }
    }
}

impl<'input> Grammar<'input> for At<'input> {
    open spec fn parsed(s: Stream<'input>) -> (Result<Self, Error<'input>>, Stream<'input>) {
        match required(TokenKind::At, s) {
            (Ok(_), rest) => (Ok(At { inner: s.source, span: Span::origin() }), rest),
            (Err(e), rest) => (Err(e), rest),
        }
    }

    fn parse(tokens: &mut Tokenizer<'input>, _context: &mut Context) -> (r: Result<
        Self,
        Error<'input>,
    >) {
        match tokens.next() {
            Some(Ok(Token::At(token))) => Ok(token),
            Some(Ok(token)) => Err(Error::UnexpectedToken(token)),
            Some(Err(e)) => Err(Error::Lex(e)),
            None => Err(Error::TokenizerEmpty),
        }
    }
}

impl<'input> Grammar<'input> for Option<At<'input>> {
    open spec fn parsed(s: Stream<'input>) -> (
        Result<Option<At<'input>>, Error<'input>>,
        Stream<'input>,
    ) {
        match optional(TokenKind::At, s) {
            (Some(_), rest) => (Ok(Some(At { inner: s.source, span: Span::origin() })), rest),
            (None, rest) => (Ok(None), rest),
        }
    }

    fn parse(tokens: &mut Tokenizer<'input>, _context: &mut Context) -> (r: Result<
        Self,
        Error<'input>,
    >) {
        match tokens.peek() {
            Some(Ok(Token::At(token))) => {
                let _ = tokens.next();
                Ok(Some(token))
            },
            _ => Ok(None),
        }
    }
}

impl<'input> Grammar<'input> for Colon<'input> {
    open spec fn parsed(s: Stream<'input>) -> (Result<Self, Error<'input>>, Stream<'input>) {
        match required(TokenKind::Colon, s) {
            (Ok(_), rest) => (Ok(Colon { inner: s.source, span: Span::origin() }), rest),
            (Err(e), rest) => (Err(e), rest),
        }
    }

    fn parse(tokens: &mut Tokenizer<'input>, _context: &mut Context) -> (r: Result<
        Self,
        Error<'input>,
    >) {
        match tokens.next() {
            Some(Ok(Token::Colon(token))) => Ok(token),
            Some(Ok(token)) => Err(Error::UnexpectedToken(token)),
            Some(Err(e)) => Err(Error::Lex(e)),
            None => Err(Error::TokenizerEmpty),
        }
    }
}

impl<'input> Grammar<'input> for Option<Colon<'input>> {
    open spec fn parsed(s: Stream<'input>) -> (
        Result<Option<Colon<'input>>, Error<'input>>,
        Stream<'input>,
    ) {
        match optional(TokenKind::Colon, s) {
            (Some(_), rest) => (Ok(Some(Colon { inner: s.source, span: Span::origin() })), rest),
            (None, rest) => (Ok(None), rest),
        }
    }

    fn parse(tokens: &mut Tokenizer<'input>, _context: &mut Context) -> (r: Result<
        Self,
        Error<'input>,
    >) {
        match tokens.peek() {
            Some(Ok(Token::Colon(token))) => {
                let _ = tokens.next();
                Ok(Some(token))
            },
            _ => Ok(None),
        }
    }
}

impl<'input> Grammar<'input> for Comma<'input> {
    open spec fn parsed(s: Stream<'input>) -> (Result<Self, Error<'input>>, Stream<'input>) {
        match required(TokenKind::Comma, s) {
            (Ok(_), rest) => (Ok(Comma { inner: s.source, span: Span::origin() }), rest),
            (Err(e), rest) => (Err(e), rest),
        }
    }

    fn parse(tokens: &mut Tokenizer<'input>, _context: &mut Context) -> (r: Result<
        Self,
        Error<'input>,
    >) {
        match tokens.next() {
            Some(Ok(Token::Comma(token))) => Ok(token),
            Some(Ok(token)) => Err(Error::UnexpectedToken(token)),
            Some(Err(e)) => Err(Error::Lex(e)),
            None => Err(Error::TokenizerEmpty),
        }
    }
}

impl<'input> Grammar<'input> for Option<Comma<'input>> {
    open spec fn parsed(s: Stream<'input>) -> (
        Result<Option<Comma<'input>>, Error<'input>>,
        Stream<'input>,
    ) {
        match optional(TokenKind::Comma, s) {
            (Some(_), rest) => (Ok(Some(Comma { inner: s.source, span: Span::origin() })), rest),
            (None, rest) => (Ok(None), rest),
        }
    }

    fn parse(tokens: &mut Tokenizer<'input>, _context: &mut Context) -> (r: Result<
        Self,
        Error<'input>,
    >) {
        match tokens.peek() {
            Some(Ok(Token::Comma(token))) => {
                let _ = tokens.next();
                Ok(Some(token))
            },
            _ => Ok(None),
        }
    }
}

impl<'input> Grammar<'input> for CurlyLeft<'input> {
    open spec fn parsed(s: Stream<'input>) -> (Result<Self, Error<'input>>, Stream<'input>) {
        match required(TokenKind::CurlyLeft, s) {
            (Ok(_), rest) => (Ok(CurlyLeft { inner: s.source, span: Span::origin() }), rest),
            (Err(e), rest) => (Err(e), rest),
        }
    }

    fn parse(tokens: &mut Tokenizer<'input>, _context: &mut Context) -> (r: Result<
        Self,
        Error<'input>,
    >) {
        match tokens.next() {
            Some(Ok(Token::CurlyLeft(token))) => Ok(token),
            Some(Ok(token)) => Err(Error::UnexpectedToken(token)),
            Some(Err(e)) => Err(Error::Lex(e)),
            None => Err(Error::TokenizerEmpty),
        }
    }
}

impl<'input> Grammar<'input> for Option<CurlyLeft<'input>> {
    open spec fn parsed(s: Stream<'input>) -> (
        Result<Option<CurlyLeft<'input>>, Error<'input>>,
        Stream<'input>,
    ) {
        match optional(TokenKind::CurlyLeft, s) {
            (Some(_), rest) => (
                Ok(Some(CurlyLeft { inner: s.source, span: Span::origin() })),
                rest,
            ),
            (None, rest) => (Ok(None), rest),
        }
    }

    fn parse(tokens: &mut Tokenizer<'input>, _context: &mut Context) -> (r: Result<
        Self,
        Error<'input>,
    >) {
        match tokens.peek() {
            Some(Ok(Token::CurlyLeft(token))) => {
                let _ = tokens.next();
                Ok(Some(token))
            },
            _ => Ok(None),
        }
    }
}

impl<'input> Grammar<'input> for CurlyRight<'input> {
    open spec fn parsed(s: Stream<'input>) -> (Result<Self, Error<'input>>, Stream<'input>) {
        match required(TokenKind::CurlyRight, s) {
            (Ok(_), rest) => (Ok(CurlyRight { inner: s.source, span: Span::origin() }), rest),
            (Err(e), rest) => (Err(e), rest),
        }
    }

    fn parse(tokens: &mut Tokenizer<'input>, _context: &mut Context) -> (r: Result<
        Self,
        Error<'input>,
    >) {
        match tokens.next() {
            Some(Ok(Token::CurlyRight(token))) => Ok(token),
            Some(Ok(token)) => Err(Error::UnexpectedToken(token)),
            Some(Err(e)) => Err(Error::Lex(e)),
            None => Err(Error::TokenizerEmpty),
        }
    }
}

impl<'input> Grammar<'input> for Option<CurlyRight<'input>> {
    open spec fn parsed(s: Stream<'input>) -> (
        Result<Option<CurlyRight<'input>>, Error<'input>>,
        Stream<'input>,
    ) {
        match optional(TokenKind::CurlyRight, s) {
            (Some(_), rest) => (
                Ok(Some(CurlyRight { inner: s.source, span: Span::origin() })),
                rest,
            ),
            (None, rest) => (Ok(None), rest),
        }
    }

    fn parse(tokens: &mut Tokenizer<'input>, _context: &mut Context) -> (r: Result<
        Self,
        Error<'input>,
    >) {
        match tokens.peek() {
            Some(Ok(Token::CurlyRight(token))) => {
                let _ = tokens.next();
                Ok(Some(token))
            },
            _ => Ok(None),
        }
    }
}

impl<'input> Grammar<'input> for Equals<'input> {
    open spec fn parsed(s: Stream<'input>) -> (Result<Self, Error<'input>>, Stream<'input>) {
        match required(TokenKind::Equals, s) {
            (Ok(_), rest) => (Ok(Equals { inner: s.source, span: Span::origin() }), rest),
            (Err(e), rest) => (Err(e), rest),
        }
    }

    fn parse(tokens: &mut Tokenizer<'input>, _context: &mut Context) -> (r: Result<
        Self,
        Error<'input>,
    >) {
        match tokens.next() {
            Some(Ok(Token::Equals(token))) => Ok(token),
            Some(Ok(token)) => Err(Error::UnexpectedToken(token)),
            Some(Err(e)) => Err(Error::Lex(e)),
            None => Err(Error::TokenizerEmpty),
        }
    }
}

impl<'input> Grammar<'input> for Option<Equals<'input>> {
    open spec fn parsed(s: Stream<'input>) -> (
        Result<Option<Equals<'input>>, Error<'input>>,
        Stream<'input>,
    ) {
        match optional(TokenKind::Equals, s) {
            (Some(_), rest) => (Ok(Some(Equals { inner: s.source, span: Span::origin() })), rest),
            (None, rest) => (Ok(None), rest),
        }
    }

    fn parse(tokens: &mut Tokenizer<'input>, _context: &mut Context) -> (r: Result<
        Self,
        Error<'input>,
    >) {
        match tokens.peek() {
            Some(Ok(Token::Equals(token))) => {
                let _ = tokens.next();
                Ok(Some(token))
            },
            _ => Ok(None),
        }
    }
}

impl<'input> Grammar<'input> for ForwardSlash<'input> {
    open spec fn parsed(s: Stream<'input>) -> (Result<Self, Error<'input>>, Stream<'input>) {
        match required(TokenKind::ForwardSlash, s) {
            (Ok(_), rest) => (Ok(ForwardSlash { inner: s.source, span: Span::origin() }), rest),
            (Err(e), rest) => (Err(e), rest),
        }
    }

    fn parse(tokens: &mut Tokenizer<'input>, _context: &mut Context) -> (r: Result<
        Self,
        Error<'input>,
    >) {
        match tokens.next() {
            Some(Ok(Token::ForwardSlash(token))) => Ok(token),
            Some(Ok(token)) => Err(Error::UnexpectedToken(token)),
            Some(Err(e)) => Err(Error::Lex(e)),
            None => Err(Error::TokenizerEmpty),
        }
    }
}

impl<'input> Grammar<'input> for Option<ForwardSlash<'input>> {
    open spec fn parsed(s: Stream<'input>) -> (
        Result<Option<ForwardSlash<'input>>, Error<'input>>,
        Stream<'input>,
    ) {
        match optional(TokenKind::ForwardSlash, s) {
            (Some(_), rest) => (
                Ok(Some(ForwardSlash { inner: s.source, span: Span::origin() })),
                rest,
            ),
            (None, rest) => (Ok(None), rest),
        }
    }

    fn parse(tokens: &mut Tokenizer<'input>, _context: &mut Context) -> (r: Result<
        Self,
        Error<'input>,
    >) {
        match tokens.peek() {
            Some(Ok(Token::ForwardSlash(token))) => {
                let _ = tokens.next();
                Ok(Some(token))
            },
            _ => Ok(None),
        }
    }
}

impl<'input> Grammar<'input> for GreaterThan<'input> {
    open spec fn parsed(s: Stream<'input>) -> (Result<Self, Error<'input>>, Stream<'input>) {
        match required(TokenKind::GreaterThan, s) {
            (Ok(_), rest) => (Ok(GreaterThan { inner: s.source, span: Span::origin() }), rest),
            (Err(e), rest) => (Err(e), rest),
        }
    }

    fn parse(tokens: &mut Tokenizer<'input>, _context: &mut Context) -> (r: Result<
        Self,
        Error<'input>,
    >) {
        match tokens.next() {
            Some(Ok(Token::GreaterThan(token))) => Ok(token),
            Some(Ok(token)) => Err(Error::UnexpectedToken(token)),
            Some(Err(e)) => Err(Error::Lex(e)),
            None => Err(Error::TokenizerEmpty),
        }
    }
}

impl<'input> Grammar<'input> for Option<GreaterThan<'input>> {
    open spec fn parsed(s: Stream<'input>) -> (
        Result<Option<GreaterThan<'input>>, Error<'input>>,
        Stream<'input>,
    ) {
        match optional(TokenKind::GreaterThan, s) {
            (Some(_), rest) => (
                Ok(Some(GreaterThan { inner: s.source, span: Span::origin() })),
                rest,
            ),
            (None, rest) => (Ok(None), rest),
        }
    }

    fn parse(tokens: &mut Tokenizer<'input>, _context: &mut Context) -> (r: Result<
        Self,
        Error<'input>,
    >) {
        match tokens.peek() {
            Some(Ok(Token::GreaterThan(token))) => {
                let _ = tokens.next();
                Ok(Some(token))
            },
            _ => Ok(None),
        }
    }
}

impl<'input> Grammar<'input> for LessThan<'input> {
    open spec fn parsed(s: Stream<'input>) -> (Result<Self, Error<'input>>, Stream<'input>) {
        match required(TokenKind::LessThan, s) {
            (Ok(_), rest) => (Ok(LessThan { inner: s.source, span: Span::origin() }), rest),
            (Err(e), rest) => (Err(e), rest),
        }
    }

    fn parse(tokens: &mut Tokenizer<'input>, _context: &mut Context) -> (r: Result<
        Self,
        Error<'input>,
    >) {
        match tokens.next() {
            Some(Ok(Token::LessThan(token))) => Ok(token),
            Some(Ok(token)) => Err(Error::UnexpectedToken(token)),
            Some(Err(e)) => Err(Error::Lex(e)),
            None => Err(Error::TokenizerEmpty),
        }
    }
}

impl<'input> Grammar<'input> for Option<LessThan<'input>> {
    open spec fn parsed(s: Stream<'input>) -> (
        Result<Option<LessThan<'input>>, Error<'input>>,
        Stream<'input>,
    ) {
        match optional(TokenKind::LessThan, s) {
            (Some(_), rest) => (Ok(Some(LessThan { inner: s.source, span: Span::origin() })), rest),
            (None, rest) => (Ok(None), rest),
        }
    }

    fn parse(tokens: &mut Tokenizer<'input>, _context: &mut Context) -> (r: Result<
        Self,
        Error<'input>,
    >) {
        match tokens.peek() {
            Some(Ok(Token::LessThan(token))) => {
                let _ = tokens.next();
                Ok(Some(token))
            },
            _ => Ok(None),
        }
    }
}

impl<'input> Grammar<'input> for Minus<'input> {
    open spec fn parsed(s: Stream<'input>) -> (Result<Self, Error<'input>>, Stream<'input>) {
        match required(TokenKind::Minus, s) {
            (Ok(_), rest) => (Ok(Minus { inner: s.source, span: Span::origin() }), rest),
            (Err(e), rest) => (Err(e), rest),
        }
    }

    fn parse(tokens: &mut Tokenizer<'input>, _context: &mut Context) -> (r: Result<
        Self,
        Error<'input>,
    >) {
        match tokens.next() {
            Some(Ok(Token::Minus(token))) => Ok(token),
            Some(Ok(token)) => Err(Error::UnexpectedToken(token)),
            Some(Err(e)) => Err(Error::Lex(e)),
            None => Err(Error::TokenizerEmpty),
        }
    }
}

impl<'input> Grammar<'input> for Option<Minus<'input>> {
    open spec fn parsed(s: Stream<'input>) -> (
        Result<Option<Minus<'input>>, Error<'input>>,
        Stream<'input>,
    ) {
        match optional(TokenKind::Minus, s) {
            (Some(_), rest) => (Ok(Some(Minus { inner: s.source, span: Span::origin() })), rest),
            (None, rest) => (Ok(None), rest),
        }
    }

    fn parse(tokens: &mut Tokenizer<'input>, _context: &mut Context) -> (r: Result<
        Self,
        Error<'input>,
    >) {
        match tokens.peek() {
            Some(Ok(Token::Minus(token))) => {
                let _ = tokens.next();
                Ok(Some(token))
            },
            _ => Ok(None),
        }
    }
}

impl<'input> Grammar<'input> for Not<'input> {
    open spec fn parsed(s: Stream<'input>) -> (Result<Self, Error<'input>>, Stream<'input>) {
        match required(TokenKind::Not, s) {
            (Ok(_), rest) => (Ok(Not { inner: s.source, span: Span::origin() }), rest),
            (Err(e), rest) => (Err(e), rest),
        }
    }

    fn parse(tokens: &mut Tokenizer<'input>, _context: &mut Context) -> (r: Result<
        Self,
        Error<'input>,
    >) {
        match tokens.next() {
            Some(Ok(Token::Not(token))) => Ok(token),
            Some(Ok(token)) => Err(Error::UnexpectedToken(token)),
            Some(Err(e)) => Err(Error::Lex(e)),
            None => Err(Error::TokenizerEmpty),
        }
    }
}

impl<'input> Grammar<'input> for Option<Not<'input>> {
    open spec fn parsed(s: Stream<'input>) -> (
        Result<Option<Not<'input>>, Error<'input>>,
        Stream<'input>,
    ) {
        match optional(TokenKind::Not, s) {
            (Some(_), rest) => (Ok(Some(Not { inner: s.source, span: Span::origin() })), rest),
            (None, rest) => (Ok(None), rest),
        }
    }

    fn parse(tokens: &mut Tokenizer<'input>, _context: &mut Context) -> (r: Result<
        Self,
        Error<'input>,
    >) {
        match tokens.peek() {
            Some(Ok(Token::Not(token))) => {
                let _ = tokens.next();
                Ok(Some(token))
            },
            _ => Ok(None),
        }
    }
}

impl<'input> Grammar<'input> for Or<'input> {
    open spec fn parsed(s: Stream<'input>) -> (Result<Self, Error<'input>>, Stream<'input>) {
        match required(TokenKind::Or, s) {
            (Ok(_), rest) => (Ok(Or { inner: s.source, span: Span::origin() }), rest),
            (Err(e), rest) => (Err(e), rest),
        }
    }

    fn parse(tokens: &mut Tokenizer<'input>, _context: &mut Context) -> (r: Result<
        Self,
        Error<'input>,
    >) {
        match tokens.next() {
            Some(Ok(Token::Or(token))) => Ok(token),
            Some(Ok(token)) => Err(Error::UnexpectedToken(token)),
            Some(Err(e)) => Err(Error::Lex(e)),
            None => Err(Error::TokenizerEmpty),
        }
    }
}

impl<'input> Grammar<'input> for Option<Or<'input>> {
    open spec fn parsed(s: Stream<'input>) -> (
        Result<Option<Or<'input>>, Error<'input>>,
        Stream<'input>,
    ) {
        match optional(TokenKind::Or, s) {
            (Some(_), rest) => (Ok(Some(Or { inner: s.source, span: Span::origin() })), rest),
            (None, rest) => (Ok(None), rest),
        }
    }

    fn parse(tokens: &mut Tokenizer<'input>, _context: &mut Context) -> (r: Result<
        Self,
        Error<'input>,
    >) {
        match tokens.peek() {
            Some(Ok(Token::Or(token))) => {
                let _ = tokens.next();
                Ok(Some(token))
            },
            _ => Ok(None),
        }
    }
}

impl<'input> Grammar<'input> for ParLeft<'input> {
    open spec fn parsed(s: Stream<'input>) -> (Result<Self, Error<'input>>, Stream<'input>) {
        match required(TokenKind::ParLeft, s) {
            (Ok(_), rest) => (Ok(ParLeft { inner: s.source, span: Span::origin() }), rest),
            (Err(e), rest) => (Err(e), rest),
        }
    }

    fn parse(tokens: &mut Tokenizer<'input>, _context: &mut Context) -> (r: Result<
        Self,
        Error<'input>,
    >) {
        match tokens.next() {
            Some(Ok(Token::ParLeft(token))) => Ok(token),
            Some(Ok(token)) => Err(Error::UnexpectedToken(token)),
            Some(Err(e)) => Err(Error::Lex(e)),
            None => Err(Error::TokenizerEmpty),
        }
    }
}

impl<'input> Grammar<'input> for Option<ParLeft<'input>> {
    open spec fn parsed(s: Stream<'input>) -> (
        Result<Option<ParLeft<'input>>, Error<'input>>,
        Stream<'input>,
    ) {
        match optional(TokenKind::ParLeft, s) {
            (Some(_), rest) => (Ok(Some(ParLeft { inner: s.source, span: Span::origin() })), rest),
            (None, rest) => (Ok(None), rest),
        }
    }

    fn parse(tokens: &mut Tokenizer<'input>, _context: &mut Context) -> (r: Result<
        Self,
        Error<'input>,
    >) {
        match tokens.peek() {
            Some(Ok(Token::ParLeft(token))) => {
                let _ = tokens.next();
                Ok(Some(token))
            },
            _ => Ok(None),
        }
    }
}

impl<'input> Grammar<'input> for ParRight<'input> {
    open spec fn parsed(s: Stream<'input>) -> (Result<Self, Error<'input>>, Stream<'input>) {
        match required(TokenKind::ParRight, s) {
            (Ok(_), rest) => (Ok(ParRight { inner: s.source, span: Span::origin() }), rest),
            (Err(e), rest) => (Err(e), rest),
        }
    }

    fn parse(tokens: &mut Tokenizer<'input>, _context: &mut Context) -> (r: Result<
        Self,
        Error<'input>,
    >) {
        match tokens.next() {
            Some(Ok(Token::ParRight(token))) => Ok(token),
            Some(Ok(token)) => Err(Error::UnexpectedToken(token)),
            Some(Err(e)) => Err(Error::Lex(e)),
            None => Err(Error::TokenizerEmpty),
        }
    }
}

impl<'input> Grammar<'input> for Option<ParRight<'input>> {
    open spec fn parsed(s: Stream<'input>) -> (
        Result<Option<ParRight<'input>>, Error<'input>>,
        Stream<'input>,
    ) {
        match optional(TokenKind::ParRight, s) {
            (Some(_), rest) => (Ok(Some(ParRight { inner: s.source, span: Span::origin() })), rest),
            (None, rest) => (Ok(None), rest),
        }
    }

    fn parse(tokens: &mut Tokenizer<'input>, _context: &mut Context) -> (r: Result<
        Self,
        Error<'input>,
    >) {
        match tokens.peek() {
            Some(Ok(Token::ParRight(token))) => {
                let _ = tokens.next();
                Ok(Some(token))
            },
            _ => Ok(None),
        }
    }
}

impl<'input> Grammar<'input> for Plus<'input> {
    open spec fn parsed(s: Stream<'input>) -> (Result<Self, Error<'input>>, Stream<'input>) {
        match required(TokenKind::Plus, s) {
            (Ok(_), rest) => (Ok(Plus { inner: s.source, span: Span::origin() }), rest),
            (Err(e), rest) => (Err(e), rest),
        }
    }

    fn parse(tokens: &mut Tokenizer<'input>, _context: &mut Context) -> (r: Result<
        Self,
        Error<'input>,
    >) {
        match tokens.next() {
            Some(Ok(Token::Plus(token))) => Ok(token),
            Some(Ok(token)) => Err(Error::UnexpectedToken(token)),
            Some(Err(e)) => Err(Error::Lex(e)),
            None => Err(Error::TokenizerEmpty),
        }
    }
}

impl<'input> Grammar<'input> for Option<Plus<'input>> {
    open spec fn parsed(s: Stream<'input>) -> (
        Result<Option<Plus<'input>>, Error<'input>>,
        Stream<'input>,
    ) {
        match optional(TokenKind::Plus, s) {
            (Some(_), rest) => (Ok(Some(Plus { inner: s.source, span: Span::origin() })), rest),
            (None, rest) => (Ok(None), rest),
        }
    }

    fn parse(tokens: &mut Tokenizer<'input>, _context: &mut Context) -> (r: Result<
        Self,
        Error<'input>,
    >) {
        match tokens.peek() {
            Some(Ok(Token::Plus(token))) => {
                let _ = tokens.next();
                Ok(Some(token))
            },
            _ => Ok(None),
        }
    }
}

impl<'input> Grammar<'input> for SemiColon<'input> {
    open spec fn parsed(s: Stream<'input>) -> (Result<Self, Error<'input>>, Stream<'input>) {
        match required(TokenKind::SemiColon, s) {
            (Ok(_), rest) => (Ok(SemiColon { inner: s.source, span: Span::origin() }), rest),
            (Err(e), rest) => (Err(e), rest),
        }
    }

    fn parse(tokens: &mut Tokenizer<'input>, _context: &mut Context) -> (r: Result<
        Self,
        Error<'input>,
    >) {
        match tokens.next() {
            Some(Ok(Token::SemiColon(token))) => Ok(token),
            Some(Ok(token)) => Err(Error::UnexpectedToken(token)),
            Some(Err(e)) => Err(Error::Lex(e)),
            None => Err(Error::TokenizerEmpty),
        }
    }
}

impl<'input> Grammar<'input> for Option<SemiColon<'input>> {
    open spec fn parsed(s: Stream<'input>) -> (
        Result<Option<SemiColon<'input>>, Error<'input>>,
        Stream<'input>,
    ) {
        match optional(TokenKind::SemiColon, s) {
            (Some(_), rest) => (
                Ok(Some(SemiColon { inner: s.source, span: Span::origin() })),
                rest,
            ),
            (None, rest) => (Ok(None), rest),
        }
    }

    fn parse(tokens: &mut Tokenizer<'input>, _context: &mut Context) -> (r: Result<
        Self,
        Error<'input>,
    >) {
        match tokens.peek() {
            Some(Ok(Token::SemiColon(token))) => {
                let _ = tokens.next();
                Ok(Some(token))
            },
            _ => Ok(None),
        }
    }
}

impl<'input> Grammar<'input> for SquareLeft<'input> {
    open spec fn parsed(s: Stream<'input>) -> (Result<Self, Error<'input>>, Stream<'input>) {
        match required(TokenKind::SquareLeft, s) {
            (Ok(_), rest) => (Ok(SquareLeft { inner: s.source, span: Span::origin() }), rest),
            (Err(e), rest) => (Err(e), rest),
        }
    }

    fn parse(tokens: &mut Tokenizer<'input>, _context: &mut Context) -> (r: Result<
        Self,
        Error<'input>,
    >) {
        match tokens.next() {
            Some(Ok(Token::SquareLeft(token))) => Ok(token),
            Some(Ok(token)) => Err(Error::UnexpectedToken(token)),
            Some(Err(e)) => Err(Error::Lex(e)),
            None => Err(Error::TokenizerEmpty),
        }
    }
}

impl<'input> Grammar<'input> for Option<SquareLeft<'input>> {
    open spec fn parsed(s: Stream<'input>) -> (
        Result<Option<SquareLeft<'input>>, Error<'input>>,
        Stream<'input>,
    ) {
        match optional(TokenKind::SquareLeft, s) {
            (Some(_), rest) => (
                Ok(Some(SquareLeft { inner: s.source, span: Span::origin() })),
                rest,
            ),
            (None, rest) => (Ok(None), rest),
        }
    }

    fn parse(tokens: &mut Tokenizer<'input>, _context: &mut Context) -> (r: Result<
        Self,
        Error<'input>,
    >) {
        match tokens.peek() {
            Some(Ok(Token::SquareLeft(token))) => {
                let _ = tokens.next();
                Ok(Some(token))
            },
            _ => Ok(None),
        }
    }
}

impl<'input> Grammar<'input> for SquareRight<'input> {
    open spec fn parsed(s: Stream<'input>) -> (Result<Self, Error<'input>>, Stream<'input>) {
        match required(TokenKind::SquareRight, s) {
            (Ok(_), rest) => (Ok(SquareRight { inner: s.source, span: Span::origin() }), rest),
            (Err(e), rest) => (Err(e), rest),
        }
    }

    fn parse(tokens: &mut Tokenizer<'input>, _context: &mut Context) -> (r: Result<
        Self,
        Error<'input>,
    >) {
        match tokens.next() {
            Some(Ok(Token::SquareRight(token))) => Ok(token),
            Some(Ok(token)) => Err(Error::UnexpectedToken(token)),
            Some(Err(e)) => Err(Error::Lex(e)),
            None => Err(Error::TokenizerEmpty),
        }
    }
}

impl<'input> Grammar<'input> for Option<SquareRight<'input>> {
    open spec fn parsed(s: Stream<'input>) -> (
        Result<Option<SquareRight<'input>>, Error<'input>>,
        Stream<'input>,
    ) {
        match optional(TokenKind::SquareRight, s) {
            (Some(_), rest) => (
                Ok(Some(SquareRight { inner: s.source, span: Span::origin() })),
                rest,
            ),
            (None, rest) => (Ok(None), rest),
        }
    }

    fn parse(tokens: &mut Tokenizer<'input>, _context: &mut Context) -> (r: Result<
        Self,
        Error<'input>,
    >) {
        match tokens.peek() {
            Some(Ok(Token::SquareRight(token))) => {
                let _ = tokens.next();
                Ok(Some(token))
            },
            _ => Ok(None),
        }
    }
}

impl<'input> Grammar<'input> for Star<'input> {
    open spec fn parsed(s: Stream<'input>) -> (Result<Self, Error<'input>>, Stream<'input>) {
        match required(TokenKind::Star, s) {
            (Ok(_), rest) => (Ok(Star { inner: s.source, span: Span::origin() }), rest),
            (Err(e), rest) => (Err(e), rest),
        }
    }

    fn parse(tokens: &mut Tokenizer<'input>, _context: &mut Context) -> (r: Result<
        Self,
        Error<'input>,
    >) {
        match tokens.next() {
            Some(Ok(Token::Star(token))) => Ok(token),
            Some(Ok(token)) => Err(Error::UnexpectedToken(token)),
            Some(Err(e)) => Err(Error::Lex(e)),
            None => Err(Error::TokenizerEmpty),
        }
    }
}

impl<'input> Grammar<'input> for Option<Star<'input>> {
    open spec fn parsed(s: Stream<'input>) -> (
        Result<Option<Star<'input>>, Error<'input>>,
        Stream<'input>,
    ) {
        match optional(TokenKind::Star, s) {
            (Some(_), rest) => (Ok(Some(Star { inner: s.source, span: Span::origin() })), rest),
            (None, rest) => (Ok(None), rest),
        }
    }

    fn parse(tokens: &mut Tokenizer<'input>, _context: &mut Context) -> (r: Result<
        Self,
        Error<'input>,
    >) {
        match tokens.peek() {
            Some(Ok(Token::Star(token))) => {
                let _ = tokens.next();
                Ok(Some(token))
            },
            _ => Ok(None),
        }
    }
}

impl<'input> Grammar<'input> for Xor<'input> {
    open spec fn parsed(s: Stream<'input>) -> (Result<Self, Error<'input>>, Stream<'input>) {
        match required(TokenKind::Xor, s) {
            (Ok(_), rest) => (Ok(Xor { inner: s.source, span: Span::origin() }), rest),
            (Err(e), rest) => (Err(e), rest),
        }
    }

    fn parse(tokens: &mut Tokenizer<'input>, _context: &mut Context) -> (r: Result<
        Self,
        Error<'input>,
    >) {
        match tokens.next() {
            Some(Ok(Token::Xor(token))) => Ok(token),
            Some(Ok(token)) => Err(Error::UnexpectedToken(token)),
            Some(Err(e)) => Err(Error::Lex(e)),
            None => Err(Error::TokenizerEmpty),
        }
    }
}

impl<'input> Grammar<'input> for Option<Xor<'input>> {
    open spec fn parsed(s: Stream<'input>) -> (
        Result<Option<Xor<'input>>, Error<'input>>,
        Stream<'input>,
    ) {
        match optional(TokenKind::Xor, s) {
            (Some(_), rest) => (Ok(Some(Xor { inner: s.source, span: Span::origin() })), rest),
            (None, rest) => (Ok(None), rest),
        }
    }

    fn parse(tokens: &mut Tokenizer<'input>, _context: &mut Context) -> (r: Result<
        Self,
        Error<'input>,
    >) {
        match tokens.peek() {
            Some(Ok(Token::Xor(token))) => {
                let _ = tokens.next();
                Ok(Some(token))
            },
            _ => Ok(None),
        }
    }
}

} // verus!
