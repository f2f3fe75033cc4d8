//! Type nodes.

use super::{Context, Error, Grammar};
use crate::lex::laws::lemma_tail_measure;
use crate::lex::{tokens, Stream, Token, TokenKind, Tokenizer};
use vstd::prelude::*;

verus! {

/// Marks the nodes that may stand where a type is expected.
pub trait TypeGrammar<'input>: Grammar<'input> {
}

impl<'input, T: TypeGrammar<'input>> TypeGrammar<'input> for Box<T> {
}

/// A type.
#[derive(Debug)]
pub enum Type<'input> {
    U8(U8<'input>),
    Array(Array<'input, Box<Type<'input>>>),
    Ptr(Ptr<'input, Box<Type<'input>>>),
    Struct(Struct<'input>),
}

impl<'input> DeepView for Type<'input> {
    type V = Self;

    open spec fn deep_view(&self) -> Self {
        *self
    }
}

impl<'input> TypeGrammar<'input> for Type<'input> {
}

/// What parsing a [`Type`] gives on a stream in state `s`.
///
/// The next token decides, and is consumed only by the variant it selects:
/// - `u8` is the scalar type [`U8`];
/// - `array` starts an [`Array`] and `ptr` a [`Ptr`], each around a type;
/// - `struct` starts a [`Struct`];
/// - at the end of the input, and on a stream that has ended, the error is
///   [`Error::TokenizerEmpty`], and nothing is consumed;
/// - any other token is consumed and is the error
///   [`Error::UnexpectedToken`];
/// - a lexical error is consumed and handed on.
pub open spec fn type_parsed<'input>(s: Stream<'input>) -> (
    Result<Type<'input>, Error<'input>>,
    Stream<'input>,
)
    decreases s.measure(), 1nat,
{
    match s.head() {
        None | Some(Ok(TokenKind::EOF)) => (Err(Error::TokenizerEmpty), s),
        Some(Err(e)) => (Err(Error::Lex(e)), s.tail()),
        Some(Ok(TokenKind::U8)) => match U8::parsed(s) {
            (Ok(node), rest) => (Ok(Type::U8(node)), rest),
            (Err(e), rest) => (Err(e), rest),
        },
        Some(Ok(TokenKind::Array)) => match array_parsed(s) {
            (Ok(node), rest) => (Ok(Type::Array(node)), rest),
            (Err(e), rest) => (Err(e), rest),
        },
        Some(Ok(TokenKind::Ptr)) => match ptr_parsed(s) {
            (Ok(node), rest) => (Ok(Type::Ptr(node)), rest),
            (Err(e), rest) => (Err(e), rest),
        },
        Some(Ok(TokenKind::Struct)) => match Struct::parsed(s) {
            (Ok(node), rest) => (Ok(Type::Struct(node)), rest),
            (Err(e), rest) => (Err(e), rest),
        },
        Some(Ok(kind)) => (Err(Error::UnexpectedToken(Token::of(kind, s.source))), s.tail()),
    }
}

/// What parsing an [`Array`] of a [`Type`] gives on a stream in state `s`:
/// its fields in their order, up to the first that fails.
pub open spec fn array_parsed<'input>(s: Stream<'input>) -> (
    Result<Array<'input, Box<Type<'input>>>, Error<'input>>,
    Stream<'input>,
)
    decreases s.measure(), 0nat,
{
    match tokens::Array::parsed(s) {
        (Err(e), s1) => (Err(e), s1),
        (Ok(array), s1) => match tokens::LessThan::parsed(s1) {
            (Err(e), s2) => (Err(e), s2),
            (Ok(less_than), s2) => match {
                proof {
                    lemma_tail_measure(s);
                    lemma_tail_measure(s1);
                }
                type_parsed(s2)
            } {
                (Err(e), s3) => (Err(e), s3),
                (Ok(type_), s3) => match tokens::Comma::parsed(s3) {
                    (Err(e), s4) => (Err(e), s4),
                    (Ok(comma), s4) => match tokens::Number::parsed(s4) {
                        (Err(e), s5) => (Err(e), s5),
                        (Ok(number), s5) => match tokens::GreaterThan::parsed(s5) {
                            (Err(e), s6) => (Err(e), s6),
                            (Ok(greater_than), s6) => (
                                Ok(
                                    Array {
                                        array,
                                        less_than,
                                        type_: Box::new(type_),
                                        comma,
                                        number,
                                        greater_than,
                                    },
                                ),
                                s6,
                            ),
                        },
                    },
                },
            },
        },
    }
}

/// Parses an [`Array`] of a [`Type`] from the front of `tokens`.
pub fn parse_array<'input>(
    tokens: &mut Tokenizer<'input>,
    context: &mut Context,
) -> (r: Result<Array<'input, Box<Type<'input>>>, Error<'input>>)
    ensures
        final(tokens)@ == array_parsed(old(tokens)@).1,
        r == array_parsed(old(tokens)@).0,
    decreases old(tokens)@.measure(), 0nat,
{
    let array = tokens::Array::parse(tokens, context)?;
    let less_than = tokens::LessThan::parse(tokens, context)?;
    proof {
        lemma_tail_measure(old(tokens)@);
        lemma_tail_measure(old(tokens)@.tail());
    }
    let type_ = Box::new(parse_type(tokens, context)?);
    let comma = tokens::Comma::parse(tokens, context)?;
    let number = tokens::Number::parse(tokens, context)?;
    let greater_than = tokens::GreaterThan::parse(tokens, context)?;
    Ok(Array { array, less_than, type_, comma, number, greater_than })
}

/// What parsing a [`Ptr`] to a [`Type`] gives on a stream in state `s`: its
/// fields in their order, up to the first that fails.
pub open spec fn ptr_parsed<'input>(s: Stream<'input>) -> (
    Result<Ptr<'input, Box<Type<'input>>>, Error<'input>>,
    Stream<'input>,
)
    decreases s.measure(), 0nat,
{
    match tokens::Ptr::parsed(s) {
        (Err(e), s1) => (Err(e), s1),
        (Ok(ptr), s1) => match tokens::LessThan::parsed(s1) {
            (Err(e), s2) => (Err(e), s2),
            (Ok(less_than), s2) => match {
                proof {
                    lemma_tail_measure(s);
                    lemma_tail_measure(s1);
                }
                type_parsed(s2)
            } {
                (Err(e), s3) => (Err(e), s3),
                (Ok(type_), s3) => match tokens::GreaterThan::parsed(s3) {
                    (Err(e), s4) => (Err(e), s4),
                    (Ok(greater_than), s4) => (
                        Ok(
                            Ptr {
                                ptr,
                                less_than,
                                type_: Box::new(type_),
                                greater_than,
                            },
                        ),
                        s4,
                    ),
                },
            },
        },
    }
}

/// Parses a [`Ptr`] to a [`Type`] from the front of `tokens`.
pub fn parse_ptr<'input>(
    tokens: &mut Tokenizer<'input>,
    context: &mut Context,
) -> (r: Result<Ptr<'input, Box<Type<'input>>>, Error<'input>>)
    ensures
        final(tokens)@ == ptr_parsed(old(tokens)@).1,
        r == ptr_parsed(old(tokens)@).0,
    decreases old(tokens)@.measure(), 0nat,
{
    let ptr = tokens::Ptr::parse(tokens, context)?;
    let less_than = tokens::LessThan::parse(tokens, context)?;
    proof {
        lemma_tail_measure(old(tokens)@);
        lemma_tail_measure(old(tokens)@.tail());
    }
    let type_ = Box::new(parse_type(tokens, context)?);
    let greater_than = tokens::GreaterThan::parse(tokens, context)?;
    Ok(Ptr { ptr, less_than, type_, greater_than })
}

/// Parses a [`Type`] from the front of `tokens`.
pub fn parse_type<'input>(tokens: &mut Tokenizer<'input>, context: &mut Context) -> (r: Result<
    Type<'input>,
    Error<'input>,
>)
    ensures
        final(tokens)@ == type_parsed(old(tokens)@).1,
        r == type_parsed(old(tokens)@).0,
    decreases old(tokens)@.measure(), 1nat,
{
    match tokens.peek_kind() {
        None | Some(Ok(TokenKind::EOF)) => Err(Error::TokenizerEmpty),
        Some(Ok(TokenKind::U8)) => Ok(Type::U8(U8::parse(tokens, context)?)),
        Some(Ok(TokenKind::Array)) => Ok(Type::Array(parse_array(tokens, context)?)),
        Some(Ok(TokenKind::Ptr)) => Ok(Type::Ptr(parse_ptr(tokens, context)?)),
        Some(Ok(TokenKind::Struct)) => Ok(Type::Struct(Struct::parse(tokens, context)?)),
        Some(Ok(_)) => match tokens.next() {
            Some(Ok(token)) => Err(Error::UnexpectedToken(token)),
            Some(Err(e)) => Err(Error::Lex(e)),
            None => Err(Error::TokenizerEmpty),
        },
        Some(Err(_)) => match tokens.next() {
            Some(Ok(token)) => Err(Error::UnexpectedToken(token)),
            Some(Err(e)) => Err(Error::Lex(e)),
            None => Err(Error::TokenizerEmpty),
        },
    }
}

impl<'input> Grammar<'input> for Type<'input> {
    open spec fn parsed(s: Stream<'input>) -> (Result<Self, Error<'input>>, Stream<'input>) {
        type_parsed(s)
    }

    fn parse(tokens: &mut Tokenizer<'input>, context: &mut Context) -> (r: Result<
        Self,
        Error<'input>,
    >) {
        parse_type(tokens, context)
    }
}

/// The scalar type `u8`.
#[derive(Debug)]
pub struct U8<'input>(pub tokens::U8<'input>);

impl<'input> DeepView for U8<'input> {
    type V = Self;

    open spec fn deep_view(&self) -> Self {
        *self
    }
}

impl<'input> Grammar<'input> for U8<'input> {
    open spec fn parsed(s: Stream<'input>) -> (Result<Self, Error<'input>>, Stream<'input>) {
        match tokens::U8::parsed(s) {
            (Ok(token), rest) => (Ok(U8(token)), rest),
            (Err(e), rest) => (Err(e), rest),
        }
    }

    fn parse(tokens: &mut Tokenizer<'input>, context: &mut Context) -> (r: Result<
        Self,
        Error<'input>,
    >) {
        Ok(U8(tokens::U8::parse(tokens, context)?))
    }
}

impl<'input> TypeGrammar<'input> for U8<'input> {
}

/// `array<T, N>`: `N` elements of type `T`.
#[derive(Debug)]
pub struct Array<'input, T> {
    pub array: tokens::Array<'input>,
    pub less_than: tokens::LessThan<'input>,
    pub type_: T,
    pub comma: tokens::Comma<'input>,
    pub number: tokens::Number<'input>,
    pub greater_than: tokens::GreaterThan<'input>,
}

impl<'input, T: DeepView> DeepView for Array<'input, T> {
    type V = Array<'input, T::V>;

    open spec fn deep_view(&self) -> Array<'input, T::V> {
        Array {
            array: self.array,
            less_than: self.less_than,
            type_: self.type_.deep_view(),
            comma: self.comma,
            number: self.number,
            greater_than: self.greater_than,
        }
    }
}

impl<'input, T> Grammar<'input> for Array<'input, T> where
    T: TypeGrammar<'input>,
 {
    open spec fn parsed(s: Stream<'input>) -> (
        Result<Array<'input, T::V>, Error<'input>>,
        Stream<'input>,
    ) {
        match tokens::Array::parsed(s) {
            (Err(e), s1) => (Err(e), s1),
            (Ok(array), s1) => match tokens::LessThan::parsed(s1) {
                (Err(e), s2) => (Err(e), s2),
                (Ok(less_than), s2) => match T::parsed(s2) {
                    (Err(e), s3) => (Err(e), s3),
                    (Ok(type_), s3) => match tokens::Comma::parsed(s3) {
                        (Err(e), s4) => (Err(e), s4),
                        (Ok(comma), s4) => match tokens::Number::parsed(s4) {
                            (Err(e), s5) => (Err(e), s5),
                            (Ok(number), s5) => match tokens::GreaterThan::parsed(s5) {
                                (Err(e), s6) => (Err(e), s6),
                                (Ok(greater_than), s6) => (
                                    Ok(
                                        Array {
                                            array,
                                            less_than,
                                            type_,
                                            comma,
                                            number,
                                            greater_than,
                                        },
                                    ),
                                    s6,
                                ),
                            },
                        },
                    },
                },
            },
        }
    }

    fn parse(tokens: &mut Tokenizer<'input>, context: &mut Context) -> (r: Result<
        Self,
        Error<'input>,
    >) {
        let array = tokens::Array::parse(tokens, context)?;
        let less_than = tokens::LessThan::parse(tokens, context)?;
        let type_ = T::parse(tokens, context)?;
        let comma = tokens::Comma::parse(tokens, context)?;
        let number = tokens::Number::parse(tokens, context)?;
        let greater_than = tokens::GreaterThan::parse(tokens, context)?;
        Ok(Array { array, less_than, type_, comma, number, greater_than })
    }
}

impl<'input, T> TypeGrammar<'input> for Array<'input, T> where
    T: TypeGrammar<'input>,
 {
}

/// `ptr<T>`: a pointer to a value of type `T`.
#[derive(Debug)]
pub struct Ptr<'input, T> {
    pub ptr: tokens::Ptr<'input>,
    pub less_than: tokens::LessThan<'input>,
    pub type_: T,
    pub greater_than: tokens::GreaterThan<'input>,
}

impl<'input, T: DeepView> DeepView for Ptr<'input, T> {
    type V = Ptr<'input, T::V>;

    open spec fn deep_view(&self) -> Ptr<'input, T::V> {
        Ptr {
            ptr: self.ptr,
            less_than: self.less_than,
            type_: self.type_.deep_view(),
            greater_than: self.greater_than,
        }
    }
}

impl<'input, T> Grammar<'input> for Ptr<'input, T> where
    T: TypeGrammar<'input>,
 {
    open spec fn parsed(s: Stream<'input>) -> (
        Result<Ptr<'input, T::V>, Error<'input>>,
        Stream<'input>,
    ) {
        match tokens::Ptr::parsed(s) {
            (Err(e), s1) => (Err(e), s1),
            (Ok(ptr), s1) => match tokens::LessThan::parsed(s1) {
                (Err(e), s2) => (Err(e), s2),
                (Ok(less_than), s2) => match T::parsed(s2) {
                    (Err(e), s3) => (Err(e), s3),
                    (Ok(type_), s3) => match tokens::GreaterThan::parsed(s3) {
                        (Err(e), s4) => (Err(e), s4),
                        (Ok(greater_than), s4) => (
                            Ok(
                                Ptr {
                                    ptr,
                                    less_than,
                                    type_,
                                    greater_than,
                                },
                            ),
                            s4,
                        ),
                    },
                },
            },
        }
    }

    fn parse(tokens: &mut Tokenizer<'input>, context: &mut Context) -> (r: Result<
        Self,
        Error<'input>,
    >) {
        let ptr = tokens::Ptr::parse(tokens, context)?;
        let less_than = tokens::LessThan::parse(tokens, context)?;
        let type_ = T::parse(tokens, context)?;
        let greater_than = tokens::GreaterThan::parse(tokens, context)?;
        Ok(Ptr { ptr, less_than, type_, greater_than })
    }
}

impl<'input, T> TypeGrammar<'input> for Ptr<'input, T> where
    T: TypeGrammar<'input>,
 {
}

/// `struct {}`: a structure, so far without fields.
#[derive(Debug)]
pub struct Struct<'input> {
    pub struct_: tokens::Struct<'input>,
    pub curly_left: tokens::CurlyLeft<'input>,
    pub curly_right: tokens::CurlyRight<'input>,
}

impl<'input> DeepView for Struct<'input> {
    type V = Struct<'input>;

    open spec fn deep_view(&self) -> Struct<'input> {
        Struct {
            struct_: self.struct_,
            curly_left: self.curly_left,
            curly_right: self.curly_right,
        }
    }
}

impl<'input> Grammar<'input> for Struct<'input> {
    open spec fn parsed(s: Stream<'input>) -> (
        Result<Struct<'input>, Error<'input>>,
        Stream<'input>,
    ) {
        match tokens::Struct::parsed(s) {
            (Err(e), s1) => (Err(e), s1),
            (Ok(struct_), s1) => match tokens::CurlyLeft::parsed(s1) {
                (Err(e), s2) => (Err(e), s2),
                (Ok(curly_left), s2) => match tokens::CurlyRight::parsed(s2) {
                    (Err(e), s3) => (Err(e), s3),
                    (Ok(curly_right), s3) => (Ok(Struct { struct_, curly_left, curly_right }), s3),
                },
            },
        }
    }

    fn parse(tokens: &mut Tokenizer<'input>, context: &mut Context) -> (r: Result<
        Self,
        Error<'input>,
    >) {
        let struct_ = tokens::Struct::parse(tokens, context)?;
        let curly_left = tokens::CurlyLeft::parse(tokens, context)?;
        let curly_right = tokens::CurlyRight::parse(tokens, context)?;
        Ok(Struct { struct_, curly_left, curly_right })
    }
}

impl<'input> TypeGrammar<'input> for Struct<'input> {
}

} // verus!
