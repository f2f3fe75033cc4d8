//! The token catalog: one type per token kind, the sum type [`Token`] over
//! them, and the plain tag [`TokenKind`] that the scanning rules speak of.
//!
//! A token borrows the source text it was read from and carries a [`Span`].

use crate::{Span, Spanned};
use vstd::prelude::*;

verus! {

/// The kind of a token, without the text it was read from.
#[derive(Debug, Clone, Copy, PartialEq, Eq, Hash)]
pub enum TokenKind {
    // literals, identifiers and end of input
    /// End of input: the last item of every stream that ends without an error.
    EOF,
    /// A word that is no keyword, or one character that fits no other rule.
    Identifier,
    /// A decimal number literal.
    Number,
    /// A string literal, `"Hello, world!"`.
    Str,

    // keywords
    /// `addr`
    Addr,
    /// `array`
    Array,
    /// `asm`
    Asm,
    /// `break`
    Break,
    /// `const`
    Const,
    /// `continue`
    Continue,
    /// `deref`
    Deref,
    /// `else`
    Else,
    /// `if`
    If,
    /// `let`
    Let,
    /// `loop`
    Loop,
    /// `ptr`
    Ptr,
    /// `static`
    Static,
    /// `struct`
    Struct,
    /// `union`
    Union,
    /// `u8`
    U8,
    /// `while`
    While,

    // two characters
    /// `&=`
    AndEquals,
    /// `::`
    ColonColon,
    /// `==`
    EqualsEquals,
    /// `/=`
    ForwardSlashEquals,
    /// `>=`
    GreaterEqualsThan,
    /// `<=`
    LessEqualsThan,
    /// `-=`
    MinusEquals,
    /// `~=`
    NotEquals,
    /// `|=`
    OrEquals,
    /// `+=`
    PlusEquals,
    /// `*=`
    StarEquals,
    /// `^=`
    XorEquals,

    // one character
    /// `&`
    And,
    /// `@`
    At,
    /// `:`
    Colon,
    /// `,`
    Comma,
    /// `{`
    CurlyLeft,
    /// `}`
    CurlyRight,
    /// `=`
    Equals,
    /// `/`
    ForwardSlash,
    /// `>`
    GreaterThan,
    /// `<`
    LessThan,
    /// `-`
    Minus,
    /// `~`
    Not,
    /// `|`
    Or,
    /// `(`
    ParLeft,
    /// `)`
    ParRight,
    /// `+`
    Plus,
    /// `;`
    SemiColon,
    /// `[`
    SquareLeft,
    /// `]`
    SquareRight,
    /// `*`
    Star,
    /// `^`
    Xor,
}

/// End of input: the last item of every stream that ends without an error.
#[derive(Debug, Clone, Copy, PartialEq, Eq, Hash)]
pub struct EOF<'input> {
    /// The source text that the token was read from.
    pub inner: &'input str,
    /// Where the token stands in the source.
    pub span: Span,
}

/// A word that is no keyword, or one character that fits no other rule.
#[derive(Debug, Clone, Copy, PartialEq, Eq, Hash)]
pub struct Identifier<'input> {
    /// The source text that the token was read from.
    pub inner: &'input str,
    /// Where the token stands in the source.
    pub span: Span,
}

/// A decimal number literal.
#[derive(Debug, Clone, Copy, PartialEq, Eq, Hash)]
pub struct Number<'input> {
    /// The source text that the token was read from.
    pub inner: &'input str,
    /// Where the token stands in the source.
    pub span: Span,
}

/// A string literal, `"Hello, world!"`.
#[derive(Debug, Clone, Copy, PartialEq, Eq, Hash)]
pub struct Str<'input> {
    /// The source text that the token was read from.
    pub inner: &'input str,
    /// Where the token stands in the source.
    pub span: Span,
}

/// `addr`
#[derive(Debug, Clone, Copy, PartialEq, Eq, Hash)]
pub struct Addr<'input> {
    /// The source text that the token was read from.
    pub inner: &'input str,
    /// Where the token stands in the source.
    pub span: Span,
}

/// `array`
#[derive(Debug, Clone, Copy, PartialEq, Eq, Hash)]
pub struct Array<'input> {
    /// The source text that the token was read from.
    pub inner: &'input str,
    /// Where the token stands in the source.
    pub span: Span,
}

/// `asm`
#[derive(Debug, Clone, Copy, PartialEq, Eq, Hash)]
pub struct Asm<'input> {
    /// The source text that the token was read from.
    pub inner: &'input str,
    /// Where the token stands in the source.
    pub span: Span,
}

/// `break`
#[derive(Debug, Clone, Copy, PartialEq, Eq, Hash)]
pub struct Break<'input> {
    /// The source text that the token was read from.
    pub inner: &'input str,
    /// Where the token stands in the source.
    pub span: Span,
}

/// `const`
#[derive(Debug, Clone, Copy, PartialEq, Eq, Hash)]
pub struct Const<'input> {
    /// The source text that the token was read from.
    pub inner: &'input str,
    /// Where the token stands in the source.
    pub span: Span,
}

/// `continue`
#[derive(Debug, Clone, Copy, PartialEq, Eq, Hash)]
pub struct Continue<'input> {
    /// The source text that the token was read from.
    pub inner: &'input str,
    /// Where the token stands in the source.
    pub span: Span,
}

/// `deref`
#[derive(Debug, Clone, Copy, PartialEq, Eq, Hash)]
pub struct Deref<'input> {
    /// The source text that the token was read from.
    pub inner: &'input str,
    /// Where the token stands in the source.
    pub span: Span,
}

/// `else`
#[derive(Debug, Clone, Copy, PartialEq, Eq, Hash)]
pub struct Else<'input> {
    /// The source text that the token was read from.
    pub inner: &'input str,
    /// Where the token stands in the source.
    pub span: Span,
}

/// `if`
#[derive(Debug, Clone, Copy, PartialEq, Eq, Hash)]
pub struct If<'input> {
    /// The source text that the token was read from.
    pub inner: &'input str,
    /// Where the token stands in the source.
    pub span: Span,
}

/// `let`
#[derive(Debug, Clone, Copy, PartialEq, Eq, Hash)]
pub struct Let<'input> {
    /// The source text that the token was read from.
    pub inner: &'input str,
    /// Where the token stands in the source.
    pub span: Span,
}

/// `loop`
#[derive(Debug, Clone, Copy, PartialEq, Eq, Hash)]
pub struct Loop<'input> {
    /// The source text that the token was read from.
    pub inner: &'input str,
    /// Where the token stands in the source.
    pub span: Span,
}

/// `ptr`
#[derive(Debug, Clone, Copy, PartialEq, Eq, Hash)]
pub struct Ptr<'input> {
    /// The source text that the token was read from.
    pub inner: &'input str,
    /// Where the token stands in the source.
    pub span: Span,
}

/// `static`
#[derive(Debug, Clone, Copy, PartialEq, Eq, Hash)]
pub struct Static<'input> {
    /// The source text that the token was read from.
    pub inner: &'input str,
    /// Where the token stands in the source.
    pub span: Span,
}

/// `struct`
#[derive(Debug, Clone, Copy, PartialEq, Eq, Hash)]
pub struct Struct<'input> {
    /// The source text that the token was read from.
    pub inner: &'input str,
    /// Where the token stands in the source.
    pub span: Span,
}

/// `union`
#[derive(Debug, Clone, Copy, PartialEq, Eq, Hash)]
pub struct Union<'input> {
    /// The source text that the token was read from.
    pub inner: &'input str,
    /// Where the token stands in the source.
    pub span: Span,
}

/// `u8`
#[derive(Debug, Clone, Copy, PartialEq, Eq, Hash)]
pub struct U8<'input> {
    /// The source text that the token was read from.
    pub inner: &'input str,
    /// Where the token stands in the source.
    pub span: Span,
}

/// `while`
#[derive(Debug, Clone, Copy, PartialEq, Eq, Hash)]
pub struct While<'input> {
    /// The source text that the token was read from.
    pub inner: &'input str,
    /// Where the token stands in the source.
    pub span: Span,
}

/// `&=`
#[derive(Debug, Clone, Copy, PartialEq, Eq, Hash)]
pub struct AndEquals<'input> {
    /// The source text that the token was read from.
    pub inner: &'input str,
    /// Where the token stands in the source.
    pub span: Span,
}

/// `::`
#[derive(Debug, Clone, Copy, PartialEq, Eq, Hash)]
pub struct ColonColon<'input> {
    /// The source text that the token was read from.
    pub inner: &'input str,
    /// Where the token stands in the source.
    pub span: Span,
}

/// `==`
#[derive(Debug, Clone, Copy, PartialEq, Eq, Hash)]
pub struct EqualsEquals<'input> {
    /// The source text that the token was read from.
    pub inner: &'input str,
    /// Where the token stands in the source.
    pub span: Span,
}

/// `/=`
#[derive(Debug, Clone, Copy, PartialEq, Eq, Hash)]
pub struct ForwardSlashEquals<'input> {
    /// The source text that the token was read from.
    pub inner: &'input str,
    /// Where the token stands in the source.
    pub span: Span,
}

/// `>=`
#[derive(Debug, Clone, Copy, PartialEq, Eq, Hash)]
pub struct GreaterEqualsThan<'input> {
    /// The source text that the token was read from.
    pub inner: &'input str,
    /// Where the token stands in the source.
    pub span: Span,
}

/// `<=`
#[derive(Debug, Clone, Copy, PartialEq, Eq, Hash)]
pub struct LessEqualsThan<'input> {
    /// The source text that the token was read from.
    pub inner: &'input str,
    /// Where the token stands in the source.
    pub span: Span,
}

/// `-=`
#[derive(Debug, Clone, Copy, PartialEq, Eq, Hash)]
pub struct MinusEquals<'input> {
    /// The source text that the token was read from.
    pub inner: &'input str,
    /// Where the token stands in the source.
    pub span: Span,
}

/// `~=`
#[derive(Debug, Clone, Copy, PartialEq, Eq, Hash)]
pub struct NotEquals<'input> {
    /// The source text that the token was read from.
    pub inner: &'input str,
    /// Where the token stands in the source.
    pub span: Span,
}

/// `|=`
#[derive(Debug, Clone, Copy, PartialEq, Eq, Hash)]
pub struct OrEquals<'input> {
    /// The source text that the token was read from.
    pub inner: &'input str,
    /// Where the token stands in the source.
    pub span: Span,
}

/// `+=`
#[derive(Debug, Clone, Copy, PartialEq, Eq, Hash)]
pub struct PlusEquals<'input> {
    /// The source text that the token was read from.
    pub inner: &'input str,
    /// Where the token stands in the source.
    pub span: Span,
}

/// `*=`
#[derive(Debug, Clone, Copy, PartialEq, Eq, Hash)]
pub struct StarEquals<'input> {
    /// The source text that the token was read from.
    pub inner: &'input str,
    /// Where the token stands in the source.
    pub span: Span,
}

/// `^=`
#[derive(Debug, Clone, Copy, PartialEq, Eq, Hash)]
pub struct XorEquals<'input> {
    /// The source text that the token was read from.
    pub inner: &'input str,
    /// Where the token stands in the source.
    pub span: Span,
}

/// `&`
#[derive(Debug, Clone, Copy, PartialEq, Eq, Hash)]
pub struct And<'input> {
    /// The source text that the token was read from.
    pub inner: &'input str,
    /// Where the token stands in the source.
    pub span: Span,
}

/// `@`
#[derive(Debug, Clone, Copy, PartialEq, Eq, Hash)]
pub struct At<'input> {
    /// The source text that the token was read from.
    pub inner: &'input str,
    /// Where the token stands in the source.
    pub span: Span,
}

/// `:`
#[derive(Debug, Clone, Copy, PartialEq, Eq, Hash)]
pub struct Colon<'input> {
    /// The source text that the token was read from.
    pub inner: &'input str,
    /// Where the token stands in the source.
    pub span: Span,
}

/// `,`
#[derive(Debug, Clone, Copy, PartialEq, Eq, Hash)]
pub struct Comma<'input> {
    /// The source text that the token was read from.
    pub inner: &'input str,
    /// Where the token stands in the source.
    pub span: Span,
}

/// `{`
#[derive(Debug, Clone, Copy, PartialEq, Eq, Hash)]
pub struct CurlyLeft<'input> {
    /// The source text that the token was read from.
    pub inner: &'input str,
    /// Where the token stands in the source.
    pub span: Span,
}

/// `}`
#[derive(Debug, Clone, Copy, PartialEq, Eq, Hash)]
pub struct CurlyRight<'input> {
    /// The source text that the token was read from.
    pub inner: &'input str,
    /// Where the token stands in the source.
    pub span: Span,
}

/// `=`
#[derive(Debug, Clone, Copy, PartialEq, Eq, Hash)]
pub struct Equals<'input> {
    /// The source text that the token was read from.
    pub inner: &'input str,
    /// Where the token stands in the source.
    pub span: Span,
}

/// `/`
#[derive(Debug, Clone, Copy, PartialEq, Eq, Hash)]
pub struct ForwardSlash<'input> {
    /// The source text that the token was read from.
    pub inner: &'input str,
    /// Where the token stands in the source.
    pub span: Span,
}

/// `>`
#[derive(Debug, Clone, Copy, PartialEq, Eq, Hash)]
pub struct GreaterThan<'input> {
    /// The source text that the token was read from.
    pub inner: &'input str,
    /// Where the token stands in the source.
    pub span: Span,
}

/// `<`
#[derive(Debug, Clone, Copy, PartialEq, Eq, Hash)]
pub struct LessThan<'input> {
    /// The source text that the token was read from.
    pub inner: &'input str,
    /// Where the token stands in the source.
    pub span: Span,
}

/// `-`
#[derive(Debug, Clone, Copy, PartialEq, Eq, Hash)]
pub struct Minus<'input> {
    /// The source text that the token was read from.
    pub inner: &'input str,
    /// Where the token stands in the source.
    pub span: Span,
}

/// `~`
#[derive(Debug, Clone, Copy, PartialEq, Eq, Hash)]
pub struct Not<'input> {
    /// The source text that the token was read from.
    pub inner: &'input str,
    /// Where the token stands in the source.
    pub span: Span,
}

/// `|`
#[derive(Debug, Clone, Copy, PartialEq, Eq, Hash)]
pub struct Or<'input> {
    /// The source text that the token was read from.
    pub inner: &'input str,
    /// Where the token stands in the source.
    pub span: Span,
}

/// `(`
#[derive(Debug, Clone, Copy, PartialEq, Eq, Hash)]
pub struct ParLeft<'input> {
    /// The source text that the token was read from.
    pub inner: &'input str,
    /// Where the token stands in the source.
    pub span: Span,
}

/// `)`
#[derive(Debug, Clone, Copy, PartialEq, Eq, Hash)]
pub struct ParRight<'input> {
    /// The source text that the token was read from.
    pub inner: &'input str,
    /// Where the token stands in the source.
    pub span: Span,
}

/// `+`
#[derive(Debug, Clone, Copy, PartialEq, Eq, Hash)]
pub struct Plus<'input> {
    /// The source text that the token was read from.
    pub inner: &'input str,
    /// Where the token stands in the source.
    pub span: Span,
}

/// `;`
#[derive(Debug, Clone, Copy, PartialEq, Eq, Hash)]
pub struct SemiColon<'input> {
    /// The source text that the token was read from.
    pub inner: &'input str,
    /// Where the token stands in the source.
    pub span: Span,
}

/// `[`
#[derive(Debug, Clone, Copy, PartialEq, Eq, Hash)]
pub struct SquareLeft<'input> {
    /// The source text that the token was read from.
    pub inner: &'input str,
    /// Where the token stands in the source.
    pub span: Span,
}

/// `]`
#[derive(Debug, Clone, Copy, PartialEq, Eq, Hash)]
pub struct SquareRight<'input> {
    /// The source text that the token was read from.
    pub inner: &'input str,
    /// Where the token stands in the source.
    pub span: Span,
}

/// `*`
#[derive(Debug, Clone, Copy, PartialEq, Eq, Hash)]
pub struct Star<'input> {
    /// The source text that the token was read from.
    pub inner: &'input str,
    /// Where the token stands in the source.
    pub span: Span,
}

/// `^`
#[derive(Debug, Clone, Copy, PartialEq, Eq, Hash)]
pub struct Xor<'input> {
    /// The source text that the token was read from.
    pub inner: &'input str,
    /// Where the token stands in the source.
    pub span: Span,
}

/// Language tokens.
#[derive(Debug, Clone, Copy, PartialEq, Eq, Hash)]
pub enum Token<'input> {
    // literals, identifiers and end of input
    /// End of input: the last item of every stream that ends without an error.
    EOF(EOF<'input>),
    /// A word that is no keyword, or one character that fits no other rule.
    Identifier(Identifier<'input>),
    /// A decimal number literal.
    Number(Number<'input>),
    /// A string literal, `"Hello, world!"`.
    Str(Str<'input>),

    // keywords
    /// `addr`
    Addr(Addr<'input>),
    /// `array`
    Array(Array<'input>),
    /// `asm`
    Asm(Asm<'input>),
    /// `break`
    Break(Break<'input>),
    /// `const`
    Const(Const<'input>),
    /// `continue`
    Continue(Continue<'input>),
    /// `deref`
    Deref(Deref<'input>),
    /// `else`
    Else(Else<'input>),
    /// `if`
    If(If<'input>),
    /// `let`
    Let(Let<'input>),
    /// `loop`
    Loop(Loop<'input>),
    /// `ptr`
    Ptr(Ptr<'input>),
    /// `static`
    Static(Static<'input>),
    /// `struct`
    Struct(Struct<'input>),
    /// `union`
    Union(Union<'input>),
    /// `u8`
    U8(U8<'input>),
    /// `while`
    While(While<'input>),

    // two characters
    /// `&=`
    AndEquals(AndEquals<'input>),
    /// `::`
    ColonColon(ColonColon<'input>),
    /// `==`
    EqualsEquals(EqualsEquals<'input>),
    /// `/=`
    ForwardSlashEquals(ForwardSlashEquals<'input>),
    /// `>=`
    GreaterEqualsThan(GreaterEqualsThan<'input>),
    /// `<=`
    LessEqualsThan(LessEqualsThan<'input>),
    /// `-=`
    MinusEquals(MinusEquals<'input>),
    /// `~=`
    NotEquals(NotEquals<'input>),
    /// `|=`
    OrEquals(OrEquals<'input>),
    /// `+=`
    PlusEquals(PlusEquals<'input>),
    /// `*=`
    StarEquals(StarEquals<'input>),
    /// `^=`
    XorEquals(XorEquals<'input>),

    // one character
    /// `&`
    And(And<'input>),
    /// `@`
    At(At<'input>),
    /// `:`
    Colon(Colon<'input>),
    /// `,`
    Comma(Comma<'input>),
    /// `{`
    CurlyLeft(CurlyLeft<'input>),
    /// `}`
    CurlyRight(CurlyRight<'input>),
    /// `=`
    Equals(Equals<'input>),
    /// `/`
    ForwardSlash(ForwardSlash<'input>),
    /// `>`
    GreaterThan(GreaterThan<'input>),
    /// `<`
    LessThan(LessThan<'input>),
    /// `-`
    Minus(Minus<'input>),
    /// `~`
    Not(Not<'input>),
    /// `|`
    Or(Or<'input>),
    /// `(`
    ParLeft(ParLeft<'input>),
    /// `)`
    ParRight(ParRight<'input>),
    /// `+`
    Plus(Plus<'input>),
    /// `;`
    SemiColon(SemiColon<'input>),
    /// `[`
    SquareLeft(SquareLeft<'input>),
    /// `]`
    SquareRight(SquareRight<'input>),
    /// `*`
    Star(Star<'input>),
    /// `^`
    Xor(Xor<'input>),
}

impl<'input> Token<'input> {
    /// The token of kind `kind` read from `source`.
    pub open spec fn of(kind: TokenKind, source: &'input str) -> Token<'input> {
        match kind {
            TokenKind::EOF => Token::EOF(EOF { inner: source, span: Span::origin() }),
            TokenKind::Identifier => Token::Identifier(
                Identifier { inner: source, span: Span::origin() },
            ),
            TokenKind::Number => Token::Number(Number { inner: source, span: Span::origin() }),
            TokenKind::Str => Token::Str(Str { inner: source, span: Span::origin() }),
            TokenKind::Addr => Token::Addr(Addr { inner: source, span: Span::origin() }),
            TokenKind::Array => Token::Array(Array { inner: source, span: Span::origin() }),
            TokenKind::Asm => Token::Asm(Asm { inner: source, span: Span::origin() }),
            TokenKind::Break => Token::Break(Break { inner: source, span: Span::origin() }),
            TokenKind::Const => Token::Const(Const { inner: source, span: Span::origin() }),
            TokenKind::Continue => Token::Continue(
                Continue { inner: source, span: Span::origin() },
            ),
            TokenKind::Deref => Token::Deref(Deref { inner: source, span: Span::origin() }),
            TokenKind::Else => Token::Else(Else { inner: source, span: Span::origin() }),
            TokenKind::If => Token::If(If { inner: source, span: Span::origin() }),
            TokenKind::Let => Token::Let(Let { inner: source, span: Span::origin() }),
            TokenKind::Loop => Token::Loop(Loop { inner: source, span: Span::origin() }),
            TokenKind::Ptr => Token::Ptr(Ptr { inner: source, span: Span::origin() }),
            TokenKind::Static => Token::Static(Static { inner: source, span: Span::origin() }),
            TokenKind::Struct => Token::Struct(Struct { inner: source, span: Span::origin() }),
            TokenKind::Union => Token::Union(Union { inner: source, span: Span::origin() }),
            TokenKind::U8 => Token::U8(U8 { inner: source, span: Span::origin() }),
            TokenKind::While => Token::While(While { inner: source, span: Span::origin() }),
            TokenKind::AndEquals => Token::AndEquals(
                AndEquals { inner: source, span: Span::origin() },
            ),
            TokenKind::ColonColon => Token::ColonColon(
                ColonColon { inner: source, span: Span::origin() },
            ),
            TokenKind::EqualsEquals => Token::EqualsEquals(
                EqualsEquals { inner: source, span: Span::origin() },
            ),
            TokenKind::ForwardSlashEquals => Token::ForwardSlashEquals(
                ForwardSlashEquals { inner: source, span: Span::origin() },
            ),
            TokenKind::GreaterEqualsThan => Token::GreaterEqualsThan(
                GreaterEqualsThan { inner: source, span: Span::origin() },
            ),
            TokenKind::LessEqualsThan => Token::LessEqualsThan(
                LessEqualsThan { inner: source, span: Span::origin() },
            ),
            TokenKind::MinusEquals => Token::MinusEquals(
                MinusEquals { inner: source, span: Span::origin() },
            ),
            TokenKind::NotEquals => Token::NotEquals(
                NotEquals { inner: source, span: Span::origin() },
            ),
            TokenKind::OrEquals => Token::OrEquals(
                OrEquals { inner: source, span: Span::origin() },
            ),
            TokenKind::PlusEquals => Token::PlusEquals(
                PlusEquals { inner: source, span: Span::origin() },
            ),
            TokenKind::StarEquals => Token::StarEquals(
                StarEquals { inner: source, span: Span::origin() },
            ),
            TokenKind::XorEquals => Token::XorEquals(
                XorEquals { inner: source, span: Span::origin() },
            ),
            TokenKind::And => Token::And(And { inner: source, span: Span::origin() }),
            TokenKind::At => Token::At(At { inner: source, span: Span::origin() }),
            TokenKind::Colon => Token::Colon(Colon { inner: source, span: Span::origin() }),
            TokenKind::Comma => Token::Comma(Comma { inner: source, span: Span::origin() }),
            TokenKind::CurlyLeft => Token::CurlyLeft(
                CurlyLeft { inner: source, span: Span::origin() },
            ),
            TokenKind::CurlyRight => Token::CurlyRight(
                CurlyRight { inner: source, span: Span::origin() },
            ),
            TokenKind::Equals => Token::Equals(Equals { inner: source, span: Span::origin() }),
            TokenKind::ForwardSlash => Token::ForwardSlash(
                ForwardSlash { inner: source, span: Span::origin() },
            ),
            TokenKind::GreaterThan => Token::GreaterThan(
                GreaterThan { inner: source, span: Span::origin() },
            ),
            TokenKind::LessThan => Token::LessThan(
                LessThan { inner: source, span: Span::origin() },
            ),
            TokenKind::Minus => Token::Minus(Minus { inner: source, span: Span::origin() }),
            TokenKind::Not => Token::Not(Not { inner: source, span: Span::origin() }),
            TokenKind::Or => Token::Or(Or { inner: source, span: Span::origin() }),
            TokenKind::ParLeft => Token::ParLeft(ParLeft { inner: source, span: Span::origin() }),
            TokenKind::ParRight => Token::ParRight(
                ParRight { inner: source, span: Span::origin() },
            ),
            TokenKind::Plus => Token::Plus(Plus { inner: source, span: Span::origin() }),
            TokenKind::SemiColon => Token::SemiColon(
                SemiColon { inner: source, span: Span::origin() },
            ),
            TokenKind::SquareLeft => Token::SquareLeft(
                SquareLeft { inner: source, span: Span::origin() },
            ),
            TokenKind::SquareRight => Token::SquareRight(
                SquareRight { inner: source, span: Span::origin() },
            ),
            TokenKind::Star => Token::Star(Star { inner: source, span: Span::origin() }),
            TokenKind::Xor => Token::Xor(Xor { inner: source, span: Span::origin() }),
        }
    }

    /// The kind of the token.
    pub open spec fn spec_kind(&self) -> TokenKind {
        match self {
            Token::EOF(_) => TokenKind::EOF,
            Token::Identifier(_) => TokenKind::Identifier,
            Token::Number(_) => TokenKind::Number,
            Token::Str(_) => TokenKind::Str,
            Token::Addr(_) => TokenKind::Addr,
            Token::Array(_) => TokenKind::Array,
            Token::Asm(_) => TokenKind::Asm,
            Token::Break(_) => TokenKind::Break,
            Token::Const(_) => TokenKind::Const,
            Token::Continue(_) => TokenKind::Continue,
            Token::Deref(_) => TokenKind::Deref,
            Token::Else(_) => TokenKind::Else,
            Token::If(_) => TokenKind::If,
            Token::Let(_) => TokenKind::Let,
            Token::Loop(_) => TokenKind::Loop,
            Token::Ptr(_) => TokenKind::Ptr,
            Token::Static(_) => TokenKind::Static,
            Token::Struct(_) => TokenKind::Struct,
            Token::Union(_) => TokenKind::Union,
            Token::U8(_) => TokenKind::U8,
            Token::While(_) => TokenKind::While,
            Token::AndEquals(_) => TokenKind::AndEquals,
            Token::ColonColon(_) => TokenKind::ColonColon,
            Token::EqualsEquals(_) => TokenKind::EqualsEquals,
            Token::ForwardSlashEquals(_) => TokenKind::ForwardSlashEquals,
            Token::GreaterEqualsThan(_) => TokenKind::GreaterEqualsThan,
            Token::LessEqualsThan(_) => TokenKind::LessEqualsThan,
            Token::MinusEquals(_) => TokenKind::MinusEquals,
            Token::NotEquals(_) => TokenKind::NotEquals,
            Token::OrEquals(_) => TokenKind::OrEquals,
            Token::PlusEquals(_) => TokenKind::PlusEquals,
            Token::StarEquals(_) => TokenKind::StarEquals,
            Token::XorEquals(_) => TokenKind::XorEquals,
            Token::And(_) => TokenKind::And,
            Token::At(_) => TokenKind::At,
            Token::Colon(_) => TokenKind::Colon,
            Token::Comma(_) => TokenKind::Comma,
            Token::CurlyLeft(_) => TokenKind::CurlyLeft,
            Token::CurlyRight(_) => TokenKind::CurlyRight,
            Token::Equals(_) => TokenKind::Equals,
            Token::ForwardSlash(_) => TokenKind::ForwardSlash,
            Token::GreaterThan(_) => TokenKind::GreaterThan,
            Token::LessThan(_) => TokenKind::LessThan,
            Token::Minus(_) => TokenKind::Minus,
            Token::Not(_) => TokenKind::Not,
            Token::Or(_) => TokenKind::Or,
            Token::ParLeft(_) => TokenKind::ParLeft,
            Token::ParRight(_) => TokenKind::ParRight,
            Token::Plus(_) => TokenKind::Plus,
            Token::SemiColon(_) => TokenKind::SemiColon,
            Token::SquareLeft(_) => TokenKind::SquareLeft,
            Token::SquareRight(_) => TokenKind::SquareRight,
            Token::Star(_) => TokenKind::Star,
            Token::Xor(_) => TokenKind::Xor,
        }
    }

    /// The source text that the token was read from.
    pub open spec fn spec_text(&self) -> &'input str {
        match self {
            Token::EOF(t) => t.inner,
            Token::Identifier(t) => t.inner,
            Token::Number(t) => t.inner,
            Token::Str(t) => t.inner,
            Token::Addr(t) => t.inner,
            Token::Array(t) => t.inner,
            Token::Asm(t) => t.inner,
            Token::Break(t) => t.inner,
            Token::Const(t) => t.inner,
            Token::Continue(t) => t.inner,
            Token::Deref(t) => t.inner,
            Token::Else(t) => t.inner,
            Token::If(t) => t.inner,
            Token::Let(t) => t.inner,
            Token::Loop(t) => t.inner,
            Token::Ptr(t) => t.inner,
            Token::Static(t) => t.inner,
            Token::Struct(t) => t.inner,
            Token::Union(t) => t.inner,
            Token::U8(t) => t.inner,
            Token::While(t) => t.inner,
            Token::AndEquals(t) => t.inner,
            Token::ColonColon(t) => t.inner,
            Token::EqualsEquals(t) => t.inner,
            Token::ForwardSlashEquals(t) => t.inner,
            Token::GreaterEqualsThan(t) => t.inner,
            Token::LessEqualsThan(t) => t.inner,
            Token::MinusEquals(t) => t.inner,
            Token::NotEquals(t) => t.inner,
            Token::OrEquals(t) => t.inner,
            Token::PlusEquals(t) => t.inner,
            Token::StarEquals(t) => t.inner,
            Token::XorEquals(t) => t.inner,
            Token::And(t) => t.inner,
            Token::At(t) => t.inner,
            Token::Colon(t) => t.inner,
            Token::Comma(t) => t.inner,
            Token::CurlyLeft(t) => t.inner,
            Token::CurlyRight(t) => t.inner,
            Token::Equals(t) => t.inner,
            Token::ForwardSlash(t) => t.inner,
            Token::GreaterThan(t) => t.inner,
            Token::LessThan(t) => t.inner,
            Token::Minus(t) => t.inner,
            Token::Not(t) => t.inner,
            Token::Or(t) => t.inner,
            Token::ParLeft(t) => t.inner,
            Token::ParRight(t) => t.inner,
            Token::Plus(t) => t.inner,
            Token::SemiColon(t) => t.inner,
            Token::SquareLeft(t) => t.inner,
            Token::SquareRight(t) => t.inner,
            Token::Star(t) => t.inner,
            Token::Xor(t) => t.inner,
        }
    }

    /// Where the token stands in the source.
    pub open spec fn spec_span(&self) -> Span {
        match self {
            Token::EOF(t) => t.span,
            Token::Identifier(t) => t.span,
            Token::Number(t) => t.span,
            Token::Str(t) => t.span,
            Token::Addr(t) => t.span,
            Token::Array(t) => t.span,
            Token::Asm(t) => t.span,
            Token::Break(t) => t.span,
            Token::Const(t) => t.span,
            Token::Continue(t) => t.span,
            Token::Deref(t) => t.span,
            Token::Else(t) => t.span,
            Token::If(t) => t.span,
            Token::Let(t) => t.span,
            Token::Loop(t) => t.span,
            Token::Ptr(t) => t.span,
            Token::Static(t) => t.span,
            Token::Struct(t) => t.span,
            Token::Union(t) => t.span,
            Token::U8(t) => t.span,
            Token::While(t) => t.span,
            Token::AndEquals(t) => t.span,
            Token::ColonColon(t) => t.span,
            Token::EqualsEquals(t) => t.span,
            Token::ForwardSlashEquals(t) => t.span,
            Token::GreaterEqualsThan(t) => t.span,
            Token::LessEqualsThan(t) => t.span,
            Token::MinusEquals(t) => t.span,
            Token::NotEquals(t) => t.span,
            Token::OrEquals(t) => t.span,
            Token::PlusEquals(t) => t.span,
            Token::StarEquals(t) => t.span,
            Token::XorEquals(t) => t.span,
            Token::And(t) => t.span,
            Token::At(t) => t.span,
            Token::Colon(t) => t.span,
            Token::Comma(t) => t.span,
            Token::CurlyLeft(t) => t.span,
            Token::CurlyRight(t) => t.span,
            Token::Equals(t) => t.span,
            Token::ForwardSlash(t) => t.span,
            Token::GreaterThan(t) => t.span,
            Token::LessThan(t) => t.span,
            Token::Minus(t) => t.span,
            Token::Not(t) => t.span,
            Token::Or(t) => t.span,
            Token::ParLeft(t) => t.span,
            Token::ParRight(t) => t.span,
            Token::Plus(t) => t.span,
            Token::SemiColon(t) => t.span,
            Token::SquareLeft(t) => t.span,
            Token::SquareRight(t) => t.span,
            Token::Star(t) => t.span,
            Token::Xor(t) => t.span,
        }
    }

    /// Makes the token of kind `kind` read from `source`, with the span at
    /// the origin.
    pub fn new(kind: TokenKind, source: &'input str) -> (token: Token<'input>)
        ensures
            token == Token::of(kind, source),
            token.kind() == kind,
            token.text() == source,
            token.span() == Span::origin(),
    {
        let span = Span::default();
        match kind {
            TokenKind::EOF => Token::EOF(EOF { inner: source, span }),
            TokenKind::Identifier => Token::Identifier(Identifier { inner: source, span }),
            TokenKind::Number => Token::Number(Number { inner: source, span }),
            TokenKind::Str => Token::Str(Str { inner: source, span }),
            TokenKind::Addr => Token::Addr(Addr { inner: source, span }),
            TokenKind::Array => Token::Array(Array { inner: source, span }),
            TokenKind::Asm => Token::Asm(Asm { inner: source, span }),
            TokenKind::Break => Token::Break(Break { inner: source, span }),
            TokenKind::Const => Token::Const(Const { inner: source, span }),
            TokenKind::Continue => Token::Continue(Continue { inner: source, span }),
            TokenKind::Deref => Token::Deref(Deref { inner: source, span }),
            TokenKind::Else => Token::Else(Else { inner: source, span }),
            TokenKind::If => Token::If(If { inner: source, span }),
            TokenKind::Let => Token::Let(Let { inner: source, span }),
            TokenKind::Loop => Token::Loop(Loop { inner: source, span }),
            TokenKind::Ptr => Token::Ptr(Ptr { inner: source, span }),
            TokenKind::Static => Token::Static(Static { inner: source, span }),
            TokenKind::Struct => Token::Struct(Struct { inner: source, span }),
            TokenKind::Union => Token::Union(Union { inner: source, span }),
            TokenKind::U8 => Token::U8(U8 { inner: source, span }),
            TokenKind::While => Token::While(While { inner: source, span }),
            TokenKind::AndEquals => Token::AndEquals(AndEquals { inner: source, span }),
            TokenKind::ColonColon => Token::ColonColon(ColonColon { inner: source, span }),
            TokenKind::EqualsEquals => Token::EqualsEquals(EqualsEquals { inner: source, span }),
            TokenKind::ForwardSlashEquals => Token::ForwardSlashEquals(
                ForwardSlashEquals { inner: source, span },
            ),
            TokenKind::GreaterEqualsThan => Token::GreaterEqualsThan(
                GreaterEqualsThan { inner: source, span },
            ),
            TokenKind::LessEqualsThan => Token::LessEqualsThan(
                LessEqualsThan { inner: source, span },
            ),
            TokenKind::MinusEquals => Token::MinusEquals(MinusEquals { inner: source, span }),
            TokenKind::NotEquals => Token::NotEquals(NotEquals { inner: source, span }),
            TokenKind::OrEquals => Token::OrEquals(OrEquals { inner: source, span }),
            TokenKind::PlusEquals => Token::PlusEquals(PlusEquals { inner: source, span }),
            TokenKind::StarEquals => Token::StarEquals(StarEquals { inner: source, span }),
            TokenKind::XorEquals => Token::XorEquals(XorEquals { inner: source, span }),
            TokenKind::And => Token::And(And { inner: source, span }),
            TokenKind::At => Token::At(At { inner: source, span }),
            TokenKind::Colon => Token::Colon(Colon { inner: source, span }),
            TokenKind::Comma => Token::Comma(Comma { inner: source, span }),
            TokenKind::CurlyLeft => Token::CurlyLeft(CurlyLeft { inner: source, span }),
            TokenKind::CurlyRight => Token::CurlyRight(CurlyRight { inner: source, span }),
            TokenKind::Equals => Token::Equals(Equals { inner: source, span }),
            TokenKind::ForwardSlash => Token::ForwardSlash(ForwardSlash { inner: source, span }),
            TokenKind::GreaterThan => Token::GreaterThan(GreaterThan { inner: source, span }),
            TokenKind::LessThan => Token::LessThan(LessThan { inner: source, span }),
            TokenKind::Minus => Token::Minus(Minus { inner: source, span }),
            TokenKind::Not => Token::Not(Not { inner: source, span }),
            TokenKind::Or => Token::Or(Or { inner: source, span }),
            TokenKind::ParLeft => Token::ParLeft(ParLeft { inner: source, span }),
            TokenKind::ParRight => Token::ParRight(ParRight { inner: source, span }),
            TokenKind::Plus => Token::Plus(Plus { inner: source, span }),
            TokenKind::SemiColon => Token::SemiColon(SemiColon { inner: source, span }),
            TokenKind::SquareLeft => Token::SquareLeft(SquareLeft { inner: source, span }),
            TokenKind::SquareRight => Token::SquareRight(SquareRight { inner: source, span }),
            TokenKind::Star => Token::Star(Star { inner: source, span }),
            TokenKind::Xor => Token::Xor(Xor { inner: source, span }),
        }
    }

    /// The kind of the token.
    #[verifier::when_used_as_spec(spec_kind)]
    pub fn kind(&self) -> (kind: TokenKind)
        ensures
            kind == self.spec_kind(),
    {
        match self {
            Token::EOF(_) => TokenKind::EOF,
            Token::Identifier(_) => TokenKind::Identifier,
            Token::Number(_) => TokenKind::Number,
            Token::Str(_) => TokenKind::Str,
            Token::Addr(_) => TokenKind::Addr,
            Token::Array(_) => TokenKind::Array,
            Token::Asm(_) => TokenKind::Asm,
            Token::Break(_) => TokenKind::Break,
            Token::Const(_) => TokenKind::Const,
            Token::Continue(_) => TokenKind::Continue,
            Token::Deref(_) => TokenKind::Deref,
            Token::Else(_) => TokenKind::Else,
            Token::If(_) => TokenKind::If,
            Token::Let(_) => TokenKind::Let,
            Token::Loop(_) => TokenKind::Loop,
            Token::Ptr(_) => TokenKind::Ptr,
            Token::Static(_) => TokenKind::Static,
            Token::Struct(_) => TokenKind::Struct,
            Token::Union(_) => TokenKind::Union,
            Token::U8(_) => TokenKind::U8,
            Token::While(_) => TokenKind::While,
            Token::AndEquals(_) => TokenKind::AndEquals,
            Token::ColonColon(_) => TokenKind::ColonColon,
            Token::EqualsEquals(_) => TokenKind::EqualsEquals,
            Token::ForwardSlashEquals(_) => TokenKind::ForwardSlashEquals,
            Token::GreaterEqualsThan(_) => TokenKind::GreaterEqualsThan,
            Token::LessEqualsThan(_) => TokenKind::LessEqualsThan,
            Token::MinusEquals(_) => TokenKind::MinusEquals,
            Token::NotEquals(_) => TokenKind::NotEquals,
            Token::OrEquals(_) => TokenKind::OrEquals,
            Token::PlusEquals(_) => TokenKind::PlusEquals,
            Token::StarEquals(_) => TokenKind::StarEquals,
            Token::XorEquals(_) => TokenKind::XorEquals,
            Token::And(_) => TokenKind::And,
            Token::At(_) => TokenKind::At,
            Token::Colon(_) => TokenKind::Colon,
            Token::Comma(_) => TokenKind::Comma,
            Token::CurlyLeft(_) => TokenKind::CurlyLeft,
            Token::CurlyRight(_) => TokenKind::CurlyRight,
            Token::Equals(_) => TokenKind::Equals,
            Token::ForwardSlash(_) => TokenKind::ForwardSlash,
            Token::GreaterThan(_) => TokenKind::GreaterThan,
            Token::LessThan(_) => TokenKind::LessThan,
            Token::Minus(_) => TokenKind::Minus,
            Token::Not(_) => TokenKind::Not,
            Token::Or(_) => TokenKind::Or,
            Token::ParLeft(_) => TokenKind::ParLeft,
            Token::ParRight(_) => TokenKind::ParRight,
            Token::Plus(_) => TokenKind::Plus,
            Token::SemiColon(_) => TokenKind::SemiColon,
            Token::SquareLeft(_) => TokenKind::SquareLeft,
            Token::SquareRight(_) => TokenKind::SquareRight,
            Token::Star(_) => TokenKind::Star,
            Token::Xor(_) => TokenKind::Xor,
        }
    }

    /// The source text that the token was read from.
    #[verifier::when_used_as_spec(spec_text)]
    pub fn text(&self) -> (text: &'input str)
        ensures
            text == self.spec_text(),
    {
        match self {
            Token::EOF(t) => t.inner,
            Token::Identifier(t) => t.inner,
            Token::Number(t) => t.inner,
            Token::Str(t) => t.inner,
            Token::Addr(t) => t.inner,
            Token::Array(t) => t.inner,
            Token::Asm(t) => t.inner,
            Token::Break(t) => t.inner,
            Token::Const(t) => t.inner,
            Token::Continue(t) => t.inner,
            Token::Deref(t) => t.inner,
            Token::Else(t) => t.inner,
            Token::If(t) => t.inner,
            Token::Let(t) => t.inner,
            Token::Loop(t) => t.inner,
            Token::Ptr(t) => t.inner,
            Token::Static(t) => t.inner,
            Token::Struct(t) => t.inner,
            Token::Union(t) => t.inner,
            Token::U8(t) => t.inner,
            Token::While(t) => t.inner,
            Token::AndEquals(t) => t.inner,
            Token::ColonColon(t) => t.inner,
            Token::EqualsEquals(t) => t.inner,
            Token::ForwardSlashEquals(t) => t.inner,
            Token::GreaterEqualsThan(t) => t.inner,
            Token::LessEqualsThan(t) => t.inner,
            Token::MinusEquals(t) => t.inner,
            Token::NotEquals(t) => t.inner,
            Token::OrEquals(t) => t.inner,
            Token::PlusEquals(t) => t.inner,
            Token::StarEquals(t) => t.inner,
            Token::XorEquals(t) => t.inner,
            Token::And(t) => t.inner,
            Token::At(t) => t.inner,
            Token::Colon(t) => t.inner,
            Token::Comma(t) => t.inner,
            Token::CurlyLeft(t) => t.inner,
            Token::CurlyRight(t) => t.inner,
            Token::Equals(t) => t.inner,
            Token::ForwardSlash(t) => t.inner,
            Token::GreaterThan(t) => t.inner,
            Token::LessThan(t) => t.inner,
            Token::Minus(t) => t.inner,
            Token::Not(t) => t.inner,
            Token::Or(t) => t.inner,
            Token::ParLeft(t) => t.inner,
            Token::ParRight(t) => t.inner,
            Token::Plus(t) => t.inner,
            Token::SemiColon(t) => t.inner,
            Token::SquareLeft(t) => t.inner,
            Token::SquareRight(t) => t.inner,
            Token::Star(t) => t.inner,
            Token::Xor(t) => t.inner,
        }
    }

    /// Where the token stands in the source.
    #[verifier::when_used_as_spec(spec_span)]
    pub fn span(&self) -> (span: Span)
        ensures
            span == self.spec_span(),
    {
        match self {
            Token::EOF(t) => t.span,
            Token::Identifier(t) => t.span,
            Token::Number(t) => t.span,
            Token::Str(t) => t.span,
            Token::Addr(t) => t.span,
            Token::Array(t) => t.span,
            Token::Asm(t) => t.span,
            Token::Break(t) => t.span,
            Token::Const(t) => t.span,
            Token::Continue(t) => t.span,
            Token::Deref(t) => t.span,
            Token::Else(t) => t.span,
            Token::If(t) => t.span,
            Token::Let(t) => t.span,
            Token::Loop(t) => t.span,
            Token::Ptr(t) => t.span,
            Token::Static(t) => t.span,
            Token::Struct(t) => t.span,
            Token::Union(t) => t.span,
            Token::U8(t) => t.span,
            Token::While(t) => t.span,
            Token::AndEquals(t) => t.span,
            Token::ColonColon(t) => t.span,
            Token::EqualsEquals(t) => t.span,
            Token::ForwardSlashEquals(t) => t.span,
            Token::GreaterEqualsThan(t) => t.span,
            Token::LessEqualsThan(t) => t.span,
            Token::MinusEquals(t) => t.span,
            Token::NotEquals(t) => t.span,
            Token::OrEquals(t) => t.span,
            Token::PlusEquals(t) => t.span,
            Token::StarEquals(t) => t.span,
            Token::XorEquals(t) => t.span,
            Token::And(t) => t.span,
            Token::At(t) => t.span,
            Token::Colon(t) => t.span,
            Token::Comma(t) => t.span,
            Token::CurlyLeft(t) => t.span,
            Token::CurlyRight(t) => t.span,
            Token::Equals(t) => t.span,
            Token::ForwardSlash(t) => t.span,
            Token::GreaterThan(t) => t.span,
            Token::LessThan(t) => t.span,
            Token::Minus(t) => t.span,
            Token::Not(t) => t.span,
            Token::Or(t) => t.span,
            Token::ParLeft(t) => t.span,
            Token::ParRight(t) => t.span,
            Token::Plus(t) => t.span,
            Token::SemiColon(t) => t.span,
            Token::SquareLeft(t) => t.span,
            Token::SquareRight(t) => t.span,
            Token::Star(t) => t.span,
            Token::Xor(t) => t.span,
        }
    }
}

impl<'input> Spanned for EOF<'input> {
}

impl<'input> Spanned for Identifier<'input> {
}

impl<'input> Spanned for Number<'input> {
}

impl<'input> Spanned for Str<'input> {
}

impl<'input> Spanned for Addr<'input> {
}

impl<'input> Spanned for Array<'input> {
}

impl<'input> Spanned for Asm<'input> {
}

impl<'input> Spanned for Break<'input> {
}

impl<'input> Spanned for Const<'input> {
}

impl<'input> Spanned for Continue<'input> {
}

impl<'input> Spanned for Deref<'input> {
}

impl<'input> Spanned for Else<'input> {
}

impl<'input> Spanned for If<'input> {
}

impl<'input> Spanned for Let<'input> {
}

impl<'input> Spanned for Loop<'input> {
}

impl<'input> Spanned for Ptr<'input> {
}

impl<'input> Spanned for Static<'input> {
}

impl<'input> Spanned for Struct<'input> {
}

impl<'input> Spanned for Union<'input> {
}

impl<'input> Spanned for U8<'input> {
}

impl<'input> Spanned for While<'input> {
}

impl<'input> Spanned for AndEquals<'input> {
}

impl<'input> Spanned for ColonColon<'input> {
}

impl<'input> Spanned for EqualsEquals<'input> {
}

impl<'input> Spanned for ForwardSlashEquals<'input> {
}

impl<'input> Spanned for GreaterEqualsThan<'input> {
}

impl<'input> Spanned for LessEqualsThan<'input> {
}

impl<'input> Spanned for MinusEquals<'input> {
}

impl<'input> Spanned for NotEquals<'input> {
}

impl<'input> Spanned for OrEquals<'input> {
}

impl<'input> Spanned for PlusEquals<'input> {
}

impl<'input> Spanned for StarEquals<'input> {
}

impl<'input> Spanned for XorEquals<'input> {
}

impl<'input> Spanned for And<'input> {
}

impl<'input> Spanned for At<'input> {
}

impl<'input> Spanned for Colon<'input> {
}

impl<'input> Spanned for Comma<'input> {
}

impl<'input> Spanned for CurlyLeft<'input> {
}

impl<'input> Spanned for CurlyRight<'input> {
}

impl<'input> Spanned for Equals<'input> {
}

impl<'input> Spanned for ForwardSlash<'input> {
}

impl<'input> Spanned for GreaterThan<'input> {
}

impl<'input> Spanned for LessThan<'input> {
}

impl<'input> Spanned for Minus<'input> {
}

impl<'input> Spanned for Not<'input> {
}

impl<'input> Spanned for Or<'input> {
}

impl<'input> Spanned for ParLeft<'input> {
}

impl<'input> Spanned for ParRight<'input> {
}

impl<'input> Spanned for Plus<'input> {
}

impl<'input> Spanned for SemiColon<'input> {
}

impl<'input> Spanned for SquareLeft<'input> {
}

impl<'input> Spanned for SquareRight<'input> {
}

impl<'input> Spanned for Star<'input> {
}

impl<'input> Spanned for Xor<'input> {
}

impl<'input> Spanned for Token<'input> {
}

impl<'input> DeepView for EOF<'input> {
    type V = Self;

    open spec fn deep_view(&self) -> Self {
        *self
    }
}

impl<'input> DeepView for Identifier<'input> {
    type V = Self;

    open spec fn deep_view(&self) -> Self {
        *self
    }
}

impl<'input> DeepView for Number<'input> {
    type V = Self;

    open spec fn deep_view(&self) -> Self {
        *self
    }
}

impl<'input> DeepView for Str<'input> {
    type V = Self;

    open spec fn deep_view(&self) -> Self {
        *self
    }
}

impl<'input> DeepView for Addr<'input> {
    type V = Self;

    open spec fn deep_view(&self) -> Self {
        *self
    }
}

impl<'input> DeepView for Array<'input> {
    type V = Self;

    open spec fn deep_view(&self) -> Self {
        *self
    }
}

impl<'input> DeepView for Asm<'input> {
    type V = Self;

    open spec fn deep_view(&self) -> Self {
        *self
    }
}

impl<'input> DeepView for Break<'input> {
    type V = Self;

    open spec fn deep_view(&self) -> Self {
        *self
    }
}

impl<'input> DeepView for Const<'input> {
    type V = Self;

    open spec fn deep_view(&self) -> Self {
        *self
    }
}

impl<'input> DeepView for Continue<'input> {
    type V = Self;

    open spec fn deep_view(&self) -> Self {
        *self
    }
}

impl<'input> DeepView for Deref<'input> {
    type V = Self;

    open spec fn deep_view(&self) -> Self {
        *self
    }
}

impl<'input> DeepView for Else<'input> {
    type V = Self;

    open spec fn deep_view(&self) -> Self {
        *self
    }
}

impl<'input> DeepView for If<'input> {
    type V = Self;

    open spec fn deep_view(&self) -> Self {
        *self
    }
}

impl<'input> DeepView for Let<'input> {
    type V = Self;

    open spec fn deep_view(&self) -> Self {
        *self
    }
}

impl<'input> DeepView for Loop<'input> {
    type V = Self;

    open spec fn deep_view(&self) -> Self {
        *self
    }
}

impl<'input> DeepView for Ptr<'input> {
    type V = Self;

    open spec fn deep_view(&self) -> Self {
        *self
    }
}

impl<'input> DeepView for Static<'input> {
    type V = Self;

    open spec fn deep_view(&self) -> Self {
        *self
    }
}

impl<'input> DeepView for Struct<'input> {
    type V = Self;

    open spec fn deep_view(&self) -> Self {
        *self
    }
}

impl<'input> DeepView for Union<'input> {
    type V = Self;

    open spec fn deep_view(&self) -> Self {
        *self
    }
}

impl<'input> DeepView for U8<'input> {
    type V = Self;

    open spec fn deep_view(&self) -> Self {
        *self
    }
}

impl<'input> DeepView for While<'input> {
    type V = Self;

    open spec fn deep_view(&self) -> Self {
        *self
    }
}

impl<'input> DeepView for AndEquals<'input> {
    type V = Self;

    open spec fn deep_view(&self) -> Self {
        *self
    }
}

impl<'input> DeepView for ColonColon<'input> {
    type V = Self;

    open spec fn deep_view(&self) -> Self {
        *self
    }
}

impl<'input> DeepView for EqualsEquals<'input> {
    type V = Self;

    open spec fn deep_view(&self) -> Self {
        *self
    }
}

impl<'input> DeepView for ForwardSlashEquals<'input> {
    type V = Self;

    open spec fn deep_view(&self) -> Self {
        *self
    }
}

impl<'input> DeepView for GreaterEqualsThan<'input> {
    type V = Self;

    open spec fn deep_view(&self) -> Self {
        *self
    }
}

impl<'input> DeepView for LessEqualsThan<'input> {
    type V = Self;

    open spec fn deep_view(&self) -> Self {
        *self
    }
}

impl<'input> DeepView for MinusEquals<'input> {
    type V = Self;

    open spec fn deep_view(&self) -> Self {
        *self
    }
}

impl<'input> DeepView for NotEquals<'input> {
    type V = Self;

    open spec fn deep_view(&self) -> Self {
        *self
    }
}

impl<'input> DeepView for OrEquals<'input> {
    type V = Self;

    open spec fn deep_view(&self) -> Self {
        *self
    }
}

impl<'input> DeepView for PlusEquals<'input> {
    type V = Self;

    open spec fn deep_view(&self) -> Self {
        *self
    }
}

impl<'input> DeepView for StarEquals<'input> {
    type V = Self;

    open spec fn deep_view(&self) -> Self {
        *self
    }
}

impl<'input> DeepView for XorEquals<'input> {
    type V = Self;

    open spec fn deep_view(&self) -> Self {
        *self
    }
}

impl<'input> DeepView for And<'input> {
    type V = Self;

    open spec fn deep_view(&self) -> Self {
        *self
    }
}

impl<'input> DeepView for At<'input> {
    type V = Self;

    open spec fn deep_view(&self) -> Self {
        *self
    }
}

impl<'input> DeepView for Colon<'input> {
    type V = Self;

    open spec fn deep_view(&self) -> Self {
        *self
    }
}

impl<'input> DeepView for Comma<'input> {
    type V = Self;

    open spec fn deep_view(&self) -> Self {
        *self
    }
}

impl<'input> DeepView for CurlyLeft<'input> {
    type V = Self;

    open spec fn deep_view(&self) -> Self {
        *self
    }
}

impl<'input> DeepView for CurlyRight<'input> {
    type V = Self;

    open spec fn deep_view(&self) -> Self {
        *self
    }
}

impl<'input> DeepView for Equals<'input> {
    type V = Self;

    open spec fn deep_view(&self) -> Self {
        *self
    }
}

impl<'input> DeepView for ForwardSlash<'input> {
    type V = Self;

    open spec fn deep_view(&self) -> Self {
        *self
    }
}

impl<'input> DeepView for GreaterThan<'input> {
    type V = Self;

    open spec fn deep_view(&self) -> Self {
        *self
    }
}

impl<'input> DeepView for LessThan<'input> {
    type V = Self;

    open spec fn deep_view(&self) -> Self {
        *self
    }
}

impl<'input> DeepView for Minus<'input> {
    type V = Self;

    open spec fn deep_view(&self) -> Self {
        *self
    }
}

impl<'input> DeepView for Not<'input> {
    type V = Self;

    open spec fn deep_view(&self) -> Self {
        *self
    }
}

impl<'input> DeepView for Or<'input> {
    type V = Self;

    open spec fn deep_view(&self) -> Self {
        *self
    }
}

impl<'input> DeepView for ParLeft<'input> {
    type V = Self;

    open spec fn deep_view(&self) -> Self {
        *self
    }
}

impl<'input> DeepView for ParRight<'input> {
    type V = Self;

    open spec fn deep_view(&self) -> Self {
        *self
    }
}

impl<'input> DeepView for Plus<'input> {
    type V = Self;

    open spec fn deep_view(&self) -> Self {
        *self
    }
}

impl<'input> DeepView for SemiColon<'input> {
    type V = Self;

    open spec fn deep_view(&self) -> Self {
        *self
    }
}

impl<'input> DeepView for SquareLeft<'input> {
    type V = Self;

    open spec fn deep_view(&self) -> Self {
        *self
    }
}

impl<'input> DeepView for SquareRight<'input> {
    type V = Self;

    open spec fn deep_view(&self) -> Self {
        *self
    }
}

impl<'input> DeepView for Star<'input> {
    type V = Self;

    open spec fn deep_view(&self) -> Self {
        *self
    }
}

impl<'input> DeepView for Xor<'input> {
    type V = Self;

    open spec fn deep_view(&self) -> Self {
        *self
    }
}

} // verus!
