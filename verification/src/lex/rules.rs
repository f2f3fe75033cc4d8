//! The scanning rules, as functions on the characters of the source.
//!
//! [`scan`] says which token starts at a position and where it ends. The
//! tokenizer computes exactly this; the laws about token streams are proved
//! of it.

use super::classes::{digit, whitespace, word};
use super::tokens::TokenKind;
use super::Error;
use vstd::prelude::*;

verus! {

/// The end of the run of whitespace that starts at `from`: the first position
/// at or after `from` that holds no whitespace, or the length of `chars`.
pub open spec fn whitespace_end(chars: Seq<char>, from: int) -> int
    decreases chars.len() - from,
{
    if 0 <= from < chars.len() && whitespace(chars[from]) {
        whitespace_end(chars, from + 1)
    } else {
        from
    }
}

/// The end of the run of decimal digits that starts at `from`.
pub open spec fn digits_end(chars: Seq<char>, from: int) -> int
    decreases chars.len() - from,
{
    if 0 <= from < chars.len() && digit(chars[from]) {
        digits_end(chars, from + 1)
    } else {
        from
    }
}

/// The end of the run of letters, numbers and underscores that starts at
/// `from`.
pub open spec fn word_end(chars: Seq<char>, from: int) -> int
    decreases chars.len() - from,
{
    if 0 <= from < chars.len() && word(chars[from]) {
        word_end(chars, from + 1)
    } else {
        from
    }
}

/// The position of the first double quote at or after `from`, or the length
/// of `chars` where there is none.
pub open spec fn quote_at(chars: Seq<char>, from: int) -> int
    decreases chars.len() - from,
{
    if 0 <= from < chars.len() && chars[from] != '"' {
        quote_at(chars, from + 1)
    } else {
        from
    }
}

/// The punctuation token that the single character `c` spells, if any.
pub open spec fn punctuation(c: char) -> Option<TokenKind> {
    match c {
        '&' => Some(TokenKind::And),
        '@' => Some(TokenKind::At),
        ':' => Some(TokenKind::Colon),
        ',' => Some(TokenKind::Comma),
        '{' => Some(TokenKind::CurlyLeft),
        '}' => Some(TokenKind::CurlyRight),
        '=' => Some(TokenKind::Equals),
        '/' => Some(TokenKind::ForwardSlash),
        '>' => Some(TokenKind::GreaterThan),
        '<' => Some(TokenKind::LessThan),
        '-' => Some(TokenKind::Minus),
        '~' => Some(TokenKind::Not),
        '|' => Some(TokenKind::Or),
        '(' => Some(TokenKind::ParLeft),
        ')' => Some(TokenKind::ParRight),
        '+' => Some(TokenKind::Plus),
        ';' => Some(TokenKind::SemiColon),
        '[' => Some(TokenKind::SquareLeft),
        ']' => Some(TokenKind::SquareRight),
        '*' => Some(TokenKind::Star),
        '^' => Some(TokenKind::Xor),
        _ => None,
    }
}

/// The punctuation token that the two characters `first`, `second` spell
/// together, if any.
pub open spec fn compound(first: char, second: char) -> Option<TokenKind> {
    match (first, second) {
        ('&', '=') => Some(TokenKind::AndEquals),
        (':', ':') => Some(TokenKind::ColonColon),
        ('=', '=') => Some(TokenKind::EqualsEquals),
        ('/', '=') => Some(TokenKind::ForwardSlashEquals),
        ('>', '=') => Some(TokenKind::GreaterEqualsThan),
        ('<', '=') => Some(TokenKind::LessEqualsThan),
        ('-', '=') => Some(TokenKind::MinusEquals),
        ('~', '=') => Some(TokenKind::NotEquals),
        ('|', '=') => Some(TokenKind::OrEquals),
        ('+', '=') => Some(TokenKind::PlusEquals),
        ('*', '=') => Some(TokenKind::StarEquals),
        ('^', '=') => Some(TokenKind::XorEquals),
        _ => None,
    }
}

/// The keyword that `word` spells, if any.
pub open spec fn keyword(word: Seq<char>) -> Option<TokenKind> {
    if word == "addr"@ {
        Some(TokenKind::Addr)
    } else if word == "array"@ {
        Some(TokenKind::Array)
    } else if word == "asm"@ {
        Some(TokenKind::Asm)
    } else if word == "break"@ {
        Some(TokenKind::Break)
    } else if word == "const"@ {
        Some(TokenKind::Const)
    } else if word == "continue"@ {
        Some(TokenKind::Continue)
    } else if word == "deref"@ {
        Some(TokenKind::Deref)
    } else if word == "else"@ {
        Some(TokenKind::Else)
    } else if word == "if"@ {
        Some(TokenKind::If)
    } else if word == "let"@ {
        Some(TokenKind::Let)
    } else if word == "loop"@ {
        Some(TokenKind::Loop)
    } else if word == "ptr"@ {
        Some(TokenKind::Ptr)
    } else if word == "static"@ {
        Some(TokenKind::Static)
    } else if word == "struct"@ {
        Some(TokenKind::Struct)
    } else if word == "union"@ {
        Some(TokenKind::Union)
    } else if word == "u8"@ {
        Some(TokenKind::U8)
    } else if word == "while"@ {
        Some(TokenKind::While)
    } else {
        None
    }
}

/// The keyword or identifier that starts at `at`, and the position behind it:
/// the run of letters, numbers and underscores, as the keyword it spells or
/// as an identifier. Where the run is empty, the one character at `at` is an
/// identifier; at the end of the source the identifier is empty.
pub open spec fn scan_word(chars: Seq<char>, at: int) -> (TokenKind, int) {
    let end = word_end(chars, at);
    if end > at {
        match keyword(chars.subrange(at, end)) {
            Some(kind) => (kind, end),
            None => (TokenKind::Identifier, end),
        }
    } else if 0 <= at < chars.len() {
        (TokenKind::Identifier, at + 1)
    } else {
        (TokenKind::Identifier, at)
    }
}

/// The token that starts at or after `from`, and the position behind it.
///
/// Whitespace is skipped first. Then, in this order:
/// - at the end of the source: the end-of-input token;
/// - punctuation, the two-character form before the one-character form;
/// - after a double quote: a string literal up to the next double quote, or
///   the error [`Error::OpenEndedStringToken`] with the rest of the source
///   consumed where there is none;
/// - at a decimal digit: the run of decimal digits, as a number literal;
/// - else the run of letters, numbers and underscores, as the keyword it
///   spells or as an identifier; where the run is empty, because the
///   character fits no rule, that one character is an identifier.
///
/// So every token but the end-of-input token consumes a character at least
/// ([`super::laws::lemma_scan_advances`]).
pub open spec fn scan(chars: Seq<char>, from: int) -> (Result<TokenKind, Error>, int) {
    let at = whitespace_end(chars, from);
    if !(0 <= at < chars.len()) {
        (Ok(TokenKind::EOF), at)
    } else if at + 1 < chars.len() && compound(chars[at], chars[at + 1]) is Some {
        (Ok(compound(chars[at], chars[at + 1])->0), at + 2)
    } else if punctuation(chars[at]) is Some {
        (Ok(punctuation(chars[at])->0), at + 1)
    } else if chars[at] == '"' {
        let close = quote_at(chars, at + 1);
        if close < chars.len() {
            (Ok(TokenKind::Str), close + 1)
        } else {
            (Err(Error::OpenEndedStringToken), close)
        }
    } else if digit(chars[at]) {
        (Ok(TokenKind::Number), digits_end(chars, at))
    } else {
        (Ok(scan_word(chars, at).0), scan_word(chars, at).1)
    }
}

/// Whether `item` ends a stream: the end-of-input token and every error do.
pub open spec fn is_final(item: Result<TokenKind, Error>) -> bool {
    item is Err || item == Ok::<TokenKind, Error>(TokenKind::EOF)
}

/// Looks `c` up in the table of one-character punctuation.
pub(crate) fn match_punctuation(c: char) -> (kind: Option<TokenKind>)
    ensures
        kind == punctuation(c),
{
    match c {
        '&' => Some(TokenKind::And),
        '@' => Some(TokenKind::At),
        ':' => Some(TokenKind::Colon),
        ',' => Some(TokenKind::Comma),
        '{' => Some(TokenKind::CurlyLeft),
        '}' => Some(TokenKind::CurlyRight),
        '=' => Some(TokenKind::Equals),
        '/' => Some(TokenKind::ForwardSlash),
        '>' => Some(TokenKind::GreaterThan),
        '<' => Some(TokenKind::LessThan),
        '-' => Some(TokenKind::Minus),
        '~' => Some(TokenKind::Not),
        '|' => Some(TokenKind::Or),
        '(' => Some(TokenKind::ParLeft),
        ')' => Some(TokenKind::ParRight),
        '+' => Some(TokenKind::Plus),
        ';' => Some(TokenKind::SemiColon),
        '[' => Some(TokenKind::SquareLeft),
        ']' => Some(TokenKind::SquareRight),
        '*' => Some(TokenKind::Star),
        '^' => Some(TokenKind::Xor),
        _ => None,
    }
}

/// Looks the pair `first`, `second` up in the table of two-character
/// punctuation.
pub(crate) fn match_compound(first: char, second: char) -> (kind: Option<TokenKind>)
    ensures
        kind == compound(first, second),
{
    match (first, second) {
        ('&', '=') => Some(TokenKind::AndEquals),
        (':', ':') => Some(TokenKind::ColonColon),
        ('=', '=') => Some(TokenKind::EqualsEquals),
        ('/', '=') => Some(TokenKind::ForwardSlashEquals),
        ('>', '=') => Some(TokenKind::GreaterEqualsThan),
        ('<', '=') => Some(TokenKind::LessEqualsThan),
        ('-', '=') => Some(TokenKind::MinusEquals),
        ('~', '=') => Some(TokenKind::NotEquals),
        ('|', '=') => Some(TokenKind::OrEquals),
        ('+', '=') => Some(TokenKind::PlusEquals),
        ('*', '=') => Some(TokenKind::StarEquals),
        ('^', '=') => Some(TokenKind::XorEquals),
        _ => None,
    }
}

/// Whether the characters of `chars` from `from` up to `to` spell `word`.
pub(crate) fn spells(chars: &Vec<char>, from: usize, to: usize, word: &str) -> (b: bool)
    requires
        from <= to <= chars.len(),
    ensures
        b == (chars@.subrange(from as int, to as int) == word@),
{
    let len = word.unicode_len();
    if to - from != len {
        return false;
    }
    let mut i: usize = 0;
    while i < len
        invariant
            from <= to <= chars.len(),
            to - from == len,
            len == word@.len(),
            i <= len,
            forall|j: int| 0 <= j < i ==> chars@[from + j] == word@[j],
        decreases len - i,
    {
        if chars[from + i] != word.get_char(i) {
            assert(chars@.subrange(from as int, to as int)[i as int] != word@[i as int]);
            return false;
        }
        i = i + 1;
    }
    assert(chars@.subrange(from as int, to as int) =~= word@);
    true
}

/// Looks the characters of `chars` from `from` up to `to` up in the table of
/// keywords.
pub(crate) fn match_keyword(chars: &Vec<char>, from: usize, to: usize) -> (kind: Option<TokenKind>)
    requires
        from <= to <= chars.len(),
    ensures
        kind == keyword(chars@.subrange(from as int, to as int)),
{
    if spells(chars, from, to, "addr") {
        Some(TokenKind::Addr)
    } else if spells(chars, from, to, "array") {
        Some(TokenKind::Array)
    } else if spells(chars, from, to, "asm") {
        Some(TokenKind::Asm)
    } else if spells(chars, from, to, "break") {
        Some(TokenKind::Break)
    } else if spells(chars, from, to, "const") {
        Some(TokenKind::Const)
    } else if spells(chars, from, to, "continue") {
        Some(TokenKind::Continue)
    } else if spells(chars, from, to, "deref") {
        Some(TokenKind::Deref)
    } else if spells(chars, from, to, "else") {
        Some(TokenKind::Else)
    } else if spells(chars, from, to, "if") {
        Some(TokenKind::If)
    } else if spells(chars, from, to, "let") {
        Some(TokenKind::Let)
    } else if spells(chars, from, to, "loop") {
        Some(TokenKind::Loop)
    } else if spells(chars, from, to, "ptr") {
        Some(TokenKind::Ptr)
    } else if spells(chars, from, to, "static") {
        Some(TokenKind::Static)
    } else if spells(chars, from, to, "struct") {
        Some(TokenKind::Struct)
    } else if spells(chars, from, to, "union") {
        Some(TokenKind::Union)
    } else if spells(chars, from, to, "u8") {
        Some(TokenKind::U8)
    } else if spells(chars, from, to, "while") {
        Some(TokenKind::While)
    } else {
        None
    }
}

} // verus!
