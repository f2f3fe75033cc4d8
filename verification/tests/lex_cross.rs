//! Cross-check of the tokenizer against a second scanner, written here with
//! the iterators of the standard library, on many short sources.

use gb_lang::lex::{tokenize, Error, TokenKind};
use std::iter::Peekable;
use std::str::Chars;

struct Scanner<'a> {
    chars: Peekable<Chars<'a>>,
    ended: bool,
}

impl<'a> Scanner<'a> {
    fn new(input: &'a str) -> Self {
        Scanner { chars: input.chars().peekable(), ended: false }
    }

    fn punctuation(&mut self) -> Option<TokenKind> {
        let table: [(char, TokenKind, Option<(char, TokenKind)>); 21] = [
            ('&', TokenKind::And, Some(('=', TokenKind::AndEquals))),
            ('@', TokenKind::At, None),
            (':', TokenKind::Colon, Some((':', TokenKind::ColonColon))),
            (',', TokenKind::Comma, None),
            ('{', TokenKind::CurlyLeft, None),
            ('}', TokenKind::CurlyRight, None),
            ('=', TokenKind::Equals, Some(('=', TokenKind::EqualsEquals))),
            ('/', TokenKind::ForwardSlash, Some(('=', TokenKind::ForwardSlashEquals))),
            ('>', TokenKind::GreaterThan, Some(('=', TokenKind::GreaterEqualsThan))),
            ('<', TokenKind::LessThan, Some(('=', TokenKind::LessEqualsThan))),
            ('-', TokenKind::Minus, Some(('=', TokenKind::MinusEquals))),
            ('~', TokenKind::Not, Some(('=', TokenKind::NotEquals))),
            ('|', TokenKind::Or, Some(('=', TokenKind::OrEquals))),
            ('(', TokenKind::ParLeft, None),
            (')', TokenKind::ParRight, None),
            ('+', TokenKind::Plus, Some(('=', TokenKind::PlusEquals))),
            (';', TokenKind::SemiColon, None),
            ('[', TokenKind::SquareLeft, None),
            (']', TokenKind::SquareRight, None),
            ('*', TokenKind::Star, Some(('=', TokenKind::StarEquals))),
            ('^', TokenKind::Xor, Some(('=', TokenKind::XorEquals))),
        ];
        for (first, single, double) in table {
            if self.chars.peek() == Some(&first) {
                self.chars.next();
                if let Some((second, kind)) = double {
                    if self.chars.peek() == Some(&second) {
                        self.chars.next();
                        return Some(kind);
                    }
                }
                return Some(single);
            }
        }
        None
    }

    fn word(&mut self) -> TokenKind {
        let mut text = String::new();
        while let Some(c) = self.chars.peek().copied() {
            if c.is_alphanumeric() || c == '_' {
                self.chars.next();
                text.push(c);
            } else {
                break;
            }
        }
        match text.as_str() {
            "addr" => TokenKind::Addr,
            "array" => TokenKind::Array,
            "asm" => TokenKind::Asm,
            "break" => TokenKind::Break,
            "const" => TokenKind::Const,
            "continue" => TokenKind::Continue,
            "deref" => TokenKind::Deref,
            "else" => TokenKind::Else,
            "if" => TokenKind::If,
            "let" => TokenKind::Let,
            "loop" => TokenKind::Loop,
            "ptr" => TokenKind::Ptr,
            "static" => TokenKind::Static,
            "struct" => TokenKind::Struct,
            "union" => TokenKind::Union,
            "u8" => TokenKind::U8,
            "while" => TokenKind::While,
            _ => TokenKind::Identifier,
        }
    }

    fn token(&mut self) -> Result<TokenKind, Error> {
        while matches!(self.chars.peek(), Some(c) if c.is_whitespace()) {
            self.chars.next();
        }
        if self.chars.peek().is_none() {
            self.ended = true;
            return Ok(TokenKind::EOF);
        }
        if let Some(kind) = self.punctuation() {
            return Ok(kind);
        }
        if self.chars.peek() == Some(&'"') {
            self.chars.next();
            loop {
                match self.chars.next() {
                    Some('"') => return Ok(TokenKind::Str),
                    Some(_) => {}
                    None => return Err(Error::OpenEndedStringToken),
                }
            }
        }
        if matches!(self.chars.peek(), Some('0'..='9')) {
            while matches!(self.chars.peek(), Some('0'..='9')) {
                self.chars.next();
            }
            return Ok(TokenKind::Number);
        }
        let first = *self.chars.peek().unwrap();
        if first.is_alphanumeric() || first == '_' {
            Ok(self.word())
        } else {
            self.chars.next();
            Ok(TokenKind::Identifier)
        }
    }

    fn next(&mut self) -> Option<Result<TokenKind, Error>> {
        if self.ended {
            return None;
        }
        let item = self.token();
        if item.is_err() {
            self.ended = true;
        }
        Some(item)
    }
}

const ALPHABET: [&str; 40] = [
    " ", "\t", "\n", "\r", "\u{a0}", "&", "@", ":", ",", "{", "}", "=", "/", ">", "<", "-", "~",
    "|", "(", ")", "+", ";", "[", "]", "*", "^", "\"", "0", "7", "a", "Z", "_", "let", "u8", "if",
    "\u{e9}", "\u{2460}", "\u{663}", "#", "$",
];

fn agree(input: &str) {
    let mut tokens = tokenize(input);
    let mut scanner = Scanner::new(input);
    for step in 0..(input.chars().count() + 2) {
        let expected = scanner.next();
        if step % 3 == 0 {
            assert_eq!(tokens.peek_kind(), expected, "{:?} at item {}", input, step);
        }
        let item = tokens.next().map(|item| item.map(|token| token.kind()));
        assert_eq!(item, expected, "{:?} at item {}", input, step);
        if expected.is_none() {
            return;
        }
    }
    panic!("{:?} gives more items than it has characters", input);
}

#[test]
fn agrees_on_every_source_of_up_to_three_pieces() {
    agree("");
    for a in ALPHABET {
        agree(a);
        for b in ALPHABET {
            agree(&format!("{}{}", a, b));
            for c in ALPHABET {
                agree(&format!("{}{}{}", a, b, c));
            }
        }
    }
}

#[test]
fn agrees_on_longer_sources() {
    let mut state: u64 = 0x2545f4914f6cdd1d;
    for _ in 0..20000 {
        let mut input = String::new();
        state ^= state << 13;
        state ^= state >> 7;
        state ^= state << 17;
        let pieces = 4 + (state % 12) as usize;
        for _ in 0..pieces {
            state ^= state << 13;
            state ^= state >> 7;
            state ^= state << 17;
            input.push_str(ALPHABET[(state % ALPHABET.len() as u64) as usize]);
        }
        agree(&input);
    }
}
