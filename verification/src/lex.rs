//! The tokenizer: scans source text into a forward-only stream of tokens.
//!
//! [`tokenize`] makes a [`Tokenizer`], which hands out one item per call of
//! [`Tokenizer::next`], a token or a lexical error, and shows the next item
//! without consuming it on [`Tokenizer::peek`]. What it produces is stated
//! over [`Stream`], the mathematical model of a token stream, by the rules of
//! [`rules::scan`].

use vstd::prelude::*;

pub mod classes;
mod error;
pub mod laws;
pub mod rules;
mod stream;
pub mod tokens;

pub use error::Error;
pub use stream::Stream;
pub use tokens::{Token, TokenKind};

use classes::{digit, whitespace, word};
use rules::{
    compound, digits_end, match_compound, match_keyword, match_punctuation, punctuation, quote_at,
    scan_word, whitespace_end, word_end,
};

verus! {

/// Starts a token stream on `input`.
///
/// The stream has read nothing yet. It ends after as many items as the
/// input has characters, and one, at the most: its last item is the
/// end-of-input token, which also an empty input gives, unless an error ends
/// the stream before ([`laws::law_stream_ends`]).
pub fn tokenize(input: &str) -> (tokens: Tokenizer<'_>)
    ensures
        tokens@ == Stream::start(input),
{
    let mut chars: Vec<char> = Vec::new();
    for c in it: input.chars()
        invariant
            it.seq() == input@,
            chars@ == it.seq().take(it.index()),
    {
        chars.push(c);
    }
    assert(chars@ =~= input@);
    Tokenizer { ended: false, input, chars, pos: 0, peeked: None }
}

/// A forward-only stream of tokens over a source text, with one token of
/// lookahead.
///
/// Its state is a [`Stream`]: see [`Tokenizer::next`]. Looking ahead does not
/// change the state. The source is decoded into its characters once, when
/// the stream is made; the tokens borrow the source itself.
#[derive(Debug)]
pub struct Tokenizer<'input> {
    ended: bool,
    input: &'input str,
    chars: Vec<char>,
    pos: usize,
    /// The item that was looked ahead at, with the position behind it.
    peeked: Option<(Result<Token<'input>, Error>, usize)>,
}

impl<'input> View for Tokenizer<'input> {
    type V = Stream<'input>;

    closed spec fn view(&self) -> Stream<'input> {
        Stream { source: self.input, pos: self.pos as int, ended: self.ended }
    }
}

impl<'input> Tokenizer<'input> {
    /// The characters held are those of the source, the position is within
    /// them, and a lookahead holds the next item of the stream.
    #[verifier::type_invariant]
    spec fn well_formed(self) -> bool {
        &&& self.chars@ == self.input@
        &&& self.pos <= self.chars.len()
        &&& self.peeked matches Some((item, end)) ==> {
            &&& Some(item) == self@.token()
            &&& end == self@.tail().pos
            &&& end <= self.chars.len()
        }
    }

    /// The token of kind `kind` of this source.
    fn token(&self, kind: TokenKind) -> (token: Token<'input>)
        ensures
            token == Token::of(kind, self@.source),
    {
        Token::new(kind, self.input)
    }

    /// Moves behind the whitespace at the current position.
    fn skip_whitespace(&mut self)
        requires
            old(self).peeked is None,
        ensures
            final(self).peeked is None,
            final(self)@ == (Stream {
                pos: whitespace_end(old(self)@.source@, old(self)@.pos),
                ..old(self)@
            }),
            final(self)@.pos <= final(self)@.source@.len(),
    {
        proof {
            use_type_invariant(&*self);
        }
        while self.pos < self.chars.len() && whitespace(self.chars[self.pos])
            invariant
                self.peeked is None,
                self.chars@ == self.input@,
                self.pos <= self.chars.len(),
                self.input == old(self).input,
                self.ended == old(self).ended,
                whitespace_end(self.input@, self.pos as int) == whitespace_end(
                    old(self).input@,
                    old(self).pos as int,
                ),
            decreases self.chars.len() - self.pos,
        {
            self.pos = self.pos + 1;
        }
    }

    /// At the end of the source: ends the stream and gives the end-of-input
    /// token.
    fn next_token_eof(&mut self) -> (r: Option<Result<Token<'input>, Error>>)
        requires
            old(self).peeked is None,
        ensures
            final(self).peeked is None,
            old(self)@.pos <= old(self)@.source@.len(),
            old(self)@.pos == old(self)@.source@.len() ==> r == Some(
                Ok::<Token<'input>, Error>(Token::of(TokenKind::EOF, old(self)@.source)),
            ) && final(self)@ == (Stream { ended: true, ..old(self)@ }),
            old(self)@.pos < old(self)@.source@.len() ==> r is None && final(self)@ == old(self)@,
    {
        proof {
            use_type_invariant(&*self);
        }
        if self.pos >= self.chars.len() {
            self.ended = true;
            Some(Ok(self.token(TokenKind::EOF)))
        } else {
            None
        }
    }

    /// At punctuation: consumes it, two characters where they spell a token
    /// together, else one. Gives `None` and consumes nothing at any other
    /// character and at the end of the source.
    fn next_token_non_alphanum(&mut self) -> (r: Option<Result<Token<'input>, Error>>)
        requires
            old(self).peeked is None,
        ensures
            final(self).peeked is None,
            final(self)@.source == old(self)@.source,
            final(self)@.ended == old(self)@.ended,
            ({
                let chars = old(self)@.source@;
                let at = old(self)@.pos;
                if at >= chars.len() {
                    &&& r is None
                    &&& final(self)@.pos == at
                } else if at + 1 < chars.len() && compound(chars[at], chars[at + 1]) is Some {
                    &&& r == Some(
                        Ok::<Token<'input>, Error>(
                            Token::of(compound(chars[at], chars[at + 1])->0, old(self)@.source),
                        ),
                    )
                    &&& final(self)@.pos == at + 2
                } else if punctuation(chars[at]) is Some {
                    &&& r == Some(
                        Ok::<Token<'input>, Error>(
                            Token::of(punctuation(chars[at])->0, old(self)@.source),
                        ),
                    )
                    &&& final(self)@.pos == at + 1
                } else {
                    &&& r is None
                    &&& final(self)@.pos == at
                }
            }),
    {
        proof {
            use_type_invariant(&*self);
        }
        if self.pos >= self.chars.len() {
            return None;
        }
        let first = self.chars[self.pos];
        if self.pos + 1 < self.chars.len() {
            if let Some(kind) = match_compound(first, self.chars[self.pos + 1]) {
                self.pos = self.pos + 2;
                return Some(Ok(self.token(kind)));
            }
        }
        if let Some(kind) = match_punctuation(first) {
            self.pos = self.pos + 1;
            return Some(Ok(self.token(kind)));
        }
        None
    }

    /// At a double quote: consumes a string literal up to the closing quote,
    /// or the rest of the source where there is none. Gives `None` and
    /// consumes nothing at any other character and at the end of the source.
    fn next_token_string(&mut self) -> (r: Option<Result<Token<'input>, Error>>)
        requires
            old(self).peeked is None,
        ensures
            final(self).peeked is None,
            final(self)@.source == old(self)@.source,
            final(self)@.ended == old(self)@.ended,
            ({
                let chars = old(self)@.source@;
                let at = old(self)@.pos;
                let close = quote_at(chars, at + 1);
                if at >= chars.len() || chars[at] != '"' {
                    &&& r is None
                    &&& final(self)@.pos == at
                } else if close < chars.len() {
                    &&& r == Some(
                        Ok::<Token<'input>, Error>(Token::of(TokenKind::Str, old(self)@.source)),
                    )
                    &&& final(self)@.pos == close + 1
                } else {
                    &&& r == Some(Err::<Token<'input>, Error>(Error::OpenEndedStringToken))
                    &&& final(self)@.pos == close
                }
            }),
    {
        proof {
            use_type_invariant(&*self);
        }
        if self.pos >= self.chars.len() || self.chars[self.pos] != '"' {
            return None;
        }
        self.pos = self.pos + 1;
        while self.pos < self.chars.len() && self.chars[self.pos] != '"'
            invariant
                self.peeked is None,
                self.chars@ == self.input@,
                self.pos <= self.chars.len(),
                self.input == old(self).input,
                self.ended == old(self).ended,
                quote_at(self.input@, self.pos as int) == quote_at(
                    old(self).input@,
                    old(self).pos + 1,
                ),
            decreases self.chars.len() - self.pos,
        {
            self.pos = self.pos + 1;
        }
        if self.pos < self.chars.len() {
            self.pos = self.pos + 1;
            Some(Ok(self.token(TokenKind::Str)))
        } else {
            Some(Err(Error::OpenEndedStringToken))
        }
    }

    /// Consumes the run of decimal digits at the current position, as a
    /// number literal.
    fn next_token_num(&mut self) -> (r: Result<Token<'input>, Error>)
        requires
            old(self).peeked is None,
        ensures
            final(self).peeked is None,
            final(self)@ == (Stream {
                pos: digits_end(old(self)@.source@, old(self)@.pos),
                ..old(self)@
            }),
            r == Ok::<Token<'input>, Error>(Token::of(TokenKind::Number, old(self)@.source)),
    {
        proof {
            use_type_invariant(&*self);
        }
        while self.pos < self.chars.len() && digit(self.chars[self.pos])
            invariant
                self.peeked is None,
                self.chars@ == self.input@,
                self.pos <= self.chars.len(),
                self.input == old(self).input,
                self.ended == old(self).ended,
                digits_end(self.input@, self.pos as int) == digits_end(
                    old(self).input@,
                    old(self).pos as int,
                ),
            decreases self.chars.len() - self.pos,
        {
            self.pos = self.pos + 1;
        }
        Ok(self.token(TokenKind::Number))
    }

    /// Consumes the run of letters, numbers and underscores at the current
    /// position, as the keyword it spells or as an identifier. Where the run
    /// is empty, consumes the one character there is, as an identifier.
    fn next_token_alpha(&mut self) -> (r: Result<Token<'input>, Error>)
        requires
            old(self).peeked is None,
        ensures
            final(self).peeked is None,
            final(self)@ == (Stream {
                pos: scan_word(old(self)@.source@, old(self)@.pos).1,
                ..old(self)@
            }),
            r == Ok::<Token<'input>, Error>(
                Token::of(scan_word(old(self)@.source@, old(self)@.pos).0, old(self)@.source),
            ),
    {
        proof {
            use_type_invariant(&*self);
        }
        let from = self.pos;
        while self.pos < self.chars.len() && word(self.chars[self.pos])
            invariant
                self.peeked is None,
                self.chars@ == self.input@,
                from <= self.pos <= self.chars.len(),
                self.input == old(self).input,
                self.ended == old(self).ended,
                word_end(self.input@, self.pos as int) == word_end(
                    old(self).input@,
                    old(self).pos as int,
                ),
            decreases self.chars.len() - self.pos,
        {
            self.pos = self.pos + 1;
        }
        if self.pos == from {
            if self.pos < self.chars.len() {
                self.pos = self.pos + 1;
            }
            return Ok(self.token(TokenKind::Identifier));
        }
        match match_keyword(&self.chars, from, self.pos) {
            Some(kind) => Ok(self.token(kind)),
            None => Ok(self.token(TokenKind::Identifier)),
        }
    }

    /// Consumes a number literal where the current character is a decimal
    /// digit, else a keyword or an identifier.
    fn next_token_alphanum(&mut self) -> (r: Result<Token<'input>, Error>)
        requires
            old(self).peeked is None,
            old(self)@.pos < old(self)@.source@.len(),
        ensures
            final(self).peeked is None,
            final(self)@.source == old(self)@.source,
            final(self)@.ended == old(self)@.ended,
            ({
                let chars = old(self)@.source@;
                let at = old(self)@.pos;
                if digit(chars[at]) {
                    &&& r == Ok::<Token<'input>, Error>(
                        Token::of(TokenKind::Number, old(self)@.source),
                    )
                    &&& final(self)@.pos == digits_end(chars, at)
                } else {
                    &&& r == Ok::<Token<'input>, Error>(
                        Token::of(scan_word(chars, at).0, old(self)@.source),
                    )
                    &&& final(self)@.pos == scan_word(chars, at).1
                }
            }),
    {
        proof {
            use_type_invariant(&*self);
        }
        if digit(self.chars[self.pos]) {
            self.next_token_num()
        } else {
            self.next_token_alpha()
        }
    }

    /// Scans the next token of a stream that has not ended.
    fn next_token(&mut self) -> (r: Result<Token<'input>, Error>)
        requires
            old(self).peeked is None,
            !old(self)@.ended,
        ensures
            final(self).peeked is None,
            Some(r) == old(self)@.token(),
            final(self)@.source == old(self)@.source,
            final(self)@.pos == old(self)@.tail().pos,
            final(self)@.ended == (old(self)@.head() == Some(
                Ok::<TokenKind, Error>(TokenKind::EOF),
            )),
    {
        self.skip_whitespace();
        if let Some(r) = self.next_token_eof() {
            return r;
        }
        if let Some(r) = self.next_token_non_alphanum() {
            return r;
        }
        if let Some(r) = self.next_token_string() {
            return r;
        }
        self.next_token_alphanum()
    }

    /// The next item, without taking it off the stream.
    pub fn peek(&mut self) -> (item: Option<Result<Token<'input>, Error>>)
        ensures
            item == old(self)@.token(),
            final(self)@ == old(self)@,
    {
        proof {
            use_type_invariant(&*self);
        }
        if self.ended {
            return None;
        }
        if let Some((item, _)) = self.peeked {
            return Some(item);
        }
        let from = self.pos;
        let item = self.next_token();
        let end = self.pos;
        proof {
            use_type_invariant(&*self);
            laws::lemma_scan_advances(self.input@, from as int);
        }
        self.pos = from;
        self.ended = false;
        self.peeked = Some((item, end));
        Some(item)
    }

    /// Whether the stream has produced its last item.
    pub fn is_ended(&self) -> (ended: bool)
        ensures
            ended == self@.ended,
    {
        self.ended
    }

    /// The number of characters of the source that have not been consumed.
    pub fn left(&self) -> (left: usize)
        ensures
            0 <= self@.pos <= self@.source@.len(),
            left == self@.source@.len() - self@.pos,
    {
        proof {
            use_type_invariant(self);
        }
        self.chars.len() - self.pos
    }

    /// The kind of the next item, or the lexical error in its place, without
    /// taking the item off the stream.
    pub fn peek_kind(&mut self) -> (kind: Option<Result<TokenKind, Error>>)
        ensures
            kind == old(self)@.head(),
            final(self)@ == old(self)@,
    {
        match self.peek() {
            None => None,
            Some(Err(e)) => Some(Err(e)),
            Some(Ok(token)) => Some(Ok(token.kind())),
        }
    }

    /// Takes the next item off the stream.
    ///
    /// Gives `None` once the stream has ended, which it does with the
    /// end-of-input token and with every error: no item follows either.
    pub fn next(&mut self) -> (item: Option<Result<Token<'input>, Error>>)
        ensures
            item == old(self)@.token(),
            final(self)@ == old(self)@.tail(),
            old(self)@.ended ==> item is None && final(self)@ == old(self)@,
            final(self)@.ended <==> (match item {
                None => true,
                Some(Err(_)) => true,
                Some(Ok(token)) => token.kind() == TokenKind::EOF,
            }),
            item is Some ==> final(self)@.measure() < old(self)@.measure(),
    {
        proof {
            laws::lemma_tail_measure(self@);
        }
        proof {
            use_type_invariant(&*self);
        }
        if self.ended {
            return None;
        }
        if let Some((item, end)) = self.peeked {
            self.peeked = None;
            self.pos = end;
            self.ended = match item {
                Ok(Token::EOF(_)) => true,
                Ok(_) => false,
                Err(_) => true,
            };
            return Some(item);
        }
        let next = self.next_token();
        if next.is_err() {
            proof {
                use_type_invariant(&*self);
            }
            self.ended = true;
        }
        Some(next)
    }
}

} // verus!
