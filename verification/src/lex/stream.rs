//! The mathematical model of a token stream.

use super::laws::lemma_tail_measure;
use super::rules::{is_final, scan};
use super::tokens::{Token, TokenKind};
use super::Error;
use vstd::prelude::*;

verus! {

/// The state of a token stream: the source text, the position up to which it
/// has been read, and whether the stream has produced its last item.
///
/// A stream is forward-only. Its items are a function of the state:
/// [`Stream::head`] is the next item and [`Stream::tail`] the state behind
/// it.
pub struct Stream<'input> {
    /// The source text.
    pub source: &'input str,
    /// The number of characters of the source that have been consumed.
    pub pos: int,
    /// Whether the end-of-input token or an error has been produced.
    pub ended: bool,
}

impl<'input> Stream<'input> {
    /// The state of a stream that has read nothing of `source`.
    pub open spec fn start(source: &'input str) -> Stream<'input> {
        Stream { source, pos: 0, ended: false }
    }

    /// The kind of the next item, or the lexical error in its place; `None`
    /// once the stream has ended.
    pub open spec fn head(self) -> Option<Result<TokenKind, Error>> {
        if self.ended {
            None
        } else {
            Some(scan(self.source@, self.pos).0)
        }
    }

    /// The next item: the token of kind [`Stream::head`], read from the
    /// source of the stream.
    pub open spec fn token(self) -> Option<Result<Token<'input>, Error>> {
        match self.head() {
            None => None,
            Some(Err(e)) => Some(Err(e)),
            Some(Ok(kind)) => Some(Ok(Token::of(kind, self.source))),
        }
    }

    /// The state behind the next item. The stream ends with the end-of-input
    /// token and with every error; an ended stream stays as it is.
    pub open spec fn tail(self) -> Stream<'input> {
        if self.ended {
            self
        } else {
            Stream {
                source: self.source,
                pos: scan(self.source@, self.pos).1,
                ended: is_final(scan(self.source@, self.pos).0),
            }
        }
    }

    /// A bound on what is left of the stream: zero once it has ended, else
    /// one more than the number of characters that are left.
    pub open spec fn measure(self) -> nat {
        if self.ended {
            0
        } else if self.pos <= self.source@.len() {
            (self.source@.len() - self.pos + 1) as nat
        } else {
            1
        }
    }

    /// The items that the stream produces from this state on, up to the one
    /// with which it ends.
    pub open spec fn items(self) -> Seq<Result<TokenKind, Error>>
        decreases self.measure(),
    {
        if self.ended {
            Seq::empty()
        } else {
            proof {
                lemma_tail_measure(self);
            }
            seq![scan(self.source@, self.pos).0] + self.tail().items()
        }
    }

    /// Whether the stream, read from this state until it ends, produces
    /// exactly `items`.
    pub open spec fn yields(self, items: Seq<Result<TokenKind, Error>>) -> bool
        decreases items.len(),
    {
        if items.len() == 0 {
            self.ended
        } else {
            self.head() == Some(items[0]) && self.tail().yields(items.skip(1))
        }
    }
}

} // verus!
