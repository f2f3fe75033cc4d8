use crate::lex;
use crate::lex::Token;
use vstd::prelude::*;
use vstd::std_specs::convert::FromSpecImpl;

verus! {

/// Parse errors.
#[derive(Debug, Clone, Copy, PartialEq, Eq, Hash)]
pub enum Error<'input> {
    /// Tokenization error.
    Lex(lex::Error),
    /// A token that the grammar does not accept where it stands. The token
    /// has been consumed.
    UnexpectedToken(Token<'input>),
    /// A node was to start where nothing but the end of the input was left,
    /// or a token was required of a stream that had already ended.
    TokenizerEmpty,
}

impl<'input> From<lex::Error> for Error<'input> {
    fn from(error: lex::Error) -> (r: Self) {
        Error::Lex(error)
    }
}

impl<'input> FromSpecImpl<lex::Error> for Error<'input> {
    open spec fn obeys_from_spec() -> bool {
        true
    }

    open spec fn from_spec(error: lex::Error) -> Self {
        Error::Lex(error)
    }
}

} // verus!
