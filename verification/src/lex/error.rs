use vstd::prelude::*;

verus! {

/// Tokenization errors.
#[derive(Debug, Clone, Copy, PartialEq, Eq, Hash)]
pub enum Error {
    /// The source ends inside a string literal: an opening quote without a
    /// closing one.
    OpenEndedStringToken,
    /// Invalid number format. Reserved: no scanning rule raises it.
    InvalidNumberToken,
}

} // verus!
