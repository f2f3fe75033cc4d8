//! Laws of token streams, proved of the scanning rules.

use super::classes::{digit, whitespace, word};
use super::rules::{
    compound, digits_end, is_final, keyword, punctuation, quote_at, scan, whitespace_end, word_end,
};
use super::stream::Stream;
use super::tokens::TokenKind;
use super::Error;
use vstd::prelude::*;

verus! {

/// A run of whitespace ends at or behind its start, within the source, on a
/// character that is no whitespace; all before it is whitespace.
pub proof fn lemma_whitespace_end(chars: Seq<char>, from: int)
    ensures
        from <= whitespace_end(chars, from),
        0 <= from <= chars.len() ==> whitespace_end(chars, from) <= chars.len(),
        0 <= whitespace_end(chars, from) < chars.len() ==> !whitespace(
            chars[whitespace_end(chars, from)],
        ),
        forall|i: int| from <= i < whitespace_end(chars, from) ==> whitespace(#[trigger] chars[i]),
    decreases chars.len() - from,
{
    if 0 <= from < chars.len() && whitespace(chars[from]) {
        lemma_whitespace_end(chars, from + 1);
    }
}

/// A run of decimal digits ends at or behind its start, within the source, on
/// a character that is no digit; all before it are digits.
pub proof fn lemma_digits_end(chars: Seq<char>, from: int)
    ensures
        from <= digits_end(chars, from),
        0 <= from <= chars.len() ==> digits_end(chars, from) <= chars.len(),
        0 <= digits_end(chars, from) < chars.len() ==> !digit(chars[digits_end(chars, from)]),
        forall|i: int| from <= i < digits_end(chars, from) ==> digit(#[trigger] chars[i]),
    decreases chars.len() - from,
{
    if 0 <= from < chars.len() && digit(chars[from]) {
        lemma_digits_end(chars, from + 1);
    }
}

/// A run of word characters ends at or behind its start, within the source,
/// on a character that is no word character; all before it are word
/// characters.
pub proof fn lemma_word_end(chars: Seq<char>, from: int)
    ensures
        from <= word_end(chars, from),
        0 <= from <= chars.len() ==> word_end(chars, from) <= chars.len(),
        0 <= word_end(chars, from) < chars.len() ==> !word(chars[word_end(chars, from)]),
        forall|i: int| from <= i < word_end(chars, from) ==> word(#[trigger] chars[i]),
    decreases chars.len() - from,
{
    if 0 <= from < chars.len() && word(chars[from]) {
        lemma_word_end(chars, from + 1);
    }
}

/// The search for a double quote ends at or behind its start, within the
/// source, on a double quote; there is none before it.
pub proof fn lemma_quote_at(chars: Seq<char>, from: int)
    ensures
        from <= quote_at(chars, from),
        0 <= from <= chars.len() ==> quote_at(chars, from) <= chars.len(),
        0 <= quote_at(chars, from) < chars.len() ==> chars[quote_at(chars, from)] == '"',
        forall|i: int| from <= i < quote_at(chars, from) ==> #[trigger] chars[i] != '"',
    decreases chars.len() - from,
{
    if 0 <= from < chars.len() && chars[from] != '"' {
        lemma_quote_at(chars, from + 1);
    }
}

/// A token ends at or behind the position it was scanned from, and within
/// the source. Every token but the end-of-input token consumes at least one
/// character, and so does the error.
pub proof fn lemma_scan_advances(chars: Seq<char>, from: int)
    ensures
        from <= scan(chars, from).1,
        0 <= from <= chars.len() ==> scan(chars, from).1 <= chars.len(),
        scan(chars, from).0 != Ok::<TokenKind, Error>(TokenKind::EOF) ==> 0 <= from < chars.len(),
        scan(chars, from).0 != Ok::<TokenKind, Error>(TokenKind::EOF) ==> from < scan(
            chars,
            from,
        ).1,
{
    lemma_whitespace_end(chars, from);
    let at = whitespace_end(chars, from);
    if 0 <= at < chars.len() {
        lemma_quote_at(chars, at + 1);
        lemma_digits_end(chars, at + 1);
        lemma_word_end(chars, at);
    }
}

/// Every item moves the stream forwards: the measure of a stream that has
/// not ended falls with each item, by the characters that a token consumes
/// and by the end of the stream itself.
pub proof fn lemma_tail_measure(s: Stream)
    ensures
        s.tail().measure() <= s.measure(),
        s.tail().source == s.source,
        !s.ended ==> s.tail().measure() < s.measure(),
{
    lemma_scan_advances(s.source@, s.pos);
}

/// What marks the end of a run of whitespace is its end.
pub proof fn lemma_whitespace_run(chars: Seq<char>, from: int, to: int)
    requires
        0 <= from <= to <= chars.len(),
        forall|i: int| from <= i < to ==> whitespace(#[trigger] chars[i]),
        to == chars.len() || !whitespace(chars[to]),
    ensures
        whitespace_end(chars, from) == to,
    decreases to - from,
{
    if from < to {
        lemma_whitespace_run(chars, from + 1, to);
    }
}

/// What marks the end of a run of decimal digits is its end.
pub proof fn lemma_digits_run(chars: Seq<char>, from: int, to: int)
    requires
        0 <= from <= to <= chars.len(),
        forall|i: int| from <= i < to ==> digit(#[trigger] chars[i]),
        to == chars.len() || !digit(chars[to]),
    ensures
        digits_end(chars, from) == to,
    decreases to - from,
{
    if from < to {
        lemma_digits_run(chars, from + 1, to);
    }
}

/// What marks the end of a run of word characters is its end.
pub proof fn lemma_word_run(chars: Seq<char>, from: int, to: int)
    requires
        0 <= from <= to <= chars.len(),
        forall|i: int| from <= i < to ==> word(#[trigger] chars[i]),
        to == chars.len() || !word(chars[to]),
    ensures
        word_end(chars, from) == to,
    decreases to - from,
{
    if from < to {
        lemma_word_run(chars, from + 1, to);
    }
}

/// The first double quote at or after a position is where the search for it
/// ends.
pub proof fn lemma_quote_run(chars: Seq<char>, from: int, to: int)
    requires
        0 <= from <= to <= chars.len(),
        forall|i: int| from <= i < to ==> #[trigger] chars[i] != '"',
        to == chars.len() || chars[to] == '"',
    ensures
        quote_at(chars, from) == to,
    decreases to - from,
{
    if from < to {
        lemma_quote_run(chars, from + 1, to);
    }
}

/// A stream that has ended is silent: it has no next item, and asking for
/// one leaves it as it is.
pub proof fn law_ended_stream_is_silent(s: Stream)
    requires
        s.ended,
    ensures
        s.head() is None,
        s.token() is None,
        s.tail() == s,
{
}

/// A stream ends with the item it produces exactly if that item is the
/// end-of-input token or an error.
pub proof fn law_stream_ends_with_final_item(s: Stream)
    requires
        !s.ended,
    ensures
        s.head() is Some,
        s.tail().ended <==> is_final(s.head()->0),
{
}

/// Stream termination: of the items that a stream produces until it ends,
/// the last one is the end-of-input token or an error, and no other is. So
/// no item is ever produced after the end-of-input token or an error.
pub proof fn law_nothing_follows_final_item(s: Stream, items: Seq<Result<TokenKind, Error>>)
    requires
        s.yields(items),
    ensures
        forall|i: int|
            0 <= i < items.len() ==> (is_final(#[trigger] items[i]) <==> i == items.len() - 1),
        !s.ended ==> items.len() > 0,
    decreases items.len(),
{
    reveal_with_fuel(Stream::yields, 2);
    if items.len() > 0 {
        let rest = items.skip(1);
        law_nothing_follows_final_item(s.tail(), rest);
        assert(s.head() == Some(items[0]));
        assert(s.tail().ended <==> is_final(items[0]));
        assert(s.tail().ended ==> rest.len() == 0) by {
            if s.tail().ended && rest.len() > 0 {
                assert(s.tail().head() == Some(rest[0]));
            }
        }
        assert forall|i: int| 0 <= i < items.len() implies (is_final(#[trigger] items[i]) <==> i
            == items.len() - 1) by {
            if i > 0 {
                assert(items[i] == rest[i - 1]);
            }
        }
    }
}

/// A stream that gives a token and stands at the end of its source behind
/// it yields that token and the end of the input.
proof fn lemma_token_then_end(s: Stream, kind: TokenKind)
    requires
        s.head() == Some(Ok::<TokenKind, Error>(kind)),
        s.tail() == (Stream { source: s.source, pos: s.source@.len() as int, ended: false }),
    ensures
        s.yields(seq![Ok(kind), Ok(TokenKind::EOF)]),
{
    let items = seq![Ok::<TokenKind, Error>(kind), Ok(TokenKind::EOF)];
    assert(items.skip(1) =~= seq![Ok::<TokenKind, Error>(TokenKind::EOF)]);
    assert(items.skip(1).skip(1) =~= Seq::empty());
    assert(s.tail().head() == Some(Ok::<TokenKind, Error>(TokenKind::EOF)));
    reveal_with_fuel(Stream::yields, 3);
}

/// A source that holds nothing but whitespace, the empty source too, gives
/// the end-of-input token and nothing else.
pub proof fn law_blank_source(source: &str)
    requires
        forall|i: int| 0 <= i < source@.len() ==> whitespace(#[trigger] source@[i]),
    ensures
        Stream::start(source).yields(seq![Ok(TokenKind::EOF)]),
{
    lemma_whitespace_run(source@, 0, source@.len() as int);
    reveal_with_fuel(Stream::yields, 2);
}

/// Two characters that spell a punctuation token together are read as that
/// token, and the end of the input follows.
pub proof fn law_compound_token(source: &str)
    requires
        source@.len() == 2,
        compound(source@[0], source@[1]) is Some,
    ensures
        Stream::start(source).yields(
            seq![Ok(compound(source@[0], source@[1])->0), Ok(TokenKind::EOF)],
        ),
{
    lemma_token_then_end(Stream::start(source), compound(source@[0], source@[1])->0);
}

/// A punctuation character before a character with which it spells no token
/// is read as the one-character token, and the stream goes on with the token
/// that starts at the second character.
pub proof fn law_single_token(source: &str)
    requires
        source@.len() >= 2,
        punctuation(source@[0]) is Some,
        compound(source@[0], source@[1]) is None,
    ensures
        Stream::start(source).head() == Some(
            Ok::<TokenKind, Error>(punctuation(source@[0])->0),
        ),
        Stream::start(source).tail() == (Stream { source, pos: 1, ended: false }),
        Stream::start(source).tail().head() == Some(scan(source@, 1).0),
{
}

/// A punctuation character that ends the source is read as the
/// one-character token, and the end of the input follows.
pub proof fn law_single_token_at_end(source: &str)
    requires
        source@.len() == 1,
        punctuation(source@[0]) is Some,
    ensures
        Stream::start(source).yields(seq![Ok(punctuation(source@[0])->0), Ok(TokenKind::EOF)]),
{
    lemma_token_then_end(Stream::start(source), punctuation(source@[0])->0);
}

/// Each reserved word spells its own keyword.
pub proof fn law_keyword_table()
    ensures
        keyword("addr"@) == Some(TokenKind::Addr),
        keyword("array"@) == Some(TokenKind::Array),
        keyword("asm"@) == Some(TokenKind::Asm),
        keyword("break"@) == Some(TokenKind::Break),
        keyword("const"@) == Some(TokenKind::Const),
        keyword("continue"@) == Some(TokenKind::Continue),
        keyword("deref"@) == Some(TokenKind::Deref),
        keyword("else"@) == Some(TokenKind::Else),
        keyword("if"@) == Some(TokenKind::If),
        keyword("let"@) == Some(TokenKind::Let),
        keyword("loop"@) == Some(TokenKind::Loop),
        keyword("ptr"@) == Some(TokenKind::Ptr),
        keyword("static"@) == Some(TokenKind::Static),
        keyword("struct"@) == Some(TokenKind::Struct),
        keyword("union"@) == Some(TokenKind::Union),
        keyword("u8"@) == Some(TokenKind::U8),
        keyword("while"@) == Some(TokenKind::While),
{
    lemma_keywords_revealed();
}

/// What the reserved words are made of.
proof fn lemma_keywords_revealed()
    ensures
        "addr"@ =~= seq!['a', 'd', 'd', 'r'],
        "array"@ =~= seq!['a', 'r', 'r', 'a', 'y'],
        "asm"@ =~= seq!['a', 's', 'm'],
        "break"@ =~= seq!['b', 'r', 'e', 'a', 'k'],
        "const"@ =~= seq!['c', 'o', 'n', 's', 't'],
        "continue"@ =~= seq!['c', 'o', 'n', 't', 'i', 'n', 'u', 'e'],
        "deref"@ =~= seq!['d', 'e', 'r', 'e', 'f'],
        "else"@ =~= seq!['e', 'l', 's', 'e'],
        "if"@ =~= seq!['i', 'f'],
        "let"@ =~= seq!['l', 'e', 't'],
        "loop"@ =~= seq!['l', 'o', 'o', 'p'],
        "ptr"@ =~= seq!['p', 't', 'r'],
        "static"@ =~= seq!['s', 't', 'a', 't', 'i', 'c'],
        "struct"@ =~= seq!['s', 't', 'r', 'u', 'c', 't'],
        "union"@ =~= seq!['u', 'n', 'i', 'o', 'n'],
        "u8"@ =~= seq!['u', '8'],
        "while"@ =~= seq!['w', 'h', 'i', 'l', 'e'],
{
    reveal_strlit("addr");
    reveal_strlit("array");
    reveal_strlit("asm");
    reveal_strlit("break");
    reveal_strlit("const");
    reveal_strlit("continue");
    reveal_strlit("deref");
    reveal_strlit("else");
    reveal_strlit("if");
    reveal_strlit("let");
    reveal_strlit("loop");
    reveal_strlit("ptr");
    reveal_strlit("static");
    reveal_strlit("struct");
    reveal_strlit("union");
    reveal_strlit("u8");
    reveal_strlit("while");
}

/// Every keyword is a run of word characters that starts with a letter.
pub proof fn lemma_keyword_is_word(chars: Seq<char>)
    requires
        keyword(chars) is Some,
    ensures
        chars.len() > 0,
        forall|i: int| 0 <= i < chars.len() ==> word(#[trigger] chars[i]),
        !digit(chars[0]),
        !whitespace(chars[0]),
        keyword(chars)->0 != TokenKind::Identifier,
{
    lemma_keywords_revealed();
}

/// A source that is a word, read alone: the token of kind `kind` and then
/// the end of the input, where `kind` is what a word run at the start gives.
proof fn lemma_word_alone(source: &str, kind: TokenKind)
    requires
        source@.len() > 0,
        forall|i: int| 0 <= i < source@.len() ==> word(#[trigger] source@[i]),
        !digit(source@[0]),
        !whitespace(source@[0]),
        kind == (match keyword(source@) {
            Some(kind) => kind,
            None => TokenKind::Identifier,
        }),
    ensures
        Stream::start(source).yields(seq![Ok(kind), Ok(TokenKind::EOF)]),
{
    let chars = source@;
    let len = chars.len() as int;
    assert(word(chars[0]));
    lemma_word_run(chars, 0, len);
    assert(chars.subrange(0, len) =~= chars);
    lemma_token_then_end(Stream::start(source), kind);
}

/// A reserved word, read alone, gives its keyword, which is no identifier,
/// and then the end of the input.
pub proof fn law_keyword_token(source: &str)
    requires
        keyword(source@) is Some,
    ensures
        Stream::start(source).yields(seq![Ok(keyword(source@)->0), Ok(TokenKind::EOF)]),
        keyword(source@)->0 != TokenKind::Identifier,
{
    lemma_keyword_is_word(source@);
    lemma_keywords_revealed();
    lemma_word_alone(source, keyword(source@)->0);
}

/// A run of letters, numbers and underscores that is no reserved word, read
/// alone, gives an identifier and then the end of the input.
///
/// The run must not start with a decimal digit, which would start a number
/// literal. That its first character is no whitespace is asked as well: the
/// Unicode classes are named here and not defined, so that no letter is
/// whitespace cannot be proved.
pub proof fn law_identifier_token(source: &str)
    requires
        source@.len() > 0,
        forall|i: int| 0 <= i < source@.len() ==> word(#[trigger] source@[i]),
        !digit(source@[0]),
        !whitespace(source@[0]),
        keyword(source@) is None,
    ensures
        Stream::start(source).yields(seq![Ok(TokenKind::Identifier), Ok(TokenKind::EOF)]),
{
    lemma_word_alone(source, TokenKind::Identifier);
}

/// A run of decimal digits, read alone, gives a number literal and then the
/// end of the input.
pub proof fn law_number_token(source: &str)
    requires
        source@.len() > 0,
        forall|i: int| 0 <= i < source@.len() ==> digit(#[trigger] source@[i]),
    ensures
        Stream::start(source).yields(seq![Ok(TokenKind::Number), Ok(TokenKind::EOF)]),
{
    let chars = source@;
    assert(digit(chars[0]));
    lemma_digits_run(chars, 0, chars.len() as int);
    lemma_token_then_end(Stream::start(source), TokenKind::Number);
}

/// A double quote, what follows it up to the next double quote, and that
/// quote, read alone, give a string literal and then the end of the input.
pub proof fn law_string_token(source: &str)
    requires
        source@.len() >= 2,
        source@[0] == '"',
        source@[source@.len() - 1] == '"',
        forall|i: int| 1 <= i < source@.len() - 1 ==> #[trigger] source@[i] != '"',
    ensures
        Stream::start(source).yields(seq![Ok(TokenKind::Str), Ok(TokenKind::EOF)]),
{
    let chars = source@;
    lemma_quote_run(chars, 1, chars.len() - 1);
    lemma_token_then_end(Stream::start(source), TokenKind::Str);
}

/// A double quote that no other double quote follows gives the error
/// [`Error::OpenEndedStringToken`] and nothing after it.
pub proof fn law_open_ended_string(source: &str)
    requires
        source@.len() >= 1,
        source@[0] == '"',
        forall|i: int| 1 <= i < source@.len() ==> #[trigger] source@[i] != '"',
    ensures
        Stream::start(source).yields(seq![Err(Error::OpenEndedStringToken)]),
{
    lemma_quote_run(source@, 1, source@.len() as int);
    reveal_with_fuel(Stream::yields, 2);
}

/// The one lexical error is the string literal that is not closed: it comes
/// exactly where the first character behind the whitespace is a double quote
/// that no other double quote follows.
pub proof fn law_only_lexical_error(chars: Seq<char>, from: int)
    ensures
        scan(chars, from).0 is Err <==> ({
            let at = whitespace_end(chars, from);
            &&& 0 <= at < chars.len()
            &&& chars[at] == '"'
            &&& quote_at(chars, at + 1) >= chars.len()
        }),
        scan(chars, from).0 is Err ==> scan(chars, from).0 == Err::<TokenKind, Error>(
            Error::OpenEndedStringToken,
        ),
{
}

/// A character that fits no other rule, read alone, is an identifier, and
/// the end of the input follows.
pub proof fn law_other_character(source: &str)
    requires
        source@.len() == 1,
        !whitespace(source@[0]),
        punctuation(source@[0]) is None,
        source@[0] != '"',
        !digit(source@[0]),
        !word(source@[0]),
    ensures
        Stream::start(source).yields(seq![Ok(TokenKind::Identifier), Ok(TokenKind::EOF)]),
{
    lemma_token_then_end(Stream::start(source), TokenKind::Identifier);
}

/// Every stream ends: read from any state, it produces its
/// [`Stream::items`] and then nothing, and these are no more than one for
/// each character that was left and one for the end of the input.
pub proof fn law_stream_ends(s: Stream)
    ensures
        s.yields(s.items()),
        s.items().len() <= s.measure(),
    decreases s.measure(),
{
    if !s.ended {
        lemma_tail_measure(s);
        law_stream_ends(s.tail());
        assert(s.items().skip(1) =~= s.tail().items());
    }
}

/// Whitespace before a token changes no token: from every position of the
/// whitespace that leads to it, the same token is scanned, with the same
/// end.
pub proof fn law_leading_whitespace(chars: Seq<char>, from: int, i: int)
    requires
        0 <= from <= i <= whitespace_end(chars, from),
    ensures
        scan(chars, i) == scan(chars, from),
{
    lemma_whitespace_end(chars, from);
    let end = whitespace_end(chars, from);
    if from <= chars.len() {
        lemma_whitespace_run(chars, i, end);
    }
}

} // verus!
