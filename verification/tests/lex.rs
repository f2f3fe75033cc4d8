use gb_lang::lex::classes::{alphanumeric, digit, whitespace, word};
use gb_lang::lex::{tokenize, Error, Token, TokenKind};
use gb_lang::{Span, Spanned};

fn kinds(input: &str) -> Vec<Result<TokenKind, Error>> {
    let mut tokens = tokenize(input);
    let mut out = Vec::new();
    while let Some(item) = tokens.next() {
        out.push(item.map(|token| token.kind()));
    }
    out
}

#[test]
fn tokenize_empty() {
    assert!(matches!(tokenize("").next(), Some(Ok(Token::EOF(_)))));
    assert!(matches!(tokenize(" ").next(), Some(Ok(Token::EOF(_)))));
    assert!(matches!(tokenize("\n").next(), Some(Ok(Token::EOF(_)))));
    assert!(matches!(tokenize("\r\n").next(), Some(Ok(Token::EOF(_)))));
    assert!(matches!(tokenize("\t").next(), Some(Ok(Token::EOF(_)))));
}

#[test]
fn return_none_after_eof() {
    let mut tokens = gb_lang::tokenize("");
    assert!(matches!(
        [tokens.next(), tokens.next()],
        [Some(Ok(Token::EOF(_))), None]
    ));
}

#[test]
fn tokenize_two_chars() {
    let mut tokens = tokenize("&=::==/=>=<=-=~=|=+=*=^=");
    assert!(matches!(tokens.next(), Some(Ok(Token::AndEquals(_)))));
    assert!(matches!(tokens.next(), Some(Ok(Token::ColonColon(_)))));
    assert!(matches!(tokens.next(), Some(Ok(Token::EqualsEquals(_)))));
    assert!(matches!(tokens.next(), Some(Ok(Token::ForwardSlashEquals(_)))));
    assert!(matches!(tokens.next(), Some(Ok(Token::GreaterEqualsThan(_)))));
    assert!(matches!(tokens.next(), Some(Ok(Token::LessEqualsThan(_)))));
    assert!(matches!(tokens.next(), Some(Ok(Token::MinusEquals(_)))));
    assert!(matches!(tokens.next(), Some(Ok(Token::NotEquals(_)))));
    assert!(matches!(tokens.next(), Some(Ok(Token::OrEquals(_)))));
    assert!(matches!(tokens.next(), Some(Ok(Token::PlusEquals(_)))));
    assert!(matches!(tokens.next(), Some(Ok(Token::StarEquals(_)))));
    assert!(matches!(tokens.next(), Some(Ok(Token::XorEquals(_)))));
    assert!(matches!(tokens.next(), Some(Ok(Token::EOF(_)))));
}

#[test]
fn tokenize_one_char() {
    let mut tokens = tokenize("&@:,{}=/><-~|()+;[]*^");
    assert!(matches!(tokens.next(), Some(Ok(Token::And(_)))));
    assert!(matches!(tokens.next(), Some(Ok(Token::At(_)))));
    assert!(matches!(tokens.next(), Some(Ok(Token::Colon(_)))));
    assert!(matches!(tokens.next(), Some(Ok(Token::Comma(_)))));
    assert!(matches!(tokens.next(), Some(Ok(Token::CurlyLeft(_)))));
    assert!(matches!(tokens.next(), Some(Ok(Token::CurlyRight(_)))));
    assert!(matches!(tokens.next(), Some(Ok(Token::Equals(_)))));
    assert!(matches!(tokens.next(), Some(Ok(Token::ForwardSlash(_)))));
    assert!(matches!(tokens.next(), Some(Ok(Token::GreaterThan(_)))));
    assert!(matches!(tokens.next(), Some(Ok(Token::LessThan(_)))));
    assert!(matches!(tokens.next(), Some(Ok(Token::Minus(_)))));
    assert!(matches!(tokens.next(), Some(Ok(Token::Not(_)))));
    assert!(matches!(tokens.next(), Some(Ok(Token::Or(_)))));
    assert!(matches!(tokens.next(), Some(Ok(Token::ParLeft(_)))));
    assert!(matches!(tokens.next(), Some(Ok(Token::ParRight(_)))));
    assert!(matches!(tokens.next(), Some(Ok(Token::Plus(_)))));
    assert!(matches!(tokens.next(), Some(Ok(Token::SemiColon(_)))));
    assert!(matches!(tokens.next(), Some(Ok(Token::SquareLeft(_)))));
    assert!(matches!(tokens.next(), Some(Ok(Token::SquareRight(_)))));
    assert!(matches!(tokens.next(), Some(Ok(Token::Star(_)))));
    assert!(matches!(tokens.next(), Some(Ok(Token::Xor(_)))));
    assert!(matches!(tokens.next(), Some(Ok(Token::EOF(_)))));
}

#[test]
fn tokenize_keywords() {
    let mut tokens = tokenize(
        "addr array asm break const continue deref else if let loop ptr static struct union u8 while",
    );
    assert!(matches!(tokens.next(), Some(Ok(Token::Addr(_)))));
    assert!(matches!(tokens.next(), Some(Ok(Token::Array(_)))));
    assert!(matches!(tokens.next(), Some(Ok(Token::Asm(_)))));
    assert!(matches!(tokens.next(), Some(Ok(Token::Break(_)))));
    assert!(matches!(tokens.next(), Some(Ok(Token::Const(_)))));
    assert!(matches!(tokens.next(), Some(Ok(Token::Continue(_)))));
    assert!(matches!(tokens.next(), Some(Ok(Token::Deref(_)))));
    assert!(matches!(tokens.next(), Some(Ok(Token::Else(_)))));
    assert!(matches!(tokens.next(), Some(Ok(Token::If(_)))));
    assert!(matches!(tokens.next(), Some(Ok(Token::Let(_)))));
    assert!(matches!(tokens.next(), Some(Ok(Token::Loop(_)))));
    assert!(matches!(tokens.next(), Some(Ok(Token::Ptr(_)))));
    assert!(matches!(tokens.next(), Some(Ok(Token::Static(_)))));
    assert!(matches!(tokens.next(), Some(Ok(Token::Struct(_)))));
    assert!(matches!(tokens.next(), Some(Ok(Token::Union(_)))));
    assert!(matches!(tokens.next(), Some(Ok(Token::U8(_)))));
    assert!(matches!(tokens.next(), Some(Ok(Token::While(_)))));
    assert!(matches!(tokens.next(), Some(Ok(Token::EOF(_)))));
}

#[test]
fn tokenize_string() {
    let mut tokens = tokenize("\"Hello, world\"");
    assert!(matches!(tokens.next(), Some(Ok(Token::Str(_)))));
}

#[test]
fn tokenize_string_error() {
    let mut tokens = gb_lang::lex::tokenize("\"hello");
    assert!(matches!(
        tokens.next(),
        Some(Err(Error::OpenEndedStringToken))
    ));
}

#[test]
fn tokenize_num() {
    let mut tokens = tokenize("0 123456789");
    assert!(matches!(tokens.next(), Some(Ok(Token::Number(_)))));
    assert!(matches!(tokens.next(), Some(Ok(Token::Number(_)))));
    assert!(matches!(tokens.next(), Some(Ok(Token::EOF(_)))));
}

#[test]
fn tokenize_identifier() {
    let mut tokens = tokenize("hello world");
    assert!(matches!(tokens.next(), Some(Ok(Token::Identifier(_)))));
    assert!(matches!(tokens.next(), Some(Ok(Token::Identifier(_)))));
    assert!(matches!(tokens.next(), Some(Ok(Token::EOF(_)))));
}

#[test]
fn blank_sources_give_exactly_one_token() {
    for input in ["", " ", "\n", "\r\n", "\t", " \t\r\n \u{b}\u{c}", "\u{a0}\u{2003}\u{3000}"] {
        assert_eq!(kinds(input), vec![Ok(TokenKind::EOF)], "{:?}", input);
    }
}

#[test]
fn nothing_follows_the_end_of_input() {
    let mut tokens = tokenize("let x");
    assert!(matches!(tokens.next(), Some(Ok(Token::Let(_)))));
    assert!(matches!(tokens.next(), Some(Ok(Token::Identifier(_)))));
    assert!(matches!(tokens.next(), Some(Ok(Token::EOF(_)))));
    for _ in 0..4 {
        assert_eq!(tokens.next(), None);
        assert_eq!(tokens.peek(), None);
    }
}

#[test]
fn nothing_follows_an_error() {
    let mut tokens = tokenize("let \"hello let let");
    assert!(matches!(tokens.next(), Some(Ok(Token::Let(_)))));
    assert_eq!(tokens.next(), Some(Err(Error::OpenEndedStringToken)));
    for _ in 0..4 {
        assert_eq!(tokens.next(), None);
        assert_eq!(tokens.peek(), None);
    }
    assert_eq!(
        kinds("\"hello"),
        vec![Err(Error::OpenEndedStringToken)]
    );
    assert_eq!(kinds("\""), vec![Err(Error::OpenEndedStringToken)]);
}

#[test]
fn every_two_character_operator_alone() {
    let table = [
        ("&=", TokenKind::AndEquals),
        ("::", TokenKind::ColonColon),
        ("==", TokenKind::EqualsEquals),
        ("/=", TokenKind::ForwardSlashEquals),
        (">=", TokenKind::GreaterEqualsThan),
        ("<=", TokenKind::LessEqualsThan),
        ("-=", TokenKind::MinusEquals),
        ("~=", TokenKind::NotEquals),
        ("|=", TokenKind::OrEquals),
        ("+=", TokenKind::PlusEquals),
        ("*=", TokenKind::StarEquals),
        ("^=", TokenKind::XorEquals),
    ];
    for (text, kind) in table {
        assert_eq!(kinds(text), vec![Ok(kind), Ok(TokenKind::EOF)], "{}", text);
    }
}

#[test]
fn first_character_of_an_operator_before_another_character() {
    let table = [
        ('&', TokenKind::And),
        (':', TokenKind::Colon),
        ('=', TokenKind::Equals),
        ('/', TokenKind::ForwardSlash),
        ('>', TokenKind::GreaterThan),
        ('<', TokenKind::LessThan),
        ('-', TokenKind::Minus),
        ('~', TokenKind::Not),
        ('|', TokenKind::Or),
        ('+', TokenKind::Plus),
        ('*', TokenKind::Star),
        ('^', TokenKind::Xor),
    ];
    for (first, kind) in table {
        assert_eq!(
            kinds(&format!("{}@", first)),
            vec![Ok(kind), Ok(TokenKind::At), Ok(TokenKind::EOF)]
        );
        assert_eq!(
            kinds(&format!("{}x", first)),
            vec![Ok(kind), Ok(TokenKind::Identifier), Ok(TokenKind::EOF)]
        );
        assert_eq!(
            kinds(&format!("{} =", first)),
            vec![Ok(kind), Ok(TokenKind::Equals), Ok(TokenKind::EOF)]
        );
        assert_eq!(kinds(&format!("{}", first)), vec![Ok(kind), Ok(TokenKind::EOF)]);
    }
    assert_eq!(
        kinds(":="),
        vec![Ok(TokenKind::Colon), Ok(TokenKind::Equals), Ok(TokenKind::EOF)]
    );
    assert_eq!(
        kinds("==="),
        vec![Ok(TokenKind::EqualsEquals), Ok(TokenKind::Equals), Ok(TokenKind::EOF)]
    );
    assert_eq!(
        kinds(":::"),
        vec![Ok(TokenKind::ColonColon), Ok(TokenKind::Colon), Ok(TokenKind::EOF)]
    );
}

#[test]
fn every_keyword_alone() {
    let table = [
        ("addr", TokenKind::Addr),
        ("array", TokenKind::Array),
        ("asm", TokenKind::Asm),
        ("break", TokenKind::Break),
        ("const", TokenKind::Const),
        ("continue", TokenKind::Continue),
        ("deref", TokenKind::Deref),
        ("else", TokenKind::Else),
        ("if", TokenKind::If),
        ("let", TokenKind::Let),
        ("loop", TokenKind::Loop),
        ("ptr", TokenKind::Ptr),
        ("static", TokenKind::Static),
        ("struct", TokenKind::Struct),
        ("union", TokenKind::Union),
        ("u8", TokenKind::U8),
        ("while", TokenKind::While),
    ];
    for (text, kind) in table {
        assert_eq!(kinds(text), vec![Ok(kind), Ok(TokenKind::EOF)], "{}", text);
        assert_ne!(kind, TokenKind::Identifier);
    }
}

#[test]
fn other_words_are_identifiers() {
    for text in [
        "hello", "lets", "le", "Let", "LET", "_", "_let", "let_", "u9", "u88", "a1", "structs",
        "whil", "iff", "x_y_z", "h\u{e9}llo", "\u{3b1}\u{3b2}", "a\u{663}",
    ] {
        assert_eq!(
            kinds(text),
            vec![Ok(TokenKind::Identifier), Ok(TokenKind::EOF)],
            "{}",
            text
        );
    }
}

#[test]
fn a_number_ends_where_its_digits_end() {
    assert_eq!(kinds("42"), vec![Ok(TokenKind::Number), Ok(TokenKind::EOF)]);
    assert_eq!(
        kinds("1abc"),
        vec![Ok(TokenKind::Number), Ok(TokenKind::Identifier), Ok(TokenKind::EOF)]
    );
    assert_eq!(
        kinds("0x1f"),
        vec![Ok(TokenKind::Number), Ok(TokenKind::Identifier), Ok(TokenKind::EOF)]
    );
    assert_eq!(
        kinds("12;"),
        vec![Ok(TokenKind::Number), Ok(TokenKind::SemiColon), Ok(TokenKind::EOF)]
    );
}

#[test]
fn a_string_ends_at_the_next_quote() {
    assert_eq!(kinds("\"\""), vec![Ok(TokenKind::Str), Ok(TokenKind::EOF)]);
    assert_eq!(
        kinds("\"let 1 ; \n\"x"),
        vec![Ok(TokenKind::Str), Ok(TokenKind::Identifier), Ok(TokenKind::EOF)]
    );
    assert_eq!(
        kinds("\"a\"\"b\""),
        vec![Ok(TokenKind::Str), Ok(TokenKind::Str), Ok(TokenKind::EOF)]
    );
    assert_eq!(
        kinds("\"a\" \"b"),
        vec![Ok(TokenKind::Str), Err(Error::OpenEndedStringToken)]
    );
}

#[test]
fn a_character_that_fits_no_rule_is_an_identifier() {
    assert_eq!(kinds("#"), vec![Ok(TokenKind::Identifier), Ok(TokenKind::EOF)]);
    assert_eq!(
        kinds(" #let"),
        vec![Ok(TokenKind::Identifier), Ok(TokenKind::Let), Ok(TokenKind::EOF)]
    );
    assert_eq!(
        kinds("x $ !."),
        vec![
            Ok(TokenKind::Identifier),
            Ok(TokenKind::Identifier),
            Ok(TokenKind::Identifier),
            Ok(TokenKind::Identifier),
            Ok(TokenKind::EOF),
        ]
    );
    assert_eq!(
        kinds("##"),
        vec![Ok(TokenKind::Identifier), Ok(TokenKind::Identifier), Ok(TokenKind::EOF)]
    );
}

#[test]
fn a_number_starts_with_a_decimal_digit() {
    // U+2460 CIRCLED DIGIT ONE and U+0663 ARABIC-INDIC DIGIT THREE are numbers
    // and no decimal digits: they stand in words.
    assert_eq!(kinds("\u{2460}"), vec![Ok(TokenKind::Identifier), Ok(TokenKind::EOF)]);
    assert_eq!(kinds("\u{663}4"), vec![Ok(TokenKind::Identifier), Ok(TokenKind::EOF)]);
    assert_eq!(
        kinds("4\u{663}"),
        vec![Ok(TokenKind::Number), Ok(TokenKind::Identifier), Ok(TokenKind::EOF)]
    );
}

#[test]
fn every_stream_ends_within_one_item_per_character_and_one() {
    for input in
        ["", "#", "###", "\u{2460}\u{2460}", "let x = #;", "\"", "a\"b", " \t ", "$ $ $"]
    {
        let mut tokens = tokenize(input);
        let mut count = 0;
        let mut left = tokens.left();
        assert_eq!(left, input.chars().count());
        while let Some(_) = tokens.next() {
            count += 1;
            assert!(count <= input.chars().count() + 1, "{:?}", input);
            assert!(tokens.is_ended() || tokens.left() < left, "{:?}", input);
            left = tokens.left();
        }
        assert!(tokens.is_ended());
        assert_eq!(tokens.next(), None);
    }
}

#[test]
fn peek_shows_the_next_item_and_keeps_it() {
    let mut tokens = tokenize("let x;");
    assert!(matches!(tokens.peek(), Some(Ok(Token::Let(_)))));
    assert!(matches!(tokens.peek(), Some(Ok(Token::Let(_)))));
    assert!(matches!(tokens.next(), Some(Ok(Token::Let(_)))));
    assert!(matches!(tokens.next(), Some(Ok(Token::Identifier(_)))));
    assert!(matches!(tokens.peek(), Some(Ok(Token::SemiColon(_)))));
    assert!(matches!(tokens.next(), Some(Ok(Token::SemiColon(_)))));
    assert!(matches!(tokens.peek(), Some(Ok(Token::EOF(_)))));
    assert!(matches!(tokens.next(), Some(Ok(Token::EOF(_)))));
    assert_eq!(tokens.peek(), None);
    assert_eq!(tokens.next(), None);

    let mut tokens = tokenize("\"open");
    assert_eq!(tokens.peek(), Some(Err(Error::OpenEndedStringToken)));
    assert_eq!(tokens.peek(), Some(Err(Error::OpenEndedStringToken)));
    assert_eq!(tokens.next(), Some(Err(Error::OpenEndedStringToken)));
    assert_eq!(tokens.peek(), None);
}

#[test]
fn peek_kind_is_the_kind_of_the_next_item() {
    let mut tokens = tokenize("let 1 \"open");
    assert_eq!(tokens.peek_kind(), Some(Ok(TokenKind::Let)));
    assert_eq!(tokens.peek_kind(), Some(Ok(TokenKind::Let)));
    assert!(matches!(tokens.next(), Some(Ok(Token::Let(_)))));
    assert_eq!(tokens.peek_kind(), Some(Ok(TokenKind::Number)));
    assert!(matches!(tokens.peek(), Some(Ok(Token::Number(_)))));
    assert!(matches!(tokens.next(), Some(Ok(Token::Number(_)))));
    assert_eq!(tokens.peek_kind(), Some(Err(Error::OpenEndedStringToken)));
    assert_eq!(tokens.next(), Some(Err(Error::OpenEndedStringToken)));
    assert_eq!(tokens.peek_kind(), None);
}

#[test]
fn a_whole_statement_token_by_token() {
    assert_eq!(
        kinds("let baz::ptr<array<ptr<u8>, 4>> = 42;"),
        vec![
            Ok(TokenKind::Let),
            Ok(TokenKind::Identifier),
            Ok(TokenKind::ColonColon),
            Ok(TokenKind::Ptr),
            Ok(TokenKind::LessThan),
            Ok(TokenKind::Array),
            Ok(TokenKind::LessThan),
            Ok(TokenKind::Ptr),
            Ok(TokenKind::LessThan),
            Ok(TokenKind::U8),
            Ok(TokenKind::GreaterThan),
            Ok(TokenKind::Comma),
            Ok(TokenKind::Number),
            Ok(TokenKind::GreaterThan),
            Ok(TokenKind::GreaterThan),
            Ok(TokenKind::Equals),
            Ok(TokenKind::Number),
            Ok(TokenKind::SemiColon),
            Ok(TokenKind::EOF),
        ]
    );
    assert_eq!(
        kinds("if x>=1{y-=2;}"),
        vec![
            Ok(TokenKind::If),
            Ok(TokenKind::Identifier),
            Ok(TokenKind::GreaterEqualsThan),
            Ok(TokenKind::Number),
            Ok(TokenKind::CurlyLeft),
            Ok(TokenKind::Identifier),
            Ok(TokenKind::MinusEquals),
            Ok(TokenKind::Number),
            Ok(TokenKind::SemiColon),
            Ok(TokenKind::CurlyRight),
            Ok(TokenKind::EOF),
        ]
    );
}

#[test]
fn tokens_borrow_the_source_and_have_the_span_at_the_origin() {
    let input = "let foo::u8 = 42;";
    let mut tokens = tokenize(input);
    let mut count = 0;
    while let Some(item) = tokens.next() {
        let token = item.unwrap();
        assert_eq!(token.text(), input);
        assert_eq!(token.span(), Span::default());
        assert_eq!(token, Token::new(token.kind(), input));
        count += 1;
    }
    assert_eq!(count, 8);
}

#[test]
fn span_default_is_the_origin() {
    let span = Span::default();
    assert_eq!(span.min, [0, 0]);
    assert_eq!(span.max, [0, 0]);
    assert_eq!(span, Span { min: [0, 0], max: [0, 0] });
}

fn spanned<T: Spanned>(_: &T) -> bool {
    true
}

#[test]
fn tokens_are_spanned() {
    let token = tokenize(";").next().unwrap().unwrap();
    assert!(spanned(&token));
    match token {
        Token::SemiColon(semi_colon) => assert!(spanned(&semi_colon)),
        other => panic!("{:?}", other),
    }
}

#[test]
fn character_classes_are_those_of_the_standard_library() {
    for code in 0..=0x10ffffu32 {
        if let Some(c) = char::from_u32(code) {
            assert_eq!(whitespace(c), c.is_whitespace(), "{:?}", c);
            assert_eq!(alphanumeric(c), c.is_alphanumeric(), "{:?}", c);
            assert_eq!(word(c), c.is_alphanumeric() || c == '_', "{:?}", c);
            assert_eq!(digit(c), ('0'..='9').contains(&c), "{:?}", c);
        }
    }
}

#[test]
fn character_classes_on_chosen_characters() {
    assert!(whitespace(' ') && whitespace('\t') && whitespace('\n') && whitespace('\r'));
    assert!(whitespace('\u{a0}') && whitespace('\u{2028}'));
    assert!(!whitespace('a') && !whitespace('_') && !whitespace('\u{200b}'));
    assert!(alphanumeric('a') && alphanumeric('Z') && alphanumeric('7') && alphanumeric('\u{e9}'));
    assert!(!alphanumeric('_') && !alphanumeric(' ') && !alphanumeric('-'));
    assert!(word('_') && word('a') && word('1') && !word('-') && !word('"'));
    assert!(digit('0') && digit('9') && !digit('\u{663}') && !digit('a'));
}
