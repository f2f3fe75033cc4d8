use gb_lang::ast::{
    expressions::{Add, Call, Expression, Identifier, Index, Number, Parenthesis, Str},
    statements::{Break, Const, Continue, If, Let, Loop, Scope, Statement, Static, While},
    types::{Array, Ptr, Struct, Type, U8},
    Context, Error, Grammar,
};
use gb_lang::lex::{self, tokenize, tokens, Token, TokenKind};

#[test]
fn statement_let() {
    gb_lang::parse::<Let<U8, Number>>("let foo::u8 = 42;").unwrap();
    gb_lang::parse::<Let<Array<U8>, Str>>("let bar::array<u8, 6> = \"german\";").unwrap();
    gb_lang::parse::<Statement>("let baz::ptr<array<ptr<u8>, 4>> = 42;").unwrap();
}

#[test]
fn statement_const() {
    gb_lang::parse::<Const<U8>>("const FOO::u8;").unwrap();
    gb_lang::parse::<Const<Type>>("const FOO::array<u8, 123>;").unwrap();
    gb_lang::parse::<Const<Type>>("const FOO::array<u8, 123>;").unwrap();
}

#[test]
fn statement_static() {
    gb_lang::parse::<Static<U8, Number>>("static FOO::u8 = 42;").unwrap();
    gb_lang::parse::<Static<Type, Expression>>("static FOO::array<u8, 1024> = \"...\";").unwrap();
    gb_lang::parse::<Static<U8, Number>>("static FOO::u8 = 42;").unwrap();
}

#[test]
fn statement_if() {
    gb_lang::parse::<If<Number, Statement>>("if 0\nlet foo::u8 = 4;").unwrap();
    gb_lang::parse::<If<Number, Scope<Statement>>>("if 0{let foo::u8=4;}").unwrap();
    gb_lang::parse::<If<Number, Scope<Statement>>>("if 1 {continue;}").unwrap();
}

#[test]
fn statement_loop() {
    gb_lang::parse::<Loop<Statement>>("loop let foo::u8 = 4;").unwrap();
    gb_lang::parse::<Loop<Scope<Statement>>>("loop {let foo::u8 = 4;}").unwrap();
}

#[test]
fn statement_while() {
    gb_lang::parse::<While<Number, Statement>>("while 1 let foo::u8 = 4;").unwrap();
    gb_lang::parse::<While<Number, Scope<Statement>>>("while 0 {let foo::u8 = 4;}").unwrap();
}

#[test]
fn statement_loop_break() {
    gb_lang::parse::<Loop<Break>>("loop break;").unwrap();
    gb_lang::parse::<While<Number, Break>>("while 1 break;").unwrap();
}

#[test]
fn statement_loop_continue() {
    gb_lang::parse::<Loop<Continue>>("loop continue;").unwrap();
    gb_lang::parse::<While<Number, Continue>>("while 1 continue;").unwrap();
}

#[test]
fn statement_scope() {
    gb_lang::parse::<Scope<()>>("{}").unwrap();
    gb_lang::parse::<Scope<Vec<Statement>>>("{}").unwrap();
}

#[test]
fn let_node_covers_the_input_up_to_the_end() {
    let input = "let foo::u8 = 42;";
    let mut tokens = tokenize(input);
    let mut context = Context::default();
    let node = Let::<U8, Number>::parse(&mut tokens, &mut context).unwrap();
    assert_eq!(node.let_.inner, input);
    assert_eq!(node.identifier.inner, input);
    assert_eq!(node.colon_colon.inner, input);
    assert_eq!(node.type_.0.inner, input);
    assert_eq!(node.equals.inner, input);
    assert_eq!(node.expression.0.inner, input);
    assert_eq!(node.semi_colon.inner, input);
    // All that is left of the stream is the end of the input.
    assert!(matches!(tokens.next(), Some(Ok(Token::EOF(_)))));
    assert_eq!(tokens.next(), None);
}

#[test]
fn let_with_array_type_and_string() {
    let input = "let bar::array<u8, 6> = \"german\";";
    let node = gb_lang::parse::<Let<Array<U8>, Str>>(input).unwrap();
    assert_eq!(node.type_.number.inner, input);
    assert_eq!(node.type_.type_.0.inner, input);
    assert_eq!(node.expression.0.inner, input);
}

#[test]
fn scope_of_nothing_and_scope_of_no_statements() {
    let node = gb_lang::parse::<Scope<()>>("{}").unwrap();
    assert_eq!(node.inner, ());
    let node = gb_lang::parse::<Scope<Vec<Statement>>>("{}").unwrap();
    assert!(node.inner.is_empty());
    let node = gb_lang::parse::<Scope<Vec<Statement>>>("{ }").unwrap();
    assert_eq!(node.inner.len(), 0);
}

#[test]
fn scope_holds_the_statements_in_their_order() {
    let node = gb_lang::parse::<Scope<Vec<Statement>>>(
        "{ let a::u8 = 1; const B::ptr<u8>; { break; continue; } loop break; }",
    )
    .unwrap();
    assert_eq!(node.inner.len(), 4);
    assert!(matches!(node.inner[0], Statement::Let(_)));
    assert!(matches!(node.inner[1], Statement::Const(_)));
    match &node.inner[2] {
        Statement::Scope(scope) => {
            assert_eq!(scope.inner.len(), 2);
            assert!(matches!(scope.inner[0], Statement::Break(_)));
            assert!(matches!(scope.inner[1], Statement::Continue(_)));
        }
        other => panic!("{:?}", other),
    }
    match &node.inner[3] {
        Statement::Loop(l) => {
            assert_eq!(l.inner.len(), 1);
            assert!(matches!(l.inner[0], Statement::Break(_)));
        }
        other => panic!("{:?}", other),
    }
}

#[test]
fn statement_rejects_a_semicolon() {
    let r = gb_lang::parse::<Statement>(";");
    assert!(matches!(r, Err(Error::UnexpectedToken(Token::SemiColon(_)))));
    match r {
        Err(Error::UnexpectedToken(token)) => {
            assert_eq!(token.kind(), TokenKind::SemiColon);
            assert_eq!(token.text(), ";");
        }
        other => panic!("{:?}", other),
    }
}

#[test]
fn the_unexpected_token_has_been_consumed() {
    let mut tokens = tokenize("; let");
    let mut context = Context::default();
    let r = Statement::parse(&mut tokens, &mut context);
    assert!(matches!(r, Err(Error::UnexpectedToken(Token::SemiColon(_)))));
    assert!(matches!(tokens.next(), Some(Ok(Token::Let(_)))));

    let mut tokens = tokenize("= 1");
    let r = Type::parse(&mut tokens, &mut context);
    assert!(matches!(r, Err(Error::UnexpectedToken(Token::Equals(_)))));
    assert!(matches!(tokens.next(), Some(Ok(Token::Number(_)))));

    let mut tokens = tokenize("; 1");
    let r = Expression::parse(&mut tokens, &mut context);
    assert!(matches!(r, Err(Error::UnexpectedToken(Token::SemiColon(_)))));
    assert!(matches!(tokens.next(), Some(Ok(Token::Number(_)))));

    let mut tokens = tokenize("let ; x");
    let r = tokens::SemiColon::parse(&mut tokens, &mut context);
    assert!(matches!(r, Err(Error::UnexpectedToken(Token::Let(_)))));
    assert!(matches!(tokens.next(), Some(Ok(Token::SemiColon(_)))));
}

#[test]
fn a_stream_that_has_ended_gives_tokenizer_empty() {
    let mut context = Context::default();

    let mut tokens = tokenize("");
    assert!(matches!(tokens.next(), Some(Ok(Token::EOF(_)))));
    assert!(matches!(
        Statement::parse(&mut tokens, &mut context),
        Err(Error::TokenizerEmpty)
    ));
    assert!(matches!(
        Expression::parse(&mut tokens, &mut context),
        Err(Error::TokenizerEmpty)
    ));
    assert!(matches!(
        Type::parse(&mut tokens, &mut context),
        Err(Error::TokenizerEmpty)
    ));
    assert!(matches!(
        tokens::EOF::parse(&mut tokens, &mut context),
        Err(Error::TokenizerEmpty)
    ));
    assert!(matches!(
        Let::<U8, Number>::parse(&mut tokens, &mut context),
        Err(Error::TokenizerEmpty)
    ));

    // `break;` and the end of the input are consumed by the first two nodes.
    let mut tokens = tokenize("break;");
    Break::parse(&mut tokens, &mut context).unwrap();
    tokens::EOF::parse(&mut tokens, &mut context).unwrap();
    assert!(matches!(
        Statement::parse(&mut tokens, &mut context),
        Err(Error::TokenizerEmpty)
    ));
}

#[test]
fn nothing_but_the_end_of_input_gives_tokenizer_empty() {
    assert!(matches!(
        gb_lang::parse::<Statement>(""),
        Err(Error::TokenizerEmpty)
    ));
    assert!(matches!(
        gb_lang::parse::<Statement>(" \n\t"),
        Err(Error::TokenizerEmpty)
    ));
    assert!(matches!(
        gb_lang::parse::<Expression>(" "),
        Err(Error::TokenizerEmpty)
    ));
    assert!(matches!(gb_lang::parse::<Type>("\n"), Err(Error::TokenizerEmpty)));
    // Within a node too, where a sum type stands at the end of the input.
    assert!(matches!(
        gb_lang::parse::<Statement>("let x::"),
        Err(Error::TokenizerEmpty)
    ));
    assert!(matches!(
        gb_lang::parse::<Statement>("static x::u8 ="),
        Err(Error::TokenizerEmpty)
    ));
    // The end of the input is left on the stream.
    let mut tokens = tokenize("");
    let mut context = Context::default();
    assert!(matches!(
        Statement::parse(&mut tokens, &mut context),
        Err(Error::TokenizerEmpty)
    ));
    assert!(matches!(tokens.next(), Some(Ok(Token::EOF(_)))));
    // A token that is required is another matter: the end of the input is a
    // token of another kind.
    assert!(matches!(
        gb_lang::parse::<Break>("break"),
        Err(Error::UnexpectedToken(Token::EOF(_)))
    ));
    assert!(matches!(
        gb_lang::parse::<tokens::SemiColon>(""),
        Err(Error::UnexpectedToken(Token::EOF(_)))
    ));
}

#[test]
fn lexical_errors_are_handed_on() {
    assert!(matches!(
        gb_lang::parse::<Statement>("\"open"),
        Err(Error::Lex(lex::Error::OpenEndedStringToken))
    ));
    assert!(matches!(
        gb_lang::parse::<Expression>("\"open"),
        Err(Error::Lex(lex::Error::OpenEndedStringToken))
    ));
    assert!(matches!(
        gb_lang::parse::<Type>("\"open"),
        Err(Error::Lex(lex::Error::OpenEndedStringToken))
    ));
    assert!(matches!(
        gb_lang::parse::<Let<U8, Str>>("let x::u8 = \"open;"),
        Err(Error::Lex(lex::Error::OpenEndedStringToken))
    ));
    assert!(matches!(
        gb_lang::parse::<Scope<Vec<Statement>>>("{ break; \"open }"),
        Err(Error::Lex(lex::Error::OpenEndedStringToken))
    ));
    // After the error the stream has ended.
    let mut tokens = tokenize("\"open");
    let mut context = Context::default();
    assert!(matches!(
        Statement::parse(&mut tokens, &mut context),
        Err(Error::Lex(lex::Error::OpenEndedStringToken))
    ));
    assert_eq!(tokens.next(), None);
}

#[test]
fn error_from_lexical_error() {
    assert_eq!(
        Error::from(lex::Error::OpenEndedStringToken),
        Error::Lex(lex::Error::OpenEndedStringToken)
    );
    assert_eq!(
        Error::from(lex::Error::InvalidNumberToken),
        Error::Lex(lex::Error::InvalidNumberToken)
    );
}

#[test]
fn the_first_failing_field_is_the_error() {
    assert!(matches!(
        gb_lang::parse::<Let<U8, Number>>("let 1::u8 = 42;"),
        Err(Error::UnexpectedToken(Token::Number(_)))
    ));
    assert!(matches!(
        gb_lang::parse::<Let<U8, Number>>("let foo:u8 = 42;"),
        Err(Error::UnexpectedToken(Token::Colon(_)))
    ));
    assert!(matches!(
        gb_lang::parse::<Let<U8, Number>>("let foo::ptr = 42;"),
        Err(Error::UnexpectedToken(Token::Ptr(_)))
    ));
    assert!(matches!(
        gb_lang::parse::<Let<U8, Number>>("let foo::u8 == 42;"),
        Err(Error::UnexpectedToken(Token::EqualsEquals(_)))
    ));
    assert!(matches!(
        gb_lang::parse::<Let<U8, Number>>("let foo::u8 = x;"),
        Err(Error::UnexpectedToken(Token::Identifier(_)))
    ));
    assert!(matches!(
        gb_lang::parse::<Let<U8, Number>>("let foo::u8 = 42"),
        Err(Error::UnexpectedToken(Token::EOF(_)))
    ));
    assert!(matches!(
        gb_lang::parse::<Const<U8>>("const FOO::u8 = 1;"),
        Err(Error::UnexpectedToken(Token::Equals(_)))
    ));
}

#[test]
fn expression_variants_by_the_first_token() {
    assert!(matches!(
        gb_lang::parse::<Expression>("42").unwrap(),
        Expression::Number(_)
    ));
    assert!(matches!(
        gb_lang::parse::<Expression>("\"text\"").unwrap(),
        Expression::Str(_)
    ));
    assert!(matches!(
        gb_lang::parse::<Expression>("name").unwrap(),
        Expression::Identifier(_)
    ));
    assert!(matches!(
        gb_lang::parse::<Expression>("+"),
        Err(Error::UnexpectedToken(Token::Plus(_)))
    ));
    assert!(matches!(
        gb_lang::parse::<Expression>("let"),
        Err(Error::UnexpectedToken(Token::Let(_)))
    ));
}

#[test]
fn parenthesis_holds_an_expression() {
    let input = "(1)";
    let mut tokens = tokenize(input);
    let mut context = Context::default();
    match Expression::parse(&mut tokens, &mut context).unwrap() {
        Expression::Parenthesis(node) => {
            assert!(matches!(*node.inner, Expression::Number(_)));
            assert_eq!(node.par_left.inner, input);
            assert_eq!(node.par_right.inner, input);
        }
        other => panic!("{:?}", other),
    }
    assert!(matches!(tokens.next(), Some(Ok(Token::EOF(_)))));
    match gb_lang::parse::<Expression>("((x))").unwrap() {
        Expression::Parenthesis(outer) => match *outer.inner {
            Expression::Parenthesis(inner) => {
                assert!(matches!(*inner.inner, Expression::Identifier(_)))
            }
            other => panic!("{:?}", other),
        },
        other => panic!("{:?}", other),
    }
    assert!(matches!(
        gb_lang::parse::<Expression>("(1("),
        Err(Error::UnexpectedToken(Token::ParLeft(_)))
    ));
    assert!(matches!(
        gb_lang::parse::<Expression>("(1"),
        Err(Error::UnexpectedToken(Token::EOF(_)))
    ));
    assert!(matches!(
        gb_lang::parse::<Expression>("()"),
        Err(Error::UnexpectedToken(Token::ParRight(_)))
    ));
    assert!(matches!(
        gb_lang::parse::<Expression>("("),
        Err(Error::TokenizerEmpty)
    ));
    gb_lang::parse::<Parenthesis<Number>>("(7)").unwrap();
}

#[test]
fn sequences_of_tokens() {
    let node = gb_lang::parse::<Vec<tokens::SemiColon>>(";;; ;x").unwrap();
    assert_eq!(node.len(), 4);
    let node = gb_lang::parse::<Vec<tokens::SemiColon>>("x;").unwrap();
    assert!(node.is_empty());
    let node = gb_lang::parse::<Scope<Vec<tokens::Identifier>>>("{ a b # c }").unwrap();
    assert_eq!(node.inner.len(), 4);
    let node = gb_lang::parse::<Vec<tokens::Number>>("1 2 3").unwrap();
    assert_eq!(node.len(), 3);
    // The end of the input is taken once, and the stream has ended with it.
    let node = gb_lang::parse::<Vec<tokens::EOF>>("").unwrap();
    assert_eq!(node.len(), 1);
    let node = gb_lang::parse::<Vec<Statement>>("break; continue; }").unwrap();
    assert_eq!(node.len(), 2);
    assert!(matches!(
        gb_lang::parse::<Vec<Statement>>("break; let }"),
        Err(Error::UnexpectedToken(Token::CurlyRight(_)))
    ));
    // What follows the sequence is left on the stream.
    let mut tokens = tokenize(";; break;");
    let mut context = Context::default();
    let node = Vec::<tokens::SemiColon>::parse(&mut tokens, &mut context).unwrap();
    assert_eq!(node.len(), 2);
    assert!(matches!(tokens.next(), Some(Ok(Token::Break(_)))));
}

#[test]
fn operator_nodes_parse_as_their_own_types() {
    gb_lang::parse::<Add<Number, Number>>("1 + 2").unwrap();
    gb_lang::parse::<Add<Number, Add<Identifier, Str>>>("1 + x + \"s\"").unwrap();
    gb_lang::parse::<Index<Identifier, Number>>("a[0]").unwrap();
    gb_lang::parse::<Call<Identifier>>("f()").unwrap();
    gb_lang::parse::<Add<Box<Expression>, Box<Expression>>>("a + 1").unwrap();
    assert!(matches!(
        gb_lang::parse::<Add<Number, Number>>("1 - 2"),
        Err(Error::UnexpectedToken(Token::Minus(_)))
    ));
    // Parsing an `Expression` stops behind the first operand.
    let mut tokens = tokenize("1 + 2");
    let mut context = Context::default();
    assert!(matches!(
        Expression::parse(&mut tokens, &mut context).unwrap(),
        Expression::Number(_)
    ));
    assert!(matches!(tokens.next(), Some(Ok(Token::Plus(_)))));
}

#[test]
fn type_variants_by_the_first_token() {
    assert!(matches!(gb_lang::parse::<Type>("u8").unwrap(), Type::U8(_)));
    assert!(matches!(
        gb_lang::parse::<Type>("array<u8, 4>").unwrap(),
        Type::Array(_)
    ));
    assert!(matches!(gb_lang::parse::<Type>("ptr<u8>").unwrap(), Type::Ptr(_)));
    assert!(matches!(
        gb_lang::parse::<Type>("struct {}").unwrap(),
        Type::Struct(_)
    ));
    match gb_lang::parse::<Type>("ptr<array<ptr<u8>, 4>>").unwrap() {
        Type::Ptr(ptr) => match *ptr.type_ {
            Type::Array(array) => match *array.type_ {
                Type::Ptr(inner) => assert!(matches!(*inner.type_, Type::U8(_))),
                other => panic!("{:?}", other),
            },
            other => panic!("{:?}", other),
        },
        other => panic!("{:?}", other),
    }
    assert!(matches!(
        gb_lang::parse::<Type>("x"),
        Err(Error::UnexpectedToken(Token::Identifier(_)))
    ));
    assert!(matches!(
        gb_lang::parse::<Type>("array<u8 4>"),
        Err(Error::UnexpectedToken(Token::Number(_)))
    ));
    assert!(matches!(
        gb_lang::parse::<Type>("ptr<u8"),
        Err(Error::UnexpectedToken(Token::EOF(_)))
    ));
    gb_lang::parse::<Ptr<Array<U8>>>("ptr<array<u8, 2>>").unwrap();
    gb_lang::parse::<Struct>("struct{}").unwrap();
    gb_lang::parse::<Array<Box<Type>>>("array<struct {}, 0>").unwrap();
}

#[test]
fn statement_variants_by_the_first_token() {
    assert!(matches!(
        gb_lang::parse::<Statement>("let a::u8 = 1;").unwrap(),
        Statement::Let(_)
    ));
    assert!(matches!(
        gb_lang::parse::<Statement>("const A::u8;").unwrap(),
        Statement::Const(_)
    ));
    assert!(matches!(
        gb_lang::parse::<Statement>("static A::u8 = x;").unwrap(),
        Statement::Static(_)
    ));
    assert!(matches!(
        gb_lang::parse::<Statement>("{ }").unwrap(),
        Statement::Scope(_)
    ));
    assert!(matches!(
        gb_lang::parse::<Statement>("if x break;").unwrap(),
        Statement::If(_)
    ));
    assert!(matches!(
        gb_lang::parse::<Statement>("loop break;").unwrap(),
        Statement::Loop(_)
    ));
    assert!(matches!(
        gb_lang::parse::<Statement>("while 1 continue;").unwrap(),
        Statement::While(_)
    ));
    assert!(matches!(
        gb_lang::parse::<Statement>("continue;").unwrap(),
        Statement::Continue(_)
    ));
    assert!(matches!(
        gb_lang::parse::<Statement>("break;").unwrap(),
        Statement::Break(_)
    ));
    for input in ["x", "1", "}", "else", "u8", "=", "\"s\"", "#"] {
        assert!(matches!(
            gb_lang::parse::<Statement>(input),
            Err(Error::UnexpectedToken(_))
        ));
    }
}

#[test]
fn bodies_take_the_statements_that_follow_one_another() {
    match gb_lang::parse::<Statement>("loop break; continue; let a::u8 = 1; } break;").unwrap() {
        Statement::Loop(node) => {
            assert_eq!(node.inner.len(), 3);
            assert!(matches!(node.inner[0], Statement::Break(_)));
            assert!(matches!(node.inner[1], Statement::Continue(_)));
            assert!(matches!(node.inner[2], Statement::Let(_)));
        }
        other => panic!("{:?}", other),
    }
    match gb_lang::parse::<Statement>("if 1").unwrap() {
        Statement::If(node) => assert!(node.inner.is_empty()),
        other => panic!("{:?}", other),
    }
    match gb_lang::parse::<Statement>("while x { break; } break;").unwrap() {
        Statement::While(node) => {
            assert_eq!(node.inner.len(), 2);
            assert!(matches!(node.inner[0], Statement::Scope(_)));
            assert!(matches!(node.inner[1], Statement::Break(_)));
        }
        other => panic!("{:?}", other),
    }
    // An error inside a body is the error of the whole.
    assert!(matches!(
        gb_lang::parse::<Statement>("{ break; let 1 }"),
        Err(Error::UnexpectedToken(Token::Number(_)))
    ));
    assert!(matches!(
        gb_lang::parse::<Statement>("{ break; "),
        Err(Error::UnexpectedToken(Token::EOF(_)))
    ));
}

#[test]
fn optional_statement_is_absent_without_consuming() {
    let mut context = Context::default();
    for input in ["}", ";", "x", "", "\"open", "1 break;"] {
        let mut tokens = tokenize(input);
        let before = tokens.peek();
        let r = Option::<Statement>::parse(&mut tokens, &mut context);
        assert!(matches!(r, Ok(None)), "{:?}", input);
        assert_eq!(tokens.next(), before);
    }
    let mut tokens = tokenize("break; }");
    assert!(matches!(
        Option::<Statement>::parse(&mut tokens, &mut context),
        Ok(Some(Statement::Break(_)))
    ));
    assert!(matches!(tokens.next(), Some(Ok(Token::CurlyRight(_)))));
    let mut tokens = tokenize("break }");
    assert!(matches!(
        Option::<Statement>::parse(&mut tokens, &mut context),
        Err(Error::UnexpectedToken(Token::CurlyRight(_)))
    ));
}

#[test]
fn optional_token_is_taken_only_where_it_is_there() {
    let mut context = Context::default();
    let mut tokens = tokenize("; x");
    assert!(matches!(
        Option::<tokens::SemiColon>::parse(&mut tokens, &mut context),
        Ok(Some(_))
    ));
    assert!(matches!(
        Option::<tokens::SemiColon>::parse(&mut tokens, &mut context),
        Ok(None)
    ));
    assert!(matches!(
        Option::<tokens::Let>::parse(&mut tokens, &mut context),
        Ok(None)
    ));
    assert!(matches!(tokens.next(), Some(Ok(Token::Identifier(_)))));
    assert!(matches!(
        Option::<tokens::EOF>::parse(&mut tokens, &mut context),
        Ok(Some(_))
    ));
    assert!(matches!(
        Option::<tokens::EOF>::parse(&mut tokens, &mut context),
        Ok(None)
    ));
    let mut tokens = tokenize("\"open");
    assert!(matches!(
        Option::<tokens::Str>::parse(&mut tokens, &mut context),
        Ok(None)
    ));
    assert_eq!(tokens.next(), Some(Err(lex::Error::OpenEndedStringToken)));
}

#[test]
fn required_token_of_every_group() {
    let mut context = Context::default();
    let mut tokens = tokenize("name 12 \"s\" while >= ]");
    tokens::Identifier::parse(&mut tokens, &mut context).unwrap();
    tokens::Number::parse(&mut tokens, &mut context).unwrap();
    tokens::Str::parse(&mut tokens, &mut context).unwrap();
    tokens::While::parse(&mut tokens, &mut context).unwrap();
    tokens::GreaterEqualsThan::parse(&mut tokens, &mut context).unwrap();
    tokens::SquareRight::parse(&mut tokens, &mut context).unwrap();
    tokens::EOF::parse(&mut tokens, &mut context).unwrap();
    assert!(matches!(
        tokens::EOF::parse(&mut tokens, &mut context),
        Err(Error::TokenizerEmpty)
    ));
}

#[test]
fn boxed_and_empty_nodes() {
    let node = gb_lang::parse::<Box<Break>>("break;").unwrap();
    assert_eq!(node.break_.inner, "break;");
    gb_lang::parse::<()>("anything").unwrap();
    gb_lang::parse::<Loop<()>>("loop").unwrap();
    gb_lang::parse::<Loop<Box<Statement>>>("loop loop break;").unwrap();
}

#[test]
fn parse_leaves_what_follows_the_node() {
    gb_lang::parse::<Break>("break; break; nonsense \"").unwrap();
    gb_lang::parse::<U8>("u8 u8").unwrap();
}

#[test]
fn variants_parse_as_their_product_nodes() {
    let input = "{ let a::u8 = 1; loop { break; } }";
    let node = gb_lang::parse::<Scope<Vec<Statement>>>(input).unwrap();
    match gb_lang::parse::<Statement>(input).unwrap() {
        Statement::Scope(scope) => assert_eq!(format!("{:?}", scope), format!("{:?}", node)),
        other => panic!("{:?}", other),
    }
    let input = "if (x) break; continue;";
    let node = gb_lang::parse::<If<Expression, Vec<Statement>>>(input).unwrap();
    match gb_lang::parse::<Statement>(input).unwrap() {
        Statement::If(if_) => assert_eq!(format!("{:?}", if_), format!("{:?}", node)),
        other => panic!("{:?}", other),
    }
    let input = "while 1 { }";
    let node = gb_lang::parse::<While<Expression, Vec<Statement>>>(input).unwrap();
    match gb_lang::parse::<Statement>(input).unwrap() {
        Statement::While(while_) => assert_eq!(format!("{:?}", while_), format!("{:?}", node)),
        other => panic!("{:?}", other),
    }
    let input = "loop loop loop";
    let node = gb_lang::parse::<Loop<Vec<Statement>>>(input).unwrap();
    match gb_lang::parse::<Statement>(input).unwrap() {
        Statement::Loop(loop_) => assert_eq!(format!("{:?}", loop_), format!("{:?}", node)),
        other => panic!("{:?}", other),
    }
    let input = "array<ptr<u8>, 16>";
    let node = gb_lang::parse::<Array<Box<Type>>>(input).unwrap();
    match gb_lang::parse::<Type>(input).unwrap() {
        Type::Array(array) => assert_eq!(format!("{:?}", array), format!("{:?}", node)),
        other => panic!("{:?}", other),
    }
    let input = "ptr<struct {}>";
    let node = gb_lang::parse::<Ptr<Box<Type>>>(input).unwrap();
    match gb_lang::parse::<Type>(input).unwrap() {
        Type::Ptr(ptr) => assert_eq!(format!("{:?}", ptr), format!("{:?}", node)),
        other => panic!("{:?}", other),
    }
    let input = "((7))";
    let node = gb_lang::parse::<Parenthesis<Box<Expression>>>(input).unwrap();
    match gb_lang::parse::<Expression>(input).unwrap() {
        Expression::Parenthesis(par) => assert_eq!(format!("{:?}", par), format!("{:?}", node)),
        other => panic!("{:?}", other),
    }
    // The same error comes from both.
    for input in ["{ let }", "{ break; ", "{ \"open"] {
        assert_eq!(
            format!("{:?}", gb_lang::parse::<Statement>(input).err()),
            format!("{:?}", gb_lang::parse::<Scope<Vec<Statement>>>(input).err())
        );
    }
}

#[test]
fn context_is_made_by_default() {
    let mut context = Context::default();
    let mut tokens = tokenize("break; break;");
    Break::parse(&mut tokens, &mut context).unwrap();
    Break::parse(&mut tokens, &mut context).unwrap();
}
