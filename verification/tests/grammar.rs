use trunk_parser::Expression;
use trunk_parser::InfixOp;
use trunk_parser::Param;
use trunk_parser::ParseError;
use trunk_parser::Parser;
use trunk_parser::PropertyFlag;
use trunk_parser::Statement;
use trunk_parser::Token;
use trunk_parser::TokenKind;

fn t(kind: TokenKind) -> Token {
    Token::new(kind)
}

fn ident(name: &str) -> Token {
    t(TokenKind::Identifier(name.to_string()))
}

fn var(name: &str) -> Token {
    t(TokenKind::Variable(name.to_string()))
}

fn lit(i: i64) -> Token {
    t(TokenKind::Int(i))
}

fn assert_ast(tokens: Vec<Token>, expected: &[Statement]) {
    let ast = Parser::new().parse(tokens).unwrap();
    assert_eq!(format!("{:?}", ast), format!("{:?}", expected));
}

fn parse_err(tokens: Vec<Token>) -> ParseError {
    Parser::new().parse(tokens).unwrap_err()
}

#[test]
fn empty_input_parses_to_empty_program() {
    let ast = Parser::new().parse(vec![]).unwrap();
    assert!(ast.is_empty());

    let ast = Parser::new().parse(vec![t(TokenKind::OpenTag("<?php".to_string()))]).unwrap();
    assert!(ast.is_empty());
}

#[test]
fn inline_html_passes_through() {
    assert_ast(
        vec![t(TokenKind::InlineHtml("<h1>hello</h1>".to_string()))],
        &[Statement::InlineHtml("<h1>hello</h1>".to_string())],
    );
}

// `return;` and `return 1;`
#[test]
fn return_with_and_without_value() {
    assert_ast(
        vec![t(TokenKind::Return), t(TokenKind::SemiColon)],
        &[Statement::Return { value: None }],
    );
    assert_ast(
        vec![t(TokenKind::Return), lit(1), t(TokenKind::SemiColon)],
        &[Statement::Return { value: Some(Expression::Int(1)) }],
    );
}

// `echo 1, 2;` and the tolerated trailing comma `echo 1,;`
#[test]
fn echo_value_lists() {
    assert_ast(
        vec![t(TokenKind::Echo), lit(1), t(TokenKind::Comma), lit(2), t(TokenKind::SemiColon)],
        &[Statement::Echo { values: vec![Expression::Int(1), Expression::Int(2)] }],
    );
    assert_ast(
        vec![t(TokenKind::Echo), lit(1), t(TokenKind::Comma), t(TokenKind::SemiColon)],
        &[Statement::Echo { values: vec![Expression::Int(1)] }],
    );
}

// `echo 1 - 2 + 3;` associates as `(1 - 2) + 3`
#[test]
fn additive_operators_are_left_associative() {
    assert_ast(
        vec![
            t(TokenKind::Echo),
            lit(1),
            t(TokenKind::Minus),
            lit(2),
            t(TokenKind::Plus),
            lit(3),
            t(TokenKind::SemiColon),
        ],
        &[Statement::Echo {
            values: vec![Expression::Infix(
                Box::new(Expression::Infix(
                    Box::new(Expression::Int(1)),
                    InfixOp::Sub,
                    Box::new(Expression::Int(2)),
                )),
                InfixOp::Add,
                Box::new(Expression::Int(3)),
            )],
        }],
    );
}

// `echo 1 < 2 + 3;` groups as `1 < (2 + 3)`
#[test]
fn comparison_binds_looser_than_addition() {
    assert_ast(
        vec![
            t(TokenKind::Echo),
            lit(1),
            t(TokenKind::LessThan),
            lit(2),
            t(TokenKind::Plus),
            lit(3),
            t(TokenKind::SemiColon),
        ],
        &[Statement::Echo {
            values: vec![Expression::Infix(
                Box::new(Expression::Int(1)),
                InfixOp::LessThan,
                Box::new(Expression::Infix(
                    Box::new(Expression::Int(2)),
                    InfixOp::Add,
                    Box::new(Expression::Int(3)),
                )),
            )],
        }],
    );
}

// `echo f(1) + 2;` groups as `(f(1)) + 2`
#[test]
fn call_binds_tighter_than_addition() {
    assert_ast(
        vec![
            t(TokenKind::Echo),
            ident("f"),
            t(TokenKind::LeftParen),
            lit(1),
            t(TokenKind::RightParen),
            t(TokenKind::Plus),
            lit(2),
            t(TokenKind::SemiColon),
        ],
        &[Statement::Echo {
            values: vec![Expression::Infix(
                Box::new(Expression::Call(
                    Box::new(Expression::Identifier("f".to_string())),
                    vec![Expression::Int(1)],
                )),
                InfixOp::Add,
                Box::new(Expression::Int(2)),
            )],
        }],
    );
}

// `function f(int $a = 1, &$b, ...$c, private $d) {}`
#[test]
fn parameter_list_forms() {
    assert_ast(
        vec![
            t(TokenKind::Function),
            ident("f"),
            t(TokenKind::LeftParen),
            ident("int"),
            var("a"),
            t(TokenKind::Equals),
            lit(1),
            t(TokenKind::Comma),
            t(TokenKind::Ampersand),
            var("b"),
            t(TokenKind::Comma),
            t(TokenKind::Ellipsis),
            var("c"),
            t(TokenKind::Comma),
            t(TokenKind::Private),
            var("d"),
            t(TokenKind::RightParen),
            t(TokenKind::LeftBrace),
            t(TokenKind::RightBrace),
        ],
        &[Statement::Function {
            name: "f".to_string().into(),
            params: vec![
                Param {
                    name: Expression::Variable("a".to_string()),
                    ty: Some("int".to_string()),
                    variadic: false,
                    by_ref: false,
                    default: Some(Expression::Int(1)),
                    flag: None,
                },
                Param {
                    name: Expression::Variable("b".to_string()),
                    ty: None,
                    variadic: false,
                    by_ref: true,
                    default: None,
                    flag: None,
                },
                Param {
                    name: Expression::Variable("c".to_string()),
                    ty: None,
                    variadic: true,
                    by_ref: false,
                    default: None,
                    flag: None,
                },
                Param {
                    name: Expression::Variable("d".to_string()),
                    ty: None,
                    variadic: false,
                    by_ref: false,
                    default: None,
                    flag: Some(PropertyFlag::Private),
                },
            ],
            body: vec![],
        }],
    );
}

// `class Foo { echo 1; }` is rejected: class bodies hold only methods
#[test]
fn class_body_rejects_other_statements() {
    let err = parse_err(vec![
        t(TokenKind::Class),
        ident("Foo"),
        t(TokenKind::LeftBrace),
        t(TokenKind::Echo),
        lit(1),
        t(TokenKind::SemiColon),
        t(TokenKind::RightBrace),
    ]);
    assert!(matches!(err, ParseError::InvalidClassStatement(_)));
}

// modifiers followed by anything but a function are rejected
#[test]
fn modifiers_require_a_function() {
    let err = parse_err(vec![
        t(TokenKind::Private),
        t(TokenKind::Static),
        t(TokenKind::Echo),
        lit(1),
        t(TokenKind::SemiColon),
    ]);
    assert!(matches!(err, ParseError::InvalidClassStatement(_)));
}

// an expression that starts at the end of the input
#[test]
fn expression_at_end_of_input() {
    let err = parse_err(vec![t(TokenKind::Echo)]);
    assert!(matches!(err, ParseError::UnexpectedEndOfFile));

    let err = parse_err(vec![t(TokenKind::Return)]);
    assert!(matches!(err, ParseError::UnexpectedEndOfFile));
}

// a block whose closing brace never comes
#[test]
fn block_missing_its_terminator() {
    let err = parse_err(vec![
        t(TokenKind::Function),
        ident("f"),
        t(TokenKind::LeftParen),
        t(TokenKind::RightParen),
        t(TokenKind::LeftBrace),
    ]);
    assert!(matches!(err, ParseError::ExpectedToken(_)));
}

// a token no statement form handles
#[test]
fn unhandled_leading_token() {
    let err = parse_err(vec![t(TokenKind::Comma)]);
    assert!(matches!(err, ParseError::ExpectedToken(_)));
}

// `echo 1` without its semicolon
#[test]
fn echo_missing_semicolon() {
    let err = parse_err(vec![t(TokenKind::Echo), lit(1)]);
    assert!(matches!(err, ParseError::ExpectedToken(_)));
}

// a failure inside a return value propagates
#[test]
fn return_value_errors_propagate() {
    let err = parse_err(vec![t(TokenKind::Return), t(TokenKind::Comma), t(TokenKind::SemiColon)]);
    assert!(matches!(err, ParseError::ExpectedToken(_)));
}

// a parameter list missing its variable
#[test]
fn parameter_missing_variable() {
    let err = parse_err(vec![
        t(TokenKind::Function),
        ident("f"),
        t(TokenKind::LeftParen),
        ident("int"),
        t(TokenKind::RightParen),
        t(TokenKind::LeftBrace),
        t(TokenKind::RightBrace),
    ]);
    assert!(matches!(err, ParseError::ExpectedToken(_)));
}

// `if` without braces is unsupported
#[test]
fn if_requires_braces() {
    let err = parse_err(vec![
        t(TokenKind::If),
        t(TokenKind::LeftParen),
        lit(1),
        t(TokenKind::RightParen),
        t(TokenKind::Echo),
        lit(1),
        t(TokenKind::SemiColon),
    ]);
    assert!(matches!(err, ParseError::ExpectedToken(_)));
}
