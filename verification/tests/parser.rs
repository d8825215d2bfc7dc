use trunk_parser::Expression;
use trunk_parser::InfixOp;
use trunk_parser::MethodFlag;
use trunk_parser::Param;
use trunk_parser::ParseError;
use trunk_parser::Parser;
use trunk_parser::Statement;
use trunk_parser::Token;
use trunk_parser::TokenKind;

fn t(kind: TokenKind) -> Token {
    Token::new(kind)
}

fn open_tag() -> Token {
    t(TokenKind::OpenTag("<?php".to_string()))
}

fn ident(name: &str) -> Token {
    t(TokenKind::Identifier(name.to_string()))
}

fn var(name: &str) -> Token {
    t(TokenKind::Variable(name.to_string()))
}

fn lit(i: i64) -> Token {
    t(TokenKind::Int(i))
}

fn param(name: &str) -> Param {
    Param::from(name.to_string())
}

fn assert_ast(tokens: Vec<Token>, expected: &[Statement]) {
    let parser = Parser::new();
    let ast = parser.parse(tokens).unwrap();
    assert_eq!(format!("{:?}", ast), format!("{:?}", expected));
}

fn parse_err(tokens: Vec<Token>) -> ParseError {
    Parser::new().parse(tokens).unwrap_err()
}

// `function foo() {}`
#[test]
fn empty_fn() {
    assert_ast(
        vec![
            open_tag(),
            t(TokenKind::Function),
            ident("foo"),
            t(TokenKind::LeftParen),
            t(TokenKind::RightParen),
            t(TokenKind::LeftBrace),
            t(TokenKind::RightBrace),
        ],
        &[Statement::Function { name: "foo".to_string().into(), params: vec![], body: vec![] }],
    );
}

// `function foo($n) {}` and `function foo($n, $m) {}`
#[test]
fn empty_fn_with_params() {
    assert_ast(
        vec![
            open_tag(),
            t(TokenKind::Function),
            ident("foo"),
            t(TokenKind::LeftParen),
            var("n"),
            t(TokenKind::RightParen),
            t(TokenKind::LeftBrace),
            t(TokenKind::RightBrace),
        ],
        &[Statement::Function {
            name: "foo".to_string().into(),
            params: vec![param("n")],
            body: vec![],
        }],
    );

    assert_ast(
        vec![
            open_tag(),
            t(TokenKind::Function),
            ident("foo"),
            t(TokenKind::LeftParen),
            var("n"),
            t(TokenKind::Comma),
            var("m"),
            t(TokenKind::RightParen),
            t(TokenKind::LeftBrace),
            t(TokenKind::RightBrace),
        ],
        &[Statement::Function {
            name: "foo".to_string().into(),
            params: vec![param("n"), param("m")],
            body: vec![],
        }],
    );
}

// `function fib($n) { if ($n < 2) { return $n; } return fib($n - 1) + fib($n - 2); }`
#[test]
fn fib() {
    let tokens = vec![
        open_tag(),
        t(TokenKind::Function),
        ident("fib"),
        t(TokenKind::LeftParen),
        var("n"),
        t(TokenKind::RightParen),
        t(TokenKind::LeftBrace),
        t(TokenKind::If),
        t(TokenKind::LeftParen),
        var("n"),
        t(TokenKind::LessThan),
        lit(2),
        t(TokenKind::RightParen),
        t(TokenKind::LeftBrace),
        t(TokenKind::Return),
        var("n"),
        t(TokenKind::SemiColon),
        t(TokenKind::RightBrace),
        t(TokenKind::Return),
        ident("fib"),
        t(TokenKind::LeftParen),
        var("n"),
        t(TokenKind::Minus),
        lit(1),
        t(TokenKind::RightParen),
        t(TokenKind::Plus),
        ident("fib"),
        t(TokenKind::LeftParen),
        var("n"),
        t(TokenKind::Minus),
        lit(2),
        t(TokenKind::RightParen),
        t(TokenKind::SemiColon),
        t(TokenKind::RightBrace),
    ];

    assert_ast(
        tokens,
        &[Statement::Function {
            name: "fib".to_string().into(),
            params: vec![param("n")],
            body: vec![
                Statement::If {
                    condition: Expression::Infix(
                        Box::new(Expression::Variable("n".into())),
                        InfixOp::LessThan,
                        Box::new(Expression::Int(2)),
                    ),
                    then: vec![Statement::Return {
                        value: Some(Expression::Variable("n".into())),
                    }],
                },
                Statement::Return {
                    value: Some(Expression::Infix(
                        Box::new(Expression::Call(
                            Box::new(Expression::Identifier("fib".into())),
                            vec![Expression::Infix(
                                Box::new(Expression::Variable("n".into())),
                                InfixOp::Sub,
                                Box::new(Expression::Int(1)),
                            )],
                        )),
                        InfixOp::Add,
                        Box::new(Expression::Call(
                            Box::new(Expression::Identifier("fib".into())),
                            vec![Expression::Infix(
                                Box::new(Expression::Variable("n".into())),
                                InfixOp::Sub,
                                Box::new(Expression::Int(2)),
                            )],
                        )),
                    )),
                },
            ],
        }],
    );
}

// `echo 1;`
#[test]
fn echo() {
    assert_ast(
        vec![open_tag(), t(TokenKind::Echo), lit(1), t(TokenKind::SemiColon)],
        &[Statement::Echo { values: vec![Expression::Int(1)] }],
    );
}

// `class Foo {}`
#[test]
fn empty_class() {
    assert_ast(
        vec![
            open_tag(),
            t(TokenKind::Class),
            ident("Foo"),
            t(TokenKind::LeftBrace),
            t(TokenKind::RightBrace),
        ],
        &[Statement::Class {
            name: "Foo".to_string().into(),
            extends: None,
            implements: vec![],
            body: vec![],
            flag: None,
        }],
    );
}

// `class Foo { function bar() { echo 1; } }`
#[test]
fn class_with_basic_method() {
    assert_ast(
        vec![
            open_tag(),
            t(TokenKind::Class),
            ident("Foo"),
            t(TokenKind::LeftBrace),
            t(TokenKind::Function),
            ident("bar"),
            t(TokenKind::LeftParen),
            t(TokenKind::RightParen),
            t(TokenKind::LeftBrace),
            t(TokenKind::Echo),
            lit(1),
            t(TokenKind::SemiColon),
            t(TokenKind::RightBrace),
            t(TokenKind::RightBrace),
        ],
        &[Statement::Class {
            name: "Foo".to_string().into(),
            extends: None,
            implements: vec![],
            body: vec![Statement::Method {
                name: "bar".to_string().into(),
                params: vec![],
                body: vec![Statement::Echo { values: vec![Expression::Int(1)] }],
                flags: vec![],
            }],
            flag: None,
        }],
    );
}

// `class Foo { public function bar() { echo 1; } private static function baz() {} }`
#[test]
fn class_with_method_visibility() {
    assert_ast(
        vec![
            open_tag(),
            t(TokenKind::Class),
            ident("Foo"),
            t(TokenKind::LeftBrace),
            t(TokenKind::Public),
            t(TokenKind::Function),
            ident("bar"),
            t(TokenKind::LeftParen),
            t(TokenKind::RightParen),
            t(TokenKind::LeftBrace),
            t(TokenKind::Echo),
            lit(1),
            t(TokenKind::SemiColon),
            t(TokenKind::RightBrace),
            t(TokenKind::Private),
            t(TokenKind::Static),
            t(TokenKind::Function),
            ident("baz"),
            t(TokenKind::LeftParen),
            t(TokenKind::RightParen),
            t(TokenKind::LeftBrace),
            t(TokenKind::RightBrace),
            t(TokenKind::RightBrace),
        ],
        &[Statement::Class {
            name: "Foo".to_string().into(),
            extends: None,
            implements: vec![],
            body: vec![
                Statement::Method {
                    name: "bar".to_string().into(),
                    params: vec![],
                    body: vec![Statement::Echo { values: vec![Expression::Int(1)] }],
                    flags: vec![MethodFlag::Public],
                },
                Statement::Method {
                    name: "baz".to_string().into(),
                    params: vec![],
                    body: vec![],
                    flags: vec![MethodFlag::Private, MethodFlag::Static],
                },
            ],
            flag: None,
        }],
    );
}
