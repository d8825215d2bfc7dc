use vstd::prelude::*;

verus! {

/// The kind of a lexical token. The parser dispatches purely on this
/// discriminant; payload-bearing kinds carry the lexeme's data.
#[derive(Debug, Clone, PartialEq)]
pub enum TokenKind {
    /// The opening code delimiter (for example `<?php`); skipped by the parser.
    OpenTag(String),
    /// Literal passthrough text outside the code delimiters.
    InlineHtml(String),
    If,
    Class,
    Function,
    Return,
    Echo,
    Public,
    Protected,
    Private,
    Static,
    LeftParen,
    RightParen,
    LeftBrace,
    RightBrace,
    SemiColon,
    Comma,
    Equals,
    Ampersand,
    Ellipsis,
    Plus,
    Minus,
    LessThan,
    /// A bare name, such as a function or class name.
    Identifier(String),
    /// A `$`-prefixed variable name, without the `$`.
    Variable(String),
    /// An integer literal.
    Int(i64),
}

/// A source position carried through from the lexer: opaque passthrough
/// metadata that the parser never reads.
#[derive(Debug, Clone, Copy, PartialEq, Eq)]
pub struct Span {
    pub line: usize,
    pub column: usize,
}

/// A classified lexical unit.
#[derive(Debug, Clone, PartialEq)]
pub struct Token {
    pub kind: TokenKind,
    pub span: Span,
}

impl Token {
    /// Builds a token with an empty span, for callers that have no
    /// position metadata.
    pub fn new(kind: TokenKind) -> (t: Token)
        ensures
            t.kind == kind,
    {
        Token { kind, span: Span { line: 0, column: 0 } }
    }
}

} // verus!
