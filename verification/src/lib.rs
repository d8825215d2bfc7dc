//! Syntactic front end for a small PHP-like language: a recursive-descent
//! parser turning a token stream into an abstract syntax tree, together
//! with a functional model of the grammar that every parsing function is
//! proved to implement exactly.

pub mod ast;
pub mod laws;
pub mod model;
pub mod parser;
pub mod token;

pub use parser::ParseError;
pub use parser::Parser;

pub use ast::ArrayItem;
pub use ast::Block;
pub use ast::ClassFlag;
pub use ast::Expression;
pub use ast::Identifier;
pub use ast::InfixOp;
pub use ast::MethodFlag;
pub use ast::Param;
pub use ast::Program;
pub use ast::PropertyFlag;
pub use ast::Statement;
pub use token::Span;
pub use token::Token;
pub use token::TokenKind;
