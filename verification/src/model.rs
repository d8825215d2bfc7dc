//! The functional model of the grammar: spec functions that define, over a
//! sequence of tokens and a cursor position, exactly which abstract syntax
//! tree and final position every parsing routine must produce. The
//! executable parser is proved equal to this model.

use vstd::prelude::*;

use crate::ast::ClassFlag;
use crate::ast::ExpressionView;
use crate::ast::MethodFlag;
use crate::ast::ParamView;
use crate::ast::PropertyFlag;
use crate::ast::StatementView;
use crate::ast::InfixOp;
use crate::token::Token;
use crate::token::TokenKind;

verus! {

/// The closed error taxonomy, without the diagnostic message text.
pub enum ParseErrorView {
    /// A required token or structure was missing or mismatched.
    ExpectedToken,
    /// Input was exhausted in the middle of an expression.
    UnexpectedEndOfFile,
    /// A statement kind not permitted inside a class body or after
    /// modifier keywords.
    InvalidClassStatement,
}

/// The outcome of one parsing step: the parsed value together with the
/// position just past its final consumed token, or the first error.
pub type ParseStep<T> = Result<(T, nat), ParseErrorView>;

/// Clamps a successor position into the range `(pos, n]`, so that each
/// recursive call of the model provably advances the cursor. Whenever
/// `pos < next <= n` — which the executable parser establishes for every
/// step it takes — this is the identity on `next`.
pub open spec fn clip(pos: nat, next: nat, n: nat) -> nat {
    if next <= pos {
        pos + 1
    } else if next > n {
        n
    } else {
        next
    }
}

/// Whether a token kind is a visibility or mutability modifier.
pub open spec fn is_modifier(k: TokenKind) -> bool {
    match k {
        TokenKind::Public => true,
        TokenKind::Protected => true,
        TokenKind::Private => true,
        TokenKind::Static => true,
        _ => false,
    }
}

/// The method flag a modifier token denotes. Only meaningful on the four
/// modifier kinds.
pub open spec fn spec_flag(k: TokenKind) -> MethodFlag {
    match k {
        TokenKind::Public => MethodFlag::Public,
        TokenKind::Protected => MethodFlag::Protected,
        TokenKind::Private => MethodFlag::Private,
        _ => MethodFlag::Static,
    }
}

/// The binding powers of the infix operators: `+` and `-` at (11, 12),
/// `<` at (9, 10). Left-associativity comes from the left power being
/// below the right one. This table, with its postfix companion, is the
/// single source of truth for grammar precedence.
pub open spec fn spec_infix_binding_power(k: TokenKind) -> Option<(u8, u8)> {
    match k {
        TokenKind::Plus => Some((11u8, 12u8)),
        TokenKind::Minus => Some((11u8, 12u8)),
        TokenKind::LessThan => Some((9u8, 10u8)),
        _ => None,
    }
}

/// The binding power of the postfix operators: only the call-argument
/// list `(`, at 19, binding tighter than every infix operator.
pub open spec fn spec_postfix_binding_power(k: TokenKind) -> Option<u8> {
    match k {
        TokenKind::LeftParen => Some(19u8),
        _ => None,
    }
}

/// The infix operator a binary-operator token denotes. Only meaningful on
/// kinds that `spec_infix_binding_power` accepts.
pub open spec fn spec_infix_op(k: TokenKind) -> InfixOp {
    match k {
        TokenKind::Plus => InfixOp::Add,
        TokenKind::Minus => InfixOp::Sub,
        _ => InfixOp::LessThan,
    }
}

/// The primary (left-hand side) expression a single token yields: a
/// variable, an integer literal, or a bare identifier. Any other leading
/// token is an unhandled input.
pub open spec fn spec_primary(k: TokenKind) -> Result<ExpressionView, ParseErrorView> {
    match k {
        TokenKind::Variable(v) => Ok(ExpressionView::Variable(v@)),
        TokenKind::Int(i) => Ok(ExpressionView::Int(i)),
        TokenKind::Identifier(i) => Ok(ExpressionView::Identifier(i@)),
        _ => Err(ParseErrorView::ExpectedToken),
    }
}

/// Reclassifies a statement parsed inside a class body: a function
/// becomes a method with no flags, a method stays itself, and any other
/// statement kind is rejected.
pub open spec fn spec_as_method(s: StatementView) -> Option<StatementView> {
    match s {
        StatementView::Function { name, params, body } => Some(
            StatementView::Method { name, params, body, flags: seq![] },
        ),
        StatementView::Method { name, params, body, flags } => Some(
            StatementView::Method { name, params, body, flags },
        ),
        _ => None,
    }
}

/// Collects the maximal run of modifier tokens starting at `pos`, in
/// encounter order, and the position just past it.
pub open spec fn spec_modifiers(toks: Seq<Token>, pos: nat) -> (Seq<MethodFlag>, nat)
    decreases toks.len() - pos, 0nat,
{
    let n = toks.len();
    if pos < n && is_modifier(toks[pos as int].kind) {
        let (rest, q) = spec_modifiers(toks, pos + 1);
        (seq![spec_flag(toks[pos as int].kind)].add(rest), q)
    } else {
        (seq![], pos)
    }
}

/// One expression, parsed by precedence climbing at minimum binding power
/// `bp`: a primary followed by the operator loop.
pub open spec fn spec_expression(toks: Seq<Token>, pos: nat, bp: u8) -> ParseStep<ExpressionView>
    decreases toks.len() - pos, 0nat,
{
    let n = toks.len();
    if pos >= n {
        Err(ParseErrorView::UnexpectedEndOfFile)
    } else {
        match spec_primary(toks[pos as int].kind) {
            Err(e) => Err(e),
            Ok(lhs) => spec_expr_ops(toks, pos + 1, lhs, bp),
        }
    }
}

/// The operator loop of precedence climbing: starting from `lhs`, folds
/// in every following postfix or infix operator whose left binding power
/// reaches `bp`, and stops — without consuming — on end of input, on a
/// statement terminator, on an unregistered token, or on a weaker
/// operator.
pub open spec fn spec_expr_ops(
    toks: Seq<Token>,
    pos: nat,
    lhs: ExpressionView,
    bp: u8,
) -> ParseStep<ExpressionView>
    decreases toks.len() - pos, 1nat,
{
    let n = toks.len();
    if pos >= n {
        Ok((lhs, pos))
    } else {
        let k = toks[pos as int].kind;
        if (k matches TokenKind::SemiColon) {
            Ok((lhs, pos))
        } else {
            match spec_postfix_binding_power(k) {
                Some(lbp) => {
                    if lbp < bp {
                        Ok((lhs, pos))
                    } else {
                        // the only postfix operator is the call-argument list
                        match spec_call_args(toks, pos + 1) {
                            Err(e) => Err(e),
                            Ok((args, q0)) => spec_expr_ops(
                                toks,
                                clip(pos, q0, n),
                                ExpressionView::Call(Box::new(lhs), args),
                                bp,
                            ),
                        }
                    }
                },
                None => match spec_infix_binding_power(k) {
                    Some((lbp, rbp)) => {
                        if lbp < bp {
                            Ok((lhs, pos))
                        } else {
                            match spec_expression(toks, pos + 1, rbp) {
                                Err(e) => Err(e),
                                Ok((rhs, q0)) => spec_expr_ops(
                                    toks,
                                    clip(pos, q0, n),
                                    ExpressionView::Infix(
                                        Box::new(lhs),
                                        spec_infix_op(k),
                                        Box::new(rhs),
                                    ),
                                    bp,
                                ),
                            }
                        }
                    },
                    None => Ok((lhs, pos)),
                },
            }
        }
    }
}

/// The comma-separated argument list of a call, entered just after the
/// opening parenthesis; consumes the closing parenthesis.
pub open spec fn spec_call_args(toks: Seq<Token>, pos: nat) -> ParseStep<Seq<ExpressionView>>
    decreases toks.len() - pos, 3nat,
{
    let n = toks.len();
    if pos >= n {
        Err(ParseErrorView::ExpectedToken)
    } else if (toks[pos as int].kind matches TokenKind::RightParen) {
        Ok((seq![], pos + 1))
    } else {
        match spec_expression(toks, pos, 0) {
            Err(e) => Err(e),
            Ok((arg, q0)) => {
                let q = clip(pos, q0, n);
                let q2 = if q < n && (toks[q as int].kind matches TokenKind::Comma) {
                    (q + 1) as nat
                } else {
                    q
                };
                match spec_call_args(toks, q2) {
                    Err(e) => Err(e),
                    Ok((rest, r)) => Ok((seq![arg].add(rest), r)),
                }
            },
        }
    }
}

/// The non-empty comma-separated value list of an `echo` statement, up to
/// (not consuming) the terminating semicolon.
pub open spec fn spec_echo_values(toks: Seq<Token>, pos: nat) -> ParseStep<Seq<ExpressionView>>
    decreases toks.len() - pos, 3nat,
{
    let n = toks.len();
    if pos >= n {
        Err(ParseErrorView::UnexpectedEndOfFile)
    } else {
        match spec_expression(toks, pos, 0) {
            Err(e) => Err(e),
            Ok((v, q0)) => {
                let q = clip(pos, q0, n);
                let q2 = if q < n && (toks[q as int].kind matches TokenKind::Comma) {
                    (q + 1) as nat
                } else {
                    q
                };
                if q2 < n && !(toks[q2 as int].kind matches TokenKind::SemiColon) {
                    match spec_echo_values(toks, q2) {
                        Err(e) => Err(e),
                        Ok((rest, r)) => Ok((seq![v].add(rest), r)),
                    }
                } else {
                    Ok((seq![v], q2))
                }
            },
        }
    }
}

/// One parameter of a parameter list: optional promotion flag, optional
/// type annotation, optional spread or by-reference marker, the mandatory
/// variable, and an optional default value.
pub open spec fn spec_param(toks: Seq<Token>, pos: nat) -> ParseStep<ParamView>
    decreases toks.len() - pos, 1nat,
{
    let n = toks.len();
    if pos >= n {
        Err(ParseErrorView::ExpectedToken)
    } else {
        let (flag, q1) = match toks[pos as int].kind {
            TokenKind::Public => (Some(PropertyFlag::Public), pos + 1),
            TokenKind::Protected => (Some(PropertyFlag::Protected), pos + 1),
            TokenKind::Private => (Some(PropertyFlag::Private), pos + 1),
            _ => (None, pos),
        };
        if q1 >= n {
            Err(ParseErrorView::ExpectedToken)
        } else {
            // a type annotation is attempted whenever the current token is
            // not the variable itself nor a spread or by-reference marker
            let skip_type = (toks[q1 as int].kind matches TokenKind::Variable(_))
                || (toks[q1 as int].kind matches TokenKind::Ellipsis)
                || (toks[q1 as int].kind matches TokenKind::Ampersand);
            let ty_step: Result<(Option<Seq<char>>, nat), ParseErrorView> = if skip_type {
                Ok((None, q1))
            } else {
                match toks[q1 as int].kind {
                    TokenKind::Identifier(t) => Ok((Some(t@), q1 + 1)),
                    _ => Err(ParseErrorView::ExpectedToken),
                }
            };
            match ty_step {
                Err(e) => Err(e),
                Ok((ty, q2)) => if q2 >= n {
                    Err(ParseErrorView::ExpectedToken)
                } else {
                    let (variadic, by_ref, q3) = match toks[q2 as int].kind {
                        TokenKind::Ellipsis => (true, false, q2 + 1),
                        TokenKind::Ampersand => (false, true, q2 + 1),
                        _ => (false, false, q2),
                    };
                    if q3 >= n {
                        Err(ParseErrorView::ExpectedToken)
                    } else {
                        match toks[q3 as int].kind {
                            TokenKind::Variable(v) => {
                                let q4 = (q3 + 1) as nat;
                                if q4 < n && (toks[q4 as int].kind matches TokenKind::Equals) {
                                    match spec_expression(toks, q4 + 1, 0) {
                                        Err(e) => Err(e),
                                        Ok((d, q5)) => Ok((
                                            ParamView {
                                                name: ExpressionView::Variable(v@),
                                                ty,
                                                variadic,
                                                by_ref,
                                                default: Some(d),
                                                flag,
                                            },
                                            clip(pos, q5, n),
                                        )),
                                    }
                                } else {
                                    Ok((
                                        ParamView {
                                            name: ExpressionView::Variable(v@),
                                            ty,
                                            variadic,
                                            by_ref,
                                            default: None,
                                            flag,
                                        },
                                        q4,
                                    ))
                                }
                            },
                            _ => Err(ParseErrorView::ExpectedToken),
                        }
                    }
                },
            }
        }
    }
}

/// The parameter list between the parentheses of a function header,
/// entered just after `(`; stops at (without consuming) the closing
/// parenthesis or the end of input. A trailing comma is tolerated.
pub open spec fn spec_params(toks: Seq<Token>, pos: nat) -> ParseStep<Seq<ParamView>>
    decreases toks.len() - pos, 3nat,
{
    let n = toks.len();
    if pos >= n || (toks[pos as int].kind matches TokenKind::RightParen) {
        Ok((seq![], pos))
    } else {
        match spec_param(toks, pos) {
            Err(e) => Err(e),
            Ok((p, q0)) => {
                let q = clip(pos, q0, n);
                let q2 = if q < n && (toks[q as int].kind matches TokenKind::Comma) {
                    (q + 1) as nat
                } else {
                    q
                };
                match spec_params(toks, q2) {
                    Err(e) => Err(e),
                    Ok((rest, r)) => Ok((seq![p].add(rest), r)),
                }
            },
        }
    }
}

/// A brace-delimited block, entered just after `{`: statements until the
/// closing brace, which is consumed. Reaching end of input first is an
/// error naming the missing delimiter.
pub open spec fn spec_block(toks: Seq<Token>, pos: nat) -> ParseStep<Seq<StatementView>>
    decreases toks.len() - pos, 3nat,
{
    let n = toks.len();
    if pos >= n {
        Err(ParseErrorView::ExpectedToken)
    } else if (toks[pos as int].kind matches TokenKind::RightBrace) {
        Ok((seq![], pos + 1))
    } else {
        match spec_statement(toks, pos) {
            Err(e) => Err(e),
            Ok((s, q0)) => {
                match spec_block(toks, clip(pos, q0, n)) {
                    Err(e) => Err(e),
                    Ok((rest, r)) => Ok((seq![s].add(rest), r)),
                }
            },
        }
    }
}

/// A class body, entered just after `{`: like a block, but every inner
/// statement must reclassify to a method.
pub open spec fn spec_class_body(toks: Seq<Token>, pos: nat) -> ParseStep<Seq<StatementView>>
    decreases toks.len() - pos, 3nat,
{
    let n = toks.len();
    if pos >= n {
        Err(ParseErrorView::ExpectedToken)
    } else if (toks[pos as int].kind matches TokenKind::RightBrace) {
        Ok((seq![], pos + 1))
    } else {
        match spec_statement(toks, pos) {
            Err(e) => Err(e),
            Ok((s, q0)) => match spec_as_method(s) {
                None => Err(ParseErrorView::InvalidClassStatement),
                Some(m) => match spec_class_body(toks, clip(pos, q0, n)) {
                    Err(e) => Err(e),
                    Ok((rest, r)) => Ok((seq![m].add(rest), r)),
                },
            },
        }
    }
}

/// An `if` statement, at its `if` token: condition in parentheses, then a
/// braced block. Unbraced one-line bodies are unsupported.
pub open spec fn spec_if_statement(toks: Seq<Token>, pos: nat) -> ParseStep<StatementView>
    decreases toks.len() - pos, 1nat,
{
    let n = toks.len();
    if pos >= n {
        Err(ParseErrorView::UnexpectedEndOfFile)
    } else if !(pos + 1 < n && toks[pos + 1 as int].kind matches TokenKind::LeftParen) {
        Err(ParseErrorView::ExpectedToken)
    } else {
        match spec_expression(toks, pos + 2, 0) {
            Err(e) => Err(e),
            Ok((cond, q0)) => {
                let q = clip(pos, q0, n);
                if !(q < n && toks[q as int].kind matches TokenKind::RightParen) {
                    Err(ParseErrorView::ExpectedToken)
                } else if !(q + 1 < n && toks[q + 1 as int].kind matches TokenKind::LeftBrace) {
                    Err(ParseErrorView::ExpectedToken)
                } else {
                    match spec_block(toks, q + 2) {
                        Err(e) => Err(e),
                        Ok((then, r)) => Ok((StatementView::If { condition: cond, then }, r)),
                    }
                }
            },
        }
    }
}

/// A class declaration, at its `class` token: name, then a class body in
/// braces. The parser fills no heritage clause and no class flag.
pub open spec fn spec_class_statement(toks: Seq<Token>, pos: nat) -> ParseStep<StatementView>
    decreases toks.len() - pos, 1nat,
{
    let n = toks.len();
    if pos >= n {
        Err(ParseErrorView::UnexpectedEndOfFile)
    } else if pos + 1 >= n {
        Err(ParseErrorView::ExpectedToken)
    } else {
        match toks[pos + 1 as int].kind {
            TokenKind::Identifier(name) => if !(pos + 2 < n && toks[pos + 2 as int].kind
                matches TokenKind::LeftBrace) {
                Err(ParseErrorView::ExpectedToken)
            } else {
                match spec_class_body(toks, pos + 3) {
                    Err(e) => Err(e),
                    Ok((body, r)) => Ok((
                        StatementView::Class {
                            name: name@,
                            extends: None,
                            implements: seq![],
                            body,
                            flag: None,
                        },
                        r,
                    )),
                }
            },
            _ => Err(ParseErrorView::ExpectedToken),
        }
    }
}

/// An `echo` statement, at its `echo` token: a non-empty value list, then
/// the terminating semicolon.
pub open spec fn spec_echo_statement(toks: Seq<Token>, pos: nat) -> ParseStep<StatementView>
    decreases toks.len() - pos, 1nat,
{
    let n = toks.len();
    if pos >= n {
        Err(ParseErrorView::UnexpectedEndOfFile)
    } else {
        match spec_echo_values(toks, pos + 1) {
            Err(e) => Err(e),
            Ok((values, q0)) => {
                let q = clip(pos, q0, n);
                if q < n && (toks[q as int].kind matches TokenKind::SemiColon) {
                    Ok((StatementView::Echo { values }, q + 1))
                } else {
                    Err(ParseErrorView::ExpectedToken)
                }
            },
        }
    }
}

/// A `return` statement, at its `return` token: an immediate semicolon
/// means no value; otherwise one expression, then the semicolon. A
/// failure while parsing the value propagates.
pub open spec fn spec_return_statement(toks: Seq<Token>, pos: nat) -> ParseStep<StatementView>
    decreases toks.len() - pos, 1nat,
{
    let n = toks.len();
    if pos >= n {
        Err(ParseErrorView::UnexpectedEndOfFile)
    } else if pos + 1 < n && (toks[pos + 1 as int].kind matches TokenKind::SemiColon) {
        Ok((StatementView::Return { value: None }, pos + 2))
    } else {
        match spec_expression(toks, pos + 1, 0) {
            Err(e) => Err(e),
            Ok((v, q0)) => {
                let q = clip(pos, q0, n);
                if q < n && (toks[q as int].kind matches TokenKind::SemiColon) {
                    Ok((StatementView::Return { value: Some(v) }, q + 1))
                } else {
                    Err(ParseErrorView::ExpectedToken)
                }
            },
        }
    }
}

/// A function declaration, at its `function` token: name, parameter list
/// in parentheses, then a braced body.
pub open spec fn spec_function_statement(toks: Seq<Token>, pos: nat) -> ParseStep<StatementView>
    decreases toks.len() - pos, 1nat,
{
    let n = toks.len();
    if pos >= n {
        Err(ParseErrorView::UnexpectedEndOfFile)
    } else if pos + 1 >= n {
        Err(ParseErrorView::ExpectedToken)
    } else {
        match toks[pos + 1 as int].kind {
            TokenKind::Identifier(name) => if !(pos + 2 < n && toks[pos + 2 as int].kind
                matches TokenKind::LeftParen) {
                Err(ParseErrorView::ExpectedToken)
            } else {
                match spec_params(toks, pos + 3) {
                    Err(e) => Err(e),
                    Ok((params, q0)) => {
                        let q = clip(pos, q0, n);
                        if !(q < n && toks[q as int].kind matches TokenKind::RightParen) {
                            Err(ParseErrorView::ExpectedToken)
                        } else if !(q + 1 < n && toks[q + 1 as int].kind
                            matches TokenKind::LeftBrace) {
                            Err(ParseErrorView::ExpectedToken)
                        } else {
                            match spec_block(toks, q + 2) {
                                Err(e) => Err(e),
                                Ok((body, r)) => Ok((
                                    StatementView::Function { name: name@, params, body },
                                    r,
                                )),
                            }
                        }
                    },
                }
            },
            _ => Err(ParseErrorView::ExpectedToken),
        }
    }
}

/// A statement opened by one or more modifier tokens: the modifiers are
/// collected in encounter order, and the following statement must resolve
/// to a function, which they re-tag as a method.
pub open spec fn spec_modified_statement(toks: Seq<Token>, pos: nat) -> ParseStep<StatementView>
    decreases toks.len() - pos, 1nat,
{
    let n = toks.len();
    if pos >= n {
        Err(ParseErrorView::UnexpectedEndOfFile)
    } else {
        let (flags, q0) = spec_modifiers(toks, pos);
        match spec_statement(toks, clip(pos, q0, n)) {
            Err(e) => Err(e),
            Ok((s, r)) => match s {
                StatementView::Function { name, params, body } => Ok((
                    StatementView::Method { name, params, body, flags },
                    r,
                )),
                _ => Err(ParseErrorView::InvalidClassStatement),
            },
        }
    }
}

/// One statement, dispatched on the kind of the token at `pos`; yields
/// the statement and the position just past its final consumed token,
/// terminator included.
pub open spec fn spec_statement(toks: Seq<Token>, pos: nat) -> ParseStep<StatementView>
    decreases toks.len() - pos, 2nat,
{
    let n = toks.len();
    if pos >= n {
        Err(ParseErrorView::UnexpectedEndOfFile)
    } else {
        match toks[pos as int].kind {
            TokenKind::InlineHtml(html) => Ok((StatementView::InlineHtml(html@), pos + 1)),
            TokenKind::If => spec_if_statement(toks, pos),
            TokenKind::Class => spec_class_statement(toks, pos),
            TokenKind::Echo => spec_echo_statement(toks, pos),
            TokenKind::Return => spec_return_statement(toks, pos),
            TokenKind::Function => spec_function_statement(toks, pos),
            TokenKind::Public => spec_modified_statement(toks, pos),
            TokenKind::Protected => spec_modified_statement(toks, pos),
            TokenKind::Private => spec_modified_statement(toks, pos),
            TokenKind::Static => spec_modified_statement(toks, pos),
            _ => Err(ParseErrorView::ExpectedToken),
        }
    }
}

/// A whole program: statements until the input is exhausted, with opening
/// code delimiters skipped.
pub open spec fn spec_program(toks: Seq<Token>, pos: nat) -> ParseStep<Seq<StatementView>>
    decreases toks.len() - pos, 3nat,
{
    let n = toks.len();
    if pos >= n {
        Ok((seq![], pos))
    } else {
        match toks[pos as int].kind {
            TokenKind::OpenTag(_) => spec_program(toks, pos + 1),
            _ => match spec_statement(toks, pos) {
                Err(e) => Err(e),
                Ok((s, q0)) => match spec_program(toks, clip(pos, q0, n)) {
                    Err(e) => Err(e),
                    Ok((rest, r)) => Ok((seq![s].add(rest), r)),
                },
            },
        }
    }
}

/// What parsing a token sequence yields: the statement views of the whole
/// program in source order, or the first error.
pub open spec fn spec_parse(toks: Seq<Token>) -> Result<Seq<StatementView>, ParseErrorView> {
    match spec_program(toks, 0) {
        Ok((prog, _)) => Ok(prog),
        Err(e) => Err(e),
    }
}

} // verus!
