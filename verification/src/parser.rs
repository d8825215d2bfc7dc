//! The executable recursive-descent parser. Every routine is proved to
//! return exactly what the functional model in [`crate::model`] assigns
//! to its input: the same syntax tree, the same final cursor position,
//! and the same error kind on the same inputs.

use vstd::prelude::*;

use crate::ast::Expression;
use crate::ast::Identifier;
use crate::ast::InfixOp;
use crate::ast::MethodFlag;
use crate::ast::Param;
use crate::ast::Program;
use crate::ast::PropertyFlag;
use crate::ast::Statement;
use crate::ast::StatementView;
use crate::model::ParseErrorView;
use crate::model::ParseStep;
use crate::model::clip;
use crate::model::is_modifier;
use crate::model::spec_as_method;
use crate::model::spec_block;
use crate::model::spec_call_args;
use crate::model::spec_class_body;
use crate::model::spec_class_statement;
use crate::model::spec_echo_statement;
use crate::model::spec_echo_values;
use crate::model::spec_expr_ops;
use crate::model::spec_expression;
use crate::model::spec_flag;
use crate::model::spec_function_statement;
use crate::model::spec_if_statement;
use crate::model::spec_infix_binding_power;
use crate::model::spec_infix_op;
use crate::model::spec_modified_statement;
use crate::model::spec_modifiers;
use crate::model::spec_param;
use crate::model::spec_params;
use crate::model::spec_parse;
use crate::model::spec_postfix_binding_power;
use crate::model::spec_program;
use crate::model::spec_return_statement;
use crate::model::spec_statement;
use crate::token::Token;
use crate::token::TokenKind;

verus! {

/// A parse failure: a missing or mismatched required token, exhausted
/// input inside an expression, or a statement kind not permitted inside
/// a class body. The message names what was expected; the first failure
/// aborts the whole parse.
#[derive(Debug)]
pub enum ParseError {
    ExpectedToken(String),
    UnexpectedEndOfFile,
    InvalidClassStatement(String),
}

impl DeepView for ParseError {
    type V = ParseErrorView;

    open spec fn deep_view(&self) -> ParseErrorView {
        match self {
            ParseError::ExpectedToken(_) => ParseErrorView::ExpectedToken,
            ParseError::UnexpectedEndOfFile => ParseErrorView::UnexpectedEndOfFile,
            ParseError::InvalidClassStatement(_) => ParseErrorView::InvalidClassStatement,
        }
    }
}

/// The view of one executable parsing step as a step of the model.
pub open spec fn step_view<T: DeepView>(r: Result<(T, usize), ParseError>) -> ParseStep<T::V> {
    match r {
        Ok(v) => Ok((v.0.deep_view(), v.1 as nat)),
        Err(e) => Err(e.deep_view()),
    }
}

/// The view of a whole parse outcome.
pub open spec fn parse_view(r: Result<Program, ParseError>) -> Result<
    Seq<StatementView>,
    ParseErrorView,
> {
    match r {
        Ok(p) => Ok(p.deep_view()),
        Err(e) => Err(e.deep_view()),
    }
}

/// Whether a token kind is one of the four visibility or mutability
/// modifiers.
fn is_method_visibility_modifier(k: &TokenKind) -> (r: bool)
    ensures
        r == is_modifier(*k),
{
    matches!(k, TokenKind::Public | TokenKind::Protected | TokenKind::Private | TokenKind::Static)
}

/// The method flag a modifier token denotes.
fn visibility_token_to_flag(k: &TokenKind) -> (r: MethodFlag)
    requires
        is_modifier(*k),
    ensures
        r == spec_flag(*k),
{
    match k {
        TokenKind::Public => MethodFlag::Public,
        TokenKind::Protected => MethodFlag::Protected,
        TokenKind::Private => MethodFlag::Private,
        _ => MethodFlag::Static,
    }
}

/// The infix binding-power table: `+` and `-` at (11, 12), `<` at
/// (9, 10).
fn infix_binding_power(k: &TokenKind) -> (r: Option<(u8, u8)>)
    ensures
        r == spec_infix_binding_power(*k),
{
    match k {
        TokenKind::Plus | TokenKind::Minus => Some((11, 12)),
        TokenKind::LessThan => Some((9, 10)),
        _ => None,
    }
}

/// The postfix binding-power table: only the call-argument list `(`,
/// at 19.
fn postfix_binding_power(k: &TokenKind) -> (r: Option<u8>)
    ensures
        r == spec_postfix_binding_power(*k),
{
    match k {
        TokenKind::LeftParen => Some(19),
        _ => None,
    }
}

impl InfixOp {
    /// The operator a binary-operator token denotes; callers establish
    /// that the kind stands in the infix table.
    pub fn from_token(k: &TokenKind) -> (r: InfixOp)
        requires
            spec_infix_binding_power(*k) is Some,
        ensures
            r == spec_infix_op(*k),
    {
        match k {
            TokenKind::Plus => InfixOp::Add,
            TokenKind::Minus => InfixOp::Sub,
            _ => InfixOp::LessThan,
        }
    }
}

/// One expression at minimum binding power `bp`: a primary, then the
/// operator loop.
fn expression(toks: &Vec<Token>, pos: usize, bp: u8) -> (r: Result<(Expression, usize), ParseError>)
    requires
        pos <= toks@.len(),
    ensures
        step_view(r) == spec_expression(toks@, pos as nat, bp),
        r matches Ok(v) ==> pos < v.1 <= toks@.len(),
    decreases toks@.len() - pos, 0nat,
{
    let n = toks.len();
    if pos >= n {
        return Err(ParseError::UnexpectedEndOfFile);
    }
    let lhs = match &toks[pos].kind {
        TokenKind::Variable(v) => Expression::Variable(v.clone()),
        TokenKind::Int(i) => Expression::Int(*i),
        TokenKind::Identifier(i) => Expression::Identifier(i.clone()),
        _ => {
            return Err(ParseError::ExpectedToken(String::from_str("unhandled token")));
        },
    };
    expr_ops(toks, pos + 1, lhs, bp)
}

/// The operator loop of precedence climbing, folding postfix and infix
/// operators into `lhs` while their binding power reaches `bp`.
fn expr_ops(toks: &Vec<Token>, pos: usize, lhs: Expression, bp: u8) -> (r: Result<
    (Expression, usize),
    ParseError,
>)
    requires
        pos <= toks@.len(),
    ensures
        step_view(r) == spec_expr_ops(toks@, pos as nat, lhs.deep_view(), bp),
        r matches Ok(v) ==> pos <= v.1 <= toks@.len(),
    decreases toks@.len() - pos, 1nat,
{
    let n = toks.len();
    if pos >= n {
        return Ok((lhs, pos));
    }
    if matches!(&toks[pos].kind, TokenKind::SemiColon) {
        return Ok((lhs, pos));
    }
    if let Some(lbp) = postfix_binding_power(&toks[pos].kind) {
        if lbp < bp {
            return Ok((lhs, pos));
        }
        // the only postfix operator is the call-argument list
        let (args, q) = call_args(toks, pos + 1)?;
        let ghost args0 = args@;
        let ghost argsdv = args.deep_view();
        let ghost lhs0 = lhs;
        let callee = Expression::Call(Box::new(lhs), args);
        proof {
            assert(clip(pos as nat, q as nat, toks@.len()) == q as nat);
            crate::ast::lemma_exprs_view(args0);
            assert(argsdv =~= crate::ast::exprs_view(args0));
            assert(callee.deep_view() == crate::ast::ExpressionView::Call(
                Box::new(lhs0.deep_view()),
                argsdv,
            ));
        }
        expr_ops(toks, q, callee, bp)
    } else if let Some((lbp, rbp)) = infix_binding_power(&toks[pos].kind) {
        if lbp < bp {
            return Ok((lhs, pos));
        }
        let op = InfixOp::from_token(&toks[pos].kind);
        let (rhs, q) = expression(toks, pos + 1, rbp)?;
        proof {
            assert(clip(pos as nat, q as nat, toks@.len()) == q as nat);
        }
        expr_ops(toks, q, Expression::Infix(Box::new(lhs), op, Box::new(rhs)), bp)
    } else {
        Ok((lhs, pos))
    }
}

/// The comma-separated argument list of a call, entered just after `(`;
/// consumes the closing parenthesis.
fn call_args(toks: &Vec<Token>, pos: usize) -> (r: Result<(Vec<Expression>, usize), ParseError>)
    requires
        pos <= toks@.len(),
    ensures
        step_view(r) == spec_call_args(toks@, pos as nat),
        r matches Ok(v) ==> pos < v.1 <= toks@.len(),
    decreases toks@.len() - pos, 3nat,
{
    let n = toks.len();
    if pos >= n {
        return Err(ParseError::ExpectedToken(String::from_str("expected )")));
    }
    if matches!(&toks[pos].kind, TokenKind::RightParen) {
        let empty: Vec<Expression> = Vec::new();
        proof {
            assert(empty.deep_view() =~= Seq::<crate::ast::ExpressionView>::empty());
        }
        return Ok((empty, pos + 1));
    }
    let (arg, q) = expression(toks, pos, 0)?;
    proof {
        assert(clip(pos as nat, q as nat, toks@.len()) == q as nat);
    }
    let q2 = if q < n && matches!(&toks[q].kind, TokenKind::Comma) {
        q + 1
    } else {
        q
    };
    let (rest, r2) = call_args(toks, q2)?;
    let ghost rest0 = rest.deep_view();
    let mut out = rest;
    out.insert(0, arg);
    proof {
        assert(out.deep_view() =~= seq![arg.deep_view()].add(rest0));
    }
    Ok((out, r2))
}

/// The non-empty value list of an `echo` statement, up to (not
/// consuming) the terminating semicolon.
fn echo_values(toks: &Vec<Token>, pos: usize) -> (r: Result<(Vec<Expression>, usize), ParseError>)
    requires
        pos <= toks@.len(),
    ensures
        step_view(r) == spec_echo_values(toks@, pos as nat),
        r matches Ok(v) ==> pos < v.1 <= toks@.len(),
    decreases toks@.len() - pos, 3nat,
{
    let n = toks.len();
    if pos >= n {
        return Err(ParseError::UnexpectedEndOfFile);
    }
    let (v, q) = expression(toks, pos, 0)?;
    proof {
        assert(clip(pos as nat, q as nat, toks@.len()) == q as nat);
    }
    let q2 = if q < n && matches!(&toks[q].kind, TokenKind::Comma) {
        q + 1
    } else {
        q
    };
    if q2 < n && !matches!(&toks[q2].kind, TokenKind::SemiColon) {
        let (rest, r2) = echo_values(toks, q2)?;
        let ghost rest0 = rest.deep_view();
        let mut out = rest;
        out.insert(0, v);
        proof {
            assert(out.deep_view() =~= seq![v.deep_view()].add(rest0));
        }
        Ok((out, r2))
    } else {
        let mut out: Vec<Expression> = Vec::new();
        out.push(v);
        proof {
            assert(out.deep_view() =~= seq![v.deep_view()]);
        }
        Ok((out, q2))
    }
}

/// One parameter: optional promotion flag, optional type annotation,
/// optional spread or by-reference marker, the mandatory variable, and
/// an optional default value.
fn param(toks: &Vec<Token>, pos: usize) -> (r: Result<(Param, usize), ParseError>)
    requires
        pos <= toks@.len(),
    ensures
        step_view(r) == spec_param(toks@, pos as nat),
        r matches Ok(v) ==> pos < v.1 <= toks@.len(),
    decreases toks@.len() - pos, 1nat,
{
    let n = toks.len();
    if pos >= n {
        return Err(ParseError::ExpectedToken(String::from_str("expected variable")));
    }
    let (flag, q1) = match &toks[pos].kind {
        TokenKind::Public => (Some(PropertyFlag::Public), pos + 1),
        TokenKind::Protected => (Some(PropertyFlag::Protected), pos + 1),
        TokenKind::Private => (Some(PropertyFlag::Private), pos + 1),
        _ => (None, pos),
    };
    if q1 >= n {
        return Err(ParseError::ExpectedToken(String::from_str("expected variable")));
    }
    let skip_type = matches!(
        &toks[q1].kind,
        TokenKind::Variable(_) | TokenKind::Ellipsis | TokenKind::Ampersand
    );
    let (ty, q2) = if skip_type {
        (None, q1)
    } else {
        match &toks[q1].kind {
            TokenKind::Identifier(t) => (Some(t.clone()), q1 + 1),
            _ => {
                return Err(ParseError::ExpectedToken(String::from_str("expected type")));
            },
        }
    };
    if q2 >= n {
        return Err(ParseError::ExpectedToken(String::from_str("expected variable")));
    }
    let (variadic, by_ref, q3) = match &toks[q2].kind {
        TokenKind::Ellipsis => (true, false, q2 + 1),
        TokenKind::Ampersand => (false, true, q2 + 1),
        _ => (false, false, q2),
    };
    if q3 >= n {
        return Err(ParseError::ExpectedToken(String::from_str("expected variable")));
    }
    match &toks[q3].kind {
        TokenKind::Variable(vn) => {
            let name = Expression::Variable(vn.clone());
            let q4 = q3 + 1;
            if q4 < n && matches!(&toks[q4].kind, TokenKind::Equals) {
                let (d, q5) = expression(toks, q4 + 1, 0)?;
                proof {
                    assert(clip(pos as nat, q5 as nat, toks@.len()) == q5 as nat);
                }
                Ok((Param { name, ty, variadic, by_ref, default: Some(d), flag }, q5))
            } else {
                Ok((Param { name, ty, variadic, by_ref, default: None, flag }, q4))
            }
        },
        _ => Err(ParseError::ExpectedToken(String::from_str("expected variable"))),
    }
}

/// The parameter list of a function header, entered just after `(`;
/// stops at (without consuming) the closing parenthesis.
fn param_list(toks: &Vec<Token>, pos: usize) -> (r: Result<(Vec<Param>, usize), ParseError>)
    requires
        pos <= toks@.len(),
    ensures
        step_view(r) == spec_params(toks@, pos as nat),
        r matches Ok(v) ==> pos <= v.1 <= toks@.len(),
    decreases toks@.len() - pos, 3nat,
{
    let n = toks.len();
    if pos >= n || matches!(&toks[pos].kind, TokenKind::RightParen) {
        let empty: Vec<Param> = Vec::new();
        proof {
            assert(empty.deep_view() =~= Seq::<crate::ast::ParamView>::empty());
        }
        return Ok((empty, pos));
    }
    let (p, q) = param(toks, pos)?;
    proof {
        assert(clip(pos as nat, q as nat, toks@.len()) == q as nat);
    }
    let q2 = if q < n && matches!(&toks[q].kind, TokenKind::Comma) {
        q + 1
    } else {
        q
    };
    let (rest, r2) = param_list(toks, q2)?;
    let ghost rest0 = rest.deep_view();
    let mut out = rest;
    out.insert(0, p);
    proof {
        assert(out.deep_view() =~= seq![p.deep_view()].add(rest0));
    }
    Ok((out, r2))
}

/// The maximal run of modifier tokens at `pos`, in encounter order.
fn modifiers(toks: &Vec<Token>, pos: usize) -> (r: (Vec<MethodFlag>, usize))
    requires
        pos <= toks@.len(),
    ensures
        r.0@ == spec_modifiers(toks@, pos as nat).0,
        r.1 as nat == spec_modifiers(toks@, pos as nat).1,
        pos <= r.1 <= toks@.len(),
        pos < toks@.len() && is_modifier(toks@[pos as int].kind) ==> pos < r.1,
    decreases toks@.len() - pos, 0nat,
{
    let n = toks.len();
    if pos < n && is_method_visibility_modifier(&toks[pos].kind) {
        let f = visibility_token_to_flag(&toks[pos].kind);
        let (rest, q) = modifiers(toks, pos + 1);
        let ghost rest0 = rest@;
        let mut out = rest;
        out.insert(0, f);
        proof {
            assert(out@ =~= seq![f].add(rest0));
        }
        (out, q)
    } else {
        let empty: Vec<MethodFlag> = Vec::new();
        proof {
            assert(empty@ =~= Seq::<MethodFlag>::empty());
        }
        (empty, pos)
    }
}

/// A brace-delimited block, entered just after `{`; consumes the closing
/// brace.
fn block(toks: &Vec<Token>, pos: usize) -> (r: Result<(Vec<Statement>, usize), ParseError>)
    requires
        pos <= toks@.len(),
    ensures
        step_view(r) == spec_block(toks@, pos as nat),
        r matches Ok(v) ==> pos < v.1 <= toks@.len(),
    decreases toks@.len() - pos, 3nat,
{
    let n = toks.len();
    if pos >= n {
        return Err(ParseError::ExpectedToken(String::from_str("expected }")));
    }
    if matches!(&toks[pos].kind, TokenKind::RightBrace) {
        let empty: Vec<Statement> = Vec::new();
        proof {
            assert(empty.deep_view() =~= Seq::<StatementView>::empty());
        }
        return Ok((empty, pos + 1));
    }
    let (s, q) = statement(toks, pos)?;
    proof {
        assert(clip(pos as nat, q as nat, toks@.len()) == q as nat);
    }
    let (rest, r2) = block(toks, q)?;
    let ghost rest0 = rest.deep_view();
    let mut out = rest;
    out.insert(0, s);
    proof {
        assert(out.deep_view() =~= seq![s.deep_view()].add(rest0));
    }
    Ok((out, r2))
}

/// A class body, entered just after `{`: every inner statement must
/// reclassify to a method.
fn class_body(toks: &Vec<Token>, pos: usize) -> (r: Result<(Vec<Statement>, usize), ParseError>)
    requires
        pos <= toks@.len(),
    ensures
        step_view(r) == spec_class_body(toks@, pos as nat),
        r matches Ok(v) ==> pos < v.1 <= toks@.len(),
    decreases toks@.len() - pos, 3nat,
{
    let n = toks.len();
    if pos >= n {
        return Err(ParseError::ExpectedToken(String::from_str("expected right-brace")));
    }
    if matches!(&toks[pos].kind, TokenKind::RightBrace) {
        let empty: Vec<Statement> = Vec::new();
        proof {
            assert(empty.deep_view() =~= Seq::<StatementView>::empty());
        }
        return Ok((empty, pos + 1));
    }
    let (s, q) = statement(toks, pos)?;
    proof {
        assert(clip(pos as nat, q as nat, toks@.len()) == q as nat);
    }
    let ghost s0 = s;
    let m = match s {
        Statement::Function { name, params, body } => {
            let flags: Vec<MethodFlag> = Vec::new();
            proof {
                assert(flags@ =~= Seq::<MethodFlag>::empty());
            }
            Statement::Method { name, params, body, flags }
        },
        Statement::Method { name, params, body, flags } => Statement::Method {
            name,
            params,
            body,
            flags,
        },
        _ => {
            proof {
                lemma_as_method_none(s0);
            }
            return Err(ParseError::InvalidClassStatement(
                String::from_str("Classes can only contain properties, constants and methods."),
            ));
        },
    };
    proof {
        assert(spec_as_method(s0.deep_view()) == Some(m.deep_view()));
    }
    let (rest, r2) = class_body(toks, q)?;
    let ghost rest0 = rest.deep_view();
    let mut out = rest;
    out.insert(0, m);
    proof {
        assert(out.deep_view() =~= seq![m.deep_view()].add(rest0));
    }
    Ok((out, r2))
}

/// A statement that is neither a function nor a method reclassifies to
/// no method at all.
proof fn lemma_as_method_none(s: Statement)
    requires
        !(s matches Statement::Function { .. }),
        !(s matches Statement::Method { .. }),
    ensures
        spec_as_method(s.deep_view()) is None,
{
    match s {
        Statement::InlineHtml(_) => {},
        Statement::Var { .. } => {},
        Statement::Property { .. } => {},
        Statement::Function { .. } => {},
        Statement::Class { .. } => {},
        Statement::Method { .. } => {},
        Statement::If { .. } => {},
        Statement::Return { .. } => {},
        Statement::Echo { .. } => {},
        Statement::Expression { .. } => {},
        Statement::Noop => {},
    }
}

/// A statement that is not a function has no function view either.
proof fn lemma_not_function_view(s: Statement)
    requires
        !(s matches Statement::Function { .. }),
    ensures
        !(s.deep_view() matches StatementView::Function { .. }),
{
    match s {
        Statement::InlineHtml(_) => {},
        Statement::Var { .. } => {},
        Statement::Property { .. } => {},
        Statement::Function { .. } => {},
        Statement::Class { .. } => {},
        Statement::Method { .. } => {},
        Statement::If { .. } => {},
        Statement::Return { .. } => {},
        Statement::Echo { .. } => {},
        Statement::Expression { .. } => {},
        Statement::Noop => {},
    }
}

/// An `if` statement at its `if` token.
fn if_statement(toks: &Vec<Token>, pos: usize) -> (r: Result<(Statement, usize), ParseError>)
    requires
        pos < toks@.len(),
    ensures
        step_view(r) == spec_if_statement(toks@, pos as nat),
        r matches Ok(v) ==> pos < v.1 <= toks@.len(),
    decreases toks@.len() - pos, 1nat,
{
    let n = toks.len();
    if !(pos + 1 < n && matches!(&toks[pos + 1].kind, TokenKind::LeftParen)) {
        return Err(ParseError::ExpectedToken(String::from_str("expected (")));
    }
    let (cond, q) = expression(toks, pos + 2, 0)?;
    proof {
        assert(clip(pos as nat, q as nat, toks@.len()) == q as nat);
    }
    if !(q < n && matches!(&toks[q].kind, TokenKind::RightParen)) {
        return Err(ParseError::ExpectedToken(String::from_str("expected )")));
    }
    if !(q + 1 < n && matches!(&toks[q + 1].kind, TokenKind::LeftBrace)) {
        return Err(ParseError::ExpectedToken(String::from_str("expected {")));
    }
    let (then, r2) = block(toks, q + 2)?;
    let ghost then0 = then@;
    let ghost thendv = then.deep_view();
    let ghost cond0 = cond;
    let st = Statement::If { condition: cond, then };
    proof {
        crate::ast::lemma_stmts_view(then0);
        assert(thendv =~= crate::ast::stmts_view(then0));
        assert(st.deep_view() == StatementView::If { condition: cond0.deep_view(), then: thendv });
    }
    Ok((st, r2))
}

/// A class declaration at its `class` token.
fn class_statement(toks: &Vec<Token>, pos: usize) -> (r: Result<(Statement, usize), ParseError>)
    requires
        pos < toks@.len(),
    ensures
        step_view(r) == spec_class_statement(toks@, pos as nat),
        r matches Ok(v) ==> pos < v.1 <= toks@.len(),
    decreases toks@.len() - pos, 1nat,
{
    let n = toks.len();
    if pos + 1 >= n {
        return Err(ParseError::ExpectedToken(String::from_str("expected class name")));
    }
    match &toks[pos + 1].kind {
        TokenKind::Identifier(nm) => {
            let nm = nm.clone();
            if !(pos + 2 < n && matches!(&toks[pos + 2].kind, TokenKind::LeftBrace)) {
                return Err(ParseError::ExpectedToken(String::from_str("expected left-brace")));
            }
            let (body, r2) = class_body(toks, pos + 3)?;
            let ghost nm0 = nm@;
            let ghost body0 = body@;
            let ghost bodydv = body.deep_view();
            let implements: Vec<Identifier> = Vec::new();
            let ghost impl0 = implements@;
            let st = Statement::Class {
                name: Identifier::from(nm),
                extends: None,
                implements,
                body,
                flag: None,
            };
            proof {
                crate::ast::lemma_stmts_view(body0);
                assert(bodydv =~= crate::ast::stmts_view(body0));
                assert(crate::ast::idents_view(impl0) =~= Seq::<Seq<char>>::empty());
                assert(st.deep_view() == StatementView::Class {
                    name: nm0,
                    extends: None,
                    implements: Seq::empty(),
                    body: bodydv,
                    flag: None,
                });
            }
            Ok((st, r2))
        },
        _ => Err(ParseError::ExpectedToken(String::from_str("expected class name"))),
    }
}

/// An `echo` statement at its `echo` token.
fn echo_statement(toks: &Vec<Token>, pos: usize) -> (r: Result<(Statement, usize), ParseError>)
    requires
        pos < toks@.len(),
    ensures
        step_view(r) == spec_echo_statement(toks@, pos as nat),
        r matches Ok(v) ==> pos < v.1 <= toks@.len(),
    decreases toks@.len() - pos, 1nat,
{
    let n = toks.len();
    let (values, q) = echo_values(toks, pos + 1)?;
    proof {
        assert(clip(pos as nat, q as nat, toks@.len()) == q as nat);
    }
    if q < n && matches!(&toks[q].kind, TokenKind::SemiColon) {
        let ghost values0 = values@;
        let ghost valuesdv = values.deep_view();
        let st = Statement::Echo { values };
        proof {
            crate::ast::lemma_exprs_view(values0);
            assert(valuesdv =~= crate::ast::exprs_view(values0));
            assert(st.deep_view() == StatementView::Echo { values: valuesdv });
        }
        Ok((st, q + 1))
    } else {
        Err(ParseError::ExpectedToken(
            String::from_str("expected semi-colon at the end of an echo statement"),
        ))
    }
}

/// A `return` statement at its `return` token. A failure while parsing
/// the value propagates.
fn return_statement(toks: &Vec<Token>, pos: usize) -> (r: Result<(Statement, usize), ParseError>)
    requires
        pos < toks@.len(),
    ensures
        step_view(r) == spec_return_statement(toks@, pos as nat),
        r matches Ok(v) ==> pos < v.1 <= toks@.len(),
    decreases toks@.len() - pos, 1nat,
{
    let n = toks.len();
    if pos + 1 < n && matches!(&toks[pos + 1].kind, TokenKind::SemiColon) {
        return Ok((Statement::Return { value: None }, pos + 2));
    }
    let (v, q) = expression(toks, pos + 1, 0)?;
    proof {
        assert(clip(pos as nat, q as nat, toks@.len()) == q as nat);
    }
    if q < n && matches!(&toks[q].kind, TokenKind::SemiColon) {
        Ok((Statement::Return { value: Some(v) }, q + 1))
    } else {
        Err(ParseError::ExpectedToken(
            String::from_str("expected semi-colon at the end of return statement."),
        ))
    }
}

/// A function declaration at its `function` token.
fn function_statement(toks: &Vec<Token>, pos: usize) -> (r: Result<(Statement, usize), ParseError>)
    requires
        pos < toks@.len(),
    ensures
        step_view(r) == spec_function_statement(toks@, pos as nat),
        r matches Ok(v) ==> pos < v.1 <= toks@.len(),
    decreases toks@.len() - pos, 1nat,
{
    let n = toks.len();
    if pos + 1 >= n {
        return Err(ParseError::ExpectedToken(String::from_str("expected identifier")));
    }
    match &toks[pos + 1].kind {
        TokenKind::Identifier(nm) => {
            let nm = nm.clone();
            if !(pos + 2 < n && matches!(&toks[pos + 2].kind, TokenKind::LeftParen)) {
                return Err(ParseError::ExpectedToken(String::from_str("expected (")));
            }
            let (ps, q) = param_list(toks, pos + 3)?;
            proof {
                assert(clip(pos as nat, q as nat, toks@.len()) == q as nat);
            }
            if !(q < n && matches!(&toks[q].kind, TokenKind::RightParen)) {
                return Err(ParseError::ExpectedToken(String::from_str("expected )")));
            }
            if !(q + 1 < n && matches!(&toks[q + 1].kind, TokenKind::LeftBrace)) {
                return Err(ParseError::ExpectedToken(String::from_str("expected {")));
            }
            let (body, r2) = block(toks, q + 2)?;
            let ghost nm0 = nm@;
            let ghost ps0 = ps@;
            let ghost psdv = ps.deep_view();
            let ghost body0 = body@;
            let ghost bodydv = body.deep_view();
            let st = Statement::Function { name: Identifier::from(nm), params: ps, body };
            proof {
                crate::ast::lemma_params_view(ps0);
                crate::ast::lemma_stmts_view(body0);
                assert(psdv =~= crate::ast::params_view(ps0));
                assert(bodydv =~= crate::ast::stmts_view(body0));
                assert(st.deep_view() == StatementView::Function {
                    name: nm0,
                    params: psdv,
                    body: bodydv,
                });
            }
            Ok((st, r2))
        },
        _ => Err(ParseError::ExpectedToken(String::from_str("expected identifier"))),
    }
}

/// A statement opened by modifier tokens: they are collected in
/// encounter order and the following statement must resolve to a
/// function, re-tagged as a method.
fn modified_statement(toks: &Vec<Token>, pos: usize) -> (r: Result<(Statement, usize), ParseError>)
    requires
        pos < toks@.len(),
        is_modifier(toks@[pos as int].kind),
    ensures
        step_view(r) == spec_modified_statement(toks@, pos as nat),
        r matches Ok(v) ==> pos < v.1 <= toks@.len(),
    decreases toks@.len() - pos, 1nat,
{
    let (flags, q) = modifiers(toks, pos);
    proof {
        assert(clip(pos as nat, q as nat, toks@.len()) == q as nat);
    }
    let (s, r2) = statement(toks, q)?;
    let ghost s0 = s;
    match s {
        Statement::Function { name, params, body } => Ok((
            Statement::Method { name, params, body, flags },
            r2,
        )),
        _ => {
            proof {
                lemma_not_function_view(s0);
            }
            Err(ParseError::InvalidClassStatement(
                String::from_str("Classes can only contain properties, constants and methods."),
            ))
        },
    }
}

/// One statement, dispatched on the kind of the token at `pos`.
fn statement(toks: &Vec<Token>, pos: usize) -> (r: Result<(Statement, usize), ParseError>)
    requires
        pos <= toks@.len(),
    ensures
        step_view(r) == spec_statement(toks@, pos as nat),
        r matches Ok(v) ==> pos < v.1 <= toks@.len(),
    decreases toks@.len() - pos, 2nat,
{
    let n = toks.len();
    if pos >= n {
        return Err(ParseError::UnexpectedEndOfFile);
    }
    match &toks[pos].kind {
        TokenKind::InlineHtml(html) => Ok((Statement::InlineHtml(html.clone()), pos + 1)),
        TokenKind::If => if_statement(toks, pos),
        TokenKind::Class => class_statement(toks, pos),
        TokenKind::Echo => echo_statement(toks, pos),
        TokenKind::Return => return_statement(toks, pos),
        TokenKind::Function => function_statement(toks, pos),
        TokenKind::Public => modified_statement(toks, pos),
        TokenKind::Protected => modified_statement(toks, pos),
        TokenKind::Private => modified_statement(toks, pos),
        TokenKind::Static => modified_statement(toks, pos),
        _ => Err(ParseError::ExpectedToken(String::from_str("unhandled token"))),
    }
}

/// A whole program: statements until the input is exhausted, with
/// opening code delimiters skipped.
fn program(toks: &Vec<Token>, pos: usize) -> (r: Result<(Vec<Statement>, usize), ParseError>)
    requires
        pos <= toks@.len(),
    ensures
        step_view(r) == spec_program(toks@, pos as nat),
        r matches Ok(v) ==> pos <= v.1 <= toks@.len(),
    decreases toks@.len() - pos, 3nat,
{
    let n = toks.len();
    if pos >= n {
        let empty: Vec<Statement> = Vec::new();
        proof {
            assert(empty.deep_view() =~= Seq::<StatementView>::empty());
        }
        return Ok((empty, pos));
    }
    if matches!(&toks[pos].kind, TokenKind::OpenTag(_)) {
        return program(toks, pos + 1);
    }
    let (s, q) = statement(toks, pos)?;
    proof {
        assert(clip(pos as nat, q as nat, toks@.len()) == q as nat);
    }
    let (rest, r2) = program(toks, q)?;
    let ghost rest0 = rest.deep_view();
    let mut out = rest;
    out.insert(0, s);
    proof {
        assert(out.deep_view() =~= seq![s.deep_view()].add(rest0));
    }
    Ok((out, r2))
}

/// The parser: it owns no state; each parse owns a private cursor over
/// its own token sequence.
pub struct Parser;

impl Parser {
    pub fn new() -> (p: Parser) {
        Parser
    }

    /// Parses a whole token sequence into a program, or the first error.
    /// The result is exactly what the functional model of the grammar
    /// assigns to the input.
    pub fn parse(&self, tokens: Vec<Token>) -> (r: Result<Program, ParseError>)
        ensures
            parse_view(r) == spec_parse(tokens@),
    {
        match program(&tokens, 0) {
            Ok((prog, _)) => Ok(prog),
            Err(e) => Err(e),
        }
    }
}

} // verus!
