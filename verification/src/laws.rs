//! Grammar-level laws: properties of the functional model that hold for
//! every input, stated and proved once and for all. Because every
//! executable routine is proved equal to the model, each law carries
//! over to the running parser.

use vstd::prelude::*;

use crate::ast::ExpressionView;
use crate::ast::InfixOp;
use crate::ast::StatementView;
use crate::model::ParseErrorView;
use crate::model::is_modifier;
use crate::model::spec_as_method;
use crate::model::spec_block;
use crate::model::spec_class_body;
use crate::model::spec_expression;
use crate::model::spec_expr_ops;
use crate::model::spec_call_args;
use crate::model::spec_flag;
use crate::model::spec_infix_op;
use crate::model::spec_modifiers;
use crate::model::clip;
use crate::model::spec_primary;
use crate::model::spec_program;
use crate::model::spec_statement;
use crate::token::Token;
use crate::token::TokenKind;

verus! {

/// Modifier order is preserved: over any maximal run of `k` modifier
/// tokens, the collected flags are exactly the flags of those tokens,
/// in encounter order.
pub proof fn lemma_modifier_order(toks: Seq<Token>, pos: nat, k: nat)
    requires
        pos + k <= toks.len(),
        forall|i: int| pos <= i < pos + k ==> is_modifier(#[trigger] toks[i].kind),
        pos + k == toks.len() || !is_modifier(toks[pos + k as int].kind),
    ensures
        spec_modifiers(toks, pos).1 == pos + k,
        spec_modifiers(toks, pos).0 =~= Seq::new(k, |i: int| spec_flag(toks[pos + i].kind)),
    decreases k,
{
    if k == 0 {
        assert(spec_modifiers(toks, pos).0 =~= Seq::new(0, |i: int| spec_flag(toks[pos + i].kind)));
    } else {
        assert(is_modifier(toks[pos as int].kind));
        lemma_modifier_order(toks, pos + 1, (k - 1) as nat);
        assert(spec_modifiers(toks, pos).0 =~= Seq::new(
            k,
            |i: int| spec_flag(toks[pos + i].kind),
        ));
    }
}

/// A statement opened by a maximal run of `k` modifier tokens, when it
/// parses at all, is a method whose flags are exactly those tokens'
/// flags, in encounter order.
pub proof fn lemma_method_flag_order(toks: Seq<Token>, pos: nat, k: nat, s: StatementView, q: nat)
    requires
        1 <= k,
        pos + k <= toks.len(),
        forall|i: int| pos <= i < pos + k ==> is_modifier(#[trigger] toks[i].kind),
        pos + k == toks.len() || !is_modifier(toks[pos + k as int].kind),
        spec_statement(toks, pos) == Ok::<(StatementView, nat), ParseErrorView>((s, q)),
    ensures
        s matches StatementView::Method { flags, .. } && flags =~= Seq::new(
            k,
            |i: int| spec_flag(toks[pos + i].kind),
        ),
{
    lemma_modifier_order(toks, pos, k);
    assert(is_modifier(toks[pos as int].kind));
    assert(spec_statement(toks, pos) == crate::model::spec_modified_statement(toks, pos));
}

/// An expression parse that starts with no remaining tokens yields the
/// end-of-input error.
pub proof fn lemma_expression_end_of_input(toks: Seq<Token>, pos: nat, bp: u8)
    requires
        pos >= toks.len(),
    ensures
        spec_expression(toks, pos, bp) == Err::<(ExpressionView, nat), ParseErrorView>(
            ParseErrorView::UnexpectedEndOfFile,
        ),
{
}

/// A block that reaches the end of input before its closing brace yields
/// the expected-token error for the missing delimiter.
pub proof fn lemma_block_missing_terminator(toks: Seq<Token>, pos: nat)
    requires
        pos >= toks.len(),
    ensures
        spec_block(toks, pos) == Err::<(Seq<StatementView>, nat), ParseErrorView>(
            ParseErrorView::ExpectedToken,
        ),
{
}

/// A class-body statement that resolves to neither a function nor a
/// method yields the invalid-class-statement error, whatever it was.
pub proof fn lemma_class_body_rejects(toks: Seq<Token>, pos: nat, s: StatementView, q: nat)
    requires
        pos < toks.len(),
        !(toks[pos as int].kind matches TokenKind::RightBrace),
        spec_statement(toks, pos) == Ok::<(StatementView, nat), ParseErrorView>((s, q)),
        spec_as_method(s) is None,
    ensures
        spec_class_body(toks, pos) == Err::<(Seq<StatementView>, nat), ParseErrorView>(
            ParseErrorView::InvalidClassStatement,
        ),
{
}

/// An empty class body yields a class with no members at all.
pub proof fn lemma_empty_class(toks: Seq<Token>, pos: nat, name: Seq<char>)
    requires
        pos + 4 <= toks.len(),
        toks[pos as int].kind matches TokenKind::Class,
        toks[pos + 1 as int].kind matches TokenKind::Identifier(nm) && nm@ == name,
        toks[pos + 2 as int].kind matches TokenKind::LeftBrace,
        toks[pos + 3 as int].kind matches TokenKind::RightBrace,
    ensures
        spec_statement(toks, pos) == Ok::<(StatementView, nat), ParseErrorView>((
            StatementView::Class {
                name,
                extends: None,
                implements: seq![],
                body: seq![],
                flag: None,
            },
            (pos + 4) as nat,
        )),
{
    assert(spec_class_body(toks, (pos + 3) as nat) == Ok::<(Seq<StatementView>, nat), ParseErrorView>((
        Seq::empty(),
        (pos + 4) as nat,
    )));
    assert(spec_statement(toks, pos) == crate::model::spec_class_statement(toks, pos));
}

/// A successful parse leaves nothing behind: the program rule stops
/// only at the end of the token sequence.
pub proof fn lemma_program_consumes_all(toks: Seq<Token>, pos: nat)
    requires
        pos <= toks.len(),
        spec_program(toks, pos) is Ok,
    ensures
        spec_program(toks, pos)->Ok_0.1 == toks.len(),
    decreases toks.len() - pos,
{
    let n = toks.len();
    if pos < n {
        match toks[pos as int].kind {
            TokenKind::OpenTag(_) => {
                lemma_program_consumes_all(toks, pos + 1);
            },
            _ => {
                match spec_statement(toks, pos) {
                    Ok((s, q0)) => {
                        lemma_program_consumes_all(toks, clip(pos, q0, n));
                    },
                    Err(_) => {},
                }
            },
        }
    }
}

/// The additive operators are left-associative: a three-operand chain at
/// one tier folds its first two operands first.
pub proof fn lemma_additive_left_assoc(
    toks: Seq<Token>,
    va: ExpressionView,
    vb: ExpressionView,
    vc: ExpressionView,
)
    requires
        toks.len() == 5,
        spec_primary(toks[0].kind) == Ok::<ExpressionView, ParseErrorView>(va),
        (toks[1].kind matches TokenKind::Plus) || (toks[1].kind matches TokenKind::Minus),
        spec_primary(toks[2].kind) == Ok::<ExpressionView, ParseErrorView>(vb),
        (toks[3].kind matches TokenKind::Plus) || (toks[3].kind matches TokenKind::Minus),
        spec_primary(toks[4].kind) == Ok::<ExpressionView, ParseErrorView>(vc),
    ensures
        spec_expression(toks, 0, 0) == Ok::<(ExpressionView, nat), ParseErrorView>((
            ExpressionView::Infix(
                Box::new(ExpressionView::Infix(Box::new(va), spec_infix_op(toks[1].kind), Box::new(vb))),
                spec_infix_op(toks[3].kind),
                Box::new(vc),
            ),
            5nat,
        )),
{
    reveal_with_fuel(spec_expression, 4);
    reveal_with_fuel(spec_expr_ops, 6);
}

/// The comparison operator binds strictly looser than the additive
/// tier: the additive chain on its right folds first.
pub proof fn lemma_additive_tighter_than_comparison(
    toks: Seq<Token>,
    va: ExpressionView,
    vb: ExpressionView,
    vc: ExpressionView,
)
    requires
        toks.len() == 5,
        spec_primary(toks[0].kind) == Ok::<ExpressionView, ParseErrorView>(va),
        toks[1].kind matches TokenKind::LessThan,
        spec_primary(toks[2].kind) == Ok::<ExpressionView, ParseErrorView>(vb),
        (toks[3].kind matches TokenKind::Plus) || (toks[3].kind matches TokenKind::Minus),
        spec_primary(toks[4].kind) == Ok::<ExpressionView, ParseErrorView>(vc),
    ensures
        spec_expression(toks, 0, 0) == Ok::<(ExpressionView, nat), ParseErrorView>((
            ExpressionView::Infix(
                Box::new(va),
                InfixOp::LessThan,
                Box::new(ExpressionView::Infix(Box::new(vb), spec_infix_op(toks[3].kind), Box::new(vc))),
            ),
            5nat,
        )),
{
    let o3 = spec_infix_op(toks[3].kind);
    assert(spec_expr_ops(toks, 5, vc, 12) == Ok::<(ExpressionView, nat), ParseErrorView>((
        vc,
        5nat,
    )));
    assert(spec_expression(toks, 4, 12) == Ok::<(ExpressionView, nat), ParseErrorView>((
        vc,
        5nat,
    )));
    let vbc = ExpressionView::Infix(Box::new(vb), o3, Box::new(vc));
    assert(spec_expr_ops(toks, 5, vbc, 10) == Ok::<(ExpressionView, nat), ParseErrorView>((
        vbc,
        5nat,
    )));
    assert(spec_expr_ops(toks, 3, vb, 10) == Ok::<(ExpressionView, nat), ParseErrorView>((
        vbc,
        5nat,
    )));
    assert(spec_expression(toks, 2, 10) == Ok::<(ExpressionView, nat), ParseErrorView>((
        vbc,
        5nat,
    )));
    let vab = ExpressionView::Infix(Box::new(va), InfixOp::LessThan, Box::new(vbc));
    assert(spec_expr_ops(toks, 5, vab, 0) == Ok::<(ExpressionView, nat), ParseErrorView>((
        vab,
        5nat,
    )));
    assert(spec_expr_ops(toks, 1, va, 0) == Ok::<(ExpressionView, nat), ParseErrorView>((
        vab,
        5nat,
    )));
}

/// Call application binds strictly tighter than the additive tier: a
/// call on the left operand folds before the addition.
pub proof fn lemma_call_tighter_than_additive(
    toks: Seq<Token>,
    vf: ExpressionView,
    vx: ExpressionView,
    vb: ExpressionView,
)
    requires
        toks.len() == 6,
        spec_primary(toks[0].kind) == Ok::<ExpressionView, ParseErrorView>(vf),
        toks[1].kind matches TokenKind::LeftParen,
        spec_primary(toks[2].kind) == Ok::<ExpressionView, ParseErrorView>(vx),
        toks[3].kind matches TokenKind::RightParen,
        (toks[4].kind matches TokenKind::Plus) || (toks[4].kind matches TokenKind::Minus),
        spec_primary(toks[5].kind) == Ok::<ExpressionView, ParseErrorView>(vb),
    ensures
        spec_expression(toks, 0, 0) == Ok::<(ExpressionView, nat), ParseErrorView>((
            ExpressionView::Infix(
                Box::new(ExpressionView::Call(Box::new(vf), seq![vx])),
                spec_infix_op(toks[4].kind),
                Box::new(vb),
            ),
            6nat,
        )),
{
    let o4 = spec_infix_op(toks[4].kind);
    assert(spec_expr_ops(toks, 3, vx, 0) == Ok::<(ExpressionView, nat), ParseErrorView>((
        vx,
        3nat,
    )));
    assert(spec_expression(toks, 2, 0) == Ok::<(ExpressionView, nat), ParseErrorView>((
        vx,
        3nat,
    )));
    assert(spec_call_args(toks, 3) == Ok::<(Seq<ExpressionView>, nat), ParseErrorView>((
        Seq::empty(),
        4nat,
    )));
    assert(seq![vx].add(Seq::<ExpressionView>::empty()) =~= seq![vx]);
    assert(spec_call_args(toks, 2) == Ok::<(Seq<ExpressionView>, nat), ParseErrorView>((
        seq![vx],
        4nat,
    )));
    let vcall = ExpressionView::Call(Box::new(vf), seq![vx]);
    assert(spec_expr_ops(toks, 6, vb, 12) == Ok::<(ExpressionView, nat), ParseErrorView>((
        vb,
        6nat,
    )));
    assert(spec_expression(toks, 5, 12) == Ok::<(ExpressionView, nat), ParseErrorView>((
        vb,
        6nat,
    )));
    let vres = ExpressionView::Infix(Box::new(vcall), o4, Box::new(vb));
    assert(spec_expr_ops(toks, 6, vres, 0) == Ok::<(ExpressionView, nat), ParseErrorView>((
        vres,
        6nat,
    )));
    assert(spec_expr_ops(toks, 4, vcall, 0) == Ok::<(ExpressionView, nat), ParseErrorView>((
        vres,
        6nat,
    )));
    assert(spec_expr_ops(toks, 1, vf, 0) == Ok::<(ExpressionView, nat), ParseErrorView>((
        vres,
        6nat,
    )));
}

} // verus!
