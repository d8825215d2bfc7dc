use vstd::prelude::*;

verus! {

/// An ordered sequence of statements delimited by braces.
pub type Block = Vec<Statement>;

/// A whole compilation unit: its top-level statements in source order.
pub type Program = Block;

/// A name slot, kept type-distinct from free-form string literals.
#[derive(Debug, PartialEq, Clone)]
pub struct Identifier {
    pub name: String,
}

impl DeepView for Identifier {
    type V = Seq<char>;

    open spec fn deep_view(&self) -> Seq<char> {
        self.name@
    }
}

impl From<String> for Identifier {
    fn from(name: String) -> (r: Identifier) {
        Identifier { name }
    }
}

impl vstd::std_specs::convert::FromSpecImpl<String> for Identifier {
    open spec fn obeys_from_spec() -> bool {
        true
    }

    open spec fn from_spec(name: String) -> Identifier {
        Identifier { name }
    }
}

/// A visibility or mutability modifier collected before a method.
#[derive(Debug, Clone, PartialEq)]
pub enum MethodFlag {
    Public,
    Protected,
    Private,
    Static,
}

impl DeepView for MethodFlag {
    type V = MethodFlag;

    open spec fn deep_view(&self) -> MethodFlag {
        *self
    }
}

/// A modifier on a whole class declaration.
#[derive(Debug, Clone, PartialEq)]
pub enum ClassFlag {
    Final,
    Abstract,
}

impl DeepView for ClassFlag {
    type V = ClassFlag;

    open spec fn deep_view(&self) -> ClassFlag {
        *self
    }
}

/// A visibility flag on a parameter, marking constructor-property
/// promotion: the parameter simultaneously declares an object property.
#[derive(Debug, Clone, PartialEq)]
pub enum PropertyFlag {
    Public,
    Protected,
    Private,
}

impl DeepView for PropertyFlag {
    type V = PropertyFlag;

    open spec fn deep_view(&self) -> PropertyFlag {
        *self
    }
}

/// A binary operator, derived from the token kind that spelled it.
#[derive(Debug, PartialEq, Clone)]
pub enum InfixOp {
    Add,
    Sub,
    LessThan,
}

impl DeepView for InfixOp {
    type V = InfixOp;

    open spec fn deep_view(&self) -> InfixOp {
        *self
    }
}

/// One entry of an array literal: positional or keyed.
#[derive(Debug)]
pub struct ArrayItem {
    pub key: Option<Expression>,
    pub value: Expression,
}

/// An expression tree. Each node exclusively owns its children.
#[derive(Debug)]
pub enum Expression {
    Int(i64),
    Variable(String),
    Infix(Box<Expression>, InfixOp, Box<Expression>),
    Call(Box<Expression>, Vec<Expression>),
    Identifier(String),
    Assign(Box<Expression>, Box<Expression>),
    Array(Vec<ArrayItem>),
}

/// The mathematical shape of an [`ArrayItem`].
pub struct ArrayItemView {
    pub key: Option<ExpressionView>,
    pub value: ExpressionView,
}

/// The mathematical shape of an [`Expression`]: names as character
/// sequences, children as plain sequences.
pub enum ExpressionView {
    Int(i64),
    Variable(Seq<char>),
    Infix(Box<ExpressionView>, InfixOp, Box<ExpressionView>),
    Call(Box<ExpressionView>, Seq<ExpressionView>),
    Identifier(Seq<char>),
    Assign(Box<ExpressionView>, Box<ExpressionView>),
    Array(Seq<ArrayItemView>),
}

/// The shape of an expression, by structural recursion.
pub open spec fn expr_view(e: Expression) -> ExpressionView
    decreases e,
{
    match e {
        Expression::Int(i) => ExpressionView::Int(i),
        Expression::Variable(v) => ExpressionView::Variable(v@),
        Expression::Infix(lhs, op, rhs) => ExpressionView::Infix(
            Box::new(expr_view(*lhs)),
            op,
            Box::new(expr_view(*rhs)),
        ),
        Expression::Call(target, args) => ExpressionView::Call(
            Box::new(expr_view(*target)),
            exprs_view(args@),
        ),
        Expression::Identifier(i) => ExpressionView::Identifier(i@),
        Expression::Assign(target, value) => ExpressionView::Assign(
            Box::new(expr_view(*target)),
            Box::new(expr_view(*value)),
        ),
        Expression::Array(items) => ExpressionView::Array(items_view(items@)),
    }
}

/// The shapes of a sequence of expressions, in order.
pub open spec fn exprs_view(es: Seq<Expression>) -> Seq<ExpressionView>
    decreases es,
{
    if es.len() == 0 {
        seq![]
    } else {
        seq![expr_view(es[0])].add(exprs_view(es.subrange(1, es.len() as int)))
    }
}

/// The shapes of a sequence of array entries, in order.
pub open spec fn items_view(items: Seq<ArrayItem>) -> Seq<ArrayItemView>
    decreases items,
{
    if items.len() == 0 {
        seq![]
    } else {
        seq![array_item_view(items[0])].add(items_view(items.subrange(1, items.len() as int)))
    }
}

/// The shape of one array entry.
pub open spec fn array_item_view(a: ArrayItem) -> ArrayItemView
    decreases a,
{
    ArrayItemView {
        key: match a.key {
            Some(k) => Some(expr_view(k)),
            None => None,
        },
        value: expr_view(a.value),
    }
}

impl DeepView for ArrayItem {
    type V = ArrayItemView;

    open spec fn deep_view(&self) -> ArrayItemView {
        array_item_view(*self)
    }
}

impl DeepView for Expression {
    type V = ExpressionView;

    open spec fn deep_view(&self) -> ExpressionView {
        expr_view(*self)
    }
}

/// A declared parameter: its name, optional type annotation, spread and
/// by-reference markers, optional default value, and optional promotion
/// flag. The grammar yields at most one of `variadic` and `by_ref`.
#[derive(Debug)]
pub struct Param {
    /// Always an [`Expression::Variable`].
    pub name: Expression,
    pub ty: Option<String>,
    pub variadic: bool,
    pub by_ref: bool,
    pub default: Option<Expression>,
    pub flag: Option<PropertyFlag>,
}

/// The mathematical shape of a [`Param`].
pub struct ParamView {
    pub name: ExpressionView,
    pub ty: Option<Seq<char>>,
    pub variadic: bool,
    pub by_ref: bool,
    pub default: Option<ExpressionView>,
    pub flag: Option<PropertyFlag>,
}

/// The shape of a parameter.
pub open spec fn param_view(p: Param) -> ParamView {
    ParamView {
        name: expr_view(p.name),
        ty: match p.ty {
            Some(t) => Some(t@),
            None => None,
        },
        variadic: p.variadic,
        by_ref: p.by_ref,
        default: match p.default {
            Some(d) => Some(expr_view(d)),
            None => None,
        },
        flag: p.flag,
    }
}

impl DeepView for Param {
    type V = ParamView;

    open spec fn deep_view(&self) -> ParamView {
        param_view(*self)
    }
}

impl From<String> for Param {
    fn from(name: String) -> (r: Param) {
        Param {
            name: Expression::Variable(name),
            ty: None,
            variadic: false,
            by_ref: false,
            default: None,
            flag: None,
        }
    }
}

impl vstd::std_specs::convert::FromSpecImpl<String> for Param {
    open spec fn obeys_from_spec() -> bool {
        true
    }

    open spec fn from_spec(name: String) -> Param {
        Param {
            name: Expression::Variable(name),
            ty: None,
            variadic: false,
            by_ref: false,
            default: None,
            flag: None,
        }
    }
}

/// One statement of the language.
#[derive(Debug)]
pub enum Statement {
    /// Literal passthrough text outside the code delimiters.
    InlineHtml(String),
    /// A bare variable declaration.
    Var { var: String },
    /// A bare property declaration.
    Property { var: String },
    /// A free function.
    Function { name: Identifier, params: Vec<Param>, body: Block },
    /// A class declaration; the body holds only methods.
    Class {
        name: Identifier,
        extends: Option<Identifier>,
        implements: Vec<Identifier>,
        body: Block,
        flag: Option<ClassFlag>,
    },
    /// A function carrying visibility or mutability modifiers, in
    /// encounter order.
    Method { name: Identifier, params: Vec<Param>, body: Block, flags: Vec<MethodFlag> },
    /// The single-branch, braced conditional form.
    If { condition: Expression, then: Block },
    Return { value: Option<Expression> },
    /// A non-empty comma-separated list of values to emit.
    Echo { values: Vec<Expression> },
    /// An expression used as a statement.
    Expression { expr: Expression },
    /// The empty statement.
    Noop,
}

/// The mathematical shape of a [`Statement`].
pub enum StatementView {
    InlineHtml(Seq<char>),
    Var { var: Seq<char> },
    Property { var: Seq<char> },
    Function { name: Seq<char>, params: Seq<ParamView>, body: Seq<StatementView> },
    Class {
        name: Seq<char>,
        extends: Option<Seq<char>>,
        implements: Seq<Seq<char>>,
        body: Seq<StatementView>,
        flag: Option<ClassFlag>,
    },
    Method { name: Seq<char>, params: Seq<ParamView>, body: Seq<StatementView>, flags: Seq<MethodFlag> },
    If { condition: ExpressionView, then: Seq<StatementView> },
    Return { value: Option<ExpressionView> },
    Echo { values: Seq<ExpressionView> },
    Expression { expr: ExpressionView },
    Noop,
}

/// The shapes of a sequence of parameters, in order.
pub open spec fn params_view(ps: Seq<Param>) -> Seq<ParamView>
    decreases ps,
{
    if ps.len() == 0 {
        seq![]
    } else {
        seq![param_view(ps[0])].add(params_view(ps.subrange(1, ps.len() as int)))
    }
}

/// The names of a sequence of identifiers, in order.
pub open spec fn idents_view(ids: Seq<Identifier>) -> Seq<Seq<char>> {
    Seq::new(ids.len(), |i: int| ids[i].name@)
}

/// The shapes of a sequence of statements, in order.
pub open spec fn stmts_view(ss: Seq<Statement>) -> Seq<StatementView>
    decreases ss,
{
    if ss.len() == 0 {
        seq![]
    } else {
        seq![stmt_view(ss[0])].add(stmts_view(ss.subrange(1, ss.len() as int)))
    }
}

/// The shape of a statement, by structural recursion.
pub open spec fn stmt_view(s: Statement) -> StatementView
    decreases s,
{
    match s {
        Statement::InlineHtml(html) => StatementView::InlineHtml(html@),
        Statement::Var { var } => StatementView::Var { var: var@ },
        Statement::Property { var } => StatementView::Property { var: var@ },
        Statement::Function { name, params, body } => StatementView::Function {
            name: name.name@,
            params: params_view(params@),
            body: stmts_view(body@),
        },
        Statement::Class { name, extends, implements, body, flag } => StatementView::Class {
            name: name.name@,
            extends: match extends {
                Some(e) => Some(e.name@),
                None => None,
            },
            implements: idents_view(implements@),
            body: stmts_view(body@),
            flag,
        },
        Statement::Method { name, params, body, flags } => StatementView::Method {
            name: name.name@,
            params: params_view(params@),
            body: stmts_view(body@),
            flags: flags@,
        },
        Statement::If { condition, then } => StatementView::If {
            condition: expr_view(condition),
            then: stmts_view(then@),
        },
        Statement::Return { value } => StatementView::Return {
            value: match value {
                Some(v) => Some(expr_view(v)),
                None => None,
            },
        },
        Statement::Echo { values } => StatementView::Echo { values: exprs_view(values@) },
        Statement::Expression { expr } => StatementView::Expression { expr: expr_view(expr) },
        Statement::Noop => StatementView::Noop,
    }
}

impl DeepView for Statement {
    type V = StatementView;

    open spec fn deep_view(&self) -> StatementView {
        stmt_view(*self)
    }
}

/// The sequence view of expressions agrees with the elementwise view.
pub proof fn lemma_exprs_view(es: Seq<Expression>)
    ensures
        exprs_view(es) =~= Seq::new(es.len(), |i: int| expr_view(es[i])),
    decreases es.len(),
{
    if es.len() > 0 {
        lemma_exprs_view(es.subrange(1, es.len() as int));
    }
}

/// The sequence view of parameters agrees with the elementwise view.
pub proof fn lemma_params_view(ps: Seq<Param>)
    ensures
        params_view(ps) =~= Seq::new(ps.len(), |i: int| param_view(ps[i])),
    decreases ps.len(),
{
    if ps.len() > 0 {
        lemma_params_view(ps.subrange(1, ps.len() as int));
    }
}

/// The sequence view of statements agrees with the elementwise view.
pub proof fn lemma_stmts_view(ss: Seq<Statement>)
    ensures
        stmts_view(ss) =~= Seq::new(ss.len(), |i: int| stmt_view(ss[i])),
    decreases ss.len(),
{
    if ss.len() > 0 {
        lemma_stmts_view(ss.subrange(1, ss.len() as int));
    }
}

} // verus!
