//! The relational model that rules are matched against and that they produce:
//! columns, scalar expressions and logical plans, held as plain values.
use vstd::prelude::*;
use crate::ast::opaque::{Schema, SpecSchema, SpecType, Type};

verus! {

broadcast use vstd::std_specs::vec::group_vec_axioms;

pub open spec fn opt_str(o: Option<String>) -> Option<Seq<char>> {
    match o {
        Some(s) => Some(s@),
        None => None,
    }
}

/// A (possibly qualified) column reference.
#[derive(Debug)]
pub struct Column {
    pub relation: Option<String>,
    pub name: String,
}

pub struct SpecColumn {
    pub relation: Option<Seq<char>>,
    pub name: Seq<char>,
}

impl View for Column {
    type V = SpecColumn;

    open spec fn view(&self) -> SpecColumn {
        SpecColumn { relation: opt_str(self.relation), name: self.name@ }
    }
}

/// One output field of a plan: its qualified name, engine data type and nullability.
#[derive(Debug)]
pub struct QualifiedField {
    pub qualifier: Option<String>,
    pub name: String,
    pub data_type: String,
    pub nullable: bool,
}

pub struct SpecQualifiedField {
    pub qualifier: Option<Seq<char>>,
    pub name: Seq<char>,
    pub data_type: Seq<char>,
    pub nullable: bool,
}

impl View for QualifiedField {
    type V = SpecQualifiedField;

    open spec fn view(&self) -> SpecQualifiedField {
        SpecQualifiedField {
            qualifier: opt_str(self.qualifier),
            name: self.name@,
            data_type: self.data_type@,
            nullable: self.nullable,
        }
    }
}

pub open spec fn view_fields(s: Seq<QualifiedField>) -> Seq<SpecQualifiedField> {
    s.map_values(|f: QualifiedField| f@)
}

/// The column that an output field is referred to by.
pub open spec fn field_column(f: SpecQualifiedField) -> SpecColumn {
    SpecColumn { relation: f.qualifier, name: f.name }
}

pub open spec fn schema_columns(s: Seq<SpecQualifiedField>) -> Seq<SpecColumn> {
    s.map_values(|f: SpecQualifiedField| field_column(f))
}

/// A literal value: its display text, its debug rendering (which names it in
/// schemas, e.g. `Int32(10)`) and its engine data type.
#[derive(Debug)]
pub struct Literal {
    pub value: String,
    pub debug: String,
    pub data_type: String,
}

pub struct SpecLiteral {
    pub value: Seq<char>,
    pub debug: Seq<char>,
    pub data_type: Seq<char>,
}

impl View for Literal {
    type V = SpecLiteral;

    open spec fn view(&self) -> SpecLiteral {
        SpecLiteral { value: self.value@, debug: self.debug@, data_type: self.data_type@ }
    }
}

/// Binary operators; operators without a dedicated variant keep their display text.
#[derive(Debug)]
pub enum Operator {
    Eq,
    NotEq,
    Lt,
    LtEq,
    Gt,
    GtEq,
    Plus,
    Minus,
    Multiply,
    Divide,
    Modulo,
    And,
    Or,
    Other(String),
}

pub enum SpecOperator {
    Eq,
    NotEq,
    Lt,
    LtEq,
    Gt,
    GtEq,
    Plus,
    Minus,
    Multiply,
    Divide,
    Modulo,
    And,
    Or,
    Other(Seq<char>),
}

impl View for Operator {
    type V = SpecOperator;

    open spec fn view(&self) -> SpecOperator {
        match self {
            Operator::Eq => SpecOperator::Eq,
            Operator::NotEq => SpecOperator::NotEq,
            Operator::Lt => SpecOperator::Lt,
            Operator::LtEq => SpecOperator::LtEq,
            Operator::Gt => SpecOperator::Gt,
            Operator::GtEq => SpecOperator::GtEq,
            Operator::Plus => SpecOperator::Plus,
            Operator::Minus => SpecOperator::Minus,
            Operator::Multiply => SpecOperator::Multiply,
            Operator::Divide => SpecOperator::Divide,
            Operator::Modulo => SpecOperator::Modulo,
            Operator::And => SpecOperator::And,
            Operator::Or => SpecOperator::Or,
            Operator::Other(s) => SpecOperator::Other(s@),
        }
    }
}

/// Input and output types of an abstract function.
#[derive(Debug)]
pub struct Signature {
    pub input_types: Vec<Type>,
    pub return_type: Type,
}

pub struct SpecSignature {
    pub input_types: Seq<SpecType>,
    pub return_type: SpecType,
}

impl View for Signature {
    type V = SpecSignature;

    open spec fn view(&self) -> SpecSignature {
        SpecSignature {
            input_types: self.input_types@.map_values(|t: Type| t@),
            return_type: self.return_type@,
        }
    }
}

/// What a function call refers to: an engine function, an uninterpreted pattern
/// symbol that the matcher binds, or an abstract function that it does not bind.
#[derive(Debug)]
pub enum Callee {
    Builtin,
    Pattern(Signature),
    Abstract(Signature),
}

pub enum SpecCallee {
    Builtin,
    Pattern(SpecSignature),
    Abstract(SpecSignature),
}

impl View for Callee {
    type V = SpecCallee;

    open spec fn view(&self) -> SpecCallee {
        match self {
            Callee::Builtin => SpecCallee::Builtin,
            Callee::Pattern(s) => SpecCallee::Pattern(s@),
            Callee::Abstract(s) => SpecCallee::Abstract(s@),
        }
    }
}

/// A function reference: its name, what it refers to, and its result type.
#[derive(Debug)]
pub struct FunctionRef {
    pub name: String,
    pub callee: Callee,
    pub return_type: String,
}

pub struct SpecFunctionRef {
    pub name: Seq<char>,
    pub callee: SpecCallee,
    pub return_type: Seq<char>,
}

impl View for FunctionRef {
    type V = SpecFunctionRef;

    open spec fn view(&self) -> SpecFunctionRef {
        SpecFunctionRef { name: self.name@, callee: self.callee@, return_type: self.return_type@ }
    }
}

#[derive(Debug)]
pub enum UnaryOp {
    Not,
    IsNull,
    IsNotNull,
    Negative,
}

#[derive(Debug)]
pub enum JoinType {
    Inner,
    Left,
    Right,
    Full,
    LeftSemi,
    LeftAnti,
    RightSemi,
    RightAnti,
    LeftMark,
    RightMark,
}

/// A sort key.
#[derive(Debug)]
pub struct SortExpr {
    pub expr: Expr,
    pub asc: bool,
    pub nulls_first: bool,
}

/// One `WHEN .. THEN ..` arm of a `CASE`.
#[derive(Debug)]
pub struct WhenThen {
    pub condition: Expr,
    pub result: Expr,
}

/// A subquery: its plan and the outer columns it refers to.
#[derive(Debug)]
pub struct Subquery {
    pub plan: Box<Plan>,
    pub outer_ref_columns: Vec<Expr>,
}

/// A `LIKE` or `SIMILAR TO` test.
#[derive(Debug)]
pub struct LikeExpr {
    pub negated: bool,
    pub expr: Box<Expr>,
    pub pattern: Box<Expr>,
    pub escape_char: Option<char>,
    pub case_insensitive: bool,
}

/// Aggregate call parameters.
#[derive(Debug)]
pub struct AggregateParams {
    pub args: Vec<Expr>,
    pub distinct: bool,
    pub filter: Option<Box<Expr>>,
    pub order_by: Vec<SortExpr>,
    pub null_treatment: Option<String>,
}

/// A scalar expression.
#[derive(Debug)]
pub enum Expr {
    Column(Column),
    OuterReferenceColumn(String, Column),
    Literal(Literal),
    Alias { expr: Box<Expr>, relation: Option<String>, name: String },
    Binary { left: Box<Expr>, op: Operator, right: Box<Expr> },
    ScalarFunction { func: FunctionRef, args: Vec<Expr> },
    AggregateFunction { func: FunctionRef, params: AggregateParams },
    Unary(UnaryOp, Box<Expr>),
    Between { expr: Box<Expr>, negated: bool, low: Box<Expr>, high: Box<Expr> },
    Case { operand: Option<Box<Expr>>, arms: Vec<WhenThen>, else_expr: Option<Box<Expr>> },
    Cast { expr: Box<Expr>, data_type: String, try_cast: bool },
    InList { expr: Box<Expr>, list: Vec<Expr>, negated: bool },
    Like(LikeExpr),
    SimilarTo(LikeExpr),
    ScalarSubquery(Subquery),
    InSubquery { expr: Box<Expr>, subquery: Subquery, negated: bool },
    Exists { subquery: Subquery, negated: bool },
    /// Any other expression, by its schema name.
    Other(String),
}

/// A join key pair `left = right`.
#[derive(Debug)]
pub struct JoinKey {
    pub left: Expr,
    pub right: Expr,
}

/// An abstract table of a pattern.
#[derive(Debug)]
pub struct SourceNode {
    pub table_name: String,
    pub schema: Schema,
}

/// A logical plan.
#[derive(Debug)]
pub enum Plan {
    /// Abstract source of a pattern; matches any plan of a compatible schema.
    Source(SourceNode),
    /// Abstract empty relation of a pattern, shaped like its inner plan.
    Empty(Box<Plan>),
    TableScan { table_name: String, schema: Vec<QualifiedField> },
    EmptyRelation { produce_one_row: bool, schema: Vec<QualifiedField> },
    Filter { predicate: Expr, input: Box<Plan> },
    Projection { exprs: Vec<Expr>, input: Box<Plan>, schema: Vec<QualifiedField> },
    Aggregate {
        input: Box<Plan>,
        group_exprs: Vec<Expr>,
        aggr_exprs: Vec<Expr>,
        schema: Vec<QualifiedField>,
    },
    Join {
        left: Box<Plan>,
        right: Box<Plan>,
        on: Vec<JoinKey>,
        filter: Option<Expr>,
        join_type: JoinType,
        null_equals_null: bool,
        schema: Vec<QualifiedField>,
    },
    Union { inputs: Vec<Plan>, schema: Vec<QualifiedField> },
    Sort { exprs: Vec<SortExpr>, input: Box<Plan>, fetch: Option<u64> },
    Limit { skip: Option<Box<Expr>>, fetch: Option<Box<Expr>>, input: Box<Plan> },
    Distinct(Box<Plan>),
    SubqueryAlias { input: Box<Plan>, alias: String, schema: Vec<QualifiedField> },
    Subquery(Subquery),
    /// Any other plan node, by its display name and output schema.
    Other { name: String, schema: Vec<QualifiedField> },
}

// ---------------------------------------------------------------------------
// Mathematical counterparts
// ---------------------------------------------------------------------------

pub struct SpecSortExpr {
    pub expr: SpecExpr,
    pub asc: bool,
    pub nulls_first: bool,
}

pub struct SpecWhenThen {
    pub condition: SpecExpr,
    pub result: SpecExpr,
}

pub struct SpecSubquery {
    pub plan: Box<SpecPlan>,
    pub outer_ref_columns: Seq<SpecExpr>,
}

pub struct SpecLikeExpr {
    pub negated: bool,
    pub expr: Box<SpecExpr>,
    pub pattern: Box<SpecExpr>,
    pub escape_char: Option<char>,
    pub case_insensitive: bool,
}

pub struct SpecAggregateParams {
    pub args: Seq<SpecExpr>,
    pub distinct: bool,
    pub filter: Option<Box<SpecExpr>>,
    pub order_by: Seq<SpecSortExpr>,
    pub null_treatment: Option<Seq<char>>,
}

pub enum SpecExpr {
    Column(SpecColumn),
    OuterReferenceColumn(Seq<char>, SpecColumn),
    Literal(SpecLiteral),
    Alias { expr: Box<SpecExpr>, relation: Option<Seq<char>>, name: Seq<char> },
    Binary { left: Box<SpecExpr>, op: SpecOperator, right: Box<SpecExpr> },
    ScalarFunction { func: SpecFunctionRef, args: Seq<SpecExpr> },
    AggregateFunction { func: SpecFunctionRef, params: SpecAggregateParams },
    Unary(UnaryOp, Box<SpecExpr>),
    Between { expr: Box<SpecExpr>, negated: bool, low: Box<SpecExpr>, high: Box<SpecExpr> },
    Case { operand: Option<Box<SpecExpr>>, arms: Seq<SpecWhenThen>, else_expr: Option<Box<SpecExpr>> },
    Cast { expr: Box<SpecExpr>, data_type: Seq<char>, try_cast: bool },
    InList { expr: Box<SpecExpr>, list: Seq<SpecExpr>, negated: bool },
    Like(SpecLikeExpr),
    SimilarTo(SpecLikeExpr),
    ScalarSubquery(SpecSubquery),
    InSubquery { expr: Box<SpecExpr>, subquery: SpecSubquery, negated: bool },
    Exists { subquery: SpecSubquery, negated: bool },
    Other(Seq<char>),
}

pub struct SpecJoinKey {
    pub left: SpecExpr,
    pub right: SpecExpr,
}

pub struct SpecSourceNode {
    pub table_name: Seq<char>,
    pub schema: SpecSchema,
}

pub enum SpecPlan {
    Source(SpecSourceNode),
    Empty(Box<SpecPlan>),
    TableScan { table_name: Seq<char>, schema: Seq<SpecQualifiedField> },
    EmptyRelation { produce_one_row: bool, schema: Seq<SpecQualifiedField> },
    Filter { predicate: SpecExpr, input: Box<SpecPlan> },
    Projection { exprs: Seq<SpecExpr>, input: Box<SpecPlan>, schema: Seq<SpecQualifiedField> },
    Aggregate {
        input: Box<SpecPlan>,
        group_exprs: Seq<SpecExpr>,
        aggr_exprs: Seq<SpecExpr>,
        schema: Seq<SpecQualifiedField>,
    },
    Join {
        left: Box<SpecPlan>,
        right: Box<SpecPlan>,
        on: Seq<SpecJoinKey>,
        filter: Option<SpecExpr>,
        join_type: JoinType,
        null_equals_null: bool,
        schema: Seq<SpecQualifiedField>,
    },
    Union { inputs: Seq<SpecPlan>, schema: Seq<SpecQualifiedField> },
    Sort { exprs: Seq<SpecSortExpr>, input: Box<SpecPlan>, fetch: Option<u64> },
    Limit { skip: Option<Box<SpecExpr>>, fetch: Option<Box<SpecExpr>>, input: Box<SpecPlan> },
    Distinct(Box<SpecPlan>),
    SubqueryAlias { input: Box<SpecPlan>, alias: Seq<char>, schema: Seq<SpecQualifiedField> },
    Subquery(SpecSubquery),
    Other { name: Seq<char>, schema: Seq<SpecQualifiedField> },
}

pub open spec fn view_opt_expr(o: Option<Box<Expr>>) -> Option<Box<SpecExpr>>
    decreases o,
{
    match o {
        Some(b) => Some(Box::new(view_expr(*b))),
        None => None,
    }
}

pub open spec fn view_subquery(q: Subquery) -> SpecSubquery
    decreases q,
{
    SpecSubquery { plan: Box::new(view_plan(*q.plan)), outer_ref_columns: view_exprs(q.outer_ref_columns@) }
}

pub open spec fn view_like(l: LikeExpr) -> SpecLikeExpr
    decreases l,
{
    SpecLikeExpr {
        negated: l.negated,
        expr: Box::new(view_expr(*l.expr)),
        pattern: Box::new(view_expr(*l.pattern)),
        escape_char: l.escape_char,
        case_insensitive: l.case_insensitive,
    }
}

pub open spec fn view_params(p: AggregateParams) -> SpecAggregateParams
    decreases p,
{
    SpecAggregateParams {
        args: view_exprs(p.args@),
        distinct: p.distinct,
        filter: view_opt_expr(p.filter),
        order_by: view_sorts(p.order_by@),
        null_treatment: opt_str(p.null_treatment),
    }
}

pub open spec fn view_expr(e: Expr) -> SpecExpr
    decreases e,
{
    match e {
        Expr::Column(c) => SpecExpr::Column(c@),
        Expr::OuterReferenceColumn(t, c) => SpecExpr::OuterReferenceColumn(t@, c@),
        Expr::Literal(l) => SpecExpr::Literal(l@),
        Expr::Alias { expr, relation, name } => SpecExpr::Alias {
            expr: Box::new(view_expr(*expr)),
            relation: opt_str(relation),
            name: name@,
        },
        Expr::Binary { left, op, right } => SpecExpr::Binary {
            left: Box::new(view_expr(*left)),
            op: op@,
            right: Box::new(view_expr(*right)),
        },
        Expr::ScalarFunction { func, args } => SpecExpr::ScalarFunction { func: func@, args: view_exprs(args@) },
        Expr::AggregateFunction { func, params } => SpecExpr::AggregateFunction {
            func: func@,
            params: view_params(params),
        },
        Expr::Unary(op, inner) => SpecExpr::Unary(op, Box::new(view_expr(*inner))),
        Expr::Between { expr, negated, low, high } => SpecExpr::Between {
            expr: Box::new(view_expr(*expr)),
            negated,
            low: Box::new(view_expr(*low)),
            high: Box::new(view_expr(*high)),
        },
        Expr::Case { operand, arms, else_expr } => SpecExpr::Case {
            operand: view_opt_expr(operand),
            arms: view_arms(arms@),
            else_expr: view_opt_expr(else_expr),
        },
        Expr::Cast { expr, data_type, try_cast } => SpecExpr::Cast {
            expr: Box::new(view_expr(*expr)),
            data_type: data_type@,
            try_cast,
        },
        Expr::InList { expr, list, negated } => SpecExpr::InList {
            expr: Box::new(view_expr(*expr)),
            list: view_exprs(list@),
            negated,
        },
        Expr::Like(l) => SpecExpr::Like(view_like(l)),
        Expr::SimilarTo(l) => SpecExpr::SimilarTo(view_like(l)),
        Expr::ScalarSubquery(q) => SpecExpr::ScalarSubquery(view_subquery(q)),
        Expr::InSubquery { expr, subquery, negated } => SpecExpr::InSubquery {
            expr: Box::new(view_expr(*expr)),
            subquery: view_subquery(subquery),
            negated,
        },
        Expr::Exists { subquery, negated } => SpecExpr::Exists { subquery: view_subquery(subquery), negated },
        Expr::Other(s) => SpecExpr::Other(s@),
    }
}

pub open spec fn view_exprs(s: Seq<Expr>) -> Seq<SpecExpr>
    decreases s,
{
    if s.len() == 0 {
        Seq::empty()
    } else {
        view_exprs(s.drop_last()).push(view_expr(s.last()))
    }
}

pub open spec fn view_sort(x: SortExpr) -> SpecSortExpr
    decreases x,
{
    SpecSortExpr { expr: view_expr(x.expr), asc: x.asc, nulls_first: x.nulls_first }
}

pub open spec fn view_arm(x: WhenThen) -> SpecWhenThen
    decreases x,
{
    SpecWhenThen { condition: view_expr(x.condition), result: view_expr(x.result) }
}

pub open spec fn view_key(x: JoinKey) -> SpecJoinKey
    decreases x,
{
    SpecJoinKey { left: view_expr(x.left), right: view_expr(x.right) }
}

pub open spec fn view_sorts(s: Seq<SortExpr>) -> Seq<SpecSortExpr>
    decreases s,
{
    if s.len() == 0 {
        Seq::empty()
    } else {
        view_sorts(s.drop_last()).push(view_sort(s.last()))
    }
}

pub open spec fn view_arms(s: Seq<WhenThen>) -> Seq<SpecWhenThen>
    decreases s,
{
    if s.len() == 0 {
        Seq::empty()
    } else {
        view_arms(s.drop_last()).push(view_arm(s.last()))
    }
}

pub open spec fn view_keys(s: Seq<JoinKey>) -> Seq<SpecJoinKey>
    decreases s,
{
    if s.len() == 0 {
        Seq::empty()
    } else {
        view_keys(s.drop_last()).push(view_key(s.last()))
    }
}

pub open spec fn view_plans(s: Seq<Plan>) -> Seq<SpecPlan>
    decreases s,
{
    if s.len() == 0 {
        Seq::empty()
    } else {
        view_plans(s.drop_last()).push(view_plan(s.last()))
    }
}

pub open spec fn view_plan(p: Plan) -> SpecPlan
    decreases p,
{
    match p {
        Plan::Source(s) => SpecPlan::Source(SpecSourceNode { table_name: s.table_name@, schema: s.schema@ }),
        Plan::Empty(inner) => SpecPlan::Empty(Box::new(view_plan(*inner))),
        Plan::TableScan { table_name, schema } => SpecPlan::TableScan {
            table_name: table_name@,
            schema: view_fields(schema@),
        },
        Plan::EmptyRelation { produce_one_row, schema } => SpecPlan::EmptyRelation {
            produce_one_row,
            schema: view_fields(schema@),
        },
        Plan::Filter { predicate, input } => SpecPlan::Filter {
            predicate: view_expr(predicate),
            input: Box::new(view_plan(*input)),
        },
        Plan::Projection { exprs, input, schema } => SpecPlan::Projection {
            exprs: view_exprs(exprs@),
            input: Box::new(view_plan(*input)),
            schema: view_fields(schema@),
        },
        Plan::Aggregate { input, group_exprs, aggr_exprs, schema } => SpecPlan::Aggregate {
            input: Box::new(view_plan(*input)),
            group_exprs: view_exprs(group_exprs@),
            aggr_exprs: view_exprs(aggr_exprs@),
            schema: view_fields(schema@),
        },
        Plan::Join { left, right, on, filter, join_type, null_equals_null, schema } => SpecPlan::Join {
            left: Box::new(view_plan(*left)),
            right: Box::new(view_plan(*right)),
            on: view_keys(on@),
            filter: match filter {
                Some(f) => Some(view_expr(f)),
                None => None,
            },
            join_type,
            null_equals_null,
            schema: view_fields(schema@),
        },
        Plan::Union { inputs, schema } => SpecPlan::Union { inputs: view_plans(inputs@), schema: view_fields(schema@) },
        Plan::Sort { exprs, input, fetch } => SpecPlan::Sort {
            exprs: view_sorts(exprs@),
            input: Box::new(view_plan(*input)),
            fetch,
        },
        Plan::Limit { skip, fetch, input } => SpecPlan::Limit {
            skip: view_opt_expr(skip),
            fetch: view_opt_expr(fetch),
            input: Box::new(view_plan(*input)),
        },
        Plan::Distinct(inner) => SpecPlan::Distinct(Box::new(view_plan(*inner))),
        Plan::SubqueryAlias { input, alias, schema } => SpecPlan::SubqueryAlias {
            input: Box::new(view_plan(*input)),
            alias: alias@,
            schema: view_fields(schema@),
        },
        Plan::Subquery(q) => SpecPlan::Subquery(view_subquery(q)),
        Plan::Other { name, schema } => SpecPlan::Other { name: name@, schema: view_fields(schema@) },
    }
}

impl View for Expr {
    type V = SpecExpr;

    open spec fn view(&self) -> SpecExpr {
        view_expr(*self)
    }
}

impl View for Plan {
    type V = SpecPlan;

    open spec fn view(&self) -> SpecPlan {
        view_plan(*self)
    }
}

pub proof fn lemma_view_exprs(s: Seq<Expr>)
    ensures
        view_exprs(s).len() == s.len(),
        forall|i: int| 0 <= i < s.len() ==> #[trigger] view_exprs(s)[i] == view_expr(s[i]),
    decreases s.len(),
{
    if s.len() > 0 {
        lemma_view_exprs(s.drop_last());
    }
}

pub proof fn lemma_view_sorts(s: Seq<SortExpr>)
    ensures
        view_sorts(s).len() == s.len(),
        forall|i: int| 0 <= i < s.len() ==> #[trigger] view_sorts(s)[i] == view_sort(s[i]),
    decreases s.len(),
{
    if s.len() > 0 {
        lemma_view_sorts(s.drop_last());
    }
}

pub proof fn lemma_view_arms(s: Seq<WhenThen>)
    ensures
        view_arms(s).len() == s.len(),
        forall|i: int| 0 <= i < s.len() ==> #[trigger] view_arms(s)[i] == view_arm(s[i]),
    decreases s.len(),
{
    if s.len() > 0 {
        lemma_view_arms(s.drop_last());
    }
}

pub proof fn lemma_view_keys(s: Seq<JoinKey>)
    ensures
        view_keys(s).len() == s.len(),
        forall|i: int| 0 <= i < s.len() ==> #[trigger] view_keys(s)[i] == view_key(s[i]),
    decreases s.len(),
{
    if s.len() > 0 {
        lemma_view_keys(s.drop_last());
    }
}

pub proof fn lemma_view_plans(s: Seq<Plan>)
    ensures
        view_plans(s).len() == s.len(),
        forall|i: int| 0 <= i < s.len() ==> #[trigger] view_plans(s)[i] == view_plan(s[i]),
    decreases s.len(),
{
    if s.len() > 0 {
        lemma_view_plans(s.drop_last());
    }
}

/// The view of a prefix grows by the view of the next element.
pub proof fn lemma_view_exprs_take(s: Seq<Expr>, i: int)
    requires
        0 <= i < s.len(),
    ensures
        view_exprs(s.take(i + 1)) == view_exprs(s.take(i)).push(view_expr(s[i])),
{
    assert(s.take(i + 1).drop_last() =~= s.take(i));
}

pub proof fn lemma_view_sorts_take(s: Seq<SortExpr>, i: int)
    requires
        0 <= i < s.len(),
    ensures
        view_sorts(s.take(i + 1)) == view_sorts(s.take(i)).push(view_sort(s[i])),
{
    assert(s.take(i + 1).drop_last() =~= s.take(i));
}

pub proof fn lemma_view_arms_take(s: Seq<WhenThen>, i: int)
    requires
        0 <= i < s.len(),
    ensures
        view_arms(s.take(i + 1)) == view_arms(s.take(i)).push(view_arm(s[i])),
{
    assert(s.take(i + 1).drop_last() =~= s.take(i));
}

/// The columns of a list, by their views.
pub open spec fn view_columns(s: Seq<Column>) -> Seq<SpecColumn> {
    s.map_values(|c: Column| c@)
}

// ---------------------------------------------------------------------------
// Copies and structural equality
// ---------------------------------------------------------------------------

pub fn clone_opt_string(o: &Option<String>) -> (r: Option<String>)
    ensures
        opt_str(r) == opt_str(*o),
{
    match o {
        Some(s) => Some(s.clone()),
        None => None,
    }
}

pub fn eq_opt_string(a: &Option<String>, b: &Option<String>) -> (r: bool)
    ensures
        r == (opt_str(*a) == opt_str(*b)),
{
    match (a, b) {
        (Some(x), Some(y)) => *x == *y,
        (None, None) => true,
        _ => false,
    }
}

impl Clone for Column {
    fn clone(&self) -> (r: Self)
        ensures
            r@ == self@,
    {
        Column { relation: clone_opt_string(&self.relation), name: self.name.clone() }
    }
}

impl Column {
    pub fn same_as(&self, other: &Column) -> (r: bool)
        ensures
            r == (self@ == other@),
    {
        eq_opt_string(&self.relation, &other.relation) && self.name == other.name
    }
}

impl Clone for QualifiedField {
    fn clone(&self) -> (r: Self)
        ensures
            r@ == self@,
    {
        QualifiedField {
            qualifier: clone_opt_string(&self.qualifier),
            name: self.name.clone(),
            data_type: self.data_type.clone(),
            nullable: self.nullable,
        }
    }
}

impl QualifiedField {
    pub fn same_as(&self, other: &QualifiedField) -> (r: bool)
        ensures
            r == (self@ == other@),
    {
        eq_opt_string(&self.qualifier, &other.qualifier) && self.name == other.name
            && self.data_type == other.data_type && self.nullable == other.nullable
    }

    /// The column this field is referred to by.
    pub fn column(&self) -> (r: Column)
        ensures
            r@ == field_column(self@),
    {
        Column { relation: clone_opt_string(&self.qualifier), name: self.name.clone() }
    }
}

pub fn clone_fields(v: &Vec<QualifiedField>) -> (r: Vec<QualifiedField>)
    ensures
        view_fields(r@) == view_fields(v@),
{
    let mut r: Vec<QualifiedField> = Vec::new();
    let mut i: usize = 0;
    while i < v.len()
        invariant
            i <= v.len(),
            r@.len() == i,
            forall|j: int| 0 <= j < i ==> #[trigger] r@[j]@ == v@[j]@,
        decreases v.len() - i,
    {
        r.push(v[i].clone());
        i += 1;
    }
    assert(view_fields(r@) =~= view_fields(v@));
    r
}

pub fn eq_fields(a: &Vec<QualifiedField>, b: &Vec<QualifiedField>) -> (r: bool)
    ensures
        r == (view_fields(a@) == view_fields(b@)),
{
    if a.len() != b.len() {
        assert(view_fields(a@).len() != view_fields(b@).len());
        return false;
    }
    let mut i: usize = 0;
    while i < a.len()
        invariant
            i <= a.len(),
            a.len() == b.len(),
            forall|j: int| 0 <= j < i ==> #[trigger] a@[j]@ == b@[j]@,
        decreases a.len() - i,
    {
        if !a[i].same_as(&b[i]) {
            assert(view_fields(a@)[i as int] != view_fields(b@)[i as int]);
            return false;
        }
        i += 1;
    }
    assert(view_fields(a@) =~= view_fields(b@));
    true
}

/// The columns of a schema, in order.
pub fn columns_of(v: &Vec<QualifiedField>) -> (r: Vec<Column>)
    ensures
        r@.map_values(|c: Column| c@) == schema_columns(view_fields(v@)),
{
    let mut r: Vec<Column> = Vec::new();
    let mut i: usize = 0;
    while i < v.len()
        invariant
            i <= v.len(),
            r@.len() == i,
            forall|j: int| 0 <= j < i ==> #[trigger] r@[j]@ == field_column(v@[j]@),
        decreases v.len() - i,
    {
        r.push(v[i].column());
        i += 1;
    }
    assert(r@.map_values(|c: Column| c@) =~= schema_columns(view_fields(v@)));
    r
}

pub fn clone_columns(v: &Vec<Column>) -> (r: Vec<Column>)
    ensures
        r@.map_values(|c: Column| c@) == v@.map_values(|c: Column| c@),
{
    let mut r: Vec<Column> = Vec::new();
    let mut i: usize = 0;
    while i < v.len()
        invariant
            i <= v.len(),
            r@.len() == i,
            forall|j: int| 0 <= j < i ==> #[trigger] r@[j]@ == v@[j]@,
        decreases v.len() - i,
    {
        r.push(v[i].clone());
        i += 1;
    }
    assert(r@.map_values(|c: Column| c@) =~= v@.map_values(|c: Column| c@));
    r
}

pub fn eq_columns(a: &Vec<Column>, b: &Vec<Column>) -> (r: bool)
    ensures
        r == (a@.map_values(|c: Column| c@) == b@.map_values(|c: Column| c@)),
{
    if a.len() != b.len() {
        assert(a@.map_values(|c: Column| c@).len() != b@.map_values(|c: Column| c@).len());
        return false;
    }
    let mut i: usize = 0;
    while i < a.len()
        invariant
            i <= a.len(),
            a.len() == b.len(),
            forall|j: int| 0 <= j < i ==> #[trigger] a@[j]@ == b@[j]@,
        decreases a.len() - i,
    {
        if !a[i].same_as(&b[i]) {
            assert(a@.map_values(|c: Column| c@)[i as int] != b@.map_values(|c: Column| c@)[i as int]);
            return false;
        }
        i += 1;
    }
    assert(a@.map_values(|c: Column| c@) =~= b@.map_values(|c: Column| c@));
    true
}

impl Clone for Literal {
    fn clone(&self) -> (r: Self)
        ensures
            r@ == self@,
    {
        Literal { value: self.value.clone(), debug: self.debug.clone(), data_type: self.data_type.clone() }
    }
}

impl Literal {
    pub fn same_as(&self, other: &Literal) -> (r: bool)
        ensures
            r == (self@ == other@),
    {
        self.value == other.value && self.debug == other.debug && self.data_type == other.data_type
    }
}

impl Clone for Operator {
    fn clone(&self) -> (r: Self)
        ensures
            r@ == self@,
    {
        match self {
            Operator::Eq => Operator::Eq,
            Operator::NotEq => Operator::NotEq,
            Operator::Lt => Operator::Lt,
            Operator::LtEq => Operator::LtEq,
            Operator::Gt => Operator::Gt,
            Operator::GtEq => Operator::GtEq,
            Operator::Plus => Operator::Plus,
            Operator::Minus => Operator::Minus,
            Operator::Multiply => Operator::Multiply,
            Operator::Divide => Operator::Divide,
            Operator::Modulo => Operator::Modulo,
            Operator::And => Operator::And,
            Operator::Or => Operator::Or,
            Operator::Other(s) => Operator::Other(s.clone()),
        }
    }
}

impl Operator {
    pub fn same_as(&self, other: &Operator) -> (r: bool)
        ensures
            r == (self@ == other@),
    {
        match (self, other) {
            (Operator::Eq, Operator::Eq) => true,
            (Operator::NotEq, Operator::NotEq) => true,
            (Operator::Lt, Operator::Lt) => true,
            (Operator::LtEq, Operator::LtEq) => true,
            (Operator::Gt, Operator::Gt) => true,
            (Operator::GtEq, Operator::GtEq) => true,
            (Operator::Plus, Operator::Plus) => true,
            (Operator::Minus, Operator::Minus) => true,
            (Operator::Multiply, Operator::Multiply) => true,
            (Operator::Divide, Operator::Divide) => true,
            (Operator::Modulo, Operator::Modulo) => true,
            (Operator::And, Operator::And) => true,
            (Operator::Or, Operator::Or) => true,
            (Operator::Other(a), Operator::Other(b)) => *a == *b,
            _ => false,
        }
    }

    pub fn is_and_or(&self) -> (r: bool)
        ensures
            r == (self@ is And || self@ is Or),
    {
        match self {
            Operator::And | Operator::Or => true,
            _ => false,
        }
    }
}

pub fn clone_types(v: &Vec<Type>) -> (r: Vec<Type>)
    ensures
        r@.map_values(|t: Type| t@) == v@.map_values(|t: Type| t@),
{
    let mut r: Vec<Type> = Vec::new();
    let mut i: usize = 0;
    while i < v.len()
        invariant
            i <= v.len(),
            r@.len() == i,
            forall|j: int| 0 <= j < i ==> #[trigger] r@[j]@ == v@[j]@,
        decreases v.len() - i,
    {
        r.push(v[i].clone());
        i += 1;
    }
    assert(r@.map_values(|t: Type| t@) =~= v@.map_values(|t: Type| t@));
    r
}

pub fn eq_types(a: &Vec<Type>, b: &Vec<Type>) -> (r: bool)
    ensures
        r == (a@.map_values(|t: Type| t@) == b@.map_values(|t: Type| t@)),
{
    if a.len() != b.len() {
        assert(a@.map_values(|t: Type| t@).len() != b@.map_values(|t: Type| t@).len());
        return false;
    }
    let mut i: usize = 0;
    while i < a.len()
        invariant
            i <= a.len(),
            a.len() == b.len(),
            forall|j: int| 0 <= j < i ==> #[trigger] a@[j]@ == b@[j]@,
        decreases a.len() - i,
    {
        if !a[i].same_as(&b[i]) {
            assert(a@.map_values(|t: Type| t@)[i as int] != b@.map_values(|t: Type| t@)[i as int]);
            return false;
        }
        i += 1;
    }
    assert(a@.map_values(|t: Type| t@) =~= b@.map_values(|t: Type| t@));
    true
}

impl Clone for Signature {
    fn clone(&self) -> (r: Self)
        ensures
            r@ == self@,
    {
        Signature { input_types: clone_types(&self.input_types), return_type: self.return_type.clone() }
    }
}

impl Signature {
    pub fn same_as(&self, other: &Signature) -> (r: bool)
        ensures
            r == (self@ == other@),
    {
        eq_types(&self.input_types, &other.input_types) && self.return_type.same_as(&other.return_type)
    }
}

impl Clone for Callee {
    fn clone(&self) -> (r: Self)
        ensures
            r@ == self@,
    {
        match self {
            Callee::Builtin => Callee::Builtin,
            Callee::Pattern(s) => Callee::Pattern(s.clone()),
            Callee::Abstract(s) => Callee::Abstract(s.clone()),
        }
    }
}

impl Clone for FunctionRef {
    fn clone(&self) -> (r: Self)
        ensures
            r@ == self@,
    {
        FunctionRef { name: self.name.clone(), callee: self.callee.clone(), return_type: self.return_type.clone() }
    }
}

impl FunctionRef {
    pub fn same_as(&self, other: &FunctionRef) -> (r: bool)
        ensures
            r == (self@ == other@),
    {
        let c = match (&self.callee, &other.callee) {
            (Callee::Builtin, Callee::Builtin) => true,
            (Callee::Pattern(a), Callee::Pattern(b)) => a.same_as(b),
            (Callee::Abstract(a), Callee::Abstract(b)) => a.same_as(b),
            _ => false,
        };
        self.name == other.name && c && self.return_type == other.return_type
    }
}

impl Clone for UnaryOp {
    fn clone(&self) -> (r: Self)
        ensures
            r == *self,
    {
        match self {
            UnaryOp::Not => UnaryOp::Not,
            UnaryOp::IsNull => UnaryOp::IsNull,
            UnaryOp::IsNotNull => UnaryOp::IsNotNull,
            UnaryOp::Negative => UnaryOp::Negative,
        }
    }
}

impl UnaryOp {
    pub fn same_as(&self, other: &UnaryOp) -> (r: bool)
        ensures
            r == (*self == *other),
    {
        match (self, other) {
            (UnaryOp::Not, UnaryOp::Not) => true,
            (UnaryOp::IsNull, UnaryOp::IsNull) => true,
            (UnaryOp::IsNotNull, UnaryOp::IsNotNull) => true,
            (UnaryOp::Negative, UnaryOp::Negative) => true,
            _ => false,
        }
    }
}

impl Clone for JoinType {
    fn clone(&self) -> (r: Self)
        ensures
            r == *self,
    {
        match self {
            JoinType::Inner => JoinType::Inner,
            JoinType::Left => JoinType::Left,
            JoinType::Right => JoinType::Right,
            JoinType::Full => JoinType::Full,
            JoinType::LeftSemi => JoinType::LeftSemi,
            JoinType::LeftAnti => JoinType::LeftAnti,
            JoinType::RightSemi => JoinType::RightSemi,
            JoinType::RightAnti => JoinType::RightAnti,
            JoinType::LeftMark => JoinType::LeftMark,
            JoinType::RightMark => JoinType::RightMark,
        }
    }
}

impl JoinType {
    pub fn same_as(&self, other: &JoinType) -> (r: bool)
        ensures
            r == (*self == *other),
    {
        match (self, other) {
            (JoinType::Inner, JoinType::Inner) => true,
            (JoinType::Left, JoinType::Left) => true,
            (JoinType::Right, JoinType::Right) => true,
            (JoinType::Full, JoinType::Full) => true,
            (JoinType::LeftSemi, JoinType::LeftSemi) => true,
            (JoinType::LeftAnti, JoinType::LeftAnti) => true,
            (JoinType::RightSemi, JoinType::RightSemi) => true,
            (JoinType::RightAnti, JoinType::RightAnti) => true,
            (JoinType::LeftMark, JoinType::LeftMark) => true,
            (JoinType::RightMark, JoinType::RightMark) => true,
            _ => false,
        }
    }
}

#[verifier::loop_isolation(false)]
pub fn clone_exprs(v: &Vec<Expr>) -> (r: Vec<Expr>)
    ensures
        view_exprs(r@) == view_exprs(v@),
    decreases v,
{
    let mut r: Vec<Expr> = Vec::new();
    let mut i: usize = 0;
    while i < v.len()
        invariant
            i <= v.len(),
            r@.len() == i,
            forall|j: int| 0 <= j < i ==> #[trigger] view_expr(r@[j]) == view_expr(v@[j]),
        decreases v.len() - i,
    {
        proof {
            assert(decreases_to!(v => v[i as int]));
            lemma_view_exprs(r@);
            lemma_view_exprs(v@);
        }
        let x = clone_expr(&v[i]);
        r.push(x);
        proof {
            lemma_view_exprs(r@);
            lemma_view_exprs(v@);
        }
        i += 1;
    }
    proof {
        lemma_view_exprs(r@);
        lemma_view_exprs(v@);
    }
    assert(view_exprs(r@) =~= view_exprs(v@));
    r
}

#[verifier::loop_isolation(false)]
pub fn eq_exprs(a: &Vec<Expr>, b: &Vec<Expr>) -> (r: bool)
    ensures
        r == (view_exprs(a@) == view_exprs(b@)),
    decreases a,
{
    proof {
        lemma_view_exprs(a@);
        lemma_view_exprs(b@);
    }
    if a.len() != b.len() {
        return false;
    }
    let mut i: usize = 0;
    while i < a.len()
        invariant
            i <= a.len(),
            a.len() == b.len(),
            forall|j: int| 0 <= j < i ==> #[trigger] view_expr(a@[j]) == view_expr(b@[j]),
        decreases a.len() - i,
    {
        proof { assert(decreases_to!(a => a[i as int])); }
        if !eq_expr(&a[i], &b[i]) {
            assert(view_exprs(a@)[i as int] != view_exprs(b@)[i as int]);
            return false;
        }
        i += 1;
    }
    assert(view_exprs(a@) =~= view_exprs(b@));
    true
}

#[verifier::loop_isolation(false)]
pub fn clone_sorts(v: &Vec<SortExpr>) -> (r: Vec<SortExpr>)
    ensures
        view_sorts(r@) == view_sorts(v@),
    decreases v,
{
    let mut r: Vec<SortExpr> = Vec::new();
    let mut i: usize = 0;
    while i < v.len()
        invariant
            i <= v.len(),
            r@.len() == i,
            forall|j: int| 0 <= j < i ==> #[trigger] view_sort(r@[j]) == view_sort(v@[j]),
        decreases v.len() - i,
    {
        proof {
            assert(decreases_to!(v => v[i as int]));
            lemma_view_sorts(r@);
            lemma_view_sorts(v@);
        }
        let x = SortExpr { expr: clone_expr(&v[i].expr), asc: v[i].asc, nulls_first: v[i].nulls_first };
        r.push(x);
        proof {
            lemma_view_sorts(r@);
            lemma_view_sorts(v@);
        }
        i += 1;
    }
    proof {
        lemma_view_sorts(r@);
        lemma_view_sorts(v@);
    }
    assert(view_sorts(r@) =~= view_sorts(v@));
    r
}

#[verifier::loop_isolation(false)]
pub fn eq_sorts(a: &Vec<SortExpr>, b: &Vec<SortExpr>) -> (r: bool)
    ensures
        r == (view_sorts(a@) == view_sorts(b@)),
    decreases a,
{
    proof {
        lemma_view_sorts(a@);
        lemma_view_sorts(b@);
    }
    if a.len() != b.len() {
        return false;
    }
    let mut i: usize = 0;
    while i < a.len()
        invariant
            i <= a.len(),
            a.len() == b.len(),
            forall|j: int| 0 <= j < i ==> #[trigger] view_sort(a@[j]) == view_sort(b@[j]),
        decreases a.len() - i,
    {
        proof { assert(decreases_to!(a => a[i as int])); }
        if !(eq_expr(&a[i].expr, &b[i].expr) && a[i].asc == b[i].asc && a[i].nulls_first == b[i].nulls_first) {
            assert(view_sorts(a@)[i as int] != view_sorts(b@)[i as int]);
            return false;
        }
        i += 1;
    }
    assert(view_sorts(a@) =~= view_sorts(b@));
    true
}

#[verifier::loop_isolation(false)]
pub fn clone_arms(v: &Vec<WhenThen>) -> (r: Vec<WhenThen>)
    ensures
        view_arms(r@) == view_arms(v@),
    decreases v,
{
    let mut r: Vec<WhenThen> = Vec::new();
    let mut i: usize = 0;
    while i < v.len()
        invariant
            i <= v.len(),
            r@.len() == i,
            forall|j: int| 0 <= j < i ==> #[trigger] view_arm(r@[j]) == view_arm(v@[j]),
        decreases v.len() - i,
    {
        proof {
            assert(decreases_to!(v => v[i as int]));
            lemma_view_arms(r@);
            lemma_view_arms(v@);
        }
        let x = WhenThen { condition: clone_expr(&v[i].condition), result: clone_expr(&v[i].result) };
        r.push(x);
        proof {
            lemma_view_arms(r@);
            lemma_view_arms(v@);
        }
        i += 1;
    }
    proof {
        lemma_view_arms(r@);
        lemma_view_arms(v@);
    }
    assert(view_arms(r@) =~= view_arms(v@));
    r
}

#[verifier::loop_isolation(false)]
pub fn eq_arms(a: &Vec<WhenThen>, b: &Vec<WhenThen>) -> (r: bool)
    ensures
        r == (view_arms(a@) == view_arms(b@)),
    decreases a,
{
    proof {
        lemma_view_arms(a@);
        lemma_view_arms(b@);
    }
    if a.len() != b.len() {
        return false;
    }
    let mut i: usize = 0;
    while i < a.len()
        invariant
            i <= a.len(),
            a.len() == b.len(),
            forall|j: int| 0 <= j < i ==> #[trigger] view_arm(a@[j]) == view_arm(b@[j]),
        decreases a.len() - i,
    {
        proof { assert(decreases_to!(a => a[i as int])); }
        if !(eq_expr(&a[i].condition, &b[i].condition) && eq_expr(&a[i].result, &b[i].result)) {
            assert(view_arms(a@)[i as int] != view_arms(b@)[i as int]);
            return false;
        }
        i += 1;
    }
    assert(view_arms(a@) =~= view_arms(b@));
    true
}

#[verifier::loop_isolation(false)]
pub fn clone_keys(v: &Vec<JoinKey>) -> (r: Vec<JoinKey>)
    ensures
        view_keys(r@) == view_keys(v@),
    decreases v,
{
    let mut r: Vec<JoinKey> = Vec::new();
    let mut i: usize = 0;
    while i < v.len()
        invariant
            i <= v.len(),
            r@.len() == i,
            forall|j: int| 0 <= j < i ==> #[trigger] view_key(r@[j]) == view_key(v@[j]),
        decreases v.len() - i,
    {
        proof {
            assert(decreases_to!(v => v[i as int]));
            lemma_view_keys(r@);
            lemma_view_keys(v@);
        }
        let x = JoinKey { left: clone_expr(&v[i].left), right: clone_expr(&v[i].right) };
        r.push(x);
        proof {
            lemma_view_keys(r@);
            lemma_view_keys(v@);
        }
        i += 1;
    }
    proof {
        lemma_view_keys(r@);
        lemma_view_keys(v@);
    }
    assert(view_keys(r@) =~= view_keys(v@));
    r
}

#[verifier::loop_isolation(false)]
pub fn eq_keys(a: &Vec<JoinKey>, b: &Vec<JoinKey>) -> (r: bool)
    ensures
        r == (view_keys(a@) == view_keys(b@)),
    decreases a,
{
    proof {
        lemma_view_keys(a@);
        lemma_view_keys(b@);
    }
    if a.len() != b.len() {
        return false;
    }
    let mut i: usize = 0;
    while i < a.len()
        invariant
            i <= a.len(),
            a.len() == b.len(),
            forall|j: int| 0 <= j < i ==> #[trigger] view_key(a@[j]) == view_key(b@[j]),
        decreases a.len() - i,
    {
        proof { assert(decreases_to!(a => a[i as int])); }
        if !(eq_expr(&a[i].left, &b[i].left) && eq_expr(&a[i].right, &b[i].right)) {
            assert(view_keys(a@)[i as int] != view_keys(b@)[i as int]);
            return false;
        }
        i += 1;
    }
    assert(view_keys(a@) =~= view_keys(b@));
    true
}

#[verifier::loop_isolation(false)]
pub fn clone_plans(v: &Vec<Plan>) -> (r: Vec<Plan>)
    ensures
        view_plans(r@) == view_plans(v@),
    decreases v,
{
    let mut r: Vec<Plan> = Vec::new();
    let mut i: usize = 0;
    while i < v.len()
        invariant
            i <= v.len(),
            r@.len() == i,
            forall|j: int| 0 <= j < i ==> #[trigger] view_plan(r@[j]) == view_plan(v@[j]),
        decreases v.len() - i,
    {
        proof {
            assert(decreases_to!(v => v[i as int]));
            lemma_view_plans(r@);
            lemma_view_plans(v@);
        }
        let x = clone_plan(&v[i]);
        r.push(x);
        proof {
            lemma_view_plans(r@);
            lemma_view_plans(v@);
        }
        i += 1;
    }
    proof {
        lemma_view_plans(r@);
        lemma_view_plans(v@);
    }
    assert(view_plans(r@) =~= view_plans(v@));
    r
}

#[verifier::loop_isolation(false)]
pub fn eq_plans(a: &Vec<Plan>, b: &Vec<Plan>) -> (r: bool)
    ensures
        r == (view_plans(a@) == view_plans(b@)),
    decreases a,
{
    proof {
        lemma_view_plans(a@);
        lemma_view_plans(b@);
    }
    if a.len() != b.len() {
        return false;
    }
    let mut i: usize = 0;
    while i < a.len()
        invariant
            i <= a.len(),
            a.len() == b.len(),
            forall|j: int| 0 <= j < i ==> #[trigger] view_plan(a@[j]) == view_plan(b@[j]),
        decreases a.len() - i,
    {
        proof { assert(decreases_to!(a => a[i as int])); }
        if !eq_plan(&a[i], &b[i]) {
            assert(view_plans(a@)[i as int] != view_plans(b@)[i as int]);
            return false;
        }
        i += 1;
    }
    assert(view_plans(a@) =~= view_plans(b@));
    true
}

pub fn clone_opt_expr(o: &Option<Box<Expr>>) -> (r: Option<Box<Expr>>)
    ensures
        view_opt_expr(r) == view_opt_expr(*o),
    decreases o,
{
    match o {
        Some(b) => Some(Box::new(clone_expr(b))),
        None => None,
    }
}

pub fn eq_opt_expr(a: &Option<Box<Expr>>, b: &Option<Box<Expr>>) -> (r: bool)
    ensures
        r == (view_opt_expr(*a) == view_opt_expr(*b)),
    decreases a,
{
    match (a, b) {
        (Some(x), Some(y)) => eq_expr(x, y),
        (None, None) => true,
        _ => false,
    }
}

pub fn clone_subquery(q: &Subquery) -> (r: Subquery)
    ensures
        view_subquery(r) == view_subquery(*q),
    decreases q,
{
    Subquery { plan: Box::new(clone_plan(&q.plan)), outer_ref_columns: clone_exprs(&q.outer_ref_columns) }
}

pub fn eq_subquery(a: &Subquery, b: &Subquery) -> (r: bool)
    ensures
        r == (view_subquery(*a) == view_subquery(*b)),
    decreases a,
{
    eq_plan(&a.plan, &b.plan) && eq_exprs(&a.outer_ref_columns, &b.outer_ref_columns)
}

pub fn clone_like(l: &LikeExpr) -> (r: LikeExpr)
    ensures
        view_like(r) == view_like(*l),
    decreases l,
{
    LikeExpr {
        negated: l.negated,
        expr: Box::new(clone_expr(&l.expr)),
        pattern: Box::new(clone_expr(&l.pattern)),
        escape_char: l.escape_char,
        case_insensitive: l.case_insensitive,
    }
}

pub fn eq_like(a: &LikeExpr, b: &LikeExpr) -> (r: bool)
    ensures
        r == (view_like(*a) == view_like(*b)),
    decreases a,
{
    a.negated == b.negated && eq_expr(&a.expr, &b.expr) && eq_expr(&a.pattern, &b.pattern)
        && a.escape_char == b.escape_char && a.case_insensitive == b.case_insensitive
}

pub fn clone_params(p: &AggregateParams) -> (r: AggregateParams)
    ensures
        view_params(r) == view_params(*p),
    decreases p,
{
    AggregateParams {
        args: clone_exprs(&p.args),
        distinct: p.distinct,
        filter: clone_opt_expr(&p.filter),
        order_by: clone_sorts(&p.order_by),
        null_treatment: clone_opt_string(&p.null_treatment),
    }
}

pub fn eq_params(a: &AggregateParams, b: &AggregateParams) -> (r: bool)
    ensures
        r == (view_params(*a) == view_params(*b)),
    decreases a,
{
    eq_exprs(&a.args, &b.args) && a.distinct == b.distinct && eq_opt_expr(&a.filter, &b.filter)
        && eq_sorts(&a.order_by, &b.order_by) && eq_opt_string(&a.null_treatment, &b.null_treatment)
}

/// A copy of an expression.
pub fn clone_expr(e: &Expr) -> (r: Expr)
    ensures
        r@ == e@,
    decreases e,
{
    match e {
        Expr::Column(c) => Expr::Column(c.clone()),
        Expr::OuterReferenceColumn(t, c) => Expr::OuterReferenceColumn(t.clone(), c.clone()),
        Expr::Literal(l) => Expr::Literal(l.clone()),
        Expr::Alias { expr, relation, name } => Expr::Alias {
            expr: Box::new(clone_expr(expr)),
            relation: clone_opt_string(relation),
            name: name.clone(),
        },
        Expr::Binary { left, op, right } => Expr::Binary {
            left: Box::new(clone_expr(left)),
            op: op.clone(),
            right: Box::new(clone_expr(right)),
        },
        Expr::ScalarFunction { func, args } => Expr::ScalarFunction { func: func.clone(), args: clone_exprs(args) },
        Expr::AggregateFunction { func, params } => Expr::AggregateFunction {
            func: func.clone(),
            params: clone_params(params),
        },
        Expr::Unary(op, inner) => Expr::Unary(op.clone(), Box::new(clone_expr(inner))),
        Expr::Between { expr, negated, low, high } => Expr::Between {
            expr: Box::new(clone_expr(expr)),
            negated: *negated,
            low: Box::new(clone_expr(low)),
            high: Box::new(clone_expr(high)),
        },
        Expr::Case { operand, arms, else_expr } => Expr::Case {
            operand: clone_opt_expr(operand),
            arms: clone_arms(arms),
            else_expr: clone_opt_expr(else_expr),
        },
        Expr::Cast { expr, data_type, try_cast } => Expr::Cast {
            expr: Box::new(clone_expr(expr)),
            data_type: data_type.clone(),
            try_cast: *try_cast,
        },
        Expr::InList { expr, list, negated } => Expr::InList {
            expr: Box::new(clone_expr(expr)),
            list: clone_exprs(list),
            negated: *negated,
        },
        Expr::Like(l) => Expr::Like(clone_like(l)),
        Expr::SimilarTo(l) => Expr::SimilarTo(clone_like(l)),
        Expr::ScalarSubquery(q) => Expr::ScalarSubquery(clone_subquery(q)),
        Expr::InSubquery { expr, subquery, negated } => Expr::InSubquery {
            expr: Box::new(clone_expr(expr)),
            subquery: clone_subquery(subquery),
            negated: *negated,
        },
        Expr::Exists { subquery, negated } => Expr::Exists { subquery: clone_subquery(subquery), negated: *negated },
        Expr::Other(s) => Expr::Other(s.clone()),
    }
}

/// Structural equality of expressions.
pub fn eq_expr(a: &Expr, b: &Expr) -> (r: bool)
    ensures
        r == (a@ == b@),
    decreases a,
{
    match (a, b) {
        (Expr::Column(x), Expr::Column(y)) => x.same_as(y),
        (Expr::OuterReferenceColumn(t1, c1), Expr::OuterReferenceColumn(t2, c2)) => *t1 == *t2 && c1.same_as(c2),
        (Expr::Literal(x), Expr::Literal(y)) => x.same_as(y),
        (Expr::Alias { expr: e1, relation: r1, name: n1 }, Expr::Alias { expr: e2, relation: r2, name: n2 }) =>
            eq_expr(e1, e2) && eq_opt_string(r1, r2) && *n1 == *n2,
        (Expr::Binary { left: l1, op: o1, right: r1 }, Expr::Binary { left: l2, op: o2, right: r2 }) =>
            eq_expr(l1, l2) && o1.same_as(o2) && eq_expr(r1, r2),
        (Expr::ScalarFunction { func: f1, args: a1 }, Expr::ScalarFunction { func: f2, args: a2 }) =>
            f1.same_as(f2) && eq_exprs(a1, a2),
        (Expr::AggregateFunction { func: f1, params: p1 }, Expr::AggregateFunction { func: f2, params: p2 }) =>
            f1.same_as(f2) && eq_params(p1, p2),
        (Expr::Unary(o1, i1), Expr::Unary(o2, i2)) => o1.same_as(o2) && eq_expr(i1, i2),
        (Expr::Between { expr: e1, negated: n1, low: l1, high: h1 }, Expr::Between { expr: e2, negated: n2, low: l2, high: h2 }) =>
            eq_expr(e1, e2) && *n1 == *n2 && eq_expr(l1, l2) && eq_expr(h1, h2),
        (Expr::Case { operand: o1, arms: a1, else_expr: e1 }, Expr::Case { operand: o2, arms: a2, else_expr: e2 }) =>
            eq_opt_expr(o1, o2) && eq_arms(a1, a2) && eq_opt_expr(e1, e2),
        (Expr::Cast { expr: e1, data_type: d1, try_cast: t1 }, Expr::Cast { expr: e2, data_type: d2, try_cast: t2 }) =>
            eq_expr(e1, e2) && *d1 == *d2 && *t1 == *t2,
        (Expr::InList { expr: e1, list: l1, negated: n1 }, Expr::InList { expr: e2, list: l2, negated: n2 }) =>
            eq_expr(e1, e2) && eq_exprs(l1, l2) && *n1 == *n2,
        (Expr::Like(x), Expr::Like(y)) => eq_like(x, y),
        (Expr::SimilarTo(x), Expr::SimilarTo(y)) => eq_like(x, y),
        (Expr::ScalarSubquery(x), Expr::ScalarSubquery(y)) => eq_subquery(x, y),
        (Expr::InSubquery { expr: e1, subquery: q1, negated: n1 }, Expr::InSubquery { expr: e2, subquery: q2, negated: n2 }) =>
            eq_expr(e1, e2) && eq_subquery(q1, q2) && *n1 == *n2,
        (Expr::Exists { subquery: q1, negated: n1 }, Expr::Exists { subquery: q2, negated: n2 }) =>
            eq_subquery(q1, q2) && *n1 == *n2,
        (Expr::Other(x), Expr::Other(y)) => *x == *y,
        _ => false,
    }
}

pub fn clone_opt_filter(o: &Option<Expr>) -> (r: Option<Expr>)
    ensures
        match (r, *o) {
            (Some(x), Some(y)) => x@ == y@,
            (None, None) => true,
            _ => false,
        },
    decreases o,
{
    match o {
        Some(e) => Some(clone_expr(e)),
        None => None,
    }
}

/// A copy of a plan.
pub fn clone_plan(p: &Plan) -> (r: Plan)
    ensures
        r@ == p@,
    decreases p,
{
    match p {
        Plan::Source(s) => Plan::Source(SourceNode { table_name: s.table_name.clone(), schema: s.schema.clone() }),
        Plan::Empty(inner) => Plan::Empty(Box::new(clone_plan(inner))),
        Plan::TableScan { table_name, schema } => Plan::TableScan {
            table_name: table_name.clone(),
            schema: clone_fields(schema),
        },
        Plan::EmptyRelation { produce_one_row, schema } => Plan::EmptyRelation {
            produce_one_row: *produce_one_row,
            schema: clone_fields(schema),
        },
        Plan::Filter { predicate, input } => Plan::Filter {
            predicate: clone_expr(predicate),
            input: Box::new(clone_plan(input)),
        },
        Plan::Projection { exprs, input, schema } => Plan::Projection {
            exprs: clone_exprs(exprs),
            input: Box::new(clone_plan(input)),
            schema: clone_fields(schema),
        },
        Plan::Aggregate { input, group_exprs, aggr_exprs, schema } => Plan::Aggregate {
            input: Box::new(clone_plan(input)),
            group_exprs: clone_exprs(group_exprs),
            aggr_exprs: clone_exprs(aggr_exprs),
            schema: clone_fields(schema),
        },
        Plan::Join { left, right, on, filter, join_type, null_equals_null, schema } => Plan::Join {
            left: Box::new(clone_plan(left)),
            right: Box::new(clone_plan(right)),
            on: clone_keys(on),
            filter: clone_opt_filter(filter),
            join_type: join_type.clone(),
            null_equals_null: *null_equals_null,
            schema: clone_fields(schema),
        },
        Plan::Union { inputs, schema } => Plan::Union { inputs: clone_plans(inputs), schema: clone_fields(schema) },
        Plan::Sort { exprs, input, fetch } => Plan::Sort {
            exprs: clone_sorts(exprs),
            input: Box::new(clone_plan(input)),
            fetch: *fetch,
        },
        Plan::Limit { skip, fetch, input } => Plan::Limit {
            skip: clone_opt_expr(skip),
            fetch: clone_opt_expr(fetch),
            input: Box::new(clone_plan(input)),
        },
        Plan::Distinct(inner) => Plan::Distinct(Box::new(clone_plan(inner))),
        Plan::SubqueryAlias { input, alias, schema } => Plan::SubqueryAlias {
            input: Box::new(clone_plan(input)),
            alias: alias.clone(),
            schema: clone_fields(schema),
        },
        Plan::Subquery(q) => Plan::Subquery(clone_subquery(q)),
        Plan::Other { name, schema } => Plan::Other { name: name.clone(), schema: clone_fields(schema) },
    }
}

pub fn eq_opt_filter(a: &Option<Expr>, b: &Option<Expr>) -> (r: bool)
    ensures
        r == (match *a {
            Some(f) => Some(view_expr(f)),
            None => None::<SpecExpr>,
        } == match *b {
            Some(f) => Some(view_expr(f)),
            None => None::<SpecExpr>,
        }),
    decreases a,
{
    match (a, b) {
        (Some(x), Some(y)) => eq_expr(x, y),
        (None, None) => true,
        _ => false,
    }
}

/// Structural equality of plans.
pub fn eq_plan(a: &Plan, b: &Plan) -> (r: bool)
    ensures
        r == (a@ == b@),
    decreases a,
{
    match (a, b) {
        (Plan::Source(x), Plan::Source(y)) => x.table_name == y.table_name && x.schema.same_as(&y.schema),
        (Plan::Empty(x), Plan::Empty(y)) => eq_plan(x, y),
        (Plan::TableScan { table_name: t1, schema: s1 }, Plan::TableScan { table_name: t2, schema: s2 }) =>
            *t1 == *t2 && eq_fields(s1, s2),
        (Plan::EmptyRelation { produce_one_row: p1, schema: s1 }, Plan::EmptyRelation { produce_one_row: p2, schema: s2 }) =>
            *p1 == *p2 && eq_fields(s1, s2),
        (Plan::Filter { predicate: p1, input: i1 }, Plan::Filter { predicate: p2, input: i2 }) =>
            eq_expr(p1, p2) && eq_plan(i1, i2),
        (Plan::Projection { exprs: e1, input: i1, schema: s1 }, Plan::Projection { exprs: e2, input: i2, schema: s2 }) =>
            eq_exprs(e1, e2) && eq_plan(i1, i2) && eq_fields(s1, s2),
        (Plan::Aggregate { input: i1, group_exprs: g1, aggr_exprs: a1, schema: s1 },
         Plan::Aggregate { input: i2, group_exprs: g2, aggr_exprs: a2, schema: s2 }) =>
            eq_plan(i1, i2) && eq_exprs(g1, g2) && eq_exprs(a1, a2) && eq_fields(s1, s2),
        (Plan::Join { left: l1, right: r1, on: o1, filter: f1, join_type: j1, null_equals_null: n1, schema: s1 },
         Plan::Join { left: l2, right: r2, on: o2, filter: f2, join_type: j2, null_equals_null: n2, schema: s2 }) =>
            eq_plan(l1, l2) && eq_plan(r1, r2) && eq_keys(o1, o2) && eq_opt_filter(f1, f2) && j1.same_as(j2)
                && *n1 == *n2 && eq_fields(s1, s2),
        (Plan::Union { inputs: i1, schema: s1 }, Plan::Union { inputs: i2, schema: s2 }) =>
            eq_plans(i1, i2) && eq_fields(s1, s2),
        (Plan::Sort { exprs: e1, input: i1, fetch: f1 }, Plan::Sort { exprs: e2, input: i2, fetch: f2 }) =>
            eq_sorts(e1, e2) && eq_plan(i1, i2) && *f1 == *f2,
        (Plan::Limit { skip: k1, fetch: f1, input: i1 }, Plan::Limit { skip: k2, fetch: f2, input: i2 }) =>
            eq_opt_expr(k1, k2) && eq_opt_expr(f1, f2) && eq_plan(i1, i2),
        (Plan::Distinct(x), Plan::Distinct(y)) => eq_plan(x, y),
        (Plan::SubqueryAlias { input: i1, alias: a1, schema: s1 }, Plan::SubqueryAlias { input: i2, alias: a2, schema: s2 }) =>
            eq_plan(i1, i2) && *a1 == *a2 && eq_fields(s1, s2),
        (Plan::Subquery(x), Plan::Subquery(y)) => eq_subquery(x, y),
        (Plan::Other { name: n1, schema: s1 }, Plan::Other { name: n2, schema: s2 }) => *n1 == *n2 && eq_fields(s1, s2),
        _ => false,
    }
}

impl Clone for Expr {
    fn clone(&self) -> (r: Self)
        ensures
            r@ == self@,
    {
        clone_expr(self)
    }
}

impl Clone for Plan {
    fn clone(&self) -> (r: Self)
        ensures
            r@ == self@,
    {
        clone_plan(self)
    }
}

} // verus!
