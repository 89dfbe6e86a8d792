//! The QED format: what serializing a pair of plans produces, as mathematical functions.
use vstd::prelude::*;
use crate::ast::opaque::{spec_type_data_type, SpecType};
use crate::matcher::semantics::{first_index_where, plan_label};
use crate::naming::{plan_schema, source_field};
use crate::plan::{
    JoinType, SpecCallee, SpecColumn, SpecExpr, SpecJoinKey, SpecOperator, SpecPlan, SpecQualifiedField, SpecSortExpr,
    SpecWhenThen, UnaryOp,
};
use crate::qed::json::SpecJson;
use crate::debug_text::{column_debug, expr_debug};

verus! {

/// The tables met so far, in order of first appearance, with their fields.
pub type Tables = Seq<(Seq<char>, Seq<SpecQualifiedField>)>;

pub enum SpecQedError {
    UnsupportedPlan(Seq<char>),
    UnsupportedExpr(Seq<char>),
    ColumnNotFound(Seq<char>),
    UnsupportedOperator(Seq<char>),
}

pub type JsonResult = Result<SpecJson, SpecQedError>;

pub type RelResult = Result<(SpecJson, Seq<SpecQualifiedField>), SpecQedError>;

/// The QED type of an engine data type: only booleans are kept apart.
pub open spec fn qed_type(dt: Seq<char>) -> Seq<char> {
    if dt == "Boolean"@ { "BOOLEAN"@ } else { "INTEGER"@ }
}

/// The QED type of an abstract type.
pub open spec fn qed_abstract_type(t: SpecType) -> Seq<char> {
    match t {
        SpecType::Boolean => "BOOLEAN"@,
        SpecType::Generic { .. } => "INTEGER"@,
    }
}

pub open spec fn table_named(name: Seq<char>) -> spec_fn((Seq<char>, Seq<SpecQualifiedField>)) -> bool {
    |t: (Seq<char>, Seq<SpecQualifiedField>)| t.0 == name
}

/// The index of a table, adding it if it is new.
pub open spec fn resolve_table(t: Tables, name: Seq<char>, fields: Seq<SpecQualifiedField>) -> (Tables, nat) {
    match first_index_where(t, table_named(name)) {
        Some(i) => (t, i as nat),
        None => (t.push((name, fields)), t.len()),
    }
}

/// A column of an operator's input answers a reference with the same qualifier and name.
pub open spec fn column_answers(c: SpecColumn) -> spec_fn(SpecQualifiedField) -> bool {
    |f: SpecQualifiedField| f.name == c.name && f.qualifier == c.relation
}

pub open spec fn find_column(cols: Seq<SpecQualifiedField>, c: SpecColumn) -> Option<int> {
    first_index_where(cols, column_answers(c))
}

pub open spec fn op_node(op: Seq<char>, operands: Seq<SpecJson>, ty: Seq<char>) -> SpecJson {
    SpecJson::Obj(seq![("operator"@, SpecJson::Str(op)), ("operand"@, SpecJson::Arr(operands)), ("type"@, SpecJson::Str(ty))])
}

pub open spec fn col_node(idx: nat, ty: Seq<char>) -> SpecJson {
    SpecJson::Obj(seq![("column"@, SpecJson::Num(idx)), ("type"@, SpecJson::Str(ty))])
}

pub open spec fn query_node(op: Seq<char>, operands: Seq<SpecJson>, query: SpecJson, ty: Seq<char>) -> SpecJson {
    SpecJson::Obj(
        seq![
            ("operator"@, SpecJson::Str(op)),
            ("operand"@, SpecJson::Arr(operands)),
            ("query"@, query),
            ("type"@, SpecJson::Str(ty)),
        ],
    )
}

pub open spec fn negated_if(negated: bool, x: SpecJson) -> SpecJson {
    if negated { op_node("NOT"@, seq![x], "BOOLEAN"@) } else { x }
}

/// The QED operator of a binary operator, if it has one.
pub open spec fn qed_operator(op: SpecOperator) -> Option<Seq<char>> {
    match op {
        SpecOperator::Eq => Some("="@),
        SpecOperator::NotEq => Some("!="@),
        SpecOperator::Lt => Some("<"@),
        SpecOperator::LtEq => Some("<="@),
        SpecOperator::Gt => Some(">"@),
        SpecOperator::GtEq => Some(">="@),
        SpecOperator::Plus => Some("+"@),
        SpecOperator::Minus => Some("-"@),
        SpecOperator::Multiply => Some("*"@),
        SpecOperator::Divide => Some("/"@),
        SpecOperator::Modulo => Some("%"@),
        SpecOperator::And => Some("AND"@),
        SpecOperator::Or => Some("OR"@),
        SpecOperator::Other(_) => None,
    }
}

/// Comparisons and connectives are boolean; arithmetic is integer.
pub open spec fn binary_type(op: SpecOperator) -> Seq<char> {
    match op {
        SpecOperator::Eq | SpecOperator::NotEq | SpecOperator::Lt | SpecOperator::LtEq | SpecOperator::Gt
        | SpecOperator::GtEq | SpecOperator::And | SpecOperator::Or => "BOOLEAN"@,
        _ => "INTEGER"@,
    }
}

/// The type of a call: a pattern symbol's return type, otherwise integer.
pub open spec fn callee_type(c: SpecCallee) -> Seq<char> {
    match c {
        SpecCallee::Pattern(sig) => qed_abstract_type(sig.return_type),
        _ => "INTEGER"@,
    }
}

pub open spec fn join_kind(jt: JoinType) -> Seq<char> {
    match jt {
        JoinType::Inner => "INNER"@,
        JoinType::Left => "LEFT"@,
        JoinType::Right => "RIGHT"@,
        JoinType::Full => "FULL"@,
        JoinType::LeftSemi => "SEMI"@,
        JoinType::LeftAnti => "ANTI"@,
        JoinType::RightSemi => "RIGHT_SEMI"@,
        JoinType::RightAnti => "RIGHT_ANTI"@,
        JoinType::LeftMark => "LEFT_MARK"@,
        JoinType::RightMark => "RIGHT_MARK"@,
    }
}

pub open spec fn eq_node(a: SpecJson, b: SpecJson) -> SpecJson {
    op_node("="@, seq![a, b], "BOOLEAN"@)
}

/// `v = vals[0] OR v = vals[1] OR ...`, grouped to the left; `false` for no values.
pub open spec fn in_chain(v: SpecJson, vals: Seq<SpecJson>) -> SpecJson
    decreases vals.len(),
{
    if vals.len() == 0 {
        op_node("false"@, Seq::empty(), "BOOLEAN"@)
    } else if vals.len() == 1 {
        eq_node(v, vals[0])
    } else {
        op_node("OR"@, seq![in_chain(v, vals.drop_last()), eq_node(v, vals.last())], "BOOLEAN"@)
    }
}

/// `conds[0] AND conds[1] AND ...`, grouped to the left.
pub open spec fn and_fold(conds: Seq<SpecJson>) -> SpecJson
    decreases conds.len(),
{
    if conds.len() <= 1 {
        conds[0]
    } else {
        op_node("AND"@, seq![and_fold(conds.drop_last()), conds.last()], "BOOLEAN"@)
    }
}

/// Serializing an expression over the outer (global) and input (local) columns. Local
/// columns are numbered after the global ones; subqueries see both as their outer columns.
pub open spec fn qed_expr(t: Tables, e: SpecExpr, g: Seq<SpecQualifiedField>, l: Seq<SpecQualifiedField>) -> (
    Tables,
    JsonResult,
)
    decreases e, 1nat,
{
    match e {
        SpecExpr::Column(c) => match find_column(l, c) {
            Some(i) => (t, Ok(col_node((g.len() + i) as nat, qed_type(l[i].data_type)))),
            None => match find_column(g, c) {
                Some(i) => (t, Ok(col_node(i as nat, qed_type(g[i].data_type)))),
                None => (t, Err(SpecQedError::ColumnNotFound("Column "@ + column_debug(c) + " not found in local or global"@))),
            },
        },
        SpecExpr::Literal(lit) => (t, Ok(op_node(lit.value, Seq::empty(), qed_type(lit.data_type)))),
        SpecExpr::ScalarFunction { func, args } => {
            let (t1, r) = qed_exprs(t, args, g, l);
            match r {
                Err(x) => (t1, Err(x)),
                Ok(vs) => (t1, Ok(op_node(func.name, vs, callee_type(func.callee)))),
            }
        },
        SpecExpr::Binary { left, op, right } => match qed_operator(op) {
            None => (t, Err(SpecQedError::UnsupportedOperator(crate::naming::op_text(op)))),
            Some(o) => {
                let (t1, r1) = qed_expr(t, *left, g, l);
                match r1 {
                    Err(x) => (t1, Err(x)),
                    Ok(lv) => {
                        let (t2, r2) = qed_expr(t1, *right, g, l);
                        match r2 {
                            Err(x) => (t2, Err(x)),
                            Ok(rv) => (t2, Ok(op_node(o, seq![lv, rv], binary_type(op)))),
                        }
                    },
                }
            },
        },
        SpecExpr::Alias { expr, .. } => qed_expr(t, *expr, g, l),
        SpecExpr::Cast { expr, .. } => qed_expr(t, *expr, g, l),
        SpecExpr::OuterReferenceColumn(_, c) => match find_column(g, c) {
            Some(i) => (t, Ok(col_node(i as nat, qed_type(g[i].data_type)))),
            None => (t, Err(SpecQedError::ColumnNotFound("Outer reference column "@ + column_debug(c) + " not found in global"@))),
        },
        SpecExpr::Exists { subquery, negated } => {
            let (t1, r) = qed_rel(t, *subquery.plan, g + l);
            match r {
                Err(x) => (t1, Err(x)),
                Ok((q, _)) => (t1, Ok(negated_if(negated, query_node("EXISTS"@, Seq::empty(), q, "BOOLEAN"@)))),
            }
        },
        SpecExpr::InList { expr, list, negated } => {
            let (t1, r1) = qed_expr(t, *expr, g, l);
            match r1 {
                Err(x) => (t1, Err(x)),
                Ok(v) => {
                    let (t2, r2) = qed_exprs(t1, list, g, l);
                    match r2 {
                        Err(x) => (t2, Err(x)),
                        Ok(vs) => (t2, Ok(negated_if(negated, in_chain(v, vs)))),
                    }
                },
            }
        },
        SpecExpr::Like(lk) => {
            let (t1, r1) = qed_expr(t, *lk.expr, g, l);
            match r1 {
                Err(x) => (t1, Err(x)),
                Ok(v) => {
                    let (t2, r2) = qed_expr(t1, *lk.pattern, g, l);
                    match r2 {
                        Err(x) => (t2, Err(x)),
                        Ok(pv) => (t2, Ok(op_node(
                            if lk.negated { "NOT LIKE"@ } else { "LIKE"@ },
                            seq![v, pv],
                            "BOOLEAN"@,
                        ))),
                    }
                },
            }
        },
        SpecExpr::Unary(op, inner) => {
            let (t1, r) = qed_expr(t, *inner, g, l);
            match r {
                Err(x) => (t1, Err(x)),
                Ok(v) => (t1, Ok(match op {
                    UnaryOp::Not => op_node("NOT"@, seq![v], "BOOLEAN"@),
                    UnaryOp::IsNull => op_node("IS NULL"@, seq![v], "BOOLEAN"@),
                    UnaryOp::IsNotNull => op_node("IS NOT NULL"@, seq![v], "BOOLEAN"@),
                    UnaryOp::Negative => op_node("-"@, seq![v], "INTEGER"@),
                })),
            }
        },
        SpecExpr::Between { expr, negated, low, high } => {
            let (t1, r1) = qed_expr(t, *expr, g, l);
            match r1 {
                Err(x) => (t1, Err(x)),
                Ok(v) => {
                    let (t2, r2) = qed_expr(t1, *low, g, l);
                    match r2 {
                        Err(x) => (t2, Err(x)),
                        Ok(lv) => {
                            let (t3, r3) = qed_expr(t2, *high, g, l);
                            match r3 {
                                Err(x) => (t3, Err(x)),
                                Ok(hv) => (t3, Ok(negated_if(
                                    negated,
                                    op_node(
                                        "AND"@,
                                        seq![op_node(">="@, seq![v, lv], "BOOLEAN"@), op_node("<="@, seq![v, hv], "BOOLEAN"@)],
                                        "BOOLEAN"@,
                                    ),
                                ))),
                            }
                        },
                    }
                },
            }
        },
        SpecExpr::Case { arms, else_expr, .. } => {
            let (t1, r1) = match else_expr {
                Some(el) => qed_expr(t, *el, g, l),
                None => (t, Ok(op_node("null"@, Seq::empty(), "NULL"@))),
            };
            match r1 {
                Err(x) => (t1, Err(x)),
                Ok(acc) => qed_case(t1, arms, g, l, acc),
            }
        },
        SpecExpr::ScalarSubquery(q) => {
            let (t1, r) = qed_rel(t, *q.plan, g + l);
            match r {
                Err(x) => (t1, Err(x)),
                Ok((qj, _)) => (t1, Ok(query_node("SCALAR_QUERY"@, Seq::empty(), qj, "INTEGER"@))),
            }
        },
        SpecExpr::InSubquery { expr, subquery, negated } => {
            let (t1, r1) = qed_expr(t, *expr, g, l);
            match r1 {
                Err(x) => (t1, Err(x)),
                Ok(v) => {
                    let (t2, r2) = qed_rel(t1, *subquery.plan, g + l);
                    match r2 {
                        Err(x) => (t2, Err(x)),
                        Ok((qj, _)) => (t2, Ok(negated_if(negated, query_node("IN"@, seq![v], qj, "BOOLEAN"@)))),
                    }
                },
            }
        },
        _ => (t, Err(SpecQedError::UnsupportedExpr(expr_debug(e)))),
    }
}

/// The arms of a `CASE`, from the last to the first, each wrapped around what follows.
pub open spec fn qed_case(
    t: Tables,
    arms: Seq<SpecWhenThen>,
    g: Seq<SpecQualifiedField>,
    l: Seq<SpecQualifiedField>,
    acc: SpecJson,
) -> (Tables, JsonResult)
    decreases arms, 1nat,
{
    if arms.len() == 0 {
        (t, Ok(acc))
    } else {
        let (t1, r1) = qed_expr(t, arms.last().condition, g, l);
        match r1 {
            Err(x) => (t1, Err(x)),
            Ok(w) => {
                let (t2, r2) = qed_expr(t1, arms.last().result, g, l);
                match r2 {
                    Err(x) => (t2, Err(x)),
                    Ok(th) => qed_case(t2, arms.drop_last(), g, l, op_node("CASE"@, seq![w, th, acc], "INTEGER"@)),
                }
            },
        }
    }
}

/// Serializing a list of expressions, in order.
pub open spec fn qed_exprs(t: Tables, s: Seq<SpecExpr>, g: Seq<SpecQualifiedField>, l: Seq<SpecQualifiedField>) -> (
    Tables,
    Result<Seq<SpecJson>, SpecQedError>,
)
    decreases s, 1nat,
{
    if s.len() == 0 {
        (t, Ok(Seq::empty()))
    } else {
        let (t1, r1) = qed_exprs(t, s.drop_last(), g, l);
        match r1 {
            Err(x) => (t1, Err(x)),
            Ok(vs) => {
                let (t2, r2) = qed_expr(t1, s.last(), g, l);
                match r2 {
                    Err(x) => (t2, Err(x)),
                    Ok(v) => (t2, Ok(vs.push(v))),
                }
            },
        }
    }
}

/// The equality conditions of join keys, in order.
pub open spec fn qed_keys(t: Tables, s: Seq<SpecJoinKey>, g: Seq<SpecQualifiedField>, l: Seq<SpecQualifiedField>) -> (
    Tables,
    Result<Seq<SpecJson>, SpecQedError>,
)
    decreases s, 1nat,
{
    if s.len() == 0 {
        (t, Ok(Seq::empty()))
    } else {
        let (t1, r1) = qed_keys(t, s.drop_last(), g, l);
        match r1 {
            Err(x) => (t1, Err(x)),
            Ok(vs) => {
                let (t2, r2) = qed_expr(t1, s.last().left, g, l);
                match r2 {
                    Err(x) => (t2, Err(x)),
                    Ok(a) => {
                        let (t3, r3) = qed_expr(t2, s.last().right, g, l);
                        match r3 {
                            Err(x) => (t3, Err(x)),
                            Ok(b) => (t3, Ok(vs.push(eq_node(a, b)))),
                        }
                    },
                }
            },
        }
    }
}

/// The expression under one alias, if any.
pub open spec fn unaliased(e: SpecExpr) -> SpecExpr {
    match e {
        SpecExpr::Alias { expr, .. } => *expr,
        _ => e,
    }
}

/// One key of an aggregate: a plain column or a function call, under at most one alias.
pub open spec fn qed_group_key(t: Tables, e: SpecExpr, g: Seq<SpecQualifiedField>, l: Seq<SpecQualifiedField>) -> (
    Tables,
    JsonResult,
)
    decreases e, 2nat,
{
    let inner = unaliased(e);
    if inner is Column || inner is ScalarFunction {
        qed_expr(t, inner, g, l)
    } else {
        (t, Err(SpecQedError::UnsupportedExpr("Unsupported group key: "@ + expr_debug(inner))))
    }
}

/// The keys of an aggregate, in order.
pub open spec fn qed_group_keys(t: Tables, s: Seq<SpecExpr>, g: Seq<SpecQualifiedField>, l: Seq<SpecQualifiedField>) -> (
    Tables,
    Result<Seq<SpecJson>, SpecQedError>,
)
    decreases s, 1nat,
{
    if s.len() == 0 {
        (t, Ok(Seq::empty()))
    } else {
        let (t1, r1) = qed_group_keys(t, s.drop_last(), g, l);
        match r1 {
            Err(x) => (t1, Err(x)),
            Ok(vs) => {
                let (t2, r2) = qed_group_key(t1, s.last(), g, l);
                match r2 {
                    Err(x) => (t2, Err(x)),
                    Ok(v) => (t2, Ok(vs.push(v))),
                }
            },
        }
    }
}

pub open spec fn aggregate_node(name: Seq<char>, args: Seq<SpecJson>, distinct: bool, ty: Seq<char>) -> SpecJson {
    SpecJson::Obj(
        seq![
            ("operator"@, SpecJson::Str(name)),
            ("operand"@, SpecJson::Arr(args)),
            ("distinct"@, SpecJson::Bool(distinct)),
            ("ignoreNulls"@, SpecJson::Bool(false)),
            ("type"@, SpecJson::Str(ty)),
        ],
    )
}

/// One aggregate call of an aggregate, under at most one alias.
pub open spec fn qed_function(t: Tables, e: SpecExpr, g: Seq<SpecQualifiedField>, l: Seq<SpecQualifiedField>) -> (
    Tables,
    JsonResult,
)
    decreases e, 2nat,
{
    match unaliased(e) {
        SpecExpr::AggregateFunction { func, params } => {
            let (t1, r) = qed_exprs(t, params.args, g, l);
            match r {
                Err(x) => (t1, Err(x)),
                Ok(args) => (t1, Ok(aggregate_node(func.name, args, params.distinct, callee_type(func.callee)))),
            }
        },
        _ => (t, Err(SpecQedError::UnsupportedExpr("Non-aggregate in aggr_expr: "@ + expr_debug(unaliased(e))))),
    }
}

/// The aggregate calls of an aggregate, in order.
pub open spec fn qed_functions(t: Tables, s: Seq<SpecExpr>, g: Seq<SpecQualifiedField>, l: Seq<SpecQualifiedField>) -> (
    Tables,
    Result<Seq<SpecJson>, SpecQedError>,
)
    decreases s, 1nat,
{
    if s.len() == 0 {
        (t, Ok(Seq::empty()))
    } else {
        let (t1, r1) = qed_functions(t, s.drop_last(), g, l);
        match r1 {
            Err(x) => (t1, Err(x)),
            Ok(vs) => {
                let (t2, r2) = qed_function(t1, s.last(), g, l);
                match r2 {
                    Err(x) => (t2, Err(x)),
                    Ok(v) => (t2, Ok(vs.push(v))),
                }
            },
        }
    }
}

/// The collation of a sort: every key must be a column of the input.
pub open spec fn qed_collation(s: Seq<SpecSortExpr>, glen: nat, l: Seq<SpecQualifiedField>) -> Result<Seq<SpecJson>, SpecQedError>
    decreases s.len(),
{
    if s.len() == 0 {
        Ok(Seq::empty())
    } else {
        match qed_collation(s.drop_last(), glen, l) {
            Err(x) => Err(x),
            Ok(vs) => match s.last().expr {
                SpecExpr::Column(c) => match find_column(l, c) {
                    Some(i) => Ok(vs.push(SpecJson::Arr(
                        seq![
                            SpecJson::Num((glen + i) as nat),
                            SpecJson::Str(qed_type(l[i].data_type)),
                            SpecJson::Str(if s.last().asc { "ASCENDING"@ } else { "DESCENDING"@ }),
                        ],
                    ))),
                    None => Err(SpecQedError::ColumnNotFound("Sort column "@ + column_debug(c) + " not found"@)),
                },
                _ => Err(SpecQedError::UnsupportedExpr("Sort expression must be a column: "@ + expr_debug(s.last().expr))),
            },
        }
    }
}

/// An optional offset or limit.
pub open spec fn qed_bound(t: Tables, b: Option<Box<SpecExpr>>, g: Seq<SpecQualifiedField>, l: Seq<SpecQualifiedField>) -> (
    Tables,
    JsonResult,
)
    decreases b, 1nat,
{
    match b {
        Some(x) => qed_expr(t, *x, g, l),
        None => (t, Ok(SpecJson::Null)),
    }
}

pub open spec fn sort_node(collation: Seq<SpecJson>, source: SpecJson, offset: SpecJson, limit: SpecJson) -> SpecJson {
    SpecJson::Obj(
        seq![(
            "sort"@,
            SpecJson::Obj(
                seq![
                    ("collation"@, SpecJson::Arr(collation)),
                    ("source"@, source),
                    ("offset"@, offset),
                    ("limit"@, limit),
                ],
            ),
        )],
    )
}

/// Serializing the inputs of a union, in order.
pub open spec fn qed_rels(t: Tables, s: Seq<SpecPlan>, g: Seq<SpecQualifiedField>) -> (
    Tables,
    Result<Seq<(SpecJson, Seq<SpecQualifiedField>)>, SpecQedError>,
)
    decreases s, 1nat,
{
    if s.len() == 0 {
        (t, Ok(Seq::empty()))
    } else {
        let (t1, r1) = qed_rels(t, s.drop_last(), g);
        match r1 {
            Err(x) => (t1, Err(x)),
            Ok(vs) => {
                let (t2, r2) = qed_rel(t1, s.last(), g);
                match r2 {
                    Err(x) => (t2, Err(x)),
                    Ok(v) => (t2, Ok(vs.push(v))),
                }
            },
        }
    }
}

pub open spec fn scan_node(idx: nat) -> SpecJson {
    SpecJson::Obj(seq![("scan"@, SpecJson::Num(idx))])
}

/// An empty relation shaped like a schema.
pub open spec fn values_node(fields: Seq<SpecQualifiedField>) -> SpecJson {
    SpecJson::Obj(
        seq![(
            "values"@,
            SpecJson::Obj(
                seq![
                    ("schema"@, SpecJson::Arr(fields.map_values(|f: SpecQualifiedField| SpecJson::Str(qed_type(f.data_type))))),
                    ("content"@, SpecJson::Arr(Seq::empty())),
                ],
            ),
        )],
    )
}

/// Serializing a plan over the outer (global) columns: its JSON and its output columns.
pub open spec fn qed_rel(t: Tables, p: SpecPlan, g: Seq<SpecQualifiedField>) -> (Tables, RelResult)
    decreases p, 1nat,
{
    match p {
        SpecPlan::Source(s) => {
            let fields = plan_schema(p);
            let (t1, idx) = resolve_table(t, s.table_name, fields);
            (t1, Ok((scan_node(idx), fields)))
        },
        SpecPlan::Empty(inner) => (t, Ok((values_node(plan_schema(*inner)), plan_schema(*inner)))),
        SpecPlan::TableScan { table_name, schema } => {
            let (t1, idx) = resolve_table(t, table_name, schema);
            (t1, Ok((scan_node(idx), schema)))
        },
        SpecPlan::Filter { predicate, input } => {
            let (t1, r1) = qed_rel(t, *input, g);
            match r1 {
                Err(x) => (t1, Err(x)),
                Ok((sj, cols)) => {
                    let (t2, r2) = qed_expr(t1, predicate, g, cols);
                    match r2 {
                        Err(x) => (t2, Err(x)),
                        Ok(c) => (t2, Ok((
                            SpecJson::Obj(seq![("filter"@, SpecJson::Obj(seq![("condition"@, c), ("source"@, sj)]))]),
                            cols,
                        ))),
                    }
                },
            }
        },
        SpecPlan::Projection { exprs, input, schema } => {
            let (t1, r1) = qed_rel(t, *input, g);
            match r1 {
                Err(x) => (t1, Err(x)),
                Ok((sj, cols)) => {
                    let (t2, r2) = qed_exprs(t1, exprs, g, cols);
                    match r2 {
                        Err(x) => (t2, Err(x)),
                        Ok(vs) => (t2, Ok((
                            SpecJson::Obj(
                                seq![("project"@, SpecJson::Obj(seq![("target"@, SpecJson::Arr(vs)), ("source"@, sj)]))],
                            ),
                            schema,
                        ))),
                    }
                },
            }
        },
        SpecPlan::Join { left, right, on, filter, join_type, .. } => {
            let (t1, r1) = qed_rel(t, *left, g);
            match r1 {
                Err(x) => (t1, Err(x)),
                Ok((lj, lcols)) => {
                    let (t2, r2) = qed_rel(t1, *right, g);
                    match r2 {
                        Err(x) => (t2, Err(x)),
                        Ok((rj, rcols)) => {
                            let local = lcols + rcols;
                            let (t3, r3) = match filter {
                                Some(f) => qed_expr(t2, f, g, local),
                                None => if on.len() > 0 {
                                    let (tk, rk) = qed_keys(t2, on, g, local);
                                    match rk {
                                        Err(x) => (tk, Err(x)),
                                        Ok(conds) => (tk, Ok(and_fold(conds))),
                                    }
                                } else {
                                    (t2, Ok(op_node("true"@, Seq::empty(), "BOOLEAN"@)))
                                },
                            };
                            match r3 {
                                Err(x) => (t3, Err(x)),
                                Ok(c) => (t3, Ok((
                                    SpecJson::Obj(
                                        seq![(
                                            "join"@,
                                            SpecJson::Obj(
                                                seq![
                                                    ("kind"@, SpecJson::Str(join_kind(join_type))),
                                                    ("condition"@, c),
                                                    ("left"@, lj),
                                                    ("right"@, rj),
                                                ],
                                            ),
                                        )],
                                    ),
                                    local,
                                ))),
                            }
                        },
                    }
                },
            }
        },
        SpecPlan::Aggregate { input, group_exprs, aggr_exprs, schema } => {
            let (t1, r1) = qed_rel(t, *input, g);
            match r1 {
                Err(x) => (t1, Err(x)),
                Ok((sj, cols)) => {
                    let (t2, r2) = qed_group_keys(t1, group_exprs, g, cols);
                    match r2 {
                        Err(x) => (t2, Err(x)),
                        Ok(keys) => {
                            let (t3, r3) = qed_functions(t2, aggr_exprs, g, cols);
                            match r3 {
                                Err(x) => (t3, Err(x)),
                                Ok(fs) => (t3, Ok((
                                    SpecJson::Obj(
                                        seq![(
                                            "group"@,
                                            SpecJson::Obj(
                                                seq![
                                                    ("keys"@, SpecJson::Arr(keys)),
                                                    ("function"@, SpecJson::Arr(fs)),
                                                    ("source"@, sj),
                                                ],
                                            ),
                                        )],
                                    ),
                                    schema,
                                ))),
                            }
                        },
                    }
                },
            }
        },
        SpecPlan::Union { inputs, .. } => {
            let (t1, r) = qed_rels(t, inputs, g);
            match r {
                Err(x) => (t1, Err(x)),
                Ok(vs) => (t1, Ok((
                    SpecJson::Obj(seq![("union"@, SpecJson::Arr(vs.map_values(|v: (SpecJson, Seq<SpecQualifiedField>)| v.0)))]),
                    if vs.len() > 0 { vs[0].1 } else { Seq::empty() },
                ))),
            }
        },
        SpecPlan::Subquery(q) => qed_rel(t, *q.plan, g),
        SpecPlan::SubqueryAlias { input, schema, .. } => {
            let (t1, r) = qed_rel(t, *input, g);
            match r {
                Err(x) => (t1, Err(x)),
                Ok((j, _)) => (t1, Ok((j, schema))),
            }
        },
        SpecPlan::Sort { exprs, input, .. } => {
            let (t1, r) = qed_rel(t, *input, g);
            match r {
                Err(x) => (t1, Err(x)),
                Ok((sj, cols)) => match qed_collation(exprs, g.len(), cols) {
                    Err(x) => (t1, Err(x)),
                    Ok(coll) => (t1, Ok((sort_node(coll, sj, SpecJson::Null, SpecJson::Null), cols))),
                },
            }
        },
        SpecPlan::Limit { skip, fetch, input } => {
            let (inner, exprs) = match *input {
                SpecPlan::Sort { exprs, input: si, .. } => (*si, exprs),
                _ => (*input, Seq::empty()),
            };
            let (t1, r) = qed_rel(t, inner, g);
            match r {
                Err(x) => (t1, Err(x)),
                Ok((sj, cols)) => match qed_collation(exprs, g.len(), cols) {
                    Err(x) => (t1, Err(x)),
                    Ok(coll) => {
                        let (t2, r2) = qed_bound(t1, skip, g, cols);
                        match r2 {
                            Err(x) => (t2, Err(x)),
                            Ok(off) => {
                                let (t3, r3) = qed_bound(t2, fetch, g, cols);
                                match r3 {
                                    Err(x) => (t3, Err(x)),
                                    Ok(lim) => (t3, Ok((sort_node(coll, sj, off, lim), cols))),
                                }
                            },
                        }
                    },
                }
            }
        },
        _ => (t, Err(SpecQedError::UnsupportedPlan(plan_display(p)))),
    }
}

/// How the engine displays a plan node that the format has no node for; any other node
/// is reported by the name it carries.
pub open spec fn plan_display(p: SpecPlan) -> Seq<char> {
    match p {
        SpecPlan::EmptyRelation { produce_one_row, .. } => if produce_one_row {
            "EmptyRelation: rows=1"@
        } else {
            "EmptyRelation: rows=0"@
        },
        SpecPlan::Distinct(_) => "Distinct:"@,
        _ => plan_label(p),
    }
}

/// The schema entry of a table in the output; no keys or guarantees are given.
pub struct SpecQedSchema {
    pub name: Seq<char>,
    pub fields: Seq<Seq<char>>,
    pub types: Seq<Seq<char>>,
    pub nullable: Seq<bool>,
    pub key: Seq<Seq<usize>>,
    pub guaranteed: Seq<SpecJson>,
}

pub open spec fn qed_schema(t: (Seq<char>, Seq<SpecQualifiedField>)) -> SpecQedSchema {
    SpecQedSchema {
        name: t.0,
        fields: t.1.map_values(|f: SpecQualifiedField| f.name),
        types: t.1.map_values(|f: SpecQualifiedField| qed_type(f.data_type)),
        nullable: t.1.map_values(|f: SpecQualifiedField| f.nullable),
        key: Seq::empty(),
        guaranteed: Seq::empty(),
    }
}

/// Serializing two plans in turn from no tables: the tables met, and the two queries.
pub open spec fn qed_pair_run(before: SpecPlan, after: SpecPlan) -> (Tables, Result<Seq<SpecJson>, SpecQedError>) {
    let (t1, r1) = qed_rel(Seq::empty(), before, Seq::empty());
    match r1 {
        Err(x) => (t1, Err(x)),
        Ok((bj, _)) => {
            let (t2, r2) = qed_rel(t1, after, Seq::empty());
            match r2 {
                Err(x) => (t2, Err(x)),
                Ok((aj, _)) => (t2, Ok(seq![bj, aj])),
            }
        },
    }
}

/// What serializing a pair of plans gives: the tables they read, with their schemas, and
/// the two queries.
pub open spec fn qed_pair(before: SpecPlan, after: SpecPlan) -> Result<(Seq<SpecQedSchema>, Seq<SpecJson>), SpecQedError> {
    let (t, r) = qed_pair_run(before, after);
    match r {
        Err(x) => Err(x),
        Ok(qs) => Ok((t.map_values(|tb: (Seq<char>, Seq<SpecQualifiedField>)| qed_schema(tb)), qs)),
    }
}

/// Whether a field has a given name, whatever its qualifier.
pub open spec fn field_named(name: Seq<char>) -> spec_fn(SpecQualifiedField) -> bool {
    |f: SpecQualifiedField| f.name == name
}

/// Serializing an expression over one list of columns, finding a column by its name
/// alone: a reference is the index of the first column with that name. A subquery under
/// `EXISTS` is serialized with the list as its outer columns.
pub open spec fn qed_expr_named(t: Tables, e: SpecExpr, cols: Seq<SpecQualifiedField>) -> (
    Tables,
    Result<SpecJson, SpecQedError>,
)
    decreases e, 1nat,
{
    match e {
        SpecExpr::Column(c) => match first_index_where(cols, field_named(c.name)) {
            Some(i) => (t, Ok(col_node(i as nat, qed_type(cols[i].data_type)))),
            None => (t, Err(SpecQedError::ColumnNotFound("Column "@ + column_debug(c) + " not found"@))),
        },
        SpecExpr::Literal(lit) => (t, Ok(op_node(lit.value, Seq::empty(), qed_type(lit.data_type)))),
        SpecExpr::ScalarFunction { func, args } => {
            let (t1, r) = qed_exprs_named(t, args, cols);
            match r {
                Err(x) => (t1, Err(x)),
                Ok(vs) => (t1, Ok(op_node(func.name, vs, callee_type(func.callee)))),
            }
        },
        SpecExpr::Binary { left, op, right } => match qed_operator(op) {
            None => (t, Err(SpecQedError::UnsupportedOperator(crate::naming::op_text(op)))),
            Some(o) => {
                let (t1, r1) = qed_expr_named(t, *left, cols);
                match r1 {
                    Err(x) => (t1, Err(x)),
                    Ok(lv) => {
                        let (t2, r2) = qed_expr_named(t1, *right, cols);
                        match r2 {
                            Err(x) => (t2, Err(x)),
                            Ok(rv) => (t2, Ok(op_node(o, seq![lv, rv], binary_type(op)))),
                        }
                    },
                }
            },
        },
        SpecExpr::Alias { expr, .. } => qed_expr_named(t, *expr, cols),
        SpecExpr::OuterReferenceColumn(_, c) => match first_index_where(cols, field_named(c.name)) {
            Some(i) => (t, Ok(col_node(i as nat, qed_type(cols[i].data_type)))),
            None => (t, Err(SpecQedError::ColumnNotFound("Outer reference column "@ + column_debug(c) + " not found"@))),
        },
        SpecExpr::Exists { subquery, negated } => {
            let (t1, r) = qed_rel(t, *subquery.plan, cols);
            match r {
                Err(x) => (t1, Err(x)),
                Ok((q, _)) => (t1, Ok(query_node(
                    if negated { "NOT EXISTS"@ } else { "EXISTS"@ },
                    Seq::empty(),
                    q,
                    "BOOLEAN"@,
                ))),
            }
        },
        _ => (t, Err(SpecQedError::UnsupportedExpr(expr_debug(e)))),
    }
}

/// Serializing expressions in turn by `qed_expr_named`, stopping at the first error.
pub open spec fn qed_exprs_named(t: Tables, s: Seq<SpecExpr>, cols: Seq<SpecQualifiedField>) -> (
    Tables,
    Result<Seq<SpecJson>, SpecQedError>,
)
    decreases s, 1nat,
{
    if s.len() == 0 {
        (t, Ok(Seq::empty()))
    } else {
        let (t1, r1) = qed_exprs_named(t, s.drop_last(), cols);
        match r1 {
            Err(x) => (t1, Err(x)),
            Ok(vs) => {
                let (t2, r2) = qed_expr_named(t1, s.last(), cols);
                match r2 {
                    Err(x) => (t2, Err(x)),
                    Ok(v) => (t2, Ok(vs.push(v))),
                }
            },
        }
    }
}

} // verus!
