//! What resolving a pattern against a plan, and instantiating a template from the
//! resulting bindings, produce: the matcher's semantics as mathematical functions.
use vstd::prelude::*;
use crate::matcher::error::{SpecBindingConflict, SpecRuleError};
use crate::naming::{
    flat_name, output_fields, plan_schema, qualified_name, schema_name,
};
use crate::plan::{
    field_column, schema_columns, JoinType, SpecCallee, SpecColumn, SpecExpr, SpecJoinKey, SpecLiteral,
    SpecOperator, SpecPlan, SpecQualifiedField, SpecSortExpr, SpecSourceNode, SpecSubquery, SpecWhenThen,
    SpecLikeExpr, SpecAggregateParams, UnaryOp,
};
use crate::text::{debug_string, decimal};
use crate::debug_text::{column_debug, expr_debug, field_item_debug, item_debug};
use crate::ast::relational::{clash_error, has_clash};

verus! {

/// A column context: each abstract column and the concrete columns it stands for.
pub type Context = Map<SpecColumn, Seq<SpecColumn>>;

/// The bindings a matcher holds.
pub struct SpecMatcher {
    /// Pattern function name -> the concrete expressions bound to it.
    pub functions: Map<Seq<char>, Seq<SpecExpr>>,
    /// Source name -> the concrete plan bound to it and its column context.
    pub sources: Map<Seq<char>, (SpecPlan, Context)>,
    /// The columns of the plan most recently resolved against, in order.
    pub output_schema: Seq<SpecColumn>,
}

pub open spec fn empty_matcher() -> SpecMatcher {
    SpecMatcher { functions: Map::empty(), sources: Map::empty(), output_schema: Seq::empty() }
}

// ---------------------------------------------------------------------------
// Generic helpers
// ---------------------------------------------------------------------------

/// The first index of `s` whose element satisfies `p`.
pub open spec fn first_index_where<A>(s: Seq<A>, p: spec_fn(A) -> bool) -> Option<int>
    decreases s.len(),
{
    if s.len() == 0 {
        None
    } else {
        match first_index_where(s.drop_last(), p) {
            Some(i) => Some(i),
            None => if p(s.last()) { Some(s.len() - 1) } else { None },
        }
    }
}

pub open spec fn min_len(a: nat, b: nat) -> nat {
    if a <= b { a } else { b }
}

pub open spec fn true_literal() -> SpecLiteral {
    SpecLiteral { value: "true"@, debug: "Boolean(true)"@, data_type: "Boolean"@ }
}

pub open spec fn null_literal() -> SpecLiteral {
    SpecLiteral { value: "NULL"@, debug: "NULL"@, data_type: "Null"@ }
}

/// `s[0] AND s[1] AND ...`, grouped to the left; `true` for no conditions.
pub open spec fn and_chain(s: Seq<SpecExpr>) -> SpecExpr
    decreases s.len(),
{
    if s.len() == 0 {
        SpecExpr::Literal(true_literal())
    } else if s.len() == 1 {
        s[0]
    } else {
        SpecExpr::Binary { left: Box::new(and_chain(s.drop_last())), op: SpecOperator::And, right: Box::new(s.last()) }
    }
}

pub open spec fn key_condition(k: SpecJoinKey) -> SpecExpr {
    SpecExpr::Binary { left: Box::new(k.left), op: SpecOperator::Eq, right: Box::new(k.right) }
}

/// The whole join condition: every key pair as an equality, then the filter, joined by AND.
pub open spec fn complete_filter(on: Seq<SpecJoinKey>, filter: Option<SpecExpr>) -> SpecExpr {
    and_chain(
        on.map_values(|k: SpecJoinKey| key_condition(k)) + match filter {
            Some(f) => seq![f],
            None => Seq::empty(),
        },
    )
}

/// The operands of nested applications of `op`, left to right.
pub open spec fn flatten(e: SpecExpr, op: SpecOperator) -> Seq<SpecExpr>
    decreases e,
{
    match e {
        SpecExpr::Binary { left, op: o, right } => if o == op {
            flatten(*left, op) + flatten(*right, op)
        } else {
            seq![e]
        },
        _ => seq![e],
    }
}

/// A size measure of expressions that counts the parts the matcher recurses into.
pub open spec fn expr_size(e: SpecExpr) -> nat
    decreases e,
{
    match e {
        SpecExpr::Alias { expr, .. } => 1 + expr_size(*expr),
        SpecExpr::Binary { left, right, .. } => 1 + expr_size(*left) + expr_size(*right),
        SpecExpr::ScalarFunction { args, .. } => 1 + exprs_size(args),
        SpecExpr::AggregateFunction { params, .. } => 1 + exprs_size(params.args),
        _ => 1,
    }
}

pub open spec fn exprs_size(s: Seq<SpecExpr>) -> nat
    decreases s,
{
    if s.len() == 0 {
        0
    } else {
        expr_size(s[0]) + exprs_size(s.drop_first())
    }
}

// ---------------------------------------------------------------------------
// Column references
// ---------------------------------------------------------------------------

/// The columns an expression refers to directly, in pre-order.
pub open spec fn column_refs(e: SpecExpr) -> Seq<SpecColumn>
    decreases e,
{
    match e {
        SpecExpr::Column(c) => seq![c],
        SpecExpr::Alias { expr, .. } => column_refs(*expr),
        SpecExpr::Binary { left, right, .. } => column_refs(*left) + column_refs(*right),
        SpecExpr::ScalarFunction { args, .. } => column_refs_seq(args),
        SpecExpr::AggregateFunction { params, .. } =>
            column_refs_seq(params.args) + column_refs_opt(params.filter) + column_refs_sorts(params.order_by),
        SpecExpr::Unary(_, inner) => column_refs(*inner),
        SpecExpr::Between { expr, low, high, .. } => column_refs(*expr) + column_refs(*low) + column_refs(*high),
        SpecExpr::Case { operand, arms, else_expr } =>
            column_refs_opt(operand) + column_refs_arms(arms) + column_refs_opt(else_expr),
        SpecExpr::Cast { expr, .. } => column_refs(*expr),
        SpecExpr::InList { expr, list, .. } => column_refs(*expr) + column_refs_seq(list),
        SpecExpr::Like(l) => column_refs(*l.expr) + column_refs(*l.pattern),
        SpecExpr::SimilarTo(l) => column_refs(*l.expr) + column_refs(*l.pattern),
        SpecExpr::InSubquery { expr, .. } => column_refs(*expr),
        _ => Seq::empty(),
    }
}

pub open spec fn column_refs_opt(o: Option<Box<SpecExpr>>) -> Seq<SpecColumn>
    decreases o,
{
    match o {
        Some(b) => column_refs(*b),
        None => Seq::empty(),
    }
}

pub open spec fn column_refs_seq(s: Seq<SpecExpr>) -> Seq<SpecColumn>
    decreases s,
{
    if s.len() == 0 {
        Seq::empty()
    } else {
        column_refs_seq(s.drop_last()) + column_refs(s.last())
    }
}

pub open spec fn column_refs_sorts(s: Seq<SpecSortExpr>) -> Seq<SpecColumn>
    decreases s,
{
    if s.len() == 0 {
        Seq::empty()
    } else {
        column_refs_sorts(s.drop_last()) + column_refs(s.last().expr)
    }
}

pub open spec fn column_refs_arms(s: Seq<SpecWhenThen>) -> Seq<SpecColumn>
    decreases s,
{
    if s.len() == 0 {
        Seq::empty()
    } else {
        column_refs_arms(s.drop_last()) + column_refs(s.last().condition) + column_refs(s.last().result)
    }
}

/// The outer columns named by a subquery's outer references.
pub open spec fn outer_columns(s: Seq<SpecExpr>) -> Seq<SpecColumn>
    decreases s.len(),
{
    if s.len() == 0 {
        Seq::empty()
    } else {
        outer_columns(s.drop_last()) + match s.last() {
            SpecExpr::OuterReferenceColumn(_, c) => seq![c],
            _ => Seq::empty(),
        }
    }
}

/// The outer columns that subqueries anywhere in an expression depend on, in pre-order.
pub open spec fn outer_refs(e: SpecExpr) -> Seq<SpecColumn>
    decreases e,
{
    match e {
        SpecExpr::Alias { expr, .. } => outer_refs(*expr),
        SpecExpr::Binary { left, right, .. } => outer_refs(*left) + outer_refs(*right),
        SpecExpr::ScalarFunction { args, .. } => outer_refs_seq(args),
        SpecExpr::AggregateFunction { params, .. } =>
            outer_refs_seq(params.args) + outer_refs_opt(params.filter) + outer_refs_sorts(params.order_by),
        SpecExpr::Unary(_, inner) => outer_refs(*inner),
        SpecExpr::Between { expr, low, high, .. } => outer_refs(*expr) + outer_refs(*low) + outer_refs(*high),
        SpecExpr::Case { operand, arms, else_expr } =>
            outer_refs_opt(operand) + outer_refs_arms(arms) + outer_refs_opt(else_expr),
        SpecExpr::Cast { expr, .. } => outer_refs(*expr),
        SpecExpr::InList { expr, list, .. } => outer_refs(*expr) + outer_refs_seq(list),
        SpecExpr::Like(l) => outer_refs(*l.expr) + outer_refs(*l.pattern),
        SpecExpr::SimilarTo(l) => outer_refs(*l.expr) + outer_refs(*l.pattern),
        SpecExpr::ScalarSubquery(q) => outer_columns(q.outer_ref_columns),
        SpecExpr::InSubquery { expr, subquery, .. } => outer_columns(subquery.outer_ref_columns) + outer_refs(*expr),
        SpecExpr::Exists { subquery, .. } => outer_columns(subquery.outer_ref_columns),
        _ => Seq::empty(),
    }
}

pub open spec fn outer_refs_opt(o: Option<Box<SpecExpr>>) -> Seq<SpecColumn>
    decreases o,
{
    match o {
        Some(b) => outer_refs(*b),
        None => Seq::empty(),
    }
}

pub open spec fn outer_refs_seq(s: Seq<SpecExpr>) -> Seq<SpecColumn>
    decreases s,
{
    if s.len() == 0 {
        Seq::empty()
    } else {
        outer_refs_seq(s.drop_last()) + outer_refs(s.last())
    }
}

pub open spec fn outer_refs_sorts(s: Seq<SpecSortExpr>) -> Seq<SpecColumn>
    decreases s,
{
    if s.len() == 0 {
        Seq::empty()
    } else {
        outer_refs_sorts(s.drop_last()) + outer_refs(s.last().expr)
    }
}

pub open spec fn outer_refs_arms(s: Seq<SpecWhenThen>) -> Seq<SpecColumn>
    decreases s,
{
    if s.len() == 0 {
        Seq::empty()
    } else {
        outer_refs_arms(s.drop_last()) + outer_refs(s.last().condition) + outer_refs(s.last().result)
    }
}

/// Whether some subquery anywhere in an expression refers to outer columns.
pub open spec fn has_correlated_subquery(e: SpecExpr) -> bool
    decreases e,
{
    match e {
        SpecExpr::Alias { expr, .. } => has_correlated_subquery(*expr),
        SpecExpr::Binary { left, right, .. } => has_correlated_subquery(*left) || has_correlated_subquery(*right),
        SpecExpr::ScalarFunction { args, .. } => correlated_seq(args),
        SpecExpr::AggregateFunction { params, .. } =>
            correlated_seq(params.args) || correlated_opt(params.filter) || correlated_sorts(params.order_by),
        SpecExpr::Unary(_, inner) => has_correlated_subquery(*inner),
        SpecExpr::Between { expr, low, high, .. } =>
            has_correlated_subquery(*expr) || has_correlated_subquery(*low) || has_correlated_subquery(*high),
        SpecExpr::Case { operand, arms, else_expr } =>
            correlated_opt(operand) || correlated_arms(arms) || correlated_opt(else_expr),
        SpecExpr::Cast { expr, .. } => has_correlated_subquery(*expr),
        SpecExpr::InList { expr, list, .. } => has_correlated_subquery(*expr) || correlated_seq(list),
        SpecExpr::Like(l) => has_correlated_subquery(*l.expr) || has_correlated_subquery(*l.pattern),
        SpecExpr::SimilarTo(l) => has_correlated_subquery(*l.expr) || has_correlated_subquery(*l.pattern),
        SpecExpr::ScalarSubquery(q) => q.outer_ref_columns.len() > 0,
        SpecExpr::InSubquery { expr, subquery, .. } =>
            subquery.outer_ref_columns.len() > 0 || has_correlated_subquery(*expr),
        SpecExpr::Exists { subquery, .. } => subquery.outer_ref_columns.len() > 0,
        _ => false,
    }
}

pub open spec fn correlated_opt(o: Option<Box<SpecExpr>>) -> bool
    decreases o,
{
    match o {
        Some(b) => has_correlated_subquery(*b),
        None => false,
    }
}

pub open spec fn correlated_seq(s: Seq<SpecExpr>) -> bool
    decreases s,
{
    if s.len() == 0 {
        false
    } else {
        correlated_seq(s.drop_last()) || has_correlated_subquery(s.last())
    }
}

pub open spec fn correlated_sorts(s: Seq<SpecSortExpr>) -> bool
    decreases s,
{
    if s.len() == 0 {
        false
    } else {
        correlated_sorts(s.drop_last()) || has_correlated_subquery(s.last().expr)
    }
}

pub open spec fn correlated_arms(s: Seq<SpecWhenThen>) -> bool
    decreases s,
{
    if s.len() == 0 {
        false
    } else {
        correlated_arms(s.drop_last()) || has_correlated_subquery(s.last().condition)
            || has_correlated_subquery(s.last().result)
    }
}

// ---------------------------------------------------------------------------
// Resolution
// ---------------------------------------------------------------------------

/// Whether the context lets the abstract column `pc` stand for the concrete column `cc`.
pub open spec fn allows(ctx: Context, pc: SpecColumn, cc: SpecColumn) -> bool {
    ctx.contains_key(pc) && ctx[pc].contains(cc)
}

/// Matching an abstract column against a concrete one.
pub open spec fn resolve_column(ctx: Context, pc: SpecColumn, cc: SpecColumn) -> Result<(), SpecRuleError> {
    if !ctx.contains_key(pc) {
        Err(SpecRuleError::UnboundSymbol { symbol: pc.name })
    } else if !ctx[pc].contains(cc) {
        Err(SpecRuleError::ExpressionMismatch { pattern: SpecExpr::Column(pc), target: SpecExpr::Column(cc) })
    } else {
        Ok(())
    }
}

/// The matcher after binding one more concrete expression to a pattern function.
pub open spec fn bind_function(m: SpecMatcher, name: Seq<char>, c: SpecExpr) -> SpecMatcher {
    SpecMatcher {
        functions: m.functions.insert(
            name,
            (if m.functions.contains_key(name) { m.functions[name] } else { Seq::empty() }).push(c),
        ),
        ..m
    }
}

/// Binding a pattern function call to a concrete expression: every column the concrete
/// expression uses (directly or through subqueries) must be allowed by a column of the call.
pub open spec fn resolve_pattern(m: SpecMatcher, name: Seq<char>, p: SpecExpr, c: SpecExpr, ctx: Context) -> (
    SpecMatcher,
    Result<(), SpecRuleError>,
) {
    let pcs = column_refs(p);
    let ccs = column_refs(c) + outer_refs(c);
    match first_index_where(ccs, |cc: SpecColumn| !(exists|j: int| 0 <= j < pcs.len() && allows(ctx, pcs[j], cc))) {
        Some(i) => (m, Err(SpecRuleError::NoMatchingPattern { item: column_debug(ccs[i]) })),
        None => (bind_function(m, name, c), Ok(())),
    }
}

/// `s[0] op s[1] op ...`, grouped to the left; the null literal for no expressions.
pub open spec fn combine(s: Seq<SpecExpr>, op: SpecOperator) -> SpecExpr
    decreases s.len(),
{
    if s.len() == 0 {
        SpecExpr::Literal(null_literal())
    } else if s.len() == 1 {
        s[0]
    } else {
        SpecExpr::Binary { left: Box::new(combine(s.drop_last(), op)), op, right: Box::new(s.last()) }
    }
}

/// Folds all expressions bound to a pattern term into one, joined by `op`.
pub open spec fn consolidate_one(m: SpecMatcher, t: SpecExpr, op: SpecOperator) -> SpecMatcher {
    match t {
        SpecExpr::ScalarFunction { func, .. } => if func.callee is Pattern && m.functions.contains_key(func.name) {
            SpecMatcher {
                functions: m.functions.insert(func.name, seq![combine(m.functions[func.name], op)]),
                ..m
            }
        } else {
            m
        },
        _ => m,
    }
}

pub open spec fn consolidate(m: SpecMatcher, terms: Seq<SpecExpr>, op: SpecOperator) -> SpecMatcher
    decreases terms.len(),
{
    if terms.len() == 0 {
        m
    } else {
        consolidate_one(consolidate(m, terms.drop_last(), op), terms.last(), op)
    }
}

/// The first pattern (from index `j` on) that the item resolves against.
pub open spec fn first_match(
    m: SpecMatcher,
    pats: Seq<SpecExpr>,
    item: SpecExpr,
    ctx: Context,
    bound: nat,
    j: int,
) -> Option<int>
    decreases bound, 0nat, 1nat, pats.len() - j,
    when 0 <= j <= pats.len()
{
    if j >= pats.len() {
        None
    } else if expr_size(pats[j]) < bound && resolve_expr(m, pats[j], item, ctx).1 is Ok {
        Some(j)
    } else {
        first_match(m, pats, item, ctx, bound, j + 1)
    }
}

/// The pattern chosen for each item from index `i` on, or the first item no pattern takes.
pub open spec fn assign_items(
    m: SpecMatcher,
    pats: Seq<SpecExpr>,
    items: Seq<SpecExpr>,
    ctx: Context,
    bound: nat,
    i: int,
) -> Result<Seq<int>, int>
    decreases bound, 0nat, 2nat, items.len() - i,
    when 0 <= i <= items.len()
{
    if i >= items.len() {
        Ok(Seq::empty())
    } else {
        match first_match(m, pats, items[i], ctx, bound, 0) {
            None => Err(i),
            Some(j) => match assign_items(m, pats, items, ctx, bound, i + 1) {
                Ok(rest) => Ok(seq![j] + rest),
                Err(k) => Err(k),
            },
        }
    }
}

/// The indices of the items assigned to pattern `j`, in order.
pub open spec fn group(assign: Seq<int>, j: int) -> Seq<int>
    decreases assign.len(),
{
    if assign.len() == 0 {
        Seq::empty()
    } else if assign.last() == j {
        group(assign.drop_last(), j).push(assign.len() - 1)
    } else {
        group(assign.drop_last(), j)
    }
}

pub open spec fn groups(assign: Seq<int>, n: nat) -> Seq<Seq<int>> {
    Seq::new(n, |j: int| group(assign, j))
}

/// Resolves the items of one group, in order, against their pattern.
pub open spec fn resolve_group(
    m: SpecMatcher,
    p: SpecExpr,
    items: Seq<SpecExpr>,
    idxs: Seq<int>,
    ctx: Context,
    bound: nat,
    k: int,
) -> (SpecMatcher, Result<(), SpecRuleError>)
    decreases bound, 0nat, 1nat, idxs.len() - k,
    when 0 <= k <= idxs.len()
{
    if k >= idxs.len() || expr_size(p) >= bound {
        (m, Ok(()))
    } else {
        let (m1, r) = resolve_expr(m, p, items[idxs[k]], ctx);
        match r {
            Err(e) => (m1, Err(e)),
            Ok(_) => resolve_group(m1, p, items, idxs, ctx, bound, k + 1),
        }
    }
}

/// Resolves every group, pattern by pattern, from pattern `j` on.
pub open spec fn resolve_groups(
    m: SpecMatcher,
    pats: Seq<SpecExpr>,
    items: Seq<SpecExpr>,
    assign: Seq<int>,
    ctx: Context,
    bound: nat,
    j: int,
) -> (SpecMatcher, Result<(), SpecRuleError>)
    decreases bound, 0nat, 2nat, pats.len() - j,
    when 0 <= j <= pats.len()
{
    if j >= pats.len() {
        (m, Ok(()))
    } else {
        let (m1, r) = resolve_group(m, pats[j], items, group(assign, j), ctx, bound, 0);
        match r {
            Err(e) => (m1, Err(e)),
            Ok(_) => resolve_groups(m1, pats, items, assign, ctx, bound, j + 1),
        }
    }
}

/// Partitioning concrete expressions among patterns: each item goes to the first pattern
/// it resolves against (tried on the bindings as they are before the partition); the
/// bindings of the chosen matches are then recorded pattern by pattern. The result gives,
/// for each pattern, the indices of its items.
pub open spec fn partition_exprs(
    m: SpecMatcher,
    pats: Seq<SpecExpr>,
    items: Seq<SpecExpr>,
    cols: Seq<SpecColumn>,
    ctx: Context,
    bound: nat,
) -> (SpecMatcher, Result<Seq<Seq<int>>, SpecRuleError>)
    decreases bound, 0nat, 3nat, 0nat,
{
    match assign_items(m, pats, items, ctx, bound, 0) {
        Err(i) => if 0 <= i < items.len() {
            (m, Err(SpecRuleError::NoMatchingPattern { item: item_debug(cols, items, i) }))
        } else {
            (m, Err(SpecRuleError::NoMatchingPattern { item: Seq::empty() }))
        },
        Ok(assign) => {
            let (m1, r) = resolve_groups(m, pats, items, assign, ctx, bound, 0);
            match r {
                Err(e) => (m1, Err(e)),
                Ok(_) => (m1, Ok(groups(assign, pats.len()))),
            }
        },
    }
}

/// What names a pattern term that took no concrete term: the symbol it calls, or else the
/// term's own name.
pub open spec fn term_symbol(t: SpecExpr) -> Seq<char> {
    match t {
        SpecExpr::ScalarFunction { func, .. } => func.name,
        SpecExpr::AggregateFunction { func, .. } => func.name,
        _ => schema_name(t),
    }
}

/// Matching two binary expressions. AND and OR are matched up to regrouping and order of
/// their operands, and every operand of the pattern must take at least one concrete
/// operand; other operators must agree and match operand by operand.
pub open spec fn resolve_binary(m: SpecMatcher, p: SpecExpr, c: SpecExpr, ctx: Context) -> (
    SpecMatcher,
    Result<(), SpecRuleError>,
)
    decreases expr_size(p), 1nat, 0nat, 0nat,
{
    match (p, c) {
        (SpecExpr::Binary { left, op, right }, SpecExpr::Binary { left: cl, op: cop, right: cr }) => {
            if op is And || op is Or {
                let pts = flatten(p, op);
                let cts = flatten(c, op);
                let (m1, r) = partition_exprs(m, pts, cts, Seq::empty(), ctx, expr_size(p));
                match r {
                    Err(e) => (m1, Err(e)),
                    Ok(grps) => match first_index_where(grps, |g: Seq<int>| g.len() == 0) {
                        Some(j) => (m1, Err(SpecRuleError::UnboundSymbol { symbol: term_symbol(pts[j]) })),
                        None => (consolidate(m1, pts, op), Ok(())),
                    },
                }
            } else if op != cop {
                (m, Err(SpecRuleError::ExpressionMismatch { pattern: p, target: c }))
            } else {
                let (m1, r1) = resolve_expr(m, *left, *cl, ctx);
                match r1 {
                    Err(e) => (m1, Err(e)),
                    Ok(_) => resolve_expr(m1, *right, *cr, ctx),
                }
            }
        },
        _ => (m, Err(SpecRuleError::ExpressionMismatch { pattern: p, target: c })),
    }
}

/// Matching a pattern expression against a concrete expression in a column context.
pub open spec fn resolve_expr(m: SpecMatcher, p: SpecExpr, c: SpecExpr, ctx: Context) -> (
    SpecMatcher,
    Result<(), SpecRuleError>,
)
    decreases expr_size(p), 2nat, 0nat, 0nat,
{
    let mismatch = (m, Err(SpecRuleError::ExpressionMismatch { pattern: p, target: c }));
    match p {
        SpecExpr::ScalarFunction { func, .. } => if func.callee is Pattern {
            resolve_pattern(m, func.name, p, c, ctx)
        } else {
            mismatch
        },
        SpecExpr::AggregateFunction { func, .. } => if func.callee is Pattern {
            resolve_pattern(m, func.name, p, c, ctx)
        } else {
            mismatch
        },
        SpecExpr::Binary { .. } => if c is Binary {
            resolve_binary(m, p, c, ctx)
        } else {
            mismatch
        },
        SpecExpr::Column(pc) => match c {
            SpecExpr::Column(cc) => (m, resolve_column(ctx, pc, cc)),
            _ => mismatch,
        },
        SpecExpr::Literal(pl) => match c {
            SpecExpr::Literal(cl) => if pl == cl { (m, Ok(())) } else { mismatch },
            _ => mismatch,
        },
        SpecExpr::Alias { expr, .. } => resolve_expr(m, *expr, c, ctx),
        _ => mismatch,
    }
}

/// Whether the abstract field `a` may stand for the concrete field `c`: a non-nullable
/// abstract field only takes non-nullable concrete fields.
pub open spec fn accepts(a: SpecQualifiedField, c: SpecQualifiedField) -> bool {
    a.nullable || !c.nullable
}

/// The first abstract field that accepts a concrete field.
pub open spec fn first_accepting(abs: Seq<SpecQualifiedField>, c: SpecQualifiedField) -> Option<int> {
    first_index_where(abs, |a: SpecQualifiedField| accepts(a, c))
}

/// The concrete columns whose first accepting abstract field is field `j`, in order.
pub open spec fn source_group(abs: Seq<SpecQualifiedField>, con: Seq<SpecQualifiedField>, j: int) -> Seq<SpecColumn>
    decreases con.len(),
{
    if con.len() == 0 {
        Seq::empty()
    } else if first_accepting(abs, con.last()) == Some(j) {
        source_group(abs, con.drop_last(), j).push(field_column(con.last()))
    } else {
        source_group(abs, con.drop_last(), j)
    }
}

/// The column context of a source binding: each abstract column with its group.
pub open spec fn source_context(abs: Seq<SpecQualifiedField>, con: Seq<SpecQualifiedField>, n: nat) -> Context
    decreases n,
{
    if n == 0 || n > abs.len() {
        Map::empty()
    } else {
        source_context(abs, con, (n - 1) as nat).insert(field_column(abs[n - 1]), source_group(abs, con, n - 1))
    }
}

/// Binding an abstract source to a concrete plan.
pub open spec fn resolve_source(m: SpecMatcher, s: SpecSourceNode, c: SpecPlan) -> (
    SpecMatcher,
    Result<Context, SpecRuleError>,
) {
    let name = s.table_name;
    if m.sources.contains_key(name) && m.sources[name].0 != c {
        (m, Err(SpecRuleError::InconsistentBinding {
            symbol: name,
            details: SpecBindingConflict::Plan { previous: m.sources[name].0, attempted: c },
        }))
    } else {
        let abs = plan_schema(SpecPlan::Source(s));
        let con = plan_schema(c);
        match first_index_where(con, |f: SpecQualifiedField| first_accepting(abs, f) is None) {
            Some(i) => (m, Err(SpecRuleError::NoMatchingPattern { item: field_item_debug(con[i]) })),
            None => {
                let ctx = source_context(abs, con, abs.len());
                (SpecMatcher { sources: m.sources.insert(name, (c, ctx)), ..m }, Ok(ctx))
            },
        }
    }
}

/// The output context of a projection or aggregate: pattern output column `j` stands for
/// the concrete output columns of the items in group `j`. A pattern expression that is a
/// plain column must keep exactly the columns that it stands for in the input.
pub open spec fn output_context(
    pexprs: Seq<SpecExpr>,
    pcols: Seq<SpecColumn>,
    grps: Seq<Seq<int>>,
    ccols: Seq<SpecColumn>,
    ctx: Context,
    validate: bool,
    acc: Context,
    j: int,
) -> Result<Context, SpecRuleError>
    decreases pcols.len() - j,
    when 0 <= j
{
    if j >= pcols.len() || j >= grps.len() || j >= pexprs.len() {
        Ok(acc)
    } else {
        let cols = grps[j].map_values(|i: int| ccols[i]);
        let check: Result<(), SpecRuleError> = match pexprs[j] {
            SpecExpr::Column(pc) => if validate && (!ctx.contains_key(pc) || cols != ctx[pc]) {
                Err(SpecRuleError::UnboundSymbol { symbol: pc.name })
            } else {
                Ok(())
            },
            _ => Ok(()),
        };
        match check {
            Err(e) => Err(e),
            Ok(_) => output_context(pexprs, pcols, grps, ccols, ctx, validate, acc.insert(pcols[j], cols), j + 1),
        }
    }
}

/// Partitions a projection's concrete expressions among the pattern's and derives the
/// output context.
pub open spec fn projection_outputs(
    m: SpecMatcher,
    pe: Seq<SpecExpr>,
    ps: Seq<SpecQualifiedField>,
    ce: Seq<SpecExpr>,
    cs: Seq<SpecQualifiedField>,
    ctx: Context,
) -> (SpecMatcher, Result<Context, SpecRuleError>) {
    let n = min_len(cs.len(), ce.len());
    let ccols = schema_columns(cs).take(n as int);
    let (m2, r2) = partition_exprs(m, pe, ce.take(n as int), ccols, ctx, exprs_size(pe) + 1);
    match r2 {
        Err(e) => (m2, Err(e)),
        Ok(grps) => (m2, output_context(pe, schema_columns(ps), grps, ccols, ctx, true, Map::empty(), 0)),
    }
}

pub open spec fn resolve_projection(m: SpecMatcher, p: SpecPlan, c: SpecPlan) -> (
    SpecMatcher,
    Result<Context, SpecRuleError>,
)
    decreases p, 0nat,
{
    match (p, c) {
        (SpecPlan::Projection { exprs: pe, input: pi, schema: ps }, SpecPlan::Projection { exprs: ce, input: ci, schema: cs }) => {
            let (m1, r1) = resolve_plan(m, *pi, *ci);
            match r1 {
                Err(e) => (m1, Err(e)),
                Ok(ctx) => projection_outputs(m1, pe, ps, ce, cs, ctx),
            }
        },
        _ => (m, Err(SpecRuleError::StructureMismatch { pattern: p, target: c })),
    }
}

/// The output context of an aggregate from the groups of its group and aggregate
/// expressions.
pub open spec fn aggregate_context(
    pg: Seq<SpecExpr>,
    pa: Seq<SpecExpr>,
    ps: Seq<SpecQualifiedField>,
    ggrps: Seq<Seq<int>>,
    agrps: Seq<Seq<int>>,
    gcols: Seq<SpecColumn>,
    acols: Seq<SpecColumn>,
    ctx: Context,
) -> Result<Context, SpecRuleError> {
    let pcols = schema_columns(ps);
    let psplit = min_len(pg.len(), pcols.len());
    match output_context(pg, pcols.take(psplit as int), ggrps, gcols, ctx, true, Map::empty(), 0) {
        Err(e) => Err(e),
        Ok(out) => output_context(pa, pcols.skip(psplit as int), agrps, acols, ctx, false, out, 0),
    }
}

/// Partitions an aggregate's group and aggregate expressions among the pattern's and
/// derives the output context.
pub open spec fn aggregate_outputs(
    m: SpecMatcher,
    pg: Seq<SpecExpr>,
    pa: Seq<SpecExpr>,
    ps: Seq<SpecQualifiedField>,
    cg: Seq<SpecExpr>,
    ca: Seq<SpecExpr>,
    cs: Seq<SpecQualifiedField>,
    ctx: Context,
) -> (SpecMatcher, Result<Context, SpecRuleError>) {
    let ccols = schema_columns(cs);
    let gsplit = min_len(cg.len(), ccols.len());
    let gn = min_len(gsplit, cg.len());
    let gcols = ccols.take(gn as int);
    let acols_all = ccols.skip(gsplit as int);
    let an = min_len(acols_all.len(), ca.len());
    let acols = acols_all.take(an as int);
    let (m2, r2) = partition_exprs(m, pg, cg.take(gn as int), gcols, ctx, exprs_size(pg) + 1);
    match r2 {
        Err(e) => (m2, Err(e)),
        Ok(ggrps) => {
            let (m3, r3) = partition_exprs(m2, pa, ca.take(an as int), acols, ctx, exprs_size(pa) + 1);
            match r3 {
                Err(e) => (m3, Err(e)),
                Ok(agrps) => (m3, aggregate_context(pg, pa, ps, ggrps, agrps, gcols, acols, ctx)),
            }
        },
    }
}

pub open spec fn resolve_aggregate(m: SpecMatcher, p: SpecPlan, c: SpecPlan) -> (
    SpecMatcher,
    Result<Context, SpecRuleError>,
)
    decreases p, 0nat,
{
    match (p, c) {
        (
            SpecPlan::Aggregate { input: pi, group_exprs: pg, aggr_exprs: pa, schema: ps },
            SpecPlan::Aggregate { input: ci, group_exprs: cg, aggr_exprs: ca, schema: cs },
        ) => {
            let (m1, r1) = resolve_plan(m, *pi, *ci);
            match r1 {
                Err(e) => (m1, Err(e)),
                Ok(ctx) => aggregate_outputs(m1, pg, pa, ps, cg, ca, cs, ctx),
            }
        },
        _ => (m, Err(SpecRuleError::StructureMismatch { pattern: p, target: c })),
    }
}

pub open spec fn resolve_join(m: SpecMatcher, p: SpecPlan, c: SpecPlan) -> (
    SpecMatcher,
    Result<Context, SpecRuleError>,
)
    decreases p, 0nat,
{
    match (p, c) {
        (
            SpecPlan::Join { left: pl, right: pr, on: pon, filter: pf, join_type: pj, .. },
            SpecPlan::Join { left: cl, right: cr, on: con, filter: cf, join_type: cj, .. },
        ) => if pj != cj {
            (m, Err(SpecRuleError::StructureMismatch { pattern: p, target: c }))
        } else {
            let (m1, r1) = resolve_plan(m, *pl, *cl);
            match r1 {
                Err(e) => (m1, Err(e)),
                Ok(lctx) => {
                    let (m2, r2) = resolve_plan(m1, *pr, *cr);
                    match r2 {
                        Err(e) => (m2, Err(e)),
                        Ok(rctx) => {
                            let merged = lctx.union_prefer_right(rctx);
                            let (m3, r3) = resolve_expr(m2, complete_filter(pon, pf), complete_filter(con, cf), merged);
                            match r3 {
                                Err(e) => (m3, Err(e)),
                                Ok(_) => (m3, Ok(merged)),
                            }
                        },
                    }
                },
            }
        },
        _ => (m, Err(SpecRuleError::StructureMismatch { pattern: p, target: c })),
    }
}

pub open spec fn resolve_union(m: SpecMatcher, p: SpecPlan, c: SpecPlan) -> (
    SpecMatcher,
    Result<Context, SpecRuleError>,
)
    decreases p, 0nat,
{
    match (p, c) {
        (SpecPlan::Union { inputs: pin, .. }, SpecPlan::Union { inputs: cin, .. }) => if pin.len() != 2 || cin.len() != 2 {
            (m, Err(SpecRuleError::StructureMismatch { pattern: p, target: c }))
        } else {
            let (m1, r1) = resolve_plan(m, pin[0], cin[0]);
            match r1 {
                Err(e) => (m1, Err(e)),
                Ok(lctx) => {
                    let (m2, r2) = resolve_plan(m1, pin[1], cin[1]);
                    match r2 {
                        Err(e) => (m2, Err(e)),
                        Ok(rctx) => (m2, Ok(lctx.union_prefer_right(rctx))),
                    }
                },
            }
        },
        _ => (m, Err(SpecRuleError::StructureMismatch { pattern: p, target: c })),
    }
}

/// Matching a pattern plan against a concrete plan, giving the column context of its output.
pub open spec fn resolve_plan(m: SpecMatcher, p: SpecPlan, c: SpecPlan) -> (
    SpecMatcher,
    Result<Context, SpecRuleError>,
)
    decreases p, 1nat,
{
    let mismatch = (m, Err(SpecRuleError::StructureMismatch { pattern: p, target: c }));
    match p {
        SpecPlan::Source(s) => resolve_source(m, s, c),
        SpecPlan::Empty(inner) => if c is EmptyRelation {
            resolve_plan(m, *inner, c)
        } else {
            mismatch
        },
        SpecPlan::Filter { predicate, input } => match c {
            SpecPlan::Filter { predicate: cp, input: ci } => {
                let (m1, r1) = resolve_plan(m, *input, *ci);
                match r1 {
                    Err(e) => (m1, Err(e)),
                    Ok(ctx) => {
                        let (m2, r2) = resolve_expr(m1, predicate, cp, ctx);
                        match r2 {
                            Err(e) => (m2, Err(e)),
                            Ok(_) => (m2, Ok(ctx)),
                        }
                    },
                }
            },
            _ => mismatch,
        },
        SpecPlan::Projection { .. } => if c is Projection { resolve_projection(m, p, c) } else { mismatch },
        SpecPlan::Aggregate { .. } => if c is Aggregate { resolve_aggregate(m, p, c) } else { mismatch },
        SpecPlan::Join { .. } => if c is Join { resolve_join(m, p, c) } else { mismatch },
        SpecPlan::Union { .. } => if c is Union { resolve_union(m, p, c) } else { mismatch },
        _ => mismatch,
    }
}

/// Resolving a rule's pattern against a plan: records the plan's output columns, then
/// matches the pattern.
pub open spec fn resolve(m: SpecMatcher, pattern: SpecPlan, concrete: SpecPlan) -> (
    SpecMatcher,
    Result<(), SpecRuleError>,
) {
    let m1 = SpecMatcher { output_schema: schema_columns(plan_schema(concrete)), ..m };
    let (m2, r) = resolve_plan(m1, pattern, concrete);
    (m2, match r {
        Ok(_) => Ok(()),
        Err(e) => Err(e),
    })
}

// ---------------------------------------------------------------------------
// Instantiation
// ---------------------------------------------------------------------------

/// The key under which an instantiated argument is found when a bound expression's
/// columns are replaced.
pub type EvalKey = (Option<Seq<char>>, Seq<char>);

/// Debug rendering of an evaluation key, e.g. `(Some("emp"), "deptno")`.
pub open spec fn key_text(k: EvalKey) -> Seq<char> {
    "("@ + match k.0 {
        Some(r) => "Some("@ + debug_string(r) + ")"@,
        None => "None"@,
    } + ", "@ + debug_string(k.1) + ")"@
}

pub open spec fn invalid(reason: Seq<char>) -> SpecRuleError {
    SpecRuleError::InvalidPattern { reason }
}

/// Replaces the columns of a bound expression by the instantiated arguments they name.
pub open spec fn replace_columns(e: SpecExpr, ectx: Map<EvalKey, SpecExpr>) -> Result<SpecExpr, SpecRuleError>
    decreases e,
{
    match e {
        SpecExpr::Column(c) => {
            let key = (c.relation, c.name);
            if ectx.contains_key(key) {
                Ok(ectx[key])
            } else {
                Err(SpecRuleError::UnboundSymbol { symbol: key_text(key) })
            }
        },
        SpecExpr::Binary { left, op, right } => match replace_columns(*left, ectx) {
            Err(x) => Err(x),
            Ok(l) => match replace_columns(*right, ectx) {
                Err(x) => Err(x),
                Ok(r) => Ok(SpecExpr::Binary { left: Box::new(l), op, right: Box::new(r) }),
            },
        },
        SpecExpr::ScalarFunction { func, args } => match replace_seq(args, ectx) {
            Err(x) => Err(x),
            Ok(a) => Ok(SpecExpr::ScalarFunction { func, args: a }),
        },
        SpecExpr::AggregateFunction { func, params } => match replace_seq(params.args, ectx) {
            Err(x) => Err(x),
            Ok(a) => match replace_opt(params.filter, ectx) {
                Err(x) => Err(x),
                Ok(f) => match replace_sorts(params.order_by, ectx) {
                    Err(x) => Err(x),
                    Ok(o) => Ok(SpecExpr::AggregateFunction {
                        func,
                        params: SpecAggregateParams { args: a, filter: f, order_by: o, ..params },
                    }),
                },
            },
        },
        SpecExpr::Literal(_) => Ok(e),
        SpecExpr::Unary(op, inner) => match replace_columns(*inner, ectx) {
            Err(x) => Err(x),
            Ok(i) => Ok(SpecExpr::Unary(op, Box::new(i))),
        },
        SpecExpr::Between { expr, negated, low, high } => match replace_columns(*expr, ectx) {
            Err(x) => Err(x),
            Ok(e1) => match replace_columns(*low, ectx) {
                Err(x) => Err(x),
                Ok(l) => match replace_columns(*high, ectx) {
                    Err(x) => Err(x),
                    Ok(h) => Ok(SpecExpr::Between { expr: Box::new(e1), negated, low: Box::new(l), high: Box::new(h) }),
                },
            },
        },
        SpecExpr::Case { operand, arms, else_expr } => match replace_opt(operand, ectx) {
            Err(x) => Err(x),
            Ok(o) => match replace_arms(arms, ectx) {
                Err(x) => Err(x),
                Ok(a) => match replace_opt(else_expr, ectx) {
                    Err(x) => Err(x),
                    Ok(el) => Ok(SpecExpr::Case { operand: o, arms: a, else_expr: el }),
                },
            },
        },
        SpecExpr::Cast { expr, data_type, try_cast } => match replace_columns(*expr, ectx) {
            Err(x) => Err(x),
            Ok(i) => Ok(SpecExpr::Cast { expr: Box::new(i), data_type, try_cast }),
        },
        SpecExpr::Alias { expr, relation, name } => match replace_columns(*expr, ectx) {
            Err(x) => Err(x),
            Ok(i) => Ok(SpecExpr::Alias { expr: Box::new(i), relation, name }),
        },
        SpecExpr::InList { expr, list, negated } => match replace_columns(*expr, ectx) {
            Err(x) => Err(x),
            Ok(i) => match replace_seq(list, ectx) {
                Err(x) => Err(x),
                Ok(l) => Ok(SpecExpr::InList { expr: Box::new(i), list: l, negated }),
            },
        },
        SpecExpr::Like(l) => match replace_columns(*l.expr, ectx) {
            Err(x) => Err(x),
            Ok(i) => match replace_columns(*l.pattern, ectx) {
                Err(x) => Err(x),
                Ok(pt) => if l.escape_char is Some {
                    Err(invalid("LIKE with escape character not yet supported in column replacement"@))
                } else {
                    Ok(SpecExpr::Like(SpecLikeExpr { expr: Box::new(i), pattern: Box::new(pt), ..l }))
                },
            },
        },
        SpecExpr::SimilarTo(_) => Err(invalid("SIMILAR TO expressions not yet supported in column replacement"@)),
        SpecExpr::ScalarSubquery(_) => Ok(e),
        SpecExpr::InSubquery { expr, subquery, negated } => match replace_columns(*expr, ectx) {
            Err(x) => Err(x),
            Ok(i) => Ok(SpecExpr::InSubquery { expr: Box::new(i), subquery, negated }),
        },
        SpecExpr::Exists { .. } => Ok(e),
        _ => Err(invalid("Expression type "@ + expr_debug(e) + " not yet supported in column replacement"@)),
    }
}

pub open spec fn replace_opt(o: Option<Box<SpecExpr>>, ectx: Map<EvalKey, SpecExpr>) -> Result<Option<Box<SpecExpr>>, SpecRuleError>
    decreases o,
{
    match o {
        None => Ok(None),
        Some(b) => match replace_columns(*b, ectx) {
            Err(x) => Err(x),
            Ok(r) => Ok(Some(Box::new(r))),
        },
    }
}

pub open spec fn replace_seq(s: Seq<SpecExpr>, ectx: Map<EvalKey, SpecExpr>) -> Result<Seq<SpecExpr>, SpecRuleError>
    decreases s,
{
    if s.len() == 0 {
        Ok(Seq::empty())
    } else {
        match replace_seq(s.drop_last(), ectx) {
            Err(x) => Err(x),
            Ok(a) => match replace_columns(s.last(), ectx) {
                Err(x) => Err(x),
                Ok(r) => Ok(a.push(r)),
            },
        }
    }
}

pub open spec fn replace_sorts(s: Seq<SpecSortExpr>, ectx: Map<EvalKey, SpecExpr>) -> Result<Seq<SpecSortExpr>, SpecRuleError>
    decreases s,
{
    if s.len() == 0 {
        Ok(Seq::empty())
    } else {
        match replace_sorts(s.drop_last(), ectx) {
            Err(x) => Err(x),
            Ok(a) => match replace_columns(s.last().expr, ectx) {
                Err(x) => Err(x),
                Ok(r) => Ok(a.push(SpecSortExpr { expr: r, ..s.last() })),
            },
        }
    }
}

pub open spec fn replace_arms(s: Seq<SpecWhenThen>, ectx: Map<EvalKey, SpecExpr>) -> Result<Seq<SpecWhenThen>, SpecRuleError>
    decreases s,
{
    if s.len() == 0 {
        Ok(Seq::empty())
    } else {
        match replace_arms(s.drop_last(), ectx) {
            Err(x) => Err(x),
            Ok(a) => match replace_columns(s.last().condition, ectx) {
                Err(x) => Err(x),
                Ok(c) => match replace_columns(s.last().result, ectx) {
                    Err(x) => Err(x),
                    Ok(r) => Ok(a.push(SpecWhenThen { condition: c, result: r })),
                },
            },
        }
    }
}

/// Replaces columns in each bound expression, in order.
pub open spec fn replace_all(s: Seq<SpecExpr>, ectx: Map<EvalKey, SpecExpr>) -> Result<Seq<SpecExpr>, SpecRuleError> {
    replace_seq(s, ectx)
}

/// Adds instantiated arguments to an evaluation context, each under its qualified name.
pub open spec fn add_to_eval(acc: Map<EvalKey, SpecExpr>, es: Seq<SpecExpr>) -> Map<EvalKey, SpecExpr>
    decreases es.len(),
{
    if es.len() == 0 {
        acc
    } else {
        add_to_eval(acc, es.drop_last()).insert(qualified_name(es.last()), es.last())
    }
}

/// The evaluation context of a pattern call: its arguments instantiated, in order.
pub open spec fn eval_context(
    m: SpecMatcher,
    args: Seq<SpecExpr>,
    ctx: Context,
    acc: Map<EvalKey, SpecExpr>,
) -> Result<Map<EvalKey, SpecExpr>, SpecRuleError>
    decreases exprs_size(args) + 1, 0nat, args.len(),
{
    if args.len() == 0 {
        Ok(acc)
    } else {
        match instantiate_expr(m, args[0], ctx) {
            Err(x) => Err(x),
            Ok(es) => eval_context(m, args.drop_first(), ctx, add_to_eval(acc, es)),
        }
    }
}

/// Instantiating a pattern call: the expressions bound to the pattern, with their columns
/// replaced by the instantiated arguments.
pub open spec fn instantiate_pattern(m: SpecMatcher, name: Seq<char>, args: Seq<SpecExpr>, ctx: Context) -> Result<
    Seq<SpecExpr>,
    SpecRuleError,
>
    decreases exprs_size(args) + 1, 1nat, 0nat,
{
    match eval_context(m, args, ctx, Map::empty()) {
        Err(x) => Err(x),
        Ok(ectx) => if !m.functions.contains_key(name) {
            Err(SpecRuleError::UnboundSymbol { symbol: name })
        } else {
            replace_all(m.functions[name], ectx)
        },
    }
}

/// Instantiating a template expression; a template expression can stand for several
/// concrete expressions.
pub open spec fn instantiate_expr(m: SpecMatcher, t: SpecExpr, ctx: Context) -> Result<Seq<SpecExpr>, SpecRuleError>
    decreases expr_size(t), 2nat, 0nat,
{
    match t {
        SpecExpr::ScalarFunction { func, args } => if func.callee is Pattern {
            instantiate_pattern(m, func.name, args, ctx)
        } else {
            Err(invalid("Concrete function '"@ + func.name + "' found in template - only pattern functions are allowed"@))
        },
        SpecExpr::AggregateFunction { func, params } => if func.callee is Pattern {
            instantiate_pattern(m, func.name, params.args, ctx)
        } else {
            Err(invalid("Concrete aggregate function '"@ + func.name + "' found in template - only pattern functions are allowed"@))
        },
        SpecExpr::Binary { left, op, right } => match instantiate_expr(m, *left, ctx) {
            Err(x) => Err(x),
            Ok(ls) => match instantiate_expr(m, *right, ctx) {
                Err(x) => Err(x),
                Ok(rs) => if ls.len() != 1 || rs.len() != 1 {
                    Err(invalid("Binary expression operands must resolve to single expressions"@))
                } else {
                    Ok(seq![SpecExpr::Binary { left: Box::new(ls[0]), op, right: Box::new(rs[0]) }])
                },
            },
        },
        SpecExpr::Column(c) => if ctx.contains_key(c) {
            Ok(ctx[c].map_values(|x: SpecColumn| SpecExpr::Column(x)))
        } else {
            Err(SpecRuleError::UnboundSymbol { symbol: c.name })
        },
        SpecExpr::Literal(_) => Ok(seq![t]),
        SpecExpr::Alias { expr, .. } => instantiate_expr(m, *expr, ctx),
        _ => Err(invalid("Unsupported expression type in template: "@ + expr_debug(t))),
    }
}

/// Instantiates a list of template expressions, pairing each result with the template's
/// output column.
pub open spec fn instantiate_outputs(
    m: SpecMatcher,
    ts: Seq<SpecExpr>,
    cols: Seq<SpecColumn>,
    ctx: Context,
) -> Result<Seq<(SpecColumn, SpecExpr)>, SpecRuleError>
    decreases ts.len(),
{
    if ts.len() == 0 || cols.len() < ts.len() {
        if ts.len() == 0 { Ok(Seq::empty()) } else { instantiate_outputs(m, ts.take(cols.len() as int), cols, ctx) }
    } else {
        match instantiate_outputs(m, ts.drop_last(), cols, ctx) {
            Err(x) => Err(x),
            Ok(acc) => match instantiate_expr(m, ts.last(), ctx) {
                Err(x) => Err(x),
                Ok(es) => Ok(acc + es.map_values(|e: SpecExpr| (cols[ts.len() - 1], e))),
            },
        }
    }
}

/// Whether a column is `c`.
pub open spec fn is_column(c: SpecColumn) -> spec_fn(SpecColumn) -> bool {
    |o: SpecColumn| o == c
}

/// The position, in the output columns, of the column an instantiated expression is.
pub open spec fn output_position(e: SpecExpr, out: Seq<SpecColumn>) -> Option<int> {
    match e {
        SpecExpr::Column(c) => first_index_where(out, is_column(c)),
        _ => None,
    }
}

/// The entries whose expression has the given output position, in order.
pub open spec fn with_position(s: Seq<(SpecColumn, SpecExpr)>, out: Seq<SpecColumn>, k: Option<int>) -> Seq<(SpecColumn, SpecExpr)>
    decreases s.len(),
{
    if s.len() == 0 {
        Seq::empty()
    } else if output_position(s.last().1, out) == k {
        with_position(s.drop_last(), out, k).push(s.last())
    } else {
        with_position(s.drop_last(), out, k)
    }
}

pub open spec fn with_positions_from(s: Seq<(SpecColumn, SpecExpr)>, out: Seq<SpecColumn>, k: int) -> Seq<(SpecColumn, SpecExpr)>
    decreases out.len() - k,
{
    if k >= out.len() || k < 0 {
        Seq::empty()
    } else {
        with_position(s, out, Some(k)) + with_positions_from(s, out, k + 1)
    }
}

/// A stable sort by output position: entries that are not output columns first, then the
/// output columns in the order of the output.
pub open spec fn sort_by_output(s: Seq<(SpecColumn, SpecExpr)>, out: Seq<SpecColumn>) -> Seq<(SpecColumn, SpecExpr)> {
    with_position(s, out, None) + with_positions_from(s, out, 0)
}

/// A context built by appending each concrete column to the list of its template column.
pub open spec fn collect_context(keys: Seq<SpecColumn>, vals: Seq<SpecColumn>) -> Context
    decreases keys.len(),
{
    if keys.len() == 0 || vals.len() < keys.len() {
        if keys.len() == 0 { Map::empty() } else { collect_context(keys.take(vals.len() as int), vals) }
    } else {
        let prev = collect_context(keys.drop_last(), vals);
        let k = keys.last();
        prev.insert(k, (if prev.contains_key(k) { prev[k] } else { Seq::empty() }).push(vals[keys.len() - 1]))
    }
}

/// The output schema of a join of two inputs.
pub open spec fn join_schema(l: Seq<SpecQualifiedField>, r: Seq<SpecQualifiedField>, jt: JoinType) -> Seq<SpecQualifiedField> {
    match jt {
        JoinType::Inner => l + r,
        JoinType::Left => l + nullable_all(r),
        JoinType::Right => nullable_all(l) + r,
        JoinType::Full => nullable_all(l) + nullable_all(r),
        JoinType::LeftSemi | JoinType::LeftAnti => l,
        JoinType::RightSemi | JoinType::RightAnti => r,
        JoinType::LeftMark => l.push(mark_field(r)),
        JoinType::RightMark => r.push(mark_field(l)),
    }
}

pub open spec fn nullable_all(s: Seq<SpecQualifiedField>) -> Seq<SpecQualifiedField> {
    s.map_values(|f: SpecQualifiedField| SpecQualifiedField { nullable: true, ..f })
}

/// The qualifier shared by every qualified field of a schema, if there is exactly one.
pub open spec fn single_qualifier(s: Seq<SpecQualifiedField>) -> Option<Seq<char>> {
    match first_index_where(s, |f: SpecQualifiedField| f.qualifier is Some) {
        None => None,
        Some(i) => if forall|j: int| 0 <= j < s.len() && (#[trigger] s[j]).qualifier is Some ==> s[j].qualifier == s[i].qualifier {
            s[i].qualifier
        } else {
            None
        },
    }
}

/// The boolean `mark` column a mark join adds.
pub open spec fn mark_field(other: Seq<SpecQualifiedField>) -> SpecQualifiedField {
    SpecQualifiedField { qualifier: single_qualifier(other), name: "mark"@, data_type: "Boolean"@, nullable: false }
}

pub open spec fn single_predicate(es: Seq<SpecExpr>) -> Result<SpecExpr, SpecRuleError> {
    if es.len() == 0 {
        Err(invalid("Filter predicate must resolve to a single expression"@))
    } else {
        Ok(es.last())
    }
}

/// The label under which an unsupported template node is reported.
pub open spec fn plan_label(p: SpecPlan) -> Seq<char> {
    match p {
        SpecPlan::TableScan { table_name, .. } => "TableScan: "@ + table_name,
        SpecPlan::EmptyRelation { .. } => "EmptyRelation"@,
        SpecPlan::Sort { .. } => "Sort"@,
        SpecPlan::Limit { .. } => "Limit"@,
        SpecPlan::Distinct(_) => "Distinct"@,
        SpecPlan::SubqueryAlias { alias, .. } => "SubqueryAlias: "@ + alias,
        SpecPlan::Subquery(_) => "Subquery"@,
        SpecPlan::Other { name, .. } => name,
        _ => Seq::empty(),
    }
}

/// Instantiating a template plan from the matcher's bindings, giving the plan and the
/// column context of its output.
pub open spec fn instantiate_plan(m: SpecMatcher, t: SpecPlan) -> Result<(SpecPlan, Context), SpecRuleError>
    decreases t,
{
    match t {
        SpecPlan::Source(s) => if m.sources.contains_key(s.table_name) {
            Ok(m.sources[s.table_name])
        } else {
            Err(SpecRuleError::UnboundSymbol { symbol: s.table_name })
        },
        SpecPlan::Empty(inner) => match instantiate_plan(m, *inner) {
            Err(x) => Err(x),
            Ok((ip, _)) => Ok((SpecPlan::EmptyRelation { produce_one_row: false, schema: plan_schema(ip) }, Map::empty())),
        },
        SpecPlan::Filter { predicate, input } => match instantiate_plan(m, *input) {
            Err(x) => Err(x),
            Ok((ip, ctx)) => match instantiate_expr(m, predicate, ctx) {
                Err(x) => Err(x),
                Ok(es) => match single_predicate(es) {
                    Err(x) => Err(x),
                    Ok(pred) => match crate::ast::relational::checked_filter(ip, pred) {
                        Err(x) => Err(x),
                        Ok(f) => Ok((f, ctx)),
                    },
                },
            },
        },
        SpecPlan::Projection { exprs, input, schema } => match instantiate_plan(m, *input) {
            Err(x) => Err(x),
            Ok((ip, ictx)) => match instantiate_outputs(m, exprs, schema_columns(schema), ictx) {
                Err(x) => Err(x),
                Ok(pairs) => {
                    let sorted = sort_by_output(pairs, m.output_schema);
                    let es = sorted.map_values(|q: (SpecColumn, SpecExpr)| q.1);
                    let out_schema = output_fields(es, plan_schema(ip));
                    if has_clash(out_schema) {
                        Err(clash_error(out_schema))
                    } else {
                        Ok((
                            SpecPlan::Projection { exprs: es, input: Box::new(ip), schema: out_schema },
                            collect_context(sorted.map_values(|q: (SpecColumn, SpecExpr)| q.0), schema_columns(out_schema)),
                        ))
                    }
                },
            },
        },
        SpecPlan::Aggregate { input, group_exprs, aggr_exprs, schema } => match instantiate_plan(m, *input) {
            Err(x) => Err(x),
            Ok((ip, ictx)) => {
                let tcols = schema_columns(schema);
                let split = min_len(group_exprs.len(), tcols.len());
                match instantiate_outputs(m, group_exprs, tcols.take(split as int), ictx) {
                    Err(x) => Err(x),
                    Ok(gpairs) => {
                        let gsorted = sort_by_output(gpairs, m.output_schema);
                        match instantiate_outputs(m, aggr_exprs, tcols.skip(split as int), ictx) {
                            Err(x) => Err(x),
                            Ok(apairs) => {
                                let all = gsorted + apairs;
                                let ges = gsorted.map_values(|q: (SpecColumn, SpecExpr)| q.1);
                                let aes = apairs.map_values(|q: (SpecColumn, SpecExpr)| q.1);
                                let out_schema = output_fields(ges + aes, plan_schema(ip));
                                if has_clash(out_schema) {
                                    Err(clash_error(out_schema))
                                } else {
                                    Ok((
                                        SpecPlan::Aggregate {
                                            input: Box::new(ip),
                                            group_exprs: ges,
                                            aggr_exprs: aes,
                                            schema: out_schema,
                                        },
                                        collect_context(all.map_values(|q: (SpecColumn, SpecExpr)| q.0), schema_columns(out_schema)),
                                    ))
                                }
                            },
                        }
                    },
                }
            },
        },
        SpecPlan::Join { left, right, on, filter, join_type, null_equals_null, .. } => match instantiate_plan(m, *left) {
            Err(x) => Err(x),
            Ok((lp, lctx)) => match instantiate_plan(m, *right) {
                Err(x) => Err(x),
                Ok((rp, rctx)) => {
                    let merged = lctx.union_prefer_right(rctx);
                    match instantiate_expr(m, complete_filter(on, filter), merged) {
                        Err(x) => Err(x),
                        Ok(es) => match single_predicate(es) {
                            Err(x) => Err(x),
                            Ok(pred) => if has_correlated_subquery(pred) {
                                Err(invalid("Join condition cannot contain correlated subqueries"@))
                            } else if has_clash(join_schema(plan_schema(lp), plan_schema(rp), join_type)) {
                                Err(clash_error(join_schema(plan_schema(lp), plan_schema(rp), join_type)))
                            } else {
                                Ok((
                                    SpecPlan::Join {
                                        left: Box::new(lp),
                                        right: Box::new(rp),
                                        on: Seq::empty(),
                                        filter: Some(pred),
                                        join_type,
                                        null_equals_null,
                                        schema: join_schema(plan_schema(lp), plan_schema(rp), join_type),
                                    },
                                    merged,
                                ))
                            },
                        },
                    }
                },
            },
        },
        SpecPlan::Union { inputs, .. } => if inputs.len() != 2 {
            Err(invalid("Union pattern must have exactly 2 inputs, found "@ + decimal(inputs.len())))
        } else {
            match instantiate_plan(m, inputs[0]) {
                Err(x) => Err(x),
                Ok((lp, lctx)) => match instantiate_plan(m, inputs[1]) {
                    Err(x) => Err(x),
                    Ok((rp, rctx)) => Ok((
                        SpecPlan::Union { inputs: seq![lp, rp], schema: plan_schema(lp) },
                        lctx.union_prefer_right(rctx),
                    )),
                },
            }
        },
        _ => Err(invalid("Unsupported plan type in template: "@ + plan_label(t))),
    }
}

/// Instantiating a rule's template.
pub open spec fn instantiate(m: SpecMatcher, t: SpecPlan) -> Result<SpecPlan, SpecRuleError> {
    match instantiate_plan(m, t) {
        Ok((p, _)) => Ok(p),
        Err(x) => Err(x),
    }
}

/// Applying a rule: resolve its pattern against the plan with fresh bindings, then
/// instantiate its template.
pub open spec fn apply_rule(from: SpecPlan, to: SpecPlan, plan: SpecPlan) -> Result<SpecPlan, SpecRuleError> {
    let (m, r) = resolve(empty_matcher(), from, plan);
    match r {
        Err(x) => Err(x),
        Ok(_) => instantiate(m, to),
    }
}

/// Whether a rule's pattern matches a plan.
pub open spec fn rule_matches(from: SpecPlan, plan: SpecPlan) -> bool {
    resolve(empty_matcher(), from, plan).1 is Ok
}

} // verus!
