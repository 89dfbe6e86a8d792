//! Properties of resolution and rule application that hold for all inputs.
use vstd::prelude::*;
use crate::matcher::default::lemma_first_index_where;
use crate::matcher::error::{SpecBindingConflict, SpecRuleError};
use crate::matcher::semantics::{
    apply_rule, combine, consolidate, consolidate_one, flatten, partition_exprs, resolve, resolve_binary, resolve_expr,
    resolve_plan, resolve_source, rule_matches, assign_items, first_match, group, expr_size, eval_context, instantiate_expr, instantiate_pattern, replace_columns, replace_seq, Context, SpecMatcher,
    replace_opt, replace_sorts, replace_arms, join_schema, EvalKey,
};
use crate::plan::{
    JoinType, SpecCallee, SpecColumn, SpecExpr, SpecFunctionRef, SpecOperator, SpecPlan, SpecQualifiedField,
    SpecSortExpr, SpecSourceNode, SpecWhenThen,
};

verus! {

/// A rule produces a plan only when its pattern matches.
pub proof fn lemma_apply_implies_matches(from: SpecPlan, to: SpecPlan, plan: SpecPlan)
    requires
        apply_rule(from, to, plan) is Ok,
    ensures
        rule_matches(from, plan),
{
}

/// A rule whose pattern does not match fails with the error of the match.
pub proof fn lemma_no_match_error(from: SpecPlan, to: SpecPlan, plan: SpecPlan)
    requires
        !rule_matches(from, plan),
    ensures
        resolve(crate::matcher::semantics::empty_matcher(), from, plan).1 matches Err(e) && apply_rule(from, to, plan)
            == Err::<SpecPlan, SpecRuleError>(e),
{
}

/// AND and OR are matched up to regrouping of the concrete operands: two concrete
/// expressions with the same operands give the same outcome.
pub proof fn lemma_regrouping(m: SpecMatcher, p: SpecExpr, c1: SpecExpr, c2: SpecExpr, ctx: Context, op: SpecOperator)
    requires
        op is And || op is Or,
        p matches SpecExpr::Binary { op: o, .. } && o == op,
        c1 is Binary,
        c2 is Binary,
        flatten(c1, op) == flatten(c2, op),
    ensures
        resolve_expr(m, p, c1, ctx) == resolve_expr(m, p, c2, ctx),
{
    assert(resolve_binary(m, p, c1, ctx) == resolve_binary(m, p, c2, ctx));
}

/// A source already bound to one plan cannot be bound to another: the attempt fails
/// with both plans and leaves the bindings as they were.
pub proof fn lemma_source_conflict(m: SpecMatcher, s: SpecSourceNode, c: SpecPlan)
    requires
        m.sources.contains_key(s.table_name),
        m.sources[s.table_name].0 != c,
    ensures
        resolve_source(m, s, c) == (m, Err::<Context, SpecRuleError>(SpecRuleError::InconsistentBinding {
            symbol: s.table_name,
            details: SpecBindingConflict::Plan { previous: m.sources[s.table_name].0, attempted: c },
        })),
{
}

/// When some concrete item matches no pattern, partitioning fails without touching the
/// bindings: failed attempts leave no trace.
pub proof fn lemma_partition_failure_keeps_bindings(
    m: SpecMatcher,
    pats: Seq<SpecExpr>,
    items: Seq<SpecExpr>,
    cols: Seq<SpecColumn>,
    ctx: Context,
    bound: nat,
)
    requires
        assign_items(m, pats, items, ctx, bound, 0) is Err,
    ensures
        partition_exprs(m, pats, items, cols, ctx, bound).0 == m,
        partition_exprs(m, pats, items, cols, ctx, bound).1 matches Err(SpecRuleError::NoMatchingPattern { .. }),
{
}

proof fn lemma_first_match_range(m: SpecMatcher, pats: Seq<SpecExpr>, item: SpecExpr, ctx: Context, bound: nat, j: int)
    requires
        0 <= j <= pats.len(),
    ensures
        first_match(m, pats, item, ctx, bound, j) matches Some(k) ==> j <= k < pats.len(),
    decreases pats.len() - j,
{
    if j < pats.len() {
        lemma_first_match_range(m, pats, item, ctx, bound, j + 1);
    }
}

proof fn lemma_assign_items(m: SpecMatcher, pats: Seq<SpecExpr>, items: Seq<SpecExpr>, ctx: Context, bound: nat, i: int)
    requires
        0 <= i <= items.len(),
    ensures
        assign_items(m, pats, items, ctx, bound, i) matches Ok(a) ==> {
            &&& a.len() == items.len() - i
            &&& forall|k: int| 0 <= k < a.len() ==> first_match(m, pats, items[i + k], ctx, bound, 0) == Some(#[trigger] a[k])
        },
        assign_items(m, pats, items, ctx, bound, i) is Ok <==> forall|x: int|
            i <= x < items.len() ==> (first_match(m, pats, #[trigger] items[x], ctx, bound, 0) is Some),
    decreases items.len() - i,
{
    if i < items.len() {
        lemma_assign_items(m, pats, items, ctx, bound, i + 1);
        if let Ok(a) = assign_items(m, pats, items, ctx, bound, i) {
            let rest = assign_items(m, pats, items, ctx, bound, i + 1)->Ok_0;
            assert forall|k: int| 0 <= k < a.len() implies first_match(m, pats, items[i + k], ctx, bound, 0)
                == Some(#[trigger] a[k]) by {
                if k > 0 {
                    assert(a[k] == rest[k - 1]);
                    assert(items[i + k] == items[(i + 1) + (k - 1)]);
                }
            }
        }
        if first_match(m, pats, items[i], ctx, bound, 0) is None {
            assert(!(forall|x: int| i <= x < items.len() ==> (first_match(m, pats, #[trigger] items[x], ctx, bound, 0) is Some)));
        }
    }
}

proof fn lemma_group(assign: Seq<int>, j: int)
    ensures
        forall|a: int| 0 <= a < group(assign, j).len() ==> {
            &&& 0 <= #[trigger] group(assign, j)[a] < assign.len()
            &&& assign[group(assign, j)[a]] == j
        },
        forall|x: int| 0 <= x < assign.len() && #[trigger] assign[x] == j ==> group(assign, j).contains(x),
        forall|a: int, b: int| #![trigger group(assign, j)[a], group(assign, j)[b]]
            0 <= a < b < group(assign, j).len() ==> group(assign, j)[a] < group(assign, j)[b],
    decreases assign.len(),
{
    if assign.len() > 0 {
        let d = assign.drop_last();
        lemma_group(d, j);
        let g0 = group(d, j);
        assert forall|x: int| 0 <= x < assign.len() && #[trigger] assign[x] == j implies group(assign, j).contains(x) by {
            if x < d.len() {
                assert(d[x] == assign[x]);
                let a = choose|a: int| 0 <= a < g0.len() && g0[a] == x;
                assert(group(assign, j)[a] == x);
            } else {
                assert(group(assign, j)[g0.len() as int] == x);
            }
        }
        assert forall|a: int| 0 <= a < group(assign, j).len() implies {
            &&& 0 <= #[trigger] group(assign, j)[a] < assign.len()
            &&& assign[group(assign, j)[a]] == j
        } by {
            if a < g0.len() {
                assert(d[g0[a]] == assign[g0[a]]);
            }
        }
    }
}

/// Partitioning assigns each concrete item to the first pattern it matches, tried on the
/// bindings as they were before: on success there is one group per pattern, every item
/// is in the group of that first pattern and in no other, and each group keeps the items
/// in their order. When some item matches no pattern, partitioning fails with
/// `NoMatchingPattern` and leaves the bindings as they were.
pub proof fn lemma_partition_takes_first_match(
    m: SpecMatcher,
    pats: Seq<SpecExpr>,
    items: Seq<SpecExpr>,
    cols: Seq<SpecColumn>,
    ctx: Context,
    bound: nat,
)
    ensures
        partition_exprs(m, pats, items, cols, ctx, bound).1 matches Ok(gs) ==> {
            &&& gs.len() == pats.len()
            &&& forall|i: int| 0 <= i < items.len() ==> (first_match(m, pats, #[trigger] items[i], ctx, bound, 0)
                matches Some(j) && 0 <= j < gs.len() && gs[j].contains(i))
            &&& forall|j: int, i: int| 0 <= j < gs.len() && #[trigger] gs[j].contains(i) ==> {
                &&& 0 <= i < items.len()
                &&& first_match(m, pats, items[i], ctx, bound, 0) == Some(j)
            }
            &&& forall|j: int, a: int, b: int| #![trigger gs[j][a], gs[j][b]]
                0 <= j < gs.len() && 0 <= a < b < gs[j].len() ==> gs[j][a] < gs[j][b]
        },
        (exists|i: int| 0 <= i < items.len() && first_match(m, pats, #[trigger] items[i], ctx, bound, 0) is None) ==> {
            &&& partition_exprs(m, pats, items, cols, ctx, bound).0 == m
            &&& partition_exprs(m, pats, items, cols, ctx, bound).1 matches Err(SpecRuleError::NoMatchingPattern { .. })
        },
{
    lemma_assign_items(m, pats, items, ctx, bound, 0);
    if let Ok(assign) = assign_items(m, pats, items, ctx, bound, 0) {
        if let Ok(gs) = partition_exprs(m, pats, items, cols, ctx, bound).1 {
            assert forall|i: int| 0 <= i < items.len() implies (first_match(m, pats, #[trigger] items[i], ctx, bound, 0)
                matches Some(j) && 0 <= j < gs.len() && gs[j].contains(i)) by {
                assert(items[0 + i] == items[i]);
                let j = assign[i];
                lemma_first_match_range(m, pats, items[i], ctx, bound, 0);
                lemma_group(assign, j);
                assert(gs[j] == group(assign, j));
            }
            assert forall|j: int, i: int| 0 <= j < gs.len() && #[trigger] gs[j].contains(i) implies {
                &&& 0 <= i < items.len()
                &&& first_match(m, pats, items[i], ctx, bound, 0) == Some(j)
            } by {
                lemma_group(assign, j);
                assert(gs[j] == group(assign, j));
                let a = choose|a: int| 0 <= a < gs[j].len() && gs[j][a] == i;
                assert(items[0 + i] == items[i]);
            }
            assert forall|j: int, a: int, b: int| #![trigger gs[j][a], gs[j][b]]
                0 <= j < gs.len() && 0 <= a < b < gs[j].len() implies gs[j][a] < gs[j][b] by {
                lemma_group(assign, j);
                assert(gs[j] == group(assign, j));
            }
        }
    }
}

/// A binary pattern whose operator is neither AND nor OR matches only a binary expression
/// with the very same operator. Against a binary expression with another operator the
/// match fails with `ExpressionMismatch` naming both and leaves the bindings as they were.
pub proof fn lemma_operator_must_agree(
    m: SpecMatcher,
    pl: SpecExpr,
    op: SpecOperator,
    pr: SpecExpr,
    c: SpecExpr,
    ctx: Context,
)
    requires
        !(op is And || op is Or),
    ensures
        ({
            let p = SpecExpr::Binary { left: Box::new(pl), op, right: Box::new(pr) };
            &&& resolve_expr(m, p, c, ctx).1 is Ok ==> (c matches SpecExpr::Binary { op: cop, .. } && cop == op)
            &&& (c matches SpecExpr::Binary { op: cop, .. } && cop != op) ==> resolve_expr(m, p, c, ctx) == (
                m,
                Err::<(), SpecRuleError>(SpecRuleError::ExpressionMismatch { pattern: p, target: c }),
            )
        }),
{
    let p = SpecExpr::Binary { left: Box::new(pl), op, right: Box::new(pr) };
    let mismatch = (m, Err::<(), SpecRuleError>(SpecRuleError::ExpressionMismatch { pattern: p, target: c }));
    if c is Binary {
        assert(resolve_expr(m, p, c, ctx) == resolve_binary(m, p, c, ctx));
        if let SpecExpr::Binary { op: cop, .. } = c {
            if cop != op {
                assert(resolve_binary(m, p, c, ctx) == mismatch);
            }
        }
    } else {
        assert(resolve_expr(m, p, c, ctx) == mismatch);
    }
}

/// A context that sends every column it knows to that same column.
pub open spec fn identity_context(ectx: Map<EvalKey, SpecExpr>) -> bool {
    forall|k: EvalKey| #[trigger] ectx.contains_key(k) ==> ectx[k] == SpecExpr::Column(SpecColumn { relation: k.0, name: k.1 })
}

/// Replacing columns changes columns only: through a context that sends each column to
/// itself, a replacement that succeeds gives back the very expression it was given, with
/// every operator, flag, type, name and nested list as it was.
pub proof fn lemma_replace_identity(e: SpecExpr, ectx: Map<EvalKey, SpecExpr>)
    requires
        identity_context(ectx),
    ensures
        replace_columns(e, ectx) matches Ok(r) ==> r == e,
    decreases e,
{
    match e {
        SpecExpr::Column(c) => {
            let key = (c.relation, c.name);
            if ectx.contains_key(key) {
                assert(ectx[key] == SpecExpr::Column(SpecColumn { relation: key.0, name: key.1 }));
            }
        },
        SpecExpr::Binary { left, right, .. } => {
            lemma_replace_identity(*left, ectx);
            lemma_replace_identity(*right, ectx);
        },
        SpecExpr::ScalarFunction { args, .. } => lemma_replace_seq_identity(args, ectx),
        SpecExpr::AggregateFunction { params, .. } => {
            lemma_replace_seq_identity(params.args, ectx);
            lemma_replace_opt_identity(params.filter, ectx);
            lemma_replace_sorts_identity(params.order_by, ectx);
        },
        SpecExpr::Unary(_, inner) => lemma_replace_identity(*inner, ectx),
        SpecExpr::Between { expr, low, high, .. } => {
            lemma_replace_identity(*expr, ectx);
            lemma_replace_identity(*low, ectx);
            lemma_replace_identity(*high, ectx);
        },
        SpecExpr::Case { operand, arms, else_expr } => {
            lemma_replace_opt_identity(operand, ectx);
            lemma_replace_arms_identity(arms, ectx);
            lemma_replace_opt_identity(else_expr, ectx);
        },
        SpecExpr::Cast { expr, .. } => lemma_replace_identity(*expr, ectx),
        SpecExpr::Alias { expr, .. } => lemma_replace_identity(*expr, ectx),
        SpecExpr::InList { expr, list, .. } => {
            lemma_replace_identity(*expr, ectx);
            lemma_replace_seq_identity(list, ectx);
        },
        SpecExpr::Like(l) => {
            lemma_replace_identity(*l.expr, ectx);
            lemma_replace_identity(*l.pattern, ectx);
        },
        SpecExpr::InSubquery { expr, .. } => lemma_replace_identity(*expr, ectx),
        _ => {},
    }
}

proof fn lemma_replace_opt_identity(o: Option<Box<SpecExpr>>, ectx: Map<EvalKey, SpecExpr>)
    requires
        identity_context(ectx),
    ensures
        replace_opt(o, ectx) matches Ok(r) ==> r == o,
    decreases o,
{
    if let Some(b) = o {
        lemma_replace_identity(*b, ectx);
    }
}

proof fn lemma_replace_seq_identity(s: Seq<SpecExpr>, ectx: Map<EvalKey, SpecExpr>)
    requires
        identity_context(ectx),
    ensures
        replace_seq(s, ectx) matches Ok(r) ==> r == s,
    decreases s,
{
    if s.len() > 0 {
        lemma_replace_seq_identity(s.drop_last(), ectx);
        lemma_replace_identity(s.last(), ectx);
        assert(s.drop_last().push(s.last()) =~= s);
    } else {
        assert(s =~= Seq::<SpecExpr>::empty());
    }
}

proof fn lemma_replace_sorts_identity(s: Seq<SpecSortExpr>, ectx: Map<EvalKey, SpecExpr>)
    requires
        identity_context(ectx),
    ensures
        replace_sorts(s, ectx) matches Ok(r) ==> r == s,
    decreases s,
{
    if s.len() > 0 {
        lemma_replace_sorts_identity(s.drop_last(), ectx);
        lemma_replace_identity(s.last().expr, ectx);
        assert(s.drop_last().push(s.last()) =~= s);
    } else {
        assert(s =~= Seq::<SpecSortExpr>::empty());
    }
}

proof fn lemma_replace_arms_identity(s: Seq<SpecWhenThen>, ectx: Map<EvalKey, SpecExpr>)
    requires
        identity_context(ectx),
    ensures
        replace_arms(s, ectx) matches Ok(r) ==> r == s,
    decreases s,
{
    if s.len() > 0 {
        lemma_replace_arms_identity(s.drop_last(), ectx);
        lemma_replace_identity(s.last().condition, ectx);
        lemma_replace_identity(s.last().result, ectx);
        assert(s.drop_last().push(s.last()) =~= s);
    } else {
        assert(s =~= Seq::<SpecWhenThen>::empty());
    }
}

/// `b` is the field `a` with its nullability possibly changed.
pub open spec fn same_field_but_nullable(a: SpecQualifiedField, b: SpecQualifiedField) -> bool {
    b.qualifier == a.qualifier && b.name == a.name && b.data_type == a.data_type
}

/// The schema of an inner or outer join lists the left input's fields and then the right
/// input's, each with its qualifier, name and type. A field is nullable when it was, and
/// every field of a side that the join pads with nulls is nullable: the right side of a
/// LEFT join, the left side of a RIGHT join, both sides of a FULL join. An inner join
/// changes no field. Semi and anti joins keep one input's schema as it is, and a mark join
/// adds to it one boolean, non-nullable field named `mark`.
pub proof fn lemma_join_schema_padding(l: Seq<SpecQualifiedField>, r: Seq<SpecQualifiedField>, jt: JoinType)
    ensures
        (jt is Inner || jt is Left || jt is Right || jt is Full) ==> {
            let s = join_schema(l, r, jt);
            &&& s.len() == l.len() + r.len()
            &&& forall|i: int| 0 <= i < l.len() ==> {
                &&& same_field_but_nullable(l[i], #[trigger] s[i])
                &&& s[i].nullable == (l[i].nullable || jt is Right || jt is Full)
            }
            &&& forall|j: int| 0 <= j < r.len() ==> {
                &&& same_field_but_nullable(r[j], #[trigger] s[l.len() + j])
                &&& s[l.len() + j].nullable == (r[j].nullable || jt is Left || jt is Full)
            }
        },
        (jt is LeftSemi || jt is LeftAnti) ==> join_schema(l, r, jt) == l,
        (jt is RightSemi || jt is RightAnti) ==> join_schema(l, r, jt) == r,
        jt is LeftMark ==> {
            let s = join_schema(l, r, jt);
            &&& s.len() == l.len() + 1
            &&& s.take(l.len() as int) == l
            &&& s.last().name == "mark"@ && s.last().data_type == "Boolean"@ && !s.last().nullable
        },
        jt is RightMark ==> {
            let s = join_schema(l, r, jt);
            &&& s.len() == r.len() + 1
            &&& s.take(r.len() as int) == r
            &&& s.last().name == "mark"@ && s.last().data_type == "Boolean"@ && !s.last().nullable
        },
{
    if jt is LeftMark {
        assert(join_schema(l, r, jt).take(l.len() as int) =~= l);
    }
    if jt is RightMark {
        assert(join_schema(l, r, jt).take(r.len() as int) =~= r);
    }
}

/// Matching a pattern column never changes the bindings.
pub proof fn lemma_column_keeps_bindings(m: SpecMatcher, pc: SpecColumn, c: SpecExpr, ctx: Context)
    ensures
        resolve_expr(m, SpecExpr::Column(pc), c, ctx).0 == m,
{
}

/// Flattening gives at least one operand, and exactly the expression itself when it is
/// not an application of the operator.
pub proof fn lemma_flatten_shape(e: SpecExpr, op: SpecOperator)
    ensures
        flatten(e, op).len() >= 1,
        !(e matches SpecExpr::Binary { op: o, .. } && o == op) ==> flatten(e, op) == seq![e],
    decreases e,
{
    match e {
        SpecExpr::Binary { left, op: o, right } => {
            if o == op {
                lemma_flatten_shape(*left, op);
                lemma_flatten_shape(*right, op);
            }
        },
        _ => {},
    }
}

/// After the operands of a conjunction or disjunction are consolidated, every pattern
/// symbol among the terms that has a binding stands for exactly one expression.
pub proof fn lemma_consolidated_single(m: SpecMatcher, terms: Seq<SpecExpr>, op: SpecOperator, k: int)
    requires
        0 <= k < terms.len(),
        terms[k] matches SpecExpr::ScalarFunction { func, .. } && func.callee is Pattern && m.functions.contains_key(
            func.name,
        ),
    ensures
        terms[k] matches SpecExpr::ScalarFunction { func, .. } && consolidate(m, terms, op).functions.contains_key(
            func.name,
        ) && consolidate(m, terms, op).functions[func.name].len() == 1,
    decreases terms.len(),
{
    let name = terms[k]->ScalarFunction_func.name;
    if k == terms.len() - 1 {
        lemma_consolidate_keeps_keys(m, terms.drop_last(), op, name);
    } else {
        assert(terms.drop_last()[k] == terms[k]);
        lemma_consolidated_single(m, terms.drop_last(), op, k);
        let prev = consolidate(m, terms.drop_last(), op);
        match terms.last() {
            SpecExpr::ScalarFunction { func, .. } => {
                if func.callee is Pattern && prev.functions.contains_key(func.name) && func.name == name {
                    assert(prev.functions[name].len() == 1);
                    assert(combine(prev.functions[name], op) == prev.functions[name][0]);
                }
            },
            _ => {},
        }
    }
}

/// Consolidation never removes a binding.
pub proof fn lemma_consolidate_keeps_keys(m: SpecMatcher, terms: Seq<SpecExpr>, op: SpecOperator, name: Seq<char>)
    requires
        m.functions.contains_key(name),
    ensures
        consolidate(m, terms, op).functions.contains_key(name),
    decreases terms.len(),
{
    if terms.len() > 0 {
        lemma_consolidate_keeps_keys(m, terms.drop_last(), op, name);
    }
}

/// A join pattern matches only joins of its own kind: against a join of another kind the
/// match fails on the structure and binds nothing.
pub proof fn lemma_join_kind_must_agree(m: SpecMatcher, p: SpecPlan, c: SpecPlan)
    requires
        p matches SpecPlan::Join { join_type: pj, .. } && c matches SpecPlan::Join { join_type: cj, .. } && pj != cj,
    ensures
        resolve_plan(m, p, c) == (m, Err::<Context, SpecRuleError>(SpecRuleError::StructureMismatch { pattern: p, target: c })),
{
    assert(resolve_plan(m, p, c) == crate::matcher::semantics::resolve_join(m, p, c));
}

/// Every symbol of a template must have been bound by the match: a call of a symbol with
/// no binding cannot be instantiated, and once its arguments evaluate, the failure names
/// the symbol.
pub proof fn lemma_unbound_symbol_fails(m: SpecMatcher, f: SpecFunctionRef, args: Seq<SpecExpr>, ctx: Context)
    requires
        f.callee is Pattern,
        !m.functions.contains_key(f.name),
    ensures
        instantiate_expr(m, SpecExpr::ScalarFunction { func: f, args }, ctx) is Err,
        eval_context(m, args, ctx, Map::empty()) is Ok ==> instantiate_expr(
            m,
            SpecExpr::ScalarFunction { func: f, args },
            ctx,
        ) == Err::<Seq<SpecExpr>, SpecRuleError>(SpecRuleError::UnboundSymbol { symbol: f.name }),
{
    let call = SpecExpr::ScalarFunction { func: f, args };
    assert(instantiate_expr(m, call, ctx) == instantiate_pattern(m, f.name, args, ctx));
}

/// Whether a concrete plan's root is of the kind a pattern node stands for: a source
/// stands for any plan, an empty pattern for an empty relation, and every other pattern
/// node for a node of its own kind.
pub open spec fn root_kinds_agree(p: SpecPlan, c: SpecPlan) -> bool {
    match p {
        SpecPlan::Source(_) => true,
        SpecPlan::Empty(_) => c is EmptyRelation,
        SpecPlan::Filter { .. } => c is Filter,
        SpecPlan::Projection { .. } => c is Projection,
        SpecPlan::Aggregate { .. } => c is Aggregate,
        SpecPlan::Join { .. } => c is Join,
        SpecPlan::Union { .. } => c is Union,
        _ => false,
    }
}

/// A pattern matches only plans whose root is of its own root's kind: against any other
/// plan the match fails on the structure and binds nothing.
pub proof fn lemma_root_kind_must_agree(m: SpecMatcher, p: SpecPlan, c: SpecPlan)
    requires
        !root_kinds_agree(p, c),
    ensures
        resolve_plan(m, p, c) == (m, Err::<Context, SpecRuleError>(SpecRuleError::StructureMismatch { pattern: p, target: c })),
{
}

/// Every operand of a pattern conjunction or disjunction must bind: when an AND/OR pattern
/// matches, each of its operands took at least one operand of the concrete expression.
pub proof fn lemma_every_operand_binds(m: SpecMatcher, p: SpecExpr, c: SpecExpr, ctx: Context, op: SpecOperator)
    requires
        p matches SpecExpr::Binary { op: o, .. } && o == op,
        op is And || op is Or,
        c is Binary,
        resolve_binary(m, p, c, ctx).1 is Ok,
    ensures
        partition_exprs(m, flatten(p, op), flatten(c, op), Seq::empty(), ctx, expr_size(p)).1 matches Ok(grps) && forall|j: int|
            0 <= j < grps.len() ==> (#[trigger] grps[j]).len() > 0,
{
    let (m1, r) = partition_exprs(m, flatten(p, op), flatten(c, op), Seq::empty(), ctx, expr_size(p));
    match r {
        Ok(grps) => {
            let pred = |g: Seq<int>| g.len() == 0;
            lemma_first_index_where(grps, pred);
            assert forall|j: int| 0 <= j < grps.len() implies (#[trigger] grps[j]).len() > 0 by {
                assert(!pred(grps[j]));
            }
        },
        Err(_) => {},
    }
}

/// Whether an expression is built only from literals, binary and unary operators, casts,
/// ranges and function calls: it names no column.
pub open spec fn column_free(e: SpecExpr) -> bool
    decreases e,
{
    match e {
        SpecExpr::Literal(_) => true,
        SpecExpr::Binary { left, right, .. } => column_free(*left) && column_free(*right),
        SpecExpr::Unary(_, inner) => column_free(*inner),
        SpecExpr::Cast { expr, .. } => column_free(*expr),
        SpecExpr::Between { expr, low, high, .. } => column_free(*expr) && column_free(*low) && column_free(*high),
        SpecExpr::ScalarFunction { args, .. } => all_column_free(args),
        _ => false,
    }
}

pub open spec fn all_column_free(s: Seq<SpecExpr>) -> bool
    decreases s,
{
    if s.len() == 0 { true } else { all_column_free(s.drop_last()) && column_free(s.last()) }
}

/// Replacing columns leaves an expression that names no column as it is, whatever the
/// arguments at hand.
pub proof fn lemma_replace_column_free(e: SpecExpr, ectx: Map<(Option<Seq<char>>, Seq<char>), SpecExpr>)
    requires
        column_free(e),
    ensures
        replace_columns(e, ectx) == Ok::<SpecExpr, SpecRuleError>(e),
    decreases e,
{
    match e {
        SpecExpr::Binary { left, right, .. } => {
            lemma_replace_column_free(*left, ectx);
            lemma_replace_column_free(*right, ectx);
        },
        SpecExpr::Unary(_, inner) => lemma_replace_column_free(*inner, ectx),
        SpecExpr::Cast { expr, .. } => lemma_replace_column_free(*expr, ectx),
        SpecExpr::Between { expr, low, high, .. } => {
            lemma_replace_column_free(*expr, ectx);
            lemma_replace_column_free(*low, ectx);
            lemma_replace_column_free(*high, ectx);
        },
        SpecExpr::ScalarFunction { args, .. } => lemma_replace_all_column_free(args, ectx),
        _ => {},
    }
}

proof fn lemma_replace_all_column_free(s: Seq<SpecExpr>, ectx: Map<(Option<Seq<char>>, Seq<char>), SpecExpr>)
    requires
        all_column_free(s),
    ensures
        replace_seq(s, ectx) == Ok::<Seq<SpecExpr>, SpecRuleError>(s),
    decreases s,
{
    if s.len() > 0 {
        lemma_replace_all_column_free(s.drop_last(), ectx);
        lemma_replace_column_free(s.last(), ectx);
        assert(s.drop_last().push(s.last()) =~= s);
    } else {
        assert(s =~= Seq::<SpecExpr>::empty());
    }
}

} // verus!
