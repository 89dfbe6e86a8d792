//! Instantiating templates from a matcher's bindings.
use vstd::prelude::*;
use crate::matcher::error::{view_result, RuleError, SpecRuleError};
use crate::matcher::default::{lemma_exprs_size, lemma_first_index_found, lemma_first_index_none, DefaultMatcher};
use crate::matcher::default::complete_filter_of;
use crate::matcher::maps::{funmap_find, srcmap_find, ColumnMap, EvalMap};
use crate::matcher::refs::is_correlated;
use crate::text::{push_debug_string, push_decimal};
use crate::ast::relational::check_unique_fields;
use crate::matcher::semantics::{
    add_to_eval, collect_context, eval_context, expr_size, exprs_size, instantiate_expr, instantiate_outputs,
    instantiate_pattern, invalid, join_schema, key_text, mark_field, min_len, nullable_all, output_position,
    replace_arms, replace_columns, replace_opt, replace_seq, replace_sorts, single_qualifier, sort_by_output,
    with_position, with_positions_from, is_column, first_index_where, Context, EvalKey, SpecMatcher,
    instantiate, instantiate_plan, plan_label, single_predicate,
};
use crate::naming::{output_fields_of, qualified_name_of, schema_of};
use crate::debug_text::expr_debug_of;
use crate::plan::{
    clone_expr, clone_fields, clone_opt_string, clone_subquery, eq_opt_string, lemma_view_arms, view_columns,
    view_fields, Callee, Column, JoinType, QualifiedField, SpecColumn, SpecQualifiedField, clone_plan, columns_of,
    lemma_view_plans, view_keys, view_plans, JoinKey, Plan, SpecJoinKey, SpecPlan, lemma_view_exprs, lemma_view_sorts, opt_str, view_arm, view_arms, view_expr,
    view_exprs, view_like, view_opt_expr, view_params, view_sort, view_sorts, view_subquery, AggregateParams, Expr,
    FunctionRef, LikeExpr, SortExpr, SpecExpr, SpecSortExpr, SpecWhenThen, WhenThen,
};
use crate::text::owned;

verus! {

broadcast use vstd::std_specs::vec::group_vec_axioms;

/// Debug rendering of an evaluation key, e.g. `(Some("emp"), "deptno")`.
pub fn key_text_of(relation: &Option<String>, name: &String) -> (r: String)
    ensures
        r@ == key_text((opt_str(*relation), name@)),
{
    let mut s = owned("(");
    match relation {
        Some(rel) => {
            s.append("Some(");
            push_debug_string(&mut s, rel.as_str());
            s.append(")");
        },
        None => {
            s.append("None");
        },
    }
    s.append(", ");
    push_debug_string(&mut s, name.as_str());
    s.append(")");
    proof {
        reveal_strlit("(");
        reveal_strlit("Some(");
        reveal_strlit(")");
        reveal_strlit("None");
        reveal_strlit(", ");
    }
    assert(s@ =~= key_text((opt_str(*relation), name@)));
    s
}

pub fn invalid_pattern(reason: &str) -> (r: RuleError)
    ensures
        r@ == invalid(reason@),
{
    RuleError::InvalidPattern { reason: owned(reason) }
}

pub open spec fn view_opt_result(r: Result<Option<Box<Expr>>, RuleError>) -> Result<Option<Box<SpecExpr>>, SpecRuleError> {
    match r {
        Ok(o) => Ok(view_opt_expr(o)),
        Err(e) => Err(e@),
    }
}

pub open spec fn view_exprs_result(r: Result<Vec<Expr>, RuleError>) -> Result<Seq<SpecExpr>, SpecRuleError> {
    match r {
        Ok(v) => Ok(view_exprs(v@)),
        Err(e) => Err(e@),
    }
}

pub open spec fn view_sorts_result(r: Result<Vec<SortExpr>, RuleError>) -> Result<Seq<SpecSortExpr>, SpecRuleError> {
    match r {
        Ok(v) => Ok(view_sorts(v@)),
        Err(e) => Err(e@),
    }
}

pub open spec fn view_arms_result(r: Result<Vec<WhenThen>, RuleError>) -> Result<Seq<SpecWhenThen>, SpecRuleError> {
    match r {
        Ok(v) => Ok(view_arms(v@)),
        Err(e) => Err(e@),
    }
}

/// Once a prefix fails, the whole list fails the same way.
proof fn lemma_replace_seq_err(s: Seq<SpecExpr>, ectx: Map<EvalKey, SpecExpr>, k: int)
    requires
        0 <= k <= s.len(),
        replace_seq(s.take(k), ectx) is Err,
    ensures
        replace_seq(s, ectx) == replace_seq(s.take(k), ectx),
    decreases s.len() - k,
{
    if k < s.len() {
        assert(s.take(k + 1).drop_last() =~= s.take(k));
        lemma_replace_seq_err(s, ectx, k + 1);
    } else {
        assert(s.take(k) =~= s);
    }
}

proof fn lemma_replace_sorts_err(s: Seq<SpecSortExpr>, ectx: Map<EvalKey, SpecExpr>, k: int)
    requires
        0 <= k <= s.len(),
        replace_sorts(s.take(k), ectx) is Err,
    ensures
        replace_sorts(s, ectx) == replace_sorts(s.take(k), ectx),
    decreases s.len() - k,
{
    if k < s.len() {
        assert(s.take(k + 1).drop_last() =~= s.take(k));
        lemma_replace_sorts_err(s, ectx, k + 1);
    } else {
        assert(s.take(k) =~= s);
    }
}

proof fn lemma_replace_arms_err(s: Seq<SpecWhenThen>, ectx: Map<EvalKey, SpecExpr>, k: int)
    requires
        0 <= k <= s.len(),
        replace_arms(s.take(k), ectx) is Err,
    ensures
        replace_arms(s, ectx) == replace_arms(s.take(k), ectx),
    decreases s.len() - k,
{
    if k < s.len() {
        assert(s.take(k + 1).drop_last() =~= s.take(k));
        lemma_replace_arms_err(s, ectx, k + 1);
    } else {
        assert(s.take(k) =~= s);
    }
}

proof fn lemma_replace_sorts_step(vs: Seq<SpecSortExpr>, ectx: Map<EvalKey, SpecExpr>, i: int, acc: Seq<SpecSortExpr>, y: SpecExpr)
    requires
        0 <= i < vs.len(),
        replace_sorts(vs.take(i), ectx) == Ok::<Seq<SpecSortExpr>, SpecRuleError>(acc),
        replace_columns(vs[i].expr, ectx) == Ok::<SpecExpr, SpecRuleError>(y),
    ensures
        replace_sorts(vs.take(i + 1), ectx) == Ok::<Seq<SpecSortExpr>, SpecRuleError>(
            acc.push(SpecSortExpr { expr: y, ..vs[i] }),
        ),
{
    assert(vs.take(i + 1).drop_last() =~= vs.take(i));
    assert(vs.take(i + 1).last() == vs[i]);
}

proof fn lemma_replace_sorts_fail(vs: Seq<SpecSortExpr>, ectx: Map<EvalKey, SpecExpr>, i: int, acc: Seq<SpecSortExpr>, x: SpecRuleError)
    requires
        0 <= i < vs.len(),
        replace_sorts(vs.take(i), ectx) == Ok::<Seq<SpecSortExpr>, SpecRuleError>(acc),
        replace_columns(vs[i].expr, ectx) == Err::<SpecExpr, SpecRuleError>(x),
    ensures
        replace_sorts(vs, ectx) == Err::<Seq<SpecSortExpr>, SpecRuleError>(x),
{
    assert(vs.take(i + 1).drop_last() =~= vs.take(i));
    assert(vs.take(i + 1).last() == vs[i]);
    lemma_replace_sorts_err(vs, ectx, i + 1);
}

proof fn lemma_replace_arms_step(
    vs: Seq<SpecWhenThen>,
    ectx: Map<EvalKey, SpecExpr>,
    i: int,
    acc: Seq<SpecWhenThen>,
    c: SpecExpr,
    y: SpecExpr,
)
    requires
        0 <= i < vs.len(),
        replace_arms(vs.take(i), ectx) == Ok::<Seq<SpecWhenThen>, SpecRuleError>(acc),
        replace_columns(vs[i].condition, ectx) == Ok::<SpecExpr, SpecRuleError>(c),
        replace_columns(vs[i].result, ectx) == Ok::<SpecExpr, SpecRuleError>(y),
    ensures
        replace_arms(vs.take(i + 1), ectx) == Ok::<Seq<SpecWhenThen>, SpecRuleError>(
            acc.push(SpecWhenThen { condition: c, result: y }),
        ),
{
    assert(vs.take(i + 1).drop_last() =~= vs.take(i));
    assert(vs.take(i + 1).last() == vs[i]);
}

proof fn lemma_replace_arms_fail(vs: Seq<SpecWhenThen>, ectx: Map<EvalKey, SpecExpr>, i: int, acc: Seq<SpecWhenThen>, x: SpecRuleError)
    requires
        0 <= i < vs.len(),
        replace_arms(vs.take(i), ectx) == Ok::<Seq<SpecWhenThen>, SpecRuleError>(acc),
        replace_columns(vs[i].condition, ectx) == Err::<SpecExpr, SpecRuleError>(x) || (
            replace_columns(vs[i].condition, ectx) is Ok && replace_columns(vs[i].result, ectx) == Err::<SpecExpr, SpecRuleError>(x)
        ),
    ensures
        replace_arms(vs, ectx) == Err::<Seq<SpecWhenThen>, SpecRuleError>(x),
{
    assert(vs.take(i + 1).drop_last() =~= vs.take(i));
    assert(vs.take(i + 1).last() == vs[i]);
    lemma_replace_arms_err(vs, ectx, i + 1);
}

/// Replaces the columns of a bound expression by the instantiated arguments they name.
pub fn replace_expr(e: &Expr, ectx: &EvalMap) -> (r: Result<Expr, RuleError>)
    ensures
        view_result(r) == replace_columns(e@, ectx@),
    decreases e, 1nat,
{
    match e {
        Expr::Column(c) => match ectx.get(&c.relation, &c.name) {
            Some(v) => Ok(crate::plan::clone_expr(v)),
            None => Err(RuleError::UnboundSymbol { symbol: key_text_of(&c.relation, &c.name) }),
        },
        Expr::Binary { left, op, right } => {
            let l = match replace_expr(left, ectx) {
                Err(x) => {
                    return Err(x);
                },
                Ok(v) => v,
            };
            let r = match replace_expr(right, ectx) {
                Err(x) => {
                    return Err(x);
                },
                Ok(v) => v,
            };
            Ok(Expr::Binary { left: Box::new(l), op: op.clone(), right: Box::new(r) })
        },
        Expr::ScalarFunction { func, args } => match replace_in_seq(args, ectx) {
            Err(x) => Err(x),
            Ok(a) => Ok(Expr::ScalarFunction { func: func.clone(), args: a }),
        },
        Expr::AggregateFunction { .. } => replace_in_aggregate(e, ectx),
        Expr::Literal(l) => Ok(Expr::Literal(l.clone())),
        Expr::Unary(op, inner) => match replace_expr(inner, ectx) {
            Err(x) => Err(x),
            Ok(i) => Ok(Expr::Unary(op.clone(), Box::new(i))),
        },
        Expr::Between { .. } => replace_in_between(e, ectx),
        Expr::Case { .. } => replace_in_case(e, ectx),
        Expr::Cast { expr, data_type, try_cast } => match replace_expr(expr, ectx) {
            Err(x) => Err(x),
            Ok(i) => Ok(Expr::Cast { expr: Box::new(i), data_type: data_type.clone(), try_cast: *try_cast }),
        },
        Expr::Alias { expr, relation, name } => match replace_expr(expr, ectx) {
            Err(x) => Err(x),
            Ok(i) => Ok(Expr::Alias { expr: Box::new(i), relation: crate::plan::clone_opt_string(relation), name: name.clone() }),
        },
        Expr::InList { expr, list, negated } => {
            let i = match replace_expr(expr, ectx) {
                Err(x) => {
                    return Err(x);
                },
                Ok(v) => v,
            };
            match replace_in_seq(list, ectx) {
                Err(x) => Err(x),
                Ok(l) => Ok(Expr::InList { expr: Box::new(i), list: l, negated: *negated }),
            }
        },
        Expr::Like(_) => replace_in_like(e, ectx),
        Expr::SimilarTo(_) => Err(invalid_pattern("SIMILAR TO expressions not yet supported in column replacement")),
        Expr::ScalarSubquery(q) => Ok(Expr::ScalarSubquery(clone_subquery(q))),
        Expr::InSubquery { expr, subquery, negated } => match replace_expr(expr, ectx) {
            Err(x) => Err(x),
            Ok(i) => Ok(Expr::InSubquery { expr: Box::new(i), subquery: clone_subquery(subquery), negated: *negated }),
        },
        Expr::Exists { subquery, negated } => Ok(Expr::Exists { subquery: clone_subquery(subquery), negated: *negated }),
        _ => {
            let mut reason = owned("Expression type ");
            let n = expr_debug_of(e);
            reason.append(n.as_str());
            reason.append(" not yet supported in column replacement");
            proof {
                reveal_strlit("Expression type ");
                reveal_strlit(" not yet supported in column replacement");
            }
            Err(RuleError::InvalidPattern { reason })
        },
    }
}

#[verifier::rlimit(50)]
fn replace_in_aggregate(e: &Expr, ectx: &EvalMap) -> (r: Result<Expr, RuleError>)
    requires
        e@ is AggregateFunction,
    ensures
        view_result(r) == replace_columns(e@, ectx@),
    decreases e, 0nat,
{
    match e {
        Expr::AggregateFunction { func, params } => {
            let ghost sp = view_params(*params);
            assert(e@ == SpecExpr::AggregateFunction { func: func@, params: sp });
            let a = match replace_in_seq(&params.args, ectx) {
                Err(x) => {
                    return Err(x);
                },
                Ok(v) => v,
            };
            let ghost av = view_exprs(a@);
            let f = match replace_in_opt(&params.filter, ectx) {
                Err(x) => {
                    return Err(x);
                },
                Ok(v) => v,
            };
            let ghost fv = view_opt_expr(f);
            let o = match replace_in_sorts(&params.order_by, ectx) {
                Err(x) => {
                    return Err(x);
                },
                Ok(v) => v,
            };
            let ghost ov = view_sorts(o@);
            let np = AggregateParams {
                args: a,
                distinct: params.distinct,
                filter: f,
                order_by: o,
                null_treatment: crate::plan::clone_opt_string(&params.null_treatment),
            };
            assert(view_params(np) == crate::plan::SpecAggregateParams { args: av, filter: fv, order_by: ov, ..sp });
            Ok(Expr::AggregateFunction { func: func.clone(), params: np })
        },
        _ => Err(invalid_pattern("")),
    }
}

fn replace_in_between(e: &Expr, ectx: &EvalMap) -> (r: Result<Expr, RuleError>)
    requires
        e@ is Between,
    ensures
        view_result(r) == replace_columns(e@, ectx@),
    decreases e, 0nat,
{
    match e {
        Expr::Between { expr, negated, low, high } => {
            let e1 = match replace_expr(expr, ectx) {
                Err(x) => {
                    return Err(x);
                },
                Ok(v) => v,
            };
            let l = match replace_expr(low, ectx) {
                Err(x) => {
                    return Err(x);
                },
                Ok(v) => v,
            };
            let h = match replace_expr(high, ectx) {
                Err(x) => {
                    return Err(x);
                },
                Ok(v) => v,
            };
            Ok(Expr::Between { expr: Box::new(e1), negated: *negated, low: Box::new(l), high: Box::new(h) })
        },
        _ => Err(invalid_pattern("")),
    }
}

fn replace_in_case(e: &Expr, ectx: &EvalMap) -> (r: Result<Expr, RuleError>)
    requires
        e@ is Case,
    ensures
        view_result(r) == replace_columns(e@, ectx@),
    decreases e, 0nat,
{
    match e {
        Expr::Case { operand, arms, else_expr } => {
            let o = match replace_in_opt(operand, ectx) {
                Err(x) => {
                    return Err(x);
                },
                Ok(v) => v,
            };
            let a = match replace_in_arms(arms, ectx) {
                Err(x) => {
                    return Err(x);
                },
                Ok(v) => v,
            };
            let el = match replace_in_opt(else_expr, ectx) {
                Err(x) => {
                    return Err(x);
                },
                Ok(v) => v,
            };
            Ok(Expr::Case { operand: o, arms: a, else_expr: el })
        },
        _ => Err(invalid_pattern("")),
    }
}

fn replace_in_like(e: &Expr, ectx: &EvalMap) -> (r: Result<Expr, RuleError>)
    requires
        e@ is Like,
    ensures
        view_result(r) == replace_columns(e@, ectx@),
    decreases e, 0nat,
{
    match e {
        Expr::Like(l) => {
            assert(e@ == SpecExpr::Like(view_like(*l)));
            let i = match replace_expr(&l.expr, ectx) {
                Err(x) => {
                    return Err(x);
                },
                Ok(v) => v,
            };
            let pt = match replace_expr(&l.pattern, ectx) {
                Err(x) => {
                    return Err(x);
                },
                Ok(v) => v,
            };
            if l.escape_char.is_some() {
                Err(invalid_pattern("LIKE with escape character not yet supported in column replacement"))
            } else {
                let r = LikeExpr {
                    negated: l.negated,
                    expr: Box::new(i),
                    pattern: Box::new(pt),
                    escape_char: l.escape_char,
                    case_insensitive: l.case_insensitive,
                };
                assert(view_like(r) == crate::plan::SpecLikeExpr {
                    expr: Box::new(i@),
                    pattern: Box::new(pt@),
                    ..view_like(*l)
                });
                Ok(Expr::Like(r))
            }
        },
        _ => Err(invalid_pattern("")),
    }
}

fn replace_in_opt(o: &Option<Box<Expr>>, ectx: &EvalMap) -> (r: Result<Option<Box<Expr>>, RuleError>)
    ensures
        view_opt_result(r) == replace_opt(view_opt_expr(*o), ectx@),
    decreases o, 1nat,
{
    match o {
        None => Ok(None),
        Some(b) => match replace_expr(b, ectx) {
            Err(x) => Err(x),
            Ok(x) => Ok(Some(Box::new(x))),
        },
    }
}

#[verifier::loop_isolation(false)]
fn replace_in_seq(s: &Vec<Expr>, ectx: &EvalMap) -> (r: Result<Vec<Expr>, RuleError>)
    ensures
        view_exprs_result(r) == replace_seq(view_exprs(s@), ectx@),
    decreases s, 1nat,
{
    let ghost vs = view_exprs(s@);
    proof { lemma_view_exprs(s@); }
    let mut out: Vec<Expr> = Vec::new();
    let mut i: usize = 0;
    assert(vs.take(0) =~= Seq::<SpecExpr>::empty());
    while i < s.len()
        invariant
            i <= s.len(),
            replace_seq(vs.take(i as int), ectx@) == Ok::<Seq<SpecExpr>, SpecRuleError>(view_exprs(out@)),
        decreases s.len() - i,
    {
        proof {
            assert(decreases_to!(s => s[i as int]));
            assert(vs.take(i + 1).drop_last() =~= vs.take(i as int));
            assert(vs.take(i + 1).last() == view_expr(s@[i as int]));
        }
        match replace_expr(&s[i], ectx) {
            Err(x) => {
                proof { lemma_replace_seq_err(vs, ectx@, i + 1); }
                return Err(x);
            },
            Ok(y) => {
                let ghost prev = out@;
                out.push(y);
                assert(out@.drop_last() =~= prev);
            },
        }
        i += 1;
    }
    assert(vs.take(vs.len() as int) =~= vs);
    Ok(out)
}

#[verifier::loop_isolation(false)]
#[verifier::rlimit(50)]
fn replace_in_sorts(s: &Vec<SortExpr>, ectx: &EvalMap) -> (r: Result<Vec<SortExpr>, RuleError>)
    ensures
        view_sorts_result(r) == replace_sorts(view_sorts(s@), ectx@),
    decreases s, 1nat,
{
    let ghost vs = view_sorts(s@);
    proof { lemma_view_sorts(s@); }
    let mut out: Vec<SortExpr> = Vec::new();
    let mut i: usize = 0;
    assert(vs.take(0) =~= Seq::<SpecSortExpr>::empty());
    while i < s.len()
        invariant
            i <= s.len(),
            replace_sorts(vs.take(i as int), ectx@) == Ok::<Seq<SpecSortExpr>, SpecRuleError>(view_sorts(out@)),
        decreases s.len() - i,
    {
        proof { assert(decreases_to!(s => s[i as int])); }
        match replace_expr(&s[i].expr, ectx) {
            Err(x) => {
                proof { lemma_replace_sorts_fail(vs, ectx@, i as int, view_sorts(out@), x@); }
                return Err(x);
            },
            Ok(y) => {
                proof { lemma_replace_sorts_step(vs, ectx@, i as int, view_sorts(out@), y@); }
                let ghost prev = out@;
                let ghost yv = y@;
                let w = SortExpr { expr: y, asc: s[i].asc, nulls_first: s[i].nulls_first };
                assert(view_sort(w) == SpecSortExpr { expr: yv, ..vs[i as int] });
                out.push(w);
                assert(out@.drop_last() =~= prev);
                assert(view_sorts(out@) == view_sorts(prev).push(SpecSortExpr { expr: yv, ..vs[i as int] }));
            },
        }
        i += 1;
    }
    assert(vs.take(vs.len() as int) =~= vs);
    Ok(out)
}

#[verifier::loop_isolation(false)]
fn replace_in_arms(s: &Vec<WhenThen>, ectx: &EvalMap) -> (r: Result<Vec<WhenThen>, RuleError>)
    ensures
        view_arms_result(r) == replace_arms(view_arms(s@), ectx@),
    decreases s, 1nat,
{
    let ghost vs = view_arms(s@);
    proof { lemma_view_arms(s@); }
    let mut out: Vec<WhenThen> = Vec::new();
    let mut i: usize = 0;
    assert(vs.take(0) =~= Seq::<SpecWhenThen>::empty());
    while i < s.len()
        invariant
            i <= s.len(),
            replace_arms(vs.take(i as int), ectx@) == Ok::<Seq<SpecWhenThen>, SpecRuleError>(view_arms(out@)),
        decreases s.len() - i,
    {
        proof { assert(decreases_to!(s => s[i as int])); }
        let c = match replace_expr(&s[i].condition, ectx) {
            Err(x) => {
                proof { lemma_replace_arms_fail(vs, ectx@, i as int, view_arms(out@), x@); }
                return Err(x);
            },
            Ok(y) => y,
        };
        match replace_expr(&s[i].result, ectx) {
            Err(x) => {
                proof { lemma_replace_arms_fail(vs, ectx@, i as int, view_arms(out@), x@); }
                return Err(x);
            },
            Ok(y) => {
                proof { lemma_replace_arms_step(vs, ectx@, i as int, view_arms(out@), c@, y@); }
                let ghost prev = out@;
                let ghost cv = c@;
                let ghost yv = y@;
                let w = WhenThen { condition: c, result: y };
                assert(view_arm(w) == SpecWhenThen { condition: cv, result: yv });
                out.push(w);
                assert(out@.drop_last() =~= prev);
                assert(view_arms(out@) == view_arms(prev).push(SpecWhenThen { condition: cv, result: yv }));
            },
        }
        i += 1;
    }
    assert(vs.take(vs.len() as int) =~= vs);
    Ok(out)
}

// ---------------------------------------------------------------------------
// Template expressions
// ---------------------------------------------------------------------------

pub open spec fn view_pairs(v: Seq<(Column, Expr)>) -> Seq<(SpecColumn, SpecExpr)> {
    v.map_values(|p: (Column, Expr)| (p.0@, p.1@))
}

pub open spec fn view_pairs_result(r: Result<Vec<(Column, Expr)>, RuleError>) -> Result<
    Seq<(SpecColumn, SpecExpr)>,
    SpecRuleError,
> {
    match r {
        Ok(v) => Ok(view_pairs(v@)),
        Err(e) => Err(e@),
    }
}

/// Adds instantiated arguments to an evaluation context, each under its qualified name.
fn add_all(ectx: &mut EvalMap, es: &Vec<Expr>)
    ensures
        final(ectx)@ == add_to_eval(old(ectx)@, view_exprs(es@)),
{
    let ghost start = ectx@;
    let ghost ve = view_exprs(es@);
    proof { lemma_view_exprs(es@); }
    let mut i: usize = 0;
    assert(ve.take(0) =~= Seq::<SpecExpr>::empty());
    while i < es.len()
        invariant
            i <= es@.len(),
            ve == view_exprs(es@),
            ve.len() == es@.len(),
            forall|k: int| 0 <= k < es@.len() ==> #[trigger] ve[k] == view_expr(es@[k]),
            ectx@ == add_to_eval(start, ve.take(i as int)),
        decreases es.len() - i,
    {
        let (rel, name) = qualified_name_of(&es[i]);
        ectx.insert(rel, name, clone_expr(&es[i]));
        proof {
            let t = ve.take(i + 1);
            assert(t.drop_last() =~= ve.take(i as int));
            assert(t.last() == ve[i as int]);
        }
        i += 1;
    }
    assert(ve.take(ve.len() as int) =~= ve);
}

impl DefaultMatcher {
    /// Instantiates a pattern call: the expressions bound to the pattern, with their
    /// columns replaced by the instantiated arguments.
    fn instantiate_call(&self, name: &String, args: &Vec<Expr>, ctx: &ColumnMap) -> (r: Result<Vec<Expr>, RuleError>)
        ensures
            view_exprs_result(r) == instantiate_pattern(self@, name@, view_exprs(args@), ctx@),
        decreases exprs_size(view_exprs(args@)) + 1, 1nat, 0nat,
    {
        let ghost sa = view_exprs(args@);
        proof {
            lemma_view_exprs(args@);
            lemma_exprs_size(sa);
        }
        let mut ectx = EvalMap::new();
        let mut i: usize = 0;
        assert(sa.skip(0) =~= sa);
        while i < args.len()
            invariant
                i <= args@.len(),
                sa == view_exprs(args@),
                sa.len() == args@.len(),
                forall|k: int| 0 <= k < args@.len() ==> #[trigger] sa[k] == view_expr(args@[k]),
                forall|k: int| 0 <= k < sa.len() ==> expr_size(#[trigger] sa[k]) <= exprs_size(sa),
                eval_context(self@, sa, ctx@, Map::empty()) == eval_context(self@, sa.skip(i as int), ctx@, ectx@),
            decreases args.len() - i,
        {
            assert(sa.skip(i as int)[0] == sa[i as int]);
            assert(sa.skip(i as int).drop_first() =~= sa.skip(i + 1));
            let es = match self.instantiate_expr(&args[i], ctx) {
                Err(x) => {
                    return Err(x);
                },
                Ok(v) => v,
            };
            add_all(&mut ectx, &es);
            i += 1;
        }
        assert(sa.skip(sa.len() as int) =~= Seq::<SpecExpr>::empty());
        match funmap_find(&self.functions, name) {
            None => Err(RuleError::UnboundSymbol { symbol: name.clone() }),
            Some(k) => replace_in_seq(&self.functions[k].value, &ectx),
        }
    }

    /// Instantiates a template expression; one template expression can stand for several
    /// concrete expressions.
    pub fn instantiate_expr(&self, t: &Expr, ctx: &ColumnMap) -> (r: Result<Vec<Expr>, RuleError>)
        ensures
            view_exprs_result(r) == instantiate_expr(self@, t@, ctx@),
        decreases expr_size(t@), 2nat, 0nat,
    {
        match t {
            Expr::ScalarFunction { func, args } => match &func.callee {
                Callee::Pattern(_) => self.instantiate_call(&func.name, args, ctx),
                _ => {
                    let mut reason = owned("Concrete function '");
                    reason.append(func.name.as_str());
                    reason.append("' found in template - only pattern functions are allowed");
                    proof {
                        reveal_strlit("Concrete function '");
                        reveal_strlit("' found in template - only pattern functions are allowed");
                    }
                    Err(RuleError::InvalidPattern { reason })
                },
            },
            Expr::AggregateFunction { func, params } => {
                assert(t@ matches SpecExpr::AggregateFunction { params: p, .. } && p == view_params(*params));
                match &func.callee {
                    Callee::Pattern(_) => self.instantiate_call(&func.name, &params.args, ctx),
                    _ => {
                        let mut reason = owned("Concrete aggregate function '");
                        reason.append(func.name.as_str());
                        reason.append("' found in template - only pattern functions are allowed");
                        proof {
                            reveal_strlit("Concrete aggregate function '");
                            reveal_strlit("' found in template - only pattern functions are allowed");
                        }
                        Err(RuleError::InvalidPattern { reason })
                    },
                }
            },
            Expr::Binary { left, op, right } => {
                assert(expr_size(left@) < expr_size(t@));
                assert(expr_size(right@) < expr_size(t@));
                let ls = match self.instantiate_expr(left, ctx) {
                    Err(x) => {
                        return Err(x);
                    },
                    Ok(v) => v,
                };
                let rs = match self.instantiate_expr(right, ctx) {
                    Err(x) => {
                        return Err(x);
                    },
                    Ok(v) => v,
                };
                proof {
                    lemma_view_exprs(ls@);
                    lemma_view_exprs(rs@);
                }
                if ls.len() != 1 || rs.len() != 1 {
                    Err(invalid_pattern("Binary expression operands must resolve to single expressions"))
                } else {
                    let b = Expr::Binary {
                        left: Box::new(clone_expr(&ls[0])),
                        op: op.clone(),
                        right: Box::new(clone_expr(&rs[0])),
                    };
                    let mut v: Vec<Expr> = Vec::new();
                    v.push(b);
                    proof { lemma_view_exprs(v@); }
                    assert(view_exprs(v@) =~= seq![b@]);
                    Ok(v)
                }
            },
            Expr::Column(c) => match ctx.get(c) {
                None => Err(RuleError::UnboundSymbol { symbol: c.name.clone() }),
                Some(cols) => {
                    let mut v: Vec<Expr> = Vec::new();
                    let mut i: usize = 0;
                    while i < cols.len()
                        invariant
                            i <= cols@.len(),
                            v@.len() == i,
                            forall|k: int| 0 <= k < i ==> view_expr(#[trigger] v@[k]) == SpecExpr::Column(cols@[k]@),
                        decreases cols.len() - i,
                    {
                        v.push(Expr::Column(cols[i].clone()));
                        i += 1;
                    }
                    proof { lemma_view_exprs(v@); }
                    assert(view_exprs(v@) =~= view_columns(cols@).map_values(|x: SpecColumn| SpecExpr::Column(x)));
                    Ok(v)
                },
            },
            Expr::Literal(_) => {
                let mut v: Vec<Expr> = Vec::new();
                v.push(clone_expr(t));
                proof { lemma_view_exprs(v@); }
                assert(view_exprs(v@) =~= seq![t@]);
                Ok(v)
            },
            Expr::Alias { expr, .. } => {
                assert(expr_size(expr@) < expr_size(t@));
                self.instantiate_expr(expr, ctx)
            },
            _ => {
                let mut reason = owned("Unsupported expression type in template: ");
                let n = expr_debug_of(t);
                reason.append(n.as_str());
                proof { reveal_strlit("Unsupported expression type in template: "); }
                Err(RuleError::InvalidPattern { reason })
            },
        }
    }
}

// ---------------------------------------------------------------------------
// Output lists, their order and their contexts
// ---------------------------------------------------------------------------

/// A list of templates is instantiated only as far as there are output columns.
proof fn lemma_outputs_truncate(m: SpecMatcher, ts: Seq<SpecExpr>, cols: Seq<SpecColumn>, ctx: Context)
    ensures
        instantiate_outputs(m, ts, cols, ctx) == instantiate_outputs(
            m,
            ts.take(min_len(ts.len(), cols.len()) as int),
            cols,
            ctx,
        ),
{
    if cols.len() < ts.len() {
    } else {
        assert(ts.take(ts.len() as int) =~= ts);
    }
}

proof fn lemma_outputs_err(m: SpecMatcher, u: Seq<SpecExpr>, cols: Seq<SpecColumn>, ctx: Context, k: int)
    requires
        0 <= k <= u.len(),
        u.len() <= cols.len(),
        instantiate_outputs(m, u.take(k), cols, ctx) is Err,
    ensures
        instantiate_outputs(m, u, cols, ctx) == instantiate_outputs(m, u.take(k), cols, ctx),
    decreases u.len() - k,
{
    if k < u.len() {
        assert(u.take(k + 1).drop_last() =~= u.take(k));
        lemma_outputs_err(m, u, cols, ctx, k + 1);
    } else {
        assert(u.take(k) =~= u);
    }
}

/// A list of keys is collected only as far as there are values.
proof fn lemma_collect_truncate(keys: Seq<SpecColumn>, vals: Seq<SpecColumn>)
    ensures
        collect_context(keys, vals) == collect_context(keys.take(min_len(keys.len(), vals.len()) as int), vals),
{
    if vals.len() < keys.len() {
    } else {
        assert(keys.take(keys.len() as int) =~= keys);
    }
}

pub open spec fn opt_index(k: Option<usize>) -> Option<int> {
    match k {
        Some(i) => Some(i as int),
        None => None,
    }
}

/// The position, in the output columns, of the column that an expression is.
fn output_position_of(e: &Expr, out: &Vec<Column>) -> (r: Option<usize>)
    ensures
        opt_index(r) == output_position(e@, view_columns(out@)),
{
    match e {
        Expr::Column(c) => {
            let ghost vo = view_columns(out@);
            let ghost pred = is_column(c@);
            let mut k: usize = 0;
            while k < out.len()
                invariant
                    k <= out@.len(),
                    vo == view_columns(out@),
                    pred == is_column(c@),
                    e@ == SpecExpr::Column(c@),
                    forall|j: int| 0 <= j < k ==> !pred(#[trigger] vo[j]),
                decreases out.len() - k,
            {
                if out[k].same_as(c) {
                    proof { lemma_first_index_found(vo, pred, k as int); }
                    return Some(k);
                }
                k += 1;
            }
            proof { lemma_first_index_none(vo, pred); }
            None
        },
        _ => None,
    }
}

fn clone_pair(p: &(Column, Expr)) -> (r: (Column, Expr))
    ensures
        r.0@ == p.0@,
        r.1@ == p.1@,
{
    (p.0.clone(), clone_expr(&p.1))
}

/// The entries whose expression has the given output position, in order.
fn with_position_of(s: &Vec<(Column, Expr)>, out: &Vec<Column>, k: Option<usize>) -> (r: Vec<(Column, Expr)>)
    ensures
        view_pairs(r@) == with_position(view_pairs(s@), view_columns(out@), opt_index(k)),
{
    let ghost vs = view_pairs(s@);
    let mut r: Vec<(Column, Expr)> = Vec::new();
    let mut i: usize = 0;
    assert(vs.take(0) =~= Seq::<(SpecColumn, SpecExpr)>::empty());
    assert(view_pairs(r@) =~= Seq::<(SpecColumn, SpecExpr)>::empty());
    while i < s.len()
        invariant
            i <= s@.len(),
            vs == view_pairs(s@),
            view_pairs(r@) == with_position(vs.take(i as int), view_columns(out@), opt_index(k)),
        decreases s.len() - i,
    {
        let pos = output_position_of(&s[i].1, out);
        proof {
            let t = vs.take(i + 1);
            assert(t.drop_last() =~= vs.take(i as int));
            assert(t.last() == vs[i as int]);
        }
        let same = match (pos, k) {
            (Some(a), Some(b)) => a == b,
            (None, None) => true,
            _ => false,
        };
        if same {
            let ghost prev = r@;
            r.push(clone_pair(&s[i]));
            assert(view_pairs(r@) =~= view_pairs(prev).push(vs[i as int]));
        }
        i += 1;
    }
    assert(vs.take(vs.len() as int) =~= vs);
    r
}

/// A stable sort by output position: entries that are no output column first, then the
/// output columns in the order of the output.
fn sort_by_output_of(s: &Vec<(Column, Expr)>, out: &Vec<Column>) -> (r: Vec<(Column, Expr)>)
    ensures
        view_pairs(r@) == sort_by_output(view_pairs(s@), view_columns(out@)),
{
    let ghost vs = view_pairs(s@);
    let ghost vo = view_columns(out@);
    let mut r = with_position_of(s, out, None);
    let mut k: usize = 0;
    while k < out.len()
        invariant
            k <= out@.len(),
            vs == view_pairs(s@),
            vo == view_columns(out@),
            sort_by_output(vs, vo) == view_pairs(r@) + with_positions_from(vs, vo, k as int),
        decreases out.len() - k,
    {
        let part = with_position_of(s, out, Some(k));
        let ghost before = view_pairs(r@);
        let mut j: usize = 0;
        while j < part.len()
            invariant
                j <= part@.len(),
                view_pairs(r@) == before + view_pairs(part@).take(j as int),
            decreases part.len() - j,
        {
            let ghost prev = r@;
            r.push(clone_pair(&part[j]));
            assert(view_pairs(r@) =~= view_pairs(prev).push(view_pairs(part@)[j as int]));
            assert(view_pairs(part@).take(j + 1) =~= view_pairs(part@).take(j as int).push(view_pairs(part@)[j as int]));
            assert(view_pairs(r@) =~= before + view_pairs(part@).take(j + 1));
            j += 1;
        }
        assert(view_pairs(part@).take(part@.len() as int) =~= view_pairs(part@));
        assert(before + with_positions_from(vs, vo, k as int) =~= (before + view_pairs(part@)) + with_positions_from(
            vs,
            vo,
            k + 1,
        ));
        k += 1;
    }
    assert(view_pairs(r@) + with_positions_from(vs, vo, out@.len() as int) =~= view_pairs(r@));
    r
}

/// A context built by appending each concrete column to the list of its template column.
fn collect_context_of(keys: &Vec<Column>, vals: &Vec<Column>) -> (r: ColumnMap)
    ensures
        r@ == collect_context(view_columns(keys@), view_columns(vals@)),
{
    let ghost vk = view_columns(keys@);
    let ghost vv = view_columns(vals@);
    let n = if keys.len() <= vals.len() { keys.len() } else { vals.len() };
    proof { lemma_collect_truncate(vk, vv); }
    let ghost u = vk.take(n as int);
    let mut ctx = ColumnMap::new();
    let mut i: usize = 0;
    assert(u.take(0) =~= Seq::<SpecColumn>::empty());
    while i < n
        invariant
            i <= n,
            n <= keys@.len(),
            n <= vals@.len(),
            vk == view_columns(keys@),
            vv == view_columns(vals@),
            u == vk.take(n as int),
            ctx@ == collect_context(u.take(i as int), vv),
        decreases n - i,
    {
        let mut v: Vec<Column> = match ctx.get(&keys[i]) {
            Some(existing) => crate::plan::clone_columns(existing),
            None => Vec::new(),
        };
        assert(view_columns(v@) == (if ctx@.contains_key(vk[i as int]) { ctx@[vk[i as int]] } else { Seq::<SpecColumn>::empty() }));
        let ghost prev = v@;
        v.push(vals[i].clone());
        assert(view_columns(v@) =~= view_columns(prev).push(vv[i as int]));
        let ghost prev_ctx = ctx@;
        proof {
            let t = u.take(i + 1);
            assert(t.drop_last() =~= u.take(i as int));
            assert(t.last() == vk[i as int]);
            assert(t.len() == i + 1);
            assert(collect_context(t, vv) == prev_ctx.insert(
                vk[i as int],
                (if prev_ctx.contains_key(vk[i as int]) { prev_ctx[vk[i as int]] } else { Seq::empty() }).push(vv[i as int]),
            ));
        }
        let ghost vview = view_columns(v@);
        ctx.insert(keys[i].clone(), v);
        assert(ctx@ == prev_ctx.insert(vk[i as int], vview));
        i += 1;
    }
    assert(u.take(n as int) =~= u);
    ctx
}

/// Every field of a schema made nullable.
fn nullable_all_of(v: &Vec<QualifiedField>) -> (r: Vec<QualifiedField>)
    ensures
        view_fields(r@) == nullable_all(view_fields(v@)),
{
    let mut r: Vec<QualifiedField> = Vec::new();
    let mut i: usize = 0;
    while i < v.len()
        invariant
            i <= v@.len(),
            r@.len() == i,
            forall|k: int| 0 <= k < i ==> (#[trigger] r@[k])@ == (SpecQualifiedField { nullable: true, ..v@[k]@ }),
        decreases v.len() - i,
    {
        let mut f = v[i].clone();
        f.nullable = true;
        r.push(f);
        i += 1;
    }
    assert(view_fields(r@) =~= nullable_all(view_fields(v@)));
    r
}

/// The qualifier shared by every qualified field of a schema, if there is exactly one.
fn single_qualifier_of(v: &Vec<QualifiedField>) -> (r: Option<String>)
    ensures
        opt_str(r) == single_qualifier(view_fields(v@)),
{
    let ghost vf = view_fields(v@);
    let ghost pred = |f: SpecQualifiedField| f.qualifier is Some;
    let mut i: usize = 0;
    while i < v.len()
        invariant
            i <= v@.len(),
            vf == view_fields(v@),
            pred == (|f: SpecQualifiedField| f.qualifier is Some),
            forall|k: int| 0 <= k < i ==> !pred(#[trigger] vf[k]),
        decreases v.len() - i,
    {
        if v[i].qualifier.is_some() {
            proof { lemma_first_index_found(vf, pred, i as int); }
            let mut j: usize = 0;
            while j < v.len()
                invariant
                    j <= v@.len(),
                    vf == view_fields(v@),
                    i < v@.len(),
                    first_index_where(vf, pred) == Some(i as int),
                    pred == (|f: SpecQualifiedField| f.qualifier is Some),
                    forall|k: int| 0 <= k < j && (#[trigger] vf[k]).qualifier is Some ==> vf[k].qualifier == vf[i as int].qualifier,
                decreases v.len() - j,
            {
                if v[j].qualifier.is_some() && !eq_opt_string(&v[j].qualifier, &v[i].qualifier) {
                    assert(vf[j as int].qualifier is Some && vf[j as int].qualifier != vf[i as int].qualifier);
                    assert(!(forall|jj: int|
                        0 <= jj < vf.len() && (#[trigger] vf[jj]).qualifier is Some ==> vf[jj].qualifier
                            == vf[i as int].qualifier));
                    return None;
                }
                j += 1;
            }
            return clone_opt_string(&v[i].qualifier);
        }
        i += 1;
    }
    proof { lemma_first_index_none(vf, pred); }
    None
}

fn append_fields(a: &mut Vec<QualifiedField>, b: &Vec<QualifiedField>)
    ensures
        view_fields(final(a)@) == view_fields(old(a)@) + view_fields(b@),
{
    let mut i: usize = 0;
    let ghost start = view_fields(a@);
    while i < b.len()
        invariant
            i <= b@.len(),
            view_fields(a@) == start + view_fields(b@).take(i as int),
        decreases b.len() - i,
    {
        let ghost prev = a@;
        a.push(b[i].clone());
        assert(view_fields(a@) =~= view_fields(prev).push(b@[i as int]@));
        assert(view_fields(b@).take(i + 1) =~= view_fields(b@).take(i as int).push(b@[i as int]@));
        assert(view_fields(a@) =~= start + view_fields(b@).take(i + 1));
        i += 1;
    }
    assert(view_fields(b@).take(b@.len() as int) =~= view_fields(b@));
}

/// The output schema of a join of two inputs.
pub fn join_schema_of(l: &Vec<QualifiedField>, r: &Vec<QualifiedField>, jt: &JoinType) -> (out: Vec<QualifiedField>)
    ensures
        view_fields(out@) == join_schema(view_fields(l@), view_fields(r@), *jt),
{
    match jt {
        JoinType::Inner => {
            let mut o = clone_fields(l);
            append_fields(&mut o, r);
            o
        },
        JoinType::Left => {
            let mut o = clone_fields(l);
            append_fields(&mut o, &nullable_all_of(r));
            o
        },
        JoinType::Right => {
            let mut o = nullable_all_of(l);
            append_fields(&mut o, r);
            o
        },
        JoinType::Full => {
            let mut o = nullable_all_of(l);
            append_fields(&mut o, &nullable_all_of(r));
            o
        },
        JoinType::LeftSemi | JoinType::LeftAnti => clone_fields(l),
        JoinType::RightSemi | JoinType::RightAnti => clone_fields(r),
        JoinType::LeftMark => {
            let mut o = clone_fields(l);
            let ghost prev = o@;
            o.push(mark_field_of(r));
            assert(view_fields(o@) =~= view_fields(prev).push(mark_field(view_fields(r@))));
            o
        },
        JoinType::RightMark => {
            let mut o = clone_fields(r);
            let ghost prev = o@;
            o.push(mark_field_of(l));
            assert(view_fields(o@) =~= view_fields(prev).push(mark_field(view_fields(l@))));
            o
        },
    }
}

/// The boolean `mark` column that a mark join adds.
fn mark_field_of(other: &Vec<QualifiedField>) -> (r: QualifiedField)
    ensures
        r@ == mark_field(view_fields(other@)),
{
    proof {
        reveal_strlit("mark");
        reveal_strlit("Boolean");
    }
    QualifiedField { qualifier: single_qualifier_of(other), name: owned("mark"), data_type: owned("Boolean"), nullable: false }
}

proof fn lemma_outputs_step(
    m: SpecMatcher,
    u: Seq<SpecExpr>,
    sc: Seq<SpecColumn>,
    ctx: Context,
    i: int,
    acc: Seq<(SpecColumn, SpecExpr)>,
    es: Seq<SpecExpr>,
)
    requires
        0 <= i < u.len(),
        u.len() <= sc.len(),
        instantiate_outputs(m, u.take(i), sc, ctx) == Ok::<Seq<(SpecColumn, SpecExpr)>, SpecRuleError>(acc),
        instantiate_expr(m, u[i], ctx) == Ok::<Seq<SpecExpr>, SpecRuleError>(es),
    ensures
        instantiate_outputs(m, u.take(i + 1), sc, ctx) == Ok::<Seq<(SpecColumn, SpecExpr)>, SpecRuleError>(
            acc + es.map_values(|e: SpecExpr| (sc[i], e)),
        ),
{
    let t = u.take(i + 1);
    assert(t.drop_last() =~= u.take(i));
    assert(t.last() == u[i]);
    assert(es.map_values(|e: SpecExpr| (sc[i], e)) =~= es.map_values(|e: SpecExpr| (sc[t.len() - 1], e)));
}

/// Appends each expression paired with the column `col`.
fn push_pairs(out: &mut Vec<(Column, Expr)>, col: &Column, es: &Vec<Expr>)
    ensures
        view_pairs(final(out)@) == view_pairs(old(out)@) + view_exprs(es@).map_values(|e: SpecExpr| (col@, e)),
{
    proof { lemma_view_exprs(es@); }
    let ghost before = view_pairs(out@);
    let mut j: usize = 0;
    while j < es.len()
        invariant
            j <= es@.len(),
            view_exprs(es@).len() == es@.len(),
            forall|k: int| 0 <= k < es@.len() ==> #[trigger] view_exprs(es@)[k] == view_expr(es@[k]),
            view_pairs(out@) == before + view_exprs(es@).take(j as int).map_values(|e: SpecExpr| (col@, e)),
        decreases es.len() - j,
    {
        let ghost prev = out@;
        out.push((col.clone(), clone_expr(&es[j])));
        assert(view_pairs(out@) =~= view_pairs(prev).push((col@, view_exprs(es@)[j as int])));
        assert(view_pairs(out@) =~= before + view_exprs(es@).take(j + 1).map_values(|e: SpecExpr| (col@, e)));
        j += 1;
    }
    assert(view_exprs(es@).take(es@.len() as int) =~= view_exprs(es@));
}

impl DefaultMatcher {
    /// Instantiates a list of template expressions, pairing each result with the template's
    /// output column.
    #[verifier::loop_isolation(false)]
    fn instantiate_outputs_of(&self, ts: &Vec<Expr>, cols: &Vec<Column>, ctx: &ColumnMap) -> (r: Result<
        Vec<(Column, Expr)>,
        RuleError,
    >)
        ensures
            view_pairs_result(r) == instantiate_outputs(self@, view_exprs(ts@), view_columns(cols@), ctx@),
    {
        let ghost st = view_exprs(ts@);
        let ghost sc = view_columns(cols@);
        proof {
            lemma_view_exprs(ts@);
            lemma_outputs_truncate(self@, st, sc, ctx@);
        }
        let n = if ts.len() <= cols.len() { ts.len() } else { cols.len() };
        let ghost u = st.take(n as int);
        let mut out: Vec<(Column, Expr)> = Vec::new();
        let mut i: usize = 0;
        assert(u.take(0) =~= Seq::<SpecExpr>::empty());
        assert(view_pairs(out@) =~= Seq::<(SpecColumn, SpecExpr)>::empty());
        while i < n
            invariant
                i <= n,
                instantiate_outputs(self@, u.take(i as int), sc, ctx@) == Ok::<Seq<(SpecColumn, SpecExpr)>, SpecRuleError>(
                    view_pairs(out@),
                ),
            decreases n - i,
        {
            proof {
                let t = u.take(i + 1);
                assert(t.drop_last() =~= u.take(i as int));
                assert(t.last() == st[i as int]);
            }
            let es = match self.instantiate_expr(&ts[i], ctx) {
                Err(x) => {
                    proof { lemma_outputs_err(self@, u, sc, ctx@, i + 1); }
                    assert(u.take(u.len() as int) =~= u);
                    return Err(x);
                },
                Ok(v) => v,
            };
            proof { lemma_outputs_step(self@, u, sc, ctx@, i as int, view_pairs(out@), view_exprs(es@)); }
            push_pairs(&mut out, &cols[i], &es);
            assert(view_exprs(es@).map_values(|e: SpecExpr| (cols@[i as int]@, e)) =~= view_exprs(es@).map_values(
                |e: SpecExpr| (sc[i as int], e),
            ));
            i += 1;
        }
        assert(u.take(n as int) =~= u);
        Ok(out)
    }
}

// ---------------------------------------------------------------------------
// Template plans
// ---------------------------------------------------------------------------

pub open spec fn view_plan_ctx_result(r: Result<(Plan, ColumnMap), RuleError>) -> Result<(SpecPlan, Context), SpecRuleError> {
    match r {
        Ok((p, c)) => Ok((p@, c@)),
        Err(e) => Err(e@),
    }
}

/// The predicate a filter template gives: the last of its instantiations.
fn single_predicate_of(es: &Vec<Expr>) -> (r: Result<Expr, RuleError>)
    ensures
        view_result(r) == single_predicate(view_exprs(es@)),
{
    proof { lemma_view_exprs(es@); }
    if es.len() == 0 {
        Err(invalid_pattern("Filter predicate must resolve to a single expression"))
    } else {
        Ok(clone_expr(&es[es.len() - 1]))
    }
}

/// The label under which an unsupported template node is reported.
pub fn plan_label_of(p: &Plan) -> (r: String)
    ensures
        r@ == plan_label(p@),
{
    proof {
        reveal_strlit("TableScan: ");
        reveal_strlit("EmptyRelation");
        reveal_strlit("Sort");
        reveal_strlit("Limit");
        reveal_strlit("Distinct");
        reveal_strlit("SubqueryAlias: ");
        reveal_strlit("Subquery");
        reveal_strlit("");
    }
    match p {
        Plan::TableScan { table_name, .. } => {
            let mut s = owned("TableScan: ");
            s.append(table_name.as_str());
            s
        },
        Plan::EmptyRelation { .. } => owned("EmptyRelation"),
        Plan::Sort { .. } => owned("Sort"),
        Plan::Limit { .. } => owned("Limit"),
        Plan::Distinct(_) => owned("Distinct"),
        Plan::SubqueryAlias { alias, .. } => {
            let mut s = owned("SubqueryAlias: ");
            s.append(alias.as_str());
            s
        },
        Plan::Subquery(_) => owned("Subquery"),
        Plan::Other { name, .. } => name.clone(),
        _ => owned(""),
    }
}

/// The output columns of a list of pairs.
fn pair_columns(s: &Vec<(Column, Expr)>) -> (r: Vec<Column>)
    ensures
        view_columns(r@) == view_pairs(s@).map_values(|q: (SpecColumn, SpecExpr)| q.0),
{
    let mut r: Vec<Column> = Vec::new();
    let mut i: usize = 0;
    while i < s.len()
        invariant
            i <= s@.len(),
            r@.len() == i,
            forall|k: int| 0 <= k < i ==> (#[trigger] r@[k])@ == s@[k].0@,
        decreases s.len() - i,
    {
        r.push(s[i].0.clone());
        i += 1;
    }
    assert(view_columns(r@) =~= view_pairs(s@).map_values(|q: (SpecColumn, SpecExpr)| q.0));
    r
}

/// The expressions of a list of pairs.
fn pair_exprs(s: &Vec<(Column, Expr)>) -> (r: Vec<Expr>)
    ensures
        view_exprs(r@) == view_pairs(s@).map_values(|q: (SpecColumn, SpecExpr)| q.1),
{
    let mut r: Vec<Expr> = Vec::new();
    let mut i: usize = 0;
    while i < s.len()
        invariant
            i <= s@.len(),
            r@.len() == i,
            forall|k: int| 0 <= k < i ==> view_expr(#[trigger] r@[k]) == s@[k].1@,
        decreases s.len() - i,
    {
        r.push(clone_expr(&s[i].1));
        i += 1;
    }
    proof { lemma_view_exprs(r@); }
    assert(view_exprs(r@) =~= view_pairs(s@).map_values(|q: (SpecColumn, SpecExpr)| q.1));
    r
}

/// Two lists of pairs, one after the other.
fn concat_pairs(a: &Vec<(Column, Expr)>, b: &Vec<(Column, Expr)>) -> (r: Vec<(Column, Expr)>)
    ensures
        view_pairs(r@) == view_pairs(a@) + view_pairs(b@),
{
    let mut r: Vec<(Column, Expr)> = Vec::new();
    let mut i: usize = 0;
    while i < a.len()
        invariant
            i <= a@.len(),
            view_pairs(r@) == view_pairs(a@).take(i as int),
        decreases a.len() - i,
    {
        let ghost prev = r@;
        r.push(clone_pair(&a[i]));
        assert(view_pairs(r@) =~= view_pairs(prev).push(view_pairs(a@)[i as int]));
        assert(view_pairs(a@).take(i + 1) =~= view_pairs(a@).take(i as int).push(view_pairs(a@)[i as int]));
        i += 1;
    }
    let mut j: usize = 0;
    assert(view_pairs(a@).take(a@.len() as int) =~= view_pairs(a@));
    assert(view_pairs(b@).take(0) =~= Seq::<(SpecColumn, SpecExpr)>::empty());
    while j < b.len()
        invariant
            j <= b@.len(),
            view_pairs(r@) == view_pairs(a@) + view_pairs(b@).take(j as int),
        decreases b.len() - j,
    {
        let ghost prev = r@;
        r.push(clone_pair(&b[j]));
        assert(view_pairs(r@) =~= view_pairs(prev).push(view_pairs(b@)[j as int]));
        assert(view_pairs(b@).take(j + 1) =~= view_pairs(b@).take(j as int).push(view_pairs(b@)[j as int]));
        assert(view_pairs(r@) =~= view_pairs(a@) + view_pairs(b@).take(j + 1));
        j += 1;
    }
    assert(view_pairs(b@).take(b@.len() as int) =~= view_pairs(b@));
    r
}

impl DefaultMatcher {
    fn instantiate_filter(&self, t: &Plan) -> (r: Result<(Plan, ColumnMap), RuleError>)
        ensures
            t@ is Filter ==> view_plan_ctx_result(r) == instantiate_plan(self@, t@),
        decreases t, 0nat,
    {
        match t {
            Plan::Filter { predicate, input } => {
                let (ip, ctx) = match self.instantiate_plan(input) {
                    Err(x) => {
                        return Err(x);
                    },
                    Ok(v) => v,
                };
                let es = match self.instantiate_expr(predicate, &ctx) {
                    Err(x) => {
                        return Err(x);
                    },
                    Ok(v) => v,
                };
                let pred = match single_predicate_of(&es) {
                    Err(x) => {
                        return Err(x);
                    },
                    Ok(v) => v,
                };
                match crate::ast::relational::filter_of(ip, pred) {
                    Err(x) => Err(x),
                    Ok(f) => Ok((f, ctx)),
                }
            },
            _ => Err(invalid_pattern("")),
        }
    }

    fn instantiate_projection(&self, t: &Plan) -> (r: Result<(Plan, ColumnMap), RuleError>)
        ensures
            t@ is Projection ==> view_plan_ctx_result(r) == instantiate_plan(self@, t@),
        decreases t, 0nat,
    {
        match t {
            Plan::Projection { exprs, input, schema } => {
                let (ip, ictx) = match self.instantiate_plan(input) {
                    Err(x) => {
                        return Err(x);
                    },
                    Ok(v) => v,
                };
                let tcols = columns_of(schema);
                let pairs = match self.instantiate_outputs_of(exprs, &tcols, &ictx) {
                    Err(x) => {
                        return Err(x);
                    },
                    Ok(v) => v,
                };
                let sorted = sort_by_output_of(&pairs, &self.output_schema);
                let es = pair_exprs(&sorted);
                let ks = pair_columns(&sorted);
                let isch = schema_of(&ip);
                let out_schema = output_fields_of(&es, &isch);
                match check_unique_fields(&out_schema) {
                    Err(x) => {
                        return Err(x);
                    },
                    Ok(_) => {},
                }
                let ocols = columns_of(&out_schema);
                let ctx = collect_context_of(&ks, &ocols);
                Ok((Plan::Projection { exprs: es, input: Box::new(ip), schema: out_schema }, ctx))
            },
            _ => Err(invalid_pattern("")),
        }
    }

    fn instantiate_aggregate(&self, t: &Plan) -> (r: Result<(Plan, ColumnMap), RuleError>)
        ensures
            t@ is Aggregate ==> view_plan_ctx_result(r) == instantiate_plan(self@, t@),
        decreases t, 0nat,
    {
        match t {
            Plan::Aggregate { input, group_exprs, aggr_exprs, schema } => {
                let (ip, ictx) = match self.instantiate_plan(input) {
                    Err(x) => {
                        return Err(x);
                    },
                    Ok(v) => v,
                };
                let tcols = columns_of(schema);
                assert(view_columns(tcols@).len() == schema@.len());
                proof { lemma_view_exprs(group_exprs@); }
                let split = if group_exprs.len() <= tcols.len() { group_exprs.len() } else { tcols.len() };
                let gcols = crate::matcher::default::take_columns(&tcols, split);
                let gpairs = match self.instantiate_outputs_of(group_exprs, &gcols, &ictx) {
                    Err(x) => {
                        return Err(x);
                    },
                    Ok(v) => v,
                };
                let gsorted = sort_by_output_of(&gpairs, &self.output_schema);
                let acols = crate::matcher::default::skip_columns(&tcols, split);
                let apairs = match self.instantiate_outputs_of(aggr_exprs, &acols, &ictx) {
                    Err(x) => {
                        return Err(x);
                    },
                    Ok(v) => v,
                };
                let all = concat_pairs(&gsorted, &apairs);
                let ges = pair_exprs(&gsorted);
                let aes = pair_exprs(&apairs);
                let both = pair_exprs(&all);
                assert(view_pairs(all@).map_values(|q: (SpecColumn, SpecExpr)| q.1) =~= view_pairs(gsorted@).map_values(
                    |q: (SpecColumn, SpecExpr)| q.1,
                ) + view_pairs(apairs@).map_values(|q: (SpecColumn, SpecExpr)| q.1));
                let isch = schema_of(&ip);
                let out_schema = output_fields_of(&both, &isch);
                match check_unique_fields(&out_schema) {
                    Err(x) => {
                        return Err(x);
                    },
                    Ok(_) => {},
                }
                let ks = pair_columns(&all);
                let ocols = columns_of(&out_schema);
                let ctx = collect_context_of(&ks, &ocols);
                Ok((Plan::Aggregate { input: Box::new(ip), group_exprs: ges, aggr_exprs: aes, schema: out_schema }, ctx))
            },
            _ => Err(invalid_pattern("")),
        }
    }

    fn instantiate_join(&self, t: &Plan) -> (r: Result<(Plan, ColumnMap), RuleError>)
        ensures
            t@ is Join ==> view_plan_ctx_result(r) == instantiate_plan(self@, t@),
        decreases t, 0nat,
    {
        match t {
            Plan::Join { left, right, on, filter, join_type, null_equals_null, .. } => {
                let (lp, lctx) = match self.instantiate_plan(left) {
                    Err(x) => {
                        return Err(x);
                    },
                    Ok(v) => v,
                };
                let (rp, rctx) = match self.instantiate_plan(right) {
                    Err(x) => {
                        return Err(x);
                    },
                    Ok(v) => v,
                };
                let mut merged = lctx;
                merged.extend(&rctx);
                let cf = complete_filter_of(on, filter);
                let es = match self.instantiate_expr(&cf, &merged) {
                    Err(x) => {
                        return Err(x);
                    },
                    Ok(v) => v,
                };
                let pred = match single_predicate_of(&es) {
                    Err(x) => {
                        return Err(x);
                    },
                    Ok(v) => v,
                };
                if is_correlated(&pred) {
                    return Err(invalid_pattern("Join condition cannot contain correlated subqueries"));
                }
                let ls = schema_of(&lp);
                let rs = schema_of(&rp);
                let sch = join_schema_of(&ls, &rs, join_type);
                match check_unique_fields(&sch) {
                    Err(x) => {
                        return Err(x);
                    },
                    Ok(_) => {},
                }
                let on_none: Vec<JoinKey> = Vec::new();
                assert(view_keys(on_none@) =~= Seq::<SpecJoinKey>::empty());
                Ok((
                    Plan::Join {
                        left: Box::new(lp),
                        right: Box::new(rp),
                        on: on_none,
                        filter: Some(pred),
                        join_type: join_type.clone(),
                        null_equals_null: *null_equals_null,
                        schema: sch,
                    },
                    merged,
                ))
            },
            _ => Err(invalid_pattern("")),
        }
    }

    fn instantiate_union(&self, t: &Plan) -> (r: Result<(Plan, ColumnMap), RuleError>)
        ensures
            t@ is Union ==> view_plan_ctx_result(r) == instantiate_plan(self@, t@),
        decreases t, 0nat,
    {
        match t {
            Plan::Union { inputs, .. } => {
                proof { lemma_view_plans(inputs@); }
                if inputs.len() != 2 {
                    let mut reason = owned("Union pattern must have exactly 2 inputs, found ");
                    push_decimal(&mut reason, inputs.len() as u64);
                    proof { reveal_strlit("Union pattern must have exactly 2 inputs, found "); }
                    return Err(RuleError::InvalidPattern { reason });
                }
                proof {
                    assert(decreases_to!(inputs => inputs[0]));
                    assert(decreases_to!(inputs => inputs[1]));
                }
                let (lp, lctx) = match self.instantiate_plan(&inputs[0]) {
                    Err(x) => {
                        return Err(x);
                    },
                    Ok(v) => v,
                };
                let (rp, rctx) = match self.instantiate_plan(&inputs[1]) {
                    Err(x) => {
                        return Err(x);
                    },
                    Ok(v) => v,
                };
                let sch = schema_of(&lp);
                let ghost lv = lp@;
                let ghost rv = rp@;
                let mut ins: Vec<Plan> = Vec::new();
                ins.push(lp);
                ins.push(rp);
                proof { lemma_view_plans(ins@); }
                assert(view_plans(ins@) =~= seq![lv, rv]);
                let mut merged = lctx;
                merged.extend(&rctx);
                Ok((Plan::Union { inputs: ins, schema: sch }, merged))
            },
            _ => Err(invalid_pattern("")),
        }
    }

    /// Instantiates a template plan from the bindings, giving the plan and the column
    /// context of its output.
    pub fn instantiate_plan(&self, t: &Plan) -> (r: Result<(Plan, ColumnMap), RuleError>)
        ensures
            view_plan_ctx_result(r) == instantiate_plan(self@, t@),
        decreases t, 1nat,
    {
        match t {
            Plan::Source(s) => match srcmap_find(&self.sources, &s.table_name) {
                Some(i) => Ok((clone_plan(&self.sources[i].value.0), self.sources[i].value.1.clone())),
                None => Err(RuleError::UnboundSymbol { symbol: s.table_name.clone() }),
            },
            Plan::Empty(inner) => {
                let (ip, _) = match self.instantiate_plan(inner) {
                    Err(x) => {
                        return Err(x);
                    },
                    Ok(v) => v,
                };
                let sch = schema_of(&ip);
                Ok((Plan::EmptyRelation { produce_one_row: false, schema: sch }, ColumnMap::new()))
            },
            Plan::Filter { .. } => self.instantiate_filter(t),
            Plan::Projection { .. } => self.instantiate_projection(t),
            Plan::Aggregate { .. } => self.instantiate_aggregate(t),
            Plan::Join { .. } => self.instantiate_join(t),
            Plan::Union { .. } => self.instantiate_union(t),
            _ => {
                let mut reason = owned("Unsupported plan type in template: ");
                let label = plan_label_of(t);
                reason.append(label.as_str());
                proof { reveal_strlit("Unsupported plan type in template: "); }
                Err(RuleError::InvalidPattern { reason })
            },
        }
    }

    /// Instantiates a rule's template from the bindings.
    pub fn instantiate_root(&self, t: &Plan) -> (r: Result<Plan, RuleError>)
        ensures
            view_result(r) == instantiate(self@, t@),
    {
        match self.instantiate_plan(t) {
            Ok((p, _)) => Ok(p),
            Err(x) => Err(x),
        }
    }
}

} // verus!
