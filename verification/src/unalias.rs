//! Removing aliases nested in an expression, as the engine does to a filter's predicate
//! when it builds the filter (`Expr::unalias_nested`): every alias goes, except inside
//! subqueries, which are left as they are.
use vstd::prelude::*;
use crate::plan::{
    clone_expr, lemma_view_arms, lemma_view_exprs, lemma_view_sorts, view_arms, view_exprs, view_opt_expr, view_sorts,
    AggregateParams, Expr, LikeExpr, SortExpr, SpecAggregateParams, SpecExpr, SpecLikeExpr, SpecSortExpr, SpecWhenThen,
    WhenThen,
};

verus! {

broadcast use vstd::std_specs::vec::group_vec_axioms;

/// The expression with every alias outside subqueries replaced by what it names.
pub open spec fn unalias_nested(e: SpecExpr) -> SpecExpr
    decreases e,
{
    match e {
        SpecExpr::Alias { expr, .. } => unalias_nested(*expr),
        SpecExpr::Binary { left, op, right } => SpecExpr::Binary {
            left: Box::new(unalias_nested(*left)),
            op,
            right: Box::new(unalias_nested(*right)),
        },
        SpecExpr::ScalarFunction { func, args } => SpecExpr::ScalarFunction { func, args: unalias_seq(args) },
        SpecExpr::AggregateFunction { func, params } => SpecExpr::AggregateFunction {
            func,
            params: SpecAggregateParams {
                args: unalias_seq(params.args),
                filter: unalias_opt(params.filter),
                order_by: unalias_sorts(params.order_by),
                ..params
            },
        },
        SpecExpr::Unary(op, inner) => SpecExpr::Unary(op, Box::new(unalias_nested(*inner))),
        SpecExpr::Between { expr, negated, low, high } => SpecExpr::Between {
            expr: Box::new(unalias_nested(*expr)),
            negated,
            low: Box::new(unalias_nested(*low)),
            high: Box::new(unalias_nested(*high)),
        },
        SpecExpr::Case { operand, arms, else_expr } => SpecExpr::Case {
            operand: unalias_opt(operand),
            arms: unalias_arms(arms),
            else_expr: unalias_opt(else_expr),
        },
        SpecExpr::Cast { expr, data_type, try_cast } => SpecExpr::Cast {
            expr: Box::new(unalias_nested(*expr)),
            data_type,
            try_cast,
        },
        SpecExpr::InList { expr, list, negated } => SpecExpr::InList {
            expr: Box::new(unalias_nested(*expr)),
            list: unalias_seq(list),
            negated,
        },
        SpecExpr::Like(l) => SpecExpr::Like(
            SpecLikeExpr { expr: Box::new(unalias_nested(*l.expr)), pattern: Box::new(unalias_nested(*l.pattern)), ..l },
        ),
        SpecExpr::SimilarTo(l) => SpecExpr::SimilarTo(
            SpecLikeExpr { expr: Box::new(unalias_nested(*l.expr)), pattern: Box::new(unalias_nested(*l.pattern)), ..l },
        ),
        _ => e,
    }
}

pub open spec fn unalias_opt(o: Option<Box<SpecExpr>>) -> Option<Box<SpecExpr>>
    decreases o,
{
    match o {
        None => None,
        Some(b) => Some(Box::new(unalias_nested(*b))),
    }
}

pub open spec fn unalias_seq(s: Seq<SpecExpr>) -> Seq<SpecExpr>
    decreases s,
{
    if s.len() == 0 {
        Seq::empty()
    } else {
        unalias_seq(s.drop_last()).push(unalias_nested(s.last()))
    }
}

pub open spec fn unalias_sorts(s: Seq<SpecSortExpr>) -> Seq<SpecSortExpr>
    decreases s,
{
    if s.len() == 0 {
        Seq::empty()
    } else {
        unalias_sorts(s.drop_last()).push(SpecSortExpr { expr: unalias_nested(s.last().expr), ..s.last() })
    }
}

pub open spec fn unalias_arms(s: Seq<SpecWhenThen>) -> Seq<SpecWhenThen>
    decreases s,
{
    if s.len() == 0 {
        Seq::empty()
    } else {
        unalias_arms(s.drop_last()).push(
            SpecWhenThen { condition: unalias_nested(s.last().condition), result: unalias_nested(s.last().result) },
        )
    }
}

/// `e` with every alias outside subqueries removed.
pub fn unalias_nested_of(e: &Expr) -> (r: Expr)
    ensures
        r@ == unalias_nested(e@),
    decreases e, 1nat,
{
    match e {
        Expr::Alias { expr, .. } => unalias_nested_of(expr),
        Expr::Binary { left, op, right } => Expr::Binary {
            left: Box::new(unalias_nested_of(left)),
            op: op.clone(),
            right: Box::new(unalias_nested_of(right)),
        },
        Expr::ScalarFunction { func, args } => Expr::ScalarFunction { func: func.clone(), args: unalias_seq_of(args) },
        Expr::AggregateFunction { .. } => unalias_aggregate(e),
        Expr::Unary(op, inner) => Expr::Unary(op.clone(), Box::new(unalias_nested_of(inner))),
        Expr::Between { expr, negated, low, high } => Expr::Between {
            expr: Box::new(unalias_nested_of(expr)),
            negated: *negated,
            low: Box::new(unalias_nested_of(low)),
            high: Box::new(unalias_nested_of(high)),
        },
        Expr::Case { operand, arms, else_expr } => Expr::Case {
            operand: unalias_opt_of(operand),
            arms: unalias_arms_of(arms),
            else_expr: unalias_opt_of(else_expr),
        },
        Expr::Cast { expr, data_type, try_cast } => Expr::Cast {
            expr: Box::new(unalias_nested_of(expr)),
            data_type: data_type.clone(),
            try_cast: *try_cast,
        },
        Expr::InList { expr, list, negated } => Expr::InList {
            expr: Box::new(unalias_nested_of(expr)),
            list: unalias_seq_of(list),
            negated: *negated,
        },
        Expr::Like(l) => Expr::Like(unalias_like(l)),
        Expr::SimilarTo(l) => Expr::SimilarTo(unalias_like(l)),
        _ => clone_expr(e),
    }
}

fn unalias_like(l: &LikeExpr) -> (r: LikeExpr)
    ensures
        crate::plan::view_like(r) == (SpecLikeExpr {
            expr: Box::new(unalias_nested(crate::plan::view_expr(*l.expr))),
            pattern: Box::new(unalias_nested(crate::plan::view_expr(*l.pattern))),
            ..crate::plan::view_like(*l)
        }),
    decreases l, 0nat,
{
    LikeExpr {
        negated: l.negated,
        expr: Box::new(unalias_nested_of(&l.expr)),
        pattern: Box::new(unalias_nested_of(&l.pattern)),
        escape_char: l.escape_char,
        case_insensitive: l.case_insensitive,
    }
}

fn unalias_aggregate(e: &Expr) -> (r: Expr)
    requires
        e@ is AggregateFunction,
    ensures
        r@ == unalias_nested(e@),
    decreases e, 0nat,
{
    match e {
        Expr::AggregateFunction { func, params } => {
            let p = AggregateParams {
                args: unalias_seq_of(&params.args),
                distinct: params.distinct,
                filter: unalias_opt_of(&params.filter),
                order_by: unalias_sorts_of(&params.order_by),
                null_treatment: crate::plan::clone_opt_string(&params.null_treatment),
            };
            assert(crate::plan::view_params(p) == SpecAggregateParams {
                args: unalias_seq(view_exprs(params.args@)),
                filter: unalias_opt(view_opt_expr(params.filter)),
                order_by: unalias_sorts(view_sorts(params.order_by@)),
                ..crate::plan::view_params(*params)
            });
            Expr::AggregateFunction { func: func.clone(), params: p }
        },
        _ => clone_expr(e),
    }
}

fn unalias_opt_of(o: &Option<Box<Expr>>) -> (r: Option<Box<Expr>>)
    ensures
        view_opt_expr(r) == unalias_opt(view_opt_expr(*o)),
    decreases o, 1nat,
{
    match o {
        None => None,
        Some(b) => Some(Box::new(unalias_nested_of(b))),
    }
}

fn unalias_seq_of(s: &Vec<Expr>) -> (r: Vec<Expr>)
    ensures
        view_exprs(r@) == unalias_seq(view_exprs(s@)),
    decreases s, 1nat,
{
    let ghost vs = view_exprs(s@);
    proof { lemma_view_exprs(s@); }
    let mut out: Vec<Expr> = Vec::new();
    let mut i: usize = 0;
    assert(vs.take(0) =~= Seq::<SpecExpr>::empty());
    assert(view_exprs(out@) =~= Seq::<SpecExpr>::empty());
    while i < s.len()
        invariant
            i <= s@.len(),
            vs == view_exprs(s@),
            vs.len() == s@.len(),
            forall|k: int| 0 <= k < s@.len() ==> #[trigger] vs[k] == crate::plan::view_expr(s@[k]),
            view_exprs(out@) == unalias_seq(vs.take(i as int)),
        decreases s.len() - i,
    {
        proof {
            assert(decreases_to!(s => s[i as int]));
            let t = vs.take(i + 1);
            assert(t.drop_last() =~= vs.take(i as int));
            assert(t.last() == vs[i as int]);
        }
        let ghost prev = out@;
        out.push(unalias_nested_of(&s[i]));
        assert(out@.drop_last() =~= prev);
        i += 1;
    }
    assert(vs.take(vs.len() as int) =~= vs);
    out
}

fn unalias_sorts_of(s: &Vec<SortExpr>) -> (r: Vec<SortExpr>)
    ensures
        view_sorts(r@) == unalias_sorts(view_sorts(s@)),
    decreases s, 1nat,
{
    let ghost vs = view_sorts(s@);
    proof { lemma_view_sorts(s@); }
    let mut out: Vec<SortExpr> = Vec::new();
    let mut i: usize = 0;
    assert(vs.take(0) =~= Seq::<SpecSortExpr>::empty());
    assert(view_sorts(out@) =~= Seq::<SpecSortExpr>::empty());
    while i < s.len()
        invariant
            i <= s@.len(),
            vs == view_sorts(s@),
            vs.len() == s@.len(),
            forall|k: int| 0 <= k < s@.len() ==> #[trigger] vs[k] == crate::plan::view_sort(s@[k]),
            view_sorts(out@) == unalias_sorts(vs.take(i as int)),
        decreases s.len() - i,
    {
        proof {
            assert(decreases_to!(s => s[i as int]));
            let t = vs.take(i + 1);
            assert(t.drop_last() =~= vs.take(i as int));
            assert(t.last() == vs[i as int]);
        }
        let ghost prev = out@;
        let item = SortExpr { expr: unalias_nested_of(&s[i].expr), asc: s[i].asc, nulls_first: s[i].nulls_first };
        assert(crate::plan::view_sort(item) == SpecSortExpr { expr: unalias_nested(vs[i as int].expr), ..vs[i as int] });
        out.push(item);
        assert(out@.drop_last() =~= prev);
        assert(view_sorts(out@) == view_sorts(prev).push(crate::plan::view_sort(item)));
        i += 1;
    }
    assert(vs.take(vs.len() as int) =~= vs);
    out
}

fn unalias_arms_of(s: &Vec<WhenThen>) -> (r: Vec<WhenThen>)
    ensures
        view_arms(r@) == unalias_arms(view_arms(s@)),
    decreases s, 1nat,
{
    let ghost vs = view_arms(s@);
    proof { lemma_view_arms(s@); }
    let mut out: Vec<WhenThen> = Vec::new();
    let mut i: usize = 0;
    assert(vs.take(0) =~= Seq::<SpecWhenThen>::empty());
    assert(view_arms(out@) =~= Seq::<SpecWhenThen>::empty());
    while i < s.len()
        invariant
            i <= s@.len(),
            vs == view_arms(s@),
            vs.len() == s@.len(),
            forall|k: int| 0 <= k < s@.len() ==> #[trigger] vs[k] == crate::plan::view_arm(s@[k]),
            view_arms(out@) == unalias_arms(vs.take(i as int)),
        decreases s.len() - i,
    {
        proof {
            assert(decreases_to!(s => s[i as int]));
            let t = vs.take(i + 1);
            assert(t.drop_last() =~= vs.take(i as int));
            assert(t.last() == vs[i as int]);
        }
        let ghost prev = out@;
        let item = WhenThen { condition: unalias_nested_of(&s[i].condition), result: unalias_nested_of(&s[i].result) };
        assert(crate::plan::view_arm(item) == SpecWhenThen {
            condition: unalias_nested(vs[i as int].condition),
            result: unalias_nested(vs[i as int].result),
        });
        out.push(item);
        assert(out@.drop_last() =~= prev);
        assert(view_arms(out@) == view_arms(prev).push(crate::plan::view_arm(item)));
        i += 1;
    }
    assert(vs.take(vs.len() as int) =~= vs);
    out
}

} // verus!
