//! Collecting the columns that an expression refers to, directly and through the
//! outer references of its subqueries.
use vstd::prelude::*;
use crate::matcher::semantics::{
    column_refs, column_refs_arms, column_refs_opt, column_refs_seq, column_refs_sorts, correlated_arms,
    correlated_opt, correlated_seq, correlated_sorts, has_correlated_subquery, outer_columns, outer_refs,
    outer_refs_arms, outer_refs_opt, outer_refs_seq, outer_refs_sorts,
};
use crate::plan::{
    lemma_view_arms_take, lemma_view_exprs_take, lemma_view_sorts_take, view_arms, view_columns, view_expr,
    view_exprs, view_opt_expr, view_sorts, Column, Expr, SortExpr, WhenThen,
};

verus! {

broadcast use vstd::std_specs::vec::group_vec_axioms;

/// Appends the columns that `e` refers to directly, in pre-order.
#[verifier::rlimit(40)]
pub fn collect_column_refs(e: &Expr, out: &mut Vec<Column>)
    ensures
        view_columns(final(out)@) == view_columns(old(out)@) + column_refs(e@),
    decreases e,
{
    let ghost start = view_columns(out@);
    match e {
        Expr::Column(c) => {
            out.push(c.clone());
            assert(view_columns(out@) =~= start + seq![c@]);
        },
        Expr::Alias { expr, .. } => collect_column_refs(expr, out),
        Expr::Binary { left, right, .. } => {
            collect_column_refs(left, out);
            collect_column_refs(right, out);
            assert(view_columns(out@) =~= start + column_refs(e@));
        },
        Expr::ScalarFunction { args, .. } => collect_refs_seq(args, out),
        Expr::AggregateFunction { params, .. } => {
            assert(e@ matches crate::plan::SpecExpr::AggregateFunction { params: p, .. } && p == crate::plan::view_params(*params));
            collect_refs_seq(&params.args, out);
            collect_refs_opt(&params.filter, out);
            collect_refs_sorts(&params.order_by, out);
            assert(view_columns(out@) =~= start + column_refs(e@));
        },
        Expr::Unary(_, inner) => collect_column_refs(inner, out),
        Expr::Between { expr, low, high, .. } => {
            collect_column_refs(expr, out);
            collect_column_refs(low, out);
            collect_column_refs(high, out);
            assert(view_columns(out@) =~= start + column_refs(e@));
        },
        Expr::Case { operand, arms, else_expr } => {
            collect_refs_opt(operand, out);
            collect_refs_arms(arms, out);
            collect_refs_opt(else_expr, out);
            assert(view_columns(out@) =~= start + column_refs(e@));
        },
        Expr::Cast { expr, .. } => collect_column_refs(expr, out),
        Expr::InList { expr, list, .. } => {
            collect_column_refs(expr, out);
            collect_refs_seq(list, out);
            assert(view_columns(out@) =~= start + column_refs(e@));
        },
        Expr::Like(l) => {
            assert(e@ == crate::plan::SpecExpr::Like(crate::plan::view_like(*l)));
            collect_column_refs(&l.expr, out);
            collect_column_refs(&l.pattern, out);
            assert(view_columns(out@) =~= start + column_refs(e@));
        },
        Expr::SimilarTo(l) => {
            assert(e@ == crate::plan::SpecExpr::SimilarTo(crate::plan::view_like(*l)));
            collect_column_refs(&l.expr, out);
            collect_column_refs(&l.pattern, out);
            assert(view_columns(out@) =~= start + column_refs(e@));
        },
        Expr::InSubquery { expr, .. } => collect_column_refs(expr, out),
        _ => {
            assert(view_columns(out@) =~= start + column_refs(e@));
        },
    }
}

fn collect_refs_opt(o: &Option<Box<Expr>>, out: &mut Vec<Column>)
    ensures
        view_columns(final(out)@) == view_columns(old(out)@) + column_refs_opt(view_opt_expr(*o)),
    decreases o,
{
    match o {
        Some(b) => collect_column_refs(b, out),
        None => {
            assert(view_columns(out@) =~= view_columns(out@) + Seq::<crate::plan::SpecColumn>::empty());
        },
    }
}

#[verifier::loop_isolation(false)]
fn collect_refs_seq(s: &Vec<Expr>, out: &mut Vec<Column>)
    ensures
        view_columns(final(out)@) == view_columns(old(out)@) + column_refs_seq(view_exprs(s@)),
    decreases s,
{
    let ghost start = view_columns(out@);
    let mut i: usize = 0;
    assert(view_exprs(s@.take(0)) =~= Seq::empty());
    assert(start + Seq::<crate::plan::SpecColumn>::empty() =~= start);
    while i < s.len()
        invariant
            i <= s.len(),
            view_columns(out@) == start + column_refs_seq(view_exprs(s@.take(i as int))),
        decreases s.len() - i,
    {
        proof { assert(decreases_to!(s => s[i as int])); }
        collect_column_refs(&s[i], out);
        proof {
            lemma_view_exprs_take(s@, i as int);
            let x = view_exprs(s@.take(i as int));
            assert(x.push(view_expr(s@[i as int])).drop_last() =~= x);
            assert(view_columns(out@) =~= start + column_refs_seq(view_exprs(s@.take(i + 1))));
        }
        i += 1;
    }
    assert(s@.take(s@.len() as int) =~= s@);
}

#[verifier::loop_isolation(false)]
fn collect_refs_sorts(s: &Vec<SortExpr>, out: &mut Vec<Column>)
    ensures
        view_columns(final(out)@) == view_columns(old(out)@) + column_refs_sorts(view_sorts(s@)),
    decreases s,
{
    let ghost start = view_columns(out@);
    let mut i: usize = 0;
    assert(view_sorts(s@.take(0)) =~= Seq::empty());
    assert(start + Seq::<crate::plan::SpecColumn>::empty() =~= start);
    while i < s.len()
        invariant
            i <= s.len(),
            view_columns(out@) == start + column_refs_sorts(view_sorts(s@.take(i as int))),
        decreases s.len() - i,
    {
        proof { assert(decreases_to!(s => s[i as int])); }
        collect_column_refs(&s[i].expr, out);
        proof {
            lemma_view_sorts_take(s@, i as int);
            let x = view_sorts(s@.take(i as int));
            assert(x.push(crate::plan::view_sort(s@[i as int])).drop_last() =~= x);
            assert(view_columns(out@) =~= start + column_refs_sorts(view_sorts(s@.take(i + 1))));
        }
        i += 1;
    }
    assert(s@.take(s@.len() as int) =~= s@);
}

#[verifier::loop_isolation(false)]
fn collect_refs_arms(s: &Vec<WhenThen>, out: &mut Vec<Column>)
    ensures
        view_columns(final(out)@) == view_columns(old(out)@) + column_refs_arms(view_arms(s@)),
    decreases s,
{
    let ghost start = view_columns(out@);
    let mut i: usize = 0;
    assert(view_arms(s@.take(0)) =~= Seq::empty());
    assert(start + Seq::<crate::plan::SpecColumn>::empty() =~= start);
    while i < s.len()
        invariant
            i <= s.len(),
            view_columns(out@) == start + column_refs_arms(view_arms(s@.take(i as int))),
        decreases s.len() - i,
    {
        proof { assert(decreases_to!(s => s[i as int])); }
        collect_column_refs(&s[i].condition, out);
        collect_column_refs(&s[i].result, out);
        proof {
            lemma_view_arms_take(s@, i as int);
            let x = view_arms(s@.take(i as int));
            assert(x.push(crate::plan::view_arm(s@[i as int])).drop_last() =~= x);
            assert(view_columns(out@) =~= start + column_refs_arms(view_arms(s@.take(i + 1))));
        }
        i += 1;
    }
    assert(s@.take(s@.len() as int) =~= s@);
}

/// Appends the outer columns named by a subquery's outer references.
#[verifier::loop_isolation(false)]
fn collect_outer_columns(s: &Vec<Expr>, out: &mut Vec<Column>)
    ensures
        view_columns(final(out)@) == view_columns(old(out)@) + outer_columns(view_exprs(s@)),
{
    let ghost start = view_columns(out@);
    let mut i: usize = 0;
    assert(view_exprs(s@.take(0)) =~= Seq::empty());
    assert(start + Seq::<crate::plan::SpecColumn>::empty() =~= start);
    while i < s.len()
        invariant
            i <= s.len(),
            view_columns(out@) == start + outer_columns(view_exprs(s@.take(i as int))),
        decreases s.len() - i,
    {
        let ghost before = view_columns(out@);
        match &s[i] {
            Expr::OuterReferenceColumn(_, c) => {
                out.push(c.clone());
                assert(view_columns(out@) =~= before + seq![c@]);
            },
            _ => {},
        }
        proof {
            lemma_view_exprs_take(s@, i as int);
            let x = view_exprs(s@.take(i as int));
            assert(x.push(view_expr(s@[i as int])).drop_last() =~= x);
            assert(view_columns(out@) =~= start + outer_columns(view_exprs(s@.take(i + 1))));
        }
        i += 1;
    }
    assert(s@.take(s@.len() as int) =~= s@);
}

/// Appends the outer columns that subqueries anywhere in `e` depend on, in pre-order.
#[verifier::rlimit(40)]
pub fn collect_outer_refs(e: &Expr, out: &mut Vec<Column>)
    ensures
        view_columns(final(out)@) == view_columns(old(out)@) + outer_refs(e@),
    decreases e,
{
    let ghost start = view_columns(out@);
    match e {
        Expr::Alias { expr, .. } => collect_outer_refs(expr, out),
        Expr::Binary { left, right, .. } => {
            collect_outer_refs(left, out);
            collect_outer_refs(right, out);
            assert(view_columns(out@) =~= start + outer_refs(e@));
        },
        Expr::ScalarFunction { args, .. } => outer_refs_in_seq(args, out),
        Expr::AggregateFunction { params, .. } => {
            assert(e@ matches crate::plan::SpecExpr::AggregateFunction { params: p, .. } && p == crate::plan::view_params(*params));
            outer_refs_in_seq(&params.args, out);
            outer_refs_in_opt(&params.filter, out);
            outer_refs_in_sorts(&params.order_by, out);
            assert(view_columns(out@) =~= start + outer_refs(e@));
        },
        Expr::Unary(_, inner) => collect_outer_refs(inner, out),
        Expr::Between { expr, low, high, .. } => {
            collect_outer_refs(expr, out);
            collect_outer_refs(low, out);
            collect_outer_refs(high, out);
            assert(view_columns(out@) =~= start + outer_refs(e@));
        },
        Expr::Case { operand, arms, else_expr } => {
            outer_refs_in_opt(operand, out);
            outer_refs_in_arms(arms, out);
            outer_refs_in_opt(else_expr, out);
            assert(view_columns(out@) =~= start + outer_refs(e@));
        },
        Expr::Cast { expr, .. } => collect_outer_refs(expr, out),
        Expr::InList { expr, list, .. } => {
            collect_outer_refs(expr, out);
            outer_refs_in_seq(list, out);
            assert(view_columns(out@) =~= start + outer_refs(e@));
        },
        Expr::Like(l) => {
            assert(e@ == crate::plan::SpecExpr::Like(crate::plan::view_like(*l)));
            collect_outer_refs(&l.expr, out);
            collect_outer_refs(&l.pattern, out);
            assert(view_columns(out@) =~= start + outer_refs(e@));
        },
        Expr::SimilarTo(l) => {
            assert(e@ == crate::plan::SpecExpr::SimilarTo(crate::plan::view_like(*l)));
            collect_outer_refs(&l.expr, out);
            collect_outer_refs(&l.pattern, out);
            assert(view_columns(out@) =~= start + outer_refs(e@));
        },
        Expr::ScalarSubquery(q) => {
            assert(e@ == crate::plan::SpecExpr::ScalarSubquery(crate::plan::view_subquery(*q)));
            collect_outer_columns(&q.outer_ref_columns, out);
        },
        Expr::InSubquery { expr, subquery, .. } => {
            assert(e@ matches crate::plan::SpecExpr::InSubquery { subquery: q, .. } && q == crate::plan::view_subquery(*subquery));
            collect_outer_columns(&subquery.outer_ref_columns, out);
            collect_outer_refs(expr, out);
            assert(view_columns(out@) =~= start + outer_refs(e@));
        },
        Expr::Exists { subquery, .. } => {
            assert(e@ matches crate::plan::SpecExpr::Exists { subquery: q, .. } && q == crate::plan::view_subquery(*subquery));
            collect_outer_columns(&subquery.outer_ref_columns, out);
        },
        _ => {
            assert(view_columns(out@) =~= start + outer_refs(e@));
        },
    }
}

fn outer_refs_in_opt(o: &Option<Box<Expr>>, out: &mut Vec<Column>)
    ensures
        view_columns(final(out)@) == view_columns(old(out)@) + outer_refs_opt(view_opt_expr(*o)),
    decreases o,
{
    match o {
        Some(b) => collect_outer_refs(b, out),
        None => {
            assert(view_columns(out@) =~= view_columns(out@) + Seq::<crate::plan::SpecColumn>::empty());
        },
    }
}

#[verifier::loop_isolation(false)]
fn outer_refs_in_seq(s: &Vec<Expr>, out: &mut Vec<Column>)
    ensures
        view_columns(final(out)@) == view_columns(old(out)@) + outer_refs_seq(view_exprs(s@)),
    decreases s,
{
    let ghost start = view_columns(out@);
    let mut i: usize = 0;
    assert(view_exprs(s@.take(0)) =~= Seq::empty());
    assert(start + Seq::<crate::plan::SpecColumn>::empty() =~= start);
    while i < s.len()
        invariant
            i <= s.len(),
            view_columns(out@) == start + outer_refs_seq(view_exprs(s@.take(i as int))),
        decreases s.len() - i,
    {
        proof { assert(decreases_to!(s => s[i as int])); }
        collect_outer_refs(&s[i], out);
        proof {
            lemma_view_exprs_take(s@, i as int);
            let x = view_exprs(s@.take(i as int));
            assert(x.push(view_expr(s@[i as int])).drop_last() =~= x);
            assert(view_columns(out@) =~= start + outer_refs_seq(view_exprs(s@.take(i + 1))));
        }
        i += 1;
    }
    assert(s@.take(s@.len() as int) =~= s@);
}

#[verifier::loop_isolation(false)]
#[verifier::rlimit(40)]
fn outer_refs_in_sorts(s: &Vec<SortExpr>, out: &mut Vec<Column>)
    ensures
        view_columns(final(out)@) == view_columns(old(out)@) + outer_refs_sorts(view_sorts(s@)),
    decreases s,
{
    let ghost start = view_columns(out@);
    let mut i: usize = 0;
    assert(view_sorts(s@.take(0)) =~= Seq::empty());
    assert(start + Seq::<crate::plan::SpecColumn>::empty() =~= start);
    while i < s.len()
        invariant
            i <= s.len(),
            view_columns(out@) == start + outer_refs_sorts(view_sorts(s@.take(i as int))),
        decreases s.len() - i,
    {
        proof { assert(decreases_to!(s => s[i as int])); }
        collect_outer_refs(&s[i].expr, out);
        proof {
            lemma_view_sorts_take(s@, i as int);
            let x = view_sorts(s@.take(i as int));
            assert(x.push(crate::plan::view_sort(s@[i as int])).drop_last() =~= x);
            assert(view_columns(out@) =~= start + outer_refs_sorts(view_sorts(s@.take(i + 1))));
        }
        i += 1;
    }
    assert(s@.take(s@.len() as int) =~= s@);
}

#[verifier::loop_isolation(false)]
#[verifier::rlimit(40)]
fn outer_refs_in_arms(s: &Vec<WhenThen>, out: &mut Vec<Column>)
    ensures
        view_columns(final(out)@) == view_columns(old(out)@) + outer_refs_arms(view_arms(s@)),
    decreases s,
{
    let ghost start = view_columns(out@);
    let mut i: usize = 0;
    assert(view_arms(s@.take(0)) =~= Seq::empty());
    assert(start + Seq::<crate::plan::SpecColumn>::empty() =~= start);
    while i < s.len()
        invariant
            i <= s.len(),
            view_columns(out@) == start + outer_refs_arms(view_arms(s@.take(i as int))),
        decreases s.len() - i,
    {
        proof { assert(decreases_to!(s => s[i as int])); }
        collect_outer_refs(&s[i].condition, out);
        collect_outer_refs(&s[i].result, out);
        proof {
            lemma_view_arms_take(s@, i as int);
            let x = view_arms(s@.take(i as int));
            assert(x.push(crate::plan::view_arm(s@[i as int])).drop_last() =~= x);
            assert(view_columns(out@) =~= start + outer_refs_arms(view_arms(s@.take(i + 1))));
        }
        i += 1;
    }
    assert(s@.take(s@.len() as int) =~= s@);
}

/// Whether some subquery anywhere in `e` refers to outer columns.
#[verifier::rlimit(40)]
pub fn is_correlated(e: &Expr) -> (r: bool)
    ensures
        r == has_correlated_subquery(e@),
    decreases e,
{
    match e {
        Expr::Alias { expr, .. } => is_correlated(expr),
        Expr::Binary { left, right, .. } => is_correlated(left) || is_correlated(right),
        Expr::ScalarFunction { args, .. } => correlated_in_seq(args),
        Expr::AggregateFunction { params, .. } => {
            assert(e@ matches crate::plan::SpecExpr::AggregateFunction { params: p, .. } && p == crate::plan::view_params(*params));
            correlated_in_seq(&params.args) || correlated_in_opt(&params.filter) || correlated_in_sorts(&params.order_by)
        },
        Expr::Unary(_, inner) => is_correlated(inner),
        Expr::Between { expr, low, high, .. } => is_correlated(expr) || is_correlated(low) || is_correlated(high),
        Expr::Case { operand, arms, else_expr } =>
            correlated_in_opt(operand) || correlated_in_arms(arms) || correlated_in_opt(else_expr),
        Expr::Cast { expr, .. } => is_correlated(expr),
        Expr::InList { expr, list, .. } => is_correlated(expr) || correlated_in_seq(list),
        Expr::Like(l) => {
            assert(e@ == crate::plan::SpecExpr::Like(crate::plan::view_like(*l)));
            is_correlated(&l.expr) || is_correlated(&l.pattern)
        },
        Expr::SimilarTo(l) => {
            assert(e@ == crate::plan::SpecExpr::SimilarTo(crate::plan::view_like(*l)));
            is_correlated(&l.expr) || is_correlated(&l.pattern)
        },
        Expr::ScalarSubquery(q) => {
            assert(e@ == crate::plan::SpecExpr::ScalarSubquery(crate::plan::view_subquery(*q)));
            proof { crate::plan::lemma_view_exprs(q.outer_ref_columns@); }
            q.outer_ref_columns.len() > 0
        },
        Expr::InSubquery { expr, subquery, .. } => {
            assert(e@ matches crate::plan::SpecExpr::InSubquery { subquery: q, .. } && q == crate::plan::view_subquery(*subquery));
            proof { crate::plan::lemma_view_exprs(subquery.outer_ref_columns@); }
            subquery.outer_ref_columns.len() > 0 || is_correlated(expr)
        },
        Expr::Exists { subquery, .. } => {
            assert(e@ matches crate::plan::SpecExpr::Exists { subquery: q, .. } && q == crate::plan::view_subquery(*subquery));
            proof { crate::plan::lemma_view_exprs(subquery.outer_ref_columns@); }
            subquery.outer_ref_columns.len() > 0
        },
        _ => false,
    }
}

fn correlated_in_opt(o: &Option<Box<Expr>>) -> (r: bool)
    ensures
        r == correlated_opt(view_opt_expr(*o)),
    decreases o,
{
    match o {
        Some(b) => is_correlated(b),
        None => false,
    }
}

#[verifier::loop_isolation(false)]
fn correlated_in_seq(s: &Vec<Expr>) -> (r: bool)
    ensures
        r == correlated_seq(view_exprs(s@)),
    decreases s,
{
    let mut i: usize = 0;
    let mut found = false;
    assert(view_exprs(s@.take(0)) =~= Seq::empty());
    while i < s.len()
        invariant
            i <= s.len(),
            found == correlated_seq(view_exprs(s@.take(i as int))),
        decreases s.len() - i,
    {
        proof { assert(decreases_to!(s => s[i as int])); }
        let b = is_correlated(&s[i]);
        proof {
            lemma_view_exprs_take(s@, i as int);
            let x = view_exprs(s@.take(i as int));
            assert(x.push(view_expr(s@[i as int])).drop_last() =~= x);
        }
        found = found || b;
        i += 1;
    }
    assert(s@.take(s@.len() as int) =~= s@);
    found
}

#[verifier::loop_isolation(false)]
fn correlated_in_sorts(s: &Vec<SortExpr>) -> (r: bool)
    ensures
        r == correlated_sorts(view_sorts(s@)),
    decreases s,
{
    let mut i: usize = 0;
    let mut found = false;
    assert(view_sorts(s@.take(0)) =~= Seq::empty());
    while i < s.len()
        invariant
            i <= s.len(),
            found == correlated_sorts(view_sorts(s@.take(i as int))),
        decreases s.len() - i,
    {
        proof { assert(decreases_to!(s => s[i as int])); }
        let b = is_correlated(&s[i].expr);
        proof {
            lemma_view_sorts_take(s@, i as int);
            let x = view_sorts(s@.take(i as int));
            assert(x.push(crate::plan::view_sort(s@[i as int])).drop_last() =~= x);
        }
        found = found || b;
        i += 1;
    }
    assert(s@.take(s@.len() as int) =~= s@);
    found
}

#[verifier::loop_isolation(false)]
fn correlated_in_arms(s: &Vec<WhenThen>) -> (r: bool)
    ensures
        r == correlated_arms(view_arms(s@)),
    decreases s,
{
    let mut i: usize = 0;
    let mut found = false;
    assert(view_arms(s@.take(0)) =~= Seq::empty());
    while i < s.len()
        invariant
            i <= s.len(),
            found == correlated_arms(view_arms(s@.take(i as int))),
        decreases s.len() - i,
    {
        proof { assert(decreases_to!(s => s[i as int])); }
        let b1 = is_correlated(&s[i].condition);
        let b2 = is_correlated(&s[i].result);
        proof {
            lemma_view_arms_take(s@, i as int);
            let x = view_arms(s@.take(i as int));
            assert(x.push(crate::plan::view_arm(s@[i as int])).drop_last() =~= x);
        }
        found = found || b1 || b2;
        i += 1;
    }
    assert(s@.take(s@.len() as int) =~= s@);
    found
}

} // verus!
