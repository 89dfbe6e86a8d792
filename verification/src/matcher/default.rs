//! The default pattern matcher: it resolves a rule's pattern against a concrete plan,
//! recording what each pattern function and abstract source stands for, and
//! instantiates templates from those bindings.
use vstd::prelude::*;
use crate::matcher::error::{
    expression_mismatch, structure_mismatch, view_result, view_unit, BindingConflict, RuleError, SpecRuleError,
};
use crate::matcher::maps::{
    funmap_find, funmap_key, funmap_value, funmap_view, lemma_funmap_same, lemma_srcmap_same, srcmap_key,
    srcmap_find, srcmap_value, srcmap_view, ColumnMap, FunctionEntry, SourceEntry,
};
use crate::matcher::refs::{collect_column_refs, collect_outer_refs};
use crate::matcher::semantics::{
    allows, assign_items, bind_function, column_refs, combine, consolidate, consolidate_one, expr_size,
    exprs_size, first_index_where, first_match, flatten, group, groups, null_literal, outer_refs,
    partition_exprs, resolve_binary, resolve_column, resolve_expr, resolve_group, resolve_groups,
    resolve_pattern, term_symbol, SpecMatcher, accepts, and_chain, complete_filter, first_accepting, key_condition,
    output_context, resolve, resolve_aggregate, resolve_join, resolve_plan, resolve_projection, resolve_source,
    resolve_union, source_context, source_group, projection_outputs, aggregate_outputs, aggregate_context,
};
use crate::debug_text::{column_debug_of, expr_debug_of, field_item_debug_of, output_item_debug_of};
use crate::naming::{flat_name_of, schema_name_of, schema_of};
use crate::plan::{
    clone_columns, clone_expr, clone_exprs, clone_plan, columns_of, eq_plan, field_column, lemma_view_exprs,
    lemma_view_keys, lemma_view_plans, view_columns, view_expr, view_exprs, view_fields, view_key, view_keys,
    Callee, Column, Expr, JoinKey, Literal, Operator, Plan, QualifiedField, SpecColumn, SpecExpr, SpecJoinKey,
    SpecOperator, SpecPlan, SpecQualifiedField,
};

verus! {

broadcast use vstd::std_specs::vec::group_vec_axioms;

/// A pattern matcher that keeps its bindings: for each pattern function the concrete
/// expressions bound to it, for each abstract source the concrete plan and column
/// context bound to it, and the columns of the plan most recently resolved against.
pub struct DefaultMatcher {
    pub functions: Vec<FunctionEntry>,
    pub sources: Vec<SourceEntry>,
    pub output_schema: Vec<Column>,
}

impl View for DefaultMatcher {
    type V = SpecMatcher;

    open spec fn view(&self) -> SpecMatcher {
        SpecMatcher {
            functions: funmap_view(self.functions@),
            sources: srcmap_view(self.sources@),
            output_schema: view_columns(self.output_schema@),
        }
    }
}

// ---------------------------------------------------------------------------
// Facts about the measures and searches the matcher relies on
// ---------------------------------------------------------------------------

/// What the first index found satisfies, and that no index satisfies the predicate when
/// none is found.
pub proof fn lemma_first_index_where<A>(s: Seq<A>, p: spec_fn(A) -> bool)
    ensures
        match first_index_where(s, p) {
            Some(i) => 0 <= i < s.len() && p(s[i]),
            None => forall|k: int| 0 <= k < s.len() ==> !p(#[trigger] s[k]),
        },
    decreases s.len(),
{
    if s.len() > 0 {
        lemma_first_index_where(s.drop_last(), p);
        match first_index_where(s.drop_last(), p) {
            Some(i) => {
                assert(s.drop_last()[i] == s[i]);
            },
            None => {
                assert forall|k: int| 0 <= k < s.len() - 1 implies !p(#[trigger] s[k]) by {
                    assert(s.drop_last()[k] == s[k]);
                }
            },
        }
    }
}

pub proof fn lemma_first_index_none<A>(s: Seq<A>, p: spec_fn(A) -> bool)
    requires
        forall|k: int| 0 <= k < s.len() ==> !p(#[trigger] s[k]),
    ensures
        first_index_where(s, p) == None::<int>,
    decreases s.len(),
{
    if s.len() > 0 {
        assert forall|k: int| 0 <= k < s.drop_last().len() implies !p(#[trigger] s.drop_last()[k]) by {
            assert(s.drop_last()[k] == s[k]);
        }
        lemma_first_index_none(s.drop_last(), p);
        assert(!p(s[s.len() - 1]));
    }
}

pub proof fn lemma_first_index_found<A>(s: Seq<A>, p: spec_fn(A) -> bool, i: int)
    requires
        0 <= i < s.len(),
        p(s[i]),
        forall|k: int| 0 <= k < i ==> !p(#[trigger] s[k]),
    ensures
        first_index_where(s, p) == Some(i),
    decreases s.len(),
{
    if i < s.len() - 1 {
        assert forall|k: int| 0 <= k < i implies !p(#[trigger] s.drop_last()[k]) by {
            assert(s.drop_last()[k] == s[k]);
        }
        assert(s.drop_last()[i] == s[i]);
        lemma_first_index_found(s.drop_last(), p, i);
    } else {
        assert forall|k: int| 0 <= k < s.drop_last().len() implies !p(#[trigger] s.drop_last()[k]) by {
            assert(s.drop_last()[k] == s[k]);
        }
        lemma_first_index_none(s.drop_last(), p);
    }
}

/// Every operand of a flattened expression is no larger than the expression.
pub proof fn lemma_flatten_sizes(e: SpecExpr, op: SpecOperator)
    ensures
        forall|k: int| 0 <= k < flatten(e, op).len() ==> expr_size(#[trigger] flatten(e, op)[k]) <= expr_size(e),
        (e matches SpecExpr::Binary { op: o, .. } && o == op) ==> forall|k: int|
            0 <= k < flatten(e, op).len() ==> expr_size(#[trigger] flatten(e, op)[k]) < expr_size(e),
    decreases e,
{
    match e {
        SpecExpr::Binary { left, op: o, right } => {
            if o == op {
                lemma_flatten_sizes(*left, op);
                lemma_flatten_sizes(*right, op);
                let a = flatten(*left, op);
                let b = flatten(*right, op);
                assert forall|k: int| 0 <= k < (a + b).len() implies expr_size(#[trigger] (a + b)[k]) < expr_size(e) by {
                    if k < a.len() {
                        assert((a + b)[k] == a[k]);
                    } else {
                        assert((a + b)[k] == b[k - a.len()]);
                    }
                }
            }
        },
        _ => {},
    }
}

/// Every expression of a list is no larger than the whole list.
pub proof fn lemma_exprs_size(s: Seq<SpecExpr>)
    ensures
        forall|k: int| 0 <= k < s.len() ==> expr_size(#[trigger] s[k]) <= exprs_size(s),
    decreases s.len(),
{
    if s.len() > 0 {
        lemma_exprs_size(s.drop_first());
        assert forall|k: int| 0 <= k < s.len() implies expr_size(#[trigger] s[k]) <= exprs_size(s) by {
            if k > 0 {
                assert(s.drop_first()[k - 1] == s[k]);
            }
        }
    }
}

/// Every index in a group is an index of the assignment.
pub proof fn lemma_group_bounds(a: Seq<int>, j: int)
    ensures
        forall|k: int| 0 <= k < group(a, j).len() ==> 0 <= #[trigger] group(a, j)[k] < a.len(),
    decreases a.len(),
{
    if a.len() > 0 {
        lemma_group_bounds(a.drop_last(), j);
        let g = group(a.drop_last(), j);
        assert forall|k: int| 0 <= k < g.len() implies 0 <= #[trigger] g[k] < a.len() by {}
        if a.last() == j {
            assert forall|k: int| 0 <= k < g.push(a.len() - 1).len() implies 0 <= #[trigger] g.push(a.len() - 1)[k] < a.len() by {
                if k < g.len() {
                    assert(g.push(a.len() - 1)[k] == g[k]);
                }
            }
        }
    }
}

/// A group of a longer assignment grows by the new index if it was assigned to it.
pub proof fn lemma_group_take(a: Seq<int>, j: int, i: int)
    requires
        0 <= i < a.len(),
    ensures
        group(a.take(i + 1), j) == if a[i] == j { group(a.take(i), j).push(i) } else { group(a.take(i), j) },
{
    assert(a.take(i + 1).drop_last() =~= a.take(i));
}

pub open spec fn view_indices(v: Seq<usize>) -> Seq<int> {
    v.map_values(|x: usize| x as int)
}

pub open spec fn view_groups(v: Seq<Vec<usize>>) -> Seq<Seq<int>> {
    v.map_values(|g: Vec<usize>| view_indices(g@))
}

pub open spec fn view_partition(r: Result<Vec<Vec<usize>>, RuleError>) -> Result<Seq<Seq<int>>, SpecRuleError> {
    match r {
        Ok(g) => Ok(view_groups(g@)),
        Err(e) => Err(e@),
    }
}

// ---------------------------------------------------------------------------
// Small executable helpers
// ---------------------------------------------------------------------------

/// The first group that holds no item.
fn first_empty_group(grps: &Vec<Vec<usize>>) -> (r: Option<usize>)
    ensures
        r matches Some(j) ==> j < grps@.len(),
        view_option(r) == first_index_where(view_groups(grps@), |g: Seq<int>| g.len() == 0),
{
    let ghost v = view_groups(grps@);
    let mut i: usize = 0;
    while i < grps.len()
        invariant
            i <= grps@.len(),
            v == view_groups(grps@),
            v.len() == grps@.len(),
            forall|k: int| 0 <= k < i ==> (#[trigger] v[k]).len() != 0,
        decreases grps.len() - i,
    {
        assert(v[i as int] == view_indices(grps@[i as int]@));
        assert(v[i as int].len() == grps@[i as int]@.len());
        if grps[i].len() == 0 {
            proof {
                let pred = |g: Seq<int>| g.len() == 0;
                assert(v[i as int].len() == 0);
                lemma_first_index_found(v, pred, i as int);
            }
            return Some(i);
        }
        i += 1;
    }
    proof {
        let pred = |g: Seq<int>| g.len() == 0;
        lemma_first_index_none(v, pred);
    }
    None
}

pub open spec fn view_option(r: Option<usize>) -> Option<int> {
    match r {
        Some(j) => Some(j as int),
        None => None,
    }
}

/// What names a pattern term: the symbol it calls, or else its own name.
fn term_symbol_of(t: &Expr) -> (r: String)
    ensures
        r@ == term_symbol(t@),
{
    match t {
        Expr::ScalarFunction { func, .. } => func.name.clone(),
        Expr::AggregateFunction { func, .. } => func.name.clone(),
        _ => schema_name_of(t),
    }
}

/// Whether a list of columns holds `c`.
pub fn contains_column(v: &Vec<Column>, c: &Column) -> (r: bool)
    ensures
        r == view_columns(v@).contains(c@),
{
    let mut i: usize = 0;
    while i < v.len()
        invariant
            i <= v.len(),
            forall|k: int| 0 <= k < i ==> view_columns(v@)[k] != c@,
        decreases v.len() - i,
    {
        if v[i].same_as(c) {
            assert(view_columns(v@)[i as int] == c@);
            return true;
        }
        i += 1;
    }
    false
}

/// Matching an abstract column against a concrete one in a column context.
pub fn check_column(ctx: &ColumnMap, pc: &Column, cc: &Column) -> (r: Result<(), RuleError>)
    ensures
        view_unit(r) == resolve_column(ctx@, pc@, cc@),
{
    match ctx.get(pc) {
        None => Err(RuleError::UnboundSymbol { symbol: pc.name.clone() }),
        Some(v) => {
            if contains_column(v, cc) {
                Ok(())
            } else {
                Err(expression_mismatch(&Expr::Column(pc.clone()), &Expr::Column(cc.clone())))
            }
        },
    }
}

/// Whether some column of `pcs` lets the context stand `cc` in for it.
fn covered(ctx: &ColumnMap, pcs: &Vec<Column>, cc: &Column) -> (r: bool)
    ensures
        r == exists|j: int| 0 <= j < pcs@.len() && allows(ctx@, view_columns(pcs@)[j], cc@),
{
    let mut j: usize = 0;
    while j < pcs.len()
        invariant
            j <= pcs.len(),
            forall|k: int| 0 <= k < j ==> !allows(ctx@, #[trigger] view_columns(pcs@)[k], cc@),
        decreases pcs.len() - j,
    {
        match ctx.get(&pcs[j]) {
            Some(v) => {
                if contains_column(v, cc) {
                    assert(allows(ctx@, view_columns(pcs@)[j as int], cc@));
                    return true;
                }
            },
            None => {},
        }
        assert(!allows(ctx@, view_columns(pcs@)[j as int], cc@));
        j += 1;
    }
    false
}

/// The operands of nested applications of `op` in `e`, appended left to right.
pub fn flatten_into(e: &Expr, op: &Operator, out: &mut Vec<Expr>)
    ensures
        view_exprs(final(out)@) == view_exprs(old(out)@) + flatten(e@, op@),
    decreases e,
{
    let ghost start = view_exprs(out@);
    match e {
        Expr::Binary { left, op: o, right } => {
            if o.same_as(op) {
                flatten_into(left, op, out);
                flatten_into(right, op, out);
                assert(view_exprs(out@) =~= start + flatten(e@, op@));
                return;
            }
        },
        _ => {},
    }
    let ghost before = out@;
    out.push(clone_expr(e));
    assert(out@.drop_last() =~= before);
    assert(view_exprs(out@) =~= start + flatten(e@, op@));
}

/// `s[0] op s[1] op ...`, grouped to the left; the null literal for no expressions.
pub fn combine_exprs(s: &Vec<Expr>, op: &Operator) -> (r: Expr)
    ensures
        r@ == combine(view_exprs(s@), op@),
{
    proof { lemma_view_exprs(s@); }
    if s.len() == 0 {
        return Expr::Literal(Literal {
            value: crate::text::owned("NULL"),
            debug: crate::text::owned("NULL"),
            data_type: crate::text::owned("Null"),
        });
    }
    let mut acc = clone_expr(&s[0]);
    let mut i: usize = 1;
    proof {
        assert(view_exprs(s@).take(1) =~= seq![view_expr(s@[0])]);
    }
    while i < s.len()
        invariant
            1 <= i <= s.len(),
            view_exprs(s@).len() == s@.len(),
            forall|k: int| 0 <= k < s@.len() ==> #[trigger] view_exprs(s@)[k] == view_expr(s@[k]),
            acc@ == combine(view_exprs(s@).take(i as int), op@),
        decreases s.len() - i,
    {
        let next = clone_expr(&s[i]);
        acc = Expr::Binary { left: Box::new(acc), op: op.clone(), right: Box::new(next) };
        proof {
            let t = view_exprs(s@).take(i + 1);
            assert(t.drop_last() =~= view_exprs(s@).take(i as int));
            assert(t.last() == view_expr(s@[i as int]));
        }
        i += 1;
    }
    assert(view_exprs(s@).take(s@.len() as int) =~= view_exprs(s@));
    acc
}

/// For each of `n` patterns, the indices of the items assigned to it, in order.
fn group_indices(assign: &Vec<usize>, n: usize) -> (r: Vec<Vec<usize>>)
    ensures
        r@.len() == n,
        forall|k: int| 0 <= k < n ==> view_indices((#[trigger] r@[k])@) == group(view_indices(assign@), k),
        forall|k: int, m: int| 0 <= k < n && 0 <= m < r@[k]@.len() ==> (#[trigger] r@[k]@[m]) < assign@.len(),
{
    let ghost a = view_indices(assign@);
    let mut grps: Vec<Vec<usize>> = Vec::new();
    let mut j: usize = 0;
    while j < n
        invariant
            j <= n,
            a == view_indices(assign@),
            grps@.len() == j,
            forall|k: int| 0 <= k < j ==> view_indices((#[trigger] grps@[k])@) == group(a, k),
            forall|k: int, m: int| 0 <= k < j && 0 <= m < grps@[k]@.len() ==> (#[trigger] grps@[k]@[m]) < assign@.len(),
        decreases n - j,
    {
        let mut g: Vec<usize> = Vec::new();
        let mut t: usize = 0;
        assert(a.take(0) =~= Seq::<int>::empty());
        assert(view_indices(g@) =~= Seq::<int>::empty());
        while t < assign.len()
            invariant
                t <= assign.len(),
                a == view_indices(assign@),
                view_indices(g@) == group(a.take(t as int), j as int),
            decreases assign.len() - t,
        {
            proof { lemma_group_take(a, j as int, t as int); }
            let ghost prev = view_indices(g@);
            if assign[t] == j {
                g.push(t);
                assert(view_indices(g@) =~= prev.push(t as int));
            }
            t += 1;
        }
        assert(a.take(a.len() as int) =~= a);
        proof {
            lemma_group_bounds(a, j as int);
            assert forall|m: int| 0 <= m < g@.len() implies (#[trigger] g@[m]) < assign@.len() by {
                assert(view_indices(g@)[m] == g@[m] as int);
            }
        }
        let ghost prev = grps@;
        grps.push(g);
        assert(forall|k: int| 0 <= k < j ==> grps@[k] == prev[k]);
        j += 1;
    }
    grps
}

impl DefaultMatcher {
    /// A matcher with no bindings.
    pub fn new() -> (r: Self)
        ensures
            r@ == crate::matcher::semantics::empty_matcher(),
    {
        let r = DefaultMatcher { functions: Vec::new(), sources: Vec::new(), output_schema: Vec::new() };
        assert(view_columns(r.output_schema@) =~= Seq::empty());
        r
    }

    /// A copy of the matcher with the same bindings.
    pub fn copy(&self) -> (r: Self)
        ensures
            r@ == self@,
    {
        let mut fs: Vec<FunctionEntry> = Vec::new();
        let mut i: usize = 0;
        while i < self.functions.len()
            invariant
                i <= self.functions@.len(),
                fs@.len() == i,
                forall|j: int| 0 <= j < i ==> #[trigger] funmap_key(fs@[j]) == funmap_key(self.functions@[j])
                    && funmap_value(fs@[j]) == funmap_value(self.functions@[j]),
            decreases self.functions.len() - i,
        {
            fs.push(FunctionEntry { key: self.functions[i].key.clone(), value: clone_exprs(&self.functions[i].value) });
            i += 1;
        }
        proof { lemma_funmap_same(fs@, self.functions@); }
        let mut ss: Vec<SourceEntry> = Vec::new();
        let mut i: usize = 0;
        while i < self.sources.len()
            invariant
                i <= self.sources@.len(),
                ss@.len() == i,
                forall|j: int| 0 <= j < i ==> #[trigger] srcmap_key(ss@[j]) == srcmap_key(self.sources@[j])
                    && srcmap_value(ss@[j]) == srcmap_value(self.sources@[j]),
            decreases self.sources.len() - i,
        {
            ss.push(SourceEntry {
                key: self.sources[i].key.clone(),
                value: (clone_plan(&self.sources[i].value.0), self.sources[i].value.1.clone()),
            });
            i += 1;
        }
        proof { lemma_srcmap_same(ss@, self.sources@); }
        DefaultMatcher { functions: fs, sources: ss, output_schema: clone_columns(&self.output_schema) }
    }

    /// Records one more concrete expression for a pattern function.
    fn bind(&mut self, name: &String, c: &Expr)
        ensures
            final(self)@ == bind_function(old(self)@, name@, c@),
    {
        let mut v: Vec<Expr> = match funmap_find(&self.functions, name) {
            Some(i) => clone_exprs(&self.functions[i].value),
            None => Vec::new(),
        };
        let ghost before = v@;
        v.push(clone_expr(c));
        assert(v@.drop_last() =~= before);
        let ghost prev = self.functions@;
        self.functions.push(FunctionEntry { key: name.clone(), value: v });
        assert(self.functions@.drop_last() =~= prev);
        assert(view_exprs(before) =~= Seq::<SpecExpr>::empty() || funmap_view(prev).contains_key(name@));
    }

    /// Binds a pattern function call to a concrete expression when every column that the
    /// concrete expression uses is allowed by a column of the call.
    #[verifier::loop_isolation(false)]
    fn resolve_pattern_call(&mut self, name: &String, p: &Expr, c: &Expr, ctx: &ColumnMap) -> (r: Result<(), RuleError>)
        ensures
            (final(self)@, view_unit(r)) == resolve_pattern(old(self)@, name@, p@, c@, ctx@),
    {
        let mut pcs: Vec<Column> = Vec::new();
        collect_column_refs(p, &mut pcs);
        let mut ccs: Vec<Column> = Vec::new();
        collect_column_refs(c, &mut ccs);
        collect_outer_refs(c, &mut ccs);
        let ghost vp = view_columns(pcs@);
        let ghost vc = view_columns(ccs@);
        assert(vp =~= column_refs(p@));
        assert(vc =~= column_refs(c@) + outer_refs(c@));
        let ghost pred = |cc: SpecColumn| !(exists|j: int| 0 <= j < vp.len() && allows(ctx@, vp[j], cc));
        let mut i: usize = 0;
        while i < ccs.len()
            invariant
                i <= ccs.len(),
                vc == view_columns(ccs@),
                vp == view_columns(pcs@),
                forall|k: int| 0 <= k < i ==> !pred(#[trigger] vc[k]),
            decreases ccs.len() - i,
        {
            if !covered(ctx, &pcs, &ccs[i]) {
                proof {
                    assert(pred(vc[i as int]));
                    lemma_first_index_found(vc, pred, i as int);
                }
                return Err(RuleError::NoMatchingPattern { item: column_debug_of(&ccs[i]) });
            }
            i += 1;
        }
        proof { lemma_first_index_none(vc, pred); }
        self.bind(name, c);
        Ok(())
    }
    /// Folds all expressions bound to a pattern term into one, joined by `op`.
    fn consolidate_term(&mut self, t: &Expr, op: &Operator)
        ensures
            final(self)@ == consolidate_one(old(self)@, t@, op@),
    {
        match t {
            Expr::ScalarFunction { func, .. } => match &func.callee {
                Callee::Pattern(_) => match funmap_find(&self.functions, &func.name) {
                    Some(i) => {
                        let e = combine_exprs(&self.functions[i].value, op);
                        let mut v: Vec<Expr> = Vec::new();
                        v.push(e);
                        assert(view_exprs(v@) =~= seq![e@]) by {
                            lemma_view_exprs(v@);
                        }
                        let ghost prev = self.functions@;
                        self.functions.push(FunctionEntry { key: func.name.clone(), value: v });
                        assert(self.functions@.drop_last() =~= prev);
                    },
                    None => {},
                },
                _ => {},
            },
            _ => {},
        }
    }

    fn consolidate_terms(&mut self, terms: &Vec<Expr>, op: &Operator)
        ensures
            final(self)@ == consolidate(old(self)@, view_exprs(terms@), op@),
    {
        let ghost m0 = self@;
        let ghost st = view_exprs(terms@);
        proof { lemma_view_exprs(terms@); }
        assert(st.take(0) =~= Seq::<SpecExpr>::empty());
        let mut i: usize = 0;
        while i < terms.len()
            invariant
                i <= terms.len(),
                st == view_exprs(terms@),
                st.len() == terms@.len(),
                forall|k: int| 0 <= k < terms@.len() ==> #[trigger] st[k] == view_expr(terms@[k]),
                self@ == consolidate(m0, st.take(i as int), op@),
            decreases terms.len() - i,
        {
            self.consolidate_term(&terms[i], op);
            proof {
                let t = st.take(i + 1);
                assert(t.drop_last() =~= st.take(i as int));
                assert(t.last() == st[i as int]);
            }
            i += 1;
        }
        assert(st.take(st.len() as int) =~= st);
    }

    /// The first pattern that `item` resolves against, each tried on a copy of the bindings.
    #[verifier::loop_isolation(false)]
    fn first_matching(&self, pats: &Vec<Expr>, item: &Expr, ctx: &ColumnMap, Ghost(bound): Ghost<nat>) -> (r: Option<
        usize,
    >)
        requires
            forall|k: int| 0 <= k < pats@.len() ==> expr_size(#[trigger] view_exprs(pats@)[k]) < bound,
        ensures
            match r {
                Some(j) => j < pats@.len() && first_match(self@, view_exprs(pats@), item@, ctx@, bound, 0) == Some(
                    j as int,
                ),
                None => first_match(self@, view_exprs(pats@), item@, ctx@, bound, 0) == None::<int>,
            },
        decreases bound, 0nat, 1nat, 0nat,
    {
        let ghost sp = view_exprs(pats@);
        proof { lemma_view_exprs(pats@); }
        let mut j: usize = 0;
        while j < pats.len()
            invariant
                j <= pats.len(),
                first_match(self@, sp, item@, ctx@, bound, 0) == first_match(self@, sp, item@, ctx@, bound, j as int),
            decreases pats.len() - j,
        {
            let mut trial = self.copy();
            let res = trial.resolve_expr(&pats[j], item, ctx);
            if res.is_ok() {
                return Some(j);
            }
            j += 1;
        }
        None
    }

    /// The pattern chosen for each item, or the index of the first item that no pattern takes.
    #[verifier::loop_isolation(false)]
    fn assign_all(&self, pats: &Vec<Expr>, items: &Vec<Expr>, ctx: &ColumnMap, Ghost(bound): Ghost<nat>) -> (r: Result<
        Vec<usize>,
        usize,
    >)
        requires
            forall|k: int| 0 <= k < pats@.len() ==> expr_size(#[trigger] view_exprs(pats@)[k]) < bound,
        ensures
            match r {
                Ok(a) => assign_items(self@, view_exprs(pats@), view_exprs(items@), ctx@, bound, 0) == Ok::<
                    Seq<int>,
                    int,
                >(view_indices(a@)) && a@.len() == items@.len(),
                Err(i) => i < items@.len() && assign_items(self@, view_exprs(pats@), view_exprs(items@), ctx@, bound, 0)
                    == Err::<Seq<int>, int>(i as int),
            },
        decreases bound, 0nat, 2nat, 0nat,
    {
        let ghost m0 = self@;
        let ghost sp = view_exprs(pats@);
        let ghost si = view_exprs(items@);
        proof {
            lemma_view_exprs(pats@);
            lemma_view_exprs(items@);
        }
        let mut assign: Vec<usize> = Vec::new();
        let mut i: usize = 0;
        assert(view_indices(assign@) + Seq::<int>::empty() =~= Seq::<int>::empty());
        while i < items.len()
            invariant
                i <= items.len(),
                assign@.len() == i,
                assign_items(m0, sp, si, ctx@, bound, 0) == match assign_items(m0, sp, si, ctx@, bound, i as int) {
                    Ok(rest) => Ok(view_indices(assign@) + rest),
                    Err(k) => Err(k),
                },
            decreases items.len() - i,
        {
            match self.first_matching(pats, &items[i], ctx, Ghost(bound)) {
                None => {
                    return Err(i);
                },
                Some(jj) => {
                    let ghost prev = view_indices(assign@);
                    assign.push(jj);
                    proof {
                        assert(view_indices(assign@) =~= prev.push(jj as int));
                        match assign_items(m0, sp, si, ctx@, bound, i + 1) {
                            Ok(rest) => {
                                assert(prev + (seq![jj as int] + rest) =~= prev.push(jj as int) + rest);
                            },
                            Err(_) => {},
                        }
                    }
                },
            }
            i += 1;
        }
        assert(view_indices(assign@) + Seq::<int>::empty() =~= view_indices(assign@));
        Ok(assign)
    }

    /// Resolves the items of each group, pattern by pattern, on the matcher itself.
    #[verifier::loop_isolation(false)]
    fn replay(
        &mut self,
        pats: &Vec<Expr>,
        items: &Vec<Expr>,
        grps: &Vec<Vec<usize>>,
        ctx: &ColumnMap,
        Ghost(bound): Ghost<nat>,
        Ghost(a): Ghost<Seq<int>>,
    ) -> (r: Result<(), RuleError>)
        requires
            forall|k: int| 0 <= k < pats@.len() ==> expr_size(#[trigger] view_exprs(pats@)[k]) < bound,
            grps@.len() == pats@.len(),
            a.len() == items@.len(),
            forall|k: int| 0 <= k < pats@.len() ==> view_indices((#[trigger] grps@[k])@) == group(a, k),
        ensures
            (final(self)@, view_unit(r)) == resolve_groups(
                old(self)@,
                view_exprs(pats@),
                view_exprs(items@),
                a,
                ctx@,
                bound,
                0,
            ),
        decreases bound, 0nat, 2nat, 0nat,
    {
        let ghost m0 = self@;
        let ghost sp = view_exprs(pats@);
        let ghost si = view_exprs(items@);
        proof {
            lemma_view_exprs(pats@);
            lemma_view_exprs(items@);
        }
        let mut j: usize = 0;
        while j < pats.len()
            invariant
                j <= pats.len(),
                resolve_groups(m0, sp, si, a, ctx@, bound, 0) == resolve_groups(self@, sp, si, a, ctx@, bound, j as int),
            decreases pats.len() - j,
        {
            let ghost mj = self@;
            let g = &grps[j];
            let ghost gi = group(a, j as int);
            proof {
                lemma_group_bounds(a, j as int);
                assert(view_indices(g@) == gi);
            }
            let mut k: usize = 0;
            while k < g.len()
                invariant
                    k <= g.len(),
                    view_indices(g@) == gi,
                    resolve_group(mj, sp[j as int], si, gi, ctx@, bound, 0) == resolve_group(
                        self@,
                        sp[j as int],
                        si,
                        gi,
                        ctx@,
                        bound,
                        k as int,
                    ),
                decreases g.len() - k,
            {
                let idx = g[k];
                assert(gi[k as int] == idx as int);
                let res = self.resolve_expr(&pats[j], &items[idx], ctx);
                match res {
                    Err(e) => {
                        return Err(e);
                    },
                    Ok(_) => {},
                }
                k += 1;
            }
            j += 1;
        }
        Ok(())
    }

    /// Partitions concrete expressions among patterns: each item goes to the first pattern
    /// that it resolves against, tried on a copy of the bindings so that failed attempts
    /// leave no trace; the chosen matches are then replayed on the matcher itself.
    fn partition(
        &mut self,
        pats: &Vec<Expr>,
        items: &Vec<Expr>,
        cols: &Vec<Column>,
        ctx: &ColumnMap,
        Ghost(bound): Ghost<nat>,
    ) -> (r: Result<Vec<Vec<usize>>, RuleError>)
        requires
            forall|k: int| 0 <= k < pats@.len() ==> expr_size(#[trigger] view_exprs(pats@)[k]) < bound,
            cols@.len() == 0 || cols@.len() == items@.len(),
        ensures
            (final(self)@, view_partition(r)) == partition_exprs(
                old(self)@,
                view_exprs(pats@),
                view_exprs(items@),
                view_columns(cols@),
                ctx@,
                bound,
            ),
            match r {
                Ok(g) => g@.len() == pats@.len() && forall|j: int, m: int|
                    0 <= j < g@.len() && 0 <= m < g@[j]@.len() ==> (#[trigger] g@[j]@[m]) < items@.len(),
                Err(_) => true,
            },
        decreases bound, 0nat, 3nat, 0nat,
    {
        proof { lemma_view_exprs(items@); }
        let assign = match self.assign_all(pats, items, ctx, Ghost(bound)) {
            Err(i) => {
                let item = if cols.len() == 0 {
                    expr_debug_of(&items[i])
                } else {
                    output_item_debug_of(&cols[i], &items[i])
                };
                return Err(RuleError::NoMatchingPattern { item });
            },
            Ok(a) => a,
        };
        let grps = group_indices(&assign, pats.len());
        let ghost a = view_indices(assign@);
        assert(view_groups(grps@) =~= groups(a, view_exprs(pats@).len())) by {
            lemma_view_exprs(pats@);
        }
        match self.replay(pats, items, &grps, ctx, Ghost(bound), Ghost(a)) {
            Err(e) => Err(e),
            Ok(_) => Ok(grps),
        }
    }

    /// Matching two binary expressions. AND and OR are matched up to regrouping and order
    /// of their operands; other operators must agree and match operand by operand.
    fn resolve_binary_exprs(&mut self, p: &Expr, c: &Expr, ctx: &ColumnMap) -> (r: Result<(), RuleError>)
        ensures
            (final(self)@, view_unit(r)) == resolve_binary(old(self)@, p@, c@, ctx@),
        decreases expr_size(p@), 1nat, 0nat, 0nat,
    {
        match (p, c) {
            (Expr::Binary { left, op, right }, Expr::Binary { left: cl, op: cop, right: cr }) => {
                if op.is_and_or() {
                    let mut pts: Vec<Expr> = Vec::new();
                    flatten_into(p, op, &mut pts);
                    let mut cts: Vec<Expr> = Vec::new();
                    flatten_into(c, op, &mut cts);
                    proof {
                        assert(p@ matches SpecExpr::Binary { op: o, .. } && o == op@);
                        assert(view_exprs(pts@) =~= flatten(p@, op@));
                        assert(view_exprs(cts@) =~= flatten(c@, op@));
                        lemma_flatten_sizes(p@, op@);
                        assert forall|k: int| 0 <= k < pts@.len() implies expr_size(
                            #[trigger] view_exprs(pts@)[k],
                        ) < expr_size(p@) by {
                            lemma_view_exprs(pts@);
                            assert(view_exprs(pts@)[k] == flatten(p@, op@)[k]);
                        }
                    }
                    let no_cols: Vec<Column> = Vec::new();
                    let r = self.partition(&pts, &cts, &no_cols, ctx, Ghost(expr_size(p@)));
                    match r {
                        Err(e) => Err(e),
                        Ok(grps) => match first_empty_group(&grps) {
                            Some(j) => {
                                proof { lemma_view_exprs(pts@); }
                                Err(RuleError::UnboundSymbol { symbol: term_symbol_of(&pts[j]) })
                            },
                            None => {
                                self.consolidate_terms(&pts, op);
                                Ok(())
                            },
                        },
                    }
                } else if !op.same_as(cop) {
                    Err(expression_mismatch(p, c))
                } else {
                    assert(expr_size(left@) < expr_size(p@));
                    assert(expr_size(right@) < expr_size(p@));
                    let r1 = self.resolve_expr(left, cl, ctx);
                    match r1 {
                        Err(e) => Err(e),
                        Ok(_) => self.resolve_expr(right, cr, ctx),
                    }
                }
            },
            _ => Err(expression_mismatch(p, c)),
        }
    }

    /// Matches a pattern expression against a concrete expression in a column context,
    /// recording what each pattern function it contains stands for.
    pub fn resolve_expr(&mut self, p: &Expr, c: &Expr, ctx: &ColumnMap) -> (r: Result<(), RuleError>)
        ensures
            (final(self)@, view_unit(r)) == resolve_expr(old(self)@, p@, c@, ctx@),
        decreases expr_size(p@), 2nat, 0nat, 0nat,
    {
        match p {
            Expr::ScalarFunction { func, .. } => match &func.callee {
                Callee::Pattern(_) => self.resolve_pattern_call(&func.name, p, c, ctx),
                _ => Err(expression_mismatch(p, c)),
            },
            Expr::AggregateFunction { func, .. } => match &func.callee {
                Callee::Pattern(_) => self.resolve_pattern_call(&func.name, p, c, ctx),
                _ => Err(expression_mismatch(p, c)),
            },
            Expr::Binary { .. } => match c {
                Expr::Binary { .. } => self.resolve_binary_exprs(p, c, ctx),
                _ => Err(expression_mismatch(p, c)),
            },
            Expr::Column(pc) => match c {
                Expr::Column(cc) => check_column(ctx, pc, cc),
                _ => Err(expression_mismatch(p, c)),
            },
            Expr::Literal(pl) => match c {
                Expr::Literal(cl) => if pl.same_as(cl) {
                    Ok(())
                } else {
                    Err(expression_mismatch(p, c))
                },
                _ => Err(expression_mismatch(p, c)),
            },
            Expr::Alias { expr, .. } => {
                assert(expr_size(expr@) < expr_size(p@));
                self.resolve_expr(expr, c, ctx)
            },
            _ => Err(expression_mismatch(p, c)),
        }
    }
}

// ---------------------------------------------------------------------------
// Plan-level helpers
// ---------------------------------------------------------------------------

fn min_usize(a: usize, b: usize) -> (r: usize)
    ensures
        r == crate::matcher::semantics::min_len(a as nat, b as nat),
{
    if a <= b { a } else { b }
}

/// The first `n` columns of a list.
pub fn take_columns(v: &Vec<Column>, n: usize) -> (r: Vec<Column>)
    requires
        n <= v@.len(),
    ensures
        view_columns(r@) == view_columns(v@).take(n as int),
        r@.len() == n,
{
    let mut r: Vec<Column> = Vec::new();
    let mut i: usize = 0;
    while i < n
        invariant
            i <= n,
            n <= v@.len(),
            r@.len() == i,
            forall|k: int| 0 <= k < i ==> (#[trigger] r@[k])@ == v@[k]@,
        decreases n - i,
    {
        r.push(v[i].clone());
        i += 1;
    }
    assert(view_columns(r@) =~= view_columns(v@).take(n as int));
    r
}

/// The columns of a list after the first `n`.
pub fn skip_columns(v: &Vec<Column>, n: usize) -> (r: Vec<Column>)
    requires
        n <= v@.len(),
    ensures
        view_columns(r@) == view_columns(v@).skip(n as int),
        r@.len() == v@.len() - n,
{
    let mut r: Vec<Column> = Vec::new();
    let mut i: usize = n;
    while i < v.len()
        invariant
            n <= i <= v@.len(),
            r@.len() == i - n,
            forall|k: int| 0 <= k < i - n ==> (#[trigger] r@[k])@ == v@[k + n]@,
        decreases v.len() - i,
    {
        r.push(v[i].clone());
        i += 1;
    }
    assert(view_columns(r@) =~= view_columns(v@).skip(n as int));
    r
}

/// The first `n` expressions of a list.
pub fn take_exprs(v: &Vec<Expr>, n: usize) -> (r: Vec<Expr>)
    requires
        n <= v@.len(),
    ensures
        view_exprs(r@) == view_exprs(v@).take(n as int),
        r@.len() == n,
{
    proof { lemma_view_exprs(v@); }
    let mut r: Vec<Expr> = Vec::new();
    let mut i: usize = 0;
    while i < n
        invariant
            i <= n,
            n <= v@.len(),
            view_exprs(v@).len() == v@.len(),
            forall|k: int| 0 <= k < v@.len() ==> #[trigger] view_exprs(v@)[k] == view_expr(v@[k]),
            view_exprs(r@) == view_exprs(v@).take(i as int),
            r@.len() == i,
        decreases n - i,
    {
        let ghost prev = r@;
        r.push(clone_expr(&v[i]));
        assert(view_exprs(r@) =~= view_exprs(v@).take(i + 1)) by {
            assert(r@.drop_last() =~= prev);
        }
        i += 1;
    }
    r
}

/// The first abstract field that accepts a concrete field.
fn first_accepting_of(abs: &Vec<QualifiedField>, c: &QualifiedField) -> (r: Option<usize>)
    ensures
        match r {
            Some(j) => j < abs@.len() && first_accepting(view_fields(abs@), c@) == Some(j as int),
            None => first_accepting(view_fields(abs@), c@) == None::<int>,
        },
{
    let ghost va = view_fields(abs@);
    let ghost pred = |a: SpecQualifiedField| accepts(a, c@);
    let mut j: usize = 0;
    while j < abs.len()
        invariant
            j <= abs@.len(),
            va == view_fields(abs@),
            pred == (|a: SpecQualifiedField| accepts(a, c@)),
            forall|k: int| 0 <= k < j ==> !pred(#[trigger] va[k]),
        decreases abs.len() - j,
    {
        if abs[j].nullable || !c.nullable {
            proof { lemma_first_index_found(va, pred, j as int); }
            return Some(j);
        }
        j += 1;
    }
    proof { lemma_first_index_none(va, pred); }
    None
}

/// The concrete columns whose first accepting abstract field is field `j`, in order.
fn source_group_of(abs: &Vec<QualifiedField>, con: &Vec<QualifiedField>, j: usize) -> (r: Vec<Column>)
    ensures
        view_columns(r@) == source_group(view_fields(abs@), view_fields(con@), j as int),
{
    let ghost va = view_fields(abs@);
    let ghost vc = view_fields(con@);
    let mut g: Vec<Column> = Vec::new();
    let mut k: usize = 0;
    assert(vc.take(0) =~= Seq::<SpecQualifiedField>::empty());
    assert(view_columns(g@) =~= Seq::<SpecColumn>::empty());
    while k < con.len()
        invariant
            k <= con@.len(),
            va == view_fields(abs@),
            vc == view_fields(con@),
            view_columns(g@) == source_group(va, vc.take(k as int), j as int),
        decreases con.len() - k,
    {
        let f = first_accepting_of(abs, &con[k]);
        proof {
            let t = vc.take(k + 1);
            assert(t.drop_last() =~= vc.take(k as int));
            assert(t.last() == con@[k as int]@);
        }
        let ghost prev = g@;
        match f {
            Some(x) => {
                if x == j {
                    g.push(con[k].column());
                    assert(view_columns(g@) =~= view_columns(prev).push(field_column(con@[k as int]@)));
                }
            },
            None => {},
        }
        k += 1;
    }
    assert(vc.take(vc.len() as int) =~= vc);
    g
}

/// The column context of a source binding: each abstract column with its group.
fn source_context_of(abs: &Vec<QualifiedField>, con: &Vec<QualifiedField>) -> (r: ColumnMap)
    ensures
        r@ == source_context(view_fields(abs@), view_fields(con@), abs@.len()),
{
    let mut ctx = ColumnMap::new();
    let mut j: usize = 0;
    while j < abs.len()
        invariant
            j <= abs@.len(),
            ctx@ == source_context(view_fields(abs@), view_fields(con@), j as nat),
        decreases abs.len() - j,
    {
        let g = source_group_of(abs, con, j);
        ctx.insert(abs[j].column(), g);
        j += 1;
    }
    ctx
}

/// `s[0] AND s[1] AND ...`, grouped to the left; `true` for no conditions.
fn and_chain_of(s: &Vec<Expr>) -> (r: Expr)
    ensures
        r@ == and_chain(view_exprs(s@)),
{
    proof { lemma_view_exprs(s@); }
    if s.len() == 0 {
        return Expr::Literal(Literal {
            value: crate::text::owned("true"),
            debug: crate::text::owned("Boolean(true)"),
            data_type: crate::text::owned("Boolean"),
        });
    }
    let mut acc = clone_expr(&s[0]);
    let mut i: usize = 1;
    proof {
        assert(view_exprs(s@).take(1) =~= seq![view_expr(s@[0])]);
    }
    while i < s.len()
        invariant
            1 <= i <= s.len(),
            view_exprs(s@).len() == s@.len(),
            forall|k: int| 0 <= k < s@.len() ==> #[trigger] view_exprs(s@)[k] == view_expr(s@[k]),
            acc@ == and_chain(view_exprs(s@).take(i as int)),
        decreases s.len() - i,
    {
        let next = clone_expr(&s[i]);
        acc = Expr::Binary { left: Box::new(acc), op: Operator::And, right: Box::new(next) };
        proof {
            let t = view_exprs(s@).take(i + 1);
            assert(t.drop_last() =~= view_exprs(s@).take(i as int));
            assert(t.last() == view_expr(s@[i as int]));
        }
        i += 1;
    }
    assert(view_exprs(s@).take(s@.len() as int) =~= view_exprs(s@));
    acc
}

pub open spec fn view_filter(f: Option<Expr>) -> Option<SpecExpr> {
    match f {
        Some(e) => Some(e@),
        None => None,
    }
}

/// Each join key pair as an equality, in order.
fn key_conditions(on: &Vec<JoinKey>) -> (r: Vec<Expr>)
    ensures
        view_exprs(r@) == view_keys(on@).map_values(|k: SpecJoinKey| key_condition(k)),
{
    proof { lemma_view_keys(on@); }
    let mut conds: Vec<Expr> = Vec::new();
    let mut i: usize = 0;
    while i < on.len()
        invariant
            i <= on@.len(),
            view_keys(on@).len() == on@.len(),
            forall|k: int| 0 <= k < on@.len() ==> #[trigger] view_keys(on@)[k] == view_key(on@[k]),
            conds@.len() == i,
            forall|k: int| 0 <= k < i ==> view_expr(#[trigger] conds@[k]) == key_condition(view_keys(on@)[k]),
        decreases on.len() - i,
    {
        let e = Expr::Binary {
            left: Box::new(clone_expr(&on[i].left)),
            op: Operator::Eq,
            right: Box::new(clone_expr(&on[i].right)),
        };
        conds.push(e);
        i += 1;
    }
    proof { lemma_view_exprs(conds@); }
    assert(view_exprs(conds@) =~= view_keys(on@).map_values(|k: SpecJoinKey| key_condition(k)));
    conds
}

/// The whole condition of a join: every key pair as an equality, then the filter.
pub fn complete_filter_of(on: &Vec<JoinKey>, filter: &Option<Expr>) -> (r: Expr)
    ensures
        r@ == complete_filter(view_keys(on@), view_filter(*filter)),
{
    let mut conds = key_conditions(on);
    let ghost base = view_exprs(conds@);
    match filter {
        Some(f) => {
            let ghost prev = conds@;
            conds.push(clone_expr(f));
            assert(view_exprs(conds@) =~= base + seq![f@]) by {
                assert(conds@.drop_last() =~= prev);
            }
        },
        None => {
            assert(view_exprs(conds@) =~= base + Seq::<SpecExpr>::empty());
        },
    }
    and_chain_of(&conds)
}

/// The output context of a projection or aggregate: pattern output column `j` stands for
/// the concrete output columns of the items of group `j`.
#[verifier::loop_isolation(false)]
fn output_context_of(
    pexprs: &Vec<Expr>,
    pcols: &Vec<Column>,
    grps: &Vec<Vec<usize>>,
    ccols: &Vec<Column>,
    ctx: &ColumnMap,
    validate: bool,
    acc: ColumnMap,
) -> (r: Result<ColumnMap, RuleError>)
    requires
        forall|j: int, k: int| 0 <= j < grps@.len() && 0 <= k < grps@[j]@.len() ==> (#[trigger] grps@[j]@[k]) < ccols@.len(),
    ensures
        view_result(r) == output_context(
            view_exprs(pexprs@),
            view_columns(pcols@),
            view_groups(grps@),
            view_columns(ccols@),
            ctx@,
            validate,
            acc@,
            0,
        ),
{
    let ghost se = view_exprs(pexprs@);
    let ghost sc = view_columns(pcols@);
    let ghost sg = view_groups(grps@);
    let ghost scc = view_columns(ccols@);
    let ghost acc0 = acc@;
    proof { lemma_view_exprs(pexprs@); }
    let mut acc = acc;
    let mut j: usize = 0;
    while j < pcols.len() && j < grps.len() && j < pexprs.len()
        invariant
            output_context(se, sc, sg, scc, ctx@, validate, acc0, 0) == output_context(
                se,
                sc,
                sg,
                scc,
                ctx@,
                validate,
                acc@,
                j as int,
            ),
        decreases pcols.len() - j,
    {
        let g = &grps[j];
        let mut cols: Vec<Column> = Vec::new();
        let mut k: usize = 0;
        while k < g.len()
            invariant
                k <= g@.len(),
                cols@.len() == k,
                forall|m: int| 0 <= m < k ==> (#[trigger] cols@[m])@ == scc[g@[m] as int],
            decreases g.len() - k,
        {
            let idx = g[k];
            cols.push(ccols[idx].clone());
            k += 1;
        }
        let ghost gcols = sg[j as int].map_values(|i: int| scc[i]);
        assert(view_columns(cols@) =~= gcols);
        match &pexprs[j] {
            Expr::Column(pc) => {
                if validate {
                    match ctx.get(pc) {
                        None => {
                            return Err(RuleError::UnboundSymbol { symbol: pc.name.clone() });
                        },
                        Some(v) => {
                            if !crate::plan::eq_columns(&cols, v) {
                                return Err(RuleError::UnboundSymbol { symbol: pc.name.clone() });
                            }
                        },
                    }
                }
            },
            _ => {},
        }
        acc.insert(pcols[j].clone(), cols);
        j += 1;
    }
    Ok(acc)
}

/// The output context of an aggregate from the groups of its group and aggregate expressions.
fn aggregate_context_of(
    pg: &Vec<Expr>,
    pa: &Vec<Expr>,
    ps: &Vec<QualifiedField>,
    ggrps: &Vec<Vec<usize>>,
    agrps: &Vec<Vec<usize>>,
    gcols: &Vec<Column>,
    acols: &Vec<Column>,
    ctx: &ColumnMap,
) -> (r: Result<ColumnMap, RuleError>)
    requires
        forall|j: int, k: int| 0 <= j < ggrps@.len() && 0 <= k < ggrps@[j]@.len() ==> (#[trigger] ggrps@[j]@[k]) < gcols@.len(),
        forall|j: int, k: int| 0 <= j < agrps@.len() && 0 <= k < agrps@[j]@.len() ==> (#[trigger] agrps@[j]@[k]) < acols@.len(),
    ensures
        view_result(r) == aggregate_context(
            view_exprs(pg@),
            view_exprs(pa@),
            view_fields(ps@),
            view_groups(ggrps@),
            view_groups(agrps@),
            view_columns(gcols@),
            view_columns(acols@),
            ctx@,
        ),
{
    let pcols = columns_of(ps);
    assert(view_columns(pcols@).len() == ps@.len());
    proof { lemma_view_exprs(pg@); }
    let psplit = min_usize(pg.len(), pcols.len());
    let gpcols = take_columns(&pcols, psplit);
    let apcols = skip_columns(&pcols, psplit);
    let out = match output_context_of(pg, &gpcols, ggrps, gcols, ctx, true, ColumnMap::new()) {
        Err(e) => {
            return Err(e);
        },
        Ok(o) => o,
    };
    output_context_of(pa, &apcols, agrps, acols, ctx, false, out)
}

impl DefaultMatcher {
    /// Binds an abstract source to a concrete plan: every concrete field must be accepted
    /// by some abstract field, and a source bound before must be bound to the same plan.
    #[verifier::loop_isolation(false)]
    fn resolve_source_plan(&mut self, p: &Plan, c: &Plan) -> (r: Result<ColumnMap, RuleError>)
        ensures
            p@ matches SpecPlan::Source(s) ==> (final(self)@, view_result(r)) == resolve_source(old(self)@, s, c@),
    {
        match p {
            Plan::Source(s) => {
                let name = &s.table_name;
                match srcmap_find(&self.sources, name) {
                    Some(i) => {
                        if !eq_plan(&self.sources[i].value.0, c) {
                            return Err(RuleError::InconsistentBinding {
                                symbol: name.clone(),
                                details: BindingConflict::Plan {
                                    previous: Box::new(clone_plan(&self.sources[i].value.0)),
                                    attempted: Box::new(clone_plan(c)),
                                },
                            });
                        }
                    },
                    None => {},
                }
                let abs = schema_of(p);
                let con = schema_of(c);
                let ghost va = view_fields(abs@);
                let ghost vc = view_fields(con@);
                let ghost pred = |f: SpecQualifiedField| first_accepting(va, f) is None;
                let mut i: usize = 0;
                while i < con.len()
                    invariant
                        i <= con@.len(),
                        forall|k: int| 0 <= k < i ==> !pred(#[trigger] vc[k]),
                    decreases con.len() - i,
                {
                    match first_accepting_of(&abs, &con[i]) {
                        None => {
                            proof { lemma_first_index_found(vc, pred, i as int); }
                            return Err(RuleError::NoMatchingPattern { item: field_item_debug_of(&con[i]) });
                        },
                        Some(_) => {},
                    }
                    i += 1;
                }
                proof { lemma_first_index_none(vc, pred); }
                let ctx = source_context_of(&abs, &con);
                let ghost prev = self.sources@;
                self.sources.push(SourceEntry { key: name.clone(), value: (clone_plan(c), ctx.clone()) });
                assert(self.sources@.drop_last() =~= prev);
                Ok(ctx)
            },
            _ => Err(structure_mismatch(p, c)),
        }
    }

    fn projection_outputs_of(
        &mut self,
        pe: &Vec<Expr>,
        ps: &Vec<QualifiedField>,
        ce: &Vec<Expr>,
        cs: &Vec<QualifiedField>,
        ctx: &ColumnMap,
    ) -> (r: Result<ColumnMap, RuleError>)
        ensures
            (final(self)@, view_result(r)) == projection_outputs(
                old(self)@,
                view_exprs(pe@),
                view_fields(ps@),
                view_exprs(ce@),
                view_fields(cs@),
                ctx@,
            ),
    {
        proof {
            lemma_view_exprs(ce@);
            lemma_view_exprs(pe@);
            lemma_exprs_size(view_exprs(pe@));
        }
        let n = min_usize(cs.len(), ce.len());
        let all_cols = columns_of(cs);
        assert(view_columns(all_cols@).len() == cs@.len());
        let ccols = take_columns(&all_cols, n);
        let citems = take_exprs(ce, n);
        let grps = match self.partition(pe, &citems, &ccols, ctx, Ghost(exprs_size(view_exprs(pe@)) + 1)) {
            Err(e) => {
                return Err(e);
            },
            Ok(g) => g,
        };
        let pcols = columns_of(ps);
        output_context_of(pe, &pcols, &grps, &ccols, ctx, true, ColumnMap::new())
    }

    fn resolve_projection_plan(&mut self, p: &Plan, c: &Plan) -> (r: Result<ColumnMap, RuleError>)
        ensures
            (final(self)@, view_result(r)) == resolve_projection(old(self)@, p@, c@),
        decreases p, 0nat,
    {
        match (p, c) {
            (
                Plan::Projection { exprs: pe, input: pi, schema: ps },
                Plan::Projection { exprs: ce, input: ci, schema: cs },
            ) => {
                let ctx = match self.resolve_plan(pi, ci) {
                    Err(e) => {
                        return Err(e);
                    },
                    Ok(x) => x,
                };
                self.projection_outputs_of(pe, ps, ce, cs, &ctx)
            },
            _ => Err(structure_mismatch(p, c)),
        }
    }

    fn aggregate_outputs_of(
        &mut self,
        pg: &Vec<Expr>,
        pa: &Vec<Expr>,
        ps: &Vec<QualifiedField>,
        cg: &Vec<Expr>,
        ca: &Vec<Expr>,
        cs: &Vec<QualifiedField>,
        ctx: &ColumnMap,
    ) -> (r: Result<ColumnMap, RuleError>)
        ensures
            (final(self)@, view_result(r)) == aggregate_outputs(
                old(self)@,
                view_exprs(pg@),
                view_exprs(pa@),
                view_fields(ps@),
                view_exprs(cg@),
                view_exprs(ca@),
                view_fields(cs@),
                ctx@,
            ),
    {
        proof {
            lemma_view_exprs(cg@);
            lemma_view_exprs(ca@);
            lemma_view_exprs(pg@);
            lemma_view_exprs(pa@);
            lemma_exprs_size(view_exprs(pg@));
            lemma_exprs_size(view_exprs(pa@));
        }
        let ccols = columns_of(cs);
        assert(view_columns(ccols@).len() == cs@.len());
        let gsplit = min_usize(cg.len(), ccols.len());
        let gn = min_usize(gsplit, cg.len());
        let gcols = take_columns(&ccols, gn);
        let acols_all = skip_columns(&ccols, gsplit);
        let an = min_usize(acols_all.len(), ca.len());
        let acols = take_columns(&acols_all, an);
        let gitems = take_exprs(cg, gn);
        let aitems = take_exprs(ca, an);
        let ggrps = match self.partition(pg, &gitems, &gcols, ctx, Ghost(exprs_size(view_exprs(pg@)) + 1)) {
            Err(e) => {
                return Err(e);
            },
            Ok(g) => g,
        };
        let agrps = match self.partition(pa, &aitems, &acols, ctx, Ghost(exprs_size(view_exprs(pa@)) + 1)) {
            Err(e) => {
                return Err(e);
            },
            Ok(g) => g,
        };
        aggregate_context_of(pg, pa, ps, &ggrps, &agrps, &gcols, &acols, ctx)
    }

    fn resolve_aggregate_plan(&mut self, p: &Plan, c: &Plan) -> (r: Result<ColumnMap, RuleError>)
        ensures
            (final(self)@, view_result(r)) == resolve_aggregate(old(self)@, p@, c@),
        decreases p, 0nat,
    {
        match (p, c) {
            (
                Plan::Aggregate { input: pi, group_exprs: pg, aggr_exprs: pa, schema: ps },
                Plan::Aggregate { input: ci, group_exprs: cg, aggr_exprs: ca, schema: cs },
            ) => {
                let ctx = match self.resolve_plan(pi, ci) {
                    Err(e) => {
                        return Err(e);
                    },
                    Ok(x) => x,
                };
                self.aggregate_outputs_of(pg, pa, ps, cg, ca, cs, &ctx)
            },
            _ => Err(structure_mismatch(p, c)),
        }
    }

    fn resolve_join_plan(&mut self, p: &Plan, c: &Plan) -> (r: Result<ColumnMap, RuleError>)
        ensures
            (final(self)@, view_result(r)) == resolve_join(old(self)@, p@, c@),
        decreases p, 0nat,
    {
        match (p, c) {
            (
                Plan::Join { left: pl, right: pr, on: pon, filter: pf, join_type: pj, .. },
                Plan::Join { left: cl, right: cr, on: con, filter: cf, join_type: cj, .. },
            ) => {
                if !pj.same_as(cj) {
                    return Err(structure_mismatch(p, c));
                }
                let lctx = match self.resolve_plan(pl, cl) {
                    Err(e) => {
                        return Err(e);
                    },
                    Ok(x) => x,
                };
                let rctx = match self.resolve_plan(pr, cr) {
                    Err(e) => {
                        return Err(e);
                    },
                    Ok(x) => x,
                };
                let mut merged = lctx.clone();
                merged.extend(&rctx);
                let pfull = complete_filter_of(pon, pf);
                let cfull = complete_filter_of(con, cf);
                match self.resolve_expr(&pfull, &cfull, &merged) {
                    Err(e) => Err(e),
                    Ok(_) => Ok(merged),
                }
            },
            _ => Err(structure_mismatch(p, c)),
        }
    }

    fn resolve_union_plan(&mut self, p: &Plan, c: &Plan) -> (r: Result<ColumnMap, RuleError>)
        ensures
            (final(self)@, view_result(r)) == resolve_union(old(self)@, p@, c@),
        decreases p, 0nat,
    {
        match (p, c) {
            (Plan::Union { inputs: pin, .. }, Plan::Union { inputs: cin, .. }) => {
                proof {
                    lemma_view_plans(pin@);
                    lemma_view_plans(cin@);
                }
                if pin.len() != 2 || cin.len() != 2 {
                    return Err(structure_mismatch(p, c));
                }
                proof {
                    assert(decreases_to!(pin => pin[0]));
                    assert(decreases_to!(pin => pin[1]));
                }
                let lctx = match self.resolve_plan(&pin[0], &cin[0]) {
                    Err(e) => {
                        return Err(e);
                    },
                    Ok(x) => x,
                };
                let rctx = match self.resolve_plan(&pin[1], &cin[1]) {
                    Err(e) => {
                        return Err(e);
                    },
                    Ok(x) => x,
                };
                let mut merged = lctx;
                merged.extend(&rctx);
                Ok(merged)
            },
            _ => Err(structure_mismatch(p, c)),
        }
    }

    /// Matches a pattern plan against a concrete plan, giving the column context of the
    /// pattern's output.
    pub fn resolve_plan(&mut self, p: &Plan, c: &Plan) -> (r: Result<ColumnMap, RuleError>)
        ensures
            (final(self)@, view_result(r)) == resolve_plan(old(self)@, p@, c@),
        decreases p, 1nat,
    {
        match p {
            Plan::Source(_) => self.resolve_source_plan(p, c),
            Plan::Empty(inner) => match c {
                Plan::EmptyRelation { .. } => self.resolve_plan(inner, c),
                _ => Err(structure_mismatch(p, c)),
            },
            Plan::Filter { predicate, input } => match c {
                Plan::Filter { predicate: cp, input: ci } => {
                    let ctx = match self.resolve_plan(input, ci) {
                        Err(e) => {
                            return Err(e);
                        },
                        Ok(x) => x,
                    };
                    match self.resolve_expr(predicate, cp, &ctx) {
                        Err(e) => Err(e),
                        Ok(_) => Ok(ctx),
                    }
                },
                _ => Err(structure_mismatch(p, c)),
            },
            Plan::Projection { .. } => match c {
                Plan::Projection { .. } => self.resolve_projection_plan(p, c),
                _ => Err(structure_mismatch(p, c)),
            },
            Plan::Aggregate { .. } => match c {
                Plan::Aggregate { .. } => self.resolve_aggregate_plan(p, c),
                _ => Err(structure_mismatch(p, c)),
            },
            Plan::Join { .. } => match c {
                Plan::Join { .. } => self.resolve_join_plan(p, c),
                _ => Err(structure_mismatch(p, c)),
            },
            Plan::Union { .. } => match c {
                Plan::Union { .. } => self.resolve_union_plan(p, c),
                _ => Err(structure_mismatch(p, c)),
            },
            _ => Err(structure_mismatch(p, c)),
        }
    }

    /// Resolves a rule's pattern against a concrete plan: records the plan's output
    /// columns, then matches the pattern.
    pub fn resolve_root(&mut self, pattern: &Plan, concrete: &Plan) -> (r: Result<(), RuleError>)
        ensures
            (final(self)@, view_unit(r)) == resolve(old(self)@, pattern@, concrete@),
    {
        let fields = schema_of(concrete);
        self.output_schema = columns_of(&fields);
        match self.resolve_plan(pattern, concrete) {
            Ok(_) => Ok(()),
            Err(e) => Err(e),
        }
    }
}

} // verus!
