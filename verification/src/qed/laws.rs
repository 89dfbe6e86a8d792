//! What serializing keeps of the tables it collects: tables are only ever added, the
//! ones met earlier keep their index, and no name is listed twice. Both queries of a pair
//! therefore index one list of schemas.
use vstd::prelude::*;
use crate::matcher::default::lemma_first_index_where;
use crate::matcher::semantics::first_index_where;
use crate::plan::{SpecExpr, SpecJoinKey, SpecOperator, SpecPlan, SpecQualifiedField, SpecWhenThen};
use crate::naming::op_text;
use crate::qed::json::SpecJson;
use crate::qed::semantics::{
    plan_display, scan_node, RelResult, SpecQedError, qed_bound, binary_type, qed_pair, qed_schema, qed_case, qed_expr, qed_exprs, qed_function, qed_functions, qed_group_key, qed_group_keys, qed_keys,
    qed_operator, qed_pair_run, qed_rel, qed_rels, resolve_table, table_named, Tables,
};

verus! {

/// No table name is listed twice.
pub open spec fn distinct_names(t: Tables) -> bool {
    forall|i: int, j: int| #![trigger t[i], t[j]] 0 <= i < j < t.len() ==> t[i].0 != t[j].0
}

/// `b` keeps every table of `a` at its index, and keeps names distinct if `a` had them so.
pub open spec fn grows(a: Tables, b: Tables) -> bool {
    &&& a.len() <= b.len()
    &&& forall|i: int| 0 <= i < a.len() ==> #[trigger] b[i] == a[i]
    &&& distinct_names(a) ==> distinct_names(b)
}

proof fn lemma_grows_refl(a: Tables)
    ensures
        grows(a, a),
{
}

proof fn lemma_grows_trans(a: Tables, b: Tables, c: Tables)
    requires
        grows(a, b),
        grows(b, c),
    ensures
        grows(a, c),
{
    assert forall|i: int| 0 <= i < a.len() implies #[trigger] c[i] == a[i] by {
        assert(b[i] == a[i]);
    }
}


/// Looking a table up adds it only when its name is new; the index returned is that of
/// the table with the name.
pub proof fn lemma_resolve_table(t: Tables, name: Seq<char>, fields: Seq<SpecQualifiedField>)
    ensures
        grows(t, resolve_table(t, name, fields).0),
        resolve_table(t, name, fields).1 < resolve_table(t, name, fields).0.len(),
        resolve_table(t, name, fields).0[resolve_table(t, name, fields).1 as int].0 == name,
        first_index_where(t, table_named(name)) is Some ==> resolve_table(t, name, fields).0 == t,
{
    lemma_first_index_where(t, table_named(name));
    match first_index_where(t, table_named(name)) {
        Some(i) => {},
        None => {
            let t2 = t.push((name, fields));
            if distinct_names(t) {
                assert forall|i: int, j: int| #![trigger t2[i], t2[j]] 0 <= i < j < t2.len() implies t2[i].0 != t2[j].0 by {
                    if j == t.len() {
                        assert(!table_named(name)(t[i]));
                    } else {
                        assert(t2[i] == t[i] && t2[j] == t[j]);
                    }
                }
            }
        },
    }
}

proof fn lemma_expr(t: Tables, e: SpecExpr, g: Seq<SpecQualifiedField>, l: Seq<SpecQualifiedField>)
    ensures
        grows(t, qed_expr(t, e, g, l).0),
    decreases e, 1nat,
{
    match e {
        SpecExpr::ScalarFunction { args, .. } => lemma_exprs(t, args, g, l),
        SpecExpr::Binary { left, op, right } => {
            if qed_operator(op) is Some {
                lemma_expr(t, *left, g, l);
                let (t1, r1) = qed_expr(t, *left, g, l);
                if r1 is Ok {
                    lemma_expr(t1, *right, g, l);
                    lemma_grows_trans(t, t1, qed_expr(t1, *right, g, l).0);
                }
            }
        },
        SpecExpr::Alias { expr, .. } => lemma_expr(t, *expr, g, l),
        SpecExpr::Cast { expr, .. } => lemma_expr(t, *expr, g, l),
        SpecExpr::Exists { subquery, .. } => lemma_rel(t, *subquery.plan, g + l),
        SpecExpr::ScalarSubquery(q) => lemma_rel(t, *q.plan, g + l),
        SpecExpr::InList { expr, list, .. } => {
            lemma_expr(t, *expr, g, l);
            let (t1, r1) = qed_expr(t, *expr, g, l);
            if r1 is Ok {
                lemma_exprs(t1, list, g, l);
                lemma_grows_trans(t, t1, qed_exprs(t1, list, g, l).0);
            }
        },
        SpecExpr::Like(lk) => {
            lemma_expr(t, *lk.expr, g, l);
            let (t1, r1) = qed_expr(t, *lk.expr, g, l);
            if r1 is Ok {
                lemma_expr(t1, *lk.pattern, g, l);
                lemma_grows_trans(t, t1, qed_expr(t1, *lk.pattern, g, l).0);
            }
        },
        SpecExpr::Unary(_, inner) => lemma_expr(t, *inner, g, l),
        SpecExpr::Between { expr, low, high, .. } => {
            lemma_expr(t, *expr, g, l);
            let (t1, r1) = qed_expr(t, *expr, g, l);
            if r1 is Ok {
                lemma_expr(t1, *low, g, l);
                let (t2, r2) = qed_expr(t1, *low, g, l);
                lemma_grows_trans(t, t1, t2);
                if r2 is Ok {
                    lemma_expr(t2, *high, g, l);
                    lemma_grows_trans(t, t2, qed_expr(t2, *high, g, l).0);
                }
            }
        },
        SpecExpr::Case { arms, else_expr, .. } => {
            let (t1, r1) = match else_expr {
                Some(el) => qed_expr(t, *el, g, l),
                None => (t, Ok(crate::qed::semantics::op_node("null"@, Seq::empty(), "NULL"@))),
            };
            match else_expr {
                Some(el) => lemma_expr(t, *el, g, l),
                None => {},
            }
            match r1 {
                Ok(acc) => {
                    lemma_case(t1, arms, g, l, acc);
                    lemma_grows_trans(t, t1, qed_case(t1, arms, g, l, acc).0);
                },
                Err(_) => {},
            }
        },
        SpecExpr::InSubquery { expr, subquery, .. } => {
            lemma_expr(t, *expr, g, l);
            let (t1, r1) = qed_expr(t, *expr, g, l);
            if r1 is Ok {
                lemma_rel(t1, *subquery.plan, g + l);
                lemma_grows_trans(t, t1, qed_rel(t1, *subquery.plan, g + l).0);
            }
        },
        _ => {},
    }
}

proof fn lemma_case(t: Tables, arms: Seq<SpecWhenThen>, g: Seq<SpecQualifiedField>, l: Seq<SpecQualifiedField>, acc: SpecJson)
    ensures
        grows(t, qed_case(t, arms, g, l, acc).0),
    decreases arms, 1nat,
{
    if arms.len() > 0 {
        lemma_expr(t, arms.last().condition, g, l);
        let (t1, r1) = qed_expr(t, arms.last().condition, g, l);
        if let Ok(w) = r1 {
            lemma_expr(t1, arms.last().result, g, l);
            let (t2, r2) = qed_expr(t1, arms.last().result, g, l);
            lemma_grows_trans(t, t1, t2);
            if let Ok(th) = r2 {
                let next = crate::qed::semantics::op_node("CASE"@, seq![w, th, acc], "INTEGER"@);
                lemma_case(t2, arms.drop_last(), g, l, next);
                lemma_grows_trans(t, t2, qed_case(t2, arms.drop_last(), g, l, next).0);
            }
        }
    }
}

proof fn lemma_exprs(t: Tables, s: Seq<SpecExpr>, g: Seq<SpecQualifiedField>, l: Seq<SpecQualifiedField>)
    ensures
        grows(t, qed_exprs(t, s, g, l).0),
    decreases s, 1nat,
{
    if s.len() > 0 {
        lemma_exprs(t, s.drop_last(), g, l);
        let (t1, r1) = qed_exprs(t, s.drop_last(), g, l);
        if r1 is Ok {
            lemma_expr(t1, s.last(), g, l);
            lemma_grows_trans(t, t1, qed_expr(t1, s.last(), g, l).0);
        }
    }
}

proof fn lemma_keys(t: Tables, s: Seq<SpecJoinKey>, g: Seq<SpecQualifiedField>, l: Seq<SpecQualifiedField>)
    ensures
        grows(t, qed_keys(t, s, g, l).0),
    decreases s, 1nat,
{
    if s.len() > 0 {
        lemma_keys(t, s.drop_last(), g, l);
        let (t1, r1) = qed_keys(t, s.drop_last(), g, l);
        if r1 is Ok {
            lemma_expr(t1, s.last().left, g, l);
            let (t2, r2) = qed_expr(t1, s.last().left, g, l);
            lemma_grows_trans(t, t1, t2);
            if r2 is Ok {
                lemma_expr(t2, s.last().right, g, l);
                lemma_grows_trans(t, t2, qed_expr(t2, s.last().right, g, l).0);
            }
        }
    }
}

proof fn lemma_group_key(t: Tables, e: SpecExpr, g: Seq<SpecQualifiedField>, l: Seq<SpecQualifiedField>)
    ensures
        grows(t, qed_group_key(t, e, g, l).0),
    decreases e, 2nat,
{
    let inner = crate::qed::semantics::unaliased(e);
    if inner is Column || inner is ScalarFunction {
        lemma_expr(t, inner, g, l);
    }
}

proof fn lemma_group_keys(t: Tables, s: Seq<SpecExpr>, g: Seq<SpecQualifiedField>, l: Seq<SpecQualifiedField>)
    ensures
        grows(t, qed_group_keys(t, s, g, l).0),
    decreases s, 1nat,
{
    if s.len() > 0 {
        lemma_group_keys(t, s.drop_last(), g, l);
        let (t1, r1) = qed_group_keys(t, s.drop_last(), g, l);
        if r1 is Ok {
            lemma_group_key(t1, s.last(), g, l);
            lemma_grows_trans(t, t1, qed_group_key(t1, s.last(), g, l).0);
        }
    }
}

proof fn lemma_function(t: Tables, e: SpecExpr, g: Seq<SpecQualifiedField>, l: Seq<SpecQualifiedField>)
    ensures
        grows(t, qed_function(t, e, g, l).0),
    decreases e, 2nat,
{
    match crate::qed::semantics::unaliased(e) {
        SpecExpr::AggregateFunction { params, .. } => lemma_exprs(t, params.args, g, l),
        _ => {},
    }
}

proof fn lemma_functions(t: Tables, s: Seq<SpecExpr>, g: Seq<SpecQualifiedField>, l: Seq<SpecQualifiedField>)
    ensures
        grows(t, qed_functions(t, s, g, l).0),
    decreases s, 1nat,
{
    if s.len() > 0 {
        lemma_functions(t, s.drop_last(), g, l);
        let (t1, r1) = qed_functions(t, s.drop_last(), g, l);
        if r1 is Ok {
            lemma_function(t1, s.last(), g, l);
            lemma_grows_trans(t, t1, qed_function(t1, s.last(), g, l).0);
        }
    }
}

proof fn lemma_bound(t: Tables, b: Option<Box<SpecExpr>>, g: Seq<SpecQualifiedField>, l: Seq<SpecQualifiedField>)
    ensures
        grows(t, qed_bound(t, b, g, l).0),
    decreases b, 1nat,
{
    match b {
        Some(x) => lemma_expr(t, *x, g, l),
        None => {},
    }
}

proof fn lemma_rels(t: Tables, s: Seq<SpecPlan>, g: Seq<SpecQualifiedField>)
    ensures
        grows(t, qed_rels(t, s, g).0),
    decreases s, 1nat,
{
    if s.len() > 0 {
        lemma_rels(t, s.drop_last(), g);
        let (t1, r1) = qed_rels(t, s.drop_last(), g);
        if r1 is Ok {
            lemma_rel(t1, s.last(), g);
            lemma_grows_trans(t, t1, qed_rel(t1, s.last(), g).0);
        }
    }
}

proof fn lemma_rel(t: Tables, p: SpecPlan, g: Seq<SpecQualifiedField>)
    ensures
        grows(t, qed_rel(t, p, g).0),
    decreases p, 1nat,
{
    match p {
        SpecPlan::Source(s) => lemma_resolve_table(t, s.table_name, crate::naming::plan_schema(p)),
        SpecPlan::TableScan { table_name, schema } => lemma_resolve_table(t, table_name, schema),
        SpecPlan::Filter { predicate, input } => {
            lemma_rel(t, *input, g);
            let (t1, r1) = qed_rel(t, *input, g);
            if let Ok((_, cols)) = r1 {
                lemma_expr(t1, predicate, g, cols);
                lemma_grows_trans(t, t1, qed_expr(t1, predicate, g, cols).0);
            }
        },
        SpecPlan::Projection { exprs, input, .. } => {
            lemma_rel(t, *input, g);
            let (t1, r1) = qed_rel(t, *input, g);
            if let Ok((_, cols)) = r1 {
                lemma_exprs(t1, exprs, g, cols);
                lemma_grows_trans(t, t1, qed_exprs(t1, exprs, g, cols).0);
            }
        },
        SpecPlan::Join { left, right, on, filter, .. } => {
            lemma_rel(t, *left, g);
            let (t1, r1) = qed_rel(t, *left, g);
            if let Ok((_, lcols)) = r1 {
                lemma_rel(t1, *right, g);
                let (t2, r2) = qed_rel(t1, *right, g);
                lemma_grows_trans(t, t1, t2);
                if let Ok((_, rcols)) = r2 {
                    let local = lcols + rcols;
                    match filter {
                        Some(f) => {
                            lemma_expr(t2, f, g, local);
                            lemma_grows_trans(t, t2, qed_expr(t2, f, g, local).0);
                        },
                        None => if on.len() > 0 {
                            lemma_keys(t2, on, g, local);
                            lemma_grows_trans(t, t2, qed_keys(t2, on, g, local).0);
                        },
                    }
                }
            }
        },
        SpecPlan::Aggregate { input, group_exprs, aggr_exprs, .. } => {
            lemma_rel(t, *input, g);
            let (t1, r1) = qed_rel(t, *input, g);
            if let Ok((_, cols)) = r1 {
                lemma_group_keys(t1, group_exprs, g, cols);
                let (t2, r2) = qed_group_keys(t1, group_exprs, g, cols);
                lemma_grows_trans(t, t1, t2);
                if r2 is Ok {
                    lemma_functions(t2, aggr_exprs, g, cols);
                    lemma_grows_trans(t, t2, qed_functions(t2, aggr_exprs, g, cols).0);
                }
            }
        },
        SpecPlan::Union { inputs, .. } => lemma_rels(t, inputs, g),
        SpecPlan::Subquery(q) => lemma_rel(t, *q.plan, g),
        SpecPlan::SubqueryAlias { input, .. } => lemma_rel(t, *input, g),
        SpecPlan::Sort { input, .. } => lemma_rel(t, *input, g),
        SpecPlan::Limit { skip, fetch, input } => {
            let inner = match *input {
                SpecPlan::Sort { input: si, .. } => *si,
                _ => *input,
            };
            lemma_rel(t, inner, g);
            let (t1, r1) = qed_rel(t, inner, g);
            if let Ok((_, cols)) = r1 {
                lemma_bound(t1, skip, g, cols);
                let (t2, r2) = qed_bound(t1, skip, g, cols);
                lemma_grows_trans(t, t1, t2);
                if r2 is Ok {
                    lemma_bound(t2, fetch, g, cols);
                    lemma_grows_trans(t, t2, qed_bound(t2, fetch, g, cols).0);
                }
            }
        },
        _ => {},
    }
}

/// Serializing a plan only adds tables: every table met before keeps its index, and if
/// no name was listed twice, none is afterwards.
pub proof fn lemma_serializing_only_adds_tables(t: Tables, p: SpecPlan, g: Seq<SpecQualifiedField>)
    ensures
        grows(t, qed_rel(t, p, g).0),
{
    lemma_rel(t, p, g);
}

/// The table name a plan reads directly, if it is a scan of a table.
pub open spec fn scanned_table(p: SpecPlan) -> Option<Seq<char>> {
    match p {
        SpecPlan::Source(s) => Some(s.table_name),
        SpecPlan::TableScan { table_name, .. } => Some(table_name),
        _ => None,
    }
}

/// The plan kinds that the format has no node for.
pub open spec fn unserializable_kind(p: SpecPlan) -> bool {
    p is EmptyRelation || p is Distinct || p is Other
}

/// The index a table name has in a list, or the list's length if it is not there yet.
pub open spec fn table_index(t: Tables, name: Seq<char>) -> nat {
    match first_index_where(t, table_named(name)) {
        Some(i) => i as nat,
        None => t.len(),
    }
}

/// Table indices are stable while a plan is serialized. Starting from a table list that
/// names no table twice, the list afterwards still names none twice and keeps the earlier
/// tables, in order, as its beginning. A scan of a table serializes to `{"scan": i}`, where
/// entry `i` of the list afterwards has the table's name and `i` is the index the name
/// already had if it had one, so scans of equal names get equal indices. A plan kind the
/// format has no node for stops with `UnsupportedPlan` and adds no table.
pub proof fn lemma_table_indices_stable(t: Tables, p: SpecPlan, g: Seq<SpecQualifiedField>)
    requires
        distinct_names(t),
    ensures
        distinct_names(qed_rel(t, p, g).0),
        t.len() <= qed_rel(t, p, g).0.len(),
        qed_rel(t, p, g).0.subrange(0, t.len() as int) == t,
        scanned_table(p) matches Some(name) ==> {
            &&& qed_rel(t, p, g).1 matches Ok((j, _)) && j == scan_node(table_index(t, name))
            &&& table_index(t, name) < qed_rel(t, p, g).0.len()
            &&& qed_rel(t, p, g).0[table_index(t, name) as int].0 == name
            &&& forall|k: int| 0 <= k < t.len() && (#[trigger] t[k]).0 == name ==> k == table_index(t, name)
        },
        unserializable_kind(p) ==> qed_rel(t, p, g) == (t, RelResult::Err(SpecQedError::UnsupportedPlan(plan_display(p)))),
{
    lemma_rel(t, p, g);
    let t2 = qed_rel(t, p, g).0;
    assert(t2.subrange(0, t.len() as int) =~= t);
    if let Some(name) = scanned_table(p) {
        let fields = match p {
            SpecPlan::TableScan { schema, .. } => schema,
            _ => crate::naming::plan_schema(p),
        };
        lemma_resolve_table(t, name, fields);
        lemma_first_index_where(t, table_named(name));
        assert forall|k: int| 0 <= k < t.len() && (#[trigger] t[k]).0 == name implies k == table_index(t, name) by {
            match first_index_where(t, table_named(name)) {
                Some(i) => {
                    if k < i {
                        assert(t[k].0 != t[i].0);
                    } else if i < k {
                        assert(t[i].0 != t[k].0);
                    }
                },
                None => {
                    assert(!table_named(name)(t[k]));
                },
            }
        }
    }
}

/// The tables of a serialized pair are listed once each, and those the first plan met
/// keep their indices while the second is serialized.
pub proof fn lemma_pair_tables(before: SpecPlan, after: SpecPlan)
    ensures
        distinct_names(qed_pair_run(before, after).0),
        grows(qed_rel(Seq::empty(), before, Seq::empty()).0, qed_pair_run(before, after).0),
{
    let t0: Tables = Seq::empty();
    lemma_rel(t0, before, Seq::empty());
    let t1 = qed_rel(t0, before, Seq::empty()).0;
    lemma_rel(t1, after, Seq::empty());
    lemma_grows_refl(t1);
}

/// A serialized pair holds the two queries in order, the first serialized from no tables
/// and the second against the tables the first left, and one schema per table of the
/// final list: no table name twice, the tables the first plan met first and in the order
/// they were met, and each schema with empty `key` and `guaranteed` lists.
pub proof fn lemma_pair_output(before: SpecPlan, after: SpecPlan)
    ensures
        qed_pair(before, after) matches Ok((schemas, qs)) ==> {
            let t1 = qed_rel(Seq::empty(), before, Seq::empty()).0;
            let t = qed_pair_run(before, after).0;
            &&& qs.len() == 2
            &&& qed_rel(Seq::empty(), before, Seq::empty()).1 matches Ok((b, _)) && qs[0] == b
            &&& qed_rel(t1, after, Seq::empty()).1 matches Ok((a, _)) && qs[1] == a
            &&& schemas.len() == t.len()
            &&& forall|i: int| 0 <= i < schemas.len() ==> {
                &&& #[trigger] schemas[i] == qed_schema(t[i])
                &&& schemas[i].key.len() == 0
                &&& schemas[i].guaranteed.len() == 0
            }
            &&& forall|i: int, j: int| #![trigger schemas[i], schemas[j]]
                0 <= i < j < schemas.len() ==> schemas[i].name != schemas[j].name
            &&& t1.len() <= t.len()
            &&& t.subrange(0, t1.len() as int) == t1
        },
{
    lemma_pair_tables(before, after);
    let t1 = qed_rel(Seq::empty(), before, Seq::empty()).0;
    let t = qed_pair_run(before, after).0;
    assert(t.subrange(0, t1.len() as int) =~= t1);
    if let Ok((schemas, qs)) = qed_pair(before, after) {
        assert forall|i: int, j: int| #![trigger schemas[i], schemas[j]]
            0 <= i < j < schemas.len() implies schemas[i].name != schemas[j].name by {
            assert(t[i].0 != t[j].0);
        }
    }
}

/// The comparison and boolean connective operators.
pub open spec fn is_comparison_or_connective(op: SpecOperator) -> bool {
    op is Eq || op is NotEq || op is Lt || op is LtEq || op is Gt || op is GtEq || op is And || op is Or
}

/// Each binary operator is written in the format by its own SQL symbol, the text under
/// which it appears in expression names (`=`, `!=`, `<`, `<=`, `>`, `>=`, `+`, `-`, `*`,
/// `/`, `%`, `AND`, `OR`), so that distinct operators get distinct symbols; an operator
/// outside these has no symbol. Comparisons and connectives are typed `BOOLEAN`, the
/// arithmetic operators `INTEGER`.
pub proof fn lemma_operator_symbols(op: SpecOperator, other: SpecOperator)
    ensures
        op is Other ==> qed_operator(op) is None,
        !(op is Other) ==> qed_operator(op) == Some(op_text(op)),
        !(op is Other) && !(other is Other) && op != other ==> qed_operator(op) != qed_operator(other),
        op is Eq ==> qed_operator(op) == Some("="@),
        op is NotEq ==> qed_operator(op) == Some("!="@),
        op is Lt ==> qed_operator(op) == Some("<"@),
        op is LtEq ==> qed_operator(op) == Some("<="@),
        op is Gt ==> qed_operator(op) == Some(">"@),
        op is GtEq ==> qed_operator(op) == Some(">="@),
        op is Plus ==> qed_operator(op) == Some("+"@),
        op is Minus ==> qed_operator(op) == Some("-"@),
        op is Multiply ==> qed_operator(op) == Some("*"@),
        op is Divide ==> qed_operator(op) == Some("/"@),
        op is Modulo ==> qed_operator(op) == Some("%"@),
        op is And ==> qed_operator(op) == Some("AND"@),
        op is Or ==> qed_operator(op) == Some("OR"@),
        is_comparison_or_connective(op) ==> binary_type(op) == "BOOLEAN"@,
        !is_comparison_or_connective(op) ==> binary_type(op) == "INTEGER"@,
{
    reveal_strlit("=");
    reveal_strlit("!=");
    reveal_strlit("<");
    reveal_strlit("<=");
    reveal_strlit(">");
    reveal_strlit(">=");
    reveal_strlit("+");
    reveal_strlit("-");
    reveal_strlit("*");
    reveal_strlit("/");
    reveal_strlit("%");
    reveal_strlit("AND");
    reveal_strlit("OR");
    if !(op is Other) && !(other is Other) && op != other {
        let a = op_text(op);
        let b = op_text(other);
        if a == b {
            assert(a.len() == b.len());
            assert(a[0] == b[0]);
            if a.len() > 1 {
                assert(a[1] == b[1]);
            }
            assert(false);
        }
    }
}

/// Once a table name has an index, every later scan of a table with that name gets the
/// same index and adds nothing, as long as the list keeps its names distinct (which
/// serializing does): equal names share one schema entry.
pub proof fn lemma_name_keeps_index(
    t: Tables,
    later: Tables,
    name: Seq<char>,
    first: Seq<SpecQualifiedField>,
    again: Seq<SpecQualifiedField>,
)
    requires
        grows(resolve_table(t, name, first).0, later),
        distinct_names(later),
    ensures
        resolve_table(later, name, again) == (later, resolve_table(t, name, first).1),
{
    lemma_resolve_table(t, name, first);
    let (t1, i) = resolve_table(t, name, first);
    assert(later[i as int] == t1[i as int]);
    lemma_first_index_where(later, table_named(name));
    match first_index_where(later, table_named(name)) {
        Some(j) => {
            if j != i {
                if j < i {
                    assert(later[j].0 != later[i as int].0);
                } else {
                    assert(later[i as int].0 != later[j].0);
                }
            }
        },
        None => {
            assert(!table_named(name)(later[i as int]));
        },
    }
}

} // verus!
