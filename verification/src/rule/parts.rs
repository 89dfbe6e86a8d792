//! The pieces rules are built from: abstract sources, unqualified columns, pattern
//! symbols, and plan nodes over them.
use vstd::prelude::*;
use crate::ast::opaque::{Field, Schema, SpecField, SpecSchema, SpecType, Type};
use crate::ast::pattern::{aliased, scalar_call, symbol_ref, view_types, ScalarPattern};
use crate::ast::empty::Empty;
use crate::ast::relational::{
    concat_exprs, spec_aggregate, spec_filter, spec_join, spec_project, spec_source, spec_union, Rel,
};
use crate::matcher::instantiate::join_schema_of;
use crate::naming::{output_fields_of, schema_of};
use crate::naming::plan_schema;
use crate::plan::{
    lemma_view_exprs, lemma_view_plans, view_exprs, view_keys, view_plans, Column, Expr, JoinKey, JoinType, Literal,
    Plan, SourceNode, SpecCallee, SpecColumn, SpecExpr, SpecFunctionRef, SpecJoinKey, SpecLiteral, SpecPlan,
    SpecSignature,
};
use crate::text::owned;

verus! {

broadcast use vstd::std_specs::vec::group_vec_axioms;

pub open spec fn generic(id: Seq<char>) -> SpecType {
    SpecType::Generic { id }
}

/// A schema of one nullable field of a generic type.
pub open spec fn one_field(name: Seq<char>, ty: Seq<char>) -> SpecSchema {
    SpecSchema { fields: seq![SpecField { name, data_type: generic(ty), nullable: true }] }
}

/// An unqualified column reference.
pub open spec fn ucol(name: Seq<char>) -> SpecExpr {
    SpecExpr::Column(SpecColumn { relation: None, name })
}

/// A pattern symbol with the given signature.
pub open spec fn symbol(name: Seq<char>, inputs: Seq<SpecType>, ret: SpecType) -> SpecFunctionRef {
    symbol_ref(name, SpecCallee::Pattern(SpecSignature { input_types: inputs, return_type: ret }), ret)
}

/// An abstract source with one generic field.
pub open spec fn source_of(name: Seq<char>, field: Seq<char>, ty: Seq<char>) -> crate::plan::SpecPlan {
    spec_source(name, one_field(field, ty))
}

/// The boolean literal `b`.
pub open spec fn bool_lit(b: bool) -> SpecExpr {
    let v = if b { "true"@ } else { "false"@ };
    SpecExpr::Literal(SpecLiteral { value: v, debug: "Boolean("@ + v + ")"@, data_type: "Boolean"@ })
}

/// The abstract empty relation shaped like a pattern.
pub open spec fn empty_of(inner: SpecPlan) -> SpecPlan {
    SpecPlan::Empty(Box::new(inner))
}

/// The union of two patterns by position.
pub open spec fn union_of(a: SpecPlan, b: SpecPlan) -> SpecPlan {
    spec_union(a, b)
}

/// An inner join on a condition.
pub open spec fn inner_join(left: crate::plan::SpecPlan, right: crate::plan::SpecPlan, cond: SpecExpr) -> crate::plan::SpecPlan {
    spec_join(left, right, JoinType::Inner, Seq::empty(), Some(cond))
}

pub fn generic_type(id: &str) -> (r: Type)
    ensures
        r@ == generic(id@),
{
    Type::Generic { id: owned(id) }
}

pub fn source_rel(name: &str, field: &str, ty: &str) -> (r: Rel)
    ensures
        r@ == source_of(name@, field@, ty@),
{
    let mut fields: Vec<Field> = Vec::new();
    fields.push(Field { name: owned(field), data_type: generic_type(ty), nullable: true });
    let schema = Schema { fields };
    assert(schema@.fields =~= one_field(field@, ty@).fields);
    Rel::source(owned(name), schema)
}

pub fn column(name: &str) -> (r: Expr)
    ensures
        r@ == ucol(name@),
{
    Expr::Column(Column { relation: None, name: owned(name) })
}

pub fn boolean(b: bool) -> (r: Expr)
    ensures
        r@ == bool_lit(b),
{
    let (value, debug) = if b { (owned("true"), owned("Boolean(true)")) } else { (owned("false"), owned("Boolean(false)")) };
    proof {
        reveal_strlit("true");
        reveal_strlit("false");
        reveal_strlit("Boolean(true)");
        reveal_strlit("Boolean(false)");
        reveal_strlit("Boolean(");
        reveal_strlit(")");
    }
    assert(debug@ =~= "Boolean("@ + value@ + ")"@);
    Expr::Literal(Literal { value, debug, data_type: owned("Boolean") })
}

/// The abstract empty relation shaped like a pattern.
pub fn empty_rel(inner: Rel) -> (r: Rel)
    ensures
        r@ == empty_of(inner@),
{
    Rel { plan: Empty::new(inner.plan).into_plan() }
}

/// The union of two patterns by position.
pub fn union_rel(a: Rel, b: Rel) -> (r: Rel)
    ensures
        r@ == union_of(a@, b@),
{
    let ghost (x, y) = (a@, b@);
    let schema = schema_of(&a.plan);
    let mut inputs: Vec<Plan> = Vec::new();
    inputs.push(a.plan);
    inputs.push(b.plan);
    proof { lemma_view_plans(inputs@); }
    assert(view_plans(inputs@) =~= seq![x, y]);
    Rel { plan: Plan::Union { inputs, schema } }
}

/// A pattern symbol of one generic argument.
pub fn symbol1(name: &str, arg: &str, ret: Type) -> (r: ScalarPattern)
    ensures
        r@ == symbol(name@, seq![generic(arg@)], ret@),
        r.input_types@.len() == 1,
{
    let mut inputs: Vec<Type> = Vec::new();
    inputs.push(generic_type(arg));
    let ghost rv = ret@;
    let r = ScalarPattern::new(owned(name), inputs, ret);
    assert(view_types(r.input_types@) =~= seq![generic(arg@)]);
    r
}

/// A pattern symbol of two generic arguments.
pub fn symbol2(name: &str, a: &str, b: &str, ret: Type) -> (r: ScalarPattern)
    ensures
        r@ == symbol(name@, seq![generic(a@), generic(b@)], ret@),
        r.input_types@.len() == 2,
{
    let mut inputs: Vec<Type> = Vec::new();
    inputs.push(generic_type(a));
    inputs.push(generic_type(b));
    let r = ScalarPattern::new(owned(name), inputs, ret);
    assert(view_types(r.input_types@) =~= seq![generic(a@), generic(b@)]);
    r
}

pub fn one(e: Expr) -> (r: Vec<Expr>)
    ensures
        view_exprs(r@) == seq![e@],
        r@.len() == 1,
{
    let mut v: Vec<Expr> = Vec::new();
    v.push(e);
    proof { lemma_view_exprs(v@); }
    assert(view_exprs(v@) =~= seq![v@[0]@]);
    v
}

pub fn two(a: Expr, b: Expr) -> (r: Vec<Expr>)
    ensures
        view_exprs(r@) == seq![a@, b@],
        r@.len() == 2,
{
    let mut v: Vec<Expr> = Vec::new();
    v.push(a);
    v.push(b);
    proof { lemma_view_exprs(v@); }
    assert(view_exprs(v@) =~= seq![v@[0]@, v@[1]@]);
    v
}

/// A call of a symbol of one argument on a column.
pub fn call1(f: &ScalarPattern, arg: &str) -> (r: Expr)
    requires
        f.input_types@.len() == 1,
    ensures
        r@ == scalar_call(f@, seq![ucol(arg@)]),
{
    f.call(one(column(arg)))
}

/// A call of a symbol of two arguments on two columns.
pub fn call2(f: &ScalarPattern, a: &str, b: &str) -> (r: Expr)
    requires
        f.input_types@.len() == 2,
    ensures
        r@ == scalar_call(f@, seq![ucol(a@), ucol(b@)]),
{
    f.call(two(column(a), column(b)))
}

/// A filter node over a pattern.
pub fn filter_rel(input: Rel, predicate: Expr) -> (r: Rel)
    ensures
        r@ == spec_filter(input@, predicate@),
{
    Rel { plan: Plan::Filter { predicate, input: Box::new(input.plan) } }
}

/// A projection node over a pattern.
pub fn project_rel(input: Rel, exprs: Vec<Expr>) -> (r: Rel)
    ensures
        r@ == spec_project(input@, view_exprs(exprs@)),
{
    let s = schema_of(&input.plan);
    let schema = output_fields_of(&exprs, &s);
    Rel { plan: Plan::Projection { exprs, input: Box::new(input.plan), schema } }
}

/// An aggregate node over a pattern.
pub fn aggregate_rel(input: Rel, group: Vec<Expr>, aggs: Vec<Expr>) -> (r: Rel)
    ensures
        r@ == spec_aggregate(input@, view_exprs(group@), view_exprs(aggs@)),
{
    let s = schema_of(&input.plan);
    let all = concat_exprs(&group, &aggs);
    let schema = output_fields_of(&all, &s);
    Rel { plan: Plan::Aggregate { input: Box::new(input.plan), group_exprs: group, aggr_exprs: aggs, schema } }
}

/// An inner join of two patterns on a condition.
pub fn join_rel(left: Rel, right: Rel, cond: Expr) -> (r: Rel)
    ensures
        r@ == inner_join(left@, right@, cond@),
{
    join_kind_rel(left, right, JoinType::Inner, cond)
}

/// A join of the given kind on a condition.
pub fn join_kind_rel(left: Rel, right: Rel, jt: JoinType, cond: Expr) -> (r: Rel)
    ensures
        r@ == spec_join(left@, right@, jt, Seq::empty(), Some(cond@)),
{
    let ls = schema_of(&left.plan);
    let rs = schema_of(&right.plan);
    let schema = join_schema_of(&ls, &rs, &jt);
    let on: Vec<JoinKey> = Vec::new();
    assert(view_keys(on@) =~= Seq::<SpecJoinKey>::empty());
    Rel {
        plan: Plan::Join {
            left: Box::new(left.plan),
            right: Box::new(right.plan),
            on,
            filter: Some(cond),
            join_type: jt,
            null_equals_null: false,
            schema,
        },
    }
}

} // verus!
