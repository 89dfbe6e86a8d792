//! What holds of the rules as a family.
use vstd::prelude::*;
use crate::matcher::default::{lemma_first_index_found, lemma_first_index_none};
use crate::matcher::error::SpecRuleError;
use crate::matcher::laws::{lemma_join_kind_must_agree, lemma_root_kind_must_agree};
use crate::matcher::semantics::{
    accepts, apply_rule, empty_matcher, first_accepting, instantiate_plan, resolve_plan, resolve_source, resolve_union,
    rule_matches, source_context, SpecMatcher,
};
use crate::naming::plan_schema;
use crate::plan::{schema_columns, JoinType, SpecExpr, SpecPlan, SpecQualifiedField};
use crate::rule::impls::filter_aggregate_transpose::filter_aggregate_transpose_from;
use crate::rule::impls::filter_into_join::filter_into_join_from;
use crate::rule::impls::filter_merge::filter_merge_from;
use crate::rule::impls::filter_project_transpose::filter_project_transpose_from;
use crate::rule::impls::filter_reduce_false::{filter_reduce_false_from, filter_reduce_false_to};
use crate::rule::impls::filter_reduce_true::{filter_reduce_true_from, filter_reduce_true_to};
use crate::rule::impls::join_associate::join_associate_from;
use crate::rule::impls::join_commute::join_commute_from;
use crate::rule::impls::join_condition_push::join_condition_push_from;
use crate::rule::impls::join_extract_filter::join_extract_filter_from;
use crate::rule::impls::join_left_condition_push::join_left_condition_push_from;
use crate::rule::impls::join_left_project_transpose::join_left_project_transpose_from;
use crate::rule::impls::join_right_condition_push::join_right_condition_push_from;
use crate::rule::impls::join_right_project_transpose::join_right_project_transpose_from;
use crate::rule::impls::left_semi_join_filter_transpose::left_semi_join_filter_transpose_from;
use crate::rule::impls::project_filter_transpose::project_filter_transpose_from;
use crate::rule::impls::project_merge::project_merge_from;
use crate::rule::impls::project_remove::project_remove_from;
use crate::rule::impls::prune_empty_filter::prune_empty_filter_from;
use crate::rule::impls::prune_empty_project::prune_empty_project_from;
use crate::rule::impls::prune_empty_union::{
    branch, prune_empty_union_both_from, prune_empty_union_left_from, prune_empty_union_right_from,
};
use crate::rule::impls::right_semi_join_filter_transpose::right_semi_join_filter_transpose_from;
use crate::rule::parts::{bool_lit, empty_of, source_of};

verus! {

/// The join rules rewrite inner joins only: a join of any other kind is not matched, so
/// applying one of them to it fails.
pub proof fn lemma_join_rules_need_inner_joins(plan: SpecPlan)
    requires
        plan matches SpecPlan::Join { join_type: jt, .. } && jt != JoinType::Inner,
    ensures
        !rule_matches(join_commute_from(), plan),
        !rule_matches(join_condition_push_from(), plan),
        !rule_matches(join_extract_filter_from(), plan),
        !rule_matches(join_left_project_transpose_from(), plan),
        !rule_matches(join_right_project_transpose_from(), plan),
        !rule_matches(join_left_condition_push_from(), plan),
        !rule_matches(join_right_condition_push_from(), plan),
        !rule_matches(join_associate_from(), plan),
{
    let m = SpecMatcher { output_schema: schema_columns(plan_schema(plan)), ..empty_matcher() };
    lemma_join_kind_must_agree(m, join_left_condition_push_from(), plan);
    lemma_join_kind_must_agree(m, join_right_condition_push_from(), plan);
    lemma_join_kind_must_agree(m, join_associate_from(), plan);
    lemma_join_kind_must_agree(m, join_commute_from(), plan);
    lemma_join_kind_must_agree(m, join_condition_push_from(), plan);
    lemma_join_kind_must_agree(m, join_extract_filter_from(), plan);
    lemma_join_kind_must_agree(m, join_left_project_transpose_from(), plan);
    lemma_join_kind_must_agree(m, join_right_project_transpose_from(), plan);
}

/// Pushing a filter into a join needs an inner join below the filter.
pub proof fn lemma_filter_into_join_needs_inner_join(plan: SpecPlan)
    requires
        plan matches SpecPlan::Filter { input, .. } && *input matches SpecPlan::Join { join_type: jt, .. } && jt
            != JoinType::Inner,
    ensures
        !rule_matches(filter_into_join_from(), plan),
{
    let m = SpecMatcher { output_schema: schema_columns(plan_schema(plan)), ..empty_matcher() };
    let from = filter_into_join_from();
    match (from, plan) {
        (SpecPlan::Filter { input: pi, .. }, SpecPlan::Filter { input: ci, .. }) => {
            lemma_join_kind_must_agree(m, *pi, *ci);
        },
        _ => {},
    }
}

/// Moving a filter above a semi join applies to left semi joins only.
pub proof fn lemma_semi_join_rule_needs_left_semi_join(plan: SpecPlan)
    requires
        plan matches SpecPlan::Join { join_type: jt, .. } && jt != JoinType::LeftSemi,
    ensures
        !rule_matches(left_semi_join_filter_transpose_from(), plan),
{
    let m = SpecMatcher { output_schema: schema_columns(plan_schema(plan)), ..empty_matcher() };
    lemma_join_kind_must_agree(m, left_semi_join_filter_transpose_from(), plan);
}

/// Pushing a filter below an aggregate needs an aggregate directly below the filter:
/// over any other input the match fails.
pub proof fn lemma_filter_aggregate_transpose_needs_aggregate(plan: SpecPlan)
    requires
        plan matches SpecPlan::Filter { input, .. } && !(*input is Aggregate),
    ensures
        !rule_matches(filter_aggregate_transpose_from(), plan),
{
    let m = SpecMatcher { output_schema: schema_columns(plan_schema(plan)), ..empty_matcher() };
    let from = filter_aggregate_transpose_from();
    match (from, plan) {
        (SpecPlan::Filter { input: pi, .. }, SpecPlan::Filter { input: ci, .. }) => {
            assert(resolve_plan(m, *pi, *ci).1 is Err);
        },
        _ => {},
    }
}

/// Moving a filter above a semi join on the right applies to right semi joins only.
pub proof fn lemma_semi_join_rule_needs_right_semi_join(plan: SpecPlan)
    requires
        plan matches SpecPlan::Join { join_type: jt, .. } && jt != JoinType::RightSemi,
    ensures
        !rule_matches(right_semi_join_filter_transpose_from(), plan),
{
    let m = SpecMatcher { output_schema: schema_columns(plan_schema(plan)), ..empty_matcher() };
    lemma_join_kind_must_agree(m, right_semi_join_filter_transpose_from(), plan);
}

/// What matching an abstract source of one nullable field gives: the plan is bound under
/// the source's name, whatever its shape, when no plan was bound there before.
proof fn lemma_source_binds(m: SpecMatcher, name: Seq<char>, field: Seq<char>, ty: Seq<char>, c: SpecPlan)
    requires
        !m.sources.contains_key(name),
    ensures
        resolve_plan(m, source_of(name, field, ty), c) == ({
            let ctx = source_context(plan_schema(source_of(name, field, ty)), plan_schema(c), 1);
            (SpecMatcher { sources: m.sources.insert(name, (c, ctx)), ..m }, Ok::<_, SpecRuleError>(ctx))
        }),
{
    let src = source_of(name, field, ty);
    let abs = plan_schema(src);
    let con = plan_schema(c);
    assert(abs.len() == 1 && abs[0].nullable);
    let pred = |f: SpecQualifiedField| first_accepting(abs, f) is None;
    assert forall|k: int| 0 <= k < con.len() implies !pred(#[trigger] con[k]) by {
        let q = |a: SpecQualifiedField| accepts(a, con[k]);
        lemma_first_index_found(abs, q, 0);
    }
    lemma_first_index_none(con, pred);
    match src {
        SpecPlan::Source(s) => {
            assert(resolve_plan(m, src, c) == resolve_source(m, s, c));
        },
        _ => {},
    }
}

proof fn lemma_branch_names_differ()
    ensures
        "a"@ != "b"@,
{
    reveal_strlit("a");
    reveal_strlit("b");
    assert("a"@[0] != "b"@[0]);
}

/// The matcher that a rule starts from on a plan.
spec fn start(plan: SpecPlan) -> SpecMatcher {
    SpecMatcher { output_schema: schema_columns(plan_schema(plan)), ..empty_matcher() }
}

/// A union whose first input is empty gives back its second input, whatever that is.
pub proof fn lemma_prune_empty_union_left(e: SpecPlan, b: SpecPlan, schema: Seq<SpecQualifiedField>)
    requires
        e is EmptyRelation,
    ensures
        apply_rule(prune_empty_union_left_from(), branch("b"@), SpecPlan::Union { inputs: seq![e, b], schema })
            == Ok::<SpecPlan, SpecRuleError>(b),
{
    lemma_branch_names_differ();
    let plan = SpecPlan::Union { inputs: seq![e, b], schema };
    let m0 = start(plan);
    lemma_source_binds(m0, "a"@, "col"@, "T"@, e);
    assert(resolve_plan(m0, empty_of(branch("a"@)), e) == resolve_plan(m0, branch("a"@), e));
    let m1 = resolve_plan(m0, branch("a"@), e).0;
    lemma_source_binds(m1, "b"@, "col"@, "T"@, b);
    let m2 = resolve_plan(m1, branch("b"@), b).0;
    assert(resolve_plan(m0, prune_empty_union_left_from(), plan) == resolve_union(m0, prune_empty_union_left_from(), plan));
    assert(resolve_plan(m0, prune_empty_union_left_from(), plan).0 == m2);
    assert(instantiate_plan(m2, branch("b"@)) == Ok::<_, SpecRuleError>(m2.sources["b"@]));
}

/// A union whose second input is empty gives back its first input, whatever that is.
pub proof fn lemma_prune_empty_union_right(a: SpecPlan, e: SpecPlan, schema: Seq<SpecQualifiedField>)
    requires
        e is EmptyRelation,
    ensures
        apply_rule(prune_empty_union_right_from(), branch("a"@), SpecPlan::Union { inputs: seq![a, e], schema })
            == Ok::<SpecPlan, SpecRuleError>(a),
{
    lemma_branch_names_differ();
    let plan = SpecPlan::Union { inputs: seq![a, e], schema };
    let m0 = start(plan);
    lemma_source_binds(m0, "a"@, "col"@, "T"@, a);
    let m1 = resolve_plan(m0, branch("a"@), a).0;
    lemma_source_binds(m1, "b"@, "col"@, "T"@, e);
    assert(resolve_plan(m1, empty_of(branch("b"@)), e) == resolve_plan(m1, branch("b"@), e));
    let m2 = resolve_plan(m1, branch("b"@), e).0;
    assert(resolve_plan(m0, prune_empty_union_right_from(), plan) == resolve_union(m0, prune_empty_union_right_from(), plan));
    assert(resolve_plan(m0, prune_empty_union_right_from(), plan).0 == m2);
    assert(instantiate_plan(m2, branch("a"@)) == Ok::<_, SpecRuleError>(m2.sources["a"@]));
}

/// A union of two empty relations gives one empty relation shaped like the first.
pub proof fn lemma_prune_empty_union_both(e1: SpecPlan, e2: SpecPlan, schema: Seq<SpecQualifiedField>)
    requires
        e1 is EmptyRelation,
        e2 is EmptyRelation,
    ensures
        apply_rule(prune_empty_union_both_from(), empty_of(branch("a"@)), SpecPlan::Union { inputs: seq![e1, e2], schema })
            == Ok::<SpecPlan, SpecRuleError>(SpecPlan::EmptyRelation { produce_one_row: false, schema: plan_schema(e1) }),
{
    lemma_branch_names_differ();
    let plan = SpecPlan::Union { inputs: seq![e1, e2], schema };
    let m0 = start(plan);
    lemma_source_binds(m0, "a"@, "col"@, "T"@, e1);
    assert(resolve_plan(m0, empty_of(branch("a"@)), e1) == resolve_plan(m0, branch("a"@), e1));
    let m1 = resolve_plan(m0, branch("a"@), e1).0;
    lemma_source_binds(m1, "b"@, "col"@, "T"@, e2);
    assert(resolve_plan(m1, empty_of(branch("b"@)), e2) == resolve_plan(m1, branch("b"@), e2));
    let m2 = resolve_plan(m1, branch("b"@), e2).0;
    assert(resolve_plan(m0, prune_empty_union_both_from(), plan) == resolve_union(m0, prune_empty_union_both_from(), plan));
    assert(resolve_plan(m0, prune_empty_union_both_from(), plan).0 == m2);
    assert(instantiate_plan(m2, branch("a"@)) == Ok::<_, SpecRuleError>(m2.sources["a"@]));
}

/// A filter is reduced to an empty relation exactly when its predicate is the literal
/// FALSE; the empty relation keeps the filtered input's schema.
pub proof fn lemma_filter_reduce_false(input: SpecPlan, predicate: SpecExpr)
    ensures
        rule_matches(filter_reduce_false_from(), SpecPlan::Filter { predicate, input: Box::new(input) })
            <==> predicate == bool_lit(false),
        predicate == bool_lit(false) ==> apply_rule(
            filter_reduce_false_from(),
            filter_reduce_false_to(),
            SpecPlan::Filter { predicate, input: Box::new(input) },
        ) == Ok::<SpecPlan, SpecRuleError>(SpecPlan::EmptyRelation { produce_one_row: false, schema: plan_schema(input) }),
{
    let plan = SpecPlan::Filter { predicate, input: Box::new(input) };
    let m0 = start(plan);
    lemma_source_binds(m0, "source"@, "col"@, "T"@, input);
    let m1 = resolve_plan(m0, source_of("source"@, "col"@, "T"@), input).0;
    assert(instantiate_plan(m1, source_of("source"@, "col"@, "T"@)) == Ok::<_, SpecRuleError>(m1.sources["source"@]));
}

/// A filter is removed exactly when its predicate is the literal TRUE, and then its input
/// comes back unchanged.
pub proof fn lemma_filter_reduce_true(input: SpecPlan, predicate: SpecExpr)
    ensures
        rule_matches(filter_reduce_true_from(), SpecPlan::Filter { predicate, input: Box::new(input) })
            <==> predicate == bool_lit(true),
        predicate == bool_lit(true) ==> apply_rule(
            filter_reduce_true_from(),
            filter_reduce_true_to(),
            SpecPlan::Filter { predicate, input: Box::new(input) },
        ) == Ok::<SpecPlan, SpecRuleError>(input),
{
    let plan = SpecPlan::Filter { predicate, input: Box::new(input) };
    let m0 = start(plan);
    lemma_source_binds(m0, "source"@, "col"@, "T"@, input);
    let m1 = resolve_plan(m0, source_of("source"@, "col"@, "T"@), input).0;
    assert(instantiate_plan(m1, source_of("source"@, "col"@, "T"@)) == Ok::<_, SpecRuleError>(m1.sources["source"@]));
}

/// A filter over an empty relation matches only an empty relation below the filter.
pub proof fn lemma_prune_empty_filter_needs_empty_input(input: SpecPlan, predicate: SpecExpr)
    requires
        !(input is EmptyRelation),
    ensures
        !rule_matches(prune_empty_filter_from(), SpecPlan::Filter { predicate, input: Box::new(input) }),
{
    let plan = SpecPlan::Filter { predicate, input: Box::new(input) };
    let m0 = start(plan);
    assert(resolve_plan(m0, empty_of(source_of("source"@, "col"@, "T"@)), input).1 is Err);
}

/// No rule rewrites a bare table: every rule's pattern has an operator at its root, so
/// matching it against a table scan fails.
pub proof fn lemma_rules_leave_tables_alone(plan: SpecPlan)
    requires
        plan is TableScan,
    ensures
        !rule_matches(filter_aggregate_transpose_from(), plan),
        !rule_matches(filter_into_join_from(), plan),
        !rule_matches(filter_merge_from(), plan),
        !rule_matches(filter_project_transpose_from(), plan),
        !rule_matches(filter_reduce_false_from(), plan),
        !rule_matches(filter_reduce_true_from(), plan),
        !rule_matches(join_associate_from(), plan),
        !rule_matches(join_commute_from(), plan),
        !rule_matches(join_condition_push_from(), plan),
        !rule_matches(join_extract_filter_from(), plan),
        !rule_matches(join_left_condition_push_from(), plan),
        !rule_matches(join_left_project_transpose_from(), plan),
        !rule_matches(join_right_condition_push_from(), plan),
        !rule_matches(join_right_project_transpose_from(), plan),
        !rule_matches(left_semi_join_filter_transpose_from(), plan),
        !rule_matches(project_filter_transpose_from(), plan),
        !rule_matches(project_merge_from(), plan),
        !rule_matches(project_remove_from(), plan),
        !rule_matches(prune_empty_filter_from(), plan),
        !rule_matches(prune_empty_project_from(), plan),
        !rule_matches(prune_empty_union_left_from(), plan),
        !rule_matches(prune_empty_union_right_from(), plan),
        !rule_matches(prune_empty_union_both_from(), plan),
        !rule_matches(right_semi_join_filter_transpose_from(), plan),
{
    let m = start(plan);
    lemma_root_kind_must_agree(m, filter_aggregate_transpose_from(), plan);
    lemma_root_kind_must_agree(m, filter_into_join_from(), plan);
    lemma_root_kind_must_agree(m, filter_merge_from(), plan);
    lemma_root_kind_must_agree(m, filter_project_transpose_from(), plan);
    lemma_root_kind_must_agree(m, filter_reduce_false_from(), plan);
    lemma_root_kind_must_agree(m, filter_reduce_true_from(), plan);
    lemma_root_kind_must_agree(m, join_associate_from(), plan);
    lemma_root_kind_must_agree(m, join_commute_from(), plan);
    lemma_root_kind_must_agree(m, join_condition_push_from(), plan);
    lemma_root_kind_must_agree(m, join_extract_filter_from(), plan);
    lemma_root_kind_must_agree(m, join_left_condition_push_from(), plan);
    lemma_root_kind_must_agree(m, join_left_project_transpose_from(), plan);
    lemma_root_kind_must_agree(m, join_right_condition_push_from(), plan);
    lemma_root_kind_must_agree(m, join_right_project_transpose_from(), plan);
    lemma_root_kind_must_agree(m, left_semi_join_filter_transpose_from(), plan);
    lemma_root_kind_must_agree(m, project_filter_transpose_from(), plan);
    lemma_root_kind_must_agree(m, project_merge_from(), plan);
    lemma_root_kind_must_agree(m, project_remove_from(), plan);
    lemma_root_kind_must_agree(m, prune_empty_filter_from(), plan);
    lemma_root_kind_must_agree(m, prune_empty_project_from(), plan);
    lemma_root_kind_must_agree(m, prune_empty_union_left_from(), plan);
    lemma_root_kind_must_agree(m, prune_empty_union_right_from(), plan);
    lemma_root_kind_must_agree(m, prune_empty_union_both_from(), plan);
    lemma_root_kind_must_agree(m, right_semi_join_filter_transpose_from(), plan);
}

} // verus!
