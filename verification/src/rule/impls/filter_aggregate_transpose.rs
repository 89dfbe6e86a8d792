//! Pushes the part of a filter that reads only grouping columns below an aggregate:
//! `Filter(GroupCond(g) AND AggCond(g, a), Aggregate(G(x) as g, Agg{x} as a, source))` becomes
//! `Filter(AggCond(g, a), Aggregate(G(x) as g, Agg{x} as a, Filter(GroupCond(G(x)), source)))`.
use vstd::prelude::*;
use crate::ast::opaque::{SpecType, Type};
use crate::ast::pattern::{aggregate_call, aliased, binary, scalar_call, AggregatePattern};
use crate::ast::relational::{spec_aggregate, spec_filter, Rel};
use crate::plan::{Expr, Operator, SpecFunctionRef, SpecOperator, SpecPlan};
use crate::rule::parts::{
    aggregate_rel, call1, call2, column, filter_rel, generic, generic_type, one, source_of, source_rel, symbol,
    symbol1, symbol2, ucol,
};
use crate::rule::{ApplicableRule, RewriteRule};
use crate::text::owned;

verus! {

pub struct FilterAggregateTransposeRule;

pub open spec fn group_key() -> SpecFunctionRef {
    symbol("G"@, seq![generic("T"@)], generic("TG"@))
}

pub open spec fn group_cond() -> SpecFunctionRef {
    symbol("GroupCond"@, seq![generic("TG"@)], SpecType::Boolean)
}

pub open spec fn agg_cond() -> SpecFunctionRef {
    symbol("AggCond"@, seq![generic("TG"@), generic("U"@)], SpecType::Boolean)
}

pub open spec fn agg_symbol() -> SpecFunctionRef {
    symbol("Agg"@, seq![generic("T"@)], generic("U"@))
}

/// The aggregate of the rule over an input: grouped by `G(x)` as `g_output`, computing
/// `Agg{x}` as `agg_output`.
pub open spec fn grouped(input: SpecPlan) -> SpecPlan {
    spec_aggregate(
        input,
        seq![aliased(scalar_call(group_key(), seq![ucol("x"@)]), "g_output"@)],
        seq![aliased(aggregate_call(agg_symbol(), seq![ucol("x"@)]), "agg_output"@)],
    )
}

pub open spec fn filter_aggregate_transpose_from() -> SpecPlan {
    let source = source_of("source"@, "x"@, "T"@);
    spec_filter(
        grouped(source),
        binary(
            scalar_call(group_cond(), seq![ucol("g_output"@)]),
            SpecOperator::And,
            scalar_call(agg_cond(), seq![ucol("g_output"@), ucol("agg_output"@)]),
        ),
    )
}

pub open spec fn filter_aggregate_transpose_to() -> SpecPlan {
    let source = source_of("source"@, "x"@, "T"@);
    let filtered = spec_filter(source, scalar_call(group_cond(), seq![scalar_call(group_key(), seq![ucol("x"@)])]));
    spec_filter(grouped(filtered), scalar_call(agg_cond(), seq![ucol("g_output"@), ucol("agg_output"@)]))
}

/// The aggregate node of the rule over an input.
fn grouped_rel(input: Rel) -> (r: Rel)
    ensures
        r@ == grouped(input@),
{
    let g = symbol1("G", "T", generic_type("TG"));
    let mut inputs: Vec<Type> = Vec::new();
    inputs.push(generic_type("T"));
    let agg = AggregatePattern::new(owned("Agg"), inputs, generic_type("U"));
    assert(agg@ == agg_symbol()) by {
        assert(crate::ast::pattern::view_types(agg.input_types@) =~= seq![generic("T"@)]);
    }
    let group = one(g.call_as(one(column("x")), owned("g_output")));
    let agg_call = agg.call(one(column("x")));
    let aggs = one(Expr::Alias { expr: Box::new(agg_call), relation: None, name: owned("agg_output") });
    aggregate_rel(input, group, aggs)
}

impl RewriteRule for FilterAggregateTransposeRule {
    open spec fn spec_from(&self) -> SpecPlan {
        filter_aggregate_transpose_from()
    }

    open spec fn spec_to(&self) -> SpecPlan {
        filter_aggregate_transpose_to()
    }

    open spec fn spec_name(&self) -> Seq<char> {
        "FilterAggregateTransposeRule"@
    }

    fn from(&self) -> (r: Rel) {
        let group_cond = symbol1("GroupCond", "TG", Type::Boolean);
        let agg_cond = symbol2("AggCond", "TG", "U", Type::Boolean);
        let source = source_rel("source", "x", "T");
        let cond = Expr::Binary {
            left: Box::new(call1(&group_cond, "g_output")),
            op: Operator::And,
            right: Box::new(call2(&agg_cond, "g_output", "agg_output")),
        };
        filter_rel(grouped_rel(source), cond)
    }

    fn to(&self) -> (r: Rel) {
        let g = symbol1("G", "T", generic_type("TG"));
        let group_cond = symbol1("GroupCond", "TG", Type::Boolean);
        let agg_cond = symbol2("AggCond", "TG", "U", Type::Boolean);
        let source = source_rel("source", "x", "T");
        let filtered = filter_rel(source, group_cond.call(one(call1(&g, "x"))));
        filter_rel(grouped_rel(filtered), call2(&agg_cond, "g_output", "agg_output"))
    }

    fn name(&self) -> (r: &'static str) {
        "FilterAggregateTransposeRule"
    }
}

impl ApplicableRule for FilterAggregateTransposeRule {}

} // verus!
