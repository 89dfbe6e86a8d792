//! Prunes a projection over an empty relation: `Project(f(col) as result, Empty(source))`
//! becomes an empty relation shaped like `Project(f(col) as result, source)`.
use vstd::prelude::*;
use crate::ast::pattern::{aliased, scalar_call};
use crate::ast::relational::{spec_project, Rel};
use crate::plan::{SpecFunctionRef, SpecPlan};
use crate::rule::parts::{
    column, empty_of, empty_rel, generic, generic_type, one, project_rel, source_of, source_rel, symbol, symbol1, ucol,
};
use crate::rule::{ApplicableRule, RewriteRule};
use crate::text::owned;

verus! {

pub struct PruneEmptyProjectRule;

pub open spec fn projected_symbol() -> SpecFunctionRef {
    symbol("f"@, seq![generic("T"@)], generic("U"@))
}

/// The projection of the rule over an input.
pub open spec fn projected(input: SpecPlan) -> SpecPlan {
    spec_project(input, seq![aliased(scalar_call(projected_symbol(), seq![ucol("col"@)]), "result"@)])
}

pub open spec fn prune_empty_project_from() -> SpecPlan {
    projected(empty_of(source_of("source"@, "col"@, "T"@)))
}

pub open spec fn prune_empty_project_to() -> SpecPlan {
    empty_of(projected(source_of("source"@, "col"@, "T"@)))
}

fn projected_rel(input: Rel) -> (r: Rel)
    ensures
        r@ == projected(input@),
{
    let f = symbol1("f", "T", generic_type("U"));
    project_rel(input, one(f.call_as(one(column("col")), owned("result"))))
}

impl RewriteRule for PruneEmptyProjectRule {
    open spec fn spec_from(&self) -> SpecPlan {
        prune_empty_project_from()
    }

    open spec fn spec_to(&self) -> SpecPlan {
        prune_empty_project_to()
    }

    open spec fn spec_name(&self) -> Seq<char> {
        "PruneEmptyProjectRule"@
    }

    fn from(&self) -> (r: Rel) {
        projected_rel(empty_rel(source_rel("source", "col", "T")))
    }

    fn to(&self) -> (r: Rel) {
        empty_rel(projected_rel(source_rel("source", "col", "T")))
    }

    fn name(&self) -> (r: &'static str) {
        "PruneEmptyProjectRule"
    }
}

impl ApplicableRule for PruneEmptyProjectRule {}

} // verus!
