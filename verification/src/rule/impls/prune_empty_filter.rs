//! Prunes a filter over an empty relation: `Filter(P(col), Empty(source))` becomes
//! `Empty(source)`.
use vstd::prelude::*;
use crate::ast::opaque::{SpecType, Type};
use crate::ast::pattern::scalar_call;
use crate::ast::relational::{spec_filter, Rel};
use crate::plan::SpecPlan;
use crate::rule::parts::{
    call1, empty_of, empty_rel, filter_rel, generic, source_of, source_rel, symbol, symbol1, ucol,
};
use crate::rule::{ApplicableRule, RewriteRule};

verus! {

pub struct PruneEmptyFilterRule;

pub open spec fn prune_empty_filter_from() -> SpecPlan {
    let p = symbol("P"@, seq![generic("T"@)], SpecType::Boolean);
    spec_filter(empty_of(source_of("source"@, "col"@, "T"@)), scalar_call(p, seq![ucol("col"@)]))
}

pub open spec fn prune_empty_filter_to() -> SpecPlan {
    empty_of(source_of("source"@, "col"@, "T"@))
}

impl RewriteRule for PruneEmptyFilterRule {
    open spec fn spec_from(&self) -> SpecPlan {
        prune_empty_filter_from()
    }

    open spec fn spec_to(&self) -> SpecPlan {
        prune_empty_filter_to()
    }

    open spec fn spec_name(&self) -> Seq<char> {
        "PruneEmptyFilterRule"@
    }

    fn from(&self) -> (r: Rel) {
        let p = symbol1("P", "T", Type::Boolean);
        filter_rel(empty_rel(source_rel("source", "col", "T")), call1(&p, "col"))
    }

    fn to(&self) -> (r: Rel) {
        empty_rel(source_rel("source", "col", "T"))
    }

    fn name(&self) -> (r: &'static str) {
        "PruneEmptyFilterRule"
    }
}

impl ApplicableRule for PruneEmptyFilterRule {}

} // verus!
