//! Removes a filter whose predicate is the constant TRUE: `Filter(true, source)` becomes
//! `source`.
use vstd::prelude::*;
use crate::ast::relational::{spec_filter, Rel};
use crate::plan::SpecPlan;
use crate::rule::parts::{bool_lit, boolean, filter_rel, source_of, source_rel};
use crate::rule::{ApplicableRule, RewriteRule};

verus! {

pub struct FilterReduceTrueRule;

pub open spec fn filter_reduce_true_from() -> SpecPlan {
    spec_filter(source_of("source"@, "col"@, "T"@), bool_lit(true))
}

pub open spec fn filter_reduce_true_to() -> SpecPlan {
    source_of("source"@, "col"@, "T"@)
}

impl RewriteRule for FilterReduceTrueRule {
    open spec fn spec_from(&self) -> SpecPlan {
        filter_reduce_true_from()
    }

    open spec fn spec_to(&self) -> SpecPlan {
        filter_reduce_true_to()
    }

    open spec fn spec_name(&self) -> Seq<char> {
        "FilterReduceTrueRule"@
    }

    fn from(&self) -> (r: Rel) {
        filter_rel(source_rel("source", "col", "T"), boolean(true))
    }

    fn to(&self) -> (r: Rel) {
        source_rel("source", "col", "T")
    }

    fn name(&self) -> (r: &'static str) {
        "FilterReduceTrueRule"
    }
}

impl ApplicableRule for FilterReduceTrueRule {}

} // verus!
