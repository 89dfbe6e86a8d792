//! Replaces a filter whose predicate is the constant FALSE by an empty relation:
//! `Filter(false, source)` becomes `Empty(source)`.
use vstd::prelude::*;
use crate::ast::relational::{spec_filter, Rel};
use crate::plan::SpecPlan;
use crate::rule::parts::{bool_lit, boolean, empty_of, empty_rel, filter_rel, source_of, source_rel};
use crate::rule::{ApplicableRule, RewriteRule};

verus! {

pub struct FilterReduceFalseRule;

pub open spec fn filter_reduce_false_from() -> SpecPlan {
    spec_filter(source_of("source"@, "col"@, "T"@), bool_lit(false))
}

pub open spec fn filter_reduce_false_to() -> SpecPlan {
    empty_of(source_of("source"@, "col"@, "T"@))
}

impl RewriteRule for FilterReduceFalseRule {
    open spec fn spec_from(&self) -> SpecPlan {
        filter_reduce_false_from()
    }

    open spec fn spec_to(&self) -> SpecPlan {
        filter_reduce_false_to()
    }

    open spec fn spec_name(&self) -> Seq<char> {
        "FilterReduceFalseRule"@
    }

    fn from(&self) -> (r: Rel) {
        filter_rel(source_rel("source", "col", "T"), boolean(false))
    }

    fn to(&self) -> (r: Rel) {
        empty_rel(source_rel("source", "col", "T"))
    }

    fn name(&self) -> (r: &'static str) {
        "FilterReduceFalseRule"
    }
}

impl ApplicableRule for FilterReduceFalseRule {}

} // verus!
