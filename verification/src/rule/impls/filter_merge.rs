//! Merges two consecutive filters into one: `Filter(P, Filter(Q, source))` becomes
//! `Filter(P AND Q, source)`.
use vstd::prelude::*;
use crate::ast::opaque::{SpecType, Type};
use crate::ast::pattern::{binary, scalar_call};
use crate::ast::relational::{spec_filter, Rel};
use crate::plan::{Expr, Operator, SpecOperator, SpecPlan};
use crate::rule::parts::{call1, filter_rel, generic, source_of, source_rel, symbol, symbol1, ucol};
use crate::rule::{ApplicableRule, RewriteRule};

verus! {

pub struct FilterMergeRule;

pub open spec fn filter_merge_from() -> SpecPlan {
    let p = symbol("P"@, seq![generic("T"@)], SpecType::Boolean);
    let q = symbol("Q"@, seq![generic("T"@)], SpecType::Boolean);
    let source = source_of("source"@, "col"@, "T"@);
    spec_filter(spec_filter(source, scalar_call(q, seq![ucol("col"@)])), scalar_call(p, seq![ucol("col"@)]))
}

pub open spec fn filter_merge_to() -> SpecPlan {
    let p = symbol("P"@, seq![generic("T"@)], SpecType::Boolean);
    let q = symbol("Q"@, seq![generic("T"@)], SpecType::Boolean);
    let source = source_of("source"@, "col"@, "T"@);
    spec_filter(
        source,
        binary(scalar_call(p, seq![ucol("col"@)]), SpecOperator::And, scalar_call(q, seq![ucol("col"@)])),
    )
}

impl RewriteRule for FilterMergeRule {
    open spec fn spec_from(&self) -> SpecPlan {
        filter_merge_from()
    }

    open spec fn spec_to(&self) -> SpecPlan {
        filter_merge_to()
    }

    open spec fn spec_name(&self) -> Seq<char> {
        "FilterMergeRule"@
    }

    fn from(&self) -> (r: Rel) {
        let p = symbol1("P", "T", Type::Boolean);
        let q = symbol1("Q", "T", Type::Boolean);
        let source = source_rel("source", "col", "T");
        let inner = filter_rel(source, call1(&q, "col"));
        filter_rel(inner, call1(&p, "col"))
    }

    fn to(&self) -> (r: Rel) {
        let p = symbol1("P", "T", Type::Boolean);
        let q = symbol1("Q", "T", Type::Boolean);
        let source = source_rel("source", "col", "T");
        let cond = Expr::Binary { left: Box::new(call1(&p, "col")), op: Operator::And, right: Box::new(call1(&q, "col")) };
        filter_rel(source, cond)
    }

    fn name(&self) -> (r: &'static str) {
        "FilterMergeRule"
    }
}

impl ApplicableRule for FilterMergeRule {}

} // verus!
