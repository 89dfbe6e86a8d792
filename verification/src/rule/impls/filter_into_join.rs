//! Merges a filter above an inner join into the join condition:
//! `Filter(pred, Join(Inner, cond, L, R))` becomes `Join(Inner, cond AND pred, L, R)`.
use vstd::prelude::*;
use crate::ast::opaque::{SpecType, Type};
use crate::ast::pattern::{binary, scalar_call};
use crate::ast::relational::{spec_filter, Rel};
use crate::plan::{Expr, Operator, SpecOperator, SpecPlan};
use crate::rule::parts::{call2, filter_rel, generic, inner_join, join_rel, source_of, source_rel, symbol, symbol2, ucol};
use crate::rule::{ApplicableRule, RewriteRule};

verus! {

pub struct FilterIntoJoinRule;

pub open spec fn filter_into_join_from() -> SpecPlan {
    let jc = symbol("JoinCond"@, seq![generic("TL"@), generic("TR"@)], SpecType::Boolean);
    let fp = symbol("FilterPred"@, seq![generic("TL"@), generic("TR"@)], SpecType::Boolean);
    let left = source_of("left"@, "l"@, "TL"@);
    let right = source_of("right"@, "r"@, "TR"@);
    spec_filter(
        inner_join(left, right, scalar_call(jc, seq![ucol("l"@), ucol("r"@)])),
        scalar_call(fp, seq![ucol("l"@), ucol("r"@)]),
    )
}

pub open spec fn filter_into_join_to() -> SpecPlan {
    let jc = symbol("JoinCond"@, seq![generic("TL"@), generic("TR"@)], SpecType::Boolean);
    let fp = symbol("FilterPred"@, seq![generic("TL"@), generic("TR"@)], SpecType::Boolean);
    let left = source_of("left"@, "l"@, "TL"@);
    let right = source_of("right"@, "r"@, "TR"@);
    inner_join(
        left,
        right,
        binary(
            scalar_call(jc, seq![ucol("l"@), ucol("r"@)]),
            SpecOperator::And,
            scalar_call(fp, seq![ucol("l"@), ucol("r"@)]),
        ),
    )
}

impl RewriteRule for FilterIntoJoinRule {
    open spec fn spec_from(&self) -> SpecPlan {
        filter_into_join_from()
    }

    open spec fn spec_to(&self) -> SpecPlan {
        filter_into_join_to()
    }

    open spec fn spec_name(&self) -> Seq<char> {
        "FilterIntoJoinRule"@
    }

    fn from(&self) -> (r: Rel) {
        let jc = symbol2("JoinCond", "TL", "TR", Type::Boolean);
        let fp = symbol2("FilterPred", "TL", "TR", Type::Boolean);
        let join = join_rel(source_rel("left", "l", "TL"), source_rel("right", "r", "TR"), call2(&jc, "l", "r"));
        filter_rel(join, call2(&fp, "l", "r"))
    }

    fn to(&self) -> (r: Rel) {
        let jc = symbol2("JoinCond", "TL", "TR", Type::Boolean);
        let fp = symbol2("FilterPred", "TL", "TR", Type::Boolean);
        let cond = Expr::Binary {
            left: Box::new(call2(&jc, "l", "r")),
            op: Operator::And,
            right: Box::new(call2(&fp, "l", "r")),
        };
        join_rel(source_rel("left", "l", "TL"), source_rel("right", "r", "TR"), cond)
    }

    fn name(&self) -> (r: &'static str) {
        "FilterIntoJoinRule"
    }
}

impl ApplicableRule for FilterIntoJoinRule {}

} // verus!
