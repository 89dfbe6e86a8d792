//! Pushes a left-only condition of an inner join down as a filter on the left input:
//! `Join(Inner, LeftCond AND JoinCond, L, R)` becomes
//! `Join(Inner, JoinCond, Filter(LeftCond, L), R)`.
use vstd::prelude::*;
use crate::ast::opaque::{SpecType, Type};
use crate::ast::pattern::{binary, scalar_call};
use crate::ast::relational::{spec_filter, Rel};
use crate::plan::{SpecOperator, SpecPlan};
use crate::rule::parts::{call1, call2, column, one, filter_rel, generic, inner_join, join_rel, source_of, source_rel, symbol, symbol1, symbol2, ucol};
use crate::rule::{ApplicableRule, RewriteRule};

verus! {

pub struct JoinLeftConditionPushRule;

pub open spec fn join_left_condition_push_from() -> SpecPlan {
    let lc = symbol("LeftCond"@, seq![generic("TL"@)], SpecType::Boolean);
    let jc = symbol("JoinCond"@, seq![generic("TL"@), generic("TR"@)], SpecType::Boolean);
    inner_join(
        source_of("left"@, "l"@, "TL"@),
        source_of("right"@, "r"@, "TR"@),
        binary(scalar_call(lc, seq![ucol("l"@)]), SpecOperator::And, scalar_call(jc, seq![ucol("l"@), ucol("r"@)])),
    )
}

pub open spec fn join_left_condition_push_to() -> SpecPlan {
    let lc = symbol("LeftCond"@, seq![generic("TL"@)], SpecType::Boolean);
    let jc = symbol("JoinCond"@, seq![generic("TL"@), generic("TR"@)], SpecType::Boolean);
    inner_join(
        spec_filter(source_of("left"@, "l"@, "TL"@), scalar_call(lc, seq![ucol("l"@)])),
        source_of("right"@, "r"@, "TR"@),
        scalar_call(jc, seq![ucol("l"@), ucol("r"@)]),
    )
}

impl RewriteRule for JoinLeftConditionPushRule {
    open spec fn spec_from(&self) -> SpecPlan {
        join_left_condition_push_from()
    }

    open spec fn spec_to(&self) -> SpecPlan {
        join_left_condition_push_to()
    }

    open spec fn spec_name(&self) -> Seq<char> {
        "JoinLeftConditionPushRule"@
    }

    fn from(&self) -> (r: Rel) {
        let lc = symbol1("LeftCond", "TL", Type::Boolean);
        let jc = symbol2("JoinCond", "TL", "TR", Type::Boolean);
        let cond = lc.and(one(column("l")), call2(&jc, "l", "r"));
        join_rel(source_rel("left", "l", "TL"), source_rel("right", "r", "TR"), cond)
    }

    fn to(&self) -> (r: Rel) {
        let lc = symbol1("LeftCond", "TL", Type::Boolean);
        let jc = symbol2("JoinCond", "TL", "TR", Type::Boolean);
        let fl = filter_rel(source_rel("left", "l", "TL"), call1(&lc, "l"));
        join_rel(fl, source_rel("right", "r", "TR"), call2(&jc, "l", "r"))
    }

    fn name(&self) -> (r: &'static str) {
        "JoinLeftConditionPushRule"
    }
}

impl ApplicableRule for JoinLeftConditionPushRule {}

} // verus!
