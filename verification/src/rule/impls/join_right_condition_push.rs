//! Pushes a right-only condition of an inner join down as a filter on the right input:
//! `Join(Inner, RightCond AND JoinCond, L, R)` becomes
//! `Join(Inner, JoinCond, L, Filter(RightCond, R))`.
use vstd::prelude::*;
use crate::ast::opaque::{SpecType, Type};
use crate::ast::pattern::{binary, scalar_call};
use crate::ast::relational::{spec_filter, Rel};
use crate::plan::{SpecOperator, SpecPlan};
use crate::rule::parts::{call1, call2, column, one, filter_rel, generic, inner_join, join_rel, source_of, source_rel, symbol, symbol1, symbol2, ucol};
use crate::rule::{ApplicableRule, RewriteRule};

verus! {

pub struct JoinRightConditionPushRule;

pub open spec fn join_right_condition_push_from() -> SpecPlan {
    let rc = symbol("RightCond"@, seq![generic("TR"@)], SpecType::Boolean);
    let jc = symbol("JoinCond"@, seq![generic("TL"@), generic("TR"@)], SpecType::Boolean);
    inner_join(
        source_of("left"@, "l"@, "TL"@),
        source_of("right"@, "r"@, "TR"@),
        binary(scalar_call(rc, seq![ucol("r"@)]), SpecOperator::And, scalar_call(jc, seq![ucol("l"@), ucol("r"@)])),
    )
}

pub open spec fn join_right_condition_push_to() -> SpecPlan {
    let rc = symbol("RightCond"@, seq![generic("TR"@)], SpecType::Boolean);
    let jc = symbol("JoinCond"@, seq![generic("TL"@), generic("TR"@)], SpecType::Boolean);
    inner_join(
        source_of("left"@, "l"@, "TL"@),
        spec_filter(source_of("right"@, "r"@, "TR"@), scalar_call(rc, seq![ucol("r"@)])),
        scalar_call(jc, seq![ucol("l"@), ucol("r"@)]),
    )
}

impl RewriteRule for JoinRightConditionPushRule {
    open spec fn spec_from(&self) -> SpecPlan {
        join_right_condition_push_from()
    }

    open spec fn spec_to(&self) -> SpecPlan {
        join_right_condition_push_to()
    }

    open spec fn spec_name(&self) -> Seq<char> {
        "JoinRightConditionPushRule"@
    }

    fn from(&self) -> (r: Rel) {
        let rc = symbol1("RightCond", "TR", Type::Boolean);
        let jc = symbol2("JoinCond", "TL", "TR", Type::Boolean);
        let cond = rc.and(one(column("r")), call2(&jc, "l", "r"));
        join_rel(source_rel("left", "l", "TL"), source_rel("right", "r", "TR"), cond)
    }

    fn to(&self) -> (r: Rel) {
        let rc = symbol1("RightCond", "TR", Type::Boolean);
        let jc = symbol2("JoinCond", "TL", "TR", Type::Boolean);
        let fr = filter_rel(source_rel("right", "r", "TR"), call1(&rc, "r"));
        join_rel(source_rel("left", "l", "TL"), fr, call2(&jc, "l", "r"))
    }

    fn name(&self) -> (r: &'static str) {
        "JoinRightConditionPushRule"
    }
}

impl ApplicableRule for JoinRightConditionPushRule {}

} // verus!
