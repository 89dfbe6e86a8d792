//! Pushes single-input conditions of an inner join down as filters:
//! `Join(Inner, LeftCond AND RightCond AND CrossCond, L, R)` becomes
//! `Join(Inner, CrossCond, Filter(LeftCond, L), Filter(RightCond, R))`.
use vstd::prelude::*;
use crate::ast::opaque::{SpecType, Type};
use crate::ast::pattern::{binary, scalar_call};
use crate::ast::relational::{spec_filter, Rel};
use crate::plan::{SpecOperator, SpecPlan};
use crate::rule::parts::{call1, call2, column, one, filter_rel, generic, inner_join, join_rel, source_of, source_rel, symbol, symbol1, symbol2, ucol};
use crate::rule::{ApplicableRule, RewriteRule};

verus! {

pub struct JoinConditionPushRule;

pub open spec fn join_condition_push_from() -> SpecPlan {
    let lc = symbol("LeftCond"@, seq![generic("TL"@)], SpecType::Boolean);
    let rc = symbol("RightCond"@, seq![generic("TR"@)], SpecType::Boolean);
    let cc = symbol("CrossCond"@, seq![generic("TL"@), generic("TR"@)], SpecType::Boolean);
    inner_join(
        source_of("left"@, "l"@, "TL"@),
        source_of("right"@, "r"@, "TR"@),
        binary(
            scalar_call(lc, seq![ucol("l"@)]),
            SpecOperator::And,
            binary(
                scalar_call(rc, seq![ucol("r"@)]),
                SpecOperator::And,
                scalar_call(cc, seq![ucol("l"@), ucol("r"@)]),
            ),
        ),
    )
}

pub open spec fn join_condition_push_to() -> SpecPlan {
    let lc = symbol("LeftCond"@, seq![generic("TL"@)], SpecType::Boolean);
    let rc = symbol("RightCond"@, seq![generic("TR"@)], SpecType::Boolean);
    let cc = symbol("CrossCond"@, seq![generic("TL"@), generic("TR"@)], SpecType::Boolean);
    inner_join(
        spec_filter(source_of("left"@, "l"@, "TL"@), scalar_call(lc, seq![ucol("l"@)])),
        spec_filter(source_of("right"@, "r"@, "TR"@), scalar_call(rc, seq![ucol("r"@)])),
        scalar_call(cc, seq![ucol("l"@), ucol("r"@)]),
    )
}

impl RewriteRule for JoinConditionPushRule {
    open spec fn spec_from(&self) -> SpecPlan {
        join_condition_push_from()
    }

    open spec fn spec_to(&self) -> SpecPlan {
        join_condition_push_to()
    }

    open spec fn spec_name(&self) -> Seq<char> {
        "JoinConditionPushRule"@
    }

    fn from(&self) -> (r: Rel) {
        let lc = symbol1("LeftCond", "TL", Type::Boolean);
        let rc = symbol1("RightCond", "TR", Type::Boolean);
        let cc = symbol2("CrossCond", "TL", "TR", Type::Boolean);
        let rest = rc.and(one(column("r")), call2(&cc, "l", "r"));
        let cond = lc.and(one(column("l")), rest);
        join_rel(source_rel("left", "l", "TL"), source_rel("right", "r", "TR"), cond)
    }

    fn to(&self) -> (r: Rel) {
        let lc = symbol1("LeftCond", "TL", Type::Boolean);
        let rc = symbol1("RightCond", "TR", Type::Boolean);
        let cc = symbol2("CrossCond", "TL", "TR", Type::Boolean);
        let fl = filter_rel(source_rel("left", "l", "TL"), call1(&lc, "l"));
        let fr = filter_rel(source_rel("right", "r", "TR"), call1(&rc, "r"));
        join_rel(fl, fr, call2(&cc, "l", "r"))
    }

    fn name(&self) -> (r: &'static str) {
        "JoinConditionPushRule"
    }
}

impl ApplicableRule for JoinConditionPushRule {}

} // verus!
