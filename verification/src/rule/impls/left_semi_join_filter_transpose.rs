//! Moves a filter on the left input of a left semi join above the join:
//! `Join(LeftSemi, C, Filter(P, L), R)` becomes `Filter(P, Join(LeftSemi, C, L, R))`.
use vstd::prelude::*;
use crate::ast::opaque::{SpecType, Type};
use crate::ast::pattern::scalar_call;
use crate::ast::relational::{spec_filter, spec_join, Rel};
use crate::plan::{JoinType, SpecPlan};
use crate::rule::parts::{call1, call2, filter_rel, generic, join_kind_rel, source_of, source_rel, symbol, symbol1, symbol2, ucol};
use crate::rule::{ApplicableRule, RewriteRule};

verus! {

pub struct LeftSemiJoinFilterTransposeRule;

pub open spec fn left_semi_join_filter_transpose_from() -> SpecPlan {
    let p = symbol("P"@, seq![generic("TL"@)], SpecType::Boolean);
    let c = symbol("C"@, seq![generic("TL"@), generic("TR"@)], SpecType::Boolean);
    let filtered = spec_filter(source_of("left"@, "x"@, "TL"@), scalar_call(p, seq![ucol("x"@)]));
    spec_join(
        filtered,
        source_of("right"@, "r"@, "TR"@),
        JoinType::LeftSemi,
        Seq::empty(),
        Some(scalar_call(c, seq![ucol("x"@), ucol("r"@)])),
    )
}

pub open spec fn left_semi_join_filter_transpose_to() -> SpecPlan {
    let p = symbol("P"@, seq![generic("TL"@)], SpecType::Boolean);
    let c = symbol("C"@, seq![generic("TL"@), generic("TR"@)], SpecType::Boolean);
    let semi = spec_join(
        source_of("left"@, "x"@, "TL"@),
        source_of("right"@, "r"@, "TR"@),
        JoinType::LeftSemi,
        Seq::empty(),
        Some(scalar_call(c, seq![ucol("x"@), ucol("r"@)])),
    );
    spec_filter(semi, scalar_call(p, seq![ucol("x"@)]))
}

impl RewriteRule for LeftSemiJoinFilterTransposeRule {
    open spec fn spec_from(&self) -> SpecPlan {
        left_semi_join_filter_transpose_from()
    }

    open spec fn spec_to(&self) -> SpecPlan {
        left_semi_join_filter_transpose_to()
    }

    open spec fn spec_name(&self) -> Seq<char> {
        "LeftSemiJoinFilterTransposeRule"@
    }

    fn from(&self) -> (r: Rel) {
        let p = symbol1("P", "TL", Type::Boolean);
        let c = symbol2("C", "TL", "TR", Type::Boolean);
        let filtered = filter_rel(source_rel("left", "x", "TL"), call1(&p, "x"));
        join_kind_rel(filtered, source_rel("right", "r", "TR"), JoinType::LeftSemi, call2(&c, "x", "r"))
    }

    fn to(&self) -> (r: Rel) {
        let p = symbol1("P", "TL", Type::Boolean);
        let c = symbol2("C", "TL", "TR", Type::Boolean);
        let semi = join_kind_rel(source_rel("left", "x", "TL"), source_rel("right", "r", "TR"), JoinType::LeftSemi, call2(&c, "x", "r"));
        filter_rel(semi, call1(&p, "x"))
    }

    fn name(&self) -> (r: &'static str) {
        "LeftSemiJoinFilterTransposeRule"
    }
}

impl ApplicableRule for LeftSemiJoinFilterTransposeRule {}

} // verus!
