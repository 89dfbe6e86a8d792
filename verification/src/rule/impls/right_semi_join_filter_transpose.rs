//! Moves a filter on the right input of a right semi join above the join:
//! `Join(RightSemi, C, L, Filter(P, R))` becomes `Filter(P, Join(RightSemi, C, L, R))`.
use vstd::prelude::*;
use crate::ast::opaque::{SpecType, Type};
use crate::ast::pattern::scalar_call;
use crate::ast::relational::{spec_filter, spec_join, Rel};
use crate::plan::{JoinType, SpecPlan};
use crate::rule::parts::{call1, call2, filter_rel, generic, join_kind_rel, source_of, source_rel, symbol, symbol1, symbol2, ucol};
use crate::rule::{ApplicableRule, RewriteRule};

verus! {

pub struct RightSemiJoinFilterTransposeRule;

pub open spec fn right_semi_join_filter_transpose_from() -> SpecPlan {
    let p = symbol("P"@, seq![generic("TR"@)], SpecType::Boolean);
    let c = symbol("C"@, seq![generic("TL"@), generic("TR"@)], SpecType::Boolean);
    let filtered = spec_filter(source_of("right"@, "r"@, "TR"@), scalar_call(p, seq![ucol("r"@)]));
    spec_join(
        source_of("left"@, "x"@, "TL"@),
        filtered,
        JoinType::RightSemi,
        Seq::empty(),
        Some(scalar_call(c, seq![ucol("x"@), ucol("r"@)])),
    )
}

pub open spec fn right_semi_join_filter_transpose_to() -> SpecPlan {
    let p = symbol("P"@, seq![generic("TR"@)], SpecType::Boolean);
    let c = symbol("C"@, seq![generic("TL"@), generic("TR"@)], SpecType::Boolean);
    let semi = spec_join(
        source_of("left"@, "x"@, "TL"@),
        source_of("right"@, "r"@, "TR"@),
        JoinType::RightSemi,
        Seq::empty(),
        Some(scalar_call(c, seq![ucol("x"@), ucol("r"@)])),
    );
    spec_filter(semi, scalar_call(p, seq![ucol("r"@)]))
}

impl RewriteRule for RightSemiJoinFilterTransposeRule {
    open spec fn spec_from(&self) -> SpecPlan {
        right_semi_join_filter_transpose_from()
    }

    open spec fn spec_to(&self) -> SpecPlan {
        right_semi_join_filter_transpose_to()
    }

    open spec fn spec_name(&self) -> Seq<char> {
        "RightSemiJoinFilterTransposeRule"@
    }

    fn from(&self) -> (r: Rel) {
        let p = symbol1("P", "TR", Type::Boolean);
        let c = symbol2("C", "TL", "TR", Type::Boolean);
        let filtered = filter_rel(source_rel("right", "r", "TR"), call1(&p, "r"));
        join_kind_rel(source_rel("left", "x", "TL"), filtered, JoinType::RightSemi, call2(&c, "x", "r"))
    }

    fn to(&self) -> (r: Rel) {
        let p = symbol1("P", "TR", Type::Boolean);
        let c = symbol2("C", "TL", "TR", Type::Boolean);
        let semi = join_kind_rel(source_rel("left", "x", "TL"), source_rel("right", "r", "TR"), JoinType::RightSemi, call2(&c, "x", "r"));
        filter_rel(semi, call1(&p, "r"))
    }

    fn name(&self) -> (r: &'static str) {
        "RightSemiJoinFilterTransposeRule"
    }
}

impl ApplicableRule for RightSemiJoinFilterTransposeRule {}

} // verus!
