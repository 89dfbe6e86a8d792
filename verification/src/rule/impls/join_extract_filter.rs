//! Extracts an inner join's condition as a filter above a cartesian join:
//! `Join(Inner, cond, L, R)` becomes `Filter(cond, Join(Inner, TRUE, L, R))`.
use vstd::prelude::*;
use crate::ast::opaque::{SpecType, Type};
use crate::ast::pattern::scalar_call;
use crate::ast::relational::{spec_filter, Rel};
use crate::matcher::semantics::true_literal;
use crate::plan::{Expr, Literal, SpecExpr, SpecPlan};
use crate::rule::parts::{call2, filter_rel, generic, inner_join, join_rel, source_of, source_rel, symbol, symbol2, ucol};
use crate::rule::{ApplicableRule, RewriteRule};
use crate::text::owned;

verus! {

pub struct JoinExtractFilterRule;

pub open spec fn join_extract_filter_from() -> SpecPlan {
    let jc = symbol("JoinCond"@, seq![generic("TL"@), generic("TR"@)], SpecType::Boolean);
    inner_join(
        source_of("left"@, "l"@, "TL"@),
        source_of("right"@, "r"@, "TR"@),
        scalar_call(jc, seq![ucol("l"@), ucol("r"@)]),
    )
}

pub open spec fn join_extract_filter_to() -> SpecPlan {
    let jc = symbol("JoinCond"@, seq![generic("TL"@), generic("TR"@)], SpecType::Boolean);
    spec_filter(
        inner_join(
            source_of("left"@, "l"@, "TL"@),
            source_of("right"@, "r"@, "TR"@),
            SpecExpr::Literal(true_literal()),
        ),
        scalar_call(jc, seq![ucol("l"@), ucol("r"@)]),
    )
}

impl RewriteRule for JoinExtractFilterRule {
    open spec fn spec_from(&self) -> SpecPlan {
        join_extract_filter_from()
    }

    open spec fn spec_to(&self) -> SpecPlan {
        join_extract_filter_to()
    }

    open spec fn spec_name(&self) -> Seq<char> {
        "JoinExtractFilterRule"@
    }

    fn from(&self) -> (r: Rel) {
        let jc = symbol2("JoinCond", "TL", "TR", Type::Boolean);
        join_rel(source_rel("left", "l", "TL"), source_rel("right", "r", "TR"), call2(&jc, "l", "r"))
    }

    fn to(&self) -> (r: Rel) {
        let jc = symbol2("JoinCond", "TL", "TR", Type::Boolean);
        let t = Expr::Literal(Literal { value: owned("true"), debug: owned("Boolean(true)"), data_type: owned("Boolean") });
        let cartesian = join_rel(source_rel("left", "l", "TL"), source_rel("right", "r", "TR"), t);
        filter_rel(cartesian, call2(&jc, "l", "r"))
    }

    fn name(&self) -> (r: &'static str) {
        "JoinExtractFilterRule"
    }
}

impl ApplicableRule for JoinExtractFilterRule {}

} // verus!
