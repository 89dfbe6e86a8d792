//! Swaps the inputs of an inner join: `Join(Inner, P(l, r), left, right)` becomes
//! `Project([l, r], Join(Inner, P(r, l), right, left))`.
use vstd::prelude::*;
use crate::ast::opaque::{SpecType, Type};
use crate::ast::pattern::scalar_call;
use crate::ast::relational::{spec_project, Rel};
use crate::plan::SpecPlan;
use crate::rule::parts::{call2, column, generic, inner_join, join_rel, project_rel, source_of, source_rel, symbol, symbol2, two, ucol};
use crate::rule::{ApplicableRule, RewriteRule};

verus! {

pub struct JoinCommuteRule;

pub open spec fn join_commute_from() -> SpecPlan {
    let p = symbol("P"@, seq![generic("TL"@), generic("TR"@)], SpecType::Boolean);
    inner_join(
        source_of("left"@, "l"@, "TL"@),
        source_of("right"@, "r"@, "TR"@),
        scalar_call(p, seq![ucol("l"@), ucol("r"@)]),
    )
}

pub open spec fn join_commute_to() -> SpecPlan {
    let p = symbol("P"@, seq![generic("TL"@), generic("TR"@)], SpecType::Boolean);
    spec_project(
        inner_join(
            source_of("right"@, "r"@, "TR"@),
            source_of("left"@, "l"@, "TL"@),
            scalar_call(p, seq![ucol("r"@), ucol("l"@)]),
        ),
        seq![ucol("l"@), ucol("r"@)],
    )
}

impl RewriteRule for JoinCommuteRule {
    open spec fn spec_from(&self) -> SpecPlan {
        join_commute_from()
    }

    open spec fn spec_to(&self) -> SpecPlan {
        join_commute_to()
    }

    open spec fn spec_name(&self) -> Seq<char> {
        "JoinCommuteRule"@
    }

    fn from(&self) -> (r: Rel) {
        let p = symbol2("P", "TL", "TR", Type::Boolean);
        join_rel(source_rel("left", "l", "TL"), source_rel("right", "r", "TR"), call2(&p, "l", "r"))
    }

    fn to(&self) -> (r: Rel) {
        let p = symbol2("P", "TL", "TR", Type::Boolean);
        let swapped = join_rel(source_rel("right", "r", "TR"), source_rel("left", "l", "TL"), call2(&p, "r", "l"));
        project_rel(swapped, two(column("l"), column("r")))
    }

    fn name(&self) -> (r: &'static str) {
        "JoinCommuteRule"
    }
}

impl ApplicableRule for JoinCommuteRule {}

} // verus!
