//! Pulls a projection of a join's left input above the join:
//! `Join(Inner, P(f_output, r), Project(f(l), left), right)` becomes
//! `Project([f(l), r], Join(Inner, P(f(l), r), left, right))`.
use vstd::prelude::*;
use crate::ast::opaque::{SpecType, Type};
use crate::ast::pattern::{aliased, scalar_call};
use crate::ast::relational::{spec_project, Rel};
use crate::plan::SpecPlan;
use crate::rule::parts::{
    call1, call2, column, generic, generic_type, inner_join, join_rel, one, project_rel, source_of, source_rel, symbol,
    symbol1, symbol2, two, ucol,
};
use crate::rule::{ApplicableRule, RewriteRule};
use crate::text::owned;

verus! {

pub struct JoinLeftProjectTransposeRule;

pub open spec fn join_left_project_transpose_from() -> SpecPlan {
    let f = symbol("f"@, seq![generic("TL"@)], generic("Tf"@));
    let p = symbol("P"@, seq![generic("Tf"@), generic("TR"@)], SpecType::Boolean);
    inner_join(
        spec_project(source_of("left"@, "l"@, "TL"@), seq![aliased(scalar_call(f, seq![ucol("l"@)]), "f_output"@)]),
        source_of("right"@, "r"@, "TR"@),
        scalar_call(p, seq![ucol("f_output"@), ucol("r"@)]),
    )
}

pub open spec fn join_left_project_transpose_to() -> SpecPlan {
    let f = symbol("f"@, seq![generic("TL"@)], generic("Tf"@));
    let p = symbol("P"@, seq![generic("Tf"@), generic("TR"@)], SpecType::Boolean);
    spec_project(
        inner_join(
            source_of("left"@, "l"@, "TL"@),
            source_of("right"@, "r"@, "TR"@),
            scalar_call(p, seq![scalar_call(f, seq![ucol("l"@)]), ucol("r"@)]),
        ),
        seq![scalar_call(f, seq![ucol("l"@)]), ucol("r"@)],
    )
}

impl RewriteRule for JoinLeftProjectTransposeRule {
    open spec fn spec_from(&self) -> SpecPlan {
        join_left_project_transpose_from()
    }

    open spec fn spec_to(&self) -> SpecPlan {
        join_left_project_transpose_to()
    }

    open spec fn spec_name(&self) -> Seq<char> {
        "JoinLeftProjectTransposeRule"@
    }

    fn from(&self) -> (r: Rel) {
        let f = symbol1("f", "TL", generic_type("Tf"));
        let p = symbol2("P", "Tf", "TR", Type::Boolean);
        let proj_left = project_rel(source_rel("left", "l", "TL"), one(f.call_as(one(column("l")), owned("f_output"))));
        join_rel(proj_left, source_rel("right", "r", "TR"), call2(&p, "f_output", "r"))
    }

    fn to(&self) -> (r: Rel) {
        let f = symbol1("f", "TL", generic_type("Tf"));
        let p = symbol2("P", "Tf", "TR", Type::Boolean);
        let cond = p.call(two(call1(&f, "l"), column("r")));
        let new_join = join_rel(source_rel("left", "l", "TL"), source_rel("right", "r", "TR"), cond);
        project_rel(new_join, two(call1(&f, "l"), column("r")))
    }

    fn name(&self) -> (r: &'static str) {
        "JoinLeftProjectTransposeRule"
    }
}

impl ApplicableRule for JoinLeftProjectTransposeRule {}

} // verus!
