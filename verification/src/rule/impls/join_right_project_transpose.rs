//! Pulls a projection of a join's right input above the join:
//! `Join(Inner, P(l, f_output), left, Project(f(r), right))` becomes
//! `Project([l, f(r)], Join(Inner, P(l, f(r)), left, right))`.
use vstd::prelude::*;
use crate::ast::opaque::{SpecType, Type};
use crate::ast::pattern::{aliased, scalar_call};
use crate::ast::relational::{spec_project, Rel};
use crate::plan::SpecPlan;
use crate::rule::parts::{
    call1, call2, column, generic, generic_type, inner_join, join_rel, one, project_rel, source_of, source_rel, symbol,
    symbol1, symbol2, two, ucol,
};
use crate::rule::{ApplicableRule, RewriteRule};
use crate::text::owned;

verus! {

pub struct JoinRightProjectTransposeRule;

pub open spec fn join_right_project_transpose_from() -> SpecPlan {
    let f = symbol("f"@, seq![generic("TR"@)], generic("Tf"@));
    let p = symbol("P"@, seq![generic("TL"@), generic("Tf"@)], SpecType::Boolean);
    inner_join(
        source_of("left"@, "l"@, "TL"@),
        spec_project(source_of("right"@, "r"@, "TR"@), seq![aliased(scalar_call(f, seq![ucol("r"@)]), "f_output"@)]),
        scalar_call(p, seq![ucol("l"@), ucol("f_output"@)]),
    )
}

pub open spec fn join_right_project_transpose_to() -> SpecPlan {
    let f = symbol("f"@, seq![generic("TR"@)], generic("Tf"@));
    let p = symbol("P"@, seq![generic("TL"@), generic("Tf"@)], SpecType::Boolean);
    spec_project(
        inner_join(
            source_of("left"@, "l"@, "TL"@),
            source_of("right"@, "r"@, "TR"@),
            scalar_call(p, seq![ucol("l"@), scalar_call(f, seq![ucol("r"@)])]),
        ),
        seq![ucol("l"@), scalar_call(f, seq![ucol("r"@)])],
    )
}

impl RewriteRule for JoinRightProjectTransposeRule {
    open spec fn spec_from(&self) -> SpecPlan {
        join_right_project_transpose_from()
    }

    open spec fn spec_to(&self) -> SpecPlan {
        join_right_project_transpose_to()
    }

    open spec fn spec_name(&self) -> Seq<char> {
        "JoinRightProjectTransposeRule"@
    }

    fn from(&self) -> (r: Rel) {
        let f = symbol1("f", "TR", generic_type("Tf"));
        let p = symbol2("P", "TL", "Tf", Type::Boolean);
        let proj_right = project_rel(source_rel("right", "r", "TR"), one(f.call_as(one(column("r")), owned("f_output"))));
        join_rel(source_rel("left", "l", "TL"), proj_right, call2(&p, "l", "f_output"))
    }

    fn to(&self) -> (r: Rel) {
        let f = symbol1("f", "TR", generic_type("Tf"));
        let p = symbol2("P", "TL", "Tf", Type::Boolean);
        let cond = p.call(two(column("l"), call1(&f, "r")));
        let new_join = join_rel(source_rel("left", "l", "TL"), source_rel("right", "r", "TR"), cond);
        project_rel(new_join, two(column("l"), call1(&f, "r")))
    }

    fn name(&self) -> (r: &'static str) {
        "JoinRightProjectTransposeRule"
    }
}

impl ApplicableRule for JoinRightProjectTransposeRule {}

} // verus!
