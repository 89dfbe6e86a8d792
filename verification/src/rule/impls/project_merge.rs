//! Merges two consecutive projections by composing their functions:
//! `Project(g(f_output), Project(f(col) AS f_output, source))` becomes
//! `Project(g(f(col)), source)`.
use vstd::prelude::*;
use crate::ast::opaque::Type;
use crate::ast::pattern::{aliased, scalar_call};
use crate::ast::relational::{spec_project, Rel};
use crate::plan::SpecPlan;
use crate::rule::parts::{call1, column, generic, generic_type, one, project_rel, source_of, source_rel, symbol, symbol1, ucol};
use crate::rule::{ApplicableRule, RewriteRule};
use crate::text::owned;

verus! {

pub struct ProjectMergeRule;

pub open spec fn project_merge_from() -> SpecPlan {
    let f = symbol("f"@, seq![generic("Tc"@)], generic("Tf"@));
    let g = symbol("g"@, seq![generic("Tf"@)], generic("Tg"@));
    let source = source_of("source"@, "col"@, "Tc"@);
    spec_project(
        spec_project(source, seq![aliased(scalar_call(f, seq![ucol("col"@)]), "f_output"@)]),
        seq![scalar_call(g, seq![ucol("f_output"@)])],
    )
}

pub open spec fn project_merge_to() -> SpecPlan {
    let f = symbol("f"@, seq![generic("Tc"@)], generic("Tf"@));
    let g = symbol("g"@, seq![generic("Tf"@)], generic("Tg"@));
    let source = source_of("source"@, "col"@, "Tc"@);
    spec_project(source, seq![scalar_call(g, seq![scalar_call(f, seq![ucol("col"@)])])])
}

impl RewriteRule for ProjectMergeRule {
    open spec fn spec_from(&self) -> SpecPlan {
        project_merge_from()
    }

    open spec fn spec_to(&self) -> SpecPlan {
        project_merge_to()
    }

    open spec fn spec_name(&self) -> Seq<char> {
        "ProjectMergeRule"@
    }

    fn from(&self) -> (r: Rel) {
        let f = symbol1("f", "Tc", generic_type("Tf"));
        let g = symbol1("g", "Tf", generic_type("Tg"));
        let inner = project_rel(source_rel("source", "col", "Tc"), one(f.call_as(one(column("col")), owned("f_output"))));
        project_rel(inner, one(call1(&g, "f_output")))
    }

    fn to(&self) -> (r: Rel) {
        let f = symbol1("f", "Tc", generic_type("Tf"));
        let g = symbol1("g", "Tf", generic_type("Tg"));
        project_rel(source_rel("source", "col", "Tc"), one(g.call(one(call1(&f, "col")))))
    }

    fn name(&self) -> (r: &'static str) {
        "ProjectMergeRule"
    }
}

impl ApplicableRule for ProjectMergeRule {}

} // verus!
