//! Pushes a filter below a projection by rewriting its predicate:
//! `Filter(P(y), Project(f(x), source))` becomes `Project(f(x), Filter(P(f(x)), source))`.
use vstd::prelude::*;
use crate::ast::opaque::{SpecType, Type};
use crate::ast::pattern::{aliased, scalar_call};
use crate::ast::relational::{spec_filter, spec_project, Rel};
use crate::plan::SpecPlan;
use crate::rule::parts::{
    call1, column, filter_rel, generic, generic_type, one, project_rel, source_of, source_rel, symbol, symbol1, ucol,
};
use crate::rule::{ApplicableRule, RewriteRule};
use crate::text::owned;

verus! {

pub struct FilterProjectTransposeRule;

pub open spec fn filter_project_transpose_from() -> SpecPlan {
    let f = symbol("f"@, seq![generic("T"@)], generic("Tf"@));
    let p = symbol("P"@, seq![generic("Tf"@)], SpecType::Boolean);
    let source = source_of("source"@, "x"@, "T"@);
    spec_filter(
        spec_project(source, seq![aliased(scalar_call(f, seq![ucol("x"@)]), "f_output"@)]),
        scalar_call(p, seq![ucol("f_output"@)]),
    )
}

pub open spec fn filter_project_transpose_to() -> SpecPlan {
    let f = symbol("f"@, seq![generic("T"@)], generic("Tf"@));
    let p = symbol("P"@, seq![generic("Tf"@)], SpecType::Boolean);
    let source = source_of("source"@, "x"@, "T"@);
    spec_project(
        spec_filter(source, scalar_call(p, seq![scalar_call(f, seq![ucol("x"@)])])),
        seq![scalar_call(f, seq![ucol("x"@)])],
    )
}

impl RewriteRule for FilterProjectTransposeRule {
    open spec fn spec_from(&self) -> SpecPlan {
        filter_project_transpose_from()
    }

    open spec fn spec_to(&self) -> SpecPlan {
        filter_project_transpose_to()
    }

    open spec fn spec_name(&self) -> Seq<char> {
        "FilterProjectTransposeRule"@
    }

    fn from(&self) -> (r: Rel) {
        let f = symbol1("f", "T", generic_type("Tf"));
        let p = symbol1("P", "Tf", Type::Boolean);
        let source = source_rel("source", "x", "T");
        let inner = project_rel(source, one(f.call_as(one(column("x")), owned("f_output"))));
        filter_rel(inner, call1(&p, "f_output"))
    }

    fn to(&self) -> (r: Rel) {
        let f = symbol1("f", "T", generic_type("Tf"));
        let p = symbol1("P", "Tf", Type::Boolean);
        let source = source_rel("source", "x", "T");
        let filtered = filter_rel(source, p.call(one(call1(&f, "x"))));
        project_rel(filtered, one(call1(&f, "x")))
    }

    fn name(&self) -> (r: &'static str) {
        "FilterProjectTransposeRule"
    }
}

impl ApplicableRule for FilterProjectTransposeRule {}

} // verus!
