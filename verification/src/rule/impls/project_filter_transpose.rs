//! Pulls a projection above a filter: `Project(f(x), Filter(P(x), source))` becomes
//! `Filter(P(f_output), Project(f(x), source))`. `f` and `P` are abstract functions,
//! which the matcher does not bind.
use vstd::prelude::*;
use crate::ast::opaque::{SpecType, Type};
use crate::ast::pattern::{aliased, scalar_call, symbol_ref, view_types};
use crate::ast::relational::{spec_filter, spec_project, Rel};
use crate::ast::scalar::Function;
use crate::plan::{Expr, SpecCallee, SpecFunctionRef, SpecPlan, SpecSignature};
use crate::rule::parts::{column, filter_rel, generic, generic_type, one, project_rel, source_of, source_rel, ucol};
use crate::rule::{ApplicableRule, RewriteRule};
use crate::text::owned;

verus! {

pub struct ProjectFilterTransposeRule;

/// An abstract function of one generic argument.
pub open spec fn abstract_fn(name: Seq<char>, arg: Seq<char>, ret: SpecType) -> SpecFunctionRef {
    symbol_ref(name, SpecCallee::Abstract(SpecSignature { input_types: seq![generic(arg)], return_type: ret }), ret)
}

pub open spec fn project_filter_transpose_from() -> SpecPlan {
    let f = abstract_fn("f"@, "T"@, generic("Tf"@));
    let p = abstract_fn("P"@, "T"@, SpecType::Boolean);
    let source = source_of("source"@, "x"@, "T"@);
    spec_project(
        spec_filter(source, scalar_call(p, seq![ucol("x"@)])),
        seq![aliased(scalar_call(f, seq![ucol("x"@)]), "f_output"@)],
    )
}

pub open spec fn project_filter_transpose_to() -> SpecPlan {
    let f = abstract_fn("f"@, "T"@, generic("Tf"@));
    let p = abstract_fn("P"@, "T"@, SpecType::Boolean);
    let source = source_of("source"@, "x"@, "T"@);
    spec_filter(
        spec_project(source, seq![aliased(scalar_call(f, seq![ucol("x"@)]), "f_output"@)]),
        scalar_call(p, seq![ucol("f_output"@)]),
    )
}

fn function1(name: &str, arg: &str, ret: Type) -> (r: Function)
    ensures
        r@ == abstract_fn(name@, arg@, ret@),
        r.input_types@.len() == 1,
{
    let mut inputs: Vec<Type> = Vec::new();
    inputs.push(generic_type(arg));
    let r = Function::new(owned(name), inputs, ret);
    assert(view_types(r.input_types@) =~= seq![generic(arg@)]);
    r
}

impl RewriteRule for ProjectFilterTransposeRule {
    open spec fn spec_from(&self) -> SpecPlan {
        project_filter_transpose_from()
    }

    open spec fn spec_to(&self) -> SpecPlan {
        project_filter_transpose_to()
    }

    open spec fn spec_name(&self) -> Seq<char> {
        "ProjectFilterTransposeRule"@
    }

    fn from(&self) -> (r: Rel) {
        let f = function1("f", "T", generic_type("Tf"));
        let p = function1("P", "T", Type::Boolean);
        let source = source_rel("source", "x", "T");
        let filtered = filter_rel(source, p.call(one(column("x"))));
        project_rel(filtered, one(f.call_as(one(column("x")), owned("f_output"))))
    }

    fn to(&self) -> (r: Rel) {
        let f = function1("f", "T", generic_type("Tf"));
        let p = function1("P", "T", Type::Boolean);
        let source = source_rel("source", "x", "T");
        let projected = project_rel(source, one(f.call_as(one(column("x")), owned("f_output"))));
        filter_rel(projected, p.call(one(column("f_output"))))
    }

    fn name(&self) -> (r: &'static str) {
        "ProjectFilterTransposeRule"
    }
}

impl ApplicableRule for ProjectFilterTransposeRule {}

} // verus!
