//! Removes an identity projection: `Project([col], source)`, where the pattern column
//! stands for all columns of the source in order, becomes `source`.
use vstd::prelude::*;
use crate::ast::relational::{spec_project, Rel};
use crate::plan::SpecPlan;
use crate::rule::parts::{column, one, project_rel, source_of, source_rel, ucol};
use crate::rule::{ApplicableRule, RewriteRule};

verus! {

pub struct ProjectRemoveRule;

pub open spec fn project_remove_from() -> SpecPlan {
    spec_project(source_of("source"@, "col"@, "T"@), seq![ucol("col"@)])
}

pub open spec fn project_remove_to() -> SpecPlan {
    source_of("source"@, "col"@, "T"@)
}

impl RewriteRule for ProjectRemoveRule {
    open spec fn spec_from(&self) -> SpecPlan {
        project_remove_from()
    }

    open spec fn spec_to(&self) -> SpecPlan {
        project_remove_to()
    }

    open spec fn spec_name(&self) -> Seq<char> {
        "ProjectRemoveRule"@
    }

    fn from(&self) -> (r: Rel) {
        let source = source_rel("source", "col", "T");
        project_rel(source, one(column("col")))
    }

    fn to(&self) -> (r: Rel) {
        source_rel("source", "col", "T")
    }

    fn name(&self) -> (r: &'static str) {
        "ProjectRemoveRule"
    }
}

impl ApplicableRule for ProjectRemoveRule {}

} // verus!
