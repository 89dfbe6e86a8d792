//! Prunes unions with empty branches: `Union(Empty(a), b)` becomes `b`, `Union(a, Empty(b))`
//! becomes `a`, and `Union(Empty(a), Empty(b))` becomes `Empty(a)`.
use vstd::prelude::*;
use crate::ast::relational::Rel;
use crate::plan::SpecPlan;
use crate::rule::parts::{empty_of, empty_rel, source_of, source_rel, union_of, union_rel};
use crate::rule::{ApplicableRule, RewriteRule};

verus! {

pub struct PruneEmptyUnionLeftRule;

pub struct PruneEmptyUnionRightRule;

pub struct PruneEmptyUnionBothRule;

pub open spec fn branch(name: Seq<char>) -> SpecPlan {
    source_of(name, "col"@, "T"@)
}

fn branch_rel(name: &str) -> (r: Rel)
    ensures
        r@ == branch(name@),
{
    source_rel(name, "col", "T")
}

pub open spec fn prune_empty_union_left_from() -> SpecPlan {
    union_of(empty_of(branch("a"@)), branch("b"@))
}

pub open spec fn prune_empty_union_right_from() -> SpecPlan {
    union_of(branch("a"@), empty_of(branch("b"@)))
}

pub open spec fn prune_empty_union_both_from() -> SpecPlan {
    union_of(empty_of(branch("a"@)), empty_of(branch("b"@)))
}

impl RewriteRule for PruneEmptyUnionLeftRule {
    open spec fn spec_from(&self) -> SpecPlan {
        prune_empty_union_left_from()
    }

    open spec fn spec_to(&self) -> SpecPlan {
        branch("b"@)
    }

    open spec fn spec_name(&self) -> Seq<char> {
        "PruneEmptyUnionLeftRule"@
    }

    fn from(&self) -> (r: Rel) {
        union_rel(empty_rel(branch_rel("a")), branch_rel("b"))
    }

    fn to(&self) -> (r: Rel) {
        branch_rel("b")
    }

    fn name(&self) -> (r: &'static str) {
        "PruneEmptyUnionLeftRule"
    }
}

impl ApplicableRule for PruneEmptyUnionLeftRule {}

impl RewriteRule for PruneEmptyUnionRightRule {
    open spec fn spec_from(&self) -> SpecPlan {
        prune_empty_union_right_from()
    }

    open spec fn spec_to(&self) -> SpecPlan {
        branch("a"@)
    }

    open spec fn spec_name(&self) -> Seq<char> {
        "PruneEmptyUnionRightRule"@
    }

    fn from(&self) -> (r: Rel) {
        union_rel(branch_rel("a"), empty_rel(branch_rel("b")))
    }

    fn to(&self) -> (r: Rel) {
        branch_rel("a")
    }

    fn name(&self) -> (r: &'static str) {
        "PruneEmptyUnionRightRule"
    }
}

impl ApplicableRule for PruneEmptyUnionRightRule {}

impl RewriteRule for PruneEmptyUnionBothRule {
    open spec fn spec_from(&self) -> SpecPlan {
        prune_empty_union_both_from()
    }

    open spec fn spec_to(&self) -> SpecPlan {
        empty_of(branch("a"@))
    }

    open spec fn spec_name(&self) -> Seq<char> {
        "PruneEmptyUnionBothRule"@
    }

    fn from(&self) -> (r: Rel) {
        union_rel(empty_rel(branch_rel("a")), empty_rel(branch_rel("b")))
    }

    fn to(&self) -> (r: Rel) {
        empty_rel(branch_rel("a"))
    }

    fn name(&self) -> (r: &'static str) {
        "PruneEmptyUnionBothRule"
    }
}

impl ApplicableRule for PruneEmptyUnionBothRule {}

} // verus!
