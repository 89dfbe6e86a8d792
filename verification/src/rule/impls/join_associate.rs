//! Reassociates two inner joins:
//! `Join(Inner, P1(y, z), Join(Inner, P0(x, y), Q0, Q1), Q2)` becomes
//! `Join(Inner, P0(x, y), Q0, Join(Inner, P1(y, z), Q1, Q2))`.
use vstd::prelude::*;
use crate::ast::opaque::{SpecType, Type};
use crate::ast::pattern::scalar_call;
use crate::ast::relational::Rel;
use crate::plan::SpecPlan;
use crate::rule::parts::{call2, generic, inner_join, join_rel, source_of, source_rel, symbol, symbol2, ucol};
use crate::rule::{ApplicableRule, RewriteRule};

verus! {

pub struct JoinAssociateRule;

pub open spec fn join_associate_from() -> SpecPlan {
    let p0 = symbol("P0"@, seq![generic("T0"@), generic("T1"@)], SpecType::Boolean);
    let p1 = symbol("P1"@, seq![generic("T1"@), generic("T2"@)], SpecType::Boolean);
    let q01 = inner_join(
        source_of("q0"@, "x"@, "T0"@),
        source_of("q1"@, "y"@, "T1"@),
        scalar_call(p0, seq![ucol("x"@), ucol("y"@)]),
    );
    inner_join(q01, source_of("q2"@, "z"@, "T2"@), scalar_call(p1, seq![ucol("y"@), ucol("z"@)]))
}

pub open spec fn join_associate_to() -> SpecPlan {
    let p0 = symbol("P0"@, seq![generic("T0"@), generic("T1"@)], SpecType::Boolean);
    let p1 = symbol("P1"@, seq![generic("T1"@), generic("T2"@)], SpecType::Boolean);
    let q12 = inner_join(
        source_of("q1"@, "y"@, "T1"@),
        source_of("q2"@, "z"@, "T2"@),
        scalar_call(p1, seq![ucol("y"@), ucol("z"@)]),
    );
    inner_join(source_of("q0"@, "x"@, "T0"@), q12, scalar_call(p0, seq![ucol("x"@), ucol("y"@)]))
}

impl RewriteRule for JoinAssociateRule {
    open spec fn spec_from(&self) -> SpecPlan {
        join_associate_from()
    }

    open spec fn spec_to(&self) -> SpecPlan {
        join_associate_to()
    }

    open spec fn spec_name(&self) -> Seq<char> {
        "JoinAssociateRule"@
    }

    fn from(&self) -> (r: Rel) {
        let p0 = symbol2("P0", "T0", "T1", Type::Boolean);
        let p1 = symbol2("P1", "T1", "T2", Type::Boolean);
        let q01 = join_rel(source_rel("q0", "x", "T0"), source_rel("q1", "y", "T1"), call2(&p0, "x", "y"));
        join_rel(q01, source_rel("q2", "z", "T2"), call2(&p1, "y", "z"))
    }

    fn to(&self) -> (r: Rel) {
        let p0 = symbol2("P0", "T0", "T1", Type::Boolean);
        let p1 = symbol2("P1", "T1", "T2", Type::Boolean);
        let q12 = join_rel(source_rel("q1", "y", "T1"), source_rel("q2", "z", "T2"), call2(&p1, "y", "z"));
        join_rel(source_rel("q0", "x", "T0"), q12, call2(&p0, "x", "y"))
    }

    fn name(&self) -> (r: &'static str) {
        "JoinAssociateRule"
    }
}

impl ApplicableRule for JoinAssociateRule {}

} // verus!
