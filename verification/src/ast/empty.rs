//! Abstract empty relations of rule patterns.
use vstd::prelude::*;
use crate::plan::{Plan, SpecPlan};

verus! {

/// An abstract empty relation shaped like its inner plan: in a pattern it matches an
/// empty relation, in a template it becomes one with the inner plan's schema.
pub struct Empty {
    pub inner: Plan,
}

impl Empty {
    pub fn new(inner: Plan) -> (r: Self)
        ensures
            r.inner@ == inner@,
    {
        Empty { inner }
    }

    /// The pattern plan node.
    pub fn into_plan(self) -> (r: Plan)
        ensures
            r@ == SpecPlan::Empty(Box::new(self.inner@)),
    {
        Plan::Empty(Box::new(self.inner))
    }
}

} // verus!
