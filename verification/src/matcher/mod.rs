pub mod default;
pub mod error;
pub mod instantiate;
pub mod laws;
pub mod maps;
pub mod refs;
pub mod semantics;

use vstd::prelude::*;
use crate::ast::relational::Rel;
use crate::matcher::default::DefaultMatcher;
use crate::matcher::error::{view_result, view_unit, RuleError};
use crate::plan::Plan;

verus! {

/// A pattern-matching engine: it resolves a pattern against a plan, keeping what it
/// bound, and instantiates templates from those bindings.
pub trait PatternMatcher {
    /// Resolves a pattern against a concrete plan, extracting bindings.
    fn resolve(&mut self, pattern: &Rel, concrete: &Plan) -> (r: Result<(), RuleError>);

    /// Instantiates a template from the bindings.
    fn instantiate(&mut self, template: &Rel) -> (r: Result<Plan, RuleError>);
}

impl PatternMatcher for DefaultMatcher {
    fn resolve(&mut self, pattern: &Rel, concrete: &Plan) -> (r: Result<(), RuleError>)
        ensures
            (final(self)@, view_unit(r)) == semantics::resolve(old(self)@, pattern@, concrete@),
    {
        self.resolve_root(&pattern.plan, concrete)
    }

    fn instantiate(&mut self, template: &Rel) -> (r: Result<Plan, RuleError>)
        ensures
            final(self)@ == old(self)@,
            view_result(r) == semantics::instantiate(old(self)@, template@),
    {
        self.instantiate_root(&template.plan)
    }
}

} // verus!
