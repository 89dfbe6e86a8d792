//! Rewrite rules: a pattern to match and a template to produce.
pub mod impls;
pub mod parts;
pub mod laws;
pub mod samples;

use vstd::prelude::*;
use crate::ast::relational::Rel;
use crate::matcher::default::DefaultMatcher;
use crate::matcher::PatternMatcher;
use crate::matcher::error::{view_result, view_unit, RuleError, SpecRuleError};
use crate::matcher::semantics::{apply_rule, empty_matcher, instantiate, resolve, rule_matches, SpecMatcher};
use crate::plan::{Plan, SpecPlan};

verus! {

/// What applying a rule with a given matcher gives: the pattern is resolved against the
/// plan with the matcher's bindings, then the template is instantiated from them.
pub open spec fn apply_with(m: SpecMatcher, from: SpecPlan, to: SpecPlan, plan: SpecPlan) -> (
    SpecMatcher,
    Result<SpecPlan, SpecRuleError>,
) {
    let (m1, r) = resolve(m, from, plan);
    match r {
        Err(e) => (m1, Err(e)),
        Ok(_) => (m1, instantiate(m1, to)),
    }
}

/// A rewrite rule that transforms one relational pattern into another.
pub trait RewriteRule {
    spec fn spec_from(&self) -> SpecPlan;

    spec fn spec_to(&self) -> SpecPlan;

    spec fn spec_name(&self) -> Seq<char>;

    /// The pattern to match.
    fn from(&self) -> (r: Rel)
        ensures
            r@ == self.spec_from(),
    ;

    /// The template to produce.
    fn to(&self) -> (r: Rel)
        ensures
            r@ == self.spec_to(),
    ;

    /// The rule's name.
    fn name(&self) -> (r: &'static str)
        ensures
            r@ == self.spec_name(),
    ;
}

/// Rules that the default matcher can apply.
pub trait ApplicableRule: RewriteRule {
    /// Applies the rule to a plan with fresh bindings.
    fn try_apply(&self, plan: &Plan) -> (r: Result<Plan, RuleError>)
        ensures
            view_result(r) == apply_rule(self.spec_from(), self.spec_to(), plan@),
    {
        let mut matcher = DefaultMatcher::new();
        self.try_apply_with(plan, &mut matcher)
    }

    /// Applies the rule to a plan with the bindings the matcher already holds.
    fn try_apply_with(&self, plan: &Plan, matcher: &mut DefaultMatcher) -> (r: Result<Plan, RuleError>)
        ensures
            (final(matcher)@, view_result(r)) == apply_with(old(matcher)@, self.spec_from(), self.spec_to(), plan@),
    {
        let from = self.from();
        match matcher.resolve(&from, plan) {
            Err(e) => {
                return Err(e);
            },
            Ok(_) => {},
        }
        let to = self.to();
        matcher.instantiate(&to)
    }

    /// Whether the rule's pattern matches a plan.
    fn matches(&self, plan: &Plan) -> (r: bool)
        ensures
            r == rule_matches(self.spec_from(), plan@),
    {
        let mut matcher = DefaultMatcher::new();
        self.matches_with(plan, &mut matcher)
    }

    /// Whether the rule's pattern matches a plan, with the bindings the matcher already holds.
    fn matches_with(&self, plan: &Plan, matcher: &mut DefaultMatcher) -> (r: bool)
        ensures
            final(matcher)@ == resolve(old(matcher)@, self.spec_from(), plan@).0,
            r == resolve(old(matcher)@, self.spec_from(), plan@).1 is Ok,
    {
        let from = self.from();
        matcher.resolve(&from, plan).is_ok()
    }
}

} // verus!
