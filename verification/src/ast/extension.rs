//! User-defined logical operators in patterns, and where the matcher keeps what they bind.
use vstd::prelude::*;
use crate::ast::opaque::Schema;
use crate::matcher::default::DefaultMatcher;
use crate::matcher::error::{view_unit, RuleError, SpecRuleError};
use crate::matcher::maps::{srcmap_find, ColumnMap, SourceEntry};
use crate::matcher::semantics::{Context, SpecMatcher};
use crate::plan::{clone_plan, Plan, SpecPlan};
use crate::text::{debug_string, owned, push_debug_string};

verus! {

/// A logical operator that users define for their patterns (an equi-join, an index scan):
/// it says which plans it reads, what it outputs and what it means in core relational
/// algebra, and it resolves and instantiates itself with the matcher's help. Its
/// `resolve` and `instantiate` record the column context of the operator's output with
/// `DefaultMatcher::store_user_defined_context`, under the id of the pattern that wraps it.
pub trait UserDefinedLogicalOperator {
    /// The operator's name, unique for each kind of operator.
    fn operator_name(&self) -> String;

    /// The plans the operator reads.
    fn inputs(&self) -> Vec<Plan>;

    /// The operator's output schema.
    fn schema(&self) -> Schema;

    /// The same operator written in core relational algebra.
    fn semantics(&self) -> Plan;

    /// Resolves the pattern with this id against a concrete plan.
    fn resolve(&self, pattern_id: &String, concrete: &Plan, matcher: &mut DefaultMatcher) -> (r: Result<(), RuleError>);

    /// Instantiates the pattern with this id from the matcher's bindings.
    fn instantiate(&self, pattern_id: &String, matcher: &mut DefaultMatcher) -> (r: Result<Plan, RuleError>);
}

/// The key under which the matcher keeps what a user-defined pattern bound: the
/// pattern's name in its debug form.
pub open spec fn pattern_key(name: Seq<char>) -> Seq<char> {
    "UserDefinedLogicalPattern { operator_name: "@ + debug_string(name) + " }"@
}

/// A pattern node that wraps a user-defined operator, with the operator's name read once
/// when the pattern is made.
pub struct UserDefinedLogicalPattern<O: UserDefinedLogicalOperator> {
    pub implementation: O,
    pub name: String,
}

impl<O: UserDefinedLogicalOperator> UserDefinedLogicalPattern<O> {
    /// Wraps an operator.
    pub fn new(implementation: O) -> (r: Self)
        ensures
            r.implementation == implementation,
    {
        let name = implementation.operator_name();
        UserDefinedLogicalPattern { implementation, name }
    }

    /// The operator this pattern wraps.
    pub fn implementation(&self) -> (r: &O)
        ensures
            *r == self.implementation,
    {
        &self.implementation
    }

    /// The id under which the matcher keeps what this pattern bound.
    pub fn id(&self) -> (r: String)
        ensures
            r@ == pattern_key(self.name@),
    {
        let mut s = owned("UserDefinedLogicalPattern { operator_name: ");
        push_debug_string(&mut s, self.name.as_str());
        s.append(" }");
        proof {
            reveal_strlit("UserDefinedLogicalPattern { operator_name: ");
            reveal_strlit(" }");
        }
        s
    }
}

/// What resolving a user-defined pattern gives once the operator's own `resolve` returned
/// `resolved`: its error, or else the context stored under the pattern's key, or an
/// unbound symbol when the operator stored none.
pub open spec fn user_resolve_outcome(
    m: SpecMatcher,
    resolved: Result<(), SpecRuleError>,
    key: Seq<char>,
    name: Seq<char>,
) -> Result<Context, SpecRuleError> {
    match resolved {
        Err(e) => Err(e),
        Ok(_) => if m.sources.contains_key(key) {
            Ok(m.sources[key].1)
        } else {
            Err(SpecRuleError::UnboundSymbol {
                symbol: "user-defined pattern '"@ + name + "' did not store context during resolve"@,
            })
        },
    }
}

/// What instantiating a user-defined pattern gives once the operator's own `instantiate`
/// returned `instantiated`: its error, or else the plan with the context stored under the
/// pattern's key, or an unbound symbol when none is stored.
pub open spec fn user_instantiate_outcome(
    m: SpecMatcher,
    instantiated: Result<SpecPlan, SpecRuleError>,
    key: Seq<char>,
    name: Seq<char>,
) -> Result<(SpecPlan, Context), SpecRuleError> {
    match instantiated {
        Err(e) => Err(e),
        Ok(p) => if m.sources.contains_key(key) {
            Ok((p, m.sources[key].1))
        } else {
            Err(SpecRuleError::UnboundSymbol {
                symbol: "user-defined pattern '"@ + name + "' context not found during instantiate"@,
            })
        },
    }
}

pub open spec fn view_plan_context(r: Result<(Plan, ColumnMap), RuleError>) -> Result<(SpecPlan, Context), SpecRuleError> {
    match r {
        Ok((p, c)) => Ok((p@, c@)),
        Err(e) => Err(e@),
    }
}

pub open spec fn view_plan_result(r: Result<Plan, RuleError>) -> Result<SpecPlan, SpecRuleError> {
    match r {
        Ok(p) => Ok(p@),
        Err(e) => Err(e@),
    }
}

impl DefaultMatcher {
    /// Stores the plan a user-defined pattern stood for and the column context of its
    /// output, under the pattern's id (see `UserDefinedLogicalPattern::id`); an earlier
    /// entry under that id is replaced.
    pub fn store_user_defined_context(&mut self, pattern_id: &String, plan: Plan, context: ColumnMap)
        ensures
            final(self)@ == (SpecMatcher {
                sources: old(self)@.sources.insert(pattern_id@, (plan@, context@)),
                ..old(self)@
            }),
    {
        let ghost prev = self.sources@;
        self.sources.push(SourceEntry { key: pattern_id.clone(), value: (plan, context) });
        assert(self.sources@.drop_last() =~= prev);
    }

    /// The plan and context stored under a user-defined pattern's id, if any.
    pub fn retrieve_user_defined_context(&self, pattern_id: &String) -> (r: Option<(Plan, ColumnMap)>)
        ensures
            match r {
                Some((p, c)) => self@.sources.contains_key(pattern_id@) && self@.sources[pattern_id@] == (p@, c@),
                None => !self@.sources.contains_key(pattern_id@),
            },
    {
        match srcmap_find(&self.sources, pattern_id) {
            Some(i) => Some((clone_plan(&self.sources[i].value.0), self.sources[i].value.1.clone())),
            None => None,
        }
    }

    /// Finishes resolving a user-defined pattern once its operator's `resolve` returned
    /// `resolved`, as `user_resolve_outcome` says.
    pub fn user_resolve_result<O: UserDefinedLogicalOperator>(
        &self,
        pattern: &UserDefinedLogicalPattern<O>,
        resolved: Result<(), RuleError>,
    ) -> (r: Result<ColumnMap, RuleError>)
        ensures
            match r {
                Ok(c) => user_resolve_outcome(self@, view_unit(resolved), pattern_key(pattern.name@), pattern.name@)
                    == Ok::<Context, SpecRuleError>(c@),
                Err(e) => user_resolve_outcome(self@, view_unit(resolved), pattern_key(pattern.name@), pattern.name@)
                    == Err::<Context, SpecRuleError>(e@),
            },
    {
        match resolved {
            Err(e) => Err(e),
            Ok(_) => match self.retrieve_user_defined_context(&pattern.id()) {
                Some((_, c)) => Ok(c),
                None => {
                    let mut symbol = owned("user-defined pattern '");
                    symbol.append(pattern.name.as_str());
                    symbol.append("' did not store context during resolve");
                    proof {
                        reveal_strlit("user-defined pattern '");
                        reveal_strlit("' did not store context during resolve");
                    }
                    Err(RuleError::UnboundSymbol { symbol })
                },
            },
        }
    }

    /// Finishes instantiating a user-defined pattern once its operator's `instantiate`
    /// returned `instantiated`, as `user_instantiate_outcome` says.
    pub fn user_instantiate_result<O: UserDefinedLogicalOperator>(
        &self,
        pattern: &UserDefinedLogicalPattern<O>,
        instantiated: Result<Plan, RuleError>,
    ) -> (r: Result<(Plan, ColumnMap), RuleError>)
        ensures
            view_plan_context(r) == user_instantiate_outcome(
                self@,
                view_plan_result(instantiated),
                pattern_key(pattern.name@),
                pattern.name@,
            ),
    {
        match instantiated {
            Err(e) => Err(e),
            Ok(p) => match self.retrieve_user_defined_context(&pattern.id()) {
                Some((_, c)) => Ok((p, c)),
                None => {
                    let mut symbol = owned("user-defined pattern '");
                    symbol.append(pattern.name.as_str());
                    symbol.append("' context not found during instantiate");
                    proof {
                        reveal_strlit("user-defined pattern '");
                        reveal_strlit("' context not found during instantiate");
                    }
                    Err(RuleError::UnboundSymbol { symbol })
                },
            },
        }
    }

    /// Resolves a user-defined pattern against a concrete plan: the operator resolves
    /// itself, and the context it stored under the pattern's id is the result. Whatever
    /// the operator did, a success gives the context stored under that id after the call,
    /// and with nothing stored there the result is an error.
    pub fn resolve_user_defined<O: UserDefinedLogicalOperator>(
        &mut self,
        pattern: &UserDefinedLogicalPattern<O>,
        concrete: &Plan,
    ) -> (r: Result<ColumnMap, RuleError>)
        ensures
            r matches Ok(c) ==> final(self)@.sources.contains_key(pattern_key(pattern.name@))
                && final(self)@.sources[pattern_key(pattern.name@)].1 == c@,
            !final(self)@.sources.contains_key(pattern_key(pattern.name@)) ==> r is Err,
    {
        let id = pattern.id();
        let resolved = pattern.implementation.resolve(&id, concrete, self);
        self.user_resolve_result(pattern, resolved)
    }

    /// Instantiates a user-defined pattern: the operator instantiates itself, and its plan
    /// comes back with the context stored under the pattern's id. Whatever the operator
    /// did, a success gives that stored context, and with nothing stored the result is an
    /// error.
    pub fn instantiate_user_defined<O: UserDefinedLogicalOperator>(
        &mut self,
        pattern: &UserDefinedLogicalPattern<O>,
    ) -> (r: Result<(Plan, ColumnMap), RuleError>)
        ensures
            r matches Ok((_, c)) ==> final(self)@.sources.contains_key(pattern_key(pattern.name@))
                && final(self)@.sources[pattern_key(pattern.name@)].1 == c@,
            !final(self)@.sources.contains_key(pattern_key(pattern.name@)) ==> r is Err,
    {
        let id = pattern.id();
        let instantiated = pattern.implementation.instantiate(&id, self);
        self.user_instantiate_result(pattern, instantiated)
    }
}

/// What is stored under a pattern's id is what is read back under it, and storing leaves
/// every other id's entry as it was.
pub proof fn lemma_stored_context_is_retrieved(m: SpecMatcher, id: Seq<char>, plan: SpecPlan, context: Context, other: Seq<char>)
    ensures
        ({
            let stored = SpecMatcher { sources: m.sources.insert(id, (plan, context)), ..m };
            &&& stored.sources.contains_key(id)
            &&& stored.sources[id] == (plan, context)
            &&& other != id ==> (stored.sources.contains_key(other) == m.sources.contains_key(other))
            &&& other != id && m.sources.contains_key(other) ==> stored.sources[other] == m.sources[other]
            &&& stored.functions == m.functions
            &&& stored.output_schema == m.output_schema
        }),
{
}

} // verus!
