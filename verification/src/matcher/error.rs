//! Errors of pattern matching and rule application.
use vstd::prelude::*;
use crate::plan::{clone_expr, clone_plan, Expr, Plan, SpecExpr, SpecPlan};

verus! {

/// Details about why a binding conflict occurred.
#[derive(Debug)]
pub enum BindingConflict {
    Expression { previous: Box<Expr>, attempted: Box<Expr> },
    Plan { previous: Box<Plan>, attempted: Box<Plan> },
}

/// Errors that can occur during pattern matching and rule application.
#[derive(Debug)]
pub enum RuleError {
    /// Pattern structure doesn't match the target.
    StructureMismatch { pattern: Box<Plan>, target: Box<Plan> },
    /// Expression structure doesn't match.
    ExpressionMismatch { pattern: Box<Expr>, target: Box<Expr> },
    /// A concrete item could not be matched to any abstract pattern.
    NoMatchingPattern { item: String },
    /// The same symbol was bound to different values.
    InconsistentBinding { symbol: String, details: BindingConflict },
    /// A referenced binding was not found.
    UnboundSymbol { symbol: String },
    /// Invalid pattern structure.
    InvalidPattern { reason: String },
    /// An error reported by the query engine while building a plan.
    DataFusion { message: String },
}

pub enum SpecBindingConflict {
    Expression { previous: SpecExpr, attempted: SpecExpr },
    Plan { previous: SpecPlan, attempted: SpecPlan },
}

pub enum SpecRuleError {
    StructureMismatch { pattern: SpecPlan, target: SpecPlan },
    ExpressionMismatch { pattern: SpecExpr, target: SpecExpr },
    NoMatchingPattern { item: Seq<char> },
    InconsistentBinding { symbol: Seq<char>, details: SpecBindingConflict },
    UnboundSymbol { symbol: Seq<char> },
    InvalidPattern { reason: Seq<char> },
    DataFusion { message: Seq<char> },
}

impl View for BindingConflict {
    type V = SpecBindingConflict;

    open spec fn view(&self) -> SpecBindingConflict {
        match self {
            BindingConflict::Expression { previous, attempted } => SpecBindingConflict::Expression {
                previous: (**previous)@,
                attempted: (**attempted)@,
            },
            BindingConflict::Plan { previous, attempted } => SpecBindingConflict::Plan {
                previous: (**previous)@,
                attempted: (**attempted)@,
            },
        }
    }
}

impl View for RuleError {
    type V = SpecRuleError;

    open spec fn view(&self) -> SpecRuleError {
        match self {
            RuleError::StructureMismatch { pattern, target } => SpecRuleError::StructureMismatch {
                pattern: (**pattern)@,
                target: (**target)@,
            },
            RuleError::ExpressionMismatch { pattern, target } => SpecRuleError::ExpressionMismatch {
                pattern: (**pattern)@,
                target: (**target)@,
            },
            RuleError::NoMatchingPattern { item } => SpecRuleError::NoMatchingPattern { item: item@ },
            RuleError::InconsistentBinding { symbol, details } => SpecRuleError::InconsistentBinding {
                symbol: symbol@,
                details: details@,
            },
            RuleError::UnboundSymbol { symbol } => SpecRuleError::UnboundSymbol { symbol: symbol@ },
            RuleError::InvalidPattern { reason } => SpecRuleError::InvalidPattern { reason: reason@ },
            RuleError::DataFusion { message } => SpecRuleError::DataFusion { message: message@ },
        }
    }
}

pub open spec fn view_result<T: View>(r: Result<T, RuleError>) -> Result<T::V, SpecRuleError> {
    match r {
        Ok(x) => Ok(x@),
        Err(e) => Err(e@),
    }
}

pub open spec fn view_unit(r: Result<(), RuleError>) -> Result<(), SpecRuleError> {
    match r {
        Ok(_) => Ok(()),
        Err(e) => Err(e@),
    }
}

pub fn structure_mismatch(pattern: &Plan, target: &Plan) -> (r: RuleError)
    ensures
        r@ == (SpecRuleError::StructureMismatch { pattern: pattern@, target: target@ }),
{
    RuleError::StructureMismatch { pattern: Box::new(clone_plan(pattern)), target: Box::new(clone_plan(target)) }
}

pub fn expression_mismatch(pattern: &Expr, target: &Expr) -> (r: RuleError)
    ensures
        r@ == (SpecRuleError::ExpressionMismatch { pattern: pattern@, target: target@ }),
{
    RuleError::ExpressionMismatch { pattern: Box::new(clone_expr(pattern)), target: Box::new(clone_expr(target)) }
}

} // verus!
