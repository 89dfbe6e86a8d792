//! Abstract functions that a pattern may call without binding them.
use vstd::prelude::*;
use crate::ast::opaque::Type;
use crate::ast::pattern::{aliased, binary, scalar_call, symbol_ref, view_types};
use crate::plan::{
    clone_types, view_exprs, Callee, Column, Expr, FunctionRef, Literal, Operator, Signature, SpecCallee, SpecColumn,
    SpecExpr, SpecFunctionRef, SpecOperator, SpecSignature,
};

verus! {

broadcast use vstd::std_specs::vec::group_vec_axioms;

/// A function of configurable arity that stands for no particular computation.
pub struct Function {
    pub name: String,
    pub input_types: Vec<Type>,
    pub return_type: Type,
}

impl View for Function {
    type V = SpecFunctionRef;

    open spec fn view(&self) -> SpecFunctionRef {
        symbol_ref(
            self.name@,
            SpecCallee::Abstract(SpecSignature { input_types: view_types(self.input_types@), return_type: self.return_type@ }),
            self.return_type@,
        )
    }
}

impl Function {
    pub fn new(name: String, input_types: Vec<Type>, return_type: Type) -> (r: Self)
        ensures
            r.name@ == name@,
            r.input_types@ == input_types@,
            r.return_type@ == return_type@,
    {
        Function { name, input_types, return_type }
    }

    /// The number of arguments the function takes.
    pub fn input_count(&self) -> (r: usize)
        ensures
            r == self.input_types@.len(),
    {
        self.input_types.len()
    }

    /// A call of the function; the number of arguments must be its arity.
    pub fn call(&self, args: Vec<Expr>) -> (r: Expr)
        requires
            args@.len() == self.input_types@.len(),
        ensures
            r@ == scalar_call(self@, view_exprs(args@)),
    {
        let sig = Signature { input_types: clone_types(&self.input_types), return_type: self.return_type.clone() };
        let func = FunctionRef {
            name: self.name.clone(),
            callee: Callee::Abstract(sig),
            return_type: self.return_type.data_type(),
        };
        Expr::ScalarFunction { func, args }
    }

    /// `self(args) AND other`.
    pub fn and(&self, args: Vec<Expr>, other: Expr) -> (r: Expr)
        requires
            args@.len() == self.input_types@.len(),
        ensures
            r@ == binary(scalar_call(self@, view_exprs(args@)), SpecOperator::And, other@),
    {
        Expr::Binary { left: Box::new(self.call(args)), op: Operator::And, right: Box::new(other) }
    }

    /// `self(args) OR other`.
    pub fn or(&self, args: Vec<Expr>, other: Expr) -> (r: Expr)
        requires
            args@.len() == self.input_types@.len(),
        ensures
            r@ == binary(scalar_call(self@, view_exprs(args@)), SpecOperator::Or, other@),
    {
        Expr::Binary { left: Box::new(self.call(args)), op: Operator::Or, right: Box::new(other) }
    }

    /// A call of the function under an output name.
    pub fn call_as(&self, args: Vec<Expr>, alias: String) -> (r: Expr)
        requires
            args@.len() == self.input_types@.len(),
        ensures
            r@ == aliased(scalar_call(self@, view_exprs(args@)), alias@),
    {
        Expr::Alias { expr: Box::new(self.call(args)), relation: None, name: alias }
    }
}

/// A scalar expression built from abstract functions.
pub struct Scalar {
    pub expr: Expr,
}

impl Scalar {
    /// A call of a fresh abstract function with the given signature.
    pub fn function(name: String, input_types: Vec<Type>, return_type: Type, args: Vec<Expr>) -> (r: Self)
        requires
            args@.len() == input_types@.len(),
        ensures
            r.expr@ == scalar_call(
                symbol_ref(
                    name@,
                    SpecCallee::Abstract(SpecSignature { input_types: view_types(input_types@), return_type: return_type@ }),
                    return_type@,
                ),
                view_exprs(args@),
            ),
    {
        let f = Function::new(name, input_types, return_type);
        Scalar { expr: f.call(args) }
    }

    /// An unqualified column reference.
    pub fn column(name: String) -> (r: Self)
        ensures
            r.expr@ == SpecExpr::Column(SpecColumn { relation: None, name: name@ }),
    {
        Scalar { expr: Expr::Column(Column { relation: None, name }) }
    }

    /// A literal value.
    pub fn literal(value: Literal) -> (r: Self)
        ensures
            r.expr@ == SpecExpr::Literal(value@),
    {
        Scalar { expr: Expr::Literal(value) }
    }

    /// The expression under an output name.
    pub fn alias(&self, name: String) -> (r: Expr)
        ensures
            r@ == aliased(self.expr@, name@),
    {
        Expr::Alias { expr: Box::new(crate::plan::clone_expr(&self.expr)), relation: None, name }
    }
}

} // verus!
