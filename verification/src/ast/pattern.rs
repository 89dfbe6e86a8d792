//! Uninterpreted function symbols of rule patterns, and the calls built from them.
use vstd::prelude::*;
use crate::ast::opaque::{spec_type_data_type, SpecType, Type};
use crate::plan::{
    clone_types, view_exprs, AggregateParams, Callee, Column, Expr, FunctionRef, Literal, Operator, Signature,
    SpecAggregateParams, SpecCallee, SpecColumn, SpecExpr, SpecFunctionRef, SpecLiteral, SpecOperator, SpecSignature,
};

verus! {

broadcast use vstd::std_specs::vec::group_vec_axioms;

/// The function reference of a symbol with the given name and signature.
pub open spec fn symbol_ref(name: Seq<char>, callee: SpecCallee, return_type: SpecType) -> SpecFunctionRef {
    SpecFunctionRef { name, callee, return_type: spec_type_data_type(return_type) }
}

/// A scalar call of a function with the given arguments.
pub open spec fn scalar_call(f: SpecFunctionRef, args: Seq<SpecExpr>) -> SpecExpr {
    SpecExpr::ScalarFunction { func: f, args }
}

/// An aggregate call of a function with the given arguments and no other parameters.
pub open spec fn aggregate_call(f: SpecFunctionRef, args: Seq<SpecExpr>) -> SpecExpr {
    SpecExpr::AggregateFunction {
        func: f,
        params: SpecAggregateParams {
            args,
            distinct: false,
            filter: None,
            order_by: Seq::empty(),
            null_treatment: None,
        },
    }
}

/// `left op right`.
pub open spec fn binary(left: SpecExpr, op: SpecOperator, right: SpecExpr) -> SpecExpr {
    SpecExpr::Binary { left: Box::new(left), op, right: Box::new(right) }
}

/// `e AS name`.
pub open spec fn aliased(e: SpecExpr, name: Seq<char>) -> SpecExpr {
    SpecExpr::Alias { expr: Box::new(e), relation: None, name }
}

pub open spec fn view_types(s: Seq<Type>) -> Seq<SpecType> {
    s.map_values(|t: Type| t@)
}

/// An uninterpreted scalar function symbol: the matcher binds each call of it to the
/// concrete expression that the call stands for.
pub struct ScalarPattern {
    pub name: String,
    pub input_types: Vec<Type>,
    pub return_type: Type,
}

impl View for ScalarPattern {
    type V = SpecFunctionRef;

    open spec fn view(&self) -> SpecFunctionRef {
        symbol_ref(
            self.name@,
            SpecCallee::Pattern(SpecSignature { input_types: view_types(self.input_types@), return_type: self.return_type@ }),
            self.return_type@,
        )
    }
}

fn function_ref(name: &String, callee: Callee, return_type: &Type) -> (r: FunctionRef)
    ensures
        r@ == symbol_ref(name@, callee@, return_type@),
{
    FunctionRef { name: name.clone(), callee, return_type: return_type.data_type() }
}

impl ScalarPattern {
    pub fn new(name: String, input_types: Vec<Type>, return_type: Type) -> (r: Self)
        ensures
            r.name@ == name@,
            r.input_types@ == input_types@,
            r.return_type@ == return_type@,
    {
        ScalarPattern { name, input_types, return_type }
    }

    /// The number of arguments the symbol takes.
    pub fn input_count(&self) -> (r: usize)
        ensures
            r == self.input_types@.len(),
    {
        self.input_types.len()
    }

    fn reference(&self) -> (r: FunctionRef)
        ensures
            r@ == self@,
    {
        let sig = Signature { input_types: clone_types(&self.input_types), return_type: self.return_type.clone() };
        function_ref(&self.name, Callee::Pattern(sig), &self.return_type)
    }

    /// A call of the symbol; the number of arguments must be the symbol's arity.
    pub fn call(&self, args: Vec<Expr>) -> (r: Expr)
        requires
            args@.len() == self.input_types@.len(),
        ensures
            r@ == scalar_call(self@, view_exprs(args@)),
    {
        Expr::ScalarFunction { func: self.reference(), args }
    }

    /// `self(args) AND other`.
    pub fn and(&self, args: Vec<Expr>, other: Expr) -> (r: Expr)
        requires
            args@.len() == self.input_types@.len(),
        ensures
            r@ == binary(scalar_call(self@, view_exprs(args@)), SpecOperator::And, other@),
    {
        Expr::Binary { left: Box::new(self.call(args)), op: Operator::And, right: Box::new(other) }
    }

    /// `self(args) OR other`.
    pub fn or(&self, args: Vec<Expr>, other: Expr) -> (r: Expr)
        requires
            args@.len() == self.input_types@.len(),
        ensures
            r@ == binary(scalar_call(self@, view_exprs(args@)), SpecOperator::Or, other@),
    {
        Expr::Binary { left: Box::new(self.call(args)), op: Operator::Or, right: Box::new(other) }
    }

    /// A call of the symbol under an output name.
    pub fn call_as(&self, args: Vec<Expr>, alias: String) -> (r: Expr)
        requires
            args@.len() == self.input_types@.len(),
        ensures
            r@ == aliased(scalar_call(self@, view_exprs(args@)), alias@),
    {
        Expr::Alias { expr: Box::new(self.call(args)), relation: None, name: alias }
    }
}

/// An uninterpreted aggregate function symbol.
pub struct AggregatePattern {
    pub name: String,
    pub input_types: Vec<Type>,
    pub return_type: Type,
}

impl View for AggregatePattern {
    type V = SpecFunctionRef;

    open spec fn view(&self) -> SpecFunctionRef {
        symbol_ref(
            self.name@,
            SpecCallee::Pattern(SpecSignature { input_types: view_types(self.input_types@), return_type: self.return_type@ }),
            self.return_type@,
        )
    }
}

impl AggregatePattern {
    pub fn new(name: String, input_types: Vec<Type>, return_type: Type) -> (r: Self)
        ensures
            r.name@ == name@,
            r.input_types@ == input_types@,
            r.return_type@ == return_type@,
    {
        AggregatePattern { name, input_types, return_type }
    }

    /// An aggregate call of the symbol; the number of arguments must be its arity.
    pub fn call(&self, args: Vec<Expr>) -> (r: Expr)
        requires
            args@.len() == self.input_types@.len(),
        ensures
            r@ == aggregate_call(self@, view_exprs(args@)),
    {
        let sig = Signature { input_types: clone_types(&self.input_types), return_type: self.return_type.clone() };
        let func = function_ref(&self.name, Callee::Pattern(sig), &self.return_type);
        let ghost a = view_exprs(args@);
        let params = AggregateParams {
            args,
            distinct: false,
            filter: None,
            order_by: Vec::new(),
            null_treatment: None,
        };
        assert(crate::plan::view_sorts(params.order_by@) =~= Seq::<crate::plan::SpecSortExpr>::empty());
        assert(crate::plan::view_params(params) == SpecAggregateParams {
            args: a,
            distinct: false,
            filter: None,
            order_by: Seq::empty(),
            null_treatment: None,
        });
        Expr::AggregateFunction { func, params }
    }
}

/// A scalar pattern expression.
pub struct Scalar {
    pub expr: Expr,
}

impl Scalar {
    /// A call of a fresh pattern symbol with the given signature.
    pub fn function(name: String, input_types: Vec<Type>, return_type: Type, args: Vec<Expr>) -> (r: Self)
        requires
            args@.len() == input_types@.len(),
        ensures
            r.expr@ == scalar_call(
                symbol_ref(
                    name@,
                    SpecCallee::Pattern(SpecSignature { input_types: view_types(input_types@), return_type: return_type@ }),
                    return_type@,
                ),
                view_exprs(args@),
            ),
    {
        let f = ScalarPattern::new(name, input_types, return_type);
        Scalar { expr: f.call(args) }
    }

    /// An unqualified column reference.
    pub fn column(name: String) -> (r: Self)
        ensures
            r.expr@ == SpecExpr::Column(SpecColumn { relation: None, name: name@ }),
    {
        Scalar { expr: Expr::Column(Column { relation: None, name }) }
    }

    /// A literal value.
    pub fn literal(value: Literal) -> (r: Self)
        ensures
            r.expr@ == SpecExpr::Literal(value@),
    {
        Scalar { expr: Expr::Literal(value) }
    }

    /// The expression under an output name.
    pub fn alias(&self, name: String) -> (r: Expr)
        ensures
            r@ == aliased(self.expr@, name@),
    {
        Expr::Alias { expr: Box::new(crate::plan::clone_expr(&self.expr)), relation: None, name }
    }
}

} // verus!
