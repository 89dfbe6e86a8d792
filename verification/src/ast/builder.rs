//! Helpers that build pattern expressions and abstract schemas.
use vstd::prelude::*;
use crate::ast::opaque::{positional_field_name, positional_name, Field, Schema, SpecField, SpecSchema, SpecType, Type};
use crate::ast::pattern::{binary, scalar_call, symbol_ref, view_types, ScalarPattern};
use crate::plan::{view_exprs, Column, Expr, Operator, SpecCallee, SpecColumn, SpecExpr, SpecOperator, SpecSignature, UnaryOp};
use crate::text::{decimal, owned, push_decimal};
use crate::ast::relational::{spec_source, Rel};
use crate::matcher::error::RuleError;
use crate::plan::Plan;

verus! {

broadcast use vstd::std_specs::vec::group_vec_axioms;

/// The column that `datafusion::common::Column::from_qualified_name` reads from a
/// (possibly qualified, possibly quoted) SQL identifier.
pub uninterp spec fn parsed_column(name: Seq<char>) -> SpecColumn;

/// Calls `datafusion::common::Column::from_qualified_name` and converts the column it
/// returns. The contract names the result; how identifiers are split and normalized is
/// left to the engine and not stated here.
#[verifier::external_body]
fn parse_column(name: &str) -> (r: Column)
    ensures
        r@ == parsed_column(name@),
{
    let c = datafusion::common::Column::from_qualified_name(name);
    let relation = match c.relation {
        Some(t) => Some(t.to_string()),
        None => None,
    };
    Column { relation, name: c.name }
}

/// The identifier of the `n`-th generated abstract type.
pub open spec fn type_id(n: nat) -> Seq<char> {
    "type_"@ + decimal(n)
}

/// Identifiers handed out for different counts differ: a counter that only grows never
/// hands out one identifier twice.
pub proof fn lemma_type_ids_distinct(n: nat, m: nat)
    requires
        n != m,
    ensures
        type_id(n) != type_id(m),
{
    if type_id(n) == type_id(m) {
        reveal_strlit("type_");
        let k = "type_"@.len() as int;
        assert(type_id(n).skip(k) =~= decimal(n));
        assert(type_id(m).skip(k) =~= decimal(m));
        crate::text::lemma_decimal_injective(n, m);
    }
}

/// A source of fresh abstract type identifiers: `type_0`, `type_1`, ...
pub struct TypeIds {
    pub next: u64,
}

impl TypeIds {
    pub fn new() -> (r: Self)
        ensures
            r.next == 0,
    {
        TypeIds { next: 0 }
    }

    /// The next identifier; no identifier is handed out twice.
    pub fn fresh(&mut self) -> (r: String)
        requires
            old(self).next < u64::MAX,
        ensures
            r@ == type_id(old(self).next as nat),
            final(self).next == old(self).next + 1,
    {
        let mut s = owned("type_");
        proof { reveal_strlit("type_"); }
        push_decimal(&mut s, self.next);
        self.next = self.next + 1;
        s
    }
}

/// Helpers for creating pattern expressions.
pub struct ExprBuilder;

impl ExprBuilder {
    /// A column reference, read from a possibly qualified name such as `emp.deptno`.
    pub fn col(name: &str) -> (r: Expr)
        ensures
            r@ == SpecExpr::Column(parsed_column(name@)),
    {
        Expr::Column(parse_column(name))
    }

    /// A call of an uninterpreted function with the given signature.
    pub fn abstract_function(name: String, input_types: Vec<Type>, return_type: Type, args: Vec<Expr>) -> (r: Expr)
        requires
            args@.len() == input_types@.len(),
        ensures
            r@ == scalar_call(
                symbol_ref(
                    name@,
                    SpecCallee::Pattern(SpecSignature { input_types: view_types(input_types@), return_type: return_type@ }),
                    return_type@,
                ),
                view_exprs(args@),
            ),
    {
        let p = ScalarPattern::new(name, input_types, return_type);
        p.call(args)
    }

    /// A call of an uninterpreted function whose argument and result types are fresh.
    pub fn abstract_function_with_count(ids: &mut TypeIds, name: String, input_count: usize, args: Vec<Expr>) -> (r: Expr)
        requires
            args@.len() == input_count,
            old(ids).next + input_count + 1 <= u64::MAX,
        ensures
            final(ids).next == old(ids).next + input_count + 1,
            r@ == scalar_call(
                symbol_ref(
                    name@,
                    SpecCallee::Pattern(SpecSignature {
                        input_types: Seq::new(
                            input_count as nat,
                            |i: int| SpecType::Generic { id: type_id((old(ids).next + i) as nat) },
                        ),
                        return_type: SpecType::Generic { id: type_id((old(ids).next + input_count) as nat) },
                    }),
                    SpecType::Generic { id: type_id((old(ids).next + input_count) as nat) },
                ),
                view_exprs(args@),
            ),
    {
        let ghost start = ids.next;
        let mut types: Vec<Type> = Vec::new();
        let mut i: usize = 0;
        while i < input_count
            invariant
                i <= input_count,
                start + input_count + 1 <= u64::MAX,
                ids.next == start + i,
                types@.len() == i,
                forall|k: int| 0 <= k < i ==> (#[trigger] types@[k])@ == (SpecType::Generic { id: type_id((start + k) as nat) }),
            decreases input_count - i,
        {
            let id = ids.fresh();
            types.push(Type::Generic { id });
            i += 1;
        }
        let rid = ids.fresh();
        let ret = Type::Generic { id: rid };
        assert(view_types(types@) =~= Seq::new(
            input_count as nat,
            |i: int| SpecType::Generic { id: type_id((start + i) as nat) },
        ));
        let p = ScalarPattern::new(name, types, ret);
        p.call(args)
    }

    /// `left op right`.
    pub fn binary_expr(left: Expr, op: Operator, right: Expr) -> (r: Expr)
        ensures
            r@ == binary(left@, op@, right@),
    {
        Expr::Binary { left: Box::new(left), op, right: Box::new(right) }
    }

    /// `left = right`.
    pub fn eq(left: Expr, right: Expr) -> (r: Expr)
        ensures
            r@ == binary(left@, SpecOperator::Eq, right@),
    {
        Self::binary_expr(left, Operator::Eq, right)
    }

    /// `left != right`.
    pub fn not_eq(left: Expr, right: Expr) -> (r: Expr)
        ensures
            r@ == binary(left@, SpecOperator::NotEq, right@),
    {
        Self::binary_expr(left, Operator::NotEq, right)
    }

    /// `left AND right`.
    pub fn and(left: Expr, right: Expr) -> (r: Expr)
        ensures
            r@ == binary(left@, SpecOperator::And, right@),
    {
        Self::binary_expr(left, Operator::And, right)
    }

    /// `left OR right`.
    pub fn or(left: Expr, right: Expr) -> (r: Expr)
        ensures
            r@ == binary(left@, SpecOperator::Or, right@),
    {
        Self::binary_expr(left, Operator::Or, right)
    }

    /// `NOT expr`.
    pub fn not(expr: Expr) -> (r: Expr)
        ensures
            r@ == SpecExpr::Unary(UnaryOp::Not, Box::new(expr@)),
    {
        Expr::Unary(UnaryOp::Not, Box::new(expr))
    }
}

/// The field at position `i` of a schema built by count, typed by the `n`-th fresh type.
pub open spec fn generated_field(name: Seq<char>, n: nat) -> SpecField {
    SpecField { name, data_type: SpecType::Generic { id: type_id(n) }, nullable: true }
}

/// Helpers for creating abstract schemas and types.
pub struct SchemaBuilder;

impl SchemaBuilder {
    /// A schema of `field_count` nullable fields named `field_0`, `field_1`, ..., each of a
    /// fresh abstract type.
    pub fn with_field_count(ids: &mut TypeIds, field_count: usize) -> (r: Schema)
        requires
            old(ids).next + field_count <= u64::MAX,
        ensures
            final(ids).next == old(ids).next + field_count,
            r@ == (SpecSchema {
                fields: Seq::new(
                    field_count as nat,
                    |i: int| generated_field(positional_field_name(i as nat), (old(ids).next + i) as nat),
                ),
            }),
    {
        let ghost start = ids.next;
        let mut fields: Vec<Field> = Vec::new();
        let mut i: usize = 0;
        while i < field_count
            invariant
                i <= field_count,
                start + field_count <= u64::MAX,
                ids.next == start + i,
                fields@.len() == i,
                forall|k: int| 0 <= k < i ==> (#[trigger] fields@[k])@ == generated_field(
                    positional_field_name(k as nat),
                    (start + k) as nat,
                ),
            decreases field_count - i,
        {
            let name = positional_name(i);
            let id = ids.fresh();
            fields.push(Field { name, data_type: Type::Generic { id }, nullable: true });
            i += 1;
        }
        let r = Schema { fields };
        assert(r@.fields =~= Seq::new(
            field_count as nat,
            |i: int| generated_field(positional_field_name(i as nat), (start + i) as nat),
        ));
        r
    }

    /// A schema of nullable fields with the given names, each of a fresh abstract type.
    pub fn with_field_names(ids: &mut TypeIds, field_names: Vec<String>) -> (r: Schema)
        requires
            old(ids).next + field_names@.len() <= u64::MAX,
        ensures
            final(ids).next == old(ids).next + field_names@.len(),
            r@ == (SpecSchema {
                fields: Seq::new(
                    field_names@.len(),
                    |i: int| generated_field(field_names@[i]@, (old(ids).next + i) as nat),
                ),
            }),
    {
        let ghost start = ids.next;
        let mut fields: Vec<Field> = Vec::new();
        let mut i: usize = 0;
        while i < field_names.len()
            invariant
                i <= field_names@.len(),
                start + field_names@.len() <= u64::MAX,
                ids.next == start + i,
                fields@.len() == i,
                forall|k: int| 0 <= k < i ==> (#[trigger] fields@[k])@ == generated_field(
                    field_names@[k]@,
                    (start + k) as nat,
                ),
            decreases field_names.len() - i,
        {
            let id = ids.fresh();
            fields.push(Field { name: field_names[i].clone(), data_type: Type::Generic { id }, nullable: true });
            i += 1;
        }
        let r = Schema { fields };
        assert(r@.fields =~= Seq::new(
            field_names@.len(),
            |i: int| generated_field(field_names@[i]@, (start + i) as nat),
        ));
        r
    }

    /// A schema of the given fields.
    pub fn with_fields(fields: Vec<Field>) -> (r: Schema)
        ensures
            r.fields@ == fields@,
    {
        Schema { fields }
    }

    /// A field of a fresh abstract type.
    pub fn field(ids: &mut TypeIds, name: String, nullable: bool) -> (r: Field)
        requires
            old(ids).next < u64::MAX,
        ensures
            final(ids).next == old(ids).next + 1,
            r@ == (SpecField { name: name@, data_type: SpecType::Generic { id: type_id(old(ids).next as nat) }, nullable }),
    {
        let id = ids.fresh();
        Field { name, data_type: Type::Generic { id }, nullable }
    }

    /// A fresh abstract type.
    pub fn abstract_type(ids: &mut TypeIds) -> (r: Type)
        requires
            old(ids).next < u64::MAX,
        ensures
            final(ids).next == old(ids).next + 1,
            r@ == (SpecType::Generic { id: type_id(old(ids).next as nat) }),
    {
        let id = ids.fresh();
        Type::Generic { id }
    }

    /// The abstract type with the given identifier.
    pub fn abstract_type_with_id(id: String) -> (r: Type)
        ensures
            r@ == (SpecType::Generic { id: id@ }),
    {
        Type::Generic { id }
    }
}

/// Builds a relational pattern from a starting plan.
pub struct PatternBuilder {
    pub builder: Plan,
}

impl PatternBuilder {
    /// Starts from a relational pattern.
    pub fn from_pattern(pattern: Rel) -> (r: Result<Self, RuleError>)
        ensures
            match r {
                Ok(b) => b.builder@ == pattern@,
                Err(_) => false,
            },
    {
        Ok(PatternBuilder { builder: pattern.plan })
    }

    /// Starts from an abstract source with the given name and schema.
    pub fn from_source(table_name: String, schema: Schema) -> (r: Self)
        ensures
            r.builder@ == spec_source(table_name@, schema@),
    {
        let source = Rel::source(table_name, schema);
        PatternBuilder { builder: source.plan }
    }

    /// Starts from any plan.
    pub fn from_logical_plan(plan: Plan) -> (r: Self)
        ensures
            r.builder@ == plan@,
    {
        PatternBuilder { builder: plan }
    }

    /// The pattern built so far.
    pub fn build(self) -> (r: Result<Rel, RuleError>)
        ensures
            match r {
                Ok(rel) => rel@ == self.builder@,
                Err(_) => false,
            },
    {
        Ok(Rel { plan: self.builder })
    }
}

} // verus!
