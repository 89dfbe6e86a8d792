//! Output naming and typing of expressions: the column an expression is exposed
//! under when a projection or an aggregate outputs it, its data type and nullability,
//! and the output schema of every plan node.
use std::str::FromStr;
use datafusion::arrow::datatypes::DataType;
use datafusion::logical_expr::type_coercion::binary::BinaryTypeCoercer;
use datafusion::logical_expr::Operator as EngineOperator;
use vstd::prelude::*;
use crate::ast::opaque::{spec_type_data_type, SpecField};
use crate::plan::{
    clone_fields, clone_opt_string, lemma_view_arms, lemma_view_exprs, opt_str, view_arms, view_expr, view_exprs, view_like, view_opt_expr, view_params, view_plan, view_subquery,
    view_fields, Column, Expr, Operator, Plan, QualifiedField, SpecColumn, SpecExpr, SpecOperator, SpecPlan,
    SpecQualifiedField, SpecWhenThen, UnaryOp, WhenThen,
};
use crate::text::{owned, push_char};

verus! {

broadcast use vstd::std_specs::vec::group_vec_axioms;

/// `relation.name`, or `name` for an unqualified column.
pub open spec fn flat_name(c: SpecColumn) -> Seq<char> {
    match c.relation {
        Some(r) => r + "."@ + c.name,
        None => c.name,
    }
}

pub open spec fn op_text(op: SpecOperator) -> Seq<char> {
    match op {
        SpecOperator::Eq => "="@,
        SpecOperator::NotEq => "!="@,
        SpecOperator::Lt => "<"@,
        SpecOperator::LtEq => "<="@,
        SpecOperator::Gt => ">"@,
        SpecOperator::GtEq => ">="@,
        SpecOperator::Plus => "+"@,
        SpecOperator::Minus => "-"@,
        SpecOperator::Multiply => "*"@,
        SpecOperator::Divide => "/"@,
        SpecOperator::Modulo => "%"@,
        SpecOperator::And => "AND"@,
        SpecOperator::Or => "OR"@,
        SpecOperator::Other(s) => s,
    }
}

/// The output field a source pattern exposes for one of its abstract fields.
pub open spec fn source_field(f: SpecField) -> SpecQualifiedField {
    SpecQualifiedField { qualifier: None, name: f.name, data_type: spec_type_data_type(f.data_type), nullable: f.nullable }
}

/// The output schema of a plan.
pub open spec fn plan_schema(p: SpecPlan) -> Seq<SpecQualifiedField>
    decreases p,
{
    match p {
        SpecPlan::Source(s) => s.schema.fields.map_values(|f: SpecField| source_field(f)),
        SpecPlan::Empty(inner) => plan_schema(*inner),
        SpecPlan::TableScan { schema, .. } => schema,
        SpecPlan::EmptyRelation { schema, .. } => schema,
        SpecPlan::Filter { input, .. } => plan_schema(*input),
        SpecPlan::Projection { schema, .. } => schema,
        SpecPlan::Aggregate { schema, .. } => schema,
        SpecPlan::Join { schema, .. } => schema,
        SpecPlan::Union { schema, .. } => schema,
        SpecPlan::Sort { input, .. } => plan_schema(*input),
        SpecPlan::Limit { input, .. } => plan_schema(*input),
        SpecPlan::Distinct(input) => plan_schema(*input),
        SpecPlan::SubqueryAlias { schema, .. } => schema,
        SpecPlan::Subquery(q) => plan_schema(*q.plan),
        SpecPlan::Other { schema, .. } => schema,
    }
}

/// The name under which an expression appears as an output column.
pub open spec fn schema_name(e: SpecExpr) -> Seq<char>
    decreases e,
{
    match e {
        SpecExpr::Column(c) => flat_name(c),
        SpecExpr::OuterReferenceColumn(_, c) => "outer_ref("@ + flat_name(c) + ")"@,
        SpecExpr::Literal(l) => l.debug,
        SpecExpr::Alias { relation, name, .. } => match relation {
            Some(r) => r + "."@ + name,
            None => name,
        },
        SpecExpr::Binary { left, op, right } =>
            schema_name(*left) + " "@ + op_text(op) + " "@ + schema_name(*right),
        SpecExpr::ScalarFunction { func, args } => func.name + "("@ + joined_names(args, ","@) + ")"@,
        SpecExpr::AggregateFunction { func, params } =>
            func.name + "("@ + (if params.distinct { "DISTINCT "@ } else { Seq::empty() })
                + joined_names(params.args, ","@) + ")"@,
        SpecExpr::Unary(op, inner) => match op {
            UnaryOp::Not => "NOT "@ + schema_name(*inner),
            UnaryOp::IsNull => schema_name(*inner) + " IS NULL"@,
            UnaryOp::IsNotNull => schema_name(*inner) + " IS NOT NULL"@,
            UnaryOp::Negative => "(- "@ + schema_name(*inner) + ")"@,
        },
        SpecExpr::Between { expr, negated, low, high } =>
            schema_name(*expr) + (if negated { " NOT BETWEEN "@ } else { " BETWEEN "@ }) + schema_name(*low)
                + " AND "@ + schema_name(*high),
        SpecExpr::Case { operand, arms, else_expr } =>
            "CASE "@ + (match operand {
                Some(o) => schema_name(*o) + " "@,
                None => Seq::empty(),
            }) + arms_text(arms) + (match else_expr {
                Some(x) => "ELSE "@ + schema_name(*x) + " "@,
                None => Seq::empty(),
            }) + "END"@,
        SpecExpr::Cast { expr, .. } => schema_name(*expr),
        SpecExpr::InList { expr, list, negated } =>
            schema_name(*expr) + (if negated { " NOT IN "@ } else { " IN "@ }) + joined_names(list, ", "@),
        SpecExpr::Like(l) =>
            schema_name(*l.expr) + " "@ + (if l.negated { "NOT "@ } else { Seq::empty() })
                + (if l.case_insensitive { "ILIKE"@ } else { "LIKE"@ }) + " "@ + schema_name(*l.pattern)
                + escape_text(l.escape_char),
        SpecExpr::SimilarTo(l) =>
            schema_name(*l.expr) + (if l.negated { " NOT SIMILAR TO "@ } else { " SIMILAR TO "@ })
                + schema_name(*l.pattern) + escape_text(l.escape_char),
        SpecExpr::ScalarSubquery(q) => {
            let s = plan_schema(*q.plan);
            if s.len() > 0 { s[0].name } else { Seq::empty() }
        },
        SpecExpr::InSubquery { negated, .. } => if negated { "NOT IN"@ } else { "IN"@ },
        SpecExpr::Exists { negated, .. } => if negated { "NOT EXISTS"@ } else { "EXISTS"@ },
        SpecExpr::Other(s) => s,
    }
}

pub open spec fn escape_text(c: Option<char>) -> Seq<char> {
    match c {
        Some(ch) => " CHAR '"@.push(ch) + "'"@,
        None => Seq::empty(),
    }
}

/// The names of a list of expressions, separated by `sep`.
pub open spec fn joined_names(s: Seq<SpecExpr>, sep: Seq<char>) -> Seq<char>
    decreases s,
{
    if s.len() == 0 {
        Seq::empty()
    } else if s.len() == 1 {
        schema_name(s[0])
    } else {
        joined_names(s.drop_last(), sep) + sep + schema_name(s.last())
    }
}

/// `WHEN c THEN r ` for every arm of a `CASE`.
pub open spec fn arms_text(s: Seq<SpecWhenThen>) -> Seq<char>
    decreases s,
{
    if s.len() == 0 {
        Seq::empty()
    } else {
        arms_text(s.drop_last()) + "WHEN "@ + schema_name(s.last().condition) + " THEN "@
            + schema_name(s.last().result) + " "@
    }
}

/// The qualifier and name of the column an expression is exposed under.
pub open spec fn qualified_name(e: SpecExpr) -> (Option<Seq<char>>, Seq<char>) {
    match e {
        SpecExpr::Column(c) => (c.relation, c.name),
        SpecExpr::Alias { relation, name, .. } => (relation, name),
        _ => (None, schema_name(e)),
    }
}

/// Whether a field answers a column reference: a qualified reference needs the same
/// qualifier and name, an unqualified one only the same name.
pub open spec fn field_answers(f: SpecQualifiedField, c: SpecColumn) -> bool {
    &&& f.name == c.name
    &&& (c.relation is Some ==> f.qualifier == c.relation)
}

/// The first field of a schema that answers a column reference.
pub open spec fn lookup_field(s: Seq<SpecQualifiedField>, c: SpecColumn) -> Option<SpecQualifiedField>
    decreases s.len(),
{
    if s.len() == 0 {
        None
    } else if field_answers(s[0], c) {
        Some(s[0])
    } else {
        lookup_field(s.drop_first(), c)
    }
}

pub open spec fn is_predicate_op(op: SpecOperator) -> bool {
    match op {
        SpecOperator::Eq | SpecOperator::NotEq | SpecOperator::Lt | SpecOperator::LtEq | SpecOperator::Gt
        | SpecOperator::GtEq | SpecOperator::And | SpecOperator::Or => true,
        _ => false,
    }
}

pub open spec fn is_arithmetic_op(op: SpecOperator) -> bool {
    op is Plus || op is Minus || op is Multiply || op is Divide || op is Modulo
}

/// The type the engine's binary type coercion gives an arithmetic operator over two
/// operand types, named by their text; none when it refuses them or a text names no type.
pub uninterp spec fn arithmetic_result_type(left: Seq<char>, op: SpecOperator, right: Seq<char>) -> Option<Seq<char>>;

pub open spec fn view_opt_text(t: Option<String>) -> Option<Seq<char>> {
    match t {
        Some(x) => Some(x@),
        None => None,
    }
}

/// The operand types handed to the engine's arithmetic coercion: the plain scalar types,
/// by their exact text. The engine builds an empty array of each operand type to learn
/// the result type, and that panics for some nested types (a dictionary keyed by a
/// non-integer type, for one), so other texts are never handed to it.
pub open spec fn coercible_type_text(t: Seq<char>) -> bool {
    ||| t == "Null"@
    ||| t == "Boolean"@
    ||| t == "Int8"@
    ||| t == "Int16"@
    ||| t == "Int32"@
    ||| t == "Int64"@
    ||| t == "UInt8"@
    ||| t == "UInt16"@
    ||| t == "UInt32"@
    ||| t == "UInt64"@
    ||| t == "Float16"@
    ||| t == "Float32"@
    ||| t == "Float64"@
    ||| t == "Utf8"@
    ||| t == "LargeUtf8"@
    ||| t == "Utf8View"@
    ||| t == "Binary"@
    ||| t == "LargeBinary"@
    ||| t == "BinaryView"@
    ||| t == "Date32"@
    ||| t == "Date64"@
}

/// Tests `coercible_type_text` on a type's text.
pub fn is_coercible_type_text(t: &String) -> (b: bool)
    ensures
        b == coercible_type_text(t@),
{
    *t == owned("Null") || *t == owned("Boolean") || *t == owned("Int8") || *t == owned("Int16")
        || *t == owned("Int32") || *t == owned("Int64") || *t == owned("UInt8")
        || *t == owned("UInt16") || *t == owned("UInt32") || *t == owned("UInt64")
        || *t == owned("Float16") || *t == owned("Float32") || *t == owned("Float64")
        || *t == owned("Utf8") || *t == owned("LargeUtf8") || *t == owned("Utf8View")
        || *t == owned("Binary") || *t == owned("LargeBinary") || *t == owned("BinaryView")
        || *t == owned("Date32") || *t == owned("Date64")
}

/// Calls the engine's binary type coercion (`BinaryTypeCoercer::get_result_type`) on two
/// operand types and gives back the result type's text. The type texts are turned into
/// the engine's `DataType` by `DataType::from_str` and the result back into text by its
/// `Display`; those two only convert, and the coercion is the one call that computes.
/// The contract only names the result: it depends on the two type texts and the operator
/// alone. It is called on the plain scalar types of `coercible_type_text` only: on some
/// nested types the coercion panics.
#[verifier::external_body]
fn arithmetic_result_type_of(left: &str, op: &Operator, right: &str) -> (r: Option<String>)
    requires
        is_arithmetic_op(op@),
        coercible_type_text(left@),
        coercible_type_text(right@),
    ensures
        view_opt_text(r) == arithmetic_result_type(left@, op@, right@),
{
    let op = match op {
        Operator::Plus => EngineOperator::Plus,
        Operator::Minus => EngineOperator::Minus,
        Operator::Multiply => EngineOperator::Multiply,
        Operator::Divide => EngineOperator::Divide,
        _ => EngineOperator::Modulo,
    };
    match (DataType::from_str(left), DataType::from_str(right)) {
        (Ok(l), Ok(r)) => BinaryTypeCoercer::new(&l, &op, &r).get_result_type().ok().map(|t| t.to_string()),
        _ => None,
    }
}

/// The data type of an expression evaluated over a schema. An arithmetic operator takes
/// the type that the engine's coercion gives its operand types where both are plain
/// scalar types (`coercible_type_text`) and the coercion accepts them, and the left
/// operand's type otherwise.
pub open spec fn expr_type(e: SpecExpr, s: Seq<SpecQualifiedField>) -> Seq<char>
    decreases e,
{
    match e {
        SpecExpr::Column(c) => match lookup_field(s, c) {
            Some(f) => f.data_type,
            None => "Null"@,
        },
        SpecExpr::OuterReferenceColumn(t, _) => t,
        SpecExpr::Literal(l) => l.data_type,
        SpecExpr::Alias { expr, .. } => expr_type(*expr, s),
        SpecExpr::Binary { left, op, right } => if is_predicate_op(op) {
            "Boolean"@
        } else if is_arithmetic_op(op) && coercible_type_text(expr_type(*left, s))
            && coercible_type_text(expr_type(*right, s)) {
            match arithmetic_result_type(expr_type(*left, s), op, expr_type(*right, s)) {
                Some(t) => t,
                None => expr_type(*left, s),
            }
        } else {
            expr_type(*left, s)
        },
        SpecExpr::ScalarFunction { func, .. } => func.return_type,
        SpecExpr::AggregateFunction { func, .. } => func.return_type,
        SpecExpr::Unary(op, inner) => match op {
            UnaryOp::Negative => expr_type(*inner, s),
            _ => "Boolean"@,
        },
        SpecExpr::Case { arms, else_expr, .. } => match first_typed_result(arms, s) {
            Some(t) => t,
            None => match else_expr {
                Some(x) => expr_type(*x, s),
                None => "Null"@,
            },
        },
        SpecExpr::Cast { data_type, .. } => data_type,
        SpecExpr::ScalarSubquery(q) => {
            let qs = plan_schema(*q.plan);
            if qs.len() > 0 { qs[0].data_type } else { "Null"@ }
        },
        SpecExpr::Other(_) => "Null"@,
        _ => "Boolean"@,
    }
}

/// Whether a literal is a null value: the engine writes every null as `NULL`, and only
/// strings and byte strings put their value in quotes in its `Debug` form.
pub open spec fn literal_is_null(l: crate::plan::SpecLiteral) -> bool {
    l.value == "NULL"@ && !l.debug.contains('"')
}

/// Whether an expression may evaluate to null over a schema, as the engine decides it.
pub open spec fn expr_nullable(e: SpecExpr, s: Seq<SpecQualifiedField>) -> bool
    decreases e,
{
    match e {
        SpecExpr::Column(c) => match lookup_field(s, c) {
            Some(f) => f.nullable,
            None => true,
        },
        SpecExpr::Literal(l) => literal_is_null(l),
        SpecExpr::Alias { expr, .. } => expr_nullable(*expr, s),
        SpecExpr::Binary { left, right, .. } => expr_nullable(*left, s) || expr_nullable(*right, s),
        SpecExpr::Unary(op, inner) => match op {
            UnaryOp::Not | UnaryOp::Negative => expr_nullable(*inner, s),
            _ => false,
        },
        SpecExpr::Between { expr, low, high, .. } =>
            expr_nullable(*expr, s) || expr_nullable(*low, s) || expr_nullable(*high, s),
        SpecExpr::Case { arms, else_expr, .. } => if some_result_nullable(arms, s) {
            true
        } else {
            match else_expr {
                Some(x) => expr_nullable(*x, s),
                None => true,
            }
        },
        SpecExpr::Cast { expr, try_cast, .. } => try_cast || expr_nullable(*expr, s),
        SpecExpr::InList { expr, list, .. } => expr_nullable(*expr, s) || some_of_first_nullable(list, s) || list.len()
            + 1 > 6,
        SpecExpr::Like(l) => expr_nullable(*l.expr, s) || expr_nullable(*l.pattern, s),
        SpecExpr::SimilarTo(l) => expr_nullable(*l.expr, s) || expr_nullable(*l.pattern, s),
        SpecExpr::Exists { .. } => false,
        SpecExpr::InSubquery { expr, .. } => expr_nullable(*expr, s),
        SpecExpr::ScalarSubquery(q) => {
            let qs = plan_schema(*q.plan);
            if qs.len() > 0 { qs[0].nullable } else { true }
        },
        _ => true,
    }
}

/// The type of the first arm of a `CASE` whose result is not of the null type.
pub open spec fn first_typed_result(arms: Seq<SpecWhenThen>, s: Seq<SpecQualifiedField>) -> Option<Seq<char>>
    decreases arms,
{
    if arms.len() == 0 {
        None
    } else {
        match first_typed_result(arms.drop_last(), s) {
            Some(t) => Some(t),
            None => {
                let t = expr_type(arms.last().result, s);
                if t != "Null"@ { Some(t) } else { None }
            },
        }
    }
}

/// Whether the result of some arm of a `CASE` may be null.
pub open spec fn some_result_nullable(arms: Seq<SpecWhenThen>, s: Seq<SpecQualifiedField>) -> bool
    decreases arms,
{
    if arms.len() == 0 {
        false
    } else {
        expr_nullable(arms.last().result, s) || some_result_nullable(arms.drop_last(), s)
    }
}

/// Whether one of the first five expressions of a list may be null.
pub open spec fn some_of_first_nullable(list: Seq<SpecExpr>, s: Seq<SpecQualifiedField>) -> bool
    decreases list,
{
    if list.len() == 0 {
        false
    } else {
        (list.len() <= 5 && expr_nullable(list.last(), s)) || some_of_first_nullable(list.drop_last(), s)
    }
}

/// The output field of an expression projected from an input schema.
pub open spec fn output_field(e: SpecExpr, s: Seq<SpecQualifiedField>) -> SpecQualifiedField {
    SpecQualifiedField {
        qualifier: qualified_name(e).0,
        name: qualified_name(e).1,
        data_type: expr_type(e, s),
        nullable: expr_nullable(e, s),
    }
}

/// The output fields of a list of projected expressions.
pub open spec fn output_fields(es: Seq<SpecExpr>, s: Seq<SpecQualifiedField>) -> Seq<SpecQualifiedField> {
    es.map_values(|e: SpecExpr| output_field(e, s))
}

// ---------------------------------------------------------------------------
// Executable counterparts
// ---------------------------------------------------------------------------

fn append(s: &mut String, t: &str)
    ensures
        final(s)@ == old(s)@ + t@,
{
    s.append(t);
}

pub fn flat_name_of(c: &Column) -> (r: String)
    ensures
        r@ == flat_name(c@),
{
    match &c.relation {
        Some(rel) => {
            let mut r = rel.clone();
            append(&mut r, ".");
            append(&mut r, c.name.as_str());
            r
        }
        None => c.name.clone(),
    }
}

pub fn op_text_of(op: &Operator) -> (r: String)
    ensures
        r@ == op_text(op@),
{
    match op {
        Operator::Eq => owned("="),
        Operator::NotEq => owned("!="),
        Operator::Lt => owned("<"),
        Operator::LtEq => owned("<="),
        Operator::Gt => owned(">"),
        Operator::GtEq => owned(">="),
        Operator::Plus => owned("+"),
        Operator::Minus => owned("-"),
        Operator::Multiply => owned("*"),
        Operator::Divide => owned("/"),
        Operator::Modulo => owned("%"),
        Operator::And => owned("AND"),
        Operator::Or => owned("OR"),
        Operator::Other(s) => s.clone(),
    }
}

/// The output schema of a plan.
pub fn schema_of(p: &Plan) -> (r: Vec<QualifiedField>)
    ensures
        view_fields(r@) == plan_schema(p@),
    decreases p,
{
    match p {
        Plan::Source(s) => {
            let mut r: Vec<QualifiedField> = Vec::new();
            let mut i: usize = 0;
            while i < s.schema.fields.len()
                invariant
                    i <= s.schema.fields.len(),
                    r@.len() == i,
                    forall|j: int| 0 <= j < i ==> #[trigger] r@[j]@ == source_field(s.schema.fields@[j]@),
                decreases s.schema.fields.len() - i,
            {
                let f = &s.schema.fields[i];
                r.push(QualifiedField {
                    qualifier: None,
                    name: f.name.clone(),
                    data_type: f.data_type.data_type(),
                    nullable: f.nullable,
                });
                i += 1;
            }
            assert(p@ == SpecPlan::Source(crate::plan::SpecSourceNode { table_name: s.table_name@, schema: s.schema@ }));
            assert(view_fields(r@) =~= plan_schema(p@));
            r
        }
        Plan::Empty(inner) => schema_of(inner),
        Plan::TableScan { schema, .. } => clone_fields(schema),
        Plan::EmptyRelation { schema, .. } => clone_fields(schema),
        Plan::Filter { input, .. } => schema_of(input),
        Plan::Projection { schema, .. } => clone_fields(schema),
        Plan::Aggregate { schema, .. } => clone_fields(schema),
        Plan::Join { schema, .. } => clone_fields(schema),
        Plan::Union { schema, .. } => clone_fields(schema),
        Plan::Sort { input, .. } => schema_of(input),
        Plan::Limit { input, .. } => schema_of(input),
        Plan::Distinct(input) => schema_of(input),
        Plan::SubqueryAlias { schema, .. } => clone_fields(schema),
        Plan::Subquery(q) => {
            assert(view_subquery(*q).plan == Box::new(view_plan(*q.plan)));
            schema_of(&q.plan)
        }
        Plan::Other { schema, .. } => clone_fields(schema),
    }
}

fn escape_text_of(c: Option<char>) -> (r: String)
    ensures
        r@ == escape_text(c),
{
    match c {
        Some(ch) => {
            let mut r = owned(" CHAR '");
            push_char(&mut r, ch);
            append(&mut r, "'");
            r
        }
        None => String::new(),
    }
}

/// The names of `args`, separated by `sep`.
#[verifier::loop_isolation(false)]
pub fn joined_names_of(args: &Vec<Expr>, sep: &str) -> (r: String)
    ensures
        r@ == joined_names(view_exprs(args@), sep@),
    decreases args,
{
    let ghost sv = view_exprs(args@);
    proof { lemma_view_exprs(args@); }
    let mut r = String::new();
    let mut i: usize = 0;
    while i < args.len()
        invariant
            i <= args.len(),
            r@ == joined_names(sv.take(i as int), sep@),
        decreases args.len() - i,
    {
        proof { assert(decreases_to!(args => args[i as int])); }
        if i > 0 {
            append(&mut r, sep);
        }
        let n = schema_name_of(&args[i]);
        append(&mut r, n.as_str());
        proof {
            assert(sv.take(i + 1).drop_last() =~= sv.take(i as int));
            if i == 0 {
                assert(sv.take(1) =~= seq![sv[0]]);
            }
        }
        i += 1;
    }
    assert(sv.take(args.len() as int) =~= sv);
    r
}

#[verifier::loop_isolation(false)]
fn arms_text_of(arms: &Vec<WhenThen>) -> (r: String)
    ensures
        r@ == arms_text(view_arms(arms@)),
    decreases arms,
{
    let ghost sv = view_arms(arms@);
    proof { lemma_view_arms(arms@); }
    let mut r = String::new();
    let mut i: usize = 0;
    while i < arms.len()
        invariant
            i <= arms.len(),
            r@ == arms_text(sv.take(i as int)),
        decreases arms.len() - i,
    {
        proof { assert(decreases_to!(arms => arms[i as int])); }
        append(&mut r, "WHEN ");
        let c = schema_name_of(&arms[i].condition);
        append(&mut r, c.as_str());
        append(&mut r, " THEN ");
        let t = schema_name_of(&arms[i].result);
        append(&mut r, t.as_str());
        append(&mut r, " ");
        proof {
            assert(sv.take(i + 1).drop_last() =~= sv.take(i as int));
        }
        i += 1;
    }
    assert(sv.take(arms.len() as int) =~= sv);
    r
}

/// The name under which an expression appears as an output column.
#[verifier::rlimit(60)]
pub fn schema_name_of(e: &Expr) -> (r: String)
    ensures
        r@ == schema_name(e@),
    decreases e,
{
    match e {
        Expr::Column(c) => {
            assert(e@ == SpecExpr::Column(c@));
            assert(schema_name(e@) == flat_name(c@));
            flat_name_of(c)
        }
        Expr::OuterReferenceColumn(_, c) => {
            let mut r = owned("outer_ref(");
            let f = flat_name_of(c);
            append(&mut r, f.as_str());
            append(&mut r, ")");
            r
        }
        Expr::Literal(l) => l.debug.clone(),
        Expr::Alias { relation, name, .. } => match relation {
            Some(rel) => {
                let mut r = rel.clone();
                append(&mut r, ".");
                append(&mut r, name.as_str());
                r
            }
            None => name.clone(),
        },
        Expr::Binary { left, op, right } => {
            let mut r = schema_name_of(left);
            append(&mut r, " ");
            let o = op_text_of(op);
            append(&mut r, o.as_str());
            append(&mut r, " ");
            let rn = schema_name_of(right);
            append(&mut r, rn.as_str());
            r
        }
        Expr::ScalarFunction { func, args } => {
            let mut r = func.name.clone();
            append(&mut r, "(");
            let a = joined_names_of(args, ",");
            append(&mut r, a.as_str());
            append(&mut r, ")");
            r
        }
        Expr::AggregateFunction { func, params } => {
            assert(view_params(*params).args == view_exprs(params.args@));
            let mut r = func.name.clone();
            append(&mut r, "(");
            if params.distinct {
                append(&mut r, "DISTINCT ");
            }
            let a = joined_names_of(&params.args, ",");
            append(&mut r, a.as_str());
            append(&mut r, ")");
            r
        }
        Expr::Unary(op, inner) => {
            let n = schema_name_of(inner);
            match op {
                UnaryOp::Not => {
                    let mut r = owned("NOT ");
                    append(&mut r, n.as_str());
                    r
                }
                UnaryOp::IsNull => {
                    let mut r = n;
                    append(&mut r, " IS NULL");
                    r
                }
                UnaryOp::IsNotNull => {
                    let mut r = n;
                    append(&mut r, " IS NOT NULL");
                    r
                }
                UnaryOp::Negative => {
                    let mut r = owned("(- ");
                    append(&mut r, n.as_str());
                    append(&mut r, ")");
                    r
                }
            }
        }
        Expr::Between { expr, negated, low, high } => {
            let mut r = schema_name_of(expr);
            if *negated {
                append(&mut r, " NOT BETWEEN ");
            } else {
                append(&mut r, " BETWEEN ");
            }
            let l = schema_name_of(low);
            append(&mut r, l.as_str());
            append(&mut r, " AND ");
            let h = schema_name_of(high);
            append(&mut r, h.as_str());
            r
        }
        Expr::Case { operand, arms, else_expr } => {
            assert(view_opt_expr(*operand) == match *operand { Some(b) => Some(Box::new(view_expr(*b))), None => None });
            assert(view_opt_expr(*else_expr) == match *else_expr { Some(b) => Some(Box::new(view_expr(*b))), None => None });
            let mut r = owned("CASE ");
            match operand {
                Some(o) => {
                    let n = schema_name_of(o);
                    append(&mut r, n.as_str());
                    append(&mut r, " ");
                }
                None => {}
            }
            let a = arms_text_of(arms);
            append(&mut r, a.as_str());
            match else_expr {
                Some(x) => {
                    append(&mut r, "ELSE ");
                    let n = schema_name_of(x);
                    append(&mut r, n.as_str());
                    append(&mut r, " ");
                }
                None => {}
            }
            append(&mut r, "END");
            r
        }
        Expr::Cast { expr, .. } => schema_name_of(expr),
        Expr::InList { expr, list, negated } => {
            let mut r = schema_name_of(expr);
            if *negated {
                append(&mut r, " NOT IN ");
            } else {
                append(&mut r, " IN ");
            }
            let l = joined_names_of(list, ", ");
            append(&mut r, l.as_str());
            r
        }
        Expr::Like(l) => {
            assert(view_like(*l).expr == Box::new(view_expr(*l.expr)) && view_like(*l).pattern == Box::new(view_expr(*l.pattern)));
            let mut r = schema_name_of(&l.expr);
            append(&mut r, " ");
            if l.negated {
                append(&mut r, "NOT ");
            }
            if l.case_insensitive {
                append(&mut r, "ILIKE");
            } else {
                append(&mut r, "LIKE");
            }
            append(&mut r, " ");
            let p = schema_name_of(&l.pattern);
            append(&mut r, p.as_str());
            let x = escape_text_of(l.escape_char);
            append(&mut r, x.as_str());
            r
        }
        Expr::SimilarTo(l) => {
            assert(view_like(*l).expr == Box::new(view_expr(*l.expr)) && view_like(*l).pattern == Box::new(view_expr(*l.pattern)));
            let mut r = schema_name_of(&l.expr);
            if l.negated {
                append(&mut r, " NOT SIMILAR TO ");
            } else {
                append(&mut r, " SIMILAR TO ");
            }
            let p = schema_name_of(&l.pattern);
            append(&mut r, p.as_str());
            let x = escape_text_of(l.escape_char);
            append(&mut r, x.as_str());
            r
        }
        Expr::ScalarSubquery(q) => {
            assert(view_subquery(*q).plan == Box::new(view_plan(*q.plan)));
            let s = schema_of(&q.plan);
            if s.len() > 0 {
                s[0].name.clone()
            } else {
                String::new()
            }
        }
        Expr::InSubquery { negated, .. } => if *negated { owned("NOT IN") } else { owned("IN") },
        Expr::Exists { negated, .. } => if *negated { owned("NOT EXISTS") } else { owned("EXISTS") },
        Expr::Other(s) => s.clone(),
    }
}

/// The qualifier and name of the column an expression is exposed under.
pub fn qualified_name_of(e: &Expr) -> (r: (Option<String>, String))
    ensures
        (opt_str(r.0), r.1@) == qualified_name(e@),
{
    match e {
        Expr::Column(c) => (clone_opt_string(&c.relation), c.name.clone()),
        Expr::Alias { relation, name, .. } => (clone_opt_string(relation), name.clone()),
        _ => (None, schema_name_of(e)),
    }
}

/// The first field of a schema that answers a column reference.
pub fn lookup_field_of(s: &Vec<QualifiedField>, c: &Column) -> (r: Option<usize>)
    ensures
        match r {
            Some(i) => i < s@.len() && lookup_field(view_fields(s@), c@) == Some(s@[i as int]@),
            None => lookup_field(view_fields(s@), c@) is None,
        },
{
    let ghost sv = view_fields(s@);
    assert(sv.skip(0) =~= sv);
    let mut i: usize = 0;
    while i < s.len()
        invariant
            i <= s.len(),
            sv == view_fields(s@),
            lookup_field(sv, c@) == lookup_field(sv.skip(i as int), c@),
        decreases s.len() - i,
    {
        let matches = s[i].name == c.name && match &c.relation {
            Some(rel) => match &s[i].qualifier {
                Some(q) => *q == *rel,
                None => false,
            },
            None => true,
        };
        assert(sv.skip(i as int)[0] == s@[i as int]@);
        if matches {
            return Some(i);
        }
        assert(sv.skip(i as int).drop_first() =~= sv.skip(i + 1));
        i += 1;
    }
    None
}

fn boolean_name() -> (r: String)
    ensures
        r@ == "Boolean"@,
{
    owned("Boolean")
}

fn null_name() -> (r: String)
    ensures
        r@ == "Null"@,
{
    owned("Null")
}

/// The data type of an expression evaluated over a schema.
#[verifier::rlimit(60)]
pub fn expr_type_of(e: &Expr, s: &Vec<QualifiedField>) -> (r: String)
    ensures
        r@ == expr_type(e@, view_fields(s@)),
    decreases e,
{
    match e {
        Expr::Column(c) => match lookup_field_of(s, c) {
            Some(i) => s[i].data_type.clone(),
            None => null_name(),
        },
        Expr::OuterReferenceColumn(t, _) => t.clone(),
        Expr::Literal(l) => l.data_type.clone(),
        Expr::Alias { expr, .. } => expr_type_of(expr, s),
        Expr::Binary { left, op, right } => match op {
            Operator::Eq | Operator::NotEq | Operator::Lt | Operator::LtEq | Operator::Gt | Operator::GtEq
            | Operator::And | Operator::Or => boolean_name(),
            Operator::Plus | Operator::Minus | Operator::Multiply | Operator::Divide | Operator::Modulo => {
                let lt = expr_type_of(left, s);
                let rt = expr_type_of(right, s);
                if is_coercible_type_text(&lt) && is_coercible_type_text(&rt) {
                    match arithmetic_result_type_of(lt.as_str(), op, rt.as_str()) {
                        Some(t) => t,
                        None => lt,
                    }
                } else {
                    lt
                }
            },
            _ => expr_type_of(left, s),
        },
        Expr::ScalarFunction { func, .. } => func.return_type.clone(),
        Expr::AggregateFunction { func, .. } => func.return_type.clone(),
        Expr::Unary(op, inner) => match op {
            UnaryOp::Negative => expr_type_of(inner, s),
            _ => boolean_name(),
        },
        Expr::Case { arms, else_expr, .. } => {
            assert(view_opt_expr(*else_expr) == match *else_expr { Some(b) => Some(Box::new(view_expr(*b))), None => None });
            match first_typed_result_of(arms, s) {
                Some(t) => t,
                None => match else_expr {
                    Some(x) => expr_type_of(x, s),
                    None => null_name(),
                },
            }
        }
        Expr::Cast { data_type, .. } => data_type.clone(),
        Expr::ScalarSubquery(q) => {
            assert(view_subquery(*q).plan == Box::new(view_plan(*q.plan)));
            let qs = schema_of(&q.plan);
            if qs.len() > 0 {
                qs[0].data_type.clone()
            } else {
                null_name()
            }
        }
        Expr::Other(_) => null_name(),
        _ => boolean_name(),
    }
}

/// Whether an expression may evaluate to null over a schema.
#[verifier::rlimit(60)]
pub fn expr_nullable_of(e: &Expr, s: &Vec<QualifiedField>) -> (r: bool)
    ensures
        r == expr_nullable(e@, view_fields(s@)),
    decreases e,
{
    match e {
        Expr::Column(c) => match lookup_field_of(s, c) {
            Some(i) => s[i].nullable,
            None => true,
        },
        Expr::Literal(l) => literal_is_null_of(l),
        Expr::Alias { expr, .. } => expr_nullable_of(expr, s),
        Expr::Binary { left, right, .. } => expr_nullable_of(left, s) || expr_nullable_of(right, s),
        Expr::Unary(op, inner) => match op {
            UnaryOp::Not | UnaryOp::Negative => expr_nullable_of(inner, s),
            _ => false,
        },
        Expr::Between { expr, low, high, .. } => {
            expr_nullable_of(expr, s) || expr_nullable_of(low, s) || expr_nullable_of(high, s)
        },
        Expr::Case { operand, arms, else_expr } => {
            assert(e@ == SpecExpr::Case {
                operand: view_opt_expr(*operand),
                arms: view_arms(arms@),
                else_expr: view_opt_expr(*else_expr),
            });
            if some_result_nullable_of(arms, s) {
                return true;
            }
            assert(view_opt_expr(*else_expr) == match *else_expr { Some(b) => Some(Box::new(view_expr(*b))), None => None });
            match else_expr {
                Some(x) => expr_nullable_of(x, s),
                None => true,
            }
        },
        Expr::Cast { expr, try_cast, .. } => *try_cast || expr_nullable_of(expr, s),
        Expr::InList { expr, list, negated } => {
            assert(e@ == SpecExpr::InList { expr: Box::new(view_expr(**expr)), list: view_exprs(list@), negated: *negated });
            proof { lemma_view_exprs(list@); }
            expr_nullable_of(expr, s) || some_of_first_nullable_of(list, s) || list.len() >= 6
        },
        Expr::Like(l) => {
            assert(e@ == SpecExpr::Like(view_like(*l)));
            expr_nullable_of(&l.expr, s) || expr_nullable_of(&l.pattern, s)
        },
        Expr::SimilarTo(l) => {
            assert(e@ == SpecExpr::SimilarTo(view_like(*l)));
            expr_nullable_of(&l.expr, s) || expr_nullable_of(&l.pattern, s)
        },
        Expr::Exists { .. } => false,
        Expr::InSubquery { expr, .. } => expr_nullable_of(expr, s),
        Expr::ScalarSubquery(q) => {
            assert(e@ == SpecExpr::ScalarSubquery(view_subquery(*q)));
            let qs = schema_of(&q.plan);
            if qs.len() > 0 { qs[0].nullable } else { true }
        },
        _ => true,
    }
}

proof fn lemma_first_typed_extends(sa: Seq<SpecWhenThen>, v: Seq<SpecQualifiedField>, k: int)
    requires
        0 <= k <= sa.len(),
        first_typed_result(sa.take(k), v) is Some,
    ensures
        first_typed_result(sa, v) == first_typed_result(sa.take(k), v),
    decreases sa.len() - k,
{
    if k < sa.len() {
        assert(sa.take(k + 1).drop_last() =~= sa.take(k));
        lemma_first_typed_extends(sa, v, k + 1);
    } else {
        assert(sa.take(k) =~= sa);
    }
}

/// The type of the first arm of a `CASE` whose result is not of the null type.
fn first_typed_result_of(arms: &Vec<WhenThen>, s: &Vec<QualifiedField>) -> (r: Option<String>)
    ensures
        view_opt_text(r) == first_typed_result(view_arms(arms@), view_fields(s@)),
    decreases arms,
{
    let ghost sa = view_arms(arms@);
    let ghost v = view_fields(s@);
    proof { lemma_view_arms(arms@); }
    let n = null_name();
    let mut i: usize = 0;
    while i < arms.len()
        invariant
            i <= arms@.len(),
            sa == view_arms(arms@),
            sa.len() == arms@.len(),
            forall|k: int| 0 <= k < arms@.len() ==> #[trigger] sa[k] == crate::plan::view_arm(arms@[k]),
            v == view_fields(s@),
            n@ == "Null"@,
            first_typed_result(sa.take(i as int), v) is None,
        decreases arms.len() - i,
    {
        proof {
            assert(decreases_to!(arms => arms[i as int]));
            assert(decreases_to!(arms[i as int] => arms[i as int].result));
            assert(sa.take(i + 1).drop_last() =~= sa.take(i as int));
        }
        let t = expr_type_of(&arms[i].result, s);
        if t != n {
            proof { lemma_first_typed_extends(sa, v, i + 1); }
            return Some(t);
        }
        i += 1;
    }
    assert(sa.take(arms@.len() as int) =~= sa);
    None
}

/// Whether the result of some arm of a `CASE` may be null.
fn some_result_nullable_of(arms: &Vec<WhenThen>, s: &Vec<QualifiedField>) -> (r: bool)
    ensures
        r == some_result_nullable(view_arms(arms@), view_fields(s@)),
    decreases arms,
{
    let ghost sa = view_arms(arms@);
    let ghost v = view_fields(s@);
    proof { lemma_view_arms(arms@); }
    let mut i: usize = 0;
    while i < arms.len()
        invariant
            i <= arms@.len(),
            sa == view_arms(arms@),
            sa.len() == arms@.len(),
            forall|k: int| 0 <= k < arms@.len() ==> #[trigger] sa[k] == crate::plan::view_arm(arms@[k]),
            v == view_fields(s@),
            !some_result_nullable(sa.take(i as int), v),
        decreases arms.len() - i,
    {
        proof {
            assert(decreases_to!(arms => arms[i as int]));
            assert(decreases_to!(arms[i as int] => arms[i as int].result));
            assert(sa.take(i + 1).drop_last() =~= sa.take(i as int));
        }
        if expr_nullable_of(&arms[i].result, s) {
            proof { lemma_result_nullable_prefix(sa, v, i as int); }
            return true;
        }
        i += 1;
    }
    assert(sa.take(arms@.len() as int) =~= sa);
    false
}

proof fn lemma_result_nullable_prefix(sa: Seq<SpecWhenThen>, v: Seq<SpecQualifiedField>, i: int)
    requires
        0 <= i < sa.len(),
        expr_nullable(sa[i].result, v),
    ensures
        some_result_nullable(sa, v),
    decreases sa.len(),
{
    if i < sa.len() - 1 {
        assert(sa.drop_last()[i] == sa[i]);
        lemma_result_nullable_prefix(sa.drop_last(), v, i);
    }
}

proof fn lemma_first_nullable_prefix(sl: Seq<SpecExpr>, v: Seq<SpecQualifiedField>, i: int)
    requires
        0 <= i < sl.len(),
        i < 5,
        expr_nullable(sl[i], v),
    ensures
        some_of_first_nullable(sl, v),
    decreases sl.len(),
{
    if i < sl.len() - 1 {
        assert(sl.drop_last()[i] == sl[i]);
        lemma_first_nullable_prefix(sl.drop_last(), v, i);
    }
}

proof fn lemma_first_nullable_beyond(sl: Seq<SpecExpr>, v: Seq<SpecQualifiedField>, n: int)
    requires
        5 <= n <= sl.len(),
        !some_of_first_nullable(sl.take(n), v),
    ensures
        !some_of_first_nullable(sl, v),
    decreases sl.len() - n,
{
    if n < sl.len() {
        assert(sl.take(n + 1).drop_last() =~= sl.take(n));
        lemma_first_nullable_beyond(sl, v, n + 1);
    } else {
        assert(sl.take(n) =~= sl);
    }
}

/// Whether one of the first five expressions of a list may be null.
fn some_of_first_nullable_of(list: &Vec<Expr>, s: &Vec<QualifiedField>) -> (r: bool)
    ensures
        r == some_of_first_nullable(view_exprs(list@), view_fields(s@)),
    decreases list,
{
    let ghost sl = view_exprs(list@);
    let ghost v = view_fields(s@);
    proof { lemma_view_exprs(list@); }
    let mut i: usize = 0;
    while i < list.len() && i < 5
        invariant
            i <= list@.len(),
            i <= 5,
            sl == view_exprs(list@),
            sl.len() == list@.len(),
            forall|k: int| 0 <= k < list@.len() ==> #[trigger] sl[k] == view_expr(list@[k]),
            v == view_fields(s@),
            !some_of_first_nullable(sl.take(i as int), v),
        decreases list.len() - i,
    {
        proof {
            assert(decreases_to!(list => list[i as int]));
            assert(sl.take(i + 1).drop_last() =~= sl.take(i as int));
        }
        if expr_nullable_of(&list[i], s) {
            proof { lemma_first_nullable_prefix(sl, v, i as int); }
            return true;
        }
        i += 1;
    }
    proof {
        if i == list.len() {
            assert(sl.take(i as int) =~= sl);
        } else {
            lemma_first_nullable_beyond(sl, v, 5);
        }
    }
    false
}

/// Whether a literal is a null value.
fn literal_is_null_of(l: &crate::plan::Literal) -> (r: bool)
    ensures
        r == literal_is_null(l@),
{
    proof { reveal_strlit("NULL"); }
    if l.value != owned("NULL") {
        return false;
    }
    let n = vstd::string::StrSliceExecFns::unicode_len(l.debug.as_str());
    let mut i: usize = 0;
    while i < n
        invariant
            n == l.debug@.len(),
            i <= n,
            forall|k: int| 0 <= k < i ==> l.debug@[k] != '"',
        decreases n - i,
    {
        if vstd::string::StrSliceExecFns::get_char(l.debug.as_str(), i) == '"' {
            assert(l.debug@.contains('"'));
            return false;
        }
        i += 1;
    }
    true
}

/// The output field of an expression projected from an input schema.
pub fn output_field_of(e: &Expr, s: &Vec<QualifiedField>) -> (r: QualifiedField)
    ensures
        r@ == output_field(e@, view_fields(s@)),
{
    let (q, n) = qualified_name_of(e);
    QualifiedField { qualifier: q, name: n, data_type: expr_type_of(e, s), nullable: expr_nullable_of(e, s) }
}

/// The output fields of a list of projected expressions.
pub fn output_fields_of(es: &Vec<Expr>, s: &Vec<QualifiedField>) -> (r: Vec<QualifiedField>)
    ensures
        view_fields(r@) == output_fields(view_exprs(es@), view_fields(s@)),
{
    proof { lemma_view_exprs(es@); }
    let mut r: Vec<QualifiedField> = Vec::new();
    let mut i: usize = 0;
    while i < es.len()
        invariant
            i <= es.len(),
            r@.len() == i,
            view_exprs(es@).len() == es@.len(),
            forall|j: int| 0 <= j < es@.len() ==> #[trigger] view_exprs(es@)[j] == view_expr(es@[j]),
            forall|j: int| 0 <= j < i ==> #[trigger] r@[j]@ == output_field(view_expr(es@[j]), view_fields(s@)),
        decreases es.len() - i,
    {
        r.push(output_field_of(&es[i], s));
        i += 1;
    }
    assert(view_fields(r@) =~= output_fields(view_exprs(es@), view_fields(s@)));
    r
}

} // verus!
