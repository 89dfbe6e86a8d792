//! The sample catalogue that rules are exercised on (the tables of Calcite's rule tests),
//! and abstract functions to write patterns with.
use vstd::prelude::*;
use crate::ast::opaque::Type;
use crate::ast::pattern::ScalarPattern;
use crate::plan::{view_fields, Plan, QualifiedField, SpecPlan, SpecQualifiedField};
use crate::text::owned;

verus! {

broadcast use vstd::std_specs::vec::group_vec_axioms;

/// A field of a scanned table.
pub open spec fn table_field(table: Seq<char>, name: Seq<char>, ty: Seq<char>, nullable: bool) -> SpecQualifiedField {
    SpecQualifiedField { qualifier: Some(table), name, data_type: ty, nullable }
}

fn field_of(table: &str, name: &str, ty: &str, nullable: bool) -> (r: QualifiedField)
    ensures
        r@ == table_field(table@, name@, ty@, nullable),
{
    QualifiedField { qualifier: Some(owned(table)), name: owned(name), data_type: owned(ty), nullable }
}

fn scan_of(table: &str, fields: Vec<QualifiedField>) -> (r: Plan)
    ensures
        r@ == (SpecPlan::TableScan { table_name: table@, schema: view_fields(fields@) }),
{
    Plan::TableScan { table_name: owned(table), schema: fields }
}

/// `dept(deptno INTEGER, dname VARCHAR)`.
pub fn dept_table() -> (r: Plan)
    ensures
        r@ == (SpecPlan::TableScan {
            table_name: "dept"@,
            schema: seq![table_field("dept"@, "deptno"@, "Int32"@, false), table_field("dept"@, "dname"@, "Utf8"@, false)],
        }),
{
    let fields = vec![field_of("dept", "deptno", "Int32", false), field_of("dept", "dname", "Utf8", false)];
    assert(view_fields(fields@) =~= seq![fields@[0]@, fields@[1]@]);
    scan_of("dept", fields)
}

/// `emp(empno INTEGER, ename VARCHAR, deptno INTEGER, salary FLOAT)`.
pub fn emp_table() -> (r: Plan)
    ensures
        r@ == (SpecPlan::TableScan {
            table_name: "emp"@,
            schema: seq![
                table_field("emp"@, "empno"@, "Int32"@, false),
                table_field("emp"@, "ename"@, "Utf8"@, false),
                table_field("emp"@, "deptno"@, "Int32"@, true),
                table_field("emp"@, "salary"@, "Float64"@, true),
            ],
        }),
{
    let fields = vec![
        field_of("emp", "empno", "Int32", false),
        field_of("emp", "ename", "Utf8", false),
        field_of("emp", "deptno", "Int32", true),
        field_of("emp", "salary", "Float64", true),
    ];
    assert(view_fields(fields@) =~= seq![fields@[0]@, fields@[1]@, fields@[2]@, fields@[3]@]);
    scan_of("emp", fields)
}

/// `test(a INTEGER, b INTEGER)`, both nullable.
pub fn test_table() -> (r: Plan)
    ensures
        r@ == (SpecPlan::TableScan {
            table_name: "test"@,
            schema: seq![table_field("test"@, "a"@, "Int32"@, true), table_field("test"@, "b"@, "Int32"@, true)],
        }),
{
    let fields = vec![field_of("test", "a", "Int32", true), field_of("test", "b", "Int32", true)];
    assert(view_fields(fields@) =~= seq![fields@[0]@, fields@[1]@]);
    scan_of("test", fields)
}

/// `sales(sale_id INTEGER, product_id INTEGER, quantity INTEGER)`.
pub fn sales_table() -> (r: Plan)
    ensures
        r@ == (SpecPlan::TableScan {
            table_name: "sales"@,
            schema: seq![
                table_field("sales"@, "sale_id"@, "Int32"@, false),
                table_field("sales"@, "product_id"@, "Int32"@, false),
                table_field("sales"@, "quantity"@, "Int32"@, false),
            ],
        }),
{
    let fields = vec![
        field_of("sales", "sale_id", "Int32", false),
        field_of("sales", "product_id", "Int32", false),
        field_of("sales", "quantity", "Int32", false),
    ];
    assert(view_fields(fields@) =~= seq![fields@[0]@, fields@[1]@, fields@[2]@]);
    scan_of("sales", fields)
}

/// `product(product_id INTEGER, name VARCHAR, price FLOAT)`.
pub fn product_table() -> (r: Plan)
    ensures
        r@ == (SpecPlan::TableScan {
            table_name: "product"@,
            schema: seq![
                table_field("product"@, "product_id"@, "Int32"@, false),
                table_field("product"@, "name"@, "Utf8"@, false),
                table_field("product"@, "price"@, "Float64"@, false),
            ],
        }),
{
    let fields = vec![
        field_of("product", "product_id", "Int32", false),
        field_of("product", "name", "Utf8", false),
        field_of("product", "price", "Float64", false),
    ];
    assert(view_fields(fields@) =~= seq![fields@[0]@, fields@[1]@, fields@[2]@]);
    scan_of("product", fields)
}

/// A table `test` of nullable binary columns with the given names.
pub fn table_with_binary_columns(column_names: Vec<&str>) -> (r: Plan)
    ensures
        r@ == (SpecPlan::TableScan {
            table_name: "test"@,
            schema: column_names@.map_values(|n: &str| table_field("test"@, n@, "Binary"@, true)),
        }),
{
    let mut fields: Vec<QualifiedField> = Vec::new();
    let mut i: usize = 0;
    while i < column_names.len()
        invariant
            i <= column_names@.len(),
            fields@.len() == i,
            forall|k: int| 0 <= k < i ==> (#[trigger] fields@[k])@ == table_field("test"@, column_names@[k]@, "Binary"@, true),
        decreases column_names.len() - i,
    {
        fields.push(field_of("test", column_names[i], "Binary", true));
        i += 1;
    }
    assert(view_fields(fields@) =~= column_names@.map_values(|n: &str| table_field("test"@, n@, "Binary"@, true)));
    scan_of("test", fields)
}

/// A one-argument abstract function.
pub fn test_function(name: &str, input_type: Type, output_type: Type) -> (r: ScalarPattern)
    ensures
        r.name@ == name@,
        r.input_types@ == seq![input_type],
        r.return_type@ == output_type@,
{
    let r = ScalarPattern::new(owned(name), vec![input_type], output_type);
    assert(r.input_types@ =~= seq![input_type]);
    r
}

/// A one-argument abstract predicate.
pub fn test_predicate(name: &str, input_type: Type) -> (r: ScalarPattern)
    ensures
        r.name@ == name@,
        r.input_types@ == seq![input_type],
        r.return_type == Type::Boolean,
{
    let r = ScalarPattern::new(owned(name), vec![input_type], Type::Boolean);
    assert(r.input_types@ =~= seq![input_type]);
    r
}

/// An empty relation shaped like the given plan.
pub fn empty_from(plan: &Plan) -> (r: Plan)
    ensures
        r@ == (SpecPlan::EmptyRelation { produce_one_row: false, schema: crate::naming::plan_schema(plan@) }),
{
    Plan::EmptyRelation { produce_one_row: false, schema: crate::naming::schema_of(plan) }
}

} // verus!
