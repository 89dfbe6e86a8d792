use rulescript::ast::builder::{ExprBuilder, PatternBuilder, SchemaBuilder, TypeIds};
use rulescript::ast::opaque::{Field, Schema, Type};
use rulescript::ast::relational::Rel;
use rulescript::matcher::error::RuleError;
use rulescript::plan::{eq_plan, Column, Expr, Literal, Operator, Plan};
use rulescript::rule::samples::{dept_table, emp_table, table_with_binary_columns, test_function, test_predicate, test_table};

fn col(table: &str, name: &str) -> Expr {
    Expr::Column(Column { relation: Some(table.to_string()), name: name.to_string() })
}

fn int32(v: i32) -> Expr {
    Expr::Literal(Literal { value: format!("{}", v), debug: format!("Int32({})", v), data_type: "Int32".to_string() })
}

fn generic(id: &str) -> Type {
    Type::Generic { id: id.to_string() }
}

#[test]
fn col_splits_qualified_names() {
    match ExprBuilder::col("t.a") {
        Expr::Column(c) => {
            assert_eq!(c.relation.as_deref(), Some("t"));
            assert_eq!(c.name, "a");
        },
        other => panic!("unexpected: {:?}", other),
    }
    match ExprBuilder::col("a") {
        Expr::Column(c) => {
            assert_eq!(c.relation, None);
            assert_eq!(c.name, "a");
        },
        other => panic!("unexpected: {:?}", other),
    }
}

#[test]
fn fresh_type_ids_count_up() {
    let mut ids = TypeIds::new();
    assert_eq!(ids.fresh(), "type_0");
    assert_eq!(ids.fresh(), "type_1");
    match SchemaBuilder::abstract_type(&mut ids) {
        Type::Generic { id } => assert_eq!(id, "type_2"),
        other => panic!("unexpected: {:?}", other),
    }
}

#[test]
fn schema_with_field_count_names_fields_by_position() {
    let mut ids = TypeIds::new();
    let schema = SchemaBuilder::with_field_count(&mut ids, 3);
    assert_eq!(schema.field_count(), 3);
    let names: Vec<&str> = schema.fields.iter().map(|f| f.name.as_str()).collect();
    assert_eq!(names, vec!["field_0", "field_1", "field_2"]);
    for (i, f) in schema.fields.iter().enumerate() {
        assert!(f.nullable);
        match &f.data_type {
            Type::Generic { id } => assert_eq!(id, &format!("type_{}", i)),
            other => panic!("unexpected: {:?}", other),
        }
    }
}

#[test]
fn schema_with_field_names_keeps_names() {
    let mut ids = TypeIds::new();
    let schema = SchemaBuilder::with_field_names(&mut ids, vec!["a".to_string(), "b".to_string()]);
    let names: Vec<&str> = schema.fields.iter().map(|f| f.name.as_str()).collect();
    assert_eq!(names, vec!["a", "b"]);
    let field = SchemaBuilder::field(&mut ids, "c".to_string(), false);
    assert_eq!(field.name, "c");
    assert!(!field.nullable);
    match field.data_type {
        Type::Generic { id } => assert_eq!(id, "type_2"),
        other => panic!("unexpected: {:?}", other),
    }
    let schema = SchemaBuilder::with_fields(vec![Field { name: "x".to_string(), data_type: Type::Boolean, nullable: true }]);
    assert_eq!(schema.field_count(), 1);
    match SchemaBuilder::abstract_type_with_id("K".to_string()) {
        Type::Generic { id } => assert_eq!(id, "K"),
        other => panic!("unexpected: {:?}", other),
    }
}

#[test]
fn schema_from_types_is_positional_and_nullable() {
    let schema = Schema::from_types(vec![generic("T"), Type::Boolean]);
    assert_eq!(schema.field_count(), 2);
    assert_eq!(schema.fields[0].name, "field_0");
    assert_eq!(schema.fields[1].name, "field_1");
    assert!(schema.fields[0].nullable && schema.fields[1].nullable);
    assert!(matches!(schema.fields[1].data_type, Type::Boolean));
}

#[test]
fn filter_refuses_non_boolean_predicates() {
    let refused = Rel { plan: emp_table() }.filter(col("emp", "ename"));
    match refused {
        Err(RuleError::DataFusion { message }) => {
            assert_eq!(message, "Error during planning: Cannot create filter with non-boolean predicate 'emp.ename' returning Utf8")
        },
        other => panic!("unexpected: {:?}", other),
    }
}

#[test]
fn filter_drops_nested_aliases() {
    let aliased = Expr::Alias {
        expr: Box::new(Expr::Binary { left: Box::new(col("dept", "deptno")), op: Operator::Eq, right: Box::new(int32(1)) }),
        relation: None,
        name: "flag".to_string(),
    };
    let predicate = Expr::Binary { left: Box::new(aliased), op: Operator::And, right: Box::new(Expr::Column(Column { relation: Some("dept".to_string()), name: "deptno".to_string() })) };
    let plan = Rel { plan: dept_table() }.filter(predicate).unwrap().plan;
    match plan {
        Plan::Filter { predicate: Expr::Binary { left, .. }, .. } => assert!(matches!(*left, Expr::Binary { .. })),
        other => panic!("unexpected: {:?}", other),
    }
}

#[test]
fn project_refuses_clashing_fields() {
    let r = Rel { plan: dept_table() }.project(vec![col("dept", "deptno"), col("dept", "deptno")]);
    assert!(matches!(r, Err(RuleError::DataFusion { .. })));
}

#[test]
fn pattern_builder_round_trips() {
    let built = PatternBuilder::from_logical_plan(dept_table()).build().unwrap();
    assert!(eq_plan(&built.plan, &dept_table()));
    let again = PatternBuilder::from_pattern(built).unwrap().build().unwrap();
    assert!(eq_plan(&again.plan, &dept_table()));
    let mut ids = TypeIds::new();
    let source = PatternBuilder::from_source("s".to_string(), SchemaBuilder::with_field_count(&mut ids, 1)).build().unwrap();
    assert!(matches!(source.plan, Plan::Source(_)));
}

#[test]
fn sample_catalogue() {
    match table_with_binary_columns(vec!["x", "y"]) {
        Plan::TableScan { table_name, schema } => {
            assert_eq!(table_name, "test");
            assert_eq!(schema.len(), 2);
            assert_eq!(schema[1].name, "y");
            assert_eq!(schema[1].data_type, "Binary");
            assert_eq!(schema[1].qualifier.as_deref(), Some("test"));
        },
        other => panic!("unexpected: {:?}", other),
    }
    let f = test_function("f", generic("T"), generic("U"));
    assert_eq!(f.name, "f");
    assert_eq!(f.input_count(), 1);
    let p = test_predicate("p", generic("T"));
    assert!(matches!(p.return_type, Type::Boolean));
}

#[test]
fn join_refuses_clashing_schemas() {
    let joined = Rel { plan: emp_table() }.join(Rel { plan: emp_table() }, rulescript::plan::JoinType::Inner, vec![], None);
    match joined {
        Err(RuleError::DataFusion { message }) => {
            assert_eq!(message, "Schema error: Schema contains duplicate qualified field name emp.empno")
        },
        other => panic!("unexpected: {:?}", other),
    }
    let semi = Rel { plan: emp_table() }.join(Rel { plan: emp_table() }, rulescript::plan::JoinType::LeftSemi, vec![], None);
    assert!(semi.is_ok());
}

#[test]
fn union_keeps_the_first_schema() {
    let unioned = Rel { plan: emp_table() }.union(Rel { plan: dept_table() }).unwrap().plan;
    match unioned {
        Plan::Union { inputs, schema } => {
            assert_eq!(inputs.len(), 2);
            let names: Vec<(Option<&str>, &str)> =
                schema.iter().map(|f| (f.qualifier.as_deref(), f.name.as_str())).collect();
            assert_eq!(
                names,
                vec![(Some("emp"), "empno"), (Some("emp"), "ename"), (Some("emp"), "deptno"), (Some("emp"), "salary")]
            );
            assert!(eq_plan(&inputs[1], &dept_table()));
        },
        other => panic!("unexpected: {:?}", other),
    }
}

#[test]
fn project_refuses_clashing_outputs() {
    let deptno = || Expr::Column(Column { relation: Some("emp".to_string()), name: "deptno".to_string() });
    let bare = Expr::Alias { expr: Box::new(deptno()), relation: None, name: "deptno".to_string() };
    let refused = Rel { plan: emp_table() }.project(vec![deptno(), bare]);
    match refused {
        Err(RuleError::DataFusion { message }) => assert_eq!(
            message,
            "Schema error: Schema contains qualified field name emp.deptno and unqualified field name deptno which would be ambiguous"
        ),
        other => panic!("unexpected: {:?}", other.map(|r| r.plan)),
    }
    let twice = Rel { plan: emp_table() }.project(vec![
        Expr::Alias { expr: Box::new(deptno()), relation: None, name: "d".to_string() },
        Expr::Alias { expr: Box::new(deptno()), relation: None, name: "d".to_string() },
    ]);
    match twice {
        Err(RuleError::DataFusion { message }) => {
            assert_eq!(message, "Schema error: Schema contains duplicate unqualified field name d")
        },
        other => panic!("unexpected: {:?}", other.map(|r| r.plan)),
    }
}

#[test]
fn abstract_functions_carry_their_signatures() {
    let a = Expr::Column(Column { relation: None, name: "a".to_string() });
    match ExprBuilder::abstract_function("f".to_string(), vec![generic("T")], Type::Boolean, vec![a]) {
        Expr::ScalarFunction { func, args } => {
            assert_eq!(func.name, "f");
            assert_eq!(func.return_type, "Boolean");
            assert_eq!(args.len(), 1);
        },
        other => panic!("unexpected: {:?}", other),
    }
    let mut ids = TypeIds::new();
    ids.next = 3;
    let args = vec![Expr::Column(Column { relation: None, name: "a".to_string() }), Expr::Column(Column { relation: None, name: "b".to_string() })];
    match ExprBuilder::abstract_function_with_count(&mut ids, "g".to_string(), 2, args) {
        Expr::ScalarFunction { func, args } => {
            assert_eq!(func.name, "g");
            assert_eq!(args.len(), 2);
            match func.callee {
                rulescript::plan::Callee::Pattern(sig) => {
                    assert!(matches!(&sig.input_types[0], Type::Generic { id } if id == "type_3"));
                    assert!(matches!(&sig.input_types[1], Type::Generic { id } if id == "type_4"));
                    assert!(matches!(&sig.return_type, Type::Generic { id } if id == "type_5"));
                },
                other => panic!("unexpected: {:?}", other),
            }
        },
        other => panic!("unexpected: {:?}", other),
    }
    assert_eq!(ids.next, 6);
}

#[test]
fn not_equal_and_the_test_table() {
    let a = Expr::Column(Column { relation: Some("test".to_string()), name: "a".to_string() });
    let b = Expr::Column(Column { relation: Some("test".to_string()), name: "b".to_string() });
    assert!(matches!(ExprBuilder::not_eq(a, b), Expr::Binary { op: Operator::NotEq, .. }));
    match test_table() {
        Plan::TableScan { table_name, schema } => {
            assert_eq!(table_name, "test");
            let names: Vec<&str> = schema.iter().map(|f| f.name.as_str()).collect();
            assert_eq!(names, vec!["a", "b"]);
            assert!(schema.iter().all(|f| f.nullable && f.data_type == "Int32"));
        },
        other => panic!("unexpected: {:?}", other),
    }
}

#[test]
fn arithmetic_outputs_take_the_engines_type_and_nullability() {
    let deptno = || Expr::Column(Column { relation: Some("dept".to_string()), name: "deptno".to_string() });
    let wide = Expr::Literal(Literal { value: "1".to_string(), debug: "Int64(1)".to_string(), data_type: "Int64".to_string() });
    let sum = Expr::Binary { left: Box::new(deptno()), op: Operator::Plus, right: Box::new(wide) };
    let twice = Expr::Binary { left: Box::new(deptno()), op: Operator::Plus, right: Box::new(deptno()) };
    let projected = Rel { plan: dept_table() }.project(vec![sum, twice]).unwrap().plan;
    match projected {
        Plan::Projection { schema, .. } => {
            assert_eq!(schema[0].data_type, "Int64");
            assert_eq!(schema[1].data_type, "Int32");
            assert!(!schema[0].nullable);
            assert!(!schema[1].nullable);
        },
        other => panic!("unexpected: {:?}", other),
    }
    let null = Expr::Literal(Literal { value: "NULL".to_string(), debug: "Int32(NULL)".to_string(), data_type: "Int32".to_string() });
    let maybe = Expr::Binary { left: Box::new(deptno()), op: Operator::Plus, right: Box::new(null) };
    let nullable = Rel { plan: dept_table() }.project(vec![maybe]).unwrap().plan;
    match nullable {
        Plan::Projection { schema, .. } => assert!(schema[0].nullable),
        other => panic!("unexpected: {:?}", other),
    }
}

#[test]
fn fresh_type_ids_never_repeat() {
    let mut ids = TypeIds::new();
    let seen: Vec<String> = (0..25).map(|_| ids.fresh()).collect();
    for (i, a) in seen.iter().enumerate() {
        for b in seen.iter().skip(i + 1) {
            assert_ne!(a, b);
        }
    }
    assert_eq!(seen[0], "type_0");
    assert_eq!(seen[24], "type_24");
}

#[test]
fn case_takes_the_type_of_its_first_typed_arm() {
    let null = Expr::Literal(Literal { value: "NULL".to_string(), debug: "NULL".to_string(), data_type: "Null".to_string() });
    let name = Expr::Column(Column { relation: Some("dept".to_string()), name: "dname".to_string() });
    let cond = || Expr::Literal(Literal { value: "true".to_string(), debug: "Boolean(true)".to_string(), data_type: "Boolean".to_string() });
    let case = Expr::Case {
        operand: None,
        arms: vec![
            rulescript::plan::WhenThen { condition: cond(), result: null },
            rulescript::plan::WhenThen { condition: cond(), result: name },
        ],
        else_expr: None,
    };
    let projected = Rel { plan: dept_table() }.project(vec![case]).unwrap().plan;
    match projected {
        Plan::Projection { schema, .. } => {
            assert_eq!(schema[0].data_type, "Utf8");
            assert!(schema[0].nullable);
        },
        other => panic!("unexpected: {:?}", other),
    }
}

#[test]
fn arithmetic_over_a_nested_type_keeps_the_left_type() {
    let null = Expr::Literal(Literal { value: "NULL".to_string(), debug: "NULL".to_string(), data_type: "Null".to_string() });
    let dict = Expr::Literal(Literal {
        value: "a".to_string(),
        debug: "Dictionary(Utf8, Utf8(\"a\"))".to_string(),
        data_type: "Dictionary(Utf8, Int32)".to_string(),
    });
    let sum = Expr::Binary { left: Box::new(null), op: Operator::Plus, right: Box::new(dict) };
    let projected = Rel { plan: dept_table() }.project(vec![sum]).unwrap().plan;
    match projected {
        Plan::Projection { schema, .. } => assert_eq!(schema[0].data_type, "Null"),
        other => panic!("unexpected: {:?}", other),
    }
}
