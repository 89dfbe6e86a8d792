use rulescript::ast::relational::Rel;
use rulescript::plan::{
    QualifiedField, AggregateParams, Callee, Column, Expr, FunctionRef, JoinKey, JoinType, Literal, Operator, Plan, SortExpr, Subquery,
    UnaryOp, WhenThen,
};
use rulescript::qed::json::Json;
use rulescript::qed::serializer::{QedError, QedOutput, QedSerializer, Verifier};
use rulescript::rule::impls::{
    FilterAggregateTransposeRule, FilterMergeRule, FilterReduceFalseRule, JoinAssociateRule, PruneEmptyUnionLeftRule,
};
use rulescript::rule::samples::{dept_table, emp_table};

fn col(table: &str, name: &str) -> Expr {
    Expr::Column(Column { relation: Some(table.to_string()), name: name.to_string() })
}

fn int32(v: i32) -> Expr {
    Expr::Literal(Literal { value: format!("{}", v), debug: format!("Int32({})", v), data_type: "Int32".to_string() })
}

fn bin(l: Expr, op: Operator, r: Expr) -> Expr {
    Expr::Binary { left: Box::new(l), op, right: Box::new(r) }
}

fn filter(input: Plan, predicate: Expr) -> Plan {
    Rel { plan: input }.filter(predicate).unwrap().plan
}

fn s(x: &str) -> Json {
    Json::Str(x.to_string())
}

fn obj(members: Vec<(&str, Json)>) -> Json {
    Json::Obj(members.into_iter().map(|(k, v)| (k.to_string(), v)).collect())
}

fn column(idx: u128, ty: &str) -> Json {
    obj(vec![("column", Json::Num(idx)), ("type", s(ty))])
}

fn op(name: &str, operands: Vec<Json>, ty: &str) -> Json {
    obj(vec![("operator", s(name)), ("operand", Json::Arr(operands)), ("type", s(ty))])
}

fn scan(idx: u128) -> Json {
    obj(vec![("scan", Json::Num(idx))])
}

fn filter_node(condition: Json, source: Json) -> Json {
    obj(vec![("filter", obj(vec![("condition", condition), ("source", source)]))])
}

fn queries(out: &QedOutput) -> String {
    format!("{:?}", out.queries)
}

#[test]
fn test_qed_filter_merge_rule() {
    let mut serializer = QedSerializer::new();
    let out = serializer.serialize_rule(&FilterMergeRule).unwrap();
    assert_eq!(out.schemas.len(), 1);
    assert_eq!(out.schemas[0].name, "source");
    assert_eq!(out.schemas[0].fields, vec!["col".to_string()]);
    assert_eq!(out.schemas[0].types, vec!["INTEGER".to_string()]);
    assert_eq!(out.schemas[0].nullable, vec![true]);
    assert!(out.schemas[0].key.is_empty());
    assert!(out.schemas[0].guaranteed.is_empty());
    let p = op("P", vec![column(0, "INTEGER")], "BOOLEAN");
    let q = op("Q", vec![column(0, "INTEGER")], "BOOLEAN");
    let before = filter_node(p, filter_node(q, scan(0)));
    let p = op("P", vec![column(0, "INTEGER")], "BOOLEAN");
    let q = op("Q", vec![column(0, "INTEGER")], "BOOLEAN");
    let after = filter_node(op("AND", vec![p, q], "BOOLEAN"), scan(0));
    assert_eq!(queries(&out), format!("{:?}", vec![before, after]));
}

#[test]
fn test_qed_plan_pair_shares_tables() {
    let before = filter(emp_table(), bin(col("emp", "salary"), Operator::Gt, int32(10)));
    let after = emp_table();
    let mut serializer = QedSerializer::new();
    let out = serializer.serialize_plan_pair(&before, &after).unwrap();
    assert_eq!(out.schemas.len(), 1);
    assert_eq!(out.schemas[0].name, "emp");
    assert_eq!(out.schemas[0].fields, vec!["empno", "ename", "deptno", "salary"]);
    assert_eq!(out.schemas[0].types, vec!["INTEGER", "INTEGER", "INTEGER", "INTEGER"]);
    assert_eq!(out.schemas[0].nullable, vec![false, false, true, true]);
    let cond = op(">", vec![column(3, "INTEGER"), op("10", vec![], "INTEGER")], "BOOLEAN");
    assert_eq!(queries(&out), format!("{:?}", vec![filter_node(cond, scan(0)), scan(0)]));
}

#[test]
fn test_qed_serializer_starts_fresh_for_each_pair() {
    let mut serializer = QedSerializer::new();
    serializer.serialize_plan_pair(&emp_table(), &emp_table()).unwrap();
    let out = serializer.serialize_plan_pair(&dept_table(), &dept_table()).unwrap();
    assert_eq!(out.schemas.len(), 1);
    assert_eq!(out.schemas[0].name, "dept");
}

#[test]
fn test_qed_join_numbers_right_columns_after_left() {
    let cond = bin(col("emp", "deptno"), Operator::Eq, col("dept", "deptno"));
    let joined = Rel { plan: emp_table() }.join(Rel { plan: dept_table() }, JoinType::Inner, vec![], Some(cond)).unwrap().plan;
    let mut serializer = QedSerializer::new();
    let out = serializer.serialize_plan_pair(&joined, &dept_table()).unwrap();
    assert_eq!(out.schemas.len(), 2);
    assert_eq!(out.schemas[0].name, "emp");
    assert_eq!(out.schemas[1].name, "dept");
    let condition = op("=", vec![column(2, "INTEGER"), column(4, "INTEGER")], "BOOLEAN");
    let join = obj(vec![(
        "join",
        obj(vec![("kind", s("INNER")), ("condition", condition), ("left", scan(0)), ("right", scan(1))]),
    )]);
    assert_eq!(queries(&out), format!("{:?}", vec![join, scan(1)]));
}

#[test]
fn test_qed_join_keys_become_conjunction() {
    let keys = vec![
        JoinKey { left: col("emp", "deptno"), right: col("dept", "deptno") },
        JoinKey { left: col("emp", "empno"), right: col("dept", "deptno") },
    ];
    let joined = Rel { plan: emp_table() }.join(Rel { plan: dept_table() }, JoinType::Left, keys, None).unwrap().plan;
    let mut serializer = QedSerializer::new();
    let out = serializer.serialize_plan_pair(&joined, &joined).unwrap();
    let first = op("=", vec![column(2, "INTEGER"), column(4, "INTEGER")], "BOOLEAN");
    let second = op("=", vec![column(0, "INTEGER"), column(4, "INTEGER")], "BOOLEAN");
    let condition = op("AND", vec![first, second], "BOOLEAN");
    let join = obj(vec![(
        "join",
        obj(vec![("kind", s("LEFT")), ("condition", condition), ("left", scan(0)), ("right", scan(1))]),
    )]);
    let text = format!("{:?}", join);
    assert_eq!(queries(&out), format!("[{}, {}]", text, text));
}

#[test]
fn test_qed_limit_over_sort_is_one_sort_node() {
    let sorted = Rel { plan: emp_table() }
        .sort(vec![SortExpr { expr: col("emp", "salary"), asc: false, nulls_first: true }])
        .unwrap();
    let limited = sorted.limit(2, Some(5)).unwrap().plan;
    let mut serializer = QedSerializer::new();
    let out = serializer.serialize_plan_pair(&limited, &emp_table()).unwrap();
    let collation = Json::Arr(vec![Json::Arr(vec![Json::Num(3), s("INTEGER"), s("DESCENDING")])]);
    let sort = obj(vec![(
        "sort",
        obj(vec![
            ("collation", collation),
            ("source", scan(0)),
            ("offset", op("2", vec![], "INTEGER")),
            ("limit", op("5", vec![], "INTEGER")),
        ]),
    )]);
    assert_eq!(queries(&out), format!("{:?}", vec![sort, scan(0)]));
}

#[test]
fn test_qed_column_not_found() {
    let plan = filter(emp_table(), bin(col("dept", "deptno"), Operator::Gt, int32(1)));
    let mut serializer = QedSerializer::new();
    match serializer.serialize_plan_pair(&plan, &emp_table()) {
        Err(QedError::ColumnNotFound(m)) => assert_eq!(
            m,
            "Column Column { relation: Some(Bare { table: \"dept\" }), name: \"deptno\" } not found in local or global"
        ),
        other => panic!("unexpected: {:?}", other),
    }
}

#[test]
fn test_qed_unsupported_operator() {
    let predicate = bin(col("emp", "ename"), Operator::Other("IS DISTINCT FROM".to_string()), col("emp", "ename"));
    let plan = Plan::Filter { predicate, input: Box::new(emp_table()) };
    let mut serializer = QedSerializer::new();
    match serializer.serialize_plan_pair(&plan, &emp_table()) {
        Err(QedError::UnsupportedOperator(m)) => assert_eq!(m, "IS DISTINCT FROM"),
        other => panic!("unexpected: {:?}", other),
    }
}

#[test]
fn test_qed_unsupported_plan() {
    let plan = Rel { plan: emp_table() }.distinct().unwrap().plan;
    let mut serializer = QedSerializer::new();
    match serializer.serialize_plan_pair(&emp_table(), &plan) {
        Err(QedError::UnsupportedPlan(m)) => assert_eq!(m, "Distinct:"),
        other => panic!("unexpected: {:?}", other),
    }
}

#[test]
fn test_limit_counts_wrap_like_64_bit_literals() {
    let limited = Rel { plan: emp_table() }.limit(usize::MAX, None).unwrap().plan;
    match limited {
        Plan::Limit { skip: Some(skip), fetch: None, .. } => match *skip {
            Expr::Literal(l) => {
                assert_eq!(l.value, "-1");
                assert_eq!(l.debug, "Int64(-1)");
                assert_eq!(l.data_type, "Int64");
            },
            other => panic!("unexpected: {:?}", other),
        },
        other => panic!("unexpected: {:?}", other),
    }
    let none = Rel { plan: emp_table() }.limit(0, Some(7)).unwrap().plan;
    assert!(matches!(none, Plan::Limit { skip: None, fetch: Some(_), .. }));
}

fn scalar(value: &str) -> Json {
    op(value, vec![], "INTEGER")
}

#[test]
fn test_qed_aggregate_group_and_functions() {
    let count = Expr::AggregateFunction {
        func: FunctionRef { name: "count".to_string(), callee: Callee::Builtin, return_type: "Int64".to_string() },
        params: AggregateParams {
            args: vec![col("emp", "empno")],
            distinct: true,
            filter: None,
            order_by: vec![],
            null_treatment: None,
        },
    };
    let grouped = Rel { plan: emp_table() }.aggregate(vec![col("emp", "deptno")], vec![count]).unwrap().plan;
    let mut serializer = QedSerializer::new();
    let out = serializer.serialize_plan_pair(&grouped, &emp_table()).unwrap();
    let function = obj(vec![
        ("operator", s("count")),
        ("operand", Json::Arr(vec![column(0, "INTEGER")])),
        ("distinct", Json::Bool(true)),
        ("ignoreNulls", Json::Bool(false)),
        ("type", s("INTEGER")),
    ]);
    let group = obj(vec![(
        "group",
        obj(vec![
            ("keys", Json::Arr(vec![column(2, "INTEGER")])),
            ("function", Json::Arr(vec![function])),
            ("source", scan(0)),
        ]),
    )]);
    assert_eq!(queries(&out), format!("{:?}", vec![group, scan(0)]));
}

#[test]
fn test_qed_union_lists_inputs() {
    let unioned = Rel { plan: emp_table() }.union(Rel { plan: emp_table() }).unwrap().plan;
    let mut serializer = QedSerializer::new();
    let out = serializer.serialize_plan_pair(&unioned, &emp_table()).unwrap();
    let union = obj(vec![("union", Json::Arr(vec![scan(0), scan(0)]))]);
    assert_eq!(queries(&out), format!("{:?}", vec![union, scan(0)]));
}

#[test]
fn test_qed_correlated_exists_sees_outer_columns() {
    let outer_ref = Expr::OuterReferenceColumn(
        "Int32".to_string(),
        Column { relation: Some("dept".to_string()), name: "deptno".to_string() },
    );
    let inner = filter(emp_table(), bin(col("emp", "deptno"), Operator::Eq, outer_ref));
    let exists = Expr::Exists {
        subquery: Subquery {
            plan: Box::new(inner),
            outer_ref_columns: vec![Expr::OuterReferenceColumn(
                "Int32".to_string(),
                Column { relation: Some("dept".to_string()), name: "deptno".to_string() },
            )],
        },
        negated: true,
    };
    let plan = filter(dept_table(), exists);
    let mut serializer = QedSerializer::new();
    let out = serializer.serialize_plan_pair(&plan, &dept_table()).unwrap();
    assert_eq!(out.schemas.len(), 2);
    assert_eq!(out.schemas[0].name, "dept");
    assert_eq!(out.schemas[1].name, "emp");
    let inner_cond = op("=", vec![column(4, "INTEGER"), column(0, "INTEGER")], "BOOLEAN");
    let query = filter_node(inner_cond, scan(1));
    let exists = obj(vec![
        ("operator", s("EXISTS")),
        ("operand", Json::Arr(vec![])),
        ("query", query),
        ("type", s("BOOLEAN")),
    ]);
    let not_exists = op("NOT", vec![exists], "BOOLEAN");
    assert_eq!(queries(&out), format!("{:?}", vec![filter_node(not_exists, scan(0)), scan(0)]));
}

#[test]
fn test_qed_in_list_between_and_case() {
    let in_list = Expr::InList { expr: Box::new(col("emp", "empno")), list: vec![int32(1), int32(2)], negated: false };
    let between = Expr::Between {
        expr: Box::new(col("emp", "salary")),
        negated: true,
        low: Box::new(int32(1)),
        high: Box::new(int32(9)),
    };
    let case = Expr::Case {
        operand: None,
        arms: vec![WhenThen { condition: Expr::Unary(UnaryOp::IsNull, Box::new(col("emp", "deptno"))), result: int32(0) }],
        else_expr: None,
    };
    let projected = Rel { plan: emp_table() }
        .project(vec![in_list, between, case])
        .unwrap()
        .plan;
    let mut serializer = QedSerializer::new();
    let out = serializer.serialize_plan_pair(&projected, &emp_table()).unwrap();
    let c0 = || column(0, "INTEGER");
    let in_json = op(
        "OR",
        vec![op("=", vec![c0(), scalar("1")], "BOOLEAN"), op("=", vec![c0(), scalar("2")], "BOOLEAN")],
        "BOOLEAN",
    );
    let range = op(
        "AND",
        vec![
            op(">=", vec![column(3, "INTEGER"), scalar("1")], "BOOLEAN"),
            op("<=", vec![column(3, "INTEGER"), scalar("9")], "BOOLEAN"),
        ],
        "BOOLEAN",
    );
    let between_json = op("NOT", vec![range], "BOOLEAN");
    let case_json = op(
        "CASE",
        vec![op("IS NULL", vec![column(2, "INTEGER")], "BOOLEAN"), scalar("0"), op("null", vec![], "NULL")],
        "INTEGER",
    );
    let project = obj(vec![(
        "project",
        obj(vec![("target", Json::Arr(vec![in_json, between_json, case_json])), ("source", scan(0))]),
    )]);
    assert_eq!(queries(&out), format!("{:?}", vec![project, scan(0)]));
}

#[test]
fn qed_serializes_every_exported_rule_kind() {
    // Aggregates, empty relations, unions and nested joins in rule patterns all serialize.
    let mut serializer = QedSerializer::new();
    let agg = serializer.serialize_rule(&FilterAggregateTransposeRule).unwrap();
    assert_eq!(agg.schemas.len(), 1);
    assert_eq!(agg.queries.len(), 2);
    let mut serializer = QedSerializer::new();
    let empty = serializer.serialize_rule(&FilterReduceFalseRule).unwrap();
    assert_eq!(empty.queries.len(), 2);
    let mut serializer = QedSerializer::new();
    let union = serializer.serialize_rule(&PruneEmptyUnionLeftRule).unwrap();
    // The empty branch becomes a literal relation and names no table.
    assert_eq!(union.schemas.len(), 1);
    assert_eq!(union.schemas[0].name, "b");
    let mut serializer = QedSerializer::new();
    let joins = serializer.serialize_rule(&JoinAssociateRule).unwrap();
    assert_eq!(joins.schemas.len(), 3);
}

fn field(table: &str, name: &str, ty: &str) -> QualifiedField {
    QualifiedField { qualifier: Some(table.to_string()), name: name.to_string(), data_type: ty.to_string(), nullable: true }
}

#[test]
fn columns_by_name_take_the_first_field_of_that_name() {
    let cols = vec![field("emp", "deptno", "Int32"), field("dept", "deptno", "Boolean"), field("dept", "dname", "Boolean")];
    let mut serializer = QedSerializer::new();
    let e = bin(col("dept", "deptno"), Operator::Eq, col("emp", "dname"));
    let json = serializer.serialize_expr_with_columns(&e, &cols).unwrap();
    let expected = op("=", vec![column(0, "INTEGER"), column(2, "BOOLEAN")], "BOOLEAN");
    assert_eq!(format!("{:?}", json), format!("{:?}", expected));
}

#[test]
fn columns_by_name_report_a_missing_column_by_its_debug_form() {
    let cols = vec![field("emp", "deptno", "Int32")];
    let mut serializer = QedSerializer::new();
    match serializer.serialize_expr_with_columns(&col("emp", "salary"), &cols) {
        Err(QedError::ColumnNotFound(m)) => assert_eq!(
            m,
            "Column Column { relation: Some(Bare { table: \"emp\" }), name: \"salary\" } not found"
        ),
        other => panic!("unexpected: {:?}", other),
    }
    let outer = Expr::OuterReferenceColumn("Int32".to_string(), Column { relation: None, name: "x".to_string() });
    match serializer.serialize_expr_with_columns(&outer, &cols) {
        Err(QedError::ColumnNotFound(m)) => {
            assert_eq!(m, "Outer reference column Column { relation: None, name: \"x\" } not found")
        },
        other => panic!("unexpected: {:?}", other),
    }
}

#[test]
fn columns_by_name_serialize_not_exists_and_refuse_other_kinds() {
    let cols = vec![field("dept", "deptno", "Int32")];
    let mut serializer = QedSerializer::new();
    let exists = Expr::Exists { subquery: Subquery { plan: Box::new(emp_table()), outer_ref_columns: vec![] }, negated: true };
    let json = serializer.serialize_expr_with_columns(&exists, &cols).unwrap();
    let expected = obj(vec![
        ("operator", s("NOT EXISTS")),
        ("operand", Json::Arr(vec![])),
        ("query", scan(0)),
        ("type", s("BOOLEAN")),
    ]);
    assert_eq!(format!("{:?}", json), format!("{:?}", expected));
    let neg = Expr::Unary(UnaryOp::Not, Box::new(col("dept", "deptno")));
    match serializer.serialize_expr_with_columns(&neg, &cols) {
        Err(QedError::UnsupportedExpr(m)) => assert!(m.starts_with("Not(Column(Column { relation: Some(Bare { table: \"dept\" })")),
        other => panic!("unexpected: {:?}", other),
    }
    let other = bin(col("dept", "deptno"), Operator::Other("IS DISTINCT FROM".to_string()), int32(1));
    match serializer.serialize_expr_with_columns(&other, &cols) {
        Err(QedError::UnsupportedOperator(m)) => assert_eq!(m, "IS DISTINCT FROM"),
        other => panic!("unexpected: {:?}", other),
    }
}

#[test]
fn pair_serialization_repeats_exactly_on_one_serializer() {
    let before = filter(emp_table(), bin(col("emp", "salary"), Operator::Gt, int32(10)));
    let mut serializer = QedSerializer::new();
    let first = serializer.serialize_plan_pair(&before, &dept_table()).unwrap();
    let second = serializer.serialize_plan_pair(&before, &dept_table()).unwrap();
    assert_eq!(format!("{:?}", first), format!("{:?}", second));
    assert_eq!(first.schemas.len(), 2);
    assert_eq!(first.schemas[0].name, "emp");
    assert_eq!(first.schemas[1].name, "dept");
}

#[test]
fn unsupported_plan_kinds_are_reported_as_the_engine_displays_them() {
    let empty = Plan::EmptyRelation { produce_one_row: true, schema: vec![] };
    let mut serializer = QedSerializer::new();
    match serializer.serialize_plan_pair(&empty, &emp_table()) {
        Err(QedError::UnsupportedPlan(m)) => assert_eq!(m, "EmptyRelation: rows=1"),
        other => panic!("unexpected: {:?}", other),
    }
}
