use rulescript::ast::relational::Rel;
use rulescript::plan::{eq_plan, Column, Expr, JoinKey, JoinType, Literal, Operator, Plan};
use rulescript::rule::impls::{
    JoinAssociateRule, JoinLeftConditionPushRule, JoinRightConditionPushRule, LeftSemiJoinFilterTransposeRule,
    RightSemiJoinFilterTransposeRule,
};
use rulescript::rule::samples::{dept_table, emp_table, product_table, sales_table};
use rulescript::rule::ApplicableRule;

fn col(table: &str, name: &str) -> Expr {
    Expr::Column(Column { relation: Some(table.to_string()), name: name.to_string() })
}

fn int32(v: i32) -> Expr {
    Expr::Literal(Literal { value: format!("{}", v), debug: format!("Int32({})", v), data_type: "Int32".to_string() })
}

fn float(v: f64) -> Expr {
    Expr::Literal(Literal { value: format!("{}", v), debug: format!("Float64({})", v), data_type: "Float64".to_string() })
}

fn text(v: &str) -> Expr {
    Expr::Literal(Literal { value: v.to_string(), debug: format!("Utf8(\"{}\")", v), data_type: "Utf8".to_string() })
}

fn bin(l: Expr, op: Operator, r: Expr) -> Expr {
    Expr::Binary { left: Box::new(l), op, right: Box::new(r) }
}

fn eq(l: Expr, r: Expr) -> Expr {
    bin(l, Operator::Eq, r)
}

fn gt(l: Expr, r: Expr) -> Expr {
    bin(l, Operator::Gt, r)
}

fn and(l: Expr, r: Expr) -> Expr {
    bin(l, Operator::And, r)
}

fn filter(input: Plan, predicate: Expr) -> Plan {
    Rel { plan: input }.filter(predicate).unwrap().plan
}

fn join_kind(left: Plan, right: Plan, kind: JoinType, on: Vec<(Expr, Expr)>, condition: Option<Expr>) -> Plan {
    let keys = on.into_iter().map(|(l, r)| JoinKey { left: l, right: r }).collect();
    Rel { plan: left }.join(Rel { plan: right }, kind, keys, condition).unwrap().plan
}

fn join(left: Plan, right: Plan, condition: Expr) -> Plan {
    join_kind(left, right, JoinType::Inner, vec![], Some(condition))
}

fn assert_same(actual: &Plan, expected: &Plan) {
    assert!(eq_plan(actual, expected), "Plans do not match.\nActual:\n{:?}\n\nExpected:\n{:?}", actual, expected);
}

// ---------------------------------------------------------------------------
// JoinLeftConditionPushRule
// ---------------------------------------------------------------------------

#[test]
fn test_join_left_condition_push() {
    let cross = eq(col("emp", "deptno"), col("dept", "deptno"));
    let input = join(emp_table(), dept_table(), and(gt(col("emp", "salary"), float(1000.0)), cross.clone()));
    let expected = join(filter(emp_table(), gt(col("emp", "salary"), float(1000.0))), dept_table(), cross);
    let result = JoinLeftConditionPushRule.try_apply(&input).unwrap();
    assert_same(&result, &expected);
}

#[test]
fn test_join_left_condition_push_multiple() {
    let left_only = and(gt(col("sales", "sale_id"), int32(100)), gt(col("sales", "quantity"), int32(5)));
    let cross = eq(col("sales", "product_id"), col("product", "product_id"));
    let input = join(sales_table(), product_table(), and(left_only.clone(), cross.clone()));
    let expected = join(filter(sales_table(), left_only), product_table(), cross);
    let result = JoinLeftConditionPushRule.try_apply(&input).unwrap();
    assert_same(&result, &expected);
}

#[test]
fn join_left_condition_push_test_no_match_cross_condition_only() {
    let input = join(emp_table(), dept_table(), eq(col("emp", "deptno"), col("dept", "deptno")));
    assert!(JoinLeftConditionPushRule.try_apply(&input).is_err());
}

#[test]
fn join_left_condition_push_test_no_match_single_table() {
    assert!(JoinLeftConditionPushRule.try_apply(&emp_table()).is_err());
}

// ---------------------------------------------------------------------------
// JoinRightConditionPushRule
// ---------------------------------------------------------------------------

#[test]
fn test_join_right_condition_push() {
    let cross = eq(col("emp", "deptno"), col("dept", "deptno"));
    let input = join(emp_table(), dept_table(), and(cross.clone(), gt(col("dept", "deptno"), int32(10))));
    let expected = join(emp_table(), filter(dept_table(), gt(col("dept", "deptno"), int32(10))), cross);
    let result = JoinRightConditionPushRule.try_apply(&input).unwrap();
    assert_same(&result, &expected);
}

#[test]
fn test_join_right_condition_push_multiple() {
    let cross = eq(col("sales", "product_id"), col("product", "product_id"));
    let right_only = and(gt(col("product", "price"), float(50.0)), eq(col("product", "name"), text("Widget")));
    let input = join(
        sales_table(),
        product_table(),
        and(and(cross.clone(), gt(col("product", "price"), float(50.0))), eq(col("product", "name"), text("Widget"))),
    );
    let expected = join(sales_table(), filter(product_table(), right_only), cross);
    let result = JoinRightConditionPushRule.try_apply(&input).unwrap();
    assert_same(&result, &expected);
}

#[test]
fn join_right_condition_push_test_no_match_cross_condition_only() {
    let input = join(emp_table(), dept_table(), eq(col("emp", "deptno"), col("dept", "deptno")));
    assert!(JoinRightConditionPushRule.try_apply(&input).is_err());
}

#[test]
fn join_right_condition_push_test_no_match_single_table() {
    assert!(JoinRightConditionPushRule.try_apply(&dept_table()).is_err());
}

// ---------------------------------------------------------------------------
// JoinAssociateRule
// ---------------------------------------------------------------------------

#[test]
fn test_join_associate_basic() {
    let emp_dept_cond = eq(col("emp", "deptno"), col("dept", "deptno"));
    let dept_sales_cond = eq(col("dept", "deptno"), col("sales", "product_id"));
    let input = join(join(emp_table(), dept_table(), emp_dept_cond.clone()), sales_table(), dept_sales_cond.clone());
    let expected = join(emp_table(), join(dept_table(), sales_table(), dept_sales_cond), emp_dept_cond);
    let result = JoinAssociateRule.try_apply(&input).unwrap();
    assert_same(&result, &expected);
}

#[test]
fn test_no_match_single_join() {
    let input =
        join_kind(emp_table(), dept_table(), JoinType::Inner, vec![(col("emp", "deptno"), col("dept", "deptno"))], None);
    assert!(JoinAssociateRule.try_apply(&input).is_err());
}

#[test]
fn join_associate_test_no_match_single_table() {
    assert!(JoinAssociateRule.try_apply(&emp_table()).is_err());
}

// ---------------------------------------------------------------------------
// LeftSemiJoinFilterTransposeRule
// ---------------------------------------------------------------------------

fn semi_case(left: fn() -> Plan, right: fn() -> Plan, pred: Expr, join_filter: Expr) {
    let input = join_kind(filter(left(), pred.clone()), right(), JoinType::LeftSemi, vec![], Some(join_filter.clone()));
    let semi = join_kind(left(), right(), JoinType::LeftSemi, vec![], Some(join_filter));
    let expected = filter(semi, pred);
    let result = LeftSemiJoinFilterTransposeRule.try_apply(&input).unwrap();
    assert_same(&result, &expected);
}

#[test]
fn left_semi_join_filter_transpose_test_left_semi_join_filter_transpose_basic() {
    semi_case(emp_table, dept_table, eq(col("emp", "ename"), text("foo")), eq(col("emp", "deptno"), col("dept", "deptno")));
}

#[test]
fn left_semi_join_filter_transpose_test_left_semi_join_filter_transpose_complex_filter() {
    semi_case(
        emp_table,
        dept_table,
        and(eq(col("emp", "ename"), text("foo")), gt(col("emp", "salary"), float(50000.0))),
        eq(col("emp", "deptno"), col("dept", "deptno")),
    );
}

#[test]
fn left_semi_join_filter_transpose_test_left_semi_join_filter_transpose_multiple_tables() {
    semi_case(
        sales_table,
        product_table,
        gt(col("sales", "quantity"), int32(10)),
        eq(col("sales", "product_id"), col("product", "product_id")),
    );
}

#[test]
fn test_no_match_inner_join() {
    let plan = join(filter(emp_table(), eq(col("emp", "ename"), text("foo"))), dept_table(), eq(col("emp", "deptno"), col("dept", "deptno")));
    assert!(LeftSemiJoinFilterTransposeRule.try_apply(&plan).is_err());
}

#[test]
fn test_no_match_left_semi_join_without_filter() {
    let plan = join_kind(
        emp_table(),
        dept_table(),
        JoinType::LeftSemi,
        vec![],
        Some(eq(col("emp", "deptno"), col("dept", "deptno"))),
    );
    assert!(LeftSemiJoinFilterTransposeRule.try_apply(&plan).is_err());
}

// ---------------------------------------------------------------------------
// Semi join filter transposes, left and right
// ---------------------------------------------------------------------------

#[test]
fn semi_join_filter_transpose_test_left_semi_join_filter_transpose_basic() {
    semi_case(emp_table, dept_table, eq(col("emp", "ename"), text("foo")), eq(col("emp", "deptno"), col("dept", "deptno")));
}

#[test]
fn semi_join_filter_transpose_test_left_semi_join_filter_transpose_complex_filter() {
    semi_case(
        emp_table,
        dept_table,
        and(eq(col("emp", "ename"), text("foo")), gt(col("emp", "salary"), float(50000.0))),
        eq(col("emp", "deptno"), col("dept", "deptno")),
    );
}

#[test]
fn semi_join_filter_transpose_test_left_semi_join_filter_transpose_multiple_tables() {
    semi_case(
        sales_table,
        product_table,
        gt(col("sales", "quantity"), int32(10)),
        eq(col("sales", "product_id"), col("product", "product_id")),
    );
}

#[test]
fn test_left_no_match_inner_join() {
    let plan = join(filter(emp_table(), eq(col("emp", "ename"), text("foo"))), dept_table(), eq(col("emp", "deptno"), col("dept", "deptno")));
    assert!(LeftSemiJoinFilterTransposeRule.try_apply(&plan).is_err());
}

#[test]
fn test_left_no_match_without_filter() {
    let plan = join_kind(
        emp_table(),
        dept_table(),
        JoinType::LeftSemi,
        vec![],
        Some(eq(col("emp", "deptno"), col("dept", "deptno"))),
    );
    assert!(LeftSemiJoinFilterTransposeRule.try_apply(&plan).is_err());
}

fn right_semi_case(left: fn() -> Plan, right: fn() -> Plan, pred: Expr, join_filter: Expr) {
    let input = join_kind(left(), filter(right(), pred.clone()), JoinType::RightSemi, vec![], Some(join_filter.clone()));
    let semi = join_kind(left(), right(), JoinType::RightSemi, vec![], Some(join_filter));
    let expected = filter(semi, pred);
    let result = RightSemiJoinFilterTransposeRule.try_apply(&input).unwrap();
    assert_same(&result, &expected);
}

#[test]
fn test_right_semi_join_filter_transpose_basic() {
    right_semi_case(emp_table, dept_table, eq(col("dept", "dname"), text("Sales")), eq(col("emp", "deptno"), col("dept", "deptno")));
}

#[test]
fn test_right_semi_join_filter_transpose_complex_filter() {
    right_semi_case(
        sales_table,
        product_table,
        and(gt(col("product", "price"), float(100.0)), eq(col("product", "name"), text("Widget"))),
        eq(col("sales", "product_id"), col("product", "product_id")),
    );
}

#[test]
fn test_right_no_match_inner_join() {
    let plan = join(emp_table(), filter(dept_table(), eq(col("dept", "dname"), text("Sales"))), eq(col("emp", "deptno"), col("dept", "deptno")));
    assert!(RightSemiJoinFilterTransposeRule.try_apply(&plan).is_err());
}

#[test]
fn test_right_no_match_without_filter() {
    let plan = join_kind(
        emp_table(),
        dept_table(),
        JoinType::RightSemi,
        vec![],
        Some(eq(col("emp", "deptno"), col("dept", "deptno"))),
    );
    assert!(RightSemiJoinFilterTransposeRule.try_apply(&plan).is_err());
}
