use rulescript::ast::relational::Rel;
use rulescript::plan::{eq_plan, Column, Expr, JoinKey, JoinType, Literal, Operator, Plan};
use rulescript::rule::impls::{
    FilterIntoJoinRule, FilterMergeRule, FilterProjectTransposeRule, JoinCommuteRule, JoinConditionPushRule,
    JoinExtractFilterRule, JoinLeftProjectTransposeRule, JoinRightProjectTransposeRule, ProjectFilterTransposeRule,
    ProjectMergeRule, ProjectRemoveRule,
};
use rulescript::rule::RewriteRule;
use rulescript::rule::samples::{dept_table, emp_table, product_table, sales_table};
use rulescript::rule::ApplicableRule;

fn col(table: &str, name: &str) -> Expr {
    Expr::Column(Column { relation: Some(table.to_string()), name: name.to_string() })
}

fn int32(v: i32) -> Expr {
    Expr::Literal(Literal { value: format!("{}", v), debug: format!("Int32({})", v), data_type: "Int32".to_string() })
}

fn float(v: f64) -> Expr {
    Expr::Literal(Literal { value: format!("{}", v), debug: format!("Float64({})", v), data_type: "Float64".to_string() })
}

fn bin(l: Expr, op: Operator, r: Expr) -> Expr {
    Expr::Binary { left: Box::new(l), op, right: Box::new(r) }
}

fn eq(l: Expr, r: Expr) -> Expr {
    bin(l, Operator::Eq, r)
}

fn gt(l: Expr, r: Expr) -> Expr {
    bin(l, Operator::Gt, r)
}

fn and(l: Expr, r: Expr) -> Expr {
    bin(l, Operator::And, r)
}

fn or(l: Expr, r: Expr) -> Expr {
    bin(l, Operator::Or, r)
}

fn boolean(v: bool) -> Expr {
    Expr::Literal(Literal { value: format!("{}", v), debug: format!("Boolean({})", v), data_type: "Boolean".to_string() })
}

fn plus(l: Expr, r: Expr) -> Expr {
    bin(l, Operator::Plus, r)
}

fn times(l: Expr, r: Expr) -> Expr {
    bin(l, Operator::Multiply, r)
}

fn bare(name: &str) -> Expr {
    Expr::Column(Column { relation: None, name: name.to_string() })
}

fn alias(e: Expr, name: &str) -> Expr {
    Expr::Alias { expr: Box::new(e), relation: None, name: name.to_string() }
}

fn filter(input: Plan, predicate: Expr) -> Plan {
    Rel { plan: input }.filter(predicate).unwrap().plan
}

fn project(input: Plan, exprs: Vec<Expr>) -> Plan {
    Rel { plan: input }.project(exprs).unwrap().plan
}

fn join(left: Plan, right: Plan, on: Vec<(Expr, Expr)>, condition: Option<Expr>) -> Plan {
    let keys = on.into_iter().map(|(l, r)| JoinKey { left: l, right: r }).collect();
    Rel { plan: left }.join(Rel { plan: right }, JoinType::Inner, keys, condition).unwrap().plan
}

fn columns_of(table: &str, names: &[&str]) -> Vec<Expr> {
    names.iter().map(|n| col(table, n)).collect()
}

fn assert_same(actual: &Plan, expected: &Plan) {
    assert!(eq_plan(actual, expected), "Plans do not match.\nActual:\n{:?}\n\nExpected:\n{:?}", actual, expected);
}

// ---------------------------------------------------------------------------
// FilterMergeRule
// ---------------------------------------------------------------------------

#[test]
fn test_merge_filter_calcite() {
    let input = filter(filter(dept_table(), eq(col("dept", "deptno"), int32(10))), eq(col("dept", "deptno"), int32(10)));
    let expected = filter(dept_table(), and(eq(col("dept", "deptno"), int32(10)), eq(col("dept", "deptno"), int32(10))));
    let result = FilterMergeRule.try_apply(&input).unwrap();
    assert_same(&result, &expected);
}

#[test]
fn test_merge_different_filters() {
    let input = filter(filter(emp_table(), eq(col("emp", "deptno"), int32(10))), gt(col("emp", "salary"), float(50000.0)));
    let expected = filter(emp_table(), and(gt(col("emp", "salary"), float(50000.0)), eq(col("emp", "deptno"), int32(10))));
    let result = FilterMergeRule.try_apply(&input).unwrap();
    assert_same(&result, &expected);
}

#[test]
fn test_no_match_single_filter() {
    let plan = filter(dept_table(), eq(col("dept", "deptno"), int32(10)));
    assert!(FilterMergeRule.try_apply(&plan).is_err());
}

// ---------------------------------------------------------------------------
// FilterProjectTransposeRule
// ---------------------------------------------------------------------------

#[test]
fn test_filter_project_transpose_basic() {
    let cols = columns_of("emp", &["salary", "deptno"]);
    let pred = gt(col("emp", "salary"), float(50000.0));
    let input = filter(project(emp_table(), cols.clone()), pred.clone());
    let expected = project(filter(emp_table(), pred), cols);
    let result = FilterProjectTransposeRule.try_apply(&input).unwrap();
    assert_same(&result, &expected);
}

#[test]
fn test_filter_project_transpose_multiple_columns() {
    let cols = columns_of("emp", &["salary", "deptno"]);
    let pred = and(gt(col("emp", "salary"), float(50000.0)), eq(col("emp", "deptno"), int32(10)));
    let input = filter(project(emp_table(), cols.clone()), pred.clone());
    let expected = project(filter(emp_table(), pred), cols);
    let result = FilterProjectTransposeRule.try_apply(&input).unwrap();
    assert_same(&result, &expected);
}

#[test]
fn test_filter_project_transpose_with_expression() {
    let doubled = alias(bin(col("dept", "deptno"), Operator::Multiply, int32(2)), "doubled");
    let input = filter(
        project(dept_table(), vec![doubled.clone()]),
        eq(Expr::Column(Column { relation: None, name: "doubled".to_string() }), int32(20)),
    );
    let expected = project(
        filter(dept_table(), eq(bin(col("dept", "deptno"), Operator::Multiply, int32(2)), int32(20))),
        vec![doubled],
    );
    let result = FilterProjectTransposeRule.try_apply(&input).unwrap();
    assert_same(&result, &expected);
}

#[test]
fn test_filter_project_transpose_subset_columns() {
    let cols = columns_of("emp", &["salary"]);
    let pred = eq(col("emp", "salary"), float(11500.0));
    let input = filter(project(emp_table(), cols.clone()), pred.clone());
    let expected = project(filter(emp_table(), pred), cols);
    let result = FilterProjectTransposeRule.try_apply(&input).unwrap();
    assert_same(&result, &expected);
}

#[test]
fn test_filter_project_transpose_complex_predicate() {
    let cols = columns_of("emp", &["salary", "deptno"]);
    let pred = or(gt(col("emp", "salary"), float(50000.0)), eq(col("emp", "deptno"), int32(10)));
    let input = filter(project(emp_table(), cols.clone()), pred.clone());
    let expected = project(filter(emp_table(), pred), cols);
    let result = FilterProjectTransposeRule.try_apply(&input).unwrap();
    assert_same(&result, &expected);
}

#[test]
fn filter_project_transpose_test_no_match_filter_only() {
    let plan = filter(emp_table(), gt(col("emp", "salary"), float(50000.0)));
    assert!(FilterProjectTransposeRule.try_apply(&plan).is_err());
}

// ---------------------------------------------------------------------------
// ProjectRemoveRule
// ---------------------------------------------------------------------------

#[test]
fn test_project_remove_identity_dept() {
    let input = project(dept_table(), columns_of("dept", &["deptno", "dname"]));
    let result = ProjectRemoveRule.try_apply(&input).unwrap();
    assert_same(&result, &dept_table());
}

#[test]
fn test_project_remove_identity_emp() {
    let input = project(emp_table(), columns_of("emp", &["empno", "ename", "deptno", "salary"]));
    let result = ProjectRemoveRule.try_apply(&input).unwrap();
    assert_same(&result, &emp_table());
}

#[test]
fn test_no_match_reordered() {
    let plan = project(dept_table(), columns_of("dept", &["dname", "deptno"]));
    assert!(ProjectRemoveRule.try_apply(&plan).is_err());
}

#[test]
fn test_no_match_subset() {
    let plan = project(emp_table(), columns_of("emp", &["empno", "ename"]));
    assert!(ProjectRemoveRule.try_apply(&plan).is_err());
}

#[test]
fn test_no_match_with_expressions() {
    let mut exprs = columns_of("emp", &["empno", "ename", "deptno"]);
    exprs.push(alias(bin(col("emp", "salary"), Operator::Multiply, float(1.1)), "adjusted_salary"));
    let plan = project(emp_table(), exprs);
    assert!(ProjectRemoveRule.try_apply(&plan).is_err());
}

// ---------------------------------------------------------------------------
// FilterIntoJoinRule
// ---------------------------------------------------------------------------

#[test]
fn test_filter_into_join_basic() {
    let join_cond = eq(col("emp", "deptno"), col("dept", "deptno"));
    let pred = gt(col("emp", "salary"), float(1000.0));
    let input = filter(join(emp_table(), dept_table(), vec![], Some(join_cond.clone())), pred.clone());
    let expected = join(emp_table(), dept_table(), vec![], Some(and(join_cond, pred)));
    let result = FilterIntoJoinRule.try_apply(&input).unwrap();
    assert_same(&result, &expected);
}

#[test]
fn test_filter_into_join_cross_table() {
    let join_cond = eq(col("emp", "deptno"), col("dept", "deptno"));
    let pred = gt(col("emp", "empno"), col("dept", "deptno"));
    let input = filter(join(emp_table(), dept_table(), vec![], Some(join_cond.clone())), pred.clone());
    let expected = join(emp_table(), dept_table(), vec![], Some(and(join_cond, pred)));
    let result = FilterIntoJoinRule.try_apply(&input).unwrap();
    assert_same(&result, &expected);
}

#[test]
fn test_filter_into_join_duplicate_predicate() {
    let join_cond = gt(col("dept", "deptno"), col("emp", "empno"));
    let pred = gt(col("dept", "deptno"), col("emp", "empno"));
    let input = filter(join(dept_table(), emp_table(), vec![], Some(join_cond.clone())), pred.clone());
    let expected = join(dept_table(), emp_table(), vec![], Some(and(join_cond, pred)));
    let result = FilterIntoJoinRule.try_apply(&input).unwrap();
    assert_same(&result, &expected);
}

#[test]
fn filter_into_join_test_no_match_filter_only() {
    let plan = filter(emp_table(), gt(col("emp", "empno"), int32(100)));
    assert!(FilterIntoJoinRule.try_apply(&plan).is_err());
}

#[test]
fn test_no_match_join_only() {
    let plan = join(emp_table(), dept_table(), vec![(col("emp", "deptno"), col("dept", "deptno"))], None);
    assert!(FilterIntoJoinRule.try_apply(&plan).is_err());
}

// ---------------------------------------------------------------------------
// JoinCommuteRule
// ---------------------------------------------------------------------------

#[test]
fn test_join_commute_basic() {
    let input = join(emp_table(), dept_table(), vec![(col("emp", "deptno"), col("dept", "deptno"))], None);
    let swapped = join(dept_table(), emp_table(), vec![], Some(eq(col("emp", "deptno"), col("dept", "deptno"))));
    let mut cols = columns_of("emp", &["empno", "ename", "deptno", "salary"]);
    cols.extend(columns_of("dept", &["deptno", "dname"]));
    let expected = project(swapped, cols);
    let result = JoinCommuteRule.try_apply(&input).unwrap();
    assert_same(&result, &expected);
}

#[test]
fn test_join_commute_with_filter_condition() {
    let join_filter = gt(col("product", "price"), float(100.0));
    let input = join(
        sales_table(),
        product_table(),
        vec![(col("sales", "product_id"), col("product", "product_id"))],
        Some(join_filter.clone()),
    );
    let full = and(eq(col("sales", "product_id"), col("product", "product_id")), join_filter);
    let swapped = join(product_table(), sales_table(), vec![], Some(full));
    let mut cols = columns_of("sales", &["sale_id", "product_id", "quantity"]);
    cols.extend(columns_of("product", &["product_id", "name", "price"]));
    let expected = project(swapped, cols);
    let result = JoinCommuteRule.try_apply(&input).unwrap();
    assert_same(&result, &expected);
}

#[test]
fn join_commute_test_no_match_single_table() {
    assert!(JoinCommuteRule.try_apply(&emp_table()).is_err());
}

// ---------------------------------------------------------------------------
// JoinConditionPushRule
// ---------------------------------------------------------------------------

#[test]
fn test_join_condition_push_all_three_types() {
    let cond = and(
        and(eq(col("emp", "deptno"), col("dept", "deptno")), gt(col("emp", "salary"), float(1000.0))),
        gt(col("dept", "deptno"), int32(10)),
    );
    let input = join(emp_table(), dept_table(), vec![], Some(cond));
    let filtered_emp = filter(emp_table(), gt(col("emp", "salary"), float(1000.0)));
    let filtered_dept = filter(dept_table(), gt(col("dept", "deptno"), int32(10)));
    let expected = join(filtered_emp, filtered_dept, vec![], Some(eq(col("emp", "deptno"), col("dept", "deptno"))));
    let result = JoinConditionPushRule.try_apply(&input).unwrap();
    assert_same(&result, &expected);
}

#[test]
fn test_join_condition_push_multiple_left_predicates() {
    let cond = and(
        and(
            and(eq(col("sales", "product_id"), col("product", "product_id")), gt(col("sales", "sale_id"), int32(100))),
            gt(col("sales", "quantity"), int32(5)),
        ),
        gt(col("product", "price"), float(50.0)),
    );
    let input = join(sales_table(), product_table(), vec![], Some(cond));
    let filtered_sales =
        filter(sales_table(), and(gt(col("sales", "sale_id"), int32(100)), gt(col("sales", "quantity"), int32(5))));
    let filtered_product = filter(product_table(), gt(col("product", "price"), float(50.0)));
    let expected = join(
        filtered_sales,
        filtered_product,
        vec![],
        Some(eq(col("sales", "product_id"), col("product", "product_id"))),
    );
    let result = JoinConditionPushRule.try_apply(&input).unwrap();
    assert_same(&result, &expected);
}

#[test]
fn test_join_condition_push_only_cross_table() {
    let input = join(emp_table(), dept_table(), vec![], Some(eq(col("emp", "deptno"), col("dept", "deptno"))));
    assert!(JoinConditionPushRule.try_apply(&input).is_err());
    assert!(!JoinConditionPushRule.matches(&input));
}

#[test]
fn join_condition_push_test_no_match_single_table() {
    assert!(JoinConditionPushRule.try_apply(&emp_table()).is_err());
}

// ---------------------------------------------------------------------------
// JoinLeftProjectTransposeRule and JoinRightProjectTransposeRule
// ---------------------------------------------------------------------------

#[test]
fn test_join_left_project_transpose_basic() {
    let proj_emp = project(emp_table(), columns_of("emp", &["ename", "deptno"]));
    let input = join(proj_emp, dept_table(), vec![(col("emp", "deptno"), col("dept", "deptno"))], None);
    let joined = join(emp_table(), dept_table(), vec![], Some(eq(col("emp", "deptno"), col("dept", "deptno"))));
    let mut cols = columns_of("emp", &["ename", "deptno"]);
    cols.extend(columns_of("dept", &["deptno", "dname"]));
    let expected = project(joined, cols);
    let result = JoinLeftProjectTransposeRule.try_apply(&input).unwrap();
    assert_same(&result, &expected);
}

#[test]
fn test_no_match_no_left_projection() {
    let input = join(emp_table(), dept_table(), vec![(col("emp", "deptno"), col("dept", "deptno"))], None);
    assert!(JoinLeftProjectTransposeRule.try_apply(&input).is_err());
}

#[test]
fn test_no_match_right_projection_only() {
    let proj_dept = project(dept_table(), columns_of("dept", &["deptno", "dname"]));
    let input = join(emp_table(), proj_dept, vec![(col("emp", "deptno"), col("dept", "deptno"))], None);
    assert!(JoinLeftProjectTransposeRule.try_apply(&input).is_err());
}

#[test]
fn test_join_right_project_transpose_basic() {
    let proj_dept = project(dept_table(), columns_of("dept", &["deptno", "dname"]));
    let input = join(emp_table(), proj_dept, vec![(col("emp", "deptno"), col("dept", "deptno"))], None);
    let joined = join(emp_table(), dept_table(), vec![], Some(eq(col("emp", "deptno"), col("dept", "deptno"))));
    let mut cols = columns_of("emp", &["empno", "ename", "deptno", "salary"]);
    cols.extend(columns_of("dept", &["deptno", "dname"]));
    let expected = project(joined, cols);
    let result = JoinRightProjectTransposeRule.try_apply(&input).unwrap();
    assert_same(&result, &expected);
}

#[test]
fn test_no_match_no_right_projection() {
    let input = join(emp_table(), dept_table(), vec![(col("emp", "deptno"), col("dept", "deptno"))], None);
    assert!(JoinRightProjectTransposeRule.try_apply(&input).is_err());
}

#[test]
fn test_no_match_left_projection_only() {
    let proj_emp = project(emp_table(), columns_of("emp", &["empno", "ename"]));
    let input = join(proj_emp, dept_table(), vec![(col("emp", "empno"), col("dept", "deptno"))], None);
    assert!(JoinRightProjectTransposeRule.try_apply(&input).is_err());
}

// ---------------------------------------------------------------------------
// ProjectMergeRule
// ---------------------------------------------------------------------------

#[test]
fn test_project_merge_calcite_style() {
    let inner = project(emp_table(), vec![alias(plus(col("emp", "salary"), float(1000.0)), "x")]);
    let input = project(inner, vec![alias(times(bare("x"), float(2.0)), "result")]);
    let expected = project(
        emp_table(),
        vec![alias(times(alias(plus(col("emp", "salary"), float(1000.0)), "x"), float(2.0)), "result")],
    );
    let result = ProjectMergeRule.try_apply(&input).unwrap();
    assert_same(&result, &expected);
}

#[test]
fn test_project_merge_with_column_rename() {
    let inner = project(dept_table(), vec![alias(col("dept", "dname"), "name")]);
    let input = project(inner, vec![alias(bare("name"), "final_name")]);
    let expected = project(dept_table(), vec![alias(alias(col("dept", "dname"), "name"), "final_name")]);
    let result = ProjectMergeRule.try_apply(&input).unwrap();
    assert_same(&result, &expected);
}

#[test]
fn test_no_match_single_projection() {
    let plan = project(emp_table(), columns_of("emp", &["empno", "ename"]));
    assert!(ProjectMergeRule.try_apply(&plan).is_err(), "Should not match single projection");
}

// ---------------------------------------------------------------------------
// ProjectFilterTransposeRule
// ---------------------------------------------------------------------------

#[test]
fn test_project_filter_transpose() {
    let rule = ProjectFilterTransposeRule;
    let pattern = rule.from();
    let replacement = rule.to();
    assert!(matches!(pattern.plan, Plan::Projection { .. }));
    assert!(matches!(replacement.plan, Plan::Filter { .. }));
}

// ---------------------------------------------------------------------------
// JoinExtractFilterRule
// ---------------------------------------------------------------------------

fn extract_filter_case(cond: Expr) {
    let input = join(emp_table(), dept_table(), vec![], Some(cond.clone()));
    let cartesian = join(emp_table(), dept_table(), vec![], Some(boolean(true)));
    let expected = filter(cartesian, cond);
    let result = JoinExtractFilterRule.try_apply(&input).unwrap();
    assert_same(&result, &expected);
}

#[test]
fn test_join_extract_filter_basic() {
    extract_filter_case(eq(col("emp", "deptno"), col("dept", "deptno")));
}

#[test]
fn test_join_extract_filter_complex_condition() {
    extract_filter_case(and(eq(col("emp", "deptno"), col("dept", "deptno")), gt(col("emp", "salary"), float(1000.0))));
}

#[test]
fn test_join_extract_filter_cross_table_predicate() {
    extract_filter_case(gt(col("emp", "empno"), col("dept", "deptno")));
}

#[test]
fn test_no_match_filter_above_join() {
    let joined = join(emp_table(), dept_table(), vec![], Some(eq(col("emp", "deptno"), col("dept", "deptno"))));
    let plan = filter(joined, gt(col("emp", "empno"), int32(100)));
    assert!(JoinExtractFilterRule.try_apply(&plan).is_err());
}

#[test]
fn join_extract_filter_test_no_match_single_table() {
    assert!(JoinExtractFilterRule.try_apply(&emp_table()).is_err());
}
