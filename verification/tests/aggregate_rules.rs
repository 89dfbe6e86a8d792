use rulescript::ast::relational::Rel;
use rulescript::plan::{eq_plan, AggregateParams, Callee, Column, Expr, FunctionRef, Literal, Operator, Plan};
use rulescript::rule::impls::FilterAggregateTransposeRule;
use rulescript::rule::samples::emp_table;
use rulescript::rule::ApplicableRule;

fn col(table: &str, name: &str) -> Expr {
    Expr::Column(Column { relation: Some(table.to_string()), name: name.to_string() })
}

fn bare(name: &str) -> Expr {
    Expr::Column(Column { relation: None, name: name.to_string() })
}

fn int32(v: i32) -> Expr {
    Expr::Literal(Literal { value: format!("{}", v), debug: format!("Int32({})", v), data_type: "Int32".to_string() })
}

fn float(v: f64) -> Expr {
    Expr::Literal(Literal { value: format!("{}", v), debug: format!("Float64({})", v), data_type: "Float64".to_string() })
}

fn bin(l: Expr, op: Operator, r: Expr) -> Expr {
    Expr::Binary { left: Box::new(l), op, right: Box::new(r) }
}

/// `sum(arg)` as the engine's built-in aggregate.
fn sum(arg: Expr) -> Expr {
    Expr::AggregateFunction {
        func: FunctionRef { name: "sum".to_string(), callee: Callee::Builtin, return_type: "Float64".to_string() },
        params: AggregateParams { args: vec![arg], distinct: false, filter: None, order_by: vec![], null_treatment: None },
    }
}

fn filter(input: Plan, predicate: Expr) -> Plan {
    Rel { plan: input }.filter(predicate).unwrap().plan
}

/// The employees grouped by department with their total salary.
fn salary_by_dept(input: Plan) -> Plan {
    Rel { plan: input }.aggregate(vec![col("emp", "deptno")], vec![sum(col("emp", "salary"))]).unwrap().plan
}

fn total() -> Expr {
    bare("sum(emp.salary)")
}

fn assert_same(actual: &Plan, expected: &Plan) {
    assert!(eq_plan(actual, expected), "Plans do not match.\nActual:\n{:?}\n\nExpected:\n{:?}", actual, expected);
}

#[test]
fn test_filter_aggregate_transpose_basic() {
    let dept10 = bin(col("emp", "deptno"), Operator::Eq, int32(10));
    let big = bin(total(), Operator::Gt, float(50000.0));
    let input = filter(salary_by_dept(emp_table()), bin(dept10.clone(), Operator::And, big.clone()));
    let expected = filter(salary_by_dept(filter(emp_table(), dept10)), big);
    let result = FilterAggregateTransposeRule.try_apply(&input).unwrap();
    assert_same(&result, &expected);
}

#[test]
fn test_filter_aggregate_transpose_multiple_group_predicates() {
    let dept10 = bin(col("emp", "deptno"), Operator::Eq, int32(10));
    let below50 = bin(col("emp", "deptno"), Operator::Lt, int32(50));
    let groups = bin(dept10, Operator::And, below50);
    let big = bin(total(), Operator::Gt, float(30000.0));
    let input = filter(salary_by_dept(emp_table()), bin(groups.clone(), Operator::And, big.clone()));
    let expected = filter(salary_by_dept(filter(emp_table(), groups)), big);
    let result = FilterAggregateTransposeRule.try_apply(&input).unwrap();
    assert_same(&result, &expected);
}

#[test]
fn test_no_match_only_aggregate_predicate() {
    let input = filter(salary_by_dept(emp_table()), bin(total(), Operator::Gt, float(50000.0)));
    assert!(FilterAggregateTransposeRule.try_apply(&input).is_err());
}

#[test]
fn test_no_match_no_aggregate() {
    let plan = filter(emp_table(), bin(col("emp", "deptno"), Operator::Eq, int32(10)));
    assert!(FilterAggregateTransposeRule.try_apply(&plan).is_err());
}

#[test]
fn filter_aggregate_transpose_pushes_the_group_conjunct_in_either_position() {
    // The conjuncts are matched as a set: the one that reads the total stays above.
    let big = bin(total(), Operator::Gt, float(50000.0));
    let dept10 = bin(col("emp", "deptno"), Operator::Eq, int32(10));
    let input = filter(salary_by_dept(emp_table()), bin(big.clone(), Operator::And, dept10.clone()));
    let expected = filter(salary_by_dept(filter(emp_table(), dept10)), big);
    let result = FilterAggregateTransposeRule.try_apply(&input).unwrap();
    assert_same(&result, &expected);
}

#[test]
fn aggregate_needs_a_grouping_or_an_aggregate() {
    let refused = Rel { plan: emp_table() }.aggregate(vec![], vec![]);
    match refused {
        Err(rulescript::matcher::error::RuleError::DataFusion { message }) => {
            assert!(message.starts_with("Error during planning: Aggregate requires at least one grouping or aggregate expression."))
        },
        other => panic!("unexpected: {:?}", other.map(|r| r.plan)),
    }
}

#[test]
fn aggregate_refuses_clashing_outputs() {
    let refused = Rel { plan: emp_table() }.aggregate(vec![col("emp", "deptno"), col("emp", "deptno")], vec![]);
    match refused {
        Err(rulescript::matcher::error::RuleError::DataFusion { message }) => {
            assert_eq!(message, "Schema error: Schema contains duplicate qualified field name emp.deptno")
        },
        other => panic!("unexpected: {:?}", other.map(|r| r.plan)),
    }
}
