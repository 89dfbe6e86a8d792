use rulescript::ast::relational::Rel;
use rulescript::plan::{clone_plan, eq_plan, Column, Expr, Literal, Operator, Plan};
use rulescript::rule::impls::{
    FilterReduceFalseRule, FilterReduceTrueRule, PruneEmptyFilterRule, PruneEmptyProjectRule, PruneEmptyUnionBothRule, PruneEmptyUnionLeftRule,
    PruneEmptyUnionRightRule,
};
use rulescript::rule::samples::{dept_table, empty_from};
use rulescript::rule::ApplicableRule;

fn col(table: &str, name: &str) -> Expr {
    Expr::Column(Column { relation: Some(table.to_string()), name: name.to_string() })
}

fn boolean(v: bool) -> Expr {
    Expr::Literal(Literal { value: format!("{}", v), debug: format!("Boolean({})", v), data_type: "Boolean".to_string() })
}

fn int32(v: i32) -> Expr {
    Expr::Literal(Literal { value: format!("{}", v), debug: format!("Int32({})", v), data_type: "Int32".to_string() })
}

fn filter(input: Plan, predicate: Expr) -> Plan {
    Rel { plan: input }.filter(predicate).unwrap().plan
}

fn project(input: Plan, exprs: Vec<Expr>) -> Plan {
    Rel { plan: input }.project(exprs).unwrap().plan
}

fn union(a: Plan, b: Plan) -> Plan {
    Rel { plan: a }.union(Rel { plan: b }).unwrap().plan
}

fn assert_same(actual: &Plan, expected: &Plan) {
    assert!(eq_plan(actual, expected), "Plans do not match.\nActual:\n{:?}\n\nExpected:\n{:?}", actual, expected);
}

// ---------------------------------------------------------------------------
// FilterReduceFalseRule
// ---------------------------------------------------------------------------

#[test]
fn test_filter_reduce_false() {
    let input = filter(dept_table(), boolean(false));
    let expected = empty_from(&dept_table());
    let result = FilterReduceFalseRule.try_apply(&input).unwrap();
    assert_same(&result, &expected);
}

#[test]
fn test_no_match_filter_true() {
    let plan = filter(dept_table(), boolean(true));
    assert!(FilterReduceFalseRule.try_apply(&plan).is_err());
}

#[test]
fn filter_reduce_false_test_no_match_filter_with_predicate() {
    let plan = filter(dept_table(), Expr::Binary { left: Box::new(col("dept", "deptno")), op: Operator::Eq, right: Box::new(int32(10)) });
    assert!(FilterReduceFalseRule.try_apply(&plan).is_err());
}

#[test]
fn filter_reduce_false_test_no_match_single_table() {
    assert!(FilterReduceFalseRule.try_apply(&dept_table()).is_err());
}

#[test]
fn filter_reduce_false_keeps_a_wider_input_shape() {
    // The empty relation takes the whole schema of what was filtered, however wide.
    let wide = project(dept_table(), vec![col("dept", "dname"), col("dept", "deptno")]);
    let input = filter(clone_plan(&wide), boolean(false));
    let result = FilterReduceFalseRule.try_apply(&input).unwrap();
    assert_same(&result, &empty_from(&wide));
}

// ---------------------------------------------------------------------------
// PruneEmptyProjectRule
// ---------------------------------------------------------------------------

#[test]
fn test_prune_empty_project() {
    let empty = empty_from(&dept_table());
    let input = project(empty, vec![col("dept", "deptno")]);
    let expected = empty_from(&project(dept_table(), vec![col("dept", "deptno")]));
    let result = PruneEmptyProjectRule.try_apply(&input).unwrap();
    assert_same(&result, &expected);
}

#[test]
fn test_no_match_project_over_table() {
    let plan = project(dept_table(), vec![col("dept", "deptno")]);
    assert!(PruneEmptyProjectRule.try_apply(&plan).is_err());
}

// ---------------------------------------------------------------------------
// PruneEmptyUnion rules
// ---------------------------------------------------------------------------

#[test]
fn test_prune_empty_union_left() {
    let input = union(empty_from(&dept_table()), dept_table());
    let result = PruneEmptyUnionLeftRule.try_apply(&input).unwrap();
    assert_same(&result, &dept_table());
}

#[test]
fn test_prune_empty_union_right() {
    let input = union(dept_table(), empty_from(&dept_table()));
    let result = PruneEmptyUnionRightRule.try_apply(&input).unwrap();
    assert_same(&result, &dept_table());
}

#[test]
fn test_prune_empty_union_both() {
    let empty1 = empty_from(&dept_table());
    let empty2 = empty_from(&dept_table());
    let input = union(clone_plan(&empty1), empty2);
    let result = PruneEmptyUnionBothRule.try_apply(&input).unwrap();
    assert_same(&result, &empty1);
}

#[test]
fn test_no_match_union_with_two_tables() {
    let plan = union(dept_table(), dept_table());
    assert!(PruneEmptyUnionLeftRule.try_apply(&plan).is_err());
    assert!(PruneEmptyUnionRightRule.try_apply(&plan).is_err());
    assert!(PruneEmptyUnionBothRule.try_apply(&plan).is_err());
}

#[test]
fn test_prune_empty_union_left_does_not_match_right_empty() {
    let plan = union(dept_table(), empty_from(&dept_table()));
    assert!(PruneEmptyUnionLeftRule.try_apply(&plan).is_err());
}

#[test]
fn test_prune_empty_union_right_does_not_match_left_empty() {
    let plan = union(empty_from(&dept_table()), dept_table());
    assert!(PruneEmptyUnionRightRule.try_apply(&plan).is_err());
}

// ---------------------------------------------------------------------------
// FilterReduceTrueRule
// ---------------------------------------------------------------------------

#[test]
fn test_filter_reduce_true() {
    let input = filter(dept_table(), boolean(true));
    let result = FilterReduceTrueRule.try_apply(&input).unwrap();
    assert_same(&result, &dept_table());
}

#[test]
fn test_no_match_filter_false() {
    let plan = filter(dept_table(), boolean(false));
    assert!(FilterReduceTrueRule.try_apply(&plan).is_err());
}

#[test]
fn filter_reduce_true_test_no_match_filter_with_predicate() {
    let plan = filter(dept_table(), Expr::Binary { left: Box::new(col("dept", "deptno")), op: Operator::Eq, right: Box::new(int32(10)) });
    assert!(FilterReduceTrueRule.try_apply(&plan).is_err());
}

#[test]
fn filter_reduce_true_test_no_match_single_table() {
    assert!(FilterReduceTrueRule.try_apply(&dept_table()).is_err());
}

// ---------------------------------------------------------------------------
// PruneEmptyFilterRule
// ---------------------------------------------------------------------------

#[test]
fn test_prune_empty_filter() {
    let empty = empty_from(&dept_table());
    let pred = Expr::Binary { left: Box::new(col("dept", "deptno")), op: Operator::Gt, right: Box::new(int32(5)) };
    let input = filter(clone_plan(&empty), pred);
    let result = PruneEmptyFilterRule.try_apply(&input).unwrap();
    assert_same(&result, &empty);
}

#[test]
fn test_no_match_filter_over_table() {
    let pred = Expr::Binary { left: Box::new(col("dept", "deptno")), op: Operator::Gt, right: Box::new(int32(5)) };
    let plan = filter(dept_table(), pred);
    assert!(PruneEmptyFilterRule.try_apply(&plan).is_err());
}
