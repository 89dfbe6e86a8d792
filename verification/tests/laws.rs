use rulescript::ast::relational::Rel;
use rulescript::matcher::error::RuleError;
use rulescript::plan::{Column, Expr, JoinKey, JoinType, Literal, Operator, Plan};
use rulescript::qed::serializer::QedSerializer;
use rulescript::rule::impls::{
    FilterAggregateTransposeRule, FilterIntoJoinRule, FilterMergeRule, FilterProjectTransposeRule, FilterReduceFalseRule,
    FilterReduceTrueRule, JoinAssociateRule, JoinCommuteRule, JoinConditionPushRule, JoinExtractFilterRule,
    JoinLeftConditionPushRule, JoinLeftProjectTransposeRule, JoinRightConditionPushRule, JoinRightProjectTransposeRule,
    LeftSemiJoinFilterTransposeRule, ProjectFilterTransposeRule, ProjectMergeRule, ProjectRemoveRule, PruneEmptyFilterRule,
    PruneEmptyProjectRule, PruneEmptyUnionBothRule, PruneEmptyUnionLeftRule, PruneEmptyUnionRightRule,
    RightSemiJoinFilterTransposeRule,
};
use rulescript::rule::samples::{dept_table, emp_table};
use rulescript::rule::ApplicableRule;

fn col(table: &str, name: &str) -> Expr {
    Expr::Column(Column { relation: Some(table.to_string()), name: name.to_string() })
}

fn int32(v: i32) -> Expr {
    Expr::Literal(Literal { value: format!("{}", v), debug: format!("Int32({})", v), data_type: "Int32".to_string() })
}

fn eq(l: Expr, r: Expr) -> Expr {
    Expr::Binary { left: Box::new(l), op: Operator::Eq, right: Box::new(r) }
}

fn join_of(kind: JoinType) -> Plan {
    let keys = vec![JoinKey { left: col("emp", "deptno"), right: col("dept", "deptno") }];
    Rel { plan: emp_table() }.join(Rel { plan: dept_table() }, kind, keys, None).unwrap().plan
}

#[test]
fn join_rules_leave_outer_joins_alone() {
    for kind in [JoinType::Left, JoinType::Right, JoinType::Full, JoinType::LeftSemi] {
        let plan = join_of(kind);
        assert!(!JoinCommuteRule.matches(&plan));
        assert!(!JoinConditionPushRule.matches(&plan));
        assert!(!JoinExtractFilterRule.matches(&plan));
        assert!(!JoinLeftProjectTransposeRule.matches(&plan));
        assert!(!JoinRightProjectTransposeRule.matches(&plan));
        assert!(!JoinLeftConditionPushRule.matches(&plan));
        assert!(!JoinRightConditionPushRule.matches(&plan));
        assert!(!JoinAssociateRule.matches(&plan));
        match JoinCommuteRule.try_apply(&plan) {
            Err(RuleError::StructureMismatch { .. }) => {},
            other => panic!("unexpected: {:?}", other),
        }
    }
}

#[test]
fn filter_into_join_leaves_outer_joins_alone() {
    let plan = Rel { plan: join_of(JoinType::Left) }.filter(eq(col("emp", "empno"), int32(1))).unwrap().plan;
    assert!(!FilterIntoJoinRule.matches(&plan));
    assert!(FilterIntoJoinRule.try_apply(&plan).is_err());
}

#[test]
fn applying_a_rule_implies_it_matches() {
    let inner = Rel { plan: dept_table() }.filter(eq(col("dept", "deptno"), int32(10))).unwrap();
    let plan = inner.filter(eq(col("dept", "dname"), col("dept", "dname"))).unwrap().plan;
    assert!(FilterMergeRule.try_apply(&plan).is_ok());
    assert!(FilterMergeRule.matches(&plan));
    assert!(!FilterMergeRule.matches(&dept_table()));
    assert!(FilterMergeRule.try_apply(&dept_table()).is_err());
}

#[test]
fn serialized_pairs_list_each_table_once() {
    let joined = join_of(JoinType::Inner);
    let mut serializer = QedSerializer::new();
    let out = serializer.serialize_plan_pair(&joined, &Rel { plan: dept_table() }.distinct().unwrap().plan);
    assert!(out.is_err());
    let out = serializer.serialize_plan_pair(&joined, &joined).unwrap();
    let names: Vec<&str> = out.schemas.iter().map(|s| s.name.as_str()).collect();
    assert_eq!(names, vec!["emp", "dept"]);
    let out = serializer.serialize_plan_pair(&dept_table(), &joined).unwrap();
    let names: Vec<&str> = out.schemas.iter().map(|s| s.name.as_str()).collect();
    assert_eq!(names, vec!["dept", "emp"]);
}

#[test]
fn semi_join_rule_leaves_other_joins_alone() {
    for kind in [JoinType::Inner, JoinType::Left, JoinType::RightSemi, JoinType::LeftAnti] {
        let plan = join_of(kind);
        assert!(!LeftSemiJoinFilterTransposeRule.matches(&plan));
    }
}

#[test]
fn no_rule_rewrites_a_bare_table() {
    let t = emp_table;
    assert!(FilterAggregateTransposeRule.try_apply(&t()).is_err());
    assert!(FilterIntoJoinRule.try_apply(&t()).is_err());
    assert!(FilterMergeRule.try_apply(&t()).is_err());
    assert!(FilterProjectTransposeRule.try_apply(&t()).is_err());
    assert!(FilterReduceFalseRule.try_apply(&t()).is_err());
    assert!(FilterReduceTrueRule.try_apply(&t()).is_err());
    assert!(JoinAssociateRule.try_apply(&t()).is_err());
    assert!(JoinCommuteRule.try_apply(&t()).is_err());
    assert!(JoinConditionPushRule.try_apply(&t()).is_err());
    assert!(JoinExtractFilterRule.try_apply(&t()).is_err());
    assert!(JoinLeftConditionPushRule.try_apply(&t()).is_err());
    assert!(JoinLeftProjectTransposeRule.try_apply(&t()).is_err());
    assert!(JoinRightConditionPushRule.try_apply(&t()).is_err());
    assert!(JoinRightProjectTransposeRule.try_apply(&t()).is_err());
    assert!(LeftSemiJoinFilterTransposeRule.try_apply(&t()).is_err());
    assert!(ProjectFilterTransposeRule.try_apply(&t()).is_err());
    assert!(ProjectMergeRule.try_apply(&t()).is_err());
    assert!(ProjectRemoveRule.try_apply(&t()).is_err());
    assert!(PruneEmptyFilterRule.try_apply(&t()).is_err());
    assert!(PruneEmptyProjectRule.try_apply(&t()).is_err());
    assert!(PruneEmptyUnionBothRule.try_apply(&t()).is_err());
    assert!(PruneEmptyUnionLeftRule.try_apply(&t()).is_err());
    assert!(PruneEmptyUnionRightRule.try_apply(&t()).is_err());
    assert!(RightSemiJoinFilterTransposeRule.try_apply(&t()).is_err());
    match FilterMergeRule.try_apply(&t()) {
        Err(RuleError::StructureMismatch { .. }) => {},
        other => panic!("unexpected: {:?}", other.map(|_| ())),
    }
}
