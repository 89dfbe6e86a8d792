use std::sync::Arc;

use datafusion::arrow::datatypes::{DataType, Field};
use datafusion::common::{Column as DfColumn, ScalarValue};
use datafusion::logical_expr::{col, lit, Expr as DfExpr, Signature, Volatility};
use rulescript::ast::relational::Rel;
use rulescript::debug_text::{column_debug_of, expr_debug_of, field_item_debug_of, output_item_debug_of};
use rulescript::matcher::error::RuleError;
use rulescript::matcher::instantiate::key_text_of;
use rulescript::plan::{Column, Expr, Literal, Operator, QualifiedField, UnaryOp};
use rulescript::rule::impls::FilterAggregateTransposeRule;
use rulescript::rule::samples::emp_table;
use rulescript::rule::ApplicableRule;

fn qcol(table: &str, name: &str) -> Column {
    Column { relation: Some(table.to_string()), name: name.to_string() }
}

fn int32(v: i32) -> Expr {
    let s = ScalarValue::Int32(Some(v));
    Expr::Literal(Literal { value: format!("{}", s), debug: format!("{:?}", s), data_type: "Int32".to_string() })
}

#[test]
fn keys_render_like_debug_of_their_pair() {
    let quote = "\"".to_string();
    assert_eq!(key_text_of(&None, &quote), format!("{:?}", (None::<String>, quote.clone())));
    assert_eq!(key_text_of(&None, &quote), "(None, \"\\\"\")");
    let odd = "a\\b\n\t\u{1}\u{7f}'c".to_string();
    let rel = Some("e\"mp".to_string());
    assert_eq!(key_text_of(&rel, &odd), format!("{:?}", (rel.clone(), odd.clone())));
}

#[test]
fn columns_and_expressions_render_like_the_engine() {
    let c = qcol("emp", "deptno");
    assert_eq!(column_debug_of(&c), format!("{:?}", DfColumn::new(Some("emp"), "deptno")));
    let bare = Column { relation: None, name: "x\"y".to_string() };
    assert_eq!(column_debug_of(&bare), format!("{:?}", DfColumn::new_unqualified("x\"y")));

    let model = Expr::Binary {
        left: Box::new(Expr::Column(qcol("emp", "deptno"))),
        op: Operator::Eq,
        right: Box::new(int32(10)),
    };
    let engine = col("emp.deptno").eq(lit(10));
    assert_eq!(expr_debug_of(&model), format!("{:?}", engine));

    let negated = Expr::Unary(UnaryOp::Not, Box::new(Expr::Unary(UnaryOp::IsNull, Box::new(Expr::Column(qcol("emp", "ename"))))));
    assert_eq!(expr_debug_of(&negated), format!("{:?}", DfExpr::Not(Box::new(col("emp.ename").is_null()))));

    let aliased = Expr::Alias { expr: Box::new(int32(1)), relation: None, name: "one".to_string() };
    assert_eq!(expr_debug_of(&aliased), format!("{:?}", lit(1).alias("one")));

    let between = Expr::Between {
        expr: Box::new(Expr::Column(qcol("emp", "deptno"))),
        negated: false,
        low: Box::new(int32(1)),
        high: Box::new(int32(5)),
    };
    assert_eq!(expr_debug_of(&between), format!("{:?}", col("emp.deptno").between(lit(1), lit(5))));

    let listed = Expr::InList { expr: Box::new(Expr::Column(qcol("emp", "deptno"))), list: vec![int32(1), int32(2)], negated: true };
    assert_eq!(expr_debug_of(&listed), format!("{:?}", col("emp.deptno").in_list(vec![lit(1), lit(2)], true)));

    let pair = output_item_debug_of(&qcol("emp", "deptno"), &Expr::Column(qcol("emp", "deptno")));
    assert_eq!(pair, format!("{:?}", (DfColumn::new(Some("emp"), "deptno"), col("emp.deptno"))));
}

#[test]
fn source_fields_render_like_the_engine() {
    let f = QualifiedField { qualifier: Some("emp".to_string()), name: "deptno".to_string(), data_type: "Int32".to_string(), nullable: true };
    let engine = (Arc::new(Field::new("deptno", DataType::Int32, true)), DfColumn::new(Some("emp"), "deptno"));
    assert_eq!(field_item_debug_of(&f), format!("{:?}", engine));
}

#[test]
fn signatures_of_symbols_render_like_the_engine() {
    let sig = Signature::exact(vec![DataType::Binary, DataType::Boolean], Volatility::Immutable);
    assert_eq!(format!("{:?}", sig), "Signature { type_signature: Exact([Binary, Boolean]), volatility: Immutable }");
}

#[test]
fn unmatched_conjuncts_are_named_by_their_debug_rendering() {
    let grouped = Rel { plan: emp_table() }
        .aggregate(vec![Expr::Column(qcol("emp", "deptno"))], vec![])
        .unwrap()
        .plan;
    let stray = Expr::Binary { left: Box::new(Expr::Column(qcol("x", "y"))), op: Operator::Eq, right: Box::new(int32(1)) };
    let dept = Expr::Binary { left: Box::new(Expr::Column(qcol("emp", "deptno"))), op: Operator::Eq, right: Box::new(int32(10)) };
    let pred = Expr::Binary { left: Box::new(dept), op: Operator::And, right: Box::new(stray) };
    let input = Rel { plan: grouped }.filter(pred).unwrap().plan;
    match FilterAggregateTransposeRule.try_apply(&input) {
        Err(RuleError::NoMatchingPattern { item }) => {
            assert_eq!(item, format!("{:?}", col("x.y").eq(lit(1))));
        },
        other => panic!("unexpected: {:?}", other.map(|_| ())),
    }
}
