use rulescript::ast::extension::{UserDefinedLogicalOperator, UserDefinedLogicalPattern};
use rulescript::ast::opaque::Schema;
use rulescript::matcher::default::DefaultMatcher;
use rulescript::matcher::error::RuleError;
use rulescript::matcher::maps::ColumnMap;
use rulescript::plan::{eq_plan, Plan};
use rulescript::qed::json::Json;
use rulescript::qed::serializer::QedSerializer;
use rulescript::rule::samples::{dept_table, emp_table};

/// An operator that stands for its input and records it with an empty context.
struct Recording;

impl UserDefinedLogicalOperator for Recording {
    fn operator_name(&self) -> String {
        "Recording".to_string()
    }
    fn inputs(&self) -> Vec<Plan> {
        vec![emp_table()]
    }
    fn schema(&self) -> Schema {
        Schema { fields: vec![] }
    }
    fn semantics(&self) -> Plan {
        emp_table()
    }
    fn resolve(&self, pattern_id: &String, concrete: &Plan, matcher: &mut DefaultMatcher) -> Result<(), RuleError> {
        let plan = match concrete {
            Plan::TableScan { .. } => concrete,
            _ => return Err(RuleError::InvalidPattern { reason: "not a scan".to_string() }),
        };
        matcher.store_user_defined_context(pattern_id, rulescript::plan::clone_plan(plan), ColumnMap::new());
        Ok(())
    }
    fn instantiate(&self, _pattern_id: &String, _matcher: &mut DefaultMatcher) -> Result<Plan, RuleError> {
        Ok(self.semantics())
    }
}

/// An operator that forgets to record anything.
struct Forgetful;

impl UserDefinedLogicalOperator for Forgetful {
    fn operator_name(&self) -> String {
        "Forgetful".to_string()
    }
    fn inputs(&self) -> Vec<Plan> {
        vec![]
    }
    fn schema(&self) -> Schema {
        Schema { fields: vec![] }
    }
    fn semantics(&self) -> Plan {
        dept_table()
    }
    fn resolve(&self, _pattern_id: &String, _concrete: &Plan, _matcher: &mut DefaultMatcher) -> Result<(), RuleError> {
        Ok(())
    }
    fn instantiate(&self, _pattern_id: &String, _matcher: &mut DefaultMatcher) -> Result<Plan, RuleError> {
        Ok(self.semantics())
    }
}

#[test]
fn user_defined_pattern_ids_name_the_operator() {
    let pattern = UserDefinedLogicalPattern::new(Recording);
    assert_eq!(pattern.id(), "UserDefinedLogicalPattern { operator_name: \"Recording\" }");
    assert_eq!(pattern.implementation().operator_name(), "Recording");
}

#[test]
fn user_defined_resolve_returns_the_stored_context() {
    let pattern = UserDefinedLogicalPattern::new(Recording);
    let mut matcher = DefaultMatcher::new();
    let concrete = dept_table();
    let ctx = matcher.resolve_user_defined(&pattern, &concrete).unwrap();
    assert!(ctx.entries.is_empty());
    let (stored, _) = matcher.retrieve_user_defined_context(&pattern.id()).unwrap();
    assert!(eq_plan(&stored, &concrete));
    let (plan, _) = matcher.instantiate_user_defined(&pattern).unwrap();
    assert!(eq_plan(&plan, &emp_table()));
}

#[test]
fn user_defined_resolve_passes_the_operators_error_on() {
    let pattern = UserDefinedLogicalPattern::new(Recording);
    let mut matcher = DefaultMatcher::new();
    let concrete = Plan::Distinct(Box::new(emp_table()));
    match matcher.resolve_user_defined(&pattern, &concrete) {
        Err(RuleError::InvalidPattern { reason }) => assert_eq!(reason, "not a scan"),
        Err(e) => panic!("unexpected: {:?}", e),
        Ok(_) => panic!("unexpected success"),
    }
    assert!(matcher.retrieve_user_defined_context(&pattern.id()).is_none());
}

#[test]
fn user_defined_operators_that_store_nothing_leave_the_symbol_unbound() {
    let pattern = UserDefinedLogicalPattern::new(Forgetful);
    let mut matcher = DefaultMatcher::new();
    match matcher.resolve_user_defined(&pattern, &emp_table()) {
        Err(RuleError::UnboundSymbol { symbol }) => {
            assert_eq!(symbol, "user-defined pattern 'Forgetful' did not store context during resolve")
        },
        Err(e) => panic!("unexpected: {:?}", e),
        Ok(_) => panic!("unexpected success"),
    }
    match matcher.instantiate_user_defined(&pattern) {
        Err(RuleError::UnboundSymbol { symbol }) => {
            assert_eq!(symbol, "user-defined pattern 'Forgetful' context not found during instantiate")
        },
        Err(e) => panic!("unexpected: {:?}", e),
        Ok(_) => panic!("unexpected success"),
    }
}

#[test]
fn storing_again_replaces_the_entry() {
    let mut matcher = DefaultMatcher::new();
    let id = "p".to_string();
    matcher.store_user_defined_context(&id, emp_table(), ColumnMap::new());
    matcher.store_user_defined_context(&id, dept_table(), ColumnMap::new());
    let (stored, _) = matcher.retrieve_user_defined_context(&id).unwrap();
    assert!(eq_plan(&stored, &dept_table()));
}

#[test]
fn user_defined_operators_serialize_as_their_semantics() {
    let pattern = UserDefinedLogicalPattern::new(Recording);
    let mut serializer = QedSerializer::new();
    let (json, cols) = serializer.serialize_user_defined(&pattern, &vec![]).unwrap();
    let expected = Json::Obj(vec![("scan".to_string(), Json::Num(0))]);
    assert_eq!(format!("{:?}", json), format!("{:?}", expected));
    assert_eq!(cols.len(), 4);
}
