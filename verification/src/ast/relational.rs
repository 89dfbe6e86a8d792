//! Relational patterns: plans built over abstract sources.
use std::collections::HashMap;
use std::sync::Arc;
use datafusion::arrow::datatypes::{DataType, Field as ArrowField};
use datafusion::common::{DFSchema, TableReference};
use vstd::prelude::*;
use crate::ast::opaque::{Schema, SpecSchema};
use crate::matcher::error::{view_result, RuleError, SpecRuleError};
use crate::matcher::instantiate::join_schema_of;
use crate::matcher::semantics::join_schema;
use crate::naming::{expr_type, expr_type_of, output_fields, output_fields_of, plan_schema, schema_name, schema_name_of, schema_of};
use crate::plan::{
    clone_exprs, lemma_view_exprs, lemma_view_plans, view_exprs, view_fields, view_keys, view_plans, view_sorts,
    Expr, JoinKey, JoinType, Literal, Plan, QualifiedField, SortExpr, SourceNode, SpecExpr, SpecJoinKey, SpecLiteral,
    SpecPlan, SpecQualifiedField, SpecSortExpr, SpecSourceNode, SpecOperator, UnaryOp,
};
use crate::text::{owned, push_signed_decimal, signed_decimal};
use crate::unalias::{unalias_nested, unalias_nested_of};

verus! {

broadcast use vstd::std_specs::vec::group_vec_axioms;

pub open spec fn spec_source(name: Seq<char>, schema: SpecSchema) -> SpecPlan {
    SpecPlan::Source(SpecSourceNode { table_name: name, schema })
}

pub open spec fn spec_filter(input: SpecPlan, predicate: SpecExpr) -> SpecPlan {
    SpecPlan::Filter { predicate, input: Box::new(input) }
}

/// Why a filter refuses a predicate of a type other than boolean or null.
pub open spec fn non_boolean_filter(predicate: SpecExpr, t: Seq<char>) -> Seq<char> {
    "Error during planning: Cannot create filter with non-boolean predicate '"@ + schema_name(predicate) + "' returning "@ + t
}

/// A filter as the engine builds one: the predicate must be boolean or null over the
/// input's schema, and the aliases nested in it are dropped.
pub open spec fn checked_filter(input: SpecPlan, predicate: SpecExpr) -> Result<SpecPlan, SpecRuleError> {
    let t = expr_type(predicate, plan_schema(input));
    if allowed_filter_type(t) {
        Ok(spec_filter(input, unalias_nested(predicate)))
    } else {
        Err(SpecRuleError::DataFusion { message: non_boolean_filter(predicate, t) })
    }
}

pub open spec fn spec_project(input: SpecPlan, exprs: Seq<SpecExpr>) -> SpecPlan {
    SpecPlan::Projection { exprs, input: Box::new(input), schema: output_fields(exprs, plan_schema(input)) }
}

pub open spec fn spec_aggregate(input: SpecPlan, group: Seq<SpecExpr>, aggs: Seq<SpecExpr>) -> SpecPlan {
    SpecPlan::Aggregate {
        input: Box::new(input),
        group_exprs: group,
        aggr_exprs: aggs,
        schema: output_fields(group + aggs, plan_schema(input)),
    }
}

pub open spec fn spec_join(
    left: SpecPlan,
    right: SpecPlan,
    join_type: JoinType,
    on: Seq<SpecJoinKey>,
    filter: Option<SpecExpr>,
) -> SpecPlan {
    SpecPlan::Join {
        left: Box::new(left),
        right: Box::new(right),
        on,
        filter,
        join_type,
        null_equals_null: false,
        schema: join_schema(plan_schema(left), plan_schema(right), join_type),
    }
}

/// The union of two relations by position, under the first relation's schema.
pub open spec fn spec_union(a: SpecPlan, b: SpecPlan) -> SpecPlan {
    SpecPlan::Union { inputs: seq![a, b], schema: plan_schema(a) }
}

/// The 64-bit integer literal `n`.
pub open spec fn int64_literal(n: int) -> SpecLiteral {
    SpecLiteral { value: signed_decimal(n), debug: "Int64("@ + signed_decimal(n) + ")"@, data_type: "Int64"@ }
}

/// A row count as the engine's 64-bit literal: counts beyond `i64::MAX` wrap around.
pub open spec fn count_literal(n: usize) -> SpecExpr {
    SpecExpr::Literal(int64_literal((n as i64) as int))
}

pub open spec fn spec_limit(input: SpecPlan, skip: usize, fetch: Option<usize>) -> SpecPlan {
    SpecPlan::Limit {
        skip: if skip > 0 { Some(Box::new(count_literal(skip))) } else { None },
        fetch: match fetch {
            Some(f) => Some(Box::new(count_literal(f))),
            None => None,
        },
        input: Box::new(input),
    }
}

/// Two output fields that a schema cannot hold together: the same name, and the same
/// qualifier or one of them unqualified.
pub open spec fn fields_clash(a: SpecQualifiedField, b: SpecQualifiedField) -> bool {
    a.name == b.name && (a.qualifier == b.qualifier || a.qualifier is None || b.qualifier is None)
}

pub open spec fn has_clash(s: Seq<SpecQualifiedField>) -> bool {
    exists|i: int, j: int| 0 <= i < j < s.len() && fields_clash(#[trigger] s[i], #[trigger] s[j])
}

/// Whether a filter may take a predicate of this type.
pub open spec fn allowed_filter_type(t: Seq<char>) -> bool {
    t == "Boolean"@ || t == "Null"@
}

/// The engine's refusal of an aggregate without grouping or aggregate expressions.
pub open spec fn empty_aggregate_message() -> Seq<char> {
    "Error during planning: Aggregate requires at least one grouping or aggregate expression. Aggregate without grouping expressions nor aggregate expressions is logically equivalent to, but less efficient than, VALUES producing single row. Please use VALUES instead."@
}

/// An aggregate as the engine builds one: it needs a grouping or an aggregate expression,
/// and its output fields must not clash.
pub open spec fn checked_aggregate(input: SpecPlan, group: Seq<SpecExpr>, aggs: Seq<SpecExpr>) -> Result<SpecPlan, SpecRuleError> {
    if group.len() == 0 && aggs.len() == 0 {
        Err(SpecRuleError::DataFusion { message: empty_aggregate_message() })
    } else if has_clash(output_fields(group + aggs, plan_schema(input))) {
        Err(clash_error(output_fields(group + aggs, plan_schema(input))))
    } else {
        Ok(spec_aggregate(input, group, aggs))
    }
}

/// Copies of the expressions of `a` followed by those of `b`.
pub(crate) fn concat_exprs(a: &Vec<Expr>, b: &Vec<Expr>) -> (r: Vec<Expr>)
    ensures
        view_exprs(r@) == view_exprs(a@) + view_exprs(b@),
{
    let mut all = clone_exprs(a);
    let mut i: usize = 0;
    proof {
        lemma_view_exprs(b@);
        lemma_view_exprs(a@);
        lemma_view_exprs(all@);
    }
    let ghost g = view_exprs(a@);
    while i < b.len()
        invariant
            i <= b@.len(),
            view_exprs(b@).len() == b@.len(),
            forall|k: int| 0 <= k < b@.len() ==> #[trigger] view_exprs(b@)[k] == b@[k]@,
            view_exprs(all@) == g + view_exprs(b@).take(i as int),
        decreases b.len() - i,
    {
        let ghost prev = all@;
        all.push(crate::plan::clone_expr(&b[i]));
        proof {
            assert(all@.drop_last() =~= prev);
            assert(view_exprs(b@).take(i + 1) =~= view_exprs(b@).take(i as int).push(view_exprs(b@)[i as int]));
        }
        i += 1;
    }
    assert(view_exprs(b@).take(b@.len() as int) =~= view_exprs(b@));
    all
}

/// The 64-bit integer literal `n`.
pub fn int64_literal_of(n: i64) -> (r: Literal)
    ensures
        r@ == int64_literal(n as int),
{
    let mut value = String::new();
    push_signed_decimal(&mut value, n);
    let mut debug = owned("Int64(");
    push_signed_decimal(&mut debug, n);
    debug.append(")");
    proof {
        reveal_strlit("Int64(");
        reveal_strlit(")");
        reveal_strlit("Int64");
    }
    assert(value@ =~= signed_decimal(n as int));
    Literal { value, debug, data_type: owned("Int64") }
}

/// The qualifier and name of each field of a schema.
pub open spec fn field_keys(s: Seq<SpecQualifiedField>) -> Seq<(Option<Seq<char>>, Seq<char>)> {
    s.map_values(|f: SpecQualifiedField| (f.qualifier, f.name))
}

/// The text of the engine's error for a schema whose field names clash, from the fields'
/// qualifiers and names in order.
pub uninterp spec fn schema_check_error(fields: Seq<(Option<Seq<char>>, Seq<char>)>) -> Seq<char>;

/// How the engine refuses a schema in which two fields clash.
pub open spec fn clash_error(s: Seq<SpecQualifiedField>) -> SpecRuleError {
    SpecRuleError::DataFusion { message: schema_check_error(field_keys(s)) }
}

/// Builds the engine's schema (`datafusion::common::DFSchema::new_with_metadata`) from the
/// fields' qualifiers and names, which is all its name check reads, and gives back the
/// text of its error. The contract claims that the check fails exactly when two fields
/// share a name and either share a qualifier or one of them has none, and that the text
/// depends on the qualifiers and names alone.
#[verifier::external_body]
fn check_schema_names(s: &Vec<QualifiedField>) -> (r: Result<(), String>)
    ensures
        r is Ok <==> !has_clash(view_fields(s@)),
        r matches Err(m) ==> m@ == schema_check_error(field_keys(view_fields(s@))),
{
    let fields = s
        .iter()
        .map(|f| (f.qualifier.as_deref().map(TableReference::bare), Arc::new(ArrowField::new(f.name.as_str(), DataType::Null, true))))
        .collect();
    DFSchema::new_with_metadata(fields, HashMap::new()).map(|_| ()).map_err(|e| e.to_string())
}

/// Refuses a schema in which two fields clash, as the engine does when it builds one.
pub fn check_unique_fields(s: &Vec<QualifiedField>) -> (r: Result<(), RuleError>)
    ensures
        match r {
            Ok(_) => !has_clash(view_fields(s@)),
            Err(e) => has_clash(view_fields(s@)) && e@ == clash_error(view_fields(s@)),
        },
{
    match check_schema_names(s) {
        Ok(_) => Ok(()),
        Err(message) => Err(RuleError::DataFusion { message }),
    }
}

/// A relational pattern: a plan over abstract sources.
#[derive(Debug)]
pub struct Rel {
    pub plan: Plan,
}

impl View for Rel {
    type V = SpecPlan;

    open spec fn view(&self) -> SpecPlan {
        self.plan@
    }
}

impl Rel {
    /// An abstract source with the given name and schema.
    pub fn source(table_name: String, schema: Schema) -> (r: Self)
        ensures
            r@ == spec_source(table_name@, schema@),
    {
        Rel { plan: Plan::Source(SourceNode { table_name, schema }) }
    }

    /// The relation filtered by a predicate. A predicate that is neither boolean nor
    /// null over the input's schema is refused; aliases nested in the predicate are dropped.
    pub fn filter(self, predicate: Expr) -> (r: Result<Self, RuleError>)
        ensures
            match r {
                Ok(x) => checked_filter(self@, predicate@) == Ok::<SpecPlan, SpecRuleError>(x@),
                Err(e) => checked_filter(self@, predicate@) == Err::<SpecPlan, SpecRuleError>(e@),
            },
    {
        match filter_of(self.plan, predicate) {
            Ok(p) => Ok(Rel { plan: p }),
            Err(e) => Err(e),
        }
    }

    /// The relation projected onto expressions. Output fields that clash are refused.
    pub fn project(self, exprs: Vec<Expr>) -> (r: Result<Self, RuleError>)
        ensures
            match r {
                Ok(x) => !has_clash(output_fields(view_exprs(exprs@), plan_schema(self@))) && x@ == spec_project(
                    self@,
                    view_exprs(exprs@),
                ),
                Err(e) => has_clash(output_fields(view_exprs(exprs@), plan_schema(self@))) && e@ == clash_error(
                    output_fields(view_exprs(exprs@), plan_schema(self@)),
                ),
            },
    {
        let s = schema_of(&self.plan);
        let out = output_fields_of(&exprs, &s);
        match check_unique_fields(&out) {
            Err(e) => Err(e),
            Ok(_) => Ok(Rel { plan: Plan::Projection { exprs, input: Box::new(self.plan), schema: out } }),
        }
    }

    /// The relation joined with another. A joined schema in which two fields clash is
    /// refused.
    pub fn join(self, right: Rel, join_type: JoinType, on_exprs: Vec<JoinKey>, filter: Option<Expr>) -> (r: Result<
        Self,
        RuleError,
    >)
        ensures
            match r {
                Ok(x) => !has_clash(join_schema(plan_schema(self@), plan_schema(right@), join_type)) && x@ == spec_join(
                    self@,
                    right@,
                    join_type,
                    view_keys(on_exprs@),
                    match filter {
                        Some(f) => Some(f@),
                        None => None,
                    },
                ),
                Err(e) => has_clash(join_schema(plan_schema(self@), plan_schema(right@), join_type)) && e@
                    == clash_error(join_schema(plan_schema(self@), plan_schema(right@), join_type)),
            },
    {
        let ls = schema_of(&self.plan);
        let rs = schema_of(&right.plan);
        let schema = join_schema_of(&ls, &rs, &join_type);
        match check_unique_fields(&schema) {
            Err(e) => {
                return Err(e);
            },
            Ok(_) => {},
        }
        Ok(Rel {
            plan: Plan::Join {
                left: Box::new(self.plan),
                right: Box::new(right.plan),
                on: on_exprs,
                filter,
                join_type,
                null_equals_null: false,
                schema,
            },
        })
    }

    /// The union of the relation and another, by position; the output schema is the first's.
    pub fn union(self, other: Rel) -> (r: Result<Self, RuleError>)
        ensures
            r matches Ok(x) && x@ == spec_union(self@, other@),
    {
        let schema = schema_of(&self.plan);
        let ghost a = self@;
        let ghost b = other@;
        let mut inputs: Vec<Plan> = Vec::new();
        inputs.push(self.plan);
        inputs.push(other.plan);
        proof { lemma_view_plans(inputs@); }
        assert(view_plans(inputs@) =~= seq![a, b]);
        Ok(Rel { plan: Plan::Union { inputs, schema } })
    }

    /// The relation grouped by expressions, with aggregate expressions. An aggregate with
    /// neither is refused, and so are output fields that clash.
    pub fn aggregate(self, group_exprs: Vec<Expr>, agg_exprs: Vec<Expr>) -> (r: Result<Self, RuleError>)
        ensures
            view_result(r) == checked_aggregate(self@, view_exprs(group_exprs@), view_exprs(agg_exprs@)),
    {
        proof {
            lemma_view_exprs(group_exprs@);
            lemma_view_exprs(agg_exprs@);
        }
        if group_exprs.len() == 0 && agg_exprs.len() == 0 {
            return Err(RuleError::DataFusion { message: owned("Error during planning: Aggregate requires at least one grouping or aggregate expression. Aggregate without grouping expressions nor aggregate expressions is logically equivalent to, but less efficient than, VALUES producing single row. Please use VALUES instead.") });
        }
        let s = schema_of(&self.plan);
        let all = concat_exprs(&group_exprs, &agg_exprs);
        let out = output_fields_of(&all, &s);
        match check_unique_fields(&out) {
            Err(e) => Err(e),
            Ok(_) => Ok(Rel {
                plan: Plan::Aggregate {
                    input: Box::new(self.plan),
                    group_exprs,
                    aggr_exprs: agg_exprs,
                    schema: out,
                },
            }),
        }
    }

    /// The relation without duplicate rows.
    pub fn distinct(self) -> (r: Result<Self, RuleError>)
        ensures
            r matches Ok(x) && x@ == SpecPlan::Distinct(Box::new(self@)),
    {
        Ok(Rel { plan: Plan::Distinct(Box::new(self.plan)) })
    }

    /// At most `fetch` rows after skipping `skip`, the counts given as 64-bit literals.
    pub fn limit(self, skip: usize, fetch: Option<usize>) -> (r: Result<Self, RuleError>)
        ensures
            r matches Ok(x) && x@ == spec_limit(self@, skip, fetch),
    {
        let s = if skip > 0 { Some(Box::new(Expr::Literal(int64_literal_of(skip as i64)))) } else { None };
        let f = match fetch {
            Some(n) => Some(Box::new(Expr::Literal(int64_literal_of(n as i64)))),
            None => None,
        };
        assert(crate::plan::view_opt_expr(s) == if skip > 0 {
            Some(Box::new(count_literal(skip)))
        } else {
            None
        });
        assert(crate::plan::view_opt_expr(f) == match fetch {
            Some(n) => Some(Box::new(count_literal(n))),
            None => None,
        });
        Ok(Rel { plan: Plan::Limit { skip: s, fetch: f, input: Box::new(self.plan) } })
    }

    /// The relation sorted by the given keys.
    pub fn sort(self, exprs: Vec<SortExpr>) -> (r: Result<Self, RuleError>)
        ensures
            r matches Ok(x) && x@ == (SpecPlan::Sort { exprs: view_sorts(exprs@), input: Box::new(self@), fetch: None }),
    {
        Ok(Rel { plan: Plan::Sort { exprs, input: Box::new(self.plan), fetch: None } })
    }
}

/// Builds a filter as the engine does (see `checked_filter`).
pub fn filter_of(input: Plan, predicate: Expr) -> (r: Result<Plan, RuleError>)
    ensures
        match r {
            Ok(p) => checked_filter(input@, predicate@) == Ok::<SpecPlan, SpecRuleError>(p@),
            Err(e) => checked_filter(input@, predicate@) == Err::<SpecPlan, SpecRuleError>(e@),
        },
{
    let s = schema_of(&input);
    let t = expr_type_of(&predicate, &s);
    proof {
        reveal_strlit("Boolean");
        reveal_strlit("Null");
    }
    let b = owned("Boolean");
    let n = owned("Null");
    if t == b || t == n {
        Ok(Plan::Filter { predicate: unalias_nested_of(&predicate), input: Box::new(input) })
    } else {
        let mut message = owned("Error during planning: Cannot create filter with non-boolean predicate '");
        message.append(schema_name_of(&predicate).as_str());
        message.append("' returning ");
        message.append(t.as_str());
        Err(RuleError::DataFusion { message })
    }
}

/// A predicate that is a comparison (`=`, `!=`, `<`, `<=`, `>`, `>=`), a conjunction or
/// disjunction, a negation or a null test.
pub open spec fn is_boolean_form(e: SpecExpr) -> bool {
    ||| e matches SpecExpr::Binary { op, .. } && (op is Eq || op is NotEq || op is Lt || op is LtEq || op is Gt
        || op is GtEq || op is And || op is Or)
    ||| e matches SpecExpr::Unary(op, _) && (op is Not || op is IsNull || op is IsNotNull)
}

/// Comparisons, connectives, negations and null tests are boolean over every schema, so a
/// filter accepts any of them as its predicate, over any input: it builds the filter with
/// the predicate's nested aliases dropped.
pub proof fn lemma_boolean_predicates_filter(input: SpecPlan, predicate: SpecExpr, s: Seq<SpecQualifiedField>)
    requires
        is_boolean_form(predicate),
    ensures
        expr_type(predicate, s) == "Boolean"@,
        checked_filter(input, predicate) == Ok::<SpecPlan, SpecRuleError>(spec_filter(input, unalias_nested(predicate))),
{
}

/// A cast has the type it casts to, whatever its operand; an alias and a numeric negation
/// have the type of what they wrap.
pub proof fn lemma_type_of_wrappers(e: SpecExpr, s: Seq<SpecQualifiedField>)
    ensures
        e matches SpecExpr::Cast { data_type, .. } ==> expr_type(e, s) == data_type,
        e matches SpecExpr::Alias { expr, .. } ==> expr_type(e, s) == expr_type(*expr, s),
        e matches SpecExpr::Unary(UnaryOp::Negative, inner) ==> expr_type(e, s) == expr_type(*inner, s),
{
}

} // verus!
