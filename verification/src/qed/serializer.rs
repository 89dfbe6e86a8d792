//! Serializing plans and rules to the QED verifier's JSON format.
use vstd::prelude::*;
use crate::ast::opaque::Type;
use crate::naming::{op_text_of, schema_of};
use crate::plan::{
    lemma_view_exprs, lemma_view_keys, lemma_view_plans, lemma_view_sorts, opt_str, view_exprs, view_fields, view_keys,
    view_plans, view_sorts, Callee, Column, Expr, JoinKey, JoinType, Operator, Plan, QualifiedField, SortExpr,
    SpecExpr, SpecPlan, SpecQualifiedField, UnaryOp, WhenThen,
};
use crate::qed::json::{arr3, lemma_view_jsons, member, view_json, view_jsons, view_members, Json, SpecJson};
use crate::qed::semantics::{
    and_fold, binary_type, callee_type, col_node, column_answers, eq_node, find_column, in_chain, join_kind,
    negated_if, op_node, qed_abstract_type, qed_bound, qed_case, qed_collation, qed_expr, qed_exprs, qed_functions,
    qed_group_keys, qed_keys, qed_operator, qed_pair, qed_rel, qed_rels, qed_schema, qed_type, query_node,
    aggregate_node, qed_function, qed_group_key, qed_pair_run,
    resolve_table, scan_node, sort_node, table_named, unaliased, values_node, SpecQedError, SpecQedSchema, Tables,
    field_named, qed_expr_named, qed_exprs_named, plan_display,
};
use crate::matcher::semantics::first_index_where;
use crate::debug_text::{column_debug_of, expr_debug_of};
use crate::matcher::default::{lemma_first_index_found, lemma_first_index_none};
use crate::text::owned;
use crate::rule::RewriteRule;
use crate::ast::extension::{UserDefinedLogicalOperator, UserDefinedLogicalPattern};

verus! {

broadcast use vstd::std_specs::vec::group_vec_axioms;

/// Errors of serialization.
#[derive(Debug)]
pub enum QedError {
    UnsupportedPlan(String),
    UnsupportedExpr(String),
    ColumnNotFound(String),
    /// A binary operator that the format has no name for (anything but the comparisons,
    /// the arithmetic operators, AND and OR): serialization stops with this error, and
    /// callers that want the process to stop there must do so themselves.
    UnsupportedOperator(String),
}

impl View for QedError {
    type V = SpecQedError;

    open spec fn view(&self) -> SpecQedError {
        match self {
            QedError::UnsupportedPlan(s) => SpecQedError::UnsupportedPlan(s@),
            QedError::UnsupportedExpr(s) => SpecQedError::UnsupportedExpr(s@),
            QedError::ColumnNotFound(s) => SpecQedError::ColumnNotFound(s@),
            QedError::UnsupportedOperator(s) => SpecQedError::UnsupportedOperator(s@),
        }
    }
}

pub open spec fn view_json_result(r: Result<Json, QedError>) -> Result<SpecJson, SpecQedError> {
    match r {
        Ok(j) => Ok(j@),
        Err(e) => Err(e@),
    }
}

pub open spec fn view_jsons_result(r: Result<Vec<Json>, QedError>) -> Result<Seq<SpecJson>, SpecQedError> {
    match r {
        Ok(v) => Ok(view_jsons(v@)),
        Err(e) => Err(e@),
    }
}

pub open spec fn view_rel_result(r: Result<(Json, Vec<QualifiedField>), QedError>) -> Result<
    (SpecJson, Seq<SpecQualifiedField>),
    SpecQedError,
> {
    match r {
        Ok((j, c)) => Ok((j@, view_fields(c@))),
        Err(e) => Err(e@),
    }
}

/// A table that a serialized plan reads.
#[derive(Debug)]
pub struct TableInfo {
    pub name: String,
    pub fields: Vec<QualifiedField>,
}

pub open spec fn view_table(t: TableInfo) -> (Seq<char>, Seq<SpecQualifiedField>) {
    (t.name@, view_fields(t.fields@))
}

/// Serializes plans to the QED format; it collects the tables that the plans read.
#[derive(Debug)]
pub struct QedSerializer {
    pub tables: Vec<TableInfo>,
}

impl View for QedSerializer {
    type V = Tables;

    open spec fn view(&self) -> Tables {
        self.tables@.map_values(|t: TableInfo| view_table(t))
    }
}

// ---------------------------------------------------------------------------
// JSON nodes
// ---------------------------------------------------------------------------

fn str_json(s: &str) -> (r: Json)
    ensures
        r@ == SpecJson::Str(s@),
{
    Json::Str(owned(s))
}

pub fn op_node_of(op: String, operands: Vec<Json>, ty: &str) -> (r: Json)
    ensures
        r@ == op_node(op@, view_jsons(operands@), ty@),
{
    let ghost ov = op@;
    let ghost vv = view_jsons(operands@);
    let mut m: Vec<(String, Json)> = Vec::new();
    member(&mut m, "operator", Json::Str(op));
    member(&mut m, "operand", Json::Arr(operands));
    member(&mut m, "type", str_json(ty));
    assert(view_members(m@) =~= seq![("operator"@, SpecJson::Str(ov)), ("operand"@, SpecJson::Arr(vv)), ("type"@, SpecJson::Str(ty@))]) by {
        assert(view_members(Seq::<(String, Json)>::empty()) =~= Seq::empty());
    }
    Json::Obj(m)
}

/// The column numbered `base + offset`.
fn col_node_of(base: usize, offset: usize, ty: String) -> (r: Json)
    ensures
        r@ == col_node((base + offset) as nat, ty@),
{
    let ghost tv = ty@;
    let mut m: Vec<(String, Json)> = Vec::new();
    member(&mut m, "column", Json::Num(base as u128 + offset as u128));
    member(&mut m, "type", Json::Str(ty));
    assert(view_members(m@) =~= seq![("column"@, SpecJson::Num((base + offset) as nat)), ("type"@, SpecJson::Str(tv))]) by {
        assert(view_members(Seq::<(String, Json)>::empty()) =~= Seq::empty());
    }
    Json::Obj(m)
}

fn query_node_of(op: &str, operands: Vec<Json>, query: Json, ty: &str) -> (r: Json)
    ensures
        r@ == query_node(op@, view_jsons(operands@), query@, ty@),
{
    let ghost vv = view_jsons(operands@);
    let ghost qv = query@;
    let mut m: Vec<(String, Json)> = Vec::new();
    member(&mut m, "operator", str_json(op));
    member(&mut m, "operand", Json::Arr(operands));
    member(&mut m, "query", query);
    member(&mut m, "type", str_json(ty));
    assert(view_members(m@) =~= seq![
        ("operator"@, SpecJson::Str(op@)),
        ("operand"@, SpecJson::Arr(vv)),
        ("query"@, qv),
        ("type"@, SpecJson::Str(ty@)),
    ]) by {
        assert(view_members(Seq::<(String, Json)>::empty()) =~= Seq::empty());
    }
    Json::Obj(m)
}

fn no_jsons() -> (r: Vec<Json>)
    ensures
        view_jsons(r@) == Seq::<SpecJson>::empty(),
{
    let v: Vec<Json> = Vec::new();
    assert(view_jsons(v@) =~= Seq::<SpecJson>::empty());
    v
}

fn jsons1(a: Json) -> (r: Vec<Json>)
    ensures
        view_jsons(r@) == seq![a@],
{
    let mut v: Vec<Json> = Vec::new();
    v.push(a);
    proof { lemma_view_jsons(v@); }
    assert(view_jsons(v@) =~= seq![view_json(v@[0])]);
    v
}

fn jsons2(a: Json, b: Json) -> (r: Vec<Json>)
    ensures
        view_jsons(r@) == seq![a@, b@],
{
    let mut v: Vec<Json> = Vec::new();
    v.push(a);
    v.push(b);
    proof { lemma_view_jsons(v@); }
    assert(view_jsons(v@) =~= seq![view_json(v@[0]), view_json(v@[1])]);
    v
}

fn jsons3(a: Json, b: Json, c: Json) -> (r: Vec<Json>)
    ensures
        view_jsons(r@) == seq![a@, b@, c@],
{
    let mut v: Vec<Json> = Vec::new();
    v.push(a);
    v.push(b);
    v.push(c);
    proof { lemma_view_jsons(v@); }
    assert(view_jsons(v@) =~= seq![view_json(v@[0]), view_json(v@[1]), view_json(v@[2])]);
    v
}

fn negated_if_of(negated: bool, x: Json) -> (r: Json)
    ensures
        r@ == negated_if(negated, x@),
{
    if negated { op_node_of(owned("NOT"), jsons1(x), "BOOLEAN") } else { x }
}

/// The QED type of an engine data type.
pub fn qed_type_of(dt: &String) -> (r: String)
    ensures
        r@ == qed_type(dt@),
{
    proof { reveal_strlit("Boolean"); }
    let b = owned("Boolean");
    if *dt == b { owned("BOOLEAN") } else { owned("INTEGER") }
}

fn qed_abstract_type_of(t: &Type) -> (r: String)
    ensures
        r@ == qed_abstract_type(t@),
{
    match t {
        Type::Boolean => owned("BOOLEAN"),
        Type::Generic { .. } => owned("INTEGER"),
    }
}

fn callee_type_of(c: &Callee) -> (r: String)
    ensures
        r@ == callee_type(c@),
{
    match c {
        Callee::Pattern(sig) => qed_abstract_type_of(&sig.return_type),
        _ => owned("INTEGER"),
    }
}

fn qed_operator_of(op: &Operator) -> (r: Option<String>)
    ensures
        match r {
            Some(s) => qed_operator(op@) == Some(s@),
            None => qed_operator(op@) == None::<Seq<char>>,
        },
{
    match op {
        Operator::Eq => Some(owned("=")),
        Operator::NotEq => Some(owned("!=")),
        Operator::Lt => Some(owned("<")),
        Operator::LtEq => Some(owned("<=")),
        Operator::Gt => Some(owned(">")),
        Operator::GtEq => Some(owned(">=")),
        Operator::Plus => Some(owned("+")),
        Operator::Minus => Some(owned("-")),
        Operator::Multiply => Some(owned("*")),
        Operator::Divide => Some(owned("/")),
        Operator::Modulo => Some(owned("%")),
        Operator::And => Some(owned("AND")),
        Operator::Or => Some(owned("OR")),
        Operator::Other(_) => None,
    }
}

fn binary_type_of(op: &Operator) -> (r: &'static str)
    ensures
        r@ == binary_type(op@),
{
    match op {
        Operator::Eq | Operator::NotEq | Operator::Lt | Operator::LtEq | Operator::Gt | Operator::GtEq | Operator::And
        | Operator::Or => "BOOLEAN",
        _ => "INTEGER",
    }
}

fn join_kind_of(jt: &JoinType) -> (r: &'static str)
    ensures
        r@ == join_kind(*jt),
{
    match jt {
        JoinType::Inner => "INNER",
        JoinType::Left => "LEFT",
        JoinType::Right => "RIGHT",
        JoinType::Full => "FULL",
        JoinType::LeftSemi => "SEMI",
        JoinType::LeftAnti => "ANTI",
        JoinType::RightSemi => "RIGHT_SEMI",
        JoinType::RightAnti => "RIGHT_ANTI",
        JoinType::LeftMark => "LEFT_MARK",
        JoinType::RightMark => "RIGHT_MARK",
    }
}

/// The position of the column that answers a reference.
fn find_column_of(cols: &Vec<QualifiedField>, c: &Column) -> (r: Option<usize>)
    ensures
        match r {
            Some(i) => i < cols@.len() && find_column(view_fields(cols@), c@) == Some(i as int),
            None => find_column(view_fields(cols@), c@) == None::<int>,
        },
{
    let ghost vc = view_fields(cols@);
    let ghost pred = column_answers(c@);
    let mut i: usize = 0;
    while i < cols.len()
        invariant
            i <= cols@.len(),
            vc == view_fields(cols@),
            pred == column_answers(c@),
            forall|k: int| 0 <= k < i ==> !pred(#[trigger] vc[k]),
        decreases cols.len() - i,
    {
        if cols[i].name == c.name && crate::plan::eq_opt_string(&cols[i].qualifier, &c.relation) {
            proof { lemma_first_index_found(vc, pred, i as int); }
            return Some(i);
        }
        i += 1;
    }
    proof { lemma_first_index_none(vc, pred); }
    None
}

fn concat_fields(a: &Vec<QualifiedField>, b: &Vec<QualifiedField>) -> (r: Vec<QualifiedField>)
    ensures
        view_fields(r@) == view_fields(a@) + view_fields(b@),
{
    let mut r = crate::plan::clone_fields(a);
    let mut i: usize = 0;
    let ghost start = view_fields(r@);
    while i < b.len()
        invariant
            i <= b@.len(),
            start == view_fields(a@),
            view_fields(r@) == start + view_fields(b@).take(i as int),
        decreases b.len() - i,
    {
        let ghost prev = r@;
        r.push(b[i].clone());
        assert(view_fields(r@) =~= view_fields(prev).push(b@[i as int]@));
        assert(view_fields(b@).take(i + 1) =~= view_fields(b@).take(i as int).push(b@[i as int]@));
        i += 1;
    }
    assert(view_fields(b@).take(b@.len() as int) =~= view_fields(b@));
    r
}

fn message(prefix: &str, middle: &String, suffix: &str) -> (r: String)
    ensures
        r@ == prefix@ + middle@ + suffix@,
{
    let mut s = owned(prefix);
    s.append(middle.as_str());
    s.append(suffix);
    s
}

impl QedSerializer {
    pub fn new() -> (r: Self)
        ensures
            r@ == Seq::<(Seq<char>, Seq<SpecQualifiedField>)>::empty(),
    {
        let r = QedSerializer { tables: Vec::new() };
        assert(r@ =~= Seq::<(Seq<char>, Seq<SpecQualifiedField>)>::empty());
        r
    }

    /// The index of a table, adding it if it is new.
    fn resolve_table_of(&mut self, name: &String, fields: &Vec<QualifiedField>) -> (r: usize)
        ensures
            (final(self)@, r as nat) == resolve_table(old(self)@, name@, view_fields(fields@)),
    {
        let ghost t = self@;
        let ghost pred = table_named(name@);
        let mut i: usize = 0;
        while i < self.tables.len()
            invariant
                i <= self.tables@.len(),
                t == self@,
                pred == table_named(name@),
                forall|k: int| 0 <= k < i ==> !pred(#[trigger] t[k]),
            decreases self.tables.len() - i,
        {
            if self.tables[i].name == *name {
                proof { lemma_first_index_found(t, pred, i as int); }
                return i;
            }
            i += 1;
        }
        proof { lemma_first_index_none(t, pred); }
        let idx = self.tables.len();
        let ghost prev = self.tables@;
        self.tables.push(TableInfo { name: name.clone(), fields: crate::plan::clone_fields(fields) });
        assert(self@ =~= t.push((name@, view_fields(fields@))));
        idx
    }
}

impl QedSerializer {
    /// Serializes an expression over the outer (global) and input (local) columns.
    ///
    /// A binary operator is written by its symbol: the comparisons (`=`, `!=`, `<`, `<=`,
    /// `>`, `>=`), the arithmetic operators (`+`, `-`, `*`, `/`, `%`), `AND` and `OR`. Any
    /// other binary operator has no name in the format: serialization does not go on and
    /// returns `QedError::UnsupportedOperator` with the operator's text, before either
    /// operand is looked at; it never panics on it.
    pub fn serialize_expr(&mut self, e: &Expr, g: &Vec<QualifiedField>, l: &Vec<QualifiedField>) -> (r: Result<Json, QedError>)
        ensures
            (final(self)@, view_json_result(r)) == qed_expr(old(self)@, e@, view_fields(g@), view_fields(l@)),
        decreases e, 1nat,
    {
        match e {
            Expr::Column(c) => match find_column_of(l, c) {
                Some(i) => Ok(col_node_of(g.len(), i, qed_type_of(&l[i].data_type))),
                None => match find_column_of(g, c) {
                    Some(i) => Ok(col_node_of(0, i, qed_type_of(&g[i].data_type))),
                    None => Err(QedError::ColumnNotFound(message("Column ", &column_debug_of(c), " not found in local or global"))),
                },
            },
            Expr::Literal(lit) => Ok(op_node_of(lit.value.clone(), no_jsons(), qed_type_of(&lit.data_type).as_str())),
            Expr::ScalarFunction { func, args } => match self.serialize_exprs(args, g, l) {
                Err(x) => Err(x),
                Ok(vs) => Ok(op_node_of(func.name.clone(), vs, callee_type_of(&func.callee).as_str())),
            },
            Expr::Binary { .. } => self.serialize_binary(e, g, l),
            Expr::Alias { expr, .. } => self.serialize_expr(expr, g, l),
            Expr::Cast { expr, .. } => self.serialize_expr(expr, g, l),
            Expr::OuterReferenceColumn(_, c) => match find_column_of(g, c) {
                Some(i) => Ok(col_node_of(0, i, qed_type_of(&g[i].data_type))),
                None => Err(QedError::ColumnNotFound(message("Outer reference column ", &column_debug_of(c), " not found in global"))),
            },
            Expr::Exists { .. } => self.serialize_subquery_expr(e, g, l),
            Expr::ScalarSubquery(_) => self.serialize_subquery_expr(e, g, l),
            Expr::InSubquery { .. } => self.serialize_subquery_expr(e, g, l),
            Expr::InList { .. } => self.serialize_in_list(e, g, l),
            Expr::Like(_) => self.serialize_like(e, g, l),
            Expr::Unary(..) => self.serialize_unary(e, g, l),
            Expr::Between { .. } => self.serialize_between(e, g, l),
            Expr::Case { .. } => self.serialize_case(e, g, l),
            _ => Err(QedError::UnsupportedExpr(expr_debug_of(e))),
        }
    }

    fn serialize_binary(&mut self, e: &Expr, g: &Vec<QualifiedField>, l: &Vec<QualifiedField>) -> (r: Result<Json, QedError>)
        requires
            e@ is Binary,
        ensures
            (final(self)@, view_json_result(r)) == qed_expr(old(self)@, e@, view_fields(g@), view_fields(l@)),
        decreases e, 0nat,
    {
        match e {
            Expr::Binary { left, op, right } => {
                let o = match qed_operator_of(op) {
                    None => {
                        return Err(QedError::UnsupportedOperator(op_text_of(op)));
                    },
                    Some(o) => o,
                };
                let lv = match self.serialize_expr(left, g, l) {
                    Err(x) => {
                        return Err(x);
                    },
                    Ok(v) => v,
                };
                let rv = match self.serialize_expr(right, g, l) {
                    Err(x) => {
                        return Err(x);
                    },
                    Ok(v) => v,
                };
                Ok(op_node_of(o, jsons2(lv, rv), binary_type_of(op)))
            },
            _ => Err(QedError::UnsupportedExpr(owned(""))),
        }
    }

    fn serialize_subquery_expr(&mut self, e: &Expr, g: &Vec<QualifiedField>, l: &Vec<QualifiedField>) -> (r: Result<
        Json,
        QedError,
    >)
        requires
            e@ is Exists || e@ is ScalarSubquery || e@ is InSubquery,
        ensures
            (final(self)@, view_json_result(r)) == qed_expr(old(self)@, e@, view_fields(g@), view_fields(l@)),
        decreases e, 0nat,
    {
        let outer = concat_fields(g, l);
        match e {
            Expr::Exists { subquery, negated } => {
                assert(e@ matches SpecExpr::Exists { subquery: q, .. } && q == crate::plan::view_subquery(*subquery));
                match self.serialize_rel(&subquery.plan, &outer) {
                    Err(x) => Err(x),
                    Ok((q, _)) => Ok(negated_if_of(*negated, query_node_of("EXISTS", no_jsons(), q, "BOOLEAN"))),
                }
            },
            Expr::ScalarSubquery(sq) => {
                assert(e@ == SpecExpr::ScalarSubquery(crate::plan::view_subquery(*sq)));
                match self.serialize_rel(&sq.plan, &outer) {
                    Err(x) => Err(x),
                    Ok((q, _)) => Ok(query_node_of("SCALAR_QUERY", no_jsons(), q, "INTEGER")),
                }
            },
            Expr::InSubquery { expr, subquery, negated } => {
                assert(e@ matches SpecExpr::InSubquery { subquery: q, .. } && q == crate::plan::view_subquery(*subquery));
                let v = match self.serialize_expr(expr, g, l) {
                    Err(x) => {
                        return Err(x);
                    },
                    Ok(v) => v,
                };
                match self.serialize_rel(&subquery.plan, &outer) {
                    Err(x) => Err(x),
                    Ok((q, _)) => Ok(negated_if_of(*negated, query_node_of("IN", jsons1(v), q, "BOOLEAN"))),
                }
            },
            _ => Err(QedError::UnsupportedExpr(owned(""))),
        }
    }

    fn serialize_in_list(&mut self, e: &Expr, g: &Vec<QualifiedField>, l: &Vec<QualifiedField>) -> (r: Result<Json, QedError>)
        requires
            e@ is InList,
        ensures
            (final(self)@, view_json_result(r)) == qed_expr(old(self)@, e@, view_fields(g@), view_fields(l@)),
        decreases e, 0nat,
    {
        match e {
            Expr::InList { expr, list, negated } => {
                let v = match self.serialize_expr(expr, g, l) {
                    Err(x) => {
                        return Err(x);
                    },
                    Ok(v) => v,
                };
                let vs = match self.serialize_exprs(list, g, l) {
                    Err(x) => {
                        return Err(x);
                    },
                    Ok(vs) => vs,
                };
                Ok(negated_if_of(*negated, in_chain_of(&v, &vs)))
            },
            _ => Err(QedError::UnsupportedExpr(owned(""))),
        }
    }

    fn serialize_like(&mut self, e: &Expr, g: &Vec<QualifiedField>, l: &Vec<QualifiedField>) -> (r: Result<Json, QedError>)
        requires
            e@ is Like,
        ensures
            (final(self)@, view_json_result(r)) == qed_expr(old(self)@, e@, view_fields(g@), view_fields(l@)),
        decreases e, 0nat,
    {
        match e {
            Expr::Like(lk) => {
                assert(e@ == SpecExpr::Like(crate::plan::view_like(*lk)));
                let v = match self.serialize_expr(&lk.expr, g, l) {
                    Err(x) => {
                        return Err(x);
                    },
                    Ok(v) => v,
                };
                let pv = match self.serialize_expr(&lk.pattern, g, l) {
                    Err(x) => {
                        return Err(x);
                    },
                    Ok(v) => v,
                };
                let op = if lk.negated { owned("NOT LIKE") } else { owned("LIKE") };
                Ok(op_node_of(op, jsons2(v, pv), "BOOLEAN"))
            },
            _ => Err(QedError::UnsupportedExpr(owned(""))),
        }
    }

    fn serialize_unary(&mut self, e: &Expr, g: &Vec<QualifiedField>, l: &Vec<QualifiedField>) -> (r: Result<Json, QedError>)
        requires
            e@ is Unary,
        ensures
            (final(self)@, view_json_result(r)) == qed_expr(old(self)@, e@, view_fields(g@), view_fields(l@)),
        decreases e, 0nat,
    {
        match e {
            Expr::Unary(op, inner) => {
                let v = match self.serialize_expr(inner, g, l) {
                    Err(x) => {
                        return Err(x);
                    },
                    Ok(v) => v,
                };
                Ok(match op {
                    UnaryOp::Not => op_node_of(owned("NOT"), jsons1(v), "BOOLEAN"),
                    UnaryOp::IsNull => op_node_of(owned("IS NULL"), jsons1(v), "BOOLEAN"),
                    UnaryOp::IsNotNull => op_node_of(owned("IS NOT NULL"), jsons1(v), "BOOLEAN"),
                    UnaryOp::Negative => op_node_of(owned("-"), jsons1(v), "INTEGER"),
                })
            },
            _ => Err(QedError::UnsupportedExpr(owned(""))),
        }
    }

    fn serialize_between(&mut self, e: &Expr, g: &Vec<QualifiedField>, l: &Vec<QualifiedField>) -> (r: Result<Json, QedError>)
        requires
            e@ is Between,
        ensures
            (final(self)@, view_json_result(r)) == qed_expr(old(self)@, e@, view_fields(g@), view_fields(l@)),
        decreases e, 0nat,
    {
        match e {
            Expr::Between { expr, negated, low, high } => {
                let v = match self.serialize_expr(expr, g, l) {
                    Err(x) => {
                        return Err(x);
                    },
                    Ok(v) => v,
                };
                let lv = match self.serialize_expr(low, g, l) {
                    Err(x) => {
                        return Err(x);
                    },
                    Ok(v) => v,
                };
                let hv = match self.serialize_expr(high, g, l) {
                    Err(x) => {
                        return Err(x);
                    },
                    Ok(v) => v,
                };
                let v2 = v.deep_copy();
                let ge = op_node_of(owned(">="), jsons2(v, lv), "BOOLEAN");
                let le = op_node_of(owned("<="), jsons2(v2, hv), "BOOLEAN");
                Ok(negated_if_of(*negated, op_node_of(owned("AND"), jsons2(ge, le), "BOOLEAN")))
            },
            _ => Err(QedError::UnsupportedExpr(owned(""))),
        }
    }

    fn serialize_case(&mut self, e: &Expr, g: &Vec<QualifiedField>, l: &Vec<QualifiedField>) -> (r: Result<Json, QedError>)
        requires
            e@ is Case,
        ensures
            (final(self)@, view_json_result(r)) == qed_expr(old(self)@, e@, view_fields(g@), view_fields(l@)),
        decreases e, 0nat,
    {
        match e {
            Expr::Case { arms, else_expr, .. } => {
                assert(e@ matches SpecExpr::Case { arms: va, else_expr: ve, .. } && va == crate::plan::view_arms(arms@)
                    && ve == crate::plan::view_opt_expr(*else_expr));
                let acc = match else_expr {
                    Some(el) => match self.serialize_expr(el, g, l) {
                        Err(x) => {
                            return Err(x);
                        },
                        Ok(v) => v,
                    },
                    None => op_node_of(owned("null"), no_jsons(), "NULL"),
                };
                self.serialize_arms(arms, g, l, acc)
            },
            _ => Err(QedError::UnsupportedExpr(owned(""))),
        }
    }

    /// The arms of a `CASE`, from the last to the first, each wrapped around what follows.
    #[verifier::loop_isolation(false)]
    fn serialize_arms(&mut self, arms: &Vec<WhenThen>, g: &Vec<QualifiedField>, l: &Vec<QualifiedField>, acc: Json) -> (r:
        Result<Json, QedError>)
        ensures
            (final(self)@, view_json_result(r)) == qed_case(
                old(self)@,
                crate::plan::view_arms(arms@),
                view_fields(g@),
                view_fields(l@),
                acc@,
            ),
        decreases arms, 1nat,
    {
        let ghost va = crate::plan::view_arms(arms@);
        let ghost t0 = self@;
        let ghost acc0 = acc@;
        proof { crate::plan::lemma_view_arms(arms@); }
        let mut acc = acc;
        let mut i: usize = arms.len();
        assert(va.take(va.len() as int) =~= va);
        while i > 0
            invariant
                i <= arms@.len(),
                va.len() == arms@.len(),
                qed_case(t0, va, view_fields(g@), view_fields(l@), acc0) == qed_case(
                    self@,
                    va.take(i as int),
                    view_fields(g@),
                    view_fields(l@),
                    acc@,
                ),
            decreases i,
        {
            proof {
                assert(decreases_to!(arms => arms[i - 1]));
                let t = va.take(i as int);
                assert(t.drop_last() =~= va.take(i - 1));
                assert(t.last() == va[i - 1]);
            }
            let w = match self.serialize_expr(&arms[i - 1].condition, g, l) {
                Err(x) => {
                    return Err(x);
                },
                Ok(v) => v,
            };
            let th = match self.serialize_expr(&arms[i - 1].result, g, l) {
                Err(x) => {
                    return Err(x);
                },
                Ok(v) => v,
            };
            acc = op_node_of(owned("CASE"), jsons3(w, th, acc), "INTEGER");
            i -= 1;
        }
        Ok(acc)
    }

    /// Serializes a list of expressions, in order.
    #[verifier::loop_isolation(false)]
    pub fn serialize_exprs(&mut self, s: &Vec<Expr>, g: &Vec<QualifiedField>, l: &Vec<QualifiedField>) -> (r: Result<
        Vec<Json>,
        QedError,
    >)
        ensures
            (final(self)@, view_jsons_result(r)) == qed_exprs(old(self)@, view_exprs(s@), view_fields(g@), view_fields(l@)),
        decreases s, 1nat,
    {
        let ghost vs = view_exprs(s@);
        let ghost t0 = self@;
        proof { lemma_view_exprs(s@); }
        let mut out: Vec<Json> = Vec::new();
        let mut i: usize = 0;
        assert(vs.take(0) =~= Seq::<SpecExpr>::empty());
        assert(view_jsons(out@) =~= Seq::<SpecJson>::empty());
        while i < s.len()
            invariant
                i <= s@.len(),
                vs.len() == s@.len(),
                qed_exprs(t0, vs.take(i as int), view_fields(g@), view_fields(l@)) == (
                    self@,
                    Ok::<Seq<SpecJson>, SpecQedError>(view_jsons(out@)),
                ),
            decreases s.len() - i,
        {
            proof {
                assert(decreases_to!(s => s[i as int]));
                let t = vs.take(i + 1);
                assert(t.drop_last() =~= vs.take(i as int));
                assert(t.last() == vs[i as int]);
            }
            match self.serialize_expr(&s[i], g, l) {
                Err(x) => {
                    proof { lemma_qed_exprs_err(t0, vs, view_fields(g@), view_fields(l@), i + 1); }
                    return Err(x);
                },
                Ok(v) => {
                    let ghost prev = out@;
                    out.push(v);
                    assert(out@.drop_last() =~= prev);
                },
            }
            i += 1;
        }
        assert(vs.take(vs.len() as int) =~= vs);
        Ok(out)
    }
}

/// Once a prefix fails, the whole list fails the same way.
proof fn lemma_qed_exprs_err(t: Tables, s: Seq<SpecExpr>, g: Seq<SpecQualifiedField>, l: Seq<SpecQualifiedField>, k: int)
    requires
        0 <= k <= s.len(),
        qed_exprs(t, s.take(k), g, l).1 is Err,
    ensures
        qed_exprs(t, s, g, l) == qed_exprs(t, s.take(k), g, l),
    decreases s.len() - k,
{
    if k < s.len() {
        assert(s.take(k + 1).drop_last() =~= s.take(k));
        lemma_qed_exprs_err(t, s, g, l, k + 1);
    } else {
        assert(s.take(k) =~= s);
    }
}

/// How the engine displays a plan node that the format has no node for.
fn plan_display_of(p: &Plan) -> (r: String)
    ensures
        r@ == plan_display(p@),
{
    match p {
        Plan::EmptyRelation { produce_one_row, .. } => if *produce_one_row {
            owned("EmptyRelation: rows=1")
        } else {
            owned("EmptyRelation: rows=0")
        },
        Plan::Distinct(_) => owned("Distinct:"),
        _ => crate::matcher::instantiate::plan_label_of(p),
    }
}

impl QedSerializer {
    /// Serializes a user-defined operator by what it means: the core relational plan that
    /// its `semantics` gives, serialized by `serialize_rel` over the outer columns. The
    /// operator's own code decides that plan, so the contract says that the result is
    /// what `serialize_rel` gives for some plan; `serialize_rel` states it for each plan.
    pub fn serialize_user_defined<O: UserDefinedLogicalOperator>(
        &mut self,
        pattern: &UserDefinedLogicalPattern<O>,
        g: &Vec<QualifiedField>,
    ) -> (r: Result<(Json, Vec<QualifiedField>), QedError>)
        ensures
            exists|p: SpecPlan| #[trigger] qed_rel(old(self)@, p, view_fields(g@)) == (final(self)@, view_rel_result(r)),
    {
        let ghost t0 = self@;
        let sem = pattern.implementation.semantics();
        let r = self.serialize_rel(&sem, g);
        assert(qed_rel(t0, sem@, view_fields(g@)) == (self@, view_rel_result(r)));
        r
    }
}

/// The index of the first column with a name, whatever its qualifier.
fn find_named_of(cols: &Vec<QualifiedField>, name: &String) -> (r: Option<usize>)
    ensures
        match r {
            Some(i) => i < cols@.len() && first_index_where(view_fields(cols@), field_named(name@)) == Some(i as int),
            None => first_index_where(view_fields(cols@), field_named(name@)) == None::<int>,
        },
{
    let ghost vc = view_fields(cols@);
    let ghost pred = field_named(name@);
    let mut i: usize = 0;
    while i < cols.len()
        invariant
            i <= cols@.len(),
            vc == view_fields(cols@),
            pred == field_named(name@),
            forall|k: int| 0 <= k < i ==> !pred(#[trigger] vc[k]),
        decreases cols.len() - i,
    {
        if cols[i].name == *name {
            proof { lemma_first_index_found(vc, pred, i as int); }
            return Some(i);
        }
        i += 1;
    }
    proof { lemma_first_index_none(vc, pred); }
    None
}

/// Once a prefix fails, the whole list fails the same way.
proof fn lemma_qed_exprs_named_err(t: Tables, s: Seq<SpecExpr>, cols: Seq<SpecQualifiedField>, k: int)
    requires
        0 <= k <= s.len(),
        qed_exprs_named(t, s.take(k), cols).1 is Err,
    ensures
        qed_exprs_named(t, s, cols) == qed_exprs_named(t, s.take(k), cols),
    decreases s.len() - k,
{
    if k < s.len() {
        assert(s.take(k + 1).drop_last() =~= s.take(k));
        lemma_qed_exprs_named_err(t, s, cols, k + 1);
    } else {
        assert(s.take(k) =~= s);
    }
}

impl QedSerializer {
    /// Serializes an expression over a single list of columns, finding each column by its
    /// name alone: a reference becomes the index of the first column of that name, and a
    /// reference that no column answers is `ColumnNotFound`. Handles columns, outer
    /// references, literals, function calls, the binary operators the format names (any
    /// other gives `UnsupportedOperator`), aliases and `EXISTS`, whose subquery is
    /// serialized with `serialize_rel` over the list as its outer columns; any other
    /// expression is `UnsupportedExpr`.
    pub fn serialize_expr_with_columns(&mut self, e: &Expr, cols: &Vec<QualifiedField>) -> (r: Result<Json, QedError>)
        ensures
            (final(self)@, view_json_result(r)) == qed_expr_named(old(self)@, e@, view_fields(cols@)),
        decreases e, 1nat,
    {
        match e {
            Expr::Column(c) => match find_named_of(cols, &c.name) {
                Some(i) => Ok(col_node_of(0, i, qed_type_of(&cols[i].data_type))),
                None => Err(QedError::ColumnNotFound(message("Column ", &column_debug_of(c), " not found"))),
            },
            Expr::Literal(lit) => Ok(op_node_of(lit.value.clone(), no_jsons(), qed_type_of(&lit.data_type).as_str())),
            Expr::ScalarFunction { func, args } => match self.serialize_exprs_with_columns(args, cols) {
                Err(x) => Err(x),
                Ok(vs) => Ok(op_node_of(func.name.clone(), vs, callee_type_of(&func.callee).as_str())),
            },
            Expr::Binary { left, op, right } => {
                let o = match qed_operator_of(op) {
                    None => {
                        return Err(QedError::UnsupportedOperator(op_text_of(op)));
                    },
                    Some(o) => o,
                };
                let lv = match self.serialize_expr_with_columns(left, cols) {
                    Err(x) => {
                        return Err(x);
                    },
                    Ok(v) => v,
                };
                let rv = match self.serialize_expr_with_columns(right, cols) {
                    Err(x) => {
                        return Err(x);
                    },
                    Ok(v) => v,
                };
                Ok(op_node_of(o, jsons2(lv, rv), binary_type_of(op)))
            },
            Expr::Alias { expr, .. } => self.serialize_expr_with_columns(expr, cols),
            Expr::OuterReferenceColumn(_, c) => match find_named_of(cols, &c.name) {
                Some(i) => Ok(col_node_of(0, i, qed_type_of(&cols[i].data_type))),
                None => Err(QedError::ColumnNotFound(message("Outer reference column ", &column_debug_of(c), " not found"))),
            },
            Expr::Exists { subquery, negated } => {
                assert(e@ matches SpecExpr::Exists { subquery: q, .. } && q == crate::plan::view_subquery(*subquery));
                match self.serialize_rel(&subquery.plan, cols) {
                    Err(x) => Err(x),
                    Ok((q, _)) => {
                        let op = if *negated { "NOT EXISTS" } else { "EXISTS" };
                        Ok(query_node_of(op, no_jsons(), q, "BOOLEAN"))
                    },
                }
            },
            _ => Err(QedError::UnsupportedExpr(expr_debug_of(e))),
        }
    }

    /// Serializes expressions in turn by `serialize_expr_with_columns`, stopping at the
    /// first error.
    #[verifier::loop_isolation(false)]
    pub fn serialize_exprs_with_columns(&mut self, s: &Vec<Expr>, cols: &Vec<QualifiedField>) -> (r: Result<
        Vec<Json>,
        QedError,
    >)
        ensures
            (final(self)@, view_jsons_result(r)) == qed_exprs_named(old(self)@, view_exprs(s@), view_fields(cols@)),
        decreases s, 1nat,
    {
        let ghost vs = view_exprs(s@);
        let ghost t0 = self@;
        proof { lemma_view_exprs(s@); }
        let mut out: Vec<Json> = Vec::new();
        let mut i: usize = 0;
        assert(vs.take(0) =~= Seq::<SpecExpr>::empty());
        assert(view_jsons(out@) =~= Seq::<SpecJson>::empty());
        while i < s.len()
            invariant
                i <= s@.len(),
                vs.len() == s@.len(),
                vs == view_exprs(s@),
                qed_exprs_named(t0, vs.take(i as int), view_fields(cols@)) == (
                    self@,
                    Ok::<Seq<SpecJson>, SpecQedError>(view_jsons(out@)),
                ),
            decreases s.len() - i,
        {
            proof {
                assert(decreases_to!(s => s[i as int]));
                let t = vs.take(i + 1);
                assert(t.drop_last() =~= vs.take(i as int));
                assert(t.last() == vs[i as int]);
            }
            match self.serialize_expr_with_columns(&s[i], cols) {
                Err(x) => {
                    proof { lemma_qed_exprs_named_err(t0, vs, view_fields(cols@), i + 1); }
                    return Err(x);
                },
                Ok(v) => {
                    let ghost prev = out@;
                    out.push(v);
                    assert(out@.drop_last() =~= prev);
                },
            }
            i += 1;
        }
        assert(vs.take(vs.len() as int) =~= vs);
        Ok(out)
    }
}

/// `v = vals[0] OR v = vals[1] OR ...`; `false` for no values.
fn in_chain_of(v: &Json, vals: &Vec<Json>) -> (r: Json)
    ensures
        r@ == in_chain(v@, view_jsons(vals@)),
{
    let ghost vv = view_jsons(vals@);
    proof { lemma_view_jsons(vals@); }
    if vals.len() == 0 {
        return op_node_of(owned("false"), no_jsons(), "BOOLEAN");
    }
    let mut acc = op_node_of(owned("="), jsons2(v.deep_copy(), vals[0].deep_copy()), "BOOLEAN");
    let mut i: usize = 1;
    assert(vv.take(1).len() == 1);
    while i < vals.len()
        invariant
            1 <= i <= vals@.len(),
            vv == view_jsons(vals@),
            vv.len() == vals@.len(),
            forall|k: int| 0 <= k < vals@.len() ==> #[trigger] vv[k] == view_json(vals@[k]),
            acc@ == in_chain(v@, vv.take(i as int)),
        decreases vals.len() - i,
    {
        let eq = op_node_of(owned("="), jsons2(v.deep_copy(), vals[i].deep_copy()), "BOOLEAN");
        acc = op_node_of(owned("OR"), jsons2(acc, eq), "BOOLEAN");
        proof {
            let t = vv.take(i + 1);
            assert(t.drop_last() =~= vv.take(i as int));
            assert(t.last() == vv[i as int]);
        }
        i += 1;
    }
    assert(vv.take(vv.len() as int) =~= vv);
    acc
}

fn scan_node_of(idx: usize) -> (r: Json)
    ensures
        r@ == scan_node(idx as nat),
{
    let mut m: Vec<(String, Json)> = Vec::new();
    member(&mut m, "scan", Json::Num(idx as u128));
    assert(view_members(m@) =~= seq![("scan"@, SpecJson::Num(idx as nat))]) by {
        assert(view_members(Seq::<(String, Json)>::empty()) =~= Seq::empty());
    }
    Json::Obj(m)
}

fn values_node_of(fields: &Vec<QualifiedField>) -> (r: Json)
    ensures
        r@ == values_node(view_fields(fields@)),
{
    let mut types: Vec<Json> = Vec::new();
    let mut i: usize = 0;
    while i < fields.len()
        invariant
            i <= fields@.len(),
            types@.len() == i,
            forall|k: int| 0 <= k < i ==> view_json(#[trigger] types@[k]) == SpecJson::Str(qed_type(fields@[k]@.data_type)),
        decreases fields.len() - i,
    {
        types.push(Json::Str(qed_type_of(&fields[i].data_type)));
        i += 1;
    }
    proof { lemma_view_jsons(types@); }
    let ghost tv = view_jsons(types@);
    assert(tv =~= view_fields(fields@).map_values(|f: SpecQualifiedField| SpecJson::Str(qed_type(f.data_type))));
    let mut inner: Vec<(String, Json)> = Vec::new();
    member(&mut inner, "schema", Json::Arr(types));
    member(&mut inner, "content", Json::Arr(Vec::new()));
    let ghost iv = view_members(inner@);
    assert(iv =~= seq![("schema"@, SpecJson::Arr(tv)), ("content"@, SpecJson::Arr(Seq::empty()))]) by {
        assert(view_members(Seq::<(String, Json)>::empty()) =~= Seq::empty());
        assert(view_jsons(Seq::<Json>::empty()) =~= Seq::empty());
    }
    let mut m: Vec<(String, Json)> = Vec::new();
    member(&mut m, "values", Json::Obj(inner));
    assert(view_members(m@) =~= seq![("values"@, SpecJson::Obj(iv))]) by {
        assert(view_members(Seq::<(String, Json)>::empty()) =~= Seq::empty());
    }
    Json::Obj(m)
}

/// `{name: {k1: v1, k2: v2, ...}}`.
fn wrapped(name: &str, members: Vec<(String, Json)>) -> (r: Json)
    ensures
        r@ == SpecJson::Obj(seq![(name@, SpecJson::Obj(view_members(members@)))]),
{
    let ghost mv = view_members(members@);
    let mut m: Vec<(String, Json)> = Vec::new();
    member(&mut m, name, Json::Obj(members));
    assert(view_members(m@) =~= seq![(name@, SpecJson::Obj(mv))]) by {
        assert(view_members(Seq::<(String, Json)>::empty()) =~= Seq::empty());
    }
    Json::Obj(m)
}

fn sort_node_of(collation: Vec<Json>, source: Json, offset: Json, limit: Json) -> (r: Json)
    ensures
        r@ == sort_node(view_jsons(collation@), source@, offset@, limit@),
{
    let ghost cv = view_jsons(collation@);
    let ghost sv = source@;
    let ghost ov = offset@;
    let ghost lv = limit@;
    let mut m: Vec<(String, Json)> = Vec::new();
    member(&mut m, "collation", Json::Arr(collation));
    member(&mut m, "source", source);
    member(&mut m, "offset", offset);
    member(&mut m, "limit", limit);
    assert(view_members(m@) =~= seq![
        ("collation"@, SpecJson::Arr(cv)),
        ("source"@, sv),
        ("offset"@, ov),
        ("limit"@, lv),
    ]) by {
        assert(view_members(Seq::<(String, Json)>::empty()) =~= Seq::empty());
    }
    wrapped("sort", m)
}

/// `conds[0] AND conds[1] AND ...`; there is at least one condition.
fn and_fold_of(conds: Vec<Json>) -> (r: Json)
    requires
        conds@.len() >= 1,
    ensures
        r@ == and_fold(view_jsons(conds@)),
{
    let ghost cv = view_jsons(conds@);
    proof { lemma_view_jsons(conds@); }
    let mut acc = conds[0].deep_copy();
    let mut i: usize = 1;
    assert(cv.take(1).len() == 1);
    while i < conds.len()
        invariant
            1 <= i <= conds@.len(),
            cv == view_jsons(conds@),
            cv.len() == conds@.len(),
            forall|k: int| 0 <= k < conds@.len() ==> #[trigger] cv[k] == view_json(conds@[k]),
            acc@ == and_fold(cv.take(i as int)),
        decreases conds.len() - i,
    {
        acc = op_node_of(owned("AND"), jsons2(acc, conds[i].deep_copy()), "BOOLEAN");
        proof {
            let t = cv.take(i + 1);
            assert(t.drop_last() =~= cv.take(i as int));
            assert(t.last() == cv[i as int]);
        }
        i += 1;
    }
    assert(cv.take(cv.len() as int) =~= cv);
    acc
}

proof fn lemma_collation_err(s: Seq<crate::plan::SpecSortExpr>, glen: nat, l: Seq<SpecQualifiedField>, k: int)
    requires
        0 <= k <= s.len(),
        qed_collation(s.take(k), glen, l) is Err,
    ensures
        qed_collation(s, glen, l) == qed_collation(s.take(k), glen, l),
    decreases s.len() - k,
{
    if k < s.len() {
        assert(s.take(k + 1).drop_last() =~= s.take(k));
        lemma_collation_err(s, glen, l, k + 1);
    } else {
        assert(s.take(k) =~= s);
    }
}

/// The collation of a sort: every key must be a column of the input.
fn collation_of(exprs: &Vec<SortExpr>, glen: usize, l: &Vec<QualifiedField>) -> (r: Result<Vec<Json>, QedError>)
    ensures
        view_jsons_result(r) == qed_collation(view_sorts(exprs@), glen as nat, view_fields(l@)),
{
    let ghost vs = view_sorts(exprs@);
    proof { lemma_view_sorts(exprs@); }
    let mut out: Vec<Json> = Vec::new();
    let mut i: usize = 0;
    assert(vs.take(0) =~= Seq::<crate::plan::SpecSortExpr>::empty());
    assert(view_jsons(out@) =~= Seq::<SpecJson>::empty());
    while i < exprs.len()
        invariant
            i <= exprs@.len(),
            vs == view_sorts(exprs@),
            vs.len() == exprs@.len(),
            forall|k: int| 0 <= k < exprs@.len() ==> #[trigger] vs[k] == crate::plan::view_sort(exprs@[k]),
            qed_collation(vs.take(i as int), glen as nat, view_fields(l@)) == Ok::<Seq<SpecJson>, SpecQedError>(
                view_jsons(out@),
            ),
        decreases exprs.len() - i,
    {
        proof {
            let t = vs.take(i + 1);
            assert(t.drop_last() =~= vs.take(i as int));
            assert(t.last() == vs[i as int]);
        }
        match &exprs[i].expr {
            Expr::Column(c) => match find_column_of(l, c) {
                Some(k) => {
                    let dir = if exprs[i].asc { "ASCENDING" } else { "DESCENDING" };
                    let item = arr3(Json::Num(glen as u128 + k as u128), Json::Str(qed_type_of(&l[k].data_type)), str_json(dir));
                    let ghost prev = out@;
                    out.push(item);
                    assert(out@.drop_last() =~= prev);
                },
                None => {
                    proof { lemma_collation_err(vs, glen as nat, view_fields(l@), i + 1); }
                    return Err(QedError::ColumnNotFound(message("Sort column ", &column_debug_of(c), " not found")));
                },
            },
            _ => {
                proof { lemma_collation_err(vs, glen as nat, view_fields(l@), i + 1); }
                return Err(
                    QedError::UnsupportedExpr(prefixed("Sort expression must be a column: ", &expr_debug_of(&exprs[i].expr))),
                );
            },
        }
        i += 1;
    }
    assert(vs.take(vs.len() as int) =~= vs);
    Ok(out)
}

impl QedSerializer {
    /// Serializes a plan over the outer (global) columns: its JSON and its output columns.
    pub fn serialize_rel(&mut self, p: &Plan, g: &Vec<QualifiedField>) -> (r: Result<(Json, Vec<QualifiedField>), QedError>)
        ensures
            (final(self)@, view_rel_result(r)) == qed_rel(old(self)@, p@, view_fields(g@)),
        decreases p, 1nat,
    {
        match p {
            Plan::Source(s) => {
                let fields = schema_of(p);
                let idx = self.resolve_table_of(&s.table_name, &fields);
                Ok((scan_node_of(idx), fields))
            },
            Plan::Empty(inner) => {
                let fields = schema_of(inner);
                Ok((values_node_of(&fields), fields))
            },
            Plan::TableScan { table_name, schema } => {
                let idx = self.resolve_table_of(table_name, schema);
                Ok((scan_node_of(idx), crate::plan::clone_fields(schema)))
            },
            Plan::Filter { predicate, input } => {
                let (sj, cols) = match self.serialize_rel(input, g) {
                    Err(x) => {
                        return Err(x);
                    },
                    Ok(v) => v,
                };
                let c = match self.serialize_expr(predicate, g, &cols) {
                    Err(x) => {
                        return Err(x);
                    },
                    Ok(v) => v,
                };
                let ghost cv = c@;
                let ghost sv = sj@;
                let mut m: Vec<(String, Json)> = Vec::new();
                member(&mut m, "condition", c);
                member(&mut m, "source", sj);
                assert(view_members(m@) =~= seq![("condition"@, cv), ("source"@, sv)]) by {
                    assert(view_members(Seq::<(String, Json)>::empty()) =~= Seq::empty());
                }
                Ok((wrapped("filter", m), cols))
            },
            Plan::Projection { .. } => self.serialize_projection(p, g),
            Plan::Join { .. } => self.serialize_join(p, g),
            Plan::Aggregate { .. } => self.serialize_aggregate(p, g),
            Plan::Union { .. } => self.serialize_union(p, g),
            Plan::Subquery(q) => {
                assert(p@ == SpecPlan::Subquery(crate::plan::view_subquery(*q)));
                self.serialize_rel(&q.plan, g)
            },
            Plan::SubqueryAlias { input, schema, .. } => match self.serialize_rel(input, g) {
                Err(x) => Err(x),
                Ok((j, _)) => Ok((j, crate::plan::clone_fields(schema))),
            },
            Plan::Sort { .. } => self.serialize_sort(p, g),
            Plan::Limit { .. } => self.serialize_limit(p, g),
            _ => Err(QedError::UnsupportedPlan(plan_display_of(p))),
        }
    }

    fn serialize_projection(&mut self, p: &Plan, g: &Vec<QualifiedField>) -> (r: Result<(Json, Vec<QualifiedField>), QedError>)
        requires
            p@ is Projection,
        ensures
            (final(self)@, view_rel_result(r)) == qed_rel(old(self)@, p@, view_fields(g@)),
        decreases p, 0nat,
    {
        match p {
            Plan::Projection { exprs, input, schema } => {
                let (sj, cols) = match self.serialize_rel(input, g) {
                    Err(x) => {
                        return Err(x);
                    },
                    Ok(v) => v,
                };
                let vs = match self.serialize_exprs(exprs, g, &cols) {
                    Err(x) => {
                        return Err(x);
                    },
                    Ok(v) => v,
                };
                let ghost tv = view_jsons(vs@);
                let ghost sv = sj@;
                let mut m: Vec<(String, Json)> = Vec::new();
                member(&mut m, "target", Json::Arr(vs));
                member(&mut m, "source", sj);
                assert(view_members(m@) =~= seq![("target"@, SpecJson::Arr(tv)), ("source"@, sv)]) by {
                    assert(view_members(Seq::<(String, Json)>::empty()) =~= Seq::empty());
                }
                Ok((wrapped("project", m), crate::plan::clone_fields(schema)))
            },
            _ => Err(QedError::UnsupportedPlan(owned(""))),
        }
    }

    fn serialize_join(&mut self, p: &Plan, g: &Vec<QualifiedField>) -> (r: Result<(Json, Vec<QualifiedField>), QedError>)
        requires
            p@ is Join,
        ensures
            (final(self)@, view_rel_result(r)) == qed_rel(old(self)@, p@, view_fields(g@)),
        decreases p, 0nat,
    {
        match p {
            Plan::Join { left, right, on, filter, join_type, .. } => {
                let (lj, lcols) = match self.serialize_rel(left, g) {
                    Err(x) => {
                        return Err(x);
                    },
                    Ok(v) => v,
                };
                let (rj, rcols) = match self.serialize_rel(right, g) {
                    Err(x) => {
                        return Err(x);
                    },
                    Ok(v) => v,
                };
                let local = concat_fields(&lcols, &rcols);
                proof { lemma_view_keys(on@); }
                let c = match filter {
                    Some(f) => match self.serialize_expr(f, g, &local) {
                        Err(x) => {
                            return Err(x);
                        },
                        Ok(v) => v,
                    },
                    None => if on.len() > 0 {
                        match self.serialize_keys(on, g, &local) {
                            Err(x) => {
                                return Err(x);
                            },
                            Ok(conds) => {
                                proof { lemma_view_jsons(conds@); }
                                and_fold_of(conds)
                            },
                        }
                    } else {
                        op_node_of(owned("true"), no_jsons(), "BOOLEAN")
                    },
                };
                let ghost cv = c@;
                let ghost lv = lj@;
                let ghost rv = rj@;
                let mut m: Vec<(String, Json)> = Vec::new();
                member(&mut m, "kind", str_json(join_kind_of(join_type)));
                member(&mut m, "condition", c);
                member(&mut m, "left", lj);
                member(&mut m, "right", rj);
                assert(view_members(m@) =~= seq![
                    ("kind"@, SpecJson::Str(join_kind(*join_type))),
                    ("condition"@, cv),
                    ("left"@, lv),
                    ("right"@, rv),
                ]) by {
                    assert(view_members(Seq::<(String, Json)>::empty()) =~= Seq::empty());
                }
                Ok((wrapped("join", m), local))
            },
            _ => Err(QedError::UnsupportedPlan(owned(""))),
        }
    }

    /// The equality conditions of join keys, in order.
    #[verifier::loop_isolation(false)]
    fn serialize_keys(&mut self, s: &Vec<JoinKey>, g: &Vec<QualifiedField>, l: &Vec<QualifiedField>) -> (r: Result<
        Vec<Json>,
        QedError,
    >)
        ensures
            (final(self)@, view_jsons_result(r)) == qed_keys(old(self)@, view_keys(s@), view_fields(g@), view_fields(l@)),
        decreases s, 1nat,
    {
        let ghost vs = view_keys(s@);
        let ghost t0 = self@;
        proof { lemma_view_keys(s@); }
        let mut out: Vec<Json> = Vec::new();
        let mut i: usize = 0;
        assert(vs.take(0) =~= Seq::<crate::plan::SpecJoinKey>::empty());
        assert(view_jsons(out@) =~= Seq::<SpecJson>::empty());
        while i < s.len()
            invariant
                i <= s@.len(),
                vs.len() == s@.len(),
                qed_keys(t0, vs.take(i as int), view_fields(g@), view_fields(l@)) == (
                    self@,
                    Ok::<Seq<SpecJson>, SpecQedError>(view_jsons(out@)),
                ),
            decreases s.len() - i,
        {
            proof {
                assert(decreases_to!(s => s[i as int]));
                let t = vs.take(i + 1);
                assert(t.drop_last() =~= vs.take(i as int));
                assert(t.last() == vs[i as int]);
            }
            let a = match self.serialize_expr(&s[i].left, g, l) {
                Err(x) => {
                    proof { lemma_qed_keys_err(t0, vs, view_fields(g@), view_fields(l@), i + 1); }
                    return Err(x);
                },
                Ok(v) => v,
            };
            let b = match self.serialize_expr(&s[i].right, g, l) {
                Err(x) => {
                    proof { lemma_qed_keys_err(t0, vs, view_fields(g@), view_fields(l@), i + 1); }
                    return Err(x);
                },
                Ok(v) => v,
            };
            let ghost prev = out@;
            out.push(op_node_of(owned("="), jsons2(a, b), "BOOLEAN"));
            assert(out@.drop_last() =~= prev);
            i += 1;
        }
        assert(vs.take(vs.len() as int) =~= vs);
        Ok(out)
    }
}

proof fn lemma_qed_keys_err(t: Tables, s: Seq<crate::plan::SpecJoinKey>, g: Seq<SpecQualifiedField>, l: Seq<SpecQualifiedField>, k: int)
    requires
        0 <= k <= s.len(),
        qed_keys(t, s.take(k), g, l).1 is Err,
    ensures
        qed_keys(t, s, g, l) == qed_keys(t, s.take(k), g, l),
    decreases s.len() - k,
{
    if k < s.len() {
        assert(s.take(k + 1).drop_last() =~= s.take(k));
        lemma_qed_keys_err(t, s, g, l, k + 1);
    } else {
        assert(s.take(k) =~= s);
    }
}


/// `prefix` followed by `rest`.
fn prefixed(prefix: &str, rest: &String) -> (r: String)
    ensures
        r@ == prefix@ + rest@,
{
    let mut s = owned(prefix);
    s.append(rest.as_str());
    s
}

fn aggregate_node_of(name: String, args: Vec<Json>, distinct: bool, ty: String) -> (r: Json)
    ensures
        r@ == aggregate_node(name@, view_jsons(args@), distinct, ty@),
{
    let ghost nv = name@;
    let ghost av = view_jsons(args@);
    let ghost tv = ty@;
    let mut m: Vec<(String, Json)> = Vec::new();
    member(&mut m, "operator", Json::Str(name));
    member(&mut m, "operand", Json::Arr(args));
    member(&mut m, "distinct", Json::Bool(distinct));
    member(&mut m, "ignoreNulls", Json::Bool(false));
    member(&mut m, "type", Json::Str(ty));
    assert(view_members(m@) =~= seq![
        ("operator"@, SpecJson::Str(nv)),
        ("operand"@, SpecJson::Arr(av)),
        ("distinct"@, SpecJson::Bool(distinct)),
        ("ignoreNulls"@, SpecJson::Bool(false)),
        ("type"@, SpecJson::Str(tv)),
    ]) by {
        assert(view_members(Seq::<(String, Json)>::empty()) =~= Seq::empty());
    }
    Json::Obj(m)
}

pub open spec fn view_pairs(s: Seq<(Json, Vec<QualifiedField>)>) -> Seq<(SpecJson, Seq<SpecQualifiedField>)> {
    s.map_values(|p: (Json, Vec<QualifiedField>)| (p.0@, view_fields(p.1@)))
}

pub open spec fn view_pairs_result(r: Result<Vec<(Json, Vec<QualifiedField>)>, QedError>) -> Result<
    Seq<(SpecJson, Seq<SpecQualifiedField>)>,
    SpecQedError,
> {
    match r {
        Ok(v) => Ok(view_pairs(v@)),
        Err(e) => Err(e@),
    }
}

proof fn lemma_group_keys_err(t: Tables, s: Seq<SpecExpr>, g: Seq<SpecQualifiedField>, l: Seq<SpecQualifiedField>, k: int)
    requires
        0 <= k <= s.len(),
        qed_group_keys(t, s.take(k), g, l).1 is Err,
    ensures
        qed_group_keys(t, s, g, l) == qed_group_keys(t, s.take(k), g, l),
    decreases s.len() - k,
{
    if k < s.len() {
        assert(s.take(k + 1).drop_last() =~= s.take(k));
        lemma_group_keys_err(t, s, g, l, k + 1);
    } else {
        assert(s.take(k) =~= s);
    }
}

proof fn lemma_functions_err(t: Tables, s: Seq<SpecExpr>, g: Seq<SpecQualifiedField>, l: Seq<SpecQualifiedField>, k: int)
    requires
        0 <= k <= s.len(),
        qed_functions(t, s.take(k), g, l).1 is Err,
    ensures
        qed_functions(t, s, g, l) == qed_functions(t, s.take(k), g, l),
    decreases s.len() - k,
{
    if k < s.len() {
        assert(s.take(k + 1).drop_last() =~= s.take(k));
        lemma_functions_err(t, s, g, l, k + 1);
    } else {
        assert(s.take(k) =~= s);
    }
}

proof fn lemma_rels_err(t: Tables, s: Seq<SpecPlan>, g: Seq<SpecQualifiedField>, k: int)
    requires
        0 <= k <= s.len(),
        qed_rels(t, s.take(k), g).1 is Err,
    ensures
        qed_rels(t, s, g) == qed_rels(t, s.take(k), g),
    decreases s.len() - k,
{
    if k < s.len() {
        assert(s.take(k + 1).drop_last() =~= s.take(k));
        lemma_rels_err(t, s, g, k + 1);
    } else {
        assert(s.take(k) =~= s);
    }
}

impl QedSerializer {
    /// One key of an aggregate: a plain column or a function call, under at most one alias.
    fn serialize_group_key(&mut self, e: &Expr, g: &Vec<QualifiedField>, l: &Vec<QualifiedField>) -> (r: Result<
        Json,
        QedError,
    >)
        ensures
            (final(self)@, view_json_result(r)) == qed_group_key(old(self)@, e@, view_fields(g@), view_fields(l@)),
        decreases e, 2nat,
    {
        let inner: &Expr = match e {
            Expr::Alias { expr, .. } => expr,
            _ => e,
        };
        assert(inner@ == unaliased(e@));
        match inner {
            Expr::Column(_) => self.serialize_expr(inner, g, l),
            Expr::ScalarFunction { .. } => self.serialize_expr(inner, g, l),
            _ => Err(QedError::UnsupportedExpr(prefixed("Unsupported group key: ", &expr_debug_of(inner)))),
        }
    }

    /// The keys of an aggregate, in order.
    #[verifier::loop_isolation(false)]
    fn serialize_group_keys(&mut self, s: &Vec<Expr>, g: &Vec<QualifiedField>, l: &Vec<QualifiedField>) -> (r: Result<
        Vec<Json>,
        QedError,
    >)
        ensures
            (final(self)@, view_jsons_result(r)) == qed_group_keys(old(self)@, view_exprs(s@), view_fields(g@), view_fields(l@)),
        decreases s, 1nat,
    {
        let ghost vs = view_exprs(s@);
        let ghost t0 = self@;
        proof { lemma_view_exprs(s@); }
        let mut out: Vec<Json> = Vec::new();
        let mut i: usize = 0;
        assert(vs.take(0) =~= Seq::<SpecExpr>::empty());
        assert(view_jsons(out@) =~= Seq::<SpecJson>::empty());
        while i < s.len()
            invariant
                i <= s@.len(),
                vs.len() == s@.len(),
                qed_group_keys(t0, vs.take(i as int), view_fields(g@), view_fields(l@)) == (
                    self@,
                    Ok::<Seq<SpecJson>, SpecQedError>(view_jsons(out@)),
                ),
            decreases s.len() - i,
        {
            proof {
                assert(decreases_to!(s => s[i as int]));
                let t = vs.take(i + 1);
                assert(t.drop_last() =~= vs.take(i as int));
                assert(t.last() == vs[i as int]);
            }
            match self.serialize_group_key(&s[i], g, l) {
                Err(x) => {
                    proof { lemma_group_keys_err(t0, vs, view_fields(g@), view_fields(l@), i + 1); }
                    return Err(x);
                },
                Ok(v) => {
                    let ghost prev = out@;
                    out.push(v);
                    assert(out@.drop_last() =~= prev);
                },
            }
            i += 1;
        }
        assert(vs.take(vs.len() as int) =~= vs);
        Ok(out)
    }

    /// One aggregate call of an aggregate, under at most one alias.
    #[verifier::rlimit(50)]
    fn serialize_function(&mut self, e: &Expr, g: &Vec<QualifiedField>, l: &Vec<QualifiedField>) -> (r: Result<
        Json,
        QedError,
    >)
        ensures
            (final(self)@, view_json_result(r)) == qed_function(old(self)@, e@, view_fields(g@), view_fields(l@)),
        decreases e, 2nat,
    {
        let inner: &Expr = match e {
            Expr::Alias { expr, .. } => expr,
            _ => e,
        };
        assert(inner@ == unaliased(e@));
        match inner {
            Expr::AggregateFunction { func, params } => {
                assert(inner@ == SpecExpr::AggregateFunction { func: func@, params: crate::plan::view_params(*params) });
                let args = match self.serialize_exprs(&params.args, g, l) {
                    Err(x) => {
                        return Err(x);
                    },
                    Ok(v) => v,
                };
                Ok(aggregate_node_of(func.name.clone(), args, params.distinct, callee_type_of(&func.callee)))
            },
            _ => Err(QedError::UnsupportedExpr(prefixed("Non-aggregate in aggr_expr: ", &expr_debug_of(inner)))),
        }
    }

    /// The aggregate calls of an aggregate, in order.
    #[verifier::loop_isolation(false)]
    fn serialize_functions(&mut self, s: &Vec<Expr>, g: &Vec<QualifiedField>, l: &Vec<QualifiedField>) -> (r: Result<
        Vec<Json>,
        QedError,
    >)
        ensures
            (final(self)@, view_jsons_result(r)) == qed_functions(old(self)@, view_exprs(s@), view_fields(g@), view_fields(l@)),
        decreases s, 1nat,
    {
        let ghost vs = view_exprs(s@);
        let ghost t0 = self@;
        proof { lemma_view_exprs(s@); }
        let mut out: Vec<Json> = Vec::new();
        let mut i: usize = 0;
        assert(vs.take(0) =~= Seq::<SpecExpr>::empty());
        assert(view_jsons(out@) =~= Seq::<SpecJson>::empty());
        while i < s.len()
            invariant
                i <= s@.len(),
                vs.len() == s@.len(),
                qed_functions(t0, vs.take(i as int), view_fields(g@), view_fields(l@)) == (
                    self@,
                    Ok::<Seq<SpecJson>, SpecQedError>(view_jsons(out@)),
                ),
            decreases s.len() - i,
        {
            proof {
                assert(decreases_to!(s => s[i as int]));
                let t = vs.take(i + 1);
                assert(t.drop_last() =~= vs.take(i as int));
                assert(t.last() == vs[i as int]);
            }
            match self.serialize_function(&s[i], g, l) {
                Err(x) => {
                    proof { lemma_functions_err(t0, vs, view_fields(g@), view_fields(l@), i + 1); }
                    return Err(x);
                },
                Ok(v) => {
                    let ghost prev = out@;
                    out.push(v);
                    assert(out@.drop_last() =~= prev);
                },
            }
            i += 1;
        }
        assert(vs.take(vs.len() as int) =~= vs);
        Ok(out)
    }

    fn serialize_aggregate(&mut self, p: &Plan, g: &Vec<QualifiedField>) -> (r: Result<(Json, Vec<QualifiedField>), QedError>)
        requires
            p@ is Aggregate,
        ensures
            (final(self)@, view_rel_result(r)) == qed_rel(old(self)@, p@, view_fields(g@)),
        decreases p, 0nat,
    {
        match p {
            Plan::Aggregate { input, group_exprs, aggr_exprs, schema } => {
                let (sj, cols) = match self.serialize_rel(input, g) {
                    Err(x) => {
                        return Err(x);
                    },
                    Ok(v) => v,
                };
                let keys = match self.serialize_group_keys(group_exprs, g, &cols) {
                    Err(x) => {
                        return Err(x);
                    },
                    Ok(v) => v,
                };
                let fs = match self.serialize_functions(aggr_exprs, g, &cols) {
                    Err(x) => {
                        return Err(x);
                    },
                    Ok(v) => v,
                };
                let ghost kv = view_jsons(keys@);
                let ghost fv = view_jsons(fs@);
                let ghost sv = sj@;
                let mut m: Vec<(String, Json)> = Vec::new();
                member(&mut m, "keys", Json::Arr(keys));
                member(&mut m, "function", Json::Arr(fs));
                member(&mut m, "source", sj);
                assert(view_members(m@) =~= seq![
                    ("keys"@, SpecJson::Arr(kv)),
                    ("function"@, SpecJson::Arr(fv)),
                    ("source"@, sv),
                ]) by {
                    assert(view_members(Seq::<(String, Json)>::empty()) =~= Seq::empty());
                }
                Ok((wrapped("group", m), crate::plan::clone_fields(schema)))
            },
            _ => Err(QedError::UnsupportedPlan(owned(""))),
        }
    }

    /// Serializes the inputs of a union, in order.
    #[verifier::loop_isolation(false)]
    fn serialize_rels(&mut self, s: &Vec<Plan>, g: &Vec<QualifiedField>) -> (r: Result<
        Vec<(Json, Vec<QualifiedField>)>,
        QedError,
    >)
        ensures
            (final(self)@, view_pairs_result(r)) == qed_rels(old(self)@, view_plans(s@), view_fields(g@)),
        decreases s, 1nat,
    {
        let ghost vs = view_plans(s@);
        let ghost t0 = self@;
        proof { lemma_view_plans(s@); }
        let mut out: Vec<(Json, Vec<QualifiedField>)> = Vec::new();
        let mut i: usize = 0;
        assert(vs.take(0) =~= Seq::<SpecPlan>::empty());
        assert(view_pairs(out@) =~= Seq::<(SpecJson, Seq<SpecQualifiedField>)>::empty());
        while i < s.len()
            invariant
                i <= s@.len(),
                vs.len() == s@.len(),
                qed_rels(t0, vs.take(i as int), view_fields(g@)) == (
                    self@,
                    Ok::<Seq<(SpecJson, Seq<SpecQualifiedField>)>, SpecQedError>(view_pairs(out@)),
                ),
            decreases s.len() - i,
        {
            proof {
                assert(decreases_to!(s => s[i as int]));
                let t = vs.take(i + 1);
                assert(t.drop_last() =~= vs.take(i as int));
                assert(t.last() == vs[i as int]);
            }
            match self.serialize_rel(&s[i], g) {
                Err(x) => {
                    proof { lemma_rels_err(t0, vs, view_fields(g@), i + 1); }
                    return Err(x);
                },
                Ok(v) => {
                    let ghost prev = out@;
                    out.push(v);
                    assert(view_pairs(out@) =~= view_pairs(prev).push((v.0@, view_fields(v.1@))));
                },
            }
            i += 1;
        }
        assert(vs.take(vs.len() as int) =~= vs);
        Ok(out)
    }

    fn serialize_union(&mut self, p: &Plan, g: &Vec<QualifiedField>) -> (r: Result<(Json, Vec<QualifiedField>), QedError>)
        requires
            p@ is Union,
        ensures
            (final(self)@, view_rel_result(r)) == qed_rel(old(self)@, p@, view_fields(g@)),
        decreases p, 0nat,
    {
        match p {
            Plan::Union { inputs, .. } => {
                let pairs = match self.serialize_rels(inputs, g) {
                    Err(x) => {
                        return Err(x);
                    },
                    Ok(v) => v,
                };
                let ghost pv = view_pairs(pairs@);
                let mut js: Vec<Json> = Vec::new();
                let mut i: usize = 0;
                while i < pairs.len()
                    invariant
                        i <= pairs@.len(),
                        pv == view_pairs(pairs@),
                        js@.len() == i,
                        forall|k: int| 0 <= k < i ==> view_json(#[trigger] js@[k]) == pv[k].0,
                    decreases pairs.len() - i,
                {
                    js.push(pairs[i].0.deep_copy());
                    i += 1;
                }
                proof { lemma_view_jsons(js@); }
                let ghost jv = view_jsons(js@);
                assert(jv =~= pv.map_values(|v: (SpecJson, Seq<SpecQualifiedField>)| v.0));
                let cols = if pairs.len() > 0 { crate::plan::clone_fields(&pairs[0].1) } else { Vec::new() };
                assert(view_fields(cols@) == (if pv.len() > 0 { pv[0].1 } else { Seq::<SpecQualifiedField>::empty() })) by {
                    if pv.len() == 0 {
                        assert(view_fields(cols@) =~= Seq::<SpecQualifiedField>::empty());
                    }
                }
                let mut m: Vec<(String, Json)> = Vec::new();
                member(&mut m, "union", Json::Arr(js));
                assert(view_members(m@) =~= seq![("union"@, SpecJson::Arr(jv))]) by {
                    assert(view_members(Seq::<(String, Json)>::empty()) =~= Seq::empty());
                }
                Ok((Json::Obj(m), cols))
            },
            _ => Err(QedError::UnsupportedPlan(owned(""))),
        }
    }

    fn serialize_sort(&mut self, p: &Plan, g: &Vec<QualifiedField>) -> (r: Result<(Json, Vec<QualifiedField>), QedError>)
        requires
            p@ is Sort,
        ensures
            (final(self)@, view_rel_result(r)) == qed_rel(old(self)@, p@, view_fields(g@)),
        decreases p, 0nat,
    {
        match p {
            Plan::Sort { exprs, input, .. } => {
                let (sj, cols) = match self.serialize_rel(input, g) {
                    Err(x) => {
                        return Err(x);
                    },
                    Ok(v) => v,
                };
                let coll = match collation_of(exprs, g.len(), &cols) {
                    Err(x) => {
                        return Err(x);
                    },
                    Ok(c) => c,
                };
                Ok((sort_node_of(coll, sj, Json::Null, Json::Null), cols))
            },
            _ => Err(QedError::UnsupportedPlan(owned(""))),
        }
    }

    /// An optional offset or limit; `null` when absent.
    fn serialize_bound(&mut self, b: &Option<Box<Expr>>, g: &Vec<QualifiedField>, l: &Vec<QualifiedField>) -> (r: Result<
        Json,
        QedError,
    >)
        ensures
            (final(self)@, view_json_result(r)) == qed_bound(
                old(self)@,
                crate::plan::view_opt_expr(*b),
                view_fields(g@),
                view_fields(l@),
            ),
        decreases b, 1nat,
    {
        match b {
            Some(x) => self.serialize_expr(x, g, l),
            None => Ok(Json::Null),
        }
    }

    /// A limit is a sort node: with the collation of a sort right below it, else with none.
    fn serialize_limit(&mut self, p: &Plan, g: &Vec<QualifiedField>) -> (r: Result<(Json, Vec<QualifiedField>), QedError>)
        requires
            p@ is Limit,
        ensures
            (final(self)@, view_rel_result(r)) == qed_rel(old(self)@, p@, view_fields(g@)),
        decreases p, 0nat,
    {
        match p {
            Plan::Limit { skip, fetch, input } => {
                let (sj, cols, coll) = match &**input {
                    Plan::Sort { exprs, input: si, .. } => {
                        assert(crate::plan::view_plan(**input) matches SpecPlan::Sort { exprs: ve, input: vi, .. }
                            && ve == view_sorts(exprs@) && *vi == crate::plan::view_plan(**si));
                        let (sj, cols) = match self.serialize_rel(si, g) {
                            Err(x) => {
                                return Err(x);
                            },
                            Ok(v) => v,
                        };
                        let coll = match collation_of(exprs, g.len(), &cols) {
                            Err(x) => {
                                return Err(x);
                            },
                            Ok(c) => c,
                        };
                        (sj, cols, coll)
                    },
                    _ => {
                        let (sj, cols) = match self.serialize_rel(input, g) {
                            Err(x) => {
                                return Err(x);
                            },
                            Ok(v) => v,
                        };
                        let coll = no_jsons();
                        assert(crate::qed::semantics::qed_collation(Seq::empty(), g@.len(), view_fields(cols@))
                            == Ok::<Seq<SpecJson>, SpecQedError>(Seq::empty()));
                        (sj, cols, coll)
                    },
                };
                let off = match self.serialize_bound(skip, g, &cols) {
                    Err(x) => {
                        return Err(x);
                    },
                    Ok(v) => v,
                };
                let lim = match self.serialize_bound(fetch, g, &cols) {
                    Err(x) => {
                        return Err(x);
                    },
                    Ok(v) => v,
                };
                Ok((sort_node_of(coll, sj, off, lim), cols))
            },
            _ => Err(QedError::UnsupportedPlan(owned(""))),
        }
    }
}

/// The schema entry of a table in the output.
#[derive(Debug)]
pub struct QedSchema {
    pub name: String,
    pub fields: Vec<String>,
    pub types: Vec<String>,
    pub nullable: Vec<bool>,
    pub key: Vec<Vec<usize>>,
    pub guaranteed: Vec<Json>,
}

impl View for QedSchema {
    type V = SpecQedSchema;

    open spec fn view(&self) -> SpecQedSchema {
        SpecQedSchema {
            name: self.name@,
            fields: self.fields@.map_values(|f: String| f@),
            types: self.types@.map_values(|t: String| t@),
            nullable: self.nullable@,
            key: self.key@.map_values(|k: Vec<usize>| k@),
            guaranteed: view_jsons(self.guaranteed@),
        }
    }
}

/// What serializing a pair of plans produces: the schemas of the tables they read, and
/// the two queries.
#[derive(Debug)]
pub struct QedOutput {
    pub schemas: Vec<QedSchema>,
    pub queries: Vec<Json>,
}

pub open spec fn view_schemas(s: Seq<QedSchema>) -> Seq<SpecQedSchema> {
    s.map_values(|x: QedSchema| x@)
}

pub open spec fn view_output_result(r: Result<QedOutput, QedError>) -> Result<(Seq<SpecQedSchema>, Seq<SpecJson>), SpecQedError> {
    match r {
        Ok(o) => Ok((view_schemas(o.schemas@), view_jsons(o.queries@))),
        Err(e) => Err(e@),
    }
}

/// The schema entry of one table.
fn schema_entry(t: &TableInfo) -> (r: QedSchema)
    ensures
        r@ == qed_schema(view_table(*t)),
{
    let ghost vf = view_fields(t.fields@);
    let mut fields: Vec<String> = Vec::new();
    let mut types: Vec<String> = Vec::new();
    let mut nullable: Vec<bool> = Vec::new();
    let mut i: usize = 0;
    while i < t.fields.len()
        invariant
            i <= t.fields@.len(),
            vf == view_fields(t.fields@),
            vf.len() == t.fields@.len(),
            fields@.len() == i,
            types@.len() == i,
            nullable@.len() == i,
            forall|k: int| 0 <= k < i ==> (#[trigger] fields@[k])@ == vf[k].name,
            forall|k: int| 0 <= k < i ==> (#[trigger] types@[k])@ == qed_type(vf[k].data_type),
            forall|k: int| 0 <= k < i ==> #[trigger] nullable@[k] == vf[k].nullable,
        decreases t.fields.len() - i,
    {
        fields.push(t.fields[i].name.clone());
        types.push(qed_type_of(&t.fields[i].data_type));
        nullable.push(t.fields[i].nullable);
        i += 1;
    }
    let r = QedSchema {
        name: t.name.clone(),
        fields,
        types,
        nullable,
        key: Vec::new(),
        guaranteed: no_jsons(),
    };
    assert(r@.fields =~= vf.map_values(|f: SpecQualifiedField| f.name));
    assert(r@.types =~= vf.map_values(|f: SpecQualifiedField| qed_type(f.data_type)));
    assert(r@.nullable =~= vf.map_values(|f: SpecQualifiedField| f.nullable));
    assert(r@.key =~= Seq::<Seq<usize>>::empty());
    r
}

impl QedSerializer {
    /// The schema entries of the tables met so far, in order.
    pub fn extract_schemas(&self) -> (r: Vec<QedSchema>)
        ensures
            view_schemas(r@) == self@.map_values(|tb: (Seq<char>, Seq<SpecQualifiedField>)| qed_schema(tb)),
    {
        let mut out: Vec<QedSchema> = Vec::new();
        let mut i: usize = 0;
        while i < self.tables.len()
            invariant
                i <= self.tables@.len(),
                out@.len() == i,
                forall|k: int| 0 <= k < i ==> (#[trigger] out@[k])@ == qed_schema(view_table(self.tables@[k])),
            decreases self.tables.len() - i,
        {
            out.push(schema_entry(&self.tables[i]));
            i += 1;
        }
        assert(view_schemas(out@) =~= self@.map_values(|tb: (Seq<char>, Seq<SpecQualifiedField>)| qed_schema(tb)));
        out
    }

    /// Serializes a pair of plans (before and after a rewrite) from a fresh set of tables.
    /// An expression in either plan with a binary operator that the format has no name for
    /// gives `QedError::UnsupportedOperator` (see `serialize_expr`).
    pub fn serialize_plan_pair(&mut self, before: &Plan, after: &Plan) -> (r: Result<QedOutput, QedError>)
        ensures
            final(self)@ == qed_pair_run(before@, after@).0,
            view_output_result(r) == qed_pair(before@, after@),
    {
        self.tables.clear();
        assert(self@ =~= Seq::<(Seq<char>, Seq<SpecQualifiedField>)>::empty());
        let none: Vec<QualifiedField> = Vec::new();
        assert(view_fields(none@) =~= Seq::<SpecQualifiedField>::empty());
        let (bj, _) = match self.serialize_rel(before, &none) {
            Err(x) => {
                return Err(x);
            },
            Ok(v) => v,
        };
        let (aj, _) = match self.serialize_rel(after, &none) {
            Err(x) => {
                return Err(x);
            },
            Ok(v) => v,
        };
        let schemas = self.extract_schemas();
        Ok(QedOutput { schemas, queries: jsons2(bj, aj) })
    }
}

/// A backend that turns rewrite rules into another tool's input.
pub trait Verifier {
    /// Serializes the two sides of a rule.
    fn serialize_rule<R: RewriteRule>(&mut self, rule: &R) -> (r: Result<QedOutput, QedError>);
}

impl Verifier for QedSerializer {
    fn serialize_rule<R: RewriteRule>(&mut self, rule: &R) -> (r: Result<QedOutput, QedError>)
        ensures
            final(self)@ == qed_pair_run(rule.spec_from(), rule.spec_to()).0,
            view_output_result(r) == qed_pair(rule.spec_from(), rule.spec_to()),
    {
        let from = rule.from();
        let to = rule.to();
        self.serialize_plan_pair(&from.plan, &to.plan)
    }
}

} // verus!
