//! Expressions, columns and fields as the engine's `Debug` writes them. Matching errors
//! that name a concrete item carry this rendering of it.
use vstd::prelude::*;
use crate::ast::opaque::{SpecType, Type};
use crate::naming::{schema_name, schema_name_of};
use crate::plan::{
    field_column, lemma_view_arms, lemma_view_exprs, view_arms, view_expr, view_exprs, view_like, view_opt_expr,
    Callee, Column, Expr, Operator, QualifiedField, SpecCallee, SpecColumn, SpecExpr, SpecOperator,
    SpecQualifiedField, SpecWhenThen, UnaryOp, WhenThen,
};
use crate::text::{debug_char, debug_string, owned, push_char, push_debug_string};

verus! {

broadcast use vstd::std_specs::vec::group_vec_axioms;

pub open spec fn bool_text(b: bool) -> Seq<char> {
    if b { "true"@ } else { "false"@ }
}

/// An optional table reference: a qualifier is a bare table name.
pub open spec fn table_ref_debug(q: Option<Seq<char>>) -> Seq<char> {
    match q {
        Some(t) => "Some(Bare { table: "@ + debug_string(t) + " })"@,
        None => "None"@,
    }
}

pub open spec fn column_debug(c: SpecColumn) -> Seq<char> {
    "Column { relation: "@ + table_ref_debug(c.relation) + ", name: "@ + debug_string(c.name) + " }"@
}

/// A schema field, without metadata or dictionary properties.
pub open spec fn field_debug(f: SpecQualifiedField) -> Seq<char> {
    "Field { name: "@ + debug_string(f.name) + ", data_type: "@ + f.data_type + ", nullable: "@ + bool_text(f.nullable)
        + ", dict_id: 0, dict_is_ordered: false, metadata: {} }"@
}

/// A source field together with its column, as a pair.
pub open spec fn field_item_debug(f: SpecQualifiedField) -> Seq<char> {
    "("@ + field_debug(f) + ", "@ + column_debug(field_column(f)) + ")"@
}

pub open spec fn op_debug(op: SpecOperator) -> Seq<char> {
    match op {
        SpecOperator::Eq => "Eq"@,
        SpecOperator::NotEq => "NotEq"@,
        SpecOperator::Lt => "Lt"@,
        SpecOperator::LtEq => "LtEq"@,
        SpecOperator::Gt => "Gt"@,
        SpecOperator::GtEq => "GtEq"@,
        SpecOperator::Plus => "Plus"@,
        SpecOperator::Minus => "Minus"@,
        SpecOperator::Multiply => "Multiply"@,
        SpecOperator::Divide => "Divide"@,
        SpecOperator::Modulo => "Modulo"@,
        SpecOperator::And => "And"@,
        SpecOperator::Or => "Or"@,
        SpecOperator::Other(t) => t,
    }
}

pub open spec fn type_debug(t: SpecType) -> Seq<char> {
    match t {
        SpecType::Boolean => "Boolean"@,
        SpecType::Generic { id } => "Generic { id: "@ + debug_string(id) + " }"@,
    }
}

/// The engine type an abstract type stands for.
pub open spec fn engine_type_debug(t: SpecType) -> Seq<char> {
    match t {
        SpecType::Boolean => "Boolean"@,
        SpecType::Generic { .. } => "Binary"@,
    }
}

pub open spec fn types_debug(s: Seq<SpecType>, engine: bool) -> Seq<char>
    decreases s.len(),
{
    if s.len() == 0 {
        Seq::empty()
    } else {
        let last = if engine { engine_type_debug(s.last()) } else { type_debug(s.last()) };
        if s.len() == 1 { last } else { types_debug(s.drop_last(), engine) + ", "@ + last }
    }
}

/// The function object of a symbol or an abstract function.
pub open spec fn udf_debug(kind: Seq<char>, name: Seq<char>, inputs: Seq<SpecType>, ret: SpecType) -> Seq<char> {
    "ScalarUDF { inner: "@ + kind + " { name: "@ + debug_string(name) + ", input_types: ["@ + types_debug(inputs, false)
        + "], return_type: "@ + type_debug(ret) + ", signature: Signature { type_signature: Exact(["@
        + types_debug(inputs, true) + "]), volatility: Immutable } } }"@
}

/// A character as `Debug` writes it inside single quotes.
pub open spec fn char_debug(c: char) -> Seq<char> {
    if c == '\'' { seq!['\\', '\''] } else if c == '"' { seq!['"'] } else { debug_char(c) }
}

pub open spec fn opt_char_debug(c: Option<char>) -> Seq<char> {
    match c {
        Some(ch) => "Some('"@ + char_debug(ch) + "')"@,
        None => "None"@,
    }
}

/// An expression as the engine's `Debug` writes it. Calls of the engine's own functions,
/// subqueries and expressions the model keeps only by name are given by their name.
pub open spec fn expr_debug(e: SpecExpr) -> Seq<char>
    decreases e,
{
    match e {
        SpecExpr::Column(c) => "Column("@ + column_debug(c) + ")"@,
        SpecExpr::OuterReferenceColumn(t, c) => "OuterReferenceColumn("@ + t + ", "@ + column_debug(c) + ")"@,
        SpecExpr::Literal(l) => "Literal("@ + l.debug + ", None)"@,
        SpecExpr::Alias { expr, relation, name } =>
            "Alias(Alias { expr: "@ + expr_debug(*expr) + ", relation: "@ + table_ref_debug(relation) + ", name: "@
                + debug_string(name) + ", metadata: None })"@,
        SpecExpr::Binary { left, op, right } =>
            "BinaryExpr(BinaryExpr { left: "@ + expr_debug(*left) + ", op: "@ + op_debug(op) + ", right: "@
                + expr_debug(*right) + " })"@,
        SpecExpr::ScalarFunction { func, args } => match func.callee {
            SpecCallee::Pattern(sig) =>
                "ScalarFunction(ScalarFunction { func: "@ + udf_debug("ScalarPattern"@, func.name, sig.input_types, sig.return_type)
                    + ", args: ["@ + exprs_debug(args) + "] })"@,
            SpecCallee::Abstract(sig) =>
                "ScalarFunction(ScalarFunction { func: "@ + udf_debug("Function"@, func.name, sig.input_types, sig.return_type)
                    + ", args: ["@ + exprs_debug(args) + "] })"@,
            SpecCallee::Builtin => schema_name(e),
        },
        SpecExpr::Unary(op, inner) => match op {
            UnaryOp::Not => "Not("@ + expr_debug(*inner) + ")"@,
            UnaryOp::IsNull => "IsNull("@ + expr_debug(*inner) + ")"@,
            UnaryOp::IsNotNull => "IsNotNull("@ + expr_debug(*inner) + ")"@,
            UnaryOp::Negative => "Negative("@ + expr_debug(*inner) + ")"@,
        },
        SpecExpr::Between { expr, negated, low, high } =>
            "Between(Between { expr: "@ + expr_debug(*expr) + ", negated: "@ + bool_text(negated) + ", low: "@
                + expr_debug(*low) + ", high: "@ + expr_debug(*high) + " })"@,
        SpecExpr::Case { operand, arms, else_expr } =>
            "Case(Case { expr: "@ + (match operand {
                Some(o) => "Some("@ + expr_debug(*o) + ")"@,
                None => "None"@,
            }) + ", when_then_expr: ["@ + arms_debug(arms) + "], else_expr: "@ + (match else_expr {
                Some(x) => "Some("@ + expr_debug(*x) + ")"@,
                None => "None"@,
            }) + " })"@,
        SpecExpr::Cast { expr, data_type, try_cast } =>
            (if try_cast { "TryCast(TryCast { expr: "@ } else { "Cast(Cast { expr: "@ }) + expr_debug(*expr)
                + ", data_type: "@ + data_type + " })"@,
        SpecExpr::InList { expr, list, negated } =>
            "InList(InList { expr: "@ + expr_debug(*expr) + ", list: ["@ + exprs_debug(list) + "], negated: "@
                + bool_text(negated) + " })"@,
        SpecExpr::Like(l) => "Like("@ + like_debug(
            l.negated,
            expr_debug(*l.expr),
            expr_debug(*l.pattern),
            l.escape_char,
            l.case_insensitive,
        ) + ")"@,
        SpecExpr::SimilarTo(l) => "SimilarTo("@ + like_debug(
            l.negated,
            expr_debug(*l.expr),
            expr_debug(*l.pattern),
            l.escape_char,
            l.case_insensitive,
        ) + ")"@,
        _ => schema_name(e),
    }
}

/// The fields of a pattern match, from the renderings of its operands.
pub open spec fn like_debug(negated: bool, expr: Seq<char>, pattern: Seq<char>, escape: Option<char>, ci: bool) -> Seq<
    char,
> {
    "Like { negated: "@ + bool_text(negated) + ", expr: "@ + expr + ", pattern: "@ + pattern + ", escape_char: "@
        + opt_char_debug(escape) + ", case_insensitive: "@ + bool_text(ci) + " }"@
}

/// A list of expressions, separated by commas.
pub open spec fn exprs_debug(s: Seq<SpecExpr>) -> Seq<char>
    decreases s,
{
    if s.len() == 0 {
        Seq::empty()
    } else if s.len() == 1 {
        expr_debug(s[0])
    } else {
        exprs_debug(s.drop_last()) + ", "@ + expr_debug(s.last())
    }
}

/// The arms of a `CASE`, each a pair, separated by commas.
pub open spec fn arms_debug(s: Seq<SpecWhenThen>) -> Seq<char>
    decreases s,
{
    if s.len() == 0 {
        Seq::empty()
    } else {
        let arm = "("@ + expr_debug(s.last().condition) + ", "@ + expr_debug(s.last().result) + ")"@;
        if s.len() == 1 { arm } else { arms_debug(s.drop_last()) + ", "@ + arm }
    }
}

/// An output column together with the expression that computes it, as a pair.
pub open spec fn output_item_debug(c: SpecColumn, e: SpecExpr) -> Seq<char> {
    "("@ + column_debug(c) + ", "@ + expr_debug(e) + ")"@
}

/// The item at `i` of a partition: the expression alone, or paired with its output column
/// when the items are output expressions.
pub open spec fn item_debug(cols: Seq<SpecColumn>, items: Seq<SpecExpr>, i: int) -> Seq<char> {
    if cols.len() == 0 { expr_debug(items[i]) } else { output_item_debug(cols[i], items[i]) }
}

} // verus!

verus! {

fn app(s: &mut String, t: &str)
    ensures
        final(s)@ == old(s)@ + t@,
{
    s.append(t);
}

fn push_bool(s: &mut String, b: bool)
    ensures
        final(s)@ == old(s)@ + bool_text(b),
{
    if b { app(s, "true") } else { app(s, "false") }
}

fn push_table_ref(s: &mut String, q: &Option<String>)
    ensures
        final(s)@ == old(s)@ + table_ref_debug(crate::plan::opt_str(*q)),
{
    match q {
        Some(t) => {
            app(s, "Some(Bare { table: ");
            push_debug_string(s, t.as_str());
            app(s, " })");
        },
        None => app(s, "None"),
    }
}

fn push_column(s: &mut String, c: &Column)
    ensures
        final(s)@ == old(s)@ + column_debug(c@),
{
    app(s, "Column { relation: ");
    push_table_ref(s, &c.relation);
    app(s, ", name: ");
    push_debug_string(s, c.name.as_str());
    app(s, " }");
}

/// A column as the engine's `Debug` writes it.
pub fn column_debug_of(c: &Column) -> (r: String)
    ensures
        r@ == column_debug(c@),
{
    let mut s = String::new();
    push_column(&mut s, c);
    assert(s@ =~= column_debug(c@));
    s
}

/// A source field with its column, as the engine's `Debug` writes the pair.
pub fn field_item_debug_of(f: &QualifiedField) -> (r: String)
    ensures
        r@ == field_item_debug(f@),
{
    let mut s = owned("(Field { name: ");
    push_debug_string(&mut s, f.name.as_str());
    app(&mut s, ", data_type: ");
    app(&mut s, f.data_type.as_str());
    app(&mut s, ", nullable: ");
    push_bool(&mut s, f.nullable);
    app(&mut s, ", dict_id: 0, dict_is_ordered: false, metadata: {} }, Column { relation: ");
    push_table_ref(&mut s, &f.qualifier);
    app(&mut s, ", name: ");
    push_debug_string(&mut s, f.name.as_str());
    app(&mut s, " })");
    proof {
        reveal_strlit("(Field { name: ");
        reveal_strlit("(");
        reveal_strlit("Field { name: ");
        reveal_strlit(", dict_id: 0, dict_is_ordered: false, metadata: {} }, Column { relation: ");
        reveal_strlit(", dict_id: 0, dict_is_ordered: false, metadata: {} }");
        reveal_strlit(", ");
        reveal_strlit("Column { relation: ");
        reveal_strlit(" })");
        reveal_strlit(" }");
        reveal_strlit(")");
    }
    assert(s@ =~= field_item_debug(f@));
    s
}

fn push_op(s: &mut String, op: &Operator)
    ensures
        final(s)@ == old(s)@ + op_debug(op@),
{
    match op {
        Operator::Eq => app(s, "Eq"),
        Operator::NotEq => app(s, "NotEq"),
        Operator::Lt => app(s, "Lt"),
        Operator::LtEq => app(s, "LtEq"),
        Operator::Gt => app(s, "Gt"),
        Operator::GtEq => app(s, "GtEq"),
        Operator::Plus => app(s, "Plus"),
        Operator::Minus => app(s, "Minus"),
        Operator::Multiply => app(s, "Multiply"),
        Operator::Divide => app(s, "Divide"),
        Operator::Modulo => app(s, "Modulo"),
        Operator::And => app(s, "And"),
        Operator::Or => app(s, "Or"),
        Operator::Other(t) => app(s, t.as_str()),
    }
}

fn push_type(s: &mut String, t: &Type, engine: bool)
    ensures
        final(s)@ == old(s)@ + (if engine { engine_type_debug(t@) } else { type_debug(t@) }),
{
    match t {
        Type::Boolean => app(s, "Boolean"),
        Type::Generic { id } => if engine {
            app(s, "Binary")
        } else {
            app(s, "Generic { id: ");
            push_debug_string(s, id.as_str());
            app(s, " }");
        },
    }
}

fn push_types(s: &mut String, ts: &Vec<Type>, engine: bool)
    ensures
        final(s)@ == old(s)@ + types_debug(crate::ast::pattern::view_types(ts@), engine),
{
    let ghost v = crate::ast::pattern::view_types(ts@);
    let ghost start = s@;
    assert(v.len() == ts@.len() && forall|k: int| 0 <= k < ts@.len() ==> #[trigger] v[k] == ts@[k]@);
    let mut i: usize = 0;
    while i < ts.len()
        invariant
            i <= ts@.len(),
            v == crate::ast::pattern::view_types(ts@),
            v.len() == ts@.len(),
            forall|k: int| 0 <= k < ts@.len() ==> #[trigger] v[k] == ts@[k]@,
            s@ == start + types_debug(v.take(i as int), engine),
        decreases ts.len() - i,
    {
        if i > 0 {
            app(s, ", ");
        }
        push_type(s, &ts[i], engine);
        proof {
            let u = v.take(i + 1);
            assert(u.drop_last() =~= v.take(i as int));
            assert(u.last() == ts@[i as int]@);
            if i == 0 {
                assert(v.take(0).len() == 0);
            }
        }
        i += 1;
    }
    assert(v.take(ts@.len() as int) =~= v);
}

fn push_udf(s: &mut String, kind: &str, name: &String, inputs: &Vec<Type>, ret: &Type)
    ensures
        final(s)@ == old(s)@ + udf_debug(kind@, name@, crate::ast::pattern::view_types(inputs@), ret@),
{
    let ghost start = s@;
    app(s, "ScalarUDF { inner: ");
    app(s, kind);
    app(s, " { name: ");
    push_debug_string(s, name.as_str());
    app(s, ", input_types: [");
    push_types(s, inputs, false);
    app(s, "], return_type: ");
    push_type(s, ret, false);
    app(s, ", signature: Signature { type_signature: Exact([");
    push_types(s, inputs, true);
    app(s, "]), volatility: Immutable } } }");
    assert(s@ =~= start + udf_debug(kind@, name@, crate::ast::pattern::view_types(inputs@), ret@));
}

fn push_opt_char(s: &mut String, c: Option<char>)
    ensures
        final(s)@ == old(s)@ + opt_char_debug(c),
{
    match c {
        Some(ch) => {
            app(s, "Some('");
            if ch == '\'' {
                push_char(s, '\\');
                push_char(s, '\'');
                assert(char_debug(ch) =~= seq!['\\', '\'']);
            } else if ch == '"' {
                push_char(s, '"');
                assert(char_debug(ch) =~= seq!['"']);
            } else {
                let ghost before = s@;
                crate::text::push_debug_char(s, ch);
            }
            app(s, "')");
            assert(s@ =~= old(s)@ + opt_char_debug(c)) by {
                reveal_strlit("Some('");
                reveal_strlit("')");
            }
        },
        None => app(s, "None"),
    }
}

fn push_boxed_opt(s: &mut String, e: &Option<Box<Expr>>)
    ensures
        final(s)@ == old(s)@ + match view_opt_expr(*e) {
            Some(x) => "Some("@ + expr_debug(*x) + ")"@,
            None => "None"@,
        },
    decreases e,
{
    match e {
        Some(x) => {
            app(s, "Some(");
            let t = expr_debug_of(x);
            app(s, t.as_str());
            app(s, ")");
        },
        None => app(s, "None"),
    }
}

/// An expression as the engine's `Debug` writes it (see `expr_debug`).
#[verifier::rlimit(60)]
pub fn expr_debug_of(e: &Expr) -> (r: String)
    ensures
        r@ == expr_debug(e@),
    decreases e,
{
    let mut s = String::new();
    match e {
        Expr::Column(c) => {
            app(&mut s, "Column(");
            push_column(&mut s, c);
            app(&mut s, ")");
            assert(s@ =~= expr_debug(e@));
        },
        Expr::OuterReferenceColumn(t, c) => {
            app(&mut s, "OuterReferenceColumn(");
            app(&mut s, t.as_str());
            app(&mut s, ", ");
            push_column(&mut s, c);
            app(&mut s, ")");
            assert(s@ =~= expr_debug(e@));
        },
        Expr::Literal(l) => {
            app(&mut s, "Literal(");
            app(&mut s, l.debug.as_str());
            app(&mut s, ", None)");
            assert(s@ =~= expr_debug(e@));
        },
        Expr::Alias { expr, relation, name } => {
            app(&mut s, "Alias(Alias { expr: ");
            let t = expr_debug_of(expr);
            app(&mut s, t.as_str());
            app(&mut s, ", relation: ");
            push_table_ref(&mut s, relation);
            app(&mut s, ", name: ");
            push_debug_string(&mut s, name.as_str());
            app(&mut s, ", metadata: None })");
            assert(s@ =~= expr_debug(e@));
        },
        Expr::Binary { left, op, right } => {
            app(&mut s, "BinaryExpr(BinaryExpr { left: ");
            let l = expr_debug_of(left);
            app(&mut s, l.as_str());
            app(&mut s, ", op: ");
            push_op(&mut s, op);
            app(&mut s, ", right: ");
            let r = expr_debug_of(right);
            app(&mut s, r.as_str());
            app(&mut s, " })");
            assert(s@ =~= expr_debug(e@));
        },
        Expr::ScalarFunction { func, args } => match &func.callee {
            Callee::Pattern(sig) => {
                app(&mut s, "ScalarFunction(ScalarFunction { func: ");
                push_udf(&mut s, "ScalarPattern", &func.name, &sig.input_types, &sig.return_type);
                app(&mut s, ", args: [");
                let a = exprs_debug_of(args);
                app(&mut s, a.as_str());
                app(&mut s, "] })");
            },
            Callee::Abstract(sig) => {
                app(&mut s, "ScalarFunction(ScalarFunction { func: ");
                push_udf(&mut s, "Function", &func.name, &sig.input_types, &sig.return_type);
                app(&mut s, ", args: [");
                let a = exprs_debug_of(args);
                app(&mut s, a.as_str());
                app(&mut s, "] })");
            },
            Callee::Builtin => {
                return schema_name_of(e);
            },
        },
        Expr::Unary(op, inner) => {
            match op {
                UnaryOp::Not => app(&mut s, "Not("),
                UnaryOp::IsNull => app(&mut s, "IsNull("),
                UnaryOp::IsNotNull => app(&mut s, "IsNotNull("),
                UnaryOp::Negative => app(&mut s, "Negative("),
            }
            let t = expr_debug_of(inner);
            app(&mut s, t.as_str());
            app(&mut s, ")");
            assert(s@ =~= expr_debug(e@));
        },
        Expr::Between { expr, negated, low, high } => {
            app(&mut s, "Between(Between { expr: ");
            let t = expr_debug_of(expr);
            app(&mut s, t.as_str());
            app(&mut s, ", negated: ");
            push_bool(&mut s, *negated);
            app(&mut s, ", low: ");
            let l = expr_debug_of(low);
            app(&mut s, l.as_str());
            app(&mut s, ", high: ");
            let h = expr_debug_of(high);
            app(&mut s, h.as_str());
            app(&mut s, " })");
            assert(s@ =~= expr_debug(e@));
        },
        Expr::Case { operand, arms, else_expr } => {
            app(&mut s, "Case(Case { expr: ");
            push_boxed_opt(&mut s, operand);
            app(&mut s, ", when_then_expr: [");
            let a = arms_debug_of(arms);
            app(&mut s, a.as_str());
            app(&mut s, "], else_expr: ");
            push_boxed_opt(&mut s, else_expr);
            app(&mut s, " })");
            assert(s@ =~= expr_debug(e@));
        },
        Expr::Cast { expr, data_type, try_cast } => {
            if *try_cast {
                app(&mut s, "TryCast(TryCast { expr: ");
            } else {
                app(&mut s, "Cast(Cast { expr: ");
            }
            let t = expr_debug_of(expr);
            app(&mut s, t.as_str());
            app(&mut s, ", data_type: ");
            app(&mut s, data_type.as_str());
            app(&mut s, " })");
            assert(s@ =~= expr_debug(e@));
        },
        Expr::InList { expr, list, negated } => {
            app(&mut s, "InList(InList { expr: ");
            let t = expr_debug_of(expr);
            app(&mut s, t.as_str());
            app(&mut s, ", list: [");
            let a = exprs_debug_of(list);
            app(&mut s, a.as_str());
            app(&mut s, "], negated: ");
            push_bool(&mut s, *negated);
            app(&mut s, " })");
            assert(s@ =~= expr_debug(e@));
        },
        Expr::Like(l) => {
            assert(e@ == SpecExpr::Like(view_like(*l)));
            assert(view_like(*l).expr == Box::new(view_expr(*l.expr)));
            assert(view_like(*l).pattern == Box::new(view_expr(*l.pattern)));
            app(&mut s, "Like(");
            push_like(&mut s, l);
            app(&mut s, ")");
            assert(s@ =~= expr_debug(e@));
        },
        Expr::SimilarTo(l) => {
            assert(e@ == SpecExpr::SimilarTo(view_like(*l)));
            assert(view_like(*l).expr == Box::new(view_expr(*l.expr)));
            assert(view_like(*l).pattern == Box::new(view_expr(*l.pattern)));
            app(&mut s, "SimilarTo(");
            push_like(&mut s, l);
            app(&mut s, ")");
            assert(s@ =~= expr_debug(e@));
        },
        _ => {
            return schema_name_of(e);
        },
    }
    s
}

fn push_like(s: &mut String, l: &crate::plan::LikeExpr)
    ensures
        final(s)@ == old(s)@ + like_debug(
            l.negated,
            expr_debug(view_expr(*l.expr)),
            expr_debug(view_expr(*l.pattern)),
            l.escape_char,
            l.case_insensitive,
        ),
    decreases l,
{
    let ghost start = s@;
    app(s, "Like { negated: ");
    push_bool(s, l.negated);
    app(s, ", expr: ");
    let x = expr_debug_of(&l.expr);
    app(s, x.as_str());
    app(s, ", pattern: ");
    let p = expr_debug_of(&l.pattern);
    app(s, p.as_str());
    app(s, ", escape_char: ");
    push_opt_char(s, l.escape_char);
    app(s, ", case_insensitive: ");
    push_bool(s, l.case_insensitive);
    app(s, " }");
    assert(s@ =~= start + like_debug(
        l.negated,
        expr_debug(view_expr(*l.expr)),
        expr_debug(view_expr(*l.pattern)),
        l.escape_char,
        l.case_insensitive,
    ));
}

/// A list of expressions as `Debug` writes its items, separated by commas.
pub fn exprs_debug_of(args: &Vec<Expr>) -> (r: String)
    ensures
        r@ == exprs_debug(view_exprs(args@)),
    decreases args,
{
    let ghost sv = view_exprs(args@);
    proof { lemma_view_exprs(args@); }
    let mut r = String::new();
    let mut i: usize = 0;
    while i < args.len()
        invariant
            i <= args.len(),
            sv == view_exprs(args@),
            sv.len() == args@.len(),
            forall|k: int| 0 <= k < args@.len() ==> #[trigger] sv[k] == view_expr(args@[k]),
            r@ == exprs_debug(sv.take(i as int)),
        decreases args.len() - i,
    {
        proof { assert(decreases_to!(args => args[i as int])); }
        if i > 0 {
            app(&mut r, ", ");
        }
        let n = expr_debug_of(&args[i]);
        app(&mut r, n.as_str());
        proof {
            assert(sv.take(i + 1).drop_last() =~= sv.take(i as int));
            if i == 0 {
                assert(sv.take(1) =~= seq![sv[0]]);
                assert(r@ =~= expr_debug(sv[0]));
            }
        }
        i += 1;
    }
    assert(sv.take(args@.len() as int) =~= sv);
    r
}

/// The arms of a `CASE` as `Debug` writes them.
pub fn arms_debug_of(arms: &Vec<WhenThen>) -> (r: String)
    ensures
        r@ == arms_debug(view_arms(arms@)),
    decreases arms,
{
    let ghost sv = view_arms(arms@);
    proof { lemma_view_arms(arms@); }
    let mut r = String::new();
    let mut i: usize = 0;
    while i < arms.len()
        invariant
            i <= arms.len(),
            sv == view_arms(arms@),
            sv.len() == arms@.len(),
            forall|k: int| 0 <= k < arms@.len() ==> #[trigger] sv[k] == crate::plan::view_arm(arms@[k]),
            r@ == arms_debug(sv.take(i as int)),
        decreases arms.len() - i,
    {
        proof {
            assert(decreases_to!(arms => arms[i as int]));
            assert(decreases_to!(arms[i as int] => arms[i as int].condition));
            assert(decreases_to!(arms[i as int] => arms[i as int].result));
        }
        if i > 0 {
            app(&mut r, ", ");
        }
        app(&mut r, "(");
        let c = expr_debug_of(&arms[i].condition);
        app(&mut r, c.as_str());
        app(&mut r, ", ");
        let x = expr_debug_of(&arms[i].result);
        app(&mut r, x.as_str());
        app(&mut r, ")");
        proof {
            assert(sv.take(i + 1).drop_last() =~= sv.take(i as int));
            if i == 0 {
                assert(sv.take(0).len() == 0);
            }
        }
        i += 1;
    }
    assert(sv.take(arms@.len() as int) =~= sv);
    r
}

/// An output column paired with its expression, as the engine's `Debug` writes the pair.
pub fn output_item_debug_of(c: &Column, e: &Expr) -> (r: String)
    ensures
        r@ == output_item_debug(c@, e@),
{
    let mut s = owned("(");
    push_column(&mut s, c);
    app(&mut s, ", ");
    let t = expr_debug_of(e);
    app(&mut s, t.as_str());
    app(&mut s, ")");
    s
}

} // verus!
