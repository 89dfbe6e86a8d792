# rulescript

Query rewrite rules over relational plans, with uninterpreted symbols, verified with Verus.

A rule is a pair of relational patterns (`from`, `to`) built over abstract sources and
pattern symbols. Applying a rule resolves `from` against a concrete plan, binding each
source to a subplan and each symbol to the expressions it stands for, and then
instantiates `to` from those bindings. Rules can also be exported to the JSON format of
the QED equivalence checker.

## Layout

- `src/plan.rs`: the plan and expression model, with its mathematical views.
- `src/ast/`: relational patterns (`Rel`), pattern symbols, abstract types and schemas,
  the builders used to write rules, and user-defined operators (`extension.rs`): a
  trait that users implement, with the matcher functions that store and read back what
  such an operator bound.
- `src/matcher/`: the default matcher. `semantics.rs` states resolution and
  instantiation as spec functions; `default.rs` and `instantiate.rs` implement them;
  `laws.rs` proves properties of matching that hold for all inputs.
- `src/rule/`: the rule traits, the rules themselves (`impls/`), a sample catalogue, and
  laws about the rule family.
- `src/qed/`: the QED serializer: a JSON tree, the format as spec functions, the
  serializer proved against them, and laws about the tables it collects.
- `src/naming.rs`, `src/unalias.rs`, `src/text.rs`, `src/debug_text.rs`: output naming
  and typing of expressions, alias removal, string helpers, and the engine's debug
  rendering used in error messages.
- `app/`: the DataFusion side: conversion of DataFusion plans to and from the model,
  rules as DataFusion optimizer rules, QED output rendered as JSON text, and an export
  of the rules' QED documents to a directory.
- `tests/`: rule scenarios on the sample catalogue, QED output, builders, and laws on
  concrete values.
