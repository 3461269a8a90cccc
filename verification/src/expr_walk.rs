use vstd::prelude::*;
use crate::ast::Identifier;
use crate::syntax::{BindingTableExpression, CaseWhenClause, Expr, GraphExpression, LetItem, MapLiteral};
use crate::functions::{is_aggregate_function_name, spec_is_aggregate_function_name};
use crate::text::{chars_eq_ignore_ascii_case, chars_of, eq_ignore_ascii_case};

verus! {

/// Whether the expression `e` refers to the variable `n` (ignoring the case of ASCII
/// letters): by name, through the variable of a graph or binding table expression, or as
/// an element variable of a predicate. Subqueries, `EXISTS` and literals refer to none.
pub open spec fn expr_refs(e: Expr, n: Seq<char>) -> bool
    decreases e,
{
    match e {
        Expr::Identifier(c) => eq_ignore_ascii_case(c@, n),
        Expr::Property { base, .. } => expr_refs(*base, n),
        Expr::GraphReference { graph, .. } => graph_refs(graph, n),
        Expr::BindingTableReference { table, .. } => table_refs(table, n),
        Expr::Unary { expr, .. } => expr_refs(*expr, n),
        Expr::Cast { expr, .. } => expr_refs(*expr, n),
        Expr::DurationFunction { value } => expr_refs(*value, n),
        Expr::AbsoluteValue { expr } => expr_refs(*expr, n),
        Expr::Elements { path } => expr_refs(*path, n),
        Expr::IsTyped { expr, .. } => expr_refs(*expr, n),
        Expr::IsNull { expr, .. } => expr_refs(*expr, n),
        Expr::IsUnknown { expr, .. } => expr_refs(*expr, n),
        Expr::IsTruth { expr, .. } => expr_refs(*expr, n),
        Expr::IsNormalized { expr, .. } => expr_refs(*expr, n),
        Expr::Binary { left, right, .. } => expr_refs(*left, n) || expr_refs(*right, n),
        Expr::DurationBetween { left, right } => expr_refs(*left, n) || expr_refs(*right, n),
        Expr::NullIf { left, right } => expr_refs(*left, n) || expr_refs(*right, n),
        Expr::Function { args, .. } => exprs_refs(args@, n),
        Expr::NumericFunction { args, .. } => exprs_refs(args@, n),
        Expr::Coalesce(args) => exprs_refs(args@, n),
        Expr::List(args) => exprs_refs(args@, n),
        Expr::TypedList { values, .. } => exprs_refs(values@, n),
        Expr::Path(args) => exprs_refs(args@, n),
        Expr::SubstringByLength { value, length, .. } => expr_refs(*value, n) || expr_refs(*length, n),
        Expr::Trim { trim_character, value, .. } => opt_expr_refs(trim_character, n) || expr_refs(*value, n),
        Expr::MultiTrim { value, trim_characters, .. } => expr_refs(*value, n) || opt_expr_refs(
            trim_characters,
            n,
        ),
        Expr::TrimList { value, count } => expr_refs(*value, n) || expr_refs(*count, n),
        Expr::StringLength { value, .. } => expr_refs(*value, n),
        Expr::Fold { value, .. } => expr_refs(*value, n),
        Expr::Normalize { value, .. } => expr_refs(*value, n),
        Expr::DateTimeFunction { value, .. } => opt_expr_refs(value, n),
        Expr::Let { items, value } => let_items_refs(items@, n) || expr_refs(*value, n),
        Expr::PropertyExists { variable, .. } => eq_ignore_ascii_case(variable@, n),
        Expr::ElementId { variable } => eq_ignore_ascii_case(variable@, n),
        Expr::IsDirected { variable, .. } => eq_ignore_ascii_case(variable@, n),
        Expr::Same { variables } => names_include(variables@, n),
        Expr::AllDifferent { variables } => names_include(variables@, n),
        Expr::SourceDestination { node, edge, .. } => eq_ignore_ascii_case(node@, n) || eq_ignore_ascii_case(
            edge@,
            n,
        ),
        Expr::IsLabeled { variable, .. } => eq_ignore_ascii_case(variable@, n),
        Expr::Case { operand, when_clauses, else_expr } => opt_expr_refs(operand, n) || clauses_refs(
            when_clauses@,
            n,
        ) || opt_expr_refs(else_expr, n),
        Expr::Record { fields, .. } => map_refs(fields, n),
        Expr::MapConstructor(fields) => map_refs(fields, n),
        _ => false,
    }
}

/// Whether an optional expression refers to `n`.
pub open spec fn opt_expr_refs(e: Option<Box<Expr>>, n: Seq<char>) -> bool
    decreases e,
{
    match e {
        Some(x) => expr_refs(*x, n),
        None => false,
    }
}

/// Whether an expression of `es` refers to `n`.
pub open spec fn exprs_refs(es: Seq<Expr>, n: Seq<char>) -> bool
    decreases es,
{
    exists|i: int| 0 <= i < es.len() && expr_refs(#[trigger] es[i], n)
}

/// Whether the value of an item of `items` refers to `n`.
pub open spec fn let_items_refs(items: Seq<LetItem>, n: Seq<char>) -> bool
    decreases items,
{
    exists|i: int| 0 <= i < items.len() && expr_refs((#[trigger] items[i]).value, n)
}

/// Whether a `WHEN` clause of `cs` refers to `n` in its condition, its additional operands
/// or its result.
pub open spec fn clauses_refs(cs: Seq<CaseWhenClause>, n: Seq<char>) -> bool
    decreases cs,
{
    exists|i: int|
        0 <= i < cs.len() && (expr_refs((#[trigger] cs[i]).condition, n) || exprs_refs(
            cs[i].additional_operands@,
            n,
        ) || expr_refs(cs[i].result, n))
}

/// Whether a value of the map literal `m` refers to `n`.
pub open spec fn map_refs(m: MapLiteral, n: Seq<char>) -> bool
    decreases m,
{
    exists|i: int| 0 <= i < m.entries.len() && expr_refs((#[trigger] m.entries@[i]).1, n)
}

/// Whether a graph expression refers to `n`: only a graph variable expression can.
pub open spec fn graph_refs(g: GraphExpression, n: Seq<char>) -> bool
    decreases g,
{
    match g {
        GraphExpression::Variable(x) => expr_refs(*x, n),
        _ => false,
    }
}

/// Whether a binding table expression refers to `n`: only a variable expression can.
pub open spec fn table_refs(t: BindingTableExpression, n: Seq<char>) -> bool
    decreases t,
{
    match t {
        BindingTableExpression::Variable(x) => expr_refs(*x, n),
        _ => false,
    }
}

/// Whether a name of `vs` equals `n` when the case of ASCII letters is ignored.
pub open spec fn names_include(vs: Seq<Identifier>, n: Seq<char>) -> bool {
    exists|i: int| 0 <= i < vs.len() && eq_ignore_ascii_case((#[trigger] vs[i])@, n)
}

pub(crate) fn same_identifier(a: &Identifier, n: &Identifier) -> (r: bool)
    ensures
        r == eq_ignore_ascii_case(a@, n@),
{
    let t = chars_of(a.value.as_str());
    chars_eq_ignore_ascii_case(&t, n.value.as_str())
}

fn identifiers_include(vs: &Vec<Identifier>, n: &Identifier) -> (r: bool)
    ensures
        r == names_include(vs@, n@),
{
    let mut i: usize = 0;
    while i < vs.len()
        invariant
            i <= vs.len(),
            forall|k: int| 0 <= k < i ==> !eq_ignore_ascii_case((#[trigger] vs@[k])@, n@),
        decreases vs.len() - i,
    {
        if same_identifier(&vs[i], n) {
            return true;
        }
        i += 1;
    }
    false
}

fn opt_expr_references(e: &Option<Box<Expr>>, n: &Identifier) -> (r: bool)
    ensures
        r == opt_expr_refs(*e, n@),
    decreases e,
{
    match e {
        Some(x) => expr_references_identifier(x, n),
        None => false,
    }
}

fn exprs_reference(es: &Vec<Expr>, n: &Identifier) -> (r: bool)
    ensures
        r == exprs_refs(es@, n@),
    decreases es,
{
    let mut i: usize = 0;
    while i < es.len()
        invariant
            i <= es.len(),
            forall|k: int| 0 <= k < i ==> !expr_refs(#[trigger] es@[k], n@),
        decreases es.len() - i,
    {
        if expr_references_identifier(&es[i], n) {
            return true;
        }
        i += 1;
    }
    false
}

fn let_items_reference(items: &Vec<LetItem>, n: &Identifier) -> (r: bool)
    ensures
        r == let_items_refs(items@, n@),
    decreases items,
{
    let mut i: usize = 0;
    while i < items.len()
        invariant
            i <= items.len(),
            forall|k: int| 0 <= k < i ==> !expr_refs((#[trigger] items@[k]).value, n@),
        decreases items.len() - i,
    {
        if expr_references_identifier(&items[i].value, n) {
            return true;
        }
        i += 1;
    }
    false
}

fn clauses_reference(cs: &Vec<CaseWhenClause>, n: &Identifier) -> (r: bool)
    ensures
        r == clauses_refs(cs@, n@),
    decreases cs,
{
    let mut i: usize = 0;
    while i < cs.len()
        invariant
            i <= cs.len(),
            forall|k: int|
                0 <= k < i ==> !(expr_refs((#[trigger] cs@[k]).condition, n@) || exprs_refs(
                    cs@[k].additional_operands@,
                    n@,
                ) || expr_refs(cs@[k].result, n@)),
        decreases cs.len() - i,
    {
        let c = &cs[i];
        if expr_references_identifier(&c.condition, n) || exprs_reference(&c.additional_operands, n)
            || expr_references_identifier(&c.result, n) {
            return true;
        }
        i += 1;
    }
    false
}

/// Whether a value of the map literal `map` refers to `identifier`.
pub fn map_literal_references_identifier(map: &MapLiteral, identifier: &Identifier) -> (r: bool)
    ensures
        r == map_refs(*map, identifier@),
    decreases map,
{
    let mut i: usize = 0;
    while i < map.entries.len()
        invariant
            i <= map.entries.len(),
            forall|k: int| 0 <= k < i ==> !expr_refs((#[trigger] map.entries@[k]).1, identifier@),
        decreases map.entries.len() - i,
    {
        if expr_references_identifier(&map.entries[i].1, identifier) {
            return true;
        }
        i += 1;
    }
    false
}

/// Whether a graph expression refers to `identifier`.
pub fn graph_expression_references_identifier(graph: &GraphExpression, identifier: &Identifier) -> (r: bool)
    ensures
        r == graph_refs(*graph, identifier@),
    decreases graph,
{
    match graph {
        GraphExpression::Variable(x) => expr_references_identifier(x, identifier),
        _ => false,
    }
}

/// Whether a binding table expression refers to `identifier`.
pub fn binding_table_expression_references_identifier(table: &BindingTableExpression, identifier: &Identifier) -> (r: bool)
    ensures
        r == table_refs(*table, identifier@),
    decreases table,
{
    match table {
        BindingTableExpression::Variable(x) => expr_references_identifier(x, identifier),
        _ => false,
    }
}

/// Whether the expression `expr` refers to the variable `identifier`, ignoring the case of
/// ASCII letters.
pub fn expr_references_identifier(expr: &Expr, identifier: &Identifier) -> (r: bool)
    ensures
        r == expr_refs(*expr, identifier@),
    decreases expr,
{
    let n = identifier;
    match expr {
        Expr::Identifier(c) => same_identifier(c, n),
        Expr::Property { base, .. } => expr_references_identifier(base, n),
        Expr::GraphReference { graph, .. } => graph_expression_references_identifier(graph, n),
        Expr::BindingTableReference { table, .. } => binding_table_expression_references_identifier(table, n),
        Expr::Unary { expr, .. } => expr_references_identifier(expr, n),
        Expr::Cast { expr, .. } => expr_references_identifier(expr, n),
        Expr::DurationFunction { value } => expr_references_identifier(value, n),
        Expr::AbsoluteValue { expr } => expr_references_identifier(expr, n),
        Expr::Elements { path } => expr_references_identifier(path, n),
        Expr::IsTyped { expr, .. } => expr_references_identifier(expr, n),
        Expr::IsNull { expr, .. } => expr_references_identifier(expr, n),
        Expr::IsUnknown { expr, .. } => expr_references_identifier(expr, n),
        Expr::IsTruth { expr, .. } => expr_references_identifier(expr, n),
        Expr::IsNormalized { expr, .. } => expr_references_identifier(expr, n),
        Expr::Binary { left, right, .. } => expr_references_identifier(left, n) || expr_references_identifier(right, n),
        Expr::DurationBetween { left, right } => expr_references_identifier(left, n)
            || expr_references_identifier(right, n),
        Expr::NullIf { left, right } => expr_references_identifier(left, n) || expr_references_identifier(right, n),
        Expr::Function { args, .. } => exprs_reference(args, n),
        Expr::NumericFunction { args, .. } => exprs_reference(args, n),
        Expr::Coalesce(args) => exprs_reference(args, n),
        Expr::List(args) => exprs_reference(args, n),
        Expr::TypedList { values, .. } => exprs_reference(values, n),
        Expr::Path(args) => exprs_reference(args, n),
        Expr::SubstringByLength { value, length, .. } => expr_references_identifier(value, n)
            || expr_references_identifier(length, n),
        Expr::Trim { trim_character, value, .. } => opt_expr_references(trim_character, n)
            || expr_references_identifier(value, n),
        Expr::MultiTrim { value, trim_characters, .. } => expr_references_identifier(value, n)
            || opt_expr_references(trim_characters, n),
        Expr::TrimList { value, count } => expr_references_identifier(value, n) || expr_references_identifier(count, n),
        Expr::StringLength { value, .. } => expr_references_identifier(value, n),
        Expr::Fold { value, .. } => expr_references_identifier(value, n),
        Expr::Normalize { value, .. } => expr_references_identifier(value, n),
        Expr::DateTimeFunction { value, .. } => opt_expr_references(value, n),
        Expr::Let { items, value } => let_items_reference(items, n) || expr_references_identifier(value, n),
        Expr::PropertyExists { variable, .. } => same_identifier(variable, n),
        Expr::ElementId { variable } => same_identifier(variable, n),
        Expr::IsDirected { variable, .. } => same_identifier(variable, n),
        Expr::Same { variables } => identifiers_include(variables, n),
        Expr::AllDifferent { variables } => identifiers_include(variables, n),
        Expr::SourceDestination { node, edge, .. } => same_identifier(node, n) || same_identifier(edge, n),
        Expr::IsLabeled { variable, .. } => same_identifier(variable, n),
        Expr::Case { operand, when_clauses, else_expr } => opt_expr_references(operand, n) || clauses_reference(
            when_clauses,
            n,
        ) || opt_expr_references(else_expr, n),
        Expr::Record { fields, .. } => map_literal_references_identifier(fields, n),
        Expr::MapConstructor(fields) => map_literal_references_identifier(fields, n),
        _ => false,
    }
}

/// Whether the expression `e` calls an aggregate function, at any depth outside subqueries,
/// graph and binding table references and predicates on element variables.
pub open spec fn expr_aggregates(e: Expr) -> bool
    decreases e,
{
    match e {
        Expr::Function { name, args, .. } => spec_is_aggregate_function_name(name@) || exprs_aggregate(args@),
        Expr::Property { base, .. } => expr_aggregates(*base),
        Expr::Unary { expr, .. } => expr_aggregates(*expr),
        Expr::Cast { expr, .. } => expr_aggregates(*expr),
        Expr::DurationFunction { value } => expr_aggregates(*value),
        Expr::AbsoluteValue { expr } => expr_aggregates(*expr),
        Expr::Elements { path } => expr_aggregates(*path),
        Expr::Binary { left, right, .. } => expr_aggregates(*left) || expr_aggregates(*right),
        Expr::DurationBetween { left, right } => expr_aggregates(*left) || expr_aggregates(*right),
        Expr::NullIf { left, right } => expr_aggregates(*left) || expr_aggregates(*right),
        Expr::SubstringByLength { value, length, .. } => expr_aggregates(*value) || expr_aggregates(*length),
        Expr::Trim { trim_character, value, .. } => opt_expr_aggregates(trim_character) || expr_aggregates(*value),
        Expr::MultiTrim { value, trim_characters, .. } => expr_aggregates(*value) || opt_expr_aggregates(
            trim_characters,
        ),
        Expr::TrimList { value, count } => expr_aggregates(*value) || expr_aggregates(*count),
        Expr::StringLength { value, .. } => expr_aggregates(*value),
        Expr::Fold { value, .. } => expr_aggregates(*value),
        Expr::Normalize { value, .. } => expr_aggregates(*value),
        Expr::DateTimeFunction { value, .. } => opt_expr_aggregates(value),
        Expr::NumericFunction { args, .. } => exprs_aggregate(args@),
        Expr::Coalesce(args) => exprs_aggregate(args@),
        Expr::List(args) => exprs_aggregate(args@),
        Expr::TypedList { values, .. } => exprs_aggregate(values@),
        Expr::Path(args) => exprs_aggregate(args@),
        Expr::Let { items, value } => let_items_aggregate(items@) || expr_aggregates(*value),
        Expr::IsTyped { expr, .. } => expr_aggregates(*expr),
        Expr::IsNull { expr, .. } => expr_aggregates(*expr),
        Expr::IsUnknown { expr, .. } => expr_aggregates(*expr),
        Expr::IsTruth { expr, .. } => expr_aggregates(*expr),
        Expr::IsNormalized { expr, .. } => expr_aggregates(*expr),
        Expr::Case { operand, when_clauses, else_expr } => opt_expr_aggregates(operand) || clauses_aggregate(
            when_clauses@,
        ) || opt_expr_aggregates(else_expr),
        Expr::Record { fields, .. } => map_aggregates(fields),
        Expr::MapConstructor(fields) => map_aggregates(fields),
        _ => false,
    }
}

/// Whether an optional expression calls an aggregate function.
pub open spec fn opt_expr_aggregates(e: Option<Box<Expr>>) -> bool
    decreases e,
{
    match e {
        Some(x) => expr_aggregates(*x),
        None => false,
    }
}

/// Whether an expression of `es` calls an aggregate function.
pub open spec fn exprs_aggregate(es: Seq<Expr>) -> bool
    decreases es,
{
    exists|i: int| 0 <= i < es.len() && expr_aggregates(#[trigger] es[i])
}

/// Whether the value of an item of `items` calls an aggregate function.
pub open spec fn let_items_aggregate(items: Seq<LetItem>) -> bool
    decreases items,
{
    exists|i: int| 0 <= i < items.len() && expr_aggregates((#[trigger] items[i]).value)
}

/// Whether a `WHEN` clause of `cs` calls an aggregate function.
pub open spec fn clauses_aggregate(cs: Seq<CaseWhenClause>) -> bool
    decreases cs,
{
    exists|i: int|
        0 <= i < cs.len() && (expr_aggregates((#[trigger] cs[i]).condition) || exprs_aggregate(
            cs[i].additional_operands@,
        ) || expr_aggregates(cs[i].result))
}

/// Whether a value of the map literal `m` calls an aggregate function.
pub open spec fn map_aggregates(m: MapLiteral) -> bool
    decreases m,
{
    exists|i: int| 0 <= i < m.entries.len() && expr_aggregates((#[trigger] m.entries@[i]).1)
}

fn opt_expr_aggregates_exec(e: &Option<Box<Expr>>) -> (r: bool)
    ensures
        r == opt_expr_aggregates(*e),
    decreases e,
{
    match e {
        Some(x) => expr_contains_aggregate_function(x),
        None => false,
    }
}

fn exprs_aggregate_exec(es: &Vec<Expr>) -> (r: bool)
    ensures
        r == exprs_aggregate(es@),
    decreases es,
{
    let mut i: usize = 0;
    while i < es.len()
        invariant
            i <= es.len(),
            forall|k: int| 0 <= k < i ==> !expr_aggregates(#[trigger] es@[k]),
        decreases es.len() - i,
    {
        if expr_contains_aggregate_function(&es[i]) {
            return true;
        }
        i += 1;
    }
    false
}

fn let_items_aggregate_exec(items: &Vec<LetItem>) -> (r: bool)
    ensures
        r == let_items_aggregate(items@),
    decreases items,
{
    let mut i: usize = 0;
    while i < items.len()
        invariant
            i <= items.len(),
            forall|k: int| 0 <= k < i ==> !expr_aggregates((#[trigger] items@[k]).value),
        decreases items.len() - i,
    {
        if expr_contains_aggregate_function(&items[i].value) {
            return true;
        }
        i += 1;
    }
    false
}

fn clauses_aggregate_exec(cs: &Vec<CaseWhenClause>) -> (r: bool)
    ensures
        r == clauses_aggregate(cs@),
    decreases cs,
{
    let mut i: usize = 0;
    while i < cs.len()
        invariant
            i <= cs.len(),
            forall|k: int|
                0 <= k < i ==> !(expr_aggregates((#[trigger] cs@[k]).condition) || exprs_aggregate(
                    cs@[k].additional_operands@,
                ) || expr_aggregates(cs@[k].result)),
        decreases cs.len() - i,
    {
        let c = &cs[i];
        if expr_contains_aggregate_function(&c.condition) || exprs_aggregate_exec(&c.additional_operands)
            || expr_contains_aggregate_function(&c.result) {
            return true;
        }
        i += 1;
    }
    false
}

fn map_aggregates_exec(map: &MapLiteral) -> (r: bool)
    ensures
        r == map_aggregates(*map),
    decreases map,
{
    let mut i: usize = 0;
    while i < map.entries.len()
        invariant
            i <= map.entries.len(),
            forall|k: int| 0 <= k < i ==> !expr_aggregates((#[trigger] map.entries@[k]).1),
        decreases map.entries.len() - i,
    {
        if expr_contains_aggregate_function(&map.entries[i].1) {
            return true;
        }
        i += 1;
    }
    false
}

/// Whether the expression `expr` calls an aggregate function outside subqueries, graph and
/// binding table references and predicates on element variables.
pub fn expr_contains_aggregate_function(expr: &Expr) -> (r: bool)
    ensures
        r == expr_aggregates(*expr),
    decreases expr,
{
    match expr {
        Expr::Function { name, args, .. } => is_aggregate_function_name(name.value.as_str()) || exprs_aggregate_exec(args),
        Expr::Property { base, .. } => expr_contains_aggregate_function(base),
        Expr::Unary { expr, .. } => expr_contains_aggregate_function(expr),
        Expr::Cast { expr, .. } => expr_contains_aggregate_function(expr),
        Expr::DurationFunction { value } => expr_contains_aggregate_function(value),
        Expr::AbsoluteValue { expr } => expr_contains_aggregate_function(expr),
        Expr::Elements { path } => expr_contains_aggregate_function(path),
        Expr::Binary { left, right, .. } => expr_contains_aggregate_function(left) || expr_contains_aggregate_function(right),
        Expr::DurationBetween { left, right } => expr_contains_aggregate_function(left)
            || expr_contains_aggregate_function(right),
        Expr::NullIf { left, right } => expr_contains_aggregate_function(left) || expr_contains_aggregate_function(right),
        Expr::SubstringByLength { value, length, .. } => expr_contains_aggregate_function(value)
            || expr_contains_aggregate_function(length),
        Expr::Trim { trim_character, value, .. } => opt_expr_aggregates_exec(trim_character)
            || expr_contains_aggregate_function(value),
        Expr::MultiTrim { value, trim_characters, .. } => expr_contains_aggregate_function(value)
            || opt_expr_aggregates_exec(trim_characters),
        Expr::TrimList { value, count } => expr_contains_aggregate_function(value) || expr_contains_aggregate_function(count),
        Expr::StringLength { value, .. } => expr_contains_aggregate_function(value),
        Expr::Fold { value, .. } => expr_contains_aggregate_function(value),
        Expr::Normalize { value, .. } => expr_contains_aggregate_function(value),
        Expr::DateTimeFunction { value, .. } => opt_expr_aggregates_exec(value),
        Expr::NumericFunction { args, .. } => exprs_aggregate_exec(args),
        Expr::Coalesce(args) => exprs_aggregate_exec(args),
        Expr::List(args) => exprs_aggregate_exec(args),
        Expr::TypedList { values, .. } => exprs_aggregate_exec(values),
        Expr::Path(args) => exprs_aggregate_exec(args),
        Expr::Let { items, value } => let_items_aggregate_exec(items) || expr_contains_aggregate_function(value),
        Expr::IsTyped { expr, .. } => expr_contains_aggregate_function(expr),
        Expr::IsNull { expr, .. } => expr_contains_aggregate_function(expr),
        Expr::IsUnknown { expr, .. } => expr_contains_aggregate_function(expr),
        Expr::IsTruth { expr, .. } => expr_contains_aggregate_function(expr),
        Expr::IsNormalized { expr, .. } => expr_contains_aggregate_function(expr),
        Expr::Case { operand, when_clauses, else_expr } => opt_expr_aggregates_exec(operand) || clauses_aggregate_exec(
            when_clauses,
        ) || opt_expr_aggregates_exec(else_expr),
        Expr::Record { fields, .. } => map_aggregates_exec(fields),
        Expr::MapConstructor(fields) => map_aggregates_exec(fields),
        _ => false,
    }
}

} // verus!
