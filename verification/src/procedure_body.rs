use vstd::prelude::*;
use crate::ast::Identifier;
use crate::syntax::{
    BindingTableExpression, CallClause, CaseWhenClause, Expr, GraphExpression, LetItem, MapLiteral,
    MatchClause, NodePattern, OrderByItem, ParenthesizedPathPatternExpression, PathPattern,
    PathPatternChain, PathPatternFactor, PathPatternTerm, ProcedureCall, QueryBody, QueryClause,
    QuerySetOperation, QueryStatement, RelationshipPattern, RemoveItem, ResultItem, SelectGraphMatch,
    SelectQuerySpecification, SetItem,
};

verus! {

/// Whether the expression `e` holds an inline procedure call: in a value or `EXISTS`
/// subquery, a nested query, a graph pattern or any subexpression.
pub open spec fn expr_pb(e: Expr) -> bool
    decreases e,
{
    match e {
        Expr::ValueQuery { query } => query_statement_pb(*query),
        Expr::ExistsQuery { query } => query_statement_pb(*query),
        Expr::GraphReference { graph, .. } => graph_pb(graph),
        Expr::BindingTableReference { table, .. } => table_pb(table),
        Expr::Property { base, .. } => expr_pb(*base),
        Expr::Function { args, .. } => exprs_pb(args@),
        Expr::NumericFunction { args, .. } => exprs_pb(args@),
        Expr::Coalesce(args) => exprs_pb(args@),
        Expr::List(args) => exprs_pb(args@),
        Expr::TypedList { values, .. } => exprs_pb(values@),
        Expr::Path(args) => exprs_pb(args@),
        Expr::Unary { expr, .. } => expr_pb(*expr),
        Expr::Cast { expr, .. } => expr_pb(*expr),
        Expr::DurationFunction { value } => expr_pb(*value),
        Expr::AbsoluteValue { expr } => expr_pb(*expr),
        Expr::Elements { path } => expr_pb(*path),
        Expr::IsTyped { expr, .. } => expr_pb(*expr),
        Expr::IsNull { expr, .. } => expr_pb(*expr),
        Expr::IsUnknown { expr, .. } => expr_pb(*expr),
        Expr::IsTruth { expr, .. } => expr_pb(*expr),
        Expr::IsNormalized { expr, .. } => expr_pb(*expr),
        Expr::Binary { left, right, .. } => expr_pb(*left) || expr_pb(*right),
        Expr::DurationBetween { left, right } => expr_pb(*left) || expr_pb(*right),
        Expr::NullIf { left, right } => expr_pb(*left) || expr_pb(*right),
        Expr::SubstringByLength { value, length, .. } => expr_pb(*value) || expr_pb(*length),
        Expr::Trim { trim_character, value, .. } => boxed_pb(trim_character) || expr_pb(*value),
        Expr::MultiTrim { value, trim_characters, .. } => expr_pb(*value) || boxed_pb(trim_characters),
        Expr::TrimList { value, count } => expr_pb(*value) || expr_pb(*count),
        Expr::StringLength { value, .. } => expr_pb(*value),
        Expr::Fold { value, .. } => expr_pb(*value),
        Expr::Normalize { value, .. } => expr_pb(*value),
        Expr::DateTimeFunction { value, .. } => boxed_pb(value),
        Expr::Let { items, value } => let_items_pb(items@) || expr_pb(*value),
        Expr::Case { operand, when_clauses, else_expr } => boxed_pb(operand) || when_clauses_pb(
            when_clauses@,
        ) || boxed_pb(else_expr),
        Expr::Record { fields, .. } => entries_pb(fields.entries@),
        Expr::MapConstructor(fields) => entries_pb(fields.entries@),
        Expr::Exists { patterns } => patterns_pb(patterns@),
        Expr::ExistsMatch { matches } => matches_pb(matches@),
        _ => false,
    }
}

/// Whether an optional boxed expression holds an inline procedure call.
pub open spec fn boxed_pb(e: Option<Box<Expr>>) -> bool
    decreases e,
{
    match e {
        Some(x) => expr_pb(*x),
        None => false,
    }
}

/// Whether an optional expression holds an inline procedure call.
pub open spec fn opt_pb(e: Option<Expr>) -> bool
    decreases e,
{
    match e {
        Some(x) => expr_pb(x),
        None => false,
    }
}

/// Whether an optional map literal holds an inline procedure call.
pub open spec fn opt_map_pb(m: Option<MapLiteral>) -> bool
    decreases m,
{
    match m {
        Some(x) => entries_pb(x.entries@),
        None => false,
    }
}

/// Whether an optional graph expression holds an inline procedure call.
pub open spec fn opt_graph_pb(g: Option<GraphExpression>) -> bool
    decreases g,
{
    match g {
        Some(x) => graph_pb(x),
        None => false,
    }
}

/// Whether a query statement holds an inline procedure call.
pub open spec fn query_statement_pb(q: QueryStatement) -> bool
    decreases q,
{
    opt_graph_pb(q.use_graph) || query_body_pb(q.body) || set_operations_pb(q.set_operations@)
}

/// Whether the `SELECT ... FROM` query of a query body holds an inline procedure call.
pub open spec fn select_query_pb(s: Option<SelectQuerySpecification>) -> bool
    decreases s,
{
    match s {
        Some(x) => opt_graph_pb(x.graph) || query_statement_pb(*x.query),
        None => false,
    }
}

/// Whether a query body holds an inline procedure call.
pub open spec fn query_body_pb(b: QueryBody) -> bool
    decreases b,
{
    query_clauses_pb(b.clauses@) || result_items_pb(b.result_clause.items@) || select_from_pb(
        b.select_from@,
    ) || select_query_pb(b.select_query) || opt_pb(b.select_where) || exprs_pb(b.group_by@) || opt_pb(
        b.having,
    ) || order_items_pb(b.order_by@)
}

/// Whether a query clause holds an inline procedure call.
pub open spec fn query_clause_pb(c: QueryClause) -> bool
    decreases c,
{
    match c {
        QueryClause::UseGraph(g) => graph_pb(g),
        QueryClause::NestedQuery(q) => query_statement_pb(*q),
        QueryClause::Match(m) => match_clause_pb(m),
        QueryClause::OptionalMatchBlock(ms) => matches_pb(ms@),
        QueryClause::Filter(f) => expr_pb(f.predicate),
        QueryClause::Let(l) => let_items_pb(l.items@),
        QueryClause::For(f) => expr_pb(f.source),
        QueryClause::Call(call) => call_pb(call),
        QueryClause::Insert(i) => patterns_pb(i.patterns@),
        QueryClause::Delete(d) => exprs_pb(d.items@),
        QueryClause::SetStatement(s) => set_items_pb(s.items@),
        QueryClause::Remove(r) => remove_items_pb(r.items@),
        QueryClause::OrderByPage(p) => order_items_pb(p.order_by@),
    }
}

/// Whether a `CALL` clause is an inline procedure call or has one in its arguments.
pub open spec fn call_pb(c: CallClause) -> bool
    decreases c,
{
    match c.call {
        ProcedureCall::Inline(_) => true,
        ProcedureCall::Named { args, .. } => exprs_pb(args@),
    }
}

/// Whether a graph expression holds an inline procedure call.
pub open spec fn graph_pb(g: GraphExpression) -> bool
    decreases g,
{
    match g {
        GraphExpression::Variable(x) => expr_pb(*x),
        _ => false,
    }
}

/// Whether a binding table expression holds an inline procedure call.
pub open spec fn table_pb(t: BindingTableExpression) -> bool
    decreases t,
{
    match t {
        BindingTableExpression::NestedQuery(q) => query_statement_pb(*q),
        BindingTableExpression::Variable(x) => expr_pb(*x),
        _ => false,
    }
}

/// Whether a `MATCH` clause holds an inline procedure call.
pub open spec fn match_clause_pb(m: MatchClause) -> bool
    decreases m,
{
    patterns_pb(m.patterns@) || opt_pb(m.where_clause)
}

/// Whether a parenthesized path pattern holds an inline procedure call.
pub open spec fn parenthesized_pb(p: ParenthesizedPathPatternExpression) -> bool
    decreases p,
{
    path_pattern_pb(*p.pattern) || opt_pb(p.where_clause)
}

/// Whether an optional parenthesized path pattern holds an inline procedure call.
pub open spec fn opt_parenthesized_pb(p: Option<ParenthesizedPathPatternExpression>) -> bool
    decreases p,
{
    match p {
        Some(x) => parenthesized_pb(x),
        None => false,
    }
}

/// Whether a path pattern holds an inline procedure call.
pub open spec fn path_pattern_pb(p: PathPattern) -> bool
    decreases p,
{
    node_pb(p.start) || chains_pb(p.chains@) || factors_pb(p.factors@) || terms_pb(p.alternatives@)
        || opt_parenthesized_pb(p.parenthesized)
}

/// Whether a path pattern factor holds an inline procedure call.
pub open spec fn factor_pb(f: PathPatternFactor) -> bool
    decreases f,
{
    match f {
        PathPatternFactor::Node(n) => node_pb(n),
        PathPatternFactor::Relationship(r) => relationship_pb(r),
        PathPatternFactor::Parenthesized(p) => parenthesized_pb(*p),
        PathPatternFactor::Alternation { alternatives, .. } => factor_lists_pb(alternatives@),
    }
}

/// Whether a node pattern holds an inline procedure call.
pub open spec fn node_pb(n: NodePattern) -> bool
    decreases n,
{
    opt_map_pb(n.properties) || opt_pb(n.where_clause)
}

/// Whether a relationship pattern holds an inline procedure call.
pub open spec fn relationship_pb(r: RelationshipPattern) -> bool
    decreases r,
{
    opt_map_pb(r.properties) || opt_pb(r.where_clause)
}

/// Whether a `SET` item holds an inline procedure call.
pub open spec fn set_item_pb(i: SetItem) -> bool
    decreases i,
{
    match i {
        SetItem::Property { target, value } => expr_pb(target) || expr_pb(value),
        SetItem::AllProperties { properties, .. } => entries_pb(properties.entries@),
        SetItem::Label { .. } => false,
    }
}

/// Whether a `REMOVE` item holds an inline procedure call.
pub open spec fn remove_item_pb(i: RemoveItem) -> bool
    decreases i,
{
    match i {
        RemoveItem::Property(e) => expr_pb(e),
        RemoveItem::Label { .. } => false,
    }
}

fn boxed_contains_procedure_body(e: &Option<Box<Expr>>) -> (r: bool)
    ensures
        r == boxed_pb(*e),
    decreases e,
{
    match e {
        Some(x) => expr_contains_procedure_body(x),
        None => false,
    }
}

fn opt_contains_procedure_body(e: &Option<Expr>) -> (r: bool)
    ensures
        r == opt_pb(*e),
    decreases e,
{
    match e {
        Some(x) => expr_contains_procedure_body(x),
        None => false,
    }
}

fn opt_map_contains_procedure_body(m: &Option<MapLiteral>) -> (r: bool)
    ensures
        r == opt_map_pb(*m),
    decreases m,
{
    match m {
        Some(x) => map_literal_contains_procedure_body(x),
        None => false,
    }
}

fn opt_graph_contains_procedure_body(g: &Option<GraphExpression>) -> (r: bool)
    ensures
        r == opt_graph_pb(*g),
    decreases g,
{
    match g {
        Some(x) => graph_expression_contains_procedure_body(x),
        None => false,
    }
}

/// Whether a map literal holds an inline procedure call in one of its values.
pub fn map_literal_contains_procedure_body(map: &MapLiteral) -> (r: bool)
    ensures
        r == entries_pb(map.entries@),
    decreases map,
{
    entries_contain_procedure_body(&map.entries)
}

/// Whether the expression `expr` holds an inline procedure call.
pub fn expr_contains_procedure_body(expr: &Expr) -> (r: bool)
    ensures
        r == expr_pb(*expr),
    decreases expr,
{
    match expr {
        Expr::ValueQuery { query } => query_statement_contains_procedure_body(query),
        Expr::ExistsQuery { query } => query_statement_contains_procedure_body(query),
        Expr::GraphReference { graph, .. } => graph_expression_contains_procedure_body(graph),
        Expr::BindingTableReference { table, .. } => binding_table_expression_contains_procedure_body(table),
        Expr::Property { base, .. } => expr_contains_procedure_body(base),
        Expr::Function { args, .. } => exprs_contain_procedure_body(args),
        Expr::NumericFunction { args, .. } => exprs_contain_procedure_body(args),
        Expr::Coalesce(args) => exprs_contain_procedure_body(args),
        Expr::List(args) => exprs_contain_procedure_body(args),
        Expr::TypedList { values, .. } => exprs_contain_procedure_body(values),
        Expr::Path(args) => exprs_contain_procedure_body(args),
        Expr::Unary { expr, .. } => expr_contains_procedure_body(expr),
        Expr::Cast { expr, .. } => expr_contains_procedure_body(expr),
        Expr::DurationFunction { value } => expr_contains_procedure_body(value),
        Expr::AbsoluteValue { expr } => expr_contains_procedure_body(expr),
        Expr::Elements { path } => expr_contains_procedure_body(path),
        Expr::IsTyped { expr, .. } => expr_contains_procedure_body(expr),
        Expr::IsNull { expr, .. } => expr_contains_procedure_body(expr),
        Expr::IsUnknown { expr, .. } => expr_contains_procedure_body(expr),
        Expr::IsTruth { expr, .. } => expr_contains_procedure_body(expr),
        Expr::IsNormalized { expr, .. } => expr_contains_procedure_body(expr),
        Expr::Binary { left, right, .. } => expr_contains_procedure_body(left) || expr_contains_procedure_body(right),
        Expr::DurationBetween { left, right } => expr_contains_procedure_body(left) || expr_contains_procedure_body(right),
        Expr::NullIf { left, right } => expr_contains_procedure_body(left) || expr_contains_procedure_body(right),
        Expr::SubstringByLength { value, length, .. } => expr_contains_procedure_body(value)
            || expr_contains_procedure_body(length),
        Expr::Trim { trim_character, value, .. } => boxed_contains_procedure_body(trim_character)
            || expr_contains_procedure_body(value),
        Expr::MultiTrim { value, trim_characters, .. } => expr_contains_procedure_body(value)
            || boxed_contains_procedure_body(trim_characters),
        Expr::TrimList { value, count } => expr_contains_procedure_body(value) || expr_contains_procedure_body(count),
        Expr::StringLength { value, .. } => expr_contains_procedure_body(value),
        Expr::Fold { value, .. } => expr_contains_procedure_body(value),
        Expr::Normalize { value, .. } => expr_contains_procedure_body(value),
        Expr::DateTimeFunction { value, .. } => boxed_contains_procedure_body(value),
        Expr::Let { items, value } => let_items_contain_procedure_body(items) || expr_contains_procedure_body(value),
        Expr::Case { operand, when_clauses, else_expr } => boxed_contains_procedure_body(operand)
            || when_clauses_contain_procedure_body(when_clauses) || boxed_contains_procedure_body(else_expr),
        Expr::Record { fields, .. } => entries_contain_procedure_body(&fields.entries),
        Expr::MapConstructor(fields) => entries_contain_procedure_body(&fields.entries),
        Expr::Exists { patterns } => patterns_contain_procedure_body(patterns),
        Expr::ExistsMatch { matches } => matches_contain_procedure_body(matches),
        _ => false,
    }
}

/// Whether a query statement holds an inline procedure call.
pub fn query_statement_contains_procedure_body(query: &QueryStatement) -> (r: bool)
    ensures
        r == query_statement_pb(*query),
    decreases query,
{
    opt_graph_contains_procedure_body(&query.use_graph) || query_body_contains_procedure_body(&query.body)
        || set_operations_contain_procedure_body(&query.set_operations)
}

fn select_query_contains_procedure_body(s: &Option<SelectQuerySpecification>) -> (r: bool)
    ensures
        r == select_query_pb(*s),
    decreases s,
{
    match s {
        Some(x) => opt_graph_contains_procedure_body(&x.graph) || query_statement_contains_procedure_body(&x.query),
        None => false,
    }
}

/// Whether a query body holds an inline procedure call.
pub fn query_body_contains_procedure_body(body: &QueryBody) -> (r: bool)
    ensures
        r == query_body_pb(*body),
    decreases body,
{
    query_clauses_contain_procedure_body(&body.clauses) || result_items_contain_procedure_body(
        &body.result_clause.items,
    ) || select_from_contains_procedure_body(&body.select_from) || select_query_contains_procedure_body(
        &body.select_query,
    ) || opt_contains_procedure_body(&body.select_where) || exprs_contain_procedure_body(&body.group_by)
        || opt_contains_procedure_body(&body.having) || order_items_contain_procedure_body(&body.order_by)
}

/// Whether a query clause holds an inline procedure call.
pub fn query_clause_contains_procedure_body(clause: &QueryClause) -> (r: bool)
    ensures
        r == query_clause_pb(*clause),
    decreases clause,
{
    match clause {
        QueryClause::UseGraph(g) => graph_expression_contains_procedure_body(g),
        QueryClause::NestedQuery(q) => query_statement_contains_procedure_body(q),
        QueryClause::Match(m) => match_clause_contains_procedure_body(m),
        QueryClause::OptionalMatchBlock(ms) => matches_contain_procedure_body(ms),
        QueryClause::Filter(f) => expr_contains_procedure_body(&f.predicate),
        QueryClause::Let(l) => let_items_contain_procedure_body(&l.items),
        QueryClause::For(f) => expr_contains_procedure_body(&f.source),
        QueryClause::Call(call) => call_clause_contains_procedure_body(call),
        QueryClause::Insert(i) => patterns_contain_procedure_body(&i.patterns),
        QueryClause::Delete(d) => exprs_contain_procedure_body(&d.items),
        QueryClause::SetStatement(s) => set_items_contain_procedure_body(&s.items),
        QueryClause::Remove(r) => remove_items_contain_procedure_body(&r.items),
        QueryClause::OrderByPage(p) => order_items_contain_procedure_body(&p.order_by),
    }
}

/// Whether a `CALL` clause is an inline procedure call or has one in its arguments.
pub fn call_clause_contains_procedure_body(call: &CallClause) -> (r: bool)
    ensures
        r == call_pb(*call),
    decreases call,
{
    match &call.call {
        ProcedureCall::Inline(_) => true,
        ProcedureCall::Named { args, .. } => exprs_contain_procedure_body(args),
    }
}

/// Whether a graph expression holds an inline procedure call.
pub fn graph_expression_contains_procedure_body(graph: &GraphExpression) -> (r: bool)
    ensures
        r == graph_pb(*graph),
    decreases graph,
{
    match graph {
        GraphExpression::Variable(x) => expr_contains_procedure_body(x),
        _ => false,
    }
}

/// Whether a binding table expression holds an inline procedure call.
pub fn binding_table_expression_contains_procedure_body(table: &BindingTableExpression) -> (r: bool)
    ensures
        r == table_pb(*table),
    decreases table,
{
    match table {
        BindingTableExpression::NestedQuery(q) => query_statement_contains_procedure_body(q),
        BindingTableExpression::Variable(x) => expr_contains_procedure_body(x),
        _ => false,
    }
}

/// Whether a `MATCH` clause holds an inline procedure call.
pub fn match_clause_contains_procedure_body(match_clause: &MatchClause) -> (r: bool)
    ensures
        r == match_clause_pb(*match_clause),
    decreases match_clause,
{
    patterns_contain_procedure_body(&match_clause.patterns) || opt_contains_procedure_body(
        &match_clause.where_clause,
    )
}

fn parenthesized_contains_procedure_body(p: &ParenthesizedPathPatternExpression) -> (r: bool)
    ensures
        r == parenthesized_pb(*p),
    decreases p,
{
    path_pattern_contains_procedure_body(&p.pattern) || opt_contains_procedure_body(&p.where_clause)
}

fn opt_parenthesized_contains_procedure_body(p: &Option<ParenthesizedPathPatternExpression>) -> (r: bool)
    ensures
        r == opt_parenthesized_pb(*p),
    decreases p,
{
    match p {
        Some(x) => parenthesized_contains_procedure_body(x),
        None => false,
    }
}

/// Whether a path pattern holds an inline procedure call.
pub fn path_pattern_contains_procedure_body(pattern: &PathPattern) -> (r: bool)
    ensures
        r == path_pattern_pb(*pattern),
    decreases pattern,
{
    node_pattern_contains_procedure_body(&pattern.start) || chains_contain_procedure_body(&pattern.chains)
        || factors_contain_procedure_body(&pattern.factors) || terms_contain_procedure_body(
        &pattern.alternatives,
    ) || opt_parenthesized_contains_procedure_body(&pattern.parenthesized)
}

/// Whether a path pattern factor holds an inline procedure call.
pub fn path_pattern_factor_contains_procedure_body(factor: &PathPatternFactor) -> (r: bool)
    ensures
        r == factor_pb(*factor),
    decreases factor,
{
    match factor {
        PathPatternFactor::Node(n) => node_pattern_contains_procedure_body(n),
        PathPatternFactor::Relationship(r) => relationship_pattern_contains_procedure_body(r),
        PathPatternFactor::Parenthesized(p) => parenthesized_contains_procedure_body(p),
        PathPatternFactor::Alternation { alternatives, .. } => factor_lists_contain_procedure_body(alternatives),
    }
}

/// Whether a node pattern holds an inline procedure call.
pub fn node_pattern_contains_procedure_body(node: &NodePattern) -> (r: bool)
    ensures
        r == node_pb(*node),
    decreases node,
{
    opt_map_contains_procedure_body(&node.properties) || opt_contains_procedure_body(&node.where_clause)
}

/// Whether a relationship pattern holds an inline procedure call.
pub fn relationship_pattern_contains_procedure_body(relationship: &RelationshipPattern) -> (r: bool)
    ensures
        r == relationship_pb(*relationship),
    decreases relationship,
{
    opt_map_contains_procedure_body(&relationship.properties) || opt_contains_procedure_body(
        &relationship.where_clause,
    )
}

/// Whether a `SET` item holds an inline procedure call.
pub fn set_item_contains_procedure_body(item: &SetItem) -> (r: bool)
    ensures
        r == set_item_pb(*item),
    decreases item,
{
    match item {
        SetItem::Property { target, value } => expr_contains_procedure_body(target) || expr_contains_procedure_body(value),
        SetItem::AllProperties { properties, .. } => entries_contain_procedure_body(&properties.entries),
        SetItem::Label { .. } => false,
    }
}

/// Whether a `REMOVE` item holds an inline procedure call.
pub fn remove_item_contains_procedure_body(item: &RemoveItem) -> (r: bool)
    ensures
        r == remove_item_pb(*item),
    decreases item,
{
    match item {
        RemoveItem::Property(e) => expr_contains_procedure_body(e),
        RemoveItem::Label { .. } => false,
    }
}

/// Whether an element of `xs` holds an inline procedure call.
pub open spec fn exprs_pb(xs: Seq<Expr>) -> bool
    decreases xs,
{
    exists|i: int| 0 <= i < xs.len() && (expr_pb((#[trigger] xs[i])))
}

fn exprs_contain_procedure_body(xs: &Vec<Expr>) -> (r: bool)
    ensures
        r == exprs_pb(xs@),
    decreases xs,
{
    let mut i: usize = 0;
    while i < xs.len()
        invariant
            i <= xs.len(),
            forall|k: int| 0 <= k < i ==> !(expr_pb((#[trigger] xs@[k]))),
        decreases xs.len() - i,
    {
        if expr_contains_procedure_body(&xs[i]) {
            return true;
        }
        i += 1;
    }
    false
}

/// Whether an element of `xs` holds an inline procedure call.
pub open spec fn let_items_pb(xs: Seq<LetItem>) -> bool
    decreases xs,
{
    exists|i: int| 0 <= i < xs.len() && (expr_pb((#[trigger] xs[i]).value))
}

fn let_items_contain_procedure_body(xs: &Vec<LetItem>) -> (r: bool)
    ensures
        r == let_items_pb(xs@),
    decreases xs,
{
    let mut i: usize = 0;
    while i < xs.len()
        invariant
            i <= xs.len(),
            forall|k: int| 0 <= k < i ==> !(expr_pb((#[trigger] xs@[k]).value)),
        decreases xs.len() - i,
    {
        if expr_contains_procedure_body(&xs[i].value) {
            return true;
        }
        i += 1;
    }
    false
}

/// Whether an element of `xs` holds an inline procedure call.
pub open spec fn when_clauses_pb(xs: Seq<CaseWhenClause>) -> bool
    decreases xs,
{
    exists|i: int| 0 <= i < xs.len() && (expr_pb((#[trigger] xs[i]).condition) || exprs_pb(xs[i].additional_operands@) || expr_pb(xs[i].result))
}

fn when_clauses_contain_procedure_body(xs: &Vec<CaseWhenClause>) -> (r: bool)
    ensures
        r == when_clauses_pb(xs@),
    decreases xs,
{
    let mut i: usize = 0;
    while i < xs.len()
        invariant
            i <= xs.len(),
            forall|k: int| 0 <= k < i ==> !(expr_pb((#[trigger] xs@[k]).condition) || exprs_pb(xs@[k].additional_operands@) || expr_pb(xs@[k].result)),
        decreases xs.len() - i,
    {
        if expr_contains_procedure_body(&xs[i].condition) || exprs_contain_procedure_body(&xs[i].additional_operands) || expr_contains_procedure_body(&xs[i].result) {
            return true;
        }
        i += 1;
    }
    false
}

/// Whether an element of `xs` holds an inline procedure call.
pub open spec fn entries_pb(xs: Seq<(Identifier, Expr)>) -> bool
    decreases xs,
{
    exists|i: int| 0 <= i < xs.len() && (expr_pb((#[trigger] xs[i]).1))
}

fn entries_contain_procedure_body(xs: &Vec<(Identifier, Expr)>) -> (r: bool)
    ensures
        r == entries_pb(xs@),
    decreases xs,
{
    let mut i: usize = 0;
    while i < xs.len()
        invariant
            i <= xs.len(),
            forall|k: int| 0 <= k < i ==> !(expr_pb((#[trigger] xs@[k]).1)),
        decreases xs.len() - i,
    {
        if expr_contains_procedure_body(&xs[i].1) {
            return true;
        }
        i += 1;
    }
    false
}

/// Whether an element of `xs` holds an inline procedure call.
pub open spec fn patterns_pb(xs: Seq<PathPattern>) -> bool
    decreases xs,
{
    exists|i: int| 0 <= i < xs.len() && (path_pattern_pb((#[trigger] xs[i])))
}

fn patterns_contain_procedure_body(xs: &Vec<PathPattern>) -> (r: bool)
    ensures
        r == patterns_pb(xs@),
    decreases xs,
{
    let mut i: usize = 0;
    while i < xs.len()
        invariant
            i <= xs.len(),
            forall|k: int| 0 <= k < i ==> !(path_pattern_pb((#[trigger] xs@[k]))),
        decreases xs.len() - i,
    {
        if path_pattern_contains_procedure_body(&xs[i]) {
            return true;
        }
        i += 1;
    }
    false
}

/// Whether an element of `xs` holds an inline procedure call.
pub open spec fn matches_pb(xs: Seq<MatchClause>) -> bool
    decreases xs,
{
    exists|i: int| 0 <= i < xs.len() && (match_clause_pb((#[trigger] xs[i])))
}

fn matches_contain_procedure_body(xs: &Vec<MatchClause>) -> (r: bool)
    ensures
        r == matches_pb(xs@),
    decreases xs,
{
    let mut i: usize = 0;
    while i < xs.len()
        invariant
            i <= xs.len(),
            forall|k: int| 0 <= k < i ==> !(match_clause_pb((#[trigger] xs@[k]))),
        decreases xs.len() - i,
    {
        if match_clause_contains_procedure_body(&xs[i]) {
            return true;
        }
        i += 1;
    }
    false
}

/// Whether an element of `xs` holds an inline procedure call.
pub open spec fn set_operations_pb(xs: Seq<QuerySetOperation>) -> bool
    decreases xs,
{
    exists|i: int| 0 <= i < xs.len() && (query_body_pb((#[trigger] xs[i]).body))
}

fn set_operations_contain_procedure_body(xs: &Vec<QuerySetOperation>) -> (r: bool)
    ensures
        r == set_operations_pb(xs@),
    decreases xs,
{
    let mut i: usize = 0;
    while i < xs.len()
        invariant
            i <= xs.len(),
            forall|k: int| 0 <= k < i ==> !(query_body_pb((#[trigger] xs@[k]).body)),
        decreases xs.len() - i,
    {
        if query_body_contains_procedure_body(&xs[i].body) {
            return true;
        }
        i += 1;
    }
    false
}

/// Whether an element of `xs` holds an inline procedure call.
pub open spec fn query_clauses_pb(xs: Seq<QueryClause>) -> bool
    decreases xs,
{
    exists|i: int| 0 <= i < xs.len() && (query_clause_pb((#[trigger] xs[i])))
}

fn query_clauses_contain_procedure_body(xs: &Vec<QueryClause>) -> (r: bool)
    ensures
        r == query_clauses_pb(xs@),
    decreases xs,
{
    let mut i: usize = 0;
    while i < xs.len()
        invariant
            i <= xs.len(),
            forall|k: int| 0 <= k < i ==> !(query_clause_pb((#[trigger] xs@[k]))),
        decreases xs.len() - i,
    {
        if query_clause_contains_procedure_body(&xs[i]) {
            return true;
        }
        i += 1;
    }
    false
}

/// Whether an element of `xs` holds an inline procedure call.
pub open spec fn result_items_pb(xs: Seq<ResultItem>) -> bool
    decreases xs,
{
    exists|i: int| 0 <= i < xs.len() && (expr_pb((#[trigger] xs[i]).expr))
}

fn result_items_contain_procedure_body(xs: &Vec<ResultItem>) -> (r: bool)
    ensures
        r == result_items_pb(xs@),
    decreases xs,
{
    let mut i: usize = 0;
    while i < xs.len()
        invariant
            i <= xs.len(),
            forall|k: int| 0 <= k < i ==> !(expr_pb((#[trigger] xs@[k]).expr)),
        decreases xs.len() - i,
    {
        if expr_contains_procedure_body(&xs[i].expr) {
            return true;
        }
        i += 1;
    }
    false
}

/// Whether an element of `xs` holds an inline procedure call.
pub open spec fn select_from_pb(xs: Seq<SelectGraphMatch>) -> bool
    decreases xs,
{
    exists|i: int| 0 <= i < xs.len() && (graph_pb((#[trigger] xs[i]).graph) || match_clause_pb(xs[i].match_clause))
}

fn select_from_contains_procedure_body(xs: &Vec<SelectGraphMatch>) -> (r: bool)
    ensures
        r == select_from_pb(xs@),
    decreases xs,
{
    let mut i: usize = 0;
    while i < xs.len()
        invariant
            i <= xs.len(),
            forall|k: int| 0 <= k < i ==> !(graph_pb((#[trigger] xs@[k]).graph) || match_clause_pb(xs@[k].match_clause)),
        decreases xs.len() - i,
    {
        if graph_expression_contains_procedure_body(&xs[i].graph) || match_clause_contains_procedure_body(&xs[i].match_clause) {
            return true;
        }
        i += 1;
    }
    false
}

/// Whether an element of `xs` holds an inline procedure call.
pub open spec fn order_items_pb(xs: Seq<OrderByItem>) -> bool
    decreases xs,
{
    exists|i: int| 0 <= i < xs.len() && (expr_pb((#[trigger] xs[i]).expr))
}

fn order_items_contain_procedure_body(xs: &Vec<OrderByItem>) -> (r: bool)
    ensures
        r == order_items_pb(xs@),
    decreases xs,
{
    let mut i: usize = 0;
    while i < xs.len()
        invariant
            i <= xs.len(),
            forall|k: int| 0 <= k < i ==> !(expr_pb((#[trigger] xs@[k]).expr)),
        decreases xs.len() - i,
    {
        if expr_contains_procedure_body(&xs[i].expr) {
            return true;
        }
        i += 1;
    }
    false
}

/// Whether an element of `xs` holds an inline procedure call.
pub open spec fn set_items_pb(xs: Seq<SetItem>) -> bool
    decreases xs,
{
    exists|i: int| 0 <= i < xs.len() && (set_item_pb((#[trigger] xs[i])))
}

fn set_items_contain_procedure_body(xs: &Vec<SetItem>) -> (r: bool)
    ensures
        r == set_items_pb(xs@),
    decreases xs,
{
    let mut i: usize = 0;
    while i < xs.len()
        invariant
            i <= xs.len(),
            forall|k: int| 0 <= k < i ==> !(set_item_pb((#[trigger] xs@[k]))),
        decreases xs.len() - i,
    {
        if set_item_contains_procedure_body(&xs[i]) {
            return true;
        }
        i += 1;
    }
    false
}

/// Whether an element of `xs` holds an inline procedure call.
pub open spec fn remove_items_pb(xs: Seq<RemoveItem>) -> bool
    decreases xs,
{
    exists|i: int| 0 <= i < xs.len() && (remove_item_pb((#[trigger] xs[i])))
}

fn remove_items_contain_procedure_body(xs: &Vec<RemoveItem>) -> (r: bool)
    ensures
        r == remove_items_pb(xs@),
    decreases xs,
{
    let mut i: usize = 0;
    while i < xs.len()
        invariant
            i <= xs.len(),
            forall|k: int| 0 <= k < i ==> !(remove_item_pb((#[trigger] xs@[k]))),
        decreases xs.len() - i,
    {
        if remove_item_contains_procedure_body(&xs[i]) {
            return true;
        }
        i += 1;
    }
    false
}

/// Whether an element of `xs` holds an inline procedure call.
pub open spec fn chains_pb(xs: Seq<PathPatternChain>) -> bool
    decreases xs,
{
    exists|i: int| 0 <= i < xs.len() && (relationship_pb((#[trigger] xs[i]).relationship) || node_pb(xs[i].node))
}

fn chains_contain_procedure_body(xs: &Vec<PathPatternChain>) -> (r: bool)
    ensures
        r == chains_pb(xs@),
    decreases xs,
{
    let mut i: usize = 0;
    while i < xs.len()
        invariant
            i <= xs.len(),
            forall|k: int| 0 <= k < i ==> !(relationship_pb((#[trigger] xs@[k]).relationship) || node_pb(xs@[k].node)),
        decreases xs.len() - i,
    {
        if relationship_pattern_contains_procedure_body(&xs[i].relationship) || node_pattern_contains_procedure_body(&xs[i].node) {
            return true;
        }
        i += 1;
    }
    false
}

/// Whether an element of `xs` holds an inline procedure call.
pub open spec fn factors_pb(xs: Seq<PathPatternFactor>) -> bool
    decreases xs,
{
    exists|i: int| 0 <= i < xs.len() && (factor_pb((#[trigger] xs[i])))
}

fn factors_contain_procedure_body(xs: &Vec<PathPatternFactor>) -> (r: bool)
    ensures
        r == factors_pb(xs@),
    decreases xs,
{
    let mut i: usize = 0;
    while i < xs.len()
        invariant
            i <= xs.len(),
            forall|k: int| 0 <= k < i ==> !(factor_pb((#[trigger] xs@[k]))),
        decreases xs.len() - i,
    {
        if path_pattern_factor_contains_procedure_body(&xs[i]) {
            return true;
        }
        i += 1;
    }
    false
}

/// Whether an element of `xs` holds an inline procedure call.
pub open spec fn terms_pb(xs: Seq<PathPatternTerm>) -> bool
    decreases xs,
{
    exists|i: int| 0 <= i < xs.len() && (node_pb((#[trigger] xs[i]).start) || chains_pb(xs[i].chains@) || factors_pb(xs[i].factors@))
}

fn terms_contain_procedure_body(xs: &Vec<PathPatternTerm>) -> (r: bool)
    ensures
        r == terms_pb(xs@),
    decreases xs,
{
    let mut i: usize = 0;
    while i < xs.len()
        invariant
            i <= xs.len(),
            forall|k: int| 0 <= k < i ==> !(node_pb((#[trigger] xs@[k]).start) || chains_pb(xs@[k].chains@) || factors_pb(xs@[k].factors@)),
        decreases xs.len() - i,
    {
        if node_pattern_contains_procedure_body(&xs[i].start) || chains_contain_procedure_body(&xs[i].chains) || factors_contain_procedure_body(&xs[i].factors) {
            return true;
        }
        i += 1;
    }
    false
}

/// Whether an element of `xs` holds an inline procedure call.
pub open spec fn factor_lists_pb(xs: Seq<Vec<PathPatternFactor>>) -> bool
    decreases xs,
{
    exists|i: int| 0 <= i < xs.len() && (factors_pb((#[trigger] xs[i])@))
}

fn factor_lists_contain_procedure_body(xs: &Vec<Vec<PathPatternFactor>>) -> (r: bool)
    ensures
        r == factor_lists_pb(xs@),
    decreases xs,
{
    let mut i: usize = 0;
    while i < xs.len()
        invariant
            i <= xs.len(),
            forall|k: int| 0 <= k < i ==> !(factors_pb((#[trigger] xs@[k])@)),
        decreases xs.len() - i,
    {
        if factors_contain_procedure_body(&xs[i]) {
            return true;
        }
        i += 1;
    }
    false
}

} // verus!
