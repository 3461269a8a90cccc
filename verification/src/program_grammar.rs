use vstd::prelude::*;
use crate::ast::{CatalogNameView, SchemaReferenceView, SessionResetTargetView, StartTransactionStatement, ValueTypeView, YieldItem, YieldItemView};
use crate::catalog::{drop_statement_step, DropStatement, DropStatementView};
use crate::clause_grammar::{
    program_at_schema_step, starts_simple_catalog_modifying_statement, starts_binding_variable_definition, starts_session_activity_command,
    starts_session_close_command, yield_items_rest,
};
use crate::error::ErrorView;
use crate::expr_grammar::{expr_step, expr_view, ExprView, LiteralView};
use crate::fragments::definition_value_type_step;
use crate::grammar::{
    commit_step, identifier_step, if_not_exists_step, message_at, parameter_name_step, rollback_step, schema_reference_step,
    session_reset_step, start_transaction_step, typed_marker_step,
};
use crate::lookahead::is_character_string_kind;
use crate::type_grammar::value_type_step;
use crate::modify_grammar::{
    delete_statement_step, delete_view, is_statement_follow, remove_items_view, remove_statement_step, set_items_view,
    set_statement_step, RemoveItemView, SetItemView,
};
use crate::query_grammar::{query_statement_step, query_statement_view, QueryStatementView};
use crate::parser::{kind_ahead, expect_step, expected_err, kind_at, lex_from, eof_token, next_pos, skip_all, tok, InputView};
use crate::syntax::{BindingTableExpression, BindingVariableDefinition, GraphExpression, Program, SessionSetCommand, SessionSetTarget, Statement};
use crate::lookahead::{object_primary_special_case, starts_parameter_property_reference};
use crate::grammar::catalog_name_step;
use crate::text::trim_dollars;
use crate::text::eq_ignore_ascii_case;
use crate::token::TokenKind;

verus! {

/// The mathematical value of a [`Statement`], for the statements that
/// [`Parser::parse_program`] reads; every other statement reads as `Other`.
pub enum StatementView {
    StartTransaction(StartTransactionStatement),
    Commit,
    Rollback,
    SessionReset(SessionResetTargetView),
    SessionClose,
    SessionSet(SessionSetView),
    Drop(DropStatementView),
    LinearCatalog(Seq<StatementView>),
    Query(QueryStatementView),
    Next { yield_items: Option<Seq<YieldItemView>>, statement: Box<StatementView> },
    Delete { detach: bool, items: Seq<ExprView> },
    SetItems(Seq<SetItemView>),
    Remove(Seq<RemoveItemView>),
    Other,
}

/// The mathematical value of a [`SessionSetCommand`], for the targets that
/// [`Parser::parse_statement`] reads; graph and binding table targets read as `Other`.
pub enum SessionSetView {
    Schema(SchemaReferenceView),
    Graph(GraphExpressionView),
    GraphParameter {
        property_graph: bool,
        if_not_exists: bool,
        name: Seq<char>,
        typed: bool,
        value_type: Option<ValueTypeView>,
        initializer: GraphExpressionView,
    },
    BindingTableParameter {
        binding: bool,
        if_not_exists: bool,
        name: Seq<char>,
        typed: bool,
        value_type: Option<ValueTypeView>,
        initializer: BindingTableExpressionView,
    },
    TimeZone(ExprView),
    Value { if_not_exists: bool, name: Seq<char>, typed: bool, value_type: Option<ValueTypeView>, initializer: ExprView },
    Other,
}

/// The mathematical value of a [`GraphExpression`].
pub enum GraphExpressionView {
    Variable(ExprView),
    Name(CatalogNameView),
    Parameter(Seq<char>),
    CurrentGraph,
    CurrentPropertyGraph,
    HomeGraph,
    HomePropertyGraph,
}

/// The mathematical value of a [`BindingTableExpression`], for the forms that
/// [`Parser::parse_statement`] reads; a nested query reads as `Other`.
pub enum BindingTableExpressionView {
    Variable(ExprView),
    Name(CatalogNameView),
    Parameter(Seq<char>),
    Other,
}

/// The value of a binding table expression.
pub open spec fn binding_table_expression_view(b: BindingTableExpression) -> BindingTableExpressionView {
    match b {
        BindingTableExpression::Variable(e) => BindingTableExpressionView::Variable(expr_view(*e)),
        BindingTableExpression::Name(n) => BindingTableExpressionView::Name(n@),
        BindingTableExpression::Parameter(s) => BindingTableExpressionView::Parameter(s@),
        _ => BindingTableExpressionView::Other,
    }
}

/// The value of a graph expression.
pub open spec fn graph_expression_view(g: GraphExpression) -> GraphExpressionView {
    match g {
        GraphExpression::Variable(e) => GraphExpressionView::Variable(expr_view(*e)),
        GraphExpression::Name(n) => GraphExpressionView::Name(n@),
        GraphExpression::Parameter(s) => GraphExpressionView::Parameter(s@),
        GraphExpression::CurrentGraph => GraphExpressionView::CurrentGraph,
        GraphExpression::CurrentPropertyGraph => GraphExpressionView::CurrentPropertyGraph,
        GraphExpression::HomeGraph => GraphExpressionView::HomeGraph,
        GraphExpression::HomePropertyGraph => GraphExpressionView::HomePropertyGraph,
    }
}

/// The value of a `SESSION SET` command.
pub open spec fn session_set_view(c: SessionSetCommand) -> SessionSetView {
    match c.target {
        SessionSetTarget::Schema(s) => SessionSetView::Schema(s@),
        SessionSetTarget::TimeZone(e) => SessionSetView::TimeZone(expr_view(e)),
        SessionSetTarget::Graph(g) => SessionSetView::Graph(graph_expression_view(g)),
        SessionSetTarget::GraphParameter(p) => SessionSetView::GraphParameter {
            property_graph: p.property_graph,
            if_not_exists: p.if_not_exists,
            name: p.name@,
            typed: p.typed,
            value_type: match p.value_type {
                Some(t) => Some(t@),
                None => None,
            },
            initializer: graph_expression_view(p.initializer),
        },
        SessionSetTarget::BindingTableParameter(p) => SessionSetView::BindingTableParameter {
            binding: p.binding,
            if_not_exists: p.if_not_exists,
            name: p.name@,
            typed: p.typed,
            value_type: match p.value_type {
                Some(t) => Some(t@),
                None => None,
            },
            initializer: binding_table_expression_view(p.initializer),
        },
        SessionSetTarget::ValueParameter(p) => SessionSetView::Value {
            if_not_exists: p.if_not_exists,
            name: p.name@,
            typed: p.typed,
            value_type: match p.value_type {
                Some(t) => Some(t@),
                None => None,
            },
            initializer: expr_view(p.initializer),
        },
        _ => SessionSetView::Other,
    }
}

/// The mathematical value of a [`BindingVariableDefinition`], for the value variable
/// definitions that [`Parser::parse_program`] reads; other definitions read as `Other`.
pub enum DefinitionView {
    Value { name: Seq<char>, typed: bool, value_type: Option<ValueTypeView>, initializer: ExprView },
    Graph {
        property_graph: bool,
        name: Seq<char>,
        typed: bool,
        value_type: Option<ValueTypeView>,
        initializer: GraphExpressionView,
    },
    BindingTable {
        binding: bool,
        name: Seq<char>,
        typed: bool,
        value_type: Option<ValueTypeView>,
        initializer: BindingTableExpressionView,
    },
}

/// The mathematical value of a [`Program`].
pub struct ProgramView {
    pub at_schema: Option<SchemaReferenceView>,
    pub definitions: Seq<DefinitionView>,
    pub statements: Seq<StatementView>,
}

/// The value of a statement, with a sequence of catalog statements read as `Other`.
pub open spec fn simple_statement_view(s: Statement) -> StatementView {
    match s {
        Statement::DropGraph(d) => StatementView::Drop(DropStatement::Graph(d)@),
        Statement::DropGraphType(d) => StatementView::Drop(DropStatement::GraphType(d)@),
        Statement::DropSchema(d) => StatementView::Drop(DropStatement::Schema(d)@),
        Statement::Query(q) => StatementView::Query(query_statement_view(q)),
        Statement::StartTransaction(t) => StatementView::StartTransaction(t),
        Statement::Commit(_) => StatementView::Commit,
        Statement::Rollback(_) => StatementView::Rollback,
        Statement::SessionReset(c) => StatementView::SessionReset(c@),
        Statement::SessionClose(_) => StatementView::SessionClose,
        Statement::SessionSet(c) => StatementView::SessionSet(session_set_view(c)),
        Statement::Delete(d) => StatementView::Delete { detach: delete_view(d).0, items: delete_view(d).1 },
        Statement::SetStatement(x) => StatementView::SetItems(set_items_view(x)),
        Statement::Remove(x) => StatementView::Remove(remove_items_view(x)),
        _ => StatementView::Other,
    }
}

/// The value of a statement.
pub open spec fn statement_view(s: Statement) -> StatementView
    decreases s,
{
    match s {
        Statement::Next(n) => StatementView::Next {
            yield_items: match n.yield_clause {
                Some(c) => Some(c.items@.map_values(|i: YieldItem| i@)),
                None => None,
            },
            statement: Box::new(statement_view(*n.statement)),
        },
        Statement::LinearCatalog(v) => StatementView::LinearCatalog(
            v@.map_values(|x: Statement| simple_statement_view(x)),
        ),
        Statement::DropGraph(d) => StatementView::Drop(DropStatement::Graph(d)@),
        Statement::DropGraphType(d) => StatementView::Drop(DropStatement::GraphType(d)@),
        Statement::DropSchema(d) => StatementView::Drop(DropStatement::Schema(d)@),
        Statement::Query(q) => StatementView::Query(query_statement_view(q)),
        Statement::StartTransaction(t) => StatementView::StartTransaction(t),
        Statement::Commit(_) => StatementView::Commit,
        Statement::Rollback(_) => StatementView::Rollback,
        Statement::SessionReset(c) => StatementView::SessionReset(c@),
        Statement::SessionClose(_) => StatementView::SessionClose,
        Statement::SessionSet(c) => StatementView::SessionSet(session_set_view(c)),
        Statement::Delete(d) => StatementView::Delete { detach: delete_view(d).0, items: delete_view(d).1 },
        Statement::SetStatement(x) => StatementView::SetItems(set_items_view(x)),
        Statement::Remove(x) => StatementView::Remove(remove_items_view(x)),
        _ => StatementView::Other,
    }
}

/// The value of a binding variable definition.
pub open spec fn definition_view(d: BindingVariableDefinition) -> DefinitionView {
    match d {
        BindingVariableDefinition::Value(d) => DefinitionView::Value {
            name: d.name@,
            typed: d.typed,
            value_type: match d.value_type {
                Some(t) => Some(t@),
                None => None,
            },
            initializer: expr_view(d.initializer),
        },
        BindingVariableDefinition::Graph(d) => DefinitionView::Graph {
            property_graph: d.property_graph,
            name: d.name@,
            typed: d.typed,
            value_type: match d.value_type {
                Some(t) => Some(t@),
                None => None,
            },
            initializer: graph_expression_view(d.initializer),
        },
        BindingVariableDefinition::BindingTable(d) => DefinitionView::BindingTable {
            binding: d.binding,
            name: d.name@,
            typed: d.typed,
            value_type: match d.value_type {
                Some(t) => Some(t@),
                None => None,
            },
            initializer: binding_table_expression_view(d.initializer),
        },
    }
}

/// The name that a definition binds.
pub open spec fn definition_name(d: DefinitionView) -> Seq<char> {
    match d {
        DefinitionView::Value { name, .. } => name,
        DefinitionView::Graph { name, .. } => name,
        DefinitionView::BindingTable { name, .. } => name,
    }
}

/// The value of a program.
pub open spec fn program_view(p: Program) -> ProgramView {
    ProgramView {
        at_schema: match p.at_schema {
            Some(s) => Some(s@),
            None => None,
        },
        definitions: p.definitions@.map_values(|d: BindingVariableDefinition| definition_view(d)),
        statements: p.statements@.map_values(|s: Statement| statement_view(s)),
    }
}

/// The message for a statement or definition that this parser does not read.
pub open spec fn unsupported_statement_message() -> Seq<char> {
    "statement form is not supported by this parser"@
}

/// The kinds that open a statement this parser does not read: queries, procedure calls,
/// data-modifying and catalog-modifying statements.
pub open spec fn other_statement_kind(k: TokenKind) -> bool {
    match k {
        TokenKind::At
        | TokenKind::Use
        | TokenKind::Match
        | TokenKind::Filter
        | TokenKind::Let
        | TokenKind::For
        | TokenKind::Order
        | TokenKind::Offset
        | TokenKind::Skip
        | TokenKind::Limit
        | TokenKind::LBrace
        | TokenKind::Return
        | TokenKind::Select
        | TokenKind::Finish
        | TokenKind::Optional
        | TokenKind::Call
        | TokenKind::Insert
        | TokenKind::Delete
        | TokenKind::Detach
        | TokenKind::Nodetach
        | TokenKind::SetKeyword
        | TokenKind::Remove
        | TokenKind::Create
        | TokenKind::Drop => true,
        _ => false,
    }
}

/// The kinds named when no statement starts at a token.
pub open spec fn statement_starts() -> Seq<TokenKind> {
    seq![
        TokenKind::Use,
        TokenKind::At,
        TokenKind::Match,
        TokenKind::Optional,
        TokenKind::Filter,
        TokenKind::Let,
        TokenKind::For,
        TokenKind::Order,
        TokenKind::Offset,
        TokenKind::Skip,
        TokenKind::Limit,
        TokenKind::Call,
        TokenKind::Return,
        TokenKind::Select,
        TokenKind::Finish,
        TokenKind::Start,
        TokenKind::Commit,
        TokenKind::Rollback,
        TokenKind::Insert,
        TokenKind::Delete,
        TokenKind::SetKeyword,
        TokenKind::Session,
        TokenKind::Reset,
        TokenKind::Close,
        TokenKind::Remove,
        TokenKind::Create,
        TokenKind::Drop,
    ]
}

/// Whether a query statement starts at `p`: `AT`, `USE`, a query clause, a nested query,
/// a result clause, or `OPTIONAL` not before `CALL`.
pub open spec fn starts_query(v: InputView, p: int) -> bool {
    let k = kind_at(v, p);
    ||| match k {
        TokenKind::At
        | TokenKind::Use
        | TokenKind::Match
        | TokenKind::Filter
        | TokenKind::Let
        | TokenKind::For
        | TokenKind::Order
        | TokenKind::Offset
        | TokenKind::Skip
        | TokenKind::Limit
        | TokenKind::LBrace
        | TokenKind::Return
        | TokenKind::Select
        | TokenKind::Finish => true,
        _ => false,
    }
    ||| k == TokenKind::Optional && kind_ahead(v, p, 1) != Some(TokenKind::Call)
}

/// A statement: `START TRANSACTION`, `COMMIT`, `ROLLBACK`, `SESSION RESET`,
/// `SESSION CLOSE`, `DROP` statements, or a query; every other statement is refused.
pub open spec fn statement_step(v: InputView, p: int) -> (Result<StatementView, ErrorView>, int) {
    let k = kind_at(v, p);
    if k == TokenKind::Start {
        match start_transaction_step(v, p) {
            (Err(e), q) => (Err(e), q),
            (Ok(t), q) => (Ok(StatementView::StartTransaction(t)), q),
        }
    } else if k == TokenKind::Commit {
        match commit_step(v, p) {
            (Err(e), q) => (Err(e), q),
            (Ok(_), q) => (Ok(StatementView::Commit), q),
        }
    } else if k == TokenKind::Rollback {
        match rollback_step(v, p) {
            (Err(e), q) => (Err(e), q),
            (Ok(_), q) => (Ok(StatementView::Rollback), q),
        }
    } else if k == TokenKind::Session {
        let q = next_pos(v, p);
        let k2 = kind_at(v, q);
        if k2 == TokenKind::Reset {
            match session_reset_step(v, q) {
                (Err(e), q1) => (Err(e), q1),
                (Ok(t), q1) => (Ok(StatementView::SessionReset(t)), q1),
            }
        } else if k2 == TokenKind::Close {
            (Ok(StatementView::SessionClose), next_pos(v, q))
        } else if k2 == TokenKind::SetKeyword {
            match session_set_step(v, next_pos(v, q)) {
                (Err(e), q1) => (Err(e), q1),
                (Ok(t), q1) => (Ok(StatementView::SessionSet(t)), q1),
            }
        } else {
            (Err(expected_err(v, q, seq![TokenKind::SetKeyword, TokenKind::Reset, TokenKind::Close], k2)), q)
        }
    } else if starts_query(v, p) {
        match query_statement_step(v, p) {
            (Err(e), q) => (Err(e), q),
            (Ok(qv), q) => (Ok(StatementView::Query(qv)), q),
        }
    } else if k == TokenKind::Delete || k == TokenKind::Detach || k == TokenKind::Nodetach || k == TokenKind::SetKeyword
        || k == TokenKind::Remove {
        data_modifying_step(v, p)
    } else if k == TokenKind::Drop {
        catalog_statement_step(v, p)
    } else if other_statement_kind(k) {
        (Err(message_at(v, p, unsupported_statement_message())), p)
    } else {
        (Err(expected_err(v, p, statement_starts(), k)), p)
    }
}

/// What follows `SESSION SET`: `SCHEMA` and a schema reference, `TIME ZONE` and a
/// character string or an expression, or `VALUE` and a value parameter with its optional
/// type and initializer. Graph and binding table targets are refused.
pub open spec fn session_set_step(v: InputView, p: int) -> (Result<SessionSetView, ErrorView>, int) {
    let k = kind_at(v, p);
    let q = next_pos(v, p);
    if k == TokenKind::Schema {
        match schema_reference_step(v, q) {
            (Err(e), q1) => (Err(e), q1),
            (Ok(s), q1) => (Ok(SessionSetView::Schema(s)), q1),
        }
    } else if k == TokenKind::Graph || k == TokenKind::Property {
        let (g, q1) = if k == TokenKind::Property {
            match expect_step(v, q, TokenKind::Graph) {
                (Err(e), qa) => (Err(e), qa),
                (Ok(_), qa) => (Ok(()), qa),
            }
        } else {
            (Ok(()), q)
        };
        match g {
            Err(e) => (Err(e), q1),
            Ok(_) => if starts_session_graph_parameter(v, q1) {
                session_graph_parameter_step(v, q1, k == TokenKind::Property)
            } else {
                match graph_expression_step(v, q1) {
                    (Err(e), q2) => (Err(e), q2),
                    (Ok(x), q2) => (Ok(SessionSetView::Graph(x)), q2),
                }
            },
        }
    } else if k == TokenKind::Binding || k == TokenKind::Table {
        let binding = k == TokenKind::Binding;
        match expect_step(v, if binding { q } else { p }, TokenKind::Table) {
            (Err(e), q1) => (Err(e), q1),
            (Ok(_), q1) => session_binding_table_parameter_step(v, q1, binding),
        }
    } else if k == TokenKind::Time {
        match expect_step(v, q, TokenKind::Zone) {
            (Err(e), q1) => (Err(e), q1),
            (Ok(_), q1) => if is_character_string_kind(kind_at(v, q1)) {
                (
                    Ok(SessionSetView::TimeZone(ExprView::Literal(LiteralView::String(tok(v, q1).text)))),
                    next_pos(v, q1),
                )
            } else {
                match expr_step(v, q1) {
                    (Err(e), q2) => (Err(e), q2),
                    (Ok(x), q2) => (Ok(SessionSetView::TimeZone(x)), q2),
                }
            },
        }
    } else if k == TokenKind::Value {
        session_value_parameter_step(v, q)
    } else {
        (
            Err(
                expected_err(
                    v,
                    p,
                    seq![
                        TokenKind::Schema,
                        TokenKind::Graph,
                        TokenKind::Property,
                        TokenKind::Binding,
                        TokenKind::Table,
                        TokenKind::Time,
                        TokenKind::Value,
                    ],
                    k,
                ),
            ),
            p,
        )
    }
}

/// A graph expression: `VARIABLE` and an expression, an expression in parentheses or on a
/// parameter's property, a parameter, `CURRENT_GRAPH`, `CURRENT_PROPERTY_GRAPH`,
/// `HOME_GRAPH`, `HOME_PROPERTY_GRAPH`, another expression that cannot name a graph, or a
/// graph name.
pub open spec fn graph_expression_step(v: InputView, p: int) -> (Result<GraphExpressionView, ErrorView>, int) {
    let k = kind_at(v, p);
    let q = next_pos(v, p);
    if k == TokenKind::Variable {
        match expr_step(v, q) {
            (Err(e), q1) => (Err(e), q1),
            (Ok(x), q1) => (Ok(GraphExpressionView::Variable(x)), q1),
        }
    } else if k == TokenKind::LParen || starts_parameter_property_reference(v, p) {
        match expr_step(v, p) {
            (Err(e), q1) => (Err(e), q1),
            (Ok(x), q1) => (Ok(GraphExpressionView::Variable(x)), q1),
        }
    } else if k == TokenKind::Parameter {
        (Ok(GraphExpressionView::Parameter(trim_dollars(tok(v, p).text))), q)
    } else if k == TokenKind::CurrentGraph {
        (Ok(GraphExpressionView::CurrentGraph), q)
    } else if k == TokenKind::CurrentPropertyGraph {
        (Ok(GraphExpressionView::CurrentPropertyGraph), q)
    } else if k == TokenKind::HomeGraph {
        (Ok(GraphExpressionView::HomeGraph), q)
    } else if k == TokenKind::HomePropertyGraph {
        (Ok(GraphExpressionView::HomePropertyGraph), q)
    } else if object_primary_special_case(v, p, k) {
        match expr_step(v, p) {
            (Err(e), q1) => (Err(e), q1),
            (Ok(x), q1) => (Ok(GraphExpressionView::Variable(x)), q1),
        }
    } else {
        match catalog_name_step(v, p) {
            (Err(e), q1) => (Err(e), q1),
            (Ok(n), q1) => (Ok(GraphExpressionView::Name(n)), q1),
        }
    }
}

/// A session graph parameter: an optional `IF NOT EXISTS`, a name, an optional type, `=`
/// and a graph expression.
pub open spec fn session_graph_parameter_step(v: InputView, p: int, property_graph: bool) -> (
    Result<SessionSetView, ErrorView>,
    int,
) {
    match if_not_exists_step(v, p) {
        (Err(e), q) => (Err(e), q),
        (Ok(if_not_exists), q) => match parameter_name_step(v, q) {
            (Err(e), q1) => (Err(e), q1),
            (Ok(name), q1) => match definition_value_type_step(v, q1) {
                (Err(e), q2) => (Err(e), q2),
                (Ok((typed, value_type)), q2) => match expect_step(v, q2, TokenKind::Eq) {
                    (Err(e), q3) => (Err(e), q3),
                    (Ok(_), q3) => match graph_expression_step(v, q3) {
                        (Err(e), q4) => (Err(e), q4),
                        (Ok(initializer), q4) => (
                            Ok(SessionSetView::GraphParameter { property_graph, if_not_exists, name, typed, value_type, initializer }),
                            q4,
                        ),
                    },
                },
            },
        },
    }
}

/// A binding table expression: a nested query is refused; `VARIABLE` and an expression, an
/// expression in parentheses or on a parameter's property, a parameter, another expression
/// that cannot name a binding table, or a binding table name.
pub open spec fn binding_table_expression_step(v: InputView, p: int) -> (
    Result<BindingTableExpressionView, ErrorView>,
    int,
) {
    let k = kind_at(v, p);
    let q = next_pos(v, p);
    if k == TokenKind::LBrace {
        (Err(message_at(v, p, unsupported_statement_message())), p)
    } else if k == TokenKind::Variable {
        match expr_step(v, q) {
            (Err(e), q1) => (Err(e), q1),
            (Ok(x), q1) => (Ok(BindingTableExpressionView::Variable(x)), q1),
        }
    } else if k == TokenKind::LParen || starts_parameter_property_reference(v, p) {
        match expr_step(v, p) {
            (Err(e), q1) => (Err(e), q1),
            (Ok(x), q1) => (Ok(BindingTableExpressionView::Variable(x)), q1),
        }
    } else if k == TokenKind::Parameter {
        (Ok(BindingTableExpressionView::Parameter(trim_dollars(tok(v, p).text))), q)
    } else if object_primary_special_case(v, p, k) {
        match expr_step(v, p) {
            (Err(e), q1) => (Err(e), q1),
            (Ok(x), q1) => (Ok(BindingTableExpressionView::Variable(x)), q1),
        }
    } else {
        match catalog_name_step(v, p) {
            (Err(e), q1) => (Err(e), q1),
            (Ok(n), q1) => (Ok(BindingTableExpressionView::Name(n)), q1),
        }
    }
}

/// A session binding table parameter: an optional `IF NOT EXISTS`, a name, an optional
/// type, `=` and a binding table expression.
pub open spec fn session_binding_table_parameter_step(v: InputView, p: int, binding: bool) -> (
    Result<SessionSetView, ErrorView>,
    int,
) {
    match if_not_exists_step(v, p) {
        (Err(e), q) => (Err(e), q),
        (Ok(if_not_exists), q) => match parameter_name_step(v, q) {
            (Err(e), q1) => (Err(e), q1),
            (Ok(name), q1) => match definition_value_type_step(v, q1) {
                (Err(e), q2) => (Err(e), q2),
                (Ok((typed, value_type)), q2) => match expect_step(v, q2, TokenKind::Eq) {
                    (Err(e), q3) => (Err(e), q3),
                    (Ok(_), q3) => match binding_table_expression_step(v, q3) {
                        (Err(e), q4) => (Err(e), q4),
                        (Ok(initializer), q4) => (
                            Ok(SessionSetView::BindingTableParameter { binding, if_not_exists, name, typed, value_type, initializer }),
                            q4,
                        ),
                    },
                },
            },
        },
    }
}

/// Whether a session graph parameter that a whole statement ends after starts at `p`.
pub open spec fn starts_session_graph_parameter(v: InputView, p: int) -> bool {
    match session_graph_parameter_step(v, p, false) {
        (Ok(_), q) => is_statement_follow(kind_at(v, q)),
        _ => false,
    }
}

/// A session value parameter: an optional `IF NOT EXISTS`, a name, an optional type,
/// `=` and an expression.
pub open spec fn session_value_parameter_step(v: InputView, p: int) -> (Result<SessionSetView, ErrorView>, int) {
    match if_not_exists_step(v, p) {
        (Err(e), q) => (Err(e), q),
        (Ok(if_not_exists), q) => match parameter_name_step(v, q) {
            (Err(e), q1) => (Err(e), q1),
            (Ok(name), q1) => {
                let (t, q2) = if kind_at(v, q1) == TokenKind::Eq {
                    (Ok((false, None)), q1)
                } else {
                    match typed_marker_step(v, q1) {
                        (Err(e), qa) => (Err(e), qa),
                        (Ok(typed), qa) => match value_type_step(v, qa) {
                            (Err(e), qb) => (Err(e), qb),
                            (Ok(vt), qb) => (Ok((typed, Some(vt))), qb),
                        },
                    }
                };
                match t {
                    Err(e) => (Err(e), q2),
                    Ok((typed, value_type)) => match expect_step(v, q2, TokenKind::Eq) {
                        (Err(e), q3) => (Err(e), q3),
                        (Ok(_), q3) => match expr_step(v, q3) {
                            (Err(e), q4) => (Err(e), q4),
                            (Ok(initializer), q4) => (
                                Ok(SessionSetView::Value { if_not_exists, name, typed, value_type, initializer }),
                                q4,
                            ),
                        },
                    },
                }
            },
        },
    }
}

/// A `DELETE`, `SET` or `REMOVE` statement; when no `;`, `NEXT`, `}` or end of input
/// follows it, what starts at `p` is read as a query instead.
pub open spec fn data_modifying_step(v: InputView, p: int) -> (Result<StatementView, ErrorView>, int) {
    let k = kind_at(v, p);
    let (r, q) = if k == TokenKind::SetKeyword {
        match set_statement_step(v, p) {
            (Err(e), q) => (Err(e), q),
            (Ok(items), q) => (Ok(StatementView::SetItems(items)), q),
        }
    } else if k == TokenKind::Remove {
        match remove_statement_step(v, p) {
            (Err(e), q) => (Err(e), q),
            (Ok(items), q) => (Ok(StatementView::Remove(items)), q),
        }
    } else {
        match delete_statement_step(v, p) {
            (Err(e), q) => (Err(e), q),
            (Ok((detach, items)), q) => (Ok(StatementView::Delete { detach, items }), q),
        }
    };
    match r {
        Err(e) => (Err(e), q),
        Ok(s) => if is_statement_follow(kind_at(v, q)) {
            (Ok(s), q)
        } else {
            match query_statement_step(v, p) {
                (Err(e), q1) => (Err(e), q1),
                (Ok(qv), q1) => (Ok(StatementView::Query(qv)), q1),
            }
        },
    }
}

/// `DROP` statements one after the other: one reads as itself, more as a sequence of
/// catalog statements. `CREATE` and procedure calls among them are refused.
pub open spec fn catalog_statement_step(v: InputView, p: int) -> (Result<StatementView, ErrorView>, int) {
    match drop_statement_step(v, p) {
        (Err(e), q) => (Err(e), q),
        (Ok(d), q) => {
            let (r, q2) = if p < q < v.tokens.len() {
                catalog_rest(v, q, seq![StatementView::Drop(d)])
            } else {
                (Ok(seq![StatementView::Drop(d)]), q)
            };
            match r {
                Err(e) => (Err(e), q2),
                Ok(ss) => if ss.len() == 1 {
                    (Ok(ss[0]), q2)
                } else {
                    (Ok(StatementView::LinearCatalog(ss)), q2)
                },
            }
        },
    }
}

/// More catalog statements after the ones in `acc`.
pub open spec fn catalog_rest(v: InputView, p: int, acc: Seq<StatementView>) -> (
    Result<Seq<StatementView>, ErrorView>,
    int,
)
    decreases v.tokens.len() - p,
    when 0 <= p < v.tokens.len()
{
    if !starts_simple_catalog_modifying_statement(v, p) {
        (Ok(acc), p)
    } else if kind_at(v, p) != TokenKind::Drop {
        (Err(message_at(v, p, unsupported_statement_message())), p)
    } else {
        match drop_statement_step(v, p) {
            (Err(e), q) => (Err(e), q),
            (Ok(d), q) => if p < q < v.tokens.len() {
                catalog_rest(v, q, acc.push(StatementView::Drop(d)))
            } else {
                (Ok(acc.push(StatementView::Drop(d))), q)
            },
        }
    }
}

/// Whether a statement may follow the statement `s` without a semicolon, at `q`: a
/// procedure or `SESSION CLOSE` after `START TRANSACTION`, `SESSION CLOSE` after `COMMIT`
/// or `ROLLBACK`, `COMMIT`, `ROLLBACK` or `SESSION CLOSE` after catalog statements and
/// queries, and
/// another session command after `SESSION RESET`.
pub open spec fn continues_without_semicolon(s: StatementView, v: InputView, q: int) -> bool {
    match s {
        StatementView::StartTransaction(_) => other_statement_kind(kind_at(v, q)) || starts_session_close_command(
            v,
            q,
        ),
        StatementView::Commit | StatementView::Rollback => starts_session_close_command(v, q),
        StatementView::Drop(_) | StatementView::LinearCatalog(_) | StatementView::Query(_) | StatementView::Delete { .. }
        | StatementView::SetItems(_) | StatementView::Remove(_) => kind_at(v, q)
            == TokenKind::Commit || kind_at(v, q)
            == TokenKind::Rollback || starts_session_close_command(v, q),
        StatementView::SessionReset(_) | StatementView::SessionSet(_) => starts_session_activity_command(v, q)
            || starts_session_close_command(
            v,
            q,
        ),
        _ => false,
    }
}

/// `NEXT` statements, each with an optional `YIELD` clause whose items may be aliased, after
/// the statements in `acc`.
pub open spec fn next_rest(v: InputView, p: int, acc: Seq<StatementView>) -> (
    Result<Seq<StatementView>, ErrorView>,
    int,
)
    decreases v.tokens.len() - p,
    when 0 <= p < v.tokens.len()
{
    if kind_at(v, p) != TokenKind::Next {
        (Ok(acc), p)
    } else {
        let q = next_pos(v, p);
        let (y, q1) = if kind_at(v, q) == TokenKind::Yield {
            match yield_items_rest(v, Seq::empty(), Seq::empty(), next_pos(v, q), true) {
                (Err(e), qa) => (Err(e), qa),
                (Ok(items), qa) => (Ok(Some(items)), qa),
            }
        } else {
            (Ok(None), q)
        };
        match y {
            Err(e) => (Err(e), q1),
            Ok(yield_items) => match statement_step(v, q1) {
                (Err(e), q2) => (Err(e), q2),
                (Ok(s), q2) => {
                    let acc2 = acc.push(StatementView::Next { yield_items, statement: Box::new(s) });
                    if p < q2 < v.tokens.len() {
                        next_rest(v, q2, acc2)
                    } else {
                        (Ok(acc2), q2)
                    }
                },
            },
        }
    }
}

/// Statements, each followed by `NEXT` statements and ended by semicolons or by a
/// statement that may follow it directly, after the ones in `acc`, up to the end of the
/// input.
pub open spec fn statements_rest(v: InputView, p: int, acc: Seq<StatementView>) -> (
    Result<Seq<StatementView>, ErrorView>,
    int,
)
    decreases v.tokens.len() - p,
    when 0 <= p < v.tokens.len()
{
    if kind_at(v, p) == TokenKind::Eof {
        (Ok(acc), p)
    } else {
        match statement_step(v, p) {
            (Err(e), q) => (Err(e), q),
            (Ok(s), q0) => {
                let (n, q) = if 0 <= q0 < v.tokens.len() {
                    next_rest(v, q0, acc.push(s))
                } else {
                    (Ok(acc.push(s)), q0)
                };
                match n {
                    Err(e) => (Err(e), q),
                    Ok(acc2) => {
                        let k = kind_at(v, q);
                        if k != TokenKind::Semicolon && k != TokenKind::Eof {
                            if continues_without_semicolon(s, v, q0) {
                                if p < q < v.tokens.len() {
                                    statements_rest(v, q, acc2)
                                } else {
                                    (Ok(acc2), q)
                                }
                            } else {
                                (Err(expected_err(v, q, seq![TokenKind::Semicolon, TokenKind::Eof], k)), q)
                            }
                        } else {
                            let q2 = skip_all(v, q, TokenKind::Semicolon);
                            if p < q2 < v.tokens.len() {
                                statements_rest(v, q2, acc2)
                            } else {
                                (Ok(acc2), q2)
                            }
                        }
                    },
                }
            },
        }
    }
}

/// A value variable definition: `VALUE`, a name, an optional type, `=` and an expression.
pub open spec fn value_definition_step(v: InputView, p: int) -> (Result<DefinitionView, ErrorView>, int) {
    match expect_step(v, p, TokenKind::Value) {
        (Err(e), q) => (Err(e), q),
        (Ok(_), q) => match identifier_step(v, q) {
            (Err(e), q1) => (Err(e), q1),
            (Ok(name), q1) => match definition_value_type_step(v, q1) {
                (Err(e), q2) => (Err(e), q2),
                (Ok((typed, value_type)), q2) => match expect_step(v, q2, TokenKind::Eq) {
                    (Err(e), q3) => (Err(e), q3),
                    (Ok(_), q3) => match expr_step(v, q3) {
                        (Err(e), q4) => (Err(e), q4),
                        (Ok(initializer), q4) => (Ok(DefinitionView::Value { name, typed, value_type, initializer }), q4),
                    },
                },
            },
        },
    }
}

/// A graph variable definition: `GRAPH` or `PROPERTY GRAPH`, a name, an optional type, `=`
/// and a graph expression.
pub open spec fn graph_definition_step(v: InputView, p: int) -> (Result<DefinitionView, ErrorView>, int) {
    let property_graph = kind_at(v, p) == TokenKind::Property;
    let p1 = if property_graph {
        next_pos(v, p)
    } else {
        p
    };
    match expect_step(v, p1, TokenKind::Graph) {
        (Err(e), q) => (Err(e), q),
        (Ok(_), q) => match identifier_step(v, q) {
            (Err(e), q1) => (Err(e), q1),
            (Ok(name), q1) => match definition_value_type_step(v, q1) {
                (Err(e), q2) => (Err(e), q2),
                (Ok((typed, value_type)), q2) => match expect_step(v, q2, TokenKind::Eq) {
                    (Err(e), q3) => (Err(e), q3),
                    (Ok(_), q3) => match graph_expression_step(v, q3) {
                        (Err(e), q4) => (Err(e), q4),
                        (Ok(initializer), q4) => (
                            Ok(DefinitionView::Graph { property_graph, name, typed, value_type, initializer }),
                            q4,
                        ),
                    },
                },
            },
        },
    }
}

/// A binding table variable definition: `TABLE` after an optional `BINDING`, a name, an
/// optional type, `=` and a binding table expression.
pub open spec fn binding_table_definition_step(v: InputView, p: int) -> (Result<DefinitionView, ErrorView>, int) {
    let binding = kind_at(v, p) == TokenKind::Binding;
    let p1 = if binding {
        next_pos(v, p)
    } else {
        p
    };
    match expect_step(v, p1, TokenKind::Table) {
        (Err(e), q) => (Err(e), q),
        (Ok(_), q) => match identifier_step(v, q) {
            (Err(e), q1) => (Err(e), q1),
            (Ok(name), q1) => match definition_value_type_step(v, q1) {
                (Err(e), q2) => (Err(e), q2),
                (Ok((typed, value_type)), q2) => match expect_step(v, q2, TokenKind::Eq) {
                    (Err(e), q3) => (Err(e), q3),
                    (Ok(_), q3) => match binding_table_expression_step(v, q3) {
                        (Err(e), q4) => (Err(e), q4),
                        (Ok(initializer), q4) => (
                            Ok(DefinitionView::BindingTable { binding, name, typed, value_type, initializer }),
                            q4,
                        ),
                    },
                },
            },
        },
    }
}

/// A binding variable definition: of a value, a binding table or a graph.
pub open spec fn definition_step(v: InputView, p: int) -> (Result<DefinitionView, ErrorView>, int) {
    let k = kind_at(v, p);
    if k == TokenKind::Value {
        value_definition_step(v, p)
    } else if k == TokenKind::Binding || k == TokenKind::Table {
        binding_table_definition_step(v, p)
    } else {
        graph_definition_step(v, p)
    }
}

/// Whether a definition in `ds` has the name `n`, ignoring the case of ASCII letters.
pub open spec fn defines_name(ds: Seq<DefinitionView>, n: Seq<char>) -> bool {
    exists|i: int| 0 <= i < ds.len() && eq_ignore_ascii_case(definition_name(#[trigger] ds[i]), n)
}

/// Binding variable definitions, each followed by any semicolons, after the ones in `acc`.
/// A name may be defined once.
pub open spec fn definitions_rest(v: InputView, p: int, acc: Seq<DefinitionView>) -> (
    Result<Seq<DefinitionView>, ErrorView>,
    int,
)
    decreases v.tokens.len() - p,
    when 0 <= p < v.tokens.len()
{
    if !starts_binding_variable_definition(v, p) {
        (Ok(acc), p)
    } else {
        match definition_step(v, p) {
            (Err(e), q) => (Err(e), q),
            (Ok(d), q) => {
                let name = definition_name(d);
                if defines_name(acc, name) {
                    (
                        Err(
                            ErrorView::Message {
                                offset: tok(v, p).offset,
                                message: "duplicate binding variable '"@ + name + "'"@,
                            },
                        ),
                        q,
                    )
                } else {
                    let q2 = skip_all(v, q, TokenKind::Semicolon);
                    if p < q2 < v.tokens.len() {
                        definitions_rest(v, q2, acc.push(d))
                    } else {
                        (Ok(acc.push(d)), q2)
                    }
                }
            },
        }
    }
}

/// No two definitions bind names that are equal when the case of ASCII letters is ignored.
pub open spec fn definition_names_distinct(ds: Seq<DefinitionView>) -> bool {
    forall|i: int, j: int|
        0 <= i < j < ds.len() ==> !eq_ignore_ascii_case(definition_name(#[trigger] ds[i]), definition_name(#[trigger] ds[j]))
}

/// Definitions read after ones with distinct names have distinct names.
pub proof fn lemma_definitions_distinct(v: InputView, p: int, acc: Seq<DefinitionView>)
    requires
        0 <= p < v.tokens.len(),
        definition_names_distinct(acc),
    ensures
        definitions_rest(v, p, acc).0 matches Ok(ds) ==> definition_names_distinct(ds),
    decreases v.tokens.len() - p,
{
    if starts_binding_variable_definition(v, p) {
        match definition_step(v, p) {
            (Err(_), _) => {},
            (Ok(d), q) => {
                let name = definition_name(d);
                if !defines_name(acc, name) {
                    let acc2 = acc.push(d);
                    assert forall|i: int, j: int| 0 <= i < j < acc2.len() implies !eq_ignore_ascii_case(
                        definition_name(#[trigger] acc2[i]),
                        definition_name(#[trigger] acc2[j]),
                    ) by {
                        if j == acc.len() {
                            assert(acc2[i] == acc[i]);
                            if eq_ignore_ascii_case(definition_name(acc[i]), name) {
                                assert(defines_name(acc, name));
                            }
                        } else {
                            assert(acc2[i] == acc[i] && acc2[j] == acc[j]);
                        }
                    }
                    let q2 = skip_all(v, q, TokenKind::Semicolon);
                    if p < q2 < v.tokens.len() {
                        lemma_definitions_distinct(v, q2, acc2);
                    }
                }
            },
        }
    }
}

/// A program binds each name once: no two of the binding variable definitions that it reads
/// have names that are equal when the case of ASCII letters is ignored, whether they define
/// values, graphs or binding tables; a repeated name is refused.
pub proof fn law_definition_names_distinct(v: InputView, p: int)
    requires
        0 <= p < v.tokens.len(),
    ensures
        definitions_rest(v, p, Seq::empty()).0 matches Ok(ds) ==> definition_names_distinct(ds),
{
    lemma_definitions_distinct(v, p, Seq::empty());
}

/// A program: an optional `AT SCHEMA` clause that binding variable definitions follow,
/// semicolons, definitions, then statements up to the end of the input.
pub open spec fn program_step(v: InputView, p: int) -> (Result<ProgramView, ErrorView>, int) {
    match program_at_schema_step(v, p) {
        (Err(e), q) => (Err(e), q),
        (Ok(at_schema), q) => {
            let q1 = skip_all(v, q, TokenKind::Semicolon);
            match definitions_rest(v, q1, Seq::empty()) {
                (Err(e), q2) => (Err(e), q2),
                (Ok(definitions), q2) => match statements_rest(v, q2, Seq::empty()) {
                    (Err(e), q3) => (Err(e), q3),
                    (Ok(statements), q3) => (Ok(ProgramView { at_schema, definitions, statements }), q3),
                },
            }
        },
    }
}

/// What a program over the tokens `v`, from position `p`, reads as: its value, unless
/// reading fails or the lexer stopped on an error.
pub open spec fn program_result(v: InputView, p: int) -> Result<ProgramView, ErrorView> {
    match program_step(v, p).0 {
        Err(e) => Err(e),
        Ok(prog) => match v.lexer_error {
            Some(e) => Err(e),
            None => Ok(prog),
        },
    }
}

/// The tokens of the input `s`, followed by the end of the input, and the lexer's error.
pub open spec fn input_of(s: Seq<char>) -> InputView {
    InputView { tokens: lex_from(s, 0).0.push(eof_token(s)), lexer_error: lex_from(s, 0).1 }
}

} // verus!
