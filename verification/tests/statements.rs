use gql_parser::ast::{Identifier, ResultKind, SchemaReference, SetQuantifier, YieldClause, YieldItem};
use gql_parser::error::Error;
use gql_parser::parse;
use gql_parser::syntax::{
    BindingTableVariableDefinition, BindingVariableDefinition, GraphVariableDefinition,
    BindingTableExpression, Expr, GraphExpression, SessionSetBindingTableParameter, Literal, NextStatement, SessionSetGraphParameter, Program, QueryBody, QueryStatement, ResultClause, ResultItem, SessionSetCommand,
    SessionSetTarget, SessionSetValueParameter, Statement,
};
use gql_parser::token::TokenKind;

fn id(s: &str) -> Identifier {
    Identifier::new(s.to_string())
}

fn program(statements: Vec<Statement>) -> Program {
    Program { at_schema: None, definitions: vec![], statements }
}

fn session_set(target: SessionSetTarget) -> Statement {
    Statement::SessionSet(SessionSetCommand { target })
}

fn returning(expr: Expr, alias: &str) -> Statement {
    Statement::Query(QueryStatement {
        at_schema: None,
        use_graph: None,
        body: QueryBody {
            clauses: vec![],
            result_clause: ResultClause {
                kind: ResultKind::Return,
                quantifier: Some(SetQuantifier::All),
                distinct: false,
                items: vec![ResultItem { expr, alias: Some(id(alias)) }],
            },
            select_from: vec![],
            select_query: None,
            select_where: None,
            group_by: vec![],
            empty_grouping_set: false,
            having: None,
            order_by: vec![],
            offset: None,
            limit: None,
        },
        set_operations: vec![],
    })
}

#[test]
fn session_set_schema() {
    assert_eq!(parse("SESSION SET SCHEMA /"), Ok(program(vec![session_set(SessionSetTarget::Schema(SchemaReference::Root))])));
}

#[test]
fn session_set_time_zone() {
    let utc = session_set(SessionSetTarget::TimeZone(Expr::Literal(Literal::String("UTC".to_string()))));
    assert_eq!(parse("SESSION SET TIME ZONE 'UTC'"), Ok(program(vec![utc])));
    let zone = session_set(SessionSetTarget::TimeZone(Expr::Identifier(id("z"))));
    assert_eq!(parse("SESSION SET TIME ZONE z"), Ok(program(vec![zone])));
}

#[test]
fn session_set_value_parameter() {
    let expected = session_set(SessionSetTarget::ValueParameter(SessionSetValueParameter {
        if_not_exists: true,
        name: "x".to_string(),
        typed: false,
        value_type: None,
        initializer: Expr::Literal(Literal::Integer(1)),
    }));
    assert_eq!(parse("SESSION SET VALUE IF NOT EXISTS $x = 1"), Ok(program(vec![expected])));
}

#[test]
fn session_set_needs_a_target() {
    assert_eq!(
        parse("SESSION SET NOW"),
        Err(Error::UnexpectedToken {
            offset: 12,
            expected: vec![
                TokenKind::Schema,
                TokenKind::Graph,
                TokenKind::Property,
                TokenKind::Binding,
                TokenKind::Table,
                TokenKind::Time,
                TokenKind::Value,
            ],
            got: TokenKind::Identifier,
            token_text: "NOW".to_string(),
        })
    );
}

#[test]
fn session_commands_follow_each_other_without_semicolons() {
    assert_eq!(
        parse("SESSION SET TIME ZONE 'UTC' SESSION CLOSE"),
        Ok(program(vec![
            session_set(SessionSetTarget::TimeZone(Expr::Literal(Literal::String("UTC".to_string())))),
            Statement::SessionClose(gql_parser::ast::SessionCloseCommand),
        ]))
    );
}

#[test]
fn next_statement_with_a_yield_clause() {
    let next = Statement::Next(NextStatement {
        yield_clause: Some(YieldClause { items: vec![YieldItem::Item { name: id("a"), alias: None }] }),
        statement: Box::new(returning(Expr::Identifier(id("a")), "a")),
    });
    assert_eq!(
        parse("RETURN 1 AS a NEXT YIELD a RETURN a"),
        Ok(program(vec![returning(Expr::Literal(Literal::Integer(1)), "a"), next]))
    );
}

#[test]
fn next_statements_in_a_row() {
    let next = |n: i64| {
        Statement::Next(NextStatement {
            yield_clause: None,
            statement: Box::new(returning(Expr::Literal(Literal::Integer(n)), "b")),
        })
    };
    assert_eq!(
        parse("RETURN 1 AS a NEXT RETURN 2 AS b NEXT RETURN 3 AS b;"),
        Ok(program(vec![returning(Expr::Literal(Literal::Integer(1)), "a"), next(2), next(3)]))
    );
}

#[test]
fn next_needs_a_statement() {
    assert!(parse("RETURN 1 AS a NEXT").is_err());
}

#[test]
fn session_set_graph() {
    assert_eq!(
        parse("SESSION SET GRAPH CURRENT_GRAPH"),
        Ok(program(vec![session_set(SessionSetTarget::Graph(GraphExpression::CurrentGraph))]))
    );
    assert_eq!(
        parse("SESSION SET GRAPH $g"),
        Ok(program(vec![session_set(SessionSetTarget::Graph(GraphExpression::Parameter("g".to_string())))]))
    );
}

#[test]
fn session_set_property_graph_parameter() {
    let expected = session_set(SessionSetTarget::GraphParameter(SessionSetGraphParameter {
        property_graph: true,
        if_not_exists: false,
        name: "g".to_string(),
        typed: false,
        value_type: None,
        initializer: GraphExpression::HomeGraph,
    }));
    assert_eq!(parse("SESSION SET PROPERTY GRAPH $g = HOME_GRAPH"), Ok(program(vec![expected])));
}

#[test]
fn session_set_binding_table_parameter() {
    let expected = session_set(SessionSetTarget::BindingTableParameter(SessionSetBindingTableParameter {
        binding: true,
        if_not_exists: false,
        name: "t".to_string(),
        typed: false,
        value_type: None,
        initializer: BindingTableExpression::Parameter("u".to_string()),
    }));
    assert_eq!(parse("SESSION SET BINDING TABLE $t = $u"), Ok(program(vec![expected])));
}

#[test]
fn graph_and_binding_table_definitions() {
    let expected = Program {
        at_schema: None,
        definitions: vec![
            BindingVariableDefinition::Graph(GraphVariableDefinition {
                property_graph: false,
                name: id("g"),
                typed: false,
                value_type: None,
                initializer: GraphExpression::CurrentGraph,
            }),
            BindingVariableDefinition::BindingTable(BindingTableVariableDefinition {
                binding: true,
                name: id("t"),
                typed: false,
                value_type: None,
                initializer: BindingTableExpression::Parameter("u".to_string()),
            }),
        ],
        statements: vec![],
    };
    assert_eq!(parse("GRAPH g = CURRENT_GRAPH; BINDING TABLE t = $u"), Ok(expected));
}

#[test]
fn definitions_of_any_kind_share_their_names() {
    assert_eq!(
        parse("GRAPH g = CURRENT_GRAPH; TABLE G = $u"),
        Err(Error::Message { offset: 25, message: "duplicate binding variable 'G'".to_string() })
    );
}
