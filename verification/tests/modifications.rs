use gql_parser::ast::Identifier;
use gql_parser::error::Error;
use gql_parser::parse;
use gql_parser::syntax::{
    DeleteStatement, Expr, Literal, MapLiteral, Program, RemoveItem, RemoveStatement, SetItem, SetStatement, Statement,
};
use gql_parser::token::TokenKind;

fn id(s: &str) -> Identifier {
    Identifier::new(s.to_string())
}

fn var(s: &str) -> Expr {
    Expr::Identifier(id(s))
}

fn prop(v: &str, k: &str) -> Expr {
    Expr::Property { base: Box::new(var(v)), key: id(k) }
}

fn program(statements: Vec<Statement>) -> Program {
    Program { at_schema: None, definitions: vec![], statements }
}

fn msg(offset: usize, text: &str) -> Error {
    Error::Message { offset, message: text.to_string() }
}

#[test]
fn delete_statements() {
    assert_eq!(
        parse("DELETE n, m"),
        Ok(program(vec![Statement::Delete(DeleteStatement { detach: false, items: vec![var("n"), var("m")] })]))
    );
    assert_eq!(
        parse("DETACH DELETE n"),
        Ok(program(vec![Statement::Delete(DeleteStatement { detach: true, items: vec![var("n")] })]))
    );
    assert_eq!(
        parse("NODETACH DELETE n;"),
        Ok(program(vec![Statement::Delete(DeleteStatement { detach: false, items: vec![var("n")] })]))
    );
}

#[test]
fn set_statement_items() {
    let expected = SetStatement {
        items: vec![
            SetItem::Property { target: prop("n", "age"), value: Expr::Literal(Literal::Integer(1)) },
            SetItem::Label { variable: id("n"), label: id("Person") },
            SetItem::AllProperties {
                variable: id("m"),
                properties: MapLiteral { entries: vec![(id("a"), Expr::Literal(Literal::Integer(2)))] },
            },
        ],
    };
    assert_eq!(parse("SET n.age = 1, n:Person, m = {a: 2}"), Ok(program(vec![Statement::SetStatement(expected)])));
}

#[test]
fn set_item_conflicts_are_refused() {
    assert_eq!(parse("SET n.a = 1, N.A = 2"), Err(msg(13, "duplicate SET assignment to property 'N.A'")));
    assert_eq!(parse("SET n = {}, n = {}"), Err(msg(12, "duplicate SET all-properties assignment to 'n'")));
    assert_eq!(
        parse("SET n.a = 1, n = {}"),
        Err(msg(13, "SET all-properties assignment conflicts with property assignment for 'n'"))
    );
    assert_eq!(
        parse("SET n = {}, n.a = 1"),
        Err(msg(12, "SET all-properties assignment conflicts with property assignment for 'n'"))
    );
    assert!(parse("SET n.a = 1, m.a = 2, n:L, n:L").is_ok());
}

#[test]
fn set_item_needs_a_form() {
    assert_eq!(
        parse("SET n"),
        Err(Error::UnexpectedToken {
            offset: 5,
            expected: vec![TokenKind::Dot, TokenKind::Eq, TokenKind::Colon, TokenKind::Is],
            got: TokenKind::Eof,
            token_text: String::new(),
        })
    );
}

#[test]
fn remove_statement_items() {
    let expected = RemoveStatement {
        items: vec![RemoveItem::Property(prop("n", "age")), RemoveItem::Label { variable: id("n"), label: id("Person") }],
    };
    assert_eq!(parse("REMOVE n.age, n IS Person"), Ok(program(vec![Statement::Remove(expected)])));
}

#[test]
fn data_modifying_statement_followed_by_commit() {
    assert_eq!(
        parse("DELETE n; COMMIT"),
        Ok(program(vec![
            Statement::Delete(DeleteStatement { detach: false, items: vec![var("n")] }),
            Statement::Commit(gql_parser::ast::CommitStatement),
        ]))
    );
}

#[test]
fn data_modifying_statement_inside_a_query_is_read_as_a_query() {
    assert_eq!(parse("DELETE n RETURN n"), Err(msg(0, "query clause is not supported by this parser")));
}
