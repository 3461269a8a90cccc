use gql_parser::ast::{CommitStatement, Identifier, RollbackStatement, SessionCloseCommand, StartTransactionStatement};
use gql_parser::ast::BinaryOp;
use gql_parser::error::Error;
use gql_parser::parse;
use gql_parser::parser::Parser;
use gql_parser::syntax::{BindingVariableDefinition, Expr, Literal, Program, Statement, ValueVariableDefinition};
use gql_parser::token::TokenKind;

fn unsupported(offset: usize) -> Error {
    Error::Message { offset, message: "statement form is not supported by this parser".to_string() }
}

fn program(statements: Vec<Statement>) -> Program {
    Program { at_schema: None, definitions: vec![], statements }
}

#[test]
fn empty_input_is_an_empty_program() {
    assert_eq!(parse(""), Ok(program(vec![])));
    assert_eq!(parse(";;"), Ok(program(vec![])));
}

#[test]
fn transaction_statements_separated_by_semicolons() {
    assert_eq!(
        parse("START TRANSACTION; COMMIT;"),
        Ok(program(vec![
            Statement::StartTransaction(StartTransactionStatement { access_mode: None, isolation_level: None }),
            Statement::Commit(CommitStatement),
        ]))
    );
}

#[test]
fn session_close_may_follow_rollback_directly() {
    assert_eq!(
        parse("ROLLBACK SESSION CLOSE"),
        Ok(program(vec![Statement::Rollback(RollbackStatement), Statement::SessionClose(SessionCloseCommand)]))
    );
}

#[test]
fn statements_need_a_semicolon_between_them() {
    assert_eq!(
        parse("COMMIT ROLLBACK"),
        Err(Error::UnexpectedToken {
            offset: 7,
            expected: vec![TokenKind::Semicolon, TokenKind::Eof],
            got: TokenKind::Rollback,
            token_text: "ROLLBACK".to_string(),
        })
    );
}

#[test]
fn value_definitions_before_statements() {
    assert_eq!(
        parse("VALUE x = 1 + 2; COMMIT"),
        Ok(Program {
            at_schema: None,
            definitions: vec![BindingVariableDefinition::Value(ValueVariableDefinition {
                name: Identifier::new("x".to_string()),
                typed: false,
                value_type: None,
                initializer: Expr::Binary {
                    left: Box::new(Expr::Literal(Literal::Integer(1))),
                    op: BinaryOp::Add,
                    right: Box::new(Expr::Literal(Literal::Integer(2))),
                },
            })],
            statements: vec![Statement::Commit(CommitStatement)],
        })
    );
}

#[test]
fn a_binding_variable_is_defined_once() {
    assert_eq!(
        parse("VALUE x = 1; VALUE X = 2"),
        Err(Error::Message { offset: 13, message: "duplicate binding variable 'X'".to_string() })
    );
}

#[test]
fn unsupported_statements_are_refused() {
    assert_eq!(
        parse("MATCH (n) RETURN n"),
        Err(Error::Message { offset: 0, message: "query clause is not supported by this parser".to_string() })
    );
    assert_eq!(parse("INSERT (n)"), Err(unsupported(0)));
    assert_eq!(parse("SESSION SET TABLE $t = { RETURN 1 }"), Err(unsupported(23)));
    assert_eq!(parse("CREATE SCHEMA /s"), Err(unsupported(0)));
}

#[test]
fn a_lexical_error_refuses_the_program() {
    assert!(parse("COMMIT; 12abc").is_err());
}

#[test]
fn statement_at_a_stray_token() {
    match Parser::new(")").parse_statement() {
        Err(Error::UnexpectedToken { offset, got, expected, .. }) => {
            assert_eq!(offset, 0);
            assert_eq!(got, TokenKind::RParen);
            assert_eq!(expected.len(), 27);
        }
        other => panic!("unexpected {other:?}"),
    }
}

#[test]
fn drop_statements_one_after_the_other() {
    match parse("DROP GRAPH g DROP SCHEMA /s COMMIT") {
        Ok(p) => {
            assert_eq!(p.statements.len(), 2);
            match &p.statements[0] {
                Statement::LinearCatalog(v) => {
                    assert_eq!(v.len(), 2);
                    assert!(matches!(v[0], Statement::DropGraph(_)));
                    assert!(matches!(v[1], Statement::DropSchema(_)));
                }
                other => panic!("unexpected {other:?}"),
            }
            assert_eq!(p.statements[1], Statement::Commit(CommitStatement));
        }
        other => panic!("unexpected {other:?}"),
    }
    match parse("DROP GRAPH IF EXISTS g;") {
        Ok(p) => {
            assert_eq!(p.statements.len(), 1);
            assert!(matches!(p.statements[0], Statement::DropGraph(_)));
        }
        other => panic!("unexpected {other:?}"),
    }
    assert_eq!(parse("DROP GRAPH g CREATE GRAPH h"), Err(unsupported(13)));
}
