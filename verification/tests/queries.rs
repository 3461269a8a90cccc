use gql_parser::ast::{
    Identifier, NullOrdering, QuerySetOperator, ResultKind, SetQuantifier, SortDirection,
    UnsignedIntegerSpecification,
};
use gql_parser::error::Error;
use gql_parser::parse;
use gql_parser::parser::Parser;
use gql_parser::syntax::{
    Expr, Literal, QueryBody, QueryClause, QueryStatement, ResultClause, ResultItem, Statement,
};

fn id(s: &str) -> Identifier {
    Identifier::new(s.to_string())
}

fn msg(offset: usize, text: &str) -> Error {
    Error::Message { offset, message: text.to_string() }
}

fn query(input: &str) -> Result<QueryStatement, Error> {
    Parser::new(input).parse_query_statement()
}

fn body(result_clause: ResultClause) -> QueryBody {
    QueryBody {
        clauses: vec![],
        result_clause,
        select_from: vec![],
        select_query: None,
        select_where: None,
        group_by: vec![],
        empty_grouping_set: false,
        having: None,
        order_by: vec![],
        offset: None,
        limit: None,
    }
}

fn return_items(items: Vec<ResultItem>) -> ResultClause {
    ResultClause { kind: ResultKind::Return, quantifier: Some(SetQuantifier::All), distinct: false, items }
}

#[test]
fn return_of_a_literal_with_an_alias() {
    let expected = QueryStatement {
        at_schema: None,
        use_graph: None,
        body: body(return_items(vec![ResultItem {
            expr: Expr::Literal(Literal::Integer(1)),
            alias: Some(id("x")),
        }])),
        set_operations: vec![],
    };
    match parse("RETURN 1 AS x") {
        Ok(p) => {
            assert!(p.definitions.is_empty());
            assert_eq!(p.statements, vec![Statement::Query(expected)]);
        }
        other => panic!("unexpected {other:?}"),
    }
}

#[test]
fn a_variable_names_its_own_output() {
    let q = query("RETURN DISTINCT n").unwrap();
    assert_eq!(q.body.result_clause.quantifier, Some(SetQuantifier::Distinct));
    assert!(q.body.result_clause.distinct);
    assert_eq!(q.body.result_clause.items[0].alias, Some(id("n")));
}

#[test]
fn result_items_that_are_refused() {
    assert_eq!(query("RETURN 1"), Err(msg(8, "non-binding result item requires AS alias")));
    assert_eq!(query("RETURN a, A"), Err(msg(10, "duplicate result output 'A'")));
    assert_eq!(query("RETURN NO BINDINGS"), Err(msg(7, "RETURN NO BINDINGS is not user-visible standard GQL syntax")));
}

#[test]
fn return_star_needs_a_working_table() {
    assert_eq!(query("RETURN *"), Err(msg(8, "RETURN * requires a non-unit incoming working table")));
    let q = query("LET x = 1 RETURN *").unwrap();
    assert_eq!(q.body.clauses.len(), 1);
    assert!(matches!(q.body.clauses[0], QueryClause::Let(_)));
    assert_eq!(query("LET x = 1 SELECT *"), Err(msg(18, "SELECT * requires a FROM clause")));
}

#[test]
fn grouping_ordering_and_paging() {
    let q = query("FILTER WHERE a > 1 RETURN a GROUP BY a ORDER BY a DESC NULLS LAST LIMIT 10").unwrap();
    assert!(matches!(q.body.clauses[0], QueryClause::Filter(_)));
    assert_eq!(q.body.group_by, vec![Expr::Identifier(id("a"))]);
    assert_eq!(q.body.order_by.len(), 1);
    assert_eq!(q.body.order_by[0].direction, Some(SortDirection::Desc));
    assert_eq!(q.body.order_by[0].null_ordering, Some(NullOrdering::Last));
    assert_eq!(q.body.limit, Some(UnsignedIntegerSpecification::Literal(10)));
    assert_eq!(query("RETURN a GROUP BY a.b"), Err(msg(18, "GROUP BY elements must be binding variable references")));
    assert_eq!(query("RETURN a HAVING a"), Err(msg(9, "HAVING is only valid in SELECT statements")));
    let s = query("SELECT a GROUP BY () HAVING a").unwrap();
    assert!(s.body.empty_grouping_set);
    assert!(s.body.having.is_some());
}

#[test]
fn let_and_for_clauses() {
    assert_eq!(query("LET x = 1, x = 2 RETURN x"), Err(msg(11, "duplicate let variable 'x'")));
    assert_eq!(
        query("FOR x IN [1, 2] WITH ORDINALITY X RETURN x"),
        Err(msg(32, "for ordinality or offset variable 'X' duplicates item alias"))
    );
    let q = query("FOR x IN [1, 2] WITH OFFSET i RETURN x, i").unwrap();
    assert!(matches!(q.body.clauses[0], QueryClause::For(_)));
}

#[test]
fn query_composition() {
    let q = query("RETURN 1 AS a UNION RETURN 2 AS a").unwrap();
    assert_eq!(q.set_operations.len(), 1);
    assert_eq!(q.set_operations[0].operator, QuerySetOperator::Union);
    assert_eq!(q.set_operations[0].quantifier, Some(SetQuantifier::Distinct));
    assert_eq!(
        query("RETURN 1 AS a UNION RETURN 2 AS a EXCEPT RETURN 3 AS a"),
        Err(msg(34, "mixed query conjunctions are not allowed"))
    );
}

#[test]
fn query_then_commit_without_a_semicolon() {
    match parse("RETURN 1 AS x COMMIT") {
        Ok(p) => assert_eq!(p.statements.len(), 2),
        other => panic!("unexpected {other:?}"),
    }
}

#[test]
fn finish_ends_a_body() {
    let q = query("LET x = 1 FINISH").unwrap();
    assert_eq!(q.body.result_clause.kind, ResultKind::Finish);
    assert!(q.body.result_clause.items.is_empty());
}
