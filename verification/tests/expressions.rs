use gql_parser::ast::{
    ListValueTypeName, NumericFunctionKind, TrimSpec, StringLengthUnit, SubstringSide,
    BinaryOp, ExactNumericTypeKind, Identifier, LabelExpression, QuerySetOperator, SetQuantifier,
    SourceDestinationKind, UnaryOp, ValueType,
};
use gql_parser::error::Error;
use gql_parser::expr_parser::parse_i64_text;
use gql_parser::expr_walk::{expr_contains_aggregate_function, expr_references_identifier};
use gql_parser::fragments::{validate_insert_element_variable, InsertElementKind};
use gql_parser::lexer::{is_identifier_continue, is_identifier_start, Lexer};
use gql_parser::parser::Parser;
use gql_parser::procedure_body::expr_contains_procedure_body;
use gql_parser::syntax::{CaseWhenClause, Expr, Literal, MapLiteral};
use gql_parser::token::TokenKind;

fn id(s: &str) -> Identifier {
    Identifier::new(s.to_string())
}

fn var(s: &str) -> Expr {
    Expr::Identifier(id(s))
}

fn num(n: i64) -> Expr {
    Expr::Literal(Literal::Integer(n))
}

fn bin(left: Expr, op: BinaryOp, right: Expr) -> Expr {
    Expr::Binary { left: Box::new(left), op, right: Box::new(right) }
}

fn expr(input: &str) -> Result<Expr, Error> {
    Parser::new(input).parse_expr()
}

fn message(offset: usize, text: &str) -> Error {
    Error::Message { offset, message: text.to_string() }
}

#[test]
fn multiplication_binds_tighter_than_addition() {
    assert_eq!(expr("a + b * 2"), Ok(bin(var("a"), BinaryOp::Add, bin(var("b"), BinaryOp::Mul, num(2)))));
}

#[test]
fn operators_of_one_level_associate_to_the_left() {
    assert_eq!(expr("1 - 2 - 3"), Ok(bin(bin(num(1), BinaryOp::Sub, num(2)), BinaryOp::Sub, num(3))));
}

#[test]
fn and_binds_tighter_than_or() {
    assert_eq!(
        expr("a OR b AND c"),
        Ok(bin(var("a"), BinaryOp::Or, bin(var("b"), BinaryOp::And, var("c"))))
    );
}

#[test]
fn comparison_binds_looser_than_concatenation() {
    assert_eq!(
        expr("a = b || c"),
        Ok(bin(var("a"), BinaryOp::Eq, bin(var("b"), BinaryOp::Concat, var("c"))))
    );
}

#[test]
fn parentheses_group() {
    assert_eq!(expr("(a + b) * 2"), Ok(bin(bin(var("a"), BinaryOp::Add, var("b")), BinaryOp::Mul, num(2))));
}

#[test]
fn unary_minus_and_not() {
    assert_eq!(
        expr("NOT -x"),
        Ok(Expr::Unary {
            op: UnaryOp::Not,
            expr: Box::new(Expr::Unary { op: UnaryOp::Neg, expr: Box::new(var("x")) }),
        })
    );
}

#[test]
fn property_references_chain() {
    assert_eq!(
        expr("n.address.city"),
        Ok(Expr::Property {
            base: Box::new(Expr::Property { base: Box::new(var("n")), key: id("address") }),
            key: id("city"),
        })
    );
}

#[test]
fn literals_and_parameters() {
    assert_eq!(expr("NULL"), Ok(Expr::Literal(Literal::Null)));
    assert_eq!(expr("TRUE"), Ok(Expr::Literal(Literal::Boolean(true))));
    assert_eq!(expr("UNKNOWN"), Ok(Expr::Literal(Literal::Unknown)));
    assert_eq!(expr("'hi'"), Ok(Expr::Literal(Literal::String("hi".to_string()))));
    assert_eq!(expr("$p"), Ok(Expr::Parameter("p".to_string())));
    assert_eq!(expr("*"), Ok(Expr::Wildcard));
    assert_eq!(expr("CURRENT_DATE"), Ok(Expr::CurrentDate));
}

#[test]
fn integer_literal_that_overflows_is_a_bad_number() {
    assert_eq!(
        expr("9223372036854775808"),
        Err(Error::BadNumber { offset: 0, token_text: "9223372036854775808".to_string() })
    );
    assert_eq!(expr("9223372036854775807"), Ok(num(i64::MAX)));
}

#[test]
fn i64_text_values() {
    assert_eq!(parse_i64_text(&"42".to_string()), Some(42));
    assert_eq!(parse_i64_text(&"+7".to_string()), Some(7));
    assert_eq!(parse_i64_text(&"9223372036854775808".to_string()), None);
    assert_eq!(parse_i64_text(&"x".to_string()), None);
}

#[test]
fn decimal_literal_keeps_its_text() {
    match expr("1.5") {
        Ok(Expr::Literal(Literal::Decimal(text))) => assert_eq!(text.parse::<f64>(), Ok(1.5)),
        other => panic!("unexpected {other:?}"),
    }
}

#[test]
fn is_null_and_is_not_true() {
    assert_eq!(expr("x IS NULL"), Ok(Expr::IsNull { expr: Box::new(var("x")), negated: false }));
    assert_eq!(
        expr("x IS NOT TRUE"),
        Ok(Expr::IsTruth { expr: Box::new(var("x")), negated: true, value: true })
    );
}

#[test]
fn is_typed_reads_a_value_type() {
    assert_eq!(
        expr("x IS TYPED INT"),
        Ok(Expr::IsTyped {
            expr: Box::new(var("x")),
            negated: false,
            value_type: ValueType::ExactNumeric {
                kind: ExactNumericTypeKind::Integer,
                signed: Some(true),
                precision: None,
                scale: None,
            },
        })
    );
}

#[test]
fn source_of_an_edge() {
    assert_eq!(
        expr("n IS SOURCE OF e"),
        Ok(Expr::SourceDestination {
            node: id("n"),
            negated: false,
            kind: SourceDestinationKind::Source,
            edge: id("e"),
        })
    );
}

#[test]
fn element_predicate_needs_a_variable() {
    assert_eq!(
        expr("1 IS DIRECTED"),
        Err(message(13, "directed predicate target must be an element variable"))
    );
}

#[test]
fn colon_tests_labels() {
    assert_eq!(
        expr("n:Person"),
        Ok(Expr::IsLabeled {
            variable: id("n"),
            negated: false,
            label_expression: LabelExpression::Label(id("Person")),
        })
    );
}

#[test]
fn is_without_a_predicate() {
    assert_eq!(expr("x IS 1"), Err(message(5, "expected standard IS predicate tail")));
}

#[test]
fn normalized_with_a_normal_form() {
    assert_eq!(
        expr("s IS NFC NORMALIZED"),
        Ok(Expr::IsNormalized { expr: Box::new(var("s")), negated: false, normal_form: Some(id("NFC")) })
    );
}

#[test]
fn count_star_and_sum_calls() {
    assert_eq!(
        expr("count(*)"),
        Ok(Expr::Function { name: id("count"), quantifier: None, args: vec![Expr::Wildcard] })
    );
    assert_eq!(
        expr("SUM(x)"),
        Ok(Expr::Function { name: id("SUM"), quantifier: Some(SetQuantifier::All), args: vec![var("x")] })
    );
    assert_eq!(
        expr("avg(DISTINCT x)"),
        Ok(Expr::Function { name: id("avg"), quantifier: Some(SetQuantifier::Distinct), args: vec![var("x")] })
    );
}

#[test]
fn calls_that_are_refused() {
    assert_eq!(expr("foo(1)"), Err(message(0, "function foo is not a standard GQL value function")));
    assert_eq!(expr("count(a, b)"), Err(message(0, "aggregate function COUNT requires one value expression or *")));
    assert_eq!(
        expr("count(DISTINCT *)"),
        Err(message(0, "aggregate function COUNT(*) cannot specify a set quantifier"))
    );
    assert_eq!(expr("max(*)"), Err(message(0, "aggregate function max requires one value expression")));
    assert_eq!(
        expr("percentile_cont(x)"),
        Err(message(0, "aggregate function percentile_cont requires two numeric value expressions"))
    );
}

#[test]
fn lists_coalesce_nullif_and_cast() {
    assert_eq!(expr("[1, 2]"), Ok(Expr::List(vec![num(1), num(2)])));
    assert_eq!(expr("[]"), Ok(Expr::List(vec![])));
    assert_eq!(expr("COALESCE(a, b, 1)"), Ok(Expr::Coalesce(vec![var("a"), var("b"), num(1)])));
    assert_eq!(expr("NULLIF(a, 0)"), Ok(Expr::NullIf { left: Box::new(var("a")), right: Box::new(num(0)) }));
    assert_eq!(
        expr("CAST(x AS BOOL)"),
        Ok(Expr::Cast {
            expr: Box::new(var("x")),
            value_type: Parser::new("BOOL").parse_value_type().unwrap(),
        })
    );
}

#[test]
fn typed_string_literals_and_element_functions() {
    assert_eq!(expr("DATE '2024-01-01'"), Ok(Expr::Literal(Literal::Date("2024-01-01".to_string()))));
    assert_eq!(expr("DURATION 'P1D'"), Ok(Expr::Literal(Literal::Duration("P1D".to_string()))));
    assert_eq!(expr("ELEMENT_ID(n)"), Ok(Expr::ElementId { variable: id("n") }));
    assert_eq!(
        expr("PROPERTY_EXISTS(n, name)"),
        Ok(Expr::PropertyExists { variable: id("n"), property: id("name") })
    );
}

#[test]
fn forms_this_parser_does_not_read() {
    assert_eq!(expr("CASE x WHEN 1 THEN 2 END"), Err(message(0, "expression form is not supported by this parser")));
    assert_eq!(expr("SAME(a, b)"), Err(message(0, "expression form is not supported by this parser")));
}

#[test]
fn group_list_value_is_refused() {
    assert_eq!(
        expr("GROUP LIST [1]"),
        Err(message(0, "GROUP list value type names are not user-visible standard GQL syntax"))
    );
}

#[test]
fn primary_at_the_end_and_at_a_stray_token() {
    assert_eq!(expr(""), Err(Error::UnexpectedEof));
    match expr(")") {
        Err(Error::UnexpectedToken { offset, got, .. }) => {
            assert_eq!(offset, 0);
            assert_eq!(got, TokenKind::RParen);
        }
        other => panic!("unexpected {other:?}"),
    }
}

#[test]
fn unclosed_parenthesis() {
    assert_eq!(expr("(a"), Err(Error::UnexpectedEof));
}

#[test]
fn walkers_on_parsed_expressions() {
    let e = expr("count(n.age) + m").unwrap();
    assert!(expr_contains_aggregate_function(&e));
    assert!(expr_references_identifier(&e, &id("N")));
    assert!(expr_references_identifier(&e, &id("m")));
    assert!(!expr_references_identifier(&e, &id("age")));
    assert!(!expr_contains_procedure_body(&e));
    let plain = expr("a + 1").unwrap();
    assert!(!expr_contains_aggregate_function(&plain));
}

#[test]
fn query_conjunctions() {
    assert_eq!(Parser::new("UNION ALL").parse_query_conjunction(), Ok((QuerySetOperator::Union, Some(SetQuantifier::All))));
    assert_eq!(
        Parser::new("EXCEPT").parse_query_conjunction(),
        Ok((QuerySetOperator::Except, Some(SetQuantifier::Distinct)))
    );
    assert_eq!(Parser::new("OTHERWISE").parse_query_conjunction(), Ok((QuerySetOperator::Otherwise, None)));
    assert_eq!(
        Parser::new("x").parse_query_conjunction(),
        Err(Error::UnexpectedToken {
            offset: 0,
            expected: vec![TokenKind::Union, TokenKind::Except, TokenKind::Intersect, TokenKind::Otherwise],
            got: TokenKind::Identifier,
            token_text: "x".to_string(),
        })
    );
}

#[test]
fn definition_value_types() {
    assert_eq!(Parser::new("= 1").parse_optional_definition_value_type(), Ok((false, None)));
    let (typed, t) = Parser::new("TYPED INT").parse_optional_definition_value_type().unwrap();
    assert!(typed);
    assert!(t.is_some());
}

#[test]
fn simplified_relationship_bodies() {
    let bodies = Parser::new("A&B /").parse_simplified_relationship_body_sequence().unwrap();
    assert_eq!(bodies.len(), 1);
    assert_eq!(bodies[0].labels, vec![id("A"), id("B")]);
}

#[test]
fn insert_element_variables() {
    let mut declarations = Vec::new();
    assert_eq!(validate_insert_element_variable(Some(&id("a")), InsertElementKind::Node, false, &mut declarations, 0), Ok(()));
    assert_eq!(declarations.len(), 1);
    assert_eq!(
        validate_insert_element_variable(Some(&id("a")), InsertElementKind::Edge, false, &mut declarations, 3),
        Err(message(3, "insert edge variable 'a' cannot duplicate another element variable"))
    );
    assert_eq!(
        validate_insert_element_variable(Some(&id("A")), InsertElementKind::Node, true, &mut declarations, 5),
        Err(message(5, "repeated insert element variable 'A' cannot contain labels or properties"))
    );
    assert_eq!(validate_insert_element_variable(None, InsertElementKind::Node, true, &mut declarations, 5), Ok(()));
    assert_eq!(declarations.len(), 1);
}

#[test]
fn lexer_goes_on_after_an_error_and_then_stays_at_the_end() {
    let mut lexer = Lexer::new("a 12abc b");
    let mut items = Vec::new();
    while let Some(item) = lexer.next() {
        items.push(item);
        assert!(items.len() <= 9);
    }
    assert!(items.iter().any(|i| i.is_err()));
    match items.last() {
        Some(Ok(t)) => assert_eq!(t.text, "b"),
        other => panic!("unexpected {other:?}"),
    }
    assert!(lexer.next().is_none());
    assert!(lexer.next().is_none());
}

#[test]
fn ideographic_space_separates_tokens() {
    let mut lexer = Lexer::new("a\u{3000}b");
    assert!(matches!(lexer.next(), Some(Ok(_))));
    assert!(matches!(lexer.next(), Some(Ok(_))));
    assert!(lexer.next().is_none());
}

#[test]
fn digits_continue_but_do_not_start_identifiers() {
    assert!(is_identifier_continue('7'));
    assert!(!is_identifier_start('7'));
    assert!(is_identifier_start('é'));
    assert!(is_identifier_continue('é'));
}

#[test]
fn numeric_and_string_functions() {
    assert_eq!(expr("ABS(x)"), Ok(Expr::AbsoluteValue { expr: Box::new(var("x")) }));
    assert_eq!(
        expr("CEILING(x)"),
        Ok(Expr::NumericFunction { function: NumericFunctionKind::Ceil, args: vec![var("x")] })
    );
    assert_eq!(
        expr("MOD(a, 2)"),
        Ok(Expr::NumericFunction { function: NumericFunctionKind::Mod, args: vec![var("a"), num(2)] })
    );
    assert_eq!(expr("UPPER(s)"), Ok(Expr::Fold { upper: true, value: Box::new(var("s")) }));
    assert_eq!(
        expr("OCTET_LENGTH(s)"),
        Ok(Expr::StringLength { unit: StringLengthUnit::Bytes, value: Box::new(var("s")) })
    );
    assert_eq!(
        expr("LEFT(s, 3)"),
        Ok(Expr::SubstringByLength { side: SubstringSide::Left, value: Box::new(var("s")), length: Box::new(num(3)) })
    );
    assert_eq!(
        expr("NORMALIZE(s, NFKC)"),
        Ok(Expr::Normalize { value: Box::new(var("s")), normal_form: Some(id("NFKC")) })
    );
    assert_eq!(expr("abs"), Ok(var("abs")));
}

#[test]
fn value_types_clone_to_equal_values() {
    let t = Parser::new("LIST<RECORD {a INT, b STRING}> NOT NULL").parse_value_type().unwrap();
    assert_eq!(t.clone(), t);
    let g = Parser::new("ANY PROPERTY GRAPH").parse_value_type().unwrap();
    assert_eq!(g.clone(), g);
}

#[test]
fn clocks_and_duration_between() {
    assert_eq!(expr("CURRENT_TIME"), Ok(Expr::CurrentTime { precision: None }));
    assert_eq!(expr("LOCAL_TIMESTAMP"), Ok(Expr::LocalTimestamp { precision: None }));
    assert_eq!(expr("CURRENT_TIMESTAMP()"), Err(message(17, "CURRENT_TIMESTAMP does not accept parameters")));
    assert_eq!(
        expr("DURATION_BETWEEN(a, b)"),
        Ok(Expr::DurationBetween { left: Box::new(var("a")), right: Box::new(var("b")) })
    );
}

#[test]
fn records_and_typed_lists() {
    assert_eq!(
        expr("{a: 1, b: x}"),
        Ok(Expr::Record {
            explicit: false,
            fields: MapLiteral { entries: vec![(id("a"), num(1)), (id("b"), var("x"))] },
        })
    );
    assert_eq!(
        expr("RECORD {}"),
        Ok(Expr::Record { explicit: true, fields: MapLiteral { entries: vec![] } })
    );
    assert_eq!(expr("{a: 1, A: 2}"), Err(message(7, "duplicate field 'A'")));
    assert_eq!(
        expr("LIST [1, 2]"),
        Ok(Expr::TypedList { list_type: ListValueTypeName::List, values: vec![num(1), num(2)] })
    );
}

#[test]
fn path_values_and_trims() {
    assert_eq!(expr("PATH [a, e, b]"), Ok(Expr::Path(vec![var("a"), var("e"), var("b")])));
    assert!(matches!(expr("PATH []"), Err(Error::UnexpectedToken { offset: 6, got: TokenKind::RBracket, .. })));
    assert_eq!(
        expr("TRIM(LEADING 'x' FROM s)"),
        Ok(Expr::Trim {
            specification: Some(TrimSpec::Leading),
            trim_character: Some(Box::new(Expr::Literal(Literal::String("x".to_string())))),
            value: Box::new(var("s")),
        })
    );
    assert_eq!(
        expr("TRIM(s)"),
        Ok(Expr::Trim { specification: None, trim_character: None, value: Box::new(var("s")) })
    );
    assert_eq!(expr("TRIM(l, 2)"), Ok(Expr::TrimList { value: Box::new(var("l")), count: Box::new(num(2)) }));
    assert_eq!(
        expr("RTRIM(s, 'x')"),
        Ok(Expr::MultiTrim {
            specification: TrimSpec::Trailing,
            value: Box::new(var("s")),
            trim_characters: Some(Box::new(Expr::Literal(Literal::String("x".to_string())))),
        })
    );
}

#[test]
fn searched_case_expression() {
    let when = |c: &str, n: i64| CaseWhenClause { condition: var(c), additional_operands: vec![], result: num(n) };
    assert_eq!(
        expr("CASE WHEN a THEN 1 END"),
        Ok(Expr::Case { operand: None, when_clauses: vec![when("a", 1)], else_expr: None })
    );
    assert_eq!(
        expr("CASE WHEN a THEN 1 WHEN b THEN 2 ELSE 3 END + 4"),
        Ok(bin(
            Expr::Case {
                operand: None,
                when_clauses: vec![when("a", 1), when("b", 2)],
                else_expr: Some(Box::new(num(3))),
            },
            BinaryOp::Add,
            num(4),
        ))
    );
}

#[test]
fn searched_case_needs_its_end() {
    assert_eq!(
        expr("CASE WHEN a THEN 1 )"),
        Err(Error::UnexpectedToken {
            offset: 19,
            expected: vec![TokenKind::End],
            got: TokenKind::RParen,
            token_text: ")".to_string(),
        })
    );
}
