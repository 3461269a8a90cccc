use gql_parser::ast::{
    collect_label_names,
    Direction, GraphName, Identifier, LabelExpression, MatchMode, PathMode, PathOrPaths,
    PathPatternAlternation, PathPatternPrefix, PathPatternQuantifier, PathSearchPrefix,
    ProcedureReference, SchemaName, SchemaReference, SessionResetTarget, SqlIntervalQualifier,
    TransactionAccessMode, TrimSpec, UnsignedIntegerSpecification, YieldItem,
};
use gql_parser::ast::{DropGraphStatement, DropGraphTypeStatement, DropSchemaStatement};
use gql_parser::catalog::DropStatement;
use gql_parser::clause_grammar::SimplifiedPrefix;
use gql_parser::error::Error;
use gql_parser::functions::{
    is_aggregate_function_name, is_general_set_function_name, reject_non_standard_value_function,
};
use gql_parser::parser::Parser;
use gql_parser::token::TokenKind;

fn id(s: &str) -> Identifier {
    Identifier::new(s.to_string())
}

fn label(s: &str) -> Box<LabelExpression> {
    Box::new(LabelExpression::Label(id(s)))
}

fn message(offset: usize, text: &str) -> Error {
    Error::Message { offset, message: text.to_string() }
}

fn schema_name(parts: &[&str]) -> SchemaName {
    SchemaName {
        absolute: false,
        current_schema: false,
        home_schema: false,
        parent_levels: 0,
        parts: parts.iter().map(|p| id(p)).collect(),
    }
}

#[test]
fn identifier_new_keeps_text() {
    assert_eq!(id("abc").value, "abc");
}

#[test]
fn commit_and_rollback() {
    assert!(Parser::new("COMMIT").parse_commit_statement().is_ok());
    assert!(Parser::new("rollback").parse_rollback_statement().is_ok());
    assert_eq!(Parser::new("").parse_commit_statement(), Err(Error::UnexpectedEof));
    assert_eq!(
        Parser::new("ROLLBACK").parse_commit_statement(),
        Err(Error::UnexpectedToken {
            offset: 0,
            expected: vec![TokenKind::Commit],
            got: TokenKind::Rollback,
            token_text: "ROLLBACK".to_string(),
        })
    );
}

#[test]
fn lexical_error_is_reported_at_end_of_tokens() {
    assert_eq!(
        Parser::new("#").parse_commit_statement(),
        Err(Error::UnrecognizedToken { offset: 0, token_text: "#".to_string() })
    );
    assert_eq!(
        Parser::new("'abc").parse_rollback_statement(),
        Err(Error::UnterminatedString { offset: 0, token_text: "'abc".to_string() })
    );
}

#[test]
fn start_transaction() {
    let s = Parser::new("START TRANSACTION").parse_start_transaction_statement().unwrap();
    assert_eq!(s.access_mode, None);
    assert_eq!(s.isolation_level, None);
    let s = Parser::new("START TRANSACTION READ ONLY")
        .parse_start_transaction_statement()
        .unwrap();
    assert_eq!(s.access_mode, Some(TransactionAccessMode::ReadOnly));
    let s = Parser::new("start transaction read write")
        .parse_start_transaction_statement()
        .unwrap();
    assert_eq!(s.access_mode, Some(TransactionAccessMode::ReadWrite));
}

#[test]
fn start_transaction_rejects_extra_modes() {
    assert_eq!(
        Parser::new("START TRANSACTION READ WRITE, READ ONLY").parse_start_transaction_statement(),
        Err(message(30, "transaction characteristics must contain exactly one access mode"))
    );
    assert_eq!(
        Parser::new("START TRANSACTION READ ONLY, x").parse_start_transaction_statement(),
        Err(message(29, "implementation-defined transaction modes are not supported"))
    );
}

#[test]
fn session_reset_targets() {
    let target = |s: &str| Parser::new(s).parse_session_reset_command().map(|c| c.target);
    assert_eq!(target("RESET"), Ok(SessionResetTarget::AllCharacteristics));
    assert_eq!(target("RESET ALL PARAMETERS"), Ok(SessionResetTarget::AllParameters));
    assert_eq!(target("RESET CHARACTERISTICS"), Ok(SessionResetTarget::AllCharacteristics));
    assert_eq!(target("RESET SCHEMA"), Ok(SessionResetTarget::Schema));
    assert_eq!(target("RESET PROPERTY GRAPH"), Ok(SessionResetTarget::Graph));
    assert_eq!(target("RESET TIME ZONE"), Ok(SessionResetTarget::TimeZone));
    assert_eq!(target("RESET $p"), Ok(SessionResetTarget::Parameter("p".to_string())));
    assert_eq!(
        target("RESET ALL x"),
        Err(Error::UnexpectedToken {
            offset: 10,
            expected: vec![TokenKind::Parameters, TokenKind::Characteristics],
            got: TokenKind::Identifier,
            token_text: "x".to_string(),
        })
    );
}

#[test]
fn catalog_names() {
    let g = Parser::new("/x/y").parse_graph_name().unwrap();
    assert_eq!(
        g,
        GraphName {
            absolute: true,
            current_schema: false,
            home_schema: false,
            parent_levels: 0,
            parts: vec![id("x"), id("y")],
        }
    );
    let g = Parser::new("../../g").parse_graph_name().unwrap();
    assert_eq!(g.parent_levels, 2);
    assert_eq!(g.parts, vec![id("g")]);
    let g = Parser::new("./g").parse_graph_name().unwrap();
    assert!(g.current_schema);
    assert_eq!(Parser::new("a.b").parse_schema_name().unwrap(), schema_name(&["a", "b"]));
    assert_eq!(Parser::new("t").parse_binding_table_name().unwrap().parts, vec![id("t")]);
    assert_eq!(Parser::new("gt").parse_graph_type_name().unwrap().parts, vec![id("gt")]);
    assert_eq!(Parser::new("p").parse_procedure_name().unwrap().parts, vec![id("p")]);
}

#[test]
fn schema_references() {
    let r = |s: &str| Parser::new(s).parse_schema_reference();
    assert_eq!(r("/"), Ok(SchemaReference::Root));
    assert_eq!(r("/a/b"), Ok(SchemaReference::Absolute(schema_name(&["a", "b"]))));
    assert_eq!(r("."), Ok(SchemaReference::CurrentSchema));
    assert_eq!(
        r("../x"),
        Ok(SchemaReference::Parent { levels: 1, name: schema_name(&["x"]) })
    );
    assert_eq!(
        r("../../x"),
        Ok(SchemaReference::Parent { levels: 2, name: schema_name(&["x"]) })
    );
    assert_eq!(r("$s"), Ok(SchemaReference::Parameter("s".to_string())));
    assert_eq!(r("a"), Ok(SchemaReference::Name(schema_name(&["a"]))));
}

#[test]
fn procedure_and_graph_type_references() {
    assert_eq!(
        Parser::new("$proc").parse_procedure_reference(),
        Ok(ProcedureReference::Parameter("proc".to_string()))
    );
    match Parser::new("a/b").parse_procedure_reference().unwrap() {
        ProcedureReference::Name(n) => assert_eq!(n.parts, vec![id("a"), id("b")]),
        other => panic!("unexpected {other:?}"),
    }
    assert!(Parser::new("mytype").parse_graph_type_reference().is_ok());
}

#[test]
fn label_expressions() {
    assert_eq!(
        Parser::new("A|B&!C").parse_label_expression(),
        Ok(LabelExpression::Or(
            label("A"),
            Box::new(LabelExpression::And(
                label("B"),
                Box::new(LabelExpression::Not(label("C")))
            ))
        ))
    );
    assert_eq!(
        Parser::new("(A|B)&%").parse_label_expression(),
        Ok(LabelExpression::And(
            Box::new(LabelExpression::Parenthesized(Box::new(LabelExpression::Or(
                label("A"),
                label("B")
            )))),
            Box::new(LabelExpression::Wildcard)
        ))
    );
}

#[test]
fn label_expression_errors() {
    assert_eq!(
        Parser::new("NOT A").parse_label_expression(),
        Err(message(0, "label negation uses !, not NOT"))
    );
    assert_eq!(Parser::new("").parse_label_expression(), Err(Error::UnexpectedEof));
    assert_eq!(
        Parser::new("&").parse_label_expression(),
        Err(Error::UnexpectedToken {
            offset: 0,
            expected: vec![TokenKind::Identifier],
            got: TokenKind::Ampersand,
            token_text: "&".to_string(),
        })
    );
    assert_eq!(
        Parser::new("(A").parse_label_expression(),
        Err(Error::UnexpectedEof)
    );
}

#[test]
fn simplified_label_expression_stops_at_pipe() {
    let mut p = Parser::new("A&B|C");
    assert_eq!(
        p.parse_simplified_label_expression(),
        Ok(LabelExpression::And(label("A"), label("B")))
    );
}

#[test]
fn collect_label_names_in_order() {
    let e = Parser::new("A|(B&!A)|%").parse_label_expression().unwrap();
    let mut names = vec![id("x")];
    collect_label_names(&e, &mut names);
    assert_eq!(names, vec![id("x"), id("A"), id("B"), id("A")]);
}

#[test]
fn path_quantifiers() {
    let q = |s: &str| Parser::new(s).parse_optional_path_quantifier();
    assert_eq!(q("*"), Ok(Some(PathPatternQuantifier::ZeroOrMore)));
    assert_eq!(q("+"), Ok(Some(PathPatternQuantifier::OneOrMore)));
    assert_eq!(q("?"), Ok(Some(PathPatternQuantifier::Optional)));
    assert_eq!(q("x"), Ok(None));
    assert_eq!(
        q("{2,5}"),
        Ok(Some(PathPatternQuantifier::Range { min: Some(2), max: Some(5) }))
    );
    assert_eq!(q("{3}"), Ok(Some(PathPatternQuantifier::Fixed(3))));
    assert_eq!(
        q("{,}"),
        Ok(Some(PathPatternQuantifier::Range { min: None, max: None }))
    );
    assert_eq!(
        q("{}"),
        Err(Error::UnexpectedToken {
            offset: 1,
            expected: vec![TokenKind::Integer, TokenKind::Comma],
            got: TokenKind::RBrace,
            token_text: "}".to_string(),
        })
    );
    assert_eq!(
        q("{99999999999999999999}"),
        Err(Error::BadNumber { offset: 1, token_text: "99999999999999999999".to_string() })
    );
}

#[test]
fn path_pattern_prefixes() {
    let p = |s: &str| Parser::new(s).parse_optional_path_pattern_prefix();
    assert_eq!(p("x"), Ok(None));
    assert_eq!(
        p("ACYCLIC PATH"),
        Ok(Some(PathPatternPrefix::Mode {
            mode: PathMode::Acyclic,
            path_or_paths: Some(PathOrPaths::Path)
        }))
    );
    assert_eq!(
        p("ANY SHORTEST TRAIL PATHS"),
        Ok(Some(PathPatternPrefix::Search(PathSearchPrefix::AnyShortest {
            mode: Some(PathMode::Trail),
            path_or_paths: Some(PathOrPaths::Paths)
        })))
    );
    assert_eq!(
        p("SHORTEST 3 WALK GROUPS"),
        Ok(Some(PathPatternPrefix::Search(PathSearchPrefix::CountedShortestGroup {
            count: Some(UnsignedIntegerSpecification::Literal(3)),
            mode: Some(PathMode::Walk),
            path_or_paths: None,
            groups: true
        })))
    );
    assert_eq!(
        p("SHORTEST $k"),
        Ok(Some(PathPatternPrefix::Search(PathSearchPrefix::CountedShortest {
            count: UnsignedIntegerSpecification::Parameter("k".to_string()),
            mode: None,
            path_or_paths: None
        })))
    );
    assert_eq!(
        p("ANY 2"),
        Ok(Some(PathPatternPrefix::Search(PathSearchPrefix::Any {
            count: Some(UnsignedIntegerSpecification::Literal(2)),
            mode: None,
            path_or_paths: None
        })))
    );
    assert_eq!(
        p("ALL SIMPLE"),
        Ok(Some(PathPatternPrefix::Search(PathSearchPrefix::All {
            mode: Some(PathMode::Simple),
            path_or_paths: None
        })))
    );
}

#[test]
fn match_modes() {
    let m = |s: &str| Parser::new(s).parse_optional_match_mode();
    assert_eq!(m("x"), Ok(None));
    assert_eq!(
        m("REPEATABLE ELEMENT BINDINGS"),
        Ok(Some(MatchMode::RepeatableElements { bindings: true }))
    );
    assert_eq!(
        m("REPEATABLE ELEMENTS"),
        Ok(Some(MatchMode::RepeatableElements { bindings: false }))
    );
    assert_eq!(
        m("DIFFERENT EDGES"),
        Ok(Some(MatchMode::DifferentEdges { bindings: false }))
    );
    assert_eq!(
        m("DIFFERENT x"),
        Err(Error::UnexpectedToken {
            offset: 10,
            expected: vec![
                TokenKind::Edge,
                TokenKind::Relationship,
                TokenKind::Edges,
                TokenKind::Relationships
            ],
            got: TokenKind::Identifier,
            token_text: "x".to_string(),
        })
    );
}

#[test]
fn variable_scope() {
    assert_eq!(
        Parser::new("(a, b)").parse_variable_scope_clause(),
        Ok(vec![id("a"), id("b")])
    );
    assert_eq!(Parser::new("()").parse_variable_scope_clause(), Ok(vec![]));
    assert_eq!(
        Parser::new("(a, A)").parse_variable_scope_clause(),
        Err(message(4, "duplicate variable 'A' in variable scope"))
    );
}

#[test]
fn yield_clauses() {
    let c = Parser::new("a AS x, b").parse_yield_clause_body(true).unwrap();
    assert_eq!(
        c.items,
        vec![
            YieldItem::Item { name: id("a"), alias: Some(id("x")) },
            YieldItem::Item { name: id("b"), alias: None },
        ]
    );
    assert_eq!(
        Parser::new("a, A").parse_yield_clause_body(false),
        Err(message(3, "duplicate yield output 'A'"))
    );
    assert_eq!(
        Parser::new("a AS b, b").parse_yield_clause_body(true),
        Err(message(8, "duplicate yield output 'b'"))
    );
}

#[test]
fn simplified_direction_overrides() {
    let pre = |s: &str| Parser::new(s).parse_optional_simplified_direction_override_prefix();
    assert_eq!(pre("<~"), Ok(Some(Direction::LeftOrUndirected)));
    assert_eq!(pre("<"), Ok(Some(Direction::Left)));
    assert_eq!(pre("~"), Ok(Some(Direction::Undirected)));
    assert_eq!(pre("-"), Ok(Some(Direction::Any)));
    assert_eq!(pre("x"), Ok(None));
    let suf = |s: &str, d: Option<Direction>| {
        Parser::new(s).parse_optional_simplified_direction_override_suffix(d)
    };
    assert_eq!(suf(">", Some(Direction::Left)), Ok(Some(Direction::LeftOrRight)));
    assert_eq!(suf(">", Some(Direction::Undirected)), Ok(Some(Direction::UndirectedOrRight)));
    assert_eq!(suf(">", None), Ok(Some(Direction::Right)));
    assert_eq!(suf("x", Some(Direction::Any)), Ok(Some(Direction::Any)));
}

#[test]
fn simplified_delimiters() {
    assert_eq!(
        Parser::new("-/").parse_simplified_delimiter_prefix(),
        Ok(SimplifiedPrefix::Minus)
    );
    assert_eq!(
        Parser::new("<~/").parse_simplified_delimiter_prefix(),
        Ok(SimplifiedPrefix::LtTilde)
    );
    assert_eq!(
        Parser::new("/->").parse_simplified_delimiter_suffix(SimplifiedPrefix::Minus),
        Ok(Direction::Right)
    );
    assert_eq!(
        Parser::new("/->").parse_simplified_delimiter_suffix(SimplifiedPrefix::ArrowLeft),
        Ok(Direction::LeftOrRight)
    );
    assert_eq!(
        Parser::new("/~>").parse_simplified_delimiter_suffix(SimplifiedPrefix::Tilde),
        Ok(Direction::UndirectedOrRight)
    );
    assert_eq!(
        Parser::new("/~").parse_simplified_delimiter_suffix(SimplifiedPrefix::LtTilde),
        Ok(Direction::LeftOrUndirected)
    );
}

#[test]
fn alternation_operators() {
    let p = Parser::new("|+|");
    assert_eq!(
        p.peek_path_pattern_alternation_operator(),
        Some(PathPatternAlternation::MultisetAlternation)
    );
    assert_eq!(
        Parser::new("|+|").parse_path_pattern_alternation_operator(),
        Ok(PathPatternAlternation::MultisetAlternation)
    );
    assert_eq!(
        Parser::new("|").parse_path_pattern_alternation_operator(),
        Ok(PathPatternAlternation::Union)
    );
    assert_eq!(Parser::new("x").peek_path_pattern_alternation_operator(), None);
}

#[test]
fn trim_and_normal_form() {
    assert_eq!(Parser::new("LEADING").parse_optional_trim_specification(), Some(TrimSpec::Leading));
    assert_eq!(Parser::new("both").parse_optional_trim_specification(), Some(TrimSpec::Both));
    assert_eq!(Parser::new("x").parse_optional_trim_specification(), None);
    assert_eq!(Parser::new("nfkc").parse_normal_form(), Ok(id("nfkc")));
    assert_eq!(
        Parser::new("NFX").parse_normal_form(),
        Err(message(3, "invalid normal form 'NFX'"))
    );
}

#[test]
fn interval_qualifiers() {
    let q = |s: &str| Parser::new(s).parse_sql_interval_qualifier();
    assert_eq!(
        q("DAY TO SECOND(3)"),
        Ok(SqlIntervalQualifier {
            start: id("DAY"),
            start_precision: None,
            end: Some(id("SECOND")),
            end_precision: Some(3),
        })
    );
    assert_eq!(
        q("SECOND(2, 3)"),
        Ok(SqlIntervalQualifier {
            start: id("SECOND"),
            start_precision: Some(2),
            end: None,
            end_precision: Some(3),
        })
    );
    assert_eq!(q("MONTH TO YEAR"), Err(message(9, "invalid SQL interval qualifier range")));
    assert_eq!(q("WEEK"), Err(message(0, "invalid interval field 'WEEK'")));
    assert_eq!(
        q("DAY(2, 1)"),
        Err(message(7, "only SECOND interval field can specify fractional precision"))
    );
    assert_eq!(
        q("DAY TO HOUR(1)"),
        Err(message(12, "only SECOND end interval field can specify fractional precision"))
    );
}

#[test]
fn element_variable_lists() {
    assert_eq!(
        Parser::new("(a, b, c)").parse_element_variable_list_with_min_two(),
        Ok(vec![id("a"), id("b"), id("c")])
    );
    assert_eq!(
        Parser::new("(a)").parse_element_variable_list_with_min_two(),
        Err(Error::UnexpectedToken {
            offset: 2,
            expected: vec![TokenKind::Comma],
            got: TokenKind::RParen,
            token_text: ")".to_string(),
        })
    );
}

#[test]
fn insert_label_sets() {
    let (labels, expr) = Parser::new("A & B & a").parse_insert_label_set().unwrap();
    assert_eq!(labels, vec![id("A"), id("B")]);
    assert_eq!(expr, Some(LabelExpression::And(label("A"), label("B"))));
}

#[test]
fn statement_starts() {
    assert!(Parser::new("SESSION CLOSE").starts_session_close_command());
    assert!(!Parser::new("SESSION SET").starts_session_close_command());
    assert!(Parser::new("SESSION RESET").starts_session_activity_command());
    assert!(Parser::new("GRAPH g").starts_binding_variable_definition());
    assert!(Parser::new("CREATE SCHEMA s").starts_simple_catalog_modifying_statement());
    assert!(!Parser::new("MATCH").starts_simple_catalog_modifying_statement());
}

#[test]
fn at_schema_clause() {
    assert_eq!(
        Parser::new("AT SCHEMA /a").parse_optional_at_schema_clause(),
        Ok(Some(SchemaReference::Absolute(schema_name(&["a"]))))
    );
    assert_eq!(Parser::new("MATCH").parse_optional_at_schema_clause(), Ok(None));
}

#[test]
fn function_names() {
    assert!(is_aggregate_function_name("count"));
    assert!(is_aggregate_function_name("PERCENTILE_DISC"));
    assert!(!is_aggregate_function_name("upper"));
    assert!(is_general_set_function_name("Avg"));
    assert!(!is_general_set_function_name("PERCENTILE_CONT"));
    assert_eq!(reject_non_standard_value_function(&id("sum"), 3), Ok(()));
    assert_eq!(
        reject_non_standard_value_function(&id("foo"), 3),
        Err(message(3, "function foo is not a standard GQL value function"))
    );
}

#[test]
fn drop_statements() {
    let graph_name = |parts: &[&str]| GraphName {
        absolute: false,
        current_schema: false,
        home_schema: false,
        parent_levels: 0,
        parts: parts.iter().map(|p| id(p)).collect(),
    };
    assert_eq!(
        Parser::new("DROP GRAPH IF EXISTS g").parse_drop_statement(),
        Ok(DropStatement::Graph(DropGraphStatement {
            if_exists: true,
            property_graph: false,
            name: graph_name(&["g"]),
        }))
    );
    match Parser::new("DROP PROPERTY GRAPH TYPE t").parse_drop_statement() {
        Ok(DropStatement::GraphType(DropGraphTypeStatement { if_exists, property_graph, name })) => {
            assert!(!if_exists);
            assert!(property_graph);
            assert_eq!(name.parts, vec![id("t")]);
        }
        other => panic!("unexpected {other:?}"),
    }
    assert_eq!(
        Parser::new("DROP SCHEMA /s").parse_drop_statement(),
        Ok(DropStatement::Schema(DropSchemaStatement {
            if_exists: false,
            name: SchemaName {
                absolute: true,
                current_schema: false,
                home_schema: false,
                parent_levels: 0,
                parts: vec![id("s")],
            },
        }))
    );
    assert_eq!(
        Parser::new("DROP PROPERTY SCHEMA s").parse_drop_statement(),
        Err(Error::UnexpectedToken {
            offset: 14,
            expected: vec![TokenKind::Graph],
            got: TokenKind::Schema,
            token_text: "SCHEMA".to_string(),
        })
    );
    assert_eq!(
        Parser::new("DROP TABLE t").parse_drop_statement(),
        Err(Error::UnexpectedToken {
            offset: 5,
            expected: vec![TokenKind::Graph, TokenKind::Schema],
            got: TokenKind::Table,
            token_text: "TABLE".to_string(),
        })
    );
    assert_eq!(
        Parser::new("DROP GRAPH IF g").parse_drop_statement(),
        Err(Error::UnexpectedToken {
            offset: 14,
            expected: vec![TokenKind::Exists],
            got: TokenKind::Identifier,
            token_text: "g".to_string(),
        })
    );
    assert_eq!(
        Parser::new("DROP").parse_drop_statement(),
        Err(Error::UnexpectedToken {
            offset: 4,
            expected: vec![TokenKind::Graph, TokenKind::Schema],
            got: TokenKind::Eof,
            token_text: String::new(),
        })
    );
    assert_eq!(Parser::new("").parse_drop_statement(), Err(Error::UnexpectedEof));
}

#[test]
fn expression_lookahead() {
    let special = |s: &str| {
        let p = Parser::new(s);
        let kind = gql_parser::lexer::Lexer::new(s).next().unwrap().unwrap().kind;
        p.starts_object_expression_primary_special_case(kind)
    };
    assert!(special("42"));
    assert!(special("'text'"));
    assert!(special("CASE"));
    assert!(special("DATE '2024-01-01'"));
    assert!(!special("DATE x"));
    assert!(special("INTERVAL -"));
    assert!(special("COUNT(x)"));
    assert!(!special("COUNT x"));
    assert!(special("RECORD {"));
    assert!(special("LIST ["));
    assert!(special("GROUP LIST ["));
    assert!(!special("GROUP LIST x"));
    assert!(special("LET VALUE"));
    assert!(special("LET x = 1"));
    assert!(!special("LET x"));
    assert!(!special("x"));

    let p = Parser::new("g");
    assert!(p.is_strict_graph_expression_start(TokenKind::Identifier));
    assert!(p.is_strict_graph_expression_start(TokenKind::HomeGraph));
    assert!(!p.is_strict_binding_table_expression_start(TokenKind::HomeGraph));
    assert!(p.is_strict_binding_table_expression_start(TokenKind::LBrace));
    assert!(!p.is_strict_graph_expression_start(TokenKind::Comma));
    assert!(p.is_character_string_token(TokenKind::QuotedString));
    assert!(!p.is_character_string_token(TokenKind::ByteString));

    assert!(Parser::new("VALUE").starts_let_value_expression());
    assert!(Parser::new("x = 1").starts_let_value_expression());
    assert!(!Parser::new("x").starts_let_value_expression());
    assert!(Parser::new("$p.name").starts_parameter_property_reference());
    assert!(!Parser::new("$p").starts_parameter_property_reference());
}

#[test]
fn pattern_lookahead() {
    assert!(Parser::new("((a))").starts_parenthesized_path_pattern_expression());
    assert!(Parser::new("(WALK (a))").starts_parenthesized_path_pattern_expression());
    assert!(Parser::new("(p = (a))").starts_parenthesized_path_pattern_expression());
    assert!(Parser::new("(<~").starts_parenthesized_path_pattern_expression());
    assert!(!Parser::new("(a)").starts_parenthesized_path_pattern_expression());
    assert!(Parser::new("-/ A /->").starts_simplified_path_pattern_expression());
    assert!(Parser::new("<~/ A /~").starts_simplified_path_pattern_expression());
    assert!(!Parser::new("-[").starts_simplified_path_pattern_expression());
    assert!(Parser::new("<~").starts_relationship());
    assert!(Parser::new("->").starts_relationship());
    assert!(!Parser::new("<").starts_relationship());
    assert!(!Parser::new("->").starts_insert_relationship());
    assert!(Parser::new("~").starts_insert_relationship());
    assert!(Parser::new("(a)").starts_path_pattern_factor());
    assert!(Parser::new("-").starts_path_pattern_factor());
    assert!(!Parser::new("a").starts_path_pattern_factor());
    assert!(Parser::new("a").starts_element_variable());
    assert!(Parser::new("MATCH").starts_element_variable());
    assert!(!Parser::new("WHERE").starts_element_variable());
    assert!(!Parser::new("(").starts_element_variable());
}
