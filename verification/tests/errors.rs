use gql_parser::ast::DateTimeFunctionKind;
use gql_parser::error::Error;
use gql_parser::parser::Parser;
use gql_parser::token::TokenKind;

#[test]
fn messages_of_lexical_errors() {
    let e = Error::UnrecognizedToken { offset: 3, token_text: "#".to_string() };
    assert_eq!(e.message(), "unrecognized token '#' at offset 3");
    let e = Error::UnterminatedString { offset: 0, token_text: "'abc".to_string() };
    assert_eq!(e.message(), "unterminated string ''abc' at offset 0");
    let e = Error::UnterminatedBlockComment { offset: 12, token_text: "/* x".to_string() };
    assert_eq!(e.message(), "unterminated block comment '/* x' at offset 12");
    let e = Error::BadNumber { offset: 105, token_text: "0x".to_string() };
    assert_eq!(e.message(), "bad number '0x' at offset 105");
}

#[test]
fn messages_of_parse_errors() {
    assert_eq!(Error::UnexpectedEof.message(), "incomplete input");
    let e = Error::expected(
        4,
        vec![TokenKind::RParen, TokenKind::Comma],
        TokenKind::SetKeyword,
        "SET".to_string(),
    );
    assert_eq!(e.message(), "near 'SET' at offset 4: expected [RParen, Comma], got Set");
    let e = Error::expected(0, vec![], TokenKind::Eof, String::new());
    assert_eq!(e.message(), "near '' at offset 0: expected [], got Eof");
    let e = Error::Message { offset: 7, message: "duplicate field 'a'".to_string() };
    assert_eq!(e.message(), "duplicate field 'a' at offset 7");
}

#[test]
fn message_of_a_parser_error() {
    let e = Parser::new("COMMIT x").parse_rollback_statement().unwrap_err();
    assert_eq!(
        e.message(),
        "near 'COMMIT' at offset 0: expected [Rollback], got Commit"
    );
}

#[test]
fn expected_builds_unexpected_token() {
    assert_eq!(
        Error::expected(2, vec![TokenKind::Identifier], TokenKind::Integer, "1".to_string()),
        Error::UnexpectedToken {
            offset: 2,
            expected: vec![TokenKind::Identifier],
            got: TokenKind::Integer,
            token_text: "1".to_string(),
        }
    );
}

#[test]
fn duplicate_copies_the_error() {
    let e = Error::Message { offset: 1, message: "m".to_string() };
    assert_eq!(e.duplicate(), e);
    assert_eq!(Error::UnexpectedEof.duplicate(), Error::UnexpectedEof);
}

#[test]
fn token_kind_names() {
    assert_eq!(TokenKind::LParen.name(), "LParen");
    assert_eq!(TokenKind::SetKeyword.name(), "Set");
    assert_eq!(TokenKind::ParameterKeyword.name(), "ParameterKeyword");
    assert_eq!(TokenKind::Eof.name(), "Eof");
}

#[test]
fn datetime_function_names() {
    assert_eq!(DateTimeFunctionKind::Date.name(), "DATE");
    assert_eq!(DateTimeFunctionKind::ZonedDateTime.name(), "ZONED_DATETIME");
    assert_eq!(DateTimeFunctionKind::LocalTime.name(), "LOCAL_TIME");
}
