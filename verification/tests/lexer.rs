use gql_parser::error::Error;
use gql_parser::lexer::{is_identifier_continue, is_identifier_start, Lexer};
use gql_parser::token::{keyword_or_identifier, Token, TokenKind};

fn lex(input: &str) -> Vec<Result<Token, Error>> {
    let mut lexer = Lexer::new(input);
    let mut out = Vec::new();
    while let Some(item) = lexer.next() {
        out.push(item);
    }
    out
}

fn tokens(input: &str) -> Vec<Token> {
    lex(input)
        .into_iter()
        .map(|r| r.expect("unexpected lexical error"))
        .collect()
}

fn kinds(input: &str) -> Vec<TokenKind> {
    tokens(input).into_iter().map(|t| t.kind).collect()
}

fn single(input: &str) -> Token {
    let mut all = tokens(input);
    assert_eq!(all.len(), 1, "expected one token in {input:?}");
    all.remove(0)
}

fn first_error(input: &str) -> Error {
    lex(input)
        .into_iter()
        .find_map(|r| r.err())
        .expect("expected a lexical error")
}

#[test]
fn keywords_ignore_case() {
    let all = tokens("match MaTcH MATCH");
    assert_eq!(all.len(), 3);
    for t in &all {
        assert_eq!(t.kind, TokenKind::Match);
    }
    assert_eq!(all[1].text, "MaTcH");
    assert_eq!(all[2].offset, 12);
}

#[test]
fn keyword_or_identifier_looks_words_up() {
    let word = |s: &str| s.chars().collect::<Vec<char>>();
    assert_eq!(keyword_or_identifier(&word("match")), TokenKind::Match);
    assert_eq!(keyword_or_identifier(&word("NoDe")), TokenKind::Node);
    assert_eq!(keyword_or_identifier(&word("set")), TokenKind::SetKeyword);
    assert_eq!(keyword_or_identifier(&word("foo")), TokenKind::Identifier);
    assert_eq!(keyword_or_identifier(&word("matches")), TokenKind::Identifier);
}

#[test]
fn path_pattern_punctuation() {
    assert_eq!(
        kinds("(a)-[:KNOWS]->(b)"),
        vec![
            TokenKind::LParen,
            TokenKind::Identifier,
            TokenKind::RParen,
            TokenKind::Minus,
            TokenKind::LBracket,
            TokenKind::Colon,
            TokenKind::Identifier,
            TokenKind::RBracket,
            TokenKind::ArrowRight,
            TokenKind::LParen,
            TokenKind::Identifier,
            TokenKind::RParen,
        ]
    );
}

#[test]
fn two_character_operators() {
    assert_eq!(
        kinds("<= <> <- >= != ! :: || | < > ~ & ; ? % * / + = ."),
        vec![
            TokenKind::Le,
            TokenKind::Neq,
            TokenKind::ArrowLeft,
            TokenKind::Ge,
            TokenKind::Neq,
            TokenKind::Bang,
            TokenKind::DoubleColon,
            TokenKind::DoublePipe,
            TokenKind::Pipe,
            TokenKind::Lt,
            TokenKind::Gt,
            TokenKind::Tilde,
            TokenKind::Ampersand,
            TokenKind::Semicolon,
            TokenKind::Question,
            TokenKind::Percent,
            TokenKind::Star,
            TokenKind::Slash,
            TokenKind::Plus,
            TokenKind::Eq,
            TokenKind::Dot,
        ]
    );
}

#[test]
fn comments_are_skipped() {
    let all = tokens("a // c\n b -- d\n /* e */ c");
    let texts: Vec<&str> = all.iter().map(|t| t.text.as_str()).collect();
    assert_eq!(texts, vec!["a", "b", "c"]);
    let offsets: Vec<usize> = all.iter().map(|t| t.offset).collect();
    assert_eq!(offsets, vec![0, 8, 24]);
}

#[test]
fn offsets_count_bytes() {
    let all = tokens("é x");
    assert_eq!(all.len(), 2);
    assert_eq!(all[0].kind, TokenKind::Identifier);
    assert_eq!(all[0].text, "é");
    assert_eq!(all[1].offset, 3);
}

#[test]
fn empty_input_has_no_tokens() {
    assert!(lex("").is_empty());
    assert!(lex("   \n\t ").is_empty());
    assert!(lex("// only a comment").is_empty());
}

#[test]
fn string_escapes_and_doubled_quotes() {
    let t = single("'it''s\\n'");
    assert_eq!(t.kind, TokenKind::String);
    assert_eq!(t.text, "it's\n");
    assert_eq!(t.offset, 0);

    let t = single("'\\t\\\\\\\"\\`\\b\\f\\r'");
    assert_eq!(t.text, "\t\\\"`\u{8}\u{c}\r");
}

#[test]
fn unicode_escapes() {
    assert_eq!(single("'\\u0041'").text, "A");
    assert_eq!(single("'\\U01F600'").text, "\u{1F600}");
}

#[test]
fn raw_string_keeps_backslashes() {
    let t = single("@'raw\\n'");
    assert_eq!(t.kind, TokenKind::String);
    assert_eq!(t.text, "raw\\n");
}

#[test]
fn strings_separated_by_newline_concatenate() {
    let t = single("'ab'\n'cd'");
    assert_eq!(t.text, "abcd");

    let all = tokens("'ab' 'cd'");
    assert_eq!(all.len(), 2);
    assert_eq!(all[1].text, "cd");
    assert_eq!(all[1].offset, 5);

    let t = single("'a\\n'\n@'b\\n'");
    assert_eq!(t.text, "a\nb\\n");
}

#[test]
fn quoted_identifiers() {
    let t = single("\"my id\"");
    assert_eq!(t.kind, TokenKind::DoubleQuotedString);
    assert_eq!(t.text, "my id");

    let t = single("`x`");
    assert_eq!(t.kind, TokenKind::QuotedString);
    assert_eq!(t.text, "x");

    assert_eq!(single("\"a\"\"b\"").text, "a\"b");
    assert_eq!(single("@\"a\\n\"").text, "a\\n");
}

#[test]
fn integer_literals() {
    let t = single("42");
    assert_eq!((t.kind, t.text.as_str()), (TokenKind::Integer, "42"));
    assert_eq!(single("1_000").text, "1000");
    assert_eq!(single("0x1F").text, "31");
    assert_eq!(single("0X_ff").text, "255");
    assert_eq!(single("0b101").text, "5");
    assert_eq!(single("0o17").text, "15");
    assert_eq!(single("0x7FFFFFFFFFFFFFFF").text, "9223372036854775807");
    assert_eq!(single("0x7FFFFFFFFFFFFFFF").kind, TokenKind::Integer);
}

#[test]
fn decimal_literals() {
    let cases = [
        ("3.5", "3.5"),
        ("1e3", "1e3"),
        ("1E-3", "1e-3"),
        (".5", ".5"),
        ("2m", "2"),
        ("7.", "7."),
        ("1.5f", "1.5"),
    ];
    for (input, text) in cases {
        let t = single(input);
        assert_eq!(t.kind, TokenKind::Decimal, "{input}");
        assert_eq!(t.text, text, "{input}");
    }
}

#[test]
fn dot_after_integer_before_identifier_is_punctuation() {
    assert_eq!(
        kinds("1.x"),
        vec![TokenKind::Integer, TokenKind::Dot, TokenKind::Identifier]
    );
}

#[test]
fn parameters() {
    let t = single("$name");
    assert_eq!(t.kind, TokenKind::Parameter);
    assert_eq!(t.text, "$name");
    assert_eq!(single("$\"p q\"").text, "p q");
    assert_eq!(single("$@`a\\b`").text, "a\\b");
}

#[test]
fn byte_strings() {
    let t = single("X'0A ff'");
    assert_eq!(t.kind, TokenKind::ByteString);
    assert_eq!(t.text, "0Aff");
    assert_eq!(single("x'00'\n'11'").text, "0011");
}

#[test]
fn bad_numbers() {
    assert_eq!(
        first_error("0x"),
        Error::BadNumber { offset: 0, token_text: "0x".to_string() }
    );
    assert_eq!(
        first_error("1__0"),
        Error::BadNumber { offset: 0, token_text: "1__".to_string() }
    );
    assert_eq!(
        first_error("1_"),
        Error::BadNumber { offset: 0, token_text: "1_".to_string() }
    );
    assert_eq!(
        first_error("12abc"),
        Error::BadNumber { offset: 0, token_text: "12a".to_string() }
    );
    assert_eq!(
        first_error("1e"),
        Error::BadNumber { offset: 0, token_text: "1e".to_string() }
    );
    assert_eq!(
        first_error("0x8000000000000000"),
        Error::BadNumber { offset: 0, token_text: "0x8000000000000000".to_string() }
    );
}

#[test]
fn unterminated_literals() {
    assert_eq!(
        first_error("'abc"),
        Error::UnterminatedString { offset: 0, token_text: "'abc".to_string() }
    );
    assert_eq!(
        first_error("x /* y"),
        Error::UnterminatedBlockComment { offset: 2, token_text: "/* y".to_string() }
    );
    assert_eq!(
        first_error("\"abc"),
        Error::UnterminatedString { offset: 0, token_text: "\"abc".to_string() }
    );
}

#[test]
fn invalid_escapes() {
    assert_eq!(
        first_error("'\\q'"),
        Error::Message { offset: 1, message: "invalid string escape '\\q'".to_string() }
    );
    assert_eq!(
        first_error("'\\u00'"),
        Error::Message { offset: 1, message: "invalid string escape".to_string() }
    );
    assert_eq!(
        first_error("'\\UD80000'"),
        Error::Message { offset: 1, message: "invalid string escape".to_string() }
    );
}

#[test]
fn invalid_byte_strings() {
    assert_eq!(
        first_error("X'0A f'"),
        Error::Message { offset: 0, message: "invalid byte string literal 'X'0A f''".to_string() }
    );
    assert_eq!(
        first_error("X'0G'"),
        Error::Message { offset: 3, message: "invalid byte string literal character 'G'".to_string() }
    );
}

#[test]
fn unrecognized_characters() {
    assert_eq!(
        first_error("#"),
        Error::UnrecognizedToken { offset: 0, token_text: "#".to_string() }
    );
    assert_eq!(
        first_error("$"),
        Error::UnrecognizedToken { offset: 0, token_text: "$".to_string() }
    );
}

#[test]
fn lexing_goes_on_after_an_error() {
    let all = lex("# a");
    assert_eq!(all.len(), 2);
    assert!(all[0].is_err());
    let t = all[1].as_ref().unwrap();
    assert_eq!((t.kind, t.text.as_str(), t.offset), (TokenKind::Identifier, "a", 2));
}

#[test]
fn identifier_characters() {
    assert!(is_identifier_start('_'));
    assert!(is_identifier_start('a'));
    assert!(is_identifier_start('é'));
    assert!(!is_identifier_start('1'));
    assert!(is_identifier_continue('1'));
    assert!(is_identifier_continue('_'));
    assert!(!is_identifier_continue('-'));
}

#[test]
fn token_new_keeps_its_fields() {
    let t = Token::new(TokenKind::Identifier, "abc".to_string(), 7);
    assert_eq!(t.kind, TokenKind::Identifier);
    assert_eq!(t.text, "abc");
    assert_eq!(t.offset, 7);
}

#[test]
fn lexer_never_yields_an_end_token() {
    for input in ["", "a b", "MATCH (n) RETURN n", "'x' 1.5 $p X'00' `q`", "<= -> ~ |+|"] {
        for t in tokens(input) {
            assert_ne!(t.kind, TokenKind::Eof, "{input:?}");
        }
    }
}

#[test]
fn tokens_come_in_input_order() {
    let input = "MATCH (a:Person {name: 'Al''ice'})-[e]->(b) /* c */ WHERE a.age >= 0x1F RETURN é";
    let all = tokens(input);
    assert!(all.len() > 10);
    for pair in all.windows(2) {
        assert!(pair[0].offset < pair[1].offset);
    }
    assert!(all.iter().all(|t| t.offset < input.len()));
}
