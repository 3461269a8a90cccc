use gql_parser::ast::{Direction, Identifier, LabelExpression, PathPatternQuantifier};
use gql_parser::error::Error;
use gql_parser::parser::Parser;
use gql_parser::syntax::{Expr, Literal, MapLiteral, NodePattern, RelationshipPattern};
use gql_parser::token::TokenKind;

fn id(s: &str) -> Identifier {
    Identifier::new(s.to_string())
}

fn relationship(input: &str) -> Result<RelationshipPattern, Error> {
    Parser::new(input).parse_relationship_pattern()
}

fn node(input: &str) -> Result<NodePattern, Error> {
    Parser::new(input).parse_node_pattern()
}

fn bare(direction: Direction) -> RelationshipPattern {
    RelationshipPattern {
        direction,
        variable: None,
        temporary: false,
        labels: vec![],
        label_expression: None,
        properties: None,
        where_clause: None,
        quantifier: None,
    }
}

fn named(direction: Direction, variable: &str) -> RelationshipPattern {
    RelationshipPattern { variable: Some(id(variable)), ..bare(direction) }
}

#[test]
fn full_right_arrow_with_a_variable_and_a_label() {
    let expected = RelationshipPattern {
        labels: vec![id("Knows")],
        label_expression: Some(LabelExpression::Label(id("Knows"))),
        ..named(Direction::Right, "e")
    };
    assert_eq!(relationship("-[e:Knows]->"), Ok(expected));
}

#[test]
fn abbreviated_arrows_give_their_directions() {
    assert_eq!(relationship("<-"), Ok(bare(Direction::Left)));
    assert_eq!(relationship("->"), Ok(bare(Direction::Right)));
    assert_eq!(relationship("~"), Ok(bare(Direction::Undirected)));
    assert_eq!(relationship("~>"), Ok(bare(Direction::UndirectedOrRight)));
    assert_eq!(relationship("<~"), Ok(bare(Direction::LeftOrUndirected)));
    assert_eq!(relationship("<->"), Ok(bare(Direction::LeftOrRight)));
    assert_eq!(relationship("-"), Ok(bare(Direction::Any)));
}

#[test]
fn full_arrows_give_their_directions() {
    assert_eq!(relationship("<-[r]-"), Ok(named(Direction::Left, "r")));
    assert_eq!(relationship("<-[r]->"), Ok(named(Direction::LeftOrRight, "r")));
    assert_eq!(relationship("~[r]~"), Ok(named(Direction::Undirected, "r")));
    assert_eq!(relationship("~[r]~>"), Ok(named(Direction::UndirectedOrRight, "r")));
    assert_eq!(relationship("<~[r]~"), Ok(named(Direction::LeftOrUndirected, "r")));
    assert_eq!(relationship("-[r]-"), Ok(named(Direction::Any, "r")));
}

#[test]
fn a_full_arrow_needs_its_end() {
    assert_eq!(
        relationship("-[e]"),
        Err(Error::UnexpectedToken {
            offset: 4,
            expected: vec![TokenKind::ArrowRight, TokenKind::Minus],
            got: TokenKind::Eof,
            token_text: String::new(),
        })
    );
}

#[test]
fn quantified_relationship() {
    let expected = RelationshipPattern {
        quantifier: Some(PathPatternQuantifier::Range { min: Some(1), max: Some(3) }),
        ..named(Direction::Right, "e")
    };
    assert_eq!(relationship("-[e]->{1,3}"), Ok(expected));
    let plus = RelationshipPattern { quantifier: Some(PathPatternQuantifier::OneOrMore), ..bare(Direction::Right) };
    assert_eq!(relationship("->+"), Ok(plus));
}

#[test]
fn conjoined_and_alternative_labels() {
    let and = RelationshipPattern {
        labels: vec![id("A"), id("B")],
        label_expression: Some(LabelExpression::And(
            Box::new(LabelExpression::Label(id("A"))),
            Box::new(LabelExpression::Label(id("B"))),
        )),
        ..named(Direction::Right, "e")
    };
    assert_eq!(relationship("-[e:A:B]->"), Ok(and));
    let or = RelationshipPattern {
        labels: vec![id("A"), id("B")],
        label_expression: Some(LabelExpression::Or(
            Box::new(LabelExpression::Label(id("A"))),
            Box::new(LabelExpression::Label(id("B"))),
        )),
        ..bare(Direction::Right)
    };
    assert_eq!(relationship("-[:A|B]->"), Ok(or));
}

#[test]
fn temporary_element_variables_are_refused() {
    assert_eq!(
        relationship("-[TEMP x]->"),
        Err(Error::Message {
            offset: 2,
            message: "TEMP element variable declarations are not user-visible standard GQL syntax".to_string(),
        })
    );
}

#[test]
fn node_with_labels_and_properties() {
    let expected = NodePattern {
        variable: Some(id("n")),
        temporary: false,
        labels: vec![id("Person")],
        label_expression: Some(LabelExpression::Label(id("Person"))),
        properties: Some(MapLiteral { entries: vec![(id("age"), Expr::Literal(Literal::Integer(1)))] }),
        where_clause: None,
        quantifier: None,
    };
    assert_eq!(node("(n:Person {age: 1})"), Ok(expected));
}

#[test]
fn node_with_a_where_predicate() {
    let expected = NodePattern {
        variable: Some(id("n")),
        temporary: false,
        labels: vec![],
        label_expression: None,
        properties: None,
        where_clause: Some(Expr::Identifier(id("ok"))),
        quantifier: None,
    };
    assert_eq!(node("(n WHERE ok)"), Ok(expected));
    let empty = NodePattern { variable: None, where_clause: None, ..node("(n WHERE ok)").unwrap() };
    assert_eq!(node("()"), Ok(empty));
}

#[test]
fn node_needs_its_closing_parenthesis() {
    assert_eq!(
        node("(n"),
        Err(Error::UnexpectedToken {
            offset: 2,
            expected: vec![TokenKind::RParen],
            got: TokenKind::Eof,
            token_text: String::new(),
        })
    );
}
