use gql_parser::ast::{
    ApproximateNumericTypeKind, BooleanTypeKind, ByteStringTypeKind, CharacterStringTypeKind,
    Direction, EdgeTypeDefinition, ExactNumericTypeKind, FieldType, GraphTypeBody,
    GraphTypeElement, Identifier, NodeTypeDefinition, PropertyTypeDefinition, TemporalTypeKind,
    ValueType,
};
use gql_parser::error::Error;
use gql_parser::parser::Parser;
use gql_parser::token::TokenKind;
use gql_parser::type_grammar::GraphTypeElementContext;
use gql_parser::type_parser::{
    element_reference_value_type, graph_type_element_kind_and_name, has_field_type_named,
    has_property_named, is_known_not_null_value_type, numeric_suffix, push_identifier_if_absent,
    validate_closed_edge_reference_definition, validate_dynamic_union_component_nullability,
    validate_endpoint_pair_shape, validate_graph_type_body_edge_phrase,
    validate_graph_type_element_name, validate_graph_type_endpoint_node_type,
    validate_graph_type_endpoint_node_types, wrap_list_value_type,
};

fn id(s: &str) -> Identifier {
    Identifier::new(s.to_string())
}

fn message(offset: usize, text: &str) -> Error {
    Error::Message { offset, message: text.to_string() }
}

fn vt(input: &str) -> Result<ValueType, Error> {
    Parser::new(input).parse_value_type()
}

fn int_type(signed: Option<bool>, precision: Option<u64>) -> ValueType {
    ValueType::ExactNumeric {
        kind: ExactNumericTypeKind::Integer,
        signed,
        precision,
        scale: None,
    }
}

fn string(max_length: Option<u64>) -> ValueType {
    ValueType::CharacterString { kind: CharacterStringTypeKind::String, max_length }
}

fn node(name: &str) -> GraphTypeElement {
    GraphTypeElement::Node(NodeTypeDefinition { name: id(name), labels: vec![], properties: vec![] })
}

fn edge(name: &str, source: Option<&str>, destination: Option<&str>) -> EdgeTypeDefinition {
    EdgeTypeDefinition {
        name: id(name),
        direction: Direction::Right,
        labels: vec![],
        source: source.map(id),
        destination: destination.map(id),
        properties: vec![],
    }
}

#[test]
fn integer_types() {
    assert_eq!(vt("INT"), Ok(int_type(Some(true), None)));
    assert_eq!(vt("integer(10)"), Ok(int_type(Some(true), Some(10))));
    assert_eq!(vt("UINT32"), Ok(int_type(Some(false), Some(32))));
    assert_eq!(vt("INT64"), Ok(int_type(Some(true), Some(64))));
    assert_eq!(vt("BIGINT"), Ok(int_type(Some(true), None)));
    assert_eq!(vt("USMALLINT"), Ok(int_type(Some(false), None)));
    assert_eq!(
        vt("SMALL INTEGER"),
        Ok(ValueType::Named { name: id("SMALL INTEGER"), parameters: vec![] })
    );
    assert_eq!(vt("UNSIGNED INT"), Ok(int_type(Some(false), None)));
    assert_eq!(vt("SIGNED UINT"), Ok(int_type(Some(false), None)));
}

#[test]
fn integer_type_errors() {
    assert_eq!(
        vt("INT7"),
        Err(message(4, "integer type suffix must be one of 8, 16, 32, 64, 128, or 256"))
    );
    assert_eq!(
        vt("INT(0)"),
        Err(message(5, "numeric precision must be greater than or equal to 1"))
    );
}

#[test]
fn decimal_types() {
    assert_eq!(
        vt("DECIMAL(10, 2)"),
        Ok(ValueType::ExactNumeric {
            kind: ExactNumericTypeKind::Decimal,
            signed: None,
            precision: Some(10),
            scale: Some(2),
        })
    );
    assert_eq!(
        vt("DEC"),
        Ok(ValueType::ExactNumeric {
            kind: ExactNumericTypeKind::Decimal,
            signed: None,
            precision: None,
            scale: None,
        })
    );
    assert_eq!(vt("DECIMAL(2, 10)"), Err(message(14, "numeric scale exceeds precision")));
}

#[test]
fn approximate_numeric_types() {
    let approx = |kind, precision, scale| ValueType::ApproximateNumeric { kind, precision, scale };
    assert_eq!(vt("FLOAT64"), Ok(approx(ApproximateNumericTypeKind::Float, Some(64), None)));
    assert_eq!(vt("FLOAT(10, 2)"), Ok(approx(ApproximateNumericTypeKind::Float, Some(10), Some(2))));
    assert_eq!(vt("REAL"), Ok(approx(ApproximateNumericTypeKind::Real, None, None)));
    assert_eq!(
        vt("DOUBLE PRECISION"),
        Ok(approx(ApproximateNumericTypeKind::Double, None, None))
    );
    assert_eq!(
        vt("FLOAT(1)"),
        Err(message(8, "approximate numeric precision must be greater than or equal to 2"))
    );
    assert_eq!(
        vt("FLOAT7"),
        Err(message(6, "FLOAT type suffix must be one of 16, 32, 64, 128, or 256"))
    );
}

#[test]
fn string_and_byte_string_types() {
    assert_eq!(vt("STRING(5)"), Ok(string(Some(5))));
    assert_eq!(
        vt("varchar"),
        Ok(ValueType::CharacterString { kind: CharacterStringTypeKind::Varchar, max_length: None })
    );
    assert_eq!(
        vt("VARCHAR(0)"),
        Err(message(9, "character string max length must be greater than or equal to 1"))
    );
    let bytes = |kind, min_length, max_length| ValueType::ByteString { kind, min_length, max_length };
    assert_eq!(vt("BINARY"), Ok(bytes(ByteStringTypeKind::Binary, Some(1), Some(1))));
    assert_eq!(vt("BINARY(4)"), Ok(bytes(ByteStringTypeKind::Binary, Some(4), Some(4))));
    assert_eq!(vt("BYTES"), Ok(bytes(ByteStringTypeKind::Bytes, Some(0), None)));
    assert_eq!(vt("BYTES(8)"), Ok(bytes(ByteStringTypeKind::Bytes, Some(0), Some(8))));
    assert_eq!(vt("BYTES(2, 8)"), Ok(bytes(ByteStringTypeKind::Bytes, Some(2), Some(8))));
    assert_eq!(vt("VARBINARY(8)"), Ok(bytes(ByteStringTypeKind::Varbinary, Some(0), Some(8))));
    assert_eq!(vt("BYTES(4, 2)"), Err(message(11, "byte string min length exceeds max length")));
    assert_eq!(
        vt("BYTES(0)"),
        Err(message(7, "byte string max length must be greater than or equal to 1"))
    );
}

#[test]
fn boolean_and_temporal_types() {
    assert_eq!(
        vt("BOOL NOT NULL"),
        Ok(ValueType::NotNull(Box::new(ValueType::Boolean { kind: BooleanTypeKind::Bool })))
    );
    assert_eq!(vt("ZONED DATETIME"), Ok(ValueType::Temporal { kind: TemporalTypeKind::ZonedDateTime }));
    assert_eq!(vt("DATE"), Ok(ValueType::Temporal { kind: TemporalTypeKind::Date }));
    assert_eq!(vt("LOCAL TIME"), Ok(ValueType::Temporal { kind: TemporalTypeKind::LocalTime }));
    assert_eq!(vt("DURATION"), Ok(ValueType::Temporal { kind: TemporalTypeKind::Duration }));
    assert_eq!(
        vt("TIMESTAMP"),
        Ok(ValueType::Temporal { kind: TemporalTypeKind::LocalDateTime })
    );
}

#[test]
fn list_types() {
    assert_eq!(
        vt("LIST<INT>[10]"),
        Ok(ValueType::ListWithLength { element: Box::new(int_type(Some(true), None)), max_length: 10 })
    );
    assert_eq!(vt("INT ARRAY"), Ok(ValueType::Array(Box::new(int_type(Some(true), None)))));
    assert_eq!(
        vt("STRING LIST NOT NULL"),
        Ok(ValueType::NotNull(Box::new(ValueType::List(Box::new(string(None))))))
    );
    assert_eq!(
        vt("LIST<INT>[0]"),
        Err(message(11, "list max length must be greater than or equal to 1"))
    );
    assert_eq!(
        vt("GROUP LIST<INT>"),
        Err(message(0, "GROUP list value type names are not user-visible standard GQL syntax"))
    );
}

#[test]
fn dynamic_unions() {
    assert_eq!(
        vt("INT | STRING"),
        Ok(ValueType::DynamicUnion(vec![int_type(Some(true), None), string(None)]))
    );
    assert_eq!(
        vt("INT NOT NULL | STRING"),
        Err(message(21, "dynamic union component types must have matching nullability"))
    );
    assert_eq!(vt("ANY"), Ok(ValueType::AnyDynamic));
    assert_eq!(
        vt("ANY VALUE <INT | STRING>"),
        Ok(ValueType::DynamicUnion(vec![int_type(Some(true), None), string(None)]))
    );
    assert_eq!(vt("ANY PROPERTY VALUE"), Ok(ValueType::PropertyValue));
}

#[test]
fn records_and_tables() {
    assert_eq!(vt("RECORD"), Ok(ValueType::AnyRecord));
    assert_eq!(vt("PATH"), Ok(ValueType::Path));
    assert_eq!(
        vt("RECORD {a INT, b STRING}"),
        Ok(ValueType::Record(vec![
            FieldType { name: id("a"), value_type: int_type(Some(true), None) },
            FieldType { name: id("b"), value_type: string(None) },
        ]))
    );
    assert_eq!(vt("{a INT, A STRING}"), Err(message(8, "duplicate field 'A'")));
    assert_eq!(
        vt("BINDING TABLE {x TYPED INT}"),
        Ok(ValueType::BindingTable {
            binding: true,
            fields: vec![FieldType { name: id("x"), value_type: int_type(Some(true), None) }],
        })
    );
}

#[test]
fn named_types() {
    assert_eq!(
        vt("MYTYPE(1, 2)"),
        Ok(ValueType::Named { name: id("MYTYPE"), parameters: vec![1, 2] })
    );
    assert_eq!(
        vt("CHARACTER VARYING"),
        Ok(ValueType::Named { name: id("CHARACTER VARYING"), parameters: vec![] })
    );
    assert_eq!(
        vt("foo()"),
        Ok(ValueType::Named { name: id("foo"), parameters: vec![] })
    );
    assert_eq!(vt(""), Err(Error::UnexpectedEof));
}

#[test]
fn reference_types() {
    assert_eq!(vt("NODE"), Ok(ValueType::NodeReference { definition: None }));
    assert_eq!(vt("ANY EDGE"), Ok(ValueType::EdgeReference { definition: None }));
    assert_eq!(vt("EDGE"), Ok(ValueType::EdgeReference { definition: None }));
    assert_eq!(
        vt("ANY PROPERTY GRAPH"),
        Ok(ValueType::GraphReference { property_graph: true, body: None })
    );
    assert_eq!(
        vt("(:Person {name STRING})"),
        Ok(ValueType::NodeReference {
            definition: Some(NodeTypeDefinition {
                name: id(""),
                labels: vec![id("Person")],
                properties: vec![PropertyTypeDefinition { name: id("name"), value_type: string(None) }],
            })
        })
    );
    assert_eq!(
        vt("EDGE Knows"),
        Err(message(0, "closed edge reference type cannot contain an edge type name"))
    );
}

#[test]
fn graph_type_bodies() {
    let body = Parser::new(
        "{NODE Person {name STRING}, DIRECTED EDGE Knows CONNECTING (Person -> Person)}",
    )
    .parse_nested_graph_type_body()
    .unwrap();
    assert_eq!(
        body,
        GraphTypeBody {
            elements: vec![
                GraphTypeElement::Node(NodeTypeDefinition {
                    name: id("Person"),
                    labels: vec![],
                    properties: vec![PropertyTypeDefinition {
                        name: id("name"),
                        value_type: string(None),
                    }],
                }),
                GraphTypeElement::Edge(edge("Knows", Some("Person"), Some("Person"))),
            ]
        }
    );
    assert_eq!(
        Parser::new("{}").parse_nested_graph_type_body(),
        Ok(GraphTypeBody { elements: vec![] })
    );
}

#[test]
fn graph_type_body_errors() {
    let body = |s: &str| Parser::new(s).parse_nested_graph_type_body();
    assert_eq!(
        body("{DIRECTED EDGE Knows CONNECTING (A -> B)}"),
        Err(message(40, "endpoint node type 'A' is not defined"))
    );
    assert_eq!(body("{NODE A, NODE a}"), Err(message(9, "duplicate node type name 'a'")));
    assert_eq!(
        body("{EDGE E}"),
        Err(message(1, "graph type body edge type phrase requires DIRECTED or UNDIRECTED"))
    );
    assert_eq!(
        body("{NODE A {p INT, P INT}}"),
        Err(message(16, "duplicate property 'P'"))
    );
    assert_eq!(
        body("{NODE A, UNDIRECTED EDGE E CONNECTING (A -> A)}"),
        Err(message(41, "UNDIRECTED edge type requires an undirected endpoint pair"))
    );
}

#[test]
fn graph_type_elements() {
    let el = |s: &str| {
        Parser::new(s).parse_graph_type_element(GraphTypeElementContext::ClosedReferenceValueType)
    };
    assert_eq!(
        el("(a)-[:E]->(b)"),
        Ok(GraphTypeElement::Edge(EdgeTypeDefinition {
            name: id(""),
            direction: Direction::Right,
            labels: vec![id("E")],
            source: Some(id("a")),
            destination: Some(id("b")),
            properties: vec![],
        }))
    );
    assert_eq!(
        el("(a)<-(b)"),
        Ok(GraphTypeElement::Edge(edge("", Some("b"), Some("a"))))
    );
    assert_eq!(
        el("x"),
        Err(Error::UnexpectedToken {
            offset: 0,
            expected: vec![
                TokenKind::Node,
                TokenKind::Vertex,
                TokenKind::Edge,
                TokenKind::Relationship,
                TokenKind::LParen
            ],
            got: TokenKind::Identifier,
            token_text: "x".to_string(),
        })
    );
}

#[test]
fn type_label_lists() {
    let mut p = Parser::new(":A&B:a IS C");
    assert_eq!(p.parse_optional_type_label_list(), Ok(vec![id("A"), id("B"), id("C")]));
    assert_eq!(
        Parser::new("LABEL X").parse_optional_type_label_list(),
        Ok(vec![id("X")])
    );
    assert_eq!(Parser::new("x").parse_optional_type_label_list(), Ok(vec![]));
}

#[test]
fn numeric_suffixes() {
    assert_eq!(numeric_suffix("INT8", "INT"), Some(Some(8)));
    assert_eq!(numeric_suffix("INT", "INT"), Some(None));
    assert_eq!(numeric_suffix("INTX", "INT"), None);
    assert_eq!(numeric_suffix("UINT8", "INT"), None);
    assert_eq!(numeric_suffix("IN", "INT"), None);
    assert_eq!(numeric_suffix("INT99999999999999999999", "INT"), None);
}

#[test]
fn identifier_sets_ignore_case() {
    let mut v = vec![id("a")];
    push_identifier_if_absent(&mut v, Some(&id("A")));
    push_identifier_if_absent(&mut v, None);
    push_identifier_if_absent(&mut v, Some(&id("b")));
    assert_eq!(v, vec![id("a"), id("b")]);
}

#[test]
fn list_wrapping() {
    assert_eq!(
        wrap_list_value_type(ValueType::Path, TokenKind::Array, false, Some(3), 0),
        Ok(ValueType::ArrayWithLength { element: Box::new(ValueType::Path), max_length: 3 })
    );
    assert_eq!(
        wrap_list_value_type(ValueType::Path, TokenKind::List, true, None, 4),
        Err(message(4, "GROUP list value type names are not user-visible standard GQL syntax"))
    );
}

#[test]
fn validators() {
    assert!(is_known_not_null_value_type(&ValueType::NotNull(Box::new(ValueType::Path))));
    assert!(!is_known_not_null_value_type(&ValueType::Path));
    assert_eq!(validate_dynamic_union_component_nullability(&vec![], 0), Ok(()));
    assert_eq!(
        validate_dynamic_union_component_nullability(
            &vec![ValueType::Path, ValueType::NotNull(Box::new(ValueType::Path))],
            5
        ),
        Err(message(5, "dynamic union component types must have matching nullability"))
    );
    assert_eq!(
        validate_closed_edge_reference_definition(&edge("", Some("a"), None), 2),
        Err(message(2, "closed edge reference type cannot contain endpoint node type names"))
    );
    assert_eq!(validate_closed_edge_reference_definition(&edge("", None, None), 2), Ok(()));
    assert_eq!(
        validate_endpoint_pair_shape(Some(Direction::Right), Direction::Undirected, 7),
        Err(message(7, "DIRECTED edge type cannot use an undirected endpoint pair"))
    );
    assert_eq!(validate_endpoint_pair_shape(None, Direction::Undirected, 7), Ok(()));
    assert_eq!(
        validate_graph_type_body_edge_phrase(
            GraphTypeElementContext::GraphTypeSpecificationBody,
            Some(Direction::Right),
            &id(""),
            1
        ),
        Err(message(1, "graph type body edge type phrase requires an edge type name"))
    );
    assert_eq!(
        validate_graph_type_body_edge_phrase(
            GraphTypeElementContext::ClosedReferenceValueType,
            None,
            &id(""),
            1
        ),
        Ok(())
    );
}

#[test]
fn element_names_and_endpoints() {
    assert_eq!(graph_type_element_kind_and_name(&node("A")), Some(("node", "A")));
    assert_eq!(graph_type_element_kind_and_name(&node("")), None);
    let elements = vec![node("A"), GraphTypeElement::Edge(edge("E", Some("a"), Some("B")))];
    assert_eq!(
        validate_graph_type_element_name(&elements, &GraphTypeElement::Edge(edge("e", None, None)), 3),
        Err(message(3, "duplicate edge type name 'e'"))
    );
    assert_eq!(validate_graph_type_element_name(&elements, &node("E"), 3), Ok(()));
    assert_eq!(validate_graph_type_endpoint_node_type(&elements, Some(&id("a")), 0), Ok(()));
    assert_eq!(validate_graph_type_endpoint_node_type(&elements, None, 0), Ok(()));
    assert_eq!(
        validate_graph_type_endpoint_node_types(&elements, 9),
        Err(message(9, "endpoint node type 'B' is not defined"))
    );
}

#[test]
fn names_in_lists() {
    let props = vec![PropertyTypeDefinition { name: id("Age"), value_type: ValueType::Path }];
    assert!(has_property_named(&props, &id("age")));
    assert!(!has_property_named(&props, &id("name")));
    let fields = vec![FieldType { name: id("X"), value_type: ValueType::Path }];
    assert!(has_field_type_named(&fields, &id("x")));
    assert!(!has_field_type_named(&fields, &id("y")));
}

#[test]
fn element_references() {
    assert_eq!(
        element_reference_value_type(node("A"), 0),
        Ok(ValueType::NodeReference {
            definition: Some(NodeTypeDefinition { name: id("A"), labels: vec![], properties: vec![] })
        })
    );
    assert_eq!(
        element_reference_value_type(GraphTypeElement::Edge(edge("E", None, None)), 6),
        Err(message(6, "closed edge reference type cannot contain an edge type name"))
    );
}

#[test]
fn graph_type_body_with_undirected_edge() {
    let body = Parser::new(
        "{NODE TYPE Person LABEL P, UNDIRECTED EDGE Friend CONNECTING (Person ~ Person)}",
    )
    .parse_nested_graph_type_body()
    .unwrap();
    assert_eq!(
        body.elements,
        vec![
            GraphTypeElement::Node(NodeTypeDefinition {
                name: id("Person"),
                labels: vec![id("P")],
                properties: vec![],
            }),
            GraphTypeElement::Edge(EdgeTypeDefinition {
                name: id("Friend"),
                direction: Direction::Undirected,
                labels: vec![],
                source: Some(id("Person")),
                destination: Some(id("Person")),
                properties: vec![],
            }),
        ]
    );
}

#[test]
fn closed_element_arcs() {
    let el = |s: &str| {
        Parser::new(s).parse_graph_type_element(GraphTypeElementContext::ClosedReferenceValueType)
    };
    assert_eq!(
        el("(a)~[E]~(b)"),
        Ok(GraphTypeElement::Edge(EdgeTypeDefinition {
            name: id("E"),
            direction: Direction::Undirected,
            labels: vec![],
            source: Some(id("a")),
            destination: Some(id("b")),
            properties: vec![],
        }))
    );
    assert_eq!(
        el("(a)"),
        Ok(node("a"))
    );
}

#[test]
fn edge_and_node_reference_types() {
    assert_eq!(
        vt("EDGE {w INT} FROM a TO b"),
        Err(message(0, "closed edge reference type cannot contain endpoint node type names"))
    );
    assert_eq!(
        vt("DIRECTED EDGE {w INT}"),
        Ok(ValueType::EdgeReference {
            definition: Some(EdgeTypeDefinition {
                name: id(""),
                direction: Direction::Right,
                labels: vec![],
                source: None,
                destination: None,
                properties: vec![PropertyTypeDefinition { name: id("w"), value_type: int_type(Some(true), None) }],
            })
        })
    );
    assert_eq!(
        vt("(a)->(b)"),
        Err(message(8, "closed edge reference type cannot contain endpoint node type names"))
    );
    assert_eq!(
        vt("NODE :A {x INT}"),
        Ok(ValueType::NodeReference {
            definition: Some(NodeTypeDefinition {
                name: id(""),
                labels: vec![id("A")],
                properties: vec![PropertyTypeDefinition { name: id("x"), value_type: int_type(Some(true), None) }],
            })
        })
    );
}

#[test]
fn graph_and_table_reference_types() {
    assert_eq!(
        vt("PROPERTY GRAPH {NODE A}"),
        Ok(ValueType::GraphReference {
            property_graph: true,
            body: Some(GraphTypeBody { elements: vec![node("A")] }),
        })
    );
    assert_eq!(
        vt("TABLE {a INT}"),
        Ok(ValueType::BindingTable {
            binding: false,
            fields: vec![FieldType { name: id("a"), value_type: int_type(Some(true), None) }],
        })
    );
}

#[test]
fn edge_kind_decides_direction() {
    let body = |s: &str| Parser::new(s).parse_nested_graph_type_body();
    assert_eq!(
        body("{NODE A, DIRECTED EDGE E CONNECTING (A ~ A)}"),
        Err(message(39, "DIRECTED edge type cannot use an undirected endpoint pair"))
    );
    let b = body("{NODE A, UNDIRECTED EDGE E CONNECTING (A TO A)}").unwrap();
    match &b.elements[1] {
        GraphTypeElement::Edge(e) => assert_eq!(e.direction, Direction::Undirected),
        other => panic!("unexpected {other:?}"),
    }
    let b = body("{NODE A, DIRECTED EDGE E CONNECTING (A) <- (A)}").unwrap();
    match &b.elements[1] {
        GraphTypeElement::Edge(e) => assert_eq!(e.direction, Direction::Right),
        other => panic!("unexpected {other:?}"),
    }
}
