use vstd::prelude::*;
use crate::ast::{
    field_types_view, graph_type_elements_view, identifiers_view, lemma_field_types_view,
    lemma_graph_type_elements_view, lemma_property_types_view, lemma_value_types_view, property_types_view,
    value_types_view, EdgeTypeDefinition, FieldType, GraphTypeBody, GraphTypeElement, Identifier,
    NodeTypeDefinition, PropertyTypeDefinition, ValueType,
};

verus! {

/// A copy of each identifier of `v`.
pub fn clone_identifiers(v: &Vec<Identifier>) -> (r: Vec<Identifier>)
    ensures
        identifiers_view(r@) == identifiers_view(v@),
{
    let mut out: Vec<Identifier> = Vec::new();
    let mut i: usize = 0;
    while i < v.len()
        invariant
            i <= v.len(),
            out@.len() == i,
            forall|k: int| 0 <= k < i ==> (#[trigger] out@[k])@ == v@[k]@,
        decreases v.len() - i,
    {
        out.push(v[i].clone());
        i += 1;
    }
    assert(identifiers_view(out@) =~= identifiers_view(v@));
    out
}

/// A copy of an optional identifier.
fn clone_optional_identifier(i: &Option<Identifier>) -> (r: Option<Identifier>)
    ensures
        match (r, *i) {
            (Some(a), Some(b)) => a@ == b@,
            (None, None) => true,
            _ => false,
        },
{
    match i {
        Some(x) => Some(x.clone()),
        None => None,
    }
}

/// A copy of a value type.
pub fn clone_value_type(t: &ValueType) -> (r: ValueType)
    ensures
        r@ == t@,
    decreases t,
{
    match t {
        ValueType::Named { name, parameters } => ValueType::Named { name: name.clone(), parameters: parameters.clone() },
        ValueType::CharacterString { kind, max_length } => ValueType::CharacterString {
            kind: *kind,
            max_length: *max_length,
        },
        ValueType::Boolean { kind } => ValueType::Boolean { kind: *kind },
        ValueType::Temporal { kind } => ValueType::Temporal { kind: *kind },
        ValueType::ByteString { kind, min_length, max_length } => ValueType::ByteString {
            kind: *kind,
            min_length: *min_length,
            max_length: *max_length,
        },
        ValueType::ExactNumeric { kind, signed, precision, scale } => ValueType::ExactNumeric {
            kind: *kind,
            signed: *signed,
            precision: *precision,
            scale: *scale,
        },
        ValueType::ApproximateNumeric { kind, precision, scale } => ValueType::ApproximateNumeric {
            kind: *kind,
            precision: *precision,
            scale: *scale,
        },
        ValueType::List(e) => ValueType::List(Box::new(clone_value_type(e))),
        ValueType::ListWithLength { element, max_length } => ValueType::ListWithLength {
            element: Box::new(clone_value_type(element)),
            max_length: *max_length,
        },
        ValueType::Array(e) => ValueType::Array(Box::new(clone_value_type(e))),
        ValueType::ArrayWithLength { element, max_length } => ValueType::ArrayWithLength {
            element: Box::new(clone_value_type(element)),
            max_length: *max_length,
        },
        ValueType::Path => ValueType::Path,
        ValueType::AnyRecord => ValueType::AnyRecord,
        ValueType::Record(fields) => ValueType::Record(clone_field_types(fields)),
        ValueType::AnyDynamic => ValueType::AnyDynamic,
        ValueType::PropertyValue => ValueType::PropertyValue,
        ValueType::DynamicUnion(components) => ValueType::DynamicUnion(clone_value_types(components)),
        ValueType::GraphReference { property_graph, body } => ValueType::GraphReference {
            property_graph: *property_graph,
            body: match body {
                Some(b) => Some(clone_graph_type_body(b)),
                None => None,
            },
        },
        ValueType::NodeReference { definition } => ValueType::NodeReference {
            definition: match definition {
                Some(d) => Some(clone_node_type(d)),
                None => None,
            },
        },
        ValueType::EdgeReference { definition } => ValueType::EdgeReference {
            definition: match definition {
                Some(d) => Some(clone_edge_type(d)),
                None => None,
            },
        },
        ValueType::BindingTable { binding, fields } => ValueType::BindingTable {
            binding: *binding,
            fields: clone_field_types(fields),
        },
        ValueType::NotNull(e) => ValueType::NotNull(Box::new(clone_value_type(e))),
    }
}

/// A copy of each value type of `v`.
pub fn clone_value_types(v: &Vec<ValueType>) -> (r: Vec<ValueType>)
    ensures
        value_types_view(r@) == value_types_view(v@),
    decreases v,
{
    let mut out: Vec<ValueType> = Vec::new();
    let mut i: usize = 0;
    while i < v.len()
        invariant
            i <= v.len(),
            out@.len() == i,
            forall|k: int| 0 <= k < i ==> (#[trigger] out@[k])@ == v@[k]@,
        decreases v.len() - i,
    {
        out.push(clone_value_type(&v[i]));
        i += 1;
    }
    proof {
        lemma_value_types_view(out@);
        lemma_value_types_view(v@);
        assert(value_types_view(out@) =~= value_types_view(v@));
    }
    out
}

/// A copy of each field type of `v`.
pub fn clone_field_types(v: &Vec<FieldType>) -> (r: Vec<FieldType>)
    ensures
        field_types_view(r@) == field_types_view(v@),
    decreases v,
{
    let mut out: Vec<FieldType> = Vec::new();
    let mut i: usize = 0;
    while i < v.len()
        invariant
            i <= v.len(),
            out@.len() == i,
            forall|k: int| 0 <= k < i ==> (#[trigger] out@[k])@ == v@[k]@,
        decreases v.len() - i,
    {
        let f = &v[i];
        out.push(FieldType { name: f.name.clone(), value_type: clone_value_type(&f.value_type) });
        i += 1;
    }
    proof {
        lemma_field_types_view(out@);
        lemma_field_types_view(v@);
        assert(field_types_view(out@) =~= field_types_view(v@));
    }
    out
}

/// A copy of each property type of `v`.
pub fn clone_property_types(v: &Vec<PropertyTypeDefinition>) -> (r: Vec<PropertyTypeDefinition>)
    ensures
        property_types_view(r@) == property_types_view(v@),
    decreases v,
{
    let mut out: Vec<PropertyTypeDefinition> = Vec::new();
    let mut i: usize = 0;
    while i < v.len()
        invariant
            i <= v.len(),
            out@.len() == i,
            forall|k: int| 0 <= k < i ==> (#[trigger] out@[k])@ == v@[k]@,
        decreases v.len() - i,
    {
        let f = &v[i];
        out.push(PropertyTypeDefinition { name: f.name.clone(), value_type: clone_value_type(&f.value_type) });
        i += 1;
    }
    proof {
        lemma_property_types_view(out@);
        lemma_property_types_view(v@);
        assert(property_types_view(out@) =~= property_types_view(v@));
    }
    out
}

/// A copy of a node type definition.
pub fn clone_node_type(n: &NodeTypeDefinition) -> (r: NodeTypeDefinition)
    ensures
        r@ == n@,
    decreases n,
{
    NodeTypeDefinition {
        name: n.name.clone(),
        labels: clone_identifiers(&n.labels),
        properties: clone_property_types(&n.properties),
    }
}

/// A copy of an edge type definition.
pub fn clone_edge_type(d: &EdgeTypeDefinition) -> (r: EdgeTypeDefinition)
    ensures
        r@ == d@,
    decreases d,
{
    EdgeTypeDefinition {
        name: d.name.clone(),
        direction: d.direction,
        labels: clone_identifiers(&d.labels),
        source: clone_optional_identifier(&d.source),
        destination: clone_optional_identifier(&d.destination),
        properties: clone_property_types(&d.properties),
    }
}

/// A copy of a graph type element.
pub fn clone_graph_type_element(e: &GraphTypeElement) -> (r: GraphTypeElement)
    ensures
        r@ == e@,
    decreases e,
{
    match e {
        GraphTypeElement::Node(n) => GraphTypeElement::Node(clone_node_type(n)),
        GraphTypeElement::Edge(d) => GraphTypeElement::Edge(clone_edge_type(d)),
    }
}

/// A copy of a graph type body.
pub fn clone_graph_type_body(b: &GraphTypeBody) -> (r: GraphTypeBody)
    ensures
        r@ == b@,
    decreases b,
{
    let v = &b.elements;
    let mut out: Vec<GraphTypeElement> = Vec::new();
    let mut i: usize = 0;
    while i < v.len()
        invariant
            v == &b.elements,
            i <= v.len(),
            out@.len() == i,
            forall|k: int| 0 <= k < i ==> (#[trigger] out@[k])@ == v@[k]@,
        decreases v.len() - i,
    {
        out.push(clone_graph_type_element(&v[i]));
        i += 1;
    }
    proof {
        lemma_graph_type_elements_view(out@);
        lemma_graph_type_elements_view(v@);
        assert(graph_type_elements_view(out@) =~= graph_type_elements_view(v@));
    }
    GraphTypeBody { elements: out }
}

impl Clone for ValueType {
    fn clone(&self) -> (r: Self)
        ensures
            r@ == self@,
    {
        clone_value_type(self)
    }
}

impl Clone for FieldType {
    fn clone(&self) -> (r: Self)
        ensures
            r@ == self@,
    {
        FieldType { name: self.name.clone(), value_type: clone_value_type(&self.value_type) }
    }
}

impl Clone for PropertyTypeDefinition {
    fn clone(&self) -> (r: Self)
        ensures
            r@ == self@,
    {
        PropertyTypeDefinition { name: self.name.clone(), value_type: clone_value_type(&self.value_type) }
    }
}

impl Clone for NodeTypeDefinition {
    fn clone(&self) -> (r: Self)
        ensures
            r@ == self@,
    {
        clone_node_type(self)
    }
}

impl Clone for EdgeTypeDefinition {
    fn clone(&self) -> (r: Self)
        ensures
            r@ == self@,
    {
        clone_edge_type(self)
    }
}

impl Clone for GraphTypeElement {
    fn clone(&self) -> (r: Self)
        ensures
            r@ == self@,
    {
        clone_graph_type_element(self)
    }
}

impl Clone for GraphTypeBody {
    fn clone(&self) -> (r: Self)
        ensures
            r@ == self@,
    {
        clone_graph_type_body(self)
    }
}

} // verus!
