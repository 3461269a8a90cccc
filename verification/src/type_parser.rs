use vstd::prelude::*;
use crate::ast::{
    FieldTypeView, lemma_empty_views, lemma_value_types_view_push, lemma_property_types_view_push,
    lemma_field_types_view_push, lemma_graph_type_elements_view_push, GraphTypeBody,
    NodeTypeDefinition, field_types_view, lemma_field_types_view, lemma_property_types_view, property_types_view,
    FieldType, PropertyTypeDefinition, graph_type_elements_view, lemma_graph_type_elements_view, lemma_value_types_view,
    value_types_view, value_type_view, EdgeTypeDefinition, GraphTypeElement, GraphTypeElementView,
    identifiers_view, ApproximateNumericTypeKind, BooleanTypeKind, ByteStringTypeKind,
    CharacterStringTypeKind, Direction, ExactNumericTypeKind, Identifier, TemporalTypeKind,
    ValueType,
};
use crate::error::Error;
use crate::grammar::{identifier_step, message_at, typed_marker_step};
use crate::kinds::{is_edge_synonym_kind, is_identifier_like, is_type_name_after_type_marker};
use crate::parser::{rplain, rview, same_input, Parser};
use crate::text::{push_str, string_from_chars, chars_eq_ignore_ascii_case, chars_of, eq_ignore_ascii_case, string_of_range, upper_code, upper_code_of};
use crate::chars::is_ascii_digit;
use crate::grammar::all_ascii_digits;
use crate::parser::parse_u64_text;
use crate::token::TokenKind;
use crate::type_grammar::{
    GraphTypeElementContext, ampersand_labels_rest, any_type_step, approximate_numeric_kind_at, approximate_numeric_type_step, approximate_precision_message, at_edge_kind_before_synonym, at_edge_synonym, at_node_synonym, body_edge_phrase_err, boolean_kind_at, bracketed_arc_step, byte_string_kind_at, byte_string_type_step, bytes_lengths_step, character_string_kind_at, character_string_type_step, closed_edge_reference_err, colon_labels_rest, component_type_list_step, components_rest, defines_node_type, duplicate_message, edge_kind_before_synonym_step, edge_reference_value_type_step, edge_type_definition_step, edge_type_tail_step, element_kind_and_name, element_name_err, element_reference, element_reference_value_type_step, endpoint_continuations, endpoint_err, endpoint_pair_step, endpoint_shape_err, endpoint_types_err, exact_numeric_kind_at, exact_numeric_type_step, extra_type_words, field_type_spec_step, from_to_step, full_edge_type_pattern_step, graph_type_element_step, graph_type_elements_rest, group_list_at, group_list_message, has_field_named, integer_numeric_type_step, integer_type_start_at, integer_type_words_step, is_known_not_null, is_standard_float_size, is_standard_integer_size, lemma_endpoint_types_err_stays, lemma_extra_type_words, list_max_length_step, list_suffixes_step, list_type_name_at, list_type_name_step, named_arc_filler_step, named_value_type_step, nested_graph_type_body_step, node_type_definition_step, not_null_step, numeric_suffix_of, parenthesized_node_reference_step, precision_scale_step, prefixed_list_type_step, property_type_set_step, push_if_absent, reference_value_type_step, signed_integer_type_step, simple_value_type_step, single_precision_step, skip_tokens, spaced_words, starts_full_edge_type_arc, starts_node_type_filler, temporal_kind_at, type_label_list_step, type_parameters_rest, type_phrase_name_step, typed_names_rest, union_nullability_err, union_nullability_matches, value_type_base_step, value_type_component_step, value_type_name_step, value_type_step, value_type_tail_step, wrap_list,
};

verus! {

/// Appends `candidate`, if there is one, to `variables` unless an identifier equal to it,
/// ignoring case, is there.
pub fn push_identifier_if_absent(variables: &mut Vec<Identifier>, candidate: Option<&Identifier>)
    ensures
        identifiers_view(final(variables)@) == match candidate {
            Some(c) => push_if_absent(identifiers_view(old(variables)@), c@),
            None => identifiers_view(old(variables)@),
        },
        final(variables)@.len() >= old(variables)@.len(),
{
    let c = match candidate {
        Some(c) => c,
        None => return,
    };
    let ghost before = identifiers_view(variables@);
    let mut i: usize = 0;
    while i < variables.len()
        invariant
            i <= variables.len(),
            candidate == Some(c),
            variables@ == old(variables)@,
            before == identifiers_view(variables@),
            forall|j: int| 0 <= j < i ==> !crate::text::eq_ignore_ascii_case(#[trigger] before[j], c@),
        decreases variables.len() - i,
    {
        let text = chars_of(variables[i].value.as_str());
        if chars_eq_ignore_ascii_case(&text, c.value.as_str()) {
            proof {
                assert(before.len() == variables@.len());
                assert(crate::text::eq_ignore_ascii_case(before[i as int], c@));
            }
            return;
        }
        i += 1;
    }
    variables.push(c.clone());
    proof {
        assert(identifiers_view(variables@) =~= before.push(c@));
    }
}

impl Parser {
    /// Reads `NODE` or `VERTEX` if it is next.
    pub(crate) fn eat_node_synonym(&mut self) -> (r: bool)
        requires
            old(self).wf(),
        ensures
            final(self).wf(),
            same_input(final(self)@, old(self)@),
            old(self)@.pos <= final(self)@.pos,
            r == at_node_synonym(old(self)@.input, old(self)@.pos),
            final(self)@.pos == if r {
                crate::parser::next_pos(old(self)@.input, old(self)@.pos)
            } else {
                old(self)@.pos
            },
    {
        self.eat(TokenKind::Node).is_some() || self.eat(TokenKind::Vertex).is_some()
    }

    /// Reads `EDGE` or `RELATIONSHIP` if it is next.
    pub(crate) fn eat_edge_synonym(&mut self) -> (r: bool)
        requires
            old(self).wf(),
        ensures
            final(self).wf(),
            same_input(final(self)@, old(self)@),
            old(self)@.pos <= final(self)@.pos,
            r == at_edge_synonym(old(self)@.input, old(self)@.pos),
            final(self)@.pos == if r {
                crate::parser::next_pos(old(self)@.input, old(self)@.pos)
            } else {
                old(self)@.pos
            },
    {
        self.eat(TokenKind::Edge).is_some() || self.eat(TokenKind::Relationship).is_some()
    }

    /// Whether `NODE` or `VERTEX` is next.
    pub(crate) fn at_node_synonym(&self) -> (r: bool)
        requires
            self.wf(),
        ensures
            r == at_node_synonym(self@.input, self@.pos),
    {
        match self.peek_kind() {
            TokenKind::Node | TokenKind::Vertex => true,
            _ => false,
        }
    }

    /// Whether `EDGE` or `RELATIONSHIP` is next.
    pub(crate) fn at_edge_synonym(&self) -> (r: bool)
        requires
            self.wf(),
        ensures
            r == at_edge_synonym(self@.input, self@.pos),
    {
        match self.peek_kind() {
            TokenKind::Edge | TokenKind::Relationship => true,
            _ => false,
        }
    }

    /// Reads `DIRECTED` or `UNDIRECTED` if an edge synonym follows it.
    pub(crate) fn parse_optional_edge_kind_before_synonym(&mut self) -> (r: Option<Direction>)
        requires
            old(self).wf(),
        ensures
            final(self).wf(),
            same_input(final(self)@, old(self)@),
            old(self)@.pos <= final(self)@.pos,
            (r, final(self)@.pos) == edge_kind_before_synonym_step(old(self)@.input, old(self)@.pos),
    {
        match self.peek_n_kind(1) {
            Some(kind) => {
                if !is_edge_synonym_kind(kind) {
                    return None;
                }
            },
            None => return None,
        }
        if self.eat(TokenKind::Directed).is_some() {
            Some(Direction::Right)
        } else if self.eat(TokenKind::Undirected).is_some() {
            Some(Direction::Undirected)
        } else {
            None
        }
    }

    /// Whether `DIRECTED` or `UNDIRECTED` and then an edge synonym are next.
    pub(crate) fn at_edge_kind_before_synonym(&self) -> (r: bool)
        requires
            self.wf(),
        ensures
            r == at_edge_kind_before_synonym(self@.input, self@.pos),
    {
        let kind = self.peek_kind();
        (kind == TokenKind::Directed || kind == TokenKind::Undirected) && match self.peek_n_kind(1) {
            Some(k) => is_edge_synonym_kind(k),
            None => false,
        }
    }

    /// Whether label or property declarations are next.
    pub(crate) fn starts_node_type_filler(&self) -> (r: bool)
        requires
            self.wf(),
        ensures
            r == starts_node_type_filler(self@.input, self@.pos),
    {
        match self.peek_kind() {
            TokenKind::Label | TokenKind::Labels => match self.peek_n_kind(1) {
                Some(k) => is_identifier_like(k),
                None => false,
            },
            TokenKind::Colon | TokenKind::Is | TokenKind::LBrace => true,
            _ => false,
        }
    }

    /// Reads a type name after an optional marker `TYPE`.
    pub(crate) fn parse_type_phrase_name(&mut self) -> (r: Result<Identifier, Error>)
        requires
            old(self).wf(),
        ensures
            final(self).wf(),
            same_input(final(self)@, old(self)@),
            old(self)@.pos <= final(self)@.pos,
            (rview(r), final(self)@.pos) == type_phrase_name_step(old(self)@.input, old(self)@.pos),
    {
        if self.at(TokenKind::Type) && match self.peek_n_kind(1) {
            Some(k) => is_type_name_after_type_marker(k),
            None => false,
        } {
            self.bump();
        }
        self.parse_identifier()
    }

    /// Whether an edge arc is next: `-`, `->`, `<-` or `~`.
    pub(crate) fn starts_full_edge_type_arc(&self) -> (r: bool)
        requires
            self.wf(),
        ensures
            r == starts_full_edge_type_arc(self@.input, self@.pos),
    {
        match self.peek_kind() {
            TokenKind::Minus | TokenKind::ArrowRight | TokenKind::ArrowLeft | TokenKind::Tilde => true,
            _ => false,
        }
    }

    /// Reads labels joined by `&` onto `labels`.
    pub(crate) fn parse_ampersand_labels(&mut self, labels: &mut Vec<Identifier>) -> (r: Result<(), Error>)
        requires
            old(self).wf(),
        ensures
            final(self).wf(),
            same_input(final(self)@, old(self)@),
            old(self)@.pos <= final(self)@.pos,
            final(labels)@.len() >= old(labels)@.len(),
            (match r {
                Ok(_) => Ok(identifiers_view(final(labels)@)),
                Err(e) => Err(e@),
            }, final(self)@.pos) == ampersand_labels_rest(
                old(self)@.input,
                identifiers_view(old(labels)@),
                old(self)@.pos,
            ),
    {
        let ghost v = old(self)@.input;
        let ghost target = ampersand_labels_rest(v, identifiers_view(labels@), self@.pos);
        loop
            invariant
                self.wf(),
                same_input(self@, old(self)@),
                v == old(self)@.input,
                old(self)@.pos <= self@.pos,
                target == ampersand_labels_rest(v, identifiers_view(labels@), self@.pos),
                target == ampersand_labels_rest(v, identifiers_view(old(labels)@), old(self)@.pos),
                labels@.len() >= old(labels)@.len(),
            decreases self@.input.tokens.len() - self@.pos,
        {
            proof {
                self.lemma_valid();
            }
            if self.eat(TokenKind::Ampersand).is_none() {
                return Ok(());
            }
            let label = match self.parse_identifier() {
                Ok(l) => l,
                Err(e) => return Err(e),
            };
            proof {
                self.lemma_valid();
            }
            push_identifier_if_absent(labels, Some(&label));
        }
    }

    /// Reads an optional label declaration: `LABEL` and one label, `LABELS` and labels
    /// joined by `&`, or label sets each introduced by `:` or `IS`; a label that repeats
    /// one before it, ignoring case, is dropped.
    pub fn parse_optional_type_label_list(&mut self) -> (r: Result<Vec<Identifier>, Error>)
        requires
            old(self).wf(),
        ensures
            final(self).wf(),
            same_input(final(self)@, old(self)@),
            old(self)@.pos <= final(self)@.pos,
            (match r {
                Ok(ls) => Ok(identifiers_view(ls@)),
                Err(e) => Err(e@),
            }, final(self)@.pos) == type_label_list_step(old(self)@.input, old(self)@.pos),
    {
        let ghost v = old(self)@.input;
        let mut labels: Vec<Identifier> = Vec::new();
        if self.eat(TokenKind::Label).is_some() {
            let label = match self.parse_identifier() {
                Ok(l) => l,
                Err(e) => return Err(e),
            };
            push_identifier_if_absent(&mut labels, Some(&label));
            proof {
                assert(identifiers_view(labels@) =~= seq![label@]);
            }
            return Ok(labels);
        }
        if self.eat(TokenKind::Labels).is_some() {
            let label = match self.parse_identifier() {
                Ok(l) => l,
                Err(e) => return Err(e),
            };
            push_identifier_if_absent(&mut labels, Some(&label));
            proof {
                assert(identifiers_view(labels@) =~= seq![label@]);
            }
            return match self.parse_ampersand_labels(&mut labels) {
                Ok(_) => Ok(labels),
                Err(e) => Err(e),
            };
        }
        proof {
            assert(identifiers_view(labels@) =~= Seq::<Seq<char>>::empty());
        }
        let ghost target = colon_labels_rest(v, identifiers_view(labels@), self@.pos);
        loop
            invariant
                self.wf(),
                same_input(self@, old(self)@),
                v == old(self)@.input,
                old(self)@.pos <= self@.pos,
                target == type_label_list_step(v, old(self)@.pos),
                target == colon_labels_rest(v, identifiers_view(labels@), self@.pos),
            decreases self@.input.tokens.len() - self@.pos,
        {
            proof {
                self.lemma_valid();
            }
            if !(self.eat(TokenKind::Colon).is_some() || self.eat(TokenKind::Is).is_some()) {
                return Ok(labels);
            }
            let label = match self.parse_identifier() {
                Ok(l) => l,
                Err(e) => return Err(e),
            };
            push_identifier_if_absent(&mut labels, Some(&label));
            if let Err(e) = self.parse_ampersand_labels(&mut labels) {
                return Err(e);
            }
            proof {
                self.lemma_valid();
            }
        }
    }
}

/// How a type word made of the upper-case `prefix` and a size reads, ignoring case: `None`
/// if `text` does not start with the prefix, `Some(None)` if it is the prefix alone, and
/// `Some(Some(n))` if the prefix is followed by the decimal digits of `n`.
pub fn numeric_suffix(text: &str, prefix: &str) -> (r: Option<Option<u64>>)
    ensures
        r == numeric_suffix_of(text@, prefix@),
{
    let t = chars_of(text);
    let pre = chars_of(prefix);
    if pre.len() > t.len() {
        return None;
    }
    let mut i: usize = 0;
    while i < pre.len()
        invariant
            pre@ == prefix@,
            t@ == text@,
            pre.len() <= t.len(),
            i <= pre.len(),
            forall|j: int| 0 <= j < i ==> #[trigger] upper_code(t@[j]) == upper_code(pre@[j]),
        decreases pre.len() - i,
    {
        if upper_code_of(t[i]) != upper_code_of(pre[i]) {
            proof {
                assert(t@.take(pre.len() as int)[i as int] == t@[i as int]);
                assert(!eq_ignore_ascii_case(t@.take(pre.len() as int), pre@));
            }
            return None;
        }
        i += 1;
    }
    proof {
        assert(eq_ignore_ascii_case(t@.take(pre.len() as int), pre@));
    }
    let ghost rest = t@.skip(pre.len() as int);
    if pre.len() == t.len() {
        return Some(None);
    }
    let mut k: usize = pre.len();
    while k < t.len()
        invariant
            t@ == text@,
            pre@ == prefix@,
            pre.len() < t.len(),
            pre.len() <= k <= t.len(),
            rest == t@.skip(pre.len() as int),
            forall|j: int| 0 <= j < k - pre.len() ==> #[trigger] is_ascii_digit(rest[j]),
        decreases t.len() - k,
    {
        let c = t[k];
        if !('0' <= c && c <= '9') {
            proof {
                let j = k - pre.len();
                assert(0 <= j < rest.len());
                assert(rest[j] == c);
                assert(!is_ascii_digit(rest[j]));
                assert(!all_ascii_digits(rest));
            }
            return None;
        }
        k += 1;
    }
    let digits = string_of_range(&t, pre.len(), t.len());
    proof {
        assert(digits@ =~= rest);
    }
    match parse_u64_text(&digits) {
        Some(n) => Some(Some(n)),
        None => None,
    }
}

/// A list type of `element`, named by `kind` (`LIST` or `ARRAY`), with an optional max
/// length; a group list is refused at `offset`.
pub fn wrap_list_value_type(
    element: ValueType,
    kind: TokenKind,
    group: bool,
    max_length: Option<u64>,
    offset: usize,
) -> (r: Result<ValueType, Error>)
    requires
        kind == TokenKind::List || kind == TokenKind::Array,
    ensures
        rview(r) == wrap_list(element@, kind, group, max_length, offset as int),
{
    if group {
        return Err(
            Error::Message {
                offset,
                message: "GROUP list value type names are not user-visible standard GQL syntax".to_owned(),
            },
        );
    }
    let value_type = match (kind, max_length) {
        (TokenKind::List, Some(max_length)) => ValueType::ListWithLength {
            element: Box::new(element),
            max_length,
        },
        (TokenKind::List, None) => ValueType::List(Box::new(element)),
        (_, Some(max_length)) => ValueType::ArrayWithLength { element: Box::new(element), max_length },
        (_, None) => ValueType::Array(Box::new(element)),
    };
    Ok(value_type)
}

impl Parser {
    /// The character string type named by the current token, if it names one.
    pub(crate) fn peek_character_string_type_kind(&self) -> (r: Option<CharacterStringTypeKind>)
        requires
            self.wf(),
        ensures
            r == character_string_kind_at(self@.input, self@.pos),
    {
        let text = chars_of(self.peek().text.as_str());
        if chars_eq_ignore_ascii_case(&text, "STRING") {
            Some(CharacterStringTypeKind::String)
        } else if chars_eq_ignore_ascii_case(&text, "VARCHAR") {
            Some(CharacterStringTypeKind::Varchar)
        } else {
            None
        }
    }

    /// The boolean type named by the current token, if it names one.
    pub(crate) fn peek_boolean_type_kind(&self) -> (r: Option<BooleanTypeKind>)
        requires
            self.wf(),
        ensures
            r == boolean_kind_at(self@.input, self@.pos),
    {
        let text = chars_of(self.peek().text.as_str());
        if chars_eq_ignore_ascii_case(&text, "BOOL") {
            Some(BooleanTypeKind::Bool)
        } else if chars_eq_ignore_ascii_case(&text, "BOOLEAN") {
            Some(BooleanTypeKind::Boolean)
        } else {
            None
        }
    }

    /// The byte string type named by the current token, if it names one.
    pub(crate) fn peek_byte_string_type_kind(&self) -> (r: Option<ByteStringTypeKind>)
        requires
            self.wf(),
        ensures
            r == byte_string_kind_at(self@.input, self@.pos),
    {
        let text = chars_of(self.peek().text.as_str());
        if chars_eq_ignore_ascii_case(&text, "BYTES") {
            Some(ByteStringTypeKind::Bytes)
        } else if chars_eq_ignore_ascii_case(&text, "BINARY") {
            Some(ByteStringTypeKind::Binary)
        } else if chars_eq_ignore_ascii_case(&text, "VARBINARY") {
            Some(ByteStringTypeKind::Varbinary)
        } else {
            None
        }
    }

    /// The exact numeric type named by the current token, if it names one.
    pub(crate) fn peek_exact_numeric_type_kind(&self) -> (r: Option<ExactNumericTypeKind>)
        requires
            self.wf(),
        ensures
            r == exact_numeric_kind_at(self@.input, self@.pos),
    {
        let text = chars_of(self.peek().text.as_str());
        if chars_eq_ignore_ascii_case(&text, "DEC") || chars_eq_ignore_ascii_case(&text, "DECIMAL") {
            Some(ExactNumericTypeKind::Decimal)
        } else {
            None
        }
    }

    /// The approximate numeric type named by the current token, if it names one.
    pub(crate) fn peek_approximate_numeric_type_kind(&self) -> (r: Option<ApproximateNumericTypeKind>)
        requires
            self.wf(),
        ensures
            r == approximate_numeric_kind_at(self@.input, self@.pos),
    {
        if numeric_suffix(self.peek().text.as_str(), "FLOAT").is_some() {
            return Some(ApproximateNumericTypeKind::Float);
        }
        let text = chars_of(self.peek().text.as_str());
        if chars_eq_ignore_ascii_case(&text, "REAL") {
            Some(ApproximateNumericTypeKind::Real)
        } else if chars_eq_ignore_ascii_case(&text, "DOUBLE") {
            Some(ApproximateNumericTypeKind::Double)
        } else {
            None
        }
    }

    /// The temporal type whose words are next, with the number of its words.
    pub(crate) fn peek_temporal_type_kind(&self) -> (r: Option<(TemporalTypeKind, usize)>)
        requires
            self.wf(),
        ensures
            match r {
                Some((k, n)) => temporal_kind_at(self@.input, self@.pos) == Some((k, n as int)),
                None => temporal_kind_at(self@.input, self@.pos) is None,
            },
    {
        let w1: [&str; 2] = ["ZONED", "DATETIME"];
        proof {
            assert(w1@ =~= seq!["ZONED", "DATETIME"]);
        }
        if self.peek_type_words(&w1) {
            return Some((TemporalTypeKind::ZonedDateTime, 2));
        }
        let w2: [&str; 4] = ["TIMESTAMP", "WITH", "TIME", "ZONE"];
        proof {
            assert(w2@ =~= seq!["TIMESTAMP", "WITH", "TIME", "ZONE"]);
        }
        if self.peek_type_words(&w2) {
            return Some((TemporalTypeKind::ZonedDateTime, 4));
        }
        let w3: [&str; 2] = ["LOCAL", "DATETIME"];
        proof {
            assert(w3@ =~= seq!["LOCAL", "DATETIME"]);
        }
        if self.peek_type_words(&w3) {
            return Some((TemporalTypeKind::LocalDateTime, 2));
        }
        let w4: [&str; 4] = ["TIMESTAMP", "WITHOUT", "TIME", "ZONE"];
        proof {
            assert(w4@ =~= seq!["TIMESTAMP", "WITHOUT", "TIME", "ZONE"]);
        }
        if self.peek_type_words(&w4) {
            return Some((TemporalTypeKind::LocalDateTime, 4));
        }
        let w5: [&str; 1] = ["TIMESTAMP"];
        proof {
            assert(w5@ =~= seq!["TIMESTAMP"]);
        }
        if self.peek_type_words(&w5) {
            return Some((TemporalTypeKind::LocalDateTime, 1));
        }
        if self.at(TokenKind::Date) {
            return Some((TemporalTypeKind::Date, 1));
        }
        let w6: [&str; 2] = ["ZONED", "TIME"];
        proof {
            assert(w6@ =~= seq!["ZONED", "TIME"]);
        }
        if self.peek_type_words(&w6) {
            return Some((TemporalTypeKind::ZonedTime, 2));
        }
        let w7: [&str; 4] = ["TIME", "WITH", "TIME", "ZONE"];
        proof {
            assert(w7@ =~= seq!["TIME", "WITH", "TIME", "ZONE"]);
        }
        if self.peek_type_words(&w7) {
            return Some((TemporalTypeKind::ZonedTime, 4));
        }
        let w8: [&str; 2] = ["LOCAL", "TIME"];
        proof {
            assert(w8@ =~= seq!["LOCAL", "TIME"]);
        }
        if self.peek_type_words(&w8) {
            return Some((TemporalTypeKind::LocalTime, 2));
        }
        let w9: [&str; 4] = ["TIME", "WITHOUT", "TIME", "ZONE"];
        proof {
            assert(w9@ =~= seq!["TIME", "WITHOUT", "TIME", "ZONE"]);
        }
        if self.peek_type_words(&w9) {
            return Some((TemporalTypeKind::LocalTime, 4));
        }
        if self.at(TokenKind::Duration) {
            return Some((TemporalTypeKind::Duration, 1));
        }
        None
    }
}

impl Parser {
    /// Reads an optional max length in parentheses after a character string type.
    pub(crate) fn parse_character_string_type(&mut self, kind: CharacterStringTypeKind) -> (r: Result<ValueType, Error>)
        requires
            old(self).wf(),
        ensures
            final(self).wf(),
            same_input(final(self)@, old(self)@),
            old(self)@.pos <= final(self)@.pos,
            (rview(r), final(self)@.pos) == character_string_type_step(old(self)@.input, old(self)@.pos, kind),
    {
        let max_length = if self.eat(TokenKind::LParen).is_some() {
            let max_length = match self.parse_positive_u64_literal("character string max length") {
                Ok(n) => n,
                Err(e) => return Err(e),
            };
            if let Err(e) = self.expect(TokenKind::RParen) {
                return Err(e);
            }
            Some(max_length)
        } else {
            None
        };
        Ok(ValueType::CharacterString { kind, max_length })
    }

    /// Reads the optional lengths in parentheses after a byte string type.
    pub(crate) fn parse_byte_string_type(&mut self, kind: ByteStringTypeKind) -> (r: Result<ValueType, Error>)
        requires
            old(self).wf(),
        ensures
            final(self).wf(),
            same_input(final(self)@, old(self)@),
            old(self)@.pos <= final(self)@.pos,
            (rview(r), final(self)@.pos) == byte_string_type_step(old(self)@.input, old(self)@.pos, kind),
    {
        let ghost v = old(self)@.input;
        let (min_length, max_length) = if self.eat(TokenKind::LParen).is_some() {
            match kind {
                ByteStringTypeKind::Bytes => {
                    let ghost p1 = self@.pos;
                    let first = match self.parse_u64_literal() {
                        Ok(n) => n,
                        Err(e) => return Err(e),
                    };
                    let (min_length, max_length) = if self.eat(TokenKind::Comma).is_some() {
                        let max = match self.parse_positive_u64_literal("byte string max length") {
                            Ok(n) => n,
                            Err(e) => return Err(e),
                        };
                        (first, max)
                    } else {
                        if let Err(e) = self.ensure_positive_u64(first, "byte string max length") {
                            return Err(e);
                        }
                        (0, first)
                    };
                    assert(bytes_lengths_step(v, p1) == (
                        Ok::<(u64, u64), crate::error::ErrorView>((min_length, max_length)),
                        self@.pos,
                    ));
                    if let Err(e) = self.expect(TokenKind::RParen) {
                        return Err(e);
                    }
                    if min_length > max_length {
                        return Err(
                            Error::Message {
                                offset: self.peek().offset,
                                message: "byte string min length exceeds max length".to_owned(),
                            },
                        );
                    }
                    (Some(min_length), Some(max_length))
                },
                ByteStringTypeKind::Binary => {
                    let length = match self.parse_positive_u64_literal("byte string fixed length") {
                        Ok(n) => n,
                        Err(e) => return Err(e),
                    };
                    if let Err(e) = self.expect(TokenKind::RParen) {
                        return Err(e);
                    }
                    (Some(length), Some(length))
                },
                ByteStringTypeKind::Varbinary => {
                    let length = match self.parse_positive_u64_literal("byte string max length") {
                        Ok(n) => n,
                        Err(e) => return Err(e),
                    };
                    if let Err(e) = self.expect(TokenKind::RParen) {
                        return Err(e);
                    }
                    (Some(0), Some(length))
                },
            }
        } else {
            match kind {
                ByteStringTypeKind::Binary => (Some(1), Some(1)),
                _ => (Some(0), None),
            }
        };
        Ok(ValueType::ByteString { kind, min_length, max_length })
    }

    /// Reads an optional precision and scale in parentheses.
    pub(crate) fn parse_optional_precision_scale(&mut self) -> (r: Result<(Option<u64>, Option<u64>), Error>)
        requires
            old(self).wf(),
        ensures
            final(self).wf(),
            same_input(final(self)@, old(self)@),
            old(self)@.pos <= final(self)@.pos,
            (rplain(r), final(self)@.pos) == precision_scale_step(old(self)@.input, old(self)@.pos),
    {
        if self.eat(TokenKind::LParen).is_none() {
            return Ok((None, None));
        }
        let precision = match self.parse_positive_u64_literal("numeric precision") {
            Ok(n) => n,
            Err(e) => return Err(e),
        };
        let scale = if self.eat(TokenKind::Comma).is_some() {
            match self.parse_u64_literal() {
                Ok(n) => Some(n),
                Err(e) => return Err(e),
            }
        } else {
            None
        };
        if let Err(e) = self.expect(TokenKind::RParen) {
            return Err(e);
        }
        Ok((Some(precision), scale))
    }

    /// Reads the precision and scale after `DEC` or `DECIMAL`.
    pub(crate) fn parse_exact_numeric_type(&mut self, kind: ExactNumericTypeKind) -> (r: Result<ValueType, Error>)
        requires
            old(self).wf(),
        ensures
            final(self).wf(),
            same_input(final(self)@, old(self)@),
            old(self)@.pos <= final(self)@.pos,
            (rview(r), final(self)@.pos) == exact_numeric_type_step(old(self)@.input, old(self)@.pos, kind),
    {
        let (precision, scale) = match self.parse_optional_precision_scale() {
            Ok(t) => t,
            Err(e) => return Err(e),
        };
        if let (Some(precision), Some(scale)) = (precision, scale) {
            if scale > precision {
                return Err(
                    Error::Message {
                        offset: self.peek().offset,
                        message: "numeric scale exceeds precision".to_owned(),
                    },
                );
            }
        }
        Ok(ValueType::ExactNumeric { kind, signed: None, precision, scale })
    }

    /// Reads an optional precision in parentheses.
    pub(crate) fn parse_optional_single_precision(&mut self) -> (r: Result<Option<u64>, Error>)
        requires
            old(self).wf(),
        ensures
            final(self).wf(),
            same_input(final(self)@, old(self)@),
            old(self)@.pos <= final(self)@.pos,
            (rplain(r), final(self)@.pos) == single_precision_step(old(self)@.input, old(self)@.pos),
    {
        if self.eat(TokenKind::LParen).is_none() {
            return Ok(None);
        }
        let precision = match self.parse_positive_u64_literal("numeric precision") {
            Ok(n) => n,
            Err(e) => return Err(e),
        };
        if let Err(e) = self.expect(TokenKind::RParen) {
            return Err(e);
        }
        Ok(Some(precision))
    }

    /// Refuses an integer type size other than 8, 16, 32, 64, 128 or 256.
    pub(crate) fn ensure_standard_integer_suffix(&self, precision: u64) -> (r: Result<(), Error>)
        requires
            self.wf(),
        ensures
            is_standard_integer_size(precision) ==> r is Ok,
            !is_standard_integer_size(precision) ==> (r matches Err(e) && e@ == message_at(
                self@.input,
                self@.pos,
                "integer type suffix must be one of 8, 16, 32, 64, 128, or 256"@,
            )),
    {
        if !(precision == 8 || precision == 16 || precision == 32 || precision == 64 || precision
            == 128 || precision == 256) {
            return Err(
                Error::Message {
                    offset: self.peek().offset,
                    message: "integer type suffix must be one of 8, 16, 32, 64, 128, or 256".to_owned(),
                },
            );
        }
        Ok(())
    }

    /// Refuses a `FLOAT` size other than 16, 32, 64, 128 or 256.
    pub(crate) fn ensure_standard_float_suffix(&self, precision: u64) -> (r: Result<(), Error>)
        requires
            self.wf(),
        ensures
            is_standard_float_size(precision) ==> r is Ok,
            !is_standard_float_size(precision) ==> (r matches Err(e) && e@ == message_at(
                self@.input,
                self@.pos,
                "FLOAT type suffix must be one of 16, 32, 64, 128, or 256"@,
            )),
    {
        if !(precision == 16 || precision == 32 || precision == 64 || precision == 128 || precision
            == 256) {
            return Err(
                Error::Message {
                    offset: self.peek().offset,
                    message: "FLOAT type suffix must be one of 16, 32, 64, 128, or 256".to_owned(),
                },
            );
        }
        Ok(())
    }

    /// Refuses an approximate numeric precision below 2.
    pub(crate) fn ensure_approximate_numeric_precision(&self, precision: u64) -> (r: Result<(), Error>)
        requires
            self.wf(),
        ensures
            precision >= 2 ==> r is Ok,
            precision < 2 ==> (r matches Err(e) && e@ == message_at(
                self@.input,
                self@.pos,
                approximate_precision_message(),
            )),
    {
        if precision < 2 {
            return Err(
                Error::Message {
                    offset: self.peek().offset,
                    message: "approximate numeric precision must be greater than or equal to 2".to_owned(),
                },
            );
        }
        Ok(())
    }

    /// Whether an integer type starts at the current token.
    pub(crate) fn peek_integer_numeric_type_start(&self) -> (r: bool)
        requires
            self.wf(),
        ensures
            r == integer_type_start_at(self@.input, self@.pos),
    {
        let first = self.peek().text.as_str();
        let t = chars_of(first);
        let w: [&str; 1] = ["INTEGER"];
        proof {
            assert(w@ =~= seq!["INTEGER"]);
        }
        numeric_suffix(first, "INTEGER").is_some() || numeric_suffix(first, "INT").is_some()
            || numeric_suffix(first, "UINT").is_some() || chars_eq_ignore_ascii_case(&t, "BIGINT")
            || chars_eq_ignore_ascii_case(&t, "SMALLINT") || chars_eq_ignore_ascii_case(&t, "UBIGINT")
            || chars_eq_ignore_ascii_case(&t, "USMALLINT") || (chars_eq_ignore_ascii_case(&t, "SMALL")
            && self.peek_type_words(&w)) || (chars_eq_ignore_ascii_case(&t, "BIG")
            && self.peek_type_words(&w))
    }

    /// Reads an integer type: its words, with an optional signedness already read, and an
    /// optional precision, which must be positive.
    pub(crate) fn parse_integer_numeric_type(&mut self, explicit_signed: Option<bool>) -> (r: Result<ValueType, Error>)
        requires
            old(self).wf(),
        ensures
            final(self).wf(),
            same_input(final(self)@, old(self)@),
            old(self)@.pos <= final(self)@.pos,
            (rview(r), final(self)@.pos) == integer_numeric_type_step(
                old(self)@.input,
                old(self)@.pos,
                explicit_signed,
            ),
    {
        let ghost v = old(self)@.input;
        let first = match self.parse_identifier() {
            Ok(id) => id.value,
            Err(e) => return Err(e),
        };
        let ghost q = self@.pos;
        let t = chars_of(first.as_str());
        let or_signed_value = match explicit_signed {
            Some(b) => Some(b),
            None => Some(true),
        };
        let mut signed = explicit_signed;
        let mut precision: Option<u64> = None;
        if chars_eq_ignore_ascii_case(&t, "SMALL") || chars_eq_ignore_ascii_case(&t, "BIG") {
            if let Err(e) = self.expect_identifier_word("INTEGER") {
                return Err(e);
            }
            signed = or_signed_value;
        } else if chars_eq_ignore_ascii_case(&t, "INTEGER") || chars_eq_ignore_ascii_case(&t, "INT")
            || chars_eq_ignore_ascii_case(&t, "UINT") {
            if chars_eq_ignore_ascii_case(&t, "UINT") {
                signed = Some(false);
            } else {
                signed = or_signed_value;
            }
            precision = match self.parse_optional_single_precision() {
                Ok(p) => p,
                Err(e) => return Err(e),
            };
        } else if chars_eq_ignore_ascii_case(&t, "SMALLINT") || chars_eq_ignore_ascii_case(&t, "BIGINT") {
            signed = or_signed_value;
        } else if chars_eq_ignore_ascii_case(&t, "USMALLINT") || chars_eq_ignore_ascii_case(&t, "UBIGINT") {
            signed = Some(false);
        } else {
            let suffix = if numeric_suffix(first.as_str(), "UINT").is_some() {
                signed = Some(false);
                numeric_suffix(first.as_str(), "UINT")
            } else if numeric_suffix(first.as_str(), "INT").is_some() {
                signed = or_signed_value;
                numeric_suffix(first.as_str(), "INT")
            } else {
                signed = or_signed_value;
                numeric_suffix(first.as_str(), "INTEGER")
            };
            match suffix {
                None => {
                    let mut expected: Vec<TokenKind> = Vec::new();
                    expected.push(TokenKind::Identifier);
                    proof {
                        assert(expected@ =~= seq![TokenKind::Identifier]);
                    }
                    return Err(self.error_expected(expected, self.peek_kind()));
                },
                Some(size) => {
                    precision = size;
                    if let Some(n) = size {
                        if let Err(e) = self.ensure_standard_integer_suffix(n) {
                            return Err(e);
                        }
                    }
                },
            }
        }
        assert(integer_type_words_step(v, q, first@, explicit_signed) == (
            Ok::<(Option<bool>, Option<u64>), crate::error::ErrorView>((signed, precision)),
            self@.pos,
        ));
        if let Some(n) = precision {
            if let Err(e) = self.ensure_positive_u64(n, "numeric precision") {
                return Err(e);
            }
        }
        Ok(ValueType::ExactNumeric { kind: ExactNumericTypeKind::Integer, signed, precision, scale: None })
    }

    /// Reads `SIGNED` or `UNSIGNED` and an integer type.
    pub(crate) fn parse_signed_or_unsigned_integer_type(&mut self) -> (r: Result<ValueType, Error>)
        requires
            old(self).wf(),
        ensures
            final(self).wf(),
            same_input(final(self)@, old(self)@),
            old(self)@.pos <= final(self)@.pos,
            (rview(r), final(self)@.pos) == signed_integer_type_step(old(self)@.input, old(self)@.pos),
    {
        let text = chars_of(self.bump().text.as_str());
        let signed = chars_eq_ignore_ascii_case(&text, "SIGNED");
        self.parse_integer_numeric_type(Some(signed))
    }

    /// Reads what follows an approximate numeric type word `word`: for `FLOAT` a size
    /// in the word or a precision and scale, for `DOUBLE` an optional `PRECISION`.
    pub(crate) fn parse_approximate_numeric_type(
        &mut self,
        kind: ApproximateNumericTypeKind,
        word: String,
    ) -> (r: Result<ValueType, Error>)
        requires
            old(self).wf(),
        ensures
            final(self).wf(),
            same_input(final(self)@, old(self)@),
            old(self)@.pos <= final(self)@.pos,
            (rview(r), final(self)@.pos) == approximate_numeric_type_step(
                old(self)@.input,
                old(self)@.pos,
                kind,
                word@,
            ),
    {
        let mut precision: Option<u64> = None;
        let mut scale: Option<u64> = None;
        match kind {
            ApproximateNumericTypeKind::Float => {
                precision = match numeric_suffix(word.as_str(), "FLOAT") {
                    Some(Some(n)) => Some(n),
                    _ => None,
                };
                if let Some(n) = precision {
                    if let Err(e) = self.ensure_standard_float_suffix(n) {
                        return Err(e);
                    }
                    if let Err(e) = self.ensure_approximate_numeric_precision(n) {
                        return Err(e);
                    }
                }
                if precision.is_none() {
                    match self.parse_optional_precision_scale() {
                        Ok((p, s)) => {
                            precision = p;
                            scale = s;
                        },
                        Err(e) => return Err(e),
                    }
                    if let Some(n) = precision {
                        if let Err(e) = self.ensure_approximate_numeric_precision(n) {
                            return Err(e);
                        }
                    }
                }
            },
            ApproximateNumericTypeKind::Real => {},
            ApproximateNumericTypeKind::Double => {
                let w: [&str; 1] = ["PRECISION"];
                proof {
                    assert(w@ =~= seq!["PRECISION"]);
                }
                if self.peek_type_words(&w) {
                    self.bump();
                }
            },
        }
        Ok(ValueType::ApproximateNumeric { kind, precision, scale })
    }

    /// Reads an optional max length in brackets after a list type; it must be positive.
    pub(crate) fn parse_optional_list_max_length(&mut self) -> (r: Result<Option<u64>, Error>)
        requires
            old(self).wf(),
        ensures
            final(self).wf(),
            same_input(final(self)@, old(self)@),
            old(self)@.pos <= final(self)@.pos,
            (rplain(r), final(self)@.pos) == list_max_length_step(old(self)@.input, old(self)@.pos),
    {
        if self.eat(TokenKind::LBracket).is_none() {
            return Ok(None);
        }
        let max_length = match self.parse_u64_literal() {
            Ok(n) => n,
            Err(e) => return Err(e),
        };
        if let Err(e) = self.ensure_positive_u64(max_length, "list max length") {
            return Err(e);
        }
        if let Err(e) = self.expect(TokenKind::RBracket) {
            return Err(e);
        }
        Ok(Some(max_length))
    }

    /// The list type word that is next, if there is one, and whether it is a group list.
    pub(crate) fn peek_list_value_type_name(&self) -> (r: Option<(TokenKind, bool)>)
        requires
            self.wf(),
        ensures
            r == list_type_name_at(self@.input, self@.pos),
    {
        match self.peek_kind() {
            TokenKind::List | TokenKind::Array => Some((self.peek_kind(), false)),
            _ => None,
        }
    }

    /// Reads a list type word: `LIST` or `ARRAY`.
    pub(crate) fn parse_list_value_type_name(&mut self) -> (r: Result<(TokenKind, bool), Error>)
        requires
            old(self).wf(),
        ensures
            final(self).wf(),
            same_input(final(self)@, old(self)@),
            old(self)@.pos <= final(self)@.pos,
            (rplain(r), final(self)@.pos) == list_type_name_step(old(self)@.input, old(self)@.pos),
            r matches Ok((k, _)) ==> (k == TokenKind::List || k == TokenKind::Array),
    {
        if self.at(TokenKind::List) || self.at(TokenKind::Array) {
            let token = self.bump();
            return Ok((token.kind, false));
        }
        let mut expected: Vec<TokenKind> = Vec::new();
        expected.push(TokenKind::List);
        expected.push(TokenKind::Array);
        proof {
            assert(expected@ =~= seq![TokenKind::List, TokenKind::Array]);
        }
        Err(self.error_expected(expected, self.peek_kind()))
    }
}

/// Whether a value type is known not to be null.
pub fn is_known_not_null_value_type(value_type: &ValueType) -> (r: bool)
    ensures
        r == is_known_not_null(value_type@),
{
    match value_type {
        ValueType::NotNull(_) => true,
        _ => false,
    }
}

/// Refuses dynamic union components whose nullability differs, at `offset`.
pub fn validate_dynamic_union_component_nullability(components: &Vec<ValueType>, offset: usize) -> (r: Result<(), Error>)
    ensures
        union_nullability_matches(value_types_view(components@)) ==> r is Ok,
        !union_nullability_matches(value_types_view(components@)) ==> (r matches Err(e) && e@
            == union_nullability_err(offset as int)),
{
    proof {
        lemma_value_types_view(components@);
    }
    let ghost cs = value_types_view(components@);
    if components.len() == 0 {
        return Ok(());
    }
    let first_is_not_null = is_known_not_null_value_type(&components[0]);
    let mut i: usize = 0;
    while i < components.len()
        invariant
            cs == value_types_view(components@),
            cs.len() == components.len(),
            components.len() > 0,
            forall|j: int| 0 <= j < components.len() ==> #[trigger] cs[j] == value_type_view(components@[j]),
            first_is_not_null == is_known_not_null(cs[0]),
            i <= components.len(),
            forall|j: int| 0 <= j < i ==> is_known_not_null(#[trigger] cs[j]) == first_is_not_null,
        decreases components.len() - i,
    {
        if is_known_not_null_value_type(&components[i]) != first_is_not_null {
            proof {
                assert(is_known_not_null(cs[i as int]) != is_known_not_null(cs[0]));
            }
            return Err(
                Error::Message {
                    offset,
                    message: "dynamic union component types must have matching nullability".to_owned(),
                },
            );
        }
        i += 1;
    }
    Ok(())
}

/// Refuses a closed edge reference type with a name or endpoint types, at `offset`.
pub fn validate_closed_edge_reference_definition(definition: &EdgeTypeDefinition, offset: usize) -> (r: Result<(), Error>)
    ensures
        match closed_edge_reference_err(definition@, offset as int) {
            Some(e) => r matches Err(x) && x@ == e,
            None => r is Ok,
        },
{
    if !definition.name.value.as_str().is_empty() {
        return Err(
            Error::Message {
                offset,
                message: "closed edge reference type cannot contain an edge type name".to_owned(),
            },
        );
    }
    if definition.source.is_some() || definition.destination.is_some() {
        return Err(
            Error::Message {
                offset,
                message: "closed edge reference type cannot contain endpoint node type names".to_owned(),
            },
        );
    }
    Ok(())
}

/// Refuses an endpoint pair of shape `endpoint_shape` where the edge kind
/// `explicit_edge_kind` was given, at `offset`.
pub fn validate_endpoint_pair_shape(
    explicit_edge_kind: Option<Direction>,
    endpoint_shape: Direction,
    offset: usize,
) -> (r: Result<(), Error>)
    ensures
        match endpoint_shape_err(explicit_edge_kind, endpoint_shape, offset as int) {
            Some(e) => r matches Err(x) && x@ == e,
            None => r is Ok,
        },
{
    match (explicit_edge_kind, endpoint_shape) {
        (Some(Direction::Right), Direction::Undirected) => Err(
            Error::Message {
                offset,
                message: "DIRECTED edge type cannot use an undirected endpoint pair".to_owned(),
            },
        ),
        (Some(Direction::Undirected), Direction::Right) => Err(
            Error::Message {
                offset,
                message: "UNDIRECTED edge type requires an undirected endpoint pair".to_owned(),
            },
        ),
        _ => Ok(()),
    }
}

/// Refuses an edge type phrase in a graph type body without an edge kind or a name, at
/// `offset`.
pub fn validate_graph_type_body_edge_phrase(
    context: GraphTypeElementContext,
    edge_kind: Option<Direction>,
    name: &Identifier,
    offset: usize,
) -> (r: Result<(), Error>)
    ensures
        match body_edge_phrase_err(context, edge_kind, name@, offset as int) {
            Some(e) => r matches Err(x) && x@ == e,
            None => r is Ok,
        },
{
    if context != GraphTypeElementContext::GraphTypeSpecificationBody {
        return Ok(());
    }
    if edge_kind.is_none() {
        return Err(
            Error::Message {
                offset,
                message: "graph type body edge type phrase requires DIRECTED or UNDIRECTED".to_owned(),
            },
        );
    }
    if name.value.as_str().is_empty() {
        return Err(
            Error::Message {
                offset,
                message: "graph type body edge type phrase requires an edge type name".to_owned(),
            },
        );
    }
    Ok(())
}

/// The word for a graph type element's kind and its name, if it has a name.
pub fn graph_type_element_kind_and_name(element: &GraphTypeElement) -> (r: Option<(&'static str, &str)>)
    ensures
        match r {
            Some((k, n)) => element_kind_and_name(element@) == Some((k@, n@)),
            None => element_kind_and_name(element@) is None,
        },
{
    match element {
        GraphTypeElement::Node(node) => if !node.name.value.as_str().is_empty() {
            Some(("node", node.name.value.as_str()))
        } else {
            None
        },
        GraphTypeElement::Edge(edge) => if !edge.name.value.as_str().is_empty() {
            Some(("edge", edge.name.value.as_str()))
        } else {
            None
        },
    }
}

/// Refuses a graph type element whose kind and name, ignoring case, an element of
/// `existing` has, at `offset`.
#[verifier::rlimit(40)]
pub fn validate_graph_type_element_name(existing: &Vec<GraphTypeElement>, element: &GraphTypeElement, offset: usize) -> (r: Result<(), Error>)
    ensures
        match element_name_err(graph_type_elements_view(existing@), element@, offset as int) {
            Some(e) => r matches Err(x) && x@ == e,
            None => r is Ok,
        },
{
    proof {
        lemma_graph_type_elements_view(existing@);
    }
    let ghost es = graph_type_elements_view(existing@);
    let (kind, name) = match graph_type_element_kind_and_name(element) {
        Some(t) => t,
        None => return Ok(()),
    };
    let mut i: usize = 0;
    while i < existing.len()
        invariant
            es == graph_type_elements_view(existing@),
            es.len() == existing.len(),
            forall|j: int| 0 <= j < existing.len() ==> #[trigger] es[j] == existing@[j]@,
            element_kind_and_name(element@) == Some((kind@, name@)),
            kind@ == (if element@ is Node {
                "node"@
            } else {
                "edge"@
            }),
            i <= existing.len(),
            forall|j: int|
                0 <= j < i ==> !(#[trigger] element_kind_and_name(es[j]) matches Some((k2, n2))
                    && k2 == kind@ && eq_ignore_ascii_case(n2, name@)),
        decreases existing.len() - i,
    {
        let same_kind = match (&existing[i], element) {
            (GraphTypeElement::Node(_), GraphTypeElement::Node(_)) => true,
            (GraphTypeElement::Edge(_), GraphTypeElement::Edge(_)) => true,
            _ => false,
        };
        let other = graph_type_element_kind_and_name(&existing[i]);
        let duplicate = match other {
            Some((_, n2)) => {
                let b = chars_of(n2);
                same_kind && chars_eq_ignore_ascii_case(&b, name)
            },
            None => false,
        };
        proof {
            reveal_strlit("node");
            reveal_strlit("edge");
            assert(es[i as int] == existing@[i as int]@);
            assert("node"@[0] != "edge"@[0]);
            assert(existing@[i as int] is Node <==> es[i as int] is Node);
            assert(*element is Node <==> element@ is Node);
            if let Some((k2, n2)) = other {
                assert(k2@ == (if es[i as int] is Node {
                    "node"@
                } else {
                    "edge"@
                }));
                assert(same_kind <==> k2@ == kind@);
            }
        }
        if duplicate {
            proof {
                assert(element_kind_and_name(es[i as int]) matches Some((k2, n2)) && k2 == kind@
                    && eq_ignore_ascii_case(n2, name@));
            }
            let mut m = chars_of("duplicate ");
            push_str(&mut m, kind);
            push_str(&mut m, " type name '");
            push_str(&mut m, name);
            push_str(&mut m, "'");
            return Err(Error::Message { offset, message: string_from_chars(&m) });
        }
        i += 1;
    }
    Ok(())
}

/// Refuses an endpoint node type `endpoint` that `elements` does not define, at `offset`.
#[verifier::rlimit(40)]
pub fn validate_graph_type_endpoint_node_type(
    elements: &Vec<GraphTypeElement>,
    endpoint: Option<&Identifier>,
    offset: usize,
) -> (r: Result<(), Error>)
    ensures
        match endpoint_err(
            graph_type_elements_view(elements@),
            match endpoint {
                Some(i) => Some(i@),
                None => None,
            },
            offset as int,
        ) {
            Some(e) => r matches Err(x) && x@ == e,
            None => r is Ok,
        },
{
    proof {
        lemma_graph_type_elements_view(elements@);
    }
    let ghost es = graph_type_elements_view(elements@);
    let target = match endpoint {
        Some(e) => e,
        None => return Ok(()),
    };
    let mut i: usize = 0;
    while i < elements.len()
        invariant
            es == graph_type_elements_view(elements@),
            es.len() == elements.len(),
            forall|j: int| 0 <= j < elements.len() ==> #[trigger] es[j] == elements@[j]@,
            i <= elements.len(),
            endpoint == Some(target),
            forall|j: int|
                0 <= j < i ==> !(#[trigger] es[j] matches GraphTypeElementView::Node(n) && n.name.len()
                    != 0 && eq_ignore_ascii_case(n.name, target@)),
        decreases elements.len() - i,
    {
        let found = match &elements[i] {
            GraphTypeElement::Node(node) => {
                let text = chars_of(node.name.value.as_str());
                !node.name.value.as_str().is_empty() && chars_eq_ignore_ascii_case(
                    &text,
                    target.value.as_str(),
                )
            },
            GraphTypeElement::Edge(_) => false,
        };
        if found {
            proof {
                assert(es[i as int] matches GraphTypeElementView::Node(n) && n.name.len() != 0
                    && eq_ignore_ascii_case(n.name, target@));
                assert(defines_node_type(es, target@));
            }
            return Ok(());
        }
        i += 1;
    }
    let mut m = chars_of("endpoint node type '");
    push_str(&mut m, target.value.as_str());
    push_str(&mut m, "' is not defined");
    Err(Error::Message { offset, message: string_from_chars(&m) })
}

/// Refuses the first endpoint node type of an edge of `elements` that `elements` does not
/// define, checking each edge's source before its destination, at `offset`.
#[verifier::rlimit(40)]
pub fn validate_graph_type_endpoint_node_types(elements: &Vec<GraphTypeElement>, offset: usize) -> (r: Result<(), Error>)
    ensures
        match endpoint_types_err(
            graph_type_elements_view(elements@),
            elements@.len() as int,
            offset as int,
        ) {
            Some(e) => r matches Err(x) && x@ == e,
            None => r is Ok,
        },
{
    proof {
        lemma_graph_type_elements_view(elements@);
    }
    let ghost es = graph_type_elements_view(elements@);
    let mut i: usize = 0;
    while i < elements.len()
        invariant
            es == graph_type_elements_view(elements@),
            es.len() == elements.len(),
            forall|j: int| 0 <= j < elements.len() ==> #[trigger] es[j] == elements@[j]@,
            i <= elements.len(),
            endpoint_types_err(es, i as int, offset as int) is None,
        decreases elements.len() - i,
    {
        if let GraphTypeElement::Edge(edge) = &elements[i] {
            if let Err(e) = validate_graph_type_endpoint_node_type(elements, edge.source.as_ref(), offset) {
                proof {
                    lemma_endpoint_types_err_stays(es, i + 1, elements@.len() as int, offset as int);
                }
                return Err(e);
            }
            if let Err(e) = validate_graph_type_endpoint_node_type(
                elements,
                edge.destination.as_ref(),
                offset,
            ) {
                proof {
                    lemma_endpoint_types_err_stays(es, i + 1, elements@.len() as int, offset as int);
                }
                return Err(e);
            }
        }
        i += 1;
    }
    Ok(())
}

impl Parser {
    /// Reads a value type name: an identifier and the words after it that belong to it,
    /// joined by single spaces.
    pub(crate) fn parse_value_type_name(&mut self) -> (r: Result<Identifier, Error>)
        requires
            old(self).wf(),
        ensures
            final(self).wf(),
            same_input(final(self)@, old(self)@),
            old(self)@.pos <= final(self)@.pos,
            (rview(r), final(self)@.pos) == value_type_name_step(old(self)@.input, old(self)@.pos),
    {
        let ghost v = old(self)@.input;
        let first = match self.parse_identifier() {
            Ok(id) => id.value,
            Err(e) => return Err(e),
        };
        let ghost q = self@.pos;
        let t = chars_of(first.as_str());
        let w_integer: [&str; 1] = ["INTEGER"];
        let w_precision: [&str; 1] = ["PRECISION"];
        let w_varying: [&str; 1] = ["VARYING"];
        let w_large_object: [&str; 2] = ["LARGE", "OBJECT"];
        let w_with_time_zone: [&str; 3] = ["WITH", "TIME", "ZONE"];
        let w_without_time_zone: [&str; 3] = ["WITHOUT", "TIME", "ZONE"];
        let w_datetime: [&str; 1] = ["DATETIME"];
        let w_time: [&str; 1] = ["TIME"];
        proof {
            assert(w_integer@ =~= seq!["INTEGER"]);
            assert(w_precision@ =~= seq!["PRECISION"]);
            assert(w_varying@ =~= seq!["VARYING"]);
            assert(w_large_object@ =~= seq!["LARGE", "OBJECT"]);
            assert(w_with_time_zone@ =~= seq!["WITH", "TIME", "ZONE"]);
            assert(w_without_time_zone@ =~= seq!["WITHOUT", "TIME", "ZONE"]);
            assert(w_datetime@ =~= seq!["DATETIME"]);
            assert(w_time@ =~= seq!["TIME"]);
        }
        let is_char = chars_eq_ignore_ascii_case(&t, "CHAR") || chars_eq_ignore_ascii_case(&t, "CHARACTER");
        let n: usize = if (chars_eq_ignore_ascii_case(&t, "BIG") || chars_eq_ignore_ascii_case(&t, "SMALL"))
            && self.peek_type_words(&w_integer) {
            1
        } else if chars_eq_ignore_ascii_case(&t, "DOUBLE") && self.peek_type_words(&w_precision) {
            1
        } else if is_char && self.peek_type_words(&w_varying) {
            1
        } else if is_char && self.peek_type_words(&w_large_object) {
            2
        } else if (chars_eq_ignore_ascii_case(&t, "TIME") || chars_eq_ignore_ascii_case(&t, "TIMESTAMP")
            || chars_eq_ignore_ascii_case(&t, "DATETIME")) && (self.peek_type_words(&w_with_time_zone)
            || self.peek_type_words(&w_without_time_zone)) {
            3
        } else if (chars_eq_ignore_ascii_case(&t, "LOCAL") || chars_eq_ignore_ascii_case(&t, "ZONED"))
            && (self.peek_type_words(&w_datetime) || self.peek_type_words(&w_time)) {
            1
        } else {
            0
        };
        proof {
            lemma_extra_type_words(v, first@, q);
        }
        let mut parts = t;
        let mut i: usize = 0;
        assert(parts@ =~= first@ + spaced_words(v, q, 0));
        while i < n
            invariant
                self.wf(),
                same_input(self@, old(self)@),
                v == old(self)@.input,
                n == extra_type_words(v, first@, q),
                i <= n,
                self@.pos == q + i,
                parts@ == first@ + spaced_words(v, q, i as nat),
                forall|q2: int| q <= q2 < q + n ==> q2 < v.tokens.len() && #[trigger] crate::parser::kind_at(v, q2)
                    != TokenKind::Eof,
            decreases n - i,
        {
            let token = self.bump();
            parts.push(' ');
            push_str(&mut parts, token.text.as_str());
            i += 1;
            proof {
                reveal_strlit(" ");
                assert(parts@ =~= first@ + spaced_words(v, q, i as nat));
            }
        }
        Ok(Identifier::new(string_from_chars(&parts)))
    }

    /// Reads a named value type with optional parameters in parentheses.
    pub(crate) fn parse_named_value_type(&mut self) -> (r: Result<ValueType, Error>)
        requires
            old(self).wf(),
        ensures
            final(self).wf(),
            same_input(final(self)@, old(self)@),
            old(self)@.pos <= final(self)@.pos,
            (rview(r), final(self)@.pos) == named_value_type_step(old(self)@.input, old(self)@.pos),
    {
        let ghost v = old(self)@.input;
        let name = match self.parse_value_type_name() {
            Ok(n) => n,
            Err(e) => return Err(e),
        };
        let mut parameters: Vec<u64> = Vec::new();
        if self.eat(TokenKind::LParen).is_some() {
            if !self.at(TokenKind::RParen) {
                parameters = match self.parse_type_parameters() {
                    Ok(ps) => ps,
                    Err(e) => return Err(e),
                };
            }
            if let Err(e) = self.expect(TokenKind::RParen) {
                return Err(e);
            }
        }
        Ok(ValueType::Named { name, parameters })
    }
    /// Reads integers separated by commas.
    pub(crate) fn parse_type_parameters(&mut self) -> (r: Result<Vec<u64>, Error>)
        requires
            old(self).wf(),
        ensures
            final(self).wf(),
            same_input(final(self)@, old(self)@),
            old(self)@.pos <= final(self)@.pos,
            (match r {
                Ok(ps) => Ok(ps@),
                Err(e) => Err(e@),
            }, final(self)@.pos) == type_parameters_rest(old(self)@.input, Seq::empty(), old(self)@.pos),
    {
        let ghost v = old(self)@.input;
        let ghost target = type_parameters_rest(v, Seq::empty(), old(self)@.pos);
        let mut parameters: Vec<u64> = Vec::new();
        loop
            invariant_except_break
                target == type_parameters_rest(v, parameters@, self@.pos),
            invariant
                self.wf(),
                same_input(self@, old(self)@),
                v == old(self)@.input,
                old(self)@.pos <= self@.pos,
                target == type_parameters_rest(v, Seq::empty(), old(self)@.pos),
            ensures
                target == (Ok::<Seq<u64>, crate::error::ErrorView>(parameters@), self@.pos),
            decreases self@.input.tokens.len() - self@.pos,
        {
            proof {
                self.lemma_valid();
            }
            let n = match self.parse_u64_literal() {
                Ok(n) => n,
                Err(e) => return Err(e),
            };
            parameters.push(n);
            if self.eat(TokenKind::Comma).is_none() {
                break;
            }
            proof {
                self.lemma_valid();
            }
        }
        Ok(parameters)
    }
}

/// Whether `properties` has a property named `name`, ignoring case.
pub fn has_property_named(properties: &Vec<PropertyTypeDefinition>, name: &Identifier) -> (r: bool)
    ensures
        r == has_field_named(property_types_view(properties@), name@),
{
    proof {
        lemma_property_types_view(properties@);
    }
    let ghost ps = property_types_view(properties@);
    let mut i: usize = 0;
    while i < properties.len()
        invariant
            ps == property_types_view(properties@),
            ps.len() == properties.len(),
            forall|j: int| 0 <= j < properties.len() ==> #[trigger] ps[j] == properties@[j]@,
            i <= properties.len(),
            forall|j: int| 0 <= j < i ==> !eq_ignore_ascii_case(#[trigger] ps[j].name, name@),
        decreases properties.len() - i,
    {
        let text = chars_of(properties[i].name.value.as_str());
        if chars_eq_ignore_ascii_case(&text, name.value.as_str()) {
            proof {
                assert(eq_ignore_ascii_case(ps[i as int].name, name@));
            }
            return true;
        }
        i += 1;
    }
    false
}

/// Whether `fields` has a field named `name`, ignoring case.
pub fn has_field_type_named(fields: &Vec<FieldType>, name: &Identifier) -> (r: bool)
    ensures
        r == has_field_named(field_types_view(fields@), name@),
{
    proof {
        lemma_field_types_view(fields@);
    }
    let ghost fs = field_types_view(fields@);
    let mut i: usize = 0;
    while i < fields.len()
        invariant
            fs == field_types_view(fields@),
            fs.len() == fields.len(),
            forall|j: int| 0 <= j < fields.len() ==> #[trigger] fs[j] == fields@[j]@,
            i <= fields.len(),
            forall|j: int| 0 <= j < i ==> !eq_ignore_ascii_case(#[trigger] fs[j].name, name@),
        decreases fields.len() - i,
    {
        let text = chars_of(fields[i].name.value.as_str());
        if chars_eq_ignore_ascii_case(&text, name.value.as_str()) {
            proof {
                assert(eq_ignore_ascii_case(fs[i as int].name, name@));
            }
            return true;
        }
        i += 1;
    }
    false
}

/// The error for a name that repeats one before it: `what` and the name, at `offset`.
fn duplicate_error(what: &str, name: &Identifier, offset: usize) -> (e: Error)
    ensures
        e@ == (crate::error::ErrorView::Message { offset: offset as int, message: duplicate_message(what@, name@) }),
{
    let mut m = chars_of("duplicate ");
    push_str(&mut m, what);
    push_str(&mut m, " '");
    push_str(&mut m, name.value.as_str());
    push_str(&mut m, "'");
    Error::Message { offset, message: string_from_chars(&m) }
}

/// The view of an optional identifier.
pub open spec fn opt_id(i: Option<Identifier>) -> Option<Seq<char>> {
    crate::ast::opt_identifier_view(i)
}

/// The reference value type that a graph type element reads as: a node reference, or a
/// closed edge reference, refused at `offset` if the edge has a name or endpoint types.
pub fn element_reference_value_type(element: GraphTypeElement, offset: usize) -> (r: Result<ValueType, Error>)
    ensures
        rview(r) == element_reference(element@, offset as int),
{
    match element {
        GraphTypeElement::Node(definition) => Ok(ValueType::NodeReference { definition: Some(definition) }),
        GraphTypeElement::Edge(definition) => {
            if let Err(e) = validate_closed_edge_reference_definition(&definition, offset) {
                return Err(e);
            }
            Ok(ValueType::EdgeReference { definition: Some(definition) })
        },
    }
}

impl Parser {
    /// Whether `GROUP LIST` or `GROUP ARRAY` is next.
    pub(crate) fn at_group_list(&self) -> (r: bool)
        requires
            self.wf(),
        ensures
            r == group_list_at(self@.input, self@.pos),
    {
        self.at(TokenKind::Group) && matches!(self.peek_n_kind(1), Some(TokenKind::List) | Some(TokenKind::Array))
    }

    /// The refusal of `GROUP LIST` and `GROUP ARRAY` at the current token.
    pub(crate) fn group_list_error(&self) -> (e: Error)
        requires
            self.wf(),
        ensures
            e@ == message_at(self@.input, self@.pos, group_list_message()),
    {
        Error::Message {
            offset: self.peek().offset,
            message: "GROUP list value type names are not user-visible standard GQL syntax".to_owned(),
        }
    }

    /// Reads an optional `NOT NULL` after the value type `t`.
    pub(crate) fn parse_optional_not_null(&mut self, t: ValueType) -> (r: Result<ValueType, Error>)
        requires
            old(self).wf(),
        ensures
            final(self).wf(),
            same_input(final(self)@, old(self)@),
            old(self)@.pos <= final(self)@.pos,
            (rview(r), final(self)@.pos) == not_null_step(old(self)@.input, old(self)@.pos, t@),
    {
        if self.eat(TokenKind::Not).is_some() {
            if let Err(e) = self.expect(TokenKind::Null) {
                return Err(e);
            }
            return Ok(ValueType::NotNull(Box::new(t)));
        }
        Ok(t)
    }

    /// Reads the list type suffixes after the value type `t`.
    pub(crate) fn parse_list_type_suffixes(&mut self, t: ValueType) -> (r: Result<ValueType, Error>)
        requires
            old(self).wf(),
        ensures
            final(self).wf(),
            same_input(final(self)@, old(self)@),
            old(self)@.pos <= final(self)@.pos,
            (rview(r), final(self)@.pos) == list_suffixes_step(old(self)@.input, t@, old(self)@.pos),
    {
        let ghost v = old(self)@.input;
        let ghost target = list_suffixes_step(v, t@, old(self)@.pos);
        let mut current = t;
        loop
            invariant
                self.wf(),
                same_input(self@, old(self)@),
                v == old(self)@.input,
                old(self)@.pos <= self@.pos,
                target == list_suffixes_step(v, current@, self@.pos),
                target == list_suffixes_step(v, t@, old(self)@.pos),
            decreases self@.input.tokens.len() - self@.pos,
        {
            proof {
                self.lemma_valid();
            }
            if self.at_group_list() {
                return Err(self.group_list_error());
            }
            if self.peek_list_value_type_name().is_none() {
                return Ok(current);
            }
            let offset = self.peek().offset;
            let (kind, group) = match self.parse_list_value_type_name() {
                Ok(k) => k,
                Err(e) => return Err(e),
            };
            let max_length = match self.parse_optional_list_max_length() {
                Ok(m) => m,
                Err(e) => return Err(e),
            };
            let wrapped = match wrap_list_value_type(current, kind, group, max_length, offset) {
                Ok(w) => w,
                Err(e) => return Err(e),
            };
            current = match self.parse_optional_not_null(wrapped) {
                Ok(t2) => t2,
                Err(e) => return Err(e),
            };
            proof {
                self.lemma_valid();
            }
        }
    }

    /// Reads `FROM` and `TO` node types after an edge type, each optional.
    pub(crate) fn parse_from_to(&mut self) -> (r: Result<(Option<Identifier>, Option<Identifier>), Error>)
        requires
            old(self).wf(),
        ensures
            final(self).wf(),
            same_input(final(self)@, old(self)@),
            old(self)@.pos <= final(self)@.pos,
            (match r {
                Ok((a, b)) => Ok((opt_id(a), opt_id(b))),
                Err(e) => Err(e@),
            }, final(self)@.pos) == from_to_step(old(self)@.input, old(self)@.pos),
    {
        let source = if self.eat(TokenKind::From).is_some() {
            match self.parse_identifier() {
                Ok(id) => Some(id),
                Err(e) => return Err(e),
            }
        } else {
            None
        };
        let destination = if self.eat(TokenKind::To).is_some() {
            match self.parse_identifier() {
                Ok(id) => Some(id),
                Err(e) => return Err(e),
            }
        } else {
            None
        };
        Ok((source, destination))
    }
}

impl Parser {
    /// Reads a value type: one component, or components joined by `|`, which must all be
    /// known not to be null or all not be.
    #[verifier::rlimit(80)]
    pub fn parse_value_type(&mut self) -> (r: Result<ValueType, Error>)
        requires
            old(self).wf(),
        ensures
            final(self).wf(),
            same_input(final(self)@, old(self)@),
            old(self)@.pos <= final(self)@.pos,
            (rview(r), final(self)@.pos) == value_type_step(old(self)@.input, old(self)@.pos),
        decreases old(self)@.input.tokens.len() - old(self)@.pos, 40int,
    {
        proof {
            self.lemma_valid();
        }
        let first = match self.parse_value_type_component() {
            Ok(t) => t,
            Err(e) => return Err(e),
        };
        proof {
            self.lemma_valid();
        }
        if !self.at(TokenKind::Pipe) {
            return Ok(first);
        }
        let ghost first_view = first@;
        let mut components: Vec<ValueType> = Vec::new();
        proof {
            lemma_empty_views();
            lemma_value_types_view_push(components@, first);
        }
        components.push(first);
        proof {
            assert(value_types_view(components@) =~= seq![first_view]);
        }
        if let Err(e) = self.parse_more_components(&mut components) {
            return Err(e);
        }
        if let Err(e) = validate_dynamic_union_component_nullability(&components, self.peek().offset) {
            return Err(e);
        }
        Ok(ValueType::DynamicUnion(components))
    }

    /// Reads components joined by `|` onto `components`.
    pub(crate) fn parse_more_components(&mut self, components: &mut Vec<ValueType>) -> (r: Result<(), Error>)
        requires
            old(self).wf(),
        ensures
            final(self).wf(),
            same_input(final(self)@, old(self)@),
            old(self)@.pos <= final(self)@.pos,
            (match r {
                Ok(_) => Ok(value_types_view(final(components)@)),
                Err(e) => Err(e@),
            }, final(self)@.pos) == components_rest(
                old(self)@.input,
                value_types_view(old(components)@),
                old(self)@.pos,
            ),
        decreases old(self)@.input.tokens.len() - old(self)@.pos, 36int,
    {
        proof {
            self.lemma_valid();
        }
        let ghost v = old(self)@.input;
        let ghost target = components_rest(v, value_types_view(components@), self@.pos);
        loop
            invariant
                self.wf(),
                same_input(self@, old(self)@),
                v == old(self)@.input,
                old(self)@.pos <= self@.pos,
                target == components_rest(v, value_types_view(components@), self@.pos),
                target == components_rest(v, value_types_view(old(components)@), old(self)@.pos),
            decreases self@.input.tokens.len() - self@.pos,
        {
            proof {
                self.lemma_valid();
            }
            if self.eat(TokenKind::Pipe).is_none() {
                return Ok(());
            }
            proof {
                self.lemma_valid();
            }
            let c = match self.parse_value_type_component() {
                Ok(c) => c,
                Err(e) => return Err(e),
            };
            proof {
                self.lemma_valid();
                lemma_value_types_view_push(components@, c);
            }
            components.push(c);
        }
    }

    /// Reads the components of `ANY VALUE <...>`: components joined by `|`, with matching
    /// nullability.
    pub(crate) fn parse_component_type_list(&mut self) -> (r: Result<Vec<ValueType>, Error>)
        requires
            old(self).wf(),
        ensures
            final(self).wf(),
            same_input(final(self)@, old(self)@),
            old(self)@.pos <= final(self)@.pos,
            (match r {
                Ok(cs) => Ok(value_types_view(cs@)),
                Err(e) => Err(e@),
            }, final(self)@.pos) == component_type_list_step(old(self)@.input, old(self)@.pos),
        decreases old(self)@.input.tokens.len() - old(self)@.pos, 40int,
    {
        proof {
            self.lemma_valid();
        }
        let first = match self.parse_value_type_component() {
            Ok(t) => t,
            Err(e) => return Err(e),
        };
        proof {
            self.lemma_valid();
        }
        let ghost first_view = first@;
        let mut components: Vec<ValueType> = Vec::new();
        proof {
            lemma_empty_views();
            lemma_value_types_view_push(components@, first);
        }
        components.push(first);
        proof {
            assert(value_types_view(components@) =~= seq![first_view]);
        }
        if let Err(e) = self.parse_more_components(&mut components) {
            return Err(e);
        }
        if let Err(e) = validate_dynamic_union_component_nullability(&components, self.peek().offset) {
            return Err(e);
        }
        Ok(components)
    }

    /// Reads a value type component: a base type, an optional `NOT NULL`, and list type
    /// suffixes.
    pub(crate) fn parse_value_type_component(&mut self) -> (r: Result<ValueType, Error>)
        requires
            old(self).wf(),
        ensures
            final(self).wf(),
            same_input(final(self)@, old(self)@),
            old(self)@.pos <= final(self)@.pos,
            (rview(r), final(self)@.pos) == value_type_component_step(old(self)@.input, old(self)@.pos),
        decreases old(self)@.input.tokens.len() - old(self)@.pos, 32int,
    {
        proof {
            self.lemma_valid();
        }
        let t = match self.parse_value_type_base() {
            Ok(t) => t,
            Err(e) => return Err(e),
        };
        let t2 = match self.parse_optional_not_null(t) {
            Ok(t2) => t2,
            Err(e) => return Err(e),
        };
        self.parse_list_type_suffixes(t2)
    }

    /// Reads what follows `ANY`.
    pub(crate) fn parse_any_value_type(&mut self) -> (r: Result<ValueType, Error>)
        requires
            old(self).wf(),
        ensures
            final(self).wf(),
            same_input(final(self)@, old(self)@),
            old(self)@.pos <= final(self)@.pos,
            (rview(r), final(self)@.pos) == any_type_step(old(self)@.input, old(self)@.pos),
        decreases old(self)@.input.tokens.len() - old(self)@.pos, 26int,
    {
        proof {
            self.lemma_valid();
        }
        if self.eat(TokenKind::Property).is_some() {
            if self.eat(TokenKind::Graph).is_some() {
                return Ok(ValueType::GraphReference { property_graph: true, body: None });
            }
            if let Err(e) = self.expect(TokenKind::Value) {
                return Err(e);
            }
            return Ok(ValueType::PropertyValue);
        }
        if self.eat(TokenKind::Graph).is_some() {
            return Ok(ValueType::GraphReference { property_graph: false, body: None });
        }
        if self.eat_node_synonym() {
            return Ok(ValueType::NodeReference { definition: None });
        }
        if self.eat_edge_synonym() {
            return Ok(ValueType::EdgeReference { definition: None });
        }
        if self.eat(TokenKind::Record).is_some() {
            return Ok(ValueType::AnyRecord);
        }
        self.eat(TokenKind::Value);
        proof {
            self.lemma_valid();
        }
        if self.eat(TokenKind::Lt).is_some() {
            proof {
                self.lemma_valid();
            }
            let components = match self.parse_component_type_list() {
                Ok(cs) => cs,
                Err(e) => return Err(e),
            };
            if let Err(e) = self.expect(TokenKind::Gt) {
                return Err(e);
            }
            return Ok(ValueType::DynamicUnion(components));
        }
        Ok(ValueType::AnyDynamic)
    }

    /// Reads a list type written before its element type: `LIST <t>` or `ARRAY <t>`, with
    /// an optional max length.
    pub(crate) fn parse_prefixed_list_value_type(&mut self) -> (r: Result<ValueType, Error>)
        requires
            old(self).wf(),
        ensures
            final(self).wf(),
            same_input(final(self)@, old(self)@),
            old(self)@.pos <= final(self)@.pos,
            (rview(r), final(self)@.pos) == prefixed_list_type_step(old(self)@.input, old(self)@.pos),
        decreases old(self)@.input.tokens.len() - old(self)@.pos, 24int,
    {
        proof {
            self.lemma_valid();
        }
        let offset = self.peek().offset;
        let (kind, group) = match self.parse_list_value_type_name() {
            Ok(k) => k,
            Err(e) => return Err(e),
        };
        if let Err(e) = self.expect(TokenKind::Lt) {
            return Err(e);
        }
        proof {
            self.lemma_valid();
        }
        let inner = match self.parse_value_type() {
            Ok(t) => t,
            Err(e) => return Err(e),
        };
        if let Err(e) = self.expect(TokenKind::Gt) {
            return Err(e);
        }
        let max_length = match self.parse_optional_list_max_length() {
            Ok(m) => m,
            Err(e) => return Err(e),
        };
        wrap_list_value_type(inner, kind, group, max_length, offset)
    }

    /// Reads a base value type.
    #[verifier::rlimit(80)]
    pub(crate) fn parse_value_type_base(&mut self) -> (r: Result<ValueType, Error>)
        requires
            old(self).wf(),
        ensures
            final(self).wf(),
            same_input(final(self)@, old(self)@),
            old(self)@.pos <= final(self)@.pos,
            (rview(r), final(self)@.pos) == value_type_base_step(old(self)@.input, old(self)@.pos),
        decreases old(self)@.input.tokens.len() - old(self)@.pos, 30int,
    {
        proof {
            self.lemma_valid();
        }
        let ghost v = old(self)@.input;
        proof {
            self.lemma_valid();
        }
        if self.at_group_list() {
            return Err(self.group_list_error());
        }
        if self.eat(TokenKind::Any).is_some() {
            proof {
                self.lemma_valid();
            }
            return self.parse_any_value_type();
        }
        if self.at(TokenKind::Property) && matches!(self.peek_n_kind(1), Some(TokenKind::Value)) {
            self.bump();
            self.bump();
            return Ok(ValueType::PropertyValue);
        }
        if self.at(TokenKind::Binding) && matches!(self.peek_n_kind(1), Some(TokenKind::Table)) {
            self.bump();
            self.bump();
            proof {
                self.lemma_valid();
            }
            let fields = match self.parse_field_type_specification() {
                Ok(f) => f,
                Err(e) => return Err(e),
            };
            return Ok(ValueType::BindingTable { binding: true, fields });
        }
        if self.at(TokenKind::Table) && matches!(self.peek_n_kind(1), Some(TokenKind::LBrace)) {
            self.bump();
            proof {
                self.lemma_valid();
            }
            let fields = match self.parse_field_type_specification() {
                Ok(f) => f,
                Err(e) => return Err(e),
            };
            return Ok(ValueType::BindingTable { binding: false, fields });
        }
        if self.at(TokenKind::Property) && matches!(self.peek_n_kind(1), Some(TokenKind::Graph)) {
            self.bump();
            self.bump();
            proof {
                self.lemma_valid();
            }
            let body = match self.parse_nested_graph_type_body() {
                Ok(b) => b,
                Err(e) => return Err(e),
            };
            return Ok(ValueType::GraphReference { property_graph: true, body: Some(body) });
        }
        if self.at(TokenKind::Graph) && matches!(self.peek_n_kind(1), Some(TokenKind::LBrace)) {
            self.bump();
            proof {
                self.lemma_valid();
            }
            let body = match self.parse_nested_graph_type_body() {
                Ok(b) => b,
                Err(e) => return Err(e),
            };
            return Ok(ValueType::GraphReference { property_graph: false, body: Some(body) });
        }
        self.parse_reference_value_type()
    }

    /// Reads a node or edge reference value type, or else a value type that starts with
    /// `PATH`, a list type word, `RECORD` or `{`, or a simple type.
    #[verifier::rlimit(80)]
    pub(crate) fn parse_reference_value_type(&mut self) -> (r: Result<ValueType, Error>)
        requires
            old(self).wf(),
        ensures
            final(self).wf(),
            same_input(final(self)@, old(self)@),
            old(self)@.pos <= final(self)@.pos,
            (rview(r), final(self)@.pos) == reference_value_type_step(old(self)@.input, old(self)@.pos),
        decreases old(self)@.input.tokens.len() - old(self)@.pos, 28int,
    {
        proof {
            self.lemma_valid();
        }
        if self.at_node_synonym() {
            return match self.parse_optional_node_type_definition() {
                Ok(definition) => Ok(ValueType::NodeReference { definition }),
                Err(e) => Err(e),
            };
        }
        if self.at_edge_kind_before_synonym() || self.at_edge_synonym() {
            return self.parse_edge_reference_value_type();
        }
        if self.at(TokenKind::LParen) {
            return self.parse_element_reference_value_type();
        }
        self.parse_value_type_tail()
    }

    /// Reads a node or edge reference value type written as a graph type element in
    /// parentheses; an edge may not have a name or endpoint types.
    #[verifier::rlimit(40)]
    pub(crate) fn parse_element_reference_value_type(&mut self) -> (r: Result<ValueType, Error>)
        requires
            old(self).wf(),
        ensures
            final(self).wf(),
            same_input(final(self)@, old(self)@),
            old(self)@.pos <= final(self)@.pos,
            (rview(r), final(self)@.pos) == element_reference_value_type_step(old(self)@.input, old(self)@.pos),
        decreases old(self)@.input.tokens.len() - old(self)@.pos, 27int,
    {
        proof {
            self.lemma_valid();
        }
        let element = match self.parse_graph_type_element(
            GraphTypeElementContext::ClosedReferenceValueType,
        ) {
            Ok(e) => e,
            Err(e) => return Err(e),
        };
        let offset = self.peek().offset;
        element_reference_value_type(element, offset)
    }

    /// Reads an edge reference value type: an edge synonym, after an optional `DIRECTED`
    /// or `UNDIRECTED`, and an optional closed edge type definition.
    #[verifier::rlimit(80)]
    pub(crate) fn parse_edge_reference_value_type(&mut self) -> (r: Result<ValueType, Error>)
        requires
            old(self).wf(),
        ensures
            final(self).wf(),
            same_input(final(self)@, old(self)@),
            old(self)@.pos <= final(self)@.pos,
            (rview(r), final(self)@.pos) == edge_reference_value_type_step(old(self)@.input, old(self)@.pos),
        decreases old(self)@.input.tokens.len() - old(self)@.pos, 27int,
    {
        proof {
            self.lemma_valid();
        }
        if self.at_edge_kind_before_synonym() {
            let offset = self.peek().offset;
            let direction = match self.parse_optional_edge_kind_before_synonym() {
                Some(d) => d,
                None => Direction::Right,
            };
            proof {
                self.lemma_valid();
            }
            let definition = match self.parse_optional_edge_type_definition_with_direction(
                direction,
                Some(direction),
            ) {
                Ok(d) => d,
                Err(e) => return Err(e),
            };
            if let Some(d) = &definition {
                if let Err(e) = validate_closed_edge_reference_definition(d, offset) {
                    return Err(e);
                }
            }
            return Ok(ValueType::EdgeReference { definition });
        }
        let offset = self.peek().offset;
        let definition = match self.parse_optional_edge_type_definition() {
            Ok(d) => d,
            Err(e) => return Err(e),
        };
        if let Some(d) = &definition {
            if let Err(e) = validate_closed_edge_reference_definition(d, offset) {
                return Err(e);
            }
        }
        Ok(ValueType::EdgeReference { definition })
    }

    /// Reads a value type that starts with `PATH`, a list type word, `RECORD` or `{`, or
    /// else a simple type.
    pub(crate) fn parse_value_type_tail(&mut self) -> (r: Result<ValueType, Error>)
        requires
            old(self).wf(),
        ensures
            final(self).wf(),
            same_input(final(self)@, old(self)@),
            old(self)@.pos <= final(self)@.pos,
            (rview(r), final(self)@.pos) == value_type_tail_step(old(self)@.input, old(self)@.pos),
        decreases old(self)@.input.tokens.len() - old(self)@.pos, 26int,
    {
        proof {
            self.lemma_valid();
        }
        if self.at(TokenKind::Path) {
            self.bump();
            return Ok(ValueType::Path);
        }
        if self.peek_list_value_type_name().is_some() {
            return self.parse_prefixed_list_value_type();
        }
        if self.eat(TokenKind::Record).is_some() {
            proof {
                self.lemma_valid();
            }
            if self.at(TokenKind::LBrace) {
                return match self.parse_field_type_specification() {
                    Ok(fields) => Ok(ValueType::Record(fields)),
                    Err(e) => Err(e),
                };
            }
            return Ok(ValueType::AnyRecord);
        }
        if self.at(TokenKind::LBrace) {
            return match self.parse_field_type_specification() {
                Ok(fields) => Ok(ValueType::Record(fields)),
                Err(e) => Err(e),
            };
        }
        self.parse_simple_value_type()
    }

    /// Reads a value type named by words: a character string, boolean, temporal, byte
    /// string or numeric type, or a named type.
    pub(crate) fn parse_simple_value_type(&mut self) -> (r: Result<ValueType, Error>)
        requires
            old(self).wf(),
        ensures
            final(self).wf(),
            same_input(final(self)@, old(self)@),
            old(self)@.pos <= final(self)@.pos,
            (rview(r), final(self)@.pos) == simple_value_type_step(old(self)@.input, old(self)@.pos),
    {
        let ghost v = old(self)@.input;
        if let Some(kind) = self.peek_character_string_type_kind() {
            self.bump();
            return self.parse_character_string_type(kind);
        }
        if let Some(kind) = self.peek_boolean_type_kind() {
            self.bump();
            return Ok(ValueType::Boolean { kind });
        }
        if let Some((kind, word_count)) = self.peek_temporal_type_kind() {
            let ghost p0 = self@.pos;
            let mut i: usize = 0;
            while i < word_count
                invariant
                    self.wf(),
                    same_input(self@, old(self)@),
                    v == old(self)@.input,
                    p0 == old(self)@.pos,
                    p0 <= self@.pos,
                    i <= word_count,
                    self@.pos == skip_tokens(v, p0, i as nat),
                decreases word_count - i,
            {
                self.bump();
                i += 1;
            }
            return Ok(ValueType::Temporal { kind });
        }
        if let Some(kind) = self.peek_byte_string_type_kind() {
            self.bump();
            return self.parse_byte_string_type(kind);
        }
        if let Some(kind) = self.peek_exact_numeric_type_kind() {
            self.bump();
            return self.parse_exact_numeric_type(kind);
        }
        if self.at(TokenKind::Identifier) {
            let text = chars_of(self.peek().text.as_str());
            if chars_eq_ignore_ascii_case(&text, "SIGNED") || chars_eq_ignore_ascii_case(&text, "UNSIGNED") {
                return self.parse_signed_or_unsigned_integer_type();
            }
        }
        if self.peek_integer_numeric_type_start() {
            return self.parse_integer_numeric_type(None);
        }
        if let Some(kind) = self.peek_approximate_numeric_type_kind() {
            let token = self.bump();
            return self.parse_approximate_numeric_type(kind, token.text);
        }
        self.parse_named_value_type()
    }

    /// Reads an optional node type definition after `NODE` or `VERTEX`.
    pub(crate) fn parse_optional_node_type_definition(&mut self) -> (r: Result<Option<NodeTypeDefinition>, Error>)
        requires
            old(self).wf(),
        ensures
            final(self).wf(),
            same_input(final(self)@, old(self)@),
            old(self)@.pos <= final(self)@.pos,
            (match r {
                Ok(Some(d)) => Ok(Some(d@)),
                Ok(None) => Ok(None),
                Err(e) => Err(e@),
            }, final(self)@.pos) == node_type_definition_step(old(self)@.input, old(self)@.pos),
        decreases old(self)@.input.tokens.len() - old(self)@.pos, 24int,
    {
        proof {
            self.lemma_valid();
        }
        if !self.eat_node_synonym() {
            let mut expected: Vec<TokenKind> = Vec::new();
            expected.push(TokenKind::Node);
            expected.push(TokenKind::Vertex);
            proof {
                assert(expected@ =~= seq![TokenKind::Node, TokenKind::Vertex]);
            }
            return Err(self.error_expected(expected, self.peek_kind()));
        }
        if self.at(TokenKind::Type) && matches!(self.peek_n_kind(1), Some(TokenKind::Identifier)) {
            self.bump();
        }
        if !self.at(TokenKind::Identifier) && !self.starts_node_type_filler() {
            return Ok(None);
        }
        let name = if self.starts_node_type_filler() {
            Identifier::new(String::new())
        } else {
            match self.parse_identifier() {
                Ok(id) => id,
                Err(e) => return Err(e),
            }
        };
        let labels = match self.parse_optional_type_label_list() {
            Ok(l) => l,
            Err(e) => return Err(e),
        };
        proof {
            self.lemma_valid();
        }
        let properties = match self.parse_optional_property_type_set() {
            Ok(p) => p,
            Err(e) => return Err(e),
        };
        Ok(Some(NodeTypeDefinition { name, labels, properties }))
    }

    /// Reads an optional edge type definition after `EDGE` or `RELATIONSHIP`, with edges
    /// pointing right unless the endpoints say otherwise.
    pub(crate) fn parse_optional_edge_type_definition(&mut self) -> (r: Result<Option<EdgeTypeDefinition>, Error>)
        requires
            old(self).wf(),
        ensures
            final(self).wf(),
            same_input(final(self)@, old(self)@),
            old(self)@.pos <= final(self)@.pos,
            (match r {
                Ok(Some(d)) => Ok(Some(d@)),
                Ok(None) => Ok(None),
                Err(e) => Err(e@),
            }, final(self)@.pos) == edge_type_definition_step(
                old(self)@.input,
                old(self)@.pos,
                Direction::Right,
                None,
            ),
        decreases old(self)@.input.tokens.len() - old(self)@.pos, 26int,
    {
        proof {
            self.lemma_valid();
        }
        self.parse_optional_edge_type_definition_with_direction(Direction::Right, None)
    }

    /// Reads an optional edge type definition after `EDGE` or `RELATIONSHIP`.
    pub(crate) fn parse_optional_edge_type_definition_with_direction(
        &mut self,
        default_direction: Direction,
        explicit_edge_kind: Option<Direction>,
    ) -> (r: Result<Option<EdgeTypeDefinition>, Error>)
        requires
            old(self).wf(),
        ensures
            final(self).wf(),
            same_input(final(self)@, old(self)@),
            old(self)@.pos <= final(self)@.pos,
            (match r {
                Ok(Some(d)) => Ok(Some(d@)),
                Ok(None) => Ok(None),
                Err(e) => Err(e@),
            }, final(self)@.pos) == edge_type_definition_step(
                old(self)@.input,
                old(self)@.pos,
                default_direction,
                explicit_edge_kind,
            ),
        decreases old(self)@.input.tokens.len() - old(self)@.pos, 24int,
    {
        proof {
            self.lemma_valid();
        }
        if !self.eat_edge_synonym() {
            let mut expected: Vec<TokenKind> = Vec::new();
            expected.push(TokenKind::Edge);
            expected.push(TokenKind::Relationship);
            proof {
                assert(expected@ =~= seq![TokenKind::Edge, TokenKind::Relationship]);
            }
            return Err(self.error_expected(expected, self.peek_kind()));
        }
        if self.at(TokenKind::Type) && matches!(self.peek_n_kind(1), Some(TokenKind::Identifier)) {
            self.bump();
        }
        if !self.at(TokenKind::Identifier) && !self.starts_node_type_filler() {
            return Ok(None);
        }
        let name = if self.starts_node_type_filler() {
            Identifier::new(String::new())
        } else {
            match self.parse_identifier() {
                Ok(id) => id,
                Err(e) => return Err(e),
            }
        };
        let labels = match self.parse_optional_type_label_list() {
            Ok(l) => l,
            Err(e) => return Err(e),
        };
        proof {
            self.lemma_valid();
        }
        let (direction, source, destination, properties) = match self.parse_edge_type_tail(
            default_direction,
            explicit_edge_kind,
        ) {
            Ok(t) => t,
            Err(e) => return Err(e),
        };
        Ok(Some(EdgeTypeDefinition { name, direction, labels, source, destination, properties }))
    }
}

impl Parser {
    /// Reads a graph type element: a node type phrase, an edge type phrase, or a node type
    /// in parentheses, which may start an edge type pattern.
    #[verifier::rlimit(80)]
    pub fn parse_graph_type_element(&mut self, context: GraphTypeElementContext) -> (r: Result<GraphTypeElement, Error>)
        requires
            old(self).wf(),
        ensures
            final(self).wf(),
            same_input(final(self)@, old(self)@),
            old(self)@.pos <= final(self)@.pos,
            (rview(r), final(self)@.pos) == graph_type_element_step(old(self)@.input, old(self)@.pos, context),
        decreases old(self)@.input.tokens.len() - old(self)@.pos, 24int,
    {
        proof {
            self.lemma_valid();
        }
        let offset = self.peek().offset;
        let edge_kind = self.parse_optional_edge_kind_before_synonym();
        if self.eat_node_synonym() {
            let name = if self.starts_node_type_filler() {
                Identifier::new(String::new())
            } else {
                match self.parse_type_phrase_name() {
                    Ok(id) => id,
                    Err(e) => return Err(e),
                }
            };
            let labels = match self.parse_optional_type_label_list() {
                Ok(l) => l,
                Err(e) => return Err(e),
            };
            proof {
                self.lemma_valid();
            }
            let properties = match self.parse_optional_property_type_set() {
                Ok(p) => p,
                Err(e) => return Err(e),
            };
            Ok(GraphTypeElement::Node(NodeTypeDefinition { name, labels, properties }))
        } else if edge_kind.is_some() || self.eat_edge_synonym() {
            if edge_kind.is_some() {
                if !self.eat_edge_synonym() {
                    let mut expected: Vec<TokenKind> = Vec::new();
                    expected.push(TokenKind::Edge);
                    expected.push(TokenKind::Relationship);
                    proof {
                        assert(expected@ =~= seq![TokenKind::Edge, TokenKind::Relationship]);
                    }
                    return Err(self.error_expected(expected, self.peek_kind()));
                }
            }
            let name = if self.starts_node_type_filler() {
                Identifier::new(String::new())
            } else {
                match self.parse_type_phrase_name() {
                    Ok(id) => id,
                    Err(e) => return Err(e),
                }
            };
            if let Err(e) = validate_graph_type_body_edge_phrase(context, edge_kind, &name, offset) {
                return Err(e);
            }
            let labels = match self.parse_optional_type_label_list() {
                Ok(l) => l,
                Err(e) => return Err(e),
            };
            proof {
                self.lemma_valid();
            }
            let default_direction = match edge_kind {
                Some(d) => d,
                None => Direction::Right,
            };
            let (direction, source, destination, properties) = match self.parse_edge_type_tail(
                default_direction,
                edge_kind,
            ) {
                Ok(t) => t,
                Err(e) => return Err(e),
            };
            Ok(
                GraphTypeElement::Edge(
                    EdgeTypeDefinition { name, direction, labels, source, destination, properties },
                ),
            )
        } else if self.eat(TokenKind::LParen).is_some() {
            let name = if self.at(TokenKind::RParen) || self.starts_node_type_filler() {
                None
            } else {
                match self.parse_identifier() {
                    Ok(id) => Some(id),
                    Err(e) => return Err(e),
                }
            };
            if self.eat(TokenKind::RParen).is_some() {
                proof {
                    self.lemma_valid();
                }
                if self.starts_full_edge_type_arc() {
                    return self.parse_full_edge_type_pattern_after_left_node(name);
                }
                let name = match name {
                    Some(n) => n,
                    None => Identifier::new(String::new()),
                };
                let labels: Vec<Identifier> = Vec::new();
                let properties: Vec<PropertyTypeDefinition> = Vec::new();
                proof {
                    lemma_empty_views();
                    assert(identifiers_view(labels@) =~= Seq::<Seq<char>>::empty());
                    assert(properties@ =~= Seq::<PropertyTypeDefinition>::empty());
                }
                return Ok(GraphTypeElement::Node(NodeTypeDefinition { name, labels, properties }));
            }
            let labels = match self.parse_optional_type_label_list() {
                Ok(l) => l,
                Err(e) => return Err(e),
            };
            proof {
                self.lemma_valid();
            }
            let properties = match self.parse_optional_property_type_set() {
                Ok(p) => p,
                Err(e) => return Err(e),
            };
            if let Err(e) = self.expect(TokenKind::RParen) {
                return Err(e);
            }
            proof {
                self.lemma_valid();
            }
            if self.starts_full_edge_type_arc() {
                return self.parse_full_edge_type_pattern_after_left_node(name);
            }
            let name = match name {
                Some(n) => n,
                None => Identifier::new(String::new()),
            };
            Ok(GraphTypeElement::Node(NodeTypeDefinition { name, labels, properties }))
        } else {
            let mut expected: Vec<TokenKind> = Vec::new();
            expected.push(TokenKind::Node);
            expected.push(TokenKind::Vertex);
            expected.push(TokenKind::Edge);
            expected.push(TokenKind::Relationship);
            expected.push(TokenKind::LParen);
            proof {
                assert(expected@ =~= seq![
                    TokenKind::Node,
                    TokenKind::Vertex,
                    TokenKind::Edge,
                    TokenKind::Relationship,
                    TokenKind::LParen,
                ]);
            }
            Err(self.error_expected(expected, self.peek_kind()))
        }
    }

    /// Reads a bracketed arc filler, its brackets, the arc's end `close` and the node type
    /// in parentheses after it.
    pub(crate) fn parse_bracketed_arc(&mut self, close: TokenKind) -> (r: Result<
        (Identifier, Vec<Identifier>, Vec<PropertyTypeDefinition>, Option<Identifier>),
        Error,
    >)
        requires
            old(self).wf(),
        ensures
            final(self).wf(),
            same_input(final(self)@, old(self)@),
            old(self)@.pos <= final(self)@.pos,
            (match r {
                Ok((n, l, p, o)) => Ok((n@, identifiers_view(l@), property_types_view(p@), opt_id(o))),
                Err(e) => Err(e@),
            }, final(self)@.pos) == bracketed_arc_step(old(self)@.input, old(self)@.pos, close),
        decreases old(self)@.input.tokens.len() - old(self)@.pos, 20int,
    {
        proof {
            self.lemma_valid();
        }
        if let Err(e) = self.expect(TokenKind::LBracket) {
            return Err(e);
        }
        proof {
            self.lemma_valid();
        }
        let (name, labels, properties) = match self.parse_named_arc_type_filler() {
            Ok(t) => t,
            Err(e) => return Err(e),
        };
        if let Err(e) = self.expect(TokenKind::RBracket) {
            return Err(e);
        }
        if let Err(e) = self.expect(close) {
            return Err(e);
        }
        proof {
            self.lemma_valid();
        }
        let node = match self.parse_parenthesized_node_type_reference() {
            Ok(n) => n,
            Err(e) => return Err(e),
        };
        Ok((name, labels, properties, node))
    }

    /// Reads an edge type pattern after its left node type `left_node`.
    pub(crate) fn parse_full_edge_type_pattern_after_left_node(&mut self, left_node: Option<Identifier>) -> (r: Result<GraphTypeElement, Error>)
        requires
            old(self).wf(),
        ensures
            final(self).wf(),
            same_input(final(self)@, old(self)@),
            old(self)@.pos <= final(self)@.pos,
            (rview(r), final(self)@.pos) == full_edge_type_pattern_step(
                old(self)@.input,
                old(self)@.pos,
                opt_id(left_node),
            ),
        decreases old(self)@.input.tokens.len() - old(self)@.pos, 22int,
    {
        proof {
            self.lemma_valid();
        }
        let ghost left = opt_id(left_node);
        proof {
            lemma_empty_views();
        }
        let no_labels: Vec<Identifier> = Vec::new();
        let no_properties: Vec<PropertyTypeDefinition> = Vec::new();
        proof {
            assert(identifiers_view(no_labels@) =~= Seq::<Seq<char>>::empty());
            assert(no_properties@ =~= Seq::<PropertyTypeDefinition>::empty());
        }
        if self.eat(TokenKind::ArrowRight).is_some() {
            proof {
                self.lemma_valid();
            }
            let destination = match self.parse_parenthesized_node_type_reference() {
                Ok(n) => n,
                Err(e) => return Err(e),
            };
            return Ok(
                GraphTypeElement::Edge(
                    EdgeTypeDefinition {
                        name: Identifier::new(String::new()),
                        direction: Direction::Right,
                        labels: no_labels,
                        source: left_node,
                        destination,
                        properties: no_properties,
                    },
                ),
            );
        }
        if self.eat(TokenKind::Minus).is_some() {
            proof {
                self.lemma_valid();
            }
            let (name, labels, properties, destination) = match self.parse_bracketed_arc(TokenKind::ArrowRight) {
                Ok(t) => t,
                Err(e) => return Err(e),
            };
            return Ok(
                GraphTypeElement::Edge(
                    EdgeTypeDefinition {
                        name,
                        direction: Direction::Right,
                        labels,
                        source: left_node,
                        destination,
                        properties,
                    },
                ),
            );
        }
        if self.eat(TokenKind::Tilde).is_some() {
            proof {
                self.lemma_valid();
            }
            if self.at(TokenKind::LParen) {
                let destination = match self.parse_parenthesized_node_type_reference() {
                    Ok(n) => n,
                    Err(e) => return Err(e),
                };
                return Ok(
                    GraphTypeElement::Edge(
                        EdgeTypeDefinition {
                            name: Identifier::new(String::new()),
                            direction: Direction::Undirected,
                            labels: no_labels,
                            source: left_node,
                            destination,
                            properties: no_properties,
                        },
                    ),
                );
            }
            let (name, labels, properties, destination) = match self.parse_bracketed_arc(TokenKind::Tilde) {
                Ok(t) => t,
                Err(e) => return Err(e),
            };
            return Ok(
                GraphTypeElement::Edge(
                    EdgeTypeDefinition {
                        name,
                        direction: Direction::Undirected,
                        labels,
                        source: left_node,
                        destination,
                        properties,
                    },
                ),
            );
        }
        if let Err(e) = self.expect(TokenKind::ArrowLeft) {
            return Err(e);
        }
        proof {
            self.lemma_valid();
        }
        if self.at(TokenKind::LParen) {
            let source = match self.parse_parenthesized_node_type_reference() {
                Ok(n) => n,
                Err(e) => return Err(e),
            };
            return Ok(
                GraphTypeElement::Edge(
                    EdgeTypeDefinition {
                        name: Identifier::new(String::new()),
                        direction: Direction::Right,
                        labels: no_labels,
                        source,
                        destination: left_node,
                        properties: no_properties,
                    },
                ),
            );
        }
        let (name, labels, properties, source) = match self.parse_bracketed_arc(TokenKind::Minus) {
            Ok(t) => t,
            Err(e) => return Err(e),
        };
        Ok(
            GraphTypeElement::Edge(
                EdgeTypeDefinition {
                    name,
                    direction: Direction::Right,
                    labels,
                    source,
                    destination: left_node,
                    properties,
                },
            ),
        )
    }

    /// Reads what fills an arc's brackets: an optional name, labels and properties.
    pub(crate) fn parse_named_arc_type_filler(&mut self) -> (r: Result<
        (Identifier, Vec<Identifier>, Vec<PropertyTypeDefinition>),
        Error,
    >)
        requires
            old(self).wf(),
        ensures
            final(self).wf(),
            same_input(final(self)@, old(self)@),
            old(self)@.pos <= final(self)@.pos,
            (match r {
                Ok((n, l, p)) => Ok((n@, identifiers_view(l@), property_types_view(p@))),
                Err(e) => Err(e@),
            }, final(self)@.pos) == named_arc_filler_step(old(self)@.input, old(self)@.pos),
        decreases old(self)@.input.tokens.len() - old(self)@.pos, 16int,
    {
        proof {
            self.lemma_valid();
        }
        let name = if self.at(TokenKind::RBracket) || self.starts_node_type_filler() {
            Identifier::new(String::new())
        } else {
            match self.parse_identifier() {
                Ok(id) => id,
                Err(e) => return Err(e),
            }
        };
        let labels = match self.parse_optional_type_label_list() {
            Ok(l) => l,
            Err(e) => return Err(e),
        };
        proof {
            self.lemma_valid();
        }
        let properties = match self.parse_optional_property_type_set() {
            Ok(p) => p,
            Err(e) => return Err(e),
        };
        Ok((name, labels, properties))
    }

    /// Reads a node type in parentheses at an end of an edge type: its name, if it has
    /// one; without a name, its labels and properties are read and dropped.
    pub(crate) fn parse_parenthesized_node_type_reference(&mut self) -> (r: Result<Option<Identifier>, Error>)
        requires
            old(self).wf(),
        ensures
            final(self).wf(),
            same_input(final(self)@, old(self)@),
            old(self)@.pos <= final(self)@.pos,
            (match r {
                Ok(n) => Ok(opt_id(n)),
                Err(e) => Err(e@),
            }, final(self)@.pos) == parenthesized_node_reference_step(old(self)@.input, old(self)@.pos),
        decreases old(self)@.input.tokens.len() - old(self)@.pos, 16int,
    {
        proof {
            self.lemma_valid();
        }
        if let Err(e) = self.expect(TokenKind::LParen) {
            return Err(e);
        }
        let name = if self.at(TokenKind::RParen) || self.starts_node_type_filler() {
            None
        } else {
            match self.parse_identifier() {
                Ok(id) => Some(id),
                Err(e) => return Err(e),
            }
        };
        if name.is_none() {
            if let Err(e) = self.parse_optional_type_label_list() {
                return Err(e);
            }
            proof {
                self.lemma_valid();
            }
            if let Err(e) = self.parse_optional_property_type_set() {
                return Err(e);
            }
        }
        if let Err(e) = self.expect(TokenKind::RParen) {
            return Err(e);
        }
        Ok(name)
    }

    /// Reads the tail of an edge type phrase: properties, then `CONNECTING` and an endpoint
    /// pair or `FROM` and `TO`, then properties if none came before.
    pub(crate) fn parse_edge_type_tail(
        &mut self,
        default_direction: Direction,
        explicit_edge_kind: Option<Direction>,
    ) -> (r: Result<
        (Direction, Option<Identifier>, Option<Identifier>, Vec<PropertyTypeDefinition>),
        Error,
    >)
        requires
            old(self).wf(),
        ensures
            final(self).wf(),
            same_input(final(self)@, old(self)@),
            old(self)@.pos <= final(self)@.pos,
            (match r {
                Ok((d, a, b, p)) => Ok((d, opt_id(a), opt_id(b), property_types_view(p@))),
                Err(e) => Err(e@),
            }, final(self)@.pos) == edge_type_tail_step(
                old(self)@.input,
                old(self)@.pos,
                default_direction,
                explicit_edge_kind,
            ),
        decreases old(self)@.input.tokens.len() - old(self)@.pos, 20int,
    {
        proof {
            self.lemma_valid();
        }
        let mut properties = match self.parse_optional_property_type_set() {
            Ok(p) => p,
            Err(e) => return Err(e),
        };
        let (direction, source, destination) = if self.eat(TokenKind::Connecting).is_some() {
            proof {
                self.lemma_valid();
            }
            match self.parse_endpoint_pair_definition(default_direction, explicit_edge_kind) {
                Ok(t) => t,
                Err(e) => return Err(e),
            }
        } else {
            match self.parse_from_to() {
                Ok((source, destination)) => (default_direction, source, destination),
                Err(e) => return Err(e),
            }
        };
        proof {
            self.lemma_valid();
            lemma_property_types_view(properties@);
        }
        if properties.len() == 0 {
            properties = match self.parse_optional_property_type_set() {
                Ok(p) => p,
                Err(e) => return Err(e),
            };
        }
        Ok((direction, source, destination, properties))
    }

    /// Reads an endpoint pair in parentheses.
    pub(crate) fn parse_endpoint_pair_definition(
        &mut self,
        default_direction: Direction,
        explicit_edge_kind: Option<Direction>,
    ) -> (r: Result<(Direction, Option<Identifier>, Option<Identifier>), Error>)
        requires
            old(self).wf(),
        ensures
            final(self).wf(),
            same_input(final(self)@, old(self)@),
            old(self)@.pos <= final(self)@.pos,
            (match r {
                Ok((d, a, b)) => Ok((d, opt_id(a), opt_id(b))),
                Err(e) => Err(e@),
            }, final(self)@.pos) == endpoint_pair_step(
                old(self)@.input,
                old(self)@.pos,
                default_direction,
                explicit_edge_kind,
            ),
        decreases old(self)@.input.tokens.len() - old(self)@.pos, 18int,
    {
        proof {
            self.lemma_valid();
        }
        if let Err(e) = self.expect(TokenKind::LParen) {
            return Err(e);
        }
        let first = match self.parse_identifier() {
            Ok(id) => id,
            Err(e) => return Err(e),
        };
        if self.eat(TokenKind::RParen).is_some() {
            let left_node = Some(first);
            if self.at(TokenKind::ArrowRight) {
                let offset = self.bump().offset;
                if let Err(e) = validate_endpoint_pair_shape(explicit_edge_kind, Direction::Right, offset) {
                    return Err(e);
                }
                proof {
                    self.lemma_valid();
                }
                let other = match self.parse_parenthesized_node_type_reference() {
                    Ok(n) => n,
                    Err(e) => return Err(e),
                };
                return Ok((Direction::Right, left_node, other));
            }
            if self.at(TokenKind::ArrowLeft) {
                let offset = self.bump().offset;
                if let Err(e) = validate_endpoint_pair_shape(explicit_edge_kind, Direction::Right, offset) {
                    return Err(e);
                }
                proof {
                    self.lemma_valid();
                }
                let other = match self.parse_parenthesized_node_type_reference() {
                    Ok(n) => n,
                    Err(e) => return Err(e),
                };
                return Ok((Direction::Right, other, left_node));
            }
            if self.at(TokenKind::Tilde) {
                let offset = self.bump().offset;
                if let Err(e) = validate_endpoint_pair_shape(
                    explicit_edge_kind,
                    Direction::Undirected,
                    offset,
                ) {
                    return Err(e);
                }
                proof {
                    self.lemma_valid();
                }
                let other = match self.parse_parenthesized_node_type_reference() {
                    Ok(n) => n,
                    Err(e) => return Err(e),
                };
                return Ok((Direction::Undirected, left_node, other));
            }
            let mut expected: Vec<TokenKind> = Vec::new();
            expected.push(TokenKind::To);
            expected.push(TokenKind::ArrowRight);
            expected.push(TokenKind::ArrowLeft);
            expected.push(TokenKind::Tilde);
            proof {
                assert(expected@ =~= endpoint_continuations());
            }
            return Err(self.error_expected(expected, self.peek_kind()));
        }
        let (direction, source, destination) = if self.eat(TokenKind::To).is_some() {
            match self.parse_identifier() {
                Ok(second) => (default_direction, Some(first), Some(second)),
                Err(e) => return Err(e),
            }
        } else if self.at(TokenKind::ArrowRight) {
            let offset = self.bump().offset;
            if let Err(e) = validate_endpoint_pair_shape(explicit_edge_kind, Direction::Right, offset) {
                return Err(e);
            }
            match self.parse_identifier() {
                Ok(second) => (Direction::Right, Some(first), Some(second)),
                Err(e) => return Err(e),
            }
        } else if self.at(TokenKind::Tilde) {
            let offset = self.bump().offset;
            if let Err(e) = validate_endpoint_pair_shape(explicit_edge_kind, Direction::Undirected, offset) {
                return Err(e);
            }
            match self.parse_identifier() {
                Ok(second) => (Direction::Undirected, Some(first), Some(second)),
                Err(e) => return Err(e),
            }
        } else if self.at(TokenKind::ArrowLeft) {
            let offset = self.bump().offset;
            if let Err(e) = validate_endpoint_pair_shape(explicit_edge_kind, Direction::Right, offset) {
                return Err(e);
            }
            match self.parse_identifier() {
                Ok(second) => (Direction::Right, Some(second), Some(first)),
                Err(e) => return Err(e),
            }
        } else {
            let mut expected: Vec<TokenKind> = Vec::new();
            expected.push(TokenKind::To);
            expected.push(TokenKind::ArrowRight);
            expected.push(TokenKind::ArrowLeft);
            expected.push(TokenKind::Tilde);
            proof {
                assert(expected@ =~= endpoint_continuations());
            }
            return Err(self.error_expected(expected, self.peek_kind()));
        };
        if let Err(e) = self.expect(TokenKind::RParen) {
            return Err(e);
        }
        Ok((direction, source, destination))
    }

    /// Reads property types separated by commas, each with a name that no earlier one has,
    /// ignoring case.
    pub(crate) fn parse_property_type_list(&mut self) -> (r: Result<Vec<PropertyTypeDefinition>, Error>)
        requires
            old(self).wf(),
        ensures
            final(self).wf(),
            same_input(final(self)@, old(self)@),
            old(self)@.pos <= final(self)@.pos,
            (match r {
                Ok(ps) => Ok(property_types_view(ps@)),
                Err(e) => Err(e@),
            }, final(self)@.pos) == typed_names_rest(
                old(self)@.input,
                Seq::empty(),
                old(self)@.pos,
                "property"@,
            ),
        decreases old(self)@.input.tokens.len() - old(self)@.pos, 8int,
    {
        proof {
            self.lemma_valid();
        }
        let ghost v = old(self)@.input;
        let ghost target = typed_names_rest(v, Seq::empty(), old(self)@.pos, "property"@);
        let mut properties: Vec<PropertyTypeDefinition> = Vec::new();
        proof {
            lemma_empty_views();
            assert(properties@ =~= Seq::<PropertyTypeDefinition>::empty());
        }
        loop
            invariant_except_break
                target == typed_names_rest(v, property_types_view(properties@), self@.pos, "property"@),
            invariant
                self.wf(),
                same_input(self@, old(self)@),
                v == old(self)@.input,
                old(self)@.pos <= self@.pos,
                target == typed_names_rest(v, Seq::empty(), old(self)@.pos, "property"@),
            ensures
                target == (Ok::<Seq<FieldTypeView>, crate::error::ErrorView>(
                    property_types_view(properties@),
                ), self@.pos),
            decreases self@.input.tokens.len() - self@.pos,
        {
            proof {
                self.lemma_valid();
            }
            let offset = self.peek().offset;
            let name = match self.parse_identifier() {
                Ok(id) => id,
                Err(e) => return Err(e),
            };
            if has_property_named(&properties, &name) {
                return Err(duplicate_error("property", &name, offset));
            }
            if let Err(e) = self.parse_optional_typed_marker() {
                return Err(e);
            }
            proof {
                self.lemma_valid();
            }
            let value_type = match self.parse_value_type() {
                Ok(t) => t,
                Err(e) => return Err(e),
            };
            let property = PropertyTypeDefinition { name, value_type };
            proof {
                lemma_property_types_view_push(properties@, property);
            }
            properties.push(property);
            proof {
                self.lemma_valid();
            }
            if self.eat(TokenKind::Comma).is_none() {
                break;
            }
            proof {
                self.lemma_valid();
            }
        }
        Ok(properties)
    }

    /// Reads field types separated by commas, each with a name that no earlier one has,
    /// ignoring case.
    pub(crate) fn parse_field_type_list(&mut self) -> (r: Result<Vec<FieldType>, Error>)
        requires
            old(self).wf(),
        ensures
            final(self).wf(),
            same_input(final(self)@, old(self)@),
            old(self)@.pos <= final(self)@.pos,
            (match r {
                Ok(fs) => Ok(field_types_view(fs@)),
                Err(e) => Err(e@),
            }, final(self)@.pos) == typed_names_rest(
                old(self)@.input,
                Seq::empty(),
                old(self)@.pos,
                "field"@,
            ),
        decreases old(self)@.input.tokens.len() - old(self)@.pos, 8int,
    {
        proof {
            self.lemma_valid();
        }
        let ghost v = old(self)@.input;
        let ghost target = typed_names_rest(v, Seq::empty(), old(self)@.pos, "field"@);
        let mut fields: Vec<FieldType> = Vec::new();
        proof {
            lemma_empty_views();
            assert(fields@ =~= Seq::<FieldType>::empty());
        }
        loop
            invariant_except_break
                target == typed_names_rest(v, field_types_view(fields@), self@.pos, "field"@),
            invariant
                self.wf(),
                same_input(self@, old(self)@),
                v == old(self)@.input,
                old(self)@.pos <= self@.pos,
                target == typed_names_rest(v, Seq::empty(), old(self)@.pos, "field"@),
            ensures
                target == (Ok::<Seq<FieldTypeView>, crate::error::ErrorView>(field_types_view(fields@)), self@.pos),
            decreases self@.input.tokens.len() - self@.pos,
        {
            proof {
                self.lemma_valid();
            }
            let offset = self.peek().offset;
            let name = match self.parse_identifier() {
                Ok(id) => id,
                Err(e) => return Err(e),
            };
            if has_field_type_named(&fields, &name) {
                return Err(duplicate_error("field", &name, offset));
            }
            if let Err(e) = self.parse_optional_typed_marker() {
                return Err(e);
            }
            proof {
                self.lemma_valid();
            }
            let value_type = match self.parse_value_type() {
                Ok(t) => t,
                Err(e) => return Err(e),
            };
            let field = FieldType { name, value_type };
            proof {
                lemma_field_types_view_push(fields@, field);
            }
            fields.push(field);
            proof {
                self.lemma_valid();
            }
            if self.eat(TokenKind::Comma).is_none() {
                break;
            }
            proof {
                self.lemma_valid();
            }
        }
        Ok(fields)
    }

    /// Reads an optional set of property types in braces.
    pub(crate) fn parse_optional_property_type_set(&mut self) -> (r: Result<Vec<PropertyTypeDefinition>, Error>)
        requires
            old(self).wf(),
        ensures
            final(self).wf(),
            same_input(final(self)@, old(self)@),
            old(self)@.pos <= final(self)@.pos,
            (match r {
                Ok(ps) => Ok(property_types_view(ps@)),
                Err(e) => Err(e@),
            }, final(self)@.pos) == property_type_set_step(old(self)@.input, old(self)@.pos),
        decreases old(self)@.input.tokens.len() - old(self)@.pos, 12int,
    {
        proof {
            self.lemma_valid();
        }
        let mut properties: Vec<PropertyTypeDefinition> = Vec::new();
        proof {
            lemma_empty_views();
            assert(properties@ =~= Seq::<PropertyTypeDefinition>::empty());
        }
        if self.eat(TokenKind::LBrace).is_none() {
            return Ok(properties);
        }
        proof {
            self.lemma_valid();
        }
        if !self.at(TokenKind::RBrace) {
            properties = match self.parse_property_type_list() {
                Ok(ps) => ps,
                Err(e) => return Err(e),
            };
        }
        if let Err(e) = self.expect(TokenKind::RBrace) {
            return Err(e);
        }
        Ok(properties)
    }

    /// Reads a field type specification: field types in braces.
    pub(crate) fn parse_field_type_specification(&mut self) -> (r: Result<Vec<FieldType>, Error>)
        requires
            old(self).wf(),
        ensures
            final(self).wf(),
            same_input(final(self)@, old(self)@),
            old(self)@.pos <= final(self)@.pos,
            (match r {
                Ok(fs) => Ok(field_types_view(fs@)),
                Err(e) => Err(e@),
            }, final(self)@.pos) == field_type_spec_step(old(self)@.input, old(self)@.pos),
        decreases old(self)@.input.tokens.len() - old(self)@.pos, 12int,
    {
        proof {
            self.lemma_valid();
        }
        if let Err(e) = self.expect(TokenKind::LBrace) {
            return Err(e);
        }
        proof {
            self.lemma_valid();
        }
        let mut fields: Vec<FieldType> = Vec::new();
        proof {
            lemma_empty_views();
            assert(fields@ =~= Seq::<FieldType>::empty());
        }
        if !self.at(TokenKind::RBrace) {
            fields = match self.parse_field_type_list() {
                Ok(fs) => fs,
                Err(e) => return Err(e),
            };
        }
        if let Err(e) = self.expect(TokenKind::RBrace) {
            return Err(e);
        }
        Ok(fields)
    }

    /// Reads graph type elements separated by commas; no two of one kind may have the same
    /// name, ignoring case.
    pub(crate) fn parse_graph_type_elements(&mut self) -> (r: Result<Vec<GraphTypeElement>, Error>)
        requires
            old(self).wf(),
        ensures
            final(self).wf(),
            same_input(final(self)@, old(self)@),
            old(self)@.pos <= final(self)@.pos,
            (match r {
                Ok(es) => Ok(graph_type_elements_view(es@)),
                Err(e) => Err(e@),
            }, final(self)@.pos) == graph_type_elements_rest(old(self)@.input, Seq::empty(), old(self)@.pos),
        decreases old(self)@.input.tokens.len() - old(self)@.pos, 26int,
    {
        proof {
            self.lemma_valid();
        }
        let ghost v = old(self)@.input;
        let ghost target = graph_type_elements_rest(v, Seq::empty(), old(self)@.pos);
        let mut elements: Vec<GraphTypeElement> = Vec::new();
        proof {
            lemma_empty_views();
            assert(elements@ =~= Seq::<GraphTypeElement>::empty());
        }
        loop
            invariant_except_break
                target == graph_type_elements_rest(v, graph_type_elements_view(elements@), self@.pos),
            invariant
                self.wf(),
                same_input(self@, old(self)@),
                v == old(self)@.input,
                old(self)@.pos <= self@.pos,
                target == graph_type_elements_rest(v, Seq::empty(), old(self)@.pos),
            ensures
                target == (Ok::<Seq<GraphTypeElementView>, crate::error::ErrorView>(
                    graph_type_elements_view(elements@),
                ), self@.pos),
            decreases self@.input.tokens.len() - self@.pos,
        {
            proof {
                self.lemma_valid();
            }
            let offset = self.peek().offset;
            let element = match self.parse_graph_type_element(
                GraphTypeElementContext::GraphTypeSpecificationBody,
            ) {
                Ok(e) => e,
                Err(e) => return Err(e),
            };
            if let Err(e) = validate_graph_type_element_name(&elements, &element, offset) {
                return Err(e);
            }
            proof {
                lemma_graph_type_elements_view_push(elements@, element);
            }
            elements.push(element);
            proof {
                self.lemma_valid();
            }
            if self.eat(TokenKind::Comma).is_none() {
                break;
            }
            proof {
                self.lemma_valid();
            }
        }
        Ok(elements)
    }

    /// Reads a graph type body: elements in braces, whose edge endpoint node types the body
    /// defines.
    pub fn parse_nested_graph_type_body(&mut self) -> (r: Result<GraphTypeBody, Error>)
        requires
            old(self).wf(),
        ensures
            final(self).wf(),
            same_input(final(self)@, old(self)@),
            old(self)@.pos <= final(self)@.pos,
            (rview(r), final(self)@.pos) == nested_graph_type_body_step(old(self)@.input, old(self)@.pos),
        decreases old(self)@.input.tokens.len() - old(self)@.pos, 12int,
    {
        proof {
            self.lemma_valid();
        }
        if let Err(e) = self.expect(TokenKind::LBrace) {
            return Err(e);
        }
        proof {
            self.lemma_valid();
        }
        let mut elements: Vec<GraphTypeElement> = Vec::new();
        proof {
            lemma_empty_views();
            assert(elements@ =~= Seq::<GraphTypeElement>::empty());
        }
        if !self.at(TokenKind::RBrace) {
            elements = match self.parse_graph_type_elements() {
                Ok(es) => es,
                Err(e) => return Err(e),
            };
        }
        proof {
            lemma_graph_type_elements_view(elements@);
        }
        if let Err(e) = validate_graph_type_endpoint_node_types(&elements, self.peek().offset) {
            return Err(e);
        }
        if let Err(e) = self.expect(TokenKind::RBrace) {
            return Err(e);
        }
        Ok(GraphTypeBody { elements })
    }
}

} // verus!
