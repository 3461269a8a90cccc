use vstd::prelude::*;
use crate::ast::{
    collect_label_names, identifiers_view, label_names, Direction, Identifier, LabelExpression,
    LabelExpressionView, PathPatternQuantifier, QuerySetOperator, SetQuantifier, ValueType,
    ValueTypeView,
};
use crate::clause_grammar::{direction_override_prefix_step, direction_override_suffix_step};
use crate::error::{Error, ErrorView};
use crate::grammar::{label_and_step, path_quantifier_step, typed_marker_step};
use crate::parser::{
    eof_err, expected_err, kind_at, next_pos, rplain, rview, same_input, tok, InputView, Parser,
};
use crate::text::{chars_eq_ignore_ascii_case, chars_of, eq_ignore_ascii_case, push_str, string_from_chars};
use crate::token::{Token, TokenKind, TokenView};
use crate::type_grammar::value_type_step;

verus! {

/// The operator that joins two queries: `UNION`, `EXCEPT` or `INTERSECT` with an optional
/// `ALL` or `DISTINCT` (`DISTINCT` when neither is written), or `OTHERWISE` alone.
pub open spec fn query_conjunction_step(v: InputView, p: int) -> (
    Result<(QuerySetOperator, Option<SetQuantifier>), ErrorView>,
    int,
) {
    let k = kind_at(v, p);
    if k == TokenKind::Otherwise {
        (Ok((QuerySetOperator::Otherwise, None)), next_pos(v, p))
    } else if k == TokenKind::Union || k == TokenKind::Except || k == TokenKind::Intersect {
        let op = if k == TokenKind::Union {
            QuerySetOperator::Union
        } else if k == TokenKind::Except {
            QuerySetOperator::Except
        } else {
            QuerySetOperator::Intersect
        };
        let q = next_pos(v, p);
        if kind_at(v, q) == TokenKind::All {
            (Ok((op, Some(SetQuantifier::All))), next_pos(v, q))
        } else if kind_at(v, q) == TokenKind::Distinct {
            (Ok((op, Some(SetQuantifier::Distinct))), next_pos(v, q))
        } else {
            (Ok((op, Some(SetQuantifier::Distinct))), q)
        }
    } else {
        (
            Err(
                expected_err(
                    v,
                    p,
                    seq![TokenKind::Union, TokenKind::Except, TokenKind::Intersect, TokenKind::Otherwise],
                    k,
                ),
            ),
            p,
        )
    }
}

/// The optional type of a variable definition before its `=`: nothing when `=` follows at
/// once, else an optional `TYPED` marker and a value type.
pub open spec fn definition_value_type_step(v: InputView, p: int) -> (
    Result<(bool, Option<ValueTypeView>), ErrorView>,
    int,
) {
    if kind_at(v, p) == TokenKind::Eq {
        (Ok((false, None)), p)
    } else {
        match typed_marker_step(v, p) {
            (Err(e), q) => (Err(e), q),
            (Ok(typed), q) => if 0 <= q < v.tokens.len() {
                match value_type_step(v, q) {
                    (Err(e), q2) => (Err(e), q2),
                    (Ok(t), q2) => (Ok((typed, Some(t))), q2),
                }
            } else {
                (Ok((typed, None)), q)
            },
        }
    }
}

/// Whether `k` is the kind of a character string literal or a quoted word.
pub open spec fn is_string_token_kind(k: TokenKind) -> bool {
    k == TokenKind::String || k == TokenKind::DoubleQuotedString || k == TokenKind::QuotedString
}

/// A character string literal or a quoted word.
pub open spec fn character_string_token_step(v: InputView, p: int) -> (Result<TokenView, ErrorView>, int) {
    let k = kind_at(v, p);
    if is_string_token_kind(k) {
        (Ok(tok(v, p)), next_pos(v, p))
    } else if k == TokenKind::Eof {
        (Err(eof_err(v)), p)
    } else {
        (
            Err(
                ErrorView::UnexpectedToken {
                    offset: tok(v, p).offset,
                    expected: seq![TokenKind::String, TokenKind::DoubleQuotedString, TokenKind::QuotedString],
                    got: k,
                    token_text: tok(v, p).text,
                },
            ),
            p,
        )
    }
}

/// `EDGE` or `RELATIONSHIP`.
pub open spec fn expect_edge_synonym_step(v: InputView, p: int) -> (Result<(), ErrorView>, int) {
    let k = kind_at(v, p);
    if k == TokenKind::Edge || k == TokenKind::Relationship {
        (Ok(()), next_pos(v, p))
    } else {
        (Err(expected_err(v, p, seq![TokenKind::Edge, TokenKind::Relationship], k)), p)
    }
}

/// One relationship of a simplified path pattern: the label names of its label
/// expression, the expression, an optional direction override and an optional quantifier.
pub struct SimplifiedRelationshipBody {
    pub labels: Vec<Identifier>,
    pub label_expression: LabelExpression,
    pub direction_override: Option<Direction>,
    pub quantifier: Option<PathPatternQuantifier>,
}

/// The mathematical value of a [`SimplifiedRelationshipBody`].
pub struct SimplifiedRelationshipBodyView {
    pub labels: Seq<Seq<char>>,
    pub label_expression: LabelExpressionView,
    pub direction_override: Option<Direction>,
    pub quantifier: Option<PathPatternQuantifier>,
}

impl View for SimplifiedRelationshipBody {
    type V = SimplifiedRelationshipBodyView;

    open spec fn view(&self) -> SimplifiedRelationshipBodyView {
        SimplifiedRelationshipBodyView {
            labels: identifiers_view(self.labels@),
            label_expression: self.label_expression@,
            direction_override: self.direction_override,
            quantifier: self.quantifier,
        }
    }
}

/// The view of each body of a sequence.
pub open spec fn bodies_view(bs: Seq<SimplifiedRelationshipBody>) -> Seq<SimplifiedRelationshipBodyView> {
    bs.map_values(|b: SimplifiedRelationshipBody| b@)
}

/// One relationship of a simplified path pattern: an optional direction override prefix,
/// labels joined by `&` (with `!`, `%` and parentheses), an optional direction override
/// suffix and an optional quantifier.
pub open spec fn simplified_body_step(v: InputView, p: int) -> (Result<SimplifiedRelationshipBodyView, ErrorView>, int) {
    match direction_override_prefix_step(v, p) {
        (Err(e), q) => (Err(e), q),
        (Ok(leading), q) => if 0 <= q < v.tokens.len() {
            match label_and_step(v, q) {
                (Err(e), q2) => (Err(e), q2),
                (Ok(e), q2) => match direction_override_suffix_step(v, q2, leading) {
                    (Err(err), q3) => (Err(err), q3),
                    (Ok(d), q3) => match path_quantifier_step(v, q3) {
                        (Err(err), q4) => (Err(err), q4),
                        (Ok(quantifier), q4) => (
                            Ok(
                                SimplifiedRelationshipBodyView {
                                    labels: label_names(e),
                                    label_expression: e,
                                    direction_override: d,
                                    quantifier,
                                },
                            ),
                            q4,
                        ),
                    },
                },
            }
        } else {
            (Err(eof_err(v)), q)
        },
    }
}

/// Relationship bodies after the first ones, which made `acc`, up to a `/` or `|`.
pub open spec fn simplified_bodies_rest(v: InputView, acc: Seq<SimplifiedRelationshipBodyView>, p: int) -> (
    Result<Seq<SimplifiedRelationshipBodyView>, ErrorView>,
    int,
)
    decreases v.tokens.len() - p,
{
    let k = kind_at(v, p);
    if k == TokenKind::Slash || k == TokenKind::Pipe {
        (Ok(acc), p)
    } else {
        match simplified_body_step(v, p) {
            (Err(e), q) => (Err(e), q),
            (Ok(b), q) => if p < q <= v.tokens.len() {
                simplified_bodies_rest(v, acc.push(b), q)
            } else {
                (Ok(acc.push(b)), q)
            },
        }
    }
}

/// The relationship bodies of a simplified path pattern: at least one, up to a `/` or `|`.
pub open spec fn simplified_bodies_step(v: InputView, p: int) -> (
    Result<Seq<SimplifiedRelationshipBodyView>, ErrorView>,
    int,
) {
    match simplified_body_step(v, p) {
        (Err(e), q) => (Err(e), q),
        (Ok(b), q) => if p < q <= v.tokens.len() {
            simplified_bodies_rest(v, seq![b], q)
        } else {
            (Ok(seq![b]), q)
        },
    }
}

/// Whether an inserted element is a node or an edge.
#[derive(Clone, Copy, Debug, PartialEq, Eq, Structural)]
pub enum InsertElementKind {
    Node,
    Edge,
}

/// The mathematical value of an insert element declaration.
pub open spec fn declaration_view(d: (Identifier, InsertElementKind, bool)) -> (Seq<char>, InsertElementKind, bool) {
    (d.0@, d.1, d.2)
}

/// The mathematical value of a list of insert element declarations.
pub open spec fn declarations_view(ds: Seq<(Identifier, InsertElementKind, bool)>) -> Seq<
    (Seq<char>, InsertElementKind, bool),
> {
    ds.map_values(|d: (Identifier, InsertElementKind, bool)| declaration_view(d))
}

/// The kind of the first declaration of `name`, ignoring case, if there is one.
pub open spec fn first_declared_kind(ds: Seq<(Seq<char>, InsertElementKind, bool)>, name: Seq<char>) -> Option<
    InsertElementKind,
>
    decreases ds.len(),
{
    if ds.len() == 0 {
        None
    } else if eq_ignore_ascii_case(ds[0].0, name) {
        Some(ds[0].1)
    } else {
        first_declared_kind(ds.drop_first(), name)
    }
}

/// The error, if any, for declaring the variable `name` of an inserted element of `kind`
/// after the declarations `ds`: an edge variable may not repeat any element variable, nor
/// may a node variable repeat an edge variable, and a repeated node variable may not carry
/// labels or properties.
pub open spec fn insert_variable_err(
    ds: Seq<(Seq<char>, InsertElementKind, bool)>,
    name: Seq<char>,
    kind: InsertElementKind,
    has_label_or_property_set: bool,
    offset: int,
) -> Option<ErrorView> {
    match first_declared_kind(ds, name) {
        None => None,
        Some(existing) => if kind == InsertElementKind::Edge || existing == InsertElementKind::Edge {
            Some(
                ErrorView::Message {
                    offset,
                    message: "insert edge variable '"@ + name + "' cannot duplicate another element variable"@,
                },
            )
        } else if has_label_or_property_set {
            Some(
                ErrorView::Message {
                    offset,
                    message: "repeated insert element variable '"@ + name
                        + "' cannot contain labels or properties"@,
                },
            )
        } else {
            None
        },
    }
}

fn message_with(prefix: &str, name: &Identifier, suffix: &str, offset: usize) -> (e: Error)
    ensures
        e@ == (ErrorView::Message { offset: offset as int, message: prefix@ + name@ + suffix@ }),
{
    let mut m = chars_of(prefix);
    push_str(&mut m, name.value.as_str());
    push_str(&mut m, suffix);
    Error::Message { offset, message: string_from_chars(&m) }
}

/// Records the declaration of the variable of an inserted element, if it has one, unless
/// the declarations before it refuse it.
pub fn validate_insert_element_variable(
    variable: Option<&Identifier>,
    kind: InsertElementKind,
    has_label_or_property_set: bool,
    declarations: &mut Vec<(Identifier, InsertElementKind, bool)>,
    offset: usize,
) -> (r: Result<(), Error>)
    ensures
        match variable {
            None => r is Ok && final(declarations)@ == old(declarations)@,
            Some(var) => match insert_variable_err(
                declarations_view(old(declarations)@),
                var@,
                kind,
                has_label_or_property_set,
                offset as int,
            ) {
                Some(e) => (r matches Err(x) && x@ == e) && final(declarations)@ == old(declarations)@,
                None => r is Ok && declarations_view(final(declarations)@) == declarations_view(
                    old(declarations)@,
                ).push((var@, kind, has_label_or_property_set)),
            },
        },
{
    let var = match variable {
        None => return Ok(()),
        Some(v) => v,
    };
    let ghost ds = declarations_view(declarations@);
    let mut i: usize = 0;
    assert(ds.skip(0) =~= ds);
    let mut found: Option<InsertElementKind> = None;
    while i < declarations.len()
        invariant_except_break
            i <= declarations.len(),
            found is None,
            first_declared_kind(ds, var@) == first_declared_kind(ds.skip(i as int), var@),
        invariant
            ds == declarations_view(declarations@),
        ensures
            found == first_declared_kind(ds, var@),
        decreases declarations.len() - i,
    {
        assert(ds.skip(i as int)[0] == ds[i as int]);
        assert(ds.skip(i as int).drop_first() =~= ds.skip(i as int + 1));
        let existing = chars_of(declarations[i].0.value.as_str());
        if chars_eq_ignore_ascii_case(&existing, var.value.as_str()) {
            found = Some(declarations[i].1);
            break;
        }
        i += 1;
    }
    proof {
        if found is None {
            assert(ds.skip(declarations.len() as int) =~= Seq::<(Seq<char>, InsertElementKind, bool)>::empty());
        }
    }
    if let Some(existing) = found {
        if kind == InsertElementKind::Edge || existing == InsertElementKind::Edge {
            return Err(message_with("insert edge variable '", var, "' cannot duplicate another element variable", offset));
        }
        if has_label_or_property_set {
            return Err(message_with("repeated insert element variable '", var, "' cannot contain labels or properties", offset));
        }
    }
    let ghost before = declarations@;
    declarations.push((var.clone(), kind, has_label_or_property_set));
    proof {
        assert(declarations_view(declarations@) =~= declarations_view(before).push((var@, kind, has_label_or_property_set)));
    }
    Ok(())
}

impl Parser {
    /// Reads the operator that joins two queries.
    pub fn parse_query_conjunction(&mut self) -> (r: Result<(QuerySetOperator, Option<SetQuantifier>), Error>)
        requires
            old(self).wf(),
        ensures
            final(self).wf(),
            same_input(final(self)@, old(self)@),
            (rplain(r), final(self)@.pos) == query_conjunction_step(old(self)@.input, old(self)@.pos),
    {
        if self.eat(TokenKind::Otherwise).is_some() {
            return Ok((QuerySetOperator::Otherwise, None));
        }
        let operator = if self.eat(TokenKind::Union).is_some() {
            QuerySetOperator::Union
        } else if self.eat(TokenKind::Except).is_some() {
            QuerySetOperator::Except
        } else if self.eat(TokenKind::Intersect).is_some() {
            QuerySetOperator::Intersect
        } else {
            let expected = vec![TokenKind::Union, TokenKind::Except, TokenKind::Intersect, TokenKind::Otherwise];
            assert(expected@ =~= seq![TokenKind::Union, TokenKind::Except, TokenKind::Intersect, TokenKind::Otherwise]);
            let k = self.peek_kind();
            return Err(self.error_expected(expected, k));
        };
        let quantifier = if self.eat(TokenKind::All).is_some() {
            Some(SetQuantifier::All)
        } else {
            self.eat(TokenKind::Distinct);
            Some(SetQuantifier::Distinct)
        };
        Ok((operator, quantifier))
    }

    /// Reads the optional type of a variable definition before its `=`.
    pub fn parse_optional_definition_value_type(&mut self) -> (r: Result<(bool, Option<ValueType>), Error>)
        requires
            old(self).wf(),
        ensures
            final(self).wf(),
            same_input(final(self)@, old(self)@),
            (match r {
                Ok((typed, Some(t))) => Ok((typed, Some(t@))),
                Ok((typed, None)) => Ok((typed, None)),
                Err(e) => Err(e@),
            }, final(self)@.pos) == definition_value_type_step(old(self)@.input, old(self)@.pos),
    {
        if self.at(TokenKind::Eq) {
            return Ok((false, None));
        }
        let typed = match self.parse_optional_typed_marker() {
            Ok(b) => b,
            Err(e) => return Err(e),
        };
        proof {
            self.lemma_valid();
        }
        match self.parse_value_type() {
            Ok(t) => Ok((typed, Some(t))),
            Err(e) => Err(e),
        }
    }

    /// Reads a character string literal or a quoted word.
    pub fn parse_character_string_token(&mut self) -> (r: Result<Token, Error>)
        requires
            old(self).wf(),
        ensures
            final(self).wf(),
            same_input(final(self)@, old(self)@),
            old(self)@.pos <= final(self)@.pos,
            (match r {
                Ok(t) => Ok(t@),
                Err(e) => Err(e@),
            }, final(self)@.pos) == character_string_token_step(old(self)@.input, old(self)@.pos),
    {
        let k = self.peek_kind();
        if self.is_character_string_token(k) {
            Ok(self.bump())
        } else if k == TokenKind::Eof {
            Err(self.eof_error())
        } else {
            let got = self.peek().clone();
            let expected = vec![TokenKind::String, TokenKind::DoubleQuotedString, TokenKind::QuotedString];
            assert(expected@ =~= seq![TokenKind::String, TokenKind::DoubleQuotedString, TokenKind::QuotedString]);
            Err(Error::expected(got.offset, expected, got.kind, got.text))
        }
    }

    /// Reads `EDGE` or `RELATIONSHIP`.
    pub fn expect_edge_synonym(&mut self) -> (r: Result<(), Error>)
        requires
            old(self).wf(),
        ensures
            final(self).wf(),
            same_input(final(self)@, old(self)@),
            (rplain(r), final(self)@.pos) == expect_edge_synonym_step(old(self)@.input, old(self)@.pos),
    {
        if self.eat(TokenKind::Edge).is_some() || self.eat(TokenKind::Relationship).is_some() {
            Ok(())
        } else {
            let expected = vec![TokenKind::Edge, TokenKind::Relationship];
            assert(expected@ =~= seq![TokenKind::Edge, TokenKind::Relationship]);
            let k = self.peek_kind();
            Err(self.error_expected(expected, k))
        }
    }

    /// Reads one relationship of a simplified path pattern.
    pub fn parse_simplified_relationship_body(&mut self) -> (r: Result<SimplifiedRelationshipBody, Error>)
        requires
            old(self).wf(),
        ensures
            final(self).wf(),
            same_input(final(self)@, old(self)@),
            (rview(r), final(self)@.pos) == simplified_body_step(old(self)@.input, old(self)@.pos),
    {
        let leading = match self.parse_optional_simplified_direction_override_prefix() {
            Ok(d) => d,
            Err(e) => return Err(e),
        };
        proof {
            self.lemma_valid();
        }
        let label_expression = match self.parse_simplified_label_expression() {
            Ok(e) => e,
            Err(e) => return Err(e),
        };
        let mut labels: Vec<Identifier> = Vec::new();
        collect_label_names(&label_expression, &mut labels);
        assert(identifiers_view(Seq::<Identifier>::empty()) =~= Seq::<Seq<char>>::empty());
        assert(identifiers_view(labels@) =~= label_names(label_expression@));
        let direction_override = match self.parse_optional_simplified_direction_override_suffix(leading) {
            Ok(d) => d,
            Err(e) => return Err(e),
        };
        let quantifier = match self.parse_optional_path_quantifier() {
            Ok(q) => q,
            Err(e) => return Err(e),
        };
        Ok(SimplifiedRelationshipBody { labels, label_expression, direction_override, quantifier })
    }

    /// Reads the relationship bodies of a simplified path pattern: at least one, up to a `/`
    /// or `|`.
    pub fn parse_simplified_relationship_body_sequence(&mut self) -> (r: Result<Vec<SimplifiedRelationshipBody>, Error>)
        requires
            old(self).wf(),
        ensures
            final(self).wf(),
            same_input(final(self)@, old(self)@),
            (match r {
                Ok(bs) => Ok(bodies_view(bs@)),
                Err(e) => Err(e@),
            }, final(self)@.pos) == simplified_bodies_step(old(self)@.input, old(self)@.pos),
    {
        let ghost v = old(self)@.input;
        let ghost p0 = old(self)@.pos;
        let start = self.position();
        let first = match self.parse_simplified_relationship_body() {
            Ok(b) => b,
            Err(e) => return Err(e),
        };
        let mut bodies: Vec<SimplifiedRelationshipBody> = Vec::new();
        bodies.push(first);
        assert(bodies_view(bodies@) =~= seq![bodies@[0]@]);
        proof {
            self.lemma_valid();
        }
        if self.position() <= start {
            return Ok(bodies);
        }
        loop
            invariant
                self.wf(),
                self@.input == v,
                v == old(self)@.input,
                p0 == old(self)@.pos,
                simplified_bodies_step(v, p0) == simplified_bodies_rest(v, bodies_view(bodies@), self@.pos),
            decreases v.tokens.len() - self@.pos,
        {
            let k = self.peek_kind();
            if k == TokenKind::Slash || k == TokenKind::Pipe {
                return Ok(bodies);
            }
            let before = self.position();
            let b = match self.parse_simplified_relationship_body() {
                Ok(b) => b,
                Err(e) => return Err(e),
            };
            let ghost old_bodies = bodies@;
            bodies.push(b);
            assert(bodies_view(bodies@) =~= bodies_view(old_bodies).push(b@));
            proof {
                self.lemma_valid();
            }
            if self.position() <= before {
                return Ok(bodies);
            }
        }
    }
}

} // verus!
