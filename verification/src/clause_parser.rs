use vstd::prelude::*;
use crate::ast::{
    identifiers_view, Direction, Identifier, LabelExpression, MatchMode, PathPatternAlternation,
    SchemaReference, SqlIntervalQualifier, TrimSpec, YieldClause, YieldItem, YieldItemView,
};
use crate::clause_grammar::{
    alternation_operator_at, alternation_operator_step, at_schema_clause_step,
    direction_override_prefix_step, direction_override_suffix_step, element_variable_list_step,
    has_name, identifiers_rest, insert_label_set_step, interval_end_field_step, interval_field_kind,
    interval_field_name_step, interval_range_valid, interval_start_field_step, label_conjunction,
    match_mode_step, normal_form_step, scope_variables_rest, simplified_prefix_step,
    simplified_suffix_step, sql_interval_qualifier_step, starts_binding_variable_definition,
    starts_session_activity_command, starts_session_close_command,
    starts_simple_catalog_modifying_statement, trim_specification_step, variable_scope_step,
    yield_items_rest, SimplifiedPrefix, SqlIntervalFieldKind,
};
use crate::error::{Error, ErrorView};
use crate::grammar::message_at;
use crate::parser::{rplain, rview, same_input, Parser};
use crate::text::{chars_eq_ignore_ascii_case, chars_of, eq_ignore_ascii_case, push_str, string_from_chars};
use crate::token::TokenKind;
use crate::type_grammar::push_if_absent;
use crate::type_parser::push_identifier_if_absent;

verus! {

/// Whether `names` holds an identifier equal to `name` when the case of ASCII letters is
/// ignored.
pub fn has_identifier(names: &Vec<Identifier>, name: &Identifier) -> (r: bool)
    ensures
        r == has_name(identifiers_view(names@), name@),
{
    let ghost ns = identifiers_view(names@);
    let mut i: usize = 0;
    while i < names.len()
        invariant
            ns == identifiers_view(names@),
            ns.len() == names.len(),
            i <= names.len(),
            forall|j: int| 0 <= j < i ==> !eq_ignore_ascii_case(#[trigger] ns[j], name@),
        decreases names.len() - i,
    {
        let text = chars_of(names[i].value.as_str());
        if chars_eq_ignore_ascii_case(&text, name.value.as_str()) {
            proof {
                assert(ns[i as int] == names@[i as int]@);
                assert(eq_ignore_ascii_case(ns[i as int], name@));
            }
            return true;
        }
        i += 1;
    }
    false
}

/// The message `prefix`, the identifier and `suffix`, at `offset`.
fn message_with_name(prefix: &str, name: &Identifier, suffix: &str, offset: usize) -> (e: Error)
    ensures
        e@ == (ErrorView::Message { offset: offset as int, message: prefix@ + name@ + suffix@ }),
{
    let mut m = chars_of(prefix);
    push_str(&mut m, name.value.as_str());
    push_str(&mut m, suffix);
    Error::Message { offset, message: string_from_chars(&m) }
}

/// Whether an interval may run from the field `start` to the field `end`.
pub fn is_valid_interval_range(start: SqlIntervalFieldKind, end: SqlIntervalFieldKind) -> (r: bool)
    ensures
        r == interval_range_valid(start, end),
{
    match (start, end) {
        (SqlIntervalFieldKind::Year, SqlIntervalFieldKind::Month)
        | (SqlIntervalFieldKind::Day, SqlIntervalFieldKind::Hour)
        | (SqlIntervalFieldKind::Day, SqlIntervalFieldKind::Minute)
        | (SqlIntervalFieldKind::Day, SqlIntervalFieldKind::Second)
        | (SqlIntervalFieldKind::Hour, SqlIntervalFieldKind::Minute)
        | (SqlIntervalFieldKind::Hour, SqlIntervalFieldKind::Second)
        | (SqlIntervalFieldKind::Minute, SqlIntervalFieldKind::Second) => true,
        _ => false,
    }
}

impl Parser {
    /// Reads an optional `AT SCHEMA` clause with its schema reference.
    pub fn parse_optional_at_schema_clause(&mut self) -> (r: Result<Option<SchemaReference>, Error>)
        requires
            old(self).wf(),
        ensures
            final(self).wf(),
            same_input(final(self)@, old(self)@),
            (match r {
                Ok(Some(s)) => Ok(Some(s@)),
                Ok(None) => Ok(None),
                Err(e) => Err(e@),
            }, final(self)@.pos) == at_schema_clause_step(old(self)@.input, old(self)@.pos),
    {
        if self.eat(TokenKind::At).is_none() {
            return Ok(None);
        }
        if let Err(e) = self.expect(TokenKind::Schema) {
            return Err(e);
        }
        match self.parse_schema_reference() {
            Ok(s) => Ok(Some(s)),
            Err(e) => Err(e),
        }
    }

    /// Whether a binding variable definition starts at the current token.
    pub fn starts_binding_variable_definition(&self) -> (r: bool)
        requires
            self.wf(),
        ensures
            r == starts_binding_variable_definition(self@.input, self@.pos),
    {
        matches!(self.peek_kind(), TokenKind::Value | TokenKind::Graph | TokenKind::Table) || (
        matches!(self.peek_n_kind(0), Some(TokenKind::Binding)) && matches!(
            self.peek_n_kind(1),
            Some(TokenKind::Table)
        )) || (matches!(self.peek_n_kind(0), Some(TokenKind::Property)) && matches!(
            self.peek_n_kind(1),
            Some(TokenKind::Graph)
        ))
    }

    /// Whether `SESSION SET` or `SESSION RESET` is next.
    pub fn starts_session_activity_command(&self) -> (r: bool)
        requires
            self.wf(),
        ensures
            r == starts_session_activity_command(self@.input, self@.pos),
    {
        self.peek_kind() == TokenKind::Session && matches!(
            self.peek_n_kind(1),
            Some(TokenKind::SetKeyword) | Some(TokenKind::Reset)
        )
    }

    /// Whether `SESSION CLOSE` is next.
    pub fn starts_session_close_command(&self) -> (r: bool)
        requires
            self.wf(),
        ensures
            r == starts_session_close_command(self@.input, self@.pos),
    {
        self.peek_kind() == TokenKind::Session && matches!(self.peek_n_kind(1), Some(TokenKind::Close))
    }

    /// Whether a simple catalog-modifying statement is next.
    pub fn starts_simple_catalog_modifying_statement(&self) -> (r: bool)
        requires
            self.wf(),
        ensures
            r == starts_simple_catalog_modifying_statement(self@.input, self@.pos),
    {
        match self.peek_kind() {
            TokenKind::Create => matches!(
                self.peek_n_kind(1),
                Some(TokenKind::Or) | Some(TokenKind::Property) | Some(TokenKind::Graph) | Some(
                    TokenKind::Schema,
                )
            ),
            TokenKind::Drop => matches!(
                self.peek_n_kind(1),
                Some(TokenKind::Property) | Some(TokenKind::Graph) | Some(TokenKind::Schema)
            ),
            TokenKind::Call => true,
            _ => false,
        }
    }

    /// Reads a variable scope clause: distinct variables in parentheses.
    pub fn parse_variable_scope_clause(&mut self) -> (r: Result<Vec<Identifier>, Error>)
        requires
            old(self).wf(),
        ensures
            final(self).wf(),
            same_input(final(self)@, old(self)@),
            (match r {
                Ok(vs) => Ok(identifiers_view(vs@)),
                Err(e) => Err(e@),
            }, final(self)@.pos) == variable_scope_step(old(self)@.input, old(self)@.pos),
    {
        let ghost v = old(self)@.input;
        if let Err(e) = self.expect(TokenKind::LParen) {
            return Err(e);
        }
        let mut variables: Vec<Identifier> = Vec::new();
        proof {
            assert(identifiers_view(variables@) =~= Seq::<Seq<char>>::empty());
        }
        if !self.at(TokenKind::RParen) {
            variables = match self.parse_scope_variables() {
                Ok(vs) => vs,
                Err(e) => return Err(e),
            };
        }
        if let Err(e) = self.expect(TokenKind::RParen) {
            return Err(e);
        }
        Ok(variables)
    }

    /// Reads variables separated by commas; a variable that repeats one before it, ignoring
    /// case, is refused.
    pub(crate) fn parse_scope_variables(&mut self) -> (r: Result<Vec<Identifier>, Error>)
        requires
            old(self).wf(),
        ensures
            final(self).wf(),
            same_input(final(self)@, old(self)@),
            (match r {
                Ok(vs) => Ok(identifiers_view(vs@)),
                Err(e) => Err(e@),
            }, final(self)@.pos) == scope_variables_rest(old(self)@.input, Seq::empty(), old(self)@.pos),
    {
        let ghost v = old(self)@.input;
        let mut variables: Vec<Identifier> = Vec::new();
        proof {
            assert(identifiers_view(variables@) =~= Seq::<Seq<char>>::empty());
        }
        let ghost start = self@.pos;
        let ghost target = scope_variables_rest(v, Seq::empty(), start);
        loop
            invariant_except_break
                target == scope_variables_rest(v, identifiers_view(variables@), self@.pos),
            invariant
                self.wf(),
                same_input(self@, old(self)@),
                v == old(self)@.input,
                start == old(self)@.pos,
                start <= self@.pos,
                target == scope_variables_rest(v, Seq::empty(), start),
            ensures
                target == (Ok::<Seq<Seq<char>>, ErrorView>(identifiers_view(variables@)), self@.pos),
            decreases self@.input.tokens.len() - self@.pos,
        {
            proof {
                self.lemma_valid();
            }
            let offset = self.peek().offset;
            let variable = match self.parse_identifier() {
                Ok(id) => id,
                Err(e) => return Err(e),
            };
            if has_identifier(&variables, &variable) {
                return Err(message_with_name("duplicate variable '", &variable, "' in variable scope", offset));
            }
            proof {
                assert(identifiers_view(variables@.push(variable)) =~= identifiers_view(variables@).push(variable@));
            }
            variables.push(variable);
            proof {
                self.lemma_valid();
            }
            if self.eat(TokenKind::Comma).is_none() {
                break;
            }
        }
        Ok(variables)
    }

    /// Reads an optional match mode.
    pub fn parse_optional_match_mode(&mut self) -> (r: Result<Option<MatchMode>, Error>)
        requires
            old(self).wf(),
        ensures
            final(self).wf(),
            same_input(final(self)@, old(self)@),
            (rplain(r), final(self)@.pos) == match_mode_step(old(self)@.input, old(self)@.pos),
    {
        if self.eat(TokenKind::Repeatable).is_some() {
            let bindings = if self.eat(TokenKind::Element).is_some() {
                self.eat(TokenKind::Bindings).is_some()
            } else if self.eat(TokenKind::Elements).is_some() {
                false
            } else {
                let mut expected: Vec<TokenKind> = Vec::new();
                expected.push(TokenKind::Element);
                expected.push(TokenKind::Elements);
                proof {
                    assert(expected@ =~= seq![TokenKind::Element, TokenKind::Elements]);
                }
                return Err(self.error_expected(expected, self.peek_kind()));
            };
            return Ok(Some(MatchMode::RepeatableElements { bindings }));
        }
        if self.eat(TokenKind::Different).is_some() {
            let bindings = if self.eat(TokenKind::Edge).is_some() || self.eat(TokenKind::Relationship).is_some() {
                self.eat(TokenKind::Bindings).is_some()
            } else if self.eat(TokenKind::Edges).is_some() || self.eat(TokenKind::Relationships).is_some() {
                false
            } else {
                let mut expected: Vec<TokenKind> = Vec::new();
                expected.push(TokenKind::Edge);
                expected.push(TokenKind::Relationship);
                expected.push(TokenKind::Edges);
                expected.push(TokenKind::Relationships);
                proof {
                    assert(expected@ =~= seq![
                        TokenKind::Edge,
                        TokenKind::Relationship,
                        TokenKind::Edges,
                        TokenKind::Relationships,
                    ]);
                }
                return Err(self.error_expected(expected, self.peek_kind()));
            };
            return Ok(Some(MatchMode::DifferentEdges { bindings }));
        }
        Ok(None)
    }

    /// Reads the items of a `YIELD` clause: names separated by commas, each with an
    /// optional `AS` and alias where `allow_aliases` holds; no two outputs may be equal,
    /// ignoring case.
    pub fn parse_yield_clause_body(&mut self, allow_aliases: bool) -> (r: Result<YieldClause, Error>)
        requires
            old(self).wf(),
        ensures
            final(self).wf(),
            same_input(final(self)@, old(self)@),
            (match r {
                Ok(c) => Ok(c.items@.map_values(|i: YieldItem| i@)),
                Err(e) => Err(e@),
            }, final(self)@.pos) == yield_items_rest(
                old(self)@.input,
                Seq::empty(),
                Seq::empty(),
                old(self)@.pos,
                allow_aliases,
            ),
    {
        let ghost v = old(self)@.input;
        let ghost target = yield_items_rest(v, Seq::empty(), Seq::empty(), old(self)@.pos, allow_aliases);
        let mut items: Vec<YieldItem> = Vec::new();
        let mut output_names: Vec<Identifier> = Vec::new();
        proof {
            assert(items@.map_values(|i: YieldItem| i@) =~= Seq::<YieldItemView>::empty());
            assert(identifiers_view(output_names@) =~= Seq::<Seq<char>>::empty());
        }
        loop
            invariant_except_break
                target == yield_items_rest(
                    v,
                    items@.map_values(|i: YieldItem| i@),
                    identifiers_view(output_names@),
                    self@.pos,
                    allow_aliases,
                ),
            invariant
                self.wf(),
                same_input(self@, old(self)@),
                v == old(self)@.input,
                old(self)@.pos <= self@.pos,
                target == yield_items_rest(v, Seq::empty(), Seq::empty(), old(self)@.pos, allow_aliases),
            ensures
                target == (Ok::<Seq<YieldItemView>, ErrorView>(items@.map_values(|i: YieldItem| i@)), self@.pos),
            decreases self@.input.tokens.len() - self@.pos,
        {
            proof {
                self.lemma_valid();
            }
            let name_offset = self.peek().offset;
            let name = match self.parse_identifier() {
                Ok(id) => id,
                Err(e) => return Err(e),
            };
            let alias = if allow_aliases && self.eat(TokenKind::As).is_some() {
                let alias_offset = self.peek().offset;
                let alias = match self.parse_identifier() {
                    Ok(id) => id,
                    Err(e) => return Err(e),
                };
                if has_identifier(&output_names, &alias) {
                    return Err(message_with_name("duplicate yield output '", &alias, "'", alias_offset));
                }
                let ghost before = identifiers_view(output_names@);
                output_names.push(alias.clone());
                proof {
                    assert(identifiers_view(output_names@) =~= before.push(alias@));
                }
                Some(alias)
            } else {
                if has_identifier(&output_names, &name) {
                    return Err(message_with_name("duplicate yield output '", &name, "'", name_offset));
                }
                let ghost before = identifiers_view(output_names@);
                output_names.push(name.clone());
                proof {
                    assert(identifiers_view(output_names@) =~= before.push(name@));
                }
                None
            };
            let item = YieldItem::Item { name, alias };
            proof {
                assert(items@.push(item).map_values(|i: YieldItem| i@) =~= items@.map_values(|i: YieldItem| i@).push(item@));
            }
            items.push(item);
            proof {
                self.lemma_valid();
            }
            if self.eat(TokenKind::Comma).is_none() {
                break;
            }
        }
        Ok(YieldClause { items })
    }

    /// Reads an optional direction override before a simplified path pattern.
    pub fn parse_optional_simplified_direction_override_prefix(&mut self) -> (r: Result<Option<Direction>, Error>)
        requires
            old(self).wf(),
        ensures
            final(self).wf(),
            same_input(final(self)@, old(self)@),
            (rplain(r), final(self)@.pos) == direction_override_prefix_step(old(self)@.input, old(self)@.pos),
    {
        if self.eat(TokenKind::Lt).is_some() {
            if self.eat(TokenKind::Tilde).is_some() {
                return Ok(Some(Direction::LeftOrUndirected));
            }
            return Ok(Some(Direction::Left));
        }
        if self.eat(TokenKind::Tilde).is_some() {
            return Ok(Some(Direction::Undirected));
        }
        if self.eat(TokenKind::Minus).is_some() {
            return Ok(Some(Direction::Any));
        }
        Ok(None)
    }

    /// Reads an optional `>` after a simplified path pattern, which turns the override
    /// `leading_override` towards the right.
    pub fn parse_optional_simplified_direction_override_suffix(
        &mut self,
        leading_override: Option<Direction>,
    ) -> (r: Result<Option<Direction>, Error>)
        requires
            old(self).wf(),
        ensures
            final(self).wf(),
            same_input(final(self)@, old(self)@),
            (rplain(r), final(self)@.pos) == direction_override_suffix_step(
                old(self)@.input,
                old(self)@.pos,
                leading_override,
            ),
    {
        if self.eat(TokenKind::Gt).is_some() {
            return Ok(
                Some(
                    match leading_override {
                        Some(Direction::Left) => Direction::LeftOrRight,
                        Some(Direction::Undirected) => Direction::UndirectedOrRight,
                        Some(direction) => direction,
                        None => Direction::Right,
                    },
                ),
            );
        }
        Ok(leading_override)
    }

    /// Reads the opening delimiter of a simplified path pattern.
    pub fn parse_simplified_delimiter_prefix(&mut self) -> (r: Result<SimplifiedPrefix, Error>)
        requires
            old(self).wf(),
        ensures
            final(self).wf(),
            same_input(final(self)@, old(self)@),
            (rplain(r), final(self)@.pos) == simplified_prefix_step(old(self)@.input, old(self)@.pos),
    {
        if self.eat(TokenKind::Minus).is_some() {
            if let Err(e) = self.expect(TokenKind::Slash) {
                return Err(e);
            }
            return Ok(SimplifiedPrefix::Minus);
        }
        if self.eat(TokenKind::Tilde).is_some() {
            if let Err(e) = self.expect(TokenKind::Slash) {
                return Err(e);
            }
            return Ok(SimplifiedPrefix::Tilde);
        }
        if self.eat(TokenKind::ArrowLeft).is_some() {
            if let Err(e) = self.expect(TokenKind::Slash) {
                return Err(e);
            }
            return Ok(SimplifiedPrefix::ArrowLeft);
        }
        if let Err(e) = self.expect(TokenKind::Lt) {
            return Err(e);
        }
        if let Err(e) = self.expect(TokenKind::Tilde) {
            return Err(e);
        }
        if let Err(e) = self.expect(TokenKind::Slash) {
            return Err(e);
        }
        Ok(SimplifiedPrefix::LtTilde)
    }

    /// Reads the closing delimiter of a simplified path pattern opened by `prefix`.
    pub fn parse_simplified_delimiter_suffix(&mut self, prefix: SimplifiedPrefix) -> (r: Result<Direction, Error>)
        requires
            old(self).wf(),
        ensures
            final(self).wf(),
            same_input(final(self)@, old(self)@),
            (rplain(r), final(self)@.pos) == simplified_suffix_step(old(self)@.input, old(self)@.pos, prefix),
    {
        if let Err(e) = self.expect(TokenKind::Slash) {
            return Err(e);
        }
        match prefix {
            SimplifiedPrefix::Minus => {
                if self.eat(TokenKind::ArrowRight).is_some() {
                    Ok(Direction::Right)
                } else {
                    if let Err(e) = self.expect(TokenKind::Minus) {
                        return Err(e);
                    }
                    Ok(Direction::Any)
                }
            },
            SimplifiedPrefix::ArrowLeft => {
                if self.eat(TokenKind::ArrowRight).is_some() {
                    Ok(Direction::LeftOrRight)
                } else {
                    if let Err(e) = self.expect(TokenKind::Minus) {
                        return Err(e);
                    }
                    Ok(Direction::Left)
                }
            },
            SimplifiedPrefix::Tilde => {
                if let Err(e) = self.expect(TokenKind::Tilde) {
                    return Err(e);
                }
                if self.eat(TokenKind::Gt).is_some() {
                    Ok(Direction::UndirectedOrRight)
                } else {
                    Ok(Direction::Undirected)
                }
            },
            SimplifiedPrefix::LtTilde => {
                if let Err(e) = self.expect(TokenKind::Tilde) {
                    return Err(e);
                }
                Ok(Direction::LeftOrUndirected)
            },
        }
    }

    /// The path pattern alternation operator that is next, if there is one.
    pub fn peek_path_pattern_alternation_operator(&self) -> (r: Option<PathPatternAlternation>)
        requires
            self.wf(),
        ensures
            r == alternation_operator_at(self@.input, self@.pos),
    {
        if self.peek_kind() == TokenKind::Pipe && matches!(self.peek_n_kind(1), Some(TokenKind::Plus)) {
            Some(PathPatternAlternation::MultisetAlternation)
        } else if self.peek_kind() == TokenKind::Pipe {
            Some(PathPatternAlternation::Union)
        } else {
            None
        }
    }

    /// Reads a path pattern alternation operator: `|+|` or `|`.
    pub fn parse_path_pattern_alternation_operator(&mut self) -> (r: Result<PathPatternAlternation, Error>)
        requires
            old(self).wf(),
        ensures
            final(self).wf(),
            same_input(final(self)@, old(self)@),
            (rplain(r), final(self)@.pos) == alternation_operator_step(old(self)@.input, old(self)@.pos),
    {
        if let Err(e) = self.expect(TokenKind::Pipe) {
            return Err(e);
        }
        if self.eat(TokenKind::Plus).is_some() {
            if let Err(e) = self.expect(TokenKind::Pipe) {
                return Err(e);
            }
            Ok(PathPatternAlternation::MultisetAlternation)
        } else {
            Ok(PathPatternAlternation::Union)
        }
    }

    /// Reads an optional trim specification.
    pub fn parse_optional_trim_specification(&mut self) -> (r: Option<TrimSpec>)
        requires
            old(self).wf(),
        ensures
            final(self).wf(),
            same_input(final(self)@, old(self)@),
            (r, final(self)@.pos) == trim_specification_step(old(self)@.input, old(self)@.pos),
    {
        if self.eat(TokenKind::Leading).is_some() {
            Some(TrimSpec::Leading)
        } else if self.eat(TokenKind::Trailing).is_some() {
            Some(TrimSpec::Trailing)
        } else if self.eat(TokenKind::Both).is_some() {
            Some(TrimSpec::Both)
        } else {
            None
        }
    }

    /// Reads a Unicode normal form: `NFC`, `NFD`, `NFKC` or `NFKD`, in any case.
    pub fn parse_normal_form(&mut self) -> (r: Result<Identifier, Error>)
        requires
            old(self).wf(),
        ensures
            final(self).wf(),
            same_input(final(self)@, old(self)@),
            old(self)@.pos <= final(self)@.pos,
            (rview(r), final(self)@.pos) == normal_form_step(old(self)@.input, old(self)@.pos),
    {
        let normal_form = match self.parse_identifier() {
            Ok(id) => id,
            Err(e) => return Err(e),
        };
        let text = chars_of(normal_form.value.as_str());
        if chars_eq_ignore_ascii_case(&text, "NFC") || chars_eq_ignore_ascii_case(&text, "NFD")
            || chars_eq_ignore_ascii_case(&text, "NFKC") || chars_eq_ignore_ascii_case(&text, "NFKD") {
            Ok(normal_form)
        } else {
            Err(message_with_name("invalid normal form '", &normal_form, "'", self.peek().offset))
        }
    }

    /// Reads an interval field name.
    pub(crate) fn parse_sql_interval_field_name(&mut self) -> (r: Result<(Identifier, SqlIntervalFieldKind), Error>)
        requires
            old(self).wf(),
        ensures
            final(self).wf(),
            same_input(final(self)@, old(self)@),
            (match r {
                Ok((f, k)) => Ok((f@, k)),
                Err(e) => Err(e@),
            }, final(self)@.pos) == interval_field_name_step(old(self)@.input, old(self)@.pos),
    {
        let offset = self.peek().offset;
        let field = match self.parse_identifier() {
            Ok(id) => id,
            Err(e) => return Err(e),
        };
        let text = chars_of(field.value.as_str());
        let kind = if chars_eq_ignore_ascii_case(&text, "YEAR") {
            SqlIntervalFieldKind::Year
        } else if chars_eq_ignore_ascii_case(&text, "MONTH") {
            SqlIntervalFieldKind::Month
        } else if chars_eq_ignore_ascii_case(&text, "DAY") {
            SqlIntervalFieldKind::Day
        } else if chars_eq_ignore_ascii_case(&text, "HOUR") {
            SqlIntervalFieldKind::Hour
        } else if chars_eq_ignore_ascii_case(&text, "MINUTE") {
            SqlIntervalFieldKind::Minute
        } else if chars_eq_ignore_ascii_case(&text, "SECOND") {
            SqlIntervalFieldKind::Second
        } else {
            return Err(message_with_name("invalid interval field '", &field, "'", offset));
        };
        Ok((field, kind))
    }

    /// Reads the start field of an interval qualifier.
    pub(crate) fn parse_sql_interval_start_field(&mut self) -> (r: Result<
        (Identifier, SqlIntervalFieldKind, Option<u64>, Option<u64>),
        Error,
    >)
        requires
            old(self).wf(),
        ensures
            final(self).wf(),
            same_input(final(self)@, old(self)@),
            (match r {
                Ok((f, k, a, b)) => Ok((f@, k, a, b)),
                Err(e) => Err(e@),
            }, final(self)@.pos) == interval_start_field_step(old(self)@.input, old(self)@.pos),
    {
        let (field, kind) = match self.parse_sql_interval_field_name() {
            Ok(t) => t,
            Err(e) => return Err(e),
        };
        let (precision, fractional_precision) = if self.eat(TokenKind::LParen).is_some() {
            let precision = match self.parse_u64_literal() {
                Ok(n) => n,
                Err(e) => return Err(e),
            };
            let fractional_precision = if self.eat(TokenKind::Comma).is_some() {
                if kind != SqlIntervalFieldKind::Second {
                    return Err(
                        Error::Message {
                            offset: self.peek().offset,
                            message: "only SECOND interval field can specify fractional precision".to_owned(),
                        },
                    );
                }
                match self.parse_u64_literal() {
                    Ok(n) => Some(n),
                    Err(e) => return Err(e),
                }
            } else {
                None
            };
            if let Err(e) = self.expect(TokenKind::RParen) {
                return Err(e);
            }
            (Some(precision), fractional_precision)
        } else {
            (None, None)
        };
        Ok((field, kind, precision, fractional_precision))
    }

    /// Reads the end field of an interval qualifier.
    pub(crate) fn parse_sql_interval_end_field(&mut self) -> (r: Result<
        (Identifier, SqlIntervalFieldKind, Option<u64>),
        Error,
    >)
        requires
            old(self).wf(),
        ensures
            final(self).wf(),
            same_input(final(self)@, old(self)@),
            (match r {
                Ok((f, k, a)) => Ok((f@, k, a)),
                Err(e) => Err(e@),
            }, final(self)@.pos) == interval_end_field_step(old(self)@.input, old(self)@.pos),
    {
        let (field, kind) = match self.parse_sql_interval_field_name() {
            Ok(t) => t,
            Err(e) => return Err(e),
        };
        let precision = if self.eat(TokenKind::LParen).is_some() {
            if kind != SqlIntervalFieldKind::Second {
                return Err(
                    Error::Message {
                        offset: self.peek().offset,
                        message: "only SECOND end interval field can specify fractional precision".to_owned(),
                    },
                );
            }
            let precision = match self.parse_u64_literal() {
                Ok(n) => n,
                Err(e) => return Err(e),
            };
            if let Err(e) = self.expect(TokenKind::RParen) {
                return Err(e);
            }
            Some(precision)
        } else {
            None
        };
        Ok((field, kind, precision))
    }

    /// Refuses an interval that cannot run from the field `start` to the field `end`, at
    /// `offset`.
    pub(crate) fn validate_sql_interval_range(
        &self,
        start: SqlIntervalFieldKind,
        end: SqlIntervalFieldKind,
        offset: usize,
    ) -> (r: Result<(), Error>)
        ensures
            interval_range_valid(start, end) ==> r is Ok,
            !interval_range_valid(start, end) ==> (r matches Err(e) && e@ == (ErrorView::Message {
                offset: offset as int,
                message: "invalid SQL interval qualifier range"@,
            })),
    {
        if !is_valid_interval_range(start, end) {
            return Err(
                Error::Message { offset, message: "invalid SQL interval qualifier range".to_owned() },
            );
        }
        Ok(())
    }

    /// Reads an SQL interval qualifier.
    pub fn parse_sql_interval_qualifier(&mut self) -> (r: Result<SqlIntervalQualifier, Error>)
        requires
            old(self).wf(),
        ensures
            final(self).wf(),
            same_input(final(self)@, old(self)@),
            (rview(r), final(self)@.pos) == sql_interval_qualifier_step(old(self)@.input, old(self)@.pos),
    {
        let (start, start_kind, start_precision, start_fractional_precision) = match self.parse_sql_interval_start_field() {
            Ok(t) => t,
            Err(e) => return Err(e),
        };
        let (end, end_precision) = if self.eat(TokenKind::To).is_some() {
            if start_fractional_precision.is_some() {
                return Err(
                    Error::Message {
                        offset: self.peek().offset,
                        message: "SECOND interval qualifier cannot specify fractional precision before TO".to_owned(),
                    },
                );
            }
            let end_offset = self.peek().offset;
            let (end, end_kind, end_precision) = match self.parse_sql_interval_end_field() {
                Ok(t) => t,
                Err(e) => return Err(e),
            };
            if let Err(e) = self.validate_sql_interval_range(start_kind, end_kind, end_offset) {
                return Err(e);
            }
            (Some(end), end_precision)
        } else {
            (None, start_fractional_precision)
        };
        Ok(SqlIntervalQualifier { start, start_precision, end, end_precision })
    }

    /// Reads at least two element variables in parentheses, separated by commas.
    pub fn parse_element_variable_list_with_min_two(&mut self) -> (r: Result<Vec<Identifier>, Error>)
        requires
            old(self).wf(),
        ensures
            final(self).wf(),
            same_input(final(self)@, old(self)@),
            (match r {
                Ok(vs) => Ok(identifiers_view(vs@)),
                Err(e) => Err(e@),
            }, final(self)@.pos) == element_variable_list_step(old(self)@.input, old(self)@.pos),
    {
        let ghost v = old(self)@.input;
        if let Err(e) = self.expect(TokenKind::LParen) {
            return Err(e);
        }
        let first = match self.parse_identifier() {
            Ok(id) => id,
            Err(e) => return Err(e),
        };
        if let Err(e) = self.expect(TokenKind::Comma) {
            return Err(e);
        }
        let second = match self.parse_identifier() {
            Ok(id) => id,
            Err(e) => return Err(e),
        };
        let mut variables: Vec<Identifier> = Vec::new();
        variables.push(first);
        variables.push(second);
        proof {
            assert(identifiers_view(variables@) =~= seq![variables@[0]@, variables@[1]@]);
        }
        if let Err(e) = self.parse_more_identifiers(&mut variables) {
            return Err(e);
        }
        if let Err(e) = self.expect(TokenKind::RParen) {
            return Err(e);
        }
        Ok(variables)
    }

    /// Reads identifiers, each after a comma, onto `variables`.
    pub(crate) fn parse_more_identifiers(&mut self, variables: &mut Vec<Identifier>) -> (r: Result<(), Error>)
        requires
            old(self).wf(),
        ensures
            final(self).wf(),
            same_input(final(self)@, old(self)@),
            (match r {
                Ok(_) => Ok(identifiers_view(final(variables)@)),
                Err(e) => Err(e@),
            }, final(self)@.pos) == identifiers_rest(old(self)@.input, identifiers_view(old(variables)@), old(self)@.pos),
    {
        let ghost v = old(self)@.input;
        let ghost target = identifiers_rest(v, identifiers_view(variables@), self@.pos);
        loop
            invariant
                self.wf(),
                same_input(self@, old(self)@),
                v == old(self)@.input,
                old(self)@.pos <= self@.pos,
                target == identifiers_rest(v, identifiers_view(variables@), self@.pos),
                target == identifiers_rest(v, identifiers_view(old(variables)@), old(self)@.pos),
            decreases self@.input.tokens.len() - self@.pos,
        {
            proof {
                self.lemma_valid();
            }
            if self.eat(TokenKind::Comma).is_none() {
                return Ok(());
            }
            let variable = match self.parse_identifier() {
                Ok(id) => id,
                Err(e) => return Err(e),
            };
            let ghost before = identifiers_view(variables@);
            variables.push(variable);
            proof {
                assert(identifiers_view(variables@) =~= before.push(variables@.last()@));
            }
        }
    }

    /// Reads the label set of an inserted element: labels joined by `&`, without repeats
    /// when case is ignored, and their conjunction.
    pub fn parse_insert_label_set(&mut self) -> (r: Result<(Vec<Identifier>, Option<LabelExpression>), Error>)
        requires
            old(self).wf(),
        ensures
            final(self).wf(),
            same_input(final(self)@, old(self)@),
            (match r {
                Ok((ls, Some(e))) => Ok((identifiers_view(ls@), Some(e@))),
                Ok((ls, None)) => Ok((identifiers_view(ls@), None)),
                Err(e) => Err(e@),
            }, final(self)@.pos) == insert_label_set_step(old(self)@.input, old(self)@.pos),
    {
        let mut labels: Vec<Identifier> = Vec::new();
        let label = match self.parse_identifier() {
            Ok(id) => id,
            Err(e) => return Err(e),
        };
        proof {
            assert(identifiers_view(labels@) =~= Seq::<Seq<char>>::empty());
        }
        push_identifier_if_absent(&mut labels, Some(&label));
        proof {
            assert(push_if_absent(Seq::empty(), label@) =~= seq![label@]);
            assert(identifiers_view(labels@).len() == 1);
        }
        if let Err(e) = self.parse_ampersand_labels(&mut labels) {
            return Err(e);
        }
        let ghost names = identifiers_view(labels@);
        proof {
            assert(names.len() == labels@.len());
            assert(names.len() >= 1);
        }
        let mut expr = LabelExpression::Label(labels[0].clone());
        let mut i: usize = 1;
        proof {
            assert(names.take(1).len() == 1);
            assert(expr@ == label_conjunction(names.take(1)));
        }
        while i < labels.len()
            invariant
                names == identifiers_view(labels@),
                names.len() == labels.len(),
                1 <= i <= labels.len(),
                expr@ == label_conjunction(names.take(i as int)),
            decreases labels.len() - i,
        {
            proof {
                assert(names.take(i + 1).drop_last() =~= names.take(i as int));
                assert(names[i as int] == labels@[i as int]@);
                assert(names.take(i + 1).last() == names[i as int]);
            }
            let ghost old_expr = expr@;
            let next = labels[i].clone();
            expr = LabelExpression::And(Box::new(expr), Box::new(LabelExpression::Label(next)));
            proof {
                reveal_with_fuel(crate::ast::label_expression_view, 2);
                assert(expr@ == crate::ast::LabelExpressionView::And(
                    Box::new(old_expr),
                    Box::new(crate::ast::LabelExpressionView::Label(names[i as int])),
                ));
                assert(label_conjunction(names.take(i + 1)) == crate::ast::LabelExpressionView::And(
                    Box::new(label_conjunction(names.take(i as int))),
                    Box::new(crate::ast::LabelExpressionView::Label(names[i as int])),
                ));
            }
            i += 1;
        }
        proof {
            assert(names.take(labels.len() as int) =~= names);
        }
        Ok((labels, Some(expr)))
    }
}

} // verus!
