use vstd::prelude::*;
use crate::ast::{
    SqlIntervalQualifierView, YieldItemView, Direction, LabelExpressionView, MatchMode, PathPatternAlternation, SchemaReferenceView, TrimSpec,
};
use crate::error::ErrorView;
use crate::grammar::{identifier_step, message_at, schema_reference_step, u64_literal_step};
use crate::parser::{eat_step, expect_step, expected_err, kind_ahead, kind_at, next_pos, skip_all, tok, InputView};
use crate::text::eq_ignore_ascii_case;
use crate::token::TokenKind;
use crate::type_grammar::{ampersand_labels_rest, duplicate_message, push_if_absent, text_is};

verus! {

// The grammar of clause parts that hold no expressions, in the style of the grammar
// module.

/// An optional `AT SCHEMA` clause with its schema reference.
pub open spec fn at_schema_clause_step(v: InputView, p: int) -> (
    Result<Option<SchemaReferenceView>, ErrorView>,
    int,
) {
    if kind_at(v, p) != TokenKind::At {
        (Ok(None), p)
    } else {
        match expect_step(v, next_pos(v, p), TokenKind::Schema) {
            (Err(e), q) => (Err(e), q),
            (Ok(_), q) => match schema_reference_step(v, q) {
                (Err(e), q2) => (Err(e), q2),
                (Ok(r), q2) => (Ok(Some(r)), q2),
            },
        }
    }
}

/// Whether a binding variable definition starts at `p`: `VALUE`, `GRAPH`, `TABLE`,
/// `BINDING TABLE` or `PROPERTY GRAPH`.
pub open spec fn starts_binding_variable_definition(v: InputView, p: int) -> bool {
    ||| kind_at(v, p) == TokenKind::Value
    ||| kind_at(v, p) == TokenKind::Graph
    ||| kind_at(v, p) == TokenKind::Table
    ||| (kind_ahead(v, p, 0) == Some(TokenKind::Binding) && kind_ahead(v, p, 1) == Some(TokenKind::Table))
    ||| (kind_ahead(v, p, 0) == Some(TokenKind::Property) && kind_ahead(v, p, 1) == Some(TokenKind::Graph))
}

/// An `AT SCHEMA` clause at the start of a program, which belongs to the program only when
/// binding variable definitions follow it, after any semicolons; otherwise nothing is read.
/// An error in the clause is reported with nothing read.
pub open spec fn program_at_schema_step(v: InputView, p: int) -> (
    Result<Option<SchemaReferenceView>, ErrorView>,
    int,
) {
    if kind_at(v, p) != TokenKind::At {
        (Ok(None), p)
    } else {
        match at_schema_clause_step(v, p) {
            (Err(e), _) => (Err(e), p),
            (Ok(s), q) => {
                let q2 = skip_all(v, q, TokenKind::Semicolon);
                if starts_binding_variable_definition(v, q2) {
                    (Ok(s), q2)
                } else {
                    (Ok(None), p)
                }
            },
        }
    }
}

/// Whether `SESSION SET` or `SESSION RESET` starts at `p`.
pub open spec fn starts_session_activity_command(v: InputView, p: int) -> bool {
    kind_at(v, p) == TokenKind::Session && (kind_ahead(v, p, 1) == Some(TokenKind::SetKeyword)
        || kind_ahead(v, p, 1) == Some(TokenKind::Reset))
}

/// Whether `SESSION CLOSE` starts at `p`.
pub open spec fn starts_session_close_command(v: InputView, p: int) -> bool {
    kind_at(v, p) == TokenKind::Session && kind_ahead(v, p, 1) == Some(TokenKind::Close)
}

/// Whether a simple catalog-modifying statement starts at `p`: `CREATE` or `DROP` of a
/// graph, graph type or schema, or `CALL`.
pub open spec fn starts_simple_catalog_modifying_statement(v: InputView, p: int) -> bool {
    let next = kind_ahead(v, p, 1);
    if kind_at(v, p) == TokenKind::Create {
        next == Some(TokenKind::Or) || next == Some(TokenKind::Property) || next == Some(TokenKind::Graph)
            || next == Some(TokenKind::Schema)
    } else if kind_at(v, p) == TokenKind::Drop {
        next == Some(TokenKind::Property) || next == Some(TokenKind::Graph) || next == Some(
            TokenKind::Schema,
        )
    } else {
        kind_at(v, p) == TokenKind::Call
    }
}

/// Whether `names` holds a name equal to `name` when the case of ASCII letters is ignored.
pub open spec fn has_name(names: Seq<Seq<char>>, name: Seq<char>) -> bool {
    exists|j: int| 0 <= j < names.len() && eq_ignore_ascii_case(#[trigger] names[j], name)
}

/// Variables separated by commas, after the first ones, which made `acc`; a variable that
/// repeats one before it, ignoring case, is refused.
pub open spec fn scope_variables_rest(v: InputView, acc: Seq<Seq<char>>, p: int) -> (
    Result<Seq<Seq<char>>, ErrorView>,
    int,
)
    decreases v.tokens.len() - p,
{
    let offset = tok(v, p).offset;
    match identifier_step(v, p) {
        (Err(e), q) => (Err(e), q),
        (Ok(name), q) => if has_name(acc, name) {
            (
                Err(
                    ErrorView::Message {
                        offset,
                        message: "duplicate variable '"@ + name + "' in variable scope"@,
                    },
                ),
                q,
            )
        } else if kind_at(v, q) == TokenKind::Comma && p < next_pos(v, q) <= v.tokens.len() {
            scope_variables_rest(v, acc.push(name), next_pos(v, q))
        } else {
            (Ok(acc.push(name)), q)
        },
    }
}

/// A variable scope clause: distinct variables in parentheses, separated by commas.
pub open spec fn variable_scope_step(v: InputView, p: int) -> (Result<Seq<Seq<char>>, ErrorView>, int) {
    match expect_step(v, p, TokenKind::LParen) {
        (Err(e), q) => (Err(e), q),
        (Ok(_), q) => {
            let (r, q2) = if kind_at(v, q) == TokenKind::RParen {
                (Ok(Seq::empty()), q)
            } else {
                scope_variables_rest(v, Seq::empty(), q)
            };
            match r {
                Err(e) => (Err(e), q2),
                Ok(vars) => match expect_step(v, q2, TokenKind::RParen) {
                    (Err(e), q3) => (Err(e), q3),
                    (Ok(_), q3) => (Ok(vars), q3),
                },
            }
        },
    }
}

/// An optional match mode: `REPEATABLE ELEMENT [BINDINGS]`, `REPEATABLE ELEMENTS`,
/// `DIFFERENT EDGE [BINDINGS]` or `DIFFERENT EDGES`, with `RELATIONSHIP` for `EDGE`.
pub open spec fn match_mode_step(v: InputView, p: int) -> (Result<Option<MatchMode>, ErrorView>, int) {
    let p1 = next_pos(v, p);
    if kind_at(v, p) == TokenKind::Repeatable {
        if kind_at(v, p1) == TokenKind::Element {
            let (b, q) = eat_step(v, next_pos(v, p1), TokenKind::Bindings);
            (Ok(Some(MatchMode::RepeatableElements { bindings: b is Some })), q)
        } else if kind_at(v, p1) == TokenKind::Elements {
            (Ok(Some(MatchMode::RepeatableElements { bindings: false })), next_pos(v, p1))
        } else {
            (Err(expected_err(v, p1, seq![TokenKind::Element, TokenKind::Elements], kind_at(v, p1))), p1)
        }
    } else if kind_at(v, p) == TokenKind::Different {
        if kind_at(v, p1) == TokenKind::Edge || kind_at(v, p1) == TokenKind::Relationship {
            let (b, q) = eat_step(v, next_pos(v, p1), TokenKind::Bindings);
            (Ok(Some(MatchMode::DifferentEdges { bindings: b is Some })), q)
        } else if kind_at(v, p1) == TokenKind::Edges || kind_at(v, p1) == TokenKind::Relationships {
            (Ok(Some(MatchMode::DifferentEdges { bindings: false })), next_pos(v, p1))
        } else {
            (
                Err(
                    expected_err(
                        v,
                        p1,
                        seq![
                            TokenKind::Edge,
                            TokenKind::Relationship,
                            TokenKind::Edges,
                            TokenKind::Relationships,
                        ],
                        kind_at(v, p1),
                    ),
                ),
                p1,
            )
        }
    } else {
        (Ok(None), p)
    }
}

/// The message for a yield output that repeats one before it.
pub open spec fn duplicate_output_message(name: Seq<char>) -> Seq<char> {
    "duplicate yield output '"@ + name + "'"@
}

/// Yield items separated by commas, after the first ones, which made `items` with the
/// output names `outputs`: each a name with, where aliases are allowed, an optional `AS`
/// and alias; no two outputs may be equal, ignoring case.
pub open spec fn yield_items_rest(
    v: InputView,
    items: Seq<YieldItemView>,
    outputs: Seq<Seq<char>>,
    p: int,
    allow_aliases: bool,
) -> (Result<Seq<YieldItemView>, ErrorView>, int)
    decreases v.tokens.len() - p,
{
    let name_offset = tok(v, p).offset;
    match identifier_step(v, p) {
        (Err(e), q) => (Err(e), q),
        (Ok(name), q) => {
            let (r, q2) = if allow_aliases && kind_at(v, q) == TokenKind::As {
                let q1 = next_pos(v, q);
                let alias_offset = tok(v, q1).offset;
                match identifier_step(v, q1) {
                    (Err(e), q2) => (Err(e), q2),
                    (Ok(alias), q2) => if has_name(outputs, alias) {
                        (
                            Err(ErrorView::Message { offset: alias_offset, message: duplicate_output_message(alias) }),
                            q2,
                        )
                    } else {
                        (Ok((YieldItemView::Item { name, alias: Some(alias) }, alias)), q2)
                    },
                }
            } else if has_name(outputs, name) {
                (Err(ErrorView::Message { offset: name_offset, message: duplicate_output_message(name) }), q)
            } else {
                (Ok((YieldItemView::Item { name, alias: None }, name)), q)
            };
            match r {
                Err(e) => (Err(e), q2),
                Ok((item, output)) => if kind_at(v, q2) == TokenKind::Comma && p < next_pos(v, q2)
                    <= v.tokens.len() {
                    yield_items_rest(v, items.push(item), outputs.push(output), next_pos(v, q2), allow_aliases)
                } else {
                    (Ok(items.push(item)), q2)
                },
            }
        },
    }
}

/// An optional direction override before a simplified path pattern: `<~`, `<`, `~` or `-`.
pub open spec fn direction_override_prefix_step(v: InputView, p: int) -> (
    Result<Option<Direction>, ErrorView>,
    int,
) {
    let p1 = next_pos(v, p);
    if kind_at(v, p) == TokenKind::Lt {
        if kind_at(v, p1) == TokenKind::Tilde {
            (Ok(Some(Direction::LeftOrUndirected)), next_pos(v, p1))
        } else {
            (Ok(Some(Direction::Left)), p1)
        }
    } else if kind_at(v, p) == TokenKind::Tilde {
        (Ok(Some(Direction::Undirected)), p1)
    } else if kind_at(v, p) == TokenKind::Minus {
        (Ok(Some(Direction::Any)), p1)
    } else {
        (Ok(None), p)
    }
}

/// An optional `>` after a simplified path pattern, which turns the override `leading`
/// towards the right.
pub open spec fn direction_override_suffix_step(v: InputView, p: int, leading: Option<Direction>) -> (
    Result<Option<Direction>, ErrorView>,
    int,
) {
    if kind_at(v, p) == TokenKind::Gt {
        (
            Ok(
                Some(
                    match leading {
                        Some(Direction::Left) => Direction::LeftOrRight,
                        Some(Direction::Undirected) => Direction::UndirectedOrRight,
                        Some(d) => d,
                        None => Direction::Right,
                    },
                ),
            ),
            next_pos(v, p),
        )
    } else {
        (Ok(leading), p)
    }
}

/// The opening delimiter of a simplified path pattern.
#[derive(Clone, Copy, Debug, PartialEq, Eq, Structural)]
pub enum SimplifiedPrefix {
    Minus,
    ArrowLeft,
    Tilde,
    LtTilde,
}

/// The opening delimiter of a simplified path pattern: `-/`, `~/`, `<-/` or `<~/`.
pub open spec fn simplified_prefix_step(v: InputView, p: int) -> (Result<SimplifiedPrefix, ErrorView>, int) {
    let k = kind_at(v, p);
    if k == TokenKind::Minus || k == TokenKind::Tilde || k == TokenKind::ArrowLeft {
        let prefix = if k == TokenKind::Minus {
            SimplifiedPrefix::Minus
        } else if k == TokenKind::Tilde {
            SimplifiedPrefix::Tilde
        } else {
            SimplifiedPrefix::ArrowLeft
        };
        match expect_step(v, next_pos(v, p), TokenKind::Slash) {
            (Err(e), q) => (Err(e), q),
            (Ok(_), q) => (Ok(prefix), q),
        }
    } else {
        match expect_step(v, p, TokenKind::Lt) {
            (Err(e), q) => (Err(e), q),
            (Ok(_), q) => match expect_step(v, q, TokenKind::Tilde) {
                (Err(e), q2) => (Err(e), q2),
                (Ok(_), q2) => match expect_step(v, q2, TokenKind::Slash) {
                    (Err(e), q3) => (Err(e), q3),
                    (Ok(_), q3) => (Ok(SimplifiedPrefix::LtTilde), q3),
                },
            },
        }
    }
}

/// The closing delimiter of a simplified path pattern opened by `prefix`, and the direction
/// that the pair gives.
pub open spec fn simplified_suffix_step(v: InputView, p: int, prefix: SimplifiedPrefix) -> (
    Result<Direction, ErrorView>,
    int,
) {
    match expect_step(v, p, TokenKind::Slash) {
        (Err(e), q) => (Err(e), q),
        (Ok(_), q) => match prefix {
            SimplifiedPrefix::Minus => if kind_at(v, q) == TokenKind::ArrowRight {
                (Ok(Direction::Right), next_pos(v, q))
            } else {
                match expect_step(v, q, TokenKind::Minus) {
                    (Err(e), q2) => (Err(e), q2),
                    (Ok(_), q2) => (Ok(Direction::Any), q2),
                }
            },
            SimplifiedPrefix::ArrowLeft => if kind_at(v, q) == TokenKind::ArrowRight {
                (Ok(Direction::LeftOrRight), next_pos(v, q))
            } else {
                match expect_step(v, q, TokenKind::Minus) {
                    (Err(e), q2) => (Err(e), q2),
                    (Ok(_), q2) => (Ok(Direction::Left), q2),
                }
            },
            SimplifiedPrefix::Tilde => match expect_step(v, q, TokenKind::Tilde) {
                (Err(e), q2) => (Err(e), q2),
                (Ok(_), q2) => if kind_at(v, q2) == TokenKind::Gt {
                    (Ok(Direction::UndirectedOrRight), next_pos(v, q2))
                } else {
                    (Ok(Direction::Undirected), q2)
                },
            },
            SimplifiedPrefix::LtTilde => match expect_step(v, q, TokenKind::Tilde) {
                (Err(e), q2) => (Err(e), q2),
                (Ok(_), q2) => (Ok(Direction::LeftOrUndirected), q2),
            },
        },
    }
}

/// The path pattern alternation operator at `p`, if there is one: `|+|` or `|`.
pub open spec fn alternation_operator_at(v: InputView, p: int) -> Option<PathPatternAlternation> {
    if kind_at(v, p) == TokenKind::Pipe && kind_ahead(v, p, 1) == Some(TokenKind::Plus) {
        Some(PathPatternAlternation::MultisetAlternation)
    } else if kind_at(v, p) == TokenKind::Pipe {
        Some(PathPatternAlternation::Union)
    } else {
        None
    }
}

/// A path pattern alternation operator: `|+|` or `|`.
pub open spec fn alternation_operator_step(v: InputView, p: int) -> (
    Result<PathPatternAlternation, ErrorView>,
    int,
) {
    match expect_step(v, p, TokenKind::Pipe) {
        (Err(e), q) => (Err(e), q),
        (Ok(_), q) => if kind_at(v, q) == TokenKind::Plus {
            match expect_step(v, next_pos(v, q), TokenKind::Pipe) {
                (Err(e), q2) => (Err(e), q2),
                (Ok(_), q2) => (Ok(PathPatternAlternation::MultisetAlternation), q2),
            }
        } else {
            (Ok(PathPatternAlternation::Union), q)
        },
    }
}

/// An optional trim specification: `LEADING`, `TRAILING` or `BOTH`.
pub open spec fn trim_specification_step(v: InputView, p: int) -> (Option<TrimSpec>, int) {
    if kind_at(v, p) == TokenKind::Leading {
        (Some(TrimSpec::Leading), next_pos(v, p))
    } else if kind_at(v, p) == TokenKind::Trailing {
        (Some(TrimSpec::Trailing), next_pos(v, p))
    } else if kind_at(v, p) == TokenKind::Both {
        (Some(TrimSpec::Both), next_pos(v, p))
    } else {
        (None, p)
    }
}

/// A Unicode normal form: `NFC`, `NFD`, `NFKC` or `NFKD`, in any case.
pub open spec fn normal_form_step(v: InputView, p: int) -> (Result<Seq<char>, ErrorView>, int) {
    match identifier_step(v, p) {
        (Err(e), q) => (Err(e), q),
        (Ok(name), q) => if eq_ignore_ascii_case(name, "NFC"@) || eq_ignore_ascii_case(name, "NFD"@)
            || eq_ignore_ascii_case(name, "NFKC"@) || eq_ignore_ascii_case(name, "NFKD"@) {
            (Ok(name), q)
        } else {
            (Err(message_at(v, q, "invalid normal form '"@ + name + "'"@)), q)
        },
    }
}

/// A field of an SQL interval qualifier.
#[derive(Clone, Copy, Debug, PartialEq, Eq, Structural)]
pub enum SqlIntervalFieldKind {
    Year,
    Month,
    Day,
    Hour,
    Minute,
    Second,
}

/// The interval field that `name` names, ignoring case.
pub open spec fn interval_field_kind(name: Seq<char>) -> Option<SqlIntervalFieldKind> {
    if eq_ignore_ascii_case(name, "YEAR"@) {
        Some(SqlIntervalFieldKind::Year)
    } else if eq_ignore_ascii_case(name, "MONTH"@) {
        Some(SqlIntervalFieldKind::Month)
    } else if eq_ignore_ascii_case(name, "DAY"@) {
        Some(SqlIntervalFieldKind::Day)
    } else if eq_ignore_ascii_case(name, "HOUR"@) {
        Some(SqlIntervalFieldKind::Hour)
    } else if eq_ignore_ascii_case(name, "MINUTE"@) {
        Some(SqlIntervalFieldKind::Minute)
    } else if eq_ignore_ascii_case(name, "SECOND"@) {
        Some(SqlIntervalFieldKind::Second)
    } else {
        None
    }
}

/// An interval field name: `YEAR`, `MONTH`, `DAY`, `HOUR`, `MINUTE` or `SECOND`.
pub open spec fn interval_field_name_step(v: InputView, p: int) -> (
    Result<(Seq<char>, SqlIntervalFieldKind), ErrorView>,
    int,
) {
    let offset = tok(v, p).offset;
    match identifier_step(v, p) {
        (Err(e), q) => (Err(e), q),
        (Ok(name), q) => match interval_field_kind(name) {
            Some(kind) => (Ok((name, kind)), q),
            None => (
                Err(ErrorView::Message { offset, message: "invalid interval field '"@ + name + "'"@ }),
                q,
            ),
        },
    }
}

/// The start field of an interval qualifier, with an optional precision and, for `SECOND`
/// alone, a fractional precision.
pub open spec fn interval_start_field_step(v: InputView, p: int) -> (
    Result<(Seq<char>, SqlIntervalFieldKind, Option<u64>, Option<u64>), ErrorView>,
    int,
) {
    match interval_field_name_step(v, p) {
        (Err(e), q) => (Err(e), q),
        (Ok((name, kind)), q) => if kind_at(v, q) == TokenKind::LParen {
            match u64_literal_step(v, next_pos(v, q)) {
                (Err(e), q2) => (Err(e), q2),
                (Ok(precision), q2) => {
                    let (fractional, q3) = if kind_at(v, q2) == TokenKind::Comma {
                        if kind != SqlIntervalFieldKind::Second {
                            (
                                Err(
                                    message_at(
                                        v,
                                        next_pos(v, q2),
                                        "only SECOND interval field can specify fractional precision"@,
                                    ),
                                ),
                                next_pos(v, q2),
                            )
                        } else {
                            match u64_literal_step(v, next_pos(v, q2)) {
                                (Err(e), q3) => (Err(e), q3),
                                (Ok(n), q3) => (Ok(Some(n)), q3),
                            }
                        }
                    } else {
                        (Ok(None), q2)
                    };
                    match fractional {
                        Err(e) => (Err(e), q3),
                        Ok(fractional) => match expect_step(v, q3, TokenKind::RParen) {
                            (Err(e), q4) => (Err(e), q4),
                            (Ok(_), q4) => (Ok((name, kind, Some(precision), fractional)), q4),
                        },
                    }
                },
            }
        } else {
            (Ok((name, kind, None, None)), q)
        },
    }
}

/// The end field of an interval qualifier, with a fractional precision for `SECOND` alone.
pub open spec fn interval_end_field_step(v: InputView, p: int) -> (
    Result<(Seq<char>, SqlIntervalFieldKind, Option<u64>), ErrorView>,
    int,
) {
    match interval_field_name_step(v, p) {
        (Err(e), q) => (Err(e), q),
        (Ok((name, kind)), q) => if kind_at(v, q) == TokenKind::LParen {
            let q1 = next_pos(v, q);
            if kind != SqlIntervalFieldKind::Second {
                (
                    Err(message_at(v, q1, "only SECOND end interval field can specify fractional precision"@)),
                    q1,
                )
            } else {
                match u64_literal_step(v, q1) {
                    (Err(e), q2) => (Err(e), q2),
                    (Ok(n), q2) => match expect_step(v, q2, TokenKind::RParen) {
                        (Err(e), q3) => (Err(e), q3),
                        (Ok(_), q3) => (Ok((name, kind, Some(n))), q3),
                    },
                }
            }
        } else {
            (Ok((name, kind, None)), q)
        },
    }
}

/// Whether an interval may run from the field `start` to the field `end`.
pub open spec fn interval_range_valid(start: SqlIntervalFieldKind, end: SqlIntervalFieldKind) -> bool {
    ||| (start == SqlIntervalFieldKind::Year && end == SqlIntervalFieldKind::Month)
    ||| (start == SqlIntervalFieldKind::Day && end == SqlIntervalFieldKind::Hour)
    ||| (start == SqlIntervalFieldKind::Day && end == SqlIntervalFieldKind::Minute)
    ||| (start == SqlIntervalFieldKind::Day && end == SqlIntervalFieldKind::Second)
    ||| (start == SqlIntervalFieldKind::Hour && end == SqlIntervalFieldKind::Minute)
    ||| (start == SqlIntervalFieldKind::Hour && end == SqlIntervalFieldKind::Second)
    ||| (start == SqlIntervalFieldKind::Minute && end == SqlIntervalFieldKind::Second)
}

/// An SQL interval qualifier: a start field, and optionally `TO` and an end field that may
/// follow it.
pub open spec fn sql_interval_qualifier_step(v: InputView, p: int) -> (
    Result<SqlIntervalQualifierView, ErrorView>,
    int,
) {
    match interval_start_field_step(v, p) {
        (Err(e), q) => (Err(e), q),
        (Ok((start, start_kind, start_precision, fractional)), q) => if kind_at(v, q) == TokenKind::To {
            let q1 = next_pos(v, q);
            if fractional is Some {
                (
                    Err(message_at(v, q1, "SECOND interval qualifier cannot specify fractional precision before TO"@)),
                    q1,
                )
            } else {
                let end_offset = tok(v, q1).offset;
                match interval_end_field_step(v, q1) {
                    (Err(e), q2) => (Err(e), q2),
                    (Ok((end, end_kind, end_precision)), q2) => if !interval_range_valid(start_kind, end_kind) {
                        (
                            Err(ErrorView::Message { offset: end_offset, message: "invalid SQL interval qualifier range"@ }),
                            q2,
                        )
                    } else {
                        (
                            Ok(
                                SqlIntervalQualifierView {
                                    start,
                                    start_precision,
                                    end: Some(end),
                                    end_precision,
                                },
                            ),
                            q2,
                        )
                    },
                }
            }
        } else {
            (Ok(SqlIntervalQualifierView { start, start_precision, end: None, end_precision: fractional }), q)
        },
    }
}

/// Identifiers separated by commas, after the first ones, which made `acc`.
pub open spec fn identifiers_rest(v: InputView, acc: Seq<Seq<char>>, p: int) -> (
    Result<Seq<Seq<char>>, ErrorView>,
    int,
)
    decreases v.tokens.len() - p,
{
    if kind_at(v, p) == TokenKind::Comma {
        match identifier_step(v, next_pos(v, p)) {
            (Err(e), q) => (Err(e), q),
            (Ok(name), q) => if p < q <= v.tokens.len() {
                identifiers_rest(v, acc.push(name), q)
            } else {
                (Ok(acc.push(name)), q)
            },
        }
    } else {
        (Ok(acc), p)
    }
}

/// At least two element variables in parentheses, separated by commas.
pub open spec fn element_variable_list_step(v: InputView, p: int) -> (Result<Seq<Seq<char>>, ErrorView>, int) {
    match expect_step(v, p, TokenKind::LParen) {
        (Err(e), q) => (Err(e), q),
        (Ok(_), q) => match identifier_step(v, q) {
            (Err(e), q1) => (Err(e), q1),
            (Ok(first), q1) => match expect_step(v, q1, TokenKind::Comma) {
                (Err(e), q2) => (Err(e), q2),
                (Ok(_), q2) => match identifier_step(v, q2) {
                    (Err(e), q3) => (Err(e), q3),
                    (Ok(second), q3) => match identifiers_rest(v, seq![first, second], q3) {
                        (Err(e), q4) => (Err(e), q4),
                        (Ok(vars), q4) => match expect_step(v, q4, TokenKind::RParen) {
                            (Err(e), q5) => (Err(e), q5),
                            (Ok(_), q5) => (Ok(vars), q5),
                        },
                    },
                },
            },
        },
    }
}

/// The conjunction of labels, grouped to the left.
pub open spec fn label_conjunction(labels: Seq<Seq<char>>) -> LabelExpressionView
    decreases labels.len(),
{
    if labels.len() <= 1 {
        LabelExpressionView::Label(labels[0])
    } else {
        LabelExpressionView::And(
            Box::new(label_conjunction(labels.drop_last())),
            Box::new(LabelExpressionView::Label(labels.last())),
        )
    }
}

/// The label set of an inserted element: labels joined by `&`, without repeats when case
/// is ignored, and their conjunction.
pub open spec fn insert_label_set_step(v: InputView, p: int) -> (
    Result<(Seq<Seq<char>>, Option<LabelExpressionView>), ErrorView>,
    int,
) {
    match identifier_step(v, p) {
        (Err(e), q) => (Err(e), q),
        (Ok(first), q) => match ampersand_labels_rest(v, push_if_absent(Seq::empty(), first), q) {
            (Err(e), q2) => (Err(e), q2),
            (Ok(labels), q2) => (Ok((labels, Some(label_conjunction(labels)))), q2),
        },
    }
}

} // verus!
