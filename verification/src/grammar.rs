use vstd::prelude::*;
use crate::ast::{
    CatalogNameView, CommitStatement, IsolationLevel, ReferenceView, RollbackStatement,
    SchemaReferenceView, SessionResetTargetView, StartTransactionStatement, TransactionAccessMode,
};
use crate::ast::{
    LabelExpressionView, PathMode, PathOrPaths, PathPatternPrefixView, PathPatternQuantifier,
    PathSearchPrefixView, UnsignedIntegerSpecificationView,
};
use crate::error::ErrorView;
use crate::lexer::digits_value;
use crate::chars::is_ascii_digit;
use crate::kinds::{spec_is_identifier_like, spec_is_schema_reference_follow};
use crate::parser::{eof_err, expect_step, expected_err, kind_at, next_pos, tok, InputView};
use crate::text::trim_dollars;
use crate::token::TokenKind;

verus! {

// The syntactic grammar: each function reads one construct from the tokens of `v` at
// position `p` and gives the value read, or the error, with the position where reading
// stopped.

/// An identifier: a token that can stand for one, whose text is the identifier.
pub open spec fn identifier_step(v: InputView, p: int) -> (Result<Seq<char>, ErrorView>, int) {
    if spec_is_identifier_like(kind_at(v, p)) {
        (Ok(tok(v, p).text), next_pos(v, p))
    } else if kind_at(v, p) == TokenKind::Eof {
        (Err(eof_err(v)), p)
    } else {
        (
            Err(
                ErrorView::UnexpectedToken {
                    offset: tok(v, p).offset,
                    expected: seq![TokenKind::Identifier],
                    got: kind_at(v, p),
                    token_text: tok(v, p).text,
                },
            ),
            p,
        )
    }
}

/// A parameter name: a parameter token without its leading `$`, or an identifier.
pub open spec fn parameter_name_step(v: InputView, p: int) -> (Result<Seq<char>, ErrorView>, int) {
    if kind_at(v, p) == TokenKind::Parameter {
        (Ok(trim_dollars(tok(v, p).text)), next_pos(v, p))
    } else {
        identifier_step(v, p)
    }
}

/// An optional `IF NOT EXISTS`.
pub open spec fn if_not_exists_step(v: InputView, p: int) -> (Result<bool, ErrorView>, int) {
    if kind_at(v, p) == TokenKind::If {
        match expect_step(v, next_pos(v, p), TokenKind::Not) {
            (Err(e), q) => (Err(e), q),
            (Ok(_), q) => match expect_step(v, q, TokenKind::Exists) {
                (Err(e), q2) => (Err(e), q2),
                (Ok(_), q2) => (Ok(true), q2),
            },
        }
    } else {
        (Ok(false), p)
    }
}

/// An optional `IF EXISTS`.
pub open spec fn if_exists_step(v: InputView, p: int) -> (Result<bool, ErrorView>, int) {
    if kind_at(v, p) == TokenKind::If {
        match expect_step(v, next_pos(v, p), TokenKind::Exists) {
            (Err(e), q) => (Err(e), q),
            (Ok(_), q) => (Ok(true), q),
        }
    } else {
        (Ok(false), p)
    }
}

/// `COMMIT`.
pub open spec fn commit_step(v: InputView, p: int) -> (Result<CommitStatement, ErrorView>, int) {
    match expect_step(v, p, TokenKind::Commit) {
        (Err(e), q) => (Err(e), q),
        (Ok(_), q) => (Ok(CommitStatement), q),
    }
}

/// `ROLLBACK`.
pub open spec fn rollback_step(v: InputView, p: int) -> (Result<RollbackStatement, ErrorView>, int) {
    match expect_step(v, p, TokenKind::Rollback) {
        (Err(e), q) => (Err(e), q),
        (Ok(_), q) => (Ok(RollbackStatement), q),
    }
}

/// The error for a transaction characteristic that GQL does not have.
pub open spec fn message_at(v: InputView, p: int, message: Seq<char>) -> ErrorView {
    ErrorView::Message { offset: tok(v, p).offset, message }
}

/// The transaction characteristics after `START TRANSACTION`: at most one access mode,
/// `READ ONLY` or `READ WRITE`; isolation levels and further modes are refused.
pub open spec fn transaction_characteristics_step(v: InputView, p: int) -> (
    Result<StartTransactionStatement, ErrorView>,
    int,
) {
    if kind_at(v, p) == TokenKind::Isolation {
        (Err(message_at(v, p, "ISOLATION LEVEL is not a GQL transaction characteristic"@)), p)
    } else if kind_at(v, p) == TokenKind::Read {
        let p1 = next_pos(v, p);
        let (mode, p2) = if kind_at(v, p1) == TokenKind::Only {
            (Ok(TransactionAccessMode::ReadOnly), next_pos(v, p1))
        } else {
            match expect_step(v, p1, TokenKind::Write) {
                (Err(e), q) => (Err(e), q),
                (Ok(_), q) => (Ok(TransactionAccessMode::ReadWrite), q),
            }
        };
        match mode {
            Err(e) => (Err(e), p2),
            Ok(m) => if kind_at(v, p2) == TokenKind::Comma {
                let p3 = next_pos(v, p2);
                if kind_at(v, p3) == TokenKind::Read {
                    (
                        Err(
                            message_at(
                                v,
                                p3,
                                "transaction characteristics must contain exactly one access mode"@,
                            ),
                        ),
                        p3,
                    )
                } else if kind_at(v, p3) == TokenKind::Isolation {
                    (
                        Err(message_at(v, p3, "ISOLATION LEVEL is not a GQL transaction characteristic"@)),
                        p3,
                    )
                } else {
                    (
                        Err(
                            message_at(
                                v,
                                p3,
                                "implementation-defined transaction modes are not supported"@,
                            ),
                        ),
                        p3,
                    )
                }
            } else {
                (Ok(StartTransactionStatement { access_mode: Some(m), isolation_level: None }), p2)
            },
        }
    } else {
        (Ok(StartTransactionStatement { access_mode: None, isolation_level: None }), p)
    }
}

/// `START TRANSACTION` and its characteristics.
pub open spec fn start_transaction_step(v: InputView, p: int) -> (
    Result<StartTransactionStatement, ErrorView>,
    int,
) {
    match expect_step(v, p, TokenKind::Start) {
        (Err(e), q) => (Err(e), q),
        (Ok(_), q) => match expect_step(v, q, TokenKind::Transaction) {
            (Err(e), q2) => (Err(e), q2),
            (Ok(_), q2) => transaction_characteristics_step(v, q2),
        },
    }
}

/// What `SESSION RESET` resets, after the `RESET` keyword.
pub open spec fn session_reset_target_step(v: InputView, p: int) -> (
    Result<SessionResetTargetView, ErrorView>,
    int,
) {
    let k = kind_at(v, p);
    let p1 = next_pos(v, p);
    if k == TokenKind::Semicolon || k == TokenKind::Eof {
        (Ok(SessionResetTargetView::AllCharacteristics), p)
    } else if k == TokenKind::All {
        if kind_at(v, p1) == TokenKind::Parameters {
            (Ok(SessionResetTargetView::AllParameters), next_pos(v, p1))
        } else if kind_at(v, p1) == TokenKind::Characteristics {
            (Ok(SessionResetTargetView::AllCharacteristics), next_pos(v, p1))
        } else {
            (
                Err(
                    expected_err(
                        v,
                        p1,
                        seq![TokenKind::Parameters, TokenKind::Characteristics],
                        kind_at(v, p1),
                    ),
                ),
                p1,
            )
        }
    } else if k == TokenKind::Parameters {
        (Ok(SessionResetTargetView::AllParameters), p1)
    } else if k == TokenKind::Characteristics {
        (Ok(SessionResetTargetView::AllCharacteristics), p1)
    } else if k == TokenKind::Schema {
        (Ok(SessionResetTargetView::Schema), p1)
    } else if k == TokenKind::Property {
        match expect_step(v, p1, TokenKind::Graph) {
            (Err(e), q) => (Err(e), q),
            (Ok(_), q) => (Ok(SessionResetTargetView::Graph), q),
        }
    } else if k == TokenKind::Graph {
        (Ok(SessionResetTargetView::Graph), p1)
    } else if k == TokenKind::Time {
        match expect_step(v, p1, TokenKind::Zone) {
            (Err(e), q) => (Err(e), q),
            (Ok(_), q) => (Ok(SessionResetTargetView::TimeZone), q),
        }
    } else if k == TokenKind::ParameterKeyword || k == TokenKind::Parameter {
        let q = if k == TokenKind::ParameterKeyword {
            p1
        } else {
            p
        };
        match parameter_name_step(v, q) {
            (Err(e), q2) => (Err(e), q2),
            (Ok(name), q2) => (Ok(SessionResetTargetView::Parameter(name)), q2),
        }
    } else {
        (
            Err(
                expected_err(
                    v,
                    p,
                    seq![
                        TokenKind::All,
                        TokenKind::Parameters,
                        TokenKind::Characteristics,
                        TokenKind::Schema,
                        TokenKind::Property,
                        TokenKind::Graph,
                        TokenKind::Time,
                        TokenKind::ParameterKeyword,
                        TokenKind::Parameter,
                    ],
                    k,
                ),
            ),
            p,
        )
    }
}

/// `RESET` and what it resets.
pub open spec fn session_reset_step(v: InputView, p: int) -> (
    Result<SessionResetTargetView, ErrorView>,
    int,
) {
    match expect_step(v, p, TokenKind::Reset) {
        (Err(e), q) => (Err(e), q),
        (Ok(_), q) => session_reset_target_step(v, q),
    }
}

/// The `../` steps of a name from `p`, after its first `..`: each step is a `/`, and
/// another `..` adds a level.
pub open spec fn parent_levels_step(v: InputView, p: int, levels: int) -> (Result<int, ErrorView>, int)
    decreases v.tokens.len() - p,
{
    match expect_step(v, p, TokenKind::Slash) {
        (Err(e), q) => (Err(e), q),
        (Ok(_), p1) => if kind_at(v, p1) == TokenKind::Dot {
            match expect_step(v, next_pos(v, p1), TokenKind::Dot) {
                (Err(e), q) => (Err(e), q),
                (Ok(_), p3) => if p < p3 <= v.tokens.len() {
                    parent_levels_step(v, p3, levels + 1)
                } else {
                    (Ok(levels + 1), p3)
                },
            }
        } else {
            (Ok(levels), p1)
        },
    }
}

/// The remaining parts of a name from `p`, each after a `.` or `/`, appended to `parts`.
pub open spec fn name_parts_rest(v: InputView, p: int, parts: Seq<Seq<char>>) -> (
    Result<Seq<Seq<char>>, ErrorView>,
    int,
)
    decreases v.tokens.len() - p,
{
    if 0 <= p < v.tokens.len() && (kind_at(v, p) == TokenKind::Dot || kind_at(v, p)
        == TokenKind::Slash) {
        match identifier_step(v, next_pos(v, p)) {
            (Err(e), q) => (Err(e), q),
            (Ok(id), q) => if p < q <= v.tokens.len() {
                name_parts_rest(v, q, parts.push(id))
            } else {
                (Ok(parts.push(id)), q)
            },
        }
    } else {
        (Ok(parts), p)
    }
}

/// How a catalog name is anchored, before its parts: `/` (absolute), `CURRENT_SCHEMA/`,
/// `HOME_SCHEMA/`, `./`, or one or more `../`.
pub open spec fn name_anchor_step(v: InputView, p: int) -> (
    Result<(bool, bool, bool, int), ErrorView>,
    int,
) {
    let k = kind_at(v, p);
    let p1 = next_pos(v, p);
    if k == TokenKind::Slash {
        (Ok((true, false, false, 0)), p1)
    } else if k == TokenKind::CurrentSchema || k == TokenKind::HomeSchema {
        match expect_step(v, p1, TokenKind::Slash) {
            (Err(e), q) => (Err(e), q),
            (Ok(_), q) => (Ok((false, k == TokenKind::CurrentSchema, k == TokenKind::HomeSchema, 0)), q),
        }
    } else if k == TokenKind::Dot {
        if kind_at(v, p1) == TokenKind::Dot {
            match parent_levels_step(v, next_pos(v, p1), 1) {
                (Err(e), q) => (Err(e), q),
                (Ok(levels), q) => (Ok((false, false, false, levels)), q),
            }
        } else {
            match expect_step(v, p1, TokenKind::Slash) {
                (Err(e), q) => (Err(e), q),
                (Ok(_), q) => (Ok((false, true, false, 0)), q),
            }
        }
    } else {
        (Ok((false, false, false, 0)), p)
    }
}

/// A catalog object name: its anchor and its parts, separated by `.` or `/`.
pub open spec fn catalog_name_step(v: InputView, p: int) -> (Result<CatalogNameView, ErrorView>, int) {
    match name_anchor_step(v, p) {
        (Err(e), q) => (Err(e), q),
        (Ok((absolute, current_schema, home_schema, parent_levels)), q) => match identifier_step(v, q) {
            (Err(e), q2) => (Err(e), q2),
            (Ok(first), q2) => match name_parts_rest(v, q2, seq![first]) {
                (Err(e), q3) => (Err(e), q3),
                (Ok(parts), q3) => (
                    Ok(CatalogNameView { absolute, current_schema, home_schema, parent_levels, parts }),
                    q3,
                ),
            },
        },
    }
}

/// The `../` steps of a parent schema reference from `p`, after its first `..`, and the
/// schema name that follows them.
pub open spec fn parent_schema_step(v: InputView, p: int, levels: int) -> (
    Result<SchemaReferenceView, ErrorView>,
    int,
)
    decreases v.tokens.len() - p,
{
    match expect_step(v, p, TokenKind::Slash) {
        (Err(e), q) => (Err(e), q),
        (Ok(_), p1) => if kind_at(v, p1) == TokenKind::Dot {
            match expect_step(v, next_pos(v, p1), TokenKind::Dot) {
                (Err(e), q) => (Err(e), q),
                (Ok(_), p3) => if p < p3 <= v.tokens.len() {
                    parent_schema_step(v, p3, levels + 1)
                } else {
                    (Err(ErrorView::UnexpectedEof), p3)
                },
            }
        } else {
            match catalog_name_step(v, p1) {
                (Err(e), q) => (Err(e), q),
                (Ok(name), q) => (Ok(SchemaReferenceView::Parent { levels, name }), q),
            }
        },
    }
}

/// A schema reference: a parameter, `CURRENT_SCHEMA`, `HOME_SCHEMA`, the root `/`, an
/// absolute name, `.`, a parent reference `../..`, or a relative name.
pub open spec fn schema_reference_step(v: InputView, p: int) -> (
    Result<SchemaReferenceView, ErrorView>,
    int,
) {
    let k = kind_at(v, p);
    let p1 = next_pos(v, p);
    if k == TokenKind::Parameter {
        (Ok(SchemaReferenceView::Parameter(trim_dollars(tok(v, p).text))), p1)
    } else if k == TokenKind::CurrentSchema {
        (Ok(SchemaReferenceView::CurrentSchema), p1)
    } else if k == TokenKind::HomeSchema {
        (Ok(SchemaReferenceView::HomeSchema), p1)
    } else if k == TokenKind::Slash {
        if spec_is_schema_reference_follow(kind_at(v, p1)) || !spec_is_identifier_like(kind_at(v, p1)) {
            (Ok(SchemaReferenceView::Root), p1)
        } else {
            match catalog_name_step(v, p1) {
                (Err(e), q) => (Err(e), q),
                (Ok(name), q) => (Ok(SchemaReferenceView::Absolute(name)), q),
            }
        }
    } else if k == TokenKind::Dot {
        if kind_at(v, p1) == TokenKind::Dot {
            parent_schema_step(v, next_pos(v, p1), 1)
        } else {
            (Ok(SchemaReferenceView::CurrentSchema), p1)
        }
    } else {
        match catalog_name_step(v, p) {
            (Err(e), q) => (Err(e), q),
            (Ok(name), q) => (Ok(SchemaReferenceView::Name(name)), q),
        }
    }
}

/// A reference to a graph type or a procedure: a parameter, or a catalog name.
pub open spec fn reference_step(v: InputView, p: int) -> (Result<ReferenceView, ErrorView>, int) {
    if kind_at(v, p) == TokenKind::Parameter {
        (Ok(ReferenceView::Parameter(trim_dollars(tok(v, p).text))), next_pos(v, p))
    } else {
        match catalog_name_step(v, p) {
            (Err(e), q) => (Err(e), q),
            (Ok(name), q) => (Ok(ReferenceView::Name(name)), q),
        }
    }
}

/// An optional `PROPERTY GRAPH` or `GRAPH`: whether it was `PROPERTY GRAPH`.
pub open spec fn property_graph_prefix_step(v: InputView, p: int) -> (Result<bool, ErrorView>, int) {
    if kind_at(v, p) == TokenKind::Property {
        match expect_step(v, next_pos(v, p), TokenKind::Graph) {
            (Err(e), q) => (Err(e), q),
            (Ok(_), q) => (Ok(true), q),
        }
    } else if kind_at(v, p) == TokenKind::Graph {
        (Ok(false), next_pos(v, p))
    } else {
        (Ok(false), p)
    }
}

/// An optional `::`, `:: TYPED` or `TYPED`: whether there was one.
pub open spec fn typed_marker_step(v: InputView, p: int) -> (Result<bool, ErrorView>, int) {
    if kind_at(v, p) == TokenKind::DoubleColon {
        let p1 = next_pos(v, p);
        if kind_at(v, p1) == TokenKind::Typed {
            (Ok(true), next_pos(v, p1))
        } else {
            (Ok(true), p1)
        }
    } else if kind_at(v, p) == TokenKind::Typed {
        (Ok(true), next_pos(v, p))
    } else {
        (Ok(false), p)
    }
}

/// `t` without one leading `+`, if it has one.
pub open spec fn strip_plus(t: Seq<char>) -> Seq<char> {
    if t.len() > 0 && t[0] == '+' {
        t.drop_first()
    } else {
        t
    }
}

/// Whether every character of `d` is an ASCII digit.
pub open spec fn all_ascii_digits(d: Seq<char>) -> bool {
    forall|i: int| 0 <= i < d.len() ==> #[trigger] is_ascii_digit(d[i])
}

/// The value of a decimal numeral, as `u64::from_str` reads it: an optional `+` and at
/// least one ASCII digit, of a value that fits in a `u64`.
pub open spec fn u64_from_text(t: Seq<char>) -> Option<u64> {
    let d = strip_plus(t);
    if d.len() > 0 && all_ascii_digits(d) && digits_value(d, 10) <= u64::MAX {
        Some(digits_value(d, 10) as u64)
    } else {
        None
    }
}

/// An integer literal that fits in a `u64`.
pub open spec fn u64_literal_step(v: InputView, p: int) -> (Result<u64, ErrorView>, int) {
    match expect_step(v, p, TokenKind::Integer) {
        (Err(e), q) => (Err(e), q),
        (Ok(t), q) => match u64_from_text(t.text) {
            Some(n) => (Ok(n), q),
            None => (Err(ErrorView::BadNumber { offset: t.offset, token_text: t.text }), q),
        },
    }
}

/// The error for a count that must be positive; `description` names it.
pub open spec fn not_positive_err(v: InputView, p: int, description: Seq<char>) -> ErrorView {
    ErrorView::Message {
        offset: tok(v, p).offset,
        message: description + " must be greater than or equal to 1"@,
    }
}

/// An integer literal that fits in a `u64` and is at least 1.
pub open spec fn positive_u64_literal_step(v: InputView, p: int, description: Seq<char>) -> (
    Result<u64, ErrorView>,
    int,
) {
    match u64_literal_step(v, p) {
        (Err(e), q) => (Err(e), q),
        (Ok(n), q) => if n == 0 {
            (Err(not_positive_err(v, q, description)), q)
        } else {
            (Ok(n), q)
        },
    }
}

/// An optional unsigned integer: an integer literal or a parameter.
pub open spec fn optional_unsigned_integer_step(v: InputView, p: int) -> (
    Result<Option<UnsignedIntegerSpecificationView>, ErrorView>,
    int,
) {
    if kind_at(v, p) == TokenKind::Integer {
        match u64_literal_step(v, p) {
            (Err(e), q) => (Err(e), q),
            (Ok(n), q) => (Ok(Some(UnsignedIntegerSpecificationView::Literal(n))), q),
        }
    } else if kind_at(v, p) == TokenKind::Parameter {
        (
            Ok(Some(UnsignedIntegerSpecificationView::Parameter(trim_dollars(tok(v, p).text)))),
            next_pos(v, p),
        )
    } else {
        (Ok(None), p)
    }
}

/// An unsigned integer: an integer literal or a parameter.
pub open spec fn unsigned_integer_step(v: InputView, p: int) -> (
    Result<UnsignedIntegerSpecificationView, ErrorView>,
    int,
) {
    match optional_unsigned_integer_step(v, p) {
        (Err(e), q) => (Err(e), q),
        (Ok(Some(n)), q) => (Ok(n), q),
        (Ok(None), q) => (
            Err(expected_err(v, q, seq![TokenKind::Integer, TokenKind::Parameter], kind_at(v, q))),
            q,
        ),
    }
}

/// An optional path mode: `WALK`, `TRAIL`, `SIMPLE` or `ACYCLIC`.
pub open spec fn path_mode_step(v: InputView, p: int) -> (Option<PathMode>, int) {
    let k = kind_at(v, p);
    if k == TokenKind::Walk {
        (Some(PathMode::Walk), next_pos(v, p))
    } else if k == TokenKind::Trail {
        (Some(PathMode::Trail), next_pos(v, p))
    } else if k == TokenKind::Simple {
        (Some(PathMode::Simple), next_pos(v, p))
    } else if k == TokenKind::Acyclic {
        (Some(PathMode::Acyclic), next_pos(v, p))
    } else {
        (None, p)
    }
}

/// An optional `PATH` or `PATHS`.
pub open spec fn path_or_paths_step(v: InputView, p: int) -> (Option<PathOrPaths>, int) {
    let k = kind_at(v, p);
    if k == TokenKind::Path {
        (Some(PathOrPaths::Path), next_pos(v, p))
    } else if k == TokenKind::Paths {
        (Some(PathOrPaths::Paths), next_pos(v, p))
    } else {
        (None, p)
    }
}

/// An optional path mode followed by an optional `PATH`/`PATHS`.
pub open spec fn mode_and_paths_step(v: InputView, p: int) -> (Option<PathMode>, Option<PathOrPaths>, int) {
    let (mode, p1) = path_mode_step(v, p);
    let (paths, p2) = path_or_paths_step(v, p1);
    (mode, paths, p2)
}

/// An optional path search prefix: `ALL [SHORTEST]`, `ANY [SHORTEST]`, `ANY n`, or
/// `SHORTEST [n] [GROUP|GROUPS]`, each with an optional mode and `PATH`/`PATHS`.
pub open spec fn path_search_prefix_step(v: InputView, p: int) -> (
    Result<Option<PathPatternPrefixView>, ErrorView>,
    int,
) {
    let k = kind_at(v, p);
    let p1 = next_pos(v, p);
    let shortest = kind_at(v, p1) == TokenKind::Shortest;
    let p2 = next_pos(v, p1);
    if k == TokenKind::All {
        if shortest {
            let (mode, paths, q) = mode_and_paths_step(v, p2);
            (
                Ok(Some(PathPatternPrefixView::Search(PathSearchPrefixView::AllShortest { mode, path_or_paths: paths }))),
                q,
            )
        } else {
            let (mode, paths, q) = mode_and_paths_step(v, p1);
            (Ok(Some(PathPatternPrefixView::Search(PathSearchPrefixView::All { mode, path_or_paths: paths }))), q)
        }
    } else if k == TokenKind::Any {
        if shortest {
            let (mode, paths, q) = mode_and_paths_step(v, p2);
            (
                Ok(Some(PathPatternPrefixView::Search(PathSearchPrefixView::AnyShortest { mode, path_or_paths: paths }))),
                q,
            )
        } else {
            match optional_unsigned_integer_step(v, p1) {
                (Err(e), q) => (Err(e), q),
                (Ok(count), q) => {
                    let (mode, paths, q2) = mode_and_paths_step(v, q);
                    (
                        Ok(
                            Some(
                                PathPatternPrefixView::Search(
                                    PathSearchPrefixView::Any { count, mode, path_or_paths: paths },
                                ),
                            ),
                        ),
                        q2,
                    )
                },
            }
        }
    } else if k == TokenKind::Shortest {
        match optional_unsigned_integer_step(v, p1) {
            (Err(e), q) => (Err(e), q),
            (Ok(count), q) => {
                let (mode, paths, q2) = mode_and_paths_step(v, q);
                let g = kind_at(v, q2);
                if g == TokenKind::Group || g == TokenKind::Groups {
                    (
                        Ok(
                            Some(
                                PathPatternPrefixView::Search(
                                    PathSearchPrefixView::CountedShortestGroup {
                                        count,
                                        mode,
                                        path_or_paths: paths,
                                        groups: g == TokenKind::Groups,
                                    },
                                ),
                            ),
                        ),
                        next_pos(v, q2),
                    )
                } else {
                    match count {
                        Some(c) => (
                            Ok(
                                Some(
                                    PathPatternPrefixView::Search(
                                        PathSearchPrefixView::CountedShortest {
                                            count: c,
                                            mode,
                                            path_or_paths: paths,
                                        },
                                    ),
                                ),
                            ),
                            q2,
                        ),
                        None => (
                            Ok(
                                Some(
                                    PathPatternPrefixView::Search(
                                        PathSearchPrefixView::Shortest { mode, path_or_paths: paths },
                                    ),
                                ),
                            ),
                            q2,
                        ),
                    }
                }
            },
        }
    } else {
        (Ok(None), p)
    }
}

/// An optional path mode prefix: a path mode and an optional `PATH`/`PATHS`.
pub open spec fn path_mode_prefix_step(v: InputView, p: int) -> (Option<PathPatternPrefixView>, int) {
    match path_mode_step(v, p) {
        (None, q) => (None, q),
        (Some(mode), q) => {
            let (paths, q2) = path_or_paths_step(v, q);
            (Some(PathPatternPrefixView::Mode { mode, path_or_paths: paths }), q2)
        },
    }
}

/// An optional path pattern prefix: a search prefix or a mode prefix.
pub open spec fn path_pattern_prefix_step(v: InputView, p: int) -> (
    Result<Option<PathPatternPrefixView>, ErrorView>,
    int,
) {
    let k = kind_at(v, p);
    if k == TokenKind::All || k == TokenKind::Any || k == TokenKind::Shortest {
        path_search_prefix_step(v, p)
    } else {
        let (r, q) = path_mode_prefix_step(v, p);
        (Ok(r), q)
    }
}

/// A path pattern prefix that must be there.
pub open spec fn required_path_pattern_prefix_step(v: InputView, p: int) -> (
    Result<PathPatternPrefixView, ErrorView>,
    int,
) {
    match path_pattern_prefix_step(v, p) {
        (Err(e), q) => (Err(e), q),
        (Ok(Some(x)), q) => (Ok(x), q),
        (Ok(None), q) => (
            Err(
                expected_err(
                    v,
                    q,
                    seq![
                        TokenKind::Walk,
                        TokenKind::Trail,
                        TokenKind::Simple,
                        TokenKind::Acyclic,
                        TokenKind::All,
                        TokenKind::Any,
                        TokenKind::Shortest,
                    ],
                    kind_at(v, q),
                ),
            ),
            q,
        ),
    }
}

/// An optional integer literal where a quantifier bound may stand.
pub open spec fn optional_bound_step(v: InputView, p: int) -> (Result<Option<u64>, ErrorView>, int) {
    if kind_at(v, p) == TokenKind::Integer {
        match u64_literal_step(v, p) {
            (Err(e), q) => (Err(e), q),
            (Ok(n), q) => (Ok(Some(n)), q),
        }
    } else {
        (Ok(None), p)
    }
}

/// An optional path quantifier: `*`, `+`, `?`, `{n}`, or `{[m],[n]}`.
pub open spec fn path_quantifier_step(v: InputView, p: int) -> (
    Result<Option<PathPatternQuantifier>, ErrorView>,
    int,
) {
    let k = kind_at(v, p);
    let p1 = next_pos(v, p);
    if k == TokenKind::Star {
        (Ok(Some(PathPatternQuantifier::ZeroOrMore)), p1)
    } else if k == TokenKind::Plus {
        (Ok(Some(PathPatternQuantifier::OneOrMore)), p1)
    } else if k == TokenKind::Question {
        (Ok(Some(PathPatternQuantifier::Optional)), p1)
    } else if k != TokenKind::LBrace {
        (Ok(None), p)
    } else {
        match optional_bound_step(v, p1) {
            (Err(e), q) => (Err(e), q),
            (Ok(min), q) => {
                let (quantifier, q2) = if kind_at(v, q) == TokenKind::Comma {
                    match optional_bound_step(v, next_pos(v, q)) {
                        (Err(e), q3) => (Err(e), q3),
                        (Ok(max), q3) => (Ok(PathPatternQuantifier::Range { min, max }), q3),
                    }
                } else {
                    match min {
                        Some(n) => (Ok(PathPatternQuantifier::Fixed(n)), q),
                        None => (
                            Err(
                                expected_err(v, q, seq![TokenKind::Integer, TokenKind::Comma], kind_at(v, q)),
                            ),
                            q,
                        ),
                    }
                };
                match quantifier {
                    Err(e) => (Err(e), q2),
                    Ok(quant) => match expect_step(v, q2, TokenKind::RBrace) {
                        (Err(e), q3) => (Err(e), q3),
                        (Ok(_), q3) => (Ok(Some(quant)), q3),
                    },
                }
            },
        }
    }
}

/// A label expression: label conjunctions joined by `|`, grouped to the left.
pub open spec fn label_expression_step(v: InputView, p: int) -> (Result<LabelExpressionView, ErrorView>, int)
    decreases v.tokens.len() - p, 3int
    when 0 <= p < v.tokens.len()
{
    match label_and_step(v, p) {
        (Err(e), q) => (Err(e), q),
        (Ok(first), q) => if p <= q < v.tokens.len() {
            label_or_rest(v, first, q)
        } else {
            (Ok(first), q)
        },
    }
}

/// The rest of a label disjunction whose first terms made `acc`: each `|` and the
/// conjunction after it.
pub open spec fn label_or_rest(v: InputView, acc: LabelExpressionView, p: int) -> (
    Result<LabelExpressionView, ErrorView>,
    int,
)
    decreases v.tokens.len() - p, 2int
    when 0 <= p < v.tokens.len()
{
    if kind_at(v, p) == TokenKind::Pipe {
        match label_and_step(v, next_pos(v, p)) {
            (Err(e), q) => (Err(e), q),
            (Ok(right), q) => {
                let joined = LabelExpressionView::Or(Box::new(acc), Box::new(right));
                if p < q < v.tokens.len() {
                    label_or_rest(v, joined, q)
                } else {
                    (Ok(joined), q)
                }
            },
        }
    } else {
        (Ok(acc), p)
    }
}

/// A label conjunction: label factors joined by `&`, grouped to the left.
pub open spec fn label_and_step(v: InputView, p: int) -> (Result<LabelExpressionView, ErrorView>, int)
    decreases v.tokens.len() - p, 1int
    when 0 <= p < v.tokens.len()
{
    match label_unary_step(v, p) {
        (Err(e), q) => (Err(e), q),
        (Ok(first), q) => if p <= q < v.tokens.len() {
            label_and_rest(v, first, q)
        } else {
            (Ok(first), q)
        },
    }
}

/// The rest of a label conjunction whose first factors made `acc`: each `&` and the
/// factor after it.
pub open spec fn label_and_rest(v: InputView, acc: LabelExpressionView, p: int) -> (
    Result<LabelExpressionView, ErrorView>,
    int,
)
    decreases v.tokens.len() - p, 0int
    when 0 <= p < v.tokens.len()
{
    if kind_at(v, p) == TokenKind::Ampersand {
        match label_unary_step(v, next_pos(v, p)) {
            (Err(e), q) => (Err(e), q),
            (Ok(right), q) => {
                let joined = LabelExpressionView::And(Box::new(acc), Box::new(right));
                if p < q < v.tokens.len() {
                    label_and_rest(v, joined, q)
                } else {
                    (Ok(joined), q)
                }
            },
        }
    } else {
        (Ok(acc), p)
    }
}

/// A label factor: `!` and a factor, a parenthesized label expression, `%`, or a label
/// name. `NOT` is refused: labels are negated with `!`.
pub open spec fn label_unary_step(v: InputView, p: int) -> (Result<LabelExpressionView, ErrorView>, int)
    decreases v.tokens.len() - p, 0int
    when 0 <= p < v.tokens.len()
{
    if kind_at(v, p) == TokenKind::Not {
        (Err(message_at(v, p, "label negation uses !, not NOT"@)), p)
    } else if kind_at(v, p) == TokenKind::Bang {
        match label_unary_step(v, next_pos(v, p)) {
            (Err(e), q) => (Err(e), q),
            (Ok(inner), q) => (Ok(LabelExpressionView::Not(Box::new(inner))), q),
        }
    } else if kind_at(v, p) == TokenKind::LParen {
        match label_expression_step(v, next_pos(v, p)) {
            (Err(e), q) => (Err(e), q),
            (Ok(inner), q) => match expect_step(v, q, TokenKind::RParen) {
                (Err(e), q2) => (Err(e), q2),
                (Ok(_), q2) => (Ok(LabelExpressionView::Parenthesized(Box::new(inner))), q2),
            },
        }
    } else if kind_at(v, p) == TokenKind::Percent {
        (Ok(LabelExpressionView::Wildcard), next_pos(v, p))
    } else {
        match identifier_step(v, p) {
            (Err(e), q) => (Err(e), q),
            (Ok(name), q) => (Ok(LabelExpressionView::Label(name)), q),
        }
    }
}

} // verus!
