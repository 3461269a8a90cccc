use vstd::prelude::*;
use crate::ast::{
    ApproximateNumericTypeKind, BooleanTypeKind, ByteStringTypeKind, CharacterStringTypeKind,
    Direction, EdgeTypeDefinitionView, ExactNumericTypeKind, FieldTypeView, GraphTypeBodyView,
    GraphTypeElementView, NodeTypeDefinitionView, TemporalTypeKind, ValueTypeView,
};
use crate::error::ErrorView;
use crate::grammar::{
    all_ascii_digits, identifier_step, message_at, not_positive_err, positive_u64_literal_step,
    typed_marker_step, u64_from_text, u64_literal_step,
};
use crate::kinds::{
    spec_is_edge_synonym_kind, spec_is_identifier_like, spec_is_type_name_after_type_marker,
};
use crate::parser::{expect_step, expected_err, kind_ahead, kind_at, next_pos, tok, InputView};
use crate::text::eq_ignore_ascii_case;
use crate::token::TokenKind;

verus! {

// The grammar of value types and graph types, over the tokens of `v` from position `p`, in
// the style of the grammar module: each function gives the value read, or the error, with
// the position where reading stopped.

/// Where a graph type element is read: in the body of a graph type, or as a closed node or
/// edge reference value type.
#[derive(Clone, Copy, Debug, PartialEq, Eq, Structural)]
pub enum GraphTypeElementContext {
    GraphTypeSpecificationBody,
    ClosedReferenceValueType,
}

/// Whether the token at `q` is an identifier-like token spelled `word`, ignoring case.
pub open spec fn word_at(v: InputView, q: int, word: Seq<char>) -> bool {
    &&& 0 <= q < v.tokens.len()
    &&& spec_is_identifier_like(kind_at(v, q))
    &&& eq_ignore_ascii_case(tok(v, q).text, word)
}

/// Whether the tokens from `p` on spell `words`, one identifier-like token per word.
pub open spec fn words_at(v: InputView, p: int, words: Seq<&str>) -> bool {
    forall|i: int| 0 <= i < words.len() ==> word_at(v, p + i, #[trigger] words[i]@)
}

/// Whether the text of the token at `p` is `word`, ignoring case.
pub open spec fn text_is(v: InputView, p: int, word: Seq<char>) -> bool {
    eq_ignore_ascii_case(tok(v, p).text, word)
}

/// Whether `t` begins with `prefix`, ignoring the case of ASCII letters.
pub open spec fn starts_with_ignore_case(t: Seq<char>, prefix: Seq<char>) -> bool {
    prefix.len() <= t.len() && eq_ignore_ascii_case(t.take(prefix.len() as int), prefix)
}

/// How a type word made of the upper-case `prefix` and a size reads, ignoring case: `None`
/// if `t` does not start with the prefix, `Some(None)` if it is the prefix alone, and
/// `Some(Some(n))` if the prefix is followed by the decimal digits of `n`.
pub open spec fn numeric_suffix_of(t: Seq<char>, prefix: Seq<char>) -> Option<Option<u64>> {
    if starts_with_ignore_case(t, prefix) {
        let rest = t.skip(prefix.len() as int);
        if rest.len() == 0 {
            Some(None)
        } else if all_ascii_digits(rest) {
            match u64_from_text(rest) {
                Some(n) => Some(Some(n)),
                None => None,
            }
        } else {
            None
        }
    } else {
        None
    }
}

/// The size in a type word read by [`numeric_suffix_of`], if it has one.
pub open spec fn suffix_size(s: Option<Option<u64>>) -> Option<u64> {
    match s {
        Some(Some(n)) => Some(n),
        _ => None,
    }
}

/// The character string type named by the token at `p`, if it names one.
pub open spec fn character_string_kind_at(v: InputView, p: int) -> Option<CharacterStringTypeKind> {
    if text_is(v, p, "STRING"@) {
        Some(CharacterStringTypeKind::String)
    } else if text_is(v, p, "VARCHAR"@) {
        Some(CharacterStringTypeKind::Varchar)
    } else {
        None
    }
}

/// The boolean type named by the token at `p`, if it names one.
pub open spec fn boolean_kind_at(v: InputView, p: int) -> Option<BooleanTypeKind> {
    if text_is(v, p, "BOOL"@) {
        Some(BooleanTypeKind::Bool)
    } else if text_is(v, p, "BOOLEAN"@) {
        Some(BooleanTypeKind::Boolean)
    } else {
        None
    }
}

/// The byte string type named by the token at `p`, if it names one.
pub open spec fn byte_string_kind_at(v: InputView, p: int) -> Option<ByteStringTypeKind> {
    if text_is(v, p, "BYTES"@) {
        Some(ByteStringTypeKind::Bytes)
    } else if text_is(v, p, "BINARY"@) {
        Some(ByteStringTypeKind::Binary)
    } else if text_is(v, p, "VARBINARY"@) {
        Some(ByteStringTypeKind::Varbinary)
    } else {
        None
    }
}

/// The exact numeric type named by the token at `p`, if it names one: `DEC` or `DECIMAL`.
pub open spec fn exact_numeric_kind_at(v: InputView, p: int) -> Option<ExactNumericTypeKind> {
    if text_is(v, p, "DEC"@) || text_is(v, p, "DECIMAL"@) {
        Some(ExactNumericTypeKind::Decimal)
    } else {
        None
    }
}

/// The approximate numeric type named by the token at `p`, if it names one.
pub open spec fn approximate_numeric_kind_at(v: InputView, p: int) -> Option<ApproximateNumericTypeKind> {
    if numeric_suffix_of(tok(v, p).text, "FLOAT"@) is Some {
        Some(ApproximateNumericTypeKind::Float)
    } else if text_is(v, p, "REAL"@) {
        Some(ApproximateNumericTypeKind::Real)
    } else if text_is(v, p, "DOUBLE"@) {
        Some(ApproximateNumericTypeKind::Double)
    } else {
        None
    }
}

/// The temporal type whose words start at `p`, with the number of its words.
pub open spec fn temporal_kind_at(v: InputView, p: int) -> Option<(TemporalTypeKind, int)> {
    if words_at(v, p, seq!["ZONED", "DATETIME"]) {
        Some((TemporalTypeKind::ZonedDateTime, 2))
    } else if words_at(v, p, seq!["TIMESTAMP", "WITH", "TIME", "ZONE"]) {
        Some((TemporalTypeKind::ZonedDateTime, 4))
    } else if words_at(v, p, seq!["LOCAL", "DATETIME"]) {
        Some((TemporalTypeKind::LocalDateTime, 2))
    } else if words_at(v, p, seq!["TIMESTAMP", "WITHOUT", "TIME", "ZONE"]) {
        Some((TemporalTypeKind::LocalDateTime, 4))
    } else if words_at(v, p, seq!["TIMESTAMP"]) {
        Some((TemporalTypeKind::LocalDateTime, 1))
    } else if kind_at(v, p) == TokenKind::Date {
        Some((TemporalTypeKind::Date, 1))
    } else if words_at(v, p, seq!["ZONED", "TIME"]) {
        Some((TemporalTypeKind::ZonedTime, 2))
    } else if words_at(v, p, seq!["TIME", "WITH", "TIME", "ZONE"]) {
        Some((TemporalTypeKind::ZonedTime, 4))
    } else if words_at(v, p, seq!["LOCAL", "TIME"]) {
        Some((TemporalTypeKind::LocalTime, 2))
    } else if words_at(v, p, seq!["TIME", "WITHOUT", "TIME", "ZONE"]) {
        Some((TemporalTypeKind::LocalTime, 4))
    } else if kind_at(v, p) == TokenKind::Duration {
        Some((TemporalTypeKind::Duration, 1))
    } else {
        None
    }
}

/// Whether an integer type starts at `p`.
pub open spec fn integer_type_start_at(v: InputView, p: int) -> bool {
    let t = tok(v, p).text;
    ||| numeric_suffix_of(t, "INTEGER"@) is Some
    ||| numeric_suffix_of(t, "INT"@) is Some
    ||| numeric_suffix_of(t, "UINT"@) is Some
    ||| eq_ignore_ascii_case(t, "BIGINT"@)
    ||| eq_ignore_ascii_case(t, "SMALLINT"@)
    ||| eq_ignore_ascii_case(t, "UBIGINT"@)
    ||| eq_ignore_ascii_case(t, "USMALLINT"@)
    ||| (eq_ignore_ascii_case(t, "SMALL"@) && words_at(v, p, seq!["INTEGER"]))
    ||| (eq_ignore_ascii_case(t, "BIG"@) && words_at(v, p, seq!["INTEGER"]))
}

/// The position `n` tokens after `p`, never passing the end of the input.
pub open spec fn skip_tokens(v: InputView, p: int, n: nat) -> int
    decreases n,
{
    if n == 0 {
        p
    } else {
        next_pos(v, skip_tokens(v, p, (n - 1) as nat))
    }
}

/// Whether `GROUP LIST` or `GROUP ARRAY` starts at `p`.
pub open spec fn group_list_at(v: InputView, p: int) -> bool {
    kind_at(v, p) == TokenKind::Group && (kind_ahead(v, p, 1) == Some(TokenKind::List) || kind_ahead(
        v,
        p,
        1,
    ) == Some(TokenKind::Array))
}

/// The refusal of `GROUP LIST` and `GROUP ARRAY`.
pub open spec fn group_list_message() -> Seq<char> {
    "GROUP list value type names are not user-visible standard GQL syntax"@
}

/// An optional length in parentheses after a character string type.
pub open spec fn character_string_type_step(v: InputView, p: int, kind: CharacterStringTypeKind) -> (
    Result<ValueTypeView, ErrorView>,
    int,
) {
    if kind_at(v, p) == TokenKind::LParen {
        match positive_u64_literal_step(v, next_pos(v, p), "character string max length"@) {
            (Err(e), q) => (Err(e), q),
            (Ok(n), q) => match expect_step(v, q, TokenKind::RParen) {
                (Err(e), q2) => (Err(e), q2),
                (Ok(_), q2) => (Ok(ValueTypeView::CharacterString { kind, max_length: Some(n) }), q2),
            },
        }
    } else {
        (Ok(ValueTypeView::CharacterString { kind, max_length: None }), p)
    }
}

/// The lengths in parentheses after `BYTES`: a max length, or a min and a max length.
pub open spec fn bytes_lengths_step(v: InputView, p: int) -> (Result<(u64, u64), ErrorView>, int) {
    match u64_literal_step(v, p) {
        (Err(e), q) => (Err(e), q),
        (Ok(first), q) => if kind_at(v, q) == TokenKind::Comma {
            match positive_u64_literal_step(v, next_pos(v, q), "byte string max length"@) {
                (Err(e), q2) => (Err(e), q2),
                (Ok(max), q2) => (Ok((first, max)), q2),
            }
        } else if first == 0 {
            (Err(not_positive_err(v, q, "byte string max length"@)), q)
        } else {
            (Ok((0, first)), q)
        },
    }
}

/// The optional lengths in parentheses after a byte string type.
pub open spec fn byte_string_type_step(v: InputView, p: int, kind: ByteStringTypeKind) -> (
    Result<ValueTypeView, ErrorView>,
    int,
) {
    if kind_at(v, p) == TokenKind::LParen {
        let p1 = next_pos(v, p);
        if kind == ByteStringTypeKind::Bytes {
            match bytes_lengths_step(v, p1) {
                (Err(e), q) => (Err(e), q),
                (Ok((min, max)), q) => match expect_step(v, q, TokenKind::RParen) {
                    (Err(e), q2) => (Err(e), q2),
                    (Ok(_), q2) => if min > max {
                        (Err(message_at(v, q2, "byte string min length exceeds max length"@)), q2)
                    } else {
                        (
                            Ok(
                                ValueTypeView::ByteString {
                                    kind,
                                    min_length: Some(min),
                                    max_length: Some(max),
                                },
                            ),
                            q2,
                        )
                    },
                },
            }
        } else {
            let description = if kind == ByteStringTypeKind::Binary {
                "byte string fixed length"@
            } else {
                "byte string max length"@
            };
            match positive_u64_literal_step(v, p1, description) {
                (Err(e), q) => (Err(e), q),
                (Ok(n), q) => match expect_step(v, q, TokenKind::RParen) {
                    (Err(e), q2) => (Err(e), q2),
                    (Ok(_), q2) => (
                        Ok(
                            ValueTypeView::ByteString {
                                kind,
                                min_length: Some(if kind == ByteStringTypeKind::Binary {
                                    n
                                } else {
                                    0
                                }),
                                max_length: Some(n),
                            },
                        ),
                        q2,
                    ),
                },
            }
        }
    } else if kind == ByteStringTypeKind::Binary {
        (Ok(ValueTypeView::ByteString { kind, min_length: Some(1), max_length: Some(1) }), p)
    } else {
        (Ok(ValueTypeView::ByteString { kind, min_length: Some(0), max_length: None }), p)
    }
}

/// An optional precision and scale in parentheses.
pub open spec fn precision_scale_step(v: InputView, p: int) -> (
    Result<(Option<u64>, Option<u64>), ErrorView>,
    int,
) {
    if kind_at(v, p) == TokenKind::LParen {
        match positive_u64_literal_step(v, next_pos(v, p), "numeric precision"@) {
            (Err(e), q) => (Err(e), q),
            (Ok(precision), q) => {
                let (scale, q2) = if kind_at(v, q) == TokenKind::Comma {
                    match u64_literal_step(v, next_pos(v, q)) {
                        (Err(e), q3) => (Err(e), q3),
                        (Ok(n), q3) => (Ok(Some(n)), q3),
                    }
                } else {
                    (Ok(None), q)
                };
                match scale {
                    Err(e) => (Err(e), q2),
                    Ok(scale) => match expect_step(v, q2, TokenKind::RParen) {
                        (Err(e), q3) => (Err(e), q3),
                        (Ok(_), q3) => (Ok((Some(precision), scale)), q3),
                    },
                }
            },
        }
    } else {
        (Ok((None, None)), p)
    }
}

/// The precision and scale after `DEC` or `DECIMAL`; the scale may not exceed the precision.
pub open spec fn exact_numeric_type_step(v: InputView, p: int, kind: ExactNumericTypeKind) -> (
    Result<ValueTypeView, ErrorView>,
    int,
) {
    match precision_scale_step(v, p) {
        (Err(e), q) => (Err(e), q),
        (Ok((precision, scale)), q) => if precision is Some && scale is Some && scale->0
            > precision->0 {
            (Err(message_at(v, q, "numeric scale exceeds precision"@)), q)
        } else {
            (Ok(ValueTypeView::ExactNumeric { kind, signed: None, precision, scale }), q)
        },
    }
}

/// An optional precision in parentheses.
pub open spec fn single_precision_step(v: InputView, p: int) -> (Result<Option<u64>, ErrorView>, int) {
    if kind_at(v, p) == TokenKind::LParen {
        match positive_u64_literal_step(v, next_pos(v, p), "numeric precision"@) {
            (Err(e), q) => (Err(e), q),
            (Ok(n), q) => match expect_step(v, q, TokenKind::RParen) {
                (Err(e), q2) => (Err(e), q2),
                (Ok(_), q2) => (Ok(Some(n)), q2),
            },
        }
    } else {
        (Ok(None), p)
    }
}

/// Whether `n` is a size that an integer type word may carry.
pub open spec fn is_standard_integer_size(n: u64) -> bool {
    n == 8 || n == 16 || n == 32 || n == 64 || n == 128 || n == 256
}

/// Whether `n` is a size that a `FLOAT` type word may carry.
pub open spec fn is_standard_float_size(n: u64) -> bool {
    n == 16 || n == 32 || n == 64 || n == 128 || n == 256
}

/// A signedness that defaults to signed.
pub open spec fn or_signed(s: Option<bool>) -> Option<bool> {
    match s {
        Some(b) => Some(b),
        None => Some(true),
    }
}

/// An identifier-like token spelled `word`, ignoring case.
pub open spec fn identifier_word_step(v: InputView, p: int, word: Seq<char>) -> (
    Result<crate::token::TokenView, ErrorView>,
    int,
) {
    if spec_is_identifier_like(kind_at(v, p)) && text_is(v, p, word) {
        (Ok(tok(v, p)), next_pos(v, p))
    } else if kind_at(v, p) == TokenKind::Eof {
        (Err(crate::parser::eof_err(v)), p)
    } else {
        (Err(expected_err(v, p, seq![TokenKind::Identifier], kind_at(v, p))), p)
    }
}

/// The signedness and size of an integer type whose first word `t` has been read; the
/// tokens after it start at `q`.
pub open spec fn integer_type_words_step(v: InputView, q: int, t: Seq<char>, signed: Option<bool>) -> (
    Result<(Option<bool>, Option<u64>), ErrorView>,
    int,
) {
    if eq_ignore_ascii_case(t, "SMALL"@) || eq_ignore_ascii_case(t, "BIG"@) {
        match identifier_word_step(v, q, "INTEGER"@) {
            (Err(e), q2) => (Err(e), q2),
            (Ok(_), q2) => (Ok((or_signed(signed), None)), q2),
        }
    } else if eq_ignore_ascii_case(t, "INTEGER"@) || eq_ignore_ascii_case(t, "INT"@)
        || eq_ignore_ascii_case(t, "UINT"@) {
        let s = if eq_ignore_ascii_case(t, "UINT"@) {
            Some(false)
        } else {
            or_signed(signed)
        };
        match single_precision_step(v, q) {
            (Err(e), q2) => (Err(e), q2),
            (Ok(precision), q2) => (Ok((s, precision)), q2),
        }
    } else if eq_ignore_ascii_case(t, "SMALLINT"@) || eq_ignore_ascii_case(t, "BIGINT"@) {
        (Ok((or_signed(signed), None)), q)
    } else if eq_ignore_ascii_case(t, "USMALLINT"@) || eq_ignore_ascii_case(t, "UBIGINT"@) {
        (Ok((Some(false), None)), q)
    } else {
        let (s, suffix) = if numeric_suffix_of(t, "UINT"@) is Some {
            (Some(false), numeric_suffix_of(t, "UINT"@))
        } else if numeric_suffix_of(t, "INT"@) is Some {
            (or_signed(signed), numeric_suffix_of(t, "INT"@))
        } else {
            (or_signed(signed), numeric_suffix_of(t, "INTEGER"@))
        };
        if suffix is None {
            (Err(expected_err(v, q, seq![TokenKind::Identifier], kind_at(v, q))), q)
        } else {
            match suffix_size(suffix) {
                Some(n) => if !is_standard_integer_size(n) {
                    (
                        Err(
                            message_at(
                                v,
                                q,
                                "integer type suffix must be one of 8, 16, 32, 64, 128, or 256"@,
                            ),
                        ),
                        q,
                    )
                } else {
                    (Ok((s, Some(n))), q)
                },
                None => (Ok((s, None)), q),
            }
        }
    }
}

/// An integer type: its words, with an optional signedness already read, and an optional
/// precision, which must be positive.
pub open spec fn integer_numeric_type_step(v: InputView, p: int, signed: Option<bool>) -> (
    Result<ValueTypeView, ErrorView>,
    int,
) {
    match identifier_step(v, p) {
        (Err(e), q) => (Err(e), q),
        (Ok(t), q) => match integer_type_words_step(v, q, t, signed) {
            (Err(e), q2) => (Err(e), q2),
            (Ok((s, precision)), q2) => if precision == Some(0u64) {
                (Err(not_positive_err(v, q2, "numeric precision"@)), q2)
            } else {
                (
                    Ok(
                        ValueTypeView::ExactNumeric {
                            kind: ExactNumericTypeKind::Integer,
                            signed: s,
                            precision,
                            scale: None,
                        },
                    ),
                    q2,
                )
            },
        },
    }
}

/// `SIGNED` or `UNSIGNED` and an integer type.
pub open spec fn signed_integer_type_step(v: InputView, p: int) -> (Result<ValueTypeView, ErrorView>, int) {
    integer_numeric_type_step(v, next_pos(v, p), Some(text_is(v, p, "SIGNED"@)))
}

/// The refusal of a precision below 2.
pub open spec fn approximate_precision_message() -> Seq<char> {
    "approximate numeric precision must be greater than or equal to 2"@
}

/// What follows an approximate numeric type word `name`: for `FLOAT` a size in the word or
/// a precision and scale, for `DOUBLE` an optional `PRECISION`.
pub open spec fn approximate_numeric_type_step(
    v: InputView,
    p: int,
    kind: ApproximateNumericTypeKind,
    name: Seq<char>,
) -> (Result<ValueTypeView, ErrorView>, int) {
    match kind {
        ApproximateNumericTypeKind::Float => match suffix_size(numeric_suffix_of(name, "FLOAT"@)) {
            Some(n) => if !is_standard_float_size(n) {
                (Err(message_at(v, p, "FLOAT type suffix must be one of 16, 32, 64, 128, or 256"@)), p)
            } else if n < 2 {
                (Err(message_at(v, p, approximate_precision_message())), p)
            } else {
                (Ok(ValueTypeView::ApproximateNumeric { kind, precision: Some(n), scale: None }), p)
            },
            None => match precision_scale_step(v, p) {
                (Err(e), q) => (Err(e), q),
                (Ok((precision, scale)), q) => if precision is Some && precision->0 < 2 {
                    (Err(message_at(v, q, approximate_precision_message())), q)
                } else {
                    (Ok(ValueTypeView::ApproximateNumeric { kind, precision, scale }), q)
                },
            },
        },
        ApproximateNumericTypeKind::Real => (
            Ok(ValueTypeView::ApproximateNumeric { kind, precision: None, scale: None }),
            p,
        ),
        ApproximateNumericTypeKind::Double => (
            Ok(ValueTypeView::ApproximateNumeric { kind, precision: None, scale: None }),
            if words_at(v, p, seq!["PRECISION"]) {
                next_pos(v, p)
            } else {
                p
            },
        ),
    }
}

/// An optional max length in brackets after a list type; it must be positive.
pub open spec fn list_max_length_step(v: InputView, p: int) -> (Result<Option<u64>, ErrorView>, int) {
    if kind_at(v, p) == TokenKind::LBracket {
        match u64_literal_step(v, next_pos(v, p)) {
            (Err(e), q) => (Err(e), q),
            (Ok(n), q) => if n == 0 {
                (Err(not_positive_err(v, q, "list max length"@)), q)
            } else {
                match expect_step(v, q, TokenKind::RBracket) {
                    (Err(e), q2) => (Err(e), q2),
                    (Ok(_), q2) => (Ok(Some(n)), q2),
                }
            },
        }
    } else {
        (Ok(None), p)
    }
}

/// The list type word at `p`, if there is one, and whether it is a group list.
pub open spec fn list_type_name_at(v: InputView, p: int) -> Option<(TokenKind, bool)> {
    if kind_at(v, p) == TokenKind::List || kind_at(v, p) == TokenKind::Array {
        Some((kind_at(v, p), false))
    } else {
        None
    }
}

/// A list type word: `LIST` or `ARRAY`.
pub open spec fn list_type_name_step(v: InputView, p: int) -> (Result<(TokenKind, bool), ErrorView>, int) {
    if kind_at(v, p) == TokenKind::List || kind_at(v, p) == TokenKind::Array {
        (Ok((kind_at(v, p), false)), next_pos(v, p))
    } else {
        (Err(expected_err(v, p, seq![TokenKind::List, TokenKind::Array], kind_at(v, p))), p)
    }
}

/// A list type of `element`, named by `kind` (`LIST` or `ARRAY`), with an optional max
/// length; a group list is refused at `offset`.
pub open spec fn wrap_list(
    element: ValueTypeView,
    kind: TokenKind,
    group: bool,
    max_length: Option<u64>,
    offset: int,
) -> Result<ValueTypeView, ErrorView> {
    if group {
        Err(ErrorView::Message { offset, message: group_list_message() })
    } else if kind == TokenKind::List {
        match max_length {
            Some(n) => Ok(ValueTypeView::ListWithLength { element: Box::new(element), max_length: n }),
            None => Ok(ValueTypeView::List(Box::new(element))),
        }
    } else {
        match max_length {
            Some(n) => Ok(ValueTypeView::ArrayWithLength { element: Box::new(element), max_length: n }),
            None => Ok(ValueTypeView::Array(Box::new(element))),
        }
    }
}

/// An optional `NOT NULL` after a value type `t`.
pub open spec fn not_null_step(v: InputView, p: int, t: ValueTypeView) -> (Result<ValueTypeView, ErrorView>, int) {
    if kind_at(v, p) == TokenKind::Not {
        match expect_step(v, next_pos(v, p), TokenKind::Null) {
            (Err(e), q) => (Err(e), q),
            (Ok(_), q) => (Ok(ValueTypeView::NotNull(Box::new(t))), q),
        }
    } else {
        (Ok(t), p)
    }
}

/// The list type suffixes after a value type `t`: each list type word, optional max length
/// and optional `NOT NULL`; `GROUP LIST` and `GROUP ARRAY` are refused.
pub open spec fn list_suffixes_step(v: InputView, t: ValueTypeView, p: int) -> (
    Result<ValueTypeView, ErrorView>,
    int,
)
    decreases v.tokens.len() - p,
{
    if group_list_at(v, p) {
        (Err(message_at(v, p, group_list_message())), p)
    } else if 0 <= p < v.tokens.len() && list_type_name_at(v, p) is Some {
        let offset = tok(v, p).offset;
        match list_type_name_step(v, p) {
            (Err(e), q) => (Err(e), q),
            (Ok((kind, group)), q) => match list_max_length_step(v, q) {
                (Err(e), q2) => (Err(e), q2),
                (Ok(max_length), q2) => match wrap_list(t, kind, group, max_length, offset) {
                    Err(e) => (Err(e), q2),
                    Ok(wrapped) => match not_null_step(v, q2, wrapped) {
                        (Err(e), q3) => (Err(e), q3),
                        (Ok(t2), q3) => if p < q3 <= v.tokens.len() {
                            list_suffixes_step(v, t2, q3)
                        } else {
                            (Ok(t2), q3)
                        },
                    },
                },
            },
        }
    } else {
        (Ok(t), p)
    }
}

/// The number of words after a type name's first word `t` that belong to the name, with the
/// first of them at `q`.
pub open spec fn extra_type_words(v: InputView, t: Seq<char>, q: int) -> nat {
    if (eq_ignore_ascii_case(t, "BIG"@) || eq_ignore_ascii_case(t, "SMALL"@)) && words_at(
        v,
        q,
        seq!["INTEGER"],
    ) {
        1
    } else if eq_ignore_ascii_case(t, "DOUBLE"@) && words_at(v, q, seq!["PRECISION"]) {
        1
    } else if (eq_ignore_ascii_case(t, "CHAR"@) || eq_ignore_ascii_case(t, "CHARACTER"@))
        && words_at(v, q, seq!["VARYING"]) {
        1
    } else if (eq_ignore_ascii_case(t, "CHAR"@) || eq_ignore_ascii_case(t, "CHARACTER"@))
        && words_at(v, q, seq!["LARGE", "OBJECT"]) {
        2
    } else if (eq_ignore_ascii_case(t, "TIME"@) || eq_ignore_ascii_case(t, "TIMESTAMP"@)
        || eq_ignore_ascii_case(t, "DATETIME"@)) && (words_at(v, q, seq!["WITH", "TIME", "ZONE"])
        || words_at(v, q, seq!["WITHOUT", "TIME", "ZONE"])) {
        3
    } else if (eq_ignore_ascii_case(t, "LOCAL"@) || eq_ignore_ascii_case(t, "ZONED"@)) && (words_at(
        v,
        q,
        seq!["DATETIME"],
    ) || words_at(v, q, seq!["TIME"])) {
        1
    } else {
        0
    }
}

/// The texts of the `n` tokens from `q` on, each after a space.
pub open spec fn spaced_words(v: InputView, q: int, n: nat) -> Seq<char>
    decreases n,
{
    if n == 0 {
        Seq::empty()
    } else {
        spaced_words(v, q, (n - 1) as nat) + " "@ + tok(v, q + n - 1).text
    }
}

/// A value type name: an identifier, with the words after it that belong to it, joined by
/// single spaces.
pub open spec fn value_type_name_step(v: InputView, p: int) -> (Result<Seq<char>, ErrorView>, int) {
    match identifier_step(v, p) {
        (Err(e), q) => (Err(e), q),
        (Ok(t), q) => {
            let n = extra_type_words(v, t, q);
            (Ok(t + spaced_words(v, q, n)), q + n)
        },
    }
}

/// The parameters of a named value type: integers in parentheses, separated by commas.
pub open spec fn type_parameters_rest(v: InputView, acc: Seq<u64>, p: int) -> (
    Result<Seq<u64>, ErrorView>,
    int,
)
    decreases v.tokens.len() - p,
{
    match u64_literal_step(v, p) {
        (Err(e), q) => (Err(e), q),
        (Ok(n), q) => if kind_at(v, q) == TokenKind::Comma && p < next_pos(v, q) <= v.tokens.len() {
            type_parameters_rest(v, acc.push(n), next_pos(v, q))
        } else {
            (Ok(acc.push(n)), q)
        },
    }
}

/// A named value type with optional parameters in parentheses.
pub open spec fn named_value_type_step(v: InputView, p: int) -> (Result<ValueTypeView, ErrorView>, int) {
    match value_type_name_step(v, p) {
        (Err(e), q) => (Err(e), q),
        (Ok(name), q) => if kind_at(v, q) == TokenKind::LParen {
            let q1 = next_pos(v, q);
            let (params, q2) = if kind_at(v, q1) == TokenKind::RParen {
                (Ok(Seq::<u64>::empty()), q1)
            } else {
                type_parameters_rest(v, Seq::empty(), q1)
            };
            match params {
                Err(e) => (Err(e), q2),
                Ok(params) => match expect_step(v, q2, TokenKind::RParen) {
                    (Err(e), q3) => (Err(e), q3),
                    (Ok(_), q3) => (Ok(ValueTypeView::Named { name, parameters: params }), q3),
                },
            }
        } else {
            (Ok(ValueTypeView::Named { name, parameters: Seq::empty() }), q)
        },
    }
}

// Node and edge type phrases.

/// Whether the token at `p` is `NODE` or `VERTEX`.
pub open spec fn at_node_synonym(v: InputView, p: int) -> bool {
    kind_at(v, p) == TokenKind::Node || kind_at(v, p) == TokenKind::Vertex
}

/// Whether the token at `p` is `EDGE` or `RELATIONSHIP`.
pub open spec fn at_edge_synonym(v: InputView, p: int) -> bool {
    spec_is_edge_synonym_kind(kind_at(v, p))
}

/// Whether `DIRECTED` or `UNDIRECTED` and then an edge synonym start at `p`.
pub open spec fn at_edge_kind_before_synonym(v: InputView, p: int) -> bool {
    &&& (kind_at(v, p) == TokenKind::Directed || kind_at(v, p) == TokenKind::Undirected)
    &&& kind_ahead(v, p, 1) matches Some(k) && spec_is_edge_synonym_kind(k)
}

/// An optional `DIRECTED` or `UNDIRECTED` that is followed by an edge synonym.
pub open spec fn edge_kind_before_synonym_step(v: InputView, p: int) -> (Option<Direction>, int) {
    if !(kind_ahead(v, p, 1) matches Some(k) && spec_is_edge_synonym_kind(k)) {
        (None, p)
    } else if kind_at(v, p) == TokenKind::Directed {
        (Some(Direction::Right), next_pos(v, p))
    } else if kind_at(v, p) == TokenKind::Undirected {
        (Some(Direction::Undirected), next_pos(v, p))
    } else {
        (None, p)
    }
}

/// Whether what follows a type name starts at `p`: label or property declarations.
pub open spec fn starts_node_type_filler(v: InputView, p: int) -> bool {
    match kind_at(v, p) {
        TokenKind::Label | TokenKind::Labels => kind_ahead(v, p, 1) matches Some(k)
            && spec_is_identifier_like(k),
        TokenKind::Colon | TokenKind::Is | TokenKind::LBrace => true,
        _ => false,
    }
}

/// A type name, after an optional marker `TYPE`.
pub open spec fn type_phrase_name_step(v: InputView, p: int) -> (Result<Seq<char>, ErrorView>, int) {
    if kind_at(v, p) == TokenKind::Type && (kind_ahead(v, p, 1) matches Some(k)
        && spec_is_type_name_after_type_marker(k)) {
        identifier_step(v, next_pos(v, p))
    } else {
        identifier_step(v, p)
    }
}

/// Whether an edge arc starts at `p`: `-`, `->`, `<-` or `~`.
pub open spec fn starts_full_edge_type_arc(v: InputView, p: int) -> bool {
    match kind_at(v, p) {
        TokenKind::Minus | TokenKind::ArrowRight | TokenKind::ArrowLeft | TokenKind::Tilde => true,
        _ => false,
    }
}

/// `labels` with `label` at the end, unless a label equal to it, ignoring case, is there.
pub open spec fn push_if_absent(labels: Seq<Seq<char>>, label: Seq<char>) -> Seq<Seq<char>> {
    if exists|j: int| 0 <= j < labels.len() && eq_ignore_ascii_case(#[trigger] labels[j], label) {
        labels
    } else {
        labels.push(label)
    }
}

/// Labels joined by `&`, after the first ones, which made `acc`.
pub open spec fn ampersand_labels_rest(v: InputView, acc: Seq<Seq<char>>, p: int) -> (
    Result<Seq<Seq<char>>, ErrorView>,
    int,
)
    decreases v.tokens.len() - p,
{
    if kind_at(v, p) == TokenKind::Ampersand {
        match identifier_step(v, next_pos(v, p)) {
            (Err(e), q) => (Err(e), q),
            (Ok(label), q) => if p < q <= v.tokens.len() {
                ampersand_labels_rest(v, push_if_absent(acc, label), q)
            } else {
                (Ok(push_if_absent(acc, label)), q)
            },
        }
    } else {
        (Ok(acc), p)
    }
}

/// Label sets each introduced by `:` or `IS`, after the first ones, which made `acc`.
pub open spec fn colon_labels_rest(v: InputView, acc: Seq<Seq<char>>, p: int) -> (
    Result<Seq<Seq<char>>, ErrorView>,
    int,
)
    decreases v.tokens.len() - p,
{
    if kind_at(v, p) == TokenKind::Colon || kind_at(v, p) == TokenKind::Is {
        match identifier_step(v, next_pos(v, p)) {
            (Err(e), q) => (Err(e), q),
            (Ok(label), q) => match ampersand_labels_rest(v, push_if_absent(acc, label), q) {
                (Err(e), q2) => (Err(e), q2),
                (Ok(labels), q2) => if p < q2 <= v.tokens.len() {
                    colon_labels_rest(v, labels, q2)
                } else {
                    (Ok(labels), q2)
                },
            },
        }
    } else {
        (Ok(acc), p)
    }
}

/// An optional label declaration: `LABEL` and one label, `LABELS` and labels joined by `&`,
/// or label sets each introduced by `:` or `IS`. A label that repeats one before it,
/// ignoring case, is dropped.
pub open spec fn type_label_list_step(v: InputView, p: int) -> (Result<Seq<Seq<char>>, ErrorView>, int) {
    if kind_at(v, p) == TokenKind::Label {
        match identifier_step(v, next_pos(v, p)) {
            (Err(e), q) => (Err(e), q),
            (Ok(label), q) => (Ok(seq![label]), q),
        }
    } else if kind_at(v, p) == TokenKind::Labels {
        match identifier_step(v, next_pos(v, p)) {
            (Err(e), q) => (Err(e), q),
            (Ok(label), q) => ampersand_labels_rest(v, seq![label], q),
        }
    } else {
        colon_labels_rest(v, Seq::empty(), p)
    }
}

/// The error for a closed edge reference type with a name or endpoint types, at `offset`.
pub open spec fn closed_edge_reference_err(d: EdgeTypeDefinitionView, offset: int) -> Option<ErrorView> {
    if d.name.len() != 0 {
        Some(
            ErrorView::Message {
                offset,
                message: "closed edge reference type cannot contain an edge type name"@,
            },
        )
    } else if d.source is Some || d.destination is Some {
        Some(
            ErrorView::Message {
                offset,
                message: "closed edge reference type cannot contain endpoint node type names"@,
            },
        )
    } else {
        None
    }
}

/// The error for an endpoint pair of shape `shape` where the edge kind `explicit` was
/// given, at `offset`.
pub open spec fn endpoint_shape_err(explicit: Option<Direction>, shape: Direction, offset: int) -> Option<
    ErrorView,
> {
    if explicit == Some(Direction::Right) && shape == Direction::Undirected {
        Some(
            ErrorView::Message {
                offset,
                message: "DIRECTED edge type cannot use an undirected endpoint pair"@,
            },
        )
    } else if explicit == Some(Direction::Undirected) && shape == Direction::Right {
        Some(
            ErrorView::Message {
                offset,
                message: "UNDIRECTED edge type requires an undirected endpoint pair"@,
            },
        )
    } else {
        None
    }
}

/// The error for an edge type phrase in a graph type body without an edge kind or a name,
/// at `offset`.
pub open spec fn body_edge_phrase_err(
    context: GraphTypeElementContext,
    edge_kind: Option<Direction>,
    name: Seq<char>,
    offset: int,
) -> Option<ErrorView> {
    if context != GraphTypeElementContext::GraphTypeSpecificationBody {
        None
    } else if edge_kind is None {
        Some(
            ErrorView::Message {
                offset,
                message: "graph type body edge type phrase requires DIRECTED or UNDIRECTED"@,
            },
        )
    } else if name.len() == 0 {
        Some(
            ErrorView::Message {
                offset,
                message: "graph type body edge type phrase requires an edge type name"@,
            },
        )
    } else {
        None
    }
}

/// Whether a value type is known not to be null.
pub open spec fn is_known_not_null(t: ValueTypeView) -> bool {
    t is NotNull
}

/// Whether the components of a dynamic union all have the nullability of the first.
pub open spec fn union_nullability_matches(components: Seq<ValueTypeView>) -> bool {
    forall|i: int|
        0 <= i < components.len() ==> is_known_not_null(#[trigger] components[i])
            == is_known_not_null(components[0])
}

/// The error for dynamic union components whose nullability differs, at `offset`.
pub open spec fn union_nullability_err(offset: int) -> ErrorView {
    ErrorView::Message { offset, message: "dynamic union component types must have matching nullability"@ }
}

/// Whether a graph type element has a name, and the word for its kind.
pub open spec fn element_kind_and_name(e: GraphTypeElementView) -> Option<(Seq<char>, Seq<char>)> {
    match e {
        GraphTypeElementView::Node(n) => if n.name.len() != 0 {
            Some(("node"@, n.name))
        } else {
            None
        },
        GraphTypeElementView::Edge(d) => if d.name.len() != 0 {
            Some(("edge"@, d.name))
        } else {
            None
        },
    }
}

/// The error for a graph type element whose kind and name, ignoring case, an element of
/// `existing` has, at `offset`.
pub open spec fn element_name_err(existing: Seq<GraphTypeElementView>, e: GraphTypeElementView, offset: int) -> Option<
    ErrorView,
> {
    match element_kind_and_name(e) {
        None => None,
        Some((kind, name)) => if exists|j: int|
            0 <= j < existing.len() && (#[trigger] element_kind_and_name(existing[j]) matches Some(
                (k2, n2),
            ) && k2 == kind && eq_ignore_ascii_case(n2, name)) {
            Some(
                ErrorView::Message {
                    offset,
                    message: "duplicate "@ + kind + " type name '"@ + name + "'"@,
                },
            )
        } else {
            None
        },
    }
}

/// Whether `elements` has a named node type whose name is `name`, ignoring case.
pub open spec fn defines_node_type(elements: Seq<GraphTypeElementView>, name: Seq<char>) -> bool {
    exists|j: int|
        0 <= j < elements.len() && (#[trigger] elements[j] matches GraphTypeElementView::Node(n)
            && n.name.len() != 0 && eq_ignore_ascii_case(n.name, name))
}

/// The error for an endpoint node type `endpoint` that `elements` does not define, at
/// `offset`.
pub open spec fn endpoint_err(elements: Seq<GraphTypeElementView>, endpoint: Option<Seq<char>>, offset: int) -> Option<
    ErrorView,
> {
    match endpoint {
        None => None,
        Some(name) => if defines_node_type(elements, name) {
            None
        } else {
            Some(
                ErrorView::Message {
                    offset,
                    message: "endpoint node type '"@ + name + "' is not defined"@,
                },
            )
        },
    }
}

/// The first error for an endpoint node type of one of the first `n` elements that
/// `elements` does not define, checking each edge's source before its destination.
pub open spec fn endpoint_types_err(elements: Seq<GraphTypeElementView>, n: int, offset: int) -> Option<
    ErrorView,
>
    decreases n,
{
    if n <= 0 {
        None
    } else {
        match endpoint_types_err(elements, n - 1, offset) {
            Some(e) => Some(e),
            None => match elements[n - 1] {
                GraphTypeElementView::Node(_) => None,
                GraphTypeElementView::Edge(d) => match endpoint_err(elements, d.source, offset) {
                    Some(e) => Some(e),
                    None => endpoint_err(elements, d.destination, offset),
                },
            },
        }
    }
}

/// Whether `fields` has a field named `name`, ignoring case.
pub open spec fn has_field_named(fields: Seq<FieldTypeView>, name: Seq<char>) -> bool {
    exists|j: int| 0 <= j < fields.len() && eq_ignore_ascii_case(#[trigger] fields[j].name, name)
}

// The recursive part of the grammar. Each function's measure is the number of tokens left
// and then a rank: a function reads another at its own position only if that one's rank
// is lower. Where a position comes from a step, the guard that it lies ahead of `p` holds
// of every step, which never moves backwards and never leaves the tokens.

/// A value type: one component, or components joined by `|`, which must all be known not
/// to be null or all not be.
pub open spec fn value_type_step(v: InputView, p: int) -> (Result<ValueTypeView, ErrorView>, int)
    decreases v.tokens.len() - p, 40int
    when 0 <= p < v.tokens.len()
{
    match value_type_component_step(v, p) {
        (Err(e), q) => (Err(e), q),
        (Ok(first), q) => if kind_at(v, q) == TokenKind::Pipe && p <= q < v.tokens.len() {
            match components_rest(v, seq![first], q) {
                (Err(e), q2) => (Err(e), q2),
                (Ok(cs), q2) => if union_nullability_matches(cs) {
                    (Ok(ValueTypeView::DynamicUnion(cs)), q2)
                } else {
                    (Err(union_nullability_err(tok(v, q2).offset)), q2)
                },
            }
        } else {
            (Ok(first), q)
        },
    }
}

/// Components joined by `|`, after the first ones, which made `acc`.
pub open spec fn components_rest(v: InputView, acc: Seq<ValueTypeView>, p: int) -> (
    Result<Seq<ValueTypeView>, ErrorView>,
    int,
)
    decreases v.tokens.len() - p, 36int
    when 0 <= p < v.tokens.len()
{
    if kind_at(v, p) == TokenKind::Pipe && next_pos(v, p) < v.tokens.len() {
        match value_type_component_step(v, next_pos(v, p)) {
            (Err(e), q) => (Err(e), q),
            (Ok(c), q) => if p < q < v.tokens.len() {
                components_rest(v, acc.push(c), q)
            } else {
                (Ok(acc.push(c)), q)
            },
        }
    } else {
        (Ok(acc), p)
    }
}

/// The components of `ANY VALUE <...>`: components joined by `|`, with matching
/// nullability.
pub open spec fn component_type_list_step(v: InputView, p: int) -> (
    Result<Seq<ValueTypeView>, ErrorView>,
    int,
)
    decreases v.tokens.len() - p, 40int
    when 0 <= p < v.tokens.len()
{
    match value_type_component_step(v, p) {
        (Err(e), q) => (Err(e), q),
        (Ok(c), q) => {
            let (r, q2) = if p <= q < v.tokens.len() {
                components_rest(v, seq![c], q)
            } else {
                (Ok(seq![c]), q)
            };
            match r {
                Err(e) => (Err(e), q2),
                Ok(cs) => if union_nullability_matches(cs) {
                    (Ok(cs), q2)
                } else {
                    (Err(union_nullability_err(tok(v, q2).offset)), q2)
                },
            }
        },
    }
}

/// A value type component: a base type, an optional `NOT NULL`, and list type suffixes.
pub open spec fn value_type_component_step(v: InputView, p: int) -> (Result<ValueTypeView, ErrorView>, int)
    decreases v.tokens.len() - p, 32int
    when 0 <= p < v.tokens.len()
{
    match value_type_base_step(v, p) {
        (Err(e), q) => (Err(e), q),
        (Ok(t), q) => match not_null_step(v, q, t) {
            (Err(e), q2) => (Err(e), q2),
            (Ok(t2), q2) => list_suffixes_step(v, t2, q2),
        },
    }
}

/// The value type that a closed edge reference reads as, unless its definition is refused,
/// at `offset`.
pub open spec fn closed_edge_reference(d: Option<EdgeTypeDefinitionView>, offset: int) -> Result<
    ValueTypeView,
    ErrorView,
> {
    match d {
        Some(d) => match closed_edge_reference_err(d, offset) {
            Some(e) => Err(e),
            None => Ok(ValueTypeView::EdgeReference { definition: Some(d) }),
        },
        None => Ok(ValueTypeView::EdgeReference { definition: None }),
    }
}

/// What follows `ANY`: a property graph or property value, a graph, a node or an edge, a
/// record, or a dynamic union with an optional `VALUE`.
pub open spec fn any_type_step(v: InputView, p: int) -> (Result<ValueTypeView, ErrorView>, int)
    decreases v.tokens.len() - p, 26int
    when 0 <= p < v.tokens.len()
{
    if kind_at(v, p) == TokenKind::Property {
        let p1 = next_pos(v, p);
        if kind_at(v, p1) == TokenKind::Graph {
            (Ok(ValueTypeView::GraphReference { property_graph: true, body: None }), next_pos(v, p1))
        } else {
            match expect_step(v, p1, TokenKind::Value) {
                (Err(e), q) => (Err(e), q),
                (Ok(_), q) => (Ok(ValueTypeView::PropertyValue), q),
            }
        }
    } else if kind_at(v, p) == TokenKind::Graph {
        (Ok(ValueTypeView::GraphReference { property_graph: false, body: None }), next_pos(v, p))
    } else if at_node_synonym(v, p) {
        (Ok(ValueTypeView::NodeReference { definition: None }), next_pos(v, p))
    } else if at_edge_synonym(v, p) {
        (Ok(ValueTypeView::EdgeReference { definition: None }), next_pos(v, p))
    } else if kind_at(v, p) == TokenKind::Record {
        (Ok(ValueTypeView::AnyRecord), next_pos(v, p))
    } else {
        let p1 = if kind_at(v, p) == TokenKind::Value {
            next_pos(v, p)
        } else {
            p
        };
        if kind_at(v, p1) == TokenKind::Lt && next_pos(v, p1) < v.tokens.len() {
            match component_type_list_step(v, next_pos(v, p1)) {
                (Err(e), q) => (Err(e), q),
                (Ok(cs), q) => match expect_step(v, q, TokenKind::Gt) {
                    (Err(e), q2) => (Err(e), q2),
                    (Ok(_), q2) => (Ok(ValueTypeView::DynamicUnion(cs)), q2),
                },
            }
        } else {
            (Ok(ValueTypeView::AnyDynamic), p1)
        }
    }
}

/// A list type written before its element type: `LIST <t>` or `ARRAY <t>`, with an optional
/// max length.
pub open spec fn prefixed_list_type_step(v: InputView, p: int) -> (Result<ValueTypeView, ErrorView>, int)
    decreases v.tokens.len() - p, 24int
    when 0 <= p < v.tokens.len()
{
    let offset = tok(v, p).offset;
    match list_type_name_step(v, p) {
        (Err(e), q) => (Err(e), q),
        (Ok((kind, group)), q) => match expect_step(v, q, TokenKind::Lt) {
            (Err(e), q2) => (Err(e), q2),
            (Ok(_), q2) => if p < q2 < v.tokens.len() {
                match value_type_step(v, q2) {
                    (Err(e), q3) => (Err(e), q3),
                    (Ok(inner), q3) => match expect_step(v, q3, TokenKind::Gt) {
                        (Err(e), q4) => (Err(e), q4),
                        (Ok(_), q4) => match list_max_length_step(v, q4) {
                            (Err(e), q5) => (Err(e), q5),
                            (Ok(max_length), q5) => match wrap_list(inner, kind, group, max_length, offset) {
                                Err(e) => (Err(e), q5),
                                Ok(t) => (Ok(t), q5),
                            },
                        },
                    },
                }
            } else {
                (Ok(ValueTypeView::AnyDynamic), q2)
            },
        },
    }
}

/// A value type that starts with `PATH`, a list type word, `RECORD` or `{`, or else a
/// simple type.
pub open spec fn value_type_tail_step(v: InputView, p: int) -> (Result<ValueTypeView, ErrorView>, int)
    decreases v.tokens.len() - p, 26int
    when 0 <= p < v.tokens.len()
{
    let k = kind_at(v, p);
    if k == TokenKind::Path {
        (Ok(ValueTypeView::Path), next_pos(v, p))
    } else if list_type_name_at(v, p) is Some {
        prefixed_list_type_step(v, p)
    } else if k == TokenKind::Record {
        let p1 = next_pos(v, p);
        if kind_at(v, p1) == TokenKind::LBrace && p1 < v.tokens.len() {
            match field_type_spec_step(v, p1) {
                (Err(e), q) => (Err(e), q),
                (Ok(fields), q) => (Ok(ValueTypeView::Record(fields)), q),
            }
        } else {
            (Ok(ValueTypeView::AnyRecord), p1)
        }
    } else if k == TokenKind::LBrace {
        match field_type_spec_step(v, p) {
            (Err(e), q) => (Err(e), q),
            (Ok(fields), q) => (Ok(ValueTypeView::Record(fields)), q),
        }
    } else {
        simple_value_type_step(v, p)
    }
}

/// A value type named by words: a character string, boolean, temporal, byte string or
/// numeric type, or a named type.
pub open spec fn simple_value_type_step(v: InputView, p: int) -> (Result<ValueTypeView, ErrorView>, int) {
    let k = kind_at(v, p);
    if character_string_kind_at(v, p) is Some {
        character_string_type_step(v, next_pos(v, p), character_string_kind_at(v, p)->0)
    } else if boolean_kind_at(v, p) is Some {
        (Ok(ValueTypeView::Boolean { kind: boolean_kind_at(v, p)->0 }), next_pos(v, p))
    } else if temporal_kind_at(v, p) is Some {
        let (kind, n) = temporal_kind_at(v, p)->0;
        (Ok(ValueTypeView::Temporal { kind }), skip_tokens(v, p, n as nat))
    } else if byte_string_kind_at(v, p) is Some {
        byte_string_type_step(v, next_pos(v, p), byte_string_kind_at(v, p)->0)
    } else if exact_numeric_kind_at(v, p) is Some {
        exact_numeric_type_step(v, next_pos(v, p), exact_numeric_kind_at(v, p)->0)
    } else if k == TokenKind::Identifier && (text_is(v, p, "SIGNED"@) || text_is(v, p, "UNSIGNED"@)) {
        signed_integer_type_step(v, p)
    } else if integer_type_start_at(v, p) {
        integer_numeric_type_step(v, p, None)
    } else if approximate_numeric_kind_at(v, p) is Some {
        approximate_numeric_type_step(
            v,
            next_pos(v, p),
            approximate_numeric_kind_at(v, p)->0,
            tok(v, p).text,
        )
    } else {
        named_value_type_step(v, p)
    }
}

/// An edge reference value type: an edge synonym, after an optional `DIRECTED` or
/// `UNDIRECTED`, and an optional closed edge type definition.
pub open spec fn edge_reference_value_type_step(v: InputView, p: int) -> (Result<ValueTypeView, ErrorView>, int)
    decreases v.tokens.len() - p, 27int
    when 0 <= p < v.tokens.len()
{
    if at_edge_kind_before_synonym(v, p) {
        let offset = tok(v, p).offset;
        let (edge_kind, p1) = edge_kind_before_synonym_step(v, p);
        let direction = match edge_kind {
            Some(d) => d,
            None => Direction::Right,
        };
        if p1 < v.tokens.len() {
            match edge_type_definition_step(v, p1, direction, Some(direction)) {
                (Err(e), q) => (Err(e), q),
                (Ok(d), q) => (closed_edge_reference(d, offset), q),
            }
        } else {
            (Ok(ValueTypeView::AnyDynamic), p1)
        }
    } else {
        let offset = tok(v, p).offset;
        match edge_type_definition_step(v, p, Direction::Right, None) {
            (Err(e), q) => (Err(e), q),
            (Ok(d), q) => (closed_edge_reference(d, offset), q),
        }
    }
}

/// The reference value type that a graph type element reads as: a node reference, or a
/// closed edge reference, refused at `offset` if the edge has a name or endpoint types.
pub open spec fn element_reference(e: GraphTypeElementView, offset: int) -> Result<ValueTypeView, ErrorView> {
    match e {
        GraphTypeElementView::Node(d) => Ok(ValueTypeView::NodeReference { definition: Some(d) }),
        GraphTypeElementView::Edge(d) => closed_edge_reference(Some(d), offset),
    }
}

/// A node or edge reference value type written as a graph type element in parentheses;
/// an edge may not have a name or endpoint types.
pub open spec fn element_reference_value_type_step(v: InputView, p: int) -> (Result<ValueTypeView, ErrorView>, int)
    decreases v.tokens.len() - p, 27int
    when 0 <= p < v.tokens.len()
{
    match graph_type_element_step(v, p, GraphTypeElementContext::ClosedReferenceValueType) {
        (Err(e), q) => (Err(e), q),
        (Ok(e), q) => (element_reference(e, tok(v, q).offset), q),
    }
}

/// A node or edge reference value type, or else a value type that starts with `PATH`, a
/// list type word, `RECORD` or `{`, or a simple type.
pub open spec fn reference_value_type_step(v: InputView, p: int) -> (Result<ValueTypeView, ErrorView>, int)
    decreases v.tokens.len() - p, 28int
    when 0 <= p < v.tokens.len()
{
    let k = kind_at(v, p);
    if at_node_synonym(v, p) {
        match node_type_definition_step(v, p) {
            (Err(e), q) => (Err(e), q),
            (Ok(d), q) => (Ok(ValueTypeView::NodeReference { definition: d }), q),
        }
    } else if at_edge_kind_before_synonym(v, p) || at_edge_synonym(v, p) {
        edge_reference_value_type_step(v, p)
    } else if k == TokenKind::LParen {
        element_reference_value_type_step(v, p)
    } else {
        value_type_tail_step(v, p)
    }
}

/// A base value type.
pub open spec fn value_type_base_step(v: InputView, p: int) -> (Result<ValueTypeView, ErrorView>, int)
    decreases v.tokens.len() - p, 30int
    when 0 <= p < v.tokens.len()
{
    let k = kind_at(v, p);
    if group_list_at(v, p) {
        (Err(message_at(v, p, group_list_message())), p)
    } else if k == TokenKind::Any {
        if next_pos(v, p) < v.tokens.len() {
            any_type_step(v, next_pos(v, p))
        } else {
            (Ok(ValueTypeView::AnyDynamic), p)
        }
    } else if k == TokenKind::Property && kind_ahead(v, p, 1) == Some(TokenKind::Value) {
        (Ok(ValueTypeView::PropertyValue), next_pos(v, next_pos(v, p)))
    } else if k == TokenKind::Binding && kind_ahead(v, p, 1) == Some(TokenKind::Table) {
        let p2 = next_pos(v, next_pos(v, p));
        if p2 < v.tokens.len() {
            match field_type_spec_step(v, p2) {
                (Err(e), q) => (Err(e), q),
                (Ok(fields), q) => (Ok(ValueTypeView::BindingTable { binding: true, fields }), q),
            }
        } else {
            (Ok(ValueTypeView::AnyDynamic), p2)
        }
    } else if k == TokenKind::Table && kind_ahead(v, p, 1) == Some(TokenKind::LBrace) {
        let p1 = next_pos(v, p);
        if p1 < v.tokens.len() {
            match field_type_spec_step(v, p1) {
                (Err(e), q) => (Err(e), q),
                (Ok(fields), q) => (Ok(ValueTypeView::BindingTable { binding: false, fields }), q),
            }
        } else {
            (Ok(ValueTypeView::AnyDynamic), p1)
        }
    } else if k == TokenKind::Property && kind_ahead(v, p, 1) == Some(TokenKind::Graph) {
        let p2 = next_pos(v, next_pos(v, p));
        if p2 < v.tokens.len() {
            match nested_graph_type_body_step(v, p2) {
                (Err(e), q) => (Err(e), q),
                (Ok(body), q) => (
                    Ok(ValueTypeView::GraphReference { property_graph: true, body: Some(body) }),
                    q,
                ),
            }
        } else {
            (Ok(ValueTypeView::AnyDynamic), p2)
        }
    } else if k == TokenKind::Graph && kind_ahead(v, p, 1) == Some(TokenKind::LBrace) {
        let p1 = next_pos(v, p);
        if p1 < v.tokens.len() {
            match nested_graph_type_body_step(v, p1) {
                (Err(e), q) => (Err(e), q),
                (Ok(body), q) => (
                    Ok(ValueTypeView::GraphReference { property_graph: false, body: Some(body) }),
                    q,
                ),
            }
        } else {
            (Ok(ValueTypeView::AnyDynamic), p1)
        }
    } else {
        reference_value_type_step(v, p)
    }
}

/// A type name after `NODE` or `EDGE` and an optional `TYPE`: empty where label or
/// property declarations follow at once.
pub open spec fn phrase_name_step(v: InputView, p: int) -> (Result<Seq<char>, ErrorView>, int) {
    if starts_node_type_filler(v, p) {
        (Ok(Seq::empty()), p)
    } else {
        identifier_step(v, p)
    }
}

/// The position after an optional `TYPE` that an identifier follows.
pub open spec fn skip_type_marker(v: InputView, p: int) -> int {
    if kind_at(v, p) == TokenKind::Type && kind_ahead(v, p, 1) == Some(TokenKind::Identifier) {
        next_pos(v, p)
    } else {
        p
    }
}

/// An optional node type definition after `NODE` or `VERTEX`: a name, labels and
/// properties; absent where none of them follows.
pub open spec fn node_type_definition_step(v: InputView, p: int) -> (
    Result<Option<NodeTypeDefinitionView>, ErrorView>,
    int,
)
    decreases v.tokens.len() - p, 24int
    when 0 <= p < v.tokens.len()
{
    if !at_node_synonym(v, p) {
        (Err(expected_err(v, p, seq![TokenKind::Node, TokenKind::Vertex], kind_at(v, p))), p)
    } else {
        let p1 = skip_type_marker(v, next_pos(v, p));
        if kind_at(v, p1) != TokenKind::Identifier && !starts_node_type_filler(v, p1) {
            (Ok(None), p1)
        } else {
            match phrase_name_step(v, p1) {
                (Err(e), q) => (Err(e), q),
                (Ok(name), q) => match type_label_list_step(v, q) {
                    (Err(e), q2) => (Err(e), q2),
                    (Ok(labels), q2) => if p <= q2 < v.tokens.len() {
                        match property_type_set_step(v, q2) {
                            (Err(e), q3) => (Err(e), q3),
                            (Ok(properties), q3) => (
                                Ok(Some(NodeTypeDefinitionView { name, labels, properties })),
                                q3,
                            ),
                        }
                    } else {
                        (Ok(None), q2)
                    },
                },
            }
        }
    }
}

/// An optional edge type definition after `EDGE` or `RELATIONSHIP`: a name, labels, and
/// the tail with its endpoints and properties; absent where none of them follows.
pub open spec fn edge_type_definition_step(
    v: InputView,
    p: int,
    default_direction: Direction,
    explicit: Option<Direction>,
) -> (Result<Option<EdgeTypeDefinitionView>, ErrorView>, int)
    decreases v.tokens.len() - p, 24int
    when 0 <= p < v.tokens.len()
{
    if !at_edge_synonym(v, p) {
        (Err(expected_err(v, p, seq![TokenKind::Edge, TokenKind::Relationship], kind_at(v, p))), p)
    } else {
        let p1 = skip_type_marker(v, next_pos(v, p));
        if kind_at(v, p1) != TokenKind::Identifier && !starts_node_type_filler(v, p1) {
            (Ok(None), p1)
        } else {
            match phrase_name_step(v, p1) {
                (Err(e), q) => (Err(e), q),
                (Ok(name), q) => match type_label_list_step(v, q) {
                    (Err(e), q2) => (Err(e), q2),
                    (Ok(labels), q2) => if p <= q2 < v.tokens.len() {
                        match edge_type_tail_step(v, q2, default_direction, explicit) {
                            (Err(e), q3) => (Err(e), q3),
                            (Ok((direction, source, destination, properties)), q3) => (
                                Ok(
                                    Some(
                                        EdgeTypeDefinitionView {
                                            name,
                                            direction,
                                            labels,
                                            source,
                                            destination,
                                            properties,
                                        },
                                    ),
                                ),
                                q3,
                            ),
                        }
                    } else {
                        (Ok(None), q2)
                    },
                },
            }
        }
    }
}

/// A type phrase name after `NODE` or `EDGE` in a graph type element: empty where label or
/// property declarations follow at once.
pub open spec fn element_name_step(v: InputView, p: int) -> (Result<Seq<char>, ErrorView>, int) {
    if starts_node_type_filler(v, p) {
        (Ok(Seq::empty()), p)
    } else {
        type_phrase_name_step(v, p)
    }
}

/// A node type made of a name, labels and properties.
pub open spec fn node_element(name: Option<Seq<char>>, labels: Seq<Seq<char>>, properties: Seq<FieldTypeView>) -> GraphTypeElementView {
    GraphTypeElementView::Node(
        NodeTypeDefinitionView {
            name: match name {
                Some(n) => n,
                None => Seq::empty(),
            },
            labels,
            properties,
        },
    )
}

/// An edge type element.
pub open spec fn edge_element(
    name: Seq<char>,
    direction: Direction,
    labels: Seq<Seq<char>>,
    source: Option<Seq<char>>,
    destination: Option<Seq<char>>,
    properties: Seq<FieldTypeView>,
) -> GraphTypeElementView {
    GraphTypeElementView::Edge(
        EdgeTypeDefinitionView { name, direction, labels, source, destination, properties },
    )
}

/// A graph type element: a node type phrase, an edge type phrase, or a node type in
/// parentheses, which may start an edge type pattern.
pub open spec fn graph_type_element_step(v: InputView, p: int, context: GraphTypeElementContext) -> (
    Result<GraphTypeElementView, ErrorView>,
    int,
)
    decreases v.tokens.len() - p, 24int
    when 0 <= p < v.tokens.len()
{
    let offset = tok(v, p).offset;
    let (edge_kind, p1) = edge_kind_before_synonym_step(v, p);
    if at_node_synonym(v, p1) {
        match element_name_step(v, next_pos(v, p1)) {
            (Err(e), q) => (Err(e), q),
            (Ok(name), q) => match type_label_list_step(v, q) {
                (Err(e), q2) => (Err(e), q2),
                (Ok(labels), q2) => if p <= q2 < v.tokens.len() {
                    match property_type_set_step(v, q2) {
                        (Err(e), q3) => (Err(e), q3),
                        (Ok(properties), q3) => (Ok(node_element(Some(name), labels, properties)), q3),
                    }
                } else {
                    (Ok(node_element(Some(name), labels, Seq::empty())), q2)
                },
            },
        }
    } else if edge_kind is Some || at_edge_synonym(v, p1) {
        if edge_kind is Some && !at_edge_synonym(v, p1) {
            (Err(expected_err(v, p1, seq![TokenKind::Edge, TokenKind::Relationship], kind_at(v, p1))), p1)
        } else {
            match element_name_step(v, next_pos(v, p1)) {
                (Err(e), q) => (Err(e), q),
                (Ok(name), q) => match body_edge_phrase_err(context, edge_kind, name, offset) {
                    Some(e) => (Err(e), q),
                    None => match type_label_list_step(v, q) {
                        (Err(e), q2) => (Err(e), q2),
                        (Ok(labels), q2) => {
                            let direction = match edge_kind {
                                Some(d) => d,
                                None => Direction::Right,
                            };
                            if p <= q2 < v.tokens.len() {
                                match edge_type_tail_step(v, q2, direction, edge_kind) {
                                    (Err(e), q3) => (Err(e), q3),
                                    (Ok((direction, source, destination, properties)), q3) => (
                                        Ok(edge_element(name, direction, labels, source, destination, properties)),
                                        q3,
                                    ),
                                }
                            } else {
                                (Ok(node_element(Some(name), labels, Seq::empty())), q2)
                            }
                        },
                    },
                },
            }
        }
    } else if kind_at(v, p1) == TokenKind::LParen {
        let p2 = next_pos(v, p1);
        let (name, q) = if kind_at(v, p2) == TokenKind::RParen || starts_node_type_filler(v, p2) {
            (Ok(None), p2)
        } else {
            match identifier_step(v, p2) {
                (Err(e), q) => (Err(e), q),
                (Ok(n), q) => (Ok(Some(n)), q),
            }
        };
        match name {
            Err(e) => (Err(e), q),
            Ok(name) => if kind_at(v, q) == TokenKind::RParen {
                let q1 = next_pos(v, q);
                if starts_full_edge_type_arc(v, q1) && p <= q1 < v.tokens.len() {
                    full_edge_type_pattern_step(v, q1, name)
                } else {
                    (Ok(node_element(name, Seq::empty(), Seq::empty())), q1)
                }
            } else {
                match type_label_list_step(v, q) {
                    (Err(e), q2) => (Err(e), q2),
                    (Ok(labels), q2) => if p <= q2 < v.tokens.len() {
                        match property_type_set_step(v, q2) {
                            (Err(e), q3) => (Err(e), q3),
                            (Ok(properties), q3) => match expect_step(v, q3, TokenKind::RParen) {
                                (Err(e), q4) => (Err(e), q4),
                                (Ok(_), q4) => if starts_full_edge_type_arc(v, q4) && p <= q4
                                    < v.tokens.len() {
                                    full_edge_type_pattern_step(v, q4, name)
                                } else {
                                    (Ok(node_element(name, labels, properties)), q4)
                                },
                            },
                        }
                    } else {
                        (Ok(node_element(name, labels, Seq::empty())), q2)
                    },
                }
            },
        }
    } else {
        (
            Err(
                expected_err(
                    v,
                    p1,
                    seq![
                        TokenKind::Node,
                        TokenKind::Vertex,
                        TokenKind::Edge,
                        TokenKind::Relationship,
                        TokenKind::LParen,
                    ],
                    kind_at(v, p1),
                ),
            ),
            p1,
        )
    }
}

/// A bracketed arc filler, its brackets, the arc's end `close` and the node type in
/// parentheses after it, read from the `[` at `p`: the arc's name, labels, properties and
/// the node type's name.
pub open spec fn bracketed_arc_step(v: InputView, p: int, close: TokenKind) -> (
    Result<(Seq<char>, Seq<Seq<char>>, Seq<FieldTypeView>, Option<Seq<char>>), ErrorView>,
    int,
)
    decreases v.tokens.len() - p, 20int
    when 0 <= p < v.tokens.len()
{
    match expect_step(v, p, TokenKind::LBracket) {
        (Err(e), q) => (Err(e), q),
        (Ok(_), q) => if p < q < v.tokens.len() {
            match named_arc_filler_step(v, q) {
                (Err(e), q2) => (Err(e), q2),
                (Ok((name, labels, properties)), q2) => match expect_step(v, q2, TokenKind::RBracket) {
                    (Err(e), q3) => (Err(e), q3),
                    (Ok(_), q3) => match expect_step(v, q3, close) {
                        (Err(e), q4) => (Err(e), q4),
                        (Ok(_), q4) => if p < q4 < v.tokens.len() {
                            match parenthesized_node_reference_step(v, q4) {
                                (Err(e), q5) => (Err(e), q5),
                                (Ok(node), q5) => (Ok((name, labels, properties, node)), q5),
                            }
                        } else {
                            (Ok((name, labels, properties, None)), q4)
                        },
                    },
                },
            }
        } else {
            (Ok((Seq::empty(), Seq::empty(), Seq::empty(), None)), q)
        },
    }
}

/// An edge type pattern after its left node type `left`: an arc `->`, `-[...]->`, `~`,
/// `~[...]~`, `<-` or `<-[...]-`, and the node type at its other end.
pub open spec fn full_edge_type_pattern_step(v: InputView, p: int, left: Option<Seq<char>>) -> (
    Result<GraphTypeElementView, ErrorView>,
    int,
)
    decreases v.tokens.len() - p, 22int
    when 0 <= p < v.tokens.len()
{
    let p1 = next_pos(v, p);
    if kind_at(v, p) == TokenKind::ArrowRight && p1 < v.tokens.len() {
        match parenthesized_node_reference_step(v, p1) {
            (Err(e), q) => (Err(e), q),
            (Ok(node), q) => (
                Ok(edge_element(Seq::empty(), Direction::Right, Seq::empty(), left, node, Seq::empty())),
                q,
            ),
        }
    } else if kind_at(v, p) == TokenKind::Minus && p1 < v.tokens.len() {
        match bracketed_arc_step(v, p1, TokenKind::ArrowRight) {
            (Err(e), q) => (Err(e), q),
            (Ok((name, labels, properties, node)), q) => (
                Ok(edge_element(name, Direction::Right, labels, left, node, properties)),
                q,
            ),
        }
    } else if kind_at(v, p) == TokenKind::Tilde && p1 < v.tokens.len() {
        if kind_at(v, p1) == TokenKind::LParen {
            match parenthesized_node_reference_step(v, p1) {
                (Err(e), q) => (Err(e), q),
                (Ok(node), q) => (
                    Ok(edge_element(Seq::empty(), Direction::Undirected, Seq::empty(), left, node, Seq::empty())),
                    q,
                ),
            }
        } else {
            match bracketed_arc_step(v, p1, TokenKind::Tilde) {
                (Err(e), q) => (Err(e), q),
                (Ok((name, labels, properties, node)), q) => (
                    Ok(edge_element(name, Direction::Undirected, labels, left, node, properties)),
                    q,
                ),
            }
        }
    } else {
        match expect_step(v, p, TokenKind::ArrowLeft) {
            (Err(e), q) => (Err(e), q),
            (Ok(_), q) => if p < q < v.tokens.len() {
                if kind_at(v, q) == TokenKind::LParen {
                    match parenthesized_node_reference_step(v, q) {
                        (Err(e), q2) => (Err(e), q2),
                        (Ok(node), q2) => (
                            Ok(edge_element(Seq::empty(), Direction::Right, Seq::empty(), node, left, Seq::empty())),
                            q2,
                        ),
                    }
                } else {
                    match bracketed_arc_step(v, q, TokenKind::Minus) {
                        (Err(e), q2) => (Err(e), q2),
                        (Ok((name, labels, properties, node)), q2) => (
                            Ok(edge_element(name, Direction::Right, labels, node, left, properties)),
                            q2,
                        ),
                    }
                }
            } else {
                (Ok(edge_element(Seq::empty(), Direction::Right, Seq::empty(), None, left, Seq::empty())), q)
            },
        }
    }
}

/// What fills an arc's brackets: an optional name, labels and properties.
pub open spec fn named_arc_filler_step(v: InputView, p: int) -> (
    Result<(Seq<char>, Seq<Seq<char>>, Seq<FieldTypeView>), ErrorView>,
    int,
)
    decreases v.tokens.len() - p, 16int
    when 0 <= p < v.tokens.len()
{
    let (name, q) = if kind_at(v, p) == TokenKind::RBracket || starts_node_type_filler(v, p) {
        (Ok(Seq::empty()), p)
    } else {
        identifier_step(v, p)
    };
    match name {
        Err(e) => (Err(e), q),
        Ok(name) => match type_label_list_step(v, q) {
            (Err(e), q2) => (Err(e), q2),
            (Ok(labels), q2) => if p <= q2 < v.tokens.len() {
                match property_type_set_step(v, q2) {
                    (Err(e), q3) => (Err(e), q3),
                    (Ok(properties), q3) => (Ok((name, labels, properties)), q3),
                }
            } else {
                (Ok((name, labels, Seq::empty())), q2)
            },
        },
    }
}

/// A node type in parentheses at an end of an edge type: its name, if it has one; without
/// a name, its labels and properties are read and dropped.
pub open spec fn parenthesized_node_reference_step(v: InputView, p: int) -> (
    Result<Option<Seq<char>>, ErrorView>,
    int,
)
    decreases v.tokens.len() - p, 16int
    when 0 <= p < v.tokens.len()
{
    match expect_step(v, p, TokenKind::LParen) {
        (Err(e), q) => (Err(e), q),
        (Ok(_), q) => if kind_at(v, q) == TokenKind::RParen || starts_node_type_filler(v, q) {
            match type_label_list_step(v, q) {
                (Err(e), q2) => (Err(e), q2),
                (Ok(_), q2) => if p < q2 < v.tokens.len() {
                    match property_type_set_step(v, q2) {
                        (Err(e), q3) => (Err(e), q3),
                        (Ok(_), q3) => match expect_step(v, q3, TokenKind::RParen) {
                            (Err(e), q4) => (Err(e), q4),
                            (Ok(_), q4) => (Ok(None), q4),
                        },
                    }
                } else {
                    (Ok(None), q2)
                },
            }
        } else {
            match identifier_step(v, q) {
                (Err(e), q2) => (Err(e), q2),
                (Ok(name), q2) => match expect_step(v, q2, TokenKind::RParen) {
                    (Err(e), q3) => (Err(e), q3),
                    (Ok(_), q3) => (Ok(Some(name)), q3),
                },
            }
        },
    }
}

/// An optional `FROM` and `TO` node type after an edge type.
pub open spec fn from_to_step(v: InputView, p: int) -> (
    Result<(Option<Seq<char>>, Option<Seq<char>>), ErrorView>,
    int,
) {
    let (source, q) = if kind_at(v, p) == TokenKind::From {
        match identifier_step(v, next_pos(v, p)) {
            (Err(e), q) => (Err(e), q),
            (Ok(n), q) => (Ok(Some(n)), q),
        }
    } else {
        (Ok(None), p)
    };
    match source {
        Err(e) => (Err(e), q),
        Ok(source) => if kind_at(v, q) == TokenKind::To {
            match identifier_step(v, next_pos(v, q)) {
                (Err(e), q2) => (Err(e), q2),
                (Ok(n), q2) => (Ok((source, Some(n))), q2),
            }
        } else {
            (Ok((source, None)), q)
        },
    }
}

/// The tail of an edge type phrase: properties, then `CONNECTING` and an endpoint pair or
/// `FROM` and `TO`, then properties if none came before.
pub open spec fn edge_type_tail_step(
    v: InputView,
    p: int,
    default_direction: Direction,
    explicit: Option<Direction>,
) -> (
    Result<(Direction, Option<Seq<char>>, Option<Seq<char>>, Seq<FieldTypeView>), ErrorView>,
    int,
)
    decreases v.tokens.len() - p, 20int
    when 0 <= p < v.tokens.len()
{
    match property_type_set_step(v, p) {
        (Err(e), q) => (Err(e), q),
        (Ok(properties), q) => {
            let (ends, q2) = if kind_at(v, q) == TokenKind::Connecting {
                if p <= next_pos(v, q) < v.tokens.len() {
                    endpoint_pair_step(v, next_pos(v, q), default_direction, explicit)
                } else {
                    (Ok((default_direction, None, None)), next_pos(v, q))
                }
            } else {
                match from_to_step(v, q) {
                    (Err(e), q2) => (Err(e), q2),
                    (Ok((source, destination)), q2) => (Ok((default_direction, source, destination)), q2),
                }
            };
            match ends {
                Err(e) => (Err(e), q2),
                Ok((direction, source, destination)) => if properties.len() == 0 && p <= q2
                    < v.tokens.len() {
                    match property_type_set_step(v, q2) {
                        (Err(e), q3) => (Err(e), q3),
                        (Ok(properties2), q3) => (Ok((direction, source, destination, properties2)), q3),
                    }
                } else {
                    (Ok((direction, source, destination, properties)), q2)
                },
            }
        },
    }
}

/// The expected continuations of an endpoint pair.
pub open spec fn endpoint_continuations() -> Seq<TokenKind> {
    seq![TokenKind::To, TokenKind::ArrowRight, TokenKind::ArrowLeft, TokenKind::Tilde]
}

/// An endpoint pair in parentheses: `(a)` and an arc with the node type at its other end,
/// or `(a TO b)`, `(a -> b)`, `(a ~ b)` or `(a <- b)`; the shape must suit the edge kind
/// `explicit`, if one was given.
pub open spec fn endpoint_pair_step(
    v: InputView,
    p: int,
    default_direction: Direction,
    explicit: Option<Direction>,
) -> (Result<(Direction, Option<Seq<char>>, Option<Seq<char>>), ErrorView>, int)
    decreases v.tokens.len() - p, 18int
    when 0 <= p < v.tokens.len()
{
    match expect_step(v, p, TokenKind::LParen) {
        (Err(e), q) => (Err(e), q),
        (Ok(_), q) => match identifier_step(v, q) {
            (Err(e), q1) => (Err(e), q1),
            (Ok(first), q1) => if kind_at(v, q1) == TokenKind::RParen {
                let q2 = next_pos(v, q1);
                let k = kind_at(v, q2);
                if k == TokenKind::ArrowRight || k == TokenKind::ArrowLeft || k == TokenKind::Tilde {
                    let shape = if k == TokenKind::Tilde {
                        Direction::Undirected
                    } else {
                        Direction::Right
                    };
                    match endpoint_shape_err(explicit, shape, tok(v, q2).offset) {
                        Some(e) => (Err(e), next_pos(v, q2)),
                        None => if p < next_pos(v, q2) < v.tokens.len() {
                            match parenthesized_node_reference_step(v, next_pos(v, q2)) {
                                (Err(e), q3) => (Err(e), q3),
                                (Ok(other), q3) => if k == TokenKind::ArrowLeft {
                                    (Ok((shape, other, Some(first))), q3)
                                } else {
                                    (Ok((shape, Some(first), other)), q3)
                                },
                            }
                        } else {
                            (Ok((shape, Some(first), None)), next_pos(v, q2))
                        },
                    }
                } else {
                    (Err(expected_err(v, q2, endpoint_continuations(), k)), q2)
                }
            } else {
                let k = kind_at(v, q1);
                let (r, q3) = if k == TokenKind::To {
                    match identifier_step(v, next_pos(v, q1)) {
                        (Err(e), q2) => (Err(e), q2),
                        (Ok(second), q2) => (Ok((default_direction, Some(first), Some(second))), q2),
                    }
                } else if k == TokenKind::ArrowRight || k == TokenKind::Tilde || k
                    == TokenKind::ArrowLeft {
                    let shape = if k == TokenKind::Tilde {
                        Direction::Undirected
                    } else {
                        Direction::Right
                    };
                    match endpoint_shape_err(explicit, shape, tok(v, q1).offset) {
                        Some(e) => (Err(e), next_pos(v, q1)),
                        None => match identifier_step(v, next_pos(v, q1)) {
                            (Err(e), q2) => (Err(e), q2),
                            (Ok(second), q2) => if k == TokenKind::ArrowLeft {
                                (Ok((shape, Some(second), Some(first))), q2)
                            } else {
                                (Ok((shape, Some(first), Some(second))), q2)
                            },
                        },
                    }
                } else {
                    (Err(expected_err(v, q1, endpoint_continuations(), k)), q1)
                };
                match r {
                    Err(e) => (Err(e), q3),
                    Ok(t) => match expect_step(v, q3, TokenKind::RParen) {
                        (Err(e), q4) => (Err(e), q4),
                        (Ok(_), q4) => (Ok(t), q4),
                    },
                }
            },
        },
    }
}

/// The message for a name that repeats one before it: `what` and the name.
pub open spec fn duplicate_message(what: Seq<char>, name: Seq<char>) -> Seq<char> {
    "duplicate "@ + what + " '"@ + name + "'"@
}

/// Named value types separated by commas, after the first ones, which made `acc`: each a
/// name that no earlier one has, ignoring case, an optional `TYPED`, and a value type.
/// `what` names them in the error for a repeated name.
pub open spec fn typed_names_rest(v: InputView, acc: Seq<FieldTypeView>, p: int, what: Seq<char>) -> (
    Result<Seq<FieldTypeView>, ErrorView>,
    int,
)
    decreases v.tokens.len() - p, 8int
    when 0 <= p < v.tokens.len()
{
    let offset = tok(v, p).offset;
    match identifier_step(v, p) {
        (Err(e), q) => (Err(e), q),
        (Ok(name), q) => if has_field_named(acc, name) {
            (Err(ErrorView::Message { offset, message: duplicate_message(what, name) }), q)
        } else {
            match typed_marker_step(v, q) {
                (Err(e), q2) => (Err(e), q2),
                (Ok(_), q2) => if p < q2 < v.tokens.len() {
                    match value_type_step(v, q2) {
                        (Err(e), q3) => (Err(e), q3),
                        (Ok(t), q3) => {
                            let acc2 = acc.push(FieldTypeView { name, value_type: t });
                            if kind_at(v, q3) == TokenKind::Comma {
                                if p < next_pos(v, q3) < v.tokens.len() {
                                    typed_names_rest(v, acc2, next_pos(v, q3), what)
                                } else {
                                    (Ok(acc2), next_pos(v, q3))
                                }
                            } else {
                                (Ok(acc2), q3)
                            }
                        },
                    }
                } else {
                    (Ok(acc), q2)
                },
            }
        },
    }
}

/// Named value types in braces after the `{` at `p`, up to the closing `}`.
pub open spec fn braced_typed_names_step(v: InputView, p: int, what: Seq<char>) -> (
    Result<Seq<FieldTypeView>, ErrorView>,
    int,
)
    decreases v.tokens.len() - p, 10int
    when 0 <= p < v.tokens.len()
{
    let (r, q) = if kind_at(v, p) == TokenKind::RBrace {
        (Ok(Seq::empty()), p)
    } else {
        typed_names_rest(v, Seq::empty(), p, what)
    };
    match r {
        Err(e) => (Err(e), q),
        Ok(items) => match expect_step(v, q, TokenKind::RBrace) {
            (Err(e), q2) => (Err(e), q2),
            (Ok(_), q2) => (Ok(items), q2),
        },
    }
}

/// An optional set of property types in braces.
pub open spec fn property_type_set_step(v: InputView, p: int) -> (
    Result<Seq<FieldTypeView>, ErrorView>,
    int,
)
    decreases v.tokens.len() - p, 12int
    when 0 <= p < v.tokens.len()
{
    if kind_at(v, p) == TokenKind::LBrace && next_pos(v, p) < v.tokens.len() {
        braced_typed_names_step(v, next_pos(v, p), "property"@)
    } else {
        (Ok(Seq::empty()), if kind_at(v, p) == TokenKind::LBrace {
            next_pos(v, p)
        } else {
            p
        })
    }
}

/// A field type specification: field types in braces.
pub open spec fn field_type_spec_step(v: InputView, p: int) -> (
    Result<Seq<FieldTypeView>, ErrorView>,
    int,
)
    decreases v.tokens.len() - p, 12int
    when 0 <= p < v.tokens.len()
{
    match expect_step(v, p, TokenKind::LBrace) {
        (Err(e), q) => (Err(e), q),
        (Ok(_), q) => if p < q < v.tokens.len() {
            braced_typed_names_step(v, q, "field"@)
        } else {
            (Ok(Seq::empty()), q)
        },
    }
}

/// Graph type elements separated by commas, after the first ones, which made `acc`: no two
/// of one kind may have the same name, ignoring case.
pub open spec fn graph_type_elements_rest(v: InputView, acc: Seq<GraphTypeElementView>, p: int) -> (
    Result<Seq<GraphTypeElementView>, ErrorView>,
    int,
)
    decreases v.tokens.len() - p, 26int
    when 0 <= p < v.tokens.len()
{
    let offset = tok(v, p).offset;
    match graph_type_element_step(v, p, GraphTypeElementContext::GraphTypeSpecificationBody) {
        (Err(e), q) => (Err(e), q),
        (Ok(e), q) => match element_name_err(acc, e, offset) {
            Some(err) => (Err(err), q),
            None => {
                let acc2 = acc.push(e);
                if kind_at(v, q) == TokenKind::Comma {
                    if p < next_pos(v, q) < v.tokens.len() {
                        graph_type_elements_rest(v, acc2, next_pos(v, q))
                    } else {
                        (Ok(acc2), next_pos(v, q))
                    }
                } else {
                    (Ok(acc2), q)
                }
            },
        },
    }
}

/// A graph type body: elements in braces, whose edge endpoint node types the body defines.
pub open spec fn nested_graph_type_body_step(v: InputView, p: int) -> (
    Result<GraphTypeBodyView, ErrorView>,
    int,
)
    decreases v.tokens.len() - p, 12int
    when 0 <= p < v.tokens.len()
{
    match expect_step(v, p, TokenKind::LBrace) {
        (Err(e), q) => (Err(e), q),
        (Ok(_), q) => {
            let (r, q2) = if kind_at(v, q) == TokenKind::RBrace {
                (Ok(Seq::empty()), q)
            } else if p < q < v.tokens.len() {
                graph_type_elements_rest(v, Seq::empty(), q)
            } else {
                (Ok(Seq::empty()), q)
            };
            match r {
                Err(e) => (Err(e), q2),
                Ok(elements) => match endpoint_types_err(elements, elements.len() as int, tok(v, q2).offset) {
                    Some(e) => (Err(e), q2),
                    None => match expect_step(v, q2, TokenKind::RBrace) {
                        (Err(e), q3) => (Err(e), q3),
                        (Ok(_), q3) => (Ok(GraphTypeBodyView { elements }), q3),
                    },
                },
            }
        },
    }
}

/// The tokens that spell words are identifier-like tokens, so none is the end of the input.
pub proof fn lemma_words_at_tokens(v: InputView, p: int, words: Seq<&str>)
    requires
        words_at(v, p, words),
    ensures
        forall|q: int|
            p <= q < p + words.len() ==> q < v.tokens.len() && #[trigger] kind_at(v, q)
                != TokenKind::Eof,
{
    assert forall|q: int| p <= q < p + words.len() implies q < v.tokens.len() && #[trigger] kind_at(
        v,
        q,
    ) != TokenKind::Eof by {
        assert(word_at(v, p + (q - p), words[q - p]@));
    }
}

/// The words that belong to a type name are tokens before the end of the input.
pub proof fn lemma_extra_type_words(v: InputView, t: Seq<char>, q: int)
    ensures
        extra_type_words(v, t, q) <= 3,
        forall|q2: int|
            q <= q2 < q + extra_type_words(v, t, q) ==> q2 < v.tokens.len() && #[trigger] kind_at(
                v,
                q2,
            ) != TokenKind::Eof,
{
    if words_at(v, q, seq!["INTEGER"]) {
        lemma_words_at_tokens(v, q, seq!["INTEGER"]);
    }
    if words_at(v, q, seq!["PRECISION"]) {
        lemma_words_at_tokens(v, q, seq!["PRECISION"]);
    }
    if words_at(v, q, seq!["VARYING"]) {
        lemma_words_at_tokens(v, q, seq!["VARYING"]);
    }
    if words_at(v, q, seq!["LARGE", "OBJECT"]) {
        lemma_words_at_tokens(v, q, seq!["LARGE", "OBJECT"]);
    }
    if words_at(v, q, seq!["WITH", "TIME", "ZONE"]) {
        lemma_words_at_tokens(v, q, seq!["WITH", "TIME", "ZONE"]);
    }
    if words_at(v, q, seq!["WITHOUT", "TIME", "ZONE"]) {
        lemma_words_at_tokens(v, q, seq!["WITHOUT", "TIME", "ZONE"]);
    }
    if words_at(v, q, seq!["DATETIME"]) {
        lemma_words_at_tokens(v, q, seq!["DATETIME"]);
    }
    if words_at(v, q, seq!["TIME"]) {
        lemma_words_at_tokens(v, q, seq!["TIME"]);
    }
}

/// Once an endpoint error is found among the first `m` elements, it is the error for any
/// longer prefix.
pub proof fn lemma_endpoint_types_err_stays(elements: Seq<GraphTypeElementView>, m: int, n: int, offset: int)
    requires
        0 <= m <= n,
        endpoint_types_err(elements, m, offset) is Some,
    ensures
        endpoint_types_err(elements, n, offset) == endpoint_types_err(elements, m, offset),
    decreases n - m,
{
    if n > m {
        lemma_endpoint_types_err_stays(elements, m, n - 1, offset);
    }
}

} // verus!
