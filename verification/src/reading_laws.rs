use vstd::prelude::*;
use crate::ast::{BinaryOp, NullOrdering, SortDirection, TemporalTypeKind};
use crate::expr_grammar::{comparison_op, expr_step, ExprView};
use crate::chars::digit_value;
use crate::lexer::{digits_value, is_at, lex_escape, lex_punctuation, lex_quoted_body, lex_unicode};
use vstd::arithmetic::power::pow;
use crate::modify_grammar::{
    delete_statement_step, pair_conflict, property_target, remove_item_step, set_item_step, RemoveItemView, SetItemView,
};
use crate::parser::{kind_at, next_pos, tok, InputView};
use crate::query_grammar::{order_items_rest, OrderByItemView};
use crate::text::{eq_ignore_ascii_case, upper_code};
use crate::token::TokenKind;
use crate::type_grammar::{temporal_kind_at, word_at, words_at};

verus! {

/// Whether the characters `t` spell the comparison operator `op`: `=`, `<>` or `!=`, `<`,
/// `<=`, `>`, `>=`.
pub open spec fn spells_comparison(op: BinaryOp, t: Seq<char>) -> bool {
    match op {
        BinaryOp::Eq => t == seq!['='],
        BinaryOp::Neq => t == seq!['<', '>'] || t == seq!['!', '='],
        BinaryOp::Lt => t == seq!['<'],
        BinaryOp::Le => t == seq!['<', '='],
        BinaryOp::Gt => t == seq!['>'],
        BinaryOp::Ge => t == seq!['>', '='],
        _ => false,
    }
}

/// A comparison token reads as the operator that its characters spell: the token that the
/// lexer makes of `<` compares with `<`, the one it makes of `>=` with `>=`, and so on.
pub proof fn law_comparison_tokens_read_as_spelled(s: Seq<char>, i: int)
    requires
        0 <= i < s.len(),
    ensures
        lex_punctuation(s, i) matches Some((k, end)) ==> (comparison_op(k) is Some ==> spells_comparison(
            comparison_op(k)->0,
            s.subrange(i, end),
        )),
{
    if lex_punctuation(s, i) is Some {
        let (k, end) = lex_punctuation(s, i)->0;
        if comparison_op(k) is Some {
            if end == i + 1 {
                assert(s.subrange(i, end) =~= seq![s[i]]);
            } else {
                assert(s.subrange(i, end) =~= seq![s[i], s[i + 1]]);
            }
        }
    }
}

/// A comparison token is read for each spelling of a comparison operator: whatever the
/// lexer makes of `<`, `<=`, `>`, `>=`, `=`, `<>` or `!=` compares with that operator.
pub proof fn law_comparison_spellings_read_as_comparisons(s: Seq<char>, i: int, op: BinaryOp)
    requires
        0 <= i < s.len(),
    ensures
        lex_punctuation(s, i) matches Some((k, end)) ==> (spells_comparison(op, s.subrange(i, end))
            ==> comparison_op(k) == Some(op)),
{
    if lex_punctuation(s, i) is Some {
        let (k, end) = lex_punctuation(s, i)->0;
        let t = s.subrange(i, end);
        if end == i + 1 {
            assert(t =~= seq![s[i]]);
            assert(t.len() == 1 && t[0] == s[i]);
        } else {
            assert(t =~= seq![s[i], s[i + 1]]);
            assert(t.len() == 2 && t[0] == s[i] && t[1] == s[i + 1]);
        }
        if spells_comparison(op, t) {
            assert(t.len() == 1 ==> t[0] == s[i]);
        }
    }
}

/// Whether the `n` tokens from `p` name the temporal type `k`: `ZONED DATETIME` or
/// `TIMESTAMP WITH TIME ZONE`; `LOCAL DATETIME`, `TIMESTAMP WITHOUT TIME ZONE` or
/// `TIMESTAMP`; `DATE`; `ZONED TIME` or `TIME WITH TIME ZONE`; `LOCAL TIME` or
/// `TIME WITHOUT TIME ZONE`; `DURATION`.
pub open spec fn names_temporal_type(k: TemporalTypeKind, v: InputView, p: int, n: int) -> bool {
    match k {
        TemporalTypeKind::ZonedDateTime => (n == 2 && words_at(v, p, seq!["ZONED", "DATETIME"])) || (n == 4
            && words_at(v, p, seq!["TIMESTAMP", "WITH", "TIME", "ZONE"])),
        TemporalTypeKind::LocalDateTime => (n == 2 && words_at(v, p, seq!["LOCAL", "DATETIME"])) || (n == 4
            && words_at(v, p, seq!["TIMESTAMP", "WITHOUT", "TIME", "ZONE"])) || (n == 1 && words_at(
            v,
            p,
            seq!["TIMESTAMP"],
        )),
        TemporalTypeKind::Date => n == 1 && kind_at(v, p) == TokenKind::Date,
        TemporalTypeKind::ZonedTime => (n == 2 && words_at(v, p, seq!["ZONED", "TIME"])) || (n == 4 && words_at(
            v,
            p,
            seq!["TIME", "WITH", "TIME", "ZONE"],
        )),
        TemporalTypeKind::LocalTime => (n == 2 && words_at(v, p, seq!["LOCAL", "TIME"])) || (n == 4 && words_at(
            v,
            p,
            seq!["TIME", "WITHOUT", "TIME", "ZONE"],
        )),
        TemporalTypeKind::Duration => n == 1 && kind_at(v, p) == TokenKind::Duration,
    }
}

/// The temporal type read at `p` is the one its words name: `ZONED TIME` is a zoned time,
/// `LOCAL TIME` a local time, `TIMESTAMP` a local datetime, and so on.
pub proof fn law_temporal_type_is_named_by_its_words(v: InputView, p: int)
    ensures
        temporal_kind_at(v, p) matches Some((k, n)) ==> names_temporal_type(k, v, p, n),
{
}

/// The words of a temporal type read as the type they name, when the first token is not the
/// `DATE` keyword: `ZONED TIME` and `TIME WITH TIME ZONE` are zoned times, `LOCAL TIME` and
/// `TIME WITHOUT TIME ZONE` local times, `ZONED DATETIME` and `TIMESTAMP WITH TIME ZONE`
/// zoned datetimes, `LOCAL DATETIME` and `TIMESTAMP WITHOUT TIME ZONE` local datetimes.
pub proof fn law_temporal_words_read_as_named(v: InputView, p: int)
    requires
        kind_at(v, p) != TokenKind::Date,
    ensures
        words_at(v, p, seq!["ZONED", "TIME"]) ==> temporal_kind_at(v, p) == Some((TemporalTypeKind::ZonedTime, 2int)),
        words_at(v, p, seq!["TIME", "WITH", "TIME", "ZONE"]) ==> temporal_kind_at(v, p) == Some(
            (TemporalTypeKind::ZonedTime, 4int),
        ),
        words_at(v, p, seq!["LOCAL", "TIME"]) ==> temporal_kind_at(v, p) == Some((TemporalTypeKind::LocalTime, 2int)),
        words_at(v, p, seq!["TIME", "WITHOUT", "TIME", "ZONE"]) ==> temporal_kind_at(v, p) == Some(
            (TemporalTypeKind::LocalTime, 4int),
        ),
        words_at(v, p, seq!["ZONED", "DATETIME"]) ==> temporal_kind_at(v, p) == Some(
            (TemporalTypeKind::ZonedDateTime, 2int),
        ),
        words_at(v, p, seq!["TIMESTAMP", "WITH", "TIME", "ZONE"]) ==> temporal_kind_at(v, p) == Some(
            (TemporalTypeKind::ZonedDateTime, 4int),
        ),
        words_at(v, p, seq!["LOCAL", "DATETIME"]) ==> temporal_kind_at(v, p) == Some(
            (TemporalTypeKind::LocalDateTime, 2int),
        ),
        words_at(v, p, seq!["TIMESTAMP", "WITHOUT", "TIME", "ZONE"]) ==> temporal_kind_at(v, p) == Some(
            (TemporalTypeKind::LocalDateTime, 4int),
        ),
{
    reveal_strlit("ZONED");
    reveal_strlit("TIME");
    reveal_strlit("DATETIME");
    reveal_strlit("TIMESTAMP");
    reveal_strlit("WITH");
    reveal_strlit("WITHOUT");
    reveal_strlit("ZONE");
    reveal_strlit("LOCAL");
    lemma_two_words(v, p, "ZONED", "DATETIME");
    lemma_two_words(v, p, "LOCAL", "DATETIME");
    lemma_two_words(v, p, "ZONED", "TIME");
    lemma_two_words(v, p, "LOCAL", "TIME");
    lemma_four_words(v, p, "TIMESTAMP", "WITH", "TIME", "ZONE");
    lemma_four_words(v, p, "TIMESTAMP", "WITHOUT", "TIME", "ZONE");
    lemma_four_words(v, p, "TIME", "WITH", "TIME", "ZONE");
    lemma_four_words(v, p, "TIME", "WITHOUT", "TIME", "ZONE");
    lemma_one_word(v, p, "TIMESTAMP");
    lemma_words_of_other_lengths(v, p, "ZONED"@, "TIMESTAMP"@);
    lemma_words_of_other_lengths(v, p, "ZONED"@, "TIME"@);
    lemma_words_of_other_lengths(v, p, "LOCAL"@, "TIMESTAMP"@);
    lemma_words_of_other_lengths(v, p, "LOCAL"@, "TIME"@);
    lemma_words_of_other_lengths(v, p, "TIMESTAMP"@, "TIME"@);
    lemma_words_of_other_lengths(v, p + 1, "TIME"@, "DATETIME"@);
    lemma_words_of_other_lengths(v, p + 1, "WITH"@, "WITHOUT"@);
    lemma_zoned_is_not_local(v, p);
}

/// No token is spelled like two words of different lengths.
proof fn lemma_words_of_other_lengths(v: InputView, q: int, a: Seq<char>, b: Seq<char>)
    requires
        a.len() != b.len(),
    ensures
        !(word_at(v, q, a) && word_at(v, q, b)),
{
}

/// No token is spelled both `ZONED` and `LOCAL`.
proof fn lemma_zoned_is_not_local(v: InputView, q: int)
    ensures
        !(word_at(v, q, "ZONED"@) && word_at(v, q, "LOCAL"@)),
{
    reveal_strlit("ZONED");
    reveal_strlit("LOCAL");
    if word_at(v, q, "ZONED"@) && word_at(v, q, "LOCAL"@) {
        let t = crate::parser::tok(v, q).text;
        assert(upper_code(t[0]) == upper_code("ZONED"@[0]));
        assert(upper_code(t[0]) == upper_code("LOCAL"@[0]));
        assert(upper_code('Z') != upper_code('L'));
    }
}

/// The tokens from `p` spell one word exactly when the token at `p` does.
proof fn lemma_one_word(v: InputView, p: int, a: &str)
    ensures
        words_at(v, p, seq![a]) <==> word_at(v, p, a@),
{
    let w = seq![a];
    assert(w[0] == a);
}

/// The tokens from `p` spell two words exactly when the tokens at `p` and `p + 1` do.
proof fn lemma_two_words(v: InputView, p: int, a: &str, b: &str)
    ensures
        words_at(v, p, seq![a, b]) <==> (word_at(v, p, a@) && word_at(v, p + 1, b@)),
{
    let w = seq![a, b];
    assert(w[0] == a && w[1] == b);
    if word_at(v, p, a@) && word_at(v, p + 1, b@) {
        assert forall|i: int| 0 <= i < w.len() implies word_at(v, p + i, #[trigger] w[i]@) by {
            if i == 0 {
            } else {
            }
        }
    }
}

/// The tokens from `p` spell four words exactly when the four tokens from `p` do.
proof fn lemma_four_words(v: InputView, p: int, a: &str, b: &str, c: &str, d: &str)
    ensures
        words_at(v, p, seq![a, b, c, d]) <==> (word_at(v, p, a@) && word_at(v, p + 1, b@) && word_at(v, p + 2, c@)
            && word_at(v, p + 3, d@)),
{
    let w = seq![a, b, c, d];
    assert(w[0] == a && w[1] == b && w[2] == c && w[3] == d);
    if word_at(v, p, a@) && word_at(v, p + 1, b@) && word_at(v, p + 2, c@) && word_at(v, p + 3, d@) {
        assert forall|i: int| 0 <= i < w.len() implies word_at(v, p + i, #[trigger] w[i]@) by {
            if i == 0 {
            } else if i == 1 {
            } else if i == 2 {
            } else {
            }
        }
    }
}

/// The direction that a keyword after an order item names: `ASC` or `ASCENDING` ascending,
/// `DESC` or `DESCENDING` descending.
pub open spec fn direction_named(k: TokenKind) -> Option<SortDirection> {
    if k == TokenKind::Asc || k == TokenKind::Ascending {
        Some(SortDirection::Asc)
    } else if k == TokenKind::Desc || k == TokenKind::Descending {
        Some(SortDirection::Desc)
    } else {
        None
    }
}

/// Reading order items keeps the items read before.
pub proof fn lemma_order_items_keep_prefix(v: InputView, p: int, acc: Seq<OrderByItemView>)
    requires
        0 <= p < v.tokens.len(),
    ensures
        order_items_rest(v, p, acc).0 matches Ok(items) ==> acc.len() < items.len() && items.take(
            acc.len() as int,
        ) == acc,
    decreases v.tokens.len() - p,
{
    match expr_step(v, p) {
        (Err(_), _) => {},
        (Ok(e), q) => {
            let k = kind_at(v, q);
            let (direction, q1) = if k == TokenKind::Asc || k == TokenKind::Ascending {
                (Some(SortDirection::Asc), next_pos(v, q))
            } else if k == TokenKind::Desc || k == TokenKind::Descending {
                (Some(SortDirection::Desc), next_pos(v, q))
            } else {
                (None, q)
            };
            let (nulls, q2) = if kind_at(v, q1) == TokenKind::Nulls {
                let q3 = next_pos(v, q1);
                if kind_at(v, q3) == TokenKind::First {
                    (Ok(Some(NullOrdering::First)), next_pos(v, q3))
                } else if kind_at(v, q3) == TokenKind::Last {
                    (Ok(Some(NullOrdering::Last)), next_pos(v, q3))
                } else {
                    (Err(()), q3)
                }
            } else {
                (Ok(None), q1)
            };
            if let Ok(null_ordering) = nulls {
                let acc2 = acc.push(OrderByItemView { expr: e, direction, null_ordering });
                if kind_at(v, q2) == TokenKind::Comma && p < q2 < v.tokens.len() && next_pos(v, q2) < v.tokens.len() {
                    lemma_order_items_keep_prefix(v, next_pos(v, q2), acc2);
                    if order_items_rest(v, p, acc).0 is Ok {
                        let items = order_items_rest(v, p, acc).0->Ok_0;
                        assert(items.take(acc2.len() as int) == acc2);
                        assert(items.take(acc.len() as int) =~= acc2.take(acc.len() as int));
                        assert(acc2.take(acc.len() as int) =~= acc);
                    }
                } else {
                    assert(acc2.take(acc.len() as int) =~= acc);
                }
            }
        },
    }
}

/// An order item has the direction that the keyword after its expression names, and the
/// null ordering that `NULLS FIRST` or `NULLS LAST` after that names: an item followed by
/// `ASC` or `ASCENDING` sorts ascending, one followed by `DESC` or `DESCENDING`
/// descending, and one followed by neither has no direction.
pub proof fn law_order_item_direction(v: InputView, p: int, acc: Seq<OrderByItemView>)
    requires
        0 <= p < v.tokens.len(),
    ensures
        expr_step(v, p).0 matches Ok(e) ==> (order_items_rest(v, p, acc).0 matches Ok(items) ==> {
            let q = expr_step(v, p).1;
            let item = items[acc.len() as int];
            let q1 = if direction_named(kind_at(v, q)) is Some {
                next_pos(v, q)
            } else {
                q
            };
            &&& acc.len() < items.len()
            &&& item.expr == e
            &&& item.direction == direction_named(kind_at(v, q))
            &&& item.null_ordering == (if kind_at(v, q1) == TokenKind::Nulls {
                if kind_at(v, next_pos(v, q1)) == TokenKind::First {
                    Some(NullOrdering::First)
                } else {
                    Some(NullOrdering::Last)
                }
            } else {
                None
            })
        }),
{
    lemma_order_items_keep_prefix(v, p, acc);
    match expr_step(v, p) {
        (Err(_), _) => {},
        (Ok(e), q) => {
            let k = kind_at(v, q);
            let (direction, q1) = if k == TokenKind::Asc || k == TokenKind::Ascending {
                (Some(SortDirection::Asc), next_pos(v, q))
            } else if k == TokenKind::Desc || k == TokenKind::Descending {
                (Some(SortDirection::Desc), next_pos(v, q))
            } else {
                (None, q)
            };
            let (nulls, q2) = if kind_at(v, q1) == TokenKind::Nulls {
                let q3 = next_pos(v, q1);
                if kind_at(v, q3) == TokenKind::First {
                    (Ok(Some(NullOrdering::First)), next_pos(v, q3))
                } else if kind_at(v, q3) == TokenKind::Last {
                    (Ok(Some(NullOrdering::Last)), next_pos(v, q3))
                } else {
                    (Err(()), q3)
                }
            } else {
                (Ok(None), q1)
            };
            if let Ok(null_ordering) = nulls {
                let acc2 = acc.push(OrderByItemView { expr: e, direction, null_ordering });
                if kind_at(v, q2) == TokenKind::Comma && p < q2 < v.tokens.len() && next_pos(v, q2) < v.tokens.len() {
                    lemma_order_items_keep_prefix(v, next_pos(v, q2), acc2);
                    if order_items_rest(v, p, acc).0 is Ok {
                        let items = order_items_rest(v, p, acc).0->Ok_0;
                        assert(items.take(acc2.len() as int) == acc2);
                        assert(items[acc.len() as int] == items.take(acc2.len() as int)[acc.len() as int]);
                    }
                }
            }
        },
    }
}

/// A `SET` assignment of a property conflicts with an earlier one exactly when both name the
/// same variable and the same key, ignoring case; an assignment of all properties conflicts
/// with an earlier assignment to the same variable of any kind; labels never conflict. The
/// message names the later assignment.
pub proof fn law_set_conflicts(
    v1: Seq<char>,
    k1: Seq<char>,
    v2: Seq<char>,
    k2: Seq<char>,
    a: ExprView,
    b: ExprView,
    r1: Seq<(Seq<char>, ExprView)>,
    r2: Seq<(Seq<char>, ExprView)>,
    l1: Seq<char>,
    l2: Seq<char>,
)
    ensures
        pair_conflict(
            SetItemView::Property { target: property_target(v1, k1), value: a },
            SetItemView::Property { target: property_target(v2, k2), value: b },
        ) == if eq_ignore_ascii_case(v1, v2) && eq_ignore_ascii_case(k1, k2) {
            Some("duplicate SET assignment to property '"@ + v2 + "."@ + k2 + "'"@)
        } else {
            None::<Seq<char>>
        },
        pair_conflict(
            SetItemView::AllProperties { variable: v1, properties: r1 },
            SetItemView::AllProperties { variable: v2, properties: r2 },
        ) == if eq_ignore_ascii_case(v1, v2) {
            Some("duplicate SET all-properties assignment to '"@ + v2 + "'"@)
        } else {
            None::<Seq<char>>
        },
        pair_conflict(
            SetItemView::Property { target: property_target(v1, k1), value: a },
            SetItemView::AllProperties { variable: v2, properties: r2 },
        ) == if eq_ignore_ascii_case(v1, v2) {
            Some("SET all-properties assignment conflicts with property assignment for '"@ + v2 + "'"@)
        } else {
            None::<Seq<char>>
        },
        pair_conflict(
            SetItemView::AllProperties { variable: v1, properties: r1 },
            SetItemView::Property { target: property_target(v2, k2), value: b },
        ) == if eq_ignore_ascii_case(v1, v2) {
            Some("SET all-properties assignment conflicts with property assignment for '"@ + v2 + "'"@)
        } else {
            None::<Seq<char>>
        },
        pair_conflict(
            SetItemView::Label { variable: v1, label: l1 },
            SetItemView::Property { target: property_target(v2, k2), value: b },
        ) is None,
        pair_conflict(
            SetItemView::Property { target: property_target(v1, k1), value: a },
            SetItemView::Label { variable: v2, label: l2 },
        ) is None,
{
}

/// An escape sequence stands for the character it names: a backslash, a quote or a
/// backquote after a backslash stands for itself, `\t` for a tab, `\b` for a backspace,
/// `\n` for a line feed, `\r` for a carriage return and `\f` for a form feed; each reads
/// one character after the backslash.
pub proof fn law_escape_names_its_character(s: Seq<char>, p: int, start: int)
    requires
        0 <= p < s.len(),
    ensures
        s[p] == '\\' || s[p] == '\'' || s[p] == '"' || s[p] == '`' ==> lex_escape(s, p, start) == (
            Ok::<char, crate::error::ErrorView>(s[p]),
            p + 1,
        ),
        s[p] == 't' ==> lex_escape(s, p, start) == (Ok::<char, crate::error::ErrorView>('\t'), p + 1),
        s[p] == 'b' ==> lex_escape(s, p, start) == (Ok::<char, crate::error::ErrorView>('\u{0008}'), p + 1),
        s[p] == 'n' ==> lex_escape(s, p, start) == (Ok::<char, crate::error::ErrorView>('\n'), p + 1),
        s[p] == 'r' ==> lex_escape(s, p, start) == (Ok::<char, crate::error::ErrorView>('\r'), p + 1),
        s[p] == 'f' ==> lex_escape(s, p, start) == (Ok::<char, crate::error::ErrorView>('\u{000c}'), p + 1),
{
}

/// The value of the hexadecimal digit `c`, or nothing if it is not one.
pub open spec fn hex_digit(c: char) -> int {
    match digit_value(c, 16) {
        Some(d) => d as int,
        None => 0,
    }
}

/// A `\u` escape with four hexadecimal digits stands for the character with the code point
/// they spell, most significant first, when that is a Unicode scalar value, and is refused
/// otherwise; it reads the `u` and the four digits.
pub proof fn law_short_unicode_escape(s: Seq<char>, p: int, start: int)
    requires
        0 <= p,
        p + 4 < s.len(),
        s[p] == 'u',
        forall|j: int| p < j <= p + 4 ==> (#[trigger] digit_value(s[j], 16)) is Some,
    ensures
        ({
            let code = hex_digit(s[p + 1]) * 4096 + hex_digit(s[p + 2]) * 256 + hex_digit(s[p + 3]) * 16
                + hex_digit(s[p + 4]);
            &&& lex_escape(s, p, start).1 == p + 5
            &&& vstd::utf8::is_scalar(code as u32) ==> lex_escape(s, p, start).0 == Ok::<char, crate::error::ErrorView>(
                (code as u32) as char,
            )
            &&& !vstd::utf8::is_scalar(code as u32) ==> lex_escape(s, p, start).0 is Err
        }),
{
    reveal_with_fuel(lex_unicode, 6);
    assert(digit_value(s[p + 1], 16) is Some);
    assert(digit_value(s[p + 2], 16) is Some);
    assert(digit_value(s[p + 3], 16) is Some);
    assert(digit_value(s[p + 4], 16) is Some);
}

/// A `\U` escape with six hexadecimal digits stands for the character with the code point
/// they spell, most significant first, when that is a Unicode scalar value, and is refused
/// otherwise; it reads the `U` and the six digits.
pub proof fn law_long_unicode_escape(s: Seq<char>, p: int, start: int)
    requires
        0 <= p,
        p + 6 < s.len(),
        s[p] == 'U',
        forall|j: int| p < j <= p + 6 ==> (#[trigger] digit_value(s[j], 16)) is Some,
    ensures
        ({
            let code = hex_digit(s[p + 1]) * 1048576 + hex_digit(s[p + 2]) * 65536 + hex_digit(s[p + 3]) * 4096
                + hex_digit(s[p + 4]) * 256 + hex_digit(s[p + 5]) * 16 + hex_digit(s[p + 6]);
            &&& lex_escape(s, p, start).1 == p + 7
            &&& vstd::utf8::is_scalar(code as u32) ==> lex_escape(s, p, start).0 == Ok::<char, crate::error::ErrorView>(
                (code as u32) as char,
            )
            &&& !vstd::utf8::is_scalar(code as u32) ==> lex_escape(s, p, start).0 is Err
        }),
{
    reveal_with_fuel(lex_unicode, 8);
    assert(digit_value(s[p + 1], 16) is Some);
    assert(digit_value(s[p + 2], 16) is Some);
    assert(digit_value(s[p + 3], 16) is Some);
    assert(digit_value(s[p + 4], 16) is Some);
    assert(digit_value(s[p + 5], 16) is Some);
    assert(digit_value(s[p + 6], 16) is Some);
}

/// The digits in order of value: `0` to `9`, then `a` to `f`.
pub open spec fn digit_alphabet() -> Seq<char> {
    seq!['0', '1', '2', '3', '4', '5', '6', '7', '8', '9', 'a', 'b', 'c', 'd', 'e', 'f']
}

/// A digit's value is its place in the digit alphabet, ignoring the case of `a` to `f`,
/// and is below the radix.
pub proof fn law_digit_value_is_its_place(c: char, radix: u32)
    ensures
        digit_value(c, radix) matches Some(d) ==> d < radix && d < 16 && (digit_alphabet()[d as int] == c || (10
            <= d && (digit_alphabet()[d as int] as u32) == (c as u32) + 32)),
{
}

/// Numerals are positional: the value of the digits `a` followed by the digits `b` is the
/// value of `a` shifted left by the length of `b`, plus the value of `b`.
pub proof fn law_digits_are_positional(a: Seq<char>, b: Seq<char>, radix: u32)
    ensures
        digits_value(a + b, radix) == digits_value(a, radix) * pow(radix as int, b.len()) + digits_value(b, radix),
    decreases b.len(),
{
    if b.len() == 0 {
        assert(a + b =~= a);
        assert(pow(radix as int, 0) == 1) by {
            reveal(pow);
        }
    } else {
        let b1 = b.drop_last();
        law_digits_are_positional(a, b1, radix);
        assert((a + b).drop_last() =~= a + b1);
        assert((a + b).last() == b.last());
        let x = digits_value(a, radix) as int;
        let y = digits_value(b1, radix) as int;
        let r = radix as int;
        let pw = pow(r, b1.len());
        assert(pow(r, b.len()) == r * pw) by {
            reveal(pow);
        }
        assert((x * pw + y) * r == x * (r * pw) + y * r) by (nonlinear_arith);
    }
}

/// A single digit is worth its value.
pub proof fn law_single_digit_value(c: char, radix: u32)
    ensures
        digits_value(seq![c], radix) == match digit_value(c, radix) {
            Some(d) => d as nat,
            None => 0,
        },
{
    assert(seq![c].drop_last() =~= Seq::<char>::empty());
    assert(digits_value(Seq::<char>::empty(), radix) == 0);
    assert(seq![c].last() == c);
    assert(digits_value(seq![c], radix) == digits_value(seq![c].drop_last(), radix) * (radix as nat) + (match digit_value(
        c,
        radix,
    ) {
        Some(d) => d as nat,
        None => 0,
    }));
}

/// Quoted text without quotes or backslashes stands for itself: the body up to the closing
/// quote reads as its characters, after those already read.
pub proof fn law_plain_quoted_text(
    s: Seq<char>,
    p: int,
    e: int,
    start: int,
    quote: char,
    esc: bool,
    acc: Seq<char>,
)
    requires
        0 <= p <= e < s.len(),
        s[e] == quote,
        !is_at(s, e + 1, quote),
        forall|k: int| p <= k < e ==> s[k] != quote && s[k] != '\\',
    ensures
        lex_quoted_body(s, p, start, quote, esc, acc) == (Ok::<Seq<char>, crate::error::ErrorView>(acc + s.subrange(p, e)), e + 1),
    decreases e - p,
{
    if p == e {
        assert(acc + s.subrange(p, e) =~= acc);
    } else {
        law_plain_quoted_text(s, p + 1, e, start, quote, esc, acc.push(s[p]));
        assert(acc.push(s[p]) + s.subrange(p + 1, e) =~= acc + s.subrange(p, e));
    }
}

/// Inside quotes, a doubled quote stands for one quote; a backslash starts an escape that
/// stands for the character it names when escapes are read, and stands for itself when they
/// are not.
pub proof fn law_quoted_text_specials(s: Seq<char>, p: int, start: int, quote: char, esc: bool, acc: Seq<char>)
    requires
        0 <= p < s.len(),
    ensures
        s[p] == quote && is_at(s, p + 1, quote) ==> lex_quoted_body(s, p, start, quote, esc, acc) == lex_quoted_body(
            s,
            p + 2,
            start,
            quote,
            esc,
            acc.push(quote),
        ),
        s[p] == quote && !is_at(s, p + 1, quote) ==> lex_quoted_body(s, p, start, quote, esc, acc) == (
            Ok::<Seq<char>, crate::error::ErrorView>(acc),
            p + 1,
        ),
        s[p] != quote && s[p] == '\\' && esc && lex_escape(s, p + 1, start).0 is Ok && p < lex_escape(s, p + 1, start).1
            <= s.len() ==> lex_quoted_body(s, p, start, quote, esc, acc) == lex_quoted_body(
            s,
            lex_escape(s, p + 1, start).1,
            start,
            quote,
            esc,
            acc.push(lex_escape(s, p + 1, start).0->Ok_0),
        ),
        s[p] != quote && s[p] == '\\' && !esc ==> lex_quoted_body(s, p, start, quote, esc, acc) == lex_quoted_body(
            s,
            p + 1,
            start,
            quote,
            esc,
            acc.push('\\'),
        ),
{
}

/// A `SET` item's form is the symbol after its variable: `.` and a key assign a property of
/// that variable, `=` assigns all its properties, and `:` or `IS` add a label to it.
pub proof fn law_set_item_forms(v: InputView, p: int)
    ensures
        set_item_step(v, p).0 matches Ok(item) ==> {
            let variable = tok(v, p).text;
            let k = kind_at(v, next_pos(v, p));
            &&& item is Property <==> k == TokenKind::Dot
            &&& item is AllProperties <==> k == TokenKind::Eq
            &&& item is Label <==> (k == TokenKind::Colon || k == TokenKind::Is)
            &&& item matches SetItemView::Property { target, .. } ==> target == property_target(
                variable,
                tok(v, next_pos(v, next_pos(v, p))).text,
            )
            &&& item matches SetItemView::AllProperties { variable: x, .. } ==> x == variable
            &&& item matches SetItemView::Label { variable: x, label } ==> x == variable && label == tok(
                v,
                next_pos(v, next_pos(v, p)),
            ).text
        },
        remove_item_step(v, p).0 matches Ok(item) ==> {
            let variable = tok(v, p).text;
            let k = kind_at(v, next_pos(v, p));
            &&& item is Property <==> k == TokenKind::Dot
            &&& item matches RemoveItemView::Property(target) ==> target == property_target(
                variable,
                tok(v, next_pos(v, next_pos(v, p))).text,
            )
            &&& item matches RemoveItemView::Label { variable: x, label } ==> x == variable && (k == TokenKind::Colon
                || k == TokenKind::Is) && label == tok(v, next_pos(v, next_pos(v, p))).text
        },
{
}

/// A `DELETE` detaches exactly when it starts with `DETACH`.
pub proof fn law_delete_detaches_when_asked(v: InputView, p: int)
    ensures
        delete_statement_step(v, p).0 matches Ok((detach, _)) ==> (detach <==> kind_at(v, p) == TokenKind::Detach),
{
}

} // verus!
