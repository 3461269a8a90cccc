use vstd::prelude::*;
use crate::ast::{
    ApproximateNumericTypeKind, CharacterStringTypeKind, Direction, FieldTypeView,
    GraphTypeElementView, ValueTypeView, YieldItemView,
};
use crate::clause_grammar::{
    has_name, insert_label_set_step, label_conjunction, scope_variables_rest, variable_scope_step,
    yield_items_rest,
};
use crate::error::ErrorView;
use crate::lexer::{
    is_at, lemma_comment_close_bounds, lemma_eat_end_bounds, lex_byte_body, lex_byte_chunks,
    lex_comment_close, lex_digits, lex_eat_end, lex_escape, lex_exponent, lex_next, lex_number,
    lex_quoted_body, lex_skip, lex_string_chunks, lex_token, lex_unicode, CharClass,
};
use crate::parser::{eof_token, kind_at, lex_from, next_pos, valid_pos, InputView};
use crate::text::{
    byte_len, byte_offset, eq_ignore_ascii_case, lemma_byte_offset_mono,
    lemma_eq_ignore_ascii_case_equivalence,
};
use crate::token::{lookup_keyword, spec_keyword_or_identifier, TokenKind, TokenView};
use crate::type_grammar::{
    ampersand_labels_rest, any_type_step, approximate_numeric_type_step,
    at_edge_kind_before_synonym, at_edge_synonym, at_node_synonym, byte_string_type_step,
    character_string_type_step, colon_labels_rest, component_type_list_step, defines_node_type,
    edge_reference_value_type_step, edge_type_tail_step, element_kind_and_name, element_name_err,
    element_reference_value_type_step, endpoint_pair_step, endpoint_types_err,
    exact_numeric_type_step, field_type_spec_step, graph_type_elements_rest, group_list_at,
    has_field_named, integer_numeric_type_step, list_max_length_step, list_suffixes_step,
    list_type_name_at, list_type_name_step, nested_graph_type_body_step, not_null_step,
    prefixed_list_type_step, property_type_set_step, push_if_absent, reference_value_type_step,
    simple_value_type_step, type_label_list_step, typed_names_rest, union_nullability_matches,
    value_type_base_step, value_type_component_step, value_type_step, value_type_tail_step,
    wrap_list,
};

verus! {

/// Keyword lookup in a table gives the same kind for two words that differ only in the
/// case of ASCII letters.
pub proof fn lemma_lookup_keyword_ignores_case(a: Seq<char>, b: Seq<char>, table: Seq<TokenKind>)
    requires
        eq_ignore_ascii_case(a, b),
    ensures
        lookup_keyword(a, table) == lookup_keyword(b, table),
    decreases table.len(),
{
    if table.len() > 0 {
        let s = crate::token::keyword_spelling(table[0]);
        lemma_eq_ignore_ascii_case_equivalence(a, b, s);
        lemma_eq_ignore_ascii_case_equivalence(b, a, s);
        lemma_lookup_keyword_ignores_case(a, b, table.drop_first());
    }
}

/// Keywords are recognized regardless of the case of their letters: two words that differ
/// only in the case of ASCII letters are the same keyword, or are both identifiers.
pub proof fn law_keywords_ignore_case(a: Seq<char>, b: Seq<char>)
    requires
        eq_ignore_ascii_case(a, b),
    ensures
        spec_keyword_or_identifier(a) == spec_keyword_or_identifier(b),
{
    lemma_lookup_keyword_ignores_case(a, b, crate::token::keyword_kinds());
}

/// A word that keyword lookup reads as a keyword spells that keyword, ignoring case.
proof fn lemma_lookup_keyword_spelled(word: Seq<char>, t: Seq<TokenKind>)
    ensures
        lookup_keyword(word, t) == TokenKind::Identifier || eq_ignore_ascii_case(
            word,
            crate::token::keyword_spelling(lookup_keyword(word, t)),
        ),
    decreases t.len(),
{
    if t.len() > 0 {
        lemma_lookup_keyword_spelled(word, t.drop_first());
    }
}

/// No word of at least one character is read as the end-of-input token.
proof fn lemma_keyword_not_end(word: Seq<char>)
    requires
        word.len() > 0,
    ensures
        spec_keyword_or_identifier(word) != TokenKind::Eof,
{
    lemma_lookup_keyword_spelled(word, crate::token::keyword_kinds());
}

proof fn lemma_skip_from(s: Seq<char>, i: int)
    requires
        0 <= i,
    ensures
        lex_skip(s, i) matches Ok(j) ==> j >= i,
    decreases s.len() - i,
{
    let j = lex_eat_end(s, i, CharClass::Whitespace);
    if i <= s.len() {
        lemma_eat_end_bounds(s, i, CharClass::Whitespace);
    }
    if (is_at(s, j, '/') && is_at(s, j + 1, '/')) || (is_at(s, j, '-') && is_at(s, j + 1, '-')) {
        let k = lex_eat_end(s, j, CharClass::NotNewline);
        lemma_eat_end_bounds(s, j, CharClass::NotNewline);
        if i < k <= s.len() {
            lemma_skip_from(s, k);
        }
    } else if is_at(s, j, '/') && is_at(s, j + 1, '*') {
        lemma_comment_close_bounds(s, j + 2);
        match lex_comment_close(s, j + 2) {
            Some(m) => if i < m + 2 <= s.len() {
                lemma_skip_from(s, m + 2);
            },
            None => {},
        }
    }
}

proof fn lemma_number_not_end(s: Seq<char>, start: int)
    ensures
        lex_number(s, start).0 matches Ok(t) ==> t.kind != TokenKind::Eof && t.offset == byte_offset(
            s,
            start,
        ),
{
}

pub(crate) proof fn lemma_token_not_end(s: Seq<char>, start: int)
    requires
        0 <= start < s.len(),
    ensures
        lex_token(s, start).0 matches Ok(t) ==> t.kind != TokenKind::Eof && t.offset == byte_offset(
            s,
            start,
        ),
{
    lemma_number_not_end(s, start);
    let e = lex_eat_end(s, start, CharClass::IdentifierContinue);
    lemma_eat_end_bounds(s, start, CharClass::IdentifierContinue);
    if crate::chars::spec_is_identifier_start(s[start]) {
        lemma_keyword_not_end(s.subrange(start, e));
    }
}

/// Whether a token is read from the input `s`: it is not the end-of-input token, and it
/// starts before the end of the input.
pub open spec fn read_from_input(s: Seq<char>, t: TokenView) -> bool {
    t.kind != TokenKind::Eof && 0 <= t.offset < byte_len(s)
}

proof fn lemma_lex_from_no_end(s: Seq<char>, i: int)
    requires
        0 <= i,
    ensures
        forall|k: int| 0 <= k < lex_from(s, i).0.len() ==> read_from_input(s, #[trigger] lex_from(s, i).0[k]),
    decreases s.len() - i,
{
    reveal(lex_next);
    lemma_skip_from(s, i);
    if let Ok(j) = lex_skip(s, i) {
        if j < s.len() {
            lemma_token_not_end(s, j);
            lemma_byte_offset_mono(s, j, s.len() as int);
            assert(s.take(s.len() as int) =~= s);
        }
    }
    let (r, q) = lex_next(s, i);
    if let Some(Ok(t)) = r {
        if i < q <= s.len() {
            lemma_lex_from_no_end(s, q);
            let rest = lex_from(s, q);
            assert forall|k: int| 0 <= k < lex_from(s, i).0.len() implies read_from_input(
                s,
                #[trigger] lex_from(s, i).0[k],
            ) by {
                if k > 0 {
                    assert(lex_from(s, i).0[k] == rest.0[k - 1]);
                }
            }
        }
    }
}

/// The lexer never reads an end-of-input token, and every token that it reads starts
/// inside the input: each is punctuation, a literal, an identifier or a keyword.
pub proof fn law_lexer_yields_no_end_token(s: Seq<char>)
    ensures
        forall|k: int| 0 <= k < lex_from(s, 0).0.len() ==> read_from_input(s, #[trigger] lex_from(s, 0).0[k]),
{
    lemma_lex_from_no_end(s, 0);
}

/// A parser's tokens end with exactly one end-of-input token, which stands at the byte
/// length of the input; every token before it was read from the input.
pub proof fn law_parser_has_one_end_token(s: Seq<char>)
    ensures
        ({
            let tokens = lex_from(s, 0).0.push(eof_token(s));
            &&& tokens.last().kind == TokenKind::Eof
            &&& tokens.last().offset == byte_len(s)
            &&& forall|k: int| 0 <= k < tokens.len() - 1 ==> read_from_input(s, #[trigger] tokens[k])
        }),
{
    lemma_lex_from_no_end(s, 0);
    let tokens = lex_from(s, 0).0.push(eof_token(s));
    assert forall|k: int| 0 <= k < tokens.len() - 1 implies read_from_input(s, #[trigger] tokens[k]) by {
        assert(tokens[k] == lex_from(s, 0).0[k]);
    }
}

proof fn lemma_unicode_end(s: Seq<char>, q: int, esc_off: int, remaining: nat, value: nat)
    ensures
        lex_unicode(s, q, esc_off, remaining, value).0 is Ok ==> lex_unicode(s, q, esc_off, remaining, value).1 >= q,
    decreases remaining,
{
    if remaining > 0 && 0 <= q < s.len() {
        if let Some(d) = crate::chars::digit_value(s[q], 16) {
            lemma_unicode_end(s, q + 1, esc_off, (remaining - 1) as nat, value * 16 + d as nat);
        }
    }
}

proof fn lemma_escape_end(s: Seq<char>, p: int, start: int)
    ensures
        lex_escape(s, p, start).0 is Ok ==> lex_escape(s, p, start).1 > p,
{
    lemma_unicode_end(s, p + 1, crate::lexer::escape_offset(s, p), 4, 0);
    lemma_unicode_end(s, p + 1, crate::lexer::escape_offset(s, p), 6, 0);
}

proof fn lemma_quoted_body_end(s: Seq<char>, p: int, start: int, quote: char, esc: bool, acc: Seq<char>)
    ensures
        lex_quoted_body(s, p, start, quote, esc, acc).0 is Ok ==> lex_quoted_body(s, p, start, quote, esc, acc).1 > p,
    decreases s.len() - p,
{
    if 0 <= p < s.len() {
        if s[p] == quote {
            if is_at(s, p + 1, quote) {
                lemma_quoted_body_end(s, p + 2, start, quote, esc, acc.push(quote));
            }
        } else if s[p] == '\\' && esc {
            lemma_escape_end(s, p + 1, start);
            let (r, q) = lex_escape(s, p + 1, start);
            if let Ok(ch) = r {
                if p < q <= s.len() {
                    lemma_quoted_body_end(s, q, start, quote, esc, acc.push(ch));
                }
            }
        } else {
            lemma_quoted_body_end(s, p + 1, start, quote, esc, acc.push(s[p]));
        }
    }
}

proof fn lemma_string_chunks_end(s: Seq<char>, p: int, start: int, esc: bool, acc: Seq<char>)
    ensures
        lex_string_chunks(s, p, start, esc, acc).0 is Ok ==> lex_string_chunks(s, p, start, esc, acc).1 > p,
    decreases s.len() - p,
{
    if is_at(s, p, '\'') {
        lemma_quoted_body_end(s, p + 1, start, '\'', esc, acc);
        let (r, q) = lex_quoted_body(s, p + 1, start, '\'', esc, acc);
        if let Ok(acc2) = r {
            let e = lex_eat_end(s, q, CharClass::Whitespace);
            if 0 <= q <= s.len() {
                lemma_eat_end_bounds(s, q, CharClass::Whitespace);
            }
            if p < e + 1 <= s.len() {
                lemma_string_chunks_end(s, e + 1, start, false, acc2);
            }
            if p < e <= s.len() {
                lemma_string_chunks_end(s, e, start, true, acc2);
            }
        }
    }
}

proof fn lemma_byte_body_end(s: Seq<char>, q: int, start: int, acc: Seq<char>)
    ensures
        lex_byte_body(s, q, start, acc).0 is Ok ==> lex_byte_body(s, q, start, acc).1 > q,
    decreases s.len() - q,
{
    if 0 <= q < s.len() && s[q] != '\'' {
        if crate::chars::is_ascii_hexdigit(s[q]) {
            lemma_byte_body_end(s, q + 1, start, acc.push(s[q]));
        } else {
            lemma_byte_body_end(s, q + 1, start, acc);
        }
    }
}

proof fn lemma_byte_chunks_end(s: Seq<char>, p: int, start: int, acc: Seq<char>)
    ensures
        lex_byte_chunks(s, p, start, acc).0 is Ok ==> lex_byte_chunks(s, p, start, acc).1 > p,
    decreases s.len() - p,
{
    if is_at(s, p, '\'') {
        lemma_byte_body_end(s, p + 1, start, acc);
        let (r, q) = lex_byte_body(s, p + 1, start, acc);
        if let Ok(acc2) = r {
            let e = lex_eat_end(s, q, CharClass::Whitespace);
            if 0 <= q <= s.len() {
                lemma_eat_end_bounds(s, q, CharClass::Whitespace);
            }
            if p < e <= s.len() {
                lemma_byte_chunks_end(s, e, start, acc2);
            }
        }
    }
}

proof fn lemma_digits_end(
    s: Seq<char>,
    p: int,
    start: int,
    radix: u32,
    leading: bool,
    pending: bool,
    acc: Seq<char>,
)
    ensures
        lex_digits(s, p, start, radix, leading, pending, acc).0 is Ok ==> lex_digits(
            s,
            p,
            start,
            radix,
            leading,
            pending,
            acc,
        ).1 >= p,
        lex_digits(s, p, start, radix, leading, pending, acc).0 is Ok && 0 <= p < s.len()
            && crate::chars::is_digit(s[p], radix) && s[p] != '_' ==> lex_digits(
            s,
            p,
            start,
            radix,
            leading,
            pending,
            acc,
        ).1 > p,
    decreases s.len() - p,
{
    if is_at(s, p, '_') && (leading || acc.len() > 0) {
        if !pending {
            lemma_digits_end(s, p + 1, start, radix, leading, true, acc);
        }
    } else if 0 <= p < s.len() && crate::chars::is_digit(s[p], radix) {
        lemma_digits_end(s, p + 1, start, radix, leading, false, acc.push(s[p]));
    }
}

proof fn lemma_number_end(s: Seq<char>, start: int)
    requires
        0 <= start < s.len(),
        s[start] == '.' || crate::chars::is_ascii_digit(s[start]),
    ensures
        lex_number(s, start).0 is Ok ==> lex_number(s, start).1 > start,
{
    lemma_digits_end(s, start + 1, start, 10, false, false, Seq::empty());
    lemma_digits_end(s, start + 2, start, 16, true, false, Seq::empty());
    lemma_digits_end(s, start + 2, start, 8, true, false, Seq::empty());
    lemma_digits_end(s, start + 2, start, 2, true, false, Seq::empty());
    lemma_digits_end(s, start, start, 10, false, false, Seq::empty());
    let (r, p) = lex_digits(s, start, start, 10, false, false, Seq::empty());
    if let Ok(d) = r {
        lemma_digits_end(s, p + 1, start, 10, false, false, Seq::empty());
        let (r2, p2) = lex_digits(s, p + 1, start, 10, false, false, Seq::empty());
        lemma_exponent_end(s, p2, start, d.push('.') + r2->Ok_0, TokenKind::Decimal);
        lemma_exponent_end(s, p + 1, start, d.push('.'), TokenKind::Decimal);
        lemma_exponent_end(s, p, start, d, TokenKind::Integer);
    }
}

proof fn lemma_exponent_end(s: Seq<char>, p: int, start: int, text: Seq<char>, kind: TokenKind)
    ensures
        lex_exponent(s, p, start, text, kind).0 is Ok ==> lex_exponent(s, p, start, text, kind).1 >= p,
{
    lemma_digits_end(s, p + 1, start, 10, false, false, Seq::empty());
    lemma_digits_end(s, p + 2, start, 10, false, false, Seq::empty());
}

proof fn lemma_token_end(s: Seq<char>, start: int)
    requires
        0 <= start < s.len(),
    ensures
        lex_token(s, start).0 is Ok ==> lex_token(s, start).1 > start,
{
    let c = s[start];
    if c == '.' || crate::chars::is_ascii_digit(c) {
        lemma_number_end(s, start);
    }
    lemma_string_chunks_end(s, start, start, true, Seq::empty());
    lemma_string_chunks_end(s, start + 1, start, false, Seq::empty());
    lemma_quoted_body_end(s, start + 1, start, c, true, Seq::empty());
    if start + 1 < s.len() {
        lemma_quoted_body_end(s, start + 2, start, s[start + 1], false, Seq::empty());
    }
    if start + 2 < s.len() {
        lemma_quoted_body_end(s, start + 3, start, s[start + 2], false, Seq::empty());
        lemma_quoted_body_end(s, start + 2, start, s[start + 1], true, Seq::empty());
    }
    lemma_byte_chunks_end(s, start + 1, start, Seq::empty());
    lemma_eat_end_bounds(s, start, CharClass::IdentifierContinue);
    if start + 1 <= s.len() {
        lemma_eat_end_bounds(s, start + 1, CharClass::IdentifierContinue);
    }
}

/// Whether the tokens `ts` start at strictly increasing offsets, none before `from`.
pub open spec fn offsets_increasing_from(ts: Seq<TokenView>, from: int) -> bool {
    &&& forall|a: int| 0 <= a < ts.len() ==> from <= (#[trigger] ts[a]).offset
    &&& forall|a: int, b: int| 0 <= a < b < ts.len() ==> (#[trigger] ts[a]).offset < (#[trigger] ts[b]).offset
}

proof fn lemma_lex_from_in_order(s: Seq<char>, i: int)
    requires
        0 <= i <= s.len(),
    ensures
        offsets_increasing_from(lex_from(s, i).0, byte_offset(s, i) as int),
    decreases s.len() - i,
{
    reveal(lex_next);
    lemma_skip_from(s, i);
    let ts = lex_from(s, i).0;
    if let Ok(j) = lex_skip(s, i) {
        if j < s.len() {
            lemma_token_not_end(s, j);
            lemma_token_end(s, j);
            lemma_byte_offset_mono(s, i, j);
            let (r, q) = lex_token(s, j);
            if let Ok(t) = r {
                if i < q <= s.len() {
                    lemma_lex_from_in_order(s, q);
                    lemma_byte_offset_mono(s, j, q);
                    let rest = lex_from(s, q).0;
                    assert(ts == seq![t] + rest);
                    assert forall|a: int| 0 <= a < ts.len() implies byte_offset(s, i) <= (#[trigger] ts[a]).offset by {
                        if a > 0 {
                            assert(ts[a] == rest[a - 1]);
                        }
                    }
                    assert forall|a: int, b: int| 0 <= a < b < ts.len() implies (#[trigger] ts[a]).offset < (
                    #[trigger] ts[b]).offset by {
                        assert(ts[b] == rest[b - 1]);
                        if a > 0 {
                            assert(ts[a] == rest[a - 1]);
                        }
                    }
                }
            }
        }
    }
}

/// The lexer reads tokens in the order of the input: each token starts at a byte offset
/// strictly greater than the one before it.
pub proof fn law_tokens_in_input_order(s: Seq<char>)
    ensures
        forall|a: int, b: int|
            0 <= a < b < lex_from(s, 0).0.len() ==> (#[trigger] lex_from(s, 0).0[a]).offset < (
            #[trigger] lex_from(s, 0).0[b]).offset,
{
    lemma_lex_from_in_order(s, 0);
}

/// Reading a token never leaves the tokens, and it moves on unless the token ends the input.
pub proof fn law_next_pos_stays_in_tokens(v: InputView, p: int)
    requires
        valid_pos(v, p),
    ensures
        valid_pos(v, next_pos(v, p)),
        next_pos(v, p) == p <==> kind_at(v, p) == TokenKind::Eof,
{
    if kind_at(v, p) != TokenKind::Eof {
        assert(p + 1 < v.tokens.len());
    }
}

/// No two words of a list are equal when the case of ASCII letters is ignored.
pub open spec fn distinct_ignoring_case(ls: Seq<Seq<char>>) -> bool {
    forall|i: int, j: int| 0 <= i < j < ls.len() ==> !eq_ignore_ascii_case(#[trigger] ls[i], #[trigger] ls[j])
}

/// Adding a word unless an equal one is there keeps the words distinct.
pub proof fn lemma_push_if_absent_distinct(ls: Seq<Seq<char>>, x: Seq<char>)
    requires
        distinct_ignoring_case(ls),
    ensures
        distinct_ignoring_case(push_if_absent(ls, x)),
{
    let r = push_if_absent(ls, x);
    if r != ls {
        assert forall|i: int, j: int| 0 <= i < j < r.len() implies !eq_ignore_ascii_case(#[trigger] r[i], #[trigger] r[j]) by {
            if j == ls.len() {
                assert(r[j] == x);
                assert(r[i] == ls[i]);
            } else {
                assert(r[i] == ls[i] && r[j] == ls[j]);
            }
        }
    }
}

proof fn lemma_ampersand_labels_distinct(v: InputView, acc: Seq<Seq<char>>, p: int)
    requires
        distinct_ignoring_case(acc),
    ensures
        ampersand_labels_rest(v, acc, p).0 matches Ok(ls) ==> distinct_ignoring_case(ls),
    decreases v.tokens.len() - p,
{
    if kind_at(v, p) == TokenKind::Ampersand {
        match crate::grammar::identifier_step(v, next_pos(v, p)) {
            (Err(_), _) => {},
            (Ok(label), q) => {
                lemma_push_if_absent_distinct(acc, label);
                if p < q <= v.tokens.len() {
                    lemma_ampersand_labels_distinct(v, push_if_absent(acc, label), q);
                }
            },
        }
    }
}

proof fn lemma_colon_labels_distinct(v: InputView, acc: Seq<Seq<char>>, p: int)
    requires
        distinct_ignoring_case(acc),
    ensures
        colon_labels_rest(v, acc, p).0 matches Ok(ls) ==> distinct_ignoring_case(ls),
    decreases v.tokens.len() - p,
{
    if kind_at(v, p) == TokenKind::Colon || kind_at(v, p) == TokenKind::Is {
        match crate::grammar::identifier_step(v, next_pos(v, p)) {
            (Err(_), _) => {},
            (Ok(label), q) => {
                lemma_push_if_absent_distinct(acc, label);
                lemma_ampersand_labels_distinct(v, push_if_absent(acc, label), q);
                match ampersand_labels_rest(v, push_if_absent(acc, label), q) {
                    (Err(_), _) => {},
                    (Ok(labels), q2) => {
                        if p < q2 <= v.tokens.len() {
                            lemma_colon_labels_distinct(v, labels, q2);
                        }
                    },
                }
            },
        }
    }
}

/// A label declaration of a node or edge type never holds two labels that are equal when
/// the case of ASCII letters is ignored: a repeated label is dropped.
pub proof fn law_type_labels_distinct(v: InputView, p: int)
    ensures
        type_label_list_step(v, p).0 matches Ok(ls) ==> distinct_ignoring_case(ls),
{
    assert(distinct_ignoring_case(Seq::empty()));
    if kind_at(v, p) == TokenKind::Labels {
        match crate::grammar::identifier_step(v, next_pos(v, p)) {
            (Err(_), _) => {},
            (Ok(label), q) => {
                assert(distinct_ignoring_case(seq![label]));
                lemma_ampersand_labels_distinct(v, seq![label], q);
            },
        }
    } else if kind_at(v, p) != TokenKind::Label {
        lemma_colon_labels_distinct(v, Seq::empty(), p);
    }
}

/// No two named value types of a list have names that are equal when the case of ASCII
/// letters is ignored.
pub open spec fn names_distinct(fs: Seq<FieldTypeView>) -> bool {
    forall|i: int, j: int|
        0 <= i < j < fs.len() ==> !eq_ignore_ascii_case(#[trigger] fs[i].name, #[trigger] fs[j].name)
}

proof fn lemma_typed_names_distinct(v: InputView, acc: Seq<FieldTypeView>, p: int, what: Seq<char>)
    requires
        names_distinct(acc),
        0 <= p < v.tokens.len(),
    ensures
        typed_names_rest(v, acc, p, what).0 matches Ok(fs) ==> names_distinct(fs),
    decreases v.tokens.len() - p,
{
    match crate::grammar::identifier_step(v, p) {
        (Err(_), _) => {},
        (Ok(name), q) => if !has_field_named(acc, name) {
            match crate::grammar::typed_marker_step(v, q) {
                (Err(_), _) => {},
                (Ok(_), q2) => if p < q2 < v.tokens.len() {
                    match crate::type_grammar::value_type_step(v, q2) {
                        (Err(_), _) => {},
                        (Ok(t), q3) => {
                            let acc2 = acc.push(FieldTypeView { name, value_type: t });
                            assert forall|i: int, j: int| 0 <= i < j < acc2.len() implies !eq_ignore_ascii_case(
                                #[trigger] acc2[i].name,
                                #[trigger] acc2[j].name,
                            ) by {
                                if j == acc.len() {
                                    assert(acc2[i] == acc[i]);
                                    assert(!eq_ignore_ascii_case(acc[i].name, name));
                                } else {
                                    assert(acc2[i] == acc[i] && acc2[j] == acc[j]);
                                }
                            }
                            if kind_at(v, q3) == TokenKind::Comma && p < next_pos(v, q3) < v.tokens.len() {
                                lemma_typed_names_distinct(v, acc2, next_pos(v, q3), what);
                            }
                        },
                    }
                },
            }
        },
    }
}

/// The properties of a node or edge type have names that are distinct when the case of
/// ASCII letters is ignored: a repeated name is refused.
pub proof fn law_property_names_distinct(v: InputView, p: int)
    requires
        0 <= p < v.tokens.len(),
    ensures
        property_type_set_step(v, p).0 matches Ok(fs) ==> names_distinct(fs),
{
    assert(names_distinct(Seq::empty()));
    let p1 = next_pos(v, p);
    if kind_at(v, p) == TokenKind::LBrace && p1 < v.tokens.len() && kind_at(v, p1) != TokenKind::RBrace {
        lemma_typed_names_distinct(v, Seq::empty(), p1, "property"@);
    }
}

/// The fields of a record or binding table type have names that are distinct when the
/// case of ASCII letters is ignored: a repeated name is refused.
pub proof fn law_field_names_distinct(v: InputView, p: int)
    requires
        0 <= p < v.tokens.len(),
    ensures
        field_type_spec_step(v, p).0 matches Ok(fs) ==> names_distinct(fs),
{
    assert(names_distinct(Seq::empty()));
    match crate::parser::expect_step(v, p, TokenKind::LBrace) {
        (Err(_), _) => {},
        (Ok(_), q) => if p < q < v.tokens.len() && kind_at(v, q) != TokenKind::RBrace {
            lemma_typed_names_distinct(v, Seq::empty(), q, "field"@);
        },
    }
}

/// Every endpoint node type that an edge type of `elements` names is a node type of
/// `elements`.
pub open spec fn endpoints_defined(elements: Seq<GraphTypeElementView>) -> bool {
    forall|i: int|
        0 <= i < elements.len() ==> (#[trigger] elements[i] matches GraphTypeElementView::Edge(d) ==> (
        d.source matches Some(s) ==> defines_node_type(elements, s)) && (d.destination matches Some(t)
            ==> defines_node_type(elements, t)))
}

proof fn lemma_endpoint_types_ok(elements: Seq<GraphTypeElementView>, n: int, offset: int)
    requires
        0 <= n <= elements.len(),
        endpoint_types_err(elements, n, offset) is None,
    ensures
        forall|i: int|
            0 <= i < n ==> (#[trigger] elements[i] matches GraphTypeElementView::Edge(d) ==> (
            d.source matches Some(s) ==> defines_node_type(elements, s)) && (d.destination matches Some(
                t,
            ) ==> defines_node_type(elements, t))),
    decreases n,
{
    if n > 0 {
        lemma_endpoint_types_ok(elements, n - 1, offset);
    }
}

/// A graph type body defines every node type that its edge types name as endpoints: a body
/// with an undefined endpoint is refused.
pub proof fn law_graph_type_endpoints_defined(v: InputView, p: int)
    requires
        0 <= p < v.tokens.len(),
    ensures
        nested_graph_type_body_step(v, p).0 matches Ok(body) ==> endpoints_defined(body.elements),
{
    match crate::parser::expect_step(v, p, TokenKind::LBrace) {
        (Err(_), _) => {},
        (Ok(_), q) => {
            let (r, q2) = if kind_at(v, q) == TokenKind::RBrace {
                (Ok(Seq::<GraphTypeElementView>::empty()), q)
            } else if p < q < v.tokens.len() {
                graph_type_elements_rest(v, Seq::empty(), q)
            } else {
                (Ok(Seq::<GraphTypeElementView>::empty()), q)
            };
            if let Ok(elements) = r {
                let offset = crate::parser::tok(v, q2).offset;
                if endpoint_types_err(elements, elements.len() as int, offset) is None {
                    lemma_endpoint_types_ok(elements, elements.len() as int, offset);
                }
            }
        },
    }
}

/// No two named elements of a graph type body have the same kind and names that are equal
/// when the case of ASCII letters is ignored.
pub open spec fn element_names_distinct(es: Seq<GraphTypeElementView>) -> bool {
    forall|i: int, j: int|
        0 <= i < j < es.len() ==> !(#[trigger] element_kind_and_name(es[i]) matches Some((k1, n1))
            && #[trigger] element_kind_and_name(es[j]) matches Some((k2, n2)) && k1 == k2
            && eq_ignore_ascii_case(n1, n2))
}

proof fn lemma_graph_type_elements_distinct(v: InputView, acc: Seq<GraphTypeElementView>, p: int)
    requires
        element_names_distinct(acc),
        0 <= p < v.tokens.len(),
    ensures
        graph_type_elements_rest(v, acc, p).0 matches Ok(es) ==> element_names_distinct(es),
    decreases v.tokens.len() - p,
{
    let offset = crate::parser::tok(v, p).offset;
    match crate::type_grammar::graph_type_element_step(
        v,
        p,
        crate::type_grammar::GraphTypeElementContext::GraphTypeSpecificationBody,
    ) {
        (Err(_), _) => {},
        (Ok(e), q) => if element_name_err(acc, e, offset) is None {
            let acc2 = acc.push(e);
            assert forall|i: int, j: int| 0 <= i < j < acc2.len() implies !(
            #[trigger] element_kind_and_name(acc2[i]) matches Some((k1, n1))
                && #[trigger] element_kind_and_name(acc2[j]) matches Some((k2, n2)) && k1 == k2
                && eq_ignore_ascii_case(n1, n2)) by {
                if j == acc.len() {
                    assert(acc2[i] == acc[i]);
                    assert(acc2[j] == e);
                } else {
                    assert(acc2[i] == acc[i] && acc2[j] == acc[j]);
                }
            }
            if kind_at(v, q) == TokenKind::Comma && p < next_pos(v, q) < v.tokens.len() {
                lemma_graph_type_elements_distinct(v, acc2, next_pos(v, q));
            }
        },
    }
}

/// No two node types, nor two edge types, of a graph type body have names that are equal
/// when the case of ASCII letters is ignored: a repeated name is refused.
pub proof fn law_graph_type_element_names_distinct(v: InputView, p: int)
    requires
        0 <= p < v.tokens.len(),
    ensures
        nested_graph_type_body_step(v, p).0 matches Ok(body) ==> element_names_distinct(body.elements),
{
    assert(element_names_distinct(Seq::empty()));
    match crate::parser::expect_step(v, p, TokenKind::LBrace) {
        (Err(_), _) => {},
        (Ok(_), q) => if kind_at(v, q) != TokenKind::RBrace && p < q < v.tokens.len() {
            lemma_graph_type_elements_distinct(v, Seq::empty(), q);
        },
    }
}

/// A byte string type never has a min length above its max length: such a type is
/// refused.
pub proof fn law_byte_string_lengths_ordered(v: InputView, p: int, kind: crate::ast::ByteStringTypeKind)
    ensures
        byte_string_type_step(v, p, kind).0 matches Ok(t) ==> (t matches ValueTypeView::ByteString {
            min_length: Some(a),
            max_length: Some(b),
            ..
        } ==> a <= b),
{
}

/// An exact numeric type never has a scale above its precision: such a type is refused.
pub proof fn law_exact_numeric_scale_within_precision(v: InputView, p: int, kind: crate::ast::ExactNumericTypeKind)
    ensures
        exact_numeric_type_step(v, p, kind).0 matches Ok(t) ==> (t matches ValueTypeView::ExactNumeric {
            precision: Some(a),
            scale: Some(b),
            ..
        } ==> b <= a),
{
}

/// The max length of a list type is at least 1: a zero length is refused.
pub proof fn law_list_max_length_positive(v: InputView, p: int)
    ensures
        list_max_length_step(v, p).0 matches Ok(Some(n)) ==> n >= 1,
{
}

/// The max length of a character string type is at least 1: a zero length is refused.
pub proof fn law_character_string_max_length_positive(v: InputView, p: int, kind: CharacterStringTypeKind)
    ensures
        character_string_type_step(v, p, kind).0 matches Ok(t) ==> (t matches ValueTypeView::CharacterString {
            max_length: Some(n),
            ..
        } ==> n >= 1),
{
}

/// The precision of an integer type is at least 1: a zero precision is refused.
pub proof fn law_integer_precision_positive(v: InputView, p: int, signed: Option<bool>)
    ensures
        integer_numeric_type_step(v, p, signed).0 matches Ok(t) ==> (t matches ValueTypeView::ExactNumeric {
            precision: Some(n),
            ..
        } ==> n >= 1),
{
}

/// The precision of an approximate numeric type is at least 2: a smaller one is refused.
pub proof fn law_approximate_precision_at_least_two(
    v: InputView,
    p: int,
    kind: ApproximateNumericTypeKind,
    name: Seq<char>,
)
    ensures
        approximate_numeric_type_step(v, p, kind, name).0 matches Ok(t) ==> (
        t matches ValueTypeView::ApproximateNumeric { precision: Some(n), .. } ==> n >= 2),
{
}

/// Whether a step read a dynamic union whose components have mismatched nullability.
pub open spec fn bad_union(r: Result<ValueTypeView, ErrorView>) -> bool {
    r matches Ok(ValueTypeView::DynamicUnion(cs)) && !union_nullability_matches(cs)
}

proof fn lemma_any_type_union(v: InputView, p: int)
    requires
        0 <= p < v.tokens.len(),
    ensures
        !bad_union(any_type_step(v, p).0),
{
    let p1 = if kind_at(v, p) == TokenKind::Value {
        next_pos(v, p)
    } else {
        p
    };
    if kind_at(v, p1) == TokenKind::Lt && next_pos(v, p1) < v.tokens.len() {
        let q = next_pos(v, p1);
        assert(component_type_list_step(v, q).0 matches Ok(cs) ==> union_nullability_matches(cs));
    }
}

proof fn lemma_edge_reference_union(v: InputView, p: int)
    requires
        0 <= p < v.tokens.len(),
    ensures
        !bad_union(edge_reference_value_type_step(v, p).0),
{
}

proof fn lemma_element_reference_union(v: InputView, p: int)
    requires
        0 <= p < v.tokens.len(),
    ensures
        !bad_union(element_reference_value_type_step(v, p).0),
{
}

proof fn lemma_prefixed_list_union(v: InputView, p: int)
    requires
        0 <= p < v.tokens.len(),
    ensures
        !bad_union(prefixed_list_type_step(v, p).0),
{
}

proof fn lemma_simple_type_union(v: InputView, p: int)
    ensures
        !bad_union(simple_value_type_step(v, p).0),
{
}

proof fn lemma_tail_type_union(v: InputView, p: int)
    requires
        0 <= p < v.tokens.len(),
    ensures
        !bad_union(value_type_tail_step(v, p).0),
{
    lemma_prefixed_list_union(v, p);
    lemma_simple_type_union(v, p);
}

proof fn lemma_reference_type_union(v: InputView, p: int)
    requires
        0 <= p < v.tokens.len(),
    ensures
        !bad_union(reference_value_type_step(v, p).0),
{
    lemma_edge_reference_union(v, p);
    lemma_element_reference_union(v, p);
    lemma_tail_type_union(v, p);
}

proof fn lemma_base_type_union(v: InputView, p: int)
    requires
        0 <= p < v.tokens.len(),
    ensures
        !bad_union(value_type_base_step(v, p).0),
{
    if kind_at(v, p) == TokenKind::Any && next_pos(v, p) < v.tokens.len() {
        lemma_any_type_union(v, next_pos(v, p));
    }
    lemma_reference_type_union(v, p);
}

proof fn lemma_list_suffixes_union(v: InputView, t: ValueTypeView, p: int)
    requires
        !bad_union(Ok(t)),
    ensures
        !bad_union(list_suffixes_step(v, t, p).0),
    decreases v.tokens.len() - p,
{
    if !group_list_at(v, p) && 0 <= p < v.tokens.len() && list_type_name_at(v, p) is Some {
        let offset = crate::parser::tok(v, p).offset;
        let (r, q) = list_type_name_step(v, p);
        if let Ok((kind, group)) = r {
            let (m, q2) = list_max_length_step(v, q);
            if let Ok(max_length) = m {
                if let Ok(wrapped) = wrap_list(t, kind, group, max_length, offset) {
                    let (n, q3) = not_null_step(v, q2, wrapped);
                    if let Ok(t2) = n {
                        if p < q3 <= v.tokens.len() {
                            lemma_list_suffixes_union(v, t2, q3);
                        }
                    }
                }
            }
        }
    }
}

proof fn lemma_component_type_union(v: InputView, p: int)
    requires
        0 <= p < v.tokens.len(),
    ensures
        !bad_union(value_type_component_step(v, p).0),
{
    lemma_base_type_union(v, p);
    let (r, q) = value_type_base_step(v, p);
    if let Ok(t) = r {
        let (n, q2) = not_null_step(v, q, t);
        if let Ok(t2) = n {
            lemma_list_suffixes_union(v, t2, q2);
        }
    }
}

/// The components of a dynamic union value type all have the nullability of the first:
/// either all are known not to be null or none is. A union that mixes them is refused.
pub proof fn law_dynamic_union_nullability_matches(v: InputView, p: int)
    requires
        0 <= p < v.tokens.len(),
    ensures
        value_type_step(v, p).0 matches Ok(ValueTypeView::DynamicUnion(cs)) ==> union_nullability_matches(cs),
{
    lemma_component_type_union(v, p);
}

/// Adding a word that no word of a distinct list equals, ignoring case, keeps it distinct.
proof fn lemma_push_new_distinct(ws: Seq<Seq<char>>, x: Seq<char>)
    requires
        distinct_ignoring_case(ws),
        !has_name(ws, x),
    ensures
        distinct_ignoring_case(ws.push(x)),
{
    let r = ws.push(x);
    assert forall|i: int, j: int| 0 <= i < j < r.len() implies !eq_ignore_ascii_case(#[trigger] r[i], #[trigger] r[j]) by {
        assert(r[i] == ws[i]);
        if j == ws.len() {
            assert(r[j] == x);
            if eq_ignore_ascii_case(ws[i], x) {
                assert(has_name(ws, x));
            }
        } else {
            assert(r[j] == ws[j]);
        }
    }
}

proof fn lemma_scope_variables_distinct(v: InputView, acc: Seq<Seq<char>>, p: int)
    requires
        distinct_ignoring_case(acc),
    ensures
        scope_variables_rest(v, acc, p).0 matches Ok(vs) ==> distinct_ignoring_case(vs),
    decreases v.tokens.len() - p,
{
    match crate::grammar::identifier_step(v, p) {
        (Err(_), _) => {},
        (Ok(name), q) => if !has_name(acc, name) {
            lemma_push_new_distinct(acc, name);
            if kind_at(v, q) == TokenKind::Comma && p < next_pos(v, q) <= v.tokens.len() {
                lemma_scope_variables_distinct(v, acc.push(name), next_pos(v, q));
            }
        },
    }
}

/// The variables of a variable scope clause are distinct when the case of ASCII letters is
/// ignored: a repeated variable is refused.
pub proof fn law_variable_scope_distinct(v: InputView, p: int)
    ensures
        variable_scope_step(v, p).0 matches Ok(vs) ==> distinct_ignoring_case(vs),
{
    assert(distinct_ignoring_case(Seq::<Seq<char>>::empty()));
    let q = crate::parser::expect_step(v, p, TokenKind::LParen).1;
    lemma_scope_variables_distinct(v, Seq::empty(), q);
}

/// The output name of a yield item: its alias, or else its name.
pub open spec fn yield_output(item: YieldItemView) -> Seq<char> {
    match item {
        YieldItemView::Item { name, alias } => match alias {
            Some(a) => a,
            None => name,
        },
        YieldItemView::All => Seq::empty(),
    }
}

proof fn lemma_yield_outputs_distinct(
    v: InputView,
    items: Seq<YieldItemView>,
    outputs: Seq<Seq<char>>,
    p: int,
    allow_aliases: bool,
)
    requires
        distinct_ignoring_case(outputs),
        outputs == items.map_values(|i: YieldItemView| yield_output(i)),
    ensures
        yield_items_rest(v, items, outputs, p, allow_aliases).0 matches Ok(is) ==> distinct_ignoring_case(
            is.map_values(|i: YieldItemView| yield_output(i)),
        ),
    decreases v.tokens.len() - p,
{
    match crate::grammar::identifier_step(v, p) {
        (Err(_), _) => {},
        (Ok(name), q) => {
            let (r, q2) = if allow_aliases && kind_at(v, q) == TokenKind::As {
                let q1 = next_pos(v, q);
                let alias_offset = crate::parser::tok(v, q1).offset;
                match crate::grammar::identifier_step(v, q1) {
                    (Err(e), q2) => (Err(e), q2),
                    (Ok(alias), q2) => if has_name(outputs, alias) {
                        (Err(ErrorView::UnexpectedEof), q2)
                    } else {
                        (Ok((YieldItemView::Item { name, alias: Some(alias) }, alias)), q2)
                    },
                }
            } else if has_name(outputs, name) {
                (Err(ErrorView::UnexpectedEof), q)
            } else {
                (Ok((YieldItemView::Item { name, alias: None }, name)), q)
            };
            if let Ok((item, output)) = r {
                lemma_push_new_distinct(outputs, output);
                assert(yield_output(item) == output);
                assert(items.push(item).map_values(|i: YieldItemView| yield_output(i)) =~= outputs.push(output));
                if kind_at(v, q2) == TokenKind::Comma && p < next_pos(v, q2) <= v.tokens.len() {
                    lemma_yield_outputs_distinct(v, items.push(item), outputs.push(output), next_pos(v, q2), allow_aliases);
                }
            }
        },
    }
}

/// The outputs of a yield clause, each its alias or else its name, are distinct when the
/// case of ASCII letters is ignored: a repeated output is refused.
pub proof fn law_yield_outputs_distinct(v: InputView, p: int, allow_aliases: bool)
    ensures
        yield_items_rest(v, Seq::empty(), Seq::empty(), p, allow_aliases).0 matches Ok(is)
            ==> distinct_ignoring_case(is.map_values(|i: YieldItemView| yield_output(i))),
{
    assert(distinct_ignoring_case(Seq::<Seq<char>>::empty()));
    assert(Seq::<YieldItemView>::empty().map_values(|i: YieldItemView| yield_output(i)) =~= Seq::<Seq<char>>::empty());
    lemma_yield_outputs_distinct(v, Seq::empty(), Seq::empty(), p, allow_aliases);
}

/// The labels of an inserted element are distinct when the case of ASCII letters is
/// ignored, and the label expression is their conjunction: a repeated label is dropped.
pub proof fn law_insert_labels_distinct(v: InputView, p: int)
    ensures
        insert_label_set_step(v, p).0 matches Ok((ls, e)) ==> distinct_ignoring_case(ls) && e == Some(
            label_conjunction(ls),
        ),
{
    match crate::grammar::identifier_step(v, p) {
        (Err(_), _) => {},
        (Ok(first), q) => {
            assert(distinct_ignoring_case(Seq::<Seq<char>>::empty()));
            lemma_push_if_absent_distinct(Seq::empty(), first);
            lemma_ampersand_labels_distinct(v, push_if_absent(Seq::empty(), first), q);
        },
    }
}

proof fn lemma_endpoint_pair_direction(v: InputView, p: int, d: Direction)
    requires
        0 <= p < v.tokens.len(),
        d == Direction::Right || d == Direction::Undirected,
    ensures
        endpoint_pair_step(v, p, d, Some(d)).0 matches Ok((dir, _, _)) ==> dir == d,
{
}

/// An edge type declared `DIRECTED` is directed, and one declared `UNDIRECTED` is
/// undirected: an endpoint pair of the other shape is refused.
pub proof fn law_edge_kind_decides_direction(v: InputView, p: int, d: Direction)
    requires
        0 <= p < v.tokens.len(),
        d == Direction::Right || d == Direction::Undirected,
    ensures
        edge_type_tail_step(v, p, d, Some(d)).0 matches Ok((dir, _, _, _)) ==> dir == d,
{
    let q = property_type_set_step(v, p).1;
    if kind_at(v, q) == TokenKind::Connecting && p <= next_pos(v, q) < v.tokens.len() {
        lemma_endpoint_pair_direction(v, next_pos(v, q), d);
    }
}

} // verus!
