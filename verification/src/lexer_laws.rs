use vstd::prelude::*;
use crate::chars::{digit_value, is_ascii_digit, is_ascii_hexdigit, is_digit, spec_is_identifier_continue, spec_is_identifier_start};
use crate::error::ErrorView;
use crate::lexer::{
    after, escape_offset, is_at, lemma_comment_close_bounds, lemma_eat_end_bounds, lex_byte_body,
    lex_byte_chunks, lex_byte_string, lex_comment_close, lex_decimal_number, lex_digits, lex_eat_end,
    lex_escape, lex_exponent, lex_next, lex_number, lex_number_end, lex_numeric_suffix, lex_parameter,
    lex_punctuation, lex_quoted_body, lex_quoted_sequence, lex_radix_integer, lex_skip,
    lex_string_chunks, lex_token, lex_unicode, starts_fraction, CharClass,
};
use crate::text::{byte_len, byte_offset, lemma_byte_offset_mono};
use crate::token::TokenView;

verus! {

proof fn lemma_unicode_span(s: Seq<char>, q: int, esc_off: int, remaining: nat, value: nat)
    requires
        0 <= q <= s.len(),
    ensures
        q <= lex_unicode(s, q, esc_off, remaining, value).1 <= s.len(),
    decreases remaining,
{
    if remaining > 0 && 0 <= q < s.len() {
        if let Some(d) = digit_value(s[q], 16) {
            lemma_unicode_span(s, q + 1, esc_off, (remaining - 1) as nat, value * 16 + d as nat);
        }
    }
}

proof fn lemma_escape_span(s: Seq<char>, p: int, start: int)
    requires
        0 <= p <= s.len(),
    ensures
        p <= lex_escape(s, p, start).1 <= s.len(),
{
    if p < s.len() {
        lemma_unicode_span(s, p + 1, escape_offset(s, p), 4, 0);
        lemma_unicode_span(s, p + 1, escape_offset(s, p), 6, 0);
    }
}

proof fn lemma_quoted_body_span(s: Seq<char>, p: int, start: int, quote: char, esc: bool, acc: Seq<char>)
    requires
        0 <= p <= s.len(),
    ensures
        p <= lex_quoted_body(s, p, start, quote, esc, acc).1 <= s.len(),
    decreases s.len() - p,
{
    if 0 <= p < s.len() {
        if s[p] == quote {
            if is_at(s, p + 1, quote) {
                lemma_quoted_body_span(s, p + 2, start, quote, esc, acc.push(quote));
            }
        } else if s[p] == '\\' && esc {
            lemma_escape_span(s, p + 1, start);
            let (r, q) = lex_escape(s, p + 1, start);
            if let Ok(ch) = r {
                if p < q <= s.len() {
                    lemma_quoted_body_span(s, q, start, quote, esc, acc.push(ch));
                }
            }
        } else {
            lemma_quoted_body_span(s, p + 1, start, quote, esc, acc.push(s[p]));
        }
    }
}

proof fn lemma_quoted_sequence_span(s: Seq<char>, p: int, start: int, quote: char, esc: bool)
    requires
        0 <= p <= s.len(),
    ensures
        p <= lex_quoted_sequence(s, p, start, quote, esc).1 <= s.len(),
        is_at(s, p, quote) ==> p < lex_quoted_sequence(s, p, start, quote, esc).1,
{
    if is_at(s, p, quote) {
        lemma_quoted_body_span(s, p + 1, start, quote, esc, Seq::empty());
    }
}

proof fn lemma_string_chunks_span(s: Seq<char>, p: int, start: int, esc: bool, acc: Seq<char>)
    requires
        0 <= p <= s.len(),
    ensures
        p <= lex_string_chunks(s, p, start, esc, acc).1 <= s.len(),
        is_at(s, p, '\'') ==> p < lex_string_chunks(s, p, start, esc, acc).1,
    decreases s.len() - p,
{
    if is_at(s, p, '\'') {
        lemma_quoted_body_span(s, p + 1, start, '\'', esc, acc);
        let (r, q) = lex_quoted_body(s, p + 1, start, '\'', esc, acc);
        if let Ok(acc2) = r {
            lemma_eat_end_bounds(s, q, CharClass::Whitespace);
            let e = lex_eat_end(s, q, CharClass::Whitespace);
            if p < e + 1 <= s.len() {
                lemma_string_chunks_span(s, e + 1, start, false, acc2);
            }
            if p < e <= s.len() {
                lemma_string_chunks_span(s, e, start, true, acc2);
            }
        }
    }
}

proof fn lemma_byte_body_span(s: Seq<char>, q: int, start: int, acc: Seq<char>)
    requires
        0 <= q <= s.len(),
    ensures
        q <= lex_byte_body(s, q, start, acc).1 <= s.len(),
    decreases s.len() - q,
{
    if 0 <= q < s.len() && s[q] != '\'' {
        if is_ascii_hexdigit(s[q]) {
            lemma_byte_body_span(s, q + 1, start, acc.push(s[q]));
        } else {
            lemma_byte_body_span(s, q + 1, start, acc);
        }
    }
}

proof fn lemma_byte_chunks_span(s: Seq<char>, p: int, start: int, acc: Seq<char>)
    requires
        0 <= p <= s.len(),
    ensures
        p <= lex_byte_chunks(s, p, start, acc).1 <= s.len(),
    decreases s.len() - p,
{
    if is_at(s, p, '\'') {
        lemma_byte_body_span(s, p + 1, start, acc);
        let (r, q) = lex_byte_body(s, p + 1, start, acc);
        if let Ok(acc2) = r {
            lemma_eat_end_bounds(s, q, CharClass::Whitespace);
            let e = lex_eat_end(s, q, CharClass::Whitespace);
            if p < e <= s.len() {
                lemma_byte_chunks_span(s, e, start, acc2);
            }
        }
    }
}

proof fn lemma_digits_span(
    s: Seq<char>,
    p: int,
    start: int,
    radix: u32,
    leading: bool,
    pending: bool,
    acc: Seq<char>,
)
    requires
        0 <= p <= s.len(),
    ensures
        p <= lex_digits(s, p, start, radix, leading, pending, acc).1 <= s.len(),
        0 <= p < s.len() && is_digit(s[p], radix) && s[p] != '_' ==> p < lex_digits(
            s,
            p,
            start,
            radix,
            leading,
            pending,
            acc,
        ).1,
    decreases s.len() - p,
{
    if is_at(s, p, '_') && (leading || acc.len() > 0) {
        if !pending {
            lemma_digits_span(s, p + 1, start, radix, leading, true, acc);
        }
    } else if 0 <= p < s.len() && is_digit(s[p], radix) {
        lemma_digits_span(s, p + 1, start, radix, leading, false, acc.push(s[p]));
    }
}

proof fn lemma_number_end_span(s: Seq<char>, p: int, start: int, text: Seq<char>, kind: crate::token::TokenKind)
    requires
        0 <= p <= s.len(),
    ensures
        p <= lex_number_end(s, p, start, text, kind).1 <= s.len(),
{
}

proof fn lemma_exponent_span(s: Seq<char>, p: int, start: int, text: Seq<char>, kind: crate::token::TokenKind)
    requires
        0 <= p <= s.len(),
    ensures
        p <= lex_exponent(s, p, start, text, kind).1 <= s.len(),
{
    lemma_number_end_span(s, p, start, text, kind);
    if is_at(s, p, 'e') || is_at(s, p, 'E') {
        let p1 = if is_at(s, p + 1, '+') || is_at(s, p + 1, '-') {
            p + 2
        } else {
            p + 1
        };
        lemma_digits_span(s, p1, start, 10, false, false, Seq::empty());
        let (r, q) = lex_digits(s, p1, start, 10, false, false, Seq::empty());
        if let Ok(d) = r {
            let text1 = if is_at(s, p + 1, '+') || is_at(s, p + 1, '-') {
                text.push('e').push(s[p + 1])
            } else {
                text.push('e')
            };
            lemma_number_end_span(s, q, start, text1 + d, crate::token::TokenKind::Decimal);
        }
    }
}

proof fn lemma_number_span(s: Seq<char>, start: int)
    requires
        0 <= start < s.len(),
        s[start] == '.' || is_ascii_digit(s[start]),
    ensures
        start < lex_number(s, start).1 <= s.len(),
{
    if is_at(s, start, '.') {
        lemma_digits_span(s, start + 1, start, 10, false, false, Seq::empty());
    } else if is_at(s, start, '0') && (is_at(s, start + 1, 'x') || is_at(s, start + 1, 'X') || is_at(
        s,
        start + 1,
        'o',
    ) || is_at(s, start + 1, 'O') || is_at(s, start + 1, 'b') || is_at(s, start + 1, 'B')) {
        lemma_digits_span(s, start + 2, start, 16, true, false, Seq::empty());
        lemma_digits_span(s, start + 2, start, 8, true, false, Seq::empty());
        lemma_digits_span(s, start + 2, start, 2, true, false, Seq::empty());
    } else {
        lemma_digits_span(s, start, start, 10, false, false, Seq::empty());
        let (r, p) = lex_digits(s, start, start, 10, false, false, Seq::empty());
        if let Ok(d) = r {
            if starts_fraction(s, p) {
                if 0 <= p + 1 < s.len() && is_ascii_digit(s[p + 1]) {
                    lemma_digits_span(s, p + 1, start, 10, false, false, Seq::empty());
                    let (r2, p2) = lex_digits(s, p + 1, start, 10, false, false, Seq::empty());
                    if let Ok(d2) = r2 {
                        lemma_exponent_span(s, p2, start, d.push('.') + d2, crate::token::TokenKind::Decimal);
                    }
                } else {
                    lemma_exponent_span(s, p + 1, start, d.push('.'), crate::token::TokenKind::Decimal);
                }
            } else {
                lemma_exponent_span(s, p, start, d, crate::token::TokenKind::Integer);
            }
        }
    }
}

proof fn lemma_parameter_span(s: Seq<char>, start: int)
    requires
        0 <= start < s.len(),
    ensures
        start < lex_parameter(s, start).1 <= s.len(),
{
    let p = start + 1;
    if is_at(s, p, '@') && (is_at(s, p + 1, '"') || is_at(s, p + 1, '`')) {
        lemma_quoted_sequence_span(s, p + 1, start, s[p + 1], false);
    } else if is_at(s, p, '"') || is_at(s, p, '`') {
        lemma_quoted_sequence_span(s, p, start, s[p], true);
    } else if 0 <= p < s.len() && spec_is_identifier_continue(s[p]) {
        lemma_eat_end_bounds(s, p, CharClass::IdentifierContinue);
    }
}

proof fn lemma_token_span(s: Seq<char>, start: int)
    requires
        0 <= start < s.len(),
    ensures
        start < lex_token(s, start).1 <= s.len(),
{
    let c = s[start];
    if lex_punctuation(s, start) is None {
        if c == '.' || is_ascii_digit(c) {
            lemma_number_span(s, start);
        }
        lemma_string_chunks_span(s, start, start, true, Seq::empty());
        lemma_quoted_sequence_span(s, start, start, c, true);
        if start + 1 < s.len() {
            lemma_string_chunks_span(s, start + 1, start, false, Seq::empty());
            lemma_quoted_sequence_span(s, start + 1, start, s[start + 1], false);
            lemma_byte_chunks_span(s, start + 1, start, Seq::empty());
        }
        lemma_parameter_span(s, start);
        lemma_eat_end_bounds(s, start, CharClass::IdentifierContinue);
        if (c == 'X' || c == 'x') && is_at(s, start + 1, '\'') {
            lemma_byte_chunks_span(s, start + 1, start, Seq::empty());
            assert(start < lex_byte_string(s, start).1 <= s.len());
        }
    }
}

proof fn lemma_skip_span(s: Seq<char>, i: int)
    requires
        0 <= i <= s.len(),
    ensures
        lex_skip(s, i) matches Ok(j) ==> i <= j <= s.len(),
        lex_skip(s, i) is Err ==> i < s.len(),
    decreases s.len() - i,
{
    lemma_eat_end_bounds(s, i, CharClass::Whitespace);
    let j = lex_eat_end(s, i, CharClass::Whitespace);
    if (is_at(s, j, '/') && is_at(s, j + 1, '/')) || (is_at(s, j, '-') && is_at(s, j + 1, '-')) {
        lemma_eat_end_bounds(s, j, CharClass::NotNewline);
        let k = lex_eat_end(s, j, CharClass::NotNewline);
        if i < k <= s.len() {
            lemma_skip_span(s, k);
        }
    } else if is_at(s, j, '/') && is_at(s, j + 1, '*') {
        lemma_comment_close_bounds(s, j + 2);
        match lex_comment_close(s, j + 2) {
            Some(m) => if i < m + 2 <= s.len() {
                lemma_skip_span(s, m + 2);
            },
            None => {},
        }
    }
}

/// Every step of the lexer that yields an item, a token or an error, reads at least one
/// character and stays in the input; a step that yields nothing stands at the end of the
/// input, and the next step there yields nothing again.
pub proof fn law_lexer_progress(s: Seq<char>, i: int)
    requires
        0 <= i <= s.len(),
    ensures
        lex_next(s, i).0 is Some ==> i < lex_next(s, i).1 <= s.len(),
        lex_next(s, i).0 is None ==> lex_next(s, i).1 == s.len() && lex_next(s, s.len() as int) == (
            None::<Result<TokenView, ErrorView>>,
            s.len() as int,
        ),
{
    reveal(lex_next);
    lemma_skip_span(s, i);
    if let Ok(j) = lex_skip(s, i) {
        if j < s.len() {
            lemma_token_span(s, j);
        }
    }
    lemma_skip_span(s, s.len() as int);
    lemma_eat_end_bounds(s, s.len() as int, CharClass::Whitespace);
}

/// Everything the lexer yields from position `i` on, reading on after errors, up to the
/// first step that yields nothing.
pub open spec fn lex_items(s: Seq<char>, i: int) -> Seq<Result<TokenView, ErrorView>>
    decreases s.len() - i,
{
    match lex_next(s, i) {
        (None, _) => Seq::empty(),
        (Some(r), q) => if i < q <= s.len() {
            seq![r] + lex_items(s, q)
        } else {
            seq![r]
        },
    }
}

/// Whether the tokens among `items` start at strictly increasing offsets, none before
/// `from` and each before `end`.
pub open spec fn token_offsets_increase(items: Seq<Result<TokenView, ErrorView>>, from: int, end: int) -> bool {
    &&& forall|a: int|
        0 <= a < items.len() ==> (#[trigger] items[a] matches Ok(t) ==> from <= t.offset < end)
    &&& forall|a: int, b: int|
        0 <= a < b < items.len() ==> (#[trigger] items[a] matches Ok(t) ==> (#[trigger] items[b] matches Ok(
            u,
        ) ==> t.offset < u.offset))
}

proof fn lemma_items(s: Seq<char>, i: int)
    requires
        0 <= i <= s.len(),
    ensures
        lex_items(s, i).len() <= s.len() - i,
        token_offsets_increase(lex_items(s, i), byte_offset(s, i) as int, byte_len(s) as int),
    decreases s.len() - i,
{
    reveal(lex_next);
    law_lexer_progress(s, i);
    lemma_skip_span(s, i);
    let items = lex_items(s, i);
    assert(s.take(s.len() as int) =~= s);
    match lex_next(s, i) {
        (None, _) => {},
        (Some(r), q) => {
            lemma_items(s, q);
            let rest = lex_items(s, q);
            assert(items == seq![r] + rest);
            lemma_byte_offset_mono(s, i, q);
            lemma_byte_offset_mono(s, q, s.len() as int);
            if let Ok(t) = r {
                let j = lex_skip(s, i)->Ok_0;
                crate::laws::lemma_token_not_end(s, j);
                lemma_token_span(s, j);
                lemma_byte_offset_mono(s, i, j);
                lemma_byte_offset_mono(s, j, q);
                assert(t.offset == byte_offset(s, j));
            }
            assert forall|a: int| 0 <= a < items.len() implies (#[trigger] items[a] matches Ok(t) ==> byte_offset(
                s,
                i,
            ) <= t.offset < byte_len(s)) by {
                if a > 0 {
                    assert(items[a] == rest[a - 1]);
                }
            }
            assert forall|a: int, b: int| 0 <= a < b < items.len() implies (#[trigger] items[a] matches Ok(t)
                ==> (#[trigger] items[b] matches Ok(u) ==> t.offset < u.offset)) by {
                assert(items[b] == rest[b - 1]);
                if a > 0 {
                    assert(items[a] == rest[a - 1]);
                }
            }
        },
    }
}

/// A lexer over `s`, read to its end and on past its errors, yields at most one item per
/// character of `s`; the tokens among them start at strictly increasing byte offsets, each
/// inside the input.
pub proof fn law_lexer_items(s: Seq<char>)
    ensures
        lex_items(s, 0).len() <= s.len(),
        token_offsets_increase(lex_items(s, 0), 0, byte_len(s) as int),
{
    lemma_items(s, 0);
}

/// A digit may continue an identifier but not start one.
pub proof fn law_digits_continue_identifiers(c: char)
    requires
        is_ascii_digit(c),
    ensures
        spec_is_identifier_continue(c),
        !spec_is_identifier_start(c),
{
}

/// Whatever may start an identifier may continue it.
pub proof fn law_identifier_start_continues(c: char)
    ensures
        spec_is_identifier_start(c) ==> spec_is_identifier_continue(c),
{
}

} // verus!
