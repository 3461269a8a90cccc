use vstd::prelude::*;
use crate::chars::{
    char_digit_value, char_from_u32, char_is_alphanumeric, char_is_whitespace, digit_value,
    is_ascii_digit, is_ascii_hexdigit, is_digit, is_whitespace, spec_is_identifier_continue,
    spec_is_identifier_start,
};
pub use crate::chars::{is_identifier_continue, is_identifier_start};
use crate::error::{Error, ErrorView};
use crate::text::{
    byte_len, byte_offset, char_utf8_len, chars_of, decimal_chars, decimal_text,
    lemma_byte_offset_mono, lemma_byte_offset_step, push_range, push_str, str_byte_len,
    string_from_chars, string_of_range, utf8_len,
};
use crate::token::{keyword_or_identifier, spec_keyword_or_identifier, Token, TokenKind, TokenView};

verus! {

// ---------------------------------------------------------------------------------------
// The lexical grammar, over the characters `s` of the input and character positions in it.
// ---------------------------------------------------------------------------------------

/// The character at position `i`, if there is one.
pub open spec fn char_at(s: Seq<char>, i: int) -> Option<char> {
    if 0 <= i < s.len() {
        Some(s[i])
    } else {
        None
    }
}

/// Whether the character at position `i` is `c`.
pub open spec fn is_at(s: Seq<char>, i: int, c: char) -> bool {
    0 <= i < s.len() && s[i] == c
}

/// The classes of characters over which the lexer skips.
#[derive(Clone, Copy, PartialEq, Eq, Structural)]
pub enum CharClass {
    Whitespace,
    NotNewline,
    IdentifierContinue,
}

pub open spec fn in_class(class: CharClass, c: char) -> bool {
    match class {
        CharClass::Whitespace => is_whitespace(c),
        CharClass::NotNewline => c != '\n',
        CharClass::IdentifierContinue => spec_is_identifier_continue(c),
    }
}

/// The first position at or after `i` whose character is not in `class` (or the end).
pub open spec fn lex_eat_end(s: Seq<char>, i: int, class: CharClass) -> int
    decreases s.len() - i,
{
    if 0 <= i < s.len() && in_class(class, s[i]) {
        lex_eat_end(s, i + 1, class)
    } else {
        i
    }
}

/// The position of the first `*/` at or after `m`, if any.
pub open spec fn lex_comment_close(s: Seq<char>, m: int) -> Option<int>
    decreases s.len() - m,
{
    if !(0 <= m < s.len()) {
        None
    } else if is_at(s, m, '*') && is_at(s, m + 1, '/') {
        Some(m)
    } else {
        lex_comment_close(s, m + 1)
    }
}

/// Skips whitespace, line comments (`//`, `--`) and block comments from position `i`:
/// the position of the next token, or the error for a block comment that is not closed.
pub open spec fn lex_skip(s: Seq<char>, i: int) -> Result<int, ErrorView>
    decreases s.len() - i,
{
    let j = lex_eat_end(s, i, CharClass::Whitespace);
    if (is_at(s, j, '/') && is_at(s, j + 1, '/')) || (is_at(s, j, '-') && is_at(s, j + 1, '-')) {
        let k = lex_eat_end(s, j, CharClass::NotNewline);
        if i < k <= s.len() {
            lex_skip(s, k)
        } else {
            Ok(k)
        }
    } else if is_at(s, j, '/') && is_at(s, j + 1, '*') {
        match lex_comment_close(s, j + 2) {
            Some(m) => if i < m + 2 <= s.len() {
                lex_skip(s, m + 2)
            } else {
                Ok(m + 2)
            },
            None => Err(
                ErrorView::UnterminatedBlockComment {
                    offset: byte_offset(s, j) as int,
                    token_text: s.skip(j),
                },
            ),
        }
    } else {
        Ok(j)
    }
}

/// The error for a string or quoted word that starts at `start` and is not closed.
pub open spec fn unterminated(s: Seq<char>, start: int) -> ErrorView {
    ErrorView::UnterminatedString { offset: byte_offset(s, start) as int, token_text: s.skip(start) }
}

/// The error for an unexpected character at `p` in a token that starts at `start`: the
/// text from the start through that character.
pub open spec fn unrecognized_through(s: Seq<char>, start: int, p: int) -> ErrorView {
    ErrorView::UnrecognizedToken {
        offset: byte_offset(s, start) as int,
        token_text: s.subrange(start, after(s, p)),
    }
}

/// The position after the character at `p`, or `p` at the end of the input.
pub open spec fn after(s: Seq<char>, p: int) -> int {
    if 0 <= p < s.len() {
        p + 1
    } else {
        p
    }
}

/// The error for a malformed escape sequence.
pub open spec fn bad_escape(esc_off: int) -> ErrorView {
    ErrorView::Message { offset: esc_off, message: "invalid string escape"@ }
}

/// The byte offset of the backslash that precedes position `p`.
pub open spec fn escape_offset(s: Seq<char>, p: int) -> int {
    if byte_offset(s, p) >= 1 {
        byte_offset(s, p) - 1
    } else {
        0
    }
}

/// A `\u` or `\U` escape: `remaining` more hexadecimal digits from `q`, on top of `value`.
pub open spec fn lex_unicode(s: Seq<char>, q: int, esc_off: int, remaining: nat, value: nat) -> (
    Result<char, ErrorView>,
    int,
)
    decreases remaining,
{
    if remaining == 0 {
        if value <= u32::MAX && vstd::utf8::is_scalar(value as u32) {
            (Ok((value as u32) as char), q)
        } else {
            (Err(bad_escape(esc_off)), q)
        }
    } else if !(0 <= q < s.len()) {
        (Err(bad_escape(esc_off)), q)
    } else {
        match digit_value(s[q], 16) {
            Some(d) => lex_unicode(s, q + 1, esc_off, (remaining - 1) as nat, value * 16 + d as nat),
            None => (Err(bad_escape(esc_off)), q + 1),
        }
    }
}

/// The character that an escape sequence stands for; `p` is just after the backslash and
/// `start` is where the string starts.
pub open spec fn lex_escape(s: Seq<char>, p: int, start: int) -> (Result<char, ErrorView>, int) {
    let esc_off = escape_offset(s, p);
    if !(0 <= p < s.len()) {
        (Err(unterminated(s, start)), p)
    } else {
        let c = s[p];
        if c == '\\' {
            (Ok('\\'), p + 1)
        } else if c == '\'' {
            (Ok('\''), p + 1)
        } else if c == '"' {
            (Ok('"'), p + 1)
        } else if c == '`' {
            (Ok('`'), p + 1)
        } else if c == 't' {
            (Ok('\t'), p + 1)
        } else if c == 'b' {
            (Ok('\u{0008}'), p + 1)
        } else if c == 'n' {
            (Ok('\n'), p + 1)
        } else if c == 'r' {
            (Ok('\r'), p + 1)
        } else if c == 'f' {
            (Ok('\u{000c}'), p + 1)
        } else if c == 'u' {
            lex_unicode(s, p + 1, esc_off, 4, 0)
        } else if c == 'U' {
            lex_unicode(s, p + 1, esc_off, 6, 0)
        } else {
            (
                Err(
                    ErrorView::Message {
                        offset: esc_off,
                        message: "invalid string escape '\\"@ + seq![c] + "'"@,
                    },
                ),
                p + 1,
            )
        }
    }
}

/// The rest of a quoted sequence from `p`, after its opening `quote`: a doubled quote
/// stands for one quote, a backslash starts an escape when `esc` holds, and the first
/// single quote closes it. `acc` is what has been read so far.
pub open spec fn lex_quoted_body(
    s: Seq<char>,
    p: int,
    start: int,
    quote: char,
    esc: bool,
    acc: Seq<char>,
) -> (Result<Seq<char>, ErrorView>, int)
    decreases s.len() - p,
{
    if !(0 <= p < s.len()) {
        (Err(unterminated(s, start)), p)
    } else if s[p] == quote {
        if is_at(s, p + 1, quote) {
            lex_quoted_body(s, p + 2, start, quote, esc, acc.push(quote))
        } else {
            (Ok(acc), p + 1)
        }
    } else if s[p] == '\\' && esc {
        let (r, q) = lex_escape(s, p + 1, start);
        match r {
            Ok(ch) => if p < q <= s.len() {
                lex_quoted_body(s, q, start, quote, esc, acc.push(ch))
            } else {
                (Ok(acc), q)
            },
            Err(e) => (Err(e), q),
        }
    } else {
        lex_quoted_body(s, p + 1, start, quote, esc, acc.push(s[p]))
    }
}

/// A quoted sequence at `p`: the opening `quote` and the body.
pub open spec fn lex_quoted_sequence(s: Seq<char>, p: int, start: int, quote: char, esc: bool) -> (
    Result<Seq<char>, ErrorView>,
    int,
) {
    if !is_at(s, p, quote) {
        (Err(unrecognized_through(s, start, p)), after(s, p))
    } else {
        lex_quoted_body(s, p + 1, start, quote, esc, Seq::empty())
    }
}

/// Whether a line break occurs in `s[q..e]`.
pub open spec fn saw_newline(s: Seq<char>, q: int, e: int) -> bool {
    exists|k: int| q <= k < e && (s[k] == '\n' || s[k] == '\r')
}

/// The chunks of a character string from `p`: each is quoted with `'`, and a following
/// chunk must be separated from the previous one by whitespace with a line break; a chunk
/// prefixed with `@` takes no escapes.
pub open spec fn lex_string_chunks(s: Seq<char>, p: int, start: int, esc: bool, acc: Seq<char>) -> (
    Result<Seq<char>, ErrorView>,
    int,
)
    decreases s.len() - p,
{
    if !is_at(s, p, '\'') {
        (Err(unrecognized_through(s, start, p)), after(s, p))
    } else {
        let (r, q) = lex_quoted_body(s, p + 1, start, '\'', esc, acc);
        match r {
            Err(e) => (Err(e), q),
            Ok(acc2) => {
                let e = lex_eat_end(s, q, CharClass::Whitespace);
                if saw_newline(s, q, e) && is_at(s, e, '@') && is_at(s, e + 1, '\'') {
                    if p < e + 1 <= s.len() {
                        lex_string_chunks(s, e + 1, start, false, acc2)
                    } else {
                        (Ok(acc2), e)
                    }
                } else if saw_newline(s, q, e) && is_at(s, e, '\'') {
                    if p < e <= s.len() {
                        lex_string_chunks(s, e, start, true, acc2)
                    } else {
                        (Ok(acc2), e)
                    }
                } else {
                    (Ok(acc2), e)
                }
            },
        }
    }
}

/// The body of a byte string chunk from `q`: hexadecimal digits, with whitespace ignored.
pub open spec fn lex_byte_body(s: Seq<char>, q: int, start: int, acc: Seq<char>) -> (
    Result<Seq<char>, ErrorView>,
    int,
)
    decreases s.len() - q,
{
    if !(0 <= q < s.len()) {
        (Err(unterminated(s, start)), q)
    } else if s[q] == '\'' {
        (Ok(acc), q + 1)
    } else if is_ascii_hexdigit(s[q]) {
        lex_byte_body(s, q + 1, start, acc.push(s[q]))
    } else if is_whitespace(s[q]) {
        lex_byte_body(s, q + 1, start, acc)
    } else {
        (
            Err(
                ErrorView::Message {
                    offset: byte_offset(s, q) as int,
                    message: "invalid byte string literal character '"@ + seq![s[q]] + "'"@,
                },
            ),
            q + 1,
        )
    }
}

/// The chunks of a byte string from `p`.
pub open spec fn lex_byte_chunks(s: Seq<char>, p: int, start: int, acc: Seq<char>) -> (
    Result<Seq<char>, ErrorView>,
    int,
)
    decreases s.len() - p,
{
    if !is_at(s, p, '\'') {
        (Err(unrecognized_through(s, start, p)), after(s, p))
    } else {
        let (r, q) = lex_byte_body(s, p + 1, start, acc);
        match r {
            Err(e) => (Err(e), q),
            Ok(acc2) => {
                let e = lex_eat_end(s, q, CharClass::Whitespace);
                if saw_newline(s, q, e) && is_at(s, e, '\'') {
                    if p < e <= s.len() {
                        lex_byte_chunks(s, e, start, acc2)
                    } else {
                        (Ok(acc2), e)
                    }
                } else {
                    (Ok(acc2), e)
                }
            },
        }
    }
}

/// A byte string `X'..'` that starts at `start`.
pub open spec fn lex_byte_string(s: Seq<char>, start: int) -> (Result<TokenView, ErrorView>, int) {
    let (r, q) = lex_byte_chunks(s, start + 1, start, Seq::empty());
    match r {
        Err(e) => (Err(e), q),
        Ok(v) => if v.len() % 2 != 0 {
            (
                Err(
                    ErrorView::Message {
                        offset: byte_offset(s, start) as int,
                        message: "invalid byte string literal '"@ + s.subrange(start, q) + "'"@,
                    },
                ),
                q,
            )
        } else {
            (
                Ok(
                    TokenView {
                        kind: TokenKind::ByteString,
                        text: v,
                        offset: byte_offset(s, start) as int,
                    },
                ),
                q,
            )
        },
    }
}

/// The error for a malformed number that starts at `start` and was read up to `q`.
pub open spec fn bad_number(s: Seq<char>, start: int, q: int) -> ErrorView {
    ErrorView::BadNumber { offset: byte_offset(s, start) as int, token_text: s.subrange(start, q) }
}

/// Digits in `radix` from `p`, with single underscores between them (and before the first
/// one when `leading` holds). `pending` says an underscore was just read; `acc` holds the
/// digits read so far.
pub open spec fn lex_digits(
    s: Seq<char>,
    p: int,
    start: int,
    radix: u32,
    leading: bool,
    pending: bool,
    acc: Seq<char>,
) -> (Result<Seq<char>, ErrorView>, int)
    decreases s.len() - p,
{
    if is_at(s, p, '_') && (leading || acc.len() > 0) {
        if pending {
            (Err(bad_number(s, start, p + 1)), p + 1)
        } else {
            lex_digits(s, p + 1, start, radix, leading, true, acc)
        }
    } else if 0 <= p < s.len() && is_digit(s[p], radix) {
        lex_digits(s, p + 1, start, radix, leading, false, acc.push(s[p]))
    } else if pending {
        (Err(bad_number(s, start, p)), p)
    } else {
        (Ok(acc), p)
    }
}

/// A letter `m`, `f` or `d` (in either case) after a number.
pub open spec fn is_numeric_suffix(c: char) -> bool {
    c == 'm' || c == 'M' || c == 'f' || c == 'F' || c == 'd' || c == 'D'
}

/// An optional numeric suffix at `p`, which makes the number a decimal; a number must not
/// run on into an identifier.
pub open spec fn lex_numeric_suffix(s: Seq<char>, p: int, start: int, kind: TokenKind) -> (
    Result<TokenKind, ErrorView>,
    int,
) {
    let (k, q) = if 0 <= p < s.len() && is_numeric_suffix(s[p]) {
        (TokenKind::Decimal, p + 1)
    } else {
        (kind, p)
    };
    if 0 <= q < s.len() && spec_is_identifier_continue(s[q]) {
        (Err(bad_number(s, start, q + 1)), q + 1)
    } else {
        (Ok(k), q)
    }
}

/// The value of the digits `d` in `radix`.
pub open spec fn digits_value(d: Seq<char>, radix: u32) -> nat
    decreases d.len(),
{
    if d.len() == 0 {
        0
    } else {
        digits_value(d.drop_last(), radix) * (radix as nat) + (match digit_value(d.last(), radix) {
            Some(v) => v as nat,
            None => 0,
        })
    }
}

/// An integer in radix 16, 8 or 2 (`0x`, `0o`, `0b`) that starts at `start`; its text is the
/// value in decimal.
pub open spec fn lex_radix_integer(s: Seq<char>, start: int, radix: u32) -> (
    Result<TokenView, ErrorView>,
    int,
) {
    let (r, q) = lex_digits(s, start + 2, start, radix, true, false, Seq::empty());
    match r {
        Err(e) => (Err(e), q),
        Ok(d) => if d.len() == 0 || (0 <= q < s.len() && spec_is_identifier_continue(s[q])) {
            (Err(bad_number(s, start, q)), q)
        } else if digits_value(d, radix) > i64::MAX {
            (Err(bad_number(s, start, q)), q)
        } else {
            (
                Ok(
                    TokenView {
                        kind: TokenKind::Integer,
                        text: decimal_text(digits_value(d, radix)),
                        offset: byte_offset(s, start) as int,
                    },
                ),
                q,
            )
        },
    }
}

/// The end of a decimal number from `p`, with its text and kind so far: an optional
/// numeric suffix, which must not be followed by an underscore.
pub open spec fn lex_number_end(s: Seq<char>, p: int, start: int, text: Seq<char>, kind: TokenKind) -> (
    Result<TokenView, ErrorView>,
    int,
) {
    let (rk, q) = lex_numeric_suffix(s, p, start, kind);
    match rk {
        Err(e) => (Err(e), q),
        Ok(k) => if is_at(s, q, '_') {
            (Err(bad_number(s, start, q + 1)), q + 1)
        } else {
            (Ok(TokenView { kind: k, text, offset: byte_offset(s, start) as int }), q)
        },
    }
}

/// The optional exponent of a number from `p`, after its integer and fraction parts.
pub open spec fn lex_exponent(s: Seq<char>, p: int, start: int, text: Seq<char>, kind: TokenKind) -> (
    Result<TokenView, ErrorView>,
    int,
) {
    if is_at(s, p, 'e') || is_at(s, p, 'E') {
        let (text1, p1) = if is_at(s, p + 1, '+') || is_at(s, p + 1, '-') {
            (text.push('e').push(s[p + 1]), p + 2)
        } else {
            (text.push('e'), p + 1)
        };
        let (r, q) = lex_digits(s, p1, start, 10, false, false, Seq::empty());
        match r {
            Err(e) => (Err(e), q),
            Ok(d) => if q == p1 {
                (Err(bad_number(s, start, q)), q)
            } else {
                lex_number_end(s, q, start, text1 + d, TokenKind::Decimal)
            },
        }
    } else {
        lex_number_end(s, p, start, text, kind)
    }
}

/// Whether a `.` at `p` after the digits of a number begins its fraction: it must not be
/// followed by a character that starts an identifier, or by another `.`.
pub open spec fn starts_fraction(s: Seq<char>, p: int) -> bool {
    is_at(s, p, '.') && !(0 <= p + 1 < s.len() && (spec_is_identifier_start(s[p + 1]) || s[p
        + 1] == '.'))
}

/// A number in decimal notation that starts at `start` with a digit.
pub open spec fn lex_decimal_number(s: Seq<char>, start: int) -> (Result<TokenView, ErrorView>, int) {
    let (r, p) = lex_digits(s, start, start, 10, false, false, Seq::empty());
    match r {
        Err(e) => (Err(e), p),
        Ok(d) => if starts_fraction(s, p) {
            if 0 <= p + 1 < s.len() && is_ascii_digit(s[p + 1]) {
                let (r2, p2) = lex_digits(s, p + 1, start, 10, false, false, Seq::empty());
                match r2 {
                    Err(e) => (Err(e), p2),
                    Ok(d2) => lex_exponent(s, p2, start, d.push('.') + d2, TokenKind::Decimal),
                }
            } else {
                lex_exponent(s, p + 1, start, d.push('.'), TokenKind::Decimal)
            }
        } else {
            lex_exponent(s, p, start, d, TokenKind::Integer)
        },
    }
}

/// A number that starts at `start`, with a digit or with a `.` followed by a digit.
pub open spec fn lex_number(s: Seq<char>, start: int) -> (Result<TokenView, ErrorView>, int) {
    if is_at(s, start, '.') {
        let (r, q) = lex_digits(s, start + 1, start, 10, false, false, Seq::empty());
        match r {
            Err(e) => (Err(e), q),
            Ok(d) => {
                let (rk, q2) = lex_numeric_suffix(s, q, start, TokenKind::Decimal);
                match rk {
                    Err(e) => (Err(e), q2),
                    Ok(k) => (
                        Ok(TokenView { kind: k, text: seq!['.'] + d, offset: byte_offset(s, start) as int }),
                        q2,
                    ),
                }
            },
        }
    } else if is_at(s, start, '0') && (is_at(s, start + 1, 'x') || is_at(s, start + 1, 'X')) {
        lex_radix_integer(s, start, 16)
    } else if is_at(s, start, '0') && (is_at(s, start + 1, 'o') || is_at(s, start + 1, 'O')) {
        lex_radix_integer(s, start, 8)
    } else if is_at(s, start, '0') && (is_at(s, start + 1, 'b') || is_at(s, start + 1, 'B')) {
        lex_radix_integer(s, start, 2)
    } else {
        lex_decimal_number(s, start)
    }
}


/// A token made of the characters `s[start..end]`.
pub open spec fn token_between(s: Seq<char>, kind: TokenKind, start: int, end: int) -> TokenView {
    TokenView { kind, text: s.subrange(start, end), offset: byte_offset(s, start) as int }
}

/// A token whose text is `text`, starting at `start`.
pub open spec fn token_with(s: Seq<char>, kind: TokenKind, text: Seq<char>, start: int) -> TokenView {
    TokenView { kind, text, offset: byte_offset(s, start) as int }
}

/// Maps the value read by a lexing step to a token of `kind` that starts at `start`.
pub open spec fn text_token(
    s: Seq<char>,
    step: (Result<Seq<char>, ErrorView>, int),
    kind: TokenKind,
    start: int,
) -> (Result<TokenView, ErrorView>, int) {
    match step.0 {
        Ok(v) => (Ok(token_with(s, kind, v, start)), step.1),
        Err(e) => (Err(e), step.1),
    }
}

/// The kind of a quoted word: `"` gives a double-quoted string, any other quote a quoted one.
pub open spec fn quoted_kind(quote: char) -> TokenKind {
    if quote == '"' {
        TokenKind::DoubleQuotedString
    } else {
        TokenKind::QuotedString
    }
}

/// A parameter `$name`, `$"name"`, `` $`name` `` or `$@"name"` that starts at `start`.
pub open spec fn lex_parameter(s: Seq<char>, start: int) -> (Result<TokenView, ErrorView>, int) {
    let p = start + 1;
    if is_at(s, p, '@') && (is_at(s, p + 1, '"') || is_at(s, p + 1, '`')) {
        text_token(
            s,
            lex_quoted_sequence(s, p + 1, start, s[p + 1], false),
            TokenKind::Parameter,
            start,
        )
    } else if is_at(s, p, '"') || is_at(s, p, '`') {
        text_token(s, lex_quoted_sequence(s, p, start, s[p], true), TokenKind::Parameter, start)
    } else if 0 <= p < s.len() && spec_is_identifier_continue(s[p]) {
        let e = lex_eat_end(s, p, CharClass::IdentifierContinue);
        (Ok(token_between(s, TokenKind::Parameter, start, e)), e)
    } else {
        (
            Err(
                ErrorView::UnrecognizedToken {
                    offset: byte_offset(s, start) as int,
                    token_text: "$"@,
                },
            ),
            after(s, start),
        )
    }
}

/// The token of one or two punctuation characters at `i`, with its end, if there is one.
pub open spec fn lex_punctuation(s: Seq<char>, i: int) -> Option<(TokenKind, int)> {
    let c = s[i];
    if c == '(' {
        Some((TokenKind::LParen, i + 1))
    } else if c == ')' {
        Some((TokenKind::RParen, i + 1))
    } else if c == '[' {
        Some((TokenKind::LBracket, i + 1))
    } else if c == ']' {
        Some((TokenKind::RBracket, i + 1))
    } else if c == '{' {
        Some((TokenKind::LBrace, i + 1))
    } else if c == '}' {
        Some((TokenKind::RBrace, i + 1))
    } else if c == ',' {
        Some((TokenKind::Comma, i + 1))
    } else if c == ':' {
        if is_at(s, i + 1, ':') {
            Some((TokenKind::DoubleColon, i + 2))
        } else {
            Some((TokenKind::Colon, i + 1))
        }
    } else if c == ';' {
        Some((TokenKind::Semicolon, i + 1))
    } else if c == '.' && !(0 <= i + 1 < s.len() && is_ascii_digit(s[i + 1])) {
        Some((TokenKind::Dot, i + 1))
    } else if c == '+' {
        Some((TokenKind::Plus, i + 1))
    } else if c == '?' {
        Some((TokenKind::Question, i + 1))
    } else if c == '*' {
        Some((TokenKind::Star, i + 1))
    } else if c == '/' {
        Some((TokenKind::Slash, i + 1))
    } else if c == '%' {
        Some((TokenKind::Percent, i + 1))
    } else if c == '|' {
        if is_at(s, i + 1, '|') {
            Some((TokenKind::DoublePipe, i + 2))
        } else {
            Some((TokenKind::Pipe, i + 1))
        }
    } else if c == '&' {
        Some((TokenKind::Ampersand, i + 1))
    } else if c == '~' {
        Some((TokenKind::Tilde, i + 1))
    } else if c == '=' {
        Some((TokenKind::Eq, i + 1))
    } else if c == '!' {
        if is_at(s, i + 1, '=') {
            Some((TokenKind::Neq, i + 2))
        } else {
            Some((TokenKind::Bang, i + 1))
        }
    } else if c == '<' {
        if is_at(s, i + 1, '=') {
            Some((TokenKind::Le, i + 2))
        } else if is_at(s, i + 1, '>') {
            Some((TokenKind::Neq, i + 2))
        } else if is_at(s, i + 1, '-') {
            Some((TokenKind::ArrowLeft, i + 2))
        } else {
            Some((TokenKind::Lt, i + 1))
        }
    } else if c == '>' {
        if is_at(s, i + 1, '=') {
            Some((TokenKind::Ge, i + 2))
        } else {
            Some((TokenKind::Gt, i + 1))
        }
    } else if c == '-' {
        if is_at(s, i + 1, '>') {
            Some((TokenKind::ArrowRight, i + 2))
        } else {
            Some((TokenKind::Minus, i + 1))
        }
    } else {
        None
    }
}

/// The token that starts at position `start` of `s`, or the error found there, with the
/// position where reading stopped.
pub open spec fn lex_token(s: Seq<char>, start: int) -> (Result<TokenView, ErrorView>, int) {
    let c = s[start];
    match lex_punctuation(s, start) {
        Some((kind, end)) => (Ok(token_between(s, kind, start, end)), end),
        None => if c == '.' {
            lex_number(s, start)
        } else if c == '\'' {
            text_token(s, lex_string_chunks(s, start, start, true, Seq::empty()), TokenKind::String, start)
        } else if c == '"' || c == '`' {
            text_token(s, lex_quoted_sequence(s, start, start, c, true), quoted_kind(c), start)
        } else if c == '@' && is_at(s, start + 1, '\'') {
            text_token(
                s,
                lex_string_chunks(s, start + 1, start, false, Seq::empty()),
                TokenKind::String,
                start,
            )
        } else if c == '@' && (is_at(s, start + 1, '"') || is_at(s, start + 1, '`')) {
            text_token(
                s,
                lex_quoted_sequence(s, start + 1, start, s[start + 1], false),
                quoted_kind(s[start + 1]),
                start,
            )
        } else if c == '$' {
            lex_parameter(s, start)
        } else if is_ascii_digit(c) {
            lex_number(s, start)
        } else if (c == 'X' || c == 'x') && is_at(s, start + 1, '\'') {
            lex_byte_string(s, start)
        } else if spec_is_identifier_start(c) {
            let e = lex_eat_end(s, start, CharClass::IdentifierContinue);
            (
                Ok(
                    token_between(
                        s,
                        spec_keyword_or_identifier(s.subrange(start, e)),
                        start,
                        e,
                    ),
                ),
                e,
            )
        } else {
            (
                Err(
                    ErrorView::UnrecognizedToken {
                        offset: byte_offset(s, start) as int,
                        token_text: seq![c],
                    },
                ),
                start + 1,
            )
        },
    }
}

#[verifier::opaque]
/// One step of the lexer at position `i`: nothing at the end of the input, else the next
/// token or error, with the position where reading stopped.
pub open spec fn lex_next(s: Seq<char>, i: int) -> (Option<Result<TokenView, ErrorView>>, int) {
    match lex_skip(s, i) {
        Err(e) => (Some(Err(e)), s.len() as int),
        Ok(j) => if j >= s.len() {
            (None, j)
        } else {
            let (r, q) = lex_token(s, j);
            (Some(r), q)
        },
    }
}

pub proof fn lemma_eat_end_bounds(s: Seq<char>, i: int, class: CharClass)
    requires
        0 <= i <= s.len(),
    ensures
        i <= lex_eat_end(s, i, class) <= s.len(),
        i < s.len() && in_class(class, s[i]) ==> i < lex_eat_end(s, i, class),
    decreases s.len() - i,
{
    if i < s.len() && in_class(class, s[i]) {
        lemma_eat_end_bounds(s, i + 1, class);
    }
}

pub proof fn lemma_comment_close_bounds(s: Seq<char>, m: int)
    requires
        0 <= m,
    ensures
        lex_comment_close(s, m) matches Some(k) ==> m <= k && k + 1 < s.len() && s[k] == '*' && s[k
            + 1] == '/',
    decreases s.len() - m,
{
    if 0 <= m < s.len() && !(is_at(s, m, '*') && is_at(s, m + 1, '/')) {
        lemma_comment_close_bounds(s, m + 1);
    }
}

/// `16` to the power `n`.
pub open spec fn pow16(n: nat) -> nat
    decreases n,
{
    if n == 0 {
        1
    } else {
        16 * pow16((n - 1) as nat)
    }
}

/// One chunk of a character string at `p`: the opening `'` and the body.
pub open spec fn lex_string_chunk(s: Seq<char>, p: int, start: int, esc: bool, acc: Seq<char>) -> (
    Result<Seq<char>, ErrorView>,
    int,
) {
    if !is_at(s, p, '\'') {
        (Err(unrecognized_through(s, start, p)), after(s, p))
    } else {
        lex_quoted_body(s, p + 1, start, '\'', esc, acc)
    }
}

/// One chunk of a byte string at `p`: the opening `'` and the body.
pub open spec fn lex_byte_chunk(s: Seq<char>, p: int, start: int, acc: Seq<char>) -> (
    Result<Seq<char>, ErrorView>,
    int,
) {
    if !is_at(s, p, '\'') {
        (Err(unrecognized_through(s, start, p)), after(s, p))
    } else {
        lex_byte_body(s, p + 1, start, acc)
    }
}

/// Every character of `d` is a digit in `radix`.
pub open spec fn all_digits(d: Seq<char>, radix: u32) -> bool {
    forall|i: int| 0 <= i < d.len() ==> #[trigger] is_digit(d[i], radix)
}

pub proof fn lemma_digits_are_digits(
    s: Seq<char>,
    p: int,
    start: int,
    radix: u32,
    leading: bool,
    pending: bool,
    acc: Seq<char>,
)
    requires
        all_digits(acc, radix),
    ensures
        lex_digits(s, p, start, radix, leading, pending, acc).0 matches Ok(d) ==> all_digits(d, radix),
    decreases s.len() - p,
{
    if is_at(s, p, '_') && (leading || acc.len() > 0) {
        if !pending {
            lemma_digits_are_digits(s, p + 1, start, radix, leading, true, acc);
        }
    } else if 0 <= p < s.len() && is_digit(s[p], radix) {
        assert(all_digits(acc.push(s[p]), radix)) by {
            assert forall|i: int| 0 <= i < acc.push(s[p]).len() implies #[trigger] is_digit(
                acc.push(s[p])[i],
                radix,
            ) by {
                if i < acc.len() {
                    assert(acc.push(s[p])[i] == acc[i]);
                }
            }
        }
        lemma_digits_are_digits(s, p + 1, start, radix, leading, false, acc.push(s[p]));
    }
}

/// The value of a prefix of a digit sequence is at most the value of a longer prefix.
pub proof fn lemma_digits_value_mono(d: Seq<char>, radix: u32, i: int, j: int)
    requires
        0 <= i <= j <= d.len(),
        radix >= 1,
    ensures
        digits_value(d.take(i), radix) <= digits_value(d.take(j), radix),
    decreases j - i,
{
    if i < j {
        lemma_digits_value_mono(d, radix, i, j - 1);
        assert(d.take(j).drop_last() =~= d.take(j - 1));
        let v = digits_value(d.take(j - 1), radix);
        assert(v * (radix as nat) >= v) by (nonlinear_arith)
            requires
                radix >= 1,
        ;
    }
}

// ---------------------------------------------------------------------------------------
// The lexer.
// ---------------------------------------------------------------------------------------

/// The mathematical value of a result that carries an [`Error`].
pub open spec fn result_view<T>(r: Result<T, Error>) -> Result<T, ErrorView> {
    match r {
        Ok(v) => Ok(v),
        Err(e) => Err(e@),
    }
}

/// The mathematical value of a token result.
pub open spec fn token_result_view(r: Result<Token, Error>) -> Result<TokenView, ErrorView> {
    match r {
        Ok(t) => Ok(t@),
        Err(e) => Err(e@),
    }
}

/// The mathematical value of a string result.
pub open spec fn string_result_view(r: Result<String, Error>) -> Result<Seq<char>, ErrorView> {
    match r {
        Ok(t) => Ok(t@),
        Err(e) => Err(e@),
    }
}

/// The mathematical value of the result of one lexing step.
pub open spec fn step_view(r: Option<Result<Token, Error>>) -> Option<Result<TokenView, ErrorView>> {
    match r {
        Some(t) => Some(token_result_view(t)),
        None => None,
    }
}

/// The mathematical value of a [`Lexer`]: the characters of its input and the position of
/// the next character to read.
pub struct LexerView {
    pub chars: Seq<char>,
    pub pos: int,
}

/// Splits an input into tokens, one call of [`Lexer::next`] at a time.
pub struct Lexer {
    input: Vec<char>,
    offsets: Vec<usize>,
    pos: usize,
}

impl View for Lexer {
    type V = LexerView;

    closed spec fn view(&self) -> LexerView {
        LexerView { chars: self.input@, pos: self.pos as int }
    }
}

impl Lexer {
    /// The lexer's byte offsets agree with its input, and its position lies in the input.
    pub closed spec fn wf(&self) -> bool {
        &&& self.pos <= self.input.len()
        &&& self.offsets.len() == self.input.len() + 1
        &&& forall|i: int|
            0 <= i <= self.input.len() ==> #[trigger] self.offsets@[i] == byte_offset(
                self.input@,
                i,
            )
    }

    /// A lexer at the start of `input`.
    pub fn new(input: &str) -> (l: Lexer)
        ensures
            l.wf(),
            l@.chars == input@,
            l@.pos == 0,
            l@.pos <= l@.chars.len(),
    {
        let chars = chars_of(input);
        let total = str_byte_len(input);
        let mut offsets: Vec<usize> = Vec::new();
        let mut acc: usize = 0;
        let mut i: usize = 0;
        proof {
            assert(chars@.take(0) =~= Seq::<char>::empty());
        }
        while i < chars.len()
            invariant
                chars@ == input@,
                total == byte_len(chars@),
                i <= chars.len(),
                offsets.len() == i,
                acc == byte_offset(chars@, i as int),
                forall|k: int| 0 <= k < i ==> #[trigger] offsets@[k] == byte_offset(chars@, k),
            decreases chars.len() - i,
        {
            offsets.push(acc);
            proof {
                lemma_byte_offset_step(chars@, i as int);
                lemma_byte_offset_mono(chars@, i as int + 1, chars.len() as int);
            }
            acc = acc + char_utf8_len(chars[i]);
            i += 1;
        }
        offsets.push(acc);
        Lexer { input: chars, offsets, pos: 0 }
    }

    fn peek_char(&self) -> (r: Option<char>)
        requires
            self.wf(),
        ensures
            r == char_at(self@.chars, self@.pos),
    {
        if self.pos < self.input.len() {
            Some(self.input[self.pos])
        } else {
            None
        }
    }

    fn peek_next_char(&self) -> (r: Option<char>)
        requires
            self.wf(),
        ensures
            r == char_at(self@.chars, self@.pos + 1),
    {
        if self.pos < self.input.len() && self.pos + 1 < self.input.len() {
            Some(self.input[self.pos + 1])
        } else {
            None
        }
    }

    fn bump(&mut self) -> (r: Option<char>)
        requires
            old(self).wf(),
        ensures
            final(self).wf(),
            final(self)@.chars == old(self)@.chars,
            r == char_at(old(self)@.chars, old(self)@.pos),
            final(self)@.pos == after(old(self)@.chars, old(self)@.pos),
    {
        if self.pos < self.input.len() {
            let ch = self.input[self.pos];
            self.pos = self.pos + 1;
            Some(ch)
        } else {
            None
        }
    }

    fn token_from(&self, kind: TokenKind, start: usize) -> (t: Token)
        requires
            self.wf(),
            start <= self.pos,
        ensures
            t@ == token_between(self@.chars, kind, start as int, self@.pos),
    {
        Token::new(kind, string_of_range(&self.input, start, self.pos), self.offsets[start])
    }

    fn eat_while(&mut self, class: CharClass)
        requires
            old(self).wf(),
        ensures
            final(self).wf(),
            final(self)@.chars == old(self)@.chars,
            final(self)@.pos == lex_eat_end(old(self)@.chars, old(self)@.pos, class),
    {
        loop
            invariant
                self.wf(),
                self@.chars == old(self)@.chars,
                lex_eat_end(self@.chars, self@.pos, class) == lex_eat_end(
                    old(self)@.chars,
                    old(self)@.pos,
                    class,
                ),
            ensures
                self.wf(),
                self@.chars == old(self)@.chars,
                self@.pos == lex_eat_end(old(self)@.chars, old(self)@.pos, class),
            decreases self.input.len() - self.pos,
        {
            let go = match self.peek_char() {
                Some(ch) => match class {
                    CharClass::Whitespace => char_is_whitespace(ch),
                    CharClass::NotNewline => ch != '\n',
                    CharClass::IdentifierContinue => is_identifier_continue(ch),
                },
                None => false,
            };
            if !go {
                break;
            }
            self.bump();
        }
    }
    fn skip_ws_and_comments(&mut self) -> (r: Result<(), Error>)
        requires
            old(self).wf(),
        ensures
            final(self).wf(),
            final(self)@.chars == old(self)@.chars,
            r is Ok ==> final(self)@.pos >= old(self)@.pos,
            match lex_skip(old(self)@.chars, old(self)@.pos) {
                Ok(j) => r is Ok && final(self)@.pos == j,
                Err(e) => r matches Err(x) && x@ == e && final(self)@.pos == final(self)@.chars.len(),
            },
    {
        loop
            invariant_except_break
                lex_skip(self@.chars, self@.pos) == lex_skip(old(self)@.chars, old(self)@.pos),
            invariant
                self.wf(),
                self@.chars == old(self)@.chars,
                self@.pos >= old(self)@.pos,
            ensures
                self@.pos >= old(self)@.pos,
                lex_skip(old(self)@.chars, old(self)@.pos) == Ok::<int, ErrorView>(self@.pos as int),
            decreases self.input.len() - self.pos,
        {
            let ghost i = self@.pos;
            let ghost s = self@.chars;
            self.eat_while(CharClass::Whitespace);
            proof {
                lemma_eat_end_bounds(s, i, CharClass::Whitespace);
            }
            let a = self.peek_char();
            let b = self.peek_next_char();
            if (a == Some('/') && b == Some('/')) || (a == Some('-') && b == Some('-')) {
                let ghost j = self@.pos;
                self.eat_while(CharClass::NotNewline);
                proof {
                    lemma_eat_end_bounds(s, j, CharClass::NotNewline);
                }
                continue;
            }
            if a == Some('/') && b == Some('*') {
                let start = self.pos;
                self.pos = self.pos + 2;
                proof {
                    lemma_comment_close_bounds(s, start + 2);
                }
                while self.pos < self.input.len() && !(self.input[self.pos] == '*' && self.pos + 1
                    < self.input.len() && self.input[self.pos + 1] == '/')
                    invariant
                        self.wf(),
                        self@.chars == s,
                        start + 2 <= self.pos <= s.len(),
                        lex_comment_close(s, self@.pos) == lex_comment_close(s, start + 2),
                    decreases self.input.len() - self.pos,
                {
                    self.bump();
                }
                if self.pos < self.input.len() && self.pos + 1 < self.input.len() && self.input[self.pos]
                    == '*' && self.input[self.pos + 1] == '/' {
                    self.pos = self.pos + 2;
                } else {
                    return Err(
                        Error::UnterminatedBlockComment {
                            offset: self.offsets[start],
                            token_text: string_of_range(&self.input, start, self.input.len()),
                        },
                    );
                }
                continue;
            }
            break;
        }
        Ok(())
    }
    fn unicode_escape(&mut self, escape_start: usize, digits: usize) -> (r: Result<char, Error>)
        requires
            old(self).wf(),
            digits == 4 || digits == 6,
        ensures
            final(self).wf(),
            final(self)@.chars == old(self)@.chars,
            final(self)@.pos >= old(self)@.pos,
            (result_view(r), final(self)@.pos as int) == lex_unicode(
                old(self)@.chars,
                old(self)@.pos,
                escape_start as int,
                digits as nat,
                0,
            ),
    {
        let ghost s = self@.chars;
        let mut value: u32 = 0;
        let mut k: usize = 0;
        while k < digits
            invariant
                self.wf(),
                self@.chars == s,
                s == old(self)@.chars,
                self@.pos >= old(self)@.pos,
                k <= digits,
                digits == 4 || digits == 6,
                value < pow16(k as nat),
                lex_unicode(s, self@.pos, escape_start as int, (digits - k) as nat, value as nat)
                    == lex_unicode(s, old(self)@.pos, escape_start as int, digits as nat, 0),
            decreases digits - k,
        {
            proof {
                reveal_with_fuel(pow16, 7);
                if k == 0 {
                } else if k == 1 {
                } else if k == 2 {
                } else if k == 3 {
                } else if k == 4 {
                } else {
                    assert(k == 5);
                }
                assert(pow16((k + 1) as nat) == 16 * pow16(k as nat));
                assert(pow16(k as nat) <= 0x100000);
            }
            let d = match self.bump() {
                Some(ch) => char_digit_value(ch, 16),
                None => None,
            };
            match d {
                Some(digit) => {
                    value = value * 16 + digit;
                },
                None => {
                    return Err(
                        Error::Message {
                            offset: escape_start,
                            message: "invalid string escape".to_owned(),
                        },
                    );
                },
            }
            k += 1;
        }
        match char_from_u32(value) {
            Some(c) => Ok(c),
            None => Err(
                Error::Message { offset: escape_start, message: "invalid string escape".to_owned() },
            ),
        }
    }

    fn escaped_character(&mut self, string_start: usize) -> (r: Result<char, Error>)
        requires
            old(self).wf(),
            string_start <= old(self)@.pos,
        ensures
            final(self).wf(),
            final(self)@.chars == old(self)@.chars,
            final(self)@.pos >= old(self)@.pos,
            (result_view(r), final(self)@.pos as int) == lex_escape(
                old(self)@.chars,
                old(self)@.pos,
                string_start as int,
            ),
    {
        let escape_start = if self.offsets[self.pos] >= 1 {
            self.offsets[self.pos] - 1
        } else {
            0
        };
        match self.bump() {
            Some(c) => {
                if c == '\\' {
                    Ok('\\')
                } else if c == '\'' {
                    Ok('\'')
                } else if c == '"' {
                    Ok('"')
                } else if c == '`' {
                    Ok('`')
                } else if c == 't' {
                    Ok('\t')
                } else if c == 'b' {
                    Ok('\u{0008}')
                } else if c == 'n' {
                    Ok('\n')
                } else if c == 'r' {
                    Ok('\r')
                } else if c == 'f' {
                    Ok('\u{000c}')
                } else if c == 'u' {
                    self.unicode_escape(escape_start, 4)
                } else if c == 'U' {
                    self.unicode_escape(escape_start, 6)
                } else {
                    let mut m: Vec<char> = Vec::new();
                    push_str(&mut m, "invalid string escape '\\");
                    m.push(c);
                    push_str(&mut m, "'");
                    assert(m@ =~= "invalid string escape '\\"@ + seq![c] + "'"@);
                    Err(Error::Message { offset: escape_start, message: string_from_chars(&m) })
                }
            },
            None => Err(
                Error::UnterminatedString {
                    offset: self.offsets[string_start],
                    token_text: string_of_range(&self.input, string_start, self.input.len()),
                },
            ),
        }
    }

    fn quoted_sequence(&mut self, start: usize, quote: char, escaping_enabled: bool) -> (r: Result<
        String,
        Error,
    >)
        requires
            old(self).wf(),
            start <= old(self)@.pos,
        ensures
            final(self).wf(),
            final(self)@.chars == old(self)@.chars,
            r is Ok ==> final(self)@.pos > old(self)@.pos,
            (string_result_view(r), final(self)@.pos as int) == lex_quoted_sequence(
                old(self)@.chars,
                old(self)@.pos,
                start as int,
                quote,
                escaping_enabled,
            ),
    {
        let ghost s = self@.chars;
        let ghost p0 = self@.pos;
        if self.bump() != Some(quote) {
            return Err(
                Error::UnrecognizedToken {
                    offset: self.offsets[start],
                    token_text: string_of_range(&self.input, start, self.pos),
                },
            );
        }
        let mut value: Vec<char> = Vec::new();
        loop
            invariant
                self.wf(),
                self@.chars == s,
                s == old(self)@.chars,
                p0 == old(self)@.pos,
                start <= p0 < self@.pos,
                lex_quoted_body(s, self@.pos, start as int, quote, escaping_enabled, value@)
                    == lex_quoted_sequence(s, p0, start as int, quote, escaping_enabled),
            decreases self.input.len() - self.pos,
        {
            match self.bump() {
                Some(ch) => {
                    if ch == quote {
                        if self.peek_char() == Some(quote) {
                            self.bump();
                            value.push(quote);
                        } else {
                            return Ok(string_from_chars(&value));
                        }
                    } else if ch == '\\' && escaping_enabled {
                        match self.escaped_character(start) {
                            Ok(c) => value.push(c),
                            Err(e) => return Err(e),
                        }
                    } else {
                        value.push(ch);
                    }
                },
                None => {
                    return Err(
                        Error::UnterminatedString {
                            offset: self.offsets[start],
                            token_text: string_of_range(&self.input, start, self.input.len()),
                        },
                    );
                },
            }
        }
    }

    fn quoted_identifier_with_escape(&mut self, start: usize, quote: char, escaping_enabled: bool) -> (r:
        Result<Token, Error>)
        requires
            old(self).wf(),
            start <= old(self)@.pos,
        ensures
            final(self).wf(),
            final(self)@.chars == old(self)@.chars,
            r is Ok ==> final(self)@.pos > old(self)@.pos,
            (token_result_view(r), final(self)@.pos as int) == text_token(
                old(self)@.chars,
                lex_quoted_sequence(old(self)@.chars, old(self)@.pos, start as int, quote, escaping_enabled),
                quoted_kind(quote),
                start as int,
            ),
    {
        let value = match self.quoted_sequence(start, quote, escaping_enabled) {
            Ok(v) => v,
            Err(e) => return Err(e),
        };
        let kind = if quote == '"' {
            TokenKind::DoubleQuotedString
        } else {
            TokenKind::QuotedString
        };
        Ok(Token::new(kind, value, self.offsets[start]))
    }

    fn quoted_identifier(&mut self, start: usize, quote: char) -> (r: Result<Token, Error>)
        requires
            old(self).wf(),
            start == old(self)@.pos,
        ensures
            final(self).wf(),
            final(self)@.chars == old(self)@.chars,
            r is Ok ==> final(self)@.pos > old(self)@.pos,
            (token_result_view(r), final(self)@.pos as int) == text_token(
                old(self)@.chars,
                lex_quoted_sequence(old(self)@.chars, start as int, start as int, quote, true),
                quoted_kind(quote),
                start as int,
            ),
    {
        self.quoted_identifier_with_escape(start, quote, true)
    }

    fn quoted_identifier_no_escape(&mut self, start: usize) -> (r: Result<Token, Error>)
        requires
            old(self).wf(),
            start == old(self)@.pos,
            is_at(old(self)@.chars, start + 1, '"') || is_at(old(self)@.chars, start + 1, '`'),
        ensures
            final(self).wf(),
            final(self)@.chars == old(self)@.chars,
            r is Ok ==> final(self)@.pos > old(self)@.pos,
            (token_result_view(r), final(self)@.pos as int) == text_token(
                old(self)@.chars,
                lex_quoted_sequence(
                    old(self)@.chars,
                    start + 1,
                    start as int,
                    old(self)@.chars[start + 1],
                    false,
                ),
                quoted_kind(old(self)@.chars[start + 1]),
                start as int,
            ),
    {
        self.bump();
        let quote = match self.peek_char() {
            Some(q) => q,
            None => {
                return Err(
                    Error::UnrecognizedToken {
                        offset: self.offsets[start],
                        token_text: string_of_range(&self.input, start, self.pos),
                    },
                )
            },
        };
        self.quoted_identifier_with_escape(start, quote, false)
    }
    fn eat_literal_separator(&mut self) -> (saw: bool)
        requires
            old(self).wf(),
        ensures
            final(self).wf(),
            final(self)@.chars == old(self)@.chars,
            final(self)@.pos == lex_eat_end(old(self)@.chars, old(self)@.pos, CharClass::Whitespace),
            saw == saw_newline(old(self)@.chars, old(self)@.pos, final(self)@.pos),
    {
        let ghost s = self@.chars;
        let ghost p0 = self@.pos;
        let mut saw_newline_so_far = false;
        loop
            invariant
                self.wf(),
                self@.chars == s,
                s == old(self)@.chars,
                p0 == old(self)@.pos,
                p0 <= self@.pos,
                lex_eat_end(s, self@.pos, CharClass::Whitespace) == lex_eat_end(
                    s,
                    p0,
                    CharClass::Whitespace,
                ),
                saw_newline_so_far == saw_newline(s, p0, self@.pos),
            ensures
                self.wf(),
                self@.chars == s,
                self@.pos == lex_eat_end(s, p0, CharClass::Whitespace),
                saw_newline_so_far == saw_newline(s, p0, self@.pos),
            decreases self.input.len() - self.pos,
        {
            let ws = match self.peek_char() {
                Some(ch) => char_is_whitespace(ch),
                None => false,
            };
            if !ws {
                break;
            }
            let ch = self.input[self.pos];
            let ghost q = self@.pos;
            saw_newline_so_far = saw_newline_so_far || ch == '\n' || ch == '\r';
            self.bump();
            proof {
                if saw_newline(s, p0, q + 1) && !saw_newline(s, p0, q) {
                    let k = choose|k: int| p0 <= k < q + 1 && (s[k] == '\n' || s[k] == '\r');
                    assert(k == q);
                }
                if saw_newline(s, p0, q) {
                    let k = choose|k: int| p0 <= k < q && (s[k] == '\n' || s[k] == '\r');
                    assert(p0 <= k < q + 1);
                }
            }
        }
        saw_newline_so_far
    }

    fn expect_string_chunk(&mut self, start: usize, value: &mut Vec<char>, escaping_enabled: bool) -> (r:
        Result<(), Error>)
        requires
            old(self).wf(),
            start <= old(self)@.pos,
        ensures
            final(self).wf(),
            final(self)@.chars == old(self)@.chars,
            r is Ok ==> final(self)@.pos > old(self)@.pos,
            ({
                let (rs, q) = lex_string_chunk(
                    old(self)@.chars,
                    old(self)@.pos,
                    start as int,
                    escaping_enabled,
                    old(value)@,
                );
                &&& final(self)@.pos == q
                &&& match rs {
                    Ok(acc) => r is Ok && final(value)@ == acc,
                    Err(e) => r matches Err(x) && x@ == e,
                }
            }),
    {
        let ghost s = self@.chars;
        let ghost p0 = self@.pos;
        if self.bump() != Some('\'') {
            return Err(
                Error::UnrecognizedToken {
                    offset: self.offsets[start],
                    token_text: string_of_range(&self.input, start, self.pos),
                },
            );
        }
        loop
            invariant
                self.wf(),
                self@.chars == s,
                s == old(self)@.chars,
                p0 == old(self)@.pos,
                start <= p0 < self@.pos,
                lex_quoted_body(s, self@.pos, start as int, '\'', escaping_enabled, value@)
                    == lex_string_chunk(s, p0, start as int, escaping_enabled, old(value)@),
            decreases self.input.len() - self.pos,
        {
            match self.bump() {
                Some(ch) => {
                    if ch == '\'' {
                        if self.peek_char() == Some('\'') {
                            self.bump();
                            value.push('\'');
                        } else {
                            return Ok(());
                        }
                    } else if ch == '\\' && escaping_enabled {
                        match self.escaped_character(start) {
                            Ok(c) => value.push(c),
                            Err(e) => return Err(e),
                        }
                    } else {
                        value.push(ch);
                    }
                },
                None => {
                    return Err(
                        Error::UnterminatedString {
                            offset: self.offsets[start],
                            token_text: string_of_range(&self.input, start, self.input.len()),
                        },
                    );
                },
            }
        }
    }

    fn character_string(&mut self, start: usize, escaping: bool) -> (r: Result<Token, Error>)
        requires
            old(self).wf(),
            start <= old(self)@.pos,
        ensures
            final(self).wf(),
            final(self)@.chars == old(self)@.chars,
            r is Ok ==> final(self)@.pos > old(self)@.pos,
            (token_result_view(r), final(self)@.pos as int) == text_token(
                old(self)@.chars,
                lex_string_chunks(
                    old(self)@.chars,
                    old(self)@.pos,
                    start as int,
                    escaping,
                    Seq::empty(),
                ),
                TokenKind::String,
                start as int,
            ),
    {
        let ghost s = self@.chars;
        let ghost p0 = self@.pos;
        let mut escaping_enabled = escaping;
        let mut value: Vec<char> = Vec::new();
        loop
            invariant
                self.wf(),
                self@.chars == s,
                s == old(self)@.chars,
                p0 == old(self)@.pos,
                start <= p0 <= self@.pos,
                lex_string_chunks(s, self@.pos, start as int, escaping_enabled, value@)
                    == lex_string_chunks(s, p0, start as int, escaping, Seq::empty()),
            decreases self.input.len() - self.pos,
        {
            let ghost p = self@.pos;
            let ghost acc = value@;
            let ghost esc = escaping_enabled;
            match self.expect_string_chunk(start, &mut value, escaping_enabled) {
                Ok(()) => {},
                Err(e) => return Err(e),
            }
            let ghost q = self@.pos;
            if self.eat_literal_separator() {
                proof {
                    lemma_eat_end_bounds(s, q, CharClass::Whitespace);
                }
                if self.peek_char() == Some('@') && self.peek_next_char() == Some('\'') {
                    self.bump();
                    escaping_enabled = false;
                    continue;
                }
                if self.peek_char() == Some('\'') {
                    escaping_enabled = true;
                    continue;
                }
            }
            proof {
                lemma_eat_end_bounds(s, q, CharClass::Whitespace);
            }
            return Ok(Token::new(TokenKind::String, string_from_chars(&value), self.offsets[start]));
        }
    }

    fn string(&mut self, start: usize) -> (r: Result<Token, Error>)
        requires
            old(self).wf(),
            start == old(self)@.pos,
        ensures
            final(self).wf(),
            final(self)@.chars == old(self)@.chars,
            r is Ok ==> final(self)@.pos > old(self)@.pos,
            (token_result_view(r), final(self)@.pos as int) == text_token(
                old(self)@.chars,
                lex_string_chunks(old(self)@.chars, start as int, start as int, true, Seq::empty()),
                TokenKind::String,
                start as int,
            ),
    {
        self.character_string(start, true)
    }

    fn string_no_escape(&mut self, start: usize) -> (r: Result<Token, Error>)
        requires
            old(self).wf(),
            start == old(self)@.pos,
            start < old(self)@.chars.len(),
        ensures
            final(self).wf(),
            final(self)@.chars == old(self)@.chars,
            r is Ok ==> final(self)@.pos > old(self)@.pos,
            (token_result_view(r), final(self)@.pos as int) == text_token(
                old(self)@.chars,
                lex_string_chunks(old(self)@.chars, start + 1, start as int, false, Seq::empty()),
                TokenKind::String,
                start as int,
            ),
    {
        self.bump();
        self.character_string(start, false)
    }
    fn expect_byte_string_chunk(&mut self, start: usize, value: &mut Vec<char>) -> (r: Result<(), Error>)
        requires
            old(self).wf(),
            start <= old(self)@.pos,
        ensures
            final(self).wf(),
            final(self)@.chars == old(self)@.chars,
            r is Ok ==> final(self)@.pos > old(self)@.pos,
            ({
                let (rs, q) = lex_byte_chunk(old(self)@.chars, old(self)@.pos, start as int, old(value)@);
                &&& final(self)@.pos == q
                &&& match rs {
                    Ok(acc) => r is Ok && final(value)@ == acc,
                    Err(e) => r matches Err(x) && x@ == e,
                }
            }),
    {
        let ghost s = self@.chars;
        let ghost p0 = self@.pos;
        if self.bump() != Some('\'') {
            return Err(
                Error::UnrecognizedToken {
                    offset: self.offsets[start],
                    token_text: string_of_range(&self.input, start, self.pos),
                },
            );
        }
        loop
            invariant
                self.wf(),
                self@.chars == s,
                s == old(self)@.chars,
                p0 == old(self)@.pos,
                start <= p0 < self@.pos,
                lex_byte_body(s, self@.pos, start as int, value@) == lex_byte_chunk(
                    s,
                    p0,
                    start as int,
                    old(value)@,
                ),
            decreases self.input.len() - self.pos,
        {
            let offset = self.offsets[self.pos];
            match self.bump() {
                Some(ch) => {
                    if ch == '\'' {
                        return Ok(());
                    } else if char_digit_value(ch, 16).is_some() {
                        value.push(ch);
                    } else if char_is_whitespace(ch) {
                    } else {
                        let mut m: Vec<char> = Vec::new();
                        push_str(&mut m, "invalid byte string literal character '");
                        m.push(ch);
                        push_str(&mut m, "'");
                        assert(m@ =~= "invalid byte string literal character '"@ + seq![ch] + "'"@);
                        return Err(Error::Message { offset, message: string_from_chars(&m) });
                    }
                },
                None => {
                    return Err(
                        Error::UnterminatedString {
                            offset: self.offsets[start],
                            token_text: string_of_range(&self.input, start, self.input.len()),
                        },
                    );
                },
            }
        }
    }

    fn byte_string(&mut self, start: usize) -> (r: Result<Token, Error>)
        requires
            old(self).wf(),
            start == old(self)@.pos,
            start < old(self)@.chars.len(),
        ensures
            final(self).wf(),
            final(self)@.chars == old(self)@.chars,
            r is Ok ==> final(self)@.pos > old(self)@.pos,
            (token_result_view(r), final(self)@.pos as int) == lex_byte_string(
                old(self)@.chars,
                start as int,
            ),
    {
        let ghost s = self@.chars;
        self.bump();
        let mut value: Vec<char> = Vec::new();
        loop
            invariant_except_break
                lex_byte_chunks(s, self@.pos, start as int, value@) == lex_byte_chunks(
                    s,
                    start + 1,
                    start as int,
                    Seq::empty(),
                ),
            invariant
                self.wf(),
                self@.chars == s,
                s == old(self)@.chars,
                start < self@.pos,
            ensures
                self.wf(),
                self@.chars == s,
                start < self@.pos,
                lex_byte_chunks(s, start + 1, start as int, Seq::empty()) == (
                    Ok::<Seq<char>, ErrorView>(value@),
                    self@.pos as int,
                ),
            decreases self.input.len() - self.pos,
        {
            let ghost p = self@.pos;
            match self.expect_byte_string_chunk(start, &mut value) {
                Ok(()) => {},
                Err(e) => return Err(e),
            }
            let ghost q = self@.pos;
            let sep = self.eat_literal_separator();
            proof {
                lemma_eat_end_bounds(s, q, CharClass::Whitespace);
            }
            if sep && self.peek_char() == Some('\'') {
                continue;
            }
            break;
        }
        if value.len() % 2 != 0 {
            let mut m: Vec<char> = Vec::new();
            push_str(&mut m, "invalid byte string literal '");
            push_range(&mut m, &self.input, start, self.pos);
            push_str(&mut m, "'");
            assert(m@ =~= "invalid byte string literal '"@ + s.subrange(start as int, self@.pos)
                + "'"@);
            return Err(Error::Message { offset: self.offsets[start], message: string_from_chars(&m) });
        }
        Ok(Token::new(TokenKind::ByteString, string_from_chars(&value), self.offsets[start]))
    }

    fn digits_with_underscores(
        &mut self,
        start: usize,
        radix: u32,
        allow_leading_underscore: bool,
        out: &mut Vec<char>,
    ) -> (r: Result<usize, Error>)
        requires
            old(self).wf(),
            start <= old(self)@.pos,
            radix == 2 || radix == 8 || radix == 10 || radix == 16,
        ensures
            final(self).wf(),
            final(self)@.chars == old(self)@.chars,
            final(self)@.pos >= old(self)@.pos,
            (r is Ok && old(self)@.pos < old(self)@.chars.len() && is_digit(
                old(self)@.chars[old(self)@.pos],
                radix,
            )) ==> final(self)@.pos > old(self)@.pos,
            ({
                let (rs, q) = lex_digits(
                    old(self)@.chars,
                    old(self)@.pos,
                    start as int,
                    radix,
                    allow_leading_underscore,
                    false,
                    Seq::empty(),
                );
                &&& final(self)@.pos == q
                &&& match rs {
                    Ok(d) => r matches Ok(n) && n == d.len() && final(out)@ == old(out)@ + d,
                    Err(e) => r matches Err(x) && x@ == e,
                }
            }),
    {
        let ghost s = self@.chars;
        let ghost p0 = self@.pos;
        let ghost mut acc: Seq<char> = Seq::empty();
        let mut digits: usize = 0;
        let mut pending_underscore = false;
        loop
            invariant
                self.wf(),
                self@.chars == s,
                s == old(self)@.chars,
                p0 == old(self)@.pos,
                radix == 2 || radix == 8 || radix == 10 || radix == 16,
                start <= p0 <= self@.pos,
                digits == acc.len(),
                acc.len() <= self@.pos - p0,
                (self@.pos == p0) ==> !pending_underscore && acc.len() == 0,
                out@ == old(out)@ + acc,
                lex_digits(s, self@.pos, start as int, radix, allow_leading_underscore, pending_underscore, acc)
                    == lex_digits(s, p0, start as int, radix, allow_leading_underscore, false, Seq::empty()),
            ensures
                self.wf(),
                self@.chars == s,
                p0 <= self@.pos,
                digits == acc.len(),
                out@ == old(out)@ + acc,
                !(self@.pos < s.len() && is_digit(s[self@.pos], radix)),
                (self@.pos == p0) ==> acc.len() == 0,
                lex_digits(s, p0, start as int, radix, allow_leading_underscore, false, Seq::empty())
                    == (if pending_underscore {
                    (Err::<Seq<char>, ErrorView>(bad_number(s, start as int, self@.pos)), self@.pos as int)
                } else {
                    (Ok::<Seq<char>, ErrorView>(acc), self@.pos as int)
                }),
            decreases self.input.len() - self.pos,
        {
            let c = self.peek_char();
            if c == Some('_') && (allow_leading_underscore || digits > 0) {
                if pending_underscore {
                    self.bump();
                    return Err(
                        Error::BadNumber {
                            offset: self.offsets[start],
                            token_text: string_of_range(&self.input, start, self.pos),
                        },
                    );
                }
                pending_underscore = true;
                self.bump();
            } else {
                let is_d = match c {
                    Some(ch) => char_digit_value(ch, radix).is_some(),
                    None => false,
                };
                if is_d {
                    let ch = self.input[self.pos];
                    out.push(ch);
                    proof {
                        acc = acc.push(ch);
                    }
                    digits += 1;
                    pending_underscore = false;
                    self.bump();
                } else {
                    break;
                }
            }
        }
        if pending_underscore {
            return Err(
                Error::BadNumber {
                    offset: self.offsets[start],
                    token_text: string_of_range(&self.input, start, self.pos),
                },
            );
        }
        Ok(digits)
    }
    fn consume_numeric_suffix(&mut self, kind: TokenKind, start: usize) -> (r: Result<TokenKind, Error>)
        requires
            old(self).wf(),
            start <= old(self)@.pos,
        ensures
            final(self).wf(),
            final(self)@.chars == old(self)@.chars,
            final(self)@.pos >= old(self)@.pos,
            (result_view(r), final(self)@.pos as int) == lex_numeric_suffix(
                old(self)@.chars,
                old(self)@.pos,
                start as int,
                kind,
            ),
    {
        let c = self.peek_char();
        let kind = if c == Some('m') || c == Some('M') || c == Some('f') || c == Some('F') || c == Some(
            'd',
        ) || c == Some('D') {
            self.bump();
            TokenKind::Decimal
        } else {
            kind
        };
        let cont = match self.peek_char() {
            Some(ch) => is_identifier_continue(ch),
            None => false,
        };
        if cont {
            self.bump();
            return Err(
                Error::BadNumber {
                    offset: self.offsets[start],
                    token_text: string_of_range(&self.input, start, self.pos),
                },
            );
        }
        Ok(kind)
    }

    fn radix_integer(&mut self, start: usize, radix: u32) -> (r: Result<Token, Error>)
        requires
            old(self).wf(),
            start == old(self)@.pos,
            start + 1 < old(self)@.chars.len(),
            radix == 2 || radix == 8 || radix == 16,
        ensures
            final(self).wf(),
            final(self)@.chars == old(self)@.chars,
            r is Ok ==> final(self)@.pos > old(self)@.pos,
            (token_result_view(r), final(self)@.pos as int) == lex_radix_integer(
                old(self)@.chars,
                start as int,
                radix,
            ),
    {
        let ghost s = self@.chars;
        self.bump();
        self.bump();
        let mut digits: Vec<char> = Vec::new();
        match self.digits_with_underscores(start, radix, true, &mut digits) {
            Ok(_) => {},
            Err(e) => return Err(e),
        }
        proof {
            lemma_digits_are_digits(s, start + 2, start as int, radix, true, false, Seq::empty());
        }
        let cont = match self.peek_char() {
            Some(ch) => is_identifier_continue(ch),
            None => false,
        };
        if digits.len() == 0 || cont {
            return Err(
                Error::BadNumber {
                    offset: self.offsets[start],
                    token_text: string_of_range(&self.input, start, self.pos),
                },
            );
        }
        let mut value: u128 = 0;
        let mut i: usize = 0;
        let ghost q = self@.pos;
        assert(digits@.take(0) =~= Seq::<char>::empty());
        while i < digits.len()
            invariant
                self.wf(),
                self@.chars == s,
                s == old(self)@.chars,
                self@.pos == q,
                start < q,
                lex_digits(s, start + 2, start as int, radix, true, false, Seq::empty()) == (
                    Ok::<Seq<char>, ErrorView>(digits@),
                    q,
                ),
                radix == 2 || radix == 8 || radix == 16,
                i <= digits.len(),
                all_digits(digits@, radix),
                value == digits_value(digits@.take(i as int), radix),
                value <= 0x7fff_ffff_ffff_ffff,
            decreases digits.len() - i,
        {
            let dv = match char_digit_value(digits[i], radix) {
                Some(v) => v,
                None => 0,
            };
            assert(is_digit(digits@[i as int], radix));
            assert(digits@.take(i + 1).drop_last() =~= digits@.take(i as int));
            assert(value * (radix as u128) <= 16 * 0x7fff_ffff_ffff_ffff) by (nonlinear_arith)
                requires
                    value <= 0x7fff_ffff_ffff_ffff,
                    radix <= 16,
            ;
            value = value * (radix as u128) + (dv as u128);
            i += 1;
            if value > 0x7fff_ffff_ffff_ffff {
                proof {
                    lemma_digits_value_mono(digits@, radix, i as int, digits.len() as int);
                    assert(digits@.take(digits.len() as int) =~= digits@);
                }
                return Err(
                    Error::BadNumber {
                        offset: self.offsets[start],
                        token_text: string_of_range(&self.input, start, self.pos),
                    },
                );
            }
        }
        assert(digits@.take(digits.len() as int) =~= digits@);
        let text = decimal_chars(value as u64);
        Ok(Token::new(TokenKind::Integer, string_from_chars(&text), self.offsets[start]))
    }
    fn number(&mut self, start: usize) -> (r: Result<Token, Error>)
        requires
            old(self).wf(),
            start == old(self)@.pos,
            start < old(self)@.chars.len(),
            is_ascii_digit(old(self)@.chars[start as int]) || (old(self)@.chars[start as int] == '.'
                && start + 1 < old(self)@.chars.len() && is_ascii_digit(
                old(self)@.chars[start + 1],
            )),
        ensures
            final(self).wf(),
            final(self)@.chars == old(self)@.chars,
            r is Ok ==> final(self)@.pos > old(self)@.pos,
            (token_result_view(r), final(self)@.pos as int) == lex_number(
                old(self)@.chars,
                start as int,
            ),
    {
        let ghost s = self@.chars;
        if self.peek_char() == Some('.') {
            let mut text: Vec<char> = Vec::new();
            text.push('.');
            self.bump();
            match self.digits_with_underscores(start, 10, false, &mut text) {
                Ok(_) => {},
                Err(e) => return Err(e),
            }
            let kind = match self.consume_numeric_suffix(TokenKind::Decimal, start) {
                Ok(k) => k,
                Err(e) => return Err(e),
            };
            return Ok(Token::new(kind, string_from_chars(&text), self.offsets[start]));
        }
        if self.peek_char() == Some('0') {
            let n = self.peek_next_char();
            if n == Some('x') || n == Some('X') {
                return self.radix_integer(start, 16);
            }
            if n == Some('o') || n == Some('O') {
                return self.radix_integer(start, 8);
            }
            if n == Some('b') || n == Some('B') {
                return self.radix_integer(start, 2);
            }
        }
        let mut text: Vec<char> = Vec::new();
        match self.digits_with_underscores(start, 10, false, &mut text) {
            Ok(_) => {},
            Err(e) => return Err(e),
        }
        let ghost d = text@;
        let ghost p = self@.pos;
        let mut kind = TokenKind::Integer;
        let next_blocks = match self.peek_next_char() {
            Some(ch) => is_identifier_start(ch) || ch == '.',
            None => false,
        };
        if self.peek_char() == Some('.') && !next_blocks {
            kind = TokenKind::Decimal;
            self.bump();
            text.push('.');
            let digit_follows = match self.peek_char() {
                Some(ch) => '0' <= ch && ch <= '9',
                None => false,
            };
            if digit_follows {
                match self.digits_with_underscores(start, 10, false, &mut text) {
                    Ok(_) => {},
                    Err(e) => return Err(e),
                }
            }
        }
        let ghost text0 = text@;
        let ghost p2 = self@.pos;
        let ghost kind0 = kind;
        assert(lex_decimal_number(s, start as int) == lex_exponent(s, p2, start as int, text0, kind0));
        let c = self.peek_char();
        if c == Some('e') || c == Some('E') {
            kind = TokenKind::Decimal;
            self.bump();
            text.push('e');
            let sign = self.peek_char();
            if sign == Some('+') || sign == Some('-') {
                match self.bump() {
                    Some(ch) => text.push(ch),
                    None => {},
                }
            }
            let exp_start = self.pos;
            match self.digits_with_underscores(start, 10, false, &mut text) {
                Ok(_) => {},
                Err(e) => return Err(e),
            }
            if exp_start == self.pos {
                return Err(
                    Error::BadNumber {
                        offset: self.offsets[start],
                        token_text: string_of_range(&self.input, start, self.pos),
                    },
                );
            }
        }
        let ghost text1 = text@;
        let ghost p3 = self@.pos;
        assert(lex_exponent(s, p2, start as int, text0, kind0) == lex_number_end(
            s,
            p3,
            start as int,
            text1,
            kind,
        ));
        kind = match self.consume_numeric_suffix(kind, start) {
            Ok(k) => k,
            Err(e) => return Err(e),
        };
        if self.peek_char() == Some('_') {
            self.bump();
            return Err(
                Error::BadNumber {
                    offset: self.offsets[start],
                    token_text: string_of_range(&self.input, start, self.pos),
                },
            );
        }
        Ok(Token::new(kind, string_from_chars(&text), self.offsets[start]))
    }

    fn parameter(&mut self, start: usize) -> (r: Result<Token, Error>)
        requires
            old(self).wf(),
            start == old(self)@.pos,
            start < old(self)@.chars.len(),
        ensures
            final(self).wf(),
            final(self)@.chars == old(self)@.chars,
            r is Ok ==> final(self)@.pos > old(self)@.pos,
            (token_result_view(r), final(self)@.pos as int) == lex_parameter(
                old(self)@.chars,
                start as int,
            ),
    {
        self.bump();
        let a = self.peek_char();
        let b = self.peek_next_char();
        if a == Some('@') && (b == Some('"') || b == Some('`')) {
            self.bump();
            let quote = match self.peek_char() {
                Some(q) => q,
                None => '"',
            };
            let value = match self.quoted_sequence(start, quote, false) {
                Ok(v) => v,
                Err(e) => return Err(e),
            };
            return Ok(Token::new(TokenKind::Parameter, value, self.offsets[start]));
        }
        if a == Some('"') || a == Some('`') {
            let quote = match a {
                Some(q) => q,
                None => '"',
            };
            let value = match self.quoted_sequence(start, quote, true) {
                Ok(v) => v,
                Err(e) => return Err(e),
            };
            return Ok(Token::new(TokenKind::Parameter, value, self.offsets[start]));
        }
        let cont = match a {
            Some(ch) => is_identifier_continue(ch),
            None => false,
        };
        if cont {
            self.eat_while(CharClass::IdentifierContinue);
            proof {
                lemma_eat_end_bounds(self@.chars, start + 1, CharClass::IdentifierContinue);
            }
            return Ok(self.token_from(TokenKind::Parameter, start));
        }
        Err(Error::UnrecognizedToken { offset: self.offsets[start], token_text: "$".to_owned() })
    }

    fn identifier(&mut self, start: usize) -> (t: Token)
        requires
            old(self).wf(),
            start == old(self)@.pos,
            start < old(self)@.chars.len(),
            spec_is_identifier_start(old(self)@.chars[start as int]),
        ensures
            final(self).wf(),
            final(self)@.chars == old(self)@.chars,
            final(self)@.pos > old(self)@.pos,
            final(self)@.pos == lex_eat_end(old(self)@.chars, start as int, CharClass::IdentifierContinue),
            t@ == token_between(
                old(self)@.chars,
                spec_keyword_or_identifier(old(self)@.chars.subrange(start as int, final(self)@.pos)),
                start as int,
                final(self)@.pos,
            ),
    {
        // The first character starts an identifier, so it continues one too.
        let first_continues = is_identifier_continue(self.input[start]);
        self.eat_while(CharClass::IdentifierContinue);
        proof {
            lemma_eat_end_bounds(self@.chars, start as int, CharClass::IdentifierContinue);
        }
        let mut text: Vec<char> = Vec::new();
        push_range(&mut text, &self.input, start, self.pos);
        assert(text@ =~= self@.chars.subrange(start as int, self@.pos));
        let kind = keyword_or_identifier(&text);
        Token::new(kind, string_from_chars(&text), self.offsets[start])
    }
    /// Reads the next token: `None` at the end of the input, else the token or the error
    /// found at the current position.
    pub fn next(&mut self) -> (r: Option<Result<Token, Error>>)
        requires
            old(self).wf(),
        ensures
            final(self).wf(),
            final(self)@.chars == old(self)@.chars,
            (step_view(r), final(self)@.pos as int) == lex_next(old(self)@.chars, old(self)@.pos),
            r matches Some(Ok(_)) ==> final(self)@.pos > old(self)@.pos,
            final(self)@.pos <= final(self)@.chars.len(),
    {
        proof {
            reveal(lex_next);
        }
        match self.skip_ws_and_comments() {
            Ok(()) => {},
            Err(err) => return Some(Err(err)),
        }
        let start = self.pos;
        let ch = match self.peek_char() {
            Some(c) => c,
            None => return None,
        };
        let next = self.peek_next_char();
        let next_is_digit = match next {
            Some(c) => '0' <= c && c <= '9',
            None => false,
        };
        let token = if ch == '(' {
            self.bump();
            Ok(self.token_from(TokenKind::LParen, start))
        } else if ch == ')' {
            self.bump();
            Ok(self.token_from(TokenKind::RParen, start))
        } else if ch == '[' {
            self.bump();
            Ok(self.token_from(TokenKind::LBracket, start))
        } else if ch == ']' {
            self.bump();
            Ok(self.token_from(TokenKind::RBracket, start))
        } else if ch == '{' {
            self.bump();
            Ok(self.token_from(TokenKind::LBrace, start))
        } else if ch == '}' {
            self.bump();
            Ok(self.token_from(TokenKind::RBrace, start))
        } else if ch == ',' {
            self.bump();
            Ok(self.token_from(TokenKind::Comma, start))
        } else if ch == ':' && next == Some(':') {
            self.bump();
            self.bump();
            Ok(self.token_from(TokenKind::DoubleColon, start))
        } else if ch == ':' {
            self.bump();
            Ok(self.token_from(TokenKind::Colon, start))
        } else if ch == ';' {
            self.bump();
            Ok(self.token_from(TokenKind::Semicolon, start))
        } else if ch == '.' && next_is_digit {
            self.number(start)
        } else if ch == '.' {
            self.bump();
            Ok(self.token_from(TokenKind::Dot, start))
        } else if ch == '+' {
            self.bump();
            Ok(self.token_from(TokenKind::Plus, start))
        } else if ch == '?' {
            self.bump();
            Ok(self.token_from(TokenKind::Question, start))
        } else if ch == '*' {
            self.bump();
            Ok(self.token_from(TokenKind::Star, start))
        } else if ch == '/' {
            self.bump();
            Ok(self.token_from(TokenKind::Slash, start))
        } else if ch == '%' {
            self.bump();
            Ok(self.token_from(TokenKind::Percent, start))
        } else if ch == '|' && next == Some('|') {
            self.bump();
            self.bump();
            Ok(self.token_from(TokenKind::DoublePipe, start))
        } else if ch == '|' {
            self.bump();
            Ok(self.token_from(TokenKind::Pipe, start))
        } else if ch == '&' {
            self.bump();
            Ok(self.token_from(TokenKind::Ampersand, start))
        } else if ch == '~' {
            self.bump();
            Ok(self.token_from(TokenKind::Tilde, start))
        } else if ch == '=' {
            self.bump();
            Ok(self.token_from(TokenKind::Eq, start))
        } else if ch == '!' && next == Some('=') {
            self.bump();
            self.bump();
            Ok(self.token_from(TokenKind::Neq, start))
        } else if ch == '!' {
            self.bump();
            Ok(self.token_from(TokenKind::Bang, start))
        } else if ch == '<' && next == Some('=') {
            self.bump();
            self.bump();
            Ok(self.token_from(TokenKind::Le, start))
        } else if ch == '<' && next == Some('>') {
            self.bump();
            self.bump();
            Ok(self.token_from(TokenKind::Neq, start))
        } else if ch == '<' && next == Some('-') {
            self.bump();
            self.bump();
            Ok(self.token_from(TokenKind::ArrowLeft, start))
        } else if ch == '<' {
            self.bump();
            Ok(self.token_from(TokenKind::Lt, start))
        } else if ch == '>' && next == Some('=') {
            self.bump();
            self.bump();
            Ok(self.token_from(TokenKind::Ge, start))
        } else if ch == '>' {
            self.bump();
            Ok(self.token_from(TokenKind::Gt, start))
        } else if ch == '-' && next == Some('>') {
            self.bump();
            self.bump();
            Ok(self.token_from(TokenKind::ArrowRight, start))
        } else if ch == '-' {
            self.bump();
            Ok(self.token_from(TokenKind::Minus, start))
        } else if ch == '\'' {
            self.string(start)
        } else if ch == '"' || ch == '`' {
            self.quoted_identifier(start, ch)
        } else if ch == '@' && next == Some('\'') {
            self.string_no_escape(start)
        } else if ch == '@' && (next == Some('"') || next == Some('`')) {
            self.quoted_identifier_no_escape(start)
        } else if ch == '$' {
            self.parameter(start)
        } else if '0' <= ch && ch <= '9' {
            self.number(start)
        } else if (ch == 'X' || ch == 'x') && next == Some('\'') {
            self.byte_string(start)
        } else if is_identifier_start(ch) {
            Ok(self.identifier(start))
        } else {
            self.bump();
            let mut t: Vec<char> = Vec::new();
            t.push(ch);
            Err(Error::UnrecognizedToken { offset: self.offsets[start], token_text: string_from_chars(&t) })
        };
        Some(token)
    }
}

} // verus!
