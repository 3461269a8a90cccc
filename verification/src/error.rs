use vstd::prelude::*;
use crate::token::{kind_name, TokenKind};
use crate::text::{decimal_chars, decimal_text, push_range, push_str, string_from_chars};

verus! {

/// What went wrong while reading or parsing a program.
#[derive(Clone, Debug, PartialEq, Eq)]
pub enum Error {
    UnrecognizedToken { offset: usize, token_text: String },
    UnterminatedString { offset: usize, token_text: String },
    UnterminatedBlockComment { offset: usize, token_text: String },
    BadNumber { offset: usize, token_text: String },
    UnexpectedEof,
    UnexpectedToken { offset: usize, expected: Vec<TokenKind>, got: TokenKind, token_text: String },
    Message { offset: usize, message: String },
}

/// The mathematical value of an [`Error`]: its strings as character sequences.
pub enum ErrorView {
    UnrecognizedToken { offset: int, token_text: Seq<char> },
    UnterminatedString { offset: int, token_text: Seq<char> },
    UnterminatedBlockComment { offset: int, token_text: Seq<char> },
    BadNumber { offset: int, token_text: Seq<char> },
    UnexpectedEof,
    UnexpectedToken { offset: int, expected: Seq<TokenKind>, got: TokenKind, token_text: Seq<char> },
    Message { offset: int, message: Seq<char> },
}

impl View for Error {
    type V = ErrorView;

    open spec fn view(&self) -> ErrorView {
        match self {
            Error::UnrecognizedToken { offset, token_text } => ErrorView::UnrecognizedToken {
                offset: *offset as int,
                token_text: token_text@,
            },
            Error::UnterminatedString { offset, token_text } => ErrorView::UnterminatedString {
                offset: *offset as int,
                token_text: token_text@,
            },
            Error::UnterminatedBlockComment { offset, token_text } =>
                ErrorView::UnterminatedBlockComment { offset: *offset as int, token_text: token_text@ },
            Error::BadNumber { offset, token_text } => ErrorView::BadNumber {
                offset: *offset as int,
                token_text: token_text@,
            },
            Error::UnexpectedEof => ErrorView::UnexpectedEof,
            Error::UnexpectedToken { offset, expected, got, token_text } =>
                ErrorView::UnexpectedToken {
                    offset: *offset as int,
                    expected: expected@,
                    got: *got,
                    token_text: token_text@,
                },
            Error::Message { offset, message } => ErrorView::Message {
                offset: *offset as int,
                message: message@,
            },
        }
    }
}

impl Error {
    /// The error for a token of kind `got` where one of `expected` was wanted.
    pub fn expected(offset: usize, expected: Vec<TokenKind>, got: TokenKind, token_text: String) -> (e: Error)
        ensures
            e@ == (ErrorView::UnexpectedToken {
                offset: offset as int,
                expected: expected@,
                got,
                token_text: token_text@,
            }),
    {
        Error::UnexpectedToken { offset, expected, got, token_text }
    }

    /// A copy of this error.
    pub fn duplicate(&self) -> (e: Error)
        ensures
            e@ == self@,
    {
        match self {
            Error::UnrecognizedToken { offset, token_text } => Error::UnrecognizedToken {
                offset: *offset,
                token_text: token_text.clone(),
            },
            Error::UnterminatedString { offset, token_text } => Error::UnterminatedString {
                offset: *offset,
                token_text: token_text.clone(),
            },
            Error::UnterminatedBlockComment { offset, token_text } =>
                Error::UnterminatedBlockComment { offset: *offset, token_text: token_text.clone() },
            Error::BadNumber { offset, token_text } => Error::BadNumber {
                offset: *offset,
                token_text: token_text.clone(),
            },
            Error::UnexpectedEof => Error::UnexpectedEof,
            Error::UnexpectedToken { offset, expected, got, token_text } => {
                let mut v: Vec<TokenKind> = Vec::new();
                let mut i: usize = 0;
                while i < expected.len()
                    invariant
                        i <= expected.len(),
                        v@ == expected@.take(i as int),
                    decreases expected.len() - i,
                {
                    v.push(expected[i]);
                    i += 1;
                    assert(v@ =~= expected@.take(i as int));
                }
                assert(expected@.take(expected.len() as int) =~= expected@);
                Error::UnexpectedToken {
                    offset: *offset,
                    expected: v,
                    got: *got,
                    token_text: token_text.clone(),
                }
            },
            Error::Message { offset, message } => Error::Message {
                offset: *offset,
                message: message.clone(),
            },
        }
    }
}

/// The names of token kinds, separated by commas.
pub open spec fn kind_names(ks: Seq<TokenKind>) -> Seq<char>
    decreases ks.len(),
{
    if ks.len() == 0 {
        Seq::empty()
    } else if ks.len() == 1 {
        kind_name(ks[0])
    } else {
        kind_names(ks.drop_last()) + ", "@ + kind_name(ks.last())
    }
}

/// The text of an error, as the `Display` form of the error writes it.
pub open spec fn error_message(e: ErrorView) -> Seq<char> {
    match e {
        ErrorView::UnrecognizedToken { offset, token_text } => "unrecognized token '"@ + token_text
            + "' at offset "@ + decimal_text(offset as nat),
        ErrorView::UnterminatedString { offset, token_text } => "unterminated string '"@ + token_text
            + "' at offset "@ + decimal_text(offset as nat),
        ErrorView::UnterminatedBlockComment { offset, token_text } => "unterminated block comment '"@
            + token_text + "' at offset "@ + decimal_text(offset as nat),
        ErrorView::BadNumber { offset, token_text } => "bad number '"@ + token_text
            + "' at offset "@ + decimal_text(offset as nat),
        ErrorView::UnexpectedEof => "incomplete input"@,
        ErrorView::UnexpectedToken { offset, expected, got, token_text } => "near '"@ + token_text
            + "' at offset "@ + decimal_text(offset as nat) + ": expected ["@ + kind_names(expected)
            + "], got "@ + kind_name(got),
        ErrorView::Message { offset, message } => message + " at offset "@ + decimal_text(
            offset as nat,
        ),
    }
}

/// Appends the decimal notation of `n` to `v`.
fn push_decimal(v: &mut Vec<char>, n: usize)
    ensures
        final(v)@ == old(v)@ + decimal_text(n as nat),
{
    let d = decimal_chars(n as u64);
    push_range(v, &d, 0, d.len());
    assert(d@.subrange(0, d@.len() as int) =~= d@);
}

/// Appends the names of `kinds`, separated by commas, to `v`.
fn push_kind_names(v: &mut Vec<char>, kinds: &Vec<TokenKind>)
    ensures
        final(v)@ == old(v)@ + kind_names(kinds@),
{
    let mut i: usize = 0;
    while i < kinds.len()
        invariant
            i <= kinds.len(),
            v@ == old(v)@ + kind_names(kinds@.take(i as int)),
        decreases kinds.len() - i,
    {
        assert(kinds@.take(i + 1).drop_last() =~= kinds@.take(i as int));
        if i > 0 {
            push_str(v, ", ");
        }
        push_str(v, kinds[i].name());
        i += 1;
        assert(v@ =~= old(v)@ + kind_names(kinds@.take(i as int)));
    }
    assert(kinds@.take(kinds.len() as int) =~= kinds@);
}

impl Error {
    /// The text of this error: what went wrong, and where.
    pub fn message(&self) -> (s: String)
        ensures
            s@ == error_message(self@),
    {
        let mut m: Vec<char> = Vec::new();
        match self {
            Error::UnrecognizedToken { offset, token_text } => {
                push_str(&mut m, "unrecognized token '");
                push_str(&mut m, token_text.as_str());
                push_str(&mut m, "' at offset ");
                push_decimal(&mut m, *offset);
            },
            Error::UnterminatedString { offset, token_text } => {
                push_str(&mut m, "unterminated string '");
                push_str(&mut m, token_text.as_str());
                push_str(&mut m, "' at offset ");
                push_decimal(&mut m, *offset);
            },
            Error::UnterminatedBlockComment { offset, token_text } => {
                push_str(&mut m, "unterminated block comment '");
                push_str(&mut m, token_text.as_str());
                push_str(&mut m, "' at offset ");
                push_decimal(&mut m, *offset);
            },
            Error::BadNumber { offset, token_text } => {
                push_str(&mut m, "bad number '");
                push_str(&mut m, token_text.as_str());
                push_str(&mut m, "' at offset ");
                push_decimal(&mut m, *offset);
            },
            Error::UnexpectedEof => {
                push_str(&mut m, "incomplete input");
            },
            Error::UnexpectedToken { offset, expected, got, token_text } => {
                push_str(&mut m, "near '");
                push_str(&mut m, token_text.as_str());
                push_str(&mut m, "' at offset ");
                push_decimal(&mut m, *offset);
                push_str(&mut m, ": expected [");
                push_kind_names(&mut m, expected);
                push_str(&mut m, "], got ");
                push_str(&mut m, got.name());
            },
            Error::Message { offset, message } => {
                push_str(&mut m, message.as_str());
                push_str(&mut m, " at offset ");
                push_decimal(&mut m, *offset);
            },
        }
        proof {
            assert(Seq::<char>::empty() + "incomplete input"@ =~= "incomplete input"@);
        }
        string_from_chars(&m)
    }
}

} // verus!
