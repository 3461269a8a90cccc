use vstd::prelude::*;
use crate::ast::{
    count_view, prefix_view, PathMode, PathOrPaths, PathPatternPrefix, PathPatternQuantifier,
    PathSearchPrefix, UnsignedIntegerSpecification,
    identifiers_view, BindingTableName, CatalogNameView, GraphName, GraphTypeName,
    GraphTypeReference, ProcedureName, ProcedureReference, SchemaName, SchemaReference,
    CommitStatement, Identifier, RollbackStatement, SessionResetCommand, SessionResetTarget,
    StartTransactionStatement, TransactionAccessMode, LabelExpression,
};
use crate::grammar::{
    u64_from_text, strip_plus, all_ascii_digits, u64_literal_step, not_positive_err, positive_u64_literal_step,
    optional_unsigned_integer_step, unsigned_integer_step, path_mode_step, path_or_paths_step,
    path_search_prefix_step, path_mode_prefix_step, path_pattern_prefix_step,
    required_path_pattern_prefix_step, path_quantifier_step, label_expression_step, label_or_rest,
    label_and_step, label_and_rest, label_unary_step,
    catalog_name_step, name_anchor_step, name_parts_rest, parent_levels_step, parent_schema_step,
    property_graph_prefix_step, reference_step, schema_reference_step, typed_marker_step,
    commit_step, identifier_step, if_exists_step, if_not_exists_step, parameter_name_step,
    rollback_step, session_reset_step, start_transaction_step,
};
use crate::kinds::{is_identifier_like, is_schema_reference_follow};
use crate::text::trim_dollar_prefix;
use crate::error::{Error, ErrorView};
use crate::lexer::{digits_value, lex_next, step_view, Lexer};
use crate::chars::is_ascii_digit;
use crate::text::{chars_of, chars_eq_ignore_ascii_case, push_str, string_from_chars};
use crate::type_grammar::{identifier_word_step, word_at, words_at};
use crate::clause_grammar::program_at_schema_step;
use crate::text::{byte_len, str_byte_len};
use crate::token::{Token, TokenKind, TokenView};

verus! {

/// The tokens of `s` from character position `i`, and the error that stopped the lexer, if
/// one did.
pub open spec fn lex_from(s: Seq<char>, i: int) -> (Seq<TokenView>, Option<ErrorView>)
    decreases s.len() - i,
{
    let (r, q) = lex_next(s, i);
    match r {
        None => (Seq::empty(), None),
        Some(Err(e)) => (Seq::empty(), Some(e)),
        Some(Ok(t)) => if i < q <= s.len() {
            let rest = lex_from(s, q);
            (seq![t] + rest.0, rest.1)
        } else {
            (seq![t], None)
        },
    }
}

/// The token that marks the end of the input `s`.
pub open spec fn eof_token(s: Seq<char>) -> TokenView {
    TokenView { kind: TokenKind::Eof, text: Seq::empty(), offset: byte_len(s) as int }
}

/// The mathematical value of a [`Parser`]: its tokens, the position of the next one, and
/// the error that stopped the lexer, if one did.
pub struct ParserView {
    pub input: InputView,
    pub pos: int,
}

/// The tokens of a parser and the error that stopped the lexer, if one did.
pub struct InputView {
    pub tokens: Seq<TokenView>,
    pub lexer_error: Option<ErrorView>,
}

/// The token at position `p`.
pub open spec fn tok(v: InputView, p: int) -> TokenView {
    v.tokens[p]
}

/// The kind of the token at position `p`.
pub open spec fn kind_at(v: InputView, p: int) -> TokenKind {
    v.tokens[p].kind
}

/// The kind of the token `n` places after `p`, if there is one.
pub open spec fn kind_ahead(v: InputView, p: int, n: int) -> Option<TokenKind> {
    if 0 <= p + n < v.tokens.len() {
        Some(v.tokens[p + n].kind)
    } else {
        None
    }
}

/// The position after the token at `p`; the end of the input is never passed.
pub open spec fn next_pos(v: InputView, p: int) -> int {
    if kind_at(v, p) == TokenKind::Eof {
        p
    } else {
        p + 1
    }
}

/// The error for input that ends too early: the lexer's error, if it stopped on one.
pub open spec fn eof_err(v: InputView) -> ErrorView {
    match v.lexer_error {
        Some(e) => e,
        None => ErrorView::UnexpectedEof,
    }
}

/// The error for the token at `p`, of kind `got`, where one of `expected` was wanted; at
/// the end of the input it is the lexer's error, if it stopped on one.
pub open spec fn expected_err(v: InputView, p: int, expected: Seq<TokenKind>, got: TokenKind) -> ErrorView {
    if got == TokenKind::Eof && v.lexer_error is Some {
        v.lexer_error->0
    } else {
        ErrorView::UnexpectedToken {
            offset: tok(v, p).offset,
            expected,
            got,
            token_text: tok(v, p).text,
        }
    }
}

/// Reading a token of kind `k` at `p`.
pub open spec fn expect_step(v: InputView, p: int, k: TokenKind) -> (Result<TokenView, ErrorView>, int) {
    if kind_at(v, p) == k {
        (Ok(tok(v, p)), next_pos(v, p))
    } else if kind_at(v, p) == TokenKind::Eof {
        (Err(eof_err(v)), p)
    } else {
        (
            Err(
                ErrorView::UnexpectedToken {
                    offset: tok(v, p).offset,
                    expected: seq![k],
                    got: kind_at(v, p),
                    token_text: tok(v, p).text,
                },
            ),
            p,
        )
    }
}

/// Reading a token of kind `k` at `p` if there is one.
pub open spec fn eat_step(v: InputView, p: int, k: TokenKind) -> (Option<TokenView>, int) {
    if kind_at(v, p) == k {
        (Some(tok(v, p)), next_pos(v, p))
    } else {
        (None, p)
    }
}

/// The position after the run of tokens of kind `k` that starts at `p`.
pub open spec fn skip_all(v: InputView, p: int, k: TokenKind) -> int
    decreases v.tokens.len() - p,
{
    if 0 <= p < v.tokens.len() && kind_at(v, p) == k && k != TokenKind::Eof {
        skip_all(v, p + 1, k)
    } else {
        p
    }
}

/// Whether `p` is a position in the tokens of `v`, which end with the end of the input.
pub open spec fn valid_pos(v: InputView, p: int) -> bool {
    &&& 0 <= p < v.tokens.len()
    &&& v.tokens.last().kind == TokenKind::Eof
}

/// The view of each token of a sequence.
pub open spec fn token_views(ts: Seq<Token>) -> Seq<TokenView> {
    ts.map_values(|t: Token| t@)
}

/// Two parser states over the same tokens and lexer error.
pub open spec fn same_input(a: ParserView, b: ParserView) -> bool {
    a.input == b.input
}

/// The mathematical value of a result whose value has a view.
pub open spec fn rview<T: View>(r: Result<T, Error>) -> Result<T::V, ErrorView> {
    match r {
        Ok(v) => Ok(v@),
        Err(e) => Err(e@),
    }
}

/// The mathematical value of a result whose value is its own mathematical value.
pub open spec fn rplain<T>(r: Result<T, Error>) -> Result<T, ErrorView> {
    match r {
        Ok(v) => Ok(v),
        Err(e) => Err(e@),
    }
}

/// The mathematical value of the parts of a catalog name.
pub open spec fn name_parts_view(t: (bool, bool, bool, usize, Vec<Identifier>)) -> CatalogNameView {
    CatalogNameView {
        absolute: t.0,
        current_schema: t.1,
        home_schema: t.2,
        parent_levels: t.3 as int,
        parts: identifiers_view(t.4@),
    }
}

/// Reads a decimal numeral into a `u64`, as `u64::from_str` does.
pub(crate) fn parse_u64_text(text: &String) -> (r: Option<u64>)
    ensures
        r == u64_from_text(text@),
{
    let v = chars_of(text.as_str());
    let mut i: usize = 0;
    if v.len() > 0 && v[0] == '+' {
        i = 1;
    }
    let ghost d = strip_plus(v@);
    assert(d =~= v@.skip(i as int));
    if i >= v.len() {
        return None;
    }
    let mut value: u128 = 0;
    let start = i;
    assert(d.take(0) =~= Seq::<char>::empty());
    while i < v.len()
        invariant
            start <= i <= v.len(),
            start < v.len(),
            d =~= v@.skip(start as int),
            v@ == text@,
            d == strip_plus(v@),
            forall|j: int| 0 <= j < i - start ==> #[trigger] is_ascii_digit(d[j]),
            value == digits_value(d.take(i - start), 10),
            value <= u64::MAX,
        decreases v.len() - i,
    {
        let c = v[i];
        if !('0' <= c && c <= '9') {
            proof {
                let k = i - start;
                assert(d[k] == c);
                assert(!is_ascii_digit(d[k]));
                assert(!all_ascii_digits(d));
            }
            return None;
        }
        assert(d.take(i - start + 1).drop_last() =~= d.take(i - start));
        value = value * 10 + (c as u32 - 48) as u128;
        if value > 0xffff_ffff_ffff_ffff {
            proof {
                crate::lexer::lemma_digits_value_mono(d, 10, i - start + 1, d.len() as int);
                assert(d.take(d.len() as int) =~= d);
            }
            return None;
        }
        i += 1;
    }
    assert(d.take(d.len() as int) =~= d);
    Some(value as u64)
}

/// A recursive-descent parser over the tokens of one input.
pub struct Parser {
    tokens: Vec<Token>,
    pos: usize,
    lexer_error: Option<Error>,
}

impl View for Parser {
    type V = ParserView;

    closed spec fn view(&self) -> ParserView {
        ParserView {
            input: InputView {
                tokens: token_views(self.tokens@),
                lexer_error: match self.lexer_error {
                    Some(e) => Some(e@),
                    None => None,
                },
            },
            pos: self.pos as int,
        }
    }
}

impl Parser {
    /// The parser's tokens end with the end of the input, and its position is one of them.
    pub closed spec fn wf(&self) -> bool {
        &&& self.tokens.len() > 0
        &&& self.tokens@.last().kind == TokenKind::Eof
        &&& self.pos < self.tokens.len()
    }

    /// A parser over the tokens of `input`: every token up to the end of the input or the
    /// first lexical error, followed by the end-of-input token.
    pub fn new(input: &str) -> (p: Parser)
        ensures
            p.wf(),
            p@.pos == 0,
            p@.input.tokens == lex_from(input@, 0).0.push(eof_token(input@)),
            p@.input.lexer_error == lex_from(input@, 0).1,
    {
        let ghost s = input@;
        let mut lexer = Lexer::new(input);
        let mut tokens: Vec<Token> = Vec::new();
        let mut lexer_error: Option<Error> = None;
        loop
            invariant_except_break
                0 <= lexer@.pos <= s.len(),
                lexer_error is None,
                lex_from(s, 0) == (
                    token_views(tokens@) + lex_from(s, lexer@.pos).0,
                    lex_from(s, lexer@.pos).1,
                ),
            invariant
                lexer.wf(),
                lexer@.chars == s,
            ensures
                lex_from(s, 0) == (
                    token_views(tokens@),
                    match lexer_error {
                        Some(e) => Some(e@),
                        None => None,
                    },
                ),
            decreases s.len() - lexer@.pos,
        {
            let ghost i = lexer@.pos;
            match lexer.next() {
                Some(Ok(token)) => {
                    proof {
                        assert(token_views(tokens@.push(token)) =~= token_views(tokens@) + seq![
                            token@,
                        ]);
                    }
                    tokens.push(token);
                    proof {
                        assert(token_views(tokens@) + lex_from(s, lexer@.pos).0 =~= token_views(
                            tokens@.drop_last(),
                        ) + (seq![tokens@.last()@] + lex_from(s, lexer@.pos).0));
                    }
                },
                Some(Err(err)) => {
                    lexer_error = Some(err);
                    proof {
                        assert(token_views(tokens@) + Seq::<TokenView>::empty() =~= token_views(
                            tokens@,
                        ));
                    }
                    break;
                },
                None => {
                    proof {
                        assert(token_views(tokens@) + Seq::<TokenView>::empty() =~= token_views(
                            tokens@,
                        ));
                    }
                    break;
                },
            }
        }
        let ghost before = tokens@;
        tokens.push(Token::new(TokenKind::Eof, String::new(), str_byte_len(input)));
        proof {
            assert(token_views(tokens@) =~= token_views(before).push(eof_token(s)));
        }
        Parser { tokens, pos: 0, lexer_error }
    }
    pub(crate) fn peek(&self) -> (t: &Token)
        requires
            self.wf(),
        ensures
            t@ == tok(self@.input, self@.pos),
    {
        &self.tokens[self.pos]
    }

    /// The error that stopped the lexer, if one did.
    pub(crate) fn take_lexer_error(self) -> (e: Option<Error>)
        ensures
            match e {
                Some(x) => self@.input.lexer_error == Some(x@),
                None => self@.input.lexer_error is None,
            },
    {
        self.lexer_error
    }

    pub(crate) fn position(&self) -> (n: usize)
        ensures
            n == self@.pos,
    {
        self.pos
    }

    pub(crate) fn peek_kind(&self) -> (k: TokenKind)
        requires
            self.wf(),
        ensures
            k == kind_at(self@.input, self@.pos),
    {
        self.peek().kind
    }

    pub(crate) fn peek_n_kind(&self, n: usize) -> (k: Option<TokenKind>)
        requires
            self.wf(),
        ensures
            k == kind_ahead(self@.input, self@.pos, n as int),
    {
        if n < self.tokens.len() - self.pos {
            Some(self.tokens[self.pos + n].kind)
        } else {
            None
        }
    }

    pub(crate) fn at(&self, kind: TokenKind) -> (r: bool)
        requires
            self.wf(),
        ensures
            r == (kind_at(self@.input, self@.pos) == kind),
    {
        self.peek_kind() == kind
    }

    /// Goes back to the token at `start`.
    pub(crate) fn rewind(&mut self, start: usize)
        requires
            old(self).wf(),
            start < old(self)@.input.tokens.len(),
        ensures
            final(self).wf(),
            same_input(final(self)@, old(self)@),
            final(self)@.pos == start,
    {
        self.pos = start;
    }

    pub(crate) fn bump(&mut self) -> (t: Token)
        requires
            old(self).wf(),
        ensures
            final(self).wf(),
            same_input(final(self)@, old(self)@),
            old(self)@.pos <= final(self)@.pos,
            t@ == tok(old(self)@.input, old(self)@.pos),
            final(self)@.pos == next_pos(old(self)@.input, old(self)@.pos),
    {
        let token = self.peek().clone();
        if !self.at(TokenKind::Eof) {
            self.pos += 1;
        }
        token
    }

    pub(crate) fn eat(&mut self, kind: TokenKind) -> (r: Option<Token>)
        requires
            old(self).wf(),
        ensures
            final(self).wf(),
            same_input(final(self)@, old(self)@),
            old(self)@.pos <= final(self)@.pos,
            (match r {
                Some(t) => Some(t@),
                None => None,
            }, final(self)@.pos) == eat_step(old(self)@.input, old(self)@.pos, kind),
    {
        if self.at(kind) {
            Some(self.bump())
        } else {
            None
        }
    }

    pub(crate) fn eat_many(&mut self, kind: TokenKind)
        requires
            old(self).wf(),
            kind != TokenKind::Eof,
        ensures
            final(self).wf(),
            same_input(final(self)@, old(self)@),
            final(self)@.pos == skip_all(old(self)@.input, old(self)@.pos, kind),
    {
        while self.at(kind)
            invariant
                self.wf(),
                same_input(self@, old(self)@),
                skip_all(old(self)@.input, self@.pos, kind) == skip_all(old(self)@.input, old(self)@.pos, kind),
                kind != TokenKind::Eof,
            decreases self.tokens.len() - self.pos,
        {
            self.bump();
        }
    }

    pub(crate) fn eof_error(&self) -> (e: Error)
        requires
            self.wf(),
        ensures
            e@ == eof_err(self@.input),
    {
        match &self.lexer_error {
            Some(err) => err.duplicate(),
            None => Error::UnexpectedEof,
        }
    }

    pub(crate) fn error_expected(&self, expected: Vec<TokenKind>, got: TokenKind) -> (e: Error)
        requires
            self.wf(),
        ensures
            e@ == expected_err(self@.input, self@.pos, expected@, got),
    {
        if got == TokenKind::Eof {
            if let Some(err) = &self.lexer_error {
                return err.duplicate();
            }
        }
        let token = self.peek();
        Error::expected(token.offset, expected, got, token.text.clone())
    }

    pub(crate) fn expect(&mut self, kind: TokenKind) -> (r: Result<Token, Error>)
        requires
            old(self).wf(),
        ensures
            final(self).wf(),
            same_input(final(self)@, old(self)@),
            old(self)@.pos <= final(self)@.pos,
            (rview(r), final(self)@.pos) == expect_step(old(self)@.input, old(self)@.pos, kind),
    {
        if self.at(kind) {
            Ok(self.bump())
        } else if self.at(TokenKind::Eof) {
            Err(self.eof_error())
        } else {
            let got = self.peek().clone();
            let mut expected: Vec<TokenKind> = Vec::new();
            expected.push(kind);
            proof {
                assert(expected@ =~= seq![kind]);
            }
            Err(Error::expected(got.offset, expected, got.kind, got.text))
        }
    }
    pub(crate) fn parse_identifier(&mut self) -> (r: Result<Identifier, Error>)
        requires
            old(self).wf(),
        ensures
            final(self).wf(),
            same_input(final(self)@, old(self)@),
            old(self)@.pos <= final(self)@.pos,
            (rview(r), final(self)@.pos) == identifier_step(old(self)@.input, old(self)@.pos),
    {
        if is_identifier_like(self.peek_kind()) {
            Ok(Identifier::new(self.bump().text))
        } else if self.at(TokenKind::Eof) {
            Err(self.eof_error())
        } else {
            let got = self.peek().clone();
            let mut expected: Vec<TokenKind> = Vec::new();
            expected.push(TokenKind::Identifier);
            proof {
                assert(expected@ =~= seq![TokenKind::Identifier]);
            }
            Err(Error::expected(got.offset, expected, got.kind, got.text))
        }
    }

    pub(crate) fn parse_parameter_name(&mut self) -> (r: Result<String, Error>)
        requires
            old(self).wf(),
        ensures
            final(self).wf(),
            same_input(final(self)@, old(self)@),
            (rview(r), final(self)@.pos) == parameter_name_step(old(self)@.input, old(self)@.pos),
    {
        if self.at(TokenKind::Parameter) {
            let token = self.bump();
            Ok(trim_dollar_prefix(&token.text))
        } else {
            match self.parse_identifier() {
                Ok(id) => Ok(id.value),
                Err(e) => Err(e),
            }
        }
    }

    pub(crate) fn parse_if_not_exists(&mut self) -> (r: Result<bool, Error>)
        requires
            old(self).wf(),
        ensures
            final(self).wf(),
            same_input(final(self)@, old(self)@),
            (rplain(r), final(self)@.pos) == if_not_exists_step(old(self)@.input, old(self)@.pos),
    {
        if self.eat(TokenKind::If).is_some() {
            if let Err(e) = self.expect(TokenKind::Not) {
                return Err(e);
            }
            if let Err(e) = self.expect(TokenKind::Exists) {
                return Err(e);
            }
            Ok(true)
        } else {
            Ok(false)
        }
    }

    pub(crate) fn parse_if_exists(&mut self) -> (r: Result<bool, Error>)
        requires
            old(self).wf(),
        ensures
            final(self).wf(),
            same_input(final(self)@, old(self)@),
            (rplain(r), final(self)@.pos) == if_exists_step(old(self)@.input, old(self)@.pos),
    {
        if self.eat(TokenKind::If).is_some() {
            if let Err(e) = self.expect(TokenKind::Exists) {
                return Err(e);
            }
            Ok(true)
        } else {
            Ok(false)
        }
    }

    /// Reads `COMMIT`.
    pub fn parse_commit_statement(&mut self) -> (r: Result<CommitStatement, Error>)
        requires
            old(self).wf(),
        ensures
            final(self).wf(),
            same_input(final(self)@, old(self)@),
            (rplain(r), final(self)@.pos) == commit_step(old(self)@.input, old(self)@.pos),
    {
        if let Err(e) = self.expect(TokenKind::Commit) {
            return Err(e);
        }
        Ok(CommitStatement)
    }

    /// Reads `ROLLBACK`.
    pub fn parse_rollback_statement(&mut self) -> (r: Result<RollbackStatement, Error>)
        requires
            old(self).wf(),
        ensures
            final(self).wf(),
            same_input(final(self)@, old(self)@),
            (rplain(r), final(self)@.pos) == rollback_step(old(self)@.input, old(self)@.pos),
    {
        if let Err(e) = self.expect(TokenKind::Rollback) {
            return Err(e);
        }
        Ok(RollbackStatement)
    }

    /// Reads `START TRANSACTION` with at most one access mode.
    pub fn parse_start_transaction_statement(&mut self) -> (r: Result<StartTransactionStatement, Error>)
        requires
            old(self).wf(),
        ensures
            final(self).wf(),
            same_input(final(self)@, old(self)@),
            (rplain(r), final(self)@.pos) == start_transaction_step(old(self)@.input, old(self)@.pos),
    {
        if let Err(e) = self.expect(TokenKind::Start) {
            return Err(e);
        }
        if let Err(e) = self.expect(TokenKind::Transaction) {
            return Err(e);
        }
        let mut access_mode = None;
        if self.at(TokenKind::Isolation) {
            return Err(
                Error::Message {
                    offset: self.peek().offset,
                    message: "ISOLATION LEVEL is not a GQL transaction characteristic".to_owned(),
                },
            );
        }
        if self.eat(TokenKind::Read).is_some() {
            access_mode = if self.eat(TokenKind::Only).is_some() {
                Some(TransactionAccessMode::ReadOnly)
            } else {
                if let Err(e) = self.expect(TokenKind::Write) {
                    return Err(e);
                }
                Some(TransactionAccessMode::ReadWrite)
            };
            if self.eat(TokenKind::Comma).is_some() {
                if self.at(TokenKind::Read) {
                    return Err(
                        Error::Message {
                            offset: self.peek().offset,
                            message: "transaction characteristics must contain exactly one access mode".to_owned(),
                        },
                    );
                }
                if self.at(TokenKind::Isolation) {
                    return Err(
                        Error::Message {
                            offset: self.peek().offset,
                            message: "ISOLATION LEVEL is not a GQL transaction characteristic".to_owned(),
                        },
                    );
                }
                return Err(
                    Error::Message {
                        offset: self.peek().offset,
                        message: "implementation-defined transaction modes are not supported".to_owned(),
                    },
                );
            }
        }
        Ok(StartTransactionStatement { access_mode, isolation_level: None })
    }

    /// Reads `RESET` and what it resets.
    pub fn parse_session_reset_command(&mut self) -> (r: Result<SessionResetCommand, Error>)
        requires
            old(self).wf(),
        ensures
            final(self).wf(),
            same_input(final(self)@, old(self)@),
            (rview(r), final(self)@.pos) == session_reset_step(old(self)@.input, old(self)@.pos),
    {
        if let Err(e) = self.expect(TokenKind::Reset) {
            return Err(e);
        }
        let k = self.peek_kind();
        let target = if k == TokenKind::Semicolon || k == TokenKind::Eof {
            SessionResetTarget::AllCharacteristics
        } else if self.eat(TokenKind::All).is_some() {
            if self.eat(TokenKind::Parameters).is_some() {
                SessionResetTarget::AllParameters
            } else if self.eat(TokenKind::Characteristics).is_some() {
                SessionResetTarget::AllCharacteristics
            } else {
                let mut expected: Vec<TokenKind> = Vec::new();
                expected.push(TokenKind::Parameters);
                expected.push(TokenKind::Characteristics);
                proof {
                    assert(expected@ =~= seq![TokenKind::Parameters, TokenKind::Characteristics]);
                }
                return Err(self.error_expected(expected, self.peek_kind()));
            }
        } else if self.eat(TokenKind::Parameters).is_some() {
            SessionResetTarget::AllParameters
        } else if self.eat(TokenKind::Characteristics).is_some() {
            SessionResetTarget::AllCharacteristics
        } else if self.eat(TokenKind::Schema).is_some() {
            SessionResetTarget::Schema
        } else if self.eat(TokenKind::Property).is_some() {
            if let Err(e) = self.expect(TokenKind::Graph) {
                return Err(e);
            }
            SessionResetTarget::Graph
        } else if self.eat(TokenKind::Graph).is_some() {
            SessionResetTarget::Graph
        } else if self.eat(TokenKind::Time).is_some() {
            if let Err(e) = self.expect(TokenKind::Zone) {
                return Err(e);
            }
            SessionResetTarget::TimeZone
        } else if self.eat(TokenKind::ParameterKeyword).is_some() || self.at(TokenKind::Parameter) {
            match self.parse_parameter_name() {
                Ok(name) => SessionResetTarget::Parameter(name),
                Err(e) => return Err(e),
            }
        } else {
            let mut expected: Vec<TokenKind> = Vec::new();
            expected.push(TokenKind::All);
            expected.push(TokenKind::Parameters);
            expected.push(TokenKind::Characteristics);
            expected.push(TokenKind::Schema);
            expected.push(TokenKind::Property);
            expected.push(TokenKind::Graph);
            expected.push(TokenKind::Time);
            expected.push(TokenKind::ParameterKeyword);
            expected.push(TokenKind::Parameter);
            proof {
                assert(expected@ =~= seq![
                    TokenKind::All,
                    TokenKind::Parameters,
                    TokenKind::Characteristics,
                    TokenKind::Schema,
                    TokenKind::Property,
                    TokenKind::Graph,
                    TokenKind::Time,
                    TokenKind::ParameterKeyword,
                    TokenKind::Parameter,
                ]);
            }
            return Err(self.error_expected(expected, self.peek_kind()));
        };
        Ok(SessionResetCommand { target })
    }
    fn parse_catalog_name_parts(&mut self) -> (r: Result<(bool, bool, bool, usize, Vec<Identifier>), Error>)
        requires
            old(self).wf(),
        ensures
            final(self).wf(),
            same_input(final(self)@, old(self)@),
            (match r {
                Ok(t) => Ok(name_parts_view(t)),
                Err(e) => Err(e@),
            }, final(self)@.pos) == catalog_name_step(old(self)@.input, old(self)@.pos),
    {
        let ghost v = old(self)@.input;
        let absolute = self.eat(TokenKind::Slash).is_some();
        let mut current_schema = false;
        let mut home_schema = false;
        let mut parent_levels: usize = 0;
        if !absolute {
            if self.eat(TokenKind::CurrentSchema).is_some() {
                if let Err(e) = self.expect(TokenKind::Slash) {
                    return Err(e);
                }
                current_schema = true;
            } else if self.eat(TokenKind::HomeSchema).is_some() {
                if let Err(e) = self.expect(TokenKind::Slash) {
                    return Err(e);
                }
                home_schema = true;
            } else if self.eat(TokenKind::Dot).is_some() {
                if self.eat(TokenKind::Dot).is_some() {
                    parent_levels = 1;
                    let ghost start = self@.pos;
                    loop
                        invariant_except_break
                            parent_levels_step(v, self@.pos, parent_levels as int)
                                == parent_levels_step(v, start, 1),
                        invariant
                            self.wf(),
                            same_input(self@, old(self)@),
                            v == old(self)@.input,
                            1 <= parent_levels <= self@.pos + 1,
                            !absolute && !current_schema && !home_schema,
                            name_anchor_step(v, old(self)@.pos) == (match parent_levels_step(v, start, 1) {
                                (Err(e), q) => (Err(e), q),
                                (Ok(levels), q) => (Ok((false, false, false, levels)), q),
                            }),
                        ensures
                            parent_levels_step(v, start, 1) == (
                                Ok::<int, ErrorView>(parent_levels as int),
                                self@.pos,
                            ),
                        decreases self.tokens.len() - self.pos,
                    {
                        if let Err(e) = self.expect(TokenKind::Slash) {
                            return Err(e);
                        }
                        if self.eat(TokenKind::Dot).is_some() {
                            if let Err(e) = self.expect(TokenKind::Dot) {
                                return Err(e);
                            }
                            parent_levels += 1;
                        } else {
                            break;
                        }
                    }
                } else {
                    if let Err(e) = self.expect(TokenKind::Slash) {
                        return Err(e);
                    }
                    current_schema = true;
                }
            }
        }
        let first = match self.parse_identifier() {
            Ok(id) => id,
            Err(e) => return Err(e),
        };
        let mut parts: Vec<Identifier> = Vec::new();
        parts.push(first);
        let ghost q2 = self@.pos;
        proof {
            assert(identifiers_view(parts@) =~= seq![first@]);
        }
        loop
            invariant_except_break
                name_parts_rest(v, self@.pos, identifiers_view(parts@)) == name_parts_rest(
                    v,
                    q2,
                    seq![first@],
                ),
            invariant
                self.wf(),
                same_input(self@, old(self)@),
                v == old(self)@.input,
                catalog_name_step(v, old(self)@.pos) == (match name_parts_rest(v, q2, seq![first@]) {
                    (Err(e), q3) => (Err(e), q3),
                    (Ok(parts), q3) => (
                        Ok(
                            CatalogNameView {
                                absolute,
                                current_schema,
                                home_schema,
                                parent_levels: parent_levels as int,
                                parts,
                            },
                        ),
                        q3,
                    ),
                }),
            ensures
                name_parts_rest(v, q2, seq![first@]) == (
                    Ok::<Seq<Seq<char>>, ErrorView>(identifiers_view(parts@)),
                    self@.pos,
                ),
            decreases self.tokens.len() - self.pos,
        {
            let k = self.peek_kind();
            if !(k == TokenKind::Dot || k == TokenKind::Slash) {
                break;
            }
            self.bump();
            match self.parse_identifier() {
                Ok(id) => {
                    proof {
                        assert(identifiers_view(parts@.push(id)) =~= identifiers_view(parts@).push(id@));
                    }
                    parts.push(id);
                },
                Err(e) => return Err(e),
            }
        }
        Ok((absolute, current_schema, home_schema, parent_levels, parts))
    }

    /// Reads a graph name.
    pub fn parse_graph_name(&mut self) -> (r: Result<GraphName, Error>)
        requires
            old(self).wf(),
        ensures
            final(self).wf(),
            same_input(final(self)@, old(self)@),
            (rview(r), final(self)@.pos) == catalog_name_step(old(self)@.input, old(self)@.pos),
    {
        let (absolute, current_schema, home_schema, parent_levels, parts) = match self.parse_catalog_name_parts() {
            Ok(t) => t,
            Err(e) => return Err(e),
        };
        Ok(GraphName { absolute, current_schema, home_schema, parent_levels, parts })
    }

    /// Reads a binding table name.
    pub fn parse_binding_table_name(&mut self) -> (r: Result<BindingTableName, Error>)
        requires
            old(self).wf(),
        ensures
            final(self).wf(),
            same_input(final(self)@, old(self)@),
            (rview(r), final(self)@.pos) == catalog_name_step(old(self)@.input, old(self)@.pos),
    {
        let (absolute, current_schema, home_schema, parent_levels, parts) = match self.parse_catalog_name_parts() {
            Ok(t) => t,
            Err(e) => return Err(e),
        };
        Ok(BindingTableName { absolute, current_schema, home_schema, parent_levels, parts })
    }

    /// Reads a graph type name.
    pub fn parse_graph_type_name(&mut self) -> (r: Result<GraphTypeName, Error>)
        requires
            old(self).wf(),
        ensures
            final(self).wf(),
            same_input(final(self)@, old(self)@),
            (rview(r), final(self)@.pos) == catalog_name_step(old(self)@.input, old(self)@.pos),
    {
        let (absolute, current_schema, home_schema, parent_levels, parts) = match self.parse_catalog_name_parts() {
            Ok(t) => t,
            Err(e) => return Err(e),
        };
        Ok(GraphTypeName { absolute, current_schema, home_schema, parent_levels, parts })
    }

    /// Reads a schema name.
    pub fn parse_schema_name(&mut self) -> (r: Result<SchemaName, Error>)
        requires
            old(self).wf(),
        ensures
            final(self).wf(),
            same_input(final(self)@, old(self)@),
            (rview(r), final(self)@.pos) == catalog_name_step(old(self)@.input, old(self)@.pos),
    {
        let (absolute, current_schema, home_schema, parent_levels, parts) = match self.parse_catalog_name_parts() {
            Ok(t) => t,
            Err(e) => return Err(e),
        };
        Ok(SchemaName { absolute, current_schema, home_schema, parent_levels, parts })
    }

    /// Reads a procedure name.
    pub fn parse_procedure_name(&mut self) -> (r: Result<ProcedureName, Error>)
        requires
            old(self).wf(),
        ensures
            final(self).wf(),
            same_input(final(self)@, old(self)@),
            (rview(r), final(self)@.pos) == catalog_name_step(old(self)@.input, old(self)@.pos),
    {
        let (absolute, current_schema, home_schema, parent_levels, parts) = match self.parse_catalog_name_parts() {
            Ok(t) => t,
            Err(e) => return Err(e),
        };
        Ok(ProcedureName { absolute, current_schema, home_schema, parent_levels, parts })
    }

    /// Reads a schema reference.
    pub fn parse_schema_reference(&mut self) -> (r: Result<SchemaReference, Error>)
        requires
            old(self).wf(),
        ensures
            final(self).wf(),
            same_input(final(self)@, old(self)@),
            (rview(r), final(self)@.pos) == schema_reference_step(old(self)@.input, old(self)@.pos),
    {
        let ghost v = old(self)@.input;
        if self.at(TokenKind::Parameter) {
            let token = self.bump();
            return Ok(SchemaReference::Parameter(trim_dollar_prefix(&token.text)));
        }
        if self.eat(TokenKind::CurrentSchema).is_some() {
            return Ok(SchemaReference::CurrentSchema);
        }
        if self.eat(TokenKind::HomeSchema).is_some() {
            return Ok(SchemaReference::HomeSchema);
        }
        if self.eat(TokenKind::Slash).is_some() {
            if is_schema_reference_follow(self.peek_kind()) || !is_identifier_like(self.peek_kind()) {
                return Ok(SchemaReference::Root);
            }
            return match self.parse_schema_name() {
                Ok(name) => Ok(SchemaReference::Absolute(name)),
                Err(e) => Err(e),
            };
        }
        if self.eat(TokenKind::Dot).is_some() {
            if self.eat(TokenKind::Dot).is_none() {
                return Ok(SchemaReference::CurrentSchema);
            }
            let mut levels: usize = 1;
            let ghost start = self@.pos;
            loop
                invariant
                    self.wf(),
                    same_input(self@, old(self)@),
                    v == old(self)@.input,
                    1 <= levels <= self@.pos + 1,
                    parent_schema_step(v, self@.pos, levels as int) == parent_schema_step(v, start, 1),
                    schema_reference_step(v, old(self)@.pos) == parent_schema_step(v, start, 1),
                decreases self.tokens.len() - self.pos,
            {
                if let Err(e) = self.expect(TokenKind::Slash) {
                    return Err(e);
                }
                if self.eat(TokenKind::Dot).is_some() {
                    if let Err(e) = self.expect(TokenKind::Dot) {
                        return Err(e);
                    }
                    levels += 1;
                } else {
                    return match self.parse_schema_name() {
                        Ok(name) => Ok(SchemaReference::Parent { levels, name }),
                        Err(e) => Err(e),
                    };
                }
            }
        }
        match self.parse_schema_name() {
            Ok(name) => Ok(SchemaReference::Name(name)),
            Err(e) => Err(e),
        }
    }

    /// Reads a reference to a procedure: a parameter or a procedure name.
    pub fn parse_procedure_reference(&mut self) -> (r: Result<ProcedureReference, Error>)
        requires
            old(self).wf(),
        ensures
            final(self).wf(),
            same_input(final(self)@, old(self)@),
            (rview(r), final(self)@.pos) == reference_step(old(self)@.input, old(self)@.pos),
    {
        if self.at(TokenKind::Parameter) {
            let token = self.bump();
            return Ok(ProcedureReference::Parameter(trim_dollar_prefix(&token.text)));
        }
        match self.parse_procedure_name() {
            Ok(name) => Ok(ProcedureReference::Name(name)),
            Err(e) => Err(e),
        }
    }

    /// Reads a reference to a graph type: a parameter or a graph type name.
    pub fn parse_graph_type_reference(&mut self) -> (r: Result<GraphTypeReference, Error>)
        requires
            old(self).wf(),
        ensures
            final(self).wf(),
            same_input(final(self)@, old(self)@),
            (rview(r), final(self)@.pos) == reference_step(old(self)@.input, old(self)@.pos),
    {
        if self.at(TokenKind::Parameter) {
            let token = self.bump();
            return Ok(GraphTypeReference::Parameter(trim_dollar_prefix(&token.text)));
        }
        match self.parse_graph_type_name() {
            Ok(name) => Ok(GraphTypeReference::Name(name)),
            Err(e) => Err(e),
        }
    }

    fn parse_optional_property_graph_prefix(&mut self) -> (r: Result<bool, Error>)
        requires
            old(self).wf(),
        ensures
            final(self).wf(),
            same_input(final(self)@, old(self)@),
            (rplain(r), final(self)@.pos) == property_graph_prefix_step(old(self)@.input, old(self)@.pos),
    {
        if self.eat(TokenKind::Property).is_some() {
            if let Err(e) = self.expect(TokenKind::Graph) {
                return Err(e);
            }
            return Ok(true);
        }
        self.eat(TokenKind::Graph);
        Ok(false)
    }

    pub(crate) fn parse_optional_typed_marker(&mut self) -> (r: Result<bool, Error>)
        requires
            old(self).wf(),
        ensures
            final(self).wf(),
            same_input(final(self)@, old(self)@),
            old(self)@.pos <= final(self)@.pos,
            (rplain(r), final(self)@.pos) == typed_marker_step(old(self)@.input, old(self)@.pos),
    {
        if self.eat(TokenKind::DoubleColon).is_some() {
            self.eat(TokenKind::Typed);
            return Ok(true);
        }
        if self.eat(TokenKind::Typed).is_some() {
            return Ok(true);
        }
        Ok(false)
    }
    pub(crate) fn parse_u64_literal(&mut self) -> (r: Result<u64, Error>)
        requires
            old(self).wf(),
        ensures
            final(self).wf(),
            same_input(final(self)@, old(self)@),
            old(self)@.pos <= final(self)@.pos,
            (rplain(r), final(self)@.pos) == u64_literal_step(old(self)@.input, old(self)@.pos),
    {
        let token = match self.expect(TokenKind::Integer) {
            Ok(t) => t,
            Err(e) => return Err(e),
        };
        match parse_u64_text(&token.text) {
            Some(n) => Ok(n),
            None => Err(Error::BadNumber { offset: token.offset, token_text: token.text }),
        }
    }

    pub(crate) fn ensure_positive_u64(&self, value: u64, description: &str) -> (r: Result<(), Error>)
        requires
            self.wf(),
        ensures
            value == 0 ==> (r matches Err(e) && e@ == not_positive_err(self@.input, self@.pos, description@)),
            value != 0 ==> r is Ok,
    {
        if value == 0 {
            let mut m = chars_of(description);
            push_str(&mut m, " must be greater than or equal to 1");
            return Err(Error::Message { offset: self.peek().offset, message: string_from_chars(&m) });
        }
        Ok(())
    }

    pub(crate) fn parse_positive_u64_literal(&mut self, description: &str) -> (r: Result<u64, Error>)
        requires
            old(self).wf(),
        ensures
            final(self).wf(),
            same_input(final(self)@, old(self)@),
            old(self)@.pos <= final(self)@.pos,
            (rplain(r), final(self)@.pos) == positive_u64_literal_step(
                old(self)@.input,
                old(self)@.pos,
                description@,
            ),
    {
        let value = match self.parse_u64_literal() {
            Ok(n) => n,
            Err(e) => return Err(e),
        };
        if let Err(e) = self.ensure_positive_u64(value, description) {
            return Err(e);
        }
        Ok(value)
    }

    fn parse_optional_unsigned_integer_specification(&mut self) -> (r: Result<
        Option<UnsignedIntegerSpecification>,
        Error,
    >)
        requires
            old(self).wf(),
        ensures
            final(self).wf(),
            same_input(final(self)@, old(self)@),
            (match r {
                Ok(c) => Ok(count_view(c)),
                Err(e) => Err(e@),
            }, final(self)@.pos) == optional_unsigned_integer_step(old(self)@.input, old(self)@.pos),
    {
        if self.at(TokenKind::Integer) {
            return match self.parse_u64_literal() {
                Ok(n) => Ok(Some(UnsignedIntegerSpecification::Literal(n))),
                Err(e) => Err(e),
            };
        }
        if self.at(TokenKind::Parameter) {
            let token = self.bump();
            return Ok(Some(UnsignedIntegerSpecification::Parameter(trim_dollar_prefix(&token.text))));
        }
        Ok(None)
    }

    pub(crate) fn parse_unsigned_integer_specification(&mut self) -> (r: Result<UnsignedIntegerSpecification, Error>)
        requires
            old(self).wf(),
        ensures
            final(self).wf(),
            same_input(final(self)@, old(self)@),
            (rview(r), final(self)@.pos) == unsigned_integer_step(old(self)@.input, old(self)@.pos),
    {
        match self.parse_optional_unsigned_integer_specification() {
            Err(e) => Err(e),
            Ok(Some(n)) => Ok(n),
            Ok(None) => {
                let mut expected: Vec<TokenKind> = Vec::new();
                expected.push(TokenKind::Integer);
                expected.push(TokenKind::Parameter);
                proof {
                    assert(expected@ =~= seq![TokenKind::Integer, TokenKind::Parameter]);
                }
                Err(self.error_expected(expected, self.peek_kind()))
            },
        }
    }

    fn parse_optional_path_mode(&mut self) -> (r: Option<PathMode>)
        requires
            old(self).wf(),
        ensures
            final(self).wf(),
            same_input(final(self)@, old(self)@),
            (r, final(self)@.pos) == path_mode_step(old(self)@.input, old(self)@.pos),
    {
        if self.eat(TokenKind::Walk).is_some() {
            Some(PathMode::Walk)
        } else if self.eat(TokenKind::Trail).is_some() {
            Some(PathMode::Trail)
        } else if self.eat(TokenKind::Simple).is_some() {
            Some(PathMode::Simple)
        } else if self.eat(TokenKind::Acyclic).is_some() {
            Some(PathMode::Acyclic)
        } else {
            None
        }
    }

    fn parse_optional_path_or_paths(&mut self) -> (r: Option<PathOrPaths>)
        requires
            old(self).wf(),
        ensures
            final(self).wf(),
            same_input(final(self)@, old(self)@),
            (r, final(self)@.pos) == path_or_paths_step(old(self)@.input, old(self)@.pos),
    {
        if self.eat(TokenKind::Path).is_some() {
            Some(PathOrPaths::Path)
        } else if self.eat(TokenKind::Paths).is_some() {
            Some(PathOrPaths::Paths)
        } else {
            None
        }
    }

    fn parse_optional_path_search_prefix(&mut self) -> (r: Result<Option<PathPatternPrefix>, Error>)
        requires
            old(self).wf(),
        ensures
            final(self).wf(),
            same_input(final(self)@, old(self)@),
            (match r {
                Ok(x) => Ok(prefix_view(x)),
                Err(e) => Err(e@),
            }, final(self)@.pos) == path_search_prefix_step(old(self)@.input, old(self)@.pos),
    {
        let search = if self.eat(TokenKind::All).is_some() {
            if self.eat(TokenKind::Shortest).is_some() {
                let mode = self.parse_optional_path_mode();
                let path_or_paths = self.parse_optional_path_or_paths();
                PathSearchPrefix::AllShortest { mode, path_or_paths }
            } else {
                let mode = self.parse_optional_path_mode();
                let path_or_paths = self.parse_optional_path_or_paths();
                PathSearchPrefix::All { mode, path_or_paths }
            }
        } else if self.eat(TokenKind::Any).is_some() {
            if self.eat(TokenKind::Shortest).is_some() {
                let mode = self.parse_optional_path_mode();
                let path_or_paths = self.parse_optional_path_or_paths();
                PathSearchPrefix::AnyShortest { mode, path_or_paths }
            } else {
                let count = match self.parse_optional_unsigned_integer_specification() {
                    Ok(c) => c,
                    Err(e) => return Err(e),
                };
                let mode = self.parse_optional_path_mode();
                let path_or_paths = self.parse_optional_path_or_paths();
                PathSearchPrefix::Any { count, mode, path_or_paths }
            }
        } else if self.eat(TokenKind::Shortest).is_some() {
            let count = match self.parse_optional_unsigned_integer_specification() {
                Ok(c) => c,
                Err(e) => return Err(e),
            };
            let mode = self.parse_optional_path_mode();
            let path_or_paths = self.parse_optional_path_or_paths();
            if self.eat(TokenKind::Group).is_some() {
                PathSearchPrefix::CountedShortestGroup { count, mode, path_or_paths, groups: false }
            } else if self.eat(TokenKind::Groups).is_some() {
                PathSearchPrefix::CountedShortestGroup { count, mode, path_or_paths, groups: true }
            } else {
                match count {
                    Some(count) => PathSearchPrefix::CountedShortest { count, mode, path_or_paths },
                    None => PathSearchPrefix::Shortest { mode, path_or_paths },
                }
            }
        } else {
            return Ok(None);
        };
        Ok(Some(PathPatternPrefix::Search(search)))
    }

    fn parse_optional_path_mode_prefix(&mut self) -> (r: Option<PathPatternPrefix>)
        requires
            old(self).wf(),
        ensures
            final(self).wf(),
            same_input(final(self)@, old(self)@),
            (prefix_view(r), final(self)@.pos) == path_mode_prefix_step(old(self)@.input, old(self)@.pos),
    {
        let mode = match self.parse_optional_path_mode() {
            Some(m) => m,
            None => return None,
        };
        let path_or_paths = self.parse_optional_path_or_paths();
        Some(PathPatternPrefix::Mode { mode, path_or_paths })
    }

    /// Reads an optional path pattern prefix: a path search prefix or a path mode prefix.
    pub fn parse_optional_path_pattern_prefix(&mut self) -> (r: Result<Option<PathPatternPrefix>, Error>)
        requires
            old(self).wf(),
        ensures
            final(self).wf(),
            same_input(final(self)@, old(self)@),
            (match r {
                Ok(x) => Ok(prefix_view(x)),
                Err(e) => Err(e@),
            }, final(self)@.pos) == path_pattern_prefix_step(old(self)@.input, old(self)@.pos),
    {
        let k = self.peek_kind();
        if k == TokenKind::All || k == TokenKind::Any || k == TokenKind::Shortest {
            return self.parse_optional_path_search_prefix();
        }
        Ok(self.parse_optional_path_mode_prefix())
    }

    fn parse_required_path_pattern_prefix(&mut self) -> (r: Result<PathPatternPrefix, Error>)
        requires
            old(self).wf(),
        ensures
            final(self).wf(),
            same_input(final(self)@, old(self)@),
            (rview(r), final(self)@.pos) == required_path_pattern_prefix_step(
                old(self)@.input,
                old(self)@.pos,
            ),
    {
        match self.parse_optional_path_pattern_prefix() {
            Err(e) => Err(e),
            Ok(Some(x)) => Ok(x),
            Ok(None) => {
                let mut expected: Vec<TokenKind> = Vec::new();
                expected.push(TokenKind::Walk);
                expected.push(TokenKind::Trail);
                expected.push(TokenKind::Simple);
                expected.push(TokenKind::Acyclic);
                expected.push(TokenKind::All);
                expected.push(TokenKind::Any);
                expected.push(TokenKind::Shortest);
                proof {
                    assert(expected@ =~= seq![
                        TokenKind::Walk,
                        TokenKind::Trail,
                        TokenKind::Simple,
                        TokenKind::Acyclic,
                        TokenKind::All,
                        TokenKind::Any,
                        TokenKind::Shortest,
                    ]);
                }
                Err(self.error_expected(expected, self.peek_kind()))
            },
        }
    }

    /// Reads an optional path quantifier: `*`, `+`, `?`, `{n}` or `{[m],[n]}`.
    pub fn parse_optional_path_quantifier(&mut self) -> (r: Result<Option<PathPatternQuantifier>, Error>)
        requires
            old(self).wf(),
        ensures
            final(self).wf(),
            same_input(final(self)@, old(self)@),
            (rplain(r), final(self)@.pos) == path_quantifier_step(old(self)@.input, old(self)@.pos),
    {
        if self.eat(TokenKind::Star).is_some() {
            return Ok(Some(PathPatternQuantifier::ZeroOrMore));
        }
        if self.eat(TokenKind::Plus).is_some() {
            return Ok(Some(PathPatternQuantifier::OneOrMore));
        }
        if self.eat(TokenKind::Question).is_some() {
            return Ok(Some(PathPatternQuantifier::Optional));
        }
        if self.eat(TokenKind::LBrace).is_none() {
            return Ok(None);
        }
        let min = if self.at(TokenKind::Integer) {
            match self.parse_u64_literal() {
                Ok(n) => Some(n),
                Err(e) => return Err(e),
            }
        } else {
            None
        };
        let quantifier = if self.eat(TokenKind::Comma).is_some() {
            let max = if self.at(TokenKind::Integer) {
                match self.parse_u64_literal() {
                    Ok(n) => Some(n),
                    Err(e) => return Err(e),
                }
            } else {
                None
            };
            PathPatternQuantifier::Range { min, max }
        } else {
            match min {
                Some(value) => PathPatternQuantifier::Fixed(value),
                None => {
                    let mut expected: Vec<TokenKind> = Vec::new();
                    expected.push(TokenKind::Integer);
                    expected.push(TokenKind::Comma);
                    proof {
                        assert(expected@ =~= seq![TokenKind::Integer, TokenKind::Comma]);
                    }
                    return Err(self.error_expected(expected, self.peek_kind()));
                },
            }
        };
        if let Err(e) = self.expect(TokenKind::RBrace) {
            return Err(e);
        }
        Ok(Some(quantifier))
    }
    /// Reads a label expression.
    pub fn parse_label_expression(&mut self) -> (r: Result<LabelExpression, Error>)
        requires
            old(self).wf(),
        ensures
            final(self).wf(),
            same_input(final(self)@, old(self)@),
            old(self)@.pos <= final(self)@.pos,
            (rview(r), final(self)@.pos) == label_expression_step(old(self)@.input, old(self)@.pos),
        decreases old(self)@.input.tokens.len() - old(self)@.pos, 4int,
    {
        self.parse_label_or()
    }

    /// Reads label conjunctions joined by `|`.
    fn parse_label_or(&mut self) -> (r: Result<LabelExpression, Error>)
        requires
            old(self).wf(),
        ensures
            final(self).wf(),
            same_input(final(self)@, old(self)@),
            old(self)@.pos <= final(self)@.pos,
            (rview(r), final(self)@.pos) == label_expression_step(old(self)@.input, old(self)@.pos),
        decreases old(self)@.input.tokens.len() - old(self)@.pos, 3int,
    {
        let ghost v = old(self)@.input;
        let ghost p0 = old(self)@.pos;
        let mut expr = match self.parse_label_and() {
            Ok(e) => e,
            Err(e) => return Err(e),
        };
        loop
            invariant
                self.wf(),
                same_input(self@, old(self)@),
                v == old(self)@.input,
                p0 == old(self)@.pos,
                p0 <= self@.pos,
                label_expression_step(v, p0) == label_or_rest(v, expr@, self@.pos),
            decreases self@.input.tokens.len() - self@.pos,
        {
            let ghost p = self@.pos;
            if self.eat(TokenKind::Pipe).is_none() {
                return Ok(expr);
            }
            let right = match self.parse_label_and() {
                Ok(e) => e,
                Err(e) => return Err(e),
            };
            expr = LabelExpression::Or(Box::new(expr), Box::new(right));
        }
    }

    /// Reads label factors joined by `&`.
    fn parse_label_and(&mut self) -> (r: Result<LabelExpression, Error>)
        requires
            old(self).wf(),
        ensures
            final(self).wf(),
            same_input(final(self)@, old(self)@),
            old(self)@.pos <= final(self)@.pos,
            (rview(r), final(self)@.pos) == label_and_step(old(self)@.input, old(self)@.pos),
        decreases old(self)@.input.tokens.len() - old(self)@.pos, 1int,
    {
        let ghost v = old(self)@.input;
        let ghost p0 = old(self)@.pos;
        let mut expr = match self.parse_label_unary() {
            Ok(e) => e,
            Err(e) => return Err(e),
        };
        loop
            invariant
                self.wf(),
                same_input(self@, old(self)@),
                v == old(self)@.input,
                p0 == old(self)@.pos,
                p0 <= self@.pos,
                label_and_step(v, p0) == label_and_rest(v, expr@, self@.pos),
            decreases self@.input.tokens.len() - self@.pos,
        {
            let ghost p = self@.pos;
            if self.eat(TokenKind::Ampersand).is_none() {
                return Ok(expr);
            }
            let right = match self.parse_label_unary() {
                Ok(e) => e,
                Err(e) => return Err(e),
            };
            expr = LabelExpression::And(Box::new(expr), Box::new(right));
        }
    }

    /// Reads a label factor: `!` and a factor, a parenthesized label expression, `%`, or a
    /// label name.
    fn parse_label_unary(&mut self) -> (r: Result<LabelExpression, Error>)
        requires
            old(self).wf(),
        ensures
            final(self).wf(),
            same_input(final(self)@, old(self)@),
            old(self)@.pos <= final(self)@.pos,
            (rview(r), final(self)@.pos) == label_unary_step(old(self)@.input, old(self)@.pos),
        decreases old(self)@.input.tokens.len() - old(self)@.pos, 0int,
    {
        if self.at(TokenKind::Not) {
            return Err(
                Error::Message {
                    offset: self.peek().offset,
                    message: "label negation uses !, not NOT".to_owned(),
                },
            );
        }
        if self.eat(TokenKind::Bang).is_some() {
            return match self.parse_label_unary() {
                Ok(inner) => Ok(LabelExpression::Not(Box::new(inner))),
                Err(e) => Err(e),
            };
        }
        if self.eat(TokenKind::LParen).is_some() {
            let inner = match self.parse_label_expression() {
                Ok(e) => e,
                Err(e) => return Err(e),
            };
            if let Err(e) = self.expect(TokenKind::RParen) {
                return Err(e);
            }
            return Ok(LabelExpression::Parenthesized(Box::new(inner)));
        }
        if self.eat(TokenKind::Percent).is_some() {
            return Ok(LabelExpression::Wildcard);
        }
        match self.parse_identifier() {
            Ok(name) => Ok(LabelExpression::Label(name)),
            Err(e) => Err(e),
        }
    }
    /// The parser's position is one of its tokens, which end with the end of the input.
    pub proof fn lemma_valid(&self)
        requires
            self.wf(),
        ensures
            valid_pos(self@.input, self@.pos),
    {
    }

    /// Whether the tokens from the current one on spell `words`, one identifier-like token
    /// per word, ignoring case.
    pub(crate) fn peek_type_words(&self, words: &[&str]) -> (r: bool)
        requires
            self.wf(),
        ensures
            r == words_at(self@.input, self@.pos, words@),
    {
        let ghost v = self@.input;
        let mut i: usize = 0;
        while i < words.len()
            invariant
                self.wf(),
                v == self@.input,
                i <= words.len(),
                forall|j: int| 0 <= j < i ==> word_at(v, self@.pos + j, #[trigger] words@[j]@),
            decreases words.len() - i,
        {
            if i >= self.tokens.len() - self.pos {
                assert(!word_at(v, self@.pos + i, words@[i as int]@));
                return false;
            }
            let token = &self.tokens[self.pos + i];
            let text = chars_of(token.text.as_str());
            if !(is_identifier_like(token.kind) && chars_eq_ignore_ascii_case(&text, words[i])) {
                assert(!word_at(v, self@.pos + i, words@[i as int]@));
                return false;
            }
            i += 1;
        }
        true
    }

    /// Reads an identifier-like token spelled `word`, ignoring case.
    pub(crate) fn expect_identifier_word(&mut self, word: &str) -> (r: Result<Token, Error>)
        requires
            old(self).wf(),
        ensures
            final(self).wf(),
            same_input(final(self)@, old(self)@),
            (rview(r), final(self)@.pos) == identifier_word_step(old(self)@.input, old(self)@.pos, word@),
    {
        let text = chars_of(self.peek().text.as_str());
        if is_identifier_like(self.peek_kind()) && chars_eq_ignore_ascii_case(&text, word) {
            Ok(self.bump())
        } else if self.at(TokenKind::Eof) {
            Err(self.eof_error())
        } else {
            let mut expected: Vec<TokenKind> = Vec::new();
            expected.push(TokenKind::Identifier);
            proof {
                assert(expected@ =~= seq![TokenKind::Identifier]);
            }
            Err(self.error_expected(expected, self.peek_kind()))
        }
    }
    /// Reads an `AT SCHEMA` clause at the start of a program, which belongs to the program
    /// only when binding variable definitions follow it, after any semicolons; otherwise
    /// nothing is read. An error in the clause is reported with nothing read.
    pub(crate) fn parse_optional_program_at_schema_clause(&mut self) -> (r: Result<Option<SchemaReference>, Error>)
        requires
            old(self).wf(),
        ensures
            final(self).wf(),
            same_input(final(self)@, old(self)@),
            (match r {
                Ok(Some(s)) => Ok(Some(s@)),
                Ok(None) => Ok(None),
                Err(e) => Err(e@),
            }, final(self)@.pos) == program_at_schema_step(old(self)@.input, old(self)@.pos),
    {
        if !self.at(TokenKind::At) {
            return Ok(None);
        }
        let start = self.pos;
        let at_schema = match self.parse_optional_at_schema_clause() {
            Ok(s) => s,
            Err(e) => {
                self.pos = start;
                return Err(e);
            },
        };
        self.eat_many(TokenKind::Semicolon);
        if self.starts_binding_variable_definition() {
            Ok(at_schema)
        } else {
            self.pos = start;
            Ok(None)
        }
    }

    /// Reads label factors joined by `&`: the label expression of a simplified path pattern.
    pub fn parse_simplified_label_expression(&mut self) -> (r: Result<LabelExpression, Error>)
        requires
            old(self).wf(),
        ensures
            final(self).wf(),
            same_input(final(self)@, old(self)@),
            (rview(r), final(self)@.pos) == label_and_step(old(self)@.input, old(self)@.pos),
    {
        self.parse_label_and()
    }
}

} // verus!
