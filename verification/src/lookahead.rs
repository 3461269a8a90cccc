use vstd::prelude::*;
use crate::kinds::{is_identifier_like, spec_is_identifier_like};
use crate::parser::{kind_ahead, kind_at, InputView, Parser};
use crate::token::TokenKind;

verus! {

/// Whether an optional kind is identifier-like.
pub open spec fn opt_identifier_like(k: Option<TokenKind>) -> bool {
    k matches Some(k) && spec_is_identifier_like(k)
}

/// Whether the kind ahead is a string literal, a quoted word, or the `extra` kind.
pub open spec fn quoted_or(k: Option<TokenKind>, extra: TokenKind) -> bool {
    k == Some(TokenKind::String) || k == Some(TokenKind::DoubleQuotedString) || k == Some(
        TokenKind::QuotedString,
    ) || k == Some(extra)
}

/// Whether `kind` starts an expression of its own, whatever follows it: a literal, a
/// datetime value function without arguments, `CASE`, or a record or list constructor.
pub open spec fn always_starts_primary(kind: TokenKind) -> bool {
    match kind {
        TokenKind::String
        | TokenKind::ByteString
        | TokenKind::Integer
        | TokenKind::Decimal
        | TokenKind::Null
        | TokenKind::True
        | TokenKind::False
        | TokenKind::Unknown
        | TokenKind::CurrentDate
        | TokenKind::CurrentTime
        | TokenKind::CurrentTimestamp
        | TokenKind::CurrentUser
        | TokenKind::Localtimestamp
        | TokenKind::LocalTime
        | TokenKind::Case
        | TokenKind::LBrace
        | TokenKind::LBracket => true,
        _ => false,
    }
}

/// Whether `kind` names an aggregate function, `CAST` or `ELEMENT_ID`, which start an
/// expression when `(` follows.
pub open spec fn is_call_like_keyword(kind: TokenKind) -> bool {
    match kind {
        TokenKind::Avg
        | TokenKind::Count
        | TokenKind::Max
        | TokenKind::Min
        | TokenKind::Sum
        | TokenKind::CollectList
        | TokenKind::StddevSamp
        | TokenKind::StddevPop
        | TokenKind::PercentileCont
        | TokenKind::PercentileDisc
        | TokenKind::Cast
        | TokenKind::ElementId => true,
        _ => false,
    }
}

/// Whether `LET` at `p` starts a let value expression: `VALUE`, or a name and `=`, follows.
pub open spec fn starts_let_value_expression_after_let(v: InputView, p: int) -> bool {
    kind_ahead(v, p, 1) == Some(TokenKind::Value) || (opt_identifier_like(kind_ahead(v, p, 1))
        && kind_ahead(v, p, 2) == Some(TokenKind::Eq))
}

/// Whether `kind`, read at `p`, starts an expression where a graph or binding table
/// expression is expected, with the tokens after `p` deciding for the keywords that may also
/// be names.
pub open spec fn object_primary_special_case(v: InputView, p: int, kind: TokenKind) -> bool {
    let next = kind_ahead(v, p, 1);
    ||| always_starts_primary(kind)
    ||| (kind == TokenKind::Date || kind == TokenKind::Time || kind == TokenKind::Datetime || kind
        == TokenKind::Timestamp) && quoted_or(next, TokenKind::LParen)
    ||| kind == TokenKind::Interval && (quoted_or(next, TokenKind::Plus) || next == Some(
        TokenKind::Minus,
    ))
    ||| kind == TokenKind::Duration && quoted_or(next, TokenKind::LParen)
    ||| is_call_like_keyword(kind) && next == Some(TokenKind::LParen)
    ||| (kind == TokenKind::Record || kind == TokenKind::Value) && next == Some(TokenKind::LBrace)
    ||| (kind == TokenKind::List || kind == TokenKind::Array || kind == TokenKind::Path) && next
        == Some(TokenKind::LBracket)
    ||| kind == TokenKind::Group && (next == Some(TokenKind::List) || next == Some(TokenKind::Array))
        && kind_ahead(v, p, 2) == Some(TokenKind::LBracket)
    ||| kind == TokenKind::Let && starts_let_value_expression_after_let(v, p)
}

/// Whether `kind` at `p` may start a graph expression in a strict context.
pub open spec fn strict_graph_expression_start(v: InputView, p: int, kind: TokenKind) -> bool {
    object_primary_special_case(v, p, kind) || match kind {
        TokenKind::Identifier
        | TokenKind::Parameter
        | TokenKind::Variable
        | TokenKind::LParen
        | TokenKind::Slash
        | TokenKind::Dot
        | TokenKind::CurrentGraph
        | TokenKind::CurrentPropertyGraph
        | TokenKind::HomeGraph
        | TokenKind::HomePropertyGraph => true,
        _ => false,
    }
}

/// Whether `kind` at `p` may start a binding table expression in a strict context.
pub open spec fn strict_binding_table_expression_start(v: InputView, p: int, kind: TokenKind) -> bool {
    object_primary_special_case(v, p, kind) || match kind {
        TokenKind::Identifier
        | TokenKind::Parameter
        | TokenKind::Variable
        | TokenKind::LParen
        | TokenKind::LBrace
        | TokenKind::Slash
        | TokenKind::Dot => true,
        _ => false,
    }
}

/// Whether a let value expression starts at `p`: `VALUE`, or a name and `=`.
pub open spec fn starts_let_value_expression(v: InputView, p: int) -> bool {
    kind_at(v, p) == TokenKind::Value || (spec_is_identifier_like(kind_at(v, p)) && kind_ahead(v, p, 1)
        == Some(TokenKind::Eq))
}

/// Whether a character string or quoted word has kind `kind`.
pub open spec fn is_character_string_kind(kind: TokenKind) -> bool {
    kind == TokenKind::String || kind == TokenKind::DoubleQuotedString || kind == TokenKind::QuotedString
}

/// Whether a parameter followed by `.` is at `p`.
pub open spec fn starts_parameter_property_reference(v: InputView, p: int) -> bool {
    kind_at(v, p) == TokenKind::Parameter && kind_ahead(v, p, 1) == Some(TokenKind::Dot)
}

/// Whether a parenthesized path pattern expression starts at `p`: `(` followed by a
/// pattern, a path mode, a relationship or a subpath variable declaration.
pub open spec fn starts_parenthesized_path_pattern(v: InputView, p: int) -> bool {
    let next = kind_ahead(v, p, 1);
    kind_at(v, p) == TokenKind::LParen && (match next {
        Some(TokenKind::LParen)
        | Some(TokenKind::Walk)
        | Some(TokenKind::Trail)
        | Some(TokenKind::Simple)
        | Some(TokenKind::Acyclic)
        | Some(TokenKind::Minus)
        | Some(TokenKind::ArrowLeft)
        | Some(TokenKind::ArrowRight)
        | Some(TokenKind::Tilde) => true,
        _ => false,
    } || (next == Some(TokenKind::Lt) && kind_ahead(v, p, 2) == Some(TokenKind::Tilde)) || (
    opt_identifier_like(next) && kind_ahead(v, p, 2) == Some(TokenKind::Eq)))
}

/// Whether a simplified path pattern expression starts at `p`: `-/`, `~/`, `<-/` or `<~/`.
pub open spec fn starts_simplified_path_pattern(v: InputView, p: int) -> bool {
    let k = kind_at(v, p);
    let next = kind_ahead(v, p, 1);
    ((k == TokenKind::Minus || k == TokenKind::Tilde || k == TokenKind::ArrowLeft) && next == Some(
        TokenKind::Slash,
    )) || (k == TokenKind::Lt && next == Some(TokenKind::Tilde) && kind_ahead(v, p, 2) == Some(
        TokenKind::Slash,
    ))
}

/// Whether a relationship pattern starts at `p`: `-`, `<-`, `->`, `~` or `<~`.
pub open spec fn starts_relationship(v: InputView, p: int) -> bool {
    let k = kind_at(v, p);
    k == TokenKind::Minus || k == TokenKind::ArrowLeft || k == TokenKind::ArrowRight || k
        == TokenKind::Tilde || (k == TokenKind::Lt && kind_ahead(v, p, 1) == Some(TokenKind::Tilde))
}

/// Whether a relationship of an insert pattern starts at `p`: `-`, `<-` or `~`.
pub open spec fn starts_insert_relationship(v: InputView, p: int) -> bool {
    let k = kind_at(v, p);
    k == TokenKind::Minus || k == TokenKind::ArrowLeft || k == TokenKind::Tilde
}

/// Whether a path pattern factor starts at `p`: a parenthesized or simplified path pattern,
/// a node pattern or a relationship.
pub open spec fn starts_path_pattern_factor(v: InputView, p: int) -> bool {
    starts_parenthesized_path_pattern(v, p) || starts_simplified_path_pattern(v, p) || kind_at(v, p)
        == TokenKind::LParen || starts_relationship(v, p)
}

/// Whether an element variable starts at `p`: an identifier-like token other than `IS` and
/// `WHERE`.
pub open spec fn starts_element_variable(v: InputView, p: int) -> bool {
    let k = kind_at(v, p);
    spec_is_identifier_like(k) && k != TokenKind::Is && k != TokenKind::Where
}

/// Whether `kind` names an aggregate function, `CAST` or `ELEMENT_ID`.
pub fn call_like_keyword(kind: TokenKind) -> (r: bool)
    ensures
        r == is_call_like_keyword(kind),
{
    match kind {
        TokenKind::Avg
        | TokenKind::Count
        | TokenKind::Max
        | TokenKind::Min
        | TokenKind::Sum
        | TokenKind::CollectList
        | TokenKind::StddevSamp
        | TokenKind::StddevPop
        | TokenKind::PercentileCont
        | TokenKind::PercentileDisc
        | TokenKind::Cast
        | TokenKind::ElementId => true,
        _ => false,
    }
}

/// Whether an optional kind is a string literal, a quoted word, or `extra`.
fn quoted_kind_or(k: Option<TokenKind>, extra: TokenKind) -> (r: bool)
    ensures
        r == quoted_or(k, extra),
{
    match k {
        Some(TokenKind::String) | Some(TokenKind::DoubleQuotedString) | Some(TokenKind::QuotedString) => true,
        Some(x) => x == extra,
        None => false,
    }
}

impl Parser {
    /// Whether `LET` here starts a let value expression: `VALUE`, or a name and `=`, follows.
    pub fn starts_let_value_expression_after_let(&self) -> (r: bool)
        requires
            self.wf(),
        ensures
            r == starts_let_value_expression_after_let(self@.input, self@.pos),
    {
        if self.peek_n_kind(1) == Some(TokenKind::Value) {
            return true;
        }
        let liked = match self.peek_n_kind(1) {
            Some(k) => is_identifier_like(k),
            None => false,
        };
        liked && self.peek_n_kind(2) == Some(TokenKind::Eq)
    }

    /// Whether `kind`, standing where the next token is, starts an expression where a graph
    /// or binding table expression is expected.
    pub fn starts_object_expression_primary_special_case(&self, kind: TokenKind) -> (r: bool)
        requires
            self.wf(),
        ensures
            r == object_primary_special_case(self@.input, self@.pos, kind),
    {
        let next = self.peek_n_kind(1);
        let always = match kind {
            TokenKind::String
            | TokenKind::ByteString
            | TokenKind::Integer
            | TokenKind::Decimal
            | TokenKind::Null
            | TokenKind::True
            | TokenKind::False
            | TokenKind::Unknown
            | TokenKind::CurrentDate
            | TokenKind::CurrentTime
            | TokenKind::CurrentTimestamp
            | TokenKind::CurrentUser
            | TokenKind::Localtimestamp
            | TokenKind::LocalTime
            | TokenKind::Case
            | TokenKind::LBrace
            | TokenKind::LBracket => true,
            _ => false,
        };
        if always {
            return true;
        }
        let datetime_word = kind == TokenKind::Date || kind == TokenKind::Time || kind
            == TokenKind::Datetime || kind == TokenKind::Timestamp;
        if datetime_word && quoted_kind_or(next, TokenKind::LParen) {
            return true;
        }
        if kind == TokenKind::Interval && (quoted_kind_or(next, TokenKind::Plus) || next == Some(
            TokenKind::Minus,
        )) {
            return true;
        }
        if kind == TokenKind::Duration && quoted_kind_or(next, TokenKind::LParen) {
            return true;
        }
        if call_like_keyword(kind) && next == Some(TokenKind::LParen) {
            return true;
        }
        if (kind == TokenKind::Record || kind == TokenKind::Value) && next == Some(TokenKind::LBrace) {
            return true;
        }
        if (kind == TokenKind::List || kind == TokenKind::Array || kind == TokenKind::Path) && next
            == Some(TokenKind::LBracket) {
            return true;
        }
        if kind == TokenKind::Group && (next == Some(TokenKind::List) || next == Some(TokenKind::Array))
            && self.peek_n_kind(2) == Some(TokenKind::LBracket) {
            return true;
        }
        kind == TokenKind::Let && self.starts_let_value_expression_after_let()
    }

    /// Whether `kind`, standing where the next token is, may start a graph expression.
    pub fn is_strict_graph_expression_start(&self, kind: TokenKind) -> (r: bool)
        requires
            self.wf(),
        ensures
            r == strict_graph_expression_start(self@.input, self@.pos, kind),
    {
        self.starts_object_expression_primary_special_case(kind) || match kind {
            TokenKind::Identifier
            | TokenKind::Parameter
            | TokenKind::Variable
            | TokenKind::LParen
            | TokenKind::Slash
            | TokenKind::Dot
            | TokenKind::CurrentGraph
            | TokenKind::CurrentPropertyGraph
            | TokenKind::HomeGraph
            | TokenKind::HomePropertyGraph => true,
            _ => false,
        }
    }

    /// Whether `kind`, standing where the next token is, may start a binding table
    /// expression.
    pub fn is_strict_binding_table_expression_start(&self, kind: TokenKind) -> (r: bool)
        requires
            self.wf(),
        ensures
            r == strict_binding_table_expression_start(self@.input, self@.pos, kind),
    {
        self.starts_object_expression_primary_special_case(kind) || match kind {
            TokenKind::Identifier
            | TokenKind::Parameter
            | TokenKind::Variable
            | TokenKind::LParen
            | TokenKind::LBrace
            | TokenKind::Slash
            | TokenKind::Dot => true,
            _ => false,
        }
    }

    /// Whether a let value expression is next: `VALUE`, or a name and `=`.
    pub fn starts_let_value_expression(&self) -> (r: bool)
        requires
            self.wf(),
        ensures
            r == starts_let_value_expression(self@.input, self@.pos),
    {
        self.peek_kind() == TokenKind::Value || (is_identifier_like(self.peek_kind())
            && self.peek_n_kind(1) == Some(TokenKind::Eq))
    }

    /// Whether `kind` is a character string literal or a quoted word.
    pub fn is_character_string_token(&self, kind: TokenKind) -> (r: bool)
        ensures
            r == is_character_string_kind(kind),
    {
        kind == TokenKind::String || kind == TokenKind::DoubleQuotedString || kind
            == TokenKind::QuotedString
    }

    /// Whether a parameter followed by `.` is next.
    pub fn starts_parameter_property_reference(&self) -> (r: bool)
        requires
            self.wf(),
        ensures
            r == starts_parameter_property_reference(self@.input, self@.pos),
    {
        self.peek_kind() == TokenKind::Parameter && self.peek_n_kind(1) == Some(TokenKind::Dot)
    }

    /// Whether a parenthesized path pattern expression is next.
    pub fn starts_parenthesized_path_pattern_expression(&self) -> (r: bool)
        requires
            self.wf(),
        ensures
            r == starts_parenthesized_path_pattern(self@.input, self@.pos),
    {
        if self.peek_kind() != TokenKind::LParen {
            return false;
        }
        let next = self.peek_n_kind(1);
        let opens = match next {
            Some(TokenKind::LParen)
            | Some(TokenKind::Walk)
            | Some(TokenKind::Trail)
            | Some(TokenKind::Simple)
            | Some(TokenKind::Acyclic)
            | Some(TokenKind::Minus)
            | Some(TokenKind::ArrowLeft)
            | Some(TokenKind::ArrowRight)
            | Some(TokenKind::Tilde) => true,
            _ => false,
        };
        if opens {
            return true;
        }
        if next == Some(TokenKind::Lt) && self.peek_n_kind(2) == Some(TokenKind::Tilde) {
            return true;
        }
        let liked = match next {
            Some(k) => is_identifier_like(k),
            None => false,
        };
        liked && self.peek_n_kind(2) == Some(TokenKind::Eq)
    }

    /// Whether a simplified path pattern expression is next: `-/`, `~/`, `<-/` or `<~/`.
    pub fn starts_simplified_path_pattern_expression(&self) -> (r: bool)
        requires
            self.wf(),
        ensures
            r == starts_simplified_path_pattern(self@.input, self@.pos),
    {
        let k = self.peek_kind();
        let next = self.peek_n_kind(1);
        ((k == TokenKind::Minus || k == TokenKind::Tilde || k == TokenKind::ArrowLeft) && next == Some(
            TokenKind::Slash,
        )) || (k == TokenKind::Lt && next == Some(TokenKind::Tilde) && self.peek_n_kind(2) == Some(
            TokenKind::Slash,
        ))
    }

    /// Whether a relationship pattern is next: `-`, `<-`, `->`, `~` or `<~`.
    pub fn starts_relationship(&self) -> (r: bool)
        requires
            self.wf(),
        ensures
            r == starts_relationship(self@.input, self@.pos),
    {
        let k = self.peek_kind();
        k == TokenKind::Minus || k == TokenKind::ArrowLeft || k == TokenKind::ArrowRight || k
            == TokenKind::Tilde || (k == TokenKind::Lt && self.peek_n_kind(1) == Some(TokenKind::Tilde))
    }

    /// Whether a relationship of an insert pattern is next: `-`, `<-` or `~`.
    pub fn starts_insert_relationship(&self) -> (r: bool)
        requires
            self.wf(),
        ensures
            r == starts_insert_relationship(self@.input, self@.pos),
    {
        let k = self.peek_kind();
        k == TokenKind::Minus || k == TokenKind::ArrowLeft || k == TokenKind::Tilde
    }

    /// Whether a path pattern factor is next.
    pub fn starts_path_pattern_factor(&self) -> (r: bool)
        requires
            self.wf(),
        ensures
            r == starts_path_pattern_factor(self@.input, self@.pos),
    {
        self.starts_parenthesized_path_pattern_expression() || self.starts_simplified_path_pattern_expression()
            || self.peek_kind() == TokenKind::LParen || self.starts_relationship()
    }

    /// Whether an element variable is next: an identifier-like token other than `IS` and
    /// `WHERE`.
    pub fn starts_element_variable(&self) -> (r: bool)
        requires
            self.wf(),
        ensures
            r == starts_element_variable(self@.input, self@.pos),
    {
        let k = self.peek_kind();
        is_identifier_like(k) && k != TokenKind::Is && k != TokenKind::Where
    }
}

} // verus!
