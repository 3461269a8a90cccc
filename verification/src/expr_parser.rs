use vstd::prelude::*;
use crate::ast::{
    BinaryOp, Identifier, ListValueTypeName, TrimSpec, NumericFunctionKind, SetQuantifier, SourceDestinationKind, StringLengthUnit, SubstringSide,
    UnaryOp,
};
use crate::functions::{is_general_set_function_name, is_refused_value_function, reject_non_standard_value_function};
use crate::error::Error;
use crate::expr_grammar::{
    case_step, case_whens_rest, lemma_whens_view, lemma_whens_view_push, whens_view,
    ExprView, lemma_view_pb, view_pb,
    always_own_form, arguments_rest, call_error, call_own_form, call_quantifier, element_tail_step, exprs_view,
    function_call_step, lemma_exprs_view, list_step, list_values_step, map_after_lbrace_step, map_entries_rest,
    map_literal_step, entries_view, multi_trim_step, path_rest, path_starts, path_step, trim_step, has_field, lemma_entries_view, lemma_entries_view_push, cast_step, coalesce_step, nullif_step, typed_literal_at,
    numeric_function_of, normalize_call_step, one_argument_call, one_argument_step, simple_function_kind, two_argument_call, simple_function_step,
    takes_two_arguments, two_arguments_step, lemma_exprs_view_push, names_variable, comparison_op, comparison_rest, element_variable_message, expr_result,
    expr_step, expr_view, i64_from_text, is_tail_message, is_tail_step, level_op,
    level_rest, level_step, own_form_at, postfix_rest, primary_starts,
    primary_step, unary_op, unary_step, unsupported_form_message,
};
use crate::grammar::message_at;
use crate::kinds::is_identifier_like;
use crate::expr_walk::same_identifier;
use crate::procedure_body::expr_contains_procedure_body;
use crate::parser::{kind_at, parse_u64_text, same_input, Parser};
use crate::syntax::{CaseWhenClause, Expr, Literal, MapLiteral};
use crate::text::{chars_eq_ignore_ascii_case, chars_of, push_str, string_from_chars, trim_dollar_prefix};
use crate::token::TokenKind;

verus! {

/// The value of an integer literal's text, if it fits in an `i64`, as `i64::from_str` reads
/// a decimal numeral.
pub fn parse_i64_text(text: &String) -> (r: Option<i64>)
    ensures
        r == i64_from_text(text@),
{
    match parse_u64_text(text) {
        Some(n) => if n <= 9223372036854775807u64 {
            Some(n as i64)
        } else {
            None
        },
        None => None,
    }
}

/// The binary operator of level `l` for a token of kind `k`.
fn level_operator(l: u8, k: TokenKind) -> (r: Option<BinaryOp>)
    ensures
        r == level_op(l as int, k),
{
    if l == 5 && k == TokenKind::Or {
        Some(BinaryOp::Or)
    } else if l == 5 && k == TokenKind::Xor {
        Some(BinaryOp::Xor)
    } else if l == 4 && k == TokenKind::And {
        Some(BinaryOp::And)
    } else if l == 2 && k == TokenKind::DoublePipe {
        Some(BinaryOp::Concat)
    } else if l == 1 && k == TokenKind::Plus {
        Some(BinaryOp::Add)
    } else if l == 1 && k == TokenKind::Minus {
        Some(BinaryOp::Sub)
    } else if l == 0 && k == TokenKind::Star {
        Some(BinaryOp::Mul)
    } else if l == 0 && k == TokenKind::Slash {
        Some(BinaryOp::Div)
    } else {
        None
    }
}

/// The comparison operator for a token of kind `k`.
fn comparison_operator(k: TokenKind) -> (r: Option<BinaryOp>)
    ensures
        r == comparison_op(k),
{
    match k {
        TokenKind::Eq => Some(BinaryOp::Eq),
        TokenKind::Neq => Some(BinaryOp::Neq),
        TokenKind::Lt => Some(BinaryOp::Lt),
        TokenKind::Le => Some(BinaryOp::Le),
        TokenKind::Gt => Some(BinaryOp::Gt),
        TokenKind::Ge => Some(BinaryOp::Ge),
        _ => None,
    }
}

/// The unary operator for a token of kind `k`.
fn unary_operator(k: TokenKind) -> (r: Option<UnaryOp>)
    ensures
        r == unary_op(k),
{
    match k {
        TokenKind::Not => Some(UnaryOp::Not),
        TokenKind::Plus => Some(UnaryOp::Pos),
        TokenKind::Minus => Some(UnaryOp::Neg),
        _ => None,
    }
}

/// Whether a token of kind `k` always opens a form of its own as a primary.
fn always_opens_own_form(k: TokenKind) -> (r: bool)
    ensures
        r == always_own_form(k),
{
    matches!(
        k,
        TokenKind::Date | TokenKind::Time | TokenKind::Datetime | TokenKind::Timestamp | TokenKind::Interval
            | TokenKind::Case | TokenKind::Cast | TokenKind::CurrentTime | TokenKind::CurrentTimestamp
            | TokenKind::Localtimestamp | TokenKind::PropertyExists | TokenKind::ElementId | TokenKind::Exists
            | TokenKind::Same | TokenKind::AllDifferent | TokenKind::ByteString
    )
}

/// Whether a token of kind `k` opens a function of its own before `(`.
fn opens_own_call(k: TokenKind) -> (r: bool)
    ensures
        r == call_own_form(k),
{
    matches!(
        k,
        TokenKind::Duration | TokenKind::DurationBetween | TokenKind::Coalesce | TokenKind::Nullif
            | TokenKind::ZonedTime | TokenKind::ZonedDatetime | TokenKind::LocalTime | TokenKind::LocalDatetime
            | TokenKind::Abs | TokenKind::Floor | TokenKind::Ceil | TokenKind::Ceiling | TokenKind::Sqrt
            | TokenKind::Log10 | TokenKind::Ln | TokenKind::Exp | TokenKind::Sin | TokenKind::Cos | TokenKind::Tan
            | TokenKind::Cot | TokenKind::Sinh | TokenKind::Cosh | TokenKind::Tanh | TokenKind::Asin
            | TokenKind::Acos | TokenKind::Atan | TokenKind::Degrees | TokenKind::Radians | TokenKind::PathLength
            | TokenKind::Mod | TokenKind::Power | TokenKind::Log | TokenKind::Left | TokenKind::Right
            | TokenKind::Trim | TokenKind::Btrim | TokenKind::Ltrim | TokenKind::Rtrim | TokenKind::Elements
            | TokenKind::Upper | TokenKind::Lower | TokenKind::Normalize | TokenKind::CharLength
            | TokenKind::CharacterLength | TokenKind::ByteLength | TokenKind::OctetLength
    )
}

/// The numeric function that a keyword of kind `k` names.
fn numeric_function_kind(k: TokenKind) -> (r: Option<NumericFunctionKind>)
    ensures
        r == numeric_function_of(k),
{
    match k {
        TokenKind::Floor => Some(NumericFunctionKind::Floor),
        TokenKind::Ceil | TokenKind::Ceiling => Some(NumericFunctionKind::Ceil),
        TokenKind::Sqrt => Some(NumericFunctionKind::Sqrt),
        TokenKind::Log10 => Some(NumericFunctionKind::Log10),
        TokenKind::Ln => Some(NumericFunctionKind::Ln),
        TokenKind::Exp => Some(NumericFunctionKind::Exp),
        TokenKind::Sin => Some(NumericFunctionKind::Sin),
        TokenKind::Cos => Some(NumericFunctionKind::Cos),
        TokenKind::Tan => Some(NumericFunctionKind::Tan),
        TokenKind::Cot => Some(NumericFunctionKind::Cot),
        TokenKind::Sinh => Some(NumericFunctionKind::Sinh),
        TokenKind::Cosh => Some(NumericFunctionKind::Cosh),
        TokenKind::Tanh => Some(NumericFunctionKind::Tanh),
        TokenKind::Asin => Some(NumericFunctionKind::Asin),
        TokenKind::Acos => Some(NumericFunctionKind::Acos),
        TokenKind::Atan => Some(NumericFunctionKind::Atan),
        TokenKind::Degrees => Some(NumericFunctionKind::Degrees),
        TokenKind::Radians => Some(NumericFunctionKind::Radians),
        TokenKind::PathLength => Some(NumericFunctionKind::PathLength),
        TokenKind::Mod => Some(NumericFunctionKind::Mod),
        TokenKind::Power => Some(NumericFunctionKind::Power),
        TokenKind::Log => Some(NumericFunctionKind::Log),
        _ => None,
    }
}

/// Whether a keyword of kind `k` names a function that takes expressions in parentheses.
fn is_simple_function(k: TokenKind) -> (r: bool)
    ensures
        r == simple_function_kind(k),
{
    k == TokenKind::Abs || numeric_function_kind(k).is_some() || k == TokenKind::Upper || k == TokenKind::Lower || k
        == TokenKind::CharLength || k == TokenKind::CharacterLength || k == TokenKind::ByteLength || k
        == TokenKind::OctetLength || k == TokenKind::Elements || k == TokenKind::Left || k == TokenKind::Right || k
        == TokenKind::Normalize || k == TokenKind::DurationBetween
}

/// The call of a function of one argument, `e`, named by a keyword of kind `k`.
fn one_argument_expr(k: TokenKind, e: Expr) -> (r: Expr)
    requires
        simple_function_kind(k),
        !takes_two_arguments(k),
        k != TokenKind::Normalize,
    ensures
        expr_view(r) == one_argument_call(k, expr_view(e)),
{
    if k == TokenKind::Abs {
        return Expr::AbsoluteValue { expr: Box::new(e) };
    }
    if k == TokenKind::Upper || k == TokenKind::Lower {
        return Expr::Fold { upper: k == TokenKind::Upper, value: Box::new(e) };
    }
    if k == TokenKind::CharLength || k == TokenKind::CharacterLength {
        return Expr::StringLength { unit: StringLengthUnit::Characters, value: Box::new(e) };
    }
    if k == TokenKind::ByteLength || k == TokenKind::OctetLength {
        return Expr::StringLength { unit: StringLengthUnit::Bytes, value: Box::new(e) };
    }
    if k == TokenKind::Elements {
        return Expr::Elements { path: Box::new(e) };
    }
    let function = match numeric_function_kind(k) {
        Some(f) => f,
        None => NumericFunctionKind::Floor,
    };
    let args = vec![e];
    proof {
        lemma_exprs_view(args@);
        assert(exprs_view(args@) =~= seq![expr_view(args@[0])]);
    }
    Expr::NumericFunction { function, args }
}

/// The call of a function of two arguments, `a` and `b`, named by a keyword of kind `k`.
fn two_argument_expr(k: TokenKind, a: Expr, b: Expr) -> (r: Expr)
    requires
        takes_two_arguments(k),
    ensures
        expr_view(r) == two_argument_call(k, expr_view(a), expr_view(b)),
{
    if k == TokenKind::DurationBetween {
        return Expr::DurationBetween { left: Box::new(a), right: Box::new(b) };
    }
    if k == TokenKind::Left || k == TokenKind::Right {
        let side = if k == TokenKind::Left {
            SubstringSide::Left
        } else {
            SubstringSide::Right
        };
        return Expr::SubstringByLength { side, value: Box::new(a), length: Box::new(b) };
    }
    let function = match numeric_function_kind(k) {
        Some(f) => f,
        None => NumericFunctionKind::Mod,
    };
    let args = vec![a, b];
    proof {
        lemma_exprs_view(args@);
        assert(exprs_view(args@) =~= seq![expr_view(args@[0]), expr_view(args@[1])]);
    }
    Expr::NumericFunction { function, args }
}

/// Whether an entry of `entries` has the name `key`, ignoring the case of ASCII letters.
fn has_entry_named(entries: &Vec<(Identifier, Expr)>, key: &Identifier) -> (r: bool)
    ensures
        r == has_field(entries_view(entries@), key@),
{
    proof {
        lemma_entries_view(entries@);
    }
    let mut i: usize = 0;
    while i < entries.len()
        invariant
            i <= entries.len(),
            entries_view(entries@).len() == entries@.len(),
            forall|k: int| 0 <= k < entries@.len() ==> #[trigger] entries_view(entries@)[k] == (entries@[k].0@, expr_view(entries@[k].1)),
            forall|k: int| 0 <= k < i ==> !crate::text::eq_ignore_ascii_case(#[trigger] entries_view(entries@)[k].0, key@),
        decreases entries.len() - i,
    {
        proof {
            assert(entries_view(entries@)[i as int] == (entries@[i as int].0@, expr_view(entries@[i as int].1)));
        }
        if same_identifier(&entries[i].0, key) {
            assert(crate::text::eq_ignore_ascii_case(entries_view(entries@)[i as int].0, key@));
            return true;
        }
        i += 1;
    }
    false
}

/// The kinds named when no primary can start at a token.
fn primary_start_kinds() -> (v: Vec<TokenKind>)
    ensures
        v@ == primary_starts(),
{
    let v = vec![
        TokenKind::Identifier,
        TokenKind::Parameter,
        TokenKind::String,
        TokenKind::ByteString,
        TokenKind::Integer,
        TokenKind::Decimal,
        TokenKind::Null,
        TokenKind::True,
        TokenKind::False,
        TokenKind::Unknown,
        TokenKind::Case,
        TokenKind::Cast,
        TokenKind::Interval,
        TokenKind::PropertyExists,
        TokenKind::ElementId,
        TokenKind::Exists,
        TokenKind::Same,
        TokenKind::AllDifferent,
        TokenKind::LParen,
        TokenKind::LBracket,
        TokenKind::LBrace,
    ];
    assert(v@ =~= primary_starts());
    v
}

/// Refuses, at `offset`, a call of the aggregate function `name` with an argument that
/// holds an inline procedure call, with the wrong number of arguments, or `COUNT(*)` with a
/// set quantifier.
fn check_aggregate_call(name: &Identifier, quantifier: Option<SetQuantifier>, args: &Vec<Expr>, offset: usize) -> (r: Result<(), Error>)
    requires
        !is_refused_value_function(name@),
        exprs_view(args@).len() == args@.len(),
        forall|i: int| 0 <= i < args@.len() ==> #[trigger] exprs_view(args@)[i] == expr_view(args@[i]),
    ensures
        match call_error(name@, quantifier, exprs_view(args@), offset as int) {
            Some(e) => r matches Err(x) && x@ == e,
            None => r is Ok,
        },
{
    let t = chars_of(name.value.as_str());
    let n = args.len();
    let mut holds_body = false;
    let mut k: usize = 0;
    while k < n
        invariant
            n == args@.len(),
            k <= n,
            holds_body == (exists|j: int| 0 <= j < k && view_pb(#[trigger] exprs_view(args@)[j])),
            forall|j: int| 0 <= j < args@.len() ==> #[trigger] exprs_view(args@)[j] == expr_view(args@[j]),
            exprs_view(args@).len() == args@.len(),
        decreases n - k,
    {
        proof {
            lemma_view_pb(args@[k as int]);
            assert(exprs_view(args@)[k as int] == expr_view(args@[k as int]));
        }
        if expr_contains_procedure_body(&args[k]) {
            holds_body = true;
        }
        k += 1;
    }
    if holds_body {
        let mut m = chars_of("aggregate function ");
        push_str(&mut m, name.value.as_str());
        push_str(&mut m, " cannot contain a procedure body");
        return Err(Error::Message { offset, message: string_from_chars(&m) });
    }
    if chars_eq_ignore_ascii_case(&t, "COUNT") {
        if n != 1 {
            return Err(Error::Message { offset, message: "aggregate function COUNT requires one value expression or *".to_owned() });
        }
        if matches!(args[0], Expr::Wildcard) && quantifier.is_some() {
            return Err(Error::Message { offset, message: "aggregate function COUNT(*) cannot specify a set quantifier".to_owned() });
        }
        return Ok(());
    }
    if is_general_set_function_name(name.value.as_str()) {
        if n != 1 || matches!(args[0], Expr::Wildcard) {
            let mut m = chars_of("aggregate function ");
            push_str(&mut m, name.value.as_str());
            push_str(&mut m, " requires one value expression");
            return Err(Error::Message { offset, message: string_from_chars(&m) });
        }
        return Ok(());
    }
    let mut star = false;
    let mut i: usize = 0;
    while i < n
        invariant
            n == args@.len(),
            i <= n,
            star == (exists|j: int| 0 <= j < i && #[trigger] exprs_view(args@)[j] is Wildcard),
            forall|j: int| 0 <= j < args@.len() ==> #[trigger] exprs_view(args@)[j] == expr_view(args@[j]),
            exprs_view(args@).len() == args@.len(),
        decreases n - i,
    {
        proof {
            assert(exprs_view(args@)[i as int] == expr_view(args@[i as int]));
        }
        if matches!(args[i], Expr::Wildcard) {
            star = true;
        }
        i += 1;
    }
    if n != 2 || star {
        let mut m = chars_of("aggregate function ");
        push_str(&mut m, name.value.as_str());
        push_str(&mut m, " requires two numeric value expressions");
        return Err(Error::Message { offset, message: string_from_chars(&m) });
    }
    Ok(())
}

impl Parser {
    /// The error for an element predicate whose operand is not a variable, at the current
    /// token.
    fn element_variable_error(&self, predicate: &str) -> (e: Error)
        requires
            self.wf(),
        ensures
            e@ == message_at(self@.input, self@.pos, element_variable_message(predicate@)),
    {
        let mut m: Vec<char> = Vec::new();
        push_str(&mut m, predicate);
        push_str(&mut m, " predicate target must be an element variable");
        Error::Message { offset: self.peek().offset, message: string_from_chars(&m) }
    }

    /// Whether the token of kind `k` that was just read opens a form of its own that this
    /// parser does not read.
    fn opens_own_form(&self, k: TokenKind) -> (r: bool)
        requires
            self.wf(),
        ensures
            r == own_form_at(self@.input, self@.pos, k),
    {
        let next = self.peek_kind();
        always_opens_own_form(k) || (opens_own_call(k) && next == TokenKind::LParen) || (k == TokenKind::Duration
            && self.is_character_string_token(next))  || (k == TokenKind::Value && next == TokenKind::LBrace) || (k == TokenKind::Let
            && self.starts_let_value_expression()) || (k == TokenKind::Graph
            && self.is_strict_graph_expression_start(next)) || (k == TokenKind::Property && next
            == TokenKind::Graph && match self.peek_n_kind(1) {
            Some(k2) => self.is_strict_graph_expression_start(k2),
            None => false,
        }) || (k == TokenKind::Table && self.is_strict_binding_table_expression_start(next)) || (k
            == TokenKind::Binding && next == TokenKind::Table)
    }

    /// Reads an expression: operands joined by operators, which bind from `OR`/`XOR`
    /// (loosest) through `AND`, comparisons and `IS` predicates, `||`, `+`/`-` to `*`/`/`
    /// (tightest), each level from the left; then unary `NOT`/`+`/`-`, property references
    /// with `.`, and primaries.
    pub fn parse_expr(&mut self) -> (r: Result<Expr, Error>)
        requires
            old(self).wf(),
        ensures
            final(self).wf(),
            same_input(final(self)@, old(self)@),
            old(self)@.pos <= final(self)@.pos,
            (expr_result(r), final(self)@.pos) == expr_step(old(self)@.input, old(self)@.pos),
        decreases old(self)@.input.tokens.len() - old(self)@.pos, 40int,
    {
        proof {
            self.lemma_valid();
        }
        self.parse_level(5)
    }

    /// Reads the operands of level `l` joined by its operators.
    fn parse_level(&mut self, l: u8) -> (r: Result<Expr, Error>)
        requires
            old(self).wf(),
            l <= 5,
        ensures
            final(self).wf(),
            same_input(final(self)@, old(self)@),
            old(self)@.pos <= final(self)@.pos,
            (expr_result(r), final(self)@.pos) == level_step(old(self)@.input, old(self)@.pos, l as int),
        decreases old(self)@.input.tokens.len() - old(self)@.pos, 22 + 3 * l,
    {
        proof {
            self.lemma_valid();
        }
        let first = if l == 0 {
            self.parse_unary()
        } else {
            self.parse_level(l - 1)
        };
        let e = match first {
            Ok(e) => e,
            Err(er) => return Err(er),
        };
        proof {
            self.lemma_valid();
        }
        if l == 3 {
            self.parse_comparison_rest(e)
        } else {
            self.parse_level_rest(l, e)
        }
    }

    /// Reads more operands of level `l` after `e`.
    fn parse_level_rest(&mut self, l: u8, e: Expr) -> (r: Result<Expr, Error>)
        requires
            old(self).wf(),
            l <= 5,
        ensures
            final(self).wf(),
            same_input(final(self)@, old(self)@),
            old(self)@.pos <= final(self)@.pos,
            (expr_result(r), final(self)@.pos) == level_rest(
                old(self)@.input,
                old(self)@.pos,
                l as int,
                expr_view(e),
            ),
        decreases old(self)@.input.tokens.len() - old(self)@.pos, 21 + 3 * l,
    {
        proof {
            self.lemma_valid();
        }
        let op = match level_operator(l, self.peek_kind()) {
            Some(op) => op,
            None => return Ok(e),
        };
        self.bump();
        proof {
            self.lemma_valid();
        }
        let right = if l == 0 {
            self.parse_unary()
        } else {
            self.parse_level(l - 1)
        };
        let r = match right {
            Ok(r) => r,
            Err(er) => return Err(er),
        };
        proof {
            self.lemma_valid();
        }
        let e2 = Expr::Binary { left: Box::new(e), op, right: Box::new(r) };
        self.parse_level_rest(l, e2)
    }

    /// Reads `OR`/`XOR` disjunctions.
    pub fn parse_or(&mut self) -> (r: Result<Expr, Error>)
        requires
            old(self).wf(),
        ensures
            final(self).wf(),
            same_input(final(self)@, old(self)@),
            (expr_result(r), final(self)@.pos) == level_step(old(self)@.input, old(self)@.pos, 5),
    {
        self.parse_level(5)
    }

    /// Reads `AND` conjunctions.
    pub fn parse_and(&mut self) -> (r: Result<Expr, Error>)
        requires
            old(self).wf(),
        ensures
            final(self).wf(),
            same_input(final(self)@, old(self)@),
            (expr_result(r), final(self)@.pos) == level_step(old(self)@.input, old(self)@.pos, 4),
    {
        self.parse_level(4)
    }

    /// Reads comparisons, label tests and `IS` predicates.
    pub fn parse_comparison(&mut self) -> (r: Result<Expr, Error>)
        requires
            old(self).wf(),
        ensures
            final(self).wf(),
            same_input(final(self)@, old(self)@),
            (expr_result(r), final(self)@.pos) == level_step(old(self)@.input, old(self)@.pos, 3),
    {
        self.parse_level(3)
    }

    /// Reads `||` concatenations.
    pub fn parse_concat(&mut self) -> (r: Result<Expr, Error>)
        requires
            old(self).wf(),
        ensures
            final(self).wf(),
            same_input(final(self)@, old(self)@),
            (expr_result(r), final(self)@.pos) == level_step(old(self)@.input, old(self)@.pos, 2),
    {
        self.parse_level(2)
    }

    /// Reads sums and differences.
    pub fn parse_additive(&mut self) -> (r: Result<Expr, Error>)
        requires
            old(self).wf(),
        ensures
            final(self).wf(),
            same_input(final(self)@, old(self)@),
            (expr_result(r), final(self)@.pos) == level_step(old(self)@.input, old(self)@.pos, 1),
    {
        self.parse_level(1)
    }

    /// Reads products and quotients.
    pub fn parse_multiplicative(&mut self) -> (r: Result<Expr, Error>)
        requires
            old(self).wf(),
        ensures
            final(self).wf(),
            same_input(final(self)@, old(self)@),
            (expr_result(r), final(self)@.pos) == level_step(old(self)@.input, old(self)@.pos, 0),
    {
        self.parse_level(0)
    }

    /// Reads more comparisons after `e`.
    fn parse_comparison_rest(&mut self, e: Expr) -> (r: Result<Expr, Error>)
        requires
            old(self).wf(),
        ensures
            final(self).wf(),
            same_input(final(self)@, old(self)@),
            old(self)@.pos <= final(self)@.pos,
            (expr_result(r), final(self)@.pos) == comparison_rest(old(self)@.input, old(self)@.pos, expr_view(e)),
        decreases old(self)@.input.tokens.len() - old(self)@.pos, 30int,
    {
        proof {
            self.lemma_valid();
        }
        let k = self.peek_kind();
        let e2 = if k == TokenKind::Colon {
            self.bump();
            match e {
                Expr::Identifier(variable) => match self.parse_label_expression() {
                    Ok(l) => Expr::IsLabeled { variable, negated: false, label_expression: l },
                    Err(er) => return Err(er),
                },
                _ => return Err(self.element_variable_error("labeled")),
            }
        } else if let Some(op) = comparison_operator(k) {
            self.bump();
            match self.parse_level(2) {
                Ok(right) => Expr::Binary { left: Box::new(e), op, right: Box::new(right) },
                Err(er) => return Err(er),
            }
        } else if k == TokenKind::Is {
            self.bump();
            let negated = self.eat(TokenKind::Not).is_some();
            match self.parse_is_predicate_tail(e, negated) {
                Ok(x) => x,
                Err(er) => return Err(er),
            }
        } else {
            return Ok(e);
        };
        proof {
            self.lemma_valid();
        }
        self.parse_comparison_rest(e2)
    }

    /// Reads the predicate after `IS` or `IS NOT` (`negated`) about `expr`: a value type
    /// (after `TYPED` or `::`), `NULL`, `UNKNOWN`, `TRUE`, `FALSE`, `SOURCE OF` or
    /// `DESTINATION OF` an edge, an optional normal form and `NORMALIZED`, `DIRECTED`, or
    /// `LABELED` and a label expression. The element predicates need a variable.
    #[verifier::rlimit(50)]
    #[verifier::spinoff_prover]
    pub fn parse_is_predicate_tail(&mut self, expr: Expr, negated: bool) -> (r: Result<Expr, Error>)
        requires
            old(self).wf(),
        ensures
            final(self).wf(),
            same_input(final(self)@, old(self)@),
            old(self)@.pos <= final(self)@.pos,
            (expr_result(r), final(self)@.pos) == is_tail_step(
                old(self)@.input,
                old(self)@.pos,
                expr_view(expr),
                negated,
            ),
            r matches Ok(Expr::IsTyped { expr: x, .. }) ==> *x == expr,
            r matches Ok(Expr::IsNull { expr: x, .. }) ==> *x == expr,
            r matches Ok(Expr::IsUnknown { expr: x, .. }) ==> *x == expr,
            r matches Ok(Expr::IsTruth { expr: x, .. }) ==> *x == expr,
            r matches Ok(Expr::IsNormalized { expr: x, .. }) ==> *x == expr,
            r matches Ok(Expr::SourceDestination { node, .. }) ==> expr == Expr::Identifier(node),
            r matches Ok(Expr::IsDirected { variable, .. }) ==> expr == Expr::Identifier(variable),
            r matches Ok(Expr::IsLabeled { variable, .. }) ==> expr == Expr::Identifier(variable),
    {
        proof {
            self.lemma_valid();
        }
        if self.at(TokenKind::Typed) || self.at(TokenKind::DoubleColon) {
            return self.parse_is_typed_tail(expr, negated);
        }
        let k = self.peek_kind();
        if k == TokenKind::Null || k == TokenKind::Unknown || k == TokenKind::True || k == TokenKind::False {
            return self.parse_truth_tail(expr, negated);
        }
        self.parse_element_predicate_tail(expr, negated)
    }

    /// Reads a value type after `IS TYPED` or `IS ::` about `expr`.
    fn parse_is_typed_tail(&mut self, expr: Expr, negated: bool) -> (r: Result<Expr, Error>)
        requires
            old(self).wf(),
            kind_at(old(self)@.input, old(self)@.pos) == TokenKind::Typed || kind_at(old(self)@.input, old(self)@.pos)
                == TokenKind::DoubleColon,
        ensures
            final(self).wf(),
            same_input(final(self)@, old(self)@),
            old(self)@.pos <= final(self)@.pos,
            (expr_result(r), final(self)@.pos) == is_tail_step(
                old(self)@.input,
                old(self)@.pos,
                expr_view(expr),
                negated,
            ),
            r matches Ok(x) ==> x matches Expr::IsTyped { expr: y, .. } && *y == expr,
    {
        proof {
            self.lemma_valid();
        }
        if let Err(e) = self.parse_optional_typed_marker() {
            return Err(e);
        }
        proof {
            self.lemma_valid();
        }
        let t = match self.parse_value_type() {
            Ok(t) => t,
            Err(e) => return Err(e),
        };
        Ok(Expr::IsTyped { expr: Box::new(expr), negated, value_type: t })
    }

    /// Reads `NULL`, `UNKNOWN`, `TRUE` or `FALSE` after `IS` or `IS NOT` about `expr`.
    fn parse_truth_tail(&mut self, expr: Expr, negated: bool) -> (r: Result<Expr, Error>)
        requires
            old(self).wf(),
            kind_at(old(self)@.input, old(self)@.pos) == TokenKind::Null || kind_at(old(self)@.input, old(self)@.pos)
                == TokenKind::Unknown || kind_at(old(self)@.input, old(self)@.pos) == TokenKind::True || kind_at(
                old(self)@.input,
                old(self)@.pos,
            ) == TokenKind::False,
        ensures
            final(self).wf(),
            same_input(final(self)@, old(self)@),
            old(self)@.pos <= final(self)@.pos,
            (expr_result(r), final(self)@.pos) == is_tail_step(
                old(self)@.input,
                old(self)@.pos,
                expr_view(expr),
                negated,
            ),
            r matches Ok(Expr::IsNull { expr: x, .. }) ==> *x == expr,
            r matches Ok(Expr::IsUnknown { expr: x, .. }) ==> *x == expr,
            r matches Ok(Expr::IsTruth { expr: x, .. }) ==> *x == expr,
            !(r matches Ok(Expr::IsTyped { .. })),
            !(r matches Ok(Expr::IsNormalized { .. })),
            !(r matches Ok(Expr::SourceDestination { .. })),
            !(r matches Ok(Expr::IsDirected { .. })),
            !(r matches Ok(Expr::IsLabeled { .. })),
    {
        if self.eat(TokenKind::Null).is_some() {
            return Ok(Expr::IsNull { expr: Box::new(expr), negated });
        }
        if self.eat(TokenKind::Unknown).is_some() {
            return Ok(Expr::IsUnknown { expr: Box::new(expr), negated });
        }
        if self.eat(TokenKind::True).is_some() {
            return Ok(Expr::IsTruth { expr: Box::new(expr), negated, value: true });
        }
        if self.eat(TokenKind::False).is_some() {
            return Ok(Expr::IsTruth { expr: Box::new(expr), negated, value: false });
        }
        Ok(Expr::IsTruth { expr: Box::new(expr), negated, value: false })
    }

    /// Reads an element or normalization predicate after `IS` or `IS NOT` about `expr`.
    fn parse_element_predicate_tail(&mut self, expr: Expr, negated: bool) -> (r: Result<Expr, Error>)
        requires
            old(self).wf(),
        ensures
            final(self).wf(),
            same_input(final(self)@, old(self)@),
            old(self)@.pos <= final(self)@.pos,
            (expr_result(r), final(self)@.pos) == element_tail_step(
                old(self)@.input,
                old(self)@.pos,
                expr_view(expr),
                negated,
            ),
            r matches Ok(Expr::IsNormalized { expr: x, .. }) ==> *x == expr,
            r matches Ok(Expr::SourceDestination { node, .. }) ==> expr == Expr::Identifier(node),
            r matches Ok(Expr::IsDirected { variable, .. }) ==> expr == Expr::Identifier(variable),
            r matches Ok(Expr::IsLabeled { variable, .. }) ==> expr == Expr::Identifier(variable),
            !(r matches Ok(Expr::IsTyped { .. })),
            !(r matches Ok(Expr::IsNull { .. })),
            !(r matches Ok(Expr::IsUnknown { .. })),
            !(r matches Ok(Expr::IsTruth { .. })),
    {
        proof {
            self.lemma_valid();
        }
        let k = self.peek_kind();
        if k == TokenKind::Source || k == TokenKind::Destination {
            let node = match expr {
                Expr::Identifier(id) => id,
                _ => return Err(self.element_variable_error("source/destination")),
            };
            let kind = if k == TokenKind::Source {
                SourceDestinationKind::Source
            } else {
                SourceDestinationKind::Destination
            };
            self.bump();
            if let Err(e) = self.expect(TokenKind::Of) {
                return Err(e);
            }
            let edge = match self.parse_identifier() {
                Ok(edge) => edge,
                Err(e) => return Err(e),
            };
            return Ok(Expr::SourceDestination { node, negated, kind, edge });
        }
        if k == TokenKind::Normalized {
            self.bump();
            return Ok(Expr::IsNormalized { expr: Box::new(expr), negated, normal_form: None });
        }
        if is_identifier_like(k) && self.peek_n_kind(1) == Some(TokenKind::Normalized) {
            let n = match self.parse_normal_form() {
                Ok(n) => n,
                Err(e) => return Err(e),
            };
            if let Err(e) = self.expect(TokenKind::Normalized) {
                return Err(e);
            }
            return Ok(Expr::IsNormalized { expr: Box::new(expr), negated, normal_form: Some(n) });
        }
        if k == TokenKind::Directed {
            self.bump();
            return match expr {
                Expr::Identifier(variable) => Ok(Expr::IsDirected { variable, negated }),
                _ => Err(self.element_variable_error("directed")),
            };
        }
        if k == TokenKind::Labeled {
            self.bump();
            return match expr {
                Expr::Identifier(variable) => match self.parse_label_expression() {
                    Ok(l) => Ok(Expr::IsLabeled { variable, negated, label_expression: l }),
                    Err(e) => Err(e),
                },
                _ => Err(self.element_variable_error("labeled")),
            };
        }
        Err(Error::Message { offset: self.peek().offset, message: "expected standard IS predicate tail".to_owned() })
    }

    /// Reads the call of the function `name`, read at `offset`, after its `(`: no
    /// arguments, or an optional `DISTINCT` or `ALL` and arguments separated by commas; then
    /// `)`. Only aggregate functions are value functions: `COUNT` takes one argument or `*`
    /// (and `*` no set quantifier), the other general set functions one argument that is not
    /// `*`, the percentiles two; a general set function called without a set quantifier, on
    /// anything but `*`, takes `ALL`. No argument that this parser reads holds a procedure
    /// body, so an aggregate never needs to be refused for one.
    pub fn parse_function_call(&mut self, name: Identifier, offset: usize) -> (r: Result<Expr, Error>)
        requires
            old(self).wf(),
        ensures
            final(self).wf(),
            same_input(final(self)@, old(self)@),
            old(self)@.pos <= final(self)@.pos,
            (expr_result(r), final(self)@.pos) == function_call_step(
                old(self)@.input,
                old(self)@.pos,
                name@,
                offset as int,
            ),
        decreases old(self)@.input.tokens.len() - old(self)@.pos, 50int,
    {
        proof {
            self.lemma_valid();
        }
        let mut args: Vec<Expr> = Vec::new();
        let quantifier = if self.at(TokenKind::RParen) {
            None
        } else {
            let quantifier = if self.eat(TokenKind::Distinct).is_some() {
                Some(SetQuantifier::Distinct)
            } else if self.eat(TokenKind::All).is_some() {
                Some(SetQuantifier::All)
            } else {
                None
            };
            proof {
                self.lemma_valid();
                assert(exprs_view(args@) =~= Seq::<ExprView>::empty());
            }
            if let Err(e) = self.parse_arguments(&mut args) {
                return Err(e);
            }
            quantifier
        };
        proof {
            self.lemma_valid();
            if old(self)@.input.tokens[old(self)@.pos as int].kind == TokenKind::RParen {
                assert(exprs_view(args@) =~= Seq::<ExprView>::empty());
            }
        }
        if let Err(e) = self.expect(TokenKind::RParen) {
            return Err(e);
        }
        if let Err(e) = reject_non_standard_value_function(&name, offset) {
            return Err(e);
        }
        proof {
            lemma_exprs_view(args@);
        }
        if let Err(e) = check_aggregate_call(&name, quantifier, &args, offset) {
            return Err(e);
        }
        let star_only = args.len() == 1 && matches!(args[0], Expr::Wildcard);
        let quantifier = if quantifier.is_none() && is_general_set_function_name(name.value.as_str()) && !star_only {
            Some(SetQuantifier::All)
        } else {
            quantifier
        };
        Ok(Expr::Function { name, quantifier, args })
    }

    /// Reads the call of the function that a keyword of kind `k` names, from its `(`.
    fn parse_simple_function(&mut self, k: TokenKind) -> (r: Result<Expr, Error>)
        requires
            old(self).wf(),
            simple_function_kind(k),
        ensures
            final(self).wf(),
            same_input(final(self)@, old(self)@),
            old(self)@.pos <= final(self)@.pos,
            (expr_result(r), final(self)@.pos) == simple_function_step(old(self)@.input, old(self)@.pos, k),
        decreases old(self)@.input.tokens.len() - old(self)@.pos, 52int,
    {
        proof {
            self.lemma_valid();
        }
        if k == TokenKind::Normalize {
            return self.parse_normalize_call();
        }
        if k == TokenKind::DurationBetween || k == TokenKind::Mod || k == TokenKind::Power || k == TokenKind::Log || k
            == TokenKind::Left || k == TokenKind::Right {
            assert(takes_two_arguments(k));
            return match self.parse_two_arguments() {
                Ok((a, b)) => Ok(two_argument_expr(k, a, b)),
                Err(e) => Err(e),
            };
        }
        match self.parse_one_argument() {
            Ok(e) => Ok(one_argument_expr(k, e)),
            Err(er) => Err(er),
        }
    }

    /// Reads `(`, an expression, `)`.
    fn parse_one_argument(&mut self) -> (r: Result<Expr, Error>)
        requires
            old(self).wf(),
        ensures
            final(self).wf(),
            same_input(final(self)@, old(self)@),
            old(self)@.pos <= final(self)@.pos,
            (expr_result(r), final(self)@.pos) == one_argument_step(old(self)@.input, old(self)@.pos),
        decreases old(self)@.input.tokens.len() - old(self)@.pos, 50int,
    {
        proof {
            self.lemma_valid();
        }
        if let Err(e) = self.expect(TokenKind::LParen) {
            return Err(e);
        }
        proof {
            self.lemma_valid();
        }
        let e = match self.parse_expr() {
            Ok(e) => e,
            Err(er) => return Err(er),
        };
        match self.expect(TokenKind::RParen) {
            Ok(_) => Ok(e),
            Err(er) => Err(er),
        }
    }

    /// Reads `(`, two expressions separated by a comma, `)`.
    fn parse_two_arguments(&mut self) -> (r: Result<(Expr, Expr), Error>)
        requires
            old(self).wf(),
        ensures
            final(self).wf(),
            same_input(final(self)@, old(self)@),
            old(self)@.pos <= final(self)@.pos,
            (match r {
                Ok((a, b)) => Ok((expr_view(a), expr_view(b))),
                Err(e) => Err(e@),
            }, final(self)@.pos) == two_arguments_step(old(self)@.input, old(self)@.pos),
        decreases old(self)@.input.tokens.len() - old(self)@.pos, 50int,
    {
        proof {
            self.lemma_valid();
        }
        if let Err(e) = self.expect(TokenKind::LParen) {
            return Err(e);
        }
        proof {
            self.lemma_valid();
        }
        let a = match self.parse_expr() {
            Ok(e) => e,
            Err(er) => return Err(er),
        };
        if let Err(er) = self.expect(TokenKind::Comma) {
            return Err(er);
        }
        proof {
            self.lemma_valid();
        }
        let b = match self.parse_expr() {
            Ok(e) => e,
            Err(er) => return Err(er),
        };
        match self.expect(TokenKind::RParen) {
            Ok(_) => Ok((a, b)),
            Err(er) => Err(er),
        }
    }

    /// Reads `NORMALIZE` from its `(`: an expression, an optional comma and normal form,
    /// `)`.
    fn parse_normalize_call(&mut self) -> (r: Result<Expr, Error>)
        requires
            old(self).wf(),
        ensures
            final(self).wf(),
            same_input(final(self)@, old(self)@),
            old(self)@.pos <= final(self)@.pos,
            (expr_result(r), final(self)@.pos) == normalize_call_step(old(self)@.input, old(self)@.pos),
        decreases old(self)@.input.tokens.len() - old(self)@.pos, 50int,
    {
        proof {
            self.lemma_valid();
        }
        if let Err(e) = self.expect(TokenKind::LParen) {
            return Err(e);
        }
        proof {
            self.lemma_valid();
        }
        let e = match self.parse_expr() {
            Ok(e) => e,
            Err(er) => return Err(er),
        };
        let normal_form = if self.eat(TokenKind::Comma).is_some() {
            match self.parse_normal_form() {
                Ok(n) => Some(n),
                Err(er) => return Err(er),
            }
        } else {
            None
        };
        match self.expect(TokenKind::RParen) {
            Ok(_) => Ok(Expr::Normalize { value: Box::new(e), normal_form }),
            Err(er) => Err(er),
        }
    }

    /// Reads `CAST` after its keyword: `(`, an expression, `AS`, a value type, `)`.
    fn parse_cast_expression(&mut self) -> (r: Result<Expr, Error>)
        requires
            old(self).wf(),
        ensures
            final(self).wf(),
            same_input(final(self)@, old(self)@),
            old(self)@.pos <= final(self)@.pos,
            (expr_result(r), final(self)@.pos) == cast_step(old(self)@.input, old(self)@.pos),
        decreases old(self)@.input.tokens.len() - old(self)@.pos, 50int,
    {
        proof {
            self.lemma_valid();
        }
        if let Err(e) = self.expect(TokenKind::LParen) {
            return Err(e);
        }
        proof {
            self.lemma_valid();
        }
        let e = match self.parse_expr() {
            Ok(e) => e,
            Err(er) => return Err(er),
        };
        if let Err(er) = self.expect(TokenKind::As) {
            return Err(er);
        }
        proof {
            self.lemma_valid();
        }
        let t = match self.parse_value_type() {
            Ok(t) => t,
            Err(er) => return Err(er),
        };
        match self.expect(TokenKind::RParen) {
            Ok(_) => Ok(Expr::Cast { expr: Box::new(e), value_type: t }),
            Err(er) => Err(er),
        }
    }

    /// Reads `COALESCE` after its `(`: at least two expressions separated by commas, then
    /// `)`.
    fn parse_coalesce_after_lparen(&mut self) -> (r: Result<Expr, Error>)
        requires
            old(self).wf(),
        ensures
            final(self).wf(),
            same_input(final(self)@, old(self)@),
            old(self)@.pos <= final(self)@.pos,
            (expr_result(r), final(self)@.pos) == coalesce_step(old(self)@.input, old(self)@.pos),
        decreases old(self)@.input.tokens.len() - old(self)@.pos, 50int,
    {
        proof {
            self.lemma_valid();
        }
        let first = match self.parse_expr() {
            Ok(e) => e,
            Err(er) => return Err(er),
        };
        if let Err(er) = self.expect(TokenKind::Comma) {
            return Err(er);
        }
        proof {
            self.lemma_valid();
        }
        let mut args: Vec<Expr> = Vec::new();
        proof {
            lemma_exprs_view_push(args@, first);
            assert(exprs_view(args@) =~= Seq::<ExprView>::empty());
        }
        args.push(first);
        if let Err(er) = self.parse_arguments(&mut args) {
            return Err(er);
        }
        match self.expect(TokenKind::RParen) {
            Ok(_) => Ok(Expr::Coalesce(args)),
            Err(er) => Err(er),
        }
    }

    /// Reads `NULLIF` after its `(`: two expressions separated by a comma, then `)`.
    fn parse_nullif_after_lparen(&mut self) -> (r: Result<Expr, Error>)
        requires
            old(self).wf(),
        ensures
            final(self).wf(),
            same_input(final(self)@, old(self)@),
            old(self)@.pos <= final(self)@.pos,
            (expr_result(r), final(self)@.pos) == nullif_step(old(self)@.input, old(self)@.pos),
        decreases old(self)@.input.tokens.len() - old(self)@.pos, 50int,
    {
        proof {
            self.lemma_valid();
        }
        let left = match self.parse_expr() {
            Ok(e) => e,
            Err(er) => return Err(er),
        };
        if let Err(er) = self.expect(TokenKind::Comma) {
            return Err(er);
        }
        proof {
            self.lemma_valid();
        }
        let right = match self.parse_expr() {
            Ok(e) => e,
            Err(er) => return Err(er),
        };
        match self.expect(TokenKind::RParen) {
            Ok(_) => Ok(Expr::NullIf { left: Box::new(left), right: Box::new(right) }),
            Err(er) => Err(er),
        }
    }

    /// Reads a searched `CASE` expression after its `CASE`: `WHEN` clauses, each a condition,
    /// `THEN` and a result; an optional `ELSE` and an expression; then `END`.
    fn parse_case_after_keyword(&mut self) -> (r: Result<Expr, Error>)
        requires
            old(self).wf(),
        ensures
            final(self).wf(),
            same_input(final(self)@, old(self)@),
            old(self)@.pos <= final(self)@.pos,
            (expr_result(r), final(self)@.pos) == case_step(old(self)@.input, old(self)@.pos),
        decreases old(self)@.input.tokens.len() - old(self)@.pos, 50int,
    {
        proof {
            self.lemma_valid();
        }
        let mut when_clauses: Vec<CaseWhenClause> = Vec::new();
        proof {
            assert(whens_view(when_clauses@) =~= Seq::<(ExprView, Seq<ExprView>, ExprView)>::empty());
        }
        if let Err(er) = self.parse_case_whens(&mut when_clauses) {
            return Err(er);
        }
        proof {
            self.lemma_valid();
            lemma_whens_view(when_clauses@);
        }
        if when_clauses.len() == 0 {
            let expected = vec![TokenKind::When];
            assert(expected@ =~= seq![TokenKind::When]);
            let got = self.peek_kind();
            return Err(self.error_expected(expected, got));
        }
        let else_expr = if self.at(TokenKind::Else) {
            self.bump();
            proof {
                self.lemma_valid();
            }
            match self.parse_expr() {
                Ok(x) => Some(Box::new(x)),
                Err(er) => return Err(er),
            }
        } else {
            None
        };
        match self.expect(TokenKind::End) {
            Ok(_) => Ok(Expr::Case { operand: None, when_clauses, else_expr }),
            Err(er) => Err(er),
        }
    }

    /// Reads `WHEN` clauses of a searched `CASE` expression after those in `whens`.
    fn parse_case_whens(&mut self, whens: &mut Vec<CaseWhenClause>) -> (r: Result<(), Error>)
        requires
            old(self).wf(),
        ensures
            final(self).wf(),
            same_input(final(self)@, old(self)@),
            old(self)@.pos <= final(self)@.pos,
            (match r {
                Ok(_) => Ok(whens_view(final(whens)@)),
                Err(e) => Err(e@),
            }, final(self)@.pos) == case_whens_rest(old(self)@.input, old(self)@.pos, whens_view(old(whens)@)),
        decreases old(self)@.input.tokens.len() - old(self)@.pos, 49int,
    {
        proof {
            self.lemma_valid();
        }
        if !self.at(TokenKind::When) {
            return Ok(());
        }
        let start = self.position();
        self.bump();
        proof {
            self.lemma_valid();
        }
        let condition = match self.parse_expr() {
            Ok(x) => x,
            Err(er) => return Err(er),
        };
        if let Err(er) = self.expect(TokenKind::Then) {
            return Err(er);
        }
        proof {
            self.lemma_valid();
        }
        let result = match self.parse_expr() {
            Ok(x) => x,
            Err(er) => return Err(er),
        };
        let additional_operands: Vec<Expr> = Vec::new();
        proof {
            assert(exprs_view(additional_operands@) =~= Seq::<ExprView>::empty());
        }
        let clause = CaseWhenClause { condition, additional_operands, result };
        proof {
            lemma_whens_view_push(whens@, clause);
        }
        whens.push(clause);
        proof {
            self.lemma_valid();
        }
        if start < self.position() {
            self.parse_case_whens(whens)
        } else {
            Ok(())
        }
    }

    /// Reads a path value after its `[`: an expression, then pairs of expressions each after
    /// a comma and separated by one; then `]`.
    fn parse_path_after_lbracket(&mut self) -> (r: Result<Expr, Error>)
        requires
            old(self).wf(),
        ensures
            final(self).wf(),
            same_input(final(self)@, old(self)@),
            old(self)@.pos <= final(self)@.pos,
            (expr_result(r), final(self)@.pos) == path_step(old(self)@.input, old(self)@.pos),
        decreases old(self)@.input.tokens.len() - old(self)@.pos, 48int,
    {
        proof {
            self.lemma_valid();
        }
        if self.at(TokenKind::RBracket) {
            let expected = vec![
                TokenKind::Identifier,
                TokenKind::Parameter,
                TokenKind::LParen,
                TokenKind::Graph,
                TokenKind::Binding,
                TokenKind::Table,
            ];
            assert(expected@ =~= path_starts());
            return Err(self.error_expected(expected, TokenKind::RBracket));
        }
        let first = match self.parse_expr() {
            Ok(e) => e,
            Err(er) => return Err(er),
        };
        proof {
            self.lemma_valid();
        }
        let mut values: Vec<Expr> = Vec::new();
        proof {
            lemma_exprs_view_push(values@, first);
            assert(exprs_view(values@) =~= Seq::<ExprView>::empty());
        }
        values.push(first);
        if let Err(er) = self.parse_path_rest(&mut values) {
            return Err(er);
        }
        match self.expect(TokenKind::RBracket) {
            Ok(_) => Ok(Expr::Path(values)),
            Err(er) => Err(er),
        }
    }

    /// Reads pairs of path elements, each after a comma and separated by one, after those in
    /// `values`.
    fn parse_path_rest(&mut self, values: &mut Vec<Expr>) -> (r: Result<(), Error>)
        requires
            old(self).wf(),
        ensures
            final(self).wf(),
            same_input(final(self)@, old(self)@),
            old(self)@.pos <= final(self)@.pos,
            (match r {
                Ok(_) => Ok(exprs_view(final(values)@)),
                Err(e) => Err(e@),
            }, final(self)@.pos) == path_rest(old(self)@.input, old(self)@.pos, exprs_view(old(values)@)),
        decreases old(self)@.input.tokens.len() - old(self)@.pos, 47int,
    {
        proof {
            self.lemma_valid();
        }
        if !self.at(TokenKind::Comma) {
            return Ok(());
        }
        self.bump();
        proof {
            self.lemma_valid();
        }
        let a = match self.parse_expr() {
            Ok(e) => e,
            Err(er) => return Err(er),
        };
        if let Err(er) = self.expect(TokenKind::Comma) {
            return Err(er);
        }
        proof {
            self.lemma_valid();
        }
        let b = match self.parse_expr() {
            Ok(e) => e,
            Err(er) => return Err(er),
        };
        proof {
            self.lemma_valid();
            lemma_exprs_view_push(values@, a);
            lemma_exprs_view_push(values@.push(a), b);
        }
        values.push(a);
        values.push(b);
        self.parse_path_rest(values)
    }

    /// Reads `TRIM` from its `(`.
    fn parse_trim_call(&mut self) -> (r: Result<Expr, Error>)
        requires
            old(self).wf(),
        ensures
            final(self).wf(),
            same_input(final(self)@, old(self)@),
            old(self)@.pos <= final(self)@.pos,
            (expr_result(r), final(self)@.pos) == trim_step(old(self)@.input, old(self)@.pos),
        decreases old(self)@.input.tokens.len() - old(self)@.pos, 48int,
    {
        proof {
            self.lemma_valid();
        }
        if let Err(e) = self.expect(TokenKind::LParen) {
            return Err(e);
        }
        let specification = self.parse_optional_trim_specification();
        proof {
            self.lemma_valid();
        }
        if specification.is_some() {
            let c = if self.eat(TokenKind::From).is_some() {
                None
            } else {
                let c = match self.parse_expr() {
                    Ok(c) => c,
                    Err(e) => return Err(e),
                };
                if let Err(e) = self.expect(TokenKind::From) {
                    return Err(e);
                }
                Some(Box::new(c))
            };
            proof {
                self.lemma_valid();
            }
            let value = match self.parse_expr() {
                Ok(x) => x,
                Err(e) => return Err(e),
            };
            return match self.expect(TokenKind::RParen) {
                Ok(_) => Ok(Expr::Trim { specification, trim_character: c, value: Box::new(value) }),
                Err(e) => Err(e),
            };
        }
        let first = match self.parse_expr() {
            Ok(x) => x,
            Err(e) => return Err(e),
        };
        proof {
            self.lemma_valid();
        }
        if self.eat(TokenKind::Comma).is_some() {
            proof {
                self.lemma_valid();
            }
            let count = match self.parse_expr() {
                Ok(x) => x,
                Err(e) => return Err(e),
            };
            return match self.expect(TokenKind::RParen) {
                Ok(_) => Ok(Expr::TrimList { value: Box::new(first), count: Box::new(count) }),
                Err(e) => Err(e),
            };
        }
        if self.eat(TokenKind::From).is_some() {
            proof {
                self.lemma_valid();
            }
            let value = match self.parse_expr() {
                Ok(x) => x,
                Err(e) => return Err(e),
            };
            return match self.expect(TokenKind::RParen) {
                Ok(_) => Ok(Expr::Trim { specification: None, trim_character: Some(Box::new(first)), value: Box::new(value) }),
                Err(e) => Err(e),
            };
        }
        match self.expect(TokenKind::RParen) {
            Ok(_) => Ok(Expr::Trim { specification: None, trim_character: None, value: Box::new(first) }),
            Err(e) => Err(e),
        }
    }

    /// Reads `BTRIM`, `LTRIM` or `RTRIM` (`specification`) from its `(`.
    fn parse_multi_trim_call(&mut self, specification: TrimSpec) -> (r: Result<Expr, Error>)
        requires
            old(self).wf(),
        ensures
            final(self).wf(),
            same_input(final(self)@, old(self)@),
            old(self)@.pos <= final(self)@.pos,
            (expr_result(r), final(self)@.pos) == multi_trim_step(old(self)@.input, old(self)@.pos, specification),
        decreases old(self)@.input.tokens.len() - old(self)@.pos, 48int,
    {
        proof {
            self.lemma_valid();
        }
        if let Err(e) = self.expect(TokenKind::LParen) {
            return Err(e);
        }
        proof {
            self.lemma_valid();
        }
        let value = match self.parse_expr() {
            Ok(x) => x,
            Err(e) => return Err(e),
        };
        let c = if self.eat(TokenKind::Comma).is_some() {
            proof {
                self.lemma_valid();
            }
            match self.parse_expr() {
                Ok(x) => Some(Box::new(x)),
                Err(e) => return Err(e),
            }
        } else {
            None
        };
        match self.expect(TokenKind::RParen) {
            Ok(_) => Ok(Expr::MultiTrim { specification, value: Box::new(value), trim_characters: c }),
            Err(e) => Err(e),
        }
    }

    /// Reads a list after its `[`.
    fn parse_list_after_lbracket(&mut self) -> (r: Result<Expr, Error>)
        requires
            old(self).wf(),
        ensures
            final(self).wf(),
            same_input(final(self)@, old(self)@),
            old(self)@.pos <= final(self)@.pos,
            (expr_result(r), final(self)@.pos) == list_step(old(self)@.input, old(self)@.pos),
        decreases old(self)@.input.tokens.len() - old(self)@.pos, 51int,
    {
        proof {
            self.lemma_valid();
        }
        match self.parse_list_values() {
            Ok(values) => Ok(Expr::List(values)),
            Err(e) => Err(e),
        }
    }

    /// Reads a record's entries in braces, from its `{`.
    pub(crate) fn parse_map_literal(&mut self) -> (r: Result<MapLiteral, Error>)
        requires
            old(self).wf(),
        ensures
            final(self).wf(),
            same_input(final(self)@, old(self)@),
            old(self)@.pos <= final(self)@.pos,
            (match r {
                Ok(m) => Ok(entries_view(m.entries@)),
                Err(e) => Err(e@),
            }, final(self)@.pos) == map_literal_step(old(self)@.input, old(self)@.pos),
        decreases old(self)@.input.tokens.len() - old(self)@.pos, 11int,
    {
        proof {
            self.lemma_valid();
        }
        if let Err(e) = self.expect(TokenKind::LBrace) {
            return Err(e);
        }
        proof {
            self.lemma_valid();
        }
        self.parse_map_after_lbrace()
    }

    /// Reads a record's entries after its `{`: none, or a name, `:` and an expression,
    /// separated by commas; then `}`. A name may appear once, ignoring the case of ASCII
    /// letters.
    fn parse_map_after_lbrace(&mut self) -> (r: Result<MapLiteral, Error>)
        requires
            old(self).wf(),
        ensures
            final(self).wf(),
            same_input(final(self)@, old(self)@),
            old(self)@.pos <= final(self)@.pos,
            (match r {
                Ok(m) => Ok(entries_view(m.entries@)),
                Err(e) => Err(e@),
            }, final(self)@.pos) == map_after_lbrace_step(old(self)@.input, old(self)@.pos),
        decreases old(self)@.input.tokens.len() - old(self)@.pos, 47int,
    {
        proof {
            self.lemma_valid();
        }
        let mut entries: Vec<(Identifier, Expr)> = Vec::new();
        proof {
            assert(entries_view(entries@) =~= Seq::<(Seq<char>, ExprView)>::empty());
        }
        if !self.at(TokenKind::RBrace) {
            if let Err(e) = self.parse_map_entries(&mut entries) {
                return Err(e);
            }
        }
        match self.expect(TokenKind::RBrace) {
            Ok(_) => Ok(MapLiteral { entries }),
            Err(e) => Err(e),
        }
    }

    /// Reads record entries separated by commas, after those in `entries`.
    fn parse_map_entries(&mut self, entries: &mut Vec<(Identifier, Expr)>) -> (r: Result<(), Error>)
        requires
            old(self).wf(),
        ensures
            final(self).wf(),
            same_input(final(self)@, old(self)@),
            old(self)@.pos <= final(self)@.pos,
            (match r {
                Ok(_) => Ok(entries_view(final(entries)@)),
                Err(e) => Err(e@),
            }, final(self)@.pos) == map_entries_rest(old(self)@.input, old(self)@.pos, entries_view(old(entries)@)),
        decreases old(self)@.input.tokens.len() - old(self)@.pos, 46int,
    {
        proof {
            self.lemma_valid();
        }
        let key_offset = self.peek().offset;
        let key = match self.parse_identifier() {
            Ok(k) => k,
            Err(e) => return Err(e),
        };
        if has_entry_named(entries, &key) {
            let mut m = chars_of("duplicate field '");
            push_str(&mut m, key.value.as_str());
            push_str(&mut m, "'");
            return Err(Error::Message { offset: key_offset, message: string_from_chars(&m) });
        }
        if let Err(e) = self.expect(TokenKind::Colon) {
            return Err(e);
        }
        proof {
            self.lemma_valid();
        }
        let value = match self.parse_expr() {
            Ok(x) => x,
            Err(e) => return Err(e),
        };
        proof {
            self.lemma_valid();
            lemma_entries_view_push(entries@, (key, value));
        }
        entries.push((key, value));
        if !self.at(TokenKind::Comma) {
            return Ok(());
        }
        self.bump();
        proof {
            self.lemma_valid();
        }
        self.parse_map_entries(entries)
    }

    /// Reads the values of a list after its `[`: none, or expressions separated by commas;
    /// then `]`.
    fn parse_list_values(&mut self) -> (r: Result<Vec<Expr>, Error>)
        requires
            old(self).wf(),
        ensures
            final(self).wf(),
            same_input(final(self)@, old(self)@),
            old(self)@.pos <= final(self)@.pos,
            (match r {
                Ok(vs) => Ok(exprs_view(vs@)),
                Err(e) => Err(e@),
            }, final(self)@.pos) == list_values_step(old(self)@.input, old(self)@.pos),
        decreases old(self)@.input.tokens.len() - old(self)@.pos, 50int,
    {
        proof {
            self.lemma_valid();
        }
        let mut values: Vec<Expr> = Vec::new();
        proof {
            assert(exprs_view(values@) =~= Seq::<ExprView>::empty());
        }
        if !self.at(TokenKind::RBracket) {
            if let Err(e) = self.parse_arguments(&mut values) {
                return Err(e);
            }
        }
        match self.expect(TokenKind::RBracket) {
            Ok(_) => Ok(values),
            Err(e) => Err(e),
        }
    }

    /// Reads arguments separated by commas, after those in `args`.
    pub(crate) fn parse_arguments(&mut self, args: &mut Vec<Expr>) -> (r: Result<(), Error>)
        requires
            old(self).wf(),
        ensures
            final(self).wf(),
            same_input(final(self)@, old(self)@),
            old(self)@.pos <= final(self)@.pos,
            (match r {
                Ok(_) => Ok(exprs_view(final(args)@)),
                Err(e) => Err(e@),
            }, final(self)@.pos) == arguments_rest(old(self)@.input, old(self)@.pos, exprs_view(old(args)@)),
        decreases old(self)@.input.tokens.len() - old(self)@.pos, 45int,
    {
        proof {
            self.lemma_valid();
        }
        let e = match self.parse_expr() {
            Ok(e) => e,
            Err(er) => return Err(er),
        };
        proof {
            self.lemma_valid();
            lemma_exprs_view_push(args@, e);
        }
        args.push(e);
        if !self.at(TokenKind::Comma) {
            return Ok(());
        }
        self.bump();
        proof {
            self.lemma_valid();
        }
        self.parse_arguments(args)
    }

    /// Reads a unary expression: `NOT`, `+` or `-` before a unary expression, or a primary
    /// followed by property references.
    fn parse_unary(&mut self) -> (r: Result<Expr, Error>)
        requires
            old(self).wf(),
        ensures
            final(self).wf(),
            same_input(final(self)@, old(self)@),
            old(self)@.pos <= final(self)@.pos,
            (expr_result(r), final(self)@.pos) == unary_step(old(self)@.input, old(self)@.pos),
        decreases old(self)@.input.tokens.len() - old(self)@.pos, 18int,
    {
        proof {
            self.lemma_valid();
        }
        if let Some(op) = unary_operator(self.peek_kind()) {
            self.bump();
            proof {
                self.lemma_valid();
            }
            return match self.parse_unary() {
                Ok(e) => Ok(Expr::Unary { op, expr: Box::new(e) }),
                Err(er) => Err(er),
            };
        }
        let e = match self.parse_primary() {
            Ok(e) => e,
            Err(er) => return Err(er),
        };
        proof {
            self.lemma_valid();
        }
        self.parse_postfix_rest(e)
    }

    /// Reads property references after `e`.
    fn parse_postfix_rest(&mut self, e: Expr) -> (r: Result<Expr, Error>)
        requires
            old(self).wf(),
        ensures
            final(self).wf(),
            same_input(final(self)@, old(self)@),
            old(self)@.pos <= final(self)@.pos,
            (expr_result(r), final(self)@.pos) == postfix_rest(old(self)@.input, old(self)@.pos, expr_view(e)),
        decreases old(self)@.input.tokens.len() - old(self)@.pos,
    {
        proof {
            self.lemma_valid();
        }
        if !self.at(TokenKind::Dot) {
            return Ok(e);
        }
        self.bump();
        let key = match self.parse_identifier() {
            Ok(key) => key,
            Err(er) => return Err(er),
        };
        proof {
            self.lemma_valid();
        }
        self.parse_postfix_rest(Expr::Property { base: Box::new(e), key })
    }

    /// Reads a primary expression: a variable, a parameter, a literal, `*`, a clock, an
    /// expression in parentheses, a list, a typed list, a record, a path value, an aggregate
    /// function call, a typed string literal, `CAST`, `COALESCE`, `NULLIF`, `ELEMENT_ID`,
    /// `PROPERTY_EXISTS`, a `TRIM` function, or a numeric or string function of one or two
    /// arguments. Any other token that opens a form of its own (`CASE`, a subquery, `LET`,
    /// `SAME`, `ALL_DIFFERENT`, a graph or binding table reference, a byte string, an
    /// interval, a datetime constructor) is refused.
    #[verifier::rlimit(80)]
    #[verifier::spinoff_prover]
    pub fn parse_primary(&mut self) -> (r: Result<Expr, Error>)
        requires
            old(self).wf(),
        ensures
            final(self).wf(),
            same_input(final(self)@, old(self)@),
            old(self)@.pos <= final(self)@.pos,
            (expr_result(r), final(self)@.pos) == primary_step(old(self)@.input, old(self)@.pos),
        decreases old(self)@.input.tokens.len() - old(self)@.pos, 12int,
    {
        proof {
            self.lemma_valid();
        }
        let token = self.bump();
        let k = token.kind;
        proof {
            self.lemma_valid();
        }
        if (k == TokenKind::Date && !self.at(TokenKind::LParen)) || k == TokenKind::Time || k == TokenKind::Datetime
            || k == TokenKind::Timestamp || (k == TokenKind::Duration && self.is_character_string_token(
            self.peek_kind(),
        )) {
            assert(typed_literal_at(self@.input, self@.pos, k));
            let t = match self.parse_character_string_token() {
                Ok(t) => t,
                Err(e) => return Err(e),
            };
            let literal = if k == TokenKind::Date {
                Literal::Date(t.text)
            } else if k == TokenKind::Time {
                Literal::Time(t.text)
            } else if k == TokenKind::Duration {
                Literal::Duration(t.text)
            } else {
                Literal::DateTime(t.text)
            };
            return Ok(Expr::Literal(literal));
        }
        if k == TokenKind::Cast {
            return self.parse_cast_expression();
        }
        if k == TokenKind::Case && self.at(TokenKind::When) {
            return self.parse_case_after_keyword();
        }
        if (k == TokenKind::Coalesce || k == TokenKind::Nullif) && self.at(TokenKind::LParen) {
            self.bump();
            proof {
                self.lemma_valid();
            }
            return if k == TokenKind::Coalesce {
                self.parse_coalesce_after_lparen()
            } else {
                self.parse_nullif_after_lparen()
            };
        }
        if k == TokenKind::ElementId {
            if let Err(e) = self.expect(TokenKind::LParen) {
                return Err(e);
            }
            let variable = match self.parse_identifier() {
                Ok(x) => x,
                Err(e) => return Err(e),
            };
            return match self.expect(TokenKind::RParen) {
                Ok(_) => Ok(Expr::ElementId { variable }),
                Err(e) => Err(e),
            };
        }
        if k == TokenKind::PropertyExists {
            if let Err(e) = self.expect(TokenKind::LParen) {
                return Err(e);
            }
            let variable = match self.parse_identifier() {
                Ok(x) => x,
                Err(e) => return Err(e),
            };
            if let Err(e) = self.expect(TokenKind::Comma) {
                return Err(e);
            }
            let property = match self.parse_identifier() {
                Ok(x) => x,
                Err(e) => return Err(e),
            };
            return match self.expect(TokenKind::RParen) {
                Ok(_) => Ok(Expr::PropertyExists { variable, property }),
                Err(e) => Err(e),
            };
        }
        if is_simple_function(k) && self.at(TokenKind::LParen) {
            return self.parse_simple_function(k);
        }
        if (k == TokenKind::List || k == TokenKind::Array) && self.at(TokenKind::LBracket) {
            self.bump();
            proof {
                self.lemma_valid();
            }
            let values = match self.parse_list_values() {
                Ok(vs) => vs,
                Err(e) => return Err(e),
            };
            let list_type = if k == TokenKind::List {
                ListValueTypeName::List
            } else {
                ListValueTypeName::Array
            };
            return Ok(Expr::TypedList { list_type, values });
        }
        if k == TokenKind::Path && self.at(TokenKind::LBracket) {
            self.bump();
            proof {
                self.lemma_valid();
            }
            return self.parse_path_after_lbracket();
        }
        if (k == TokenKind::Trim || k == TokenKind::Btrim || k == TokenKind::Ltrim || k == TokenKind::Rtrim) && self.at(
            TokenKind::LParen,
        ) {
            if k == TokenKind::Trim {
                return self.parse_trim_call();
            }
            let specification = if k == TokenKind::Btrim {
                TrimSpec::Both
            } else if k == TokenKind::Ltrim {
                TrimSpec::Leading
            } else {
                TrimSpec::Trailing
            };
            return self.parse_multi_trim_call(specification);
        }
        if k == TokenKind::LBrace {
            return match self.parse_map_after_lbrace() {
                Ok(fields) => Ok(Expr::Record { explicit: false, fields }),
                Err(e) => Err(e),
            };
        }
        if k == TokenKind::Record && self.at(TokenKind::LBrace) {
            return match self.parse_map_literal() {
                Ok(fields) => Ok(Expr::Record { explicit: true, fields }),
                Err(e) => Err(e),
            };
        }
        if k == TokenKind::LBracket {
            return self.parse_list_after_lbracket();
        }
        if k == TokenKind::Group && (self.at(TokenKind::List) || self.at(TokenKind::Array)) && self.peek_n_kind(1)
            == Some(TokenKind::LBracket) {
            return Err(
                Error::Message {
                    offset: token.offset,
                    message: "GROUP list value type names are not user-visible standard GQL syntax".to_owned(),
                },
            );
        }
        if k == TokenKind::CurrentDate {
            return Ok(Expr::CurrentDate);
        }
        if k == TokenKind::CurrentUser {
            return Ok(Expr::CurrentUser);
        }
        if k == TokenKind::CurrentTime || k == TokenKind::CurrentTimestamp || k == TokenKind::Localtimestamp {
            if self.at(TokenKind::LParen) {
                let message = if k == TokenKind::CurrentTime {
                    "CURRENT_TIME does not accept parameters".to_owned()
                } else if k == TokenKind::CurrentTimestamp {
                    "CURRENT_TIMESTAMP does not accept parameters".to_owned()
                } else {
                    "LOCAL_TIMESTAMP does not accept parameters".to_owned()
                };
                return Err(Error::Message { offset: self.peek().offset, message });
            }
            return Ok(
                if k == TokenKind::CurrentTime {
                    Expr::CurrentTime { precision: None }
                } else if k == TokenKind::CurrentTimestamp {
                    Expr::CurrentTimestamp { precision: None }
                } else {
                    Expr::LocalTimestamp { precision: None }
                },
            );
        }
        if k == TokenKind::LocalTime && !self.at(TokenKind::LParen) {
            return Ok(Expr::LocalTime { precision: None });
        }
        if self.opens_own_form(k) {
            return Err(
                Error::Message {
                    offset: token.offset,
                    message: "expression form is not supported by this parser".to_owned(),
                },
            );
        }
        let names = k == TokenKind::DoubleQuotedString || (is_identifier_like(k) && k != TokenKind::Null && k
            != TokenKind::True && k != TokenKind::False && k != TokenKind::Unknown);
        assert(names == names_variable(k));
        if names && self.at(TokenKind::LParen) {
            self.bump();
            proof {
                self.lemma_valid();
            }
            return self.parse_function_call(Identifier::new(token.text), token.offset);
        }
        if k == TokenKind::DoubleQuotedString && self.at(TokenKind::Dot) {
            return Ok(Expr::Identifier(Identifier::new(token.text)));
        }
        if k == TokenKind::DoubleQuotedString || k == TokenKind::String {
            return Ok(Expr::Literal(Literal::String(token.text)));
        }
        if names {
            return Ok(Expr::Identifier(Identifier::new(token.text)));
        }
        if k == TokenKind::Parameter {
            return Ok(Expr::Parameter(trim_dollar_prefix(&token.text)));
        }
        if k == TokenKind::Integer {
            return match parse_i64_text(&token.text) {
                Some(n) => Ok(Expr::Literal(Literal::Integer(n))),
                None => Err(Error::BadNumber { offset: token.offset, token_text: token.text }),
            };
        }
        if k == TokenKind::Decimal {
            return Ok(Expr::Literal(Literal::Decimal(token.text)));
        }
        if k == TokenKind::Null {
            return Ok(Expr::Literal(Literal::Null));
        }
        if k == TokenKind::True {
            return Ok(Expr::Literal(Literal::Boolean(true)));
        }
        if k == TokenKind::False {
            return Ok(Expr::Literal(Literal::Boolean(false)));
        }
        if k == TokenKind::Unknown {
            return Ok(Expr::Literal(Literal::Unknown));
        }
        if k == TokenKind::Star {
            return Ok(Expr::Wildcard);
        }
        if k == TokenKind::LParen {
            let e = match self.parse_expr() {
                Ok(e) => e,
                Err(er) => return Err(er),
            };
            return match self.expect(TokenKind::RParen) {
                Ok(_) => Ok(e),
                Err(er) => Err(er),
            };
        }
        if k == TokenKind::Eof {
            return Err(self.eof_error());
        }
        Err(Error::expected(token.offset, primary_start_kinds(), k, token.text))
    }
}

} // verus!
