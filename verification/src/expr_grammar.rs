use vstd::prelude::*;
use crate::ast::{
    BinaryOp, Identifier, LabelExpressionView, ListValueTypeName, TrimSpec, NumericFunctionKind, SetQuantifier, SourceDestinationKind, StringLengthUnit,
    SubstringSide, UnaryOp, ValueTypeView,
};
use crate::functions::{is_refused_value_function, spec_is_general_set_function_name};
use crate::error::ErrorView;
use crate::grammar::{identifier_step, label_expression_step, message_at, typed_marker_step};
use crate::kinds::spec_is_identifier_like;
use crate::lookahead::{
    is_character_string_kind, starts_let_value_expression, strict_binding_table_expression_start,
    strict_graph_expression_start,
};
use crate::parser::{expect_step, expected_err, kind_ahead, kind_at, next_pos, tok, eof_err, InputView};
use crate::syntax::{CaseWhenClause, Expr, Literal};
use crate::text::{eq_ignore_ascii_case, trim_dollars};
use crate::clause_grammar::{normal_form_step, trim_specification_step};
use crate::fragments::character_string_token_step;
use crate::procedure_body::{boxed_pb, entries_pb, expr_pb, exprs_pb, when_clauses_pb};
use crate::grammar::u64_from_text;
use crate::type_grammar::{group_list_message, value_type_step};
use crate::token::TokenKind;

verus! {

/// The mathematical value of a literal of an expression; literals that this parser never
/// produces read as `Other`.
pub enum LiteralView {
    Null,
    Boolean(bool),
    Unknown,
    Integer(i64),
    Decimal(Seq<char>),
    String(Seq<char>),
    Date(Seq<char>),
    Time(Seq<char>),
    DateTime(Seq<char>),
    Duration(Seq<char>),
    Other,
}

/// The mathematical value of an [`Expr`], for the forms that [`Parser::parse_expr`]
/// produces; every other form reads as `Other`, with whether it holds an inline procedure
/// call.
pub enum ExprView {
    Identifier(Seq<char>),
    Property { base: Box<ExprView>, key: Seq<char> },
    Parameter(Seq<char>),
    Literal(LiteralView),
    Unary { op: UnaryOp, expr: Box<ExprView> },
    Binary { left: Box<ExprView>, op: BinaryOp, right: Box<ExprView> },
    Function { name: Seq<char>, quantifier: Option<SetQuantifier>, args: Seq<ExprView> },
    List(Seq<ExprView>),
    TypedList { list_type: ListValueTypeName, values: Seq<ExprView> },
    Path(Seq<ExprView>),
    Trim { specification: Option<TrimSpec>, trim_character: Option<Box<ExprView>>, value: Box<ExprView> },
    MultiTrim { specification: TrimSpec, value: Box<ExprView>, trim_characters: Option<Box<ExprView>> },
    TrimList { value: Box<ExprView>, count: Box<ExprView> },
    Record { explicit: bool, fields: Seq<(Seq<char>, ExprView)> },
    Cast { expr: Box<ExprView>, value_type: ValueTypeView },
    Coalesce(Seq<ExprView>),
    NullIf { left: Box<ExprView>, right: Box<ExprView> },
    ElementId { variable: Seq<char> },
    AbsoluteValue { expr: Box<ExprView> },
    NumericFunction { function: NumericFunctionKind, args: Seq<ExprView> },
    Fold { upper: bool, value: Box<ExprView> },
    StringLength { unit: StringLengthUnit, value: Box<ExprView> },
    Elements { path: Box<ExprView> },
    SubstringByLength { side: SubstringSide, value: Box<ExprView>, length: Box<ExprView> },
    Normalize { value: Box<ExprView>, normal_form: Option<Seq<char>> },
    PropertyExists { variable: Seq<char>, property: Seq<char> },
    CurrentDate,
    CurrentTime { precision: Option<u64> },
    CurrentTimestamp { precision: Option<u64> },
    LocalTimestamp { precision: Option<u64> },
    DurationBetween { left: Box<ExprView>, right: Box<ExprView> },
    CurrentUser,
    LocalTime { precision: Option<u64> },
    Wildcard,
    IsTyped { expr: Box<ExprView>, negated: bool, value_type: ValueTypeView },
    IsNull { expr: Box<ExprView>, negated: bool },
    IsUnknown { expr: Box<ExprView>, negated: bool },
    IsTruth { expr: Box<ExprView>, negated: bool, value: bool },
    SourceDestination { node: Seq<char>, negated: bool, kind: SourceDestinationKind, edge: Seq<char> },
    IsNormalized { expr: Box<ExprView>, negated: bool, normal_form: Option<Seq<char>> },
    IsDirected { variable: Seq<char>, negated: bool },
    IsLabeled { variable: Seq<char>, negated: bool, label_expression: LabelExpressionView },
    Case {
        operand: Option<Box<ExprView>>,
        when_clauses: Seq<(ExprView, Seq<ExprView>, ExprView)>,
        else_expr: Option<Box<ExprView>>,
    },
    Other(bool),
}

/// The value of a literal.
pub open spec fn literal_view(l: Literal) -> LiteralView {
    match l {
        Literal::Null => LiteralView::Null,
        Literal::Boolean(b) => LiteralView::Boolean(b),
        Literal::Unknown => LiteralView::Unknown,
        Literal::Integer(n) => LiteralView::Integer(n),
        Literal::Decimal(s) => LiteralView::Decimal(s@),
        Literal::String(s) => LiteralView::String(s@),
        Literal::Date(s) => LiteralView::Date(s@),
        Literal::Time(s) => LiteralView::Time(s@),
        Literal::DateTime(s) => LiteralView::DateTime(s@),
        Literal::Duration(s) => LiteralView::Duration(s@),
        _ => LiteralView::Other,
    }
}

/// The value of an expression.
pub open spec fn expr_view(e: Expr) -> ExprView
    decreases e,
{
    match e {
        Expr::Identifier(n) => ExprView::Identifier(n@),
        Expr::Property { base, key } => ExprView::Property { base: Box::new(expr_view(*base)), key: key@ },
        Expr::Parameter(s) => ExprView::Parameter(s@),
        Expr::Literal(l) => ExprView::Literal(literal_view(l)),
        Expr::Unary { op, expr } => ExprView::Unary { op, expr: Box::new(expr_view(*expr)) },
        Expr::Binary { left, op, right } => ExprView::Binary {
            left: Box::new(expr_view(*left)),
            op,
            right: Box::new(expr_view(*right)),
        },
        Expr::Function { name, quantifier, args } => ExprView::Function {
            name: name@,
            quantifier,
            args: exprs_view(args@),
        },
        Expr::List(values) => ExprView::List(exprs_view(values@)),
        Expr::TypedList { list_type, values } => ExprView::TypedList { list_type, values: exprs_view(values@) },
        Expr::Path(values) => ExprView::Path(exprs_view(values@)),
        Expr::Trim { specification, trim_character, value } => ExprView::Trim {
            specification,
            trim_character: match trim_character {
                Some(c) => Some(Box::new(expr_view(*c))),
                None => None,
            },
            value: Box::new(expr_view(*value)),
        },
        Expr::MultiTrim { specification, value, trim_characters } => ExprView::MultiTrim {
            specification,
            value: Box::new(expr_view(*value)),
            trim_characters: match trim_characters {
                Some(c) => Some(Box::new(expr_view(*c))),
                None => None,
            },
        },
        Expr::TrimList { value, count } => ExprView::TrimList {
            value: Box::new(expr_view(*value)),
            count: Box::new(expr_view(*count)),
        },
        Expr::Record { explicit, fields } => ExprView::Record { explicit, fields: entries_view(fields.entries@) },
        Expr::Cast { expr, value_type } => ExprView::Cast { expr: Box::new(expr_view(*expr)), value_type: value_type@ },
        Expr::Coalesce(args) => ExprView::Coalesce(exprs_view(args@)),
        Expr::NullIf { left, right } => ExprView::NullIf {
            left: Box::new(expr_view(*left)),
            right: Box::new(expr_view(*right)),
        },
        Expr::ElementId { variable } => ExprView::ElementId { variable: variable@ },
        Expr::AbsoluteValue { expr } => ExprView::AbsoluteValue { expr: Box::new(expr_view(*expr)) },
        Expr::NumericFunction { function, args } => ExprView::NumericFunction { function, args: exprs_view(args@) },
        Expr::Fold { upper, value } => ExprView::Fold { upper, value: Box::new(expr_view(*value)) },
        Expr::StringLength { unit, value } => ExprView::StringLength { unit, value: Box::new(expr_view(*value)) },
        Expr::Elements { path } => ExprView::Elements { path: Box::new(expr_view(*path)) },
        Expr::SubstringByLength { side, value, length } => ExprView::SubstringByLength {
            side,
            value: Box::new(expr_view(*value)),
            length: Box::new(expr_view(*length)),
        },
        Expr::Normalize { value, normal_form } => ExprView::Normalize {
            value: Box::new(expr_view(*value)),
            normal_form: match normal_form {
                Some(n) => Some(n@),
                None => None,
            },
        },
        Expr::PropertyExists { variable, property } => ExprView::PropertyExists {
            variable: variable@,
            property: property@,
        },
        Expr::CurrentDate => ExprView::CurrentDate,
        Expr::CurrentTime { precision } => ExprView::CurrentTime { precision },
        Expr::CurrentTimestamp { precision } => ExprView::CurrentTimestamp { precision },
        Expr::LocalTimestamp { precision } => ExprView::LocalTimestamp { precision },
        Expr::DurationBetween { left, right } => ExprView::DurationBetween {
            left: Box::new(expr_view(*left)),
            right: Box::new(expr_view(*right)),
        },
        Expr::CurrentUser => ExprView::CurrentUser,
        Expr::LocalTime { precision } => ExprView::LocalTime { precision },
        Expr::Wildcard => ExprView::Wildcard,
        Expr::IsTyped { expr, negated, value_type } => ExprView::IsTyped {
            expr: Box::new(expr_view(*expr)),
            negated,
            value_type: value_type@,
        },
        Expr::IsNull { expr, negated } => ExprView::IsNull { expr: Box::new(expr_view(*expr)), negated },
        Expr::IsUnknown { expr, negated } => ExprView::IsUnknown { expr: Box::new(expr_view(*expr)), negated },
        Expr::IsTruth { expr, negated, value } => ExprView::IsTruth {
            expr: Box::new(expr_view(*expr)),
            negated,
            value,
        },
        Expr::SourceDestination { node, negated, kind, edge } => ExprView::SourceDestination {
            node: node@,
            negated,
            kind,
            edge: edge@,
        },
        Expr::IsNormalized { expr, negated, normal_form } => ExprView::IsNormalized {
            expr: Box::new(expr_view(*expr)),
            negated,
            normal_form: match normal_form {
                Some(n) => Some(n@),
                None => None,
            },
        },
        Expr::IsDirected { variable, negated } => ExprView::IsDirected { variable: variable@, negated },
        Expr::IsLabeled { variable, negated, label_expression } => ExprView::IsLabeled {
            variable: variable@,
            negated,
            label_expression: label_expression@,
        },
        Expr::Case { operand, when_clauses, else_expr } => ExprView::Case {
            operand: match operand {
                Some(o) => Some(Box::new(expr_view(*o))),
                None => None,
            },
            when_clauses: whens_view(when_clauses@),
            else_expr: match else_expr {
                Some(x) => Some(Box::new(expr_view(*x))),
                None => None,
            },
        },
        _ => ExprView::Other(expr_pb(e)),
    }
}

/// The values of a sequence of expressions.
pub open spec fn exprs_view(s: Seq<Expr>) -> Seq<ExprView>
    decreases s,
{
    if s.len() == 0 {
        Seq::empty()
    } else {
        exprs_view(s.subrange(0, s.len() - 1)).push(expr_view(s[s.len() - 1]))
    }
}

/// The values of the `WHEN` clauses of a `CASE` expression: each condition, its further
/// operands and its result by their values.
pub open spec fn whens_view(s: Seq<CaseWhenClause>) -> Seq<(ExprView, Seq<ExprView>, ExprView)>
    decreases s,
{
    if s.len() == 0 {
        Seq::empty()
    } else {
        whens_view(s.subrange(0, s.len() - 1)).push(
            (
                expr_view(s[s.len() - 1].condition),
                exprs_view(s[s.len() - 1].additional_operands@),
                expr_view(s[s.len() - 1].result),
            ),
        )
    }
}

/// Appending a `WHEN` clause appends its value.
pub proof fn lemma_whens_view_push(s: Seq<CaseWhenClause>, c: CaseWhenClause)
    ensures
        whens_view(s.push(c)) == whens_view(s).push(
            (expr_view(c.condition), exprs_view(c.additional_operands@), expr_view(c.result)),
        ),
{
    assert(s.push(c).subrange(0, s.len() as int) =~= s);
}

/// The values of `WHEN` clauses, one by one.
pub proof fn lemma_whens_view(s: Seq<CaseWhenClause>)
    ensures
        whens_view(s).len() == s.len(),
        forall|i: int|
            0 <= i < s.len() ==> #[trigger] whens_view(s)[i] == (
                expr_view(s[i].condition),
                exprs_view(s[i].additional_operands@),
                expr_view(s[i].result),
            ),
    decreases s.len(),
{
    if s.len() > 0 {
        lemma_whens_view(s.subrange(0, s.len() - 1));
    }
}

/// The values of the entries of a record: each name by its text, each value by its value.
pub open spec fn entries_view(s: Seq<(Identifier, Expr)>) -> Seq<(Seq<char>, ExprView)>
    decreases s,
{
    if s.len() == 0 {
        Seq::empty()
    } else {
        entries_view(s.subrange(0, s.len() - 1)).push((s[s.len() - 1].0@, expr_view(s[s.len() - 1].1)))
    }
}

/// Appending an entry appends its value.
pub proof fn lemma_entries_view_push(s: Seq<(Identifier, Expr)>, e: (Identifier, Expr))
    ensures
        entries_view(s.push(e)) == entries_view(s).push((e.0@, expr_view(e.1))),
{
    assert(s.push(e).subrange(0, s.len() as int) =~= s);
}

/// The values of the entries of a record, one by one.
pub proof fn lemma_entries_view(s: Seq<(Identifier, Expr)>)
    ensures
        entries_view(s).len() == s.len(),
        forall|i: int| 0 <= i < s.len() ==> #[trigger] entries_view(s)[i] == (s[i].0@, expr_view(s[i].1)),
    decreases s.len(),
{
    if s.len() > 0 {
        lemma_entries_view(s.subrange(0, s.len() - 1));
    }
}

/// The values of a sequence of expressions, one by one.
pub proof fn lemma_exprs_view(s: Seq<Expr>)
    ensures
        exprs_view(s).len() == s.len(),
        forall|i: int| 0 <= i < s.len() ==> #[trigger] exprs_view(s)[i] == expr_view(s[i]),
    decreases s.len(),
{
    if s.len() > 0 {
        lemma_exprs_view(s.subrange(0, s.len() - 1));
    }
}

/// Appending an expression appends its value.
pub proof fn lemma_exprs_view_push(s: Seq<Expr>, e: Expr)
    ensures
        exprs_view(s.push(e)) == exprs_view(s).push(expr_view(e)),
{
    assert(s.push(e).subrange(0, s.len() as int) =~= s);
}

/// Whether the expression of value `e` holds an inline procedure call.
pub open spec fn view_pb(e: ExprView) -> bool
    decreases e,
{
    match e {
        ExprView::Other(b) => b,
        ExprView::Property { base, .. } => view_pb(*base),
        ExprView::Unary { expr, .. } => view_pb(*expr),
        ExprView::Binary { left, right, .. } => view_pb(*left) || view_pb(*right),
        ExprView::Function { args, .. } => views_pb(args),
        ExprView::List(args) => views_pb(args),
        ExprView::TypedList { values, .. } => views_pb(values),
        ExprView::Path(args) => views_pb(args),
        ExprView::Record { fields, .. } => fields_pb(fields),
        ExprView::Cast { expr, .. } => view_pb(*expr),
        ExprView::Coalesce(args) => views_pb(args),
        ExprView::NullIf { left, right } => view_pb(*left) || view_pb(*right),
        ExprView::AbsoluteValue { expr } => view_pb(*expr),
        ExprView::NumericFunction { args, .. } => views_pb(args),
        ExprView::Fold { value, .. } => view_pb(*value),
        ExprView::StringLength { value, .. } => view_pb(*value),
        ExprView::Elements { path } => view_pb(*path),
        ExprView::SubstringByLength { value, length, .. } => view_pb(*value) || view_pb(*length),
        ExprView::Normalize { value, .. } => view_pb(*value),
        ExprView::Trim { trim_character, value, .. } => (match trim_character {
            Some(c) => view_pb(*c),
            None => false,
        }) || view_pb(*value),
        ExprView::MultiTrim { value, trim_characters, .. } => view_pb(*value) || (match trim_characters {
            Some(c) => view_pb(*c),
            None => false,
        }),
        ExprView::TrimList { value, count } => view_pb(*value) || view_pb(*count),
        ExprView::DurationBetween { left, right } => view_pb(*left) || view_pb(*right),
        ExprView::IsTyped { expr, .. } => view_pb(*expr),
        ExprView::IsNull { expr, .. } => view_pb(*expr),
        ExprView::IsUnknown { expr, .. } => view_pb(*expr),
        ExprView::IsTruth { expr, .. } => view_pb(*expr),
        ExprView::IsNormalized { expr, .. } => view_pb(*expr),
        ExprView::Case { operand, when_clauses, else_expr } => (match operand {
            Some(o) => view_pb(*o),
            None => false,
        }) || whens_pb(when_clauses) || (match else_expr {
            Some(x) => view_pb(*x),
            None => false,
        }),
        _ => false,
    }
}

/// Whether a part of the values of `WHEN` clauses holds an inline procedure call.
pub open spec fn whens_pb(ws: Seq<(ExprView, Seq<ExprView>, ExprView)>) -> bool
    decreases ws,
{
    exists|i: int| 0 <= i < ws.len() && (view_pb((#[trigger] ws[i]).0) || views_pb(ws[i].1) || view_pb(ws[i].2))
}

/// Whether a value of a record's fields holds an inline procedure call.
pub open spec fn fields_pb(fs: Seq<(Seq<char>, ExprView)>) -> bool
    decreases fs,
{
    exists|i: int| 0 <= i < fs.len() && view_pb(#[trigger] fs[i].1)
}

/// Whether an expression of a sequence of values holds an inline procedure call.
pub open spec fn views_pb(s: Seq<ExprView>) -> bool
    decreases s,
{
    exists|i: int| 0 <= i < s.len() && view_pb(#[trigger] s[i])
}

/// The value of an expression tells whether it holds an inline procedure call.
#[verifier::rlimit(60)]
pub proof fn lemma_view_pb(e: Expr)
    ensures
        view_pb(expr_view(e)) == expr_pb(e),
    decreases e,
{
    if expr_view(e) is Other {
        assert(expr_view(e) == ExprView::Other(expr_pb(e)));
    } else {
    match e {
        Expr::Property { base, key } => {
            lemma_view_pb(*base);
            assert(expr_view(e) == ExprView::Property { base: Box::new(expr_view(*base)), key: key@ });
            assert(expr_pb(e) == expr_pb(*base));
            let pv = ExprView::Property { base: Box::new(expr_view(*base)), key: key@ };
            assert(view_pb(pv) == view_pb(expr_view(*base)));
            assert(view_pb(expr_view(*base)) == expr_pb(*base));
            assert(view_pb(expr_view(e)) == expr_pb(e));
            assert(view_pb(expr_view(e)) == expr_pb(e));
        },
        Expr::Unary { expr, .. } => {
            lemma_view_pb(*expr);
            assert(view_pb(expr_view(e)) == expr_pb(e));
            assert(view_pb(expr_view(e)) == expr_pb(e));
        },
        Expr::Binary { left, right, .. } => {
            lemma_view_pb(*left);
            lemma_view_pb(*right);
            assert(view_pb(expr_view(e)) == expr_pb(e));
        },
        Expr::Function { args, .. } => {
            lemma_views_pb(args@);
            assert(view_pb(expr_view(e)) == expr_pb(e));
            assert(view_pb(expr_view(e)) == expr_pb(e));
        },
        Expr::List(args) => {
            lemma_views_pb(args@);
            assert(view_pb(expr_view(e)) == expr_pb(e));
            assert(view_pb(expr_view(e)) == expr_pb(e));
        },
        Expr::TypedList { values, .. } => {
            lemma_views_pb(values@);
            assert(view_pb(expr_view(e)) == expr_pb(e));
            assert(view_pb(expr_view(e)) == expr_pb(e));
        },
        Expr::Path(args) => {
            lemma_views_pb(args@);
            assert(view_pb(expr_view(e)) == expr_pb(e));
            assert(view_pb(expr_view(e)) == expr_pb(e));
        },
        Expr::Coalesce(args) => {
            lemma_views_pb(args@);
            assert(view_pb(expr_view(e)) == expr_pb(e));
            assert(view_pb(expr_view(e)) == expr_pb(e));
        },
        Expr::NumericFunction { args, .. } => {
            lemma_views_pb(args@);
            assert(view_pb(expr_view(e)) == expr_pb(e));
            assert(view_pb(expr_view(e)) == expr_pb(e));
        },
        Expr::Record { explicit, fields } => {
            let s = fields.entries@;
            lemma_entries_view(s);
            assert forall|i: int| 0 <= i < s.len() implies view_pb(#[trigger] entries_view(s)[i].1) == expr_pb(
                s[i].1,
            ) by {
                lemma_view_pb(s[i].1);
            }
            let ev = entries_view(s);
            if entries_pb(s) {
                let i = choose|i: int| 0 <= i < s.len() && expr_pb((#[trigger] s[i]).1);
                assert(view_pb(ev[i].1));
            }
            if exists|i: int| 0 <= i < ev.len() && view_pb(#[trigger] ev[i].1) {
                let i = choose|i: int| 0 <= i < ev.len() && view_pb(#[trigger] ev[i].1);
                assert(expr_pb(s[i].1));
            }
            assert(expr_view(e) == ExprView::Record { explicit, fields: ev });
            assert(expr_pb(e) == entries_pb(s));
            assert(view_pb(ExprView::Record { explicit, fields: ev }) == fields_pb(ev));
            assert(view_pb(expr_view(e)) == expr_pb(e));
        },
        Expr::Cast { expr, .. } => {
            lemma_view_pb(*expr);
            assert(view_pb(expr_view(e)) == expr_pb(e));
            assert(view_pb(expr_view(e)) == expr_pb(e));
        },
        Expr::NullIf { left, right } => {
            lemma_view_pb(*left);
            lemma_view_pb(*right);
            assert(view_pb(expr_view(e)) == expr_pb(e));
        },
        Expr::AbsoluteValue { expr } => {
            lemma_view_pb(*expr);
            assert(view_pb(expr_view(e)) == expr_pb(e));
            assert(view_pb(expr_view(e)) == expr_pb(e));
        },
        Expr::Fold { value, .. } => {
            lemma_view_pb(*value);
            assert(view_pb(expr_view(e)) == expr_pb(e));
            assert(view_pb(expr_view(e)) == expr_pb(e));
        },
        Expr::StringLength { value, .. } => {
            lemma_view_pb(*value);
            assert(view_pb(expr_view(e)) == expr_pb(e));
            assert(view_pb(expr_view(e)) == expr_pb(e));
        },
        Expr::Elements { path } => {
            lemma_view_pb(*path);
            assert(view_pb(expr_view(e)) == expr_pb(e));
            assert(view_pb(expr_view(e)) == expr_pb(e));
        },
        Expr::SubstringByLength { value, length, .. } => {
            lemma_view_pb(*value);
            lemma_view_pb(*length);
            assert(view_pb(expr_view(e)) == expr_pb(e));
        },
        Expr::Normalize { value, .. } => {
            lemma_view_pb(*value);
            assert(view_pb(expr_view(e)) == expr_pb(e));
            assert(view_pb(expr_view(e)) == expr_pb(e));
        },
        Expr::Trim { trim_character, value, .. } => {
            lemma_view_pb(*value);
            match trim_character {
                Some(c) => {
                    lemma_view_pb(*c);
                    assert(boxed_pb(Some(c)) == expr_pb(*c));
                },
                None => {
                    assert(!boxed_pb(None));
                },
            }
            assert(view_pb(expr_view(e)) == expr_pb(e));
        },
        Expr::MultiTrim { value, trim_characters, .. } => {
            lemma_view_pb(*value);
            match trim_characters {
                Some(c) => {
                    lemma_view_pb(*c);
                    assert(boxed_pb(Some(c)) == expr_pb(*c));
                },
                None => {
                    assert(!boxed_pb(None));
                },
            }
            assert(view_pb(expr_view(e)) == expr_pb(e));
        },
        Expr::TrimList { value, count } => {
            lemma_view_pb(*value);
            lemma_view_pb(*count);
            assert(view_pb(expr_view(e)) == expr_pb(e));
        },
        Expr::DurationBetween { left, right } => {
            lemma_view_pb(*left);
            lemma_view_pb(*right);
            assert(view_pb(expr_view(e)) == expr_pb(e));
        },
        Expr::IsTyped { expr, .. } => {
            lemma_view_pb(*expr);
            assert(view_pb(expr_view(e)) == expr_pb(e));
            assert(view_pb(expr_view(e)) == expr_pb(e));
        },
        Expr::IsNull { expr, .. } => {
            lemma_view_pb(*expr);
            assert(view_pb(expr_view(e)) == expr_pb(e));
            assert(view_pb(expr_view(e)) == expr_pb(e));
        },
        Expr::IsUnknown { expr, .. } => {
            lemma_view_pb(*expr);
            assert(view_pb(expr_view(e)) == expr_pb(e));
            assert(view_pb(expr_view(e)) == expr_pb(e));
        },
        Expr::IsTruth { expr, .. } => {
            lemma_view_pb(*expr);
            assert(view_pb(expr_view(e)) == expr_pb(e));
            assert(view_pb(expr_view(e)) == expr_pb(e));
        },
        Expr::IsNormalized { expr, .. } => {
            lemma_view_pb(*expr);
            assert(view_pb(expr_view(e)) == expr_pb(e));
            assert(view_pb(expr_view(e)) == expr_pb(e));
        },
        Expr::Case { operand, when_clauses, else_expr } => {
            match operand {
                Some(o) => {
                    lemma_view_pb(*o);
                    assert(boxed_pb(Some(o)) == expr_pb(*o));
                },
                None => {
                    assert(!boxed_pb(None));
                },
            }
            match else_expr {
                Some(x) => {
                    lemma_view_pb(*x);
                    assert(boxed_pb(Some(x)) == expr_pb(*x));
                },
                None => {
                    assert(!boxed_pb(None));
                },
            }
            lemma_whens_pb(when_clauses@);
            assert(view_pb(expr_view(e)) == expr_pb(e));
        },
        _ => {},
    }
    }
}

/// The values of `WHEN` clauses tell whether one holds an inline procedure call.
pub proof fn lemma_whens_pb(s: Seq<CaseWhenClause>)
    ensures
        whens_pb(whens_view(s)) == when_clauses_pb(s),
    decreases s,
{
    lemma_whens_view(s);
    let wv = whens_view(s);
    assert forall|i: int| 0 <= i < s.len() implies (view_pb((#[trigger] wv[i]).0) || views_pb(wv[i].1) || view_pb(
        wv[i].2,
    )) == (expr_pb(s[i].condition) || exprs_pb(s[i].additional_operands@) || expr_pb(s[i].result)) by {
        lemma_view_pb(s[i].condition);
        lemma_views_pb(s[i].additional_operands@);
        lemma_view_pb(s[i].result);
    }
    if when_clauses_pb(s) {
        let i = choose|i: int|
            0 <= i < s.len() && (expr_pb((#[trigger] s[i]).condition) || exprs_pb(s[i].additional_operands@)
                || expr_pb(s[i].result));
        assert(view_pb(wv[i].0) || views_pb(wv[i].1) || view_pb(wv[i].2));
    }
    if whens_pb(wv) {
        let i = choose|i: int| 0 <= i < wv.len() && (view_pb((#[trigger] wv[i]).0) || views_pb(wv[i].1) || view_pb(wv[i].2));
        assert(expr_pb(s[i].condition) || exprs_pb(s[i].additional_operands@) || expr_pb(s[i].result));
    }
}

/// The values of a sequence of expressions tell whether one holds an inline procedure call.
pub proof fn lemma_views_pb(s: Seq<Expr>)
    ensures
        views_pb(exprs_view(s)) == exprs_pb(s),
    decreases s,
{
    lemma_exprs_view(s);
    let ev = exprs_view(s);
    assert forall|i: int| 0 <= i < s.len() implies view_pb(#[trigger] ev[i]) == expr_pb(s[i]) by {
        lemma_view_pb(s[i]);
    }
    if exprs_pb(s) {
        let i = choose|i: int| 0 <= i < s.len() && expr_pb(#[trigger] s[i]);
        assert(view_pb(ev[i]));
    }
    if views_pb(ev) {
        let i = choose|i: int| 0 <= i < ev.len() && view_pb(#[trigger] ev[i]);
        assert(expr_pb(s[i]));
    }
}

/// An expression result by its value.
pub open spec fn expr_result(r: Result<Expr, crate::error::Error>) -> Result<ExprView, ErrorView> {
    match r {
        Ok(e) => Ok(expr_view(e)),
        Err(e) => Err(e@),
    }
}

/// The message for an expression form that opens with a keyword of its own (a function, a
/// constructor, a typed literal, a subquery or a predicate), which this parser does not read.
pub open spec fn unsupported_form_message() -> Seq<char> {
    "expression form is not supported by this parser"@
}

/// The message for an element predicate whose operand is not a variable.
pub open spec fn element_variable_message(predicate: Seq<char>) -> Seq<char> {
    predicate + " predicate target must be an element variable"@
}

/// The message for an `IS` with no standard predicate after it.
pub open spec fn is_tail_message() -> Seq<char> {
    "expected standard IS predicate tail"@
}

/// Kinds whose token always opens a form of its own as a primary.
pub open spec fn always_own_form(k: TokenKind) -> bool {
    match k {
        TokenKind::Date
        | TokenKind::Time
        | TokenKind::Datetime
        | TokenKind::Timestamp
        | TokenKind::Interval
        | TokenKind::Case
        | TokenKind::Cast
        | TokenKind::CurrentTime
        | TokenKind::CurrentTimestamp
        | TokenKind::Localtimestamp
        | TokenKind::PropertyExists
        | TokenKind::ElementId
        | TokenKind::Exists
        | TokenKind::Same
        | TokenKind::AllDifferent
        | TokenKind::ByteString => true,
        _ => false,
    }
}

/// Kinds whose token opens a function of its own when `(` follows.
pub open spec fn call_own_form(k: TokenKind) -> bool {
    match k {
        TokenKind::Duration
        | TokenKind::DurationBetween
        | TokenKind::Coalesce
        | TokenKind::Nullif
        | TokenKind::ZonedTime
        | TokenKind::ZonedDatetime
        | TokenKind::LocalTime
        | TokenKind::LocalDatetime
        | TokenKind::Abs
        | TokenKind::Floor
        | TokenKind::Ceil
        | TokenKind::Ceiling
        | TokenKind::Sqrt
        | TokenKind::Log10
        | TokenKind::Ln
        | TokenKind::Exp
        | TokenKind::Sin
        | TokenKind::Cos
        | TokenKind::Tan
        | TokenKind::Cot
        | TokenKind::Sinh
        | TokenKind::Cosh
        | TokenKind::Tanh
        | TokenKind::Asin
        | TokenKind::Acos
        | TokenKind::Atan
        | TokenKind::Degrees
        | TokenKind::Radians
        | TokenKind::PathLength
        | TokenKind::Mod
        | TokenKind::Power
        | TokenKind::Log
        | TokenKind::Left
        | TokenKind::Right
        | TokenKind::Trim
        | TokenKind::Btrim
        | TokenKind::Ltrim
        | TokenKind::Rtrim
        | TokenKind::Elements
        | TokenKind::Upper
        | TokenKind::Lower
        | TokenKind::Normalize
        | TokenKind::CharLength
        | TokenKind::CharacterLength
        | TokenKind::ByteLength
        | TokenKind::OctetLength => true,
        _ => false,
    }
}

/// Whether the token of kind `k` that was just read, with the parser at `q`, opens a form of
/// its own that this parser does not read: a constructor, function, typed literal, subquery,
/// predicate, graph or binding table reference, or a call of a named function.
pub open spec fn own_form_at(v: InputView, q: int, k: TokenKind) -> bool {
    let next = kind_at(v, q);
    ||| always_own_form(k)
    ||| call_own_form(k) && next == TokenKind::LParen
    ||| k == TokenKind::Duration && is_character_string_kind(next)
    ||| k == TokenKind::Value && next == TokenKind::LBrace
    ||| k == TokenKind::Let && starts_let_value_expression(v, q)
    ||| k == TokenKind::Graph && strict_graph_expression_start(v, q, next)
    ||| k == TokenKind::Property && next == TokenKind::Graph && (match kind_ahead(v, q, 1) {
        Some(k2) => strict_graph_expression_start(v, q, k2),
        None => false,
    })
    ||| k == TokenKind::Table && strict_binding_table_expression_start(v, q, next)
    ||| k == TokenKind::Binding && next == TokenKind::Table
}

/// Whether a word that can name a variable was read: a quoted name, or an identifier-like
/// token other than the literals `NULL`, `TRUE`, `FALSE` and `UNKNOWN`.
pub open spec fn names_variable(k: TokenKind) -> bool {
    k == TokenKind::DoubleQuotedString || (spec_is_identifier_like(k) && k != TokenKind::Null && k
        != TokenKind::True && k != TokenKind::False && k != TokenKind::Unknown)
}

/// Whether the token of kind `k` that was just read, with the parser at `q`, names a
/// function that is called with `(`.
pub open spec fn starts_call(v: InputView, q: int, k: TokenKind) -> bool {
    &&& kind_at(v, q) == TokenKind::LParen
    &&& names_variable(k)
    &&& k != TokenKind::CurrentDate
    &&& k != TokenKind::CurrentUser
    &&& !own_form_at(v, q, k)
}

/// Whether a keyword of kind `k` reads the current time or timestamp.
pub open spec fn current_clock_kind(k: TokenKind) -> bool {
    k == TokenKind::CurrentTime || k == TokenKind::CurrentTimestamp || k == TokenKind::Localtimestamp
}

/// The message for parameters after `CURRENT_TIME`, `CURRENT_TIMESTAMP` or
/// `LOCAL_TIMESTAMP` (`k`), which take none.
pub open spec fn clock_parameters_message(k: TokenKind) -> Seq<char> {
    if k == TokenKind::CurrentTime {
        "CURRENT_TIME does not accept parameters"@
    } else if k == TokenKind::CurrentTimestamp {
        "CURRENT_TIMESTAMP does not accept parameters"@
    } else {
        "LOCAL_TIMESTAMP does not accept parameters"@
    }
}

/// Whether `GROUP` was read before a list type name and `[`.
pub open spec fn group_list_value_at(v: InputView, q: int, k: TokenKind) -> bool {
    k == TokenKind::Group && (kind_at(v, q) == TokenKind::List || kind_at(v, q) == TokenKind::Array)
        && kind_ahead(v, q, 1) == Some(TokenKind::LBracket)
}

/// The kinds named when no primary can start at a token.
pub open spec fn primary_starts() -> Seq<TokenKind> {
    seq![
        TokenKind::Identifier,
        TokenKind::Parameter,
        TokenKind::String,
        TokenKind::ByteString,
        TokenKind::Integer,
        TokenKind::Decimal,
        TokenKind::Null,
        TokenKind::True,
        TokenKind::False,
        TokenKind::Unknown,
        TokenKind::Case,
        TokenKind::Cast,
        TokenKind::Interval,
        TokenKind::PropertyExists,
        TokenKind::ElementId,
        TokenKind::Exists,
        TokenKind::Same,
        TokenKind::AllDifferent,
        TokenKind::LParen,
        TokenKind::LBracket,
        TokenKind::LBrace,
    ]
}

/// The value of an integer literal's text, if it fits in an `i64`.
pub open spec fn i64_from_text(t: Seq<char>) -> Option<i64> {
    match u64_from_text(t) {
        Some(n) => if n <= i64::MAX {
            Some(n as i64)
        } else {
            None
        },
        None => None,
    }
}

/// A primary that is a single token, read at `p`, with `q` the position after it; `None`
/// where the token opens a parenthesized expression.
pub open spec fn token_primary(v: InputView, p: int, q: int) -> Option<Result<ExprView, ErrorView>> {
    let t = tok(v, p);
    let k = t.kind;
    if group_list_value_at(v, q, k) {
        Some(Err(ErrorView::Message { offset: t.offset, message: group_list_message() }))
    } else if k == TokenKind::CurrentDate {
        Some(Ok(ExprView::CurrentDate))
    } else if k == TokenKind::CurrentUser {
        Some(Ok(ExprView::CurrentUser))
    } else if current_clock_kind(k) {
        if kind_at(v, q) == TokenKind::LParen {
            Some(Err(ErrorView::Message { offset: tok(v, q).offset, message: clock_parameters_message(k) }))
        } else if k == TokenKind::CurrentTime {
            Some(Ok(ExprView::CurrentTime { precision: None }))
        } else if k == TokenKind::CurrentTimestamp {
            Some(Ok(ExprView::CurrentTimestamp { precision: None }))
        } else {
            Some(Ok(ExprView::LocalTimestamp { precision: None }))
        }
    } else if k == TokenKind::LocalTime && kind_at(v, q) != TokenKind::LParen {
        Some(Ok(ExprView::LocalTime { precision: None }))
    } else if own_form_at(v, q, k) {
        Some(Err(ErrorView::Message { offset: t.offset, message: unsupported_form_message() }))
    } else if k == TokenKind::DoubleQuotedString && kind_at(v, q) == TokenKind::Dot {
        Some(Ok(ExprView::Identifier(t.text)))
    } else if k == TokenKind::DoubleQuotedString || k == TokenKind::String {
        Some(Ok(ExprView::Literal(LiteralView::String(t.text))))
    } else if names_variable(k) {
        Some(Ok(ExprView::Identifier(t.text)))
    } else if k == TokenKind::Parameter {
        Some(Ok(ExprView::Parameter(trim_dollars(t.text))))
    } else if k == TokenKind::Integer {
        match i64_from_text(t.text) {
            Some(n) => Some(Ok(ExprView::Literal(LiteralView::Integer(n)))),
            None => Some(Err(ErrorView::BadNumber { offset: t.offset, token_text: t.text })),
        }
    } else if k == TokenKind::Decimal {
        Some(Ok(ExprView::Literal(LiteralView::Decimal(t.text))))
    } else if k == TokenKind::Null {
        Some(Ok(ExprView::Literal(LiteralView::Null)))
    } else if k == TokenKind::True {
        Some(Ok(ExprView::Literal(LiteralView::Boolean(true))))
    } else if k == TokenKind::False {
        Some(Ok(ExprView::Literal(LiteralView::Boolean(false))))
    } else if k == TokenKind::Unknown {
        Some(Ok(ExprView::Literal(LiteralView::Unknown)))
    } else if k == TokenKind::Star {
        Some(Ok(ExprView::Wildcard))
    } else if k == TokenKind::LParen {
        None
    } else if k == TokenKind::Eof {
        Some(Err(eof_err(v)))
    } else {
        Some(
            Err(
                ErrorView::UnexpectedToken {
                    offset: t.offset,
                    expected: primary_starts(),
                    got: k,
                    token_text: t.text,
                },
            ),
        )
    }
}

/// The binary operator of level `l` that a token of kind `k` stands for: `OR`/`XOR` at
/// level 5, `AND` at 4, `||` at 2, `+`/`-` at 1, `*`/`/` at 0.
pub open spec fn level_op(l: int, k: TokenKind) -> Option<BinaryOp> {
    if l == 5 && k == TokenKind::Or {
        Some(BinaryOp::Or)
    } else if l == 5 && k == TokenKind::Xor {
        Some(BinaryOp::Xor)
    } else if l == 4 && k == TokenKind::And {
        Some(BinaryOp::And)
    } else if l == 2 && k == TokenKind::DoublePipe {
        Some(BinaryOp::Concat)
    } else if l == 1 && k == TokenKind::Plus {
        Some(BinaryOp::Add)
    } else if l == 1 && k == TokenKind::Minus {
        Some(BinaryOp::Sub)
    } else if l == 0 && k == TokenKind::Star {
        Some(BinaryOp::Mul)
    } else if l == 0 && k == TokenKind::Slash {
        Some(BinaryOp::Div)
    } else {
        None
    }
}

/// The comparison operator that a token of kind `k` stands for.
pub open spec fn comparison_op(k: TokenKind) -> Option<BinaryOp> {
    match k {
        TokenKind::Eq => Some(BinaryOp::Eq),
        TokenKind::Neq => Some(BinaryOp::Neq),
        TokenKind::Lt => Some(BinaryOp::Lt),
        TokenKind::Le => Some(BinaryOp::Le),
        TokenKind::Gt => Some(BinaryOp::Gt),
        TokenKind::Ge => Some(BinaryOp::Ge),
        _ => None,
    }
}

/// The unary operator that a token of kind `k` stands for.
pub open spec fn unary_op(k: TokenKind) -> Option<UnaryOp> {
    match k {
        TokenKind::Not => Some(UnaryOp::Not),
        TokenKind::Plus => Some(UnaryOp::Pos),
        TokenKind::Minus => Some(UnaryOp::Neg),
        _ => None,
    }
}

/// The predicate after `IS` or `IS NOT` (`negated`), read at `p`, about the expression `e`.
pub open spec fn is_tail_step(v: InputView, p: int, e: ExprView, negated: bool) -> (
    Result<ExprView, ErrorView>,
    int,
) {
    let k = kind_at(v, p);
    let q = next_pos(v, p);
    if k == TokenKind::Typed || k == TokenKind::DoubleColon {
        match typed_marker_step(v, p) {
            (Err(er), q1) => (Err(er), q1),
            (Ok(_), q1) => match value_type_step(v, q1) {
                (Err(er), q2) => (Err(er), q2),
                (Ok(t), q2) => (Ok(ExprView::IsTyped { expr: Box::new(e), negated, value_type: t }), q2),
            },
        }
    } else if k == TokenKind::Null {
        (Ok(ExprView::IsNull { expr: Box::new(e), negated }), q)
    } else if k == TokenKind::Unknown {
        (Ok(ExprView::IsUnknown { expr: Box::new(e), negated }), q)
    } else if k == TokenKind::True {
        (Ok(ExprView::IsTruth { expr: Box::new(e), negated, value: true }), q)
    } else if k == TokenKind::False {
        (Ok(ExprView::IsTruth { expr: Box::new(e), negated, value: false }), q)
    } else {
        element_tail_step(v, p, e, negated)
    }
}

/// The predicates after `IS` that are about an element or a string: `SOURCE OF` or
/// `DESTINATION OF` an edge, normalization, `DIRECTED`, `LABELED`.
pub open spec fn element_tail_step(v: InputView, p: int, e: ExprView, negated: bool) -> (
    Result<ExprView, ErrorView>,
    int,
) {
    let k = kind_at(v, p);
    let q = next_pos(v, p);
    if k == TokenKind::Source || k == TokenKind::Destination {
        match e {
            ExprView::Identifier(node) => {
                let kind = if k == TokenKind::Source {
                    SourceDestinationKind::Source
                } else {
                    SourceDestinationKind::Destination
                };
                match expect_step(v, q, TokenKind::Of) {
                    (Err(er), q1) => (Err(er), q1),
                    (Ok(_), q1) => match identifier_step(v, q1) {
                        (Err(er), q2) => (Err(er), q2),
                        (Ok(edge), q2) => (Ok(ExprView::SourceDestination { node, negated, kind, edge }), q2),
                    },
                }
            },
            _ => (Err(message_at(v, p, element_variable_message("source/destination"@))), p),
        }
    } else if k == TokenKind::Normalized {
        (Ok(ExprView::IsNormalized { expr: Box::new(e), negated, normal_form: None }), q)
    } else if spec_is_identifier_like(k) && kind_ahead(v, p, 1) == Some(TokenKind::Normalized) {
        match normal_form_step(v, p) {
            (Err(er), q1) => (Err(er), q1),
            (Ok(n), q1) => match expect_step(v, q1, TokenKind::Normalized) {
                (Err(er), q2) => (Err(er), q2),
                (Ok(_), q2) => (Ok(ExprView::IsNormalized { expr: Box::new(e), negated, normal_form: Some(n) }), q2),
            },
        }
    } else if k == TokenKind::Directed {
        match e {
            ExprView::Identifier(variable) => (Ok(ExprView::IsDirected { variable, negated }), q),
            _ => (Err(message_at(v, q, element_variable_message("directed"@))), q),
        }
    } else if k == TokenKind::Labeled {
        match e {
            ExprView::Identifier(variable) => match label_expression_step(v, q) {
                (Err(er), q1) => (Err(er), q1),
                (Ok(l), q1) => (Ok(ExprView::IsLabeled { variable, negated, label_expression: l }), q1),
            },
            _ => (Err(message_at(v, q, element_variable_message("labeled"@))), q),
        }
    } else {
        (Err(message_at(v, p, is_tail_message())), p)
    }
}

/// The error that a call of the function `name`, with the set quantifier `quantifier` and
/// the arguments `args`, is refused with at `offset`, if it is: only aggregate functions are
/// value functions here, no argument of an aggregate may hold an inline procedure call, and
/// each aggregate takes its own number of arguments.
pub open spec fn call_error(name: Seq<char>, quantifier: Option<SetQuantifier>, args: Seq<ExprView>, offset: int) -> Option<
    ErrorView,
> {
    if is_refused_value_function(name) {
        Some(ErrorView::Message { offset, message: "function "@ + name + " is not a standard GQL value function"@ })
    } else if views_pb(args) {
        Some(
            ErrorView::Message {
                offset,
                message: "aggregate function "@ + name + " cannot contain a procedure body"@,
            },
        )
    } else if eq_ignore_ascii_case(name, "COUNT"@) {
        if args.len() != 1 {
            Some(ErrorView::Message { offset, message: "aggregate function COUNT requires one value expression or *"@ })
        } else if args[0] is Wildcard && quantifier is Some {
            Some(ErrorView::Message { offset, message: "aggregate function COUNT(*) cannot specify a set quantifier"@ })
        } else {
            None
        }
    } else if spec_is_general_set_function_name(name) {
        if args.len() != 1 || args[0] is Wildcard {
            Some(
                ErrorView::Message {
                    offset,
                    message: "aggregate function "@ + name + " requires one value expression"@,
                },
            )
        } else {
            None
        }
    } else if args.len() != 2 || (exists|i: int| 0 <= i < args.len() && #[trigger] args[i] is Wildcard) {
        Some(
            ErrorView::Message {
                offset,
                message: "aggregate function "@ + name + " requires two numeric value expressions"@,
            },
        )
    } else {
        None
    }
}

/// The set quantifier of a call: a general set function called without one, on anything
/// but `*`, takes `ALL`.
pub open spec fn call_quantifier(name: Seq<char>, quantifier: Option<SetQuantifier>, args: Seq<ExprView>) -> Option<
    SetQuantifier,
> {
    if quantifier is None && spec_is_general_set_function_name(name) && !(args.len() == 1 && args[0] is Wildcard) {
        Some(SetQuantifier::All)
    } else {
        quantifier
    }
}

// The recursive part of the expression grammar. Each function's measure is the number of
// tokens left and then a rank; a function reads another at its own position only if that
// one's rank is lower. Level `l` (0 to 5) has rank `22 + 3 * l`, and its rest `21 + 3 * l`.

/// An expression: a disjunction.
pub open spec fn expr_step(v: InputView, p: int) -> (Result<ExprView, ErrorView>, int)
    decreases v.tokens.len() - p, 40int
    when 0 <= p < v.tokens.len()
{
    level_step(v, p, 5)
}

/// The operands of level `l` joined by its operators, from the left; level 3 is comparison.
pub open spec fn level_step(v: InputView, p: int, l: int) -> (Result<ExprView, ErrorView>, int)
    decreases v.tokens.len() - p, 22 + 3 * l
    when 0 <= p < v.tokens.len() && 0 <= l <= 5
{
    let (first, q) = if l == 0 {
        unary_step(v, p)
    } else {
        level_step(v, p, l - 1)
    };
    match first {
        Err(e) => (Err(e), q),
        Ok(e) => if p <= q < v.tokens.len() {
            if l == 3 {
                comparison_rest(v, q, e)
            } else {
                level_rest(v, q, l, e)
            }
        } else {
            (Ok(e), q)
        },
    }
}

/// More operands of level `l` after the expression `e`.
pub open spec fn level_rest(v: InputView, p: int, l: int, e: ExprView) -> (Result<ExprView, ErrorView>, int)
    decreases v.tokens.len() - p, 21 + 3 * l
    when 0 <= p < v.tokens.len() && 0 <= l <= 5
{
    match level_op(l, kind_at(v, p)) {
        None => (Ok(e), p),
        Some(op) => {
            let p1 = next_pos(v, p);
            let (right, q) = if l == 0 {
                unary_step(v, p1)
            } else {
                level_step(v, p1, l - 1)
            };
            match right {
                Err(er) => (Err(er), q),
                Ok(r) => {
                    let e2 = ExprView::Binary { left: Box::new(e), op, right: Box::new(r) };
                    if p < q < v.tokens.len() {
                        level_rest(v, q, l, e2)
                    } else {
                        (Ok(e2), q)
                    }
                },
            }
        },
    }
}

/// More comparisons after the expression `e`: a label test after `:`, a comparison
/// operator and its operand, or a predicate after `IS` or `IS NOT`.
pub open spec fn comparison_rest(v: InputView, p: int, e: ExprView) -> (Result<ExprView, ErrorView>, int)
    decreases v.tokens.len() - p, 30int
    when 0 <= p < v.tokens.len()
{
    let k = kind_at(v, p);
    let p1 = next_pos(v, p);
    let (r, q) = if k == TokenKind::Colon {
        match e {
            ExprView::Identifier(variable) => match label_expression_step(v, p1) {
                (Err(er), q) => (Err(er), q),
                (Ok(l), q) => (Ok(ExprView::IsLabeled { variable, negated: false, label_expression: l }), q),
            },
            _ => (Err(message_at(v, p1, element_variable_message("labeled"@))), p1),
        }
    } else if comparison_op(k) is Some {
        match level_step(v, p1, 2) {
            (Err(er), q) => (Err(er), q),
            (Ok(right), q) => (
                Ok(ExprView::Binary { left: Box::new(e), op: comparison_op(k)->0, right: Box::new(right) }),
                q,
            ),
        }
    } else if k == TokenKind::Is {
        let (negated, p2) = if kind_at(v, p1) == TokenKind::Not {
            (true, next_pos(v, p1))
        } else {
            (false, p1)
        };
        is_tail_step(v, p2, e, negated)
    } else {
        (Ok(e), p)
    };
    if k == TokenKind::Colon || comparison_op(k) is Some || k == TokenKind::Is {
        match r {
            Err(er) => (Err(er), q),
            Ok(e2) => if p < q < v.tokens.len() {
                comparison_rest(v, q, e2)
            } else {
                (Ok(e2), q)
            },
        }
    } else {
        (r, q)
    }
}

/// A unary expression: `NOT`, `+` or `-` before a unary expression, or a postfix one.
pub open spec fn unary_step(v: InputView, p: int) -> (Result<ExprView, ErrorView>, int)
    decreases v.tokens.len() - p, 18int
    when 0 <= p < v.tokens.len()
{
    match unary_op(kind_at(v, p)) {
        Some(op) => {
            let p1 = next_pos(v, p);
            if p < p1 < v.tokens.len() {
                match unary_step(v, p1) {
                    (Err(er), q) => (Err(er), q),
                    (Ok(e), q) => (Ok(ExprView::Unary { op, expr: Box::new(e) }), q),
                }
            } else {
                (Err(eof_err(v)), p1)
            }
        },
        None => match primary_step(v, p) {
            (Err(er), q) => (Err(er), q),
            (Ok(e), q) => if p <= q < v.tokens.len() {
                postfix_rest(v, q, e)
            } else {
                (Ok(e), q)
            },
        },
    }
}

/// Property references after the expression `e`: `.` and a key, any number of times.
pub open spec fn postfix_rest(v: InputView, p: int, e: ExprView) -> (Result<ExprView, ErrorView>, int)
    decreases v.tokens.len() - p,
    when 0 <= p < v.tokens.len()
{
    if kind_at(v, p) == TokenKind::Dot {
        match identifier_step(v, next_pos(v, p)) {
            (Err(er), q) => (Err(er), q),
            (Ok(key), q) => {
                let e2 = ExprView::Property { base: Box::new(e), key };
                if p < q < v.tokens.len() {
                    postfix_rest(v, q, e2)
                } else {
                    (Ok(e2), q)
                }
            },
        }
    } else {
        (Ok(e), p)
    }
}

/// A primary expression: a single token, or an expression in parentheses.
pub open spec fn primary_step(v: InputView, p: int) -> (Result<ExprView, ErrorView>, int)
    decreases v.tokens.len() - p, 12int
    when 0 <= p < v.tokens.len()
{
    let q = next_pos(v, p);
    let k = kind_at(v, p);
    if typed_literal_at(v, q, k) {
        match character_string_token_step(v, q) {
            (Err(e), q1) => (Err(e), q1),
            (Ok(t), q1) => (Ok(ExprView::Literal(typed_literal(k, t.text))), q1),
        }
    } else if k == TokenKind::Cast {
        if p < q < v.tokens.len() {
            cast_step(v, q)
        } else {
            (Err(eof_err(v)), q)
        }
    } else if k == TokenKind::Case && kind_at(v, q) == TokenKind::When {
        if p < q < v.tokens.len() {
            case_step(v, q)
        } else {
            (Err(eof_err(v)), q)
        }
    } else if (k == TokenKind::Coalesce || k == TokenKind::Nullif) && kind_at(v, q) == TokenKind::LParen {
        let p1 = next_pos(v, q);
        if p < p1 < v.tokens.len() {
            if k == TokenKind::Coalesce {
                coalesce_step(v, p1)
            } else {
                nullif_step(v, p1)
            }
        } else {
            (Err(eof_err(v)), p1)
        }
    } else if k == TokenKind::ElementId {
        match expect_step(v, q, TokenKind::LParen) {
            (Err(e), q1) => (Err(e), q1),
            (Ok(_), q1) => match identifier_step(v, q1) {
                (Err(e), q2) => (Err(e), q2),
                (Ok(variable), q2) => match expect_step(v, q2, TokenKind::RParen) {
                    (Err(e), q3) => (Err(e), q3),
                    (Ok(_), q3) => (Ok(ExprView::ElementId { variable }), q3),
                },
            },
        }
    } else if k == TokenKind::PropertyExists {
        match expect_step(v, q, TokenKind::LParen) {
            (Err(e), q1) => (Err(e), q1),
            (Ok(_), q1) => match identifier_step(v, q1) {
                (Err(e), q2) => (Err(e), q2),
                (Ok(variable), q2) => match expect_step(v, q2, TokenKind::Comma) {
                    (Err(e), q3) => (Err(e), q3),
                    (Ok(_), q3) => match identifier_step(v, q3) {
                        (Err(e), q4) => (Err(e), q4),
                        (Ok(property), q4) => match expect_step(v, q4, TokenKind::RParen) {
                            (Err(e), q5) => (Err(e), q5),
                            (Ok(_), q5) => (Ok(ExprView::PropertyExists { variable, property }), q5),
                        },
                    },
                },
            },
        }
    } else if simple_function_kind(k) && kind_at(v, q) == TokenKind::LParen {
        if p < q < v.tokens.len() {
            simple_function_step(v, q, k)
        } else {
            (Err(eof_err(v)), q)
        }
    } else if (k == TokenKind::List || k == TokenKind::Array) && kind_at(v, q) == TokenKind::LBracket {
        let p1 = next_pos(v, q);
        if p < p1 < v.tokens.len() {
            match list_values_step(v, p1) {
                (Err(e), q1) => (Err(e), q1),
                (Ok(values), q1) => (
                    Ok(ExprView::TypedList {
                        list_type: if k == TokenKind::List {
                            ListValueTypeName::List
                        } else {
                            ListValueTypeName::Array
                        },
                        values,
                    }),
                    q1,
                ),
            }
        } else {
            (Err(eof_err(v)), p1)
        }
    } else if k == TokenKind::Path && kind_at(v, q) == TokenKind::LBracket {
        let p1 = next_pos(v, q);
        if p < p1 < v.tokens.len() {
            path_step(v, p1)
        } else {
            (Err(eof_err(v)), p1)
        }
    } else if (k == TokenKind::Trim || multi_trim_of(k) is Some) && kind_at(v, q) == TokenKind::LParen {
        if p < q < v.tokens.len() {
            if k == TokenKind::Trim {
                trim_step(v, q)
            } else {
                multi_trim_step(v, q, multi_trim_of(k)->0)
            }
        } else {
            (Err(eof_err(v)), q)
        }
    } else if k == TokenKind::LBrace || (k == TokenKind::Record && kind_at(v, q) == TokenKind::LBrace) {
        let start = if k == TokenKind::LBrace {
            p
        } else {
            q
        };
        match map_literal_step(v, start) {
            (Err(e), q1) => (Err(e), q1),
            (Ok(fields), q1) => (Ok(ExprView::Record { explicit: k == TokenKind::Record, fields }), q1),
        }
    } else if kind_at(v, p) == TokenKind::LBracket {
        if p < q < v.tokens.len() {
            list_step(v, q)
        } else {
            (Err(eof_err(v)), q)
        }
    } else if starts_call(v, q, kind_at(v, p)) {
        let p1 = next_pos(v, q);
        if p < p1 < v.tokens.len() {
            function_call_step(v, p1, tok(v, p).text, tok(v, p).offset)
        } else {
            (Err(eof_err(v)), p1)
        }
    } else {
    match token_primary(v, p, q) {
        Some(r) => (r, q),
        None => if p < q < v.tokens.len() {
            match expr_step(v, q) {
                (Err(er), q1) => (Err(er), q1),
                (Ok(e), q1) => match expect_step(v, q1, TokenKind::RParen) {
                    (Err(er), q2) => (Err(er), q2),
                    (Ok(_), q2) => (Ok(e), q2),
                },
            }
        } else {
            (Err(eof_err(v)), q)
        },
    }
    }
}

/// The call of the function `name`, read at `offset`, after its `(`: no arguments, or an
/// optional set quantifier and arguments separated by commas; then `)`.
pub open spec fn function_call_step(v: InputView, p: int, name: Seq<char>, offset: int) -> (
    Result<ExprView, ErrorView>,
    int,
)
    decreases v.tokens.len() - p, 50int
    when 0 <= p < v.tokens.len()
{
    let (args, q) = if kind_at(v, p) == TokenKind::RParen {
        (Ok((None::<SetQuantifier>, Seq::<ExprView>::empty())), p)
    } else {
        let (quantifier, p1) = if kind_at(v, p) == TokenKind::Distinct {
            (Some(SetQuantifier::Distinct), next_pos(v, p))
        } else if kind_at(v, p) == TokenKind::All {
            (Some(SetQuantifier::All), next_pos(v, p))
        } else {
            (None, p)
        };
        if p <= p1 < v.tokens.len() {
            match arguments_rest(v, p1, Seq::empty()) {
                (Err(e), q) => (Err(e), q),
                (Ok(args), q) => (Ok((quantifier, args)), q),
            }
        } else {
            (Err(eof_err(v)), p1)
        }
    };
    match args {
        Err(e) => (Err(e), q),
        Ok((quantifier, args)) => match expect_step(v, q, TokenKind::RParen) {
            (Err(e), q2) => (Err(e), q2),
            (Ok(_), q2) => match call_error(name, quantifier, args, offset) {
                Some(e) => (Err(e), q2),
                None => (
                    Ok(ExprView::Function { name, quantifier: call_quantifier(name, quantifier, args), args }),
                    q2,
                ),
            },
        },
    }
}

/// Whether the token of kind `k` that was just read, with the parser at `q`, opens a typed
/// string literal: `DATE` not before `(`, `TIME`, `DATETIME`, `TIMESTAMP`, or `DURATION`
/// before a character string.
pub open spec fn typed_literal_at(v: InputView, q: int, k: TokenKind) -> bool {
    ||| k == TokenKind::Date && kind_at(v, q) != TokenKind::LParen
    ||| k == TokenKind::Time
    ||| k == TokenKind::Datetime
    ||| k == TokenKind::Timestamp
    ||| k == TokenKind::Duration && is_character_string_kind(kind_at(v, q))
}

/// The typed string literal that the keyword of kind `k` makes of the text `t`.
pub open spec fn typed_literal(k: TokenKind, t: Seq<char>) -> LiteralView {
    if k == TokenKind::Date {
        LiteralView::Date(t)
    } else if k == TokenKind::Time {
        LiteralView::Time(t)
    } else if k == TokenKind::Duration {
        LiteralView::Duration(t)
    } else {
        LiteralView::DateTime(t)
    }
}

/// `CAST`, after its keyword: `(`, an expression, `AS`, a value type, `)`.
pub open spec fn cast_step(v: InputView, p: int) -> (Result<ExprView, ErrorView>, int)
    decreases v.tokens.len() - p, 50int
    when 0 <= p < v.tokens.len()
{
    match expect_step(v, p, TokenKind::LParen) {
        (Err(e), q) => (Err(e), q),
        (Ok(_), q) => if p < q < v.tokens.len() {
            match expr_step(v, q) {
                (Err(e), q1) => (Err(e), q1),
                (Ok(e), q1) => match expect_step(v, q1, TokenKind::As) {
                    (Err(er), q2) => (Err(er), q2),
                    (Ok(_), q2) => match value_type_step(v, q2) {
                        (Err(er), q3) => (Err(er), q3),
                        (Ok(t), q3) => match expect_step(v, q3, TokenKind::RParen) {
                            (Err(er), q4) => (Err(er), q4),
                            (Ok(_), q4) => (Ok(ExprView::Cast { expr: Box::new(e), value_type: t }), q4),
                        },
                    },
                },
            }
        } else {
            (Err(eof_err(v)), q)
        },
    }
}

/// `COALESCE`, after its `(`: at least two expressions separated by commas, then `)`.
pub open spec fn coalesce_step(v: InputView, p: int) -> (Result<ExprView, ErrorView>, int)
    decreases v.tokens.len() - p, 50int
    when 0 <= p < v.tokens.len()
{
    match expr_step(v, p) {
        (Err(e), q) => (Err(e), q),
        (Ok(first), q) => match expect_step(v, q, TokenKind::Comma) {
            (Err(e), q1) => (Err(e), q1),
            (Ok(_), q1) => if p < q1 < v.tokens.len() {
                match arguments_rest(v, q1, seq![first]) {
                    (Err(e), q2) => (Err(e), q2),
                    (Ok(args), q2) => match expect_step(v, q2, TokenKind::RParen) {
                        (Err(e), q3) => (Err(e), q3),
                        (Ok(_), q3) => (Ok(ExprView::Coalesce(args)), q3),
                    },
                }
            } else {
                (Err(eof_err(v)), q1)
            },
        },
    }
}

/// A searched `CASE` expression after its `CASE`: `WHEN` clauses, each a condition, `THEN`
/// and a result; an optional `ELSE` and an expression; then `END`.
pub open spec fn case_step(v: InputView, p: int) -> (Result<ExprView, ErrorView>, int)
    decreases v.tokens.len() - p, 50int
    when 0 <= p < v.tokens.len()
{
    match case_whens_rest(v, p, Seq::empty()) {
        (Err(e), q) => (Err(e), q),
        (Ok(when_clauses), q) => if when_clauses.len() == 0 {
            (Err(expected_err(v, q, seq![TokenKind::When], kind_at(v, q))), q)
        } else {
            let (else_expr, q1) = if kind_at(v, q) == TokenKind::Else {
                let p1 = next_pos(v, q);
                if p < p1 < v.tokens.len() {
                    match expr_step(v, p1) {
                        (Err(e), qa) => (Err(e), qa),
                        (Ok(x), qa) => (Ok(Some(Box::new(x))), qa),
                    }
                } else {
                    (Err(eof_err(v)), p1)
                }
            } else {
                (Ok(None), q)
            };
            match else_expr {
                Err(e) => (Err(e), q1),
                Ok(else_expr) => match expect_step(v, q1, TokenKind::End) {
                    (Err(e), q2) => (Err(e), q2),
                    (Ok(_), q2) => (Ok(ExprView::Case { operand: None, when_clauses, else_expr }), q2),
                },
            }
        },
    }
}

/// `WHEN` clauses of a searched `CASE` expression after those in `acc`.
pub open spec fn case_whens_rest(v: InputView, p: int, acc: Seq<(ExprView, Seq<ExprView>, ExprView)>) -> (
    Result<Seq<(ExprView, Seq<ExprView>, ExprView)>, ErrorView>,
    int,
)
    decreases v.tokens.len() - p, 49int
    when 0 <= p < v.tokens.len()
{
    if kind_at(v, p) != TokenKind::When {
        (Ok(acc), p)
    } else {
        let p1 = next_pos(v, p);
        if p < p1 < v.tokens.len() {
            match expr_step(v, p1) {
                (Err(e), q) => (Err(e), q),
                (Ok(condition), q) => match expect_step(v, q, TokenKind::Then) {
                    (Err(e), q1) => (Err(e), q1),
                    (Ok(_), q1) => if p < q1 < v.tokens.len() {
                        match expr_step(v, q1) {
                            (Err(e), q2) => (Err(e), q2),
                            (Ok(result), q2) => {
                                let acc2 = acc.push((condition, Seq::empty(), result));
                                if p < q2 < v.tokens.len() {
                                    case_whens_rest(v, q2, acc2)
                                } else {
                                    (Ok(acc2), q2)
                                }
                            },
                        }
                    } else {
                        (Err(eof_err(v)), q1)
                    },
                },
            }
        } else {
            (Err(eof_err(v)), p1)
        }
    }
}

/// `NULLIF`, after its `(`: two expressions separated by a comma, then `)`.
pub open spec fn nullif_step(v: InputView, p: int) -> (Result<ExprView, ErrorView>, int)
    decreases v.tokens.len() - p, 50int
    when 0 <= p < v.tokens.len()
{
    match expr_step(v, p) {
        (Err(e), q) => (Err(e), q),
        (Ok(left), q) => match expect_step(v, q, TokenKind::Comma) {
            (Err(e), q1) => (Err(e), q1),
            (Ok(_), q1) => if p < q1 < v.tokens.len() {
                match expr_step(v, q1) {
                    (Err(e), q2) => (Err(e), q2),
                    (Ok(right), q2) => match expect_step(v, q2, TokenKind::RParen) {
                        (Err(e), q3) => (Err(e), q3),
                        (Ok(_), q3) => (Ok(ExprView::NullIf { left: Box::new(left), right: Box::new(right) }), q3),
                    },
                }
            } else {
                (Err(eof_err(v)), q1)
            },
        },
    }
}

/// The numeric function that a keyword of kind `k` names.
pub open spec fn numeric_function_of(k: TokenKind) -> Option<NumericFunctionKind> {
    match k {
        TokenKind::Floor => Some(NumericFunctionKind::Floor),
        TokenKind::Ceil | TokenKind::Ceiling => Some(NumericFunctionKind::Ceil),
        TokenKind::Sqrt => Some(NumericFunctionKind::Sqrt),
        TokenKind::Log10 => Some(NumericFunctionKind::Log10),
        TokenKind::Ln => Some(NumericFunctionKind::Ln),
        TokenKind::Exp => Some(NumericFunctionKind::Exp),
        TokenKind::Sin => Some(NumericFunctionKind::Sin),
        TokenKind::Cos => Some(NumericFunctionKind::Cos),
        TokenKind::Tan => Some(NumericFunctionKind::Tan),
        TokenKind::Cot => Some(NumericFunctionKind::Cot),
        TokenKind::Sinh => Some(NumericFunctionKind::Sinh),
        TokenKind::Cosh => Some(NumericFunctionKind::Cosh),
        TokenKind::Tanh => Some(NumericFunctionKind::Tanh),
        TokenKind::Asin => Some(NumericFunctionKind::Asin),
        TokenKind::Acos => Some(NumericFunctionKind::Acos),
        TokenKind::Atan => Some(NumericFunctionKind::Atan),
        TokenKind::Degrees => Some(NumericFunctionKind::Degrees),
        TokenKind::Radians => Some(NumericFunctionKind::Radians),
        TokenKind::PathLength => Some(NumericFunctionKind::PathLength),
        TokenKind::Mod => Some(NumericFunctionKind::Mod),
        TokenKind::Power => Some(NumericFunctionKind::Power),
        TokenKind::Log => Some(NumericFunctionKind::Log),
        _ => None,
    }
}

/// Whether a keyword of kind `k` names a function of two arguments.
pub open spec fn takes_two_arguments(k: TokenKind) -> bool {
    k == TokenKind::DurationBetween || k == TokenKind::Mod || k == TokenKind::Power || k == TokenKind::Log || k == TokenKind::Left || k
        == TokenKind::Right
}

/// Whether a keyword of kind `k` names a function that takes expressions in parentheses:
/// `ABS`, the numeric functions, `UPPER`, `LOWER`, the string lengths, `ELEMENTS`, `LEFT`,
/// `RIGHT` and `NORMALIZE`.
pub open spec fn simple_function_kind(k: TokenKind) -> bool {
    ||| k == TokenKind::Abs
    ||| numeric_function_of(k) is Some
    ||| k == TokenKind::Upper
    ||| k == TokenKind::Lower
    ||| k == TokenKind::CharLength
    ||| k == TokenKind::CharacterLength
    ||| k == TokenKind::ByteLength
    ||| k == TokenKind::OctetLength
    ||| k == TokenKind::Elements
    ||| k == TokenKind::Left
    ||| k == TokenKind::Right
    ||| k == TokenKind::Normalize
    ||| k == TokenKind::DurationBetween
}

/// The call of a function of one argument, `e`, named by a keyword of kind `k`.
pub open spec fn one_argument_call(k: TokenKind, e: ExprView) -> ExprView {
    if k == TokenKind::Abs {
        ExprView::AbsoluteValue { expr: Box::new(e) }
    } else if k == TokenKind::Upper || k == TokenKind::Lower {
        ExprView::Fold { upper: k == TokenKind::Upper, value: Box::new(e) }
    } else if k == TokenKind::CharLength || k == TokenKind::CharacterLength {
        ExprView::StringLength { unit: StringLengthUnit::Characters, value: Box::new(e) }
    } else if k == TokenKind::ByteLength || k == TokenKind::OctetLength {
        ExprView::StringLength { unit: StringLengthUnit::Bytes, value: Box::new(e) }
    } else if k == TokenKind::Elements {
        ExprView::Elements { path: Box::new(e) }
    } else {
        ExprView::NumericFunction { function: numeric_function_of(k)->0, args: seq![e] }
    }
}

/// The call of a function of two arguments, `a` and `b`, named by a keyword of kind `k`.
pub open spec fn two_argument_call(k: TokenKind, a: ExprView, b: ExprView) -> ExprView {
    if k == TokenKind::DurationBetween {
        ExprView::DurationBetween { left: Box::new(a), right: Box::new(b) }
    } else if k == TokenKind::Left || k == TokenKind::Right {
        ExprView::SubstringByLength {
            side: if k == TokenKind::Left {
                SubstringSide::Left
            } else {
                SubstringSide::Right
            },
            value: Box::new(a),
            length: Box::new(b),
        }
    } else {
        ExprView::NumericFunction { function: numeric_function_of(k)->0, args: seq![a, b] }
    }
}

/// The call of the function that a keyword of kind `k` names, from its `(`.
pub open spec fn simple_function_step(v: InputView, p: int, k: TokenKind) -> (Result<ExprView, ErrorView>, int)
    decreases v.tokens.len() - p, 52int
    when 0 <= p < v.tokens.len()
{
    if k == TokenKind::Normalize {
        normalize_call_step(v, p)
    } else if takes_two_arguments(k) {
        match two_arguments_step(v, p) {
            (Err(e), q) => (Err(e), q),
            (Ok((a, b)), q) => (Ok(two_argument_call(k, a, b)), q),
        }
    } else {
        match one_argument_step(v, p) {
            (Err(e), q) => (Err(e), q),
            (Ok(e), q) => (Ok(one_argument_call(k, e)), q),
        }
    }
}

/// `(`, an expression, `)`.
pub open spec fn one_argument_step(v: InputView, p: int) -> (Result<ExprView, ErrorView>, int)
    decreases v.tokens.len() - p, 50int
    when 0 <= p < v.tokens.len()
{
    match expect_step(v, p, TokenKind::LParen) {
        (Err(e), q) => (Err(e), q),
        (Ok(_), q) => if p < q < v.tokens.len() {
            match expr_step(v, q) {
                (Err(e), q1) => (Err(e), q1),
                (Ok(e), q1) => match expect_step(v, q1, TokenKind::RParen) {
                    (Err(er), q2) => (Err(er), q2),
                    (Ok(_), q2) => (Ok(e), q2),
                },
            }
        } else {
            (Err(eof_err(v)), q)
        },
    }
}

/// `(`, two expressions separated by a comma, `)`.
pub open spec fn two_arguments_step(v: InputView, p: int) -> (Result<(ExprView, ExprView), ErrorView>, int)
    decreases v.tokens.len() - p, 50int
    when 0 <= p < v.tokens.len()
{
    match expect_step(v, p, TokenKind::LParen) {
        (Err(e), q) => (Err(e), q),
        (Ok(_), q) => if p < q < v.tokens.len() {
            match expr_step(v, q) {
                (Err(e), q1) => (Err(e), q1),
                (Ok(a), q1) => match expect_step(v, q1, TokenKind::Comma) {
                    (Err(e), q2) => (Err(e), q2),
                    (Ok(_), q2) => if q < q2 < v.tokens.len() {
                        match expr_step(v, q2) {
                            (Err(e), q3) => (Err(e), q3),
                            (Ok(b), q3) => match expect_step(v, q3, TokenKind::RParen) {
                                (Err(e), q4) => (Err(e), q4),
                                (Ok(_), q4) => (Ok((a, b)), q4),
                            },
                        }
                    } else {
                        (Err(eof_err(v)), q2)
                    },
                },
            }
        } else {
            (Err(eof_err(v)), q)
        },
    }
}

/// `NORMALIZE` from its `(`: an expression, an optional comma and normal form, `)`.
pub open spec fn normalize_call_step(v: InputView, p: int) -> (Result<ExprView, ErrorView>, int)
    decreases v.tokens.len() - p, 50int
    when 0 <= p < v.tokens.len()
{
    match expect_step(v, p, TokenKind::LParen) {
        (Err(e), q) => (Err(e), q),
        (Ok(_), q) => if p < q < v.tokens.len() {
            match expr_step(v, q) {
                (Err(e), q1) => (Err(e), q1),
                (Ok(e), q1) => {
                    let (form, q2) = if kind_at(v, q1) == TokenKind::Comma {
                        match normal_form_step(v, next_pos(v, q1)) {
                            (Err(er), q2) => (Err(er), q2),
                            (Ok(n), q2) => (Ok(Some(n)), q2),
                        }
                    } else {
                        (Ok(None), q1)
                    };
                    match form {
                        Err(er) => (Err(er), q2),
                        Ok(form) => match expect_step(v, q2, TokenKind::RParen) {
                            (Err(er), q3) => (Err(er), q3),
                            (Ok(_), q3) => (Ok(ExprView::Normalize { value: Box::new(e), normal_form: form }), q3),
                        },
                    }
                },
            }
        } else {
            (Err(eof_err(v)), q)
        },
    }
}

/// The trim specification of `BTRIM`, `LTRIM` and `RTRIM`.
pub open spec fn multi_trim_of(k: TokenKind) -> Option<TrimSpec> {
    if k == TokenKind::Btrim {
        Some(TrimSpec::Both)
    } else if k == TokenKind::Ltrim {
        Some(TrimSpec::Leading)
    } else if k == TokenKind::Rtrim {
        Some(TrimSpec::Trailing)
    } else {
        None
    }
}

/// The kinds named where a path value constructor is empty.
pub open spec fn path_starts() -> Seq<TokenKind> {
    seq![
        TokenKind::Identifier,
        TokenKind::Parameter,
        TokenKind::LParen,
        TokenKind::Graph,
        TokenKind::Binding,
        TokenKind::Table,
    ]
}

/// A path value after its `[`: an expression, then pairs of expressions each after a
/// comma and separated by one; then `]`.
pub open spec fn path_step(v: InputView, p: int) -> (Result<ExprView, ErrorView>, int)
    decreases v.tokens.len() - p, 48int
    when 0 <= p < v.tokens.len()
{
    if kind_at(v, p) == TokenKind::RBracket {
        (Err(expected_err(v, p, path_starts(), TokenKind::RBracket)), p)
    } else {
        match expr_step(v, p) {
            (Err(e), q) => (Err(e), q),
            (Ok(first), q) => {
                let (r, q1) = if p <= q < v.tokens.len() {
                    path_rest(v, q, seq![first])
                } else {
                    (Ok(seq![first]), q)
                };
                match r {
                    Err(e) => (Err(e), q1),
                    Ok(values) => match expect_step(v, q1, TokenKind::RBracket) {
                        (Err(e), q2) => (Err(e), q2),
                        (Ok(_), q2) => (Ok(ExprView::Path(values)), q2),
                    },
                }
            },
        }
    }
}

/// Pairs of path elements, each after a comma and separated by one, after those in `acc`.
pub open spec fn path_rest(v: InputView, p: int, acc: Seq<ExprView>) -> (Result<Seq<ExprView>, ErrorView>, int)
    decreases v.tokens.len() - p, 47int
    when 0 <= p < v.tokens.len()
{
    if kind_at(v, p) != TokenKind::Comma {
        (Ok(acc), p)
    } else {
        let p1 = next_pos(v, p);
        if p < p1 < v.tokens.len() {
            match expr_step(v, p1) {
                (Err(e), q) => (Err(e), q),
                (Ok(a), q) => match expect_step(v, q, TokenKind::Comma) {
                    (Err(e), q1) => (Err(e), q1),
                    (Ok(_), q1) => if p < q1 < v.tokens.len() {
                        match expr_step(v, q1) {
                            (Err(e), q2) => (Err(e), q2),
                            (Ok(b), q2) => if p < q2 < v.tokens.len() {
                                path_rest(v, q2, acc.push(a).push(b))
                            } else {
                                (Ok(acc.push(a).push(b)), q2)
                            },
                        }
                    } else {
                        (Err(eof_err(v)), q1)
                    },
                },
            }
        } else {
            (Err(eof_err(v)), p1)
        }
    }
}

/// `TRIM` from its `(`: a trim specification, an optional character and `FROM`, and the
/// value; or a value, then a comma and a count, `FROM` and the value to trim, or nothing;
/// then `)`.
pub open spec fn trim_step(v: InputView, p: int) -> (Result<ExprView, ErrorView>, int)
    decreases v.tokens.len() - p, 48int
    when 0 <= p < v.tokens.len()
{
    match expect_step(v, p, TokenKind::LParen) {
        (Err(e), q) => (Err(e), q),
        (Ok(_), q) => {
            let (specification, q1) = trim_specification_step(v, q);
            if !(p < q1 < v.tokens.len()) {
                (Err(eof_err(v)), q1)
            } else if specification is Some {
                let (c, q2) = if kind_at(v, q1) == TokenKind::From {
                    (Ok(None::<Box<ExprView>>), next_pos(v, q1))
                } else {
                    match expr_step(v, q1) {
                        (Err(e), qa) => (Err(e), qa),
                        (Ok(c), qa) => match expect_step(v, qa, TokenKind::From) {
                            (Err(e), qb) => (Err(e), qb),
                            (Ok(_), qb) => (Ok(Some(Box::new(c))), qb),
                        },
                    }
                };
                match c {
                    Err(e) => (Err(e), q2),
                    Ok(c) => if p < q2 < v.tokens.len() {
                        match expr_step(v, q2) {
                            (Err(e), q3) => (Err(e), q3),
                            (Ok(value), q3) => match expect_step(v, q3, TokenKind::RParen) {
                                (Err(e), q4) => (Err(e), q4),
                                (Ok(_), q4) => (
                                    Ok(ExprView::Trim { specification, trim_character: c, value: Box::new(value) }),
                                    q4,
                                ),
                            },
                        }
                    } else {
                        (Err(eof_err(v)), q2)
                    },
                }
            } else {
                match expr_step(v, q1) {
                    (Err(e), qa) => (Err(e), qa),
                    (Ok(first), qa) => {
                        let qb = next_pos(v, qa);
                        if (kind_at(v, qa) == TokenKind::Comma || kind_at(v, qa) == TokenKind::From) && !(p < qb
                            < v.tokens.len()) {
                            (Err(eof_err(v)), qb)
                        } else if kind_at(v, qa) == TokenKind::Comma {
                            match expr_step(v, qb) {
                                (Err(e), qc) => (Err(e), qc),
                                (Ok(count), qc) => match expect_step(v, qc, TokenKind::RParen) {
                                    (Err(e), qd) => (Err(e), qd),
                                    (Ok(_), qd) => (
                                        Ok(ExprView::TrimList { value: Box::new(first), count: Box::new(count) }),
                                        qd,
                                    ),
                                },
                            }
                        } else if kind_at(v, qa) == TokenKind::From {
                            match expr_step(v, qb) {
                                (Err(e), qc) => (Err(e), qc),
                                (Ok(value), qc) => match expect_step(v, qc, TokenKind::RParen) {
                                    (Err(e), qd) => (Err(e), qd),
                                    (Ok(_), qd) => (
                                        Ok(
                                            ExprView::Trim {
                                                specification: None,
                                                trim_character: Some(Box::new(first)),
                                                value: Box::new(value),
                                            },
                                        ),
                                        qd,
                                    ),
                                },
                            }
                        } else {
                            match expect_step(v, qa, TokenKind::RParen) {
                                (Err(e), qd) => (Err(e), qd),
                                (Ok(_), qd) => (
                                    Ok(ExprView::Trim { specification: None, trim_character: None, value: Box::new(first) }),
                                    qd,
                                ),
                            }
                        }
                    },
                }
            }
        },
    }
}

/// `BTRIM`, `LTRIM` or `RTRIM` (`specification`) from its `(`: a value, an optional comma
/// and characters to trim, then `)`.
pub open spec fn multi_trim_step(v: InputView, p: int, specification: TrimSpec) -> (Result<ExprView, ErrorView>, int)
    decreases v.tokens.len() - p, 48int
    when 0 <= p < v.tokens.len()
{
    match expect_step(v, p, TokenKind::LParen) {
        (Err(e), q) => (Err(e), q),
        (Ok(_), q) => if p < q < v.tokens.len() {
            match expr_step(v, q) {
                (Err(e), q1) => (Err(e), q1),
                (Ok(value), q1) => {
                    let q2 = next_pos(v, q1);
                    let (c, q3) = if kind_at(v, q1) == TokenKind::Comma {
                        if p < q2 < v.tokens.len() {
                            match expr_step(v, q2) {
                                (Err(e), q3) => (Err(e), q3),
                                (Ok(c), q3) => (Ok(Some(Box::new(c))), q3),
                            }
                        } else {
                            (Err(eof_err(v)), q2)
                        }
                    } else {
                        (Ok(None::<Box<ExprView>>), q1)
                    };
                    match c {
                        Err(e) => (Err(e), q3),
                        Ok(c) => match expect_step(v, q3, TokenKind::RParen) {
                            (Err(e), q4) => (Err(e), q4),
                            (Ok(_), q4) => (
                                Ok(ExprView::MultiTrim { specification, value: Box::new(value), trim_characters: c }),
                                q4,
                            ),
                        },
                    }
                },
            }
        } else {
            (Err(eof_err(v)), q)
        },
    }
}

/// A list after its `[`.
pub open spec fn list_step(v: InputView, p: int) -> (Result<ExprView, ErrorView>, int)
    decreases v.tokens.len() - p, 51int
    when 0 <= p < v.tokens.len()
{
    match list_values_step(v, p) {
        (Err(e), q) => (Err(e), q),
        (Ok(values), q) => (Ok(ExprView::List(values)), q),
    }
}

/// A record's entries in braces, from its `{`: none, or a name, `:` and an expression,
/// separated by commas; then `}`. A name may appear once, ignoring the case of ASCII
/// letters.
pub open spec fn map_literal_step(v: InputView, p: int) -> (Result<Seq<(Seq<char>, ExprView)>, ErrorView>, int)
    decreases v.tokens.len() - p, 11int
    when 0 <= p < v.tokens.len()
{
    match expect_step(v, p, TokenKind::LBrace) {
        (Err(e), q) => (Err(e), q),
        (Ok(_), q) => if p < q < v.tokens.len() {
            map_after_lbrace_step(v, q)
        } else {
            (Err(eof_err(v)), q)
        },
    }
}

/// A record's entries after its `{`, then `}`.
pub open spec fn map_after_lbrace_step(v: InputView, p: int) -> (
    Result<Seq<(Seq<char>, ExprView)>, ErrorView>,
    int,
)
    decreases v.tokens.len() - p, 47int
    when 0 <= p < v.tokens.len()
{
    let (entries, q1) = if kind_at(v, p) == TokenKind::RBrace {
        (Ok(Seq::<(Seq<char>, ExprView)>::empty()), p)
    } else {
        map_entries_rest(v, p, Seq::empty())
    };
    match entries {
        Err(e) => (Err(e), q1),
        Ok(entries) => match expect_step(v, q1, TokenKind::RBrace) {
            (Err(e), q2) => (Err(e), q2),
            (Ok(_), q2) => (Ok(entries), q2),
        },
    }
}

/// Whether an entry of `entries` has the name `n`, ignoring the case of ASCII letters.
pub open spec fn has_field(entries: Seq<(Seq<char>, ExprView)>, n: Seq<char>) -> bool {
    exists|i: int| 0 <= i < entries.len() && eq_ignore_ascii_case(#[trigger] entries[i].0, n)
}

/// Record entries separated by commas, after the ones in `acc`.
pub open spec fn map_entries_rest(v: InputView, p: int, acc: Seq<(Seq<char>, ExprView)>) -> (
    Result<Seq<(Seq<char>, ExprView)>, ErrorView>,
    int,
)
    decreases v.tokens.len() - p, 46int
    when 0 <= p < v.tokens.len()
{
    match identifier_step(v, p) {
        (Err(e), q) => (Err(e), q),
        (Ok(key), q) => if has_field(acc, key) {
            (
                Err(ErrorView::Message { offset: tok(v, p).offset, message: "duplicate field '"@ + key + "'"@ }),
                q,
            )
        } else {
            match expect_step(v, q, TokenKind::Colon) {
                (Err(e), q1) => (Err(e), q1),
                (Ok(_), q1) => if p < q1 < v.tokens.len() {
                    match expr_step(v, q1) {
                        (Err(e), q2) => (Err(e), q2),
                        (Ok(value), q2) => {
                            let acc2 = acc.push((key, value));
                            if kind_at(v, q2) == TokenKind::Comma && p < q2 < v.tokens.len() && next_pos(v, q2)
                                < v.tokens.len() {
                                map_entries_rest(v, next_pos(v, q2), acc2)
                            } else {
                                (Ok(acc2), q2)
                            }
                        },
                    }
                } else {
                    (Err(eof_err(v)), q1)
                },
            }
        },
    }
}

/// The values of a list after its `[`: none, or expressions separated by commas; then `]`.
pub open spec fn list_values_step(v: InputView, p: int) -> (Result<Seq<ExprView>, ErrorView>, int)
    decreases v.tokens.len() - p, 50int
    when 0 <= p < v.tokens.len()
{
    let (values, q) = if kind_at(v, p) == TokenKind::RBracket {
        (Ok(Seq::<ExprView>::empty()), p)
    } else {
        arguments_rest(v, p, Seq::empty())
    };
    match values {
        Err(e) => (Err(e), q),
        Ok(values) => match expect_step(v, q, TokenKind::RBracket) {
            (Err(e), q2) => (Err(e), q2),
            (Ok(_), q2) => (Ok(values), q2),
        },
    }
}

/// Arguments separated by commas, after the ones in `acc`.
pub open spec fn arguments_rest(v: InputView, p: int, acc: Seq<ExprView>) -> (Result<Seq<ExprView>, ErrorView>, int)
    decreases v.tokens.len() - p, 45int
    when 0 <= p < v.tokens.len()
{
    match expr_step(v, p) {
        (Err(e), q) => (Err(e), q),
        (Ok(e), q) => {
            let acc2 = acc.push(e);
            if kind_at(v, q) == TokenKind::Comma && p <= q < v.tokens.len() && next_pos(v, q) < v.tokens.len() {
                arguments_rest(v, next_pos(v, q), acc2)
            } else {
                (Ok(acc2), q)
            }
        },
    }
}

} // verus!
