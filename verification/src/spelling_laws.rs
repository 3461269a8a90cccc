use vstd::prelude::*;
use crate::ast::{
    BinaryOp, NumericFunctionKind, PathPatternQuantifier, QuerySetOperator, ResultKind, SetQuantifier,
    StringLengthUnit, SubstringSide, TrimSpec, UnaryOp,
};
use crate::error::ErrorView;
use crate::expr_grammar::{
    is_tail_step, level_op, multi_trim_of, numeric_function_of, one_argument_call, simple_function_kind, takes_two_arguments, token_primary, two_argument_call,
    unary_op, ExprView, LiteralView,
};
use crate::fragments::query_conjunction_step;
use crate::grammar::path_quantifier_step;
use crate::lexer::lex_punctuation;
use crate::parser::{kind_at, next_pos, InputView};
use crate::query_grammar::result_clause_step;
use crate::token::{keyword_spelling, TokenKind};
use crate::ast::{
    ApproximateNumericTypeKind, BooleanTypeKind, ByteStringTypeKind, CharacterStringTypeKind, Direction,
    ExactNumericTypeKind, SessionResetTargetView, TransactionAccessMode,
};
use crate::grammar::{session_reset_target_step, transaction_characteristics_step};
use crate::parser::{kind_ahead, tok};
use crate::ast::{MatchMode, PathMode, PathOrPaths, PathPatternAlternation};
use crate::clause_grammar::{
    alternation_operator_at, alternation_operator_step, direction_override_prefix_step, direction_override_suffix_step,
    interval_field_kind, match_mode_step, simplified_prefix_step, simplified_suffix_step, trim_specification_step,
    SimplifiedPrefix, SqlIntervalFieldKind,
};
use crate::grammar::{label_and_rest, label_and_step, label_or_rest, label_unary_step, path_mode_step, path_or_paths_step};
use crate::ast::LabelExpressionView;
use crate::lexer::quoted_kind;
use crate::text::eq_ignore_ascii_case;
use crate::pattern_grammar::{bracketed_body_step, relationship_pattern_step};
use crate::type_grammar::{
    approximate_numeric_kind_at, boolean_kind_at, byte_string_kind_at, character_string_kind_at, exact_numeric_kind_at,
    numeric_suffix_of, text_is,
};

verus! {

/// Whether the characters `t` spell the operator `op` written with punctuation: `+`, `-`,
/// `*`, `/` or `||`.
pub open spec fn spells_arithmetic(op: BinaryOp, t: Seq<char>) -> bool {
    match op {
        BinaryOp::Add => t == seq!['+'],
        BinaryOp::Sub => t == seq!['-'],
        BinaryOp::Mul => t == seq!['*'],
        BinaryOp::Div => t == seq!['/'],
        BinaryOp::Concat => t == seq!['|', '|'],
        _ => false,
    }
}

/// The level at which the binary operator `op` binds, from the tightest: `*` and `/`, then
/// `+` and `-`, then `||`, then comparisons, then `AND`, then `OR` and `XOR`.
pub open spec fn binding_level(op: BinaryOp) -> int {
    match op {
        BinaryOp::Mul | BinaryOp::Div => 0,
        BinaryOp::Add | BinaryOp::Sub => 1,
        BinaryOp::Concat => 2,
        BinaryOp::And => 4,
        BinaryOp::Or | BinaryOp::Xor => 5,
        _ => 3,
    }
}

/// A punctuation token read as an arithmetic or concatenation operator is the one that its
/// characters spell, and a punctuation token read as a sign is `+` or `-` as spelled.
pub proof fn law_operator_tokens_read_as_spelled(s: Seq<char>, i: int, l: int)
    requires
        0 <= i < s.len(),
    ensures
        lex_punctuation(s, i) matches Some((k, end)) ==> {
            &&& level_op(l, k) is Some ==> spells_arithmetic(level_op(l, k)->0, s.subrange(i, end))
            &&& unary_op(k) == Some(UnaryOp::Pos) ==> s.subrange(i, end) == seq!['+']
            &&& unary_op(k) == Some(UnaryOp::Neg) ==> s.subrange(i, end) == seq!['-']
        },
{
    if lex_punctuation(s, i) is Some {
        let (k, end) = lex_punctuation(s, i)->0;
        let t = s.subrange(i, end);
        if end == i + 1 {
            assert(t =~= seq![s[i]]);
        } else {
            assert(t =~= seq![s[i], s[i + 1]]);
        }
    }
}

/// A keyword read as an operator is the word that names it (`OR`, `XOR`, `AND`, `NOT`),
/// and every binary operator is read at the level at which it binds.
pub proof fn law_operator_keywords_and_levels(l: int, k: TokenKind)
    ensures
        level_op(l, k) == Some(BinaryOp::Or) ==> keyword_spelling(k) == "OR"@,
        level_op(l, k) == Some(BinaryOp::Xor) ==> keyword_spelling(k) == "XOR"@,
        level_op(l, k) == Some(BinaryOp::And) ==> keyword_spelling(k) == "AND"@,
        unary_op(k) == Some(UnaryOp::Not) ==> keyword_spelling(k) == "NOT"@,
        level_op(l, k) matches Some(op) ==> l == binding_level(op),
{
}

/// The literal keywords read as the values they name: `TRUE` is true, `FALSE` false,
/// `NULL` the null value and `UNKNOWN` the unknown truth value.
pub proof fn law_literal_keywords(v: InputView, p: int, q: int)
    ensures
        token_primary(v, p, q) matches Some(Ok(ExprView::Literal(LiteralView::Boolean(b)))) ==> (
            keyword_spelling(kind_at(v, p)) == if b {
                "TRUE"@
            } else {
                "FALSE"@
            }),
        token_primary(v, p, q) matches Some(Ok(ExprView::Literal(LiteralView::Null))) ==> keyword_spelling(
            kind_at(v, p),
        ) == "NULL"@,
        token_primary(v, p, q) matches Some(Ok(ExprView::Literal(LiteralView::Unknown))) ==> keyword_spelling(
            kind_at(v, p),
        ) == "UNKNOWN"@,
{
}

/// The truth predicates after `IS` or `IS NOT` test the value they name, keep the negation
/// they were read with and apply to the expression before them: `IS TRUE` tests for true,
/// `IS FALSE` for false, `IS NULL` for null, `IS UNKNOWN` for unknown.
pub proof fn law_truth_predicates(v: InputView, p: int, e: ExprView, negated: bool)
    ensures
        is_tail_step(v, p, e, negated).0 matches Ok(ExprView::IsTruth { expr, negated: n, value }) ==> *expr == e
            && n == negated && keyword_spelling(kind_at(v, p)) == if value {
            "TRUE"@
        } else {
            "FALSE"@
        },
        is_tail_step(v, p, e, negated).0 matches Ok(ExprView::IsNull { expr, negated: n }) ==> *expr == e && n
            == negated && keyword_spelling(kind_at(v, p)) == "NULL"@,
        is_tail_step(v, p, e, negated).0 matches Ok(ExprView::IsUnknown { expr, negated: n }) ==> *expr == e && n
            == negated && keyword_spelling(kind_at(v, p)) == "UNKNOWN"@,
{
}

/// The word that names the set operator `op`.
pub open spec fn set_operator_word(op: QuerySetOperator) -> Seq<char> {
    match op {
        QuerySetOperator::Union => "UNION"@,
        QuerySetOperator::Except => "EXCEPT"@,
        QuerySetOperator::Intersect => "INTERSECT"@,
        QuerySetOperator::Otherwise => "OTHERWISE"@,
    }
}

/// A query conjunction is the set operator its word names; `UNION`, `EXCEPT` and
/// `INTERSECT` keep all rows after `ALL` and distinct rows otherwise, and `OTHERWISE` takes
/// no quantifier.
pub proof fn law_set_operator_words(v: InputView, p: int)
    ensures
        query_conjunction_step(v, p).0 matches Ok((op, quantifier)) ==> {
            &&& keyword_spelling(kind_at(v, p)) == set_operator_word(op)
            &&& quantifier == if op == QuerySetOperator::Otherwise {
                None
            } else if kind_at(v, next_pos(v, p)) == TokenKind::All {
                Some(SetQuantifier::All)
            } else {
                Some(SetQuantifier::Distinct)
            }
        },
{
}

/// The symbols of path quantifiers: `*` is zero or more, `+` one or more, `?` optional,
/// and a count or range stands in braces.
pub proof fn law_path_quantifier_symbols(v: InputView, p: int)
    ensures
        path_quantifier_step(v, p).0 matches Ok(Some(quantifier)) ==> {
            &&& quantifier == PathPatternQuantifier::ZeroOrMore <==> kind_at(v, p) == TokenKind::Star
            &&& quantifier == PathPatternQuantifier::OneOrMore <==> kind_at(v, p) == TokenKind::Plus
            &&& quantifier == PathPatternQuantifier::Optional <==> kind_at(v, p) == TokenKind::Question
            &&& (quantifier is Fixed || quantifier is Range) <==> kind_at(v, p) == TokenKind::LBrace
        },
        path_quantifier_step(v, p).0 matches Ok(None) ==> path_quantifier_step(v, p).1 == p,
{
}

/// Whether `w` is a name of the numeric function `f`.
pub open spec fn names_numeric_function(f: NumericFunctionKind, w: Seq<char>) -> bool {
    match f {
        NumericFunctionKind::Mod => w == "MOD"@,
        NumericFunctionKind::Floor => w == "FLOOR"@,
        NumericFunctionKind::Ceil => w == "CEIL"@ || w == "CEILING"@,
        NumericFunctionKind::Sqrt => w == "SQRT"@,
        NumericFunctionKind::Power => w == "POWER"@,
        NumericFunctionKind::Log => w == "LOG"@,
        NumericFunctionKind::Log10 => w == "LOG10"@,
        NumericFunctionKind::Ln => w == "LN"@,
        NumericFunctionKind::Exp => w == "EXP"@,
        NumericFunctionKind::Sin => w == "SIN"@,
        NumericFunctionKind::Cos => w == "COS"@,
        NumericFunctionKind::Tan => w == "TAN"@,
        NumericFunctionKind::Cot => w == "COT"@,
        NumericFunctionKind::Sinh => w == "SINH"@,
        NumericFunctionKind::Cosh => w == "COSH"@,
        NumericFunctionKind::Tanh => w == "TANH"@,
        NumericFunctionKind::Asin => w == "ASIN"@,
        NumericFunctionKind::Acos => w == "ACOS"@,
        NumericFunctionKind::Atan => w == "ATAN"@,
        NumericFunctionKind::Degrees => w == "DEGREES"@,
        NumericFunctionKind::Radians => w == "RADIANS"@,
        NumericFunctionKind::PathLength => w == "PATH_LENGTH"@,
    }
}

/// A numeric function is the one its keyword names, and so are the trimming functions:
/// `BTRIM` trims both ends, `LTRIM` the leading and `RTRIM` the trailing one.
pub proof fn law_function_keywords(k: TokenKind)
    ensures
        numeric_function_of(k) matches Some(f) ==> names_numeric_function(f, keyword_spelling(k)),
        multi_trim_of(k) == Some(TrimSpec::Both) ==> keyword_spelling(k) == "BTRIM"@,
        multi_trim_of(k) == Some(TrimSpec::Leading) ==> keyword_spelling(k) == "LTRIM"@,
        multi_trim_of(k) == Some(TrimSpec::Trailing) ==> keyword_spelling(k) == "RTRIM"@,
{
}

/// The functions of one argument are the ones their keywords name: `UPPER` folds to upper
/// case and `LOWER` to lower case, `CHAR_LENGTH` and `CHARACTER_LENGTH` count characters
/// and `BYTE_LENGTH` and `OCTET_LENGTH` bytes, `ABS` is the absolute value, and the numeric
/// functions are the ones their keywords name; each applies to its argument.
pub proof fn law_one_argument_call_keywords(k: TokenKind, a: ExprView)
    requires
        simple_function_kind(k),
        k != TokenKind::Normalize,
        !takes_two_arguments(k),
    ensures
        one_argument_call(k, a) matches ExprView::Fold { upper, value } ==> *value == a && (keyword_spelling(k)
            == if upper {
            "UPPER"@
        } else {
            "LOWER"@
        }),
        one_argument_call(k, a) matches ExprView::StringLength { unit, value } ==> *value == a && (if unit
            == StringLengthUnit::Characters {
            keyword_spelling(k) == "CHAR_LENGTH"@ || keyword_spelling(k) == "CHARACTER_LENGTH"@
        } else {
            keyword_spelling(k) == "BYTE_LENGTH"@ || keyword_spelling(k) == "OCTET_LENGTH"@
        }),
        one_argument_call(k, a) matches ExprView::AbsoluteValue { expr } ==> *expr == a && keyword_spelling(k)
            == "ABS"@,
        one_argument_call(k, a) matches ExprView::NumericFunction { function, args } ==> args == seq![a]
            && names_numeric_function(function, keyword_spelling(k)),
{
}

/// The functions of two arguments are the ones their keywords name: `LEFT` and `RIGHT`
/// take the substring at their side, the numeric functions of two arguments are the ones
/// their keywords name; each applies to its arguments in order.
pub proof fn law_two_argument_call_keywords(k: TokenKind, a: ExprView, b: ExprView)
    requires
        takes_two_arguments(k),
    ensures
        two_argument_call(k, a, b) matches ExprView::SubstringByLength { side, value, length } ==> *value == a
            && *length == b && (keyword_spelling(k) == if side == SubstringSide::Left {
            "LEFT"@
        } else {
            "RIGHT"@
        }),
        two_argument_call(k, a, b) matches ExprView::NumericFunction { function, args } ==> args == seq![a, b]
            && names_numeric_function(function, keyword_spelling(k)),
{
}

/// A result clause is the one its first word names, `RETURN`, `SELECT` or `FINISH`; it is
/// distinct exactly when `DISTINCT` follows that word, and otherwise keeps all rows.
pub proof fn law_result_clause_words(v: InputView, p: int)
    ensures
        result_clause_step(v, p).0 matches Ok(c) ==> {
            &&& keyword_spelling(kind_at(v, p)) == match c.kind {
                ResultKind::Return => "RETURN"@,
                ResultKind::Select => "SELECT"@,
                ResultKind::Finish => "FINISH"@,
            }
            &&& c.kind != ResultKind::Finish ==> (c.distinct <==> kind_at(v, next_pos(v, p)) == TokenKind::Distinct)
            &&& c.kind != ResultKind::Finish ==> c.quantifier == Some(
                if c.distinct {
                    SetQuantifier::Distinct
                } else {
                    SetQuantifier::All
                },
            )
        },
{
}

/// A type keyword is the type it names: `BOOL` and `BOOLEAN`, `STRING` and `VARCHAR`,
/// `BYTES`, `BINARY` and `VARBINARY`, `DEC` and `DECIMAL`, `FLOAT` (with its size), `REAL`
/// and `DOUBLE` each read as the type of that name.
pub proof fn law_type_keywords(v: InputView, p: int)
    ensures
        boolean_kind_at(v, p) matches Some(k) ==> text_is(
            v,
            p,
            match k {
                BooleanTypeKind::Bool => "BOOL"@,
                BooleanTypeKind::Boolean => "BOOLEAN"@,
            },
        ),
        character_string_kind_at(v, p) matches Some(k) ==> text_is(
            v,
            p,
            match k {
                CharacterStringTypeKind::String => "STRING"@,
                CharacterStringTypeKind::Varchar => "VARCHAR"@,
            },
        ),
        byte_string_kind_at(v, p) matches Some(k) ==> text_is(
            v,
            p,
            match k {
                ByteStringTypeKind::Bytes => "BYTES"@,
                ByteStringTypeKind::Binary => "BINARY"@,
                ByteStringTypeKind::Varbinary => "VARBINARY"@,
            },
        ),
        exact_numeric_kind_at(v, p) matches Some(k) ==> k == ExactNumericTypeKind::Decimal && (text_is(v, p, "DEC"@)
            || text_is(v, p, "DECIMAL"@)),
        approximate_numeric_kind_at(v, p) == Some(ApproximateNumericTypeKind::Float) ==> numeric_suffix_of(
            tok(v, p).text,
            "FLOAT"@,
        ) is Some,
        approximate_numeric_kind_at(v, p) == Some(ApproximateNumericTypeKind::Real) ==> text_is(v, p, "REAL"@),
        approximate_numeric_kind_at(v, p) == Some(ApproximateNumericTypeKind::Double) ==> text_is(v, p, "DOUBLE"@),
{
}

/// A transaction's access mode is the one its words name: `READ ONLY` or `READ WRITE`, and
/// none when the characteristics do not start with `READ`; no isolation level is ever set.
pub proof fn law_transaction_access_mode(v: InputView, p: int)
    ensures
        transaction_characteristics_step(v, p).0 matches Ok(t) ==> {
            &&& t.isolation_level is None
            &&& t.access_mode == if kind_at(v, p) == TokenKind::Read {
                Some(
                    if kind_at(v, next_pos(v, p)) == TokenKind::Only {
                        TransactionAccessMode::ReadOnly
                    } else {
                        TransactionAccessMode::ReadWrite
                    },
                )
            } else {
                None
            }
        },
{
}

/// `SESSION RESET` resets what its words name: parameters after `PARAMETERS` or
/// `ALL PARAMETERS`; the schema after `SCHEMA`; the graph after `GRAPH` or
/// `PROPERTY GRAPH`; the time zone after `TIME ZONE`; one parameter after its name; and
/// every characteristic otherwise.
pub proof fn law_session_reset_targets(v: InputView, p: int)
    ensures
        session_reset_target_step(v, p).0 matches Ok(t) ==> {
            let k = kind_at(v, p);
            let k1 = kind_at(v, next_pos(v, p));
            &&& t == SessionResetTargetView::AllParameters <==> (k == TokenKind::Parameters || (k == TokenKind::All && k1
                == TokenKind::Parameters))
            &&& t == SessionResetTargetView::Schema <==> k == TokenKind::Schema
            &&& t == SessionResetTargetView::Graph <==> (k == TokenKind::Graph || k == TokenKind::Property)
            &&& t == SessionResetTargetView::TimeZone <==> k == TokenKind::Time
            &&& t is Parameter <==> (k == TokenKind::ParameterKeyword || k == TokenKind::Parameter)
        },
{
}

/// The direction of a relationship pattern is the one its arrow draws: `<-` points left and
/// `->` right, `<-` closed by `->` or `>` either way, `~` is undirected, `<~` left or
/// undirected, `~` closed by `~>` or `>` undirected or right, `-` closed by `->` right, and
/// `-` alone or closed by `-` any way.
pub open spec fn drawn_direction(v: InputView, p: int) -> Direction {
    let k = kind_at(v, p);
    let q = next_pos(v, p);
    if k == TokenKind::ArrowLeft {
        let closed_right = if kind_at(v, q) == TokenKind::LBracket {
            kind_at(v, bracketed_body_step(v, next_pos(v, q)).1) == TokenKind::ArrowRight
        } else {
            kind_at(v, q) == TokenKind::Gt
        };
        if closed_right {
            Direction::LeftOrRight
        } else {
            Direction::Left
        }
    } else if k == TokenKind::Lt {
        Direction::LeftOrUndirected
    } else if k == TokenKind::ArrowRight {
        Direction::Right
    } else if k == TokenKind::Tilde {
        let end = if kind_at(v, q) == TokenKind::LBracket {
            kind_at(v, next_pos(v, bracketed_body_step(v, next_pos(v, q)).1))
        } else {
            kind_at(v, q)
        };
        if end == TokenKind::Gt {
            Direction::UndirectedOrRight
        } else {
            Direction::Undirected
        }
    } else {
        let end = if kind_at(v, q) == TokenKind::LBracket {
            kind_at(v, bracketed_body_step(v, next_pos(v, q)).1)
        } else {
            kind_at(v, q)
        };
        if end == TokenKind::ArrowRight {
            Direction::Right
        } else {
            Direction::Any
        }
    }
}

/// A relationship pattern points the way its arrow is drawn.
pub proof fn law_relationship_direction_as_drawn(v: InputView, p: int)
    ensures
        relationship_pattern_step(v, p).0 matches Ok(r) ==> r.direction == drawn_direction(v, p),
{
}

/// A path mode and `PATH` or `PATHS` are the words that name them, each read as one token.
pub proof fn law_path_mode_words(v: InputView, p: int)
    ensures
        path_mode_step(v, p).0 matches Some(m) ==> path_mode_step(v, p).1 == next_pos(v, p) && keyword_spelling(
            kind_at(v, p),
        ) == match m {
            PathMode::Walk => "WALK"@,
            PathMode::Trail => "TRAIL"@,
            PathMode::Simple => "SIMPLE"@,
            PathMode::Acyclic => "ACYCLIC"@,
        },
        path_mode_step(v, p).0 is None ==> path_mode_step(v, p).1 == p,
        path_or_paths_step(v, p).0 matches Some(m) ==> path_or_paths_step(v, p).1 == next_pos(v, p)
            && keyword_spelling(kind_at(v, p)) == match m {
            PathOrPaths::Path => "PATH"@,
            PathOrPaths::Paths => "PATHS"@,
        },
        path_or_paths_step(v, p).0 is None ==> path_or_paths_step(v, p).1 == p,
{
}

/// A match mode is the one its words name: `REPEATABLE ELEMENT BINDINGS` or
/// `REPEATABLE ELEMENTS` repeat elements, `DIFFERENT EDGE BINDINGS`, `DIFFERENT EDGES` and
/// their `RELATIONSHIP` forms keep edges different; it speaks of bindings exactly when the
/// singular word is followed by `BINDINGS`.
pub proof fn law_match_mode_words(v: InputView, p: int)
    ensures
        match_mode_step(v, p).0 matches Ok(Some(MatchMode::RepeatableElements { bindings })) ==> kind_at(v, p)
            == TokenKind::Repeatable && (bindings <==> (kind_at(v, next_pos(v, p)) == TokenKind::Element && kind_at(
            v,
            next_pos(v, next_pos(v, p)),
        ) == TokenKind::Bindings)),
        match_mode_step(v, p).0 matches Ok(Some(MatchMode::DifferentEdges { bindings })) ==> kind_at(v, p)
            == TokenKind::Different && (bindings <==> ((kind_at(v, next_pos(v, p)) == TokenKind::Edge || kind_at(
            v,
            next_pos(v, p),
        ) == TokenKind::Relationship) && kind_at(v, next_pos(v, next_pos(v, p))) == TokenKind::Bindings)),
        match_mode_step(v, p).0 matches Ok(None) ==> kind_at(v, p) != TokenKind::Repeatable && kind_at(v, p)
            != TokenKind::Different,
{
}

/// A trim specification is the word that names it: `LEADING`, `TRAILING` or `BOTH`.
pub proof fn law_trim_specification_words(v: InputView, p: int)
    ensures
        trim_specification_step(v, p).0 matches Some(t) ==> keyword_spelling(kind_at(v, p)) == match t {
            TrimSpec::Leading => "LEADING"@,
            TrimSpec::Trailing => "TRAILING"@,
            TrimSpec::Both => "BOTH"@,
        },
{
}

/// A path alternation is a multiset alternation when it is written `|+|` and a union when
/// it is written `|`.
pub proof fn law_alternation_symbols(v: InputView, p: int)
    ensures
        alternation_operator_at(v, p) is Some <==> kind_at(v, p) == TokenKind::Pipe,
        alternation_operator_at(v, p) == Some(PathPatternAlternation::MultisetAlternation) <==> (kind_at(v, p)
            == TokenKind::Pipe && kind_ahead(v, p, 1) == Some(TokenKind::Plus)),
        alternation_operator_step(v, p).0 matches Ok(a) ==> (a == PathPatternAlternation::MultisetAlternation
            <==> kind_at(v, next_pos(v, p)) == TokenKind::Plus),
{
}

/// The word that names an interval field.
pub open spec fn interval_field_word(f: SqlIntervalFieldKind) -> Seq<char> {
    match f {
        SqlIntervalFieldKind::Year => "YEAR"@,
        SqlIntervalFieldKind::Month => "MONTH"@,
        SqlIntervalFieldKind::Day => "DAY"@,
        SqlIntervalFieldKind::Hour => "HOUR"@,
        SqlIntervalFieldKind::Minute => "MINUTE"@,
        SqlIntervalFieldKind::Second => "SECOND"@,
    }
}

/// An interval field is the one its name spells, in any case.
pub proof fn law_interval_field_names(name: Seq<char>)
    ensures
        interval_field_kind(name) matches Some(f) ==> eq_ignore_ascii_case(name, interval_field_word(f)),
{
}

/// The direction overrides of simplified path patterns point the way they are drawn: `<`
/// left, `<~` left or undirected, `~` undirected, `-` any way; a closing `>` turns a left
/// override into left or right, an undirected one into undirected or right, and stands for
/// right alone; other overrides stay as they are.
pub proof fn law_direction_override_symbols(v: InputView, p: int, leading: Option<Direction>)
    ensures
        direction_override_prefix_step(v, p).0 matches Ok(Some(d)) ==> d == if kind_at(v, p) == TokenKind::Lt {
            if kind_at(v, next_pos(v, p)) == TokenKind::Tilde {
                Direction::LeftOrUndirected
            } else {
                Direction::Left
            }
        } else if kind_at(v, p) == TokenKind::Tilde {
            Direction::Undirected
        } else {
            Direction::Any
        },
        direction_override_prefix_step(v, p).0 matches Ok(Some(_)) ==> (kind_at(v, p) == TokenKind::Lt || kind_at(
            v,
            p,
        ) == TokenKind::Tilde || kind_at(v, p) == TokenKind::Minus),
        direction_override_suffix_step(v, p, leading).0 matches Ok(d) ==> d == if kind_at(v, p) == TokenKind::Gt {
            Some(
                match leading {
                    Some(Direction::Left) => Direction::LeftOrRight,
                    Some(Direction::Undirected) => Direction::UndirectedOrRight,
                    Some(x) => x,
                    None => Direction::Right,
                },
            )
        } else {
            leading
        },
{
}

/// A simplified path pattern points the way its delimiters are drawn: `-/ … /->` right,
/// `-/ … /-` any way, `<-/ … /->` left or right, `<-/ … /-` left, `~/ … /~>` undirected or
/// right, `~/ … /~` undirected, `<~/ … /~` left or undirected.
pub proof fn law_simplified_delimiters(v: InputView, p: int, prefix: SimplifiedPrefix)
    ensures
        simplified_suffix_step(v, p, prefix).0 matches Ok(d) ==> {
            let q = next_pos(v, p);
            d == match prefix {
                SimplifiedPrefix::Minus => if kind_at(v, q) == TokenKind::ArrowRight {
                    Direction::Right
                } else {
                    Direction::Any
                },
                SimplifiedPrefix::ArrowLeft => if kind_at(v, q) == TokenKind::ArrowRight {
                    Direction::LeftOrRight
                } else {
                    Direction::Left
                },
                SimplifiedPrefix::Tilde => if kind_at(v, next_pos(v, q)) == TokenKind::Gt {
                    Direction::UndirectedOrRight
                } else {
                    Direction::Undirected
                },
                SimplifiedPrefix::LtTilde => Direction::LeftOrUndirected,
            }
        },
        simplified_prefix_step(v, p).0 matches Ok(x) ==> x == if kind_at(v, p) == TokenKind::Minus {
            SimplifiedPrefix::Minus
        } else if kind_at(v, p) == TokenKind::Tilde {
            SimplifiedPrefix::Tilde
        } else if kind_at(v, p) == TokenKind::ArrowLeft {
            SimplifiedPrefix::ArrowLeft
        } else {
            SimplifiedPrefix::LtTilde
        },
{
}

/// A quoted word is the kind its quote says: double quotes make a double-quoted string,
/// backquotes a quoted name.
pub proof fn law_quote_kinds()
    ensures
        quoted_kind('"') == TokenKind::DoubleQuotedString,
        quoted_kind('`') == TokenKind::QuotedString,
{
}

/// A label factor is the form its first token opens: `!` a negation, `(` a parenthesized
/// expression, `%` the wildcard, and a name the label of that name.
pub proof fn law_label_factors(v: InputView, p: int)
    requires
        0 <= p < v.tokens.len(),
    ensures
        label_unary_step(v, p).0 matches Ok(e) ==> {
            &&& e is Not <==> kind_at(v, p) == TokenKind::Bang
            &&& e is Parenthesized <==> kind_at(v, p) == TokenKind::LParen
            &&& e is Wildcard <==> kind_at(v, p) == TokenKind::Percent
            &&& e matches LabelExpressionView::Label(n) ==> n == tok(v, p).text
        },
{
}

/// Label factors joined by `&` make a conjunction: after an `&`, what is read is a
/// conjunction, and without one the expression read so far stays as it is.
pub proof fn law_label_conjunction(v: InputView, acc: LabelExpressionView, p: int)
    requires
        0 <= p < v.tokens.len(),
    ensures
        label_and_rest(v, acc, p).0 matches Ok(e) ==> (if kind_at(v, p) == TokenKind::Ampersand {
            e is And
        } else {
            e == acc
        }),
    decreases v.tokens.len() - p,
{
    if kind_at(v, p) == TokenKind::Ampersand {
        match label_unary_step(v, next_pos(v, p)) {
            (Err(_), _) => {},
            (Ok(right), q) => {
                let joined = LabelExpressionView::And(Box::new(acc), Box::new(right));
                if p < q < v.tokens.len() {
                    law_label_conjunction(v, joined, q);
                }
            },
        }
    }
}

/// Label conjunctions joined by `|` make a disjunction: after a `|`, what is read is a
/// disjunction, and without one the expression read so far stays as it is.
pub proof fn law_label_disjunction(v: InputView, acc: LabelExpressionView, p: int)
    requires
        0 <= p < v.tokens.len(),
    ensures
        label_or_rest(v, acc, p).0 matches Ok(e) ==> (if kind_at(v, p) == TokenKind::Pipe {
            e is Or
        } else {
            e == acc
        }),
    decreases v.tokens.len() - p,
{
    if kind_at(v, p) == TokenKind::Pipe {
        match label_and_step(v, next_pos(v, p)) {
            (Err(_), _) => {},
            (Ok(right), q) => {
                let joined = LabelExpressionView::Or(Box::new(acc), Box::new(right));
                if p < q < v.tokens.len() {
                    law_label_disjunction(v, joined, q);
                }
            },
        }
    }
}

} // verus!
