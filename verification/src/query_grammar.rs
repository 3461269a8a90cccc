use vstd::prelude::*;
use crate::ast::{
    count_view, ForOrdinalityOrOffsetKind, NullOrdering, QuerySetOperator, ResultKind, SchemaReferenceView,
    SetQuantifier, SortDirection, UnsignedIntegerSpecificationView, ValueTypeView,
};
use crate::clause_grammar::at_schema_clause_step;
use crate::error::ErrorView;
use crate::expr_grammar::{expr_step, expr_view, ExprView};
use crate::fragments::{definition_value_type_step, query_conjunction_step};
use crate::grammar::{identifier_step, message_at, unsigned_integer_step};
use crate::parser::{expect_step, expected_err, kind_at, next_pos, tok, valid_pos, InputView};
use crate::laws::law_next_pos_stays_in_tokens;
use crate::syntax::{
    Expr, ForClause, LetItem, OrderByItem, QueryBody, QueryClause, QuerySetOperation, QueryStatement, ResultClause,
    ResultItem,
};
use crate::text::eq_ignore_ascii_case;
use crate::token::TokenKind;

verus! {

/// The mathematical value of a [`ResultItem`].
pub struct ResultItemView {
    pub expr: ExprView,
    pub alias: Option<Seq<char>>,
}

/// The mathematical value of a [`ResultClause`].
pub struct ResultClauseView {
    pub kind: ResultKind,
    pub quantifier: Option<SetQuantifier>,
    pub distinct: bool,
    pub items: Seq<ResultItemView>,
}

/// The mathematical value of an [`OrderByItem`].
pub struct OrderByItemView {
    pub expr: ExprView,
    pub direction: Option<SortDirection>,
    pub null_ordering: Option<NullOrdering>,
}

/// The mathematical value of an `ORDER BY`, `OFFSET` and `LIMIT` clause.
pub struct PageView {
    pub order_by: Seq<OrderByItemView>,
    pub offset: Option<UnsignedIntegerSpecificationView>,
    pub limit: Option<UnsignedIntegerSpecificationView>,
}

/// The mathematical value of a [`LetItem`].
pub struct LetItemView {
    pub name: Seq<char>,
    pub typed: bool,
    pub value_type: Option<ValueTypeView>,
    pub value: ExprView,
}

/// The mathematical value of a [`QueryClause`], for the clauses that
/// [`Parser::parse_query_body`] reads; every other clause reads as `Other`.
pub enum QueryClauseView {
    Filter(ExprView),
    Let(Seq<LetItemView>),
    For { variable: Seq<char>, source: ExprView, ordinality_or_offset: Option<(ForOrdinalityOrOffsetKind, Seq<char>)> },
    OrderByPage(PageView),
    Other,
}

/// The mathematical value of a [`QueryBody`]; a `SELECT` source reads as whether there is
/// one.
pub struct QueryBodyView {
    pub clauses: Seq<QueryClauseView>,
    pub result_clause: ResultClauseView,
    pub has_select_source: bool,
    pub select_where: Option<ExprView>,
    pub group_by: Seq<ExprView>,
    pub empty_grouping_set: bool,
    pub having: Option<ExprView>,
    pub order_by: Seq<OrderByItemView>,
    pub offset: Option<UnsignedIntegerSpecificationView>,
    pub limit: Option<UnsignedIntegerSpecificationView>,
}

/// The mathematical value of a [`QuerySetOperation`].
pub struct QuerySetOperationView {
    pub operator: QuerySetOperator,
    pub quantifier: Option<SetQuantifier>,
    pub body: QueryBodyView,
}

/// The mathematical value of a [`QueryStatement`]; a `USE` graph reads as whether there is
/// one.
pub struct QueryStatementView {
    pub at_schema: Option<SchemaReferenceView>,
    pub has_use_graph: bool,
    pub body: QueryBodyView,
    pub set_operations: Seq<QuerySetOperationView>,
}

/// The value of an optional expression.
pub open spec fn opt_expr_view(e: Option<Expr>) -> Option<ExprView> {
    match e {
        Some(x) => Some(expr_view(x)),
        None => None,
    }
}

/// The value of a result item.
pub open spec fn result_item_view(i: ResultItem) -> ResultItemView {
    ResultItemView {
        expr: expr_view(i.expr),
        alias: match i.alias {
            Some(a) => Some(a@),
            None => None,
        },
    }
}

/// The value of a result clause.
pub open spec fn result_clause_view(c: ResultClause) -> ResultClauseView {
    ResultClauseView {
        kind: c.kind,
        quantifier: c.quantifier,
        distinct: c.distinct,
        items: c.items@.map_values(|i: ResultItem| result_item_view(i)),
    }
}

/// The value of an order item.
pub open spec fn order_item_view(i: OrderByItem) -> OrderByItemView {
    OrderByItemView { expr: expr_view(i.expr), direction: i.direction, null_ordering: i.null_ordering }
}

/// The values of order items.
pub open spec fn order_items_view(s: Seq<OrderByItem>) -> Seq<OrderByItemView> {
    s.map_values(|i: OrderByItem| order_item_view(i))
}

/// The value of a `LET` item.
pub open spec fn let_item_view(i: LetItem) -> LetItemView {
    LetItemView {
        name: i.name@,
        typed: i.typed,
        value_type: match i.value_type {
            Some(t) => Some(t@),
            None => None,
        },
        value: expr_view(i.value),
    }
}

/// The values of `LET` items.
pub open spec fn let_items_view(s: Seq<LetItem>) -> Seq<LetItemView> {
    s.map_values(|i: LetItem| let_item_view(i))
}

/// The value of a `FOR` clause.
pub open spec fn for_clause_view(f: ForClause) -> QueryClauseView {
    QueryClauseView::For {
        variable: f.variable@,
        source: expr_view(f.source),
        ordinality_or_offset: match f.ordinality_or_offset {
            Some(o) => Some((o.kind, o.variable@)),
            None => None,
        },
    }
}

/// The value of a query clause.
pub open spec fn query_clause_view(c: QueryClause) -> QueryClauseView {
    match c {
        QueryClause::Filter(f) => QueryClauseView::Filter(expr_view(f.predicate)),
        QueryClause::Let(l) => QueryClauseView::Let(let_items_view(l.items@)),
        QueryClause::For(f) => for_clause_view(f),
        QueryClause::OrderByPage(p) => QueryClauseView::OrderByPage(
            PageView { order_by: order_items_view(p.order_by@), offset: count_view(p.offset), limit: count_view(p.limit) },
        ),
        _ => QueryClauseView::Other,
    }
}

/// The values of query clauses.
pub open spec fn query_clauses_view(s: Seq<QueryClause>) -> Seq<QueryClauseView> {
    s.map_values(|c: QueryClause| query_clause_view(c))
}

/// The values of expressions.
pub open spec fn expr_seq_view(s: Seq<Expr>) -> Seq<ExprView> {
    s.map_values(|e: Expr| expr_view(e))
}

/// The value of a query body.
pub open spec fn query_body_view(b: QueryBody) -> QueryBodyView {
    QueryBodyView {
        clauses: query_clauses_view(b.clauses@),
        result_clause: result_clause_view(b.result_clause),
        has_select_source: b.select_from@.len() > 0 || b.select_query is Some,
        select_where: opt_expr_view(b.select_where),
        group_by: expr_seq_view(b.group_by@),
        empty_grouping_set: b.empty_grouping_set,
        having: opt_expr_view(b.having),
        order_by: order_items_view(b.order_by@),
        offset: count_view(b.offset),
        limit: count_view(b.limit),
    }
}

/// The value of a query set operation.
pub open spec fn set_operation_view(o: QuerySetOperation) -> QuerySetOperationView {
    QuerySetOperationView { operator: o.operator, quantifier: o.quantifier, body: query_body_view(o.body) }
}

/// The values of query set operations.
pub open spec fn set_operations_view(s: Seq<QuerySetOperation>) -> Seq<QuerySetOperationView> {
    s.map_values(|o: QuerySetOperation| set_operation_view(o))
}

/// The value of a query statement.
pub open spec fn query_statement_view(q: QueryStatement) -> QueryStatementView {
    QueryStatementView {
        at_schema: match q.at_schema {
            Some(s) => Some(s@),
            None => None,
        },
        has_use_graph: q.use_graph is Some,
        body: query_body_view(q.body),
        set_operations: set_operations_view(q.set_operations@),
    }
}

/// The message for a query clause that this parser does not read.
pub open spec fn unsupported_clause_message() -> Seq<char> {
    "query clause is not supported by this parser"@
}

/// Kinds that open a query clause this parser does not read: `USE`, a nested query,
/// `MATCH`, `CALL` and the data-modifying clauses.
pub open spec fn other_clause_kind(k: TokenKind) -> bool {
    match k {
        TokenKind::Use
        | TokenKind::LBrace
        | TokenKind::Optional
        | TokenKind::Match
        | TokenKind::Call
        | TokenKind::Insert
        | TokenKind::Delete
        | TokenKind::Detach
        | TokenKind::Nodetach
        | TokenKind::SetKeyword
        | TokenKind::Remove => true,
        _ => false,
    }
}

/// Whether a kind opens an `ORDER BY`, `OFFSET` (or `SKIP`) or `LIMIT` clause.
pub open spec fn page_kind(k: TokenKind) -> bool {
    k == TokenKind::Order || k == TokenKind::Offset || k == TokenKind::Skip || k == TokenKind::Limit
}

/// Whether a kind opens a result clause.
pub open spec fn result_kind(k: TokenKind) -> bool {
    k == TokenKind::Return || k == TokenKind::Select || k == TokenKind::Finish
}

/// The kinds named where a query body has neither a clause nor a result.
pub open spec fn query_body_starts() -> Seq<TokenKind> {
    seq![
        TokenKind::Match,
        TokenKind::Optional,
        TokenKind::Filter,
        TokenKind::Let,
        TokenKind::For,
        TokenKind::Call,
        TokenKind::Insert,
        TokenKind::Delete,
        TokenKind::Detach,
        TokenKind::Nodetach,
        TokenKind::SetKeyword,
        TokenKind::Remove,
        TokenKind::Order,
        TokenKind::Offset,
        TokenKind::Skip,
        TokenKind::Limit,
        TokenKind::Use,
        TokenKind::LBrace,
        TokenKind::Return,
        TokenKind::Select,
        TokenKind::Finish,
    ]
}

/// Whether an item of `items` has the output name `n`, ignoring the case of ASCII letters.
pub open spec fn has_output(items: Seq<ResultItemView>, n: Seq<char>) -> bool {
    exists|i: int| 0 <= i < items.len() && ((#[trigger] items[i]).alias matches Some(a) && eq_ignore_ascii_case(a, n))
}

/// Result items separated by commas, after those in `acc`: an expression and an optional
/// `AS` alias; a variable names itself, any other expression but `*` needs an alias, and an
/// output name appears once.
pub open spec fn result_items_rest(v: InputView, p: int, acc: Seq<ResultItemView>) -> (
    Result<Seq<ResultItemView>, ErrorView>,
    int,
)
    decreases v.tokens.len() - p,
    when 0 <= p < v.tokens.len()
{
    let offset = tok(v, p).offset;
    match expr_step(v, p) {
        (Err(e), q) => (Err(e), q),
        (Ok(e), q) => {
            let (alias, q1) = if kind_at(v, q) == TokenKind::As {
                match identifier_step(v, next_pos(v, q)) {
                    (Err(er), qa) => (Err(er), qa),
                    (Ok(a), qa) => (Ok(Some(a)), qa),
                }
            } else {
                (Ok(match e {
                    ExprView::Identifier(n) => Some(n),
                    _ => None,
                }), q)
            };
            match alias {
                Err(er) => (Err(er), q1),
                Ok(alias) => if alias is None && !(e is Identifier || e is Wildcard) {
                    (Err(message_at(v, q1, "non-binding result item requires AS alias"@)), q1)
                } else if alias is Some && has_output(acc, alias->0) {
                    (
                        Err(
                            ErrorView::Message {
                                offset,
                                message: "duplicate result output '"@ + alias->0 + "'"@,
                            },
                        ),
                        q1,
                    )
                } else {
                    let acc2 = acc.push(ResultItemView { expr: e, alias });
                    if kind_at(v, q1) == TokenKind::Comma && p < q1 < v.tokens.len() && next_pos(v, q1)
                        < v.tokens.len() {
                        result_items_rest(v, next_pos(v, q1), acc2)
                    } else {
                        (Ok(acc2), q1)
                    }
                },
            }
        },
    }
}

/// A result clause: `RETURN` or `SELECT`, an optional set quantifier (`ALL` when none is
/// written) and result items; or `FINISH`. `RETURN NO BINDINGS` is refused.
pub open spec fn result_clause_step(v: InputView, p: int) -> (Result<ResultClauseView, ErrorView>, int) {
    let k = kind_at(v, p);
    let q = next_pos(v, p);
    if k == TokenKind::Return || k == TokenKind::Select {
        let kind = if k == TokenKind::Return {
            ResultKind::Return
        } else {
            ResultKind::Select
        };
        if k == TokenKind::Return && kind_at(v, q) == TokenKind::No {
            (
                Err(
                    ErrorView::Message {
                        offset: tok(v, q).offset,
                        message: "RETURN NO BINDINGS is not user-visible standard GQL syntax"@,
                    },
                ),
                next_pos(v, q),
            )
        } else {
            let (quantifier, q1) = if kind_at(v, q) == TokenKind::Distinct {
                (SetQuantifier::Distinct, next_pos(v, q))
            } else if kind_at(v, q) == TokenKind::All {
                (SetQuantifier::All, next_pos(v, q))
            } else {
                (SetQuantifier::All, q)
            };
            match result_items_rest(v, q1, Seq::empty()) {
                (Err(e), q2) => (Err(e), q2),
                (Ok(items), q2) => (
                    Ok(
                        ResultClauseView {
                            kind,
                            quantifier: Some(quantifier),
                            distinct: quantifier == SetQuantifier::Distinct,
                            items,
                        },
                    ),
                    q2,
                ),
            }
        }
    } else if k == TokenKind::Finish {
        (Ok(ResultClauseView { kind: ResultKind::Finish, quantifier: None, distinct: false, items: Seq::empty() }), q)
    } else {
        (Err(expected_err(v, p, seq![TokenKind::Return, TokenKind::Select, TokenKind::Finish], k)), p)
    }
}

/// Order items separated by commas, after those in `acc`: an expression, an optional
/// direction and an optional `NULLS FIRST` or `NULLS LAST`.
pub open spec fn order_items_rest(v: InputView, p: int, acc: Seq<OrderByItemView>) -> (
    Result<Seq<OrderByItemView>, ErrorView>,
    int,
)
    decreases v.tokens.len() - p,
    when 0 <= p < v.tokens.len()
{
    match expr_step(v, p) {
        (Err(e), q) => (Err(e), q),
        (Ok(e), q) => {
            let k = kind_at(v, q);
            let (direction, q1) = if k == TokenKind::Asc || k == TokenKind::Ascending {
                (Some(SortDirection::Asc), next_pos(v, q))
            } else if k == TokenKind::Desc || k == TokenKind::Descending {
                (Some(SortDirection::Desc), next_pos(v, q))
            } else {
                (None, q)
            };
            let (nulls, q2) = if kind_at(v, q1) == TokenKind::Nulls {
                let q3 = next_pos(v, q1);
                if kind_at(v, q3) == TokenKind::First {
                    (Ok(Some(NullOrdering::First)), next_pos(v, q3))
                } else if kind_at(v, q3) == TokenKind::Last {
                    (Ok(Some(NullOrdering::Last)), next_pos(v, q3))
                } else {
                    (Err(expected_err(v, q3, seq![TokenKind::First, TokenKind::Last], kind_at(v, q3))), q3)
                }
            } else {
                (Ok(None), q1)
            };
            match nulls {
                Err(er) => (Err(er), q2),
                Ok(null_ordering) => {
                    let acc2 = acc.push(OrderByItemView { expr: e, direction, null_ordering });
                    if kind_at(v, q2) == TokenKind::Comma && p < q2 < v.tokens.len() && next_pos(v, q2)
                        < v.tokens.len() {
                        order_items_rest(v, next_pos(v, q2), acc2)
                    } else {
                        (Ok(acc2), q2)
                    }
                },
            }
        },
    }
}

/// An `ORDER BY` list, an `OFFSET` (or `SKIP`) count and a `LIMIT` count, each optional
/// but one of them required.
pub open spec fn page_step(v: InputView, p: int) -> (Result<PageView, ErrorView>, int) {
    let (order_by, q) = if kind_at(v, p) == TokenKind::Order {
        match expect_step(v, next_pos(v, p), TokenKind::By) {
            (Err(e), qa) => (Err(e), qa),
            (Ok(_), qa) => order_items_rest(v, qa, Seq::empty()),
        }
    } else {
        (Ok(Seq::empty()), p)
    };
    match order_by {
        Err(e) => (Err(e), q),
        Ok(order_by) => {
            let (offset, q1) = if kind_at(v, q) == TokenKind::Offset || kind_at(v, q) == TokenKind::Skip {
                match unsigned_integer_step(v, next_pos(v, q)) {
                    (Err(e), qa) => (Err(e), qa),
                    (Ok(n), qa) => (Ok(Some(n)), qa),
                }
            } else {
                (Ok(None), q)
            };
            match offset {
                Err(e) => (Err(e), q1),
                Ok(offset) => {
                    let (limit, q2) = if kind_at(v, q1) == TokenKind::Limit {
                        match unsigned_integer_step(v, next_pos(v, q1)) {
                            (Err(e), qa) => (Err(e), qa),
                            (Ok(n), qa) => (Ok(Some(n)), qa),
                        }
                    } else {
                        (Ok(None), q1)
                    };
                    match limit {
                        Err(e) => (Err(e), q2),
                        Ok(limit) => if order_by.len() == 0 && offset is None && limit is None {
                            (
                                Err(
                                    expected_err(
                                        v,
                                        q2,
                                        seq![TokenKind::Order, TokenKind::Offset, TokenKind::Skip, TokenKind::Limit],
                                        kind_at(v, q2),
                                    ),
                                ),
                                q2,
                            )
                        } else {
                            (Ok(PageView { order_by, offset, limit }), q2)
                        },
                    }
                },
            }
        },
    }
}

/// Whether an item of `items` has the name `n`.
pub open spec fn has_let_name(items: Seq<LetItemView>, n: Seq<char>) -> bool {
    exists|i: int| 0 <= i < items.len() && (#[trigger] items[i]).name == n
}

/// A `LET` item: `VALUE`, a name, an optional type, `=` and an expression; or a name, `=`
/// and an expression.
pub open spec fn let_item_step(v: InputView, p: int) -> (Result<LetItemView, ErrorView>, int) {
    if kind_at(v, p) == TokenKind::Value {
        match identifier_step(v, next_pos(v, p)) {
            (Err(e), q) => (Err(e), q),
            (Ok(name), q) => match definition_value_type_step(v, q) {
                (Err(e), q1) => (Err(e), q1),
                (Ok((typed, value_type)), q1) => match expect_step(v, q1, TokenKind::Eq) {
                    (Err(e), q2) => (Err(e), q2),
                    (Ok(_), q2) => match expr_step(v, q2) {
                        (Err(e), q3) => (Err(e), q3),
                        (Ok(value), q3) => (Ok(LetItemView { name, typed, value_type, value }), q3),
                    },
                },
            },
        }
    } else {
        match identifier_step(v, p) {
            (Err(e), q) => (Err(e), q),
            (Ok(name), q) => match expect_step(v, q, TokenKind::Eq) {
                (Err(e), q2) => (Err(e), q2),
                (Ok(_), q2) => match expr_step(v, q2) {
                    (Err(e), q3) => (Err(e), q3),
                    (Ok(value), q3) => (Ok(LetItemView { name, typed: false, value_type: None, value }), q3),
                },
            },
        }
    }
}

/// `LET` items separated by commas, after those in `acc`; a name appears once.
pub open spec fn let_items_rest(v: InputView, p: int, acc: Seq<LetItemView>) -> (
    Result<Seq<LetItemView>, ErrorView>,
    int,
)
    decreases v.tokens.len() - p,
    when 0 <= p < v.tokens.len()
{
    match let_item_step(v, p) {
        (Err(e), q) => (Err(e), q),
        (Ok(item), q) => if has_let_name(acc, item.name) {
            (
                Err(
                    ErrorView::Message {
                        offset: tok(v, p).offset,
                        message: "duplicate let variable '"@ + item.name + "'"@,
                    },
                ),
                q,
            )
        } else {
            let acc2 = acc.push(item);
            if kind_at(v, q) == TokenKind::Comma && p < q < v.tokens.len() && next_pos(v, q) < v.tokens.len() {
                let_items_rest(v, next_pos(v, q), acc2)
            } else {
                (Ok(acc2), q)
            }
        },
    }
}

/// A `FOR` clause after its keyword: a variable, `IN`, an expression, and an optional
/// `WITH ORDINALITY` or `WITH OFFSET` variable that differs from the first.
pub open spec fn for_step(v: InputView, p: int) -> (Result<QueryClauseView, ErrorView>, int) {
    match identifier_step(v, p) {
        (Err(e), q) => (Err(e), q),
        (Ok(variable), q) => match expect_step(v, q, TokenKind::In) {
            (Err(e), q1) => (Err(e), q1),
            (Ok(_), q1) => match expr_step(v, q1) {
                (Err(e), q2) => (Err(e), q2),
                (Ok(source), q2) => if kind_at(v, q2) == TokenKind::With {
                    let q3 = next_pos(v, q2);
                    let k = kind_at(v, q3);
                    if k == TokenKind::Ordinality || k == TokenKind::Offset {
                        let kind = if k == TokenKind::Ordinality {
                            ForOrdinalityOrOffsetKind::Ordinality
                        } else {
                            ForOrdinalityOrOffsetKind::Offset
                        };
                        let q4 = next_pos(v, q3);
                        match identifier_step(v, q4) {
                            (Err(e), q5) => (Err(e), q5),
                            (Ok(n), q5) => if eq_ignore_ascii_case(n, variable) {
                                (
                                    Err(
                                        ErrorView::Message {
                                            offset: tok(v, q4).offset,
                                            message: "for ordinality or offset variable '"@ + n
                                                + "' duplicates item alias"@,
                                        },
                                    ),
                                    q5,
                                )
                            } else {
                                (Ok(QueryClauseView::For { variable, source, ordinality_or_offset: Some((kind, n)) }), q5)
                            },
                        }
                    } else {
                        (Err(expected_err(v, q3, seq![TokenKind::Ordinality, TokenKind::Offset], k)), q3)
                    }
                } else {
                    (Ok(QueryClauseView::For { variable, source, ordinality_or_offset: None }), q2)
                },
            },
        },
    }
}

/// A query clause: `FILTER` (with an optional `WHERE`) and a predicate, `LET`, `FOR`, or
/// an `ORDER BY`/`OFFSET`/`LIMIT` clause; the other clauses are refused.
pub open spec fn query_clause_step(v: InputView, p: int) -> (Result<QueryClauseView, ErrorView>, int) {
    let k = kind_at(v, p);
    let q = next_pos(v, p);
    if k == TokenKind::Filter {
        let q1 = if kind_at(v, q) == TokenKind::Where {
            next_pos(v, q)
        } else {
            q
        };
        match expr_step(v, q1) {
            (Err(e), q2) => (Err(e), q2),
            (Ok(e), q2) => (Ok(QueryClauseView::Filter(e)), q2),
        }
    } else if k == TokenKind::Let {
        if p < q < v.tokens.len() {
            match let_items_rest(v, q, Seq::empty()) {
                (Err(e), q2) => (Err(e), q2),
                (Ok(items), q2) => (Ok(QueryClauseView::Let(items)), q2),
            }
        } else {
            (Err(message_at(v, q, unsupported_clause_message())), q)
        }
    } else if k == TokenKind::For {
        for_step(v, q)
    } else if page_kind(k) {
        match page_step(v, p) {
            (Err(e), q2) => (Err(e), q2),
            (Ok(page), q2) => (Ok(QueryClauseView::OrderByPage(page)), q2),
        }
    } else {
        (Err(message_at(v, p, unsupported_clause_message())), p)
    }
}

/// Query clauses, after those in `acc`.
pub open spec fn clauses_rest(v: InputView, p: int, acc: Seq<QueryClauseView>) -> (
    Result<Seq<QueryClauseView>, ErrorView>,
    int,
)
    decreases v.tokens.len() - p,
    when 0 <= p < v.tokens.len()
{
    let k = kind_at(v, p);
    if k == TokenKind::Filter || k == TokenKind::Let || k == TokenKind::For || page_kind(k) || other_clause_kind(k) {
        match query_clause_step(v, p) {
            (Err(e), q) => (Err(e), q),
            (Ok(c), q) => if p < q < v.tokens.len() {
                clauses_rest(v, q, acc.push(c))
            } else {
                (Ok(acc.push(c)), q)
            },
        }
    } else {
        (Ok(acc), p)
    }
}

/// Whether a result clause has `*` among its items.
pub open spec fn has_wildcard(c: ResultClauseView) -> bool {
    exists|i: int| 0 <= i < c.items.len() && (#[trigger] c.items[i]).expr is Wildcard
}

/// Whether a clause of `cs` makes a working table with more than one record.
pub open spec fn has_non_unit_clause(cs: Seq<QueryClauseView>) -> bool {
    exists|i: int| 0 <= i < cs.len() && ((#[trigger] cs[i]) is Let || cs[i] is For)
}

/// Whether a kind follows a variable in a `GROUP BY` element, which must stand alone.
pub open spec fn grouping_follow_refused(k: TokenKind) -> bool {
    match k {
        TokenKind::Dot
        | TokenKind::Plus
        | TokenKind::Minus
        | TokenKind::Star
        | TokenKind::Slash
        | TokenKind::Percent
        | TokenKind::LParen
        | TokenKind::LBracket => true,
        _ => false,
    }
}

/// `GROUP BY` elements separated by commas, after those in `acc`: each a variable alone.
pub open spec fn grouping_rest(v: InputView, p: int, acc: Seq<ExprView>) -> (Result<Seq<ExprView>, ErrorView>, int)
    decreases v.tokens.len() - p,
    when 0 <= p < v.tokens.len()
{
    match identifier_step(v, p) {
        (Err(e), q) => (Err(e), q),
        (Ok(n), q) => if grouping_follow_refused(kind_at(v, q)) {
            (
                Err(
                    ErrorView::Message {
                        offset: tok(v, p).offset,
                        message: "GROUP BY elements must be binding variable references"@,
                    },
                ),
                q,
            )
        } else {
            let acc2 = acc.push(ExprView::Identifier(n));
            if kind_at(v, q) == TokenKind::Comma && p < q < v.tokens.len() && next_pos(v, q) < v.tokens.len() {
                grouping_rest(v, next_pos(v, q), acc2)
            } else {
                (Ok(acc2), q)
            }
        },
    }
}

/// An optional `GROUP BY`: `()` for the empty grouping set, or grouping elements.
pub open spec fn group_by_step(v: InputView, p: int) -> (Result<(Seq<ExprView>, bool), ErrorView>, int) {
    if kind_at(v, p) == TokenKind::Group {
        match expect_step(v, next_pos(v, p), TokenKind::By) {
            (Err(e), q) => (Err(e), q),
            (Ok(_), q) => if kind_at(v, q) == TokenKind::LParen {
                match expect_step(v, next_pos(v, q), TokenKind::RParen) {
                    (Err(e), q1) => (Err(e), q1),
                    (Ok(_), q1) => (Ok((Seq::empty(), true)), q1),
                }
            } else {
                match grouping_rest(v, q, Seq::empty()) {
                    (Err(e), q1) => (Err(e), q1),
                    (Ok(gs), q1) => (Ok((gs, false)), q1),
                }
            },
        }
    } else {
        (Ok((Seq::empty(), false)), p)
    }
}

/// What follows a result clause `rc` that is not `FINISH`: the refusal of `RETURN *` with
/// no clause that makes a working table, of `SELECT ... FROM` (which this parser does not
/// read), and of `SELECT *` without `FROM`; an optional `WHERE` after `SELECT`, `GROUP BY`
/// (not with `*`), `HAVING` (only after `SELECT`) and an `ORDER BY`/`OFFSET`/`LIMIT` clause.
pub open spec fn body_tail_step(v: InputView, p: int, cs: Seq<QueryClauseView>, rc: ResultClauseView) -> (
    Result<QueryBodyView, ErrorView>,
    int,
) {
    let select = rc.kind == ResultKind::Select;
    if rc.kind == ResultKind::Return && has_wildcard(rc) && !has_non_unit_clause(cs) {
        (Err(message_at(v, p, "RETURN * requires a non-unit incoming working table"@)), p)
    } else if select && kind_at(v, p) == TokenKind::From {
        (Err(message_at(v, p, unsupported_clause_message())), p)
    } else if select && has_wildcard(rc) {
        (Err(message_at(v, p, "SELECT * requires a FROM clause"@)), p)
    } else {
        let (select_where, q) = if select && kind_at(v, p) == TokenKind::Where {
            match expr_step(v, next_pos(v, p)) {
                (Err(e), qa) => (Err(e), qa),
                (Ok(w), qa) => (Ok(Some(w)), qa),
            }
        } else {
            (Ok(None), p)
        };
        match select_where {
            Err(e) => (Err(e), q),
            Ok(select_where) => match group_by_step(v, q) {
                (Err(e), q1) => (Err(e), q1),
                (Ok((group_by, empty_grouping_set)), q1) => if has_wildcard(rc) && (group_by.len() > 0
                    || empty_grouping_set) {
                    (Err(message_at(v, q1, "asterisk result cannot contain GROUP BY"@)), q1)
                } else if kind_at(v, q1) == TokenKind::Having && !select {
                    (Err(message_at(v, q1, "HAVING is only valid in SELECT statements"@)), q1)
                } else {
                    let (having, q2) = if kind_at(v, q1) == TokenKind::Having {
                        match expr_step(v, next_pos(v, q1)) {
                            (Err(e), qa) => (Err(e), qa),
                            (Ok(h), qa) => (Ok(Some(h)), qa),
                        }
                    } else {
                        (Ok(None), q1)
                    };
                    match having {
                        Err(e) => (Err(e), q2),
                        Ok(having) => {
                            let (page, q3) = if page_kind(kind_at(v, q2)) {
                                page_step(v, q2)
                            } else {
                                (Ok(PageView { order_by: Seq::empty(), offset: None, limit: None }), q2)
                            };
                            match page {
                                Err(e) => (Err(e), q3),
                                Ok(page) => (
                                    Ok(
                                        QueryBodyView {
                                            clauses: cs,
                                            result_clause: rc,
                                            has_select_source: false,
                                            select_where,
                                            group_by,
                                            empty_grouping_set,
                                            having,
                                            order_by: page.order_by,
                                            offset: page.offset,
                                            limit: page.limit,
                                        },
                                    ),
                                    q3,
                                ),
                            }
                        },
                    }
                },
            },
        }
    }
}

/// A query body: query clauses, then a result clause and what follows it. A body with no
/// clause must start with a result clause.
pub open spec fn query_body_step(v: InputView, p: int) -> (Result<QueryBodyView, ErrorView>, int) {
    match clauses_rest(v, p, Seq::empty()) {
        (Err(e), q) => (Err(e), q),
        (Ok(cs), q) => if cs.len() == 0 && !result_kind(kind_at(v, q)) {
            (Err(expected_err(v, q, query_body_starts(), kind_at(v, q))), q)
        } else {
            match result_clause_step(v, q) {
                (Err(e), q1) => (Err(e), q1),
                (Ok(rc), q1) => if rc.kind == ResultKind::Finish {
                    (
                        Ok(
                            QueryBodyView {
                                clauses: cs,
                                result_clause: rc,
                                has_select_source: false,
                                select_where: None,
                                group_by: Seq::empty(),
                                empty_grouping_set: false,
                                having: None,
                                order_by: Seq::empty(),
                                offset: None,
                                limit: None,
                            },
                        ),
                        q1,
                    )
                } else {
                    body_tail_step(v, q1, cs, rc)
                },
            }
        },
    }
}

/// Whether a kind joins two query bodies.
pub open spec fn conjunction_kind(k: TokenKind) -> bool {
    k == TokenKind::Union || k == TokenKind::Except || k == TokenKind::Intersect || k == TokenKind::Otherwise
}

/// Query bodies joined to the first by set operators, after those in `acc`; all operators
/// of a query are the same (`conjunction`, once one was read).
pub open spec fn set_operations_rest(
    v: InputView,
    p: int,
    acc: Seq<QuerySetOperationView>,
    conjunction: Option<QuerySetOperator>,
) -> (Result<Seq<QuerySetOperationView>, ErrorView>, int)
    decreases v.tokens.len() - p,
    when 0 <= p < v.tokens.len()
{
    if !conjunction_kind(kind_at(v, p)) {
        (Ok(acc), p)
    } else {
        match query_conjunction_step(v, p) {
            (Err(e), q) => (Err(e), q),
            (Ok((operator, quantifier)), q) => if (conjunction matches Some(c) && c != operator) {
                (
                    Err(ErrorView::Message { offset: tok(v, p).offset, message: "mixed query conjunctions are not allowed"@ }),
                    q,
                )
            } else {
                match query_body_step(v, q) {
                    (Err(e), q1) => (Err(e), q1),
                    (Ok(body), q1) => {
                        let acc2 = acc.push(QuerySetOperationView { operator, quantifier, body });
                        if p < q1 < v.tokens.len() {
                            set_operations_rest(v, q1, acc2, Some(operator))
                        } else {
                            (Ok(acc2), q1)
                        }
                    },
                }
            },
        }
    }
}

/// A query statement: an optional `AT SCHEMA` clause, a query body and further bodies
/// joined by set operators. `USE` is refused.
pub open spec fn query_statement_step(v: InputView, p: int) -> (Result<QueryStatementView, ErrorView>, int) {
    match at_schema_clause_step(v, p) {
        (Err(e), q) => (Err(e), q),
        (Ok(at_schema), q) => if kind_at(v, q) == TokenKind::Use {
            (Err(message_at(v, q, unsupported_clause_message())), q)
        } else {
            match query_body_step(v, q) {
                (Err(e), q1) => (Err(e), q1),
                (Ok(body), q1) => {
                    let (ops, q2) = if 0 <= q1 < v.tokens.len() {
                        set_operations_rest(v, q1, Seq::empty(), None)
                    } else {
                        (Ok(Seq::empty()), q1)
                    };
                    match ops {
                        Err(e) => (Err(e), q2),
                        Ok(set_operations) => (
                            Ok(QueryStatementView { at_schema, has_use_graph: false, body, set_operations }),
                            q2,
                        ),
                    }
                },
            }
        },
    }
}

/// Every result item but `*` has an output name, and no two output names are equal when
/// the case of ASCII letters is ignored.
pub open spec fn result_outputs_distinct(items: Seq<ResultItemView>) -> bool {
    &&& forall|i: int, j: int|
        #![trigger items[i], items[j]]
        0 <= i < j < items.len() && items[i].alias is Some && items[j].alias is Some ==> !eq_ignore_ascii_case(
            items[i].alias->0,
            items[j].alias->0,
        )
    &&& forall|i: int| 0 <= i < items.len() && (#[trigger] items[i]).alias is None ==> items[i].expr is Wildcard
}

/// Result items read after items whose outputs are distinct have distinct outputs.
pub proof fn lemma_result_items_distinct(v: InputView, p: int, acc: Seq<ResultItemView>)
    requires
        0 <= p < v.tokens.len(),
        result_outputs_distinct(acc),
    ensures
        result_items_rest(v, p, acc).0 matches Ok(items) ==> result_outputs_distinct(items),
    decreases v.tokens.len() - p,
{
    match expr_step(v, p) {
        (Err(_), _) => {},
        (Ok(e), q) => {
            let (alias, q1) = if kind_at(v, q) == TokenKind::As {
                match identifier_step(v, next_pos(v, q)) {
                    (Err(er), qa) => (Err(er), qa),
                    (Ok(a), qa) => (Ok(Some(a)), qa),
                }
            } else {
                (Ok(match e {
                    ExprView::Identifier(n) => Some(n),
                    _ => None,
                }), q)
            };
            match alias {
                Err(_) => {},
                Ok(alias) => if alias is None && !(e is Identifier || e is Wildcard) {
                } else if alias is Some && has_output(acc, alias->0) {
                } else {
                    let item = ResultItemView { expr: e, alias };
                    let acc2 = acc.push(item);
                    assert(alias is None ==> e is Wildcard);
                    assert forall|i: int, j: int|
                        #![trigger acc2[i], acc2[j]]
                        0 <= i < j < acc2.len() && acc2[i].alias is Some && acc2[j].alias is Some implies !eq_ignore_ascii_case(
                        acc2[i].alias->0,
                        acc2[j].alias->0,
                    ) by {
                        if j == acc.len() {
                            assert(acc2[i] == acc[i]);
                            if eq_ignore_ascii_case(acc[i].alias->0, alias->0) {
                                assert(has_output(acc, alias->0));
                            }
                        } else {
                            assert(acc2[i] == acc[i] && acc2[j] == acc[j]);
                        }
                    }
                    assert forall|i: int| 0 <= i < acc2.len() && (#[trigger] acc2[i]).alias is None implies acc2[i].expr is Wildcard by {
                        if i < acc.len() {
                            assert(acc2[i] == acc[i]);
                        }
                    }
                    if kind_at(v, q1) == TokenKind::Comma && p < q1 < v.tokens.len() && next_pos(v, q1) < v.tokens.len() {
                        lemma_result_items_distinct(v, next_pos(v, q1), acc2);
                    }
                },
            }
        },
    }
}

/// A result clause names each of its items but `*`, and no two of its output names are
/// equal when the case of ASCII letters is ignored: a repeated output is refused, and so is
/// an expression other than a variable or `*` without an alias.
pub proof fn law_result_outputs_distinct(v: InputView, p: int)
    requires
        valid_pos(v, p),
    ensures
        result_clause_step(v, p).0 matches Ok(c) ==> result_outputs_distinct(c.items),
{
    law_next_pos_stays_in_tokens(v, p);
    let q = next_pos(v, p);
    law_next_pos_stays_in_tokens(v, q);
    assert(result_outputs_distinct(Seq::<ResultItemView>::empty()));
    let k = kind_at(v, p);
    if (k == TokenKind::Return || k == TokenKind::Select) && !(k == TokenKind::Return && kind_at(v, q) == TokenKind::No) {
        let q1 = if kind_at(v, q) == TokenKind::Distinct || kind_at(v, q) == TokenKind::All {
            next_pos(v, q)
        } else {
            q
        };
        lemma_result_items_distinct(v, q1, Seq::empty());
    }
}

} // verus!
