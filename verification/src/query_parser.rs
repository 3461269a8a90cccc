use vstd::prelude::*;
use crate::ast::{
    count_view, ForOrdinalityOrOffset, ForOrdinalityOrOffsetKind, Identifier, NullOrdering, QuerySetOperator,
    ResultKind, SetQuantifier, SortDirection,
};
use crate::error::Error;
use crate::expr_grammar::{expr_result, expr_view, ExprView};
use crate::expr_walk::same_identifier;
use crate::parser::{same_input, Parser};
use crate::query_grammar::{
    body_tail_step, clauses_rest, expr_seq_view, for_clause_view, for_step, group_by_step, grouping_follow_refused,
    grouping_rest, has_let_name, has_non_unit_clause, has_output, has_wildcard, let_item_step, let_item_view,
    let_items_rest, let_items_view, order_item_view, order_items_rest, order_items_view, other_clause_kind, page_kind,
    page_step, query_body_starts, query_body_step, query_body_view, query_clause_step, query_clause_view,
    query_clauses_view, query_statement_step, query_statement_view, result_clause_step, result_clause_view,
    result_item_view, result_items_rest, set_operation_view, set_operations_rest, set_operations_view, PageView,
    QueryClauseView, ResultItemView,
};
use crate::syntax::{
    Expr, FilterClause, ForClause, LetClause, LetItem, OrderByItem, OrderByPageClause, QueryBody, QueryClause,
    QuerySetOperation, QueryStatement, ResultClause, ResultItem,
};
use crate::text::{chars_of, push_str, string_from_chars};
use crate::token::TokenKind;

verus! {

/// The value of an `ORDER BY`, `OFFSET` and `LIMIT` clause.
pub open spec fn page_view(p: OrderByPageClause) -> PageView {
    PageView { order_by: order_items_view(p.order_by@), offset: count_view(p.offset), limit: count_view(p.limit) }
}

/// Whether an item of `items` has the output name `n`, ignoring the case of ASCII letters.
fn has_output_named(items: &Vec<ResultItem>, n: &Identifier) -> (r: bool)
    ensures
        r == has_output(items@.map_values(|i: ResultItem| result_item_view(i)), n@),
{
    let ghost vs = items@.map_values(|i: ResultItem| result_item_view(i));
    let mut k: usize = 0;
    while k < items.len()
        invariant
            k <= items.len(),
            vs == items@.map_values(|i: ResultItem| result_item_view(i)),
            forall|j: int| 0 <= j < k ==> !((#[trigger] vs[j]).alias matches Some(a) && crate::text::eq_ignore_ascii_case(
                a,
                n@,
            )),
        decreases items.len() - k,
    {
        if let Some(a) = &items[k].alias {
            if same_identifier(a, n) {
                assert(vs[k as int].alias matches Some(x) && crate::text::eq_ignore_ascii_case(x, n@));
                return true;
            }
        }
        k += 1;
    }
    false
}

/// Whether an item of `items` has the name `n`.
fn has_let_item_named(items: &Vec<LetItem>, n: &Identifier) -> (r: bool)
    ensures
        r == has_let_name(let_items_view(items@), n@),
{
    let ghost vs = let_items_view(items@);
    let mut k: usize = 0;
    while k < items.len()
        invariant
            k <= items.len(),
            vs == let_items_view(items@),
            forall|j: int| 0 <= j < k ==> (#[trigger] vs[j]).name != n@,
        decreases items.len() - k,
    {
        let a = chars_of(items[k].name.value.as_str());
        let b = chars_of(n.value.as_str());
        let mut same = a.len() == b.len();
        let mut m: usize = 0;
        while same && m < a.len()
            invariant
                a@ == items@[k as int].name@,
                b@ == n@,
                m <= a.len(),
                same ==> a.len() == b.len(),
                same ==> forall|x: int| 0 <= x < m ==> a@[x] == b@[x],
                !same ==> a@ != b@,
            decreases a.len() - m,
        {
            if a[m] != b[m] {
                same = false;
            }
            m += 1;
        }
        if same {
            assert(a@ =~= b@);
            assert(vs[k as int].name == n@);
            return true;
        }
        k += 1;
    }
    false
}

/// Whether a result clause has `*` among its items.
fn result_has_wildcard(c: &ResultClause) -> (r: bool)
    ensures
        r == has_wildcard(result_clause_view(*c)),
{
    let ghost rv = result_clause_view(*c);
    let mut k: usize = 0;
    while k < c.items.len()
        invariant
            k <= c.items.len(),
            rv == result_clause_view(*c),
            forall|j: int| 0 <= j < k ==> !((#[trigger] rv.items[j]).expr is Wildcard),
        decreases c.items.len() - k,
    {
        if matches!(c.items[k].expr, Expr::Wildcard) {
            assert(rv.items[k as int].expr is Wildcard);
            return true;
        }
        k += 1;
    }
    false
}

/// Whether a clause of `cs` makes a working table with more than one record.
fn clauses_have_non_unit(cs: &Vec<QueryClause>) -> (r: bool)
    ensures
        r == has_non_unit_clause(query_clauses_view(cs@)),
{
    let ghost vs = query_clauses_view(cs@);
    let mut k: usize = 0;
    while k < cs.len()
        invariant
            k <= cs.len(),
            vs == query_clauses_view(cs@),
            forall|j: int| 0 <= j < k ==> !((#[trigger] vs[j]) is Let || vs[j] is For),
        decreases cs.len() - k,
    {
        if matches!(cs[k], QueryClause::Let(_) | QueryClause::For(_)) {
            assert(vs[k as int] is Let || vs[k as int] is For);
            return true;
        }
        k += 1;
    }
    false
}

impl Parser {
    /// Reads result items separated by commas, after those in `items`.
    fn parse_result_items(&mut self, items: &mut Vec<ResultItem>) -> (r: Result<(), Error>)
        requires
            old(self).wf(),
        ensures
            final(self).wf(),
            same_input(final(self)@, old(self)@),
            (match r {
                Ok(_) => Ok(final(items)@.map_values(|i: ResultItem| result_item_view(i))),
                Err(e) => Err(e@),
            }, final(self)@.pos) == result_items_rest(
                old(self)@.input,
                old(self)@.pos,
                old(items)@.map_values(|i: ResultItem| result_item_view(i)),
            ),
        decreases old(self)@.input.tokens.len() - old(self)@.pos,
    {
        proof {
            self.lemma_valid();
        }
        let start = self.position();
        let offset = self.peek().offset;
        let expr = match self.parse_expr() {
            Ok(e) => e,
            Err(er) => return Err(er),
        };
        let alias = if self.eat(TokenKind::As).is_some() {
            match self.parse_identifier() {
                Ok(a) => Some(a),
                Err(er) => return Err(er),
            }
        } else {
            match &expr {
                Expr::Identifier(id) => Some(id.clone()),
                _ => None,
            }
        };
        proof {
            self.lemma_valid();
        }
        if alias.is_none() && !matches!(expr, Expr::Identifier(_) | Expr::Wildcard) {
            return Err(Error::Message {
                offset: self.peek().offset,
                message: "non-binding result item requires AS alias".to_owned(),
            });
        }
        if let Some(a) = &alias {
            if has_output_named(items, a) {
                let mut m = chars_of("duplicate result output '");
                push_str(&mut m, a.value.as_str());
                push_str(&mut m, "'");
                return Err(Error::Message { offset, message: string_from_chars(&m) });
            }
        }
        let item = ResultItem { expr, alias };
        let ghost before = items@;
        items.push(item);
        proof {
            assert(items@.map_values(|i: ResultItem| result_item_view(i)) =~= before.map_values(
                |i: ResultItem| result_item_view(i),
            ).push(result_item_view(item)));
        }
        if self.at(TokenKind::Comma) && start < self.position() {
            self.bump();
            proof {
                self.lemma_valid();
            }
            return self.parse_result_items(items);
        }
        Ok(())
    }

    /// Reads a result clause: `RETURN` or `SELECT`, an optional set quantifier (`ALL` when
    /// none is written) and result items; or `FINISH`. `RETURN NO BINDINGS` is refused.
    pub fn parse_result_clause(&mut self) -> (r: Result<ResultClause, Error>)
        requires
            old(self).wf(),
        ensures
            final(self).wf(),
            same_input(final(self)@, old(self)@),
            (match r {
                Ok(c) => Ok(result_clause_view(c)),
                Err(e) => Err(e@),
            }, final(self)@.pos) == result_clause_step(old(self)@.input, old(self)@.pos),
    {
        proof {
            self.lemma_valid();
        }
        let k = self.peek_kind();
        if k == TokenKind::Return || k == TokenKind::Select {
            self.bump();
            let kind = if k == TokenKind::Return {
                ResultKind::Return
            } else {
                ResultKind::Select
            };
            if k == TokenKind::Return && self.at(TokenKind::No) {
                let offset = self.peek().offset;
                self.bump();
                return Err(Error::Message {
                    offset,
                    message: "RETURN NO BINDINGS is not user-visible standard GQL syntax".to_owned(),
                });
            }
            let quantifier = if self.eat(TokenKind::Distinct).is_some() {
                SetQuantifier::Distinct
            } else if self.eat(TokenKind::All).is_some() {
                SetQuantifier::All
            } else {
                SetQuantifier::All
            };
            let mut items: Vec<ResultItem> = Vec::new();
            proof {
                self.lemma_valid();
                assert(items@.map_values(|i: ResultItem| result_item_view(i)) =~= Seq::<ResultItemView>::empty());
            }
            if let Err(e) = self.parse_result_items(&mut items) {
                return Err(e);
            }
            let distinct = quantifier == SetQuantifier::Distinct;
            return Ok(ResultClause { kind, quantifier: Some(quantifier), distinct, items });
        }
        if k == TokenKind::Finish {
            self.bump();
            let items: Vec<ResultItem> = Vec::new();
            proof {
                assert(items@.map_values(|i: ResultItem| result_item_view(i)) =~= Seq::<ResultItemView>::empty());
            }
            return Ok(ResultClause { kind: ResultKind::Finish, quantifier: None, distinct: false, items });
        }
        let expected = vec![TokenKind::Return, TokenKind::Select, TokenKind::Finish];
        assert(expected@ =~= seq![TokenKind::Return, TokenKind::Select, TokenKind::Finish]);
        Err(self.error_expected(expected, k))
    }

    /// Reads order items separated by commas, after those in `items`.
    fn parse_order_items(&mut self, items: &mut Vec<OrderByItem>) -> (r: Result<(), Error>)
        requires
            old(self).wf(),
        ensures
            final(self).wf(),
            same_input(final(self)@, old(self)@),
            (match r {
                Ok(_) => Ok(order_items_view(final(items)@)),
                Err(e) => Err(e@),
            }, final(self)@.pos) == order_items_rest(old(self)@.input, old(self)@.pos, order_items_view(old(items)@)),
        decreases old(self)@.input.tokens.len() - old(self)@.pos,
    {
        proof {
            self.lemma_valid();
        }
        let start = self.position();
        let expr = match self.parse_expr() {
            Ok(e) => e,
            Err(er) => return Err(er),
        };
        let k = self.peek_kind();
        let direction = if k == TokenKind::Asc || k == TokenKind::Ascending {
            self.bump();
            Some(SortDirection::Asc)
        } else if k == TokenKind::Desc || k == TokenKind::Descending {
            self.bump();
            Some(SortDirection::Desc)
        } else {
            None
        };
        let null_ordering = if self.eat(TokenKind::Nulls).is_some() {
            if self.eat(TokenKind::First).is_some() {
                Some(NullOrdering::First)
            } else if self.eat(TokenKind::Last).is_some() {
                Some(NullOrdering::Last)
            } else {
                let expected = vec![TokenKind::First, TokenKind::Last];
                assert(expected@ =~= seq![TokenKind::First, TokenKind::Last]);
                let got = self.peek_kind();
                return Err(self.error_expected(expected, got));
            }
        } else {
            None
        };
        let item = OrderByItem { expr, direction, null_ordering };
        let ghost before = items@;
        items.push(item);
        proof {
            self.lemma_valid();
            assert(order_items_view(items@) =~= order_items_view(before).push(order_item_view(item)));
        }
        if self.at(TokenKind::Comma) && start < self.position() {
            self.bump();
            proof {
                self.lemma_valid();
            }
            return self.parse_order_items(items);
        }
        Ok(())
    }

    /// Reads an `ORDER BY` list, an `OFFSET` (or `SKIP`) count and a `LIMIT` count, each
    /// optional but one of them required.
    pub fn parse_order_by_page_clause(&mut self) -> (r: Result<OrderByPageClause, Error>)
        requires
            old(self).wf(),
        ensures
            final(self).wf(),
            same_input(final(self)@, old(self)@),
            (match r {
                Ok(p) => Ok(page_view(p)),
                Err(e) => Err(e@),
            }, final(self)@.pos) == page_step(old(self)@.input, old(self)@.pos),
    {
        proof {
            self.lemma_valid();
        }
        let mut order_by: Vec<OrderByItem> = Vec::new();
        proof {
            assert(order_items_view(order_by@) =~= Seq::<crate::query_grammar::OrderByItemView>::empty());
        }
        if self.eat(TokenKind::Order).is_some() {
            if let Err(e) = self.expect(TokenKind::By) {
                return Err(e);
            }
            proof {
                self.lemma_valid();
            }
            if let Err(e) = self.parse_order_items(&mut order_by) {
                return Err(e);
            }
        }
        proof {
            self.lemma_valid();
        }
        let offset = if self.at(TokenKind::Offset) || self.at(TokenKind::Skip) {
            self.bump();
            match self.parse_unsigned_integer_specification() {
                Ok(n) => Some(n),
                Err(e) => return Err(e),
            }
        } else {
            None
        };
        let limit = if self.eat(TokenKind::Limit).is_some() {
            match self.parse_unsigned_integer_specification() {
                Ok(n) => Some(n),
                Err(e) => return Err(e),
            }
        } else {
            None
        };
        if order_by.len() == 0 && offset.is_none() && limit.is_none() {
            let expected = vec![TokenKind::Order, TokenKind::Offset, TokenKind::Skip, TokenKind::Limit];
            assert(expected@ =~= seq![TokenKind::Order, TokenKind::Offset, TokenKind::Skip, TokenKind::Limit]);
            let got = self.peek_kind();
            return Err(self.error_expected(expected, got));
        }
        Ok(OrderByPageClause { order_by, offset, limit })
    }

    /// Reads a `LET` item.
    fn parse_let_item(&mut self) -> (r: Result<LetItem, Error>)
        requires
            old(self).wf(),
        ensures
            final(self).wf(),
            same_input(final(self)@, old(self)@),
            (match r {
                Ok(i) => Ok(let_item_view(i)),
                Err(e) => Err(e@),
            }, final(self)@.pos) == let_item_step(old(self)@.input, old(self)@.pos),
    {
        if self.eat(TokenKind::Value).is_some() {
            let name = match self.parse_identifier() {
                Ok(n) => n,
                Err(e) => return Err(e),
            };
            let (typed, value_type) = match self.parse_optional_definition_value_type() {
                Ok(x) => x,
                Err(e) => return Err(e),
            };
            if let Err(e) = self.expect(TokenKind::Eq) {
                return Err(e);
            }
            let value = match self.parse_expr() {
                Ok(x) => x,
                Err(e) => return Err(e),
            };
            return Ok(LetItem { name, typed, value_type, value });
        }
        let name = match self.parse_identifier() {
            Ok(n) => n,
            Err(e) => return Err(e),
        };
        if let Err(e) = self.expect(TokenKind::Eq) {
            return Err(e);
        }
        let value = match self.parse_expr() {
            Ok(x) => x,
            Err(e) => return Err(e),
        };
        Ok(LetItem { name, typed: false, value_type: None, value })
    }

    /// Reads `LET` items separated by commas, after those in `items`.
    fn parse_let_items(&mut self, items: &mut Vec<LetItem>) -> (r: Result<(), Error>)
        requires
            old(self).wf(),
        ensures
            final(self).wf(),
            same_input(final(self)@, old(self)@),
            (match r {
                Ok(_) => Ok(let_items_view(final(items)@)),
                Err(e) => Err(e@),
            }, final(self)@.pos) == let_items_rest(old(self)@.input, old(self)@.pos, let_items_view(old(items)@)),
        decreases old(self)@.input.tokens.len() - old(self)@.pos,
    {
        proof {
            self.lemma_valid();
        }
        let start = self.position();
        let offset = self.peek().offset;
        let item = match self.parse_let_item() {
            Ok(i) => i,
            Err(e) => return Err(e),
        };
        if has_let_item_named(items, &item.name) {
            let mut m = chars_of("duplicate let variable '");
            push_str(&mut m, item.name.value.as_str());
            push_str(&mut m, "'");
            return Err(Error::Message { offset, message: string_from_chars(&m) });
        }
        let ghost before = items@;
        let ghost iv = let_item_view(item);
        items.push(item);
        proof {
            self.lemma_valid();
            assert(let_items_view(items@) =~= let_items_view(before).push(iv));
        }
        if self.at(TokenKind::Comma) && start < self.position() {
            self.bump();
            proof {
                self.lemma_valid();
            }
            return self.parse_let_items(items);
        }
        Ok(())
    }

    /// Reads a `FOR` clause after its keyword.
    fn parse_for_after_keyword(&mut self) -> (r: Result<ForClause, Error>)
        requires
            old(self).wf(),
        ensures
            final(self).wf(),
            same_input(final(self)@, old(self)@),
            (match r {
                Ok(f) => Ok(for_clause_view(f)),
                Err(e) => Err(e@),
            }, final(self)@.pos) == for_step(old(self)@.input, old(self)@.pos),
    {
        let variable = match self.parse_identifier() {
            Ok(n) => n,
            Err(e) => return Err(e),
        };
        if let Err(e) = self.expect(TokenKind::In) {
            return Err(e);
        }
        let source = match self.parse_expr() {
            Ok(x) => x,
            Err(e) => return Err(e),
        };
        if !self.at(TokenKind::With) {
            return Ok(ForClause { variable, source, ordinality_or_offset: None });
        }
        self.bump();
        let k = self.peek_kind();
        if k != TokenKind::Ordinality && k != TokenKind::Offset {
            let expected = vec![TokenKind::Ordinality, TokenKind::Offset];
            assert(expected@ =~= seq![TokenKind::Ordinality, TokenKind::Offset]);
            return Err(self.error_expected(expected, k));
        }
        let kind = if k == TokenKind::Ordinality {
            ForOrdinalityOrOffsetKind::Ordinality
        } else {
            ForOrdinalityOrOffsetKind::Offset
        };
        self.bump();
        let variable_offset = self.peek().offset;
        let n = match self.parse_identifier() {
            Ok(n) => n,
            Err(e) => return Err(e),
        };
        if same_identifier(&n, &variable) {
            let mut m = chars_of("for ordinality or offset variable '");
            push_str(&mut m, n.value.as_str());
            push_str(&mut m, "' duplicates item alias");
            return Err(Error::Message { offset: variable_offset, message: string_from_chars(&m) });
        }
        Ok(ForClause { variable, source, ordinality_or_offset: Some(ForOrdinalityOrOffset { kind, variable: n }) })
    }

    /// Reads a query clause: `FILTER` (with an optional `WHERE`) and a predicate, `LET`,
    /// `FOR`, or an `ORDER BY`/`OFFSET`/`LIMIT` clause; the other clauses are refused.
    fn parse_query_clause(&mut self) -> (r: Result<QueryClause, Error>)
        requires
            old(self).wf(),
        ensures
            final(self).wf(),
            same_input(final(self)@, old(self)@),
            (match r {
                Ok(c) => Ok(query_clause_view(c)),
                Err(e) => Err(e@),
            }, final(self)@.pos) == query_clause_step(old(self)@.input, old(self)@.pos),
    {
        proof {
            self.lemma_valid();
        }
        let k = self.peek_kind();
        if k == TokenKind::Filter {
            self.bump();
            self.eat(TokenKind::Where);
            return match self.parse_expr() {
                Ok(e) => Ok(QueryClause::Filter(FilterClause { predicate: e })),
                Err(er) => Err(er),
            };
        }
        if k == TokenKind::Let {
            self.bump();
            proof {
                self.lemma_valid();
            }
            let mut items: Vec<LetItem> = Vec::new();
            proof {
                assert(let_items_view(items@) =~= Seq::<crate::query_grammar::LetItemView>::empty());
            }
            if let Err(e) = self.parse_let_items(&mut items) {
                return Err(e);
            }
            return Ok(QueryClause::Let(LetClause { items }));
        }
        if k == TokenKind::For {
            self.bump();
            return match self.parse_for_after_keyword() {
                Ok(f) => Ok(QueryClause::For(f)),
                Err(e) => Err(e),
            };
        }
        if k == TokenKind::Order || k == TokenKind::Offset || k == TokenKind::Skip || k == TokenKind::Limit {
            return match self.parse_order_by_page_clause() {
                Ok(p) => Ok(QueryClause::OrderByPage(p)),
                Err(e) => Err(e),
            };
        }
        Err(Error::Message { offset: self.peek().offset, message: "query clause is not supported by this parser".to_owned() })
    }

    /// Reads query clauses after those in `cs`.
    fn parse_query_clauses(&mut self, cs: &mut Vec<QueryClause>) -> (r: Result<(), Error>)
        requires
            old(self).wf(),
        ensures
            final(self).wf(),
            same_input(final(self)@, old(self)@),
            (match r {
                Ok(_) => Ok(query_clauses_view(final(cs)@)),
                Err(e) => Err(e@),
            }, final(self)@.pos) == clauses_rest(old(self)@.input, old(self)@.pos, query_clauses_view(old(cs)@)),
        decreases old(self)@.input.tokens.len() - old(self)@.pos,
    {
        proof {
            self.lemma_valid();
        }
        let k = self.peek_kind();
        let opens = k == TokenKind::Filter || k == TokenKind::Let || k == TokenKind::For || k == TokenKind::Order || k
            == TokenKind::Offset || k == TokenKind::Skip || k == TokenKind::Limit || matches!(
            k,
            TokenKind::Use | TokenKind::LBrace | TokenKind::Optional | TokenKind::Match | TokenKind::Call
                | TokenKind::Insert | TokenKind::Delete | TokenKind::Detach | TokenKind::Nodetach
                | TokenKind::SetKeyword | TokenKind::Remove
        );
        assert(opens == (k == TokenKind::Filter || k == TokenKind::Let || k == TokenKind::For || page_kind(k)
            || other_clause_kind(k)));
        if !opens {
            return Ok(());
        }
        let start = self.position();
        let c = match self.parse_query_clause() {
            Ok(c) => c,
            Err(e) => return Err(e),
        };
        let ghost before = cs@;
        let ghost cv = query_clause_view(c);
        cs.push(c);
        proof {
            self.lemma_valid();
            assert(query_clauses_view(cs@) =~= query_clauses_view(before).push(cv));
        }
        if start < self.position() {
            return self.parse_query_clauses(cs);
        }
        Ok(())
    }

    /// Reads `GROUP BY` elements separated by commas, after those in `gs`.
    fn parse_grouping_elements(&mut self, gs: &mut Vec<Expr>) -> (r: Result<(), Error>)
        requires
            old(self).wf(),
        ensures
            final(self).wf(),
            same_input(final(self)@, old(self)@),
            (match r {
                Ok(_) => Ok(expr_seq_view(final(gs)@)),
                Err(e) => Err(e@),
            }, final(self)@.pos) == grouping_rest(old(self)@.input, old(self)@.pos, expr_seq_view(old(gs)@)),
        decreases old(self)@.input.tokens.len() - old(self)@.pos,
    {
        proof {
            self.lemma_valid();
        }
        let start = self.position();
        let offset = self.peek().offset;
        let n = match self.parse_identifier() {
            Ok(n) => n,
            Err(e) => return Err(e),
        };
        let k = self.peek_kind();
        if matches!(
            k,
            TokenKind::Dot | TokenKind::Plus | TokenKind::Minus | TokenKind::Star | TokenKind::Slash
                | TokenKind::Percent | TokenKind::LParen | TokenKind::LBracket
        ) {
            assert(grouping_follow_refused(k));
            return Err(Error::Message {
                offset,
                message: "GROUP BY elements must be binding variable references".to_owned(),
            });
        }
        let ghost before = gs@;
        let e = Expr::Identifier(n);
        let ghost ev = expr_view(e);
        gs.push(e);
        proof {
            self.lemma_valid();
            assert(expr_seq_view(gs@) =~= expr_seq_view(before).push(ev));
        }
        if self.at(TokenKind::Comma) && start < self.position() {
            self.bump();
            proof {
                self.lemma_valid();
            }
            return self.parse_grouping_elements(gs);
        }
        Ok(())
    }

    /// Reads an optional `GROUP BY`: `()` for the empty grouping set, or grouping elements.
    fn parse_group_by(&mut self) -> (r: Result<(Vec<Expr>, bool), Error>)
        requires
            old(self).wf(),
        ensures
            final(self).wf(),
            same_input(final(self)@, old(self)@),
            (match r {
                Ok((gs, b)) => Ok((expr_seq_view(gs@), b)),
                Err(e) => Err(e@),
            }, final(self)@.pos) == group_by_step(old(self)@.input, old(self)@.pos),
    {
        let mut gs: Vec<Expr> = Vec::new();
        proof {
            assert(expr_seq_view(gs@) =~= Seq::<ExprView>::empty());
        }
        if !self.at(TokenKind::Group) {
            return Ok((gs, false));
        }
        self.bump();
        if let Err(e) = self.expect(TokenKind::By) {
            return Err(e);
        }
        if self.at(TokenKind::LParen) {
            self.bump();
            return match self.expect(TokenKind::RParen) {
                Ok(_) => Ok((gs, true)),
                Err(e) => Err(e),
            };
        }
        proof {
            self.lemma_valid();
        }
        match self.parse_grouping_elements(&mut gs) {
            Ok(_) => Ok((gs, false)),
            Err(e) => Err(e),
        }
    }

    /// Reads what follows the result clause `rc`, which is not `FINISH`, after the clauses
    /// `clauses`.
    fn parse_query_body_tail(&mut self, clauses: Vec<QueryClause>, rc: ResultClause) -> (r: Result<QueryBody, Error>)
        requires
            old(self).wf(),
        ensures
            final(self).wf(),
            same_input(final(self)@, old(self)@),
            (match r {
                Ok(b) => Ok(query_body_view(b)),
                Err(e) => Err(e@),
            }, final(self)@.pos) == body_tail_step(
                old(self)@.input,
                old(self)@.pos,
                query_clauses_view(clauses@),
                result_clause_view(rc),
            ),
    {
        proof {
            self.lemma_valid();
        }
        let select = rc.kind == ResultKind::Select;
        let wildcard = result_has_wildcard(&rc);
        if rc.kind == ResultKind::Return && wildcard && !clauses_have_non_unit(&clauses) {
            return Err(Error::Message {
                offset: self.peek().offset,
                message: "RETURN * requires a non-unit incoming working table".to_owned(),
            });
        }
        if select && self.at(TokenKind::From) {
            return Err(Error::Message {
                offset: self.peek().offset,
                message: "query clause is not supported by this parser".to_owned(),
            });
        }
        if select && wildcard {
            return Err(Error::Message { offset: self.peek().offset, message: "SELECT * requires a FROM clause".to_owned() });
        }
        let select_where = if select && self.at(TokenKind::Where) {
            self.bump();
            match self.parse_expr() {
                Ok(w) => Some(w),
                Err(e) => return Err(e),
            }
        } else {
            None
        };
        let (group_by, empty_grouping_set) = match self.parse_group_by() {
            Ok(x) => x,
            Err(e) => return Err(e),
        };
        proof {
            self.lemma_valid();
        }
        if wildcard && (group_by.len() > 0 || empty_grouping_set) {
            return Err(Error::Message {
                offset: self.peek().offset,
                message: "asterisk result cannot contain GROUP BY".to_owned(),
            });
        }
        if self.at(TokenKind::Having) && !select {
            return Err(Error::Message {
                offset: self.peek().offset,
                message: "HAVING is only valid in SELECT statements".to_owned(),
            });
        }
        let having = if self.at(TokenKind::Having) {
            self.bump();
            match self.parse_expr() {
                Ok(h) => Some(h),
                Err(e) => return Err(e),
            }
        } else {
            None
        };
        proof {
            self.lemma_valid();
        }
        let k = self.peek_kind();
        let page = if k == TokenKind::Order || k == TokenKind::Offset || k == TokenKind::Skip || k == TokenKind::Limit {
            match self.parse_order_by_page_clause() {
                Ok(p) => p,
                Err(e) => return Err(e),
            }
        } else {
            let p = OrderByPageClause { order_by: Vec::new(), offset: None, limit: None };
            proof {
                assert(order_items_view(p.order_by@) =~= Seq::<crate::query_grammar::OrderByItemView>::empty());
            }
            p
        };
        Ok(QueryBody {
            clauses,
            result_clause: rc,
            select_from: Vec::new(),
            select_query: None,
            select_where,
            group_by,
            empty_grouping_set,
            having,
            order_by: page.order_by,
            offset: page.offset,
            limit: page.limit,
        })
    }

    /// Reads a query body: query clauses, then a result clause and what follows it, with
    /// the checks of the standard: `RETURN *` needs a clause that makes a working table,
    /// `SELECT *` needs `FROM`, `*` goes with no `GROUP BY`, and `HAVING` only with
    /// `SELECT`. `MATCH`, `USE`, nested queries, `CALL`, the data-modifying clauses and
    /// `SELECT ... FROM` are refused.
    pub fn parse_query_body(&mut self) -> (r: Result<QueryBody, Error>)
        requires
            old(self).wf(),
        ensures
            final(self).wf(),
            same_input(final(self)@, old(self)@),
            (match r {
                Ok(b) => Ok(query_body_view(b)),
                Err(e) => Err(e@),
            }, final(self)@.pos) == query_body_step(old(self)@.input, old(self)@.pos),
    {
        proof {
            self.lemma_valid();
        }
        let mut clauses: Vec<QueryClause> = Vec::new();
        proof {
            assert(query_clauses_view(clauses@) =~= Seq::<QueryClauseView>::empty());
        }
        if let Err(e) = self.parse_query_clauses(&mut clauses) {
            return Err(e);
        }
        let k = self.peek_kind();
        if clauses.len() == 0 && !(k == TokenKind::Return || k == TokenKind::Select || k == TokenKind::Finish) {
            let expected = vec![
                TokenKind::Match,
                TokenKind::Optional,
                TokenKind::Filter,
                TokenKind::Let,
                TokenKind::For,
                TokenKind::Call,
                TokenKind::Insert,
                TokenKind::Delete,
                TokenKind::Detach,
                TokenKind::Nodetach,
                TokenKind::SetKeyword,
                TokenKind::Remove,
                TokenKind::Order,
                TokenKind::Offset,
                TokenKind::Skip,
                TokenKind::Limit,
                TokenKind::Use,
                TokenKind::LBrace,
                TokenKind::Return,
                TokenKind::Select,
                TokenKind::Finish,
            ];
            assert(expected@ =~= query_body_starts());
            return Err(self.error_expected(expected, k));
        }
        let rc = match self.parse_result_clause() {
            Ok(c) => c,
            Err(e) => return Err(e),
        };
        if rc.kind == ResultKind::Finish {
            let b = QueryBody {
                clauses,
                result_clause: rc,
                select_from: Vec::new(),
                select_query: None,
                select_where: None,
                group_by: Vec::new(),
                empty_grouping_set: false,
                having: None,
                order_by: Vec::new(),
                offset: None,
                limit: None,
            };
            proof {
                assert(expr_seq_view(b.group_by@) =~= Seq::<ExprView>::empty());
                assert(order_items_view(b.order_by@) =~= Seq::<crate::query_grammar::OrderByItemView>::empty());
            }
            return Ok(b);
        }
        self.parse_query_body_tail(clauses, rc)
    }

    /// Reads query bodies joined to the first by set operators, after those in `ops`.
    fn parse_set_operations(&mut self, ops: &mut Vec<QuerySetOperation>, conjunction: Option<QuerySetOperator>) -> (r:
        Result<(), Error>)
        requires
            old(self).wf(),
        ensures
            final(self).wf(),
            same_input(final(self)@, old(self)@),
            (match r {
                Ok(_) => Ok(set_operations_view(final(ops)@)),
                Err(e) => Err(e@),
            }, final(self)@.pos) == set_operations_rest(
                old(self)@.input,
                old(self)@.pos,
                set_operations_view(old(ops)@),
                conjunction,
            ),
        decreases old(self)@.input.tokens.len() - old(self)@.pos,
    {
        proof {
            self.lemma_valid();
        }
        let k = self.peek_kind();
        if !(k == TokenKind::Union || k == TokenKind::Except || k == TokenKind::Intersect || k
            == TokenKind::Otherwise) {
            return Ok(());
        }
        let start = self.position();
        let offset = self.peek().offset;
        let (operator, quantifier) = match self.parse_query_conjunction() {
            Ok(x) => x,
            Err(e) => return Err(e),
        };
        if let Some(c) = conjunction {
            if c != operator {
                return Err(Error::Message {
                    offset,
                    message: "mixed query conjunctions are not allowed".to_owned(),
                });
            }
        }
        proof {
            self.lemma_valid();
        }
        let body = match self.parse_query_body() {
            Ok(b) => b,
            Err(e) => return Err(e),
        };
        let op = QuerySetOperation { operator, quantifier, body };
        let ghost before = ops@;
        let ghost ov = set_operation_view(op);
        ops.push(op);
        proof {
            self.lemma_valid();
            assert(set_operations_view(ops@) =~= set_operations_view(before).push(ov));
        }
        if start < self.position() {
            return self.parse_set_operations(ops, Some(operator));
        }
        Ok(())
    }

    /// Reads a query statement: an optional `AT SCHEMA` clause, a query body and further
    /// bodies joined by set operators, all by the same one. `USE` is refused.
    pub fn parse_query_statement(&mut self) -> (r: Result<QueryStatement, Error>)
        requires
            old(self).wf(),
        ensures
            final(self).wf(),
            same_input(final(self)@, old(self)@),
            (match r {
                Ok(q) => Ok(query_statement_view(q)),
                Err(e) => Err(e@),
            }, final(self)@.pos) == query_statement_step(old(self)@.input, old(self)@.pos),
    {
        let at_schema = match self.parse_optional_at_schema_clause() {
            Ok(a) => a,
            Err(e) => return Err(e),
        };
        proof {
            self.lemma_valid();
        }
        if self.at(TokenKind::Use) {
            return Err(Error::Message {
                offset: self.peek().offset,
                message: "query clause is not supported by this parser".to_owned(),
            });
        }
        let body = match self.parse_query_body() {
            Ok(b) => b,
            Err(e) => return Err(e),
        };
        proof {
            self.lemma_valid();
        }
        let mut set_operations: Vec<QuerySetOperation> = Vec::new();
        proof {
            assert(set_operations_view(set_operations@) =~= Seq::<crate::query_grammar::QuerySetOperationView>::empty());
        }
        if let Err(e) = self.parse_set_operations(&mut set_operations, None) {
            return Err(e);
        }
        Ok(QueryStatement { at_schema, use_graph: None, body, set_operations })
    }
}

} // verus!
