use vstd::prelude::*;
use crate::error::ErrorView;
use crate::expr_grammar::{arguments_rest, entries_view, expr_step, expr_view, exprs_view, map_literal_step, ExprView};
use crate::grammar::identifier_step;
use crate::parser::{expect_step, expected_err, kind_at, next_pos, tok, InputView};
use crate::ast::Identifier;
use crate::syntax::{DeleteStatement, Expr, RemoveItem, RemoveStatement, SetItem, SetStatement};
use crate::text::eq_ignore_ascii_case;
use crate::token::TokenKind;

verus! {

/// The mathematical value of a [`SetItem`].
pub enum SetItemView {
    Property { target: ExprView, value: ExprView },
    AllProperties { variable: Seq<char>, properties: Seq<(Seq<char>, ExprView)> },
    Label { variable: Seq<char>, label: Seq<char> },
}

/// The mathematical value of a [`RemoveItem`].
pub enum RemoveItemView {
    Property(ExprView),
    Label { variable: Seq<char>, label: Seq<char> },
}

/// The value of a `SET` item.
pub open spec fn set_item_view(i: SetItem) -> SetItemView {
    match i {
        SetItem::Property { target, value } => SetItemView::Property {
            target: expr_view(target),
            value: expr_view(value),
        },
        SetItem::AllProperties { variable, properties } => SetItemView::AllProperties {
            variable: variable@,
            properties: entries_view(properties.entries@),
        },
        SetItem::Label { variable, label } => SetItemView::Label { variable: variable@, label: label@ },
    }
}

/// The value of a `REMOVE` item.
pub open spec fn remove_item_view(i: RemoveItem) -> RemoveItemView {
    match i {
        RemoveItem::Property(e) => RemoveItemView::Property(expr_view(e)),
        RemoveItem::Label { variable, label } => RemoveItemView::Label { variable: variable@, label: label@ },
    }
}

/// The values of the items of a `SET` statement.
pub open spec fn set_items_view(s: SetStatement) -> Seq<SetItemView> {
    s.items@.map_values(|i: SetItem| set_item_view(i))
}

/// The values of the items of a `REMOVE` statement.
pub open spec fn remove_items_view(s: RemoveStatement) -> Seq<RemoveItemView> {
    s.items@.map_values(|i: RemoveItem| remove_item_view(i))
}

/// The value of a `DELETE` statement: whether it detaches, and its items.
pub open spec fn delete_view(d: DeleteStatement) -> (bool, Seq<ExprView>) {
    (d.detach, exprs_view(d.items@))
}

/// The property of `variable` that `SET` assigns: `variable.key`.
pub open spec fn property_target(variable: Seq<char>, key: Seq<char>) -> ExprView {
    ExprView::Property { base: Box::new(ExprView::Identifier(variable)), key }
}

/// The value of `variable.key` read as a property reference.
pub proof fn lemma_property_target(variable: Identifier, key: Identifier)
    ensures
        expr_view(Expr::Property { base: Box::new(Expr::Identifier(variable)), key }) == property_target(variable@, key@),
{
    assert(expr_view(Expr::Identifier(variable)) == ExprView::Identifier(variable@));
}

/// A conflict found among the first `j` items stays the first conflict among more of them.
pub proof fn lemma_set_conflict_prefix(s: Seq<SetItemView>, item: SetItemView, j: int, k: int)
    requires
        0 <= j <= k <= s.len(),
        set_conflict(s.take(j), item) is Some,
    ensures
        set_conflict(s.take(k), item) == set_conflict(s.take(j), item),
    decreases k - j,
{
    if k > j {
        lemma_set_conflict_prefix(s, item, j, k - 1);
        assert(s.take(k).drop_last() =~= s.take(k - 1));
    }
}

/// What a `SET` item assigns to: a property of a variable (`Some((variable, Some(key)))`),
/// all properties of a variable (`Some((variable, None))`), or nothing that can conflict.
pub open spec fn assignment_target(i: SetItemView) -> Option<(Seq<char>, Option<Seq<char>>)> {
    match i {
        SetItemView::Property { target: ExprView::Property { base, key }, .. } => match *base {
            ExprView::Identifier(variable) => Some((variable, Some(key))),
            _ => None,
        },
        SetItemView::AllProperties { variable, .. } => Some((variable, None)),
        _ => None,
    }
}

/// The message for a `SET` item that conflicts with the item `existing` before it, if it
/// does: two assignments to the same property, two assignments of all properties of the
/// same variable, or one of each for the same variable; names compare ignoring case.
pub open spec fn pair_conflict(existing: SetItemView, item: SetItemView) -> Option<Seq<char>> {
    match (assignment_target(existing), assignment_target(item)) {
        (Some((ev, Some(ep))), Some((v, Some(p)))) => if eq_ignore_ascii_case(ev, v) && eq_ignore_ascii_case(ep, p) {
            Some("duplicate SET assignment to property '"@ + v + "."@ + p + "'"@)
        } else {
            None
        },
        (Some((ev, None)), Some((v, None))) => if eq_ignore_ascii_case(ev, v) {
            Some("duplicate SET all-properties assignment to '"@ + v + "'"@)
        } else {
            None
        },
        (Some((ev, _)), Some((v, _))) => if eq_ignore_ascii_case(ev, v) {
            Some("SET all-properties assignment conflicts with property assignment for '"@ + v + "'"@)
        } else {
            None
        },
        _ => None,
    }
}

/// The message for the first item of `items` that `item` conflicts with, if any.
pub open spec fn set_conflict(items: Seq<SetItemView>, item: SetItemView) -> Option<Seq<char>>
    decreases items.len(),
{
    if items.len() == 0 {
        None
    } else {
        match set_conflict(items.drop_last(), item) {
            Some(m) => Some(m),
            None => pair_conflict(items.last(), item),
        }
    }
}

/// A `SET` item: a variable and `.`, a key, `=` and a value; `=` and a record of all
/// properties; or `:` or `IS` and a label.
pub open spec fn set_item_step(v: InputView, p: int) -> (Result<SetItemView, ErrorView>, int) {
    match identifier_step(v, p) {
        (Err(e), q) => (Err(e), q),
        (Ok(variable), q) => {
            let k = kind_at(v, q);
            let q1 = next_pos(v, q);
            if k == TokenKind::Dot {
                match identifier_step(v, q1) {
                    (Err(e), q2) => (Err(e), q2),
                    (Ok(key), q2) => match expect_step(v, q2, TokenKind::Eq) {
                        (Err(e), q3) => (Err(e), q3),
                        (Ok(_), q3) => match expr_step(v, q3) {
                            (Err(e), q4) => (Err(e), q4),
                            (Ok(value), q4) => (
                                Ok(SetItemView::Property { target: property_target(variable, key), value }),
                                q4,
                            ),
                        },
                    },
                }
            } else if k == TokenKind::Eq {
                match map_literal_step(v, q1) {
                    (Err(e), q2) => (Err(e), q2),
                    (Ok(properties), q2) => (Ok(SetItemView::AllProperties { variable, properties }), q2),
                }
            } else if k == TokenKind::Colon || k == TokenKind::Is {
                match identifier_step(v, q1) {
                    (Err(e), q2) => (Err(e), q2),
                    (Ok(label), q2) => (Ok(SetItemView::Label { variable, label }), q2),
                }
            } else {
                (
                    Err(
                        expected_err(
                            v,
                            q,
                            seq![TokenKind::Dot, TokenKind::Eq, TokenKind::Colon, TokenKind::Is],
                            k,
                        ),
                    ),
                    q,
                )
            }
        },
    }
}

/// `SET` items separated by commas after those in `acc`; an item that conflicts with one
/// before it is refused at its first token.
pub open spec fn set_items_rest(v: InputView, p: int, acc: Seq<SetItemView>) -> (
    Result<Seq<SetItemView>, ErrorView>,
    int,
)
    decreases v.tokens.len() - p,
    when 0 <= p < v.tokens.len()
{
    match set_item_step(v, p) {
        (Err(e), q) => (Err(e), q),
        (Ok(item), q) => match set_conflict(acc, item) {
            Some(m) => (Err(ErrorView::Message { offset: tok(v, p).offset, message: m }), q),
            None => {
                let acc2 = acc.push(item);
                if kind_at(v, q) == TokenKind::Comma && p < next_pos(v, q) < v.tokens.len() {
                    set_items_rest(v, next_pos(v, q), acc2)
                } else {
                    (Ok(acc2), q)
                }
            },
        },
    }
}

/// A `SET` statement: `SET` and its items.
pub open spec fn set_statement_step(v: InputView, p: int) -> (Result<Seq<SetItemView>, ErrorView>, int) {
    match expect_step(v, p, TokenKind::SetKeyword) {
        (Err(e), q) => (Err(e), q),
        (Ok(_), q) => if 0 <= q < v.tokens.len() {
            set_items_rest(v, q, Seq::empty())
        } else {
            (Ok(Seq::empty()), q)
        },
    }
}

/// A `REMOVE` item: a variable and `.` and a key, or `:` or `IS` and a label.
pub open spec fn remove_item_step(v: InputView, p: int) -> (Result<RemoveItemView, ErrorView>, int) {
    match identifier_step(v, p) {
        (Err(e), q) => (Err(e), q),
        (Ok(variable), q) => {
            let k = kind_at(v, q);
            if k == TokenKind::Dot {
                match identifier_step(v, next_pos(v, q)) {
                    (Err(e), q2) => (Err(e), q2),
                    (Ok(key), q2) => (Ok(RemoveItemView::Property(property_target(variable, key))), q2),
                }
            } else if k == TokenKind::Colon || k == TokenKind::Is {
                match identifier_step(v, next_pos(v, q)) {
                    (Err(e), q2) => (Err(e), q2),
                    (Ok(label), q2) => (Ok(RemoveItemView::Label { variable, label }), q2),
                }
            } else {
                (Err(expected_err(v, q, seq![TokenKind::Dot, TokenKind::Colon, TokenKind::Is], k)), q)
            }
        },
    }
}

/// `REMOVE` items separated by commas after those in `acc`.
pub open spec fn remove_items_rest(v: InputView, p: int, acc: Seq<RemoveItemView>) -> (
    Result<Seq<RemoveItemView>, ErrorView>,
    int,
)
    decreases v.tokens.len() - p,
    when 0 <= p < v.tokens.len()
{
    match remove_item_step(v, p) {
        (Err(e), q) => (Err(e), q),
        (Ok(item), q) => {
            let acc2 = acc.push(item);
            if kind_at(v, q) == TokenKind::Comma && p < next_pos(v, q) < v.tokens.len() {
                remove_items_rest(v, next_pos(v, q), acc2)
            } else {
                (Ok(acc2), q)
            }
        },
    }
}

/// A `REMOVE` statement: `REMOVE` and its items.
pub open spec fn remove_statement_step(v: InputView, p: int) -> (Result<Seq<RemoveItemView>, ErrorView>, int) {
    match expect_step(v, p, TokenKind::Remove) {
        (Err(e), q) => (Err(e), q),
        (Ok(_), q) => if 0 <= q < v.tokens.len() {
            remove_items_rest(v, q, Seq::empty())
        } else {
            (Ok(Seq::empty()), q)
        },
    }
}

/// A `DELETE` statement: `DETACH DELETE`, or `DELETE` after an optional `NODETACH`, and
/// expressions separated by commas.
pub open spec fn delete_statement_step(v: InputView, p: int) -> (Result<(bool, Seq<ExprView>), ErrorView>, int) {
    let detach = kind_at(v, p) == TokenKind::Detach;
    let p1 = if detach || kind_at(v, p) == TokenKind::Nodetach {
        next_pos(v, p)
    } else {
        p
    };
    match expect_step(v, p1, TokenKind::Delete) {
        (Err(e), q) => (Err(e), q),
        (Ok(_), q) => if 0 <= q < v.tokens.len() {
            match arguments_rest(v, q, Seq::empty()) {
                (Err(e), q1) => (Err(e), q1),
                (Ok(items), q1) => (Ok((detach, items)), q1),
            }
        } else {
            (Ok((detach, Seq::empty())), q)
        },
    }
}

/// No two items of `items` conflict: no later item assigns what an earlier one does.
pub open spec fn conflict_free(items: Seq<SetItemView>) -> bool {
    forall|i: int, j: int| 0 <= i < j < items.len() ==> (#[trigger] pair_conflict(items[i], items[j])) is None
}

/// When no item of `items` is found to conflict with `item`, none of them does.
pub proof fn lemma_no_set_conflict(items: Seq<SetItemView>, item: SetItemView)
    requires
        set_conflict(items, item) is None,
    ensures
        forall|i: int| 0 <= i < items.len() ==> (#[trigger] pair_conflict(items[i], item)) is None,
    decreases items.len(),
{
    if items.len() > 0 {
        lemma_no_set_conflict(items.drop_last(), item);
        assert forall|i: int| 0 <= i < items.len() implies (#[trigger] pair_conflict(items[i], item)) is None by {
            if i < items.len() - 1 {
                assert(items.drop_last()[i] == items[i]);
            }
        }
    }
}

/// The items that `SET` reads after conflict-free ones are conflict-free.
pub proof fn lemma_set_items_conflict_free(v: InputView, p: int, acc: Seq<SetItemView>)
    requires
        0 <= p < v.tokens.len(),
        conflict_free(acc),
    ensures
        set_items_rest(v, p, acc).0 matches Ok(items) ==> conflict_free(items),
    decreases v.tokens.len() - p,
{
    match set_item_step(v, p) {
        (Err(_), _) => {},
        (Ok(item), q) => {
            if set_conflict(acc, item) is None {
                lemma_no_set_conflict(acc, item);
                let acc2 = acc.push(item);
                assert forall|i: int, j: int| 0 <= i < j < acc2.len() implies (#[trigger] pair_conflict(acc2[i], acc2[j])) is None by {
                    if j < acc.len() {
                        assert(acc2[i] == acc[i] && acc2[j] == acc[j]);
                    } else {
                        assert(acc2[i] == acc[i] && acc2[j] == item);
                    }
                }
                if kind_at(v, q) == TokenKind::Comma && p < next_pos(v, q) < v.tokens.len() {
                    lemma_set_items_conflict_free(v, next_pos(v, q), acc2);
                }
            }
        },
    }
}

/// A `SET` statement never assigns the same property of a variable twice, nor all properties
/// of a variable twice, nor both a property and all properties of one variable: of two of
/// its items, the later never conflicts with the earlier.
pub proof fn law_set_statement_conflict_free(v: InputView, p: int)
    ensures
        set_statement_step(v, p).0 matches Ok(items) ==> conflict_free(items),
{
    match expect_step(v, p, TokenKind::SetKeyword) {
        (Err(_), _) => {},
        (Ok(_), q) => if 0 <= q < v.tokens.len() {
            lemma_set_items_conflict_free(v, q, Seq::empty());
        },
    }
}

/// Whether a token of kind `k` may follow a whole statement: `;`, `NEXT`, `}` or the end of
/// the input.
pub open spec fn is_statement_follow(k: TokenKind) -> bool {
    k == TokenKind::Semicolon || k == TokenKind::Next || k == TokenKind::RBrace || k == TokenKind::Eof
}

} // verus!
