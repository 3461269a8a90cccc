use vstd::prelude::*;
use crate::ast::Identifier;
use crate::error::Error;
use crate::expr_grammar::{expr_view, exprs_view, ExprView};
use crate::expr_walk::same_identifier;
use crate::modify_grammar::{
    assignment_target, delete_statement_step, lemma_property_target, lemma_set_conflict_prefix, delete_view, pair_conflict, remove_item_step, remove_item_view,
    remove_items_rest, remove_items_view, remove_statement_step, set_conflict, set_item_step, set_item_view,
    set_items_rest, set_items_view, set_statement_step, RemoveItemView, SetItemView,
};
use crate::parser::{same_input, Parser};
use crate::syntax::{DeleteStatement, Expr, RemoveItem, RemoveStatement, SetItem, SetStatement};
use crate::text::{chars_of, push_str, string_from_chars};
use crate::token::TokenKind;

verus! {

/// What the `SET` item `i` assigns to: a variable and the key of one of its properties, or
/// the variable alone when all its properties are assigned.
fn assignment_target_of(i: &SetItem) -> (r: Option<(&Identifier, Option<&Identifier>)>)
    ensures
        r is None <==> assignment_target(set_item_view(*i)) is None,
        r matches Some((variable, key)) ==> assignment_target(set_item_view(*i)) == Some(
            (
                variable@,
                match key {
                    Some(k) => Some(k@),
                    None => None,
                },
            ),
        ),
{
    match i {
        SetItem::Property { target, .. } => match target {
            Expr::Property { base, key } => {
                assert(expr_view(*target) == ExprView::Property { base: Box::new(expr_view(**base)), key: key@ });
                match &**base {
                    Expr::Identifier(variable) => {
                        assert(expr_view(**base) == ExprView::Identifier(variable@));
                        Some((variable, Some(key)))
                    },
                    _ => {
                        assert(!(expr_view(**base) is Identifier));
                        None
                    },
                }
            },
            _ => {
                assert(!(expr_view(*target) is Property));
                None
            },
        },
        SetItem::AllProperties { variable, .. } => Some((variable, None)),
        _ => None,
    }
}

/// The message for the `SET` item `item` if it conflicts with the item `existing`.
fn pair_conflict_message(existing: &SetItem, item: &SetItem) -> (r: Option<String>)
    ensures
        match r {
            Some(m) => pair_conflict(set_item_view(*existing), set_item_view(*item)) == Some(m@),
            None => pair_conflict(set_item_view(*existing), set_item_view(*item)) is None,
        },
{
    let (ev, ep) = match assignment_target_of(existing) {
        Some(t) => t,
        None => return None,
    };
    let (v, p) = match assignment_target_of(item) {
        Some(t) => t,
        None => return None,
    };
    match (ep, p) {
        (Some(ep), Some(p)) => {
            if same_identifier(ev, v) && same_identifier(ep, p) {
                let mut m = chars_of("duplicate SET assignment to property '");
                push_str(&mut m, v.value.as_str());
                push_str(&mut m, ".");
                push_str(&mut m, p.value.as_str());
                push_str(&mut m, "'");
                Some(string_from_chars(&m))
            } else {
                None
            }
        },
        (None, None) => {
            if same_identifier(ev, v) {
                let mut m = chars_of("duplicate SET all-properties assignment to '");
                push_str(&mut m, v.value.as_str());
                push_str(&mut m, "'");
                Some(string_from_chars(&m))
            } else {
                None
            }
        },
        _ => {
            if same_identifier(ev, v) {
                let mut m = chars_of("SET all-properties assignment conflicts with property assignment for '");
                push_str(&mut m, v.value.as_str());
                push_str(&mut m, "'");
                Some(string_from_chars(&m))
            } else {
                None
            }
        },
    }
}

/// The message for the first item of `items` that `item` conflicts with, if any.
fn set_conflict_message(items: &Vec<SetItem>, item: &SetItem) -> (r: Option<String>)
    ensures
        match r {
            Some(m) => set_conflict(items@.map_values(|i: SetItem| set_item_view(i)), set_item_view(*item)) == Some(
                m@,
            ),
            None => set_conflict(items@.map_values(|i: SetItem| set_item_view(i)), set_item_view(*item)) is None,
        },
{
    let ghost s = items@.map_values(|i: SetItem| set_item_view(i));
    let ghost iv = set_item_view(*item);
    let mut i: usize = 0;
    proof {
        assert(s.take(0).len() == 0);
    }
    while i < items.len()
        invariant
            i <= items.len(),
            s == items@.map_values(|i: SetItem| set_item_view(i)),
            iv == set_item_view(*item),
            set_conflict(s.take(i as int), iv) is None,
        decreases items.len() - i,
    {
        proof {
            assert(s.take(i + 1).drop_last() =~= s.take(i as int));
            assert(s.take(i + 1).last() == set_item_view(items@[i as int]));
        }
        match pair_conflict_message(&items[i], item) {
            Some(m) => {
                proof {
                    lemma_set_conflict_prefix(s, iv, i + 1, items.len() as int);
                    assert(s.take(items.len() as int) =~= s);
                }
                return Some(m);
            },
            None => {},
        }
        i += 1;
    }
    proof {
        assert(s.take(items.len() as int) =~= s);
    }
    None
}

impl Parser {
    /// Reads a `SET` item: a variable and `.`, a key, `=` and a value; `=` and a record of
    /// all properties; or `:` or `IS` and a label.
    fn parse_set_item(&mut self) -> (r: Result<SetItem, Error>)
        requires
            old(self).wf(),
        ensures
            final(self).wf(),
            same_input(final(self)@, old(self)@),
            old(self)@.pos <= final(self)@.pos,
            (match r {
                Ok(i) => Ok(set_item_view(i)),
                Err(e) => Err(e@),
            }, final(self)@.pos) == set_item_step(old(self)@.input, old(self)@.pos),
    {
        let variable = match self.parse_identifier() {
            Ok(n) => n,
            Err(e) => return Err(e),
        };
        let k = self.peek_kind();
        if k == TokenKind::Dot {
            self.bump();
            let key = match self.parse_identifier() {
                Ok(n) => n,
                Err(e) => return Err(e),
            };
            if let Err(e) = self.expect(TokenKind::Eq) {
                return Err(e);
            }
            let value = match self.parse_expr() {
                Ok(x) => x,
                Err(e) => return Err(e),
            };
            proof {
                lemma_property_target(variable, key);
            }
            return Ok(SetItem::Property { target: Expr::Property { base: Box::new(Expr::Identifier(variable)), key }, value });
        }
        if k == TokenKind::Eq {
            self.bump();
            return match self.parse_map_literal() {
                Ok(properties) => Ok(SetItem::AllProperties { variable, properties }),
                Err(e) => Err(e),
            };
        }
        if k == TokenKind::Colon || k == TokenKind::Is {
            self.bump();
            return match self.parse_identifier() {
                Ok(label) => Ok(SetItem::Label { variable, label }),
                Err(e) => Err(e),
            };
        }
        let expected = vec![TokenKind::Dot, TokenKind::Eq, TokenKind::Colon, TokenKind::Is];
        assert(expected@ =~= seq![TokenKind::Dot, TokenKind::Eq, TokenKind::Colon, TokenKind::Is]);
        Err(self.error_expected(expected, k))
    }

    /// Reads `SET` items separated by commas after those in `items`; an item that conflicts
    /// with one before it is refused at its first token.
    fn parse_set_items(&mut self, items: &mut Vec<SetItem>) -> (r: Result<(), Error>)
        requires
            old(self).wf(),
        ensures
            final(self).wf(),
            same_input(final(self)@, old(self)@),
            old(self)@.pos <= final(self)@.pos,
            (match r {
                Ok(_) => Ok(final(items)@.map_values(|i: SetItem| set_item_view(i))),
                Err(e) => Err(e@),
            }, final(self)@.pos) == set_items_rest(
                old(self)@.input,
                old(self)@.pos,
                old(items)@.map_values(|i: SetItem| set_item_view(i)),
            ),
        decreases old(self)@.input.tokens.len() - old(self)@.pos,
    {
        proof {
            self.lemma_valid();
        }
        let offset = self.peek().offset;
        let item = match self.parse_set_item() {
            Ok(i) => i,
            Err(e) => return Err(e),
        };
        if let Some(m) = set_conflict_message(items, &item) {
            return Err(Error::Message { offset, message: m });
        }
        let ghost before = items@.map_values(|i: SetItem| set_item_view(i));
        let ghost iv = set_item_view(item);
        items.push(item);
        proof {
            assert(items@.map_values(|i: SetItem| set_item_view(i)) =~= before.push(iv));
            self.lemma_valid();
        }
        if !self.at(TokenKind::Comma) {
            return Ok(());
        }
        self.bump();
        proof {
            self.lemma_valid();
        }
        self.parse_set_items(items)
    }

    /// Reads a `SET` statement: `SET` and its items.
    pub fn parse_set_statement(&mut self) -> (r: Result<SetStatement, Error>)
        requires
            old(self).wf(),
        ensures
            final(self).wf(),
            same_input(final(self)@, old(self)@),
            old(self)@.pos <= final(self)@.pos,
            (match r {
                Ok(s) => Ok(set_items_view(s)),
                Err(e) => Err(e@),
            }, final(self)@.pos) == set_statement_step(old(self)@.input, old(self)@.pos),
    {
        if let Err(e) = self.expect(TokenKind::SetKeyword) {
            return Err(e);
        }
        proof {
            self.lemma_valid();
        }
        let mut items: Vec<SetItem> = Vec::new();
        proof {
            assert(items@.map_values(|i: SetItem| set_item_view(i)) =~= Seq::<SetItemView>::empty());
        }
        match self.parse_set_items(&mut items) {
            Ok(_) => Ok(SetStatement { items }),
            Err(e) => Err(e),
        }
    }

    /// Reads a `REMOVE` item: a variable and `.` and a key, or `:` or `IS` and a label.
    fn parse_remove_item(&mut self) -> (r: Result<RemoveItem, Error>)
        requires
            old(self).wf(),
        ensures
            final(self).wf(),
            same_input(final(self)@, old(self)@),
            old(self)@.pos <= final(self)@.pos,
            (match r {
                Ok(i) => Ok(remove_item_view(i)),
                Err(e) => Err(e@),
            }, final(self)@.pos) == remove_item_step(old(self)@.input, old(self)@.pos),
    {
        let variable = match self.parse_identifier() {
            Ok(n) => n,
            Err(e) => return Err(e),
        };
        let k = self.peek_kind();
        if k == TokenKind::Dot {
            self.bump();
            let key = match self.parse_identifier() {
                Ok(key) => key,
                Err(e) => return Err(e),
            };
            proof {
                lemma_property_target(variable, key);
            }
            return Ok(RemoveItem::Property(Expr::Property { base: Box::new(Expr::Identifier(variable)), key }));
        }
        if k == TokenKind::Colon || k == TokenKind::Is {
            self.bump();
            return match self.parse_identifier() {
                Ok(label) => Ok(RemoveItem::Label { variable, label }),
                Err(e) => Err(e),
            };
        }
        let expected = vec![TokenKind::Dot, TokenKind::Colon, TokenKind::Is];
        assert(expected@ =~= seq![TokenKind::Dot, TokenKind::Colon, TokenKind::Is]);
        Err(self.error_expected(expected, k))
    }

    /// Reads `REMOVE` items separated by commas after those in `items`.
    fn parse_remove_items(&mut self, items: &mut Vec<RemoveItem>) -> (r: Result<(), Error>)
        requires
            old(self).wf(),
        ensures
            final(self).wf(),
            same_input(final(self)@, old(self)@),
            old(self)@.pos <= final(self)@.pos,
            (match r {
                Ok(_) => Ok(final(items)@.map_values(|i: RemoveItem| remove_item_view(i))),
                Err(e) => Err(e@),
            }, final(self)@.pos) == remove_items_rest(
                old(self)@.input,
                old(self)@.pos,
                old(items)@.map_values(|i: RemoveItem| remove_item_view(i)),
            ),
        decreases old(self)@.input.tokens.len() - old(self)@.pos,
    {
        proof {
            self.lemma_valid();
        }
        let item = match self.parse_remove_item() {
            Ok(i) => i,
            Err(e) => return Err(e),
        };
        let ghost before = items@.map_values(|i: RemoveItem| remove_item_view(i));
        let ghost iv = remove_item_view(item);
        items.push(item);
        proof {
            assert(items@.map_values(|i: RemoveItem| remove_item_view(i)) =~= before.push(iv));
            self.lemma_valid();
        }
        if !self.at(TokenKind::Comma) {
            return Ok(());
        }
        self.bump();
        proof {
            self.lemma_valid();
        }
        self.parse_remove_items(items)
    }

    /// Reads a `REMOVE` statement: `REMOVE` and its items.
    pub fn parse_remove_statement(&mut self) -> (r: Result<RemoveStatement, Error>)
        requires
            old(self).wf(),
        ensures
            final(self).wf(),
            same_input(final(self)@, old(self)@),
            old(self)@.pos <= final(self)@.pos,
            (match r {
                Ok(s) => Ok(remove_items_view(s)),
                Err(e) => Err(e@),
            }, final(self)@.pos) == remove_statement_step(old(self)@.input, old(self)@.pos),
    {
        if let Err(e) = self.expect(TokenKind::Remove) {
            return Err(e);
        }
        proof {
            self.lemma_valid();
        }
        let mut items: Vec<RemoveItem> = Vec::new();
        proof {
            assert(items@.map_values(|i: RemoveItem| remove_item_view(i)) =~= Seq::<RemoveItemView>::empty());
        }
        match self.parse_remove_items(&mut items) {
            Ok(_) => Ok(RemoveStatement { items }),
            Err(e) => Err(e),
        }
    }

    /// Reads a `DELETE` statement: `DETACH DELETE`, or `DELETE` after an optional
    /// `NODETACH`, and expressions separated by commas.
    pub fn parse_delete_statement(&mut self) -> (r: Result<DeleteStatement, Error>)
        requires
            old(self).wf(),
        ensures
            final(self).wf(),
            same_input(final(self)@, old(self)@),
            old(self)@.pos <= final(self)@.pos,
            (match r {
                Ok(d) => Ok(delete_view(d)),
                Err(e) => Err(e@),
            }, final(self)@.pos) == delete_statement_step(old(self)@.input, old(self)@.pos),
    {
        let detach = self.at(TokenKind::Detach);
        if detach || self.at(TokenKind::Nodetach) {
            self.bump();
        }
        if let Err(e) = self.expect(TokenKind::Delete) {
            return Err(e);
        }
        proof {
            self.lemma_valid();
        }
        let mut items: Vec<Expr> = Vec::new();
        proof {
            assert(exprs_view(items@) =~= Seq::<ExprView>::empty());
        }
        match self.parse_arguments(&mut items) {
            Ok(_) => Ok(DeleteStatement { detach, items }),
            Err(e) => Err(e),
        }
    }
}

} // verus!
