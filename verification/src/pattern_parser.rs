use vstd::prelude::*;
use crate::ast::{
    collect_label_names, identifiers_view, label_names, Direction, Identifier, LabelExpression, LabelExpressionView,
};
use crate::error::Error;
use crate::expr_grammar::entries_view;
use crate::kinds::is_identifier_like;
use crate::parser::{same_input, Parser};
use crate::pattern_grammar::{
    bracketed_body_step, element_body_step, element_labels_rest, empty_body, node_pattern_step, node_pattern_view,
    relationship_end_step, relationship_pattern_step, relationship_pattern_view, ElementBodyView,
};
use crate::query_grammar::opt_expr_view;
use crate::syntax::{Expr, MapLiteral, NodePattern, RelationshipPattern};
use crate::token::TokenKind;

verus! {

/// What stands inside a node or relationship pattern: its variable, whether it is
/// temporary, its label names, its label expression, its property map and its `WHERE`
/// predicate.
pub type ElementBody = (
    Option<Identifier>,
    bool,
    Vec<Identifier>,
    Option<LabelExpression>,
    Option<MapLiteral>,
    Option<Expr>,
);

/// The value of what stands inside an element pattern.
pub open spec fn element_body_view(b: ElementBody) -> ElementBodyView {
    ElementBodyView {
        variable: crate::ast::opt_identifier_view(b.0),
        temporary: b.1,
        labels: identifiers_view(b.2@),
        label_expression: match b.3 {
            Some(l) => Some(l@),
            None => None,
        },
        properties: match b.4 {
            Some(m) => Some(entries_view(m.entries@)),
            None => None,
        },
        where_clause: opt_expr_view(b.5),
    }
}

/// The body of an element pattern that has nothing inside.
fn no_body() -> (b: ElementBody)
    ensures
        element_body_view(b) == empty_body(),
{
    let labels: Vec<Identifier> = Vec::new();
    proof {
        assert(identifiers_view(labels@) =~= Seq::<Seq<char>>::empty());
    }
    (None, false, labels, None, None, None)
}

impl Parser {
    /// Reads label expressions each after `:` or `IS`, adding their label names to
    /// `labels` and their conjunction to `label_expression`.
    fn parse_element_labels(
        &mut self,
        labels: &mut Vec<Identifier>,
        label_expression: &mut Option<LabelExpression>,
    ) -> (r: Result<(), Error>)
        requires
            old(self).wf(),
        ensures
            final(self).wf(),
            same_input(final(self)@, old(self)@),
            (match r {
                Ok(_) => Ok((identifiers_view(final(labels)@), match *final(label_expression) {
                    Some(l) => Some(l@),
                    None => None,
                })),
                Err(e) => Err(e@),
            }, final(self)@.pos) == element_labels_rest(
                old(self)@.input,
                old(self)@.pos,
                identifiers_view(old(labels)@),
                match *old(label_expression) {
                    Some(l) => Some(l@),
                    None => None,
                },
            ),
        decreases old(self)@.input.tokens.len() - old(self)@.pos,
    {
        proof {
            self.lemma_valid();
        }
        if !self.at(TokenKind::Colon) && !self.at(TokenKind::Is) {
            return Ok(());
        }
        let start = self.position();
        self.bump();
        let expr = match self.parse_label_expression() {
            Ok(l) => l,
            Err(e) => return Err(e),
        };
        collect_label_names(&expr, labels);
        let previous = label_expression.take();
        *label_expression = Some(
            match previous {
                Some(x) => LabelExpression::And(Box::new(x), Box::new(expr)),
                None => expr,
            },
        );
        proof {
            self.lemma_valid();
        }
        if start < self.position() {
            return self.parse_element_labels(labels, label_expression);
        }
        Ok(())
    }

    /// Reads what stands inside a node or relationship pattern before its `terminator`: an
    /// optional variable, label expressions, and a property map or a `WHERE` predicate.
    /// `TEMP` variables are refused.
    fn parse_element_body(&mut self, terminator: TokenKind) -> (r: Result<ElementBody, Error>)
        requires
            old(self).wf(),
        ensures
            final(self).wf(),
            same_input(final(self)@, old(self)@),
            (match r {
                Ok(b) => Ok(element_body_view(b)),
                Err(e) => Err(e@),
            }, final(self)@.pos) == element_body_step(old(self)@.input, old(self)@.pos, terminator),
    {
        proof {
            self.lemma_valid();
        }
        let temporary = self.at(TokenKind::Temp) && match self.peek_n_kind(1) {
            Some(k) => is_identifier_like(k),
            None => false,
        };
        if temporary {
            return Err(Error::Message {
                offset: self.peek().offset,
                message: "TEMP element variable declarations are not user-visible standard GQL syntax".to_owned(),
            });
        }
        let variable = if self.starts_element_variable() {
            match self.parse_identifier() {
                Ok(n) => Some(n),
                Err(e) => return Err(e),
            }
        } else {
            None
        };
        let mut labels: Vec<Identifier> = Vec::new();
        let mut label_expression: Option<LabelExpression> = None;
        proof {
            self.lemma_valid();
            assert(identifiers_view(labels@) =~= Seq::<Seq<char>>::empty());
        }
        if let Err(e) = self.parse_element_labels(&mut labels, &mut label_expression) {
            return Err(e);
        }
        let (properties, where_clause) = if self.at(TokenKind::LBrace) {
            match self.parse_map_literal() {
                Ok(m) => (Some(m), None),
                Err(e) => return Err(e),
            }
        } else if self.at(TokenKind::Where) {
            self.bump();
            match self.parse_expr() {
                Ok(w) => (None, Some(w)),
                Err(e) => return Err(e),
            }
        } else {
            (None, None)
        };
        if !self.at(terminator) {
            let expected = vec![terminator];
            assert(expected@ =~= seq![terminator]);
            let got = self.peek_kind();
            return Err(self.error_expected(expected, got));
        }
        Ok((variable, false, labels, label_expression, properties, where_clause))
    }

    /// Reads a node pattern: `(`, what stands inside, `)`, and an optional quantifier.
    pub fn parse_node_pattern(&mut self) -> (r: Result<NodePattern, Error>)
        requires
            old(self).wf(),
        ensures
            final(self).wf(),
            same_input(final(self)@, old(self)@),
            (match r {
                Ok(n) => Ok(node_pattern_view(n)),
                Err(e) => Err(e@),
            }, final(self)@.pos) == node_pattern_step(old(self)@.input, old(self)@.pos),
    {
        if let Err(e) = self.expect(TokenKind::LParen) {
            return Err(e);
        }
        let b = match self.parse_element_body(TokenKind::RParen) {
            Ok(b) => b,
            Err(e) => return Err(e),
        };
        if let Err(e) = self.expect(TokenKind::RParen) {
            return Err(e);
        }
        let quantifier = match self.parse_optional_path_quantifier() {
            Ok(q) => q,
            Err(e) => return Err(e),
        };
        let (variable, temporary, labels, label_expression, properties, where_clause) = b;
        Ok(NodePattern { variable, temporary, labels, label_expression, properties, where_clause, quantifier })
    }

    /// Reads what stands inside `[` and `]`, from after the `[` to after the `]`.
    fn parse_bracketed_body(&mut self) -> (r: Result<ElementBody, Error>)
        requires
            old(self).wf(),
        ensures
            final(self).wf(),
            same_input(final(self)@, old(self)@),
            (match r {
                Ok(b) => Ok(element_body_view(b)),
                Err(e) => Err(e@),
            }, final(self)@.pos) == bracketed_body_step(old(self)@.input, old(self)@.pos),
    {
        let b = match self.parse_element_body(TokenKind::RBracket) {
            Ok(b) => b,
            Err(e) => return Err(e),
        };
        match self.expect(TokenKind::RBracket) {
            Ok(_) => Ok(b),
            Err(e) => Err(e),
        }
    }

    /// Reads an optional quantifier and makes the relationship with `direction` and `b`.
    fn parse_relationship_end(&mut self, direction: Direction, b: ElementBody) -> (r: Result<RelationshipPattern, Error>)
        requires
            old(self).wf(),
        ensures
            final(self).wf(),
            same_input(final(self)@, old(self)@),
            (match r {
                Ok(x) => Ok(relationship_pattern_view(x)),
                Err(e) => Err(e@),
            }, final(self)@.pos) == relationship_end_step(
                old(self)@.input,
                old(self)@.pos,
                direction,
                element_body_view(b),
            ),
    {
        let quantifier = match self.parse_optional_path_quantifier() {
            Ok(q) => q,
            Err(e) => return Err(e),
        };
        let (variable, temporary, labels, label_expression, properties, where_clause) = b;
        Ok(RelationshipPattern {
            direction,
            variable,
            temporary,
            labels,
            label_expression,
            properties,
            where_clause,
            quantifier,
        })
    }

    /// Reads a relationship pattern: an arrow, full (with what stands inside `[` and `]`)
    /// or abbreviated, whose ends give its direction (`<-`, `->`, `~`, `<~`, `-`, and their
    /// combinations), and an optional quantifier.
    pub fn parse_relationship_pattern(&mut self) -> (r: Result<RelationshipPattern, Error>)
        requires
            old(self).wf(),
        ensures
            final(self).wf(),
            same_input(final(self)@, old(self)@),
            (match r {
                Ok(x) => Ok(relationship_pattern_view(x)),
                Err(e) => Err(e@),
            }, final(self)@.pos) == relationship_pattern_step(old(self)@.input, old(self)@.pos),
    {
        proof {
            self.lemma_valid();
        }
        let k = self.peek_kind();
        if k == TokenKind::ArrowLeft {
            self.bump();
            if self.at(TokenKind::LBracket) {
                self.bump();
                let b = match self.parse_bracketed_body() {
                    Ok(b) => b,
                    Err(e) => return Err(e),
                };
                if self.eat(TokenKind::ArrowRight).is_some() {
                    return self.parse_relationship_end(Direction::LeftOrRight, b);
                }
                if let Err(e) = self.expect(TokenKind::Minus) {
                    return Err(e);
                }
                return self.parse_relationship_end(Direction::Left, b);
            }
            if self.eat(TokenKind::Gt).is_some() {
                return self.parse_relationship_end(Direction::LeftOrRight, no_body());
            }
            return self.parse_relationship_end(Direction::Left, no_body());
        }
        if k == TokenKind::Lt {
            self.bump();
            if let Err(e) = self.expect(TokenKind::Tilde) {
                return Err(e);
            }
            if self.at(TokenKind::LBracket) {
                self.bump();
                let b = match self.parse_bracketed_body() {
                    Ok(b) => b,
                    Err(e) => return Err(e),
                };
                if let Err(e) = self.expect(TokenKind::Tilde) {
                    return Err(e);
                }
                return self.parse_relationship_end(Direction::LeftOrUndirected, b);
            }
            return self.parse_relationship_end(Direction::LeftOrUndirected, no_body());
        }
        if k == TokenKind::ArrowRight {
            self.bump();
            return self.parse_relationship_end(Direction::Right, no_body());
        }
        if k == TokenKind::Tilde {
            self.bump();
            if self.at(TokenKind::LBracket) {
                self.bump();
                let b = match self.parse_bracketed_body() {
                    Ok(b) => b,
                    Err(e) => return Err(e),
                };
                if let Err(e) = self.expect(TokenKind::Tilde) {
                    return Err(e);
                }
                if self.eat(TokenKind::Gt).is_some() {
                    return self.parse_relationship_end(Direction::UndirectedOrRight, b);
                }
                return self.parse_relationship_end(Direction::Undirected, b);
            }
            if self.eat(TokenKind::Gt).is_some() {
                return self.parse_relationship_end(Direction::UndirectedOrRight, no_body());
            }
            return self.parse_relationship_end(Direction::Undirected, no_body());
        }
        if let Err(e) = self.expect(TokenKind::Minus) {
            return Err(e);
        }
        let has_body = self.at(TokenKind::LBracket);
        let b = if has_body {
            self.bump();
            match self.parse_bracketed_body() {
                Ok(b) => b,
                Err(e) => return Err(e),
            }
        } else {
            no_body()
        };
        if self.eat(TokenKind::ArrowRight).is_some() {
            return self.parse_relationship_end(Direction::Right, b);
        }
        if self.eat(TokenKind::Minus).is_some() {
            return self.parse_relationship_end(Direction::Any, b);
        }
        if has_body {
            let expected = vec![TokenKind::ArrowRight, TokenKind::Minus];
            assert(expected@ =~= seq![TokenKind::ArrowRight, TokenKind::Minus]);
            let got = self.peek_kind();
            return Err(self.error_expected(expected, got));
        }
        self.parse_relationship_end(Direction::Any, b)
    }
}

} // verus!
