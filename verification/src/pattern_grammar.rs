use vstd::prelude::*;
use crate::ast::{
    identifiers_view, label_names, opt_identifier_view, Direction, LabelExpressionView, PathPatternQuantifier,
};
use crate::error::ErrorView;
use crate::expr_grammar::{entries_view, expr_step, map_literal_step, ExprView};
use crate::grammar::{identifier_step, label_expression_step, message_at, path_quantifier_step};
use crate::kinds::spec_is_identifier_like;
use crate::lookahead::starts_element_variable;
use crate::parser::{expect_step, expected_err, kind_ahead, kind_at, next_pos, InputView};
use crate::query_grammar::opt_expr_view;
use crate::syntax::{NodePattern, RelationshipPattern};
use crate::token::TokenKind;

verus! {

/// The mathematical value of what stands inside a node or relationship pattern.
pub struct ElementBodyView {
    pub variable: Option<Seq<char>>,
    pub temporary: bool,
    pub labels: Seq<Seq<char>>,
    pub label_expression: Option<LabelExpressionView>,
    pub properties: Option<Seq<(Seq<char>, ExprView)>>,
    pub where_clause: Option<ExprView>,
}

/// The mathematical value of a [`NodePattern`].
pub struct NodePatternView {
    pub body: ElementBodyView,
    pub quantifier: Option<PathPatternQuantifier>,
}

/// The mathematical value of a [`RelationshipPattern`].
pub struct RelationshipPatternView {
    pub direction: Direction,
    pub body: ElementBodyView,
    pub quantifier: Option<PathPatternQuantifier>,
}

/// The value of a node pattern.
pub open spec fn node_pattern_view(n: NodePattern) -> NodePatternView {
    NodePatternView {
        body: ElementBodyView {
            variable: opt_identifier_view(n.variable),
            temporary: n.temporary,
            labels: identifiers_view(n.labels@),
            label_expression: match n.label_expression {
                Some(l) => Some(l@),
                None => None,
            },
            properties: match n.properties {
                Some(m) => Some(entries_view(m.entries@)),
                None => None,
            },
            where_clause: opt_expr_view(n.where_clause),
        },
        quantifier: n.quantifier,
    }
}

/// The value of a relationship pattern.
pub open spec fn relationship_pattern_view(r: RelationshipPattern) -> RelationshipPatternView {
    RelationshipPatternView {
        direction: r.direction,
        body: ElementBodyView {
            variable: opt_identifier_view(r.variable),
            temporary: r.temporary,
            labels: identifiers_view(r.labels@),
            label_expression: match r.label_expression {
                Some(l) => Some(l@),
                None => None,
            },
            properties: match r.properties {
                Some(m) => Some(entries_view(m.entries@)),
                None => None,
            },
            where_clause: opt_expr_view(r.where_clause),
        },
        quantifier: r.quantifier,
    }
}

/// The body of an element pattern that has nothing inside.
pub open spec fn empty_body() -> ElementBodyView {
    ElementBodyView {
        variable: None,
        temporary: false,
        labels: Seq::empty(),
        label_expression: None,
        properties: None,
        where_clause: None,
    }
}

/// Label expressions each after `:` or `IS`, after those read into `labels` (their label
/// names, from left to right) and `label_expression` (their conjunction).
pub open spec fn element_labels_rest(
    v: InputView,
    p: int,
    labels: Seq<Seq<char>>,
    label_expression: Option<LabelExpressionView>,
) -> (Result<(Seq<Seq<char>>, Option<LabelExpressionView>), ErrorView>, int)
    decreases v.tokens.len() - p,
    when 0 <= p < v.tokens.len()
{
    if kind_at(v, p) == TokenKind::Colon || kind_at(v, p) == TokenKind::Is {
        match label_expression_step(v, next_pos(v, p)) {
            (Err(e), q) => (Err(e), q),
            (Ok(l), q) => {
                let le = match label_expression {
                    Some(x) => Some(LabelExpressionView::And(Box::new(x), Box::new(l))),
                    None => Some(l),
                };
                let ls = labels + label_names(l);
                if p < q < v.tokens.len() {
                    element_labels_rest(v, q, ls, le)
                } else {
                    (Ok((ls, le)), q)
                }
            },
        }
    } else {
        (Ok((labels, label_expression)), p)
    }
}

/// What stands inside a node or relationship pattern before its `terminator`: an optional
/// variable, label expressions, and a property map or a `WHERE` predicate. `TEMP`
/// variables are refused.
pub open spec fn element_body_step(v: InputView, p: int, terminator: TokenKind) -> (
    Result<ElementBodyView, ErrorView>,
    int,
) {
    if kind_at(v, p) == TokenKind::Temp && (match kind_ahead(v, p, 1) {
        Some(k) => spec_is_identifier_like(k),
        None => false,
    }) {
        (
            Err(message_at(v, p, "TEMP element variable declarations are not user-visible standard GQL syntax"@)),
            p,
        )
    } else {
        let (variable, q) = if starts_element_variable(v, p) {
            match identifier_step(v, p) {
                (Err(e), qa) => (Err(e), qa),
                (Ok(n), qa) => (Ok(Some(n)), qa),
            }
        } else {
            (Ok(None), p)
        };
        match variable {
            Err(e) => (Err(e), q),
            Ok(variable) => {
                let (ls, q1) = if 0 <= q < v.tokens.len() {
                    element_labels_rest(v, q, Seq::empty(), None)
                } else {
                    (Ok((Seq::empty(), None)), q)
                };
                match ls {
                    Err(e) => (Err(e), q1),
                    Ok((labels, label_expression)) => {
                        let (pw, q2) = if kind_at(v, q1) == TokenKind::LBrace {
                            match map_literal_step(v, q1) {
                                (Err(e), qa) => (Err(e), qa),
                                (Ok(m), qa) => (Ok((Some(m), None)), qa),
                            }
                        } else if kind_at(v, q1) == TokenKind::Where {
                            match expr_step(v, next_pos(v, q1)) {
                                (Err(e), qa) => (Err(e), qa),
                                (Ok(w), qa) => (Ok((None, Some(w))), qa),
                            }
                        } else {
                            (Ok((None, None)), q1)
                        };
                        match pw {
                            Err(e) => (Err(e), q2),
                            Ok((properties, where_clause)) => if kind_at(v, q2) != terminator {
                                (Err(expected_err(v, q2, seq![terminator], kind_at(v, q2))), q2)
                            } else {
                                (
                                    Ok(
                                        ElementBodyView {
                                            variable,
                                            temporary: false,
                                            labels,
                                            label_expression,
                                            properties,
                                            where_clause,
                                        },
                                    ),
                                    q2,
                                )
                            },
                        }
                    },
                }
            },
        }
    }
}

/// A node pattern: `(`, what stands inside, `)`, and an optional quantifier.
pub open spec fn node_pattern_step(v: InputView, p: int) -> (Result<NodePatternView, ErrorView>, int) {
    match expect_step(v, p, TokenKind::LParen) {
        (Err(e), q) => (Err(e), q),
        (Ok(_), q) => match element_body_step(v, q, TokenKind::RParen) {
            (Err(e), q1) => (Err(e), q1),
            (Ok(body), q1) => match expect_step(v, q1, TokenKind::RParen) {
                (Err(e), q2) => (Err(e), q2),
                (Ok(_), q2) => match path_quantifier_step(v, q2) {
                    (Err(e), q3) => (Err(e), q3),
                    (Ok(quantifier), q3) => (Ok(NodePatternView { body, quantifier }), q3),
                },
            },
        },
    }
}

/// What stands inside `[` and `]`, from after the `[` to after the `]`.
pub open spec fn bracketed_body_step(v: InputView, p: int) -> (Result<ElementBodyView, ErrorView>, int) {
    match element_body_step(v, p, TokenKind::RBracket) {
        (Err(e), q) => (Err(e), q),
        (Ok(body), q) => match expect_step(v, q, TokenKind::RBracket) {
            (Err(e), q1) => (Err(e), q1),
            (Ok(_), q1) => (Ok(body), q1),
        },
    }
}

/// A relationship with `direction` and `body`, and an optional quantifier at `p`.
pub open spec fn relationship_end_step(v: InputView, p: int, direction: Direction, body: ElementBodyView) -> (
    Result<RelationshipPatternView, ErrorView>,
    int,
) {
    match path_quantifier_step(v, p) {
        (Err(e), q) => (Err(e), q),
        (Ok(quantifier), q) => (Ok(RelationshipPatternView { direction, body, quantifier }), q),
    }
}

/// A relationship pattern: an arrow, full (with what stands inside `[` and `]`) or
/// abbreviated, whose ends give its direction, and an optional quantifier.
pub open spec fn relationship_pattern_step(v: InputView, p: int) -> (Result<RelationshipPatternView, ErrorView>, int) {
    let k = kind_at(v, p);
    let q = next_pos(v, p);
    if k == TokenKind::ArrowLeft {
        if kind_at(v, q) == TokenKind::LBracket {
            match bracketed_body_step(v, next_pos(v, q)) {
                (Err(e), q1) => (Err(e), q1),
                (Ok(body), q1) => if kind_at(v, q1) == TokenKind::ArrowRight {
                    relationship_end_step(v, next_pos(v, q1), Direction::LeftOrRight, body)
                } else {
                    match expect_step(v, q1, TokenKind::Minus) {
                        (Err(e), q2) => (Err(e), q2),
                        (Ok(_), q2) => relationship_end_step(v, q2, Direction::Left, body),
                    }
                },
            }
        } else if kind_at(v, q) == TokenKind::Gt {
            relationship_end_step(v, next_pos(v, q), Direction::LeftOrRight, empty_body())
        } else {
            relationship_end_step(v, q, Direction::Left, empty_body())
        }
    } else if k == TokenKind::Lt {
        match expect_step(v, q, TokenKind::Tilde) {
            (Err(e), q1) => (Err(e), q1),
            (Ok(_), q1) => if kind_at(v, q1) == TokenKind::LBracket {
                match bracketed_body_step(v, next_pos(v, q1)) {
                    (Err(e), q2) => (Err(e), q2),
                    (Ok(body), q2) => match expect_step(v, q2, TokenKind::Tilde) {
                        (Err(e), q3) => (Err(e), q3),
                        (Ok(_), q3) => relationship_end_step(v, q3, Direction::LeftOrUndirected, body),
                    },
                }
            } else {
                relationship_end_step(v, q1, Direction::LeftOrUndirected, empty_body())
            },
        }
    } else if k == TokenKind::ArrowRight {
        relationship_end_step(v, q, Direction::Right, empty_body())
    } else if k == TokenKind::Tilde {
        if kind_at(v, q) == TokenKind::LBracket {
            match bracketed_body_step(v, next_pos(v, q)) {
                (Err(e), q1) => (Err(e), q1),
                (Ok(body), q1) => match expect_step(v, q1, TokenKind::Tilde) {
                    (Err(e), q2) => (Err(e), q2),
                    (Ok(_), q2) => if kind_at(v, q2) == TokenKind::Gt {
                        relationship_end_step(v, next_pos(v, q2), Direction::UndirectedOrRight, body)
                    } else {
                        relationship_end_step(v, q2, Direction::Undirected, body)
                    },
                },
            }
        } else if kind_at(v, q) == TokenKind::Gt {
            relationship_end_step(v, next_pos(v, q), Direction::UndirectedOrRight, empty_body())
        } else {
            relationship_end_step(v, q, Direction::Undirected, empty_body())
        }
    } else {
        match expect_step(v, p, TokenKind::Minus) {
            (Err(e), q1) => (Err(e), q1),
            (Ok(_), q1) => {
                let has_body = kind_at(v, q1) == TokenKind::LBracket;
                let (body, q2) = if has_body {
                    bracketed_body_step(v, next_pos(v, q1))
                } else {
                    (Ok(empty_body()), q1)
                };
                match body {
                    Err(e) => (Err(e), q2),
                    Ok(body) => if kind_at(v, q2) == TokenKind::ArrowRight {
                        relationship_end_step(v, next_pos(v, q2), Direction::Right, body)
                    } else if kind_at(v, q2) == TokenKind::Minus {
                        relationship_end_step(v, next_pos(v, q2), Direction::Any, body)
                    } else if has_body {
                        (
                            Err(
                                expected_err(
                                    v,
                                    q2,
                                    seq![TokenKind::ArrowRight, TokenKind::Minus],
                                    kind_at(v, q2),
                                ),
                            ),
                            q2,
                        )
                    } else {
                        relationship_end_step(v, q2, Direction::Any, body)
                    },
                }
            },
        }
    }
}

} // verus!
