use vstd::prelude::*;
use crate::ast::{
    CatalogNameView, DropGraphStatement, DropGraphTypeStatement, DropSchemaStatement,
};
use crate::error::{Error, ErrorView};
use crate::grammar::{catalog_name_step, if_exists_step};
use crate::parser::{expect_step, expected_err, kind_at, next_pos, rview, same_input, InputView, Parser};
use crate::token::TokenKind;

verus! {

/// A statement that `DROP` begins: of a graph, a graph type or a schema.
#[derive(Clone, Debug, PartialEq, Eq)]
pub enum DropStatement {
    Graph(DropGraphStatement),
    GraphType(DropGraphTypeStatement),
    Schema(DropSchemaStatement),
}

/// The mathematical value of a [`DropStatement`].
pub enum DropStatementView {
    Graph { if_exists: bool, property_graph: bool, name: CatalogNameView },
    GraphType { if_exists: bool, property_graph: bool, name: CatalogNameView },
    Schema { if_exists: bool, name: CatalogNameView },
}

impl View for DropStatement {
    type V = DropStatementView;

    open spec fn view(&self) -> DropStatementView {
        match self {
            DropStatement::Graph(s) => DropStatementView::Graph {
                if_exists: s.if_exists,
                property_graph: s.property_graph,
                name: s.name@,
            },
            DropStatement::GraphType(s) => DropStatementView::GraphType {
                if_exists: s.if_exists,
                property_graph: s.property_graph,
                name: s.name@,
            },
            DropStatement::Schema(s) => DropStatementView::Schema { if_exists: s.if_exists, name: s.name@ },
        }
    }
}

/// An optional `IF EXISTS` and a catalog name, from `p`.
pub open spec fn if_exists_name_step(v: InputView, p: int) -> (Result<(bool, CatalogNameView), ErrorView>, int) {
    match if_exists_step(v, p) {
        (Err(e), q) => (Err(e), q),
        (Ok(if_exists), q) => match catalog_name_step(v, q) {
            (Err(e), q2) => (Err(e), q2),
            (Ok(name), q2) => (Ok((if_exists, name)), q2),
        },
    }
}

/// `DROP`, an optional `PROPERTY`, and `GRAPH`, `GRAPH TYPE` or `SCHEMA`, each with an
/// optional `IF EXISTS` and a name; `PROPERTY SCHEMA` is refused.
pub open spec fn drop_statement_step(v: InputView, p: int) -> (Result<DropStatementView, ErrorView>, int) {
    match expect_step(v, p, TokenKind::Drop) {
        (Err(e), q) => (Err(e), q),
        (Ok(_), q) => {
            let property_graph = kind_at(v, q) == TokenKind::Property;
            let q1 = if property_graph {
                next_pos(v, q)
            } else {
                q
            };
            let k = kind_at(v, q1);
            if k == TokenKind::Graph {
                let q2 = next_pos(v, q1);
                if kind_at(v, q2) == TokenKind::Type {
                    match if_exists_name_step(v, next_pos(v, q2)) {
                        (Err(e), q3) => (Err(e), q3),
                        (Ok((if_exists, name)), q3) => (
                            Ok(DropStatementView::GraphType { if_exists, property_graph, name }),
                            q3,
                        ),
                    }
                } else {
                    match if_exists_name_step(v, q2) {
                        (Err(e), q3) => (Err(e), q3),
                        (Ok((if_exists, name)), q3) => (
                            Ok(DropStatementView::Graph { if_exists, property_graph, name }),
                            q3,
                        ),
                    }
                }
            } else if k == TokenKind::Schema {
                if property_graph {
                    (Err(expected_err(v, q1, seq![TokenKind::Graph], k)), q1)
                } else {
                    match if_exists_name_step(v, next_pos(v, q1)) {
                        (Err(e), q3) => (Err(e), q3),
                        (Ok((if_exists, name)), q3) => (Ok(DropStatementView::Schema { if_exists, name }), q3),
                    }
                }
            } else {
                (Err(expected_err(v, q1, seq![TokenKind::Graph, TokenKind::Schema], k)), q1)
            }
        },
    }
}

impl Parser {
    /// Reads a `DROP` statement of a graph, a graph type or a schema.
    pub fn parse_drop_statement(&mut self) -> (r: Result<DropStatement, Error>)
        requires
            old(self).wf(),
        ensures
            final(self).wf(),
            same_input(final(self)@, old(self)@),
            (rview(r), final(self)@.pos) == drop_statement_step(old(self)@.input, old(self)@.pos),
    {
        if let Err(e) = self.expect(TokenKind::Drop) {
            return Err(e);
        }
        let property_graph = self.eat(TokenKind::Property).is_some();
        let kind = self.peek_kind();
        if kind == TokenKind::Graph {
            self.bump();
            if self.eat(TokenKind::Type).is_some() {
                let if_exists = match self.parse_if_exists() {
                    Ok(b) => b,
                    Err(e) => return Err(e),
                };
                let name = match self.parse_graph_type_name() {
                    Ok(n) => n,
                    Err(e) => return Err(e),
                };
                Ok(DropStatement::GraphType(DropGraphTypeStatement { if_exists, property_graph, name }))
            } else {
                let if_exists = match self.parse_if_exists() {
                    Ok(b) => b,
                    Err(e) => return Err(e),
                };
                let name = match self.parse_graph_name() {
                    Ok(n) => n,
                    Err(e) => return Err(e),
                };
                Ok(DropStatement::Graph(DropGraphStatement { if_exists, property_graph, name }))
            }
        } else if kind == TokenKind::Schema {
            if property_graph {
                let expected = vec![TokenKind::Graph];
                assert(expected@ =~= seq![TokenKind::Graph]);
                return Err(self.error_expected(expected, kind));
            }
            self.bump();
            let if_exists = match self.parse_if_exists() {
                Ok(b) => b,
                Err(e) => return Err(e),
            };
            let name = match self.parse_schema_name() {
                Ok(n) => n,
                Err(e) => return Err(e),
            };
            Ok(DropStatement::Schema(DropSchemaStatement { if_exists, name }))
        } else {
            Err(self.error_expected(vec![TokenKind::Graph, TokenKind::Schema], kind))
        }
    }
}

} // verus!
