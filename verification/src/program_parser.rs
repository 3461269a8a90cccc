use vstd::prelude::*;
use crate::ast::SessionCloseCommand;
use crate::catalog::DropStatement;
use crate::error::Error;
use crate::expr_grammar::expr_view;
use crate::expr_walk::same_identifier;
use crate::parser::{same_input, Parser};
use crate::program_grammar::{
    catalog_rest, catalog_statement_step, starts_query, continues_without_semicolon, defines_name, simple_statement_view, definition_view, definitions_rest, input_of, other_statement_kind,
    program_result, program_step, program_view, statement_starts, statement_step, statement_view, statements_rest,
    value_definition_step, DefinitionView, ProgramView, StatementView, next_rest, session_set_step, session_set_view,
    session_value_parameter_step, data_modifying_step, graph_expression_step, graph_expression_view,
    session_graph_parameter_step, starts_session_graph_parameter, binding_table_expression_step,
    binding_table_expression_view, session_binding_table_parameter_step, binding_table_definition_step,
    definition_name, definition_step, graph_definition_step,
};
use crate::fragments::definition_value_type_step;
use crate::syntax::{
    BindingTableExpression, BindingTableVariableDefinition, BindingVariableDefinition, GraphVariableDefinition, GraphExpression, SessionSetBindingTableParameter,
    SessionSetGraphParameter, Expr, Literal, NextStatement, Program, SessionSetCommand, SessionSetTarget,
    SessionSetValueParameter, Statement, ValueVariableDefinition,
};
use crate::text::{chars_of, push_str, string_from_chars, trim_dollar_prefix};
use crate::token::TokenKind;

verus! {

/// A program's result by its value.
pub open spec fn program_result_view(r: Result<Program, Error>) -> Result<ProgramView, crate::error::ErrorView> {
    match r {
        Ok(p) => Ok(program_view(p)),
        Err(e) => Err(e@),
    }
}

/// Whether a token of kind `k` opens a statement that this parser does not read.
fn opens_other_statement(k: TokenKind) -> (r: bool)
    ensures
        r == other_statement_kind(k),
{
    matches!(
        k,
        TokenKind::At | TokenKind::Use | TokenKind::Match | TokenKind::Filter | TokenKind::Let | TokenKind::For
            | TokenKind::Order | TokenKind::Offset | TokenKind::Skip | TokenKind::Limit | TokenKind::LBrace
            | TokenKind::Return | TokenKind::Select | TokenKind::Finish | TokenKind::Optional | TokenKind::Call
            | TokenKind::Insert | TokenKind::Delete | TokenKind::Detach | TokenKind::Nodetach | TokenKind::SetKeyword
            | TokenKind::Remove | TokenKind::Create | TokenKind::Drop
    )
}

/// The kinds named when no statement starts at a token.
fn statement_start_kinds() -> (v: Vec<TokenKind>)
    ensures
        v@ == statement_starts(),
{
    let v = vec![
        TokenKind::Use,
        TokenKind::At,
        TokenKind::Match,
        TokenKind::Optional,
        TokenKind::Filter,
        TokenKind::Let,
        TokenKind::For,
        TokenKind::Order,
        TokenKind::Offset,
        TokenKind::Skip,
        TokenKind::Limit,
        TokenKind::Call,
        TokenKind::Return,
        TokenKind::Select,
        TokenKind::Finish,
        TokenKind::Start,
        TokenKind::Commit,
        TokenKind::Rollback,
        TokenKind::Insert,
        TokenKind::Delete,
        TokenKind::SetKeyword,
        TokenKind::Session,
        TokenKind::Reset,
        TokenKind::Close,
        TokenKind::Remove,
        TokenKind::Create,
        TokenKind::Drop,
    ];
    assert(v@ =~= statement_starts());
    v
}

/// Whether a statement is a `DROP` statement.
pub open spec fn is_drop(s: Statement) -> bool {
    s is DropGraph || s is DropGraphType || s is DropSchema
}

/// The statement that a `DROP` statement is.
fn drop_statement(d: DropStatement) -> (s: Statement)
    ensures
        statement_view(s) == StatementView::Drop(d@),
        simple_statement_view(s) == StatementView::Drop(d@),
        is_drop(s),
{
    match d {
        DropStatement::Graph(g) => Statement::DropGraph(g),
        DropStatement::GraphType(g) => Statement::DropGraphType(g),
        DropStatement::Schema(g) => Statement::DropSchema(g),
    }
}

/// Whether a definition in `defs` has the name `name`, ignoring the case of ASCII letters.
/// The name that the definition `d` binds.
fn definition_name_of(d: &BindingVariableDefinition) -> (r: &crate::ast::Identifier)
    ensures
        r@ == definition_name(definition_view(*d)),
{
    match d {
        BindingVariableDefinition::Value(x) => &x.name,
        BindingVariableDefinition::Graph(x) => &x.name,
        BindingVariableDefinition::BindingTable(x) => &x.name,
    }
}

fn has_definition_named(defs: &Vec<BindingVariableDefinition>, name: &crate::ast::Identifier) -> (r: bool)
    ensures
        r == defines_name(defs@.map_values(|d: BindingVariableDefinition| definition_view(d)), name@),
{
    let ghost ds = defs@.map_values(|d: BindingVariableDefinition| definition_view(d));
    let mut i: usize = 0;
    while i < defs.len()
        invariant
            i <= defs.len(),
            ds == defs@.map_values(|d: BindingVariableDefinition| definition_view(d)),
            forall|k: int| 0 <= k < i ==> !crate::text::eq_ignore_ascii_case(definition_name(#[trigger] ds[k]), name@),
        decreases defs.len() - i,
    {
        if same_identifier(definition_name_of(&defs[i]), name) {
            assert(crate::text::eq_ignore_ascii_case(definition_name(ds[i as int]), name@));
            return true;
        }
        i += 1;
    }
    false
}

impl Parser {
    /// Reads a `DELETE`, `SET` or `REMOVE` statement; when no `;`, `NEXT`, `}` or end of
    /// input follows it, what starts here is read as a query instead.
    fn parse_data_modifying_statement(&mut self) -> (r: Result<Statement, Error>)
        requires
            old(self).wf(),
        ensures
            final(self).wf(),
            same_input(final(self)@, old(self)@),
            (match r {
                Ok(s) => Ok(statement_view(s)),
                Err(e) => Err(e@),
            }, final(self)@.pos) == data_modifying_step(old(self)@.input, old(self)@.pos),
    {
        proof {
            self.lemma_valid();
        }
        let start = self.position();
        let k = self.peek_kind();
        let s = if k == TokenKind::SetKeyword {
            match self.parse_set_statement() {
                Ok(x) => Statement::SetStatement(x),
                Err(e) => return Err(e),
            }
        } else if k == TokenKind::Remove {
            match self.parse_remove_statement() {
                Ok(x) => Statement::Remove(x),
                Err(e) => return Err(e),
            }
        } else {
            match self.parse_delete_statement() {
                Ok(x) => Statement::Delete(x),
                Err(e) => return Err(e),
            }
        };
        let next = self.peek_kind();
        if next == TokenKind::Semicolon || next == TokenKind::Next || next == TokenKind::RBrace || next == TokenKind::Eof {
            return Ok(s);
        }
        self.rewind(start);
        match self.parse_query_statement() {
            Ok(q) => Ok(Statement::Query(q)),
            Err(e) => Err(e),
        }
    }

    /// Reads what follows `SESSION SET`: `SCHEMA` and a schema reference, `TIME ZONE` and a
    /// character string or an expression, or `VALUE` and a value parameter. Graph and binding
    /// table targets are refused.
    fn parse_session_set(&mut self) -> (r: Result<SessionSetCommand, Error>)
        requires
            old(self).wf(),
        ensures
            final(self).wf(),
            same_input(final(self)@, old(self)@),
            (match r {
                Ok(c) => Ok(session_set_view(c)),
                Err(e) => Err(e@),
            }, final(self)@.pos) == session_set_step(old(self)@.input, old(self)@.pos),
    {
        proof {
            self.lemma_valid();
        }
        let k = self.peek_kind();
        if k == TokenKind::Schema {
            self.bump();
            return match self.parse_schema_reference() {
                Ok(s) => Ok(SessionSetCommand { target: SessionSetTarget::Schema(s) }),
                Err(e) => Err(e),
            };
        }
        if k == TokenKind::Graph || k == TokenKind::Property {
            self.bump();
            if k == TokenKind::Property {
                if let Err(e) = self.expect(TokenKind::Graph) {
                    return Err(e);
                }
            }
            if self.starts_session_graph_parameter() {
                return self.parse_session_graph_parameter(k == TokenKind::Property);
            }
            return match self.parse_graph_expression() {
                Ok(g) => Ok(SessionSetCommand { target: SessionSetTarget::Graph(g) }),
                Err(e) => Err(e),
            };
        }
        if k == TokenKind::Binding || k == TokenKind::Table {
            let binding = k == TokenKind::Binding;
            if binding {
                self.bump();
            }
            if let Err(e) = self.expect(TokenKind::Table) {
                return Err(e);
            }
            return self.parse_session_binding_table_parameter(binding);
        }
        if k == TokenKind::Time {
            self.bump();
            if let Err(e) = self.expect(TokenKind::Zone) {
                return Err(e);
            }
            if self.is_character_string_token(self.peek_kind()) {
                let t = self.bump();
                return Ok(SessionSetCommand { target: SessionSetTarget::TimeZone(Expr::Literal(Literal::String(t.text))) });
            }
            return match self.parse_expr() {
                Ok(x) => Ok(SessionSetCommand { target: SessionSetTarget::TimeZone(x) }),
                Err(e) => Err(e),
            };
        }
        if k == TokenKind::Value {
            self.bump();
            return self.parse_session_value_parameter();
        }
        let expected = vec![
            TokenKind::Schema,
            TokenKind::Graph,
            TokenKind::Property,
            TokenKind::Binding,
            TokenKind::Table,
            TokenKind::Time,
            TokenKind::Value,
        ];
        assert(expected@ =~= seq![
            TokenKind::Schema,
            TokenKind::Graph,
            TokenKind::Property,
            TokenKind::Binding,
            TokenKind::Table,
            TokenKind::Time,
            TokenKind::Value,
        ]);
        Err(self.error_expected(expected, k))
    }

    /// Reads a graph expression: `VARIABLE` and an expression, an expression in parentheses
    /// or on a parameter's property, a parameter, `CURRENT_GRAPH`, `CURRENT_PROPERTY_GRAPH`,
    /// `HOME_GRAPH`, `HOME_PROPERTY_GRAPH`, another expression that cannot name a graph, or
    /// a graph name.
    pub fn parse_graph_expression(&mut self) -> (r: Result<GraphExpression, Error>)
        requires
            old(self).wf(),
        ensures
            final(self).wf(),
            same_input(final(self)@, old(self)@),
            (match r {
                Ok(g) => Ok(graph_expression_view(g)),
                Err(e) => Err(e@),
            }, final(self)@.pos) == graph_expression_step(old(self)@.input, old(self)@.pos),
    {
        proof {
            self.lemma_valid();
        }
        let k = self.peek_kind();
        if k == TokenKind::Variable {
            self.bump();
            return match self.parse_expr() {
                Ok(x) => Ok(GraphExpression::Variable(Box::new(x))),
                Err(e) => Err(e),
            };
        }
        if k == TokenKind::LParen || self.starts_parameter_property_reference() {
            return match self.parse_expr() {
                Ok(x) => Ok(GraphExpression::Variable(Box::new(x))),
                Err(e) => Err(e),
            };
        }
        if k == TokenKind::Parameter {
            let t = self.bump();
            return Ok(GraphExpression::Parameter(trim_dollar_prefix(&t.text)));
        }
        if k == TokenKind::CurrentGraph {
            self.bump();
            return Ok(GraphExpression::CurrentGraph);
        }
        if k == TokenKind::CurrentPropertyGraph {
            self.bump();
            return Ok(GraphExpression::CurrentPropertyGraph);
        }
        if k == TokenKind::HomeGraph {
            self.bump();
            return Ok(GraphExpression::HomeGraph);
        }
        if k == TokenKind::HomePropertyGraph {
            self.bump();
            return Ok(GraphExpression::HomePropertyGraph);
        }
        if self.starts_object_expression_primary_special_case(k) {
            return match self.parse_expr() {
                Ok(x) => Ok(GraphExpression::Variable(Box::new(x))),
                Err(e) => Err(e),
            };
        }
        match self.parse_graph_name() {
            Ok(n) => Ok(GraphExpression::Name(n)),
            Err(e) => Err(e),
        }
    }

    /// Reads a session graph parameter: an optional `IF NOT EXISTS`, a name, an optional
    /// type, `=` and a graph expression.
    fn parse_session_graph_parameter(&mut self, property_graph: bool) -> (r: Result<SessionSetCommand, Error>)
        requires
            old(self).wf(),
        ensures
            final(self).wf(),
            same_input(final(self)@, old(self)@),
            (match r {
                Ok(c) => Ok(session_set_view(c)),
                Err(e) => Err(e@),
            }, final(self)@.pos) == session_graph_parameter_step(old(self)@.input, old(self)@.pos, property_graph),
    {
        let if_not_exists = match self.parse_if_not_exists() {
            Ok(b) => b,
            Err(e) => return Err(e),
        };
        let name = match self.parse_parameter_name() {
            Ok(n) => n,
            Err(e) => return Err(e),
        };
        let (typed, value_type) = match self.parse_optional_definition_value_type() {
            Ok(t) => t,
            Err(e) => return Err(e),
        };
        if let Err(e) = self.expect(TokenKind::Eq) {
            return Err(e);
        }
        let initializer = match self.parse_graph_expression() {
            Ok(g) => g,
            Err(e) => return Err(e),
        };
        Ok(SessionSetCommand {
            target: SessionSetTarget::GraphParameter(
                SessionSetGraphParameter { property_graph, if_not_exists, name, typed, value_type, initializer },
            ),
        })
    }

    /// Reads a binding table expression: a nested query is refused; `VARIABLE` and an
    /// expression, an expression in parentheses or on a parameter's property, a parameter,
    /// another expression that cannot name a binding table, or a binding table name.
    pub fn parse_binding_table_expression(&mut self) -> (r: Result<BindingTableExpression, Error>)
        requires
            old(self).wf(),
        ensures
            final(self).wf(),
            same_input(final(self)@, old(self)@),
            (match r {
                Ok(b) => Ok(binding_table_expression_view(b)),
                Err(e) => Err(e@),
            }, final(self)@.pos) == binding_table_expression_step(old(self)@.input, old(self)@.pos),
    {
        proof {
            self.lemma_valid();
        }
        let k = self.peek_kind();
        if k == TokenKind::LBrace {
            return Err(Error::Message {
                offset: self.peek().offset,
                message: "statement form is not supported by this parser".to_owned(),
            });
        }
        if k == TokenKind::Variable {
            self.bump();
            return match self.parse_expr() {
                Ok(x) => Ok(BindingTableExpression::Variable(Box::new(x))),
                Err(e) => Err(e),
            };
        }
        if k == TokenKind::LParen || self.starts_parameter_property_reference() {
            return match self.parse_expr() {
                Ok(x) => Ok(BindingTableExpression::Variable(Box::new(x))),
                Err(e) => Err(e),
            };
        }
        if k == TokenKind::Parameter {
            let t = self.bump();
            return Ok(BindingTableExpression::Parameter(trim_dollar_prefix(&t.text)));
        }
        if self.starts_object_expression_primary_special_case(k) {
            return match self.parse_expr() {
                Ok(x) => Ok(BindingTableExpression::Variable(Box::new(x))),
                Err(e) => Err(e),
            };
        }
        match self.parse_binding_table_name() {
            Ok(n) => Ok(BindingTableExpression::Name(n)),
            Err(e) => Err(e),
        }
    }

    /// Reads a session binding table parameter: an optional `IF NOT EXISTS`, a name, an
    /// optional type, `=` and a binding table expression.
    fn parse_session_binding_table_parameter(&mut self, binding: bool) -> (r: Result<SessionSetCommand, Error>)
        requires
            old(self).wf(),
        ensures
            final(self).wf(),
            same_input(final(self)@, old(self)@),
            (match r {
                Ok(c) => Ok(session_set_view(c)),
                Err(e) => Err(e@),
            }, final(self)@.pos) == session_binding_table_parameter_step(old(self)@.input, old(self)@.pos, binding),
    {
        let if_not_exists = match self.parse_if_not_exists() {
            Ok(b) => b,
            Err(e) => return Err(e),
        };
        let name = match self.parse_parameter_name() {
            Ok(n) => n,
            Err(e) => return Err(e),
        };
        let (typed, value_type) = match self.parse_optional_definition_value_type() {
            Ok(t) => t,
            Err(e) => return Err(e),
        };
        if let Err(e) = self.expect(TokenKind::Eq) {
            return Err(e);
        }
        let initializer = match self.parse_binding_table_expression() {
            Ok(b) => b,
            Err(e) => return Err(e),
        };
        Ok(SessionSetCommand {
            target: SessionSetTarget::BindingTableParameter(
                SessionSetBindingTableParameter { binding, if_not_exists, name, typed, value_type, initializer },
            ),
        })
    }

    /// Whether a session graph parameter that a whole statement ends after is next; the
    /// parser stays where it is.
    fn starts_session_graph_parameter(&mut self) -> (r: bool)
        requires
            old(self).wf(),
        ensures
            final(self).wf(),
            same_input(final(self)@, old(self)@),
            final(self)@.pos == old(self)@.pos,
            r == starts_session_graph_parameter(old(self)@.input, old(self)@.pos),
    {
        proof {
            self.lemma_valid();
        }
        let start = self.position();
        let ok = match self.parse_session_graph_parameter(false) {
            Ok(_) => {
                let k = self.peek_kind();
                k == TokenKind::Semicolon || k == TokenKind::Next || k == TokenKind::RBrace || k == TokenKind::Eof
            },
            Err(_) => false,
        };
        self.rewind(start);
        ok
    }

    /// Reads a session value parameter: an optional `IF NOT EXISTS`, a name, an optional
    /// type, `=` and an expression.
    fn parse_session_value_parameter(&mut self) -> (r: Result<SessionSetCommand, Error>)
        requires
            old(self).wf(),
        ensures
            final(self).wf(),
            same_input(final(self)@, old(self)@),
            (match r {
                Ok(c) => Ok(session_set_view(c)),
                Err(e) => Err(e@),
            }, final(self)@.pos) == session_value_parameter_step(old(self)@.input, old(self)@.pos),
    {
        let if_not_exists = match self.parse_if_not_exists() {
            Ok(b) => b,
            Err(e) => return Err(e),
        };
        let name = match self.parse_parameter_name() {
            Ok(n) => n,
            Err(e) => return Err(e),
        };
        let (typed, value_type) = if self.at(TokenKind::Eq) {
            (false, None)
        } else {
            let typed = match self.parse_optional_typed_marker() {
                Ok(b) => b,
                Err(e) => return Err(e),
            };
            match self.parse_value_type() {
                Ok(t) => (typed, Some(t)),
                Err(e) => return Err(e),
            }
        };
        if let Err(e) = self.expect(TokenKind::Eq) {
            return Err(e);
        }
        let initializer = match self.parse_expr() {
            Ok(x) => x,
            Err(e) => return Err(e),
        };
        Ok(SessionSetCommand {
            target: SessionSetTarget::ValueParameter(
                SessionSetValueParameter { if_not_exists, name, typed, value_type, initializer },
            ),
        })
    }

    /// Reads `NEXT` statements, each with an optional `YIELD` clause, after those in `stmts`.
    fn parse_next_statements(&mut self, stmts: &mut Vec<Statement>) -> (r: Result<(), Error>)
        requires
            old(self).wf(),
        ensures
            final(self).wf(),
            same_input(final(self)@, old(self)@),
            (match r {
                Ok(_) => Ok(final(stmts)@.map_values(|s: Statement| statement_view(s))),
                Err(e) => Err(e@),
            }, final(self)@.pos) == next_rest(
                old(self)@.input,
                old(self)@.pos,
                old(stmts)@.map_values(|s: Statement| statement_view(s)),
            ),
        decreases old(self)@.input.tokens.len() - old(self)@.pos,
    {
        proof {
            self.lemma_valid();
        }
        if !self.at(TokenKind::Next) {
            return Ok(());
        }
        let start = self.position();
        self.bump();
        let yield_clause = if self.at(TokenKind::Yield) {
            self.bump();
            match self.parse_yield_clause_body(true) {
                Ok(c) => Some(c),
                Err(e) => return Err(e),
            }
        } else {
            None
        };
        let s = match self.parse_statement() {
            Ok(s) => s,
            Err(e) => return Err(e),
        };
        let n = Statement::Next(NextStatement { yield_clause, statement: Box::new(s) });
        let ghost nv = statement_view(n);
        let ghost before = stmts@;
        stmts.push(n);
        proof {
            assert(stmts@.map_values(|x: Statement| statement_view(x)) =~= before.map_values(
                |x: Statement| statement_view(x),
            ).push(nv));
            self.lemma_valid();
        }
        if start < self.position() {
            self.parse_next_statements(stmts)
        } else {
            Ok(())
        }
    }

    /// Reads a statement: `START TRANSACTION`, `COMMIT`, `ROLLBACK`, `SESSION SET`,
    /// `SESSION RESET`, `SESSION CLOSE`, `DROP` statements, or a query. Procedure calls,
    /// `CREATE` and the data-modifying statements are refused.
    #[verifier::rlimit(80)]
    #[verifier::spinoff_prover]
    pub fn parse_statement(&mut self) -> (r: Result<Statement, Error>)
        requires
            old(self).wf(),
        ensures
            final(self).wf(),
            same_input(final(self)@, old(self)@),
            (match r {
                Ok(s) => Ok(statement_view(s)),
                Err(e) => Err(e@),
            }, final(self)@.pos) == statement_step(old(self)@.input, old(self)@.pos),
    {
        let k = self.peek_kind();
        if k == TokenKind::Start {
            return match self.parse_start_transaction_statement() {
                Ok(t) => Ok(Statement::StartTransaction(t)),
                Err(e) => Err(e),
            };
        }
        if k == TokenKind::Commit {
            return match self.parse_commit_statement() {
                Ok(c) => Ok(Statement::Commit(c)),
                Err(e) => Err(e),
            };
        }
        if k == TokenKind::Rollback {
            return match self.parse_rollback_statement() {
                Ok(c) => Ok(Statement::Rollback(c)),
                Err(e) => Err(e),
            };
        }
        if k == TokenKind::Session {
            self.bump();
            let k2 = self.peek_kind();
            if k2 == TokenKind::Reset {
                return match self.parse_session_reset_command() {
                    Ok(c) => Ok(Statement::SessionReset(c)),
                    Err(e) => Err(e),
                };
            }
            if k2 == TokenKind::Close {
                self.bump();
                return Ok(Statement::SessionClose(SessionCloseCommand));
            }
            if k2 == TokenKind::SetKeyword {
                self.bump();
                return match self.parse_session_set() {
                    Ok(c) => Ok(Statement::SessionSet(c)),
                    Err(e) => Err(e),
                };
            }
            let expected = vec![TokenKind::SetKeyword, TokenKind::Reset, TokenKind::Close];
            assert(expected@ =~= seq![TokenKind::SetKeyword, TokenKind::Reset, TokenKind::Close]);
            return Err(self.error_expected(expected, k2));
        }
        let query = matches!(
            k,
            TokenKind::At | TokenKind::Use | TokenKind::Match | TokenKind::Filter | TokenKind::Let | TokenKind::For
                | TokenKind::Order | TokenKind::Offset | TokenKind::Skip | TokenKind::Limit | TokenKind::LBrace
                | TokenKind::Return | TokenKind::Select | TokenKind::Finish
        ) || (k == TokenKind::Optional && self.peek_n_kind(1) != Some(TokenKind::Call));
        assert(query == starts_query(self@.input, self@.pos));
        if query {
            return match self.parse_query_statement() {
                Ok(q) => Ok(Statement::Query(q)),
                Err(e) => Err(e),
            };
        }
        if k == TokenKind::Delete || k == TokenKind::Detach || k == TokenKind::Nodetach || k == TokenKind::SetKeyword
            || k == TokenKind::Remove {
            return self.parse_data_modifying_statement();
        }
        if k == TokenKind::Drop {
            return self.parse_catalog_statement();
        }
        if opens_other_statement(k) {
            return Err(Error::Message {
                offset: self.peek().offset,
                message: "statement form is not supported by this parser".to_owned(),
            });
        }
        Err(self.error_expected(statement_start_kinds(), k))
    }

    /// Reads `DROP` statements one after the other: one is returned as itself, more as a
    /// sequence of catalog statements. `CREATE` and procedure calls among them are refused.
    fn parse_catalog_statement(&mut self) -> (r: Result<Statement, Error>)
        requires
            old(self).wf(),
        ensures
            final(self).wf(),
            same_input(final(self)@, old(self)@),
            (match r {
                Ok(s) => Ok(statement_view(s)),
                Err(e) => Err(e@),
            }, final(self)@.pos) == catalog_statement_step(old(self)@.input, old(self)@.pos),
    {
        proof {
            self.lemma_valid();
        }
        let start = self.position();
        let d = match self.parse_drop_statement() {
            Ok(d) => d,
            Err(e) => return Err(e),
        };
        proof {
            self.lemma_valid();
        }
        let first = drop_statement(d);
        let mut stmts: Vec<Statement> = Vec::new();
        stmts.push(first);
        proof {
            assert(stmts@.map_values(|x: Statement| simple_statement_view(x)) =~= seq![statement_view(first)]);
        }
        if start < self.position() {
            if let Err(e) = self.parse_catalog_rest(&mut stmts) {
                return Err(e);
            }
        }
        proof {
            assert(stmts@.map_values(|x: Statement| simple_statement_view(x)).len() == stmts@.len());
        }
        if stmts.len() == 1 {
            let ghost all = stmts@;
            let only = stmts.pop().unwrap();
            proof {
                assert(only == all[0]);
                assert(is_drop(only));
            }
            proof {
                assert(stmts@.map_values(|x: Statement| simple_statement_view(x)).len() == 0);
            }
            return Ok(only);
        }
        Ok(Statement::LinearCatalog(stmts))
    }

    /// Reads more catalog statements after those in `stmts`.
    fn parse_catalog_rest(&mut self, stmts: &mut Vec<Statement>) -> (r: Result<(), Error>)
        requires
            old(self).wf(),
            forall|i: int| 0 <= i < old(stmts)@.len() ==> is_drop(#[trigger] old(stmts)@[i]),
        ensures
            forall|i: int| 0 <= i < final(stmts)@.len() ==> is_drop(#[trigger] final(stmts)@[i]),
            final(self).wf(),
            same_input(final(self)@, old(self)@),
            (match r {
                Ok(_) => Ok(final(stmts)@.map_values(|x: Statement| simple_statement_view(x))),
                Err(e) => Err(e@),
            }, final(self)@.pos) == catalog_rest(
                old(self)@.input,
                old(self)@.pos,
                old(stmts)@.map_values(|x: Statement| simple_statement_view(x)),
            ),
        decreases old(self)@.input.tokens.len() - old(self)@.pos,
    {
        proof {
            self.lemma_valid();
        }
        if !self.starts_simple_catalog_modifying_statement() {
            return Ok(());
        }
        if !self.at(TokenKind::Drop) {
            return Err(Error::Message {
                offset: self.peek().offset,
                message: "statement form is not supported by this parser".to_owned(),
            });
        }
        let start = self.position();
        let d = match self.parse_drop_statement() {
            Ok(d) => d,
            Err(e) => return Err(e),
        };
        proof {
            self.lemma_valid();
        }
        let s = drop_statement(d);
        let ghost before = stmts@;
        stmts.push(s);
        proof {
            assert(stmts@.map_values(|x: Statement| simple_statement_view(x)) =~= before.map_values(
                |x: Statement| simple_statement_view(x),
            ).push(simple_statement_view(s)));
        }
        if start < self.position() {
            self.parse_catalog_rest(stmts)
        } else {
            Ok(())
        }
    }

    /// Reads a value variable definition: `VALUE`, a name, an optional type, `=` and an
    /// expression.
    fn parse_value_variable_definition(&mut self) -> (r: Result<BindingVariableDefinition, Error>)
        requires
            old(self).wf(),
        ensures
            final(self).wf(),
            same_input(final(self)@, old(self)@),
            (match r {
                Ok(d) => Ok(definition_view(d)),
                Err(e) => Err(e@),
            }, final(self)@.pos) == value_definition_step(old(self)@.input, old(self)@.pos),
            r matches Ok(d) ==> d is Value,
    {
        if let Err(e) = self.expect(TokenKind::Value) {
            return Err(e);
        }
        let name = match self.parse_identifier() {
            Ok(n) => n,
            Err(e) => return Err(e),
        };
        let (typed, value_type) = match self.parse_optional_definition_value_type() {
            Ok(x) => x,
            Err(e) => return Err(e),
        };
        if let Err(e) = self.expect(TokenKind::Eq) {
            return Err(e);
        }
        let initializer = match self.parse_expr() {
            Ok(x) => x,
            Err(e) => return Err(e),
        };
        Ok(BindingVariableDefinition::Value(ValueVariableDefinition { name, typed, value_type, initializer }))
    }

    /// Reads a graph variable definition: `GRAPH` or `PROPERTY GRAPH`, a name, an optional
    /// type, `=` and a graph expression.
    fn parse_graph_variable_definition(&mut self) -> (r: Result<BindingVariableDefinition, Error>)
        requires
            old(self).wf(),
        ensures
            final(self).wf(),
            same_input(final(self)@, old(self)@),
            (match r {
                Ok(d) => Ok(definition_view(d)),
                Err(e) => Err(e@),
            }, final(self)@.pos) == graph_definition_step(old(self)@.input, old(self)@.pos),
    {
        let property_graph = self.at(TokenKind::Property);
        if property_graph {
            self.bump();
        }
        if let Err(e) = self.expect(TokenKind::Graph) {
            return Err(e);
        }
        let name = match self.parse_identifier() {
            Ok(n) => n,
            Err(e) => return Err(e),
        };
        let (typed, value_type) = match self.parse_optional_definition_value_type() {
            Ok(x) => x,
            Err(e) => return Err(e),
        };
        if let Err(e) = self.expect(TokenKind::Eq) {
            return Err(e);
        }
        let initializer = match self.parse_graph_expression() {
            Ok(g) => g,
            Err(e) => return Err(e),
        };
        Ok(BindingVariableDefinition::Graph(GraphVariableDefinition { property_graph, name, typed, value_type, initializer }))
    }

    /// Reads a binding table variable definition: `TABLE` after an optional `BINDING`, a
    /// name, an optional type, `=` and a binding table expression.
    fn parse_binding_table_variable_definition(&mut self) -> (r: Result<BindingVariableDefinition, Error>)
        requires
            old(self).wf(),
        ensures
            final(self).wf(),
            same_input(final(self)@, old(self)@),
            (match r {
                Ok(d) => Ok(definition_view(d)),
                Err(e) => Err(e@),
            }, final(self)@.pos) == binding_table_definition_step(old(self)@.input, old(self)@.pos),
    {
        let binding = self.at(TokenKind::Binding);
        if binding {
            self.bump();
        }
        if let Err(e) = self.expect(TokenKind::Table) {
            return Err(e);
        }
        let name = match self.parse_identifier() {
            Ok(n) => n,
            Err(e) => return Err(e),
        };
        let (typed, value_type) = match self.parse_optional_definition_value_type() {
            Ok(x) => x,
            Err(e) => return Err(e),
        };
        if let Err(e) = self.expect(TokenKind::Eq) {
            return Err(e);
        }
        let initializer = match self.parse_binding_table_expression() {
            Ok(b) => b,
            Err(e) => return Err(e),
        };
        Ok(BindingVariableDefinition::BindingTable(
            BindingTableVariableDefinition { binding, name, typed, value_type, initializer },
        ))
    }

    /// Reads a binding variable definition: of a value, a binding table or a graph.
    fn parse_binding_variable_definition(&mut self) -> (r: Result<BindingVariableDefinition, Error>)
        requires
            old(self).wf(),
        ensures
            final(self).wf(),
            same_input(final(self)@, old(self)@),
            (match r {
                Ok(d) => Ok(definition_view(d)),
                Err(e) => Err(e@),
            }, final(self)@.pos) == definition_step(old(self)@.input, old(self)@.pos),
    {
        let k = self.peek_kind();
        if k == TokenKind::Value {
            self.parse_value_variable_definition()
        } else if k == TokenKind::Binding || k == TokenKind::Table {
            self.parse_binding_table_variable_definition()
        } else {
            self.parse_graph_variable_definition()
        }
    }

    /// Reads binding variable definitions, each followed by any semicolons, after those in
    /// `defs`.
    fn parse_definitions(&mut self, defs: &mut Vec<BindingVariableDefinition>) -> (r: Result<(), Error>)
        requires
            old(self).wf(),
        ensures
            final(self).wf(),
            same_input(final(self)@, old(self)@),
            (match r {
                Ok(_) => Ok(final(defs)@.map_values(|d: BindingVariableDefinition| definition_view(d))),
                Err(e) => Err(e@),
            }, final(self)@.pos) == definitions_rest(
                old(self)@.input,
                old(self)@.pos,
                old(defs)@.map_values(|d: BindingVariableDefinition| definition_view(d)),
            ),
        decreases old(self)@.input.tokens.len() - old(self)@.pos,
    {
        proof {
            self.lemma_valid();
        }
        if !self.starts_binding_variable_definition() {
            return Ok(());
        }
        let start = self.position();
        let offset = self.peek().offset;
        let d = match self.parse_binding_variable_definition() {
            Ok(d) => d,
            Err(e) => return Err(e),
        };
        let name = definition_name_of(&d);
        if has_definition_named(defs, name) {
            let mut m = chars_of("duplicate binding variable '");
            push_str(&mut m, name.value.as_str());
            push_str(&mut m, "'");
            return Err(Error::Message { offset, message: string_from_chars(&m) });
        }
        let ghost before = defs@;
        defs.push(d);
        proof {
            assert(defs@.map_values(|x: BindingVariableDefinition| definition_view(x)) =~= before.map_values(
                |x: BindingVariableDefinition| definition_view(x),
            ).push(definition_view(d)));
        }
        self.eat_many(TokenKind::Semicolon);
        proof {
            self.lemma_valid();
        }
        if start < self.position() {
            self.parse_definitions(defs)
        } else {
            Ok(())
        }
    }

    /// Whether a statement may follow the statement `s` here without a semicolon.
    fn continues_after(&self, s: &Statement) -> (r: bool)
        requires
            self.wf(),
        ensures
            r == continues_without_semicolon(statement_view(*s), self@.input, self@.pos),
    {
        let k = self.peek_kind();
        match s {
            Statement::StartTransaction(_) => opens_other_statement(k) || self.starts_session_close_command(),
            Statement::Commit(_) | Statement::Rollback(_) => self.starts_session_close_command(),
            Statement::DropGraph(_) | Statement::DropGraphType(_) | Statement::DropSchema(_)
            | Statement::LinearCatalog(_) | Statement::Query(_) | Statement::Delete(_) | Statement::SetStatement(_)
            | Statement::Remove(_) => k == TokenKind::Commit || k == TokenKind::Rollback
                || self.starts_session_close_command(),
            Statement::SessionReset(_) | Statement::SessionSet(_) => self.starts_session_activity_command()
                || self.starts_session_close_command(),
            _ => false,
        }
    }

    /// Reads statements up to the end of the input, after those in `stmts`.
    fn parse_statements(&mut self, stmts: &mut Vec<Statement>) -> (r: Result<(), Error>)
        requires
            old(self).wf(),
        ensures
            final(self).wf(),
            same_input(final(self)@, old(self)@),
            (match r {
                Ok(_) => Ok(final(stmts)@.map_values(|s: Statement| statement_view(s))),
                Err(e) => Err(e@),
            }, final(self)@.pos) == statements_rest(
                old(self)@.input,
                old(self)@.pos,
                old(stmts)@.map_values(|s: Statement| statement_view(s)),
            ),
        decreases old(self)@.input.tokens.len() - old(self)@.pos,
    {
        proof {
            self.lemma_valid();
        }
        if self.at(TokenKind::Eof) {
            return Ok(());
        }
        let start = self.position();
        let s = match self.parse_statement() {
            Ok(s) => s,
            Err(e) => return Err(e),
        };
        proof {
            self.lemma_valid();
        }
        let ghost sv = statement_view(s);
        let can_continue = self.continues_after(&s);
        let ghost before = stmts@;
        stmts.push(s);
        proof {
            assert(stmts@.map_values(|x: Statement| statement_view(x)) =~= before.map_values(
                |x: Statement| statement_view(x),
            ).push(sv));
        }
        if let Err(e) = self.parse_next_statements(stmts) {
            return Err(e);
        }
        proof {
            self.lemma_valid();
        }
        let k = self.peek_kind();
        if k != TokenKind::Semicolon && k != TokenKind::Eof {
            if can_continue {
                if start < self.position() {
                    return self.parse_statements(stmts);
                }
                return Ok(());
            }
            let expected = vec![TokenKind::Semicolon, TokenKind::Eof];
            assert(expected@ =~= seq![TokenKind::Semicolon, TokenKind::Eof]);
            return Err(self.error_expected(expected, k));
        }
        self.eat_many(TokenKind::Semicolon);
        proof {
            self.lemma_valid();
        }
        if start < self.position() {
            self.parse_statements(stmts)
        } else {
            Ok(())
        }
    }

    /// Reads a program from the current token to the end of the input: an optional
    /// `AT SCHEMA` clause that binding variable definitions follow, semicolons, value
    /// variable definitions, and statements, each ended by semicolons or by a statement that
    /// may follow it directly. A program over input on which the lexer stopped with an
    /// error is refused with that error.
    pub fn parse_program(self) -> (r: Result<Program, Error>)
        requires
            self.wf(),
        ensures
            program_result_view(r) == program_result(self@.input, self@.pos),
    {
        let mut p = self;
        let ghost v = p@.input;
        let ghost p0 = p@.pos;
        let at_schema = match p.parse_optional_program_at_schema_clause() {
            Ok(a) => a,
            Err(e) => return Err(e),
        };
        p.eat_many(TokenKind::Semicolon);
        let mut definitions: Vec<BindingVariableDefinition> = Vec::new();
        proof {
            assert(definitions@.map_values(|d: BindingVariableDefinition| definition_view(d)) =~= Seq::<
                DefinitionView,
            >::empty());
        }
        if let Err(e) = p.parse_definitions(&mut definitions) {
            return Err(e);
        }
        let mut statements: Vec<Statement> = Vec::new();
        proof {
            assert(statements@.map_values(|s: Statement| statement_view(s)) =~= Seq::<StatementView>::empty());
        }
        if let Err(e) = p.parse_statements(&mut statements) {
            return Err(e);
        }
        let program = Program { at_schema, definitions, statements };
        proof {
            assert(program_view(program).definitions == definitions@.map_values(
                |d: BindingVariableDefinition| definition_view(d),
            ));
        }
        match p.take_lexer_error() {
            Some(e) => Err(e),
            None => Ok(program),
        }
    }
}

/// Reads the program that `input` holds, as [`Parser::parse_program`] does from its first
/// token.
pub fn parse(input: &str) -> (r: Result<Program, Error>)
    ensures
        program_result_view(r) == program_result(input_of(input@), 0),
{
    Parser::new(input).parse_program()
}

} // verus!
