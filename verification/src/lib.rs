//! The lexer of GQL, the ISO graph query language, and the parts of its recursive-descent
//! parser that read value types, graph types, label expressions, node and relationship
//! patterns, path prefixes and quantifiers, catalog names and references, transaction and
//! session commands, queries, data-modifying statements, `DROP` statements, clause fragments
//! and the expression grammar, each verified against a mathematical grammar; and the syntax
//! tree of whole programs with verified walks over it. [`parse`] reads programs of value, graph and binding table
//! variable definitions, transaction and session statements (`SESSION SET` with a schema, a
//! graph, a time zone or a graph, binding table or value parameter), queries made of `FILTER`, `LET`, `FOR`, `ORDER BY`,
//! `OFFSET`, `LIMIT` and result clauses joined by set operators, `NEXT` statements, `DELETE`,
//! `SET` and `REMOVE` statements, and `DROP` statements. `MATCH` and path patterns, `USE`,
//! nested queries, procedure calls, `INSERT` and `CREATE`
//! are refused with an error that says so. Expressions are read with their full precedence
//! and most of their forms, searched `CASE` among them; simple `CASE`, subqueries, `LET`,
//! `SAME`, `ALL_DIFFERENT`, graph and binding table references, byte strings, intervals and
//! the datetime constructors are refused.

pub mod ast;
pub mod syntax;
pub mod expr_walk;
pub mod procedure_body;
pub mod chars;
pub mod text;
pub mod token;
pub mod error;
pub mod grammar;
pub mod kinds;
pub mod lexer;
pub mod parser;
pub mod type_grammar;
pub mod type_parser;
pub mod clause_grammar;
pub mod clause_parser;
pub mod functions;
pub mod lookahead;
pub mod catalog;
pub mod fragments;
pub mod laws;
pub mod lexer_laws;
pub mod expr_grammar;
pub mod expr_parser;
pub mod clones;
pub mod query_grammar;
pub mod query_parser;
pub mod pattern_grammar;
pub mod pattern_parser;
pub mod modify_grammar;
pub mod modify_parser;
pub mod reading_laws;
pub mod spelling_laws;
pub mod program_grammar;
pub mod program_parser;
pub use crate::program_parser::parse;
