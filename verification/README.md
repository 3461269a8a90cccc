# gql_parser

The lexer of GQL, the ISO graph query language, and the parts of its parser that read
value types, graph types, label expressions, node and relationship patterns, path prefixes
and quantifiers, catalog names and references, transaction and session commands, queries,
data-modifying statements, `DROP` statements, clause fragments and the expression grammar,
written in Verus. Every executable function carries a contract, and Verus proves that the
code meets it.

The abstract syntax tree of whole programs (`syntax.rs`) is here, with verified walks over
it. `parse` reads a program: an optional `AT SCHEMA` clause, value, graph and binding table variable definitions,
the transaction and session statements (`START TRANSACTION`, `COMMIT`, `ROLLBACK`,
`SESSION SET` with a schema, a graph, a time zone or a graph, binding table or value parameter, `SESSION RESET`,
`SESSION CLOSE`), queries, `NEXT` statements with their `YIELD` clauses, the `DELETE`,
`SET` (with its rules against conflicting assignments) and `REMOVE` statements, and `DROP`
statements. A query is read with its `FILTER`, `LET`, `FOR`, `ORDER BY`, `OFFSET` and
`LIMIT` clauses, its `RETURN`, `SELECT` or `FINISH` result clause with `GROUP BY` and
`HAVING`, and the checks on wildcards, grouping, aliases and duplicate outputs; queries are
joined by `UNION`, `EXCEPT`, `INTERSECT` and `OTHERWISE`. Node and relationship patterns
are read on their own (`Parser::parse_node_pattern`, `Parser::parse_relationship_pattern`).
`MATCH` and whole path patterns, `USE`, nested queries, procedure calls, `INSERT`,
and `CREATE` are refused with an error that says so. Expressions are parsed with their full
operator precedence, `IS` predicates, label tests, literals, parameters, variables,
property references, lists, typed lists, records, path values, aggregate function calls,
searched `CASE`, `CAST`, `COALESCE`, `NULLIF`, typed string literals, `ELEMENT_ID`,
`PROPERTY_EXISTS`, `ABS`, the numeric functions, `UPPER`, `LOWER`, the string lengths,
`ELEMENTS`, `LEFT`, `RIGHT`, `NORMALIZE`, the `TRIM` functions, `DURATION_BETWEEN` and the
clocks `CURRENT_TIME`, `CURRENT_TIMESTAMP` and `LOCAL_TIMESTAMP`; every other form that
opens with a keyword of its own (simple `CASE`, value and `EXISTS` subqueries, `LET`,
`SAME`, `ALL_DIFFERENT`, graph and binding table references, byte strings, `INTERVAL`,
`DURATION` and the datetime constructors) is refused with an error that says so.

The mathematical model is a grammar of spec functions over the token sequence: each
parsing step is a function from an input and a position to a result (a value or an
error) and the position where reading stopped. Each parsing method of `Parser`
promises that it computes exactly that step.

Layout of `src/`:

- `chars.rs`, `text.rs`: characters, UTF-8 byte offsets, case-insensitive comparison.
- `token.rs`: token kinds, keyword lookup, token views.
- `lexer.rs`: the lexer and its grammar (`lex_next`, and `lex_from` for a whole input).
- `error.rs`: errors and their messages.
- `parser.rs`, `grammar.rs`, `kinds.rs`: the parser's state, token-level steps, catalog
  names and references, transactions, session resets, path prefixes and quantifiers,
  label expressions.
- `type_grammar.rs`, `type_parser.rs`: value types, graph types and their validation.
- `clause_grammar.rs`, `clause_parser.rs`: match modes, yield clauses, variable scopes,
  simplified path delimiters, interval qualifiers and other clause parts.
- `lookahead.rs`: the predicates that decide which construct starts at a position.
- `catalog.rs`: `DROP` statements.
- `functions.rs`: function names.
- `syntax.rs`: the tree of programs, statements, queries, patterns and expressions.
- `expr_walk.rs`, `procedure_body.rs`: which variables an expression refers to, whether
  it holds an aggregate, whether a tree holds an inline procedure body.
- `expr_grammar.rs`, `expr_parser.rs`: expressions.
- `query_grammar.rs`, `query_parser.rs`: queries, their clauses and result clauses.
- `pattern_grammar.rs`, `pattern_parser.rs`: node and relationship patterns.
- `modify_grammar.rs`, `modify_parser.rs`: `DELETE`, `SET` and `REMOVE` statements.
- `program_grammar.rs`, `program_parser.rs`: programs and statements, and `parse`.
- `clones.rs`: copies of value types and graph types.
- `fragments.rs`: query conjunctions, definition types, simplified relationship bodies,
  and the rules for the variables of inserted elements.
- `laws.rs`, `lexer_laws.rs`: properties of the library as a whole, proved over the
  grammar.

`app/main.rs` is a small program that parses the GQL files named on its command line and
reports the first error of each.
