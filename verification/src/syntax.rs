use vstd::prelude::*;
use crate::ast::{
    BinaryOp, BindingTableName, CommitStatement, CreateSchemaStatement, DateTimeFunctionKind, Direction, DropGraphStatement, DropGraphTypeStatement, DropSchemaStatement, ForOrdinalityOrOffset, GraphName, GraphTypeBody, GraphTypeName, GraphTypeReference, Identifier, LabelExpression, ListValueTypeName, MatchMode, NullOrdering, NumericFunctionKind, PathPatternAlternation, PathPatternPrefix, PathPatternQuantifier, ProcedureReference, QuerySetOperator, ResultKind, RollbackStatement, SchemaReference, SessionCloseCommand, SessionResetCommand, SetQuantifier, SortDirection, SourceDestinationKind, SqlIntervalQualifier, StartTransactionStatement, StringLengthUnit, SubstringSide, TrimSpec, UnaryOp, UnsignedIntegerSpecification, ValueType, YieldClause,
};

verus! {

#[derive(Debug, PartialEq, Eq)]
pub struct Program {
    pub at_schema: Option<SchemaReference>,
    pub definitions: Vec<BindingVariableDefinition>,
    pub statements: Vec<Statement>,
}

#[derive(Debug, PartialEq, Eq)]
pub enum BindingVariableDefinition {
    Graph(GraphVariableDefinition),
    BindingTable(BindingTableVariableDefinition),
    Value(ValueVariableDefinition),
}

#[derive(Debug, PartialEq, Eq)]
pub struct GraphVariableDefinition {
    pub property_graph: bool,
    pub name: Identifier,
    pub typed: bool,
    pub value_type: Option<ValueType>,
    pub initializer: GraphExpression,
}

#[derive(Debug, PartialEq, Eq)]
pub struct BindingTableVariableDefinition {
    pub binding: bool,
    pub name: Identifier,
    pub typed: bool,
    pub value_type: Option<ValueType>,
    pub initializer: BindingTableExpression,
}

#[derive(Debug, PartialEq, Eq)]
pub struct ValueVariableDefinition {
    pub name: Identifier,
    pub typed: bool,
    pub value_type: Option<ValueType>,
    pub initializer: Expr,
}

#[derive(Debug, PartialEq, Eq)]
pub enum Statement {
    LinearCatalog(Vec<Statement>),
    Query(QueryStatement),
    Call(CallStatement),
    Next(NextStatement),
    Insert(InsertStatement),
    Delete(DeleteStatement),
    SetStatement(SetStatement),
    Remove(RemoveStatement),
    CreateGraph(CreateGraphStatement),
    DropGraph(DropGraphStatement),
    CreateGraphType(CreateGraphTypeStatement),
    DropGraphType(DropGraphTypeStatement),
    CreateSchema(CreateSchemaStatement),
    DropSchema(DropSchemaStatement),
    SessionSet(SessionSetCommand),
    SessionReset(SessionResetCommand),
    SessionClose(SessionCloseCommand),
    StartTransaction(StartTransactionStatement),
    Commit(CommitStatement),
    Rollback(RollbackStatement),
}

#[derive(Debug, PartialEq, Eq)]
pub struct NextStatement {
    pub yield_clause: Option<YieldClause>,
    pub statement: Box<Statement>,
}

#[derive(Debug, PartialEq, Eq)]
pub struct QueryStatement {
    pub at_schema: Option<SchemaReference>,
    pub use_graph: Option<GraphExpression>,
    pub body: QueryBody,
    pub set_operations: Vec<QuerySetOperation>,
}

#[derive(Debug, PartialEq, Eq)]
pub struct QueryBody {
    pub clauses: Vec<QueryClause>,
    pub result_clause: ResultClause,
    pub select_from: Vec<SelectGraphMatch>,
    pub select_query: Option<SelectQuerySpecification>,
    pub select_where: Option<Expr>,
    pub group_by: Vec<Expr>,
    pub empty_grouping_set: bool,
    pub having: Option<Expr>,
    pub order_by: Vec<OrderByItem>,
    pub offset: Option<UnsignedIntegerSpecification>,
    pub limit: Option<UnsignedIntegerSpecification>,
}

#[derive(Debug, PartialEq, Eq)]
pub struct QuerySetOperation {
    pub operator: QuerySetOperator,
    pub quantifier: Option<SetQuantifier>,
    pub body: QueryBody,
}

#[derive(Debug, PartialEq, Eq)]
pub enum QueryClause {
    UseGraph(GraphExpression),
    NestedQuery(Box<QueryStatement>),
    Match(MatchClause),
    OptionalMatchBlock(Vec<MatchClause>),
    Filter(FilterClause),
    Let(LetClause),
    For(ForClause),
    Call(CallClause),
    Insert(InsertStatement),
    Delete(DeleteStatement),
    SetStatement(SetStatement),
    Remove(RemoveStatement),
    OrderByPage(OrderByPageClause),
}

#[derive(Debug, PartialEq, Eq)]
pub struct SelectGraphMatch {
    pub graph: GraphExpression,
    pub match_clause: MatchClause,
}

#[derive(Debug, PartialEq, Eq)]
pub struct SelectQuerySpecification {
    pub graph: Option<GraphExpression>,
    pub query: Box<QueryStatement>,
}

#[derive(Debug, PartialEq, Eq)]
pub struct MatchClause {
    pub optional: bool,
    pub mode: Option<MatchMode>,
    pub patterns: Vec<PathPattern>,
    pub keep: Option<PathPatternPrefix>,
    pub where_clause: Option<Expr>,
    pub yield_clause: Option<YieldClause>,
}

#[derive(Debug, PartialEq, Eq)]
pub struct FilterClause {
    pub predicate: Expr,
}

#[derive(Debug, PartialEq, Eq)]
pub struct LetClause {
    pub items: Vec<LetItem>,
}

#[derive(Debug, PartialEq, Eq)]
pub struct LetItem {
    pub name: Identifier,
    pub typed: bool,
    pub value_type: Option<ValueType>,
    pub value: Expr,
}

#[derive(Debug, PartialEq, Eq)]
pub struct ForClause {
    pub variable: Identifier,
    pub source: Expr,
    pub ordinality_or_offset: Option<ForOrdinalityOrOffset>,
}

#[derive(Debug, PartialEq, Eq)]
pub struct CallClause {
    pub optional: bool,
    pub call: ProcedureCall,
    pub yield_clause: Option<YieldClause>,
}

#[derive(Debug, PartialEq, Eq)]
pub enum ProcedureCall {
    Named {
        procedure: ProcedureReference,
        args: Vec<Expr>,
    },
    Inline(InlineProcedureCall),
}

#[derive(Debug, PartialEq, Eq)]
pub struct InlineProcedureCall {
    pub variable_scope: Option<Vec<Identifier>>,
    pub body: Box<Program>,
}

#[derive(Debug, PartialEq, Eq)]
pub struct OrderByPageClause {
    pub order_by: Vec<OrderByItem>,
    pub offset: Option<UnsignedIntegerSpecification>,
    pub limit: Option<UnsignedIntegerSpecification>,
}

#[derive(Debug, PartialEq, Eq)]
pub struct CallStatement {
    pub call: CallClause,
}

#[derive(Debug, PartialEq, Eq)]
pub struct ResultClause {
    pub kind: ResultKind,
    pub quantifier: Option<SetQuantifier>,
    pub distinct: bool,
    pub items: Vec<ResultItem>,
}

#[derive(Debug, PartialEq, Eq)]
pub struct ResultItem {
    pub expr: Expr,
    pub alias: Option<Identifier>,
}

#[derive(Debug, PartialEq, Eq)]
pub struct OrderByItem {
    pub expr: Expr,
    pub direction: Option<SortDirection>,
    pub null_ordering: Option<NullOrdering>,
}

#[derive(Debug, PartialEq, Eq)]
pub struct InsertStatement {
    pub patterns: Vec<PathPattern>,
}

#[derive(Debug, PartialEq, Eq)]
pub struct DeleteStatement {
    pub detach: bool,
    pub items: Vec<Expr>,
}

#[derive(Debug, PartialEq, Eq)]
pub struct SetStatement {
    pub items: Vec<SetItem>,
}

#[derive(Debug, PartialEq, Eq)]
pub enum SetItem {
    Property {
        target: Expr,
        value: Expr,
    },
    AllProperties {
        variable: Identifier,
        properties: MapLiteral,
    },
    Label {
        variable: Identifier,
        label: Identifier,
    },
}

#[derive(Debug, PartialEq, Eq)]
pub struct RemoveStatement {
    pub items: Vec<RemoveItem>,
}

#[derive(Debug, PartialEq, Eq)]
pub enum RemoveItem {
    Property(Expr),
    Label {
        variable: Identifier,
        label: Identifier,
    },
}

#[derive(Debug, PartialEq, Eq)]
pub struct SessionSetCommand {
    pub target: SessionSetTarget,
}

#[derive(Debug, PartialEq, Eq)]
pub enum SessionSetTarget {
    Schema(SchemaReference),
    Graph(GraphExpression),
    TimeZone(Expr),
    GraphParameter(SessionSetGraphParameter),
    BindingTableParameter(SessionSetBindingTableParameter),
    ValueParameter(SessionSetValueParameter),
}

#[derive(Debug, PartialEq, Eq)]
pub struct SessionSetGraphParameter {
    pub property_graph: bool,
    pub if_not_exists: bool,
    pub name: String,
    pub typed: bool,
    pub value_type: Option<ValueType>,
    pub initializer: GraphExpression,
}

#[derive(Debug, PartialEq, Eq)]
pub struct SessionSetBindingTableParameter {
    pub binding: bool,
    pub if_not_exists: bool,
    pub name: String,
    pub typed: bool,
    pub value_type: Option<ValueType>,
    pub initializer: BindingTableExpression,
}

#[derive(Debug, PartialEq, Eq)]
pub struct SessionSetValueParameter {
    pub if_not_exists: bool,
    pub name: String,
    pub typed: bool,
    pub value_type: Option<ValueType>,
    pub initializer: Expr,
}

#[derive(Debug, PartialEq, Eq)]
pub struct CreateGraphStatement {
    pub if_not_exists: bool,
    pub or_replace: bool,
    pub property_graph: bool,
    pub name: GraphName,
    pub graph_type: Option<CreateGraphType>,
    pub source: Option<GraphExpression>,
}

#[derive(Debug, PartialEq, Eq)]
pub struct CreateGraphTypeStatement {
    pub if_not_exists: bool,
    pub or_replace: bool,
    pub property_graph: bool,
    pub name: GraphTypeName,
    pub source: CreateGraphTypeSource,
}

#[derive(Debug, PartialEq, Eq)]
pub enum CreateGraphType {
    Any {
        typed: bool,
        property_graph: bool,
    },
    Like(GraphExpression),
    Named {
        typed: bool,
        name: GraphTypeReference,
    },
    Nested {
        typed: bool,
        property_graph: bool,
        body: GraphTypeBody,
    },
}

#[derive(Debug, PartialEq, Eq)]
pub enum CreateGraphTypeSource {
    CopyOf(GraphTypeReference),
    CopyOfExternal(String),
    Like(GraphExpression),
    Nested(GraphTypeBody),
}

#[derive(Debug, PartialEq, Eq)]
pub enum GraphExpression {
    Variable(Box<Expr>),
    Name(GraphName),
    Parameter(String),
    CurrentGraph,
    CurrentPropertyGraph,
    HomeGraph,
    HomePropertyGraph,
}

#[derive(Debug, PartialEq, Eq)]
pub enum BindingTableExpression {
    NestedQuery(Box<QueryStatement>),
    Variable(Box<Expr>),
    Name(BindingTableName),
    Parameter(String),
}

#[derive(Debug, PartialEq, Eq)]
pub struct PathPattern {
    pub variable: Option<Identifier>,
    pub prefix: Option<PathPatternPrefix>,
    pub parenthesized: Option<ParenthesizedPathPatternExpression>,
    pub start: NodePattern,
    pub chains: Vec<PathPatternChain>,
    pub factors: Vec<PathPatternFactor>,
    pub alternation: Option<PathPatternAlternation>,
    pub alternatives: Vec<PathPatternTerm>,
}

#[derive(Debug, PartialEq, Eq)]
pub struct ParenthesizedPathPatternExpression {
    pub variable: Option<Identifier>,
    pub prefix: Option<PathPatternPrefix>,
    pub pattern: Box<PathPattern>,
    pub where_clause: Option<Expr>,
    pub quantifier: Option<PathPatternQuantifier>,
    pub questioned: bool,
}

#[derive(Debug, PartialEq, Eq)]
pub struct PathPatternTerm {
    pub start: NodePattern,
    pub chains: Vec<PathPatternChain>,
    pub factors: Vec<PathPatternFactor>,
}

#[derive(Debug, PartialEq, Eq)]
pub enum PathPatternFactor {
    Node(NodePattern),
    Relationship(RelationshipPattern),
    Parenthesized(Box<ParenthesizedPathPatternExpression>),
    Alternation {
        alternation: PathPatternAlternation,
        alternatives: Vec<Vec<PathPatternFactor>>,
    },
}

#[derive(Debug, PartialEq, Eq)]
pub struct PathPatternChain {
    pub relationship: RelationshipPattern,
    pub node: NodePattern,
}

#[derive(Debug, PartialEq, Eq)]
pub struct NodePattern {
    pub variable: Option<Identifier>,
    pub temporary: bool,
    pub labels: Vec<Identifier>,
    pub label_expression: Option<LabelExpression>,
    pub properties: Option<MapLiteral>,
    pub where_clause: Option<Expr>,
    pub quantifier: Option<PathPatternQuantifier>,
}

#[derive(Debug, PartialEq, Eq)]
pub struct RelationshipPattern {
    pub direction: Direction,
    pub variable: Option<Identifier>,
    pub temporary: bool,
    pub labels: Vec<Identifier>,
    pub label_expression: Option<LabelExpression>,
    pub properties: Option<MapLiteral>,
    pub where_clause: Option<Expr>,
    pub quantifier: Option<PathPatternQuantifier>,
}

#[derive(Debug, PartialEq, Eq)]
pub enum Expr {
    Identifier(Identifier),
    Property {
        base: Box<Expr>,
        key: Identifier,
    },
    GraphReference {
        property_graph: bool,
        graph: GraphExpression,
    },
    BindingTableReference {
        binding: bool,
        table: BindingTableExpression,
    },
    Parameter(String),
    Literal(Literal),
    Unary {
        op: UnaryOp,
        expr: Box<Expr>,
    },
    Binary {
        left: Box<Expr>,
        op: BinaryOp,
        right: Box<Expr>,
    },
    Function {
        name: Identifier,
        quantifier: Option<SetQuantifier>,
        args: Vec<Expr>,
    },
    SubstringByLength {
        side: SubstringSide,
        value: Box<Expr>,
        length: Box<Expr>,
    },
    Trim {
        specification: Option<TrimSpec>,
        trim_character: Option<Box<Expr>>,
        value: Box<Expr>,
    },
    MultiTrim {
        specification: TrimSpec,
        value: Box<Expr>,
        trim_characters: Option<Box<Expr>>,
    },
    TrimList {
        value: Box<Expr>,
        count: Box<Expr>,
    },
    Elements {
        path: Box<Expr>,
    },
    StringLength {
        unit: StringLengthUnit,
        value: Box<Expr>,
    },
    Fold {
        upper: bool,
        value: Box<Expr>,
    },
    Normalize {
        value: Box<Expr>,
        normal_form: Option<Identifier>,
    },
    CurrentDate,
    CurrentTime {
        precision: Option<u64>,
    },
    CurrentTimestamp {
        precision: Option<u64>,
    },
    CurrentUser,
    DateTimeFunction {
        function: DateTimeFunctionKind,
        value: Option<Box<Expr>>,
    },
    LocalTime {
        precision: Option<u64>,
    },
    LocalTimestamp {
        precision: Option<u64>,
    },
    AbsoluteValue {
        expr: Box<Expr>,
    },
    DurationFunction {
        value: Box<Expr>,
    },
    DurationBetween {
        left: Box<Expr>,
        right: Box<Expr>,
    },
    NumericFunction {
        function: NumericFunctionKind,
        args: Vec<Expr>,
    },
    Cast {
        expr: Box<Expr>,
        value_type: ValueType,
    },
    ValueQuery {
        query: Box<QueryStatement>,
    },
    Let {
        items: Vec<LetItem>,
        value: Box<Expr>,
    },
    IsTyped {
        expr: Box<Expr>,
        negated: bool,
        value_type: ValueType,
    },
    IsNull {
        expr: Box<Expr>,
        negated: bool,
    },
    IsUnknown {
        expr: Box<Expr>,
        negated: bool,
    },
    IsTruth {
        expr: Box<Expr>,
        negated: bool,
        value: bool,
    },
    PropertyExists {
        variable: Identifier,
        property: Identifier,
    },
    ElementId {
        variable: Identifier,
    },
    Exists {
        patterns: Vec<PathPattern>,
    },
    ExistsQuery {
        query: Box<QueryStatement>,
    },
    ExistsMatch {
        matches: Vec<MatchClause>,
    },
    Same {
        variables: Vec<Identifier>,
    },
    AllDifferent {
        variables: Vec<Identifier>,
    },
    SourceDestination {
        node: Identifier,
        negated: bool,
        kind: SourceDestinationKind,
        edge: Identifier,
    },
    IsNormalized {
        expr: Box<Expr>,
        negated: bool,
        normal_form: Option<Identifier>,
    },
    IsDirected {
        variable: Identifier,
        negated: bool,
    },
    IsLabeled {
        variable: Identifier,
        negated: bool,
        label_expression: LabelExpression,
    },
    Case {
        operand: Option<Box<Expr>>,
        when_clauses: Vec<CaseWhenClause>,
        else_expr: Option<Box<Expr>>,
    },
    Coalesce(Vec<Expr>),
    NullIf {
        left: Box<Expr>,
        right: Box<Expr>,
    },
    List(Vec<Expr>),
    TypedList {
        list_type: ListValueTypeName,
        values: Vec<Expr>,
    },
    Path(Vec<Expr>),
    Record {
        explicit: bool,
        fields: MapLiteral,
    },
    MapConstructor(MapLiteral),
    Wildcard,
}

#[derive(Debug, PartialEq, Eq)]
pub struct CaseWhenClause {
    pub condition: Expr,
    pub additional_operands: Vec<Expr>,
    pub result: Expr,
}

#[derive(Debug, PartialEq, Eq)]
pub struct MapLiteral {
    pub entries: Vec<(Identifier, Expr)>,
}

#[derive(Debug, PartialEq, Eq)]
pub enum Literal {
    Null,
    Boolean(bool),
    Unknown,
    Integer(i64),
    /// A decimal number, by the digits of its literal (`e` for the exponent, no
    /// underscores or suffix).
    Decimal(String),
    String(String),
    Bytes(Vec<u8>),
    Date(String),
    Time(String),
    DateTime(String),
    Duration(String),
    SqlInterval {
        value: String,
        qualifier: SqlIntervalQualifier,
    },
}

} // verus!
