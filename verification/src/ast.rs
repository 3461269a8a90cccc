use vstd::prelude::*;

verus! {

#[derive(Clone, Copy, Debug, PartialEq, Eq, Structural)]
pub enum QuerySetOperator {
    Union,
    Except,
    Intersect,
    Otherwise,
}

#[derive(Clone, Copy, Debug, PartialEq, Eq, Structural)]
pub enum SetQuantifier {
    Distinct,
    All,
}

#[derive(Clone, Copy, Debug, PartialEq, Eq, Structural)]
pub enum MatchMode {
    RepeatableElements { bindings: bool },
    DifferentEdges { bindings: bool },
}

#[derive(Clone, Debug, PartialEq, Eq)]
pub struct ForOrdinalityOrOffset {
    pub kind: ForOrdinalityOrOffsetKind,
    pub variable: Identifier,
}

#[derive(Clone, Copy, Debug, PartialEq, Eq, Structural)]
pub enum ForOrdinalityOrOffsetKind {
    Ordinality,
    Offset,
}

#[derive(Clone, Debug, PartialEq, Eq)]
pub enum ProcedureReference {
    Name(ProcedureName),
    Parameter(String),
}

#[derive(Clone, Debug, PartialEq, Eq)]
pub struct YieldClause {
    pub items: Vec<YieldItem>,
}

#[derive(Clone, Debug, PartialEq, Eq)]
pub enum YieldItem {
    All,
    Item {
        name: Identifier,
        alias: Option<Identifier>,
    },
}

#[derive(Clone, Copy, Debug, PartialEq, Eq, Structural)]
pub enum ResultKind {
    Return,
    Select,
    Finish,
}

#[derive(Clone, Copy, Debug, PartialEq, Eq, Structural)]
pub enum SortDirection {
    Asc,
    Desc,
}

#[derive(Clone, Copy, Debug, PartialEq, Eq, Structural)]
pub enum NullOrdering {
    First,
    Last,
}

#[derive(Clone, Debug, PartialEq, Eq)]
pub struct SessionResetCommand {
    pub target: SessionResetTarget,
}

#[derive(Clone, Debug, PartialEq, Eq)]
pub enum SessionResetTarget {
    AllCharacteristics,
    AllParameters,
    Schema,
    Graph,
    TimeZone,
    Parameter(String),
}

#[derive(Clone, Debug, PartialEq, Eq, Structural)]
pub struct SessionCloseCommand;

#[derive(Clone, Debug, PartialEq, Eq)]
pub struct DropGraphStatement {
    pub if_exists: bool,
    pub property_graph: bool,
    pub name: GraphName,
}

#[derive(Clone, Debug, PartialEq, Eq)]
pub struct DropGraphTypeStatement {
    pub if_exists: bool,
    pub property_graph: bool,
    pub name: GraphTypeName,
}

#[derive(Clone, Debug, PartialEq, Eq)]
pub struct CreateSchemaStatement {
    pub if_not_exists: bool,
    pub name: SchemaName,
}

#[derive(Clone, Debug, PartialEq, Eq)]
pub struct DropSchemaStatement {
    pub if_exists: bool,
    pub name: SchemaName,
}

#[derive(Clone, Debug, PartialEq, Eq, Structural)]
pub struct StartTransactionStatement {
    pub access_mode: Option<TransactionAccessMode>,
    pub isolation_level: Option<IsolationLevel>,
}

#[derive(Clone, Copy, Debug, PartialEq, Eq, Structural)]
pub enum TransactionAccessMode {
    ReadOnly,
    ReadWrite,
}

#[derive(Clone, Copy, Debug, PartialEq, Eq, Structural)]
pub enum IsolationLevel {
    Serializable,
    RepeatableRead,
    ReadCommitted,
    ReadUncommitted,
}

#[derive(Clone, Debug, PartialEq, Eq, Structural)]
pub struct CommitStatement;

#[derive(Clone, Debug, PartialEq, Eq, Structural)]
pub struct RollbackStatement;

#[derive(Clone, Debug, PartialEq, Eq)]
pub struct GraphName {
    pub absolute: bool,
    pub current_schema: bool,
    pub home_schema: bool,
    pub parent_levels: usize,
    pub parts: Vec<Identifier>,
}

#[derive(Clone, Debug, PartialEq, Eq)]
pub struct BindingTableName {
    pub absolute: bool,
    pub current_schema: bool,
    pub home_schema: bool,
    pub parent_levels: usize,
    pub parts: Vec<Identifier>,
}

#[derive(Clone, Debug, PartialEq, Eq)]
pub struct GraphTypeName {
    pub absolute: bool,
    pub current_schema: bool,
    pub home_schema: bool,
    pub parent_levels: usize,
    pub parts: Vec<Identifier>,
}

#[derive(Clone, Debug, PartialEq, Eq)]
pub enum GraphTypeReference {
    Name(GraphTypeName),
    Parameter(String),
}

#[derive(Clone, Debug, PartialEq, Eq)]
pub struct SchemaName {
    pub absolute: bool,
    pub current_schema: bool,
    pub home_schema: bool,
    pub parent_levels: usize,
    pub parts: Vec<Identifier>,
}

#[derive(Clone, Debug, PartialEq, Eq)]
pub enum SchemaReference {
    Name(SchemaName),
    Absolute(SchemaName),
    Root,
    Parent { levels: usize, name: SchemaName },
    Parameter(String),
    CurrentSchema,
    HomeSchema,
}

#[derive(Clone, Debug, PartialEq, Eq)]
pub struct ProcedureName {
    pub absolute: bool,
    pub current_schema: bool,
    pub home_schema: bool,
    pub parent_levels: usize,
    pub parts: Vec<Identifier>,
}

#[derive(Clone, Copy, Debug, PartialEq, Eq, Structural)]
pub enum PathPatternAlternation {
    Union,
    MultisetAlternation,
}

#[derive(Clone, Debug, PartialEq, Eq)]
pub enum PathPatternPrefix {
    Mode {
        mode: PathMode,
        path_or_paths: Option<PathOrPaths>,
    },
    Search(PathSearchPrefix),
}

#[derive(Clone, Copy, Debug, PartialEq, Eq, Structural)]
pub enum PathMode {
    Walk,
    Trail,
    Simple,
    Acyclic,
}

#[derive(Clone, Copy, Debug, PartialEq, Eq, Structural)]
pub enum PathOrPaths {
    Path,
    Paths,
}

#[derive(Clone, Debug, PartialEq, Eq)]
pub enum PathSearchPrefix {
    All {
        mode: Option<PathMode>,
        path_or_paths: Option<PathOrPaths>,
    },
    Any {
        count: Option<UnsignedIntegerSpecification>,
        mode: Option<PathMode>,
        path_or_paths: Option<PathOrPaths>,
    },
    Shortest {
        mode: Option<PathMode>,
        path_or_paths: Option<PathOrPaths>,
    },
    AllShortest {
        mode: Option<PathMode>,
        path_or_paths: Option<PathOrPaths>,
    },
    AnyShortest {
        mode: Option<PathMode>,
        path_or_paths: Option<PathOrPaths>,
    },
    CountedShortest {
        count: UnsignedIntegerSpecification,
        mode: Option<PathMode>,
        path_or_paths: Option<PathOrPaths>,
    },
    CountedShortestGroup {
        count: Option<UnsignedIntegerSpecification>,
        mode: Option<PathMode>,
        path_or_paths: Option<PathOrPaths>,
        groups: bool,
    },
}

#[derive(Clone, Debug, PartialEq, Eq)]
pub enum UnsignedIntegerSpecification {
    Literal(u64),
    Parameter(String),
}

#[derive(Clone, Copy, Debug, PartialEq, Eq, Structural)]
pub enum Direction {
    Left,
    Right,
    Undirected,
    LeftOrUndirected,
    UndirectedOrRight,
    LeftOrRight,
    Any,
}

#[derive(Debug, PartialEq, Eq)]
pub enum LabelExpression {
    Label(Identifier),
    Wildcard,
    And(Box<LabelExpression>, Box<LabelExpression>),
    Or(Box<LabelExpression>, Box<LabelExpression>),
    Not(Box<LabelExpression>),
    Parenthesized(Box<LabelExpression>),
}

#[derive(Clone, Debug, PartialEq, Eq, Structural)]
pub enum PathPatternQuantifier {
    ZeroOrMore,
    OneOrMore,
    Optional,
    Fixed(u64),
    Range { min: Option<u64>, max: Option<u64> },
}

#[derive(Debug, PartialEq, Eq)]
pub struct GraphTypeBody {
    pub elements: Vec<GraphTypeElement>,
}

#[derive(Debug, PartialEq, Eq)]
pub enum GraphTypeElement {
    Node(NodeTypeDefinition),
    Edge(EdgeTypeDefinition),
}

#[derive(Debug, PartialEq, Eq)]
pub struct NodeTypeDefinition {
    pub name: Identifier,
    pub labels: Vec<Identifier>,
    pub properties: Vec<PropertyTypeDefinition>,
}

#[derive(Debug, PartialEq, Eq)]
pub struct EdgeTypeDefinition {
    pub name: Identifier,
    pub direction: Direction,
    pub labels: Vec<Identifier>,
    pub source: Option<Identifier>,
    pub destination: Option<Identifier>,
    pub properties: Vec<PropertyTypeDefinition>,
}

#[derive(Debug, PartialEq, Eq)]
pub struct PropertyTypeDefinition {
    pub name: Identifier,
    pub value_type: ValueType,
}

#[derive(Debug, PartialEq, Eq)]
pub enum ValueType {
    Named {
        name: Identifier,
        parameters: Vec<u64>,
    },
    CharacterString {
        kind: CharacterStringTypeKind,
        max_length: Option<u64>,
    },
    Boolean {
        kind: BooleanTypeKind,
    },
    Temporal {
        kind: TemporalTypeKind,
    },
    ByteString {
        kind: ByteStringTypeKind,
        min_length: Option<u64>,
        max_length: Option<u64>,
    },
    ExactNumeric {
        kind: ExactNumericTypeKind,
        signed: Option<bool>,
        precision: Option<u64>,
        scale: Option<u64>,
    },
    ApproximateNumeric {
        kind: ApproximateNumericTypeKind,
        precision: Option<u64>,
        scale: Option<u64>,
    },
    List(Box<ValueType>),
    ListWithLength {
        element: Box<ValueType>,
        max_length: u64,
    },
    Array(Box<ValueType>),
    ArrayWithLength {
        element: Box<ValueType>,
        max_length: u64,
    },
    Path,
    AnyRecord,
    Record(Vec<FieldType>),
    AnyDynamic,
    PropertyValue,
    DynamicUnion(Vec<ValueType>),
    GraphReference {
        property_graph: bool,
        body: Option<GraphTypeBody>,
    },
    NodeReference {
        definition: Option<NodeTypeDefinition>,
    },
    EdgeReference {
        definition: Option<EdgeTypeDefinition>,
    },
    BindingTable {
        binding: bool,
        fields: Vec<FieldType>,
    },
    NotNull(Box<ValueType>),
}

#[derive(Clone, Copy, Debug, PartialEq, Eq, Structural)]
pub enum CharacterStringTypeKind {
    String,
    Varchar,
}

#[derive(Clone, Copy, Debug, PartialEq, Eq, Structural)]
pub enum BooleanTypeKind {
    Bool,
    Boolean,
}

#[derive(Clone, Copy, Debug, PartialEq, Eq, Structural)]
pub enum TemporalTypeKind {
    ZonedDateTime,
    LocalDateTime,
    Date,
    ZonedTime,
    LocalTime,
    Duration,
}

#[derive(Clone, Copy, Debug, PartialEq, Eq, Structural)]
pub enum ByteStringTypeKind {
    Bytes,
    Binary,
    Varbinary,
}

#[derive(Clone, Copy, Debug, PartialEq, Eq, Structural)]
pub enum ExactNumericTypeKind {
    Decimal,
    Integer,
}

#[derive(Clone, Copy, Debug, PartialEq, Eq, Structural)]
pub enum ApproximateNumericTypeKind {
    Float,
    Real,
    Double,
}

#[derive(Debug, PartialEq, Eq)]
pub struct FieldType {
    pub name: Identifier,
    pub value_type: ValueType,
}

#[derive(Clone, Copy, Debug, PartialEq, Eq, Structural)]
pub enum TrimSpec {
    Leading,
    Trailing,
    Both,
}

#[derive(Clone, Copy, Debug, PartialEq, Eq, Structural)]
pub enum StringLengthUnit {
    Characters,
    Bytes,
}

#[derive(Clone, Copy, Debug, PartialEq, Eq, Structural)]
pub enum SubstringSide {
    Left,
    Right,
}

#[derive(Clone, Copy, Debug, PartialEq, Eq, Structural)]
pub enum NumericFunctionKind {
    Mod,
    Floor,
    Ceil,
    Sqrt,
    Power,
    Log,
    Log10,
    Ln,
    Exp,
    Sin,
    Cos,
    Tan,
    Cot,
    Sinh,
    Cosh,
    Tanh,
    Asin,
    Acos,
    Atan,
    Degrees,
    Radians,
    PathLength,
}

#[derive(Clone, Copy, Debug, PartialEq, Eq, Structural)]
pub enum DateTimeFunctionKind {
    Date,
    ZonedTime,
    ZonedDateTime,
    LocalTime,
    LocalDateTime,
}

#[derive(Clone, Copy, Debug, PartialEq, Eq, Structural)]
pub enum ListValueTypeName {
    List,
    Array,
}

#[derive(Clone, Copy, Debug, PartialEq, Eq, Structural)]
pub enum SourceDestinationKind {
    Source,
    Destination,
}

#[derive(Clone, Debug, PartialEq, Eq)]
pub struct SqlIntervalQualifier {
    pub start: Identifier,
    pub start_precision: Option<u64>,
    pub end: Option<Identifier>,
    pub end_precision: Option<u64>,
}

#[derive(Clone, Copy, Debug, PartialEq, Eq, Structural)]
pub enum UnaryOp {
    Not,
    Pos,
    Neg,
}

#[derive(Clone, Copy, Debug, PartialEq, Eq, Structural)]
pub enum BinaryOp {
    Or,
    Xor,
    And,
    Eq,
    Neq,
    Lt,
    Le,
    Gt,
    Ge,
    Concat,
    Add,
    Sub,
    Mul,
    Div,
}

#[derive(Debug, PartialEq, Eq, Hash)]
pub struct Identifier {
    pub value: String,
}

impl Identifier {
    pub fn new(value: String) -> (id: Identifier)
        ensures
            id@ == value@,
    {
        Identifier { value }
    }
}

impl Clone for Identifier {
    fn clone(&self) -> (r: Self)
        ensures
            r@ == self@,
    {
        Identifier { value: self.value.clone() }
    }
}

impl View for Identifier {
    type V = Seq<char>;

    open spec fn view(&self) -> Seq<char> {
        self.value@
    }
}


/// The view of each identifier of a sequence.
pub open spec fn identifiers_view(ids: Seq<Identifier>) -> Seq<Seq<char>> {
    ids.map_values(|i: Identifier| i@)
}

/// The mathematical value of a catalog object name: how it is anchored (at the root, at
/// the current or home schema, or some levels up) and its parts.
pub struct CatalogNameView {
    pub absolute: bool,
    pub current_schema: bool,
    pub home_schema: bool,
    pub parent_levels: int,
    pub parts: Seq<Seq<char>>,
}

impl View for GraphName {
    type V = CatalogNameView;

    open spec fn view(&self) -> CatalogNameView {
        CatalogNameView {
            absolute: self.absolute,
            current_schema: self.current_schema,
            home_schema: self.home_schema,
            parent_levels: self.parent_levels as int,
            parts: identifiers_view(self.parts@),
        }
    }
}

impl View for BindingTableName {
    type V = CatalogNameView;

    open spec fn view(&self) -> CatalogNameView {
        CatalogNameView {
            absolute: self.absolute,
            current_schema: self.current_schema,
            home_schema: self.home_schema,
            parent_levels: self.parent_levels as int,
            parts: identifiers_view(self.parts@),
        }
    }
}

impl View for GraphTypeName {
    type V = CatalogNameView;

    open spec fn view(&self) -> CatalogNameView {
        CatalogNameView {
            absolute: self.absolute,
            current_schema: self.current_schema,
            home_schema: self.home_schema,
            parent_levels: self.parent_levels as int,
            parts: identifiers_view(self.parts@),
        }
    }
}

impl View for SchemaName {
    type V = CatalogNameView;

    open spec fn view(&self) -> CatalogNameView {
        CatalogNameView {
            absolute: self.absolute,
            current_schema: self.current_schema,
            home_schema: self.home_schema,
            parent_levels: self.parent_levels as int,
            parts: identifiers_view(self.parts@),
        }
    }
}

impl View for ProcedureName {
    type V = CatalogNameView;

    open spec fn view(&self) -> CatalogNameView {
        CatalogNameView {
            absolute: self.absolute,
            current_schema: self.current_schema,
            home_schema: self.home_schema,
            parent_levels: self.parent_levels as int,
            parts: identifiers_view(self.parts@),
        }
    }
}

/// The mathematical value of a [`SchemaReference`].
pub enum SchemaReferenceView {
    Name(CatalogNameView),
    Absolute(CatalogNameView),
    Root,
    Parent { levels: int, name: CatalogNameView },
    Parameter(Seq<char>),
    CurrentSchema,
    HomeSchema,
}

impl View for SchemaReference {
    type V = SchemaReferenceView;

    open spec fn view(&self) -> SchemaReferenceView {
        match self {
            SchemaReference::Name(n) => SchemaReferenceView::Name(n@),
            SchemaReference::Absolute(n) => SchemaReferenceView::Absolute(n@),
            SchemaReference::Root => SchemaReferenceView::Root,
            SchemaReference::Parent { levels, name } => SchemaReferenceView::Parent {
                levels: *levels as int,
                name: name@,
            },
            SchemaReference::Parameter(s) => SchemaReferenceView::Parameter(s@),
            SchemaReference::CurrentSchema => SchemaReferenceView::CurrentSchema,
            SchemaReference::HomeSchema => SchemaReferenceView::HomeSchema,
        }
    }
}

/// The mathematical value of a reference by name or by parameter.
pub enum ReferenceView {
    Name(CatalogNameView),
    Parameter(Seq<char>),
}

impl View for GraphTypeReference {
    type V = ReferenceView;

    open spec fn view(&self) -> ReferenceView {
        match self {
            GraphTypeReference::Name(n) => ReferenceView::Name(n@),
            GraphTypeReference::Parameter(s) => ReferenceView::Parameter(s@),
        }
    }
}

impl View for ProcedureReference {
    type V = ReferenceView;

    open spec fn view(&self) -> ReferenceView {
        match self {
            ProcedureReference::Name(n) => ReferenceView::Name(n@),
            ProcedureReference::Parameter(s) => ReferenceView::Parameter(s@),
        }
    }
}

/// The mathematical value of a [`SessionResetTarget`].
pub enum SessionResetTargetView {
    AllCharacteristics,
    AllParameters,
    Schema,
    Graph,
    TimeZone,
    Parameter(Seq<char>),
}

impl View for SessionResetTarget {
    type V = SessionResetTargetView;

    open spec fn view(&self) -> SessionResetTargetView {
        match self {
            SessionResetTarget::AllCharacteristics => SessionResetTargetView::AllCharacteristics,
            SessionResetTarget::AllParameters => SessionResetTargetView::AllParameters,
            SessionResetTarget::Schema => SessionResetTargetView::Schema,
            SessionResetTarget::Graph => SessionResetTargetView::Graph,
            SessionResetTarget::TimeZone => SessionResetTargetView::TimeZone,
            SessionResetTarget::Parameter(s) => SessionResetTargetView::Parameter(s@),
        }
    }
}

impl View for SessionResetCommand {
    type V = SessionResetTargetView;

    open spec fn view(&self) -> SessionResetTargetView {
        self.target@
    }
}


/// The mathematical value of an [`UnsignedIntegerSpecification`].
pub enum UnsignedIntegerSpecificationView {
    Literal(u64),
    Parameter(Seq<char>),
}

impl View for UnsignedIntegerSpecification {
    type V = UnsignedIntegerSpecificationView;

    open spec fn view(&self) -> UnsignedIntegerSpecificationView {
        match self {
            UnsignedIntegerSpecification::Literal(n) => UnsignedIntegerSpecificationView::Literal(*n),
            UnsignedIntegerSpecification::Parameter(s) => UnsignedIntegerSpecificationView::Parameter(
                s@,
            ),
        }
    }
}

/// The mathematical value of an optional [`UnsignedIntegerSpecification`].
pub open spec fn count_view(c: Option<UnsignedIntegerSpecification>) -> Option<UnsignedIntegerSpecificationView> {
    match c {
        Some(n) => Some(n@),
        None => None,
    }
}

/// The mathematical value of a [`PathSearchPrefix`].
pub enum PathSearchPrefixView {
    All { mode: Option<PathMode>, path_or_paths: Option<PathOrPaths> },
    Any {
        count: Option<UnsignedIntegerSpecificationView>,
        mode: Option<PathMode>,
        path_or_paths: Option<PathOrPaths>,
    },
    Shortest { mode: Option<PathMode>, path_or_paths: Option<PathOrPaths> },
    AllShortest { mode: Option<PathMode>, path_or_paths: Option<PathOrPaths> },
    AnyShortest { mode: Option<PathMode>, path_or_paths: Option<PathOrPaths> },
    CountedShortest {
        count: UnsignedIntegerSpecificationView,
        mode: Option<PathMode>,
        path_or_paths: Option<PathOrPaths>,
    },
    CountedShortestGroup {
        count: Option<UnsignedIntegerSpecificationView>,
        mode: Option<PathMode>,
        path_or_paths: Option<PathOrPaths>,
        groups: bool,
    },
}

impl View for PathSearchPrefix {
    type V = PathSearchPrefixView;

    open spec fn view(&self) -> PathSearchPrefixView {
        match self {
            PathSearchPrefix::All { mode, path_or_paths } => PathSearchPrefixView::All {
                mode: *mode,
                path_or_paths: *path_or_paths,
            },
            PathSearchPrefix::Any { count, mode, path_or_paths } => PathSearchPrefixView::Any {
                count: count_view(*count),
                mode: *mode,
                path_or_paths: *path_or_paths,
            },
            PathSearchPrefix::Shortest { mode, path_or_paths } => PathSearchPrefixView::Shortest {
                mode: *mode,
                path_or_paths: *path_or_paths,
            },
            PathSearchPrefix::AllShortest { mode, path_or_paths } => PathSearchPrefixView::AllShortest {
                mode: *mode,
                path_or_paths: *path_or_paths,
            },
            PathSearchPrefix::AnyShortest { mode, path_or_paths } => PathSearchPrefixView::AnyShortest {
                mode: *mode,
                path_or_paths: *path_or_paths,
            },
            PathSearchPrefix::CountedShortest { count, mode, path_or_paths } =>
                PathSearchPrefixView::CountedShortest {
                    count: count@,
                    mode: *mode,
                    path_or_paths: *path_or_paths,
                },
            PathSearchPrefix::CountedShortestGroup { count, mode, path_or_paths, groups } =>
                PathSearchPrefixView::CountedShortestGroup {
                    count: count_view(*count),
                    mode: *mode,
                    path_or_paths: *path_or_paths,
                    groups: *groups,
                },
        }
    }
}

/// The mathematical value of a [`PathPatternPrefix`].
pub enum PathPatternPrefixView {
    Mode { mode: PathMode, path_or_paths: Option<PathOrPaths> },
    Search(PathSearchPrefixView),
}

impl View for PathPatternPrefix {
    type V = PathPatternPrefixView;

    open spec fn view(&self) -> PathPatternPrefixView {
        match self {
            PathPatternPrefix::Mode { mode, path_or_paths } => PathPatternPrefixView::Mode {
                mode: *mode,
                path_or_paths: *path_or_paths,
            },
            PathPatternPrefix::Search(search) => PathPatternPrefixView::Search(search@),
        }
    }
}

/// The mathematical value of an optional [`PathPatternPrefix`].
pub open spec fn prefix_view(p: Option<PathPatternPrefix>) -> Option<PathPatternPrefixView> {
    match p {
        Some(x) => Some(x@),
        None => None,
    }
}

/// The mathematical value of a [`LabelExpression`].
pub enum LabelExpressionView {
    Label(Seq<char>),
    Wildcard,
    And(Box<LabelExpressionView>, Box<LabelExpressionView>),
    Or(Box<LabelExpressionView>, Box<LabelExpressionView>),
    Not(Box<LabelExpressionView>),
    Parenthesized(Box<LabelExpressionView>),
}

pub open spec fn label_expression_view(e: LabelExpression) -> LabelExpressionView
    decreases e,
{
    match e {
        LabelExpression::Label(i) => LabelExpressionView::Label(i@),
        LabelExpression::Wildcard => LabelExpressionView::Wildcard,
        LabelExpression::And(a, b) => LabelExpressionView::And(
            Box::new(label_expression_view(*a)),
            Box::new(label_expression_view(*b)),
        ),
        LabelExpression::Or(a, b) => LabelExpressionView::Or(
            Box::new(label_expression_view(*a)),
            Box::new(label_expression_view(*b)),
        ),
        LabelExpression::Not(a) => LabelExpressionView::Not(Box::new(label_expression_view(*a))),
        LabelExpression::Parenthesized(a) => LabelExpressionView::Parenthesized(
            Box::new(label_expression_view(*a)),
        ),
    }
}

impl View for LabelExpression {
    type V = LabelExpressionView;

    open spec fn view(&self) -> LabelExpressionView {
        label_expression_view(*self)
    }
}

impl Clone for LabelExpression {
    fn clone(&self) -> (r: Self)
        ensures
            r@ == self@,
        decreases self,
    {
        match self {
            LabelExpression::Label(i) => LabelExpression::Label(i.clone()),
            LabelExpression::Wildcard => LabelExpression::Wildcard,
            LabelExpression::And(a, b) => LabelExpression::And(
                Box::new((**a).clone()),
                Box::new((**b).clone()),
            ),
            LabelExpression::Or(a, b) => LabelExpression::Or(
                Box::new((**a).clone()),
                Box::new((**b).clone()),
            ),
            LabelExpression::Not(a) => LabelExpression::Not(Box::new((**a).clone())),
            LabelExpression::Parenthesized(a) => LabelExpression::Parenthesized(
                Box::new((**a).clone()),
            ),
        }
    }
}

/// The label names of a label expression, from left to right.
pub open spec fn label_names(e: LabelExpressionView) -> Seq<Seq<char>>
    decreases e,
{
    match e {
        LabelExpressionView::Label(name) => seq![name],
        LabelExpressionView::Wildcard => Seq::empty(),
        LabelExpressionView::And(a, b) => label_names(*a) + label_names(*b),
        LabelExpressionView::Or(a, b) => label_names(*a) + label_names(*b),
        LabelExpressionView::Not(a) => label_names(*a),
        LabelExpressionView::Parenthesized(a) => label_names(*a),
    }
}

/// Appends the label names of `expr` to `labels`, from left to right.
pub fn collect_label_names(expr: &LabelExpression, labels: &mut Vec<Identifier>)
    ensures
        identifiers_view(final(labels)@) == identifiers_view(old(labels)@) + label_names(expr@),
    decreases expr,
{
    let ghost before = identifiers_view(labels@);
    match expr {
        LabelExpression::Label(label) => {
            labels.push(label.clone());
            proof {
                assert(identifiers_view(labels@) =~= before + seq![label@]);
            }
        },
        LabelExpression::Wildcard => {
            assert(identifiers_view(labels@) =~= before + Seq::<Seq<char>>::empty());
        },
        LabelExpression::And(left, right) => {
            collect_label_names(left, labels);
            collect_label_names(right, labels);
            assert(before + label_names(left@) + label_names(right@) =~= before + (label_names(
                left@,
            ) + label_names(right@)));
        },
        LabelExpression::Or(left, right) => {
            collect_label_names(left, labels);
            collect_label_names(right, labels);
            assert(before + label_names(left@) + label_names(right@) =~= before + (label_names(
                left@,
            ) + label_names(right@)));
        },
        LabelExpression::Not(inner) => {
            collect_label_names(inner, labels);
        },
        LabelExpression::Parenthesized(inner) => {
            collect_label_names(inner, labels);
        },
    }
}

/// The mathematical value of a [`ValueType`].
pub enum ValueTypeView {
    Named { name: Seq<char>, parameters: Seq<u64> },
    CharacterString { kind: CharacterStringTypeKind, max_length: Option<u64> },
    Boolean { kind: BooleanTypeKind },
    Temporal { kind: TemporalTypeKind },
    ByteString { kind: ByteStringTypeKind, min_length: Option<u64>, max_length: Option<u64> },
    ExactNumeric {
        kind: ExactNumericTypeKind,
        signed: Option<bool>,
        precision: Option<u64>,
        scale: Option<u64>,
    },
    ApproximateNumeric {
        kind: ApproximateNumericTypeKind,
        precision: Option<u64>,
        scale: Option<u64>,
    },
    List(Box<ValueTypeView>),
    ListWithLength { element: Box<ValueTypeView>, max_length: u64 },
    Array(Box<ValueTypeView>),
    ArrayWithLength { element: Box<ValueTypeView>, max_length: u64 },
    Path,
    AnyRecord,
    Record(Seq<FieldTypeView>),
    AnyDynamic,
    PropertyValue,
    DynamicUnion(Seq<ValueTypeView>),
    GraphReference { property_graph: bool, body: Option<GraphTypeBodyView> },
    NodeReference { definition: Option<NodeTypeDefinitionView> },
    EdgeReference { definition: Option<EdgeTypeDefinitionView> },
    BindingTable { binding: bool, fields: Seq<FieldTypeView> },
    NotNull(Box<ValueTypeView>),
}

/// The mathematical value of a [`FieldType`] or a [`PropertyTypeDefinition`]: a name and
/// its value type.
pub struct FieldTypeView {
    pub name: Seq<char>,
    pub value_type: ValueTypeView,
}

/// The mathematical value of a [`GraphTypeBody`].
pub struct GraphTypeBodyView {
    pub elements: Seq<GraphTypeElementView>,
}

/// The mathematical value of a [`GraphTypeElement`].
pub enum GraphTypeElementView {
    Node(NodeTypeDefinitionView),
    Edge(EdgeTypeDefinitionView),
}

/// The mathematical value of a [`NodeTypeDefinition`].
pub struct NodeTypeDefinitionView {
    pub name: Seq<char>,
    pub labels: Seq<Seq<char>>,
    pub properties: Seq<FieldTypeView>,
}

/// The mathematical value of an [`EdgeTypeDefinition`].
pub struct EdgeTypeDefinitionView {
    pub name: Seq<char>,
    pub direction: Direction,
    pub labels: Seq<Seq<char>>,
    pub source: Option<Seq<char>>,
    pub destination: Option<Seq<char>>,
    pub properties: Seq<FieldTypeView>,
}

/// The view of an optional identifier.
pub open spec fn opt_identifier_view(i: Option<Identifier>) -> Option<Seq<char>> {
    match i {
        Some(i) => Some(i@),
        None => None,
    }
}

pub open spec fn value_type_view(t: ValueType) -> ValueTypeView
    decreases t,
{
    match t {
        ValueType::Named { name, parameters } => ValueTypeView::Named {
            name: name@,
            parameters: parameters@,
        },
        ValueType::CharacterString { kind, max_length } => ValueTypeView::CharacterString {
            kind,
            max_length,
        },
        ValueType::Boolean { kind } => ValueTypeView::Boolean { kind },
        ValueType::Temporal { kind } => ValueTypeView::Temporal { kind },
        ValueType::ByteString { kind, min_length, max_length } => ValueTypeView::ByteString {
            kind,
            min_length,
            max_length,
        },
        ValueType::ExactNumeric { kind, signed, precision, scale } => ValueTypeView::ExactNumeric {
            kind,
            signed,
            precision,
            scale,
        },
        ValueType::ApproximateNumeric { kind, precision, scale } => ValueTypeView::ApproximateNumeric {
            kind,
            precision,
            scale,
        },
        ValueType::List(e) => ValueTypeView::List(Box::new(value_type_view(*e))),
        ValueType::ListWithLength { element, max_length } => ValueTypeView::ListWithLength {
            element: Box::new(value_type_view(*element)),
            max_length,
        },
        ValueType::Array(e) => ValueTypeView::Array(Box::new(value_type_view(*e))),
        ValueType::ArrayWithLength { element, max_length } => ValueTypeView::ArrayWithLength {
            element: Box::new(value_type_view(*element)),
            max_length,
        },
        ValueType::Path => ValueTypeView::Path,
        ValueType::AnyRecord => ValueTypeView::AnyRecord,
        ValueType::Record(fields) => ValueTypeView::Record(field_types_view(fields@)),
        ValueType::AnyDynamic => ValueTypeView::AnyDynamic,
        ValueType::PropertyValue => ValueTypeView::PropertyValue,
        ValueType::DynamicUnion(components) => ValueTypeView::DynamicUnion(
            value_types_view(components@),
        ),
        ValueType::GraphReference { property_graph, body } => ValueTypeView::GraphReference {
            property_graph,
            body: match body {
                Some(b) => Some(graph_type_body_view(b)),
                None => None,
            },
        },
        ValueType::NodeReference { definition } => ValueTypeView::NodeReference {
            definition: match definition {
                Some(d) => Some(node_type_view(d)),
                None => None,
            },
        },
        ValueType::EdgeReference { definition } => ValueTypeView::EdgeReference {
            definition: match definition {
                Some(d) => Some(edge_type_view(d)),
                None => None,
            },
        },
        ValueType::BindingTable { binding, fields } => ValueTypeView::BindingTable {
            binding,
            fields: field_types_view(fields@),
        },
        ValueType::NotNull(e) => ValueTypeView::NotNull(Box::new(value_type_view(*e))),
    }
}

#[verifier::opaque]
pub open spec fn value_types_view(s: Seq<ValueType>) -> Seq<ValueTypeView>
    decreases s,
{
    if s.len() == 0 {
        Seq::empty()
    } else {
        value_types_view(s.subrange(0, s.len() - 1)).push(value_type_view(s[s.len() - 1]))
    }
}

#[verifier::opaque]
pub open spec fn field_types_view(s: Seq<FieldType>) -> Seq<FieldTypeView>
    decreases s,
{
    if s.len() == 0 {
        Seq::empty()
    } else {
        let f = s[s.len() - 1];
        field_types_view(s.subrange(0, s.len() - 1)).push(
            FieldTypeView { name: f.name@, value_type: value_type_view(f.value_type) },
        )
    }
}

#[verifier::opaque]
pub open spec fn property_types_view(s: Seq<PropertyTypeDefinition>) -> Seq<FieldTypeView>
    decreases s,
{
    if s.len() == 0 {
        Seq::empty()
    } else {
        let f = s[s.len() - 1];
        property_types_view(s.subrange(0, s.len() - 1)).push(
            FieldTypeView { name: f.name@, value_type: value_type_view(f.value_type) },
        )
    }
}

pub open spec fn graph_type_body_view(b: GraphTypeBody) -> GraphTypeBodyView
    decreases b,
{
    GraphTypeBodyView { elements: graph_type_elements_view(b.elements@) }
}

#[verifier::opaque]
pub open spec fn graph_type_elements_view(s: Seq<GraphTypeElement>) -> Seq<GraphTypeElementView>
    decreases s,
{
    if s.len() == 0 {
        Seq::empty()
    } else {
        graph_type_elements_view(s.subrange(0, s.len() - 1)).push(
            graph_type_element_view(s[s.len() - 1]),
        )
    }
}

pub open spec fn graph_type_element_view(e: GraphTypeElement) -> GraphTypeElementView
    decreases e,
{
    match e {
        GraphTypeElement::Node(n) => GraphTypeElementView::Node(node_type_view(n)),
        GraphTypeElement::Edge(d) => GraphTypeElementView::Edge(edge_type_view(d)),
    }
}

pub open spec fn node_type_view(n: NodeTypeDefinition) -> NodeTypeDefinitionView
    decreases n,
{
    NodeTypeDefinitionView {
        name: n.name@,
        labels: identifiers_view(n.labels@),
        properties: property_types_view(n.properties@),
    }
}

pub open spec fn edge_type_view(d: EdgeTypeDefinition) -> EdgeTypeDefinitionView
    decreases d,
{
    EdgeTypeDefinitionView {
        name: d.name@,
        direction: d.direction,
        labels: identifiers_view(d.labels@),
        source: opt_identifier_view(d.source),
        destination: opt_identifier_view(d.destination),
        properties: property_types_view(d.properties@),
    }
}

impl View for ValueType {
    type V = ValueTypeView;

    open spec fn view(&self) -> ValueTypeView {
        value_type_view(*self)
    }
}

impl View for FieldType {
    type V = FieldTypeView;

    open spec fn view(&self) -> FieldTypeView {
        FieldTypeView { name: self.name@, value_type: self.value_type@ }
    }
}

impl View for PropertyTypeDefinition {
    type V = FieldTypeView;

    open spec fn view(&self) -> FieldTypeView {
        FieldTypeView { name: self.name@, value_type: self.value_type@ }
    }
}

impl View for GraphTypeBody {
    type V = GraphTypeBodyView;

    open spec fn view(&self) -> GraphTypeBodyView {
        graph_type_body_view(*self)
    }
}

impl View for GraphTypeElement {
    type V = GraphTypeElementView;

    open spec fn view(&self) -> GraphTypeElementView {
        graph_type_element_view(*self)
    }
}

impl View for NodeTypeDefinition {
    type V = NodeTypeDefinitionView;

    open spec fn view(&self) -> NodeTypeDefinitionView {
        node_type_view(*self)
    }
}

impl View for EdgeTypeDefinition {
    type V = EdgeTypeDefinitionView;

    open spec fn view(&self) -> EdgeTypeDefinitionView {
        edge_type_view(*self)
    }
}

/// The views of a sequence of value types are their views, one for one.
pub proof fn lemma_value_types_view(s: Seq<ValueType>)
    ensures
        value_types_view(s).len() == s.len(),
        forall|i: int| 0 <= i < s.len() ==> #[trigger] value_types_view(s)[i] == value_type_view(s[i]),
    decreases s.len(),
{
    reveal(value_types_view);
    if s.len() > 0 {
        lemma_value_types_view(s.subrange(0, s.len() - 1));
    }
}

/// The views of value types after one more is pushed.
pub proof fn lemma_value_types_view_push(s: Seq<ValueType>, t: ValueType)
    ensures
        value_types_view(s.push(t)) == value_types_view(s).push(value_type_view(t)),
{
    reveal(value_types_view);
    assert(s.push(t).subrange(0, s.len() as int) =~= s);
}

/// The views of a sequence of field types are their views, one for one.
pub proof fn lemma_field_types_view_push(s: Seq<FieldType>, f: FieldType)
    ensures
        field_types_view(s.push(f)) == field_types_view(s).push(f@),
{
    reveal(field_types_view);
    assert(s.push(f).subrange(0, s.len() as int) =~= s);
}

/// The views of property types after one more is pushed.
pub proof fn lemma_property_types_view_push(s: Seq<PropertyTypeDefinition>, f: PropertyTypeDefinition)
    ensures
        property_types_view(s.push(f)) == property_types_view(s).push(f@),
{
    reveal(property_types_view);
    assert(s.push(f).subrange(0, s.len() as int) =~= s);
}

/// The views of a sequence of field types are their views, one for one.
pub proof fn lemma_field_types_view(s: Seq<FieldType>)
    ensures
        field_types_view(s).len() == s.len(),
        forall|i: int| 0 <= i < s.len() ==> #[trigger] field_types_view(s)[i] == s[i]@,
    decreases s.len(),
{
    reveal(field_types_view);
    if s.len() > 0 {
        lemma_field_types_view(s.subrange(0, s.len() - 1));
    }
}

/// The views of a sequence of property types are their views, one for one.
pub proof fn lemma_property_types_view(s: Seq<PropertyTypeDefinition>)
    ensures
        property_types_view(s).len() == s.len(),
        forall|i: int| 0 <= i < s.len() ==> #[trigger] property_types_view(s)[i] == s[i]@,
    decreases s.len(),
{
    reveal(property_types_view);
    if s.len() > 0 {
        lemma_property_types_view(s.subrange(0, s.len() - 1));
    }
}

/// The views of a sequence of graph type elements are their views, one for one.
pub proof fn lemma_graph_type_elements_view(s: Seq<GraphTypeElement>)
    ensures
        graph_type_elements_view(s).len() == s.len(),
        forall|i: int| 0 <= i < s.len() ==> #[trigger] graph_type_elements_view(s)[i] == s[i]@,
    decreases s.len(),
{
    reveal(graph_type_elements_view);
    if s.len() > 0 {
        lemma_graph_type_elements_view(s.subrange(0, s.len() - 1));
    }
}

/// The views of graph type elements after one more is pushed.
pub proof fn lemma_graph_type_elements_view_push(s: Seq<GraphTypeElement>, e: GraphTypeElement)
    ensures
        graph_type_elements_view(s.push(e)) == graph_type_elements_view(s).push(e@),
{
    reveal(graph_type_elements_view);
    assert(s.push(e).subrange(0, s.len() as int) =~= s);
}

/// The views of an empty sequence of value types, field types, property types or graph type
/// elements are empty.
pub proof fn lemma_empty_views()
    ensures
        value_types_view(Seq::empty()) == Seq::<ValueTypeView>::empty(),
        field_types_view(Seq::empty()) == Seq::<FieldTypeView>::empty(),
        property_types_view(Seq::empty()) == Seq::<FieldTypeView>::empty(),
        graph_type_elements_view(Seq::empty()) == Seq::<GraphTypeElementView>::empty(),
{
    reveal(value_types_view);
    reveal(field_types_view);
    reveal(property_types_view);
    reveal(graph_type_elements_view);
}

/// The mathematical value of a [`YieldItem`].
pub enum YieldItemView {
    All,
    Item { name: Seq<char>, alias: Option<Seq<char>> },
}

impl View for YieldItem {
    type V = YieldItemView;

    open spec fn view(&self) -> YieldItemView {
        match self {
            YieldItem::All => YieldItemView::All,
            YieldItem::Item { name, alias } => YieldItemView::Item {
                name: name@,
                alias: opt_identifier_view(*alias),
            },
        }
    }
}

/// The mathematical value of an [`SqlIntervalQualifier`].
pub struct SqlIntervalQualifierView {
    pub start: Seq<char>,
    pub start_precision: Option<u64>,
    pub end: Option<Seq<char>>,
    pub end_precision: Option<u64>,
}

impl View for SqlIntervalQualifier {
    type V = SqlIntervalQualifierView;

    open spec fn view(&self) -> SqlIntervalQualifierView {
        SqlIntervalQualifierView {
            start: self.start@,
            start_precision: self.start_precision,
            end: opt_identifier_view(self.end),
            end_precision: self.end_precision,
        }
    }
}

} // verus!
