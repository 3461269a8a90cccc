use vstd::prelude::*;
use crate::text::{chars_eq_ignore_ascii_case, eq_ignore_ascii_case};

verus! {

/// The kind of a lexical token: punctuation, a literal, an identifier or a keyword.
#[derive(Clone, Copy, Debug, PartialEq, Eq, Structural)]
pub enum TokenKind {
    Eof,
    Identifier,
    Integer,
    Decimal,
    String,
    QuotedString,
    DoubleQuotedString,
    ByteString,
    Parameter,
    LParen,
    RParen,
    LBracket,
    RBracket,
    LBrace,
    RBrace,
    Comma,
    Colon,
    DoubleColon,
    Semicolon,
    Dot,
    Plus,
    Minus,
    Star,
    Slash,
    Percent,
    Question,
    Pipe,
    DoublePipe,
    Ampersand,
    Tilde,
    Eq,
    Neq,
    Bang,
    Lt,
    Le,
    Gt,
    Ge,
    ArrowLeft,
    ArrowRight,
    Abs,
    Acos,
    Acyclic,
    All,
    AllDifferent,
    And,
    Any,
    Array,
    As,
    Asc,
    Ascending,
    Asin,
    At,
    Atan,
    Avg,
    Between,
    Binding,
    Bindings,
    Both,
    Btrim,
    By,
    ByteLength,
    Call,
    Case,
    Cast,
    Ceil,
    Ceiling,
    CharLength,
    CharacterLength,
    Characteristics,
    Close,
    Coalesce,
    CollectList,
    Commit,
    Committed,
    Connecting,
    Copy,
    Cos,
    Cosh,
    Cot,
    Count,
    Create,
    Current,
    CurrentDate,
    CurrentGraph,
    CurrentPropertyGraph,
    CurrentSchema,
    CurrentTime,
    CurrentTimestamp,
    CurrentUser,
    Date,
    Datetime,
    Degrees,
    Delete,
    Desc,
    Descending,
    Destination,
    Detach,
    Different,
    Directed,
    Distinct,
    Drop,
    Duration,
    DurationBetween,
    Edge,
    Edges,
    Element,
    ElementId,
    Elements,
    Else,
    End,
    Escape,
    Except,
    Exists,
    Exp,
    False,
    Filter,
    Finish,
    First,
    Floor,
    For,
    From,
    Graph,
    Group,
    Groups,
    Having,
    HomeGraph,
    HomePropertyGraph,
    HomeSchema,
    If,
    In,
    Insert,
    Intersect,
    Interval,
    Is,
    Isolation,
    Keep,
    Label,
    Labeled,
    Labels,
    Last,
    Leading,
    Left,
    Let,
    Level,
    Like,
    Limit,
    List,
    Ln,
    LocalDatetime,
    LocalTime,
    Localtimestamp,
    Log,
    Log10,
    Lower,
    Ltrim,
    Match,
    Max,
    Min,
    Mod,
    Next,
    No,
    Node,
    Nodetach,
    Normalize,
    Normalized,
    Not,
    Null,
    Nullif,
    Nulls,
    OctetLength,
    Of,
    Offset,
    Only,
    Optional,
    Or,
    Order,
    Ordinality,
    Otherwise,
    Overlay,
    ParameterKeyword,
    Parameters,
    Path,
    PathLength,
    Paths,
    PercentileCont,
    PercentileDisc,
    Placing,
    Position,
    Power,
    Property,
    PropertyExists,
    Radians,
    Read,
    Record,
    Relationship,
    Relationships,
    Remove,
    Repeatable,
    Replace,
    Reset,
    Return,
    Right,
    Rollback,
    Rtrim,
    Same,
    Schema,
    Select,
    Serializable,
    Session,
    SetKeyword,
    Shortest,
    Simple,
    Sin,
    Sinh,
    Skip,
    Source,
    Sqrt,
    Start,
    StddevPop,
    StddevSamp,
    Substring,
    Sum,
    Table,
    Tan,
    Tanh,
    Temp,
    Then,
    Time,
    Timestamp,
    To,
    Trail,
    Trailing,
    Transaction,
    Trim,
    True,
    Type,
    Typed,
    Uncommitted,
    Undirected,
    Union,
    Unknown,
    Upper,
    Use,
    Value,
    Variable,
    Vertex,
    Walk,
    When,
    Where,
    With,
    Write,
    Xor,
    Yield,
    Zone,
    ZonedDatetime,
    ZonedTime,
}

/// The keywords, in the order in which a word is looked up among them.
pub open spec fn keyword_kinds() -> Seq<TokenKind> {
    seq![
        TokenKind::Abs,
        TokenKind::Acos,
        TokenKind::Acyclic,
        TokenKind::All,
        TokenKind::AllDifferent,
        TokenKind::And,
        TokenKind::Any,
        TokenKind::Array,
        TokenKind::As,
        TokenKind::Asc,
        TokenKind::Ascending,
        TokenKind::Asin,
        TokenKind::At,
        TokenKind::Atan,
        TokenKind::Avg,
        TokenKind::Between,
        TokenKind::Binding,
        TokenKind::Bindings,
        TokenKind::Both,
        TokenKind::Btrim,
        TokenKind::By,
        TokenKind::ByteLength,
        TokenKind::Call,
        TokenKind::Case,
        TokenKind::Cast,
        TokenKind::Ceil,
        TokenKind::Ceiling,
        TokenKind::CharLength,
        TokenKind::CharacterLength,
        TokenKind::Characteristics,
        TokenKind::Close,
        TokenKind::Coalesce,
        TokenKind::CollectList,
        TokenKind::Commit,
        TokenKind::Committed,
        TokenKind::Connecting,
        TokenKind::Copy,
        TokenKind::Cos,
        TokenKind::Cosh,
        TokenKind::Cot,
        TokenKind::Count,
        TokenKind::Create,
        TokenKind::Current,
        TokenKind::CurrentDate,
        TokenKind::CurrentGraph,
        TokenKind::CurrentPropertyGraph,
        TokenKind::CurrentSchema,
        TokenKind::CurrentTime,
        TokenKind::CurrentTimestamp,
        TokenKind::CurrentUser,
        TokenKind::Date,
        TokenKind::Datetime,
        TokenKind::Degrees,
        TokenKind::Delete,
        TokenKind::Desc,
        TokenKind::Descending,
        TokenKind::Destination,
        TokenKind::Detach,
        TokenKind::Different,
        TokenKind::Directed,
        TokenKind::Distinct,
        TokenKind::Drop,
        TokenKind::Duration,
        TokenKind::DurationBetween,
        TokenKind::Edge,
        TokenKind::Edges,
        TokenKind::Element,
        TokenKind::ElementId,
        TokenKind::Elements,
        TokenKind::Else,
        TokenKind::End,
        TokenKind::Escape,
        TokenKind::Except,
        TokenKind::Exists,
        TokenKind::Exp,
        TokenKind::False,
        TokenKind::Filter,
        TokenKind::Finish,
        TokenKind::First,
        TokenKind::Floor,
        TokenKind::For,
        TokenKind::From,
        TokenKind::Graph,
        TokenKind::Group,
        TokenKind::Groups,
        TokenKind::Having,
        TokenKind::HomeGraph,
        TokenKind::HomePropertyGraph,
        TokenKind::HomeSchema,
        TokenKind::If,
        TokenKind::In,
        TokenKind::Insert,
        TokenKind::Intersect,
        TokenKind::Interval,
        TokenKind::Is,
        TokenKind::Isolation,
        TokenKind::Keep,
        TokenKind::Label,
        TokenKind::Labeled,
        TokenKind::Labels,
        TokenKind::Last,
        TokenKind::Leading,
        TokenKind::Left,
        TokenKind::Let,
        TokenKind::Level,
        TokenKind::Like,
        TokenKind::Limit,
        TokenKind::List,
        TokenKind::Ln,
        TokenKind::LocalDatetime,
        TokenKind::LocalTime,
        TokenKind::Localtimestamp,
        TokenKind::Log,
        TokenKind::Log10,
        TokenKind::Lower,
        TokenKind::Ltrim,
        TokenKind::Match,
        TokenKind::Max,
        TokenKind::Min,
        TokenKind::Mod,
        TokenKind::Next,
        TokenKind::No,
        TokenKind::Node,
        TokenKind::Nodetach,
        TokenKind::Normalize,
        TokenKind::Normalized,
        TokenKind::Not,
        TokenKind::Null,
        TokenKind::Nullif,
        TokenKind::Nulls,
        TokenKind::OctetLength,
        TokenKind::Of,
        TokenKind::Offset,
        TokenKind::Only,
        TokenKind::Optional,
        TokenKind::Or,
        TokenKind::Order,
        TokenKind::Ordinality,
        TokenKind::Otherwise,
        TokenKind::Overlay,
        TokenKind::ParameterKeyword,
        TokenKind::Parameters,
        TokenKind::Path,
        TokenKind::PathLength,
        TokenKind::Paths,
        TokenKind::PercentileCont,
        TokenKind::PercentileDisc,
        TokenKind::Placing,
        TokenKind::Position,
        TokenKind::Power,
        TokenKind::Property,
        TokenKind::PropertyExists,
        TokenKind::Radians,
        TokenKind::Read,
        TokenKind::Record,
        TokenKind::Relationship,
        TokenKind::Relationships,
        TokenKind::Remove,
        TokenKind::Repeatable,
        TokenKind::Replace,
        TokenKind::Reset,
        TokenKind::Return,
        TokenKind::Right,
        TokenKind::Rollback,
        TokenKind::Rtrim,
        TokenKind::Same,
        TokenKind::Schema,
        TokenKind::Select,
        TokenKind::Serializable,
        TokenKind::Session,
        TokenKind::SetKeyword,
        TokenKind::Shortest,
        TokenKind::Simple,
        TokenKind::Sin,
        TokenKind::Sinh,
        TokenKind::Skip,
        TokenKind::Source,
        TokenKind::Sqrt,
        TokenKind::Start,
        TokenKind::StddevPop,
        TokenKind::StddevSamp,
        TokenKind::Substring,
        TokenKind::Sum,
        TokenKind::Table,
        TokenKind::Tan,
        TokenKind::Tanh,
        TokenKind::Temp,
        TokenKind::Then,
        TokenKind::Time,
        TokenKind::Timestamp,
        TokenKind::To,
        TokenKind::Trail,
        TokenKind::Trailing,
        TokenKind::Transaction,
        TokenKind::Trim,
        TokenKind::True,
        TokenKind::Type,
        TokenKind::Typed,
        TokenKind::Uncommitted,
        TokenKind::Undirected,
        TokenKind::Union,
        TokenKind::Unknown,
        TokenKind::Upper,
        TokenKind::Use,
        TokenKind::Value,
        TokenKind::Variable,
        TokenKind::Vertex,
        TokenKind::Walk,
        TokenKind::When,
        TokenKind::Where,
        TokenKind::With,
        TokenKind::Write,
        TokenKind::Xor,
        TokenKind::Yield,
        TokenKind::Zone,
        TokenKind::ZonedDatetime,
        TokenKind::ZonedTime,
    ]
}

/// The upper-case spelling of a keyword; the empty sequence for every other kind.
pub open spec fn keyword_spelling(kind: TokenKind) -> Seq<char> {
    match kind {
        TokenKind::Abs => "ABS"@,
        TokenKind::Acos => "ACOS"@,
        TokenKind::Acyclic => "ACYCLIC"@,
        TokenKind::All => "ALL"@,
        TokenKind::AllDifferent => "ALL_DIFFERENT"@,
        TokenKind::And => "AND"@,
        TokenKind::Any => "ANY"@,
        TokenKind::Array => "ARRAY"@,
        TokenKind::As => "AS"@,
        TokenKind::Asc => "ASC"@,
        TokenKind::Ascending => "ASCENDING"@,
        TokenKind::Asin => "ASIN"@,
        TokenKind::At => "AT"@,
        TokenKind::Atan => "ATAN"@,
        TokenKind::Avg => "AVG"@,
        TokenKind::Between => "BETWEEN"@,
        TokenKind::Binding => "BINDING"@,
        TokenKind::Bindings => "BINDINGS"@,
        TokenKind::Both => "BOTH"@,
        TokenKind::Btrim => "BTRIM"@,
        TokenKind::By => "BY"@,
        TokenKind::ByteLength => "BYTE_LENGTH"@,
        TokenKind::Call => "CALL"@,
        TokenKind::Case => "CASE"@,
        TokenKind::Cast => "CAST"@,
        TokenKind::Ceil => "CEIL"@,
        TokenKind::Ceiling => "CEILING"@,
        TokenKind::CharLength => "CHAR_LENGTH"@,
        TokenKind::CharacterLength => "CHARACTER_LENGTH"@,
        TokenKind::Characteristics => "CHARACTERISTICS"@,
        TokenKind::Close => "CLOSE"@,
        TokenKind::Coalesce => "COALESCE"@,
        TokenKind::CollectList => "COLLECT_LIST"@,
        TokenKind::Commit => "COMMIT"@,
        TokenKind::Committed => "COMMITTED"@,
        TokenKind::Connecting => "CONNECTING"@,
        TokenKind::Copy => "COPY"@,
        TokenKind::Cos => "COS"@,
        TokenKind::Cosh => "COSH"@,
        TokenKind::Cot => "COT"@,
        TokenKind::Count => "COUNT"@,
        TokenKind::Create => "CREATE"@,
        TokenKind::Current => "CURRENT"@,
        TokenKind::CurrentDate => "CURRENT_DATE"@,
        TokenKind::CurrentGraph => "CURRENT_GRAPH"@,
        TokenKind::CurrentPropertyGraph => "CURRENT_PROPERTY_GRAPH"@,
        TokenKind::CurrentSchema => "CURRENT_SCHEMA"@,
        TokenKind::CurrentTime => "CURRENT_TIME"@,
        TokenKind::CurrentTimestamp => "CURRENT_TIMESTAMP"@,
        TokenKind::CurrentUser => "CURRENT_USER"@,
        TokenKind::Date => "DATE"@,
        TokenKind::Datetime => "DATETIME"@,
        TokenKind::Degrees => "DEGREES"@,
        TokenKind::Delete => "DELETE"@,
        TokenKind::Desc => "DESC"@,
        TokenKind::Descending => "DESCENDING"@,
        TokenKind::Destination => "DESTINATION"@,
        TokenKind::Detach => "DETACH"@,
        TokenKind::Different => "DIFFERENT"@,
        TokenKind::Directed => "DIRECTED"@,
        TokenKind::Distinct => "DISTINCT"@,
        TokenKind::Drop => "DROP"@,
        TokenKind::Duration => "DURATION"@,
        TokenKind::DurationBetween => "DURATION_BETWEEN"@,
        TokenKind::Edge => "EDGE"@,
        TokenKind::Edges => "EDGES"@,
        TokenKind::Element => "ELEMENT"@,
        TokenKind::ElementId => "ELEMENT_ID"@,
        TokenKind::Elements => "ELEMENTS"@,
        TokenKind::Else => "ELSE"@,
        TokenKind::End => "END"@,
        TokenKind::Escape => "ESCAPE"@,
        TokenKind::Except => "EXCEPT"@,
        TokenKind::Exists => "EXISTS"@,
        TokenKind::Exp => "EXP"@,
        TokenKind::False => "FALSE"@,
        TokenKind::Filter => "FILTER"@,
        TokenKind::Finish => "FINISH"@,
        TokenKind::First => "FIRST"@,
        TokenKind::Floor => "FLOOR"@,
        TokenKind::For => "FOR"@,
        TokenKind::From => "FROM"@,
        TokenKind::Graph => "GRAPH"@,
        TokenKind::Group => "GROUP"@,
        TokenKind::Groups => "GROUPS"@,
        TokenKind::Having => "HAVING"@,
        TokenKind::HomeGraph => "HOME_GRAPH"@,
        TokenKind::HomePropertyGraph => "HOME_PROPERTY_GRAPH"@,
        TokenKind::HomeSchema => "HOME_SCHEMA"@,
        TokenKind::If => "IF"@,
        TokenKind::In => "IN"@,
        TokenKind::Insert => "INSERT"@,
        TokenKind::Intersect => "INTERSECT"@,
        TokenKind::Interval => "INTERVAL"@,
        TokenKind::Is => "IS"@,
        TokenKind::Isolation => "ISOLATION"@,
        TokenKind::Keep => "KEEP"@,
        TokenKind::Label => "LABEL"@,
        TokenKind::Labeled => "LABELED"@,
        TokenKind::Labels => "LABELS"@,
        TokenKind::Last => "LAST"@,
        TokenKind::Leading => "LEADING"@,
        TokenKind::Left => "LEFT"@,
        TokenKind::Let => "LET"@,
        TokenKind::Level => "LEVEL"@,
        TokenKind::Like => "LIKE"@,
        TokenKind::Limit => "LIMIT"@,
        TokenKind::List => "LIST"@,
        TokenKind::Ln => "LN"@,
        TokenKind::LocalDatetime => "LOCAL_DATETIME"@,
        TokenKind::LocalTime => "LOCAL_TIME"@,
        TokenKind::Localtimestamp => "LOCAL_TIMESTAMP"@,
        TokenKind::Log => "LOG"@,
        TokenKind::Log10 => "LOG10"@,
        TokenKind::Lower => "LOWER"@,
        TokenKind::Ltrim => "LTRIM"@,
        TokenKind::Match => "MATCH"@,
        TokenKind::Max => "MAX"@,
        TokenKind::Min => "MIN"@,
        TokenKind::Mod => "MOD"@,
        TokenKind::Next => "NEXT"@,
        TokenKind::No => "NO"@,
        TokenKind::Node => "NODE"@,
        TokenKind::Nodetach => "NODETACH"@,
        TokenKind::Normalize => "NORMALIZE"@,
        TokenKind::Normalized => "NORMALIZED"@,
        TokenKind::Not => "NOT"@,
        TokenKind::Null => "NULL"@,
        TokenKind::Nullif => "NULLIF"@,
        TokenKind::Nulls => "NULLS"@,
        TokenKind::OctetLength => "OCTET_LENGTH"@,
        TokenKind::Of => "OF"@,
        TokenKind::Offset => "OFFSET"@,
        TokenKind::Only => "ONLY"@,
        TokenKind::Optional => "OPTIONAL"@,
        TokenKind::Or => "OR"@,
        TokenKind::Order => "ORDER"@,
        TokenKind::Ordinality => "ORDINALITY"@,
        TokenKind::Otherwise => "OTHERWISE"@,
        TokenKind::Overlay => "OVERLAY"@,
        TokenKind::ParameterKeyword => "PARAMETER"@,
        TokenKind::Parameters => "PARAMETERS"@,
        TokenKind::Path => "PATH"@,
        TokenKind::PathLength => "PATH_LENGTH"@,
        TokenKind::Paths => "PATHS"@,
        TokenKind::PercentileCont => "PERCENTILE_CONT"@,
        TokenKind::PercentileDisc => "PERCENTILE_DISC"@,
        TokenKind::Placing => "PLACING"@,
        TokenKind::Position => "POSITION"@,
        TokenKind::Power => "POWER"@,
        TokenKind::Property => "PROPERTY"@,
        TokenKind::PropertyExists => "PROPERTY_EXISTS"@,
        TokenKind::Radians => "RADIANS"@,
        TokenKind::Read => "READ"@,
        TokenKind::Record => "RECORD"@,
        TokenKind::Relationship => "RELATIONSHIP"@,
        TokenKind::Relationships => "RELATIONSHIPS"@,
        TokenKind::Remove => "REMOVE"@,
        TokenKind::Repeatable => "REPEATABLE"@,
        TokenKind::Replace => "REPLACE"@,
        TokenKind::Reset => "RESET"@,
        TokenKind::Return => "RETURN"@,
        TokenKind::Right => "RIGHT"@,
        TokenKind::Rollback => "ROLLBACK"@,
        TokenKind::Rtrim => "RTRIM"@,
        TokenKind::Same => "SAME"@,
        TokenKind::Schema => "SCHEMA"@,
        TokenKind::Select => "SELECT"@,
        TokenKind::Serializable => "SERIALIZABLE"@,
        TokenKind::Session => "SESSION"@,
        TokenKind::SetKeyword => "SET"@,
        TokenKind::Shortest => "SHORTEST"@,
        TokenKind::Simple => "SIMPLE"@,
        TokenKind::Sin => "SIN"@,
        TokenKind::Sinh => "SINH"@,
        TokenKind::Skip => "SKIP"@,
        TokenKind::Source => "SOURCE"@,
        TokenKind::Sqrt => "SQRT"@,
        TokenKind::Start => "START"@,
        TokenKind::StddevPop => "STDDEV_POP"@,
        TokenKind::StddevSamp => "STDDEV_SAMP"@,
        TokenKind::Substring => "SUBSTRING"@,
        TokenKind::Sum => "SUM"@,
        TokenKind::Table => "TABLE"@,
        TokenKind::Tan => "TAN"@,
        TokenKind::Tanh => "TANH"@,
        TokenKind::Temp => "TEMP"@,
        TokenKind::Then => "THEN"@,
        TokenKind::Time => "TIME"@,
        TokenKind::Timestamp => "TIMESTAMP"@,
        TokenKind::To => "TO"@,
        TokenKind::Trail => "TRAIL"@,
        TokenKind::Trailing => "TRAILING"@,
        TokenKind::Transaction => "TRANSACTION"@,
        TokenKind::Trim => "TRIM"@,
        TokenKind::True => "TRUE"@,
        TokenKind::Type => "TYPE"@,
        TokenKind::Typed => "TYPED"@,
        TokenKind::Uncommitted => "UNCOMMITTED"@,
        TokenKind::Undirected => "UNDIRECTED"@,
        TokenKind::Union => "UNION"@,
        TokenKind::Unknown => "UNKNOWN"@,
        TokenKind::Upper => "UPPER"@,
        TokenKind::Use => "USE"@,
        TokenKind::Value => "VALUE"@,
        TokenKind::Variable => "VARIABLE"@,
        TokenKind::Vertex => "VERTEX"@,
        TokenKind::Walk => "WALK"@,
        TokenKind::When => "WHEN"@,
        TokenKind::Where => "WHERE"@,
        TokenKind::With => "WITH"@,
        TokenKind::Write => "WRITE"@,
        TokenKind::Xor => "XOR"@,
        TokenKind::Yield => "YIELD"@,
        TokenKind::Zone => "ZONE"@,
        TokenKind::ZonedDatetime => "ZONED_DATETIME"@,
        TokenKind::ZonedTime => "ZONED_TIME"@,
        _ => Seq::empty(),
    }
}

/// The keywords, as a vector.
pub fn keyword_table() -> (v: Vec<TokenKind>)
    ensures
        v@ == keyword_kinds(),
{
    vec![
        TokenKind::Abs,
        TokenKind::Acos,
        TokenKind::Acyclic,
        TokenKind::All,
        TokenKind::AllDifferent,
        TokenKind::And,
        TokenKind::Any,
        TokenKind::Array,
        TokenKind::As,
        TokenKind::Asc,
        TokenKind::Ascending,
        TokenKind::Asin,
        TokenKind::At,
        TokenKind::Atan,
        TokenKind::Avg,
        TokenKind::Between,
        TokenKind::Binding,
        TokenKind::Bindings,
        TokenKind::Both,
        TokenKind::Btrim,
        TokenKind::By,
        TokenKind::ByteLength,
        TokenKind::Call,
        TokenKind::Case,
        TokenKind::Cast,
        TokenKind::Ceil,
        TokenKind::Ceiling,
        TokenKind::CharLength,
        TokenKind::CharacterLength,
        TokenKind::Characteristics,
        TokenKind::Close,
        TokenKind::Coalesce,
        TokenKind::CollectList,
        TokenKind::Commit,
        TokenKind::Committed,
        TokenKind::Connecting,
        TokenKind::Copy,
        TokenKind::Cos,
        TokenKind::Cosh,
        TokenKind::Cot,
        TokenKind::Count,
        TokenKind::Create,
        TokenKind::Current,
        TokenKind::CurrentDate,
        TokenKind::CurrentGraph,
        TokenKind::CurrentPropertyGraph,
        TokenKind::CurrentSchema,
        TokenKind::CurrentTime,
        TokenKind::CurrentTimestamp,
        TokenKind::CurrentUser,
        TokenKind::Date,
        TokenKind::Datetime,
        TokenKind::Degrees,
        TokenKind::Delete,
        TokenKind::Desc,
        TokenKind::Descending,
        TokenKind::Destination,
        TokenKind::Detach,
        TokenKind::Different,
        TokenKind::Directed,
        TokenKind::Distinct,
        TokenKind::Drop,
        TokenKind::Duration,
        TokenKind::DurationBetween,
        TokenKind::Edge,
        TokenKind::Edges,
        TokenKind::Element,
        TokenKind::ElementId,
        TokenKind::Elements,
        TokenKind::Else,
        TokenKind::End,
        TokenKind::Escape,
        TokenKind::Except,
        TokenKind::Exists,
        TokenKind::Exp,
        TokenKind::False,
        TokenKind::Filter,
        TokenKind::Finish,
        TokenKind::First,
        TokenKind::Floor,
        TokenKind::For,
        TokenKind::From,
        TokenKind::Graph,
        TokenKind::Group,
        TokenKind::Groups,
        TokenKind::Having,
        TokenKind::HomeGraph,
        TokenKind::HomePropertyGraph,
        TokenKind::HomeSchema,
        TokenKind::If,
        TokenKind::In,
        TokenKind::Insert,
        TokenKind::Intersect,
        TokenKind::Interval,
        TokenKind::Is,
        TokenKind::Isolation,
        TokenKind::Keep,
        TokenKind::Label,
        TokenKind::Labeled,
        TokenKind::Labels,
        TokenKind::Last,
        TokenKind::Leading,
        TokenKind::Left,
        TokenKind::Let,
        TokenKind::Level,
        TokenKind::Like,
        TokenKind::Limit,
        TokenKind::List,
        TokenKind::Ln,
        TokenKind::LocalDatetime,
        TokenKind::LocalTime,
        TokenKind::Localtimestamp,
        TokenKind::Log,
        TokenKind::Log10,
        TokenKind::Lower,
        TokenKind::Ltrim,
        TokenKind::Match,
        TokenKind::Max,
        TokenKind::Min,
        TokenKind::Mod,
        TokenKind::Next,
        TokenKind::No,
        TokenKind::Node,
        TokenKind::Nodetach,
        TokenKind::Normalize,
        TokenKind::Normalized,
        TokenKind::Not,
        TokenKind::Null,
        TokenKind::Nullif,
        TokenKind::Nulls,
        TokenKind::OctetLength,
        TokenKind::Of,
        TokenKind::Offset,
        TokenKind::Only,
        TokenKind::Optional,
        TokenKind::Or,
        TokenKind::Order,
        TokenKind::Ordinality,
        TokenKind::Otherwise,
        TokenKind::Overlay,
        TokenKind::ParameterKeyword,
        TokenKind::Parameters,
        TokenKind::Path,
        TokenKind::PathLength,
        TokenKind::Paths,
        TokenKind::PercentileCont,
        TokenKind::PercentileDisc,
        TokenKind::Placing,
        TokenKind::Position,
        TokenKind::Power,
        TokenKind::Property,
        TokenKind::PropertyExists,
        TokenKind::Radians,
        TokenKind::Read,
        TokenKind::Record,
        TokenKind::Relationship,
        TokenKind::Relationships,
        TokenKind::Remove,
        TokenKind::Repeatable,
        TokenKind::Replace,
        TokenKind::Reset,
        TokenKind::Return,
        TokenKind::Right,
        TokenKind::Rollback,
        TokenKind::Rtrim,
        TokenKind::Same,
        TokenKind::Schema,
        TokenKind::Select,
        TokenKind::Serializable,
        TokenKind::Session,
        TokenKind::SetKeyword,
        TokenKind::Shortest,
        TokenKind::Simple,
        TokenKind::Sin,
        TokenKind::Sinh,
        TokenKind::Skip,
        TokenKind::Source,
        TokenKind::Sqrt,
        TokenKind::Start,
        TokenKind::StddevPop,
        TokenKind::StddevSamp,
        TokenKind::Substring,
        TokenKind::Sum,
        TokenKind::Table,
        TokenKind::Tan,
        TokenKind::Tanh,
        TokenKind::Temp,
        TokenKind::Then,
        TokenKind::Time,
        TokenKind::Timestamp,
        TokenKind::To,
        TokenKind::Trail,
        TokenKind::Trailing,
        TokenKind::Transaction,
        TokenKind::Trim,
        TokenKind::True,
        TokenKind::Type,
        TokenKind::Typed,
        TokenKind::Uncommitted,
        TokenKind::Undirected,
        TokenKind::Union,
        TokenKind::Unknown,
        TokenKind::Upper,
        TokenKind::Use,
        TokenKind::Value,
        TokenKind::Variable,
        TokenKind::Vertex,
        TokenKind::Walk,
        TokenKind::When,
        TokenKind::Where,
        TokenKind::With,
        TokenKind::Write,
        TokenKind::Xor,
        TokenKind::Yield,
        TokenKind::Zone,
        TokenKind::ZonedDatetime,
        TokenKind::ZonedTime,
    ]
}

/// The upper-case spelling of a keyword, as a string.
pub fn keyword_str(kind: TokenKind) -> (s: &'static str)
    ensures
        s@ == keyword_spelling(kind),
{
    match kind {
        TokenKind::Abs => "ABS",
        TokenKind::Acos => "ACOS",
        TokenKind::Acyclic => "ACYCLIC",
        TokenKind::All => "ALL",
        TokenKind::AllDifferent => "ALL_DIFFERENT",
        TokenKind::And => "AND",
        TokenKind::Any => "ANY",
        TokenKind::Array => "ARRAY",
        TokenKind::As => "AS",
        TokenKind::Asc => "ASC",
        TokenKind::Ascending => "ASCENDING",
        TokenKind::Asin => "ASIN",
        TokenKind::At => "AT",
        TokenKind::Atan => "ATAN",
        TokenKind::Avg => "AVG",
        TokenKind::Between => "BETWEEN",
        TokenKind::Binding => "BINDING",
        TokenKind::Bindings => "BINDINGS",
        TokenKind::Both => "BOTH",
        TokenKind::Btrim => "BTRIM",
        TokenKind::By => "BY",
        TokenKind::ByteLength => "BYTE_LENGTH",
        TokenKind::Call => "CALL",
        TokenKind::Case => "CASE",
        TokenKind::Cast => "CAST",
        TokenKind::Ceil => "CEIL",
        TokenKind::Ceiling => "CEILING",
        TokenKind::CharLength => "CHAR_LENGTH",
        TokenKind::CharacterLength => "CHARACTER_LENGTH",
        TokenKind::Characteristics => "CHARACTERISTICS",
        TokenKind::Close => "CLOSE",
        TokenKind::Coalesce => "COALESCE",
        TokenKind::CollectList => "COLLECT_LIST",
        TokenKind::Commit => "COMMIT",
        TokenKind::Committed => "COMMITTED",
        TokenKind::Connecting => "CONNECTING",
        TokenKind::Copy => "COPY",
        TokenKind::Cos => "COS",
        TokenKind::Cosh => "COSH",
        TokenKind::Cot => "COT",
        TokenKind::Count => "COUNT",
        TokenKind::Create => "CREATE",
        TokenKind::Current => "CURRENT",
        TokenKind::CurrentDate => "CURRENT_DATE",
        TokenKind::CurrentGraph => "CURRENT_GRAPH",
        TokenKind::CurrentPropertyGraph => "CURRENT_PROPERTY_GRAPH",
        TokenKind::CurrentSchema => "CURRENT_SCHEMA",
        TokenKind::CurrentTime => "CURRENT_TIME",
        TokenKind::CurrentTimestamp => "CURRENT_TIMESTAMP",
        TokenKind::CurrentUser => "CURRENT_USER",
        TokenKind::Date => "DATE",
        TokenKind::Datetime => "DATETIME",
        TokenKind::Degrees => "DEGREES",
        TokenKind::Delete => "DELETE",
        TokenKind::Desc => "DESC",
        TokenKind::Descending => "DESCENDING",
        TokenKind::Destination => "DESTINATION",
        TokenKind::Detach => "DETACH",
        TokenKind::Different => "DIFFERENT",
        TokenKind::Directed => "DIRECTED",
        TokenKind::Distinct => "DISTINCT",
        TokenKind::Drop => "DROP",
        TokenKind::Duration => "DURATION",
        TokenKind::DurationBetween => "DURATION_BETWEEN",
        TokenKind::Edge => "EDGE",
        TokenKind::Edges => "EDGES",
        TokenKind::Element => "ELEMENT",
        TokenKind::ElementId => "ELEMENT_ID",
        TokenKind::Elements => "ELEMENTS",
        TokenKind::Else => "ELSE",
        TokenKind::End => "END",
        TokenKind::Escape => "ESCAPE",
        TokenKind::Except => "EXCEPT",
        TokenKind::Exists => "EXISTS",
        TokenKind::Exp => "EXP",
        TokenKind::False => "FALSE",
        TokenKind::Filter => "FILTER",
        TokenKind::Finish => "FINISH",
        TokenKind::First => "FIRST",
        TokenKind::Floor => "FLOOR",
        TokenKind::For => "FOR",
        TokenKind::From => "FROM",
        TokenKind::Graph => "GRAPH",
        TokenKind::Group => "GROUP",
        TokenKind::Groups => "GROUPS",
        TokenKind::Having => "HAVING",
        TokenKind::HomeGraph => "HOME_GRAPH",
        TokenKind::HomePropertyGraph => "HOME_PROPERTY_GRAPH",
        TokenKind::HomeSchema => "HOME_SCHEMA",
        TokenKind::If => "IF",
        TokenKind::In => "IN",
        TokenKind::Insert => "INSERT",
        TokenKind::Intersect => "INTERSECT",
        TokenKind::Interval => "INTERVAL",
        TokenKind::Is => "IS",
        TokenKind::Isolation => "ISOLATION",
        TokenKind::Keep => "KEEP",
        TokenKind::Label => "LABEL",
        TokenKind::Labeled => "LABELED",
        TokenKind::Labels => "LABELS",
        TokenKind::Last => "LAST",
        TokenKind::Leading => "LEADING",
        TokenKind::Left => "LEFT",
        TokenKind::Let => "LET",
        TokenKind::Level => "LEVEL",
        TokenKind::Like => "LIKE",
        TokenKind::Limit => "LIMIT",
        TokenKind::List => "LIST",
        TokenKind::Ln => "LN",
        TokenKind::LocalDatetime => "LOCAL_DATETIME",
        TokenKind::LocalTime => "LOCAL_TIME",
        TokenKind::Localtimestamp => "LOCAL_TIMESTAMP",
        TokenKind::Log => "LOG",
        TokenKind::Log10 => "LOG10",
        TokenKind::Lower => "LOWER",
        TokenKind::Ltrim => "LTRIM",
        TokenKind::Match => "MATCH",
        TokenKind::Max => "MAX",
        TokenKind::Min => "MIN",
        TokenKind::Mod => "MOD",
        TokenKind::Next => "NEXT",
        TokenKind::No => "NO",
        TokenKind::Node => "NODE",
        TokenKind::Nodetach => "NODETACH",
        TokenKind::Normalize => "NORMALIZE",
        TokenKind::Normalized => "NORMALIZED",
        TokenKind::Not => "NOT",
        TokenKind::Null => "NULL",
        TokenKind::Nullif => "NULLIF",
        TokenKind::Nulls => "NULLS",
        TokenKind::OctetLength => "OCTET_LENGTH",
        TokenKind::Of => "OF",
        TokenKind::Offset => "OFFSET",
        TokenKind::Only => "ONLY",
        TokenKind::Optional => "OPTIONAL",
        TokenKind::Or => "OR",
        TokenKind::Order => "ORDER",
        TokenKind::Ordinality => "ORDINALITY",
        TokenKind::Otherwise => "OTHERWISE",
        TokenKind::Overlay => "OVERLAY",
        TokenKind::ParameterKeyword => "PARAMETER",
        TokenKind::Parameters => "PARAMETERS",
        TokenKind::Path => "PATH",
        TokenKind::PathLength => "PATH_LENGTH",
        TokenKind::Paths => "PATHS",
        TokenKind::PercentileCont => "PERCENTILE_CONT",
        TokenKind::PercentileDisc => "PERCENTILE_DISC",
        TokenKind::Placing => "PLACING",
        TokenKind::Position => "POSITION",
        TokenKind::Power => "POWER",
        TokenKind::Property => "PROPERTY",
        TokenKind::PropertyExists => "PROPERTY_EXISTS",
        TokenKind::Radians => "RADIANS",
        TokenKind::Read => "READ",
        TokenKind::Record => "RECORD",
        TokenKind::Relationship => "RELATIONSHIP",
        TokenKind::Relationships => "RELATIONSHIPS",
        TokenKind::Remove => "REMOVE",
        TokenKind::Repeatable => "REPEATABLE",
        TokenKind::Replace => "REPLACE",
        TokenKind::Reset => "RESET",
        TokenKind::Return => "RETURN",
        TokenKind::Right => "RIGHT",
        TokenKind::Rollback => "ROLLBACK",
        TokenKind::Rtrim => "RTRIM",
        TokenKind::Same => "SAME",
        TokenKind::Schema => "SCHEMA",
        TokenKind::Select => "SELECT",
        TokenKind::Serializable => "SERIALIZABLE",
        TokenKind::Session => "SESSION",
        TokenKind::SetKeyword => "SET",
        TokenKind::Shortest => "SHORTEST",
        TokenKind::Simple => "SIMPLE",
        TokenKind::Sin => "SIN",
        TokenKind::Sinh => "SINH",
        TokenKind::Skip => "SKIP",
        TokenKind::Source => "SOURCE",
        TokenKind::Sqrt => "SQRT",
        TokenKind::Start => "START",
        TokenKind::StddevPop => "STDDEV_POP",
        TokenKind::StddevSamp => "STDDEV_SAMP",
        TokenKind::Substring => "SUBSTRING",
        TokenKind::Sum => "SUM",
        TokenKind::Table => "TABLE",
        TokenKind::Tan => "TAN",
        TokenKind::Tanh => "TANH",
        TokenKind::Temp => "TEMP",
        TokenKind::Then => "THEN",
        TokenKind::Time => "TIME",
        TokenKind::Timestamp => "TIMESTAMP",
        TokenKind::To => "TO",
        TokenKind::Trail => "TRAIL",
        TokenKind::Trailing => "TRAILING",
        TokenKind::Transaction => "TRANSACTION",
        TokenKind::Trim => "TRIM",
        TokenKind::True => "TRUE",
        TokenKind::Type => "TYPE",
        TokenKind::Typed => "TYPED",
        TokenKind::Uncommitted => "UNCOMMITTED",
        TokenKind::Undirected => "UNDIRECTED",
        TokenKind::Union => "UNION",
        TokenKind::Unknown => "UNKNOWN",
        TokenKind::Upper => "UPPER",
        TokenKind::Use => "USE",
        TokenKind::Value => "VALUE",
        TokenKind::Variable => "VARIABLE",
        TokenKind::Vertex => "VERTEX",
        TokenKind::Walk => "WALK",
        TokenKind::When => "WHEN",
        TokenKind::Where => "WHERE",
        TokenKind::With => "WITH",
        TokenKind::Write => "WRITE",
        TokenKind::Xor => "XOR",
        TokenKind::Yield => "YIELD",
        TokenKind::Zone => "ZONE",
        TokenKind::ZonedDatetime => "ZONED_DATETIME",
        TokenKind::ZonedTime => "ZONED_TIME",
        _ => {
            proof {
                reveal_strlit("");
            }
            ""
        },
    }
}

} // verus!

verus! {

/// A token: its kind, its text and the byte offset in the input at which it starts.
///
/// For a keyword, an identifier or punctuation the text is the source text; for a
/// string, a quoted identifier or a parameter it is the decoded value; for a number it is
/// the normalised digits.
#[derive(Debug, PartialEq, Eq)]
pub struct Token {
    pub kind: TokenKind,
    pub text: String,
    pub offset: usize,
}

/// The mathematical value of a [`Token`].
pub struct TokenView {
    pub kind: TokenKind,
    pub text: Seq<char>,
    pub offset: int,
}

impl View for Token {
    type V = TokenView;

    open spec fn view(&self) -> TokenView {
        TokenView { kind: self.kind, text: self.text@, offset: self.offset as int }
    }
}

impl Clone for Token {
    fn clone(&self) -> (r: Self)
        ensures
            r@ == self@,
    {
        Token { kind: self.kind, text: self.text.clone(), offset: self.offset }
    }
}

impl Token {
    pub fn new(kind: TokenKind, text: String, offset: usize) -> (t: Token)
        ensures
            t.kind == kind,
            t.text@ == text@,
            t.offset == offset,
    {
        Token { kind, text, offset }
    }
}

/// The first keyword of `table` that `word` spells, ignoring ASCII case; an identifier when
/// there is none.
pub open spec fn lookup_keyword(word: Seq<char>, table: Seq<TokenKind>) -> TokenKind
    decreases table.len(),
{
    if table.len() == 0 {
        TokenKind::Identifier
    } else if eq_ignore_ascii_case(word, keyword_spelling(table[0])) {
        table[0]
    } else {
        lookup_keyword(word, table.drop_first())
    }
}

/// The kind of a word: the keyword that it spells, ignoring ASCII case, or an identifier.
pub open spec fn spec_keyword_or_identifier(word: Seq<char>) -> TokenKind {
    lookup_keyword(word, keyword_kinds())
}

/// The kind of a word: the keyword that it spells, ignoring ASCII case, or an identifier.
pub fn keyword_or_identifier(word: &Vec<char>) -> (kind: TokenKind)
    ensures
        kind == spec_keyword_or_identifier(word@),
{
    let table = keyword_table();
    let mut i: usize = 0;
    assert(table@.skip(0) =~= table@);
    while i < table.len()
        invariant
            table@ == keyword_kinds(),
            i <= table.len(),
            lookup_keyword(word@, table@.skip(i as int)) == spec_keyword_or_identifier(word@),
        decreases table.len() - i,
    {
        let k = table[i];
        assert(table@.skip(i as int).drop_first() =~= table@.skip(i + 1));
        if chars_eq_ignore_ascii_case(word, keyword_str(k)) {
            return k;
        }
        i += 1;
    }
    TokenKind::Identifier
}

/// The name of a token kind, as its `Debug` form writes it.
pub open spec fn kind_name(kind: TokenKind) -> Seq<char> {
    match kind {
        TokenKind::Abs => "Abs"@,
        TokenKind::Acos => "Acos"@,
        TokenKind::Acyclic => "Acyclic"@,
        TokenKind::All => "All"@,
        TokenKind::AllDifferent => "AllDifferent"@,
        TokenKind::Ampersand => "Ampersand"@,
        TokenKind::And => "And"@,
        TokenKind::Any => "Any"@,
        TokenKind::Array => "Array"@,
        TokenKind::ArrowLeft => "ArrowLeft"@,
        TokenKind::ArrowRight => "ArrowRight"@,
        TokenKind::As => "As"@,
        TokenKind::Asc => "Asc"@,
        TokenKind::Ascending => "Ascending"@,
        TokenKind::Asin => "Asin"@,
        TokenKind::At => "At"@,
        TokenKind::Atan => "Atan"@,
        TokenKind::Avg => "Avg"@,
        TokenKind::Bang => "Bang"@,
        TokenKind::Between => "Between"@,
        TokenKind::Binding => "Binding"@,
        TokenKind::Bindings => "Bindings"@,
        TokenKind::Both => "Both"@,
        TokenKind::Btrim => "Btrim"@,
        TokenKind::By => "By"@,
        TokenKind::ByteLength => "ByteLength"@,
        TokenKind::ByteString => "ByteString"@,
        TokenKind::Call => "Call"@,
        TokenKind::Case => "Case"@,
        TokenKind::Cast => "Cast"@,
        TokenKind::Ceil => "Ceil"@,
        TokenKind::Ceiling => "Ceiling"@,
        TokenKind::CharLength => "CharLength"@,
        TokenKind::CharacterLength => "CharacterLength"@,
        TokenKind::Characteristics => "Characteristics"@,
        TokenKind::Close => "Close"@,
        TokenKind::Coalesce => "Coalesce"@,
        TokenKind::CollectList => "CollectList"@,
        TokenKind::Colon => "Colon"@,
        TokenKind::Comma => "Comma"@,
        TokenKind::Commit => "Commit"@,
        TokenKind::Committed => "Committed"@,
        TokenKind::Connecting => "Connecting"@,
        TokenKind::Copy => "Copy"@,
        TokenKind::Cos => "Cos"@,
        TokenKind::Cosh => "Cosh"@,
        TokenKind::Cot => "Cot"@,
        TokenKind::Count => "Count"@,
        TokenKind::Create => "Create"@,
        TokenKind::Current => "Current"@,
        TokenKind::CurrentDate => "CurrentDate"@,
        TokenKind::CurrentGraph => "CurrentGraph"@,
        TokenKind::CurrentPropertyGraph => "CurrentPropertyGraph"@,
        TokenKind::CurrentSchema => "CurrentSchema"@,
        TokenKind::CurrentTime => "CurrentTime"@,
        TokenKind::CurrentTimestamp => "CurrentTimestamp"@,
        TokenKind::CurrentUser => "CurrentUser"@,
        TokenKind::Date => "Date"@,
        TokenKind::Datetime => "Datetime"@,
        TokenKind::Decimal => "Decimal"@,
        TokenKind::Degrees => "Degrees"@,
        TokenKind::Delete => "Delete"@,
        TokenKind::Desc => "Desc"@,
        TokenKind::Descending => "Descending"@,
        TokenKind::Destination => "Destination"@,
        TokenKind::Detach => "Detach"@,
        TokenKind::Different => "Different"@,
        TokenKind::Directed => "Directed"@,
        TokenKind::Distinct => "Distinct"@,
        TokenKind::Dot => "Dot"@,
        TokenKind::DoubleColon => "DoubleColon"@,
        TokenKind::DoublePipe => "DoublePipe"@,
        TokenKind::DoubleQuotedString => "DoubleQuotedString"@,
        TokenKind::Drop => "Drop"@,
        TokenKind::Duration => "Duration"@,
        TokenKind::DurationBetween => "DurationBetween"@,
        TokenKind::Edge => "Edge"@,
        TokenKind::Edges => "Edges"@,
        TokenKind::Element => "Element"@,
        TokenKind::ElementId => "ElementId"@,
        TokenKind::Elements => "Elements"@,
        TokenKind::Else => "Else"@,
        TokenKind::End => "End"@,
        TokenKind::Eof => "Eof"@,
        TokenKind::Eq => "Eq"@,
        TokenKind::Escape => "Escape"@,
        TokenKind::Except => "Except"@,
        TokenKind::Exists => "Exists"@,
        TokenKind::Exp => "Exp"@,
        TokenKind::False => "False"@,
        TokenKind::Filter => "Filter"@,
        TokenKind::Finish => "Finish"@,
        TokenKind::First => "First"@,
        TokenKind::Floor => "Floor"@,
        TokenKind::For => "For"@,
        TokenKind::From => "From"@,
        TokenKind::Ge => "Ge"@,
        TokenKind::Graph => "Graph"@,
        TokenKind::Group => "Group"@,
        TokenKind::Groups => "Groups"@,
        TokenKind::Gt => "Gt"@,
        TokenKind::Having => "Having"@,
        TokenKind::HomeGraph => "HomeGraph"@,
        TokenKind::HomePropertyGraph => "HomePropertyGraph"@,
        TokenKind::HomeSchema => "HomeSchema"@,
        TokenKind::Identifier => "Identifier"@,
        TokenKind::If => "If"@,
        TokenKind::In => "In"@,
        TokenKind::Insert => "Insert"@,
        TokenKind::Integer => "Integer"@,
        TokenKind::Intersect => "Intersect"@,
        TokenKind::Interval => "Interval"@,
        TokenKind::Is => "Is"@,
        TokenKind::Isolation => "Isolation"@,
        TokenKind::Keep => "Keep"@,
        TokenKind::LBrace => "LBrace"@,
        TokenKind::LBracket => "LBracket"@,
        TokenKind::LParen => "LParen"@,
        TokenKind::Label => "Label"@,
        TokenKind::Labeled => "Labeled"@,
        TokenKind::Labels => "Labels"@,
        TokenKind::Last => "Last"@,
        TokenKind::Le => "Le"@,
        TokenKind::Leading => "Leading"@,
        TokenKind::Left => "Left"@,
        TokenKind::Let => "Let"@,
        TokenKind::Level => "Level"@,
        TokenKind::Like => "Like"@,
        TokenKind::Limit => "Limit"@,
        TokenKind::List => "List"@,
        TokenKind::Ln => "Ln"@,
        TokenKind::LocalDatetime => "LocalDatetime"@,
        TokenKind::LocalTime => "LocalTime"@,
        TokenKind::Localtimestamp => "Localtimestamp"@,
        TokenKind::Log => "Log"@,
        TokenKind::Log10 => "Log10"@,
        TokenKind::Lower => "Lower"@,
        TokenKind::Lt => "Lt"@,
        TokenKind::Ltrim => "Ltrim"@,
        TokenKind::Match => "Match"@,
        TokenKind::Max => "Max"@,
        TokenKind::Min => "Min"@,
        TokenKind::Minus => "Minus"@,
        TokenKind::Mod => "Mod"@,
        TokenKind::Neq => "Neq"@,
        TokenKind::Next => "Next"@,
        TokenKind::No => "No"@,
        TokenKind::Node => "Node"@,
        TokenKind::Nodetach => "Nodetach"@,
        TokenKind::Normalize => "Normalize"@,
        TokenKind::Normalized => "Normalized"@,
        TokenKind::Not => "Not"@,
        TokenKind::Null => "Null"@,
        TokenKind::Nullif => "Nullif"@,
        TokenKind::Nulls => "Nulls"@,
        TokenKind::OctetLength => "OctetLength"@,
        TokenKind::Of => "Of"@,
        TokenKind::Offset => "Offset"@,
        TokenKind::Only => "Only"@,
        TokenKind::Optional => "Optional"@,
        TokenKind::Or => "Or"@,
        TokenKind::Order => "Order"@,
        TokenKind::Ordinality => "Ordinality"@,
        TokenKind::Otherwise => "Otherwise"@,
        TokenKind::Overlay => "Overlay"@,
        TokenKind::Parameter => "Parameter"@,
        TokenKind::ParameterKeyword => "ParameterKeyword"@,
        TokenKind::Parameters => "Parameters"@,
        TokenKind::Path => "Path"@,
        TokenKind::PathLength => "PathLength"@,
        TokenKind::Paths => "Paths"@,
        TokenKind::Percent => "Percent"@,
        TokenKind::PercentileCont => "PercentileCont"@,
        TokenKind::PercentileDisc => "PercentileDisc"@,
        TokenKind::Pipe => "Pipe"@,
        TokenKind::Placing => "Placing"@,
        TokenKind::Plus => "Plus"@,
        TokenKind::Position => "Position"@,
        TokenKind::Power => "Power"@,
        TokenKind::Property => "Property"@,
        TokenKind::PropertyExists => "PropertyExists"@,
        TokenKind::Question => "Question"@,
        TokenKind::QuotedString => "QuotedString"@,
        TokenKind::RBrace => "RBrace"@,
        TokenKind::RBracket => "RBracket"@,
        TokenKind::RParen => "RParen"@,
        TokenKind::Radians => "Radians"@,
        TokenKind::Read => "Read"@,
        TokenKind::Record => "Record"@,
        TokenKind::Relationship => "Relationship"@,
        TokenKind::Relationships => "Relationships"@,
        TokenKind::Remove => "Remove"@,
        TokenKind::Repeatable => "Repeatable"@,
        TokenKind::Replace => "Replace"@,
        TokenKind::Reset => "Reset"@,
        TokenKind::Return => "Return"@,
        TokenKind::Right => "Right"@,
        TokenKind::Rollback => "Rollback"@,
        TokenKind::Rtrim => "Rtrim"@,
        TokenKind::Same => "Same"@,
        TokenKind::Schema => "Schema"@,
        TokenKind::Select => "Select"@,
        TokenKind::Semicolon => "Semicolon"@,
        TokenKind::Serializable => "Serializable"@,
        TokenKind::Session => "Session"@,
        TokenKind::SetKeyword => "Set"@,
        TokenKind::Shortest => "Shortest"@,
        TokenKind::Simple => "Simple"@,
        TokenKind::Sin => "Sin"@,
        TokenKind::Sinh => "Sinh"@,
        TokenKind::Skip => "Skip"@,
        TokenKind::Slash => "Slash"@,
        TokenKind::Source => "Source"@,
        TokenKind::Sqrt => "Sqrt"@,
        TokenKind::Star => "Star"@,
        TokenKind::Start => "Start"@,
        TokenKind::StddevPop => "StddevPop"@,
        TokenKind::StddevSamp => "StddevSamp"@,
        TokenKind::String => "String"@,
        TokenKind::Substring => "Substring"@,
        TokenKind::Sum => "Sum"@,
        TokenKind::Table => "Table"@,
        TokenKind::Tan => "Tan"@,
        TokenKind::Tanh => "Tanh"@,
        TokenKind::Temp => "Temp"@,
        TokenKind::Then => "Then"@,
        TokenKind::Tilde => "Tilde"@,
        TokenKind::Time => "Time"@,
        TokenKind::Timestamp => "Timestamp"@,
        TokenKind::To => "To"@,
        TokenKind::Trail => "Trail"@,
        TokenKind::Trailing => "Trailing"@,
        TokenKind::Transaction => "Transaction"@,
        TokenKind::Trim => "Trim"@,
        TokenKind::True => "True"@,
        TokenKind::Type => "Type"@,
        TokenKind::Typed => "Typed"@,
        TokenKind::Uncommitted => "Uncommitted"@,
        TokenKind::Undirected => "Undirected"@,
        TokenKind::Union => "Union"@,
        TokenKind::Unknown => "Unknown"@,
        TokenKind::Upper => "Upper"@,
        TokenKind::Use => "Use"@,
        TokenKind::Value => "Value"@,
        TokenKind::Variable => "Variable"@,
        TokenKind::Vertex => "Vertex"@,
        TokenKind::Walk => "Walk"@,
        TokenKind::When => "When"@,
        TokenKind::Where => "Where"@,
        TokenKind::With => "With"@,
        TokenKind::Write => "Write"@,
        TokenKind::Xor => "Xor"@,
        TokenKind::Yield => "Yield"@,
        TokenKind::Zone => "Zone"@,
        TokenKind::ZonedDatetime => "ZonedDatetime"@,
        TokenKind::ZonedTime => "ZonedTime"@,
    }
}

impl TokenKind {
    /// The name of this kind, as its `Debug` form writes it.
    pub fn name(&self) -> (s: &'static str)
        ensures
            s@ == kind_name(*self),
    {
        match self {
            TokenKind::Abs => "Abs",
            TokenKind::Acos => "Acos",
            TokenKind::Acyclic => "Acyclic",
            TokenKind::All => "All",
            TokenKind::AllDifferent => "AllDifferent",
            TokenKind::Ampersand => "Ampersand",
            TokenKind::And => "And",
            TokenKind::Any => "Any",
            TokenKind::Array => "Array",
            TokenKind::ArrowLeft => "ArrowLeft",
            TokenKind::ArrowRight => "ArrowRight",
            TokenKind::As => "As",
            TokenKind::Asc => "Asc",
            TokenKind::Ascending => "Ascending",
            TokenKind::Asin => "Asin",
            TokenKind::At => "At",
            TokenKind::Atan => "Atan",
            TokenKind::Avg => "Avg",
            TokenKind::Bang => "Bang",
            TokenKind::Between => "Between",
            TokenKind::Binding => "Binding",
            TokenKind::Bindings => "Bindings",
            TokenKind::Both => "Both",
            TokenKind::Btrim => "Btrim",
            TokenKind::By => "By",
            TokenKind::ByteLength => "ByteLength",
            TokenKind::ByteString => "ByteString",
            TokenKind::Call => "Call",
            TokenKind::Case => "Case",
            TokenKind::Cast => "Cast",
            TokenKind::Ceil => "Ceil",
            TokenKind::Ceiling => "Ceiling",
            TokenKind::CharLength => "CharLength",
            TokenKind::CharacterLength => "CharacterLength",
            TokenKind::Characteristics => "Characteristics",
            TokenKind::Close => "Close",
            TokenKind::Coalesce => "Coalesce",
            TokenKind::CollectList => "CollectList",
            TokenKind::Colon => "Colon",
            TokenKind::Comma => "Comma",
            TokenKind::Commit => "Commit",
            TokenKind::Committed => "Committed",
            TokenKind::Connecting => "Connecting",
            TokenKind::Copy => "Copy",
            TokenKind::Cos => "Cos",
            TokenKind::Cosh => "Cosh",
            TokenKind::Cot => "Cot",
            TokenKind::Count => "Count",
            TokenKind::Create => "Create",
            TokenKind::Current => "Current",
            TokenKind::CurrentDate => "CurrentDate",
            TokenKind::CurrentGraph => "CurrentGraph",
            TokenKind::CurrentPropertyGraph => "CurrentPropertyGraph",
            TokenKind::CurrentSchema => "CurrentSchema",
            TokenKind::CurrentTime => "CurrentTime",
            TokenKind::CurrentTimestamp => "CurrentTimestamp",
            TokenKind::CurrentUser => "CurrentUser",
            TokenKind::Date => "Date",
            TokenKind::Datetime => "Datetime",
            TokenKind::Decimal => "Decimal",
            TokenKind::Degrees => "Degrees",
            TokenKind::Delete => "Delete",
            TokenKind::Desc => "Desc",
            TokenKind::Descending => "Descending",
            TokenKind::Destination => "Destination",
            TokenKind::Detach => "Detach",
            TokenKind::Different => "Different",
            TokenKind::Directed => "Directed",
            TokenKind::Distinct => "Distinct",
            TokenKind::Dot => "Dot",
            TokenKind::DoubleColon => "DoubleColon",
            TokenKind::DoublePipe => "DoublePipe",
            TokenKind::DoubleQuotedString => "DoubleQuotedString",
            TokenKind::Drop => "Drop",
            TokenKind::Duration => "Duration",
            TokenKind::DurationBetween => "DurationBetween",
            TokenKind::Edge => "Edge",
            TokenKind::Edges => "Edges",
            TokenKind::Element => "Element",
            TokenKind::ElementId => "ElementId",
            TokenKind::Elements => "Elements",
            TokenKind::Else => "Else",
            TokenKind::End => "End",
            TokenKind::Eof => "Eof",
            TokenKind::Eq => "Eq",
            TokenKind::Escape => "Escape",
            TokenKind::Except => "Except",
            TokenKind::Exists => "Exists",
            TokenKind::Exp => "Exp",
            TokenKind::False => "False",
            TokenKind::Filter => "Filter",
            TokenKind::Finish => "Finish",
            TokenKind::First => "First",
            TokenKind::Floor => "Floor",
            TokenKind::For => "For",
            TokenKind::From => "From",
            TokenKind::Ge => "Ge",
            TokenKind::Graph => "Graph",
            TokenKind::Group => "Group",
            TokenKind::Groups => "Groups",
            TokenKind::Gt => "Gt",
            TokenKind::Having => "Having",
            TokenKind::HomeGraph => "HomeGraph",
            TokenKind::HomePropertyGraph => "HomePropertyGraph",
            TokenKind::HomeSchema => "HomeSchema",
            TokenKind::Identifier => "Identifier",
            TokenKind::If => "If",
            TokenKind::In => "In",
            TokenKind::Insert => "Insert",
            TokenKind::Integer => "Integer",
            TokenKind::Intersect => "Intersect",
            TokenKind::Interval => "Interval",
            TokenKind::Is => "Is",
            TokenKind::Isolation => "Isolation",
            TokenKind::Keep => "Keep",
            TokenKind::LBrace => "LBrace",
            TokenKind::LBracket => "LBracket",
            TokenKind::LParen => "LParen",
            TokenKind::Label => "Label",
            TokenKind::Labeled => "Labeled",
            TokenKind::Labels => "Labels",
            TokenKind::Last => "Last",
            TokenKind::Le => "Le",
            TokenKind::Leading => "Leading",
            TokenKind::Left => "Left",
            TokenKind::Let => "Let",
            TokenKind::Level => "Level",
            TokenKind::Like => "Like",
            TokenKind::Limit => "Limit",
            TokenKind::List => "List",
            TokenKind::Ln => "Ln",
            TokenKind::LocalDatetime => "LocalDatetime",
            TokenKind::LocalTime => "LocalTime",
            TokenKind::Localtimestamp => "Localtimestamp",
            TokenKind::Log => "Log",
            TokenKind::Log10 => "Log10",
            TokenKind::Lower => "Lower",
            TokenKind::Lt => "Lt",
            TokenKind::Ltrim => "Ltrim",
            TokenKind::Match => "Match",
            TokenKind::Max => "Max",
            TokenKind::Min => "Min",
            TokenKind::Minus => "Minus",
            TokenKind::Mod => "Mod",
            TokenKind::Neq => "Neq",
            TokenKind::Next => "Next",
            TokenKind::No => "No",
            TokenKind::Node => "Node",
            TokenKind::Nodetach => "Nodetach",
            TokenKind::Normalize => "Normalize",
            TokenKind::Normalized => "Normalized",
            TokenKind::Not => "Not",
            TokenKind::Null => "Null",
            TokenKind::Nullif => "Nullif",
            TokenKind::Nulls => "Nulls",
            TokenKind::OctetLength => "OctetLength",
            TokenKind::Of => "Of",
            TokenKind::Offset => "Offset",
            TokenKind::Only => "Only",
            TokenKind::Optional => "Optional",
            TokenKind::Or => "Or",
            TokenKind::Order => "Order",
            TokenKind::Ordinality => "Ordinality",
            TokenKind::Otherwise => "Otherwise",
            TokenKind::Overlay => "Overlay",
            TokenKind::Parameter => "Parameter",
            TokenKind::ParameterKeyword => "ParameterKeyword",
            TokenKind::Parameters => "Parameters",
            TokenKind::Path => "Path",
            TokenKind::PathLength => "PathLength",
            TokenKind::Paths => "Paths",
            TokenKind::Percent => "Percent",
            TokenKind::PercentileCont => "PercentileCont",
            TokenKind::PercentileDisc => "PercentileDisc",
            TokenKind::Pipe => "Pipe",
            TokenKind::Placing => "Placing",
            TokenKind::Plus => "Plus",
            TokenKind::Position => "Position",
            TokenKind::Power => "Power",
            TokenKind::Property => "Property",
            TokenKind::PropertyExists => "PropertyExists",
            TokenKind::Question => "Question",
            TokenKind::QuotedString => "QuotedString",
            TokenKind::RBrace => "RBrace",
            TokenKind::RBracket => "RBracket",
            TokenKind::RParen => "RParen",
            TokenKind::Radians => "Radians",
            TokenKind::Read => "Read",
            TokenKind::Record => "Record",
            TokenKind::Relationship => "Relationship",
            TokenKind::Relationships => "Relationships",
            TokenKind::Remove => "Remove",
            TokenKind::Repeatable => "Repeatable",
            TokenKind::Replace => "Replace",
            TokenKind::Reset => "Reset",
            TokenKind::Return => "Return",
            TokenKind::Right => "Right",
            TokenKind::Rollback => "Rollback",
            TokenKind::Rtrim => "Rtrim",
            TokenKind::Same => "Same",
            TokenKind::Schema => "Schema",
            TokenKind::Select => "Select",
            TokenKind::Semicolon => "Semicolon",
            TokenKind::Serializable => "Serializable",
            TokenKind::Session => "Session",
            TokenKind::SetKeyword => "Set",
            TokenKind::Shortest => "Shortest",
            TokenKind::Simple => "Simple",
            TokenKind::Sin => "Sin",
            TokenKind::Sinh => "Sinh",
            TokenKind::Skip => "Skip",
            TokenKind::Slash => "Slash",
            TokenKind::Source => "Source",
            TokenKind::Sqrt => "Sqrt",
            TokenKind::Star => "Star",
            TokenKind::Start => "Start",
            TokenKind::StddevPop => "StddevPop",
            TokenKind::StddevSamp => "StddevSamp",
            TokenKind::String => "String",
            TokenKind::Substring => "Substring",
            TokenKind::Sum => "Sum",
            TokenKind::Table => "Table",
            TokenKind::Tan => "Tan",
            TokenKind::Tanh => "Tanh",
            TokenKind::Temp => "Temp",
            TokenKind::Then => "Then",
            TokenKind::Tilde => "Tilde",
            TokenKind::Time => "Time",
            TokenKind::Timestamp => "Timestamp",
            TokenKind::To => "To",
            TokenKind::Trail => "Trail",
            TokenKind::Trailing => "Trailing",
            TokenKind::Transaction => "Transaction",
            TokenKind::Trim => "Trim",
            TokenKind::True => "True",
            TokenKind::Type => "Type",
            TokenKind::Typed => "Typed",
            TokenKind::Uncommitted => "Uncommitted",
            TokenKind::Undirected => "Undirected",
            TokenKind::Union => "Union",
            TokenKind::Unknown => "Unknown",
            TokenKind::Upper => "Upper",
            TokenKind::Use => "Use",
            TokenKind::Value => "Value",
            TokenKind::Variable => "Variable",
            TokenKind::Vertex => "Vertex",
            TokenKind::Walk => "Walk",
            TokenKind::When => "When",
            TokenKind::Where => "Where",
            TokenKind::With => "With",
            TokenKind::Write => "Write",
            TokenKind::Xor => "Xor",
            TokenKind::Yield => "Yield",
            TokenKind::Zone => "Zone",
            TokenKind::ZonedDatetime => "ZonedDatetime",
            TokenKind::ZonedTime => "ZonedTime",
        }
    }
}

} // verus!
