use vstd::prelude::*;
use crate::token::TokenKind;

verus! {

/// Whether a token of this kind can stand where an identifier is expected: identifiers, quoted words and the non-reserved keywords.
pub open spec fn spec_is_identifier_like(kind: TokenKind) -> bool {
    match kind {
        TokenKind::Identifier
        | TokenKind::DoubleQuotedString
        | TokenKind::QuotedString
        | TokenKind::Match
        | TokenKind::Optional
        | TokenKind::Where
        | TokenKind::Filter
        | TokenKind::Let
        | TokenKind::For
        | TokenKind::ParameterKeyword
        | TokenKind::Parameters
        | TokenKind::Characteristics
        | TokenKind::In
        | TokenKind::Between
        | TokenKind::Call
        | TokenKind::Yield
        | TokenKind::Next
        | TokenKind::Select
        | TokenKind::Return
        | TokenKind::Distinct
        | TokenKind::All
        | TokenKind::As
        | TokenKind::With
        | TokenKind::Group
        | TokenKind::Groups
        | TokenKind::Having
        | TokenKind::Keep
        | TokenKind::Order
        | TokenKind::By
        | TokenKind::Asc
        | TokenKind::Ascending
        | TokenKind::Desc
        | TokenKind::Descending
        | TokenKind::Nulls
        | TokenKind::First
        | TokenKind::Last
        | TokenKind::Limit
        | TokenKind::Offset
        | TokenKind::Skip
        | TokenKind::Insert
        | TokenKind::Create
        | TokenKind::Delete
        | TokenKind::SetKeyword
        | TokenKind::Remove
        | TokenKind::Detach
        | TokenKind::Nodetach
        | TokenKind::Property
        | TokenKind::Graph
        | TokenKind::Schema
        | TokenKind::Type
        | TokenKind::Node
        | TokenKind::Vertex
        | TokenKind::Edge
        | TokenKind::Relationship
        | TokenKind::Relationships
        | TokenKind::From
        | TokenKind::To
        | TokenKind::Connecting
        | TokenKind::If
        | TokenKind::Not
        | TokenKind::Exists
        | TokenKind::Drop
        | TokenKind::Use
        | TokenKind::At
        | TokenKind::Reset
        | TokenKind::Close
        | TokenKind::Session
        | TokenKind::Start
        | TokenKind::Transaction
        | TokenKind::Read
        | TokenKind::Write
        | TokenKind::Only
        | TokenKind::Isolation
        | TokenKind::Level
        | TokenKind::Serializable
        | TokenKind::Repeatable
        | TokenKind::Committed
        | TokenKind::Uncommitted
        | TokenKind::List
        | TokenKind::Array
        | TokenKind::Record
        | TokenKind::Date
        | TokenKind::Time
        | TokenKind::Zone
        | TokenKind::Datetime
        | TokenKind::Timestamp
        | TokenKind::Interval
        | TokenKind::Duration
        | TokenKind::DurationBetween
        | TokenKind::CurrentDate
        | TokenKind::CurrentTime
        | TokenKind::CurrentTimestamp
        | TokenKind::CurrentUser
        | TokenKind::Localtimestamp
        | TokenKind::ZonedTime
        | TokenKind::ZonedDatetime
        | TokenKind::LocalTime
        | TokenKind::LocalDatetime
        | TokenKind::Avg
        | TokenKind::Count
        | TokenKind::Max
        | TokenKind::Min
        | TokenKind::Sum
        | TokenKind::CollectList
        | TokenKind::StddevSamp
        | TokenKind::StddevPop
        | TokenKind::PercentileCont
        | TokenKind::PercentileDisc
        | TokenKind::Abs
        | TokenKind::Mod
        | TokenKind::Floor
        | TokenKind::Ceil
        | TokenKind::Ceiling
        | TokenKind::Sqrt
        | TokenKind::Power
        | TokenKind::Log
        | TokenKind::Log10
        | TokenKind::Ln
        | TokenKind::Exp
        | TokenKind::Sin
        | TokenKind::Cos
        | TokenKind::Tan
        | TokenKind::Cot
        | TokenKind::Sinh
        | TokenKind::Cosh
        | TokenKind::Tanh
        | TokenKind::Asin
        | TokenKind::Acos
        | TokenKind::Atan
        | TokenKind::Degrees
        | TokenKind::Radians
        | TokenKind::PathLength
        | TokenKind::Case
        | TokenKind::Coalesce
        | TokenKind::Nullif
        | TokenKind::Cast
        | TokenKind::When
        | TokenKind::Then
        | TokenKind::Else
        | TokenKind::End
        | TokenKind::PropertyExists
        | TokenKind::ElementId
        | TokenKind::Same
        | TokenKind::AllDifferent
        | TokenKind::Overlay
        | TokenKind::Placing
        | TokenKind::Position
        | TokenKind::Substring
        | TokenKind::Left
        | TokenKind::Right
        | TokenKind::Trim
        | TokenKind::Btrim
        | TokenKind::Ltrim
        | TokenKind::Rtrim
        | TokenKind::Upper
        | TokenKind::Lower
        | TokenKind::Normalize
        | TokenKind::CharLength
        | TokenKind::CharacterLength
        | TokenKind::ByteLength
        | TokenKind::OctetLength
        | TokenKind::Leading
        | TokenKind::Trailing
        | TokenKind::Both
        | TokenKind::Source
        | TokenKind::Destination
        | TokenKind::Of
        | TokenKind::Normalized
        | TokenKind::Directed
        | TokenKind::Undirected
        | TokenKind::Labeled
        | TokenKind::Label
        | TokenKind::Labels
        | TokenKind::Commit
        | TokenKind::Rollback
        | TokenKind::Replace
        | TokenKind::Like
        | TokenKind::Escape
        | TokenKind::Copy
        | TokenKind::Current
        | TokenKind::CurrentGraph
        | TokenKind::CurrentPropertyGraph
        | TokenKind::CurrentSchema
        | TokenKind::HomeGraph
        | TokenKind::HomePropertyGraph
        | TokenKind::HomeSchema
        | TokenKind::And
        | TokenKind::Or
        | TokenKind::Xor
        | TokenKind::Is
        | TokenKind::Typed
        | TokenKind::Null
        | TokenKind::True
        | TokenKind::False
        | TokenKind::Unknown
        | TokenKind::Value
        | TokenKind::Variable
        | TokenKind::Union
        | TokenKind::Except
        | TokenKind::Intersect
        | TokenKind::Otherwise
        | TokenKind::Ordinality
        | TokenKind::Finish
        | TokenKind::No
        | TokenKind::Binding
        | TokenKind::Bindings
        | TokenKind::Table
        | TokenKind::Temp
        | TokenKind::Different
        | TokenKind::Element
        | TokenKind::Elements
        | TokenKind::Edges
        | TokenKind::Any
        | TokenKind::Shortest
        | TokenKind::Walk
        | TokenKind::Trail
        | TokenKind::Simple
        | TokenKind::Acyclic
        | TokenKind::Path
        | TokenKind::Paths => true,
        _ => false,
    }
}

/// Whether a token of this kind can stand where an identifier is expected: identifiers, quoted words and the non-reserved keywords.
pub fn is_identifier_like(kind: TokenKind) -> (r: bool)
    ensures
        r == spec_is_identifier_like(kind),
{
    match kind {
        TokenKind::Identifier
        | TokenKind::DoubleQuotedString
        | TokenKind::QuotedString
        | TokenKind::Match
        | TokenKind::Optional
        | TokenKind::Where
        | TokenKind::Filter
        | TokenKind::Let
        | TokenKind::For
        | TokenKind::ParameterKeyword
        | TokenKind::Parameters
        | TokenKind::Characteristics
        | TokenKind::In
        | TokenKind::Between
        | TokenKind::Call
        | TokenKind::Yield
        | TokenKind::Next
        | TokenKind::Select
        | TokenKind::Return
        | TokenKind::Distinct
        | TokenKind::All
        | TokenKind::As
        | TokenKind::With
        | TokenKind::Group
        | TokenKind::Groups
        | TokenKind::Having
        | TokenKind::Keep
        | TokenKind::Order
        | TokenKind::By
        | TokenKind::Asc
        | TokenKind::Ascending
        | TokenKind::Desc
        | TokenKind::Descending
        | TokenKind::Nulls
        | TokenKind::First
        | TokenKind::Last
        | TokenKind::Limit
        | TokenKind::Offset
        | TokenKind::Skip
        | TokenKind::Insert
        | TokenKind::Create
        | TokenKind::Delete
        | TokenKind::SetKeyword
        | TokenKind::Remove
        | TokenKind::Detach
        | TokenKind::Nodetach
        | TokenKind::Property
        | TokenKind::Graph
        | TokenKind::Schema
        | TokenKind::Type
        | TokenKind::Node
        | TokenKind::Vertex
        | TokenKind::Edge
        | TokenKind::Relationship
        | TokenKind::Relationships
        | TokenKind::From
        | TokenKind::To
        | TokenKind::Connecting
        | TokenKind::If
        | TokenKind::Not
        | TokenKind::Exists
        | TokenKind::Drop
        | TokenKind::Use
        | TokenKind::At
        | TokenKind::Reset
        | TokenKind::Close
        | TokenKind::Session
        | TokenKind::Start
        | TokenKind::Transaction
        | TokenKind::Read
        | TokenKind::Write
        | TokenKind::Only
        | TokenKind::Isolation
        | TokenKind::Level
        | TokenKind::Serializable
        | TokenKind::Repeatable
        | TokenKind::Committed
        | TokenKind::Uncommitted
        | TokenKind::List
        | TokenKind::Array
        | TokenKind::Record
        | TokenKind::Date
        | TokenKind::Time
        | TokenKind::Zone
        | TokenKind::Datetime
        | TokenKind::Timestamp
        | TokenKind::Interval
        | TokenKind::Duration
        | TokenKind::DurationBetween
        | TokenKind::CurrentDate
        | TokenKind::CurrentTime
        | TokenKind::CurrentTimestamp
        | TokenKind::CurrentUser
        | TokenKind::Localtimestamp
        | TokenKind::ZonedTime
        | TokenKind::ZonedDatetime
        | TokenKind::LocalTime
        | TokenKind::LocalDatetime
        | TokenKind::Avg
        | TokenKind::Count
        | TokenKind::Max
        | TokenKind::Min
        | TokenKind::Sum
        | TokenKind::CollectList
        | TokenKind::StddevSamp
        | TokenKind::StddevPop
        | TokenKind::PercentileCont
        | TokenKind::PercentileDisc
        | TokenKind::Abs
        | TokenKind::Mod
        | TokenKind::Floor
        | TokenKind::Ceil
        | TokenKind::Ceiling
        | TokenKind::Sqrt
        | TokenKind::Power
        | TokenKind::Log
        | TokenKind::Log10
        | TokenKind::Ln
        | TokenKind::Exp
        | TokenKind::Sin
        | TokenKind::Cos
        | TokenKind::Tan
        | TokenKind::Cot
        | TokenKind::Sinh
        | TokenKind::Cosh
        | TokenKind::Tanh
        | TokenKind::Asin
        | TokenKind::Acos
        | TokenKind::Atan
        | TokenKind::Degrees
        | TokenKind::Radians
        | TokenKind::PathLength
        | TokenKind::Case
        | TokenKind::Coalesce
        | TokenKind::Nullif
        | TokenKind::Cast
        | TokenKind::When
        | TokenKind::Then
        | TokenKind::Else
        | TokenKind::End
        | TokenKind::PropertyExists
        | TokenKind::ElementId
        | TokenKind::Same
        | TokenKind::AllDifferent
        | TokenKind::Overlay
        | TokenKind::Placing
        | TokenKind::Position
        | TokenKind::Substring
        | TokenKind::Left
        | TokenKind::Right
        | TokenKind::Trim
        | TokenKind::Btrim
        | TokenKind::Ltrim
        | TokenKind::Rtrim
        | TokenKind::Upper
        | TokenKind::Lower
        | TokenKind::Normalize
        | TokenKind::CharLength
        | TokenKind::CharacterLength
        | TokenKind::ByteLength
        | TokenKind::OctetLength
        | TokenKind::Leading
        | TokenKind::Trailing
        | TokenKind::Both
        | TokenKind::Source
        | TokenKind::Destination
        | TokenKind::Of
        | TokenKind::Normalized
        | TokenKind::Directed
        | TokenKind::Undirected
        | TokenKind::Labeled
        | TokenKind::Label
        | TokenKind::Labels
        | TokenKind::Commit
        | TokenKind::Rollback
        | TokenKind::Replace
        | TokenKind::Like
        | TokenKind::Escape
        | TokenKind::Copy
        | TokenKind::Current
        | TokenKind::CurrentGraph
        | TokenKind::CurrentPropertyGraph
        | TokenKind::CurrentSchema
        | TokenKind::HomeGraph
        | TokenKind::HomePropertyGraph
        | TokenKind::HomeSchema
        | TokenKind::And
        | TokenKind::Or
        | TokenKind::Xor
        | TokenKind::Is
        | TokenKind::Typed
        | TokenKind::Null
        | TokenKind::True
        | TokenKind::False
        | TokenKind::Unknown
        | TokenKind::Value
        | TokenKind::Variable
        | TokenKind::Union
        | TokenKind::Except
        | TokenKind::Intersect
        | TokenKind::Otherwise
        | TokenKind::Ordinality
        | TokenKind::Finish
        | TokenKind::No
        | TokenKind::Binding
        | TokenKind::Bindings
        | TokenKind::Table
        | TokenKind::Temp
        | TokenKind::Different
        | TokenKind::Element
        | TokenKind::Elements
        | TokenKind::Edges
        | TokenKind::Any
        | TokenKind::Shortest
        | TokenKind::Walk
        | TokenKind::Trail
        | TokenKind::Simple
        | TokenKind::Acyclic
        | TokenKind::Path
        | TokenKind::Paths => true,
        _ => false,
    }
}

/// Whether a token of this kind can begin a statement that follows a transaction start without a semicolon.
pub open spec fn spec_starts_transaction_procedure(kind: TokenKind) -> bool {
    match kind {
        TokenKind::At
        | TokenKind::Use
        | TokenKind::Match
        | TokenKind::Optional
        | TokenKind::Filter
        | TokenKind::Let
        | TokenKind::For
        | TokenKind::Order
        | TokenKind::Offset
        | TokenKind::Skip
        | TokenKind::Limit
        | TokenKind::LBrace
        | TokenKind::Return
        | TokenKind::Select
        | TokenKind::Finish
        | TokenKind::Call
        | TokenKind::Insert
        | TokenKind::Delete
        | TokenKind::Detach
        | TokenKind::Nodetach
        | TokenKind::SetKeyword
        | TokenKind::Remove
        | TokenKind::Create
        | TokenKind::Drop => true,
        _ => false,
    }
}

/// Whether a token of this kind can begin a statement that follows a transaction start without a semicolon.
pub fn starts_transaction_procedure(kind: TokenKind) -> (r: bool)
    ensures
        r == spec_starts_transaction_procedure(kind),
{
    match kind {
        TokenKind::At
        | TokenKind::Use
        | TokenKind::Match
        | TokenKind::Optional
        | TokenKind::Filter
        | TokenKind::Let
        | TokenKind::For
        | TokenKind::Order
        | TokenKind::Offset
        | TokenKind::Skip
        | TokenKind::Limit
        | TokenKind::LBrace
        | TokenKind::Return
        | TokenKind::Select
        | TokenKind::Finish
        | TokenKind::Call
        | TokenKind::Insert
        | TokenKind::Delete
        | TokenKind::Detach
        | TokenKind::Nodetach
        | TokenKind::SetKeyword
        | TokenKind::Remove
        | TokenKind::Create
        | TokenKind::Drop => true,
        _ => false,
    }
}

/// Whether a token of this kind can follow a schema reference, so a lone `/` before it names the root schema.
pub open spec fn spec_is_schema_reference_follow(kind: TokenKind) -> bool {
    match kind {
        TokenKind::Use
        | TokenKind::Optional
        | TokenKind::Match
        | TokenKind::Filter
        | TokenKind::Let
        | TokenKind::For
        | TokenKind::Call
        | TokenKind::Insert
        | TokenKind::Delete
        | TokenKind::Detach
        | TokenKind::Nodetach
        | TokenKind::SetKeyword
        | TokenKind::Remove
        | TokenKind::Order
        | TokenKind::Offset
        | TokenKind::Skip
        | TokenKind::Limit
        | TokenKind::Return
        | TokenKind::Select
        | TokenKind::Finish
        | TokenKind::Semicolon
        | TokenKind::Eof
        | TokenKind::RBrace => true,
        _ => false,
    }
}

/// Whether a token of this kind can follow a schema reference, so a lone `/` before it names the root schema.
pub fn is_schema_reference_follow(kind: TokenKind) -> (r: bool)
    ensures
        r == spec_is_schema_reference_follow(kind),
{
    match kind {
        TokenKind::Use
        | TokenKind::Optional
        | TokenKind::Match
        | TokenKind::Filter
        | TokenKind::Let
        | TokenKind::For
        | TokenKind::Call
        | TokenKind::Insert
        | TokenKind::Delete
        | TokenKind::Detach
        | TokenKind::Nodetach
        | TokenKind::SetKeyword
        | TokenKind::Remove
        | TokenKind::Order
        | TokenKind::Offset
        | TokenKind::Skip
        | TokenKind::Limit
        | TokenKind::Return
        | TokenKind::Select
        | TokenKind::Finish
        | TokenKind::Semicolon
        | TokenKind::Eof
        | TokenKind::RBrace => true,
        _ => false,
    }
}

/// Whether a token of this kind can follow a complete statement.
pub open spec fn spec_is_statement_follow(kind: TokenKind) -> bool {
    match kind {
        TokenKind::Semicolon
        | TokenKind::Next
        | TokenKind::RBrace
        | TokenKind::Eof => true,
        _ => false,
    }
}

/// Whether a token of this kind can follow a complete statement.
pub fn is_statement_follow(kind: TokenKind) -> (r: bool)
    ensures
        r == spec_is_statement_follow(kind),
{
    match kind {
        TokenKind::Semicolon
        | TokenKind::Next
        | TokenKind::RBrace
        | TokenKind::Eof => true,
        _ => false,
    }
}

/// Whether a token of this kind is a synonym for an edge: `EDGE` or `RELATIONSHIP`.
pub open spec fn spec_is_edge_synonym_kind(kind: TokenKind) -> bool {
    kind == TokenKind::Edge || kind == TokenKind::Relationship
}

/// Whether a token of this kind is a synonym for an edge: `EDGE` or `RELATIONSHIP`.
pub fn is_edge_synonym_kind(kind: TokenKind) -> (r: bool)
    ensures
        r == spec_is_edge_synonym_kind(kind),
{
    match kind {
        TokenKind::Edge | TokenKind::Relationship => true,
        _ => false,
    }
}

/// Whether a token of this kind can be a type name after the marker `TYPE`: an
/// identifier-like token that does not start the rest of a type phrase.
pub open spec fn spec_is_type_name_after_type_marker(kind: TokenKind) -> bool {
    spec_is_identifier_like(kind) && !(match kind {
        TokenKind::Label
        | TokenKind::Labels
        | TokenKind::LBrace
        | TokenKind::From
        | TokenKind::To
        | TokenKind::Connecting
        | TokenKind::Comma
        | TokenKind::RBrace
        | TokenKind::Eof => true,
        _ => false,
    })
}

/// Whether a token of this kind can be a type name after the marker `TYPE`: an
/// identifier-like token that does not start the rest of a type phrase.
pub fn is_type_name_after_type_marker(kind: TokenKind) -> (r: bool)
    ensures
        r == spec_is_type_name_after_type_marker(kind),
{
    is_identifier_like(kind) && !(match kind {
        TokenKind::Label
        | TokenKind::Labels
        | TokenKind::LBrace
        | TokenKind::From
        | TokenKind::To
        | TokenKind::Connecting
        | TokenKind::Comma
        | TokenKind::RBrace
        | TokenKind::Eof => true,
        _ => false,
    })
}

} // verus!
