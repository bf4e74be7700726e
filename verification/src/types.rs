//! The data model: source spans, semantic SQL types, argument slots,
//! result columns and classified statements.

use vstd::prelude::*;

verus! {

/// A half-open character range locating a construct in the call-site
/// source text.
#[derive(Clone, Copy, PartialEq, Eq, Structural, Debug)]
pub struct Span {
    pub start: usize,
    pub end: usize,
}

/// The semantic SQL type of an argument slot or result column, as the
/// schema type oracle classifies it.
///
/// The sized numeric variants demand exactly that width; `Integer` and
/// `Float` are the width-unconstrained families.  `Null`, `Invalid` and
/// `Args` are oracle-internal classifications; `Invalid` also fills
/// argument positions the oracle never mentioned.
#[derive(Clone, Copy, PartialEq, Eq, Structural, Debug)]
pub enum SqlKind {
    U8,
    I8,
    U16,
    I16,
    U32,
    I32,
    U64,
    I64,
    F32,
    F64,
    Integer,
    Float,
    Bool,
    Bytes,
    Str,
    Date,
    DateTime,
    Time,
    TimeStamp,
    Enum,
    EnumSet,
    Json,
    Any,
    Null,
    Invalid,
    Args,
}

/// A semantic type together with its nullability and whether the slot
/// accepts a variable-length list expanded into multiple placeholders.
#[derive(Clone, Copy, PartialEq, Eq, Structural, Debug)]
pub struct FullType {
    pub kind: SqlKind,
    pub nullable: bool,
    pub list: bool,
}

impl FullType {
    /// The placeholder type for argument positions the oracle never
    /// referenced: invalid, nullable, not a list.
    pub open spec fn invalid_spec() -> FullType {
        FullType { kind: SqlKind::Invalid, nullable: true, list: false }
    }

    /// Builds the placeholder type used to fill unreferenced positions.
    pub fn invalid() -> (t: FullType)
        ensures
            t == FullType::invalid_spec(),
    {
        FullType { kind: SqlKind::Invalid, nullable: true, list: false }
    }
}

/// How the oracle identifies an argument slot: by zero-based position, or
/// by name.  Named slots are unsupported by this binder and are always
/// surfaced as an error.
#[derive(Clone, PartialEq, Eq, Debug)]
pub enum ArgKey {
    Index(usize),
    Named(String),
}

/// One result column: an optional name (absent for computed expressions)
/// and its semantic type.
#[derive(Clone, PartialEq, Eq, Debug)]
pub struct Column {
    pub name: Option<String>,
    pub ty: FullType,
}

/// One caller-supplied argument expression.  The binder never interprets
/// it: expressions are counted, paired with argument slots, and referred
/// to by their source location in diagnostics.
#[derive(Clone, Copy, PartialEq, Eq, Structural, Debug)]
pub struct CallerExpr {
    pub span: Span,
}

/// A query as the oracle classified it: its statement kind, the argument
/// slots it binds, and the result columns it produces, if any.
#[derive(Clone, Debug)]
pub enum Statement {
    Select { columns: Vec<Column>, arguments: Vec<(ArgKey, FullType)> },
    Delete { arguments: Vec<(ArgKey, FullType)> },
    Insert { arguments: Vec<(ArgKey, FullType)>, returning: Option<Vec<Column>> },
    Update { arguments: Vec<(ArgKey, FullType)> },
    Replace { arguments: Vec<(ArgKey, FullType)>, returning: Option<Vec<Column>> },
    Invalid,
}

/// Tag type naming the width-unconstrained integer input class.
pub struct Integer;

/// Tag type naming the width-unconstrained float input class.
pub struct Float;

/// Tag type naming the timestamp input class.
pub struct Timestamp;

/// Tag type naming the datetime input class.
pub struct DateTime;

/// Tag type naming the date input class.
pub struct Date;

/// Tag type naming the time input class.
pub struct Time;

/// Tag type naming the unconstrained input class.
pub struct Any;

} // verus!
