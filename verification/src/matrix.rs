//! The type compatibility matrix.
//!
//! For each semantic SQL type it answers two questions: which host
//! representations may *supply* a value of that type (input direction,
//! checked by [`check_arg`] and [`check_arg_list_hack`]), and which host
//! representations may *receive* a decoded value of that type (output
//! direction, checked by [`arg_out`]).  Widening is never performed: a
//! sized slot accepts exactly its own width.  A nullable slot additionally
//! accepts the representation wrapped in an optional container, and
//! references to it; a non-nullable slot rejects every optional form.

use vstd::prelude::*;

use crate::types::{FullType, SqlKind};

verus! {

/// A host-language base type that can supply or receive SQL values.
#[derive(Clone, Copy, PartialEq, Eq, Structural, Debug)]
pub enum HostBase {
    U8,
    I8,
    U16,
    I16,
    U32,
    I32,
    U64,
    I64,
    F32,
    F64,
    Bool,
    OwnedString,
    StrRef,
    CowStr,
    BytesRef,
    OwnedBytes,
    NaiveDate,
    NaiveDateTime,
    UtcDateTime,
}

/// A host representation: a base type, possibly wrapped in an optional
/// container, possibly behind references.  `outer_ref` is a reference to
/// the whole value; `inner_ref` is a reference inside the optional
/// container and is only meaningful when `optional` is set.
#[derive(Clone, Copy, PartialEq, Eq, Structural, Debug)]
pub struct HostRepr {
    pub base: HostBase,
    pub optional: bool,
    pub outer_ref: bool,
    pub inner_ref: bool,
}

/// The input class a slot's semantic type demands of a supplied value.
/// The wider classes are the ones the tag types `Integer`, `Float`,
/// `Date`, `DateTime`, `Timestamp` and `Any` name.
#[derive(Clone, Copy, PartialEq, Eq, Structural, Debug)]
pub enum InputClass {
    U8,
    I8,
    U16,
    I16,
    U32,
    I32,
    U64,
    I64,
    F32,
    F64,
    Bool,
    Bytes,
    Str,
    Integer,
    Float,
    Date,
    DateTime,
    Timestamp,
    Any,
}

/// The input class of each semantic type, or none for the kinds no
/// supplied value can have (`Time`, `Null`, `Invalid`, `Args`).
pub open spec fn input_class(k: SqlKind) -> Option<InputClass> {
    match k {
        SqlKind::U8 => Some(InputClass::U8),
        SqlKind::I8 => Some(InputClass::I8),
        SqlKind::U16 => Some(InputClass::U16),
        SqlKind::I16 => Some(InputClass::I16),
        SqlKind::U32 => Some(InputClass::U32),
        SqlKind::I32 => Some(InputClass::I32),
        SqlKind::U64 => Some(InputClass::U64),
        SqlKind::I64 => Some(InputClass::I64),
        SqlKind::F32 => Some(InputClass::F32),
        SqlKind::F64 => Some(InputClass::F64),
        SqlKind::Integer => Some(InputClass::Integer),
        SqlKind::Float => Some(InputClass::Float),
        SqlKind::Bool => Some(InputClass::Bool),
        SqlKind::Bytes => Some(InputClass::Bytes),
        SqlKind::Str => Some(InputClass::Str),
        SqlKind::Date => Some(InputClass::Date),
        SqlKind::DateTime => Some(InputClass::DateTime),
        SqlKind::TimeStamp => Some(InputClass::Timestamp),
        SqlKind::Enum => Some(InputClass::Str),
        SqlKind::EnumSet => Some(InputClass::Str),
        SqlKind::Json => Some(InputClass::Any),
        SqlKind::Any => Some(InputClass::Any),
        SqlKind::Time => None,
        SqlKind::Null => None,
        SqlKind::Invalid => None,
        SqlKind::Args => None,
    }
}

/// Is `b` one of the eight sized integer base types?
pub open spec fn is_integer_base(b: HostBase) -> bool {
    ||| b is U8
    ||| b is I8
    ||| b is U16
    ||| b is I16
    ||| b is U32
    ||| b is I32
    ||| b is U64
    ||| b is I64
}

/// Which base types each input class accepts.  `Date` accepts none: no
/// host representation supplies a bare date.
pub open spec fn class_accepts(c: InputClass, b: HostBase) -> bool {
    match c {
        InputClass::U8 => b is U8,
        InputClass::I8 => b is I8,
        InputClass::U16 => b is U16,
        InputClass::I16 => b is I16,
        InputClass::U32 => b is U32,
        InputClass::I32 => b is I32,
        InputClass::U64 => b is U64,
        InputClass::I64 => b is I64,
        InputClass::F32 => b is F32,
        InputClass::F64 => b is F64,
        InputClass::Bool => b is Bool,
        InputClass::Bytes => b is BytesRef || b is OwnedBytes,
        InputClass::Str => b is StrRef || b is OwnedString || b is CowStr,
        InputClass::Integer => is_integer_base(b),
        InputClass::Float => b is F32 || b is F64,
        InputClass::Date => false,
        InputClass::DateTime => b is NaiveDateTime,
        InputClass::Timestamp => b is NaiveDateTime || b is UtcDateTime,
        InputClass::Any => is_integer_base(b) || b is OwnedString || b is StrRef || b is F32
            || b is F64,
    }
}

/// The optional/reference forms a slot admits.  A non-nullable slot takes
/// the plain value or a reference to it; a nullable slot additionally
/// takes the value wrapped in an optional container, with references
/// outside or inside the container.
pub open spec fn input_form_ok(t: FullType, r: HostRepr) -> bool {
    if t.nullable {
        r.optional || !r.inner_ref
    } else {
        !r.optional && !r.inner_ref
    }
}

/// May a value of host representation `r` supply a slot of type `t`?
pub open spec fn accepts_as_input(t: FullType, r: HostRepr) -> bool {
    &&& input_class(t.kind) is Some
    &&& class_accepts(input_class(t.kind).unwrap(), r.base)
    &&& input_form_ok(t, r)
}

/// The base type a decoded column of each semantic type produces, or none
/// for the kinds no column value can have (`Any`, `Time`, `Null`, `Args`).
pub open spec fn decode_base(k: SqlKind) -> Option<HostBase> {
    match k {
        SqlKind::U8 => Some(HostBase::U8),
        SqlKind::I8 => Some(HostBase::I8),
        SqlKind::U16 => Some(HostBase::U16),
        SqlKind::I16 => Some(HostBase::I16),
        SqlKind::U32 => Some(HostBase::U32),
        SqlKind::I32 => Some(HostBase::I32),
        SqlKind::U64 => Some(HostBase::U64),
        SqlKind::I64 => Some(HostBase::I64),
        SqlKind::F32 => Some(HostBase::F32),
        SqlKind::F64 => Some(HostBase::F64),
        SqlKind::Integer => Some(HostBase::I64),
        SqlKind::Float => Some(HostBase::F64),
        SqlKind::Bool => Some(HostBase::Bool),
        SqlKind::Bytes => Some(HostBase::OwnedBytes),
        SqlKind::Str => Some(HostBase::OwnedString),
        SqlKind::Date => Some(HostBase::NaiveDate),
        SqlKind::DateTime => Some(HostBase::NaiveDateTime),
        SqlKind::TimeStamp => Some(HostBase::UtcDateTime),
        SqlKind::Enum => Some(HostBase::OwnedString),
        SqlKind::EnumSet => Some(HostBase::OwnedString),
        SqlKind::Json => Some(HostBase::OwnedString),
        SqlKind::Invalid => Some(HostBase::I64),
        SqlKind::Any => None,
        SqlKind::Time => None,
        SqlKind::Null => None,
        SqlKind::Args => None,
    }
}

/// Which field base types may receive a decoded value whose target base is
/// `d`.  Exact match only, and no receiver exists for the date targets.
pub open spec fn out_accepts(d: HostBase, b: HostBase) -> bool {
    match d {
        HostBase::NaiveDate => false,
        HostBase::NaiveDateTime => false,
        HostBase::StrRef => false,
        HostBase::CowStr => false,
        HostBase::BytesRef => false,
        _ => b == d,
    }
}

/// May a field of host representation `r` receive a decoded column of type
/// `t`?  No reference forms take part in decoding; a nullable column must
/// be received in an optional container, while a non-nullable column may
/// be received either plainly or optionally.
pub open spec fn accepts_as_output(t: FullType, r: HostRepr) -> bool {
    &&& decode_base(t.kind) is Some
    &&& out_accepts(decode_base(t.kind).unwrap(), r.base)
    &&& !r.outer_ref
    &&& !r.inner_ref
    &&& (t.nullable ==> r.optional)
}

/// Computes the input class of `k`, as [`input_class`] states it.
pub fn input_class_of(k: SqlKind) -> (c: Option<InputClass>)
    ensures
        c == input_class(k),
{
    match k {
        SqlKind::U8 => Some(InputClass::U8),
        SqlKind::I8 => Some(InputClass::I8),
        SqlKind::U16 => Some(InputClass::U16),
        SqlKind::I16 => Some(InputClass::I16),
        SqlKind::U32 => Some(InputClass::U32),
        SqlKind::I32 => Some(InputClass::I32),
        SqlKind::U64 => Some(InputClass::U64),
        SqlKind::I64 => Some(InputClass::I64),
        SqlKind::F32 => Some(InputClass::F32),
        SqlKind::F64 => Some(InputClass::F64),
        SqlKind::Integer => Some(InputClass::Integer),
        SqlKind::Float => Some(InputClass::Float),
        SqlKind::Bool => Some(InputClass::Bool),
        SqlKind::Bytes => Some(InputClass::Bytes),
        SqlKind::Str => Some(InputClass::Str),
        SqlKind::Date => Some(InputClass::Date),
        SqlKind::DateTime => Some(InputClass::DateTime),
        SqlKind::TimeStamp => Some(InputClass::Timestamp),
        SqlKind::Enum => Some(InputClass::Str),
        SqlKind::EnumSet => Some(InputClass::Str),
        SqlKind::Json => Some(InputClass::Any),
        SqlKind::Any => Some(InputClass::Any),
        SqlKind::Time => None,
        SqlKind::Null => None,
        SqlKind::Invalid => None,
        SqlKind::Args => None,
    }
}

fn integer_base(b: HostBase) -> (ok: bool)
    ensures
        ok == is_integer_base(b),
{
    matches!(
        b,
        HostBase::U8 | HostBase::I8 | HostBase::U16 | HostBase::I16 | HostBase::U32 | HostBase::I32
            | HostBase::U64 | HostBase::I64
    )
}

fn class_accepts_base(c: InputClass, b: HostBase) -> (ok: bool)
    ensures
        ok == class_accepts(c, b),
{
    match c {
        InputClass::U8 => matches!(b, HostBase::U8),
        InputClass::I8 => matches!(b, HostBase::I8),
        InputClass::U16 => matches!(b, HostBase::U16),
        InputClass::I16 => matches!(b, HostBase::I16),
        InputClass::U32 => matches!(b, HostBase::U32),
        InputClass::I32 => matches!(b, HostBase::I32),
        InputClass::U64 => matches!(b, HostBase::U64),
        InputClass::I64 => matches!(b, HostBase::I64),
        InputClass::F32 => matches!(b, HostBase::F32),
        InputClass::F64 => matches!(b, HostBase::F64),
        InputClass::Bool => matches!(b, HostBase::Bool),
        InputClass::Bytes => matches!(b, HostBase::BytesRef | HostBase::OwnedBytes),
        InputClass::Str => matches!(
            b,
            HostBase::StrRef | HostBase::OwnedString | HostBase::CowStr
        ),
        InputClass::Integer => integer_base(b),
        InputClass::Float => matches!(b, HostBase::F32 | HostBase::F64),
        InputClass::Date => false,
        InputClass::DateTime => matches!(b, HostBase::NaiveDateTime),
        InputClass::Timestamp => matches!(b, HostBase::NaiveDateTime | HostBase::UtcDateTime),
        InputClass::Any => integer_base(b) || matches!(
            b,
            HostBase::OwnedString | HostBase::StrRef | HostBase::F32 | HostBase::F64
        ),
    }
}

/// May a value of host representation `r` be supplied for an argument slot
/// of type `t`?
pub fn check_arg(t: &FullType, r: &HostRepr) -> (ok: bool)
    ensures
        ok == accepts_as_input(*t, *r),
{
    let form_ok = if t.nullable {
        r.optional || !r.inner_ref
    } else {
        !r.optional && !r.inner_ref
    };
    if !form_ok {
        return false;
    }
    match input_class_of(t.kind) {
        Some(c) => class_accepts_base(c, r.base),
        None => false,
    }
}

/// May a list of elements of host representation `r` be supplied for a
/// list-expansion slot of type `t`?  Each element of the list is bound to
/// one placeholder, so the element representation answers for the list.
pub fn check_arg_list_hack(t: &FullType, r: &HostRepr) -> (ok: bool)
    ensures
        ok == accepts_as_input(*t, *r),
{
    check_arg(t, r)
}

/// May a field of host representation `r` receive the decoded column of
/// type `t` standing at `column_index`?  Decoding binds fields by column
/// position, so the index identifies the column in diagnostics; acceptance
/// depends on the types alone.
pub fn arg_out(t: &FullType, r: &HostRepr, column_index: usize) -> (ok: bool)
    ensures
        ok == accepts_as_output(*t, *r),
{
    let _ = column_index;
    if r.outer_ref || r.inner_ref {
        return false;
    }
    if t.nullable && !r.optional {
        return false;
    }
    match decode_base_of(t.kind) {
        Some(d) => match d {
            HostBase::NaiveDate => false,
            HostBase::NaiveDateTime => false,
            HostBase::StrRef => false,
            HostBase::CowStr => false,
            HostBase::BytesRef => false,
            _ => r.base == d,
        },
        None => false,
    }
}

/// Computes the decode target base of `k`, as [`decode_base`] states it.
pub fn decode_base_of(k: SqlKind) -> (d: Option<HostBase>)
    ensures
        d == decode_base(k),
{
    match k {
        SqlKind::U8 => Some(HostBase::U8),
        SqlKind::I8 => Some(HostBase::I8),
        SqlKind::U16 => Some(HostBase::U16),
        SqlKind::I16 => Some(HostBase::I16),
        SqlKind::U32 => Some(HostBase::U32),
        SqlKind::I32 => Some(HostBase::I32),
        SqlKind::U64 => Some(HostBase::U64),
        SqlKind::I64 => Some(HostBase::I64),
        SqlKind::F32 => Some(HostBase::F32),
        SqlKind::F64 => Some(HostBase::F64),
        SqlKind::Integer => Some(HostBase::I64),
        SqlKind::Float => Some(HostBase::F64),
        SqlKind::Bool => Some(HostBase::Bool),
        SqlKind::Bytes => Some(HostBase::OwnedBytes),
        SqlKind::Str => Some(HostBase::OwnedString),
        SqlKind::Date => Some(HostBase::NaiveDate),
        SqlKind::DateTime => Some(HostBase::NaiveDateTime),
        SqlKind::TimeStamp => Some(HostBase::UtcDateTime),
        SqlKind::Enum => Some(HostBase::OwnedString),
        SqlKind::EnumSet => Some(HostBase::OwnedString),
        SqlKind::Json => Some(HostBase::OwnedString),
        SqlKind::Invalid => Some(HostBase::I64),
        SqlKind::Any => None,
        SqlKind::Time => None,
        SqlKind::Null => None,
        SqlKind::Args => None,
    }
}

/// Nullability is never inferred away: a non-nullable slot rejects every
/// optional host representation, whatever its base type.
pub proof fn lemma_non_nullable_rejects_optional(t: FullType, r: HostRepr)
    requires
        !t.nullable,
        r.optional,
    ensures
        !accepts_as_input(t, r),
{
}

} // verus!
