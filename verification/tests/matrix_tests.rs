use sqlx_type::matrix::{HostBase, HostRepr};
use sqlx_type::types::{FullType, SqlKind};
use sqlx_type::{arg_out, check_arg, check_arg_list_hack};

fn ty(kind: SqlKind, nullable: bool) -> FullType {
    FullType { kind, nullable, list: false }
}

fn plain(base: HostBase) -> HostRepr {
    HostRepr { base, optional: false, outer_ref: false, inner_ref: false }
}

fn opt(base: HostBase) -> HostRepr {
    HostRepr { base, optional: true, outer_ref: false, inner_ref: false }
}

#[test]
fn exact_width_no_widening() {
    assert!(check_arg(&ty(SqlKind::I32, false), &plain(HostBase::I32)));
    assert!(!check_arg(&ty(SqlKind::I32, false), &plain(HostBase::I64)));
    assert!(!check_arg(&ty(SqlKind::I32, false), &plain(HostBase::I16)));
    assert!(check_arg(&ty(SqlKind::U8, false), &plain(HostBase::U8)));
    assert!(!check_arg(&ty(SqlKind::U8, false), &plain(HostBase::I8)));
}

#[test]
fn integer_family_accepts_every_width() {
    for b in [
        HostBase::U8,
        HostBase::I8,
        HostBase::U16,
        HostBase::I16,
        HostBase::U32,
        HostBase::I32,
        HostBase::U64,
        HostBase::I64,
    ] {
        assert!(check_arg(&ty(SqlKind::Integer, false), &plain(b)));
    }
    assert!(!check_arg(&ty(SqlKind::Integer, false), &plain(HostBase::F64)));
    assert!(!check_arg(&ty(SqlKind::Integer, false), &plain(HostBase::OwnedString)));
}

#[test]
fn nullable_accepts_optional_and_references() {
    let t = ty(SqlKind::Integer, true);
    assert!(check_arg(&t, &plain(HostBase::U32)));
    assert!(check_arg(&t, &opt(HostBase::U32)));
    let r = HostRepr { base: HostBase::U32, optional: true, outer_ref: true, inner_ref: true };
    assert!(check_arg(&t, &r));
    let outer = HostRepr { base: HostBase::U32, optional: false, outer_ref: true, inner_ref: false };
    assert!(check_arg(&t, &outer));
}

#[test]
fn non_nullable_rejects_optional() {
    assert!(!check_arg(&ty(SqlKind::Integer, false), &opt(HostBase::U32)));
    assert!(!check_arg(&ty(SqlKind::Str, false), &opt(HostBase::OwnedString)));
}

#[test]
fn string_classes() {
    let t = ty(SqlKind::Str, false);
    assert!(check_arg(&t, &plain(HostBase::StrRef)));
    assert!(check_arg(&t, &plain(HostBase::OwnedString)));
    assert!(check_arg(&t, &plain(HostBase::CowStr)));
    assert!(!check_arg(&t, &plain(HostBase::BytesRef)));
    assert!(check_arg(&ty(SqlKind::Enum, false), &plain(HostBase::StrRef)));
    assert!(check_arg(&ty(SqlKind::EnumSet, false), &plain(HostBase::OwnedString)));
}

#[test]
fn date_and_time_classes() {
    assert!(!check_arg(&ty(SqlKind::Date, false), &plain(HostBase::NaiveDate)));
    assert!(!check_arg(&ty(SqlKind::Time, false), &plain(HostBase::NaiveDateTime)));
    assert!(check_arg(&ty(SqlKind::DateTime, false), &plain(HostBase::NaiveDateTime)));
    assert!(!check_arg(&ty(SqlKind::DateTime, false), &plain(HostBase::UtcDateTime)));
    assert!(check_arg(&ty(SqlKind::TimeStamp, false), &plain(HostBase::NaiveDateTime)));
    assert!(check_arg(&ty(SqlKind::TimeStamp, false), &plain(HostBase::UtcDateTime)));
}

#[test]
fn any_class() {
    let t = ty(SqlKind::Any, false);
    assert!(check_arg(&t, &plain(HostBase::U64)));
    assert!(check_arg(&t, &plain(HostBase::StrRef)));
    assert!(check_arg(&t, &plain(HostBase::OwnedString)));
    assert!(check_arg(&t, &plain(HostBase::F32)));
    assert!(check_arg(&t, &plain(HostBase::F64)));
    assert!(!check_arg(&t, &plain(HostBase::CowStr)));
    assert!(!check_arg(&t, &plain(HostBase::BytesRef)));
    assert!(check_arg(&ty(SqlKind::Json, false), &plain(HostBase::I64)));
}

#[test]
fn list_hack_checks_the_element() {
    assert!(check_arg_list_hack(&ty(SqlKind::Integer, false), &plain(HostBase::U16)));
    assert!(!check_arg_list_hack(&ty(SqlKind::Integer, false), &plain(HostBase::OwnedString)));
}

#[test]
fn output_nullable_needs_optional() {
    let t = ty(SqlKind::Integer, true);
    assert!(arg_out(&t, &opt(HostBase::I64), 0));
    assert!(!arg_out(&t, &plain(HostBase::I64), 0));
}

#[test]
fn output_non_nullable_takes_plain_or_optional() {
    let t = ty(SqlKind::Integer, false);
    assert!(arg_out(&t, &plain(HostBase::I64), 1));
    assert!(arg_out(&t, &opt(HostBase::I64), 1));
    assert!(!arg_out(&t, &plain(HostBase::I32), 1));
}

#[test]
fn output_rejects_references_and_dates() {
    let t = ty(SqlKind::Str, false);
    let r = HostRepr { base: HostBase::OwnedString, optional: false, outer_ref: true, inner_ref: false };
    assert!(!arg_out(&t, &r, 0));
    assert!(arg_out(&t, &plain(HostBase::OwnedString), 0));
    assert!(!arg_out(&ty(SqlKind::Date, false), &plain(HostBase::NaiveDate), 0));
    assert!(!arg_out(&ty(SqlKind::DateTime, false), &plain(HostBase::NaiveDateTime), 0));
    assert!(arg_out(&ty(SqlKind::TimeStamp, false), &plain(HostBase::UtcDateTime), 0));
}

#[test]
fn output_invalid_decodes_as_integer() {
    assert!(arg_out(&ty(SqlKind::Invalid, false), &plain(HostBase::I64), 0));
    assert!(!arg_out(&ty(SqlKind::Any, false), &plain(HostBase::I64), 0));
}
