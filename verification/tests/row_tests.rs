use sqlx_type::matrix::HostBase;
use sqlx_type::row::{anonymous_row_columns, build_row_plan, plan_query, plan_query_as};
use sqlx_type::plan::PlanIssue;
use sqlx_type::types::{ArgKey, CallerExpr, Column, FullType, Span, SqlKind, Statement};

fn sp(start: usize, end: usize) -> Span {
    Span { start, end }
}

fn col(name: Option<&str>, kind: SqlKind, nullable: bool) -> Column {
    Column {
        name: name.map(String::from),
        ty: FullType { kind, nullable, list: false },
    }
}

#[test]
fn named_columns_become_steps_in_order() {
    let columns = vec![
        col(Some("id"), SqlKind::U32, false),
        col(Some("text"), SqlKind::Str, false),
    ];
    let steps = build_row_plan(&columns);
    assert_eq!(steps.len(), 2);
    assert_eq!(steps[0].column_index, 0);
    assert_eq!(steps[0].field, "id");
    assert_eq!(steps[0].base, HostBase::U32);
    assert!(!steps[0].optional);
    assert_eq!(steps[1].column_index, 1);
    assert_eq!(steps[1].field, "text");
    assert_eq!(steps[1].base, HostBase::OwnedString);
}

#[test]
fn unusable_columns_are_skipped_but_keep_their_index() {
    let columns = vec![
        col(None, SqlKind::Integer, false),
        col(Some("not an identifier"), SqlKind::Str, false),
        col(Some("self"), SqlKind::Str, false),
        col(Some("type"), SqlKind::Str, false),
        col(Some("ok"), SqlKind::Bool, false),
    ];
    let steps = build_row_plan(&columns);
    // "type" is usable in raw form; "self" is not; the unnamed and the
    // non-identifier columns are dropped.  Indices stay positional.
    assert_eq!(steps.len(), 2);
    assert_eq!(steps[0].field, "type");
    assert_eq!(steps[0].column_index, 3);
    assert_eq!(steps[1].field, "ok");
    assert_eq!(steps[1].column_index, 4);
}

#[test]
fn nullable_integer_column_decodes_to_optional_integer() {
    let columns = vec![col(Some("ci32"), SqlKind::Integer, true)];
    let steps = build_row_plan(&columns);
    assert_eq!(steps.len(), 1);
    assert_eq!(steps[0].base, HostBase::I64);
    assert!(steps[0].optional);
}

#[test]
fn decode_targets_follow_the_kind() {
    let columns = vec![
        col(Some("a"), SqlKind::Float, false),
        col(Some("b"), SqlKind::Bytes, true),
        col(Some("c"), SqlKind::TimeStamp, false),
        col(Some("d"), SqlKind::Json, false),
        col(Some("e"), SqlKind::Invalid, false),
    ];
    let steps = build_row_plan(&columns);
    assert_eq!(steps[0].base, HostBase::F64);
    assert_eq!(steps[1].base, HostBase::OwnedBytes);
    assert!(steps[1].optional);
    assert_eq!(steps[2].base, HostBase::UtcDateTime);
    assert_eq!(steps[3].base, HostBase::OwnedString);
    assert_eq!(steps[4].base, HostBase::I64);
}

fn slot(i: usize, kind: SqlKind) -> (ArgKey, FullType) {
    (ArgKey::Index(i), FullType { kind, nullable: false, list: false })
}

#[test]
fn select_plans_arguments_and_rows() {
    let stmt = Statement::Select {
        columns: vec![col(Some("id"), SqlKind::U32, false)],
        arguments: vec![slot(0, SqlKind::Integer)],
    };
    let exprs = vec![CallerExpr { span: sp(1, 2) }];
    let plan = plan_query(&stmt, &exprs, sp(1, 2));
    assert_eq!(plan.steps.len(), 1);
    assert_eq!(plan.issues.len(), 0);
    let row = plan.row.expect("a SELECT decodes rows");
    assert_eq!(row.len(), 1);
}

#[test]
fn update_and_delete_plan_arguments_only() {
    let exprs = vec![CallerExpr { span: sp(1, 2) }];
    let upd = Statement::Update { arguments: vec![slot(0, SqlKind::Str)] };
    let plan = plan_query(&upd, &exprs, sp(1, 2));
    assert_eq!(plan.steps.len(), 1);
    assert!(plan.row.is_none());
    let del = Statement::Delete { arguments: vec![slot(0, SqlKind::Str)] };
    let plan = plan_query(&del, &exprs, sp(1, 2));
    assert_eq!(plan.steps.len(), 1);
    assert!(plan.row.is_none());
}

#[test]
fn insert_rows_depend_on_returning() {
    let exprs: Vec<CallerExpr> = Vec::new();
    let plain = Statement::Insert { arguments: Vec::new(), returning: None };
    assert!(plan_query(&plain, &exprs, sp(0, 1)).row.is_none());
    let with = Statement::Insert {
        arguments: Vec::new(),
        returning: Some(vec![col(Some("id"), SqlKind::U64, false)]),
    };
    let plan = plan_query(&with, &exprs, sp(0, 1));
    assert_eq!(plan.row.expect("RETURNING decodes rows").len(), 1);
}

#[test]
fn invalid_statement_yields_an_empty_plan() {
    let exprs = vec![CallerExpr { span: sp(1, 2) }];
    let plan = plan_query(&Statement::Invalid, &exprs, sp(1, 2));
    assert_eq!(plan.steps.len(), 0);
    assert_eq!(plan.issues.len(), 0);
    assert!(plan.row.is_none());
    let plan = plan_query_as(&Statement::Invalid, &exprs, sp(0, 1), sp(1, 2));
    assert_eq!(plan.steps.len(), 0);
    assert_eq!(plan.issues.len(), 0);
    assert!(plan.row.is_none());
}

#[test]
fn typed_row_for_update_always_fails() {
    let qspan = sp(0, 9);
    let exprs = vec![CallerExpr { span: sp(1, 2) }];
    let stmt = Statement::Update { arguments: vec![slot(0, SqlKind::Integer)] };
    let plan = plan_query_as(&stmt, &exprs, qspan, sp(1, 2));
    assert_eq!(plan.steps.len(), 0);
    assert!(plan.row.is_none());
    assert_eq!(plan.issues.len(), 1);
    assert!(matches!(plan.issues[0], PlanIssue::UpdateNotSupported { span } if span == qspan));
}

#[test]
fn typed_row_gating_per_kind() {
    let qspan = sp(0, 9);
    let exprs: Vec<CallerExpr> = Vec::new();
    let del = plan_query_as(
        &Statement::Delete { arguments: Vec::new() },
        &exprs,
        qspan,
        sp(1, 2),
    );
    assert!(matches!(del.issues[0], PlanIssue::DeleteNotSupported { .. }));
    let ins = plan_query_as(
        &Statement::Insert { arguments: Vec::new(), returning: None },
        &exprs,
        qspan,
        sp(1, 2),
    );
    assert!(matches!(ins.issues[0], PlanIssue::InsertWithoutReturning { .. }));
    let rep = plan_query_as(
        &Statement::Replace { arguments: Vec::new(), returning: None },
        &exprs,
        qspan,
        sp(1, 2),
    );
    assert!(matches!(rep.issues[0], PlanIssue::ReplaceWithoutReturning { .. }));
}

#[test]
fn typed_row_for_insert_returning_succeeds_with_full_length() {
    let returning = vec![
        col(Some("id"), SqlKind::U64, false),
        col(Some("name"), SqlKind::Str, true),
    ];
    let stmt = Statement::Insert { arguments: Vec::new(), returning: Some(returning) };
    let exprs: Vec<CallerExpr> = Vec::new();
    let plan = plan_query_as(&stmt, &exprs, sp(0, 9), sp(1, 2));
    assert_eq!(plan.issues.len(), 0);
    let row = plan.row.expect("INSERT RETURNING decodes rows");
    assert_eq!(row.len(), 2);
}

#[test]
fn row_source_per_kind() {
    let sel = Statement::Select { columns: vec![col(Some("x"), SqlKind::Bool, false)], arguments: Vec::new() };
    assert!(anonymous_row_columns(&sel).is_some());
    assert_eq!(anonymous_row_columns(&sel).unwrap().len(), 1);
    assert!(anonymous_row_columns(&Statement::Update { arguments: Vec::new() }).is_none());
    assert!(anonymous_row_columns(&Statement::Delete { arguments: Vec::new() }).is_none());
    assert!(anonymous_row_columns(&Statement::Invalid).is_none());
    let rep = Statement::Replace {
        arguments: Vec::new(),
        returning: Some(vec![col(Some("x"), SqlKind::Bool, false)]),
    };
    assert!(anonymous_row_columns(&rep).is_some());
}
