use sqlx_type::matrix::InputClass;
use sqlx_type::plan::{arg_count, plan_args, size_estimate, EncodeStep, PlanIssue};
use sqlx_type::types::{ArgKey, CallerExpr, FullType, Span, SqlKind};

fn sp(start: usize, end: usize) -> Span {
    Span { start, end }
}

fn int_slot(i: usize) -> (ArgKey, FullType) {
    (ArgKey::Index(i), FullType { kind: SqlKind::Integer, nullable: false, list: false })
}

fn expr(start: usize) -> CallerExpr {
    CallerExpr { span: sp(start, start + 1) }
}

#[test]
fn arity_deficit_one_issue_and_matched_steps_only() {
    let slots = vec![int_slot(0), int_slot(1), int_slot(2)];
    let exprs = vec![expr(10), expr(20)];
    let last = sp(20, 21);
    let (steps, issues) = plan_args(&slots, &exprs, last);
    assert_eq!(issues.len(), 1);
    match issues[0] {
        PlanIssue::Deficit { span, missing } => {
            assert_eq!(missing, 1);
            assert_eq!(span, last);
        }
        _ => panic!("expected a deficit issue"),
    }
    assert_eq!(steps.len(), 2);
    assert_eq!(steps[0].arg_index, 0);
    assert_eq!(steps[1].arg_index, 1);
}

#[test]
fn arity_surplus_one_issue_per_extra_expression() {
    let slots = vec![int_slot(0), int_slot(1)];
    let exprs = vec![expr(10), expr(20), expr(30), expr(40)];
    let (steps, issues) = plan_args(&slots, &exprs, sp(40, 41));
    assert_eq!(issues.len(), 2);
    match issues[0] {
        PlanIssue::Surplus { span } => assert_eq!(span, sp(30, 31)),
        _ => panic!("expected a surplus issue"),
    }
    match issues[1] {
        PlanIssue::Surplus { span } => assert_eq!(span, sp(40, 41)),
        _ => panic!("expected a surplus issue"),
    }
    assert_eq!(steps.len(), 2);
}

#[test]
fn named_slot_is_an_error() {
    let slots = vec![(
        ArgKey::Named(String::from("user")),
        FullType { kind: SqlKind::Str, nullable: false, list: false },
    )];
    let exprs: Vec<CallerExpr> = Vec::new();
    let last = sp(5, 9);
    let (steps, issues) = plan_args(&slots, &exprs, last);
    assert_eq!(steps.len(), 0);
    assert_eq!(issues.len(), 1);
    assert!(matches!(issues[0], PlanIssue::NamedArg { span } if span == last));
}

#[test]
fn gap_positions_count_as_declared() {
    // Only position 2 is referenced; 0 and 1 are filled with the invalid
    // placeholder and still count towards the declared arity.
    let slots = vec![int_slot(2)];
    let exprs: Vec<CallerExpr> = Vec::new();
    let (steps, issues) = plan_args(&slots, &exprs, sp(0, 1));
    assert_eq!(steps.len(), 0);
    assert_eq!(issues.len(), 1);
    assert!(matches!(issues[0], PlanIssue::Deficit { missing: 3, .. }));
}

#[test]
fn later_slot_for_same_position_wins() {
    let a = (ArgKey::Index(0), FullType { kind: SqlKind::Str, nullable: false, list: false });
    let b = (ArgKey::Index(0), FullType { kind: SqlKind::Bool, nullable: false, list: false });
    let slots = vec![a, b];
    let exprs = vec![expr(1)];
    let (steps, issues) = plan_args(&slots, &exprs, sp(1, 2));
    assert_eq!(issues.len(), 0);
    assert_eq!(steps.len(), 1);
    assert_eq!(steps[0].required, InputClass::Bool);
}

#[test]
fn step_fields_follow_the_slot() {
    let slots = vec![(
        ArgKey::Index(0),
        FullType { kind: SqlKind::Str, nullable: true, list: true },
    )];
    let exprs = vec![expr(3)];
    let (steps, issues) = plan_args(&slots, &exprs, sp(3, 4));
    assert_eq!(issues.len(), 0);
    assert_eq!(steps.len(), 1);
    assert_eq!(steps[0].required, InputClass::Str);
    assert!(steps[0].optional);
    assert!(steps[0].is_list);
}

#[test]
fn issue_messages_are_exact() {
    let last = sp(0, 1);
    assert_eq!(
        PlanIssue::NamedArg { span: last }.message(),
        "Named arguments not supported"
    );
    assert_eq!(
        PlanIssue::Deficit { span: last, missing: 7 }.message(),
        "Expected 7 additional arguments"
    );
    assert_eq!(
        PlanIssue::Deficit { span: last, missing: 120 }.message(),
        "Expected 120 additional arguments"
    );
    assert_eq!(PlanIssue::Surplus { span: last }.message(), "unexpected argument");
    assert_eq!(
        PlanIssue::DeleteNotSupported { span: last }.message(),
        "DELETE not support in query_as"
    );
    assert_eq!(
        PlanIssue::InsertWithoutReturning { span: last }.message(),
        "INSERT without RETURNING not support in query_as"
    );
    assert_eq!(
        PlanIssue::UpdateNotSupported { span: last }.message(),
        "UPDATE not support in query_as"
    );
    assert_eq!(
        PlanIssue::ReplaceWithoutReturning { span: last }.message(),
        "REPLACE without RETURNING not support in query_as"
    );
    assert_eq!(PlanIssue::Surplus { span: sp(4, 9) }.span(), sp(4, 9));
}

fn step(is_list: bool) -> EncodeStep {
    EncodeStep { arg_index: 0, required: InputClass::Integer, optional: false, is_list }
}

#[test]
fn arg_count_sums_plain_and_list_steps() {
    let steps = vec![step(false), step(true), step(false), step(true)];
    let lens = vec![3usize, 0usize];
    assert_eq!(arg_count(&steps, &lens), Some(5));
    let none: Vec<EncodeStep> = Vec::new();
    assert_eq!(arg_count(&none, &Vec::new()), Some(0));
}

#[test]
fn arg_count_reports_overflow() {
    let steps = vec![step(true), step(false)];
    let lens = vec![usize::MAX];
    assert_eq!(arg_count(&steps, &lens), None);
}

#[test]
fn size_estimate_sums_per_step_hints() {
    let steps = vec![step(false), step(true), step(false)];
    let hints = vec![8usize, 24usize, 4usize];
    assert_eq!(size_estimate(&steps, &hints), Some(36));
    let none: Vec<EncodeStep> = Vec::new();
    assert_eq!(size_estimate(&none, &Vec::new()), Some(0));
}

#[test]
fn size_estimate_reports_overflow() {
    let steps = vec![step(false), step(false)];
    let hints = vec![usize::MAX, 1usize];
    assert_eq!(size_estimate(&steps, &hints), None);
}
