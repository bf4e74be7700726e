//! The result row plan builder and statement-kind gating.
//!
//! A row plan says, column by column, how a result row decodes into a
//! target shape: each named column whose name can stand as an identifier
//! becomes one decode step bound to its positional index; columns without
//! a usable identifier are skipped but still consume their index.  Which
//! statements may decode rows at all is gated by kind: SELECT always may,
//! INSERT and REPLACE only with a RETURNING column set, UPDATE and DELETE
//! never, and an invalid statement yields diagnostics only.

use vstd::prelude::*;

use crate::matrix::{decode_base, decode_base_of, HostBase};
use crate::plan::{
    dense_slots, plan_args, plan_issues, plan_steps, plan_supported, EncodeStep, PlanIssue,
};
use crate::types::{ArgKey, CallerExpr, Column, FullType, Span, Statement};

verus! {

/// Whether a string parses as one identifier.
pub uninterp spec fn parses_as_ident(s: Seq<char>) -> bool;

/// Relies on `syn::parse_str::<syn::Ident>`: whether a string parses as an
/// identifier is a function of its characters alone.
#[verifier::external_body]
fn is_ident_str(s: &str) -> (r: bool)
    ensures
        r == parses_as_ident(s@),
{
    syn::parse_str::<syn::Ident>(s).is_ok()
}

/// The raw-identifier form of a column name, as it stands in generated
/// code so that names colliding with keywords remain usable.
pub open spec fn raw_ident(name: Seq<char>) -> Seq<char> {
    seq!['r', '#'] + name
}

/// A column is kept in a row plan when its name, in raw-identifier form,
/// parses as an identifier; other columns cannot be addressed as fields.
pub open spec fn keeps_column(c: Column) -> bool {
    c.name is Some && parses_as_ident(raw_ident(c.name.unwrap()@))
}

/// One instruction of a row plan: the column at `column_index` decodes
/// into the field named `field`, whose host base type is `base`,
/// optional-wrapped when the column is nullable.
#[derive(Clone, PartialEq, Eq, Debug)]
pub struct DecodeStep {
    pub column_index: usize,
    pub field: String,
    pub base: HostBase,
    pub optional: bool,
}

/// The decode step for column `c` standing at position `i`.
pub open spec fn step_for_column(c: Column, i: int) -> DecodeStep {
    DecodeStep {
        column_index: i as usize,
        field: c.name.unwrap(),
        base: decode_base(c.ty.kind).unwrap(),
        optional: c.ty.nullable,
    }
}

/// The decode steps for the columns from position `i` on.
pub open spec fn row_plan_from(columns: Seq<Column>, i: int) -> Seq<DecodeStep>
    decreases columns.len() - i,
{
    if i < 0 || i >= columns.len() {
        Seq::empty()
    } else if keeps_column(columns[i]) {
        seq![step_for_column(columns[i], i)] + row_plan_from(columns, i + 1)
    } else {
        row_plan_from(columns, i + 1)
    }
}

/// The decode plan for ordered result columns: kept columns in column
/// order, each bound to its original positional index.
pub open spec fn row_plan_spec(columns: Seq<Column>) -> Seq<DecodeStep> {
    row_plan_from(columns, 0)
}

/// Every column's kind has a decode target base; the kinds that have none
/// cannot appear in a decoded result.
pub open spec fn columns_decodable(columns: Seq<Column>) -> bool {
    forall|i: int| 0 <= i < columns.len() ==> decode_base((#[trigger] columns[i]).ty.kind) is Some
}

/// Builds the decode plan for ordered result columns.
pub fn build_row_plan(columns: &Vec<Column>) -> (steps: Vec<DecodeStep>)
    requires
        columns_decodable(columns@),
    ensures
        steps@ == row_plan_spec(columns@),
{
    let mut steps: Vec<DecodeStep> = Vec::new();
    let mut i: usize = 0;
    while i < columns.len()
        invariant
            i <= columns@.len(),
            columns_decodable(columns@),
            steps@ + row_plan_from(columns@, i as int) == row_plan_spec(columns@),
        decreases columns@.len() - i,
    {
        let c = &columns[i];
        let ghost prev = steps@;
        match &c.name {
            None => {
                proof {
                    assert(!keeps_column(columns@[i as int]));
                }
            },
            Some(name) => {
                let mut raw = String::from_str("r#");
                raw.append(name.as_str());
                proof {
                    reveal_strlit("r#");
                    assert(raw@ =~= raw_ident(name@));
                }
                if is_ident_str(raw.as_str()) {
                    proof {
                        assert(keeps_column(columns@[i as int]));
                    }
                    let base = decode_base_of(c.ty.kind).unwrap();
                    steps.push(
                        DecodeStep {
                            column_index: i,
                            field: name.clone(),
                            base,
                            optional: c.ty.nullable,
                        },
                    );
                    proof {
                        assert(steps@.last() == step_for_column(columns@[i as int], i as int));
                        assert(steps@ =~= prev + seq![step_for_column(columns@[i as int], i as int)]);
                        assert(steps@ + row_plan_from(columns@, i as int + 1) =~= prev
                            + row_plan_from(columns@, i as int));
                    }
                } else {
                    proof {
                        assert(!keeps_column(columns@[i as int]));
                    }
                }
            },
        }
        i += 1;
    }
    steps
}

/// The result columns a statement decodes rows from: a SELECT's columns;
/// an INSERT or REPLACE's RETURNING columns when declared; none otherwise.
pub open spec fn row_source(stmt: Statement) -> Option<Seq<Column>> {
    match stmt {
        Statement::Select { columns, .. } => Some(columns@),
        Statement::Insert { returning: Some(cols), .. } => Some(cols@),
        Statement::Replace { returning: Some(cols), .. } => Some(cols@),
        _ => None,
    }
}

/// The argument slots a statement binds; an invalid statement binds none.
pub open spec fn stmt_arguments(stmt: Statement) -> Seq<(ArgKey, FullType)> {
    match stmt {
        Statement::Select { arguments, .. } => arguments@,
        Statement::Delete { arguments } => arguments@,
        Statement::Insert { arguments, .. } => arguments@,
        Statement::Update { arguments } => arguments@,
        Statement::Replace { arguments, .. } => arguments@,
        Statement::Invalid => Seq::empty(),
    }
}

/// Returns the columns a statement decodes rows from, when its kind
/// produces rows at all.
pub fn anonymous_row_columns<'a>(stmt: &'a Statement) -> (r: Option<&'a Vec<Column>>)
    ensures
        (r is Some) == (row_source(*stmt) is Some),
        r matches Some(c) ==> Some(c@) == row_source(*stmt),
{
    match stmt {
        Statement::Select { columns, .. } => Some(columns),
        Statement::Insert { returning: Some(cols), .. } => Some(cols),
        Statement::Replace { returning: Some(cols), .. } => Some(cols),
        _ => None,
    }
}

/// A full plan for one query: the encode steps, every issue found, and
/// the decode steps when the statement produces rows.
#[derive(Debug)]
pub struct QueryPlan {
    pub steps: Vec<EncodeStep>,
    pub issues: Vec<PlanIssue>,
    pub row: Option<Vec<DecodeStep>>,
}

/// What planning an anonymous-shape query needs of its inputs: bindable
/// paired slots, and decodable row columns where rows are produced.
pub open spec fn query_requires(stmt: Statement, exprs: Seq<CallerExpr>) -> bool {
    &&& (stmt is Invalid || plan_supported(stmt_arguments(stmt), exprs))
    &&& (match row_source(stmt) {
        Some(cols) => columns_decodable(cols),
        None => true,
    })
}

/// Plans a query that decodes into an anonymous shape: every statement
/// kind but an invalid one binds its arguments; the row-producing kinds
/// additionally get a decode plan.  An invalid statement yields an empty
/// plan, to be surfaced through its diagnostics alone.
pub fn plan_query(stmt: &Statement, exprs: &Vec<CallerExpr>, last_span: Span) -> (r: QueryPlan)
    requires
        query_requires(*stmt, exprs@),
    ensures
        stmt is Invalid ==> r.steps@ == Seq::<EncodeStep>::empty() && r.issues@ == Seq::<
            PlanIssue,
        >::empty() && r.row is None,
        !(stmt is Invalid) ==> r.steps@ == plan_steps(
            dense_slots(stmt_arguments(*stmt)),
            exprs@.len() as int,
        ) && r.issues@ == plan_issues(stmt_arguments(*stmt), exprs@, last_span),
        !(stmt is Invalid) ==> (match row_source(*stmt) {
            Some(cols) => r.row matches Some(d) && d@ == row_plan_spec(cols),
            None => r.row is None,
        }),
{
    match stmt {
        Statement::Invalid => QueryPlan { steps: Vec::new(), issues: Vec::new(), row: None },
        Statement::Select { columns, arguments } => {
            let (steps, issues) = plan_args(arguments, exprs, last_span);
            let row = build_row_plan(columns);
            QueryPlan { steps, issues, row: Some(row) }
        },
        Statement::Delete { arguments } => {
            let (steps, issues) = plan_args(arguments, exprs, last_span);
            QueryPlan { steps, issues, row: None }
        },
        Statement::Insert { arguments, returning } => {
            let (steps, issues) = plan_args(arguments, exprs, last_span);
            let row = match returning {
                Some(cols) => Some(build_row_plan(cols)),
                None => None,
            };
            QueryPlan { steps, issues, row }
        },
        Statement::Update { arguments } => {
            let (steps, issues) = plan_args(arguments, exprs, last_span);
            QueryPlan { steps, issues, row: None }
        },
        Statement::Replace { arguments, returning } => {
            let (steps, issues) = plan_args(arguments, exprs, last_span);
            let row = match returning {
                Some(cols) => Some(build_row_plan(cols)),
                None => None,
            };
            QueryPlan { steps, issues, row }
        },
    }
}

/// The single gating issue a typed-row request draws from a statement
/// kind that produces no rows; an invalid statement draws none, since its
/// own diagnostics already tell the story.
pub open spec fn typed_gate_issues(stmt: Statement, query_span: Span) -> Seq<PlanIssue> {
    match stmt {
        Statement::Delete { .. } => seq![(PlanIssue::DeleteNotSupported { span: query_span })],
        Statement::Insert { returning: None, .. } => seq![
            (PlanIssue::InsertWithoutReturning { span: query_span }),
        ],
        Statement::Update { .. } => seq![(PlanIssue::UpdateNotSupported { span: query_span })],
        Statement::Replace { returning: None, .. } => seq![
            (PlanIssue::ReplaceWithoutReturning { span: query_span }),
        ],
        _ => Seq::empty(),
    }
}

/// What planning a typed-shape query needs of its inputs.
pub open spec fn query_as_requires(stmt: Statement, exprs: Seq<CallerExpr>) -> bool {
    match row_source(stmt) {
        Some(cols) => plan_supported(stmt_arguments(stmt), exprs) && columns_decodable(cols),
        None => true,
    }
}

/// Plans a query that decodes into a caller-named shape.  Only the
/// row-producing kinds are planned at all: for every other kind the plan
/// is empty but for the gating issue, and an invalid statement yields a
/// fully empty plan, surfaced through its diagnostics alone.
pub fn plan_query_as(
    stmt: &Statement,
    exprs: &Vec<CallerExpr>,
    query_span: Span,
    last_span: Span,
) -> (r: QueryPlan)
    requires
        query_as_requires(*stmt, exprs@),
    ensures
        match row_source(*stmt) {
            Some(cols) => r.steps@ == plan_steps(
                dense_slots(stmt_arguments(*stmt)),
                exprs@.len() as int,
            ) && r.issues@ == plan_issues(stmt_arguments(*stmt), exprs@, last_span) && (
            r.row matches Some(d) && d@ == row_plan_spec(cols)),
            None => r.steps@ == Seq::<EncodeStep>::empty() && r.issues@ == typed_gate_issues(
                *stmt,
                query_span,
            ) && r.row is None,
        },
{
    match stmt {
        Statement::Select { columns, arguments } => {
            let (steps, issues) = plan_args(arguments, exprs, last_span);
            let row = build_row_plan(columns);
            QueryPlan { steps, issues, row: Some(row) }
        },
        Statement::Insert { arguments, returning: Some(cols) } => {
            let (steps, issues) = plan_args(arguments, exprs, last_span);
            let row = build_row_plan(cols);
            QueryPlan { steps, issues, row: Some(row) }
        },
        Statement::Replace { arguments, returning: Some(cols) } => {
            let (steps, issues) = plan_args(arguments, exprs, last_span);
            let row = build_row_plan(cols);
            QueryPlan { steps, issues, row: Some(row) }
        },
        Statement::Delete { .. } => {
            let mut issues: Vec<PlanIssue> = Vec::new();
            issues.push(PlanIssue::DeleteNotSupported { span: query_span });
            proof {
                assert(issues@ =~= typed_gate_issues(*stmt, query_span));
            }
            QueryPlan { steps: Vec::new(), issues, row: None }
        },
        Statement::Insert { returning: None, .. } => {
            let mut issues: Vec<PlanIssue> = Vec::new();
            issues.push(PlanIssue::InsertWithoutReturning { span: query_span });
            proof {
                assert(issues@ =~= typed_gate_issues(*stmt, query_span));
            }
            QueryPlan { steps: Vec::new(), issues, row: None }
        },
        Statement::Update { .. } => {
            let mut issues: Vec<PlanIssue> = Vec::new();
            issues.push(PlanIssue::UpdateNotSupported { span: query_span });
            proof {
                assert(issues@ =~= typed_gate_issues(*stmt, query_span));
            }
            QueryPlan { steps: Vec::new(), issues, row: None }
        },
        Statement::Replace { returning: None, .. } => {
            let mut issues: Vec<PlanIssue> = Vec::new();
            issues.push(PlanIssue::ReplaceWithoutReturning { span: query_span });
            proof {
                assert(issues@ =~= typed_gate_issues(*stmt, query_span));
            }
            QueryPlan { steps: Vec::new(), issues, row: None }
        },
        Statement::Invalid => QueryPlan { steps: Vec::new(), issues: Vec::new(), row: None },
    }
}

/// How long a row plan can be: at most one step per column from `i` on,
/// and exactly one each when every such column is kept.
proof fn lemma_row_plan_len(columns: Seq<Column>, i: int)
    requires
        0 <= i <= columns.len(),
    ensures
        row_plan_from(columns, i).len() <= columns.len() - i,
        (forall|j: int| i <= j < columns.len() ==> keeps_column(#[trigger] columns[j]))
            ==> row_plan_from(columns, i).len() == columns.len() - i,
    decreases columns.len() - i,
{
    if i < columns.len() {
        lemma_row_plan_len(columns, i + 1);
    }
}

/// Nullability propagates into decoding: every kept column of the nullable
/// integer family decodes into the optional 64-bit integer representation.
pub proof fn lemma_nullable_integer_decodes_optional(c: Column, i: int)
    requires
        c.ty.kind is Integer,
        c.ty.nullable,
    ensures
        step_for_column(c, i).base is I64,
        step_for_column(c, i).optional,
{
}

/// Statement-kind gating, refusal side: a typed-row request for an UPDATE
/// statement never yields a row plan and always draws the gating issue,
/// whatever the statement's argument shape.
pub proof fn lemma_update_never_typed(stmt: Statement, query_span: Span)
    requires
        stmt is Update,
    ensures
        row_source(stmt) is None,
        typed_gate_issues(stmt, query_span) =~= seq![
            (PlanIssue::UpdateNotSupported { span: query_span }),
        ],
{
}

/// Statement-kind gating, success side: a typed-row request for an INSERT
/// with a RETURNING column set always yields a row plan and no gating
/// issue; when every returning column carries a usable identifier, the
/// plan holds exactly one decode step per returning column.
pub proof fn lemma_insert_returning_typed(
    arguments: Vec<(ArgKey, FullType)>,
    cols: Vec<Column>,
    query_span: Span,
)
    ensures
        row_source(Statement::Insert { arguments, returning: Some(cols) }) == Some(cols@),
        typed_gate_issues(Statement::Insert { arguments, returning: Some(cols) }, query_span)
            == Seq::<PlanIssue>::empty(),
        (forall|i: int| 0 <= i < cols@.len() ==> keeps_column(#[trigger] cols@[i]))
            ==> row_plan_spec(cols@).len() == cols@.len(),
{
    lemma_row_plan_len(cols@, 0);
}

} // verus!
