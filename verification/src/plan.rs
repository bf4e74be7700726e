//! The argument binding planner.
//!
//! It reconciles the argument slots the oracle declared for a query with
//! the expressions the caller supplied: positional slots are laid out as a
//! dense array (unreferenced positions filled with an invalid placeholder,
//! never dropped), named slots are rejected, arity mismatches are reported
//! (one aggregate issue for a deficit, one issue per surplus expression),
//! and each paired slot becomes one encode step carrying the input class
//! the expression must satisfy.  All issues of one query are collected in
//! a single pass, so a caller can fix them together.

use vstd::prelude::*;

use crate::matrix::{input_class, input_class_of, InputClass};
use crate::types::{ArgKey, CallerExpr, FullType, Span};

verus! {

/// One instruction of a binding plan: the expression at `arg_index` (which
/// equals the slot position) supplies a value of input class `required`,
/// optional-wrapped when `optional`, and expanded element by element when
/// `is_list`.
#[derive(Clone, Copy, PartialEq, Eq, Structural, Debug)]
pub struct EncodeStep {
    pub arg_index: usize,
    pub required: InputClass,
    pub optional: bool,
    pub is_list: bool,
}

/// A problem the planner found.  Every variant carries the source location
/// the diagnostic is attributed to.
#[derive(Clone, Copy, PartialEq, Eq, Structural, Debug)]
pub enum PlanIssue {
    /// A slot is identified by name; named arguments are unsupported.
    NamedArg { span: Span },
    /// Fewer expressions were supplied than slots declared.
    Deficit { span: Span, missing: usize },
    /// One supplied expression beyond the declared slots.
    Surplus { span: Span },
    /// A typed row was requested for a DELETE statement.
    DeleteNotSupported { span: Span },
    /// A typed row was requested for an INSERT without RETURNING.
    InsertWithoutReturning { span: Span },
    /// A typed row was requested for an UPDATE statement.
    UpdateNotSupported { span: Span },
    /// A typed row was requested for a REPLACE without RETURNING.
    ReplaceWithoutReturning { span: Span },
}

/// The decimal digit character for `d`.
pub open spec fn dec_digit(d: int) -> char {
    if d == 0 {
        '0'
    } else if d == 1 {
        '1'
    } else if d == 2 {
        '2'
    } else if d == 3 {
        '3'
    } else if d == 4 {
        '4'
    } else if d == 5 {
        '5'
    } else if d == 6 {
        '6'
    } else if d == 7 {
        '7'
    } else if d == 8 {
        '8'
    } else {
        '9'
    }
}

/// The decimal representation of `n`, most significant digit first.
pub open spec fn dec_rep(n: int) -> Seq<char>
    decreases n,
{
    if n < 10 {
        seq![dec_digit(n)]
    } else {
        dec_rep(n / 10) + seq![dec_digit(n % 10)]
    }
}

/// Appends the decimal representation of `n` to `out`.
fn push_dec(out: &mut String, n: usize)
    ensures
        final(out)@ == old(out)@ + dec_rep(n as int),
    decreases n,
{
    if n >= 10 {
        push_dec(out, n / 10);
    }
    let d = n % 10;
    let digit: &str = if d == 0 {
        "0"
    } else if d == 1 {
        "1"
    } else if d == 2 {
        "2"
    } else if d == 3 {
        "3"
    } else if d == 4 {
        "4"
    } else if d == 5 {
        "5"
    } else if d == 6 {
        "6"
    } else if d == 7 {
        "7"
    } else if d == 8 {
        "8"
    } else {
        "9"
    };
    proof {
        reveal_strlit("0");
        reveal_strlit("1");
        reveal_strlit("2");
        reveal_strlit("3");
        reveal_strlit("4");
        reveal_strlit("5");
        reveal_strlit("6");
        reveal_strlit("7");
        reveal_strlit("8");
        reveal_strlit("9");
        assert(digit@ =~= seq![dec_digit(d as int)]);
    }
    out.append(digit);
}

impl PlanIssue {
    /// The diagnostic text for this issue.
    pub open spec fn message_spec(self) -> Seq<char> {
        match self {
            PlanIssue::NamedArg { .. } => "Named arguments not supported"@,
            PlanIssue::Deficit { missing, .. } => "Expected "@ + dec_rep(missing as int)
                + " additional arguments"@,
            PlanIssue::Surplus { .. } => "unexpected argument"@,
            PlanIssue::DeleteNotSupported { .. } => "DELETE not support in query_as"@,
            PlanIssue::InsertWithoutReturning { .. } =>
                "INSERT without RETURNING not support in query_as"@,
            PlanIssue::UpdateNotSupported { .. } => "UPDATE not support in query_as"@,
            PlanIssue::ReplaceWithoutReturning { .. } =>
                "REPLACE without RETURNING not support in query_as"@,
        }
    }

    /// The source location the issue is attributed to.
    pub open spec fn span_spec(self) -> Span {
        match self {
            PlanIssue::NamedArg { span } => span,
            PlanIssue::Deficit { span, .. } => span,
            PlanIssue::Surplus { span } => span,
            PlanIssue::DeleteNotSupported { span } => span,
            PlanIssue::InsertWithoutReturning { span } => span,
            PlanIssue::UpdateNotSupported { span } => span,
            PlanIssue::ReplaceWithoutReturning { span } => span,
        }
    }

    /// Renders the diagnostic text for this issue.
    pub fn message(&self) -> (s: String)
        ensures
            s@ == self.message_spec(),
    {
        match self {
            PlanIssue::NamedArg { .. } => String::from_str("Named arguments not supported"),
            PlanIssue::Deficit { missing, .. } => {
                let mut s = String::from_str("Expected ");
                push_dec(&mut s, *missing);
                s.append(" additional arguments");
                s
            },
            PlanIssue::Surplus { .. } => String::from_str("unexpected argument"),
            PlanIssue::DeleteNotSupported { .. } => String::from_str(
                "DELETE not support in query_as",
            ),
            PlanIssue::InsertWithoutReturning { .. } => String::from_str(
                "INSERT without RETURNING not support in query_as",
            ),
            PlanIssue::UpdateNotSupported { .. } => String::from_str(
                "UPDATE not support in query_as",
            ),
            PlanIssue::ReplaceWithoutReturning { .. } => String::from_str(
                "REPLACE without RETURNING not support in query_as",
            ),
        }
    }

    /// The source location the issue is attributed to.
    pub fn span(&self) -> (sp: Span)
        ensures
            sp == self.span_spec(),
    {
        match self {
            PlanIssue::NamedArg { span } => *span,
            PlanIssue::Deficit { span, .. } => *span,
            PlanIssue::Surplus { span } => *span,
            PlanIssue::DeleteNotSupported { span } => *span,
            PlanIssue::InsertWithoutReturning { span } => *span,
            PlanIssue::UpdateNotSupported { span } => *span,
            PlanIssue::ReplaceWithoutReturning { span } => *span,
        }
    }
}

/// Lays one oracle-declared slot into the dense positional array: a named
/// slot adds nothing, a positional slot lands at its index, with any gap
/// up to it filled by the invalid placeholder.
pub open spec fn place_slot(at: Seq<FullType>, key: ArgKey, v: FullType) -> Seq<FullType> {
    match key {
        ArgKey::Named(_) => at,
        ArgKey::Index(i) => if i < at.len() {
            at.update(i as int, v)
        } else {
            at + Seq::new((i - at.len()) as nat, |_j: int| FullType::invalid_spec()) + seq![v]
        },
    }
}

/// The dense positional slot array the declared slots describe.
pub open spec fn dense_slots(slots: Seq<(ArgKey, FullType)>) -> Seq<FullType>
    decreases slots.len(),
{
    if slots.len() == 0 {
        Seq::empty()
    } else {
        place_slot(dense_slots(slots.drop_last()), slots.last().0, slots.last().1)
    }
}

/// One issue per named slot, in declaration order, each attributed to the
/// last-seen call-site location.
pub open spec fn named_issues(slots: Seq<(ArgKey, FullType)>, last_span: Span) -> Seq<PlanIssue>
    decreases slots.len(),
{
    if slots.len() == 0 {
        Seq::empty()
    } else {
        named_issues(slots.drop_last(), last_span) + (if slots.last().0 is Named {
            seq![PlanIssue::NamedArg { span: last_span }]
        } else {
            Seq::empty()
        })
    }
}

/// The arity issues for `n_slots` declared positions and the supplied
/// expressions: one aggregate deficit issue at the last-seen location, or
/// one surplus issue per extra expression at that expression's own
/// location.
pub open spec fn arity_issues(n_slots: int, exprs: Seq<CallerExpr>, last_span: Span) -> Seq<
    PlanIssue,
> {
    let deficit: Seq<PlanIssue> = if n_slots > exprs.len() {
        seq![PlanIssue::Deficit { span: last_span, missing: (n_slots - exprs.len()) as usize }]
    } else {
        Seq::empty()
    };
    let surplus: Seq<PlanIssue> = if exprs.len() > n_slots {
        Seq::new(
            (exprs.len() - n_slots) as nat,
            |i: int| PlanIssue::Surplus { span: exprs[n_slots + i].span },
        )
    } else {
        Seq::empty()
    };
    deficit + surplus
}

/// Every issue the planner reports, in order: named-slot issues, then the
/// arity issues.
pub open spec fn plan_issues(
    slots: Seq<(ArgKey, FullType)>,
    exprs: Seq<CallerExpr>,
    last_span: Span,
) -> Seq<PlanIssue> {
    named_issues(slots, last_span) + arity_issues(
        dense_slots(slots).len() as int,
        exprs,
        last_span,
    )
}

/// How many slot/expression pairs exist: the overlap of the dense slot
/// array and the expression list.
pub open spec fn paired_len(dense: Seq<FullType>, n_exprs: int) -> int {
    if dense.len() <= n_exprs {
        dense.len() as int
    } else {
        n_exprs
    }
}

/// The encode step for the slot of type `t` at position `i`.
pub open spec fn step_for(t: FullType, i: int) -> EncodeStep {
    EncodeStep {
        arg_index: i as usize,
        required: input_class(t.kind).unwrap(),
        optional: t.nullable,
        is_list: t.list,
    }
}

/// The encode steps of the plan: one per paired slot, in position order.
pub open spec fn plan_steps(dense: Seq<FullType>, n_exprs: int) -> Seq<EncodeStep> {
    Seq::new(paired_len(dense, n_exprs) as nat, |i: int| step_for(dense[i], i))
}

/// Every paired slot's kind has an input class: the kinds that have none
/// cannot be bound and the planner does not accept them.
pub open spec fn plan_supported(slots: Seq<(ArgKey, FullType)>, exprs: Seq<CallerExpr>) -> bool {
    forall|i: int|
        0 <= i < paired_len(dense_slots(slots), exprs.len() as int) ==> input_class(
            #[trigger] dense_slots(slots)[i].kind,
        ) is Some
}

/// Reconciles the declared argument slots with the supplied expressions:
/// returns the encode steps for every slot/expression pair, and every
/// issue found (named slots, deficit, surplus), so one pass surfaces all
/// of a query's problems.
pub fn plan_args(
    slots: &Vec<(ArgKey, FullType)>,
    exprs: &Vec<CallerExpr>,
    last_span: Span,
) -> (r: (Vec<EncodeStep>, Vec<PlanIssue>))
    requires
        plan_supported(slots@, exprs@),
    ensures
        r.0@ == plan_steps(dense_slots(slots@), exprs@.len() as int),
        r.1@ == plan_issues(slots@, exprs@, last_span),
{
    let mut at: Vec<FullType> = Vec::new();
    let mut issues: Vec<PlanIssue> = Vec::new();
    let mut si: usize = 0;
    while si < slots.len()
        invariant
            si <= slots@.len(),
            at@ == dense_slots(slots@.take(si as int)),
            issues@ == named_issues(slots@.take(si as int), last_span),
        decreases slots@.len() - si,
    {
        proof {
            assert(slots@.take(si as int + 1).drop_last() =~= slots@.take(si as int));
            assert(slots@.take(si as int + 1).last() == slots@[si as int]);
        }
        let pair = &slots[si];
        let ghost prev = at@;
        let ghost prev_issues = issues@;
        match &pair.0 {
            ArgKey::Named(_) => {
                issues.push(PlanIssue::NamedArg { span: last_span });
                proof {
                    assert(issues@ =~= named_issues(slots@.take(si as int + 1), last_span));
                }
            },
            ArgKey::Index(i) => {
                let idx = *i;
                let v = pair.1;
                if idx < at.len() {
                    at[idx] = v;
                } else {
                    while at.len() < idx
                        invariant
                            prev.len() <= at@.len() <= idx,
                            at@ == prev + Seq::new(
                                (at@.len() - prev.len()) as nat,
                                |_j: int| FullType::invalid_spec(),
                            ),
                        decreases idx - at.len(),
                    {
                        at.push(FullType::invalid());
                        proof {
                            assert(at@ =~= prev + Seq::new(
                                (at@.len() - prev.len()) as nat,
                                |_j: int| FullType::invalid_spec(),
                            ));
                        }
                    }
                    at.push(v);
                }
                proof {
                    assert(at@ =~= place_slot(prev, slots@[si as int].0, v));
                    assert(issues@ =~= named_issues(slots@.take(si as int + 1), last_span));
                }
            },
        }
        si += 1;
    }
    proof {
        assert(slots@.take(slots@.len() as int) =~= slots@);
    }
    let n_slots = at.len();
    if n_slots > exprs.len() {
        issues.push(PlanIssue::Deficit { span: last_span, missing: n_slots - exprs.len() });
    }
    let ghost ibase = issues@;
    let mut ei: usize = n_slots;
    while ei < exprs.len()
        invariant
            n_slots <= ei <= exprs@.len() || (ei == n_slots && n_slots >= exprs@.len()),
            n_slots == dense_slots(slots@).len(),
            issues@ == ibase + Seq::new(
                (ei - n_slots) as nat,
                |i: int| PlanIssue::Surplus { span: exprs@[n_slots + i].span },
            ),
        decreases exprs@.len() - ei,
    {
        issues.push(PlanIssue::Surplus { span: exprs[ei].span });
        proof {
            assert(issues@ =~= ibase + Seq::new(
                (ei + 1 - n_slots) as nat,
                |i: int| PlanIssue::Surplus { span: exprs@[n_slots + i].span },
            ));
        }
        ei += 1;
    }
    proof {
        assert(issues@ =~= plan_issues(slots@, exprs@, last_span));
    }
    let m = if n_slots <= exprs.len() {
        n_slots
    } else {
        exprs.len()
    };
    let mut steps: Vec<EncodeStep> = Vec::new();
    let mut pi: usize = 0;
    while pi < m
        invariant
            pi <= m,
            m == paired_len(dense_slots(slots@), exprs@.len() as int),
            m <= at@.len(),
            at@ == dense_slots(slots@),
            plan_supported(slots@, exprs@),
            steps@ == plan_steps(dense_slots(slots@), exprs@.len() as int).take(pi as int),
        decreases m - pi,
    {
        let t = at[pi];
        let c = input_class_of(t.kind).unwrap();
        steps.push(EncodeStep { arg_index: pi, required: c, optional: t.nullable, is_list: t.list });
        proof {
            assert(steps@ =~= plan_steps(dense_slots(slots@), exprs@.len() as int).take(
                pi as int + 1,
            ));
        }
        pi += 1;
    }
    proof {
        assert(steps@ =~= plan_steps(dense_slots(slots@), exprs@.len() as int));
    }
    (steps, issues)
}

/// How many list-expansion steps a plan holds.
pub open spec fn list_step_count(steps: Seq<EncodeStep>) -> nat
    decreases steps.len(),
{
    if steps.len() == 0 {
        0
    } else {
        (if steps[0].is_list {
            1nat
        } else {
            0nat
        }) + list_step_count(steps.drop_first())
    }
}

/// The total number of placeholders the plan's steps bind, where `lens`
/// holds the run-time length of each list step, in step order: a plain
/// step binds one value, a list step binds one per element.
pub open spec fn total_args(steps: Seq<EncodeStep>, lens: Seq<usize>) -> int
    decreases steps.len(),
{
    if steps.len() == 0 {
        0
    } else if steps[0].is_list {
        lens[0] + total_args(steps.drop_first(), lens.drop_first())
    } else {
        1 + total_args(steps.drop_first(), lens)
    }
}

proof fn lemma_total_args_nonneg(steps: Seq<EncodeStep>, lens: Seq<usize>)
    requires
        list_step_count(steps) == lens.len(),
    ensures
        total_args(steps, lens) >= 0,
    decreases steps.len(),
{
    if steps.len() > 0 {
        if steps[0].is_list {
            lemma_total_args_nonneg(steps.drop_first(), lens.drop_first());
        } else {
            lemma_total_args_nonneg(steps.drop_first(), lens);
        }
    }
}

/// Evaluates the plan's accumulated argument count for the list lengths
/// gathered at run time, or nothing when the total does not fit.
pub fn arg_count(steps: &Vec<EncodeStep>, list_lengths: &Vec<usize>) -> (r: Option<usize>)
    requires
        list_step_count(steps@) == list_lengths@.len(),
    ensures
        (r is Some) == (total_args(steps@, list_lengths@) <= usize::MAX),
        r matches Some(c) ==> c == total_args(steps@, list_lengths@),
{
    let mut acc: usize = 0;
    let mut i: usize = 0;
    let mut li: usize = 0;
    proof {
        assert(steps@.skip(0) =~= steps@);
        assert(list_lengths@.skip(0) =~= list_lengths@);
    }
    while i < steps.len()
        invariant
            i <= steps@.len(),
            li <= list_lengths@.len(),
            list_step_count(steps@.skip(i as int)) == list_lengths@.len() - li,
            total_args(steps@, list_lengths@) == acc + total_args(
                steps@.skip(i as int),
                list_lengths@.skip(li as int),
            ),
        decreases steps@.len() - i,
    {
        proof {
            assert(steps@.skip(i as int)[0] == steps@[i as int]);
            assert(steps@.skip(i as int).drop_first() =~= steps@.skip(i as int + 1));
        }
        let step = &steps[i];
        let add: usize = if step.is_list {
            proof {
                assert(list_step_count(steps@.skip(i as int)) >= 1);
                assert(list_lengths@.skip(li as int)[0] == list_lengths@[li as int]);
                assert(list_lengths@.skip(li as int).drop_first() =~= list_lengths@.skip(
                    li as int + 1,
                ));
            }
            let x = list_lengths[li];
            let lim = list_lengths.len();
            proof {
                assert(li < lim);
            }
            li += 1;
            x
        } else {
            1
        };
        match acc.checked_add(add) {
            Some(a) => {
                acc = a;
            },
            None => {
                proof {
                    lemma_total_args_nonneg(
                        steps@.skip(i as int + 1),
                        list_lengths@.skip(li as int),
                    );
                }
                return None;
            },
        }
        i += 1;
    }
    proof {
        assert(steps@.skip(steps@.len() as int) =~= Seq::<EncodeStep>::empty());
        assert(list_lengths@.skip(list_lengths@.len() as int) =~= Seq::<usize>::empty());
    }
    Some(acc)
}

/// The accumulated serialized-size estimate: the sum of the per-step
/// contributions from position `k` on.
pub open spec fn size_total(hints: Seq<usize>, k: int) -> int
    decreases hints.len() - k,
{
    if k < 0 || k >= hints.len() {
        0
    } else {
        hints[k] + size_total(hints, k + 1)
    }
}

proof fn lemma_size_total_nonneg(hints: Seq<usize>, k: int)
    requires
        0 <= k,
    ensures
        size_total(hints, k) >= 0,
    decreases hints.len() - k,
{
    if k < hints.len() {
        lemma_size_total_nonneg(hints, k + 1);
    }
}

/// Evaluates the plan's accumulated serialized-size estimate, or nothing
/// when the total does not fit.  `size_hints` holds one contribution per
/// step, in step order: a plain step's own value hint, or the sum of a
/// list step's element hints, gathered where the values live.
pub fn size_estimate(steps: &Vec<EncodeStep>, size_hints: &Vec<usize>) -> (r: Option<usize>)
    requires
        size_hints@.len() == steps@.len(),
    ensures
        (r is Some) == (size_total(size_hints@, 0) <= usize::MAX),
        r matches Some(c) ==> c == size_total(size_hints@, 0),
{
    let mut acc: usize = 0;
    let mut i: usize = 0;
    while i < size_hints.len()
        invariant
            i <= size_hints@.len(),
            size_total(size_hints@, 0) == acc + size_total(size_hints@, i as int),
        decreases size_hints@.len() - i,
    {
        match acc.checked_add(size_hints[i]) {
            Some(a) => {
                acc = a;
            },
            None => {
                proof {
                    lemma_size_total_nonneg(size_hints@, i as int + 1);
                }
                return None;
            },
        }
        i += 1;
    }
    Some(acc)
}

/// A slot list made of positional slots alone yields no named-slot issues.
proof fn lemma_named_issues_all_positional(slots: Seq<(ArgKey, FullType)>, last_span: Span)
    requires
        forall|i: int| 0 <= i < slots.len() ==> (#[trigger] slots[i].0) is Index,
    ensures
        named_issues(slots, last_span) == Seq::<PlanIssue>::empty(),
    decreases slots.len(),
{
    if slots.len() > 0 {
        lemma_named_issues_all_positional(slots.drop_last(), last_span);
        assert(slots.last().0 is Index);
        assert(named_issues(slots, last_span) =~= Seq::<PlanIssue>::empty());
    }
}

/// Arity deficit: with positional slots alone and fewer supplied
/// expressions than declared positions, planning yields exactly one
/// issue, a deficit of the missing count at the last-seen location, and
/// one encode step per supplied expression, no more.
pub proof fn lemma_arity_deficit(
    slots: Seq<(ArgKey, FullType)>,
    exprs: Seq<CallerExpr>,
    last_span: Span,
)
    requires
        forall|i: int| 0 <= i < slots.len() ==> (#[trigger] slots[i].0) is Index,
        dense_slots(slots).len() > exprs.len(),
    ensures
        plan_issues(slots, exprs, last_span) =~= seq![
            (PlanIssue::Deficit {
                span: last_span,
                missing: (dense_slots(slots).len() - exprs.len()) as usize,
            }),
        ],
        plan_steps(dense_slots(slots), exprs.len() as int).len() == exprs.len(),
{
    lemma_named_issues_all_positional(slots, last_span);
}

/// Arity surplus: with positional slots alone and more supplied
/// expressions than declared positions, planning yields exactly one
/// surplus issue per extra expression, each attributed to that
/// expression's own location, and one encode step per declared position.
pub proof fn lemma_arity_surplus(
    slots: Seq<(ArgKey, FullType)>,
    exprs: Seq<CallerExpr>,
    last_span: Span,
)
    requires
        forall|i: int| 0 <= i < slots.len() ==> (#[trigger] slots[i].0) is Index,
        exprs.len() > dense_slots(slots).len(),
    ensures
        plan_issues(slots, exprs, last_span).len() == exprs.len() - dense_slots(slots).len(),
        forall|j: int|
            0 <= j < exprs.len() - dense_slots(slots).len() ==> plan_issues(
                slots,
                exprs,
                last_span,
            )[j] == (PlanIssue::Surplus { span: exprs[dense_slots(slots).len() + j].span }),
        plan_steps(dense_slots(slots), exprs.len() as int).len() == dense_slots(slots).len(),
{
    lemma_named_issues_all_positional(slots, last_span);
}

} // verus!
