//! Diagnostics: the issues the schema type oracle reports, and their two
//! renderings.
//!
//! A build-failing rendering combines every issue of a query, warnings
//! included, into one plain-text report that is surfaced exactly when an
//! error-severity issue is present; warnings alone never fail a build.  A
//! human-facing rendering styles each issue separately for the one-time
//! schema report, whose caller must abort on any error: a broken schema
//! cannot be partially trusted.

use ariadne::{sources, Color, Config, Label, Report, ReportKind};
use vstd::prelude::*;

verus! {

/// The severity of an issue.
#[derive(Clone, Copy, PartialEq, Eq, Structural, Debug)]
pub enum Level {
    Warning,
    Error,
}

/// A secondary cross-reference of an issue ("column defined here"): a
/// message and the half-open byte range it points at.
#[derive(Clone, Debug)]
pub struct Fragment {
    pub message: String,
    pub start: usize,
    pub end: usize,
}

/// One problem reported about a query or a schema: a severity, a primary
/// message with its location, and cross-reference fragments.
#[derive(Clone, Debug)]
pub struct Issue {
    pub level: Level,
    pub message: String,
    pub start: usize,
    pub end: usize,
    pub fragments: Vec<Fragment>,
}

/// Does the list hold an error-severity issue?
pub open spec fn any_error(issues: Seq<Issue>) -> bool {
    exists|i: int| 0 <= i < issues.len() && (#[trigger] issues[i]).level is Error
}

/// The issue's own span and every fragment span lie within the source
/// text, as spans produced against that text do by construction.
pub open spec fn issue_in_bounds(issue: Issue, source: Seq<char>) -> bool {
    &&& issue.start <= issue.end <= source.len()
    &&& forall|j: int|
        0 <= j < issue.fragments@.len() ==> ((#[trigger] issue.fragments@[j]).start
            <= issue.fragments@[j].end <= source.len())
}

/// Every issue of the list points into the source text.
pub open spec fn issues_in_bounds(issues: Seq<Issue>, source: Seq<char>) -> bool {
    forall|i: int| 0 <= i < issues.len() ==> issue_in_bounds(#[trigger] issues[i], source)
}

/// The fields of each fragment, as the renderings consume them.
pub open spec fn fragment_views(fs: Seq<Fragment>) -> Seq<(Seq<char>, int, int)> {
    Seq::new(fs.len(), |i: int| (fs[i].message@, fs[i].start as int, fs[i].end as int))
}

/// The text ariadne renders for one issue with colour disabled, given the
/// issue's severity, message, span, fragments, the source text and the
/// display name the report heads each excerpt with.
pub uninterp spec fn plain_render(
    error: bool,
    message: Seq<char>,
    start: int,
    end: int,
    fragments: Seq<(Seq<char>, int, int)>,
    source: Seq<char>,
    name: Seq<char>,
) -> Seq<char>;

/// The plain rendering of one issue against a source text.  Build-failing
/// reports carry no display name.
pub open spec fn issue_plain_render(issue: Issue, source: Seq<char>) -> Seq<char> {
    plain_render(
        issue.level is Error,
        issue.message@,
        issue.start as int,
        issue.end as int,
        fragment_views(issue.fragments@),
        source,
        Seq::<char>::empty(),
    )
}

/// Relies on ariadne's report builder and `Report::write`: with colour
/// disabled in the report's own configuration, the rendered text is a
/// function of the issue fields, the source text and its display name
/// alone.  An empty source has no lines for ariadne to index, so the
/// spans must lie within a non-empty source text.
#[verifier::external_body]
fn render_plain(
    error: bool,
    message: &String,
    start: usize,
    end: usize,
    fragments: &Vec<Fragment>,
    source: &str,
    name: String,
) -> (r: String)
    requires
        start <= end <= source@.len(),
        0 < source@.len(),
        forall|j: int|
            0 <= j < fragments@.len() ==> ((#[trigger] fragments@[j]).start <= fragments@[j].end
                <= source@.len()),
    ensures
        r@ == plain_render(
            error,
            message@,
            start as int,
            end as int,
            fragment_views(fragments@),
            source@,
            name@,
        ),
{
    let kind = if error { ReportKind::Error } else { ReportKind::Warning };
    let mut b = Report::build(kind, name.clone(), start)
        .with_config(Config::default().with_color(false))
        .with_label(Label::new((name.clone(), start..end))
            .with_order(-1).with_priority(-1).with_message(message));
    for f in fragments {
        b = b.with_label(Label::new((name.clone(), f.start..f.end)).with_message(&f.message));
    }
    let mut out: Vec<u8> = Vec::new();
    let _ = b.finish().write(sources([(name, source)]), &mut out);
    String::from_utf8_lossy(&out).into_owned()
}

/// Relies on ariadne's report builder and `Report::write`, with severity
/// and cross-reference colours, for the human-facing schema report.
/// Terminal styling can depend on process-wide state, so nothing is
/// stated of the rendered text.  An empty source has no lines for ariadne
/// to index, so the spans must lie within a non-empty source text.
#[verifier::external_body]
fn render_color(
    error: bool,
    message: &String,
    start: usize,
    end: usize,
    fragments: &Vec<Fragment>,
    source: &str,
    name: String,
) -> String
    requires
        start <= end <= source@.len(),
        0 < source@.len(),
        forall|j: int|
            0 <= j < fragments@.len() ==> ((#[trigger] fragments@[j]).start <= fragments@[j].end
                <= source@.len()),
{
    let kind = if error { ReportKind::Error } else { ReportKind::Warning };
    let c = if error { Color::Red } else { Color::Yellow };
    let mut b = Report::build(kind, name.clone(), start).with_label(
        Label::new((name.clone(), start..end))
            .with_color(c).with_order(-1).with_priority(-1).with_message(message),
    );
    for f in fragments {
        b = b.with_label(
            Label::new((name.clone(), f.start..f.end)).with_color(Color::Blue).with_message(&f.message),
        );
    }
    let mut out: Vec<u8> = Vec::new();
    let _ = b.finish().write(sources([(name, source)]), &mut out);
    String::from_utf8_lossy(&out).into_owned()
}

/// The plain renderings of all issues, in order, combined into one text.
pub open spec fn combined_plain(issues: Seq<Issue>, source: Seq<char>) -> Seq<char>
    decreases issues.len(),
{
    if issues.len() == 0 {
        Seq::empty()
    } else {
        combined_plain(issues.drop_last(), source) + issue_plain_render(issues.last(), source)
    }
}

proof fn lemma_any_error_step(issues: Seq<Issue>, i: int)
    requires
        0 <= i < issues.len(),
    ensures
        any_error(issues.take(i + 1)) == (any_error(issues.take(i)) || issues[i].level is Error),
{
    if issues[i].level is Error {
        assert(issues.take(i + 1)[i].level is Error);
    } else {
        if any_error(issues.take(i + 1)) {
            let j = choose|j: int|
                0 <= j < issues.take(i + 1).len() && (#[trigger] issues.take(i + 1)[j]).level
                    is Error;
            if j < i {
                assert(issues.take(i)[j].level is Error);
            }
        }
        if any_error(issues.take(i)) {
            let j = choose|j: int|
                0 <= j < issues.take(i).len() && (#[trigger] issues.take(i)[j]).level is Error;
            assert(issues.take(i + 1)[j].level is Error);
        }
    }
}

/// Renders a query's issues and decides whether they fail the build:
/// every issue, warnings included, is rendered into one combined report,
/// which is returned exactly when an error-severity issue is present.
/// Warnings alone never fail a build, and their rendering is then
/// discarded.  Rendering excerpts a non-empty source, which any text the
/// issues point into is.
pub fn issues_to_errors(issues: &Vec<Issue>, source: &str) -> (r: Option<String>)
    requires
        issues_in_bounds(issues@, source@),
        issues@.len() > 0 ==> source@.len() > 0,
    ensures
        (r is Some) == any_error(issues@),
        r matches Some(s) ==> s@ == combined_plain(issues@, source@),
{
    let mut out = String::new();
    let mut err = false;
    let mut i: usize = 0;
    while i < issues.len()
        invariant
            i <= issues@.len(),
            issues_in_bounds(issues@, source@),
            issues@.len() > 0 ==> source@.len() > 0,
            out@ == combined_plain(issues@.take(i as int), source@),
            err == any_error(issues@.take(i as int)),
        decreases issues@.len() - i,
    {
        let issue = &issues[i];
        let is_err = matches!(issue.level, Level::Error);
        if is_err {
            err = true;
        }
        let rendered = render_plain(
            is_err,
            &issue.message,
            issue.start,
            issue.end,
            &issue.fragments,
            source,
            String::new(),
        );
        out.append(rendered.as_str());
        proof {
            assert(issues@.take(i as int + 1).drop_last() =~= issues@.take(i as int));
            assert(issues@.take(i as int + 1).last() == issues@[i as int]);
            lemma_any_error_step(issues@, i as int);
        }
        i += 1;
    }
    proof {
        assert(issues@.take(issues@.len() as int) =~= issues@);
    }
    if err {
        Some(out)
    } else {
        None
    }
}

/// Renders every issue in the colourised, human-facing form, headed by the
/// source's display name, and reports whether any is an error.  A caller
/// bootstrapping a schema must treat a reported error as fatal and go no
/// further: the schema is shared foundational state and cannot be
/// partially trusted.  Rendering excerpts a non-empty source, which any
/// text the issues point into is.
pub fn schema_report(issues: &Vec<Issue>, source: &str, name: &str) -> (r: (bool, Vec<String>))
    requires
        issues_in_bounds(issues@, source@),
        issues@.len() > 0 ==> source@.len() > 0,
    ensures
        r.0 == any_error(issues@),
        r.1@.len() == issues@.len(),
{
    let mut rendered: Vec<String> = Vec::new();
    let mut err = false;
    let mut i: usize = 0;
    while i < issues.len()
        invariant
            i <= issues@.len(),
            issues_in_bounds(issues@, source@),
            issues@.len() > 0 ==> source@.len() > 0,
            rendered@.len() == i,
            err == any_error(issues@.take(i as int)),
        decreases issues@.len() - i,
    {
        let issue = &issues[i];
        let is_err = matches!(issue.level, Level::Error);
        if is_err {
            err = true;
        }
        rendered.push(
            render_color(
                is_err,
                &issue.message,
                issue.start,
                issue.end,
                &issue.fragments,
                source,
                String::from_str(name),
            ),
        );
        proof {
            lemma_any_error_step(issues@, i as int);
        }
        i += 1;
    }
    proof {
        assert(issues@.take(issues@.len() as int) =~= issues@);
    }
    (err, rendered)
}

} // verus!
