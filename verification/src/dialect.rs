//! Schema dialect inference.
//!
//! The first line of a schema source may carry a dialect marker; when it
//! names the PostgreSQL product, placeholder syntax and type conventions
//! follow PostgreSQL, and MariaDB conventions apply otherwise.

use vstd::prelude::*;

verus! {

/// A SQL dialect, selecting placeholder syntax and minor type-mapping
/// conventions.
#[derive(Clone, Copy, PartialEq, Eq, Structural, Debug)]
pub enum Dialect {
    MariaDB,
    PostgreSQL,
}

/// How positional placeholders are written in query text.
#[derive(Clone, Copy, PartialEq, Eq, Structural, Debug)]
pub enum PlaceholderStyle {
    QuestionMark,
    Dollar,
}

/// The position of the first line feed at or after `i`, or the text's
/// length when none occurs.
pub open spec fn line_end_from(s: Seq<char>, i: int) -> int
    decreases s.len() - i when 0 <= i <= s.len()
{
    if i >= s.len() {
        i
    } else if s[i] == '\n' {
        i
    } else {
        line_end_from(s, i + 1)
    }
}

/// The pattern `pat` occurs in `s` starting at position `i`.
pub open spec fn occurs_at(s: Seq<char>, pat: Seq<char>, i: int) -> bool {
    0 <= i && i + pat.len() <= s.len() && s.subrange(i, i + pat.len()) == pat
}

/// The marker that selects the PostgreSQL dialect.
pub open spec fn postgres_marker() -> Seq<char> {
    "sql-product: postgres"@
}

/// The dialect a schema source selects: PostgreSQL when its first line
/// carries the marker, MariaDB otherwise.
pub open spec fn dialect_spec(s: Seq<char>) -> Dialect {
    if exists|i: int| occurs_at(s.take(line_end_from(s, 0)), postgres_marker(), i) {
        Dialect::PostgreSQL
    } else {
        Dialect::MariaDB
    }
}

/// Does `pat` occur at position `start` of the first `limit` characters
/// of `hay`?
fn occurs_here(hay: &str, pat: &str, start: usize, limit: usize) -> (b: bool)
    requires
        limit <= hay@.len(),
        start + pat@.len() <= limit,
    ensures
        b == occurs_at(hay@.take(limit as int), pat@, start as int),
{
    let m = pat.unicode_len();
    let mut j: usize = 0;
    while j < m
        invariant
            j <= m,
            m == pat@.len(),
            limit <= hay@.len(),
            start + m <= limit,
            forall|t: int| 0 <= t < j ==> hay@[start + t] == pat@[t],
        decreases m - j,
    {
        if hay.get_char(start + j) != pat.get_char(j) {
            proof {
                let lim = hay@.take(limit as int);
                if occurs_at(lim, pat@, start as int) {
                    let jj = j as int;
                    assert(lim.subrange(start as int, start as int + m)[jj] == pat@[jj]);
                    assert(lim[start as int + jj] == hay@[start as int + jj]);
                }
            }
            return false;
        }
        j += 1;
    }
    proof {
        let lim = hay@.take(limit as int);
        assert forall|t: int| 0 <= t < m implies lim.subrange(start as int, start as int + m)[t]
            == pat@[t] by {
            assert(lim[start + t] == hay@[start + t]);
        }
        assert(lim.subrange(start as int, start as int + m) =~= pat@);
    }
    true
}

/// Reads the dialect a schema source selects from its first line.
pub fn schema_dialect(schema_src: &str) -> (d: Dialect)
    ensures
        d == dialect_spec(schema_src@),
{
    let n = schema_src.unicode_len();
    let mut e: usize = 0;
    loop
        invariant
            e <= n,
            n == schema_src@.len(),
            line_end_from(schema_src@, 0) == line_end_from(schema_src@, e as int),
        ensures
            e <= n,
            n == schema_src@.len(),
            line_end_from(schema_src@, 0) == e as int,
        decreases n - e,
    {
        if e == n {
            break ;
        }
        if schema_src.get_char(e) == '\n' {
            break ;
        }
        e += 1;
    }
    let pat = "sql-product: postgres";
    let m = pat.unicode_len();
    proof {
        reveal_strlit("sql-product: postgres");
        assert(m >= 1);
    }
    if m > e {
        proof {
            assert forall|i: int| !occurs_at(
                schema_src@.take(e as int),
                pat@,
                i,
            ) by {
                assert(schema_src@.take(e as int).len() == e as int);
            }
        }
        return Dialect::MariaDB;
    }
    let mut i: usize = 0;
    while i <= e - m
        invariant
            i <= e - m + 1,
            1 <= m <= e <= n,
            n == schema_src@.len(),
            m == pat@.len(),
            e as int == line_end_from(schema_src@, 0),
            pat@ == postgres_marker(),
            forall|t: int| 0 <= t < i ==> !occurs_at(schema_src@.take(e as int), pat@, t),
        decreases e - m - i + 1,
    {
        if occurs_here(schema_src, pat, i, e) {
            proof {
                assert(occurs_at(schema_src@.take(e as int), postgres_marker(), i as int));
            }
            return Dialect::PostgreSQL;
        }
        i += 1;
    }
    proof {
        assert forall|t: int| !occurs_at(schema_src@.take(e as int), pat@, t) by {
            if 0 <= t < i {
            } else if t >= i {
                assert(schema_src@.take(e as int).len() == e as int);
            }
        }
    }
    Dialect::MariaDB
}

/// The placeholder syntax each dialect uses for positional arguments.
pub fn placeholder_style(d: &Dialect) -> (p: PlaceholderStyle)
    ensures
        p == (match d {
            Dialect::MariaDB => PlaceholderStyle::QuestionMark,
            Dialect::PostgreSQL => PlaceholderStyle::Dollar,
        }),
{
    match d {
        Dialect::MariaDB => PlaceholderStyle::QuestionMark,
        Dialect::PostgreSQL => PlaceholderStyle::Dollar,
    }
}

} // verus!
