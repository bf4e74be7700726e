//! Rewriting of list-expansion sentinels in query text.
//!
//! A query that binds a variable-length list of values carries one fixed
//! sentinel token per list slot.  Before the query can be executed, each
//! sentinel is replaced by one positional placeholder per list element, in
//! question-mark syntax, or by the NULL literal for an empty list (so that
//! `IN (NULL)` is produced rather than the syntactically invalid `IN ()`).

use vstd::prelude::*;

verus! {

/// The sentinel token that stands for one list-expansion slot in query text.
pub open spec fn sentinel() -> Seq<char> {
    seq!['_', 'L', 'I', 'S', 'T', '_']
}

/// A sentinel occurrence starts at character position `i` of `s`.
pub open spec fn sentinel_at(s: Seq<char>, i: int) -> bool {
    0 <= i && i + 6 <= s.len() && s.subrange(i, i + 6) == sentinel()
}

/// How many sentinel occurrences a left-to-right scan finds from position
/// `i` on, skipping past each occurrence found.
pub open spec fn count_from(s: Seq<char>, i: int) -> nat
    decreases s.len() - i when 0 <= i
{
    if i + 6 > s.len() {
        0
    } else if sentinel_at(s, i) {
        1 + count_from(s, i + 6)
    } else {
        count_from(s, i + 1)
    }
}

/// How many sentinel occurrences a left-to-right scan finds in `s`.
pub open spec fn sentinel_count(s: Seq<char>) -> nat {
    count_from(s, 0)
}

/// The text substituted for one sentinel whose list has `n` elements:
/// `n` comma-separated question-mark placeholders, or the NULL literal
/// when `n` is zero.
pub open spec fn expansion(n: int) -> Seq<char>
    decreases n
{
    if n <= 0 {
        seq!['N', 'U', 'L', 'L']
    } else if n == 1 {
        seq!['?']
    } else {
        expansion(n - 1) + seq![',', ' ', '?']
    }
}

/// The rewritten text from position `i` of `s` on, where `sizes[k]` is the
/// list length for the next sentinel found.
pub open spec fn rewrite_from(s: Seq<char>, i: int, sizes: Seq<usize>, k: int) -> Seq<char>
    decreases s.len() - i when 0 <= i <= s.len()
{
    if i + 6 > s.len() {
        s.subrange(i, s.len() as int)
    } else if sentinel_at(s, i) {
        expansion(sizes[k] as int) + rewrite_from(s, i + 6, sizes, k + 1)
    } else {
        seq![s[i]] + rewrite_from(s, i + 1, sizes, k)
    }
}

/// The whole rewritten text: `s` with its `j`-th sentinel occurrence
/// replaced by `expansion(sizes[j])`.
pub open spec fn rewrite_spec(s: Seq<char>, sizes: Seq<usize>) -> Seq<char> {
    rewrite_from(s, 0, sizes, 0)
}

/// Does the sentinel occur at character position `pos` of `q`?
fn is_sentinel_at(q: &str, pos: usize, n: usize) -> (b: bool)
    requires
        n == q@.len(),
        pos <= n,
    ensures
        b == sentinel_at(q@, pos as int),
{
    if n - pos < 6 {
        proof {
            assert(!sentinel_at(q@, pos as int));
        }
        false
    } else {
        let b = q.get_char(pos) == '_' && q.get_char(pos + 1) == 'L' && q.get_char(pos + 2) == 'I'
            && q.get_char(pos + 3) == 'S' && q.get_char(pos + 4) == 'T'
            && q.get_char(pos + 5) == '_';
        proof {
            let i = pos as int;
            if b {
                assert(q@.subrange(i, i + 6) =~= sentinel());
            } else if sentinel_at(q@, i) {
                assert(forall|j: int|
                    0 <= j < 6 ==> q@.subrange(i, i + 6)[j] == #[trigger] sentinel()[j]);
                assert(q@[i] == sentinel()[0]);
                assert(q@[i + 1] == sentinel()[1]);
                assert(q@[i + 2] == sentinel()[2]);
                assert(q@[i + 3] == sentinel()[3]);
                assert(q@[i + 4] == sentinel()[4]);
                assert(q@[i + 5] == sentinel()[5]);
            }
        }
        b
    }
}

/// Replaces each sentinel occurrence in `query`, in order, by the
/// placeholder expansion for the matching entry of `list_sizes`.
///
/// The scan is the one `sentinel_count` describes: left to right, skipping
/// past each occurrence found, so the text must hold exactly one occurrence
/// per supplied length.
pub fn convert_list_query(query: &str, list_sizes: &[usize]) -> (res: String)
    requires
        sentinel_count(query@) == list_sizes@.len(),
    ensures
        res@ == rewrite_spec(query@, list_sizes@),
{
    let n = query.unicode_len();
    let mut out = String::new();
    let mut pos: usize = 0;
    let mut k: usize = 0;
    while pos < n
        invariant
            n == query@.len(),
            pos <= n,
            k <= list_sizes@.len(),
            count_from(query@, pos as int) == list_sizes@.len() - k,
            out@ + rewrite_from(query@, pos as int, list_sizes@, k as int) == rewrite_spec(
                query@,
                list_sizes@,
            ),
        decreases n - pos,
    {
        if is_sentinel_at(query, pos, n) {
            proof {
                assert(count_from(query@, pos as int) == 1 + count_from(query@, pos as int + 6));
            }
            let sz = list_sizes[k];
            let ghost mid = out@;
            if sz == 0 {
                out.append("NULL");
                proof {
                    reveal_strlit("NULL");
                    assert("NULL"@ =~= expansion(0));
                }
            } else {
                out.append("?");
                proof {
                    reveal_strlit("?");
                    assert("?"@ =~= expansion(1));
                }
                let mut j: usize = 1;
                while j < sz
                    invariant
                        1 <= j <= sz,
                        out@ == mid + expansion(j as int),
                    decreases sz - j,
                {
                    out.append(", ?");
                    proof {
                        reveal_strlit(", ?");
                        assert(", ?"@ =~= seq![',', ' ', '?']);
                        assert(expansion(j as int + 1) == expansion(j as int) + seq![
                            ',',
                            ' ',
                            '?',
                        ]);
                    }
                    j += 1;
                }
            }
            proof {
                assert(out@ == mid + expansion(sz as int));
                assert(rewrite_from(query@, pos as int, list_sizes@, k as int) == expansion(
                    sz as int,
                ) + rewrite_from(query@, pos as int + 6, list_sizes@, k as int + 1));
                assert(out@ + rewrite_from(query@, pos as int + 6, list_sizes@, k as int + 1)
                    =~= mid + rewrite_from(query@, pos as int, list_sizes@, k as int));
            }
            k += 1;
            pos += 6;
        } else {
            let piece = query.substring_char(pos, pos + 1);
            out.append(piece);
            proof {
                let i = pos as int;
                assert(piece@ =~= seq![query@[i]]);
                if i + 6 > query@.len() {
                    assert(query@.subrange(i, query@.len() as int) =~= seq![query@[i]]
                        + query@.subrange(i + 1, query@.len() as int));
                    if i + 1 + 6 <= query@.len() {
                        assert(false);
                    }
                }
                assert(rewrite_from(query@, i, list_sizes@, k as int) == seq![query@[i]]
                    + rewrite_from(query@, i + 1, list_sizes@, k as int));
            }
            pos += 1;
        }
    }
    proof {
        assert(rewrite_from(query@, pos as int, list_sizes@, k as int) =~= Seq::<char>::empty());
        assert(out@ + Seq::<char>::empty() =~= out@);
    }
    out
}

/// The expansion text is never empty, starts with `N` or `?`, and never
/// contains an underscore.
proof fn lemma_expansion_shape(n: int)
    requires
        n >= 0,
    ensures
        expansion(n).len() >= 1,
        expansion(n)[0] == 'N' || expansion(n)[0] == '?',
        forall|j: int| 0 <= j < expansion(n).len() ==> expansion(n)[j] != '_',
    decreases n,
{
    if n > 1 {
        lemma_expansion_shape(n - 1);
        assert forall|j: int| 0 <= j < expansion(n).len() implies expansion(n)[j] != '_' by {
            if j < expansion(n - 1).len() {
                assert(expansion(n)[j] == expansion(n - 1)[j]);
            } else {
                assert(expansion(n)[j] == seq![',', ' ', '?'][j - expansion(n - 1).len()]);
            }
        }
    }
}

/// Describes the head of a rewritten tail `r = rewrite_from(s, i, ..)` when
/// at least one sentinel remains: `r` copies `s` up to the first occurrence,
/// at position `m` of `s`, and then continues with an expansion character.
spec fn prefix_copied(s: Seq<char>, i: int, r: Seq<char>, m: int) -> bool {
    &&& i <= m
    &&& m + 6 <= s.len()
    &&& m - i < r.len()
    &&& (forall|j: int| 0 <= j < m - i ==> r[j] == s[i + j])
    &&& (r[m - i] == 'N' || r[m - i] == '?')
}

proof fn lemma_no_residual_from(s: Seq<char>, i: int, sizes: Seq<usize>, k: int)
    requires
        0 <= i <= s.len(),
        0 <= k,
        count_from(s, i) == sizes.len() - k,
    ensures
        forall|p: int| !sentinel_at(#[trigger] rewrite_from(s, i, sizes, k), p),
        count_from(s, i) == 0 ==> rewrite_from(s, i, sizes, k) == s.subrange(i, s.len() as int),
        count_from(s, i) > 0 ==> exists|m: int|
            prefix_copied(s, i, rewrite_from(s, i, sizes, k), m),
    decreases s.len() - i,
{
    let r = rewrite_from(s, i, sizes, k);
    if i + 6 > s.len() {
        assert forall|p: int| !sentinel_at(r, p) by {
            assert(r.len() < 6);
        }
    } else if sentinel_at(s, i) {
        let e = expansion(sizes[k] as int);
        let t = rewrite_from(s, i + 6, sizes, k + 1);
        assert(count_from(s, i) == 1 + count_from(s, i + 6));
        lemma_no_residual_from(s, i + 6, sizes, k + 1);
        lemma_expansion_shape(sizes[k] as int);
        assert(r == e + t);
        assert forall|p: int| !sentinel_at(r, p) by {
            if 0 <= p && p + 6 <= r.len() {
                if p < e.len() {
                    assert(r[p] == e[p]);
                    if sentinel_at(r, p) {
                        assert(r.subrange(p, p + 6)[0] == sentinel()[0]);
                        assert(r[p] == '_');
                    }
                } else {
                    let p2 = p - e.len();
                    if sentinel_at(r, p) {
                        assert forall|j: int| 0 <= j < 6 implies t.subrange(p2, p2 + 6)[j]
                            == sentinel()[j] by {
                            assert(t[p2 + j] == r[p + j]);
                            assert(r.subrange(p, p + 6)[j] == sentinel()[j]);
                        }
                        assert(t.subrange(p2, p2 + 6) =~= sentinel());
                        assert(sentinel_at(t, p2));
                    }
                }
            }
        }
        assert(prefix_copied(s, i, r, i)) by {
            assert(r[0] == e[0]);
        }
    } else {
        let t = rewrite_from(s, i + 1, sizes, k);
        lemma_no_residual_from(s, i + 1, sizes, k);
        assert(r == seq![s[i]] + t);
        assert(r.len() == 1 + t.len());
        assert(forall|j: int| 1 <= j < r.len() ==> r[j] == t[j - 1]);
        if count_from(s, i) == 0 {
            assert(r =~= s.subrange(i, s.len() as int));
        } else {
            let m1 = choose|m: int| #[trigger] prefix_copied(s, i + 1, t, m);
            assert(prefix_copied(s, i, r, m1)) by {
                assert(r[0] == s[i]);
                assert forall|j: int| 0 <= j < m1 - i implies r[j] == s[i + j] by {
                    if j >= 1 {
                        assert(r[j] == t[j - 1]);
                        assert(t[j - 1] == s[i + 1 + (j - 1)]);
                    }
                }
                assert(r[m1 - i] == t[m1 - (i + 1)]);
            }
        }
        assert forall|p: int| !sentinel_at(r, p) by {
            if 0 <= p && p + 6 <= r.len() {
                if p >= 1 {
                    if sentinel_at(r, p) {
                        assert forall|j: int| 0 <= j < 6 implies t.subrange(p - 1, p + 5)[j]
                            == sentinel()[j] by {
                            assert(t[p - 1 + j] == r[p + j]);
                            assert(r.subrange(p, p + 6)[j] == sentinel()[j]);
                        }
                        assert(t.subrange(p - 1, p + 5) =~= sentinel());
                        assert(sentinel_at(t, p - 1));
                    }
                } else if sentinel_at(r, 0) {
                    assert(forall|j: int| 0 <= j < 6 ==> r[j] == #[trigger] sentinel()[j]) by {
                        assert(forall|j: int|
                            0 <= j < 6 ==> r.subrange(0, 6)[j] == #[trigger] sentinel()[j]);
                    }
                    if count_from(s, i) == 0 {
                        assert(r == s.subrange(i, s.len() as int));
                        assert(s.subrange(i, i + 6) =~= sentinel());
                        assert(sentinel_at(s, i));
                    } else {
                        let m1 = choose|m: int| #[trigger] prefix_copied(s, i + 1, t, m);
                        let a1 = m1 - (i + 1);
                        if a1 >= 5 {
                            assert forall|j: int| 0 <= j < 6 implies s.subrange(i, i + 6)[j]
                                == sentinel()[j] by {
                                if j == 0 {
                                    assert(r[0] == s[i]);
                                } else {
                                    assert(r[j] == t[j - 1]);
                                    assert(t[j - 1] == s[i + j]);
                                }
                            }
                            assert(s.subrange(i, i + 6) =~= sentinel());
                            assert(sentinel_at(s, i));
                        } else {
                            let tpos = a1 + 1;
                            assert(r[tpos] == t[a1]);
                            assert(t[a1] == 'N' || t[a1] == '?');
                            assert(r[tpos] == sentinel()[tpos]);
                            assert(sentinel()[tpos] != 'N' && sentinel()[tpos] != '?');
                        }
                    }
                }
            }
        }
    }
}

/// How many question-mark placeholders a text holds.
pub open spec fn question_count(s: Seq<char>) -> int
    decreases s.len(),
{
    if s.len() == 0 {
        0
    } else {
        (if s[0] == '?' {
            1int
        } else {
            0int
        }) + question_count(s.drop_first())
    }
}

/// The sum of the list lengths from position `k` on.
pub open spec fn size_sum(sizes: Seq<usize>, k: int) -> int
    decreases sizes.len() - k,
{
    if k < 0 || k >= sizes.len() {
        0
    } else {
        sizes[k] + size_sum(sizes, k + 1)
    }
}

proof fn lemma_question_count_concat(a: Seq<char>, b: Seq<char>)
    ensures
        question_count(a + b) == question_count(a) + question_count(b),
    decreases a.len(),
{
    if a.len() == 0 {
        assert(a + b =~= b);
    } else {
        lemma_question_count_concat(a.drop_first(), b);
        assert((a + b).drop_first() =~= a.drop_first() + b);
        assert((a + b)[0] == a[0]);
    }
}

proof fn lemma_expansion_question_count(n: int)
    requires
        n >= 0,
    ensures
        question_count(expansion(n)) == n,
    decreases n,
{
    reveal_with_fuel(question_count, 6);
    if n > 1 {
        lemma_expansion_question_count(n - 1);
        lemma_question_count_concat(expansion(n - 1), seq![',', ' ', '?']);
    }
}

proof fn lemma_placeholder_count_from(s: Seq<char>, i: int, sizes: Seq<usize>, k: int)
    requires
        0 <= i <= s.len(),
        0 <= k,
        count_from(s, i) == sizes.len() - k,
    ensures
        question_count(rewrite_from(s, i, sizes, k)) == question_count(
            s.subrange(i, s.len() as int),
        ) + size_sum(sizes, k),
    decreases s.len() - i,
{
    let l = s.len() as int;
    if i + 6 > l {
    } else if sentinel_at(s, i) {
        let e = expansion(sizes[k] as int);
        let t = rewrite_from(s, i + 6, sizes, k + 1);
        assert(count_from(s, i) == 1 + count_from(s, i + 6));
        lemma_placeholder_count_from(s, i + 6, sizes, k + 1);
        lemma_expansion_question_count(sizes[k] as int);
        lemma_question_count_concat(e, t);
        assert(s.subrange(i, l) =~= s.subrange(i, i + 6) + s.subrange(i + 6, l));
        lemma_question_count_concat(s.subrange(i, i + 6), s.subrange(i + 6, l));
        assert(question_count(sentinel()) == 0) by {
            reveal_with_fuel(question_count, 8);
        }
    } else {
        let t = rewrite_from(s, i + 1, sizes, k);
        lemma_placeholder_count_from(s, i + 1, sizes, k);
        lemma_question_count_concat(seq![s[i]], t);
        assert(s.subrange(i, l) =~= seq![s[i]] + s.subrange(i + 1, l));
        lemma_question_count_concat(seq![s[i]], s.subrange(i + 1, l));
        assert(question_count(seq![s[i]]) == (if s[i] == '?' {
            1int
        } else {
            0int
        })) by {
            reveal_with_fuel(question_count, 3);
        }
    }
}

/// Rewriting binds exactly one placeholder per list element: the rewritten
/// text holds as many question marks as the query text itself plus the sum
/// of the list lengths.
pub proof fn lemma_rewrite_placeholder_count(s: Seq<char>, sizes: Seq<usize>)
    requires
        sentinel_count(s) == sizes.len(),
    ensures
        question_count(rewrite_spec(s, sizes)) == question_count(s) + size_sum(sizes, 0),
{
    lemma_placeholder_count_from(s, 0, sizes, 0);
    assert(s.subrange(0, s.len() as int) =~= s);
}

/// Rewriting consumes every sentinel: when the query text holds exactly as
/// many sentinel occurrences as there are list lengths, the rewritten text
/// holds none.  The rewritten text itself is a function of the query text
/// and the lengths alone, so rewriting is deterministic.
pub proof fn lemma_rewrite_no_residual_sentinel(s: Seq<char>, sizes: Seq<usize>)
    requires
        sentinel_count(s) == sizes.len(),
    ensures
        forall|p: int| !sentinel_at(#[trigger] rewrite_spec(s, sizes), p),
{
    lemma_no_residual_from(s, 0, sizes, 0);
}

} // verus!
