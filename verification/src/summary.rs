//! The aggregate summary: total duration per site over the stored time logs,
//! ordered by descending total and capped.
//!
//! The model: rows are grouped by site in order of first occurrence, the
//! durations of a site are summed (over unbounded integers), the groups are
//! sorted by descending total with a stable insertion (ties keep their
//! first-occurrence order), and the result is cut to the cap.

use crate::state::AppState;
use crate::store::db_fetch_site_durations;
use vstd::prelude::*;

verus! {

/// How many rows a summary may hold.
pub const SUMMARY_LIMIT: usize = 20;

/// One line of the summary: a site and the sum of its logged durations.
pub struct TimeLogSummary {
    pub website: String,
    pub total_duration_secs: i64,
}

/// The (site, duration) columns of a log row sequence.
pub open spec fn site_durations(logs: Seq<(Seq<char>, Seq<char>, i64, i64)>) -> Seq<
    (Seq<char>, i64),
> {
    logs.map_values(|row: (Seq<char>, Seq<char>, i64, i64)| (row.0, row.3))
}

/// The views of a vector of (site, duration) pairs.
pub open spec fn row_views(v: Seq<(String, i64)>) -> Seq<(Seq<char>, i64)> {
    v.map_values(|p: (String, i64)| (p.0@, p.1))
}

/// The views of grouped (site, running total) pairs.
pub open spec fn group_views(v: Seq<(String, i64)>) -> Seq<(Seq<char>, int)> {
    v.map_values(|p: (String, i64)| (p.0@, p.1 as int))
}

/// The views of a summary vector.
pub open spec fn summary_views(v: Seq<TimeLogSummary>) -> Seq<(Seq<char>, int)> {
    v.map_values(|e: TimeLogSummary| (e.website@, e.total_duration_secs as int))
}

/// The sum, over unbounded integers, of the durations `site` carries in
/// `rows`.
pub open spec fn total_for(rows: Seq<(Seq<char>, i64)>, site: Seq<char>) -> int
    decreases rows.len(),
{
    if rows.len() == 0 {
        0
    } else {
        total_for(rows.drop_last(), site) + if rows.last().0 == site {
            rows.last().1 as int
        } else {
            0int
        }
    }
}

/// The first index at which `site` stands in the grouped sequence, or -1.
pub open spec fn find_site(g: Seq<(Seq<char>, int)>, site: Seq<char>) -> int
    decreases g.len(),
{
    if g.len() == 0 {
        -1
    } else if g[0].0 == site {
        0
    } else if find_site(g.drop_first(), site) < 0 {
        -1
    } else {
        find_site(g.drop_first(), site) + 1
    }
}

/// One row folded into the grouped sequence: a site already present has its
/// total raised, a new site is appended.
pub open spec fn add_row(g: Seq<(Seq<char>, int)>, site: Seq<char>, dur: int) -> Seq<
    (Seq<char>, int),
> {
    let i = find_site(g, site);
    if i < 0 {
        g.push((site, dur))
    } else {
        g.update(i, (site, g[i].1 + dur))
    }
}

/// The rows grouped by site in order of first occurrence, each with the sum
/// of its durations.
pub open spec fn group_rows(rows: Seq<(Seq<char>, i64)>) -> Seq<(Seq<char>, int)>
    decreases rows.len(),
{
    if rows.len() == 0 {
        Seq::<(Seq<char>, int)>::empty()
    } else {
        add_row(group_rows(rows.drop_last()), rows.last().0, rows.last().1 as int)
    }
}

/// Sorted by non-increasing total.
pub open spec fn sorted_desc(s: Seq<(Seq<char>, int)>) -> bool {
    forall|i: int, j: int| 0 <= i < j < s.len() ==> s[i].1 >= s[j].1
}

/// `x` inserted behind every entry whose total is at least as large: a
/// stable descending insertion.
pub open spec fn insert_desc(s: Seq<(Seq<char>, int)>, x: (Seq<char>, int)) -> Seq<
    (Seq<char>, int),
>
    decreases s.len(),
{
    if s.len() == 0 {
        seq![x]
    } else if s[0].1 >= x.1 {
        seq![s[0]] + insert_desc(s.drop_first(), x)
    } else {
        seq![x] + s
    }
}

/// Stable insertion sort by descending total.
pub open spec fn sort_desc(s: Seq<(Seq<char>, int)>) -> Seq<(Seq<char>, int)>
    decreases s.len(),
{
    if s.len() == 0 {
        Seq::<(Seq<char>, int)>::empty()
    } else {
        insert_desc(sort_desc(s.drop_last()), s.last())
    }
}

/// The whole summary: group, sort descending, cut to `limit` rows.
pub open spec fn spec_summary(rows: Seq<(Seq<char>, i64)>, limit: int) -> Seq<(Seq<char>, int)> {
    let sorted = sort_desc(group_rows(rows));
    if sorted.len() <= limit {
        sorted
    } else {
        sorted.take(limit)
    }
}

/// No row carries a negative duration.
pub open spec fn nonneg_durations(rows: Seq<(Seq<char>, i64)>) -> bool {
    forall|i: int| 0 <= i < rows.len() ==> rows[i].1 >= 0
}

/// Every site's summed duration fits the result type.
pub open spec fn totals_fit(rows: Seq<(Seq<char>, i64)>) -> bool {
    forall|site: Seq<char>| #[trigger] total_for(rows, site) <= i64::MAX
}

proof fn lemma_find_site(g: Seq<(Seq<char>, int)>, site: Seq<char>)
    ensures
        -1 <= find_site(g, site) < g.len(),
        find_site(g, site) >= 0 ==> g[find_site(g, site)].0 == site,
        forall|k: int| 0 <= k < find_site(g, site) ==> g[k].0 != site,
        find_site(g, site) == -1 <==> (forall|k: int| 0 <= k < g.len() ==> g[k].0 != site),
    decreases g.len(),
{
    if g.len() > 0 && g[0].0 != site {
        let rest = g.drop_first();
        lemma_find_site(rest, site);
        assert forall|k: int| 0 <= k < find_site(g, site) implies g[k].0 != site by {
            if k > 0 {
                assert(rest[k - 1] == g[k]);
            }
        }
        if find_site(g, site) == -1 {
            assert forall|k: int| 0 <= k < g.len() implies g[k].0 != site by {
                if k > 0 {
                    assert(rest[k - 1] == g[k]);
                }
            }
        }
        if forall|k: int| 0 <= k < g.len() ==> g[k].0 != site {
            assert forall|k: int| 0 <= k < rest.len() implies rest[k].0 != site by {
                assert(rest[k] == g[k + 1]);
            }
            assert(find_site(rest, site) == -1);
        }
    }
}

proof fn lemma_total_nonneg(rows: Seq<(Seq<char>, i64)>, site: Seq<char>)
    requires
        nonneg_durations(rows),
    ensures
        total_for(rows, site) >= 0,
    decreases rows.len(),
{
    if rows.len() > 0 {
        lemma_total_nonneg(rows.drop_last(), site);
    }
}

proof fn lemma_total_prefix(rows: Seq<(Seq<char>, i64)>, n: int, site: Seq<char>)
    requires
        0 <= n <= rows.len(),
        nonneg_durations(rows),
    ensures
        total_for(rows.subrange(0, n), site) <= total_for(rows, site),
    decreases rows.len() - n,
{
    if n == rows.len() {
        assert(rows.subrange(0, n) =~= rows);
    } else {
        lemma_total_prefix(rows, n + 1, site);
        assert(rows.subrange(0, n + 1).drop_last() =~= rows.subrange(0, n));
        assert(rows.subrange(0, n + 1).last() == rows[n]);
    }
}

/// The grouped sequence holds each site once, its total is the site's summed
/// duration, and a site it does not hold has a zero sum.
proof fn lemma_group_rows(rows: Seq<(Seq<char>, i64)>)
    ensures
        forall|j: int, k: int|
            0 <= j < k < group_rows(rows).len() ==> group_rows(rows)[j].0 != group_rows(
                rows,
            )[k].0,
        forall|j: int|
            0 <= j < group_rows(rows).len() ==> #[trigger] group_rows(rows)[j].1 == total_for(
                rows,
                group_rows(rows)[j].0,
            ),
        forall|site: Seq<char>|
            find_site(group_rows(rows), site) == -1 ==> #[trigger] total_for(rows, site) == 0,
    decreases rows.len(),
{
    if rows.len() > 0 {
        let rows0 = rows.drop_last();
        let g0 = group_rows(rows0);
        let g = group_rows(rows);
        let s = rows.last().0;
        let d = rows.last().1 as int;
        lemma_group_rows(rows0);
        lemma_find_site(g0, s);
        let i = find_site(g0, s);
        if i >= 0 {
            assert(g =~= g0.update(i, (s, g0[i].1 + d)));
            assert forall|j: int| 0 <= j < g.len() implies #[trigger] g[j].1 == total_for(
                rows,
                g[j].0,
            ) by {
                if j != i {
                    assert(g[j] == g0[j]);
                    assert(g0[j].0 != s);
                }
            }
            assert forall|site: Seq<char>|
                find_site(g, site) == -1 implies #[trigger] total_for(rows, site) == 0 by {
                lemma_find_site(g, site);
                lemma_find_site(g0, site);
                assert(site != s) by {
                    assert(g[i].0 == s);
                }
                assert forall|k: int| 0 <= k < g0.len() implies g0[k].0 != site by {
                    assert(g[k].0 == g0[k].0);
                }
                assert(find_site(g0, site) == -1);
                assert(total_for(rows0, site) == 0);
            }
        } else {
            assert(g =~= g0.push((s, d)));
            assert(total_for(rows0, s) == 0);
            assert forall|j: int| 0 <= j < g.len() implies #[trigger] g[j].1 == total_for(
                rows,
                g[j].0,
            ) by {
                if j < g0.len() {
                    assert(g[j] == g0[j]);
                    assert(g0[j].0 != s);
                }
            }
            assert forall|site: Seq<char>|
                find_site(g, site) == -1 implies #[trigger] total_for(rows, site) == 0 by {
                lemma_find_site(g, site);
                lemma_find_site(g0, site);
                assert(site != s) by {
                    assert(g[g0.len() as int].0 == s);
                }
                assert forall|k: int| 0 <= k < g0.len() implies g0[k].0 != site by {
                    assert(g0[k] == g[k]);
                }
                assert(find_site(g0, site) == -1);
                assert(total_for(rows0, site) == 0);
            }
        }
    }
}

proof fn lemma_insert_desc(s: Seq<(Seq<char>, int)>, x: (Seq<char>, int))
    requires
        sorted_desc(s),
    ensures
        sorted_desc(insert_desc(s, x)),
        insert_desc(s, x).len() == s.len() + 1,
        insert_desc(s, x)[0] == x || (s.len() > 0 && insert_desc(s, x)[0] == s[0]),
        forall|k: int|
            0 <= k < insert_desc(s, x).len() ==> #[trigger] insert_desc(s, x)[k] == x || exists|
                m: int,
            | 0 <= m < s.len() && insert_desc(s, x)[k] == s[m],
    decreases s.len(),
{
    if s.len() == 0 {
    } else if s[0].1 >= x.1 {
        assert(sorted_desc(s.drop_first()));
        lemma_insert_desc(s.drop_first(), x);
        let t = insert_desc(s.drop_first(), x);
        let r = insert_desc(s, x);
        assert(r =~= seq![s[0]] + t);
        assert(s[0].1 >= t[0].1);
        assert forall|i: int, j: int| 0 <= i < j < r.len() implies r[i].1 >= r[j].1 by {
            if i == 0 {
                assert(r[j] == t[j - 1]);
                if j - 1 > 0 {
                    assert(t[0].1 >= t[j - 1].1);
                }
            } else {
                assert(r[i] == t[i - 1] && r[j] == t[j - 1]);
            }
        }
        assert forall|k: int| 0 <= k < r.len() implies #[trigger] r[k] == x || exists|m: int|
            0 <= m < s.len() && r[k] == s[m] by {
            if k == 0 {
                assert(r[0] == s[0]);
            } else {
                assert(r[k] == t[k - 1]);
                if t[k - 1] != x {
                    let m = choose|m: int| 0 <= m < s.drop_first().len() && t[k - 1]
                        == s.drop_first()[m];
                    assert(s.drop_first()[m] == s[m + 1]);
                }
            }
        }
    } else {
        let r = insert_desc(s, x);
        assert(r =~= seq![x] + s);
        assert forall|k: int| 0 <= k < r.len() implies #[trigger] r[k] == x || exists|m: int|
            0 <= m < s.len() && r[k] == s[m] by {
            if k > 0 {
                assert(r[k] == s[k - 1]);
            }
        }
    }
}

proof fn lemma_sort_desc(s: Seq<(Seq<char>, int)>)
    ensures
        sorted_desc(sort_desc(s)),
        sort_desc(s).len() == s.len(),
        forall|k: int|
            0 <= k < sort_desc(s).len() ==> exists|m: int|
                0 <= m < s.len() && #[trigger] sort_desc(s)[k] == s[m],
    decreases s.len(),
{
    if s.len() > 0 {
        let s0 = s.drop_last();
        lemma_sort_desc(s0);
        lemma_insert_desc(sort_desc(s0), s.last());
        let r = sort_desc(s);
        assert forall|k: int| 0 <= k < r.len() implies exists|m: int|
            0 <= m < s.len() && #[trigger] r[k] == s[m] by {
            if r[k] == s.last() {
                assert(r[k] == s[s.len() - 1]);
            } else {
                let m0 = choose|m0: int| 0 <= m0 < sort_desc(s0).len() && r[k] == sort_desc(s0)[m0];
                let m = choose|m: int| 0 <= m < s0.len() && sort_desc(s0)[m0] == s0[m];
                assert(s0[m] == s[m]);
            }
        }
    }
}

/// Sorted by strictly decreasing total.
pub open spec fn strictly_sorted_desc(s: Seq<(Seq<char>, int)>) -> bool {
    forall|i: int, j: int| 0 <= i < j < s.len() ==> s[i].1 > s[j].1
}

proof fn lemma_insert_desc_strict(s: Seq<(Seq<char>, int)>, x: (Seq<char>, int))
    requires
        strictly_sorted_desc(s),
        forall|m: int| 0 <= m < s.len() ==> s[m].1 != x.1,
    ensures
        strictly_sorted_desc(insert_desc(s, x)),
    decreases s.len(),
{
    if s.len() == 0 {
    } else if s[0].1 >= x.1 {
        assert(strictly_sorted_desc(s.drop_first()));
        lemma_insert_desc_strict(s.drop_first(), x);
        assert(sorted_desc(s.drop_first()));
        lemma_insert_desc(s.drop_first(), x);
        let t = insert_desc(s.drop_first(), x);
        let r = insert_desc(s, x);
        assert(r =~= seq![s[0]] + t);
        assert(s[0].1 > t[0].1);
        assert forall|i: int, j: int| 0 <= i < j < r.len() implies r[i].1 > r[j].1 by {
            if i == 0 {
                assert(r[j] == t[j - 1]);
                if j - 1 > 0 {
                    assert(t[0].1 > t[j - 1].1);
                }
            } else {
                assert(r[i] == t[i - 1] && r[j] == t[j - 1]);
            }
        }
    }
}

proof fn lemma_sort_desc_strict(s: Seq<(Seq<char>, int)>)
    requires
        forall|i: int, j: int| 0 <= i < j < s.len() ==> s[i].1 != s[j].1,
    ensures
        strictly_sorted_desc(sort_desc(s)),
    decreases s.len(),
{
    if s.len() > 0 {
        let s0 = s.drop_last();
        let y = s.last();
        lemma_sort_desc_strict(s0);
        lemma_sort_desc(s0);
        assert forall|m: int| 0 <= m < sort_desc(s0).len() implies sort_desc(s0)[m].1 != y.1 by {
            let m0 = choose|m0: int| 0 <= m0 < s0.len() && sort_desc(s0)[m] == s0[m0];
            assert(s0[m0] == s[m0]);
            assert(y == s[s.len() - 1]);
        }
        lemma_insert_desc_strict(sort_desc(s0), y);
    }
}

proof fn lemma_insert_desc_at(s: Seq<(Seq<char>, int)>, x: (Seq<char>, int), j: int)
    requires
        0 <= j <= s.len(),
        forall|k: int| 0 <= k < j ==> s[k].1 >= x.1,
        j == s.len() || s[j].1 < x.1,
    ensures
        insert_desc(s, x) == s.insert(j, x),
    decreases s.len(),
{
    if s.len() == 0 {
        assert(insert_desc(s, x) =~= s.insert(j, x));
    } else if j == 0 {
        assert(insert_desc(s, x) =~= s.insert(0, x));
    } else {
        assert(s[0].1 >= x.1);
        lemma_insert_desc_at(s.drop_first(), x, j - 1);
        assert(insert_desc(s, x) =~= s.insert(j, x));
    }
}

/// Law: a summary is sorted by non-increasing total duration and never holds
/// more than `limit` rows.
pub proof fn lemma_summary_sorted(rows: Seq<(Seq<char>, i64)>, limit: int)
    requires
        0 <= limit,
    ensures
        sorted_desc(spec_summary(rows, limit)),
        spec_summary(rows, limit).len() <= limit,
{
    lemma_sort_desc(group_rows(rows));
    let sorted = sort_desc(group_rows(rows));
    if sorted.len() > limit {
        assert(forall|i: int| 0 <= i < limit ==> sorted.take(limit)[i] == sorted[i]);
    }
}

/// Law: when no two sites share a summed duration (the grouped totals are
/// pairwise different), the summary is sorted by strictly descending total.
/// Two sites with equal sums keep their storage order instead, so only the
/// non-strict order can hold of them.
pub proof fn lemma_summary_strictly_sorted(rows: Seq<(Seq<char>, i64)>, limit: int)
    requires
        0 <= limit,
        forall|i: int, j: int|
            0 <= i < j < group_rows(rows).len() ==> group_rows(rows)[i].1 != group_rows(
                rows,
            )[j].1,
    ensures
        strictly_sorted_desc(spec_summary(rows, limit)),
{
    lemma_sort_desc_strict(group_rows(rows));
    lemma_sort_desc(group_rows(rows));
    let sorted = sort_desc(group_rows(rows));
    if sorted.len() > limit {
        assert(forall|i: int| 0 <= i < limit ==> sorted.take(limit)[i] == sorted[i]);
    }
}

/// The first index of `site` in the grouped vector, or its length when the
/// site is absent.
fn find_group(groups: &Vec<(String, i64)>, site: &String) -> (r: usize)
    ensures
        r <= groups@.len(),
        r < groups@.len() ==> groups@[r as int].0@ == site@,
        forall|k: int| 0 <= k < r ==> groups@[k].0@ != site@,
{
    let mut i: usize = 0;
    while i < groups.len()
        invariant
            0 <= i <= groups@.len(),
            forall|k: int| 0 <= k < i ==> groups@[k].0@ != site@,
        decreases groups@.len() - i,
    {
        if groups[i].0 == *site {
            return i;
        }
        i += 1;
    }
    i
}

/// The first index of the sorted summary whose total is below `total`, or
/// the length when none is.
fn find_insert_pos(out: &Vec<TimeLogSummary>, total: i64) -> (r: usize)
    ensures
        r <= out@.len(),
        r < out@.len() ==> out@[r as int].total_duration_secs < total,
        forall|k: int| 0 <= k < r ==> out@[k].total_duration_secs >= total,
{
    let mut i: usize = 0;
    while i < out.len()
        invariant
            0 <= i <= out@.len(),
            forall|k: int| 0 <= k < i ==> out@[k].total_duration_secs >= total,
        decreases out@.len() - i,
    {
        if out[i].total_duration_secs < total {
            return i;
        }
        i += 1;
    }
    i
}

/// Aggregate raw (site, duration) rows into the summary: group by site,
/// sum, sort by descending total (stable for ties), cut to `limit` rows.
/// Success is owed whenever no duration is negative and every site's sum
/// fits; a sum that leaves the result type is reported as an error, as the
/// aggregate is then unrepresentable.
pub fn summarize_rows(rows: &Vec<(String, i64)>, limit: usize) -> (r: Result<
    Vec<TimeLogSummary>,
    String,
>)
    ensures
        r matches Ok(out) ==> summary_views(out@) == spec_summary(row_views(rows@), limit as int),
        r matches Ok(out) ==> out@.len() <= limit,
        nonneg_durations(row_views(rows@)) && totals_fit(row_views(rows@)) ==> r is Ok,
{
    let ghost rv = row_views(rows@);
    let mut groups: Vec<(String, i64)> = Vec::new();
    let mut i: usize = 0;
    while i < rows.len()
        invariant
            0 <= i <= rows@.len(),
            rv == row_views(rows@),
            group_views(groups@) == group_rows(rv.subrange(0, i as int)),
        decreases rows@.len() - i,
    {
        let ghost gsub = rv.subrange(0, i as int);
        let ghost gv = group_views(groups@);
        let ghost site = rv[i as int].0;
        let ghost dur = rv[i as int].1 as int;
        let idx = find_group(&groups, &rows[i].0);
        proof {
            lemma_find_site(gv, site);
            if idx < groups@.len() {
                assert(find_site(gv, site) == idx as int) by {
                    assert(gv[idx as int].0 == site);
                }
            } else {
                assert(find_site(gv, site) == -1);
            }
        }
        if idx < groups.len() {
            match groups[idx].1.checked_add(rows[i].1) {
                Some(t) => {
                    groups[idx].1 = t;
                },
                None => {
                    proof {
                        if nonneg_durations(rv) && totals_fit(rv) {
                            lemma_group_rows(gsub);
                            assert(nonneg_durations(gsub));
                            assert(gv[idx as int].1 == total_for(gsub, site));
                            lemma_total_nonneg(gsub, site);
                            assert(rv.subrange(0, i as int + 1).drop_last() =~= gsub);
                            assert(rv.subrange(0, i as int + 1).last() == rv[i as int]);
                            assert(total_for(rv.subrange(0, i as int + 1), site) > i64::MAX);
                            lemma_total_prefix(rv, i as int + 1, site);
                            assert(total_for(rv, site) > i64::MAX);
                            assert(false);
                        }
                    }
                    return Err("duration total does not fit a 64-bit count".to_owned());
                },
            }
        } else {
            let entry = (rows[i].0.clone(), rows[i].1);
            groups.push(entry);
        }
        proof {
            assert(rv.subrange(0, i as int + 1).drop_last() =~= rv.subrange(0, i as int));
            assert(rv.subrange(0, i as int + 1).last() == rv[i as int]);
            assert(group_views(groups@) =~= add_row(gv, site, dur));
        }
        i += 1;
    }
    proof {
        assert(rv.subrange(0, rows@.len() as int) =~= rv);
    }

    let ghost grouped = group_views(groups@);
    let mut out: Vec<TimeLogSummary> = Vec::new();
    let mut i: usize = 0;
    while i < groups.len()
        invariant
            0 <= i <= groups@.len(),
            grouped == group_views(groups@),
            summary_views(out@) == sort_desc(grouped.subrange(0, i as int)),
        decreases groups@.len() - i,
    {
        let ghost sv = summary_views(out@);
        let entry = TimeLogSummary {
            website: groups[i].0.clone(),
            total_duration_secs: groups[i].1,
        };
        let ghost x = (entry.website@, entry.total_duration_secs as int);
        let pos = find_insert_pos(&out, entry.total_duration_secs);
        proof {
            lemma_insert_desc_at(sv, x, pos as int);
        }
        out.insert(pos, entry);
        proof {
            assert(grouped.subrange(0, i as int + 1).drop_last() =~= grouped.subrange(
                0,
                i as int,
            ));
            assert(grouped.subrange(0, i as int + 1).last() == grouped[i as int]);
            assert(summary_views(out@) =~= sv.insert(pos as int, x));
            assert(x == grouped[i as int]);
        }
        i += 1;
    }
    proof {
        assert(grouped.subrange(0, groups@.len() as int) =~= grouped);
    }

    if out.len() > limit {
        out.truncate(limit);
        proof {
            assert(summary_views(out@) =~= sort_desc(grouped).take(limit as int));
        }
    }
    Ok(out)
}

/// The aggregate query: up to `SUMMARY_LIMIT` (site, total duration) rows
/// over every stored time log, by descending total.
pub fn get_time_logs_summary(state: &AppState) -> (r: Result<Vec<TimeLogSummary>, String>)
    ensures
        r matches Ok(out) ==> summary_views(out@) == spec_summary(
            site_durations(state.logs()),
            SUMMARY_LIMIT as int,
        ),
        r matches Ok(out) ==> out@.len() <= SUMMARY_LIMIT,
{
    let rows = db_fetch_site_durations(&state.db_conn)?;
    proof {
        assert(row_views(rows@) =~= site_durations(state.logs()));
    }
    summarize_rows(&rows, SUMMARY_LIMIT)
}

} // verus!
