//! The filtered process view: an ordered list of indices into the latest
//! process snapshot that match the search query, and the bounded
//! selection cursor kept valid against it.

use vstd::prelude::*;
use crate::monitor::ProcessInfo;
use crate::search;

verus! {

/// A process matches a query when its name or its owning user contains
/// the query, ASCII case-insensitively. The empty query matches every
/// process.
pub open spec fn proc_matches(p: ProcessInfo, q: Seq<char>) -> bool {
    search::contains_ci_spec(p.name@, q) || search::contains_ci_spec(p.user@, q)
}

/// The matching indices among the first `n` processes, in ascending order.
pub open spec fn filtered_prefix(ps: Seq<ProcessInfo>, q: Seq<char>, n: int) -> Seq<int>
    decreases n,
{
    if n <= 0 {
        Seq::empty()
    } else if proc_matches(ps[n - 1], q) {
        filtered_prefix(ps, q, n - 1).push(n - 1)
    } else {
        filtered_prefix(ps, q, n - 1)
    }
}

/// The filtered view of a process list under a query: the indices of the
/// matching processes, in the snapshot's original order.
pub open spec fn filtered_view(ps: Seq<ProcessInfo>, q: Seq<char>) -> Seq<int> {
    filtered_prefix(ps, q, ps.len() as int)
}

/// The cursor after a recomputation that left `len` entries: the previous
/// cursor clamped into `[0, len - 1]`, or 0 when the view is empty.
pub open spec fn clamped_cursor(prev: int, len: int) -> int {
    if len == 0 {
        0
    } else if prev < len {
        prev
    } else {
        len - 1
    }
}

/// Soundness of the filtered view over the first `n` processes.
proof fn lemma_filtered_prefix_sound(ps: Seq<ProcessInfo>, q: Seq<char>, n: int)
    requires
        0 <= n <= ps.len(),
    ensures
        forall|j: int|
            0 <= j < filtered_prefix(ps, q, n).len() ==> 0 <= #[trigger] filtered_prefix(
                ps,
                q,
                n,
            )[j] < n,
        forall|j: int|
            0 <= j < filtered_prefix(ps, q, n).len() ==> proc_matches(
                ps[#[trigger] filtered_prefix(ps, q, n)[j]],
                q,
            ),
        forall|j1: int, j2: int|
            0 <= j1 < j2 < filtered_prefix(ps, q, n).len() ==> #[trigger] filtered_prefix(
                ps,
                q,
                n,
            )[j1] < #[trigger] filtered_prefix(ps, q, n)[j2],
        forall|i: int|
            0 <= i < n && proc_matches(ps[i], q) ==> filtered_prefix(ps, q, n).contains(i),
    decreases n,
{
    if n > 0 {
        lemma_filtered_prefix_sound(ps, q, n - 1);
        let pre = filtered_prefix(ps, q, n - 1);
        let cur = filtered_prefix(ps, q, n);
        assert forall|i: int| 0 <= i < n && proc_matches(ps[i], q) implies cur.contains(i) by {
            if i < n - 1 {
                assert(pre.contains(i));
                let j = choose|j: int| 0 <= j < pre.len() && pre[j] == i;
                if proc_matches(ps[n - 1], q) {
                    assert(cur == pre.push(n - 1));
                    assert(cur[j] == i);
                } else {
                    assert(cur[j] == i);
                }
            } else {
                assert(proc_matches(ps[n - 1], q));
                assert(cur.last() == n - 1);
            }
        }
    }
}

/// The filtered view is sound and complete: every entry is an in-range
/// index of a matching process, the entries are strictly ascending (the
/// snapshot's order is preserved), every matching index is included, and
/// the empty query yields exactly all indices in their original order.
pub proof fn lemma_filtered_view_sound(ps: Seq<ProcessInfo>, q: Seq<char>)
    ensures
        forall|j: int|
            0 <= j < filtered_view(ps, q).len() ==> 0 <= #[trigger] filtered_view(ps, q)[j]
                < ps.len(),
        forall|j: int|
            0 <= j < filtered_view(ps, q).len() ==> proc_matches(
                ps[#[trigger] filtered_view(ps, q)[j]],
                q,
            ),
        forall|j1: int, j2: int|
            0 <= j1 < j2 < filtered_view(ps, q).len() ==> #[trigger] filtered_view(ps, q)[j1]
                < #[trigger] filtered_view(ps, q)[j2],
        forall|i: int|
            0 <= i < ps.len() && proc_matches(ps[i], q) ==> filtered_view(ps, q).contains(i),
        q.len() == 0 ==> filtered_view(ps, q) =~= Seq::new(ps.len(), |i: int| i),
{
    lemma_filtered_prefix_sound(ps, q, ps.len() as int);
    if q.len() == 0 {
        lemma_filtered_prefix_empty_query(ps, q, ps.len() as int);
    }
}

/// Under the empty query every process matches, so the view over the
/// first `n` processes is exactly `0, 1, ..., n - 1`.
proof fn lemma_filtered_prefix_empty_query(ps: Seq<ProcessInfo>, q: Seq<char>, n: int)
    requires
        q.len() == 0,
        0 <= n <= ps.len(),
    ensures
        filtered_prefix(ps, q, n) =~= Seq::new(n as nat, |i: int| i),
    decreases n,
{
    if n > 0 {
        lemma_filtered_prefix_empty_query(ps, q, n - 1);
        assert(search::match_at(ps[n - 1].name@, q, 0));
        assert(proc_matches(ps[n - 1], q));
    }
}

/// Recomputes the filtered view: the indices, in ascending order, of the
/// processes whose name or user contains the query.
pub fn compute_filtered_indices(processes: &Vec<ProcessInfo>, query: &str) -> (r: Vec<usize>)
    ensures
        r@.map_values(|i: usize| i as int) == filtered_view(processes@, query@),
{
    let mut out: Vec<usize> = Vec::new();
    let mut i: usize = 0;
    while i < processes.len()
        invariant
            i <= processes@.len(),
            out@.map_values(|x: usize| x as int) == filtered_prefix(processes@, query@, i as int),
        decreases processes@.len() - i,
    {
        let p = &processes[i];
        if search::contains_ci(p.name.as_str(), query) || search::contains_ci(
            p.user.as_str(),
            query,
        ) {
            out.push(i);
        }
        proof {
            assert(out@.map_values(|x: usize| x as int) =~= filtered_prefix(
                processes@,
                query@,
                i + 1,
            ));
        }
        i = i + 1;
    }
    out
}

/// Clamps the selection cursor against a view of `len` entries.
pub fn clamp_cursor(prev: usize, len: usize) -> (r: usize)
    ensures
        r == clamped_cursor(prev as int, len as int),
        len == 0 ==> r == 0,
        len > 0 ==> r < len,
{
    if len == 0 {
        0
    } else if prev < len {
        prev
    } else {
        len - 1
    }
}

} // verus!
