//! The board seen as three columns: the entries of one status, in the order
//! in which they stand in the underlying sequence.
use crate::{EntryView, Status};
use vstd::prelude::*;

verus! {

/// Indices below `n` of the entries whose status is `s`, in increasing order.
pub open spec fn col(es: Seq<EntryView>, s: Status, n: nat) -> Seq<usize>
    decreases n,
{
    if n == 0 {
        Seq::empty()
    } else {
        let p = col(es, s, (n - 1) as nat);
        if es[n - 1].status == s {
            p.push((n - 1) as usize)
        } else {
            p
        }
    }
}

/// The column of status `s`: global indices of its entries, top to bottom.
pub open spec fn column(es: Seq<EntryView>, s: Status) -> Seq<usize> {
    col(es, s, es.len())
}

/// Position of entry `i` within its own column.
pub open spec fn rank(es: Seq<EntryView>, i: int) -> int {
    col(es, es[i].status, i as nat).len() as int
}

pub open spec fn nonempty(es: Seq<EntryView>, s: Status) -> bool {
    column(es, s).len() > 0
}

/// The first non-empty column met when probing `s`, then the columns after it
/// (at most three probes); `s` itself when all three are empty.
pub open spec fn probe_forward(es: Seq<EntryView>, s: Status) -> Status {
    if nonempty(es, s) {
        s
    } else if nonempty(es, s.succ()) {
        s.succ()
    } else if nonempty(es, s.succ().succ()) {
        s.succ().succ()
    } else {
        s
    }
}

/// The first non-empty column met when probing `s`, then the columns before it.
pub open spec fn probe_backward(es: Seq<EntryView>, s: Status) -> Status {
    if nonempty(es, s) {
        s
    } else if nonempty(es, s.pred()) {
        s.pred()
    } else if nonempty(es, s.pred().pred()) {
        s.pred().pred()
    } else {
        s
    }
}

/// Selection after moving down from entry `i`: the next entry of its column,
/// or past the column's end the first entry of the next non-empty column.
pub open spec fn next_selection(es: Seq<EntryView>, i: int) -> int {
    let s = es[i].status;
    let c = column(es, s);
    let p = rank(es, i);
    if p + 1 < c.len() {
        c[p + 1] as int
    } else {
        column(es, probe_forward(es, s.succ()))[0] as int
    }
}

/// Selection after moving up from entry `i`: the previous entry of its column,
/// or before the column's start the last entry of the previous non-empty column.
pub open spec fn prev_selection(es: Seq<EntryView>, i: int) -> int {
    let s = es[i].status;
    let c = column(es, s);
    let p = rank(es, i);
    if p > 0 {
        c[p - 1] as int
    } else {
        column(es, probe_backward(es, s.pred())).last() as int
    }
}

/// Selection after jumping right from entry `i`: the first entry of the next
/// non-empty column among the two others, or `i` when both are empty.
pub open spec fn next_column_selection(es: Seq<EntryView>, i: int) -> int {
    let s = es[i].status;
    if nonempty(es, s.succ()) {
        column(es, s.succ())[0] as int
    } else if nonempty(es, s.succ().succ()) {
        column(es, s.succ().succ())[0] as int
    } else {
        i
    }
}

/// Selection after jumping left from entry `i`.
pub open spec fn prev_column_selection(es: Seq<EntryView>, i: int) -> int {
    let s = es[i].status;
    if nonempty(es, s.pred()) {
        column(es, s.pred())[0] as int
    } else if nonempty(es, s.pred().pred()) {
        column(es, s.pred().pred())[0] as int
    } else {
        i
    }
}

/// What `col` holds: each listed index is below `n`, has status `s` and sits at
/// its own rank; each index below `n` of status `s` is listed at its rank.
pub proof fn lemma_col(es: Seq<EntryView>, s: Status, n: nat)
    requires
        n <= es.len() <= usize::MAX,
    ensures
        col(es, s, n).len() <= n,
        forall|k: int|
            0 <= k < col(es, s, n).len() ==> {
                &&& (#[trigger] col(es, s, n)[k] as int) < n
                &&& es[col(es, s, n)[k] as int].status == s
                &&& col(es, s, col(es, s, n)[k] as nat).len() == k
            },
        forall|i: int|
            0 <= i < n && #[trigger] es[i].status == s ==> {
                &&& col(es, s, i as nat).len() < col(es, s, n).len()
                &&& col(es, s, n)[col(es, s, i as nat).len() as int] == i
            },
    decreases n,
{
    if n > 0 {
        lemma_col(es, s, (n - 1) as nat);
    }
}

/// Facts on whole columns, for an index `i` of the sequence.
pub proof fn lemma_column(es: Seq<EntryView>, i: int)
    requires
        0 <= i < es.len() <= usize::MAX,
    ensures
        0 <= rank(es, i) < column(es, es[i].status).len(),
        column(es, es[i].status)[rank(es, i)] == i,
        forall|s: Status, k: int|
            0 <= k < column(es, s).len() ==> {
                &&& (#[trigger] column(es, s)[k] as int) < es.len()
                &&& es[column(es, s)[k] as int].status == s
                &&& rank(es, column(es, s)[k] as int) == k
            },
{
    lemma_col(es, es[i].status, es.len());
    assert forall|s: Status, k: int| 0 <= k < column(es, s).len() implies {
        &&& (#[trigger] column(es, s)[k] as int) < es.len()
        &&& es[column(es, s)[k] as int].status == s
        &&& rank(es, column(es, s)[k] as int) == k
    } by {
        lemma_col(es, s, es.len());
    }
}

/// Each index listed in a column points at an entry of that column.
pub proof fn lemma_column_indices(es: Seq<EntryView>, s: Status)
    requires
        es.len() <= usize::MAX,
    ensures
        forall|k: int|
            0 <= k < column(es, s).len() ==> {
                &&& (#[trigger] column(es, s)[k] as int) < es.len()
                &&& es[column(es, s)[k] as int].status == s
            },
{
    lemma_col(es, s, es.len());
}

pub proof fn lemma_next_selection_valid(es: Seq<EntryView>, i: int)
    requires
        0 <= i < es.len() <= usize::MAX,
    ensures
        0 <= next_selection(es, i) < es.len(),
        0 <= prev_selection(es, i) < es.len(),
        0 <= next_column_selection(es, i) < es.len(),
        0 <= prev_column_selection(es, i) < es.len(),
{
    lemma_column(es, i);
}

/// Moving up undoes moving down.
pub proof fn lemma_prev_after_next(es: Seq<EntryView>, i: int)
    requires
        0 <= i < es.len() <= usize::MAX,
    ensures
        prev_selection(es, next_selection(es, i)) == i,
{
    lemma_column(es, i);
}

/// Moving down undoes moving up.
pub proof fn lemma_next_after_prev(es: Seq<EntryView>, i: int)
    requires
        0 <= i < es.len() <= usize::MAX,
    ensures
        next_selection(es, prev_selection(es, i)) == i,
{
    lemma_column(es, i);
}

} // verus!
