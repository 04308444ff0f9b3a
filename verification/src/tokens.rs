//! The models of the Tokens tab: where a period's figures come from, which models are listed
//! and in what order.

use vstd::prelude::*;

use crate::tabs::{Bucket, TokenFilter, TokenPeriod};

verus! {

/// Where the figures of a period come from.
#[derive(Clone, Copy, Debug, PartialEq, Eq, Structural)]
pub enum TokenSource {
    /// All of them, the small ones grouped.
    Lifetime,
    /// Today's.
    Today,
    /// Those of the current week or month.
    Current(Bucket),
}

/// Where the figures of a period come from.
pub open spec fn source_of(period: TokenPeriod) -> TokenSource {
    match period {
        TokenPeriod::Lifetime => TokenSource::Lifetime,
        TokenPeriod::Daily => TokenSource::Today,
        TokenPeriod::Weekly => TokenSource::Current(Bucket::Week),
        TokenPeriod::Monthly => TokenSource::Current(Bucket::Month),
    }
}

/// Where the figures of a period come from.
pub fn token_source(period: TokenPeriod) -> (r: TokenSource)
    ensures
        r == source_of(period),
{
    match period.bucket() {
        Some(bucket) => TokenSource::Current(bucket),
        None => if period == TokenPeriod::Daily {
            TokenSource::Today
        } else {
            TokenSource::Lifetime
        },
    }
}

/// A model of a period.
#[derive(Clone, Copy, Debug, PartialEq, Eq, Structural)]
pub struct ModelRow {
    /// The model is one of the service's own.
    pub own: bool,
    /// The figure the models are ranked by.
    pub metric: u64,
}

/// Whether row `a` is listed before row `b`: by figure, then as they came.
pub open spec fn listed_before(rows: Seq<ModelRow>, a: int, b: int) -> bool {
    rows[a].metric > rows[b].metric || (rows[a].metric == rows[b].metric && a < b)
}

/// Whether `order` ranks those of the first `n` rows that the filter lets through.
pub open spec fn ranks(order: Seq<usize>, rows: Seq<ModelRow>, filter: TokenFilter, n: int) -> bool {
    &&& forall|i: int|
        0 <= i < order.len() ==> (#[trigger] order[i]) < n && filter.admits(
            rows[order[i] as int].own,
        )
    &&& forall|k: int|
        0 <= k < n && filter.admits((#[trigger] rows[k]).own) ==> order.contains(k as usize)
    &&& forall|i: int, j: int|
        0 <= i < j < order.len() ==> listed_before(
            rows,
            (#[trigger] order[i]) as int,
            (#[trigger] order[j]) as int,
        )
}

/// The rows that the filter lets through, largest figure first.
pub fn rank_models(rows: &Vec<ModelRow>, filter: TokenFilter) -> (r: Vec<usize>)
    ensures
        ranks(r@, rows@, filter, rows@.len() as int),
{
    let mut order: Vec<usize> = Vec::new();
    let mut k: usize = 0;
    while k < rows.len()
        invariant
            k <= rows@.len(),
            ranks(order@, rows@, filter, k as int),
        decreases rows@.len() - k,
    {
        if filter.matches(rows[k].own) {
            let ghost before = order@;
            let mut at: usize = 0;
            while at < order.len() && rows[order[at]].metric >= rows[k].metric
                invariant
                    at <= order@.len(),
                    k < rows@.len(),
                    order@ == before,
                    ranks(order@, rows@, filter, k as int),
                    forall|i: int|
                        0 <= i < at ==> rows@[(#[trigger] order@[i]) as int].metric
                            >= rows@[k as int].metric,
                decreases order@.len() - at,
            {
                at = at + 1;
            }
            order.insert(at, k);
            proof {
                lemma_insert(before, rows@, filter, k as int, at as int);
            }
        } else {
            proof {
                assert forall|i: int| 0 <= i < order@.len() implies (#[trigger] order@[i]) < k + 1
                    && filter.admits(rows@[order@[i] as int].own) by {}
            }
        }
        k = k + 1;
    }
    order
}

proof fn lemma_insert(
    before: Seq<usize>,
    rows: Seq<ModelRow>,
    filter: TokenFilter,
    k: int,
    at: int,
)
    requires
        0 <= k < rows.len(),
        k <= usize::MAX,
        0 <= at <= before.len(),
        ranks(before, rows, filter, k),
        filter.admits(rows[k].own),
        forall|i: int| 0 <= i < at ==> rows[(#[trigger] before[i]) as int].metric >= rows[k].metric,
        at < before.len() ==> rows[before[at] as int].metric < rows[k].metric,
    ensures
        ranks(before.insert(at, k as usize), rows, filter, k + 1),
{
    let after = before.insert(at, k as usize);
    assert forall|i: int| 0 <= i < after.len() implies (#[trigger] after[i]) < k + 1
        && filter.admits(rows[after[i] as int].own) by {
        if i < at {
            assert(after[i] == before[i]);
        } else if i > at {
            assert(after[i] == before[i - 1]);
        }
    }
    assert forall|m: int| 0 <= m < k + 1 && filter.admits((#[trigger] rows[m]).own) implies after.contains(
        m as usize,
    ) by {
        if m == k {
            assert(after[at] == k as usize);
        } else {
            let i = choose|i: int| 0 <= i < before.len() && before[i] == m as usize;
            if i < at {
                assert(after[i] == m as usize);
            } else {
                assert(after[i + 1] == m as usize);
            }
        }
    }
    assert forall|i: int, j: int| 0 <= i < j < after.len() implies listed_before(
        rows,
        (#[trigger] after[i]) as int,
        (#[trigger] after[j]) as int,
    ) by {
        let bi = if i < at {
            i
        } else {
            i - 1
        };
        let bj = if j < at {
            j
        } else {
            j - 1
        };
        if i != at {
            assert(after[i] == before[bi]);
        }
        if j != at {
            assert(after[j] == before[bj]);
        }
        if i == at && bj > at {
            assert(listed_before(rows, before[at] as int, before[bj] as int));
        }
    }
}

/// There is only one such list: two that rank the same rows are the same.
pub proof fn one_ranking(a: Seq<usize>, b: Seq<usize>, rows: Seq<ModelRow>, filter: TokenFilter)
    requires
        ranks(a, rows, filter, rows.len() as int),
        ranks(b, rows, filter, rows.len() as int),
    ensures
        a == b,
{
    lemma_same_length(a, b, rows, filter);
    assert forall|i: int| 0 <= i < a.len() implies a[i] == b[i] by {
        lemma_same_ranking(a, b, rows, filter, i);
    }
    assert(a =~= b);
}

proof fn lemma_same_ranking(
    a: Seq<usize>,
    b: Seq<usize>,
    rows: Seq<ModelRow>,
    filter: TokenFilter,
    n: int,
)
    requires
        ranks(a, rows, filter, rows.len() as int),
        ranks(b, rows, filter, rows.len() as int),
        0 <= n,
    ensures
        n < a.len() && n < b.len() ==> a[n] == b[n],
    decreases n,
{
    if n < a.len() && n < b.len() {
        assert forall|i: int| 0 <= i < n implies a[i] == b[i] by {
            lemma_same_ranking(a, b, rows, filter, i);
        }
        let x = a[n];
        let y = b[n];
        assert(filter.admits(rows[x as int].own));
        assert(filter.admits(rows[y as int].own));
        assert(b.contains(x));
        assert(a.contains(y));
        let bx = choose|i: int| 0 <= i < b.len() && b[i] == x;
        let ay = choose|i: int| 0 <= i < a.len() && a[i] == y;
        if bx < n {
            assert(a[bx] == x);
            assert(listed_before(rows, a[bx] as int, a[n] as int));
        }
        if ay < n {
            assert(b[ay] == y);
            assert(listed_before(rows, b[ay] as int, b[n] as int));
        }
        if x != y {
            assert(listed_before(rows, b[n] as int, b[bx] as int));
            assert(listed_before(rows, a[n] as int, a[ay] as int));
        }
    }
}

proof fn lemma_same_length(a: Seq<usize>, b: Seq<usize>, rows: Seq<ModelRow>, filter: TokenFilter)
    requires
        ranks(a, rows, filter, rows.len() as int),
        ranks(b, rows, filter, rows.len() as int),
    ensures
        a.len() == b.len(),
{
    if a.len() < b.len() {
        lemma_not_shorter(a, b, rows, filter);
    } else if b.len() < a.len() {
        lemma_not_shorter(b, a, rows, filter);
    }
}

proof fn lemma_not_shorter(a: Seq<usize>, b: Seq<usize>, rows: Seq<ModelRow>, filter: TokenFilter)
    requires
        ranks(a, rows, filter, rows.len() as int),
        ranks(b, rows, filter, rows.len() as int),
    ensures
        a.len() >= b.len(),
{
    if a.len() < b.len() {
        let n = a.len() as int;
        let y = b[n];
        assert(filter.admits(rows[y as int].own));
        assert(a.contains(y));
        let i = choose|i: int| 0 <= i < a.len() && a[i] == y;
        lemma_same_ranking(a, b, rows, filter, i);
        assert(listed_before(rows, b[i] as int, b[n] as int));
    }
}

} // verus!
