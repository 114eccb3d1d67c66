//! Selecting and ordering rows by a key, ties in the order of the table.

use vstd::prelude::*;

verus! {

/// A sort key: numbers that are compared one after the other.
#[derive(Debug, Clone, Copy)]
pub struct SortKey {
    pub first: i64,
    pub second: u32,
    pub third: i64,
    pub fourth: u32,
    pub fifth: u128,
}

impl SortKey {
    /// Whether this key sorts before `other`.
    pub open spec fn before(self, other: SortKey) -> bool {
        if self.first != other.first {
            self.first < other.first
        } else if self.second != other.second {
            self.second < other.second
        } else if self.third != other.third {
            self.third < other.third
        } else if self.fourth != other.fourth {
            self.fourth < other.fourth
        } else {
            self.fifth < other.fifth
        }
    }

    pub fn is_before(&self, other: &SortKey) -> (r: bool)
        ensures
            r == self.before(*other),
    {
        if self.first != other.first {
            self.first < other.first
        } else if self.second != other.second {
            self.second < other.second
        } else if self.third != other.third {
            self.third < other.third
        } else if self.fourth != other.fourth {
            self.fourth < other.fourth
        } else {
            self.fifth < other.fifth
        }
    }
}

/// Whether row `a` comes before row `b`: by key, and by place in the table where the keys agree.
pub open spec fn precedes(keys: Seq<Option<SortKey>>, a: int, b: int) -> bool {
    keys[a]->0.before(keys[b]->0) || (keys[a] == keys[b] && a < b)
}

/// `rows` are the places of all the rows with a key, each once, in ascending order.
pub open spec fn is_order(keys: Seq<Option<SortKey>>, rows: Seq<int>) -> bool {
    &&& forall|p: int|
        0 <= p < rows.len() ==> 0 <= #[trigger] rows[p] < keys.len() && keys[rows[p]] is Some
    &&& forall|i: int| 0 <= i < keys.len() && keys[i] is Some ==> #[trigger] rows.contains(i)
    &&& forall|p: int, q: int|
        0 <= p < q < rows.len() ==> precedes(keys, #[trigger] rows[p], #[trigger] rows[q])
}

/// The places as mathematical integers.
pub open spec fn places(rows: Seq<usize>) -> Seq<int> {
    rows.map_values(|i: usize| i as int)
}

/// The rows at the given places.
pub open spec fn rows_at<A>(table: Seq<A>, rows: Seq<int>) -> Seq<A> {
    Seq::new(rows.len(), |k: int| table[rows[k]])
}

/// The rows that have a key, in ascending order of their keys.
pub fn ordered(keys: &Vec<Option<SortKey>>) -> (rows: Vec<usize>)
    ensures
        is_order(keys@, places(rows@)),
{
    let mut rows: Vec<usize> = Vec::new();
    let mut i: usize = 0;
    while i < keys.len()
        invariant
            i <= keys.len(),
            forall|p: int|
                0 <= p < rows.len() ==> #[trigger] rows@[p] < i && keys@[rows@[p] as int] is Some,
            forall|n: int|
                0 <= n < i && keys@[n] is Some ==> exists|p: int|
                    0 <= p < rows.len() && #[trigger] rows@[p] == n,
            forall|p: int, q: int|
                0 <= p < q < rows.len() ==> precedes(
                    keys@,
                    (#[trigger] rows@[p]) as int,
                    (#[trigger] rows@[q]) as int,
                ),
        decreases keys.len() - i,
    {
        if let Some(key) = keys[i] {
            let mut at: usize = rows.len();
            while at > 0 && key.is_before(&keys[rows[at - 1]].unwrap())
                invariant
                    i < keys.len(),
                    keys@[i as int] == Some(key),
                    at <= rows.len(),
                    forall|p: int|
                        0 <= p < rows.len() ==> #[trigger] rows@[p] < i
                            && keys@[rows@[p] as int] is Some,
                    forall|q: int|
                        at <= q < rows.len() ==> precedes(
                            keys@,
                            i as int,
                            (#[trigger] rows@[q]) as int,
                        ),
                decreases at,
            {
                at = at - 1;
            }
            let ghost before = rows@;
            rows.insert(at, i);
            proof {
                assert(rows@[at as int] == i);
                assert forall|n: int|
                    0 <= n < i + 1 && keys@[n] is Some implies exists|p: int|
                    0 <= p < rows.len() && #[trigger] rows@[p] == n by {
                    if n < i {
                        let p = choose|p: int| 0 <= p < before.len() && #[trigger] before[p] == n;
                        if p < at {
                            assert(rows@[p] == n);
                        } else {
                            assert(rows@[p + 1] == n);
                        }
                    }
                }
                assert forall|p: int, q: int| 0 <= p < q < rows.len() implies precedes(
                    keys@,
                    (#[trigger] rows@[p]) as int,
                    (#[trigger] rows@[q]) as int,
                ) by {
                    let p0 = if p > at { p - 1 } else { p };
                    let q0 = if q > at { q - 1 } else { q };
                    if p != at {
                        assert(rows@[p] == before[p0]);
                    }
                    if q != at {
                        assert(rows@[q] == before[q0]);
                    }
                    if q == at && p < at {
                        if p < at - 1 {
                            assert(precedes(keys@, before[p] as int, before[at - 1] as int));
                        }
                        assert(before[at - 1] < i);
                    }
                }
            }
        }
        i = i + 1;
    }
    proof {
        let all = places(rows@);
        assert forall|n: int| 0 <= n < keys@.len() && keys@[n] is Some implies #[trigger] all.contains(
            n,
        ) by {
            let p = choose|p: int| 0 <= p < rows.len() && #[trigger] rows@[p] == n;
            assert(all[p] == n);
        }
    }
    rows
}

/// No row occurs twice in an order, so it has no more places than the table has rows.
pub proof fn lemma_order_distinct(keys: Seq<Option<SortKey>>, rows: Seq<int>)
    requires
        is_order(keys, rows),
    ensures
        rows.no_duplicates(),
        rows.len() <= keys.len(),
{
    assert forall|p: int, q: int| 0 <= p < rows.len() && 0 <= q < rows.len() && p != q implies rows[p]
        != rows[q] by {
        if p < q {
            assert(precedes(keys, rows[p], rows[q]));
        } else {
            assert(precedes(keys, rows[q], rows[p]));
        }
    }
    let all = vstd::set_lib::set_int_range(0, keys.len() as int);
    vstd::set_lib::lemma_int_range(0, keys.len() as int);
    rows.unique_seq_to_set();
    assert(rows.to_set().subset_of(all));
    vstd::set_lib::lemma_len_subset(rows.to_set(), all);
}

/// There is only one such order.
pub proof fn lemma_order_unique(keys: Seq<Option<SortKey>>, a: Seq<int>, b: Seq<int>)
    requires
        is_order(keys, a),
        is_order(keys, b),
    ensures
        a == b,
{
    lemma_order_prefix(keys, a, b, a.len());
    lemma_order_prefix(keys, b, a, b.len());
    assert(a =~= b);
}

/// The first `n` rows of one order are the first `n` rows of any other.
proof fn lemma_order_prefix(keys: Seq<Option<SortKey>>, a: Seq<int>, b: Seq<int>, n: nat)
    requires
        is_order(keys, a),
        is_order(keys, b),
        n <= a.len(),
    ensures
        n <= b.len(),
        forall|p: int| 0 <= p < n ==> a[p] == b[p],
    decreases n,
{
    if n > 0 {
        let m = (n - 1) as nat;
        lemma_order_prefix(keys, a, b, m);
        // The row a[m] stands in b, and not among its first m rows.
        assert(b.contains(a[m as int]));
        let q = choose|q: int| 0 <= q < b.len() && b[q] == a[m as int];
        if q < m {
            assert(a[q] == a[m as int]);
            assert(precedes(keys, a[q], a[m as int]));
        }
        // So does b[m] in a.
        assert(a.contains(b[m as int]));
        let p = choose|p: int| 0 <= p < a.len() && a[p] == b[m as int];
        if p < m {
            assert(b[p] == b[m as int]);
            assert(precedes(keys, b[p], b[m as int]));
        }
        if a[m as int] != b[m as int] {
            assert(precedes(keys, a[m as int], a[p]));
            assert(precedes(keys, b[m as int], b[q]));
        }
    }
}

} // verus!
