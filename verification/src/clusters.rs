//! The integer bookkeeping of colour clustering: which samples seed the
//! clusters, how many samples each cluster holds, and which cluster dominates.
use vstd::prelude::*;

verus! {

/// The number of clusters that `k` requested clusters over `n` samples come to.
pub open spec fn cluster_count(n: int, k: int) -> int {
    if n == 0 || k == 0 {
        0
    } else if k < n {
        k
    } else {
        n
    }
}

/// The positions of the samples that seed the clusters: seed `i` of `a` seeds is
/// sample `i * n / a`, so that the seeds spread evenly over the samples.
pub fn initial_center_indices(sample_count: usize, k: usize) -> (res: Vec<usize>)
    ensures
        res@.len() == cluster_count(sample_count as int, k as int),
        forall|i: int|
            0 <= i < res@.len() ==> #[trigger] res@[i] == i * (sample_count as int) / (res@.len() as int),
        forall|i: int| 0 <= i < res@.len() ==> #[trigger] res@[i] < sample_count,
        forall|i: int, j: int| 0 <= i < j < res@.len() ==> #[trigger] res@[i] < #[trigger] res@[j],
{
    let mut res: Vec<usize> = Vec::new();
    if sample_count == 0 || k == 0 {
        return res;
    }
    let actual = if k < sample_count {
        k
    } else {
        sample_count
    };
    let n = sample_count as u128;
    let a = actual as u128;
    for i in 0..actual
        invariant
            res@.len() == i,
            n == sample_count,
            a == actual,
            0 < actual <= sample_count,
            forall|j: int| 0 <= j < i ==> #[trigger] res@[j] == j * (sample_count as int) / (actual as int),
            forall|j: int| 0 <= j < i ==> #[trigger] res@[j] < sample_count,
            forall|x: int, y: int| 0 <= x < y < i ==> #[trigger] res@[x] < #[trigger] res@[y],
    {
        proof {
            if i > 0 {
                let prev = ((i - 1) as int) * (n as int);
                assert(prev + (n as int) == (i as int) * (n as int)) by (nonlinear_arith)
                    requires
                        prev == ((i - 1) as int) * (n as int),
                        i > 0,
                ;
                vstd::arithmetic::div_mod::lemma_div_is_ordered(prev + (a as int), (i as int) * (n as int), a as int);
                vstd::arithmetic::div_mod::lemma_div_plus_one(prev, a as int);
                assert(prev / (a as int) < (i as int) * (n as int) / (a as int));
            }
            assert((i as int) * (n as int) < (a as int) * (n as int)) by (nonlinear_arith)
                requires
                    0 <= i < a,
                    0 < n,
            ;
            assert((i as int) * (n as int) <= 0xffff_ffff_ffff_ffff * 0xffff_ffff_ffff_ffff) by (nonlinear_arith)
                requires
                    0 <= i <= 0xffff_ffff_ffff_ffff,
                    0 <= n <= 0xffff_ffff_ffff_ffff,
            ;
            assert((i as int) * (n as int) / (a as int) < n) by (nonlinear_arith)
                requires
                    (i as int) * (n as int) < (a as int) * (n as int),
                    0 < a,
                    0 <= i,
                    0 < n,
            ;
        }
        let index = ((i as u128) * n / a) as usize;
        res.push(index);
        proof {
            assert forall|x: int, y: int| 0 <= x < y < i + 1 implies #[trigger] res@[x]
                < #[trigger] res@[y] by {
                if y == i && x < i - 1 {
                    assert(res@[x] < res@[i - 1]);
                }
            }
        }
    }
    res
}

/// The number of entries of `s` among the first `n` that equal `c`.
pub open spec fn occurrences(s: Seq<usize>, c: int, n: int) -> nat
    decreases n,
{
    if n <= 0 {
        0
    } else {
        occurrences(s, c, n - 1) + if s[n - 1] == c {
            1nat
        } else {
            0nat
        }
    }
}

proof fn lemma_occurrences_bounded(s: Seq<usize>, c: int, n: int)
    requires
        0 <= n,
    ensures
        occurrences(s, c, n) <= n,
    decreases n,
{
    if n > 0 {
        lemma_occurrences_bounded(s, c, n - 1);
    }
}

/// The sum of the entries of `counts`.
pub open spec fn total(counts: Seq<u32>) -> int
    decreases counts.len(),
{
    if counts.len() == 0 {
        0
    } else {
        total(counts.drop_last()) + counts.last()
    }
}

/// The number of entries among the first `n` of `s` that are below `k`, counted
/// value by value.
pub open spec fn occurrences_below(s: Seq<usize>, k: int, n: int) -> int
    decreases k,
{
    if k <= 0 {
        0
    } else {
        occurrences_below(s, k - 1, n) + occurrences(s, k - 1, n)
    }
}

proof fn lemma_occurrences_below_step(s: Seq<usize>, k: int, n: int)
    requires
        0 < n,
        0 <= k,
    ensures
        occurrences_below(s, k, n) == occurrences_below(s, k, n - 1) + if s[n - 1] < k {
            1int
        } else {
            0int
        },
    decreases k,
{
    if k > 0 {
        lemma_occurrences_below_step(s, k - 1, n);
    }
}

proof fn lemma_occurrences_below_all(s: Seq<usize>, k: int, n: int)
    requires
        0 <= k,
        0 <= n <= s.len(),
        forall|i: int| 0 <= i < n ==> #[trigger] s[i] < k,
    ensures
        occurrences_below(s, k, n) == n,
    decreases n,
{
    if n > 0 {
        lemma_occurrences_below_all(s, k, n - 1);
        lemma_occurrences_below_step(s, k, n);
    } else {
        lemma_occurrences_below_zero(s, k);
    }
}

proof fn lemma_occurrences_below_zero(s: Seq<usize>, k: int)
    requires
        0 <= k,
    ensures
        occurrences_below(s, k, 0) == 0,
    decreases k,
{
    if k > 0 {
        lemma_occurrences_below_zero(s, k - 1);
    }
}

proof fn lemma_total_of_counts(counts: Seq<u32>, s: Seq<usize>, n: int)
    requires
        forall|c: int| 0 <= c < counts.len() ==> #[trigger] counts[c] == occurrences(s, c, n),
    ensures
        total(counts) == occurrences_below(s, counts.len() as int, n),
    decreases counts.len(),
{
    if counts.len() > 0 {
        let prefix = counts.drop_last();
        assert forall|c: int| 0 <= c < prefix.len() implies #[trigger] prefix[c] == occurrences(s, c, n) by {
            assert(prefix[c] == counts[c]);
        }
        lemma_total_of_counts(prefix, s, n);
    }
}

/// When every sample is assigned to one of `k` clusters, the cluster sizes add up
/// to the number of samples.
pub proof fn lemma_cluster_sizes_cover_samples(assignments: Seq<usize>, counts: Seq<u32>, k: int)
    requires
        0 <= k,
        counts.len() == k,
        forall|i: int| 0 <= i < assignments.len() ==> #[trigger] assignments[i] < k,
        forall|c: int|
            0 <= c < k ==> #[trigger] counts[c] == occurrences(assignments, c, assignments.len() as int),
    ensures
        total(counts) == assignments.len(),
{
    lemma_total_of_counts(counts, assignments, assignments.len() as int);
    lemma_occurrences_below_all(assignments, k, assignments.len() as int);
}

/// For each of `k` clusters, how many samples are assigned to it.
pub fn count_assignments(assignments: &Vec<usize>, k: usize) -> (res: Vec<u32>)
    requires
        forall|i: int| 0 <= i < assignments@.len() ==> #[trigger] assignments@[i] < k,
        assignments@.len() <= u32::MAX,
    ensures
        res@.len() == k,
        forall|c: int|
            0 <= c < k ==> #[trigger] res@[c] == occurrences(assignments@, c, assignments@.len() as int),
        total(res@) == assignments@.len(),
{
    let mut counts: Vec<u32> = Vec::new();
    for c in 0..k
        invariant
            counts@.len() == c,
            forall|j: int| 0 <= j < c ==> #[trigger] counts@[j] == 0,
    {
        counts.push(0);
    }
    let n = assignments.len();
    for i in 0..n
        invariant
            n == assignments@.len(),
            n <= u32::MAX,
            counts@.len() == k,
            forall|j: int| 0 <= j < n ==> #[trigger] assignments@[j] < k,
            forall|c: int| 0 <= c < k ==> #[trigger] counts@[c] == occurrences(assignments@, c, i as int),
    {
        let cluster = assignments[i];
        proof {
            lemma_occurrences_bounded(assignments@, cluster as int, i as int);
        }
        let updated = counts[cluster] + 1;
        counts.set(cluster, updated);
    }
    proof {
        lemma_cluster_sizes_cover_samples(assignments@, counts@, k as int);
    }
    counts
}

/// The cluster with the most samples, the last of them where several tie;
/// `None` where there are no clusters.
pub fn dominant_cluster(counts: &Vec<u32>) -> (res: Option<usize>)
    ensures
        match res {
            Some(i) => {
                &&& i < counts@.len()
                &&& forall|j: int| 0 <= j < counts@.len() ==> #[trigger] counts@[j] <= counts@[i as int]
                &&& forall|j: int| i < j < counts@.len() ==> #[trigger] counts@[j] < counts@[i as int]
            },
            None => counts@.len() == 0,
        },
{
    let n = counts.len();
    if n == 0 {
        return None;
    }
    let mut best: usize = 0;
    for i in 1..n
        invariant
            n == counts@.len(),
            best < i,
            forall|j: int| 0 <= j < i ==> #[trigger] counts@[j] <= counts@[best as int],
            forall|j: int| best < j < i ==> #[trigger] counts@[j] < counts@[best as int],
    {
        if counts[i] >= counts[best] {
            best = i;
        }
    }
    Some(best)
}

} // verus!
