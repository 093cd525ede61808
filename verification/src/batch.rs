use vstd::prelude::*;

verus! {

/// A configuration fault that is reported to the caller before any training
/// step runs.
#[derive(Clone, Copy, Debug, PartialEq, Eq)]
pub enum ConfigError {
    /// The training set holds no samples.
    EmptyDataset,
    /// The mini-batch size is zero, so no partition exists.
    ZeroBatchSize,
}

/// Checks the training hyperparameters up front: a training run needs a
/// nonempty dataset and a positive mini-batch size.  A zero batch size is
/// reported first.
pub fn validate_config(n_train: usize, mini_batch_size: usize) -> (r: Result<(), ConfigError>)
    ensures
        r is Ok <==> n_train > 0 && mini_batch_size > 0,
        r == Err::<(), ConfigError>(ConfigError::ZeroBatchSize) <==> mini_batch_size == 0,
        r == Err::<(), ConfigError>(ConfigError::EmptyDataset) <==> mini_batch_size > 0 && n_train == 0,
{
    if mini_batch_size == 0 {
        Err(ConfigError::ZeroBatchSize)
    } else if n_train == 0 {
        Err(ConfigError::EmptyDataset)
    } else {
        Ok(())
    }
}

/// Partition of one epoch into mini-batches: consecutive half-open index
/// ranges of exactly `mini_batch_size` samples each, in order.  When the
/// dataset size is not a multiple of the batch size, the short remainder is
/// dropped: only the first `n_train / mini_batch_size` full batches run.
pub fn mini_batch_ranges(n_train: usize, mini_batch_size: usize) -> (r: Vec<(usize, usize)>)
    requires
        mini_batch_size > 0,
    ensures
        r@.len() == n_train as int / mini_batch_size as int,
        forall|k: int| 0 <= k < r@.len() ==> (#[trigger] r@[k]).0 as int == k * mini_batch_size
            && r@[k].1 as int == (k + 1) * mini_batch_size,
{
    let mut r: Vec<(usize, usize)> = Vec::new();
    let mut start: usize = 0;
    proof {
        assert(0int * (mini_batch_size as int) == 0) by (nonlinear_arith);
    }
    while mini_batch_size <= n_train - start
        invariant
            mini_batch_size > 0,
            start <= n_train,
            start as int == r@.len() * mini_batch_size,
            forall|k: int| 0 <= k < r@.len() ==> (#[trigger] r@[k]).0 as int == k * mini_batch_size
                && r@[k].1 as int == (k + 1) * mini_batch_size,
        decreases n_train - start,
    {
        let end = start + mini_batch_size;
        r.push((start, end));
        proof {
            let q = r@.len() - 1;
            let b = mini_batch_size as int;
            assert(q * b + b == (q + 1) * b) by (nonlinear_arith);
            assert(r@[q].0 as int == q * b);
            assert(r@[q].1 as int == (q + 1) * b);
        }
        start = end;
    }
    proof {
        let q = r@.len();
        let b = mini_batch_size as int;
        let n = n_train as int;
        assert(q * b <= n < (q + 1) * b) by {
            assert(start as int == q * b);
            assert((q + 1) * b == q * b + b) by (nonlinear_arith);
        }
        assert(n / b == q) by (nonlinear_arith)
            requires b > 0, q >= 0, q * b <= n < (q + 1) * b,
        {}
    }
    r
}

/// Every sample index below the covered prefix `(n_train / bs) * bs` falls in
/// exactly one produced batch, namely batch `j / bs`; indices at or past the
/// covered prefix (the short remainder) fall in no produced batch.
pub proof fn lemma_partition_policy(n_train: int, bs: int, j: int)
    requires
        bs > 0,
        0 <= j < n_train,
    ensures
        j < (n_train / bs) * bs ==> {
            &&& 0 <= j / bs < n_train / bs
            &&& (j / bs) * bs <= j < (j / bs + 1) * bs
            &&& forall|k: int| 0 <= k < n_train / bs && k != j / bs
                ==> !(#[trigger] (k * bs) <= j < (k + 1) * bs)
        },
        j >= (n_train / bs) * bs ==> forall|k: int| 0 <= k < n_train / bs
            ==> !(#[trigger] (k * bs) <= j < (k + 1) * bs),
{
    assert((j / bs) * bs <= j < (j / bs + 1) * bs) by (nonlinear_arith)
        requires bs > 0, j >= 0,
    {}
    assert forall|k: int| #[trigger] (k * bs) <= j < (k + 1) * bs implies k == j / bs by {
        assert(k == j / bs) by (nonlinear_arith)
            requires bs > 0, k * bs <= j < (k + 1) * bs,
        {}
    }
    if j < (n_train / bs) * bs {
        assert(j / bs < n_train / bs) by (nonlinear_arith)
            requires bs > 0, j >= 0, j < (n_train / bs) * bs,
        {}
    } else {
        assert(j / bs >= n_train / bs) by (nonlinear_arith)
            requires bs > 0, n_train > 0, j >= (n_train / bs) * bs,
        {}
    }
}

} // verus!
