use vstd::prelude::*;

verus! {

/// Index of the first maximal entry of a sequence: scanning left to right,
/// a later entry replaces the current best only when strictly greater.
pub open spec fn spec_argmax(s: Seq<u64>) -> int
    decreases s.len(),
{
    if s.len() <= 1 {
        0
    } else if s.last() > s[spec_argmax(s.drop_last())] {
        s.len() - 1
    } else {
        spec_argmax(s.drop_last())
    }
}

/// The predicted class is the first index carrying the maximum value:
/// no entry exceeds it, and every earlier entry is strictly below it.
pub proof fn lemma_argmax_first_max(s: Seq<u64>)
    requires
        s.len() > 0,
    ensures
        0 <= spec_argmax(s) < s.len(),
        forall|k: int| 0 <= k < s.len() ==> #[trigger] s[k] <= s[spec_argmax(s)],
        forall|k: int| 0 <= k < spec_argmax(s) ==> #[trigger] s[k] < s[spec_argmax(s)],
    decreases s.len(),
{
    if s.len() > 1 {
        let t = s.drop_last();
        lemma_argmax_first_max(t);
        let j = spec_argmax(t);
        assert(forall|k: int| 0 <= k < t.len() ==> #[trigger] t[k] == s[k]);
        if s.last() > s[j] {
            assert(spec_argmax(s) == s.len() - 1);
            assert forall|k: int| 0 <= k < s.len() - 1 implies #[trigger] s[k] < s[s.len() - 1] by {
                assert(s[k] == t[k]);
                assert(t[k] <= t[j]);
            }
        } else {
            assert(spec_argmax(s) == j);
            assert forall|k: int| 0 <= k < s.len() implies #[trigger] s[k] <= s[j] by {
                if k < s.len() - 1 {
                    assert(s[k] == t[k]);
                    assert(t[k] <= t[j]);
                }
            }
            assert forall|k: int| 0 <= k < j implies #[trigger] s[k] < s[j] by {
                assert(s[k] == t[k]);
                assert(t[k] < t[j]);
            }
        }
    }
}

/// A vector whose entry at `c` strictly exceeds every other entry — such as a
/// one-hot target read through any order-preserving key — is classified as
/// `c`.
pub proof fn lemma_argmax_unique_max(s: Seq<u64>, c: int)
    requires
        0 <= c < s.len(),
        forall|k: int| 0 <= k < s.len() && k != c ==> #[trigger] s[k] < s[c],
    ensures
        spec_argmax(s) == c,
{
    lemma_argmax_first_max(s);
    let j = spec_argmax(s);
    if j != c {
        assert(s[j] < s[c]);
        assert(s[c] <= s[j]);
    }
}

/// First index of the maximum entry; ties are resolved by the lowest index.
pub fn argmax(v: &Vec<u64>) -> (i: usize)
    requires
        v@.len() > 0,
    ensures
        i as int == spec_argmax(v@),
        i < v@.len(),
        forall|k: int| 0 <= k < v@.len() ==> v@[k] <= v@[i as int],
        forall|k: int| 0 <= k < i as int ==> v@[k] < v@[i as int],
{
    let mut best: usize = 0;
    let mut idx: usize = 1;
    while idx < v.len()
        invariant
            1 <= idx <= v@.len(),
            best < idx,
            best as int == spec_argmax(v@.take(idx as int)),
        decreases v@.len() - idx,
    {
        proof {
            assert(v@.take(idx + 1).drop_last() =~= v@.take(idx as int));
            assert(v@.take(idx + 1).last() == v@[idx as int]);
        }
        if v[idx] > v[best] {
            best = idx;
        }
        idx += 1;
    }
    proof {
        assert(v@.take(v@.len() as int) =~= v@);
        lemma_argmax_first_max(v@);
    }
    best
}

/// The element-wise views of a sequence of vectors.
pub open spec fn seq_views(s: Seq<Vec<u64>>) -> Seq<Seq<u64>> {
    Seq::new(s.len(), |i: int| s[i]@)
}

/// Number of positions at which the network's output and the target pick the
/// same class, both read through the first-maximum rule.
pub open spec fn correct_count(outs: Seq<Seq<u64>>, tars: Seq<Seq<u64>>) -> int
    decreases outs.len(),
{
    if outs.len() == 0 {
        0
    } else {
        correct_count(outs.drop_last(), tars.drop_last())
            + if spec_argmax(outs.last()) == spec_argmax(tars.last()) {
                1int
            } else {
                0int
            }
    }
}

/// Classification accuracy: a sample counts as correct exactly when the first
/// maximal index of its output vector equals the first maximal index of its
/// target vector.
pub fn evaluate(outputs: &Vec<Vec<u64>>, targets: &Vec<Vec<u64>>) -> (n: usize)
    requires
        outputs@.len() == targets@.len(),
        forall|i: int| 0 <= i < outputs@.len() ==> #[trigger] outputs@[i]@.len() > 0,
        forall|i: int| 0 <= i < targets@.len() ==> #[trigger] targets@[i]@.len() > 0,
    ensures
        n as int == correct_count(seq_views(outputs@), seq_views(targets@)),
        n <= outputs@.len(),
{
    let mut n: usize = 0;
    let mut i: usize = 0;
    while i < outputs.len()
        invariant
            i <= outputs@.len(),
            outputs@.len() == targets@.len(),
            forall|k: int| 0 <= k < outputs@.len() ==> #[trigger] outputs@[k]@.len() > 0,
            forall|k: int| 0 <= k < targets@.len() ==> #[trigger] targets@[k]@.len() > 0,
            n as int == correct_count(seq_views(outputs@).take(i as int), seq_views(targets@).take(i as int)),
            n <= i,
        decreases outputs@.len() - i,
    {
        let p = argmax(&outputs[i]);
        let t = argmax(&targets[i]);
        proof {
            assert(seq_views(outputs@).take(i + 1).drop_last() =~= seq_views(outputs@).take(i as int));
            assert(seq_views(targets@).take(i + 1).drop_last() =~= seq_views(targets@).take(i as int));
            assert(seq_views(outputs@).take(i + 1).last() == outputs@[i as int]@);
            assert(seq_views(targets@).take(i + 1).last() == targets@[i as int]@);
        }
        if p == t {
            n += 1;
        }
        i += 1;
    }
    proof {
        assert(seq_views(outputs@).take(outputs@.len() as int) =~= seq_views(outputs@));
        assert(seq_views(targets@).take(targets@.len() as int) =~= seq_views(targets@));
    }
    n
}

} // verus!
