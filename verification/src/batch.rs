//! The batcher: partition an ordered sequence into contiguous groups of at
//! most `batch_size` items, preserving the original order.  Groups are
//! processed one at a time by the caller; concatenating the group results in
//! group order restores the input order, which is the only correlation
//! between an input item and its outcome.

use vstd::prelude::*;

verus! {

/// The partition of `xs` into contiguous chunks of `k` items, the last chunk
/// possibly shorter.
pub open spec fn split_model<T>(xs: Seq<T>, k: int) -> Seq<Seq<T>>
    decreases xs.len(),
{
    if xs.len() == 0 || k < 1 {
        Seq::empty()
    } else if xs.len() <= k {
        seq![xs]
    } else {
        seq![xs.subrange(0, k)] + split_model(xs.subrange(k, xs.len() as int), k)
    }
}

/// The concatenation of a sequence of chunks, in chunk order.
pub open spec fn concat_all<T>(bs: Seq<Seq<T>>) -> Seq<T>
    decreases bs.len(),
{
    if bs.len() == 0 {
        Seq::empty()
    } else {
        bs[0] + concat_all(bs.drop_first())
    }
}

/// The views of a vector of chunk vectors.
pub open spec fn views_of<T>(bs: Seq<Vec<T>>) -> Seq<Seq<T>> {
    bs.map_values(|b: Vec<T>| b@)
}

/// Order preservation: concatenating the chunks of a partition restores the
/// input exactly, so the i-th item of the concatenated output corresponds to
/// the i-th input item; and no chunk exceeds the batch size.
pub proof fn lemma_split_preserves_order<T>(xs: Seq<T>, k: int)
    requires
        1 <= k,
    ensures
        concat_all(split_model(xs, k)) == xs,
        forall|i: int|
            0 <= i < split_model(xs, k).len() ==> 1 <= #[trigger] split_model(xs, k)[i].len()
                <= k,
    decreases xs.len(),
{
    if xs.len() == 0 {
        assert(concat_all(split_model(xs, k)) =~= xs);
    } else if xs.len() <= k {
        let s = seq![xs];
        assert(split_model(xs, k) == s);
        assert(s.drop_first() =~= Seq::<Seq<T>>::empty());
        assert(concat_all(s.drop_first()) =~= Seq::<T>::empty());
        assert(concat_all(s) =~= xs);
    } else {
        let tail = xs.subrange(k, xs.len() as int);
        lemma_split_preserves_order(tail, k);
        assert((seq![xs.subrange(0, k)] + split_model(tail, k)).drop_first() =~= split_model(
            tail,
            k,
        ));
        assert(concat_all(split_model(xs, k)) =~= xs.subrange(0, k) + concat_all(
            split_model(tail, k),
        ));
        assert(xs.subrange(0, k) + tail =~= xs);
    }
}

/// One output per input, in input order: where each chunk of results
/// relates pointwise to the matching chunk of inputs, the concatenations
/// relate pointwise too.  Together with `lemma_split_preserves_order` this
/// carries a per-batch guarantee over to the whole input list, for any
/// batch size.
pub proof fn lemma_concat_pointwise<T, U>(
    bs: Seq<Seq<T>>,
    rs: Seq<Seq<U>>,
    rel: spec_fn(T, U) -> bool,
)
    requires
        rs.len() == bs.len(),
        forall|i: int| 0 <= i < bs.len() ==> (#[trigger] rs[i]).len() == bs[i].len(),
        forall|i: int, j: int|
            0 <= i < bs.len() && 0 <= j < bs[i].len() ==> rel(#[trigger] bs[i][j], rs[i][j]),
    ensures
        concat_all(rs).len() == concat_all(bs).len(),
        forall|j: int|
            0 <= j < concat_all(bs).len() ==> rel(
                #[trigger] concat_all(bs)[j],
                concat_all(rs)[j],
            ),
    decreases bs.len(),
{
    if bs.len() == 0 {
        assert(concat_all(bs) =~= Seq::<T>::empty());
        assert(concat_all(rs) =~= Seq::<U>::empty());
    } else {
        let bt = bs.drop_first();
        let rt = rs.drop_first();
        assert(forall|i: int| 0 <= i < bt.len() ==> (#[trigger] rt[i]).len() == bt[i].len());
        assert(forall|i: int, j: int|
            0 <= i < bt.len() && 0 <= j < bt[i].len() ==> rel(#[trigger] bt[i][j], rt[i][j]));
        lemma_concat_pointwise(bt, rt, rel);
        assert(concat_all(bs) == bs[0] + concat_all(bt));
        assert(concat_all(rs) == rs[0] + concat_all(rt));
        assert forall|j: int| 0 <= j < concat_all(bs).len() implies rel(
            #[trigger] concat_all(bs)[j],
            concat_all(rs)[j],
        ) by {
            if j < bs[0].len() {
                assert(concat_all(bs)[j] == bs[0][j]);
                assert(concat_all(rs)[j] == rs[0][j]);
            } else {
                assert(concat_all(bs)[j] == concat_all(bt)[j - bs[0].len()]);
                assert(concat_all(rs)[j] == concat_all(rt)[j - rs[0].len()]);
            }
        }
    }
}

/// Batch-by-batch processing yields exactly one result per input item, in
/// input order, for any batch size: where each batch of a partition is
/// answered by a result chunk that relates pointwise to it, the
/// concatenation of the chunks relates pointwise to the whole input.
pub proof fn lemma_batched_results_correspond<T, U>(
    xs: Seq<T>,
    k: int,
    rs: Seq<Seq<U>>,
    rel: spec_fn(T, U) -> bool,
)
    requires
        1 <= k,
        rs.len() == split_model(xs, k).len(),
        forall|i: int|
            0 <= i < rs.len() ==> (#[trigger] rs[i]).len() == split_model(xs, k)[i].len(),
        forall|i: int, j: int|
            0 <= i < rs.len() && 0 <= j < split_model(xs, k)[i].len() ==> rel(
                #[trigger] split_model(xs, k)[i][j],
                rs[i][j],
            ),
    ensures
        concat_all(rs).len() == xs.len(),
        forall|j: int| 0 <= j < xs.len() ==> rel(#[trigger] xs[j], concat_all(rs)[j]),
{
    lemma_split_preserves_order(xs, k);
    lemma_concat_pointwise(split_model(xs, k), rs, rel);
}

/// Partition `items` into contiguous batches of at most `batch_size` items,
/// in order.
pub fn split_batches<T>(items: Vec<T>, batch_size: usize) -> (r: Vec<Vec<T>>)
    requires
        batch_size >= 1,
    ensures
        views_of(r@) == split_model(items@, batch_size as int),
{
    let ghost all = items@;
    let k = batch_size;
    let mut rest = items;
    let mut out: Vec<Vec<T>> = Vec::new();
    while rest.len() > 0
        invariant
            k == batch_size,
            k >= 1,
            split_model(all, k as int) == views_of(out@) + split_model(rest@, k as int),
        decreases rest.len(),
    {
        let ghost rest0 = rest@;
        let mut chunk: Vec<T> = Vec::new();
        while chunk.len() < k && rest.len() > 0
            invariant
                chunk@.len() <= k,
                chunk@ + rest@ == rest0,
                chunk@.len() < k || rest@.len() == 0 || chunk@.len() == k,
            decreases rest.len(),
        {
            let x = rest.remove(0);
            assert(chunk@.push(x) + rest@ =~= rest0);
            chunk.push(x);
        }
        proof {
            assert(chunk@ + rest@ == rest0);
            if rest0.len() <= k as int {
                assert(rest@.len() == 0);
                assert(chunk@ =~= rest0);
                assert(split_model(rest0, k as int) =~= seq![chunk@] + split_model(
                    rest@,
                    k as int,
                ));
            } else {
                assert(chunk@.len() == k);
                assert(chunk@ =~= rest0.subrange(0, k as int));
                assert(rest@ =~= rest0.subrange(k as int, rest0.len() as int));
            }
            assert(views_of(out@.push(chunk)) =~= views_of(out@) + seq![chunk@]);
            assert(views_of(out@) + (seq![chunk@] + split_model(rest@, k as int)) =~= views_of(
                out@.push(chunk),
            ) + split_model(rest@, k as int));
        }
        out.push(chunk);
    }
    proof {
        assert(split_model(rest@, k as int) =~= Seq::<Seq<T>>::empty());
        assert(views_of(out@) + Seq::<Seq<T>>::empty() =~= views_of(out@));
    }
    out
}

} // verus!
