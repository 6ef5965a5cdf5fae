use vstd::prelude::*;
use crate::{HeteroSizedVec, ElemView, BoxedElem};

verus! {

/// Elements pushed one after another onto an empty vector stand, after
/// the last push, at the indices they were pushed at: reading index `i`
/// gives back the `i`-th pushed element, for every valid `i`.
///
/// `states[k]` is the vector's view after `k` pushes; `pushed[k]` is the
/// element the `k`-th push appended.
pub proof fn lemma_push_get_round_trip(states: Seq<Seq<ElemView>>, pushed: Seq<ElemView>)
    requires
        states.len() == pushed.len() + 1,
        states[0] == Seq::<ElemView>::empty(),
        forall|k: int| 0 <= k < pushed.len() ==> #[trigger] states[k + 1] == states[k].push(pushed[k]),
    ensures
        states[pushed.len() as int].len() == pushed.len(),
        forall|i: int|
            0 <= i < pushed.len() ==> #[trigger] states[pushed.len() as int][i] == pushed[i],
{
    lemma_prefix(states, pushed, pushed.len() as int);
    assert(states[pushed.len() as int] =~= pushed);
}

/// After `k` pushes the view holds exactly the first `k` pushed elements.
proof fn lemma_prefix(states: Seq<Seq<ElemView>>, pushed: Seq<ElemView>, k: int)
    requires
        states.len() == pushed.len() + 1,
        states[0] == Seq::<ElemView>::empty(),
        forall|j: int| 0 <= j < pushed.len() ==> #[trigger] states[j + 1] == states[j].push(pushed[j]),
        0 <= k <= pushed.len(),
    ensures
        states[k] == pushed.subrange(0, k),
    decreases k,
{
    if k == 0 {
        assert(pushed.subrange(0, 0) =~= Seq::<ElemView>::empty());
    } else {
        lemma_prefix(states, pushed, k - 1);
        assert(states[(k - 1) + 1] == states[k - 1].push(pushed[k - 1]));
        assert(pushed.subrange(0, k - 1).push(pushed[k - 1]) =~= pushed.subrange(0, k));
    }
}

/// Every stored element starts at an offset divisible by its alignment,
/// and lies wholly inside the arena.
pub proof fn lemma_elements_aligned<T: ?Sized>(v: &HeteroSizedVec<T>)
    requires
        v.wf(),
    ensures
        forall|i: int|
            0 <= i < v@.len() ==> #[trigger] v@[i].align > 0 && v.offset_spec(i) % v@[i].align == 0
                && v.offset_spec(i) + v@[i].bytes.len() <= v.storage_len(),
{
    v.lemma_wf_elements();
}

/// A write through a mutable reference to element `index` is what a later
/// read of that element sees, and every other element reads as before.
///
/// `after` is the vector once the reference was given back, as `get_mut`
/// relates it to `before`.
pub proof fn lemma_mutation_visible<T: ?Sized>(
    before: &HeteroSizedVec<T>,
    after: &HeteroSizedVec<T>,
    index: int,
    bytes: Seq<u8>,
)
    requires
        before.wf(),
        0 <= index < before@.len(),
        after@ == before@.update(index, (ElemView { bytes: bytes, ..before@[index] })),
    ensures
        after@.len() == before@.len(),
        after@[index].bytes == bytes,
        after@[index].meta == before@[index].meta,
        forall|j: int| 0 <= j < before@.len() && j != index ==> #[trigger] after@[j] == before@[j],
{
}

/// Externalizing a vector hands out, at every index and in the same order,
/// the bytes and metadata word that indexing the vector reads there.
///
/// `boxed` is what `into_boxed_vec` returned; `data` and `meta` are what
/// `get(i)` read before.
pub proof fn lemma_externalize_matches_get<T: ?Sized>(
    v: &HeteroSizedVec<T>,
    boxed: Seq<BoxedElem>,
    i: int,
    data: Seq<u8>,
    meta: usize,
)
    requires
        v.wf(),
        boxed.len() == v@.len(),
        forall|k: int|
            #![trigger boxed[k]]
            0 <= k < boxed.len() ==> (boxed[k].data@ == v@[k].bytes && boxed[k].meta == v@[k].meta),
        0 <= i < v@.len(),
        data == v@[i].bytes,
        meta == v@[i].meta,
    ensures
        boxed[i].data@ == data,
        boxed[i].meta == meta,
{
    assert(boxed[i].data@ == v@[i].bytes);
}

} // verus!
