use vstd::prelude::*;
use crate::{HeteroSizedVec, ElemView};
use crate::pushable::InPlace;
use crate::memory::{ElemRef, ElemMut, pushed_view, align_up};

verus! {

impl<T: ?Sized> HeteroSizedVec<T> {
    /// Push a value moved in whole, given by its bytes, its alignment and
    /// the metadata word of a wide reference to it.
    pub fn push_value(&mut self, bytes: Vec<u8>, align: usize, meta: usize)
        requires
            old(self).wf(),
            align > 0,
            old(self).storage_len() + align + bytes@.len() <= usize::MAX,
        ensures
            final(self).wf(),
            final(self).is_fat() == old(self).is_fat(),
            final(self)@ == old(self)@.push(
                pushed_view::<T, InPlace>(InPlace { bytes, align, meta }, old(self).is_fat()),
            ),
            final(self).offset_spec(old(self)@.len() as int) == align_up(
                old(self).storage_len(),
                align as nat,
            ),
            final(self).storage_len() == align_up(old(self).storage_len(), align as nat)
                + bytes@.len(),
            forall|i: int|
                0 <= i < old(self)@.len() ==> final(self).offset_spec(i) == old(self).offset_spec(
                    i,
                ),
    {
        self.push(InPlace::new(bytes, align, meta));
    }

    /// The element at `index`, which must be in range.
    pub fn index(&self, index: usize) -> (r: ElemRef<'_>)
        requires
            self.wf(),
            index < self@.len(),
        ensures
            r.data@ == self@[index as int].bytes,
            r.meta == self@[index as int].meta,
            r.offset == self.offset_spec(index as int),
    {
        self.get(index).unwrap()
    }

    /// The element at `index` as a mutable reference; `index` must be in range.
    /// What writes through it do to the vector is as for `get_mut`.
    pub fn index_mut(&mut self, index: usize) -> (r: ElemMut<'_>)
        requires
            old(self).wf(),
            index < old(self)@.len(),
        ensures
            r.data@ == old(self)@[index as int].bytes,
            r.meta == old(self)@[index as int].meta,
            final(self).is_fat() == old(self).is_fat(),
            final(self).arena() =~= old(self).spliced(index as int, final(r.data)@),
            final(self).arena() == old(self).spliced(index as int, final(r.data)@)
                && final(r.data)@.len() == r.data@.len() ==> (final(self).wf()
                && final(self).storage_len() == old(self).storage_len() && final(self)@ =~= old(
                self,
            )@.update(index as int, (ElemView { bytes: final(r.data)@, ..old(self)@[index as int] }))),
    {
        self.get_mut(index).unwrap()
    }

    /// Iterate over references to the elements, in index order.
    pub fn iter(&self) -> (r: Iter<'_, T>)
        requires
            self.wf(),
        ensures
            r.wf(),
            r.elems() == self@,
            r.pos() == 0,
            forall|i: int| 0 <= i < self@.len() ==> #[trigger] r.offset_at(i) == self.offset_spec(i),
    {
        Iter::new(self)
    }

    /// Iterate over mutable references to the elements, in index order.
    /// Once the iterator is done, the vector is what the iterator left it.
    pub fn iter_mut(&mut self) -> (r: IterMut<'_, T>)
        requires
            old(self).wf(),
        ensures
            r.wf(),
            r.elems() == old(self)@,
            r.pos() == 0,
            *final(self) == *final(r.vec),
    {
        IterMut::new(self)
    }
}

/// Forward iteration over references to the elements, in index order.
pub struct Iter<'a, T: ?Sized> {
    vec: &'a HeteroSizedVec<T>,
    index: usize,
    end: usize,
}

impl<'a, T: ?Sized> Iter<'a, T> {
    /// The elements being iterated over.
    pub closed spec fn elems(&self) -> Seq<ElemView> {
        self.vec@
    }

    /// Index of the next element to hand out.
    pub closed spec fn pos(&self) -> nat {
        self.index as nat
    }

    /// Arena offset of element `i`.
    pub closed spec fn offset_at(&self, i: int) -> nat {
        self.vec.offset_spec(i)
    }

    pub closed spec fn wf(&self) -> bool {
        &&& self.vec.wf()
        &&& self.end == self.vec@.len()
        &&& self.index <= self.end
    }

    pub fn new(vec: &'a HeteroSizedVec<T>) -> (r: Self)
        requires
            vec.wf(),
        ensures
            r.wf(),
            r.elems() == vec@,
            r.pos() == 0,
            forall|i: int| 0 <= i < vec@.len() ==> #[trigger] r.offset_at(i) == vec.offset_spec(i),
    {
        Iter { index: 0, end: vec.len(), vec }
    }

    /// The next element, or none once every element has been handed out.
    pub fn next(&mut self) -> (r: Option<ElemRef<'a>>)
        requires
            old(self).wf(),
        ensures
            final(self).wf(),
            final(self).elems() == old(self).elems(),
            old(self).pos() < old(self).elems().len() ==> {
                &&& final(self).pos() == old(self).pos() + 1
                &&& r matches Some(e) && e.data@ == old(self).elems()[old(self).pos() as int].bytes
                    && e.meta == old(self).elems()[old(self).pos() as int].meta && e.offset
                    == old(self).offset_at(old(self).pos() as int)
            },
            forall|i: int| 0 <= i < old(self).elems().len() ==> #[trigger] final(self).offset_at(i)
                == old(self).offset_at(i),
            old(self).pos() >= old(self).elems().len() ==> r is None && final(self).pos()
                == old(self).pos(),
    {
        if self.index >= self.end {
            return None;
        }
        let r = self.vec.get(self.index);
        self.index = self.index + 1;
        r
    }
}

/// Forward iteration over mutable references to the elements, in index
/// order. Each reference is given back before the next one is taken.
pub struct IterMut<'a, T: ?Sized> {
    /// The vector being iterated over.
    pub vec: &'a mut HeteroSizedVec<T>,
    /// Index of the next element to hand out.
    pub index: usize,
}

impl<'a, T: ?Sized> IterMut<'a, T> {
    /// The elements being iterated over, as they stand now.
    pub open spec fn elems(&self) -> Seq<ElemView> {
        (*self.vec)@
    }

    /// Index of the next element to hand out.
    pub open spec fn pos(&self) -> nat {
        self.index as nat
    }

    pub open spec fn wf(&self) -> bool {
        &&& (*self.vec).wf()
        &&& self.index <= (*self.vec)@.len()
    }

    pub fn new(vec: &'a mut HeteroSizedVec<T>) -> (r: Self)
        requires
            old(vec).wf(),
        ensures
            r.wf(),
            r.elems() == old(vec)@,
            r.pos() == 0,
            *final(vec) == *final(r.vec),
    {
        IterMut { vec, index: 0 }
    }

    /// The next element as a mutable reference, or none once every element
    /// has been handed out.
    pub fn next(&mut self) -> (r: Option<ElemMut<'_>>)
        requires
            old(self).wf(),
        ensures
            old(self).pos() < old(self).elems().len() ==> {
                &&& final(self).pos() == old(self).pos() + 1
                &&& r matches Some(e) && e.data@ == old(self).elems()[old(self).pos() as int].bytes
                    && e.meta == old(self).elems()[old(self).pos() as int].meta
            },
            old(self).pos() >= old(self).elems().len() ==> r is None && *final(self) == *old(self),
            *final(final(self).vec) == *final(old(self).vec),
            r matches Some(e) ==> (final(e.data)@.len() == e.data@.len() ==> (final(self).wf()
                && final(self).elems() =~= old(self).elems().update(
                old(self).pos() as int,
                (ElemView { bytes: final(e.data)@, ..old(self).elems()[old(self).pos() as int] }),
            ))),
    {
        if self.index >= self.vec.len() {
            return None;
        }
        let i: usize = self.index;
        self.index = self.index + 1;
        self.vec.get_mut(i)
    }
}

} // verus!
