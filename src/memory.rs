use vstd::prelude::*;
use vstd::arithmetic::div_mod::{lemma_fundamental_div_mod, lemma_mod_multiples_basic};
use crate::{HeteroSizedVec, ElemView};
use crate::pushable::{HeteroSizedPush, DropHandler};

verus! {

/// `len` rounded up to the next multiple of `align`.
pub open spec fn align_up(len: nat, align: nat) -> nat
    recommends
        align > 0,
{
    if len % align == 0 {
        len
    } else {
        len + (align - len % align) as nat
    }
}

/// A rounded-up offset is a multiple of the alignment, not below the
/// length it started from and less than one alignment above it.
pub proof fn lemma_align_up(len: nat, align: nat)
    requires
        align > 0,
    ensures
        align_up(len, align) % align == 0,
        len <= align_up(len, align) < len + align,
{
    if len % align != 0 {
        lemma_fundamental_div_mod(len as int, align as int);
        let q = (len / align) as int;
        assert(align * (q + 1) == align * q + align) by (nonlinear_arith);
        assert(align_up(len, align) == align * (q + 1));
        lemma_mod_multiples_basic(q + 1, align as int);
    }
}

/// The element a pushed value becomes, in a vector whose references are
/// fat or not.
pub open spec fn pushed_view<T: ?Sized, E: HeteroSizedPush<T>>(elem: E, fat: bool) -> ElemView {
    ElemView {
        bytes: elem.payload(),
        align: elem.align_spec(),
        meta: if fat {
            elem.meta_spec()
        } else {
            0
        },
        handler: elem.handler_spec(),
    }
}

/// A reference to a stored element: its bytes in the arena, the metadata
/// word of a wide reference (zero where references are narrow), and the
/// arena offset the bytes start at.
pub struct ElemRef<'a> {
    pub data: &'a [u8],
    pub meta: usize,
    pub offset: usize,
}

/// A mutable reference to a stored element: its bytes in the arena, and
/// the metadata word of a wide reference (zero where references are narrow).
pub struct ElemMut<'a> {
    pub data: &'a mut [u8],
    pub meta: usize,
}

/// An element moved out of the vector into an allocation of its own.
pub struct BoxedElem {
    pub data: Vec<u8>,
    pub meta: usize,
}

/// One destructor invocation of a teardown: which destructor, on the
/// element starting at which arena offset, with which metadata word.
#[derive(PartialEq, Eq, Structural, Clone, Copy, Debug)]
pub struct DropCall {
    pub offset: usize,
    pub meta: usize,
    pub handler: DropHandler,
}

impl<T: ?Sized> HeteroSizedVec<T> {
    /// Push an element onto the vector.
    ///
    /// The payload is copied to the arena's length rounded up to its
    /// alignment; the bytes skipped over are zero padding.
    pub fn push<E: HeteroSizedPush<T>>(&mut self, elem: E)
        requires
            old(self).wf(),
            elem.align_spec() > 0,
            old(self).storage_len() + elem.align_spec() + elem.payload().len() <= usize::MAX,
        ensures
            final(self).wf(),
            final(self).is_fat() == old(self).is_fat(),
            final(self)@ == old(self)@.push(pushed_view(elem, old(self).is_fat())),
            final(self).offset_spec(old(self)@.len() as int) == align_up(
                old(self).storage_len(),
                elem.align_spec(),
            ),
            final(self).storage_len() == align_up(old(self).storage_len(), elem.align_spec())
                + elem.payload().len(),
            forall|i: int|
                0 <= i < old(self)@.len() ==> final(self).offset_spec(i) == old(self).offset_spec(
                    i,
                ),
    {
        let ghost old_self = *self;
        let ghost e0 = elem;
        let mut elem = elem;
        let elem_size: usize = elem.elem_size();
        let elem_align: usize = elem.elem_align();
        let elem_meta: usize = elem.elem_meta();
        let elem_drop_handler: DropHandler = elem.elem_drop_handler();

        let len: usize = self.storage.len();
        proof {
            lemma_align_up(len as nat, elem_align as nat);
        }
        let mut offset: usize = len;
        if len % elem_align != 0 {
            let padding: usize = elem_align - (len % elem_align);
            offset = len + padding;
        }
        assert(offset == align_up(len as nat, elem_align as nat));

        // zero padding up to the aligned offset
        while self.storage.len() < offset
            invariant
                len <= self.storage@.len() <= offset,
                self.storage@.subrange(0, len as int) == old_self.storage@,
                self.ptr_meta == old_self.ptr_meta,
                self.mem_indices == old_self.mem_indices,
                self.drop_handlers == old_self.drop_handlers,
                self.elems_size == old_self.elems_size,
                self.elems_align == old_self.elems_align,
                self.fat == old_self.fat,
            decreases offset - self.storage@.len(),
        {
            self.storage.push(0u8);
        }
        let bytes: &[u8] = elem.elem_bytes();
        self.storage.extend_from_slice(bytes);
        assert(self.storage@.subrange(offset as int, offset + elem_size) =~= e0.payload());
        assert(self.storage@.subrange(0, len as int) =~= old_self.storage@);

        if self.fat {
            self.ptr_meta.push(elem_meta);
        }
        self.mem_indices.push(offset);
        self.elems_size.push(elem_size);
        self.elems_align = Ghost(self.elems_align@.push(elem_align as nat));

        // the payload now belongs to the vector: release only its wrapper
        elem.outer_drop();

        self.drop_handlers.push(elem_drop_handler);

        proof {
            let n = old_self.mem_indices@.len();
            assert forall|i: int| 0 <= i < n implies self.elem_at(i) == old_self.elem_at(i) by {
                assert(old_self.elems_align@[i] > 0);
                let lo = old_self.mem_indices@[i] as int;
                let hi = lo + old_self.elems_size@[i];
                assert(self.storage@.subrange(lo, hi) =~= old_self.storage@.subrange(lo, hi)) by {
                    assert forall|k: int| lo <= k < hi implies self.storage@[k]
                        == old_self.storage@[k] by {
                        assert(self.storage@.subrange(0, len as int)[k] == self.storage@[k]);
                    }
                }
            }
            assert(self@ =~= old_self@.push(pushed_view(e0, old_self.fat)));
            assert forall|i: int| 0 <= i < n + 1 implies {
                &&& #[trigger] self.elems_align@[i] > 0
                &&& (self.mem_indices@[i] as nat) % self.elems_align@[i] == 0
                &&& self.mem_indices@[i] + self.elems_size@[i] <= self.storage@.len()
            } by {
                if i < n {
                    assert(old_self.elems_align@[i] > 0);
                }
            }
            assert forall|i: int, j: int|
                #![trigger self.mem_indices@[i], self.mem_indices@[j]]
                0 <= i < j < n + 1 implies self.mem_indices@[i] + self.elems_size@[i]
                <= self.mem_indices@[j] by {
                if j < n {
                    assert(old_self.mem_indices@[i] + old_self.elems_size@[i]
                        <= old_self.mem_indices@[j]);
                } else {
                    assert(old_self.elems_align@[i] > 0);
                }
            }
        }
    }

    /// Get element by index as a reference: its bytes and metadata word, or
    /// none where `index` is past the end.
    pub fn get(&self, index: usize) -> (r: Option<ElemRef<'_>>)
        requires
            self.wf(),
        ensures
            match r {
                None => index >= self@.len(),
                Some(e) => index < self@.len() && e.data@ == self@[index as int].bytes && e.meta
                    == self@[index as int].meta && e.offset == self.offset_spec(index as int),
            },
    {
        if index >= self.mem_indices.len() {
            return None;
        }
        let offset: usize = self.mem_indices[index];
        let size: usize = self.elems_size[index];
        let meta: usize = if self.fat {
            self.ptr_meta[index]
        } else {
            0
        };
        assert(self.elems_align@[index as int] > 0);
        let storage_len: usize = self.storage.len();
        assert(offset + size <= storage_len);
        let data: &[u8] = &self.storage.as_slice()[offset..offset + size];
        Some(ElemRef { data, meta, offset })
    }

    /// The arena with the bytes of element `index` replaced by `bytes`.
    pub closed spec fn spliced(&self, index: int, bytes: Seq<u8>) -> Seq<u8> {
        let lo = self.mem_indices@[index] as int;
        let hi = lo + self.elems_size@[index];
        self.storage@.subrange(0, lo) + bytes + self.storage@.subrange(hi, self.storage@.len() as int)
    }

    /// Replacing the bytes of one element by as many bytes keeps the vector
    /// well formed and changes that element's bytes alone.
    proof fn lemma_write_back(&self, index: int)
        requires
            self.wf(),
            0 <= index < self@.len(),
        ensures
            forall|v: Self, fd: Seq<u8>|
                #![trigger v.arena(), self.spliced(index, fd)]
                v.arena() == self.spliced(index, fd) && fd.len() == self.elems_size@[index]
                    && v.mem_indices@ == self.mem_indices@ && v.elems_size@ == self.elems_size@
                    && v.elems_align@ == self.elems_align@ && v.ptr_meta@ == self.ptr_meta@
                    && v.drop_handlers@ == self.drop_handlers@ && v.fat == self.fat ==> {
                    &&& v.wf()
                    &&& v.storage_len() == self.storage_len()
                    &&& v@ == self@.update(index, (ElemView { bytes: fd, ..self@[index] }))
                },
    {
        assert forall|v: Self, fd: Seq<u8>|
            #![trigger v.arena(), self.spliced(index, fd)]
            v.arena() == self.spliced(index, fd) && fd.len() == self.elems_size@[index]
                && v.mem_indices@ == self.mem_indices@ && v.elems_size@ == self.elems_size@
                && v.elems_align@ == self.elems_align@ && v.ptr_meta@ == self.ptr_meta@
                && v.drop_handlers@ == self.drop_handlers@ && v.fat == self.fat implies {
                &&& v.wf()
                &&& v.storage_len() == self.storage_len()
                &&& v@ == self@.update(index, (ElemView { bytes: fd, ..self@[index] }))
            } by {
            assert(self.elems_align@[index] > 0);
            let fs = v.storage@;
            let lo = self.mem_indices@[index] as int;
            let hi = lo + self.elems_size@[index];
            assert(fs.len() == self.storage@.len());
            assert forall|k: int| 0 <= k < fs.len() && !(lo <= k < hi) implies fs[k]
                == self.storage@[k] by {
                if k >= hi {
                    assert(fs[k] == self.storage@.subrange(hi, self.storage@.len() as int)[k - hi]);
                }
            }
            assert(fs.subrange(lo, hi) =~= fd);
            let n = self.mem_indices@.len();
            assert forall|i: int| 0 <= i < n && i != index implies v.elem_at(i) == self.elem_at(
                i,
            ) by {
                assert(self.elems_align@[i] > 0);
                let a = self.mem_indices@[i] as int;
                let b = a + self.elems_size@[i];
                if i < index {
                    assert(self.mem_indices@[i] + self.elems_size@[i] <= self.mem_indices@[index]);
                } else {
                    assert(self.mem_indices@[index] + self.elems_size@[index]
                        <= self.mem_indices@[i]);
                }
                assert(fs.subrange(a, b) =~= self.storage@.subrange(a, b));
            }
            assert(v@ =~= self@.update(index, (ElemView { bytes: fd, ..self@[index] })));
        }
    }

    /// Get element by index as a mutable reference, or none where `index`
    /// is past the end. Writes through the reference change that element's
    /// bytes and nothing else: the arena afterwards is the old one with the
    /// element's bytes replaced by the reference's final bytes.
    ///
    /// A slice keeps its length through a mutable reference; the clause
    /// that rests on that fact (the vector stays well formed, and its view
    /// changes at `index` alone) names it.
    pub fn get_mut(&mut self, index: usize) -> (r: Option<ElemMut<'_>>)
        requires
            old(self).wf(),
        ensures
            r is None <==> index >= old(self)@.len(),
            r is None ==> *final(self) == *old(self),
            r matches Some(e) ==> e.data@ == old(self)@[index as int].bytes,
            r matches Some(e) ==> e.meta == old(self)@[index as int].meta,
            r matches Some(e) ==> final(self).is_fat() == old(self).is_fat(),
            r matches Some(e) ==> final(self).arena() =~= old(self).spliced(index as int, final(e.data)@),
            r matches Some(e) ==> (final(self).arena() == old(self).spliced(index as int, final(e.data)@)
                && final(e.data)@.len() == e.data@.len() ==> (final(self).wf()
                && final(self).storage_len() == old(self).storage_len() && final(self)@ =~= old(
                self,
            )@.update(index as int, (ElemView { bytes: final(e.data)@, ..old(self)@[index as int] })))),
            r matches Some(e) ==> forall|i: int|
                0 <= i < old(self)@.len() ==> final(self).offset_spec(i)
                    == old(self).offset_spec(i),
    {
        if index >= self.mem_indices.len() {
            return None;
        }
        let offset: usize = self.mem_indices[index];
        let size: usize = self.elems_size[index];
        let meta: usize = if self.fat {
            self.ptr_meta[index]
        } else {
            0
        };
        assert(self.elems_align@[index as int] > 0);
        let storage_len: usize = self.storage.len();
        assert(offset + size <= storage_len);
        let whole: &mut [u8] = self.storage.as_mut_slice();
        let (_before, rest) = whole.split_at_mut(offset);
        let (data, _after) = rest.split_at_mut(size);
        proof {
            old(self).lemma_write_back(index as int);
        }
        Some(ElemMut { data, meta })
    }

    /// Convert into a sequence of individually owned elements, in order.
    ///
    /// The destructor records are cleared before anything is moved, so the
    /// consumed vector destroys nothing.
    pub fn into_boxed_vec(self) -> (r: Vec<BoxedElem>)
        requires
            self.wf(),
        ensures
            r@.len() == self@.len(),
            forall|i: int|
                #![trigger r@[i]]
                0 <= i < r@.len() ==> (r@[i].data@ == self@[i].bytes && r@[i].meta
                    == self@[i].meta),
    {
        if self.fat {
            self.into_boxed_vec_fat()
        } else {
            self.into_boxed_vec_thin()
        }
    }

    // `into_boxed_vec` where references carry a metadata word
    fn into_boxed_vec_fat(self) -> (r: Vec<BoxedElem>)
        requires
            self.wf(),
            self.is_fat(),
        ensures
            r@.len() == self@.len(),
            forall|i: int|
                #![trigger r@[i]]
                0 <= i < r@.len() ==> (r@[i].data@ == self@[i].bytes && r@[i].meta
                    == self@[i].meta),
    {
        let ghost orig = self;
        let mut this = self;
        // clear the destructor records first: nothing moved out is destroyed here
        this.drop_handlers.clear();

        let n: usize = this.mem_indices.len();
        let mut boxed_vec: Vec<BoxedElem> = Vec::with_capacity(n);
        let mut i: usize = 0;
        while i < n
            invariant
                orig.wf(),
                orig.fat,
                n == orig@.len(),
                0 <= i <= n,
                this.storage == orig.storage,
                this.mem_indices == orig.mem_indices,
                this.elems_size == orig.elems_size,
                this.ptr_meta == orig.ptr_meta,
                this.fat == orig.fat,
                boxed_vec@.len() == i,
                forall|k: int|
                    #![trigger boxed_vec@[k]]
                    0 <= k < i ==> (boxed_vec@[k].data@ =~= orig@[k].bytes
                        && boxed_vec@[k].meta == orig@[k].meta),
            decreases n - i,
        {
            let offset: usize = this.mem_indices[i];
            let size: usize = this.elems_size[i];
            assert(orig.elems_align@[i as int] > 0);
            let storage_len: usize = this.storage.len();
            assert(offset + size <= storage_len);
            let meta: usize = this.ptr_meta[i];
            // copy the element into an allocation of its own
            let mut heap: Vec<u8> = Vec::with_capacity(size);
            heap.extend_from_slice(&this.storage.as_slice()[offset..offset + size]);
            assert(heap@ =~= orig@[i as int].bytes);
            let ghost prev = boxed_vec@;
            let ghost heap_view = heap@;
            let item = BoxedElem { data: heap, meta };
            boxed_vec.push(item);
            assert forall|k: int|
                #![trigger boxed_vec@[k]]
                0 <= k < i + 1 implies (boxed_vec@[k].data@ =~= orig@[k].bytes
                && boxed_vec@[k].meta == orig@[k].meta) by {
                if k < i {
                    assert(boxed_vec@[k] == prev[k]);
                } else {
                    assert(boxed_vec@[k].data@ == heap_view);
                }
            }
            i = i + 1;
        }
        boxed_vec
    }

    // `into_boxed_vec` where references are a bare address
    fn into_boxed_vec_thin(self) -> (r: Vec<BoxedElem>)
        requires
            self.wf(),
            !self.is_fat(),
        ensures
            r@.len() == self@.len(),
            forall|i: int|
                #![trigger r@[i]]
                0 <= i < r@.len() ==> (r@[i].data@ == self@[i].bytes && r@[i].meta
                    == self@[i].meta),
    {
        let ghost orig = self;
        let mut this = self;
        // clear the destructor records first: nothing moved out is destroyed here
        this.drop_handlers.clear();

        let n: usize = this.mem_indices.len();
        let mut boxed_vec: Vec<BoxedElem> = Vec::with_capacity(n);
        let mut i: usize = 0;
        while i < n
            invariant
                orig.wf(),
                !orig.fat,
                n == orig@.len(),
                0 <= i <= n,
                this.storage == orig.storage,
                this.mem_indices == orig.mem_indices,
                this.elems_size == orig.elems_size,
                this.ptr_meta == orig.ptr_meta,
                this.fat == orig.fat,
                boxed_vec@.len() == i,
                forall|k: int|
                    #![trigger boxed_vec@[k]]
                    0 <= k < i ==> (boxed_vec@[k].data@ =~= orig@[k].bytes
                        && boxed_vec@[k].meta == orig@[k].meta),
            decreases n - i,
        {
            let offset: usize = this.mem_indices[i];
            let size: usize = this.elems_size[i];
            assert(orig.elems_align@[i as int] > 0);
            let storage_len: usize = this.storage.len();
            assert(offset + size <= storage_len);
            let meta: usize = 0;
            // copy the element into an allocation of its own
            let mut heap: Vec<u8> = Vec::with_capacity(size);
            heap.extend_from_slice(&this.storage.as_slice()[offset..offset + size]);
            assert(heap@ =~= orig@[i as int].bytes);
            let ghost prev = boxed_vec@;
            let ghost heap_view = heap@;
            let item = BoxedElem { data: heap, meta };
            boxed_vec.push(item);
            assert forall|k: int|
                #![trigger boxed_vec@[k]]
                0 <= k < i + 1 implies (boxed_vec@[k].data@ =~= orig@[k].bytes
                && boxed_vec@[k].meta == orig@[k].meta) by {
                if k < i {
                    assert(boxed_vec@[k] == prev[k]);
                } else {
                    assert(boxed_vec@[k].data@ == heap_view);
                }
            }
            i = i + 1;
        }
        boxed_vec
    }

    /// End the vector's life: every recorded destructor, in index order,
    /// invoked once on its element's offset and metadata word.
    pub fn teardown(self) -> (r: Vec<DropCall>)
        requires
            self.wf(),
        ensures
            r@.len() == self@.len(),
            forall|i: int|
                0 <= i < r@.len() ==> #[trigger] r@[i] == (DropCall {
                    offset: self.offset_spec(i) as usize,
                    meta: self@[i].meta,
                    handler: self@[i].handler,
                }),
    {
        let n: usize = self.mem_indices.len();
        let mut calls: Vec<DropCall> = Vec::with_capacity(n);
        let mut i: usize = 0;
        if self.fat {
            while i < n
                invariant
                    self.wf(),
                    self.fat,
                    n == self@.len(),
                    0 <= i <= n,
                    calls@.len() == i,
                    forall|k: int|
                        0 <= k < i ==> #[trigger] calls@[k] == (DropCall {
                            offset: self.offset_spec(k) as usize,
                            meta: self@[k].meta,
                            handler: self@[k].handler,
                        }),
                decreases n - i,
            {
                calls.push(DropCall {
                    offset: self.mem_indices[i],
                    meta: self.ptr_meta[i],
                    handler: self.drop_handlers[i],
                });
                i = i + 1;
            }
        } else {
            while i < n
                invariant
                    self.wf(),
                    !self.fat,
                    n == self@.len(),
                    0 <= i <= n,
                    calls@.len() == i,
                    forall|k: int|
                        0 <= k < i ==> #[trigger] calls@[k] == (DropCall {
                            offset: self.offset_spec(k) as usize,
                            meta: self@[k].meta,
                            handler: self@[k].handler,
                        }),
                decreases n - i,
            {
                calls.push(DropCall {
                    offset: self.mem_indices[i],
                    meta: 0,
                    handler: self.drop_handlers[i],
                });
                i = i + 1;
            }
        }
        calls
    }
}

} // verus!
