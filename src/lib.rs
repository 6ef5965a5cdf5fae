//! A dense vector of elements whose sizes and alignments are known only per value.
//!
//! Every element lives inside one growable byte arena. Per element the vector
//! records where it starts, how many bytes it spans, the alignment it asked
//! for, the metadata word of a wide reference (a length, or a behaviour
//! identity) and which destructor it needs. A reference to an element is
//! rebuilt on demand from the arena and those records.
use vstd::prelude::*;
use std::marker::PhantomData;

/// The insertable-value capability and its implementations.
pub mod pushable;

/// Arena management: insertion, lookup, externalization and teardown.
pub mod memory;

/// Ease of use functions: indexing, iteration.
pub mod convenience;

/// Facts that relate several operations of the vector.
pub mod lemmas;

pub use crate::pushable::{HeteroSizedPush, InPlace, DropHandler};
pub use crate::memory::{ElemRef, ElemMut, BoxedElem, DropCall};
pub use crate::convenience::{Iter, IterMut};

verus! {

/// Whether a reference to the element kind `T` is fat, that is, two
/// machine words: an address and a metadata word. A thin reference is the
/// address alone; a reference of any other width is not supported.
pub fn pointer_is_fat<T: ?Sized>() -> (r: bool)
    requires
        vstd::layout::size_of::<&T>() == vstd::layout::size_of::<usize>()
            || vstd::layout::size_of::<&T>() == 2 * vstd::layout::size_of::<usize>(),
    ensures
        r == (vstd::layout::size_of::<&T>() != vstd::layout::size_of::<usize>()),
{
    let ref_size: usize = std::mem::size_of::<&T>();
    let word_size: usize = std::mem::size_of::<usize>();
    ref_size != word_size
}

/// What a caller can observe of one stored element.
pub struct ElemView {
    /// The element's bytes, exactly its footprint in the arena.
    pub bytes: Seq<u8>,
    /// The alignment the element was inserted with.
    pub align: nat,
    /// The metadata word of its wide reference, zero where references are narrow.
    pub meta: usize,
    /// The destructor recorded for it.
    pub handler: DropHandler,
}

/// Dense vector of an unsized element kind `T`.
///
/// Supports pushing an element, indexing, iteration and conversion into a
/// sequence of individually owned elements.
pub struct HeteroSizedVec<T: ?Sized> {
    // densely packed elements, each at an offset that respects its alignment
    storage: Vec<u8>,
    // fat-pointer metadata for each element; empty when references are thin
    ptr_meta: Vec<usize>,
    // start index of each element within storage
    mem_indices: Vec<usize>,
    // destructor of each element
    drop_handlers: Vec<DropHandler>,
    // the runtime size of each element
    elems_size: Vec<usize>,
    // the alignment each element was pushed with
    elems_align: Ghost<Seq<nat>>,
    // whether references to `T` carry a metadata word
    fat: bool,
    p: PhantomData<T>,
}

impl<T: ?Sized> HeteroSizedVec<T> {
    /// Whether references to the element kind carry a metadata word.
    pub closed spec fn is_fat(&self) -> bool {
        self.fat
    }

    /// Number of bytes the arena currently spans.
    pub closed spec fn storage_len(&self) -> nat {
        self.storage@.len()
    }

    /// The arena's bytes, padding included.
    pub closed spec fn arena(&self) -> Seq<u8> {
        self.storage@
    }

    /// Arena offset of the first byte of element `i`.
    pub closed spec fn offset_spec(&self, i: int) -> nat {
        self.mem_indices@[i] as nat
    }

    /// The `i`-th element as a caller sees it.
    pub closed spec fn elem_at(&self, i: int) -> ElemView {
        ElemView {
            bytes: self.storage@.subrange(
                self.mem_indices@[i] as int,
                self.mem_indices@[i] + self.elems_size@[i],
            ),
            align: self.elems_align@[i],
            meta: if self.fat {
                self.ptr_meta@[i]
            } else {
                0
            },
            handler: self.drop_handlers@[i],
        }
    }

    /// Well-formedness: parallel records of equal length, every element
    /// aligned, inside the arena and before every later element.
    pub closed spec fn wf(&self) -> bool {
        let n = self.mem_indices@.len();
        &&& self.elems_size@.len() == n
        &&& self.drop_handlers@.len() == n
        &&& self.elems_align@.len() == n
        &&& self.ptr_meta@.len() == if self.fat {
            n
        } else {
            0
        }
        &&& forall|i: int|
            0 <= i < n ==> {
                &&& #[trigger] self.elems_align@[i] > 0
                &&& (self.mem_indices@[i] as nat) % self.elems_align@[i] == 0
                &&& self.mem_indices@[i] + self.elems_size@[i] <= self.storage@.len()
            }
        &&& forall|i: int, j: int|
            #![trigger self.mem_indices@[i], self.mem_indices@[j]]
            0 <= i < j < n ==> self.mem_indices@[i] + self.elems_size@[i] <= self.mem_indices@[j]
    }

    /// What well-formedness gives of each element's view.
    pub proof fn lemma_wf_elements(&self)
        requires
            self.wf(),
        ensures
            forall|i: int|
                0 <= i < self@.len() ==> #[trigger] self@[i].align > 0 && self.offset_spec(i)
                    % self@[i].align == 0 && self.offset_spec(i) + self@[i].bytes.len()
                    <= self.storage_len(),
    {
        assert forall|i: int| 0 <= i < self@.len() implies #[trigger] self@[i].align > 0
            && self.offset_spec(i) % self@[i].align == 0 && self.offset_spec(i)
            + self@[i].bytes.len() <= self.storage_len() by {
            assert(self.elems_align@[i] > 0);
        }
    }

    /// New, empty vector.
    pub fn new() -> (r: Self)
        requires
            vstd::layout::size_of::<&T>() == vstd::layout::size_of::<usize>()
                || vstd::layout::size_of::<&T>() == 2 * vstd::layout::size_of::<usize>(),
        ensures
            r.wf(),
            r@ == Seq::<ElemView>::empty(),
            r.storage_len() == 0,
            r.is_fat() == (vstd::layout::size_of::<&T>() != vstd::layout::size_of::<usize>()),
    {
        let r = HeteroSizedVec {
            storage: Vec::new(),
            ptr_meta: Vec::new(),
            mem_indices: Vec::new(),
            drop_handlers: Vec::new(),
            elems_size: Vec::new(),
            elems_align: Ghost(Seq::empty()),
            fat: pointer_is_fat::<T>(),
            p: PhantomData,
        };
        assert(r@ =~= Seq::<ElemView>::empty());
        r
    }

    /// Length in elements.
    pub fn len(&self) -> (r: usize)
        ensures
            r == self@.len(),
    {
        self.mem_indices.len()
    }
}

impl<T: ?Sized> View for HeteroSizedVec<T> {
    type V = Seq<ElemView>;

    closed spec fn view(&self) -> Seq<ElemView> {
        Seq::new(self.mem_indices@.len(), |i: int| self.elem_at(i))
    }
}

} // verus!
