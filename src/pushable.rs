use vstd::prelude::*;
use vstd::string::StringSliceAdditionalSpecFns;

verus! {

/// How a stored element is destroyed, chosen by the shape it was pushed as.
#[derive(PartialEq, Eq, Structural, Clone, Copy, Debug)]
pub enum DropHandler {
    /// Nothing is owned: a borrowed slice or string was copied in.
    Noop,
    /// One value moved in whole; its own destructor runs in place.
    InPlace,
    /// A sequence of items; each of them, as many as the metadata word says,
    /// is destroyed in turn.
    EachItem,
}

/// Values that can be pushed onto a `HeteroSizedVec` of element kind `T`.
///
/// An implementation reports the bytes of its payload, their alignment, the
/// metadata word of a wide reference to them and the destructor they need.
/// Once those bytes are copied, `outer_drop` releases whatever wrapper held
/// them, without destroying the payload itself.
pub trait HeteroSizedPush<T: ?Sized> {
    /// The payload's bytes.
    spec fn payload(&self) -> Seq<u8>;

    /// The alignment the payload requires.
    spec fn align_spec(&self) -> nat;

    /// The metadata word of a wide reference to the payload.
    spec fn meta_spec(&self) -> usize;

    /// The destructor the payload needs.
    spec fn handler_spec(&self) -> DropHandler;

    fn elem_size(&self) -> (r: usize)
        ensures
            r == self.payload().len(),
    ;

    fn elem_align(&self) -> (r: usize)
        ensures
            r == self.align_spec(),
    ;

    fn elem_bytes(&self) -> (r: &[u8])
        ensures
            r@ == self.payload(),
    ;

    fn elem_meta(&self) -> (r: usize)
        ensures
            r == self.meta_spec(),
    ;

    fn elem_drop_handler(&self) -> (r: DropHandler)
        ensures
            r == self.handler_spec(),
    ;

    /// Release the wrapper around the payload, once the payload's bytes have
    /// been taken over elsewhere.
    fn outer_drop(&mut self);
}

/// A value pushed directly from the stack, given by its bytes, its
/// alignment and the metadata word of a wide reference to it.
pub struct InPlace {
    pub bytes: Vec<u8>,
    pub align: usize,
    pub meta: usize,
}

impl InPlace {
    /// Wrap a value's bytes for insertion.
    pub fn new(bytes: Vec<u8>, align: usize, meta: usize) -> (r: InPlace)
        ensures
            r.bytes@ == bytes@,
            r.align == align,
            r.meta == meta,
    {
        InPlace { bytes, align, meta }
    }
}

impl<T: ?Sized> HeteroSizedPush<T> for InPlace {
    open spec fn payload(&self) -> Seq<u8> {
        self.bytes@
    }

    open spec fn align_spec(&self) -> nat {
        self.align as nat
    }

    open spec fn meta_spec(&self) -> usize {
        self.meta
    }

    open spec fn handler_spec(&self) -> DropHandler {
        DropHandler::InPlace
    }

    fn elem_size(&self) -> (r: usize) {
        self.bytes.len()
    }

    fn elem_align(&self) -> (r: usize) {
        self.align
    }

    fn elem_bytes(&self) -> (r: &[u8]) {
        self.bytes.as_slice()
    }

    fn elem_meta(&self) -> (r: usize) {
        self.meta
    }

    fn elem_drop_handler(&self) -> (r: DropHandler) {
        DropHandler::InPlace
    }

    fn outer_drop(&mut self) {
    }
}

/// A borrowed slice of bytes: copied in, nothing to destroy.
impl<'a> HeteroSizedPush<[u8]> for &'a [u8] {
    open spec fn payload(&self) -> Seq<u8> {
        (*self)@
    }

    open spec fn align_spec(&self) -> nat {
        1
    }

    open spec fn meta_spec(&self) -> usize {
        (*self)@.len() as usize
    }

    open spec fn handler_spec(&self) -> DropHandler {
        DropHandler::Noop
    }

    fn elem_size(&self) -> (r: usize) {
        (*self).len()
    }

    fn elem_align(&self) -> (r: usize) {
        1
    }

    fn elem_bytes(&self) -> (r: &[u8]) {
        *self
    }

    fn elem_meta(&self) -> (r: usize) {
        (*self).len()
    }

    fn elem_drop_handler(&self) -> (r: DropHandler) {
        DropHandler::Noop
    }

    fn outer_drop(&mut self) {
    }
}

/// An owned growable sequence: its items move into the vector, and its
/// own buffer is released afterwards.
impl HeteroSizedPush<[u8]> for Vec<u8> {
    open spec fn payload(&self) -> Seq<u8> {
        self@
    }

    open spec fn align_spec(&self) -> nat {
        1
    }

    open spec fn meta_spec(&self) -> usize {
        self@.len() as usize
    }

    open spec fn handler_spec(&self) -> DropHandler {
        DropHandler::EachItem
    }

    fn elem_size(&self) -> (r: usize) {
        self.len()
    }

    fn elem_align(&self) -> (r: usize) {
        1
    }

    fn elem_bytes(&self) -> (r: &[u8]) {
        self.as_slice()
    }

    fn elem_meta(&self) -> (r: usize) {
        self.len()
    }

    fn elem_drop_handler(&self) -> (r: DropHandler) {
        DropHandler::EachItem
    }

    fn outer_drop(&mut self) {
        *self = Vec::new();
    }
}

/// A borrowed string: copied in as its UTF-8 bytes, nothing to destroy.
impl<'a> HeteroSizedPush<str> for &'a str {
    open spec fn payload(&self) -> Seq<u8> {
        (*self).spec_bytes()
    }

    open spec fn align_spec(&self) -> nat {
        1
    }

    open spec fn meta_spec(&self) -> usize {
        (*self).spec_bytes().len() as usize
    }

    open spec fn handler_spec(&self) -> DropHandler {
        DropHandler::Noop
    }

    fn elem_size(&self) -> (r: usize) {
        (*self).as_bytes().len()
    }

    fn elem_align(&self) -> (r: usize) {
        1
    }

    fn elem_bytes(&self) -> (r: &[u8]) {
        (*self).as_bytes()
    }

    fn elem_meta(&self) -> (r: usize) {
        (*self).as_bytes().len()
    }

    fn elem_drop_handler(&self) -> (r: DropHandler) {
        DropHandler::Noop
    }

    fn outer_drop(&mut self) {
    }
}

/// A boxed insertable value: every fact is the boxed value's, and the box
/// is released after its payload has been taken over.
impl<T: ?Sized, E: HeteroSizedPush<T>> HeteroSizedPush<T> for Box<E> {
    open spec fn payload(&self) -> Seq<u8> {
        (**self).payload()
    }

    open spec fn align_spec(&self) -> nat {
        (**self).align_spec()
    }

    open spec fn meta_spec(&self) -> usize {
        (**self).meta_spec()
    }

    open spec fn handler_spec(&self) -> DropHandler {
        (**self).handler_spec()
    }

    fn elem_size(&self) -> (r: usize) {
        (**self).elem_size()
    }

    fn elem_align(&self) -> (r: usize) {
        (**self).elem_align()
    }

    fn elem_bytes(&self) -> (r: &[u8]) {
        (**self).elem_bytes()
    }

    fn elem_meta(&self) -> (r: usize) {
        (**self).elem_meta()
    }

    fn elem_drop_handler(&self) -> (r: DropHandler) {
        (**self).elem_drop_handler()
    }

    fn outer_drop(&mut self) {
        (**self).outer_drop();
    }
}

} // verus!
