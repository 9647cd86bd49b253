use vstd::prelude::*;

use crate::alias::IntrusiveAlias;
use crate::heap::Heap;
use core::marker::PhantomData;

verus! {

/// Exclusive ownership of a value of type `T`, tracked by its address alone.
///
/// An `OwnBox` is neither `Copy` nor `Clone`, and it is meant to be consumed
/// exactly once: by `into_box`, which hands the value back and releases its
/// address, or by `into_alias` (or a translation of the `Intrusive` trait),
/// which passes the ownership on. Discarding one without consuming it is a
/// misuse: nothing is released, so the value stays where it lives rather than
/// being freed through an address that may not be where it starts.
#[must_use]
pub struct OwnBox<T> {
    pointer: IntrusiveAlias,
    marker: PhantomData<T>,
}

impl<T> OwnBox<T> {
    /// The address that this box owns.
    pub closed spec fn addr(&self) -> usize {
        self.pointer.0
    }

    /// Returns the address that this box owns.
    pub fn get_address(&self) -> (r: usize)
        ensures
            r == self.addr(),
    {
        self.pointer.0
    }

    /// Takes ownership of the value that `pointer` names. The caller is the
    /// one who vouches that nothing else uses that address meanwhile.
    pub fn from_alias(pointer: IntrusiveAlias) -> (r: OwnBox<T>)
        ensures
            r.addr() == pointer.0,
    {
        OwnBox { pointer, marker: PhantomData }
    }

    /// Gives up the box for the bare address it owned.
    pub fn into_alias(self) -> (r: IntrusiveAlias)
        ensures
            r.0 == self.addr(),
    {
        self.pointer
    }

    /// The box's address as an alias, without giving up ownership.
    pub fn as_alias(&self) -> (r: &IntrusiveAlias)
        ensures
            r.0 == self.addr(),
    {
        &self.pointer
    }

    /// Places `value` in `heap` and returns the box that owns it, or `None`
    /// when the heap has no address left for it (then `heap` is unchanged).
    pub fn from_box(value: T, heap: &mut Heap<T>) -> (r: Option<OwnBox<T>>)
        requires
            old(heap).wf(),
        ensures
            final(heap).wf(),
            r is Some <==> old(heap).next_address() <= usize::MAX,
            r is Some ==> {
                &&& r->Some_0.addr() == old(heap).next_address()
                &&& !old(heap)@.contains_key(r->Some_0.addr())
                &&& final(heap)@ == old(heap)@.insert(r->Some_0.addr(), value)
            },
            r is None ==> final(heap)@ == old(heap)@,
    {
        match heap.place(value) {
            Some(addr) => Some(OwnBox::from_alias(IntrusiveAlias::new(addr))),
            None => None,
        }
    }

    /// Takes the owned value out of `heap`. The box must own the address at
    /// which a value of `heap` starts.
    pub fn into_box(self, heap: &mut Heap<T>) -> (r: T)
        requires
            old(heap).wf(),
            old(heap)@.contains_key(self.addr()),
        ensures
            final(heap).wf(),
            r == old(heap)@[self.addr()],
            final(heap)@ == old(heap)@.remove(self.addr()),
    {
        let addr = self.into_alias().get_address();
        heap.release(addr)
    }

    /// The owned value.
    pub fn get<'h>(&self, heap: &'h Heap<T>) -> (r: &'h T)
        requires
            heap.wf(),
            heap@.contains_key(self.addr()),
        ensures
            *r == heap@[self.addr()],
    {
        heap.get(self.pointer.0)
    }

    /// Mutable access to the owned value; nothing else in `heap` changes.
    pub fn get_mut<'h>(&self, heap: &'h mut Heap<T>) -> (r: &'h mut T)
        requires
            old(heap).wf(),
            old(heap)@.contains_key(self.addr()),
        ensures
            *r == old(heap)@[self.addr()],
            final(heap).wf(),
            final(heap)@ == old(heap)@.insert(self.addr(), *final(r)),
    {
        heap.get_mut(self.pointer.0)
    }
}

} // verus!
