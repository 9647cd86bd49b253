use vstd::prelude::*;

use crate::alias::IntrusiveAlias;
use crate::heap::Heap;
use crate::intrusive::IntrusiveBase;
use core::marker::PhantomData;

verus! {

/// A shared, non-owning view of a handle of type `T`: it names a field by
/// address and borrows the memory it lives in for `'a`, so it cannot outlive
/// that borrow and nothing can change the memory while it exists.
pub struct BorrowBox<'a, T: IntrusiveBase> {
    pointer: IntrusiveAlias,
    heap: &'a Heap<T::Container>,
    marker: PhantomData<&'a T>,
}

impl<'a, T: IntrusiveBase> BorrowBox<'a, T> {
    /// The address of the field that the view names.
    pub closed spec fn alias(&self) -> IntrusiveAlias {
        self.pointer
    }

    /// The borrowed memory.
    pub closed spec fn memory(&self) -> Heap<T::Container> {
        *self.heap
    }

    /// The address of the container that holds the viewed field.
    pub open spec fn container_addr(&self) -> int {
        self.alias().0 - T::spec_offset()
    }

    /// The viewed field names a field of a container that lives in the
    /// borrowed memory.
    pub open spec fn valid(&self) -> bool {
        &&& self.memory().wf()
        &&& self.alias().0 >= T::spec_offset()
        &&& self.memory()@.contains_key(self.container_addr() as usize)
    }

    /// A view of the same field as `source`, over `heap`.
    pub fn new(source: &T, heap: &'a Heap<T::Container>) -> (r: BorrowBox<'a, T>)
        ensures
            r.alias() == source.alias(),
            r.memory() == *heap,
    {
        BorrowBox::new_from(*source.as_alias(), heap)
    }

    /// A view of the field at `pointer`, bound to the borrow of `heap`.
    pub fn new_from(pointer: IntrusiveAlias, heap: &'a Heap<T::Container>) -> (r: BorrowBox<
        'a,
        T,
    >)
        ensures
            r.alias() == pointer,
            r.memory() == *heap,
    {
        BorrowBox { pointer, heap, marker: PhantomData }
    }

    /// The viewed field's address as an alias.
    pub fn as_alias(&self) -> (r: &IntrusiveAlias)
        ensures
            *r == self.alias(),
    {
        &self.pointer
    }

    /// The container that holds the viewed field.
    pub fn as_container(&self) -> (r: &'a T::Container)
        requires
            self.valid(),
        ensures
            *r == self.memory()@[self.container_addr() as usize],
    {
        let offset = T::offset();
        self.heap.get(self.pointer.0 - offset)
    }

    /// The viewed field.
    pub fn as_field(&self) -> (r: &'a T::Field)
        requires
            self.valid(),
        ensures
            *r == T::field_of(self.memory()@[self.container_addr() as usize]),
    {
        T::field(self.as_container())
    }
}

/// An exclusive, non-owning view of a handle of type `T`: it names a field by
/// address and mutably borrows the memory it lives in for `'a`, so no other
/// view of that memory can exist while it does. Its fields are public so
/// that callers can speak of the memory as it will be once the borrow ends
/// (`*final(b.heap)`).
pub struct BorrowBoxMut<'a, T: IntrusiveBase> {
    pub pointer: IntrusiveAlias,
    pub heap: &'a mut Heap<T::Container>,
    pub marker: PhantomData<&'a mut T>,
}

impl<'a, T: IntrusiveBase> BorrowBoxMut<'a, T> {
    /// The address of the field that the view names.
    pub open spec fn alias(&self) -> IntrusiveAlias {
        self.pointer
    }

    /// The borrowed memory, as it is now.
    pub open spec fn memory(&self) -> Heap<T::Container> {
        *self.heap
    }

    /// The address of the container that holds the viewed field.
    pub open spec fn container_addr(&self) -> int {
        self.alias().0 - T::spec_offset()
    }

    /// The viewed field names a field of a container that lives in the
    /// borrowed memory.
    pub open spec fn valid(&self) -> bool {
        &&& self.memory().wf()
        &&& self.alias().0 >= T::spec_offset()
        &&& self.memory()@.contains_key(self.container_addr() as usize)
    }

    /// An exclusive view of the same field as `source`, over `heap`.
    pub fn new(source: &T, heap: &'a mut Heap<T::Container>) -> (r: BorrowBoxMut<'a, T>)
        ensures
            r.alias() == source.alias(),
            r.memory() == *old(heap),
            *final(r.heap) == *final(heap),
    {
        BorrowBoxMut::new_from(*source.as_alias(), heap)
    }

    /// A view of the field at `pointer`, bound to the mutable borrow of
    /// `heap`.
    pub fn new_from(pointer: IntrusiveAlias, heap: &'a mut Heap<T::Container>) -> (r:
        BorrowBoxMut<'a, T>)
        ensures
            r.alias() == pointer,
            r.memory() == *old(heap),
            *final(r.heap) == *final(heap),
    {
        BorrowBoxMut { pointer, heap, marker: PhantomData }
    }

    /// The viewed field's address as an alias.
    pub fn as_alias(&self) -> (r: &IntrusiveAlias)
        ensures
            *r == self.alias(),
    {
        &self.pointer
    }

    /// The container that holds the viewed field.
    pub fn as_container(&self) -> (r: &T::Container)
        requires
            self.valid(),
        ensures
            *r == self.memory()@[self.container_addr() as usize],
    {
        let offset = T::offset();
        self.heap.get(self.pointer.0 - offset)
    }

    /// The viewed field.
    pub fn as_field(&self) -> (r: &T::Field)
        requires
            self.valid(),
        ensures
            *r == T::field_of(self.memory()@[self.container_addr() as usize]),
    {
        T::field(self.as_container())
    }

    /// Mutable access to the container that holds the viewed field; the rest
    /// of the memory stays as it was.
    pub fn as_container_mut(&mut self) -> (r: &mut T::Container)
        requires
            old(self).valid(),
        ensures
            *r == old(self).memory()@[old(self).container_addr() as usize],
            final(self).alias() == old(self).alias(),
            *final(final(self).heap) == *final(old(self).heap),
            final(self).memory().wf(),
            final(self).memory()@ == old(self).memory()@.insert(
                old(self).container_addr() as usize,
                *final(r),
            ),
    {
        let offset = T::offset();
        self.heap.get_mut(self.pointer.0 - offset)
    }

    /// Mutable access to the viewed field; every other field of its
    /// container, and the rest of the memory, stay as they were.
    pub fn as_field_mut(&mut self) -> (r: &mut T::Field)
        requires
            old(self).valid(),
        ensures
            *r == T::field_of(old(self).memory()@[old(self).container_addr() as usize]),
            final(self).alias() == old(self).alias(),
            *final(final(self).heap) == *final(old(self).heap),
            final(self).memory().wf(),
            final(self).memory()@ == old(self).memory()@.insert(
                old(self).container_addr() as usize,
                T::with_field(
                    old(self).memory()@[old(self).container_addr() as usize],
                    *final(r),
                ),
            ),
    {
        T::field_mut(self.as_container_mut())
    }
}

} // verus!
