use vstd::prelude::*;

use crate::alias::IntrusiveAlias;
use crate::borrow::{BorrowBox, BorrowBoxMut};
use crate::heap::Heap;
use crate::own_box::OwnBox;

verus! {

/// Address of the field of a container that starts at `container`.
pub open spec fn field_addr_of<T: IntrusiveBase>(container: int) -> int {
    container + T::spec_offset()
}

/// Address of the container whose field starts at `field`.
pub open spec fn container_addr_of<T: IntrusiveBase>(field: int) -> int {
    field - T::spec_offset()
}

/// The minimal contract of a handle type for one field of one container
/// type. A handle has the same representation as an `IntrusiveAlias`: it is
/// the address of the field and nothing else. From this contract `Intrusive`
/// derives every translation between container, field and alias.
pub trait IntrusiveBase: Sized {
    /// Type of the containing structure.
    type Container;

    /// Type of the intrusive field within the container.
    type Field;

    /// Byte offset of the field within the container; the same for every
    /// container of the type.
    spec fn spec_offset() -> usize;

    /// The address that the handle holds.
    spec fn alias(&self) -> IntrusiveAlias;

    /// The handle that holds `ia`.
    spec fn spec_new(ia: IntrusiveAlias) -> Self;

    /// The field's value within a container's value.
    spec fn field_of(c: Self::Container) -> Self::Field;

    /// The container's value with the field replaced by `f` and every other
    /// field kept.
    spec fn with_field(c: Self::Container, f: Self::Field) -> Self::Container;

    /// A handle is its address: building one from an alias keeps the
    /// alias, and rebuilding a handle from its alias gives it back.
    proof fn lemma_same_representation(ia: IntrusiveAlias, h: Self)
        ensures
            Self::spec_new(ia).alias() == ia,
            Self::spec_new(h.alias()) == h,
    ;

    /// Writing the field, then reading it, gives what was written; writing
    /// back what was read changes nothing.
    proof fn lemma_field_update(c: Self::Container, f: Self::Field)
        ensures
            Self::field_of(Self::with_field(c, f)) == f,
            Self::with_field(c, Self::field_of(c)) == c,
    ;

    /// Returns the offset of the field within the container.
    fn offset() -> (r: usize)
        ensures
            r == Self::spec_offset(),
    ;

    /// Builds the handle that holds `ia`. The caller vouches that `ia` names
    /// such a field and that no other use of it overlaps the handle's.
    fn new(ia: IntrusiveAlias) -> (r: Self)
        ensures
            r == Self::spec_new(ia),
    ;

    /// The handle as an alias.
    fn as_alias(&self) -> (r: &IntrusiveAlias)
        ensures
            *r == self.alias(),
    ;

    /// The handle as a mutable alias: what is written through it is the
    /// handle's new address.
    fn as_alias_mut(&mut self) -> (r: &mut IntrusiveAlias)
        ensures
            *r == old(self).alias(),
            *final(self) == Self::spec_new(*final(r)),
    ;

    /// The field within a container.
    fn field(c: &Self::Container) -> (r: &Self::Field)
        ensures
            *r == Self::field_of(*c),
    ;

    /// Mutable access to the field within a container.
    fn field_mut(c: &mut Self::Container) -> (r: &mut Self::Field)
        ensures
            *r == Self::field_of(*old(c)),
            *final(c) == Self::with_field(*old(c), *final(r)),
    ;
}

/// Translations between a container, its intrusive field and the alias,
/// derived once for every `IntrusiveBase` type.
pub trait Intrusive: IntrusiveBase {
    /// The handle that holds `ia`.
    fn from_alias(ia: IntrusiveAlias) -> (r: Self)
        ensures
            r == Self::spec_new(ia),
            r.alias() == ia,
    ;

    /// The alias that the handle holds.
    fn into_alias(self) -> (r: IntrusiveAlias)
        ensures
            r == self.alias(),
    ;

    /// Ownership of a container becomes ownership of the handle for its
    /// field, which sits `offset()` bytes further on. Inverse of
    /// `into_container`.
    fn from_container(c: OwnBox<Self::Container>) -> (r: Self)
        requires
            field_addr_of::<Self>(c.addr() as int) <= usize::MAX,
        ensures
            r.alias().0 == field_addr_of::<Self>(c.addr() as int),
    ;

    /// Ownership of the handle becomes ownership of its container, which
    /// starts `offset()` bytes before the field. Inverse of
    /// `from_container`.
    fn into_container(self) -> (r: OwnBox<Self::Container>)
        requires
            self.alias().0 >= Self::spec_offset(),
        ensures
            r.addr() == container_addr_of::<Self>(self.alias().0 as int),
    ;

    /// A shared view of the field of the container that lives at `at`.
    fn of_container<'a>(heap: &'a Heap<Self::Container>, at: usize) -> (r: BorrowBox<'a, Self>)
        requires
            heap.wf(),
            heap@.contains_key(at),
            field_addr_of::<Self>(at as int) <= usize::MAX,
        ensures
            r.alias().0 == field_addr_of::<Self>(at as int),
            r.memory() == *heap,
            r.container_addr() == at,
            r.valid(),
    ;

    /// An exclusive view of the field of the container that lives at `at`.
    fn of_container_mut<'a>(heap: &'a mut Heap<Self::Container>, at: usize) -> (r: BorrowBoxMut<
        'a,
        Self,
    >)
        requires
            old(heap).wf(),
            old(heap)@.contains_key(at),
            field_addr_of::<Self>(at as int) <= usize::MAX,
        ensures
            r.alias().0 == field_addr_of::<Self>(at as int),
            r.memory() == *old(heap),
            *final(r.heap) == *final(heap),
            r.container_addr() == at,
            r.valid(),
    ;

    /// The container that holds the handle's field.
    fn as_container<'h>(&self, heap: &'h Heap<Self::Container>) -> (r: &'h Self::Container)
        requires
            heap.wf(),
            self.alias().0 >= Self::spec_offset(),
            heap@.contains_key(container_addr_of::<Self>(self.alias().0 as int) as usize),
        ensures
            *r == heap@[container_addr_of::<Self>(self.alias().0 as int) as usize],
    ;

    /// Mutable access to the container that holds the handle's field; the
    /// rest of `heap` stays as it was.
    fn as_container_mut<'h>(&self, heap: &'h mut Heap<Self::Container>) -> (r:
        &'h mut Self::Container)
        requires
            old(heap).wf(),
            self.alias().0 >= Self::spec_offset(),
            old(heap)@.contains_key(container_addr_of::<Self>(self.alias().0 as int) as usize),
        ensures
            *r == old(heap)@[container_addr_of::<Self>(self.alias().0 as int) as usize],
            final(heap).wf(),
            final(heap)@ == old(heap)@.insert(
                container_addr_of::<Self>(self.alias().0 as int) as usize,
                *final(r),
            ),
    ;

    /// Ownership of a field becomes ownership of the handle, at the same
    /// address. Inverse of `into_field`.
    fn from_field(c: OwnBox<Self::Field>) -> (r: Self)
        ensures
            r.alias().0 == c.addr(),
    ;

    /// Ownership of the handle becomes ownership of its field alone, at the
    /// same address. Inverse of `from_field`.
    fn into_field(self) -> (r: OwnBox<Self::Field>)
        ensures
            r.addr() == self.alias().0,
    ;

    /// A shared view of the field at `field`, which belongs to a container
    /// that lives in `heap`.
    fn of_field<'a>(heap: &'a Heap<Self::Container>, field: usize) -> (r: BorrowBox<'a, Self>)
        requires
            heap.wf(),
            field >= Self::spec_offset(),
            heap@.contains_key(container_addr_of::<Self>(field as int) as usize),
        ensures
            r.alias().0 == field,
            r.memory() == *heap,
            r.valid(),
    ;

    /// An exclusive view of the field at `field`, which belongs to a
    /// container that lives in `heap`.
    fn of_field_mut<'a>(heap: &'a mut Heap<Self::Container>, field: usize) -> (r: BorrowBoxMut<
        'a,
        Self,
    >)
        requires
            old(heap).wf(),
            field >= Self::spec_offset(),
            old(heap)@.contains_key(container_addr_of::<Self>(field as int) as usize),
        ensures
            r.alias().0 == field,
            r.memory() == *old(heap),
            *final(r.heap) == *final(heap),
            r.valid(),
    ;

    /// The field that the handle names.
    fn as_field<'h>(&self, heap: &'h Heap<Self::Container>) -> (r: &'h Self::Field)
        requires
            heap.wf(),
            self.alias().0 >= Self::spec_offset(),
            heap@.contains_key(container_addr_of::<Self>(self.alias().0 as int) as usize),
        ensures
            *r == Self::field_of(
                heap@[container_addr_of::<Self>(self.alias().0 as int) as usize],
            ),
    ;

    /// Mutable access to the field that the handle names; every other field
    /// of its container, and the rest of `heap`, stay as they were.
    fn as_field_mut<'h>(&self, heap: &'h mut Heap<Self::Container>) -> (r: &'h mut Self::Field)
        requires
            old(heap).wf(),
            self.alias().0 >= Self::spec_offset(),
            old(heap)@.contains_key(container_addr_of::<Self>(self.alias().0 as int) as usize),
        ensures
            *r == Self::field_of(
                old(heap)@[container_addr_of::<Self>(self.alias().0 as int) as usize],
            ),
            final(heap).wf(),
            final(heap)@ == old(heap)@.insert(
                container_addr_of::<Self>(self.alias().0 as int) as usize,
                Self::with_field(
                    old(heap)@[container_addr_of::<Self>(self.alias().0 as int) as usize],
                    *final(r),
                ),
            ),
    ;
}

impl<T: IntrusiveBase> Intrusive for T {
    fn from_alias(ia: IntrusiveAlias) -> (r: T) {
        proof {
            T::lemma_same_representation(ia, T::spec_new(ia));
        }
        T::new(ia)
    }

    fn into_alias(self) -> (r: IntrusiveAlias) {
        *self.as_alias()
    }

    fn from_container(c: OwnBox<T::Container>) -> (r: T) {
        let addr = c.into_alias().get_address() + T::offset();
        T::from_alias(IntrusiveAlias::new(addr))
    }

    fn into_container(self) -> (r: OwnBox<T::Container>) {
        let addr = self.as_alias().get_address() - T::offset();
        OwnBox::from_alias(IntrusiveAlias::new(addr))
    }

    fn of_container<'a>(heap: &'a Heap<T::Container>, at: usize) -> (r: BorrowBox<'a, T>) {
        let field = at + T::offset();
        BorrowBox::new_from(IntrusiveAlias::new(field), heap)
    }

    fn of_container_mut<'a>(heap: &'a mut Heap<T::Container>, at: usize) -> (r: BorrowBoxMut<
        'a,
        T,
    >) {
        let field = at + T::offset();
        BorrowBoxMut::new_from(IntrusiveAlias::new(field), heap)
    }

    fn as_container<'h>(&self, heap: &'h Heap<T::Container>) -> (r: &'h T::Container) {
        heap.get(self.as_alias().get_address() - T::offset())
    }

    fn as_container_mut<'h>(&self, heap: &'h mut Heap<T::Container>) -> (r:
        &'h mut T::Container) {
        heap.get_mut(self.as_alias().get_address() - T::offset())
    }

    fn from_field(c: OwnBox<T::Field>) -> (r: T) {
        T::from_alias(c.into_alias())
    }

    fn into_field(self) -> (r: OwnBox<T::Field>) {
        OwnBox::from_alias(self.into_alias())
    }

    fn of_field<'a>(heap: &'a Heap<T::Container>, field: usize) -> (r: BorrowBox<'a, T>) {
        BorrowBox::new_from(IntrusiveAlias::new(field), heap)
    }

    fn of_field_mut<'a>(heap: &'a mut Heap<T::Container>, field: usize) -> (r: BorrowBoxMut<
        'a,
        T,
    >) {
        BorrowBoxMut::new_from(IntrusiveAlias::new(field), heap)
    }

    fn as_field<'h>(&self, heap: &'h Heap<T::Container>) -> (r: &'h T::Field) {
        T::field(self.as_container(heap))
    }

    fn as_field_mut<'h>(&self, heap: &'h mut Heap<T::Container>) -> (r: &'h mut T::Field) {
        T::field_mut(self.as_container_mut(heap))
    }
}

} // verus!
