use vstd::prelude::*;

use crate::alias::IntrusiveAlias;
use crate::intrusive::{container_addr_of, field_addr_of, IntrusiveBase};
use crate::own_box::OwnBox;
use crate::trio::{Trio, TrioFirst, TrioSecond, TrioThird};

verus! {

/// Translating an owned container into the handle for one of its fields
/// (`from_container`) and back (`into_container`) gives the container's
/// address exactly.
pub proof fn lemma_container_round_trip<T: IntrusiveBase>(
    c: OwnBox<T::Container>,
    h: T,
    back: OwnBox<T::Container>,
)
    requires
        field_addr_of::<T>(c.addr() as int) <= usize::MAX,
        h.alias().0 == field_addr_of::<T>(c.addr() as int),
        back.addr() == container_addr_of::<T>(h.alias().0 as int),
    ensures
        back.addr() == c.addr(),
{
}

/// Translating an owned container into a handle (`from_container`),
/// releasing the handle as ownership of the field alone (`into_field`),
/// taking the field back as a handle (`from_field`) and translating that
/// handle into its container (`into_container`) gives the original
/// container's address exactly.
pub proof fn lemma_field_round_trip<T: IntrusiveBase>(
    c: OwnBox<T::Container>,
    h: T,
    f: OwnBox<T::Field>,
    h2: T,
    back: OwnBox<T::Container>,
)
    requires
        field_addr_of::<T>(c.addr() as int) <= usize::MAX,
        h.alias().0 == field_addr_of::<T>(c.addr() as int),
        f.addr() == h.alias().0,
        h2.alias().0 == f.addr(),
        back.addr() == container_addr_of::<T>(h2.alias().0 as int),
    ensures
        back.addr() == c.addr(),
{
}

/// Writing a field through a handle (`as_field_mut`) and then reading that
/// field from the container gives what was written; every other container
/// in the memory keeps its value.
pub proof fn lemma_field_write<T: IntrusiveBase>(
    before: Map<usize, T::Container>,
    at: usize,
    v: T::Field,
)
    requires
        before.contains_key(at),
    ensures
        ({
            let after = before.insert(at, T::with_field(before[at], v));
            &&& after.dom() == before.dom()
            &&& T::field_of(after[at]) == v
            &&& forall|b: usize| #[trigger] after.contains_key(b) && b != at ==> after[b] == before[b]
        }),
{
    T::lemma_field_update(before[at], v);
    assert(before.insert(at, T::with_field(before[at], v)).dom() =~= before.dom());
}

/// Writing one field of a `Trio` through its handle leaves the other two
/// fields as they were.
pub proof fn lemma_trio_write_keeps_other_fields<V>(c: Trio<V>, v: V)
    ensures
        TrioFirst::<V>::with_field(c, v).second == c.second,
        TrioFirst::<V>::with_field(c, v).third == c.third,
        TrioSecond::<V>::with_field(c, v).first == c.first,
        TrioSecond::<V>::with_field(c, v).third == c.third,
        TrioThird::<V>::with_field(c, v).first == c.first,
        TrioThird::<V>::with_field(c, v).second == c.second,
{
}

/// A handle and an alias convert into each other without change: the
/// alias taken from a handle built from `ia` (`from_alias`, then
/// `into_alias`) is `ia`, and the handle built from the alias of `h` is
/// `h`. An alias gives back the address it was built from.
pub proof fn lemma_alias_round_trip<T: IntrusiveBase>(ia: IntrusiveAlias, h: T)
    ensures
        T::spec_new(ia).alias() == ia,
        T::spec_new(h.alias()) == h,
        IntrusiveAlias(ia.0).0 == ia.0,
{
    T::lemma_same_representation(ia, h);
}

} // verus!
