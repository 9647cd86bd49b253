use vstd::prelude::*;

use crate::own_box::OwnBox;

verus! {

/// An untyped, address-sized value: the representation shared by every
/// handle type. Two aliases are equal exactly when their addresses are.
#[derive(PartialEq, Eq, Copy, Clone, Debug, Structural)]
pub struct IntrusiveAlias(pub usize);

impl IntrusiveAlias {
    /// Builds an alias from an address.
    pub fn new(addr: usize) -> (r: IntrusiveAlias)
        ensures
            r.0 == addr,
    {
        IntrusiveAlias(addr)
    }

    /// Builds an alias of the address at which an owned value lives.
    pub fn new_of<T>(owner: &OwnBox<T>) -> (r: IntrusiveAlias)
        ensures
            r.0 == owner.addr(),
    {
        IntrusiveAlias::new(owner.get_address())
    }

    /// Returns the address the alias was built from.
    pub fn get_address(&self) -> (r: usize)
        ensures
            r == self.0,
    {
        self.0
    }
}

} // verus!
