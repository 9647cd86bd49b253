//! Intrusive structure support.
//!
//! An intrusive structure is a general-purpose structure embedded in a
//! containing structure, such as a link that lets the containers be
//! organised in a list. A handle type names one field of one container type
//! by the field's address; from the field's offset within the container, the
//! `Intrusive` trait derives every translation between the container, the
//! field and the untyped `IntrusiveAlias`.
//!
//! Memory is modelled by `Heap`, an address space of containers: every read
//! or write through an address is checked against what lives there.
//! Ownership of a value is an `OwnBox` (consumed exactly once), and
//! `BorrowBox` / `BorrowBoxMut` are views bound to a borrow of the memory.
//! Offsets follow the sequential layout computed by `layout::field_offset`.
pub mod alias;
pub mod borrow;
pub mod heap;
pub mod intrusive;
pub mod laws;
pub mod layout;
pub mod own_box;
pub mod trio;

pub use alias::IntrusiveAlias;
pub use borrow::{BorrowBox, BorrowBoxMut};
pub use heap::Heap;
pub use intrusive::{Intrusive, IntrusiveBase};
pub use layout::{field_offset, FieldShape};
pub use own_box::OwnBox;
pub use trio::{trio_offset, Trio, TrioFirst, TrioSecond, TrioThird};
