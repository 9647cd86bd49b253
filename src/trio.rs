use vstd::prelude::*;

use crate::alias::IntrusiveAlias;
use crate::intrusive::IntrusiveBase;
use crate::layout::{field_offset, lemma_uniform_offsets, shapes_wf, spec_field_offset, FieldShape};
use core::marker::PhantomData;
use vstd::layout::{align_of, size_of};

verus! {

broadcast use vstd::layout::align_properties, vstd::layout::align_nonzero;

/// A container of three fields of one type, laid out in order.
#[derive(Debug)]
pub struct Trio<V> {
    pub first: V,
    pub second: V,
    pub third: V,
}

/// The shape of each field of a `Trio<V>`.
pub open spec fn trio_shape<V>() -> FieldShape {
    FieldShape { size: size_of::<V>() as usize, align: align_of::<V>() as usize }
}

/// The shapes of the fields of a `Trio<V>`, in order.
pub open spec fn trio_shapes<V>() -> Seq<FieldShape> {
    seq![trio_shape::<V>(), trio_shape::<V>(), trio_shape::<V>()]
}

/// Offset of field `index` of a `Trio<V>`: the fields sit back to back, so
/// field `index` starts `index` field sizes in.
pub fn trio_offset<V>(index: usize) -> (r: usize)
    requires
        index < 3,
    ensures
        r == spec_field_offset(trio_shapes::<V>(), index as nat),
        r == index * size_of::<V>(),
{
    let size = core::mem::size_of::<V>();
    let align = core::mem::align_of::<V>();
    vstd::layout::layout_for_type_is_valid::<V>();
    let shape = FieldShape { size, align };
    let shapes: Vec<FieldShape> = vec![shape, shape, shape];
    proof {
        assert(shapes@ =~= trio_shapes::<V>());
        assert(shapes_wf(shapes@));
        lemma_uniform_offsets(shapes@, index as nat);
        assert(index * size <= 2 * size) by (nonlinear_arith)
            requires
                index < 3,
        ;
        assert(2 * size <= usize::MAX);
    }
    field_offset(&shapes, index)
}

/// The fields of a `Trio<V>` start at 0, one field size and two field
/// sizes in.
pub proof fn lemma_trio_offsets<V>()
    requires
        0 < size_of::<V>(),
        2 * size_of::<V>() <= usize::MAX,
    ensures
        TrioFirst::<V>::spec_offset() == 0,
        TrioSecond::<V>::spec_offset() == size_of::<V>(),
        TrioThird::<V>::spec_offset() == 2 * size_of::<V>(),
{
    let shapes = trio_shapes::<V>();
    let s = size_of::<V>() as int;
    let a = align_of::<V>() as int;
    assert(a <= s) by {
        vstd::arithmetic::div_mod::lemma_fundamental_div_mod(s, a);
        assert(a <= s) by (nonlinear_arith)
            requires
                s == a * (s / a) + s % a,
                s % a == 0,
                s > 0,
                a > 0,
        ;
    }
    assert(shapes_wf(shapes));
    lemma_uniform_offsets(shapes, 0);
    lemma_uniform_offsets(shapes, 1);
    lemma_uniform_offsets(shapes, 2);
}

/// Handle for the `first` field of a `Trio<V>`.
#[derive(Debug)]
pub struct TrioFirst<V>(IntrusiveAlias, PhantomData<V>);

/// Handle for the `second` field of a `Trio<V>`.
#[derive(Debug)]
pub struct TrioSecond<V>(IntrusiveAlias, PhantomData<V>);

/// Handle for the `third` field of a `Trio<V>`.
#[derive(Debug)]
pub struct TrioThird<V>(IntrusiveAlias, PhantomData<V>);

impl<V> IntrusiveBase for TrioFirst<V> {
    type Container = Trio<V>;

    type Field = V;

    open spec fn spec_offset() -> usize {
        spec_field_offset(trio_shapes::<V>(), 0) as usize
    }

    closed spec fn alias(&self) -> IntrusiveAlias {
        self.0
    }

    closed spec fn spec_new(ia: IntrusiveAlias) -> Self {
        TrioFirst(ia, PhantomData)
    }

    open spec fn field_of(c: Trio<V>) -> V {
        c.first
    }

    open spec fn with_field(c: Trio<V>, f: V) -> Trio<V> {
        Trio { first: f, ..c }
    }

    proof fn lemma_same_representation(ia: IntrusiveAlias, h: Self) {
    }

    proof fn lemma_field_update(c: Trio<V>, f: V) {
    }

    fn offset() -> (r: usize) {
        trio_offset::<V>(0)
    }

    fn new(ia: IntrusiveAlias) -> (r: Self) {
        TrioFirst(ia, PhantomData)
    }

    fn as_alias(&self) -> (r: &IntrusiveAlias) {
        &self.0
    }

    fn as_alias_mut(&mut self) -> (r: &mut IntrusiveAlias) {
        &mut self.0
    }

    fn field(c: &Trio<V>) -> (r: &V) {
        &c.first
    }

    fn field_mut(c: &mut Trio<V>) -> (r: &mut V) {
        &mut c.first
    }
}

impl<V> IntrusiveBase for TrioSecond<V> {
    type Container = Trio<V>;

    type Field = V;

    open spec fn spec_offset() -> usize {
        spec_field_offset(trio_shapes::<V>(), 1) as usize
    }

    closed spec fn alias(&self) -> IntrusiveAlias {
        self.0
    }

    closed spec fn spec_new(ia: IntrusiveAlias) -> Self {
        TrioSecond(ia, PhantomData)
    }

    open spec fn field_of(c: Trio<V>) -> V {
        c.second
    }

    open spec fn with_field(c: Trio<V>, f: V) -> Trio<V> {
        Trio { second: f, ..c }
    }

    proof fn lemma_same_representation(ia: IntrusiveAlias, h: Self) {
    }

    proof fn lemma_field_update(c: Trio<V>, f: V) {
    }

    fn offset() -> (r: usize) {
        trio_offset::<V>(1)
    }

    fn new(ia: IntrusiveAlias) -> (r: Self) {
        TrioSecond(ia, PhantomData)
    }

    fn as_alias(&self) -> (r: &IntrusiveAlias) {
        &self.0
    }

    fn as_alias_mut(&mut self) -> (r: &mut IntrusiveAlias) {
        &mut self.0
    }

    fn field(c: &Trio<V>) -> (r: &V) {
        &c.second
    }

    fn field_mut(c: &mut Trio<V>) -> (r: &mut V) {
        &mut c.second
    }
}

impl<V> IntrusiveBase for TrioThird<V> {
    type Container = Trio<V>;

    type Field = V;

    open spec fn spec_offset() -> usize {
        spec_field_offset(trio_shapes::<V>(), 2) as usize
    }

    closed spec fn alias(&self) -> IntrusiveAlias {
        self.0
    }

    closed spec fn spec_new(ia: IntrusiveAlias) -> Self {
        TrioThird(ia, PhantomData)
    }

    open spec fn field_of(c: Trio<V>) -> V {
        c.third
    }

    open spec fn with_field(c: Trio<V>, f: V) -> Trio<V> {
        Trio { third: f, ..c }
    }

    proof fn lemma_same_representation(ia: IntrusiveAlias, h: Self) {
    }

    proof fn lemma_field_update(c: Trio<V>, f: V) {
    }

    fn offset() -> (r: usize) {
        trio_offset::<V>(2)
    }

    fn new(ia: IntrusiveAlias) -> (r: Self) {
        TrioThird(ia, PhantomData)
    }

    fn as_alias(&self) -> (r: &IntrusiveAlias) {
        &self.0
    }

    fn as_alias_mut(&mut self) -> (r: &mut IntrusiveAlias) {
        &mut self.0
    }

    fn field(c: &Trio<V>) -> (r: &V) {
        &c.third
    }

    fn field_mut(c: &mut Trio<V>) -> (r: &mut V) {
        &mut c.third
    }
}

} // verus!
