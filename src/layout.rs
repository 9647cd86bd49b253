use vstd::prelude::*;

verus! {

/// Size and alignment, in bytes, of one field of an aggregate.
#[derive(PartialEq, Eq, Copy, Clone, Debug, Structural)]
pub struct FieldShape {
    pub size: usize,
    pub align: usize,
}

/// Every field has a nonzero alignment.
pub open spec fn shapes_wf(shapes: Seq<FieldShape>) -> bool {
    forall|i: int| 0 <= i < shapes.len() ==> #[trigger] shapes[i].align > 0
}

/// The least multiple of `a` that is not below `n`.
pub open spec fn align_up(n: int, a: int) -> int {
    if n % a == 0 {
        n
    } else {
        n + (a - n % a)
    }
}

/// Where the first `k` fields end when the fields are placed in order, each at
/// the first offset that suits its alignment.
pub open spec fn prefix_end(shapes: Seq<FieldShape>, k: nat) -> int
    decreases k,
{
    if k == 0 {
        0
    } else {
        align_up(prefix_end(shapes, (k - 1) as nat), shapes[k - 1].align as int) + shapes[k
            - 1].size
    }
}

/// Byte offset of field `i` within the aggregate.
pub open spec fn spec_field_offset(shapes: Seq<FieldShape>, i: nat) -> int {
    align_up(prefix_end(shapes, i), shapes[i as int].align as int)
}

proof fn lemma_align_up(n: int, a: int)
    requires
        n >= 0,
        a > 0,
    ensures
        n <= align_up(n, a) < n + a,
        align_up(n, a) % a == 0,
        n % a == 0 ==> align_up(n, a) == n,
{
    if n % a != 0 {
        assert((n + (a - n % a)) % a == 0) by {
            vstd::arithmetic::div_mod::lemma_fundamental_div_mod(n, a);
            vstd::arithmetic::div_mod::lemma_mod_multiples_basic(n / a + 1, a);
            assert(n + (a - n % a) == (n / a + 1) * a) by (nonlinear_arith)
                requires
                    n == a * (n / a) + n % a,
            ;
        }
    }
}

/// The fields end no earlier as more of them are placed.
proof fn lemma_prefix_end_monotone(shapes: Seq<FieldShape>, j: nat, k: nat)
    requires
        shapes_wf(shapes),
        j <= k <= shapes.len(),
    ensures
        0 <= prefix_end(shapes, j) <= prefix_end(shapes, k),
    decreases k,
{
    if k > 0 {
        lemma_prefix_end_monotone(shapes, 0, (k - 1) as nat);
        lemma_align_up(prefix_end(shapes, (k - 1) as nat), shapes[k - 1].align as int);
        if j < k {
            lemma_prefix_end_monotone(shapes, j, (k - 1) as nat);
        }
    }
}

/// Each field starts at a multiple of its alignment, after every byte of the
/// fields placed before it.
pub proof fn lemma_field_placement(shapes: Seq<FieldShape>, i: nat)
    requires
        shapes_wf(shapes),
        i < shapes.len(),
    ensures
        spec_field_offset(shapes, i) % (shapes[i as int].align as int) == 0,
        prefix_end(shapes, i) <= spec_field_offset(shapes, i),
        spec_field_offset(shapes, i) + shapes[i as int].size == prefix_end(shapes, i + 1),
{
    lemma_prefix_end_monotone(shapes, 0, i);
    lemma_align_up(prefix_end(shapes, i), shapes[i as int].align as int);
}

/// Two distinct fields never share a byte: the earlier one ends before the
/// later one starts.
pub proof fn lemma_fields_disjoint(shapes: Seq<FieldShape>, i: nat, j: nat)
    requires
        shapes_wf(shapes),
        i < j < shapes.len(),
    ensures
        spec_field_offset(shapes, i) + shapes[i as int].size <= spec_field_offset(shapes, j),
{
    lemma_field_placement(shapes, i);
    lemma_field_placement(shapes, j);
    lemma_prefix_end_monotone(shapes, i + 1, j);
}

/// Fields that all share one shape, whose size is a multiple of its
/// alignment, sit back to back with no padding.
pub proof fn lemma_uniform_offsets(shapes: Seq<FieldShape>, i: nat)
    requires
        shapes_wf(shapes),
        i < shapes.len(),
        forall|k: int| 0 <= k < shapes.len() ==> #[trigger] shapes[k] == shapes[0],
        shapes[0].size % shapes[0].align == 0,
    ensures
        spec_field_offset(shapes, i) == i * shapes[0].size,
{
    lemma_uniform_prefix_end(shapes, i);
    let s = shapes[0].size as int;
    let a = shapes[0].align as int;
    assert((i * s) % a == 0) by {
        vstd::arithmetic::div_mod::lemma_fundamental_div_mod(s, a);
        vstd::arithmetic::div_mod::lemma_mod_multiples_basic(i * (s / a), a);
        assert(i * s == (i * (s / a)) * a) by (nonlinear_arith)
            requires
                s == a * (s / a) + s % a,
                s % a == 0,
        ;
    }
    assert(i * s >= 0) by (nonlinear_arith)
        requires
            s >= 0,
    ;
    lemma_align_up(i * s, a);
}

proof fn lemma_uniform_prefix_end(shapes: Seq<FieldShape>, k: nat)
    requires
        shapes_wf(shapes),
        k <= shapes.len(),
        shapes.len() > 0,
        forall|m: int| 0 <= m < shapes.len() ==> #[trigger] shapes[m] == shapes[0],
        shapes[0].size % shapes[0].align == 0,
    ensures
        prefix_end(shapes, k) == k * shapes[0].size,
    decreases k,
{
    if k > 0 {
        let s = shapes[0].size as int;
        let a = shapes[0].align as int;
        lemma_uniform_prefix_end(shapes, (k - 1) as nat);
        assert(shapes[k - 1] == shapes[0]);
        let n = (k - 1) * s;
        assert(n % a == 0 && n >= 0) by {
            vstd::arithmetic::div_mod::lemma_fundamental_div_mod(s, a);
            vstd::arithmetic::div_mod::lemma_mod_multiples_basic((k - 1) * (s / a), a);
            assert(n == ((k - 1) * (s / a)) * a && n >= 0) by (nonlinear_arith)
                requires
                    s == a * (s / a) + s % a,
                    s % a == 0,
                    n == (k - 1) * s,
                    k >= 1,
                    s >= 0,
            ;
        }
        lemma_align_up(n, a);
        assert(align_up(prefix_end(shapes, (k - 1) as nat), a) == n);
        assert(n + s == k * s) by (nonlinear_arith)
            requires
                n == (k - 1) * s,
        ;
        assert(prefix_end(shapes, k) == align_up(prefix_end(shapes, (k - 1) as nat), a) + s);
    } else {
        assert(k * shapes[0].size == 0) by (nonlinear_arith)
            requires
                k == 0,
        ;
    }
}

/// Rounds `n` up to a multiple of `a`.
fn align_up_exec(n: usize, a: usize) -> (r: usize)
    requires
        a > 0,
        align_up(n as int, a as int) <= usize::MAX,
    ensures
        r == align_up(n as int, a as int),
{
    let rem = n % a;
    if rem == 0 {
        n
    } else {
        n + (a - rem)
    }
}

/// Computes the byte offset of field `index` of an aggregate whose fields,
/// in order, have the given shapes. The offset must fit in an address.
pub fn field_offset(shapes: &Vec<FieldShape>, index: usize) -> (r: usize)
    requires
        shapes_wf(shapes@),
        index < shapes@.len(),
        spec_field_offset(shapes@, index as nat) <= usize::MAX,
    ensures
        r == spec_field_offset(shapes@, index as nat),
{
    let mut end: usize = 0;
    let mut k: usize = 0;
    while k < index
        invariant
            shapes_wf(shapes@),
            index < shapes@.len(),
            spec_field_offset(shapes@, index as nat) <= usize::MAX,
            k <= index,
            end == prefix_end(shapes@, k as nat),
        decreases index - k,
    {
        let shape = shapes[k];
        proof {
            lemma_field_placement(shapes@, k as nat);
            lemma_prefix_end_monotone(shapes@, (k + 1) as nat, index as nat);
            lemma_field_placement(shapes@, index as nat);
        }
        let start = align_up_exec(end, shape.align);
        end = start + shape.size;
        k = k + 1;
    }
    proof {
        lemma_field_placement(shapes@, index as nat);
    }
    align_up_exec(end, shapes[index].align)
}

} // verus!
