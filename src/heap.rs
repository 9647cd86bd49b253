use vstd::prelude::*;

verus! {

/// An address space of values of one type: slot `i` lives at address
/// `base + i * stride`. It stands for the memory that handles point into, so
/// that every read or write through an address is checked against what lives
/// there.
pub struct Heap<C> {
    base: usize,
    stride: usize,
    slots: Vec<Option<C>>,
}

impl<C> Heap<C> {
    /// Distance between the addresses of neighbouring slots.
    pub closed spec fn spec_stride(&self) -> usize {
        self.stride
    }

    /// Address of the first slot.
    pub closed spec fn spec_base(&self) -> usize {
        self.base
    }

    /// Address of slot `i`.
    pub open spec fn slot_address(&self, i: int) -> int {
        self.spec_base() + i * self.spec_stride()
    }

    /// Number of slots handed out so far, live or released.
    pub closed spec fn spec_slot_count(&self) -> nat {
        self.slots@.len()
    }

    /// Address that the next allocation will receive.
    pub open spec fn next_address(&self) -> int {
        self.slot_address(self.spec_slot_count() as int)
    }

    spec fn slot_index(&self, addr: usize) -> int {
        (addr - self.base) / (self.stride as int)
    }

    spec fn is_live(&self, addr: usize) -> bool {
        &&& self.base <= addr
        &&& (addr - self.base) % (self.stride as int) == 0
        &&& self.slot_index(addr) < self.slots@.len()
        &&& self.slots@[self.slot_index(addr)] is Some
    }

    /// The live values, by address.
    pub closed spec fn view(&self) -> Map<usize, C> {
        Map::new(|a: usize| self.is_live(a), |a: usize| self.slots@[self.slot_index(a)]->Some_0)
    }

    /// The stride is nonzero and every slot handed out has an address.
    pub closed spec fn wf(&self) -> bool {
        &&& self.stride > 0
        &&& self.slots@.len() > 0 ==> self.slot_address(self.slots@.len() - 1) <= usize::MAX
    }

    /// Every live value lives at the address of a slot handed out so far.
    pub proof fn lemma_live_addresses(&self, addr: usize)
        requires
            self.wf(),
            self@.contains_key(addr),
        ensures
            addr < self.next_address(),
            exists|i: int| 0 <= i < self.spec_slot_count() && self.slot_address(i) == addr,
    {
        let i = self.slot_index(addr);
        let d = addr - self.base;
        let s = self.stride as int;
        vstd::arithmetic::div_mod::lemma_fundamental_div_mod(d, s);
        assert(self.slot_address(i) == addr);
        let n = self.slots@.len() as int;
        assert(i * s + s <= n * s) by (nonlinear_arith)
            requires
                i < n,
                s > 0,
        ;
        assert(self.slot_address(n) == self.base + n * s);
    }

    /// An empty address space whose first slot is at `base`, with slots
    /// `stride` bytes apart.
    pub fn new(base: usize, stride: usize) -> (r: Heap<C>)
        requires
            stride > 0,
        ensures
            r.wf(),
            r@ == Map::<usize, C>::empty(),
            r.spec_base() == base,
            r.spec_stride() == stride,
            r.spec_slot_count() == 0,
    {
        let r = Heap { base, stride, slots: Vec::new() };
        assert(r@ =~= Map::<usize, C>::empty());
        r
    }

    /// Whether a value lives at `addr`.
    pub fn holds(&self, addr: usize) -> (r: bool)
        requires
            self.wf(),
        ensures
            r == self@.contains_key(addr),
    {
        if addr < self.base {
            return false;
        }
        let d = addr - self.base;
        if d % self.stride != 0 {
            return false;
        }
        let i = d / self.stride;
        i < self.slots.len() && self.slots[i].is_some()
    }

    /// The value that lives at `addr`.
    pub fn get(&self, addr: usize) -> (r: &C)
        requires
            self.wf(),
            self@.contains_key(addr),
        ensures
            *r == self@[addr],
    {
        let i = (addr - self.base) / self.stride;
        self.slots[i].as_ref().unwrap()
    }

    /// Mutable access to the value that lives at `addr`; the values at other
    /// addresses stay as they were.
    pub fn get_mut(&mut self, addr: usize) -> (r: &mut C)
        requires
            old(self).wf(),
            old(self)@.contains_key(addr),
        ensures
            *r == old(self)@[addr],
            final(self).wf(),
            final(self)@ == old(self)@.insert(addr, *final(r)),
            final(self).spec_base() == old(self).spec_base(),
            final(self).spec_stride() == old(self).spec_stride(),
            final(self).spec_slot_count() == old(self).spec_slot_count(),
    {
        let i = (addr - self.base) / self.stride;
        proof {
            self.lemma_slot_unique(addr);
        }
        match &mut self.slots[i] {
            Some(c) => c,
            None => vstd::pervasive::unreached(),
        }
    }

    /// No other address names the slot that `addr` names.
    proof fn lemma_slot_unique(&self, addr: usize)
        requires
            self.wf(),
            self.base <= addr,
            (addr - self.base) % (self.stride as int) == 0,
        ensures
            forall|b: usize|
                self.base <= b && (b - self.base) % (self.stride as int) == 0 && b != addr
                    ==> #[trigger] self.slot_index(b) != self.slot_index(addr),
    {
        assert forall|b: usize|
            self.base <= b && (b - self.base) % (self.stride as int) == 0 && b != addr
                implies #[trigger] self.slot_index(b) != self.slot_index(addr) by {
            let s = self.stride as int;
            vstd::arithmetic::div_mod::lemma_fundamental_div_mod(addr - self.base, s);
            vstd::arithmetic::div_mod::lemma_fundamental_div_mod(b - self.base, s);
        }
    }

    /// Places `value` at the next free address, if the address space has one.
    pub(crate) fn place(&mut self, value: C) -> (r: Option<usize>)
        requires
            old(self).wf(),
        ensures
            final(self).wf(),
            r is Some <==> old(self).next_address() <= usize::MAX,
            r is Some ==> {
                &&& r->Some_0 == old(self).next_address()
                &&& !old(self)@.contains_key(r->Some_0)
                &&& final(self)@ == old(self)@.insert(r->Some_0, value)
            },
            r is None ==> final(self)@ == old(self)@,
    {
        let n = self.slots.len();
        let offset = match n.checked_mul(self.stride) {
            Some(o) => o,
            None => {
                proof {
                    assert(n * self.stride >= 0) by (nonlinear_arith);
                }
                return None;
            },
        };
        let addr = match self.base.checked_add(offset) {
            Some(a) => a,
            None => return None,
        };
        proof {
            if old(self)@.contains_key(addr) {
                self.lemma_live_addresses(addr);
            }
            let s = self.stride as int;
            vstd::arithmetic::div_mod::lemma_div_multiples_vanish(n as int, s);
            vstd::arithmetic::div_mod::lemma_mod_multiples_basic(n as int, s);
            assert(offset == n * s);
            assert(n * s == s * n) by (nonlinear_arith);
            assert(self.slot_index(addr) == n);
            self.lemma_slot_unique(addr);
        }
        let ghost before = *self;
        self.slots.push(Some(value));
        proof {
            assert(self@ =~= before@.insert(addr, value));
        }
        Some(addr)
    }

    /// Removes the value that lives at `addr` and hands it back; the address
    /// is never given out again.
    pub(crate) fn release(&mut self, addr: usize) -> (r: C)
        requires
            old(self).wf(),
            old(self)@.contains_key(addr),
        ensures
            final(self).wf(),
            r == old(self)@[addr],
            final(self)@ == old(self)@.remove(addr),
    {
        let i = (addr - self.base) / self.stride;
        proof {
            self.lemma_slot_unique(addr);
        }
        let ghost before = *self;
        let taken = self.slots[i].take();
        proof {
            assert(self@ =~= before@.remove(addr));
        }
        taken.unwrap()
    }
}

} // verus!
