//! Generic circular ring buffer for DMA descriptors.
//!
//! The ring wraps a fixed-size array of descriptors and maintains a
//! current-index that advances with wraparound. This is the core
//! data structure used by the DMA engine to walk TX and RX rings.

use vstd::prelude::*;

use vstd::std_specs::iter::IteratorSpec;

verus! {

/// Address of a value in memory.
///
/// Calls `core::ptr::from_ref` and converts the pointer to its address.
/// Nothing is promised of the result: it is wherever the value lives.
#[verifier::external_body]
pub(crate) fn address_of<T>(r: &T) -> usize {
    core::ptr::from_ref(r) as usize
}

/// Address of the first element of a slice.
///
/// Calls `<[T]>::as_ptr` and converts the pointer to its address. The
/// data pointer of a slice reference is never null and is aligned for
/// `T`, even for an empty slice (the Rust reference's validity rules for
/// references, restated by `core::slice::from_raw_parts`). Which
/// address it is depends on where the data lives and is not stated.
#[verifier::external_body]
pub(crate) fn slice_address<T>(s: &[T]) -> (r: usize)
    ensures
        r != 0,
        r as nat % vstd::layout::align_of::<T>() == 0,
{
    s.as_ptr() as usize
}

/// Advancing a ring by its length brings the current index back to
/// where it was: `advance_by(N)` is a full turn.
pub proof fn lemma_full_turn(cur: int, n: int)
    requires
        0 <= cur < n,
    ensures
        (cur + n) % n == cur,
{
    vstd::arithmetic::div_mod::lemma_mod_add_multiples_vanish(cur, n);
    vstd::arithmetic::div_mod::lemma_small_mod(cur as nat, n as nat);
}

/// The current index after `k` calls of [`DescriptorRing::advance`]
/// from index `cur` in a ring of `n` descriptors, one step at a time.
pub open spec fn advanced(cur: int, k: nat, n: int) -> int
    decreases k,
{
    if k == 0 {
        cur
    } else {
        (advanced(cur, (k - 1) as nat, n) + 1) % n
    }
}

/// `k` successive single-step advances wrap like one advance by `k`:
/// they reach index `(cur + k) % n`, always inside the ring.
pub proof fn lemma_advance_k(cur: int, k: nat, n: int)
    requires
        0 <= cur < n,
    ensures
        advanced(cur, k, n) == (cur + k) % n,
        0 <= advanced(cur, k, n) < n,
    decreases k,
{
    if k == 0 {
        vstd::arithmetic::div_mod::lemma_small_mod(cur as nat, n as nat);
    } else {
        lemma_advance_k(cur, (k - 1) as nat, n);
        vstd::arithmetic::div_mod::lemma_add_mod_noop_right(1, cur + k - 1, n);
        vstd::arithmetic::div_mod::lemma_mod_bound(cur + k, n);
    }
}

/// Circular descriptor ring with wraparound index.
pub struct DescriptorRing<D, const N: usize> {
    /// Array of descriptors.
    pub(crate) descriptors: [D; N],
    /// Current processing index.
    current: usize,
}

impl<D, const N: usize> DescriptorRing<D, N> {
    /// The descriptors, in ring order.
    pub closed spec fn descs(&self) -> Seq<D> {
        self.descriptors@
    }

    /// The current processing index.
    pub closed spec fn cur(&self) -> int {
        self.current as int
    }

    /// Well-formedness: the ring holds `N` descriptors and, for a
    /// non-empty ring, the current index points at one of them.
    pub open spec fn wf(&self) -> bool {
        &&& self.descs().len() == N
        &&& 0 <= self.cur()
        &&& (N > 0 ==> self.cur() < N)
    }

    /// Create a new descriptor ring from an existing array.
    pub fn new(descriptors: [D; N]) -> (r: Self)
        ensures
            r.wf(),
            r.descs() == descriptors@,
            r.cur() == 0,
    {
        Self { descriptors, current: 0 }
    }

    /// Number of descriptors in the ring.
    pub fn len(&self) -> (r: usize)
        ensures
            r == N,
    {
        N
    }

    /// Check if the ring is empty (always false for non-zero `N`).
    pub fn is_empty(&self) -> (r: bool)
        ensures
            r == (N == 0),
    {
        N == 0
    }

    /// Current index.
    pub fn current_index(&self) -> (r: usize)
        requires
            self.wf(),
        ensures
            r == self.cur(),
            N > 0 ==> r < N,
    {
        self.current
    }

    /// Advance the current index by one, wrapping around.
    pub fn advance(&mut self)
        requires
            old(self).wf(),
            N > 0,
        ensures
            final(self).wf(),
            final(self).descs() == old(self).descs(),
            final(self).cur() == (old(self).cur() + 1) % (N as int),
    {
        self.current = (self.current + 1) % N;
    }

    /// Advance the current index by `count`, wrapping around.
    pub fn advance_by(&mut self, count: usize)
        requires
            old(self).wf(),
            N > 0,
            old(self).cur() + count <= usize::MAX,
        ensures
            final(self).wf(),
            final(self).descs() == old(self).descs(),
            final(self).cur() == (old(self).cur() + count) % (N as int),
    {
        self.current = (self.current + count) % N;
    }

    /// Reset the current index to 0.
    pub fn reset(&mut self)
        requires
            old(self).wf(),
        ensures
            final(self).wf(),
            final(self).descs() == old(self).descs(),
            final(self).cur() == 0,
    {
        self.current = 0;
    }

    /// Reference to the current descriptor.
    pub fn current(&self) -> (r: &D)
        requires
            self.wf(),
            N > 0,
        ensures
            *r == self.descs()[self.cur()],
    {
        &self.descriptors[self.current]
    }

    /// Mutable reference to the current descriptor.
    pub fn current_mut(&mut self) -> (r: &mut D)
        requires
            old(self).wf(),
            N > 0,
        ensures
            *r == old(self).descs()[old(self).cur()],
            final(self).descs() == old(self).descs().update(old(self).cur(), *final(r)),
            final(self).cur() == old(self).cur(),
    {
        let i = self.current;
        &mut self.descriptors[i]
    }

    /// Reference to the descriptor at `index` (wraps around).
    pub fn get(&self, index: usize) -> (r: &D)
        requires
            self.wf(),
            N > 0,
        ensures
            *r == self.descs()[(index % N) as int],
    {
        &self.descriptors[index % N]
    }

    /// Mutable reference to the descriptor at `index` (wraps around).
    pub fn get_mut(&mut self, index: usize) -> (r: &mut D)
        requires
            old(self).wf(),
            N > 0,
        ensures
            *r == old(self).descs()[(index % N) as int],
            final(self).descs() == old(self).descs().update((index % N) as int, *final(r)),
            final(self).cur() == old(self).cur(),
    {
        &mut self.descriptors[index % N]
    }

    /// Address of the first descriptor (for programming the DMA
    /// base-address registers): never null, and aligned as a descriptor
    /// must be. Which address it is depends on where the ring lives.
    pub fn base_addr(&self) -> (r: usize)
        ensures
            r != 0,
            r as nat % vstd::layout::align_of::<D>() == 0,
    {
        slice_address(self.descriptors.as_slice())
    }

    /// Iterate over all descriptors, in ring order from index 0.
    pub fn iter(&self) -> (r: core::slice::Iter<'_, D>)
        ensures
            r.remaining() == self.descs().as_ref(),
    {
        broadcast use vstd::std_specs::slice::axiom_spec_slice_iter;

        self.descriptors.as_slice().iter()
    }

    /// Iterate mutably over all descriptors.
    ///
    /// Calls `<[D]>::iter_mut` on the descriptor array; the returned
    /// iterator may change any descriptor, so nothing is stated of the
    /// ring after the borrow ends.
    #[verifier::external_body]
    pub fn iter_mut(&mut self) -> core::slice::IterMut<'_, D> {
        self.descriptors.iter_mut()
    }
}

/// The mutable slice iterator of std, carried through opaquely.
#[verifier::external_type_specification]
#[verifier::external_body]
#[verifier::reject_recursive_types(T)]
pub struct ExIterMut<'a, T: 'a>(core::slice::IterMut<'a, T>);

} // verus!
