//! The backing store of the growable array.
//!
//! A `RawVec<T>` owns storage for exactly `cap` elements of `T` and nothing
//! else: no logical length, no knowledge of which prefix a client keeps
//! occupied. Each of its `cap` slots is either initialized (it holds a live
//! value) or uninitialized, and the two states are switched explicitly, one
//! slot at a time: `init_slot` constructs a value in an uninitialized slot
//! and `finalize_slot` moves the value out of an initialized one. Growth
//! follows the doubling strategy: an empty buffer grows to one slot, any
//! other to twice its capacity, so that the total copying work over `n`
//! appended elements stays linear in `n`.
//!
//! A zero-sized element type is a distinct case: no value of it occupies
//! storage, so the capacity is defined to be unbounded — reported as the
//! representable maximum — no allocation ever occurs, and growing such a
//! buffer is a contract violation, never a reachable state. The slots of a
//! zero-sized type's buffer are never used; clients keep such values
//! elsewhere (std's `Vec`, which never allocates for them).

use vstd::prelude::*;

verus! {

/// Whether the element type occupies no storage. The capacity of a buffer
/// of such a type is defined as the representable maximum, and no
/// allocation ever occurs for it.
pub open spec fn zero_sized<T>() -> bool {
    vstd::layout::size_of::<T>() == 0
}

/// Storage for `cap` elements, each slot initialized (`Some`) or
/// uninitialized (`None`).
pub struct RawVec<T> {
    slots: Vec<Option<T>>,
}

impl<T> View for RawVec<T> {
    type V = Seq<Option<T>>;

    /// The buffer is modeled as the sequence of its slots: index `i` is
    /// `Some(v)` when slot `i` holds the live value `v`, and `None` when
    /// slot `i` is uninitialized. For a zero-sized element type the
    /// capacity is unbounded and no slot is ever occupied: the model is
    /// the maximal all-uninitialized sequence.
    closed spec fn view(&self) -> Seq<Option<T>> {
        if zero_sized::<T>() {
            Seq::new(usize::MAX as nat, |i: int| None::<T>)
        } else {
            self.slots@
        }
    }
}

impl<T> RawVec<T> {
    /// A buffer with no allocation: capacity 0, or the unbounded capacity
    /// of a zero-sized element type. Never fails.
    pub fn new() -> (r: Self)
        ensures
            r@.len() == if zero_sized::<T>() {
                usize::MAX as nat
            } else {
                0nat
            },
            forall|i: int| 0 <= i < r@.len() ==> r@[i] is None,
    {
        RawVec { slots: Vec::new() }
    }

    /// The capacity: how many slots the buffer holds. The representable
    /// maximum for a zero-sized element type.
    pub fn cap(&self) -> (c: usize)
        ensures
            c == self@.len(),
    {
        if core::mem::size_of::<T>() == 0 {
            usize::MAX
        } else {
            self.slots.len()
        }
    }

    /// Grow by doubling: a buffer of capacity 0 acquires one slot, any
    /// other twice its capacity. Every pre-existing slot keeps its state
    /// and contents; every new slot starts uninitialized. Growing a
    /// zero-sized type's buffer is a contract violation (its capacity is
    /// already unbounded), so that case is excluded here.
    pub fn grow(&mut self)
        requires
            !zero_sized::<T>(),
            old(self)@.len() * 2 < usize::MAX,
        ensures
            final(self)@.len() == if old(self)@.len() == 0 { 1nat } else { old(self)@.len() * 2 },
            forall|i: int| 0 <= i < old(self)@.len() ==> final(self)@[i] == old(self)@[i],
            forall|i: int|
                old(self)@.len() <= i < final(self)@.len() ==> final(self)@[i] is None,
    {
        let old_cap = self.slots.len();
        let new_cap: usize = if old_cap == 0 {
            1
        } else {
            2 * old_cap
        };
        while self.slots.len() < new_cap
            invariant
                old_cap == old(self).slots@.len(),
                old_cap <= self.slots@.len() <= new_cap,
                forall|i: int| 0 <= i < old_cap ==> self.slots@[i] == old(self).slots@[i],
                forall|i: int| old_cap <= i < self.slots@.len() ==> self.slots@[i] is None,
            decreases new_cap - self.slots@.len(),
        {
            self.slots.push(None);
        }
    }

    /// Freshly allocated storage for exactly `n` elements of a type that
    /// occupies storage, every slot uninitialized.
    pub fn new_block(n: usize) -> (r: Self)
        requires
            !zero_sized::<T>(),
        ensures
            r@.len() == n,
            forall|i: int| 0 <= i < n ==> r@[i] is None,
    {
        let mut slots: Vec<Option<T>> = Vec::new();
        while slots.len() < n
            invariant
                slots@.len() <= n,
                forall|i: int| 0 <= i < slots@.len() ==> slots@[i] is None,
            decreases n - slots@.len(),
        {
            slots.push(None);
        }
        RawVec { slots }
    }

    /// Construct `v` in the uninitialized slot `i`.
    pub fn init_slot(&mut self, i: usize, v: T)
        requires
            !zero_sized::<T>(),
            i < old(self)@.len(),
            old(self)@[i as int] is None,
        ensures
            final(self)@ == old(self)@.update(i as int, Some(v)),
    {
        let slot = &mut self.slots[i];
        *slot = Some(v);
    }

    /// Move the live value out of the initialized slot `i`, leaving the
    /// slot uninitialized.
    pub fn finalize_slot(&mut self, i: usize) -> (v: T)
        requires
            !zero_sized::<T>(),
            i < old(self)@.len(),
            old(self)@[i as int] is Some,
        ensures
            v == old(self)@[i as int]->0,
            final(self)@ == old(self)@.update(i as int, None),
    {
        let slot = &mut self.slots[i];
        let taken = slot.take();
        taken.unwrap()
    }

    /// Read the live value in the initialized slot `i`.
    pub fn read_slot(&self, i: usize) -> (r: &T)
        requires
            !zero_sized::<T>(),
            i < self@.len(),
            self@[i as int] is Some,
        ensures
            *r == self@[i as int]->0,
    {
        self.slots[i].as_ref().unwrap()
    }
}

} // verus!
