//! The growable array and its two traversals.
//!
//! A `MyVec<T>` owns a [`RawVec`] plus a logical length `len <= cap`. The
//! slots at positions `[0, len)` are initialized, the ones at `[len, cap)`
//! are not; `well_formed` states exactly that, every constructor
//! establishes it and every method preserves it. The array is modeled as
//! the sequence of the live values in its occupied prefix.
//!
//! A zero-sized element type takes a distinct path: its buffer's capacity
//! is unbounded (reported as the representable maximum), growth is never
//! invoked, and no allocation ever occurs — the values live in a plain
//! `Vec<T>`, for which std never allocates when `T` occupies no storage.
//!
//! `MyVecIterator` consumes the array: the storage is transferred, never
//! duplicated, and a start/end cursor over the occupied range shrinks from
//! either end as elements are yielded. `MyDrain` is produced by truncating
//! the source array's length to zero at call time, so the source is
//! immediately usable as an empty array while the drain lazily yields what
//! the array used to hold. Both traversals leave every yielded slot
//! uninitialized, so when one is dropped early, the values still sitting
//! in its cursor range are destroyed there and only there: nothing is
//! leaked and nothing is destroyed twice.

use crate::raw::RawVec;
use crate::raw::zero_sized;
use vstd::prelude::*;

verus! {

/// A growable, contiguous, randomly-indexable sequence of `T`.
pub struct MyVec<T> {
    buf: RawVec<T>,
    units: Vec<T>,
    len: usize,
}

impl<T> View for MyVec<T> {
    type V = Seq<T>;

    /// The array is modeled as the sequence of live values in its
    /// occupied prefix `[0, len)`. Zero-sized values live in `units`.
    closed spec fn view(&self) -> Seq<T> {
        if zero_sized::<T>() {
            self.units@
        } else {
            Seq::new(self.len as nat, |i: int| self.buf@[i]->0)
        }
    }
}

impl<T> MyVec<T> {
    /// The structural invariant. For an element type that occupies
    /// storage: the logical length never exceeds the capacity, every slot
    /// below it is initialized, every slot at or above it is
    /// uninitialized, and `units` is unused. For a zero-sized element
    /// type: the values live in `units`, whose length is the logical
    /// length, and the slot buffer is unused.
    pub closed spec fn well_formed(&self) -> bool {
        if zero_sized::<T>() {
            &&& self.buf@.len() == usize::MAX as nat
            &&& self.units@.len() == self.len
        } else {
            &&& self.units@.len() == 0
            &&& self.len <= self.buf@.len()
            &&& forall|i: int| 0 <= i < self.len ==> (#[trigger] self.buf@[i]) is Some
            &&& forall|i: int| self.len <= i < self.buf@.len() ==> (#[trigger] self.buf@[i]) is None
        }
    }

    /// The capacity of the underlying buffer: the representable maximum
    /// for a zero-sized element type.
    pub closed spec fn capacity(&self) -> nat {
        self.buf@.len()
    }

    /// A well-formed array never holds more elements than its capacity.
    pub proof fn lemma_len_le_capacity(&self)
        requires
            self.well_formed(),
        ensures
            self@.len() <= self.capacity(),
    {
    }

    /// An empty array with no allocation: capacity 0, or the unbounded
    /// capacity of a zero-sized element type. O(1), never fails.
    pub fn new() -> (v: Self)
        ensures
            v.well_formed(),
            v@ == Seq::<T>::empty(),
            v.capacity() == if zero_sized::<T>() {
                usize::MAX as nat
            } else {
                0nat
            },
    {
        let v = MyVec { buf: RawVec::new(), units: Vec::new(), len: 0 };
        proof {
            assert(v@ =~= Seq::<T>::empty());
        }
        v
    }

    /// The number of elements held.
    pub fn len(&self) -> (n: usize)
        requires
            self.well_formed(),
        ensures
            n == self@.len(),
    {
        self.len
    }

    /// The capacity of the underlying buffer: the representable maximum
    /// for a zero-sized element type.
    pub fn cap(&self) -> (c: usize)
        ensures
            c == self.capacity(),
    {
        self.buf.cap()
    }

    /// Make room for one more element: when the occupied prefix fills the
    /// buffer, double its capacity (growing an empty buffer to one slot).
    /// The contents are unchanged and afterwards there is a free slot. A
    /// zero-sized type's capacity is already unbounded, so its buffer is
    /// never grown.
    pub fn grow(&mut self)
        requires
            old(self).well_formed(),
            old(self)@.len() < usize::MAX,
            !zero_sized::<T>() ==> old(self)@.len() * 2 < usize::MAX,
        ensures
            final(self).well_formed(),
            final(self)@ == old(self)@,
            final(self)@.len() < final(self).capacity(),
            final(self).capacity() == if old(self)@.len() < old(self).capacity() {
                old(self).capacity()
            } else if old(self).capacity() == 0 {
                1nat
            } else {
                old(self).capacity() * 2
            },
    {
        if core::mem::size_of::<T>() != 0 {
            if self.len == self.buf.cap() {
                self.buf.grow();
            }
        }
        proof {
            assert(self@ =~= old(self)@);
        }
    }

    /// Append `elem` at the end. Amortized O(1): the buffer doubles when
    /// full, so the total copying work over `n` pushes is O(n); for a
    /// zero-sized element type nothing is ever allocated.
    pub fn push(&mut self, elem: T)
        requires
            old(self).well_formed(),
            old(self)@.len() < usize::MAX,
            !zero_sized::<T>() ==> old(self)@.len() * 2 < usize::MAX,
        ensures
            final(self).well_formed(),
            final(self)@ == old(self)@.push(elem),
            final(self).capacity() == if old(self)@.len() < old(self).capacity() {
                old(self).capacity()
            } else if old(self).capacity() == 0 {
                1nat
            } else {
                old(self).capacity() * 2
            },
    {
        self.grow();
        if core::mem::size_of::<T>() == 0 {
            self.units.push(elem);
        } else {
            self.buf.init_slot(self.len, elem);
        }
        self.len = self.len + 1;
        proof {
            assert(self@ =~= old(self)@.push(elem));
        }
    }

    /// Remove and return the last element, or `None` when the array is
    /// empty. O(1).
    pub fn pop(&mut self) -> (r: Option<T>)
        requires
            old(self).well_formed(),
        ensures
            final(self).well_formed(),
            old(self)@.len() == 0 ==> r is None && final(self)@ == old(self)@,
            old(self)@.len() > 0 ==> r == Some(old(self)@.last()) && final(self)@ == old(self)@.drop_last(),
            final(self).capacity() == old(self).capacity(),
    {
        if self.len == 0 {
            proof {
                assert(self@ =~= old(self)@);
            }
            None
        } else if core::mem::size_of::<T>() == 0 {
            let r = self.units.pop();
            self.len = self.len - 1;
            proof {
                assert(self@ =~= old(self)@.drop_last());
            }
            r
        } else {
            self.len = self.len - 1;
            let v = self.buf.finalize_slot(self.len);
            proof {
                assert(self@ =~= old(self)@.drop_last());
            }
            Some(v)
        }
    }

    /// Insert `elem` at position `idx`, shifting the suffix `[idx, len)`
    /// one slot to the right. O(len - idx).
    pub fn insert(&mut self, idx: usize, elem: T)
        requires
            old(self).well_formed(),
            idx <= old(self)@.len(),
            old(self)@.len() < usize::MAX,
            !zero_sized::<T>() ==> old(self)@.len() * 2 < usize::MAX,
        ensures
            final(self).well_formed(),
            final(self)@ == old(self)@.insert(idx as int, elem),
            final(self).capacity() == if old(self)@.len() < old(self).capacity() {
                old(self).capacity()
            } else if old(self).capacity() == 0 {
                1nat
            } else {
                old(self).capacity() * 2
            },
    {
        if core::mem::size_of::<T>() == 0 {
            self.units.insert(idx, elem);
            self.len = self.len + 1;
            proof {
                old(self).units@.insert_ensures(idx as int, elem);
                assert(self@ =~= old(self)@.insert(idx as int, elem));
            }
        } else {
            self.grow();
            let ghost snap = self.buf@;
            let ghost n = self.len as int;
            let mut j: usize = self.len;
            while j > idx
                invariant
                    !zero_sized::<T>(),
                    self.units@.len() == 0,
                    idx <= j <= n,
                    n == self.len,
                    self.len < self.buf@.len(),
                    self.buf@.len() == snap.len(),
                    forall|i: int| 0 <= i < j ==> (#[trigger] self.buf@[i]) == snap[i],
                    self.buf@[j as int] is None,
                    forall|i: int| j < i <= n ==> (#[trigger] self.buf@[i]) == snap[i - 1],
                    forall|i: int| n < i < self.buf@.len() ==> (#[trigger] self.buf@[i]) is None,
                    forall|i: int| 0 <= i < n ==> (#[trigger] snap[i]) is Some,
                decreases j - idx,
            {
                j = j - 1;
                let v = self.buf.finalize_slot(j);
                self.buf.init_slot(j + 1, v);
            }
            self.buf.init_slot(idx, elem);
            self.len = self.len + 1;
            proof {
                assert(self@ =~= old(self)@.insert(idx as int, elem));
            }
        }
    }

    /// Remove and return the element at position `idx`, shifting the
    /// suffix `[idx + 1, len)` one slot to the left. O(len - idx).
    pub fn remove(&mut self, idx: usize) -> (r: T)
        requires
            old(self).well_formed(),
            idx < old(self)@.len(),
        ensures
            final(self).well_formed(),
            r == old(self)@[idx as int],
            final(self)@ == old(self)@.remove(idx as int),
            final(self).capacity() == old(self).capacity(),
    {
        if core::mem::size_of::<T>() == 0 {
            let r = self.units.remove(idx);
            self.len = self.len - 1;
            proof {
                old(self).units@.remove_ensures(idx as int);
                assert(self@ =~= old(self)@.remove(idx as int));
            }
            r
        } else {
            let ghost snap = self.buf@;
            let ghost n = self.len as int;
            let r = self.buf.finalize_slot(idx);
            let mut j: usize = idx + 1;
            while j < self.len
                invariant
                    !zero_sized::<T>(),
                    self.units@.len() == 0,
                    idx + 1 <= j <= n,
                    n == self.len,
                    self.len <= self.buf@.len(),
                    self.buf@.len() == snap.len(),
                    forall|i: int| 0 <= i < idx ==> (#[trigger] self.buf@[i]) == snap[i],
                    forall|i: int| idx <= i < j - 1 ==> (#[trigger] self.buf@[i]) == snap[i + 1],
                    self.buf@[j - 1] is None,
                    forall|i: int| j <= i < n ==> (#[trigger] self.buf@[i]) == snap[i],
                    forall|i: int| n <= i < self.buf@.len() ==> (#[trigger] self.buf@[i]) is None,
                    forall|i: int| 0 <= i < n ==> (#[trigger] snap[i]) is Some,
                decreases n - j,
            {
                let v = self.buf.finalize_slot(j);
                self.buf.init_slot(j - 1, v);
                j = j + 1;
            }
            self.len = self.len - 1;
            proof {
                assert(self@ =~= old(self)@.remove(idx as int));
            }
            r
        }
    }

    /// Read access into the occupied prefix: the element at position `i`.
    pub fn get(&self, i: usize) -> (r: &T)
        requires
            self.well_formed(),
            i < self@.len(),
        ensures
            *r == self@[i as int],
    {
        if core::mem::size_of::<T>() == 0 {
            &self.units[i]
        } else {
            self.buf.read_slot(i)
        }
    }

    /// In-place write access into the occupied prefix: move `v` into
    /// position `i` and return the previous occupant.
    pub fn replace(&mut self, i: usize, v: T) -> (r: T)
        requires
            old(self).well_formed(),
            i < old(self)@.len(),
        ensures
            final(self).well_formed(),
            r == old(self)@[i as int],
            final(self)@ == old(self)@.update(i as int, v),
            final(self).capacity() == old(self).capacity(),
    {
        if core::mem::size_of::<T>() == 0 {
            let mut taken = v;
            let slot = &mut self.units[i];
            core::mem::swap(slot, &mut taken);
            proof {
                assert(self@ =~= old(self)@.update(i as int, v));
            }
            taken
        } else {
            let r = self.buf.finalize_slot(i);
            self.buf.init_slot(i, v);
            proof {
                assert(self@ =~= old(self)@.update(i as int, v));
            }
            r
        }
    }

    /// Write access into the occupied prefix: replace the element at
    /// position `i` with `v`, destroying the previous occupant.
    pub fn set(&mut self, i: usize, v: T)
        requires
            old(self).well_formed(),
            i < old(self)@.len(),
        ensures
            final(self).well_formed(),
            final(self)@ == old(self)@.update(i as int, v),
            final(self).capacity() == old(self).capacity(),
    {
        let _replaced = self.replace(i, v);
    }

    /// Consume the array: the storage is transferred to the iterator,
    /// never duplicated, and the iterator becomes responsible for
    /// destroying the remaining elements and releasing the storage.
    pub fn into_iter(self) -> (it: MyVecIterator<T>)
        requires
            self.well_formed(),
        ensures
            it.well_formed(),
            it@ == self@,
    {
        let MyVec { buf, units, len } = self;
        let it = MyVecIterator { iter: RawValIter::new(buf, units, len) };
        proof {
            assert(it@ =~= self@);
        }
        it
    }

    /// Truncate the array to length 0 at call time and hand its former
    /// contents to a drain iterator. The array is immediately usable as an
    /// empty array, with its capacity intact, while the drain lazily
    /// yields what the array used to hold.
    pub fn drain(&mut self) -> (d: MyDrain<T>)
        requires
            old(self).well_formed(),
        ensures
            final(self).well_formed(),
            final(self)@ == Seq::<T>::empty(),
            final(self).capacity() == old(self).capacity(),
            d.well_formed(),
            d@ == old(self)@,
    {
        let n = self.len;
        self.len = 0;
        if core::mem::size_of::<T>() == 0 {
            let mut taken_units: Vec<T> = Vec::new();
            core::mem::swap(&mut self.units, &mut taken_units);
            let d = MyDrain { iter: RawValIter::new(RawVec::new(), taken_units, n) };
            proof {
                assert(self@ =~= Seq::<T>::empty());
                assert(d@ =~= old(self)@);
            }
            d
        } else {
            let ghost snap = self.buf@;
            let mut taken = RawVec::new_block(n);
            let mut i: usize = 0;
            while i < n
                invariant
                    !zero_sized::<T>(),
                    self.units@.len() == 0,
                    i <= n,
                    self.len == 0,
                    n <= self.buf@.len(),
                    self.buf@.len() == snap.len(),
                    taken@.len() == n,
                    forall|k: int| 0 <= k < i ==> (#[trigger] self.buf@[k]) is None,
                    forall|k: int| i <= k < n ==> (#[trigger] self.buf@[k]) == snap[k],
                    forall|k: int| n <= k < self.buf@.len() ==> (#[trigger] self.buf@[k]) is None,
                    forall|k: int| 0 <= k < i ==> (#[trigger] taken@[k]) == snap[k],
                    forall|k: int| i <= k < n ==> (#[trigger] taken@[k]) is None,
                    forall|k: int| 0 <= k < n ==> (#[trigger] snap[k]) is Some,
                decreases n - i,
            {
                let v = self.buf.finalize_slot(i);
                taken.init_slot(i, v);
                i = i + 1;
            }
            let d = MyDrain { iter: RawValIter::new(taken, Vec::new(), n) };
            proof {
                assert(self@ =~= Seq::<T>::empty());
                assert(d@ =~= old(self)@);
            }
            d
        }
    }
}

/// The shared cursor of the two traversals: storage plus a start/end pair
/// over the not-yet-yielded range. It shrinks from either end as elements
/// are yielded and is empty when `start == end`. Every yielded slot is
/// left uninitialized, so the values still inside the cursor range when
/// the storage is dropped are destroyed exactly once, there. For a
/// zero-sized element type no slot occupies real address space, so the
/// range is tracked as a count over `units`, never as slot positions.
struct RawValIter<T> {
    buf: RawVec<T>,
    units: Vec<T>,
    start: usize,
    end: usize,
}

impl<T> RawValIter<T> {
    /// The cursor invariant: `start <= end`, the remaining range holds
    /// exactly the not-yet-yielded values — initialized slots of
    /// `[start, end)` for a type that occupies storage, the `end - start`
    /// values of `units` for a zero-sized one.
    spec fn wf(&self) -> bool {
        &&& self.start <= self.end
        &&& if zero_sized::<T>() {
            self.end - self.start == self.units@.len()
        } else {
            &&& self.end <= self.buf@.len()
            &&& self.units@.len() == 0
            &&& forall|i: int| self.start <= i < self.end ==> (#[trigger] self.buf@[i]) is Some
        }
    }

    /// The remaining not-yet-yielded elements, front to back.
    spec fn contents(&self) -> Seq<T> {
        if zero_sized::<T>() {
            self.units@
        } else {
            Seq::new((self.end - self.start) as nat, |i: int| self.buf@[self.start + i]->0)
        }
    }

    /// A cursor over `len` elements: the occupied prefix `[0, len)` of
    /// `buf`, or the `len` values of `units` for a zero-sized type.
    fn new(buf: RawVec<T>, units: Vec<T>, len: usize) -> (it: Self)
        requires
            zero_sized::<T>() ==> units@.len() == len,
            !zero_sized::<T>() ==> units@.len() == 0 && len <= buf@.len() && (forall|i: int|
                0 <= i < len ==> (#[trigger] buf@[i]) is Some),
        ensures
            it.wf(),
            it.contents() == if zero_sized::<T>() {
                units@
            } else {
                Seq::new(len as nat, |i: int| buf@[i]->0)
            },
    {
        let it = RawValIter { buf, units, start: 0, end: len };
        proof {
            if !zero_sized::<T>() {
                assert(it.contents() =~= Seq::new(len as nat, |i: int| buf@[i]->0));
            }
        }
        it
    }

    /// Yield the front element of the remaining range, or `None` when the
    /// range is empty.
    fn next(&mut self) -> (r: Option<T>)
        requires
            old(self).wf(),
        ensures
            final(self).wf(),
            old(self).contents().len() == 0 ==> r is None && final(self).contents() == old(self).contents(),
            old(self).contents().len() > 0 ==> r == Some(old(self).contents().first()) && final(self).contents() == old(self).contents().drop_first(),
    {
        if self.start == self.end {
            None
        } else if core::mem::size_of::<T>() == 0 {
            let v = self.units.remove(0);
            self.start = self.start + 1;
            proof {
                assert(self.contents() =~= old(self).contents().drop_first());
            }
            Some(v)
        } else {
            let v = self.buf.finalize_slot(self.start);
            self.start = self.start + 1;
            proof {
                assert(self.contents() =~= old(self).contents().drop_first());
            }
            Some(v)
        }
    }

    /// Yield the back element of the remaining range, or `None` when the
    /// range is empty.
    fn next_back(&mut self) -> (r: Option<T>)
        requires
            old(self).wf(),
        ensures
            final(self).wf(),
            old(self).contents().len() == 0 ==> r is None && final(self).contents() == old(self).contents(),
            old(self).contents().len() > 0 ==> r == Some(old(self).contents().last()) && final(self).contents() == old(self).contents().drop_last(),
    {
        if self.start == self.end {
            None
        } else if core::mem::size_of::<T>() == 0 {
            let r = self.units.pop();
            self.end = self.end - 1;
            proof {
                assert(self.contents() =~= old(self).contents().drop_last());
            }
            r
        } else {
            self.end = self.end - 1;
            let v = self.buf.finalize_slot(self.end);
            proof {
                assert(self.contents() =~= old(self).contents().drop_last());
            }
            Some(v)
        }
    }

    /// How many elements remain; exact, because the range bounds are
    /// tracked precisely.
    fn remaining(&self) -> (n: usize)
        requires
            self.wf(),
        ensures
            n == self.contents().len(),
    {
        self.end - self.start
    }
}

/// The owning traversal: produced by consuming a `MyVec`, it owns the
/// array's storage and yields the elements from either end. Whatever it
/// has not yielded when it is dropped is destroyed with its storage,
/// exactly once.
pub struct MyVecIterator<T> {
    iter: RawValIter<T>,
}

impl<T> View for MyVecIterator<T> {
    type V = Seq<T>;

    /// The iterator is modeled as the sequence of elements it has not yet
    /// yielded, front to back.
    closed spec fn view(&self) -> Seq<T> {
        self.iter.contents()
    }
}

impl<T> MyVecIterator<T> {
    /// The cursor invariant of the traversal.
    pub closed spec fn well_formed(&self) -> bool {
        self.iter.wf()
    }

    /// Remove and return the front element of the remaining range, or
    /// `None` when the traversal is exhausted.
    pub fn next(&mut self) -> (r: Option<T>)
        requires
            old(self).well_formed(),
        ensures
            final(self).well_formed(),
            old(self)@.len() == 0 ==> r is None && final(self)@ == old(self)@,
            old(self)@.len() > 0 ==> r == Some(old(self)@.first()) && final(self)@ == old(self)@.drop_first(),
    {
        self.iter.next()
    }

    /// Remove and return the back element of the remaining range, or
    /// `None` when the traversal is exhausted.
    pub fn next_back(&mut self) -> (r: Option<T>)
        requires
            old(self).well_formed(),
        ensures
            final(self).well_formed(),
            old(self)@.len() == 0 ==> r is None && final(self)@ == old(self)@,
            old(self)@.len() > 0 ==> r == Some(old(self)@.last()) && final(self)@ == old(self)@.drop_last(),
    {
        self.iter.next_back()
    }

    /// The exact number of elements still to be yielded, as a lower and
    /// upper bound.
    pub fn size_hint(&self) -> (r: (usize, Option<usize>))
        requires
            self.well_formed(),
        ensures
            r.0 == self@.len(),
            r.1 == Some(r.0),
    {
        let n = self.iter.remaining();
        (n, Some(n))
    }
}

/// The borrowing traversal: produced by `MyVec::drain`, which truncates
/// the source to length 0 up front. It yields the array's former contents
/// from either end; whatever it has not yielded when it is dropped is
/// destroyed with it, exactly once — never left for the already-truncated
/// source to destroy again.
pub struct MyDrain<T> {
    iter: RawValIter<T>,
}

impl<T> View for MyDrain<T> {
    type V = Seq<T>;

    /// The drain is modeled as the sequence of elements it has not yet
    /// yielded, front to back.
    closed spec fn view(&self) -> Seq<T> {
        self.iter.contents()
    }
}

impl<T> MyDrain<T> {
    /// The cursor invariant of the traversal.
    pub closed spec fn well_formed(&self) -> bool {
        self.iter.wf()
    }

    /// Remove and return the front element of the remaining range, or
    /// `None` when the traversal is exhausted.
    pub fn next(&mut self) -> (r: Option<T>)
        requires
            old(self).well_formed(),
        ensures
            final(self).well_formed(),
            old(self)@.len() == 0 ==> r is None && final(self)@ == old(self)@,
            old(self)@.len() > 0 ==> r == Some(old(self)@.first()) && final(self)@ == old(self)@.drop_first(),
    {
        self.iter.next()
    }

    /// Remove and return the back element of the remaining range, or
    /// `None` when the traversal is exhausted.
    pub fn next_back(&mut self) -> (r: Option<T>)
        requires
            old(self).well_formed(),
        ensures
            final(self).well_formed(),
            old(self)@.len() == 0 ==> r is None && final(self)@ == old(self)@,
            old(self)@.len() > 0 ==> r == Some(old(self)@.last()) && final(self)@ == old(self)@.drop_last(),
    {
        self.iter.next_back()
    }

    /// The exact number of elements still to be yielded, as a lower and
    /// upper bound.
    pub fn size_hint(&self) -> (r: (usize, Option<usize>))
        requires
            self.well_formed(),
        ensures
            r.0 == self@.len(),
            r.1 == Some(r.0),
    {
        let n = self.iter.remaining();
        (n, Some(n))
    }
}

} // verus!
