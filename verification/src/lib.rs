//! A growable, contiguous, randomly-indexable sequence container with
//! manual storage management, verified with Verus.
//!
//! The storage engine is split in two layers. [`raw::RawVec`] owns a block
//! of `cap` slots, each either initialized or uninitialized, and knows how
//! to grow by doubling. [`myvec::MyVec`] owns a `RawVec` plus a logical
//! length `len <= cap`, keeps the occupied prefix initialized, and offers
//! push/pop/insert/remove and indexed access. Two traversals are built on
//! the same storage: [`myvec::MyVecIterator`] consumes the array and walks
//! its buffer from both ends, and [`myvec::MyDrain`] empties the array up
//! front and yields its former contents lazily.
//!
//! A zero-sized element type is special-cased throughout: its capacity is
//! defined as the representable maximum, its buffer is never grown, and no
//! allocation is ever performed for it.

pub mod laws;
pub mod myvec;
pub mod raw;

pub use myvec::MyDrain;
pub use myvec::MyVec;
pub use myvec::MyVecIterator;
