//! Fixed-size consistent-hash buckets.
//!
//! A [`Bucket`] is a position in a ring of `N` buckets: a value reduced
//! modulo the bucket count.  It predates the 64-bit identifier ring and
//! remains as a small self-contained piece of the hashing vocabulary.

use vstd::prelude::*;

verus! {

/// One of `N` buckets on a small hash ring.
#[derive(Clone, Copy, PartialEq, Debug)]
pub struct Bucket<const N: u64>(pub u64);

impl<const N: u64> Bucket<N> {
    /// The bucket a value falls into: the value modulo the bucket count.
    pub fn from_value(n: u64) -> (r: Bucket<N>)
        requires
            N > 0,
        ensures
            r.0 == n % N,
    {
        Bucket(n % N)
    }

    /// Advance this bucket by `rhs` positions, wrapping at the bucket
    /// count.
    pub fn add(self, rhs: u64) -> (r: Bucket<N>)
        requires
            N > 0,
            self.0 + rhs <= u64::MAX,
        ensures
            r.0 == ((self.0 + rhs) as u64) % N,
    {
        Bucket::from_value(self.0 + rhs)
    }
}

} // verus!
