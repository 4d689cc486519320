//! Identifiers on the circular 64-bit ring.
//!
//! An [`Identifier`] is a point on the ring of integers modulo 2^64.
//! The central predicate is [`between`]: membership in the half-open
//! clockwise arc `(start, end]`, where `start == end` denotes the full
//! ring.  Identifiers are derived from byte strings by hashing
//! (SHA-256, reduced modulo `u64::MAX`).

use sha2::Digest;
use vstd::prelude::*;

verus! {

/// A point on the circular 64-bit identifier space.
#[derive(Clone, Copy, PartialEq, Eq, Structural, Debug, Hash)]
pub struct Identifier(pub u64);

/// Walking clockwise from `start` (exclusive) to `end` (inclusive),
/// does one meet `x`?  `start == end` denotes the full ring, so every
/// identifier lies on it.
pub open spec fn between(x: Identifier, start: Identifier, end: Identifier) -> bool {
    if start.0 == end.0 {
        true
    } else if start.0 < end.0 {
        start.0 < x.0 <= end.0
    } else {
        x.0 > start.0 || x.0 <= end.0
    }
}

impl Identifier {
    /// Whether this identifier lies between `start` (exclusive) and `end`
    /// (inclusive) on the identifier ring.
    pub fn is_between(&self, start: Identifier, end: Identifier) -> (r: bool)
        ensures
            r == between(*self, start, end),
    {
        if start == end {
            return true;
        }
        if self.0 > start.0 && end.0 >= self.0 {
            return true;
        }
        if end.0 >= self.0 && start.0 > end.0 {
            return true;
        }
        if start.0 > end.0 && self.0 > start.0 {
            return true;
        }
        false
    }

    /// Addition on the ring: wraps modulo 2^64.
    pub fn wrapping_add(self, other: Identifier) -> (r: Identifier)
        ensures
            r.0 == (self.0 + other.0) % 0x1_0000_0000_0000_0000,
    {
        Identifier(self.0.wrapping_add(other.0))
    }

    /// Subtraction on the ring: wraps modulo 2^64.
    pub fn wrapping_sub(self, other: Identifier) -> (r: Identifier)
        ensures
            r.0 == (self.0 - other.0 + 0x1_0000_0000_0000_0000) % 0x1_0000_0000_0000_0000,
    {
        Identifier(self.0.wrapping_sub(other.0))
    }
}

impl From<u64> for Identifier {
    fn from(value: u64) -> (r: Identifier) {
        Identifier(value)
    }
}

impl vstd::std_specs::convert::FromSpecImpl<u64> for Identifier {
    open spec fn obeys_from_spec() -> bool {
        true
    }

    open spec fn from_spec(value: u64) -> Identifier {
        Identifier(value)
    }
}

impl From<Identifier> for u64 {
    fn from(value: Identifier) -> (r: u64) {
        value.0
    }
}

impl vstd::std_specs::convert::FromSpecImpl<Identifier> for u64 {
    open spec fn obeys_from_spec() -> bool {
        true
    }

    open spec fn from_spec(value: Identifier) -> u64 {
        value.0
    }
}

/// The SHA-256 digest of a byte string, as a function of the bytes alone.
pub uninterp spec fn sha256_of(bytes: Seq<u8>) -> Seq<u8>;

/// Relies on sha2::Sha256::digest: the SHA-256 digest of the input,
/// a function of the input bytes alone, always 32 bytes long.
#[verifier::external_body]
fn sha256(bytes: &[u8]) -> (r: Vec<u8>)
    ensures
        r@ == sha256_of(bytes@),
        r@.len() == 32,
{
    sha2::Sha256::digest(bytes).to_vec()
}

/// The value of a byte string read as a little-endian integer.
pub open spec fn le_bytes_val(s: Seq<u8>) -> int
    decreases s.len(),
{
    if s.len() == 0 {
        0
    } else {
        s[0] + 256 * le_bytes_val(s.drop_first())
    }
}

/// The identifier a byte string hashes to: its SHA-256 digest, read as a
/// little-endian integer, reduced modulo `u64::MAX` (not 2^64: the ring
/// value `u64::MAX` itself is unreachable, kept for compatibility).
pub open spec fn id_of_bytes(bytes: Seq<u8>) -> Identifier {
    Identifier((le_bytes_val(sha256_of(bytes)) % 0xFFFF_FFFF_FFFF_FFFF) as u64)
}

proof fn lemma_le_bytes_val_nonneg(s: Seq<u8>)
    ensures
        le_bytes_val(s) >= 0,
    decreases s.len(),
{
    if s.len() > 0 {
        lemma_le_bytes_val_nonneg(s.drop_first());
    }
}

/// One step of Horner evaluation from the high end: prepending a byte.
proof fn lemma_le_bytes_val_step(s: Seq<u8>, i: int)
    requires
        0 <= i < s.len(),
    ensures
        le_bytes_val(s.skip(i)) == s[i] + 256 * le_bytes_val(s.skip(i + 1)),
{
    assert(s.skip(i).drop_first() =~= s.skip(i + 1));
    assert(s.skip(i)[0] == s[i]);
}

impl Identifier {
    /// The identifier the given bytes hash to: SHA-256, read little-endian,
    /// reduced modulo `u64::MAX`.
    pub fn from_bytes(bytes: &[u8]) -> (r: Identifier)
        ensures
            r == id_of_bytes(bytes@),
    {
        let digest = sha256(bytes);
        let ghost d = digest@;
        let mut acc: u128 = 0;
        let mut i: usize = digest.len();
        proof {
            assert(d.skip(32) =~= Seq::<u8>::empty());
        }
        while i > 0
            invariant
                0 <= i <= 32,
                digest@ == d,
                d.len() == 32,
                acc == le_bytes_val(d.skip(i as int)) % 0xFFFF_FFFF_FFFF_FFFF,
            decreases i,
        {
            i = i - 1;
            let ghost x = le_bytes_val(d.skip(i + 1));
            let ghost m_int: int = 0xFFFF_FFFF_FFFF_FFFF;
            let b = digest[i];
            proof {
                lemma_le_bytes_val_nonneg(d.skip(i + 1));
                vstd::arithmetic::div_mod::lemma_mod_bound(x, m_int);
            }
            acc = (acc * 256 + b as u128) % 0xFFFF_FFFF_FFFF_FFFF;
            proof {
                lemma_le_bytes_val_step(d, i as int);
                assert(le_bytes_val(d.skip(i as int)) == b + 256 * x);
                vstd::arithmetic::div_mod::lemma_mul_mod_noop_left(x, 256, m_int);
                assert(((x % m_int) * 256) % m_int == (x * 256) % m_int);
                vstd::arithmetic::div_mod::lemma_add_mod_noop((x % m_int) * 256, b as int, m_int);
                vstd::arithmetic::div_mod::lemma_add_mod_noop(x * 256, b as int, m_int);
                vstd::arithmetic::div_mod::lemma_mod_twice(b as int, m_int);
                vstd::arithmetic::div_mod::lemma_mod_twice((x % m_int) * 256, m_int);
                vstd::arithmetic::div_mod::lemma_mod_twice(x * 256, m_int);
                assert(((x % m_int) * 256 + b) % m_int == (x * 256 + b) % m_int);
                assert(acc == ((x % m_int) * 256 + b) % m_int);
                assert(acc == (b + 256 * x) % m_int);
            }
        }
        proof {
            assert(d.skip(0) =~= d);
        }
        Identifier(acc as u64)
    }
}

/// Derivation of an identifier from a value: hash to canonical bytes,
/// then reduce onto the ring.
pub trait HashIdentifier<T> {
    /// The identifier this value hashes to.
    spec fn spec_hash_id(&self) -> T;

    /// Compute the identifier this value hashes to.
    fn hash_id(&self) -> (r: T)
        ensures
            r == self.spec_hash_id(),
    ;
}

} // verus!
