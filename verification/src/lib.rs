//! A random-number source backed by a fixed, caller-supplied byte buffer.
//!
//! `ExternalRng` holds up to 32 caller-supplied bytes together with a declared
//! valid length, and hands those bytes out verbatim whenever a consumer asks
//! for random data. It performs no entropy collection of its own: the caller
//! is responsible for the quality of the bytes it supplies.

use vstd::prelude::*;

verus! {

/// Capacity of the internal byte buffer: the largest request size supported.
pub const RNG_CAPACITY: usize = 32;

/// A randomness source that relays a fixed byte buffer instead of generating
/// entropy.
///
/// `rng_bytes` is the backing buffer; `len` declares how many of its leading
/// bytes are valid. A well-formed instance has `len <= RNG_CAPACITY`, and no
/// method mutates either field after construction.
pub struct ExternalRng {
    /// Bytes supplied by the caller at construction.
    pub rng_bytes: [u8; 32],
    /// Number of leading bytes of `rng_bytes` that are valid for output.
    pub len: usize,
}

impl ExternalRng {
    /// The declared length never exceeds the buffer's capacity.
    pub open spec fn wf(self) -> bool {
        self.len <= RNG_CAPACITY
    }

    /// The bytes that a fill request of size `n` yields: the first `n` bytes
    /// of the backing buffer, verbatim and in order.
    pub open spec fn spec_fill(self, n: int) -> Seq<u8> {
        self.rng_bytes@.subrange(0, n)
    }

    /// Copies the first `dest.len()` bytes of the backing buffer into `dest`.
    ///
    /// Callers must not request more bytes than were declared valid.
    pub fn set_rng(&self, dest: &mut [u8])
        requires
            self.wf(),
            old(dest).len() <= self.len,
        ensures
            final(dest)@ == self.spec_fill(old(dest)@.len() as int),
    {
        let mut k: usize = 0;
        while k < dest.len()
            invariant
                self.wf(),
                k <= dest.len(),
                dest.len() == old(dest).len(),
                dest.len() <= self.len,
                dest@.subrange(0, k as int) == self.rng_bytes@.subrange(0, k as int),
            decreases dest.len() - k,
        {
            dest[k] = self.rng_bytes[k];
            k = k + 1;
        }
        assert(dest@ =~= self.spec_fill(old(dest)@.len() as int));
    }

    /// Fills `dest` with the leading bytes of the backing buffer, exactly as a
    /// live random-number generator would fill it with fresh entropy.
    ///
    /// The instance itself is left untouched: no counter advances and no byte
    /// is consumed, so repeated calls of the same size yield the same output.
    pub fn fill_bytes(&mut self, dest: &mut [u8])
        requires
            old(self).wf(),
            old(dest).len() <= old(self).len,
        ensures
            *final(self) == *old(self),
            final(dest)@ == old(self).spec_fill(old(dest)@.len() as int),
    {
        self.set_rng(dest);
    }

    /// The fallible variant of [`Self::fill_bytes`]: it copies the same bytes
    /// and always reports success, since relaying a fixed buffer cannot fail.
    pub fn try_fill_bytes(&mut self, dest: &mut [u8]) -> (r: Result<(), ()>)
        requires
            old(self).wf(),
            old(dest).len() <= old(self).len,
        ensures
            *final(self) == *old(self),
            final(dest)@ == old(self).spec_fill(old(dest)@.len() as int),
            r == Ok::<(), ()>(()),
    {
        self.fill_bytes(dest);
        Ok(())
    }

    /// Copies a 32-byte slice into a fresh 32-byte array, for callers that
    /// hold their random bytes as a plain slice.
    pub fn copy_into_array(slice: &[u8]) -> (a: [u8; 32])
        requires
            slice@.len() == RNG_CAPACITY,
        ensures
            a@ == slice@,
    {
        let mut a: [u8; 32] = [0u8; 32];
        let mut k: usize = 0;
        while k < slice.len()
            invariant
                slice@.len() == 32,
                a@.len() == 32,
                k <= 32,
                forall|i: int| 0 <= i < k ==> a@[i] == slice@[i],
            decreases slice@.len() - k,
        {
            a[k] = slice[k];
            k = k + 1;
        }
        assert(a@ =~= slice@);
        a
    }
}

/// Repeated fills of the same size on the same instance always yield
/// identical output: the bytes a fill produces are a pure function of the
/// instance and the request size, and no fill mutates the instance.
pub proof fn lemma_fill_idempotent(rng: ExternalRng, n: int, first: Seq<u8>, second: Seq<u8>)
    requires
        first == rng.spec_fill(n),
        second == rng.spec_fill(n),
    ensures
        first == second,
{
}

/// A fallible fill and an infallible fill of the same size on the same
/// instance yield identical output, and the fallible fill reports success;
/// both follow from the contracts of `fill_bytes` and `try_fill_bytes`,
/// whose postconditions name the same bytes and an unconditional `Ok`.
pub proof fn lemma_try_fill_matches_fill(
    rng: ExternalRng,
    n: int,
    filled: Seq<u8>,
    tried: Seq<u8>,
    r: Result<(), ()>,
)
    requires
        filled == rng.spec_fill(n),
        tried == rng.spec_fill(n),
        r == Ok::<(), ()>(()),
    ensures
        tried == filled,
        r is Ok,
{
}

/// An instance whose declared length is the buffer's full capacity returns
/// the entire buffer contents verbatim when asked for exactly that many
/// bytes.
pub proof fn lemma_full_capacity_fill(rng: ExternalRng)
    requires
        rng.len == RNG_CAPACITY,
    ensures
        rng.spec_fill(RNG_CAPACITY as int) == rng.rng_bytes@,
{
    assert(rng.spec_fill(RNG_CAPACITY as int) =~= rng.rng_bytes@);
}

} // verus!
