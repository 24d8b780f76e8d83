//! A handle that exposes the entropy source through the method shape of a
//! generic random-number generator: next 32-bit value, next 64-bit value,
//! fill a byte buffer. Each method only forwards to [`get()`](crate::get)
//! or [`fill()`](crate::fill), with no added logic.

use vstd::prelude::*;

verus! {

/// Zero-sized handle over the process-wide entropy source.
///
/// Every instance draws from the same source, so two handles are
/// interchangeable and a handle carries no state of its own.
#[derive(Clone, Copy, Debug)]
pub struct Rng;

impl Rng {
    /// The low 32 bits of one fresh value from [`get()`](crate::get).
    pub fn next_u32(&mut self) -> u32 {
        #[verifier::truncate]
        (crate::get() as u32)
    }

    /// One fresh value from [`get()`](crate::get).
    pub fn next_u64(&mut self) -> u64 {
        crate::get()
    }

    /// Fills the buffer with pseudo-random bytes, exactly as
    /// [`fill()`](crate::fill) does: the length is kept and every byte is
    /// overwritten.
    pub fn fill_bytes(&mut self, dst: &mut Vec<u8>)
        ensures
            final(dst)@.len() == old(dst)@.len(),
            old(dst)@.len() == 0 ==> final(dst)@ == old(dst)@,
    {
        crate::fill(dst)
    }
}

} // verus!
