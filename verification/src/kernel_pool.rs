//! The fixed-layout record pushed into the kernel entropy pool: a bounded
//! byte buffer with its declared entropy-bit and byte counts.  Building the
//! record is verified here; issuing the privileged control call is left to
//! the unverified shell around the library.

use vstd::prelude::*;

use crate::errors::CollectError;

verus! {

/// The fixed capacity of the record's byte buffer.
pub const POOL_BUF_CAPACITY: usize = 16;

/// One kernel entropy pool record, laid out as the kernel expects it:
/// a declared entropy-bit count, the number of buffer bytes in use, and
/// the buffer itself, zero-padded to its fixed capacity.
#[derive(Clone, Debug)]
pub struct KernelPoolEntry {
    /// Bits of entropy claimed for the sample: eight per sample byte.
    pub entropy_count: i32,
    /// Number of buffer bytes in use.
    pub buf_size: i32,
    /// The sample bytes, zero-padded to `POOL_BUF_CAPACITY`.
    pub buf: Vec<u8>,
}

impl KernelPoolEntry {
    /// The record's shape invariant: the buffer has exactly its fixed
    /// capacity, the declared counts match the bytes in use, and the
    /// padding is zero.
    pub open spec fn wf(&self) -> bool {
        &&& self.buf@.len() == POOL_BUF_CAPACITY
        &&& 0 <= self.buf_size <= POOL_BUF_CAPACITY
        &&& self.entropy_count == 8 * self.buf_size
        &&& forall|i: int| self.buf_size <= i < POOL_BUF_CAPACITY ==> self.buf@[i] == 0
    }

    /// Builds a record from one sample.  A sample larger than the fixed
    /// buffer is rejected rather than silently overflowing the record.
    pub fn from_sample(bytes: &[u8]) -> (r: Result<KernelPoolEntry, CollectError>)
        ensures
            bytes@.len() <= POOL_BUF_CAPACITY ==> ({
                &&& r is Ok
                &&& r->Ok_0.wf()
                &&& r->Ok_0.buf_size == bytes@.len()
                &&& r->Ok_0.entropy_count == 8 * bytes@.len()
                &&& r->Ok_0.buf@.subrange(0, bytes@.len() as int) == bytes@
            }),
            bytes@.len() > POOL_BUF_CAPACITY ==> r is Err && r->Err_0 is OversizedSample,
    {
        if bytes.len() > POOL_BUF_CAPACITY {
            return Err(CollectError::OversizedSample);
        }
        let mut buf: Vec<u8> = Vec::new();
        let mut i: usize = 0;
        while i < bytes.len()
            invariant
                i <= bytes@.len() <= POOL_BUF_CAPACITY,
                buf@.len() == i,
                buf@ =~= bytes@.take(i as int),
            decreases bytes@.len() - i,
        {
            buf.push(bytes[i]);
            i = i + 1;
        }
        while i < POOL_BUF_CAPACITY
            invariant
                bytes@.len() <= i <= POOL_BUF_CAPACITY,
                buf@.len() == i,
                buf@.take(bytes@.len() as int) =~= bytes@,
                forall|j: int| bytes@.len() <= j < i ==> buf@[j] == 0,
            decreases POOL_BUF_CAPACITY - i,
        {
            buf.push(0u8);
            i = i + 1;
        }
        let entry = KernelPoolEntry {
            entropy_count: (bytes.len() * 8) as i32,
            buf_size: bytes.len() as i32,
            buf,
        };
        proof {
            assert(entry.buf@.subrange(0, bytes@.len() as int) =~= bytes@);
        }
        Ok(entry)
    }
}

} // verus!
