//! The OS sample source: draws fixed-size random buffers from the
//! platform CSPRNG and turns them into transport samples or bounded random
//! numbers.  The one call into the platform stands behind a trusted
//! wrapper; everything downstream of it is verified for every value the
//! platform could return.

use vstd::prelude::*;

use crate::encode::{encode_bits, is_bit_string, lemma_bits_of_props};
use crate::errors::CollectError;

verus! {

/// Relies on getrandom::fill: fills the buffer in place with random bytes
/// from the OS CSPRNG, leaving its length unchanged; on failure reports
/// the platform's error text.  Nothing can be promised about the contents.
#[verifier::external_body]
fn os_fill(buf: &mut Vec<u8>) -> (r: Result<(), String>)
    ensures
        final(buf)@.len() == old(buf)@.len(),
{
    match getrandom::fill(buf.as_mut_slice()) {
        Ok(()) => Ok(()),
        Err(e) => Err(e.to_string()),
    }
}

/// Draws `n` random bytes from the OS CSPRNG.
pub fn os_random_bytes(n: usize) -> (r: Result<Vec<u8>, CollectError>)
    ensures
        r matches Ok(v) ==> v@.len() == n,
        r matches Err(e) ==> e is RandomSource,
{
    let mut buf: Vec<u8> = Vec::new();
    let mut i: usize = 0;
    while i < n
        invariant
            buf@.len() == i,
            i <= n,
        decreases n - i,
    {
        buf.push(0u8);
        i = i + 1;
    }
    match os_fill(&mut buf) {
        Ok(()) => Ok(buf),
        Err(detail) => Err(CollectError::RandomSource { detail }),
    }
}

/// The number of bytes in one OS-sourced entropy sample.
pub const SAMPLE_BYTES: usize = 32;

/// Draws one entropy sample from the OS CSPRNG and expands it to its
/// binary-digit line: 256 characters, each `'0'` or `'1'`.
pub fn get_entropy_sample() -> (r: Result<String, CollectError>)
    ensures
        r matches Ok(s) ==> s@.len() == 8 * SAMPLE_BYTES && is_bit_string(s@),
        r matches Err(e) ==> e is RandomSource,
{
    let buf = match os_random_bytes(SAMPLE_BYTES) {
        Ok(v) => v,
        Err(e) => {
            return Err(e);
        },
    };
    let line = encode_bits(buf.as_slice());
    proof {
        lemma_bits_of_props(buf@);
    }
    Ok(line)
}

/// The value of eight bytes read as a little-endian 64-bit integer.
pub open spec fn le64_value(bs: Seq<u8>) -> int
    recommends
        bs.len() == 8,
{
    bs[0] + 256 * (bs[1] + 256 * (bs[2] + 256 * (bs[3] + 256 * (bs[4] + 256 * (bs[5] + 256 * (
    bs[6] + 256 * bs[7]))))))
}

/// Assembles a `u64` from eight little-endian bytes.
pub fn u64_from_le(bytes: &Vec<u8>) -> (r: u64)
    requires
        bytes@.len() == 8,
    ensures
        r == le64_value(bytes@),
{
    let b0 = bytes[0] as u64;
    let b1 = bytes[1] as u64;
    let b2 = bytes[2] as u64;
    let b3 = bytes[3] as u64;
    let b4 = bytes[4] as u64;
    let b5 = bytes[5] as u64;
    let b6 = bytes[6] as u64;
    let b7 = bytes[7] as u64;
    b0 + 256 * (b1 + 256 * (b2 + 256 * (b3 + 256 * (b4 + 256 * (b5 + 256 * (b6 + 256 * b7))))))
}

/// The absolute value of `u` reinterpreted as a two's-complement signed
/// 64-bit integer.
pub open spec fn spec_magnitude(u: u64) -> int {
    if u < 0x8000000000000000 {
        u as int
    } else {
        0x10000000000000000 - u
    }
}

/// Computes the two's-complement magnitude of a raw 64-bit draw without
/// the overflow the naive absolute value has at the most negative value.
pub fn magnitude(u: u64) -> (r: u64)
    ensures
        r == spec_magnitude(u),
        r <= 0x8000000000000000u64,
{
    if u >= 0x8000000000000000u64 {
        (u64::MAX - u) + 1
    } else {
        u
    }
}

/// Folds a raw 64-bit draw into `start..=end` by reducing its magnitude
/// modulo the width of the range.  The modulo bias for ranges that do not
/// divide `2^63` is a documented limitation of the scheme, not corrected
/// here.
pub fn bounded_value(start: i64, end: i64, raw: u64) -> (r: i64)
    requires
        start <= end,
        end - start < i64::MAX,
    ensures
        start <= r <= end,
        r == start + spec_magnitude(raw) % (end - start + 1),
{
    let range: u64 = ((end - start) as u64) + 1;
    let m: u64 = magnitude(raw) % range;
    start + (m as i64)
}

/// Draws a random number uniformly-modulo from `start..=end` using one
/// 64-bit draw from the OS CSPRNG.
pub fn generate_random_number(start: i64, end: i64) -> (r: Result<i64, CollectError>)
    requires
        start <= end,
        end - start < i64::MAX,
    ensures
        r matches Ok(v) ==> start <= v <= end,
        r matches Err(e) ==> e is RandomSource,
{
    let buf = match os_random_bytes(8) {
        Ok(v) => v,
        Err(e) => {
            return Err(e);
        },
    };
    let raw = u64_from_le(&buf);
    Ok(bounded_value(start, end, raw))
}

} // verus!
