//! Entropy acquisition and distribution pipeline with a small key/cipher
//! service built on it.
//!
//! The library samples randomness from the operating system's CSPRNG or from
//! a serial device, converts each sample to a binary-digit line, streams the
//! lines to a file, the screen or a discard sink under throttled progress
//! reporting, and can prepare fixed-layout records for privileged injection
//! into the kernel entropy pool.  A companion service derives 256-bit keys
//! from the same randomness and performs authenticated encryption and
//! decryption with them.
//!
//! All decision logic is verified; calls into the platform CSPRNG, the hex
//! codec and the AES-GCM implementation stand behind small trusted wrappers
//! whose contracts state what those libraries document.

pub mod cipher;
pub mod collect;
pub mod encode;
pub mod entropy;
pub mod errors;
pub mod kernel_pool;
pub mod parse;
pub mod progress;
pub mod request;
