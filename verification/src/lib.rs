//! Verified core of an SGX enclave worker that seals values, keeps the sealed
//! logs in an untrusted key-value store, and fetches and unseals them again.
//!
//! The enclave runtime (sealing, randomness, CBOR encoding of records, the
//! ECALL/OCALL boundary) performs the outside work; this library holds the
//! scratch-pad framing, the store, and the decisions of each enclave entry
//! point as state machines that are driven step by step.

use vstd::prelude::*;

pub mod db;
pub mod enclave;
pub mod record;
pub mod save;
pub mod scratch_pad;

verus! {

/// One million bytes.
pub const MEGA_BYTE: usize = 1_000_000;

/// Size of the scratch pad that carries sealed logs across the enclave boundary.
pub const SCRATCH_PAD_SIZE: usize = MEGA_BYTE * 1;

/// Number of bytes of the little-endian length prefix of a framed payload.
pub const U32_NUM_BYTES: usize = 4;

/// SGX status code of success.
pub const SGX_SUCCESS: u32 = 0;

/// SGX status code of an unexpected error.
pub const SGX_ERROR_UNEXPECTED: u32 = 1;

/// SGX status code of an incorrect parameter.
pub const SGX_ERROR_INVALID_PARAMETER: u32 = 2;

} // verus!
