//! The enclave's own sealing and unsealing of a record of random bytes, as state
//! machines driven by the runtime in the same way as those of `save`. A finished run
//! reports an SGX status code.

use vstd::prelude::*;
use crate::record::RandDataSerializable;
use crate::{SGX_ERROR_INVALID_PARAMETER, SGX_ERROR_UNEXPECTED, SGX_SUCCESS};
use vstd::utf8::{decode_utf8, encode_utf8, is_ascii_chars, valid_utf8};

verus! {

/// Where a sealing run stands.
pub enum SealState {
    /// Waiting for random bytes.
    DrawingRandom { sealed_log_size: u32 },
    /// Waiting for the record to be encoded.
    Encoding { sealed_log_size: u32 },
    /// Waiting for the encoded record to be sealed.
    Sealing { sealed_log_size: u32 },
    /// Waiting for the sealed log to be written into the caller's buffer.
    Writing,
    /// The run has ended.
    Finished,
}

/// What the runtime reports back to a sealing run.
pub enum SealEvent {
    /// No random number generator could be had.
    RandomUnavailable,
    /// These random bytes were drawn.
    RandomDrawn { bytes: [u8; 16] },
    /// The record was encoded.
    Encoded,
    /// Sealing failed with the given status.
    SealFailed { status: u32 },
    /// The encoded record was sealed.
    Sealed,
    /// Writing the sealed log into the caller's buffer succeeded or not.
    LogWritten { written: bool },
}

/// What a sealing run asks the runtime to do next.
pub enum SealAction {
    /// Draw sixteen random bytes.
    DrawRandom,
    /// Encode this record.
    EncodeRecord { record: RandDataSerializable },
    /// Seal the encoded record, with no additional authenticated data.
    SealEncoded,
    /// Write the sealed log into the caller's buffer, whose size is given.
    WriteSealedLog { sealed_log_size: u32 },
    /// The run is over, with this status.
    Finish { status: u32 },
}

/// `event` is one that a sealing run in `state` can receive.
pub open spec fn seal_accepts(state: SealState, event: SealEvent) -> bool {
    match state {
        SealState::DrawingRandom { .. } => event is RandomUnavailable || event is RandomDrawn,
        SealState::Encoding { .. } => event is Encoded,
        SealState::Sealing { .. } => event is SealFailed || event is Sealed,
        SealState::Writing => event is LogWritten,
        SealState::Finished => false,
    }
}

/// Starts sealing a fresh random record into a caller's buffer of `len` bytes.
pub fn seal(len: u32) -> (r: (SealState, SealAction))
    ensures
        r.0 == (SealState::DrawingRandom { sealed_log_size: len }),
        r.1 == SealAction::DrawRandom,
{
    (SealState::DrawingRandom { sealed_log_size: len }, SealAction::DrawRandom)
}

impl SealState {
    /// Moves a sealing run on by one event.
    pub fn step(self, event: SealEvent) -> (r: (SealState, SealAction))
        requires
            seal_accepts(self, event),
        ensures
            match (self, event) {
                (SealState::DrawingRandom { .. }, SealEvent::RandomUnavailable) => {
                    &&& r.0 == SealState::Finished
                    &&& r.1 == (SealAction::Finish { status: SGX_ERROR_UNEXPECTED })
                },
                (SealState::DrawingRandom { sealed_log_size }, SealEvent::RandomDrawn { bytes }) => {
                    &&& r.0 == (SealState::Encoding { sealed_log_size })
                    &&& r.1 matches SealAction::EncodeRecord { record }
                    &&& record.key == crate::record::RAND_DATA_KEY
                    &&& record.rand == bytes
                    &&& record.vec@ == bytes@
                },
                (SealState::Encoding { sealed_log_size }, SealEvent::Encoded) => {
                    &&& r.0 == (SealState::Sealing { sealed_log_size })
                    &&& r.1 == SealAction::SealEncoded
                },
                (SealState::Sealing { .. }, SealEvent::SealFailed { status }) => {
                    &&& r.0 == SealState::Finished
                    &&& r.1 == (SealAction::Finish { status })
                },
                (SealState::Sealing { sealed_log_size }, SealEvent::Sealed) => {
                    &&& r.0 == SealState::Writing
                    &&& r.1 == (SealAction::WriteSealedLog { sealed_log_size })
                },
                (SealState::Writing, SealEvent::LogWritten { written }) => {
                    &&& r.0 == SealState::Finished
                    &&& r.1 == (SealAction::Finish {
                        status: if written { SGX_SUCCESS } else { SGX_ERROR_INVALID_PARAMETER },
                    })
                },
                _ => false,
            },
    {
        match self {
            SealState::DrawingRandom { sealed_log_size } => match event {
                SealEvent::RandomDrawn { bytes } => {
                    let record = RandDataSerializable::from_random(bytes);
                    (SealState::Encoding { sealed_log_size }, SealAction::EncodeRecord { record })
                },
                _ => (SealState::Finished, SealAction::Finish { status: SGX_ERROR_UNEXPECTED }),
            },
            SealState::Encoding { sealed_log_size } => (
                SealState::Sealing { sealed_log_size },
                SealAction::SealEncoded,
            ),
            SealState::Sealing { sealed_log_size } => match event {
                SealEvent::SealFailed { status } => (SealState::Finished, SealAction::Finish { status }),
                _ => (SealState::Writing, SealAction::WriteSealedLog { sealed_log_size }),
            },
            _ => match event {
                SealEvent::LogWritten { written } => {
                    let status = if written { SGX_SUCCESS } else { SGX_ERROR_INVALID_PARAMETER };
                    (SealState::Finished, SealAction::Finish { status })
                },
                _ => (SealState::Finished, SealAction::Finish { status: SGX_ERROR_UNEXPECTED }),
            },
        }
    }
}

/// Where an unsealing run stands.
pub enum UnsealState {
    /// Waiting for the caller's buffer to be read as a sealed log.
    Reading,
    /// Waiting for the sealed log to be unsealed.
    Unsealing,
    /// Waiting for the unsealed bytes to be decoded into a record.
    Decoding,
    /// The run has ended.
    Finished,
}

/// What the runtime reports back to an unsealing run.
pub enum UnsealEvent {
    /// The buffer is not a sealed log.
    LogUnreadable,
    /// The buffer was read as a sealed log.
    LogRead,
    /// Unsealing failed with the given status.
    UnsealFailed { status: u32 },
    /// The sealed log was unsealed.
    Unsealed,
    /// The unsealed bytes were decoded into this record.
    Decoded { record: RandDataSerializable },
}

/// What an unsealing run asks the runtime to do next.
pub enum UnsealAction {
    /// Read the caller's buffer, of the given size, as a sealed log.
    ReadSealedLog { sealed_log_size: u32 },
    /// Unseal the sealed log.
    UnsealLog,
    /// Decode the unsealed bytes into a record.
    DecodeRecord,
    /// The run is over, with this status; on success it carries the record.
    Finish { status: u32, record: Option<RandDataSerializable> },
}

/// `event` is one that an unsealing run in `state` can receive.
pub open spec fn unseal_accepts(state: UnsealState, event: UnsealEvent) -> bool {
    match state {
        UnsealState::Reading => event is LogUnreadable || event is LogRead,
        UnsealState::Unsealing => event is UnsealFailed || event is Unsealed,
        UnsealState::Decoding => event is Decoded,
        UnsealState::Finished => false,
    }
}

/// Starts unsealing the sealed log in a caller's buffer of `sealed_log_size` bytes.
pub fn unseal(sealed_log_size: u32) -> (r: (UnsealState, UnsealAction))
    ensures
        r.0 == UnsealState::Reading,
        r.1 == (UnsealAction::ReadSealedLog { sealed_log_size }),
{
    (UnsealState::Reading, UnsealAction::ReadSealedLog { sealed_log_size })
}

impl UnsealState {
    /// Moves an unsealing run on by one event.
    pub fn step(self, event: UnsealEvent) -> (r: (UnsealState, UnsealAction))
        requires
            unseal_accepts(self, event),
        ensures
            match (self, event) {
                (UnsealState::Reading, UnsealEvent::LogUnreadable) => {
                    &&& r.0 == UnsealState::Finished
                    &&& r.1 == (UnsealAction::Finish { status: SGX_ERROR_INVALID_PARAMETER, record: None })
                },
                (UnsealState::Reading, UnsealEvent::LogRead) => {
                    &&& r.0 == UnsealState::Unsealing
                    &&& r.1 == UnsealAction::UnsealLog
                },
                (UnsealState::Unsealing, UnsealEvent::UnsealFailed { status }) => {
                    &&& r.0 == UnsealState::Finished
                    &&& r.1 == (UnsealAction::Finish { status, record: None })
                },
                (UnsealState::Unsealing, UnsealEvent::Unsealed) => {
                    &&& r.0 == UnsealState::Decoding
                    &&& r.1 == UnsealAction::DecodeRecord
                },
                (UnsealState::Decoding, UnsealEvent::Decoded { record }) => {
                    &&& r.0 == UnsealState::Finished
                    &&& r.1 == (UnsealAction::Finish { status: SGX_SUCCESS, record: Some(record) })
                },
                _ => false,
            },
    {
        match self {
            UnsealState::Reading => match event {
                UnsealEvent::LogRead => (UnsealState::Unsealing, UnsealAction::UnsealLog),
                _ => (
                    UnsealState::Finished,
                    UnsealAction::Finish { status: SGX_ERROR_INVALID_PARAMETER, record: None },
                ),
            },
            UnsealState::Unsealing => match event {
                UnsealEvent::UnsealFailed { status } => (
                    UnsealState::Finished,
                    UnsealAction::Finish { status, record: None },
                ),
                _ => (UnsealState::Decoding, UnsealAction::DecodeRecord),
            },
            _ => match event {
                UnsealEvent::Decoded { record } => (
                    UnsealState::Finished,
                    UnsealAction::Finish { status: SGX_SUCCESS, record: Some(record) },
                ),
                _ => (
                    UnsealState::Finished,
                    UnsealAction::Finish { status: SGX_ERROR_UNEXPECTED, record: None },
                ),
            },
        }
    }
}

/// `String::push`: appends the character to the string.
#[verifier::external_body]
fn string_push(s: &mut String, c: char)
    ensures
        final(s)@ == old(s)@.push(c),
{
    s.push(c)
}

/// `String::from_utf8`: the bytes decoded as UTF-8, when they are valid UTF-8.
#[verifier::external_body]
fn string_from_utf8(bytes: Vec<u8>) -> (s: Option<String>)
    ensures
        s is Some <==> valid_utf8(bytes@),
        s matches Some(s) ==> s@ == decode_utf8(bytes@),
{
    String::from_utf8(bytes).ok()
}

/// The greeting that the enclave composes from a literal, an array of bytes taken as
/// characters, and a vector of UTF-8 bytes: "This is a in-Enclave Rust string!".
pub fn hello_string() -> (s: String)
    ensures
        s@ == "This is a in-Enclave Rust string!"@,
{
    let rust_raw_string = "This is a in-Enclave ";
    let word: [u8; 4] = [82, 117, 115, 116];
    let word_vec: Vec<u8> = vec![32, 115, 116, 114, 105, 110, 103, 33];

    let mut hello_string = String::from_str(rust_raw_string);
    let mut i: usize = 0;
    while i < 4
        invariant
            0 <= i <= 4,
            word@ == seq![82u8, 117u8, 115u8, 116u8],
            hello_string@ == rust_raw_string@ + word@.subrange(0, i as int).map_values(|b: u8| b as char),
        decreases 4 - i,
    {
        string_push(&mut hello_string, word[i] as char);
        i = i + 1;
        assert(word@.subrange(0, i as int).map_values(|b: u8| b as char)
            =~= word@.subrange(0, i - 1).map_values(|b: u8| b as char).push(word@[i - 1] as char));
    }

    let ghost tail: Seq<char> = seq![' ', 's', 't', 'r', 'i', 'n', 'g', '!'];
    proof {
        assert(is_ascii_chars(tail));
        vstd::utf8::is_ascii_chars_encode_utf8(tail);
        assert(word_vec@ =~= encode_utf8(tail));
        vstd::utf8::encode_utf8_valid_utf8(tail);
        vstd::utf8::encode_utf8_decode_utf8(tail);
    }
    let rest = string_from_utf8(word_vec).unwrap();
    hello_string.append(rest.as_str());
    proof {
        reveal_strlit("This is a in-Enclave ");
        reveal_strlit("This is a in-Enclave Rust string!");
        assert(word@.subrange(0, 4) == word@);
        assert(hello_string@ =~= "This is a in-Enclave Rust string!"@);
    }
    hello_string
}

} // verus!
