//! Saving a value under a key, and fetching it back, as state machines.
//!
//! Each machine is started by its entry point, which returns the first state and
//! the first action. The runtime performs each action (encoding, sealing, writing
//! the sealed log into the scratch pad, calling out to the store) and hands the
//! outcome back to `step` as an event, until a `Finish` action ends the run.
//! A finished run reports `Ok(status)` or `Err(status)`, an SGX status code.

use vstd::prelude::*;
use vstd::layout::size_of;
use sgx_types::sgx_sealed_data_t;
use crate::record::Item;
use crate::scratch_pad::{
    frame_fits, frame_into, framed_payload, get_data_from_scratch_pad, is_framed, lemma_frame_roundtrip,
    stored_length,
};
use crate::{SCRATCH_PAD_SIZE, SGX_ERROR_INVALID_PARAMETER, SGX_SUCCESS};

verus! {

/// The fixed header of a sealed log, as the SGX SDK lays it out.
#[verifier::external_type_specification]
#[verifier::external_body]
pub struct ExSgxSealedData(sgx_sealed_data_t);

/// Size of the sealed log of an encoded value of `encoded_len` bytes: the sealed-data
/// header followed by the encrypted value.
pub open spec fn sealed_log_size_of(encoded_len: nat) -> nat {
    size_of::<sgx_sealed_data_t>() + encoded_len
}

/// Law: every sealed log is the sealed-data header followed by the encoded value, so its
/// size exceeds the encoded length by the header's size, whatever that length.
pub proof fn lemma_sealed_log_size_adds_header(encoded_len: nat)
    ensures
        sealed_log_size_of(encoded_len) == size_of::<sgx_sealed_data_t>() + encoded_len,
        sealed_log_size_of(encoded_len) - encoded_len == size_of::<sgx_sealed_data_t>(),
{
}

/// Where a save stands.
pub enum SaveState {
    /// Waiting for the item to be encoded.
    Encoding { key: Vec<u8> },
    /// Waiting for the encoded item to be sealed.
    Sealing { key: Vec<u8>, encoded_len: usize },
    /// Waiting for the sealed log to be written into the scratch pad.
    Writing { key: Vec<u8>, sealed_log_size: usize },
    /// Waiting for the store to keep the sealed log.
    Storing,
    /// The run has ended.
    Finished,
}

/// What the runtime reports back to a save.
pub enum SaveEvent {
    /// The item was encoded into `len` bytes.
    Encoded { len: usize },
    /// Sealing failed with the given status.
    SealFailed { status: u32 },
    /// The encoded item was sealed.
    Sealed,
    /// Writing the sealed log into the scratch pad succeeded or not.
    LogWritten { written: bool },
    /// The store kept the sealed log.
    Stored,
}

/// What a save asks the runtime to do next.
pub enum SaveAction {
    /// Encode the item.
    EncodeItem { item: Item },
    /// Seal the encoded item, with no additional authenticated data.
    SealEncoded,
    /// Write the sealed log, announcing this size, into the scratch pad.
    WriteSealedLog { sealed_log_size: u32 },
    /// Ask the store to keep, under `key`, the first `sealed_log_size` bytes of the scratch pad.
    StoreSealedLog { key: Vec<u8>, sealed_log_size: usize },
    /// The save is over.
    Finish { result: Result<u32, u32> },
}

/// `event` is one that a save in `state` can receive. A sealed log must fit the
/// scratch pad it is written into, and a log can only be stored under a non-empty key.
pub open spec fn save_accepts(state: SaveState, event: SaveEvent) -> bool {
    match state {
        SaveState::Encoding { .. } => event is Encoded,
        SaveState::Sealing { encoded_len, .. } => match event {
            SaveEvent::SealFailed { .. } => true,
            SaveEvent::Sealed => sealed_log_size_of(encoded_len as nat) <= SCRATCH_PAD_SIZE,
            _ => false,
        },
        SaveState::Writing { key, .. } => match event {
            SaveEvent::LogWritten { written } => written ==> key@.len() > 0,
            _ => false,
        },
        SaveState::Storing => event is Stored,
        SaveState::Finished => false,
    }
}

/// Starts saving `value` under `key`: the item named `value` is to be encoded first.
pub fn save(key: Vec<u8>, value: String) -> (r: (SaveState, SaveAction))
    ensures
        r.0 == (SaveState::Encoding { key }),
        r.1 == (SaveAction::EncodeItem { item: Item { name: value } }),
{
    let item = Item::new(value);
    (SaveState::Encoding { key }, SaveAction::EncodeItem { item })
}

impl SaveState {
    /// Moves a save on by one event.
    pub fn step(self, event: SaveEvent) -> (r: (SaveState, SaveAction))
        requires
            save_accepts(self, event),
        ensures
            match (self, event) {
                (SaveState::Encoding { key }, SaveEvent::Encoded { len }) => {
                    &&& r.0 == (SaveState::Sealing { key, encoded_len: len })
                    &&& r.1 == SaveAction::SealEncoded
                },
                (SaveState::Sealing { .. }, SaveEvent::SealFailed { status }) => {
                    &&& r.0 == SaveState::Finished
                    &&& r.1 == (SaveAction::Finish { result: Err(status) })
                },
                (SaveState::Sealing { key, encoded_len }, SaveEvent::Sealed) => {
                    &&& r.0 == (SaveState::Writing {
                        key,
                        sealed_log_size: sealed_log_size_of(encoded_len as nat) as usize,
                    })
                    &&& r.1 == (SaveAction::WriteSealedLog {
                        sealed_log_size: sealed_log_size_of(encoded_len as nat) as u32,
                    })
                    &&& r.0 matches SaveState::Writing { sealed_log_size, .. }
                        && sealed_log_size == size_of::<sgx_sealed_data_t>() + encoded_len
                    &&& r.1 matches SaveAction::WriteSealedLog { sealed_log_size }
                        && sealed_log_size == size_of::<sgx_sealed_data_t>() + encoded_len
                },
                (SaveState::Writing { key, sealed_log_size }, SaveEvent::LogWritten { written }) => {
                    if written {
                        &&& r.0 == SaveState::Storing
                        &&& r.1 == (SaveAction::StoreSealedLog { key, sealed_log_size })
                    } else {
                        &&& r.0 == SaveState::Finished
                        &&& r.1 == (SaveAction::Finish { result: Err(SGX_ERROR_INVALID_PARAMETER) })
                    }
                },
                (SaveState::Storing, SaveEvent::Stored) => {
                    &&& r.0 == SaveState::Finished
                    &&& r.1 == (SaveAction::Finish { result: Ok(SGX_SUCCESS) })
                },
                _ => false,
            },
    {
        match self {
            SaveState::Encoding { key } => match event {
                SaveEvent::Encoded { len } => (
                    SaveState::Sealing { key, encoded_len: len },
                    SaveAction::SealEncoded,
                ),
                _ => (SaveState::Finished, SaveAction::Finish { result: Err(SGX_ERROR_INVALID_PARAMETER) }),
            },
            SaveState::Sealing { key, encoded_len } => match event {
                SaveEvent::SealFailed { status } => (
                    SaveState::Finished,
                    SaveAction::Finish { result: Err(status) },
                ),
                _ => {
                    let sealed_log_size: usize = core::mem::size_of::<sgx_sealed_data_t>() + encoded_len;
                    let announced: u32 = sealed_log_size as u32;
                    (
                        SaveState::Writing { key, sealed_log_size },
                        SaveAction::WriteSealedLog { sealed_log_size: announced },
                    )
                },
            },
            SaveState::Writing { key, sealed_log_size } => match event {
                SaveEvent::LogWritten { written } => {
                    if written {
                        (SaveState::Storing, SaveAction::StoreSealedLog { key, sealed_log_size })
                    } else {
                        (
                            SaveState::Finished,
                            SaveAction::Finish { result: Err(SGX_ERROR_INVALID_PARAMETER) },
                        )
                    }
                },
                _ => (SaveState::Finished, SaveAction::Finish { result: Err(SGX_ERROR_INVALID_PARAMETER) }),
            },
            _ => (SaveState::Finished, SaveAction::Finish { result: Ok(SGX_SUCCESS) }),
        }
    }
}

/// Where a fetch stands.
pub enum FetchState {
    /// Waiting for the store to load the sealed log into the scratch pad.
    Loading,
    /// Waiting for the sealed log to be read out of the payload.
    Reading,
    /// Waiting for the sealed log to be unsealed.
    Unsealing,
    /// Waiting for the unsealed bytes to be decoded into an item.
    Decoding,
    /// The run has ended.
    Finished,
}

/// What the runtime reports back to a fetch.
pub enum FetchEvent {
    /// The store call returned; this is the scratch pad after it.
    Loaded { scratch_pad: Vec<u8> },
    /// The payload is not a sealed log.
    LogUnreadable,
    /// The payload was read as a sealed log.
    LogRead,
    /// Unsealing failed with the given status.
    UnsealFailed { status: u32 },
    /// The sealed log was unsealed.
    Unsealed,
    /// The unsealed bytes were decoded into this item.
    Decoded { item: Item },
}

/// What a fetch asks the runtime to do next.
pub enum FetchAction {
    /// Ask the store to load the sealed log kept under `key` into a scratch pad of this size.
    LoadFromDb { key: Vec<u8>, scratch_pad_size: usize },
    /// Read these bytes, announced as `sealed_log_size` long, as a sealed log.
    ReadSealedLog { sealed_log: Vec<u8>, sealed_log_size: u32 },
    /// Unseal the sealed log.
    UnsealLog,
    /// Decode the unsealed bytes into an item.
    DecodeItem,
    /// The fetch is over; on success it carries the item fetched.
    Finish { result: Result<u32, u32>, item: Option<Item> },
}

/// `event` is one that a fetch in `state` can receive. The loaded scratch pad must
/// hold a whole frame with a non-empty payload.
pub open spec fn fetch_accepts(state: FetchState, event: FetchEvent) -> bool {
    match state {
        FetchState::Loading => match event {
            FetchEvent::Loaded { scratch_pad } => is_framed(scratch_pad@) && stored_length(scratch_pad@) > 0,
            _ => false,
        },
        FetchState::Reading => event is LogUnreadable || event is LogRead,
        FetchState::Unsealing => event is UnsealFailed || event is Unsealed,
        FetchState::Decoding => event is Decoded,
        FetchState::Finished => false,
    }
}

/// Starts fetching the value kept under `key`: the store is to load it first.
pub fn fetch(key: Vec<u8>) -> (r: (FetchState, FetchAction))
    requires
        key@.len() > 0,
    ensures
        r.0 == FetchState::Loading,
        r.1 == (FetchAction::LoadFromDb { key, scratch_pad_size: SCRATCH_PAD_SIZE }),
{
    (FetchState::Loading, FetchAction::LoadFromDb { key, scratch_pad_size: SCRATCH_PAD_SIZE })
}

impl FetchState {
    /// Moves a fetch on by one event.
    pub fn step(self, event: FetchEvent) -> (r: (FetchState, FetchAction))
        requires
            fetch_accepts(self, event),
        ensures
            match (self, event) {
                (FetchState::Loading, FetchEvent::Loaded { scratch_pad }) => {
                    &&& r.0 == FetchState::Reading
                    &&& r.1 matches FetchAction::ReadSealedLog { sealed_log, sealed_log_size }
                    &&& sealed_log@ == framed_payload(scratch_pad@)
                    &&& sealed_log_size == stored_length(scratch_pad@)
                    &&& sealed_log@ == scratch_pad@.subrange(4, 4 + stored_length(scratch_pad@) as int)
                    &&& sealed_log_size == sealed_log@.len()
                },
                (FetchState::Reading, FetchEvent::LogUnreadable) => {
                    &&& r.0 == FetchState::Finished
                    &&& r.1 == (FetchAction::Finish { result: Err(SGX_ERROR_INVALID_PARAMETER), item: None })
                },
                (FetchState::Reading, FetchEvent::LogRead) => {
                    &&& r.0 == FetchState::Unsealing
                    &&& r.1 == FetchAction::UnsealLog
                },
                (FetchState::Unsealing, FetchEvent::UnsealFailed { status }) => {
                    &&& r.0 == FetchState::Finished
                    &&& r.1 == (FetchAction::Finish { result: Err(status), item: None })
                },
                (FetchState::Unsealing, FetchEvent::Unsealed) => {
                    &&& r.0 == FetchState::Decoding
                    &&& r.1 == FetchAction::DecodeItem
                },
                (FetchState::Decoding, FetchEvent::Decoded { item }) => {
                    &&& r.0 == FetchState::Finished
                    &&& r.1 == (FetchAction::Finish { result: Ok(SGX_SUCCESS), item: Some(item) })
                },
                _ => false,
            },
    {
        match self {
            FetchState::Loading => match event {
                FetchEvent::Loaded { scratch_pad } => {
                    let sealed_log = get_data_from_scratch_pad(&scratch_pad);
                    let sealed_log_size: u32 = sealed_log.len() as u32;
                    (FetchState::Reading, FetchAction::ReadSealedLog { sealed_log, sealed_log_size })
                },
                _ => (FetchState::Finished, FetchAction::Finish { result: Err(SGX_ERROR_INVALID_PARAMETER), item: None }),
            },
            FetchState::Reading => match event {
                FetchEvent::LogRead => (FetchState::Unsealing, FetchAction::UnsealLog),
                _ => (FetchState::Finished, FetchAction::Finish { result: Err(SGX_ERROR_INVALID_PARAMETER), item: None }),
            },
            FetchState::Unsealing => match event {
                FetchEvent::UnsealFailed { status } => (
                    FetchState::Finished,
                    FetchAction::Finish { result: Err(status), item: None },
                ),
                _ => (FetchState::Decoding, FetchAction::DecodeItem),
            },
            _ => match event {
                FetchEvent::Decoded { item } => (
                    FetchState::Finished,
                    FetchAction::Finish { result: Ok(SGX_SUCCESS), item: Some(item) },
                ),
                _ => (FetchState::Finished, FetchAction::Finish { result: Err(SGX_ERROR_INVALID_PARAMETER), item: None }),
            },
        }
    }
}

/// Law: when the store frames a saved, non-empty sealed log into the scratch pad, a
/// fetch that is loading accepts that pad and hands exactly the saved log on to be read.
pub proof fn lemma_fetch_reads_saved_log(
    db: Map<Seq<u8>, Seq<u8>>,
    key: Seq<u8>,
    sealed_log: Seq<u8>,
    pad: Seq<u8>,
)
    requires
        sealed_log.len() > 0,
        frame_fits(pad, sealed_log),
    ensures
        ({
            let loaded = frame_into(pad, db.insert(key, sealed_log)[key]);
            &&& is_framed(loaded)
            &&& stored_length(loaded) > 0
            &&& framed_payload(loaded) == sealed_log
            &&& stored_length(loaded) == sealed_log.len()
        }),
{
    lemma_frame_roundtrip(pad, sealed_log);
}

} // verus!
