use enclave::db::Database;
use enclave::scratch_pad::put_data_into_scratch_pad;
use enclave::enclave::{seal, unseal, SealAction, SealEvent, SealState, UnsealAction, UnsealEvent, UnsealState};
use enclave::record::{Item, RandDataSerializable};
use enclave::save::{fetch, save, FetchAction, FetchEvent, FetchState, SaveAction, SaveEvent, SaveState};
use enclave::{SCRATCH_PAD_SIZE, SGX_ERROR_INVALID_PARAMETER, SGX_ERROR_UNEXPECTED, SGX_SUCCESS};

const SEALED_HEADER: usize = 560;

fn save_until_sealed(len: usize) -> (SaveState, SaveAction) {
    let (state, action) = save(vec![6, 6, 6], String::from("hello"));
    match action {
        SaveAction::EncodeItem { item } => assert_eq!(item.name, "hello"),
        _ => panic!("expected an encoding"),
    }
    let (state, action) = state.step(SaveEvent::Encoded { len });
    assert!(matches!(action, SaveAction::SealEncoded));
    assert!(matches!(state, SaveState::Sealing { encoded_len, .. } if encoded_len == len));
    state.step(SaveEvent::Sealed)
}

#[test]
fn save_runs_to_success() {
    let (state, action) = save_until_sealed(10);
    assert!(matches!(action, SaveAction::WriteSealedLog { sealed_log_size } if sealed_log_size as usize == SEALED_HEADER + 10));
    let (state, action) = state.step(SaveEvent::LogWritten { written: true });
    match action {
        SaveAction::StoreSealedLog { key, sealed_log_size } => {
            assert_eq!(key, vec![6, 6, 6]);
            assert_eq!(sealed_log_size, SEALED_HEADER + 10);
        },
        _ => panic!("expected a store"),
    }
    let (state, action) = state.step(SaveEvent::Stored);
    assert!(matches!(state, SaveState::Finished));
    assert!(matches!(action, SaveAction::Finish { result: Ok(s) } if s == SGX_SUCCESS));
}

#[test]
fn save_reports_a_sealing_failure() {
    let (state, _) = save(vec![1], String::new());
    let (state, _) = state.step(SaveEvent::Encoded { len: 3 });
    let (state, action) = state.step(SaveEvent::SealFailed { status: 0x0000_0003 });
    assert!(matches!(state, SaveState::Finished));
    assert!(matches!(action, SaveAction::Finish { result: Err(3) }));
}

#[test]
fn save_reports_an_unwritten_log_as_invalid_parameter() {
    let (state, _) = save_until_sealed(0);
    let (state, action) = state.step(SaveEvent::LogWritten { written: false });
    assert!(matches!(state, SaveState::Finished));
    assert!(matches!(action, SaveAction::Finish { result: Err(s) } if s == SGX_ERROR_INVALID_PARAMETER));
}

#[test]
fn sealed_log_size_counts_the_header() {
    let (_, action) = save_until_sealed(SCRATCH_PAD_SIZE - SEALED_HEADER);
    assert!(matches!(action, SaveAction::WriteSealedLog { sealed_log_size } if sealed_log_size as usize == SCRATCH_PAD_SIZE));
}

#[test]
fn fetch_runs_to_the_item() {
    let (state, action) = fetch(vec![6, 6, 6]);
    assert!(matches!(state, FetchState::Loading));
    match action {
        FetchAction::LoadFromDb { key, scratch_pad_size } => {
            assert_eq!(key, vec![6, 6, 6]);
            assert_eq!(scratch_pad_size, SCRATCH_PAD_SIZE);
        },
        _ => panic!("expected a load"),
    }
    let pad: Vec<u8> = vec![3, 0, 0, 0, 7, 8, 9, 0, 0];
    let (state, action) = state.step(FetchEvent::Loaded { scratch_pad: pad });
    match action {
        FetchAction::ReadSealedLog { sealed_log, sealed_log_size } => {
            assert_eq!(sealed_log, vec![7, 8, 9]);
            assert_eq!(sealed_log_size, 3);
        },
        _ => panic!("expected a read"),
    }
    let (state, action) = state.step(FetchEvent::LogRead);
    assert!(matches!(action, FetchAction::UnsealLog));
    let (state, action) = state.step(FetchEvent::Unsealed);
    assert!(matches!(action, FetchAction::DecodeItem));
    let (state, action) = state.step(FetchEvent::Decoded { item: Item::new(String::from("hello")) });
    assert!(matches!(state, FetchState::Finished));
    match action {
        FetchAction::Finish { result, item } => {
            assert_eq!(result, Ok(SGX_SUCCESS));
            assert_eq!(item.unwrap().name, "hello");
        },
        _ => panic!("expected the end"),
    }
}

#[test]
fn fetch_reports_an_unreadable_log() {
    let (state, _) = fetch(vec![1]);
    let (state, _) = state.step(FetchEvent::Loaded { scratch_pad: vec![1, 0, 0, 0, 5] });
    let (state, action) = state.step(FetchEvent::LogUnreadable);
    assert!(matches!(state, FetchState::Finished));
    assert!(matches!(action, FetchAction::Finish { result: Err(s), item: None } if s == SGX_ERROR_INVALID_PARAMETER));
}

#[test]
fn fetch_reports_an_unsealing_failure() {
    let (state, _) = fetch(vec![1]);
    let (state, _) = state.step(FetchEvent::Loaded { scratch_pad: vec![1, 0, 0, 0, 5] });
    let (state, _) = state.step(FetchEvent::LogRead);
    let (state, action) = state.step(FetchEvent::UnsealFailed { status: 0x0000_3001 });
    assert!(matches!(state, FetchState::Finished));
    assert!(matches!(action, FetchAction::Finish { result: Err(0x3001), item: None }));
}

#[test]
fn seal_runs_to_success() {
    let (state, action) = seal(2048);
    assert!(matches!(action, SealAction::DrawRandom));
    let bytes: [u8; 16] = [9; 16];
    let (state, action) = state.step(SealEvent::RandomDrawn { bytes });
    match action {
        SealAction::EncodeRecord { record } => {
            assert_eq!(record.key, 0x1234);
            assert_eq!(record.rand, bytes);
            assert_eq!(record.vec, vec![9u8; 16]);
        },
        _ => panic!("expected an encoding"),
    }
    let (state, action) = state.step(SealEvent::Encoded);
    assert!(matches!(action, SealAction::SealEncoded));
    let (state, action) = state.step(SealEvent::Sealed);
    assert!(matches!(action, SealAction::WriteSealedLog { sealed_log_size: 2048 }));
    let (state, action) = state.step(SealEvent::LogWritten { written: true });
    assert!(matches!(state, SealState::Finished));
    assert!(matches!(action, SealAction::Finish { status } if status == SGX_SUCCESS));
}

#[test]
fn seal_without_randomness_is_unexpected() {
    let (state, _) = seal(16);
    let (state, action) = state.step(SealEvent::RandomUnavailable);
    assert!(matches!(state, SealState::Finished));
    assert!(matches!(action, SealAction::Finish { status } if status == SGX_ERROR_UNEXPECTED));
}

#[test]
fn seal_failures_are_reported() {
    let (state, _) = seal(16);
    let (state, _) = state.step(SealEvent::RandomDrawn { bytes: [0; 16] });
    let (state, _) = state.step(SealEvent::Encoded);
    let (_, action) = state.step(SealEvent::SealFailed { status: 3 });
    assert!(matches!(action, SealAction::Finish { status: 3 }));

    let (state, _) = seal(16);
    let (state, _) = state.step(SealEvent::RandomDrawn { bytes: [0; 16] });
    let (state, _) = state.step(SealEvent::Encoded);
    let (state, _) = state.step(SealEvent::Sealed);
    let (_, action) = state.step(SealEvent::LogWritten { written: false });
    assert!(matches!(action, SealAction::Finish { status } if status == SGX_ERROR_INVALID_PARAMETER));
}

#[test]
fn unseal_runs_to_the_record() {
    let (state, action) = unseal(600);
    assert!(matches!(action, UnsealAction::ReadSealedLog { sealed_log_size: 600 }));
    let (state, action) = state.step(UnsealEvent::LogRead);
    assert!(matches!(action, UnsealAction::UnsealLog));
    let (state, action) = state.step(UnsealEvent::Unsealed);
    assert!(matches!(action, UnsealAction::DecodeRecord));
    let record = RandDataSerializable::from_random([4; 16]);
    let (state, action) = state.step(UnsealEvent::Decoded { record });
    assert!(matches!(state, UnsealState::Finished));
    match action {
        UnsealAction::Finish { status, record } => {
            assert_eq!(status, SGX_SUCCESS);
            assert_eq!(record.unwrap().vec, vec![4u8; 16]);
        },
        _ => panic!("expected the end"),
    }
}

#[test]
fn unseal_failures_are_reported() {
    let (state, _) = unseal(1);
    let (_, action) = state.step(UnsealEvent::LogUnreadable);
    assert!(matches!(action, UnsealAction::Finish { status, record: None } if status == SGX_ERROR_INVALID_PARAMETER));
    let (state, _) = unseal(1);
    let (state, _) = state.step(UnsealEvent::LogRead);
    let (_, action) = state.step(UnsealEvent::UnsealFailed { status: 0x3002 });
    assert!(matches!(action, UnsealAction::Finish { status: 0x3002, record: None }));
}

#[test]
fn save_then_fetch_through_the_store() {
    let mut db = Database::new();
    let (state, _) = save(vec![6, 6, 6], String::from("x"));
    let (state, _) = state.step(SaveEvent::Encoded { len: 4 });
    let (state, _) = state.step(SaveEvent::Sealed);
    // the runtime writes the sealed log into the enclave's scratch pad
    let mut enclave_pad: Vec<u8> = vec![0; SCRATCH_PAD_SIZE];
    for i in 0..(SEALED_HEADER + 4) {
        enclave_pad[i] = (i % 200) as u8 + 1;
    }
    let (state, action) = state.step(SaveEvent::LogWritten { written: true });
    let (key, size) = match action {
        SaveAction::StoreSealedLog { key, sealed_log_size } => (key, sealed_log_size),
        _ => panic!("expected a store"),
    };
    db.save_to_db(&key, &enclave_pad, size);
    let (_, action) = state.step(SaveEvent::Stored);
    assert!(matches!(action, SaveAction::Finish { result: Ok(0) }));

    let (state, _) = fetch(vec![6, 6, 6]);
    let mut fetch_pad: Vec<u8> = vec![0; SCRATCH_PAD_SIZE];
    assert!(db.get_from_db(&vec![6, 6, 6], &mut fetch_pad));
    let (_, action) = state.step(FetchEvent::Loaded { scratch_pad: fetch_pad });
    match action {
        FetchAction::ReadSealedLog { sealed_log, sealed_log_size } => {
            assert_eq!(sealed_log, enclave_pad[..SEALED_HEADER + 4].to_vec());
            assert_eq!(sealed_log_size as usize, SEALED_HEADER + 4);
        },
        _ => panic!("expected a read"),
    }
    let mut unused: Vec<u8> = vec![0; 2];
    assert!(!put_data_into_scratch_pad(&vec![1, 2, 3], &mut unused));
}
