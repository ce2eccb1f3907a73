# enclave

Verified core of an SGX enclave worker that seals a value, keeps the sealed log
in an untrusted key-value store, and fetches and unseals it again.

- `src/scratch_pad.rs` — the scratch pad that carries a sealed log across the
  enclave boundary: a four-byte little-endian length followed by the payload;
  reading, writing, and the law that a framed payload reads back unchanged.
- `src/db.rs` — the untrusted side's store of sealed logs keyed by byte strings,
  with its view as a map and the read-after-write laws.
- `src/record.rs` — the records that are sealed: `Item` and the random record.
- `src/save.rs` — saving and fetching as state machines: each entry point returns
  the first action, and `step` turns the outcome of an action into the next one.
- `src/enclave.rs` — the enclave's sealing and unsealing of a random record as
  state machines, and the greeting it saves.
- `app/` — the worker program: it drives the machines, performing each action
  with the SGX SDK (`sgx_tseal`, `sgx_rand`), `serde_cbor`, and the store.
- `tests/` — tests of the library on concrete values.
