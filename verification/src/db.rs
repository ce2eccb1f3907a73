//! The untrusted side's store of sealed logs, keyed by byte strings.

use vstd::prelude::*;
use crate::scratch_pad::{
    frame_fits, frame_into, framed_payload, is_framed, lemma_frame_roundtrip, put_data_into_scratch_pad,
};

verus! {

/// A key-value store of byte strings; no key occurs twice.
pub struct Database {
    entries: Vec<(Vec<u8>, Vec<u8>)>,
}

/// `a` and `b` hold the same bytes.
fn same_bytes(a: &Vec<u8>, b: &Vec<u8>) -> (same: bool)
    ensures
        same == (a@ == b@),
{
    if a.len() != b.len() {
        return false;
    }
    let mut i: usize = 0;
    while i < a.len()
        invariant
            a@.len() == b@.len(),
            0 <= i <= a@.len(),
            forall|j: int| 0 <= j < i ==> a@[j] == b@[j],
        decreases a.len() - i,
    {
        if a[i] != b[i] {
            return false;
        }
        i = i + 1;
    }
    assert(a@ =~= b@);
    true
}

/// The first `n` bytes of `src`, copied.
fn copy_prefix(src: &Vec<u8>, n: usize) -> (dst: Vec<u8>)
    requires
        n <= src@.len(),
    ensures
        dst@ == src@.take(n as int),
{
    let mut dst: Vec<u8> = Vec::new();
    let mut i: usize = 0;
    while i < n
        invariant
            n <= src@.len(),
            0 <= i <= n,
            dst@ == src@.take(i as int),
        decreases n - i,
    {
        dst.push(src[i]);
        i = i + 1;
        assert(dst@ =~= src@.take(i as int));
    }
    dst
}

impl Database {
    /// The keys of the entries are pairwise distinct.
    #[verifier::type_invariant]
    spec fn keys_distinct(self) -> bool {
        forall|i: int, j: int|
            0 <= i < self.entries@.len() && 0 <= j < self.entries@.len() && i != j
                ==> #[trigger] self.entries@[i].0@ != #[trigger] self.entries@[j].0@
    }

    /// `key` is the key of some entry.
    pub closed spec fn has_key(self, key: Seq<u8>) -> bool {
        exists|i: int| 0 <= i < self.entries@.len() && #[trigger] self.entries@[i].0@ == key
    }

    /// The index of the entry with key `key`.
    closed spec fn index_of(self, key: Seq<u8>) -> int {
        choose|i: int| 0 <= i < self.entries@.len() && #[trigger] self.entries@[i].0@ == key
    }

    /// The store as a map from keys to values.
    pub closed spec fn contents(self) -> Map<Seq<u8>, Seq<u8>> {
        Map::new(|k: Seq<u8>| self.has_key(k), |k: Seq<u8>| self.entries@[self.index_of(k)].1@)
    }

    proof fn lemma_entry(self, i: int)
        requires
            self.keys_distinct(),
            0 <= i < self.entries@.len(),
        ensures
            self.contents().contains_key(self.entries@[i].0@),
            self.contents()[self.entries@[i].0@] == self.entries@[i].1@,
    {
        let k = self.entries@[i].0@;
        assert(self.has_key(k));
        let j = self.index_of(k);
        assert(self.entries@[j].0@ == k);
    }

    /// An empty store.
    pub fn new() -> (db: Self)
        ensures
            db@ == Map::<Seq<u8>, Seq<u8>>::empty(),
    {
        let db = Database { entries: Vec::new() };
        assert(db.contents() =~= Map::<Seq<u8>, Seq<u8>>::empty());
        db
    }

    /// The index of the entry with key `key`, if there is one.
    fn find(&self, key: &Vec<u8>) -> (found: Option<usize>)
        ensures
            match found {
                Some(i) => i < self.entries@.len() && self.entries@[i as int].0@ == key@,
                None => !self.has_key(key@),
            },
    {
        let mut i: usize = 0;
        while i < self.entries.len()
            invariant
                0 <= i <= self.entries@.len(),
                forall|j: int| 0 <= j < i ==> #[trigger] self.entries@[j].0@ != key@,
            decreases self.entries@.len() - i,
        {
            if same_bytes(&self.entries[i].0, key) {
                return Some(i);
            }
            i = i + 1;
        }
        None
    }

    /// Stores under `key` the first `sealed_log_size` bytes of the scratch pad,
    /// replacing what the key held before.
    pub fn save_to_db(&mut self, key: &Vec<u8>, scratch_pad: &Vec<u8>, sealed_log_size: usize)
        requires
            sealed_log_size <= scratch_pad@.len(),
        ensures
            final(self)@ == old(self)@.insert(key@, scratch_pad@.take(sealed_log_size as int)),
    {
        proof {
            use_type_invariant(&*self);
        }
        let value = copy_prefix(scratch_pad, sealed_log_size);
        let ghost old_db = *self;
        let ghost v = scratch_pad@.take(sealed_log_size as int);
        match self.find(key) {
            Some(i) => {
                let k = copy_prefix(key, key.len());
                assert(k@ == key@) by { assert(key@.take(key@.len() as int) =~= key@); }
                let mut entries: Vec<(Vec<u8>, Vec<u8>)> = Vec::new();
                std::mem::swap(&mut entries, &mut self.entries);
                entries.set(i, (k, value));
                self.entries = entries;
                proof {
                    assert(self.keys_distinct()) by {
                        assert forall|a: int, b: int|
                            0 <= a < self.entries@.len() && 0 <= b < self.entries@.len() && a != b
                            implies #[trigger] self.entries@[a].0@ != #[trigger] self.entries@[b].0@ by {
                            assert(old_db.entries@[a].0@ != old_db.entries@[b].0@);
                        }
                    }
                    let m = old_db.contents().insert(key@, v);
                    assert forall|kk: Seq<u8>| #[trigger] m.contains_key(kk) == self.contents().contains_key(kk) by {
                        if kk == key@ {
                            self.lemma_entry(i as int);
                        } else {
                            if self.has_key(kk) {
                                let j = self.index_of(kk);
                                assert(old_db.entries@[j] == self.entries@[j]);
                                old_db.lemma_entry(j);
                            }
                            if old_db.has_key(kk) {
                                let j = old_db.index_of(kk);
                                assert(old_db.entries@[j] == self.entries@[j]);
                                self.lemma_entry(j);
                            }
                        }
                    }
                    assert(self.contents().dom() =~= m.dom());
                    assert forall|kk: Seq<u8>| #[trigger] self.contents().contains_key(kk) implies self.contents()[kk] == m[kk] by {
                        if kk == key@ {
                            self.lemma_entry(i as int);
                        } else {
                            let j = self.index_of(kk);
                            self.lemma_entry(j);
                            assert(old_db.entries@[j] == self.entries@[j]);
                            old_db.lemma_entry(j);
                        }
                    }
                    assert(self.contents() =~= old_db.contents().insert(key@, v));
                }
            },
            None => {
                let k = copy_prefix(key, key.len());
                assert(k@ == key@) by { assert(key@.take(key@.len() as int) =~= key@); }
                let mut entries: Vec<(Vec<u8>, Vec<u8>)> = Vec::new();
                std::mem::swap(&mut entries, &mut self.entries);
                entries.push((k, value));
                proof {
                    let n = old_db.entries@.len() as int;
                    assert(entries@[n].0@ == key@);
                    assert forall|a: int, b: int|
                        0 <= a < entries@.len() && 0 <= b < entries@.len() && a != b
                        implies #[trigger] entries@[a].0@ != #[trigger] entries@[b].0@ by {
                        if a < n && b < n {
                            assert(old_db.entries@[a].0@ != old_db.entries@[b].0@);
                        } else if a < n {
                            assert(old_db.entries@[a] == entries@[a]);
                        } else if b < n {
                            assert(old_db.entries@[b] == entries@[b]);
                        }
                    }
                }
                self.entries = entries;
                proof {
                    let n = old_db.entries@.len() as int;
                    assert(self.entries@[n].0@ == key@);
                    assert(self.keys_distinct()) by {
                        assert forall|a: int, b: int|
                            0 <= a < self.entries@.len() && 0 <= b < self.entries@.len() && a != b
                            implies #[trigger] self.entries@[a].0@ != #[trigger] self.entries@[b].0@ by {
                            if a < n && b < n {
                                assert(old_db.entries@[a].0@ != old_db.entries@[b].0@);
                            } else if a < n {
                                assert(old_db.entries@[a] == self.entries@[a]);
                            } else if b < n {
                                assert(old_db.entries@[b] == self.entries@[b]);
                            }
                        }
                    }
                    let m = old_db.contents().insert(key@, v);
                    assert forall|kk: Seq<u8>| #[trigger] m.contains_key(kk) == self.contents().contains_key(kk) by {
                        if kk == key@ {
                            self.lemma_entry(n);
                        } else {
                            if self.has_key(kk) {
                                let j = self.index_of(kk);
                                assert(j < n);
                                assert(old_db.entries@[j] == self.entries@[j]);
                                old_db.lemma_entry(j);
                            }
                            if old_db.has_key(kk) {
                                let j = old_db.index_of(kk);
                                assert(old_db.entries@[j] == self.entries@[j]);
                                self.lemma_entry(j);
                            }
                        }
                    }
                    assert(self.contents().dom() =~= m.dom());
                    assert forall|kk: Seq<u8>| #[trigger] self.contents().contains_key(kk) implies self.contents()[kk] == m[kk] by {
                        if kk == key@ {
                            self.lemma_entry(n);
                        } else {
                            let j = self.index_of(kk);
                            self.lemma_entry(j);
                            assert(j < n);
                            assert(old_db.entries@[j] == self.entries@[j]);
                            old_db.lemma_entry(j);
                        }
                    }
                    assert(self.contents() =~= old_db.contents().insert(key@, v));
                }
            },
        }
    }

    /// Frames the value stored under `key` into the scratch pad. Returns whether it
    /// did: the key is present and its value fits the pad; otherwise the pad stays as it was.
    pub fn get_from_db(&self, key: &Vec<u8>, scratch_pad: &mut Vec<u8>) -> (loaded: bool)
        ensures
            loaded == (self@.contains_key(key@) && frame_fits(old(scratch_pad)@, self@[key@])),
            loaded ==> final(scratch_pad)@ == frame_into(old(scratch_pad)@, self@[key@]),
            !loaded ==> final(scratch_pad)@ == old(scratch_pad)@,
    {
        proof {
            use_type_invariant(self);
        }
        match self.find(key) {
            Some(i) => {
                proof {
                    self.lemma_entry(i as int);
                }
                put_data_into_scratch_pad(&self.entries[i].1, scratch_pad)
            },
            None => false,
        }
    }
}

impl View for Database {
    type V = Map<Seq<u8>, Seq<u8>>;

    open spec fn view(&self) -> Map<Seq<u8>, Seq<u8>> {
        self.contents()
    }
}

/// Law: after a value is saved under `key`, loading `key` into a pad that can hold it
/// frames exactly that value into the pad.
pub proof fn lemma_load_after_save(db: Map<Seq<u8>, Seq<u8>>, key: Seq<u8>, value: Seq<u8>, pad: Seq<u8>)
    requires
        frame_fits(pad, value),
    ensures
        ({
            let saved = db.insert(key, value);
            &&& saved.contains_key(key)
            &&& frame_fits(pad, saved[key])
            &&& is_framed(frame_into(pad, saved[key]))
            &&& framed_payload(frame_into(pad, saved[key])) == value
        }),
{
    lemma_frame_roundtrip(pad, value);
}

/// Law: saving under `key` leaves every other key as it was.
pub proof fn lemma_save_keeps_other_keys(db: Map<Seq<u8>, Seq<u8>>, key: Seq<u8>, value: Seq<u8>, other: Seq<u8>)
    requires
        other != key,
    ensures
        db.insert(key, value).contains_key(other) == db.contains_key(other),
        db.contains_key(other) ==> db.insert(key, value)[other] == db[other],
{
}

} // verus!
