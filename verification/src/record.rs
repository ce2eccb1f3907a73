//! The records that the enclave seals: a named item, and a record of random bytes.

use vstd::prelude::*;

verus! {

/// A value kept in the store under a key.
#[derive(Clone, Debug)]
pub struct Item {
    pub name: String,
}

impl Item {
    /// An item with the given name.
    pub fn new(name: String) -> (item: Self)
        ensures
            item.name == name,
    {
        Item { name }
    }
}

impl Default for Item {
    fn default() -> (item: Self)
        ensures
            item.name@ == Seq::<char>::empty(),
    {
        Item { name: String::new() }
    }
}

/// The key that every random record carries.
pub const RAND_DATA_KEY: u32 = 0x1234;

/// A record of sixteen random bytes, kept twice: as an array and as a vector.
#[derive(Clone, Debug)]
pub struct RandDataSerializable {
    pub key: u32,
    pub rand: [u8; 16],
    pub vec: Vec<u8>,
}

impl Default for RandDataSerializable {
    fn default() -> (data: Self)
        ensures
            data.key == 0,
            data.rand@ == Seq::new(16, |i: int| 0u8),
            data.vec@ == Seq::<u8>::empty(),
    {
        let data = RandDataSerializable { key: 0, rand: [0u8; 16], vec: Vec::new() };
        assert(data.rand@ =~= Seq::new(16, |i: int| 0u8));
        data
    }
}

impl RandDataSerializable {
    /// The record that sealing builds from freshly drawn random bytes: the fixed key,
    /// the bytes, and a copy of the bytes in the vector.
    pub fn from_random(rand: [u8; 16]) -> (data: Self)
        ensures
            data.key == RAND_DATA_KEY,
            data.rand == rand,
            data.vec@ == rand@,
    {
        let mut data = RandDataSerializable::default();
        data.key = RAND_DATA_KEY;
        data.rand = rand;
        let mut i: usize = 0;
        while i < 16
            invariant
                0 <= i <= 16,
                data.key == RAND_DATA_KEY,
                data.rand == rand,
                data.vec@ == rand@.subrange(0, i as int),
            decreases 16 - i,
        {
            data.vec.push(data.rand[i]);
            i = i + 1;
        }
        assert(data.vec@ =~= rand@);
        data
    }
}

} // verus!
