//! The scratch pad: a byte buffer whose first four bytes hold, little-endian,
//! the length of the payload that follows them.

use vstd::prelude::*;
use crate::U32_NUM_BYTES;

verus! {

/// The number that the four bytes `b0 b1 b2 b3` encode, least significant first.
pub open spec fn le_u32_value(b0: u8, b1: u8, b2: u8, b3: u8) -> nat {
    (b0 + 256 * b1 + 65536 * b2 + 16777216 * b3) as nat
}

/// The four little-endian bytes of `n` (for `n < 2^32`).
pub open spec fn le_u32_bytes(n: nat) -> Seq<u8> {
    seq![
        (n % 256) as u8,
        (n / 256 % 256) as u8,
        (n / 65536 % 256) as u8,
        (n / 16777216 % 256) as u8,
    ]
}

/// The payload length that the prefix of `pad` announces.
pub open spec fn stored_length(pad: Seq<u8>) -> nat
    recommends
        pad.len() >= 4,
{
    le_u32_value(pad[0], pad[1], pad[2], pad[3])
}

/// `pad` holds a whole frame: a prefix and as many payload bytes as it announces.
pub open spec fn is_framed(pad: Seq<u8>) -> bool {
    &&& pad.len() >= 4
    &&& 4 + stored_length(pad) <= pad.len()
}

/// The payload of a framed pad.
pub open spec fn framed_payload(pad: Seq<u8>) -> Seq<u8> {
    pad.subrange(4, 4 + stored_length(pad) as int)
}

/// `pad` after `data` has been framed into its start; the bytes past the frame stay.
pub open spec fn frame_into(pad: Seq<u8>, data: Seq<u8>) -> Seq<u8> {
    le_u32_bytes(data.len()) + data + pad.skip(4 + data.len() as int)
}

/// `data` can be framed into `pad`: its length fits the prefix and the frame fits the pad.
pub open spec fn frame_fits(pad: Seq<u8>, data: Seq<u8>) -> bool {
    &&& data.len() <= u32::MAX
    &&& 4 + data.len() <= pad.len()
}

/// Reading the four bytes of `n` back gives `n`.
pub proof fn lemma_le_u32_roundtrip(n: nat)
    requires
        n <= u32::MAX,
    ensures
        ({
            let b = le_u32_bytes(n);
            le_u32_value(b[0], b[1], b[2], b[3]) == n
        }),
{
    let b0 = n % 256;
    let b1 = n / 256 % 256;
    let b2 = n / 65536 % 256;
    let b3 = n / 16777216 % 256;
    assert(b0 + 256 * b1 + 65536 * b2 + 16777216 * b3 == n) by (nonlinear_arith)
        requires
            n <= 0xffff_ffff,
            b0 == n % 256,
            b1 == n / 256 % 256,
            b2 == n / 65536 % 256,
            b3 == n / 16777216 % 256,
    ;
}

/// Law: the announced length is the four prefix bytes read little-endian.
pub proof fn lemma_stored_length_is_little_endian(pad: Seq<u8>)
    requires
        pad.len() >= 4,
    ensures
        stored_length(pad) == pad[0] as nat + 256 * (pad[1] as nat) + 65536 * (pad[2] as nat)
            + 16777216 * (pad[3] as nat),
        stored_length(pad) <= u32::MAX,
{
}

/// Law: a pad holds a frame exactly when it has the four prefix bytes and the payload
/// they announce lies within it.
pub proof fn lemma_is_framed_iff(pad: Seq<u8>)
    ensures
        is_framed(pad) <==> (pad.len() >= 4 && 4 + stored_length(pad) <= pad.len()),
{
}

/// Law: the payload of a framed pad is, in order, the announced number of bytes right
/// after the four prefix bytes.
pub proof fn lemma_framed_payload_layout(pad: Seq<u8>)
    requires
        is_framed(pad),
    ensures
        framed_payload(pad).len() == stored_length(pad),
        forall|i: int| 0 <= i < stored_length(pad) ==> #[trigger] framed_payload(pad)[i] == pad[4 + i],
{
}

/// Law: a payload fits a pad exactly when its length fits in 32 bits and the pad has
/// room for the four prefix bytes and the payload.
pub proof fn lemma_frame_fits_iff(pad: Seq<u8>, data: Seq<u8>)
    ensures
        frame_fits(pad, data) <==> (data.len() <= 0xffff_ffff && 4 + data.len() <= pad.len()),
{
}

/// Law: framing a payload into a pad that can hold it keeps the pad's length, writes the
/// payload's length little-endian into the first four bytes, the payload in order right
/// after them, and leaves every later byte as it was.
pub proof fn lemma_frame_into_layout(pad: Seq<u8>, data: Seq<u8>)
    requires
        frame_fits(pad, data),
    ensures
        frame_into(pad, data).len() == pad.len(),
        frame_into(pad, data)[0] == (data.len() % 256) as u8,
        frame_into(pad, data)[1] == (data.len() / 256 % 256) as u8,
        frame_into(pad, data)[2] == (data.len() / 65536 % 256) as u8,
        frame_into(pad, data)[3] == (data.len() / 16777216 % 256) as u8,
        forall|i: int| 0 <= i < data.len() ==> #[trigger] frame_into(pad, data)[4 + i] == data[i],
        forall|j: int| 4 + data.len() <= j < pad.len() ==> #[trigger] frame_into(pad, data)[j] == pad[j],
{
    let f = frame_into(pad, data);
    let b = le_u32_bytes(data.len());
    assert(f == b + data + pad.skip(4 + data.len() as int));
    assert forall|i: int| 0 <= i < data.len() implies #[trigger] f[4 + i] == data[i] by {
        assert((b + data)[4 + i] == data[i]);
    }
    assert forall|j: int| 4 + data.len() <= j < pad.len() implies #[trigger] f[j] == pad[j] by {
        assert(pad.skip(4 + data.len() as int)[j - 4 - data.len()] == pad[j]);
    }
}

/// Law: a payload framed into a pad is what the pad then yields, and the pad keeps its length.
pub proof fn lemma_frame_roundtrip(pad: Seq<u8>, data: Seq<u8>)
    requires
        frame_fits(pad, data),
    ensures
        frame_into(pad, data).len() == pad.len(),
        is_framed(frame_into(pad, data)),
        stored_length(frame_into(pad, data)) == data.len(),
        framed_payload(frame_into(pad, data)) == data,
{
    let f = frame_into(pad, data);
    lemma_le_u32_roundtrip(data.len());
    assert(f[0] == le_u32_bytes(data.len())[0]);
    assert(f[1] == le_u32_bytes(data.len())[1]);
    assert(f[2] == le_u32_bytes(data.len())[2]);
    assert(f[3] == le_u32_bytes(data.len())[3]);
    assert(framed_payload(f) =~= data);
}

/// Reads the payload length from the prefix of the scratch pad.
pub fn get_length_of_data_in_scratch_pad(scratch_pad: &Vec<u8>) -> (len: usize)
    requires
        scratch_pad@.len() >= U32_NUM_BYTES,
    ensures
        len == stored_length(scratch_pad@),
        len == scratch_pad@[0] as nat + 256 * (scratch_pad@[1] as nat) + 65536 * (scratch_pad@[2] as nat)
            + 16777216 * (scratch_pad@[3] as nat),
{
    let b0: u32 = scratch_pad[0] as u32;
    let b1: u32 = scratch_pad[1] as u32;
    let b2: u32 = scratch_pad[2] as u32;
    let b3: u32 = scratch_pad[3] as u32;
    let v: u32 = b0 + 256 * b1 + 65536 * b2 + 16777216 * b3;
    v as usize
}

/// Copies the framed payload out of the scratch pad.
pub fn get_data_from_scratch_pad(scratch_pad: &Vec<u8>) -> (data: Vec<u8>)
    requires
        is_framed(scratch_pad@),
    ensures
        data@ == framed_payload(scratch_pad@),
        data@ == scratch_pad@.subrange(4, 4 + stored_length(scratch_pad@) as int),
        data@.len() == stored_length(scratch_pad@),
        forall|i: int| 0 <= i < data@.len() ==> #[trigger] data@[i] == scratch_pad@[4 + i],
{
    let length_of_data = get_length_of_data_in_scratch_pad(scratch_pad);
    let mut data: Vec<u8> = Vec::new();
    let mut i: usize = U32_NUM_BYTES;
    while i < U32_NUM_BYTES + length_of_data
        invariant
            is_framed(scratch_pad@),
            length_of_data == stored_length(scratch_pad@),
            U32_NUM_BYTES + length_of_data <= scratch_pad.len(),
            U32_NUM_BYTES <= i <= U32_NUM_BYTES + length_of_data,
            data@ == scratch_pad@.subrange(4, i as int),
        decreases U32_NUM_BYTES + length_of_data - i,
    {
        data.push(scratch_pad[i]);
        i = i + 1;
    }
    data
}

/// Frames `data` into the start of the scratch pad when it fits; otherwise leaves the pad as it was.
pub fn put_data_into_scratch_pad(data: &Vec<u8>, scratch_pad: &mut Vec<u8>) -> (written: bool)
    ensures
        written == frame_fits(old(scratch_pad)@, data@),
        written ==> final(scratch_pad)@ == frame_into(old(scratch_pad)@, data@),
        !written ==> final(scratch_pad)@ == old(scratch_pad)@,
        written <==> (data@.len() <= 0xffff_ffff && 4 + data@.len() <= old(scratch_pad)@.len()),
        final(scratch_pad)@.len() == old(scratch_pad)@.len(),
        written ==> final(scratch_pad)@[0] == (data@.len() % 256) as u8,
        written ==> final(scratch_pad)@[1] == (data@.len() / 256 % 256) as u8,
        written ==> final(scratch_pad)@[2] == (data@.len() / 65536 % 256) as u8,
        written ==> final(scratch_pad)@[3] == (data@.len() / 16777216 % 256) as u8,
        written ==> forall|i: int| 0 <= i < data@.len() ==> #[trigger] final(scratch_pad)@[4 + i] == data@[i],
        written ==> forall|j: int| 4 + data@.len() <= j < old(scratch_pad)@.len()
            ==> #[trigger] final(scratch_pad)@[j] == old(scratch_pad)@[j],
{
    let len = data.len();
    if len > 0xffff_ffff || len > scratch_pad.len() || scratch_pad.len() - len < U32_NUM_BYTES {
        return false;
    }
    let n: u32 = len as u32;
    scratch_pad.set(0, (n % 256) as u8);
    scratch_pad.set(1, (n / 256 % 256) as u8);
    scratch_pad.set(2, (n / 65536 % 256) as u8);
    scratch_pad.set(3, (n / 16777216 % 256) as u8);
    let mut i: usize = 0;
    while i < len
        invariant
            len == data@.len(),
            frame_fits(old(scratch_pad)@, data@),
            scratch_pad@.len() == old(scratch_pad)@.len(),
            U32_NUM_BYTES + len <= scratch_pad.len(),
            0 <= i <= len,
            scratch_pad@.subrange(0, 4) == le_u32_bytes(len as nat),
            scratch_pad@.subrange(4, 4 + i) == data@.subrange(0, i as int),
            scratch_pad@.skip(4 + len) == old(scratch_pad)@.skip(4 + len),
        decreases len - i,
    {
        scratch_pad.set(U32_NUM_BYTES + i, data[i]);
        i = i + 1;
        assert(scratch_pad@.subrange(4, 4 + i) =~= data@.subrange(0, i as int));
    }
    assert(scratch_pad@ =~= frame_into(old(scratch_pad)@, data@)) by {
        assert(scratch_pad@ =~= scratch_pad@.subrange(0, 4) + scratch_pad@.subrange(4, 4 + len as int)
            + scratch_pad@.skip(4 + len));
    }
    proof {
        lemma_frame_into_layout(old(scratch_pad)@, data@);
    }
    true
}

} // verus!
