use vstd::prelude::*;
use vstd::slice::{slice_subrange, slice_to_vec};

verus! {

/// The four-byte big-endian length prefix of a frame.
pub open spec fn frame_header(len: u32) -> Seq<u8> {
    seq![(len >> 24) as u8, (len >> 16) as u8, (len >> 8) as u8, len as u8]
}

/// The length that four big-endian bytes give.
pub open spec fn header_value(b0: u8, b1: u8, b2: u8, b3: u8) -> u32 {
    ((b0 as u32) << 24) | ((b1 as u32) << 16) | ((b2 as u32) << 8) | (b3 as u32)
}

/// A frame as a connection writes it: the data's length, truncated to 32
/// bits, as a big-endian prefix, then the data.
pub open spec fn frame_bytes(data: Seq<u8>) -> Seq<u8> {
    frame_header(data.len() as u32) + data
}

/// What reading one frame from the front of `buf` gives: the data and the
/// number of bytes it took, or `None` where `buf` does not yet hold a whole
/// frame.
pub open spec fn frame_at_front(buf: Seq<u8>) -> Option<(Seq<u8>, nat)> {
    if buf.len() < 4 {
        None
    } else {
        let len = header_value(buf[0], buf[1], buf[2], buf[3]) as nat;
        if buf.len() < 4 + len {
            None
        } else {
            Some((buf.subrange(4, 4 + len as int), 4 + len))
        }
    }
}

/// The four bytes of a length prefix read back give the length.
pub proof fn lemma_header_round_trip(len: u32)
    ensures
        header_value(
            frame_header(len)[0],
            frame_header(len)[1],
            frame_header(len)[2],
            frame_header(len)[3],
        ) == len,
{
    let b0 = (len >> 24) as u8;
    let b1 = (len >> 16) as u8;
    let b2 = (len >> 8) as u8;
    let b3 = len as u8;
    assert(((b0 as u32) << 24) | ((b1 as u32) << 16) | ((b2 as u32) << 8) | (b3 as u32) == len)
        by (bit_vector)
        requires
            b0 == (len >> 24) as u8,
            b1 == (len >> 16) as u8,
            b2 == (len >> 8) as u8,
            b3 == len as u8,
    ;
}

/// Reading a frame from the front of an encoded frame, whatever follows it,
/// gives back the data, where its length fits in 32 bits.
pub proof fn lemma_frame_round_trip(data: Seq<u8>, rest: Seq<u8>)
    requires
        data.len() <= u32::MAX,
    ensures
        frame_at_front(frame_bytes(data) + rest) == Some((data, 4 + data.len())),
{
    let buf = frame_bytes(data) + rest;
    lemma_header_round_trip(data.len() as u32);
    assert(buf[0] == frame_header(data.len() as u32)[0]);
    assert(buf[1] == frame_header(data.len() as u32)[1]);
    assert(buf[2] == frame_header(data.len() as u32)[2]);
    assert(buf[3] == frame_header(data.len() as u32)[3]);
    assert(buf.subrange(4, 4 + data.len() as int) =~= data);
}

/// Frames `data` for a stream: a big-endian 32-bit length, then the data.
/// The length is truncated to 32 bits, as the connection writer does.
pub fn encode_frame(data: &[u8]) -> (frame: Vec<u8>)
    ensures
        frame@ == frame_bytes(data@),
{
    let len = data.len() as u32;
    let mut frame: Vec<u8> = Vec::with_capacity(4);
    frame.push((len >> 24) as u8);
    frame.push((len >> 16) as u8);
    frame.push((len >> 8) as u8);
    frame.push(len as u8);
    let mut i: usize = 0;
    while i < data.len()
        invariant
            i <= data@.len(),
            len == data@.len() as u32,
            frame@ == frame_header(len) + data@.take(i as int),
        decreases data@.len() - i,
    {
        frame.push(data[i]);
        assert(data@.take(i + 1) == data@.take(i as int).push(data@[i as int]));
        i = i + 1;
    }
    assert(data@.take(i as int) == data@);
    frame
}

/// The length that a frame's four-byte prefix announces.
pub fn frame_length(prefix: &[u8]) -> (len: u32)
    requires
        prefix@.len() >= 4,
    ensures
        len == header_value(prefix@[0], prefix@[1], prefix@[2], prefix@[3]),
{
    ((prefix[0] as u32) << 24) | ((prefix[1] as u32) << 16) | ((prefix[2] as u32) << 8) | (
    prefix[3] as u32)
}

/// Reads one frame from the front of `buf`: its data and the number of
/// bytes it took, or `None` where `buf` does not hold a whole frame yet.
pub fn decode_frame(buf: &[u8]) -> (r: Option<(Vec<u8>, usize)>)
    ensures
        match (r, frame_at_front(buf@)) {
            (Some((d, n)), Some((d2, n2))) => d@ == d2 && n == n2,
            (None, None) => true,
            _ => false,
        },
{
    if buf.len() < 4 {
        return None;
    }
    let len = frame_length(buf) as usize;
    if buf.len() - 4 < len {
        return None;
    }
    let data = slice_to_vec(slice_subrange(buf, 4, 4 + len));
    Some((data, 4 + len))
}

} // verus!
