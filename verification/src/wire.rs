//! Length-prefixed framing of messages: a four byte big-endian size header
//! followed by the payload.
use vstd::prelude::*;

verus! {

/// Number of bytes in the size header that precedes every frame.
pub const TCP_FRAME_SIZE_HEADER: usize = 4;

/// The header that `frame_data` writes for a payload of `len` bytes: the low
/// 32 bits of `len`, most significant byte first.
pub open spec fn size_header(len: nat) -> Seq<u8> {
    seq![
        ((len / 0x100_0000) % 0x100) as u8,
        ((len / 0x1_0000) % 0x100) as u8,
        ((len / 0x100) % 0x100) as u8,
        (len % 0x100) as u8,
    ]
}

/// The size that a four byte header announces.
pub open spec fn header_value(h: Seq<u8>) -> nat {
    (h[0] as nat) * 0x100_0000 + (h[1] as nat) * 0x1_0000 + (h[2] as nat) * 0x100 + (h[3] as nat)
}

/// Frames `data`: the size header followed by the data itself.
pub fn frame_data(data: &[u8]) -> (framed: Vec<u8>)
    ensures
        framed@ == size_header(data@.len()) + data@,
{
    let size = data.len();
    let b0: u8 = ((size >> 24) & 0xff) as u8;
    let b1: u8 = ((size >> 16) & 0xff) as u8;
    let b2: u8 = ((size >> 8) & 0xff) as u8;
    let b3: u8 = (size & 0xff) as u8;
    proof {
        assert(((size >> 24) & 0xff) == (size / 0x100_0000) % 0x100) by (bit_vector);
        assert(((size >> 16) & 0xff) == (size / 0x1_0000) % 0x100) by (bit_vector);
        assert(((size >> 8) & 0xff) == (size / 0x100) % 0x100) by (bit_vector);
        assert((size & 0xff) == size % 0x100) by (bit_vector);
    }
    let mut framed: Vec<u8> = Vec::new();
    framed.push(b0);
    framed.push(b1);
    framed.push(b2);
    framed.push(b3);
    let mut i: usize = 0;
    while i < data.len()
        invariant
            i <= data.len(),
            framed@ == size_header(data@.len()) + data@.subrange(0, i as int),
        decreases data.len() - i,
    {
        framed.push(data[i]);
        proof {
            assert(data@.subrange(0, i + 1) == data@.subrange(0, i as int).push(data@[i as int]));
        }
        i = i + 1;
    }
    assert(data@.subrange(0, data@.len() as int) == data@);
    framed
}


/// The size announced by a four byte header, most significant byte first.
pub fn header_size(header: &[u8]) -> (size: usize)
    requires
        header@.len() == TCP_FRAME_SIZE_HEADER,
    ensures
        size == header_value(header@),
{
    (header[0] as usize) * 0x100_0000 + (header[1] as usize) * 0x1_0000 + (header[2] as usize) * 0x100
        + (header[3] as usize)
}

/// What `parse_frame` finds at the start of `buf`: the payload and the number
/// of bytes the whole frame takes, or `None` while the header or the payload
/// is not complete.
pub open spec fn frame_at(buf: Seq<u8>) -> Option<(Seq<u8>, nat)> {
    if buf.len() < 4 {
        None
    } else {
        let size = header_value(buf.subrange(0, 4));
        if buf.len() < 4 + size {
            None
        } else {
            Some((buf.subrange(4, 4 + size as int), (4 + size) as nat))
        }
    }
}

/// Reads one frame from the start of `buf`: the size header, then that many
/// bytes of payload. Returns the payload and the number of bytes consumed.
pub fn parse_frame(buf: &[u8]) -> (res: Option<(Vec<u8>, usize)>)
    ensures
        match (res, frame_at(buf@)) {
            (Some((payload, used)), Some((p, n))) => payload@ == p && used == n,
            (None, None) => true,
            _ => false,
        },
{
    if buf.len() < TCP_FRAME_SIZE_HEADER {
        return None;
    }
    let header = slice_prefix(buf, TCP_FRAME_SIZE_HEADER);
    let size = header_size(header.as_slice());
    assert(header@ == buf@.subrange(0, 4));
    if buf.len() - TCP_FRAME_SIZE_HEADER < size {
        return None;
    }
    let mut payload: Vec<u8> = Vec::new();
    let mut i: usize = 0;
    while i < size
        invariant
            i <= size,
            4 + size <= buf.len(),
            payload@ == buf@.subrange(4, 4 + i),
        decreases size - i,
    {
        payload.push(buf[4 + i]);
        proof {
            assert(buf@.subrange(4, 4 + i + 1) == buf@.subrange(4, 4 + i).push(buf@[4 + i]));
        }
        i = i + 1;
    }
    Some((payload, TCP_FRAME_SIZE_HEADER + size))
}

/// The first `n` bytes of `buf`.
fn slice_prefix(buf: &[u8], n: usize) -> (out: Vec<u8>)
    requires
        n <= buf@.len(),
    ensures
        out@ == buf@.subrange(0, n as int),
{
    let mut out: Vec<u8> = Vec::new();
    let mut i: usize = 0;
    while i < n
        invariant
            i <= n,
            n <= buf@.len(),
            out@ == buf@.subrange(0, i as int),
        decreases n - i,
    {
        out.push(buf[i]);
        proof {
            assert(buf@.subrange(0, i + 1) == buf@.subrange(0, i as int).push(buf@[i as int]));
        }
        i = i + 1;
    }
    out
}

/// A header read back gives the size it was written for, as long as the size
/// fits in the four bytes of the header.
pub proof fn lemma_header_roundtrip(len: nat)
    requires
        len < 0x1_0000_0000,
    ensures
        header_value(size_header(len)) == len,
{
    let b0 = (len / 0x100_0000) % 0x100;
    let b1 = (len / 0x1_0000) % 0x100;
    let b2 = (len / 0x100) % 0x100;
    let b3 = len % 0x100;
    assert(b0 * 0x100_0000 + b1 * 0x1_0000 + b2 * 0x100 + b3 == len) by (nonlinear_arith)
        requires
            len < 0x1_0000_0000,
            b0 == (len / 0x100_0000) % 0x100,
            b1 == (len / 0x1_0000) % 0x100,
            b2 == (len / 0x100) % 0x100,
            b3 == len % 0x100,
    ;
}

/// Reading a frame back gives the data that was framed, whatever follows it,
/// for any payload shorter than 2^32 bytes.
pub proof fn law_frame_roundtrip(data: Seq<u8>, rest: Seq<u8>)
    requires
        data.len() < 0x1_0000_0000,
    ensures
        frame_at(size_header(data.len()) + data + rest) == Some((data, (4 + data.len()) as nat)),
{
    let buf = size_header(data.len()) + data + rest;
    lemma_header_roundtrip(data.len());
    assert(buf.subrange(0, 4) == size_header(data.len()));
    assert(buf.subrange(4, 4 + data.len() as int) == data);
}

} // verus!
