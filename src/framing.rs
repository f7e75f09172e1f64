//! Peer wire framing: a 4-byte big-endian length, then the payload.

use vstd::prelude::*;

verus! {

/// Largest payload a frame may carry: 64 MiB, room for tensor shards.
pub const MAX_FRAME_SIZE: u32 = 67108864;

/// The four big-endian bytes of `n`.
pub open spec fn be_bytes(n: u32) -> Seq<u8> {
    seq![(n >> 24u32) as u8, (n >> 16u32) as u8, (n >> 8u32) as u8, n as u8]
}

/// The number that four big-endian bytes spell.
pub open spec fn be_value(b0: u8, b1: u8, b2: u8, b3: u8) -> u32 {
    ((b0 as u32) << 24u32) | ((b1 as u32) << 16u32) | ((b2 as u32) << 8u32) | (b3 as u32)
}

pub proof fn lemma_be_round_trip(n: u32)
    ensures
        be_value(be_bytes(n)[0], be_bytes(n)[1], be_bytes(n)[2], be_bytes(n)[3]) == n,
{
    let b0 = (n >> 24u32) as u8;
    let b1 = (n >> 16u32) as u8;
    let b2 = (n >> 8u32) as u8;
    let b3 = n as u8;
    assert(((b0 as u32) << 24u32) | ((b1 as u32) << 16u32) | ((b2 as u32) << 8u32) | (b3 as u32) == n) by (bit_vector)
        requires
            b0 == (n >> 24u32) as u8,
            b1 == (n >> 16u32) as u8,
            b2 == (n >> 8u32) as u8,
            b3 == n as u8;
}

/// The frame that carries `p`.
pub open spec fn frame_of(p: Seq<u8>) -> Seq<u8> {
    be_bytes(p.len() as u32) + p
}

/// The frames of several payloads, one after another.
pub open spec fn frames_of(ps: Seq<Seq<u8>>) -> Seq<u8>
    decreases ps.len(),
{
    if ps.len() == 0 {
        Seq::empty()
    } else {
        frame_of(ps[0]) + frames_of(ps.drop_first())
    }
}

/// What reading one frame off the front of a buffer gives.
#[derive(Debug, Clone, PartialEq, Eq)]
pub enum FrameDecode {
    /// More bytes are needed.
    Incomplete,
    /// A whole frame: its payload and the bytes it took up.
    Frame { payload: Vec<u8>, consumed: usize },
    /// The header announces more than `MAX_FRAME_SIZE`: a protocol error
    /// that ends the connection.
    Oversize { length: u32 },
}

/// The outcome of reading one frame, over plain values.
pub enum FrameStep {
    Incomplete,
    Frame(Seq<u8>, nat),
    Oversize(u32),
}

/// The length a buffer's header announces.
#[verifier::opaque]
pub open spec fn header_len(b: Seq<u8>) -> u32 {
    be_value(b[0], b[1], b[2], b[3])
}

/// Reading one frame off the front of `b`.
#[verifier::opaque]
pub open spec fn decode_step(b: Seq<u8>) -> FrameStep {
    if b.len() < 4 {
        FrameStep::Incomplete
    } else if header_len(b) > MAX_FRAME_SIZE {
        FrameStep::Oversize(header_len(b))
    } else if b.len() < 4 + header_len(b) {
        FrameStep::Incomplete
    } else {
        FrameStep::Frame(b.subrange(4, 4 + header_len(b)), (4 + header_len(b)) as nat)
    }
}

/// The payloads of a buffer that holds whole frames only, in order; `None`
/// when it holds a partial or oversize frame.
#[verifier::opaque]
pub open spec fn decode_all(b: Seq<u8>) -> Option<Seq<Seq<u8>>>
    decreases b.len(),
{
    if b.len() == 0 {
        Some(Seq::empty())
    } else {
        match decode_step(b) {
            FrameStep::Frame(p, n) => if 0 < n <= b.len() {
                match decode_all(b.subrange(n as int, b.len() as int)) {
                    Some(rest) => Some(seq![p] + rest),
                    None => None,
                }
            } else {
                None
            },
            _ => None,
        }
    }
}

/// A frame followed by anything reads back as its payload.
pub proof fn lemma_frame_step(p: Seq<u8>, tail: Seq<u8>)
    requires
        p.len() <= MAX_FRAME_SIZE,
    ensures
        decode_step(frame_of(p) + tail) == FrameStep::Frame(p, (4 + p.len()) as nat),
        (frame_of(p) + tail).subrange(4 + p.len() as int, (frame_of(p) + tail).len() as int) == tail,
{
    reveal(decode_step);
    reveal(header_len);
    let b = frame_of(p) + tail;
    let h = be_bytes(p.len() as u32);
    lemma_be_round_trip(p.len() as u32);
    assert(b[0] == h[0] && b[1] == h[1] && b[2] == h[2] && b[3] == h[3]);
    assert(header_len(b) == p.len());
    assert(b.subrange(4, 4 + p.len() as int) =~= p);
    assert(b.subrange(4 + p.len() as int, b.len() as int) =~= tail);
}

/// Frames written one after another read back as the same payloads, in
/// the same order.
pub proof fn lemma_frames_round_trip(ps: Seq<Seq<u8>>)
    requires
        forall|i: int| 0 <= i < ps.len() ==> (#[trigger] ps[i]).len() <= MAX_FRAME_SIZE,
    ensures
        decode_all(frames_of(ps)) == Some(ps),
    decreases ps.len(),
{
    if ps.len() > 0 {
        let p = ps[0];
        let rest = ps.drop_first();
        assert forall|i: int| 0 <= i < rest.len() implies (#[trigger] rest[i]).len() <= MAX_FRAME_SIZE by {
            assert(rest[i] == ps[i + 1]);
        }
        lemma_frames_round_trip(rest);
        let b = frames_of(ps);
        assert(b == frame_of(p) + frames_of(rest));
        lemma_frame_step(p, frames_of(rest));
        assert(b.len() > 0);
        reveal(decode_all);
        assert(decode_all(b) == Some(seq![p] + rest));
        assert(seq![p] + rest =~= ps);
    } else {
        reveal(decode_all);
    }
}

/// Frames `payload`; refused when it exceeds `MAX_FRAME_SIZE`.
pub fn encode_frame(payload: &[u8]) -> (r: Option<Vec<u8>>)
    ensures
        payload@.len() > MAX_FRAME_SIZE ==> r is None,
        payload@.len() <= MAX_FRAME_SIZE ==> r is Some && r.unwrap()@ == frame_of(payload@),
{
    if payload.len() > MAX_FRAME_SIZE as usize {
        return None;
    }
    let n = payload.len() as u32;
    let mut out: Vec<u8> = Vec::new();
    out.push((n >> 24u32) as u8);
    out.push((n >> 16u32) as u8);
    out.push((n >> 8u32) as u8);
    out.push(n as u8);
    let mut i: usize = 0;
    while i < payload.len()
        invariant
            i <= payload@.len(),
            n == payload@.len(),
            out@ == be_bytes(n) + payload@.subrange(0, i as int),
        decreases payload@.len() - i,
    {
        out.push(payload[i]);
        assert(out@ =~= be_bytes(n) + payload@.subrange(0, i as int + 1));
        i += 1;
    }
    assert(payload@.subrange(0, i as int) =~= payload@);
    Some(out)
}

/// Reads one frame off the front of `buf`.
pub fn decode_frame(buf: &[u8]) -> (r: FrameDecode)
    ensures
        match (r, decode_step(buf@)) {
            (FrameDecode::Incomplete, FrameStep::Incomplete) => true,
            (FrameDecode::Oversize { length }, FrameStep::Oversize(n)) => length == n,
            (FrameDecode::Frame { payload, consumed }, FrameStep::Frame(p, n)) => payload@ == p && consumed == n,
            _ => false,
        },
{
    reveal(decode_step);
    reveal(header_len);
    if buf.len() < 4 {
        return FrameDecode::Incomplete;
    }
    let n: u32 = ((buf[0] as u32) << 24u32) | ((buf[1] as u32) << 16u32) | ((buf[2] as u32) << 8u32) | (buf[3] as u32);
    assert(n == header_len(buf@));
    if n > MAX_FRAME_SIZE {
        return FrameDecode::Oversize { length: n };
    }
    let total = 4 + n as usize;
    if buf.len() < total {
        return FrameDecode::Incomplete;
    }
    let mut payload: Vec<u8> = Vec::new();
    let mut i: usize = 4;
    while i < total
        invariant
            4 <= i <= total,
            total <= buf@.len(),
            payload@ == buf@.subrange(4, i as int),
        decreases total - i,
    {
        payload.push(buf[i]);
        assert(payload@ =~= buf@.subrange(4, i as int + 1));
        i += 1;
    }
    FrameDecode::Frame { payload, consumed: total }
}

} // verus!
