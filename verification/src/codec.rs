//! The wire framing: every frame is a 16-bit big-endian length prefix
//! followed by that many payload bytes. Encoding and decoding are verified
//! against the byte-level layout, and decoding an encoded frame is proved to
//! give the payload back.

use vstd::prelude::*;

use vstd::arithmetic::div_mod::lemma_fundamental_div_mod;

verus! {

/// Largest payload a frame can carry: the length prefix is 16 bits.
pub const MAX_FRAME_PAYLOAD: usize = 0xFFFF;

/// The wire form of one frame.
pub open spec fn spec_frame(payload: Seq<u8>) -> Seq<u8> {
    seq![(payload.len() / 256) as u8, (payload.len() % 256) as u8] + payload
}

/// What decoding a buffer yields: the first frame's payload and the number
/// of bytes consumed, or nothing while the buffer is still incomplete.
pub open spec fn spec_decode(buf: Seq<u8>) -> Option<(Seq<u8>, int)> {
    if buf.len() < 2 {
        None
    } else {
        let n = buf[0] * 256 + buf[1];
        if buf.len() < n + 2 {
            None
        } else {
            Some((buf.subrange(2, n + 2), n + 2))
        }
    }
}

/// Frame a payload for the wire; refused when it cannot fit behind a 16-bit
/// length prefix.
pub fn encode_frame(payload: &Vec<u8>) -> (r: Option<Vec<u8>>)
    ensures
        payload@.len() > MAX_FRAME_PAYLOAD ==> r is None,
        payload@.len() <= MAX_FRAME_PAYLOAD ==> (r matches Some(v) && v@ == spec_frame(payload@)),
{
    let n: usize = payload.len();
    if n > MAX_FRAME_PAYLOAD {
        return None;
    }
    let mut out: Vec<u8> = Vec::new();
    out.push((n / 256) as u8);
    out.push((n % 256) as u8);
    proof {
        assert(out@ =~= spec_frame(payload@).take(2));
    }
    let mut i: usize = 0;
    while i < n
        invariant
            i <= n,
            n == payload@.len(),
            n <= MAX_FRAME_PAYLOAD,
            out@ == spec_frame(payload@).take(i + 2),
        decreases n - i,
    {
        out.push(payload[i]);
        proof {
            assert(out@ =~= spec_frame(payload@).take(i + 3));
        }
        i = i + 1;
    }
    proof {
        assert(out@ =~= spec_frame(payload@));
    }
    Some(out)
}

/// Split the first complete frame off the front of a receive buffer,
/// returning its payload and how many bytes it occupied.
pub fn decode_frame(buf: &Vec<u8>) -> (r: Option<(Vec<u8>, usize)>)
    ensures
        (r is Some) == (spec_decode(buf@) is Some),
        r matches Some(p) ==> (spec_decode(buf@) matches Some(q) && p.0@ == q.0 && p.1 == q.1),
{
    if buf.len() < 2 {
        return None;
    }
    let n: usize = buf[0] as usize * 256 + buf[1] as usize;
    if buf.len() < n + 2 {
        return None;
    }
    let mut payload: Vec<u8> = Vec::new();
    let mut i: usize = 2;
    while i < n + 2
        invariant
            2 <= i <= n + 2,
            n + 2 <= buf@.len(),
            n == buf@[0] * 256 + buf@[1],
            payload@ == buf@.subrange(2, i as int),
        decreases n + 2 - i,
    {
        payload.push(buf[i]);
        proof {
            assert(buf@.subrange(2, i + 1) =~= buf@.subrange(2, i as int).push(buf@[i as int]));
        }
        i = i + 1;
    }
    Some((payload, n + 2))
}

/// Decoding an encoded frame returns exactly the original payload and
/// consumes the whole frame.
pub proof fn lemma_frame_round_trip(payload: Seq<u8>)
    requires
        payload.len() <= MAX_FRAME_PAYLOAD,
    ensures
        spec_decode(spec_frame(payload)) == Some((payload, payload.len() + 2 as int)),
{
    let f = spec_frame(payload);
    lemma_fundamental_div_mod(payload.len() as int, 256);
    assert(f[0] == (payload.len() / 256) as u8);
    assert(f[1] == (payload.len() % 256) as u8);
    assert(f[0] * 256 + f[1] == payload.len());
    assert(f.subrange(2, payload.len() + 2 as int) =~= payload);
}

} // verus!
