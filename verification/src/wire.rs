//! Length-prefixed framing shared by the TCP protocols: every message goes
//! on the wire as a four-byte big-endian length followed by that many bytes
//! of payload.

use vstd::prelude::*;
use crate::errors::Error;

verus! {

/// Bytes of the length prefix.
pub const FRAME_HEADER_LEN: usize = 4;

/// The value a four-byte big-endian prefix denotes.
pub open spec fn spec_be32(b: Seq<u8>) -> int
    recommends
        b.len() == 4,
{
    b[0] * 0x1000000 + b[1] * 0x10000 + b[2] * 0x100 + b[3]
}

/// The four big-endian bytes of a 32-bit value.
pub fn u32_to_be_bytes(x: u32) -> (r: Vec<u8>)
    ensures
        r@.len() == 4,
        spec_be32(r@) == x,
{
    let b0: u8 = (x / 0x1000000) as u8;
    let b1: u8 = ((x / 0x10000) % 256) as u8;
    let b2: u8 = ((x / 256) % 256) as u8;
    let b3: u8 = (x % 256) as u8;
    let mut r: Vec<u8> = Vec::new();
    r.push(b0);
    r.push(b1);
    r.push(b2);
    r.push(b3);
    proof {
        assert(r@.len() == 4);
        assert(b0 == x / 0x1000000 && b1 == (x / 0x10000) % 256 && b2 == (x / 256) % 256 && b3 == x
            % 256);
        assert(spec_be32(r@) == x) by {
            assert((x / 0x1000000) * 0x1000000 + ((x / 0x10000) % 256) * 0x10000 + ((x / 256) % 256)
                * 0x100 + x % 256 == x) by (nonlinear_arith);
        }
    }
    r
}

/// The 32-bit value four big-endian bytes denote.
pub fn be_bytes_to_u32(b: &[u8]) -> (r: u32)
    requires
        b@.len() == 4,
    ensures
        r == spec_be32(b@),
{
    (b[0] as u32) * 0x1000000 + (b[1] as u32) * 0x10000 + (b[2] as u32) * 0x100 + (b[3] as u32)
}

/// Whether `framed` is the wire form of `payload`: a four-byte big-endian
/// length followed by the payload itself.
pub open spec fn is_framed(framed: Seq<u8>, payload: Seq<u8>) -> bool {
    &&& framed.len() == payload.len() + 4
    &&& spec_be32(framed.subrange(0, 4)) == payload.len()
    &&& framed.subrange(4, framed.len() as int) == payload
}

/// Puts a payload behind its four-byte big-endian length.  A payload too
/// long for a 32-bit length is refused.
pub fn frame_payload(payload: &[u8]) -> (r: Result<Vec<u8>, Error>)
    requires
        payload@.len() + 4 <= usize::MAX,
    ensures
        payload@.len() <= u32::MAX ==> (r matches Ok(v) && is_framed(v@, payload@)),
        payload@.len() > u32::MAX ==> (r matches Err(e) && e matches Error::Serialization(_)),
{
    if payload.len() > 0xffff_ffffusize {
        return Err(Error::Serialization("payload too long for a 32-bit frame".to_owned()));
    }
    let mut out = u32_to_be_bytes(payload.len() as u32);
    let ghost prefix = out@;
    let mut i: usize = 0;
    let n = payload.len();
    while i < n
        invariant
            n == payload@.len(),
            i <= n,
            out@.len() == 4 + i,
            out@.subrange(0, 4) == prefix,
            forall|j: int| 0 <= j < i ==> out@[4 + j] == payload@[j],
        decreases n - i,
    {
        out.push(payload[i]);
        proof {
            assert(out@.subrange(0, 4) =~= prefix);
        }
        i = i + 1;
    }
    proof {
        assert(out@.subrange(4, out@.len() as int) =~= payload@);
    }
    Ok(out)
}

/// The payload length a received four-byte prefix announces.
pub fn parse_frame_header(header: &[u8]) -> (r: u32)
    requires
        header@.len() == 4,
    ensures
        r == spec_be32(header@),
{
    be_bytes_to_u32(header)
}

} // verus!
