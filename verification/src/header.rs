//! The forwarding header codec.
//!
//! Each forwarded connection is carried on one multiplexed stream whose
//! first six bytes name the destination: four IPv4 octets in network
//! order followed by the port as a big-endian 16-bit integer. Everything
//! after those six bytes is an opaque byte relay. The codec is a pure
//! framing layer: port zero and reserved addresses pass through unchanged.

use vstd::prelude::*;

use crate::errors::TunnelError;

verus! {

/// An IPv4 address as its four octets in network order.
#[derive(Clone, Copy, Debug, PartialEq, Eq, Structural)]
pub struct Ipv4 {
    pub a: u8,
    pub b: u8,
    pub c: u8,
    pub d: u8,
}

/// A destination endpoint: an IPv4 address and a TCP port.
#[derive(Clone, Copy, Debug, PartialEq, Eq, Structural)]
pub struct Target {
    pub addr: Ipv4,
    pub port: u16,
}

/// The number of bytes of an encoded forwarding header.
pub const HEADER_LEN: usize = 6;

/// The six bytes that stand for a target on the wire.
pub open spec fn spec_encode(t: Target) -> Seq<u8> {
    seq![
        t.addr.a,
        t.addr.b,
        t.addr.c,
        t.addr.d,
        (t.port / 256) as u8,
        (t.port % 256) as u8,
    ]
}

/// The target named by the first six bytes of a stream.
pub open spec fn spec_decode(bytes: Seq<u8>) -> Target
    recommends
        bytes.len() >= HEADER_LEN,
{
    Target {
        addr: Ipv4 { a: bytes[0], b: bytes[1], c: bytes[2], d: bytes[3] },
        port: ((bytes[4] as int) * 256 + (bytes[5] as int)) as u16,
    }
}

/// Encode a destination as the six-byte wire header.
pub fn encode_header(t: &Target) -> (r: Vec<u8>)
    ensures
        r@ == spec_encode(*t),
        r@.len() == HEADER_LEN,
{
    let mut r: Vec<u8> = Vec::new();
    r.push(t.addr.a);
    r.push(t.addr.b);
    r.push(t.addr.c);
    r.push(t.addr.d);
    r.push((t.port / 256) as u8);
    r.push((t.port % 256) as u8);
    proof {
        assert(r@ =~= spec_encode(*t));
    }
    r
}

/// Decode a header from the bytes available at the head of a stream.
///
/// Fewer than six available bytes mean the stream ended or failed before
/// a full header arrived: decoding fails and no destination is known.
pub fn decode_header(bytes: &Vec<u8>) -> (r: Result<Target, TunnelError>)
    ensures
        bytes@.len() >= HEADER_LEN ==> r == Ok::<Target, TunnelError>(spec_decode(bytes@)),
        bytes@.len() < HEADER_LEN ==> r == Err::<Target, TunnelError>(
            TunnelError::HeaderDecodeFailure,
        ),
{
    if bytes.len() < HEADER_LEN {
        return Err(TunnelError::HeaderDecodeFailure);
    }
    let hi: u16 = bytes[4] as u16;
    let lo: u16 = bytes[5] as u16;
    Ok(Target {
        addr: Ipv4 { a: bytes[0], b: bytes[1], c: bytes[2], d: bytes[3] },
        port: hi * 256 + lo,
    })
}

/// Split a stream prefix into its header's target and the payload that
/// follows; the payload starts exactly at byte six, so no header byte
/// ever leaks into the relayed data.
pub fn split_header(data: &Vec<u8>) -> (r: Result<(Target, Vec<u8>), TunnelError>)
    ensures
        data@.len() >= HEADER_LEN ==> (match r {
            Ok((t, rest)) => t == spec_decode(data@) && rest@ == data@.skip(HEADER_LEN as int),
            Err(_) => false,
        }),
        data@.len() < HEADER_LEN ==> r == Err::<(Target, Vec<u8>), TunnelError>(
            TunnelError::HeaderDecodeFailure,
        ),
{
    let t = match decode_header(data) {
        Ok(t) => t,
        Err(e) => {
            return Err(e);
        },
    };
    let mut rest: Vec<u8> = Vec::new();
    let mut i: usize = HEADER_LEN;
    while i < data.len()
        invariant
            HEADER_LEN <= i <= data@.len(),
            rest@ == data@.subrange(HEADER_LEN as int, i as int),
        decreases data@.len() - i,
    {
        rest.push(data[i]);
        i = i + 1;
        proof {
            assert(rest@ =~= data@.subrange(HEADER_LEN as int, i as int));
        }
    }
    proof {
        assert(rest@ =~= data@.skip(HEADER_LEN as int));
    }
    Ok((t, rest))
}

/// Decoding an encoded header gives back exactly the address and port
/// that were encoded, for every address and every port.
pub proof fn lemma_header_round_trip(t: Target)
    ensures
        spec_decode(spec_encode(t)) == t,
{
    assert(t.port / 256 < 256) by {
        assert(t.port < 65536);
    };
    assert((t.port / 256) * 256 + t.port % 256 == t.port);
}

/// Lay out a stream's prefix as the client writes it: the six-byte
/// header first, the payload strictly after it. The header write
/// happens before any relayed byte on the stream.
pub fn frame_stream(t: &Target, payload: &Vec<u8>) -> (r: Vec<u8>)
    ensures
        r@ == spec_encode(*t) + payload@,
{
    let mut r = encode_header(t);
    let mut k: usize = 0;
    while k < payload.len()
        invariant
            k <= payload@.len(),
            r@ == spec_encode(*t) + payload@.take(k as int),
        decreases payload@.len() - k,
    {
        r.push(payload[k]);
        k = k + 1;
        proof {
            assert(r@ =~= spec_encode(*t) + payload@.take(k as int));
        }
    }
    proof {
        assert(payload@.take(payload@.len() as int) =~= payload@);
    }
    r
}

/// End-to-end byte fidelity: on a stream that carries a header for `t`
/// followed by a payload, the receiver recovers exactly `t` and exactly
/// the payload — no header byte leaks into the relayed data and no
/// payload byte is consumed by the header, for every target and every
/// payload.
pub proof fn lemma_end_to_end_fidelity(t: Target, payload: Seq<u8>)
    ensures
        spec_decode(spec_encode(t) + payload) == t,
        (spec_encode(t) + payload).skip(HEADER_LEN as int) == payload,
{
    lemma_header_round_trip(t);
    let framed = spec_encode(t) + payload;
    assert(framed.take(HEADER_LEN as int) =~= spec_encode(t));
    assert(spec_decode(framed) == spec_decode(spec_encode(t)));
    assert(framed.skip(HEADER_LEN as int) =~= payload);
}

/// Distinct destinations encode to distinct headers, so a header can
/// never be read back as some other mapping's destination.
pub proof fn lemma_header_injective(t1: Target, t2: Target)
    requires
        t1 != t2,
    ensures
        spec_encode(t1) != spec_encode(t2),
{
    if spec_encode(t1) == spec_encode(t2) {
        lemma_header_round_trip(t1);
        lemma_header_round_trip(t2);
        assert(false);
    }
}

} // verus!
