use netonet::errors::TunnelError;
use netonet::header::{
    decode_header, encode_header, frame_stream, split_header, Ipv4, Target, HEADER_LEN,
};

fn target(a: u8, b: u8, c: u8, d: u8, port: u16) -> Target {
    Target { addr: Ipv4 { a, b, c, d }, port }
}

#[test]
fn encode_exact_bytes() {
    let t = target(1, 2, 3, 4, 0x1234);
    assert_eq!(encode_header(&t), vec![1, 2, 3, 4, 0x12, 0x34]);
    let t = target(127, 0, 0, 1, 9000);
    assert_eq!(encode_header(&t), vec![127, 0, 0, 1, 0x23, 0x28]);
}

#[test]
fn header_len_is_six() {
    assert_eq!(HEADER_LEN, 6);
    assert_eq!(encode_header(&target(9, 9, 9, 9, 9)).len(), 6);
}

#[test]
fn round_trip_all_corners() {
    let cases = [
        target(0, 0, 0, 0, 0),
        target(255, 255, 255, 255, 65535),
        target(10, 0, 0, 1, 80),
        target(192, 168, 1, 77, 443),
        target(127, 0, 0, 1, 1),
        target(8, 8, 8, 8, 256),
        target(1, 0, 0, 0, 255),
    ];
    for t in cases {
        let encoded = encode_header(&t);
        assert_eq!(decode_header(&encoded), Ok(t));
    }
}

#[test]
fn round_trip_port_sweep() {
    let mut port: u32 = 0;
    while port <= 65535 {
        let t = target(172, 16, 254, 3, port as u16);
        assert_eq!(decode_header(&encode_header(&t)), Ok(t));
        port += 157;
    }
}

#[test]
fn decode_rejects_truncation() {
    for n in 0..6usize {
        let short = vec![10u8; n];
        assert_eq!(decode_header(&short), Err(TunnelError::HeaderDecodeFailure));
        assert_eq!(
            split_header(&short).unwrap_err(),
            TunnelError::HeaderDecodeFailure
        );
    }
}

#[test]
fn decode_ignores_trailing_bytes() {
    let mut bytes = encode_header(&target(10, 0, 0, 2, 9999));
    bytes.extend_from_slice(&[0xde, 0xad, 0xbe, 0xef]);
    assert_eq!(decode_header(&bytes), Ok(target(10, 0, 0, 2, 9999)));
}

#[test]
fn decode_is_pure_framing() {
    // Port zero and broadcast addresses pass through unchanged.
    assert_eq!(
        decode_header(&vec![255, 255, 255, 255, 0, 0]),
        Ok(target(255, 255, 255, 255, 0))
    );
}

#[test]
fn split_recovers_payload_exactly() {
    let t = target(127, 0, 0, 1, 9000);
    let payload = vec![7u8, 0, 255, 42, 7];
    let framed = frame_stream(&t, &payload);
    assert_eq!(framed.len(), 6 + payload.len());
    let (got_target, got_payload) = split_header(&framed).unwrap();
    assert_eq!(got_target, t);
    assert_eq!(got_payload, payload);
}

#[test]
fn fidelity_large_pseudo_random_payload() {
    // One mebibyte of pseudo-random bytes survives framing and splitting
    // byte for byte, with no header bytes leaking into the payload.
    let t = target(127, 0, 0, 1, 9000);
    let mut payload = Vec::with_capacity(1 << 20);
    let mut x: u64 = 0x2545f4914f6cdd1d;
    for _ in 0..(1usize << 20) {
        x = x.wrapping_mul(6364136223846793005).wrapping_add(1442695040888963407);
        payload.push((x >> 33) as u8);
    }
    let framed = frame_stream(&t, &payload);
    let (got_target, got_payload) = split_header(&framed).unwrap();
    assert_eq!(got_target, t);
    assert_eq!(got_payload, payload);
    assert_eq!(&framed[..6], &encode_header(&t)[..]);
}

#[test]
fn empty_payload_frames_to_bare_header() {
    let t = target(10, 1, 2, 3, 7070);
    let framed = frame_stream(&t, &Vec::new());
    assert_eq!(framed, encode_header(&t));
    let (got_target, got_payload) = split_header(&framed).unwrap();
    assert_eq!(got_target, t);
    assert!(got_payload.is_empty());
}
