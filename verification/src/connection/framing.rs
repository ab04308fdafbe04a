use vstd::prelude::*;

verus! {

/// The eight bytes of `n`, least significant first.
pub open spec fn le_bytes(n: u64) -> Seq<u8> {
    seq![
        n as u8,
        (n >> 8u64) as u8,
        (n >> 16u64) as u8,
        (n >> 24u64) as u8,
        (n >> 32u64) as u8,
        (n >> 40u64) as u8,
        (n >> 48u64) as u8,
        (n >> 56u64) as u8,
    ]
}

/// The number whose bytes, least significant first, are `b`.
pub open spec fn le_value(b: [u8; 8]) -> u64 {
    (b[0] as u64) | ((b[1] as u64) << 8u64) | ((b[2] as u64) << 16u64) | ((b[3] as u64) << 24u64) | ((
    b[4] as u64) << 32u64) | ((b[5] as u64) << 40u64) | ((b[6] as u64) << 48u64) | ((b[7] as u64) << 56u64)
}

/// The header of a message: its payload length as eight bytes, least
/// significant first.
pub fn encode_length(n: u64) -> (r: [u8; 8])
    ensures
        r@ == le_bytes(n),
{
    let r = [
        n as u8,
        (n >> 8u64) as u8,
        (n >> 16u64) as u8,
        (n >> 24u64) as u8,
        (n >> 32u64) as u8,
        (n >> 40u64) as u8,
        (n >> 48u64) as u8,
        (n >> 56u64) as u8,
    ];
    assert(r@ =~= le_bytes(n));
    r
}

/// The payload length a message header announces.
pub fn decode_length(b: &[u8; 8]) -> (r: u64)
    ensures
        r == le_value(*b),
{
    (b[0] as u64) | ((b[1] as u64) << 8u64) | ((b[2] as u64) << 16u64) | ((b[3] as u64) << 24u64) | ((
    b[4] as u64) << 32u64) | ((b[5] as u64) << 40u64) | ((b[6] as u64) << 48u64) | ((b[7] as u64) << 56u64)
}

/// A message on the connection: the payload's length, then the payload.
pub open spec fn frame(payload: Seq<u8>) -> Seq<u8> {
    le_bytes(payload.len() as u64) + payload
}

/// The bytes that carry `payload` to the peer.
pub fn encode_frame(payload: &[u8]) -> (r: Vec<u8>)
    ensures
        r@ == frame(payload@),
{
    let header = encode_length(payload.len() as u64);
    let mut r: Vec<u8> = Vec::new();
    let mut i: usize = 0;
    while i < 8
        invariant
            i <= 8,
            header@ == le_bytes(payload@.len() as u64),
            r@ == header@.take(i as int),
        decreases 8 - i,
    {
        r.push(header[i]);
        i = i + 1;
        assert(r@ =~= header@.take(i as int));
    }
    let mut j: usize = 0;
    while j < payload.len()
        invariant
            j <= payload@.len(),
            header@ == le_bytes(payload@.len() as u64),
            r@ == header@ + payload@.take(j as int),
        decreases payload@.len() - j,
    {
        r.push(payload[j]);
        j = j + 1;
        assert(r@ =~= header@ + payload@.take(j as int));
    }
    assert(payload@.take(payload@.len() as int) =~= payload@);
    r
}

/// Payload length announced by a message header, in bytes.
pub fn frame_payload_len(header: &[u8; 8]) -> (r: usize)
    ensures
        r == le_value(*header) as usize,
{
    decode_length(header) as usize
}

/// Reading back the header of a number gives the number.
pub proof fn lemma_length_roundtrip(n: u64)
    ensures
        ({
            let b = le_bytes(n);
            le_value([b[0], b[1], b[2], b[3], b[4], b[5], b[6], b[7]]) == n
        }),
{
    assert(((n as u8) as u64) | (((n >> 8u64) as u8) as u64) << 8u64 | (((n >> 16u64) as u8) as u64) << 16u64
        | (((n >> 24u64) as u8) as u64) << 24u64 | (((n >> 32u64) as u8) as u64) << 32u64 | (((n >> 40u64) as u8)
        as u64) << 40u64 | (((n >> 48u64) as u8) as u64) << 48u64 | (((n >> 56u64) as u8) as u64) << 56u64 == n)
        by (bit_vector);
}

/// The header of the value read from eight bytes is those bytes.
pub proof fn lemma_header_roundtrip(b: [u8; 8])
    ensures
        le_bytes(le_value(b)) == b@,
{
    let (b0, b1, b2, b3, b4, b5, b6, b7) = (b[0], b[1], b[2], b[3], b[4], b[5], b[6], b[7]);
    let v = le_value(b);
    assert(v == (b0 as u64) | ((b1 as u64) << 8u64) | ((b2 as u64) << 16u64) | ((b3 as u64) << 24u64) | ((
    b4 as u64) << 32u64) | ((b5 as u64) << 40u64) | ((b6 as u64) << 48u64) | ((b7 as u64) << 56u64));
    assert(v as u8 == b0 && (v >> 8u64) as u8 == b1 && (v >> 16u64) as u8 == b2 && (v >> 24u64) as u8 == b3 && (v
        >> 32u64) as u8 == b4 && (v >> 40u64) as u8 == b5 && (v >> 48u64) as u8 == b6 && (v >> 56u64) as u8 == b7)
        by (bit_vector)
        requires
            v == (b0 as u64) | ((b1 as u64) << 8u64) | ((b2 as u64) << 16u64) | ((b3 as u64) << 24u64) | ((
            b4 as u64) << 32u64) | ((b5 as u64) << 40u64) | ((b6 as u64) << 48u64) | ((b7 as u64) << 56u64),
    ;
    assert(le_bytes(v) =~= b@);
}

/// A message's payload length read from its header is the payload's length.
pub proof fn lemma_frame_announces_length(payload: Seq<u8>)
    requires
        payload.len() <= u64::MAX,
    ensures
        ({
            let f = frame(payload);
            le_value([f[0], f[1], f[2], f[3], f[4], f[5], f[6], f[7]]) == payload.len()
                && f.subrange(8, f.len() as int) == payload
        }),
{
    lemma_length_roundtrip(payload.len() as u64);
    let f = frame(payload);
    assert(f.subrange(8, f.len() as int) =~= payload);
}

} // verus!
