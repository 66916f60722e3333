//! Big-endian wire codec: every multi-byte integer on the wire is big-endian
//! regardless of host order, built from explicit byte-order-aware encode and
//! decode functions rather than native in-memory layout.

use vstd::prelude::*;

verus! {

/// The big-endian bytes of a 32-bit word, most significant first.
pub open spec fn be32(v: u32) -> Seq<u8> {
    seq![
        ((v >> 24) & 0xff) as u8,
        ((v >> 16) & 0xff) as u8,
        ((v >> 8) & 0xff) as u8,
        (v & 0xff) as u8,
    ]
}

/// The 32-bit word encoded by four big-endian bytes.
pub open spec fn be32_value(s: Seq<u8>) -> u32
    recommends
        s.len() == 4,
{
    (((s[0] as u32) << 24) | ((s[1] as u32) << 16) | ((s[2] as u32) << 8) | (s[3] as u32))
}

/// Encodes a 32-bit word as its four big-endian bytes.
pub fn encode_be32(v: u32) -> (r: [u8; 4])
    ensures
        r@ == be32(v),
{
    let r = [
        ((v >> 24) & 0xff) as u8,
        ((v >> 16) & 0xff) as u8,
        ((v >> 8) & 0xff) as u8,
        (v & 0xff) as u8,
    ];
    proof {
        assert(r@ =~= be32(v));
    }
    r
}

/// Decodes four big-endian bytes into the 32-bit word they encode.
pub fn decode_be32(b: &[u8; 4]) -> (v: u32)
    ensures
        v == be32_value(b@),
{
    ((b[0] as u32) << 24) | ((b[1] as u32) << 16) | ((b[2] as u32) << 8) | (b[3] as u32)
}

/// Decoding the big-endian bytes of a word gives the word back.
pub proof fn lemma_be32_round_trip(v: u32)
    ensures
        be32_value(be32(v)) == v,
{
    assert(((((v >> 24) & 0xff) as u8 as u32) << 24) | ((((v >> 16) & 0xff) as u8 as u32)
        << 16) | ((((v >> 8) & 0xff) as u8 as u32) << 8) | ((v & 0xff) as u8 as u32) == v)
        by (bit_vector);
}

/// Copies the payload into the prefix of the response buffer; bytes beyond
/// the written length are left untouched.
pub fn store_response(response: &mut Vec<u8>, payload: &Vec<u8>)
    requires
        payload@.len() <= old(response)@.len(),
    ensures
        final(response)@.len() == old(response)@.len(),
        final(response)@ == payload@ + old(response)@.skip(payload@.len() as int),
{
    let mut i: usize = 0;
    while i < payload.len()
        invariant
            i <= payload@.len(),
            payload@.len() <= response@.len(),
            response@.len() == old(response)@.len(),
            forall|j: int| 0 <= j < i ==> response@[j] == payload@[j],
            forall|j: int| i <= j < response@.len() ==> response@[j] == old(response)@[j],
        decreases payload@.len() - i,
    {
        response.set(i, payload[i]);
        i = i + 1;
    }
    proof {
        assert(response@ =~= payload@ + old(response)@.skip(payload@.len() as int));
    }
}

} // verus!
