use vstd::prelude::*;

use parity_scale_codec::Encode;

use crate::state::AppState;

verus! {

/// The four bytes of a 32-bit word, least significant first.
pub open spec fn u32_le_bytes(x: u32) -> Seq<u8> {
    seq![
        (x & 0xff) as u8,
        ((x >> 8) & 0xff) as u8,
        ((x >> 16) & 0xff) as u8,
        ((x >> 24) & 0xff) as u8,
    ]
}

/// Relies on parity-scale-codec's `Encode` for `u32`: a fixed-width
/// integer encodes as its little-endian bytes.
#[verifier::external_body]
fn encode_u32(x: u32) -> (r: Vec<u8>)
    ensures
        r@ == u32_le_bytes(x),
{
    x.encode()
}

/// The canonical bytes the two players co-sign: the little-endian words
/// `nonce`, `seq_num`, condition key and operation code, concatenated in
/// that order.
pub open spec fn app_state_bytes(a: AppState) -> Seq<u8> {
    u32_le_bytes(a.nonce) + u32_le_bytes(a.seq_num) + u32_le_bytes(a.state.condition_key)
        + u32_le_bytes(a.state.op.code())
}

/// A 32-bit word is recoverable from its four little-endian bytes.
proof fn lemma_u32_le_injective(x: u32, y: u32)
    requires
        u32_le_bytes(x) == u32_le_bytes(y),
    ensures
        x == y,
{
    assert(u32_le_bytes(x)[0] == u32_le_bytes(y)[0]);
    assert(u32_le_bytes(x)[1] == u32_le_bytes(y)[1]);
    assert(u32_le_bytes(x)[2] == u32_le_bytes(y)[2]);
    assert(u32_le_bytes(x)[3] == u32_le_bytes(y)[3]);
    assert(x == y) by (bit_vector)
        requires
            (x & 0xff) as u8 == (y & 0xff) as u8,
            ((x >> 8) & 0xff) as u8 == ((y >> 8) & 0xff) as u8,
            ((x >> 16) & 0xff) as u8 == ((y >> 16) & 0xff) as u8,
            ((x >> 24) & 0xff) as u8 == ((y >> 24) & 0xff) as u8,
    ;
}

/// The canonical encoding is unambiguous: two proposed states with the
/// same signed bytes agree on the nonce, the sequence number, the
/// condition key and the operation word — everything the co-signature
/// covers.
pub proof fn lemma_app_state_bytes_unambiguous(a1: AppState, a2: AppState)
    requires
        app_state_bytes(a1) == app_state_bytes(a2),
    ensures
        a1.nonce == a2.nonce,
        a1.seq_num == a2.seq_num,
        a1.state.condition_key == a2.state.condition_key,
        a1.state.op.code() == a2.state.op.code(),
{
    let b1 = app_state_bytes(a1);
    let b2 = app_state_bytes(a2);
    assert(u32_le_bytes(a1.nonce) =~= b1.subrange(0, 4));
    assert(u32_le_bytes(a1.seq_num) =~= b1.subrange(4, 8));
    assert(u32_le_bytes(a1.state.condition_key) =~= b1.subrange(8, 12));
    assert(u32_le_bytes(a1.state.op.code()) =~= b1.subrange(12, 16));
    assert(u32_le_bytes(a2.nonce) =~= b2.subrange(0, 4));
    assert(u32_le_bytes(a2.seq_num) =~= b2.subrange(4, 8));
    assert(u32_le_bytes(a2.state.condition_key) =~= b2.subrange(8, 12));
    assert(u32_le_bytes(a2.state.op.code()) =~= b2.subrange(12, 16));
    lemma_u32_le_injective(a1.nonce, a2.nonce);
    lemma_u32_le_injective(a1.seq_num, a2.seq_num);
    lemma_u32_le_injective(a1.state.condition_key, a2.state.condition_key);
    lemma_u32_le_injective(a1.state.op.code(), a2.state.op.code());
}

/// Produces the canonical byte encoding of a proposed state, the exact
/// message a state proof's signatures must cover.
pub fn encode_app_state(a: &AppState) -> (r: Vec<u8>)
    ensures
        r@ == app_state_bytes(*a),
{
    let mut r = encode_u32(a.nonce);
    let mut part = encode_u32(a.seq_num);
    r.append(&mut part);
    let mut part = encode_u32(a.state.condition_key);
    r.append(&mut part);
    let mut part = encode_u32(crate::state::op_code(a.state.op));
    r.append(&mut part);
    assert(r@ =~= app_state_bytes(*a));
    r
}

} // verus!
