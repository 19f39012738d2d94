use vstd::prelude::*;

use crate::account::AccountId;
use crate::account::Signature;

verus! {

/// Whether `sig` is a valid sr25519 signature by the public key `pk` over
/// `msg`, under the signing context the surrounding ledger uses.
/// Verification is a pure function of these three byte strings; its
/// definition (the Schnorr verification equation over the Ristretto
/// group) is left to the crate that implements it.
pub uninterp spec fn sr25519_verified(sig: Seq<u8>, msg: Seq<u8>, pk: Seq<u8>) -> bool;

/// Relies on schnorrkel's `PublicKey::verify_simple` (and the two
/// `from_bytes` parsers): deciding the sr25519 verification equation for
/// one signature, message and public key, under the b"substrate" context.
/// Malformed key or signature bytes never verify.
#[verifier::external_body]
pub(crate) fn sr25519_verify(sig: &Signature, msg: &Vec<u8>, pk: &AccountId) -> (r: bool)
    ensures
        r == sr25519_verified(sig@, msg@, pk@),
{
    let public = match schnorrkel::PublicKey::from_bytes(pk.bytes.as_slice()) {
        Ok(public) => public,
        Err(_) => return false,
    };
    let signature = match schnorrkel::Signature::from_bytes(sig.bytes.as_slice()) {
        Ok(signature) => signature,
        Err(_) => return false,
    };
    public.verify_simple(b"substrate", msg.as_slice(), &signature).is_ok()
}

} // verus!
