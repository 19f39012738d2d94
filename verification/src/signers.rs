use vstd::prelude::*;

use crate::account::AccountId;
use crate::account::Signature;
use crate::crypto::sr25519_verified;
use crate::crypto::sr25519_verify;
use crate::state::Error;

verus! {

/// Whether the unordered pair of signatures `(s0, s1)` co-signs `msg` on
/// behalf of the unordered pair of signers `(p0, p1)`: each signer must
/// have produced one of the two signatures, in either order.
pub open spec fn two_sig_ok(s0: Seq<u8>, s1: Seq<u8>, msg: Seq<u8>, p0: Seq<u8>, p1: Seq<u8>) -> bool {
    ||| (sr25519_verified(s0, msg, p0) && sr25519_verified(s1, msg, p1))
    ||| (sr25519_verified(s0, msg, p1) && sr25519_verified(s1, msg, p0))
}

/// Checks that a message carries one valid signature from each of the two
/// required signers. The two signatures may come in either order relative
/// to the signers; any other combination — a third party's signature, a
/// signature over different bytes, or not exactly two signatures — is
/// `InvalidSignature`.
pub fn valid_signers(signatures: &Vec<Signature>, msg: &Vec<u8>, signers: &Vec<AccountId>) -> (r: Result<(), Error>)
    requires
        signers@.len() == 2,
    ensures
        r is Ok <==> (signatures@.len() == 2 && two_sig_ok(
            signatures@[0]@,
            signatures@[1]@,
            msg@,
            signers@[0]@,
            signers@[1]@,
        )),
        r is Err ==> r == Result::<(), Error>::Err(Error::InvalidSignature),
{
    if signatures.len() != 2 {
        return Err(Error::InvalidSignature);
    }
    if sr25519_verify(&signatures[0], msg, &signers[0]) && sr25519_verify(&signatures[1], msg, &signers[1]) {
        Ok(())
    } else if sr25519_verify(&signatures[0], msg, &signers[1]) && sr25519_verify(&signatures[1], msg, &signers[0]) {
        Ok(())
    } else {
        Err(Error::InvalidSignature)
    }
}

/// The co-signature check is insensitive to order: swapping the two
/// signatures, or the two signers, or both, never changes its verdict.
pub proof fn lemma_valid_signers_order_independent(s0: Seq<u8>, s1: Seq<u8>, msg: Seq<u8>, p0: Seq<u8>, p1: Seq<u8>)
    ensures
        two_sig_ok(s0, s1, msg, p0, p1) == two_sig_ok(s1, s0, msg, p0, p1),
        two_sig_ok(s0, s1, msg, p0, p1) == two_sig_ok(s0, s1, msg, p1, p0),
        two_sig_ok(s0, s1, msg, p0, p1) == two_sig_ok(s1, s0, msg, p1, p0),
{
}

/// A pairing in which some signature verifies under neither listed signer
/// is always rejected.
pub proof fn lemma_no_foreign_signature(s0: Seq<u8>, s1: Seq<u8>, msg: Seq<u8>, p0: Seq<u8>, p1: Seq<u8>)
    requires
        (!sr25519_verified(s0, msg, p0) && !sr25519_verified(s0, msg, p1)) || (!sr25519_verified(
            s1,
            msg,
            p0,
        ) && !sr25519_verified(s1, msg, p1)),
    ensures
        !two_sig_ok(s0, s1, msg, p0, p1),
{
}

} // verus!
