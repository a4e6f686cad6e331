//! The transfer proof: one chunk's re-encryption request. It carries the
//! source and destination ciphertext chunks, the two public keys involved,
//! and the equality proof tying them together; verification is delegated to
//! the equality proof under a transcript bound to exactly these values.

use vstd::prelude::*;

use crate::equality_proof::equality_proof_accepts;
use crate::equality_proof::verify_equality_proof;
use crate::equality_proof::EqualityProof;
use crate::error::TransferError;
use crate::pod::ElGamalCiphertext;
use crate::pod::ElGamalPubkey;

verus! {

/// The two encryption keys a chunk moves between.
#[derive(Clone, Copy, Debug)]
pub struct TransferPubkeys {
    pub src_pubkey: ElGamalPubkey,
    pub dst_pubkey: ElGamalPubkey,
}

/// One chunk re-encryption request, fully contained: the old and new
/// ciphertext chunks, the keys they are bound to, and the equality proof.
#[derive(Clone, Copy, Debug)]
pub struct TransferData {
    pub src_cipher_key_chunk_ct: ElGamalCiphertext,
    pub dst_cipher_key_chunk_ct: ElGamalCiphertext,
    pub transfer_public_keys: TransferPubkeys,
    pub proof: EqualityProof,
}

/// Exactly when this request's proof verifies for this request's statement.
pub open spec fn transfer_accepts(t: TransferData) -> bool {
    equality_proof_accepts(
        t.src_cipher_key_chunk_ct,
        t.dst_cipher_key_chunk_ct,
        t.transfer_public_keys.src_pubkey,
        t.transfer_public_keys.dst_pubkey,
        t.proof,
    )
}

/// Verifies one transfer request in-process (the direct strategy).
pub fn verify_transfer(t: &TransferData) -> (r: Result<(), TransferError>)
    ensures
        r is Ok <==> transfer_accepts(*t),
        r is Err ==> r == Result::<(), TransferError>::Err(TransferError::ProofVerificationError),
{
    verify_equality_proof(
        &t.src_cipher_key_chunk_ct,
        &t.dst_cipher_key_chunk_ct,
        &t.transfer_public_keys.src_pubkey,
        &t.transfer_public_keys.dst_pubkey,
        &t.proof,
    )
}

} // verus!
