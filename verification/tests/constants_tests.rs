//! Tests of the protocol constants: the shared base H is the hash of the
//! group's base point encoding, and the minus-one constant is the canonical
//! encoding of the negated unit scalar.

use curve25519_dalek::constants::RISTRETTO_BASEPOINT_COMPRESSED;
use curve25519_dalek::ristretto::RistrettoPoint;
use curve25519_dalek::scalar::Scalar;
use sha3::Digest;
use sha3::Sha3_512;

use private_metadata::equality_proof::COMPRESSED_H;
use private_metadata::equality_proof::NEG_ONE_BYTES;

#[test]
fn shared_base_is_hash_of_basepoint() {
    let digest = Sha3_512::digest(RISTRETTO_BASEPOINT_COMPRESSED.as_bytes());
    let mut wide = [0u8; 64];
    wide.copy_from_slice(&digest);
    let h = RistrettoPoint::from_uniform_bytes(&wide);
    assert_eq!(
        h.compress().to_bytes(),
        COMPRESSED_H,
        "expected shared base encoding {:?}",
        h.compress().to_bytes(),
    );
}

#[test]
fn neg_one_is_canonical_minus_one() {
    let neg_one = -Scalar::one();
    assert_eq!(neg_one.to_bytes(), NEG_ONE_BYTES);
    assert!(Scalar::from_canonical_bytes(NEG_ONE_BYTES).is_some());
}
