//! Tests of the transcript protocol: determinism over the absorbed history,
//! and sensitivity to every absorbed value and to the order of absorption.

use private_metadata::transcript::ProofTranscript;

fn challenge_of(messages: &[(&'static [u8], &[u8])]) -> [u8; 32] {
    let mut t = ProofTranscript::new(b"transcript-tests");
    for (label, msg) in messages {
        t.append_message(label, msg);
    }
    t.challenge_scalar(b"c").to_bytes()
}

#[test]
fn same_history_same_challenge() {
    let a = challenge_of(&[(b"one", &[1, 2, 3]), (b"two", &[4, 5])]);
    let b = challenge_of(&[(b"one", &[1, 2, 3]), (b"two", &[4, 5])]);
    assert_eq!(a, b);
}

#[test]
fn different_message_different_challenge() {
    let a = challenge_of(&[(b"one", &[1, 2, 3])]);
    let b = challenge_of(&[(b"one", &[1, 2, 4])]);
    assert_ne!(a, b);
}

#[test]
fn different_order_different_challenge() {
    let a = challenge_of(&[(b"one", &[1]), (b"two", &[2])]);
    let b = challenge_of(&[(b"two", &[2]), (b"one", &[1])]);
    assert_ne!(a, b);
}

#[test]
fn empty_message_still_absorbed() {
    let a = challenge_of(&[(b"one", &[])]);
    let b = challenge_of(&[]);
    assert_ne!(a, b);
}

#[test]
fn challenge_ratchets_history() {
    let mut t = ProofTranscript::new(b"transcript-tests");
    let first = t.challenge_scalar(b"c").to_bytes();
    let second = t.challenge_scalar(b"c").to_bytes();
    assert_ne!(first, second);
}

#[test]
fn challenge_matches_hash_library() {
    // the challenge must be what the hashing library computes, not a value
    // derived from the recorded history bytes themselves
    let mut reference = merlin::Transcript::new(b"transcript-tests");
    reference.append_message(b"one", &[1, 2, 3]);
    let mut wide = [0u8; 64];
    reference.challenge_bytes(b"c", &mut wide);
    let expected = curve25519_dalek::scalar::Scalar::from_bytes_mod_order_wide(&wide).to_bytes();
    assert_eq!(challenge_of(&[(b"one", &[1, 2, 3])]), expected);
}
