//! The equality proof: a batched three-relation sigma protocol showing that
//! a source ciphertext chunk under the source key and a destination
//! ciphertext chunk under the destination key encode the same plaintext.
//!
//! Verification derives one shared challenge from a transcript bound to the
//! statement, then checks three multiscalar multiplications, one per
//! relation, each of which must be the group's identity element.

use vstd::prelude::*;

use crate::curve::identity_encoding;
use crate::curve::msm;
use crate::curve::msm_compressed_of;
use crate::curve::neg_scalar_of;
use crate::curve::point_decompress;
use crate::curve::point_is_identity;
use crate::curve::point_srcs;
use crate::curve::ristretto_ok;
use crate::curve::scalar_from_canonical;
use crate::curve::scalar_ok;
use crate::curve::scalar_srcs;
use crate::curve::CanonicalScalar;
use crate::curve::DecodedPoint;
use crate::error::TransferError;
use crate::pod::ElGamalCiphertext;
use crate::pod::ElGamalPubkey;
use crate::transcript::absorb_frame;
use crate::transcript::challenge_scalar_of;
use crate::transcript::init_frame;
use crate::transcript::ProofTranscript;

verus! {

/// Transcript label, ASCII for "cipher-key-transfer".
pub const LABEL_DOMAIN: [u8; 19] = [99, 105, 112, 104, 101, 114, 45, 107, 101, 121, 45, 116, 114, 97, 110, 115, 102, 101, 114];

/// Transcript label, ASCII for "src-commitment".
pub const LABEL_SRC_COMMITMENT: [u8; 14] = [115, 114, 99, 45, 99, 111, 109, 109, 105, 116, 109, 101, 110, 116];

/// Transcript label, ASCII for "src-handle".
pub const LABEL_SRC_HANDLE: [u8; 10] = [115, 114, 99, 45, 104, 97, 110, 100, 108, 101];

/// Transcript label, ASCII for "dst-commitment".
pub const LABEL_DST_COMMITMENT: [u8; 14] = [100, 115, 116, 45, 99, 111, 109, 109, 105, 116, 109, 101, 110, 116];

/// Transcript label, ASCII for "dst-handle".
pub const LABEL_DST_HANDLE: [u8; 10] = [100, 115, 116, 45, 104, 97, 110, 100, 108, 101];

/// Transcript label, ASCII for "src-pubkey".
pub const LABEL_SRC_PUBKEY: [u8; 10] = [115, 114, 99, 45, 112, 117, 98, 107, 101, 121];

/// Transcript label, ASCII for "dst-pubkey".
pub const LABEL_DST_PUBKEY: [u8; 10] = [100, 115, 116, 45, 112, 117, 98, 107, 101, 121];

/// Transcript label, ASCII for "Y0".
pub const LABEL_Y0: [u8; 2] = [89, 48];

/// Transcript label, ASCII for "Y1".
pub const LABEL_Y1: [u8; 2] = [89, 49];

/// Transcript label, ASCII for "Y2".
pub const LABEL_Y2: [u8; 2] = [89, 50];

/// Transcript label, ASCII for "c".
pub const LABEL_CHALLENGE: [u8; 1] = [99];

/// The compressed encoding of the shared Pedersen base H: the second,
/// independent generator that commitments and decryption handles are built
/// on, fixed for the whole protocol as the hash-to-group of the base
/// point's own encoding, so that nobody knows a discrete logarithm relation
/// between the two.
pub const COMPRESSED_H: [u8; 32] = [
    140, 146, 64, 180, 86, 169, 230, 220, 101, 195, 119, 161, 4, 141, 116, 95, 148, 160, 140,
    219, 127, 68, 203, 205, 123, 70, 243, 64, 72, 135, 17, 52,
];

/// The canonical encoding of the scalar minus one, that is the group order
/// minus one in little-endian bytes.
pub const NEG_ONE_BYTES: [u8; 32] = [
    0xec, 0xd3, 0xf5, 0x5c, 0x1a, 0x63, 0x12, 0x58, 0xd6, 0x9c, 0xf7, 0xa2, 0xde, 0xf9, 0xde,
    0x14, 0x00, 0x00, 0x00, 0x00, 0x00, 0x00, 0x00, 0x00, 0x00, 0x00, 0x00, 0x00, 0x00, 0x00,
    0x00, 0x10,
];

/// Byte length of a serialized equality proof: three commitment witnesses
/// followed by two response scalars, 32 bytes each.
pub const EQUALITY_PROOF_LEN: usize = 160;

/// The prover's message: three commitment witnesses (one per relation) and
/// the two response scalars of the batched sigma protocol.
#[derive(Clone, Copy, Debug)]
pub struct EqualityProof {
    pub y_0: [u8; 32],
    pub y_1: [u8; 32],
    pub y_2: [u8; 32],
    pub sh_1: [u8; 32],
    pub rh_2: [u8; 32],
}

impl EqualityProof {
    /// The 160-byte wire encoding of this proof.
    pub open spec fn wire(self) -> Seq<u8> {
        self.y_0@ + self.y_1@ + self.y_2@ + self.sh_1@ + self.rh_2@
    }
}

/// Copies 32 bytes out of `b` starting at `off`.
pub fn copy32(b: &[u8], off: usize) -> (r: [u8; 32])
    requires
        off + 32 <= b@.len(),
    ensures
        r@ == b@.subrange(off as int, off as int + 32),
{
    let n: usize = b.len();
    let mut out: [u8; 32] = [0; 32];
    let mut i: usize = 0;
    while i < 32
        invariant
            i <= 32,
            off + 32 <= n == b@.len(),
            out@.len() == 32,
            forall|j: int| 0 <= j < i ==> out@[j] == b@[off + j],
        decreases 32 - i,
    {
        out[i] = b[off + i];
        i += 1;
    }
    proof {
        assert(out@ =~= b@.subrange(off as int, off as int + 32));
    }
    out
}

/// Parses a 160-byte equality proof. Succeeds exactly when both response
/// scalars are canonical encodings; the commitment witnesses are validated
/// later, at decompression. Non-canonical scalars are rejected, not reduced.
pub fn equality_proof_from_bytes(b: &[u8; 160]) -> (r: Result<EqualityProof, TransferError>)
    ensures
        match r {
            Ok(p) => {
                &&& scalar_ok(b@.subrange(96, 128))
                &&& scalar_ok(b@.subrange(128, 160))
                &&& p.y_0@ == b@.subrange(0, 32)
                &&& p.y_1@ == b@.subrange(32, 64)
                &&& p.y_2@ == b@.subrange(64, 96)
                &&& p.sh_1@ == b@.subrange(96, 128)
                &&& p.rh_2@ == b@.subrange(128, 160)
            },
            Err(e) => {
                &&& e == TransferError::ProofVerificationError
                &&& !(scalar_ok(b@.subrange(96, 128)) && scalar_ok(b@.subrange(128, 160)))
            },
        },
{
    let proof = EqualityProof {
        y_0: copy32(b, 0),
        y_1: copy32(b, 32),
        y_2: copy32(b, 64),
        sh_1: copy32(b, 96),
        rh_2: copy32(b, 128),
    };
    if scalar_from_canonical(&proof.sh_1).is_none() {
        return Err(TransferError::ProofVerificationError);
    }
    if scalar_from_canonical(&proof.rh_2).is_none() {
        return Err(TransferError::ProofVerificationError);
    }
    Ok(proof)
}

/// The framed transcript history that binds a challenge to this statement:
/// the domain label, the source and destination ciphertexts, the two public
/// keys, and the three commitment witnesses, in this exact order.
pub open spec fn statement_history(
    src_ct: ElGamalCiphertext,
    dst_ct: ElGamalCiphertext,
    src_pk: ElGamalPubkey,
    dst_pk: ElGamalPubkey,
    proof: EqualityProof,
) -> Seq<u8> {
    init_frame(LABEL_DOMAIN@) + absorb_frame(LABEL_SRC_COMMITMENT@, src_ct.commitment@)
        + absorb_frame(LABEL_SRC_HANDLE@, src_ct.handle@) + absorb_frame(
        LABEL_DST_COMMITMENT@,
        dst_ct.commitment@,
    ) + absorb_frame(LABEL_DST_HANDLE@, dst_ct.handle@) + absorb_frame(LABEL_SRC_PUBKEY@, src_pk.0@)
        + absorb_frame(LABEL_DST_PUBKEY@, dst_pk.0@) + absorb_frame(LABEL_Y0@, proof.y_0@)
        + absorb_frame(LABEL_Y1@, proof.y_1@) + absorb_frame(LABEL_Y2@, proof.y_2@)
}

/// The canonical encoding of the challenge scalar for this statement.
pub open spec fn statement_challenge(
    src_ct: ElGamalCiphertext,
    dst_ct: ElGamalCiphertext,
    src_pk: ElGamalPubkey,
    dst_pk: ElGamalPubkey,
    proof: EqualityProof,
) -> Seq<u8> {
    challenge_scalar_of(statement_history(src_ct, dst_ct, src_pk, dst_pk, proof), LABEL_CHALLENGE@)
}

/// Builds the transcript for this statement and derives its challenge.
pub fn derive_statement_challenge(
    src_ct: &ElGamalCiphertext,
    dst_ct: &ElGamalCiphertext,
    src_pk: &ElGamalPubkey,
    dst_pk: &ElGamalPubkey,
    proof: &EqualityProof,
) -> (r: CanonicalScalar)
    ensures
        r@ == statement_challenge(*src_ct, *dst_ct, *src_pk, *dst_pk, *proof),
        scalar_ok(r@),
{
    let mut t = ProofTranscript::new(&LABEL_DOMAIN);
    t.append_message(&LABEL_SRC_COMMITMENT, &src_ct.commitment);
    t.append_message(&LABEL_SRC_HANDLE, &src_ct.handle);
    t.append_message(&LABEL_DST_COMMITMENT, &dst_ct.commitment);
    t.append_message(&LABEL_DST_HANDLE, &dst_ct.handle);
    t.append_message(&LABEL_SRC_PUBKEY, &src_pk.0);
    t.append_message(&LABEL_DST_PUBKEY, &dst_pk.0);
    t.append_message(&LABEL_Y0, &proof.y_0);
    t.append_message(&LABEL_Y1, &proof.y_1);
    t.append_message(&LABEL_Y2, &proof.y_2);
    t.challenge_scalar(&LABEL_CHALLENGE)
}

/// The eleven statement points of the proof, in wire order: the first
/// relation's three, the second relation's three, then the third relation's
/// five. The shared base H appears once per relation that uses it.
pub open spec fn statement_points(
    src_ct: ElGamalCiphertext,
    dst_ct: ElGamalCiphertext,
    src_pk: ElGamalPubkey,
    dst_pk: ElGamalPubkey,
    proof: EqualityProof,
) -> Seq<Seq<u8>> {
    seq![
        src_pk.0@,
        COMPRESSED_H@,
        proof.y_0@,
        dst_pk.0@,
        dst_ct.handle@,
        proof.y_1@,
        src_ct.handle@,
        src_ct.commitment@,
        dst_ct.commitment@,
        COMPRESSED_H@,
        proof.y_2@,
    ]
}

/// The eleven response scalars of the proof, in wire order, built from the
/// two responses, the challenge `c` and the constant minus one. The wire
/// order groups the operands by relation; the evaluator's fixed program
/// pairs each with its relation's point as the relations require.
pub open spec fn statement_scalars(proof: EqualityProof, c: Seq<u8>) -> Seq<Seq<u8>> {
    seq![
        proof.sh_1@,
        neg_scalar_of(c),
        NEG_ONE_BYTES@,
        proof.rh_2@,
        neg_scalar_of(c),
        NEG_ONE_BYTES@,
        c,
        neg_scalar_of(c),
        proof.sh_1@,
        neg_scalar_of(proof.rh_2@),
        NEG_ONE_BYTES@,
    ]
}

/// The first relation: the response is consistent with the source public
/// key and the first witness, proving knowledge of the source secret key.
pub open spec fn relation_a_identity(src_pk: ElGamalPubkey, proof: EqualityProof, c: Seq<u8>) -> bool {
    msm_compressed_of(
        seq![proof.sh_1@, neg_scalar_of(c), NEG_ONE_BYTES@],
        seq![src_pk.0@, COMPRESSED_H@, proof.y_0@],
    ) == identity_encoding()
}

/// The second relation: the response is consistent with the destination
/// key, the destination handle and the second witness, proving knowledge of
/// the destination encryption randomness.
pub open spec fn relation_b_identity(
    dst_ct: ElGamalCiphertext,
    dst_pk: ElGamalPubkey,
    proof: EqualityProof,
    c: Seq<u8>,
) -> bool {
    msm_compressed_of(
        seq![proof.rh_2@, neg_scalar_of(c), NEG_ONE_BYTES@],
        seq![dst_pk.0@, dst_ct.handle@, proof.y_1@],
    ) == identity_encoding()
}

/// The third relation: the two responses jointly tie the source and
/// destination commitments through the shared base and the third witness,
/// proving the encoded plaintexts equal.
pub open spec fn relation_c_identity(
    src_ct: ElGamalCiphertext,
    dst_ct: ElGamalCiphertext,
    proof: EqualityProof,
    c: Seq<u8>,
) -> bool {
    msm_compressed_of(
        seq![proof.sh_1@, neg_scalar_of(c), c, neg_scalar_of(proof.rh_2@), NEG_ONE_BYTES@],
        seq![src_ct.handle@, src_ct.commitment@, dst_ct.commitment@, COMPRESSED_H@, proof.y_2@],
    ) == identity_encoding()
}

/// Exactly when direct verification accepts: the response scalars and the
/// constant are canonical, every statement point decodes, and all three
/// relations evaluate to the identity under the statement's own challenge.
pub open spec fn equality_proof_accepts(
    src_ct: ElGamalCiphertext,
    dst_ct: ElGamalCiphertext,
    src_pk: ElGamalPubkey,
    dst_pk: ElGamalPubkey,
    proof: EqualityProof,
) -> bool {
    let c = statement_challenge(src_ct, dst_ct, src_pk, dst_pk, proof);
    &&& scalar_ok(proof.sh_1@)
    &&& scalar_ok(proof.rh_2@)
    &&& scalar_ok(NEG_ONE_BYTES@)
    &&& ristretto_ok(src_pk.0@)
    &&& ristretto_ok(COMPRESSED_H@)
    &&& ristretto_ok(proof.y_0@)
    &&& ristretto_ok(dst_pk.0@)
    &&& ristretto_ok(dst_ct.handle@)
    &&& ristretto_ok(proof.y_1@)
    &&& ristretto_ok(src_ct.handle@)
    &&& ristretto_ok(src_ct.commitment@)
    &&& ristretto_ok(dst_ct.commitment@)
    &&& ristretto_ok(proof.y_2@)
    &&& relation_a_identity(src_pk, proof, c)
    &&& relation_b_identity(dst_ct, dst_pk, proof, c)
    &&& relation_c_identity(src_ct, dst_ct, proof, c)
}

/// Checks one relation: multiscalar-multiplies and tests for the identity.
fn relation_holds(scalars: Vec<CanonicalScalar>, points: Vec<DecodedPoint>) -> (r: bool)
    requires
        scalars@.len() == points@.len(),
    ensures
        r == (msm_compressed_of(scalar_srcs(scalars@), point_srcs(points@)) == identity_encoding()),
{
    let product = msm(&scalars, &points);
    point_is_identity(&product)
}

/// Direct verification of an equality proof: derives the challenge from the
/// statement's transcript, then checks the three relations in-process. Pure;
/// a failed proof is an error, never a panic.
pub fn verify_equality_proof(
    src_ct: &ElGamalCiphertext,
    dst_ct: &ElGamalCiphertext,
    src_pk: &ElGamalPubkey,
    dst_pk: &ElGamalPubkey,
    proof: &EqualityProof,
) -> (r: Result<(), TransferError>)
    ensures
        r is Ok <==> equality_proof_accepts(*src_ct, *dst_ct, *src_pk, *dst_pk, *proof),
        r is Err ==> r == Result::<(), TransferError>::Err(TransferError::ProofVerificationError),
{
    let c = derive_statement_challenge(src_ct, dst_ct, src_pk, dst_pk, proof);

    let sh_1 = match scalar_from_canonical(&proof.sh_1) {
        Some(s) => s,
        None => { return Err(TransferError::ProofVerificationError) },
    };
    let rh_2 = match scalar_from_canonical(&proof.rh_2) {
        Some(s) => s,
        None => { return Err(TransferError::ProofVerificationError) },
    };
    let neg_one = match scalar_from_canonical(&NEG_ONE_BYTES) {
        Some(s) => s,
        None => { return Err(TransferError::ProofVerificationError) },
    };
    let neg_c = crate::curve::scalar_neg(&c);
    let neg_rh_2 = crate::curve::scalar_neg(&rh_2);

    let p_src_pk = match point_decompress(&src_pk.0) {
        Some(p) => p,
        None => { return Err(TransferError::ProofVerificationError) },
    };
    let p_h = match point_decompress(&COMPRESSED_H) {
        Some(p) => p,
        None => { return Err(TransferError::ProofVerificationError) },
    };
    let p_y0 = match point_decompress(&proof.y_0) {
        Some(p) => p,
        None => { return Err(TransferError::ProofVerificationError) },
    };
    let p_dst_pk = match point_decompress(&dst_pk.0) {
        Some(p) => p,
        None => { return Err(TransferError::ProofVerificationError) },
    };
    let p_dst_handle = match point_decompress(&dst_ct.handle) {
        Some(p) => p,
        None => { return Err(TransferError::ProofVerificationError) },
    };
    let p_y1 = match point_decompress(&proof.y_1) {
        Some(p) => p,
        None => { return Err(TransferError::ProofVerificationError) },
    };
    let p_src_handle = match point_decompress(&src_ct.handle) {
        Some(p) => p,
        None => { return Err(TransferError::ProofVerificationError) },
    };
    let p_src_comm = match point_decompress(&src_ct.commitment) {
        Some(p) => p,
        None => { return Err(TransferError::ProofVerificationError) },
    };
    let p_dst_comm = match point_decompress(&dst_ct.commitment) {
        Some(p) => p,
        None => { return Err(TransferError::ProofVerificationError) },
    };
    let p_y2 = match point_decompress(&proof.y_2) {
        Some(p) => p,
        None => { return Err(TransferError::ProofVerificationError) },
    };

    let mut sa: Vec<CanonicalScalar> = Vec::new();
    sa.push(sh_1);
    sa.push(neg_c);
    sa.push(neg_one);
    let mut pa: Vec<DecodedPoint> = Vec::new();
    pa.push(p_src_pk);
    pa.push(p_h);
    pa.push(p_y0);
    proof {
        assert(scalar_srcs(sa@) =~~= seq![
            proof.sh_1@,
            neg_scalar_of(c@),
            NEG_ONE_BYTES@,
        ]);
        assert(point_srcs(pa@) =~~= seq![src_pk.0@, COMPRESSED_H@, proof.y_0@]);
    }
    if !relation_holds(sa, pa) {
        return Err(TransferError::ProofVerificationError);
    }

    let mut sb: Vec<CanonicalScalar> = Vec::new();
    sb.push(rh_2);
    sb.push(neg_c);
    sb.push(neg_one);
    let mut pb: Vec<DecodedPoint> = Vec::new();
    pb.push(p_dst_pk);
    pb.push(p_dst_handle);
    pb.push(p_y1);
    proof {
        assert(scalar_srcs(sb@) =~~= seq![
            proof.rh_2@,
            neg_scalar_of(c@),
            NEG_ONE_BYTES@,
        ]);
        assert(point_srcs(pb@) =~~= seq![dst_pk.0@, dst_ct.handle@, proof.y_1@]);
    }
    if !relation_holds(sb, pb) {
        return Err(TransferError::ProofVerificationError);
    }

    let mut sc: Vec<CanonicalScalar> = Vec::new();
    sc.push(sh_1);
    sc.push(neg_c);
    sc.push(c);
    sc.push(neg_rh_2);
    sc.push(neg_one);
    let mut pc: Vec<DecodedPoint> = Vec::new();
    pc.push(p_src_handle);
    pc.push(p_src_comm);
    pc.push(p_dst_comm);
    pc.push(p_h);
    pc.push(p_y2);
    proof {
        assert(scalar_srcs(sc@) =~~= seq![
            proof.sh_1@,
            neg_scalar_of(statement_challenge(*src_ct, *dst_ct, *src_pk, *dst_pk, *proof)),
            statement_challenge(*src_ct, *dst_ct, *src_pk, *dst_pk, *proof),
            neg_scalar_of(proof.rh_2@),
            NEG_ONE_BYTES@,
        ]);
        assert(point_srcs(pc@) =~~= seq![
            src_ct.handle@,
            src_ct.commitment@,
            dst_ct.commitment@,
            COMPRESSED_H@,
            proof.y_2@,
        ]);
    }
    if !relation_holds(sc, pc) {
        return Err(TransferError::ProofVerificationError);
    }

    Ok(())
}

} // verus!
