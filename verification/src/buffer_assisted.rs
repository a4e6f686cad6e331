//! Buffer-assisted proof verification: the multiscalar multiplications are
//! performed by a separate general-purpose arithmetic evaluator, and this
//! module checks that the evaluator's published inputs and outputs are
//! exactly what direct verification would compute.
//!
//! Four things are checked, in order: the evaluator's control header names
//! this call's authority and buffers and reports a completed run; the
//! program-code buffer holds, byte for byte, the one fixed program; the
//! input buffer holds the eleven statement points and eleven response
//! scalars derived from the submitted transfer; and each of the three
//! published result points is the group's identity.
//!
//! Any failure among these checks is reported as the same single opaque
//! proof-verification error that direct verification gives, so that nothing
//! is revealed about which step or relation failed.

use vstd::prelude::*;

use crate::curve::neg_scalar_of;
use crate::curve::scalar_from_canonical;
use crate::curve::scalar_neg;
use crate::equality_proof::statement_challenge;
use crate::equality_proof::statement_points;
use crate::equality_proof::statement_scalars;
use crate::equality_proof::derive_statement_challenge;
use crate::equality_proof::COMPRESSED_H;
use crate::equality_proof::NEG_ONE_BYTES;
use crate::error::TransferError;
use crate::pod::bytes32_eq;
use crate::pod::AccountId;
use crate::transfer_proof::TransferData;

verus! {

/// Byte size of an evaluation buffer's control header. The payload of every
/// evaluator buffer starts at this offset.
pub const HEADER_SIZE: usize = 128;

/// Number of instructions of the fixed evaluator program.
pub const DSL_INSTRUCTION_COUNT: u32 = 17;

/// Byte length of the fixed evaluator program.
pub const DSL_INSTRUCTION_BYTES_LEN: usize = 68;

/// The fixed evaluator program that computes this proof's three multiscalar
/// multiplications: decompress the eleven input points, accumulate the
/// three weighted sums, write the three results. The program-code buffer
/// must hold exactly these bytes; they are compared verbatim and never
/// interpreted here.
pub const DSL_INSTRUCTION_BYTES: [u8; 68] = [
    1, 128, 0, 0, 1, 160, 0, 0, 1, 192, 0, 0, 1, 224, 0, 0,
    1, 0, 1, 0, 1, 32, 1, 0, 1, 64, 1, 0, 1, 96, 1, 0,
    1, 128, 1, 0, 1, 160, 1, 0, 1, 192, 1, 0, 2, 3, 0, 0,
    2, 3, 3, 3, 2, 5, 6, 6, 3, 0, 0, 0, 3, 1, 0, 0,
    3, 2, 0, 0,
];

/// The little-endian byte encoding of the field's modulus: together with
/// zero itself, the only 255-bit value congruent to zero.
pub const FIELD_MODULUS_BYTES: [u8; 32] = [
    0xed, 0xff, 0xff, 0xff, 0xff, 0xff, 0xff, 0xff, 0xff, 0xff, 0xff, 0xff, 0xff, 0xff, 0xff,
    0xff, 0xff, 0xff, 0xff, 0xff, 0xff, 0xff, 0xff, 0xff, 0xff, 0xff, 0xff, 0xff, 0xff, 0xff,
    0xff, 0x7f,
];

/// Whether 32 bytes encode the field element zero: the stored value is read
/// little-endian with the top bit ignored, so of the values below two to
/// the 255th exactly zero and the modulus itself are congruent to zero.
pub open spec fn fe_bytes_is_zero(s: Seq<u8>) -> bool {
    let masked = s.update(31, (s[31] & 0x7f) as u8);
    masked == Seq::new(32, |i: int| 0u8) || masked == FIELD_MODULUS_BYTES@
}

/// Whether a 128-byte extended-coordinate point encoding (the coordinates
/// X, Y, Z, T, 32 bytes each) denotes the group's identity element: the
/// quotient group's equality test against the identity reduces to the X or
/// the Y coordinate being zero.
pub open spec fn edwards_raw_identity(b: Seq<u8>) -> bool {
    fe_bytes_is_zero(b.subrange(0, 32)) || fe_bytes_is_zero(b.subrange(32, 64))
}

/// The value of four little-endian bytes of `s` starting at `off`.
pub open spec fn u32_le_at(s: Seq<u8>, off: int) -> int {
    (s[off] as int) + 256 * (s[off + 1] as int) + 65536 * (s[off + 2] as int) + 16777216 * (s[off
        + 3] as int)
}

/// The evaluator's control header: offsets 0, 32 and 64 hold the authority
/// and the two buffer addresses; offset 96 holds the count of instructions
/// run, little-endian.
pub open spec fn header_authority(s: Seq<u8>) -> Seq<u8> {
    s.subrange(0, 32)
}

/// The program-code buffer address named by the header.
pub open spec fn header_instruction_buffer(s: Seq<u8>) -> Seq<u8> {
    s.subrange(32, 64)
}

/// The input buffer address named by the header.
pub open spec fn header_input_buffer(s: Seq<u8>) -> Seq<u8> {
    s.subrange(64, 96)
}

/// The count of instructions the evaluator reports having run.
pub open spec fn header_instruction_num(s: Seq<u8>) -> int {
    u32_le_at(s, 96)
}

/// Whether the input buffer publishes, right after its header, the eleven
/// statement points of this transfer, byte for byte.
pub open spec fn input_points_match(t: TransferData, input: Seq<u8>) -> bool {
    forall|i: int|
        0 <= i < 11 ==> input.subrange(HEADER_SIZE + 32 * i, HEADER_SIZE + 32 * i + 32)
            == statement_points(
            t.src_cipher_key_chunk_ct,
            t.dst_cipher_key_chunk_ct,
            t.transfer_public_keys.src_pubkey,
            t.transfer_public_keys.dst_pubkey,
            t.proof,
        )[i]
}

/// Whether the input buffer publishes, right after the points, the eleven
/// response scalars recomputed from the proof and the freshly derived
/// challenge, byte for byte. Expected and published encodings are both
/// canonical, so byte equality is scalar equality, and a non-canonical
/// published scalar can never match.
pub open spec fn input_scalars_match(t: TransferData, input: Seq<u8>) -> bool {
    forall|i: int|
        0 <= i < 11 ==> input.subrange(HEADER_SIZE + 352 + 32 * i, HEADER_SIZE + 352 + 32 * i + 32)
            == statement_scalars(
            t.proof,
            statement_challenge(
                t.src_cipher_key_chunk_ct,
                t.dst_cipher_key_chunk_ct,
                t.transfer_public_keys.src_pubkey,
                t.transfer_public_keys.dst_pubkey,
                t.proof,
            ),
        )[i]
}

/// Whether all three published 128-byte results, right after the compute
/// buffer's header, are the identity.
pub open spec fn compute_results_identity(compute: Seq<u8>) -> bool {
    forall|i: int|
        0 <= i < 3 ==> edwards_raw_identity(
            #[trigger] compute.subrange(HEADER_SIZE + 128 * i, HEADER_SIZE + 128 * i + 128),
        )
}

/// Whether the buffer-assisted proof checks all pass, in the order they
/// run: header bindings, program code, statement points, canonical response
/// scalars, then the three results. Any failure is the one opaque
/// proof-verification error, so the result is only pass or fail.
pub open spec fn slow_proof_ok(
    t: TransferData,
    authority: AccountId,
    instruction_buffer_key: AccountId,
    input_buffer_key: AccountId,
    instruction_data: Seq<u8>,
    input_data: Seq<u8>,
    compute_data: Seq<u8>,
) -> bool {
    &&& compute_data.len() >= HEADER_SIZE
    &&& header_authority(compute_data) == authority.0@
    &&& header_instruction_buffer(compute_data) == instruction_buffer_key.0@
    &&& header_input_buffer(compute_data) == input_buffer_key.0@
    &&& header_instruction_num(compute_data) == DSL_INSTRUCTION_COUNT
    &&& instruction_data.len() == HEADER_SIZE + DSL_INSTRUCTION_BYTES_LEN
    &&& instruction_data.subrange(HEADER_SIZE as int, instruction_data.len() as int)
        == DSL_INSTRUCTION_BYTES@
    &&& input_data.len() >= HEADER_SIZE + 704
    &&& input_points_match(t, input_data)
    &&& crate::curve::scalar_ok(t.proof.sh_1@)
    &&& crate::curve::scalar_ok(t.proof.rh_2@)
    &&& crate::curve::scalar_ok(NEG_ONE_BYTES@)
    &&& input_scalars_match(t, input_data)
    &&& compute_data.len() >= HEADER_SIZE + 384
    &&& compute_results_identity(compute_data)
}

/// The outcome of the buffer-assisted proof checks: every mismatch in any
/// step is reported as the same single opaque verification error as a
/// failure of direct verification, revealing nothing of which step failed.
pub open spec fn slow_proof_check(
    t: TransferData,
    authority: AccountId,
    instruction_buffer_key: AccountId,
    input_buffer_key: AccountId,
    instruction_data: Seq<u8>,
    input_data: Seq<u8>,
    compute_data: Seq<u8>,
) -> Option<TransferError> {
    if slow_proof_ok(
        t,
        authority,
        instruction_buffer_key,
        input_buffer_key,
        instruction_data,
        input_data,
        compute_data,
    ) {
        None
    } else {
        Some(TransferError::ProofVerificationError)
    }
}

/// Compares the 32 bytes of `data` at `off` against `expected`.
fn region_eq(data: &[u8], off: usize, expected: &[u8; 32]) -> (r: bool)
    requires
        off + 32 <= data@.len(),
    ensures
        r == (data@.subrange(off as int, off as int + 32) == expected@),
{
    let n: usize = data.len();
    let mut i: usize = 0;
    while i < 32
        invariant
            i <= 32,
            off + 32 <= n == data@.len(),
            forall|j: int| 0 <= j < i ==> data@[off + j] == expected@[j],
        decreases 32 - i,
    {
        if data[off + i] != expected[i] {
            proof {
                assert(data@.subrange(off as int, off as int + 32)[i as int] != expected@[i as int]);
            }
            return false;
        }
        i += 1;
    }
    proof {
        assert(data@.subrange(off as int, off as int + 32) =~= expected@);
    }
    true
}

/// The `i`th statement point of a transfer, as 32 bytes.
fn statement_point_at(t: &TransferData, i: usize) -> (r: [u8; 32])
    requires
        i < 11,
    ensures
        r@ == statement_points(
            t.src_cipher_key_chunk_ct,
            t.dst_cipher_key_chunk_ct,
            t.transfer_public_keys.src_pubkey,
            t.transfer_public_keys.dst_pubkey,
            t.proof,
        )[i as int],
{
    match i {
        0 => t.transfer_public_keys.src_pubkey.0,
        1 => COMPRESSED_H,
        2 => t.proof.y_0,
        3 => t.transfer_public_keys.dst_pubkey.0,
        4 => t.dst_cipher_key_chunk_ct.handle,
        5 => t.proof.y_1,
        6 => t.src_cipher_key_chunk_ct.handle,
        7 => t.src_cipher_key_chunk_ct.commitment,
        8 => t.dst_cipher_key_chunk_ct.commitment,
        9 => COMPRESSED_H,
        _ => t.proof.y_2,
    }
}

/// The `i`th expected response scalar of a transfer, as 32 bytes, given the
/// challenge and the two precomputed negations.
fn statement_scalar_at(
    t: &TransferData,
    c: &[u8; 32],
    neg_c: &[u8; 32],
    neg_rh_2: &[u8; 32],
    i: usize,
) -> (r: [u8; 32])
    requires
        i < 11,
        neg_c@ == neg_scalar_of(c@),
        neg_rh_2@ == neg_scalar_of(t.proof.rh_2@),
    ensures
        r@ == statement_scalars(t.proof, c@)[i as int],
{
    match i {
        0 => t.proof.sh_1,
        1 => *neg_c,
        2 => NEG_ONE_BYTES,
        3 => t.proof.rh_2,
        4 => *neg_c,
        5 => NEG_ONE_BYTES,
        6 => *c,
        7 => *neg_c,
        8 => t.proof.sh_1,
        9 => *neg_rh_2,
        _ => NEG_ONE_BYTES,
    }
}

/// Checks whether 32 bytes of `data` at `off` encode the field element
/// zero, reading little-endian with the top bit ignored.
fn fe_region_is_zero(data: &[u8], off: usize) -> (r: bool)
    requires
        off + 32 <= data@.len(),
    ensures
        r == fe_bytes_is_zero(data@.subrange(off as int, off as int + 32)),
{
    let region = crate::equality_proof::copy32(data, off);
    let mut masked = region;
    masked[31] = masked[31] & 0x7f;
    proof {
        assert(masked@ =~= data@.subrange(off as int, off as int + 32).update(
            31,
            (data@.subrange(off as int, off as int + 32)[31] & 0x7f) as u8,
        ));
    }
    let zero: [u8; 32] = [0; 32];
    let r = bytes32_eq(&masked, &zero) || bytes32_eq(&masked, &FIELD_MODULUS_BYTES);
    proof {
        assert(zero@ =~= Seq::new(32, |i: int| 0u8));
    }
    r
}

/// Checks whether the 128-byte point encoding of `data` at `off` denotes
/// the identity: its X or its Y coordinate is zero.
fn edwards_region_is_identity(data: &[u8], off: usize) -> (r: bool)
    requires
        off + 128 <= data@.len(),
    ensures
        r == edwards_raw_identity(data@.subrange(off as int, off as int + 128)),
{
    let n: usize = data.len();
    let x_zero = fe_region_is_zero(data, off);
    let y_zero = fe_region_is_zero(data, off + 32);
    proof {
        let region = data@.subrange(off as int, off as int + 128);
        assert(data@.subrange(off as int, off as int + 32) =~= region.subrange(0, 32));
        assert(data@.subrange(off as int + 32, off as int + 64) =~= region.subrange(32, 64));
    }
    x_zero || y_zero
}

/// Runs the buffer-assisted proof checks in order and reports the first
/// failure. Reads only; decides nothing about the transfer buffer.
#[verifier::loop_isolation(false)]
pub fn verify_transfer_slow(
    t: &TransferData,
    authority: &AccountId,
    instruction_buffer_key: &AccountId,
    input_buffer_key: &AccountId,
    instruction_data: &[u8],
    input_data: &[u8],
    compute_data: &[u8],
) -> (r: Result<(), TransferError>)
    ensures
        match r {
            Ok(()) => slow_proof_check(
                *t,
                *authority,
                *instruction_buffer_key,
                *input_buffer_key,
                instruction_data@,
                input_data@,
                compute_data@,
            ) is None,
            Err(e) => Some(e) == slow_proof_check(
                *t,
                *authority,
                *instruction_buffer_key,
                *input_buffer_key,
                instruction_data@,
                input_data@,
                compute_data@,
            ),
        },
{
    if compute_data.len() < HEADER_SIZE {
        return Err(TransferError::ProofVerificationError);
    }
    if !region_eq(compute_data, 0, &authority.0) {
        return Err(TransferError::ProofVerificationError);
    }
    if !region_eq(compute_data, 32, &instruction_buffer_key.0) {
        return Err(TransferError::ProofVerificationError);
    }
    if !region_eq(compute_data, 64, &input_buffer_key.0) {
        return Err(TransferError::ProofVerificationError);
    }
    let reported: u32 = (compute_data[96] as u32) + 256 * (compute_data[97] as u32) + 65536 * (
    compute_data[98] as u32) + 16777216 * (compute_data[99] as u32);
    if reported != DSL_INSTRUCTION_COUNT {
        return Err(TransferError::ProofVerificationError);
    }

    if instruction_data.len() != HEADER_SIZE + DSL_INSTRUCTION_BYTES_LEN {
        return Err(TransferError::ProofVerificationError);
    }
    let mut i: usize = 0;
    while i < DSL_INSTRUCTION_BYTES_LEN
        invariant
            i <= DSL_INSTRUCTION_BYTES_LEN,
            instruction_data@.len() == HEADER_SIZE + DSL_INSTRUCTION_BYTES_LEN,
            forall|j: int| 0 <= j < i ==> instruction_data@[HEADER_SIZE + j] == DSL_INSTRUCTION_BYTES@[j],
        decreases DSL_INSTRUCTION_BYTES_LEN - i,
    {
        if instruction_data[HEADER_SIZE + i] != DSL_INSTRUCTION_BYTES[i] {
            proof {
                assert(instruction_data@.subrange(
                    HEADER_SIZE as int,
                    instruction_data@.len() as int,
                )[i as int] != DSL_INSTRUCTION_BYTES@[i as int]);
            }
            return Err(TransferError::ProofVerificationError);
        }
        i += 1;
    }
    proof {
        assert(instruction_data@.subrange(HEADER_SIZE as int, instruction_data@.len() as int)
            =~= DSL_INSTRUCTION_BYTES@);
    }

    if input_data.len() < HEADER_SIZE + 704 {
        return Err(TransferError::ProofVerificationError);
    }
    let mut i: usize = 0;
    while i < 11
        invariant
            i <= 11,
            input_data@.len() >= HEADER_SIZE + 704,
            forall|j: int|
                0 <= j < i ==> input_data@.subrange(HEADER_SIZE + 32 * j, HEADER_SIZE + 32 * j + 32)
                    == statement_points(
                    t.src_cipher_key_chunk_ct,
                    t.dst_cipher_key_chunk_ct,
                    t.transfer_public_keys.src_pubkey,
                    t.transfer_public_keys.dst_pubkey,
                    t.proof,
                )[j],
        decreases 11 - i,
    {
        let expected = statement_point_at(t, i);
        if !region_eq(input_data, HEADER_SIZE + 32 * i, &expected) {
            return Err(TransferError::ProofVerificationError);
        }
        i += 1;
    }

    if scalar_from_canonical(&t.proof.sh_1).is_none() {
        return Err(TransferError::ProofVerificationError);
    }
    if scalar_from_canonical(&NEG_ONE_BYTES).is_none() {
        return Err(TransferError::ProofVerificationError);
    }
    let c_scalar = derive_statement_challenge(
        &t.src_cipher_key_chunk_ct,
        &t.dst_cipher_key_chunk_ct,
        &t.transfer_public_keys.src_pubkey,
        &t.transfer_public_keys.dst_pubkey,
        &t.proof,
    );
    let c = c_scalar.to_bytes();
    let neg_c = scalar_neg(&c_scalar).to_bytes();
    let rh_2_scalar = match scalar_from_canonical(&t.proof.rh_2) {
        Some(s) => s,
        None => { return Err(TransferError::ProofVerificationError) },
    };
    let neg_rh_2 = scalar_neg(&rh_2_scalar).to_bytes();

    let mut i: usize = 0;
    while i < 11
        invariant
            i <= 11,
            input_data@.len() >= HEADER_SIZE + 704,
            c@ == statement_challenge(
                t.src_cipher_key_chunk_ct,
                t.dst_cipher_key_chunk_ct,
                t.transfer_public_keys.src_pubkey,
                t.transfer_public_keys.dst_pubkey,
                t.proof,
            ),
            neg_c@ == neg_scalar_of(c@),
            neg_rh_2@ == neg_scalar_of(t.proof.rh_2@),
            forall|j: int|
                0 <= j < i ==> input_data@.subrange(
                    HEADER_SIZE + 352 + 32 * j,
                    HEADER_SIZE + 352 + 32 * j + 32,
                ) == statement_scalars(t.proof, c@)[j],
        decreases 11 - i,
    {
        let expected = statement_scalar_at(t, &c, &neg_c, &neg_rh_2, i);
        if !region_eq(input_data, HEADER_SIZE + 352 + 32 * i, &expected) {
            return Err(TransferError::ProofVerificationError);
        }
        i += 1;
    }

    if compute_data.len() < HEADER_SIZE + 384 {
        return Err(TransferError::ProofVerificationError);
    }
    let mut i: usize = 0;
    while i < 3
        invariant
            i <= 3,
            compute_data@.len() >= HEADER_SIZE + 384,
            forall|j: int|
                0 <= j < i ==> edwards_raw_identity(
                    #[trigger] compute_data@.subrange(
                        HEADER_SIZE + 128 * j,
                        HEADER_SIZE + 128 * j + 128,
                    ),
                ),
        decreases 3 - i,
    {
        if !edwards_region_is_identity(compute_data, HEADER_SIZE + 128 * i) {
            return Err(TransferError::ProofVerificationError);
        }
        i += 1;
    }

    Ok(())
}

} // verus!
